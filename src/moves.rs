//! Finding the destinations of a piece: catalog lookup, projection of each
//! rule, and the bounds filter.
use vstd::prelude::*;

use crate::board::{chess_board, on_board, standard_chess_board};
use crate::catalog::{catalog, rule_set, Piece};
use crate::rules::{concat, origin, projectable, projection, MoveRule};
use crate::vector::{points, scale_fits, slide_fits, turned, Point, Rotate, Vector, MAX_SLIDE};

verus! {

/// The destinations of `rules` from `at`, concatenated in rule order.
pub open spec fn candidates(rules: Seq<MoveRule>, at: Point) -> Seq<Point>
    decreases rules.len(),
{
    if rules.len() == 0 {
        Seq::empty()
    } else {
        candidates(rules.drop_last(), at) + projection(rules.last(), at)
    }
}

/// The destinations of `piece` from `at` that lie on the standard board, in order.
pub open spec fn moves(piece: Piece, at: Point) -> Seq<Point> {
    candidates(catalog(piece), at).filter(|p: Point| on_board(chess_board(), p))
}

/// Whether every candidate computed from `at` fits in an `isize`: the rules of
/// the catalog reach at most `MAX_SLIDE` squares along each axis.
pub open spec fn within_reach(at: Point) -> bool {
    &&& isize::MIN + MAX_SLIDE <= at.0 <= isize::MAX - MAX_SLIDE
    &&& isize::MIN + MAX_SLIDE <= at.1 <= isize::MAX - MAX_SLIDE
}

proof fn lemma_unit_slide_fits(direction: Point, at: Point)
    requires
        within_reach(at),
        -1 <= direction.0 <= 1,
        -1 <= direction.1 <= 1,
    ensures
        slide_fits(direction, at),
{
    assert forall|f: int| 1 <= f <= MAX_SLIDE implies #[trigger] scale_fits(direction, at, f) by {
        assert(-MAX_SLIDE <= direction.0 * f <= MAX_SLIDE) by (nonlinear_arith)
            requires
                -1 <= direction.0 <= 1,
                1 <= f <= MAX_SLIDE,
        ;
        assert(-MAX_SLIDE <= direction.1 * f <= MAX_SLIDE) by (nonlinear_arith)
            requires
                -1 <= direction.1 <= 1,
                1 <= f <= MAX_SLIDE,
        ;
    }
}

proof fn lemma_sliding_projectable(direction: Vector, at: Point)
    requires
        within_reach(at),
        -1 <= direction.x <= 1,
        -1 <= direction.y <= 1,
    ensures
        projectable(MoveRule::RelativeRotatableScalable(direction), at),
{
    lemma_unit_slide_fits(direction@, at);
    lemma_unit_slide_fits(turned(direction@, origin(), Rotate::Ninety), at);
    lemma_unit_slide_fits(turned(direction@, origin(), Rotate::OneEighty), at);
    lemma_unit_slide_fits(turned(direction@, origin(), Rotate::TwoSeventy), at);
}

proof fn lemma_catalog_projectable(piece: Piece, at: Point)
    requires
        within_reach(at),
    ensures
        forall|i: int| 0 <= i < catalog(piece).len() ==> projectable(#[trigger] catalog(piece)[i], at),
{
    lemma_sliding_projectable(Vector { x: 0, y: 1 }, at);
    lemma_sliding_projectable(Vector { x: 1, y: 1 }, at);
}

/// Every destination that `find_moves` reports lies on the standard board.
pub proof fn lemma_moves_on_board(piece: Piece, at: Point)
    ensures
        forall|i: int|
            0 <= i < moves(piece, at).len() ==> on_board(chess_board(), #[trigger] moves(piece, at)[i]),
{
    let keep = |p: Point| on_board(chess_board(), p);
    assert forall|i: int| 0 <= i < moves(piece, at).len() implies on_board(
        chess_board(),
        #[trigger] moves(piece, at)[i],
    ) by {
        candidates(catalog(piece), at).lemma_filter_pred(keep, i);
    }
}

/// The squares of the standard board that `piece` may reach from `location`,
/// rule by rule in catalog order, duplicates kept.
pub fn find_moves(piece: Piece, location: &Vector) -> (r: Vec<Vector>)
    requires
        within_reach(location@),
    ensures
        points(r@) == moves(piece, location@),
{
    let rule_set = rule_set();
    let rules = rule_set.get(&piece).unwrap();
    let board = standard_chess_board();
    proof {
        lemma_catalog_projectable(piece, location@);
    }
    let ghost rules_view = catalog(piece);
    let mut all: Vec<Vector> = Vec::new();
    for i in 0..rules.len()
        invariant
            rules@ == rules_view,
            rules_view == catalog(piece),
            forall|k: int| 0 <= k < rules_view.len() ==> projectable(#[trigger] rules_view[k], location@),
            points(all@) == candidates(rules_view.take(i as int), location@),
    {
        concat(&mut all, rules[i].project(location));
        assert(rules_view.take(i + 1).drop_last() =~= rules_view.take(i as int));
    }
    assert(rules_view.take(rules_view.len() as int) =~= rules_view);
    let ghost on_standard = |p: Point| on_board(chess_board(), p);
    let mut found: Vec<Vector> = Vec::new();
    for j in 0..all.len()
        invariant
            board == chess_board(),
            points(found@) == points(all@.take(j as int)).filter(on_standard),
            on_standard == (|p: Point| on_board(chess_board(), p)),
    {
        proof {
            reveal(Seq::filter);
            assert(points(all@.take(j + 1)).drop_last() =~= points(all@.take(j as int)));
        }
        if board.contains(&all[j]) {
            let ghost before = found@;
            found.push(all[j]);
            assert(points(found@) =~= points(before).push(all@[j as int]@));
        }
    }
    assert(all@.take(all@.len() as int) =~= all@);
    found
}

} // verus!
