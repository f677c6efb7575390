//! The kinds of piece and the catalog of movement rules for each.
use vstd::prelude::*;

use crate::rules::MoveRule;
use crate::vector::Vector;

verus! {

/// A kind of chess piece.
#[derive(Clone, Copy, Debug, PartialEq, Eq, Hash, Structural)]
pub enum Piece {
    Pawn,
    Knight,
    Castle,
    Bishop,
    Queen,
    King,
}

/// The number of kinds of piece.
pub const PIECE_KINDS: usize = 6;

/// The position of `piece` in a table with one entry per kind.
pub open spec fn slot(piece: Piece) -> int {
    match piece {
        Piece::Pawn => 0,
        Piece::Knight => 1,
        Piece::Castle => 2,
        Piece::Bishop => 3,
        Piece::Queen => 4,
        Piece::King => 5,
    }
}

fn slot_of(piece: &Piece) -> (r: usize)
    ensures
        r == slot(*piece),
{
    match piece {
        Piece::Pawn => 0,
        Piece::Knight => 1,
        Piece::Castle => 2,
        Piece::Bishop => 3,
        Piece::Queen => 4,
        Piece::King => 5,
    }
}

/// The movement rules of `piece`, in the order in which they are applied.
pub open spec fn catalog(piece: Piece) -> Seq<MoveRule> {
    match piece {
        Piece::Pawn => seq![
            MoveRule::Absolute { required_rank: 2, vector: Vector { x: 0, y: 2 } },
            MoveRule::Relative(Vector { x: 0, y: 1 }),
        ],
        Piece::Knight => seq![
            MoveRule::RelativeRotatable(Vector { x: 1, y: 2 }),
            MoveRule::RelativeRotatable(Vector { x: 2, y: 1 }),
        ],
        Piece::Castle => seq![MoveRule::RelativeRotatableScalable(Vector { x: 0, y: 1 })],
        Piece::Bishop => seq![MoveRule::RelativeRotatableScalable(Vector { x: 1, y: 1 })],
        Piece::Queen => seq![
            MoveRule::RelativeRotatableScalable(Vector { x: 0, y: 1 }),
            MoveRule::RelativeRotatableScalable(Vector { x: 1, y: 1 }),
        ],
        Piece::King => seq![
            MoveRule::RelativeRotatable(Vector { x: 0, y: 1 }),
            MoveRule::RelativeRotatable(Vector { x: 1, y: 1 }),
        ],
    }
}

/// A mapping from kinds of piece to their movement rules.
pub struct RuleSet {
    entries: Vec<Option<Vec<MoveRule>>>,
}

impl View for RuleSet {
    type V = Map<Piece, Seq<MoveRule>>;

    closed spec fn view(&self) -> Map<Piece, Seq<MoveRule>> {
        Map::new(
            |p: Piece| self.entries@[slot(p)] is Some,
            |p: Piece| self.entries@[slot(p)]->Some_0@,
        )
    }
}

impl RuleSet {
    /// Whether the table holds one entry per kind of piece.
    pub closed spec fn wf(&self) -> bool {
        self.entries@.len() == PIECE_KINDS
    }

    /// A rule set with no entries.
    pub fn new() -> (r: RuleSet)
        ensures
            r.wf(),
            r@ == Map::<Piece, Seq<MoveRule>>::empty(),
    {
        let r = RuleSet { entries: vec![None, None, None, None, None, None] };
        assert(r@ =~= Map::<Piece, Seq<MoveRule>>::empty());
        r
    }

    /// Sets the rules of `piece` to `rules`, replacing any it had.
    pub fn insert(&mut self, piece: Piece, rules: Vec<MoveRule>)
        requires
            old(self).wf(),
        ensures
            final(self).wf(),
            final(self)@ == old(self)@.insert(piece, rules@),
    {
        let ghost rules_view = rules@;
        let i = slot_of(&piece);
        self.entries.set(i, Some(rules));
        assert(self@ =~= old(self)@.insert(piece, rules_view));
    }

    /// Whether `piece` has an entry.
    pub fn contains_key(&self, piece: &Piece) -> (r: bool)
        requires
            self.wf(),
        ensures
            r == self@.contains_key(*piece),
    {
        self.entries[slot_of(piece)].is_some()
    }

    /// The rules of `piece`, if it has an entry.
    pub fn get(&self, piece: &Piece) -> (r: Option<&Vec<MoveRule>>)
        requires
            self.wf(),
        ensures
            r is Some <==> self@.contains_key(*piece),
            r is Some ==> r->Some_0@ == self@[*piece],
    {
        self.entries[slot_of(piece)].as_ref()
    }
}

/// The catalog of movement rules, with an entry for every kind of piece.
pub fn rule_set() -> (r: RuleSet)
    ensures
        r.wf(),
        r@ == Map::total(|p: Piece| catalog(p)),
{
    let mut rule_set = RuleSet::new();
    let pawn = vec![
        MoveRule::Absolute { required_rank: 2, vector: Vector { x: 0, y: 2 } },
        MoveRule::Relative(Vector { x: 0, y: 1 }),
    ];
    assert(pawn@ =~= catalog(Piece::Pawn));
    rule_set.insert(Piece::Pawn, pawn);
    let knight = vec![
        MoveRule::RelativeRotatable(Vector { x: 1, y: 2 }),
        MoveRule::RelativeRotatable(Vector { x: 2, y: 1 }),
    ];
    assert(knight@ =~= catalog(Piece::Knight));
    rule_set.insert(Piece::Knight, knight);
    let castle = vec![MoveRule::RelativeRotatableScalable(Vector { x: 0, y: 1 })];
    assert(castle@ =~= catalog(Piece::Castle));
    rule_set.insert(Piece::Castle, castle);
    let bishop = vec![MoveRule::RelativeRotatableScalable(Vector { x: 1, y: 1 })];
    assert(bishop@ =~= catalog(Piece::Bishop));
    rule_set.insert(Piece::Bishop, bishop);
    let queen = vec![
        MoveRule::RelativeRotatableScalable(Vector { x: 0, y: 1 }),
        MoveRule::RelativeRotatableScalable(Vector { x: 1, y: 1 }),
    ];
    assert(queen@ =~= catalog(Piece::Queen));
    rule_set.insert(Piece::Queen, queen);
    let king = vec![
        MoveRule::RelativeRotatable(Vector { x: 0, y: 1 }),
        MoveRule::RelativeRotatable(Vector { x: 1, y: 1 }),
    ];
    assert(king@ =~= catalog(Piece::King));
    rule_set.insert(Piece::King, king);
    assert(rule_set@ =~= Map::total(|p: Piece| catalog(p)));
    rule_set
}

} // verus!
