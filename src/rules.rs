//! Movement rules and their projection from a location into candidate squares.
use vstd::prelude::*;

use crate::vector::{
    fits, minus, plus, points, ray, slide_fits, stretched, turned, Point, Rotate, Vector, MAX_SLIDE,
};

verus! {

/// One way a piece may move.
#[derive(Clone, Copy, Debug, PartialEq, Eq, Structural)]
pub enum MoveRule {
    /// `vector` from the location, only when the piece stands on `required_rank`.
    Absolute { required_rank: isize, vector: Vector },
    /// `vector` from the location.
    Relative(Vector),
    /// The offset and its three quarter turns about the location.
    RelativeRotatable(Vector),
    /// Slides from the location along the direction and its three quarter turns.
    RelativeRotatableScalable(Vector),
}

/// The origin, about which sliding directions are turned.
pub open spec fn origin() -> Point {
    (0, 0)
}

/// The destinations that `rule` yields from `at`, in order.
pub open spec fn projection(rule: MoveRule, at: Point) -> Seq<Point> {
    match rule {
        MoveRule::Absolute { required_rank, vector } => {
            if at.1 == required_rank as int {
                seq![plus(at, vector@)]
            } else {
                Seq::empty()
            }
        },
        MoveRule::Relative(vector) => seq![plus(at, vector@)],
        MoveRule::RelativeRotatable(vector) => seq![
            plus(at, vector@),
            turned(vector@, at, Rotate::Ninety),
            turned(vector@, at, Rotate::OneEighty),
            turned(vector@, at, Rotate::TwoSeventy),
        ],
        MoveRule::RelativeRotatableScalable(vector) => {
            ray(vector@, at) + ray(turned(vector@, origin(), Rotate::Ninety), at) + ray(
                turned(vector@, origin(), Rotate::OneEighty),
                at,
            ) + ray(turned(vector@, origin(), Rotate::TwoSeventy), at)
        },
    }
}

/// Whether every coordinate computed while projecting `rule` from `at` fits in an `isize`.
pub open spec fn projectable(rule: MoveRule, at: Point) -> bool {
    match rule {
        MoveRule::Absolute { required_rank, vector } => at.1 == required_rank as int ==> fits(
            plus(at, vector@),
        ),
        MoveRule::Relative(vector) => fits(plus(at, vector@)),
        MoveRule::RelativeRotatable(vector) => {
            &&& fits(plus(at, vector@))
            &&& fits(turned(vector@, at, Rotate::Ninety))
            &&& fits(turned(vector@, at, Rotate::OneEighty))
            &&& fits(turned(vector@, at, Rotate::TwoSeventy))
        },
        MoveRule::RelativeRotatableScalable(vector) => {
            &&& fits(turned(vector@, origin(), Rotate::Ninety))
            &&& fits(turned(vector@, origin(), Rotate::OneEighty))
            &&& fits(turned(vector@, origin(), Rotate::TwoSeventy))
            &&& slide_fits(vector@, at)
            &&& slide_fits(turned(vector@, origin(), Rotate::Ninety), at)
            &&& slide_fits(turned(vector@, origin(), Rotate::OneEighty), at)
            &&& slide_fits(turned(vector@, origin(), Rotate::TwoSeventy), at)
        },
    }
}

/// Appends `tail` to `head`, keeping the points of both in order.
pub(crate) fn concat(head: &mut Vec<Vector>, tail: Vec<Vector>)
    ensures
        points(final(head)@) == points(old(head)@) + points(tail@),
{
    let ghost before = head@;
    let ghost added = tail@;
    let mut tail = tail;
    head.append(&mut tail);
    assert(points(head@) =~= points(before) + points(added));
}

impl MoveRule {
    /// The destinations that this rule yields from `location`, before any bounds check.
    pub fn project(&self, location: &Vector) -> (r: Vec<Vector>)
        requires
            projectable(*self, location@),
        ensures
            points(r@) == projection(*self, location@),
    {
        match self {
            MoveRule::Absolute { required_rank, vector } => {
                if *required_rank == location.y {
                    let r = vec![location.add(vector)];
                    assert(points(r@) =~= projection(*self, location@));
                    r
                } else {
                    let r: Vec<Vector> = Vec::new();
                    assert(points(r@) =~= projection(*self, location@));
                    r
                }
            },
            MoveRule::Relative(vector) => {
                let r = vec![location.add(vector)];
                assert(points(r@) =~= projection(*self, location@));
                r
            },
            MoveRule::RelativeRotatable(vector) => {
                let first_move = location.add(vector);
                let r = vec![
                    first_move,
                    vector.rotate(location, Rotate::Ninety),
                    vector.rotate(location, Rotate::OneEighty),
                    vector.rotate(location, Rotate::TwoSeventy),
                ];
                assert(points(r@) =~= projection(*self, location@));
                r
            },
            MoveRule::RelativeRotatableScalable(vector) => {
                let origin = Vector { x: 0, y: 0 };
                let mut r = vector.multiply(location);
                concat(&mut r, vector.rotate(&origin, Rotate::Ninety).multiply(location));
                concat(&mut r, vector.rotate(&origin, Rotate::OneEighty).multiply(location));
                concat(&mut r, vector.rotate(&origin, Rotate::TwoSeventy).multiply(location));
                r
            },
        }
    }
}

/// An `Absolute` rule contributes nothing from a location whose rank differs
/// from the rule's required rank.
pub proof fn lemma_absolute_off_rank(required_rank: isize, vector: Vector, at: Point)
    requires
        at.1 != required_rank as int,
    ensures
        projection(MoveRule::Absolute { required_rank, vector }, at) == Seq::<Point>::empty(),
{
}

/// A `RelativeRotatable` rule yields exactly four destinations, and turning
/// any of them a quarter about the location gives the next, the last turning
/// into the first.
pub proof fn lemma_rotatable_symmetric(vector: Vector, at: Point)
    ensures
        projection(MoveRule::RelativeRotatable(vector), at).len() == 4,
        forall|k: int|
            0 <= k < 4 ==> projection(MoveRule::RelativeRotatable(vector), at)[(k + 1) % 4]
                == turned(
                minus(#[trigger] projection(MoveRule::RelativeRotatable(vector), at)[k], at),
                at,
                Rotate::Ninety,
            ),
{
    let s = projection(MoveRule::RelativeRotatable(vector), at);
    assert forall|k: int| 0 <= k < 4 implies s[(k + 1) % 4] == turned(
        minus(#[trigger] s[k], at),
        at,
        Rotate::Ninety,
    ) by {
        if k == 0 {
            assert((k + 1) % 4 == 1);
        } else if k == 1 {
            assert((k + 1) % 4 == 2);
        } else if k == 2 {
            assert((k + 1) % 4 == 3);
        } else {
            assert((k + 1) % 4 == 0);
        }
    }
}

/// A `RelativeRotatableScalable` rule yields four slides of `MAX_SLIDE` steps
/// each, before any bounds check: along the direction and along its quarter,
/// half and three-quarter turns about the origin, each nearest step first.
pub proof fn lemma_sliding_shape(vector: Vector, at: Point)
    ensures
        projection(MoveRule::RelativeRotatableScalable(vector), at).len() == 4 * MAX_SLIDE,
        forall|f: int|
            1 <= f <= MAX_SLIDE ==> projection(MoveRule::RelativeRotatableScalable(vector), at)[f
                - 1] == #[trigger] stretched(vector@, at, f),
        forall|f: int|
            1 <= f <= MAX_SLIDE ==> projection(MoveRule::RelativeRotatableScalable(vector), at)[
                MAX_SLIDE + f - 1] == #[trigger] stretched(
                turned(vector@, origin(), Rotate::Ninety),
                at,
                f,
            ),
        forall|f: int|
            1 <= f <= MAX_SLIDE ==> projection(MoveRule::RelativeRotatableScalable(vector), at)[2
                * MAX_SLIDE + f - 1] == #[trigger] stretched(
                turned(vector@, origin(), Rotate::OneEighty),
                at,
                f,
            ),
        forall|f: int|
            1 <= f <= MAX_SLIDE ==> projection(MoveRule::RelativeRotatableScalable(vector), at)[3
                * MAX_SLIDE + f - 1] == #[trigger] stretched(
                turned(vector@, origin(), Rotate::TwoSeventy),
                at,
                f,
            ),
{
}

} // verus!
