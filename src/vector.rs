//! Integer 2D vectors and the geometric operations that move rules use.
use vstd::prelude::*;

verus! {

/// A point on the plane, in mathematical integers.
pub type Point = (int, int);

/// The farthest a sliding rule reaches, in steps.
pub const MAX_SLIDE: isize = 7;

/// Whether both coordinates of `p` fit in an `isize`.
pub open spec fn fits(p: Point) -> bool {
    &&& isize::MIN <= p.0 <= isize::MAX
    &&& isize::MIN <= p.1 <= isize::MAX
}

/// Component-wise sum.
pub open spec fn plus(a: Point, b: Point) -> Point {
    (a.0 + b.0, a.1 + b.1)
}

/// Component-wise difference.
pub open spec fn minus(a: Point, b: Point) -> Point {
    (a.0 - b.0, a.1 - b.1)
}

/// `offset` turned about `pivot`; the result is an absolute point.
pub open spec fn turned(offset: Point, pivot: Point, rotation: Rotate) -> Point {
    match rotation {
        Rotate::Ninety => (pivot.0 + offset.1, pivot.1 - offset.0),
        Rotate::OneEighty => (pivot.0 - offset.0, pivot.1 - offset.1),
        Rotate::TwoSeventy => (pivot.0 - offset.1, pivot.1 + offset.0),
    }
}

/// The point `factor` steps away from `center` in direction `offset`.
pub open spec fn stretched(offset: Point, center: Point, factor: int) -> Point {
    (center.0 + offset.0 * factor, center.1 + offset.1 * factor)
}

/// Whether scaling `offset` by `factor` from `center` stays within `isize`,
/// intermediate products included.
pub open spec fn scale_fits(offset: Point, center: Point, factor: int) -> bool {
    &&& fits((offset.0 * factor, offset.1 * factor))
    &&& fits(stretched(offset, center, factor))
}

/// Whether every step of the slide from `center` along `offset` stays within `isize`.
pub open spec fn slide_fits(offset: Point, center: Point) -> bool {
    forall|f: int| 1 <= f <= MAX_SLIDE ==> #[trigger] scale_fits(offset, center, f)
}

/// The slide from `center` along `offset`: steps one to `MAX_SLIDE`, nearest first.
pub open spec fn ray(offset: Point, center: Point) -> Seq<Point> {
    Seq::new(MAX_SLIDE as nat, |i: int| stretched(offset, center, i + 1))
}

/// The points of a sequence of vectors.
pub open spec fn points(vs: Seq<Vector>) -> Seq<Point> {
    vs.map_values(|v: Vector| v@)
}

/// A quarter, half or three-quarter turn (clockwise, with y pointing up).
#[derive(Clone, Copy, Debug, PartialEq, Eq, Structural)]
pub enum Rotate {
    Ninety,
    OneEighty,
    TwoSeventy,
}

/// A square of the board, or an offset between squares.
#[derive(Clone, Copy, Debug, PartialEq, Eq, Hash, Structural)]
pub struct Vector {
    pub x: isize,
    pub y: isize,
}

impl View for Vector {
    type V = Point;

    open spec fn view(&self) -> Point {
        (self.x as int, self.y as int)
    }
}

impl Vector {
    /// The component-wise sum of `self` and `other`.
    pub fn add(&self, other: &Vector) -> (r: Vector)
        requires
            fits(plus(self@, other@)),
        ensures
            r@ == plus(self@, other@),
    {
        Vector { x: self.x + other.x, y: self.y + other.y }
    }

    /// `self`, taken as an offset, turned about `pivot` and placed there.
    pub fn rotate(&self, pivot: &Vector, rotation: Rotate) -> (r: Vector)
        requires
            fits(turned(self@, pivot@, rotation)),
        ensures
            r@ == turned(self@, pivot@, rotation),
    {
        match rotation {
            Rotate::Ninety => Vector { x: pivot.x + self.y, y: pivot.y - self.x },
            Rotate::OneEighty => Vector { x: pivot.x - self.x, y: pivot.y - self.y },
            Rotate::TwoSeventy => Vector { x: pivot.x - self.y, y: pivot.y + self.x },
        }
    }

    /// The point `scaler` steps from `center` in direction `self`.
    pub fn scale(&self, center: &Vector, scaler: isize) -> (r: Vector)
        requires
            scale_fits(self@, center@, scaler as int),
        ensures
            r@ == stretched(self@, center@, scaler as int),
    {
        Vector { x: center.x + self.x * scaler, y: center.y + self.y * scaler }
    }

    /// The slide from `center` in direction `self`, one to `MAX_SLIDE` steps away.
    pub fn multiply(&self, center: &Vector) -> (r: Vec<Vector>)
        requires
            slide_fits(self@, center@),
        ensures
            points(r@) == ray(self@, center@),
    {
        let mut r: Vec<Vector> = Vec::new();
        let mut scaler: isize = 1;
        while scaler <= MAX_SLIDE
            invariant
                1 <= scaler <= MAX_SLIDE + 1,
                slide_fits(self@, center@),
                points(r@) == ray(self@, center@).take(scaler - 1),
            decreases MAX_SLIDE + 1 - scaler,
        {
            assert(scale_fits(self@, center@, scaler as int));
            let step = self.scale(center, scaler);
            proof {
                assert(points(r@.push(step)) =~= points(r@).push(step@));
            }
            r.push(step);
            assert(points(r@) =~= ray(self@, center@).take(scaler as int));
            scaler = scaler + 1;
        }
        assert(ray(self@, center@).take(MAX_SLIDE as int) =~= ray(self@, center@));
        r
    }
}

} // verus!
