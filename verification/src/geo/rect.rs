//! Axis-aligned rectangles and their algebra.
//!
//! The algebra follows the conventions of the native layer: a rectangle is
//! the set of grid points it holds, and one that holds no point takes no
//! part in an intersection, a union or a clip.

use vstd::math::{max, min};
use vstd::prelude::*;

use crate::geo::{Point, Size};

verus! {

/// An axis-aligned rectangle given by its upper left corner and its extent.
///
/// The rectangle holds the grid points `(x, y)` with
/// `left <= x < right` and `top <= y < bottom`, so a rectangle with a zero
/// width or height is representable and holds no point.
#[derive(Debug, Clone, Copy, PartialEq, Eq, Structural)]
pub struct Rect {
    pub up_left: Point,
    pub size: Size,
}

impl Rect {
    /// The column of the leftmost points.
    pub open spec fn left(self) -> int {
        self.up_left.x as int
    }

    /// The row of the topmost points.
    pub open spec fn top(self) -> int {
        self.up_left.y as int
    }

    /// The first column to the right of the rectangle.
    pub open spec fn right(self) -> int {
        self.up_left.x + self.size.width
    }

    /// The first row below the rectangle.
    pub open spec fn bottom(self) -> int {
        self.up_left.y + self.size.height
    }

    /// Whether the grid point `(x, y)` lies in the rectangle.
    pub open spec fn holds(self, x: int, y: int) -> bool {
        self.left() <= x < self.right() && self.top() <= y < self.bottom()
    }

    /// Whether `point` lies in the rectangle.
    pub open spec fn holds_point(self, point: Point) -> bool {
        self.holds(point.x as int, point.y as int)
    }

    /// Whether the rectangle holds at least one point.
    pub open spec fn has_area(self) -> bool {
        self.size.width > 0 && self.size.height > 0
    }

    /// Whether both extents are zero.
    pub open spec fn is_empty(self) -> bool {
        self.size.width == 0 && self.size.height == 0
    }

    /// Whether the two rectangles have a point in common.
    pub open spec fn overlaps(self, other: Rect) -> bool {
        &&& max(self.left(), other.left()) < min(self.right(), other.right())
        &&& max(self.top(), other.top()) < min(self.bottom(), other.bottom())
    }

    /// The rectangle of the points that both hold, if there is any.
    pub open spec fn intersection_of(self, other: Rect) -> Option<Rect> {
        if self.overlaps(other) {
            let left = max(self.left(), other.left());
            let top = max(self.top(), other.top());
            Some(
                Rect {
                    up_left: Point { x: left as i32, y: top as i32 },
                    size: Size {
                        width: (min(self.right(), other.right()) - left) as u32,
                        height: (min(self.bottom(), other.bottom()) - top) as u32,
                    },
                },
            )
        } else {
            None
        }
    }

    /// Whether the union of the two rectangles is no wider and no higher
    /// than a `Size` can say.
    pub open spec fn union_fits(self, other: Rect) -> bool {
        self.has_area() && other.has_area() ==> {
            &&& max(self.right(), other.right()) - min(self.left(), other.left()) <= u32::MAX
            &&& max(self.bottom(), other.bottom()) - min(self.top(), other.top()) <= u32::MAX
        }
    }

    /// The smallest rectangle that holds the points of both.
    ///
    /// A rectangle that holds no point adds nothing: the union is then the
    /// other one as it stands, and the zero rectangle at the origin where
    /// neither holds a point.
    pub open spec fn union_of(self, other: Rect) -> Rect {
        if !self.has_area() {
            if !other.has_area() {
                Rect { up_left: Point { x: 0, y: 0 }, size: Size { width: 0, height: 0 } }
            } else {
                other
            }
        } else if !other.has_area() {
            self
        } else {
            let left = min(self.left(), other.left());
            let top = min(self.top(), other.top());
            Rect {
                up_left: Point { x: left as i32, y: top as i32 },
                size: Size {
                    width: (max(self.right(), other.right()) - left) as u32,
                    height: (max(self.bottom(), other.bottom()) - top) as u32,
                },
            }
        }
    }

    /// Whether `point` counts under `clip`: every point does where there is
    /// no clip, and the points that the clip holds where there is one.
    pub open spec fn considers(clip: Option<Rect>, point: Point) -> bool {
        match clip {
            None => true,
            Some(bounds) => bounds.holds_point(point),
        }
    }

    /// Whether any of `points` counts under `clip`.
    pub open spec fn any_considered(points: Seq<Point>, clip: Option<Rect>) -> bool {
        exists|i: int| 0 <= i < points.len() && Rect::considers(clip, #[trigger] points[i])
    }

    /// Whether the rectangle holds every one of `points` that counts under
    /// `clip`, and has such a point on each of its four sides.
    pub open spec fn bounds_tightly(self, points: Seq<Point>, clip: Option<Rect>) -> bool {
        &&& forall|i: int|
            0 <= i < points.len() && Rect::considers(clip, #[trigger] points[i])
                ==> self.holds_point(points[i])
        &&& exists|i: int|
            0 <= i < points.len() && Rect::considers(clip, #[trigger] points[i]) && points[i].x
                == self.left()
        &&& exists|i: int|
            0 <= i < points.len() && Rect::considers(clip, #[trigger] points[i]) && points[i].x
                == self.right() - 1
        &&& exists|i: int|
            0 <= i < points.len() && Rect::considers(clip, #[trigger] points[i]) && points[i].y
                == self.top()
        &&& exists|i: int|
            0 <= i < points.len() && Rect::considers(clip, #[trigger] points[i]) && points[i].y
                == self.bottom() - 1
    }

    /// Whether the points that count under `clip` span no more columns and
    /// no more rows than a `Size` can say.
    pub open spec fn enclosure_fits(points: Seq<Point>, clip: Option<Rect>) -> bool {
        forall|i: int, j: int|
            0 <= i < points.len() && 0 <= j < points.len() && Rect::considers(
                clip,
                #[trigger] points[i],
            ) && Rect::considers(clip, #[trigger] points[j]) ==> points[i].x - points[j].x
                < u32::MAX && points[i].y - points[j].y < u32::MAX
    }

    fn right_edge(&self) -> (edge: i64)
        ensures
            edge == self.right(),
    {
        self.up_left.x as i64 + self.size.width as i64
    }

    fn bottom_edge(&self) -> (edge: i64)
        ensures
            edge == self.bottom(),
    {
        self.up_left.y as i64 + self.size.height as i64
    }

    /// The corner opposite to `up_left`: `up_left` moved by `size`.
    pub fn bottom_right(&self) -> (corner: Point)
        requires
            self.right() <= i32::MAX,
            self.bottom() <= i32::MAX,
        ensures
            corner.x == self.right(),
            corner.y == self.bottom(),
    {
        Point { x: self.right_edge() as i32, y: self.bottom_edge() as i32 }
    }

    /// Whether the rectangle is empty: whether its width and its height are
    /// both zero.
    ///
    /// A rectangle with only one zero extent holds no point either, but is
    /// not empty in this sense.
    pub fn empty(&self) -> (e: bool)
        ensures
            e == self.is_empty(),
    {
        self.size.width == 0 && self.size.height == 0
    }

    /// Whether `point` lies in the rectangle.
    pub fn contains(&self, point: Point) -> (inside: bool)
        ensures
            inside == self.holds_point(point),
    {
        self.up_left.x <= point.x && (point.x as i64) < self.right_edge() && self.up_left.y
            <= point.y && (point.y as i64) < self.bottom_edge()
    }

    /// Whether the two rectangles have a point in common.
    pub fn has_intersection(&self, other: &Rect) -> (hit: bool)
        ensures
            hit == self.overlaps(*other),
    {
        let left = larger(self.up_left.x as i64, other.up_left.x as i64);
        let top = larger(self.up_left.y as i64, other.up_left.y as i64);
        let right = smaller(self.right_edge(), other.right_edge());
        let bottom = smaller(self.bottom_edge(), other.bottom_edge());
        left < right && top < bottom
    }

    /// The rectangle of the points that both hold, or nothing where they
    /// have no point in common.
    pub fn intersect(&self, other: &Rect) -> (common: Option<Rect>)
        ensures
            common == self.intersection_of(*other),
            common is None <==> !self.overlaps(*other),
            common matches Some(rect) ==> forall|x: int, y: int|
                #[trigger] rect.holds(x, y) <==> self.holds(x, y) && other.holds(x, y),
    {
        let left = larger(self.up_left.x as i64, other.up_left.x as i64);
        let top = larger(self.up_left.y as i64, other.up_left.y as i64);
        let right = smaller(self.right_edge(), other.right_edge());
        let bottom = smaller(self.bottom_edge(), other.bottom_edge());
        if left < right && top < bottom {
            Some(
                Rect {
                    up_left: Point { x: left as i32, y: top as i32 },
                    size: Size { width: (right - left) as u32, height: (bottom - top) as u32 },
                },
            )
        } else {
            None
        }
    }

    /// The smallest rectangle that holds the points of both.
    pub fn union(&self, other: &Rect) -> (both: Rect)
        requires
            self.union_fits(*other),
        ensures
            both == self.union_of(*other),
            forall|x: int, y: int|
                self.holds(x, y) || other.holds(x, y) ==> #[trigger] both.holds(x, y),
    {
        let self_area = self.size.width > 0 && self.size.height > 0;
        let other_area = other.size.width > 0 && other.size.height > 0;
        if !self_area {
            if !other_area {
                Rect { up_left: Point { x: 0, y: 0 }, size: Size { width: 0, height: 0 } }
            } else {
                *other
            }
        } else if !other_area {
            *self
        } else {
            let left = smaller(self.up_left.x as i64, other.up_left.x as i64);
            let top = smaller(self.up_left.y as i64, other.up_left.y as i64);
            let right = larger(self.right_edge(), other.right_edge());
            let bottom = larger(self.bottom_edge(), other.bottom_edge());
            Rect {
                up_left: Point { x: left as i32, y: top as i32 },
                size: Size { width: (right - left) as u32, height: (bottom - top) as u32 },
            }
        }
    }

    /// The smallest rectangle that holds the given points, of which only
    /// those inside `clip` count where there is a clip. There is no such
    /// rectangle where no point counts.
    pub fn enclosed(points: &[Point], clip: Option<Rect>) -> (bound: Option<Rect>)
        requires
            Rect::enclosure_fits(points@, clip),
        ensures
            match bound {
                Some(rect) => rect.bounds_tightly(points@, clip),
                None => !Rect::any_considered(points@, clip),
            },
            points@.len() == 0 ==> bound is None,
            clip is None && points@.len() > 0 ==> bound is Some,
    {
        let mut found = false;
        let mut min_x: i32 = 0;
        let mut max_x: i32 = 0;
        let mut min_y: i32 = 0;
        let mut max_y: i32 = 0;
        let ghost mut at_left: int = 0;
        let ghost mut at_right: int = 0;
        let ghost mut at_top: int = 0;
        let ghost mut at_bottom: int = 0;
        let mut i: usize = 0;
        while i < points.len()
            invariant
                i <= points.len(),
                !found ==> forall|j: int| 0 <= j < i ==> !Rect::considers(clip, #[trigger] points@[j]),
                found ==> {
                    &&& forall|j: int|
                        0 <= j < i && Rect::considers(clip, #[trigger] points@[j]) ==> min_x
                            <= points@[j].x <= max_x && min_y <= points@[j].y <= max_y
                    &&& 0 <= at_left < i && Rect::considers(clip, points@[at_left])
                        && points@[at_left].x == min_x
                    &&& 0 <= at_right < i && Rect::considers(clip, points@[at_right])
                        && points@[at_right].x == max_x
                    &&& 0 <= at_top < i && Rect::considers(clip, points@[at_top])
                        && points@[at_top].y == min_y
                    &&& 0 <= at_bottom < i && Rect::considers(clip, points@[at_bottom])
                        && points@[at_bottom].y == max_y
                },
            decreases points.len() - i,
        {
            let point = points[i];
            let counts = match clip {
                None => true,
                Some(bounds) => bounds.contains(point),
            };
            if counts {
                if !found {
                    found = true;
                    min_x = point.x;
                    max_x = point.x;
                    min_y = point.y;
                    max_y = point.y;
                    proof {
                        at_left = i as int;
                        at_right = i as int;
                        at_top = i as int;
                        at_bottom = i as int;
                    }
                } else {
                    if point.x < min_x {
                        min_x = point.x;
                        proof {
                            at_left = i as int;
                        }
                    }
                    if point.x > max_x {
                        max_x = point.x;
                        proof {
                            at_right = i as int;
                        }
                    }
                    if point.y < min_y {
                        min_y = point.y;
                        proof {
                            at_top = i as int;
                        }
                    }
                    if point.y > max_y {
                        max_y = point.y;
                        proof {
                            at_bottom = i as int;
                        }
                    }
                }
            }
            i += 1;
        }
        if found {
            let width: i64 = max_x as i64 - min_x as i64 + 1;
            let height: i64 = max_y as i64 - min_y as i64 + 1;
            let rect = Rect {
                up_left: Point { x: min_x, y: min_y },
                size: Size { width: width as u32, height: height as u32 },
            };
            Some(rect)
        } else {
            assert(clip is None && points@.len() > 0 ==> Rect::considers(clip, points@[0]));
            None
        }
    }

    /// Two rectangles overlap exactly when some point lies in both.
    pub proof fn overlap_is_common_point(a: Rect, b: Rect)
        ensures
            a.overlaps(b) <==> exists|x: int, y: int| #[trigger] a.holds(x, y) && b.holds(x, y),
    {
        if a.overlaps(b) {
            let x = max(a.left(), b.left());
            let y = max(a.top(), b.top());
            assert(a.holds(x, y) && b.holds(x, y));
        }
    }

    /// There is no intersection exactly when the two rectangles do not
    /// overlap.
    pub proof fn intersection_absent_iff_disjoint(a: Rect, b: Rect)
        ensures
            a.intersection_of(b) is None <==> !a.overlaps(b),
    {
    }

    /// The intersection holds exactly the points that lie in both
    /// rectangles.
    pub proof fn intersection_holds_common_points(a: Rect, b: Rect, x: int, y: int)
        requires
            a.overlaps(b),
        ensures
            a.intersection_of(b) is Some,
            a.intersection_of(b).unwrap().holds(x, y) <==> a.holds(x, y) && b.holds(x, y),
    {
    }

    /// Every point of either rectangle lies in their union.
    pub proof fn union_holds_both(a: Rect, b: Rect, x: int, y: int)
        requires
            a.union_fits(b),
            a.holds(x, y) || b.holds(x, y),
        ensures
            a.union_of(b).holds(x, y),
    {
    }

    /// Every rectangle that holds the points of both holds the points of
    /// their union.
    pub proof fn union_is_smallest(a: Rect, b: Rect, c: Rect)
        requires
            a.union_fits(b),
            forall|x: int, y: int| a.holds(x, y) || b.holds(x, y) ==> #[trigger] c.holds(x, y),
        ensures
            forall|x: int, y: int| a.union_of(b).holds(x, y) ==> #[trigger] c.holds(x, y),
    {
        if a.has_area() {
            assert(a.holds(a.left(), a.top()) ==> c.holds(a.left(), a.top()));
            assert(a.holds(a.right() - 1, a.bottom() - 1) ==> c.holds(
                a.right() - 1,
                a.bottom() - 1,
            ));
        }
        if b.has_area() {
            assert(b.holds(b.left(), b.top()) ==> c.holds(b.left(), b.top()));
            assert(b.holds(b.right() - 1, b.bottom() - 1) ==> c.holds(
                b.right() - 1,
                b.bottom() - 1,
            ));
        }
    }

    /// At most one rectangle bounds a set of points tightly.
    pub proof fn tight_bound_is_unique(
        first: Rect,
        second: Rect,
        points: Seq<Point>,
        clip: Option<Rect>,
    )
        requires
            first.bounds_tightly(points, clip),
            second.bounds_tightly(points, clip),
        ensures
            first == second,
    {
    }
}

fn larger(a: i64, b: i64) -> (m: i64)
    ensures
        m == max(a as int, b as int),
{
    if a >= b {
        a
    } else {
        b
    }
}

fn smaller(a: i64, b: i64) -> (m: i64)
    ensures
        m == min(a as int, b as int),
{
    if a <= b {
        a
    } else {
        b
    }
}

} // verus!
