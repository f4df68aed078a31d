//! Points on the sphere and the wide vectors that arise from their
//! products.

use vstd::prelude::*;
use crate::vector::{Vec3, cross, dot, det, zero};

verus! {

/// The largest magnitude a coordinate of a [`Point`] may have: `2^30`.
///
/// With this limit every product that the predicates of this crate form
/// fits in 128 bits.
pub const COORD_LIMIT: i64 = 0x4000_0000;

/// Every coordinate of `v` has magnitude at most `limit`.
pub open spec fn bounded(v: Vec3, limit: int) -> bool {
    &&& -limit <= v.x <= limit
    &&& -limit <= v.y <= limit
    &&& -limit <= v.z <= limit
}

/// `v` can be the coordinates of a point: within the coordinate limit and
/// not the zero vector, which has no direction.
pub open spec fn is_direction(v: Vec3) -> bool {
    bounded(v, COORD_LIMIT as int) && v != zero()
}

/// `u` and `v` point the same way: they are the same point of the sphere.
pub open spec fn same_direction(u: Vec3, v: Vec3) -> bool {
    cross(u, v) == zero() && dot(u, v) > 0
}

/// `u` and `v` point in opposite ways: they are antipodal points.
pub open spec fn opposite_direction(u: Vec3, v: Vec3) -> bool {
    cross(u, v) == zero() && dot(u, v) < 0
}

/// A product is bounded by the product of the bounds of its factors.
pub proof fn lemma_mul_bound(x: int, y: int, bx: int, by: int)
    by (nonlinear_arith)
    requires
        -bx <= x <= bx,
        -by <= y <= by,
    ensures
        -(bx * by) <= x * y <= bx * by,
{
}

/// A vector of three 128-bit integers: a cross product of points, or a
/// tangent to an edge.
#[derive(Clone, Copy, Debug, PartialEq, Eq, Structural)]
pub struct Vector {
    pub x: i128,
    pub y: i128,
    pub z: i128,
}

impl View for Vector {
    type V = Vec3;

    open spec fn view(&self) -> Vec3 {
        Vec3 { x: self.x as int, y: self.y as int, z: self.z as int }
    }
}

impl Vector {
    /// The cross product of two vectors whose coordinates are bounded by
    /// `lu` and `lv`.
    pub(crate) fn cross(&self, v: &Vector, Ghost(lu): Ghost<int>, Ghost(lv): Ghost<int>) -> (r:
        Vector)
        requires
            bounded(self@, lu),
            bounded(v@, lv),
            2 * (lu * lv) <= i128::MAX,
        ensures
            r@ == cross(self@, v@),
            bounded(r@, 2 * (lu * lv)),
    {
        proof {
            lemma_mul_bound(self.y as int, v.z as int, lu, lv);
            lemma_mul_bound(self.z as int, v.y as int, lu, lv);
            lemma_mul_bound(self.z as int, v.x as int, lu, lv);
            lemma_mul_bound(self.x as int, v.z as int, lu, lv);
            lemma_mul_bound(self.x as int, v.y as int, lu, lv);
            lemma_mul_bound(self.y as int, v.x as int, lu, lv);
        }
        Vector {
            x: self.y * v.z - self.z * v.y,
            y: self.z * v.x - self.x * v.z,
            z: self.x * v.y - self.y * v.x,
        }
    }

    /// The dot product of two vectors whose coordinates are bounded by `lu`
    /// and `lv`.
    pub(crate) fn dot(&self, v: &Vector, Ghost(lu): Ghost<int>, Ghost(lv): Ghost<int>) -> (r:
        i128)
        requires
            bounded(self@, lu),
            bounded(v@, lv),
            3 * (lu * lv) <= i128::MAX,
        ensures
            r == dot(self@, v@),
            -(3 * (lu * lv)) <= r <= 3 * (lu * lv),
    {
        proof {
            lemma_mul_bound(self.x as int, v.x as int, lu, lv);
            lemma_mul_bound(self.y as int, v.y as int, lu, lv);
            lemma_mul_bound(self.z as int, v.z as int, lu, lv);
        }
        self.x * v.x + self.y * v.y + self.z * v.z
    }

    /// Whether this is the zero vector.
    pub fn is_zero(&self) -> (r: bool)
        ensures
            r == (self@ == zero()),
    {
        self.x == 0 && self.y == 0 && self.z == 0
    }
}

/// A point on the unit sphere, held as an integer direction vector.
///
/// The point is where the ray from the centre of the sphere through
/// `(x, y, z)` meets the sphere, so two vectors that are positive
/// multiples of each other are the same point. The coordinates have
/// magnitude at most [`COORD_LIMIT`] and are not all zero.
#[derive(Clone, Copy, Debug, PartialEq, Eq, Structural)]
pub struct Point {
    pub(crate) x: i64,
    pub(crate) y: i64,
    pub(crate) z: i64,
}

impl View for Point {
    type V = Vec3;

    closed spec fn view(&self) -> Vec3 {
        Vec3 { x: self.x as int, y: self.y as int, z: self.z as int }
    }
}

/// The directions of a list of points.
pub open spec fn directions(points: Seq<Point>) -> Seq<Vec3> {
    Seq::new(points.len(), |i: int| points[i]@)
}

impl Point {
    /// What holds of every point: its coordinates are those of a direction.
    #[verifier::type_invariant]
    pub open spec fn valid(self) -> bool {
        is_direction(self@)
    }

    /// The point in the direction `(x, y, z)`, or `None` when a coordinate
    /// exceeds [`COORD_LIMIT`] in magnitude or all three are zero.
    pub fn new(x: i64, y: i64, z: i64) -> (r: Option<Point>)
        ensures
            r is Some <==> is_direction(Vec3 { x: x as int, y: y as int, z: z as int }),
            r matches Some(p) ==> p@ == (Vec3 { x: x as int, y: y as int, z: z as int }),
    {
        if x < -COORD_LIMIT || x > COORD_LIMIT || y < -COORD_LIMIT || y > COORD_LIMIT || z
            < -COORD_LIMIT || z > COORD_LIMIT {
            return None;
        }
        if x == 0 && y == 0 && z == 0 {
            return None;
        }
        Some(Point { x, y, z })
    }

    /// The first coordinate.
    pub fn x(&self) -> (r: i64)
        ensures
            r == self@.x,
    {
        self.x
    }

    /// The second coordinate.
    pub fn y(&self) -> (r: i64)
        ensures
            r == self@.y,
    {
        self.y
    }

    /// The third coordinate.
    pub fn z(&self) -> (r: i64)
        ensures
            r == self@.z,
    {
        self.z
    }

    /// The same coordinates as a wide vector.
    pub fn to_vector(&self) -> (r: Vector)
        ensures
            r@ == self@,
            is_direction(r@),
    {
        proof {
            use_type_invariant(self);
        }
        Vector { x: self.x as i128, y: self.y as i128, z: self.z as i128 }
    }

    /// The dot product of two points.
    pub fn dot(&self, other: &Point) -> (r: i128)
        ensures
            r == dot(self@, other@),
    {
        let ghost l = COORD_LIMIT as int;
        self.to_vector().dot(&other.to_vector(), Ghost(l), Ghost(l))
    }

    /// The cross product of two points: a normal to the plane of the great
    /// circle through them.
    pub fn cross(&self, other: &Point) -> (r: Vector)
        ensures
            r@ == cross(self@, other@),
            bounded(r@, 2 * (COORD_LIMIT * COORD_LIMIT)),
    {
        let ghost l = COORD_LIMIT as int;
        self.to_vector().cross(&other.to_vector(), Ghost(l), Ghost(l))
    }

    /// The determinant of the three points, `self . (b x c)`.
    pub fn det(&self, b: &Point, c: &Point) -> (r: i128)
        ensures
            r == det(self@, b@, c@),
    {
        let ghost l = COORD_LIMIT as int;
        let n = b.cross(c);
        self.to_vector().dot(&n, Ghost(l), Ghost(2 * (l * l)))
    }

    /// Whether the two are the same point of the sphere.
    pub fn same_point(&self, other: &Point) -> (r: bool)
        ensures
            r == same_direction(self@, other@),
    {
        self.cross(other).is_zero() && self.dot(other) > 0
    }

    /// Whether the two are antipodal points of the sphere.
    pub fn antipodal(&self, other: &Point) -> (r: bool)
        ensures
            r == opposite_direction(self@, other@),
    {
        self.cross(other).is_zero() && self.dot(other) < 0
    }
}

} // verus!
