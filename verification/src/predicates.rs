//! The orientation predicate: on which side of a great-circle edge a point
//! lies.
//!
//! The answer is the sign of a determinant. It is computed in two tiers: a
//! fast evaluation on shortened coordinates, trusted when its magnitude
//! exceeds a bound on its error, and an exact evaluation otherwise.

use vstd::prelude::*;
use crate::vector::{Vec3, det, lemma_det_expand, lemma_det_rotate, lemma_det_swap, lemma_mul_sub};
use crate::point::{Point, bounded, lemma_mul_bound, COORD_LIMIT};

verus! {

/// The orientation of an ordered triple of points.
#[derive(Clone, Copy, Debug, PartialEq, Eq, Structural)]
pub enum Direction {
    /// The third point lies to the right of the edge from the first to the
    /// second.
    Clockwise,
    /// The three points lie on one great circle.
    Indeterminate,
    /// The third point lies to the left of the edge from the first to the
    /// second.
    CounterClockwise,
}

impl Direction {
    /// The opposite orientation.
    pub open spec fn spec_negate(self) -> Direction {
        match self {
            Direction::Clockwise => Direction::CounterClockwise,
            Direction::Indeterminate => Direction::Indeterminate,
            Direction::CounterClockwise => Direction::Clockwise,
        }
    }

    /// The opposite orientation.
    #[verifier::when_used_as_spec(spec_negate)]
    pub fn negate(self) -> (r: Direction)
        ensures
            r == self.spec_negate(),
    {
        match self {
            Direction::Clockwise => Direction::CounterClockwise,
            Direction::Indeterminate => Direction::Indeterminate,
            Direction::CounterClockwise => Direction::Clockwise,
        }
    }

    /// The orientation that a determinant of value `d` stands for.
    pub open spec fn of(d: int) -> Direction {
        if d > 0 {
            Direction::CounterClockwise
        } else if d < 0 {
            Direction::Clockwise
        } else {
            Direction::Indeterminate
        }
    }
}

/// The orientation of the triple `(a, b, c)`: the sign of `a . (b x c)`.
/// It is `Indeterminate` exactly when the three lie on one great circle.
pub open spec fn orientation(a: Vec3, b: Vec3, c: Vec3) -> Direction {
    Direction::of(det(a, b, c))
}

/// The factor by which the fast tier shortens coordinates: `2^10`.
pub const COARSE_STEP: i64 = 1024;

/// The magnitude that the fast determinant must exceed to be trusted:
/// `18 * 2^40`, a bound on the error that shortening can cause.
pub const TRIAGE_BOUND: i64 = 19_791_209_299_968;

/// A coordinate shortened by [`COARSE_STEP`], rounded towards zero.
pub open spec fn coarse_coord(x: int) -> int {
    if x >= 0 {
        x / (COARSE_STEP as int)
    } else {
        -((-x) / (COARSE_STEP as int))
    }
}

/// A vector with every coordinate shortened.
pub open spec fn coarse(v: Vec3) -> Vec3 {
    Vec3 { x: coarse_coord(v.x), y: coarse_coord(v.y), z: coarse_coord(v.z) }
}

/// What the fast tier answers: the sign of the determinant of the
/// shortened vectors where its magnitude exceeds [`TRIAGE_BOUND`], and
/// `Indeterminate` where it does not.
pub open spec fn triage(a: Vec3, b: Vec3, c: Vec3) -> Direction {
    let d = det(coarse(a), coarse(b), coarse(c));
    if d > TRIAGE_BOUND {
        Direction::CounterClockwise
    } else if d < -TRIAGE_BOUND {
        Direction::Clockwise
    } else {
        Direction::Indeterminate
    }
}

/// How far a product of three coordinates can move when each factor is
/// replaced by its shortened value scaled back up.
proof fn lemma_term_error(p: int, q: int, r: int, pc: int, qc: int, rc: int)
    requires
        -0x4000_0000 <= p <= 0x4000_0000,
        -0x4000_0000 <= q <= 0x4000_0000,
        -0x4000_0000 <= r <= 0x4000_0000,
        pc == coarse_coord(p),
        qc == coarse_coord(q),
        rc == coarse_coord(r),
    ensures
        -0x10_0000 <= pc <= 0x10_0000,
        -0x10_0000 <= qc <= 0x10_0000,
        -0x10_0000 <= rc <= 0x10_0000,
        -0x100_0000_0000 <= qc * rc <= 0x100_0000_0000,
        -0x1000_0000_0000_0000 <= pc * (qc * rc) <= 0x1000_0000_0000_0000,
        -3 * 1023 * 0x1000_0000_0000_0000 <= p * (q * r) - 0x4000_0000 * (pc * (qc * rc)) <= 3
            * 1023 * 0x1000_0000_0000_0000,
{
    let l: int = 0x4000_0000;
    let pp = 1024 * pc;
    let qq = 1024 * qc;
    let rr = 1024 * rc;
    assert(-1023 <= p - pp <= 1023 && -l <= pp <= l);
    assert(-1023 <= q - qq <= 1023 && -l <= qq <= l);
    assert(-1023 <= r - rr <= 1023 && -l <= rr <= l);
    lemma_mul_bound(qc, rc, 0x10_0000, 0x10_0000);
    lemma_mul_bound(pc, qc * rc, 0x10_0000, 0x100_0000_0000);
    // p (q r) - pp (qq rr) = (p - pp)(q r) + pp ((q - qq) r) + pp (qq (r - rr))
    lemma_mul_bound(q, r, l, l);
    lemma_mul_bound(p - pp, q * r, 1023, l * l);
    lemma_mul_bound(q - qq, r, 1023, l);
    lemma_mul_bound(pp, (q - qq) * r, l, 1023 * l);
    lemma_mul_bound(qq, r - rr, l, 1023);
    lemma_mul_bound(pp, qq * (r - rr), l, l * 1023);
    assert((p - pp) * (q * r) == p * (q * r) - pp * (q * r)) by (nonlinear_arith);
    assert((q - qq) * r == q * r - qq * r) by (nonlinear_arith);
    lemma_mul_sub(pp, q * r, qq * r);
    lemma_mul_sub(qq, r, rr);
    lemma_mul_sub(pp, qq * r, qq * rr);
    assert(pp * (qq * rr) == 0x4000_0000 * (pc * (qc * rc))) by (nonlinear_arith)
        requires
            pp == 1024 * pc,
            qq == 1024 * qc,
            rr == 1024 * rc,
    ;
}

/// The fast determinant, scaled back up, is within `18 * 2^70` of the
/// exact one.
pub proof fn lemma_triage_error(a: Vec3, b: Vec3, c: Vec3)
    requires
        bounded(a, COORD_LIMIT as int),
        bounded(b, COORD_LIMIT as int),
        bounded(c, COORD_LIMIT as int),
    ensures
        -(TRIAGE_BOUND * 0x4000_0000) < det(a, b, c) - 0x4000_0000 * det(
            coarse(a),
            coarse(b),
            coarse(c),
        ) < TRIAGE_BOUND * 0x4000_0000,
        -6 * 0x1000_0000_0000_0000 <= det(coarse(a), coarse(b), coarse(c)) <= 6
            * 0x1000_0000_0000_0000,
{
    let a0 = coarse(a);
    let b0 = coarse(b);
    let c0 = coarse(c);
    lemma_det_expand(a, b, c);
    lemma_det_expand(a0, b0, c0);
    lemma_term_error(a.x, b.y, c.z, a0.x, b0.y, c0.z);
    lemma_term_error(a.x, b.z, c.y, a0.x, b0.z, c0.y);
    lemma_term_error(a.y, b.z, c.x, a0.y, b0.z, c0.x);
    lemma_term_error(a.y, b.x, c.z, a0.y, b0.x, c0.z);
    lemma_term_error(a.z, b.x, c.y, a0.z, b0.x, c0.y);
    lemma_term_error(a.z, b.y, c.x, a0.z, b0.y, c0.x);
}

/// A determinate answer of the fast tier is the exact orientation.
pub proof fn lemma_triage_sound(a: Vec3, b: Vec3, c: Vec3)
    requires
        bounded(a, COORD_LIMIT as int),
        bounded(b, COORD_LIMIT as int),
        bounded(c, COORD_LIMIT as int),
    ensures
        triage(a, b, c) != Direction::Indeterminate ==> triage(a, b, c) == orientation(a, b, c),
{
    lemma_triage_error(a, b, c);
}

/// Shortens one coordinate.
fn shorten(x: i64) -> (r: i64)
    requires
        -COORD_LIMIT <= x <= COORD_LIMIT,
    ensures
        r == coarse_coord(x as int),
        -0x10_0000 <= r <= 0x10_0000,
{
    if x >= 0 {
        x / COARSE_STEP
    } else {
        -((-x) / COARSE_STEP)
    }
}

/// The fast tier of the orientation predicate.
///
/// It evaluates the determinant on coordinates shortened by
/// [`COARSE_STEP`], in 64-bit arithmetic. Where the magnitude of that value
/// exceeds [`TRIAGE_BOUND`] its sign is the exact orientation; where it
/// does not, the answer is `Indeterminate`, which here means "not decided".
pub fn triage_sign(a: &Point, b: &Point, c: &Point) -> (r: Direction)
    ensures
        r == triage(a@, b@, c@),
        r != Direction::Indeterminate ==> r == orientation(a@, b@, c@),
{
    proof {
        use_type_invariant(a);
        use_type_invariant(b);
        use_type_invariant(c);
        lemma_triage_sound(a@, b@, c@);
        lemma_triage_error(a@, b@, c@);
    }
    let ax: i64 = shorten(a.x());
    let ay: i64 = shorten(a.y());
    let az: i64 = shorten(a.z());
    let bx: i64 = shorten(b.x());
    let by: i64 = shorten(b.y());
    let bz: i64 = shorten(b.z());
    let cx: i64 = shorten(c.x());
    let cy: i64 = shorten(c.y());
    let cz: i64 = shorten(c.z());
    proof {
        let l: int = 0x10_0000;
        lemma_mul_bound(by as int, cz as int, l, l);
        lemma_mul_bound(bz as int, cy as int, l, l);
        lemma_mul_bound(bz as int, cx as int, l, l);
        lemma_mul_bound(bx as int, cz as int, l, l);
        lemma_mul_bound(bx as int, cy as int, l, l);
        lemma_mul_bound(by as int, cx as int, l, l);
        lemma_mul_bound(ax as int, by * cz - bz * cy, l, 2 * (l * l));
        lemma_mul_bound(ay as int, bz * cx - bx * cz, l, 2 * (l * l));
        lemma_mul_bound(az as int, bx * cy - by * cx, l, 2 * (l * l));
    }
    let d: i64 = ax * (by * cz - bz * cy) + ay * (bz * cx - bx * cz) + az * (bx * cy - by * cx);
    if d > TRIAGE_BOUND {
        Direction::CounterClockwise
    } else if d < -TRIAGE_BOUND {
        Direction::Clockwise
    } else {
        Direction::Indeterminate
    }
}

/// The exact tier of the orientation predicate: the sign of the
/// determinant, evaluated in 128-bit arithmetic.
pub fn exact_sign(a: &Point, b: &Point, c: &Point) -> (r: Direction)
    ensures
        r == orientation(a@, b@, c@),
{
    let d: i128 = a.det(b, c);
    if d > 0 {
        Direction::CounterClockwise
    } else if d < 0 {
        Direction::Clockwise
    } else {
        Direction::Indeterminate
    }
}

/// The orientation of the triple `(a, b, c)`: whether `c` lies to the left
/// (`CounterClockwise`) or to the right (`Clockwise`) of the great-circle
/// edge from `a` to `b`, or on its great circle (`Indeterminate`).
///
/// The fast tier answers where it can; the exact tier decides the rest.
/// The answer depends on the three points alone.
pub fn sign(a: &Point, b: &Point, c: &Point) -> (r: Direction)
    ensures
        r == orientation(a@, b@, c@),
{
    match triage_sign(a, b, c) {
        Direction::Indeterminate => exact_sign(a, b, c),
        decided => decided,
    }
}

/// Swapping the first two points of a triple reverses its orientation.
pub proof fn lemma_sign_antisymmetric(a: Point, b: Point, c: Point)
    ensures
        orientation(b@, a@, c@) == orientation(a@, b@, c@).spec_negate(),
{
    lemma_det_swap(a@, b@, c@);
}

/// Rotating the points of a triple keeps its orientation.
pub proof fn lemma_sign_rotation_invariant(a: Point, b: Point, c: Point)
    ensures
        orientation(b@, c@, a@) == orientation(a@, b@, c@),
        orientation(c@, a@, b@) == orientation(a@, b@, c@),
{
    lemma_det_rotate(a@, b@, c@);
}

} // verus!
