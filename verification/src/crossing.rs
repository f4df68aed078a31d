//! What it means for two great-circle edges to cross, as a function of the
//! four end points, and the laws of that function.

use vstd::prelude::*;
use crate::vector::{
    Vec3,
    combine,
    cross,
    det,
    dot,
    zero,
    lemma_cross_swap,
    lemma_det_repeated,
    lemma_det_rotate,
    lemma_det_swap,
    lemma_dot_combine,
    lemma_dot_comm,
    lemma_four_vectors,
    lemma_mul_comm,
    lemma_mul_neg,
    lemma_norm,
    lemma_triple_cross,
};
use crate::point::{Point, is_direction, same_direction};
use crate::predicates::{Direction, orientation};

verus! {

/// How two edges lie to each other.
#[derive(Clone, Copy, Debug, PartialEq, Eq, Structural)]
pub enum Crossing {
    /// The edges cross at a point interior to both: each separates the end
    /// points of the other.
    Cross,
    /// The edges meet without crossing so: they share an end point, an end
    /// point of one lies on the other, or they overlap along one great
    /// circle. What this counts as is for the caller to settle.
    MaybeCross,
    /// The edges have no point in common.
    DoesNotCross,
}

/// The tangent to the edge from `p` to `q` at `p` that faces outward, away
/// from `q`.
pub open spec fn tangent_at_start(p: Vec3, q: Vec3) -> Vec3 {
    cross(p, cross(p, q))
}

/// The tangent to the edge from `p` to `q` at `q` that faces outward, away
/// from `p`.
pub open spec fn tangent_at_end(p: Vec3, q: Vec3) -> Vec3 {
    cross(cross(p, q), q)
}

/// `x` lies on the edge from `p` to `q`, end points included.
///
/// Where `p` and `q` span a plane, `x` lies in that plane and beyond
/// neither end. Where they do not, the edge is no more than its end points.
pub open spec fn on_arc(p: Vec3, q: Vec3, x: Vec3) -> bool {
    if cross(p, q) == zero() {
        same_direction(p, x) || same_direction(q, x)
    } else {
        &&& det(p, q, x) == 0
        &&& dot(x, tangent_at_start(p, q)) <= 0
        &&& dot(x, tangent_at_end(p, q)) <= 0
    }
}

/// Both `c` and `d` lie strictly beyond one end of the edge from `a` to
/// `b`: a plane through that end, perpendicular to the edge, has the edge
/// on one side and both points on the other.
pub open spec fn separated(a: Vec3, b: Vec3, c: Vec3, d: Vec3) -> bool {
    ||| dot(c, tangent_at_start(a, b)) > 0 && dot(d, tangent_at_start(a, b)) > 0
    ||| dot(c, tangent_at_end(a, b)) > 0 && dot(d, tangent_at_end(a, b)) > 0
}

/// How the edge from `c` to `d` lies to the edge from `a` to `b`.
///
/// The four triangles `acb`, `cbd`, `bda`, `dac` decide. The edges cross
/// where all four turn the same way. Where none turns against another but
/// some are flat, the edges meet at an end point. Where all four are flat,
/// the points lie on one great circle, and the edges meet exactly when an
/// end point of one lies on the other.
pub open spec fn crossing(a: Vec3, b: Vec3, c: Vec3, d: Vec3) -> Crossing {
    let acb = det(a, c, b);
    let cbd = det(c, b, d);
    let bda = det(b, d, a);
    let dac = det(d, a, c);
    if (acb > 0 && cbd > 0 && bda > 0 && dac > 0) || (acb < 0 && cbd < 0 && bda < 0 && dac < 0) {
        Crossing::Cross
    } else if acb == 0 && cbd == 0 && bda == 0 && dac == 0 {
        if on_arc(a, b, c) || on_arc(a, b, d) || on_arc(c, d, a) || on_arc(c, d, b) {
            Crossing::MaybeCross
        } else {
            Crossing::DoesNotCross
        }
    } else if (acb >= 0 && cbd >= 0 && bda >= 0 && dac >= 0) || (acb <= 0 && cbd <= 0 && bda <= 0
        && dac <= 0) {
        Crossing::MaybeCross
    } else {
        Crossing::DoesNotCross
    }
}

/// `x` lies on the great circle of the edge from `p` to `q` or to its left.
pub open spec fn left_or_on(p: Vec3, q: Vec3, x: Vec3) -> bool {
    det(p, q, x) >= 0
}

/// Whether the edge from `c` to `d` counts as crossing the edge from `a`
/// to `b` when crossings are counted along a chain of edges: the rule that
/// settles [`Crossing::MaybeCross`].
///
/// A point on the great circle of an edge counts as lying to its left.
/// With that, the edges cross when each has the end points of the other on
/// different sides and the four triangles agree. Two consecutive edges of
/// a chain that pass through the other edge at their common vertex then
/// count once between them, and two that touch it there and turn back
/// count twice or not at all.
pub open spec fn edge_or_vertex_crossing(a: Vec3, b: Vec3, c: Vec3, d: Vec3) -> bool {
    &&& left_or_on(a, b, c) != left_or_on(a, b, d)
    &&& left_or_on(c, d, a) != left_or_on(c, d, b)
    &&& left_or_on(a, b, d) == left_or_on(c, d, a)
}

/// The counting rule agrees with every decided state: edges that cross
/// count, and edges without a common point do not.
pub proof fn lemma_counting_rule_agrees(a: Vec3, b: Vec3, c: Vec3, d: Vec3)
    ensures
        crossing(a, b, c, d) == Crossing::Cross ==> edge_or_vertex_crossing(a, b, c, d),
        crossing(a, b, c, d) == Crossing::DoesNotCross ==> !edge_or_vertex_crossing(a, b, c, d),
{
    lemma_det_rotate(b, d, a);
    lemma_det_rotate(d, a, c);
    lemma_det_swap(a, c, b);
    lemma_det_swap(c, b, d);
    assert(det(a, b, d) == det(b, d, a));
    assert(det(c, d, a) == det(d, a, c));
    assert(det(a, b, c) == -det(a, c, b));
    assert(det(c, d, b) == -det(c, b, d));
}

/// The sign of a product, from the signs of its factors.
pub proof fn lemma_mul_sign(x: int, y: int)
    by (nonlinear_arith)
    ensures
        x == 0 || y == 0 <==> x * y == 0,
        (x > 0 && y > 0) || (x < 0 && y < 0) <==> x * y > 0,
        (x > 0 && y < 0) || (x < 0 && y > 0) <==> x * y < 0,
{
}

/// The outward tangent at the end of an edge is the outward tangent at the
/// start of the reversed edge.
pub proof fn lemma_tangent_reversed(p: Vec3, q: Vec3)
    ensures
        tangent_at_end(p, q) == tangent_at_start(q, p),
        tangent_at_start(p, q) == tangent_at_end(q, p),
{
    let n = cross(p, q);
    let m = cross(q, p);
    lemma_cross_swap(p, q, zero());
    lemma_mul_neg(q.x, n.y);
    lemma_mul_neg(q.x, n.z);
    lemma_mul_neg(q.y, n.x);
    lemma_mul_neg(q.y, n.z);
    lemma_mul_neg(q.z, n.x);
    lemma_mul_neg(q.z, n.y);
    lemma_mul_comm(q.x, n.y);
    lemma_mul_comm(q.x, n.z);
    lemma_mul_comm(q.y, n.x);
    lemma_mul_comm(q.y, n.z);
    lemma_mul_comm(q.z, n.x);
    lemma_mul_comm(q.z, n.y);
    assert(cross(n, q) == cross(q, m));
    lemma_mul_neg(m.x, p.y);
    lemma_mul_neg(m.x, p.z);
    lemma_mul_neg(m.y, p.x);
    lemma_mul_neg(m.y, p.z);
    lemma_mul_neg(m.z, p.x);
    lemma_mul_neg(m.z, p.y);
    lemma_mul_comm(p.x, n.y);
    lemma_mul_comm(p.x, n.z);
    lemma_mul_comm(p.y, n.x);
    lemma_mul_comm(p.y, n.z);
    lemma_mul_comm(p.z, n.x);
    lemma_mul_comm(p.z, n.y);
    assert(cross(p, n) == cross(m, p));
}

/// The tangents of an edge measured against its own end points: each end
/// is level with its own tangent and behind the other.
pub proof fn lemma_tangent_at_ends(a: Vec3, b: Vec3)
    ensures
        dot(a, tangent_at_start(a, b)) == 0,
        dot(b, tangent_at_start(a, b)) == -dot(cross(a, b), cross(a, b)),
        dot(b, tangent_at_end(a, b)) == 0,
        dot(a, tangent_at_end(a, b)) == -dot(cross(a, b), cross(a, b)),
{
    let n = cross(a, b);
    lemma_det_repeated(a, n);
    lemma_det_repeated(b, n);
    lemma_det_rotate(a, n, b);
    lemma_det_rotate(b, a, n);
    lemma_cross_swap(a, b, n);
    assert(dot(b, tangent_at_start(a, b)) == det(b, a, n));
    assert(dot(a, tangent_at_end(a, b)) == det(a, n, b));
    assert(det(n, b, a) == dot(n, cross(b, a)));
}

/// An edge is the same set of points in either direction.
pub proof fn lemma_on_arc_reversed(p: Vec3, q: Vec3, x: Vec3)
    ensures
        on_arc(q, p, x) == on_arc(p, q, x),
{
    lemma_cross_swap(p, q, zero());
    lemma_det_swap(p, q, x);
    lemma_tangent_reversed(p, q);
}

/// Crossing symmetry: the state of a pair of edges does not depend on the
/// direction in which the second edge is given.
pub proof fn lemma_crossing_symmetric(a: Point, b: Point, c: Point, d: Point)
    ensures
        crossing(a@, b@, d@, c@) == crossing(a@, b@, c@, d@),
{
    lemma_crossing_swapped(a@, b@, c@, d@);
}

/// [`lemma_crossing_symmetric`], for any four vectors.
pub proof fn lemma_crossing_swapped(a: Vec3, b: Vec3, c: Vec3, d: Vec3)
    ensures
        crossing(a, b, d, c) == crossing(a, b, c, d),
{
    // acb' = adb = -bda, cbd' = dbc = -cbd, bda' = bca = -acb, dac' = cad = -dac
    lemma_det_rotate(b, d, a);
    lemma_det_swap(a, b, d);
    lemma_det_swap(c, b, d);
    lemma_det_rotate(a, c, b);
    lemma_det_swap(b, a, c);
    lemma_det_swap(d, a, c);
    assert(det(a, d, b) == -det(b, d, a));
    assert(det(d, b, c) == -det(c, b, d));
    assert(det(b, c, a) == -det(a, c, b));
    assert(det(c, a, d) == -det(d, a, c));
    lemma_on_arc_reversed(c, d, a);
    lemma_on_arc_reversed(c, d, b);
}

/// The state of a pair of edges does not depend on the direction in which
/// the first edge is given.
pub proof fn lemma_crossing_reversed(a: Vec3, b: Vec3, c: Vec3, d: Vec3)
    ensures
        crossing(b, a, c, d) == crossing(a, b, c, d),
{
    // acb' = bca = -acb, cbd' = cad = -dac, bda' = adb = -bda, dac' = dbc = -cbd
    lemma_det_rotate(a, c, b);
    lemma_det_swap(b, a, c);
    lemma_det_swap(d, a, c);
    lemma_det_rotate(b, d, a);
    lemma_det_swap(a, b, d);
    lemma_det_swap(c, b, d);
    assert(det(b, c, a) == -det(a, c, b));
    assert(det(c, a, d) == -det(d, a, c));
    assert(det(a, d, b) == -det(b, d, a));
    assert(det(d, b, c) == -det(c, b, d));
    lemma_on_arc_reversed(a, b, c);
    lemma_on_arc_reversed(a, b, d);
}

/// A point that lies strictly beyond the start of an edge is no multiple
/// of either end point.
proof fn lemma_beyond_start_not_end(a: Vec3, b: Vec3, c: Vec3)
    requires
        a != zero(),
        dot(c, tangent_at_start(a, b)) > 0,
    ensures
        cross(a, b) != zero(),
        !same_direction(c, a),
        !same_direction(c, b),
{
    let n = cross(a, b);
    let ta = tangent_at_start(a, b);
    let g = dot(n, n);
    lemma_norm(n);
    lemma_norm(a);
    lemma_norm(b);
    lemma_tangent_at_ends(a, b);
    if n == zero() {
        assert(ta == zero()) by {
            lemma_mul_sign(a.x, n.y);
            lemma_mul_sign(a.x, n.z);
            lemma_mul_sign(a.y, n.x);
            lemma_mul_sign(a.y, n.z);
            lemma_mul_sign(a.z, n.x);
            lemma_mul_sign(a.z, n.y);
        }
        lemma_mul_sign(c.x, ta.x);
        lemma_mul_sign(c.y, ta.y);
        lemma_mul_sign(c.z, ta.z);
        assert(false);
    }
    if cross(c, a) == zero() && dot(c, a) > 0 {
        // (a . a) c = (a . c) a, and a is level with the tangent
        lemma_triple_cross(a, c, a);
        lemma_dot_combine(dot(a, a), c, -dot(a, c), a, ta);
        let w = cross(c, a);
        assert(cross(a, w) == zero()) by {
            lemma_mul_sign(a.x, w.y);
            lemma_mul_sign(a.x, w.z);
            lemma_mul_sign(a.y, w.x);
            lemma_mul_sign(a.y, w.z);
            lemma_mul_sign(a.z, w.x);
            lemma_mul_sign(a.z, w.y);
        }
        assert(dot(zero(), ta) == 0) by {
            lemma_mul_sign(0, ta.x);
            lemma_mul_sign(0, ta.y);
            lemma_mul_sign(0, ta.z);
        }
        lemma_mul_sign(-dot(a, c), dot(a, ta));
        lemma_mul_sign(dot(a, a), dot(c, ta));
        assert(false);
    }
    if cross(c, b) == zero() && dot(c, b) > 0 {
        // (b . b) c = (b . c) b, and b lies behind the tangent
        lemma_triple_cross(b, c, b);
        lemma_dot_combine(dot(b, b), c, -dot(b, c), b, ta);
        let w = cross(c, b);
        assert(cross(b, w) == zero()) by {
            lemma_mul_sign(b.x, w.y);
            lemma_mul_sign(b.x, w.z);
            lemma_mul_sign(b.y, w.x);
            lemma_mul_sign(b.y, w.z);
            lemma_mul_sign(b.z, w.x);
            lemma_mul_sign(b.z, w.y);
        }
        assert(dot(zero(), ta) == 0) by {
            lemma_mul_sign(0, ta.x);
            lemma_mul_sign(0, ta.y);
            lemma_mul_sign(0, ta.z);
        }
        lemma_dot_comm(b, c);
        lemma_mul_sign(-dot(b, c), dot(b, ta));
        lemma_mul_sign(dot(b, b), dot(c, ta));
        assert(false);
    }
}

/// No point of an edge that has both its ends strictly beyond the start of
/// another edge is an end point of that other edge.
proof fn lemma_beyond_start_not_on_arc(a: Vec3, b: Vec3, c: Vec3, d: Vec3, x: Vec3)
    requires
        a != zero(),
        dot(c, tangent_at_start(a, b)) > 0,
        dot(d, tangent_at_start(a, b)) > 0,
        x == a || x == b,
    ensures
        !on_arc(c, d, x),
{
    let n = cross(a, b);
    let m = cross(c, d);
    let ta = tangent_at_start(a, b);
    lemma_beyond_start_not_end(a, b, c);
    lemma_beyond_start_not_end(a, b, d);
    lemma_tangent_at_ends(a, b);
    lemma_norm(n);
    lemma_norm(m);
    lemma_norm(x);
    if m != zero() && on_arc(c, d, x) {
        // the dependency of c, d, c x d and x, measured along the tangent
        lemma_four_vectors(c, d, m, x, ta);
        lemma_det_rotate(x, d, m);
        lemma_det_rotate(x, c, m);
        lemma_det_rotate(m, c, d);
        lemma_cross_swap(m, d, x);
        let p = det(d, m, x);
        let q = det(c, m, x);
        assert(p == -dot(x, tangent_at_end(c, d)));
        assert(q == dot(x, tangent_at_start(c, d)));
        assert(det(c, d, m) == dot(m, m));
        lemma_mul_sign(p, dot(c, ta));
        lemma_mul_sign(q, dot(d, ta));
        lemma_mul_sign(det(c, d, x), dot(m, ta));
        lemma_mul_sign(dot(m, m), dot(x, ta));
        if x == a {
            assert(p == 0 && q == 0);
            lemma_four_vectors(c, d, m, x, x);
            lemma_mul_sign(p, dot(c, x));
            lemma_mul_sign(q, dot(d, x));
            lemma_mul_sign(det(c, d, x), dot(m, x));
            lemma_mul_sign(dot(m, m), dot(x, x));
            assert(false);
        } else {
            assert(false);
        }
    }
}

/// The separating-plane test is sound: where both ends of one edge lie
/// strictly beyond one end of the other, the edges have no point in common.
pub proof fn lemma_separated_edges_do_not_cross(a: Vec3, b: Vec3, c: Vec3, d: Vec3)
    requires
        a != zero(),
        b != zero(),
        separated(a, b, c, d),
    ensures
        crossing(a, b, c, d) == Crossing::DoesNotCross,
{
    if dot(c, tangent_at_start(a, b)) > 0 && dot(d, tangent_at_start(a, b)) > 0 {
        lemma_beyond_start_do_not_cross(a, b, c, d);
    } else {
        lemma_tangent_reversed(a, b);
        lemma_beyond_start_do_not_cross(b, a, c, d);
        lemma_crossing_reversed(a, b, c, d);
    }
}

/// [`lemma_separated_edges_do_not_cross`] for the tangent at the start of
/// the edge.
proof fn lemma_beyond_start_do_not_cross(a: Vec3, b: Vec3, c: Vec3, d: Vec3)
    requires
        a != zero(),
        dot(c, tangent_at_start(a, b)) > 0,
        dot(d, tangent_at_start(a, b)) > 0,
    ensures
        crossing(a, b, c, d) == Crossing::DoesNotCross,
{
    let n = cross(a, b);
    let ta = tangent_at_start(a, b);
    let g = dot(n, n);
    let acb = det(a, c, b);
    let cbd = det(c, b, d);
    let bda = det(b, d, a);
    let dac = det(d, a, c);
    lemma_beyond_start_not_end(a, b, c);
    lemma_beyond_start_not_end(a, b, d);
    lemma_beyond_start_not_on_arc(a, b, c, d, a);
    lemma_beyond_start_not_on_arc(a, b, c, d, b);
    lemma_tangent_at_ends(a, b);
    lemma_norm(n);
    lemma_norm(a);
    assert(g > 0);
    // dac g + bda (c . ta) + acb (d . ta) = 0
    lemma_four_vectors(a, b, c, d, ta);
    lemma_det_rotate(d, a, c);
    lemma_det_rotate(b, d, a);
    lemma_det_swap(a, c, b);
    lemma_det_swap(c, b, d);
    assert(det(a, c, d) == dac);
    assert(det(a, b, d) == bda);
    assert(det(a, b, c) == -acb);
    assert(det(b, c, d) == -cbd);
    lemma_mul_sign(det(b, c, d), dot(a, ta));
    lemma_mul_neg(dac, g);
    lemma_mul_neg(acb, dot(d, ta));
    assert(dac * g + bda * dot(c, ta) + acb * dot(d, ta) == 0);
    lemma_mul_sign(dac, g);
    lemma_mul_sign(bda, dot(c, ta));
    lemma_mul_sign(acb, dot(d, ta));
    if (acb >= 0 && bda >= 0 && dac >= 0) || (acb <= 0 && bda <= 0 && dac <= 0) {
        assert(acb == 0 && bda == 0 && dac == 0);
        // then cbd (a . a) = 0
        lemma_four_vectors(a, b, c, d, a);
        lemma_mul_sign(det(b, c, d), dot(a, a));
        lemma_mul_sign(det(a, c, d), dot(b, a));
        lemma_mul_sign(det(a, b, d), dot(c, a));
        lemma_mul_sign(det(a, b, c), dot(d, a));
        assert(cbd == 0);
    }
}

/// Where `c` is the same point as `a`, it measures against any direction
/// as `a` does, up to positive factors.
proof fn lemma_same_direction_scales(a: Vec3, c: Vec3, t: Vec3)
    requires
        same_direction(a, c),
    ensures
        dot(a, a) > 0,
        dot(a, c) > 0,
        dot(a, a) * dot(c, t) == dot(a, c) * dot(a, t),
{
    let w = cross(c, a);
    lemma_norm(a);
    lemma_cross_swap(a, c, zero());
    assert(w == zero());
    assert(a != zero()) by {
        if a == zero() {
            lemma_mul_sign(a.x, c.x);
            lemma_mul_sign(a.y, c.y);
            lemma_mul_sign(a.z, c.z);
        }
    }
    // a x (c x a) = (a . a) c - (a . c) a, and c x a is zero
    lemma_triple_cross(a, c, a);
    assert(cross(a, w) == zero()) by {
        lemma_mul_sign(a.x, w.y);
        lemma_mul_sign(a.x, w.z);
        lemma_mul_sign(a.y, w.x);
        lemma_mul_sign(a.y, w.z);
        lemma_mul_sign(a.z, w.x);
        lemma_mul_sign(a.z, w.y);
    }
    lemma_dot_combine(dot(a, a), c, -dot(a, c), a, t);
    assert(dot(zero(), t) == 0) by {
        lemma_mul_sign(0, t.x);
        lemma_mul_sign(0, t.y);
        lemma_mul_sign(0, t.z);
    }
    lemma_mul_neg(dot(a, c), dot(a, t));
}

/// An edge that starts where the other starts meets it.
proof fn lemma_shared_start_meets(a: Vec3, b: Vec3, c: Vec3, d: Vec3)
    requires
        same_direction(a, c),
    ensures
        crossing(a, b, c, d) == Crossing::MaybeCross,
{
    let k1 = dot(a, a);
    let k2 = dot(a, c);
    let n = cross(a, b);
    lemma_same_direction_scales(a, c, cross(a, b));
    lemma_same_direction_scales(a, c, cross(d, a));
    lemma_same_direction_scales(a, c, cross(b, d));
    lemma_same_direction_scales(a, c, tangent_at_start(a, b));
    lemma_same_direction_scales(a, c, tangent_at_end(a, b));
    lemma_det_repeated(a, b);
    lemma_det_repeated(a, d);
    lemma_det_swap(c, a, b);
    lemma_det_rotate(c, d, a);
    lemma_det_rotate(a, b, d);
    lemma_det_swap(a, b, c);
    lemma_tangent_at_ends(a, b);
    lemma_norm(n);
    // (a . a) det(c, x, y) = (a . c) det(a, x, y) for the three pairs
    assert(k1 * det(c, a, b) == k2 * det(a, a, b));
    assert(k1 * det(c, d, a) == k2 * det(a, d, a));
    assert(k1 * det(c, b, d) == k2 * det(a, b, d));
    lemma_mul_sign(k2, 0);
    lemma_mul_sign(k1, det(c, a, b));
    lemma_mul_sign(k1, det(c, d, a));
    lemma_mul_sign(k1, det(c, b, d));
    lemma_mul_sign(k2, det(a, b, d));
    assert(det(a, c, b) == 0);
    assert(det(d, a, c) == 0);
    assert(det(b, d, a) == det(a, b, d));
    lemma_mul_sign(k1, dot(c, tangent_at_start(a, b)));
    lemma_mul_sign(k1, dot(c, tangent_at_end(a, b)));
    lemma_mul_sign(k2, dot(a, tangent_at_end(a, b)));
}

/// Edges that share an end point meet there: their state is
/// `MaybeCross`, whatever else holds of them.
pub proof fn lemma_shared_vertex_is_maybe_cross(a: Point, b: Point, c: Point, d: Point)
    requires
        same_direction(a@, c@) || same_direction(a@, d@) || same_direction(b@, c@)
            || same_direction(b@, d@),
    ensures
        crossing(a@, b@, c@, d@) == Crossing::MaybeCross,
{
    if same_direction(a@, c@) {
        lemma_shared_start_meets(a@, b@, c@, d@);
    } else if same_direction(a@, d@) {
        lemma_shared_start_meets(a@, b@, d@, c@);
        lemma_crossing_swapped(a@, b@, c@, d@);
    } else if same_direction(b@, c@) {
        lemma_shared_start_meets(b@, a@, c@, d@);
        lemma_crossing_reversed(a@, b@, c@, d@);
    } else {
        lemma_shared_start_meets(b@, a@, d@, c@);
        lemma_crossing_swapped(b@, a@, c@, d@);
        lemma_crossing_reversed(a@, b@, c@, d@);
    }
}

/// Two edges cross exactly when each has the end points of the other
/// strictly on different sides, and the two separations agree: `d` lies to
/// the edge from `a` to `b` as `a` lies to the edge from `c` to `d`.
///
/// The last condition tells a crossing from its mirror image, in which the
/// great circles of the two edges meet on one edge and, on the far side of
/// the sphere, on the other.
pub proof fn lemma_cross_is_mutual_separation(a: Point, b: Point, c: Point, d: Point)
    ensures
        crossing(a@, b@, c@, d@) == Crossing::Cross <==> {
            &&& orientation(a@, b@, c@) != Direction::Indeterminate
            &&& orientation(a@, b@, d@) == orientation(a@, b@, c@).spec_negate()
            &&& orientation(c@, d@, a@) != Direction::Indeterminate
            &&& orientation(c@, d@, b@) == orientation(c@, d@, a@).spec_negate()
            &&& orientation(a@, b@, d@) == orientation(c@, d@, a@)
        },
{
    lemma_det_swap(a@, b@, c@);
    lemma_det_rotate(a@, b@, d@);
    lemma_det_rotate(c@, d@, a@);
    lemma_det_swap(c@, d@, b@);
    assert(det(a@, c@, b@) == -det(a@, b@, c@));
    assert(det(b@, d@, a@) == det(a@, b@, d@));
    assert(det(d@, a@, c@) == det(c@, d@, a@));
    assert(det(c@, b@, d@) == -det(c@, d@, b@));
}

/// An edge holds both its end points.
pub proof fn lemma_edge_holds_its_ends(p: Point, q: Point)
    requires
        is_direction(p@),
        is_direction(q@),
    ensures
        on_arc(p@, q@, p@),
        on_arc(p@, q@, q@),
{
    let n = cross(p@, q@);
    lemma_norm(n);
    lemma_norm(p@);
    lemma_norm(q@);
    lemma_tangent_at_ends(p@, q@);
    lemma_det_repeated(p@, q@);
    lemma_det_repeated(q@, p@);
    lemma_mul_comm(p@.x, p@.y);
    lemma_mul_comm(p@.x, p@.z);
    lemma_mul_comm(p@.y, p@.z);
    assert(cross(p@, p@) == zero());
}

/// Where two edges cross, they have a point in common that is interior
/// to both: one direction is a combination of `c` and `d` and also of `a`
/// and `b`, with coefficients that are all positive or all negative.
pub proof fn lemma_crossing_edges_share_a_point(a: Point, b: Point, c: Point, d: Point)
    requires
        crossing(a@, b@, c@, d@) == Crossing::Cross,
    ensures
        ({
            let acb = det(a@, c@, b@);
            let cbd = det(c@, b@, d@);
            let bda = det(b@, d@, a@);
            let dac = det(d@, a@, c@);
            &&& combine(bda, c@, acb, d@) == combine(dac, b@, cbd, a@)
            &&& (acb > 0 && cbd > 0 && bda > 0 && dac > 0) || (acb < 0 && cbd < 0 && bda < 0
                && dac < 0)
        }),
{
    let (a, b, c, d) = (a@, b@, c@, d@);
    lemma_det_rotate(d, a, c);
    lemma_det_rotate(b, d, a);
    lemma_det_swap(a, c, b);
    lemma_det_swap(c, b, d);
    assert(det(a, c, d) == det(d, a, c));
    assert(det(a, b, d) == det(b, d, a));
    assert(det(a, b, c) == -det(a, c, b));
    assert(det(b, c, d) == -det(c, b, d));
    lemma_four_vectors(a, b, c, d, Vec3 { x: 1, y: 0, z: 0 });
    lemma_four_vectors(a, b, c, d, Vec3 { x: 0, y: 1, z: 0 });
    lemma_four_vectors(a, b, c, d, Vec3 { x: 0, y: 0, z: 1 });
    lemma_mul_neg(det(c, b, d), a.x);
    lemma_mul_neg(det(c, b, d), a.y);
    lemma_mul_neg(det(c, b, d), a.z);
    lemma_mul_neg(det(a, c, b), d.x);
    lemma_mul_neg(det(a, c, b), d.y);
    lemma_mul_neg(det(a, c, b), d.z);
}

/// A point on the great circle of the edge from `a` to `b` is a
/// combination of `a` and `b`, with what it measures against the two
/// outward tangents as coefficients; here the combination is measured
/// along an arbitrary direction `t`.
pub proof fn lemma_point_of_great_circle(a: Vec3, b: Vec3, v: Vec3, t: Vec3)
    requires
        det(a, b, v) == 0,
    ensures
        dot(cross(a, b), cross(a, b)) * dot(v, t) == (-dot(v, tangent_at_end(a, b))) * dot(a, t)
            + (-dot(v, tangent_at_start(a, b))) * dot(b, t),
{
    let n = cross(a, b);
    lemma_four_vectors(a, b, n, v, t);
    lemma_det_rotate(v, b, n);
    lemma_det_rotate(v, a, n);
    lemma_det_rotate(n, a, b);
    lemma_cross_swap(n, b, v);
    assert(det(b, n, v) == -dot(v, tangent_at_end(a, b)));
    assert(det(a, n, v) == dot(v, tangent_at_start(a, b)));
    assert(det(a, b, n) == dot(n, n));
    lemma_mul_sign(det(a, b, v), dot(n, t));
    lemma_mul_neg(dot(v, tangent_at_start(a, b)), dot(b, t));
}

/// How an edge that ends or starts at a point `v` strictly inside the edge
/// from `a` to `b` counts: it counts exactly when its other end lies
/// strictly to the right of the edge from `a` to `b`.
proof fn lemma_counting_at_inner_point(a: Vec3, b: Vec3, u: Vec3, v: Vec3)
    requires
        det(a, b, v) == 0,
        dot(v, tangent_at_start(a, b)) < 0,
        dot(v, tangent_at_end(a, b)) < 0,
        cross(a, b) != zero(),
    ensures
        edge_or_vertex_crossing(a, b, u, v) == (det(a, b, u) < 0),
        edge_or_vertex_crossing(a, b, v, u) == (det(a, b, u) < 0),
{
    let n = cross(a, b);
    let g = dot(n, n);
    let alpha = -dot(v, tangent_at_end(a, b));
    let beta = -dot(v, tangent_at_start(a, b));
    let su = det(a, b, u);
    lemma_norm(n);
    // g det(v, a, u) = -beta su and g det(v, b, u) = alpha su
    lemma_point_of_great_circle(a, b, v, cross(a, u));
    lemma_point_of_great_circle(a, b, v, cross(b, u));
    lemma_det_repeated(a, u);
    lemma_det_repeated(b, u);
    lemma_det_swap(a, b, u);
    assert(det(b, a, u) == -su);
    lemma_mul_sign(alpha, det(a, a, u));
    lemma_mul_sign(beta, det(b, b, u));
    lemma_mul_neg(beta, su);
    assert(g * det(v, a, u) == -(beta * su));
    assert(g * det(v, b, u) == alpha * su);
    lemma_mul_sign(g, det(v, a, u));
    lemma_mul_sign(g, det(v, b, u));
    lemma_mul_sign(beta, su);
    lemma_mul_sign(alpha, su);
    // the triangles of the edge from u to v, and of the edge from v to u
    lemma_det_rotate(v, a, u);
    lemma_det_rotate(v, b, u);
    lemma_det_swap(v, u, a);
    lemma_det_swap(v, u, b);
    assert(det(u, v, a) == det(v, a, u));
    assert(det(u, v, b) == det(v, b, u));
    assert(det(v, u, a) == -det(v, a, u));
    assert(det(v, u, b) == -det(v, b, u));
}

/// The counting rule at a vertex of a chain: where the chain `u, v, w`
/// has its vertex `v` strictly inside the edge from `a` to `b` and both
/// neighbours off the great circle of that edge, its two edges count once
/// between them if the chain passes from one side to the other, and twice
/// or not at all if it turns back.
pub proof fn lemma_chain_through_edge_counts_once(a: Point, b: Point, u: Point, v: Point, w: Point)
    requires
        cross(a@, b@) != zero(),
        det(a@, b@, v@) == 0,
        dot(v@, tangent_at_start(a@, b@)) < 0,
        dot(v@, tangent_at_end(a@, b@)) < 0,
        det(a@, b@, u@) != 0,
        det(a@, b@, w@) != 0,
    ensures
        (edge_or_vertex_crossing(a@, b@, u@, v@) != edge_or_vertex_crossing(a@, b@, v@, w@)) == (
        orientation(a@, b@, u@) != orientation(a@, b@, w@)),
{
    lemma_counting_at_inner_point(a@, b@, u@, v@);
    lemma_counting_at_inner_point(a@, b@, w@, v@);
}

} // verus!
