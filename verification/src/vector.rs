//! Integer vectors in three dimensions: the mathematical model that every
//! contract of this crate is stated over, and the algebra of dot products,
//! cross products and determinants that the proofs rest on.

use vstd::prelude::*;

verus! {

/// A vector of three mathematical integers.
pub struct Vec3 {
    pub x: int,
    pub y: int,
    pub z: int,
}

/// The zero vector.
pub open spec fn zero() -> Vec3 {
    Vec3 { x: 0, y: 0, z: 0 }
}

/// The dot product `u . v`.
pub open spec fn dot(u: Vec3, v: Vec3) -> int {
    u.x * v.x + u.y * v.y + u.z * v.z
}

/// The cross product `u x v`.
pub open spec fn cross(u: Vec3, v: Vec3) -> Vec3 {
    Vec3 { x: u.y * v.z - u.z * v.y, y: u.z * v.x - u.x * v.z, z: u.x * v.y - u.y * v.x }
}

/// The determinant of the matrix with rows `u`, `v`, `w`: the scalar triple
/// product `u . (v x w)`.
pub open spec fn det(u: Vec3, v: Vec3, w: Vec3) -> int {
    dot(u, cross(v, w))
}

/// The linear combination `j * u + k * v`.
pub open spec fn combine(j: int, u: Vec3, k: int, v: Vec3) -> Vec3 {
    Vec3 { x: j * u.x + k * v.x, y: j * u.y + k * v.y, z: j * u.z + k * v.z }
}

/// Products of three factors, in every grouping and order.
pub proof fn lemma_mul_shuffle(a: int, b: int, c: int)
    by (nonlinear_arith)
    ensures
        a * (b * c) == (a * b) * c,
        a * (b * c) == b * (c * a),
        a * (b * c) == b * (a * c),
        a * (b * c) == c * (a * b),
        a * (b * c) == (a * c) * b,
        a * (b * c) == (b * c) * a,
{
}

/// The order of two factors does not matter.
pub proof fn lemma_mul_comm(a: int, b: int)
    by (nonlinear_arith)
    ensures
        a * b == b * a,
{
}

/// Multiplication distributes over a difference.
pub proof fn lemma_mul_sub(x: int, p: int, q: int)
    by (nonlinear_arith)
    ensures
        x * (p - q) == x * p - x * q,
{
}

/// Multiplication distributes over a sum of three.
pub proof fn lemma_mul_sum3(x: int, p: int, q: int, r: int)
    by (nonlinear_arith)
    ensures
        x * (p + q + r) == x * p + x * q + x * r,
        (p + q + r) * x == x * p + x * q + x * r,
{
}

/// A negated factor negates the product.
pub proof fn lemma_mul_neg(x: int, y: int)
    by (nonlinear_arith)
    ensures
        (-x) * y == -(x * y),
        x * (-y) == -(x * y),
{
}

/// The determinant written out as six products.
pub proof fn lemma_det_expand(u: Vec3, v: Vec3, w: Vec3)
    ensures
        det(u, v, w) == u.x * (v.y * w.z) - u.x * (v.z * w.y) + u.y * (v.z * w.x) - u.y * (v.x
            * w.z) + u.z * (v.x * w.y) - u.z * (v.y * w.x),
{
    lemma_mul_sub(u.x, v.y * w.z, v.z * w.y);
    lemma_mul_sub(u.y, v.z * w.x, v.x * w.z);
    lemma_mul_sub(u.z, v.x * w.y, v.y * w.x);
}

/// Rotating the rows keeps the determinant.
pub proof fn lemma_det_rotate(u: Vec3, v: Vec3, w: Vec3)
    ensures
        det(v, w, u) == det(u, v, w),
        det(w, u, v) == det(u, v, w),
{
    lemma_det_expand(u, v, w);
    lemma_det_expand(v, w, u);
    lemma_det_expand(w, u, v);
    lemma_mul_shuffle(u.x, v.y, w.z);
    lemma_mul_shuffle(u.x, v.z, w.y);
    lemma_mul_shuffle(u.y, v.z, w.x);
    lemma_mul_shuffle(u.y, v.x, w.z);
    lemma_mul_shuffle(u.z, v.x, w.y);
    lemma_mul_shuffle(u.z, v.y, w.x);
    lemma_mul_shuffle(v.x, w.y, u.z);
    lemma_mul_shuffle(v.x, w.z, u.y);
    lemma_mul_shuffle(v.y, w.z, u.x);
    lemma_mul_shuffle(v.y, w.x, u.z);
    lemma_mul_shuffle(v.z, w.x, u.y);
    lemma_mul_shuffle(v.z, w.y, u.x);
}

/// Swapping two rows negates the determinant.
pub proof fn lemma_det_swap(u: Vec3, v: Vec3, w: Vec3)
    ensures
        det(v, u, w) == -det(u, v, w),
        det(u, w, v) == -det(u, v, w),
        det(w, v, u) == -det(u, v, w),
{
    lemma_det_expand(u, v, w);
    lemma_det_expand(u, w, v);
    assert(det(u, w, v) == -det(u, v, w));
    lemma_det_rotate(u, v, w);
    lemma_det_rotate(v, u, w);
    lemma_det_expand(v, w, u);
    lemma_det_expand(v, u, w);
    assert(det(v, u, w) == -det(v, w, u));
    lemma_det_rotate(w, v, u);
    lemma_det_expand(w, u, v);
    lemma_det_expand(w, v, u);
    assert(det(w, v, u) == -det(w, u, v));
}

/// A determinant with a repeated row is zero.
pub proof fn lemma_det_repeated(u: Vec3, v: Vec3)
    ensures
        det(u, u, v) == 0,
        det(u, v, u) == 0,
        det(v, u, u) == 0,
{
    lemma_det_swap(u, u, v);
    lemma_det_swap(u, v, u);
    lemma_det_swap(v, u, u);
}

/// One component of `u x (v x w) = (u . w) v - (u . v) w`, with the
/// coordinates numbered from the component in question.
proof fn lemma_triple_cross_component(
    u1: int,
    u2: int,
    u3: int,
    v1: int,
    v2: int,
    v3: int,
    w1: int,
    w2: int,
    w3: int,
)
    ensures
        u2 * (v1 * w2 - v2 * w1) - u3 * (v3 * w1 - v1 * w3) == (u1 * w1 + u2 * w2 + u3 * w3) * v1
            + (-(u1 * v1 + u2 * v2 + u3 * v3)) * w1,
{
    lemma_mul_sub(u2, v1 * w2, v2 * w1);
    lemma_mul_sub(u3, v3 * w1, v1 * w3);
    lemma_mul_sum3(v1, u1 * w1, u2 * w2, u3 * w3);
    lemma_mul_sum3(w1, u1 * v1, u2 * v2, u3 * v3);
    lemma_mul_neg(u1 * v1 + u2 * v2 + u3 * v3, w1);
    lemma_mul_shuffle(v1, u1, w1);
    lemma_mul_shuffle(w1, u1, v1);
    lemma_mul_shuffle(v1, u2, w2);
    lemma_mul_shuffle(u2, v1, w2);
    lemma_mul_shuffle(v1, u3, w3);
    lemma_mul_shuffle(u3, v1, w3);
    lemma_mul_shuffle(w1, u2, v2);
    lemma_mul_shuffle(u2, v2, w1);
    lemma_mul_shuffle(w1, u3, v3);
    lemma_mul_shuffle(u3, v3, w1);
}

/// `u x (v x w) = (u . w) v - (u . v) w`.
pub proof fn lemma_triple_cross(u: Vec3, v: Vec3, w: Vec3)
    ensures
        cross(u, cross(v, w)) == combine(dot(u, w), v, -dot(u, v), w),
{
    lemma_triple_cross_component(u.x, u.y, u.z, v.x, v.y, v.z, w.x, w.y, w.z);
    lemma_triple_cross_component(u.y, u.z, u.x, v.y, v.z, v.x, w.y, w.z, w.x);
    lemma_triple_cross_component(u.z, u.x, u.y, v.z, v.x, v.y, w.z, w.x, w.y);
}

/// The dot product is linear in its first argument.
pub proof fn lemma_dot_combine(j: int, u: Vec3, k: int, v: Vec3, t: Vec3)
    ensures
        dot(combine(j, u, k, v), t) == j * dot(u, t) + k * dot(v, t),
{
    assert((j * u.x + k * v.x) * t.x == j * (u.x * t.x) + k * (v.x * t.x)) by (nonlinear_arith);
    assert((j * u.y + k * v.y) * t.y == j * (u.y * t.y) + k * (v.y * t.y)) by (nonlinear_arith);
    assert((j * u.z + k * v.z) * t.z == j * (u.z * t.z) + k * (v.z * t.z)) by (nonlinear_arith);
    lemma_mul_sum3(j, u.x * t.x, u.y * t.y, u.z * t.z);
    lemma_mul_sum3(k, v.x * t.x, v.y * t.y, v.z * t.z);
}

/// The dot product is symmetric.
pub proof fn lemma_dot_comm(u: Vec3, v: Vec3)
    ensures
        dot(u, v) == dot(v, u),
{
    lemma_mul_comm(u.x, v.x);
    lemma_mul_comm(u.y, v.y);
    lemma_mul_comm(u.z, v.z);
}

/// Swapping the factors negates the cross product, and with it every dot
/// product taken against it.
pub proof fn lemma_cross_swap(u: Vec3, v: Vec3, t: Vec3)
    ensures
        cross(v, u).x == -cross(u, v).x,
        cross(v, u).y == -cross(u, v).y,
        cross(v, u).z == -cross(u, v).z,
        dot(cross(v, u), t) == -dot(cross(u, v), t),
        dot(t, cross(v, u)) == -dot(t, cross(u, v)),
{
    let c = cross(u, v);
    lemma_mul_comm(u.x, v.y);
    lemma_mul_comm(u.x, v.z);
    lemma_mul_comm(u.y, v.x);
    lemma_mul_comm(u.y, v.z);
    lemma_mul_comm(u.z, v.x);
    lemma_mul_comm(u.z, v.y);
    lemma_mul_neg(c.x, t.x);
    lemma_mul_neg(c.y, t.y);
    lemma_mul_neg(c.z, t.z);
    lemma_mul_neg(t.x, c.x);
    lemma_mul_neg(t.y, c.y);
    lemma_mul_neg(t.z, c.z);
}

/// Four vectors in three dimensions are linearly dependent, with the
/// determinants of the triples as coefficients; here the relation is
/// measured along an arbitrary direction `t`.
pub proof fn lemma_four_vectors(a: Vec3, b: Vec3, c: Vec3, d: Vec3, t: Vec3)
    ensures
        det(b, c, d) * dot(a, t) - det(a, c, d) * dot(b, t) + det(a, b, d) * dot(c, t) - det(
            a,
            b,
            c,
        ) * dot(d, t) == 0,
{
    let n = cross(a, b);
    let m = cross(c, d);
    lemma_triple_cross(n, c, d);
    lemma_triple_cross(m, a, b);
    lemma_dot_combine(dot(n, d), c, -dot(n, c), d, t);
    lemma_dot_combine(dot(m, b), a, -dot(m, a), b, t);
    lemma_cross_swap(n, m, t);
    assert(dot(n, d) == det(a, b, d)) by {
        lemma_dot_comm(n, d);
        lemma_det_rotate(d, a, b);
    }
    assert(dot(n, c) == det(a, b, c)) by {
        lemma_dot_comm(n, c);
        lemma_det_rotate(c, a, b);
    }
    assert(dot(m, b) == det(b, c, d)) by {
        lemma_dot_comm(m, b);
    }
    assert(dot(m, a) == det(a, c, d)) by {
        lemma_dot_comm(m, a);
    }
    lemma_mul_neg(det(a, b, c), dot(d, t));
    lemma_mul_neg(det(a, c, d), dot(b, t));
}

/// A dot product of a vector with itself is never negative, and is zero
/// only for the zero vector.
pub proof fn lemma_norm(u: Vec3)
    ensures
        dot(u, u) >= 0,
        dot(u, u) == 0 <==> u == zero(),
{
    assert(u.x * u.x >= 0 && (u.x * u.x == 0 <==> u.x == 0)) by (nonlinear_arith);
    assert(u.y * u.y >= 0 && (u.y * u.y == 0 <==> u.y == 0)) by (nonlinear_arith);
    assert(u.z * u.z >= 0 && (u.z * u.z == 0 <==> u.z == 0)) by (nonlinear_arith);
}

} // verus!
