//! Loops: simple closed chains of great-circle edges, and the region of
//! the sphere that each bounds.

use vstd::prelude::*;
use crate::vector::{Vec3, det, lemma_det_repeated, lemma_norm};
use crate::point::{
    Point,
    directions,
    is_direction,
    opposite_direction,
    same_direction,
};
use crate::predicates::{Direction, sign};
use crate::crossing::{Crossing, crossing, edge_or_vertex_crossing, on_arc};
use crate::edge_crosser::{CrosserState, EdgeCrosser};

verus! {

/// Why a list of vertices is not a loop.
#[derive(Clone, Copy, Debug, PartialEq, Eq, Structural)]
pub enum ValidationError {
    /// The list is empty or has two vertices.
    TooFewVertices,
    /// Two vertices of the list are the same point.
    DuplicateVertex,
    /// Two consecutive vertices are antipodal, so that no edge joins them.
    AntipodalVertices,
    /// Two edges that are not neighbours have a point in common.
    SelfIntersection,
}

/// The direction of the reference point from which crossings are counted.
pub open spec fn origin() -> Vec3 {
    Vec3 { x: -10_736_845, y: 2_783_627, z: 1_073_684_533 }
}

/// The reference point from which crossings are counted. It lies close to
/// the north pole, off the meridians and parallels that data tends to
/// follow.
pub fn origin_point() -> (r: Point)
    ensures
        r@ == origin(),
{
    let o = Point::new(-10_736_845, 2_783_627, 1_073_684_533);
    assert(is_direction(origin()));
    o.unwrap()
}

/// The direction of the waypoint by which crossings are counted to the
/// antipode of the reference point.
pub open spec fn waypoint() -> Vec3 {
    Vec3 { x: 1_073_684_533, y: -10_736_845, z: 2_783_627 }
}

/// The waypoint by which crossings are counted to the antipode of the
/// reference point. It lies close to the equator, a quarter of a circle
/// from the reference point.
pub fn waypoint_point() -> (r: Point)
    ensures
        r@ == waypoint(),
{
    let w = Point::new(1_073_684_533, -10_736_845, 2_783_627);
    assert(is_direction(waypoint()));
    w.unwrap()
}

/// The index that follows `i` on a closed chain of `n` vertices.
pub open spec fn next_index(i: int, n: int) -> int {
    if i + 1 == n {
        0
    } else {
        i + 1
    }
}

/// The index that precedes `i` on a closed chain of `n` vertices.
pub open spec fn prev_index(i: int, n: int) -> int {
    if i == 0 {
        n - 1
    } else {
        i - 1
    }
}

/// Two vertices of the list are the same point.
pub open spec fn has_duplicate(vs: Seq<Vec3>) -> bool {
    exists|i: int, j: int| 0 <= i < j < vs.len() && #[trigger] same_direction(vs[i], vs[j])
}

/// The edge that starts at vertex `i` joins antipodal points.
pub open spec fn antipodal_edge(vs: Seq<Vec3>, i: int) -> bool {
    opposite_direction(vs[i], vs[next_index(i, vs.len() as int)])
}

/// Some edge of the closed chain joins antipodal points.
pub open spec fn has_antipodal_edge(vs: Seq<Vec3>) -> bool {
    exists|i: int| 0 <= i < vs.len() && #[trigger] antipodal_edge(vs, i)
}

/// The edges that start at vertices `i` and `j` are the same edge or share
/// a vertex.
pub open spec fn neighbours(i: int, j: int, n: int) -> bool {
    i == j || next_index(i, n) == j || next_index(j, n) == i
}

/// The edges that start at vertices `i` and `j` have a point in common.
pub open spec fn edges_meet(vs: Seq<Vec3>, i: int, j: int) -> bool {
    crossing(
        vs[i],
        vs[next_index(i, vs.len() as int)],
        vs[j],
        vs[next_index(j, vs.len() as int)],
    ) != Crossing::DoesNotCross
}

/// Two edges of the closed chain that are not neighbours have a point in
/// common.
pub open spec fn self_intersects(vs: Seq<Vec3>) -> bool {
    exists|i: int, j: int|
        0 <= i < j < vs.len() && !neighbours(i, j, vs.len() as int) && #[trigger] edges_meet(
            vs,
            i,
            j,
        )
}

/// The first reason for which `vs` is not the vertex list of a loop, or
/// `None` where it is one.
///
/// A single vertex is a loop: the empty or the full one. Any other list
/// needs three vertices or more, all distinct, no two consecutive ones
/// antipodal, and no two edges that meet unless they are neighbours.
pub open spec fn validation_error(vs: Seq<Vec3>) -> Option<ValidationError> {
    if vs.len() == 1 {
        None
    } else if vs.len() < 3 {
        Some(ValidationError::TooFewVertices)
    } else if has_duplicate(vs) {
        Some(ValidationError::DuplicateVertex)
    } else if has_antipodal_edge(vs) {
        Some(ValidationError::AntipodalVertices)
    } else if self_intersects(vs) {
        Some(ValidationError::SelfIntersection)
    } else {
        None
    }
}

/// Whether an odd number of the edges that start at vertices `0` up to
/// `hi - 1` count as crossing the edge from `a` to `b`.
pub open spec fn crossing_parity(a: Vec3, b: Vec3, vs: Seq<Vec3>, hi: int) -> bool
    decreases hi,
{
    if hi <= 0 {
        false
    } else {
        crossing_parity(a, b, vs, hi - 1) != edge_or_vertex_crossing(
            a,
            b,
            vs[hi - 1],
            vs[next_index(hi - 1, vs.len() as int)],
        )
    }
}

/// `x` lies within the angle that the chain `v0, v1, v2` has on its left
/// at `v1`: to the left of both edges where the chain turns left, and to
/// the left of either where it does not.
pub open spec fn inside_angle(v0: Vec3, v1: Vec3, v2: Vec3, x: Vec3) -> bool {
    if det(v0, v1, v2) > 0 {
        det(v0, v1, x) > 0 && det(v1, v2, x) > 0
    } else {
        det(v0, v1, x) > 0 || det(v1, v2, x) > 0
    }
}

/// Whether an odd number of the edges that start at vertices `0` up to
/// `hi - 1`, the two edges at vertex `k` apart, count as crossing the edge
/// from `a` to `b`.
pub open spec fn crossing_parity_apart(a: Vec3, b: Vec3, vs: Seq<Vec3>, k: int, hi: int) -> bool
    decreases hi,
{
    if hi <= 0 {
        false
    } else {
        crossing_parity_apart(a, b, vs, k, hi - 1) != (hi - 1 != k && hi - 1 != prev_index(
            k,
            vs.len() as int,
        ) && edge_or_vertex_crossing(a, b, vs[hi - 1], vs[next_index(hi - 1, vs.len() as int)]))
    }
}

/// The reference point lies on the great circle of neither edge at vertex
/// `k`.
pub open spec fn clear_of_origin(vs: Seq<Vec3>, k: int) -> bool {
    &&& det(vs[prev_index(k, vs.len() as int)], vs[k], origin()) != 0
    &&& det(vs[k], vs[next_index(k, vs.len() as int)], origin()) != 0
}

/// The first vertex from `k` on at which the reference point is clear of
/// both edges, or vertex 0 where there is none.
pub open spec fn anchor_from(vs: Seq<Vec3>, k: int) -> int
    decreases vs.len() - k,
{
    if k >= vs.len() {
        0
    } else if clear_of_origin(vs, k) {
        k
    } else {
        anchor_from(vs, k + 1)
    }
}

/// Whether the loop with the valid vertex list `vs` contains the reference
/// point.
///
/// The empty and the full loop say so by the hemisphere of their one
/// vertex. For any other loop, walk from the reference point to a vertex,
/// the first at which the reference point is clear of both edges: the
/// walk arrives inside the angle of the loop there or outside it, and each
/// edge crossed on the way, the two at that vertex apart, changes sides.
pub open spec fn origin_inside_of(vs: Seq<Vec3>) -> bool {
    if vs.len() == 1 {
        vs[0].z < 0
    } else {
        let n = vs.len() as int;
        let k = anchor_from(vs, 0);
        inside_angle(vs[prev_index(k, n)], vs[k], vs[next_index(k, n)], origin())
            != crossing_parity_apart(origin(), vs[k], vs, k, n)
    }
}

/// `p` lies on an edge of the closed chain `vs`.
pub open spec fn on_boundary(vs: Seq<Vec3>, p: Vec3) -> bool {
    exists|i: int| 0 <= i < vs.len() && #[trigger] on_arc(vs[i], vs[next_index(i, vs.len() as int)], p)
}

/// What a [`Loop`] stands for.
pub struct LoopView {
    /// The directions of the vertices, in order.
    pub vertices: Seq<Vec3>,
    /// Whether the loop contains the reference point.
    pub origin_inside: bool,
    /// The nesting depth of the loop within the shape that owns it.
    pub depth: int,
}

impl LoopView {
    /// Whether the point in direction `p` lies on the side of the
    /// reference point: whether an even number of edges count as crossing
    /// the way from the reference point to it. The way is the edge between
    /// the two, but to the antipode of the reference point, to which no
    /// edge leads, it is the edge to the waypoint and the edge on from
    /// there.
    pub open spec fn on_side_of_origin(self, p: Vec3) -> bool {
        let n = self.vertices.len() as int;
        if opposite_direction(origin(), p) {
            crossing_parity(origin(), waypoint(), self.vertices, n) == crossing_parity(
                waypoint(),
                p,
                self.vertices,
                n,
            )
        } else {
            !crossing_parity(origin(), p, self.vertices, n)
        }
    }

    /// Whether the loop contains the point in direction `p`.
    ///
    /// The empty loop contains nothing and the full loop everything. Any
    /// other loop contains its boundary; off the boundary, it contains the
    /// points on the side of the reference point where it contains the
    /// reference point, and the points on the other side where it does not.
    pub open spec fn contains(self, p: Vec3) -> bool {
        if self.vertices.len() == 1 {
            self.origin_inside
        } else if on_boundary(self.vertices, p) {
            true
        } else {
            self.origin_inside == self.on_side_of_origin(p)
        }
    }
}

/// A simple spherical polygon: a closed chain of vertices, each joined to
/// the next and the last to the first by a great-circle edge.
///
/// The interior is on the left of the edges, so a chain that runs
/// clockwise around a small region bounds the large region outside it.
/// No vertex occurs twice, no edge joins antipodal points, and edges meet
/// only where neighbours share a vertex. Two loops have no edges and one
/// vertex each: the empty loop and the full loop.
///
/// Sides are told by counting crossings from the reference point, which
/// is taken to lie on no edge of the loop, as is the waypoint.
#[derive(Debug)]
pub struct Loop {
    vertices: Vec<Point>,
    /// Whether this loop contains the reference point.
    origin_inside: bool,
    /// The nesting depth of this loop within the shape that owns it.
    depth: i64,
}

impl View for Loop {
    type V = LoopView;

    closed spec fn view(&self) -> LoopView {
        LoopView {
            vertices: directions(self.vertices@),
            origin_inside: self.origin_inside,
            depth: self.depth as int,
        }
    }
}

/// Whether two vertices of the list are the same point.
fn find_duplicate(vertices: &Vec<Point>) -> (r: bool)
    ensures
        r == has_duplicate(directions(vertices@)),
{
    let n = vertices.len();
    let ghost vs = directions(vertices@);
    let mut i: usize = 0;
    while i < n
        invariant
            n == vertices.len(),
            vs == directions(vertices@),
            i <= n,
            forall|p: int, q: int| 0 <= p < q < n && p < i ==> !#[trigger] same_direction(vs[p], vs[q]),
        decreases n - i,
    {
        let mut j: usize = i + 1;
        while j < n
            invariant
                n == vertices.len(),
                vs == directions(vertices@),
                i < j <= n,
                forall|p: int, q: int|
                    0 <= p < q < n && p < i ==> !#[trigger] same_direction(vs[p], vs[q]),
                forall|q: int| i < q < j ==> !#[trigger] same_direction(vs[i as int], vs[q]),
            decreases n - j,
        {
            if vertices[i].same_point(&vertices[j]) {
                assert(same_direction(vs[i as int], vs[j as int]));
                return true;
            }
            j += 1;
        }
        i += 1;
    }
    false
}

/// Whether some edge of the closed chain joins antipodal points.
fn find_antipodal_edge(vertices: &Vec<Point>) -> (r: bool)
    ensures
        r == has_antipodal_edge(directions(vertices@)),
{
    let n = vertices.len();
    let ghost vs = directions(vertices@);
    let mut i: usize = 0;
    while i < n
        invariant
            n == vertices.len(),
            vs == directions(vertices@),
            i <= n,
            forall|p: int| 0 <= p < i ==> !#[trigger] antipodal_edge(vs, p),
        decreases n - i,
    {
        let k: usize = if i + 1 == n {
            0
        } else {
            i + 1
        };
        if vertices[i].antipodal(&vertices[k]) {
            assert(antipodal_edge(vs, i as int));
            return true;
        }
        i += 1;
    }
    false
}

/// Whether two edges of the closed chain that are not neighbours have a
/// point in common. Each edge in turn is the fixed edge of a crosser, and
/// the edges after it are walked as a chain.
fn find_self_intersection(vertices: &Vec<Point>) -> (r: bool)
    requires
        vertices.len() >= 3,
    ensures
        r == self_intersects(directions(vertices@)),
{
    let n = vertices.len();
    let ghost vs = directions(vertices@);
    let mut i: usize = 0;
    while i < n - 2
        invariant
            n == vertices.len(),
            n >= 3,
            vs == directions(vertices@),
            forall|p: int, q: int|
                0 <= p < q < n && p < i && !neighbours(p, q, n as int) ==> !#[trigger] edges_meet(
                    vs,
                    p,
                    q,
                ),
        decreases n - i,
    {
        let mut crosser = EdgeCrosser::new_chain(vertices[i], vertices[i + 1], vertices[i + 2]);
        let mut j: usize = i + 2;
        while j < n
            invariant
                n == vertices.len(),
                n >= 3,
                vs == directions(vertices@),
                i + 2 <= j <= n,
                crosser@.a == vs[i as int],
                crosser@.b == vs[i + 1],
                j < n ==> crosser@.c == vs[j as int],
                forall|p: int, q: int|
                    0 <= p < q < n && p < i && !neighbours(p, q, n as int)
                        ==> !#[trigger] edges_meet(vs, p, q),
                forall|q: int|
                    i < q < j && !neighbours(i as int, q, n as int) ==> !#[trigger] edges_meet(
                        vs,
                        i as int,
                        q,
                    ),
            decreases n - j,
        {
            let k: usize = if j + 1 == n {
                0
            } else {
                j + 1
            };
            let state = crosser.chain_crossing_sign(vertices[k]);
            let apart = !(i == 0 && j + 1 == n);
            if apart && !matches!(state, Crossing::DoesNotCross) {
                assert(edges_meet(vs, i as int, j as int));
                assert(!neighbours(i as int, j as int, n as int));
                return true;
            }
            j += 1;
        }
        i += 1;
    }
    assert forall|p: int, q: int| 0 <= p < q < n && !neighbours(p, q, n as int) implies !#[trigger] edges_meet(
        vs,
        p,
        q,
    ) by {
        assert(p < i);
    }
    false
}

/// The vertex from which to judge the side of the reference point.
fn find_anchor(vertices: &Vec<Point>) -> (r: usize)
    requires
        vertices.len() >= 3,
    ensures
        r == anchor_from(directions(vertices@), 0),
        r < vertices.len(),
{
    let n = vertices.len();
    let ghost vs = directions(vertices@);
    let o = origin_point();
    let mut k: usize = 0;
    while k < n
        invariant
            n == vertices.len(),
            n >= 3,
            vs == directions(vertices@),
            o@ == origin(),
            k <= n,
            anchor_from(vs, 0) == anchor_from(vs, k as int),
        decreases n - k,
    {
        let before: usize = if k == 0 {
            n - 1
        } else {
            k - 1
        };
        let after: usize = if k + 1 == n {
            0
        } else {
            k + 1
        };
        let clear = !matches!(sign(&vertices[before], &vertices[k], &o), Direction::Indeterminate)
            && !matches!(sign(&vertices[k], &vertices[after], &o), Direction::Indeterminate);
        assert(clear == clear_of_origin(vs, k as int));
        if clear {
            return k;
        }
        k += 1;
    }
    0
}

/// Whether the loop with the valid vertex list `vertices` contains the
/// reference point.
fn find_origin_inside(vertices: &Vec<Point>) -> (r: bool)
    requires
        vertices.len() >= 3,
    ensures
        r == origin_inside_of(directions(vertices@)),
{
    let n = vertices.len();
    let ghost vs = directions(vertices@);
    let o = origin_point();
    let k = find_anchor(vertices);
    let before: usize = if k == 0 {
        n - 1
    } else {
        k - 1
    };
    let after: usize = if k + 1 == n {
        0
    } else {
        k + 1
    };
    let v0 = vertices[before];
    let v1 = vertices[k];
    let v2 = vertices[after];
    let left0 = matches!(sign(&v0, &v1, &o), Direction::CounterClockwise);
    let left1 = matches!(sign(&v1, &v2, &o), Direction::CounterClockwise);
    let within = if matches!(sign(&v0, &v1, &v2), Direction::CounterClockwise) {
        left0 && left1
    } else {
        left0 || left1
    };
    assert(within == inside_angle(
        vs[prev_index(k as int, n as int)],
        vs[k as int],
        vs[next_index(k as int, n as int)],
        origin(),
    ));
    let mut crosser = EdgeCrosser::new_chain(o, v1, vertices[0]);
    let mut odd = false;
    let mut i: usize = 0;
    while i < n
        invariant
            n == vertices.len(),
            n >= 3,
            vs == directions(vertices@),
            i <= n,
            k < n,
            before == prev_index(k as int, n as int),
            crosser@.a == origin(),
            crosser@.b == vs[k as int],
            i < n ==> crosser@.c == vs[i as int],
            odd == crossing_parity_apart(origin(), vs[k as int], vs, k as int, i as int),
        decreases n - i,
    {
        let next: usize = if i + 1 == n {
            0
        } else {
            i + 1
        };
        if i == k || i == before {
            crosser.restart_at(vertices[next]);
        } else {
            let crosses = crosser.edge_or_vertex_chain_crossing(vertices[next]);
            odd = odd != crosses;
        }
        i += 1;
    }
    within != odd
}

/// A loop contains the reference point exactly when its view says so,
/// unless the reference point lies on its boundary, which belongs to it.
pub proof fn lemma_origin_inside_is_containment(l: LoopView)
    requires
        !on_boundary(l.vertices, origin()),
    ensures
        l.contains(origin()) == l.origin_inside,
{
    lemma_no_crossing_on_the_spot(origin(), l.vertices, l.vertices.len() as int);
}

/// No edge counts as crossing the way from a point to itself.
proof fn lemma_no_crossing_on_the_spot(o: Vec3, vs: Seq<Vec3>, hi: int)
    ensures
        !crossing_parity(o, o, vs, hi),
    decreases hi,
{
    if hi > 0 {
        lemma_no_crossing_on_the_spot(o, vs, hi - 1);
        lemma_det_repeated(o, vs[hi - 1]);
        lemma_det_repeated(o, vs[next_index(hi - 1, vs.len() as int)]);
    }
}

/// A vertex list with two consecutive antipodal vertices is never the
/// vertex list of a loop.
pub proof fn lemma_antipodal_pair_is_rejected(vertices: Seq<Point>, i: int)
    requires
        0 <= i < vertices.len(),
        opposite_direction(vertices[i]@, vertices[next_index(i, vertices.len() as int)]@),
    ensures
        validation_error(directions(vertices)) is Some,
{
    let vs = directions(vertices);
    // A single vertex is not antipodal to itself.
    lemma_norm(vs[0]);
    assert(antipodal_edge(vs, i));
}

impl Loop {
    #[verifier::type_invariant]
    spec fn well_formed(self) -> bool {
        &&& self.vertices.len() >= 1
        &&& validation_error(directions(self.vertices@)) is None
        &&& self.origin_inside == origin_inside_of(directions(self.vertices@))
    }

    /// The loop with the given vertices, in order, or the first reason for
    /// which they do not make a loop.
    ///
    /// A single vertex makes the empty loop where it lies in the northern
    /// hemisphere or on the equator, and the full loop where it lies in
    /// the southern. Whether the loop contains the reference point is
    /// worked out here, once; its depth is zero.
    pub fn build(vertices: Vec<Point>) -> (r: Result<Loop, ValidationError>)
        ensures
            match r {
                Ok(l) => {
                    &&& validation_error(directions(vertices@)) is None
                    &&& l@ == (LoopView {
                        vertices: directions(vertices@),
                        origin_inside: origin_inside_of(directions(vertices@)),
                        depth: 0,
                    })
                },
                Err(e) => validation_error(directions(vertices@)) == Some(e),
            },
    {
        let n = vertices.len();
        if n == 1 {
            let origin_inside = vertices[0].z() < 0;
            return Ok(Loop { vertices, origin_inside, depth: 0 });
        }
        if n < 3 {
            return Err(ValidationError::TooFewVertices);
        }
        if find_duplicate(&vertices) {
            return Err(ValidationError::DuplicateVertex);
        }
        if find_antipodal_edge(&vertices) {
            return Err(ValidationError::AntipodalVertices);
        }
        if find_self_intersection(&vertices) {
            return Err(ValidationError::SelfIntersection);
        }
        let origin_inside = find_origin_inside(&vertices);
        Ok(Loop { vertices, origin_inside, depth: 0 })
    }

    /// The empty loop, which contains no point.
    pub fn empty() -> (r: Loop)
        ensures
            r@ == (LoopView {
                vertices: seq![Vec3 { x: 0, y: 0, z: 1 }],
                origin_inside: false,
                depth: 0,
            }),
    {
        let north = Point::new(0, 0, 1);
        assert(is_direction(Vec3 { x: 0, y: 0, z: 1 }));
        let vertices = vec![north.unwrap()];
        assert(directions(vertices@) =~= seq![Vec3 { x: 0, y: 0, z: 1 }]);
        Loop { vertices, origin_inside: false, depth: 0 }
    }

    /// The full loop, which contains every point.
    pub fn full() -> (r: Loop)
        ensures
            r@ == (LoopView {
                vertices: seq![Vec3 { x: 0, y: 0, z: -1 }],
                origin_inside: true,
                depth: 0,
            }),
    {
        let south = Point::new(0, 0, -1);
        assert(is_direction(Vec3 { x: 0, y: 0, z: -1 }));
        let vertices = vec![south.unwrap()];
        assert(directions(vertices@) =~= seq![Vec3 { x: 0, y: 0, z: -1 }]);
        Loop { vertices, origin_inside: true, depth: 0 }
    }

    /// The vertices, in order.
    pub fn vertices(&self) -> (r: &Vec<Point>)
        ensures
            directions(r@) == self@.vertices,
            validation_error(self@.vertices) is None,
    {
        proof {
            use_type_invariant(self);
        }
        &self.vertices
    }

    /// The number of vertices.
    pub fn num_vertices(&self) -> (r: usize)
        ensures
            r == self@.vertices.len(),
            r >= 1,
    {
        proof {
            use_type_invariant(self);
        }
        self.vertices.len()
    }

    /// Whether this loop contains the reference point, as worked out when
    /// the loop was made.
    pub fn origin_inside(&self) -> (r: bool)
        ensures
            r == self@.origin_inside,
            r == origin_inside_of(self@.vertices),
    {
        proof {
            use_type_invariant(self);
        }
        self.origin_inside
    }

    /// The nesting depth of this loop within the shape that owns it.
    pub fn depth(&self) -> (r: i64)
        ensures
            r == self@.depth,
    {
        self.depth
    }

    /// Sets the nesting depth; nothing else of the loop changes.
    pub fn set_depth(&mut self, depth: i64)
        ensures
            final(self)@ == (LoopView { depth: depth as int, ..old(self)@ }),
    {
        proof {
            use_type_invariant(&*self);
        }
        self.depth = depth;
    }

    /// Whether this is the empty or the full loop.
    pub fn is_empty_or_full(&self) -> (r: bool)
        ensures
            r == (self@.vertices.len() == 1),
    {
        self.vertices.len() == 1
    }

    /// Whether this is the empty loop.
    pub fn is_empty(&self) -> (r: bool)
        ensures
            r == (self@.vertices.len() == 1 && !self@.origin_inside),
    {
        self.vertices.len() == 1 && !self.origin_inside
    }

    /// Whether this is the full loop.
    pub fn is_full(&self) -> (r: bool)
        ensures
            r == (self@.vertices.len() == 1 && self@.origin_inside),
    {
        self.vertices.len() == 1 && self.origin_inside
    }

    /// Whether `p` lies on an edge of this loop.
    pub fn on_boundary(&self, p: &Point) -> (r: bool)
        ensures
            r == (self@.vertices.len() != 1 && on_boundary(self@.vertices, p@)),
    {
        proof {
            use_type_invariant(self);
        }
        let n = self.vertices.len();
        let ghost vs = directions(self.vertices@);
        if n == 1 {
            return false;
        }
        let mut i: usize = 0;
        while i < n
            invariant
                n == self.vertices.len(),
                n >= 3,
                vs == directions(self.vertices@),
                vs.len() == n,
                i <= n,
                forall|q: int|
                    0 <= q < i ==> !#[trigger] on_arc(vs[q], vs[next_index(q, n as int)], p@),
            decreases n - i,
        {
            let k: usize = if i + 1 == n {
                0
            } else {
                i + 1
            };
            let edge = EdgeCrosser::new(self.vertices[i], self.vertices[k]);
            if edge.edge_contains(p) {
                assert(on_arc(vs[i as int], vs[next_index(i as int, n as int)], p@));
                return true;
            }
            i += 1;
        }
        false
    }

    /// Whether an odd number of the edges of this loop count as crossing
    /// the edge from `a` to `b`. One crosser walks the whole chain of the
    /// loop.
    pub fn crossing_parity(&self, a: Point, b: Point) -> (r: bool)
        ensures
            r == crossing_parity(a@, b@, self@.vertices, self@.vertices.len() as int),
    {
        proof {
            use_type_invariant(self);
        }
        let n = self.vertices.len();
        let ghost vs = directions(self.vertices@);
        let mut crosser = EdgeCrosser::new_chain(a, b, self.vertices[0]);
        let mut odd = false;
        let mut i: usize = 0;
        while i < n
            invariant
                n == self.vertices.len(),
                n >= 1,
                vs == directions(self.vertices@),
                i <= n,
                crosser@.a == a@,
                crosser@.b == b@,
                i < n ==> crosser@.c == vs[i as int],
                odd == crossing_parity(a@, b@, vs, i as int),
            decreases n - i,
        {
            let k: usize = if i + 1 == n {
                0
            } else {
                i + 1
            };
            let crosses = crosser.edge_or_vertex_chain_crossing(self.vertices[k]);
            odd = odd != crosses;
            i += 1;
        }
        odd
    }

    /// Whether this loop contains the point `p`.
    ///
    /// Crossings are counted along the edge from the reference point to
    /// `p`. No edge leads to the antipode of the reference point: for that
    /// one point they are counted by way of the waypoint.
    pub fn contains_point(&self, p: Point) -> (r: bool)
        ensures
            r == self@.contains(p@),
    {
        if self.is_empty_or_full() {
            return self.origin_inside;
        }
        if self.on_boundary(&p) {
            return true;
        }
        let o = origin_point();
        if o.antipodal(&p) {
            let w = waypoint_point();
            let to_waypoint = self.crossing_parity(o, w);
            let onward = self.crossing_parity(w, p);
            self.origin_inside != (to_waypoint != onward)
        } else {
            self.origin_inside != self.crossing_parity(o, p)
        }
    }
}

} // verus!
