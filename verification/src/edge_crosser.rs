//! A tester for crossings of one fixed edge with a stream of other edges.

use vstd::prelude::*;
use crate::vector::{Vec3, cross, lemma_det_rotate, lemma_det_swap};
use crate::point::{Point, Vector, bounded, directions, COORD_LIMIT};
use crate::predicates::{Direction, orientation, sign, triage_sign, exact_sign};
use crate::crossing::{
    Crossing,
    crossing,
    edge_or_vertex_crossing,
    on_arc,
    separated,
    tangent_at_end,
    tangent_at_start,
    lemma_counting_rule_agrees,
    lemma_separated_edges_do_not_cross,
};

verus! {

/// The largest magnitude of a coordinate of a tangent: `2^92`.
pub const TANGENT_LIMIT: i128 = 0x1000_0000_0000_0000_0000_0000;

/// What an [`EdgeCrosser`] stands for: its fixed edge from `a` to `b`, and
/// the vertex `c` at which the next edge of its chain starts.
pub struct CrosserState {
    pub a: Vec3,
    pub b: Vec3,
    pub c: Vec3,
}

/// How each edge of the chain `chain[0], chain[1], ...` lies to the edge
/// from `a` to `b`, every edge taken by itself.
pub open spec fn chain_crossings(a: Vec3, b: Vec3, chain: Seq<Vec3>) -> Seq<Crossing> {
    if chain.len() == 0 {
        Seq::empty()
    } else {
        Seq::new((chain.len() - 1) as nat, |i: int| crossing(a, b, chain[i], chain[i + 1]))
    }
}

/// Tests edges for crossing a fixed edge from `a` to `b`.
///
/// It is made for testing the edges of a chain `c0, c1, c2, ...` in turn:
/// it remembers the vertex that the last edge ended at, together with the
/// orientation found for it, so that each further edge costs about half
/// the work of a fresh test. What it answers is always what a fresh test
/// of the same edge answers.
#[derive(Clone, Copy, Debug)]
pub struct EdgeCrosser {
    a: Point,
    b: Point,
    a_cross_b: Vector,
    /// Outward-facing tangent at `a`.
    a_tangent: Vector,
    /// Outward-facing tangent at `b`.
    b_tangent: Vector,
    /// Previous vertex of the chain.
    c: Point,
    /// The orientation of the triangle `a, c, b`, or `Indeterminate` while
    /// it is not known.
    acb: Direction,
}

impl View for EdgeCrosser {
    type V = CrosserState;

    closed spec fn view(&self) -> CrosserState {
        CrosserState { a: self.a@, b: self.b@, c: self.c@ }
    }
}

impl EdgeCrosser {
    #[verifier::type_invariant]
    spec fn consistent(self) -> bool {
        &&& self.a_cross_b@ == cross(self.a@, self.b@)
        &&& self.a_tangent@ == tangent_at_start(self.a@, self.b@)
        &&& self.b_tangent@ == tangent_at_end(self.a@, self.b@)
        &&& bounded(self.a_tangent@, TANGENT_LIMIT as int)
        &&& bounded(self.b_tangent@, TANGENT_LIMIT as int)
        &&& self.acb == Direction::Indeterminate || self.acb == orientation(
            self.a@,
            self.c@,
            self.b@,
        )
    }

    /// A crosser for the fixed edge from `a` to `b`. Its chain starts at
    /// `a`.
    ///
    /// The normal `a x b` and the two outward tangents are computed here,
    /// once, for the separating-plane test that spares most edges the
    /// orientation predicate.
    pub fn new(a: Point, b: Point) -> (r: EdgeCrosser)
        ensures
            r@ == (CrosserState { a: a@, b: b@, c: a@ }),
    {
        let ghost l = COORD_LIMIT as int;
        let norm = a.cross(&b);
        let a_tangent = a.to_vector().cross(&norm, Ghost(l), Ghost(2 * (l * l)));
        let b_tangent = norm.cross(&b.to_vector(), Ghost(2 * (l * l)), Ghost(l));
        EdgeCrosser {
            a,
            b,
            a_cross_b: norm,
            a_tangent,
            b_tangent,
            c: a,
            acb: Direction::Indeterminate,
        }
    }

    /// A crosser for the fixed edge from `a` to `b` whose chain starts at
    /// `c`.
    pub fn new_chain(a: Point, b: Point, c: Point) -> (r: EdgeCrosser)
        ensures
            r@ == (CrosserState { a: a@, b: b@, c: c@ }),
    {
        let mut r = EdgeCrosser::new(a, b);
        r.restart_at(c);
        r
    }

    /// The start of the fixed edge.
    pub fn a(&self) -> (r: Point)
        ensures
            r@ == self@.a,
    {
        self.a
    }

    /// The end of the fixed edge.
    pub fn b(&self) -> (r: Point)
        ensures
            r@ == self@.b,
    {
        self.b
    }

    /// The vertex at which the next edge of the chain starts.
    pub fn c(&self) -> (r: Point)
        ensures
            r@ == self@.c,
    {
        self.c
    }

    /// The normal `a x b` of the plane of the fixed edge, as computed when
    /// the crosser was made.
    pub fn a_cross_b(&self) -> (r: Vector)
        ensures
            r@ == cross(self@.a, self@.b),
    {
        proof {
            use_type_invariant(self);
        }
        self.a_cross_b
    }

    /// The outward-facing tangent at `a`, as computed when the crosser was
    /// made.
    pub fn a_tangent(&self) -> (r: Vector)
        ensures
            r@ == tangent_at_start(self@.a, self@.b),
    {
        proof {
            use_type_invariant(self);
        }
        self.a_tangent
    }

    /// The outward-facing tangent at `b`, as computed when the crosser was
    /// made.
    pub fn b_tangent(&self) -> (r: Vector)
        ensures
            r@ == tangent_at_end(self@.a, self@.b),
    {
        proof {
            use_type_invariant(self);
        }
        self.b_tangent
    }

    /// Starts a new chain at `c`.
    pub fn restart_at(&mut self, c: Point)
        ensures
            final(self)@ == (CrosserState { c: c@, ..old(self)@ }),
    {
        proof {
            use_type_invariant(&*self);
            lemma_det_swap(self.a@, self.b@, c@);
        }
        let acb = triage_sign(&self.a, &self.b, &c).negate();
        *self = EdgeCrosser {
            a: self.a,
            b: self.b,
            a_cross_b: self.a_cross_b,
            a_tangent: self.a_tangent,
            b_tangent: self.b_tangent,
            c,
            acb,
        };
    }

    /// Whether `x` lies on the fixed edge, end points included.
    pub fn edge_contains(&self, x: &Point) -> (r: bool)
        ensures
            r == on_arc(self@.a, self@.b, x@),
    {
        proof {
            use_type_invariant(self);
            use_type_invariant(x);
        }
        let ghost l = COORD_LIMIT as int;
        if self.a_cross_b.is_zero() {
            self.a.same_point(x) || self.b.same_point(x)
        } else {
            let v = x.to_vector();
            self.a.det(&self.b, x) == 0 && v.dot(
                &self.a_tangent,
                Ghost(l),
                Ghost(TANGENT_LIMIT as int),
            ) <= 0 && v.dot(&self.b_tangent, Ghost(l), Ghost(TANGENT_LIMIT as int)) <= 0
        }
    }

    /// The separating-plane test: whether `c` and `d` both lie strictly
    /// beyond one end of the fixed edge.
    fn separates(&self, c: &Point, d: &Point) -> (r: bool)
        ensures
            r == separated(self@.a, self@.b, c@, d@),
    {
        proof {
            use_type_invariant(self);
            use_type_invariant(c);
            use_type_invariant(d);
        }
        let ghost l = COORD_LIMIT as int;
        let ghost t = TANGENT_LIMIT as int;
        let cv = c.to_vector();
        let dv = d.to_vector();
        (cv.dot(&self.a_tangent, Ghost(l), Ghost(t)) > 0 && dv.dot(
            &self.a_tangent,
            Ghost(l),
            Ghost(t),
        ) > 0) || (cv.dot(&self.b_tangent, Ghost(l), Ghost(t)) > 0 && dv.dot(
            &self.b_tangent,
            Ghost(l),
            Ghost(t),
        ) > 0)
    }

    /// How the edge from `c` to `d` lies to the fixed edge. The chain of
    /// this crosser plays no part and is left as it is.
    pub fn crossing_sign(&self, c: Point, d: Point) -> (r: Crossing)
        ensures
            r == crossing(self@.a, self@.b, c@, d@),
    {
        let mut chain = *self;
        chain.restart_at(c);
        chain.chain_crossing_sign(d)
    }

    /// How the edge from the last vertex of the chain to `d` lies to the
    /// fixed edge; `d` becomes the last vertex of the chain.
    ///
    /// The answer is that of [`EdgeCrosser::crossing_sign`] for the same
    /// edge.
    pub fn chain_crossing_sign(&mut self, d: Point) -> (r: Crossing)
        ensures
            r == crossing(old(self)@.a, old(self)@.b, old(self)@.c, d@),
            final(self)@ == (CrosserState { c: d@, ..old(self)@ }),
    {
        let a = self.a;
        let b = self.b;
        let c = self.c;
        proof {
            use_type_invariant(&*self);
            use_type_invariant(&a);
            use_type_invariant(&b);
            lemma_det_rotate(a@, b@, d@);
            lemma_det_swap(a@, b@, d@);
        }
        // The triangle bda turns as the triple (a, b, d) does.
        let bda_fast = triage_sign(&a, &b, &d);
        let decided = !matches!(bda_fast, Direction::Indeterminate);
        let separate = (decided && self.acb == bda_fast.negate()) || self.separates(&c, &d);
        if separate {
            // Either the triangles acb and bda turn against each other, or
            // a plane through one end of the fixed edge separates the two.
            proof {
                if separated(a@, b@, c@, d@) {
                    lemma_separated_edges_do_not_cross(a@, b@, c@, d@);
                }
            }
            *self = EdgeCrosser {
                a,
                b,
                a_cross_b: self.a_cross_b,
                a_tangent: self.a_tangent,
                b_tangent: self.b_tangent,
                c: d,
                acb: bda_fast.negate(),
            };
            return Crossing::DoesNotCross;
        }
        let acb = match self.acb {
            Direction::Indeterminate => exact_sign(&a, &c, &b),
            known => known,
        };
        let bda = match bda_fast {
            Direction::Indeterminate => exact_sign(&a, &b, &d),
            known => known,
        };
        *self = EdgeCrosser {
            a,
            b,
            a_cross_b: self.a_cross_b,
            a_tangent: self.a_tangent,
            b_tangent: self.b_tangent,
            c: d,
            acb: bda.negate(),
        };
        let cbd = sign(&c, &b, &d);
        let dac = sign(&d, &a, &c);
        let left = matches!(acb, Direction::CounterClockwise) || matches!(
            cbd,
            Direction::CounterClockwise
        ) || matches!(bda, Direction::CounterClockwise) || matches!(
            dac,
            Direction::CounterClockwise
        );
        let right = matches!(acb, Direction::Clockwise) || matches!(cbd, Direction::Clockwise)
            || matches!(bda, Direction::Clockwise) || matches!(dac, Direction::Clockwise);
        let flat = matches!(acb, Direction::Indeterminate) || matches!(
            cbd,
            Direction::Indeterminate
        ) || matches!(bda, Direction::Indeterminate) || matches!(dac, Direction::Indeterminate);
        if left && right {
            Crossing::DoesNotCross
        } else if !flat {
            Crossing::Cross
        } else if left || right {
            Crossing::MaybeCross
        } else {
            // All four points lie on one great circle.
            let other = EdgeCrosser::new(c, d);
            if self.edge_contains(&c) || self.edge_contains(&d) || other.edge_contains(&a)
                || other.edge_contains(&b) {
                Crossing::MaybeCross
            } else {
                Crossing::DoesNotCross
            }
        }
    }

    /// How each edge of `chain` lies to the fixed edge, found by walking
    /// the chain once. Every entry is what
    /// [`EdgeCrosser::crossing_sign`] answers for that edge alone. The
    /// crosser's own chain is left as it is.
    pub fn chain_crossing_signs(&self, chain: &Vec<Point>) -> (r: Vec<Crossing>)
        ensures
            r@ == chain_crossings(self@.a, self@.b, directions(chain@)),
    {
        let mut signs: Vec<Crossing> = Vec::new();
        let n = chain.len();
        if n == 0 {
            assert(signs@ =~= chain_crossings(self@.a, self@.b, directions(chain@)));
            return signs;
        }
        let ghost vs = directions(chain@);
        let mut walker = *self;
        walker.restart_at(chain[0]);
        let mut i: usize = 1;
        while i < n
            invariant
                n == chain.len(),
                vs == directions(chain@),
                1 <= i <= n,
                walker@.a == self@.a,
                walker@.b == self@.b,
                walker@.c == vs[i - 1],
                signs@.len() == i - 1,
                forall|j: int|
                    0 <= j < i - 1 ==> signs@[j] == crossing(self@.a, self@.b, vs[j], vs[j + 1]),
            decreases n - i,
        {
            let state = walker.chain_crossing_sign(chain[i]);
            signs.push(state);
            i += 1;
        }
        assert(signs@ =~= chain_crossings(self@.a, self@.b, vs));
        signs
    }

    /// Whether the edge from `c` to `d` counts as crossing the fixed edge
    /// when crossings are counted: [`EdgeCrosser::crossing_sign`], with
    /// `MaybeCross` settled by the counting rule.
    pub fn edge_or_vertex_crossing(&self, c: Point, d: Point) -> (r: bool)
        ensures
            r == edge_or_vertex_crossing(self@.a, self@.b, c@, d@),
    {
        let mut chain = *self;
        chain.restart_at(c);
        chain.edge_or_vertex_chain_crossing(d)
    }

    /// Whether the edge from the last vertex of the chain to `d` counts as
    /// crossing the fixed edge when crossings are counted; `d` becomes the
    /// last vertex of the chain.
    pub fn edge_or_vertex_chain_crossing(&mut self, d: Point) -> (r: bool)
        ensures
            r == edge_or_vertex_crossing(old(self)@.a, old(self)@.b, old(self)@.c, d@),
            final(self)@ == (CrosserState { c: d@, ..old(self)@ }),
    {
        let a = self.a;
        let b = self.b;
        let c = self.c;
        proof {
            lemma_counting_rule_agrees(a@, b@, c@, d@);
        }
        match self.chain_crossing_sign(d) {
            Crossing::Cross => true,
            Crossing::DoesNotCross => false,
            Crossing::MaybeCross => {
                let c_left = !matches!(sign(&a, &b, &c), Direction::Clockwise);
                let d_left = !matches!(sign(&a, &b, &d), Direction::Clockwise);
                let a_left = !matches!(sign(&c, &d, &a), Direction::Clockwise);
                let b_left = !matches!(sign(&c, &d, &b), Direction::Clockwise);
                c_left != d_left && a_left != b_left && d_left == a_left
            },
        }
    }
}

} // verus!
