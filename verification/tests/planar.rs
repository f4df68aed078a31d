//! Through the plane `x = 3`, great-circle edges of the hemisphere `x > 0`
//! are straight segments, so that what the library says of small loops
//! there can be held against plane geometry on a grid, where end points
//! on edges and edges along one line are common.

use s2_core::crossing::Crossing;
use s2_core::edge_crosser::EdgeCrosser;
use s2_core::loops::{Loop, ValidationError};
use s2_core::point::Point;

type Flat = (i64, i64);

struct Lcg(u64);

impl Lcg {
    fn next(&mut self) -> u64 {
        self.0 = self.0.wrapping_mul(6364136223846793005).wrapping_add(1442695040888963407);
        self.0 >> 33
    }

    fn range(&mut self, lo: i64, hi: i64) -> i64 {
        lo + (self.next() % ((hi - lo + 1) as u64)) as i64
    }

    fn flat(&mut self, reach: i64) -> Flat {
        (self.range(-reach, reach), self.range(-reach, reach))
    }
}

fn lift(p: Flat) -> Point {
    Point::new(3, p.0, p.1).unwrap()
}

fn turn(p: Flat, q: Flat, r: Flat) -> i64 {
    (q.0 - p.0) * (r.1 - p.1) - (q.1 - p.1) * (r.0 - p.0)
}

fn on_segment(p: Flat, q: Flat, r: Flat) -> bool {
    turn(p, q, r) == 0
        && p.0.min(q.0) <= r.0
        && r.0 <= p.0.max(q.0)
        && p.1.min(q.1) <= r.1
        && r.1 <= p.1.max(q.1)
}

fn segments_meet(a: Flat, b: Flat, c: Flat, d: Flat) -> bool {
    let (s1, s2) = (turn(a, b, c).signum(), turn(a, b, d).signum());
    let (s3, s4) = (turn(c, d, a).signum(), turn(c, d, b).signum());
    (s1 * s2 < 0 && s3 * s4 < 0)
        || on_segment(a, b, c)
        || on_segment(a, b, d)
        || on_segment(c, d, a)
        || on_segment(c, d, b)
}

fn segments_cross(a: Flat, b: Flat, c: Flat, d: Flat) -> bool {
    turn(a, b, c).signum() * turn(a, b, d).signum() < 0
        && turn(c, d, a).signum() * turn(c, d, b).signum() < 0
}

fn flat_error(poly: &[Flat]) -> Option<ValidationError> {
    let n = poly.len();
    if n != 1 && n < 3 {
        return Some(ValidationError::TooFewVertices);
    }
    for i in 0..n {
        for j in i + 1..n {
            if poly[i] == poly[j] {
                return Some(ValidationError::DuplicateVertex);
            }
        }
    }
    for i in 0..n {
        for j in i + 2..n {
            if i == 0 && j == n - 1 {
                continue;
            }
            if segments_meet(poly[i], poly[(i + 1) % n], poly[j], poly[(j + 1) % n]) {
                return Some(ValidationError::SelfIntersection);
            }
        }
    }
    None
}

fn twice_area(poly: &[Flat]) -> i64 {
    let n = poly.len();
    (0..n).map(|i| poly[i].0 * poly[(i + 1) % n].1 - poly[(i + 1) % n].0 * poly[i].1).sum()
}

fn on_outline(poly: &[Flat], p: Flat) -> bool {
    let n = poly.len();
    (0..n).any(|i| on_segment(poly[i], poly[(i + 1) % n], p))
}

/// Whether `p`, off the outline, lies in the bounded region of `poly`.
fn enclosed(poly: &[Flat], p: Flat) -> bool {
    let n = poly.len();
    let mut inside = false;
    for i in 0..n {
        let (a, b) = (poly[i], poly[(i + 1) % n]);
        if (a.1 > p.1) != (b.1 > p.1) {
            // The edge passes the height of p: on which side?
            let side = turn(a, b, p);
            if (b.1 > a.1) == (side > 0) {
                inside = !inside;
            }
        }
    }
    inside
}

/// What the loop of `poly` contains of `p`: the outline, and the region on
/// the left of the edges.
fn flat_contains(poly: &[Flat], p: Flat) -> bool {
    on_outline(poly, p) || (enclosed(poly, p) == (twice_area(poly) > 0))
}

fn random_polygon(rng: &mut Lcg) -> Vec<Flat> {
    let n = rng.range(3, 7) as usize;
    (0..n).map(|_| rng.flat(4)).collect()
}

#[test]
fn validation_agrees_with_plane_geometry() {
    let mut rng = Lcg(1);
    let mut seen = [0usize; 3];
    for _ in 0..4000 {
        let poly = random_polygon(&mut rng);
        let expected = flat_error(&poly);
        let built = Loop::build(poly.iter().map(|p| lift(*p)).collect());
        assert_eq!(built.as_ref().err().copied(), expected, "{:?}", poly);
        match expected {
            None => seen[0] += 1,
            Some(ValidationError::DuplicateVertex) => seen[1] += 1,
            _ => seen[2] += 1,
        }
    }
    assert!(seen.iter().all(|k| *k > 100), "{:?}", seen);
}

#[test]
fn crossing_sign_agrees_with_plane_geometry() {
    let mut rng = Lcg(2);
    let mut seen = [0usize; 3];
    for _ in 0..20000 {
        let (a, b, c, d) = (rng.flat(3), rng.flat(3), rng.flat(3), rng.flat(3));
        let expected = if segments_cross(a, b, c, d) {
            seen[0] += 1;
            Crossing::Cross
        } else if segments_meet(a, b, c, d) {
            seen[1] += 1;
            Crossing::MaybeCross
        } else {
            seen[2] += 1;
            Crossing::DoesNotCross
        };
        let crosser = EdgeCrosser::new(lift(a), lift(b));
        assert_eq!(crosser.crossing_sign(lift(c), lift(d)), expected, "{:?}", (a, b, c, d));
    }
    assert!(seen.iter().all(|k| *k > 1000), "{:?}", seen);
}

#[test]
fn containment_agrees_with_plane_geometry() {
    let mut rng = Lcg(3);
    let mut loops = 0;
    let mut inside = 0;
    let mut outside = 0;
    while loops < 600 {
        let poly = random_polygon(&mut rng);
        if flat_error(&poly).is_some() || twice_area(&poly) == 0 {
            continue;
        }
        loops += 1;
        let built = Loop::build(poly.iter().map(|p| lift(*p)).collect()).unwrap();
        for y in -5..=5 {
            for z in -5..=5 {
                let expected = flat_contains(&poly, (y, z));
                assert_eq!(built.contains_point(lift((y, z))), expected, "{:?} {:?}", poly, (y, z));
                if expected {
                    inside += 1;
                } else {
                    outside += 1;
                }
                // The far hemisphere is all on one side.
                let far = Point::new(-3, y, z).unwrap();
                assert_eq!(built.contains_point(far), twice_area(&poly) < 0, "{:?}", poly);
            }
        }
    }
    assert!(inside > 5000 && outside > 5000);
}

#[test]
fn crossings_counted_along_an_edge_tell_a_change_of_side() {
    // From a to b, both off the outline, the number of edges that count
    // as crossed is odd exactly when one is inside and the other outside,
    // also where the way from a to b runs through vertices or along edges.
    let mut rng = Lcg(4);
    let mut loops = 0;
    let mut through_vertex = 0;
    while loops < 300 {
        let poly = random_polygon(&mut rng);
        if flat_error(&poly).is_some() || twice_area(&poly) == 0 {
            continue;
        }
        loops += 1;
        let n = poly.len();
        for _ in 0..60 {
            let (a, b) = (rng.flat(5), rng.flat(5));
            if on_outline(&poly, a) || on_outline(&poly, b) {
                continue;
            }
            if poly.iter().any(|v| on_segment(a, b, *v)) {
                through_vertex += 1;
            }
            let mut walker = EdgeCrosser::new_chain(lift(a), lift(b), lift(poly[0]));
            let fresh = EdgeCrosser::new(lift(a), lift(b));
            let mut odd = false;
            for i in 0..n {
                let next = lift(poly[(i + 1) % n]);
                let counted = walker.edge_or_vertex_chain_crossing(next);
                assert_eq!(counted, fresh.edge_or_vertex_crossing(lift(poly[i]), next));
                odd ^= counted;
            }
            assert_eq!(odd, enclosed(&poly, a) != enclosed(&poly, b), "{:?} {:?}", poly, (a, b));
        }
    }
    assert!(through_vertex > 500);
}
