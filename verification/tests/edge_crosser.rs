use s2_core::crossing::Crossing;
use s2_core::edge_crosser::EdgeCrosser;
use s2_core::point::Point;

fn pt(x: i64, y: i64, z: i64) -> Point {
    Point::new(x, y, z).unwrap()
}

/// The point at the given latitude and longitude, in degrees.
fn at(lat: f64, lng: f64) -> Point {
    let (lat, lng) = (lat.to_radians(), lng.to_radians());
    let scale = 1.0e9;
    pt(
        (lat.cos() * lng.cos() * scale).round() as i64,
        (lat.cos() * lng.sin() * scale).round() as i64,
        (lat.sin() * scale).round() as i64,
    )
}

#[test]
fn equator_and_meridian_cross() {
    let crosser = EdgeCrosser::new(at(0.0, -10.0), at(0.0, 10.0));
    assert_eq!(crosser.crossing_sign(at(-10.0, 0.0), at(10.0, 0.0)), Crossing::Cross);
    assert_eq!(crosser.crossing_sign(at(10.0, 0.0), at(-10.0, 0.0)), Crossing::Cross);
    assert_eq!(crosser.crossing_sign(at(-10.0, 3.0), at(10.0, -7.0)), Crossing::Cross);
}

#[test]
fn segments_on_opposite_sides_of_the_sphere_do_not_cross() {
    let crosser = EdgeCrosser::new(at(0.0, -10.0), at(0.0, 10.0));
    // The great circles of the two meet under the second segment, at the
    // antipode of where they would have to meet on the first.
    assert_eq!(crosser.crossing_sign(at(-10.0, 180.0), at(10.0, 180.0)), Crossing::DoesNotCross);
    assert_eq!(crosser.crossing_sign(at(-10.0, 170.0), at(10.0, -175.0)), Crossing::DoesNotCross);
    // A long edge round the far side: each great circle has the ends of the
    // other edge on different sides, and no plane through an end of the
    // fixed edge separates the two, yet they are half a sphere apart.
    assert_eq!(crosser.crossing_sign(at(-5.0, 95.0), at(5.0, -95.0)), Crossing::DoesNotCross);
    assert_eq!(crosser.crossing_sign(at(5.0, -95.0), at(-5.0, 95.0)), Crossing::DoesNotCross);
    // The same edge turned to the near side crosses.
    assert_eq!(crosser.crossing_sign(at(-5.0, -85.0), at(5.0, 85.0)), Crossing::Cross);
}

#[test]
fn segments_apart_do_not_cross() {
    let crosser = EdgeCrosser::new(at(0.0, -10.0), at(0.0, 10.0));
    assert_eq!(crosser.crossing_sign(at(20.0, 0.0), at(30.0, 0.0)), Crossing::DoesNotCross);
    assert_eq!(crosser.crossing_sign(at(-10.0, 20.0), at(10.0, 20.0)), Crossing::DoesNotCross);
    assert_eq!(crosser.crossing_sign(at(5.0, -5.0), at(5.0, 5.0)), Crossing::DoesNotCross);
    assert_eq!(crosser.crossing_sign(at(-10.0, 90.0), at(10.0, 95.0)), Crossing::DoesNotCross);
}

#[test]
fn exact_small_crossing() {
    let crosser = EdgeCrosser::new(pt(1, -1, 0), pt(1, 1, 0));
    assert_eq!(crosser.crossing_sign(pt(1, 0, -1), pt(1, 0, 1)), Crossing::Cross);
    assert_eq!(crosser.crossing_sign(pt(1, 0, 1), pt(1, 0, 2)), Crossing::DoesNotCross);
    assert_eq!(crosser.crossing_sign(pt(-1, 0, -1), pt(-1, 0, 1)), Crossing::DoesNotCross);
}

#[test]
fn shared_vertex_is_maybe_cross() {
    let a = pt(1, -1, 0);
    let b = pt(1, 1, 0);
    let crosser = EdgeCrosser::new(a, b);
    assert_eq!(crosser.crossing_sign(a, pt(1, 0, 1)), Crossing::MaybeCross);
    assert_eq!(crosser.crossing_sign(pt(1, 0, 1), b), Crossing::MaybeCross);
    assert_eq!(crosser.crossing_sign(pt(2, 2, 0), pt(0, 0, 1)), Crossing::MaybeCross);
    assert_eq!(crosser.crossing_sign(a, b), Crossing::MaybeCross);
    assert_eq!(crosser.crossing_sign(b, a), Crossing::MaybeCross);
}

#[test]
fn vertex_on_the_other_edge_is_maybe_cross() {
    let crosser = EdgeCrosser::new(pt(1, -1, 0), pt(1, 1, 0));
    // (1, 0, 0) lies in the middle of the fixed edge.
    assert_eq!(crosser.crossing_sign(pt(1, 0, 0), pt(1, 0, 1)), Crossing::MaybeCross);
    assert_eq!(crosser.crossing_sign(pt(1, 0, -1), pt(3, 0, 0)), Crossing::MaybeCross);
    // An end of the fixed edge lies in the middle of the other.
    assert_eq!(crosser.crossing_sign(pt(1, 1, -1), pt(1, 1, 1)), Crossing::MaybeCross);
    // A vertex on the great circle of the fixed edge but off the edge.
    assert_eq!(crosser.crossing_sign(pt(0, 1, 0), pt(0, 1, 1)), Crossing::DoesNotCross);
    assert_eq!(crosser.crossing_sign(pt(-1, 0, 0), pt(-1, 0, 1)), Crossing::DoesNotCross);
}

#[test]
fn edges_on_one_great_circle() {
    let crosser = EdgeCrosser::new(pt(1, -1, 0), pt(1, 1, 0));
    // Overlapping.
    assert_eq!(crosser.crossing_sign(pt(1, 0, 0), pt(0, 1, 0)), Crossing::MaybeCross);
    // One inside the other, either way round.
    assert_eq!(crosser.crossing_sign(pt(3, -1, 0), pt(3, 1, 0)), Crossing::MaybeCross);
    assert_eq!(crosser.crossing_sign(pt(1, -3, 0), pt(1, 3, 0)), Crossing::MaybeCross);
    // Apart.
    assert_eq!(crosser.crossing_sign(pt(0, 1, 0), pt(-1, 1, 0)), Crossing::DoesNotCross);
    assert_eq!(crosser.crossing_sign(pt(-1, 2, 0), pt(-1, -2, 0)), Crossing::DoesNotCross);
    // The mirror image through the centre.
    assert_eq!(crosser.crossing_sign(pt(-1, 1, 0), pt(-1, -1, 0)), Crossing::DoesNotCross);
}

#[test]
fn degenerate_edges() {
    let crosser = EdgeCrosser::new(pt(1, -1, 0), pt(1, 1, 0));
    assert_eq!(crosser.crossing_sign(pt(1, 0, 1), pt(2, 0, 2)), Crossing::DoesNotCross);
    assert_eq!(crosser.crossing_sign(pt(1, 0, 0), pt(2, 0, 0)), Crossing::MaybeCross);
    let point = EdgeCrosser::new(pt(1, 0, 0), pt(5, 0, 0));
    assert_eq!(point.crossing_sign(pt(1, -1, 0), pt(1, 1, 0)), Crossing::MaybeCross);
    assert_eq!(point.crossing_sign(pt(1, 0, -1), pt(1, 0, 1)), Crossing::MaybeCross);
    assert_eq!(point.crossing_sign(pt(1, 1, -1), pt(1, 1, 1)), Crossing::DoesNotCross);
    assert_eq!(point.crossing_sign(pt(-1, 0, -1), pt(-1, 0, 1)), Crossing::DoesNotCross);
}

#[test]
fn crossing_sign_is_symmetric_in_the_second_edge() {
    let crosser = EdgeCrosser::new(pt(10, -7, 1), pt(9, 8, -2));
    let candidates = [
        (pt(10, 0, -5), pt(10, 1, 6)),
        (pt(10, -7, 1), pt(3, 3, 3)),
        (pt(1, 1, 9), pt(2, 1, 9)),
        (pt(19, 1, -1), pt(0, 0, 1)),
        (pt(-10, 0, -5), pt(-10, 1, 6)),
        (pt(20, -14, 2), pt(18, 16, -4)),
    ];
    for (c, d) in candidates {
        assert_eq!(crosser.crossing_sign(c, d), crosser.crossing_sign(d, c));
    }
}

#[test]
fn chain_matches_fresh_tests() {
    let a = at(0.0, -10.0);
    let b = at(0.0, 10.0);
    let chain = [
        at(-10.0, -20.0),
        at(10.0, -15.0),
        at(-5.0, -5.0),
        at(5.0, -4.0),
        at(0.0, 0.0),
        at(-5.0, 3.0),
        at(7.0, 5.0),
        at(0.0, 10.0),
        at(3.0, 15.0),
        at(-3.0, 170.0),
        at(3.0, -170.0),
        at(0.0, -10.0),
        at(0.0, -30.0),
        at(0.0, -5.0),
    ];
    let fresh = EdgeCrosser::new(a, b);
    let mut walker = EdgeCrosser::new_chain(a, b, chain[0]);
    let mut seen_cross = false;
    let mut seen_maybe = false;
    let mut seen_none = false;
    for i in 0..chain.len() - 1 {
        let expected = fresh.crossing_sign(chain[i], chain[i + 1]);
        assert_eq!(walker.chain_crossing_sign(chain[i + 1]), expected);
        assert_eq!(walker.c(), chain[i + 1]);
        seen_cross |= expected == Crossing::Cross;
        seen_maybe |= expected == Crossing::MaybeCross;
        seen_none |= expected == Crossing::DoesNotCross;
    }
    assert!(seen_cross && seen_maybe && seen_none);
}

#[test]
fn new_crosser_starts_its_chain_at_a() {
    let a = pt(1, -1, 0);
    let b = pt(1, 1, 0);
    let mut crosser = EdgeCrosser::new(a, b);
    assert_eq!(crosser.a(), a);
    assert_eq!(crosser.b(), b);
    assert_eq!(crosser.c(), a);
    assert_eq!(crosser.chain_crossing_sign(pt(0, 0, 1)), Crossing::MaybeCross);
    crosser.restart_at(pt(1, 0, -1));
    assert_eq!(crosser.c(), pt(1, 0, -1));
    assert_eq!(crosser.chain_crossing_sign(pt(1, 0, 1)), Crossing::Cross);
}

#[test]
fn edge_contains_its_points_and_no_others() {
    let crosser = EdgeCrosser::new(pt(1, -1, 0), pt(1, 1, 0));
    assert!(crosser.edge_contains(&pt(1, -1, 0)));
    assert!(crosser.edge_contains(&pt(5, 5, 0)));
    assert!(crosser.edge_contains(&pt(7, 0, 0)));
    assert!(crosser.edge_contains(&pt(3, -2, 0)));
    assert!(!crosser.edge_contains(&pt(1, 2, 0)));
    assert!(!crosser.edge_contains(&pt(-1, 0, 0)));
    assert!(!crosser.edge_contains(&pt(-1, 1, 0)));
    assert!(!crosser.edge_contains(&pt(1, 0, 1)));
}

#[test]
fn counting_rule_counts_a_chain_through_a_vertex_once() {
    let fixed = EdgeCrosser::new(pt(1, -1, 0), pt(1, 1, 0));
    let below = pt(1, 0, -1);
    let on = pt(1, 0, 0);
    let above = pt(1, 0, 1);
    // Passing through the fixed edge at a vertex of the chain.
    let first = fixed.edge_or_vertex_crossing(below, on);
    let second = fixed.edge_or_vertex_crossing(on, above);
    assert!(first != second);
    // Touching it there and turning back.
    let back = fixed.edge_or_vertex_crossing(on, pt(2, 1, -2));
    assert_eq!(first, back);
    let first = fixed.edge_or_vertex_crossing(above, on);
    let back = fixed.edge_or_vertex_crossing(on, pt(2, 1, 2));
    assert_eq!(first, back);
}

#[test]
fn counting_rule_follows_decided_states() {
    let fixed = EdgeCrosser::new(pt(1, -1, 0), pt(1, 1, 0));
    assert!(fixed.edge_or_vertex_crossing(pt(1, 0, -1), pt(1, 0, 1)));
    assert!(!fixed.edge_or_vertex_crossing(pt(1, 0, 1), pt(1, 0, 2)));
    let mut walker = EdgeCrosser::new_chain(pt(1, -1, 0), pt(1, 1, 0), pt(1, 0, -1));
    assert!(walker.edge_or_vertex_chain_crossing(pt(1, 0, 1)));
    assert!(!walker.edge_or_vertex_chain_crossing(pt(1, 0, 2)));
    assert_eq!(walker.c(), pt(1, 0, 2));
}

#[test]
fn chain_crossing_signs_lists_every_edge() {
    let crosser = EdgeCrosser::new(pt(1, -1, 0), pt(1, 1, 0));
    let chain = vec![pt(1, 0, -1), pt(1, 0, 1), pt(1, 0, 2), pt(1, 1, 0), pt(0, 1, 0), pt(-1, 1, 0)];
    let signs = crosser.chain_crossing_signs(&chain);
    assert_eq!(
        signs,
        vec![
            Crossing::Cross,
            Crossing::DoesNotCross,
            Crossing::MaybeCross,
            Crossing::MaybeCross,
            Crossing::DoesNotCross,
        ]
    );
    for i in 0..signs.len() {
        assert_eq!(signs[i], crosser.crossing_sign(chain[i], chain[i + 1]));
    }
    assert_eq!(crosser.c(), pt(1, -1, 0));
    assert!(crosser.chain_crossing_signs(&vec![]).is_empty());
    assert!(crosser.chain_crossing_signs(&vec![pt(1, 0, 0)]).is_empty());
}

#[test]
fn crosser_holds_the_normal_and_the_tangents() {
    let crosser = EdgeCrosser::new(pt(1, 0, 0), pt(1, 1, 0));
    let n = crosser.a_cross_b();
    assert_eq!((n.x, n.y, n.z), (0, 0, 1));
    // At (1, 0, 0) the edge leaves towards +y, so outward is -y.
    let t = crosser.a_tangent();
    assert_eq!((t.x, t.y, t.z), (0, -1, 0));
    // At (1, 1, 0) it arrives heading (-1, 1, 0), which is outward there.
    let t = crosser.b_tangent();
    assert_eq!((t.x, t.y, t.z), (-1, 1, 0));
}

#[test]
fn tangents_at_the_coordinate_limit_do_not_overflow() {
    let l = s2_core::point::COORD_LIMIT;
    let a = pt(l, l, l);
    let b = pt(-l, l, l);
    let crosser = EdgeCrosser::new(a, b);
    let square = (l as i128) * (l as i128);
    let cube = square * (l as i128);
    let n = crosser.a_cross_b();
    assert_eq!((n.x, n.y, n.z), (0, -2 * square, 2 * square));
    let t = crosser.a_tangent();
    assert_eq!((t.x, t.y, t.z), (4 * cube, -2 * cube, -2 * cube));
    let t = crosser.b_tangent();
    assert_eq!((t.x, t.y, t.z), (-4 * cube, -2 * cube, -2 * cube));
    assert_eq!(crosser.crossing_sign(pt(0, l, -l), pt(0, 0, l)), Crossing::Cross);
    assert_eq!(crosser.crossing_sign(pt(0, l, -l), pt(0, l, l - 1)), Crossing::DoesNotCross);
    assert_eq!(crosser.crossing_sign(pt(0, l, -l), pt(0, l, l)), Crossing::MaybeCross);
    assert_eq!(crosser.crossing_sign(pt(l, l, l - 1), pt(l, l - 1, l)), Crossing::DoesNotCross);
    assert_eq!(crosser.crossing_sign(pt(-l, -l, -l), pt(l, -l, -l)), Crossing::DoesNotCross);
}
