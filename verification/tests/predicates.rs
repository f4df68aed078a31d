use s2_core::point::{Point, COORD_LIMIT};
use s2_core::predicates::{exact_sign, sign, triage_sign, Direction};

fn pt(x: i64, y: i64, z: i64) -> Point {
    Point::new(x, y, z).unwrap()
}

#[test]
fn point_new_accepts_the_limit_and_rejects_beyond() {
    assert!(Point::new(COORD_LIMIT, -COORD_LIMIT, 0).is_some());
    assert!(Point::new(COORD_LIMIT + 1, 0, 0).is_none());
    assert!(Point::new(0, -COORD_LIMIT - 1, 0).is_none());
    assert!(Point::new(0, 0, i64::MIN).is_none());
    assert!(Point::new(0, 0, i64::MAX).is_none());
}

#[test]
fn point_new_rejects_the_zero_vector() {
    assert!(Point::new(0, 0, 0).is_none());
    assert!(Point::new(0, 0, 1).is_some());
}

#[test]
fn point_keeps_its_coordinates() {
    let p = pt(3, -4, 5);
    assert_eq!((p.x(), p.y(), p.z()), (3, -4, 5));
    let v = p.to_vector();
    assert_eq!((v.x, v.y, v.z), (3, -4, 5));
}

#[test]
fn dot_cross_and_det_have_their_values() {
    let a = pt(1, 2, 3);
    let b = pt(-4, 5, 6);
    let c = pt(7, -8, 9);
    assert_eq!(a.dot(&b), 24);
    let n = a.cross(&b);
    assert_eq!((n.x, n.y, n.z), (-3, -18, 13));
    // 1 * (5*9 + 6*8) - 2 * (-4*9 - 6*7) + 3 * (4*8 - 5*7)
    assert_eq!(a.det(&b, &c), 240);
}

#[test]
fn products_at_the_coordinate_limit_do_not_overflow() {
    let l = COORD_LIMIT;
    let a = pt(l, l, l);
    let b = pt(l, -l, l);
    let c = pt(-l, l, l);
    assert_eq!(a.dot(&a), 3 * (l as i128) * (l as i128));
    assert_eq!(a.det(&b, &c), -4 * (l as i128) * (l as i128) * (l as i128));
    assert_eq!(sign(&a, &b, &c), Direction::Clockwise);
}

#[test]
fn same_point_is_same_direction() {
    assert!(pt(1, 2, 3).same_point(&pt(2, 4, 6)));
    assert!(!pt(1, 2, 3).same_point(&pt(-1, -2, -3)));
    assert!(!pt(1, 2, 3).same_point(&pt(1, 2, 4)));
    assert!(pt(1, 2, 3).antipodal(&pt(-3, -6, -9)));
    assert!(!pt(1, 2, 3).antipodal(&pt(3, 6, 9)));
    assert!(!pt(1, 0, 0).antipodal(&pt(0, 1, 0)));
}

#[test]
fn sign_of_the_coordinate_axes_is_counter_clockwise() {
    let x = pt(1, 0, 0);
    let y = pt(0, 1, 0);
    let z = pt(0, 0, 1);
    assert_eq!(sign(&x, &y, &z), Direction::CounterClockwise);
    assert_eq!(sign(&y, &x, &z), Direction::Clockwise);
}

#[test]
fn sign_is_antisymmetric() {
    let a = pt(12, -7, 30);
    let b = pt(-5, 22, 9);
    let c = pt(8, 8, -13);
    assert_eq!(sign(&a, &b, &c), sign(&b, &a, &c).negate());
    assert_ne!(sign(&a, &b, &c), Direction::Indeterminate);
}

#[test]
fn sign_is_rotation_invariant() {
    let a = pt(12, -7, 30);
    let b = pt(-5, 22, 9);
    let c = pt(8, 8, -13);
    let s = sign(&a, &b, &c);
    assert_eq!(sign(&b, &c, &a), s);
    assert_eq!(sign(&c, &a, &b), s);
}

#[test]
fn sign_of_points_on_one_great_circle_is_indeterminate() {
    let a = pt(1, 0, 0);
    let b = pt(1, 1, 0);
    let c = pt(-3, 2, 0);
    assert_eq!(sign(&a, &b, &c), Direction::Indeterminate);
    assert_eq!(sign(&a, &a, &b), Direction::Indeterminate);
}

#[test]
fn negate_swaps_the_two_sides() {
    assert_eq!(Direction::Clockwise.negate(), Direction::CounterClockwise);
    assert_eq!(Direction::CounterClockwise.negate(), Direction::Clockwise);
    assert_eq!(Direction::Indeterminate.negate(), Direction::Indeterminate);
}

#[test]
fn triage_decides_large_determinants() {
    let l = COORD_LIMIT;
    let x = pt(l, 0, 0);
    let y = pt(0, l, 0);
    let z = pt(0, 0, l);
    assert_eq!(triage_sign(&x, &y, &z), Direction::CounterClockwise);
    assert_eq!(triage_sign(&y, &x, &z), Direction::Clockwise);
}

#[test]
fn triage_leaves_small_determinants_to_the_exact_tier() {
    let x = pt(1, 0, 0);
    let y = pt(0, 1, 0);
    let z = pt(0, 0, 1);
    assert_eq!(triage_sign(&x, &y, &z), Direction::Indeterminate);
    assert_eq!(exact_sign(&x, &y, &z), Direction::CounterClockwise);
    assert_eq!(sign(&x, &y, &z), Direction::CounterClockwise);
}

#[test]
fn triage_bound_is_exclusive() {
    // Shortened, the three are (18, 0, 0), (0, 2^20, 0), (0, 0, 2^20):
    // their determinant is 18 * 2^40, the bound itself.
    let a = pt(18 * 1024, 0, 0);
    let b = pt(0, 1 << 30, 0);
    let c = pt(0, 0, 1 << 30);
    assert_eq!(triage_sign(&a, &b, &c), Direction::Indeterminate);
    let a = pt(19 * 1024, 0, 0);
    assert_eq!(triage_sign(&a, &b, &c), Direction::CounterClockwise);
    // Shortening rounds towards zero for negative coordinates too.
    let a = pt(-19 * 1024 + 1, 0, 0);
    assert_eq!(triage_sign(&a, &b, &c), Direction::Indeterminate);
    assert_eq!(sign(&a, &b, &c), Direction::Clockwise);
}

#[test]
fn nearly_flat_triples_are_decided_exactly() {
    let l = COORD_LIMIT;
    let a = pt(l, 0, 0);
    let b = pt(0, l, 0);
    let c = pt(l, l, 1);
    assert_eq!(triage_sign(&a, &b, &c), Direction::Indeterminate);
    assert_eq!(sign(&a, &b, &c), Direction::CounterClockwise);
    let c = pt(l, l, -1);
    assert_eq!(sign(&a, &b, &c), Direction::Clockwise);
    let c = pt(l, l, 0);
    assert_eq!(sign(&a, &b, &c), Direction::Indeterminate);
}
