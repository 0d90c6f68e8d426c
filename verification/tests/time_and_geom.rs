use rustarok_core::geom::{
    advance2, clamp, dist2, dist_sq2, div_trunc, isqrt, lerp3, QuadraticBezier3Fx, Vec2Fx, Vec3Fx,
};
use rustarok_core::time::ElapsedTime;

#[test]
fn deadline_exactly_now_counts_as_passed() {
    let until = ElapsedTime::new(1000);
    assert!(until.has_already_passed(ElapsedTime::new(1000)));
    assert!(until.has_already_passed(ElapsedTime::new(1001)));
    assert!(!until.has_already_passed(ElapsedTime::new(999)));
    assert!(until.has_not_passed(ElapsedTime::new(999)));
}

#[test]
fn percentage_between_spans_the_window() {
    let from = ElapsedTime::new(1000);
    let to = ElapsedTime::new(2000);
    assert_eq!(ElapsedTime::new(1000).percentage_between(from, to), 0);
    assert_eq!(ElapsedTime::new(1500).percentage_between(from, to), 500);
    assert_eq!(ElapsedTime::new(2000).percentage_between(from, to), 1000);
    assert_eq!(ElapsedTime::new(3000).percentage_between(from, to), 2000);
}

#[test]
fn add_millis_advances_the_clock() {
    let t = ElapsedTime::new(700);
    assert_eq!(t.add_millis(2000).0, 2700);
    assert_eq!(t.millis_since(&ElapsedTime::new(200)), 500);
}

#[test]
fn isqrt_is_the_rounded_down_root() {
    assert_eq!(isqrt(0), 0);
    assert_eq!(isqrt(1), 1);
    assert_eq!(isqrt(3), 1);
    assert_eq!(isqrt(4), 2);
    assert_eq!(isqrt(99), 9);
    assert_eq!(isqrt(100), 10);
    assert_eq!(isqrt(10_000_000_000), 100_000);
    assert_eq!(isqrt(u64::MAX), 4_294_967_295);
}

#[test]
fn planar_distance_is_exact() {
    let a = Vec2Fx::new(0, 0);
    let b = Vec2Fx::new(3000, 4000);
    assert_eq!(dist_sq2(&a, &b), 25_000_000);
    assert_eq!(dist2(&a, &b), 5000);
}

#[test]
fn advance_travels_at_most_the_remaining_distance() {
    let pos = Vec2Fx::new(0, 0);
    let target = Vec2Fx::new(10_000, 0);
    let moved = advance2(&pos, &target, 500);
    assert_eq!(moved.x, 500);
    assert_eq!(moved.y, 0);
    // a step beyond the goal stops exactly at the goal
    let arrived = advance2(&moved, &target, 1_000_000);
    assert_eq!(arrived.x, 10_000);
    assert_eq!(arrived.y, 0);
    // no movement from a zero-length direction
    let still = advance2(&target, &target, 500);
    assert_eq!(still.x, 10_000);
}

#[test]
fn lerp_moves_proportionally() {
    let s = Vec3Fx::new(0, 5000, 0);
    let e = Vec3Fx::new(10_000, 500, 0);
    let mid = lerp3(&s, &e, 500);
    assert_eq!(mid.x, 5000);
    assert_eq!(mid.y, 2750);
    assert_eq!(mid.z, 0);
    let done = lerp3(&s, &e, 1000);
    assert_eq!(done.x, 10_000);
    assert_eq!(done.y, 500);
}

#[test]
fn bezier_hits_its_endpoints_and_rises_in_between() {
    let b = QuadraticBezier3Fx {
        start: Vec3Fx::new(0, 2000, 0),
        ctrl: Vec3Fx::new(5000, 20_000, 0),
        end: Vec3Fx::new(10_000, 2000, 0),
    };
    let p0 = b.evaluate(0);
    assert_eq!((p0.x, p0.y, p0.z), (0, 2000, 0));
    let p1 = b.evaluate(1000);
    assert_eq!((p1.x, p1.y, p1.z), (10_000, 2000, 0));
    let mid = b.evaluate(500);
    // (0.25 * 2000) + (0.5 * 20000) + (0.25 * 2000) = 11000
    assert_eq!(mid.y, 11_000);
    assert_eq!(mid.x, 5000);
}

#[test]
fn division_truncates_toward_zero() {
    assert_eq!(div_trunc(7, 2), 3);
    assert_eq!(div_trunc(-7, 2), -3);
    assert_eq!(div_trunc(0, 5), 0);
}

#[test]
fn clamp_keeps_a_value_inside_its_interval() {
    assert_eq!(clamp(5, 0, 10), 5);
    assert_eq!(clamp(-5, 0, 10), 0);
    assert_eq!(clamp(15, 0, 10), 10);
}
