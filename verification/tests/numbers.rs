use rift_drag::geometry::{resize_sides, Edges, Point, Rect, Size};
use rift_drag::scalar::Scalar;

fn s(value: f64) -> Scalar {
    Scalar::from_bits(value.to_bits())
}

fn samples() -> Vec<f64> {
    vec![
        0.0,
        -0.0,
        1.0,
        -1.0,
        0.25,
        -8.5,
        f64::MIN_POSITIVE,
        -f64::MIN_POSITIVE,
        f64::MAX,
        f64::MIN,
        f64::INFINITY,
        f64::NEG_INFINITY,
        f64::NAN,
        -f64::NAN,
    ]
}

#[test]
fn comparisons_agree_with_the_hardware() {
    for a in samples() {
        for b in samples() {
            assert_eq!(s(a).less_than(s(b)), a < b, "{a} < {b}");
            assert_eq!(s(a).at_most(s(b)), a <= b, "{a} <= {b}");
            assert_eq!(s(a).equals(s(b)), a == b, "{a} == {b}");
            assert_eq!(s(a).sorts_before(s(b)), a.total_cmp(&b).is_lt(), "{a} before {b}");
        }
        assert_eq!(s(a).is_nan(), a.is_nan());
    }
    assert_eq!(Scalar::zero(), s(0.0));
    assert_eq!(Scalar::one(), s(1.0));
}

#[test]
fn raising_takes_the_greater_number() {
    assert_eq!(s(-3.0).raised_to(Scalar::zero()), s(0.0));
    assert_eq!(s(3.0).raised_to(Scalar::zero()), s(3.0));
    assert_eq!(s(f64::NAN).raised_to(Scalar::one()), s(1.0));
}

#[test]
fn clamping_moves_to_the_nearest_side() {
    let edges = Edges { min_x: s(0.0), max_x: s(10.0), min_y: s(-5.0), max_y: s(5.0) };
    let outside = Point { x: s(12.0), y: s(-7.0) };
    assert!(!edges.contains(outside));
    assert_eq!(edges.clamp_point(outside), Point { x: s(10.0), y: s(-5.0) });
    let inside = Point { x: s(10.0), y: s(0.5) };
    assert!(edges.contains(inside));
    assert_eq!(edges.clamp_point(inside), inside);
}

#[test]
fn frames_compare_as_numbers() {
    let frame = |x: f64, width: f64| Rect {
        origin: Point { x: s(x), y: s(0.0) },
        size: Size { width: s(width), height: s(1.0) },
    };
    assert!(frame(0.0, 1.0).equals(frame(-0.0, 1.0)));
    assert!(!frame(0.0, 1.0).equals(frame(0.0, 2.0)));
    assert!(!frame(f64::NAN, 1.0).equals(frame(f64::NAN, 1.0)));
    assert!(frame(0.0, 1.0).is_positive());
    assert!(!frame(0.0, 0.0).is_positive());
    assert!(Point { x: s(-0.0), y: s(0.0) }.is_zero());
    assert!(!Point { x: s(-0.5), y: s(0.0) }.is_zero());
}

#[test]
fn presses_pull_the_sides_they_are_nearest_to() {
    let center = Point { x: s(100.0), y: s(50.0) };
    let sides = resize_sides(Point { x: s(99.0), y: s(50.0) }, center);
    assert!(sides.left);
    assert!(!sides.top);
}
