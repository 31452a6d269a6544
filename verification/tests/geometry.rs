use awdb::double::{lower, precedes, upper, SIGN_BIT};
use awdb::geometry::{bounding_box, envelope, extend, Extent, Point, COORDINATE_REFERENCE_SYSTEM};

fn point(x: f64, y: f64) -> Point {
    Point { x: x.to_bits(), y: y.to_bits() }
}

fn bounds(xmin: f64, ymin: f64, xmax: f64, ymax: f64) -> Extent {
    Extent::Bounds { xmin: xmin.to_bits(), ymin: ymin.to_bits(), xmax: xmax.to_bits(), ymax: ymax.to_bits() }
}

#[test]
fn envelope_of_three_points() {
    let points = vec![point(-120.5, 45.0), point(-119.0, 46.2), point(-121.3, 44.8)];
    assert_eq!(envelope(&points), bounds(-121.3, 44.8, -119.0, 46.2));
    let bbox = bounding_box(&points);
    assert_eq!(bbox.crs, COORDINATE_REFERENCE_SYSTEM);
    assert_eq!(bbox.extent, bounds(-121.3, 44.8, -119.0, 46.2));
}

#[test]
fn envelope_does_not_depend_on_the_order() {
    let a = point(-120.5, 45.0);
    let b = point(-119.0, 46.2);
    let c = point(-121.3, 44.8);
    let expected = bounds(-121.3, 44.8, -119.0, 46.2);
    for points in [
        vec![a, b, c],
        vec![a, c, b],
        vec![b, a, c],
        vec![b, c, a],
        vec![c, a, b],
        vec![c, b, a],
        vec![c, b, a, a, c],
    ] {
        assert_eq!(envelope(&points), expected);
    }
}

#[test]
fn envelope_of_no_points_is_empty() {
    assert_eq!(envelope(&vec![]), Extent::Empty);
    assert_eq!(bounding_box(&vec![]).extent, Extent::Empty);
    assert_eq!(bounding_box(&vec![]).crs, 4326);
}

#[test]
fn envelope_of_one_point_is_that_point() {
    assert_eq!(envelope(&vec![point(7.5, -3.25)]), bounds(7.5, -3.25, 7.5, -3.25));
    assert_eq!(extend(Extent::Empty, point(1.0, 2.0)), bounds(1.0, 2.0, 1.0, 2.0));
    assert_eq!(extend(bounds(1.0, 2.0, 1.0, 2.0), point(0.5, 9.0)), bounds(0.5, 2.0, 1.0, 9.0));
}

#[test]
fn envelope_spans_both_signs() {
    let points = vec![point(-0.5, 0.25), point(3.0, -7.0), point(1e-300, 1e300), point(-1e300, -1e-300)];
    assert_eq!(envelope(&points), bounds(-1e300, -7.0, 3.0, 1e300));
}

#[test]
fn order_of_bit_patterns_is_the_order_of_the_numbers() {
    let samples = [
        f64::NEG_INFINITY,
        -1e300,
        -121.3,
        -120.5,
        -119.0,
        -1.0,
        -1e-300,
        -5e-324,
        0.0,
        5e-324,
        1e-300,
        0.5,
        1.0,
        44.8,
        45.0,
        46.2,
        1e300,
        f64::INFINITY,
    ];
    for a in samples {
        for b in samples {
            assert_eq!(precedes(a.to_bits(), b.to_bits()), a < b, "{} {}", a, b);
            assert_eq!(f64::from_bits(lower(a.to_bits(), b.to_bits())), a.min(b));
            assert_eq!(f64::from_bits(upper(a.to_bits(), b.to_bits())), a.max(b));
        }
    }
}

#[test]
fn negative_zero_comes_directly_before_zero() {
    let negative_zero = (-0.0f64).to_bits();
    assert_eq!(negative_zero, SIGN_BIT);
    assert!(precedes(negative_zero, 0.0f64.to_bits()));
    assert!(!precedes(0.0f64.to_bits(), negative_zero));
    assert!(precedes((-5e-324f64).to_bits(), negative_zero));
    assert_eq!(lower(0, negative_zero), negative_zero);
    assert_eq!(upper(0, negative_zero), 0);
    assert_eq!(lower(negative_zero, negative_zero), negative_zero);
}
