use aruco_theremin::marker::Point;
use aruco_theremin::overlay::{
    center_cross, marker_outline, place_on_grid, right_aligned, to_pixel, Pixel, Segment,
};

#[test]
fn fraction_of_a_pixel_is_dropped() {
    assert_eq!(to_pixel(0), 0);
    assert_eq!(to_pixel(999), 0);
    assert_eq!(to_pixel(1000), 1);
    assert_eq!(to_pixel(320_500), 320);
    assert_eq!(to_pixel(-999), 0);
    assert_eq!(to_pixel(-1000), -1);
    assert_eq!(to_pixel(-1500), -1);
    assert_eq!(to_pixel(i32::MAX), 2_147_483);
    assert_eq!(to_pixel(i32::MIN), -2_147_483);
}

#[test]
fn point_on_the_grid() {
    assert_eq!(place_on_grid(Point::new(12_345, -6_789)), Pixel { x: 12, y: -6 });
}

#[test]
fn cross_has_arms_of_eight_pixels() {
    let (across, down) = center_cross(Point::new(320_400, 240_900));
    assert_eq!(
        across,
        Segment { start: Pixel { x: 312, y: 240 }, end: Pixel { x: 328, y: 240 } }
    );
    assert_eq!(
        down,
        Segment { start: Pixel { x: 320, y: 232 }, end: Pixel { x: 320, y: 248 } }
    );
}

#[test]
fn cross_at_the_limits() {
    let (across, down) = center_cross(Point::new(i32::MAX, i32::MIN));
    assert_eq!(across.start, Pixel { x: 2_147_475, y: -2_147_483 });
    assert_eq!(across.end, Pixel { x: 2_147_491, y: -2_147_483 });
    assert_eq!(down.start, Pixel { x: 2_147_483, y: -2_147_491 });
    assert_eq!(down.end, Pixel { x: 2_147_483, y: -2_147_475 });
}

#[test]
fn outline_joins_the_corners_in_order() {
    let corners = vec![
        Point::new(10_000, 20_000),
        Point::new(110_900, 20_100),
        Point::new(110_000, 120_000),
        Point::new(10_500, 120_999),
    ];
    let a = Pixel { x: 10, y: 20 };
    let b = Pixel { x: 110, y: 20 };
    let c = Pixel { x: 110, y: 120 };
    let d = Pixel { x: 10, y: 120 };
    assert_eq!(
        marker_outline(&corners),
        vec![
            Segment { start: a, end: b },
            Segment { start: b, end: c },
            Segment { start: c, end: d },
            Segment { start: d, end: a },
        ]
    );
}

#[test]
fn no_outline_without_four_corners() {
    assert!(marker_outline(&Vec::new()).is_empty());
    assert!(marker_outline(&vec![Point::new(1, 1); 3]).is_empty());
    assert!(marker_outline(&vec![Point::new(1, 1); 5]).is_empty());
}

#[test]
fn label_ends_a_margin_before_the_border() {
    assert_eq!(right_aligned(640, 200), 430);
    assert_eq!(right_aligned(640, 630), 0);
    assert_eq!(right_aligned(100, 200), -110);
    assert_eq!(right_aligned(i32::MIN, i32::MAX), i32::MIN);
    assert_eq!(right_aligned(i32::MAX, i32::MIN), i32::MAX);
    assert_eq!(right_aligned(i32::MAX, 0), i32::MAX - 10);
}
