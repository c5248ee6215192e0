use aruco_theremin::marker::{edge_length, perimeter, DetectedMarker, Point};

fn square(side: i32) -> Vec<Point> {
    vec![Point::new(0, 0), Point::new(side, 0), Point::new(side, side), Point::new(0, side)]
}

#[test]
fn point_keeps_its_coordinates() {
    let p = Point::new(-3, 7);
    assert_eq!(p.x, -3);
    assert_eq!(p.y, 7);
    assert_eq!(p, Point { x: -3, y: 7 });
}

#[test]
fn edge_of_a_three_four_five_triangle() {
    assert_eq!(edge_length(Point::new(0, 0), Point::new(3000, 4000)), 5000);
    assert_eq!(edge_length(Point::new(3000, 4000), Point::new(0, 0)), 5000);
}

#[test]
fn edge_is_rounded_down() {
    assert_eq!(edge_length(Point::new(0, 0), Point::new(1, 1)), 1);
    assert_eq!(edge_length(Point::new(0, 0), Point::new(1000, 1000)), 1414);
    assert_eq!(edge_length(Point::new(5, 5), Point::new(5, 5)), 0);
}

#[test]
fn longest_edge_that_there_is() {
    let a = Point::new(i32::MIN, i32::MIN);
    let b = Point::new(i32::MAX, i32::MAX);
    assert_eq!(edge_length(a, b), 6_074_000_998);
}

#[test]
fn marker_keeps_identifier_and_corners() {
    let marker = DetectedMarker::new(5, square(100_000));
    assert_eq!(marker.id(), 5);
    assert_eq!(marker.corners(), &square(100_000));
}

#[test]
fn centre_is_the_mean_of_the_corners() {
    let marker = DetectedMarker::new(0, square(100_000));
    assert_eq!(marker.center(), Point::new(50_000, 50_000));
    let shifted = DetectedMarker::new(
        0,
        vec![
            Point::new(10_000, 20_000),
            Point::new(30_000, 20_000),
            Point::new(30_000, 60_000),
            Point::new(10_000, 60_000),
        ],
    );
    assert_eq!(shifted.center(), Point::new(20_000, 40_000));
}

#[test]
fn centre_is_rounded_down() {
    let marker = DetectedMarker::new(
        0,
        vec![Point::new(-1, 3), Point::new(0, 0), Point::new(0, 0), Point::new(0, 0)],
    );
    assert_eq!(marker.center(), Point::new(-1, 0));
}

#[test]
fn centre_at_the_limits_of_the_coordinates() {
    let high = DetectedMarker::new(0, vec![Point::new(i32::MAX, i32::MAX); 4]);
    assert_eq!(high.center(), Point::new(i32::MAX, i32::MAX));
    let low = DetectedMarker::new(0, vec![Point::new(i32::MIN, i32::MIN); 4]);
    assert_eq!(low.center(), Point::new(i32::MIN, i32::MIN));
}

#[test]
fn no_centre_without_four_corners() {
    let three = DetectedMarker::new(
        0,
        vec![Point::new(10, 10), Point::new(20, 10), Point::new(20, 20)],
    );
    assert_eq!(three.center(), Point::new(0, 0));
    let none = DetectedMarker::new(0, Vec::new());
    assert_eq!(none.center(), Point::new(0, 0));
    let five = DetectedMarker::new(0, vec![Point::new(8, 8); 5]);
    assert_eq!(five.center(), Point::new(0, 0));
}

#[test]
fn perimeter_of_a_square() {
    let marker = DetectedMarker::new(1, square(100_000));
    assert_eq!(marker.perimeter(), 400_000);
    assert_eq!(perimeter(&square(5_000)), 20_000);
}

#[test]
fn perimeter_closes_the_polygon() {
    let triangle = vec![Point::new(0, 0), Point::new(3000, 0), Point::new(3000, 4000)];
    assert_eq!(perimeter(&triangle), 12_000);
    let there_and_back = vec![Point::new(0, 0), Point::new(0, 700)];
    assert_eq!(perimeter(&there_and_back), 1400);
}

#[test]
fn perimeter_of_degenerate_corner_sets() {
    assert_eq!(perimeter(&Vec::new()), 0);
    assert_eq!(perimeter(&vec![Point::new(9, 9)]), 0);
    assert_eq!(perimeter(&vec![Point::new(9, 9); 4]), 0);
}

#[test]
fn clone_is_the_same_marker() {
    let marker = DetectedMarker::new(7, square(40_000));
    let copy = marker.clone();
    assert_eq!(copy.id(), 7);
    assert_eq!(copy.corners(), marker.corners());
    assert_eq!(copy.center(), marker.center());
    assert_eq!(copy.perimeter(), 160_000);
}
