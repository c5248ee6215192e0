//! Where the overlay is drawn: the geometry of the lines and labels, in whole
//! pixels. The drawing itself is done elsewhere.

use vstd::prelude::*;
use crate::marker::Point;

verus! {

/// Half the length of an arm of the cross on the tracked marker, in pixels.
pub const CROSS_SIZE: i32 = 8;

/// Distance of a label from the border of the frame, in pixels.
pub const LABEL_MARGIN: i32 = 10;

/// A place on the pixel grid.
#[derive(Clone, Copy, Debug, PartialEq, Eq, Structural)]
pub struct Pixel {
    pub x: i32,
    pub y: i32,
}

/// A straight line between two places.
#[derive(Clone, Copy, Debug, PartialEq, Eq, Structural)]
pub struct Segment {
    pub start: Pixel,
    pub end: Pixel,
}

/// The whole pixel of a coordinate in thousandths: the fraction is dropped,
/// towards zero.
pub open spec fn pixel_of(coordinate: int) -> int {
    if coordinate >= 0 {
        coordinate / 1000
    } else {
        -((-coordinate) / 1000)
    }
}

/// The place on the grid of a point.
pub open spec fn grid_place(point: Point) -> Pixel {
    Pixel { x: pixel_of(point.x as int) as i32, y: pixel_of(point.y as int) as i32 }
}

/// The two arms of the cross on a centre: the horizontal one, then the
/// vertical one.
pub open spec fn cross_of(center: Point) -> (Segment, Segment) {
    let c = grid_place(center);
    (
        Segment {
            start: Pixel { x: (c.x - 8) as i32, y: c.y },
            end: Pixel { x: (c.x + 8) as i32, y: c.y },
        },
        Segment {
            start: Pixel { x: c.x, y: (c.y - 8) as i32 },
            end: Pixel { x: c.x, y: (c.y + 8) as i32 },
        },
    )
}

/// The edge of a quadrilateral that leaves corner `i`.
pub open spec fn outline_edge(corners: Seq<Point>, i: int) -> Segment
    recommends
        corners.len() == 4,
        0 <= i < 4,
{
    Segment { start: grid_place(corners[i]), end: grid_place(corners[(i + 1) % 4]) }
}

/// The outline of a marker: its four edges in the order of the corners, or
/// nothing for a corner set that is no quadrilateral.
pub open spec fn outline_of(corners: Seq<Point>) -> Seq<Segment> {
    if corners.len() == 4 {
        seq![
            outline_edge(corners, 0),
            outline_edge(corners, 1),
            outline_edge(corners, 2),
            outline_edge(corners, 3),
        ]
    } else {
        Seq::empty()
    }
}

/// The left end of a label that ends a margin before the right border of
/// the frame, held to what an `i32` can say.
pub open spec fn right_aligned_at(frame_width: int, text_width: int) -> int {
    let x = frame_width - text_width - 10;
    if x < i32::MIN {
        i32::MIN as int
    } else if x > i32::MAX {
        i32::MAX as int
    } else {
        x
    }
}

/// The whole pixel of a coordinate in thousandths.
pub fn to_pixel(coordinate: i32) -> (pixel: i32)
    ensures
        pixel as int == pixel_of(coordinate as int),
        -2_147_484 < pixel < 2_147_484,
{
    if coordinate >= 0 {
        coordinate / 1000
    } else {
        let back: i64 = -(coordinate as i64);
        (-(back / 1000)) as i32
    }
}

/// The place on the grid of a point.
pub fn place_on_grid(point: Point) -> (pixel: Pixel)
    ensures
        pixel == grid_place(point),
        -2_147_484 < pixel.x < 2_147_484,
        -2_147_484 < pixel.y < 2_147_484,
{
    Pixel { x: to_pixel(point.x), y: to_pixel(point.y) }
}

/// The two arms of the cross on a centre.
pub fn center_cross(center: Point) -> (arms: (Segment, Segment))
    ensures
        arms == cross_of(center),
{
    let c = place_on_grid(center);
    (
        Segment {
            start: Pixel { x: c.x - CROSS_SIZE, y: c.y },
            end: Pixel { x: c.x + CROSS_SIZE, y: c.y },
        },
        Segment {
            start: Pixel { x: c.x, y: c.y - CROSS_SIZE },
            end: Pixel { x: c.x, y: c.y + CROSS_SIZE },
        },
    )
}

/// The outline of a marker.
pub fn marker_outline(corners: &Vec<Point>) -> (outline: Vec<Segment>)
    ensures
        outline@ == outline_of(corners@),
{
    let mut outline: Vec<Segment> = Vec::new();
    if corners.len() == 4 {
        let p0 = place_on_grid(corners[0]);
        let p1 = place_on_grid(corners[1]);
        let p2 = place_on_grid(corners[2]);
        let p3 = place_on_grid(corners[3]);
        outline.push(Segment { start: p0, end: p1 });
        outline.push(Segment { start: p1, end: p2 });
        outline.push(Segment { start: p2, end: p3 });
        outline.push(Segment { start: p3, end: p0 });
        assert(outline@ =~= outline_of(corners@));
    }
    outline
}

/// The left end of a label that ends a margin before the right border.
pub fn right_aligned(frame_width: i32, text_width: i32) -> (x: i32)
    ensures
        x as int == right_aligned_at(frame_width as int, text_width as int),
{
    let x: i64 = frame_width as i64 - text_width as i64 - LABEL_MARGIN as i64;
    if x < i32::MIN as i64 {
        i32::MIN
    } else if x > i32::MAX as i64 {
        i32::MAX
    } else {
        x as i32
    }
}

} // verus!
