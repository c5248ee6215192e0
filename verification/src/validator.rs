//! The rules by which a detected quadrilateral is taken for a marker or
//! turned away as noise.
//!
//! Lengths are in thousandths of a pixel, the shape tolerance in thousandths.

use vstd::prelude::*;
use crate::marker::{edge_length, edge_of, edges_sum, perimeter_of, Point};

verus! {

/// Smallest perimeter that is accepted unless the user says otherwise:
/// thirty pixels.
pub const DEFAULT_MIN_MARKER_SIZE: i64 = 30_000;

/// The least value that the user can set the smallest perimeter to: ten
/// pixels.
pub const MIN_MARKER_SIZE_FLOOR: i64 = 10_000;

/// How far an edge may be from the mean edge, as a share of the mean, unless
/// the user says otherwise: three tenths.
pub const DEFAULT_SHAPE_TOLERANCE: i64 = 300;

/// Whether an edge is further from the mean edge than the tolerance allows.
/// The mean edge is a quarter of the perimeter, so the edge deviates where
/// `|edge - perimeter / 4| / (perimeter / 4) > tolerance / 1000`, which is
/// stated here without a division.
pub open spec fn deviates(edge: int, perimeter: int, tolerance: int) -> bool {
    let gap = if 4 * edge >= perimeter {
        4 * edge - perimeter
    } else {
        perimeter - 4 * edge
    };
    1000 * gap > tolerance * perimeter
}

/// Whether the corners lie on one horizontal or one vertical line, so that
/// the upright box around them has no area.
pub open spec fn is_flat(corners: Seq<Point>) -> bool {
    ||| forall|i: int| 0 <= i < corners.len() ==> (#[trigger] corners[i]).x == corners[0].x
    ||| forall|i: int| 0 <= i < corners.len() ==> (#[trigger] corners[i]).y == corners[0].y
}

/// Whether a corner set passes for a marker: it has four corners, its
/// perimeter is positive and no less than `min_size`, it is not flat, and
/// none of its four edges deviates from their mean by more than the
/// tolerance.
pub open spec fn marker_valid(corners: Seq<Point>, min_size: int, tolerance: int) -> bool {
    &&& corners.len() == 4
    &&& perimeter_of(corners) >= min_size
    &&& perimeter_of(corners) > 0
    &&& !is_flat(corners)
    &&& forall|i: int|
        0 <= i < 4 ==> !deviates(#[trigger] edge_of(corners, i), perimeter_of(corners), tolerance)
}

/// The perimeter of a quadrilateral is the sum of its four edges.
pub proof fn lemma_quad_perimeter(corners: Seq<Point>)
    requires
        corners.len() == 4,
    ensures
        perimeter_of(corners) == edge_of(corners, 0) + edge_of(corners, 1) + edge_of(corners, 2)
            + edge_of(corners, 3),
{
    reveal_with_fuel(edges_sum, 5);
}

/// A corner set whose perimeter is below the smallest accepted one is
/// turned away, whatever its shape and whatever the tolerance.
pub proof fn lemma_small_marker_rejected(corners: Seq<Point>, min_size: int, tolerance: int)
    requires
        perimeter_of(corners) < min_size,
    ensures
        !marker_valid(corners, min_size, tolerance),
{
}

/// A quadrilateral with one edge twice as long as each of the other three
/// is turned away under every tolerance below six tenths, however large it
/// is: its long edge lies six tenths of the mean edge above the mean.
pub proof fn lemma_stretched_marker_rejected(
    corners: Seq<Point>,
    min_size: int,
    tolerance: int,
    long: int,
    short: int,
)
    requires
        corners.len() == 4,
        0 <= long < 4,
        short > 0,
        edge_of(corners, long) == 2 * short,
        forall|i: int| 0 <= i < 4 && i != long ==> #[trigger] edge_of(corners, i) == short,
        tolerance < 600,
    ensures
        !marker_valid(corners, min_size, tolerance),
{
    lemma_quad_perimeter(corners);
    assert(edge_of(corners, 0) == if long == 0 { 2 * short } else { short });
    assert(edge_of(corners, 1) == if long == 1 { 2 * short } else { short });
    assert(edge_of(corners, 2) == if long == 2 { 2 * short } else { short });
    assert(edge_of(corners, 3) == if long == 3 { 2 * short } else { short });
    let whole = perimeter_of(corners);
    assert(whole == 5 * short);
    assert(tolerance * whole < 600 * whole) by (nonlinear_arith)
        requires
            tolerance < 600,
            whole > 0,
    ;
    assert(deviates(edge_of(corners, long), whole, tolerance));
}

/// A square passes under every tolerance that is not negative, once it is
/// large enough: its edges are all equal to their mean.
pub proof fn lemma_even_marker_accepted(corners: Seq<Point>, min_size: int, tolerance: int)
    requires
        corners.len() == 4,
        !is_flat(corners),
        forall|i: int| 0 <= i < 4 ==> #[trigger] edge_of(corners, i) == edge_of(corners, 0),
        perimeter_of(corners) >= min_size,
        perimeter_of(corners) > 0,
        tolerance >= 0,
    ensures
        marker_valid(corners, min_size, tolerance),
{
    lemma_quad_perimeter(corners);
    let whole = perimeter_of(corners);
    assert(edge_of(corners, 1) == edge_of(corners, 0));
    assert(edge_of(corners, 2) == edge_of(corners, 0));
    assert(edge_of(corners, 3) == edge_of(corners, 0));
    assert(tolerance * whole >= 0) by (nonlinear_arith)
        requires
            tolerance >= 0,
            whole > 0,
    ;
}

/// Decides whether one edge deviates.
fn edge_deviates(edge: u64, perimeter: u64, tolerance: i64) -> (d: bool)
    requires
        edge < 0x2_0000_0000,
        perimeter < 0x8_0000_0000,
    ensures
        d == deviates(edge as int, perimeter as int, tolerance as int),
{
    let four: i128 = 4 * (edge as i128);
    let whole: i128 = perimeter as i128;
    let gap: i128 = if four >= whole {
        four - whole
    } else {
        whole - four
    };
    assert(-0x8000_0000_0000_0000 * 0x8_0000_0000 <= (tolerance as int) * (perimeter as int)
        <= 0x8000_0000_0000_0000 * 0x8_0000_0000) by (nonlinear_arith)
        requires
            -0x8000_0000_0000_0000 <= tolerance as int <= 0x8000_0000_0000_0000,
            0 <= perimeter as int <= 0x8_0000_0000,
    ;
    let allowed: i128 = (tolerance as i128) * whole;
    1000 * gap > allowed
}

/// Decides whether four corners lie on one horizontal or one vertical line.
fn quad_is_flat(corners: &Vec<Point>) -> (f: bool)
    requires
        corners.len() == 4,
    ensures
        f == is_flat(corners@),
{
    let same_x = corners[1].x == corners[0].x && corners[2].x == corners[0].x && corners[3].x
        == corners[0].x;
    let same_y = corners[1].y == corners[0].y && corners[2].y == corners[0].y && corners[3].y
        == corners[0].y;
    proof {
        let s = corners@;
        if !same_x {
            assert(s[1].x != s[0].x || s[2].x != s[0].x || s[3].x != s[0].x);
        }
        if !same_y {
            assert(s[1].y != s[0].y || s[2].y != s[0].y || s[3].y != s[0].y);
        }
    }
    same_x || same_y
}

/// Decides whether a corner set passes for a marker.
pub fn is_valid_quad(corners: &Vec<Point>, min_size: i64, tolerance: i64) -> (ok: bool)
    ensures
        ok == marker_valid(corners@, min_size as int, tolerance as int),
{
    if corners.len() != 4 {
        return false;
    }
    let e0: u64 = edge_length(corners[0], corners[1]);
    let e1: u64 = edge_length(corners[1], corners[2]);
    let e2: u64 = edge_length(corners[2], corners[3]);
    let e3: u64 = edge_length(corners[3], corners[0]);
    let total: u64 = e0 + e1 + e2 + e3;
    proof {
        lemma_quad_perimeter(corners@);
        assert(e0 as int == edge_of(corners@, 0));
        assert(e1 as int == edge_of(corners@, 1));
        assert(e2 as int == edge_of(corners@, 2));
        assert(e3 as int == edge_of(corners@, 3));
    }
    if (total as i128) < (min_size as i128) || total == 0 {
        return false;
    }
    if quad_is_flat(corners) {
        return false;
    }
    let d0 = edge_deviates(e0, total, tolerance);
    let d1 = edge_deviates(e1, total, tolerance);
    let d2 = edge_deviates(e2, total, tolerance);
    let d3 = edge_deviates(e3, total, tolerance);
    !(d0 || d1 || d2 || d3)
}

} // verus!
