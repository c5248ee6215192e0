//! The position of the tracked marker, relative to the frame.
//!
//! A normalised coordinate is a fixed-point number in thousandths: `-1000` is
//! the left or upper border of the frame, `1000` the right or lower one.

use vstd::prelude::*;
use crate::marker::{center_of, MarkerModel};
use crate::numeric::floor_div;

verus! {

/// The identifier of the marker whose position is tracked.
pub const TRACKED_ID: i32 = 0;

/// Where the tracked marker is in the frame, if it was seen at all.
#[derive(Clone, Copy, Debug, PartialEq, Eq, Structural)]
pub struct NormalizedPosition {
    pub x: i64,
    pub y: i64,
    pub detected: bool,
}

impl NormalizedPosition {
    pub fn new(x: i64, y: i64, detected: bool) -> (p: NormalizedPosition)
        ensures
            p == (NormalizedPosition { x, y, detected }),
    {
        NormalizedPosition { x, y, detected }
    }
}

/// The position that stands for "no marker seen".
pub open spec fn not_detected() -> NormalizedPosition {
    NormalizedPosition { x: 0, y: 0, detected: false }
}

/// A pixel coordinate, in thousandths of a pixel, as a normalised coordinate
/// of a frame that is `extent` pixels wide or high: twice the coordinate over
/// the extent, less one, rounded down to a thousandth.
pub open spec fn normalized(coordinate: int, extent: int) -> int
    recommends
        extent > 0,
{
    (2 * coordinate) / extent - 1000
}

/// The index of the first marker at or after `from` that carries the tracked
/// identifier, or the number of markers if there is none.
pub open spec fn first_tracked(markers: Seq<MarkerModel>, from: int) -> int
    decreases markers.len() - from,
{
    if from < 0 || from >= markers.len() {
        markers.len() as int
    } else if markers[from].id == TRACKED_ID {
        from
    } else {
        first_tracked(markers, from + 1)
    }
}

/// The position that a frame's markers give: that of the first marker with
/// the tracked identifier, or "not detected" where there is none or the frame
/// has no extent.
pub open spec fn position_in_frame(
    frame_width: int,
    frame_height: int,
    markers: Seq<MarkerModel>,
) -> NormalizedPosition {
    let found = first_tracked(markers, 0);
    if frame_width > 0 && frame_height > 0 && found < markers.len() {
        let center = center_of(markers[found].corners);
        NormalizedPosition {
            x: normalized(center.x as int, frame_width) as i64,
            y: normalized(center.y as int, frame_height) as i64,
            detected: true,
        }
    } else {
        not_detected()
    }
}

/// What `first_tracked` finds is the earliest marker with the tracked
/// identifier.
pub proof fn lemma_first_tracked(markers: Seq<MarkerModel>, from: int)
    requires
        0 <= from <= markers.len(),
    ensures
        from <= first_tracked(markers, from) <= markers.len(),
        first_tracked(markers, from) < markers.len() ==> markers[first_tracked(markers, from)].id
            == TRACKED_ID,
        forall|j: int| from <= j < first_tracked(markers, from) ==> markers[j].id != TRACKED_ID,
    decreases markers.len() - from,
{
    if from < markers.len() && markers[from].id != TRACKED_ID {
        lemma_first_tracked(markers, from + 1);
    }
}

/// Normalises one pixel coordinate.
pub fn normalize(coordinate: i32, extent: i32) -> (n: i64)
    requires
        extent > 0,
    ensures
        n as int == normalized(coordinate as int, extent as int),
{
    let doubled: i64 = 2 * (coordinate as i64);
    let ratio: i64 = floor_div(doubled, extent as i64);
    proof {
        let d = doubled as int;
        let e = extent as int;
        vstd::arithmetic::div_mod::lemma_fundamental_div_mod(d, e);
        vstd::arithmetic::div_mod::lemma_mod_bound(d, e);
        assert(-0x1_0000_0000 <= d / e <= 0x1_0000_0000) by (nonlinear_arith)
            requires
                d == e * (d / e) + d % e,
                0 <= d % e < e,
                e >= 1,
                -0x1_0000_0000 <= d <= 0x1_0000_0000,
        ;
    }
    ratio - 1000
}

/// A frame's centre is the origin, its left and upper borders lie at `-1000`
/// and its right and lower borders at `1000`.
pub proof fn lemma_normalized_landmarks(extent: int)
    requires
        extent > 0,
    ensures
        normalized(0, extent) == -1000,
        normalized(500 * extent, extent) == 0,
        normalized(1000 * extent, extent) == 1000,
{
    vstd::arithmetic::div_mod::lemma_div_multiples_vanish(1000, extent);
    vstd::arithmetic::div_mod::lemma_div_multiples_vanish(2000, extent);
    assert(2 * (500 * extent) == extent * 1000) by (nonlinear_arith);
    assert(2 * (1000 * extent) == extent * 2000) by (nonlinear_arith);
}

/// A coordinate inside the frame is normalised to a coordinate on the axis.
pub proof fn lemma_normalized_in_range(coordinate: int, extent: int)
    requires
        extent > 0,
        0 <= coordinate <= 1000 * extent,
    ensures
        -1000 <= normalized(coordinate, extent) <= 1000,
{
    let d = 2 * coordinate;
    vstd::arithmetic::div_mod::lemma_fundamental_div_mod(d, extent);
    vstd::arithmetic::div_mod::lemma_mod_bound(d, extent);
    assert(0 <= d / extent <= 2000) by (nonlinear_arith)
        requires
            d == extent * (d / extent) + d % extent,
            0 <= d % extent < extent,
            extent >= 1,
            0 <= d <= 2000 * extent,
    ;
}

} // verus!
