//! Frame-by-frame bookkeeping of the motion detector: which frame is the
//! first, and which contours are kept beside the palm.

use vstd::prelude::*;

verus! {

/// A contour that is no palm is kept if its area is above this: five hundred
/// square pixels, in thousandths.
pub const OTHER_CONTOUR_AREA: i64 = 500_000;

/// What the detector keeps between frames, apart from the images.
pub struct AppState {
    pub first_frame: bool,
    pub frame_count: u32,
    pub show_camera_view: bool,
}

/// What is to be done with a frame.
#[derive(Clone, Copy, Debug, PartialEq, Eq, Structural)]
pub enum FrameStep {
    /// Keep the frame as the background and look for nothing.
    Prime,
    /// Compare the frame with the one before.
    Compare,
}

impl AppState {
    /// The state before the first frame.
    pub fn new() -> (state: AppState)
        ensures
            state.first_frame,
            state.frame_count == 0,
            state.show_camera_view,
    {
        AppState { first_frame: true, frame_count: 0, show_camera_view: true }
    }

    /// Does nothing: the frame before is kept beside the state, with the
    /// images.
    pub fn update_previous_frame(&mut self)
        ensures
            final(self).first_frame == old(self).first_frame,
            final(self).frame_count == old(self).frame_count,
            final(self).show_camera_view == old(self).show_camera_view,
    {
    }

    /// Counts a frame and says what is to be done with it: the first frame
    /// primes the detector, every later one is compared. Where priming does
    /// not succeed, `prime_failed` is to be called, so that the next frame
    /// primes again.
    pub fn begin_frame(&mut self) -> (step: FrameStep)
        requires
            old(self).frame_count < u32::MAX,
        ensures
            final(self).frame_count == old(self).frame_count + 1,
            !final(self).first_frame,
            final(self).show_camera_view == old(self).show_camera_view,
            step == if old(self).first_frame {
                FrameStep::Prime
            } else {
                FrameStep::Compare
            },
    {
        self.frame_count = self.frame_count + 1;
        if self.first_frame {
            self.first_frame = false;
            FrameStep::Prime
        } else {
            FrameStep::Compare
        }
    }

    /// Notes that the frame that was to prime the detector could not be
    /// kept: the detector is not primed, and the frame stays counted.
    pub fn prime_failed(&mut self)
        ensures
            final(self).first_frame,
            final(self).frame_count == old(self).frame_count,
            final(self).show_camera_view == old(self).show_camera_view,
    {
        self.first_frame = true;
    }
}

/// The places, among the first `k` areas, of the contours that are kept
/// beside the palm: those whose area is above the threshold, in order.
pub open spec fn kept_contours(areas: Seq<i64>, k: nat) -> Seq<usize>
    recommends
        k <= areas.len(),
    decreases k,
{
    if k == 0 {
        Seq::empty()
    } else {
        let before = kept_contours(areas, (k - 1) as nat);
        if areas[k - 1] > 500_000 {
            before.push((k - 1) as usize)
        } else {
            before
        }
    }
}

/// The places of the contours that are kept beside the palm, given each
/// contour's area in thousandths of a square pixel.
pub fn collect_other_contours(areas: &Vec<i64>) -> (kept: Vec<usize>)
    ensures
        kept@ == kept_contours(areas@, areas@.len()),
{
    let mut kept: Vec<usize> = Vec::new();
    let mut i: usize = 0;
    while i < areas.len()
        invariant
            i <= areas.len(),
            kept@ == kept_contours(areas@, i as nat),
        decreases areas.len() - i,
    {
        if areas[i] > OTHER_CONTOUR_AREA {
            kept.push(i);
        }
        i += 1;
    }
    kept
}

} // verus!
