//! The debug view: whether it is on, and when it reports.

use vstd::prelude::*;

verus! {

/// A report is due every this many frames.
pub const REPORT_INTERVAL: u32 = 30;

/// The state of the debug view.
pub struct DebugManager {
    pub debug_mode: bool,
    pub window_name: String,
    pub window_created: bool,
}

/// What a debug report says of one frame.
#[derive(Clone, Copy, Debug)]
pub struct DebugReport {
    pub frame_counter: u32,
    pub markers_count: usize,
    pub marker_detected: bool,
    /// The normalised position of the tracked marker, in thousandths.
    pub marker_position: Option<(i64, i64)>,
}

impl DebugManager {
    /// A debug view that is off and has no window yet.
    pub fn new() -> (manager: DebugManager)
        ensures
            !manager.debug_mode,
            !manager.window_created,
            manager.window_name@ == "Debug View"@,
    {
        DebugManager {
            debug_mode: false,
            window_name: "Debug View".to_string(),
            window_created: false,
        }
    }

    /// Switches the debug view on or off and says which it now is.
    pub fn toggle_debug_mode(&mut self) -> (on: bool)
        ensures
            on == !old(self).debug_mode,
            final(self).debug_mode == on,
            final(self).window_name == old(self).window_name,
            final(self).window_created == old(self).window_created,
    {
        self.debug_mode = !self.debug_mode;
        self.debug_mode
    }

    /// Whether a frame is to be reported: the debug view is on and the frame
    /// is a multiple of the report interval.
    pub open spec fn reports(&self, frame_counter: u32) -> bool {
        self.debug_mode && frame_counter % 30 == 0
    }

    /// The report for a frame, where one is due.
    pub fn debug_report(
        &self,
        frame_counter: u32,
        markers_count: usize,
        marker_detected: bool,
        marker_position: Option<(i64, i64)>,
    ) -> (report: Option<DebugReport>)
        ensures
            report is Some <==> self.reports(frame_counter),
            report is Some ==> report->0 == (DebugReport {
                frame_counter,
                markers_count,
                marker_detected,
                marker_position,
            }),
    {
        if !self.debug_mode || frame_counter % REPORT_INTERVAL != 0 {
            None
        } else {
            Some(DebugReport { frame_counter, markers_count, marker_detected, marker_position })
        }
    }
}

} // verus!
