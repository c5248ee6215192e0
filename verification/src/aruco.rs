//! What is done with the detector's answer for a frame: the spurious
//! detections are dropped, the tracked marker is located in the frame, and
//! the markers that came into view give their commands.

use vstd::prelude::*;
use crate::commands::{fired, map_marker_to_command, newly_fired, command_of, is_command_id};
use crate::commands::ArucoCommand;
use crate::marker::{copy_corners, DetectedMarker, MarkerModel, Point};
use crate::position::{first_tracked, normalize, not_detected};
use crate::position::{position_in_frame, NormalizedPosition, TRACKED_ID};
use crate::validator::{is_valid_quad, marker_valid};
use crate::validator::{DEFAULT_MIN_MARKER_SIZE, DEFAULT_SHAPE_TOLERANCE, MIN_MARKER_SIZE_FLOOR};

verus! {

/// What a processor is to its users: its two thresholds and what it keeps
/// from the frame before.
pub ghost struct ProcessorModel {
    /// Smallest accepted perimeter, in thousandths of a pixel.
    pub min_marker_size: int,
    /// Largest accepted deviation of an edge from the mean edge, in
    /// thousandths of the mean.
    pub shape_tolerance: int,
    /// The identifiers of the markers of the frame before.
    pub last_detected_ids: Seq<i32>,
    /// The position that was computed last.
    pub last_position: NormalizedPosition,
}

/// Filters and interprets the markers of each frame.
pub struct ArucoProcessor {
    min_marker_size: i64,
    shape_tolerance: i64,
    last_detected_ids: Vec<i32>,
    last_position: NormalizedPosition,
}

impl View for ArucoProcessor {
    type V = ProcessorModel;

    closed spec fn view(&self) -> ProcessorModel {
        ProcessorModel {
            min_marker_size: self.min_marker_size as int,
            shape_tolerance: self.shape_tolerance as int,
            last_detected_ids: self.last_detected_ids@,
            last_position: self.last_position,
        }
    }
}

/// The identifiers of a frame's markers, in the order of the markers.
pub open spec fn ids_of(markers: Seq<MarkerModel>) -> Seq<i32> {
    Seq::new(markers.len(), |i: int| markers[i].id)
}

/// The markers that the first `k` raw detections leave: detection `i` is the
/// identifier `ids[i]` with the corner set `corners[i]`, it is dropped where
/// it has no corner set or the corner set does not pass for a marker, and
/// those that stay keep their order.
pub open spec fn detections(
    ids: Seq<i32>,
    corners: Seq<Vec<Point>>,
    min_size: int,
    tolerance: int,
    k: nat,
) -> Seq<MarkerModel>
    recommends
        k <= ids.len(),
    decreases k,
{
    if k == 0 {
        Seq::empty()
    } else {
        let before = detections(ids, corners, min_size, tolerance, (k - 1) as nat);
        if k - 1 < corners.len() && marker_valid(corners[k - 1]@, min_size, tolerance) {
            before.push(MarkerModel { id: ids[k - 1], corners: corners[k - 1]@ })
        } else {
            before
        }
    }
}

impl ArucoProcessor {
    /// A processor with the default thresholds and no frame seen yet.
    pub fn new() -> (processor: ArucoProcessor)
        ensures
            processor@ == (ProcessorModel {
                min_marker_size: 30_000,
                shape_tolerance: 300,
                last_detected_ids: Seq::empty(),
                last_position: not_detected(),
            }),
    {
        ArucoProcessor {
            min_marker_size: DEFAULT_MIN_MARKER_SIZE,
            shape_tolerance: DEFAULT_SHAPE_TOLERANCE,
            last_detected_ids: Vec::new(),
            last_position: NormalizedPosition { x: 0, y: 0, detected: false },
        }
    }

    /// Smallest accepted perimeter, in thousandths of a pixel.
    pub fn min_marker_size(&self) -> (size: i64)
        ensures
            size as int == self@.min_marker_size,
    {
        self.min_marker_size
    }

    /// Largest accepted deviation of an edge, in thousandths of the mean.
    pub fn shape_tolerance(&self) -> (tolerance: i64)
        ensures
            tolerance as int == self@.shape_tolerance,
    {
        self.shape_tolerance
    }

    /// The position that was computed last.
    pub fn last_position(&self) -> (position: NormalizedPosition)
        ensures
            position == self@.last_position,
    {
        self.last_position
    }

    /// Sets the smallest accepted perimeter to half the shorter side of the
    /// image, which is given in pixels.
    pub fn configure_for_better_detection(&mut self, image_width: i32, image_height: i32)
        ensures
            final(self)@ == (ProcessorModel {
                min_marker_size: if image_width <= image_height {
                    500 * image_width
                } else {
                    500 * image_height
                },
                ..old(self)@
            }),
    {
        let shorter: i32 = if image_width <= image_height {
            image_width
        } else {
            image_height
        };
        self.min_marker_size = 500 * (shorter as i64);
    }

    /// Sets the smallest accepted perimeter, but to no less than ten pixels.
    pub fn set_min_marker_size(&mut self, size: i64)
        ensures
            final(self)@ == (ProcessorModel {
                min_marker_size: if size >= 10_000 {
                    size as int
                } else {
                    10_000
                },
                ..old(self)@
            }),
    {
        self.min_marker_size = if size >= MIN_MARKER_SIZE_FLOOR {
            size
        } else {
            MIN_MARKER_SIZE_FLOOR
        };
    }

    /// Sets the shape tolerance.
    pub fn set_shape_tolerance(&mut self, tolerance: i64)
        ensures
            final(self)@ == (ProcessorModel { shape_tolerance: tolerance as int, ..old(self)@ }),
    {
        self.shape_tolerance = tolerance;
    }

    /// Whether a marker passes the size and shape rules under this
    /// processor's thresholds.
    pub fn is_marker_valid(&self, marker: &DetectedMarker) -> (ok: bool)
        ensures
            ok == marker_valid(marker@.corners, self@.min_marker_size, self@.shape_tolerance),
    {
        is_valid_quad(marker.corners(), self.min_marker_size, self.shape_tolerance)
    }

    /// Turns the detector's raw answer into markers and keeps those that
    /// pass the size and shape rules.
    pub fn detect_markers(&self, ids: &Vec<i32>, corners: &Vec<Vec<Point>>) -> (markers: Vec<
        DetectedMarker,
    >)
        ensures
            markers.deep_view() == detections(
                ids@,
                corners@,
                self@.min_marker_size,
                self@.shape_tolerance,
                ids@.len(),
            ),
    {
        let mut markers: Vec<DetectedMarker> = Vec::new();
        let mut i: usize = 0;
        while i < ids.len()
            invariant
                i <= ids.len(),
                markers.deep_view() == detections(
                    ids@,
                    corners@,
                    self@.min_marker_size,
                    self@.shape_tolerance,
                    i as nat,
                ),
            decreases ids.len() - i,
        {
            if i < corners.len() {
                let marker = DetectedMarker::new(ids[i], copy_corners(&corners[i]));
                if self.is_marker_valid(&marker) {
                    let ghost before = markers.deep_view();
                    markers.push(marker);
                    assert(markers.deep_view() =~= before.push(marker@));
                }
            }
            i += 1;
        }
        markers
    }

    /// Locates the tracked marker in a frame of the given size in pixels, and
    /// keeps the answer as the last position.
    pub fn calculate_marker0_position(
        &mut self,
        frame_width: i32,
        frame_height: i32,
        markers: &[DetectedMarker],
    ) -> (position: NormalizedPosition)
        ensures
            position == position_in_frame(
                frame_width as int,
                frame_height as int,
                markers.deep_view(),
            ),
            final(self)@ == (ProcessorModel { last_position: position, ..old(self)@ }),
    {
        let position = NormalizedPosition { x: 0, y: 0, detected: false };
        if frame_width > 0 && frame_height > 0 {
            let mut i: usize = 0;
            while i < markers.len()
                invariant
                    i <= markers.len(),
                    frame_width > 0,
                    frame_height > 0,
                    *self == *old(self),
                    first_tracked(markers.deep_view(), 0) == first_tracked(
                        markers.deep_view(),
                        i as int,
                    ),
                decreases markers.len() - i,
            {
                if markers[i].id() == TRACKED_ID {
                    let center = markers[i].center();
                    let found = NormalizedPosition {
                        x: normalize(center.x, frame_width),
                        y: normalize(center.y, frame_height),
                        detected: true,
                    };
                    self.last_position = found;
                    return found;
                }
                i += 1;
            }
            assert(first_tracked(markers.deep_view(), i as int) == markers.deep_view().len());
        }
        self.last_position = position;
        position
    }

    /// The commands of the markers that came into view with this frame. The
    /// frame's identifiers are kept for the next call.
    pub fn process_commands(&mut self, markers: &[DetectedMarker]) -> (commands: Vec<ArucoCommand>)
        ensures
            commands.deep_view() == fired(
                ids_of(markers.deep_view()),
                old(self)@.last_detected_ids,
                markers.deep_view().len(),
            ),
            final(self)@ == (ProcessorModel {
                last_detected_ids: ids_of(markers.deep_view()),
                ..old(self)@
            }),
    {
        let mut current_ids: Vec<i32> = Vec::new();
        let mut i: usize = 0;
        while i < markers.len()
            invariant
                i <= markers.len(),
                current_ids@.len() == i,
                forall|j: int| 0 <= j < i ==> current_ids@[j] == markers.deep_view()[j].id,
            decreases markers.len() - i,
        {
            current_ids.push(markers[i].id());
            i += 1;
        }
        assert(current_ids@ =~= ids_of(markers.deep_view()));
        let commands = newly_fired(&current_ids, &self.last_detected_ids);
        self.last_detected_ids = current_ids;
        commands
    }

    /// The command of a marker identifier, if it has one.
    pub fn map_marker_to_command(&self, marker_id: i32) -> (command: Option<ArucoCommand>)
        ensures
            command is Some <==> is_command_id(marker_id as int),
            command is Some ==> command->0@ == command_of(marker_id),
    {
        map_marker_to_command(marker_id)
    }
}

/// Whatever `detect_markers` keeps passes the size and shape rules, and was
/// among the raw detections.
pub proof fn lemma_detections_are_valid(
    ids: Seq<i32>,
    corners: Seq<Vec<Point>>,
    min_size: int,
    tolerance: int,
    k: nat,
    n: int,
)
    requires
        k <= ids.len(),
        0 <= n < detections(ids, corners, min_size, tolerance, k).len(),
    ensures
        marker_valid(detections(ids, corners, min_size, tolerance, k)[n].corners, min_size, tolerance),
        exists|i: int|
            0 <= i < k && i < corners.len() && detections(ids, corners, min_size, tolerance, k)[n]
                == (MarkerModel { id: ids[i], corners: #[trigger] corners[i]@ }),
    decreases k,
{
    let before = detections(ids, corners, min_size, tolerance, (k - 1) as nat);
    if k - 1 < corners.len() && marker_valid(corners[k - 1]@, min_size, tolerance) && n
        == before.len() {
        assert(detections(ids, corners, min_size, tolerance, k)[n] == (MarkerModel {
            id: ids[k - 1],
            corners: corners[k - 1]@,
        }));
    } else {
        lemma_detections_are_valid(ids, corners, min_size, tolerance, (k - 1) as nat, n);
        let i = choose|i: int|
            0 <= i < k - 1 && i < corners.len() && before[n] == (MarkerModel {
                id: ids[i],
                corners: #[trigger] corners[i]@,
            });
        assert(0 <= i < k && i < corners.len());
    }
}

} // verus!
