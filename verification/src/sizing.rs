//! Minimum-size detection: comparing what a window shows to what was asked.
//!
//! After a landing pass each visible window is measured. A window that shows
//! more than the layout asked for either still carries stale frame insets, or
//! was measured stale, or really enforces a minimum size. Only the last is
//! reported. An excess that looks stale must be seen twice in a row, and an
//! absurd one is never believed.

use std::collections::HashMap;
use std::collections::HashSet;
use vstd::prelude::*;

use crate::geometry::fits;
use crate::geometry::fits_i32;
use crate::sets::list_keys;
use crate::types::HeightViolation;
use crate::types::WidthViolation;
use crate::types::WindowId;

verus! {

broadcast use vstd::std_specs::hash::group_hash_axioms;

/// How many pixels a window may exceed its request and still fit.
pub const VISIBLE_SIZE_TOLERANCE: i32 = 2;

/// Above this many halves of the requested size, a measurement looks stale.
pub const STALE_BOUNDS_RATIO: i32 = 3;

/// Above this many times the requested size, a measurement is absurd.
pub const ABSURD_BOUNDS_RATIO: i32 = 4;

/// What one axis of one measurement means.
#[derive(Clone, Copy, Debug, PartialEq, Eq, Structural)]
pub enum AxisSizeClassification {
    /// The window shows no more than was asked.
    Fits,
    /// The excess lies within the frame request: the insets are stale.
    InsetArtifact,
    /// The window shows more than was asked of its frame.
    Violation {
        /// Report the measurement as a minimum size.
        record: bool,
        /// Wait for the next measurement to confirm it.
        suspect: bool,
    },
}

/// The sizes asked of a window and the sizes it shows.
#[derive(Clone, Copy, Debug, PartialEq, Eq, Structural)]
pub struct WindowSizeMeasurement {
    pub window_id: WindowId,
    pub layout_w: i32,
    pub layout_h: i32,
    pub frame_w: i32,
    pub frame_h: i32,
    pub visible_w: i32,
    pub visible_h: i32,
}

/// A measurement with the meaning of each of its axes.
#[derive(Clone, Copy, Debug, PartialEq, Eq, Structural)]
pub struct ClassifiedSizeMeasurement {
    pub measurement: WindowSizeMeasurement,
    pub width: AxisSizeClassification,
    pub height: AxisSizeClassification,
}

/// Per window, whether its width and its height looked stale when last
/// measured.
pub type Suspects = HashMap<WindowId, (bool, bool)>;

/// The mathematical content of `Suspects`.
pub type SuspectMap = Map<WindowId, (bool, bool)>;

/// What one round of measurements found.
#[derive(Debug)]
pub struct SizeViolationDetection {
    pub width_violations: Vec<WidthViolation>,
    pub height_violations: Vec<HeightViolation>,
    /// Windows whose cached insets are stale.
    pub inset_artifact_windows: HashSet<WindowId>,
    /// Windows whose excess needs a second measurement.
    pub suspect_confirmation_windows: HashSet<WindowId>,
    /// Windows with at least one reported violation.
    pub violating_windows: HashSet<WindowId>,
}

/// The mathematical content of a `SizeViolationDetection`.
#[verifier::ext_equal]
pub struct Detection {
    pub width_violations: Seq<WidthViolation>,
    pub height_violations: Seq<HeightViolation>,
    pub inset_artifact_windows: Set<WindowId>,
    pub suspect_confirmation_windows: Set<WindowId>,
    pub violating_windows: Set<WindowId>,
}

impl View for SizeViolationDetection {
    type V = Detection;

    open spec fn view(&self) -> Detection {
        Detection {
            width_violations: self.width_violations@,
            height_violations: self.height_violations@,
            inset_artifact_windows: self.inset_artifact_windows@,
            suspect_confirmation_windows: self.suspect_confirmation_windows@,
            violating_windows: self.violating_windows@,
        }
    }
}

impl Detection {
    /// Nothing found.
    pub open spec fn none() -> Detection {
        Detection {
            width_violations: Seq::empty(),
            height_violations: Seq::empty(),
            inset_artifact_windows: Set::empty(),
            suspect_confirmation_windows: Set::empty(),
            violating_windows: Set::empty(),
        }
    }

    /// Something was found that a second measurement could settle.
    pub open spec fn unsettled(self) -> bool {
        self.inset_artifact_windows != Set::<WindowId>::empty()
            || self.suspect_confirmation_windows != Set::<WindowId>::empty()
    }
}

impl SizeViolationDetection {
    /// Nothing found.
    pub fn new() -> (detection: SizeViolationDetection)
        ensures
            detection@ == Detection::none(),
    {
        SizeViolationDetection {
            width_violations: Vec::new(),
            height_violations: Vec::new(),
            inset_artifact_windows: HashSet::new(),
            suspect_confirmation_windows: HashSet::new(),
            violating_windows: HashSet::new(),
        }
    }
}

impl Default for SizeViolationDetection {
    fn default() -> (detection: SizeViolationDetection)
        ensures
            detection@ == Detection::none(),
    {
        SizeViolationDetection::new()
    }
}

/// The window shows more than the layout asked, beyond the tolerance.
pub open spec fn oversize(layout: int, visible: int) -> bool {
    visible > layout + VISIBLE_SIZE_TOLERANCE
}

/// The excess is within what was asked of the frame.
pub open spec fn within_frame(frame: int, visible: int) -> bool {
    visible <= frame + VISIBLE_SIZE_TOLERANCE
}

/// The measurement is more than one and a half times the layout request.
pub open spec fn looks_stale(layout: int, visible: int) -> bool {
    layout > 0 && 2 * visible > STALE_BOUNDS_RATIO * layout
}

/// The measurement is more than four times the layout request.
pub open spec fn absurd(layout: int, visible: int) -> bool {
    layout > 0 && visible > ABSURD_BOUNDS_RATIO * layout
}

/// What one axis of a measurement means, given whether a second measurement
/// can follow and whether the axis was suspect before.
pub open spec fn axis_meaning(
    layout: int,
    frame: int,
    visible: int,
    allow_retry: bool,
    was_suspected: bool,
) -> AxisSizeClassification {
    if !oversize(layout, visible) {
        AxisSizeClassification::Fits
    } else if allow_retry && within_frame(frame, visible) {
        AxisSizeClassification::InsetArtifact
    } else {
        AxisSizeClassification::Violation {
            record: !looks_stale(layout, visible) || (was_suspected && !absurd(layout, visible)),
            suspect: looks_stale(layout, visible) && !was_suspected && !absurd(layout, visible),
        }
    }
}

/// Every intermediate result of judging one axis can be represented.
pub open spec fn axis_representable(layout: int, frame: int, visible: int, allow_retry: bool) -> bool {
    &&& fits_i32(layout + VISIBLE_SIZE_TOLERANCE)
    &&& oversize(layout, visible) && allow_retry ==> fits_i32(frame + VISIBLE_SIZE_TOLERANCE)
    &&& oversize(layout, visible) && !(allow_retry && within_frame(frame, visible)) && layout > 0
        ==> {
        &&& fits_i32(2 * visible)
        &&& fits_i32(STALE_BOUNDS_RATIO * layout)
        &&& fits_i32(ABSURD_BOUNDS_RATIO * layout)
    }
}

/// Every intermediate result of judging a measurement can be represented.
pub open spec fn representable(m: WindowSizeMeasurement, allow_retry: bool) -> bool {
    &&& axis_representable(m.layout_w as int, m.frame_w as int, m.visible_w as int, allow_retry)
    &&& axis_representable(m.layout_h as int, m.frame_h as int, m.visible_h as int, allow_retry)
}

fn is_axis_representable(layout: i32, frame: i32, visible: i32, allow_retry: bool) -> (r: bool)
    ensures
        r == axis_representable(layout as int, frame as int, visible as int, allow_retry),
{
    let layout: i64 = layout as i64;
    let frame: i64 = frame as i64;
    let visible: i64 = visible as i64;
    if !fits(layout + 2) {
        return false;
    }
    if visible <= layout + 2 {
        return true;
    }
    if allow_retry {
        if !fits(frame + 2) {
            return false;
        }
        if visible <= frame + 2 {
            return true;
        }
    }
    layout <= 0 || (fits(2 * visible) && fits(3 * layout) && fits(4 * layout))
}

/// Whether a measurement can be judged without leaving the integer range.
pub fn is_representable(m: &WindowSizeMeasurement, allow_retry: bool) -> (r: bool)
    ensures
        r == representable(*m, allow_retry),
{
    is_axis_representable(m.layout_w, m.frame_w, m.visible_w, allow_retry)
        && is_axis_representable(m.layout_h, m.frame_h, m.visible_h, allow_retry)
}

/// Decide whether one visible measurement fits, proves the cached insets
/// stale, or is a real minimum-size candidate. A pass that may be repeated
/// treats an excess inside the frame request as an inset artifact; the
/// authoritative pass takes the same excess for a real minimum.
///
/// Confirmation and absurdity are judged against the layout request, never
/// against the frame.
pub fn classify_size_axis(
    layout_size: i32,
    frame_size: i32,
    visible_size: i32,
    allow_landing_measurement_retry: bool,
    was_suspected: bool,
) -> (classification: AxisSizeClassification)
    requires
        axis_representable(
            layout_size as int,
            frame_size as int,
            visible_size as int,
            allow_landing_measurement_retry,
        ),
    ensures
        classification == axis_meaning(
            layout_size as int,
            frame_size as int,
            visible_size as int,
            allow_landing_measurement_retry,
            was_suspected,
        ),
{
    if visible_size <= layout_size + VISIBLE_SIZE_TOLERANCE {
        return AxisSizeClassification::Fits;
    }
    if allow_landing_measurement_retry && visible_size <= frame_size + VISIBLE_SIZE_TOLERANCE {
        return AxisSizeClassification::InsetArtifact;
    }
    let stale = layout_size > 0 && visible_size * 2 > layout_size * STALE_BOUNDS_RATIO;
    let beyond_belief = layout_size > 0 && visible_size > layout_size * ABSURD_BOUNDS_RATIO;
    let (record, suspect) = classify_oversize(true, stale, was_suspected, beyond_belief);
    AxisSizeClassification::Violation { record, suspect }
}

/// Whether an excess lies within what was asked of the frame.
pub fn is_inset_artifact(layout_size: i32, frame_size: i32, visible_size: i32) -> (r: bool)
    requires
        fits_i32(layout_size + VISIBLE_SIZE_TOLERANCE),
        oversize(layout_size as int, visible_size as int) ==> fits_i32(
            frame_size + VISIBLE_SIZE_TOLERANCE,
        ),
    ensures
        r == (oversize(layout_size as int, visible_size as int) && within_frame(
            frame_size as int,
            visible_size as int,
        )),
{
    visible_size > layout_size + VISIBLE_SIZE_TOLERANCE && visible_size <= frame_size
        + VISIBLE_SIZE_TOLERANCE
}

/// What to do with an excess: report it, and mark it suspect.
///
/// A small excess is reported at once; one that looks stale needs a second
/// sighting; an absurd one is never trusted.
pub fn classify_oversize(over: bool, looks_stale: bool, was_suspected: bool, absurd: bool) -> (r: (
    bool,
    bool,
))
    ensures
        r.0 == (over && (!looks_stale || (was_suspected && !absurd))),
        r.1 == (over && looks_stale && !was_suspected && !absurd),
{
    if !over {
        (false, false)
    } else if !looks_stale {
        (true, false)
    } else if absurd {
        (false, false)
    } else if was_suspected {
        (true, false)
    } else {
        (false, true)
    }
}

/// Whether the pass that found this is to be repeated.
pub fn should_retry_landing_measurement(
    allow_landing_measurement_retry: bool,
    detection: &SizeViolationDetection,
) -> (r: bool)
    ensures
        r == (allow_landing_measurement_retry && detection@.unsettled()),
{
    proof {
        assert(detection@.inset_artifact_windows.is_empty() ==> detection@.inset_artifact_windows
            =~= Set::empty());
        assert(detection@.suspect_confirmation_windows.is_empty()
            ==> detection@.suspect_confirmation_windows =~= Set::empty());
    }
    allow_landing_measurement_retry && (!detection.inset_artifact_windows.is_empty()
        || !detection.suspect_confirmation_windows.is_empty())
}

/// Whether a classification is reported, and whether it is suspect.
pub open spec fn outcome(classification: AxisSizeClassification) -> (bool, bool) {
    match classification {
        AxisSizeClassification::Violation { record, suspect } => (record, suspect),
        _ => (false, false),
    }
}

/// Whether a classification is reported, and whether it is suspect.
pub fn classification_outcome(classification: &AxisSizeClassification) -> (r: (bool, bool))
    ensures
        r == outcome(*classification),
{
    match classification {
        AxisSizeClassification::Violation { record, suspect } => (*record, *suspect),
        AxisSizeClassification::Fits | AxisSizeClassification::InsetArtifact => (false, false),
    }
}

/// The suspicion recorded against a window.
pub open spec fn suspicion(suspects: SuspectMap, id: WindowId) -> (bool, bool) {
    if suspects.contains_key(id) {
        suspects[id]
    } else {
        (false, false)
    }
}

/// The meaning of a measurement, given the suspicion against its window.
pub open spec fn meaning(m: WindowSizeMeasurement, allow_retry: bool, was: (bool, bool)) -> ClassifiedSizeMeasurement {
    ClassifiedSizeMeasurement {
        measurement: m,
        width: axis_meaning(
            m.layout_w as int,
            m.frame_w as int,
            m.visible_w as int,
            allow_retry,
            was.0,
        ),
        height: axis_meaning(
            m.layout_h as int,
            m.frame_h as int,
            m.visible_h as int,
            allow_retry,
            was.1,
        ),
    }
}

/// The suspicion after a measurement: that of the measurement itself.
pub open spec fn updated_suspects(
    suspects: SuspectMap,
    m: WindowSizeMeasurement,
    allow_retry: bool,
) -> SuspectMap {
    let c = meaning(m, allow_retry, suspicion(suspects, m.window_id));
    let marks = (outcome(c.width).1, outcome(c.height).1);
    if marks.0 || marks.1 {
        suspects.insert(m.window_id, marks)
    } else {
        suspects.remove(m.window_id)
    }
}

/// The suspicion after several measurements, taken in order.
pub open spec fn suspects_after(
    suspects: SuspectMap,
    measurements: Seq<WindowSizeMeasurement>,
    allow_retry: bool,
) -> SuspectMap
    decreases measurements.len(),
{
    if measurements.len() == 0 {
        suspects
    } else {
        updated_suspects(
            suspects_after(suspects, measurements.drop_last(), allow_retry),
            measurements.last(),
            allow_retry,
        )
    }
}

/// The meaning of each of several measurements: each is judged under the
/// suspicion that the earlier ones left.
pub open spec fn meanings(
    suspects: SuspectMap,
    measurements: Seq<WindowSizeMeasurement>,
    allow_retry: bool,
) -> Seq<ClassifiedSizeMeasurement> {
    Seq::new(
        measurements.len(),
        |i: int|
            meaning(
                measurements[i],
                allow_retry,
                suspicion(
                    suspects_after(suspects, measurements.take(i), allow_retry),
                    measurements[i].window_id,
                ),
            ),
    )
}

/// Judge measurements in order, updating the suspicion after each.
pub fn classify_measurements_and_update_suspects(
    measurements: &[WindowSizeMeasurement],
    allow_landing_measurement_retry: bool,
    suspects: &mut Suspects,
) -> (classified: Vec<ClassifiedSizeMeasurement>)
    requires
        forall|i: int|
            0 <= i < measurements@.len() ==> representable(
                #[trigger] measurements@[i],
                allow_landing_measurement_retry,
            ),
    ensures
        classified@ == meanings(old(suspects)@, measurements@, allow_landing_measurement_retry),
        final(suspects)@ == suspects_after(
            old(suspects)@,
            measurements@,
            allow_landing_measurement_retry,
        ),
{
    let ghost before = suspects@;
    let ghost allow = allow_landing_measurement_retry;
    let mut classified: Vec<ClassifiedSizeMeasurement> = Vec::new();
    for i in 0..measurements.len()
        invariant
            allow == allow_landing_measurement_retry,
            forall|k: int|
                0 <= k < measurements@.len() ==> representable(
                    #[trigger] measurements@[k],
                    allow_landing_measurement_retry,
                ),
            suspects@ == suspects_after(before, measurements@.take(i as int), allow),
            classified@.len() == i,
            forall|k: int|
                0 <= k < i ==> #[trigger] classified@[k] == meanings(before, measurements@, allow)[k],
    {
        let measurement = measurements[i];
        let (was_w, was_h) = match suspects.get(&measurement.window_id) {
            Some(marks) => *marks,
            None => (false, false),
        };
        let width = classify_size_axis(
            measurement.layout_w,
            measurement.frame_w,
            measurement.visible_w,
            allow_landing_measurement_retry,
            was_w,
        );
        let height = classify_size_axis(
            measurement.layout_h,
            measurement.frame_h,
            measurement.visible_h,
            allow_landing_measurement_retry,
            was_h,
        );
        let (_, suspect_w) = classification_outcome(&width);
        let (_, suspect_h) = classification_outcome(&height);
        if suspect_w || suspect_h {
            suspects.insert(measurement.window_id, (suspect_w, suspect_h));
        } else {
            suspects.remove(&measurement.window_id);
        }
        classified.push(ClassifiedSizeMeasurement { measurement, width, height });
        assert(measurements@.take(i + 1).drop_last() =~= measurements@.take(i as int));
    }
    assert(measurements@.take(measurements@.len() as int) =~= measurements@);
    classified
}

/// A detection with one axis of one window added: a reported size is appended
/// to the violations of its axis, a suspect one asks for confirmation.
pub open spec fn with_axis(
    d: Detection,
    id: WindowId,
    visible: i32,
    classification: AxisSizeClassification,
    is_width: bool,
) -> Detection {
    let (record, suspect) = outcome(classification);
    if record {
        Detection {
            violating_windows: d.violating_windows.insert(id),
            width_violations: if is_width {
                d.width_violations.push(WidthViolation { window_id: id, min_width: visible })
            } else {
                d.width_violations
            },
            height_violations: if is_width {
                d.height_violations
            } else {
                d.height_violations.push(HeightViolation { window_id: id, min_height: visible })
            },
            ..d
        }
    } else if suspect {
        Detection { suspect_confirmation_windows: d.suspect_confirmation_windows.insert(id), ..d }
    } else {
        d
    }
}

/// Either axis shows an excess within what was asked of the frame.
pub open spec fn shows_artifact(m: WindowSizeMeasurement) -> bool {
    ||| oversize(m.layout_w as int, m.visible_w as int) && within_frame(
        m.frame_w as int,
        m.visible_w as int,
    )
    ||| oversize(m.layout_h as int, m.visible_h as int) && within_frame(
        m.frame_h as int,
        m.visible_h as int,
    )
}

/// A detection with one judged measurement added.
pub open spec fn with_measurement(d: Detection, c: ClassifiedSizeMeasurement, allow_retry: bool) -> Detection {
    let m = c.measurement;
    let marked = if allow_retry && shows_artifact(m) {
        Detection { inset_artifact_windows: d.inset_artifact_windows.insert(m.window_id), ..d }
    } else {
        d
    };
    with_axis(
        with_axis(marked, m.window_id, m.visible_w, c.width, true),
        m.window_id,
        m.visible_h,
        c.height,
        false,
    )
}

/// What several judged measurements amount to.
pub open spec fn detected(classified: Seq<ClassifiedSizeMeasurement>, allow_retry: bool) -> Detection
    decreases classified.len(),
{
    if classified.len() == 0 {
        Detection::none()
    } else {
        with_measurement(
            detected(classified.drop_last(), allow_retry),
            classified.last(),
            allow_retry,
        )
    }
}

/// Suspicion from two sources together: an axis is suspect when either says
/// so. A window of `found` with no suspect axis adds nothing.
pub open spec fn merged_suspects(kept: SuspectMap, found: SuspectMap) -> SuspectMap {
    Map::new(
        |id: WindowId|
            kept.contains_key(id) || suspicion(found, id).0 || suspicion(found, id).1,
        |id: WindowId|
            (
                suspicion(kept, id).0 || suspicion(found, id).0,
                suspicion(kept, id).1 || suspicion(found, id).1,
            ),
    )
}

/// What a round of measurements finds under a given suspicion.
pub open spec fn detection_of(
    suspects: SuspectMap,
    measurements: Seq<WindowSizeMeasurement>,
    allow_retry: bool,
) -> Detection {
    detected(meanings(suspects, measurements, allow_retry), allow_retry)
}

/// The suspicion that a round of measurements leaves behind. A round that is
/// to be repeated only ever adds suspicion; a final one replaces it.
pub open spec fn suspects_left(
    suspects: SuspectMap,
    measurements: Seq<WindowSizeMeasurement>,
    allow_retry: bool,
) -> SuspectMap {
    let found = suspects_after(suspects, measurements, allow_retry);
    if allow_retry && detection_of(suspects, measurements, allow_retry).unsettled() {
        merged_suspects(suspects, found)
    } else {
        found
    }
}

/// Judge a round of measurements: what to report, what to confirm, and which
/// insets are stale.
pub fn detect_size_violations_from_measurements(
    measurements: &[WindowSizeMeasurement],
    allow_landing_measurement_retry: bool,
    suspects: &mut Suspects,
) -> (detection: SizeViolationDetection)
    requires
        forall|i: int|
            0 <= i < measurements@.len() ==> representable(
                #[trigger] measurements@[i],
                allow_landing_measurement_retry,
            ),
    ensures
        detection@ == detection_of(
            old(suspects)@,
            measurements@,
            allow_landing_measurement_retry,
        ),
        final(suspects)@ == suspects_left(
            old(suspects)@,
            measurements@,
            allow_landing_measurement_retry,
        ),
{
    let ghost before = suspects@;
    let ghost allow = allow_landing_measurement_retry;
    let mut candidate_suspects = suspects.clone();
    let classified = classify_measurements_and_update_suspects(
        measurements,
        allow_landing_measurement_retry,
        &mut candidate_suspects,
    );
    let mut detection = SizeViolationDetection::new();
    for i in 0..classified.len()
        invariant
            allow == allow_landing_measurement_retry,
            classified@.len() == measurements@.len(),
            classified@ == meanings(before, measurements@, allow),
            forall|k: int|
                0 <= k < measurements@.len() ==> representable(
                    #[trigger] measurements@[k],
                    allow_landing_measurement_retry,
                ),
            detection@ == detected(classified@.take(i as int), allow),
    {
        let c = classified[i];
        let m = c.measurement;
        assert(classified@.take(i + 1).drop_last() =~= classified@.take(i as int));
        let ghost earlier = detection@;
        if allow_landing_measurement_retry && (is_inset_artifact(m.layout_w, m.frame_w, m.visible_w)
            || is_inset_artifact(m.layout_h, m.frame_h, m.visible_h)) {
            detection.inset_artifact_windows.insert(m.window_id);
        }
        report_axis_size_outcome(&mut detection, m.window_id, m.visible_w, &c.width, true);
        report_axis_size_outcome(&mut detection, m.window_id, m.visible_h, &c.height, false);
    }
    assert(classified@.take(classified@.len() as int) =~= classified@);
    if should_retry_landing_measurement(allow_landing_measurement_retry, &detection) {
        merge_suspects(suspects, &candidate_suspects);
    } else {
        *suspects = candidate_suspects;
    }
    detection
}

/// Add the suspicion of `found` to that already kept.
fn merge_suspects(kept: &mut Suspects, found: &Suspects)
    ensures
        final(kept)@ == merged_suspects(old(kept)@, found@),
{
    let ghost before = kept@;
    let order = list_keys(found);
    for i in 0..order.len()
        invariant
            forall|k: int| 0 <= k < order@.len() ==> #[trigger] found@.contains_key(order@[k]),
            kept@ =~= merged_suspects(before, found@.restrict(order@.take(i as int).to_set())),
    {
        let id = order[i];
        let ghost earlier = order@.take(i as int).to_set();
        let ghost later = order@.take(i + 1).to_set();
        proof {
            broadcast use vstd::seq_lib::lemma_seq_contains_after_push;
            assert(order@.take(i + 1) == order@.take(i as int).push(id));
            assert(later =~= earlier.insert(id));
        }
        let (width_suspect, height_suspect) = match found.get(&id) {
            Some(marks) => *marks,
            None => (false, false),
        };
        if width_suspect || height_suspect {
            let existing = match kept.get(&id) {
                Some(marks) => *marks,
                None => (false, false),
            };
            kept.insert(id, (existing.0 || width_suspect, existing.1 || height_suspect));
        }
        assert(kept@ =~= merged_suspects(before, found@.restrict(later)));
    }
    proof {
        assert(order@.take(order@.len() as int) == order@);
    }
}

/// Add one axis of one window to a detection.
pub fn report_axis_size_outcome(
    detection: &mut SizeViolationDetection,
    window_id: WindowId,
    visible_size: i32,
    classification: &AxisSizeClassification,
    is_width: bool,
)
    ensures
        final(detection)@ == with_axis(
            old(detection)@,
            window_id,
            visible_size,
            *classification,
            is_width,
        ),
{
    let (record, suspect) = classification_outcome(classification);
    if record {
        detection.violating_windows.insert(window_id);
        if is_width {
            detection.width_violations.push(
                WidthViolation { window_id, min_width: visible_size },
            );
        } else {
            detection.height_violations.push(
                HeightViolation { window_id, min_height: visible_size },
            );
        }
    } else if suspect {
        detection.suspect_confirmation_windows.insert(window_id);
    }
}

/// Drop a window's suspicion, so that a recycled handle starts fresh.
pub fn clear_suspected_oversize(suspects: &mut Suspects, window_id: WindowId)
    ensures
        final(suspects)@ == old(suspects)@.remove(window_id),
{
    suspects.remove(&window_id);
}

} // verus!
