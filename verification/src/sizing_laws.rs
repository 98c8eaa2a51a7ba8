//! What minimum-size detection guarantees over one and over two rounds.

use vstd::prelude::*;

use crate::sizing::absurd;
use crate::sizing::axis_meaning;
use crate::sizing::detected;
use crate::sizing::detection_of;
use crate::sizing::looks_stale;
use crate::sizing::meaning;
use crate::sizing::meanings;
use crate::sizing::outcome;
use crate::sizing::oversize;
use crate::sizing::shows_artifact;
use crate::sizing::suspects_after;
use crate::sizing::suspects_left;
use crate::sizing::suspicion;
use crate::sizing::updated_suspects;
use crate::sizing::AxisSizeClassification;
use crate::sizing::ClassifiedSizeMeasurement;
use crate::sizing::Detection;
use crate::sizing::SuspectMap;
use crate::sizing::WindowSizeMeasurement;
use crate::types::HeightViolation;
use crate::types::WidthViolation;
use crate::types::WindowId;

verus! {

/// No two measurements are of the same window.
pub open spec fn distinct_windows(measurements: Seq<WindowSizeMeasurement>) -> bool {
    forall|i: int, j: int|
        0 <= i < j < measurements.len() ==> (#[trigger] measurements[i]).window_id != (
        #[trigger] measurements[j]).window_id
}

/// An absurd measurement is never reported and never suspect, whatever was
/// suspected before.
pub proof fn law_absurd_is_never_trusted(
    layout: int,
    frame: int,
    visible: int,
    allow_retry: bool,
    was_suspected: bool,
)
    requires
        absurd(layout, visible),
    ensures
        outcome(axis_meaning(layout, frame, visible, allow_retry, was_suspected)) == (false, false),
{
}

/// An excess that looks stale is not reported on first sighting.
pub proof fn law_stale_looking_excess_needs_confirmation(
    layout: int,
    frame: int,
    visible: int,
    allow_retry: bool,
)
    requires
        looks_stale(layout, visible),
    ensures
        !outcome(axis_meaning(layout, frame, visible, allow_retry, false)).0,
{
}

/// The frame request decides only between an inset artifact and a violation:
/// the thresholds for confirmation and absurdity do not depend on it.
pub proof fn law_frame_does_not_widen_thresholds(
    layout: int,
    frame: int,
    other_frame: int,
    visible: int,
    was_suspected: bool,
)
    ensures
        axis_meaning(layout, frame, visible, false, was_suspected) == axis_meaning(
            layout,
            other_frame,
            visible,
            false,
            was_suspected,
        ),
        axis_meaning(layout, frame, visible, true, was_suspected)
            != AxisSizeClassification::InsetArtifact ==> axis_meaning(
            layout,
            frame,
            visible,
            true,
            was_suspected,
        ) == axis_meaning(layout, other_frame, visible, false, was_suspected),
{
}

/// The authoritative pass never blames the insets: every excess that a
/// repeatable pass took for an inset artifact is then judged as a size.
pub proof fn law_authoritative_pass_finds_no_artifacts(
    suspects: SuspectMap,
    measurements: Seq<WindowSizeMeasurement>,
)
    ensures
        detection_of(suspects, measurements, false).inset_artifact_windows == Set::<
            WindowId,
        >::empty(),
{
    lemma_no_artifacts(meanings(suspects, measurements, false));
}

proof fn lemma_no_artifacts(classified: Seq<ClassifiedSizeMeasurement>)
    ensures
        detected(classified, false).inset_artifact_windows == Set::<WindowId>::empty(),
    decreases classified.len(),
{
    if classified.len() > 0 {
        lemma_no_artifacts(classified.drop_last());
    }
}

/// One of several judged measurements is of this window, with this width,
/// and is reported.
pub open spec fn reports_width(
    classified: Seq<ClassifiedSizeMeasurement>,
    violation: WidthViolation,
) -> bool {
    exists|i: int|
        0 <= i < classified.len() && outcome((#[trigger] classified[i]).width).0
            && classified[i].measurement.window_id == violation.window_id
            && classified[i].measurement.visible_w == violation.min_width
}

/// One of several judged measurements is of this window, with this height,
/// and is reported.
pub open spec fn reports_height(
    classified: Seq<ClassifiedSizeMeasurement>,
    violation: HeightViolation,
) -> bool {
    exists|i: int|
        0 <= i < classified.len() && outcome((#[trigger] classified[i]).height).0
            && classified[i].measurement.window_id == violation.window_id
            && classified[i].measurement.visible_h == violation.min_height
}

/// One of several judged measurements is of this window and satisfies `p`.
pub open spec fn some_measured(
    classified: Seq<ClassifiedSizeMeasurement>,
    id: WindowId,
    p: spec_fn(ClassifiedSizeMeasurement) -> bool,
) -> bool {
    exists|i: int|
        0 <= i < classified.len() && (#[trigger] classified[i]).measurement.window_id == id && p(
            classified[i],
        )
}

/// What a detection holds, in terms of the single measurements: every list
/// and set names exactly the windows with a measurement of the right kind.
pub proof fn law_detection_is_exact(classified: Seq<ClassifiedSizeMeasurement>, allow_retry: bool)
    ensures
        ({
            let d = detected(classified, allow_retry);
            &&& forall|v: WidthViolation| #[trigger]
                d.width_violations.contains(v) <==> reports_width(classified, v)
            &&& forall|v: HeightViolation| #[trigger]
                d.height_violations.contains(v) <==> reports_height(classified, v)
            &&& forall|id: WindowId| #[trigger]
                d.violating_windows.contains(id) <==> some_measured(
                    classified,
                    id,
                    |c: ClassifiedSizeMeasurement| outcome(c.width).0 || outcome(c.height).0,
                )
            &&& forall|id: WindowId| #[trigger]
                d.suspect_confirmation_windows.contains(id) <==> some_measured(
                    classified,
                    id,
                    |c: ClassifiedSizeMeasurement|
                        (!outcome(c.width).0 && outcome(c.width).1) || (!outcome(c.height).0
                            && outcome(c.height).1),
                )
            &&& forall|id: WindowId| #[trigger]
                d.inset_artifact_windows.contains(id) <==> some_measured(
                    classified,
                    id,
                    |c: ClassifiedSizeMeasurement| allow_retry && shows_artifact(c.measurement),
                )
        }),
    decreases classified.len(),
{
    broadcast use vstd::seq_lib::lemma_seq_contains_after_push;

    let d = detected(classified, allow_retry);
    if classified.len() == 0 {
        assert(d == Detection::none());
    } else {
        let rest = classified.drop_last();
        let last = classified.last();
        let n = rest.len() as int;
        law_detection_is_exact(rest, allow_retry);
        let e = detected(rest, allow_retry);
        assert forall|v: WidthViolation| #[trigger]
            d.width_violations.contains(v) <==> reports_width(classified, v) by {
            if reports_width(rest, v) {
                let i = choose|i: int|
                    0 <= i < rest.len() && outcome((#[trigger] rest[i]).width).0
                        && rest[i].measurement.window_id == v.window_id
                        && rest[i].measurement.visible_w == v.min_width;
                assert(classified[i] == rest[i]);
            }
            if reports_width(classified, v) {
                let i = choose|i: int|
                    0 <= i < classified.len() && outcome((#[trigger] classified[i]).width).0
                        && classified[i].measurement.window_id == v.window_id
                        && classified[i].measurement.visible_w == v.min_width;
                if i < n {
                    assert(rest[i] == classified[i]);
                }
            }
            assert(classified[n] == last);
            assert(e.width_violations.contains(v) <==> reports_width(rest, v));
            assert(d.width_violations.contains(v) <==> e.width_violations.contains(v) || (outcome(
                last.width,
            ).0 && last.measurement.window_id == v.window_id && last.measurement.visible_w
                == v.min_width));
        }
        assert forall|v: HeightViolation| #[trigger]
            d.height_violations.contains(v) <==> reports_height(classified, v) by {
            if reports_height(rest, v) {
                let i = choose|i: int|
                    0 <= i < rest.len() && outcome((#[trigger] rest[i]).height).0
                        && rest[i].measurement.window_id == v.window_id
                        && rest[i].measurement.visible_h == v.min_height;
                assert(classified[i] == rest[i]);
            }
            if reports_height(classified, v) {
                let i = choose|i: int|
                    0 <= i < classified.len() && outcome((#[trigger] classified[i]).height).0
                        && classified[i].measurement.window_id == v.window_id
                        && classified[i].measurement.visible_h == v.min_height;
                if i < n {
                    assert(rest[i] == classified[i]);
                }
            }
            assert(classified[n] == last);
            assert(e.height_violations.contains(v) <==> reports_height(rest, v));
            assert(d.height_violations.contains(v) <==> e.height_violations.contains(v) || (outcome(
                last.height,
            ).0 && last.measurement.window_id == v.window_id && last.measurement.visible_h
                == v.min_height));
        }
        assert forall|id: WindowId, p: spec_fn(ClassifiedSizeMeasurement) -> bool| #[trigger]
            some_measured(classified, id, p) <==> some_measured(rest, id, p) || (
            last.measurement.window_id == id && p(last)) by {
            if some_measured(rest, id, p) {
                let i = choose|i: int|
                    0 <= i < rest.len() && (#[trigger] rest[i]).measurement.window_id == id && p(
                        rest[i],
                    );
                assert(classified[i] == rest[i]);
            }
            if some_measured(classified, id, p) {
                let i = choose|i: int|
                    0 <= i < classified.len() && (#[trigger] classified[i]).measurement.window_id
                        == id && p(classified[i]);
                if i < n {
                    assert(rest[i] == classified[i]);
                }
            }
            assert(classified[n] == last);
        }
    }
}

/// A round that is to be repeated never loses a suspicion, and never drops a
/// window that was suspect: the authoritative round still sees it.
pub proof fn law_repeated_round_keeps_suspicion(
    suspects: SuspectMap,
    measurements: Seq<WindowSizeMeasurement>,
    id: WindowId,
)
    requires
        detection_of(suspects, measurements, true).unsettled(),
    ensures
        ({
            let left = suspects_left(suspects, measurements, true);
            &&& suspects.contains_key(id) ==> left.contains_key(id)
            &&& suspicion(suspects, id).0 ==> suspicion(left, id).0
            &&& suspicion(suspects, id).1 ==> suspicion(left, id).1
        }),
{
}

/// The suspicion left against a window that was measured once, by an earlier
/// or by no later measurement, is that of the measurement.
proof fn lemma_suspicion_after(
    suspects: SuspectMap,
    measurements: Seq<WindowSizeMeasurement>,
    allow_retry: bool,
    i: int,
)
    requires
        distinct_windows(measurements),
        0 <= i < measurements.len(),
    ensures
        ({
            let c = meaning(
                measurements[i],
                allow_retry,
                suspicion(suspects, measurements[i].window_id),
            );
            &&& meanings(suspects, measurements, allow_retry)[i] == c
            &&& suspicion(
                suspects_after(suspects, measurements, allow_retry),
                measurements[i].window_id,
            ) == (outcome(c.width).1, outcome(c.height).1)
            &&& suspects_after(suspects, measurements, allow_retry).contains_key(
                measurements[i].window_id,
            ) == (outcome(c.width).1 || outcome(c.height).1)
        }),
{
    lemma_unmeasured(suspects, measurements.take(i), allow_retry, measurements[i].window_id);
    lemma_later_measurements(suspects, measurements, allow_retry, i, measurements.len() as int);
    assert(measurements.take(measurements.len() as int) =~= measurements);
}

/// Measurements of other windows leave a window's suspicion alone.
proof fn lemma_unmeasured(
    suspects: SuspectMap,
    measurements: Seq<WindowSizeMeasurement>,
    allow_retry: bool,
    id: WindowId,
)
    requires
        forall|k: int| 0 <= k < measurements.len() ==> (#[trigger] measurements[k]).window_id != id,
    ensures
        suspects_after(suspects, measurements, allow_retry).contains_key(id)
            == suspects.contains_key(id),
        suspicion(suspects_after(suspects, measurements, allow_retry), id) == suspicion(
            suspects,
            id,
        ),
    decreases measurements.len(),
{
    if measurements.len() > 0 {
        let rest = measurements.drop_last();
        assert forall|k: int| 0 <= k < rest.len() implies (#[trigger] rest[k]).window_id != id by {
            assert(rest[k] == measurements[k]);
        }
        lemma_unmeasured(suspects, rest, allow_retry, id);
        assert(measurements[measurements.len() - 1].window_id != id);
    }
}

/// The suspicion against the `i`-th window after the first `upto`
/// measurements, for `upto` past `i`.
proof fn lemma_later_measurements(
    suspects: SuspectMap,
    measurements: Seq<WindowSizeMeasurement>,
    allow_retry: bool,
    i: int,
    upto: int,
)
    requires
        distinct_windows(measurements),
        0 <= i < upto <= measurements.len(),
    ensures
        ({
            let at = suspects_after(suspects, measurements.take(i), allow_retry);
            let after = suspects_after(suspects, measurements.take(upto), allow_retry);
            let stepped = updated_suspects(at, measurements[i], allow_retry);
            let id = measurements[i].window_id;
            &&& after.contains_key(id) == stepped.contains_key(id)
            &&& suspicion(after, id) == suspicion(stepped, id)
        }),
    decreases upto,
{
    let before = measurements.take(upto);
    assert(before.drop_last() =~= measurements.take(upto - 1));
    if upto == i + 1 {
    } else {
        lemma_later_measurements(suspects, measurements, allow_retry, i, upto - 1);
        assert(measurements[i].window_id != measurements[upto - 1].window_id);
    }
}

/// An excess that looked stale in a repeatable round, measured again unchanged
/// in the authoritative round, is reported and no longer suspect.
pub proof fn law_reproduced_excess_is_reported(
    suspects: SuspectMap,
    first: Seq<WindowSizeMeasurement>,
    second: Seq<WindowSizeMeasurement>,
    i: int,
    j: int,
)
    requires
        distinct_windows(first),
        distinct_windows(second),
        0 <= i < first.len(),
        0 <= j < second.len(),
        first[i] == second[j],
    ensures
        ({
            let left = suspects_left(suspects, first, true);
            let once = meanings(suspects, first, true)[i];
            let twice = meanings(left, second, false)[j];
            &&& outcome(once.width).1 ==> outcome(twice.width) == (true, false)
            &&& outcome(once.height).1 ==> outcome(twice.height) == (true, false)
        }),
{
    let left = suspects_left(suspects, first, true);
    lemma_suspicion_after(suspects, first, true, i);
    lemma_suspicion_after(left, second, false, j);
    law_detection_is_exact(meanings(suspects, first, true), true);
    let once = meanings(suspects, first, true)[i];
    if outcome(once.width).1 || outcome(once.height).1 {
        assert(once.measurement.window_id == first[i].window_id);
        assert(detection_of(suspects, first, true).suspect_confirmation_windows.contains(
            first[i].window_id,
        ));
        assert(detection_of(suspects, first, true).suspect_confirmation_windows != Set::<
            WindowId,
        >::empty());
    }
}

/// A stale reading that does not reproduce is dropped: when the authoritative
/// round finds that the window fits, nothing is reported of it and no
/// suspicion stays.
pub proof fn law_unreproduced_excess_is_dropped(
    suspects: SuspectMap,
    second: Seq<WindowSizeMeasurement>,
    j: int,
)
    requires
        distinct_windows(second),
        0 <= j < second.len(),
        !oversize(second[j].layout_w as int, second[j].visible_w as int),
        !oversize(second[j].layout_h as int, second[j].visible_h as int),
    ensures
        !detection_of(suspects, second, false).violating_windows.contains(second[j].window_id),
        !suspects_left(suspects, second, false).contains_key(second[j].window_id),
{
    lemma_suspicion_after(suspects, second, false, j);
    let classified = meanings(suspects, second, false);
    law_detection_is_exact(classified, false);
    let reported = |c: ClassifiedSizeMeasurement| outcome(c.width).0 || outcome(c.height).0;
    let id = second[j].window_id;
    if some_measured(classified, id, reported) {
        let k = choose|k: int|
            0 <= k < classified.len() && (#[trigger] classified[k]).measurement.window_id == id
                && reported(classified[k]);
        assert(classified[k].measurement == second[k]);
        assert(k == j);
    }
}

/// The excess of one axis lies within what was asked of the frame: it shows
/// more than two pixels over the layout, and at most two over the frame.
pub open spec fn blames_insets(layout: i32, frame: i32, visible: i32) -> bool {
    visible > layout + 2 && visible <= frame + 2
}

/// The excess of one axis is reported: it shows more than two pixels over the
/// layout and, if the layout asked for anything, at most half again as much, or
/// at most four times as much if it was suspect before.
pub open spec fn reported(layout: i32, visible: i32, suspected: bool) -> bool {
    &&& visible > layout + 2
    &&& layout <= 0 || 2 * visible <= 3 * layout || (suspected && visible <= 4 * layout)
}

/// The excess of one axis is to be confirmed: more than half again what the
/// layout asked, at most four times as much, and not suspect before.
pub open spec fn to_confirm(layout: i32, visible: i32, suspected: bool) -> bool {
    &&& visible > layout + 2
    &&& layout > 0 && 2 * visible > 3 * layout && visible <= 4 * layout
    &&& !suspected
}

/// What one axis of a measurement means, by its sizes.
pub proof fn law_an_axis_is_judged_by_its_sizes(
    layout: i32,
    frame: i32,
    visible: i32,
    allow_retry: bool,
    suspected: bool,
)
    ensures
        ({
            let meant = axis_meaning(
                layout as int,
                frame as int,
                visible as int,
                allow_retry,
                suspected,
            );
            let blamed = allow_retry && blames_insets(layout, frame, visible);
            &&& meant is Fits <==> visible <= layout + 2
            &&& meant is InsetArtifact <==> blamed
            &&& meant matches AxisSizeClassification::Violation { record, suspect } ==> {
                &&& record <==> reported(layout, visible, suspected)
                &&& suspect <==> to_confirm(layout, visible, suspected)
            }
            &&& outcome(meant).0 <==> !blamed && reported(layout, visible, suspected)
            &&& outcome(meant).1 <==> !blamed && to_confirm(layout, visible, suspected)
        }),
{
}

/// What a round of measurements finds of one window, if each window was
/// measured once: which of its axes are reported, with what size, whether it is
/// to be measured again, whether its insets are blamed, and what stays suspect.
pub proof fn law_a_measurement_is_judged_by_its_sizes(
    suspects: SuspectMap,
    measurements: Seq<WindowSizeMeasurement>,
    allow_retry: bool,
    i: int,
    size: i32,
)
    requires
        distinct_windows(measurements),
        0 <= i < measurements.len(),
    ensures
        ({
            let m = measurements[i];
            let id = m.window_id;
            let d = detection_of(suspects, measurements, allow_retry);
            let (sw, sh) = if suspects.contains_key(id) {
                suspects[id]
            } else {
                (false, false)
            };
            let bw = allow_retry && blames_insets(m.layout_w, m.frame_w, m.visible_w);
            let bh = allow_retry && blames_insets(m.layout_h, m.frame_h, m.visible_h);
            let rw = !bw && reported(m.layout_w, m.visible_w, sw);
            let rh = !bh && reported(m.layout_h, m.visible_h, sh);
            let cw = !bw && to_confirm(m.layout_w, m.visible_w, sw);
            let ch = !bh && to_confirm(m.layout_h, m.visible_h, sh);
            &&& d.width_violations.contains(WidthViolation { window_id: id, min_width: size })
                <==> rw && size == m.visible_w
            &&& d.height_violations.contains(HeightViolation { window_id: id, min_height: size })
                <==> rh && size == m.visible_h
            &&& d.violating_windows.contains(id) <==> rw || rh
            &&& d.suspect_confirmation_windows.contains(id) <==> cw || ch
            &&& d.inset_artifact_windows.contains(id) <==> bw || bh
            &&& !(allow_retry && d.unsettled()) ==> {
                let left = suspects_left(suspects, measurements, allow_retry);
                &&& left.contains_key(id) <==> cw || ch
                &&& left.contains_key(id) ==> left[id] == (cw, ch)
            }
            &&& allow_retry && d.unsettled() ==> {
                let left = suspects_left(suspects, measurements, allow_retry);
                &&& left.contains_key(id) <==> suspects.contains_key(id) || cw || ch
                &&& left.contains_key(id) ==> left[id] == (sw || cw, sh || ch)
            }
        }),
{
    let m = measurements[i];
    let id = m.window_id;
    let was = suspicion(suspects, id);
    let classified = meanings(suspects, measurements, allow_retry);
    lemma_suspicion_after(suspects, measurements, allow_retry, i);
    law_detection_is_exact(classified, allow_retry);
    law_an_axis_is_judged_by_its_sizes(m.layout_w, m.frame_w, m.visible_w, allow_retry, was.0);
    law_an_axis_is_judged_by_its_sizes(m.layout_h, m.frame_h, m.visible_h, allow_retry, was.1);
    let c = classified[i];
    assert forall|k: int| 0 <= k < classified.len() && (
    #[trigger] classified[k]).measurement.window_id == id implies k == i by {
        assert(classified[k].measurement == measurements[k]);
    }
    let width = WidthViolation { window_id: id, min_width: size };
    let height = HeightViolation { window_id: id, min_height: size };
    assert(reports_width(classified, width) <==> outcome(c.width).0 && size == m.visible_w);
    assert(reports_height(classified, height) <==> outcome(c.height).0 && size == m.visible_h);
    let recorded = |c: ClassifiedSizeMeasurement| outcome(c.width).0 || outcome(c.height).0;
    let doubted = |c: ClassifiedSizeMeasurement|
        (!outcome(c.width).0 && outcome(c.width).1) || (!outcome(c.height).0 && outcome(
            c.height,
        ).1);
    let blamed = |c: ClassifiedSizeMeasurement| allow_retry && shows_artifact(c.measurement);
    assert(some_measured(classified, id, recorded) <==> recorded(c));
    assert(some_measured(classified, id, doubted) <==> doubted(c));
    assert(some_measured(classified, id, blamed) <==> blamed(c));
}

/// A round of measurements blames nobody that it did not measure, and leaves
/// what was suspected of others as it was.
pub proof fn law_unmeasured_windows_are_not_judged(
    suspects: SuspectMap,
    measurements: Seq<WindowSizeMeasurement>,
    allow_retry: bool,
    id: WindowId,
    size: i32,
)
    requires
        forall|k: int| 0 <= k < measurements.len() ==> (#[trigger] measurements[k]).window_id != id,
    ensures
        ({
            let d = detection_of(suspects, measurements, allow_retry);
            let left = suspects_left(suspects, measurements, allow_retry);
            &&& !d.width_violations.contains(WidthViolation { window_id: id, min_width: size })
            &&& !d.height_violations.contains(HeightViolation { window_id: id, min_height: size })
            &&& !d.violating_windows.contains(id)
            &&& !d.suspect_confirmation_windows.contains(id)
            &&& !d.inset_artifact_windows.contains(id)
            &&& left.contains_key(id) == suspects.contains_key(id)
            &&& suspects.contains_key(id) ==> left[id] == suspects[id]
        }),
{
    let classified = meanings(suspects, measurements, allow_retry);
    law_detection_is_exact(classified, allow_retry);
    lemma_unmeasured(suspects, measurements, allow_retry, id);
    assert forall|k: int| 0 <= k < classified.len() implies (
    #[trigger] classified[k]).measurement.window_id != id by {
        assert(classified[k].measurement == measurements[k]);
    }
}

/// A round is unsettled exactly if some window's insets are blamed or some
/// window is to be measured again.
pub proof fn law_unsettled_rounds_have_a_reason(d: Detection)
    ensures
        d.unsettled() <==> exists|id: WindowId|
            #![trigger d.inset_artifact_windows.contains(id)]
            #![trigger d.suspect_confirmation_windows.contains(id)]
            d.inset_artifact_windows.contains(id) || d.suspect_confirmation_windows.contains(id),
{
    if d.inset_artifact_windows != Set::<WindowId>::empty() {
        if forall|id: WindowId| !d.inset_artifact_windows.contains(id) {
            assert(d.inset_artifact_windows =~= Set::empty());
        }
    }
    if d.suspect_confirmation_windows != Set::<WindowId>::empty() {
        if forall|id: WindowId| !d.suspect_confirmation_windows.contains(id) {
            assert(d.suspect_confirmation_windows =~= Set::empty());
        }
    }
}

/// The reported widths are, in order and each once, those of the measurements
/// at the places in the result.
pub proof fn law_reported_widths_keep_the_order(
    classified: Seq<ClassifiedSizeMeasurement>,
    allow_retry: bool,
) -> (from: Seq<int>)
    ensures
        ({
            let list = detected(classified, allow_retry).width_violations;
            &&& from.len() == list.len()
            &&& forall|k: int|
                0 <= k < from.len() ==> 0 <= #[trigger] from[k] < classified.len()
                    && list[k].window_id == classified[from[k]].measurement.window_id
                    && list[k].min_width == classified[from[k]].measurement.visible_w
            &&& forall|k: int, l: int|
                0 <= k < l < from.len() ==> #[trigger] from[k] < #[trigger] from[l]
        }),
    decreases classified.len(),
{
    if classified.len() == 0 {
        Seq::empty()
    } else {
        let rest = classified.drop_last();
        let earlier = law_reported_widths_keep_the_order(rest, allow_retry);
        let list = detected(classified, allow_retry).width_violations;
        let from = if outcome(classified.last().width).0 {
            earlier.push(rest.len() as int)
        } else {
            earlier
        };
        assert forall|k: int| 0 <= k < from.len() implies 0 <= #[trigger] from[k]
            < classified.len() && list[k].window_id == classified[from[k]].measurement.window_id
            && list[k].min_width == classified[from[k]].measurement.visible_w by {
            if k < earlier.len() {
                assert(from[k] == earlier[k]);
                assert(rest[earlier[k]] == classified[earlier[k]]);
            }
        }
        from
    }
}

/// The reported heights are, in order and each once, those of the measurements
/// at the places in the result.
pub proof fn law_reported_heights_keep_the_order(
    classified: Seq<ClassifiedSizeMeasurement>,
    allow_retry: bool,
) -> (from: Seq<int>)
    ensures
        ({
            let list = detected(classified, allow_retry).height_violations;
            &&& from.len() == list.len()
            &&& forall|k: int|
                0 <= k < from.len() ==> 0 <= #[trigger] from[k] < classified.len()
                    && list[k].window_id == classified[from[k]].measurement.window_id
                    && list[k].min_height == classified[from[k]].measurement.visible_h
            &&& forall|k: int, l: int|
                0 <= k < l < from.len() ==> #[trigger] from[k] < #[trigger] from[l]
        }),
    decreases classified.len(),
{
    if classified.len() == 0 {
        Seq::empty()
    } else {
        let rest = classified.drop_last();
        let earlier = law_reported_heights_keep_the_order(rest, allow_retry);
        let list = detected(classified, allow_retry).height_violations;
        let from = if outcome(classified.last().height).0 {
            earlier.push(rest.len() as int)
        } else {
            earlier
        };
        assert forall|k: int| 0 <= k < from.len() implies 0 <= #[trigger] from[k]
            < classified.len() && list[k].window_id == classified[from[k]].measurement.window_id
            && list[k].min_height == classified[from[k]].measurement.visible_h by {
            if k < earlier.len() {
                assert(from[k] == earlier[k]);
                assert(rest[earlier[k]] == classified[earlier[k]]);
            }
        }
        from
    }
}

} // verus!
