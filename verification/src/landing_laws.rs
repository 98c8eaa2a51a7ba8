//! What a pass asks of the windows once their requests are built: who is
//! revealed, moved, found landed, measured and hidden, in terms of the requests
//! themselves.

use vstd::prelude::*;

use crate::action::answers;
use crate::action::WindowAction;
use crate::action::WindowEvent;
use crate::batch::BatchStage;
use crate::cloak::CloakSets;
use crate::entries::awaiting_release;
use crate::entries::measurable;
use crate::entries::nudge_targets;
use crate::entries::returning;
use crate::entries::DeferEntry;
use crate::geometry::ScreenRect;
use crate::insets::published_globally;
use crate::insets::published_locally;
use crate::nudge::Nudge;
use crate::nudge::NudgeStage;
use crate::nudge::NudgeTarget;
use crate::pass::Pass;
use crate::pass::PassPhase;
use crate::sets::lemma_first_from;
use crate::sizing::detection_of;
use crate::sizing::suspects_left;
use crate::state::Shared;
use crate::sync::departed;
use crate::sync::lemma_newly_parked;
use crate::sync::moved_off;
use crate::sync::newly_parked;
use crate::sync::synced;
use crate::types::Visibility;
use crate::types::WindowId;
use crate::types::WindowPlacement;

verus! {

/// Before the moves, every window that is to be visible, that placement holds
/// parked and that the ghost animation does not hide is revealed, in order and
/// without leaving one out.
pub proof fn law_returning_windows_are_revealed(
    pass: Pass,
    shared: Shared,
    event: WindowEvent,
    gone: Seq<WindowId>,
    k: int,
)
    requires
        pass.consistent(),
        0 <= k < pass.entries.len(),
        pass.entries[k].visibility == Visibility::Visible,
        shared.cloaks.placement.contains(pass.entries[k].window_id),
        !shared.cloaks.ghosted.contains(pass.entries[k].window_id),
        pass.phase is Built || (pass.phase matches PassPhase::Revealing(j) && j < k),
    ensures
        ({
            let after = pass.answered(shared, event, gone);
            &&& after.entries == pass.entries
            &&& after.phase matches PassPhase::Revealing(j)
            &&& j <= k
            &&& (pass.phase matches PassPhase::Revealing(i) ==> i < j)
            &&& after.pending() == (WindowAction::Reveal {
                window_id: pass.entries[j as int].window_id,
            })
        }),
{
    let from: int = match pass.phase {
        PassPhase::Revealing(j) => j + 1,
        _ => 0,
    };
    lemma_first_from(pass.entries, |e: DeferEntry| returning(e, shared.cloaks), from);
    assert(returning(pass.entries[k], shared.cloaks));
}

/// No other window is revealed, and when none is left the moves begin: with a
/// batch for all requests, or with none if there are no requests.
pub proof fn law_only_returning_windows_are_revealed(
    pass: Pass,
    shared: Shared,
    event: WindowEvent,
    gone: Seq<WindowId>,
)
    requires
        pass.consistent(),
        pass.phase is Built || pass.phase is Revealing,
    ensures
        ({
            let after = pass.answered(shared, event, gone);
            &&& after.entries == pass.entries
            &&& match after.phase {
                PassPhase::Revealing(j) => {
                    let entry = pass.entries[j as int];
                    &&& j < pass.entries.len()
                    &&& entry.visibility == Visibility::Visible
                    &&& shared.cloaks.placement.contains(entry.window_id)
                    &&& !shared.cloaks.ghosted.contains(entry.window_id)
                },
                PassPhase::Positioning => {
                    &&& after.batch.failed == Set::<WindowId>::empty()
                    &&& pass.entries.len() > 0 ==> after.pending() == (WindowAction::BeginBatch {
                        count: pass.entries.len() as usize,
                    })
                    &&& pass.entries.len() == 0 ==> after.batch.stage is Finished
                        && after.batch.applied == 0
                },
                _ => false,
            }
            &&& pass.shared_after(shared, event) == shared
        }),
{
    let from: int = match pass.phase {
        PassPhase::Revealing(j) => j + 1,
        _ => 0,
    };
    lemma_first_from(pass.entries, |e: DeferEntry| returning(e, shared.cloaks), from);
}

/// The moves are asked for as the requests say, first all in one batch and in
/// order, with the corner, the size and the flags of each request.
pub proof fn law_moves_are_batched_in_order(
    pass: Pass,
    shared: Shared,
    event: WindowEvent,
    gone: Seq<WindowId>,
)
    requires
        pass.consistent(),
        pass.phase is Positioning,
        !(pass.batch.stage is Finished),
        pass.admits(event),
    ensures
        ({
            let after = pass.answered(shared, event, gone);
            let accepted = event == WindowEvent::Accepted(true);
            let n = pass.entries.len();
            let deferred = |p: Pass, i: int| {
                let e = pass.entries[i];
                p.pending() == (WindowAction::DeferPosition {
                    window_id: e.window_id,
                    x: e.x,
                    y: e.y,
                    w: e.w,
                    h: e.h,
                    flags: e.flags,
                })
            };
            let single = |p: Pass, i: int| {
                let e = pass.entries[i];
                p.pending() == (WindowAction::SetPosition {
                    window_id: e.window_id,
                    x: e.x,
                    y: e.y,
                    w: e.w,
                    h: e.h,
                    flags: e.flags,
                })
            };
            &&& after.phase is Positioning && after.entries == pass.entries
            &&& pass.shared_after(shared, event) == shared
            &&& match pass.batch.stage {
                BatchStage::Beginning => if accepted {
                    after.batch.stage == BatchStage::Deferring(0) && deferred(after, 0)
                } else {
                    after.batch.stage == BatchStage::Individually(0) && single(after, 0)
                },
                BatchStage::Deferring(i) => if !accepted {
                    after.batch.stage == BatchStage::Individually(0) && single(after, 0)
                } else if i + 1 < n {
                    after.batch.stage == BatchStage::Deferring((i + 1) as usize) && deferred(
                        after,
                        i + 1,
                    )
                } else {
                    after.pending() == WindowAction::EndBatch
                },
                BatchStage::Ending => if accepted {
                    &&& after.batch.stage is Finished
                    &&& after.batch.applied == n
                    &&& after.batch.failed == Set::<WindowId>::empty()
                } else {
                    after.batch.stage == BatchStage::Individually(0) && single(after, 0)
                },
                BatchStage::Individually(i) => if i + 1 < n {
                    after.batch.stage == BatchStage::Individually((i + 1) as usize) && single(
                        after,
                        i + 1,
                    )
                } else {
                    &&& after.batch.stage is Finished
                    &&& after.batch.applied == n - after.batch.failed.len()
                },
                _ => false,
            }
        }),
{
}

/// A window is remembered as failed exactly if its own move was asked for
/// alone and refused.
pub proof fn law_only_refused_moves_fail(
    pass: Pass,
    shared: Shared,
    event: WindowEvent,
    gone: Seq<WindowId>,
    id: WindowId,
)
    requires
        pass.consistent(),
        pass.phase is Positioning,
        pass.admits(event),
    ensures
        pass.answered(shared, event, gone).batch.failed.contains(id) <==> pass.batch.failed.contains(
            id,
        ) || (event is MoveRefused && (pass.pending() matches WindowAction::SetPosition {
            window_id,
            ..
        } && window_id == id)),
{
}

/// After the moves, the rectangle of every window is queried that is to be
/// visible, did not refuse, and is still held parked by placement, in order and
/// without leaving one out.
pub proof fn law_parked_windows_are_checked_after_the_moves(
    pass: Pass,
    shared: Shared,
    event: WindowEvent,
    gone: Seq<WindowId>,
    k: int,
)
    requires
        pass.consistent(),
        0 <= k < pass.entries.len(),
        pass.entries[k].visibility == Visibility::Visible,
        shared.cloaks.placement.contains(pass.entries[k].window_id),
        !pass.batch.failed.contains(pass.entries[k].window_id),
        (pass.phase is Positioning && pass.batch.stage is Finished) || (
        pass.phase matches PassPhase::Landing(j) && j < k),
    ensures
        ({
            let after = pass.answered(shared, event, gone);
            &&& after.entries == pass.entries && after.batch == pass.batch
            &&& after.phase matches PassPhase::Landing(j)
            &&& j <= k
            &&& (pass.phase matches PassPhase::Landing(i) ==> i < j)
            &&& after.pending() == (WindowAction::QueryRect {
                window_id: pass.entries[j as int].window_id,
            })
        }),
{
    let from: int = match pass.phase {
        PassPhase::Landing(j) => j + 1,
        _ => 0,
    };
    lemma_first_from(
        pass.entries,
        |e: DeferEntry| awaiting_release(e, pass.batch.failed, shared.cloaks),
        from,
    );
    assert(awaiting_release(pass.entries[k], pass.batch.failed, shared.cloaks));
}

/// No other window is checked for having landed.
pub proof fn law_only_parked_windows_are_checked(
    pass: Pass,
    shared: Shared,
    event: WindowEvent,
    gone: Seq<WindowId>,
)
    requires
        pass.consistent(),
        (pass.phase is Positioning && pass.batch.stage is Finished) || pass.phase is Landing,
    ensures
        match pass.answered(shared, event, gone).phase {
            PassPhase::Landing(j) => {
                let entry = pass.entries[j as int];
                &&& j < pass.entries.len()
                &&& entry.visibility == Visibility::Visible
                &&& shared.cloaks.placement.contains(entry.window_id)
                &&& !pass.batch.failed.contains(entry.window_id)
            },
            PassPhase::Landed => true,
            _ => false,
        },
        pass.shared_after(shared, event) == shared,
{
    let from: int = match pass.phase {
        PassPhase::Landing(j) => j + 1,
        _ => 0,
    };
    lemma_first_from(
        pass.entries,
        |e: DeferEntry| awaiting_release(e, pass.batch.failed, shared.cloaks),
        from,
    );
}

/// A window has landed exactly if its rectangle was given and its left and top
/// edges are each at most two pixels from the corner that was asked for.
pub proof fn law_landing_is_judged_by_the_corner(
    pass: Pass,
    shared: Shared,
    event: WindowEvent,
    gone: Seq<WindowId>,
    j: usize,
)
    requires
        pass.consistent(),
        pass.phase == PassPhase::Landing(j),
        pass.admits(event),
    ensures
        ({
            let entry = pass.entries[j as int];
            let landed = event matches WindowEvent::Bounds(Some(rect)) && -2 <= rect.left - entry.x
                <= 2 && -2 <= rect.top - entry.y <= 2;
            pass.answered(shared, event, gone).landed == if landed {
                pass.landed.push(entry.window_id)
            } else {
                pass.landed
            }
        }),
{
}

/// When the landed windows are released, placement gives up exactly those that
/// it held and that landed. Then the first visible window has its cloak
/// committed.
pub proof fn law_landed_windows_are_released(
    pass: Pass,
    shared: Shared,
    event: WindowEvent,
    gone: Seq<WindowId>,
    id: WindowId,
)
    requires
        pass.consistent(),
        pass.phase is Landed,
    ensures
        ({
            let kept = pass.shared_after(shared, event);
            &&& kept.cloaks.placement.contains(id) <==> shared.cloaks.placement.contains(id)
                && !pass.landed.contains(id)
            &&& kept.cloaks.ghosted == shared.cloaks.ghosted
            &&& kept.cloaks.direct == shared.cloaks.direct
            &&& kept.suspects == shared.suspects && kept.insets == shared.insets
        }),
{
}

/// Once every visible window has its cloak committed, a landing waits for the
/// compositor and then measures; an animation frame does neither.
pub proof fn law_only_landings_are_measured(
    pass: Pass,
    shared: Shared,
    event: WindowEvent,
    gone: Seq<WindowId>,
)
    requires
        pass.consistent(),
        pass.phase is Landed || pass.phase is Committing,
    ensures
        ({
            let after = pass.answered(shared, event, gone);
            &&& after.entries == pass.entries && after.batch == pass.batch
            &&& match after.phase {
                PassPhase::Committing(j) => j < pass.entries.len()
                    && pass.entries[j as int].visibility == Visibility::Visible,
                PassPhase::Settling => pass.cache is Some,
                PassPhase::Flushing => pass.cache is None && after.pending()
                    == WindowAction::Flush,
                _ => false,
            }
        }),
{
    let from: int = match pass.phase {
        PassPhase::Committing(j) => j + 1,
        _ => 0,
    };
    lemma_first_from(pass.entries, |e: DeferEntry| e.visibility is Visible, from);
}

/// After a landing, the visible bounds of every window are queried that is
/// visible, did not refuse to move, and stands in any column at all, in order
/// and without leaving one out. Only the largest index is no column.
pub proof fn law_every_moved_column_window_is_measured(
    pass: Pass,
    shared: Shared,
    event: WindowEvent,
    gone: Seq<WindowId>,
    k: int,
)
    requires
        pass.consistent(),
        0 <= k < pass.entries.len(),
        pass.entries[k].visibility == Visibility::Visible,
        pass.entries[k].column_index < usize::MAX,
        !pass.batch.failed.contains(pass.entries[k].window_id),
        pass.phase is Flushing || (pass.phase matches PassPhase::Measuring(j) && j < k),
    ensures
        ({
            let after = pass.answered(shared, event, gone);
            &&& after.entries == pass.entries && after.batch == pass.batch
            &&& after.phase matches PassPhase::Measuring(j)
            &&& j <= k
            &&& (pass.phase matches PassPhase::Measuring(i) ==> i < j)
            &&& after.pending() == (WindowAction::QueryVisible {
                window_id: pass.entries[j as int].window_id,
            })
        }),
{
    let from: int = match pass.phase {
        PassPhase::Measuring(j) => j + 1,
        _ => 0,
    };
    lemma_first_from(pass.entries, |e: DeferEntry| measurable(e, pass.batch.failed), from);
    assert(measurable(pass.entries[k], pass.batch.failed));
}

/// No other window is measured; when none is left, the pass is judged.
pub proof fn law_only_moved_column_windows_are_measured(
    pass: Pass,
    shared: Shared,
    event: WindowEvent,
    gone: Seq<WindowId>,
)
    requires
        pass.consistent(),
        pass.phase is Flushing || pass.phase is Measuring,
    ensures
        match pass.answered(shared, event, gone).phase {
            PassPhase::Measuring(j) => {
                let entry = pass.entries[j as int];
                &&& j < pass.entries.len()
                &&& entry.visibility == Visibility::Visible
                &&& entry.column_index < usize::MAX
                &&& !pass.batch.failed.contains(entry.window_id)
            },
            PassPhase::Settling => true,
            _ => false,
        },
        pass.shared_after(shared, event) == shared,
{
    let from: int = match pass.phase {
        PassPhase::Measuring(j) => j + 1,
        _ => 0,
    };
    lemma_first_from(pass.entries, |e: DeferEntry| measurable(e, pass.batch.failed), from);
}

/// A measurement holds, of the window that was measured, the size that the
/// layout asked, the size that was asked of the frame, and the distances
/// between the edges that it shows. A window without bounds gives none.
pub proof fn law_measurements_hold_what_was_seen(
    pass: Pass,
    shared: Shared,
    event: WindowEvent,
    gone: Seq<WindowId>,
    j: usize,
)
    requires
        pass.consistent(),
        pass.phase == PassPhase::Measuring(j),
        pass.admits(event),
    ensures
        ({
            let entry = pass.entries[j as int];
            let after = pass.answered(shared, event, gone).measurements;
            match event {
                WindowEvent::Bounds(Some(seen)) => {
                    &&& after.len() == pass.measurements.len() + 1
                    &&& after.drop_last() == pass.measurements
                    &&& after.last().window_id == entry.window_id
                    &&& after.last().layout_w == entry.layout_w
                    &&& after.last().layout_h == entry.layout_h
                    &&& after.last().frame_w == entry.w
                    &&& after.last().frame_h == entry.h
                    &&& after.last().visible_w == seen.right - seen.left
                    &&& after.last().visible_h == seen.bottom - seen.top
                },
                _ => after == pass.measurements,
            }
        }),
{
    let after = pass.answered(shared, event, gone).measurements;
    if after.len() == pass.measurements.len() + 1 {
        assert(after.drop_last() =~= pass.measurements);
    }
}

/// When the cloaks are brought in line, placement holds exactly the windows of
/// the layout that it held before, or that have a request off-screen and did
/// not refuse it. Other owners keep theirs.
pub proof fn law_placement_holds_what_went_off_screen(
    pass: Pass,
    shared: Shared,
    event: WindowEvent,
    id: WindowId,
)
    requires
        pass.consistent(),
        pass.phase is Syncing,
    ensures
        ({
            let kept = pass.shared_after(shared, event);
            let placed = exists|i: int|
                0 <= i < pass.placements.len() && (#[trigger] pass.placements[i]).window_id == id;
            let went = !pass.batch.failed.contains(id) && exists|j: int|
                0 <= j < pass.entries.len() && (#[trigger] pass.entries[j]).window_id == id
                    && pass.entries[j].visibility != Visibility::Visible;
            &&& kept.cloaks.placement.contains(id) <==> placed && (
            shared.cloaks.placement.contains(id) || went)
            &&& kept.cloaks.ghosted == shared.cloaks.ghosted
            &&& kept.cloaks.direct == shared.cloaks.direct
            &&& kept.suspects == shared.suspects && kept.insets == shared.insets
        }),
{
    lemma_newly_parked(pass.entries, pass.batch.failed, shared.cloaks.placement);
    let newly = newly_parked(pass.entries, pass.batch.failed, shared.cloaks.placement);
    assert(newly.to_set().contains(id) <==> newly.contains(id));
    let went = !pass.batch.failed.contains(id) && exists|j: int|
        0 <= j < pass.entries.len() && (#[trigger] pass.entries[j]).window_id == id
            && pass.entries[j].visibility != Visibility::Visible;
    if went {
        let j = choose|j: int|
            0 <= j < pass.entries.len() && (#[trigger] pass.entries[j]).window_id == id
                && pass.entries[j].visibility != Visibility::Visible;
        assert(moved_off(pass.entries[j], pass.batch.failed));
    }
    if newly.contains(id) {
        let j = choose|j: int|
            0 <= j < pass.entries.len() && moved_off(
                #[trigger] pass.entries[j],
                pass.batch.failed,
            ) && pass.entries[j].window_id == id;
        assert(pass.entries[j].window_id == id);
    }
}

/// The windows whose cloak is then committed first are those that placement
/// newly holds by an off-screen request, each once; after them come the windows
/// given up. With neither, the pass goes on to nudging or is over.
pub proof fn law_newly_held_windows_are_cloaked_first(
    pass: Pass,
    shared: Shared,
    event: WindowEvent,
    gone: Seq<WindowId>,
    id: WindowId,
)
    requires
        pass.consistent(),
        pass.phase is Syncing,
    ensures
        ({
            let after = pass.answered(shared, event, gone);
            let went = !pass.batch.failed.contains(id) && exists|j: int|
                0 <= j < pass.entries.len() && (#[trigger] pass.entries[j]).window_id == id
                    && pass.entries[j].visibility != Visibility::Visible;
            &&& after.to_cloak.no_duplicates()
            &&& after.to_cloak.contains(id) <==> went && !shared.cloaks.placement.contains(id)
            &&& after.to_uncloak == gone
            &&& after.to_cloak.len() > 0 ==> after.pending() == (WindowAction::CommitCloak {
                window_id: after.to_cloak[0],
            })
            &&& after.to_cloak.len() == 0 && gone.len() > 0 ==> after.pending() == (
            WindowAction::CommitCloak { window_id: gone[0] })
            &&& after.to_cloak.len() == 0 && gone.len() == 0 ==> if pass.cache is None
                && pass.nudge_wanted {
                after.phase is Nudging
            } else {
                after.pending() == WindowAction::Finish
            }
        }),
{
    lemma_newly_parked(pass.entries, pass.batch.failed, shared.cloaks.placement);
    let newly = newly_parked(pass.entries, pass.batch.failed, shared.cloaks.placement);
    let went = !pass.batch.failed.contains(id) && exists|j: int|
        0 <= j < pass.entries.len() && (#[trigger] pass.entries[j]).window_id == id
            && pass.entries[j].visibility != Visibility::Visible;
    if went {
        let j = choose|j: int|
            0 <= j < pass.entries.len() && (#[trigger] pass.entries[j]).window_id == id
                && pass.entries[j].visibility != Visibility::Visible;
        assert(moved_off(pass.entries[j], pass.batch.failed));
    }
    if newly.contains(id) {
        let j = choose|j: int|
            0 <= j < pass.entries.len() && moved_off(
                #[trigger] pass.entries[j],
                pass.batch.failed,
            ) && pass.entries[j].window_id == id;
        assert(pass.entries[j].window_id == id);
    }
}

/// The windows that placement gives up for having left the layout are those
/// that it held, or that went off-screen, and that no placement names.
pub proof fn law_departed_windows_left_the_layout(
    cloaks: CloakSets,
    entries: Seq<DeferEntry>,
    placements: Seq<WindowPlacement>,
    failed: Set<WindowId>,
    id: WindowId,
)
    ensures
        ({
            let placed = exists|i: int|
                0 <= i < placements.len() && (#[trigger] placements[i]).window_id == id;
            let went = !failed.contains(id) && exists|j: int|
                0 <= j < entries.len() && (#[trigger] entries[j]).window_id == id
                    && entries[j].visibility != Visibility::Visible;
            &&& departed(cloaks, entries, placements, failed).contains(id) <==> !placed && (
            cloaks.placement.contains(id) || went)
            &&& synced(cloaks, entries, placements, failed).placement.contains(id) <==> placed && (
            cloaks.placement.contains(id) || went)
        }),
{
    lemma_newly_parked(entries, failed, cloaks.placement);
    let newly = newly_parked(entries, failed, cloaks.placement);
    assert(newly.to_set().contains(id) <==> newly.contains(id));
    let went = !failed.contains(id) && exists|j: int|
        0 <= j < entries.len() && (#[trigger] entries[j]).window_id == id && entries[j].visibility
            != Visibility::Visible;
    if went {
        let j = choose|j: int|
            0 <= j < entries.len() && (#[trigger] entries[j]).window_id == id
                && entries[j].visibility != Visibility::Visible;
        assert(moved_off(entries[j], failed));
    }
    if newly.contains(id) {
        let j = choose|j: int|
            0 <= j < entries.len() && moved_off(#[trigger] entries[j], failed)
                && entries[j].window_id == id;
        assert(entries[j].window_id == id);
    }
}

/// The cloaks of the windows newly held are committed one after the other, then
/// those of the windows given up, and when none is left, nudging begins exactly
/// on a landing for which it is wanted; else the pass is over.
pub proof fn law_the_end_of_a_pass(
    pass: Pass,
    shared: Shared,
    event: WindowEvent,
    gone: Seq<WindowId>,
)
    requires
        pass.consistent(),
        pass.phase is Cloaking || pass.phase is Uncloaking,
    ensures
        ({
            let after = pass.answered(shared, event, gone);
            let commits = |p: Pass, id: WindowId|
                p.pending() == (WindowAction::CommitCloak { window_id: id });
            let over = |p: Pass|
                if pass.cache is None && pass.nudge_wanted {
                    p.phase is Nudging
                } else {
                    p.pending() == WindowAction::Finish
                };
            &&& pass.shared_after(shared, event) == shared
            &&& after.to_cloak == pass.to_cloak && after.to_uncloak == pass.to_uncloak
            &&& match pass.phase {
                PassPhase::Cloaking(i) => if i + 1 < pass.to_cloak.len() {
                    commits(after, pass.to_cloak[i + 1])
                } else if pass.to_uncloak.len() > 0 {
                    commits(after, pass.to_uncloak[0])
                } else {
                    over(after)
                },
                PassPhase::Uncloaking(i) => if i + 1 < pass.to_uncloak.len() {
                    commits(after, pass.to_uncloak[i + 1])
                } else {
                    over(after)
                },
                _ => false,
            }
        }),
{
}

/// The targets are, in order, the requests at the places in `from`: exactly
/// those of windows that are visible, more than one pixel wide and did not
/// refuse to move, each with the rectangle that was asked of its frame.
pub open spec fn targets_taken_from(
    targets: Seq<NudgeTarget>,
    entries: Seq<DeferEntry>,
    failed: Set<WindowId>,
    from: Seq<int>,
) -> bool {
    &&& from.len() == targets.len()
    &&& forall|k: int|
        0 <= k < from.len() ==> 0 <= #[trigger] from[k] < entries.len() && targets[k].window_id
            == entries[from[k]].window_id && targets[k].x == entries[from[k]].x && targets[k].y
            == entries[from[k]].y && targets[k].w == entries[from[k]].w && targets[k].h
            == entries[from[k]].h
    &&& forall|k: int, l: int|
        0 <= k < l < from.len() ==> #[trigger] from[k] < #[trigger] from[l]
    &&& forall|j: int|
        0 <= j < entries.len() ==> (from.contains(j) <==> (#[trigger] entries[j]).visibility
            == Visibility::Visible && entries[j].w > 1 && !failed.contains(entries[j].window_id))
}

/// Nudging is for every window that is visible, more than one pixel wide and
/// did not refuse to move, for no other, and in the order of the requests.
pub proof fn law_every_moved_visible_window_is_nudged(
    entries: Seq<DeferEntry>,
    failed: Set<WindowId>,
) -> (from: Seq<int>)
    ensures
        targets_taken_from(nudge_targets(entries, failed), entries, failed, from),
    decreases entries.len(),
{
    broadcast use vstd::seq_lib::lemma_seq_contains_after_push;

    if entries.len() == 0 {
        Seq::empty()
    } else {
        let rest = entries.drop_last();
        let n = rest.len() as int;
        let earlier = law_every_moved_visible_window_is_nudged(rest, failed);
        let last = entries.last();
        let taken = last.visibility == Visibility::Visible && last.w > 1 && !failed.contains(
            last.window_id,
        );
        let from = if taken {
            earlier.push(n)
        } else {
            earlier
        };
        assert(entries[n] == last);
        assert forall|j: int| 0 <= j < entries.len() implies (from.contains(j) <==> (
        #[trigger] entries[j]).visibility == Visibility::Visible && entries[j].w > 1
            && !failed.contains(entries[j].window_id)) by {
            if j < n {
                assert(rest[j] == entries[j]);
            } else {
                assert(!earlier.contains(j)) by {
                    if earlier.contains(j) {
                        let k = choose|k: int| 0 <= k < earlier.len() && earlier[k] == j;
                        assert(earlier[k] < n);
                    }
                }
            }
        }
        assert forall|k: int| 0 <= k < from.len() implies 0 <= #[trigger] from[k] < entries.len()
            && nudge_targets(entries, failed)[k].window_id == entries[from[k]].window_id
            && nudge_targets(entries, failed)[k].x == entries[from[k]].x && nudge_targets(
            entries,
            failed,
        )[k].y == entries[from[k]].y && nudge_targets(entries, failed)[k].w == entries[from[k]].w
            && nudge_targets(entries, failed)[k].h == entries[from[k]].h by {
            if k < earlier.len() {
                assert(from[k] == earlier[k]);
                assert(rest[earlier[k]] == entries[earlier[k]]);
            }
        }
        from
    }
}

/// When nudging begins, its targets are exactly those of the requests, and the
/// class of the first is read; with none, there is nothing to wait for.
pub proof fn law_nudging_begins_with_the_first_target(
    pass: Pass,
    shared: Shared,
    event: WindowEvent,
    gone: Seq<WindowId>,
)
    requires
        pass.consistent(),
        pass.phase is Cloaking || pass.phase is Uncloaking || pass.phase is Syncing,
        pass.answered(shared, event, gone).phase is Nudging,
    ensures
        ({
            let after = pass.answered(shared, event, gone);
            let list = nudge_targets(pass.entries, pass.batch.failed);
            &&& after.nudge.targets == list
            &&& after.nudge.affected.len() == 0
            &&& list.len() > 0 ==> after.pending() == (WindowAction::ReadClass {
                window_id: list[0].window_id,
            })
            &&& list.len() == 0 ==> after.pending() == WindowAction::Continue
        }),
{
}

/// Answers to nudging go to the run, and when it is over so is the pass.
pub proof fn law_the_pass_follows_its_nudging(
    pass: Pass,
    shared: Shared,
    event: WindowEvent,
    gone: Seq<WindowId>,
)
    requires
        pass.consistent(),
        pass.phase is Nudging,
    ensures
        ({
            let after = pass.answered(shared, event, gone);
            &&& pass.pending() == pass.nudge.pending()
            &&& pass.nudge.stage is Finished ==> after.pending() == WindowAction::Finish
            &&& !(pass.nudge.stage is Finished) ==> after.phase is Nudging && after.nudge
                == pass.nudge.answered(shared.cloaks, event)
            &&& pass.shared_after(shared, event).cloaks == pass.nudge.cloaks_after(
                shared.cloaks,
                event,
            )
            &&& after.width_violations == pass.width_violations
            &&& after.height_violations == pass.height_violations
            &&& after.maximized == pass.maximized
        }),
{
}

/// A landing is repeated from its beginning exactly if it may be and its
/// measurements blame some insets or ask for confirmation. It then forgets
/// everything that it collected, keeps what it was given, and may not be
/// repeated again. Otherwise it reports the widths and heights that were found.
pub proof fn law_unsettled_landings_are_repeated(
    pass: Pass,
    shared: Shared,
    event: WindowEvent,
    gone: Seq<WindowId>,
    id: WindowId,
)
    requires
        pass.consistent(),
        pass.phase is Settling,
        pass.cache is None,
    ensures
        ({
            let d = detection_of(shared.suspects, pass.measurements, pass.allow_retry);
            let after = pass.answered(shared, event, gone);
            let kept = pass.shared_after(shared, event);
            &&& after.placements == pass.placements && after.cache is None && after.sentinel
                == pass.sentinel && after.nudge_wanted == pass.nudge_wanted
            &&& kept.suspects == suspects_left(
                shared.suspects,
                pass.measurements,
                pass.allow_retry,
            )
            &&& kept.cloaks == shared.cloaks
            &&& kept.insets.generation == shared.insets.generation
            &&& if pass.allow_retry && d.unsettled() {
                &&& after.pending() == WindowAction::QueryHighContrast
                &&& !after.allow_retry
                &&& after.entries.len() == 0 && after.skipped == 0 && after.maximized.len() == 0
                &&& after.landed.len() == 0 && after.measurements.len() == 0
                &&& after.batch.failed == Set::<WindowId>::empty() && after.batch.stage is Idle
                &&& kept.insets.insets.contains_key(id) <==> shared.insets.insets.contains_key(id)
                    && !d.inset_artifact_windows.contains(id)
                &&& kept.insets.insets.contains_key(id) ==> kept.insets.insets[id]
                    == shared.insets.insets[id]
            } else {
                &&& after.phase is Syncing
                &&& after.width_violations == d.width_violations
                &&& after.height_violations == d.height_violations
                &&& after.maximized == pass.maximized && after.entries == pass.entries
                &&& d.violating_windows.contains(id) ==> !kept.insets.insets.contains_key(id)
                &&& !d.violating_windows.contains(id) ==> {
                    let published = published_globally(
                        shared.insets.insets,
                        pass.entries,
                        d.inset_artifact_windows,
                        shared.insets.generation,
                    );
                    &&& kept.insets.insets.contains_key(id) == published.contains_key(id)
                    &&& published.contains_key(id) ==> kept.insets.insets[id] == published[id]
                }
            }
        }),
{
}

/// An animation frame publishes its insets and judges nobody: the worker gains
/// the insets of the windows of the layout that it did not have, and the shared
/// cache those that were measured.
pub proof fn law_animation_frames_publish_their_insets(
    pass: Pass,
    shared: Shared,
    event: WindowEvent,
    gone: Seq<WindowId>,
    id: WindowId,
)
    requires
        pass.consistent(),
        pass.phase is Settling,
        pass.cache is Some,
    ensures
        ({
            let after = pass.answered(shared, event, gone);
            let kept = pass.shared_after(shared, event);
            let nobody = Set::<WindowId>::empty();
            let own = published_locally(
                pass.cache->0.insets,
                pass.entries,
                nobody,
                shared.insets.generation,
            );
            let placed = exists|i: int|
                0 <= i < pass.placements.len() && (#[trigger] pass.placements[i]).window_id == id;
            &&& after.phase is Syncing && after.cache is Some
            &&& after.width_violations.len() == 0 && after.height_violations.len() == 0
            &&& after.cache->0.insets.contains_key(id) <==> own.contains_key(id) && placed
            &&& after.cache->0.insets.contains_key(id) ==> after.cache->0.insets[id] == own[id]
            &&& kept.insets.insets == published_globally(
                shared.insets.insets,
                pass.entries,
                nobody,
                shared.insets.generation,
            )
            &&& kept.insets.generation == shared.insets.generation
            &&& kept.suspects == shared.suspects && kept.cloaks == shared.cloaks
        }),
{
    let nobody = Set::<WindowId>::empty();
    let published = published_globally(
        shared.insets.insets,
        pass.entries,
        nobody,
        shared.insets.generation,
    );
    assert(published.remove_keys(nobody) =~= published);
}

/// The windows newly held by placement keep the order of their requests: each
/// is named by its first request off-screen, at the places in the result.
pub proof fn law_newly_held_windows_keep_the_order(
    entries: Seq<DeferEntry>,
    failed: Set<WindowId>,
    held: Set<WindowId>,
) -> (from: Seq<int>)
    ensures
        ({
            let list = newly_parked(entries, failed, held);
            &&& from.len() == list.len()
            &&& forall|k: int|
                0 <= k < from.len() ==> 0 <= #[trigger] from[k] < entries.len() && list[k]
                    == entries[from[k]].window_id && entries[from[k]].visibility
                    != Visibility::Visible
            &&& forall|k: int, l: int|
                0 <= k < l < from.len() ==> #[trigger] from[k] < #[trigger] from[l]
        }),
    decreases entries.len(),
{
    if entries.len() == 0 {
        Seq::empty()
    } else {
        let rest = entries.drop_last();
        let earlier = law_newly_held_windows_keep_the_order(rest, failed, held);
        let list = newly_parked(entries, failed, held);
        let from = if list.len() > earlier.len() {
            earlier.push(rest.len() as int)
        } else {
            earlier
        };
        assert forall|k: int| 0 <= k < from.len() implies 0 <= #[trigger] from[k] < entries.len()
            && list[k] == entries[from[k]].window_id && entries[from[k]].visibility
            != Visibility::Visible by {
            if k < earlier.len() {
                assert(from[k] == earlier[k]);
                assert(rest[earlier[k]] == entries[earlier[k]]);
            }
        }
        from
    }
}

/// A coordinate or a size as desktops have them.
pub open spec fn ordinary(v: int) -> bool {
    -0x1000_0000 <= v <= 0x1000_0000
}

/// A rectangle as desktops have them.
pub open spec fn ordinary_rect(rect: ScreenRect) -> bool {
    ordinary(rect.left as int) && ordinary(rect.top as int) && ordinary(rect.right as int)
        && ordinary(rect.bottom as int)
}

/// As long as coordinates and sizes are ordinary, every answer to what a pass
/// asks can be taken.
pub proof fn law_ordinary_answers_can_be_taken(pass: Pass, event: WindowEvent)
    requires
        pass.consistent(),
        !(pass.phase is Nudging),
        answers(pass.pending(), event),
        event matches WindowEvent::Frame { frame: Some(frame), .. } ==> ordinary_rect(frame),
        event matches WindowEvent::Frame { visible: Some(seen), .. } ==> ordinary_rect(seen),
        event matches WindowEvent::Bounds(Some(rect)) ==> ordinary_rect(rect),
        forall|j: int|
            0 <= j < pass.entries.len() ==> ordinary((#[trigger] pass.entries[j]).x as int)
                && ordinary(pass.entries[j].y as int) && ordinary(pass.entries[j].w as int)
                && ordinary(pass.entries[j].h as int) && ordinary(pass.entries[j].layout_w as int)
                && ordinary(pass.entries[j].layout_h as int),
    ensures
        pass.admits(event),
{
    match pass.phase {
        PassPhase::Landing(j) => {
            assert(ordinary(pass.entries[j as int].x as int));
        },
        PassPhase::Measuring(j) => {
            assert(ordinary(pass.entries[j as int].x as int));
        },
        _ => {},
    }
}

/// The same holds of every answer to what nudging asks.
pub proof fn law_ordinary_answers_to_nudging_can_be_taken(run: Nudge, event: WindowEvent)
    requires
        run.consistent(),
        answers(run.pending(), event),
        event matches WindowEvent::Bounds(Some(rect)) ==> ordinary_rect(rect),
        forall|j: int|
            0 <= j < run.targets.len() ==> ordinary((#[trigger] run.targets[j]).x as int)
                && ordinary(run.targets[j].y as int) && ordinary(run.targets[j].w as int)
                && ordinary(run.targets[j].h as int),
    ensures
        run.admits(event),
{
    if let NudgeStage::Settling { index, .. } = run.stage {
        assert(run.affected[index as int].0 < run.targets.len());
        assert(ordinary(run.targets[run.affected[index as int].0 as int].x as int));
    }
}

/// After the requests are built, every step changes only what it is there for.
/// The layout, the settings of the pass and its requests stay, unless the pass
/// is repeated; what the worker remembers and what is reported change only when
/// the pass is judged; measurements, landed windows and the moves change only
/// where they are made.
pub proof fn law_steps_change_what_they_are_for(
    pass: Pass,
    shared: Shared,
    event: WindowEvent,
    gone: Seq<WindowId>,
)
    requires
        pass.consistent(),
        !(pass.phase is Contrast || pass.phase is Probing || pass.phase is Recovering
            || pass.phase is Returning || pass.phase is Framing),
    ensures
        ({
            let after = pass.answered(shared, event, gone);
            &&& after.placements == pass.placements && after.sentinel == pass.sentinel
            &&& after.nudge_wanted == pass.nudge_wanted
            &&& after.high_contrast == pass.high_contrast
            &&& after.cache is Some == pass.cache is Some
            &&& !(pass.phase is Settling) ==> {
                &&& after.entries == pass.entries
                &&& after.skipped == pass.skipped
                &&& after.maximized == pass.maximized
                &&& after.allow_retry == pass.allow_retry
                &&& after.cache == pass.cache
                &&& after.width_violations == pass.width_violations
                &&& after.height_violations == pass.height_violations
                &&& !(pass.phase is Measuring) ==> after.measurements == pass.measurements
                &&& !(pass.phase is Landing) ==> after.landed == pass.landed
                &&& !(pass.phase is Built || pass.phase is Revealing || pass.phase is Positioning)
                    ==> after.batch == pass.batch
                &&& !(pass.phase is Syncing) ==> after.to_cloak == pass.to_cloak
                    && after.to_uncloak == pass.to_uncloak
            }
            &&& pass.phase is Settling && after.phase is Syncing ==> {
                &&& after.entries == pass.entries
                &&& after.skipped == pass.skipped
                &&& after.maximized == pass.maximized
                &&& after.batch == pass.batch
            }
        }),
{
}

/// What all passes share is touched only when a maximized window was moved
/// back, when landed windows are released, when the pass is judged, when the
/// cloaks are brought in line, and by nudging, which touches the cloaks alone.
pub proof fn law_few_steps_touch_what_is_shared(pass: Pass, shared: Shared, event: WindowEvent)
    ensures
        !(pass.phase is Recovering || pass.phase is Landed || pass.phase is Settling
            || pass.phase is Syncing || pass.phase is Nudging) ==> pass.shared_after(shared, event)
            == shared,
        !(pass.phase is Settling) ==> pass.shared_after(shared, event).suspects == shared.suspects
            && pass.shared_after(shared, event).insets == shared.insets,
        pass.phase is Settling ==> pass.shared_after(shared, event).cloaks == shared.cloaks,
{
}

} // verus!
