//! What holds of every placement pass.

use vstd::prelude::*;

use crate::action::less_work;
use crate::action::WindowAction;
use crate::action::WindowEvent;
use crate::action::WindowProbe;
use crate::batch::law_batch_progresses;
use crate::batch::BatchStage;
use crate::entries::awaiting_release;
use crate::entries::defer_entry;
use crate::entries::landed_at;
use crate::entries::measurable;
use crate::entries::nudge_targets;
use crate::entries::returning;
use crate::entries::unchanged;
use crate::entries::visible_tiled_maximized;
use crate::entries::DeferEntry;
use crate::geometry::Rect;
use crate::insets::ResolvedInsets;
use crate::nudge::law_nudge_only_releases;
use crate::nudge::law_nudge_progresses;
use crate::nudge::NudgeStage;
use crate::pass::positioned_ids;
use crate::pass::positions_noted;
use crate::pass::Pass;
use crate::pass::PassPhase;
use crate::sets::lemma_first_from;
use crate::sets::placed_ids;
use crate::state::Shared;
use crate::sync::law_sync_parks_what_the_layout_hides;
use crate::types::Visibility;
use crate::types::WindowId;
use crate::types::WindowPlacement;

verus! {

impl Pass {
    /// How much is left to do: first the phases, those of a repetition
    /// included, then the work within the phase.
    pub open spec fn work(self) -> (nat, (nat, nat, nat)) {
        let again: nat = if self.allow_retry {
            32
        } else {
            0
        };
        let placements = self.placements.len();
        let entries = self.entries.len();
        let (rank, within): (nat, (nat, nat, nat)) = match self.phase {
            PassPhase::Contrast => (18, (0, 0, 0)),
            PassPhase::Probing(i) => (17, ((placements - i) as nat, 2, 0)),
            PassPhase::Recovering(i) => (17, ((placements - i) as nat, 1, 0)),
            PassPhase::Returning(i) => (17, ((placements - i) as nat, 0, 0)),
            PassPhase::Framing { index, .. } => (17, ((placements - index) as nat, 1, 0)),
            PassPhase::Built => (16, (0, 0, 0)),
            PassPhase::Revealing(j) => (15, ((entries - j) as nat, 0, 0)),
            PassPhase::Positioning => (14, (self.batch.remaining(self.entries), 0, 0)),
            PassPhase::Landing(j) => (13, ((entries - j) as nat, 0, 0)),
            PassPhase::Landed => (12, (0, 0, 0)),
            PassPhase::Committing(j) => (11, ((entries - j) as nat, 0, 0)),
            PassPhase::Flushing => (10, (0, 0, 0)),
            PassPhase::Measuring(j) => (9, ((entries - j) as nat, 0, 0)),
            PassPhase::Settling => (8, (0, 0, 0)),
            PassPhase::Syncing => (7, (0, 0, 0)),
            PassPhase::Cloaking(i) => (6, ((self.to_cloak.len() - i) as nat, 0, 0)),
            PassPhase::Uncloaking(i) => (5, ((self.to_uncloak.len() - i) as nat, 0, 0)),
            PassPhase::Nudging => (4, self.nudge.work()),
            PassPhase::Finished => (0, (0, 0, 0)),
        };
        (again + rank, within)
    }
}

/// Every answer brings a pass closer to its end, so it ends after finitely
/// many.
pub proof fn law_pass_progresses(
    pass: Pass,
    shared: Shared,
    event: WindowEvent,
    departed: Seq<WindowId>,
)
    requires
        pass.consistent(),
        !(pass.phase is Finished),
    ensures
        ({
            let before = pass.work();
            let after = pass.answered(shared, event, departed).work();
            after.0 < before.0 || (after.0 == before.0 && less_work(after.1, before.1))
        }),
{
    let entries = pass.entries;
    match pass.phase {
        PassPhase::Built => {
            lemma_first_from(entries, |e: DeferEntry| returning(e, shared.cloaks), 0);
        },
        PassPhase::Revealing(j) => {
            lemma_first_from(entries, |e: DeferEntry| returning(e, shared.cloaks), j + 1);
        },
        PassPhase::Positioning => {
            if pass.batch.stage is Finished {
                lemma_first_from(
                    entries,
                    |e: DeferEntry| awaiting_release(e, pass.batch.failed, shared.cloaks),
                    0,
                );
            } else {
                law_batch_progresses(pass.batch, entries, event);
            }
        },
        PassPhase::Landing(j) => {
            lemma_first_from(
                entries,
                |e: DeferEntry| awaiting_release(e, pass.batch.failed, shared.cloaks),
                j + 1,
            );
        },
        PassPhase::Landed => {
            lemma_first_from(entries, |e: DeferEntry| e.visibility is Visible, 0);
        },
        PassPhase::Committing(j) => {
            lemma_first_from(entries, |e: DeferEntry| e.visibility is Visible, j + 1);
        },
        PassPhase::Flushing => {
            lemma_first_from(entries, |e: DeferEntry| measurable(e, pass.batch.failed), 0);
        },
        PassPhase::Measuring(j) => {
            lemma_first_from(entries, |e: DeferEntry| measurable(e, pass.batch.failed), j + 1);
        },
        PassPhase::Nudging => {
            if !(pass.nudge.stage is Finished) {
                law_nudge_progresses(pass.nudge, shared.cloaks, event);
            }
        },
        _ => {},
    }
}

/// A pass never takes a window from the ghost animation or from a direct
/// request, and gives none to them.
pub proof fn law_pass_respects_other_owners(pass: Pass, shared: Shared, event: WindowEvent)
    requires
        pass.consistent(),
    ensures
        pass.shared_after(shared, event).cloaks.ghosted == shared.cloaks.ghosted,
        pass.shared_after(shared, event).cloaks.direct == shared.cloaks.direct,
{
    if pass.phase is Nudging {
        law_nudge_only_releases(pass.nudge, shared.cloaks, event, 0);
    }
}

/// Placement gives a window up for one of four reasons only: it was
/// maximized and has been moved back, it was found where it was asked to be,
/// it left the layout, or nudging found it on target.
pub proof fn law_ownership_ends_for_a_reason(
    pass: Pass,
    shared: Shared,
    event: WindowEvent,
    id: WindowId,
)
    requires
        pass.consistent(),
        shared.cloaks.placement.contains(id),
        !pass.shared_after(shared, event).cloaks.placement.contains(id),
    ensures
        match pass.phase {
            PassPhase::Recovering(i) => event is Moved && pass.placements[i as int].window_id == id,
            PassPhase::Landed => pass.landed.contains(id),
            PassPhase::Syncing => !placed_ids(pass.placements).contains(id),
            PassPhase::Nudging => pass.nudge.stage matches NudgeStage::Settling { index, .. }
                && pass.nudge.affected_target(index).window_id == id && pass.nudge.found_on_target(
                index,
                event,
            ),
            _ => false,
        },
{
    match pass.phase {
        PassPhase::Syncing => {
            law_sync_parks_what_the_layout_hides(
                shared.cloaks,
                pass.entries,
                pass.placements,
                pass.batch.failed,
                id,
            );
        },
        PassPhase::Nudging => {
            law_nudge_only_releases(pass.nudge, shared.cloaks, event, id);
        },
        _ => {},
    }
}

/// A window comes to count as landed only by being found where it was asked
/// to be.
pub proof fn law_landed_windows_arrived(
    pass: Pass,
    shared: Shared,
    event: WindowEvent,
    departed: Seq<WindowId>,
    id: WindowId,
)
    requires
        pass.consistent(),
        !pass.landed.contains(id),
        pass.answered(shared, event, departed).landed.contains(id),
    ensures
        ({
            &&& pass.phase matches PassPhase::Landing(j)
            &&& pass.entries[j as int].window_id == id
            &&& landed_at(pass.entries[j as int], event->Bounds_0)
        }),
{
    broadcast use vstd::seq_lib::lemma_seq_contains_after_push;

}

/// A window that refused to move stays with placement when the windows that
/// landed are released.
pub proof fn law_failed_windows_keep_their_owner(
    pass: Pass,
    shared: Shared,
    event: WindowEvent,
    id: WindowId,
)
    requires
        pass.consistent(),
        pass.phase is Landed,
        pass.batch.failed.contains(id),
        shared.cloaks.placement.contains(id),
    ensures
        pass.shared_after(shared, event).cloaks.placement.contains(id),
{
}

/// A maximized window of the columns is reported and not repositioned. The
/// one move ever asked of it for this placement does not resize it, and is
/// asked only if placement had parked it.
pub proof fn law_maximized_windows_are_left_alone(
    pass: Pass,
    shared: Shared,
    departed: Seq<WindowId>,
    index: usize,
)
    requires
        pass.consistent(),
        pass.phase == PassPhase::Probing(index),
        visible_tiled_maximized(pass.placements[index as int], true),
    ensures
        ({
            let id = pass.placements[index as int].window_id;
            let after = pass.answered(shared, WindowEvent::Probed(WindowProbe::Zoomed), departed);
            &&& after.entries == pass.entries
            &&& after.maximized == pass.maximized.push(id)
            &&& after.pending() matches WindowAction::SetPosition { flags, .. } ==> flags.no_size
                && shared.cloaks.placement.contains(id)
        }),
{
}

/// An animation frame leaves a window alone that was last placed exactly as
/// asked, unless placement has parked it: then the window is repositioned,
/// whatever the worker remembers.
pub proof fn law_unchanged_placements_are_skipped_unless_parked(
    pass: Pass,
    shared: Shared,
    probe: WindowProbe,
    departed: Seq<WindowId>,
    index: usize,
)
    requires
        pass.consistent(),
        pass.phase == PassPhase::Probing(index),
        !(probe is Unmanageable),
        !visible_tiled_maximized(pass.placements[index as int], probe is Zoomed),
        unchanged(pass.cache, pass.placements[index as int]),
    ensures
        ({
            let parked = shared.cloaks.placement.contains(pass.placements[index as int].window_id);
            let after = pass.answered(shared, WindowEvent::Probed(probe), departed);
            if pass.allow_retry && !parked {
                after.entries == pass.entries && after.skipped == pass.skipped + 1
            } else {
                after.skipped == pass.skipped && (after.phase is Framing || after.entries.len()
                    == pass.entries.len() + 1)
            }
        }),
{
}

/// Once its bounds are given, a window has its request.
pub proof fn law_framed_windows_are_positioned(
    pass: Pass,
    shared: Shared,
    event: WindowEvent,
    departed: Seq<WindowId>,
)
    requires
        pass.consistent(),
        pass.phase is Framing,
    ensures
        ({
            let after = pass.answered(shared, event, departed);
            &&& after.entries.len() == pass.entries.len() + 1
            &&& after.entries.last().window_id
                == pass.placements[pass.phase->index as int].window_id
        }),
{
}

/// A pass is repeated at most once, and what the first attempt found is
/// discarded: no violation is reported, nothing is remembered, and no inset is
/// published.
pub proof fn law_a_pass_is_repeated_at_most_once(
    pass: Pass,
    shared: Shared,
    event: WindowEvent,
    departed: Seq<WindowId>,
)
    requires
        pass.consistent(),
        pass.phase is Settling,
    ensures
        ({
            let after = pass.answered(shared, event, departed);
            let shared_after = pass.shared_after(shared, event);
            &&& after.phase is Contrast || after.phase is Syncing
            &&& after.phase is Contrast ==> {
                &&& pass.allow_retry && !after.allow_retry
                &&& !pass.is_async()
                &&& after.width_violations.len() == 0
                &&& after.height_violations.len() == 0
                &&& after.cache == pass.cache
                &&& forall|id: WindowId| #[trigger]
                    shared_after.insets.insets.contains_key(id)
                        ==> shared.insets.insets.contains_key(id)
                        && shared_after.insets.insets[id] == shared.insets.insets[id]
            }
            &&& after.phase is Syncing ==> after.allow_retry == pass.allow_retry
        }),
{
}

/// No phase but the judging of a pass has it repeated.
pub proof fn law_only_judging_repeats(
    pass: Pass,
    shared: Shared,
    event: WindowEvent,
    departed: Seq<WindowId>,
)
    requires
        !(pass.phase is Settling),
    ensures
        pass.answered(shared, event, departed).allow_retry == pass.allow_retry,
        !(pass.answered(shared, event, departed).phase is Contrast),
{
}

/// An animation frame is not judged: it reports no violation, suspects nobody
/// and is not repeated.
pub proof fn law_animation_frames_are_not_judged(
    pass: Pass,
    shared: Shared,
    event: WindowEvent,
    departed: Seq<WindowId>,
)
    requires
        pass.consistent(),
        pass.is_async(),
        pass.phase is Settling,
    ensures
        ({
            let after = pass.answered(shared, event, departed);
            &&& after.phase is Syncing
            &&& after.width_violations.len() == 0
            &&& after.height_violations.len() == 0
            &&& pass.shared_after(shared, event).suspects == shared.suspects
        }),
{
}

/// What a worker remembers of one window after taking note of a pass: the
/// last of its placements if it was positioned, else what it was.
pub proof fn law_only_positioned_windows_are_noted(
    positions: Map<WindowId, (Rect, Visibility)>,
    placements: Seq<WindowPlacement>,
    positioned: Set<WindowId>,
    id: WindowId,
)
    ensures
        ({
            let after = positions_noted(positions, placements, positioned);
            if positioned.contains(id) && placed_ids(placements).contains(id) {
                after.contains_key(id) && exists|i: int|
                    0 <= i < placements.len() && (#[trigger] placements[i]).window_id == id
                        && after[id] == (placements[i].rect, placements[i].visibility) && forall|
                        k: int,
                    |
                        i < k < placements.len() ==> (#[trigger] placements[k]).window_id != id
            } else {
                after.contains_key(id) == positions.contains_key(id) && after[id] == positions[id]
            }
        }),
    decreases placements.len(),
{
    if placements.len() > 0 {
        let rest = placements.drop_last();
        let last = placements.last();
        law_only_positioned_windows_are_noted(positions, rest, positioned, id);
        if placed_ids(rest).contains(id) {
            let i = choose|i: int| 0 <= i < rest.len() && (#[trigger] rest[i]).window_id == id;
            assert(placements[i].window_id == id);
        }
        if placed_ids(placements).contains(id) && last.window_id != id {
            let i = choose|i: int|
                0 <= i < placements.len() && (#[trigger] placements[i]).window_id == id;
            assert(rest[i].window_id == id);
        }
        if positioned.contains(id) && placed_ids(placements).contains(id) && last.window_id != id {
            let after = positions_noted(positions, rest, positioned);
            let i = choose|i: int|
                0 <= i < rest.len() && (#[trigger] rest[i]).window_id == id && after[id] == (
                    rest[i].rect,
                    rest[i].visibility,
                ) && forall|k: int| i < k < rest.len() ==> (#[trigger] rest[k]).window_id != id;
            assert(placements[i] == rest[i]);
            assert forall|k: int| i < k < placements.len() implies (#[trigger] placements[k]).window_id
                != id by {
                if k < rest.len() {
                    assert(rest[k].window_id != id);
                }
            }
        }
    }
}

/// After a pass the worker remembers only windows of the layout, and of a
/// window that refused to move it remembers what it did before.
pub proof fn law_worker_remembers_the_layout(pass: Pass, shared: Shared, id: WindowId)
    requires
        pass.consistent(),
        pass.phase is Settling,
        pass.cache is Some,
    ensures
        ({
            let before = pass.cache->0;
            let after = pass.cache_settled(before, shared);
            &&& after.positions.contains_key(id) ==> placed_ids(pass.placements).contains(id)
            &&& after.insets.contains_key(id) ==> placed_ids(pass.placements).contains(id)
            &&& pass.batch.failed.contains(id) && placed_ids(pass.placements).contains(id) ==> {
                &&& after.positions.contains_key(id) == before.positions.contains_key(id)
                &&& before.positions.contains_key(id) ==> after.positions[id]
                    == before.positions[id]
            }
        }),
{
    law_only_positioned_windows_are_noted(
        pass.cache->0.positions.restrict(placed_ids(pass.placements)),
        pass.placements,
        positioned_ids(pass.entries, pass.batch.failed),
        id,
    );
}

/// In high contrast the border is part of what the user sees: the request for
/// a visible placement asks of the frame exactly the layout's rectangle, and no
/// bounds are asked for.
pub proof fn law_high_contrast_places_the_frame(
    pass: Pass,
    shared: Shared,
    placement: WindowPlacement,
    resolved: ResolvedInsets,
    known: bool,
)
    requires
        pass.high_contrast,
    ensures
        pass.known_insets(shared.insets, placement.window_id) is Some,
        ({
            let entry = defer_entry(
                placement,
                resolved,
                true,
                pass.is_async(),
                known,
                pass.sentinel,
            );
            placement.visibility is Visible ==> {
                &&& entry.x == placement.rect.x
                &&& entry.y == placement.rect.y
                &&& entry.w == placement.rect.width
                &&& entry.h == placement.rect.height
            }
        }),
{
}

/// Once the cloaks are in line with the layout, placement hides only windows
/// of the layout for the rest of the pass.
pub proof fn law_only_the_layout_stays_parked(
    pass: Pass,
    shared: Shared,
    event: WindowEvent,
    id: WindowId,
)
    requires
        pass.consistent(),
        pass.phase is Syncing || ((pass.phase is Cloaking || pass.phase is Uncloaking
            || pass.phase is Nudging) && (shared.cloaks.placement.contains(id) ==> placed_ids(
            pass.placements,
        ).contains(id))),
    ensures
        pass.shared_after(shared, event).cloaks.placement.contains(id) ==> placed_ids(
            pass.placements,
        ).contains(id),
{
    if pass.phase is Nudging {
        law_nudge_only_releases(pass.nudge, shared.cloaks, event, id);
    }
}

/// After the windows that landed were released, the cloak of every visible
/// entry is committed, in order and without leaving one out: that of a window
/// that stays parked as well as that of one that returns.
pub proof fn law_every_visible_cloak_is_committed(
    pass: Pass,
    shared: Shared,
    event: WindowEvent,
    departed: Seq<WindowId>,
    k: int,
)
    requires
        pass.consistent(),
        0 <= k < pass.entries.len(),
        pass.entries[k].visibility is Visible,
        pass.phase is Landed || (pass.phase matches PassPhase::Committing(j) && j < k),
    ensures
        ({
            let after = pass.answered(shared, event, departed);
            &&& after.entries == pass.entries
            &&& after.phase matches PassPhase::Committing(j)
            &&& j <= k
            &&& after.pending() == (WindowAction::CommitCloak {
                window_id: pass.entries[j as int].window_id,
            })
        }),
{
    let from: int = match pass.phase {
        PassPhase::Committing(j) => j + 1,
        _ => 0,
    };
    lemma_first_from(pass.entries, |e: DeferEntry| e.visibility is Visible, from);
}

/// Every window whose owner changed when the cloaks were brought in line has
/// its cloak committed, in order and without leaving one out.
pub proof fn law_every_changed_cloak_is_committed(
    pass: Pass,
    shared: Shared,
    event: WindowEvent,
    departed: Seq<WindowId>,
)
    requires
        pass.consistent(),
        pass.phase is Syncing || pass.phase is Cloaking || pass.phase is Uncloaking,
    ensures
        ({
            let after = pass.answered(shared, event, departed);
            let (cloaked, uncloaked): (int, int) = match pass.phase {
                PassPhase::Syncing => (0, 0),
                PassPhase::Cloaking(i) => (i + 1, 0),
                PassPhase::Uncloaking(i) => (after.to_cloak.len() as int, i + 1),
                _ => (0, 0),
            };
            if cloaked < after.to_cloak.len() {
                after.phase == PassPhase::Cloaking(cloaked as usize)
            } else if uncloaked < after.to_uncloak.len() {
                after.phase == PassPhase::Uncloaking(uncloaked as usize)
            } else {
                after.phase is Nudging || after.phase is Finished
            }
        }),
{
}

/// Every window to nudge has an entry.
proof fn lemma_nudge_targets_have_entries(entries: Seq<DeferEntry>, failed: Set<WindowId>, k: int)
    requires
        0 <= k < nudge_targets(entries, failed).len(),
    ensures
        exists|j: int|
            0 <= j < entries.len() && (#[trigger] entries[j]).window_id == nudge_targets(
                entries,
                failed,
            )[k].window_id,
    decreases entries.len(),
{
    let rest = entries.drop_last();
    let earlier = nudge_targets(rest, failed);
    if k < earlier.len() {
        lemma_nudge_targets_have_entries(rest, failed, k);
        let j = choose|j: int|
            0 <= j < rest.len() && (#[trigger] rest[j]).window_id == earlier[k].window_id;
        assert(entries[j].window_id == earlier[k].window_id);
    } else {
        assert(entries[entries.len() - 1] == entries.last());
    }
}

/// A pass moves no window outside its layout.
pub proof fn law_only_the_layout_is_moved(pass: Pass, id: WindowId)
    requires
        pass.consistent(),
        (pass.pending() matches WindowAction::SetPosition { window_id, .. } && window_id == id) || (
        pass.pending() matches WindowAction::DeferPosition { window_id, .. } && window_id == id),
    ensures
        placed_ids(pass.placements).contains(id),
{
    match pass.phase {
        PassPhase::Recovering(i) => {
            assert(pass.placements[i as int].window_id == id);
        },
        PassPhase::Positioning => {
            match pass.batch.stage {
                BatchStage::Deferring(j) => {
                    assert(pass.entries[j as int].window_id == id);
                },
                BatchStage::Individually(j) => {
                    assert(pass.entries[j as int].window_id == id);
                },
                _ => {},
            }
        },
        PassPhase::Nudging => {
            let nudge = pass.nudge;
            let k: int = match nudge.stage {
                NudgeStage::Nudging { round, index, .. } => if round is First {
                    index as int
                } else {
                    nudge.affected[index as int].0 as int
                },
                NudgeStage::Settling { index, .. } => nudge.affected[index as int].0 as int,
                _ => 0,
            };
            assert(nudge.targets[k].window_id == id);
            lemma_nudge_targets_have_entries(pass.entries, pass.batch.failed, k);
            let j = choose|j: int|
                0 <= j < pass.entries.len() && (#[trigger] pass.entries[j]).window_id
                    == nudge.targets[k].window_id;
            assert(pass.entries[j].window_id == id);
        },
        _ => {},
    }
}

/// A window that is off-screen in the layout, and that is neither unfit nor
/// left out as unchanged, gets a request that moves it to the off-screen
/// coordinate on both axes, at once or when its bounds are given.
pub proof fn law_off_screen_placements_get_the_sentinel(
    pass: Pass,
    shared: Shared,
    event: WindowEvent,
    departed: Seq<WindowId>,
    index: usize,
)
    requires
        pass.consistent(),
        !(pass.placements[index as int].visibility is Visible),
        match pass.phase {
            PassPhase::Probing(i) => i == index && event is Probed && !(
            event->Probed_0 is Unmanageable) && !(pass.allow_retry
                && !shared.cloaks.placement.contains(pass.placements[index as int].window_id)
                && unchanged(pass.cache, pass.placements[index as int])),
            PassPhase::Framing { index: i, .. } => i == index,
            _ => false,
        },
    ensures
        ({
            let after = pass.answered(shared, event, departed);
            let entry = after.entries.last();
            if pass.phase is Probing && after.phase is Framing {
                after.phase->index == index
            } else {
                &&& after.entries.len() == pass.entries.len() + 1
                &&& entry.window_id == pass.placements[index as int].window_id
                &&& entry.x == pass.sentinel
                &&& entry.y == pass.sentinel
                &&& entry.flags.no_size
            }
        }),
{
}

/// Every move that is asked for an entry that is not visible goes to the
/// off-screen coordinate on both axes and keeps the size of the window, in the
/// batch as well as on its own.
pub proof fn law_off_screen_windows_are_moved_to_the_sentinel(pass: Pass, j: usize)
    requires
        pass.consistent(),
        pass.phase is Positioning,
        pass.batch.stage == BatchStage::Deferring(j) || pass.batch.stage
            == BatchStage::Individually(j),
        !(pass.entries[j as int].visibility is Visible),
    ensures
        match pass.pending() {
            WindowAction::DeferPosition { window_id, x, y, flags, .. } => window_id
                == pass.entries[j as int].window_id && x == pass.sentinel && y == pass.sentinel
                && flags.no_size,
            WindowAction::SetPosition { window_id, x, y, flags, .. } => window_id
                == pass.entries[j as int].window_id && x == pass.sentinel && y == pass.sentinel
                && flags.no_size,
            _ => false,
        },
{
}

} // verus!
