//! What becomes of each placement of a layout, in terms of the placement, the
//! probe of its window and what is remembered of it.

use vstd::prelude::*;

use crate::action::WindowAction;
use crate::action::WindowEvent;
use crate::action::WindowProbe;
use crate::insets::CacheMaps;
use crate::insets::InsetSource;
use crate::pass::positioned_ids;
use crate::pass::Pass;
use crate::pass::PassPhase;
use crate::pass_laws::law_only_positioned_windows_are_noted;
use crate::pass_laws::law_worker_remembers_the_layout;
use crate::sets::placed_ids;
use crate::state::Shared;
use crate::types::Visibility;
use crate::types::WindowId;
use crate::types::WindowPlacement;

verus! {

/// A pass over a layout begins with nothing collected, remembers what it was
/// given, and first asks whether high contrast is on. The answer is kept, and
/// the first placement is probed.
pub proof fn law_a_pass_begins_with_the_contrast(
    placements: Seq<WindowPlacement>,
    cache: Option<CacheMaps>,
    nudge_wanted: bool,
    sentinel: i32,
    to_uncloak: Seq<WindowId>,
    shared: Shared,
    high_contrast: bool,
    departed: Seq<WindowId>,
)
    requires
        0 < placements.len() <= u32::MAX,
    ensures
        ({
            let pass = Pass::begun(placements, cache, nudge_wanted, sentinel, to_uncloak);
            let after = pass.answered(shared, WindowEvent::HighContrast(high_contrast), departed);
            &&& pass.pending() == WindowAction::QueryHighContrast
            &&& pass.placements == placements && pass.cache == cache && pass.sentinel == sentinel
            &&& pass.nudge_wanted == nudge_wanted && pass.allow_retry
            &&& pass.entries.len() == 0 && pass.maximized.len() == 0 && pass.skipped == 0
            &&& pass.width_violations.len() == 0 && pass.height_violations.len() == 0
            &&& after.high_contrast == high_contrast
            &&& after.placements == placements && after.cache == cache
            &&& after.sentinel == sentinel && after.entries.len() == 0 && after.allow_retry
            &&& after.pending() == (WindowAction::Probe { window_id: placements[0].window_id })
        }),
{
}

/// Whenever a pass begins, for the first or for the last time, the contrast mode
/// is taken over, nothing else changes, and the first placement is probed.
pub proof fn law_every_beginning_takes_the_contrast(
    pass: Pass,
    shared: Shared,
    high_contrast: bool,
    departed: Seq<WindowId>,
)
    requires
        pass.consistent(),
        pass.phase is Contrast,
        pass.placements.len() > 0,
    ensures
        ({
            let after = pass.answered(shared, WindowEvent::HighContrast(high_contrast), departed);
            &&& pass.pending() == WindowAction::QueryHighContrast
            &&& after == (Pass { high_contrast, phase: PassPhase::Probing(0), ..pass })
            &&& after.pending() == (WindowAction::Probe {
                window_id: pass.placements[0].window_id,
            })
        }),
{
}

/// A placement that was just applied is in effect: an animation frame that asks
/// for it again with the memory of the frame that applied it leaves the window
/// alone, and one that asks for anything else of it does not.
pub proof fn law_a_repeated_frame_skips_what_the_last_one_placed(
    first: Pass,
    shared: Shared,
    event: WindowEvent,
    departed: Seq<WindowId>,
    i: int,
    j: int,
    second: Pass,
    later: Shared,
    index: usize,
)
    requires
        first.consistent(),
        first.phase is Settling,
        first.cache is Some,
        0 <= i < first.placements.len(),
        forall|k: int|
            i < k < first.placements.len() ==> (#[trigger] first.placements[k]).window_id
                != first.placements[i].window_id,
        0 <= j < first.entries.len(),
        first.entries[j].window_id == first.placements[i].window_id,
        !first.batch.failed.contains(first.placements[i].window_id),
        second.consistent(),
        second.phase == PassPhase::Probing(index),
        second.allow_retry,
        second.cache == first.answered(shared, event, departed).cache,
        second.placements[index as int].window_id == first.placements[i].window_id,
        !later.cloaks.placement.contains(first.placements[i].window_id),
    ensures
        ({
            let p = first.placements[i];
            let q = second.placements[index as int];
            let after = second.answered(later, WindowEvent::Probed(WindowProbe::Normal), departed);
            let same = p.rect.x == q.rect.x && p.rect.y == q.rect.y && p.rect.width
                == q.rect.width && p.rect.height == q.rect.height && p.visibility == q.visibility;
            &&& same ==> after.skipped == second.skipped + 1 && after.entries == second.entries
            &&& !same ==> after.skipped == second.skipped && (after.pending() is QueryFrame
                || after.entries.len() == second.entries.len() + 1)
        }),
{
    law_the_worker_remembers_what_it_placed(
        first,
        shared,
        event,
        departed,
        i,
        first.placements[i].window_id,
    );
    law_only_placements_already_in_effect_are_skipped(
        second,
        later,
        WindowProbe::Normal,
        departed,
        index,
    );
}

/// An empty layout asks for nothing but the cloaks of the windows given up, in
/// order. A worker forgets every position and keeps every inset.
pub proof fn law_an_empty_layout_only_commits_cloaks(
    cache: Option<CacheMaps>,
    nudge_wanted: bool,
    sentinel: i32,
    to_uncloak: Seq<WindowId>,
    id: WindowId,
)
    ensures
        ({
            let pass = Pass::begun(Seq::empty(), cache, nudge_wanted, sentinel, to_uncloak);
            &&& pass.cache is Some == cache is Some
            &&& cache is Some ==> !pass.cache->0.positions.contains_key(id)
                && pass.cache->0.insets == cache->0.insets
            &&& to_uncloak.len() > 0 ==> pass.pending() == (WindowAction::CommitCloak {
                window_id: to_uncloak[0],
            })
            &&& to_uncloak.len() == 0 ==> pass.pending() == if cache is None && nudge_wanted {
                WindowAction::Continue
            } else {
                WindowAction::Finish
            }
            &&& pass.nudge.targets.len() == 0
            &&& pass.to_uncloak == to_uncloak
            &&& pass.maximized.len() == 0
        }),
{
}

/// A placement is left out as unchanged exactly if this may still be repeated,
/// the window is not left out as maximized, placement does not hold it parked,
/// and the worker remembers having placed it at the same corner, with the same
/// width, the same height and the same visibility. Then nothing else changes
/// and the next placement is taken up.
pub proof fn law_only_placements_already_in_effect_are_skipped(
    pass: Pass,
    shared: Shared,
    probe: WindowProbe,
    departed: Seq<WindowId>,
    index: usize,
)
    requires
        pass.consistent(),
        pass.phase == PassPhase::Probing(index),
        !(probe is Unmanageable),
    ensures
        ({
            let p = pass.placements[index as int];
            let after = pass.answered(shared, WindowEvent::Probed(probe), departed);
            let last = pass.cache->0.positions[p.window_id];
            &&& after.skipped != pass.skipped <==> {
                &&& pass.allow_retry
                &&& !(probe is Zoomed && p.visibility == Visibility::Visible && p.column_index
                    != usize::MAX)
                &&& !shared.cloaks.placement.contains(p.window_id)
                &&& pass.cache is Some
                &&& pass.cache->0.positions.contains_key(p.window_id)
                &&& last.0.x == p.rect.x
                &&& last.0.y == p.rect.y
                &&& last.0.width == p.rect.width
                &&& last.0.height == p.rect.height
                &&& last.1 == p.visibility
            }
            &&& after.skipped != pass.skipped ==> {
                &&& after.skipped == pass.skipped + 1
                &&& after.entries == pass.entries
                &&& after.maximized == pass.maximized
                &&& after.cache == pass.cache
                &&& after.phase == if index + 1 < pass.placements.len() {
                    PassPhase::Probing((index + 1) as usize)
                } else {
                    PassPhase::Built
                }
            }
        }),
{
}

/// The window of a placement that is asked to differ in any way from what the
/// worker remembers is repositioned: it has its request at once, or as soon as
/// its bounds are given.
pub proof fn law_changed_placements_are_requested(
    pass: Pass,
    shared: Shared,
    departed: Seq<WindowId>,
    index: usize,
)
    requires
        pass.consistent(),
        pass.phase == PassPhase::Probing(index),
        pass.cache matches Some(cache) ==> ({
            let p = pass.placements[index as int];
            let last = cache.positions[p.window_id];
            cache.positions.contains_key(p.window_id) ==> last.0.x != p.rect.x || last.0.y
                != p.rect.y || last.0.width != p.rect.width || last.0.height != p.rect.height
                || last.1 != p.visibility
        }),
    ensures
        ({
            let p = pass.placements[index as int];
            let after = pass.answered(shared, WindowEvent::Probed(WindowProbe::Normal), departed);
            &&& after.skipped == pass.skipped
            &&& after.maximized == pass.maximized
            &&& after.pending() == (WindowAction::QueryFrame { window_id: p.window_id }) || (
            after.entries.len() == pass.entries.len() + 1 && after.entries.last().window_id
                == p.window_id)
        }),
{
}

/// A window that is gone or minimized is passed over: nothing is collected for
/// it and nothing is forgotten.
pub proof fn law_unfit_windows_are_passed_over(
    pass: Pass,
    shared: Shared,
    departed: Seq<WindowId>,
    index: usize,
)
    requires
        pass.consistent(),
        pass.phase == PassPhase::Probing(index),
    ensures
        pass.answered(shared, WindowEvent::Probed(WindowProbe::Unmanageable), departed) == (Pass {
            phase: if index + 1 < pass.placements.len() {
                PassPhase::Probing((index + 1) as usize)
            } else {
                PassPhase::Built
            },
            ..pass
        }),
{
}

/// A window counts as maximized exactly if it is maximized and its placement
/// is a visible one of the columns. It is then reported and gets no request,
/// and the worker forgets its position, but no other and no inset. If placement
/// holds it parked, it is first moved back to the corner of its placement,
/// keeping its size.
pub proof fn law_exactly_maximized_tiled_windows_are_left_alone(
    pass: Pass,
    shared: Shared,
    probe: WindowProbe,
    departed: Seq<WindowId>,
    index: usize,
    other: WindowId,
)
    requires
        pass.consistent(),
        pass.phase == PassPhase::Probing(index),
    ensures
        ({
            let p = pass.placements[index as int];
            let after = pass.answered(shared, WindowEvent::Probed(probe), departed);
            let tiled = p.visibility == Visibility::Visible && p.column_index != usize::MAX;
            &&& after.maximized != pass.maximized <==> probe is Zoomed && tiled
            &&& probe is Zoomed && tiled ==> {
                &&& after.maximized == pass.maximized.push(p.window_id)
                &&& after.entries == pass.entries
                &&& after.skipped == pass.skipped
                &&& after.cache is Some == pass.cache is Some
                &&& pass.cache is Some ==> {
                    &&& !after.cache->0.positions.contains_key(p.window_id)
                    &&& other != p.window_id ==> after.cache->0.positions.contains_key(other)
                        == pass.cache->0.positions.contains_key(other)
                        && after.cache->0.positions[other] == pass.cache->0.positions[other]
                    &&& after.cache->0.insets == pass.cache->0.insets
                }
                &&& shared.cloaks.placement.contains(p.window_id) ==> {
                    &&& after.phase == PassPhase::Recovering(index)
                    &&& after.pending() matches WindowAction::SetPosition {
                        window_id,
                        x,
                        y,
                        flags,
                        ..
                    }
                    &&& window_id == p.window_id
                    &&& x == p.rect.x
                    &&& y == p.rect.y
                    &&& flags.no_size && flags.no_zorder && flags.no_activate
                    &&& !flags.frame_changed
                    &&& flags.async_position == pass.cache is Some
                }
                &&& !shared.cloaks.placement.contains(p.window_id) ==> after.phase == if index + 1
                    < pass.placements.len() {
                    PassPhase::Probing((index + 1) as usize)
                } else {
                    PassPhase::Built
                }
            }
        }),
{
    let p = pass.placements[index as int];
    assert(pass.maximized.push(p.window_id).len() != pass.maximized.len());
}

/// A maximized window that was moved back is given up by placement, and then
/// its cloak is committed; one that refused stays with placement. Either way
/// no other window is affected and the next placement is taken up.
pub proof fn law_recovered_windows_are_given_up(
    pass: Pass,
    shared: Shared,
    event: WindowEvent,
    departed: Seq<WindowId>,
    index: usize,
    other: WindowId,
)
    requires
        pass.consistent(),
        pass.phase == PassPhase::Recovering(index),
    ensures
        ({
            let id = pass.placements[index as int].window_id;
            let after = pass.answered(shared, event, departed);
            let held = shared.cloaks.placement.contains(id);
            let kept = pass.shared_after(shared, event);
            &&& kept.cloaks.placement.contains(id) == (held && !(event is Moved))
            &&& other != id ==> kept.cloaks.placement.contains(other)
                == shared.cloaks.placement.contains(other)
            &&& kept.cloaks.ghosted == shared.cloaks.ghosted
            &&& kept.cloaks.direct == shared.cloaks.direct
            &&& kept.suspects == shared.suspects && kept.insets == shared.insets
            &&& event is Moved && held ==> after.phase == PassPhase::Returning(index)
                && after.pending() == (WindowAction::CommitCloak { window_id: id })
            &&& !(event is Moved && held) ==> after.phase == if index + 1
                < pass.placements.len() {
                PassPhase::Probing((index + 1) as usize)
            } else {
                PassPhase::Built
            }
            &&& after.entries == pass.entries && after.maximized == pass.maximized
        }),
{
}

/// Once the cloak of a recovered window is committed, the next placement is
/// taken up.
pub proof fn law_returning_goes_on(
    pass: Pass,
    shared: Shared,
    event: WindowEvent,
    departed: Seq<WindowId>,
    index: usize,
)
    requires
        pass.consistent(),
        pass.phase == PassPhase::Returning(index),
    ensures
        pass.answered(shared, event, departed) == (Pass {
            phase: if index + 1 < pass.placements.len() {
                PassPhase::Probing((index + 1) as usize)
            } else {
                PassPhase::Built
            },
            ..pass
        }),
        pass.shared_after(shared, event) == shared,
{
}

/// A window that is neither unfit, maximized nor unchanged has its bounds
/// queried exactly if high contrast is off and neither the worker nor the
/// shared cache remembers its insets. Otherwise its request is built with
/// insets that are none in high contrast, else those of the worker, else the
/// shared ones, and that belong to the current generation.
pub proof fn law_remembered_insets_are_used_first(
    pass: Pass,
    shared: Shared,
    probe: WindowProbe,
    departed: Seq<WindowId>,
    index: usize,
)
    requires
        pass.consistent(),
        pass.phase == PassPhase::Probing(index),
        !(probe is Unmanageable),
    ensures
        ({
            let id = pass.placements[index as int].window_id;
            let after = pass.answered(shared, WindowEvent::Probed(probe), departed);
            let own = pass.cache is Some && pass.cache->0.insets.contains_key(id);
            let common = shared.insets.insets.contains_key(id);
            let entry = after.entries.last();
            after.maximized == pass.maximized && after.skipped == pass.skipped ==> {
                if pass.high_contrast || own || common {
                    &&& after.entries.len() == pass.entries.len() + 1
                    &&& after.entries.drop_last() == pass.entries
                    &&& after.phase == if index + 1 < pass.placements.len() {
                        PassPhase::Probing((index + 1) as usize)
                    } else {
                        PassPhase::Built
                    }
                    &&& entry.inset_generation == shared.insets.generation
                    &&& pass.high_contrast ==> entry.insets.0 == 0 && entry.insets.1 == 0
                        && entry.insets.2 == 0 && entry.insets.3 == 0 && entry.inset_source
                        == InsetSource::Fresh
                    &&& !pass.high_contrast && own ==> entry.insets == pass.cache->0.insets[id]
                        && entry.inset_source == InsetSource::LocalCache
                    &&& !pass.high_contrast && !own ==> entry.insets == shared.insets.insets[id]
                        && entry.inset_source == InsetSource::GlobalCache
                } else {
                    &&& after.entries == pass.entries
                    &&& after.pending() == (WindowAction::QueryFrame { window_id: id })
                    &&& after.phase == (PassPhase::Framing {
                        index,
                        generation: shared.insets.generation,
                    })
                }
            }
        }),
{
    let p = pass.placements[index as int];
    let after = pass.answered(shared, WindowEvent::Probed(probe), departed);
    assert(pass.maximized.push(p.window_id).len() != pass.maximized.len());
    if after.entries.len() == pass.entries.len() + 1 {
        assert(after.entries.drop_last() =~= pass.entries);
    }
}

/// The insets of a window whose bounds were queried are the distances from each
/// edge of its frame in to the same edge of what it shows, if both rectangles
/// were given and not empty and each distance is between none and 64; else
/// there are none. They belong to the generation under which they were asked.
pub proof fn law_queried_insets_are_edge_distances(
    pass: Pass,
    shared: Shared,
    event: WindowEvent,
    departed: Seq<WindowId>,
    index: usize,
    generation: u64,
)
    requires
        pass.consistent(),
        pass.phase == (PassPhase::Framing { index, generation }),
        pass.admits(event),
    ensures
        ({
            let after = pass.answered(shared, event, departed);
            let entry = after.entries.last();
            &&& after.entries.len() == pass.entries.len() + 1
            &&& after.entries.drop_last() == pass.entries
            &&& entry.window_id == pass.placements[index as int].window_id
            &&& entry.inset_source == InsetSource::Fresh
            &&& entry.inset_generation == generation
            &&& after.phase == if index + 1 < pass.placements.len() {
                PassPhase::Probing((index + 1) as usize)
            } else {
                PassPhase::Built
            }
            &&& match event {
                WindowEvent::Frame { frame: Some(f), visible: Some(v) } => {
                    let usable = f.left < f.right && f.top < f.bottom && v.left < v.right && v.top
                        < v.bottom && 0 <= v.left - f.left <= 64 && 0 <= v.top - f.top <= 64 && 0
                        <= f.right - v.right <= 64 && 0 <= f.bottom - v.bottom <= 64;
                    &&& usable ==> entry.insets.0 == v.left - f.left && entry.insets.1 == v.top
                        - f.top && entry.insets.2 == f.right - v.right && entry.insets.3
                        == f.bottom - v.bottom
                    &&& !usable ==> entry.insets == (0i32, 0i32, 0i32, 0i32)
                },
                _ => entry.insets == (0i32, 0i32, 0i32, 0i32),
            }
        }),
{
    let after = pass.answered(shared, event, departed);
    assert(after.entries.drop_last() =~= pass.entries);
}

/// A request that is built names the window, the visibility, the column and
/// the size of its placement. A visible window is asked to show its placement:
/// each edge of the frame lies outside the edge of the placement by the inset
/// on that side, or on it in high contrast, as long as the frame can be
/// represented. Any other window goes to the off-screen coordinate on both axes
/// and keeps its size. Requests neither restack nor activate; they wait for the
/// window only on a landing, and recompute the frame only of a visible window
/// that the worker does not remember.
pub proof fn law_requests_show_the_layout(
    pass: Pass,
    shared: Shared,
    event: WindowEvent,
    departed: Seq<WindowId>,
    index: usize,
)
    requires
        pass.consistent(),
        pass.phase == PassPhase::Probing(index) || (pass.phase matches PassPhase::Framing {
            index: i,
            ..
        } && i == index),
        pass.admits(event),
        pass.answered(shared, event, departed).entries.len() > pass.entries.len(),
    ensures
        ({
            let p = pass.placements[index as int];
            let entry = pass.answered(shared, event, departed).entries.last();
            let (left, top, right, bottom) = if pass.high_contrast {
                (0i32, 0i32, 0i32, 0i32)
            } else {
                entry.insets
            };
            &&& entry.window_id == p.window_id
            &&& entry.visibility == p.visibility
            &&& entry.column_index == p.column_index
            &&& entry.layout_w == p.rect.width
            &&& entry.layout_h == p.rect.height
            &&& entry.flags.no_zorder && entry.flags.no_activate
            &&& entry.flags.async_position == pass.cache is Some
            &&& p.visibility == Visibility::Visible ==> {
                &&& !entry.flags.no_size
                &&& entry.flags.frame_changed == !(pass.cache is Some
                    && pass.cache->0.positions.contains_key(p.window_id))
                &&& i32::MIN <= p.rect.x - left <= i32::MAX ==> entry.x == p.rect.x - left
                &&& i32::MIN <= p.rect.y - top <= i32::MAX ==> entry.y == p.rect.y - top
                &&& i32::MIN <= p.rect.width + left <= i32::MAX && i32::MIN <= p.rect.width + left
                    + right <= i32::MAX ==> entry.w == p.rect.width + left + right
                &&& i32::MIN <= p.rect.height + top <= i32::MAX && i32::MIN <= p.rect.height + top
                    + bottom <= i32::MAX ==> entry.h == p.rect.height + top + bottom
            }
            &&& p.visibility != Visibility::Visible ==> {
                &&& entry.x == pass.sentinel
                &&& entry.y == pass.sentinel
                &&& entry.h == 0
                &&& i32::MIN <= p.rect.width + left <= i32::MAX && i32::MIN <= p.rect.width + left
                    + right <= i32::MAX ==> entry.w == p.rect.width + left + right
                &&& entry.flags.no_size
                &&& !entry.flags.frame_changed
            }
        }),
{
}

/// What was collected stays: dealing with one placement changes none of the
/// earlier requests, and neither the layout nor the off-screen coordinate nor
/// the contrast mode.
pub proof fn law_building_keeps_what_was_built(
    pass: Pass,
    shared: Shared,
    event: WindowEvent,
    departed: Seq<WindowId>,
    j: int,
)
    requires
        pass.consistent(),
        pass.phase is Probing || pass.phase is Framing || pass.phase is Recovering
            || pass.phase is Returning,
        0 <= j < pass.entries.len(),
    ensures
        ({
            let after = pass.answered(shared, event, departed);
            &&& after.entries.len() >= pass.entries.len()
            &&& after.entries[j] == pass.entries[j]
            &&& after.placements == pass.placements
            &&& after.sentinel == pass.sentinel
            &&& after.high_contrast == pass.high_contrast
            &&& after.nudge_wanted == pass.nudge_wanted
            &&& after.allow_retry == pass.allow_retry
        }),
{
}

/// After an animation frame the worker remembers of each window of the layout
/// what it last asked: the rectangle and the visibility of its last placement
/// if it has a request and did not refuse, else what it remembered before. It
/// forgets the windows outside the layout.
pub proof fn law_the_worker_remembers_what_it_placed(
    pass: Pass,
    shared: Shared,
    event: WindowEvent,
    departed: Seq<WindowId>,
    i: int,
    id: WindowId,
)
    requires
        pass.consistent(),
        pass.phase is Settling,
        pass.cache is Some,
        0 <= i < pass.placements.len(),
        pass.placements[i].window_id == id,
        forall|k: int|
            i < k < pass.placements.len() ==> (#[trigger] pass.placements[k]).window_id != id,
    ensures
        ({
            let before = pass.cache->0.positions;
            let after = pass.answered(shared, event, departed);
            let now = after.cache->0.positions;
            let moved = !pass.batch.failed.contains(id) && exists|j: int|
                0 <= j < pass.entries.len() && (#[trigger] pass.entries[j]).window_id == id;
            &&& after.cache is Some
            &&& moved ==> now.contains_key(id) && now[id].0 == pass.placements[i].rect && now[id].1
                == pass.placements[i].visibility
            &&& !moved ==> now.contains_key(id) == before.contains_key(id) && (
            before.contains_key(id) ==> now[id] == before[id])
        }),
{
    law_only_positioned_windows_are_noted(
        pass.cache->0.positions.restrict(placed_ids(pass.placements)),
        pass.placements,
        positioned_ids(pass.entries, pass.batch.failed),
        id,
    );
}

/// After an animation frame the worker remembers nothing of a window that no
/// placement of the layout names.
pub proof fn law_the_worker_forgets_what_left_the_layout(
    pass: Pass,
    shared: Shared,
    event: WindowEvent,
    departed: Seq<WindowId>,
    id: WindowId,
)
    requires
        pass.consistent(),
        pass.phase is Settling,
        pass.cache is Some,
        forall|k: int|
            0 <= k < pass.placements.len() ==> (#[trigger] pass.placements[k]).window_id != id,
    ensures
        ({
            let after = pass.answered(shared, event, departed);
            &&& after.cache is Some
            &&& !after.cache->0.positions.contains_key(id)
            &&& !after.cache->0.insets.contains_key(id)
        }),
{
    law_worker_remembers_the_layout(pass, shared, id);
}

} // verus!
