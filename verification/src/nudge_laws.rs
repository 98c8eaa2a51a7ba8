//! The course of nudging, window by window, in terms of what is asked and
//! answered.

use vstd::prelude::*;

use crate::action::WindowAction;
use crate::action::WindowEvent;
use crate::cloak::CloakSets;
use crate::geometry::ScreenRect;
use crate::nudge::delayed_geometry;
use crate::nudge::sticky_compositor;
use crate::nudge::Nudge;
use crate::nudge::NudgeRound;
use crate::nudge::NudgeStage;
use crate::nudge::NudgeStep;
use crate::nudge::NudgeTarget;
use crate::nudge::SettleStep;
use crate::sets::lemma_first_from;
use crate::types::WindowId;

verus! {

/// The request is to bring the target's window to a corner and a size, at once
/// and without restacking or activating it.
pub open spec fn moves_to(action: WindowAction, target: NudgeTarget, w: int) -> bool {
    &&& action matches WindowAction::SetPosition { window_id, x, y, w: width, h, flags }
    &&& window_id == target.window_id
    &&& x == target.x
    &&& y == target.y
    &&& width == w
    &&& h == target.h
    &&& !flags.no_size && flags.no_zorder && flags.no_activate
    &&& !flags.frame_changed && !flags.async_position
}

/// The rectangle is off target: some edge of the corner, or the width, or the
/// height differs by more than two pixels.
pub open spec fn strays(rect: ScreenRect, target: NudgeTarget) -> bool {
    ||| rect.left - target.x > 2 || rect.left - target.x < -2
    ||| rect.top - target.y > 2 || rect.top - target.y < -2
    ||| rect.right - rect.left - target.w > 2 || rect.right - rect.left - target.w < -2
    ||| rect.bottom - rect.top - target.h > 2 || rect.bottom - rect.top - target.h < -2
}

/// The classes that restore their launch geometry are those of the frame host
/// and of WinUI windows; the classes whose compositor sticks are those of
/// Chromium, Firefox and the terminal. No class is of both kinds.
pub proof fn law_stubborn_classes(class: Seq<char>)
    ensures
        delayed_geometry(class) <==> class == "ApplicationFrameWindow"@ || class
            == "WinUIDesktopWin32WindowClass"@,
        sticky_compositor(class) <==> class == "Chrome_WidgetWin_1"@ || class
            == "MozillaWindowClass"@ || class == "CASCADIA_HOSTING_WINDOW_CLASS"@,
        !(delayed_geometry(class) && sticky_compositor(class)),
{
    reveal_strlit("ApplicationFrameWindow");
    reveal_strlit("WinUIDesktopWin32WindowClass");
    reveal_strlit("Chrome_WidgetWin_1");
    reveal_strlit("MozillaWindowClass");
    reveal_strlit("CASCADIA_HOSTING_WINDOW_CLASS");
    assert("ApplicationFrameWindow"@.len() == 22);
    assert("WinUIDesktopWin32WindowClass"@.len() == 28);
    assert("Chrome_WidgetWin_1"@.len() == 18);
    assert("MozillaWindowClass"@.len() == 18);
    assert("CASCADIA_HOSTING_WINDOW_CLASS"@.len() == 29);
}

/// In the first round the class of each target is read and remembered as one
/// that restores its geometry or not; then the window is identified.
pub proof fn law_the_first_round_reads_the_class(
    run: Nudge,
    cloaks: CloakSets,
    class: String,
    index: usize,
)
    requires
        run.consistent(),
        run.stage == NudgeStage::ReadingClass(index),
    ensures
        ({
            let after = run.answered(cloaks, WindowEvent::Class(Some(class)));
            let delayed = class@ == "ApplicationFrameWindow"@ || class@
                == "WinUIDesktopWin32WindowClass"@;
            &&& run.pending() == (WindowAction::ReadClass {
                window_id: run.targets[index as int].window_id,
            })
            &&& after.stage == (NudgeStage::Nudging {
                round: NudgeRound::First { delayed },
                index,
                step: NudgeStep::Identify,
            })
            &&& after.pending() == (WindowAction::Identify {
                window_id: run.targets[index as int].window_id,
            })
            &&& after.targets == run.targets && after.affected == run.affected
        }),
{
}

/// A window is shrunk exactly if it was just identified as one of the five
/// stubborn classes. It is then asked to be one pixel narrower where it belongs.
/// Otherwise it does not count as following.
pub proof fn law_exactly_stubborn_windows_are_shrunk(
    run: Nudge,
    cloaks: CloakSets,
    event: WindowEvent,
    round: NudgeRound,
    index: usize,
)
    requires
        run.consistent(),
        run.stage == (NudgeStage::Nudging { round, index, step: NudgeStep::Identify }),
    ensures
        ({
            let target = if round is First {
                run.targets[index as int]
            } else {
                run.targets[run.affected[index as int].0 as int]
            };
            let after = run.answered(cloaks, event);
            let stubborn = event matches WindowEvent::Class(Some(class)) && (class@
                == "Chrome_WidgetWin_1"@ || class@ == "MozillaWindowClass"@ || class@
                == "CASCADIA_HOSTING_WINDOW_CLASS"@ || class@ == "ApplicationFrameWindow"@
                || class@ == "WinUIDesktopWin32WindowClass"@);
            &&& run.pending() == (WindowAction::Identify { window_id: target.window_id })
            &&& after.affected == run.affected && after.targets == run.targets
            &&& if stubborn {
                &&& moves_to(after.pending(), target, target.w - 1)
                &&& after.stage == (NudgeStage::Nudging { round, index, step: NudgeStep::Shrink })
                &&& after.class == event->Class_0->0@
            } else {
                &&& !(after.pending() is SetPosition)
                &&& !(after.stage matches NudgeStage::Nudging { round: r, index: i, .. } && r
                    == round && i == index)
            }
        }),
{
    if !(round is First) {
        assert(run.affected[index as int].0 < run.targets.len());
        lemma_first_from(run.affected, |a: (usize, bool)| a.1, index + 1);
    }
}

/// A window follows exactly by accepting to be shrunk, still having its class,
/// and accepting to be restored. Only the last of these, in the first round,
/// adds it to the windows that are nudged again, together with whether its
/// geometry is to be settled; no answer takes one away.
pub proof fn law_who_follows(
    run: Nudge,
    cloaks: CloakSets,
    event: WindowEvent,
    round: NudgeRound,
    index: usize,
    step: NudgeStep,
)
    requires
        run.consistent(),
        run.stage == (NudgeStage::Nudging { round, index, step }),
    ensures
        ({
            let after = run.answered(cloaks, event);
            after.affected == match round {
                NudgeRound::First { delayed } => if step is Restore && event is Moved {
                    run.affected.push((index, delayed))
                } else {
                    run.affected
                },
                _ => run.affected,
            }
        }),
{
}

/// Once one window of the first round is done with, the class of the next
/// target is read. After the last target the compositor is waited for if any
/// window followed, and else the run is over.
pub proof fn law_the_first_round_goes_on(
    run: Nudge,
    cloaks: CloakSets,
    event: WindowEvent,
    delayed: bool,
    index: usize,
    step: NudgeStep,
)
    requires
        run.consistent(),
        run.stage == (NudgeStage::Nudging { round: NudgeRound::First { delayed }, index, step }),
    ensures
        ({
            let after = run.answered(cloaks, event);
            (after.stage matches NudgeStage::Nudging { round, index: i, .. } && round == (
            NudgeRound::First { delayed }) && i == index) || (if index + 1 < run.targets.len() {
                after.pending() == (WindowAction::ReadClass {
                    window_id: run.targets[index + 1].window_id,
                })
            } else if after.affected.len() > 0 {
                after.pending() == WindowAction::Flush
            } else {
                after.stage is Finished && after.pending() == WindowAction::Continue
            })
        }),
        step is Restore || (step is Shrink && !(event is Moved)) || (step is Recheck && !(
        event matches WindowEvent::Class(Some(class)) && class@ == run.class)) ==> !(run.answered(
            cloaks,
            event,
        ).stage is Nudging),
{
}

/// Between the rounds the run pauses: after the compositor for 16 ms, before
/// the third round for 48 ms, before settling for 240 ms. The second round
/// begins with the first window that followed, the third round and settling
/// with the first of those whose geometry is to be settled.
pub proof fn law_rounds_are_paced(run: Nudge, cloaks: CloakSets, event: WindowEvent)
    requires
        run.consistent(),
    ensures
        ({
            let after = run.answered(cloaks, event);
            let identifies = |k: int|
                after.pending() == (WindowAction::Identify {
                    window_id: run.targets[run.affected[k].0 as int].window_id,
                });
            &&& run.stage is Flushing ==> run.pending() == WindowAction::Flush && after.stage
                == NudgeStage::PauseBeforeSecond
            &&& run.stage is PauseBeforeSecond ==> {
                &&& run.pending() == (WindowAction::Sleep { millis: 16 })
                &&& after.stage == (NudgeStage::Nudging {
                    round: NudgeRound::Second,
                    index: 0,
                    step: NudgeStep::Identify,
                })
                &&& identifies(0)
            }
            &&& run.stage is PauseBeforeThird ==> {
                &&& run.pending() == (WindowAction::Sleep { millis: 48 })
                &&& after.stage matches NudgeStage::Nudging { round, index, step }
                &&& round is Third && step is Identify
                &&& run.affected[index as int].1
                &&& forall|k: int| 0 <= k < index ==> !(#[trigger] run.affected[k]).1
                &&& identifies(index as int)
            }
            &&& run.stage is PauseBeforeSettle ==> {
                &&& run.pending() == (WindowAction::Sleep { millis: 240 })
                &&& after.stage matches NudgeStage::Settling { index, step }
                &&& step is Identify
                &&& run.affected[index as int].1
                &&& forall|k: int| 0 <= k < index ==> !(#[trigger] run.affected[k]).1
                &&& identifies(index as int)
            }
        }),
{
    lemma_first_from(run.affected, |a: (usize, bool)| a.1, 0);
}

/// In the second round every window that followed is taken up, one after the
/// other. After the last, the third round is prepared exactly if there is one
/// whose geometry is to be settled; else the run is over.
pub proof fn law_the_second_round_goes_on(
    run: Nudge,
    cloaks: CloakSets,
    event: WindowEvent,
    index: usize,
    step: NudgeStep,
)
    requires
        run.consistent(),
        run.stage == (NudgeStage::Nudging { round: NudgeRound::Second, index, step }),
        !(run.answered(cloaks, event).stage matches NudgeStage::Nudging { index: i, .. } && i
            == index),
    ensures
        ({
            let after = run.answered(cloaks, event);
            if index + 1 < run.affected.len() {
                after.stage == (NudgeStage::Nudging {
                    round: NudgeRound::Second,
                    index: (index + 1) as usize,
                    step: NudgeStep::Identify,
                })
            } else if exists|k: int| 0 <= k < run.affected.len() && (#[trigger] run.affected[k]).1 {
                after.stage is PauseBeforeThird
            } else {
                after.stage is Finished
            }
        }),
{
    lemma_first_from(run.affected, |a: (usize, bool)| a.1, 0);
}

/// In the third round every window whose geometry is to be settled is taken up,
/// in order and without leaving one out; after the last, settling is prepared.
pub proof fn law_the_third_round_goes_on(
    run: Nudge,
    cloaks: CloakSets,
    event: WindowEvent,
    index: usize,
    step: NudgeStep,
)
    requires
        run.consistent(),
        run.stage == (NudgeStage::Nudging { round: NudgeRound::Third, index, step }),
        !(run.answered(cloaks, event).stage matches NudgeStage::Nudging { index: i, .. } && i
            == index),
    ensures
        match run.answered(cloaks, event).stage {
            NudgeStage::Nudging { round, index: next, step } => {
                &&& round is Third && step is Identify
                &&& index < next < run.affected.len()
                &&& run.affected[next as int].1
                &&& forall|k: int| index < k < next ==> !(#[trigger] run.affected[k]).1
            },
            NudgeStage::PauseBeforeSettle => forall|k: int|
                index < k < run.affected.len() ==> !(#[trigger] run.affected[k]).1,
            _ => false,
        },
{
    lemma_first_from(run.affected, |a: (usize, bool)| a.1, index + 1);
}

/// A step within one window of any round goes on with the same window: an
/// accepted shrink with checking the class again, an unchanged class with the
/// restoring move. Any other answer ends the window.
pub proof fn law_one_window_is_nudged_step_by_step(
    run: Nudge,
    cloaks: CloakSets,
    event: WindowEvent,
    round: NudgeRound,
    index: usize,
    step: NudgeStep,
)
    requires
        run.consistent(),
        run.stage == (NudgeStage::Nudging { round, index, step }),
        !(step is Identify),
    ensures
        ({
            let target = if round is First {
                run.targets[index as int]
            } else {
                run.targets[run.affected[index as int].0 as int]
            };
            let after = run.answered(cloaks, event);
            let stays = after.stage matches NudgeStage::Nudging { round: r, index: i, .. } && r
                == round && i == index;
            &&& step is Shrink ==> moves_to(run.pending(), target, target.w - 1)
            &&& step is Restore ==> moves_to(run.pending(), target, target.w as int)
            &&& step is Recheck ==> run.pending() == (WindowAction::Identify {
                window_id: target.window_id,
            })
            &&& stays <==> (step is Shrink && event is Moved) || (step is Recheck && (
            event matches WindowEvent::Class(Some(class)) && class@ == run.class))
            &&& stays && step is Shrink ==> after.pending() == (WindowAction::Identify {
                window_id: target.window_id,
            })
            &&& stays && step is Recheck ==> moves_to(after.pending(), target, target.w as int)
            &&& after.targets == run.targets
        }),
{
    lemma_first_from(
        run.affected,
        |a: (usize, bool)| a.1,
        if index < run.affected.len() {
            index + 1
        } else {
            0
        },
    );
    if !(round is First) {
        assert(run.affected[index as int].0 < run.targets.len());
    }
}

/// A window whose geometry is to be settled is settled exactly if it still has
/// one of the two classes. If placement holds it parked and the ghost animation
/// does not hide it, it is revealed first. Then its rectangle is queried.
pub proof fn law_settling_identifies_and_inspects(
    run: Nudge,
    cloaks: CloakSets,
    event: WindowEvent,
    index: usize,
)
    requires
        run.consistent(),
        run.stage == (NudgeStage::Settling { index, step: SettleStep::Identify }),
    ensures
        ({
            let id = run.targets[run.affected[index as int].0 as int].window_id;
            let after = run.answered(cloaks, event);
            let parked = cloaks.placement.contains(id);
            let delayed = event matches WindowEvent::Class(Some(class)) && (class@
                == "ApplicationFrameWindow"@ || class@ == "WinUIDesktopWin32WindowClass"@);
            &&& run.pending() == (WindowAction::Identify { window_id: id })
            &&& run.cloaks_after(cloaks, event) == cloaks
            &&& delayed && parked && !cloaks.ghosted.contains(id) ==> after.pending() == (
            WindowAction::Reveal { window_id: id })
            &&& delayed && !(parked && !cloaks.ghosted.contains(id)) ==> {
                &&& after.pending() == (WindowAction::QueryRect { window_id: id })
                &&& after.stage == (NudgeStage::Settling {
                    index,
                    step: SettleStep::Inspect { parked },
                })
            }
            &&& !delayed ==> settles_next(run, after, index as int)
        }),
{
    lemma_first_from(run.affected, |a: (usize, bool)| a.1, index + 1);
}

/// The window at an index is done with: the next one whose geometry is to be
/// settled is identified, or the run is over if there is none.
pub open spec fn settles_next(run: Nudge, after: Nudge, index: int) -> bool {
    &&& after.targets == run.targets && after.affected == run.affected
    &&& match after.stage {
        NudgeStage::Settling { index: next, step } => {
            &&& step is Identify
            &&& index < next < run.affected.len()
            &&& run.affected[next as int].1
            &&& forall|k: int| index < k < next ==> !(#[trigger] run.affected[k]).1
        },
        NudgeStage::Finished => forall|k: int|
            index < k < run.affected.len() ==> !(#[trigger] run.affected[k]).1,
        _ => false,
    }
}

/// A window that was revealed is inspected, and counts as parked.
pub proof fn law_revealed_windows_are_inspected(
    run: Nudge,
    cloaks: CloakSets,
    event: WindowEvent,
    index: usize,
)
    requires
        run.consistent(),
        run.stage == (NudgeStage::Settling { index, step: SettleStep::Reveal }),
    ensures
        ({
            let id = run.targets[run.affected[index as int].0 as int].window_id;
            let after = run.answered(cloaks, event);
            &&& after.pending() == (WindowAction::QueryRect { window_id: id })
            &&& after.stage == (NudgeStage::Settling {
                index,
                step: SettleStep::Inspect { parked: true },
            })
            &&& run.cloaks_after(cloaks, event) == cloaks
        }),
{
}

/// A window that is inspected and found off target, in its corner, its width or
/// its height, is asked to move to exactly its target, whether or not placement
/// had it parked.
pub proof fn law_stray_windows_are_moved_back(
    run: Nudge,
    cloaks: CloakSets,
    rect: ScreenRect,
    index: usize,
    parked: bool,
)
    requires
        run.consistent(),
        run.stage == (NudgeStage::Settling { index, step: SettleStep::Inspect { parked } }),
        strays(rect, run.targets[run.affected[index as int].0 as int]),
    ensures
        ({
            let target = run.targets[run.affected[index as int].0 as int];
            let event = WindowEvent::Bounds(Some(rect));
            let after = run.answered(cloaks, event);
            &&& run.pending() == (WindowAction::QueryRect { window_id: target.window_id })
            &&& moves_to(after.pending(), target, target.w as int)
            &&& after.stage == (NudgeStage::Settling {
                index,
                step: SettleStep::Move { parked, attempt: 0 },
            })
            &&& run.cloaks_after(cloaks, event) == cloaks
        }),
{
}

/// A window that is found where it belongs is not moved. If it was parked when
/// settling began and placement still holds it, placement gives it up and its
/// cloak is committed; else the next window is taken up.
pub proof fn law_windows_on_target_are_given_up(
    run: Nudge,
    cloaks: CloakSets,
    rect: ScreenRect,
    index: usize,
    step: SettleStep,
    other: WindowId,
)
    requires
        run.consistent(),
        run.stage == (NudgeStage::Settling { index, step }),
        step is Inspect || step is Verify,
        !strays(rect, run.targets[run.affected[index as int].0 as int]),
    ensures
        ({
            let id = run.targets[run.affected[index as int].0 as int].window_id;
            let event = WindowEvent::Bounds(Some(rect));
            let after = run.answered(cloaks, event);
            let kept = run.cloaks_after(cloaks, event);
            let parked = match step {
                SettleStep::Inspect { parked } => parked,
                SettleStep::Verify { parked, .. } => parked,
                _ => false,
            };
            &&& parked && cloaks.placement.contains(id) ==> after.pending() == (
            WindowAction::CommitCloak { window_id: id }) && after.stage == (NudgeStage::Settling {
                index,
                step: SettleStep::Commit,
            })
            &&& !(parked && cloaks.placement.contains(id)) ==> settles_next(
                run,
                after,
                index as int,
            )
            &&& kept.placement.contains(id) == (cloaks.placement.contains(id) && !parked)
            &&& other != id ==> kept.placement.contains(other) == cloaks.placement.contains(other)
            &&& kept.ghosted == cloaks.ghosted && kept.direct == cloaks.direct
        }),
{
    lemma_first_from(run.affected, |a: (usize, bool)| a.1, index + 1);
}

/// A window that is inspected and gives no rectangle is left alone: if it was
/// parked its cloak is committed again, and placement keeps it.
pub proof fn law_windows_without_bounds_are_left_alone(
    run: Nudge,
    cloaks: CloakSets,
    index: usize,
    parked: bool,
)
    requires
        run.consistent(),
        run.stage == (NudgeStage::Settling { index, step: SettleStep::Inspect { parked } }),
    ensures
        ({
            let id = run.targets[run.affected[index as int].0 as int].window_id;
            let event = WindowEvent::Bounds(None);
            let after = run.answered(cloaks, event);
            &&& parked ==> after.pending() == (WindowAction::CommitCloak { window_id: id })
                && after.stage == (NudgeStage::Settling { index, step: SettleStep::Commit })
            &&& !parked ==> settles_next(run, after, index as int)
            &&& run.cloaks_after(cloaks, event) == cloaks
        }),
{
    lemma_first_from(run.affected, |a: (usize, bool)| a.1, index + 1);
}

/// After an accepted move the compositor is waited for and the window checked;
/// if it is still off target, or gives no rectangle, the run rests for 16 ms
/// and moves it again. A refused move is repeated at once. After the third
/// attempt it is given up on: if it was parked its cloak is committed again,
/// and placement keeps it.
pub proof fn law_a_stray_window_is_moved_three_times(
    run: Nudge,
    cloaks: CloakSets,
    event: WindowEvent,
    index: usize,
    step: SettleStep,
)
    requires
        run.consistent(),
        run.stage == (NudgeStage::Settling { index, step }),
        step is Move || step is Flush || step is Verify || step is Rest,
        step is Verify ==> event is Bounds,
    ensures
        ({
            let target = run.targets[run.affected[index as int].0 as int];
            let after = run.answered(cloaks, event);
            let same = |s: SettleStep|
                after.stage == (NudgeStage::Settling { index, step: s });
            let (parked, attempt): (bool, u8) = match step {
                SettleStep::Move { parked, attempt } => (parked, attempt),
                SettleStep::Flush { parked, attempt } => (parked, attempt),
                SettleStep::Verify { parked, attempt } => (parked, attempt),
                SettleStep::Rest { parked, attempt } => (parked, attempt),
                _ => (false, 0u8),
            };
            let missed = !(event matches WindowEvent::Bounds(Some(rect)) && !strays(rect, target));
            &&& attempt < 3
            &&& step is Move ==> moves_to(run.pending(), target, target.w as int)
            &&& step is Move && event is Moved ==> after.pending() == WindowAction::Flush && same(
                SettleStep::Flush { parked, attempt },
            )
            &&& step is Flush ==> after.pending() == (WindowAction::QueryRect {
                window_id: target.window_id,
            }) && same(SettleStep::Verify { parked, attempt })
            &&& step is Verify && missed ==> after.pending() == (WindowAction::Sleep { millis: 16 })
                && same(SettleStep::Rest { parked, attempt })
            &&& (step is Move && !(event is Moved)) || step is Rest ==> {
                if attempt < 2 {
                    &&& moves_to(after.pending(), target, target.w as int)
                    &&& same(SettleStep::Move { parked, attempt: (attempt + 1) as u8 })
                } else if parked {
                    &&& after.pending() == (WindowAction::CommitCloak {
                        window_id: target.window_id,
                    })
                    &&& same(SettleStep::Commit)
                } else {
                    settles_next(run, after, index as int)
                }
            }
            &&& !(step is Verify && !missed) ==> run.cloaks_after(cloaks, event) == cloaks
        }),
{
    lemma_first_from(run.affected, |a: (usize, bool)| a.1, index + 1);
}

/// Once the cloak of a settled window is committed, the next window is taken
/// up.
pub proof fn law_committed_windows_are_done_with(
    run: Nudge,
    cloaks: CloakSets,
    event: WindowEvent,
    index: usize,
)
    requires
        run.consistent(),
        run.stage == (NudgeStage::Settling { index, step: SettleStep::Commit }),
    ensures
        settles_next(run, run.answered(cloaks, event), index as int),
        run.cloaks_after(cloaks, event) == cloaks,
{
    lemma_first_from(run.affected, |a: (usize, bool)| a.1, index + 1);
}

/// Settling leaves a window only for a reason: it has another class or is gone,
/// it was found on target, it gave no rectangle when inspected, it was moved
/// three times, or its cloak was committed, which follows one of the others.
pub proof fn law_settling_ends_for_a_reason(
    run: Nudge,
    cloaks: CloakSets,
    event: WindowEvent,
    index: usize,
    step: SettleStep,
)
    requires
        run.consistent(),
        run.stage == (NudgeStage::Settling { index, step }),
        run.admits(event),
        !(run.answered(cloaks, event).stage matches NudgeStage::Settling { index: i, .. } && i
            == index),
    ensures
        ({
            let target = run.targets[run.affected[index as int].0 as int];
            match step {
                SettleStep::Identify => !(event matches WindowEvent::Class(Some(class)) && (class@
                    == "ApplicationFrameWindow"@ || class@ == "WinUIDesktopWin32WindowClass"@)),
                SettleStep::Inspect { .. } => event matches WindowEvent::Bounds(bounds) && (
                bounds matches Some(rect) ==> !strays(rect, target)),
                SettleStep::Verify { .. } => event matches WindowEvent::Bounds(Some(rect))
                    && !strays(rect, target),
                SettleStep::Move { attempt, .. } => attempt == 2 && event is MoveRefused,
                SettleStep::Rest { attempt, .. } => attempt == 2,
                SettleStep::Commit => true,
                _ => false,
            }
        }),
{
}

} // verus!
