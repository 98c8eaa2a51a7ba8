//! Parking one window off-screen.
//!
//! The window system may accept a move before the window has left the desktop,
//! so the position is checked and the move repeated a few times. Ownership is
//! rolled back only if every move was refused: a window that accepted one may
//! still arrive, and must be recoverable then.

use vstd::prelude::*;

use crate::action::answers;
use crate::action::is_answer;
use crate::action::less_work;
use crate::action::WindowAction;
use crate::action::WindowEvent;
use crate::cloak::mark_placement_parked;
use crate::cloak::release_placement_parked;
use crate::cloak::CloakRegistry;
use crate::cloak::CloakSets;
use crate::geometry::ScreenRect;
use crate::text::decimal;
use crate::text::decimal_text;
use crate::text::text_of;
use crate::types::PositionFlags;
use crate::types::Win32Error;
use crate::types::WindowId;

verus! {

/// How often the move is tried.
pub const PARK_ATTEMPTS: u8 = 3;

/// What parking is waiting for.
#[derive(Clone, Copy, Debug, PartialEq, Eq, Structural)]
pub enum ParkStage {
    /// The new cloak to be committed.
    Marking,
    /// The window to be moved.
    Moving(u8),
    /// The compositor.
    Flushing(u8),
    /// Where the window is.
    Checking(u8),
    /// The old cloak to be committed again.
    Unmarking,
    /// Nothing: the window is parked.
    Parked,
    /// Nothing: the window could not be parked.
    Failed,
}

/// The progress of parking one window.
#[derive(Debug)]
pub struct ParkRun {
    window_id: WindowId,
    sentinel: i32,
    stage: ParkStage,
    move_was_accepted: bool,
    last_error: Option<String>,
}

/// The mathematical content of a `ParkRun`.
#[verifier::ext_equal]
pub struct Park {
    pub window_id: WindowId,
    /// The off-screen coordinate, on both axes.
    pub sentinel: i32,
    pub stage: ParkStage,
    /// Some move was accepted.
    pub move_was_accepted: bool,
    pub last_error: Option<Seq<char>>,
}

impl View for ParkRun {
    type V = Park;

    closed spec fn view(&self) -> Park {
        Park {
            window_id: self.window_id,
            sentinel: self.sentinel,
            stage: self.stage,
            move_was_accepted: self.move_was_accepted,
            last_error: text_of(self.last_error),
        }
    }
}

impl Park {
    /// Parking just began.
    pub open spec fn begun(window_id: WindowId, sentinel: i32) -> Park {
        Park {
            window_id,
            sentinel,
            stage: ParkStage::Marking,
            move_was_accepted: false,
            last_error: None,
        }
    }

    /// The attempts are counted within their limit.
    pub open spec fn consistent(self) -> bool {
        match self.stage {
            ParkStage::Moving(attempt) => attempt < PARK_ATTEMPTS,
            ParkStage::Flushing(attempt) => attempt < PARK_ATTEMPTS && self.move_was_accepted,
            ParkStage::Checking(attempt) => attempt < PARK_ATTEMPTS && self.move_was_accepted,
            ParkStage::Unmarking => !self.move_was_accepted && self.last_error is Some,
            ParkStage::Failed => self.last_error is Some,
            _ => true,
        }
    }

    /// The request that waits to be answered.
    pub open spec fn pending(self) -> WindowAction {
        match self.stage {
            ParkStage::Marking | ParkStage::Unmarking => WindowAction::CommitCloak {
                window_id: self.window_id,
            },
            ParkStage::Moving(_) => WindowAction::SetPosition {
                window_id: self.window_id,
                x: self.sentinel,
                y: self.sentinel,
                w: 0,
                h: 0,
                flags: PositionFlags::move_only(false),
            },
            ParkStage::Flushing(_) => WindowAction::Flush,
            ParkStage::Checking(_) => WindowAction::QueryRect { window_id: self.window_id },
            ParkStage::Parked | ParkStage::Failed => WindowAction::Finish,
        }
    }

    /// The rectangle lies at or beyond the off-screen coordinate.
    pub open spec fn reached(self, rect: ScreenRect) -> bool {
        rect.left <= self.sentinel && rect.top <= self.sentinel
    }

    /// An attempt failed.
    pub open spec fn attempt_failed(self, attempt: u8, error: Seq<char>) -> Park {
        Park {
            last_error: Some(error),
            stage: if attempt + 1 < PARK_ATTEMPTS {
                ParkStage::Moving((attempt + 1) as u8)
            } else if self.move_was_accepted {
                ParkStage::Failed
            } else {
                ParkStage::Unmarking
            },
            ..self
        }
    }

    /// Parking after the pending request was answered.
    pub open spec fn answered(self, event: WindowEvent) -> Park {
        match self.stage {
            ParkStage::Marking => Park { stage: ParkStage::Moving(0), ..self },
            ParkStage::Moving(attempt) => match event {
                WindowEvent::MoveRefused(error) => self.attempt_failed(attempt, error@),
                _ => Park {
                    move_was_accepted: true,
                    stage: ParkStage::Flushing(attempt),
                    ..self
                },
            },
            ParkStage::Flushing(attempt) => Park { stage: ParkStage::Checking(attempt), ..self },
            ParkStage::Checking(attempt) => match event {
                WindowEvent::Bounds(Some(rect)) if self.reached(rect) => Park {
                    stage: ParkStage::Parked,
                    ..self
                },
                _ => self.attempt_failed(
                    attempt,
                    "window rectangle did not reach the off-screen sentinel"@,
                ),
            },
            ParkStage::Unmarking => Park { stage: ParkStage::Failed, ..self },
            ParkStage::Parked | ParkStage::Failed => self,
        }
    }

    /// The cloaks after the pending request was answered: placement gives the
    /// window up when the last attempt failed and none was ever accepted.
    pub open spec fn cloaks_after(self, cloaks: CloakSets, event: WindowEvent) -> CloakSets {
        if self.stage is Moving && self.answered(event).stage is Unmarking {
            cloaks.unpark(self.window_id)
        } else {
            cloaks
        }
    }

    /// The report of a failure.
    pub open spec fn failure(self) -> Seq<char> {
        let reason = match self.last_error {
            Some(error) => error,
            None => "unknown error"@,
        };
        "Failed to park window "@ + decimal(self.window_id as nat)
            + " for placement after 3 attempts: "@ + reason
    }

    /// How much is left to do.
    pub open spec fn work(self) -> (nat, nat, nat) {
        match self.stage {
            ParkStage::Marking => (3, 0, 0),
            ParkStage::Moving(attempt) => (2, (PARK_ATTEMPTS - attempt) as nat, 2),
            ParkStage::Flushing(attempt) => (2, (PARK_ATTEMPTS - attempt) as nat, 1),
            ParkStage::Checking(attempt) => (2, (PARK_ATTEMPTS - attempt) as nat, 0),
            ParkStage::Unmarking => (1, 0, 0),
            ParkStage::Parked | ParkStage::Failed => (0, 0, 0),
        }
    }
}

/// Park a window at the off-screen coordinate. Placement owns it from here on,
/// until it is returned to the layout or parking fails outright.
pub fn park_window_for_placement(
    cloaks: &mut CloakRegistry,
    window_id: WindowId,
    sentinel: i32,
) -> (run: ParkRun)
    ensures
        final(cloaks)@ == old(cloaks)@.park(window_id),
        run@ == Park::begun(window_id, sentinel),
        run@.consistent(),
{
    mark_placement_parked(cloaks, window_id);
    ParkRun {
        window_id,
        sentinel,
        stage: ParkStage::Marking,
        move_was_accepted: false,
        last_error: None,
    }
}

impl ParkRun {
    /// The request that waits to be answered; `Finish` when there is none.
    pub fn pending(&self) -> (action: WindowAction)
        ensures
            action == self@.pending(),
    {
        match self.stage {
            ParkStage::Marking | ParkStage::Unmarking => WindowAction::CommitCloak {
                window_id: self.window_id,
            },
            ParkStage::Moving(_) => WindowAction::SetPosition {
                window_id: self.window_id,
                x: self.sentinel,
                y: self.sentinel,
                w: 0,
                h: 0,
                flags: PositionFlags::move_only(false),
            },
            ParkStage::Flushing(_) => WindowAction::Flush,
            ParkStage::Checking(_) => WindowAction::QueryRect { window_id: self.window_id },
            ParkStage::Parked | ParkStage::Failed => WindowAction::Finish,
        }
    }

    /// Whether an event can be taken now.
    pub fn admits(&self, event: &WindowEvent) -> (r: bool)
        ensures
            r == answers(self@.pending(), *event),
    {
        is_answer(&self.pending(), event)
    }

    fn fail_attempt(&mut self, attempt: u8, error: String, cloaks: &mut CloakRegistry)
        requires
            old(self)@.consistent(),
            attempt < PARK_ATTEMPTS,
        ensures
            final(self)@ == old(self)@.attempt_failed(attempt, error@),
            final(self)@.consistent(),
            final(cloaks)@ == if final(self)@.stage is Unmarking {
                old(cloaks)@.unpark(old(self)@.window_id)
            } else {
                old(cloaks)@
            },
    {
        self.last_error = Some(error);
        if attempt + 1 < PARK_ATTEMPTS {
            self.stage = ParkStage::Moving(attempt + 1);
        } else if self.move_was_accepted {
            self.stage = ParkStage::Failed;
        } else {
            self.stage = ParkStage::Unmarking;
            release_placement_parked(cloaks, self.window_id);
        }
    }

    /// Take the answer to the pending request.
    pub fn answer(&mut self, cloaks: &mut CloakRegistry, event: WindowEvent)
        requires
            old(self)@.consistent(),
            answers(old(self)@.pending(), event),
        ensures
            final(self)@ == old(self)@.answered(event),
            final(self)@.consistent(),
            final(cloaks)@ == old(self)@.cloaks_after(old(cloaks)@, event),
    {
        match self.stage {
            ParkStage::Marking => {
                self.stage = ParkStage::Moving(0);
            },
            ParkStage::Moving(attempt) => {
                match event {
                    WindowEvent::MoveRefused(error) => {
                        self.fail_attempt(attempt, error, cloaks);
                    },
                    _ => {
                        self.move_was_accepted = true;
                        self.stage = ParkStage::Flushing(attempt);
                    },
                }
            },
            ParkStage::Flushing(attempt) => {
                self.stage = ParkStage::Checking(attempt);
            },
            ParkStage::Checking(attempt) => {
                if let WindowEvent::Bounds(Some(rect)) = event {
                    if rect.left <= self.sentinel && rect.top <= self.sentinel {
                        self.stage = ParkStage::Parked;
                        return ;
                    }
                }
                self.fail_attempt(
                    attempt,
                    "window rectangle did not reach the off-screen sentinel".to_owned(),
                    cloaks,
                );
            },
            ParkStage::Unmarking => {
                self.stage = ParkStage::Failed;
            },
            ParkStage::Parked | ParkStage::Failed => {},
        }
    }

    /// The outcome: `None` while parking is under way, then success exactly if
    /// the window was found off-screen.
    pub fn outcome(&self) -> (r: Option<Result<(), Win32Error>>)
        ensures
            r is None <==> !(self@.stage is Parked || self@.stage is Failed),
            r matches Some(Ok(())) <==> self@.stage is Parked,
            r matches Some(Err(Win32Error::SetPositionFailed(text))) ==> text@ == self@.failure(),
    {
        match self.stage {
            ParkStage::Parked => Some(Ok(())),
            ParkStage::Failed => {
                let mut text = "Failed to park window ".to_owned();
                text.append(decimal_text(self.window_id).as_str());
                text.append(" for placement after 3 attempts: ");
                match &self.last_error {
                    Some(error) => {
                        text.append(error.as_str());
                    },
                    None => {
                        text.append("unknown error");
                    },
                }
                Some(Err(Win32Error::SetPositionFailed(text)))
            },
            _ => None,
        }
    }
}

/// Every answer brings parking closer to its end.
pub proof fn law_parking_progresses(run: Park, event: WindowEvent)
    requires
        run.consistent(),
        !(run.stage is Parked),
        !(run.stage is Failed),
    ensures
        less_work(run.answered(event).work(), run.work()),
{
}

/// While parking is under way placement keeps the window, unless this answer
/// ends it with every move refused; then placement does not own it. No other
/// window and no other owner is touched.
pub proof fn law_parking_rolls_back_only_total_refusal(
    run: Park,
    cloaks: CloakSets,
    event: WindowEvent,
)
    requires
        run.consistent(),
        answers(run.pending(), event),
    ensures
        ({
            let after = run.cloaks_after(cloaks, event);
            &&& run.answered(event).move_was_accepted ==> after == cloaks
            &&& after != cloaks ==> run.answered(event).stage is Unmarking
            &&& run.stage is Moving && run.answered(event).stage is Unmarking
                ==> !after.placement.contains(run.window_id)
            &&& after.ghosted == cloaks.ghosted && after.direct == cloaks.direct
            &&& forall|id: WindowId|
                id != run.window_id ==> (#[trigger] after.placement.contains(id)
                    <==> cloaks.placement.contains(id))
        }),
{
}

/// Parking commits the cloak of the window, then moves it to the off-screen
/// coordinate on both axes, keeping its size and waiting for it.
pub proof fn law_parking_moves_to_the_sentinel(
    window_id: WindowId,
    sentinel: i32,
    event: WindowEvent,
)
    ensures
        ({
            let run = Park::begun(window_id, sentinel);
            let after = run.answered(event);
            &&& run.pending() == (WindowAction::CommitCloak { window_id })
            &&& after.pending() matches WindowAction::SetPosition { window_id: id, x, y, flags, .. }
            &&& id == window_id && x == sentinel && y == sentinel
            &&& flags.no_size && flags.no_zorder && flags.no_activate
            &&& !flags.frame_changed && !flags.async_position
        }),
{
}

/// A move that is accepted is followed by waiting for the compositor and then
/// by asking where the window is. It is parked exactly if both its left and its
/// top edge are at or beyond the off-screen coordinate.
pub proof fn law_parking_is_judged_by_the_corner(run: Park, event: WindowEvent)
    requires
        run.consistent(),
        answers(run.pending(), event),
    ensures
        ({
            let after = run.answered(event);
            &&& after.window_id == run.window_id && after.sentinel == run.sentinel
            &&& run.stage is Moving && event is Moved ==> after.pending() == WindowAction::Flush
                && after.move_was_accepted
            &&& run.stage is Flushing ==> after.pending() == (WindowAction::QueryRect {
                window_id: run.window_id,
            })
            &&& !(run.stage is Parked) ==> (after.stage is Parked <==> run.stage is Checking && (
            event matches WindowEvent::Bounds(Some(rect)) && rect.left <= run.sentinel && rect.top
                <= run.sentinel))
            &&& run.move_was_accepted ==> after.move_was_accepted
            &&& after.move_was_accepted ==> run.move_was_accepted || event is Moved
        }),
{
}

/// An attempt that was refused, or after which the window is not where it
/// belongs, is followed by another up to the third. After that the window stays
/// with placement if some move was accepted; if none was, placement gives it up
/// and its cloak is committed again.
pub proof fn law_parking_is_tried_three_times(
    run: Park,
    cloaks: CloakSets,
    event: WindowEvent,
    attempt: u8,
)
    requires
        run.consistent(),
        answers(run.pending(), event),
        run.stage == ParkStage::Moving(attempt) && event is MoveRefused || run.stage
            == ParkStage::Checking(attempt) && !(event matches WindowEvent::Bounds(Some(rect))
            && rect.left <= run.sentinel && rect.top <= run.sentinel),
    ensures
        ({
            let after = run.answered(event);
            let kept = run.cloaks_after(cloaks, event);
            &&& attempt < 3
            &&& attempt < 2 ==> after.stage == ParkStage::Moving((attempt + 1) as u8)
                && after.pending() is SetPosition && kept == cloaks
            &&& attempt == 2 && run.move_was_accepted ==> after.stage is Failed && kept == cloaks
            &&& attempt == 2 && !run.move_was_accepted ==> {
                &&& after.pending() == (WindowAction::CommitCloak { window_id: run.window_id })
                &&& !kept.placement.contains(run.window_id)
                &&& after.answered(WindowEvent::Done).stage is Failed
            }
            &&& after.last_error == Some(
                match event {
                    WindowEvent::MoveRefused(error) => error@,
                    _ => "window rectangle did not reach the off-screen sentinel"@,
                },
            )
        }),
{
}

/// The report of a failure names the window and gives the last error.
pub proof fn law_the_report_names_the_window(run: Park, error: Seq<char>)
    requires
        run.last_error == Some(error),
    ensures
        run.failure() == "Failed to park window "@ + decimal(run.window_id as nat)
            + " for placement after 3 attempts: "@ + error,
{
}

} // verus!
