//! Making stubborn windows follow a landing.
//!
//! Some compositors rebuild their surface only when they observe a size
//! change, and some shell hosts restore their launch geometry a little after
//! they were placed. After a landing such windows are resized by one pixel and
//! back, twice, and the second kind is finally checked and moved again.

use vstd::prelude::*;

use crate::action::answers;
use crate::action::is_answer;
use crate::action::less_work;
use crate::action::WindowAction;
use crate::action::WindowEvent;
use crate::cloak::ghost_cloaked_contains;
use crate::cloak::is_placement_parked;
use crate::cloak::release_placement_parked;
use crate::cloak::CloakRegistry;
use crate::cloak::CloakSets;
use crate::geometry::fits;
use crate::geometry::fits_i32;
use crate::geometry::ScreenRect;
use crate::sets::first_from;
use crate::sets::lemma_first_from;
use crate::text::same_text;
use crate::types::PositionFlags;
use crate::types::WindowId;

verus! {

/// How often a window that lost its geometry is moved back.
pub const SETTLE_ATTEMPTS: u8 = 3;

/// How far a window may be from where it was asked to be.
pub const LANDING_TOLERANCE: i32 = 2;

/// Electron and Chromium windows.
pub const CHROMIUM_CLASS: &'static str = "Chrome_WidgetWin_1";

/// Firefox windows.
pub const MOZILLA_CLASS: &'static str = "MozillaWindowClass";

/// Windows Terminal.
pub const TERMINAL_CLASS: &'static str = "CASCADIA_HOSTING_WINDOW_CLASS";

/// Settings and legacy host windows.
pub const FRAME_HOST_CLASS: &'static str = "ApplicationFrameWindow";

/// Desktop WinUI windows.
pub const WINUI_CLASS: &'static str = "WinUIDesktopWin32WindowClass";

/// Classes whose compositor rebuilds only on an observed size change.
pub open spec fn sticky_compositor(class: Seq<char>) -> bool {
    class == CHROMIUM_CLASS@ || class == MOZILLA_CLASS@ || class == TERMINAL_CLASS@
}

/// Classes that restore their launch geometry after they were placed.
pub open spec fn delayed_geometry(class: Seq<char>) -> bool {
    class == FRAME_HOST_CLASS@ || class == WINUI_CLASS@
}

/// Whether windows of a class are nudged after a landing.
pub fn needs_landing_nudge(class_name: &str) -> (r: bool)
    ensures
        r == (sticky_compositor(class_name@) || delayed_geometry(class_name@)),
{
    same_text(class_name, CHROMIUM_CLASS) || same_text(class_name, MOZILLA_CLASS) || same_text(
        class_name,
        TERMINAL_CLASS,
    ) || needs_delayed_geometry_settle(class_name)
}

/// Whether windows of a class have their geometry asserted again later.
pub fn needs_delayed_geometry_settle(class_name: &str) -> (r: bool)
    ensures
        r == delayed_geometry(class_name@),
{
    same_text(class_name, FRAME_HOST_CLASS) || same_text(class_name, WINUI_CLASS)
}

/// Where a window is to be after a landing.
#[derive(Clone, Copy, Debug, PartialEq, Eq, Structural)]
pub struct NudgeTarget {
    pub window_id: WindowId,
    pub x: i32,
    pub y: i32,
    pub w: i32,
    pub h: i32,
}

/// Two coordinates are within the landing tolerance.
pub open spec fn near(a: int, b: int) -> bool {
    -LANDING_TOLERANCE <= a - b <= LANDING_TOLERANCE
}

/// The distance between two coordinates can be represented.
pub open spec fn comparable(a: int, b: int) -> bool {
    -0x8000_0000 < a - b < 0x8000_0000
}

/// Whether two coordinates are within the landing tolerance.
pub fn is_near(a: i32, b: i32) -> (r: bool)
    requires
        comparable(a as int, b as int),
    ensures
        r == near(a as int, b as int),
{
    let distance: i32 = a - b;
    -2 <= distance && distance <= 2
}

/// Whether the distance between two coordinates can be represented.
pub fn is_comparable(a: i32, b: i32) -> (r: bool)
    ensures
        r == comparable(a as int, b as int),
{
    let distance: i64 = a as i64 - b as i64;
    -0x8000_0000 < distance && distance < 0x8000_0000
}

/// The rectangle is where the target asks, to within the tolerance.
pub open spec fn on_target(rect: ScreenRect, target: NudgeTarget) -> bool {
    &&& near(rect.left as int, target.x as int)
    &&& near(rect.top as int, target.y as int)
    &&& near(rect.right - rect.left, target.w as int)
    &&& near(rect.bottom - rect.top, target.h as int)
}

/// Every distance taken when comparing a rectangle with a target can be
/// represented. A distance is only taken when the ones before it are small.
pub open spec fn target_comparable(rect: ScreenRect, target: NudgeTarget) -> bool {
    &&& comparable(rect.left as int, target.x as int)
    &&& near(rect.left as int, target.x as int) ==> {
        &&& comparable(rect.top as int, target.y as int)
        &&& near(rect.top as int, target.y as int) ==> {
            &&& fits_i32(rect.right - rect.left)
            &&& comparable(rect.right - rect.left, target.w as int)
            &&& near(rect.right - rect.left, target.w as int) ==> {
                &&& fits_i32(rect.bottom - rect.top)
                &&& comparable(rect.bottom - rect.top, target.h as int)
            }
        }
    }
}

/// Whether a rectangle is where the target asks, to within the tolerance.
pub fn rect_matches_nudge_target(rect: ScreenRect, target: &NudgeTarget) -> (r: bool)
    requires
        target_comparable(rect, *target),
    ensures
        r == on_target(rect, *target),
{
    is_near(rect.left, target.x) && is_near(rect.top, target.y) && is_near(
        rect.right - rect.left,
        target.w,
    ) && is_near(rect.bottom - rect.top, target.h)
}

/// Whether a rectangle can be compared with a target.
pub fn is_target_comparable(rect: ScreenRect, target: &NudgeTarget) -> (r: bool)
    ensures
        r == target_comparable(rect, *target),
{
    if !is_comparable(rect.left, target.x) {
        return false;
    }
    if !is_near(rect.left, target.x) {
        return true;
    }
    if !is_comparable(rect.top, target.y) {
        return false;
    }
    if !is_near(rect.top, target.y) {
        return true;
    }
    if !fits(rect.right as i64 - rect.left as i64) || !is_comparable(
        rect.right - rect.left,
        target.w,
    ) {
        return false;
    }
    if !is_near(rect.right - rect.left, target.w) {
        return true;
    }
    fits(rect.bottom as i64 - rect.top as i64) && is_comparable(rect.bottom - rect.top, target.h)
}

/// Which time windows are nudged.
#[derive(Clone, Copy, Debug, PartialEq, Eq, Structural)]
pub enum NudgeRound {
    /// Every target; whether this one's geometry is to be settled later.
    First { delayed: bool },
    /// Every window that followed the first time.
    Second,
    /// Those whose geometry is to be settled.
    Third,
}

/// What nudging one window is waiting for.
#[derive(Clone, Copy, Debug, PartialEq, Eq, Structural)]
pub enum NudgeStep {
    /// Its class.
    Identify,
    /// It to be one pixel narrower.
    Shrink,
    /// Its class again: the handle may have been recycled.
    Recheck,
    /// It to be restored.
    Restore,
}

/// What settling one window's geometry is waiting for. `parked` remembers
/// whether placement owned the window at the start.
#[derive(Clone, Copy, Debug, PartialEq, Eq, Structural)]
pub enum SettleStep {
    /// Its class.
    Identify,
    /// It to be revealed.
    Reveal,
    /// Where it is.
    Inspect { parked: bool },
    /// It to be moved.
    Move { parked: bool, attempt: u8 },
    /// The compositor.
    Flush { parked: bool, attempt: u8 },
    /// Where it is after the move.
    Verify { parked: bool, attempt: u8 },
    /// A pause before the next attempt.
    Rest { parked: bool, attempt: u8 },
    /// Its cloak to be committed.
    Commit,
}

/// What a run is waiting for.
#[allow(inconsistent_fields)]
#[derive(Clone, Copy, Debug, PartialEq, Eq, Structural)]
pub enum NudgeStage {
    /// The class of the target at this index.
    ReadingClass(usize),
    /// One window to be nudged. The index is into the targets in the first
    /// round, and into the affected windows afterwards.
    Nudging { round: NudgeRound, index: usize, step: NudgeStep },
    /// The compositor, after the first round.
    Flushing,
    /// A pause before the second round.
    PauseBeforeSecond,
    /// A pause before the third round.
    PauseBeforeThird,
    /// A pause before the geometry is settled.
    PauseBeforeSettle,
    /// The geometry of the affected window at this index to be settled.
    Settling { index: usize, step: SettleStep },
    /// Nothing any more.
    Finished,
}

/// The progress of nudging the windows of one landing.
#[derive(Debug)]
pub struct NudgeRun {
    targets: Vec<NudgeTarget>,
    affected: Vec<(usize, bool)>,
    class: String,
    stage: NudgeStage,
}

/// The mathematical content of a `NudgeRun`.
#[verifier::ext_equal]
pub struct Nudge {
    pub targets: Seq<NudgeTarget>,
    /// The targets that followed the first time, with whether their geometry
    /// is to be settled.
    pub affected: Seq<(usize, bool)>,
    /// The class that the window being nudged had at the start.
    pub class: Seq<char>,
    pub stage: NudgeStage,
}

impl View for NudgeRun {
    type V = Nudge;

    closed spec fn view(&self) -> Nudge {
        Nudge {
            targets: self.targets@,
            affected: self.affected@,
            class: self.class@,
            stage: self.stage,
        }
    }
}

impl Nudge {
    /// Nothing to nudge.
    pub open spec fn none() -> Nudge {
        Nudge {
            targets: Seq::empty(),
            affected: Seq::empty(),
            class: Seq::empty(),
            stage: NudgeStage::Finished,
        }
    }

    /// Ready to nudge some windows.
    pub open spec fn begun(targets: Seq<NudgeTarget>) -> Nudge {
        Nudge {
            targets,
            stage: if targets.len() == 0 {
                NudgeStage::Finished
            } else {
                NudgeStage::ReadingClass(0)
            },
            ..Nudge::none()
        }
    }

    /// The first affected window from an index on whose geometry is to be
    /// settled.
    pub open spec fn next_delayed(self, from: int) -> int {
        first_from(self.affected, |a: (usize, bool)| a.1, from)
    }

    /// The window at an index of a round.
    pub open spec fn nudged(self, round: NudgeRound, index: usize) -> NudgeTarget {
        if round is First {
            self.targets[index as int]
        } else {
            self.affected_target(index)
        }
    }

    /// The affected window at an index.
    pub open spec fn affected_target(self, index: usize) -> NudgeTarget {
        self.targets[self.affected[index as int].0 as int]
    }

    /// The stage names existing windows.
    pub open spec fn consistent(self) -> bool {
        &&& self.targets.len() <= usize::MAX
        &&& forall|i: int| 0 <= i < self.targets.len() ==> (#[trigger] self.targets[i]).w > 1
        &&& forall|i: int|
            0 <= i < self.affected.len() ==> (#[trigger] self.affected[i]).0 < self.targets.len()
        &&& match self.stage {
            NudgeStage::ReadingClass(index) => index < self.targets.len() && self.affected.len()
                <= index,
            NudgeStage::Nudging { round: NudgeRound::First { .. }, index, .. } => index
                < self.targets.len() && self.affected.len() <= index,
            NudgeStage::Nudging { round: NudgeRound::Third, index, .. } => index
                < self.affected.len() && self.affected[index as int].1,
            NudgeStage::Nudging { index, .. } => index < self.affected.len(),
            NudgeStage::Flushing | NudgeStage::PauseBeforeSecond => self.affected.len() > 0,
            NudgeStage::PauseBeforeThird | NudgeStage::PauseBeforeSettle => self.next_delayed(0)
                < self.affected.len(),
            NudgeStage::Settling { index, step } => {
                &&& index < self.affected.len()
                &&& match step {
                    SettleStep::Move { attempt, .. } => attempt < SETTLE_ATTEMPTS,
                    SettleStep::Flush { attempt, .. } => attempt < SETTLE_ATTEMPTS,
                    SettleStep::Verify { attempt, .. } => attempt < SETTLE_ATTEMPTS,
                    SettleStep::Rest { attempt, .. } => attempt < SETTLE_ATTEMPTS,
                    _ => true,
                }
            },
            NudgeStage::Finished => true,
        }
        &&& self.affected.len() <= self.targets.len()
    }

    /// The request that the run waits to have answered.
    pub open spec fn pending(self) -> WindowAction {
        match self.stage {
            NudgeStage::ReadingClass(index) => WindowAction::ReadClass {
                window_id: self.targets[index as int].window_id,
            },
            NudgeStage::Nudging { round, index, step } => {
                let t = self.nudged(round, index);
                match step {
                    NudgeStep::Identify | NudgeStep::Recheck => WindowAction::Identify {
                        window_id: t.window_id,
                    },
                    NudgeStep::Shrink => WindowAction::SetPosition {
                        window_id: t.window_id,
                        x: t.x,
                        y: t.y,
                        w: (t.w - 1) as i32,
                        h: t.h,
                        flags: PositionFlags::quiet(),
                    },
                    NudgeStep::Restore => WindowAction::SetPosition {
                        window_id: t.window_id,
                        x: t.x,
                        y: t.y,
                        w: t.w,
                        h: t.h,
                        flags: PositionFlags::quiet(),
                    },
                }
            },
            NudgeStage::Flushing => WindowAction::Flush,
            NudgeStage::PauseBeforeSecond => WindowAction::Sleep { millis: 16 },
            NudgeStage::PauseBeforeThird => WindowAction::Sleep { millis: 48 },
            NudgeStage::PauseBeforeSettle => WindowAction::Sleep { millis: 240 },
            NudgeStage::Settling { index, step } => {
                let t = self.affected_target(index);
                match step {
                    SettleStep::Identify => WindowAction::Identify { window_id: t.window_id },
                    SettleStep::Reveal => WindowAction::Reveal { window_id: t.window_id },
                    SettleStep::Inspect { .. } | SettleStep::Verify { .. } =>
                        WindowAction::QueryRect { window_id: t.window_id },
                    SettleStep::Move { .. } => WindowAction::SetPosition {
                        window_id: t.window_id,
                        x: t.x,
                        y: t.y,
                        w: t.w,
                        h: t.h,
                        flags: PositionFlags::quiet(),
                    },
                    SettleStep::Flush { .. } => WindowAction::Flush,
                    SettleStep::Rest { .. } => WindowAction::Sleep { millis: 16 },
                    SettleStep::Commit => WindowAction::CommitCloak { window_id: t.window_id },
                }
            },
            NudgeStage::Finished => WindowAction::Continue,
        }
    }

    /// The event answers the pending request, and a rectangle it brings can be
    /// compared with the target.
    pub open spec fn admits(self, event: WindowEvent) -> bool {
        &&& answers(self.pending(), event)
        &&& match (self.stage, event) {
            (NudgeStage::Settling { index, .. }, WindowEvent::Bounds(Some(rect))) =>
                target_comparable(rect, self.affected_target(index)),
            _ => true,
        }
    }

    /// The run with its stage replaced.
    pub open spec fn at(self, stage: NudgeStage) -> Nudge {
        Nudge { stage, ..self }
    }

    /// One window was nudged, or would not be.
    pub open spec fn after_nudge(self, round: NudgeRound, index: usize, followed: bool) -> Nudge {
        match round {
            NudgeRound::First { delayed } => {
                let affected = if followed {
                    self.affected.push((index, delayed))
                } else {
                    self.affected
                };
                Nudge {
                    affected,
                    stage: if index + 1 < self.targets.len() {
                        NudgeStage::ReadingClass((index + 1) as usize)
                    } else if affected.len() == 0 {
                        NudgeStage::Finished
                    } else {
                        NudgeStage::Flushing
                    },
                    ..self
                }
            },
            NudgeRound::Second => if index + 1 < self.affected.len() {
                self.at(
                    NudgeStage::Nudging {
                        round,
                        index: (index + 1) as usize,
                        step: NudgeStep::Identify,
                    },
                )
            } else if self.next_delayed(0) < self.affected.len() {
                self.at(NudgeStage::PauseBeforeThird)
            } else {
                self.at(NudgeStage::Finished)
            },
            NudgeRound::Third => if self.next_delayed(index + 1) < self.affected.len() {
                self.at(
                    NudgeStage::Nudging {
                        round,
                        index: self.next_delayed(index + 1) as usize,
                        step: NudgeStep::Identify,
                    },
                )
            } else {
                self.at(NudgeStage::PauseBeforeSettle)
            },
        }
    }

    /// One window's geometry was dealt with: on to the next.
    pub open spec fn after_settle(self, index: usize) -> Nudge {
        let next = self.next_delayed(index + 1);
        if next < self.affected.len() {
            self.at(NudgeStage::Settling { index: next as usize, step: SettleStep::Identify })
        } else {
            self.at(NudgeStage::Finished)
        }
    }

    /// A window could not be settled: if placement owned it, its cloak is
    /// restored.
    pub open spec fn settle_failed(self, index: usize, parked: bool) -> Nudge {
        if parked {
            self.at(NudgeStage::Settling { index, step: SettleStep::Commit })
        } else {
            self.after_settle(index)
        }
    }

    /// A window is where it belongs: if placement still owns it, that ends and
    /// its cloak is lifted.
    pub open spec fn settled(self, index: usize, parked: bool, cloaks: CloakSets) -> Nudge {
        if parked && cloaks.placement.contains(self.affected_target(index).window_id) {
            self.at(NudgeStage::Settling { index, step: SettleStep::Commit })
        } else {
            self.after_settle(index)
        }
    }

    /// An attempt to move a window failed.
    pub open spec fn settle_again(self, index: usize, parked: bool, attempt: u8) -> Nudge {
        if attempt + 1 < SETTLE_ATTEMPTS {
            self.at(
                NudgeStage::Settling {
                    index,
                    step: SettleStep::Move { parked, attempt: (attempt + 1) as u8 },
                },
            )
        } else {
            self.settle_failed(index, parked)
        }
    }

    /// The event says that a window being settled is where it belongs.
    pub open spec fn found_on_target(self, index: usize, event: WindowEvent) -> bool {
        event matches WindowEvent::Bounds(Some(rect)) && on_target(
            rect,
            self.affected_target(index),
        )
    }

    /// One window's nudge after an answer.
    pub open spec fn nudge_answered(
        self,
        round: NudgeRound,
        index: usize,
        step: NudgeStep,
        event: WindowEvent,
    ) -> Nudge {
        match (step, event) {
            (NudgeStep::Identify, WindowEvent::Class(Some(class))) if sticky_compositor(class@)
                || delayed_geometry(class@) => Nudge {
                class: class@,
                stage: NudgeStage::Nudging { round, index, step: NudgeStep::Shrink },
                ..self
            },
            (NudgeStep::Shrink, WindowEvent::Moved) => self.at(
                NudgeStage::Nudging { round, index, step: NudgeStep::Recheck },
            ),
            (NudgeStep::Recheck, WindowEvent::Class(Some(class))) if class@ == self.class =>
                self.at(NudgeStage::Nudging { round, index, step: NudgeStep::Restore }),
            (NudgeStep::Restore, WindowEvent::Moved) => self.after_nudge(round, index, true),
            _ => self.after_nudge(round, index, false),
        }
    }

    /// Settling one window after an answer.
    pub open spec fn settle_answered(
        self,
        index: usize,
        step: SettleStep,
        cloaks: CloakSets,
        event: WindowEvent,
    ) -> Nudge {
        let id = self.affected_target(index).window_id;
        match step {
            SettleStep::Identify => match event {
                WindowEvent::Class(Some(class)) if delayed_geometry(class@) => {
                    let parked = cloaks.placement.contains(id);
                    self.at(
                        NudgeStage::Settling {
                            index,
                            step: if parked && !cloaks.ghosted.contains(id) {
                                SettleStep::Reveal
                            } else {
                                SettleStep::Inspect { parked }
                            },
                        },
                    )
                },
                _ => self.after_settle(index),
            },
            SettleStep::Reveal => self.at(
                NudgeStage::Settling { index, step: SettleStep::Inspect { parked: true } },
            ),
            SettleStep::Inspect { parked } => if event == WindowEvent::Bounds(None) {
                self.settle_failed(index, parked)
            } else if self.found_on_target(index, event) {
                self.settled(index, parked, cloaks)
            } else {
                self.at(
                    NudgeStage::Settling { index, step: SettleStep::Move { parked, attempt: 0 } },
                )
            },
            SettleStep::Move { parked, attempt } => if event is Moved {
                self.at(NudgeStage::Settling { index, step: SettleStep::Flush { parked, attempt } })
            } else {
                self.settle_again(index, parked, attempt)
            },
            SettleStep::Flush { parked, attempt } => self.at(
                NudgeStage::Settling { index, step: SettleStep::Verify { parked, attempt } },
            ),
            SettleStep::Verify { parked, attempt } => if self.found_on_target(index, event) {
                self.settled(index, parked, cloaks)
            } else {
                self.at(NudgeStage::Settling { index, step: SettleStep::Rest { parked, attempt } })
            },
            SettleStep::Rest { parked, attempt } => self.settle_again(index, parked, attempt),
            SettleStep::Commit => self.after_settle(index),
        }
    }

    /// The run after the pending request was answered.
    pub open spec fn answered(self, cloaks: CloakSets, event: WindowEvent) -> Nudge {
        match self.stage {
            NudgeStage::ReadingClass(index) => self.at(
                NudgeStage::Nudging {
                    round: NudgeRound::First {
                        delayed: event matches WindowEvent::Class(Some(class)) && delayed_geometry(
                            class@,
                        ),
                    },
                    index,
                    step: NudgeStep::Identify,
                },
            ),
            NudgeStage::Nudging { round, index, step } => self.nudge_answered(
                round,
                index,
                step,
                event,
            ),
            NudgeStage::Flushing => self.at(NudgeStage::PauseBeforeSecond),
            NudgeStage::PauseBeforeSecond => self.at(
                NudgeStage::Nudging {
                    round: NudgeRound::Second,
                    index: 0,
                    step: NudgeStep::Identify,
                },
            ),
            NudgeStage::PauseBeforeThird => self.at(
                NudgeStage::Nudging {
                    round: NudgeRound::Third,
                    index: self.next_delayed(0) as usize,
                    step: NudgeStep::Identify,
                },
            ),
            NudgeStage::PauseBeforeSettle => self.at(
                NudgeStage::Settling {
                    index: self.next_delayed(0) as usize,
                    step: SettleStep::Identify,
                },
            ),
            NudgeStage::Settling { index, step } => self.settle_answered(
                index,
                step,
                cloaks,
                event,
            ),
            NudgeStage::Finished => self,
        }
    }

    /// The cloaks after the pending request was answered: placement gives up a
    /// window that it owned when settling began and that was found where it
    /// belongs.
    pub open spec fn cloaks_after(self, cloaks: CloakSets, event: WindowEvent) -> CloakSets {
        match self.stage {
            NudgeStage::Settling {
                index,
                step: SettleStep::Inspect { parked: true },
            } if self.found_on_target(index, event) => cloaks.unpark(
                self.affected_target(index).window_id,
            ),
            NudgeStage::Settling {
                index,
                step: SettleStep::Verify { parked: true, .. },
            } if self.found_on_target(index, event) => cloaks.unpark(
                self.affected_target(index).window_id,
            ),
            _ => cloaks,
        }
    }
}

impl NudgeRun {
    /// A run with nothing to nudge.
    pub fn new() -> (run: NudgeRun)
        ensures
            run@ == Nudge::none(),
            run@.consistent(),
    {
        NudgeRun {
            targets: Vec::new(),
            affected: Vec::new(),
            class: String::new(),
            stage: NudgeStage::Finished,
        }
    }

    /// Start nudging some windows.
    pub fn nudge_sticky_compositor_windows(targets: Vec<NudgeTarget>) -> (run: NudgeRun)
        requires
            forall|i: int| 0 <= i < targets@.len() ==> (#[trigger] targets@[i]).w > 1,
        ensures
            run@ == Nudge::begun(targets@),
            run@.consistent(),
    {
        let stage = if targets.len() == 0 {
            NudgeStage::Finished
        } else {
            NudgeStage::ReadingClass(0)
        };
        NudgeRun { targets, affected: Vec::new(), class: String::new(), stage }
    }

    /// Whether every window was dealt with.
    pub fn is_finished(&self) -> (r: bool)
        ensures
            r == (self@.stage is Finished),
    {
        matches!(self.stage, NudgeStage::Finished)
    }

    fn target_of(&self, round: NudgeRound, index: usize) -> (target: NudgeTarget)
        requires
            self@.consistent(),
            self@.stage matches NudgeStage::Nudging { round: r, index: i, .. } && r == round && i
                == index,
        ensures
            target == self@.nudged(round, index),
    {
        match round {
            NudgeRound::First { .. } => self.targets[index],
            NudgeRound::Second | NudgeRound::Third => {
                self.targets[self.affected[index].0]
            },
        }
    }

    fn affected_target_of(&self, index: usize) -> (target: NudgeTarget)
        requires
            self@.consistent(),
            index < self@.affected.len(),
        ensures
            target == self@.affected_target(index),
    {
        self.targets[self.affected[index].0]
    }

    fn find_delayed(&self, from: usize) -> (found: usize)
        requires
            from <= self@.affected.len(),
        ensures
            found == self@.next_delayed(from as int),
            from <= found <= self@.affected.len(),
            found < self@.affected.len() ==> self@.affected[found as int].1,
    {
        let ghost wanted = |a: (usize, bool)| a.1;
        let mut i: usize = from;
        while i < self.affected.len()
            invariant
                from <= i <= self@.affected.len(),
                self@.affected == self.affected@,
                wanted == (|a: (usize, bool)| a.1),
                first_from(self.affected@, wanted, from as int) == first_from(
                    self.affected@,
                    wanted,
                    i as int,
                ),
            decreases self.affected.len() - i,
        {
            if self.affected[i].1 {
                return i;
            }
            i = i + 1;
        }
        i
    }

    /// The request that waits to be answered; `Continue` when there is none.
    pub fn pending(&self) -> (action: WindowAction)
        requires
            self@.consistent(),
        ensures
            action == self@.pending(),
    {
        match self.stage {
            NudgeStage::ReadingClass(index) => WindowAction::ReadClass {
                window_id: self.targets[index].window_id,
            },
            NudgeStage::Nudging { round, index, step } => {
                let t = self.target_of(round, index);
                assert(t.w > 1) by {
                    if !(round is First) {
                        assert(self@.affected[index as int].0 < self@.targets.len());
                    }
                }
                match step {
                    NudgeStep::Identify | NudgeStep::Recheck => WindowAction::Identify {
                        window_id: t.window_id,
                    },
                    NudgeStep::Shrink => WindowAction::SetPosition {
                        window_id: t.window_id,
                        x: t.x,
                        y: t.y,
                        w: t.w - 1,
                        h: t.h,
                        flags: PositionFlags::quiet(),
                    },
                    NudgeStep::Restore => WindowAction::SetPosition {
                        window_id: t.window_id,
                        x: t.x,
                        y: t.y,
                        w: t.w,
                        h: t.h,
                        flags: PositionFlags::quiet(),
                    },
                }
            },
            NudgeStage::Flushing => WindowAction::Flush,
            NudgeStage::PauseBeforeSecond => WindowAction::Sleep { millis: 16 },
            NudgeStage::PauseBeforeThird => WindowAction::Sleep { millis: 48 },
            NudgeStage::PauseBeforeSettle => WindowAction::Sleep { millis: 240 },
            NudgeStage::Settling { index, step } => {
                let t = self.affected_target_of(index);
                match step {
                    SettleStep::Identify => WindowAction::Identify { window_id: t.window_id },
                    SettleStep::Reveal => WindowAction::Reveal { window_id: t.window_id },
                    SettleStep::Inspect { .. } | SettleStep::Verify { .. } =>
                        WindowAction::QueryRect { window_id: t.window_id },
                    SettleStep::Move { .. } => WindowAction::SetPosition {
                        window_id: t.window_id,
                        x: t.x,
                        y: t.y,
                        w: t.w,
                        h: t.h,
                        flags: PositionFlags::quiet(),
                    },
                    SettleStep::Flush { .. } => WindowAction::Flush,
                    SettleStep::Rest { .. } => WindowAction::Sleep { millis: 16 },
                    SettleStep::Commit => WindowAction::CommitCloak { window_id: t.window_id },
                }
            },
            NudgeStage::Finished => WindowAction::Continue,
        }
    }

    /// Whether an event can be taken now.
    pub fn admits(&self, event: &WindowEvent) -> (r: bool)
        requires
            self@.consistent(),
        ensures
            r == self@.admits(*event),
    {
        if !is_answer(&self.pending(), event) {
            return false;
        }
        if let NudgeStage::Settling { index, .. } = self.stage {
            if let WindowEvent::Bounds(Some(rect)) = event {
                return is_target_comparable(*rect, &self.affected_target_of(index));
            }
        }
        true
    }

    fn finish_nudge(&mut self, round: NudgeRound, index: usize, followed: bool)
        requires
            old(self)@.consistent(),
            old(self)@.stage matches NudgeStage::Nudging { round: r, index: i, .. } && r == round
                && i == index,
        ensures
            final(self)@ == old(self)@.after_nudge(round, index, followed),
            final(self)@.consistent(),
    {
        match round {
            NudgeRound::First { delayed } => {
                let ghost earlier = self.affected@;
                if followed {
                    self.affected.push((index, delayed));
                }
                assert forall|i: int| 0 <= i < self.affected@.len() implies (
                #[trigger] self.affected@[i]).0 < self.targets@.len() by {
                    if i < earlier.len() {
                        assert(self.affected@[i] == earlier[i]);
                    }
                }
                if index + 1 < self.targets.len() {
                    self.stage = NudgeStage::ReadingClass(index + 1);
                } else if self.affected.len() == 0 {
                    self.stage = NudgeStage::Finished;
                } else {
                    self.stage = NudgeStage::Flushing;
                }
            },
            NudgeRound::Second => {
                if index + 1 < self.affected.len() {
                    self.stage =
                    NudgeStage::Nudging { round, index: index + 1, step: NudgeStep::Identify };
                } else if self.find_delayed(0) < self.affected.len() {
                    self.stage = NudgeStage::PauseBeforeThird;
                } else {
                    self.stage = NudgeStage::Finished;
                }
            },
            NudgeRound::Third => {
                proof {
                    lemma_first_from(self@.affected, |a: (usize, bool)| a.1, 0);
                }
                let next = self.find_delayed(index + 1);
                if next < self.affected.len() {
                    self.stage =
                    NudgeStage::Nudging { round, index: next, step: NudgeStep::Identify };
                } else {
                    self.stage = NudgeStage::PauseBeforeSettle;
                }
            },
        }
    }

    fn finish_settle(&mut self, index: usize)
        requires
            old(self)@.consistent(),
            index < old(self)@.affected.len(),
        ensures
            final(self)@ == old(self)@.after_settle(index),
            final(self)@.consistent(),
    {
        let next = self.find_delayed(index + 1);
        if next < self.affected.len() {
            self.stage = NudgeStage::Settling { index: next, step: SettleStep::Identify };
        } else {
            self.stage = NudgeStage::Finished;
        }
    }

    fn fail_settle(&mut self, index: usize, parked: bool)
        requires
            old(self)@.consistent(),
            index < old(self)@.affected.len(),
        ensures
            final(self)@ == old(self)@.settle_failed(index, parked),
            final(self)@.consistent(),
    {
        if parked {
            self.stage = NudgeStage::Settling { index, step: SettleStep::Commit };
        } else {
            self.finish_settle(index);
        }
    }

    fn complete_settle(&mut self, index: usize, parked: bool, cloaks: &mut CloakRegistry)
        requires
            old(self)@.consistent(),
            index < old(self)@.affected.len(),
        ensures
            final(self)@ == old(self)@.settled(index, parked, old(cloaks)@),
            final(self)@.consistent(),
            final(cloaks)@ == if parked {
                old(cloaks)@.unpark(old(self)@.affected_target(index).window_id)
            } else {
                old(cloaks)@
            },
    {
        let id = self.affected_target_of(index).window_id;
        if parked && release_placement_parked(cloaks, id) {
            self.stage = NudgeStage::Settling { index, step: SettleStep::Commit };
        } else {
            self.finish_settle(index);
        }
    }

    fn repeat_settle(&mut self, index: usize, parked: bool, attempt: u8)
        requires
            old(self)@.consistent(),
            index < old(self)@.affected.len(),
            attempt < SETTLE_ATTEMPTS,
        ensures
            final(self)@ == old(self)@.settle_again(index, parked, attempt),
            final(self)@.consistent(),
    {
        if attempt + 1 < SETTLE_ATTEMPTS {
            self.stage =
            NudgeStage::Settling { index, step: SettleStep::Move { parked, attempt: attempt + 1 } };
        } else {
            self.fail_settle(index, parked);
        }
    }

    fn answer_nudge(&mut self, round: NudgeRound, index: usize, step: NudgeStep, event: WindowEvent)
        requires
            old(self)@.consistent(),
            old(self)@.stage == (NudgeStage::Nudging { round, index, step }),
            old(self)@.admits(event),
        ensures
            final(self)@ == old(self)@.nudge_answered(round, index, step, event),
            final(self)@.consistent(),
    {
        match step {
            NudgeStep::Identify => {
                if let WindowEvent::Class(Some(class)) = event {
                    if needs_landing_nudge(class.as_str()) {
                        self.class = class;
                        self.stage = NudgeStage::Nudging { round, index, step: NudgeStep::Shrink };
                        return ;
                    }
                }
                self.finish_nudge(round, index, false);
            },
            NudgeStep::Shrink => {
                if let WindowEvent::Moved = event {
                    self.stage = NudgeStage::Nudging { round, index, step: NudgeStep::Recheck };
                } else {
                    self.finish_nudge(round, index, false);
                }
            },
            NudgeStep::Recheck => {
                if let WindowEvent::Class(Some(class)) = event {
                    if class == self.class {
                        self.stage = NudgeStage::Nudging { round, index, step: NudgeStep::Restore };
                        return ;
                    }
                }
                self.finish_nudge(round, index, false);
            },
            NudgeStep::Restore => {
                let followed = matches!(event, WindowEvent::Moved);
                self.finish_nudge(round, index, followed);
            },
        }
    }

    fn answer_settle(
        &mut self,
        index: usize,
        step: SettleStep,
        cloaks: &mut CloakRegistry,
        event: WindowEvent,
    )
        requires
            old(self)@.consistent(),
            old(self)@.stage == (NudgeStage::Settling { index, step }),
            old(self)@.admits(event),
        ensures
            final(self)@ == old(self)@.settle_answered(index, step, old(cloaks)@, event),
            final(self)@.consistent(),
            final(cloaks)@ == old(self)@.cloaks_after(old(cloaks)@, event),
    {
        let target = self.affected_target_of(index);
        let id = target.window_id;
        match step {
            SettleStep::Identify => {
                if let WindowEvent::Class(Some(class)) = event {
                    if needs_delayed_geometry_settle(class.as_str()) {
                        let parked = is_placement_parked(cloaks, id);
                        let next = if parked && !ghost_cloaked_contains(cloaks, id) {
                            SettleStep::Reveal
                        } else {
                            SettleStep::Inspect { parked }
                        };
                        self.stage = NudgeStage::Settling { index, step: next };
                        return ;
                    }
                }
                self.finish_settle(index);
            },
            SettleStep::Reveal => {
                self.stage =
                NudgeStage::Settling { index, step: SettleStep::Inspect { parked: true } };
            },
            SettleStep::Inspect { parked } => {
                if let WindowEvent::Bounds(Some(rect)) = event {
                    if rect_matches_nudge_target(rect, &target) {
                        self.complete_settle(index, parked, cloaks);
                    } else {
                        self.stage =
                        NudgeStage::Settling {
                            index,
                            step: SettleStep::Move { parked, attempt: 0 },
                        };
                    }
                } else {
                    self.fail_settle(index, parked);
                }
            },
            SettleStep::Move { parked, attempt } => {
                if let WindowEvent::Moved = event {
                    self.stage =
                    NudgeStage::Settling { index, step: SettleStep::Flush { parked, attempt } };
                } else {
                    self.repeat_settle(index, parked, attempt);
                }
            },
            SettleStep::Flush { parked, attempt } => {
                self.stage =
                NudgeStage::Settling { index, step: SettleStep::Verify { parked, attempt } };
            },
            SettleStep::Verify { parked, attempt } => {
                if let WindowEvent::Bounds(Some(rect)) = event {
                    if rect_matches_nudge_target(rect, &target) {
                        self.complete_settle(index, parked, cloaks);
                        return ;
                    }
                }
                self.stage =
                NudgeStage::Settling { index, step: SettleStep::Rest { parked, attempt } };
            },
            SettleStep::Rest { parked, attempt } => {
                self.repeat_settle(index, parked, attempt);
            },
            SettleStep::Commit => {
                self.finish_settle(index);
            },
        }
    }

    /// Take the answer to the pending request.
    pub fn answer(&mut self, cloaks: &mut CloakRegistry, event: WindowEvent)
        requires
            old(self)@.consistent(),
            old(self)@.admits(event),
        ensures
            final(self)@ == old(self)@.answered(old(cloaks)@, event),
            final(self)@.consistent(),
            final(cloaks)@ == old(self)@.cloaks_after(old(cloaks)@, event),
    {
        match self.stage {
            NudgeStage::ReadingClass(index) => {
                let delayed = match event {
                    WindowEvent::Class(Some(class)) => needs_delayed_geometry_settle(
                        class.as_str(),
                    ),
                    _ => false,
                };
                self.stage =
                NudgeStage::Nudging {
                    round: NudgeRound::First { delayed },
                    index,
                    step: NudgeStep::Identify,
                };
            },
            NudgeStage::Nudging { round, index, step } => {
                self.answer_nudge(round, index, step, event);
            },
            NudgeStage::Flushing => {
                self.stage = NudgeStage::PauseBeforeSecond;
            },
            NudgeStage::PauseBeforeSecond => {
                self.stage =
                NudgeStage::Nudging {
                    round: NudgeRound::Second,
                    index: 0,
                    step: NudgeStep::Identify,
                };
            },
            NudgeStage::PauseBeforeThird => {
                let index = self.find_delayed(0);
                self.stage =
                NudgeStage::Nudging { round: NudgeRound::Third, index, step: NudgeStep::Identify };
            },
            NudgeStage::PauseBeforeSettle => {
                let index = self.find_delayed(0);
                self.stage = NudgeStage::Settling { index, step: SettleStep::Identify };
            },
            NudgeStage::Settling { index, step } => {
                self.answer_settle(index, step, cloaks, event);
            },
            NudgeStage::Finished => {},
        }
    }
}

impl NudgeStep {
    /// How many answers the step is from the end of its window.
    pub open spec fn left(self) -> nat {
        match self {
            NudgeStep::Identify => 4,
            NudgeStep::Shrink => 3,
            NudgeStep::Recheck => 2,
            NudgeStep::Restore => 1,
        }
    }
}

impl SettleStep {
    /// A bound on how many answers the step is from the end of its window.
    pub open spec fn left(self) -> nat {
        match self {
            SettleStep::Identify => 20,
            SettleStep::Reveal => 19,
            SettleStep::Inspect { .. } => 18,
            SettleStep::Move { attempt, .. } => (17 - 4 * attempt) as nat,
            SettleStep::Flush { attempt, .. } => (16 - 4 * attempt) as nat,
            SettleStep::Verify { attempt, .. } => (15 - 4 * attempt) as nat,
            SettleStep::Rest { attempt, .. } => (14 - 4 * attempt) as nat,
            SettleStep::Commit => 1,
        }
    }
}

impl Nudge {
    /// How much is left to do: rounds, windows of the round, answers for the
    /// window.
    pub open spec fn work(self) -> (nat, nat, nat) {
        match self.stage {
            NudgeStage::ReadingClass(index) => (8, (self.targets.len() - index) as nat, 5),
            NudgeStage::Nudging { round, index, step } => match round {
                NudgeRound::First { .. } => (
                    8,
                    (self.targets.len() - index) as nat,
                    step.left(),
                ),
                NudgeRound::Second => (5, (self.affected.len() - index) as nat, step.left()),
                NudgeRound::Third => (3, (self.affected.len() - index) as nat, step.left()),
            },
            NudgeStage::Flushing => (7, 0, 0),
            NudgeStage::PauseBeforeSecond => (6, 0, 0),
            NudgeStage::PauseBeforeThird => (4, 0, 0),
            NudgeStage::PauseBeforeSettle => (2, 0, 0),
            NudgeStage::Settling { index, step } => (
                1,
                (self.affected.len() - index) as nat,
                step.left(),
            ),
            NudgeStage::Finished => (0, 0, 0),
        }
    }
}

/// Every answer brings a run closer to its end, so each window is nudged and
/// settled a bounded number of times.
pub proof fn law_nudge_progresses(run: Nudge, cloaks: CloakSets, event: WindowEvent)
    requires
        run.consistent(),
        !(run.stage is Finished),
    ensures
        less_work(run.answered(cloaks, event).work(), run.work()),
{
    match run.stage {
        NudgeStage::Nudging { index, .. } => {
            if index < run.affected.len() {
                lemma_first_from(run.affected, |a: (usize, bool)| a.1, index + 1);
            }
        },
        NudgeStage::Settling { index, .. } => {
            lemma_first_from(run.affected, |a: (usize, bool)| a.1, index + 1);
        },
        _ => {},
    }
}

/// Nudging never takes a window from the ghost animation or from a direct
/// request, and never hides one: placement only ever gives windows up, and
/// only one that was just found where it belongs.
pub proof fn law_nudge_only_releases(
    run: Nudge,
    cloaks: CloakSets,
    event: WindowEvent,
    id: WindowId,
)
    requires
        run.consistent(),
    ensures
        ({
            let after = run.cloaks_after(cloaks, event);
            &&& after.ghosted == cloaks.ghosted
            &&& after.direct == cloaks.direct
            &&& after.placement.contains(id) ==> cloaks.placement.contains(id)
            &&& cloaks.placement.contains(id) && !after.placement.contains(id) ==> {
                &&& run.stage matches NudgeStage::Settling { index, .. }
                &&& run.affected_target(index).window_id == id
                &&& run.found_on_target(index, event)
            }
        }),
{
}

/// No window is resized unidentified: it is shrunk only if its class was just
/// found to need it, and restored only if its class was just found unchanged,
/// so that a handle recycled in between is left alone.
pub proof fn law_resized_windows_are_identified(run: Nudge, cloaks: CloakSets, event: WindowEvent)
    requires
        run.consistent(),
    ensures
        match run.answered(cloaks, event).stage {
            NudgeStage::Nudging { step: NudgeStep::Shrink, .. } => event matches WindowEvent::Class(
                Some(class),
            ) && (sticky_compositor(class@) || delayed_geometry(class@)),
            NudgeStage::Nudging { step: NudgeStep::Restore, .. } => event matches WindowEvent::Class(
                Some(class),
            ) && class@ == run.class,
            _ => true,
        },
{
}

/// A shrinking move is directly followed by the restoring one. An accepted
/// shrink leads to the class of the same window being checked again; if it is
/// unchanged, the next request restores that window. Until then no other move
/// is asked for: whatever is moved next is the same target at its full width.
pub proof fn law_a_shrunk_window_is_restored_next(
    run: Nudge,
    cloaks: CloakSets,
    event: WindowEvent,
    round: NudgeRound,
    index: usize,
    step: NudgeStep,
)
    requires
        run.consistent(),
        run.stage == (NudgeStage::Nudging { round, index, step }),
        step is Shrink || step is Recheck,
    ensures
        ({
            let target = run.nudged(round, index);
            let after = run.answered(cloaks, event);
            &&& step is Shrink && event is Moved ==> after == run.at(
                NudgeStage::Nudging { round, index, step: NudgeStep::Recheck },
            ) && after.pending() == (WindowAction::Identify { window_id: target.window_id })
            &&& step is Recheck && (event matches WindowEvent::Class(Some(class)) && class@
                == run.class) ==> after == run.at(
                NudgeStage::Nudging { round, index, step: NudgeStep::Restore },
            ) && after.pending() is SetPosition
            &&& after.pending() is SetPosition ==> after.pending() == (WindowAction::SetPosition {
                window_id: target.window_id,
                x: target.x,
                y: target.y,
                w: target.w,
                h: target.h,
                flags: PositionFlags::quiet(),
            })
        }),
{
}

/// A window that accepts being shrunk and is then found to have its class still
/// is asked back to its full width, two answers after the shrink was asked for.
pub proof fn law_shrink_and_restore_are_a_pair(
    run: Nudge,
    cloaks: CloakSets,
    later: CloakSets,
    class: String,
    round: NudgeRound,
    index: usize,
)
    requires
        run.consistent(),
        run.stage == (NudgeStage::Nudging { round, index, step: NudgeStep::Shrink }),
        class@ == run.class,
    ensures
        ({
            let target = run.nudged(round, index);
            run.answered(cloaks, WindowEvent::Moved).answered(
                later,
                WindowEvent::Class(Some(class)),
            ).pending() == (WindowAction::SetPosition {
                window_id: target.window_id,
                x: target.x,
                y: target.y,
                w: target.w,
                h: target.h,
                flags: PositionFlags::quiet(),
            })
        }),
{
}

/// Once the first round is over, it is not entered again, and the list of
/// windows that followed it is final.
pub proof fn law_first_round_decides_who_follows(
    run: Nudge,
    cloaks: CloakSets,
    event: WindowEvent,
)
    requires
        run.consistent(),
        !(run.stage is ReadingClass),
        !(run.stage matches NudgeStage::Nudging { round: NudgeRound::First { .. }, .. }),
    ensures
        run.answered(cloaks, event).affected == run.affected,
        run.answered(cloaks, event).targets == run.targets,
        !(run.answered(cloaks, event).stage is ReadingClass),
        !(run.answered(cloaks, event).stage matches NudgeStage::Nudging {
            round: NudgeRound::First { .. },
            ..
        }),
{
}

} // verus!
