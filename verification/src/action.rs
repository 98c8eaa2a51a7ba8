//! What the engine asks of the window system, and what it hears back.

use vstd::prelude::*;

use crate::geometry::ScreenRect;
use crate::types::PositionFlags;
use crate::types::WindowId;

verus! {

/// What a window is fit for.
#[derive(Clone, Copy, Debug, PartialEq, Eq, Structural)]
pub enum WindowProbe {
    /// The handle names no live window, or a minimized one.
    Unmanageable,
    /// A window in its normal state.
    Normal,
    /// A maximized window.
    Zoomed,
}

/// One request to the outside. The answer is a `WindowEvent`.
#[derive(Clone, Copy, Debug, PartialEq, Eq, Structural)]
pub enum WindowAction {
    /// Nothing to do: answer `Done`.
    Continue,
    /// Say whether high contrast is on: answer `HighContrast`.
    QueryHighContrast,
    /// Say what a window is fit for: answer `Probed`.
    Probe { window_id: WindowId },
    /// Move and resize a window: answer `Moved` or `MoveRefused`.
    SetPosition { window_id: WindowId, x: i32, y: i32, w: i32, h: i32, flags: PositionFlags },
    /// Begin a batch of deferred moves: answer `Accepted`.
    BeginBatch { count: usize },
    /// Add a move to the batch: answer `Accepted`.
    DeferPosition { window_id: WindowId, x: i32, y: i32, w: i32, h: i32, flags: PositionFlags },
    /// Apply the batch: answer `Accepted`.
    EndBatch,
    /// Commit a window's cloak with `apply_cloak_state`: answer `Done`.
    CommitCloak { window_id: WindowId },
    /// Uncloak a window without touching its owners: answer `Done`.
    Reveal { window_id: WindowId },
    /// Give a window's frame and visible bounds: answer `Frame`.
    QueryFrame { window_id: WindowId },
    /// Give a window's frame: answer `Bounds`.
    QueryRect { window_id: WindowId },
    /// Give a window's visible bounds: answer `Bounds`.
    QueryVisible { window_id: WindowId },
    /// Wait until the compositor has presented a frame: answer `Done`.
    Flush,
    /// Wait: answer `Done`.
    Sleep { millis: u64 },
    /// Read a window's class name, empty on failure: answer `Class`.
    ReadClass { window_id: WindowId },
    /// Read a window's class name, or nothing if the handle names no window:
    /// answer `Class`.
    Identify { window_id: WindowId },
    /// The work is finished.
    Finish,
}

/// The answer to a `WindowAction`.
#[derive(Debug)]
pub enum WindowEvent {
    Done,
    HighContrast(bool),
    Probed(WindowProbe),
    Moved,
    MoveRefused(String),
    Accepted(bool),
    Frame { frame: Option<ScreenRect>, visible: Option<ScreenRect> },
    Bounds(Option<ScreenRect>),
    Class(Option<String>),
}

/// Whether an event is of the kind that answers an action.
pub open spec fn answers(action: WindowAction, event: WindowEvent) -> bool {
    match action {
        WindowAction::Continue => event is Done,
        WindowAction::QueryHighContrast => event is HighContrast,
        WindowAction::Probe { .. } => event is Probed,
        WindowAction::SetPosition { .. } => event is Moved || event is MoveRefused,
        WindowAction::BeginBatch { .. } => event is Accepted,
        WindowAction::DeferPosition { .. } => event is Accepted,
        WindowAction::EndBatch => event is Accepted,
        WindowAction::CommitCloak { .. } => event is Done,
        WindowAction::Reveal { .. } => event is Done,
        WindowAction::QueryFrame { .. } => event is Frame,
        WindowAction::QueryRect { .. } => event is Bounds,
        WindowAction::QueryVisible { .. } => event is Bounds,
        WindowAction::Flush => event is Done,
        WindowAction::Sleep { .. } => event is Done,
        WindowAction::ReadClass { .. } => event is Class && event->Class_0 is Some,
        WindowAction::Identify { .. } => event is Class,
        WindowAction::Finish => false,
    }
}

/// Whether an event is of the kind that answers an action.
pub fn is_answer(action: &WindowAction, event: &WindowEvent) -> (r: bool)
    ensures
        r == answers(*action, *event),
{
    match action {
        WindowAction::Continue
        | WindowAction::CommitCloak { .. }
        | WindowAction::Reveal { .. }
        | WindowAction::Flush
        | WindowAction::Sleep { .. } => matches!(event, WindowEvent::Done),
        WindowAction::QueryHighContrast => matches!(event, WindowEvent::HighContrast(_)),
        WindowAction::Probe { .. } => matches!(event, WindowEvent::Probed(_)),
        WindowAction::SetPosition { .. } => matches!(
            event,
            WindowEvent::Moved | WindowEvent::MoveRefused(_)
        ),
        WindowAction::BeginBatch { .. }
        | WindowAction::DeferPosition { .. }
        | WindowAction::EndBatch => matches!(event, WindowEvent::Accepted(_)),
        WindowAction::QueryFrame { .. } => matches!(event, WindowEvent::Frame { .. }),
        WindowAction::QueryRect { .. } | WindowAction::QueryVisible { .. } => matches!(
            event,
            WindowEvent::Bounds(_)
        ),
        WindowAction::ReadClass { .. } => matches!(event, WindowEvent::Class(Some(_))),
        WindowAction::Identify { .. } => matches!(event, WindowEvent::Class(_)),
        WindowAction::Finish => false,
    }
}

/// Lexicographic order on triples of natural numbers: there is no infinite
/// descent in it.
pub open spec fn less_work(a: (nat, nat, nat), b: (nat, nat, nat)) -> bool {
    a.0 < b.0 || (a.0 == b.0 && (a.1 < b.1 || (a.1 == b.1 && a.2 < b.2)))
}

/// What is a move is answered by its success or its refusal, what is added to a
/// batch by acceptance or not, what is asked by what it asks for, and what is
/// only to be done by its being done. Nothing answers a finished work.
pub proof fn law_every_request_has_its_answer(action: WindowAction, event: WindowEvent)
    ensures
        answers(action, event) ==> !(action is Finish),
        action is SetPosition ==> (answers(action, event) <==> event is Moved
            || event is MoveRefused),
        action is BeginBatch || action is DeferPosition || action is EndBatch ==> (answers(
            action,
            event,
        ) <==> event is Accepted),
        action is QueryRect || action is QueryVisible ==> (answers(action, event)
            <==> event is Bounds),
        action is QueryFrame ==> (answers(action, event) <==> event is Frame),
        action is QueryHighContrast ==> (answers(action, event) <==> event is HighContrast),
        action is Probe ==> (answers(action, event) <==> event is Probed),
        action is Identify ==> (answers(action, event) <==> event is Class),
        action is ReadClass ==> (answers(action, event) <==> (event matches WindowEvent::Class(
            Some(_),
        ))),
        action is Continue || action is CommitCloak || action is Reveal || action is Flush
            || action is Sleep ==> (answers(action, event) <==> event is Done),
{
}

} // verus!
