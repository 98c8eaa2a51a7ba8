//! Plain values shared by the placement modules.

use vstd::prelude::*;

use crate::geometry::Rect;

verus! {

/// Identifies a top-level window; numerically its native handle.
pub type WindowId = u64;

/// The column index that the layout gives to windows outside its columns.
pub const UNTILED_COLUMN: usize = usize::MAX;

/// Where the layout engine wants a window relative to the viewport.
#[derive(Clone, Copy, Debug, PartialEq, Eq, Structural)]
pub enum Visibility {
    Visible,
    OffScreenLeft,
    OffScreenRight,
}

/// One window's slot in a computed layout.
#[derive(Clone, Copy, Debug, PartialEq, Eq, Structural)]
pub struct WindowPlacement {
    pub window_id: WindowId,
    pub rect: Rect,
    pub visibility: Visibility,
    pub column_index: usize,
}

/// How a window is to be repositioned.
#[derive(Clone, Copy, Debug, PartialEq, Eq, Structural)]
pub struct PositionFlags {
    /// Keep the current size.
    pub no_size: bool,
    /// Keep the current stacking order.
    pub no_zorder: bool,
    /// Do not activate the window.
    pub no_activate: bool,
    /// Recompute the window frame.
    pub frame_changed: bool,
    /// Do not wait for the window's own thread.
    pub async_position: bool,
}

impl PositionFlags {
    /// Move and resize, without touching stacking order or activation.
    pub open spec fn spec_quiet() -> PositionFlags {
        PositionFlags {
            no_size: false,
            no_zorder: true,
            no_activate: true,
            frame_changed: false,
            async_position: false,
        }
    }

    /// Move and resize, without touching stacking order or activation.
    #[verifier::when_used_as_spec(spec_quiet)]
    pub fn quiet() -> (flags: PositionFlags)
        ensures
            flags == PositionFlags::spec_quiet(),
    {
        PositionFlags {
            no_size: false,
            no_zorder: true,
            no_activate: true,
            frame_changed: false,
            async_position: false,
        }
    }

    /// Move only, without touching stacking order or activation.
    pub open spec fn spec_move_only(async_position: bool) -> PositionFlags {
        PositionFlags { no_size: true, async_position, ..PositionFlags::spec_quiet() }
    }

    /// Move only, without touching stacking order or activation.
    #[verifier::when_used_as_spec(spec_move_only)]
    pub fn move_only(async_position: bool) -> (flags: PositionFlags)
        ensures
            flags == PositionFlags::spec_move_only(async_position),
    {
        PositionFlags {
            no_size: true,
            no_zorder: true,
            no_activate: true,
            frame_changed: false,
            async_position,
        }
    }
}

/// A window whose actual visible width exceeds the requested placement width,
/// indicating it enforces a minimum size.
#[derive(Debug, Clone, Copy, PartialEq, Eq, Structural)]
pub struct WidthViolation {
    pub window_id: WindowId,
    /// Minimum width in layout coordinates.
    pub min_width: i32,
}

/// A window whose actual visible height exceeds the requested placement
/// height.
#[derive(Debug, Clone, Copy, PartialEq, Eq, Structural)]
pub struct HeightViolation {
    pub window_id: WindowId,
    /// Minimum height in layout coordinates.
    pub min_height: i32,
}

/// What a placement pass reports back to the layout engine.
#[derive(Debug)]
pub struct ApplyPlacementsResult {
    /// Windows found wider than requested.
    pub width_violations: Vec<WidthViolation>,
    /// Windows found taller than requested.
    pub height_violations: Vec<HeightViolation>,
    /// Visible tiled windows left alone because they were maximized.
    pub maximized_skipped_window_ids: Vec<WindowId>,
}

/// Failures of window operations.
#[derive(Debug)]
pub enum Win32Error {
    /// A window could not be moved.
    SetPositionFailed(String),
}

/// No move restacks, activates or recomputes the frame of a window; one that
/// only moves keeps the size and leaves without waiting exactly if asked to, and
/// one that also resizes always waits.
pub proof fn law_moves_are_quiet(async_position: bool)
    ensures
        ({
            let resize = PositionFlags::quiet();
            let keep = PositionFlags::move_only(async_position);
            &&& resize.no_zorder && resize.no_activate && keep.no_zorder && keep.no_activate
            &&& !resize.frame_changed && !keep.frame_changed
            &&& !resize.no_size && keep.no_size
            &&& !resize.async_position && keep.async_position == async_position
        }),
{
}

} // verus!
