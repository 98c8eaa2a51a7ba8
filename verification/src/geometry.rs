//! Rectangles, invisible frame insets, and the conversions between the frame
//! of a window and the part of it that the user sees.

use vstd::prelude::*;

verus! {

/// Invisible border thickness on each side: left, top, right, bottom.
pub type Insets = (i32, i32, i32, i32);

/// The widest invisible border that a measurement may report.
pub const MAX_INVISIBLE_FRAME_INSET: i64 = 64;

/// A rectangle given by its top-left corner and its size.
#[derive(Clone, Copy, Debug, PartialEq, Eq, Structural)]
pub struct Rect {
    pub x: i32,
    pub y: i32,
    pub width: i32,
    pub height: i32,
}

impl Rect {
    pub fn new(x: i32, y: i32, width: i32, height: i32) -> (rect: Rect)
        ensures
            rect == (Rect { x, y, width, height }),
    {
        Rect { x, y, width, height }
    }
}

/// A rectangle given by its four edges, as the window system reports it.
#[derive(Clone, Copy, Debug, PartialEq, Eq, Structural)]
pub struct ScreenRect {
    pub left: i32,
    pub top: i32,
    pub right: i32,
    pub bottom: i32,
}

/// Whether a mathematical integer is an `i32`.
pub open spec fn fits_i32(v: int) -> bool {
    i32::MIN <= v <= i32::MAX
}

/// The `i32` closest to a mathematical integer.
pub open spec fn saturated(v: int) -> i32 {
    if v < i32::MIN {
        i32::MIN
    } else if v > i32::MAX {
        i32::MAX
    } else {
        v as i32
    }
}

pub fn fits(v: i64) -> (r: bool)
    ensures
        r == fits_i32(v as int),
{
    -0x8000_0000 <= v && v <= 0x7fff_ffff
}

fn saturating_add(a: i32, b: i32) -> (r: i32)
    ensures
        r == saturated(a + b),
{
    let sum: i64 = a as i64 + b as i64;
    if sum < -0x8000_0000 {
        i32::MIN
    } else if sum > 0x7fff_ffff {
        i32::MAX
    } else {
        sum as i32
    }
}

fn saturating_sub(a: i32, b: i32) -> (r: i32)
    ensures
        r == saturated(a - b),
{
    let difference: i64 = a as i64 - b as i64;
    if difference < -0x8000_0000 {
        i32::MIN
    } else if difference > 0x7fff_ffff {
        i32::MAX
    } else {
        difference as i32
    }
}

impl ScreenRect {
    /// The width and the height can be represented.
    pub open spec fn well_sized(self) -> bool {
        fits_i32(self.right - self.left) && fits_i32(self.bottom - self.top)
    }

    /// The same rectangle by corner and size.
    pub open spec fn as_rect(self) -> Rect {
        Rect {
            x: self.left,
            y: self.top,
            width: (self.right - self.left) as i32,
            height: (self.bottom - self.top) as i32,
        }
    }

    /// Whether the width and the height can be represented.
    pub fn is_well_sized(&self) -> (r: bool)
        ensures
            r == self.well_sized(),
    {
        fits(self.right as i64 - self.left as i64) && fits(self.bottom as i64 - self.top as i64)
    }

    /// The same rectangle by corner and size.
    pub fn to_rect(&self) -> (rect: Rect)
        requires
            self.well_sized(),
        ensures
            rect == self.as_rect(),
    {
        Rect {
            x: self.left,
            y: self.top,
            width: self.right - self.left,
            height: self.bottom - self.top,
        }
    }
}

/// The insets in force: none in high contrast, where the border is visible.
pub open spec fn effective_insets(insets: Insets, high_contrast: bool) -> Insets {
    if high_contrast {
        (0i32, 0i32, 0i32, 0i32)
    } else {
        insets
    }
}

/// The frame around a visible rectangle: each edge moves out by its inset,
/// clamped to the coordinate range.
pub open spec fn frame_around(visible: Rect, insets: Insets, high_contrast: bool) -> Rect {
    let (left, top, right, bottom) = effective_insets(insets, high_contrast);
    Rect {
        x: saturated(visible.x - left),
        y: saturated(visible.y - top),
        width: saturated(saturated(visible.width + left) + right),
        height: saturated(saturated(visible.height + top) + bottom),
    }
}

/// The visible rectangle inside a frame: each edge moves in by its inset,
/// clamped to the coordinate range.
pub open spec fn visible_inside(frame: Rect, insets: Insets, high_contrast: bool) -> Rect {
    let (left, top, right, bottom) = effective_insets(insets, high_contrast);
    Rect {
        x: saturated(frame.x + left),
        y: saturated(frame.y + top),
        width: saturated(saturated(frame.width - left) - right),
        height: saturated(saturated(frame.height - top) - bottom),
    }
}

/// Expand a visible rectangle to the frame that `SetWindowPos` operates on.
pub fn visible_rect_to_frame_rect(
    visible_rect: Rect,
    insets: Insets,
    high_contrast: bool,
) -> (frame: Rect)
    ensures
        frame == frame_around(visible_rect, insets, high_contrast),
{
    let (left, top, right, bottom) = if high_contrast {
        (0i32, 0i32, 0i32, 0i32)
    } else {
        insets
    };
    Rect::new(
        saturating_sub(visible_rect.x, left),
        saturating_sub(visible_rect.y, top),
        saturating_add(saturating_add(visible_rect.width, left), right),
        saturating_add(saturating_add(visible_rect.height, top), bottom),
    )
}

/// Shrink a frame to the rectangle that the user sees.
pub fn frame_rect_to_visible_rect(
    frame_rect: Rect,
    insets: Insets,
    high_contrast: bool,
) -> (visible: Rect)
    ensures
        visible == visible_inside(frame_rect, insets, high_contrast),
{
    let (left, top, right, bottom) = if high_contrast {
        (0i32, 0i32, 0i32, 0i32)
    } else {
        insets
    };
    Rect::new(
        saturating_add(frame_rect.x, left),
        saturating_add(frame_rect.y, top),
        saturating_sub(saturating_sub(frame_rect.width, left), right),
        saturating_sub(saturating_sub(frame_rect.height, top), bottom),
    )
}

/// The distances from each edge of `frame` in to the same edge of `visible`.
pub open spec fn edge_distances(frame: Rect, visible: Rect) -> (int, int, int, int) {
    (
        visible.x - frame.x,
        visible.y - frame.y,
        (frame.x + frame.width) - (visible.x + visible.width),
        (frame.y + frame.height) - (visible.y + visible.height),
    )
}

/// A border thickness that a measurement may report.
pub open spec fn plausible_inset(distance: int) -> bool {
    0 <= distance <= MAX_INVISIBLE_FRAME_INSET
}

/// The insets that a frame and its visible bounds imply, or none when either
/// rectangle is empty or some edge is implausibly placed.
pub open spec fn implied_insets(frame: Rect, visible: Rect) -> Option<Insets> {
    let (left, top, right, bottom) = edge_distances(frame, visible);
    if frame.width > 0 && frame.height > 0 && visible.width > 0 && visible.height > 0
        && plausible_inset(left) && plausible_inset(top) && plausible_inset(right)
        && plausible_inset(bottom) {
        Some((left as i32, top as i32, right as i32, bottom as i32))
    } else {
        None
    }
}

fn is_plausible_inset(distance: i64) -> (r: bool)
    ensures
        r == plausible_inset(distance as int),
{
    0 <= distance && distance <= MAX_INVISIBLE_FRAME_INSET
}

/// The insets implied by a frame and its visible bounds. Stale or misaligned
/// samples are refused.
pub fn frame_insets_from_rects(frame_rect: Rect, visible_rect: Rect) -> (insets: Option<Insets>)
    ensures
        insets == implied_insets(frame_rect, visible_rect),
{
    if frame_rect.width <= 0 || frame_rect.height <= 0 || visible_rect.width <= 0
        || visible_rect.height <= 0 {
        return None;
    }
    let left: i64 = visible_rect.x as i64 - frame_rect.x as i64;
    let top: i64 = visible_rect.y as i64 - frame_rect.y as i64;
    let right: i64 = frame_rect.x as i64 + frame_rect.width as i64 - visible_rect.x as i64
        - visible_rect.width as i64;
    let bottom: i64 = frame_rect.y as i64 + frame_rect.height as i64 - visible_rect.y as i64
        - visible_rect.height as i64;
    if is_plausible_inset(left) && is_plausible_inset(top) && is_plausible_inset(right)
        && is_plausible_inset(bottom) {
        Some((left as i32, top as i32, right as i32, bottom as i32))
    } else {
        None
    }
}

/// The insets implied by the two rectangles that were asked of a window: its
/// frame and its visible bounds, either of which the window system may refuse
/// to give.
pub open spec fn queried_insets(
    frame: Option<ScreenRect>,
    visible: Option<ScreenRect>,
) -> Option<Insets> {
    match (frame, visible) {
        (Some(frame), Some(visible)) => implied_insets(frame.as_rect(), visible.as_rect()),
        _ => None,
    }
}

/// Whether both of two queried rectangles have representable sizes, as far as
/// sizes are taken at all.
pub open spec fn queried_well_sized(
    frame: Option<ScreenRect>,
    visible: Option<ScreenRect>,
) -> bool {
    match (frame, visible) {
        (Some(frame), Some(visible)) => frame.well_sized() && visible.well_sized(),
        _ => true,
    }
}

/// The insets of a window from its queried frame and visible bounds.
pub fn query_window_frame_insets(
    frame: Option<ScreenRect>,
    visible: Option<ScreenRect>,
) -> (insets: Option<Insets>)
    requires
        queried_well_sized(frame, visible),
    ensures
        insets == queried_insets(frame, visible),
{
    match (frame, visible) {
        (Some(frame), Some(visible)) => frame_insets_from_rects(frame.to_rect(), visible.to_rect()),
        _ => None,
    }
}

/// The insets of a window, if the window system gave usable bounds for it.
pub fn get_window_frame_insets(
    frame: Option<ScreenRect>,
    visible: Option<ScreenRect>,
) -> (insets: Option<Insets>)
    requires
        queried_well_sized(frame, visible),
    ensures
        insets == queried_insets(frame, visible),
{
    query_window_frame_insets(frame, visible)
}

/// The border thickness to assume of a window: what was measured, or none.
pub open spec fn insets_or_none(measured: Option<Insets>) -> Insets {
    match measured {
        Some(insets) => insets,
        None => (0i32, 0i32, 0i32, 0i32),
    }
}

/// The border thickness to assume of a window whose two rectangles were
/// queried; nothing when the query gave no usable bounds.
pub fn invisible_border_insets(
    frame: Option<ScreenRect>,
    visible: Option<ScreenRect>,
) -> (insets: Insets)
    requires
        queried_well_sized(frame, visible),
    ensures
        insets == insets_or_none(queried_insets(frame, visible)),
{
    match query_window_frame_insets(frame, visible) {
        Some(insets) => insets,
        None => (0, 0, 0, 0),
    }
}

/// `(left, top, right, bottom)` insets of a window, or zeroes if it has no
/// usable bounds.
pub fn get_window_invisible_insets(
    frame: Option<ScreenRect>,
    visible: Option<ScreenRect>,
) -> (insets: Insets)
    requires
        queried_well_sized(frame, visible),
    ensures
        insets == insets_or_none(queried_insets(frame, visible)),
{
    invisible_border_insets(frame, visible)
}

/// Shrinking an expanded rectangle gives it back, as long as no coordinate
/// leaves the representable range on the way.
pub proof fn law_visible_rect_round_trip(visible: Rect, insets: Insets, high_contrast: bool)
    requires
        ({
            let (left, top, right, bottom) = effective_insets(insets, high_contrast);
            &&& fits_i32(visible.x - left)
            &&& fits_i32(visible.y - top)
            &&& fits_i32(visible.width + left)
            &&& fits_i32(visible.width + left + right)
            &&& fits_i32(visible.width + right)
            &&& fits_i32(visible.height + top)
            &&& fits_i32(visible.height + top + bottom)
            &&& fits_i32(visible.height + bottom)
        }),
    ensures
        visible_inside(frame_around(visible, insets, high_contrast), insets, high_contrast)
            == visible,
{
}

/// In high contrast the frame and the visible rectangle coincide.
pub proof fn law_high_contrast_ignores_insets(rect: Rect, insets: Insets)
    ensures
        frame_around(rect, insets, true) == rect,
        visible_inside(rect, insets, true) == rect,
{
}

/// Insets taken from a frame and its visible bounds turn either rectangle
/// into the other.
pub proof fn law_implied_insets_connect(frame: Rect, visible: Rect)
    requires
        implied_insets(frame, visible) is Some,
    ensures
        frame_around(visible, implied_insets(frame, visible)->0, false) == frame,
        visible_inside(frame, implied_insets(frame, visible)->0, false) == visible,
{
}

/// Plausible insets are recovered from the frame that they produce around a
/// non-empty rectangle, unless that frame leaves the representable range.
pub proof fn law_applied_insets_are_recovered(visible: Rect, insets: Insets)
    requires
        visible.width > 0,
        visible.height > 0,
        plausible_inset(insets.0 as int),
        plausible_inset(insets.1 as int),
        plausible_inset(insets.2 as int),
        plausible_inset(insets.3 as int),
        fits_i32(visible.x - insets.0),
        fits_i32(visible.y - insets.1),
        fits_i32(visible.width + insets.0 + insets.2),
        fits_i32(visible.height + insets.1 + insets.3),
    ensures
        implied_insets(frame_around(visible, insets, false), visible) == Some(insets),
{
}

/// Each edge of a frame lies outside the same edge of what is shown by the
/// inset on its side, and the other way round, as long as every coordinate can
/// be represented.
pub proof fn law_frames_lie_outside_by_the_insets(shown: Rect, frame: Rect, insets: Insets)
    ensures
        ({
            let (left, top, right, bottom) = insets;
            let f = frame_around(shown, insets, false);
            let v = visible_inside(frame, insets, false);
            &&& fits_i32(shown.x - left) ==> f.x == shown.x - left
            &&& fits_i32(shown.y - top) ==> f.y == shown.y - top
            &&& fits_i32(shown.x - left) && fits_i32(shown.width + left) && fits_i32(
                shown.width + left + right,
            ) ==> f.x + f.width == shown.x + shown.width + right
            &&& fits_i32(shown.y - top) && fits_i32(shown.height + top) && fits_i32(
                shown.height + top + bottom,
            ) ==> f.y + f.height == shown.y + shown.height + bottom
            &&& fits_i32(frame.x + left) ==> v.x == frame.x + left
            &&& fits_i32(frame.y + top) ==> v.y == frame.y + top
            &&& fits_i32(frame.x + left) && fits_i32(frame.width - left) && fits_i32(
                frame.width - left - right,
            ) ==> v.x + v.width == frame.x + frame.width - right
            &&& fits_i32(frame.y + top) && fits_i32(frame.height - top) && fits_i32(
                frame.height - top - bottom,
            ) ==> v.y + v.height == frame.y + frame.height - bottom
        }),
{
}

/// The number is the closest to another that an `i32` can hold.
pub open spec fn closest(v: i32, to: int) -> bool {
    &&& -0x8000_0000 <= to <= 0x7fff_ffff ==> v == to
    &&& to < -0x8000_0000 ==> v == -0x8000_0000
    &&& to > 0x7fff_ffff ==> v == 0x7fff_ffff
}

/// A coordinate or a size that cannot be represented is as close as it can be.
pub proof fn law_out_of_range_edges_are_clamped(rect: Rect, insets: Insets)
    ensures
        ({
            let (left, top, right, bottom) = insets;
            let f = frame_around(rect, insets, false);
            let v = visible_inside(rect, insets, false);
            &&& closest(f.x, rect.x - left) && closest(f.y, rect.y - top)
            &&& closest(v.x, rect.x + left) && closest(v.y, rect.y + top)
            &&& left >= 0 && right >= 0 ==> closest(f.width, rect.width + left + right)
                && closest(v.width, rect.width - left - right)
            &&& top >= 0 && bottom >= 0 ==> closest(f.height, rect.height + top + bottom)
                && closest(v.height, rect.height - top - bottom)
            &&& fits_i32(rect.width + left) ==> closest(f.width, rect.width + left + right)
            &&& fits_i32(rect.height + top) ==> closest(f.height, rect.height + top + bottom)
            &&& fits_i32(rect.width - left) ==> closest(v.width, rect.width - left - right)
            &&& fits_i32(rect.height - top) ==> closest(v.height, rect.height - top - bottom)
        }),
{
}

/// A frame and what it shows imply insets exactly if neither is empty and each
/// edge of what is shown lies inside the frame's by at most 64 pixels.
pub proof fn law_plausible_rectangles_imply_insets(frame: Rect, shown: Rect)
    ensures
        implied_insets(frame, shown) is Some <==> {
            &&& frame.width > 0 && frame.height > 0 && shown.width > 0 && shown.height > 0
            &&& frame.x <= shown.x <= frame.x + 64
            &&& frame.y <= shown.y <= frame.y + 64
            &&& shown.x + shown.width <= frame.x + frame.width <= shown.x + shown.width + 64
            &&& shown.y + shown.height <= frame.y + frame.height <= shown.y + shown.height + 64
        },
        implied_insets(frame, shown) matches Some((left, top, right, bottom)) ==> {
            &&& frame.x + left == shown.x
            &&& frame.y + top == shown.y
            &&& frame.x + frame.width == shown.x + shown.width + right
            &&& frame.y + frame.height == shown.y + shown.height + bottom
        },
{
}

/// Of two rectangles by their edges, the insets are the distances between the
/// same edges. If either is missing there are none, and none count as zero.
pub proof fn law_queried_edges_imply_insets(
    frame: Option<ScreenRect>,
    shown: Option<ScreenRect>,
    insets: Insets,
)
    requires
        queried_well_sized(frame, shown),
    ensures
        frame is None || shown is None ==> queried_insets(frame, shown) is None,
        frame matches Some(f) ==> (shown matches Some(v) ==> (queried_insets(frame, shown)
            matches Some((left, top, right, bottom)) ==> left == v.left - f.left && top == v.top
            - f.top && right == f.right - v.right && bottom == f.bottom - v.bottom)),
        insets_or_none(Some(insets)) == insets,
        insets_or_none(None) == (0i32, 0i32, 0i32, 0i32),
{
}

} // verus!
