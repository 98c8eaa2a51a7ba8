//! Turning layout placements into positioning requests.

use std::collections::HashSet;
use vstd::prelude::*;

use crate::cloak::ghost_cloaked_contains;
use crate::cloak::is_placement_parked;
use crate::cloak::CloakRegistry;
use crate::cloak::CloakSets;
use crate::geometry::frame_around;
use crate::geometry::visible_rect_to_frame_rect;
use crate::geometry::Insets;
use crate::geometry::ScreenRect;
use crate::insets::cache_maps;
use crate::insets::CacheMaps;
use crate::insets::InsetSource;
use crate::insets::PlacementCache;
use crate::insets::ResolvedInsets;
use crate::nudge::comparable;
use crate::nudge::is_comparable;
use crate::nudge::is_near;
use crate::nudge::near;
use crate::nudge::NudgeTarget;
use crate::sets::first_from;
use crate::sets::lemma_first_from;
use crate::sizing::WindowSizeMeasurement;
use crate::types::PositionFlags;
use crate::types::Visibility;
use crate::types::WindowId;
use crate::types::WindowPlacement;
use crate::types::UNTILED_COLUMN;

verus! {

broadcast use vstd::std_specs::hash::group_hash_axioms;

/// One window's positioning request, with what is needed to judge its outcome.
#[derive(Clone, Copy, Debug, PartialEq, Eq)]
pub struct DeferEntry {
    pub window_id: WindowId,
    /// Frame corner; for off-screen windows the off-screen coordinate, twice.
    pub x: i32,
    pub y: i32,
    /// Frame size. Off-screen windows keep their size: their height is not
    /// set, and their width only estimates the frame.
    pub w: i32,
    pub h: i32,
    /// Width asked for by the layout engine.
    pub layout_w: i32,
    /// Height asked for by the layout engine.
    pub layout_h: i32,
    /// Frame insets that turned the layout request into this one.
    pub insets: Insets,
    pub inset_source: InsetSource,
    /// Global cache generation that `insets` was resolved under.
    pub inset_generation: u64,
    pub visibility: Visibility,
    pub flags: PositionFlags,
    pub column_index: usize,
}

/// The worker remembers having placed the window, so that its frame need not
/// be recomputed.
pub open spec fn frame_known(cache: Option<CacheMaps>, id: WindowId) -> bool {
    cache is Some && cache->0.positions.contains_key(id)
}

/// The worker remembers exactly this placement.
pub open spec fn unchanged(cache: Option<CacheMaps>, placement: WindowPlacement) -> bool {
    frame_known(cache, placement.window_id) && cache->0.positions[placement.window_id] == (
        placement.rect,
        placement.visibility,
    )
}

/// The positioning request for a placement. A visible window is moved and
/// resized, recomputing its frame unless it is known. Any other is only moved:
/// to `sentinel`, the off-screen coordinate, on both axes. Cloaks do not take
/// hold of windows of other processes, so this is what hides them.
pub open spec fn defer_entry(
    placement: WindowPlacement,
    resolved: ResolvedInsets,
    high_contrast: bool,
    async_position: bool,
    frame_known: bool,
    sentinel: i32,
) -> DeferEntry {
    let frame = frame_around(placement.rect, resolved.insets, high_contrast);
    let visible = placement.visibility is Visible;
    DeferEntry {
        window_id: placement.window_id,
        x: if visible {
            frame.x
        } else {
            sentinel
        },
        y: if visible {
            frame.y
        } else {
            sentinel
        },
        w: frame.width,
        h: if visible {
            frame.height
        } else {
            0
        },
        layout_w: placement.rect.width,
        layout_h: placement.rect.height,
        insets: resolved.insets,
        inset_source: resolved.source,
        inset_generation: resolved.generation,
        visibility: placement.visibility,
        flags: if visible {
            PositionFlags {
                frame_changed: !frame_known,
                async_position,
                ..PositionFlags::quiet()
            }
        } else {
            PositionFlags::move_only(async_position)
        },
        column_index: placement.column_index,
    }
}

/// The positioning request for a placement.
pub fn build_defer_entry(
    placement: &WindowPlacement,
    resolved: &ResolvedInsets,
    high_contrast: bool,
    async_position: bool,
    frame_known: bool,
    sentinel: i32,
) -> (entry: DeferEntry)
    ensures
        entry == defer_entry(
            *placement,
            *resolved,
            high_contrast,
            async_position,
            frame_known,
            sentinel,
        ),
{
    let frame_rect = visible_rect_to_frame_rect(placement.rect, resolved.insets, high_contrast);
    let visible = matches!(placement.visibility, Visibility::Visible);
    let flags = if visible {
        let mut flags = PositionFlags::quiet();
        flags.async_position = async_position;
        flags.frame_changed = !frame_known;
        flags
    } else {
        PositionFlags::move_only(async_position)
    };
    DeferEntry {
        window_id: placement.window_id,
        x: if visible {
            frame_rect.x
        } else {
            sentinel
        },
        y: if visible {
            frame_rect.y
        } else {
            sentinel
        },
        w: frame_rect.width,
        h: if visible {
            frame_rect.height
        } else {
            0
        },
        layout_w: placement.rect.width,
        layout_h: placement.rect.height,
        insets: resolved.insets,
        inset_source: resolved.source,
        inset_generation: resolved.generation,
        visibility: placement.visibility,
        flags,
        column_index: placement.column_index,
    }
}

/// Whether the worker remembers having placed the window.
pub fn is_frame_known(cache: &Option<PlacementCache>, window_id: WindowId) -> (r: bool)
    ensures
        r == frame_known(cache_maps(*cache), window_id),
{
    match cache {
        Some(cache) => cache.positions.contains_key(&window_id),
        None => false,
    }
}

/// Whether the worker remembers exactly this placement.
pub fn is_unchanged(cache: &Option<PlacementCache>, placement: &WindowPlacement) -> (r: bool)
    ensures
        r == unchanged(cache_maps(*cache), *placement),
{
    if let Some(cache) = cache {
        if let Some(last) = cache.positions.get(&placement.window_id) {
            return last.0 == placement.rect && last.1 == placement.visibility;
        }
    }
    false
}

/// A visible window of the columns that the user has maximized.
pub open spec fn visible_tiled_maximized(placement: WindowPlacement, is_zoomed: bool) -> bool {
    placement.visibility is Visible && placement.column_index != UNTILED_COLUMN && is_zoomed
}

/// The worker forgets where a window was placed.
pub open spec fn position_forgotten(cache: CacheMaps, id: WindowId) -> CacheMaps {
    CacheMaps { positions: cache.positions.remove(id), ..cache }
}

/// Whether a placement is skipped because its window is maximized. The worker
/// then forgets where it placed the window. A skipped window that placement
/// had parked is still to be recovered with `recover_placement_parked`.
pub fn skip_visible_tiled_maximized(
    placement: &WindowPlacement,
    is_zoomed: bool,
    cache: Option<&mut PlacementCache>,
) -> (skip: bool)
    ensures
        skip == visible_tiled_maximized(*placement, is_zoomed),
        cache matches Some(cache) ==> final(cache)@ == if skip {
            position_forgotten(cache@, placement.window_id)
        } else {
            cache@
        },
{
    let skip = matches!(placement.visibility, Visibility::Visible) && placement.column_index
        != UNTILED_COLUMN && is_zoomed;
    if skip {
        if let Some(cache) = cache {
            cache.positions.remove(&placement.window_id);
        }
    }
    skip
}

/// The entry is to be revealed before it is moved: it returns from being
/// parked, and the ghost animation does not hide it.
pub open spec fn returning(entry: DeferEntry, cloaks: CloakSets) -> bool {
    entry.visibility is Visible && cloaks.placement.contains(entry.window_id)
        && !cloaks.ghosted.contains(entry.window_id)
}

/// Whether the entry is to be revealed before it is moved.
pub fn is_returning(entry: &DeferEntry, cloaks: &CloakRegistry) -> (r: bool)
    ensures
        r == returning(*entry, cloaks@),
{
    matches!(entry.visibility, Visibility::Visible) && is_placement_parked(cloaks, entry.window_id)
        && !ghost_cloaked_contains(cloaks, entry.window_id)
}

/// The entry was moved, and placement still owns the window's park.
pub open spec fn awaiting_release(
    entry: DeferEntry,
    failed: Set<WindowId>,
    cloaks: CloakSets,
) -> bool {
    entry.visibility is Visible && !failed.contains(entry.window_id) && cloaks.placement.contains(
        entry.window_id,
    )
}

/// Whether the entry was moved and placement still owns the window's park.
pub fn is_awaiting_release(
    entry: &DeferEntry,
    failed: &HashSet<WindowId>,
    cloaks: &CloakRegistry,
) -> (r: bool)
    ensures
        r == awaiting_release(*entry, failed@, cloaks@),
{
    matches!(entry.visibility, Visibility::Visible) && !failed.contains(&entry.window_id)
        && is_placement_parked(cloaks, entry.window_id)
}

/// The window's corner is where the entry asked, to within the tolerance.
pub open spec fn landed_at(entry: DeferEntry, bounds: Option<ScreenRect>) -> bool {
    bounds matches Some(rect) && near(rect.left as int, entry.x as int) && near(
        rect.top as int,
        entry.y as int,
    )
}

/// The distances taken when comparing a corner with a request can be
/// represented. The second is only taken when the first is small.
pub open spec fn landing_comparable(entry: DeferEntry, bounds: Option<ScreenRect>) -> bool {
    bounds matches Some(rect) ==> comparable(rect.left as int, entry.x as int) && (near(
        rect.left as int,
        entry.x as int,
    ) ==> comparable(rect.top as int, entry.y as int))
}

/// Whether the window's corner is where the entry asked.
pub fn has_landed_at(entry: &DeferEntry, bounds: &Option<ScreenRect>) -> (r: bool)
    requires
        landing_comparable(*entry, *bounds),
    ensures
        r == landed_at(*entry, *bounds),
{
    match bounds {
        Some(rect) => is_near(rect.left, entry.x) && is_near(rect.top, entry.y),
        None => false,
    }
}

/// Whether a corner can be compared with what the entry asked.
pub fn is_landing_comparable(entry: &DeferEntry, bounds: &Option<ScreenRect>) -> (r: bool)
    ensures
        r == landing_comparable(*entry, *bounds),
{
    match bounds {
        Some(rect) => is_comparable(rect.left, entry.x) && (!is_near(rect.left, entry.x)
            || is_comparable(rect.top, entry.y)),
        None => true,
    }
}

/// The entry's size can tell of a minimum: a visible window of the columns
/// that was moved.
pub open spec fn measurable(entry: DeferEntry, failed: Set<WindowId>) -> bool {
    entry.column_index != UNTILED_COLUMN && entry.visibility is Visible && !failed.contains(
        entry.window_id,
    )
}

/// Whether the entry's size can tell of a minimum.
pub fn is_measurable(entry: &DeferEntry, failed: &HashSet<WindowId>) -> (r: bool)
    ensures
        r == measurable(*entry, failed@),
{
    entry.column_index != UNTILED_COLUMN && matches!(entry.visibility, Visibility::Visible)
        && !failed.contains(&entry.window_id)
}

/// The sizes asked by an entry against the bounds that its window shows.
pub open spec fn measurement(entry: DeferEntry, visible: ScreenRect) -> WindowSizeMeasurement {
    WindowSizeMeasurement {
        window_id: entry.window_id,
        layout_w: entry.layout_w,
        layout_h: entry.layout_h,
        frame_w: entry.w,
        frame_h: entry.h,
        visible_w: (visible.right - visible.left) as i32,
        visible_h: (visible.bottom - visible.top) as i32,
    }
}

/// Measure a window against its entry.
pub fn measure_entry(entry: &DeferEntry, visible: &ScreenRect) -> (m: WindowSizeMeasurement)
    requires
        visible.well_sized(),
    ensures
        m == measurement(*entry, *visible),
{
    WindowSizeMeasurement {
        window_id: entry.window_id,
        layout_w: entry.layout_w,
        layout_h: entry.layout_h,
        frame_w: entry.w,
        frame_h: entry.h,
        visible_w: visible.right - visible.left,
        visible_h: visible.bottom - visible.top,
    }
}

/// The entry is a candidate for nudging: a visible window, wide enough to be
/// shrunk, that was moved.
pub open spec fn nudgeable(entry: DeferEntry, failed: Set<WindowId>) -> bool {
    entry.visibility is Visible && entry.w > 1 && !failed.contains(entry.window_id)
}

/// What nudging needs of an entry.
pub open spec fn nudge_target(entry: DeferEntry) -> NudgeTarget {
    NudgeTarget { window_id: entry.window_id, x: entry.x, y: entry.y, w: entry.w, h: entry.h }
}

/// The windows to nudge after a landing, in order.
pub open spec fn nudge_targets(entries: Seq<DeferEntry>, failed: Set<WindowId>) -> Seq<NudgeTarget>
    decreases entries.len(),
{
    if entries.len() == 0 {
        Seq::empty()
    } else {
        let earlier = nudge_targets(entries.drop_last(), failed);
        if nudgeable(entries.last(), failed) {
            earlier.push(nudge_target(entries.last()))
        } else {
            earlier
        }
    }
}

/// The windows to nudge after a landing, in order.
pub fn collect_nudge_targets(entries: &Vec<DeferEntry>, failed: &HashSet<WindowId>) -> (targets:
    Vec<NudgeTarget>)
    ensures
        targets@ == nudge_targets(entries@, failed@),
        forall|i: int| 0 <= i < targets@.len() ==> (#[trigger] targets@[i]).w > 1,
{
    let mut targets: Vec<NudgeTarget> = Vec::new();
    for i in 0..entries.len()
        invariant
            targets@ == nudge_targets(entries@.take(i as int), failed@),
            forall|k: int| 0 <= k < targets@.len() ==> (#[trigger] targets@[k]).w > 1,
    {
        let entry = entries[i];
        assert(entries@.take(i + 1).drop_last() =~= entries@.take(i as int));
        if matches!(entry.visibility, Visibility::Visible) && entry.w > 1 && !failed.contains(
            &entry.window_id,
        ) {
            targets.push(
                NudgeTarget {
                    window_id: entry.window_id,
                    x: entry.x,
                    y: entry.y,
                    w: entry.w,
                    h: entry.h,
                },
            );
        }
    }
    assert(entries@.take(entries@.len() as int) =~= entries@);
    targets
}

/// The first entry from `from` on that `is_wanted`, or the length.
fn find_entry<F>(
    entries: &Vec<DeferEntry>,
    from: usize,
    Ghost(wanted): Ghost<spec_fn(DeferEntry) -> bool>,
    is_wanted: F,
) -> (found: usize) where F: Fn(&DeferEntry) -> bool
    requires
        from <= entries@.len(),
        forall|e: &DeferEntry| #[trigger] is_wanted.requires((e,)),
        forall|e: &DeferEntry, r: bool| #[trigger] is_wanted.ensures((e,), r) ==> r == wanted(*e),
    ensures
        found == first_from(entries@, wanted, from as int),
        from <= found <= entries@.len(),
        found < entries@.len() ==> wanted(entries@[found as int]),
{
    proof {
        lemma_first_from(entries@, wanted, from as int);
    }
    let mut i: usize = from;
    while i < entries.len()
        invariant
            from <= i <= entries@.len(),
            forall|e: &DeferEntry| #[trigger] is_wanted.requires((e,)),
            forall|e: &DeferEntry, r: bool| #[trigger]
                is_wanted.ensures((e,), r) ==> r == wanted(*e),
            first_from(entries@, wanted, from as int) == first_from(entries@, wanted, i as int),
        decreases entries.len() - i,
    {
        if is_wanted(&entries[i]) {
            return i;
        }
        i = i + 1;
    }
    i
}

/// The first entry from an index on that is to be revealed.
pub open spec fn next_returning(entries: Seq<DeferEntry>, cloaks: CloakSets, from: int) -> int {
    first_from(entries, |e: DeferEntry| returning(e, cloaks), from)
}

/// The first entry from an index on that is to be revealed.
pub fn find_returning(entries: &Vec<DeferEntry>, cloaks: &CloakRegistry, from: usize) -> (found:
    usize)
    requires
        from <= entries@.len(),
    ensures
        found == next_returning(entries@, cloaks@, from as int),
        from <= found <= entries@.len(),
{
    let ghost held = cloaks@;
    let is_wanted = |e: &DeferEntry| -> (r: bool)
        ensures
            r == returning(*e, cloaks@),
        { is_returning(e, cloaks) };
    find_entry(entries, from, Ghost(|e: DeferEntry| returning(e, held)), is_wanted)
}

/// The first entry from an index on whose park may be over.
pub open spec fn next_awaiting(
    entries: Seq<DeferEntry>,
    failed: Set<WindowId>,
    cloaks: CloakSets,
    from: int,
) -> int {
    first_from(entries, |e: DeferEntry| awaiting_release(e, failed, cloaks), from)
}

/// The first entry from an index on whose park may be over.
pub fn find_awaiting(
    entries: &Vec<DeferEntry>,
    failed: &HashSet<WindowId>,
    cloaks: &CloakRegistry,
    from: usize,
) -> (found: usize)
    requires
        from <= entries@.len(),
    ensures
        found == next_awaiting(entries@, failed@, cloaks@, from as int),
        from <= found <= entries@.len(),
        found < entries@.len() ==> awaiting_release(entries@[found as int], failed@, cloaks@),
{
    let ghost held = cloaks@;
    let ghost lost = failed@;
    let is_wanted = |e: &DeferEntry| -> (r: bool)
        ensures
            r == awaiting_release(*e, failed@, cloaks@),
        { is_awaiting_release(e, failed, cloaks) };
    find_entry(entries, from, Ghost(|e: DeferEntry| awaiting_release(e, lost, held)), is_wanted)
}

/// The first visible entry from an index on.
pub open spec fn next_visible(entries: Seq<DeferEntry>, from: int) -> int {
    first_from(entries, |e: DeferEntry| e.visibility is Visible, from)
}

/// The first visible entry from an index on.
pub fn find_visible(entries: &Vec<DeferEntry>, from: usize) -> (found: usize)
    requires
        from <= entries@.len(),
    ensures
        found == next_visible(entries@, from as int),
        from <= found <= entries@.len(),
{
    let is_wanted = |e: &DeferEntry| -> (r: bool)
        ensures
            r == (e.visibility is Visible),
        { matches!(e.visibility, Visibility::Visible) };
    find_entry(entries, from, Ghost(|e: DeferEntry| e.visibility is Visible), is_wanted)
}

/// The first entry from an index on whose size can tell of a minimum.
pub open spec fn next_measurable(
    entries: Seq<DeferEntry>,
    failed: Set<WindowId>,
    from: int,
) -> int {
    first_from(entries, |e: DeferEntry| measurable(e, failed), from)
}

/// The first entry from an index on whose size can tell of a minimum.
pub fn find_measurable(entries: &Vec<DeferEntry>, failed: &HashSet<WindowId>, from: usize) -> (found:
    usize)
    requires
        from <= entries@.len(),
    ensures
        found == next_measurable(entries@, failed@, from as int),
        from <= found <= entries@.len(),
{
    let ghost lost = failed@;
    let is_wanted = |e: &DeferEntry| -> (r: bool)
        ensures
            r == measurable(*e, failed@),
        { is_measurable(e, failed) };
    find_entry(entries, from, Ghost(|e: DeferEntry| measurable(e, lost)), is_wanted)
}

/// Only the request for a visible placement resizes a window, and only one
/// whose frame is not known has it recomputed. No request restacks or
/// activates a window.
pub proof fn law_only_visible_entries_resize(
    placement: WindowPlacement,
    resolved: ResolvedInsets,
    high_contrast: bool,
    async_position: bool,
    known: bool,
    sentinel: i32,
)
    ensures
        ({
            let entry = defer_entry(
                placement,
                resolved,
                high_contrast,
                async_position,
                known,
                sentinel,
            );
            &&& entry.flags.no_size <==> !(placement.visibility is Visible)
            &&& entry.flags.no_zorder && entry.flags.no_activate
            &&& entry.flags.async_position == async_position
            &&& entry.flags.frame_changed <==> placement.visibility is Visible && !known
        }),
{
}

/// A visible placement is shown where the layout wants it, and any other is
/// moved to the off-screen coordinate on both axes, whatever its rectangle,
/// its insets and the contrast mode.
pub proof fn law_off_screen_entries_go_to_the_sentinel(
    placement: WindowPlacement,
    resolved: ResolvedInsets,
    high_contrast: bool,
    async_position: bool,
    known: bool,
    sentinel: i32,
)
    ensures
        ({
            let entry = defer_entry(
                placement,
                resolved,
                high_contrast,
                async_position,
                known,
                sentinel,
            );
            let frame = frame_around(placement.rect, resolved.insets, high_contrast);
            &&& !(placement.visibility is Visible) ==> entry.x == sentinel && entry.y == sentinel
            &&& placement.visibility is Visible ==> entry.x == frame.x && entry.y == frame.y
                && entry.w == frame.width && entry.h == frame.height
        }),
{
}

} // verus!
