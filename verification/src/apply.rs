//! Applying a layout to the windows of the desktop.
//!
//! `apply_placements` starts a pass. The caller performs what `pending` asks
//! and hands the outcome to `answer` until the pass is finished, then takes
//! the result with `finish`.

use std::collections::HashSet;
use vstd::prelude::*;

use crate::accounts::law_a_pass_starts_accounted;
use crate::accounts::law_every_placement_falls_into_one_class;
use crate::action::is_answer;
use crate::action::WindowAction;
use crate::action::WindowEvent;
use crate::action::WindowProbe;
use crate::batch::Batch;
use crate::batch::BatchStage;
use crate::batch::PositionBatch;
use crate::cloak::is_placement_parked;
use crate::cloak::recover_placement_parked;
use crate::cloak::release_placement_parked;
use crate::cloak::uncloak_all_tracked;
use crate::cloak::CloakRegistry;
use crate::cloak::CloakSets;
use crate::entries::build_defer_entry;
use crate::entries::collect_nudge_targets;
use crate::entries::find_awaiting;
use crate::entries::find_measurable;
use crate::entries::find_returning;
use crate::entries::find_visible;
use crate::entries::has_landed_at;
use crate::entries::is_frame_known;
use crate::entries::is_landing_comparable;
use crate::entries::is_unchanged;
use crate::entries::measure_entry;
use crate::entries::skip_visible_tiled_maximized;
use crate::entries::DeferEntry;
use crate::geometry::invisible_border_insets;
use crate::insets::cache_maps;
use crate::insets::cached_border_insets;
use crate::insets::evict_cached_border_insets;
use crate::insets::finalize_cached_border_insets;
use crate::insets::inset_cache_generation;
use crate::insets::CacheMaps;
use crate::insets::InsetSource;
use crate::insets::PlacementCache;
use crate::insets::ResolvedInsets;
use crate::nudge::NudgeRun;
use crate::pass::positioned_ids;
use crate::pass::positions_noted;
use crate::pass::Pass;
use crate::pass::PassPhase;
use crate::sets::lists;
use crate::sets::placed_ids;
use crate::sets::placement_ids;
use crate::sets::retain_keys;
use crate::sizing::detect_size_violations_from_measurements;
use crate::sizing::is_representable;
use crate::sizing::representable;
use crate::sizing::should_retry_landing_measurement;
use crate::sizing::SizeViolationDetection;
use crate::sizing::WindowSizeMeasurement;
use crate::state::Shared;
use crate::state::SharedState;
use crate::sync::departed;
use crate::sync::sync_cloak_state;
use crate::types::ApplyPlacementsResult;
use crate::types::HeightViolation;
use crate::types::PositionFlags;
use crate::types::WidthViolation;
use crate::types::WindowId;
use crate::types::WindowPlacement;

verus! {

broadcast use vstd::std_specs::hash::group_hash_axioms;

/// A placement pass under way.
#[derive(Debug)]
pub struct ApplyPass {
    placements: Vec<WindowPlacement>,
    cache: Option<PlacementCache>,
    nudge_wanted: bool,
    sentinel: i32,
    allow_retry: bool,
    high_contrast: bool,
    entries: Vec<DeferEntry>,
    skipped: u32,
    maximized: Vec<WindowId>,
    batch: PositionBatch,
    landed: Vec<WindowId>,
    measurements: Vec<WindowSizeMeasurement>,
    width_violations: Vec<WidthViolation>,
    height_violations: Vec<HeightViolation>,
    to_cloak: Vec<WindowId>,
    to_uncloak: Vec<WindowId>,
    nudge: NudgeRun,
    phase: PassPhase,
}

impl View for ApplyPass {
    type V = Pass;

    closed spec fn view(&self) -> Pass {
        Pass {
            placements: self.placements@,
            cache: cache_maps(self.cache),
            nudge_wanted: self.nudge_wanted,
            sentinel: self.sentinel,
            allow_retry: self.allow_retry,
            high_contrast: self.high_contrast,
            entries: self.entries@,
            skipped: self.skipped,
            maximized: self.maximized@,
            batch: self.batch@,
            landed: self.landed@,
            measurements: self.measurements@,
            width_violations: self.width_violations@,
            height_violations: self.height_violations@,
            to_cloak: self.to_cloak@,
            to_uncloak: self.to_uncloak@,
            nudge: self.nudge@,
            phase: self.phase,
        }
    }
}

/// Apply a layout. Visible windows are positioned where it wants them;
/// off-screen windows are moved to `sentinel`, a coordinate far off-screen, on
/// both axes.
///
/// With a cache this is an animation frame: windows that the worker has already
/// placed as asked are left alone, and windows are moved without waiting for
/// them. Without one it is a landing: windows are measured afterwards, and
/// nudged if wanted.
///
/// An empty layout gives up every window that placement hides.
pub fn apply_placements(
    placements: Vec<WindowPlacement>,
    cache: Option<PlacementCache>,
    nudge_sticky_compositors: bool,
    sentinel: i32,
    state: &mut SharedState,
) -> (pass: ApplyPass)
    requires
        placements@.len() <= u32::MAX,
    ensures
        pass@ == Pass::begun(
            placements@,
            cache_maps(cache),
            nudge_sticky_compositors,
            sentinel,
            pass@.to_uncloak,
        ),
        pass@.consistent(),
        pass@.accounted(),
        placements@.len() > 0 ==> pass@.to_uncloak.len() == 0 && final(state)@ == old(state)@,
        placements@.len() == 0 ==> lists(pass@.to_uncloak, old(state)@.cloaks.placement)
            && final(state)@ == (Shared {
            cloaks: CloakSets {
                placement: Set::empty(),
                ..old(state)@.cloaks
            },
            ..old(state)@
        }),
{
    let ghost placed = placements@;
    let ghost remembered = cache_maps(cache);
    let mut pass = ApplyPass {
        placements,
        cache,
        nudge_wanted: nudge_sticky_compositors,
        sentinel,
        allow_retry: true,
        high_contrast: false,
        entries: Vec::new(),
        skipped: 0,
        maximized: Vec::new(),
        batch: PositionBatch::new(),
        landed: Vec::new(),
        measurements: Vec::new(),
        width_violations: Vec::new(),
        height_violations: Vec::new(),
        to_cloak: Vec::new(),
        to_uncloak: Vec::new(),
        nudge: NudgeRun::new(),
        phase: PassPhase::Contrast,
    };
    if pass.placements.len() == 0 {
        if let Some(cache) = pass.cache.as_mut() {
            cache.clear();
        }
        pass.to_uncloak = uncloak_all_tracked(&mut state.cloaks);
        pass.uncloak_next(0);
    }
    proof {
        law_a_pass_starts_accounted(
            placed,
            remembered,
            nudge_sticky_compositors,
            sentinel,
            pass@.to_uncloak,
        );
    }
    pass
}

/// The windows that were positioned.
fn collect_positioned(entries: &Vec<DeferEntry>, failed: &HashSet<WindowId>) -> (ids: HashSet<
    WindowId,
>)
    ensures
        ids@ == positioned_ids(entries@, failed@),
{
    let mut ids: HashSet<WindowId> = HashSet::new();
    for i in 0..entries.len()
        invariant
            ids@ =~= positioned_ids(entries@.take(i as int), failed@),
    {
        let id = entries[i].window_id;
        if !failed.contains(&id) {
            ids.insert(id);
        }
        proof {
            let before = entries@.take(i as int);
            let after = entries@.take(i + 1);
            assert forall|w: WindowId| positioned_ids(after, failed@).contains(w) <==> (
            positioned_ids(before, failed@).contains(w) || (w == id && !failed@.contains(w))) by {
                if positioned_ids(before, failed@).contains(w) {
                    let k = choose|k: int|
                        0 <= k < before.len() && (#[trigger] before[k]).window_id == w;
                    assert(after[k].window_id == w);
                }
                if positioned_ids(after, failed@).contains(w) && w != id {
                    let k = choose|k: int|
                        0 <= k < after.len() && (#[trigger] after[k]).window_id == w;
                    assert(before[k].window_id == w);
                }
                assert(after[i as int].window_id == id);
            }
        }
    }
    assert(entries@.take(entries@.len() as int) == entries@);
    ids
}

/// The worker takes note of a pass: it forgets windows that left the layout
/// and remembers where the others were positioned.
fn note_positions(
    cache: &mut PlacementCache,
    placements: &Vec<WindowPlacement>,
    entries: &Vec<DeferEntry>,
    failed: &HashSet<WindowId>,
)
    ensures
        final(cache)@ == (CacheMaps {
            positions: positions_noted(
                old(cache)@.positions.restrict(placed_ids(placements@)),
                placements@,
                positioned_ids(entries@, failed@),
            ),
            insets: old(cache)@.insets.restrict(placed_ids(placements@)),
        }),
{
    let current_ids = placement_ids(placements);
    retain_keys(&mut cache.positions, &current_ids);
    retain_keys(&mut cache.insets, &current_ids);
    let positioned = collect_positioned(entries, failed);
    let ghost kept = cache@;
    for i in 0..placements.len()
        invariant
            cache@ == (CacheMaps {
                positions: positions_noted(
                    kept.positions,
                    placements@.take(i as int),
                    positioned@,
                ),
                ..kept
            }),
    {
        let placement = placements[i];
        assert(placements@.take(i + 1).drop_last() =~= placements@.take(i as int));
        if positioned.contains(&placement.window_id) {
            cache.positions.insert(placement.window_id, (placement.rect, placement.visibility));
        }
    }
    assert(placements@.take(placements@.len() as int) =~= placements@);
}

/// Placement gives up the windows of a list.
fn release_all(cloaks: &mut CloakRegistry, window_ids: &Vec<WindowId>)
    ensures
        final(cloaks)@ == old(cloaks)@.unpark_all(window_ids@.to_set()),
{
    let ghost before = cloaks@;
    for i in 0..window_ids.len()
        invariant
            cloaks@ =~= before.unpark_all(window_ids@.take(i as int).to_set()),
    {
        release_placement_parked(cloaks, window_ids[i]);
        proof {
            broadcast use vstd::seq_lib::lemma_seq_contains_after_push;
            assert(window_ids@.take(i + 1) == window_ids@.take(i as int).push(
                window_ids@[i as int],
            ));
            assert(window_ids@.take(i + 1).to_set() =~= window_ids@.take(i as int).to_set().insert(
                window_ids@[i as int],
            ));
        }
    }
    assert(window_ids@.take(window_ids@.len() as int) == window_ids@);
}

impl ApplyPass {
    /// Whether windows are moved without waiting for them.
    fn is_async(&self) -> (r: bool)
        ensures
            r == self@.is_async(),
    {
        self.cache.is_some()
    }

    /// Deal with the placement at an index, or end the building of entries.
    fn build_defer_entries(&mut self, index: usize)
        requires
            old(self)@.bounded(),
            index <= old(self)@.placements.len(),
            old(self)@.entries.len() <= index,
            old(self)@.skipped <= index,
            old(self)@.untried(),
        ensures
            final(self)@ == old(self)@.probe_from(index as int),
            final(self)@.consistent(),
    {
        if index < self.placements.len() {
            self.phase = PassPhase::Probing(index);
        } else {
            self.phase = PassPhase::Built;
        }
    }

    /// Reveal returning windows from an index on, then begin to move.
    fn prepare_visible_uncloak(&mut self, cloaks: &CloakRegistry, index: usize)
        requires
            old(self)@.bounded(),
            index <= old(self)@.entries.len(),
            old(self)@.untried(),
        ensures
            final(self)@ == old(self)@.reveal_from(cloaks@, index as int),
            final(self)@.consistent(),
    {
        let next = find_returning(&self.entries, cloaks, index);
        if next < self.entries.len() {
            self.phase = PassPhase::Revealing(next);
        } else {
            self.position_entries();
        }
    }

    /// Begin to move every entry.
    fn position_entries(&mut self)
        requires
            old(self)@.bounded(),
            old(self)@.landed.len() == 0,
            old(self)@.unreported(),
        ensures
            final(self)@ == (Pass {
                batch: Batch::begun(old(self)@.entries),
                phase: PassPhase::Positioning,
                ..old(self)@
            }),
            final(self)@.consistent(),
    {
        self.batch.begin(&self.entries);
        self.phase = PassPhase::Positioning;
    }

    /// Look for landed windows from an index on.
    fn finalize_visible_uncloak(&mut self, cloaks: &CloakRegistry, index: usize)
        requires
            old(self)@.bounded(),
            index <= old(self)@.entries.len(),
            old(self)@.landed_were_moved(),
            old(self)@.unreported(),
        ensures
            final(self)@ == old(self)@.land_from(cloaks@, index as int),
            final(self)@.consistent(),
    {
        let next = find_awaiting(&self.entries, &self.batch.failed, cloaks, index);
        if next < self.entries.len() {
            self.phase = PassPhase::Landing(next);
        } else {
            self.phase = PassPhase::Landed;
        }
    }

    /// Commit the cloaks of visible entries from an index on.
    fn commit_visible(&mut self, index: usize)
        requires
            old(self)@.bounded(),
            index <= old(self)@.entries.len(),
            old(self)@.unreported(),
        ensures
            final(self)@ == old(self)@.commit_from(index as int),
            final(self)@.consistent(),
    {
        let next = find_visible(&self.entries, index);
        if next < self.entries.len() {
            self.phase = PassPhase::Committing(next);
        } else if self.is_async() {
            self.phase = PassPhase::Settling;
        } else {
            self.phase = PassPhase::Flushing;
        }
    }

    /// Measure entries from an index on.
    fn measure_entries(&mut self, index: usize)
        requires
            old(self)@.bounded(),
            index <= old(self)@.entries.len(),
            !old(self)@.is_async(),
            old(self)@.unreported(),
        ensures
            final(self)@ == old(self)@.measure_from(index as int),
            final(self)@.consistent(),
    {
        let next = find_measurable(&self.entries, &self.batch.failed, index);
        if next < self.entries.len() {
            self.phase = PassPhase::Measuring(next);
        } else {
            self.phase = PassPhase::Settling;
        }
    }

    /// Commit the cloaks of newly parked windows from an index on.
    fn cloak_next(&mut self, index: usize)
        requires
            old(self)@.bounded(),
            index <= old(self)@.to_cloak.len(),
        ensures
            final(self)@ == old(self)@.cloak_from(index as int),
            final(self)@.consistent(),
    {
        if index < self.to_cloak.len() {
            self.phase = PassPhase::Cloaking(index);
        } else {
            self.uncloak_next(0);
        }
    }

    /// Commit the cloaks of departed windows from an index on, then nudge.
    fn uncloak_next(&mut self, index: usize)
        requires
            old(self)@.bounded(),
            index <= old(self)@.to_uncloak.len(),
        ensures
            final(self)@ == old(self)@.uncloak_from(index as int),
            final(self)@.consistent(),
    {
        if index < self.to_uncloak.len() {
            self.phase = PassPhase::Uncloaking(index);
        } else if self.cache.is_none() && self.nudge_wanted {
            let targets = collect_nudge_targets(&self.entries, &self.batch.failed);
            self.nudge = NudgeRun::nudge_sticky_compositor_windows(targets);
            self.phase = PassPhase::Nudging;
        } else {
            self.phase = PassPhase::Finished;
        }
    }

    /// Add a request for the placement at an index and go on.
    fn push_entry(&mut self, index: usize, resolved: ResolvedInsets)
        requires
            old(self)@.bounded(),
            index < old(self)@.placements.len(),
            old(self)@.entries.len() <= index,
            old(self)@.skipped <= index,
            old(self)@.untried(),
        ensures
            final(self)@ == old(self)@.with_entry(index, resolved).probe_from(index + 1),
            final(self)@.consistent(),
    {
        let placement = self.placements[index];
        let entry = build_defer_entry(
            &placement,
            &resolved,
            self.high_contrast,
            self.is_async(),
            is_frame_known(&self.cache, placement.window_id),
            self.sentinel,
        );
        self.entries.push(entry);
        assert(placed_ids(self@.placements).contains(placement.window_id)) by {
            assert(self@.placements[index as int].window_id == placement.window_id);
        }
        self.build_defer_entries(index + 1);
    }

    /// Decide on the placement at an index once its window was probed.
    fn plan_placement(&mut self, state: &SharedState, index: usize, probe: WindowProbe)
        requires
            old(self)@.consistent(),
            old(self)@.phase == PassPhase::Probing(index),
        ensures
            final(self)@ == old(self)@.probed(state@, index, probe),
            final(self)@.consistent(),
    {
        let placement = self.placements[index];
        let is_zoomed = match probe {
            WindowProbe::Unmanageable => {
                self.build_defer_entries(index + 1);
                return ;
            },
            WindowProbe::Normal => false,
            WindowProbe::Zoomed => true,
        };
        let parked = is_placement_parked(&state.cloaks, placement.window_id);
        if skip_visible_tiled_maximized(&placement, is_zoomed, self.cache.as_mut()) {
            self.maximized.push(placement.window_id);
            if parked {
                self.phase = PassPhase::Recovering(index);
            } else {
                self.build_defer_entries(index + 1);
            }
            return ;
        }
        if self.allow_retry && !parked && is_unchanged(&self.cache, &placement) {
            self.skipped = self.skipped + 1;
            self.build_defer_entries(index + 1);
            return ;
        }
        if self.high_contrast {
            let resolved = ResolvedInsets {
                insets: (0, 0, 0, 0),
                source: InsetSource::Fresh,
                generation: inset_cache_generation(&state.insets),
            };
            self.push_entry(index, resolved);
            return ;
        }
        match cached_border_insets(placement.window_id, &self.cache, &state.insets) {
            Some(resolved) => {
                self.push_entry(index, resolved);
            },
            None => {
                self.phase =
                PassPhase::Framing { index, generation: inset_cache_generation(&state.insets) };
            },
        }
    }

    /// Judge the measurements of a landing pass.
    fn detect_size_violations(&self, state: &mut SharedState) -> (detection: SizeViolationDetection)
        requires
            self@.bounded(),
        ensures
            detection@ == self@.detection(old(state)@.suspects),
            final(state)@ == (Shared {
                suspects: self@.suspects_after(old(state)@.suspects),
                ..old(state)@
            }),
    {
        if self.is_async() {
            return SizeViolationDetection::new();
        }
        assert forall|i: int| 0 <= i < self.measurements@.len() implies representable(
            #[trigger] self.measurements@[i],
            self.allow_retry,
        ) by {
            assert(self@.measurements[i] == self.measurements@[i]);
        }
        detect_size_violations_from_measurements(
            self.measurements.as_slice(),
            self.allow_retry,
            &mut state.suspects,
        )
    }

    /// Begin the pass again, for the last time.
    fn retry(&mut self)
        requires
            old(self)@.bounded(),
            old(self)@.unreported(),
        ensures
            final(self)@ == old(self)@.retried(),
            final(self)@.consistent(),
    {
        self.allow_retry = false;
        self.entries = Vec::new();
        self.skipped = 0;
        self.maximized = Vec::new();
        self.batch = PositionBatch::new();
        self.landed = Vec::new();
        self.measurements = Vec::new();
        self.phase = PassPhase::Contrast;
    }

    /// Judge the pass: repeat it, or publish what it learned.
    fn settle(&mut self, state: &mut SharedState)
        requires
            old(self)@.consistent(),
            old(self)@.phase is Settling,
        ensures
            final(self)@ == old(self)@.settled(old(state)@),
            final(self)@.consistent(),
            final(state)@ == (Shared {
                suspects: old(self)@.suspects_after(old(state)@.suspects),
                insets: old(self)@.insets_settled(old(state)@),
                ..old(state)@
            }),
    {
        let detection = self.detect_size_violations(state);
        if should_retry_landing_measurement(self.allow_retry, &detection) {
            evict_cached_border_insets(
                &detection.inset_artifact_windows,
                self.cache.as_mut(),
                &mut state.insets,
            );
            self.retry();
            return ;
        }
        finalize_cached_border_insets(
            self.entries.as_slice(),
            &detection.inset_artifact_windows,
            self.cache.as_mut(),
            &mut state.insets,
        );
        evict_cached_border_insets(
            &detection.violating_windows,
            self.cache.as_mut(),
            &mut state.insets,
        );
        if let Some(cache) = self.cache.as_mut() {
            note_positions(cache, &self.placements, &self.entries, &self.batch.failed);
        }
        self.width_violations = detection.width_violations;
        self.height_violations = detection.height_violations;
        self.phase = PassPhase::Syncing;
    }

    /// The request that waits to be answered; `Finish` when there is none.
    pub fn pending(&self) -> (action: WindowAction)
        requires
            self@.consistent(),
        ensures
            action == self@.pending(),
    {
        match self.phase {
            PassPhase::Contrast => WindowAction::QueryHighContrast,
            PassPhase::Probing(i) => WindowAction::Probe {
                window_id: self.placements[i].window_id,
            },
            PassPhase::Recovering(i) => WindowAction::SetPosition {
                window_id: self.placements[i].window_id,
                x: self.placements[i].rect.x,
                y: self.placements[i].rect.y,
                w: 0,
                h: 0,
                flags: PositionFlags::move_only(self.is_async()),
            },
            PassPhase::Returning(i) => WindowAction::CommitCloak {
                window_id: self.placements[i].window_id,
            },
            PassPhase::Framing { index, .. } => WindowAction::QueryFrame {
                window_id: self.placements[index].window_id,
            },
            PassPhase::Revealing(j) => WindowAction::Reveal {
                window_id: self.entries[j].window_id,
            },
            PassPhase::Positioning => self.batch.pending(&self.entries),
            PassPhase::Landing(j) => WindowAction::QueryRect {
                window_id: self.entries[j].window_id,
            },
            PassPhase::Committing(j) => WindowAction::CommitCloak {
                window_id: self.entries[j].window_id,
            },
            PassPhase::Flushing => WindowAction::Flush,
            PassPhase::Measuring(j) => WindowAction::QueryVisible {
                window_id: self.entries[j].window_id,
            },
            PassPhase::Cloaking(i) => WindowAction::CommitCloak { window_id: self.to_cloak[i] },
            PassPhase::Uncloaking(i) => WindowAction::CommitCloak {
                window_id: self.to_uncloak[i],
            },
            PassPhase::Nudging => self.nudge.pending(),
            PassPhase::Built
            | PassPhase::Landed
            | PassPhase::Settling
            | PassPhase::Syncing => WindowAction::Continue,
            PassPhase::Finished => WindowAction::Finish,
        }
    }

    /// Whether an event can be taken now: it answers the pending request, and
    /// what is computed from a rectangle that it brings can be represented.
    pub fn admits(&self, event: &WindowEvent) -> (r: bool)
        requires
            self@.consistent(),
        ensures
            r == self@.admits(*event),
    {
        if !is_answer(&self.pending(), event) {
            return false;
        }
        match self.phase {
            PassPhase::Framing { .. } => match event {
                WindowEvent::Frame { frame: Some(frame), visible: Some(visible) } =>
                    frame.is_well_sized() && visible.is_well_sized(),
                _ => true,
            },
            PassPhase::Landing(j) => match event {
                WindowEvent::Bounds(bounds) => is_landing_comparable(&self.entries[j], bounds),
                _ => true,
            },
            PassPhase::Measuring(j) => match event {
                WindowEvent::Bounds(Some(visible)) => visible.is_well_sized() && is_representable(
                    &measure_entry(&self.entries[j], visible),
                    self.allow_retry,
                ),
                _ => true,
            },
            PassPhase::Nudging => self.nudge.admits(event),
            _ => true,
        }
    }

    /// The window of the placement at an index was moved back, or not.
    fn answer_recovery(&mut self, index: usize, state: &mut SharedState, moved: bool)
        requires
            old(self)@.consistent(),
            old(self)@.phase == PassPhase::Recovering(index),
        ensures
            final(self)@.consistent(),
            ({
                let id = old(self)@.placements[index as int].window_id;
                let released = moved && old(state)@.cloaks.placement.contains(id);
                &&& final(self)@ == if released {
                    old(self)@.at(PassPhase::Returning(index))
                } else {
                    old(self)@.probe_from(index + 1)
                }
                &&& final(state)@ == if moved {
                    Shared { cloaks: old(state)@.cloaks.unpark(id), ..old(state)@ }
                } else {
                    old(state)@
                }
            }),
    {
        let id = self.placements[index].window_id;
        let ghost before = state@;
        let position = |_flags: PositionFlags| -> (r: bool)
            ensures
                r == moved,
            { moved };
        if recover_placement_parked(&mut state.cloaks, id, self.is_async(), position) {
            self.phase = PassPhase::Returning(index);
        } else {
            assert(!before.cloaks.placement.contains(id) ==> before.cloaks.unpark(id)
                =~= before.cloaks);
            self.build_defer_entries(index + 1);
        }
    }

    /// Take the answer to the pending request.
    #[verifier::rlimit(60)]
    pub fn answer(&mut self, state: &mut SharedState, event: WindowEvent)
        requires
            old(self)@.consistent(),
            old(self)@.admits(event),
        ensures
            final(self)@ == old(self)@.answered(old(state)@, event, final(self)@.to_uncloak),
            final(self)@.consistent(),
            old(self)@.accounted() ==> final(self)@.accounted(),
            final(state)@ == old(self)@.shared_after(old(state)@, event),
            old(self)@.phase is Syncing ==> lists(
                final(self)@.to_uncloak,
                departed(
                    old(state)@.cloaks,
                    old(self)@.entries,
                    old(self)@.placements,
                    old(self)@.batch.failed,
                ),
            ),
    {
        let ghost taken = event;
        match self.phase {
            PassPhase::Contrast => {
                if let WindowEvent::HighContrast(high_contrast) = event {
                    self.high_contrast = high_contrast;
                }
                self.build_defer_entries(0);
            },
            PassPhase::Probing(index) => {
                if let WindowEvent::Probed(probe) = event {
                    self.plan_placement(state, index, probe);
                }
            },
            PassPhase::Recovering(index) => {
                let moved = matches!(event, WindowEvent::Moved);
                self.answer_recovery(index, state, moved);
            },
            PassPhase::Returning(index) => {
                self.build_defer_entries(index + 1);
            },
            PassPhase::Framing { index, generation } => {
                if let WindowEvent::Frame { frame, visible } = event {
                    let insets = invisible_border_insets(frame, visible);
                    self.push_entry(
                        index,
                        ResolvedInsets { insets, source: InsetSource::Fresh, generation },
                    );
                }
            },
            PassPhase::Built => {
                self.prepare_visible_uncloak(&state.cloaks, 0);
            },
            PassPhase::Revealing(index) => {
                self.prepare_visible_uncloak(&state.cloaks, index + 1);
            },
            PassPhase::Positioning => {
                if matches!(self.batch.stage, BatchStage::Finished) {
                    self.finalize_visible_uncloak(&state.cloaks, 0);
                } else {
                    self.batch.answer(&self.entries, &event);
                }
            },
            PassPhase::Landing(index) => {
                if let WindowEvent::Bounds(bounds) = event {
                    let entry = self.entries[index];
                    if has_landed_at(&entry, &bounds) {
                        self.landed.push(entry.window_id);
                    }
                }
                self.finalize_visible_uncloak(&state.cloaks, index + 1);
            },
            PassPhase::Landed => {
                release_all(&mut state.cloaks, &self.landed);
                self.commit_visible(0);
            },
            PassPhase::Committing(index) => {
                self.commit_visible(index + 1);
            },
            PassPhase::Flushing => {
                self.measure_entries(0);
            },
            PassPhase::Measuring(index) => {
                if let WindowEvent::Bounds(Some(visible)) = event {
                    let measured = measure_entry(&self.entries[index], &visible);
                    self.measurements.push(measured);
                }
                self.measure_entries(index + 1);
            },
            PassPhase::Settling => {
                self.settle(state);
            },
            PassPhase::Syncing => {
                let (to_cloak, to_uncloak) = sync_cloak_state(
                    &self.entries,
                    &self.placements,
                    &self.batch.failed,
                    &mut state.cloaks,
                );
                self.to_cloak = to_cloak;
                self.to_uncloak = to_uncloak;
                self.cloak_next(0);
            },
            PassPhase::Cloaking(index) => {
                self.cloak_next(index + 1);
            },
            PassPhase::Uncloaking(index) => {
                self.uncloak_next(index + 1);
            },
            PassPhase::Nudging => {
                if self.nudge.is_finished() {
                    self.phase = PassPhase::Finished;
                } else {
                    self.nudge.answer(&mut state.cloaks, event);
                }
            },
            PassPhase::Finished => {},
        }
        proof {
            if old(self)@.accounted() {
                law_every_placement_falls_into_one_class(
                    old(self)@,
                    old(state)@,
                    taken,
                    self@.to_uncloak,
                );
            }
        }
    }

    /// How many windows were moved, once the moves are over.
    pub fn applied(&self) -> (count: u32)
        ensures
            count == self@.batch.applied,
    {
        self.batch.applied
    }

    /// How many placements were left out because nothing changed.
    pub fn skipped(&self) -> (count: u32)
        ensures
            count == self@.skipped,
    {
        self.skipped
    }

    /// Take the result of a finished pass, and the worker's memory back.
    pub fn finish(self) -> (r: (ApplyPlacementsResult, Option<PlacementCache>))
        ensures
            r.0.width_violations@ == self@.width_violations,
            r.0.height_violations@ == self@.height_violations,
            r.0.maximized_skipped_window_ids@ == self@.maximized,
            cache_maps(r.1) == self@.cache,
    {
        (
            ApplyPlacementsResult {
                width_violations: self.width_violations,
                height_violations: self.height_violations,
                maximized_skipped_window_ids: self.maximized,
            },
            self.cache,
        )
    }
}

} // verus!
