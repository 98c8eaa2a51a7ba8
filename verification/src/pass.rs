//! The course of one placement pass, as a mathematical model.
//!
//! A pass alternates between asking something of the window system and
//! deciding on the answer. `Pass::pending` is what it asks, `Pass::answered`
//! what becomes of it, and `Pass::shared_after` what becomes of the state that
//! all passes share. `apply::ApplyPass` carries it out.

use vstd::prelude::*;

use crate::action::answers;
use crate::action::WindowAction;
use crate::action::WindowEvent;
use crate::action::WindowProbe;
use crate::batch::Batch;
use crate::cloak::CloakSets;
use crate::entries::defer_entry;
use crate::entries::frame_known;
use crate::entries::landed_at;
use crate::entries::landing_comparable;
use crate::entries::measurement;
use crate::entries::next_awaiting;
use crate::entries::next_measurable;
use crate::entries::next_returning;
use crate::entries::next_visible;
use crate::entries::nudge_targets;
use crate::entries::position_forgotten;
use crate::entries::unchanged;
use crate::entries::visible_tiled_maximized;
use crate::entries::DeferEntry;
use crate::geometry::insets_or_none;
use crate::geometry::queried_insets;
use crate::geometry::queried_well_sized;
use crate::geometry::Rect;
use crate::insets::published_globally;
use crate::insets::published_locally;
use crate::insets::remembered_insets;
use crate::insets::CacheMaps;
use crate::insets::InsetMap;
use crate::insets::InsetSource;
use crate::insets::ResolvedInsets;
use crate::nudge::Nudge;
use crate::sets::placed_ids;
use crate::sizing::detection_of;
use crate::sizing::representable;
use crate::sizing::suspects_left;
use crate::sizing::Detection;
use crate::sizing::SuspectMap;
use crate::sizing::WindowSizeMeasurement;
use crate::state::Shared;
use crate::sync::newly_parked;
use crate::sync::synced;
use crate::types::HeightViolation;
use crate::types::PositionFlags;
use crate::types::Visibility;
use crate::types::WidthViolation;
use crate::types::WindowId;
use crate::types::WindowPlacement;

verus! {

/// What a pass is waiting for.
#[derive(Clone, Copy, Debug, PartialEq, Eq, Structural)]
pub enum PassPhase {
    /// Whether high contrast is on.
    Contrast,
    /// What the window of this placement is fit for.
    Probing(usize),
    /// The maximized window of this placement to be moved back on-screen.
    Recovering(usize),
    /// The cloak of the window that was moved back.
    Returning(usize),
    /// The bounds from which the insets of this placement's window follow,
    /// which belong to this generation of the shared insets.
    Framing { index: usize, generation: u64 },
    /// Nothing: every placement has been dealt with.
    Built,
    /// The parked window of this entry to be revealed.
    Revealing(usize),
    /// The batch of moves.
    Positioning,
    /// Where the parked window of this entry is.
    Landing(usize),
    /// Nothing: the windows that landed are to be released.
    Landed,
    /// The cloak of this entry's window.
    Committing(usize),
    /// The compositor.
    Flushing,
    /// The visible bounds of this entry's window.
    Measuring(usize),
    /// Nothing: the pass is to be judged.
    Settling,
    /// Nothing: the cloaks are to be brought in line.
    Syncing,
    /// The cloak of this newly parked window.
    Cloaking(usize),
    /// The cloak of this window, which left the layout.
    Uncloaking(usize),
    /// The nudging.
    Nudging,
    /// Nothing any more.
    Finished,
}

/// The mathematical content of an `ApplyPass`.
#[verifier::ext_equal]
pub struct Pass {
    pub placements: Seq<WindowPlacement>,
    /// What the animation worker remembers; none on a landing pass.
    pub cache: Option<CacheMaps>,
    /// Stubborn windows are to be nudged after a landing.
    pub nudge_wanted: bool,
    /// The off-screen coordinate, on both axes.
    pub sentinel: i32,
    /// The pass may be repeated once if its measurements are not settled.
    pub allow_retry: bool,
    pub high_contrast: bool,
    pub entries: Seq<DeferEntry>,
    /// Placements left out because nothing changed.
    pub skipped: u32,
    /// Placements left out because their window is maximized.
    pub maximized: Seq<WindowId>,
    pub batch: Batch,
    /// Parked windows found where they belong.
    pub landed: Seq<WindowId>,
    pub measurements: Seq<WindowSizeMeasurement>,
    pub width_violations: Seq<WidthViolation>,
    pub height_violations: Seq<HeightViolation>,
    /// Windows whose cloak is to be committed, newly parked ones first.
    pub to_cloak: Seq<WindowId>,
    pub to_uncloak: Seq<WindowId>,
    pub nudge: Nudge,
    pub phase: PassPhase,
}

/// The positions that a worker remembers after a pass: those of the windows
/// that were positioned are replaced in order.
pub open spec fn positions_noted(
    positions: Map<WindowId, (Rect, Visibility)>,
    placements: Seq<WindowPlacement>,
    positioned: Set<WindowId>,
) -> Map<WindowId, (Rect, Visibility)>
    decreases placements.len(),
{
    if placements.len() == 0 {
        positions
    } else {
        let earlier = positions_noted(positions, placements.drop_last(), positioned);
        let last = placements.last();
        if positioned.contains(last.window_id) {
            earlier.insert(last.window_id, (last.rect, last.visibility))
        } else {
            earlier
        }
    }
}

/// The windows that were positioned.
pub open spec fn positioned_ids(entries: Seq<DeferEntry>, failed: Set<WindowId>) -> Set<WindowId> {
    Set::new(
        |id: WindowId|
            !failed.contains(id) && exists|i: int|
                0 <= i < entries.len() && (#[trigger] entries[i]).window_id == id,
    )
}

impl Pass {
    /// A pass about to begin. With nothing to place, only the cloaks in
    /// `to_uncloak` are committed, and the worker forgets every position.
    pub open spec fn begun(
        placements: Seq<WindowPlacement>,
        cache: Option<CacheMaps>,
        nudge_wanted: bool,
        sentinel: i32,
        to_uncloak: Seq<WindowId>,
    ) -> Pass {
        let pass = Pass {
            placements,
            cache,
            nudge_wanted,
            sentinel,
            allow_retry: true,
            high_contrast: false,
            entries: Seq::empty(),
            skipped: 0,
            maximized: Seq::empty(),
            batch: Batch::idle(),
            landed: Seq::empty(),
            measurements: Seq::empty(),
            width_violations: Seq::empty(),
            height_violations: Seq::empty(),
            to_cloak: Seq::empty(),
            to_uncloak,
            nudge: Nudge::none(),
            phase: PassPhase::Contrast,
        };
        if placements.len() > 0 {
            pass
        } else {
            Pass {
                cache: match cache {
                    Some(cache) => Some(CacheMaps { positions: Map::empty(), ..cache }),
                    None => None,
                },
                ..pass
            }.uncloak_from(0)
        }
    }

    /// Animation frames do not wait for the windows they move.
    pub open spec fn is_async(self) -> bool {
        self.cache is Some
    }

    pub open spec fn at(self, phase: PassPhase) -> Pass {
        Pass { phase, ..self }
    }

    /// Go on with the placement at an index.
    pub open spec fn probe_from(self, index: int) -> Pass {
        if index < self.placements.len() {
            self.at(PassPhase::Probing(index as usize))
        } else {
            self.at(PassPhase::Built)
        }
    }

    /// Go on revealing from an index, then move every entry.
    pub open spec fn reveal_from(self, cloaks: CloakSets, index: int) -> Pass {
        let next = next_returning(self.entries, cloaks, index);
        if next < self.entries.len() {
            self.at(PassPhase::Revealing(next as usize))
        } else {
            Pass { batch: Batch::begun(self.entries), phase: PassPhase::Positioning, ..self }
        }
    }

    /// Go on looking for landed windows from an index.
    pub open spec fn land_from(self, cloaks: CloakSets, index: int) -> Pass {
        let next = next_awaiting(self.entries, self.batch.failed, cloaks, index);
        if next < self.entries.len() {
            self.at(PassPhase::Landing(next as usize))
        } else {
            self.at(PassPhase::Landed)
        }
    }

    /// Go on committing the cloaks of visible entries from an index, then
    /// measure them if this is a landing pass.
    pub open spec fn commit_from(self, index: int) -> Pass {
        let next = next_visible(self.entries, index);
        if next < self.entries.len() {
            self.at(PassPhase::Committing(next as usize))
        } else if self.is_async() {
            self.at(PassPhase::Settling)
        } else {
            self.at(PassPhase::Flushing)
        }
    }

    /// Go on measuring from an index.
    pub open spec fn measure_from(self, index: int) -> Pass {
        let next = next_measurable(self.entries, self.batch.failed, index);
        if next < self.entries.len() {
            self.at(PassPhase::Measuring(next as usize))
        } else {
            self.at(PassPhase::Settling)
        }
    }

    /// Go on committing the cloaks of newly parked windows from an index.
    pub open spec fn cloak_from(self, index: int) -> Pass {
        if index < self.to_cloak.len() {
            self.at(PassPhase::Cloaking(index as usize))
        } else {
            self.uncloak_from(0)
        }
    }

    /// Go on committing the cloaks of windows given up from an index, then
    /// nudge if this is a landing pass and nudging is wanted.
    pub open spec fn uncloak_from(self, index: int) -> Pass {
        if index < self.to_uncloak.len() {
            self.at(PassPhase::Uncloaking(index as usize))
        } else if !self.is_async() && self.nudge_wanted {
            Pass {
                nudge: Nudge::begun(nudge_targets(self.entries, self.batch.failed)),
                phase: PassPhase::Nudging,
                ..self
            }
        } else {
            self.at(PassPhase::Finished)
        }
    }

    /// The insets for a window as far as they are known without asking: none
    /// in high contrast, else what the caches remember.
    pub open spec fn known_insets(self, insets: InsetMap, id: WindowId) -> Option<ResolvedInsets> {
        if self.high_contrast {
            Some(
                ResolvedInsets {
                    insets: (0i32, 0i32, 0i32, 0i32),
                    source: InsetSource::Fresh,
                    generation: insets.generation,
                },
            )
        } else {
            remembered_insets(self.cache, insets, id)
        }
    }

    /// The pass with a request for the placement at an index.
    pub open spec fn with_entry(self, index: usize, resolved: ResolvedInsets) -> Pass {
        let placement = self.placements[index as int];
        Pass {
            entries: self.entries.push(
                defer_entry(
                    placement,
                    resolved,
                    self.high_contrast,
                    self.is_async(),
                    frame_known(self.cache, placement.window_id),
                    self.sentinel,
                ),
            ),
            ..self
        }
    }

    /// The placement at an index is left out because its window is maximized.
    pub open spec fn with_maximized(self, index: usize) -> Pass {
        let id = self.placements[index as int].window_id;
        Pass {
            cache: match self.cache {
                Some(cache) => Some(position_forgotten(cache, id)),
                None => None,
            },
            maximized: self.maximized.push(id),
            ..self
        }
    }

    /// The window of the placement at an index was probed.
    pub open spec fn probed(self, shared: Shared, index: usize, probe: WindowProbe) -> Pass {
        let placement = self.placements[index as int];
        let parked = shared.cloaks.placement.contains(placement.window_id);
        if probe is Unmanageable {
            self.probe_from(index + 1)
        } else if visible_tiled_maximized(placement, probe is Zoomed) {
            if parked {
                self.with_maximized(index).at(PassPhase::Recovering(index))
            } else {
                self.with_maximized(index).probe_from(index + 1)
            }
        } else if self.allow_retry && !parked && unchanged(self.cache, placement) {
            (Pass { skipped: (self.skipped + 1) as u32, ..self }).probe_from(index + 1)
        } else {
            match self.known_insets(shared.insets, placement.window_id) {
                Some(resolved) => self.with_entry(index, resolved).probe_from(index + 1),
                None => self.at(
                    PassPhase::Framing { index, generation: shared.insets.generation },
                ),
            }
        }
    }

    /// The bounds of the window of the placement at an index were given.
    pub open spec fn framed(self, index: usize, generation: u64, event: WindowEvent) -> Pass {
        let insets = match event {
            WindowEvent::Frame { frame, visible } => insets_or_none(
                queried_insets(frame, visible),
            ),
            _ => (0i32, 0i32, 0i32, 0i32),
        };
        self.with_entry(
            index,
            ResolvedInsets { insets, source: InsetSource::Fresh, generation },
        ).probe_from(index + 1)
    }

    /// What the measurements of this pass show; an animation frame takes none.
    pub open spec fn detection(self, suspects: SuspectMap) -> Detection {
        if self.is_async() {
            Detection::none()
        } else {
            detection_of(suspects, self.measurements, self.allow_retry)
        }
    }

    /// The suspicion that this pass leaves behind.
    pub open spec fn suspects_after(self, suspects: SuspectMap) -> SuspectMap {
        if self.is_async() {
            suspects
        } else {
            suspects_left(suspects, self.measurements, self.allow_retry)
        }
    }

    /// The whole pass is to be repeated.
    pub open spec fn retries(self, suspects: SuspectMap) -> bool {
        self.allow_retry && self.detection(suspects).unsettled()
    }

    /// The pass from its beginning, for the last time.
    pub open spec fn retried(self) -> Pass {
        Pass {
            allow_retry: false,
            entries: Seq::empty(),
            skipped: 0,
            maximized: Seq::empty(),
            batch: Batch::idle(),
            landed: Seq::empty(),
            measurements: Seq::empty(),
            phase: PassPhase::Contrast,
            ..self
        }
    }

    /// What the worker remembers after the pass.
    pub open spec fn cache_settled(self, cache: CacheMaps, shared: Shared) -> CacheMaps {
        let detection = self.detection(shared.suspects);
        let placed = placed_ids(self.placements);
        CacheMaps {
            positions: positions_noted(
                cache.positions.restrict(placed),
                self.placements,
                positioned_ids(self.entries, self.batch.failed),
            ),
            insets: published_locally(
                cache.insets,
                self.entries,
                detection.inset_artifact_windows,
                shared.insets.generation,
            ).remove_keys(detection.violating_windows).restrict(placed),
        }
    }

    /// The shared insets after the pass was judged.
    pub open spec fn insets_settled(self, shared: Shared) -> InsetMap {
        let detection = self.detection(shared.suspects);
        InsetMap {
            insets: if self.retries(shared.suspects) {
                shared.insets.insets.remove_keys(detection.inset_artifact_windows)
            } else {
                published_globally(
                    shared.insets.insets,
                    self.entries,
                    detection.inset_artifact_windows,
                    shared.insets.generation,
                ).remove_keys(detection.violating_windows)
            },
            ..shared.insets
        }
    }

    /// The pass was judged.
    pub open spec fn settled(self, shared: Shared) -> Pass {
        let detection = self.detection(shared.suspects);
        if self.retries(shared.suspects) {
            self.retried()
        } else {
            Pass {
                width_violations: detection.width_violations,
                height_violations: detection.height_violations,
                cache: match self.cache {
                    Some(cache) => Some(self.cache_settled(cache, shared)),
                    None => None,
                },
                phase: PassPhase::Syncing,
                ..self
            }
        }
    }

    /// No more was collected than there are placements, and for no other
    /// window; whatever is not visible goes off-screen; every measurement can
    /// be judged.
    pub open spec fn bounded(self) -> bool {
        &&& self.placements.len() <= u32::MAX
        &&& self.entries.len() <= self.placements.len()
        &&& forall|j: int|
            0 <= j < self.entries.len() ==> placed_ids(self.placements).contains(
                (#[trigger] self.entries[j]).window_id,
            )
        &&& forall|j: int|
            0 <= j < self.entries.len() && !((#[trigger] self.entries[j]).visibility is Visible)
                ==> self.entries[j].x == self.sentinel && self.entries[j].y == self.sentinel
                && self.entries[j].flags.no_size
        &&& self.batch.consistent(self.entries)
        &&& forall|i: int|
            0 <= i < self.measurements.len() ==> representable(
                #[trigger] self.measurements[i],
                self.allow_retry,
            )
    }

    /// What was collected fits, the indices of the phase lie within what they
    /// index, and only windows that were moved count as landed.
    pub open spec fn consistent(self) -> bool {
        &&& self.bounded()
        &&& match self.phase {
            PassPhase::Contrast => self.entries.len() == 0 && self.skipped == 0
                && self.untried(),
            PassPhase::Probing(i)
            | PassPhase::Recovering(i)
            | PassPhase::Returning(i)
            | PassPhase::Framing { index: i, .. } => i < self.placements.len()
                && self.entries.len() <= i && self.skipped <= i && self.untried(),
            PassPhase::Built => self.untried(),
            PassPhase::Revealing(j) => j < self.entries.len() && self.untried(),
            PassPhase::Positioning => !(self.batch.stage is Idle) && self.landed.len() == 0
                && self.unreported(),
            PassPhase::Landing(j) => j < self.entries.len() && !self.batch.failed.contains(
                self.entries[j as int].window_id,
            ) && self.landed_were_moved() && self.unreported(),
            PassPhase::Landed => self.landed_were_moved() && self.unreported(),
            PassPhase::Committing(j) => j < self.entries.len() && self.unreported(),
            PassPhase::Measuring(j) => j < self.entries.len() && !self.is_async()
                && self.unreported(),
            PassPhase::Flushing => !self.is_async() && self.unreported(),
            PassPhase::Settling => self.unreported(),
            PassPhase::Cloaking(i) => i < self.to_cloak.len() <= usize::MAX,
            PassPhase::Uncloaking(i) => i < self.to_uncloak.len() <= usize::MAX,
            PassPhase::Nudging => self.nudge.consistent() && self.nudge.targets == nudge_targets(
                self.entries,
                self.batch.failed,
            ),
            PassPhase::Syncing | PassPhase::Finished => true,
        }
    }

    /// No window has been moved yet.
    pub open spec fn untried(self) -> bool {
        self.batch.stage is Idle && self.landed.len() == 0 && self.unreported()
    }

    /// No violation has been found yet.
    pub open spec fn unreported(self) -> bool {
        self.width_violations.len() == 0 && self.height_violations.len() == 0
    }

    /// No window that refused to move counts as landed.
    pub open spec fn landed_were_moved(self) -> bool {
        forall|i: int|
            0 <= i < self.landed.len() ==> !self.batch.failed.contains(#[trigger] self.landed[i])
    }

    /// The request that the pass waits to have answered.
    pub open spec fn pending(self) -> WindowAction {
        match self.phase {
            PassPhase::Contrast => WindowAction::QueryHighContrast,
            PassPhase::Probing(i) => WindowAction::Probe {
                window_id: self.placements[i as int].window_id,
            },
            PassPhase::Recovering(i) => WindowAction::SetPosition {
                window_id: self.placements[i as int].window_id,
                x: self.placements[i as int].rect.x,
                y: self.placements[i as int].rect.y,
                w: 0,
                h: 0,
                flags: PositionFlags::move_only(self.is_async()),
            },
            PassPhase::Returning(i) => WindowAction::CommitCloak {
                window_id: self.placements[i as int].window_id,
            },
            PassPhase::Framing { index, .. } => WindowAction::QueryFrame {
                window_id: self.placements[index as int].window_id,
            },
            PassPhase::Revealing(j) => WindowAction::Reveal {
                window_id: self.entries[j as int].window_id,
            },
            PassPhase::Positioning => self.batch.pending(self.entries),
            PassPhase::Landing(j) => WindowAction::QueryRect {
                window_id: self.entries[j as int].window_id,
            },
            PassPhase::Committing(j) => WindowAction::CommitCloak {
                window_id: self.entries[j as int].window_id,
            },
            PassPhase::Flushing => WindowAction::Flush,
            PassPhase::Measuring(j) => WindowAction::QueryVisible {
                window_id: self.entries[j as int].window_id,
            },
            PassPhase::Cloaking(i) => WindowAction::CommitCloak {
                window_id: self.to_cloak[i as int],
            },
            PassPhase::Uncloaking(i) => WindowAction::CommitCloak {
                window_id: self.to_uncloak[i as int],
            },
            PassPhase::Nudging => self.nudge.pending(),
            PassPhase::Built
            | PassPhase::Landed
            | PassPhase::Settling
            | PassPhase::Syncing => WindowAction::Continue,
            PassPhase::Finished => WindowAction::Finish,
        }
    }

    /// The event answers the pending request, and what is computed from a
    /// rectangle that it brings can be represented.
    pub open spec fn admits(self, event: WindowEvent) -> bool {
        &&& answers(self.pending(), event)
        &&& match (self.phase, event) {
            (PassPhase::Framing { .. }, WindowEvent::Frame { frame, visible }) =>
                queried_well_sized(frame, visible),
            (PassPhase::Landing(j), WindowEvent::Bounds(bounds)) => landing_comparable(
                self.entries[j as int],
                bounds,
            ),
            (PassPhase::Measuring(j), WindowEvent::Bounds(Some(visible))) => {
                visible.well_sized() && representable(
                    measurement(self.entries[j as int], visible),
                    self.allow_retry,
                )
            },
            (PassPhase::Nudging, _) => self.nudge.admits(event),
            _ => true,
        }
    }

    /// The pass after the pending request was answered. `departed` is the
    /// order in which windows that left the layout are dealt with; it matters
    /// only when the cloaks are brought in line.
    pub open spec fn answered(
        self,
        shared: Shared,
        event: WindowEvent,
        departed: Seq<WindowId>,
    ) -> Pass {
        match self.phase {
            PassPhase::Contrast => (Pass {
                high_contrast: event->HighContrast_0,
                ..self
            }).probe_from(0),
            PassPhase::Probing(i) => self.probed(shared, i, event->Probed_0),
            PassPhase::Recovering(i) => if event is Moved && shared.cloaks.placement.contains(
                self.placements[i as int].window_id,
            ) {
                self.at(PassPhase::Returning(i))
            } else {
                self.probe_from(i + 1)
            },
            PassPhase::Returning(i) => self.probe_from(i + 1),
            PassPhase::Framing { index, generation } => self.framed(index, generation, event),
            PassPhase::Built => self.reveal_from(shared.cloaks, 0),
            PassPhase::Revealing(j) => self.reveal_from(shared.cloaks, j + 1),
            PassPhase::Positioning => if self.batch.stage is Finished {
                self.land_from(shared.cloaks, 0)
            } else {
                Pass { batch: self.batch.answered(self.entries, event), ..self }
            },
            PassPhase::Landing(j) => {
                let landed = if landed_at(self.entries[j as int], event->Bounds_0) {
                    self.landed.push(self.entries[j as int].window_id)
                } else {
                    self.landed
                };
                (Pass { landed, ..self }).land_from(shared.cloaks, j + 1)
            },
            PassPhase::Landed => self.commit_from(0),
            PassPhase::Committing(j) => self.commit_from(j + 1),
            PassPhase::Flushing => self.measure_from(0),
            PassPhase::Measuring(j) => {
                let measurements = match event->Bounds_0 {
                    Some(visible) => self.measurements.push(
                        measurement(self.entries[j as int], visible),
                    ),
                    None => self.measurements,
                };
                (Pass { measurements, ..self }).measure_from(j + 1)
            },
            PassPhase::Settling => self.settled(shared),
            PassPhase::Syncing => (Pass {
                to_cloak: newly_parked(self.entries, self.batch.failed, shared.cloaks.placement),
                to_uncloak: departed,
                ..self
            }).cloak_from(0),
            PassPhase::Cloaking(i) => self.cloak_from(i + 1),
            PassPhase::Uncloaking(i) => self.uncloak_from(i + 1),
            PassPhase::Nudging => if self.nudge.stage is Finished {
                self.at(PassPhase::Finished)
            } else {
                Pass { nudge: self.nudge.answered(shared.cloaks, event), ..self }
            },
            PassPhase::Finished => self,
        }
    }

    /// The shared state after the pending request was answered.
    pub open spec fn shared_after(self, shared: Shared, event: WindowEvent) -> Shared {
        match self.phase {
            PassPhase::Recovering(i) => if event is Moved {
                Shared {
                    cloaks: shared.cloaks.unpark(self.placements[i as int].window_id),
                    ..shared
                }
            } else {
                shared
            },
            PassPhase::Landed => Shared {
                cloaks: shared.cloaks.unpark_all(self.landed.to_set()),
                ..shared
            },
            PassPhase::Settling => Shared {
                suspects: self.suspects_after(shared.suspects),
                insets: self.insets_settled(shared),
                ..shared
            },
            PassPhase::Syncing => Shared {
                cloaks: synced(
                    shared.cloaks,
                    self.entries,
                    self.placements,
                    self.batch.failed,
                ),
                ..shared
            },
            PassPhase::Nudging => Shared {
                cloaks: self.nudge.cloaks_after(shared.cloaks, event),
                ..shared
            },
            _ => shared,
        }
    }
}

} // verus!
