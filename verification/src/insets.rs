//! Remembered border insets and remembered placements.
//!
//! Insets are resolved when a batch is built but published only after the
//! batch has landed. Every resolved tuple carries the generation of the global
//! cache it was resolved under, so that one measured before an invalidation is
//! never published after it.

use std::collections::HashMap;
use std::collections::HashSet;
use vstd::prelude::*;

use crate::entries::DeferEntry;
use crate::geometry::Insets;
use crate::geometry::Rect;
use crate::sets::remove_keys;
use crate::types::Visibility;
use crate::types::WindowId;

verus! {

broadcast use vstd::std_specs::hash::group_hash_axioms;

/// Where a resolved inset tuple came from.
#[derive(Clone, Copy, Debug, PartialEq, Eq, Structural)]
pub enum InsetSource {
    LocalCache,
    GlobalCache,
    Fresh,
}

/// Border insets resolved for one placement, with their provenance and the
/// global cache generation they were resolved under.
#[derive(Clone, Copy, Debug, PartialEq, Eq)]
pub struct ResolvedInsets {
    pub insets: Insets,
    pub source: InsetSource,
    pub generation: u64,
}

/// Which caches a resolved tuple is written to once its batch has landed.
#[derive(Clone, Copy, Debug, PartialEq, Eq, Structural)]
pub struct InsetFinalization {
    pub local: bool,
    pub global: bool,
}

/// Last-applied placements and border insets of one animation worker.
///
/// The positions let a frame skip windows that have not moved. The insets
/// outlive them: they are a property of the window, and a window returning
/// from off-screen may report none.
#[derive(Debug)]
pub struct PlacementCache {
    pub positions: HashMap<WindowId, (Rect, Visibility)>,
    pub insets: HashMap<WindowId, Insets>,
}

/// The mathematical content of a `PlacementCache`.
#[verifier::ext_equal]
pub struct CacheMaps {
    pub positions: Map<WindowId, (Rect, Visibility)>,
    pub insets: Map<WindowId, Insets>,
}

impl View for PlacementCache {
    type V = CacheMaps;

    open spec fn view(&self) -> CacheMaps {
        CacheMaps { positions: self.positions@, insets: self.insets@ }
    }
}

impl CacheMaps {
    /// Nothing remembered.
    pub open spec fn none() -> CacheMaps {
        CacheMaps { positions: Map::empty(), insets: Map::empty() }
    }
}

impl PlacementCache {
    pub fn new() -> (cache: PlacementCache)
        ensures
            cache@ == CacheMaps::none(),
    {
        PlacementCache { positions: HashMap::new(), insets: HashMap::new() }
    }

    /// Forget every position. The insets stay: they do not depend on where a
    /// window is.
    pub fn clear(&mut self)
        ensures
            final(self)@ == (CacheMaps { positions: Map::empty(), ..old(self)@ }),
    {
        self.positions.clear();
    }

    /// Forget every inset. Call when the system theme or the frame metrics
    /// change.
    pub fn clear_insets(&mut self)
        ensures
            final(self)@ == (CacheMaps { insets: Map::empty(), ..old(self)@ }),
    {
        self.insets.clear();
    }
}

impl Default for PlacementCache {
    fn default() -> (cache: PlacementCache)
        ensures
            cache@ == CacheMaps::none(),
    {
        PlacementCache::new()
    }
}

/// Border insets shared by every placement pass, with the generation that
/// counts its invalidations.
#[derive(Debug)]
pub struct InsetCache {
    pub insets: HashMap<WindowId, Insets>,
    pub generation: u64,
}

/// The mathematical content of an `InsetCache`.
#[verifier::ext_equal]
pub struct InsetMap {
    pub insets: Map<WindowId, Insets>,
    pub generation: u64,
}

impl View for InsetCache {
    type V = InsetMap;

    open spec fn view(&self) -> InsetMap {
        InsetMap { insets: self.insets@, generation: self.generation }
    }
}

impl InsetMap {
    /// Nothing remembered, nothing invalidated yet.
    pub open spec fn initial() -> InsetMap {
        InsetMap { insets: Map::empty(), generation: 0 }
    }

    /// The generation after one more invalidation; it wraps around.
    pub open spec fn next_generation(self) -> u64 {
        if self.generation == u64::MAX {
            0
        } else {
            (self.generation + 1) as u64
        }
    }
}

impl InsetCache {
    pub fn new() -> (cache: InsetCache)
        ensures
            cache@ == InsetMap::initial(),
    {
        InsetCache { insets: HashMap::new(), generation: 0 }
    }
}

impl Default for InsetCache {
    fn default() -> (cache: InsetCache)
        ensures
            cache@ == InsetMap::initial(),
    {
        InsetCache::new()
    }
}

/// The generation that tuples resolved now belong to.
pub fn inset_cache_generation(global: &InsetCache) -> (generation: u64)
    ensures
        generation == global@.generation,
{
    global.generation
}

/// Forget the shared insets and start a new generation. Must be called when
/// the system theme or the frame metrics change.
pub fn clear_inset_cache(global: &mut InsetCache)
    ensures
        final(global)@.insets == Map::<WindowId, Insets>::empty(),
        final(global)@.generation == old(global)@.next_generation(),
{
    global.insets.clear();
    global.generation = global.generation.wrapping_add(1);
}

/// The remembered insets of a window: the worker's own first, then the shared
/// ones.
pub open spec fn remembered_insets(
    local: Option<CacheMaps>,
    global: InsetMap,
    id: WindowId,
) -> Option<ResolvedInsets> {
    if local is Some && local->0.insets.contains_key(id) {
        Some(
            ResolvedInsets {
                insets: local->0.insets[id],
                source: InsetSource::LocalCache,
                generation: global.generation,
            },
        )
    } else if global.insets.contains_key(id) {
        Some(
            ResolvedInsets {
                insets: global.insets[id],
                source: InsetSource::GlobalCache,
                generation: global.generation,
            },
        )
    } else {
        None
    }
}

/// The content of an optional cache.
pub open spec fn cache_maps(cache: Option<PlacementCache>) -> Option<CacheMaps> {
    match cache {
        Some(cache) => Some(cache@),
        None => None,
    }
}

/// The remembered insets of a window, if any; otherwise they must be asked of
/// the window system.
pub fn cached_border_insets(
    window_id: WindowId,
    local_cache: &Option<PlacementCache>,
    global: &InsetCache,
) -> (resolved: Option<ResolvedInsets>)
    ensures
        resolved == remembered_insets(cache_maps(*local_cache), global@, window_id),
{
    let generation: u64 = inset_cache_generation(global);
    if let Some(cache) = local_cache {
        if let Some(cached) = cache.insets.get(&window_id) {
            return Some(
                ResolvedInsets { insets: *cached, source: InsetSource::LocalCache, generation },
            );
        }
    }
    if let Some(cached) = global.insets.get(&window_id) {
        return Some(
            ResolvedInsets { insets: *cached, source: InsetSource::GlobalCache, generation },
        );
    }
    None
}

/// Which caches a tuple is published to: none when it is empty, blamed for an
/// artifact, or from another generation; otherwise those it did not come from
/// and that are closer to the worker.
pub open spec fn finalization(
    source: InsetSource,
    insets: Insets,
    is_artifact: bool,
    generation_matches: bool,
) -> InsetFinalization {
    let publish = insets != (0i32, 0i32, 0i32, 0i32) && !is_artifact && generation_matches;
    InsetFinalization {
        local: publish && source != InsetSource::LocalCache,
        global: publish && source == InsetSource::Fresh,
    }
}

/// Which caches a tuple is published to.
pub fn inset_finalization(
    source: InsetSource,
    insets: Insets,
    is_artifact: bool,
    generation_matches: bool,
) -> (r: InsetFinalization)
    ensures
        r == finalization(source, insets, is_artifact, generation_matches),
{
    let empty = insets.0 == 0 && insets.1 == 0 && insets.2 == 0 && insets.3 == 0;
    if empty || is_artifact || !generation_matches {
        return InsetFinalization { local: false, global: false };
    }
    match source {
        InsetSource::LocalCache => InsetFinalization { local: false, global: false },
        InsetSource::GlobalCache => InsetFinalization { local: true, global: false },
        InsetSource::Fresh => InsetFinalization { local: true, global: true },
    }
}

/// Which caches an entry's tuple is published to.
pub open spec fn entry_finalization(
    entry: DeferEntry,
    artifacts: Set<WindowId>,
    generation: u64,
) -> InsetFinalization {
    finalization(
        entry.inset_source,
        entry.insets,
        artifacts.contains(entry.window_id),
        entry.inset_generation == generation,
    )
}

/// The worker's insets after the tuples of a batch are published in order.
pub open spec fn published_locally(
    insets: Map<WindowId, Insets>,
    entries: Seq<DeferEntry>,
    artifacts: Set<WindowId>,
    generation: u64,
) -> Map<WindowId, Insets>
    decreases entries.len(),
{
    if entries.len() == 0 {
        insets
    } else {
        let earlier = published_locally(insets, entries.drop_last(), artifacts, generation);
        if entry_finalization(entries.last(), artifacts, generation).local {
            earlier.insert(entries.last().window_id, entries.last().insets)
        } else {
            earlier
        }
    }
}

/// The shared insets after the tuples of a batch are published in order.
pub open spec fn published_globally(
    insets: Map<WindowId, Insets>,
    entries: Seq<DeferEntry>,
    artifacts: Set<WindowId>,
    generation: u64,
) -> Map<WindowId, Insets>
    decreases entries.len(),
{
    if entries.len() == 0 {
        insets
    } else {
        let earlier = published_globally(insets, entries.drop_last(), artifacts, generation);
        if entry_finalization(entries.last(), artifacts, generation).global {
            earlier.insert(entries.last().window_id, entries.last().insets)
        } else {
            earlier
        }
    }
}

/// Publish the tuples of a landed batch.
pub fn finalize_cached_border_insets(
    entries: &[DeferEntry],
    inset_artifact_windows: &HashSet<WindowId>,
    cache: Option<&mut PlacementCache>,
    global: &mut InsetCache,
)
    ensures
        cache matches Some(cache) ==> final(cache)@ == (CacheMaps {
            insets: published_locally(
                cache@.insets,
                entries@,
                inset_artifact_windows@,
                old(global)@.generation,
            ),
            ..cache@
        }),
        final(global)@ == (InsetMap {
            insets: published_globally(
                old(global)@.insets,
                entries@,
                inset_artifact_windows@,
                old(global)@.generation,
            ),
            ..old(global)@
        }),
{
    let generation: u64 = inset_cache_generation(global);
    assert(entries@.take(entries@.len() as int) =~= entries@);
    if let Some(cache) = cache {
        let ghost before = cache@;
        for i in 0..entries.len()
            invariant
                cache@ == (CacheMaps {
                    insets: published_locally(
                        before.insets,
                        entries@.take(i as int),
                        inset_artifact_windows@,
                        generation,
                    ),
                    ..before
                }),
        {
            let entry = entries[i];
            assert(entries@.take(i + 1).drop_last() =~= entries@.take(i as int));
            if inset_finalization(
                entry.inset_source,
                entry.insets,
                inset_artifact_windows.contains(&entry.window_id),
                entry.inset_generation == generation,
            ).local {
                cache.insets.insert(entry.window_id, entry.insets);
            }
        }
    }
    let ghost before = global@;
    for i in 0..entries.len()
        invariant
            global@ == (InsetMap {
                insets: published_globally(
                    before.insets,
                    entries@.take(i as int),
                    inset_artifact_windows@,
                    generation,
                ),
                ..before
            }),
    {
        let entry = entries[i];
        assert(entries@.take(i + 1).drop_last() =~= entries@.take(i as int));
        if inset_finalization(
            entry.inset_source,
            entry.insets,
            inset_artifact_windows.contains(&entry.window_id),
            entry.inset_generation == generation,
        ).global {
            global.insets.insert(entry.window_id, entry.insets);
        }
    }
}

/// Forget the insets of some windows, in both caches.
pub fn evict_cached_border_insets(
    window_ids: &HashSet<WindowId>,
    cache: Option<&mut PlacementCache>,
    global: &mut InsetCache,
)
    ensures
        cache matches Some(cache) ==> final(cache)@ == (CacheMaps {
            insets: cache@.insets.remove_keys(window_ids@),
            ..cache@
        }),
        final(global)@ == (InsetMap {
            insets: old(global)@.insets.remove_keys(window_ids@),
            ..old(global)@
        }),
{
    if let Some(cache) = cache {
        remove_keys(&mut cache.insets, window_ids);
    }
    remove_keys(&mut global.insets, window_ids);
}

/// Every invalidation changes the generation.
pub proof fn law_invalidation_changes_generation(global: InsetMap)
    ensures
        global.next_generation() != global.generation,
{
}

/// A batch none of whose tuples belongs to the current generation publishes
/// nothing: tuples resolved before an invalidation cannot repopulate a cache
/// that the invalidation emptied.
pub proof fn law_stale_generation_publishes_nothing(
    insets: Map<WindowId, Insets>,
    entries: Seq<DeferEntry>,
    artifacts: Set<WindowId>,
    generation: u64,
)
    requires
        forall|i: int|
            0 <= i < entries.len() ==> (#[trigger] entries[i]).inset_generation != generation,
    ensures
        published_locally(insets, entries, artifacts, generation) == insets,
        published_globally(insets, entries, artifacts, generation) == insets,
    decreases entries.len(),
{
    if entries.len() > 0 {
        let rest = entries.drop_last();
        assert forall|i: int| 0 <= i < rest.len() implies (#[trigger] rest[i]).inset_generation
            != generation by {
            assert(rest[i] == entries[i]);
        }
        law_stale_generation_publishes_nothing(insets, rest, artifacts, generation);
    }
}

/// A tuple that came out of a cache never reaches the shared cache: only a
/// fresh measurement can.
pub proof fn law_only_fresh_insets_are_shared(
    insets: Map<WindowId, Insets>,
    entries: Seq<DeferEntry>,
    artifacts: Set<WindowId>,
    generation: u64,
    id: WindowId,
)
    requires
        forall|i: int|
            0 <= i < entries.len() && (#[trigger] entries[i]).window_id == id
                ==> entries[i].inset_source != InsetSource::Fresh,
    ensures
        published_globally(insets, entries, artifacts, generation).contains_key(id)
            == insets.contains_key(id),
        insets.contains_key(id) ==> published_globally(insets, entries, artifacts, generation)[id]
            == insets[id],
    decreases entries.len(),
{
    if entries.len() > 0 {
        let rest = entries.drop_last();
        assert forall|i: int| 0 <= i < rest.len() && (#[trigger] rest[i]).window_id == id implies
            rest[i].inset_source != InsetSource::Fresh by {
            assert(rest[i] == entries[i]);
        }
        law_only_fresh_insets_are_shared(insets, rest, artifacts, generation, id);
    }
}

/// Insets blamed for an artifact, and empty ones, are never published.
pub proof fn law_unusable_insets_are_not_published(
    source: InsetSource,
    insets: Insets,
    generation_matches: bool,
)
    ensures
        finalization(source, insets, true, generation_matches) == (InsetFinalization {
            local: false,
            global: false,
        }),
        finalization(source, (0i32, 0i32, 0i32, 0i32), false, generation_matches) == (
        InsetFinalization { local: false, global: false }),
{
}

/// Nothing of the four sides is covered by the border.
pub open spec fn no_border(insets: Insets) -> bool {
    insets.0 == 0 && insets.1 == 0 && insets.2 == 0 && insets.3 == 0
}

/// After a batch the shared insets of a window are those of its last request
/// whose insets were measured for it, are not all zero and belong to the
/// current generation, which is at `j`, if they are not blamed for an artifact.
/// Without such a request they are what they were.
pub proof fn law_shared_insets_are_the_last_measured(
    insets: Map<WindowId, Insets>,
    entries: Seq<DeferEntry>,
    artifacts: Set<WindowId>,
    generation: u64,
    id: WindowId,
    j: int,
)
    requires
        -1 <= j < entries.len(),
        forall|k: int|
            j < k < entries.len() ==> !((#[trigger] entries[k]).window_id == id && entries[k].inset_source is Fresh
                && !no_border(entries[k].insets) && entries[k].inset_generation == generation),
        j >= 0 ==> entries[j].window_id == id && entries[j].inset_source is Fresh && !no_border(
            entries[j].insets,
        ) && entries[j].inset_generation == generation,
    ensures
        ({
            let after = published_globally(insets, entries, artifacts, generation);
            if j >= 0 && !artifacts.contains(id) {
                after.contains_key(id) && after[id] == entries[j].insets
            } else {
                after.contains_key(id) == insets.contains_key(id) && (insets.contains_key(id)
                    ==> after[id] == insets[id])
            }
        }),
    decreases entries.len(),
{
    if entries.len() > 0 {
        let rest = entries.drop_last();
        let n = entries.len() - 1;
        assert(entries[n] == entries.last());
        if j < n {
            assert forall|k: int| j < k < rest.len() implies !((#[trigger] rest[k]).window_id == id
                && rest[k].inset_source is Fresh && !no_border(rest[k].insets) && rest[k].inset_generation
                == generation) by {
                assert(rest[k] == entries[k]);
            }
            law_shared_insets_are_the_last_measured(
                insets,
                rest,
                artifacts,
                generation,
                id,
                j,
            );
        } else if artifacts.contains(id) {
            lemma_published_globally_without_artifacts(
                insets,
                entries,
                artifacts,
                generation,
                id,
            );
        }
    }
}

/// Insets blamed for an artifact are not published.
proof fn lemma_published_globally_without_artifacts(
    insets: Map<WindowId, Insets>,
    entries: Seq<DeferEntry>,
    artifacts: Set<WindowId>,
    generation: u64,
    id: WindowId,
)
    requires
        artifacts.contains(id),
    ensures
        published_globally(insets, entries, artifacts, generation).contains_key(id)
            == insets.contains_key(id),
        insets.contains_key(id) ==> published_globally(insets, entries, artifacts, generation)[id]
            == insets[id],
    decreases entries.len(),
{
    if entries.len() > 0 {
        lemma_published_globally_without_artifacts(
            insets,
            entries.drop_last(),
            artifacts,
            generation,
            id,
        );
    }
}

/// After a batch the worker's insets of a window are those of its last request
/// whose insets the worker did not have, are not all zero and belong to the
/// current generation, which is at `j`, if they are not blamed for an artifact.
/// Without such a request they are what they were.
pub proof fn law_the_workers_insets_are_the_last_resolved(
    insets: Map<WindowId, Insets>,
    entries: Seq<DeferEntry>,
    artifacts: Set<WindowId>,
    generation: u64,
    id: WindowId,
    j: int,
)
    requires
        -1 <= j < entries.len(),
        forall|k: int|
            j < k < entries.len() ==> !((#[trigger] entries[k]).window_id == id && !(entries[k].inset_source is LocalCache)
                && !no_border(entries[k].insets) && entries[k].inset_generation == generation),
        j >= 0 ==> entries[j].window_id == id && !(entries[j].inset_source is LocalCache) && !no_border(
            entries[j].insets,
        ) && entries[j].inset_generation == generation,
    ensures
        ({
            let after = published_locally(insets, entries, artifacts, generation);
            if j >= 0 && !artifacts.contains(id) {
                after.contains_key(id) && after[id] == entries[j].insets
            } else {
                after.contains_key(id) == insets.contains_key(id) && (insets.contains_key(id)
                    ==> after[id] == insets[id])
            }
        }),
    decreases entries.len(),
{
    if entries.len() > 0 {
        let rest = entries.drop_last();
        let n = entries.len() - 1;
        assert(entries[n] == entries.last());
        if j < n {
            assert forall|k: int| j < k < rest.len() implies !((#[trigger] rest[k]).window_id == id
                && !(rest[k].inset_source is LocalCache) && !no_border(rest[k].insets) && rest[k].inset_generation
                == generation) by {
                assert(rest[k] == entries[k]);
            }
            law_the_workers_insets_are_the_last_resolved(
                insets,
                rest,
                artifacts,
                generation,
                id,
                j,
            );
        } else if artifacts.contains(id) {
            lemma_published_locally_without_artifacts(
                insets,
                entries,
                artifacts,
                generation,
                id,
            );
        }
    }
}

/// Insets blamed for an artifact are not published.
proof fn lemma_published_locally_without_artifacts(
    insets: Map<WindowId, Insets>,
    entries: Seq<DeferEntry>,
    artifacts: Set<WindowId>,
    generation: u64,
    id: WindowId,
)
    requires
        artifacts.contains(id),
    ensures
        published_locally(insets, entries, artifacts, generation).contains_key(id)
            == insets.contains_key(id),
        insets.contains_key(id) ==> published_locally(insets, entries, artifacts, generation)[id]
            == insets[id],
    decreases entries.len(),
{
    if entries.len() > 0 {
        lemma_published_locally_without_artifacts(
            insets,
            entries.drop_last(),
            artifacts,
            generation,
            id,
        );
    }
}

/// A resolved tuple is written to the worker's cache if it is usable and did
/// not come from there, and to the shared cache if it is usable and was just
/// measured. It is usable if some side has a border, it is not blamed for an
/// artifact, and it belongs to the current generation.
pub proof fn law_usable_insets_are_written_closer(
    source: InsetSource,
    insets: Insets,
    is_artifact: bool,
    generation_matches: bool,
)
    ensures
        ({
            let written = finalization(source, insets, is_artifact, generation_matches);
            let usable = (insets.0 != 0 || insets.1 != 0 || insets.2 != 0 || insets.3 != 0)
                && !is_artifact && generation_matches;
            &&& written.local <==> usable && !(source is LocalCache)
            &&& written.global <==> usable && source is Fresh
            &&& written.global ==> written.local
        }),
{
}

/// The insets remembered of a window are the worker's if it has any, else the
/// shared ones, and none if neither has; they belong to the current generation.
pub proof fn law_the_workers_insets_come_first(
    local: Option<CacheMaps>,
    global: InsetMap,
    id: WindowId,
)
    ensures
        ({
            let found = remembered_insets(local, global, id);
            let own = local is Some && local->0.insets.contains_key(id);
            &&& found is Some <==> own || global.insets.contains_key(id)
            &&& found is Some ==> found->0.generation == global.generation
            &&& own ==> found->0.insets == local->0.insets[id] && found->0.source is LocalCache
            &&& !own && global.insets.contains_key(id) ==> found->0.insets == global.insets[id]
                && found->0.source is GlobalCache
        }),
{
}

/// Generations count up by one, and begin again at zero when they run out. New
/// caches are empty.
pub proof fn law_generations_count_up(global: InsetMap)
    ensures
        global.generation < u64::MAX ==> global.next_generation() == global.generation + 1,
        global.generation == u64::MAX ==> global.next_generation() == 0,
        InsetMap::initial().generation == 0,
        InsetMap::initial().insets == Map::<WindowId, Insets>::empty(),
        CacheMaps::none().insets == Map::<WindowId, Insets>::empty(),
        CacheMaps::none().positions == Map::<WindowId, (Rect, Visibility)>::empty(),
{
}

} // verus!
