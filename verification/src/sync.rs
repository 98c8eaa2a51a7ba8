//! Bringing the cloaks in line with a layout that has just been applied.

use std::collections::HashSet;
use vstd::prelude::*;

use crate::cloak::CloakRegistry;
use crate::cloak::CloakSets;
use crate::entries::DeferEntry;
use crate::sets::lists;
use crate::sets::placed_ids;
use crate::sets::placement_ids;
use crate::sets::prune_ids;
use crate::types::Visibility;
use crate::types::WindowId;
use crate::types::WindowPlacement;

verus! {

broadcast use vstd::std_specs::hash::group_hash_axioms;

/// The entry has just been moved off-screen.
pub open spec fn moved_off(entry: DeferEntry, failed: Set<WindowId>) -> bool {
    !(entry.visibility is Visible) && !failed.contains(entry.window_id)
}

/// The windows that were moved off-screen and are not parked yet, in order,
/// each once.
pub open spec fn newly_parked(
    entries: Seq<DeferEntry>,
    failed: Set<WindowId>,
    parked: Set<WindowId>,
) -> Seq<WindowId>
    decreases entries.len(),
{
    if entries.len() == 0 {
        Seq::empty()
    } else {
        let earlier = newly_parked(entries.drop_last(), failed, parked);
        let id = entries.last().window_id;
        if moved_off(entries.last(), failed) && !parked.contains(id) && !earlier.contains(id) {
            earlier.push(id)
        } else {
            earlier
        }
    }
}

/// What placement hides once the windows moved off-screen are parked too.
pub open spec fn parked_with(
    cloaks: CloakSets,
    entries: Seq<DeferEntry>,
    failed: Set<WindowId>,
) -> Set<WindowId> {
    cloaks.placement.union(newly_parked(entries, failed, cloaks.placement).to_set())
}

/// The cloaks after a layout was applied: windows moved off-screen are parked,
/// and windows that left the layout are given up.
pub open spec fn synced(
    cloaks: CloakSets,
    entries: Seq<DeferEntry>,
    placements: Seq<WindowPlacement>,
    failed: Set<WindowId>,
) -> CloakSets {
    CloakSets {
        placement: parked_with(cloaks, entries, failed).intersect(placed_ids(placements)),
        ..cloaks
    }
}

/// The windows that placement gives up because they left the layout.
pub open spec fn departed(
    cloaks: CloakSets,
    entries: Seq<DeferEntry>,
    placements: Seq<WindowPlacement>,
    failed: Set<WindowId>,
) -> Set<WindowId> {
    parked_with(cloaks, entries, failed).difference(placed_ids(placements))
}

/// Park the windows that were moved off-screen and give up those that left the
/// layout. The cloak of each window in the two lists is then to be committed
/// with `apply_cloak_state`: first those newly parked, in order, then those
/// given up, in no particular order.
pub fn sync_cloak_state(
    entries: &Vec<DeferEntry>,
    placements: &Vec<WindowPlacement>,
    failed_window_ids: &HashSet<WindowId>,
    cloaks: &mut CloakRegistry,
) -> (commits: (Vec<WindowId>, Vec<WindowId>))
    ensures
        final(cloaks)@ == synced(old(cloaks)@, entries@, placements@, failed_window_ids@),
        commits.0@ == newly_parked(entries@, failed_window_ids@, old(cloaks)@.placement),
        lists(
            commits.1@,
            departed(old(cloaks)@, entries@, placements@, failed_window_ids@),
        ),
{
    let ghost before = cloaks@;
    let ghost failed = failed_window_ids@;
    let mut to_cloak: Vec<WindowId> = Vec::new();
    for i in 0..entries.len()
        invariant
            failed == failed_window_ids@,
            to_cloak@ == newly_parked(entries@.take(i as int), failed, before.placement),
            cloaks@ == (CloakSets {
                placement: before.placement.union(to_cloak@.to_set()),
                ..before
            }),
    {
        let entry = entries[i];
        let ghost earlier = to_cloak@;
        proof {
            assert(entries@.take(i + 1).drop_last() =~= entries@.take(i as int));
            assert(earlier.to_set().contains(entry.window_id) <==> earlier.contains(
                entry.window_id,
            ));
        }
        if !failed_window_ids.contains(&entry.window_id) && !matches!(
            entry.visibility,
            Visibility::Visible
        ) {
            if cloaks.placement.insert(entry.window_id) {
                to_cloak.push(entry.window_id);
                proof {
                    broadcast use vstd::seq_lib::lemma_seq_contains_after_push;
                    assert(to_cloak@.to_set() =~= earlier.to_set().insert(entry.window_id));
                }
            }
        }
    }
    assert(entries@.take(entries@.len() as int) =~= entries@);
    let current_ids = placement_ids(placements);
    let to_uncloak = prune_ids(&mut cloaks.placement, &current_ids);
    (to_cloak, to_uncloak)
}

/// Every member of `newly_parked` was moved off-screen and was not parked, and
/// every window moved off-screen is in it or was parked.
pub proof fn lemma_newly_parked(entries: Seq<DeferEntry>, failed: Set<WindowId>, parked: Set<WindowId>)
    ensures
        newly_parked(entries, failed, parked).no_duplicates(),
        forall|id: WindowId| #[trigger]
            newly_parked(entries, failed, parked).contains(id) <==> !parked.contains(id) && exists|
                i: int,
            |
                0 <= i < entries.len() && moved_off(#[trigger] entries[i], failed)
                    && entries[i].window_id == id,
    decreases entries.len(),
{
    broadcast use vstd::seq_lib::lemma_seq_contains_after_push;

    if entries.len() > 0 {
        let rest = entries.drop_last();
        lemma_newly_parked(rest, failed, parked);
        let earlier = newly_parked(rest, failed, parked);
        let last = entries.last();
        let all = newly_parked(entries, failed, parked);
        assert forall|id: WindowId| #[trigger] all.contains(id) <==> !parked.contains(id) && exists|
            i: int,
        |
            0 <= i < entries.len() && moved_off(#[trigger] entries[i], failed)
                && entries[i].window_id == id by {
            if all.contains(id) {
                if earlier.contains(id) {
                    let i = choose|i: int|
                        0 <= i < rest.len() && moved_off(#[trigger] rest[i], failed)
                            && rest[i].window_id == id;
                    assert(entries[i] == rest[i]);
                } else {
                    assert(entries[entries.len() - 1].window_id == id);
                }
            }
            if !parked.contains(id) && exists|i: int|
                0 <= i < entries.len() && moved_off(#[trigger] entries[i], failed)
                    && entries[i].window_id == id {
                let i = choose|i: int|
                    0 <= i < entries.len() && moved_off(#[trigger] entries[i], failed)
                        && entries[i].window_id == id;
                if i < rest.len() {
                    assert(rest[i] == entries[i]);
                    assert(earlier.contains(id));
                } else {
                    assert(last.window_id == id);
                }
            }
        }
    }
}

/// After a layout was applied, placement hides exactly the windows of the
/// layout that it hid before or that were just moved off-screen. The ghost
/// animation and direct requests keep what they hide.
pub proof fn law_sync_parks_what_the_layout_hides(
    cloaks: CloakSets,
    entries: Seq<DeferEntry>,
    placements: Seq<WindowPlacement>,
    failed: Set<WindowId>,
    id: WindowId,
)
    ensures
        ({
            let after = synced(cloaks, entries, placements, failed);
            &&& after.placement.contains(id) <==> placed_ids(placements).contains(id) && (
            cloaks.placement.contains(id) || exists|i: int|
                0 <= i < entries.len() && moved_off(#[trigger] entries[i], failed)
                    && entries[i].window_id == id)
            &&& after.ghosted == cloaks.ghosted
            &&& after.direct == cloaks.direct
        }),
{
    lemma_newly_parked(entries, failed, cloaks.placement);
    let newly = newly_parked(entries, failed, cloaks.placement);
}

/// Applying the same layout again changes no cloak.
pub proof fn law_sync_is_idempotent(
    cloaks: CloakSets,
    entries: Seq<DeferEntry>,
    placements: Seq<WindowPlacement>,
    failed: Set<WindowId>,
)
    ensures
        synced(synced(cloaks, entries, placements, failed), entries, placements, failed) == synced(
            cloaks,
            entries,
            placements,
            failed,
        ),
{
    let once = synced(cloaks, entries, placements, failed);
    let twice = synced(once, entries, placements, failed);
    assert forall|id: WindowId| twice.placement.contains(id) == once.placement.contains(id) by {
        law_sync_parks_what_the_layout_hides(cloaks, entries, placements, failed, id);
        law_sync_parks_what_the_layout_hides(once, entries, placements, failed, id);
    }
}

} // verus!
