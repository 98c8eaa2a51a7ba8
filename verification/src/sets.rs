//! Operations on sets and maps keyed by window, and the sequence vocabulary
//! that the contracts of the placement modules share.

use std::collections::HashMap;
use std::collections::HashSet;
use vstd::prelude::*;
use vstd::std_specs::iter::IteratorSpec;

use crate::types::WindowId;
use crate::types::WindowPlacement;

verus! {

broadcast use vstd::std_specs::hash::group_hash_axioms;

/// `order` lists the members of `set`, each once.
pub open spec fn lists(order: Seq<WindowId>, set: Set<WindowId>) -> bool {
    order.no_duplicates() && order.to_set() == set
}

/// The windows that a layout places.
pub open spec fn placed_ids(placements: Seq<WindowPlacement>) -> Set<WindowId> {
    Set::new(|id: WindowId| exists|i: int| 0 <= i < placements.len() && (#[trigger] placements[i]).window_id == id)
}

/// The first index from `from` on whose item satisfies `wanted`, or the length
/// when there is none.
pub open spec fn first_from<A>(items: Seq<A>, wanted: spec_fn(A) -> bool, from: int) -> int
    decreases items.len() - from,
{
    if from >= items.len() {
        items.len() as int
    } else if wanted(items[from]) {
        from
    } else {
        first_from(items, wanted, from + 1)
    }
}

/// `first_from` skips exactly the items that are not wanted.
pub proof fn lemma_first_from<A>(items: Seq<A>, wanted: spec_fn(A) -> bool, from: int)
    requires
        0 <= from <= items.len(),
    ensures
        from <= first_from(items, wanted, from) <= items.len(),
        first_from(items, wanted, from) < items.len() ==> wanted(
            items[first_from(items, wanted, from)],
        ),
        forall|i: int| from <= i < first_from(items, wanted, from) ==> !wanted(#[trigger] items[i]),
    decreases items.len() - from,
{
    if from < items.len() && !wanted(items[from]) {
        lemma_first_from(items, wanted, from + 1);
    }
}

/// The members of a set, in the order in which it happens to be walked.
pub fn list_ids(set: &HashSet<WindowId>) -> (order: Vec<WindowId>)
    ensures
        lists(order@, set@),
{
    let mut order: Vec<WindowId> = Vec::new();
    let ghost walked = set.iter().remaining();
    for id in walk: set.iter()
        invariant
            walk.seq() == walked,
            order@ == walked.unref().take(walk.index() as int),
    {
        order.push(*id);
    }
    assert(order@ == walked.unref());
    assert(order@.no_duplicates()) by {
        assert forall|i: int, j: int| 0 <= i < j < order@.len() implies order@[i] != order@[j] by {
            assert(walked[i] != walked[j]);
        }
    }
    order
}

/// Empty a set, returning what it held.
pub fn drain_ids(set: &mut HashSet<WindowId>) -> (order: Vec<WindowId>)
    ensures
        final(set)@ == Set::<WindowId>::empty(),
        lists(order@, old(set)@),
{
    let order = list_ids(set);
    set.clear();
    order
}

/// The windows that a layout places.
pub fn placement_ids(placements: &Vec<WindowPlacement>) -> (ids: HashSet<WindowId>)
    ensures
        ids@ == placed_ids(placements@),
{
    let mut ids: HashSet<WindowId> = HashSet::new();
    for i in 0..placements.len()
        invariant
            ids@ == placed_ids(placements@.take(i as int)),
    {
        ids.insert(placements[i].window_id);
        proof {
            let before = placements@.take(i as int);
            let after = placements@.take(i + 1);
            assert forall|id: WindowId| placed_ids(after).contains(id) == placed_ids(before).insert(
                placements@[i as int].window_id,
            ).contains(id) by {
                if placed_ids(before).contains(id) {
                    let k = choose|k: int| 0 <= k < before.len() && (#[trigger] before[k]).window_id == id;
                    assert(after[k].window_id == id);
                }
                if id == placements@[i as int].window_id {
                    assert(after[i as int].window_id == id);
                }
            }
        }
    }
    assert(placements@.take(placements@.len() as int) == placements@);
    ids
}

/// Drop the members of a set that are not in `keep`, returning them.
pub fn prune_ids(set: &mut HashSet<WindowId>, keep: &HashSet<WindowId>) -> (dropped: Vec<WindowId>)
    ensures
        final(set)@ == old(set)@.intersect(keep@),
        lists(dropped@, old(set)@.difference(keep@)),
{
    let order = list_ids(set);
    let ghost before = set@;
    let mut dropped: Vec<WindowId> = Vec::new();
    for i in 0..order.len()
        invariant
            lists(order@, before),
            forall|id: WindowId| #[trigger]
                set@.contains(id) <==> before.contains(id) && !dropped@.contains(id),
            forall|id: WindowId| #[trigger]
                dropped@.contains(id) <==> order@.take(i as int).contains(id) && !keep@.contains(id),
            dropped@.no_duplicates(),
    {
        let id = order[i];
        proof {
            let seen = order@.take(i as int);
            assert(order@.take(i + 1) == seen.push(id));
            assert(forall|x: WindowId| seen.push(id).contains(x) <==> seen.contains(x) || x == id)
                by {
                broadcast use vstd::seq_lib::lemma_seq_contains_after_push;
            }
        }
        if !keep.contains(&id) {
            let ghost earlier = dropped@;
            set.remove(&id);
            dropped.push(id);
            proof {
                broadcast use vstd::seq_lib::lemma_seq_contains_after_push;
                assert(dropped@ == earlier.push(id));
            }
        }
    }
    proof {
        assert(order@.take(order@.len() as int) == order@);
        assert forall|id: WindowId| #[trigger] order@.contains(id) <==> before.contains(id) by {
            assert(order@.to_set().contains(id) <==> order@.contains(id));
        }
        assert(dropped@.to_set() =~= before.difference(keep@));
    }
    dropped
}

/// The keys of a map, in the order in which it happens to be walked.
pub fn list_keys<V>(map: &HashMap<WindowId, V>) -> (order: Vec<WindowId>)
    ensures
        lists(order@, map@.dom()),
{
    let mut order: Vec<WindowId> = Vec::new();
    let ghost walked = map.keys().remaining();
    for id in walk: map.keys()
        invariant
            walk.seq() == walked,
            order@ == walked.unref().take(walk.index() as int),
    {
        order.push(*id);
    }
    assert(order@ == walked.unref());
    assert(order@.no_duplicates()) by {
        assert forall|i: int, j: int| 0 <= i < j < order@.len() implies order@[i] != order@[j] by {
            assert(walked[i] != walked[j]);
        }
    }
    order
}

/// Drop the entries of a map whose keys are not in `keep`.
pub fn retain_keys<V>(map: &mut HashMap<WindowId, V>, keep: &HashSet<WindowId>)
    ensures
        final(map)@ == old(map)@.restrict(keep@),
{
    let ghost before = map@;
    let keys = list_keys(map);
    for i in 0..keys.len()
        invariant
            forall|id: WindowId| #[trigger]
                map@.contains_key(id) <==> before.contains_key(id) && !(keys@.take(
                    i as int,
                ).contains(id) && !keep@.contains(id)),
            forall|id: WindowId| map@.contains_key(id) ==> #[trigger] map@[id] == before[id],
    {
        let id = keys[i];
        if !keep.contains(&id) {
            map.remove(&id);
        }
        proof {
            broadcast use vstd::seq_lib::lemma_seq_contains_after_push;
            assert(keys@.take(i + 1) == keys@.take(i as int).push(id));
        }
    }
    proof {
        assert(keys@.take(keys@.len() as int) == keys@);
        assert forall|id: WindowId| #[trigger] before.contains_key(id) implies keys@.contains(id) by {
            assert(keys@.to_set().contains(id));
        }
    }
}

/// Drop the entries of a map whose keys are in `ids`.
pub fn remove_keys<V>(map: &mut HashMap<WindowId, V>, ids: &HashSet<WindowId>)
    ensures
        final(map)@ == old(map)@.remove_keys(ids@),
{
    let ghost before = map@;
    let order = list_ids(ids);
    for i in 0..order.len()
        invariant
            map@ =~= before.remove_keys(order@.take(i as int).to_set()),
    {
        map.remove(&order[i]);
        proof {
            broadcast use vstd::seq_lib::lemma_seq_contains_after_push;
            assert(order@.take(i + 1) == order@.take(i as int).push(order@[i as int]));
            assert(order@.take(i + 1).to_set() =~= order@.take(i as int).to_set().insert(
                order@[i as int],
            ));
        }
    }
    assert(order@.take(order@.len() as int) == order@);
}

/// A list of a set names each member at exactly one place, and nothing else.
pub proof fn law_a_list_names_each_member_once(
    order: Seq<WindowId>,
    set: Set<WindowId>,
    id: WindowId,
    i: int,
    j: int,
)
    requires
        lists(order, set),
    ensures
        set.contains(id) <==> exists|k: int| 0 <= k < order.len() && #[trigger] order[k] == id,
        0 <= i < order.len() && 0 <= j < order.len() && order[i] == order[j] ==> i == j,
{
    assert(order.to_set().contains(id) <==> order.contains(id));
}

/// The windows that a layout places are those that some placement names.
pub proof fn law_placed_windows_have_a_placement(placements: Seq<WindowPlacement>, id: WindowId)
    ensures
        placed_ids(placements).contains(id) <==> exists|i: int|
            0 <= i < placements.len() && (#[trigger] placements[i]).window_id == id,
{
}

} // verus!
