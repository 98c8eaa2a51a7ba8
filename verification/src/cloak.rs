//! Who keeps which window hidden.
//!
//! Three independent owners can cloak a window: the placement system (the
//! window is parked off-screen), the ghost animation, and a direct request for
//! a window held outside every layout. The cloak that placement commits is the
//! OR of the first two; the third is only ever lifted by a forced uncloak.

use std::collections::HashSet;
use vstd::prelude::*;

use crate::sets::drain_ids;
use crate::sets::lists;
use crate::types::PositionFlags;
use crate::types::WindowId;

verus! {

broadcast use vstd::std_specs::hash::group_hash_axioms;

/// The windows that each owner hides.
#[derive(Debug)]
pub struct CloakRegistry {
    /// Parked off-screen by placement.
    pub placement: HashSet<WindowId>,
    /// Hidden while a ghost animation runs.
    pub ghosted: HashSet<WindowId>,
    /// Hidden by direct request, outside the placement system.
    pub direct: HashSet<WindowId>,
}

/// The mathematical content of a `CloakRegistry`.
#[verifier::ext_equal]
pub struct CloakSets {
    pub placement: Set<WindowId>,
    pub ghosted: Set<WindowId>,
    pub direct: Set<WindowId>,
}

impl View for CloakRegistry {
    type V = CloakSets;

    open spec fn view(&self) -> CloakSets {
        CloakSets { placement: self.placement@, ghosted: self.ghosted@, direct: self.direct@ }
    }
}

impl CloakSets {
    /// Nobody hides anything.
    pub open spec fn none() -> CloakSets {
        CloakSets { placement: Set::empty(), ghosted: Set::empty(), direct: Set::empty() }
    }

    /// The cloak that placement commits for a window.
    pub open spec fn cloaked(self, id: WindowId) -> bool {
        self.placement.contains(id) || self.ghosted.contains(id)
    }

    /// Every window that any owner hides.
    pub open spec fn hidden(self) -> Set<WindowId> {
        self.placement.union(self.ghosted).union(self.direct)
    }

    /// Placement takes ownership of a window.
    pub open spec fn park(self, id: WindowId) -> CloakSets {
        CloakSets { placement: self.placement.insert(id), ..self }
    }

    /// Placement gives up ownership of a window.
    pub open spec fn unpark(self, id: WindowId) -> CloakSets {
        CloakSets { placement: self.placement.remove(id), ..self }
    }

    /// Placement gives up ownership of several windows.
    pub open spec fn unpark_all(self, ids: Set<WindowId>) -> CloakSets {
        CloakSets { placement: self.placement.difference(ids), ..self }
    }

    /// No owner hides the window any more.
    pub open spec fn forget(self, id: WindowId) -> CloakSets {
        CloakSets {
            placement: self.placement.remove(id),
            ghosted: self.ghosted.remove(id),
            direct: self.direct.remove(id),
        }
    }
}

/// A cloak to force on a window, whoever owns it.
#[derive(Clone, Copy, Debug, PartialEq, Eq, Structural)]
pub struct CloakCommand {
    pub window_id: WindowId,
    pub cloaked: bool,
}

impl CloakRegistry {
    /// A registry in which nothing is hidden.
    pub fn new() -> (cloaks: CloakRegistry)
        ensures
            cloaks@ == CloakSets::none(),
    {
        CloakRegistry { placement: HashSet::new(), ghosted: HashSet::new(), direct: HashSet::new() }
    }
}

impl Default for CloakRegistry {
    fn default() -> (cloaks: CloakRegistry)
        ensures
            cloaks@ == CloakSets::none(),
    {
        CloakRegistry::new()
    }
}

/// The cloak to commit for a window, if the window is still alive.
///
/// Callers change one of the owners' sets first and then commit the resulting
/// state with this. A handle that no longer names a window is left alone: it
/// may have been recycled.
pub fn apply_cloak_state(cloaks: &CloakRegistry, wid: WindowId, is_window: bool) -> (commit: Option<
    bool,
>)
    ensures
        commit == if is_window {
            Some(cloaks@.cloaked(wid))
        } else {
            None
        },
{
    let should_cloak = ghost_cloaked_contains(cloaks, wid) || global_cloaked_contains(cloaks, wid);
    if !is_window {
        return None;
    }
    Some(should_cloak)
}

/// Whether placement hides the window.
pub fn global_cloaked_contains(cloaks: &CloakRegistry, wid: WindowId) -> (r: bool)
    ensures
        r == cloaks@.placement.contains(wid),
{
    cloaks.placement.contains(&wid)
}

/// Whether the ghost animation hides the window.
pub fn ghost_cloaked_contains(cloaks: &CloakRegistry, wid: WindowId) -> (r: bool)
    ensures
        r == cloaks@.ghosted.contains(wid),
{
    cloaks.ghosted.contains(&wid)
}

/// Whether the window is hidden by direct request.
pub fn direct_cloaked_contains(cloaks: &CloakRegistry, wid: WindowId) -> (r: bool)
    ensures
        r == cloaks@.direct.contains(wid),
{
    cloaks.direct.contains(&wid)
}

/// Mark a window as cloaked by the ghost animation. Follow with
/// `apply_cloak_state` to commit.
pub fn mark_ghost_cloaked(cloaks: &mut CloakRegistry, wid: WindowId)
    ensures
        final(cloaks)@ == (CloakSets { ghosted: old(cloaks)@.ghosted.insert(wid), ..old(cloaks)@ }),
{
    cloaks.ghosted.insert(wid);
}

/// Remove a window from the ghost cloaks. Follow with `apply_cloak_state` to
/// commit, which uncloaks the window unless placement still hides it.
pub fn unmark_ghost_cloaked(cloaks: &mut CloakRegistry, wid: WindowId)
    ensures
        final(cloaks)@ == (CloakSets { ghosted: old(cloaks)@.ghosted.remove(wid), ..old(cloaks)@ }),
{
    cloaks.ghosted.remove(&wid);
}

/// Empty the ghost cloaks, returning the windows they held, in no particular
/// order.
pub fn drain_ghost_cloaked(cloaks: &mut CloakRegistry) -> (ids: Vec<WindowId>)
    ensures
        lists(ids@, old(cloaks)@.ghosted),
        final(cloaks)@ == (CloakSets { ghosted: Set::empty(), ..old(cloaks)@ }),
{
    drain_ids(&mut cloaks.ghosted)
}

/// Cloak a window that no layout manages, recording it for recovery.
pub fn dwm_cloak_window(cloaks: &mut CloakRegistry, window_id: WindowId) -> (command: CloakCommand)
    ensures
        final(cloaks)@ == (CloakSets {
            direct: old(cloaks)@.direct.insert(window_id),
            ..old(cloaks)@
        }),
        command == (CloakCommand { window_id, cloaked: true }),
{
    cloaks.direct.insert(window_id);
    CloakCommand { window_id, cloaked: true }
}

/// Force a window visible, whoever hides it.
pub fn dwm_uncloak_window(cloaks: &mut CloakRegistry, window_id: WindowId) -> (command:
    CloakCommand)
    ensures
        final(cloaks)@ == old(cloaks)@.forget(window_id),
        command == (CloakCommand { window_id, cloaked: false }),
{
    cloaks.placement.remove(&window_id);
    cloaks.ghosted.remove(&window_id);
    cloaks.direct.remove(&window_id);
    CloakCommand { window_id, cloaked: false }
}

/// The windows that a list of commands names, in order.
pub open spec fn commanded(commands: Seq<CloakCommand>) -> Seq<WindowId> {
    commands.map_values(|command: CloakCommand| command.window_id)
}

/// Append an uncloak command for each of `ids` that `seen` lacks.
fn uncloak_unseen(ids: &Vec<WindowId>, seen: &mut HashSet<WindowId>, commands: &mut Vec<CloakCommand>)
    requires
        lists(commanded(old(commands)@), old(seen)@),
        forall|i: int| 0 <= i < old(commands)@.len() ==> !(#[trigger] old(commands)@[i]).cloaked,
    ensures
        lists(commanded(final(commands)@), final(seen)@),
        forall|i: int| 0 <= i < final(commands)@.len() ==> !(#[trigger] final(commands)@[i]).cloaked,
        final(seen)@ == old(seen)@.union(ids@.to_set()),
{
    let ghost before = seen@;
    for i in 0..ids.len()
        invariant
            lists(commanded(commands@), seen@),
            forall|k: int| 0 <= k < commands@.len() ==> !(#[trigger] commands@[k]).cloaked,
            seen@ == before.union(ids@.take(i as int).to_set()),
    {
        let id = ids[i];
        let ghost listed = commanded(commands@);
        proof {
            broadcast use vstd::seq_lib::lemma_seq_contains_after_push;
            assert(ids@.take(i + 1) == ids@.take(i as int).push(id));
            assert(ids@.take(i + 1).to_set() =~= ids@.take(i as int).to_set().insert(id));
        }
        if seen.insert(id) {
            commands.push(CloakCommand { window_id: id, cloaked: false });
            proof {
                broadcast use vstd::seq_lib::lemma_seq_contains_after_push;
                assert(commanded(commands@) =~= listed.push(id));
                assert(listed.push(id).to_set() =~= listed.to_set().insert(id));
            }
        } else {
            assert(seen@ =~= listed.to_set());
        }
    }
    assert(ids@.take(ids@.len() as int) == ids@);
}

/// Force every tracked window visible. Each is named once, however many owners
/// hid it.
pub fn dwm_uncloak_all(cloaks: &mut CloakRegistry) -> (commands: Vec<CloakCommand>)
    ensures
        final(cloaks)@ == CloakSets::none(),
        lists(commanded(commands@), old(cloaks)@.hidden()),
        forall|i: int| 0 <= i < commands@.len() ==> !(#[trigger] commands@[i]).cloaked,
{
    let ghost before = cloaks@;
    let global_ids = drain_ids(&mut cloaks.placement);
    let ghost_ids = drain_ids(&mut cloaks.ghosted);
    let direct_ids = drain_ids(&mut cloaks.direct);
    let mut seen: HashSet<WindowId> = HashSet::new();
    let mut commands: Vec<CloakCommand> = Vec::new();
    assert(commanded(commands@).to_set() =~= seen@);
    uncloak_unseen(&global_ids, &mut seen, &mut commands);
    uncloak_unseen(&ghost_ids, &mut seen, &mut commands);
    uncloak_unseen(&direct_ids, &mut seen, &mut commands);
    assert(seen@ =~= before.hidden());
    commands
}

/// Placement takes ownership of a window.
pub fn mark_placement_parked(cloaks: &mut CloakRegistry, window_id: WindowId)
    ensures
        final(cloaks)@ == old(cloaks)@.park(window_id),
{
    cloaks.placement.insert(window_id);
}

/// Placement gives up ownership of a window; whether it had any.
pub fn release_placement_parked(cloaks: &mut CloakRegistry, window_id: WindowId) -> (released: bool)
    ensures
        released == old(cloaks)@.placement.contains(window_id),
        final(cloaks)@ == old(cloaks)@.unpark(window_id),
{
    cloaks.placement.remove(&window_id)
}

/// Whether placement, rather than the ghost animation, owns an off-screen park.
pub fn is_placement_parked(cloaks: &CloakRegistry, window_id: WindowId) -> (r: bool)
    ensures
        r == cloaks@.placement.contains(window_id),
{
    global_cloaked_contains(cloaks, window_id)
}

/// Whether the placement system or the ghost animation hides the window.
pub fn is_placement_cloaked(cloaks: &CloakRegistry, window_id: WindowId) -> (r: bool)
    ensures
        r == cloaks@.cloaked(window_id),
        r == (cloaks@.placement.contains(window_id) || cloaks@.ghosted.contains(window_id)),
{
    global_cloaked_contains(cloaks, window_id) || ghost_cloaked_contains(cloaks, window_id)
}

/// Placement gives up every window, returning those whose cloak is to be
/// committed anew, in no particular order.
pub fn uncloak_all_tracked(cloaks: &mut CloakRegistry) -> (ids: Vec<WindowId>)
    ensures
        lists(ids@, old(cloaks)@.placement),
        final(cloaks)@ == (CloakSets { placement: Set::empty(), ..old(cloaks)@ }),
{
    drain_ids(&mut cloaks.placement)
}

/// Return a window parked by placement to the layout: `position` is asked to
/// move it without resizing, and ownership is given up only if that succeeds.
///
/// The result says whether ownership was given up; if so the caller commits
/// the window's cloak with `apply_cloak_state`.
pub fn recover_placement_parked<F>(
    cloaks: &mut CloakRegistry,
    window_id: WindowId,
    async_position: bool,
    position: F,
) -> (released: bool) where F: FnOnce(PositionFlags) -> bool
    requires
        old(cloaks)@.placement.contains(window_id) ==> position.requires(
            (PositionFlags::move_only(async_position),),
        ),
    ensures
        !old(cloaks)@.placement.contains(window_id) ==> !released && final(cloaks)@ == old(cloaks)@,
        old(cloaks)@.placement.contains(window_id) ==> position.ensures(
            (PositionFlags::move_only(async_position),),
            released,
        ),
        released ==> final(cloaks)@ == old(cloaks)@.unpark(window_id),
        !released ==> final(cloaks)@ == old(cloaks)@,
{
    if !is_placement_parked(cloaks, window_id) {
        return false;
    }
    if !position(PositionFlags::move_only(async_position)) {
        return false;
    }
    release_placement_parked(cloaks, window_id)
}

/// Placement giving up a window never reveals one that the ghost animation
/// hides, and always reveals one that it does not.
pub proof fn law_release_respects_ghost(cloaks: CloakSets, id: WindowId)
    ensures
        cloaks.unpark(id).cloaked(id) == cloaks.ghosted.contains(id),
        forall|other: WindowId| other != id ==> cloaks.unpark(id).cloaked(other) == cloaks.cloaked(
            other,
        ),
{
}

/// Giving up every parked window leaves exactly the ghost cloaks in effect.
pub proof fn law_release_all_leaves_ghost(cloaks: CloakSets, id: WindowId)
    ensures
        (CloakSets { placement: Set::empty(), ..cloaks }).cloaked(id) == cloaks.ghosted.contains(id),
{
}

/// Parking and then releasing a window that was not parked changes nothing.
pub proof fn law_release_undoes_park(cloaks: CloakSets, id: WindowId)
    requires
        !cloaks.placement.contains(id),
    ensures
        cloaks.park(id).unpark(id) == cloaks,
        cloaks.park(id).cloaked(id),
{
}

/// After a forced uncloak no owner hides the window, and no other window is
/// affected.
pub proof fn law_forced_uncloak_is_complete(cloaks: CloakSets, id: WindowId)
    ensures
        !cloaks.forget(id).hidden().contains(id),
        !cloaks.forget(id).cloaked(id),
        forall|other: WindowId| other != id ==> {
            &&& #[trigger] cloaks.forget(id).cloaked(other) == cloaks.cloaked(other)
            &&& cloaks.forget(id).hidden().contains(other) == cloaks.hidden().contains(other)
        },
{
}

/// What every change of owner does to any one window: parking and giving up
/// touch what placement holds and no other owner, and a forced uncloak touches
/// every owner. A window is cloaked exactly if placement or the ghost animation
/// holds it, and hidden exactly if any of the three owners does.
pub proof fn law_owners_change_one_at_a_time(
    cloaks: CloakSets,
    id: WindowId,
    ids: Set<WindowId>,
    other: WindowId,
)
    ensures
        cloaks.cloaked(other) <==> cloaks.placement.contains(other) || cloaks.ghosted.contains(
            other,
        ),
        cloaks.hidden().contains(other) <==> cloaks.placement.contains(other)
            || cloaks.ghosted.contains(other) || cloaks.direct.contains(other),
        cloaks.park(id).placement.contains(other) <==> cloaks.placement.contains(other) || other
            == id,
        cloaks.unpark(id).placement.contains(other) <==> cloaks.placement.contains(other) && other
            != id,
        cloaks.unpark_all(ids).placement.contains(other) <==> cloaks.placement.contains(other)
            && !ids.contains(other),
        cloaks.park(id).ghosted == cloaks.ghosted && cloaks.park(id).direct == cloaks.direct,
        cloaks.unpark(id).ghosted == cloaks.ghosted && cloaks.unpark(id).direct == cloaks.direct,
        cloaks.unpark_all(ids).ghosted == cloaks.ghosted && cloaks.unpark_all(ids).direct
            == cloaks.direct,
        cloaks.forget(id).placement.contains(other) <==> cloaks.placement.contains(other) && other
            != id,
        cloaks.forget(id).ghosted.contains(other) <==> cloaks.ghosted.contains(other) && other
            != id,
        cloaks.forget(id).direct.contains(other) <==> cloaks.direct.contains(other) && other != id,
        !CloakSets::none().hidden().contains(other),
        !CloakSets::none().cloaked(other),
{
}

} // verus!
