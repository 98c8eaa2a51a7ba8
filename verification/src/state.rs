//! What every placement pass shares.

use std::collections::HashMap;
use vstd::prelude::*;

use crate::cloak::CloakRegistry;
use crate::cloak::CloakSets;
use crate::insets::InsetCache;
use crate::insets::InsetMap;
use crate::sizing::SuspectMap;
use crate::sizing::Suspects;
use crate::types::WindowId;

verus! {

broadcast use vstd::std_specs::hash::group_hash_axioms;

/// What outlives a placement pass.
#[derive(Debug)]
pub struct SharedState {
    /// Who keeps which window hidden.
    pub cloaks: CloakRegistry,
    /// Windows whose size looked stale when last measured.
    pub suspects: Suspects,
    /// Border insets known to every pass.
    pub insets: InsetCache,
}

/// The mathematical content of a `SharedState`.
#[verifier::ext_equal]
pub struct Shared {
    pub cloaks: CloakSets,
    pub suspects: SuspectMap,
    pub insets: InsetMap,
}

impl View for SharedState {
    type V = Shared;

    open spec fn view(&self) -> Shared {
        Shared { cloaks: self.cloaks@, suspects: self.suspects@, insets: self.insets@ }
    }
}

impl Shared {
    /// Nothing known of any window.
    pub open spec fn initial() -> Shared {
        Shared {
            cloaks: CloakSets::none(),
            suspects: Map::empty(),
            insets: InsetMap::initial(),
        }
    }
}

impl SharedState {
    pub fn new() -> (state: SharedState)
        ensures
            state@ == Shared::initial(),
    {
        SharedState {
            cloaks: CloakRegistry::new(),
            suspects: HashMap::new(),
            insets: InsetCache::new(),
        }
    }
}

impl Default for SharedState {
    fn default() -> (state: SharedState)
        ensures
            state@ == Shared::initial(),
    {
        SharedState::new()
    }
}

/// At first nobody hides a window, nobody is suspect, and no insets are known.
pub proof fn law_nothing_is_known_at_first(id: WindowId)
    ensures
        !Shared::initial().cloaks.placement.contains(id),
        !Shared::initial().cloaks.ghosted.contains(id),
        !Shared::initial().cloaks.direct.contains(id),
        !Shared::initial().suspects.contains_key(id),
        !Shared::initial().insets.insets.contains_key(id),
        Shared::initial().insets.generation == 0,
{
}

} // verus!
