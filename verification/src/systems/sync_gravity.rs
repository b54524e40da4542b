//! Synchronization of the global gravity resource into the physics world.

use vstd::prelude::*;

use crate::systems::{preserves_shape, Resources, ResourcesV};

verus! {

/// The effect of the gravity stage: the world's gravity becomes the
/// resource's current value (and the world's write counter advances).
pub open spec fn gravity_stage(pre: ResourcesV) -> ResourcesV {
    ResourcesV { world: pre.world.with_gravity(pre.gravity), ..pre }
}

/// The gravity synchronizer: pushes the gravity resource into the world's
/// global gravity setting, unconditionally every tick — the write is a
/// cheap idempotent set, and gravity has no natural removal to diff
/// against.
pub struct SyncGravitySystem {}

impl Default for SyncGravitySystem {
    /// The gravity synchronizer holds no state.
    fn default() -> (r: Self)
        ensures
            r == (SyncGravitySystem {  }),
    {
        SyncGravitySystem {  }
    }
}

impl SyncGravitySystem {
    /// Overwrites the world gravity with the gravity resource.
    pub fn run(&mut self, res: &mut Resources)
        ensures
            final(res)@ == gravity_stage(old(res)@),
            final(res)@.world.gravity == old(res)@.gravity,
            preserves_shape(*old(res), *final(res)),
            old(res)@.world.wf() ==> final(res)@.world.wf(),
    {
        let g = res.gravity;
        res.world.set_gravity(g);
        proof {
            assert(res@ =~~= gravity_stage(old(res)@));
        }
    }
}

} // verus!
