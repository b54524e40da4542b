//! Position feedback: the world's authoritative post-step positions are
//! written back onto the entities' transforms.

use vstd::prelude::*;

use crate::ecs::Transform;
use crate::systems::{preserves_shape, Resources, ResourcesV};

verus! {

/// The effect of feeding one entity's position back: when the entity has
/// both a `PhysicsBody` with a live world back-reference and a
/// `Transform`, its transform translation is overwritten with the world
/// body's position (which the engine's change tracking sees as a
/// modification). The flow is one-directional, simulation to
/// presentation, and covers position only — never rotation.
pub open spec fn feedback_one(r: ResourcesV, id: u32) -> ResourcesV {
    if r.bodies.contains_key(id) && r.transforms.contains_key(id) {
        match r.bodies[id].handle {
            Some(h) => if r.world.body_is_live(h) {
                ResourcesV {
                    transforms: r.transforms.insert(
                        id,
                        Transform { translation: r.world.spec_body(h).position },
                    ),
                    transform_events: r.transform_events.push(
                        crate::ecs::ComponentEvent::Modified(id),
                    ),
                    ..r
                }
            } else {
                r
            },
            None => r,
        }
    } else {
        r
    }
}

/// The effect of feeding back every entity index below `n`, in increasing
/// order.
pub open spec fn feedback_upto(r: ResourcesV, n: nat) -> ResourcesV
    decreases n,
{
    if n == 0 {
        r
    } else {
        feedback_one(feedback_upto(r, (n - 1) as nat), ((n - 1) as nat) as u32)
    }
}

/// The position feedback stage over the whole `PhysicsBody` storage.
pub open spec fn feedback_stage(pre: ResourcesV, body_slot_count: nat) -> ResourcesV {
    feedback_upto(pre, body_slot_count)
}

/// The position feedback system: runs strictly after the stepper, so the
/// transforms the renderer consumes reflect the state produced by this
/// tick's step, not a stale one.
pub struct SyncPositionsSystem {}

impl Default for SyncPositionsSystem {
    /// The feedback system holds no state.
    fn default() -> (r: Self)
        ensures
            r == (SyncPositionsSystem {  }),
    {
        SyncPositionsSystem {  }
    }
}

impl SyncPositionsSystem {
    /// Overwrites the transform translation of every entity with a live
    /// body, as [`feedback_one`] describes.
    pub fn run(&mut self, res: &mut Resources)
        requires
            old(res).physics_bodies.slots@.len() <= u32::MAX as int + 1,
        ensures
            final(res)@ == feedback_stage(old(res)@, old(res).physics_bodies.slots@.len() as nat),
            preserves_shape(*old(res), *final(res)),
            old(res)@.world.wf() ==> final(res)@.world.wf(),
    {
        let n = res.physics_bodies.slots.len();
        let mut k: usize = 0;
        while k < n
            invariant
                k <= n,
                n == res.physics_bodies.slots@.len(),
                n <= u32::MAX as int + 1,
                res@ == feedback_upto(old(res)@, k as nat),
                preserves_shape(*old(res), *res),
                old(res)@.world.wf() ==> res@.world.wf(),
            decreases n - k,
        {
            let ghost prev = res@;
            let id = k as u32;
            let handle = match res.physics_bodies.get(id) {
                Some(b) => b.handle,
                None => None,
            };
            if res.physics_bodies.contains(id) && res.transforms.contains(id) {
                if let Some(h) = handle {
                    let position = match res.world.rigid_body(h) {
                        Some(rb) => Some(rb.position),
                        None => None,
                    };
                    if let Some(pos) = position {
                        res.transforms.modify(id, Transform { translation: pos });
                    }
                }
            }
            proof {
                assert(res@ =~~= feedback_one(prev, id));
            }
            k = k + 1;
        }
    }
}

} // verus!
