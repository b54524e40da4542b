//! Advancing the physics world by one fixed timestep and draining its
//! event queues.

use vstd::prelude::*;

use crate::systems::{preserves_shape, Resources, ResourcesV};
use crate::world::{ContactEvent, ProximityEvent, WorldV};

verus! {

/// The effect of the stepper stage: the world integrates one fixed
/// timestep, and both event queues are drained into the observer sinks
/// (appended in queue order), leaving the queues empty.
pub open spec fn stepper_stage(pre: ResourcesV) -> ResourcesV {
    let stepped = pre.world.stepped();
    ResourcesV {
        world: WorldV {
            contact_events: Seq::<ContactEvent>::empty(),
            proximity_events: Seq::<ProximityEvent>::empty(),
            ..stepped
        },
        contact_sink: pre.contact_sink + stepped.contact_events,
        proximity_sink: pre.proximity_sink + stepped.proximity_events,
        ..pre
    }
}

/// The simulation stepper: the single serialization point of a tick. All
/// body, collider and gravity synchronization for the tick must have been
/// applied before it runs; position feedback must run after it.
pub struct PhysicsStepperSystem {}

impl Default for PhysicsStepperSystem {
    /// The stepper holds no state.
    fn default() -> (r: Self)
        ensures
            r == (PhysicsStepperSystem {  }),
    {
        PhysicsStepperSystem {  }
    }
}

impl PhysicsStepperSystem {
    /// Advances the world exactly one fixed timestep, then forwards the
    /// queued contact and proximity events to the observer sinks. Stepping
    /// an ill-formed world has no recovery story, so it is ruled out up
    /// front rather than handled.
    pub fn run(&mut self, res: &mut Resources)
        requires
            old(res)@.world.wf(),
        ensures
            final(res)@ == stepper_stage(old(res)@),
            preserves_shape(*old(res), *final(res)),
            final(res)@.world.wf(),
    {
        res.world.step();
        let mut contacts = res.world.drain_contact_events();
        res.contact_sink.append(&mut contacts);
        let mut proximities = res.world.drain_proximity_events();
        res.proximity_sink.append(&mut proximities);
        proof {
            assert(res@ =~~= stepper_stage(old(res)@));
        }
    }
}

} // verus!
