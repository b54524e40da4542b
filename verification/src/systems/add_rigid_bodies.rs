//! Creation of rigid bodies for freshly inserted `PhysicsBody` components.

use vstd::prelude::*;

use crate::body::PhysicsBody;
use crate::ecs::{net_inserted, strictly_sorted, ReaderId, Transform};
use crate::systems::{inserted_components, preserves_shape, Resources, ResourcesV};
use crate::world::{BodyHandle, RigidBody};

verus! {

broadcast use vstd::std_specs::hash::group_hash_axioms;

/// The rigid body created for a `PhysicsBody` component paired with a
/// `Transform`: the position is the transform's translation, the authored
/// per-tick velocity becomes a per-second rate by multiplication with the
/// step frequency, every other field is copied, and the entity's index is
/// stored as user data for reverse lookup.
pub open spec fn body_from_component(pb: PhysicsBody, t: Transform, hz: u32, id: u32) -> RigidBody {
    RigidBody {
        position: t.translation,
        gravity_enabled: pb.gravity_enabled,
        status: pb.body_status,
        velocity: pb.velocity.spec_scale(hz as int),
        angular_inertia: pb.angular_inertia,
        mass: pb.mass,
        local_center_of_mass: pb.local_center_of_mass,
        user_data: id,
    }
}

/// The effect of handling one inserted `PhysicsBody` id. An entity without
/// a `Transform` (or whose component vanished again) is skipped: a body
/// cannot be positioned. Otherwise any stale table entry is first
/// recovered by destroying the orphaned world object, then a fresh body is
/// created, the table maps the id to the fresh handle, and the component
/// learns its back-reference (which surfaces as a modification event).
pub open spec fn add_body_one(r: ResourcesV, id: u32) -> ResourcesV {
    if r.bodies.contains_key(id) && r.transforms.contains_key(id) {
        let r1 = if r.body_handles.contains_key(id) {
            ResourcesV {
                body_handles: r.body_handles.remove(id),
                world: if r.world.body_is_live(r.body_handles[id]) {
                    r.world.with_body_removed(r.body_handles[id])
                } else {
                    r.world
                },
                ..r
            }
        } else {
            r
        };
        let b = body_from_component(r1.bodies[id], r1.transforms[id], r1.world.steps_per_second, id);
        let h = BodyHandle { index: r1.world.bodies.len() as usize };
        ResourcesV {
            world: r1.world.with_body_added(b),
            body_handles: r1.body_handles.insert(id, h),
            bodies: r1.bodies.insert(id, PhysicsBody { handle: Some(h), ..r1.bodies[id] }),
            body_events: r1.body_events.push(crate::ecs::ComponentEvent::Modified(id)),
            ..r1
        }
    } else {
        r
    }
}

/// The effect of handling a batch of inserted ids, in order.
pub open spec fn add_body_all(r: ResourcesV, ids: Seq<u32>) -> ResourcesV
    decreases ids.len(),
{
    if ids.len() == 0 {
        r
    } else {
        add_body_one(add_body_all(r, ids.drop_last()), ids.last())
    }
}

/// The whole stage, relationally: `post` is `pre` with every id whose
/// `PhysicsBody` was net-inserted in the window starting at `cursor`
/// handled once, in increasing id order.
pub open spec fn body_add_stage(pre: ResourcesV, post: ResourcesV, cursor: nat) -> bool {
    exists|ids: Seq<u32>|
        {
            &&& strictly_sorted(ids)
            &&& forall|y: u32|
                #[trigger] ids.contains(y) <==> net_inserted(pre.body_events.skip(cursor as int), y)
            &&& post == add_body_all(pre, ids)
        }
}

/// The body synchronizer's insert stage: creates a rigid body in the
/// physics world for every entity whose `PhysicsBody` component was
/// inserted since the last tick and that also carries a `Transform`.
pub struct AddRigidBodiesSystem {
    pub physics_bodies_reader_id: Option<ReaderId>,
}

impl Default for AddRigidBodiesSystem {
    /// A system that has not registered its change-log reader yet.
    fn default() -> (r: Self)
        ensures
            r.physics_bodies_reader_id is None,
    {
        AddRigidBodiesSystem { physics_bodies_reader_id: None }
    }
}

impl AddRigidBodiesSystem {
    /// Whether the system's reader is registered and in range for the
    /// given resources.
    pub open spec fn ready(self, res: Resources) -> bool {
        &&& self.physics_bodies_reader_id is Some
        &&& self.physics_bodies_reader_id->0.cursor <= res.physics_bodies.events@.len()
    }

    /// Registers the reader for the `PhysicsBody` change log.
    pub fn setup(&mut self, res: &Resources)
        ensures
            final(self).physics_bodies_reader_id == Some(
                ReaderId { cursor: res.physics_bodies.events@.len() as usize },
            ),
            final(self).ready(*res),
    {
        self.physics_bodies_reader_id = Some(res.physics_bodies.register_reader());
    }

    /// Handles the `PhysicsBody` components inserted since this system
    /// last ran, in increasing id order, as [`add_body_one`] describes.
    pub fn run(&mut self, res: &mut Resources)
        requires
            old(self).ready(*old(res)),
        ensures
            final(self).physics_bodies_reader_id == Some(
                ReaderId { cursor: old(res).physics_bodies.events@.len() as usize },
            ),
            final(self).ready(*final(res)),
            body_add_stage(
                old(res)@,
                final(res)@,
                old(self).physics_bodies_reader_id->0.cursor as nat,
            ),
            preserves_shape(*old(res), *final(res)),
            old(res)@.world.wf() ==> final(res)@.world.wf(),
    {
        let mut reader = self.physics_bodies_reader_id.unwrap();
        let inserted = inserted_components(&res.physics_bodies, &mut reader);
        self.physics_bodies_reader_id = Some(reader);

        let mut k: usize = 0;
        while k < inserted.len()
            invariant
                k <= inserted@.len(),
                inserted.wf(),
                res@ == add_body_all(old(res)@, inserted@.take(k as int)),
                preserves_shape(*old(res), *res),
                old(res)@.world.wf() ==> res@.world.wf(),
            decreases inserted@.len() - k,
        {
            let ghost prev = res@;
            let id = inserted.idx(k);
            let found: Option<(PhysicsBody, Transform)> = match (
                res.physics_bodies.get(id),
                res.transforms.get(id),
            ) {
                (Some(b), Some(t)) => Some((*b, *t)),
                _ => None,
            };
            if let Some((body, transform)) = found {
                match res.body_handles.remove(&id) {
                    Some(h) => {
                        res.world.remove_body(h);
                    },
                    None => {},
                }
                let hz = res.world.steps_per_second;
                let rb = RigidBody {
                    position: transform.translation,
                    gravity_enabled: body.gravity_enabled,
                    status: body.body_status,
                    velocity: body.velocity.scale(hz as i64),
                    angular_inertia: body.angular_inertia,
                    mass: body.mass,
                    local_center_of_mass: body.local_center_of_mass,
                    user_data: id,
                };
                let h = res.world.add_rigid_body(rb);
                res.physics_bodies.modify(id, PhysicsBody { handle: Some(h), ..body });
                res.body_handles.insert(id, h);
                proof {
                    assert(res@ =~~= add_body_one(prev, id));
                }
            } else {
                proof {
                    assert(res@ =~~= add_body_one(prev, id));
                }
            }
            k = k + 1;
            proof {
                assert(inserted@.take(k as int).drop_last() =~= inserted@.take(k as int - 1));
                assert(inserted@.take(k as int).last() == id);
                assert(res@ == add_body_all(old(res)@, inserted@.take(k as int)));
            }
        }
        proof {
            assert(inserted@.take(inserted@.len() as int) =~= inserted@);
            assert forall|y: u32| #[trigger] inserted@.contains(y) <==> net_inserted(
                old(res).physics_bodies.events@.skip(
                    old(self).physics_bodies_reader_id->0.cursor as int,
                ),
                y,
            ) by {
                assert(inserted.has(y) <==> net_inserted(
                    old(res).physics_bodies.events@.skip(
                        old(self).physics_bodies_reader_id->0.cursor as int,
                    ),
                    y,
                ));
            }
            assert({
                &&& strictly_sorted(inserted@)
                &&& forall|y: u32|
                    #[trigger] inserted@.contains(y) <==> net_inserted(
                        old(res).physics_bodies.events@.skip(
                            old(self).physics_bodies_reader_id->0.cursor as int,
                        ),
                        y,
                    )
                &&& res@ == add_body_all(old(res)@, inserted@)
            });
        }
    }
}

} // verus!
