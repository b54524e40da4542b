//! Synchronization of modified `PhysicsBody` components and modified
//! `Transform`s into their existing world counterparts.

use vstd::prelude::*;

use crate::body::PhysicsBody;
use crate::ecs::{net_modified, strictly_sorted, ReaderId, Transform};
use crate::systems::{modified_components, preserves_shape, Resources, ResourcesV};
use crate::world::RigidBody;

verus! {

/// A world body with every mutable field pushed from its component:
/// gravity flag, status, velocity (converted from per-tick displacement to
/// a per-second rate), angular inertia, mass and center of mass. Position
/// and user data are kept — positions move only through the simulation or
/// through a modified `Transform`.
pub open spec fn updated_body(rb: RigidBody, pb: PhysicsBody, hz: u32) -> RigidBody {
    RigidBody {
        gravity_enabled: pb.gravity_enabled,
        status: pb.body_status,
        velocity: pb.velocity.spec_scale(hz as int),
        angular_inertia: pb.angular_inertia,
        mass: pb.mass,
        local_center_of_mass: pb.local_center_of_mass,
        ..rb
    }
}

/// The effect of pushing one modified `PhysicsBody` (paired with a
/// `Transform`, as every simulated entity is) into the world. An entity
/// without a back-reference, or whose world object is gone, is skipped as
/// a defensive no-op.
pub open spec fn update_fields_one(r: ResourcesV, id: u32) -> ResourcesV {
    if r.bodies.contains_key(id) && r.transforms.contains_key(id) {
        let pb = r.bodies[id];
        match pb.handle {
            Some(h) => if r.world.body_is_live(h) {
                ResourcesV {
                    world: r.world.with_body(
                        h,
                        updated_body(r.world.spec_body(h), pb, r.world.steps_per_second),
                    ),
                    ..r
                }
            } else {
                r
            },
            None => r,
        }
    } else {
        r
    }
}

/// The effect of handling a batch of modified `PhysicsBody` ids, in order.
pub open spec fn update_fields_all(r: ResourcesV, ids: Seq<u32>) -> ResourcesV
    decreases ids.len(),
{
    if ids.len() == 0 {
        r
    } else {
        update_fields_one(update_fields_all(r, ids.drop_last()), ids.last())
    }
}

/// The effect of pushing one modified `Transform` into the world: the
/// entity's body position is overwritten with the transform translation,
/// so game logic can teleport an entity by writing its transform. Entities
/// without a live body are skipped.
pub open spec fn update_pos_one(r: ResourcesV, id: u32) -> ResourcesV {
    if r.bodies.contains_key(id) && r.transforms.contains_key(id) {
        let pb = r.bodies[id];
        match pb.handle {
            Some(h) => if r.world.body_is_live(h) {
                ResourcesV {
                    world: r.world.with_body(
                        h,
                        RigidBody {
                            position: r.transforms[id].translation,
                            ..r.world.spec_body(h)
                        },
                    ),
                    ..r
                }
            } else {
                r
            },
            None => r,
        }
    } else {
        r
    }
}

/// The effect of handling a batch of modified `Transform` ids, in order.
pub open spec fn update_pos_all(r: ResourcesV, ids: Seq<u32>) -> ResourcesV
    decreases ids.len(),
{
    if ids.len() == 0 {
        r
    } else {
        update_pos_one(update_pos_all(r, ids.drop_last()), ids.last())
    }
}

/// The whole stage, relationally: `post` is `pre` with the net-modified
/// `PhysicsBody` ids pushed first, then the net-modified `Transform` ids,
/// each batch in increasing id order.
pub open spec fn body_update_stage(
    pre: ResourcesV,
    post: ResourcesV,
    body_cursor: nat,
    transform_cursor: nat,
) -> bool {
    exists|body_ids: Seq<u32>, transform_ids: Seq<u32>|
        {
            &&& strictly_sorted(body_ids)
            &&& forall|y: u32|
                #[trigger] body_ids.contains(y) <==> net_modified(
                    pre.body_events.skip(body_cursor as int),
                    y,
                )
            &&& strictly_sorted(transform_ids)
            &&& forall|y: u32|
                #[trigger] transform_ids.contains(y) <==> net_modified(
                    pre.transform_events.skip(transform_cursor as int),
                    y,
                )
            &&& post == update_pos_all(update_fields_all(pre, body_ids), transform_ids)
        }
}

/// The body synchronizer's update stage: pushes every mutable field of
/// each modified `PhysicsBody` into its existing world object without
/// recreating it, and pushes each modified `Transform` translation into
/// the world position directly.
pub struct UpdateRigidBodiesSystems {
    pub physics_bodies_reader_id: Option<ReaderId>,
    pub transforms_reader_id: Option<ReaderId>,
}

impl Default for UpdateRigidBodiesSystems {
    /// A system that has not registered its change-log readers yet.
    fn default() -> (r: Self)
        ensures
            r.physics_bodies_reader_id is None,
            r.transforms_reader_id is None,
    {
        UpdateRigidBodiesSystems { physics_bodies_reader_id: None, transforms_reader_id: None }
    }
}

impl UpdateRigidBodiesSystems {
    /// Whether both readers are registered and in range for the given
    /// resources.
    pub open spec fn ready(self, res: Resources) -> bool {
        &&& self.physics_bodies_reader_id is Some
        &&& self.physics_bodies_reader_id->0.cursor <= res.physics_bodies.events@.len()
        &&& self.transforms_reader_id is Some
        &&& self.transforms_reader_id->0.cursor <= res.transforms.events@.len()
    }

    /// Registers the readers for the `PhysicsBody` and `Transform` change
    /// logs.
    pub fn setup(&mut self, res: &Resources)
        ensures
            final(self).physics_bodies_reader_id == Some(
                ReaderId { cursor: res.physics_bodies.events@.len() as usize },
            ),
            final(self).transforms_reader_id == Some(
                ReaderId { cursor: res.transforms.events@.len() as usize },
            ),
            final(self).ready(*res),
    {
        self.physics_bodies_reader_id = Some(res.physics_bodies.register_reader());
        self.transforms_reader_id = Some(res.transforms.register_reader());
    }

    /// Handles the `PhysicsBody` and `Transform` components modified since
    /// this system last ran, as [`update_fields_one`] and
    /// [`update_pos_one`] describe.
    pub fn run(&mut self, res: &mut Resources)
        requires
            old(self).ready(*old(res)),
        ensures
            final(self).physics_bodies_reader_id == Some(
                ReaderId { cursor: old(res).physics_bodies.events@.len() as usize },
            ),
            final(self).transforms_reader_id == Some(
                ReaderId { cursor: old(res).transforms.events@.len() as usize },
            ),
            final(self).ready(*final(res)),
            body_update_stage(
                old(res)@,
                final(res)@,
                old(self).physics_bodies_reader_id->0.cursor as nat,
                old(self).transforms_reader_id->0.cursor as nat,
            ),
            preserves_shape(*old(res), *final(res)),
            old(res)@.world.wf() ==> final(res)@.world.wf(),
    {
        let mut body_reader = self.physics_bodies_reader_id.unwrap();
        let modified_bodies = modified_components(&res.physics_bodies, &mut body_reader);
        self.physics_bodies_reader_id = Some(body_reader);

        let mut transform_reader = self.transforms_reader_id.unwrap();
        let modified_transforms = modified_components(&res.transforms, &mut transform_reader);
        self.transforms_reader_id = Some(transform_reader);

        let ghost mid: ResourcesV = update_fields_all(old(res)@, modified_bodies@);

        let mut k: usize = 0;
        while k < modified_bodies.len()
            invariant
                k <= modified_bodies@.len(),
                modified_bodies.wf(),
                res@ == update_fields_all(old(res)@, modified_bodies@.take(k as int)),
                preserves_shape(*old(res), *res),
                old(res)@.world.wf() ==> res@.world.wf(),
            decreases modified_bodies@.len() - k,
        {
            let ghost prev = res@;
            let id = modified_bodies.idx(k);
            let found: Option<PhysicsBody> = match res.physics_bodies.get(id) {
                Some(b) => Some(*b),
                None => None,
            };
            if let Some(body) = found {
                if res.transforms.contains(id) {
                    if let Some(h) = body.handle {
                        let live: Option<RigidBody> = match res.world.rigid_body(h) {
                            Some(rb) => Some(*rb),
                            None => None,
                        };
                        if let Some(rb) = live {
                            let hz = res.world.steps_per_second;
                            let updated = RigidBody {
                                gravity_enabled: body.gravity_enabled,
                                status: body.body_status,
                                velocity: body.velocity.scale(hz as i64),
                                angular_inertia: body.angular_inertia,
                                mass: body.mass,
                                local_center_of_mass: body.local_center_of_mass,
                                ..rb
                            };
                            res.world.set_rigid_body(h, updated);
                        }
                    }
                }
            }
            proof {
                assert(res@ =~~= update_fields_one(prev, id));
            }
            k = k + 1;
            proof {
                assert(modified_bodies@.take(k as int).drop_last() =~= modified_bodies@.take(
                    k as int - 1,
                ));
                assert(modified_bodies@.take(k as int).last() == id);
            }
        }
        proof {
            assert(modified_bodies@.take(modified_bodies@.len() as int) =~= modified_bodies@);
            assert(res@ == mid);
        }

        let mut j: usize = 0;
        while j < modified_transforms.len()
            invariant
                j <= modified_transforms@.len(),
                modified_transforms.wf(),
                res@ == update_pos_all(mid, modified_transforms@.take(j as int)),
                preserves_shape(*old(res), *res),
                old(res)@.world.wf() ==> res@.world.wf(),
            decreases modified_transforms@.len() - j,
        {
            let ghost prev = res@;
            let id = modified_transforms.idx(j);
            let found: Option<PhysicsBody> = match res.physics_bodies.get(id) {
                Some(b) => Some(*b),
                None => None,
            };
            let translation = match res.transforms.get(id) {
                Some(t) => Some(t.translation),
                None => None,
            };
            if let Some(body) = found {
                if let Some(pos) = translation {
                    if let Some(h) = body.handle {
                        let live: Option<RigidBody> = match res.world.rigid_body(h) {
                            Some(rb) => Some(*rb),
                            None => None,
                        };
                        if let Some(rb) = live {
                            res.world.set_rigid_body(h, RigidBody { position: pos, ..rb });
                        }
                    }
                }
            }
            proof {
                assert(res@ =~~= update_pos_one(prev, id));
            }
            j = j + 1;
            proof {
                assert(modified_transforms@.take(j as int).drop_last()
                    =~= modified_transforms@.take(j as int - 1));
                assert(modified_transforms@.take(j as int).last() == id);
            }
        }
        proof {
            assert(modified_transforms@.take(modified_transforms@.len() as int)
                =~= modified_transforms@);
            assert forall|y: u32| #[trigger] modified_bodies@.contains(y) <==> net_modified(
                old(res).physics_bodies.events@.skip(
                    old(self).physics_bodies_reader_id->0.cursor as int,
                ),
                y,
            ) by {
                assert(modified_bodies.has(y) <==> net_modified(
                    old(res).physics_bodies.events@.skip(
                        old(self).physics_bodies_reader_id->0.cursor as int,
                    ),
                    y,
                ));
            }
            assert forall|y: u32| #[trigger] modified_transforms@.contains(y) <==> net_modified(
                old(res).transforms.events@.skip(old(self).transforms_reader_id->0.cursor as int),
                y,
            ) by {
                assert(modified_transforms.has(y) <==> net_modified(
                    old(res).transforms.events@.skip(
                        old(self).transforms_reader_id->0.cursor as int,
                    ),
                    y,
                ));
            }
            assert({
                &&& strictly_sorted(modified_bodies@)
                &&& strictly_sorted(modified_transforms@)
                &&& res@ == update_pos_all(
                    update_fields_all(old(res)@, modified_bodies@),
                    modified_transforms@,
                )
            });
        }
    }
}

} // verus!
