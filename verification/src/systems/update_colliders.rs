//! Synchronization of modified `PhysicsCollider` components into their
//! world counterparts.

use vstd::prelude::*;

use crate::collider::PhysicsCollider;
use crate::ecs::{net_modified, strictly_sorted, ReaderId};
use crate::systems::{modified_components, preserves_shape, Resources, ResourcesV};
use crate::world::Collider;

verus! {

/// The effect of handling one modified `PhysicsCollider` id: the collision
/// filtering groups — the one field the simulation lets a live collider
/// change in place — are pushed into the world object. An entity without a
/// back-reference, or whose world object is gone (for instance destroyed
/// together with its parent body), is skipped as a defensive no-op.
pub open spec fn update_collider_one(r: ResourcesV, id: u32) -> ResourcesV {
    if r.colliders.contains_key(id) {
        let pc = r.colliders[id];
        match pc.handle {
            Some(h) => if r.world.collider_is_live(h) {
                ResourcesV {
                    world: r.world.with_collider(
                        h,
                        Collider {
                            collision_groups: pc.collision_groups,
                            ..r.world.spec_collider(h)
                        },
                    ),
                    ..r
                }
            } else {
                r
            },
            None => r,
        }
    } else {
        r
    }
}

/// The effect of handling a batch of modified ids, in order.
pub open spec fn update_collider_all(r: ResourcesV, ids: Seq<u32>) -> ResourcesV
    decreases ids.len(),
{
    if ids.len() == 0 {
        r
    } else {
        update_collider_one(update_collider_all(r, ids.drop_last()), ids.last())
    }
}

/// The whole stage, relationally: `post` is `pre` with every id whose
/// `PhysicsCollider` was net-modified in the window starting at `cursor`
/// handled once, in increasing id order.
pub open spec fn collider_update_stage(pre: ResourcesV, post: ResourcesV, cursor: nat) -> bool {
    exists|ids: Seq<u32>|
        {
            &&& strictly_sorted(ids)
            &&& forall|y: u32|
                #[trigger] ids.contains(y) <==> net_modified(
                    pre.collider_events.skip(cursor as int),
                    y,
                )
            &&& post == update_collider_all(pre, ids)
        }
}

/// The collider synchronizer's update stage: pushes the collision groups
/// of each modified `PhysicsCollider` into its existing world object.
pub struct UpdateCollidersSystems {
    pub physics_colliders_reader_id: Option<ReaderId>,
}

impl Default for UpdateCollidersSystems {
    /// A system that has not registered its change-log reader yet.
    fn default() -> (r: Self)
        ensures
            r.physics_colliders_reader_id is None,
    {
        UpdateCollidersSystems { physics_colliders_reader_id: None }
    }
}

impl UpdateCollidersSystems {
    /// Whether the system's reader is registered and in range for the
    /// given resources.
    pub open spec fn ready(self, res: Resources) -> bool {
        &&& self.physics_colliders_reader_id is Some
        &&& self.physics_colliders_reader_id->0.cursor <= res.physics_colliders.events@.len()
    }

    /// Registers the reader for the `PhysicsCollider` change log.
    pub fn setup(&mut self, res: &Resources)
        ensures
            final(self).physics_colliders_reader_id == Some(
                ReaderId { cursor: res.physics_colliders.events@.len() as usize },
            ),
            final(self).ready(*res),
    {
        self.physics_colliders_reader_id = Some(res.physics_colliders.register_reader());
    }

    /// Handles the `PhysicsCollider` components modified since this system
    /// last ran, in increasing id order, as [`update_collider_one`]
    /// describes.
    pub fn run(&mut self, res: &mut Resources)
        requires
            old(self).ready(*old(res)),
        ensures
            final(self).physics_colliders_reader_id == Some(
                ReaderId { cursor: old(res).physics_colliders.events@.len() as usize },
            ),
            final(self).ready(*final(res)),
            collider_update_stage(
                old(res)@,
                final(res)@,
                old(self).physics_colliders_reader_id->0.cursor as nat,
            ),
            preserves_shape(*old(res), *final(res)),
            old(res)@.world.wf() ==> final(res)@.world.wf(),
    {
        let mut reader = self.physics_colliders_reader_id.unwrap();
        let modified = modified_components(&res.physics_colliders, &mut reader);
        self.physics_colliders_reader_id = Some(reader);

        let mut k: usize = 0;
        while k < modified.len()
            invariant
                k <= modified@.len(),
                modified.wf(),
                res@ == update_collider_all(old(res)@, modified@.take(k as int)),
                preserves_shape(*old(res), *res),
                old(res)@.world.wf() ==> res@.world.wf(),
            decreases modified@.len() - k,
        {
            let ghost prev = res@;
            let id = modified.idx(k);
            let found: Option<PhysicsCollider> = match res.physics_colliders.get(id) {
                Some(c) => Some(*c),
                None => None,
            };
            if let Some(collider) = found {
                if let Some(h) = collider.handle {
                    if res.world.collider(h).is_some() {
                        res.world.set_collision_groups(h, collider.collision_groups);
                    }
                }
            }
            proof {
                assert(res@ =~~= update_collider_one(prev, id));
            }
            k = k + 1;
            proof {
                assert(modified@.take(k as int).drop_last() =~= modified@.take(k as int - 1));
                assert(modified@.take(k as int).last() == id);
            }
        }
        proof {
            assert(modified@.take(modified@.len() as int) =~= modified@);
            assert forall|y: u32| #[trigger] modified@.contains(y) <==> net_modified(
                old(res).physics_colliders.events@.skip(
                    old(self).physics_colliders_reader_id->0.cursor as int,
                ),
                y,
            ) by {
                assert(modified.has(y) <==> net_modified(
                    old(res).physics_colliders.events@.skip(
                        old(self).physics_colliders_reader_id->0.cursor as int,
                    ),
                    y,
                ));
            }
            assert({
                &&& strictly_sorted(modified@)
                &&& forall|y: u32|
                    #[trigger] modified@.contains(y) <==> net_modified(
                        old(res).physics_colliders.events@.skip(
                            old(self).physics_colliders_reader_id->0.cursor as int,
                        ),
                        y,
                    )
                &&& res@ == update_collider_all(old(res)@, modified@)
            });
        }
    }
}

} // verus!
