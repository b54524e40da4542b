//! Destruction of world colliders for removed `PhysicsCollider`
//! components.

use vstd::prelude::*;

use crate::ecs::{net_removed, strictly_sorted, ReaderId};
use crate::systems::{preserves_shape, removed_components, Resources, ResourcesV};

verus! {

broadcast use vstd::std_specs::hash::group_hash_axioms;

/// The effect of handling one removed `PhysicsCollider` id: the
/// mapping-table entry goes away and the world object is destroyed if it
/// still exists (it may already have been destroyed together with its
/// parent body). A double removal is a defensive no-op.
pub open spec fn remove_collider_one(r: ResourcesV, id: u32) -> ResourcesV {
    if r.collider_handles.contains_key(id) {
        ResourcesV {
            collider_handles: r.collider_handles.remove(id),
            world: if r.world.collider_is_live(r.collider_handles[id]) {
                r.world.with_collider_removed(r.collider_handles[id])
            } else {
                r.world
            },
            ..r
        }
    } else {
        r
    }
}

/// The effect of handling a batch of removed ids, in order.
pub open spec fn remove_collider_all(r: ResourcesV, ids: Seq<u32>) -> ResourcesV
    decreases ids.len(),
{
    if ids.len() == 0 {
        r
    } else {
        remove_collider_one(remove_collider_all(r, ids.drop_last()), ids.last())
    }
}

/// The whole stage, relationally: `post` is `pre` with every id whose
/// `PhysicsCollider` was net-removed in the window starting at `cursor`
/// handled once, in increasing id order.
pub open spec fn collider_remove_stage(pre: ResourcesV, post: ResourcesV, cursor: nat) -> bool {
    exists|ids: Seq<u32>|
        {
            &&& strictly_sorted(ids)
            &&& forall|y: u32|
                #[trigger] ids.contains(y) <==> net_removed(
                    pre.collider_events.skip(cursor as int),
                    y,
                )
            &&& post == remove_collider_all(pre, ids)
        }
}

/// The collider synchronizer's removal stage: destroys the world object
/// of every entity whose `PhysicsCollider` component was removed since
/// the last tick. The component itself is already gone, so the stage works
/// from the ids and the mapping table alone.
pub struct RemoveCollidersSystem {
    pub physics_colliders_reader_id: Option<ReaderId>,
}

impl Default for RemoveCollidersSystem {
    /// A system that has not registered its change-log reader yet.
    fn default() -> (r: Self)
        ensures
            r.physics_colliders_reader_id is None,
    {
        RemoveCollidersSystem { physics_colliders_reader_id: None }
    }
}

impl RemoveCollidersSystem {
    /// Whether the system's reader is registered and in range for the
    /// given resources.
    pub open spec fn ready(self, res: Resources) -> bool {
        &&& self.physics_colliders_reader_id is Some
        &&& self.physics_colliders_reader_id->0.cursor <= res.physics_colliders.events@.len()
    }

    /// Registers the reader for the `PhysicsCollider` change log.
    pub fn setup(&mut self, res: &Resources)
        ensures
            final(self).physics_colliders_reader_id == Some(
                ReaderId { cursor: res.physics_colliders.events@.len() as usize },
            ),
            final(self).ready(*res),
    {
        self.physics_colliders_reader_id = Some(res.physics_colliders.register_reader());
    }

    /// Handles the `PhysicsCollider` components removed since this system
    /// last ran, in increasing id order, as [`remove_collider_one`]
    /// describes.
    pub fn run(&mut self, res: &mut Resources)
        requires
            old(self).ready(*old(res)),
        ensures
            final(self).physics_colliders_reader_id == Some(
                ReaderId { cursor: old(res).physics_colliders.events@.len() as usize },
            ),
            final(self).ready(*final(res)),
            collider_remove_stage(
                old(res)@,
                final(res)@,
                old(self).physics_colliders_reader_id->0.cursor as nat,
            ),
            preserves_shape(*old(res), *final(res)),
            old(res)@.world.wf() ==> final(res)@.world.wf(),
    {
        let mut reader = self.physics_colliders_reader_id.unwrap();
        let removed = removed_components(&res.physics_colliders, &mut reader);
        self.physics_colliders_reader_id = Some(reader);

        let mut k: usize = 0;
        while k < removed.len()
            invariant
                k <= removed@.len(),
                removed.wf(),
                res@ == remove_collider_all(old(res)@, removed@.take(k as int)),
                preserves_shape(*old(res), *res),
                old(res)@.world.wf() ==> res@.world.wf(),
            decreases removed@.len() - k,
        {
            let ghost prev = res@;
            let id = removed.idx(k);
            match res.collider_handles.remove(&id) {
                Some(h) => {
                    res.world.remove_collider(h);
                },
                None => {},
            }
            proof {
                assert(res@ =~~= remove_collider_one(prev, id));
            }
            k = k + 1;
            proof {
                assert(removed@.take(k as int).drop_last() =~= removed@.take(k as int - 1));
                assert(removed@.take(k as int).last() == id);
            }
        }
        proof {
            assert(removed@.take(removed@.len() as int) =~= removed@);
            assert forall|y: u32| #[trigger] removed@.contains(y) <==> net_removed(
                old(res).physics_colliders.events@.skip(
                    old(self).physics_colliders_reader_id->0.cursor as int,
                ),
                y,
            ) by {
                assert(removed.has(y) <==> net_removed(
                    old(res).physics_colliders.events@.skip(
                        old(self).physics_colliders_reader_id->0.cursor as int,
                    ),
                    y,
                ));
            }
            assert({
                &&& strictly_sorted(removed@)
                &&& forall|y: u32|
                    #[trigger] removed@.contains(y) <==> net_removed(
                        old(res).physics_colliders.events@.skip(
                            old(self).physics_colliders_reader_id->0.cursor as int,
                        ),
                        y,
                    )
                &&& res@ == remove_collider_all(old(res)@, removed@)
            });
        }
    }
}

} // verus!
