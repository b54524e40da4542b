//! Destruction of rigid bodies for removed `PhysicsBody` components.

use vstd::prelude::*;

use crate::ecs::{net_removed, strictly_sorted, ReaderId};
use crate::systems::{preserves_shape, removed_components, Resources, ResourcesV};

verus! {

broadcast use vstd::std_specs::hash::group_hash_axioms;

/// The effect of handling one removed `PhysicsBody` id: the mapping-table
/// entry goes away and the world object is destroyed (together with its
/// attached colliders). A double removal — no table entry left — is a
/// defensive no-op, as is a table entry whose object already vanished.
pub open spec fn remove_body_one(r: ResourcesV, id: u32) -> ResourcesV {
    if r.body_handles.contains_key(id) {
        ResourcesV {
            body_handles: r.body_handles.remove(id),
            world: if r.world.body_is_live(r.body_handles[id]) {
                r.world.with_body_removed(r.body_handles[id])
            } else {
                r.world
            },
            ..r
        }
    } else {
        r
    }
}

/// The effect of handling a batch of removed ids, in order.
pub open spec fn remove_body_all(r: ResourcesV, ids: Seq<u32>) -> ResourcesV
    decreases ids.len(),
{
    if ids.len() == 0 {
        r
    } else {
        remove_body_one(remove_body_all(r, ids.drop_last()), ids.last())
    }
}

/// The whole stage, relationally: `post` is `pre` with every id whose
/// `PhysicsBody` was net-removed in the window starting at `cursor`
/// handled once, in increasing id order.
pub open spec fn body_remove_stage(pre: ResourcesV, post: ResourcesV, cursor: nat) -> bool {
    exists|ids: Seq<u32>|
        {
            &&& strictly_sorted(ids)
            &&& forall|y: u32|
                #[trigger] ids.contains(y) <==> net_removed(pre.body_events.skip(cursor as int), y)
            &&& post == remove_body_all(pre, ids)
        }
}

/// The body synchronizer's removal stage: destroys the world object of
/// every entity whose `PhysicsBody` component was removed since the last
/// tick. The component itself is already gone, so the stage works from the
/// ids and the mapping table alone.
pub struct RemoveRigidBodiesSystem {
    pub physics_bodies_reader_id: Option<ReaderId>,
}

impl Default for RemoveRigidBodiesSystem {
    /// A system that has not registered its change-log reader yet.
    fn default() -> (r: Self)
        ensures
            r.physics_bodies_reader_id is None,
    {
        RemoveRigidBodiesSystem { physics_bodies_reader_id: None }
    }
}

impl RemoveRigidBodiesSystem {
    /// Whether the system's reader is registered and in range for the
    /// given resources.
    pub open spec fn ready(self, res: Resources) -> bool {
        &&& self.physics_bodies_reader_id is Some
        &&& self.physics_bodies_reader_id->0.cursor <= res.physics_bodies.events@.len()
    }

    /// Registers the reader for the `PhysicsBody` change log.
    pub fn setup(&mut self, res: &Resources)
        ensures
            final(self).physics_bodies_reader_id == Some(
                ReaderId { cursor: res.physics_bodies.events@.len() as usize },
            ),
            final(self).ready(*res),
    {
        self.physics_bodies_reader_id = Some(res.physics_bodies.register_reader());
    }

    /// Handles the `PhysicsBody` components removed since this system last
    /// ran, in increasing id order, as [`remove_body_one`] describes.
    pub fn run(&mut self, res: &mut Resources)
        requires
            old(self).ready(*old(res)),
        ensures
            final(self).physics_bodies_reader_id == Some(
                ReaderId { cursor: old(res).physics_bodies.events@.len() as usize },
            ),
            final(self).ready(*final(res)),
            body_remove_stage(
                old(res)@,
                final(res)@,
                old(self).physics_bodies_reader_id->0.cursor as nat,
            ),
            preserves_shape(*old(res), *final(res)),
            old(res)@.world.wf() ==> final(res)@.world.wf(),
    {
        let mut reader = self.physics_bodies_reader_id.unwrap();
        let removed = removed_components(&res.physics_bodies, &mut reader);
        self.physics_bodies_reader_id = Some(reader);

        let mut k: usize = 0;
        while k < removed.len()
            invariant
                k <= removed@.len(),
                removed.wf(),
                res@ == remove_body_all(old(res)@, removed@.take(k as int)),
                preserves_shape(*old(res), *res),
                old(res)@.world.wf() ==> res@.world.wf(),
            decreases removed@.len() - k,
        {
            let ghost prev = res@;
            let id = removed.idx(k);
            match res.body_handles.remove(&id) {
                Some(h) => {
                    res.world.remove_body(h);
                },
                None => {},
            }
            proof {
                assert(res@ =~~= remove_body_one(prev, id));
            }
            k = k + 1;
            proof {
                assert(removed@.take(k as int).drop_last() =~= removed@.take(k as int - 1));
                assert(removed@.take(k as int).last() == id);
            }
        }
        proof {
            assert(removed@.take(removed@.len() as int) =~= removed@);
            assert forall|y: u32| #[trigger] removed@.contains(y) <==> net_removed(
                old(res).physics_bodies.events@.skip(
                    old(self).physics_bodies_reader_id->0.cursor as int,
                ),
                y,
            ) by {
                assert(removed.has(y) <==> net_removed(
                    old(res).physics_bodies.events@.skip(
                        old(self).physics_bodies_reader_id->0.cursor as int,
                    ),
                    y,
                ));
            }
            assert({
                &&& strictly_sorted(removed@)
                &&& forall|y: u32|
                    #[trigger] removed@.contains(y) <==> net_removed(
                        old(res).physics_bodies.events@.skip(
                            old(self).physics_bodies_reader_id->0.cursor as int,
                        ),
                        y,
                    )
                &&& res@ == remove_body_all(old(res)@, removed@)
            });
        }
    }
}

} // verus!
