//! Creation of world colliders for freshly inserted `PhysicsCollider`
//! components, with parent body resolution.

use vstd::prelude::*;

use crate::collider::{spec_shape_handle, PhysicsCollider};
use crate::ecs::{net_inserted, strictly_sorted, ReaderId, Transform};
use crate::systems::{inserted_components, preserves_shape, Resources, ResourcesV};
use crate::world::{BodyPartHandle, Collider, ColliderHandle};

verus! {

broadcast use vstd::std_specs::hash::group_hash_axioms;

/// Which body part a collider of entity `id` attaches to. Resolution
/// order: the entity's own live body; else the live body of the entity it
/// is parented to; else the immovable ground frame. A table entry whose
/// world object is gone counts as no body.
pub open spec fn resolve_parent(r: ResourcesV, id: u32) -> BodyPartHandle {
    if r.body_handles.contains_key(id) && r.world.body_is_live(r.body_handles[id]) {
        BodyPartHandle::Body(r.body_handles[id])
    } else if !r.body_handles.contains_key(id) && r.parents.contains_key(id) {
        let pid = r.parents[id].entity.index;
        if r.body_handles.contains_key(pid) && r.world.body_is_live(r.body_handles[pid]) {
            BodyPartHandle::Body(r.body_handles[pid])
        } else {
            BodyPartHandle::Ground
        }
    } else {
        BodyPartHandle::Ground
    }
}

/// The world collider created for a `PhysicsCollider` component: attached
/// to the resolved parent; placed at the entity's transform translation
/// plus the configured offset when attached to the ground, and at the
/// configured offset alone when attached to a moving body part (the part's
/// own position comes from the simulation every step); with the shape
/// translated to world geometry (margin subtracted from each rectangle
/// half-extent); and with the entity's index as user data.
pub open spec fn collider_from_component(
    pc: PhysicsCollider,
    t: Transform,
    parent: BodyPartHandle,
    id: u32,
) -> Collider {
    Collider {
        parent,
        translation: if parent == BodyPartHandle::Ground {
            t.translation.spec_add(pc.offset_from_parent.translation)
        } else {
            pc.offset_from_parent.translation
        },
        shape: spec_shape_handle(pc.shape, pc.margin),
        density: pc.density,
        material: pc.material,
        margin: pc.margin,
        collision_groups: pc.collision_groups,
        linear_prediction: pc.linear_prediction,
        angular_prediction: pc.angular_prediction,
        sensor: pc.sensor,
        user_data: id,
    }
}

/// The effect of handling one inserted `PhysicsCollider` id. An entity
/// without a `Transform` is skipped. Otherwise any stale table entry is
/// first recovered by destroying the orphaned world object, then a fresh
/// collider is created on the resolved parent, the table maps the id to
/// the fresh handle, and the component learns its back-reference (which
/// surfaces as a modification event).
pub open spec fn add_collider_one(r: ResourcesV, id: u32) -> ResourcesV {
    if r.colliders.contains_key(id) && r.transforms.contains_key(id) {
        let r1 = if r.collider_handles.contains_key(id) {
            ResourcesV {
                collider_handles: r.collider_handles.remove(id),
                world: if r.world.collider_is_live(r.collider_handles[id]) {
                    r.world.with_collider_removed(r.collider_handles[id])
                } else {
                    r.world
                },
                ..r
            }
        } else {
            r
        };
        let parent = resolve_parent(r1, id);
        let c = collider_from_component(r1.colliders[id], r1.transforms[id], parent, id);
        let h = ColliderHandle { index: r1.world.colliders.len() as usize };
        ResourcesV {
            world: r1.world.with_collider_added(c),
            collider_handles: r1.collider_handles.insert(id, h),
            colliders: r1.colliders.insert(
                id,
                PhysicsCollider { handle: Some(h), ..r1.colliders[id] },
            ),
            collider_events: r1.collider_events.push(crate::ecs::ComponentEvent::Modified(id)),
            ..r1
        }
    } else {
        r
    }
}

/// The effect of handling a batch of inserted ids, in order.
pub open spec fn add_collider_all(r: ResourcesV, ids: Seq<u32>) -> ResourcesV
    decreases ids.len(),
{
    if ids.len() == 0 {
        r
    } else {
        add_collider_one(add_collider_all(r, ids.drop_last()), ids.last())
    }
}

/// The whole stage, relationally: `post` is `pre` with every id whose
/// `PhysicsCollider` was net-inserted in the window starting at `cursor`
/// handled once, in increasing id order.
pub open spec fn collider_add_stage(pre: ResourcesV, post: ResourcesV, cursor: nat) -> bool {
    exists|ids: Seq<u32>|
        {
            &&& strictly_sorted(ids)
            &&& forall|y: u32|
                #[trigger] ids.contains(y) <==> net_inserted(
                    pre.collider_events.skip(cursor as int),
                    y,
                )
            &&& post == add_collider_all(pre, ids)
        }
}

/// The collider synchronizer's insert stage: creates a world collider for
/// every entity whose `PhysicsCollider` component was inserted since the
/// last tick, attached to the resolved parent body part.
pub struct AddCollidersSystem {
    pub physics_colliders_reader_id: Option<ReaderId>,
}

impl Default for AddCollidersSystem {
    /// A system that has not registered its change-log reader yet.
    fn default() -> (r: Self)
        ensures
            r.physics_colliders_reader_id is None,
    {
        AddCollidersSystem { physics_colliders_reader_id: None }
    }
}

impl AddCollidersSystem {
    /// Whether the system's reader is registered and in range for the
    /// given resources.
    pub open spec fn ready(self, res: Resources) -> bool {
        &&& self.physics_colliders_reader_id is Some
        &&& self.physics_colliders_reader_id->0.cursor <= res.physics_colliders.events@.len()
    }

    /// Registers the reader for the `PhysicsCollider` change log.
    pub fn setup(&mut self, res: &Resources)
        ensures
            final(self).physics_colliders_reader_id == Some(
                ReaderId { cursor: res.physics_colliders.events@.len() as usize },
            ),
            final(self).ready(*res),
    {
        self.physics_colliders_reader_id = Some(res.physics_colliders.register_reader());
    }

    /// Handles the `PhysicsCollider` components inserted since this system
    /// last ran, in increasing id order, as [`add_collider_one`] describes.
    pub fn run(&mut self, res: &mut Resources)
        requires
            old(self).ready(*old(res)),
        ensures
            final(self).physics_colliders_reader_id == Some(
                ReaderId { cursor: old(res).physics_colliders.events@.len() as usize },
            ),
            final(self).ready(*final(res)),
            collider_add_stage(
                old(res)@,
                final(res)@,
                old(self).physics_colliders_reader_id->0.cursor as nat,
            ),
            preserves_shape(*old(res), *final(res)),
            old(res)@.world.wf() ==> final(res)@.world.wf(),
    {
        let mut reader = self.physics_colliders_reader_id.unwrap();
        let inserted = inserted_components(&res.physics_colliders, &mut reader);
        self.physics_colliders_reader_id = Some(reader);

        let mut k: usize = 0;
        while k < inserted.len()
            invariant
                k <= inserted@.len(),
                inserted.wf(),
                res@ == add_collider_all(old(res)@, inserted@.take(k as int)),
                preserves_shape(*old(res), *res),
                old(res)@.world.wf() ==> res@.world.wf(),
            decreases inserted@.len() - k,
        {
            let ghost prev = res@;
            let id = inserted.idx(k);
            let found: Option<(PhysicsCollider, Transform)> = match (
                res.physics_colliders.get(id),
                res.transforms.get(id),
            ) {
                (Some(c), Some(t)) => Some((*c, *t)),
                _ => None,
            };
            if let Some((collider, transform)) = found {
                match res.collider_handles.remove(&id) {
                    Some(h) => {
                        res.world.remove_collider(h);
                    },
                    None => {},
                }
                let parent_part_handle = match res.body_handles.get(&id) {
                    Some(ph) => {
                        let own = *ph;
                        if res.world.rigid_body(own).is_some() {
                            BodyPartHandle::Body(own)
                        } else {
                            BodyPartHandle::Ground
                        }
                    },
                    None => {
                        let parent: Option<u32> = match res.parents.get(id) {
                            Some(p) => Some(p.entity.index),
                            None => None,
                        };
                        match parent {
                            Some(pid) => match res.body_handles.get(&pid) {
                                Some(ph) => {
                                    let theirs = *ph;
                                    if res.world.rigid_body(theirs).is_some() {
                                        BodyPartHandle::Body(theirs)
                                    } else {
                                        BodyPartHandle::Ground
                                    }
                                },
                                None => BodyPartHandle::Ground,
                            },
                            None => BodyPartHandle::Ground,
                        }
                    },
                };
                let translation = if parent_part_handle.is_ground() {
                    transform.translation.add_vec(&collider.offset_from_parent.translation)
                } else {
                    collider.offset_from_parent.translation
                };
                let c = Collider {
                    parent: parent_part_handle,
                    translation,
                    shape: collider.shape_handle(),
                    density: collider.density,
                    material: collider.material,
                    margin: collider.margin,
                    collision_groups: collider.collision_groups,
                    linear_prediction: collider.linear_prediction,
                    angular_prediction: collider.angular_prediction,
                    sensor: collider.sensor,
                    user_data: id,
                };
                let h = res.world.add_collider(c);
                res.physics_colliders.modify(id, PhysicsCollider { handle: Some(h), ..collider });
                res.collider_handles.insert(id, h);
                proof {
                    assert(res@ =~~= add_collider_one(prev, id));
                }
            } else {
                proof {
                    assert(res@ =~~= add_collider_one(prev, id));
                }
            }
            k = k + 1;
            proof {
                assert(inserted@.take(k as int).drop_last() =~= inserted@.take(k as int - 1));
                assert(inserted@.take(k as int).last() == id);
            }
        }
        proof {
            assert(inserted@.take(inserted@.len() as int) =~= inserted@);
            assert forall|y: u32| #[trigger] inserted@.contains(y) <==> net_inserted(
                old(res).physics_colliders.events@.skip(
                    old(self).physics_colliders_reader_id->0.cursor as int,
                ),
                y,
            ) by {
                assert(inserted.has(y) <==> net_inserted(
                    old(res).physics_colliders.events@.skip(
                        old(self).physics_colliders_reader_id->0.cursor as int,
                    ),
                    y,
                ));
            }
            assert({
                &&& strictly_sorted(inserted@)
                &&& forall|y: u32|
                    #[trigger] inserted@.contains(y) <==> net_inserted(
                        old(res).physics_colliders.events@.skip(
                            old(self).physics_colliders_reader_id->0.cursor as int,
                        ),
                        y,
                    )
                &&& res@ == add_collider_all(old(res)@, inserted@)
            });
        }
    }
}

} // verus!
