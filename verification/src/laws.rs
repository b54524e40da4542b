//! The bridge's stated laws, proved against the stage specifications.

use vstd::prelude::*;

use crate::math::Vector3;
use crate::systems::add_colliders::{add_collider_all, add_collider_one};
use crate::systems::add_rigid_bodies::{add_body_all, add_body_one};
use crate::systems::debug::{debug_one, debug_upto};
use crate::systems::physics_stepper::stepper_stage;
use crate::systems::remove_colliders::{remove_collider_all, remove_collider_one};
use crate::systems::remove_rigid_bodies::{remove_body_all, remove_body_one};
use crate::systems::sync_gravity::gravity_stage;
use crate::systems::sync_positions::{feedback_one, feedback_upto};
use crate::systems::update_colliders::{update_collider_all, update_collider_one};
use crate::systems::update_rigid_bodies::{update_fields_all, update_fields_one, update_pos_all, update_pos_one};
use crate::ecs::{net_inserted, net_modified, net_removed, strictly_sorted};
use crate::systems::{tick_rel, ResourcesV};
use crate::world::{BodyPartHandle, WorldV};

verus! {

/// Idempotent gravity: synchronizing the gravity resource twice in a row
/// leaves the world's gravity at the resource's value, exactly as one
/// synchronization does; each run performs exactly one world mutation
/// call (visible in the write counter), and nothing else about the
/// resources changes either time.
pub proof fn lemma_gravity_sync_idempotent(r: ResourcesV)
    ensures
        gravity_stage(r).world.gravity == r.gravity,
        gravity_stage(gravity_stage(r)).world.gravity == r.gravity,
        gravity_stage(gravity_stage(r)) == (ResourcesV {
            world: WorldV {
                gravity_sets: gravity_stage(gravity_stage(r)).world.gravity_sets,
                ..gravity_stage(r).world
            },
            ..gravity_stage(r)
        }),
        r.world.gravity_sets < u64::MAX ==> gravity_stage(r).world.gravity_sets
            == r.world.gravity_sets + 1,
{
    assert(gravity_stage(gravity_stage(r)) =~~= (ResourcesV {
        world: WorldV {
            gravity_sets: gravity_stage(gravity_stage(r)).world.gravity_sets,
            ..gravity_stage(r).world
        },
        ..gravity_stage(r)
    }));
}

/// Velocity round-trip: the per-second rate written into the world is the
/// authored per-tick displacement times the step frequency, and dividing
/// it back by the frequency recovers the authored value exactly —
/// provided the product does not leave the representable range (with a
/// larger velocity the conversion saturates instead).
pub proof fn lemma_velocity_round_trip(v: Vector3, hz: u32)
    requires
        1 <= hz,
        i64::MIN <= v.x * hz <= i64::MAX,
        i64::MIN <= v.y * hz <= i64::MAX,
        i64::MIN <= v.z * hz <= i64::MAX,
    ensures
        v.spec_scale(hz as int).spec_div(hz as int) == v,
{
    lemma_scale_div_exact(v.x, hz as int);
    lemma_scale_div_exact(v.y, hz as int);
    lemma_scale_div_exact(v.z, hz as int);
}

/// For one scalar: multiplying by a positive factor and dividing back,
/// truncating toward zero, is the identity when the product is
/// representable.
proof fn lemma_scale_div_exact(x: i64, k: int)
    requires
        k >= 1,
        i64::MIN <= x * k <= i64::MAX,
    ensures
        crate::math::div_to_zero(crate::math::clamp64(x * k), k) == x,
{
    assert(crate::math::clamp64(x * k) == x * k);
    if x >= 0 {
        assert((x * k) / k == x) by (nonlinear_arith)
            requires
                k >= 1,
                x >= 0,
        ;
    } else {
        assert((-(x * k)) == (-x) * k) by (nonlinear_arith);
        assert(((-x) * k) / k == -x) by (nonlinear_arith)
            requires
                k >= 1,
                x < 0,
        ;
    }
}

/// Insert/remove symmetry: creating a rigid body for a fresh entity and
/// then handling that entity's removal leaves no mapping-table entry and
/// no world object behind — the handle table, the collider slab and the
/// set of live bodies (with their values) are exactly as before; only the
/// burnt slab slot and the component bookkeeping witness that anything
/// happened.
pub proof fn lemma_insert_remove_symmetry(r: ResourcesV, id: u32)
    requires
        r.world.wf(),
        r.world.bodies.len() <= usize::MAX,
        r.bodies.contains_key(id),
        r.transforms.contains_key(id),
        !r.body_handles.contains_key(id),
    ensures
        ({
            let post = remove_body_one(add_body_one(r, id), id);
            &&& post.body_handles == r.body_handles
            &&& post.world.colliders == r.world.colliders
            &&& post.world.bodies.len() == r.world.bodies.len() + 1
            &&& forall|k: int|
                0 <= k < r.world.bodies.len() ==> post.world.bodies[k]
                    == #[trigger] r.world.bodies[k]
            &&& post.world.bodies.last() is None
        }),
{
    let mid = add_body_one(r, id);
    let fresh = crate::world::BodyHandle { index: r.world.bodies.len() as usize };
    assert(mid.body_handles == r.body_handles.insert(id, fresh));
    assert(mid.world.bodies == r.world.bodies.push(
        Some(
            crate::systems::add_rigid_bodies::body_from_component(
                r.bodies[id],
                r.transforms[id],
                r.world.steps_per_second,
                id,
            ),
        ),
    ));
    let post = remove_body_one(mid, id);
    assert(mid.body_handles.contains_key(id) && mid.body_handles[id] == fresh);
    assert(mid.world.body_is_live(fresh));
    assert(post.body_handles =~= r.body_handles);
    assert(post.world.bodies == mid.world.bodies.update(fresh.index as int, None::<
        crate::world::RigidBody,
    >));
    assert(post.world.colliders =~= r.world.colliders) by {
        assert forall|k: int| 0 <= k < mid.world.colliders.len() implies WorldV::purged_slot(
            mid.world.colliders[k],
            fresh,
        ) == mid.world.colliders[k] by {
            if mid.world.colliders[k] is Some {
                assert(r.world.parent_is_live(r.world.colliders[k]->0.parent));
                match mid.world.colliders[k]->0.parent {
                    crate::world::BodyPartHandle::Ground => {},
                    crate::world::BodyPartHandle::Body(hb) => {
                        assert(hb.index < r.world.bodies.len());
                    },
                }
            }
        }
    }
}


/// Parent offset composition: a collider on an entity that has no body of
/// its own but is parented to an entity with a live body attaches to that
/// parent's body part, and its placement is the configured local offset
/// alone — the parent's own transform is not added, because the part's
/// position comes from the simulation every step.
pub proof fn lemma_parent_offset_composition(r: ResourcesV, id: u32)
    requires
        r.colliders.contains_key(id),
        r.transforms.contains_key(id),
        !r.collider_handles.contains_key(id),
        !r.body_handles.contains_key(id),
        r.parents.contains_key(id),
        r.body_handles.contains_key(r.parents[id].entity.index),
        r.world.body_is_live(r.body_handles[r.parents[id].entity.index]),
        r.world.colliders.len() <= usize::MAX,
    ensures
        ({
            let post = add_collider_one(r, id);
            let h = post.collider_handles[id];
            &&& post.collider_handles.contains_key(id)
            &&& post.world.collider_is_live(h)
            &&& post.world.spec_collider(h).parent == BodyPartHandle::Body(
                r.body_handles[r.parents[id].entity.index],
            )
            &&& post.world.spec_collider(h).translation
                == r.colliders[id].offset_from_parent.translation
        }),
{
}

/// Whether one entity's transform agrees with its live world body: when
/// the entity carries both a `PhysicsBody` with a live back-reference and
/// a `Transform`, the transform's translation equals the world body's
/// position.
pub open spec fn synced_at(r: ResourcesV, id: u32) -> bool {
    r.bodies.contains_key(id) && r.transforms.contains_key(id) && r.bodies[id].handle is Some
        && r.world.body_is_live(r.bodies[id].handle->0)
        ==> r.transforms[id].translation == r.world.spec_body(r.bodies[id].handle->0).position
}

/// Every simulated entity's transform agrees with its world body.
pub open spec fn positions_synced(r: ResourcesV) -> bool {
    forall|id: u32| #[trigger] synced_at(r, id)
}

/// Position feedback leaves the component maps of every other kind, the
/// handle tables and the world itself untouched.
proof fn lemma_feedback_upto_frame(r: ResourcesV, n: nat)
    ensures
        feedback_upto(r, n).bodies == r.bodies,
        feedback_upto(r, n).world == r.world,
    decreases n,
{
    if n != 0 {
        lemma_feedback_upto_frame(r, (n - 1) as nat);
    }
}

/// After feeding back every index below `n`, every id below `n` agrees
/// with its world body.
proof fn lemma_feedback_partial(r: ResourcesV, n: nat)
    ensures
        forall|id: u32| id < n ==> #[trigger] synced_at(feedback_upto(r, n), id),
    decreases n,
{
    if n != 0 {
        let prev = feedback_upto(r, (n - 1) as nat);
        let id = ((n - 1) as nat) as u32;
        lemma_feedback_partial(r, (n - 1) as nat);
        assert forall|id2: u32| id2 < n implies #[trigger] synced_at(feedback_one(prev, id), id2) by {
            if id2 < n - 1 {
                assert(synced_at(prev, id2));
            }
        }
    }
}

/// Feedback freshness: after the position feedback stage has walked every
/// slot of the body storage, each entity with a live body has its
/// transform translation equal to the world's reported position for that
/// body — the post-step value, not a stale one.
pub proof fn lemma_feedback_freshness(r: ResourcesV, n: nat)
    requires
        forall|id: u32| #[trigger] r.bodies.contains_key(id) ==> id < n,
    ensures
        positions_synced(feedback_upto(r, n)),
{
    lemma_feedback_partial(r, n);
    lemma_feedback_upto_frame(r, n);
    assert forall|id: u32| #[trigger] synced_at(feedback_upto(r, n), id) by {
        if id < n {
        } else {
            assert(!r.bodies.contains_key(id));
        }
    }
}

/// The debug overlay draws lines and changes nothing else, so it keeps
/// the transforms in agreement with the world.
pub proof fn lemma_debug_keeps_positions_synced(r: ResourcesV, n: nat)
    requires
        positions_synced(r),
    ensures
        positions_synced(crate::systems::debug::debug_upto(r, n)),
    decreases n,
{
    if n != 0 {
        let prev = crate::systems::debug::debug_upto(r, (n - 1) as nat);
        lemma_debug_keeps_positions_synced(r, (n - 1) as nat);
        let id = ((n - 1) as nat) as u32;
        assert forall|id2: u32| #[trigger] synced_at(debug_one(prev, id), id2) by {
            assert(synced_at(prev, id2));
        }
    }
}


/// Handling one inserted `PhysicsBody` keeps the bridge consistent: the
/// stale orphan (if any) is destroyed before the fresh object is created,
/// and the fresh handle cannot alias any existing one.
proof fn lemma_add_body_one_consistent(r: ResourcesV, id: u32)
    requires
        r.consistent(),
        r.world.bodies.len() <= usize::MAX,
    ensures
        add_body_one(r, id).consistent(),
        add_body_one(r, id).world.bodies.len() <= r.world.bodies.len() + 1,
        add_body_one(r, id).world.colliders.len() == r.world.colliders.len(),
{
    if r.bodies.contains_key(id) && r.transforms.contains_key(id) {
        let r1 = if r.body_handles.contains_key(id) {
            ResourcesV {
                body_handles: r.body_handles.remove(id),
                world: if r.world.body_is_live(r.body_handles[id]) {
                    r.world.with_body_removed(r.body_handles[id])
                } else {
                    r.world
                },
                ..r
            }
        } else {
            r
        };
        if r.body_handles.contains_key(id) {
            let hstale = r.body_handles[id];
            assert(r.world.body_is_live(hstale));
            r.world.lemma_with_body_removed_wf(hstale);
            assert forall|id2: u32| #[trigger] r1.body_handles.contains_key(id2)
                implies r1.world.body_is_live(r1.body_handles[id2]) && r1.world.spec_body(
                r1.body_handles[id2],
            ).user_data == id2 by {
                assert(r.body_handles.contains_key(id2));
                assert(r.world.spec_body(r.body_handles[id2]).user_data == id2);
                assert(r.body_handles[id2] != hstale);
            }
        }
        assert(r1.consistent());
        let b = crate::systems::add_rigid_bodies::body_from_component(
            r1.bodies[id],
            r1.transforms[id],
            r1.world.steps_per_second,
            id,
        );
        let h = crate::world::BodyHandle { index: r1.world.bodies.len() as usize };
        let post = add_body_one(r, id);
        r1.world.lemma_with_body_added_wf(b);
        assert forall|id2: u32| #[trigger] post.body_handles.contains_key(id2)
            implies post.world.body_is_live(post.body_handles[id2]) && post.world.spec_body(
            post.body_handles[id2],
        ).user_data == id2 by {
            if id2 == id {
                assert(post.body_handles[id2] == h);
                assert(post.world.bodies[h.index as int] == Some(b));
            } else {
                assert(r1.body_handles.contains_key(id2));
                assert(r1.world.body_is_live(r1.body_handles[id2]));
            }
        }
        assert(post.consistent());
    }
}

/// Handling a batch of inserted `PhysicsBody` ids keeps the bridge
/// consistent; the body slab grows by at most one slot per id and the
/// collider slab is untouched.
proof fn lemma_add_body_all_consistent(r: ResourcesV, ids: Seq<u32>)
    requires
        r.consistent(),
        r.world.bodies.len() + ids.len() <= usize::MAX,
    ensures
        add_body_all(r, ids).consistent(),
        add_body_all(r, ids).world.bodies.len() <= r.world.bodies.len() + ids.len(),
        add_body_all(r, ids).world.colliders.len() == r.world.colliders.len(),
    decreases ids.len(),
{
    if ids.len() != 0 {
        lemma_add_body_all_consistent(r, ids.drop_last());
        lemma_add_body_one_consistent(add_body_all(r, ids.drop_last()), ids.last());
    }
}

/// Pushing one modified `PhysicsBody` into its world object keeps the
/// bridge consistent: the object keeps its identity (user data) and its
/// slot, only its dynamics change.
proof fn lemma_update_fields_one_consistent(r: ResourcesV, id: u32)
    requires
        r.consistent(),
    ensures
        update_fields_one(r, id).consistent(),
        update_fields_one(r, id).world.bodies.len() == r.world.bodies.len(),
        update_fields_one(r, id).world.colliders.len() == r.world.colliders.len(),
{
    let post = update_fields_one(r, id);
    if r.bodies.contains_key(id) && r.transforms.contains_key(id) {
        let pb = r.bodies[id];
        match pb.handle {
            Some(h) => {
                if r.world.body_is_live(h) {
                    r.world.lemma_with_body_wf(
                        h,
                        crate::systems::update_rigid_bodies::updated_body(
                            r.world.spec_body(h),
                            pb,
                            r.world.steps_per_second,
                        ),
                    );
                    assert forall|id2: u32| #[trigger] post.body_handles.contains_key(id2)
                        implies post.world.body_is_live(post.body_handles[id2])
                        && post.world.spec_body(post.body_handles[id2]).user_data == id2 by {
                        assert(r.world.spec_body(r.body_handles[id2]).user_data == id2);
                    }
                    assert(post.consistent());
                }
            },
            None => {},
        }
    }
}

/// Pushing one modified `Transform` into its world object keeps the
/// bridge consistent.
proof fn lemma_update_pos_one_consistent(r: ResourcesV, id: u32)
    requires
        r.consistent(),
    ensures
        update_pos_one(r, id).consistent(),
        update_pos_one(r, id).world.bodies.len() == r.world.bodies.len(),
        update_pos_one(r, id).world.colliders.len() == r.world.colliders.len(),
{
    let post = update_pos_one(r, id);
    if r.bodies.contains_key(id) && r.transforms.contains_key(id) {
        let pb = r.bodies[id];
        match pb.handle {
            Some(h) => {
                if r.world.body_is_live(h) {
                    r.world.lemma_with_body_wf(
                        h,
                        crate::world::RigidBody {
                            position: r.transforms[id].translation,
                            ..r.world.spec_body(h)
                        },
                    );
                    assert forall|id2: u32| #[trigger] post.body_handles.contains_key(id2)
                        implies post.world.body_is_live(post.body_handles[id2])
                        && post.world.spec_body(post.body_handles[id2]).user_data == id2 by {
                        assert(r.world.spec_body(r.body_handles[id2]).user_data == id2);
                    }
                    assert(post.consistent());
                }
            },
            None => {},
        }
    }
}

/// Handling batches of modified bodies and transforms keeps the bridge
/// consistent and changes no slab extent.
proof fn lemma_update_fields_all_consistent(r: ResourcesV, ids: Seq<u32>)
    requires
        r.consistent(),
    ensures
        update_fields_all(r, ids).consistent(),
        update_fields_all(r, ids).world.bodies.len() == r.world.bodies.len(),
        update_fields_all(r, ids).world.colliders.len() == r.world.colliders.len(),
    decreases ids.len(),
{
    if ids.len() != 0 {
        lemma_update_fields_all_consistent(r, ids.drop_last());
        lemma_update_fields_one_consistent(update_fields_all(r, ids.drop_last()), ids.last());
    }
}

/// See [`lemma_update_fields_all_consistent`]; the transform batch.
proof fn lemma_update_pos_all_consistent(r: ResourcesV, ids: Seq<u32>)
    requires
        r.consistent(),
    ensures
        update_pos_all(r, ids).consistent(),
        update_pos_all(r, ids).world.bodies.len() == r.world.bodies.len(),
        update_pos_all(r, ids).world.colliders.len() == r.world.colliders.len(),
    decreases ids.len(),
{
    if ids.len() != 0 {
        lemma_update_pos_all_consistent(r, ids.drop_last());
        lemma_update_pos_one_consistent(update_pos_all(r, ids.drop_last()), ids.last());
    }
}

/// Handling one removed `PhysicsBody` keeps the bridge consistent: the
/// destroyed object's table entry goes with it, and no other entry can
/// have referred to the same object.
proof fn lemma_remove_body_one_consistent(r: ResourcesV, id: u32)
    requires
        r.consistent(),
    ensures
        remove_body_one(r, id).consistent(),
        remove_body_one(r, id).world.bodies.len() == r.world.bodies.len(),
        remove_body_one(r, id).world.colliders.len() == r.world.colliders.len(),
{
    let post = remove_body_one(r, id);
    if r.body_handles.contains_key(id) {
        let h = r.body_handles[id];
        assert(r.world.body_is_live(h));
        r.world.lemma_with_body_removed_wf(h);
        assert forall|id2: u32| #[trigger] post.body_handles.contains_key(id2)
            implies post.world.body_is_live(post.body_handles[id2]) && post.world.spec_body(
            post.body_handles[id2],
        ).user_data == id2 by {
            assert(r.body_handles.contains_key(id2));
            assert(r.world.spec_body(r.body_handles[id2]).user_data == id2);
            assert(r.body_handles[id2] != h);
        }
        assert(post.consistent());
    }
}

/// Handling a batch of removed `PhysicsBody` ids keeps the bridge
/// consistent and changes no slab extent.
proof fn lemma_remove_body_all_consistent(r: ResourcesV, ids: Seq<u32>)
    requires
        r.consistent(),
    ensures
        remove_body_all(r, ids).consistent(),
        remove_body_all(r, ids).world.bodies.len() == r.world.bodies.len(),
        remove_body_all(r, ids).world.colliders.len() == r.world.colliders.len(),
    decreases ids.len(),
{
    if ids.len() != 0 {
        lemma_remove_body_all_consistent(r, ids.drop_last());
        lemma_remove_body_one_consistent(remove_body_all(r, ids.drop_last()), ids.last());
    }
}


/// Handling one inserted `PhysicsCollider` keeps the bridge consistent:
/// the stale orphan (if any) is destroyed first, the resolved parent is
/// live by construction, and the fresh handle cannot alias any existing
/// table entry because every entry's index lies below the fresh slot.
proof fn lemma_add_collider_one_consistent(r: ResourcesV, id: u32)
    requires
        r.consistent(),
        r.world.colliders.len() <= usize::MAX,
    ensures
        add_collider_one(r, id).consistent(),
        add_collider_one(r, id).world.colliders.len() <= r.world.colliders.len() + 1,
        add_collider_one(r, id).world.bodies.len() == r.world.bodies.len(),
{
    if r.colliders.contains_key(id) && r.transforms.contains_key(id) {
        let r1 = if r.collider_handles.contains_key(id) {
            ResourcesV {
                collider_handles: r.collider_handles.remove(id),
                world: if r.world.collider_is_live(r.collider_handles[id]) {
                    r.world.with_collider_removed(r.collider_handles[id])
                } else {
                    r.world
                },
                ..r
            }
        } else {
            r
        };
        if r.collider_handles.contains_key(id) {
            let hstale = r.collider_handles[id];
            if r.world.collider_is_live(hstale) {
                r.world.lemma_with_collider_removed_wf(hstale);
                assert forall|id2: u32| #[trigger] r1.collider_handles.contains_key(id2)
                    && r1.world.collider_is_live(r1.collider_handles[id2])
                    implies r1.world.spec_collider(r1.collider_handles[id2]).user_data
                    == id2 by {
                    assert(r.collider_handles.contains_key(id2));
                    assert(r.collider_handles[id2] != hstale);
                    assert(r.world.collider_is_live(r.collider_handles[id2]));
                    assert(r.world.spec_collider(r.collider_handles[id2]).user_data == id2);
                }
            }
        }
        assert(r1.consistent());
        let parent = crate::systems::add_colliders::resolve_parent(r1, id);
        assert(r1.world.parent_is_live(parent));
        let c = crate::systems::add_colliders::collider_from_component(
            r1.colliders[id],
            r1.transforms[id],
            parent,
            id,
        );
        let h = crate::world::ColliderHandle { index: r1.world.colliders.len() as usize };
        let post = add_collider_one(r, id);
        r1.world.lemma_with_collider_added_wf(c);
        assert forall|id2: u32| #[trigger] post.collider_handles.contains_key(id2)
            && post.world.collider_is_live(post.collider_handles[id2])
            implies post.world.spec_collider(post.collider_handles[id2]).user_data == id2 by {
            if id2 == id {
                assert(post.collider_handles[id2] == h);
                assert(post.world.colliders[h.index as int] == Some(c));
            } else {
                assert(r1.collider_handles.contains_key(id2));
                assert(r1.collider_handles[id2].index < r1.world.colliders.len());
            }
        }
        assert forall|id1: u32, id2: u32|
            post.collider_handles.contains_key(id1) && post.collider_handles.contains_key(id2)
                && #[trigger] post.collider_handles[id1] == #[trigger] post.collider_handles[id2]
            implies id1 == id2 by {
            if id1 != id2 {
                if id1 == id {
                    assert(r1.collider_handles[id2].index < r1.world.colliders.len());
                } else if id2 == id {
                    assert(r1.collider_handles[id1].index < r1.world.colliders.len());
                } else {
                    assert(r.collider_handles.contains_key(id1));
                    assert(r.collider_handles.contains_key(id2));
                }
            }
        }
        assert(post.consistent());
    }
}

/// Handling a batch of inserted `PhysicsCollider` ids keeps the bridge
/// consistent; the collider slab grows by at most one slot per id and the
/// body slab is untouched.
proof fn lemma_add_collider_all_consistent(r: ResourcesV, ids: Seq<u32>)
    requires
        r.consistent(),
        r.world.colliders.len() + ids.len() <= usize::MAX,
    ensures
        add_collider_all(r, ids).consistent(),
        add_collider_all(r, ids).world.colliders.len() <= r.world.colliders.len() + ids.len(),
        add_collider_all(r, ids).world.bodies.len() == r.world.bodies.len(),
    decreases ids.len(),
{
    if ids.len() != 0 {
        lemma_add_collider_all_consistent(r, ids.drop_last());
        lemma_add_collider_one_consistent(add_collider_all(r, ids.drop_last()), ids.last());
    }
}

/// Pushing one modified `PhysicsCollider`'s collision groups into its
/// world object keeps the bridge consistent: the object keeps its
/// identity, attachment and slot.
proof fn lemma_update_collider_one_consistent(r: ResourcesV, id: u32)
    requires
        r.consistent(),
    ensures
        update_collider_one(r, id).consistent(),
        update_collider_one(r, id).world.colliders.len() == r.world.colliders.len(),
        update_collider_one(r, id).world.bodies.len() == r.world.bodies.len(),
{
    let post = update_collider_one(r, id);
    if r.colliders.contains_key(id) {
        let pc = r.colliders[id];
        match pc.handle {
            Some(h) => {
                if r.world.collider_is_live(h) {
                    r.world.lemma_with_collider_wf(
                        h,
                        crate::world::Collider {
                            collision_groups: pc.collision_groups,
                            ..r.world.spec_collider(h)
                        },
                    );
                    assert forall|id2: u32| #[trigger] post.collider_handles.contains_key(id2)
                        && post.world.collider_is_live(post.collider_handles[id2])
                        implies post.world.spec_collider(post.collider_handles[id2]).user_data
                        == id2 by {
                        assert(r.world.collider_is_live(r.collider_handles[id2]));
                        assert(r.world.spec_collider(r.collider_handles[id2]).user_data == id2);
                    }
                    assert(post.consistent());
                }
            },
            None => {},
        }
    }
}

/// Handling a batch of modified `PhysicsCollider` ids keeps the bridge
/// consistent and changes no slab extent.
proof fn lemma_update_collider_all_consistent(r: ResourcesV, ids: Seq<u32>)
    requires
        r.consistent(),
    ensures
        update_collider_all(r, ids).consistent(),
        update_collider_all(r, ids).world.colliders.len() == r.world.colliders.len(),
        update_collider_all(r, ids).world.bodies.len() == r.world.bodies.len(),
    decreases ids.len(),
{
    if ids.len() != 0 {
        lemma_update_collider_all_consistent(r, ids.drop_last());
        lemma_update_collider_one_consistent(update_collider_all(r, ids.drop_last()), ids.last());
    }
}

/// Handling one removed `PhysicsCollider` keeps the bridge consistent.
proof fn lemma_remove_collider_one_consistent(r: ResourcesV, id: u32)
    requires
        r.consistent(),
    ensures
        remove_collider_one(r, id).consistent(),
        remove_collider_one(r, id).world.colliders.len() == r.world.colliders.len(),
        remove_collider_one(r, id).world.bodies.len() == r.world.bodies.len(),
{
    let post = remove_collider_one(r, id);
    if r.collider_handles.contains_key(id) {
        let h = r.collider_handles[id];
        if r.world.collider_is_live(h) {
            r.world.lemma_with_collider_removed_wf(h);
            assert forall|id2: u32| #[trigger] post.collider_handles.contains_key(id2)
                && post.world.collider_is_live(post.collider_handles[id2])
                implies post.world.spec_collider(post.collider_handles[id2]).user_data == id2 by {
                assert(r.collider_handles.contains_key(id2));
                assert(r.collider_handles[id2] != h);
                assert(r.world.collider_is_live(r.collider_handles[id2]));
                assert(r.world.spec_collider(r.collider_handles[id2]).user_data == id2);
            }
        }
        assert(post.consistent());
    }
}

/// Handling a batch of removed `PhysicsCollider` ids keeps the bridge
/// consistent and changes no slab extent.
proof fn lemma_remove_collider_all_consistent(r: ResourcesV, ids: Seq<u32>)
    requires
        r.consistent(),
    ensures
        remove_collider_all(r, ids).consistent(),
        remove_collider_all(r, ids).world.colliders.len() == r.world.colliders.len(),
        remove_collider_all(r, ids).world.bodies.len() == r.world.bodies.len(),
    decreases ids.len(),
{
    if ids.len() != 0 {
        lemma_remove_collider_all_consistent(r, ids.drop_last());
        lemma_remove_collider_one_consistent(remove_collider_all(r, ids.drop_last()), ids.last());
    }
}

/// The gravity write keeps the bridge consistent: it only replaces the
/// gravity vector and advances the write counter.
proof fn lemma_gravity_stage_consistent(r: ResourcesV)
    requires
        r.consistent(),
    ensures
        gravity_stage(r).consistent(),
        gravity_stage(r).world.colliders.len() == r.world.colliders.len(),
        gravity_stage(r).world.bodies.len() == r.world.bodies.len(),
{
    let post = gravity_stage(r);
    assert forall|id2: u32| #[trigger] post.body_handles.contains_key(id2)
        implies post.world.body_is_live(post.body_handles[id2]) && post.world.spec_body(
        post.body_handles[id2],
    ).user_data == id2 by {
        assert(r.world.spec_body(r.body_handles[id2]).user_data == id2);
    }
    assert(post.consistent());
}

/// The integration step keeps the bridge consistent: bodies move but keep
/// their slots and identities, and colliders are untouched.
proof fn lemma_stepper_stage_consistent(r: ResourcesV)
    requires
        r.consistent(),
    ensures
        stepper_stage(r).consistent(),
        stepper_stage(r).world.colliders.len() == r.world.colliders.len(),
        stepper_stage(r).world.bodies.len() == r.world.bodies.len(),
{
    let post = stepper_stage(r);
    r.world.lemma_stepped_wf();
    assert(post.world.wf());
    assert forall|id2: u32| #[trigger] post.body_handles.contains_key(id2)
        implies post.world.body_is_live(post.body_handles[id2]) && post.world.spec_body(
        post.body_handles[id2],
    ).user_data == id2 by {
        let h = r.body_handles[id2];
        assert(r.world.spec_body(h).user_data == id2);
        assert(post.world.bodies[h.index as int] == WorldV::stepped_slot(
            r.world.bodies[h.index as int],
            r.world.gravity,
            r.world.steps_per_second,
        ));
    }
    assert forall|id2: u32| #[trigger] post.collider_handles.contains_key(id2)
        && post.world.collider_is_live(post.collider_handles[id2])
        implies post.world.spec_collider(post.collider_handles[id2]).user_data == id2 by {
        assert(r.world.collider_is_live(r.collider_handles[id2]));
        assert(r.world.spec_collider(r.collider_handles[id2]).user_data == id2);
    }
    assert(post.consistent());
}

/// Position feedback touches only transforms, so it keeps the bridge
/// consistent.
proof fn lemma_feedback_upto_consistent(r: ResourcesV, n: nat)
    requires
        r.consistent(),
    ensures
        feedback_upto(r, n).consistent(),
        feedback_upto(r, n).world == r.world,
    decreases n,
{
    if n != 0 {
        lemma_feedback_upto_consistent(r, (n - 1) as nat);
        let prev = feedback_upto(r, (n - 1) as nat);
        let post = feedback_one(prev, ((n - 1) as nat) as u32);
        assert(post.world == prev.world);
        assert(post.body_handles == prev.body_handles);
        assert(post.collider_handles == prev.collider_handles);
        assert(post.consistent());
    }
}

/// The debug overlay touches only its line list, so it keeps the bridge
/// consistent.
proof fn lemma_debug_upto_consistent(r: ResourcesV, n: nat)
    requires
        r.consistent(),
    ensures
        debug_upto(r, n).consistent(),
    decreases n,
{
    if n != 0 {
        lemma_debug_upto_consistent(r, (n - 1) as nat);
        let prev = debug_upto(r, (n - 1) as nat);
        let post = debug_one(prev, ((n - 1) as nat) as u32);
        assert(post.world == prev.world);
        assert(post.body_handles == prev.body_handles);
        assert(post.collider_handles == prev.collider_handles);
        assert(post.consistent());
    }
}


/// Every index of a strictly sorted id sequence bounds its element from
/// below.
proof fn lemma_sorted_index_lower_bound(s: Seq<u32>, i: int)
    requires
        strictly_sorted(s),
        0 <= i < s.len(),
    ensures
        s[i] >= i,
    decreases i,
{
    if i > 0 {
        lemma_sorted_index_lower_bound(s, i - 1);
    }
}

/// A strictly sorted sequence of 32-bit ids cannot hold more ids than
/// there are 32-bit values.
proof fn lemma_sorted_len(s: Seq<u32>)
    requires
        strictly_sorted(s),
    ensures
        s.len() <= 0x1_0000_0000,
{
    if s.len() > 0x1_0000_0000 {
        lemma_sorted_index_lower_bound(s, 0x1_0000_0000);
        assert(false);
    }
}

/// Handle uniqueness across a whole tick: a consistent bridge stays
/// consistent through every stage of the tick, whatever component churn
/// the windows hold — so at every tick boundary each live entity id maps
/// to at most one live body handle and at most one collider handle, every
/// mapped body carries its entity's id, and distinct entities never share
/// a handle. The slab headroom bounds only rule out exhausting the
/// address space within one tick.
pub proof fn lemma_tick_preserves_handle_uniqueness(
    pre: ResourcesV,
    post: ResourcesV,
    add_body_cursor: nat,
    update_body_cursor: nat,
    update_transform_cursor: nat,
    remove_body_cursor: nat,
    add_collider_cursor: nat,
    update_collider_cursor: nat,
    remove_collider_cursor: nat,
    body_slot_count: nat,
    collider_slot_count: nat,
    debug_enabled: bool,
)
    requires
        pre.consistent(),
        tick_rel(
            pre,
            post,
            add_body_cursor,
            update_body_cursor,
            update_transform_cursor,
            remove_body_cursor,
            add_collider_cursor,
            update_collider_cursor,
            remove_collider_cursor,
            body_slot_count,
            collider_slot_count,
            debug_enabled,
        ),
        pre.world.bodies.len() + 0x1_0000_0000 <= usize::MAX,
        pre.world.colliders.len() + 0x1_0000_0000 <= usize::MAX,
    ensures
        post.consistent(),
{
    let (v1, v2, v3, v4, v5, v6) = choose|
        v1: ResourcesV,
        v2: ResourcesV,
        v3: ResourcesV,
        v4: ResourcesV,
        v5: ResourcesV,
        v6: ResourcesV,
    |
        #![trigger crate::systems::add_rigid_bodies::body_add_stage(pre, v1, add_body_cursor),
            crate::systems::update_rigid_bodies::body_update_stage(v1, v2, update_body_cursor, update_transform_cursor),
            crate::systems::remove_rigid_bodies::body_remove_stage(v2, v3, remove_body_cursor),
            crate::systems::add_colliders::collider_add_stage(v3, v4, add_collider_cursor),
            crate::systems::update_colliders::collider_update_stage(v4, v5, update_collider_cursor),
            crate::systems::remove_colliders::collider_remove_stage(v5, v6, remove_collider_cursor)]
        {
            &&& crate::systems::add_rigid_bodies::body_add_stage(pre, v1, add_body_cursor)
            &&& crate::systems::update_rigid_bodies::body_update_stage(
                v1,
                v2,
                update_body_cursor,
                update_transform_cursor,
            )
            &&& crate::systems::remove_rigid_bodies::body_remove_stage(v2, v3, remove_body_cursor)
            &&& crate::systems::add_colliders::collider_add_stage(v3, v4, add_collider_cursor)
            &&& crate::systems::update_colliders::collider_update_stage(
                v4,
                v5,
                update_collider_cursor,
            )
            &&& crate::systems::remove_colliders::collider_remove_stage(
                v5,
                v6,
                remove_collider_cursor,
            )
            &&& post == if debug_enabled {
                crate::systems::debug::debug_stage(
                    crate::systems::sync_positions::feedback_stage(
                        stepper_stage(gravity_stage(v6)),
                        body_slot_count,
                    ),
                    collider_slot_count,
                )
            } else {
                crate::systems::sync_positions::feedback_stage(
                    stepper_stage(gravity_stage(v6)),
                    body_slot_count,
                )
            }
        };
    let ids1 = choose|ids: Seq<u32>|
        {
            &&& strictly_sorted(ids)
            &&& forall|y: u32|
                #[trigger] ids.contains(y) <==> net_inserted(
                    pre.body_events.skip(add_body_cursor as int),
                    y,
                )
            &&& v1 == add_body_all(pre, ids)
        };
    lemma_sorted_len(ids1);
    lemma_add_body_all_consistent(pre, ids1);
    let (bids, tids) = choose|body_ids: Seq<u32>, transform_ids: Seq<u32>|
        {
            &&& strictly_sorted(body_ids)
            &&& forall|y: u32|
                #[trigger] body_ids.contains(y) <==> net_modified(
                    v1.body_events.skip(update_body_cursor as int),
                    y,
                )
            &&& strictly_sorted(transform_ids)
            &&& forall|y: u32|
                #[trigger] transform_ids.contains(y) <==> net_modified(
                    v1.transform_events.skip(update_transform_cursor as int),
                    y,
                )
            &&& v2 == update_pos_all(update_fields_all(v1, body_ids), transform_ids)
        };
    lemma_update_fields_all_consistent(v1, bids);
    lemma_update_pos_all_consistent(update_fields_all(v1, bids), tids);
    let ids3 = choose|ids: Seq<u32>|
        {
            &&& strictly_sorted(ids)
            &&& forall|y: u32|
                #[trigger] ids.contains(y) <==> net_removed(
                    v2.body_events.skip(remove_body_cursor as int),
                    y,
                )
            &&& v3 == remove_body_all(v2, ids)
        };
    lemma_remove_body_all_consistent(v2, ids3);
    let ids4 = choose|ids: Seq<u32>|
        {
            &&& strictly_sorted(ids)
            &&& forall|y: u32|
                #[trigger] ids.contains(y) <==> net_inserted(
                    v3.collider_events.skip(add_collider_cursor as int),
                    y,
                )
            &&& v4 == add_collider_all(v3, ids)
        };
    lemma_sorted_len(ids4);
    lemma_add_collider_all_consistent(v3, ids4);
    let ids5 = choose|ids: Seq<u32>|
        {
            &&& strictly_sorted(ids)
            &&& forall|y: u32|
                #[trigger] ids.contains(y) <==> net_modified(
                    v4.collider_events.skip(update_collider_cursor as int),
                    y,
                )
            &&& v5 == update_collider_all(v4, ids)
        };
    lemma_update_collider_all_consistent(v4, ids5);
    let ids6 = choose|ids: Seq<u32>|
        {
            &&& strictly_sorted(ids)
            &&& forall|y: u32|
                #[trigger] ids.contains(y) <==> net_removed(
                    v5.collider_events.skip(remove_collider_cursor as int),
                    y,
                )
            &&& v6 == remove_collider_all(v5, ids)
        };
    lemma_remove_collider_all_consistent(v5, ids6);
    lemma_gravity_stage_consistent(v6);
    lemma_stepper_stage_consistent(gravity_stage(v6));
    lemma_feedback_upto_consistent(stepper_stage(gravity_stage(v6)), body_slot_count);
    if debug_enabled {
        lemma_debug_upto_consistent(
            crate::systems::sync_positions::feedback_stage(
                stepper_stage(gravity_stage(v6)),
                body_slot_count,
            ),
            collider_slot_count,
        );
    }
}


/// Handle uniqueness, body side: under the bridge invariant two distinct
/// live entity ids never map to the same body handle — each mapped body
/// carries its own entity's id as user data.
pub proof fn lemma_body_handle_uniqueness(r: ResourcesV, id1: u32, id2: u32)
    requires
        r.consistent(),
        id1 != id2,
        r.body_handles.contains_key(id1),
        r.body_handles.contains_key(id2),
    ensures
        r.body_handles[id1] != r.body_handles[id2],
{
    assert(r.world.spec_body(r.body_handles[id1]).user_data == id1);
    assert(r.world.spec_body(r.body_handles[id2]).user_data == id2);
}

/// Handle uniqueness, collider side: under the bridge invariant two
/// distinct entity ids never map to the same collider handle, even when
/// the objects themselves have been destroyed with their parent body.
pub proof fn lemma_collider_handle_uniqueness(r: ResourcesV, id1: u32, id2: u32)
    requires
        r.consistent(),
        id1 != id2,
        r.collider_handles.contains_key(id1),
        r.collider_handles.contains_key(id2),
    ensures
        r.collider_handles[id1] != r.collider_handles[id2],
{
}


/// Only the body-insert stage writes the `PhysicsBody` component map, and
/// it only rewrites components that already exist, so the set of entities
/// carrying a body never changes within a tick.
proof fn lemma_add_body_all_bodies_dom(r: ResourcesV, ids: Seq<u32>)
    ensures
        forall|id: u32|
            #[trigger] add_body_all(r, ids).bodies.contains_key(id) <==> r.bodies.contains_key(id),
    decreases ids.len(),
{
    if ids.len() != 0 {
        lemma_add_body_all_bodies_dom(r, ids.drop_last());
        let prev = add_body_all(r, ids.drop_last());
        assert forall|id: u32| #[trigger] add_body_all(r, ids).bodies.contains_key(id)
            <==> r.bodies.contains_key(id) by {
            assert(prev.bodies.contains_key(id) <==> r.bodies.contains_key(id));
        }
    }
}

/// The body-update stage does not touch the component maps.
proof fn lemma_update_fields_all_bodies(r: ResourcesV, ids: Seq<u32>)
    ensures
        update_fields_all(r, ids).bodies == r.bodies,
    decreases ids.len(),
{
    if ids.len() != 0 {
        lemma_update_fields_all_bodies(r, ids.drop_last());
    }
}

/// The transform-update stage does not touch the component maps.
proof fn lemma_update_pos_all_bodies(r: ResourcesV, ids: Seq<u32>)
    ensures
        update_pos_all(r, ids).bodies == r.bodies,
    decreases ids.len(),
{
    if ids.len() != 0 {
        lemma_update_pos_all_bodies(r, ids.drop_last());
    }
}

/// The body-remove stage works from the table and the world alone; the
/// components are already gone and the map is untouched.
proof fn lemma_remove_body_all_bodies(r: ResourcesV, ids: Seq<u32>)
    ensures
        remove_body_all(r, ids).bodies == r.bodies,
    decreases ids.len(),
{
    if ids.len() != 0 {
        lemma_remove_body_all_bodies(r, ids.drop_last());
    }
}

/// The collider stages do not touch the `PhysicsBody` component map.
proof fn lemma_add_collider_all_bodies(r: ResourcesV, ids: Seq<u32>)
    ensures
        add_collider_all(r, ids).bodies == r.bodies,
    decreases ids.len(),
{
    if ids.len() != 0 {
        lemma_add_collider_all_bodies(r, ids.drop_last());
    }
}

/// See [`lemma_add_collider_all_bodies`].
proof fn lemma_update_collider_all_bodies(r: ResourcesV, ids: Seq<u32>)
    ensures
        update_collider_all(r, ids).bodies == r.bodies,
    decreases ids.len(),
{
    if ids.len() != 0 {
        lemma_update_collider_all_bodies(r, ids.drop_last());
    }
}

/// See [`lemma_add_collider_all_bodies`].
proof fn lemma_remove_collider_all_bodies(r: ResourcesV, ids: Seq<u32>)
    ensures
        remove_collider_all(r, ids).bodies == r.bodies,
    decreases ids.len(),
{
    if ids.len() != 0 {
        lemma_remove_collider_all_bodies(r, ids.drop_last());
    }
}

/// Feedback freshness across a whole tick: after a full tick, every
/// entity that carries a `PhysicsBody` with a live back-reference and a
/// `Transform` has its transform translation equal to the world's
/// reported position for that body — the value produced by this tick's
/// step, since position feedback runs after the stepper and only the
/// debug overlay (which draws lines and changes nothing else) may follow
/// it. The bound `body_slot_count` is the extent of the body storage, so
/// it covers every entity id that can carry a body.
pub proof fn lemma_tick_feedback_fresh(
    pre: ResourcesV,
    post: ResourcesV,
    add_body_cursor: nat,
    update_body_cursor: nat,
    update_transform_cursor: nat,
    remove_body_cursor: nat,
    add_collider_cursor: nat,
    update_collider_cursor: nat,
    remove_collider_cursor: nat,
    body_slot_count: nat,
    collider_slot_count: nat,
    debug_enabled: bool,
)
    requires
        tick_rel(
            pre,
            post,
            add_body_cursor,
            update_body_cursor,
            update_transform_cursor,
            remove_body_cursor,
            add_collider_cursor,
            update_collider_cursor,
            remove_collider_cursor,
            body_slot_count,
            collider_slot_count,
            debug_enabled,
        ),
        forall|id: u32| #[trigger] pre.bodies.contains_key(id) ==> id < body_slot_count,
    ensures
        positions_synced(post),
{
    let (v1, v2, v3, v4, v5, v6) = choose|
        v1: ResourcesV,
        v2: ResourcesV,
        v3: ResourcesV,
        v4: ResourcesV,
        v5: ResourcesV,
        v6: ResourcesV,
    |
        #![trigger crate::systems::add_rigid_bodies::body_add_stage(pre, v1, add_body_cursor),
            crate::systems::update_rigid_bodies::body_update_stage(v1, v2, update_body_cursor, update_transform_cursor),
            crate::systems::remove_rigid_bodies::body_remove_stage(v2, v3, remove_body_cursor),
            crate::systems::add_colliders::collider_add_stage(v3, v4, add_collider_cursor),
            crate::systems::update_colliders::collider_update_stage(v4, v5, update_collider_cursor),
            crate::systems::remove_colliders::collider_remove_stage(v5, v6, remove_collider_cursor)]
        {
            &&& crate::systems::add_rigid_bodies::body_add_stage(pre, v1, add_body_cursor)
            &&& crate::systems::update_rigid_bodies::body_update_stage(
                v1,
                v2,
                update_body_cursor,
                update_transform_cursor,
            )
            &&& crate::systems::remove_rigid_bodies::body_remove_stage(v2, v3, remove_body_cursor)
            &&& crate::systems::add_colliders::collider_add_stage(v3, v4, add_collider_cursor)
            &&& crate::systems::update_colliders::collider_update_stage(
                v4,
                v5,
                update_collider_cursor,
            )
            &&& crate::systems::remove_colliders::collider_remove_stage(
                v5,
                v6,
                remove_collider_cursor,
            )
            &&& post == if debug_enabled {
                crate::systems::debug::debug_stage(
                    crate::systems::sync_positions::feedback_stage(
                        stepper_stage(gravity_stage(v6)),
                        body_slot_count,
                    ),
                    collider_slot_count,
                )
            } else {
                crate::systems::sync_positions::feedback_stage(
                    stepper_stage(gravity_stage(v6)),
                    body_slot_count,
                )
            }
        };
    let ids1 = choose|ids: Seq<u32>|
        {
            &&& strictly_sorted(ids)
            &&& forall|y: u32|
                #[trigger] ids.contains(y) <==> net_inserted(
                    pre.body_events.skip(add_body_cursor as int),
                    y,
                )
            &&& v1 == add_body_all(pre, ids)
        };
    lemma_add_body_all_bodies_dom(pre, ids1);
    let (bids, tids) = choose|body_ids: Seq<u32>, transform_ids: Seq<u32>|
        {
            &&& strictly_sorted(body_ids)
            &&& forall|y: u32|
                #[trigger] body_ids.contains(y) <==> net_modified(
                    v1.body_events.skip(update_body_cursor as int),
                    y,
                )
            &&& strictly_sorted(transform_ids)
            &&& forall|y: u32|
                #[trigger] transform_ids.contains(y) <==> net_modified(
                    v1.transform_events.skip(update_transform_cursor as int),
                    y,
                )
            &&& v2 == update_pos_all(update_fields_all(v1, body_ids), transform_ids)
        };
    lemma_update_fields_all_bodies(v1, bids);
    lemma_update_pos_all_bodies(update_fields_all(v1, bids), tids);
    let ids3 = choose|ids: Seq<u32>|
        {
            &&& strictly_sorted(ids)
            &&& forall|y: u32|
                #[trigger] ids.contains(y) <==> net_removed(
                    v2.body_events.skip(remove_body_cursor as int),
                    y,
                )
            &&& v3 == remove_body_all(v2, ids)
        };
    lemma_remove_body_all_bodies(v2, ids3);
    let ids4 = choose|ids: Seq<u32>|
        {
            &&& strictly_sorted(ids)
            &&& forall|y: u32|
                #[trigger] ids.contains(y) <==> net_inserted(
                    v3.collider_events.skip(add_collider_cursor as int),
                    y,
                )
            &&& v4 == add_collider_all(v3, ids)
        };
    lemma_add_collider_all_bodies(v3, ids4);
    let ids5 = choose|ids: Seq<u32>|
        {
            &&& strictly_sorted(ids)
            &&& forall|y: u32|
                #[trigger] ids.contains(y) <==> net_modified(
                    v4.collider_events.skip(update_collider_cursor as int),
                    y,
                )
            &&& v5 == update_collider_all(v4, ids)
        };
    lemma_update_collider_all_bodies(v4, ids5);
    let ids6 = choose|ids: Seq<u32>|
        {
            &&& strictly_sorted(ids)
            &&& forall|y: u32|
                #[trigger] ids.contains(y) <==> net_removed(
                    v5.collider_events.skip(remove_collider_cursor as int),
                    y,
                )
            &&& v6 == remove_collider_all(v5, ids)
        };
    lemma_remove_collider_all_bodies(v5, ids6);
    let before_feedback = stepper_stage(gravity_stage(v6));
    assert forall|id: u32| #[trigger] before_feedback.bodies.contains_key(id)
        implies id < body_slot_count by {
        assert(v1.bodies.contains_key(id) <==> pre.bodies.contains_key(id));
    }
    lemma_feedback_freshness(before_feedback, body_slot_count);
    if debug_enabled {
        lemma_debug_keeps_positions_synced(
            crate::systems::sync_positions::feedback_stage(before_feedback, body_slot_count),
            collider_slot_count,
        );
    }
}

} // verus!
