//! The synchronizer stages, their shared resources, and the tick driver.
//!
//! One game tick runs the stages in a fixed order: body synchronization
//! (add, update, remove), collider synchronization (add, update, remove),
//! gravity synchronization, the simulation step, and position feedback.
//! The order is a hard invariant: colliders resolve their parent against
//! the body handles written earlier in the same tick, the step sees the
//! tick's complete set of changes, and feedback reads the state produced
//! by that same step.

use vstd::prelude::*;

use crate::body::{PhysicsBody, PhysicsBodyHandles};
use crate::collider::{PhysicsCollider, PhysicsColliderHandles};
use crate::ecs::{
    net_inserted, net_modified, net_removed, has_modified, ComponentEvent, IdSet, Parent, ReaderId,
    TrackedStorage, Transform,
};
use crate::math::Vector3;
use crate::world::{
    BodyHandle, ColliderHandle, ContactEvent, PhysicsWorld, ProximityEvent, WorldV,
};
use crate::systems::add_colliders::{collider_add_stage, AddCollidersSystem};
use crate::systems::add_rigid_bodies::{body_add_stage, AddRigidBodiesSystem};
use crate::systems::debug::{debug_stage, DebugLine, DebugLines, DebugSystem};
use crate::systems::physics_stepper::{stepper_stage, PhysicsStepperSystem};
use crate::systems::remove_colliders::{collider_remove_stage, RemoveCollidersSystem};
use crate::systems::remove_rigid_bodies::{body_remove_stage, RemoveRigidBodiesSystem};
use crate::systems::sync_gravity::{gravity_stage, SyncGravitySystem};
use crate::systems::sync_positions::{feedback_stage, SyncPositionsSystem};
use crate::systems::update_colliders::{collider_update_stage, UpdateCollidersSystems};
use crate::systems::update_rigid_bodies::{body_update_stage, UpdateRigidBodiesSystems};

pub mod add_colliders;
pub mod add_rigid_bodies;
pub mod debug;
pub mod remove_colliders;
pub mod physics_stepper;
pub mod remove_rigid_bodies;
pub mod sync_gravity;
pub mod sync_positions;
pub mod update_colliders;
pub mod update_rigid_bodies;

verus! {

broadcast use vstd::std_specs::hash::group_hash_axioms;

/// Everything a tick operates on: the component storages, the two handle
/// mapping tables, the physics world, the gravity resource, and the sinks
/// that observers consume.
pub struct Resources {
    pub transforms: TrackedStorage<Transform>,
    pub parents: TrackedStorage<Parent>,
    pub physics_bodies: TrackedStorage<PhysicsBody>,
    pub physics_colliders: TrackedStorage<PhysicsCollider>,
    pub body_handles: PhysicsBodyHandles,
    pub collider_handles: PhysicsColliderHandles,
    pub world: PhysicsWorld,
    pub gravity: crate::Gravity,
    pub contact_sink: Vec<ContactEvent>,
    pub proximity_sink: Vec<ProximityEvent>,
    pub debug_lines: DebugLines,
}

/// The mathematical value of [`Resources`].
#[verifier::ext_equal]
pub ghost struct ResourcesV {
    pub transforms: Map<u32, Transform>,
    pub transform_events: Seq<ComponentEvent>,
    pub parents: Map<u32, Parent>,
    pub parent_events: Seq<ComponentEvent>,
    pub bodies: Map<u32, PhysicsBody>,
    pub body_events: Seq<ComponentEvent>,
    pub colliders: Map<u32, PhysicsCollider>,
    pub collider_events: Seq<ComponentEvent>,
    pub body_handles: Map<u32, BodyHandle>,
    pub collider_handles: Map<u32, ColliderHandle>,
    pub world: WorldV,
    pub gravity: Vector3,
    pub contact_sink: Seq<ContactEvent>,
    pub proximity_sink: Seq<ProximityEvent>,
    pub debug_lines: Seq<DebugLine>,
}

impl View for Resources {
    type V = ResourcesV;

    open spec fn view(&self) -> ResourcesV {
        ResourcesV {
            transforms: self.transforms.components(),
            transform_events: self.transforms.events@,
            parents: self.parents.components(),
            parent_events: self.parents.events@,
            bodies: self.physics_bodies.components(),
            body_events: self.physics_bodies.events@,
            colliders: self.physics_colliders.components(),
            collider_events: self.physics_colliders.events@,
            body_handles: self.body_handles@,
            collider_handles: self.collider_handles@,
            world: self.world@,
            gravity: self.gravity,
            contact_sink: self.contact_sink@,
            proximity_sink: self.proximity_sink@,
            debug_lines: self.debug_lines.lines@,
        }
    }
}

impl ResourcesV {
    /// The bridge's central consistency invariant, maintained across every
    /// stage and every tick:
    /// - the world itself is well formed (positive step frequency, every
    ///   live collider attached to the ground or a live body);
    /// - every body-table entry refers to a live world body carrying the
    ///   entity's own index as user data — so distinct entity ids always
    ///   hold distinct body handles;
    /// - every collider-table entry whose object is still alive carries
    ///   the entity's own index as user data, and distinct entity ids hold
    ///   distinct collider handles even when the objects have been
    ///   destroyed with their parent body, and always refer into the
    ///   world's collider slab (slots are never reused, so an index can
    ///   only dangle, never alias a stranger's object).
    pub open spec fn consistent(self) -> bool {
        &&& self.world.wf()
        &&& forall|id: u32|
            #[trigger] self.body_handles.contains_key(id) ==> self.world.body_is_live(
                self.body_handles[id],
            ) && self.world.spec_body(self.body_handles[id]).user_data == id
        &&& forall|id: u32|
            #[trigger] self.collider_handles.contains_key(id) && self.world.collider_is_live(
                self.collider_handles[id],
            ) ==> self.world.spec_collider(self.collider_handles[id]).user_data == id
        &&& forall|id1: u32, id2: u32|
            self.collider_handles.contains_key(id1) && self.collider_handles.contains_key(id2)
                && #[trigger] self.collider_handles[id1] == #[trigger] self.collider_handles[id2]
                ==> id1 == id2
        &&& forall|id: u32|
            #[trigger] self.collider_handles.contains_key(id) ==> self.collider_handles[id].index
                < self.world.colliders.len()
    }
}

impl Resources {
    /// Fresh resources: empty storages and tables, an empty world, zero
    /// gravity, and empty sinks.
    pub fn new() -> (r: Resources)
        ensures
            r@.transforms == Map::<u32, Transform>::empty(),
            r@.transform_events == Seq::<ComponentEvent>::empty(),
            r@.parents == Map::<u32, Parent>::empty(),
            r@.parent_events == Seq::<ComponentEvent>::empty(),
            r@.bodies == Map::<u32, PhysicsBody>::empty(),
            r@.body_events == Seq::<ComponentEvent>::empty(),
            r@.colliders == Map::<u32, PhysicsCollider>::empty(),
            r@.collider_events == Seq::<ComponentEvent>::empty(),
            r@.body_handles == Map::<u32, BodyHandle>::empty(),
            r@.collider_handles == Map::<u32, ColliderHandle>::empty(),
            r@.world == PhysicsWorld::new_spec(),
            r@.gravity == (Vector3 { x: 0, y: 0, z: 0 }),
            r@.contact_sink == Seq::<ContactEvent>::empty(),
            r@.proximity_sink == Seq::<ProximityEvent>::empty(),
            r@.debug_lines == Seq::<DebugLine>::empty(),
            r@.consistent(),
    {
        Resources {
            transforms: TrackedStorage::new(),
            parents: TrackedStorage::new(),
            physics_bodies: TrackedStorage::new(),
            physics_colliders: TrackedStorage::new(),
            body_handles: PhysicsBodyHandles::new(),
            collider_handles: PhysicsColliderHandles::new(),
            world: PhysicsWorld::new(),
            gravity: Vector3::zeros(),
            contact_sink: Vec::new(),
            proximity_sink: Vec::new(),
            debug_lines: DebugLines::new(),
        }
    }
}

/// What every synchronizer stage leaves untouched: no stage creates or
/// destroys component slots (so the storages keep their extent), change
/// logs are append-only, and the fixed step frequency is never changed by
/// the bridge itself.
pub open spec fn preserves_shape(a: Resources, b: Resources) -> bool {
    &&& b.transforms.slots@.len() == a.transforms.slots@.len()
    &&& b.parents.slots@.len() == a.parents.slots@.len()
    &&& b.physics_bodies.slots@.len() == a.physics_bodies.slots@.len()
    &&& b.physics_colliders.slots@.len() == a.physics_colliders.slots@.len()
    &&& b.transforms.events@.len() >= a.transforms.events@.len()
    &&& b.parents.events@.len() >= a.parents.events@.len()
    &&& b.physics_bodies.events@.len() >= a.physics_bodies.events@.len()
    &&& b.physics_colliders.events@.len() >= a.physics_colliders.events@.len()
    &&& b.world.steps_per_second == a.world.steps_per_second
}

/// Scans the event window `events[start ..]` once and classifies it into
/// the three disjoint id sets: net-inserted, net-modified, net-removed.
fn classify_events(events: &Vec<ComponentEvent>, start: usize) -> (r: (IdSet, IdSet, IdSet))
    requires
        start <= events@.len(),
    ensures
        r.0.wf() && r.1.wf() && r.2.wf(),
        forall|y: u32| r.0.has(y) <==> net_inserted(events@.skip(start as int), y),
        forall|y: u32| r.1.has(y) <==> net_modified(events@.skip(start as int), y),
        forall|y: u32| r.2.has(y) <==> net_removed(events@.skip(start as int), y),
{
    let mut ins = IdSet::new();
    let mut raw = IdSet::new();
    let mut rem = IdSet::new();
    let mut k: usize = start;
    while k < events.len()
        invariant
            start <= k <= events@.len(),
            ins.wf() && raw.wf() && rem.wf(),
            forall|y: u32| ins.has(y) <==> net_inserted(events@.subrange(start as int, k as int), y),
            forall|y: u32| raw.has(y) <==> has_modified(events@.subrange(start as int, k as int), y),
            forall|y: u32| rem.has(y) <==> net_removed(events@.subrange(start as int, k as int), y),
        decreases events@.len() - k,
    {
        let ev = events[k];
        proof {
            assert(events@.subrange(start as int, k as int + 1).drop_last() =~= events@.subrange(
                start as int,
                k as int,
            ));
            assert(events@.subrange(start as int, k as int + 1).last() == events@[k as int]);
        }
        match ev {
            ComponentEvent::Inserted(id) => {
                ins.insert(id);
                rem.remove_id(id);
            },
            ComponentEvent::Modified(id) => {
                raw.insert(id);
            },
            ComponentEvent::Removed(id) => {
                rem.insert(id);
                ins.remove_id(id);
            },
        }
        k = k + 1;
    }
    proof {
        assert(events@.subrange(start as int, events@.len() as int) =~= events@.skip(start as int));
    }
    let mut net_mod = IdSet::new();
    let mut i: usize = 0;
    while i < raw.len()
        invariant
            i <= raw@.len(),
            raw.wf() && ins.wf() && rem.wf() && net_mod.wf(),
            forall|y: u32| ins.has(y) <==> net_inserted(events@.skip(start as int), y),
            forall|y: u32| raw.has(y) <==> has_modified(events@.skip(start as int), y),
            forall|y: u32| rem.has(y) <==> net_removed(events@.skip(start as int), y),
            forall|y: u32|
                net_mod.has(y) <==> raw@.take(i as int).contains(y) && !ins.has(y) && !rem.has(y),
        decreases raw@.len() - i,
    {
        proof {
            broadcast use vstd::seq_lib::lemma_seq_contains_after_push;

            assert(raw@.take(i as int + 1) =~= raw@.take(i as int).push(raw@[i as int]));
        }
        let y = raw.idx(i);
        if !ins.contains(y) && !rem.contains(y) {
            net_mod.insert(y);
        }
        i = i + 1;
    }
    proof {
        assert(i == raw@.len());
        assert(raw@.take(i as int) =~= raw@);
        assert forall|y: u32| net_mod.has(y) <==> net_modified(
            events@.skip(start as int),
            y,
        ) by {
            assert(net_mod.has(y) <==> raw@.take(i as int).contains(y) && !ins.has(y) && !rem.has(
                y,
            ));
            assert(raw@.contains(y) == raw.has(y));
        }
    }
    (ins, net_mod, rem)
}

/// Collects the ids whose component of kind `T` was inserted (and not
/// removed again) since the reader last asked, and advances the reader's
/// cursor past the whole window.
pub fn inserted_components<T>(
    tracked_storage: &TrackedStorage<T>,
    reader_id: &mut ReaderId,
) -> (r: IdSet)
    requires
        old(reader_id).cursor <= tracked_storage.events@.len(),
    ensures
        r.wf(),
        forall|y: u32|
            r.has(y) <==> net_inserted(
                tracked_storage.events@.skip(old(reader_id).cursor as int),
                y,
            ),
        final(reader_id).cursor == tracked_storage.events@.len(),
{
    let (ins, _net_mod, _rem) = classify_events(&tracked_storage.events, reader_id.cursor);
    reader_id.cursor = tracked_storage.events.len();
    ins
}

/// Collects the ids whose component of kind `T` was modified in place
/// (with no insert or removal taking precedence) since the reader last
/// asked, and advances the reader's cursor past the whole window.
pub fn modified_components<T>(
    tracked_storage: &TrackedStorage<T>,
    reader_id: &mut ReaderId,
) -> (r: IdSet)
    requires
        old(reader_id).cursor <= tracked_storage.events@.len(),
    ensures
        r.wf(),
        forall|y: u32|
            r.has(y) <==> net_modified(
                tracked_storage.events@.skip(old(reader_id).cursor as int),
                y,
            ),
        final(reader_id).cursor == tracked_storage.events@.len(),
{
    let (_ins, net_mod, _rem) = classify_events(&tracked_storage.events, reader_id.cursor);
    reader_id.cursor = tracked_storage.events.len();
    net_mod
}

/// Collects the ids whose component of kind `T` was removed (even when it
/// was inserted within the same window) since the reader last asked, and
/// advances the reader's cursor past the whole window.
pub fn removed_components<T>(
    tracked_storage: &TrackedStorage<T>,
    reader_id: &mut ReaderId,
) -> (r: IdSet)
    requires
        old(reader_id).cursor <= tracked_storage.events@.len(),
    ensures
        r.wf(),
        forall|y: u32|
            r.has(y) <==> net_removed(
                tracked_storage.events@.skip(old(reader_id).cursor as int),
                y,
            ),
        final(reader_id).cursor == tracked_storage.events@.len(),
{
    let (_ins, _net_mod, rem) = classify_events(&tracked_storage.events, reader_id.cursor);
    reader_id.cursor = tracked_storage.events.len();
    rem
}

/// One whole tick, relationally: the seven change-driven stages run in
/// the mandated order (body add, body/transform update, body remove,
/// collider add, collider update, collider remove), each consuming its
/// own reader's window, then gravity synchronization, the step, position
/// feedback, and — when enabled — the debug overlay.
pub open spec fn tick_rel(
    pre: ResourcesV,
    post: ResourcesV,
    add_body_cursor: nat,
    update_body_cursor: nat,
    update_transform_cursor: nat,
    remove_body_cursor: nat,
    add_collider_cursor: nat,
    update_collider_cursor: nat,
    remove_collider_cursor: nat,
    body_slot_count: nat,
    collider_slot_count: nat,
    debug_enabled: bool,
) -> bool {
    exists|
        v1: ResourcesV,
        v2: ResourcesV,
        v3: ResourcesV,
        v4: ResourcesV,
        v5: ResourcesV,
        v6: ResourcesV,
    |
        #![trigger body_add_stage(pre, v1, add_body_cursor),
            body_update_stage(v1, v2, update_body_cursor, update_transform_cursor),
            body_remove_stage(v2, v3, remove_body_cursor),
            collider_add_stage(v3, v4, add_collider_cursor),
            collider_update_stage(v4, v5, update_collider_cursor),
            collider_remove_stage(v5, v6, remove_collider_cursor)]
        {
            &&& body_add_stage(pre, v1, add_body_cursor)
            &&& body_update_stage(v1, v2, update_body_cursor, update_transform_cursor)
            &&& body_remove_stage(v2, v3, remove_body_cursor)
            &&& collider_add_stage(v3, v4, add_collider_cursor)
            &&& collider_update_stage(v4, v5, update_collider_cursor)
            &&& collider_remove_stage(v5, v6, remove_collider_cursor)
            &&& post == if debug_enabled {
                debug_stage(
                    feedback_stage(stepper_stage(gravity_stage(v6)), body_slot_count),
                    collider_slot_count,
                )
            } else {
                feedback_stage(stepper_stage(gravity_stage(v6)), body_slot_count)
            }
        }
}

/// Bundle containing every system relevant to the game physics; building
/// it yields the tick driver with all change-log readers registered.
pub struct PhysicsBundle {
    pub debug_lines: bool,
}

impl Default for PhysicsBundle {
    /// A bundle with the debug overlay disabled.
    fn default() -> (r: Self)
        ensures
            !r.debug_lines,
    {
        PhysicsBundle { debug_lines: false }
    }
}

impl PhysicsBundle {
    /// Enables the debug overlay system, which draws line segments around
    /// rectangle collider shapes.
    pub fn with_debug_lines(self) -> (r: Self)
        ensures
            r.debug_lines,
    {
        PhysicsBundle { debug_lines: true }
    }

    /// Builds the tick driver: every synchronizer stage in its place, each
    /// with a fresh reader on the change log it consumes.
    pub fn build(self, res: &Resources) -> (d: PhysicsDispatcher)
        ensures
            d.ready(*res),
            d.debug_lines == self.debug_lines,
            d.add_rigid_bodies_system.physics_bodies_reader_id == Some(
                ReaderId { cursor: res.physics_bodies.events@.len() as usize },
            ),
            d.update_rigid_bodies_system.physics_bodies_reader_id == Some(
                ReaderId { cursor: res.physics_bodies.events@.len() as usize },
            ),
            d.update_rigid_bodies_system.transforms_reader_id == Some(
                ReaderId { cursor: res.transforms.events@.len() as usize },
            ),
            d.remove_rigid_bodies_system.physics_bodies_reader_id == Some(
                ReaderId { cursor: res.physics_bodies.events@.len() as usize },
            ),
            d.add_colliders_system.physics_colliders_reader_id == Some(
                ReaderId { cursor: res.physics_colliders.events@.len() as usize },
            ),
            d.update_colliders_system.physics_colliders_reader_id == Some(
                ReaderId { cursor: res.physics_colliders.events@.len() as usize },
            ),
            d.remove_colliders_system.physics_colliders_reader_id == Some(
                ReaderId { cursor: res.physics_colliders.events@.len() as usize },
            ),
    {
        let mut add_rigid_bodies_system = AddRigidBodiesSystem::default();
        add_rigid_bodies_system.setup(res);
        let mut update_rigid_bodies_system = UpdateRigidBodiesSystems::default();
        update_rigid_bodies_system.setup(res);
        let mut remove_rigid_bodies_system = RemoveRigidBodiesSystem::default();
        remove_rigid_bodies_system.setup(res);
        let mut add_colliders_system = AddCollidersSystem::default();
        add_colliders_system.setup(res);
        let mut update_colliders_system = UpdateCollidersSystems::default();
        update_colliders_system.setup(res);
        let mut remove_colliders_system = RemoveCollidersSystem::default();
        remove_colliders_system.setup(res);
        PhysicsDispatcher {
            debug_lines: self.debug_lines,
            add_rigid_bodies_system,
            update_rigid_bodies_system,
            remove_rigid_bodies_system,
            add_colliders_system,
            update_colliders_system,
            remove_colliders_system,
            sync_gravity_system: SyncGravitySystem::default(),
            physics_stepper_system: PhysicsStepperSystem::default(),
            sync_positions_system: SyncPositionsSystem::default(),
            debug_system: DebugSystem::default(),
        }
    }
}

/// The tick driver: owns every stage and runs one fixed-rate tick as a
/// strictly ordered sequence. No stage runs concurrently with another, so
/// the world, the handle tables and the change-log cursors need no
/// locking — mutual exclusion is structural.
pub struct PhysicsDispatcher {
    pub debug_lines: bool,
    pub add_rigid_bodies_system: AddRigidBodiesSystem,
    pub update_rigid_bodies_system: UpdateRigidBodiesSystems,
    pub remove_rigid_bodies_system: RemoveRigidBodiesSystem,
    pub add_colliders_system: AddCollidersSystem,
    pub update_colliders_system: UpdateCollidersSystems,
    pub remove_colliders_system: RemoveCollidersSystem,
    pub sync_gravity_system: SyncGravitySystem,
    pub physics_stepper_system: PhysicsStepperSystem,
    pub sync_positions_system: SyncPositionsSystem,
    pub debug_system: DebugSystem,
}

impl PhysicsDispatcher {
    /// Whether every stage's reader is registered and in range for the
    /// given resources.
    pub open spec fn ready(self, res: Resources) -> bool {
        &&& self.add_rigid_bodies_system.ready(res)
        &&& self.update_rigid_bodies_system.ready(res)
        &&& self.remove_rigid_bodies_system.ready(res)
        &&& self.add_colliders_system.ready(res)
        &&& self.update_colliders_system.ready(res)
        &&& self.remove_colliders_system.ready(res)
    }

    /// Runs one tick in the mandated order. Reordering would break
    /// correctness: colliders resolve their parents against this tick's
    /// body handles, the step must see the tick's complete set of
    /// changes, and feedback must read the positions this tick's step
    /// produced.
    pub fn dispatch(&mut self, res: &mut Resources)
        requires
            old(self).ready(*old(res)),
            old(res)@.world.wf(),
            old(res).physics_bodies.slots@.len() <= u32::MAX as int + 1,
            old(res).physics_colliders.slots@.len() <= u32::MAX as int + 1,
        ensures
            final(self).ready(*final(res)),
            final(self).debug_lines == old(self).debug_lines,
            preserves_shape(*old(res), *final(res)),
            final(res)@.world.wf(),
            tick_rel(
                old(res)@,
                final(res)@,
                old(self).add_rigid_bodies_system.physics_bodies_reader_id->0.cursor as nat,
                old(self).update_rigid_bodies_system.physics_bodies_reader_id->0.cursor as nat,
                old(self).update_rigid_bodies_system.transforms_reader_id->0.cursor as nat,
                old(self).remove_rigid_bodies_system.physics_bodies_reader_id->0.cursor as nat,
                old(self).add_colliders_system.physics_colliders_reader_id->0.cursor as nat,
                old(self).update_colliders_system.physics_colliders_reader_id->0.cursor as nat,
                old(self).remove_colliders_system.physics_colliders_reader_id->0.cursor as nat,
                old(res).physics_bodies.slots@.len() as nat,
                old(res).physics_colliders.slots@.len() as nat,
                old(self).debug_lines,
            ),
            crate::laws::positions_synced(final(res)@),
            old(res)@.consistent() && old(res)@.world.bodies.len() + 0x1_0000_0000 <= usize::MAX
                && old(res)@.world.colliders.len() + 0x1_0000_0000 <= usize::MAX
                ==> final(res)@.consistent(),
    {
        self.add_rigid_bodies_system.run(res);
        let ghost v1 = res@;
        self.update_rigid_bodies_system.run(res);
        let ghost v2 = res@;
        self.remove_rigid_bodies_system.run(res);
        let ghost v3 = res@;
        self.add_colliders_system.run(res);
        let ghost v4 = res@;
        self.update_colliders_system.run(res);
        let ghost v5 = res@;
        self.remove_colliders_system.run(res);
        let ghost v6 = res@;
        self.sync_gravity_system.run(res);
        self.physics_stepper_system.run(res);
        self.sync_positions_system.run(res);
        if self.debug_lines {
            self.debug_system.run(res);
        }
        proof {
            assert(body_add_stage(
                old(res)@,
                v1,
                old(self).add_rigid_bodies_system.physics_bodies_reader_id->0.cursor as nat,
            ));
            assert(res@ == if old(self).debug_lines {
                debug_stage(
                    feedback_stage(
                        stepper_stage(gravity_stage(v6)),
                        old(res).physics_bodies.slots@.len() as nat,
                    ),
                    old(res).physics_colliders.slots@.len() as nat,
                )
            } else {
                feedback_stage(
                    stepper_stage(gravity_stage(v6)),
                    old(res).physics_bodies.slots@.len() as nat,
                )
            });
            let c_add = old(self).add_rigid_bodies_system.physics_bodies_reader_id->0.cursor as nat;
            let c_upd = old(
                self,
            ).update_rigid_bodies_system.physics_bodies_reader_id->0.cursor as nat;
            let c_updt = old(self).update_rigid_bodies_system.transforms_reader_id->0.cursor as nat;
            let c_rem = old(
                self,
            ).remove_rigid_bodies_system.physics_bodies_reader_id->0.cursor as nat;
            let c_cadd = old(self).add_colliders_system.physics_colliders_reader_id->0.cursor as nat;
            let c_cupd = old(
                self,
            ).update_colliders_system.physics_colliders_reader_id->0.cursor as nat;
            let c_crem = old(
                self,
            ).remove_colliders_system.physics_colliders_reader_id->0.cursor as nat;
            let nb = old(res).physics_bodies.slots@.len() as nat;
            let nc = old(res).physics_colliders.slots@.len() as nat;
            assert forall|id: u32| #[trigger] old(res)@.bodies.contains_key(id) implies id
                < nb by {
                assert(old(res).physics_bodies.contains_spec(id));
            }
            crate::laws::lemma_tick_feedback_fresh(
                old(res)@,
                res@,
                c_add,
                c_upd,
                c_updt,
                c_rem,
                c_cadd,
                c_cupd,
                c_crem,
                nb,
                nc,
                old(self).debug_lines,
            );
            if old(res)@.consistent() && old(res)@.world.bodies.len() + 0x1_0000_0000 <= usize::MAX
                && old(res)@.world.colliders.len() + 0x1_0000_0000 <= usize::MAX {
                crate::laws::lemma_tick_preserves_handle_uniqueness(
                    old(res)@,
                    res@,
                    c_add,
                    c_upd,
                    c_updt,
                    c_rem,
                    c_cadd,
                    c_cupd,
                    c_crem,
                    nb,
                    nc,
                    old(self).debug_lines,
                );
            }
        }
    }
}

} // verus!
