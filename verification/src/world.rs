//! The explicitly owned physics world: rigid bodies, colliders, global
//! parameters, and the fixed-timestep integration step.
//!
//! The world is a model of the underlying simulation at the granularity
//! this bridge observes: objects live in slab slots addressed by handles,
//! the step advances each movable body by its velocity (and gravity, when
//! enabled) over one fixed timestep, and two event queues hand contact and
//! proximity notifications to whoever drains them. Narrow-phase collision
//! detection and constraint solving are out of scope: the step itself
//! never synthesizes contact events or resolves penetrations.
//!
//! The fixed timestep is kept as its inverse, a whole number of steps per
//! second, so the velocity unit conversions either way are exact.

use vstd::prelude::*;

use crate::body::BodyStatus;
use crate::collider::{CollisionGroups, Material, ShapeHandle};
use crate::math::{Matrix3, Vector3};

verus! {

/// A reference to a rigid body's slab slot. Slots are never reused, so a
/// handle never silently starts referring to a different object.
#[derive(Clone, Copy, Debug, PartialEq, Eq, Structural)]
pub struct BodyHandle {
    pub index: usize,
}

/// A reference to a collider's slab slot; never reused either.
#[derive(Clone, Copy, Debug, PartialEq, Eq, Structural)]
pub struct ColliderHandle {
    pub index: usize,
}

/// The attachment point of a collider: a rigid body, or the immovable
/// ground frame when no dynamic parent exists.
#[derive(Clone, Copy, Debug, PartialEq, Eq, Structural)]
pub enum BodyPartHandle {
    Ground,
    Body(BodyHandle),
}

impl BodyPartHandle {
    /// Whether this is the ground frame.
    pub fn is_ground(&self) -> (r: bool)
        ensures
            r == (*self == BodyPartHandle::Ground),
    {
        match *self {
            BodyPartHandle::Ground => true,
            BodyPartHandle::Body(_) => false,
        }
    }
}

/// A simulated rigid body. `velocity` is a true per-second rate (unlike
/// the component-side velocity, which is per tick); `user_data` carries
/// the owning entity's index for reverse lookup from events.
#[derive(Clone, Copy, Debug, PartialEq, Eq, Structural)]
pub struct RigidBody {
    pub position: Vector3,
    pub gravity_enabled: bool,
    pub status: BodyStatus,
    pub velocity: Vector3,
    pub angular_inertia: Matrix3,
    pub mass: i64,
    pub local_center_of_mass: Vector3,
    pub user_data: u32,
}

/// A simulated collider, attached to a body part or to the ground frame.
/// `translation` is relative to the parent part, or absolute when the
/// parent is the ground; `user_data` carries the owning entity's index.
#[derive(Clone, Copy, Debug, PartialEq, Eq, Structural)]
pub struct Collider {
    pub parent: BodyPartHandle,
    pub translation: Vector3,
    pub shape: ShapeHandle,
    pub density: i64,
    pub material: Material,
    pub margin: i64,
    pub collision_groups: CollisionGroups,
    pub linear_prediction: i64,
    pub angular_prediction: i64,
    pub sensor: bool,
    pub user_data: u32,
}

/// A solid collision began or ended between two colliders.
#[derive(Clone, Copy, Debug, PartialEq, Eq, Structural)]
pub struct ContactEvent {
    pub collider1: ColliderHandle,
    pub collider2: ColliderHandle,
    pub started: bool,
}

/// A sensor overlap began or ended between two colliders.
#[derive(Clone, Copy, Debug, PartialEq, Eq, Structural)]
pub struct ProximityEvent {
    pub collider1: ColliderHandle,
    pub collider2: ColliderHandle,
    pub started: bool,
}

/// The mathematical value of a [`PhysicsWorld`].
#[verifier::ext_equal]
pub ghost struct WorldV {
    pub bodies: Seq<Option<RigidBody>>,
    pub colliders: Seq<Option<Collider>>,
    pub gravity: Vector3,
    pub steps_per_second: u32,
    pub gravity_sets: u64,
    pub contact_events: Seq<ContactEvent>,
    pub proximity_events: Seq<ProximityEvent>,
}

impl WorldV {
    /// A handle refers to a live body slot.
    pub open spec fn body_is_live(self, h: BodyHandle) -> bool {
        h.index < self.bodies.len() && self.bodies[h.index as int] is Some
    }

    /// The body in a live slot.
    pub open spec fn spec_body(self, h: BodyHandle) -> RigidBody
        recommends
            self.body_is_live(h),
    {
        self.bodies[h.index as int]->0
    }

    /// A handle refers to a live collider slot.
    pub open spec fn collider_is_live(self, h: ColliderHandle) -> bool {
        h.index < self.colliders.len() && self.colliders[h.index as int] is Some
    }

    /// The collider in a live slot.
    pub open spec fn spec_collider(self, h: ColliderHandle) -> Collider
        recommends
            self.collider_is_live(h),
    {
        self.colliders[h.index as int]->0
    }

    /// An attachment point is valid: the ground, or a live body.
    pub open spec fn parent_is_live(self, p: BodyPartHandle) -> bool {
        match p {
            BodyPartHandle::Ground => true,
            BodyPartHandle::Body(h) => self.body_is_live(h),
        }
    }

    /// Well-formedness: the step frequency is positive and every live
    /// collider is attached to the ground or to a live body.
    pub open spec fn wf(self) -> bool {
        &&& self.steps_per_second >= 1
        &&& forall|k: int|
            0 <= k < self.colliders.len() && self.colliders[k] is Some
                ==> self.parent_is_live((#[trigger] self.colliders[k])->0.parent)
    }

    /// The world after a gravity write: the vector is replaced and the
    /// write counter advances (saturating).
    pub open spec fn with_gravity(self, g: Vector3) -> WorldV {
        WorldV {
            gravity: g,
            gravity_sets: if self.gravity_sets < u64::MAX {
                (self.gravity_sets + 1) as u64
            } else {
                u64::MAX
            },
            ..self
        }
    }

    /// The world after a body was created in a fresh slot.
    pub open spec fn with_body_added(self, b: RigidBody) -> WorldV {
        WorldV { bodies: self.bodies.push(Some(b)), ..self }
    }

    /// The world after a live body was replaced in place.
    pub open spec fn with_body(self, h: BodyHandle, b: RigidBody) -> WorldV {
        WorldV { bodies: self.bodies.update(h.index as int, Some(b)), ..self }
    }

    /// Whether a collider slot survives the removal of body `h` (colliders
    /// attached to the removed body are destroyed with it).
    pub open spec fn purged_slot(s: Option<Collider>, h: BodyHandle) -> Option<Collider> {
        match s {
            Option::None => Option::None,
            Option::Some(c) => if c.parent == BodyPartHandle::Body(h) {
                Option::None
            } else {
                Option::Some(c)
            },
        }
    }

    /// The world after a live body was destroyed: its slot empties, and
    /// every collider attached to it is destroyed with it.
    pub open spec fn with_body_removed(self, h: BodyHandle) -> WorldV {
        WorldV {
            bodies: self.bodies.update(h.index as int, None),
            colliders: Seq::new(
                self.colliders.len(),
                |k: int| WorldV::purged_slot(self.colliders[k], h),
            ),
            ..self
        }
    }

    /// The world after a collider was created in a fresh slot.
    pub open spec fn with_collider_added(self, c: Collider) -> WorldV {
        WorldV { colliders: self.colliders.push(Some(c)), ..self }
    }

    /// The world after a live collider was replaced in place.
    pub open spec fn with_collider(self, h: ColliderHandle, c: Collider) -> WorldV {
        WorldV { colliders: self.colliders.update(h.index as int, Some(c)), ..self }
    }

    /// The world after a live collider was destroyed.
    pub open spec fn with_collider_removed(self, h: ColliderHandle) -> WorldV {
        WorldV { colliders: self.colliders.update(h.index as int, None), ..self }
    }

    /// One body after one fixed timestep `dt = 1 / steps_per_second`:
    /// a dynamic body first picks up `gravity * dt` (when enabled), then
    /// moves by `velocity * dt`; a kinematic body moves by `velocity * dt`
    /// unaffected by gravity; static and disabled bodies do not move.
    pub open spec fn stepped_body(b: RigidBody, g: Vector3, hz: u32) -> RigidBody {
        match b.status {
            BodyStatus::Dynamic => {
                let vel = if b.gravity_enabled {
                    b.velocity.spec_add(g.spec_div(hz as int))
                } else {
                    b.velocity
                };
                RigidBody { velocity: vel, position: b.position.spec_add(vel.spec_div(hz as int)), ..b }
            },
            BodyStatus::Kinematic => RigidBody {
                position: b.position.spec_add(b.velocity.spec_div(hz as int)),
                ..b
            },
            _ => b,
        }
    }

    /// A body slot after one fixed timestep.
    pub open spec fn stepped_slot(s: Option<RigidBody>, g: Vector3, hz: u32) -> Option<RigidBody> {
        match s {
            Option::None => Option::None,
            Option::Some(b) => Option::Some(WorldV::stepped_body(b, g, hz)),
        }
    }

    /// The whole world after one fixed timestep: every body integrates;
    /// colliders, parameters and event queues are untouched.
    pub open spec fn stepped(self) -> WorldV {
        WorldV {
            bodies: Seq::new(
                self.bodies.len(),
                |k: int| WorldV::stepped_slot(self.bodies[k], self.gravity, self.steps_per_second),
            ),
            ..self
        }
    }
}

/// The physics world: the single owner of all simulation objects and
/// global parameters. It is passed by reference through the tick driver
/// to each synchronizer stage, never reached through ambient lookup.
pub struct PhysicsWorld {
    pub bodies: Vec<Option<RigidBody>>,
    pub colliders: Vec<Option<Collider>>,
    pub gravity: Vector3,
    pub steps_per_second: u32,
    pub gravity_sets: u64,
    pub contact_events: Vec<ContactEvent>,
    pub proximity_events: Vec<ProximityEvent>,
}

impl View for PhysicsWorld {
    type V = WorldV;

    open spec fn view(&self) -> WorldV {
        WorldV {
            bodies: self.bodies@,
            colliders: self.colliders@,
            gravity: self.gravity,
            steps_per_second: self.steps_per_second,
            gravity_sets: self.gravity_sets,
            contact_events: self.contact_events@,
            proximity_events: self.proximity_events@,
        }
    }
}

impl PhysicsWorld {
    /// The value of a freshly created world: no objects, zero gravity,
    /// and the conventional 60 steps per second.
    pub open spec fn new_spec() -> WorldV {
        WorldV {
            bodies: Seq::<Option<RigidBody>>::empty(),
            colliders: Seq::<Option<Collider>>::empty(),
            gravity: Vector3 { x: 0, y: 0, z: 0 },
            steps_per_second: 60,
            gravity_sets: 0,
            contact_events: Seq::<ContactEvent>::empty(),
            proximity_events: Seq::<ProximityEvent>::empty(),
        }
    }

    /// An empty world: no objects, zero gravity, and the conventional 60
    /// steps per second.
    pub fn new() -> (r: PhysicsWorld)
        ensures
            r@ == PhysicsWorld::new_spec(),
            r@.wf(),
    {
        PhysicsWorld {
            bodies: Vec::new(),
            colliders: Vec::new(),
            gravity: Vector3::zeros(),
            steps_per_second: 60,
            gravity_sets: 0,
            contact_events: Vec::new(),
            proximity_events: Vec::new(),
        }
    }

    /// Replaces the fixed step frequency (`dt = 1 / hz` seconds).
    pub fn set_steps_per_second(&mut self, hz: u32)
        requires
            hz >= 1,
        ensures
            final(self)@ == (WorldV { steps_per_second: hz, ..old(self)@ }),
            old(self)@.wf() ==> final(self)@.wf(),
    {
        self.steps_per_second = hz;
    }

    /// Overwrites the global gravity vector and counts the write.
    pub fn set_gravity(&mut self, g: Vector3)
        ensures
            final(self)@ == old(self)@.with_gravity(g),
            old(self)@.wf() ==> final(self)@.wf(),
    {
        self.gravity = g;
        if self.gravity_sets < u64::MAX {
            self.gravity_sets = self.gravity_sets + 1;
        }
    }

    /// Creates a rigid body in a fresh slot and returns its handle.
    pub fn add_rigid_body(&mut self, b: RigidBody) -> (h: BodyHandle)
        ensures
            final(self)@ == old(self)@.with_body_added(b),
            h.index == old(self)@.bodies.len(),
            final(self)@.body_is_live(h),
            final(self)@.spec_body(h) == b,
            old(self)@.wf() ==> final(self)@.wf(),
    {
        let h = BodyHandle { index: self.bodies.len() };
        self.bodies.push(Some(b));
        h
    }

    /// The body a handle refers to, when it is live.
    pub fn rigid_body(&self, h: BodyHandle) -> (r: Option<&RigidBody>)
        ensures
            match r {
                Some(b) => self@.body_is_live(h) && *b == self@.spec_body(h),
                None => !self@.body_is_live(h),
            },
    {
        if h.index < self.bodies.len() {
            match &self.bodies[h.index] {
                Some(b) => Some(b),
                None => None,
            }
        } else {
            None
        }
    }

    /// Replaces a live body in place.
    pub fn set_rigid_body(&mut self, h: BodyHandle, b: RigidBody)
        requires
            old(self)@.body_is_live(h),
        ensures
            final(self)@ == old(self)@.with_body(h, b),
            old(self)@.wf() ==> final(self)@.wf(),
    {
        self.bodies[h.index] = Some(b);
    }

    /// Destroys a body, together with every collider attached to it; a
    /// defensive no-op when the handle is not live.
    pub fn remove_body(&mut self, h: BodyHandle)
        ensures
            old(self)@.body_is_live(h) ==> final(self)@ == old(self)@.with_body_removed(h),
            !old(self)@.body_is_live(h) ==> *final(self) == *old(self),
            !final(self)@.body_is_live(h),
            old(self)@.wf() ==> final(self)@.wf(),
    {
        if h.index < self.bodies.len() && self.bodies[h.index].is_some() {
            self.bodies[h.index] = None;
            let mut k: usize = 0;
            while k < self.colliders.len()
                invariant
                    k <= self.colliders@.len(),
                    self.colliders@.len() == old(self)@.colliders.len(),
                    self.bodies@ == old(self)@.bodies.update(h.index as int, None::<RigidBody>),
                    self.gravity == old(self).gravity,
                    self.steps_per_second == old(self).steps_per_second,
                    self.gravity_sets == old(self).gravity_sets,
                    self.contact_events == old(self).contact_events,
                    self.proximity_events == old(self).proximity_events,
                    forall|j: int|
                        0 <= j < k ==> #[trigger] self.colliders@[j] == WorldV::purged_slot(
                            old(self)@.colliders[j],
                            h,
                        ),
                    forall|j: int|
                        k <= j < self.colliders@.len() ==> #[trigger] self.colliders@[j] == old(
                            self,
                        )@.colliders[j],
                decreases self.colliders@.len() - k,
            {
                let purge = match &self.colliders[k] {
                    Some(c) => match c.parent {
                        BodyPartHandle::Body(p) => p.index == h.index,
                        BodyPartHandle::Ground => false,
                    },
                    None => false,
                };
                if purge {
                    self.colliders[k] = None;
                }
                k = k + 1;
            }
            proof {
                assert(final(self)@ =~= old(self)@.with_body_removed(h)) by {
                    assert(self.colliders@ =~= old(self)@.with_body_removed(h).colliders);
                }
                assert(old(self)@.wf() ==> final(self)@.wf()) by {
                    if old(self)@.wf() {
                        assert forall|k2: int|
                            0 <= k2 < final(self)@.colliders.len() && final(self)@.colliders[k2]
                                is Some implies final(self)@.parent_is_live(
                            (#[trigger] final(self)@.colliders[k2])->0.parent,
                        ) by {
                            assert(old(self)@.colliders[k2] is Some);
                            assert(old(self)@.parent_is_live(old(self)@.colliders[k2]->0.parent));
                        }
                    }
                }
            }
        }
    }

    /// Creates a collider in a fresh slot, attached to a live parent (or
    /// the ground frame), and returns its handle.
    pub fn add_collider(&mut self, c: Collider) -> (h: ColliderHandle)
        requires
            old(self)@.parent_is_live(c.parent),
        ensures
            final(self)@ == old(self)@.with_collider_added(c),
            h.index == old(self)@.colliders.len(),
            final(self)@.collider_is_live(h),
            final(self)@.spec_collider(h) == c,
            old(self)@.wf() ==> final(self)@.wf(),
    {
        let h = ColliderHandle { index: self.colliders.len() };
        self.colliders.push(Some(c));
        h
    }

    /// The collider a handle refers to, when it is live.
    pub fn collider(&self, h: ColliderHandle) -> (r: Option<&Collider>)
        ensures
            match r {
                Some(c) => self@.collider_is_live(h) && *c == self@.spec_collider(h),
                None => !self@.collider_is_live(h),
            },
    {
        if h.index < self.colliders.len() {
            match &self.colliders[h.index] {
                Some(c) => Some(c),
                None => None,
            }
        } else {
            None
        }
    }

    /// Replaces the collision filtering groups of a live collider.
    pub fn set_collision_groups(&mut self, h: ColliderHandle, collision_groups: CollisionGroups)
        requires
            old(self)@.collider_is_live(h),
        ensures
            final(self)@ == old(self)@.with_collider(
                h,
                Collider { collision_groups, ..old(self)@.spec_collider(h) },
            ),
            old(self)@.wf() ==> final(self)@.wf(),
    {
        let cur = self.colliders[h.index];
        if let Some(c) = cur {
            self.colliders[h.index] = Some(Collider { collision_groups, ..c });
        }
    }

    /// Destroys a collider; a defensive no-op when the handle is not live
    /// (for instance because its parent body was destroyed first).
    pub fn remove_collider(&mut self, h: ColliderHandle)
        ensures
            old(self)@.collider_is_live(h) ==> final(self)@ == old(self)@.with_collider_removed(h),
            !old(self)@.collider_is_live(h) ==> *final(self) == *old(self),
            !final(self)@.collider_is_live(h),
            old(self)@.wf() ==> final(self)@.wf(),
    {
        if h.index < self.colliders.len() && self.colliders[h.index].is_some() {
            self.colliders[h.index] = None;
        }
    }

    /// Advances the simulation by exactly one fixed timestep.
    pub fn step(&mut self)
        requires
            old(self)@.wf(),
        ensures
            final(self)@ == old(self)@.stepped(),
            final(self)@.wf(),
    {
        let g = self.gravity;
        let hz = self.steps_per_second;
        let mut i: usize = 0;
        while i < self.bodies.len()
            invariant
                i <= self.bodies@.len(),
                g == old(self).gravity,
                hz == old(self).steps_per_second,
                hz >= 1,
                self.bodies@.len() == old(self)@.bodies.len(),
                self.colliders == old(self).colliders,
                self.gravity == old(self).gravity,
                self.steps_per_second == old(self).steps_per_second,
                self.gravity_sets == old(self).gravity_sets,
                self.contact_events == old(self).contact_events,
                self.proximity_events == old(self).proximity_events,
                forall|j: int|
                    0 <= j < i ==> #[trigger] self.bodies@[j] == WorldV::stepped_slot(
                        old(self)@.bodies[j],
                        g,
                        hz,
                    ),
                forall|j: int|
                    i <= j < self.bodies@.len() ==> #[trigger] self.bodies@[j] == old(
                        self,
                    )@.bodies[j],
            decreases self.bodies@.len() - i,
        {
            let cur = self.bodies[i];
            if let Some(b) = cur {
                let moved = match b.status {
                    BodyStatus::Dynamic => {
                        let vel = if b.gravity_enabled {
                            b.velocity.add_vec(&g.div_scalar(hz as i64))
                        } else {
                            b.velocity
                        };
                        RigidBody {
                            velocity: vel,
                            position: b.position.add_vec(&vel.div_scalar(hz as i64)),
                            ..b
                        }
                    },
                    BodyStatus::Kinematic => RigidBody {
                        position: b.position.add_vec(&b.velocity.div_scalar(hz as i64)),
                        ..b
                    },
                    _ => b,
                };
                self.bodies[i] = Some(moved);
            }
            i = i + 1;
        }
        proof {
            assert(final(self)@.bodies =~= old(self)@.stepped().bodies);
        }
    }

    /// Hands out all queued contact events and empties the queue.
    pub fn drain_contact_events(&mut self) -> (r: Vec<ContactEvent>)
        ensures
            r@ == old(self)@.contact_events,
            final(self)@ == (WorldV { contact_events: Seq::<ContactEvent>::empty(), ..old(self)@ }),
            old(self)@.wf() ==> final(self)@.wf(),
    {
        let mut out: Vec<ContactEvent> = Vec::new();
        core::mem::swap(&mut self.contact_events, &mut out);
        out
    }

    /// Hands out all queued proximity events and empties the queue.
    pub fn drain_proximity_events(&mut self) -> (r: Vec<ProximityEvent>)
        ensures
            r@ == old(self)@.proximity_events,
            final(self)@ == (WorldV {
                proximity_events: Seq::<ProximityEvent>::empty(),
                ..old(self)@
            }),
            old(self)@.wf() ==> final(self)@.wf(),
    {
        let mut out: Vec<ProximityEvent> = Vec::new();
        core::mem::swap(&mut self.proximity_events, &mut out);
        out
    }
}


/// The world transitions preserve well-formedness; these lemmas restate,
/// at the specification level, what each executable mutator also
/// guarantees, so that proofs about composed transitions can chain them.
impl WorldV {
    /// Adding a body cannot invalidate any collider's attachment.
    pub proof fn lemma_with_body_added_wf(self, b: RigidBody)
        requires
            self.wf(),
        ensures
            self.with_body_added(b).wf(),
    {
        let post = self.with_body_added(b);
        assert forall|k: int|
            0 <= k < post.colliders.len() && post.colliders[k] is Some implies post.parent_is_live(
            (#[trigger] post.colliders[k])->0.parent,
        ) by {
            assert(self.parent_is_live(self.colliders[k]->0.parent));
        }
    }

    /// Replacing a live body in place keeps every live body live.
    pub proof fn lemma_with_body_wf(self, h: BodyHandle, b: RigidBody)
        requires
            self.wf(),
            h.index < self.bodies.len(),
        ensures
            self.with_body(h, b).wf(),
    {
        let post = self.with_body(h, b);
        assert forall|k: int|
            0 <= k < post.colliders.len() && post.colliders[k] is Some implies post.parent_is_live(
            (#[trigger] post.colliders[k])->0.parent,
        ) by {
            assert(self.parent_is_live(self.colliders[k]->0.parent));
        }
    }

    /// Destroying a body destroys the colliders attached to it, so every
    /// surviving collider still has a live attachment.
    pub proof fn lemma_with_body_removed_wf(self, h: BodyHandle)
        requires
            self.wf(),
            h.index < self.bodies.len(),
        ensures
            self.with_body_removed(h).wf(),
    {
        let post = self.with_body_removed(h);
        assert forall|k: int|
            0 <= k < post.colliders.len() && post.colliders[k] is Some implies post.parent_is_live(
            (#[trigger] post.colliders[k])->0.parent,
        ) by {
            assert(self.colliders[k] is Some);
            assert(self.parent_is_live(self.colliders[k]->0.parent));
            assert(post.colliders[k]->0.parent != BodyPartHandle::Body(h));
        }
    }

    /// Adding a collider with a valid attachment keeps the world well
    /// formed.
    pub proof fn lemma_with_collider_added_wf(self, c: Collider)
        requires
            self.wf(),
            self.parent_is_live(c.parent),
        ensures
            self.with_collider_added(c).wf(),
    {
        let post = self.with_collider_added(c);
        assert forall|k: int|
            0 <= k < post.colliders.len() && post.colliders[k] is Some implies post.parent_is_live(
            (#[trigger] post.colliders[k])->0.parent,
        ) by {
            if k < self.colliders.len() {
                assert(self.parent_is_live(self.colliders[k]->0.parent));
            }
        }
    }

    /// Replacing a live collider with one whose attachment is valid keeps
    /// the world well formed.
    pub proof fn lemma_with_collider_wf(self, h: ColliderHandle, c: Collider)
        requires
            self.wf(),
            h.index < self.colliders.len(),
            self.parent_is_live(c.parent),
        ensures
            self.with_collider(h, c).wf(),
    {
        let post = self.with_collider(h, c);
        assert forall|k: int|
            0 <= k < post.colliders.len() && post.colliders[k] is Some implies post.parent_is_live(
            (#[trigger] post.colliders[k])->0.parent,
        ) by {
            if k != h.index {
                assert(self.parent_is_live(self.colliders[k]->0.parent));
            }
        }
    }

    /// Destroying a collider keeps the world well formed.
    pub proof fn lemma_with_collider_removed_wf(self, h: ColliderHandle)
        requires
            self.wf(),
            h.index < self.colliders.len(),
        ensures
            self.with_collider_removed(h).wf(),
    {
        let post = self.with_collider_removed(h);
        assert forall|k: int|
            0 <= k < post.colliders.len() && post.colliders[k] is Some implies post.parent_is_live(
            (#[trigger] post.colliders[k])->0.parent,
        ) by {
            assert(self.parent_is_live(self.colliders[k]->0.parent));
        }
    }

    /// The integration step moves bodies but neither creates nor destroys
    /// them, so every attachment stays valid.
    pub proof fn lemma_stepped_wf(self)
        requires
            self.wf(),
        ensures
            self.stepped().wf(),
    {
        let post = self.stepped();
        assert forall|k: int|
            0 <= k < post.colliders.len() && post.colliders[k] is Some implies post.parent_is_live(
            (#[trigger] post.colliders[k])->0.parent,
        ) by {
            assert(self.parent_is_live(self.colliders[k]->0.parent));
        }
    }
}

} // verus!
