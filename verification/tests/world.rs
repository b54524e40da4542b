//! The model physics world: object lifecycle, the integration step, and
//! the event queues.

use game_physics::body::BodyStatus;
use game_physics::collider::{CollisionGroups, Material, ShapeHandle};
use game_physics::math::{Matrix3, Vector3};
use game_physics::world::{
    BodyPartHandle, Collider, ColliderHandle, ContactEvent, PhysicsWorld, ProximityEvent,
    RigidBody,
};

fn dynamic_body(user_data: u32, velocity: Vector3) -> RigidBody {
    RigidBody {
        position: Vector3::zeros(),
        gravity_enabled: false,
        status: BodyStatus::Dynamic,
        velocity,
        angular_inertia: Matrix3::zeros(),
        mass: 1200,
        local_center_of_mass: Vector3::zeros(),
        user_data,
    }
}

fn ground_collider(user_data: u32) -> Collider {
    Collider {
        parent: BodyPartHandle::Ground,
        translation: Vector3::zeros(),
        shape: ShapeHandle::Ball { radius: 1000 },
        density: 1300,
        material: Material::default(),
        margin: 200,
        collision_groups: CollisionGroups::default(),
        linear_prediction: 2,
        angular_prediction: 87,
        sensor: false,
        user_data,
    }
}

#[test]
fn new_world_defaults() {
    let w = PhysicsWorld::new();
    assert_eq!(w.steps_per_second, 60);
    assert_eq!(w.gravity, Vector3::zeros());
    assert_eq!(w.gravity_sets, 0);
    assert!(w.bodies.is_empty());
    assert!(w.colliders.is_empty());
}

#[test]
fn add_and_look_up_body() {
    let mut w = PhysicsWorld::new();
    let h = w.add_rigid_body(dynamic_body(5, Vector3::zeros()));
    assert_eq!(h.index, 0);
    let rb = w.rigid_body(h).expect("body should be live");
    assert_eq!(rb.user_data, 5);
}

#[test]
fn removing_a_body_destroys_attached_colliders() {
    let mut w = PhysicsWorld::new();
    let hb = w.add_rigid_body(dynamic_body(1, Vector3::zeros()));
    let attached = Collider {
        parent: BodyPartHandle::Body(hb),
        ..ground_collider(2)
    };
    let hc_attached = w.add_collider(attached);
    let hc_ground = w.add_collider(ground_collider(3));
    w.remove_body(hb);
    assert!(w.rigid_body(hb).is_none());
    assert!(w.collider(hc_attached).is_none());
    assert!(w.collider(hc_ground).is_some());
    // Removing again is a defensive no-op.
    w.remove_body(hb);
    assert!(w.rigid_body(hb).is_none());
}

#[test]
fn step_moves_dynamic_body_by_velocity_over_one_timestep() {
    let mut w = PhysicsWorld::new();
    // 5 units per tick authored as a per-second rate of 5000 * 60.
    let h = w.add_rigid_body(dynamic_body(1, Vector3::new(0, 300_000, 0)));
    w.step();
    assert_eq!(w.rigid_body(h).unwrap().position, Vector3::new(0, 5000, 0));
    w.step();
    assert_eq!(w.rigid_body(h).unwrap().position, Vector3::new(0, 10000, 0));
}

#[test]
fn step_moves_kinematic_but_not_static_or_disabled() {
    let mut w = PhysicsWorld::new();
    let vel = Vector3::new(6000, 0, 0);
    let hk = w.add_rigid_body(RigidBody {
        status: BodyStatus::Kinematic,
        ..dynamic_body(1, vel)
    });
    let hs = w.add_rigid_body(RigidBody {
        status: BodyStatus::Static,
        ..dynamic_body(2, vel)
    });
    let hd = w.add_rigid_body(RigidBody {
        status: BodyStatus::Disabled,
        ..dynamic_body(3, vel)
    });
    w.step();
    assert_eq!(w.rigid_body(hk).unwrap().position, Vector3::new(100, 0, 0));
    assert_eq!(w.rigid_body(hs).unwrap().position, Vector3::zeros());
    assert_eq!(w.rigid_body(hd).unwrap().position, Vector3::zeros());
}

#[test]
fn gravity_accelerates_only_enabled_dynamic_bodies() {
    let mut w = PhysicsWorld::new();
    w.set_gravity(Vector3::new(0, -600, 0));
    let on = w.add_rigid_body(RigidBody {
        gravity_enabled: true,
        ..dynamic_body(1, Vector3::zeros())
    });
    let off = w.add_rigid_body(dynamic_body(2, Vector3::zeros()));
    w.step();
    // dv = gravity / hz = -10 per second; displacement = dv / hz = 0.
    assert_eq!(w.rigid_body(on).unwrap().velocity, Vector3::new(0, -10, 0));
    assert_eq!(w.rigid_body(off).unwrap().velocity, Vector3::zeros());
}

#[test]
fn gravity_writes_are_counted() {
    let mut w = PhysicsWorld::new();
    let g = Vector3::new(0, -9810, 0);
    w.set_gravity(g);
    w.set_gravity(g);
    assert_eq!(w.gravity, g);
    assert_eq!(w.gravity_sets, 2);
}

#[test]
fn collision_group_update_requires_live_collider() {
    let mut w = PhysicsWorld::new();
    let hc = w.add_collider(ground_collider(1));
    let groups = CollisionGroups {
        membership: 0b100,
        whitelist: 0b100,
        blacklist: 0,
    };
    w.set_collision_groups(hc, groups);
    assert_eq!(w.collider(hc).unwrap().collision_groups, groups);
}

#[test]
fn event_queues_drain_once() {
    let mut w = PhysicsWorld::new();
    let a = ColliderHandle { index: 0 };
    let b = ColliderHandle { index: 1 };
    w.contact_events.push(ContactEvent {
        collider1: a,
        collider2: b,
        started: true,
    });
    w.proximity_events.push(ProximityEvent {
        collider1: a,
        collider2: b,
        started: false,
    });
    let contacts = w.drain_contact_events();
    let proximities = w.drain_proximity_events();
    assert_eq!(contacts.len(), 1);
    assert!(contacts[0].started);
    assert_eq!(proximities.len(), 1);
    assert!(!proximities[0].started);
    assert!(w.drain_contact_events().is_empty());
    assert!(w.drain_proximity_events().is_empty());
}
