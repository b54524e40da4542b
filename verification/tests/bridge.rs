//! Full-tick scenarios through the bundle and dispatcher.

use game_physics::body::{BodyStatus, PhysicsBodyBuilder};
use game_physics::collider::{CollisionGroups, Isometry, PhysicsColliderBuilder, Shape};
use game_physics::ecs::{Entity, Parent, Transform};
use game_physics::math::Vector3;
use game_physics::systems::{PhysicsBundle, PhysicsDispatcher, Resources};
use game_physics::world::{BodyPartHandle, ColliderHandle, ContactEvent};

fn setup() -> (Resources, PhysicsDispatcher) {
    let res = Resources::new();
    let dispatcher = PhysicsBundle::default().build(&res);
    (res, dispatcher)
}

#[test]
fn end_to_end_dynamic_body() {
    let (mut res, mut dispatcher) = setup();
    // Entity 1: a dynamic body authored to move 5 units (5000 milliunits)
    // per tick, starting at the origin.
    res.transforms.insert(1, Transform::from_translation(Vector3::zeros()));
    res.physics_bodies.insert(
        1,
        PhysicsBodyBuilder::from(BodyStatus::Dynamic)
            .velocity(Vector3::new(0, 5000, 0))
            .build(),
    );
    dispatcher.dispatch(&mut res);

    // By the end of the tick a handle exists, the world velocity is the
    // authored displacement times the step frequency, and the transform
    // already reflects the first step.
    let h = *res.body_handles.get(&1).expect("body handle should exist");
    let rb = res.world.rigid_body(h).expect("body should be live");
    assert_eq!(rb.velocity, Vector3::new(0, 300_000, 0));
    assert_eq!(res.physics_bodies.get(1).unwrap().handle, Some(h));
    assert_eq!(
        res.transforms.get(1).unwrap().translation,
        Vector3::new(0, 5000, 0)
    );

    // One tick later the entity has moved by another 5 units.
    dispatcher.dispatch(&mut res);
    assert_eq!(
        res.transforms.get(1).unwrap().translation,
        Vector3::new(0, 10000, 0)
    );
}

#[test]
fn velocity_written_as_rate_and_recovered_by_timestep() {
    let (mut res, mut dispatcher) = setup();
    res.transforms.insert(1, Transform::from_translation(Vector3::zeros()));
    res.physics_bodies.insert(
        1,
        PhysicsBodyBuilder::from(BodyStatus::Dynamic)
            .velocity(Vector3::new(-3000, 5000, 7000))
            .build(),
    );
    dispatcher.dispatch(&mut res);
    let h = *res.body_handles.get(&1).unwrap();
    let world_velocity = res.world.rigid_body(h).unwrap().velocity;
    assert_eq!(world_velocity, Vector3::new(-180_000, 300_000, 420_000));
    // Multiplying back by the timestep recovers the authored velocity.
    assert_eq!(world_velocity.div_scalar(60), Vector3::new(-3000, 5000, 7000));
}

#[test]
fn feedback_matches_world_position_after_tick() {
    let (mut res, mut dispatcher) = setup();
    res.transforms.insert(1, Transform::from_translation(Vector3::new(100, 200, 300)));
    res.physics_bodies.insert(
        1,
        PhysicsBodyBuilder::from(BodyStatus::Dynamic)
            .velocity(Vector3::new(60, -60, 0))
            .build(),
    );
    dispatcher.dispatch(&mut res);
    let h = *res.body_handles.get(&1).unwrap();
    let world_position = res.world.rigid_body(h).unwrap().position;
    assert_eq!(res.transforms.get(1).unwrap().translation, world_position);
    // And it is the post-step value, not the authored one.
    assert_eq!(world_position, Vector3::new(160, 140, 300));
}

#[test]
fn insert_and_remove_same_tick_leaves_nothing() {
    let (mut res, mut dispatcher) = setup();
    res.transforms.insert(4, Transform::from_translation(Vector3::zeros()));
    res.physics_bodies.insert(4, PhysicsBodyBuilder::from(BodyStatus::Dynamic).build());
    res.physics_bodies.remove(4);
    dispatcher.dispatch(&mut res);
    assert!(res.body_handles.is_empty());
    assert!(res.world.bodies.iter().all(|slot| slot.is_none()) && res.world.bodies.is_empty());
}

#[test]
fn insert_then_remove_later_leaves_nothing() {
    let (mut res, mut dispatcher) = setup();
    res.transforms.insert(4, Transform::from_translation(Vector3::zeros()));
    res.physics_bodies.insert(4, PhysicsBodyBuilder::from(BodyStatus::Static).build());
    dispatcher.dispatch(&mut res);
    let h = *res.body_handles.get(&4).unwrap();
    res.physics_bodies.remove(4);
    dispatcher.dispatch(&mut res);
    assert!(res.body_handles.get(&4).is_none());
    assert!(res.world.rigid_body(h).is_none());
}

#[test]
fn body_without_transform_is_skipped_until_it_appears() {
    let (mut res, mut dispatcher) = setup();
    res.physics_bodies.insert(5, PhysicsBodyBuilder::from(BodyStatus::Dynamic).build());
    dispatcher.dispatch(&mut res);
    assert!(res.body_handles.get(&5).is_none());
    assert_eq!(res.physics_bodies.get(5).unwrap().handle, None);
    // Once the prerequisite appears and a fresh insert event fires, the
    // body is simulated.
    res.transforms.insert(5, Transform::from_translation(Vector3::zeros()));
    res.physics_bodies.insert(5, PhysicsBodyBuilder::from(BodyStatus::Dynamic).build());
    dispatcher.dispatch(&mut res);
    assert!(res.body_handles.get(&5).is_some());
}

#[test]
fn reinserted_component_recovers_orphaned_handle() {
    let (mut res, mut dispatcher) = setup();
    res.transforms.insert(6, Transform::from_translation(Vector3::zeros()));
    res.physics_bodies.insert(6, PhysicsBodyBuilder::from(BodyStatus::Static).build());
    dispatcher.dispatch(&mut res);
    let h0 = *res.body_handles.get(&6).unwrap();
    // The entity id is reused before the table was cleaned up: the old
    // object is destroyed before the new one is created.
    res.physics_bodies.remove(6);
    res.physics_bodies.insert(6, PhysicsBodyBuilder::from(BodyStatus::Dynamic).build());
    dispatcher.dispatch(&mut res);
    let h1 = *res.body_handles.get(&6).unwrap();
    assert_ne!(h0, h1);
    assert!(res.world.rigid_body(h0).is_none());
    assert!(res.world.rigid_body(h1).is_some());
}

#[test]
fn removal_without_mapping_entry_is_a_no_op() {
    let (mut res, mut dispatcher) = setup();
    // No transform, so no world object was ever created; the removal has
    // no entry to clean up and must not fail.
    res.physics_bodies.insert(7, PhysicsBodyBuilder::from(BodyStatus::Dynamic).build());
    dispatcher.dispatch(&mut res);
    res.physics_bodies.remove(7);
    dispatcher.dispatch(&mut res);
    assert!(res.body_handles.is_empty());
    assert!(res.world.bodies.is_empty());
}

#[test]
fn modified_body_is_pushed_without_recreation() {
    let (mut res, mut dispatcher) = setup();
    res.transforms.insert(1, Transform::from_translation(Vector3::zeros()));
    res.physics_bodies.insert(
        1,
        PhysicsBodyBuilder::from(BodyStatus::Dynamic)
            .velocity(Vector3::new(0, 1000, 0))
            .build(),
    );
    dispatcher.dispatch(&mut res);
    let h = *res.body_handles.get(&1).unwrap();
    let mut component = *res.physics_bodies.get(1).unwrap();
    component.velocity = Vector3::new(2000, 0, 0);
    component.gravity_enabled = true;
    res.physics_bodies.modify(1, component);
    dispatcher.dispatch(&mut res);
    // Same handle, updated fields.
    assert_eq!(*res.body_handles.get(&1).unwrap(), h);
    let rb = res.world.rigid_body(h).unwrap();
    assert_eq!(rb.velocity.x, 120_000);
    assert!(rb.gravity_enabled);
}

#[test]
fn modified_transform_teleports_world_body() {
    let (mut res, mut dispatcher) = setup();
    res.transforms.insert(1, Transform::from_translation(Vector3::zeros()));
    res.physics_bodies.insert(1, PhysicsBodyBuilder::from(BodyStatus::Dynamic).build());
    dispatcher.dispatch(&mut res);
    let h = *res.body_handles.get(&1).unwrap();
    res.transforms.modify(1, Transform::from_translation(Vector3::new(9000, 0, 0)));
    dispatcher.dispatch(&mut res);
    assert_eq!(res.world.rigid_body(h).unwrap().position, Vector3::new(9000, 0, 0));
    assert_eq!(res.transforms.get(1).unwrap().translation, Vector3::new(9000, 0, 0));
}

#[test]
fn gravity_synchronized_every_tick() {
    let (mut res, mut dispatcher) = setup();
    let g = Vector3::new(0, -9810, 0);
    res.gravity = g;
    dispatcher.dispatch(&mut res);
    dispatcher.dispatch(&mut res);
    // Setting the same vector twice still means one write per tick, and
    // the world gravity equals the last set value.
    assert_eq!(res.world.gravity, g);
    assert_eq!(res.world.gravity_sets, 2);
}

#[test]
fn collider_on_body_entity_uses_offset_only() {
    let (mut res, mut dispatcher) = setup();
    res.transforms.insert(2, Transform::from_translation(Vector3::new(25000, 50000, 0)));
    res.physics_bodies.insert(2, PhysicsBodyBuilder::from(BodyStatus::Dynamic).build());
    res.physics_colliders.insert(
        2,
        PhysicsColliderBuilder::from(Shape::Rectangle(15000, 22000, 1000))
            .offset_from_parent(Isometry::translation(0, -4000, 0))
            .build(),
    );
    dispatcher.dispatch(&mut res);
    let hb = *res.body_handles.get(&2).unwrap();
    let hc = *res.collider_handles.get(&2).unwrap();
    let c = res.world.collider(hc).unwrap();
    assert_eq!(c.parent, BodyPartHandle::Body(hb));
    assert_eq!(c.translation, Vector3::new(0, -4000, 0));
}

#[test]
fn collider_on_child_entity_attaches_to_parent_body_with_offset_only() {
    let (mut res, mut dispatcher) = setup();
    // Entity 2 carries the body; entity 3 carries only a collider and a
    // parent link to entity 2.
    res.transforms.insert(2, Transform::from_translation(Vector3::new(25000, 50000, 0)));
    res.physics_bodies.insert(2, PhysicsBodyBuilder::from(BodyStatus::Dynamic).build());
    res.transforms.insert(3, Transform::from_translation(Vector3::new(25000, 50000, 0)));
    res.parents.insert(3, Parent { entity: Entity::new(2, 0) });
    res.physics_colliders.insert(
        3,
        PhysicsColliderBuilder::from(Shape::Rectangle(10000, 5000, 1000))
            .offset_from_parent(Isometry::translation(7500, 0, 0))
            .sensor(true)
            .build(),
    );
    dispatcher.dispatch(&mut res);
    let hb = *res.body_handles.get(&2).unwrap();
    let hc = *res.collider_handles.get(&3).unwrap();
    let c = res.world.collider(hc).unwrap();
    assert_eq!(c.parent, BodyPartHandle::Body(hb));
    // Only the configured offset: the parent's own transform translation
    // is not added.
    assert_eq!(c.translation, Vector3::new(7500, 0, 0));
    assert!(c.sensor);
    assert_eq!(c.user_data, 3);
}

#[test]
fn collider_without_any_body_attaches_to_ground_with_composed_offset() {
    let (mut res, mut dispatcher) = setup();
    res.transforms.insert(9, Transform::from_translation(Vector3::new(75000, 50000, 0)));
    res.physics_colliders.insert(
        9,
        PhysicsColliderBuilder::from(Shape::Rectangle(15000, 12000, 1000))
            .offset_from_parent(Isometry::translation(0, -4000, 0))
            .build(),
    );
    dispatcher.dispatch(&mut res);
    let hc = *res.collider_handles.get(&9).unwrap();
    let c = res.world.collider(hc).unwrap();
    assert_eq!(c.parent, BodyPartHandle::Ground);
    // Attached to the ground, the placement composes the entity transform
    // with the configured offset.
    assert_eq!(c.translation, Vector3::new(75000, 46000, 0));
}

#[test]
fn body_removal_falls_collider_back_to_ground() {
    let (mut res, mut dispatcher) = setup();
    res.transforms.insert(2, Transform::from_translation(Vector3::new(10000, 0, 0)));
    res.physics_bodies.insert(2, PhysicsBodyBuilder::from(BodyStatus::Static).build());
    res.transforms.insert(3, Transform::from_translation(Vector3::new(10000, 0, 0)));
    res.parents.insert(3, Parent { entity: Entity::new(2, 0) });
    let collider = PhysicsColliderBuilder::from(Shape::Rectangle(10000, 5000, 1000))
        .offset_from_parent(Isometry::translation(7500, 0, 0))
        .build();
    res.physics_colliders.insert(3, collider);
    dispatcher.dispatch(&mut res);
    let hb = *res.body_handles.get(&2).unwrap();
    let hc = *res.collider_handles.get(&3).unwrap();
    assert_eq!(res.world.collider(hc).unwrap().parent, BodyPartHandle::Body(hb));

    // The body component goes away while the child's collider stays.
    res.physics_bodies.remove(2);
    dispatcher.dispatch(&mut res);
    assert!(res.body_handles.get(&2).is_none());
    assert!(res.world.rigid_body(hb).is_none());
    // The attached collider was destroyed with its body; the table entry
    // is stale now.
    assert!(res.world.collider(hc).is_none());

    // When the collider component is inserted again, resolution falls
    // back to the ground frame and the orphaned entry is cleaned up.
    res.physics_colliders.insert(3, collider);
    dispatcher.dispatch(&mut res);
    let hc2 = *res.collider_handles.get(&3).unwrap();
    assert_ne!(hc, hc2);
    let c = res.world.collider(hc2).unwrap();
    assert_eq!(c.parent, BodyPartHandle::Ground);
    assert_eq!(c.translation, Vector3::new(17500, 0, 0));
}

#[test]
fn modified_collision_groups_are_pushed() {
    let (mut res, mut dispatcher) = setup();
    res.transforms.insert(9, Transform::from_translation(Vector3::zeros()));
    res.physics_colliders.insert(
        9,
        PhysicsColliderBuilder::from(Shape::Circle(1000)).build(),
    );
    dispatcher.dispatch(&mut res);
    let hc = *res.collider_handles.get(&9).unwrap();
    let groups = CollisionGroups {
        membership: 0b01,
        whitelist: 0b01,
        blacklist: 0,
    };
    let mut component = *res.physics_colliders.get(9).unwrap();
    component.collision_groups = groups;
    res.physics_colliders.modify(9, component);
    dispatcher.dispatch(&mut res);
    assert_eq!(res.world.collider(hc).unwrap().collision_groups, groups);
}

#[test]
fn contact_and_proximity_events_reach_the_sinks() {
    let (mut res, mut dispatcher) = setup();
    let ev = ContactEvent {
        collider1: ColliderHandle { index: 0 },
        collider2: ColliderHandle { index: 1 },
        started: true,
    };
    res.world.contact_events.push(ev);
    dispatcher.dispatch(&mut res);
    assert_eq!(res.contact_sink.len(), 1);
    assert_eq!(res.contact_sink[0], ev);
    assert!(res.world.contact_events.is_empty());
    assert!(res.proximity_sink.is_empty());
}

#[test]
fn debug_overlay_outlines_rectangle_colliders() {
    let res = Resources::new();
    let mut dispatcher = PhysicsBundle::default().with_debug_lines().build(&res);
    let mut res = res;
    res.transforms.insert(1, Transform::from_translation(Vector3::new(1000, 2000, 0)));
    res.physics_colliders.insert(
        1,
        PhysicsColliderBuilder::from(Shape::Rectangle(15000, 22000, 1000)).build(),
    );
    res.transforms.insert(2, Transform::from_translation(Vector3::zeros()));
    res.physics_colliders.insert(
        2,
        PhysicsColliderBuilder::from(Shape::Rectangle(2000, 2000, 2000))
            .sensor(true)
            .build(),
    );
    // A circle draws no outline.
    res.transforms.insert(3, Transform::from_translation(Vector3::zeros()));
    res.physics_colliders.insert(3, PhysicsColliderBuilder::from(Shape::Circle(500)).build());
    dispatcher.dispatch(&mut res);
    assert_eq!(res.debug_lines.lines.len(), 8);
    // The solid collider's top edge, in milliunits.
    let top = res.debug_lines.lines[0];
    assert_eq!(top.start, Vector3::new(-6500, 13000, 0));
    assert_eq!(top.end, Vector3::new(8500, 13000, 0));
    assert_eq!((top.color.red, top.color.green, top.color.blue), (207, 0, 128));
    // The sensor's outline comes in the sensor color.
    let sensor_edge = res.debug_lines.lines[4];
    assert_eq!(
        (sensor_edge.color.red, sensor_edge.color.green, sensor_edge.color.blue),
        (33, 166, 240)
    );
}

#[test]
fn plain_bundle_draws_no_debug_lines() {
    let (mut res, mut dispatcher) = setup();
    res.transforms.insert(1, Transform::from_translation(Vector3::zeros()));
    res.physics_colliders.insert(
        1,
        PhysicsColliderBuilder::from(Shape::Rectangle(2000, 2000, 2000)).build(),
    );
    dispatcher.dispatch(&mut res);
    assert!(res.debug_lines.lines.is_empty());
}

#[test]
fn handles_stay_unique_across_churn() {
    let (mut res, mut dispatcher) = setup();
    for id in 0..8u32 {
        res.transforms.insert(
            id,
            Transform::from_translation(Vector3::new(id as i64 * 1000, 0, 0)),
        );
        res.physics_bodies.insert(id, PhysicsBodyBuilder::from(BodyStatus::Dynamic).build());
        res.physics_colliders.insert(
            id,
            PhysicsColliderBuilder::from(Shape::Circle(500)).build(),
        );
    }
    dispatcher.dispatch(&mut res);
    res.physics_bodies.remove(2);
    res.physics_bodies.insert(2, PhysicsBodyBuilder::from(BodyStatus::Static).build());
    res.physics_colliders.remove(5);
    dispatcher.dispatch(&mut res);
    let mut body_handles: Vec<usize> = res.body_handles.values().map(|h| h.index).collect();
    body_handles.sort();
    let before = body_handles.len();
    body_handles.dedup();
    assert_eq!(before, body_handles.len());
    let mut collider_handles: Vec<usize> =
        res.collider_handles.values().map(|h| h.index).collect();
    collider_handles.sort();
    let before = collider_handles.len();
    collider_handles.dedup();
    assert_eq!(before, collider_handles.len());
    // Every body entry still refers to a live object carrying its own id.
    for (id, h) in res.body_handles.iter() {
        assert_eq!(res.world.rigid_body(*h).unwrap().user_data, *id);
    }
}

#[test]
fn custom_step_frequency_scales_velocity_conversion() {
    let (mut res, mut dispatcher) = setup();
    res.world.set_steps_per_second(100);
    res.transforms.insert(1, Transform::from_translation(Vector3::zeros()));
    res.physics_bodies.insert(
        1,
        PhysicsBodyBuilder::from(BodyStatus::Dynamic)
            .velocity(Vector3::new(0, 500, 0))
            .build(),
    );
    dispatcher.dispatch(&mut res);
    let h = *res.body_handles.get(&1).unwrap();
    assert_eq!(res.world.rigid_body(h).unwrap().velocity, Vector3::new(0, 50_000, 0));
    // One step still advances by exactly the authored per-tick amount.
    assert_eq!(res.transforms.get(1).unwrap().translation, Vector3::new(0, 500, 0));
}
