//! Scalar math, shapes, and the component builders.

use game_physics::body::{BodyStatus, PhysicsBodyBuilder};
use game_physics::collider::{
    CollisionGroups, Isometry, Material, PhysicsColliderBuilder, Shape, ShapeHandle,
};
use game_physics::math::{add_sat, div_trunc, mul_sat, sub_sat, Matrix3, Vector3};

#[test]
fn saturating_scalar_ops_are_exact_in_range() {
    assert_eq!(add_sat(5, 7), 12);
    assert_eq!(sub_sat(5, 7), -2);
    assert_eq!(mul_sat(-4, 25), -100);
    assert_eq!(add_sat(i64::MAX, 1), i64::MAX);
    assert_eq!(sub_sat(i64::MIN, 1), i64::MIN);
    assert_eq!(mul_sat(i64::MAX, 2), i64::MAX);
    assert_eq!(mul_sat(i64::MAX, -2), i64::MIN);
}

#[test]
fn division_truncates_toward_zero() {
    assert_eq!(div_trunc(7, 2), 3);
    assert_eq!(div_trunc(-7, 2), -3);
    assert_eq!(div_trunc(6, 3), 2);
    assert_eq!(div_trunc(-6, 3), -2);
    assert_eq!(div_trunc(i64::MIN, 1), i64::MIN);
}

#[test]
fn vector_ops_componentwise() {
    let a = Vector3::new(1, -2, 3);
    let b = Vector3::new(10, 20, 30);
    assert_eq!(a.add_vec(&b), Vector3::new(11, 18, 33));
    assert_eq!(a.scale(60), Vector3::new(60, -120, 180));
    assert_eq!(Vector3::new(120, -120, 61).div_scalar(60), Vector3::new(2, -2, 1));
    assert_eq!(Vector3::zeros(), Vector3::new(0, 0, 0));
}

#[test]
fn rectangle_margin_is_subtracted_from_half_extents() {
    // A 15 x 22 x 1 unit rectangle in milliunits, with the default margin.
    let shape = Shape::Rectangle(15000, 22000, 1000);
    match shape.handle(200) {
        ShapeHandle::Cuboid { half_extents } => {
            assert_eq!(half_extents, Vector3::new(7300, 10800, 300));
        }
        other => panic!("expected a cuboid, got {:?}", other),
    }
}

#[test]
fn circle_radius_ignores_margin() {
    match Shape::Circle(4000).handle(200) {
        ShapeHandle::Ball { radius } => assert_eq!(radius, 4000),
        other => panic!("expected a ball, got {:?}", other),
    }
}

#[test]
fn body_builder_defaults() {
    let body = PhysicsBodyBuilder::from(BodyStatus::Dynamic).build();
    assert_eq!(body.handle, None);
    assert!(!body.gravity_enabled);
    assert_eq!(body.body_status, BodyStatus::Dynamic);
    assert_eq!(body.velocity, Vector3::zeros());
    assert_eq!(body.angular_inertia, Matrix3::zeros());
    assert_eq!(body.mass, 1200);
    assert_eq!(body.local_center_of_mass, Vector3::zeros());
}

#[test]
fn body_builder_setters() {
    let body = PhysicsBodyBuilder::from(BodyStatus::Static)
        .gravity_enabled(true)
        .velocity(Vector3::new(1000, 1000, 1000))
        .angular_inertia(Matrix3::from_diagonal_element(3000))
        .mass(1300)
        .local_center_of_mass(Vector3::new(0, -100, 0))
        .build();
    assert_eq!(body.handle, None);
    assert!(body.gravity_enabled);
    assert_eq!(body.body_status, BodyStatus::Static);
    assert_eq!(body.velocity, Vector3::new(1000, 1000, 1000));
    assert_eq!(body.angular_inertia.m11, 3000);
    assert_eq!(body.angular_inertia.m01, 0);
    assert_eq!(body.mass, 1300);
    assert_eq!(body.local_center_of_mass, Vector3::new(0, -100, 0));
}

#[test]
fn collider_builder_defaults() {
    let collider = PhysicsColliderBuilder::from(Shape::Rectangle(10000, 10000, 1000)).build();
    assert_eq!(collider.handle, None);
    assert_eq!(collider.offset_from_parent, Isometry::identity());
    assert_eq!(collider.density, 1300);
    assert_eq!(collider.material, Material::default());
    assert_eq!(collider.margin, 200);
    assert_eq!(collider.collision_groups, CollisionGroups::default());
    assert_eq!(collider.linear_prediction, 2);
    assert_eq!(collider.angular_prediction, 87);
    assert!(!collider.sensor);
}

#[test]
fn collider_builder_setters() {
    let groups = CollisionGroups {
        membership: 0b01,
        whitelist: 0b10,
        blacklist: 0,
    };
    let collider = PhysicsColliderBuilder::from(Shape::Circle(2500))
        .offset_from_parent(Isometry::translation(7500, 0, 0))
        .density(1200)
        .material(Material {
            restitution: 100,
            friction: 300,
        })
        .margin(20)
        .collision_groups(groups)
        .linear_prediction(1)
        .angular_prediction(90)
        .sensor(true)
        .build();
    assert_eq!(collider.offset_from_parent.translation, Vector3::new(7500, 0, 0));
    assert_eq!(collider.density, 1200);
    assert_eq!(collider.material.friction, 300);
    assert_eq!(collider.margin, 20);
    assert_eq!(collider.collision_groups, groups);
    assert_eq!(collider.linear_prediction, 1);
    assert_eq!(collider.angular_prediction, 90);
    assert!(collider.sensor);
    match collider.shape_handle() {
        ShapeHandle::Ball { radius } => assert_eq!(radius, 2500),
        other => panic!("expected a ball, got {:?}", other),
    }
}
