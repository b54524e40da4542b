//! The collision-shape component, its builder, and the geometric values
//! shared with the world model.

use std::collections::HashMap;

use vstd::prelude::*;

use crate::math::{clamp64, div_to_zero, div_trunc, sub_sat, Vector3};
use crate::world::ColliderHandle;

verus! {

/// A translation-only placement. The bridge never reads or writes the
/// rotational part of a placement, so none is modeled.
#[derive(Clone, Copy, Debug, PartialEq, Eq, Structural)]
pub struct Isometry {
    pub translation: Vector3,
}

impl Isometry {
    /// The identity placement (zero translation).
    pub fn identity() -> (r: Isometry)
        ensures
            r == (Isometry { translation: Vector3 { x: 0, y: 0, z: 0 } }),
    {
        Isometry { translation: Vector3 { x: 0, y: 0, z: 0 } }
    }

    /// A pure translation.
    pub fn translation(x: i64, y: i64, z: i64) -> (r: Isometry)
        ensures
            r == (Isometry { translation: Vector3 { x, y, z } }),
    {
        Isometry { translation: Vector3 { x, y, z } }
    }
}

/// Contact material properties, in milliunit scale.
#[derive(Clone, Copy, Debug, PartialEq, Eq, Structural)]
pub struct Material {
    pub restitution: i64,
    pub friction: i64,
}

impl Default for Material {
    /// The default material: no restitution, friction of 500 milliunits.
    fn default() -> (r: Material)
        ensures
            r == (Material { restitution: 0, friction: 500 }),
    {
        Material { restitution: 0, friction: 500 }
    }
}

/// Collision filtering: a collider only interacts with colliders whose
/// membership intersects its whitelist and avoids its blacklist.
#[derive(Clone, Copy, Debug, PartialEq, Eq, Structural)]
pub struct CollisionGroups {
    pub membership: u32,
    pub whitelist: u32,
    pub blacklist: u32,
}

impl Default for CollisionGroups {
    /// The default filtering: member of every group, every group
    /// whitelisted, none blacklisted.
    fn default() -> (r: CollisionGroups)
        ensures
            r == (CollisionGroups { membership: 0xffff_ffff, whitelist: 0xffff_ffff, blacklist: 0 }),
    {
        CollisionGroups { membership: 0xffff_ffff, whitelist: 0xffff_ffff, blacklist: 0 }
    }
}

/// The user-facing geometric description of a collider, in full extents
/// (a rectangle is given by its width, height and depth).
#[derive(Clone, Copy, Debug, PartialEq, Eq, Structural)]
pub enum Shape {
    Circle(i64),
    Rectangle(i64, i64, i64),
}

/// The world-side geometry a [`Shape`] translates to, in half extents.
#[derive(Clone, Copy, Debug, PartialEq, Eq, Structural)]
pub enum ShapeHandle {
    Ball { radius: i64 },
    Cuboid { half_extents: Vector3 },
}

/// The geometry a shape and a margin translate to: a rectangle's half
/// extents have the margin subtracted from each axis, so that the margin
/// is purely additive padding around the solid core; a circle's radius is
/// used as given.
pub open spec fn spec_shape_handle(shape: Shape, margin: i64) -> ShapeHandle {
    match shape {
        Shape::Circle(radius) => ShapeHandle::Ball { radius },
        Shape::Rectangle(w, h, d) => ShapeHandle::Cuboid {
            half_extents: Vector3 {
                x: clamp64(div_to_zero(w as int, 2) - margin) as i64,
                y: clamp64(div_to_zero(h as int, 2) - margin) as i64,
                z: clamp64(div_to_zero(d as int, 2) - margin) as i64,
            },
        },
    }
}

impl Shape {
    /// Converts the shape into the world-side geometry, shrinking each
    /// rectangle half extent by the margin.
    pub fn handle(&self, margin: i64) -> (r: ShapeHandle)
        ensures
            r == spec_shape_handle(*self, margin),
    {
        match *self {
            Shape::Circle(radius) => ShapeHandle::Ball { radius },
            Shape::Rectangle(w, h, d) => ShapeHandle::Cuboid {
                half_extents: Vector3 {
                    x: sub_sat(div_trunc(w, 2), margin),
                    y: sub_sat(div_trunc(h, 2), margin),
                    z: sub_sat(div_trunc(d, 2), margin),
                },
            },
        }
    }
}

/// The table mapping an entity index to its collider handle. An entry
/// exists exactly while the bridge believes the corresponding simulation
/// object does; an entry whose object was destroyed together with its
/// parent body is detected and discarded defensively.
pub type PhysicsColliderHandles = HashMap<u32, ColliderHandle>;

/// The collision-shape description attached to an entity. The collider
/// synchronizer mirrors it into the physics world, attached to the body
/// of the same entity, of its parent entity, or to the immovable ground
/// frame; `handle` is the back-reference to the created simulation object
/// and stays `None` until the synchronizer has created one.
#[derive(Clone, Copy, Debug, PartialEq, Eq, Structural)]
pub struct PhysicsCollider {
    pub handle: Option<ColliderHandle>,
    pub shape: Shape,
    pub offset_from_parent: Isometry,
    pub density: i64,
    pub material: Material,
    pub margin: i64,
    pub collision_groups: CollisionGroups,
    pub linear_prediction: i64,
    pub angular_prediction: i64,
    pub sensor: bool,
}

impl PhysicsCollider {
    /// The world-side geometry for `shape`, taking `margin` into account.
    pub fn shape_handle(&self) -> (r: ShapeHandle)
        ensures
            r == spec_shape_handle(self.shape, self.margin),
    {
        self.shape.handle(self.margin)
    }
}

/// The builder for [`PhysicsCollider`] components: start from a shape,
/// then override any of the richly defaulted fields.
#[derive(Clone, Copy, Debug, PartialEq, Eq, Structural)]
pub struct PhysicsColliderBuilder {
    pub shape: Shape,
    pub offset_from_parent: Isometry,
    pub density: i64,
    pub material: Material,
    pub margin: i64,
    pub collision_groups: CollisionGroups,
    pub linear_prediction: i64,
    pub angular_prediction: i64,
    pub sensor: bool,
}

/// The builder state a given shape starts from: zero offset, density of
/// 1300 milliunits, the default material, a margin of 200 milliunits, the
/// default collision groups, a linear prediction of 2 milliunits, an
/// angular prediction of 87 milliradians, and solid (non-sensor) contact.
pub open spec fn default_collider_builder(shape: Shape) -> PhysicsColliderBuilder {
    PhysicsColliderBuilder {
        shape,
        offset_from_parent: Isometry { translation: Vector3 { x: 0, y: 0, z: 0 } },
        density: 1300,
        material: Material { restitution: 0, friction: 500 },
        margin: 200,
        collision_groups: CollisionGroups {
            membership: 0xffff_ffff,
            whitelist: 0xffff_ffff,
            blacklist: 0,
        },
        linear_prediction: 2,
        angular_prediction: 87,
        sensor: false,
    }
}

impl From<Shape> for PhysicsColliderBuilder {
    /// Creates a new `PhysicsColliderBuilder` from the given `Shape`,
    /// with the remaining fields at their defaults.
    fn from(shape: Shape) -> (r: Self)
        ensures
            r == default_collider_builder(shape),
    {
        PhysicsColliderBuilder {
            shape,
            offset_from_parent: Isometry::identity(),
            density: 1300,
            material: Material { restitution: 0, friction: 500 },
            margin: 200,
            collision_groups: CollisionGroups {
                membership: 0xffff_ffff,
                whitelist: 0xffff_ffff,
                blacklist: 0,
            },
            linear_prediction: 2,
            angular_prediction: 87,
            sensor: false,
        }
    }
}

impl vstd::std_specs::convert::FromSpecImpl<Shape> for PhysicsColliderBuilder {
    open spec fn obeys_from_spec() -> bool {
        true
    }

    open spec fn from_spec(shape: Shape) -> Self {
        default_collider_builder(shape)
    }
}

impl PhysicsColliderBuilder {
    /// Sets the `offset_from_parent` value of the `PhysicsColliderBuilder`.
    pub fn offset_from_parent(self, offset_from_parent: Isometry) -> (r: Self)
        ensures
            r == (PhysicsColliderBuilder { offset_from_parent, ..self }),
    {
        PhysicsColliderBuilder { offset_from_parent, ..self }
    }

    /// Sets the `density` value of the `PhysicsColliderBuilder`.
    pub fn density(self, density: i64) -> (r: Self)
        ensures
            r == (PhysicsColliderBuilder { density, ..self }),
    {
        PhysicsColliderBuilder { density, ..self }
    }

    /// Sets the `material` value of the `PhysicsColliderBuilder`.
    pub fn material(self, material: Material) -> (r: Self)
        ensures
            r == (PhysicsColliderBuilder { material, ..self }),
    {
        PhysicsColliderBuilder { material, ..self }
    }

    /// Sets the `margin` value of the `PhysicsColliderBuilder`.
    pub fn margin(self, margin: i64) -> (r: Self)
        ensures
            r == (PhysicsColliderBuilder { margin, ..self }),
    {
        PhysicsColliderBuilder { margin, ..self }
    }

    /// Sets the `collision_groups` value of the `PhysicsColliderBuilder`.
    pub fn collision_groups(self, collision_groups: CollisionGroups) -> (r: Self)
        ensures
            r == (PhysicsColliderBuilder { collision_groups, ..self }),
    {
        PhysicsColliderBuilder { collision_groups, ..self }
    }

    /// Sets the `linear_prediction` value of the `PhysicsColliderBuilder`.
    pub fn linear_prediction(self, linear_prediction: i64) -> (r: Self)
        ensures
            r == (PhysicsColliderBuilder { linear_prediction, ..self }),
    {
        PhysicsColliderBuilder { linear_prediction, ..self }
    }

    /// Sets the `angular_prediction` value of the `PhysicsColliderBuilder`.
    pub fn angular_prediction(self, angular_prediction: i64) -> (r: Self)
        ensures
            r == (PhysicsColliderBuilder { angular_prediction, ..self }),
    {
        PhysicsColliderBuilder { angular_prediction, ..self }
    }

    /// Sets the `sensor` value of the `PhysicsColliderBuilder`.
    pub fn sensor(self, sensor: bool) -> (r: Self)
        ensures
            r == (PhysicsColliderBuilder { sensor, ..self }),
    {
        PhysicsColliderBuilder { sensor, ..self }
    }

    /// Builds the `PhysicsCollider` from the values set in the builder;
    /// the world back-reference starts out empty.
    pub fn build(self) -> (r: PhysicsCollider)
        ensures
            r == (PhysicsCollider {
                handle: None,
                shape: self.shape,
                offset_from_parent: self.offset_from_parent,
                density: self.density,
                material: self.material,
                margin: self.margin,
                collision_groups: self.collision_groups,
                linear_prediction: self.linear_prediction,
                angular_prediction: self.angular_prediction,
                sensor: self.sensor,
            }),
    {
        PhysicsCollider {
            handle: None,
            shape: self.shape,
            offset_from_parent: self.offset_from_parent,
            density: self.density,
            material: self.material,
            margin: self.margin,
            collision_groups: self.collision_groups,
            linear_prediction: self.linear_prediction,
            angular_prediction: self.angular_prediction,
            sensor: self.sensor,
        }
    }
}

} // verus!
