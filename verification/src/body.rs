//! The rigid-body component and its builder.

use std::collections::HashMap;

use vstd::prelude::*;

use crate::math::{Matrix3, Vector3};
use crate::world::BodyHandle;

verus! {

/// How the simulation treats a body.
#[derive(Clone, Copy, Debug, PartialEq, Eq, Structural)]
pub enum BodyStatus {
    /// Not simulated at all.
    Disabled,
    /// Immovable; other bodies collide with it.
    Static,
    /// Moved by the integrator: velocity and, when enabled, gravity.
    Dynamic,
    /// Moved by its velocity only, unaffected by forces.
    Kinematic,
}

/// The table mapping an entity index to its rigid-body handle. An entry
/// exists exactly while the corresponding simulation object does.
pub type PhysicsBodyHandles = HashMap<u32, BodyHandle>;

/// The rigid-body description attached to an entity. The body synchronizer
/// mirrors it into the physics world; `handle` is the back-reference to
/// the created simulation object and stays `None` until the synchronizer
/// has created one.
///
/// `velocity` is authored as a raw displacement in milliunits per tick;
/// the synchronizer converts it to the per-second rate the world expects
/// by multiplying with the world's step frequency.
#[derive(Clone, Copy, Debug, PartialEq, Eq, Structural)]
pub struct PhysicsBody {
    pub handle: Option<BodyHandle>,
    pub gravity_enabled: bool,
    pub body_status: BodyStatus,
    pub velocity: Vector3,
    pub angular_inertia: Matrix3,
    pub mass: i64,
    pub local_center_of_mass: Vector3,
}

/// The builder for [`PhysicsBody`] components: start from a status, then
/// override any of the richly defaulted fields.
#[derive(Clone, Copy, Debug, PartialEq, Eq, Structural)]
pub struct PhysicsBodyBuilder {
    pub gravity_enabled: bool,
    pub body_status: BodyStatus,
    pub velocity: Vector3,
    pub angular_inertia: Matrix3,
    pub mass: i64,
    pub local_center_of_mass: Vector3,
}

/// The builder state a given status starts from: gravity disabled, zero
/// velocity and inertia, a mass of 1200 milliunits, and the center of
/// mass at the local origin.
pub open spec fn default_body_builder(body_status: BodyStatus) -> PhysicsBodyBuilder {
    PhysicsBodyBuilder {
        gravity_enabled: false,
        body_status,
        velocity: Vector3 { x: 0, y: 0, z: 0 },
        angular_inertia: Matrix3 {
            m00: 0, m01: 0, m02: 0,
            m10: 0, m11: 0, m12: 0,
            m20: 0, m21: 0, m22: 0,
        },
        mass: 1200,
        local_center_of_mass: Vector3 { x: 0, y: 0, z: 0 },
    }
}

impl From<BodyStatus> for PhysicsBodyBuilder {
    /// Creates a new `PhysicsBodyBuilder` from the given `BodyStatus`,
    /// with the remaining fields at their defaults.
    fn from(body_status: BodyStatus) -> (r: Self)
        ensures
            r == default_body_builder(body_status),
    {
        PhysicsBodyBuilder {
            gravity_enabled: false,
            body_status,
            velocity: Vector3::zeros(),
            angular_inertia: Matrix3::zeros(),
            mass: 1200,
            local_center_of_mass: Vector3::zeros(),
        }
    }
}

impl vstd::std_specs::convert::FromSpecImpl<BodyStatus> for PhysicsBodyBuilder {
    open spec fn obeys_from_spec() -> bool {
        true
    }

    open spec fn from_spec(body_status: BodyStatus) -> Self {
        default_body_builder(body_status)
    }
}

impl PhysicsBodyBuilder {
    /// Sets the `gravity_enabled` value of the `PhysicsBodyBuilder`.
    pub fn gravity_enabled(self, gravity_enabled: bool) -> (r: Self)
        ensures
            r == (PhysicsBodyBuilder { gravity_enabled, ..self }),
    {
        PhysicsBodyBuilder { gravity_enabled, ..self }
    }

    /// Sets the `velocity` value of the `PhysicsBodyBuilder`, in
    /// milliunits per tick.
    pub fn velocity(self, velocity: Vector3) -> (r: Self)
        ensures
            r == (PhysicsBodyBuilder { velocity, ..self }),
    {
        PhysicsBodyBuilder { velocity, ..self }
    }

    /// Sets the `angular_inertia` value of the `PhysicsBodyBuilder`.
    pub fn angular_inertia(self, angular_inertia: Matrix3) -> (r: Self)
        ensures
            r == (PhysicsBodyBuilder { angular_inertia, ..self }),
    {
        PhysicsBodyBuilder { angular_inertia, ..self }
    }

    /// Sets the `mass` value of the `PhysicsBodyBuilder`.
    pub fn mass(self, mass: i64) -> (r: Self)
        ensures
            r == (PhysicsBodyBuilder { mass, ..self }),
    {
        PhysicsBodyBuilder { mass, ..self }
    }

    /// Sets the `local_center_of_mass` value of the `PhysicsBodyBuilder`.
    pub fn local_center_of_mass(self, local_center_of_mass: Vector3) -> (r: Self)
        ensures
            r == (PhysicsBodyBuilder { local_center_of_mass, ..self }),
    {
        PhysicsBodyBuilder { local_center_of_mass, ..self }
    }

    /// Builds the `PhysicsBody` from the values set in the builder; the
    /// world back-reference starts out empty.
    pub fn build(self) -> (r: PhysicsBody)
        ensures
            r == (PhysicsBody {
                handle: None,
                gravity_enabled: self.gravity_enabled,
                body_status: self.body_status,
                velocity: self.velocity,
                angular_inertia: self.angular_inertia,
                mass: self.mass,
                local_center_of_mass: self.local_center_of_mass,
            }),
    {
        PhysicsBody {
            handle: None,
            gravity_enabled: self.gravity_enabled,
            body_status: self.body_status,
            velocity: self.velocity,
            angular_inertia: self.angular_inertia,
            mass: self.mass,
            local_center_of_mass: self.local_center_of_mass,
        }
    }
}

} // verus!
