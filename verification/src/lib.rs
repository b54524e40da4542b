//! A verified physics synchronization bridge.
//!
//! The crate keeps an explicitly owned rigid-body world consistent with
//! entity-component data (transforms, body descriptions, collider shapes)
//! across repeated fixed-rate simulation ticks, while components are
//! inserted, modified and removed at arbitrary times by unrelated game
//! logic. Lifecycle changes are detected through an append-only change log
//! with per-consumer cursors, translated into world operations exactly
//! once, and the world's authoritative post-step positions are written
//! back onto the entities' transforms every tick.
//!
//! All spatial quantities are plain integers in fixed-point "milliunit"
//! scale (one thousandth of a world unit), so every computation here is
//! exact and free of rounding surprises.

use vstd::prelude::*;

pub mod body;
pub mod collider;
pub mod ecs;
pub mod laws;
pub mod math;
pub mod systems;
pub mod world;

pub use crate::body::{PhysicsBody, PhysicsBodyBuilder};
pub use crate::collider::{PhysicsCollider, PhysicsColliderBuilder, Shape};
pub use crate::systems::PhysicsBundle;

verus! {

/// `Gravity` is the process-wide constant acceleration affecting all
/// dynamic, gravity-enabled bodies, in milliunits per second squared.
pub type Gravity = crate::math::Vector3;

} // verus!
