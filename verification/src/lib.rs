//! A small 2D collision core for entity-based simulations.
//!
//! Entities carry a position, an optional axis-aligned rectangular collider,
//! an optional linear velocity, and an optional collision-response mode. Each
//! tick the host runs three subsystems in order: movement integrates positions
//! from velocities, detection enumerates overlapping collider pairs and emits
//! one event per pair, and response decides how each participant's velocity
//! is to change.
//!
//! All coordinates are plain integers: a world unit is whatever fixed-point
//! scale the host picks (positions, extents and velocities just have to share
//! it). The geometry is exact over that grid.

use vstd::prelude::*;

pub mod components;
pub mod events;
pub mod systems;
pub mod utils;

use crate::systems::SystemKind;

verus! {

/// Adds all the systems relevant for collisions and movement.
///
/// The bundle decides which subsystems the host has to register and in what
/// order; the host's scheduler performs the actual registration.
pub struct ColliderPhysicsBundle {
    handle_collisions: bool,
}

impl ColliderPhysicsBundle {
    /// Whether this bundle includes the collision-handling subsystem.
    pub closed spec fn spec_handles_collisions(self) -> bool {
        self.handle_collisions
    }

    pub fn new() -> (r: Self)
        ensures
            !r.spec_handles_collisions(),
    {
        ColliderPhysicsBundle { handle_collisions: false }
    }

    /// Handle collisions automatically. The way collisions are handled
    /// can be specified via the 'HandleCollisionMode' enum.
    pub fn with_collision_handler(self) -> (r: Self)
        ensures
            r.spec_handles_collisions(),
    {
        ColliderPhysicsBundle { handle_collisions: true }
    }

    /// The systems this bundle installs, in dependency order: movement first,
    /// then detection, then (only when requested) the collision handler.
    pub fn build(self) -> (systems: Vec<SystemKind>)
        ensures
            systems@ == if self.spec_handles_collisions() {
                seq![SystemKind::Movement, SystemKind::Collision, SystemKind::HandleCollisions]
            } else {
                seq![SystemKind::Movement, SystemKind::Collision]
            },
    {
        let mut systems: Vec<SystemKind> = Vec::new();
        systems.push(SystemKind::Movement);
        systems.push(SystemKind::Collision);
        if self.handle_collisions {
            systems.push(SystemKind::HandleCollisions);
        }
        proof {
            if self.handle_collisions {
                assert(systems@ =~= seq![
                    SystemKind::Movement,
                    SystemKind::Collision,
                    SystemKind::HandleCollisions,
                ]);
            } else {
                assert(systems@ =~= seq![SystemKind::Movement, SystemKind::Collision]);
            }
        }
        systems
    }
}

} // verus!
