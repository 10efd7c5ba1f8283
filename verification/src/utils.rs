//! Deciding how a collision changes a participant's velocity.
//!
//! The decision is split from its execution: `handle_collision` maps a
//! participant's response mode and the event's paths to a `VelocityUpdate`,
//! and the host applies that update to the participant's velocity with
//! whatever vector arithmetic it runs on.

use vstd::prelude::*;

use crate::components::{HandleCollisionMode, Vector2, Velocity};
use crate::events::Collision;
use crate::systems::EntityState;

verus! {

/// What is to happen to a participant's velocity: nothing, a reflection
/// against the surface whose inward normal opposes `path`, a reflection
/// followed by a componentwise scale, or a redirection along the partner's
/// path with the speed kept.
#[derive(Clone, Copy, Debug, PartialEq, Eq, Structural)]
pub enum VelocityUpdate {
    /// The velocity stays as it is.
    Keep,
    /// Reflect the velocity against the surface met along `path`.
    Reflect { path: Vector2 },
    /// Reflect as above, then scale the velocity componentwise by `factor`.
    Bounce { path: Vector2, factor: i64 },
    /// Point the velocity along `other_path` — from the partner toward the
    /// overlap center — preserving its length.
    Oppose { other_path: Vector2 },
}

/// All relevant components for handling a collision.
///
/// Meant to be passed to the `handle_collision` function.
#[derive(Clone, Copy, Debug, PartialEq, Eq, Structural)]
pub struct HandleCollisionComponents {
    pub mode: HandleCollisionMode,
    pub velocity: Velocity,
}

/// The update a participant's mode asks for, given its own and its partner's
/// collision record.
pub open spec fn spec_handle_collision(
    collision: Collision,
    other_collision: Collision,
    components: HandleCollisionComponents,
) -> VelocityUpdate {
    match components.mode {
        HandleCollisionMode::Ignore => VelocityUpdate::Keep,
        HandleCollisionMode::Reflect => VelocityUpdate::Reflect { path: collision.path },
        HandleCollisionMode::Bounce(factor) => VelocityUpdate::Bounce {
            path: collision.path,
            factor,
        },
        HandleCollisionMode::Oppose => VelocityUpdate::Oppose {
            other_path: other_collision.path,
        },
    }
}

/// Decide the velocity update for one participant, based on its collision
/// mode and the collision paths.
pub fn handle_collision(
    collision: &Collision,
    other_collision: &Collision,
    components: &HandleCollisionComponents,
) -> (r: VelocityUpdate)
    ensures
        r == spec_handle_collision(*collision, *other_collision, *components),
{
    match components.mode {
        HandleCollisionMode::Ignore => VelocityUpdate::Keep,
        HandleCollisionMode::Reflect => VelocityUpdate::Reflect { path: collision.path },
        HandleCollisionMode::Bounce(factor) => VelocityUpdate::Bounce {
            path: collision.path,
            factor,
        },
        HandleCollisionMode::Oppose => VelocityUpdate::Oppose {
            other_path: other_collision.path,
        },
    }
}

/// The first entity in the store with the given id, if any.
pub open spec fn spec_find_entity(s: Seq<EntityState>, entity: u64) -> Option<EntityState>
    decreases s.len(),
{
    if s.len() == 0 {
        None
    } else if s[0].id == entity {
        Some(s[0])
    } else {
        spec_find_entity(s.drop_first(), entity)
    }
}

/// A found entity really stands in the store, under its id.
pub proof fn lemma_find_entity_in_store(s: Seq<EntityState>, entity: u64)
    requires
        spec_find_entity(s, entity) is Some,
    ensures
        exists|i: int|
            0 <= i < s.len() && #[trigger] s[i] == spec_find_entity(s, entity)->0 && s[i].id
                == entity,
    decreases s.len(),
{
    if s[0].id == entity {
        assert(s[0] == spec_find_entity(s, entity)->0);
    } else {
        lemma_find_entity_in_store(s.drop_first(), entity);
        let i = choose|i: int|
            0 <= i < s.drop_first().len() && #[trigger] s.drop_first()[i] == spec_find_entity(
                s.drop_first(),
                entity,
            )->0 && s.drop_first()[i].id == entity;
        assert(s[i + 1] == s.drop_first()[i]);
    }
}

/// Find the entity with the given id in the store.
pub fn find_entity(entities: &Vec<EntityState>, entity: u64) -> (r: Option<EntityState>)
    ensures
        r == spec_find_entity(entities@, entity),
{
    let n: usize = entities.len();
    let mut i: usize = 0;
    proof {
        assert(entities@.skip(0) =~= entities@);
    }
    while i < n
        invariant
            n == entities@.len(),
            i <= n,
            spec_find_entity(entities@, entity) == spec_find_entity(
                entities@.skip(i as int),
                entity,
            ),
        decreases n - i,
    {
        proof {
            assert(entities@.skip(i as int)[0] == entities@[i as int]);
        }
        if entities[i].id == entity {
            return Some(entities[i]);
        }
        proof {
            assert(entities@.skip(i as int).drop_first() =~= entities@.skip(i as int + 1));
        }
        i = i + 1;
    }
    proof {
        assert(entities@.skip(n as int).len() == 0);
    }
    None
}

/// The components `handle_collision` needs, when the entity holds both a
/// mode and a velocity; `None` otherwise, and the collision is skipped for
/// that participant.
pub open spec fn spec_get_components(s: Seq<EntityState>, entity: u64) -> Option<
    HandleCollisionComponents,
> {
    match spec_find_entity(s, entity) {
        Some(e) => match (e.mode, e.velocity) {
            (Some(mode), Some(velocity)) => Some(HandleCollisionComponents { mode, velocity }),
            _ => None,
        },
        None => None,
    }
}

/// Fetch the collision-handling components of an entity from the store.
pub fn get_components(entities: &Vec<EntityState>, entity: u64) -> (r: Option<
    HandleCollisionComponents,
>)
    ensures
        r == spec_get_components(entities@, entity),
{
    match find_entity(entities, entity) {
        Some(e) => match (e.mode, e.velocity) {
            (Some(mode), Some(velocity)) => Some(HandleCollisionComponents { mode, velocity }),
            _ => None,
        },
        None => None,
    }
}

} // verus!
