//! Collision events: two participant records, each an entity and its path
//! toward the overlap center.

use vstd::prelude::*;

use crate::components::{
    collider_in_range, in_coord_range, spec_collision, vec_in_range, Collider2D, Transform2D,
    Vector2,
};
use crate::systems::{store_in_range, EntityState};
use crate::utils::{find_entity, lemma_find_entity_in_store, spec_find_entity};

verus! {

/// Every collision originates from an entity and has an associated path that
/// goes from that entity in the direction of the collision: `path` points to
/// the center of the overlapping area.
#[derive(Clone, Copy, Debug, PartialEq, Eq, Structural)]
pub struct Collision {
    pub entity: u64,
    pub path: Vector2,
}

impl Collision {
    pub fn new(entity: u64, path: Vector2) -> (r: Self)
        ensures
            r == (Collision { entity, path }),
    {
        Collision { entity, path }
    }
}

/// On every registered collision, one `CollisionEvent` is appended to the
/// host's event channel. It carries exactly the two participants: first the
/// outer entity of the enumeration, then the inner one.
#[derive(Clone, Copy, Debug, PartialEq, Eq)]
pub struct CollisionEvent {
    pub collisions: (Collision, Collision),
}

/// The colliders both scaled by their transforms' per-axis scale, as
/// detection tests them.
pub open spec fn spec_scaled_pair(
    first_collider: Collider2D,
    second_collider: Collider2D,
    first_transform: Transform2D,
    second_transform: Transform2D,
) -> (Collider2D, Collider2D) {
    (
        first_collider.spec_scaled_by(
            first_transform.scale.x as int,
            first_transform.scale.y as int,
        ),
        second_collider.spec_scaled_by(
            second_transform.scale.x as int,
            second_transform.scale.y as int,
        ),
    )
}

/// The world-space overlap center of the two entities' scaled colliders, or
/// `None` when they do not overlap.
pub open spec fn spec_pair_center(
    first_collider: Collider2D,
    second_collider: Collider2D,
    first_transform: Transform2D,
    second_transform: Transform2D,
) -> Option<(int, int)> {
    let scaled = spec_scaled_pair(first_collider, second_collider, first_transform, second_transform);
    spec_collision(scaled.0, first_transform.translation, scaled.1, second_transform.translation)
}

/// The event detection emits for a colliding pair: participant paths point
/// from each entity's translation to the shared overlap center.
pub open spec fn spec_from_collision(
    first: u64,
    second: u64,
    first_collider: Collider2D,
    second_collider: Collider2D,
    first_transform: Transform2D,
    second_transform: Transform2D,
) -> Option<CollisionEvent> {
    match spec_pair_center(first_collider, second_collider, first_transform, second_transform) {
        Some(c) => Some(
            CollisionEvent {
                collisions: (
                    Collision {
                        entity: first,
                        path: Vector2 {
                            x: (c.0 - first_transform.translation.x) as i64,
                            y: (c.1 - first_transform.translation.y) as i64,
                        },
                    },
                    Collision {
                        entity: second,
                        path: Vector2 {
                            x: (c.0 - second_transform.translation.x) as i64,
                            y: (c.1 - second_transform.translation.y) as i64,
                        },
                    },
                ),
            },
        ),
        None => None,
    }
}

/// The bounds under which one entity's collider, transform and their product
/// stay inside the geometry's coordinate range.
pub open spec fn participant_in_range(collider: Collider2D, transform: Transform2D) -> bool {
    &&& collider_in_range(collider)
    &&& vec_in_range(transform.translation)
    &&& in_coord_range(collider.spec_width() * transform.scale.x)
    &&& in_coord_range(collider.spec_height() * transform.scale.y)
    &&& in_coord_range(collider.offset.x * transform.scale.x)
    &&& in_coord_range(collider.offset.y * transform.scale.y)
}

impl CollisionEvent {
    pub fn new(
        first: u64,
        second: u64,
        collision_path_first: Vector2,
        collision_path_second: Vector2,
    ) -> (r: Self)
        ensures
            r == (CollisionEvent {
                collisions: (
                    Collision { entity: first, path: collision_path_first },
                    Collision { entity: second, path: collision_path_second },
                ),
            }),
    {
        CollisionEvent {
            collisions: (
                Collision::new(first, collision_path_first),
                Collision::new(second, collision_path_second),
            ),
        }
    }

    /// Generate a `CollisionEvent` from two entities, their colliders and
    /// their transforms. If there is no collision, `None` is returned.
    pub fn from_collision(
        first: u64,
        second: u64,
        first_collider: &Collider2D,
        second_collider: &Collider2D,
        first_transform: &Transform2D,
        second_transform: &Transform2D,
    ) -> (r: Option<Self>)
        requires
            participant_in_range(*first_collider, *first_transform),
            participant_in_range(*second_collider, *second_transform),
        ensures
            r == spec_from_collision(
                first,
                second,
                *first_collider,
                *second_collider,
                *first_transform,
                *second_transform,
            ),
            r is Some <==> spec_pair_center(
                *first_collider,
                *second_collider,
                *first_transform,
                *second_transform,
            ) is Some,
    {
        let first_scaled = first_collider.scaled_by(
            first_transform.scale.x,
            first_transform.scale.y,
        );
        let second_scaled = second_collider.scaled_by(
            second_transform.scale.x,
            second_transform.scale.y,
        );
        let pos = first_transform.translation;
        let other_pos = second_transform.translation;

        match first_scaled.collision_paths(&pos, &second_scaled, &other_pos) {
            Some(coll_paths) => Some(CollisionEvent::new(first, second, coll_paths.0, coll_paths.1)),
            None => None,
        }
    }

    /// Generate a `CollisionEvent` from two entity ids, pulling the relevant
    /// components from the store. `None` when either entity is missing, lacks
    /// a component, or there is no collision.
    pub fn from_collision_storage(entities: &Vec<EntityState>, first: u64, second: u64) -> (r:
        Option<Self>)
        requires
            store_in_range(entities@),
        ensures
            r == spec_from_collision_storage(entities@, first, second),
    {
        match (find_entity(entities, first), find_entity(entities, second)) {
            (Some(first_entity), Some(second_entity)) => {
                match (
                    &first_entity.collider,
                    &second_entity.collider,
                    &first_entity.transform,
                    &second_entity.transform,
                ) {
                    (Some(first_coll), Some(second_coll), Some(first_trans), Some(second_trans)) => {
                        proof {
                            lemma_find_entity_in_store(entities@, first);
                            lemma_find_entity_in_store(entities@, second);
                        }
                        CollisionEvent::from_collision(
                            first,
                            second,
                            first_coll,
                            second_coll,
                            first_trans,
                            second_trans,
                        )
                    },
                    _ => None,
                }
            },
            _ => None,
        }
    }
}

/// The event two stored entities produce: their colliders and transforms are
/// pulled from the store, and missing entities or components yield `None`.
pub open spec fn spec_from_collision_storage(
    s: Seq<EntityState>,
    first: u64,
    second: u64,
) -> Option<CollisionEvent> {
    match (spec_find_entity(s, first), spec_find_entity(s, second)) {
        (Some(a), Some(b)) => match (a.collider, b.collider, a.transform, b.transform) {
            (Some(c1), Some(c2), Some(t1), Some(t2)) => spec_from_collision(
                first,
                second,
                c1,
                c2,
                t1,
                t2,
            ),
            _ => None,
        },
        _ => None,
    }
}

/// For every emitted event, each participant's path plus that participant's
/// translation is the shared overlap center: the paths of the two
/// participants point at one and the same world point.
pub proof fn lemma_path_consistency(
    first: u64,
    second: u64,
    first_collider: Collider2D,
    second_collider: Collider2D,
    first_transform: Transform2D,
    second_transform: Transform2D,
)
    requires
        participant_in_range(first_collider, first_transform),
        participant_in_range(second_collider, second_transform),
        spec_from_collision(
            first,
            second,
            first_collider,
            second_collider,
            first_transform,
            second_transform,
        ) is Some,
    ensures
        ({
            let ev = spec_from_collision(
                first,
                second,
                first_collider,
                second_collider,
                first_transform,
                second_transform,
            )->0;
            let center = spec_pair_center(
                first_collider,
                second_collider,
                first_transform,
                second_transform,
            )->0;
            &&& ev.collisions.0.path.x + first_transform.translation.x == center.0
            &&& ev.collisions.0.path.y + first_transform.translation.y == center.1
            &&& ev.collisions.1.path.x + second_transform.translation.x == center.0
            &&& ev.collisions.1.path.y + second_transform.translation.y == center.1
        }),
{
}

} // verus!
