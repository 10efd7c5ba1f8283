//! The per-tick pipeline: movement, detection over a store, and the
//! collision-handling decisions.

use collider_physics::components::{
    Collider2D, HandleCollisionMode, Transform2D, Vector2, Velocity,
};
use collider_physics::events::{Collision, CollisionEvent};
use collider_physics::systems::{
    CollisionSystem, EntityState, HandleCollisionsSystem, MovementSystem, SystemKind,
};
use collider_physics::utils::{
    get_components, handle_collision, HandleCollisionComponents, VelocityUpdate,
};
use collider_physics::ColliderPhysicsBundle;

fn vec2(x: i64, y: i64) -> Vector2 {
    Vector2 { x, y }
}

fn transform(x: i64, y: i64) -> Transform2D {
    Transform2D { translation: vec2(x, y), scale: vec2(1, 1) }
}

fn square() -> Collider2D {
    Collider2D::rect_without_offset(40000, 40000)
}

fn entity(id: u64, x: i64, y: i64) -> EntityState {
    EntityState {
        id,
        collider: Some(square()),
        transform: Some(transform(x, y)),
        velocity: None,
        mode: None,
        passive: false,
        deactivated: false,
    }
}

#[test]
fn test_collision_system_tick() {
    let mut passive_near = entity(3, 10000, 0);
    passive_near.passive = true;
    let mut deactivated = entity(4, 0, 0);
    deactivated.deactivated = true;
    let mut passive_far = entity(5, 20000, 0);
    passive_far.passive = true;
    let mut no_transform = entity(6, 0, 0);
    no_transform.transform = None;

    let store = vec![
        entity(1, 0, 0),
        entity(2, 30000, 10000),
        passive_near,
        deactivated,
        passive_far,
        no_transform,
    ];

    let events = CollisionSystem.run(&store);
    let pairs: Vec<(u64, u64)> = events
        .iter()
        .map(|ev| (ev.collisions.0.entity, ev.collisions.1.entity))
        .collect();
    assert_eq!(pairs, vec![(1, 2), (1, 3), (1, 5), (2, 3), (2, 5)]);

    // The first event carries the exact paths toward the overlap center.
    assert_eq!(events[0].collisions.0.path, vec2(15000, 5000));
    assert_eq!(events[0].collisions.1.path, vec2(-15000, -5000));
}

#[test]
fn test_collision_system_passive_pair_no_event() {
    let mut a = entity(1, 0, 0);
    a.passive = true;
    let mut b = entity(2, 10000, 0);
    b.passive = true;
    let events = CollisionSystem.run(&vec![a, b]);
    assert!(events.is_empty());
}

#[test]
fn test_collision_system_deactivated_no_event() {
    let a = entity(1, 0, 0);
    let mut b = entity(2, 10000, 0);
    b.deactivated = true;
    let events = CollisionSystem.run(&vec![a, b]);
    assert!(events.is_empty());
}

#[test]
fn test_collision_system_single_event_per_pair() {
    // Two active overlapping entities: one event, not two.
    let events = CollisionSystem.run(&vec![entity(1, 0, 0), entity(2, 10000, 0)]);
    assert_eq!(events.len(), 1);
    assert_eq!(events[0].collisions.0.entity, 1);
    assert_eq!(events[0].collisions.1.entity, 2);
}

#[test]
fn test_movement_system() {
    let mut mover = entity(1, 100, 200);
    mover.velocity = Some(Velocity(vec2(3, -4)));
    let mut store = vec![mover];

    MovementSystem.run(&mut store, 10);
    let t = store[0].transform.unwrap();
    assert_eq!(t.translation, vec2(130, 160));
    // Scale is untouched.
    assert_eq!(t.scale, vec2(1, 1));
}

#[test]
fn test_movement_system_skips_incomplete() {
    let still = entity(1, 100, 200);
    let mut no_transform = entity(2, 0, 0);
    no_transform.transform = None;
    no_transform.velocity = Some(Velocity(vec2(5, 5)));
    let mut store = vec![still, no_transform];

    MovementSystem.run(&mut store, 10);
    assert_eq!(store[0].transform.unwrap().translation, vec2(100, 200));
    assert_eq!(store[1], no_transform);
}

#[test]
fn test_handle_collision_modes() {
    let own = Collision { entity: 1, path: vec2(10, 20) };
    let other = Collision { entity: 2, path: vec2(-10, -20) };
    let velocity = Velocity(vec2(100, 0));

    let comps = |mode| HandleCollisionComponents { mode, velocity };

    assert_eq!(
        handle_collision(&own, &other, &comps(HandleCollisionMode::Ignore)),
        VelocityUpdate::Keep
    );
    assert_eq!(
        handle_collision(&own, &other, &comps(HandleCollisionMode::Reflect)),
        VelocityUpdate::Reflect { path: vec2(10, 20) }
    );
    assert_eq!(
        handle_collision(&own, &other, &comps(HandleCollisionMode::Bounce(3))),
        VelocityUpdate::Bounce { path: vec2(10, 20), factor: 3 }
    );
    assert_eq!(
        handle_collision(&own, &other, &comps(HandleCollisionMode::Oppose)),
        VelocityUpdate::Oppose { other_path: vec2(-10, -20) }
    );
}

#[test]
fn test_get_components() {
    let mut with_both = entity(1, 0, 0);
    with_both.mode = Some(HandleCollisionMode::Reflect);
    with_both.velocity = Some(Velocity(vec2(7, 8)));
    let mut mode_only = entity(2, 0, 0);
    mode_only.mode = Some(HandleCollisionMode::Oppose);
    let store = vec![with_both, mode_only];

    let comps = get_components(&store, 1).unwrap();
    assert_eq!(comps.mode, HandleCollisionMode::Reflect);
    assert_eq!(comps.velocity, Velocity(vec2(7, 8)));

    // A mode without a velocity is skipped, as is an unknown entity.
    assert!(get_components(&store, 2).is_none());
    assert!(get_components(&store, 3).is_none());
}

#[test]
fn test_handle_collisions_system() {
    let mut reflecting = entity(1, 0, 0);
    reflecting.mode = Some(HandleCollisionMode::Reflect);
    reflecting.velocity = Some(Velocity(vec2(100, 0)));
    let mut bouncing = entity(2, 30000, 10000);
    bouncing.mode = Some(HandleCollisionMode::Bounce(2));
    bouncing.velocity = Some(Velocity(vec2(0, -50)));
    let mut ignoring = entity(3, 0, 0);
    ignoring.mode = Some(HandleCollisionMode::Ignore);
    ignoring.velocity = Some(Velocity(vec2(1, 1)));
    // Entity 4 has no velocity: its side of the event is skipped.
    let mut mode_only = entity(4, 0, 0);
    mode_only.mode = Some(HandleCollisionMode::Oppose);
    let store = vec![reflecting, bouncing, ignoring, mode_only];

    let mut channel: Vec<CollisionEvent> = Vec::new();
    let mut system = HandleCollisionsSystem::new();
    system.setup(&channel);

    channel.push(CollisionEvent::new(1, 2, vec2(15000, 5000), vec2(-15000, -5000)));
    channel.push(CollisionEvent::new(3, 4, vec2(5, 0), vec2(-5, 0)));

    let updates = system.run(&channel, &store);
    assert_eq!(
        updates,
        vec![
            (1, VelocityUpdate::Reflect { path: vec2(15000, 5000) }),
            (2, VelocityUpdate::Bounce { path: vec2(-15000, -5000), factor: 2 }),
            (3, VelocityUpdate::Keep),
        ]
    );

    // The cursor advanced: a second run sees nothing new.
    let updates = system.run(&channel, &store);
    assert!(updates.is_empty());

    // Only events appended after the last run are read.
    channel.push(CollisionEvent::new(2, 1, vec2(-3, 0), vec2(3, 0)));
    let updates = system.run(&channel, &store);
    assert_eq!(
        updates,
        vec![
            (2, VelocityUpdate::Bounce { path: vec2(-3, 0), factor: 2 }),
            (1, VelocityUpdate::Reflect { path: vec2(3, 0) }),
        ]
    );
}

#[test]
fn test_handle_collisions_setup_skips_existing_events() {
    let mut reflecting = entity(1, 0, 0);
    reflecting.mode = Some(HandleCollisionMode::Reflect);
    reflecting.velocity = Some(Velocity(vec2(100, 0)));
    let store = vec![reflecting];

    let mut channel: Vec<CollisionEvent> = Vec::new();
    channel.push(CollisionEvent::new(1, 2, vec2(1, 0), vec2(-1, 0)));

    let mut system = HandleCollisionsSystem::new();
    system.setup(&channel);
    // Events already in the channel at registration are not replayed.
    assert!(system.run(&channel, &store).is_empty());
}

#[test]
fn test_default_mode() {
    assert_eq!(HandleCollisionMode::default(), HandleCollisionMode::Ignore);
}

#[test]
fn test_bundle_build() {
    let systems = ColliderPhysicsBundle::new().build();
    assert_eq!(systems, vec![SystemKind::Movement, SystemKind::Collision]);
}

#[test]
fn test_bundle_with_collision_handler() {
    let systems = ColliderPhysicsBundle::new().with_collision_handler().build();
    assert_eq!(
        systems,
        vec![SystemKind::Movement, SystemKind::Collision, SystemKind::HandleCollisions]
    );
}
