//! Geometry: overlap centers, colliders, paths and event construction.
//!
//! Coordinates are integers on a fixed-point grid; these tests use a scale of
//! ten thousand minor units per world unit, so every expected value is exact.

use collider_physics::components::{overlap_center, Collider2D, Transform2D, Vector2};
use collider_physics::events::CollisionEvent;
use collider_physics::systems::EntityState;

fn vec2(x: i64, y: i64) -> Vector2 {
    Vector2 { x, y }
}

fn transform(x: i64, y: i64) -> Transform2D {
    Transform2D { translation: vec2(x, y), scale: vec2(1, 1) }
}

fn entity(id: u64, collider: Option<Collider2D>, t: Option<Transform2D>) -> EntityState {
    EntityState {
        id,
        collider,
        transform: t,
        velocity: None,
        mode: None,
        passive: false,
        deactivated: false,
    }
}

#[test]
fn test_overlap() {
    // No overlap -- First under second
    assert_eq!(overlap_center(200000, 30000, 300000, 40000), None);
    // No overlap -- First on top of second
    assert_eq!(overlap_center(300000, 110000, 150000, 60000), None);

    // First under second
    assert_eq!(overlap_center(900000, 680000, 1300000, 200000), Some(1220000));
    // First on top of second
    assert_eq!(overlap_center(246000, 34000, 200000, 66000), Some(231000));

    // First inside second
    assert_eq!(overlap_center(13400, 22000, -406543, 20005000), Some(13400));
    // Second inside first
    assert_eq!(overlap_center(-1242345, 34563200, -23400, 452000), Some(-23400));
}

#[test]
fn test_overlap_touching_boundary() {
    // Boundary touching counts as overlap; the shared edge is the center.
    assert_eq!(overlap_center(0, 10, 10, 10), Some(5));
    assert_eq!(overlap_center(10, 10, 0, 10), Some(5));
}

#[test]
fn test_overlap_zero_extent() {
    // A zero-extent interval collides only when it lies on the other one.
    assert_eq!(overlap_center(5, 0, 10, 10), Some(5));
    assert_eq!(overlap_center(4, 0, 10, 10), None);
}

#[test]
fn test_overlap_negative_extent_asymmetry() {
    // Both starts are shifted by the first extent's min(extent, 0) only, so
    // with extents of mixed sign the two argument orders disagree about the
    // center while still agreeing that an overlap exists.
    assert_eq!(overlap_center(0, 2, 0, -2), Some(1));
    assert_eq!(overlap_center(0, -2, 0, 2), Some(3));
}

#[test]
fn test_overlap_symmetric_for_positive_extents() {
    assert_eq!(
        overlap_center(246000, 34000, 200000, 66000),
        overlap_center(200000, 66000, 246000, 34000)
    );
    assert_eq!(
        overlap_center(900000, 680000, 1300000, 200000),
        overlap_center(1300000, 200000, 900000, 680000)
    );
}

#[test]
fn test_rect_constructors() {
    let c = Collider2D::rect(100, 200, vec2(10, -20));
    assert_eq!(c.width(), 100);
    assert_eq!(c.height(), 200);
    assert_eq!(c.offset, vec2(10, -20));

    let c = Collider2D::rect_without_offset(-50, 70);
    assert_eq!(c.width(), -50);
    assert_eq!(c.height(), 70);
    assert_eq!(c.offset, vec2(0, 0));
}

#[test]
fn test_scaled_by() {
    let c = Collider2D::rect(100, 200, vec2(10, -20));
    let s = c.scaled_by(3, 2);
    assert_eq!(s.width(), 300);
    assert_eq!(s.height(), 400);
    assert_eq!(s.offset, vec2(30, -40));
}

#[test]
fn test_collider_collision() {
    let a = Collider2D::rect_without_offset(40000, 40000);
    let b = Collider2D::rect_without_offset(40000, 40000);
    let pos_a = vec2(0, 0);
    let pos_b = vec2(30000, 10000);

    assert!(a.collides_with(&pos_a, &b, &pos_b));
    assert_eq!(a.collision(&pos_a, &b, &pos_b), Some(vec2(15000, 5000)));

    // Far apart on the x axis: no collision even though y overlaps.
    let pos_far = vec2(100000, 0);
    assert!(!a.collides_with(&pos_a, &b, &pos_far));
    assert_eq!(a.collision(&pos_a, &b, &pos_far), None);
}

#[test]
fn test_collision_paths() {
    let a = Collider2D::rect_without_offset(40000, 40000);
    let b = Collider2D::rect_without_offset(40000, 40000);
    let pos_a = vec2(0, 0);
    let pos_b = vec2(30000, 10000);

    let (path_a, path_b) = a.collision_paths(&pos_a, &b, &pos_b).unwrap();
    assert_eq!(path_a, vec2(15000, 5000));
    assert_eq!(path_b, vec2(-15000, -5000));

    // Path consistency: each path plus its entity's position is the one
    // shared overlap center.
    let center = a.collision(&pos_a, &b, &pos_b).unwrap();
    assert_eq!(vec2(path_a.x + pos_a.x, path_a.y + pos_a.y), center);
    assert_eq!(vec2(path_b.x + pos_b.x, path_b.y + pos_b.y), center);
}

#[test]
fn test_from_collision() {
    let a = Collider2D::rect_without_offset(40000, 40000);
    let b = Collider2D::rect_without_offset(40000, 40000);
    let ta = transform(0, 0);
    let tb = transform(30000, 10000);

    let ev = CollisionEvent::from_collision(7, 9, &a, &b, &ta, &tb).unwrap();
    assert_eq!(ev.collisions.0.entity, 7);
    assert_eq!(ev.collisions.1.entity, 9);
    assert_eq!(ev.collisions.0.path, vec2(15000, 5000));
    assert_eq!(ev.collisions.1.path, vec2(-15000, -5000));

    let far = transform(100000, 0);
    assert_eq!(CollisionEvent::from_collision(7, 9, &a, &b, &ta, &far), None);
}

#[test]
fn test_from_collision_scales_colliders() {
    // A 10000-wide collider scaled by 3 reaches a partner 20000 away.
    let a = Collider2D::rect_without_offset(10000, 10000);
    let b = Collider2D::rect_without_offset(10000, 10000);
    let mut ta = transform(0, 0);
    ta.scale = Vector2 { x: 3, y: 3 };
    let tb = transform(20000, 0);

    assert!(CollisionEvent::from_collision(1, 2, &a, &b, &ta, &tb).is_some());

    let ta_unscaled = transform(0, 0);
    assert_eq!(CollisionEvent::from_collision(1, 2, &a, &b, &ta_unscaled, &tb), None);
}

#[test]
fn test_from_collision_storage() {
    let a = Collider2D::rect_without_offset(40000, 40000);
    let b = Collider2D::rect_without_offset(40000, 40000);
    let store = vec![
        entity(7, Some(a), Some(transform(0, 0))),
        entity(9, Some(b), Some(transform(30000, 10000))),
        entity(11, Some(b), None),
    ];

    let ev = CollisionEvent::from_collision_storage(&store, 7, 9).unwrap();
    assert_eq!(ev.collisions.0.entity, 7);
    assert_eq!(ev.collisions.1.entity, 9);

    // Missing transform on one side: no event.
    assert_eq!(CollisionEvent::from_collision_storage(&store, 7, 11), None);
    // Unknown entity: no event.
    assert_eq!(CollisionEvent::from_collision_storage(&store, 7, 42), None);
}

#[test]
fn test_collision_event_new() {
    let ev = CollisionEvent::new(3, 4, vec2(1, 2), vec2(-1, -2));
    assert_eq!(ev.collisions.0.entity, 3);
    assert_eq!(ev.collisions.0.path, vec2(1, 2));
    assert_eq!(ev.collisions.1.entity, 4);
    assert_eq!(ev.collisions.1.path, vec2(-1, -2));
}
