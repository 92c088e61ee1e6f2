use aabb_physics::collision::{
    aabb_collision, find_collisions, handle_collision, resolve_collision, AABBCollider, Body,
    CollideType, CollisionEvent, TriggerContact,
};
use aabb_physics::gravity::{update_ground_state, GroundState, Terrain};
use aabb_physics::motion::{
    apply_forces, update_position, Acceleration, PhysicsConfig, Velocity,
};
use aabb_physics::{Vec2i, Vec3i, EXTENT_LIMIT, POS_LIMIT};

fn body(id: u64, x: i64, y: i64, w: i64, h: i64, category: CollideType) -> Body {
    Body {
        id,
        position: Vec3i { x, y, z: 0 },
        collider: AABBCollider::new(w, h),
        category,
    }
}

#[test]
fn overlap_symmetric() {
    let a = AABBCollider::new(10, 4);
    let b = AABBCollider::new(6, 8);
    for (dx, dy) in [(0, 0), (8, 6), (-8, 6), (7, -5), (100, 0), (3, 2)] {
        let d = Vec3i { x: dx, y: dy, z: 0 };
        let neg = Vec3i { x: -dx, y: -dy, z: 0 };
        assert_eq!(aabb_collision(&a, &b, &d), aabb_collision(&b, &a, &neg));
    }
}

#[test]
fn overlap_exact_touch_inclusive() {
    let a = AABBCollider::new(10, 10);
    let b = AABBCollider::new(10, 10);
    // |dx| == (wa+wb)/2 and |dy| == (ha+hb)/2: touching counts.
    assert!(aabb_collision(&a, &b, &Vec3i { x: 10, y: 10, z: 0 }));
    assert!(aabb_collision(&a, &b, &Vec3i { x: -10, y: 10, z: 0 }));
    // One unit past the touch on either axis: no overlap.
    assert!(!aabb_collision(&a, &b, &Vec3i { x: 11, y: 10, z: 0 }));
    assert!(!aabb_collision(&a, &b, &Vec3i { x: 10, y: 11, z: 0 }));
}

#[test]
fn overlap_ignores_z() {
    let a = AABBCollider::new(2, 2);
    let b = AABBCollider::new(2, 2);
    assert!(aabb_collision(&a, &b, &Vec3i { x: 0, y: 0, z: 500 }));
}

#[test]
fn detector_emits_overlapping_dynamic_pairs() {
    let bodies = vec![
        body(1, 0, 0, 10, 10, CollideType::Dynamic),
        body(2, 5, 0, 10, 10, CollideType::Static),
        body(3, 100, 0, 10, 10, CollideType::Static),
    ];
    let events = find_collisions(&bodies);
    assert_eq!(events.len(), 1);
    assert_eq!(events[0], CollisionEvent::new(1, 2));
}

#[test]
fn detector_single_dynamic_considers_n_minus_1_pairs() {
    // Four bodies stacked on one spot, exactly one Dynamic: every pair
    // containing it overlaps, so exactly n-1 = 3 events come out, and no
    // event pairs two non-dynamic bodies.
    let bodies = vec![
        body(10, 0, 0, 10, 10, CollideType::Static),
        body(11, 0, 0, 10, 10, CollideType::Dynamic),
        body(12, 0, 0, 10, 10, CollideType::Static),
        body(13, 0, 0, 10, 10, CollideType::Trigger),
    ];
    let events = find_collisions(&bodies);
    assert_eq!(events.len(), 3);
    for e in &events {
        assert!(e.entity == 11 || e.collided_entity == 11);
    }
    assert_eq!(events[0], CollisionEvent::new(10, 11));
    assert_eq!(events[1], CollisionEvent::new(11, 12));
    assert_eq!(events[2], CollisionEvent::new(11, 13));
}

#[test]
fn detector_skips_non_dynamic_pairs() {
    let bodies = vec![
        body(1, 0, 0, 10, 10, CollideType::Static),
        body(2, 0, 0, 10, 10, CollideType::Trigger),
        body(3, 1, 1, 10, 10, CollideType::Static),
    ];
    assert!(find_collisions(&bodies).is_empty());
}

#[test]
fn resolver_splits_x_overlap_between_dynamic_pair() {
    // Identical boxes overlapping by (4, 10): x is the smaller overlap, so
    // each box moves 2 units apart on x and y is untouched.
    let a = body(1, 0, 0, 10, 20, CollideType::Dynamic);
    let b = body(2, 6, 10, 10, 20, CollideType::Dynamic);
    let (na, nb, contact) = resolve_collision(&a, &b);
    assert_eq!(na.position.x, -2);
    assert_eq!(nb.position.x, 8);
    assert_eq!(na.position.y, 0);
    assert_eq!(nb.position.y, 10);
    assert!(contact.is_none());
    // Post-resolution overlap on x is exactly zero: they now just touch.
    assert_eq!((na.collider.width + nb.collider.width) / 2, nb.position.x - na.position.x);
}

#[test]
fn resolver_zero_x_overlap_forces_y_axis() {
    // Exact edge touch on x (overlap.x == 0) must not be chosen as the
    // separating axis even though it is the smaller magnitude.
    let a = body(1, 0, 0, 10, 10, CollideType::Dynamic);
    let b = body(2, 10, 4, 10, 10, CollideType::Dynamic);
    let (na, nb, _) = resolve_collision(&a, &b);
    assert_eq!(na.position.x, 0);
    assert_eq!(nb.position.x, 10);
    assert_eq!(na.position.y, -3);
    assert_eq!(nb.position.y, 7);
}

#[test]
fn resolver_static_body_never_moves() {
    let a = body(1, 0, 8, 10, 10, CollideType::Dynamic);
    let b = body(2, 0, 0, 100, 10, CollideType::Static);
    let (na, nb, _) = resolve_collision(&a, &b);
    // The dynamic body absorbs the full y overlap (10 - 8 = 2).
    assert_eq!(na.position.y, 10);
    assert_eq!(nb.position, Vec3i { x: 0, y: 0, z: 0 });
    // Same with the static body first.
    let (nb2, na2, _) = resolve_collision(&b, &a);
    assert_eq!(nb2.position, Vec3i { x: 0, y: 0, z: 0 });
    assert_eq!(na2.position.y, 10);
}

#[test]
fn resolver_trigger_pair_notifies_and_does_not_move() {
    let a = body(1, 0, 0, 10, 10, CollideType::Trigger);
    let b = body(2, 2, 0, 10, 10, CollideType::Dynamic);
    let (na, nb, contact) = resolve_collision(&a, &b);
    assert_eq!(na.position, a.position);
    assert_eq!(nb.position, b.position);
    assert_eq!(
        contact,
        Some(TriggerContact { entity: 1, collided_entity: 2 })
    );
}

#[test]
fn resolver_drops_event_for_missing_entity() {
    let mut bodies = vec![body(1, 0, 0, 10, 10, CollideType::Dynamic)];
    let events = vec![CollisionEvent::new(1, 99), CollisionEvent::new(1, 1)];
    let contacts = handle_collision(&mut bodies, &events);
    assert!(contacts.is_empty());
    assert_eq!(bodies[0].position, Vec3i { x: 0, y: 0, z: 0 });
}

#[test]
fn resolver_drains_queue_in_order() {
    let mut bodies = vec![
        body(1, 0, 0, 10, 20, CollideType::Dynamic),
        body(2, 6, 10, 10, 20, CollideType::Dynamic),
        body(3, 0, 0, 4, 4, CollideType::Trigger),
    ];
    let events = find_collisions(&bodies);
    // (1,2) overlap by (4, 10); (1,3) and (2,3)... body 3 touches body 1.
    let contacts = handle_collision(&mut bodies, &events);
    assert_eq!(bodies[0].position.x, -2);
    assert_eq!(bodies[1].position.x, 8);
    // Trigger volume moved nobody and was not moved.
    assert_eq!(bodies[2].position, Vec3i { x: 0, y: 0, z: 0 });
    assert!(contacts.iter().all(|c| c.entity == 3 || c.collided_entity == 3));
}

#[test]
fn ground_exact_contact_is_grounded() {
    let terrain = vec![Terrain {
        position: Vec3i { x: 0, y: 0, z: 0 },
        collider: AABBCollider::new(100, 10),
    }];
    let actor = AABBCollider::new(10, 10);
    let still = Velocity { value: Vec2i { x: 3, y: 0 } };
    let mut state = GroundState { is_grounded: false };
    // Bottom edge 10 - 5 == terrain top edge 0 + 5: grounded.
    update_ground_state(&Vec3i { x: 40, y: 10, z: 0 }, &still, &actor, &mut state, &terrain);
    assert!(state.is_grounded);
    // Any positive lift breaks the exact equality: airborne.
    update_ground_state(&Vec3i { x: 40, y: 11, z: 0 }, &still, &actor, &mut state, &terrain);
    assert!(!state.is_grounded);
    // One unit below the floor line is not contact either.
    update_ground_state(&Vec3i { x: 40, y: 9, z: 0 }, &still, &actor, &mut state, &terrain);
    assert!(!state.is_grounded);
    // Horizontal separation beyond the inclusive bound: not grounded.
    update_ground_state(&Vec3i { x: 56, y: 10, z: 0 }, &still, &actor, &mut state, &terrain);
    assert!(!state.is_grounded);
    // Exactly at the inclusive horizontal bound: grounded.
    update_ground_state(&Vec3i { x: 55, y: 10, z: 0 }, &still, &actor, &mut state, &terrain);
    assert!(state.is_grounded);
}

#[test]
fn ground_ascending_actor_keeps_previous_state() {
    let terrain = vec![Terrain {
        position: Vec3i { x: 0, y: 0, z: 0 },
        collider: AABBCollider::new(100, 10),
    }];
    let actor = AABBCollider::new(10, 10);
    let rising = Velocity { value: Vec2i { x: 0, y: 5 } };
    let mut state = GroundState { is_grounded: true };
    update_ground_state(&Vec3i { x: 0, y: 300, z: 0 }, &rising, &actor, &mut state, &terrain);
    assert!(state.is_grounded);
    let mut state2 = GroundState { is_grounded: false };
    update_ground_state(&Vec3i { x: 0, y: 10, z: 0 }, &rising, &actor, &mut state2, &terrain);
    assert!(!state2.is_grounded);
}

#[test]
fn ground_scan_is_an_or_across_terrain() {
    // A non-matching terrain after a matching one must not revert the flag.
    let terrain = vec![
        Terrain {
            position: Vec3i { x: 0, y: 0, z: 0 },
            collider: AABBCollider::new(20, 10),
        },
        Terrain {
            position: Vec3i { x: 500, y: 0, z: 0 },
            collider: AABBCollider::new(20, 10),
        },
    ];
    let actor = AABBCollider::new(10, 10);
    let falling = Velocity { value: Vec2i { x: 0, y: -1 } };
    let mut state = GroundState { is_grounded: false };
    update_ground_state(&Vec3i { x: 0, y: 10, z: 0 }, &falling, &actor, &mut state, &terrain);
    assert!(state.is_grounded);
}

#[test]
fn forces_grounded_settles_vertical() {
    let cfg = PhysicsConfig::new(10, 2, 1000, 1000);
    let grounded = GroundState { is_grounded: true };
    let mut acc = Acceleration { value: Vec2i { x: 0, y: -400 } };
    let mut vel = Velocity { value: Vec2i { x: 0, y: -900 } };
    for _ in 0..4 {
        apply_forces(&mut acc, &mut vel, &grounded, &CollideType::Dynamic, 1, &cfg);
        assert_eq!(acc.value.y, 0);
        assert_eq!(vel.value.y, 0);
    }
}

#[test]
fn forces_gravity_accumulates_while_airborne() {
    let cfg = PhysicsConfig::new(10, 2, 1000, 1000);
    let airborne = GroundState { is_grounded: false };
    let mut acc = Acceleration { value: Vec2i { x: 0, y: 0 } };
    let mut vel = Velocity { value: Vec2i { x: 0, y: 0 } };
    apply_forces(&mut acc, &mut vel, &airborne, &CollideType::Dynamic, 1, &cfg);
    assert_eq!(acc.value.y, -10);
    assert_eq!(vel.value.y, -10);
    apply_forces(&mut acc, &mut vel, &airborne, &CollideType::Dynamic, 1, &cfg);
    assert_eq!(acc.value.y, -20);
    assert_eq!(vel.value.y, -30);
}

#[test]
fn forces_horizontal_decay_pulls_toward_zero() {
    let cfg = PhysicsConfig::new(0, 3, 1000, 1000);
    let grounded = GroundState { is_grounded: true };
    let mut acc = Acceleration { value: Vec2i { x: 10, y: 0 } };
    let mut vel = Velocity { value: Vec2i { x: 0, y: 0 } };
    apply_forces(&mut acc, &mut vel, &grounded, &CollideType::Dynamic, 1, &cfg);
    assert_eq!(acc.value.x, 7);
    let mut acc_neg = Acceleration { value: Vec2i { x: -10, y: 0 } };
    apply_forces(&mut acc_neg, &mut vel, &grounded, &CollideType::Dynamic, 1, &cfg);
    assert_eq!(acc_neg.value.x, -7);
    let mut acc_zero = Acceleration { value: Vec2i { x: 0, y: 0 } };
    apply_forces(&mut acc_zero, &mut vel, &grounded, &CollideType::Dynamic, 1, &cfg);
    assert_eq!(acc_zero.value.x, 0);
}

#[test]
fn forces_clamp_acceleration_and_velocity() {
    // accel_max * dt = 14, vel_max * dt = 10: arbitrary large priors come
    // out inside the bounds after a single tick.
    let cfg = PhysicsConfig::new(5, 1, 7, 5);
    let airborne = GroundState { is_grounded: false };
    let mut acc = Acceleration { value: Vec2i { x: 900_000_000, y: 700_000_000 } };
    let mut vel = Velocity { value: Vec2i { x: -800_000_000, y: 600_000_000 } };
    apply_forces(&mut acc, &mut vel, &airborne, &CollideType::Dynamic, 2, &cfg);
    assert_eq!(acc.value.x, 14);
    assert_eq!(acc.value.y, 14);
    assert_eq!(vel.value.x, -10);
    assert_eq!(vel.value.y, 10);
}

#[test]
fn forces_leave_non_dynamic_bodies_alone() {
    let cfg = PhysicsConfig::default();
    let airborne = GroundState { is_grounded: false };
    let mut acc = Acceleration { value: Vec2i { x: 3, y: 4 } };
    let mut vel = Velocity { value: Vec2i { x: 5, y: 6 } };
    apply_forces(&mut acc, &mut vel, &airborne, &CollideType::Static, 1, &cfg);
    assert_eq!(acc.value, Vec2i { x: 3, y: 4 });
    assert_eq!(vel.value, Vec2i { x: 5, y: 6 });
    apply_forces(&mut acc, &mut vel, &airborne, &CollideType::Trigger, 1, &cfg);
    assert_eq!(vel.value, Vec2i { x: 5, y: 6 });
}

#[test]
fn position_advances_by_velocity_times_dt() {
    let mut p = Vec3i { x: 1, y: 2, z: 3 };
    update_position(&mut p, &Velocity { value: Vec2i { x: 10, y: -1 } }, 2);
    assert_eq!(p, Vec3i { x: 21, y: 0, z: 3 });
    update_position(&mut p, &Velocity { value: Vec2i { x: 0, y: 0 } }, 1000);
    assert_eq!(p, Vec3i { x: 21, y: 0, z: 3 });
}

#[test]
fn falling_box_settles_on_static_ground() {
    // A dynamic box falling onto a static floor: after enough ticks its
    // bottom edge rests exactly on the floor's top edge, grounded, with
    // zero vertical velocity.
    let cfg = PhysicsConfig::new(1, 0, 1000, 1000);
    let mut bodies = vec![
        body(1, 0, 11, 10, 10, CollideType::Dynamic),
        body(2, 0, 0, 100, 10, CollideType::Static),
    ];
    let mut vel = Velocity { value: Vec2i { x: 0, y: -1 } };
    let mut acc = Acceleration { value: Vec2i { x: 0, y: 0 } };
    let mut state = GroundState { is_grounded: false };
    let terrain = vec![Terrain {
        position: bodies[1].position,
        collider: bodies[1].collider,
    }];
    for _ in 0..6 {
        let events = find_collisions(&bodies);
        handle_collision(&mut bodies, &events);
        let actor_pos = bodies[0].position;
        let actor_coll = bodies[0].collider;
        update_ground_state(&actor_pos, &vel, &actor_coll, &mut state, &terrain);
        apply_forces(&mut acc, &mut vel, &state, &CollideType::Dynamic, 1, &cfg);
        let mut p = bodies[0].position;
        update_position(&mut p, &vel, 1);
        bodies[0].position = p;
    }
    // Floor top edge is at y = 5; the box (height 10) rests at y = 10.
    assert_eq!(bodies[0].position.y, 10);
    assert!(state.is_grounded);
    assert_eq!(vel.value.y, 0);
    // The static floor never moved.
    assert_eq!(bodies[1].position, Vec3i { x: 0, y: 0, z: 0 });
}

#[test]
fn empty_world_is_quiet() {
    let bodies: Vec<Body> = Vec::new();
    assert!(find_collisions(&bodies).is_empty());
    let mut none: Vec<Body> = Vec::new();
    assert!(handle_collision(&mut none, &vec![CollisionEvent::new(1, 2)]).is_empty());
    // No terrain at all: a still actor is airborne.
    let mut state = GroundState { is_grounded: true };
    update_ground_state(
        &Vec3i::new(0, 0, 0),
        &Velocity { value: Vec2i::new(0, 0) },
        &AABBCollider::new(10, 10),
        &mut state,
        &Vec::new(),
    );
    assert!(!state.is_grounded);
}

#[test]
fn largest_extents_touch_at_the_bound() {
    let a = AABBCollider::new(EXTENT_LIMIT, 2);
    let b = AABBCollider::new(EXTENT_LIMIT, 2);
    assert!(aabb_collision(&a, &b, &Vec3i::new(EXTENT_LIMIT, 0, 0)));
    assert!(!aabb_collision(&a, &b, &Vec3i::new(EXTENT_LIMIT + 1, 0, 0)));
}

#[test]
fn displacement_saturates_at_the_world_edge() {
    // Two coincident dynamic bodies at the world's top edge: the id
    // tie-break sends the larger id upward, where it cannot leave the
    // world, so its coordinate saturates.
    let a = body(1, 0, POS_LIMIT, 10, 2, CollideType::Dynamic);
    let b = body(2, 0, POS_LIMIT, 10, 2, CollideType::Dynamic);
    let (na, nb, _) = resolve_collision(&a, &b);
    assert_eq!(na.position.y, POS_LIMIT - 1);
    assert_eq!(nb.position.y, POS_LIMIT);
}

#[test]
fn resolution_is_order_symmetric_at_coincident_centers() {
    // Two coincident dynamic boxes: whichever body an event names first,
    // each body ends in the same place. The tie goes by entity id — the
    // smaller id moves toward the negative side.
    let a = body(1, 0, 0, 2, 2, CollideType::Dynamic);
    let b = body(2, 0, 0, 2, 2, CollideType::Dynamic);
    let (na, nb, _) = resolve_collision(&a, &b);
    let (nb2, na2, _) = resolve_collision(&b, &a);
    assert_eq!(na.position, na2.position);
    assert_eq!(nb.position, nb2.position);
    assert_eq!(na.position.y, -1);
    assert_eq!(nb.position.y, 1);
    // The same through the event queue, one run per event order.
    let mut first = vec![a, b];
    handle_collision(&mut first, &vec![CollisionEvent::new(1, 2)]);
    let mut second = vec![a, b];
    handle_collision(&mut second, &vec![CollisionEvent::new(2, 1)]);
    assert_eq!(first[0].position, second[0].position);
    assert_eq!(first[1].position, second[1].position);
}

#[test]
fn resolution_is_order_symmetric_off_center() {
    let a = body(7, 0, 0, 10, 20, CollideType::Dynamic);
    let b = body(8, 6, 10, 10, 20, CollideType::Dynamic);
    let (na, nb, _) = resolve_collision(&a, &b);
    let (nb2, na2, _) = resolve_collision(&b, &a);
    assert_eq!(na.position, na2.position);
    assert_eq!(nb.position, nb2.position);
}

#[test]
fn event_and_vector_builders_carry_their_fields() {
    let e = CollisionEvent::new(7, 9);
    assert_eq!(e.entity, 7);
    assert_eq!(e.collided_entity, 9);
    assert_eq!(Vec2i::new(-3, 4), Vec2i { x: -3, y: 4 });
    assert_eq!(Vec3i::new(1, -2, 3), Vec3i { x: 1, y: -2, z: 3 });
    let cfg = PhysicsConfig::new(1, 2, 3, 4);
    assert_eq!(cfg.gravity, 1);
    assert_eq!(cfg.accel_decay, 2);
    assert_eq!(cfg.accel_max, 3);
    assert_eq!(cfg.vel_max, 4);
}
