//! Tests for the physics engine.
//!
//! All quantities are fixed-point counts of millionths of a unit, so one
//! whole unit is `SCALE` counts.

use profesor::fx::SCALE;
use profesor::{PhysicsWorld, RigidBody, Vec2};

#[test]
fn test_vec2_operations() {
    let a = Vec2::new(3 * SCALE, 4 * SCALE);
    let b = Vec2::new(SCALE, 2 * SCALE);

    assert_eq!(a.magnitude(), 5 * SCALE);
    assert_eq!(a.add(&b), Vec2::new(4 * SCALE, 6 * SCALE));
    assert_eq!(a.sub(&b), Vec2::new(2 * SCALE, 2 * SCALE));
    assert_eq!(a.scale(2 * SCALE), Vec2::new(6 * SCALE, 8 * SCALE));
    assert_eq!(a.dot(&b), 11 * SCALE);
}

#[test]
fn test_vec2_normalize() {
    let v = Vec2::new(3 * SCALE, 4 * SCALE);
    let n = v.normalize();
    assert_eq!(n.magnitude(), SCALE);
}

#[test]
fn test_rigid_body_creation() {
    let body = RigidBody::new(10 * SCALE, 20 * SCALE)
        .with_mass(2 * SCALE)
        .with_restitution(SCALE / 2);

    assert_eq!(body.position, Vec2::new(10 * SCALE, 20 * SCALE));
    assert_eq!(body.mass, 2 * SCALE);
    assert_eq!(body.restitution, SCALE / 2);
}

#[test]
fn test_apply_force() {
    let mut body = RigidBody::new(0, 0).with_mass(2 * SCALE);
    body.apply_force(Vec2::new(10 * SCALE, 0));

    // F = ma, so a = F/m = 10/2 = 5
    assert_eq!(body.acceleration.x, 5 * SCALE);
}

#[test]
fn test_kinetic_energy() {
    let mut body = RigidBody::new(0, 0).with_mass(2 * SCALE);
    body.velocity = Vec2::new(3 * SCALE, 4 * SCALE); // |v| = 5

    // KE = 0.5 * m * v^2 = 0.5 * 2 * 25 = 25
    assert_eq!(body.kinetic_energy(), 25 * SCALE);
}

#[test]
fn test_physics_world_step() {
    let mut world = PhysicsWorld::new()
        .with_gravity(Vec2::new(0, 10 * SCALE))
        .with_dt(SCALE / 10);

    world.add_body(RigidBody::new(0, 0));

    let initial_y = world.bodies[0].position.y;
    world.step();
    let after_y = world.bodies[0].position.y;

    // Body should have moved down due to gravity
    assert!(after_y > initial_y);
}

#[test]
fn test_bounds_collision() {
    let mut world = PhysicsWorld::new()
        .with_gravity(Vec2::zero())
        .with_dt(SCALE / 10)
        .with_bounds(0, 0, 100 * SCALE, 100 * SCALE);

    let mut body = RigidBody::new(5 * SCALE, 50 * SCALE).with_radius(10 * SCALE);
    body.velocity = Vec2::new(-100 * SCALE, 0);
    world.add_body(body);

    world.step();

    // Body should have bounced off left wall
    assert!(world.bodies[0].velocity.x > 0);
}

#[test]
fn test_total_kinetic_energy() {
    let mut world = PhysicsWorld::new();

    let mut body1 = RigidBody::new(0, 0).with_mass(SCALE);
    body1.velocity = Vec2::new(2 * SCALE, 0);

    let mut body2 = RigidBody::new(50 * SCALE, 0).with_mass(SCALE);
    body2.velocity = Vec2::new(3 * SCALE, 0);

    world.add_body(body1);
    world.add_body(body2);

    // KE = 0.5*1*4 + 0.5*1*9 = 2 + 4.5 = 6.5
    assert_eq!(world.total_kinetic_energy(), 6 * SCALE + SCALE / 2);
}

#[test]
fn test_normalize_small_vector() {
    // A vector of vanishing magnitude normalizes to the zero vector.
    let v = Vec2::new(0, 0);
    assert_eq!(v.normalize(), Vec2::zero());
}

#[test]
fn test_normalize_gives_unit_length() {
    // Several directions, each at least one unit long.
    let cases = [
        (3 * SCALE, 4 * SCALE),
        (-7 * SCALE, 2 * SCALE),
        (SCALE, 0),
        (0, -SCALE),
        (123 * SCALE, -456 * SCALE),
    ];
    for (x, y) in cases {
        let n = Vec2::new(x, y).normalize();
        let mag = n.magnitude();
        assert!((mag - SCALE).abs() <= 3, "magnitude {} for ({}, {})", mag, x, y);
    }
}

#[test]
fn test_dot_product_commutative() {
    let a = Vec2::new(3 * SCALE, -7 * SCALE);
    let b = Vec2::new(12345, 67890);
    assert_eq!(a.dot(&b), b.dot(&a));
}

#[test]
fn test_kinetic_energy_non_negative() {
    let cases = [
        (SCALE / 10, -9 * SCALE, SCALE),
        (100 * SCALE, 3 * SCALE, -4 * SCALE),
        (SCALE, 0, 0),
    ];
    for (mass, vx, vy) in cases {
        let mut body = RigidBody::new(0, 0).with_mass(mass);
        body.velocity = Vec2::new(vx, vy);
        assert!(body.kinetic_energy() >= 0);
    }
}

#[test]
fn test_step_at_rest_stays() {
    // A body at rest with zero gravity keeps its position across a step.
    let mut world = PhysicsWorld::new()
        .with_gravity(Vec2::zero())
        .with_dt(SCALE / 10);
    world.add_body(RigidBody::new(7 * SCALE, 9 * SCALE));

    world.step();

    assert_eq!(world.bodies[0].position, Vec2::new(7 * SCALE, 9 * SCALE));
    assert_eq!(world.bodies[0].velocity, Vec2::zero());
}

#[test]
fn test_step_semi_implicit_euler() {
    // Gravity (0, 10), dt = 0.1, body starting at y = 0 with zero
    // velocity: after one step the velocity is exactly 1 and the position
    // exactly 0.1, because the velocity updates before the position.
    let mut world = PhysicsWorld::new()
        .with_gravity(Vec2::new(0, 10 * SCALE))
        .with_dt(SCALE / 10);
    world.add_body(RigidBody::new(0, 0));

    world.step();

    assert_eq!(world.bodies[0].velocity.y, SCALE);
    assert_eq!(world.bodies[0].position.y, SCALE / 10);
}

#[test]
fn test_left_wall_reflection() {
    // Bounds (0,0,100,100), body at x = 5 with radius 10 moving left at
    // 100: after the step it sits tangent to the left wall at x = 10 with
    // a positive (reflected) velocity.
    let mut world = PhysicsWorld::new()
        .with_gravity(Vec2::zero())
        .with_dt(SCALE / 10)
        .with_bounds(0, 0, 100 * SCALE, 100 * SCALE);
    let mut body = RigidBody::new(5 * SCALE, 50 * SCALE).with_radius(10 * SCALE);
    body.velocity = Vec2::new(-100 * SCALE, 0);
    world.add_body(body);

    world.step();

    assert_eq!(world.bodies[0].position.x, 10 * SCALE);
    assert_eq!(world.bodies[0].velocity.x, 80 * SCALE);
}

#[test]
fn test_separated_bodies_keep_velocity() {
    // Two bodies whose distance exceeds the sum of radii: stepping with
    // zero gravity leaves both velocities untouched by the collision pass.
    let mut world = PhysicsWorld::new()
        .with_gravity(Vec2::zero())
        .with_dt(SCALE / 1000);
    let mut a = RigidBody::new(0, 0).with_radius(SCALE);
    a.velocity = Vec2::new(SCALE / 100, 0);
    let mut b = RigidBody::new(50 * SCALE, 0).with_radius(SCALE);
    b.velocity = Vec2::new(-SCALE / 100, 0);
    world.add_body(a);
    world.add_body(b);

    world.step();

    assert_eq!(world.bodies[0].velocity, Vec2::new(SCALE / 100, 0));
    assert_eq!(world.bodies[1].velocity, Vec2::new(-SCALE / 100, 0));
}

#[test]
fn test_body_count_roundtrip() {
    // Adding N bodies always yields body_count() == N, whatever the
    // bodies' properties.
    let mut world = PhysicsWorld::new();
    assert_eq!(world.body_count(), 0);
    for i in 0..17i64 {
        let body = RigidBody::new(i * SCALE, -i * SCALE)
            .with_mass(i * SCALE + 1)
            .with_radius(i * 1000);
        world.add_body(body);
        assert_eq!(world.body_count(), (i + 1) as usize);
    }
    assert_eq!(world.body_count(), 17);
}

#[test]
fn test_matched_velocities_keep_energy() {
    // Two overlapping equal-mass bodies moving with the same velocity:
    // the resolver finds no relative velocity along the normal and no
    // impulse is applied, so kinetic energy is unchanged.
    let mut world = PhysicsWorld::new()
        .with_gravity(Vec2::zero())
        .with_dt(SCALE / 1000);
    let mut a = RigidBody::new(0, 0).with_radius(10 * SCALE).with_restitution(SCALE);
    a.velocity = Vec2::new(SCALE, 0);
    let mut b = RigidBody::new(15 * SCALE, 0).with_radius(10 * SCALE).with_restitution(SCALE);
    b.velocity = Vec2::new(SCALE, 0);
    world.add_body(a);
    world.add_body(b);
    let energy_before = world.total_kinetic_energy();

    world.step();

    assert_eq!(world.bodies[0].velocity, world.bodies[1].velocity);
    assert_eq!(world.total_kinetic_energy(), energy_before);
}

#[test]
fn test_head_on_elastic_exchange() {
    // Two equal-mass bodies approaching head-on with equal and opposite
    // velocities and restitution 1: collision resolution exchanges the
    // velocities exactly and preserves the total kinetic energy.
    let mut world = PhysicsWorld::new()
        .with_gravity(Vec2::zero())
        .with_dt(SCALE / 1000);
    let mut a = RigidBody::new(0, 0).with_radius(10 * SCALE).with_restitution(SCALE);
    a.velocity = Vec2::new(SCALE, 0);
    let mut b = RigidBody::new(15 * SCALE, 0).with_radius(10 * SCALE).with_restitution(SCALE);
    b.velocity = Vec2::new(-SCALE, 0);
    world.add_body(a);
    world.add_body(b);
    let energy_before = world.total_kinetic_energy();

    world.step();

    assert_eq!(world.bodies[0].velocity, Vec2::new(-SCALE, 0));
    assert_eq!(world.bodies[1].velocity, Vec2::new(SCALE, 0));
    assert_eq!(world.total_kinetic_energy(), energy_before);
    // The overlap is corrected by pushing each body back half of it.
    assert_eq!(world.bodies[0].position.x, -2_500_000);
    assert_eq!(world.bodies[1].position.x, 17_500_000);
}

#[test]
fn test_separating_pair_is_skipped() {
    // An overlapping pair already moving apart gets no impulse and no
    // positional correction: the collision pass leaves both unchanged.
    let mut world = PhysicsWorld::new()
        .with_gravity(Vec2::zero())
        .with_dt(SCALE / 1000);
    let mut a = RigidBody::new(0, 0).with_radius(10 * SCALE).with_restitution(SCALE);
    a.velocity = Vec2::new(-SCALE, 0);
    let mut b = RigidBody::new(15 * SCALE, 0).with_radius(10 * SCALE).with_restitution(SCALE);
    b.velocity = Vec2::new(SCALE, 0);
    world.add_body(a);
    world.add_body(b);

    world.step();

    assert_eq!(world.bodies[0].velocity, Vec2::new(-SCALE, 0));
    assert_eq!(world.bodies[1].velocity, Vec2::new(SCALE, 0));
    // Only the integration moved them; the collision pass did not.
    assert_eq!(world.bodies[0].position.x, -1000);
    assert_eq!(world.bodies[1].position.x, 15 * SCALE + 1000);
}
