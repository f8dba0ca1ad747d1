//! 2D rigid-body physics for visual demonstrations.
//!
//! Vectors, circular point-mass bodies and a world that integrates them
//! with semi-implicit Euler stepping, axis-aligned boundary reflection and
//! pairwise impulse-based collision resolution.  All quantities are
//! fixed-point counts of millionths of a unit (see [`crate::fx`]), so every
//! step is an exact, deterministic function of the previous state.

use vstd::prelude::*;

use crate::fx;
use crate::fx::{clip, fx_add, fx_div, fx_mul, fx_sub, one, sqrt_int, tdiv, SCALE};

verus! {

/// A 2D vector with fixed-point components.
#[derive(Debug, Clone, Copy, PartialEq, Eq, Structural)]
pub struct Vec2 {
    /// X component, in millionths of a unit
    pub x: i64,
    /// Y component, in millionths of a unit
    pub y: i64,
}

/// The zero vector.
pub open spec fn v_zero() -> Vec2 {
    Vec2 { x: 0, y: 0 }
}

/// Componentwise saturating addition.
pub open spec fn v_add(a: Vec2, b: Vec2) -> Vec2 {
    Vec2 { x: fx_add(a.x as int, b.x as int) as i64, y: fx_add(a.y as int, b.y as int) as i64 }
}

/// Componentwise saturating subtraction.
pub open spec fn v_sub(a: Vec2, b: Vec2) -> Vec2 {
    Vec2 { x: fx_sub(a.x as int, b.x as int) as i64, y: fx_sub(a.y as int, b.y as int) as i64 }
}

/// Componentwise saturating scaling by a fixed-point factor.
pub open spec fn v_scale(a: Vec2, k: int) -> Vec2 {
    Vec2 { x: fx_mul(a.x as int, k) as i64, y: fx_mul(a.y as int, k) as i64 }
}

/// Fixed-point dot product.
pub open spec fn v_dot(a: Vec2, b: Vec2) -> int {
    fx_add(fx_mul(a.x as int, b.x as int), fx_mul(a.y as int, b.y as int))
}

/// The Euclidean length of the vector in fixed-point units: the integer
/// square root of the sum of squared components, saturated.
pub open spec fn v_magnitude(a: Vec2) -> int {
    clip(sqrt_int((a.x as int) * (a.x as int) + (a.y as int) * (a.y as int)))
}

/// The unit vector in the direction of `a`, or the zero vector when the
/// magnitude vanishes.
pub open spec fn v_normalize(a: Vec2) -> Vec2 {
    let mag = sqrt_int((a.x as int) * (a.x as int) + (a.y as int) * (a.y as int));
    if mag == 0 {
        v_zero()
    } else {
        Vec2 {
            x: clip(tdiv((a.x as int) * one(), mag)) as i64,
            y: clip(tdiv((a.y as int) * one(), mag)) as i64,
        }
    }
}

impl Vec2 {
    /// Create a new vector.
    pub fn new(x: i64, y: i64) -> (r: Self)
        ensures
            r.x == x,
            r.y == y,
    {
        Vec2 { x, y }
    }

    /// The zero vector.
    pub fn zero() -> (r: Self)
        ensures
            r == v_zero(),
    {
        Vec2 { x: 0, y: 0 }
    }

    /// Calculate the magnitude (length) of the vector.
    pub fn magnitude(&self) -> (r: i64)
        ensures
            r == v_magnitude(*self),
            r >= 0,
    {
        let sum = square_sum(self.x, self.y);
        let root = fx::isqrt(sum);
        proof {
            fx::lemma_sqrt_exists(sum as int);
        }
        if root > i64::MAX as u64 {
            i64::MAX
        } else {
            root as i64
        }
    }

    /// Normalize the vector (make it unit length); a vector of vanishing
    /// magnitude normalizes to the zero vector.
    pub fn normalize(&self) -> (r: Self)
        ensures
            r == v_normalize(*self),
    {
        let sum = square_sum(self.x, self.y);
        let root = fx::isqrt(sum);
        proof {
            fx::lemma_sqrt_exists(sum as int);
        }
        if root == 0 {
            return Vec2 { x: 0, y: 0 };
        }
        proof {
            fx::lemma_i64_scale_bound(self.x as int);
            fx::lemma_i64_scale_bound(self.y as int);
        }
        let nx = fx::clip_exec(fx::tdiv_exec(self.x as i128 * SCALE as i128, root as i128));
        let ny = fx::clip_exec(fx::tdiv_exec(self.y as i128 * SCALE as i128, root as i128));
        Vec2 { x: nx, y: ny }
    }

    /// Dot product with another vector.
    pub fn dot(&self, other: &Self) -> (r: i64)
        ensures
            r == v_dot(*self, *other),
    {
        fx::add_sat(fx::mul_sat(self.x, other.x), fx::mul_sat(self.y, other.y))
    }

    /// Scale the vector by a fixed-point factor.
    pub fn scale(&self, factor: i64) -> (r: Self)
        ensures
            r == v_scale(*self, factor as int),
    {
        Vec2 { x: fx::mul_sat(self.x, factor), y: fx::mul_sat(self.y, factor) }
    }

    /// Add another vector.
    pub fn add(&self, other: &Self) -> (r: Self)
        ensures
            r == v_add(*self, *other),
    {
        Vec2 { x: fx::add_sat(self.x, other.x), y: fx::add_sat(self.y, other.y) }
    }

    /// Subtract another vector.
    pub fn sub(&self, other: &Self) -> (r: Self)
        ensures
            r == v_sub(*self, *other),
    {
        Vec2 { x: fx::sub_sat(self.x, other.x), y: fx::sub_sat(self.y, other.y) }
    }
}

impl Default for Vec2 {
    /// The default vector is the zero vector.
    fn default() -> (r: Self)
        ensures
            r == v_zero(),
    {
        Vec2 { x: 0, y: 0 }
    }
}

/// Sum of squares of two components, exactly, as an unsigned wide value.
fn square_sum(x: i64, y: i64) -> (r: u128)
    ensures
        r == (x as int) * (x as int) + (y as int) * (y as int),
{
    proof {
        fx::lemma_square_bound(x as int);
        fx::lemma_square_bound(y as int);
    }
    let xx: i128 = x as i128 * x as i128;
    let yy: i128 = y as i128 * y as i128;
    xx as u128 + yy as u128
}

/// A rigid body for physics simulation: a circular point mass.
#[derive(Debug, Clone, Copy, PartialEq, Eq, Structural)]
pub struct RigidBody {
    /// Position
    pub position: Vec2,
    /// Velocity
    pub velocity: Vec2,
    /// Acceleration accumulated for the current step
    pub acceleration: Vec2,
    /// Mass, in millionths of a unit (at least 0.001 units)
    pub mass: i64,
    /// Restitution (bounciness), in millionths (0 ..= 1 unit)
    pub restitution: i64,
    /// Radius for collision, in millionths of a unit (at least 0.1 units)
    pub radius: i64,
}

/// The body after a force is applied: the force divided by the mass is
/// accumulated into the acceleration.
pub open spec fn spec_apply_force(b: RigidBody, force: Vec2) -> RigidBody {
    RigidBody {
        acceleration: v_add(b.acceleration, v_scale(force, fx_div(one(), b.mass as int))),
        ..b
    }
}

/// The body after an impulse is applied: the impulse divided by the mass
/// is added to the velocity immediately.
pub open spec fn spec_apply_impulse(b: RigidBody, impulse: Vec2) -> RigidBody {
    RigidBody {
        velocity: v_add(b.velocity, v_scale(impulse, fx_div(one(), b.mass as int))),
        ..b
    }
}

/// The kinetic energy of a body: half the mass times the squared speed.
pub open spec fn spec_kinetic_energy(b: RigidBody) -> int {
    fx_mul(fx_mul(500000, b.mass as int), v_dot(b.velocity, b.velocity))
}

impl RigidBody {
    /// Mass at least 0.001 units, restitution within 0 ..= 1 unit, radius
    /// at least 0.1 units: the clamps every constructor applies.
    pub open spec fn wf(&self) -> bool {
        &&& self.mass >= 1000
        &&& 0 <= self.restitution <= 1000000
        &&& self.radius >= 100000
    }

    /// Create a new rigid body at a position, at rest, with unit mass,
    /// restitution 0.8 and radius 10.
    pub fn new(x: i64, y: i64) -> (r: Self)
        ensures
            r.position == (Vec2 { x: x, y: y }),
            r.velocity == v_zero(),
            r.acceleration == v_zero(),
            r.mass == 1000000,
            r.restitution == 800000,
            r.radius == 10000000,
            r.wf(),
    {
        RigidBody {
            position: Vec2 { x, y },
            velocity: Vec2 { x: 0, y: 0 },
            acceleration: Vec2 { x: 0, y: 0 },
            mass: 1000000,
            restitution: 800000,
            radius: 10000000,
        }
    }

    /// Set the mass, clamped to at least 0.001 units.
    pub fn with_mass(self, mass: i64) -> (r: Self)
        ensures
            r == (RigidBody { mass: r.mass, ..self }),
            r.mass == if mass < 1000 {
                1000i64
            } else {
                mass
            },
    {
        let clamped: i64 = if mass < 1000 {
            1000
        } else {
            mass
        };
        RigidBody { mass: clamped, ..self }
    }

    /// Set the restitution, clamped to 0 ..= 1 unit.
    pub fn with_restitution(self, restitution: i64) -> (r: Self)
        ensures
            r == (RigidBody { restitution: r.restitution, ..self }),
            r.restitution == if restitution < 0 {
                0i64
            } else if restitution > 1000000 {
                1000000i64
            } else {
                restitution
            },
    {
        let clamped: i64 = if restitution < 0 {
            0
        } else if restitution > 1000000 {
            1000000
        } else {
            restitution
        };
        RigidBody { restitution: clamped, ..self }
    }

    /// Set the radius, clamped to at least 0.1 units.
    pub fn with_radius(self, radius: i64) -> (r: Self)
        ensures
            r == (RigidBody { radius: r.radius, ..self }),
            r.radius == if radius < 100000 {
                100000i64
            } else {
                radius
            },
    {
        let clamped: i64 = if radius < 100000 {
            100000
        } else {
            radius
        };
        RigidBody { radius: clamped, ..self }
    }

    /// Apply a force to the body, accumulating acceleration.
    pub fn apply_force(&mut self, force: Vec2)
        ensures
            *final (self) == spec_apply_force(*old(self), force),
    {
        let inv_mass = fx::div_sat(SCALE, self.mass);
        let accel = force.scale(inv_mass);
        self.acceleration = self.acceleration.add(&accel);
    }

    /// Apply an impulse (immediate velocity change).
    pub fn apply_impulse(&mut self, impulse: Vec2)
        ensures
            *final (self) == spec_apply_impulse(*old(self), impulse),
    {
        let inv_mass = fx::div_sat(SCALE, self.mass);
        let delta_v = impulse.scale(inv_mass);
        self.velocity = self.velocity.add(&delta_v);
    }

    /// Get kinetic energy.
    pub fn kinetic_energy(&self) -> (r: i64)
        ensures
            r == spec_kinetic_energy(*self),
    {
        let v_squared = self.velocity.dot(&self.velocity);
        fx::mul_sat(fx::mul_sat(500000, self.mass), v_squared)
    }
}

/// One integration step for a single body under the world's gravity: the
/// gravity force is applied, the velocity is updated before the position
/// (semi-implicit Euler), and the acceleration is cleared.
pub open spec fn spec_integrate(b: RigidBody, gravity: Vec2, dt: i64) -> RigidBody {
    let forced = spec_apply_force(b, v_scale(gravity, b.mass as int));
    let vel = v_add(forced.velocity, v_scale(forced.acceleration, dt as int));
    let pos = v_add(forced.position, v_scale(vel, dt as int));
    RigidBody { position: pos, velocity: vel, acceleration: v_zero(), ..b }
}

/// A body reflected off the world bounds: each of the four edges is
/// checked in turn; a crossing clamps the position to tangency and
/// reflects the perpendicular velocity scaled by the restitution.
pub open spec fn spec_bounce(b: RigidBody, bounds: (i64, i64, i64, i64)) -> RigidBody {
    let (min_x, min_y, max_x, max_y) = bounds;
    let b1 = if fx_sub(b.position.x as int, b.radius as int) < min_x {
        RigidBody {
            position: Vec2 { x: fx_add(min_x as int, b.radius as int) as i64, ..b.position },
            velocity: Vec2 {
                x: fx_mul(clip(-(b.velocity.x as int)), b.restitution as int) as i64,
                ..b.velocity
            },
            ..b
        }
    } else {
        b
    };
    let b2 = if fx_add(b1.position.x as int, b1.radius as int) > max_x {
        RigidBody {
            position: Vec2 { x: fx_sub(max_x as int, b1.radius as int) as i64, ..b1.position },
            velocity: Vec2 {
                x: fx_mul(clip(-(b1.velocity.x as int)), b1.restitution as int) as i64,
                ..b1.velocity
            },
            ..b1
        }
    } else {
        b1
    };
    let b3 = if fx_sub(b2.position.y as int, b2.radius as int) < min_y {
        RigidBody {
            position: Vec2 { y: fx_add(min_y as int, b2.radius as int) as i64, ..b2.position },
            velocity: Vec2 {
                y: fx_mul(clip(-(b2.velocity.y as int)), b2.restitution as int) as i64,
                ..b2.velocity
            },
            ..b2
        }
    } else {
        b2
    };
    if fx_add(b3.position.y as int, b3.radius as int) > max_y {
        RigidBody {
            position: Vec2 { y: fx_sub(max_y as int, b3.radius as int) as i64, ..b3.position },
            velocity: Vec2 {
                y: fx_mul(clip(-(b3.velocity.y as int)), b3.restitution as int) as i64,
                ..b3.velocity
            },
            ..b3
        }
    } else {
        b3
    }
}

/// Whether two bodies overlap: the squared distance between centers is
/// less than the squared sum of radii (both in fixed-point units).
pub open spec fn spec_check_collision(a: RigidBody, b: RigidBody) -> bool {
    let diff = v_sub(a.position, b.position);
    let dist_sq = v_dot(diff, diff);
    let min_dist = fx_add(a.radius as int, b.radius as int);
    dist_sq < fx_mul(min_dist, min_dist)
}

/// The two bodies after resolving their collision: an impulse along the
/// collision normal exchanges momentum scaled by the combined restitution,
/// and overlapping bodies are pushed apart by half the overlap each.
/// Bodies already separating — the relative velocity of `b` with respect
/// to `a` points along the normal from `a` to `b` — are left unchanged,
/// so no impulse is re-applied to bodies moving apart.
pub open spec fn spec_resolve_pair(a: RigidBody, b: RigidBody) -> (RigidBody, RigidBody) {
    let normal = v_normalize(v_sub(b.position, a.position));
    let rel_vel = v_sub(b.velocity, a.velocity);
    let vel_along_normal = v_dot(rel_vel, normal);
    if vel_along_normal > 0 {
        (a, b)
    } else {
        let e = clip(tdiv(a.restitution + b.restitution, 2));
        let inv_a = fx_div(one(), a.mass as int);
        let inv_b = fx_div(one(), b.mass as int);
        let impulse_mag = fx_div(
            fx_mul(clip(-fx_add(one(), e)), vel_along_normal),
            fx_add(inv_a, inv_b),
        );
        let impulse = v_scale(normal, impulse_mag);
        let a_vel = v_sub(a.velocity, v_scale(impulse, inv_a));
        let b_vel = v_add(b.velocity, v_scale(impulse, inv_b));
        let diff = v_sub(b.position, a.position);
        let dist = v_magnitude(diff);
        let overlap = fx_sub(fx_add(a.radius as int, b.radius as int), dist);
        if overlap > 0 {
            let separation = v_scale(normal, clip(tdiv(overlap, 2)));
            (
                RigidBody { velocity: a_vel, position: v_sub(a.position, separation), ..a },
                RigidBody { velocity: b_vel, position: v_add(b.position, separation), ..b },
            )
        } else {
            (RigidBody { velocity: a_vel, ..a }, RigidBody { velocity: b_vel, ..b })
        }
    }
}

/// Resolve the pair `(i, j)` if it collides, leaving the rest untouched.
pub open spec fn resolve_step(bs: Seq<RigidBody>, i: int, j: int) -> Seq<RigidBody> {
    if spec_check_collision(bs[i], bs[j]) {
        let pair = spec_resolve_pair(bs[i], bs[j]);
        bs.update(i, pair.0).update(j, pair.1)
    } else {
        bs
    }
}

/// Resolve all pairs from `(i, j)` onward in the fixed nested-loop order;
/// later pairs see the states already updated by earlier pairs.
pub open spec fn resolve_from(bs: Seq<RigidBody>, i: int, j: int) -> Seq<RigidBody>
    decreases bs.len() - i, bs.len() - j,
{
    if i < 0 || j <= i || i >= bs.len() {
        bs
    } else if j >= bs.len() {
        resolve_from(bs, i + 1, i + 2)
    } else {
        resolve_from(resolve_step(bs, i, j), i, j + 1)
    }
}

/// All bodies integrated one step.
pub open spec fn integrate_all(bs: Seq<RigidBody>, gravity: Vec2, dt: i64) -> Seq<RigidBody> {
    bs.map(|k: int, b: RigidBody| spec_integrate(b, gravity, dt))
}

/// All bodies reflected off the bounds, when bounds are set.
pub open spec fn bounce_all(bs: Seq<RigidBody>, bounds: Option<(i64, i64, i64, i64)>) -> Seq<
    RigidBody,
> {
    match bounds {
        Some(bb) => bs.map(|k: int, b: RigidBody| spec_bounce(b, bb)),
        None => bs,
    }
}

/// One full simulation step over a body sequence: integration, boundary
/// handling, then pairwise collision resolution in nested-loop order.
pub open spec fn step_bodies(
    bs: Seq<RigidBody>,
    gravity: Vec2,
    dt: i64,
    bounds: Option<(i64, i64, i64, i64)>,
) -> Seq<RigidBody> {
    resolve_from(bounce_all(integrate_all(bs, gravity, dt), bounds), 0, 1)
}

/// A 2D physics world.
#[derive(Debug, Clone, PartialEq)]
pub struct PhysicsWorld {
    /// Bodies in the world, addressed by stable insertion index
    pub bodies: Vec<RigidBody>,
    /// Gravity vector
    pub gravity: Vec2,
    /// Time step for simulation, in millionths of a second (at least
    /// 0.001 seconds)
    pub dt: i64,
    /// World bounds (min_x, min_y, max_x, max_y), or none for an
    /// unconstrained world
    pub bounds: Option<(i64, i64, i64, i64)>,
}

impl PhysicsWorld {
    /// Create a new physics world: no bodies, downward gravity of 9.81
    /// units, sixty steps per second.
    pub fn new() -> (r: Self)
        ensures
            r.bodies@ == Seq::<RigidBody>::empty(),
            r.gravity == (Vec2 { x: 0i64, y: 9810000i64 }),
            r.dt == 16666,
            r.bounds is None,
    {
        PhysicsWorld {
            bodies: Vec::new(),
            gravity: Vec2 { x: 0, y: 9810000 },
            dt: 16666,
            bounds: None,
        }
    }

    /// Set the gravity.
    pub fn with_gravity(self, gravity: Vec2) -> (r: Self)
        ensures
            r == (PhysicsWorld { gravity: gravity, ..self }),
    {
        PhysicsWorld { gravity: gravity, ..self }
    }

    /// Set the time step, clamped to at least 0.001 seconds.
    pub fn with_dt(self, dt: i64) -> (r: Self)
        ensures
            r == (PhysicsWorld { dt: r.dt, ..self }),
            r.dt == if dt < 1000 {
                1000i64
            } else {
                dt
            },
    {
        let clamped: i64 = if dt < 1000 {
            1000
        } else {
            dt
        };
        PhysicsWorld { dt: clamped, ..self }
    }

    /// Set world bounds.
    pub fn with_bounds(self, min_x: i64, min_y: i64, max_x: i64, max_y: i64) -> (r: Self)
        ensures
            r == (PhysicsWorld { bounds: Some((min_x, min_y, max_x, max_y)), ..self }),
    {
        PhysicsWorld { bounds: Some((min_x, min_y, max_x, max_y)), ..self }
    }

    /// Add a body to the world; its index is its stable identity.
    pub fn add_body(&mut self, body: RigidBody)
        ensures
            final (self).bodies@ == old(self).bodies@.push(body),
            final (self).gravity == old(self).gravity,
            final (self).dt == old(self).dt,
            final (self).bounds == old(self).bounds,
    {
        self.bodies.push(body);
    }

    /// Get the number of bodies.
    pub fn body_count(&self) -> (r: usize)
        ensures
            r == self.bodies@.len(),
    {
        self.bodies.len()
    }

    /// Get total kinetic energy in the system (saturating).
    pub fn total_kinetic_energy(&self) -> (r: i64)
        ensures
            r == sum_energy(self.bodies@),
    {
        let n = self.bodies.len();
        let mut total: i64 = 0;
        let mut i: usize = 0;
        proof {
            assert(self.bodies@.take(0) =~= Seq::<RigidBody>::empty());
        }
        while i < n
            invariant
                i <= n,
                n == self.bodies@.len(),
                total == sum_energy(self.bodies@.take(i as int)),
            decreases n - i,
        {
            proof {
                assert(self.bodies@.take(i + 1).drop_last() =~= self.bodies@.take(i as int));
                assert(self.bodies@.take(i + 1).last() == self.bodies@[i as int]);
            }
            total = fx::add_sat(total, self.bodies[i].kinetic_energy());
            i = i + 1;
        }
        proof {
            assert(self.bodies@.take(n as int) =~= self.bodies@);
        }
        total
    }

    /// Step the simulation forward: apply gravity and integrate every
    /// body, handle boundary collisions, then resolve body-body
    /// collisions pair by pair.
    pub fn step(&mut self)
        ensures
            final (self).bodies@ == step_bodies(
                old(self).bodies@,
                old(self).gravity,
                old(self).dt,
                old(self).bounds,
            ),
            final (self).gravity == old(self).gravity,
            final (self).dt == old(self).dt,
            final (self).bounds == old(self).bounds,
    {
        let ghost orig = self.bodies@;
        let n = self.bodies.len();

        let mut i: usize = 0;
        while i < n
            invariant
                i <= n,
                n == self.bodies@.len(),
                self.gravity == old(self).gravity,
                self.dt == old(self).dt,
                self.bounds == old(self).bounds,
                orig == old(self).bodies@,
                orig.len() == n,
                forall|k: int|
                    0 <= k < i ==> self.bodies@[k] == spec_integrate(
                        #[trigger] orig[k],
                        old(self).gravity,
                        old(self).dt,
                    ),
                forall|k: int| i <= k < n ==> self.bodies@[k] == #[trigger] orig[k],
            decreases n - i,
        {
            let body = self.bodies[i];
            let gravity_force = self.gravity.scale(body.mass);
            let mut updated = body;
            updated.apply_force(gravity_force);
            updated.velocity = updated.velocity.add(&updated.acceleration.scale(self.dt));
            updated.position = updated.position.add(&updated.velocity.scale(self.dt));
            updated.acceleration = Vec2 { x: 0, y: 0 };
            self.bodies.set(i, updated);
            i = i + 1;
        }
        proof {
            assert(self.bodies@ =~= integrate_all(orig, old(self).gravity, old(self).dt));
        }
        let ghost integrated = self.bodies@;

        let has_bounds = matches!(self.bounds, Some(..));
        if has_bounds {
            let (min_x, min_y, max_x, max_y) = match self.bounds {
                Some(bb) => bb,
                None => (0, 0, 0, 0),
            };
            let mut i: usize = 0;
            while i < n
                invariant
                    i <= n,
                    n == self.bodies@.len(),
                    self.gravity == old(self).gravity,
                    self.dt == old(self).dt,
                    self.bounds == old(self).bounds,
                    self.bounds == Some((min_x, min_y, max_x, max_y)),
                    integrated.len() == n,
                    forall|k: int|
                        0 <= k < i ==> self.bodies@[k] == spec_bounce(
                            #[trigger] integrated[k],
                            (min_x, min_y, max_x, max_y),
                        ),
                    forall|k: int| i <= k < n ==> self.bodies@[k] == #[trigger] integrated[k],
                decreases n - i,
            {
                let body = self.bodies[i];
                let mut updated = body;
                if fx::sub_sat(updated.position.x, updated.radius) < min_x {
                    updated.position.x = fx::add_sat(min_x, updated.radius);
                    updated.velocity.x = fx::mul_sat(fx::sub_sat(0, updated.velocity.x), updated.restitution);
                }
                if fx::add_sat(updated.position.x, updated.radius) > max_x {
                    updated.position.x = fx::sub_sat(max_x, updated.radius);
                    updated.velocity.x = fx::mul_sat(fx::sub_sat(0, updated.velocity.x), updated.restitution);
                }
                if fx::sub_sat(updated.position.y, updated.radius) < min_y {
                    updated.position.y = fx::add_sat(min_y, updated.radius);
                    updated.velocity.y = fx::mul_sat(fx::sub_sat(0, updated.velocity.y), updated.restitution);
                }
                if fx::add_sat(updated.position.y, updated.radius) > max_y {
                    updated.position.y = fx::sub_sat(max_y, updated.radius);
                    updated.velocity.y = fx::mul_sat(fx::sub_sat(0, updated.velocity.y), updated.restitution);
                }
                self.bodies.set(i, updated);
                i = i + 1;
            }
            proof {
                assert(self.bodies@ =~= bounce_all(integrated, old(self).bounds));
            }
        }
        proof {
            if old(self).bounds is None {
                assert(self.bodies@ =~= bounce_all(integrated, old(self).bounds));
            }
        }

        self.resolve_collisions();
    }

    /// Resolve collisions between all pairs of bodies, in nested-loop
    /// order.
    fn resolve_collisions(&mut self)
        ensures
            final (self).bodies@ == resolve_from(old(self).bodies@, 0, 1),
            final (self).gravity == old(self).gravity,
            final (self).dt == old(self).dt,
            final (self).bounds == old(self).bounds,
    {
        let len = self.bodies.len();
        let ghost orig = self.bodies@;
        let mut i: usize = 0;
        while i < len
            invariant
                i <= len,
                len == self.bodies@.len(),
                self.gravity == old(self).gravity,
                self.dt == old(self).dt,
                self.bounds == old(self).bounds,
                resolve_from(self.bodies@, i as int, i + 1) == resolve_from(orig, 0, 1),
                orig == old(self).bodies@,
            decreases len - i,
        {
            let mut j: usize = i + 1;
            while j < len
                invariant
                    i < j <= len,
                    i < len,
                    len == self.bodies@.len(),
                    self.gravity == old(self).gravity,
                    self.dt == old(self).dt,
                    self.bounds == old(self).bounds,
                    resolve_from(self.bodies@, i as int, j as int) == resolve_from(orig, 0, 1),
                    orig == old(self).bodies@,
                decreases len - j,
            {
                proof {
                    assert(resolve_from(self.bodies@, i as int, j as int) == resolve_from(
                        resolve_step(self.bodies@, i as int, j as int),
                        i as int,
                        j + 1,
                    ));
                }
                if self.check_collision(i, j) {
                    self.resolve_collision(i, j);
                }
                j = j + 1;
            }
            proof {
                assert(resolve_from(self.bodies@, i as int, j as int) == resolve_from(
                    self.bodies@,
                    i + 1,
                    i + 2,
                ));
            }
            i = i + 1;
        }
        proof {
            assert(resolve_from(self.bodies@, i as int, i + 1) == self.bodies@);
        }
    }

    /// Check if two bodies are colliding.
    fn check_collision(&self, i: usize, j: usize) -> (r: bool)
        requires
            i < self.bodies@.len(),
            j < self.bodies@.len(),
        ensures
            r == spec_check_collision(self.bodies@[i as int], self.bodies@[j as int]),
    {
        let a = &self.bodies[i];
        let b = &self.bodies[j];
        let diff = a.position.sub(&b.position);
        let dist_sq = diff.dot(&diff);
        let min_dist = fx::add_sat(a.radius, b.radius);
        dist_sq < fx::mul_sat(min_dist, min_dist)
    }

    /// Resolve a collision between two bodies.
    fn resolve_collision(&mut self, i: usize, j: usize)
        requires
            i < old(self).bodies@.len(),
            j < old(self).bodies@.len(),
            i != j,
        ensures
            final (self).bodies@ == old(self).bodies@.update(
                i as int,
                spec_resolve_pair(old(self).bodies@[i as int], old(self).bodies@[j as int]).0,
            ).update(
                j as int,
                spec_resolve_pair(old(self).bodies@[i as int], old(self).bodies@[j as int]).1,
            ),
            final (self).gravity == old(self).gravity,
            final (self).dt == old(self).dt,
            final (self).bounds == old(self).bounds,
    {
        let a = self.bodies[i];
        let b = self.bodies[j];

        let normal = b.position.sub(&a.position).normalize();
        let rel_vel = b.velocity.sub(&a.velocity);
        let vel_along_normal = rel_vel.dot(&normal);

        if vel_along_normal > 0 {
            proof {
                assert(self.bodies@ =~= old(self).bodies@.update(
                    i as int,
                    self.bodies@[i as int],
                ).update(j as int, self.bodies@[j as int]));
            }
            return ;
        }

        let e = fx::clip_exec(fx::tdiv_exec(
            a.restitution as i128 + b.restitution as i128,
            2,
        ));

        let inv_a = fx::div_sat(SCALE, a.mass);
        let inv_b = fx::div_sat(SCALE, b.mass);
        let impulse_mag = fx::div_sat(
            fx::mul_sat(fx::sub_sat(0, fx::add_sat(SCALE, e)), vel_along_normal),
            fx::add_sat(inv_a, inv_b),
        );

        let impulse = normal.scale(impulse_mag);

        let a_vel = a.velocity.sub(&impulse.scale(inv_a));
        let b_vel = b.velocity.add(&impulse.scale(inv_b));

        let diff = b.position.sub(&a.position);
        let dist = diff.magnitude();
        let overlap = fx::sub_sat(fx::add_sat(a.radius, b.radius), dist);

        let mut new_a = a;
        let mut new_b = b;
        new_a.velocity = a_vel;
        new_b.velocity = b_vel;

        if overlap > 0 {
            let half_overlap = fx::clip_exec(fx::tdiv_exec(overlap as i128, 2));
            let separation = normal.scale(half_overlap);
            new_a.position = a.position.sub(&separation);
            new_b.position = b.position.add(&separation);
        }

        self.bodies.set(i, new_a);
        self.bodies.set(j, new_b);
    }
}

impl Default for PhysicsWorld {
    /// The default world is a fresh empty world.
    fn default() -> (r: Self)
        ensures
            r.bodies@ == Seq::<RigidBody>::empty(),
            r.gravity == (Vec2 { x: 0i64, y: 9810000i64 }),
            r.dt == 16666,
            r.bounds is None,
    {
        PhysicsWorld::new()
    }
}

/// The dot product is commutative.
pub proof fn lemma_dot_commutative(a: Vec2, b: Vec2)
    ensures
        v_dot(a, b) == v_dot(b, a),
{
    vstd::arithmetic::mul::lemma_mul_is_commutative(a.x as int, b.x as int);
    vstd::arithmetic::mul::lemma_mul_is_commutative(a.y as int, b.y as int);
}

/// Kinetic energy is never negative, whatever the velocity, for any body
/// of positive mass.
pub proof fn lemma_kinetic_energy_nonneg(b: RigidBody)
    requires
        b.mass > 0,
    ensures
        spec_kinetic_energy(b) >= 0,
{
    fx::lemma_square_bound(b.velocity.x as int);
    fx::lemma_square_bound(b.velocity.y as int);
    lemma_tdiv_nonneg((b.velocity.x as int) * (b.velocity.x as int), one());
    lemma_tdiv_nonneg((b.velocity.y as int) * (b.velocity.y as int), one());
    let d = v_dot(b.velocity, b.velocity);
    assert(d >= 0);
    assert(500000 * (b.mass as int) >= 0) by (nonlinear_arith)
        requires
            b.mass > 0,
    ;
    let hm = fx_mul(500000, b.mass as int);
    assert(hm >= 0);
    assert(hm * d >= 0) by (nonlinear_arith)
        requires
            hm >= 0,
            d >= 0,
    ;
    lemma_tdiv_nonneg(hm * d, one());
}

/// Truncated division of a non-negative value by a positive one is
/// non-negative.
proof fn lemma_tdiv_nonneg(a: int, b: int)
    requires
        a >= 0,
        b > 0,
    ensures
        tdiv(a, b) >= 0,
{
}

/// A lone body at rest under zero gravity stays exactly where it is: one
/// `step` leaves its position (and velocity) unchanged, provided the world
/// either has no bounds or the body rests strictly inside them.
pub proof fn lemma_rest_stays_at_rest(
    b: RigidBody,
    dt: i64,
    bounds: Option<(i64, i64, i64, i64)>,
)
    requires
        b.velocity == v_zero(),
        b.acceleration == v_zero(),
        (match bounds {
            Some(bb) => {
                &&& fx_sub(b.position.x as int, b.radius as int) >= bb.0
                &&& fx_add(b.position.x as int, b.radius as int) <= bb.2
                &&& fx_sub(b.position.y as int, b.radius as int) >= bb.1
                &&& fx_add(b.position.y as int, b.radius as int) <= bb.3
            },
            None => true,
        }),
    ensures
        step_bodies(seq![b], v_zero(), dt, bounds) =~= seq![b],
        step_bodies(seq![b], v_zero(), dt, bounds)[0].position == b.position,
        step_bodies(seq![b], v_zero(), dt, bounds)[0].velocity == b.velocity,
{
    let g = v_zero();
    let force = v_scale(g, b.mass as int);
    assert(force == v_zero());
    let forced = spec_apply_force(b, force);
    assert(v_scale(force, fx_div(one(), b.mass as int)) == v_zero());
    assert(forced.acceleration == v_zero());
    let integrated = spec_integrate(b, g, dt);
    assert(v_scale(forced.acceleration, dt as int) == v_zero());
    assert(integrated.velocity == v_zero());
    assert(v_scale(integrated.velocity, dt as int) == v_zero());
    assert(integrated.position == b.position);
    assert(integrated == b);
    assert(integrate_all(seq![b], g, dt) =~= seq![b]);
    match bounds {
        Some(bb) => {
            assert(spec_bounce(b, bb) == b);
            assert(bounce_all(seq![b], bounds) =~= seq![b]);
        },
        None => {
            assert(bounce_all(seq![b], bounds) =~= seq![b]);
        },
    }
    assert(resolve_from(seq![b], 0, 1) == resolve_from(seq![b], 1, 2));
    assert(resolve_from(seq![b], 1, 2) =~= seq![b]);
}

/// When no two bodies touch (every pairwise distance is at least the sum
/// of the radii), the collision pass leaves every body's velocity and
/// position untouched.
pub proof fn lemma_separated_bodies_unaffected(bs: Seq<RigidBody>)
    requires
        forall|i: int, j: int|
            0 <= i < j < bs.len() ==> !spec_check_collision(#[trigger] bs[i], #[trigger] bs[j]),
    ensures
        resolve_from(bs, 0, 1) == bs,
{
    lemma_separated_from(bs, 0, 1);
}

proof fn lemma_separated_from(bs: Seq<RigidBody>, i: int, j: int)
    requires
        forall|k: int, l: int|
            0 <= k < l < bs.len() ==> !spec_check_collision(#[trigger] bs[k], #[trigger] bs[l]),
        i >= 0,
        j > i,
    ensures
        resolve_from(bs, i, j) == bs,
    decreases bs.len() - i, bs.len() - j,
{
    if i >= bs.len() {
    } else if j >= bs.len() {
        lemma_separated_from(bs, i + 1, i + 2);
    } else {
        assert(!spec_check_collision(bs[i], bs[j]));
        assert(resolve_step(bs, i, j) == bs);
        lemma_separated_from(bs, i, j + 1);
    }
}

/// Resolving a pair with no relative velocity along the collision normal
/// and no interpenetration to correct leaves both bodies unchanged, so in
/// particular equal-mass, unit-restitution partners moving with the same
/// velocity keep it exactly (the impulse vanishes and no kinetic energy
/// is gained or lost).
pub proof fn lemma_matched_velocities_unchanged(a: RigidBody, b: RigidBody)
    requires
        a.velocity == b.velocity,
        fx_sub(fx_add(a.radius as int, b.radius as int), v_magnitude(v_sub(b.position, a.position)))
            <= 0,
    ensures
        spec_resolve_pair(a, b) == (a, b),
        spec_kinetic_energy(a) + spec_kinetic_energy(b) == spec_kinetic_energy(
            spec_resolve_pair(a, b).0,
        ) + spec_kinetic_energy(spec_resolve_pair(a, b).1),
{
    let normal = v_normalize(v_sub(b.position, a.position));
    let rel_vel = v_sub(b.velocity, a.velocity);
    assert(rel_vel == v_zero());
    let van = v_dot(rel_vel, normal);
    assert(van == 0);
    if van > 0 {
    } else {
        let e = clip(tdiv(a.restitution + b.restitution, 2));
        let inv_a = fx_div(one(), a.mass as int);
        let inv_b = fx_div(one(), b.mass as int);
        let mag = fx_mul(clip(-fx_add(one(), e)), 0);
        assert(mag == 0);
        let impulse_mag = fx_div(0, fx_add(inv_a, inv_b));
        assert(impulse_mag == 0);
        let impulse = v_scale(normal, 0);
        assert(impulse == v_zero());
        assert(v_scale(impulse, inv_a) == v_zero());
        assert(v_scale(impulse, inv_b) == v_zero());
        assert(v_sub(a.velocity, v_zero()) == a.velocity);
        assert(v_add(b.velocity, v_zero()) == b.velocity);
    }
}

/// A pair already separating — the relative velocity of `b` with respect
/// to `a` has a positive component along the normal from `a` to `b` — is
/// skipped by collision resolution: both bodies are left exactly as they
/// were, so no impulse is re-applied to bodies moving apart.
pub proof fn lemma_separating_pair_skipped(a: RigidBody, b: RigidBody)
    requires
        v_dot(v_sub(b.velocity, a.velocity), v_normalize(v_sub(b.position, a.position))) > 0,
    ensures
        spec_resolve_pair(a, b) == (a, b),
{
}

/// Truncated division recovers the factor of an exact multiple.
proof fn lemma_tdiv_exact(x: int, d: int)
    requires
        d > 0,
    ensures
        tdiv(d * x, d) == x,
{
    if x >= 0 {
        vstd::arithmetic::mul::lemma_mul_nonnegative(d, x);
        vstd::arithmetic::div_mod::lemma_div_multiples_vanish(x, d);
    } else {
        vstd::arithmetic::mul::lemma_mul_unary_negation(d, x);
        assert(d * (-x) == -(d * x));
        assert(d * (-x) > 0) by (nonlinear_arith)
            requires
                d > 0,
                x < 0,
        ;
        vstd::arithmetic::div_mod::lemma_div_multiples_vanish(-x, d);
        assert(tdiv(d * x, d) == -((-(d * x)) / d));
    }
}

/// Two equal unit-mass bodies with restitution one, approaching head-on
/// along their line of centers with equal and opposite velocities, have
/// their velocities exactly exchanged by collision resolution, and the
/// total kinetic energy is exactly preserved.
pub proof fn lemma_head_on_equal_mass_exchange(a: RigidBody, b: RigidBody)
    requires
        a.mass == 1000000,
        b.mass == 1000000,
        a.restitution == 1000000,
        b.restitution == 1000000,
        a.position.y == b.position.y,
        a.position.x < b.position.x,
        b.position.x - a.position.x <= i64::MAX,
        a.velocity.y == 0,
        b.velocity.y == 0,
        0 < a.velocity.x <= 0x1000000000000000,
        b.velocity.x == -(a.velocity.x as int),
    ensures
        spec_resolve_pair(a, b).0.velocity == b.velocity,
        spec_resolve_pair(a, b).1.velocity == a.velocity,
        spec_kinetic_energy(spec_resolve_pair(a, b).0) + spec_kinetic_energy(
            spec_resolve_pair(a, b).1,
        ) == spec_kinetic_energy(a) + spec_kinetic_energy(b),
{
    let s = 1000000int;
    let v = a.velocity.x as int;
    let d = b.position.x - a.position.x;

    // The collision normal is exactly the unit x vector.
    let diff = v_sub(b.position, a.position);
    assert(diff.x == d && diff.y == 0);
    assert(d * d >= 0 && d * d <= d * d && d * d < (d + 1) * (d + 1)) by (nonlinear_arith)
        requires
            d > 0,
    ;
    fx::lemma_sqrt_unique(d, d * d);
    assert(sqrt_int(d * d + 0 * 0) == d);
    vstd::arithmetic::mul::lemma_mul_is_commutative(d, s);
    lemma_tdiv_exact(s, d);
    assert(tdiv(d * s, d) == s);
    let normal = v_normalize(diff);
    assert(normal.x == s && normal.y == 0);

    // The relative velocity along the normal is exactly -2v: approaching.
    let rel_vel = v_sub(b.velocity, a.velocity);
    assert(rel_vel.x == -2 * v && rel_vel.y == 0);
    vstd::arithmetic::mul::lemma_mul_is_commutative(-2 * v, s);
    lemma_tdiv_exact(-2 * v, s);
    assert(fx_mul(-2 * v, s) == -2 * v);
    let van = v_dot(rel_vel, normal);
    assert(van == -2 * v);
    assert(!(van > 0));

    // Combined restitution one, unit inverse masses, impulse exactly 2v.
    let e = clip(tdiv(a.restitution + b.restitution, 2));
    assert(e == s);
    lemma_tdiv_exact(s, s);
    assert(tdiv(s * s, s) == s);
    let inv_a = fx_div(one(), a.mass as int);
    let inv_b = fx_div(one(), b.mass as int);
    assert(inv_a == s && inv_b == s);
    assert(clip(-fx_add(one(), e)) == -2 * s);
    assert((-2 * s) * (-2 * v) == s * (4 * v)) by (nonlinear_arith);
    lemma_tdiv_exact(4 * v, s);
    let t = fx_mul(clip(-fx_add(one(), e)), van);
    assert(t == 4 * v);
    assert(fx_add(inv_a, inv_b) == 2 * s);
    assert((4 * v) * s == (2 * s) * (2 * v)) by (nonlinear_arith);
    lemma_tdiv_exact(2 * v, 2 * s);
    let impulse_mag = fx_div(t, fx_add(inv_a, inv_b));
    assert(impulse_mag == 2 * v);

    // The impulse vector is (2v, 0) and dividing by unit mass keeps it.
    vstd::arithmetic::mul::lemma_mul_is_commutative(2 * v, s);
    lemma_tdiv_exact(2 * v, s);
    let impulse = v_scale(normal, impulse_mag);
    assert(impulse.x == 2 * v && impulse.y == 0);
    let kick_a = v_scale(impulse, inv_a);
    let kick_b = v_scale(impulse, inv_b);
    assert(kick_a.x == 2 * v && kick_a.y == 0);
    assert(kick_b.x == 2 * v && kick_b.y == 0);

    // Velocities are exactly exchanged.
    let a_vel = v_sub(a.velocity, kick_a);
    let b_vel = v_add(b.velocity, kick_b);
    assert(a_vel.x == -v && a_vel.y == 0);
    assert(b_vel.x == v && b_vel.y == 0);
    assert(a_vel == b.velocity);
    assert(b_vel == a.velocity);

    // Exchanged velocities between equal masses swap the two kinetic
    // energies, so the total is exactly preserved.
    let pair = spec_resolve_pair(a, b);
    assert(pair.0.velocity == b.velocity && pair.0.mass == b.mass);
    assert(pair.1.velocity == a.velocity && pair.1.mass == a.mass);
    assert(spec_kinetic_energy(pair.0) == spec_kinetic_energy(b));
    assert(spec_kinetic_energy(pair.1) == spec_kinetic_energy(a));
}

/// Floor-division bounds for non-negative operands: `u = a / m` satisfies
/// `u * m <= a < (u + 1) * m`, and `u <= c` whenever `a <= c * m`.
proof fn lemma_floor_div_bounds(a: int, m: int)
    requires
        a >= 0,
        m > 0,
    ensures
        (a / m) * m <= a,
        a < (a / m + 1) * m,
        a / m >= 0,
{
    vstd::arithmetic::div_mod::lemma_fundamental_div_mod(a, m);
    vstd::arithmetic::div_mod::lemma_remainder_upper(a, m);
    vstd::arithmetic::div_mod::lemma_remainder_lower(a, m);
    vstd::arithmetic::div_mod::lemma_div_pos_is_pos(a, m);
    assert((a / m) * m <= a) by (nonlinear_arith)
        requires
            a == m * (a / m) + a % m,
            a % m >= 0,
    ;
    assert(a < (a / m + 1) * m) by (nonlinear_arith)
        requires
            a == m * (a / m) + a % m,
            a % m < m,
    ;
}

/// Normalizing a vector of at least unit length produces a vector whose
/// magnitude is one unit, up to a quantization error of three millionths
/// either way.
pub proof fn lemma_normalize_unit_magnitude(v: Vec2)
    requires
        v_magnitude(v) >= 1000000,
    ensures
        999997 <= v_magnitude(v_normalize(v)) <= 1000001,
{
    let s = 1000000int;
    let x = v.x as int;
    let y = v.y as int;
    fx::lemma_square_bound(x);
    fx::lemma_square_bound(y);
    let s2 = x * x + y * y;
    fx::lemma_sqrt_exists(s2);
    let m = sqrt_int(s2);
    assert(m >= s);
    assert(m != 0);

    // Component magnitudes are bounded by the overall magnitude.
    let ax = if x >= 0 { x } else { -x };
    let ay = if y >= 0 { y } else { -y };
    assert(ax * ax == x * x && ay * ay == y * y) by (nonlinear_arith)
        requires
            (ax == x || ax == -x) && (ay == y || ay == -y),
    ;
    assert(ax <= m) by (nonlinear_arith)
        requires
            ax >= 0,
            m >= 0,
            ax * ax <= s2,
            s2 < (m + 1) * (m + 1),
    ;
    assert(ay <= m) by (nonlinear_arith)
        requires
            ay >= 0,
            m >= 0,
            ay * ay <= s2,
            s2 < (m + 1) * (m + 1),
    ;

    // The normalized components, unsigned.
    let ux = (ax * s) / m;
    let uy = (ay * s) / m;
    vstd::arithmetic::mul::lemma_mul_nonnegative(ax, s);
    vstd::arithmetic::mul::lemma_mul_nonnegative(ay, s);
    lemma_floor_div_bounds(ax * s, m);
    lemma_floor_div_bounds(ay * s, m);
    assert(ux <= s) by (nonlinear_arith)
        requires
            ux * m <= ax * s,
            ax <= m,
            m > 0,
            s > 0,
            ux >= 0,
    ;
    assert(uy <= s) by (nonlinear_arith)
        requires
            uy * m <= ay * s,
            ay <= m,
            m > 0,
            s > 0,
            uy >= 0,
    ;
    if x >= 0 {
        vstd::arithmetic::mul::lemma_mul_nonnegative(x, s);
        assert(tdiv(x * s, m) == ux);
    } else {
        vstd::arithmetic::mul::lemma_mul_unary_negation(x, s);
        assert(ax * s == -(x * s));
        assert(x * s < 0) by (nonlinear_arith)
            requires
                x < 0,
                s > 0,
        ;
        assert(tdiv(x * s, m) == -((-(x * s)) / m));
        assert(tdiv(x * s, m) == -ux);
    }
    if y >= 0 {
        vstd::arithmetic::mul::lemma_mul_nonnegative(y, s);
        assert(tdiv(y * s, m) == uy);
    } else {
        vstd::arithmetic::mul::lemma_mul_unary_negation(y, s);
        assert(ay * s == -(y * s));
        assert(y * s < 0) by (nonlinear_arith)
            requires
                y < 0,
                s > 0,
        ;
        assert(tdiv(y * s, m) == -((-(y * s)) / m));
        assert(tdiv(y * s, m) == -uy);
    }
    let n = v_normalize(v);
    assert(n.x as int == tdiv(x * s, m) && n.y as int == tdiv(y * s, m));
    let nx = n.x as int;
    let ny = n.y as int;
    assert(nx * nx == ux * ux && ny * ny == uy * uy) by (nonlinear_arith)
        requires
            (nx == ux || nx == -ux) && (ny == uy || ny == -uy),
    ;

    // Upper bound: the squared normalized length stays below (s + 2)^2.
    assert(ux * ux * (m * m) <= (x * x) * (s * s)) by (nonlinear_arith)
        requires
            0 <= ux * m <= ax * s,
            ax * ax == x * x,
            ax >= 0,
            s > 0,
    ;
    assert(uy * uy * (m * m) <= (y * y) * (s * s)) by (nonlinear_arith)
        requires
            0 <= uy * m <= ay * s,
            ay * ay == y * y,
            ay >= 0,
            s > 0,
    ;
    assert((ux * ux + uy * uy) * (m * m) < ((s + 2) * m) * ((s + 2) * m)) by (nonlinear_arith)
        requires
            ux * ux * (m * m) <= (x * x) * (s * s),
            uy * uy * (m * m) <= (y * y) * (s * s),
            x * x + y * y == s2,
            s2 < (m + 1) * (m + 1),
            m >= s,
            s == 1000000,
    ;
    assert(ux * ux + uy * uy < (s + 2) * (s + 2)) by (nonlinear_arith)
        requires
            (ux * ux + uy * uy) * (m * m) < ((s + 2) * m) * ((s + 2) * m),
            m > 0,
    ;

    // Lower bound: the squared normalized length stays at or above
    // (s - 3)^2.
    assert(ux * ux * (m * m) >= (x * x) * (s * s) - 2 * (s * (m * m))) by (nonlinear_arith)
        requires
            ax * s < (ux + 1) * m,
            ux >= 0,
            m > 0,
            s > 0,
            ax >= 0,
            ax <= m,
            ax * ax == x * x,
    ;
    assert(uy * uy * (m * m) >= (y * y) * (s * s) - 2 * (s * (m * m))) by (nonlinear_arith)
        requires
            ay * s < (uy + 1) * m,
            uy >= 0,
            m > 0,
            s > 0,
            ay >= 0,
            ay <= m,
            ay * ay == y * y,
    ;
    assert((ux * ux + uy * uy) * (m * m) >= ((s - 3) * m) * ((s - 3) * m) + (m * m))
        by (nonlinear_arith)
        requires
            ux * ux * (m * m) >= (x * x) * (s * s) - 2 * (s * (m * m)),
            uy * uy * (m * m) >= (y * y) * (s * s) - 2 * (s * (m * m)),
            x * x + y * y == s2,
            s2 >= m * m,
            m >= s,
            s == 1000000,
    ;
    assert(ux * ux + uy * uy >= (s - 3) * (s - 3) + 1) by (nonlinear_arith)
        requires
            (ux * ux + uy * uy) * (m * m) >= ((s - 3) * m) * ((s - 3) * m) + (m * m),
            m > 0,
    ;

    // Conclude via the square root of the normalized squared length.
    let t2 = nx * nx + ny * ny;
    assert(t2 == ux * ux + uy * uy);
    fx::lemma_sqrt_exists(t2);
    let t = sqrt_int(t2);
    assert(t <= s + 1) by (nonlinear_arith)
        requires
            t >= 0,
            t * t <= t2,
            t2 < (s + 2) * (s + 2),
            s == 1000000,
    ;
    assert(t >= s - 3) by (nonlinear_arith)
        requires
            t >= 0,
            t2 < (t + 1) * (t + 1),
            t2 >= (s - 3) * (s - 3) + 1,
            s == 1000000,
    ;
    assert(v_magnitude(n) == t);
}

/// Total kinetic energy over a body sequence, accumulated with saturating
/// addition.
pub open spec fn sum_energy(bs: Seq<RigidBody>) -> int
    decreases bs.len(),
{
    if bs.len() == 0 {
        0
    } else {
        fx_add(sum_energy(bs.drop_last()), spec_kinetic_energy(bs.last()))
    }
}

} // verus!
