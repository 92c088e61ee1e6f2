//! Force and position integration: gravity gated by the grounded flag,
//! horizontal decay toward zero, componentwise clamping of acceleration
//! and velocity, and `position += velocity * dt`.
//!
//! All tunables sit in a `PhysicsConfig` injected per call, so tests can
//! override them; `default()` carries the standard values. There are
//! deliberately no minimum floors on acceleration or velocity: small
//! values are pulled down by decay and bounded by the clamps, but are
//! never snapped to exactly zero below a threshold.

use vstd::prelude::*;
use crate::{Vec2i, Vec3i, abs, clamp_i64, clamp_s, in_pos, CFG_LIMIT, DT_LIMIT, VEL_LIMIT};
use crate::collision::CollideType;
use crate::gravity::GroundState;

verus! {

/// World scale: fixed-point units per meter, the base of the standard
/// tunables.
pub const PIXELS_PER_METER: i64 = 10;

/// Standard downward gravity force, in units/second squared.
pub const FORCE_GRAVITY: i64 = PIXELS_PER_METER * 500;

/// Standard componentwise acceleration bound, in units/second squared.
pub const ACCELERATION_MAXIMUM: i64 = PIXELS_PER_METER * 1000;

/// Standard horizontal acceleration decay, in units/second cubed.
pub const ACCELERATION_DECAY: i64 = PIXELS_PER_METER * 100;

/// Standard componentwise velocity bound, in units/second.
pub const VELOCITY_MAXIMUM: i64 = PIXELS_PER_METER * 1000;

/// Current linear velocity, in units per time unit.
#[derive(Clone, Copy, Debug, PartialEq, Eq, Structural)]
pub struct Velocity {
    pub value: Vec2i,
}

/// Persistent applied-force accumulator, in units per time unit squared:
/// consumed and mutated by the force integrator each frame, subject to
/// decay — not a transient per-frame input.
#[derive(Clone, Copy, Debug, PartialEq, Eq, Structural)]
pub struct Acceleration {
    pub value: Vec2i,
}

/// The process-wide tunables of the force integrator.
#[derive(Clone, Copy, Debug, PartialEq, Eq, Structural)]
pub struct PhysicsConfig {
    /// Gravity force accumulated while airborne.
    pub gravity: i64,
    /// Per-tick pull of horizontal acceleration toward zero.
    pub accel_decay: i64,
    /// Componentwise acceleration clamp, scaled by `dt`.
    pub accel_max: i64,
    /// Componentwise velocity clamp, scaled by `dt`.
    pub vel_max: i64,
}

impl PhysicsConfig {
    /// All tunables non-negative and within the proved arithmetic range.
    pub open spec fn wf(self) -> bool {
        0 <= self.gravity <= CFG_LIMIT && 0 <= self.accel_decay <= CFG_LIMIT && 0 <= self.accel_max
            <= CFG_LIMIT && 0 <= self.vel_max <= CFG_LIMIT
    }

    pub fn new(gravity: i64, accel_decay: i64, accel_max: i64, vel_max: i64) -> (c: PhysicsConfig)
        requires
            0 <= gravity <= CFG_LIMIT,
            0 <= accel_decay <= CFG_LIMIT,
            0 <= accel_max <= CFG_LIMIT,
            0 <= vel_max <= CFG_LIMIT,
        ensures
            c == (PhysicsConfig { gravity, accel_decay, accel_max, vel_max }),
            c.wf(),
    {
        PhysicsConfig { gravity, accel_decay, accel_max, vel_max }
    }
}

impl Default for PhysicsConfig {
    /// The standard tunables.
    fn default() -> (c: PhysicsConfig)
        ensures
            c == (PhysicsConfig {
                gravity: FORCE_GRAVITY,
                accel_decay: ACCELERATION_DECAY,
                accel_max: ACCELERATION_MAXIMUM,
                vel_max: VELOCITY_MAXIMUM,
            }),
            c.wf(),
    {
        PhysicsConfig {
            gravity: FORCE_GRAVITY,
            accel_decay: ACCELERATION_DECAY,
            accel_max: ACCELERATION_MAXIMUM,
            vel_max: VELOCITY_MAXIMUM,
        }
    }
}

/// Largest magnitude an acceleration or velocity component may carry into
/// the force integrator; the clamps bring it into range on the way out.
pub const FORCE_IN_LIMIT: i64 = 1_000_000_000_000_000_000;

/// Horizontal decay: pull `ax` toward zero by `step`, overshooting rather
/// than snapping (the clamp catches the overshoot); exact zero stays.
pub open spec fn decayed(ax: int, step: int) -> int {
    if ax > 0 {
        ax - step
    } else if ax < 0 {
        ax + step
    } else {
        ax
    }
}

/// The x acceleration after one tick: decayed toward zero, then clamped
/// to `accel_max * dt` componentwise.
pub open spec fn forces_acc_x(ax: int, dt: int, cfg: PhysicsConfig) -> int {
    clamp_s(decayed(ax, cfg.accel_decay * dt), -(cfg.accel_max * dt), cfg.accel_max * dt)
}

/// The y acceleration after one tick: zeroed while grounded, otherwise
/// accumulating gravity downward, then clamped as x is.
pub open spec fn forces_acc_y(ay: int, grounded: bool, dt: int, cfg: PhysicsConfig) -> int {
    clamp_s(
        if grounded {
            0
        } else {
            ay - cfg.gravity * dt
        },
        -(cfg.accel_max * dt),
        cfg.accel_max * dt,
    )
}

/// The x velocity after one tick: advanced by the new acceleration, then
/// clamped to `vel_max * dt`.
pub open spec fn forces_vel_x(vx: int, ax_new: int, dt: int, cfg: PhysicsConfig) -> int {
    clamp_s(vx + ax_new * dt, -(cfg.vel_max * dt), cfg.vel_max * dt)
}

/// The y velocity after one tick: any residual vertical motion is
/// discarded while grounded, then advanced and clamped as x is.
pub open spec fn forces_vel_y(
    vy: int,
    grounded: bool,
    ay_new: int,
    dt: int,
    cfg: PhysicsConfig,
) -> int {
    clamp_s(
        (if grounded {
            0
        } else {
            vy
        }) + ay_new * dt,
        -(cfg.vel_max * dt),
        cfg.vel_max * dt,
    )
}

/// The force integrator, for one `Dynamic` entity: gravity gated by the
/// grounded flag, horizontal decay, then componentwise clamps on
/// acceleration and velocity. Entities of any other category are left
/// untouched.
pub fn apply_forces(
    acceleration: &mut Acceleration,
    velocity: &mut Velocity,
    state: &GroundState,
    category: &CollideType,
    dt: i64,
    cfg: &PhysicsConfig,
)
    requires
        cfg.wf(),
        0 <= dt <= DT_LIMIT,
        -FORCE_IN_LIMIT <= old(acceleration).value.x <= FORCE_IN_LIMIT,
        -FORCE_IN_LIMIT <= old(acceleration).value.y <= FORCE_IN_LIMIT,
        -FORCE_IN_LIMIT <= old(velocity).value.x <= FORCE_IN_LIMIT,
        -FORCE_IN_LIMIT <= old(velocity).value.y <= FORCE_IN_LIMIT,
    ensures
        category is Dynamic ==> {
            &&& final(acceleration).value.x == forces_acc_x(old(acceleration).value.x as int, dt as int, *cfg)
            &&& final(acceleration).value.y == forces_acc_y(
                old(acceleration).value.y as int,
                state.is_grounded,
                dt as int,
                *cfg,
            )
            &&& final(velocity).value.x == forces_vel_x(
                old(velocity).value.x as int,
                final(acceleration).value.x as int,
                dt as int,
                *cfg,
            )
            &&& final(velocity).value.y == forces_vel_y(
                old(velocity).value.y as int,
                state.is_grounded,
                final(acceleration).value.y as int,
                dt as int,
                *cfg,
            )
        },
        !(category is Dynamic) ==> *final(acceleration) == *old(acceleration) && *final(velocity)
            == *old(velocity),
{
    if !(*category == CollideType::Dynamic) {
        return ;
    }
    proof {
        assert(cfg.accel_decay * dt <= CFG_LIMIT * DT_LIMIT && cfg.accel_decay * dt >= 0)
            by (nonlinear_arith)
            requires
                0 <= cfg.accel_decay <= CFG_LIMIT,
                0 <= dt <= DT_LIMIT,
        ;
        assert(cfg.gravity * dt <= CFG_LIMIT * DT_LIMIT && cfg.gravity * dt >= 0)
            by (nonlinear_arith)
            requires
                0 <= cfg.gravity <= CFG_LIMIT,
                0 <= dt <= DT_LIMIT,
        ;
        assert(cfg.accel_max * dt <= CFG_LIMIT * DT_LIMIT && cfg.accel_max * dt >= 0)
            by (nonlinear_arith)
            requires
                0 <= cfg.accel_max <= CFG_LIMIT,
                0 <= dt <= DT_LIMIT,
        ;
        assert(cfg.vel_max * dt <= CFG_LIMIT * DT_LIMIT && cfg.vel_max * dt >= 0)
            by (nonlinear_arith)
            requires
                0 <= cfg.vel_max <= CFG_LIMIT,
                0 <= dt <= DT_LIMIT,
        ;
    }
    let accel_bound = cfg.accel_max * dt;
    let vel_bound = cfg.vel_max * dt;

    let ax = if acceleration.value.x > 0 {
        acceleration.value.x - cfg.accel_decay * dt
    } else if acceleration.value.x < 0 {
        acceleration.value.x + cfg.accel_decay * dt
    } else {
        acceleration.value.x
    };
    let ay = if state.is_grounded {
        0
    } else {
        acceleration.value.y - cfg.gravity * dt
    };
    let new_ax = clamp_i64(ax, -accel_bound, accel_bound);
    let new_ay = clamp_i64(ay, -accel_bound, accel_bound);
    acceleration.value = Vec2i { x: new_ax, y: new_ay };

    proof {
        assert(new_ax * dt <= VEL_LIMIT * DT_LIMIT && new_ax * dt >= -(VEL_LIMIT * DT_LIMIT))
            by (nonlinear_arith)
            requires
                -VEL_LIMIT <= new_ax <= VEL_LIMIT,
                0 <= dt <= DT_LIMIT,
        ;
        assert(new_ay * dt <= VEL_LIMIT * DT_LIMIT && new_ay * dt >= -(VEL_LIMIT * DT_LIMIT))
            by (nonlinear_arith)
            requires
                -VEL_LIMIT <= new_ay <= VEL_LIMIT,
                0 <= dt <= DT_LIMIT,
        ;
    }
    let vx = velocity.value.x + new_ax * dt;
    let vy = (if state.is_grounded {
        0
    } else {
        velocity.value.y
    }) + new_ay * dt;
    velocity.value = Vec2i {
        x: clamp_i64(vx, -vel_bound, vel_bound),
        y: clamp_i64(vy, -vel_bound, vel_bound),
    };
}

/// The position integrator: `position += velocity * dt` on x and y; z is
/// untouched. No clamping, no failure modes.
pub fn update_position(position: &mut Vec3i, velocity: &Velocity, dt: i64)
    requires
        in_pos(old(position).x as int),
        in_pos(old(position).y as int),
        -VEL_LIMIT <= velocity.value.x <= VEL_LIMIT,
        -VEL_LIMIT <= velocity.value.y <= VEL_LIMIT,
        0 <= dt <= DT_LIMIT,
    ensures
        final(position).x == old(position).x + velocity.value.x * dt,
        final(position).y == old(position).y + velocity.value.y * dt,
        final(position).z == old(position).z,
{
    proof {
        assert(velocity.value.x * dt <= VEL_LIMIT * DT_LIMIT && velocity.value.x * dt >= -(
        VEL_LIMIT * DT_LIMIT)) by (nonlinear_arith)
            requires
                -VEL_LIMIT <= velocity.value.x <= VEL_LIMIT,
                0 <= dt <= DT_LIMIT,
        ;
        assert(velocity.value.y * dt <= VEL_LIMIT * DT_LIMIT && velocity.value.y * dt >= -(
        VEL_LIMIT * DT_LIMIT)) by (nonlinear_arith)
            requires
                -VEL_LIMIT <= velocity.value.y <= VEL_LIMIT,
                0 <= dt <= DT_LIMIT,
        ;
    }
    position.x = position.x + velocity.value.x * dt;
    position.y = position.y + velocity.value.y * dt;
}

/// Grounded settling: while the grounded flag holds, one force-integrator
/// tick drives the vertical acceleration and velocity to exactly zero,
/// whatever they were before — so across successive grounded ticks they
/// stay at zero.
pub proof fn lemma_grounded_settles_vertical(ay: int, vy: int, dt: int, cfg: PhysicsConfig)
    requires
        cfg.wf(),
        0 <= dt <= DT_LIMIT,
    ensures
        forces_acc_y(ay, true, dt, cfg) == 0,
        forces_vel_y(vy, true, forces_acc_y(ay, true, dt, cfg), dt, cfg) == 0,
{
    assert(cfg.accel_max * dt >= 0 && cfg.vel_max * dt >= 0) by (nonlinear_arith)
        requires
            0 <= cfg.accel_max,
            0 <= cfg.vel_max,
            0 <= dt,
    ;
}

/// Single-tick bounds: after one force-integrator tick, from arbitrary
/// prior values, no acceleration component exceeds `accel_max * dt` and no
/// velocity component exceeds `vel_max * dt` in magnitude.
pub proof fn lemma_single_tick_bounds(
    ax: int,
    ay: int,
    vx: int,
    vy: int,
    grounded: bool,
    dt: int,
    cfg: PhysicsConfig,
)
    requires
        cfg.wf(),
        0 <= dt <= DT_LIMIT,
    ensures
        abs(forces_acc_x(ax, dt, cfg)) <= cfg.accel_max * dt,
        abs(forces_acc_y(ay, grounded, dt, cfg)) <= cfg.accel_max * dt,
        abs(forces_vel_x(vx, forces_acc_x(ax, dt, cfg), dt, cfg)) <= cfg.vel_max * dt,
        abs(forces_vel_y(vy, grounded, forces_acc_y(ay, grounded, dt, cfg), dt, cfg)) <= cfg.vel_max
            * dt,
{
    assert(cfg.accel_max * dt >= 0 && cfg.vel_max * dt >= 0) by (nonlinear_arith)
        requires
            0 <= cfg.accel_max,
            0 <= cfg.vel_max,
            0 <= dt,
    ;
}

} // verus!
