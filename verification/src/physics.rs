//! The physics integrator: velocity and position under gravity, and the
//! single ground-plane collision that writes back the grounded flag the
//! state stack machine reads on the next tick.

use vstd::prelude::*;
use crate::GRAVITY;
use crate::state::{PlayerState, PlayerStateKind, Vec2, top_tag};

verus! {

/// Velocity (units per second), acceleration (units per second squared) and
/// the grounded flag of the one player body.  The body is two-dimensional:
/// a side-scroller uses no third axis.
#[derive(Clone, Copy, PartialEq, Eq, Structural, Debug)]
pub struct Physics {
    pub velocity: Vec2,
    pub acceleration: Vec2,
    pub on_ground: bool,
}

impl Default for Physics {
    /// A freshly spawned body is at rest and airborne until the first
    /// collision pass grounds it.
    fn default() -> (p: Self)
        ensures
            p.velocity == Vec2::spec_zero(),
            p.acceleration == Vec2::spec_zero(),
            !p.on_ground,
    {
        Physics { velocity: Vec2::zero(), acceleration: Vec2::zero(), on_ground: false }
    }
}

/// The single ground plane's height, published by the scene setup.
#[derive(Clone, Copy, PartialEq, Eq, Structural, Debug)]
pub struct Ground {
    pub level: i64,
}

/// The player sprite's frame size; half its height offsets the ground test.
#[derive(Clone, Copy, PartialEq, Eq, Structural, Debug)]
pub struct SpriteSize {
    pub frame_size: Vec2,
}

impl Default for SpriteSize {
    fn default() -> (s: Self)
        ensures
            s.frame_size == (Vec2 { x: 128, y: 128 }),
    {
        SpriteSize { frame_size: Vec2 { x: 128, y: 128 } }
    }
}

/// Bound on acceleration magnitudes (units per second squared) the
/// integrator accepts; gravity is far below it.
pub const ACC_LIMIT: i64 = 1_000_000;

/// Bound on velocity magnitudes (units per second) the integrator accepts.
pub const VEL_LIMIT: i64 = 1_000_000_000;

/// Bound on position magnitudes (units) the integrator accepts.
pub const POS_LIMIT: i64 = 1_000_000_000_000;

/// Longest tick delta, in milliseconds, the integrator accepts: one minute.
pub const DT_LIMIT_MS: u64 = 60_000;

/// Truncating `v * dt / 1000`: a per-second rate scaled by a tick delta in
/// milliseconds, with the quotient rounded toward zero.
pub open spec fn scaled(v: i64, dt_ms: u64) -> int {
    if v >= 0 {
        (v * dt_ms) / 1000
    } else {
        -((-(v as int) * dt_ms) / 1000)
    }
}

/// The product of two bounded non-negative values is bounded by the product
/// of the bounds.
proof fn lemma_mul_le(a: int, b: int, a_max: int, b_max: int)
    by (nonlinear_arith)
    requires
        0 <= a <= a_max,
        0 <= b <= b_max,
    ensures
        0 <= a * b <= a_max * b_max,
{
}

/// Multiply a per-second rate by a tick delta in milliseconds and rescale to
/// base units.
fn scale_by_dt(v: i64, dt_ms: u64) -> (r: i64)
    requires
        -2 * (VEL_LIMIT as int) <= v <= 2 * (VEL_LIMIT as int),
        dt_ms <= DT_LIMIT_MS,
    ensures
        r == scaled(v, dt_ms),
{
    if v >= 0 {
        proof {
            lemma_mul_le(v as int, dt_ms as int, 2 * (VEL_LIMIT as int), DT_LIMIT_MS as int);
        }
        let prod: u64 = (v as u64) * dt_ms;
        (prod / 1000) as i64
    } else {
        proof {
            lemma_mul_le(-(v as int), dt_ms as int, 2 * (VEL_LIMIT as int), DT_LIMIT_MS as int);
        }
        let prod: u64 = ((-v) as u64) * dt_ms;
        -((prod / 1000) as i64)
    }
}

/// A rate bounded by `b` scales to at most `b` times the delta limit in
/// seconds.
pub proof fn lemma_scaled_bound(v: i64, dt_ms: u64, b: int)
    by (nonlinear_arith)
    requires
        -b <= v <= b,
        dt_ms <= DT_LIMIT_MS,
    ensures
        -(b * 60) <= scaled(v, dt_ms) <= b * 60,
{
}

/// The acceleration after the gravity pass: a fixed downward pull while
/// airborne, none while grounded; horizontal acceleration is unused.
pub open spec fn gravity_acceleration(on_ground: bool, a: Vec2) -> Vec2 {
    Vec2 { x: a.x, y: if on_ground { 0 } else { GRAVITY } }
}

/// The gravity and integration pass: set vertical acceleration from the
/// grounded flag, then velocity += acceleration * dt and
/// position += velocity * dt, with the new velocity visible to the position
/// update within the same tick.
pub fn gravity_system(physics: &mut Physics, position: &mut Vec2, dt_ms: u64)
    requires
        -VEL_LIMIT <= old(physics).velocity.x <= VEL_LIMIT,
        -VEL_LIMIT <= old(physics).velocity.y <= VEL_LIMIT,
        -ACC_LIMIT <= old(physics).acceleration.x <= ACC_LIMIT,
        -POS_LIMIT <= old(position).x <= POS_LIMIT,
        -POS_LIMIT <= old(position).y <= POS_LIMIT,
        dt_ms <= DT_LIMIT_MS,
    ensures
        final(physics).on_ground == old(physics).on_ground,
        final(physics).acceleration
            == gravity_acceleration(old(physics).on_ground, old(physics).acceleration),
        final(physics).velocity.x
            == old(physics).velocity.x + scaled(final(physics).acceleration.x, dt_ms),
        final(physics).velocity.y
            == old(physics).velocity.y + scaled(final(physics).acceleration.y, dt_ms),
        final(position).x == old(position).x + scaled(final(physics).velocity.x, dt_ms),
        final(position).y == old(position).y + scaled(final(physics).velocity.y, dt_ms),
{
    if !physics.on_ground {
        physics.acceleration.y = GRAVITY;
    } else {
        physics.acceleration.y = 0;
    }
    proof {
        lemma_scaled_bound(physics.acceleration.x, dt_ms, ACC_LIMIT as int);
        lemma_scaled_bound(physics.acceleration.y, dt_ms, ACC_LIMIT as int);
    }
    physics.velocity.x = physics.velocity.x + scale_by_dt(physics.acceleration.x, dt_ms);
    physics.velocity.y = physics.velocity.y + scale_by_dt(physics.acceleration.y, dt_ms);
    proof {
        lemma_scaled_bound(physics.velocity.x, dt_ms, VEL_LIMIT + 60 * (ACC_LIMIT as int));
        lemma_scaled_bound(physics.velocity.y, dt_ms, VEL_LIMIT + 60 * (ACC_LIMIT as int));
    }
    position.x = position.x + scale_by_dt(physics.velocity.x, dt_ms);
    position.y = position.y + scale_by_dt(physics.velocity.y, dt_ms);
}

/// The collision outcome: velocity, vertical position and grounded flag
/// after the single ground-plane test.
pub ghost struct CollisionView {
    pub velocity: Vec2,
    pub position_y: i64,
    pub on_ground: bool,
}

/// The resting height for a sprite on the ground plane: the plane's level
/// raised by half the sprite's height.
pub open spec fn rest_level(ground: Ground, sprite: SpriteSize) -> int {
    ground.level + sprite.frame_size.y / 2
}

/// The collision pass as a function: a body at or below its resting height
/// and not ascending is clamped to the resting height, stopped vertically
/// and grounded; any other body is airborne.
pub open spec fn collide(velocity: Vec2, position_y: i64, ground: Ground, sprite: SpriteSize)
    -> CollisionView {
    if position_y <= rest_level(ground, sprite) && velocity.y <= 0 {
        CollisionView {
            velocity: Vec2 { x: velocity.x, y: 0 },
            position_y: rest_level(ground, sprite) as i64,
            on_ground: true,
        }
    } else {
        CollisionView { velocity, position_y, on_ground: false }
    }
}

/// The collision pass: compare the body's height, adjusted by half the
/// sprite's height, against the single ground plane; clamp, stop and ground
/// a descending body at or below it, and mark every other body airborne.
pub fn collision_system(
    physics: &mut Physics,
    position: &mut Vec2,
    sprite: &SpriteSize,
    ground: &Ground,
)
    requires
        0 <= sprite.frame_size.y,
        -POS_LIMIT <= ground.level,
        rest_level(*ground, *sprite) <= POS_LIMIT,
    ensures
        final(physics).acceleration == old(physics).acceleration,
        final(physics).velocity
            == collide(old(physics).velocity, old(position).y, *ground, *sprite).velocity,
        final(physics).on_ground
            == collide(old(physics).velocity, old(position).y, *ground, *sprite).on_ground,
        final(position).y
            == collide(old(physics).velocity, old(position).y, *ground, *sprite).position_y,
        final(position).x == old(position).x,
{
    let ground_level = ground.level + sprite.frame_size.y / 2;
    if position.y <= ground_level && physics.velocity.y <= 0 {
        position.y = ground_level;
        physics.velocity.y = 0;
        physics.on_ground = true;
    } else {
        physics.on_ground = false;
    }
}

/// The velocity after the derived-motion step for an active tag: Walk and
/// Run drive the horizontal component, Jump drives the vertical component,
/// Attack roots the body, everything else leaves the velocity alone.
pub open spec fn derived_velocity(active: PlayerStateKind, velocity: Vec2) -> Vec2 {
    match active {
        PlayerStateKind::Walk(v) => Vec2 { x: v.x, y: velocity.y },
        PlayerStateKind::Run(v) => Vec2 { x: v.x, y: velocity.y },
        PlayerStateKind::Jump(v) => Vec2 { x: velocity.x, y: v.y },
        PlayerStateKind::Attack => Vec2::spec_zero(),
        _ => velocity,
    }
}

/// The sprite's horizontal flip after the derived-motion step: walking or
/// running to the left faces the sprite left; other tags keep the last
/// facing.
pub open spec fn derived_flip(active: PlayerStateKind, flip_x: bool) -> bool {
    match active {
        PlayerStateKind::Walk(v) => v.x < 0,
        PlayerStateKind::Run(v) => v.x < 0,
        _ => flip_x,
    }
}

/// The derived-motion step: write the active state's motion intent into the
/// physics body and the renderer's horizontal-flip flag.  Runs after the
/// state stack machine and before the gravity pass, so a same-tick jump
/// impulse is integrated immediately.
pub fn player_sprite_movement(state: &PlayerState, physics: &mut Physics, flip_x: &mut bool)
    ensures
        final(physics).velocity == derived_velocity(top_tag(state@), old(physics).velocity),
        final(physics).acceleration == old(physics).acceleration,
        final(physics).on_ground == old(physics).on_ground,
        *final(flip_x) == derived_flip(top_tag(state@), *old(flip_x)),
{
    match state.current_state() {
        PlayerStateKind::Walk(vel) | PlayerStateKind::Run(vel) => {
            physics.velocity.x = vel.x;
            *flip_x = vel.x < 0;
        },
        PlayerStateKind::Jump(vel) => {
            physics.velocity.y = vel.y;
        },
        PlayerStateKind::Attack => {
            physics.velocity = Vec2::zero();
        },
        _ => {},
    }
}

} // verus!
