//! Player-driven velocity changes: walking, jumping with coyote time and a
//! cooldown, and gravity with a window of immunity after a jump.
use crate::contact::{CollisionConfig, CollisionState, Vector, Velocity, COS_45_DEGREES, UNIT};
use crate::layers::{layer_bit, GameLayer};
use crate::sprite::{hitbox_from_bounds, sprite_offset, Hitbox, Rect};
use crate::motion::{trunc_div, MICROS_PER_SECOND};
use crate::timers::Timer;
use vstd::prelude::*;

verus! {

/// The size of a level tile, in sub-units.
pub const TILE_SIZE: i64 = 16000;

/// The player's default extent, in sub-units.
pub const PLAYER_WIDTH: i64 = 32000;
pub const PLAYER_HEIGHT: i64 = 48000;

/// The pixel width and height of the player's sprite.
pub const PLAYER_SPRITE_WIDTH: i32 = 64;
pub const PLAYER_SPRITE_HEIGHT: i32 = 64;

/// How much faster than walking a shot flies, in sub-units per second.
pub const SHOT_SPEED_BONUS: i64 = 70000;

/// Everything a freshly spawned player starts with besides its position.
#[derive(Clone, Copy, Debug, PartialEq, Eq, Structural)]
pub struct PlayerSetup {
    pub collision: CollisionConfig,
    pub movement: MovementParams,
    pub gravity: EntityGravity,
    pub gravity_immunity: Timer,
    pub jump_cooldown: Timer,
}

/// `value` tiles, in sub-units.
pub fn multiply_by_tile_size(value: i64) -> (r: i64)
    requires
        i64::MIN <= value * TILE_SIZE <= i64::MAX,
    ensures
        r == value * TILE_SIZE,
{
    value * TILE_SIZE
}

/// The player's tunables: it walks at ten tiles a second, reaching that
/// speed in under half a second, jumps with fifteen tiles a second, falls
/// under thirty tiles a second squared up to fifteen tiles a second, and its
/// probes reach one unit and see only level geometry.
pub fn player_setup() -> (r: PlayerSetup)
    ensures
        r.collision == (CollisionConfig {
            ground_check_distance: UNIT,
            wall_check_distance: UNIT,
            ceiling_check_distance: UNIT,
            ledge_check_distance: (8 * UNIT) as i64,
            slope_min_normal_y: COS_45_DEGREES,
            coyote_time: 500000,
            collision_filter: layer_bit(GameLayer::LevelGeometry),
        }),
        r.movement == (MovementParams {
            walk_speed: (10 * TILE_SIZE) as i64,
            walk_acceleration: (25 * TILE_SIZE) as i64,
            ground_deceleration: (50 * TILE_SIZE) as i64,
            jump_force: (15 * TILE_SIZE) as i64,
            coyote_time: 500000,
        }),
        r.gravity == (EntityGravity { gravity: (30 * TILE_SIZE) as i64, max_fall_speed: (15 * TILE_SIZE) as i64, enabled: true }),
        r.gravity_immunity == Timer::fresh(300000),
        r.jump_cooldown == Timer::fresh(500000),
{
    let walk_speed = multiply_by_tile_size(10);
    let walk_acceleration = walk_speed * 5 / 2;
    let ground_deceleration = walk_acceleration * 2;
    PlayerSetup {
        collision: CollisionConfig {
            ground_check_distance: UNIT,
            wall_check_distance: UNIT,
            ceiling_check_distance: UNIT,
            ledge_check_distance: (8 * UNIT) as i64,
            slope_min_normal_y: COS_45_DEGREES,
            coyote_time: 500000,
            collision_filter: GameLayer::LevelGeometry.to_bits(),
        },
        movement: MovementParams {
            walk_speed,
            walk_acceleration,
            ground_deceleration,
            jump_force: multiply_by_tile_size(15),
            coyote_time: 500000,
        },
        gravity: EntityGravity { gravity: multiply_by_tile_size(30), max_fall_speed: multiply_by_tile_size(15), enabled: true },
        gravity_immunity: Timer::new(300000),
        jump_cooldown: Timer::new(500000),
    }
}

/// The player's collider: the one its sprite's hitbox slice marks, or the
/// default extent centred on the sprite when the sprite has none.
pub fn player_hitbox(bounds: Option<Rect>) -> (r: Hitbox)
    ensures
        r == match bounds {
            Some(b) => Hitbox {
                width: (b.w * UNIT) as i64,
                height: (b.h * UNIT) as i64,
                offset: sprite_offset(b, PLAYER_SPRITE_WIDTH as int, PLAYER_SPRITE_HEIGHT as int, false),
            },
            None => Hitbox { width: PLAYER_WIDTH, height: PLAYER_HEIGHT, offset: Vector { x: 0, y: 0 } },
        },
{
    match bounds {
        Some(b) => hitbox_from_bounds(&b, PLAYER_SPRITE_WIDTH, PLAYER_SPRITE_HEIGHT),
        None => Hitbox { width: PLAYER_WIDTH, height: PLAYER_HEIGHT, offset: Vector { x: 0, y: 0 } },
    }
}

/// Where a player respawns: at the current spawn point, or at the origin
/// when none has been set.
pub fn respawn_position(current_spawn: Option<Vector>) -> (r: Vector)
    ensures
        r == match current_spawn {
            Some(p) => p,
            None => Vector { x: 0, y: 0 },
        },
{
    match current_spawn {
        Some(p) => p,
        None => Vector { x: 0, y: 0 },
    }
}

/// The velocity of a shot: level, faster than walking by a fixed bonus, the
/// way the player faces.
pub fn shot_velocity(walk_speed: i64, facing_left: bool) -> (r: Velocity)
    requires
        i64::MIN < walk_speed + SHOT_SPEED_BONUS <= i64::MAX,
    ensures
        r.y == 0,
        r.x == if facing_left {
            -(walk_speed + SHOT_SPEED_BONUS)
        } else {
            walk_speed + SHOT_SPEED_BONUS
        },
{
    let s = walk_speed + SHOT_SPEED_BONUS;
    Velocity { x: if facing_left { -s } else { s }, y: 0 }
}

/// The change that a rate (per second) makes over `dt` microseconds,
/// rounded toward zero.
pub open spec fn change_over(rate: int, dt: int) -> int {
    trunc_div(rate * dt, MICROS_PER_SECOND as int)
}

/// `x` held within `lo ..= hi`.
pub open spec fn clamp(x: int, lo: int, hi: int) -> int {
    if x < lo {
        lo
    } else if x > hi {
        hi
    } else {
        x
    }
}

/// A jump is allowed on the ground, or off it within the coyote time once
/// the cooldown has run out.
pub open spec fn jump_allowed(grounded: bool, time_since_grounded: u64, coyote_time: u64, cooldown_finished: bool) -> bool {
    grounded || (time_since_grounded < coyote_time && cooldown_finished)
}

/// Gravity acting on a body: its acceleration, the fall speed beyond which
/// it stops acting, and whether it acts at all.
#[derive(Clone, Copy, Debug, PartialEq, Eq, Structural)]
pub struct EntityGravity {
    pub gravity: i64,
    pub max_fall_speed: i64,
    pub enabled: bool,
}

/// The player's movement tunables, in sub-units per second (or per second
/// squared), and its coyote time in microseconds.
#[derive(Clone, Copy, Debug, PartialEq, Eq, Structural)]
pub struct MovementParams {
    pub walk_speed: i64,
    pub walk_acceleration: i64,
    pub ground_deceleration: i64,
    pub jump_force: i64,
    pub coyote_time: u64,
}

/// The actions held down this tick.
#[derive(Clone, Copy, Debug, PartialEq, Eq, Structural)]
pub struct ControlInput {
    pub left: bool,
    pub right: bool,
    pub jump: bool,
}

/// The player's animations.
#[derive(Clone, Copy, Debug, PartialEq, Eq, Structural)]
pub enum PlayerAnimation {
    Idle,
    Run,
    Jump,
}

/// What a tick of controls decided besides the velocity.
#[derive(Clone, Copy, Debug, PartialEq, Eq, Structural)]
pub struct ControlOutcome {
    /// The way the sprite faces, where the input turned it: `true` for left.
    pub flip_x: Option<bool>,
    pub just_jumped: bool,
    pub animation: PlayerAnimation,
}

/// The horizontal change of a tick of walking input.
pub open spec fn walk_change(v: int, input: ControlInput, p: MovementParams, dt: int) -> int {
    if input.left {
        if v > -p.walk_speed {
            change_over(-p.walk_acceleration, dt)
        } else {
            0
        }
    } else if input.right {
        if v < p.walk_speed {
            change_over(p.walk_acceleration as int, dt)
        } else {
            0
        }
    } else if v < 0 {
        clamp(change_over(p.ground_deceleration as int, dt), v, p.ground_deceleration as int)
    } else if v > 0 {
        clamp(change_over(-p.ground_deceleration, dt), -p.ground_deceleration, v)
    } else {
        0
    }
}

/// The animation for the body's contact and what it did this tick.
pub open spec fn animation_for(grounded: bool, just_jumped: bool, running: bool) -> PlayerAnimation {
    if !grounded || just_jumped {
        PlayerAnimation::Jump
    } else if running {
        PlayerAnimation::Run
    } else {
        PlayerAnimation::Idle
    }
}

/// `rate * dt / 1 s`, rounded toward zero.
pub fn change_over_time(rate: i64, dt: u64) -> (r: i64)
    requires
        -0x8000_0000_0000_0000 <= change_over(rate as int, dt as int) <= 0x7fff_ffff_ffff_ffff,
    ensures
        r == change_over(rate as int, dt as int),
{
    assert(-0x8000_0000_0000_0000 * 0x1_0000_0000_0000_0000 <= rate * dt <= 0x8000_0000_0000_0000 * 0x1_0000_0000_0000_0000) by (nonlinear_arith)
        requires -0x8000_0000_0000_0000 <= rate <= 0x8000_0000_0000_0000, 0 <= dt <= 0x1_0000_0000_0000_0000;
    let c: i128 = rate as i128 * dt as i128 / MICROS_PER_SECOND as i128;
    c as i64
}

/// Jumps if allowed: adds the impulse to the vertical velocity and restarts
/// the gravity immunity and the cooldown. Returns whether it jumped.
pub fn try_jump(
    state: &CollisionState,
    velocity: &mut Velocity,
    coyote_time: u64,
    jump_force: i64,
    cooldown: &mut Timer,
    immunity: &mut Timer,
) -> (r: bool)
    requires
        i64::MIN <= old(velocity).y + jump_force <= i64::MAX,
    ensures
        r == jump_allowed(state.grounded, state.time_since_grounded, coyote_time, old(cooldown).is_finished()),
        r ==> final(velocity).y == old(velocity).y + jump_force && final(velocity).x == old(velocity).x,
        r ==> *final(cooldown) == (Timer { elapsed: 0, ..*old(cooldown) }),
        r ==> *final(immunity) == (Timer { elapsed: 0, ..*old(immunity) }),
        !r ==> *final(velocity) == *old(velocity) && *final(cooldown) == *old(cooldown) && *final(immunity) == *old(immunity),
{
    if state.grounded || (state.time_since_grounded < coyote_time && cooldown.finished()) {
        velocity.y = velocity.y + jump_force;
        immunity.reset();
        cooldown.reset();
        true
    } else {
        false
    }
}

/// The horizontal change of a tick of walking input: accelerate toward the
/// held direction up to the walk speed, else decelerate toward rest.
pub fn walk_step(vx: i64, input: &ControlInput, params: &MovementParams, dt: u64) -> (r: i64)
    requires
        params.ground_deceleration > i64::MIN,
        -0x8000_0000_0000_0000 <= change_over(params.walk_acceleration as int, dt as int) <= 0x7fff_ffff_ffff_ffff,
        -0x8000_0000_0000_0000 <= change_over(-params.walk_acceleration, dt as int) <= 0x7fff_ffff_ffff_ffff,
        -0x8000_0000_0000_0000 <= change_over(params.ground_deceleration as int, dt as int) <= 0x7fff_ffff_ffff_ffff,
        -0x8000_0000_0000_0000 <= change_over(-params.ground_deceleration, dt as int) <= 0x7fff_ffff_ffff_ffff,
    ensures
        r == walk_change(vx as int, *input, *params, dt as int),
{
    if input.left {
        if (vx as i128) > -(params.walk_speed as i128) {
            proof {
                assert(trunc_div(-params.walk_acceleration * dt, MICROS_PER_SECOND as int) == -trunc_div(params.walk_acceleration * dt, MICROS_PER_SECOND as int)) by (nonlinear_arith);
            }
            -change_over_time(params.walk_acceleration, dt)
        } else {
            0
        }
    } else if input.right {
        if (vx as i128) < params.walk_speed as i128 {
            change_over_time(params.walk_acceleration, dt)
        } else {
            0
        }
    } else if vx < 0 {
        let c = change_over_time(params.ground_deceleration, dt);
        if c < vx {
            vx
        } else if c > params.ground_deceleration {
            params.ground_deceleration
        } else {
            c
        }
    } else if vx > 0 {
        proof {
            assert(trunc_div(-params.ground_deceleration * dt, MICROS_PER_SECOND as int) == -trunc_div(params.ground_deceleration * dt, MICROS_PER_SECOND as int)) by (nonlinear_arith);
        }
        let c = -change_over_time(params.ground_deceleration, dt);
        if c < -params.ground_deceleration {
            -params.ground_deceleration
        } else if c > vx {
            vx
        } else {
            c
        }
    } else {
        0
    }
}

/// The walk and jump change that the step conditions allow in a tick.
pub open spec fn controls_fit(v: Velocity, input: ControlInput, p: MovementParams, dt: int) -> bool {
    &&& p.ground_deceleration > i64::MIN
    &&& -0x8000_0000_0000_0000 <= change_over(p.walk_acceleration as int, dt) <= 0x7fff_ffff_ffff_ffff
    &&& -0x8000_0000_0000_0000 <= change_over(-p.walk_acceleration, dt) <= 0x7fff_ffff_ffff_ffff
    &&& -0x8000_0000_0000_0000 <= change_over(p.ground_deceleration as int, dt) <= 0x7fff_ffff_ffff_ffff
    &&& -0x8000_0000_0000_0000 <= change_over(-p.ground_deceleration, dt) <= 0x7fff_ffff_ffff_ffff
    &&& i64::MIN <= v.x + walk_change(v.x as int, input, p, dt) <= i64::MAX
    &&& i64::MIN <= v.y + p.jump_force <= i64::MAX
}

/// One tick of player controls: the jump cooldown advances, the walking
/// input changes the horizontal velocity, a held jump is tried, and the
/// animation follows.
pub fn apply_controls(
    input: &ControlInput,
    params: &MovementParams,
    state: &CollisionState,
    velocity: &mut Velocity,
    cooldown: &mut Timer,
    immunity: &mut Timer,
    dt: u64,
) -> (r: ControlOutcome)
    requires
        old(cooldown).wf(),
        controls_fit(*old(velocity), *input, *params, dt as int),
    ensures
        final(velocity).x == old(velocity).x + walk_change(old(velocity).x as int, *input, *params, dt as int),
        ({
            let ticked = crate::timers::saturating_sum(old(cooldown).elapsed, dt);
            let ready = ticked >= old(cooldown).duration;
            r.just_jumped == (input.jump && jump_allowed(state.grounded, state.time_since_grounded, params.coyote_time, ready))
        }),
        r.just_jumped ==> final(velocity).y == old(velocity).y + params.jump_force && final(cooldown).elapsed == 0
            && final(immunity).elapsed == 0,
        !r.just_jumped ==> final(velocity).y == old(velocity).y && *final(immunity) == *old(immunity),
        !r.just_jumped ==> final(cooldown).elapsed == if crate::timers::saturating_sum(old(cooldown).elapsed, dt)
            < old(cooldown).duration {
            crate::timers::saturating_sum(old(cooldown).elapsed, dt)
        } else {
            old(cooldown).duration
        },
        final(cooldown).duration == old(cooldown).duration,
        final(immunity).duration == old(immunity).duration,
        r.flip_x == if input.left {
            Some(true)
        } else if input.right {
            Some(false)
        } else {
            None
        },
        r.animation == animation_for(state.grounded, r.just_jumped, input.left || input.right),
{
    cooldown.tick(dt);
    let dx = walk_step(velocity.x, input, params, dt);
    velocity.x = velocity.x + dx;
    let flip_x = if input.left {
        Some(true)
    } else if input.right {
        Some(false)
    } else {
        None
    };
    let mut just_jumped = false;
    if input.jump {
        just_jumped = try_jump(state, velocity, params.coyote_time, params.jump_force, cooldown, immunity);
    }
    let running = input.left || input.right;
    let animation = select_animation(state.grounded, just_jumped, running);
    ControlOutcome { flip_x, just_jumped, animation }
}

/// Gravity for one tick: pulls the body down while it is enabled, the body
/// falls slower than the maximum, and it is not on the ground.
pub fn apply_gravity(gravity: &EntityGravity, velocity: &mut Velocity, grounded: Option<bool>, dt: u64)
    requires
        i64::MIN <= old(velocity).y - change_over(gravity.gravity as int, dt as int) <= i64::MAX,
        -0x8000_0000_0000_0000 <= change_over(gravity.gravity as int, dt as int) <= 0x7fff_ffff_ffff_ffff,
    ensures
        final(velocity).x == old(velocity).x,
        final(velocity).y == if gravity.enabled && old(velocity).y > -gravity.max_fall_speed && grounded != Some(true) {
            old(velocity).y - change_over(gravity.gravity as int, dt as int)
        } else {
            old(velocity).y as int
        },
{
    if gravity.enabled && (velocity.y as i128) > -(gravity.max_fall_speed as i128) {
        let pulled = match grounded {
            Some(g) => !g,
            None => true,
        };
        if pulled {
            velocity.y = velocity.y - change_over_time(gravity.gravity, dt);
        }
    }
}

/// Advances the gravity immunity after a jump; gravity acts once it has run
/// out, or as soon as the jump is released.
pub fn toggle_gravity(gravity: &mut EntityGravity, immunity: &mut Timer, jump_held: bool, dt: u64)
    requires
        old(immunity).wf(),
    ensures
        *final(immunity) == (Timer {
            elapsed: if crate::timers::saturating_sum(old(immunity).elapsed, dt) < old(immunity).duration {
                crate::timers::saturating_sum(old(immunity).elapsed, dt)
            } else {
                old(immunity).duration
            },
            ..*old(immunity)
        }),
        final(gravity).enabled == (final(immunity).is_finished() || !jump_held),
        final(gravity).gravity == old(gravity).gravity,
        final(gravity).max_fall_speed == old(gravity).max_fall_speed,
{
    immunity.tick(dt);
    gravity.enabled = immunity.finished() || !jump_held;
}

/// The animation for the body's contact and what it did this tick.
pub fn select_animation(grounded: bool, just_jumped: bool, running: bool) -> (r: PlayerAnimation)
    ensures
        r == animation_for(grounded, just_jumped, running),
{
    if !grounded || just_jumped {
        PlayerAnimation::Jump
    } else if running {
        PlayerAnimation::Run
    } else {
        PlayerAnimation::Idle
    }
}


/// Off the ground, a jump request succeeds while the time since the body
/// left the ground is under the coyote time (once the cooldown has run out),
/// and fails from then on.
pub proof fn lemma_coyote_window(time_since_grounded: u64, coyote_time: u64, cooldown_finished: bool)
    ensures
        time_since_grounded < coyote_time && cooldown_finished ==> jump_allowed(
            false,
            time_since_grounded,
            coyote_time,
            cooldown_finished,
        ),
        time_since_grounded >= coyote_time ==> !jump_allowed(false, time_since_grounded, coyote_time, cooldown_finished),
{
}

} // verus!
