//! The axis-separated integrator: the body moves along x, then along y,
//! each with a cast of its own, and reads its contacts from the normals of
//! what stopped it and from probes around the place where it ends.
use crate::contact::{
    rest_state, CastHit, CastProvider, CastRequest, CollisionConfig, CollisionState, ProbeHits, Vector,
    Velocity, UNIT,
};
use crate::motion::{trunc_div, MICROS_PER_SECOND};
use crate::timers::saturating_sum;
use vstd::prelude::*;

verus! {

/// The gap, in sub-units, kept before what stops a move along an axis.
pub const AXIS_SKIN: i64 = 1;

/// The bound on positions, moves and probe reaches within which this
/// integrator's sums fit in an `i64`.
pub const PLAY_LIMIT: i64 = 0x1000_0000_0000_0000;

/// The casts of the moves of one axis-separated tick and what they found,
/// what the static and ledge probes found, and the displacement the body
/// made.
#[derive(Clone, Copy, Debug, PartialEq, Eq, Structural)]
pub struct KinematicTrace {
    pub x_request: Option<CastRequest>,
    pub x_hit: Option<CastHit>,
    pub y_request: Option<CastRequest>,
    pub y_hit: Option<CastHit>,
    pub hits: ProbeHits,
    pub ledge_left: Option<CastHit>,
    pub ledge_right: Option<CastHit>,
    pub moved: Vector,
}

pub open spec fn abs(v: int) -> int {
    if v < 0 {
        -v
    } else {
        v
    }
}

/// Ground whose normal `n` rises less than the threshold is a slope.
pub open spec fn is_slope(n: Vector, config: CollisionConfig) -> bool {
    n.y < config.slope_min_normal_y
}

/// The state with ground under the body, of normal `n`.
pub open spec fn with_ground(s: CollisionState, n: Vector, config: CollisionConfig) -> CollisionState {
    CollisionState { grounded: true, ground_normal: n, on_slope: s.on_slope || is_slope(n, config), ..s }
}

/// The contacts that the static probes add: ground, walls, ceiling.
pub open spec fn static_state(s: CollisionState, hits: ProbeHits, config: CollisionConfig) -> CollisionState {
    let s1 = match hits.ground {
        Some(h) => with_ground(s, h.normal, config),
        None => s,
    };
    let s2 = match hits.wall_left {
        Some(h) => CollisionState { against_left_wall: true, left_wall_normal: h.normal, ..s1 },
        None => s1,
    };
    let s3 = match hits.wall_right {
        Some(h) => CollisionState { against_right_wall: true, right_wall_normal: h.normal, ..s2 },
        None => s2,
    };
    match hits.ceiling {
        Some(_) => CollisionState { touching_ceiling: true, ..s3 },
        None => s3,
    }
}

/// A wall on a side with no ground beyond it is a ledge.
pub open spec fn ledge_state(s: CollisionState, left: Option<CastHit>, right: Option<CastHit>) -> CollisionState {
    CollisionState {
        ledge_left: s.ledge_left || (s.against_left_wall && left.is_none()),
        ledge_right: s.ledge_right || (s.against_right_wall && right.is_none()),
        ..s
    }
}

/// How far a move of `movement` along an axis goes: to the skin before a
/// hit, never backward and never further than asked; the whole way when
/// the cast found nothing.
pub open spec fn axis_travel(movement: int, hit: Option<CastHit>) -> int {
    match hit {
        Some(h) => {
            let room = if h.distance - AXIS_SKIN > 0 {
                h.distance - AXIS_SKIN
            } else {
                0
            };
            let go = if room < abs(movement) {
                room
            } else {
                abs(movement)
            };
            if movement < 0 {
                -go
            } else {
                go
            }
        },
        None => movement,
    }
}

/// The contacts a horizontal hit adds: a normal pointing right marks a wall
/// on the left, one pointing left a wall on the right.
pub open spec fn horizontal_contact(s: CollisionState, hit: Option<CastHit>) -> CollisionState {
    match hit {
        Some(h) => if h.normal.x > UNIT / 2 {
            CollisionState { against_left_wall: true, left_wall_normal: h.normal, ..s }
        } else if h.normal.x < -UNIT / 2 {
            CollisionState { against_right_wall: true, right_wall_normal: h.normal, ..s }
        } else {
            s
        },
        None => s,
    }
}

/// The contacts a vertical hit adds: a normal pointing up is ground, one
/// pointing down a ceiling.
pub open spec fn vertical_contact(s: CollisionState, hit: Option<CastHit>, config: CollisionConfig) -> CollisionState {
    match hit {
        Some(h) => if h.normal.y > UNIT / 2 {
            with_ground(s, h.normal, config)
        } else if h.normal.y < -UNIT / 2 {
            CollisionState { touching_ceiling: true, ceiling_normal: h.normal, ..s }
        } else {
            s
        },
        None => s,
    }
}

/// The vertical velocity after a vertical hit: no bounce off the ground,
/// no sticking to a ceiling.
pub open spec fn vertical_velocity(y: i64, hit: Option<CastHit>) -> i64 {
    match hit {
        Some(h) => if h.normal.y > UNIT / 2 {
            if y < 0 {
                y
            } else {
                0
            }
        } else if h.normal.y < -UNIT / 2 {
            if y > 0 {
                y
            } else {
                0
            }
        } else {
            y
        },
        None => y,
    }
}

/// The cast of a move of `movement` along one axis from `origin`: toward
/// the move's sign, as far as the move goes.
pub open spec fn axis_request(origin: Vector, movement: int, horizontal: bool, filter: u32) -> CastRequest {
    let step: i64 = if movement < 0 {
        -1i64
    } else {
        1
    };
    CastRequest {
        origin,
        direction: if horizontal {
            Vector { x: step, y: 0 }
        } else {
            Vector { x: 0, y: step }
        },
        max_distance: abs(movement) as i64,
        filter,
    }
}

/// The move a velocity asks for over `dt` microseconds.
pub open spec fn desired_move(v: Velocity, dt: u64) -> (int, int) {
    (trunc_div(v.x * dt, MICROS_PER_SECOND as int), trunc_div(v.y * dt, MICROS_PER_SECOND as int))
}

/// A tick's inputs lie within the bound where its sums fit.
pub open spec fn within_play(p: Vector, v: Velocity, config: CollisionConfig, dt: u64) -> bool {
    &&& abs(p.x as int) <= PLAY_LIMIT
    &&& abs(p.y as int) <= PLAY_LIMIT
    &&& abs(desired_move(v, dt).0) <= PLAY_LIMIT
    &&& abs(desired_move(v, dt).1) <= PLAY_LIMIT
    &&& abs(config.ledge_check_distance as int) <= PLAY_LIMIT
}

/// The state at the start of a tick: contacts cleared, the last ground
/// position kept, and the time off the ground brought up to date.
pub open spec fn tick_start(s: CollisionState, dt: u64) -> CollisionState {
    CollisionState {
        last_ground_position: s.last_ground_position,
        time_since_grounded: if s.grounded {
            0
        } else {
            saturating_sum(s.time_since_grounded, dt)
        },
        ..rest_state()
    }
}

/// The state, position and velocity at the end of an axis-separated tick
/// whose casts found what `t` records.
pub open spec fn kinematic_outcome(
    s: CollisionState,
    p: Vector,
    v: Velocity,
    config: CollisionConfig,
    dt: u64,
    t: KinematicTrace,
) -> (CollisionState, Vector, Velocity) {
    let s0 = tick_start(s, dt);
    let (dx, dy) = desired_move(v, dt);
    if dx == 0 && dy == 0 {
        (ledge_state(static_state(s0, t.hits, config), t.ledge_left, t.ledge_right), p, v)
    } else {
        let move_x = abs(dx) > 1;
        let move_y = abs(dy) > 1;
        let mx = if move_x { axis_travel(dx, t.x_hit) } else { 0 };
        let sx = if move_x { horizontal_contact(s0, t.x_hit) } else { s0 };
        let vx = if move_x && t.x_hit.is_some() { 0 } else { v.x };
        let my = if move_y { axis_travel(dy, t.y_hit) } else { 0 };
        let sy = if move_y { vertical_contact(sx, t.y_hit, config) } else { sx };
        let vy = if move_y { vertical_velocity(v.y, t.y_hit) } else { v.y };
        let end = Vector { x: (p.x + mx) as i64, y: (p.y + my) as i64 };
        let sf = ledge_state(static_state(sy, t.hits, config), t.ledge_left, t.ledge_right);
        let sg = if sf.grounded {
            CollisionState { last_ground_position: end, time_since_grounded: 0, ..sf }
        } else {
            sf
        };
        (sg, end, Velocity { x: vx, y: vy })
    }
}

/// The four static probes from `position`: down, left, right and up.
pub fn static_probes(position: Vector, config: &CollisionConfig) -> (r: (CastRequest, CastRequest, CastRequest, CastRequest))
    ensures
        r.0 == (CastRequest { origin: position, direction: Vector { x: 0, y: -1i64 }, max_distance: config.ground_check_distance, filter: config.collision_filter }),
        r.1 == (CastRequest { origin: position, direction: Vector { x: -1i64, y: 0 }, max_distance: config.wall_check_distance, filter: config.collision_filter }),
        r.2 == (CastRequest { origin: position, direction: Vector { x: 1, y: 0 }, max_distance: config.wall_check_distance, filter: config.collision_filter }),
        r.3 == (CastRequest { origin: position, direction: Vector { x: 0, y: 1 }, max_distance: config.ceiling_check_distance, filter: config.collision_filter }),
{
    (
        CastRequest { origin: position, direction: Vector { x: 0, y: -1 }, max_distance: config.ground_check_distance, filter: config.collision_filter },
        CastRequest { origin: position, direction: Vector { x: -1, y: 0 }, max_distance: config.wall_check_distance, filter: config.collision_filter },
        CastRequest { origin: position, direction: Vector { x: 1, y: 0 }, max_distance: config.wall_check_distance, filter: config.collision_filter },
        CastRequest { origin: position, direction: Vector { x: 0, y: 1 }, max_distance: config.ceiling_check_distance, filter: config.collision_filter },
    )
}

/// The contacts that the static probes found, added to `state`.
pub fn apply_static_hits(state: &mut CollisionState, hits: &ProbeHits, config: &CollisionConfig)
    ensures
        *final(state) == static_state(*old(state), *hits, *config),
{
    match hits.ground {
        Some(h) => {
            state.grounded = true;
            state.ground_normal = h.normal;
            if h.normal.y < config.slope_min_normal_y {
                state.on_slope = true;
            }
        },
        None => {},
    }
    match hits.wall_left {
        Some(h) => {
            state.against_left_wall = true;
            state.left_wall_normal = h.normal;
        },
        None => {},
    }
    match hits.wall_right {
        Some(h) => {
            state.against_right_wall = true;
            state.right_wall_normal = h.normal;
        },
        None => {},
    }
    if hits.ceiling.is_some() {
        state.touching_ceiling = true;
    }
}

/// The probe for ground beyond a wall: straight down from a point the
/// ledge distance to that side.
pub fn ledge_probe(position: Vector, config: &CollisionConfig, left: bool) -> (r: CastRequest)
    requires
        abs(position.x as int) <= 2 * PLAY_LIMIT,
        abs(config.ledge_check_distance as int) <= PLAY_LIMIT,
    ensures
        r == (CastRequest {
            origin: Vector {
                x: (if left {
                    position.x - config.ledge_check_distance
                } else {
                    position.x + config.ledge_check_distance
                }) as i64,
                y: position.y,
            },
            direction: Vector { x: 0, y: -1i64 },
            max_distance: config.ground_check_distance,
            filter: config.collision_filter,
        }),
{
    let x = if left {
        position.x - config.ledge_check_distance
    } else {
        position.x + config.ledge_check_distance
    };
    CastRequest {
        origin: Vector { x, y: position.y },
        direction: Vector { x: 0, y: -1 },
        max_distance: config.ground_check_distance,
        filter: config.collision_filter,
    }
}

/// The ledges that the ledge probes found, added to `state`.
pub fn apply_ledge_hits(state: &mut CollisionState, left: &Option<CastHit>, right: &Option<CastHit>)
    ensures
        *final(state) == ledge_state(*old(state), *left, *right),
{
    if state.against_left_wall && left.is_none() {
        state.ledge_left = true;
    }
    if state.against_right_wall && right.is_none() {
        state.ledge_right = true;
    }
}

/// The static probes and then, beside each wall touched, the ledge probe;
/// the contacts they find are added to `state`.
pub fn update_static_collision_state<C: CastProvider>(
    caster: &C,
    position: Vector,
    state: &mut CollisionState,
    config: &CollisionConfig,
) -> (r: (ProbeHits, Option<CastHit>, Option<CastHit>))
    requires
        abs(position.x as int) <= 2 * PLAY_LIMIT,
        abs(config.ledge_check_distance as int) <= PLAY_LIMIT,
    ensures
        *final(state) == ledge_state(static_state(*old(state), r.0, *config), r.1, r.2),
        r.1.is_some() ==> static_state(*old(state), r.0, *config).against_left_wall,
        r.2.is_some() ==> static_state(*old(state), r.0, *config).against_right_wall,
{
    let probes = static_probes(position, config);
    let hits = ProbeHits {
        ground: caster.cast(&probes.0),
        wall_left: caster.cast(&probes.1),
        wall_right: caster.cast(&probes.2),
        ceiling: caster.cast(&probes.3),
    };
    apply_static_hits(state, &hits, config);
    let left = if state.against_left_wall {
        caster.cast(&ledge_probe(position, config, true))
    } else {
        None
    };
    let right = if state.against_right_wall {
        caster.cast(&ledge_probe(position, config, false))
    } else {
        None
    };
    apply_ledge_hits(state, &left, &right);
    (hits, left, right)
}

/// The contacts of a body that does not move: those the static and ledge
/// probes find, from a cleared state.
pub fn update_collision_state_only<C: CastProvider>(
    caster: &C,
    position: Vector,
    state: &mut CollisionState,
    config: &CollisionConfig,
) -> (r: (ProbeHits, Option<CastHit>, Option<CastHit>))
    requires
        abs(position.x as int) <= 2 * PLAY_LIMIT,
        abs(config.ledge_check_distance as int) <= PLAY_LIMIT,
    ensures
        *final(state) == ledge_state(static_state(rest_state(), r.0, *config), r.1, r.2),
        r.1.is_some() ==> static_state(rest_state(), r.0, *config).against_left_wall,
        r.2.is_some() ==> static_state(rest_state(), r.0, *config).against_right_wall,
{
    *state = CollisionState::new();
    update_static_collision_state(caster, position, state, config)
}

/// The travel of a move of `movement` along an axis that found `hit`.
pub fn axis_distance(movement: i64, hit: &Option<CastHit>) -> (r: i64)
    requires
        abs(movement as int) <= PLAY_LIMIT,
    ensures
        r == axis_travel(movement as int, *hit),
        abs(r as int) <= abs(movement as int),
{
    match hit {
        Some(h) => {
            let room: i64 = if h.distance > AXIS_SKIN {
                h.distance - AXIS_SKIN
            } else {
                0
            };
            let want: i64 = if movement < 0 {
                -movement
            } else {
                movement
            };
            let go: i64 = if room < want {
                room
            } else {
                want
            };
            if movement < 0 {
                -go
            } else {
                go
            }
        },
        None => movement,
    }
}

/// A move along x: the contacts and velocity that its hit implies, and the
/// distance travelled.
pub fn apply_horizontal_hit(state: &mut CollisionState, velocity: &mut Velocity, hit: &Option<CastHit>)
    ensures
        *final(state) == horizontal_contact(*old(state), *hit),
        final(velocity).x == (if hit.is_some() {
            0
        } else {
            old(velocity).x
        }),
        final(velocity).y == old(velocity).y,
{
    match hit {
        Some(h) => {
            if h.normal.x > UNIT / 2 {
                state.against_left_wall = true;
                state.left_wall_normal = h.normal;
            } else if h.normal.x < -UNIT / 2 {
                state.against_right_wall = true;
                state.right_wall_normal = h.normal;
            }
            velocity.x = 0;
        },
        None => {},
    }
}

/// A move along y: the contacts and velocity that its hit implies.
pub fn apply_vertical_hit(
    state: &mut CollisionState,
    velocity: &mut Velocity,
    hit: &Option<CastHit>,
    config: &CollisionConfig,
)
    ensures
        *final(state) == vertical_contact(*old(state), *hit, *config),
        final(velocity).y == vertical_velocity(old(velocity).y, *hit),
        final(velocity).x == old(velocity).x,
{
    match hit {
        Some(h) => {
            if h.normal.y > UNIT / 2 {
                state.grounded = true;
                state.ground_normal = h.normal;
                if h.normal.y < config.slope_min_normal_y {
                    state.on_slope = true;
                }
                if velocity.y > 0 {
                    velocity.y = 0;
                }
            } else if h.normal.y < -UNIT / 2 {
                state.touching_ceiling = true;
                state.ceiling_normal = h.normal;
                if velocity.y < 0 {
                    velocity.y = 0;
                }
            }
        },
        None => {},
    }
}

/// The move a velocity asks for over `dt` microseconds.
fn desired_translation(velocity: &Velocity, dt: u64) -> (r: (i64, i64))
    requires
        abs(desired_move(*velocity, dt).0) <= PLAY_LIMIT,
        abs(desired_move(*velocity, dt).1) <= PLAY_LIMIT,
    ensures
        (r.0 as int, r.1 as int) == desired_move(*velocity, dt),
{
    assert(-0x8000_0000_0000_0000 * 0x1_0000_0000_0000_0000 <= velocity.x * dt <= 0x8000_0000_0000_0000 * 0x1_0000_0000_0000_0000) by (nonlinear_arith)
        requires -0x8000_0000_0000_0000 <= velocity.x <= 0x8000_0000_0000_0000, 0 <= dt <= 0x1_0000_0000_0000_0000;
    assert(-0x8000_0000_0000_0000 * 0x1_0000_0000_0000_0000 <= velocity.y * dt <= 0x8000_0000_0000_0000 * 0x1_0000_0000_0000_0000) by (nonlinear_arith)
        requires -0x8000_0000_0000_0000 <= velocity.y <= 0x8000_0000_0000_0000, 0 <= dt <= 0x1_0000_0000_0000_0000;
    let dx: i128 = velocity.x as i128 * dt as i128 / MICROS_PER_SECOND as i128;
    let dy: i128 = velocity.y as i128 * dt as i128 / MICROS_PER_SECOND as i128;
    (dx as i64, dy as i64)
}

/// The casts of the moves of an axis-separated tick whose x cast found
/// `x_hit`: along x from where the body stands, then along y from where the
/// x move ended; none along an axis asked to move by at most one sub-unit,
/// and none at all when asked to move by nothing.
pub open spec fn kinematic_requests(
    p: Vector,
    v: Velocity,
    config: CollisionConfig,
    dt: u64,
    x_hit: Option<CastHit>,
) -> (Option<CastRequest>, Option<CastRequest>) {
    let (dx, dy) = desired_move(v, dt);
    if dx == 0 && dy == 0 {
        (None, None)
    } else {
        let mx = if abs(dx) > 1 { axis_travel(dx, x_hit) } else { 0 };
        (
            if abs(dx) > 1 { Some(axis_request(p, dx, true, config.collision_filter)) } else { None },
            if abs(dy) > 1 {
                Some(axis_request(Vector { x: (p.x + mx) as i64, y: p.y }, dy, false, config.collision_filter))
            } else {
                None
            },
        )
    }
}

/// The cast of a move of `movement` along one axis from `origin`.
pub fn axis_cast_request(origin: Vector, movement: i64, horizontal: bool, filter: u32) -> (r: CastRequest)
    requires
        abs(movement as int) <= PLAY_LIMIT,
    ensures
        r == axis_request(origin, movement as int, horizontal, filter),
{
    let step: i64 = if movement < 0 {
        -1
    } else {
        1
    };
    CastRequest {
        origin,
        direction: if horizontal {
            Vector { x: step, y: 0 }
        } else {
            Vector { x: 0, y: step }
        },
        max_distance: if movement < 0 {
            -movement
        } else {
            movement
        },
        filter,
    }
}

/// One axis-separated tick: the time off the ground advances, the contacts
/// are cleared, the body moves along x and then along y, each move stopped
/// by what its cast finds, and the static and ledge probes from where it
/// ends give the rest of its contacts. A body asked to move by nothing only
/// probes.
#[verifier::rlimit(60)]
pub fn kinematic_movement_with_collision_detection<C: CastProvider>(
    caster: &C,
    position: &mut Vector,
    velocity: &mut Velocity,
    state: &mut CollisionState,
    config: &CollisionConfig,
    dt: u64,
) -> (r: KinematicTrace)
    requires
        within_play(*old(position), *old(velocity), *config, dt),
    ensures
        (*final(state), *final(position), *final(velocity)) == kinematic_outcome(
            *old(state),
            *old(position),
            *old(velocity),
            *config,
            dt,
            r,
        ),
        (r.x_request, r.y_request) == kinematic_requests(*old(position), *old(velocity), *config, dt, r.x_hit),
        r.x_hit.is_some() ==> r.x_request.is_some(),
        r.y_hit.is_some() ==> r.y_request.is_some(),
        r.ledge_left.is_some() ==> final(state).against_left_wall,
        r.ledge_right.is_some() ==> final(state).against_right_wall,
        r.moved.x == final(position).x - old(position).x,
        r.moved.y == final(position).y - old(position).y,
{
    let time_since_grounded = if state.grounded {
        0
    } else {
        state.time_since_grounded.saturating_add(dt)
    };
    let mut next = CollisionState::new();
    next.last_ground_position = state.last_ground_position;
    next.time_since_grounded = time_since_grounded;
    let start = *position;
    let (dx, dy) = desired_translation(velocity, dt);
    if dx == 0 && dy == 0 {
        let (hits, ledge_left, ledge_right) = update_static_collision_state(caster, *position, &mut next, config);
        *state = next;
        return KinematicTrace {
            x_request: None,
            x_hit: None,
            y_request: None,
            y_hit: None,
            hits,
            ledge_left,
            ledge_right,
            moved: Vector { x: 0, y: 0 },
        };
    }
    let mut x_request: Option<CastRequest> = None;
    let mut x_hit: Option<CastHit> = None;
    let mut y_request: Option<CastRequest> = None;
    let mut y_hit: Option<CastHit> = None;
    if dx > 1 || dx < -1 {
        let request = axis_cast_request(*position, dx, true, config.collision_filter);
        x_request = Some(request);
        x_hit = caster.cast(&request);
        let mx = axis_distance(dx, &x_hit);
        position.x = position.x + mx;
        apply_horizontal_hit(&mut next, velocity, &x_hit);
    }
    if dy > 1 || dy < -1 {
        let request = axis_cast_request(*position, dy, false, config.collision_filter);
        y_request = Some(request);
        y_hit = caster.cast(&request);
        let my = axis_distance(dy, &y_hit);
        position.y = position.y + my;
        apply_vertical_hit(&mut next, velocity, &y_hit, config);
    }
    let (hits, ledge_left, ledge_right) = update_static_collision_state(caster, *position, &mut next, config);
    if next.grounded {
        next.last_ground_position = *position;
        next.time_since_grounded = 0;
    }
    *state = next;
    KinematicTrace {
        x_request,
        x_hit,
        y_request,
        y_hit,
        hits,
        ledge_left,
        ledge_right,
        moved: Vector { x: position.x - start.x, y: position.y - start.y },
    }
}

} // verus!
