//! The movement integrator: one swept cast along the velocity per tick, and
//! the distance the body may travel before what the cast found.
use crate::contact::{
    contact_probes, contact_state, contact_velocity, probes_at, resolve_velocity, resolved_velocity,
    update_contacts, CastHit, CastProvider, CastRequest, CollisionConfig, CollisionState, ContactProbes,
    ProbeHits, Vector, Velocity, WALL_PROBE_LIFT,
};
use crate::timers::Timer;
use vstd::prelude::*;

verus! {

/// Microseconds in a second.
pub const MICROS_PER_SECOND: u64 = 1000000;

/// The gap, in sub-units, kept between a moving body and the surface that
/// stops it.
pub const SKIN: i64 = 100;

/// `r` is the square root of `n`, rounded down.
pub open spec fn is_floor_sqrt(r: int, n: int) -> bool {
    0 <= r && r * r <= n < (r + 1) * (r + 1)
}

/// The square root of `n`, rounded down.
pub open spec fn floor_sqrt(n: int) -> int {
    choose|r: int| is_floor_sqrt(r, n)
}

/// `a / b` rounded toward zero.
pub open spec fn trunc_div(a: int, b: int) -> int {
    if a >= 0 {
        a / b
    } else {
        -((-a) / b)
    }
}

/// The length of a velocity, rounded down.
pub open spec fn speed_of(v: Velocity) -> int {
    floor_sqrt(v.x * v.x + v.y * v.y)
}

/// How far a body at speed `speed` goes in `dt` microseconds, rounded down.
pub open spec fn target_of(speed: int, dt: int) -> int {
    speed * dt / MICROS_PER_SECOND as int
}

/// How far the body travels toward a target `target` away, given what the
/// cast toward it found: up to the skin before a hit, never backward.
pub open spec fn travel_rule(target: i64, hit: Option<CastHit>) -> int {
    match hit {
        Some(h) => if h.distance - SKIN > 0 {
            h.distance - SKIN
        } else {
            0
        },
        None => target as int,
    }
}

/// The displacement of `distance` along velocity `v`, whose length is `speed`.
pub open spec fn displacement_of(v: Velocity, speed: int, distance: int) -> Vector {
    Vector { x: trunc_div(v.x * distance, speed) as i64, y: trunc_div(v.y * distance, speed) as i64 }
}

/// A move that the integrator has planned: the cast to make, the body's
/// speed, and the distance it would go unobstructed.
#[derive(Clone, Copy, Debug, PartialEq, Eq, Structural)]
pub struct PlannedMove {
    pub cast: CastRequest,
    pub speed: u64,
    pub target: i64,
}

/// There is one square root rounded down.
proof fn lemma_floor_sqrt_unique(a: int, b: int, n: int)
    requires
        is_floor_sqrt(a, n),
        is_floor_sqrt(b, n),
    ensures
        a == b,
{
    if a < b {
        assert((a + 1) * (a + 1) <= b * b) by (nonlinear_arith)
            requires 0 <= a, a + 1 <= b;
    } else if b < a {
        assert((b + 1) * (b + 1) <= a * a) by (nonlinear_arith)
            requires 0 <= b, b + 1 <= a;
    }
}

/// The square root of `n`, rounded down.
pub fn isqrt(n: u128) -> (r: u64)
    ensures
        is_floor_sqrt(r as int, n as int),
        r as int == floor_sqrt(n as int),
{
    let mut lo: u128 = 0;
    let mut hi: u128 = 0x1_0000_0000_0000_0000;
    assert(n < hi * hi) by (nonlinear_arith)
        requires hi == 0x1_0000_0000_0000_0000, n <= u128::MAX;
    while hi - lo > 1
        invariant
            lo < hi <= 0x1_0000_0000_0000_0000,
            lo * lo <= n,
            n < hi * hi,
        decreases hi - lo,
    {
        let mid: u128 = lo + (hi - lo) / 2;
        assert(mid * mid < 0x1_0000_0000_0000_0000 * 0x1_0000_0000_0000_0000) by (nonlinear_arith)
            requires mid < 0x1_0000_0000_0000_0000;
        if mid * mid <= n {
            lo = mid;
        } else {
            hi = mid;
        }
    }
    proof {
        assert(hi == lo + 1);
        assert(is_floor_sqrt(lo as int, n as int));
        lemma_floor_sqrt_unique(lo as int, floor_sqrt(n as int), n as int);
    }
    lo as u64
}

/// The length of `v`, rounded down.
pub fn speed(v: &Velocity) -> (r: u64)
    ensures
        r == speed_of(*v),
        is_floor_sqrt(r as int, v.x * v.x + v.y * v.y),
{
    let x = v.x as i128;
    let y = v.y as i128;
    assert(0 <= x * x <= 0x4000_0000_0000_0000_0000_0000_0000_0000) by (nonlinear_arith)
        requires -0x8000_0000_0000_0000 <= x <= 0x8000_0000_0000_0000;
    assert(0 <= y * y <= 0x4000_0000_0000_0000_0000_0000_0000_0000) by (nonlinear_arith)
        requires -0x8000_0000_0000_0000 <= y <= 0x8000_0000_0000_0000;
    let n: u128 = (x * x) as u128 + (y * y) as u128;
    isqrt(n)
}

/// The distance covered at `speed` in `dt` microseconds, if it is not zero
/// and fits in an `i64`; none otherwise, and the body does not move.
pub fn target_distance(speed: u64, dt: u64) -> (r: Option<i64>)
    ensures
        r.is_none() <==> target_of(speed as int, dt as int) == 0 || target_of(speed as int, dt as int) > i64::MAX,
        r.is_some() ==> r.unwrap() == target_of(speed as int, dt as int),
{
    assert(speed as int * dt as int <= u64::MAX as int * u64::MAX as int) by (nonlinear_arith)
        requires speed <= u64::MAX, dt <= u64::MAX;
    let d: u128 = speed as u128 * dt as u128 / MICROS_PER_SECOND as u128;
    if d == 0 || d > i64::MAX as u128 {
        None
    } else {
        Some(d as i64)
    }
}

/// How far the body goes: the whole target when the cast found nothing,
/// else up to the skin before the hit, and never backward.
pub fn travel_distance(target: i64, hit: &Option<CastHit>) -> (r: i64)
    ensures
        r == travel_rule(target, *hit),
{
    match hit {
        Some(h) => if h.distance > SKIN {
            h.distance - SKIN
        } else {
            0
        },
        None => target,
    }
}

/// A speed no smaller than either component of the velocity.
proof fn lemma_component_below_speed(a: int, b: int, s: int)
    requires
        is_floor_sqrt(s, a * a + b * b),
    ensures
        -s <= a <= s,
{
    assert(a * a <= a * a + b * b) by (nonlinear_arith);
    if a > s {
        assert((s + 1) * (s + 1) <= a * a) by (nonlinear_arith)
            requires 0 <= s, s + 1 <= a;
    }
    if a < -s {
        assert((s + 1) * (s + 1) <= a * a) by (nonlinear_arith)
            requires 0 <= s, s + 1 <= -a;
    }
}

/// `|c| * distance / speed` is at most `distance` when `|c|` is at most `speed`.
proof fn lemma_scaled_component(c: int, speed: int, distance: int)
    requires
        -speed <= c <= speed,
        speed > 0,
        distance >= 0,
    ensures
        -distance <= trunc_div(c * distance, speed) <= distance,
{
    if c >= 0 {
        assert(c * distance <= speed * distance) by (nonlinear_arith)
            requires 0 <= c <= speed, distance >= 0;
        assert(0 <= c * distance) by (nonlinear_arith)
            requires 0 <= c, distance >= 0;
        vstd::arithmetic::div_mod::lemma_div_is_ordered(c * distance, speed * distance, speed);
        vstd::arithmetic::div_mod::lemma_div_multiples_vanish(distance, speed);
        vstd::arithmetic::div_mod::lemma_div_pos_is_pos(c * distance, speed);
    } else {
        assert((-c) * distance <= speed * distance) by (nonlinear_arith)
            requires 0 <= -c <= speed, distance >= 0;
        assert(0 <= (-c) * distance) by (nonlinear_arith)
            requires 0 <= -c, distance >= 0;
        assert(-(c * distance) == (-c) * distance) by (nonlinear_arith);
        vstd::arithmetic::div_mod::lemma_div_is_ordered((-c) * distance, speed * distance, speed);
        vstd::arithmetic::div_mod::lemma_div_multiples_vanish(distance, speed);
        vstd::arithmetic::div_mod::lemma_div_pos_is_pos((-c) * distance, speed);
        if c * distance >= 0 {
            assert(c * distance == 0);
        }
    }
}

/// The displacement of `distance` along `velocity`, whose length is `speed`;
/// neither component goes further than `distance`.
pub fn displacement(velocity: &Velocity, speed: u64, distance: i64) -> (r: Vector)
    requires
        speed > 0,
        is_floor_sqrt(speed as int, velocity.x * velocity.x + velocity.y * velocity.y),
        distance >= 0,
    ensures
        r == displacement_of(*velocity, speed as int, distance as int),
        -distance <= r.x <= distance,
        -distance <= r.y <= distance,
{
    proof {
        lemma_component_below_speed(velocity.x as int, velocity.y as int, speed as int);
        assert(velocity.y * velocity.y + velocity.x * velocity.x == velocity.x * velocity.x + velocity.y * velocity.y);
        lemma_component_below_speed(velocity.y as int, velocity.x as int, speed as int);
        lemma_scaled_component(velocity.x as int, speed as int, distance as int);
        lemma_scaled_component(velocity.y as int, speed as int, distance as int);
        assert(-0x8000_0000_0000_0000 * 0x8000_0000_0000_0000 <= velocity.x * distance <= 0x8000_0000_0000_0000 * 0x8000_0000_0000_0000) by (nonlinear_arith)
            requires -0x8000_0000_0000_0000 <= velocity.x <= 0x8000_0000_0000_0000, 0 <= distance <= 0x8000_0000_0000_0000;
        assert(-0x8000_0000_0000_0000 * 0x8000_0000_0000_0000 <= velocity.y * distance <= 0x8000_0000_0000_0000 * 0x8000_0000_0000_0000) by (nonlinear_arith)
            requires -0x8000_0000_0000_0000 <= velocity.y <= 0x8000_0000_0000_0000, 0 <= distance <= 0x8000_0000_0000_0000;
    }
    let dx: i128 = velocity.x as i128 * distance as i128 / speed as i128;
    let dy: i128 = velocity.y as i128 * distance as i128 / speed as i128;
    Vector { x: dx as i64, y: dy as i64 }
}

/// The cast of a tick's movement, from `anchor` along `velocity` for the
/// distance it covers in `dt`; none where that distance is zero or does not
/// fit, and then the body stays where it is.
pub fn plan_movement(anchor: Vector, velocity: &Velocity, dt: u64, filter: u32) -> (r: Option<PlannedMove>)
    ensures
        r.is_none() <==> target_of(speed_of(*velocity), dt as int) == 0 || target_of(speed_of(*velocity), dt as int) > i64::MAX,
        r.is_some() ==> r.unwrap() == (PlannedMove {
            cast: CastRequest { origin: anchor, direction: Vector { x: velocity.x, y: velocity.y }, max_distance: r.unwrap().target, filter },
            speed: r.unwrap().speed,
            target: r.unwrap().target,
        }),
        r.is_some() ==> r.unwrap().speed == speed_of(*velocity) && r.unwrap().target == target_of(speed_of(*velocity), dt as int),
        r.is_some() ==> r.unwrap().speed > 0 && r.unwrap().target > 0,
        r.is_some() ==> is_floor_sqrt(r.unwrap().speed as int, velocity.x * velocity.x + velocity.y * velocity.y),
{
    let s = speed(velocity);
    match target_distance(s, dt) {
        None => None,
        Some(target) => {
            proof {
                if s == 0 {
                    assert(target_of(0, dt as int) == 0);
                }
            }
            Some(PlannedMove {
                cast: CastRequest { origin: anchor, direction: Vector { x: velocity.x, y: velocity.y }, max_distance: target, filter },
                speed: s,
                target,
            })
        },
    }
}

/// The velocity rules that read the contact state, then the plan of the
/// tick's movement with the velocity they leave.
pub fn apply_velocity(
    state: &CollisionState,
    config: &CollisionConfig,
    velocity: &mut Velocity,
    anchor: Vector,
    dt: u64,
) -> (r: Option<PlannedMove>)
    ensures
        *final(velocity) == resolved_velocity(*old(velocity), *state),
        r.is_none() <==> target_of(speed_of(*final(velocity)), dt as int) == 0
            || target_of(speed_of(*final(velocity)), dt as int) > i64::MAX,
        r.is_some() ==> r.unwrap().cast == (CastRequest {
            origin: anchor,
            direction: Vector { x: final(velocity).x, y: final(velocity).y },
            max_distance: r.unwrap().target,
            filter: config.collision_filter,
        }),
        r.is_some() ==> r.unwrap().speed == speed_of(*final(velocity)) && r.unwrap().target == target_of(
            speed_of(*final(velocity)),
            dt as int,
        ),
        r.is_some() ==> r.unwrap().speed > 0 && r.unwrap().target > 0,
        r.is_some() ==> is_floor_sqrt(
            r.unwrap().speed as int,
            final(velocity).x * final(velocity).x + final(velocity).y * final(velocity).y,
        ),
{
    resolve_velocity(state, velocity);
    plan_movement(anchor, velocity, dt, config.collision_filter)
}

/// The displacement of a planned move, given what its cast found: along the
/// velocity, by the travel distance.
pub fn finish_movement(plan: &PlannedMove, velocity: &Velocity, hit: &Option<CastHit>) -> (r: Vector)
    requires
        plan.speed > 0,
        plan.target >= 0,
        is_floor_sqrt(plan.speed as int, velocity.x * velocity.x + velocity.y * velocity.y),
    ensures
        r == displacement_of(*velocity, plan.speed as int, travel_rule(plan.target, *hit)),
        -travel_rule(plan.target, *hit) <= r.x <= travel_rule(plan.target, *hit),
        -travel_rule(plan.target, *hit) <= r.y <= travel_rule(plan.target, *hit),
{
    let d = travel_distance(plan.target, hit);
    displacement(velocity, plan.speed, d)
}


/// Free flight for one tick: the displacement at `velocity` over `dt`
/// microseconds, each component rounded toward zero.
pub fn free_displacement(velocity: &Velocity, dt: u64) -> (r: Vector)
    requires
        i64::MIN <= trunc_div(velocity.x * dt, MICROS_PER_SECOND as int) <= i64::MAX,
        i64::MIN <= trunc_div(velocity.y * dt, MICROS_PER_SECOND as int) <= i64::MAX,
    ensures
        r.x == trunc_div(velocity.x * dt, MICROS_PER_SECOND as int),
        r.y == trunc_div(velocity.y * dt, MICROS_PER_SECOND as int),
{
    assert(-0x8000_0000_0000_0000 * 0x1_0000_0000_0000_0000 <= velocity.x * dt <= 0x8000_0000_0000_0000 * 0x1_0000_0000_0000_0000) by (nonlinear_arith)
        requires -0x8000_0000_0000_0000 <= velocity.x <= 0x8000_0000_0000_0000, 0 <= dt <= 0x1_0000_0000_0000_0000;
    assert(-0x8000_0000_0000_0000 * 0x1_0000_0000_0000_0000 <= velocity.y * dt <= 0x8000_0000_0000_0000 * 0x1_0000_0000_0000_0000) by (nonlinear_arith)
        requires -0x8000_0000_0000_0000 <= velocity.y <= 0x8000_0000_0000_0000, 0 <= dt <= 0x1_0000_0000_0000_0000;
    let dx: i128 = velocity.x as i128 * dt as i128 / MICROS_PER_SECOND as i128;
    let dy: i128 = velocity.y as i128 * dt as i128 / MICROS_PER_SECOND as i128;
    Vector { x: dx as i64, y: dy as i64 }
}

/// What one tick of a body asked and found and did: the contact casts and
/// their hits, the movement cast and its hit, and the displacement to apply.
#[derive(Clone, Copy, Debug, PartialEq, Eq, Structural)]
pub struct TickReport {
    pub probes: ContactProbes,
    pub hits: ProbeHits,
    pub movement_cast: Option<CastRequest>,
    pub movement_hit: Option<CastHit>,
    pub displacement: Vector,
}

/// The displacement of a tick at velocity `v` over `dt` microseconds when
/// the movement cast found `hit`: none when the target distance is zero or
/// does not fit, else along `v` by the travel distance.
pub open spec fn tick_displacement(v: Velocity, dt: u64, hit: Option<CastHit>) -> Vector {
    let target = target_of(speed_of(v), dt as int);
    if target == 0 || target > i64::MAX {
        Vector { x: 0, y: 0 }
    } else {
        displacement_of(v, speed_of(v), travel_rule(target as i64, hit))
    }
}

/// The movement cast of a tick from `anchor` at velocity `v` over `dt`
/// microseconds: along `v`, as far as it would go unobstructed; none when
/// that distance is zero or does not fit.
pub open spec fn movement_cast_of(anchor: Vector, v: Velocity, dt: u64, filter: u32) -> Option<CastRequest> {
    let target = target_of(speed_of(v), dt as int);
    if target == 0 || target > i64::MAX {
        None
    } else {
        Some(CastRequest { origin: anchor, direction: Vector { x: v.x, y: v.y }, max_distance: target as i64, filter })
    }
}

/// One tick of a body: the four contact casts and the state machine over
/// what they found, then one cast along the resulting velocity and the
/// displacement it allows. The casts go to `caster`.
pub fn body_tick<C: CastProvider>(
    caster: &C,
    anchor: Vector,
    config: &CollisionConfig,
    state: &mut CollisionState,
    velocity: &mut Velocity,
    immunity: &mut Option<Timer>,
    dt: u64,
) -> (r: TickReport)
    requires
        anchor.y + WALL_PROBE_LIFT <= i64::MAX,
    ensures
        *final(state) == contact_state(*old(state), r.hits, dt),
        *final(velocity) == contact_velocity(*old(velocity), r.hits),
        final(immunity).is_some() == old(immunity).is_some(),
        r.hits.ceiling.is_some() && old(immunity).is_some() ==> final(immunity).unwrap().is_finished(),
        r.hits.ceiling.is_none() ==> *final(immunity) == *old(immunity),
        r.probes == probes_at(anchor, *config),
        r.movement_cast == movement_cast_of(anchor, *final(velocity), dt, config.collision_filter),
        r.movement_cast.is_none() ==> r.movement_hit.is_none(),
        r.displacement == tick_displacement(*final(velocity), dt, r.movement_hit),
{
    let probes = contact_probes(anchor, config);
    let hits = ProbeHits {
        ground: caster.cast(&probes.ground),
        ceiling: caster.cast(&probes.ceiling),
        wall_left: caster.cast(&probes.wall_left),
        wall_right: caster.cast(&probes.wall_right),
    };
    update_contacts(state, velocity, immunity, &hits, dt);
    match plan_movement(anchor, velocity, dt, config.collision_filter) {
        None => TickReport {
            probes,
            hits,
            movement_cast: None,
            movement_hit: None,
            displacement: Vector { x: 0, y: 0 },
        },
        Some(plan) => {
            let movement_hit = caster.cast(&plan.cast);
            let displacement = finish_movement(&plan, velocity, &movement_hit);
            TickReport { probes, hits, movement_cast: Some(plan.cast), movement_hit, displacement }
        },
    }
}

/// A cast that finds an obstruction `d` away stops the body at `d` less the
/// skin, or where it stands if that is negative; it never goes past `d`.
pub proof fn lemma_swept_stop(target: i64, hit: CastHit)
    requires
        hit.distance >= 0,
    ensures
        travel_rule(target, Some(hit)) == if hit.distance - SKIN > 0 {
            hit.distance - SKIN
        } else {
            0
        },
        0 <= travel_rule(target, Some(hit)) <= hit.distance,
{
}

} // verus!
