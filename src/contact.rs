//! Contact state of a kinematic body: which surfaces its probes touch, and
//! the velocity rules that those contacts impose each tick.
//!
//! Lengths are in sub-units, `UNIT` of them to a world unit; velocities in
//! sub-units per second; durations in microseconds.
use crate::timers::{saturating_sum, Timer};
use vstd::prelude::*;

verus! {

/// Sub-units in one world unit.
pub const UNIT: i64 = 1000;

/// How far above the anchor the wall probes start, so that floor tiles at
/// the body's feet do not read as walls.
pub const WALL_PROBE_LIFT: i64 = 1000;

/// The upward component of a normal `UNIT` long on a 45 degree slope.
pub const COS_45_DEGREES: i64 = 707;

/// The upward component of a normal `UNIT` long on a 30 degree slope.
pub const COS_30_DEGREES: i64 = 866;

/// A point, direction or displacement in the world.
#[derive(Clone, Copy, Debug, PartialEq, Eq, Structural)]
pub struct Vector {
    pub x: i64,
    pub y: i64,
}

/// A body's velocity, in sub-units per second.
#[derive(Clone, Copy, Debug, PartialEq, Eq, Structural)]
pub struct Velocity {
    pub x: i64,
    pub y: i64,
}

/// The nearest blocking surface found by a cast: how far along the cast it
/// lies, and its outward normal.
#[derive(Clone, Copy, Debug, PartialEq, Eq, Structural)]
pub struct CastHit {
    pub distance: i64,
    pub normal: Vector,
}

/// A cast to run: from `origin` along `direction`, up to `max_distance`,
/// seeing the collider layers in `filter`.
#[derive(Clone, Copy, Debug, PartialEq, Eq, Structural)]
pub struct CastRequest {
    pub origin: Vector,
    pub direction: Vector,
    pub max_distance: i64,
    pub filter: u32,
}

/// The spatial query that a body's casts go to. For a request it gives the
/// nearest blocking surface along the direction within the distance, among
/// the colliders of the filter's layers and leaving out the casting body,
/// or none.
pub trait CastProvider {
    fn cast(&self, request: &CastRequest) -> Option<CastHit>;
}

/// Per-body probe settings: how far each probe reaches, how far to the side
/// a ledge is looked for, the upward component (of a normal `UNIT` long)
/// under which ground counts as a slope, the coyote time in microseconds,
/// and the collider layers that the casts see.
#[derive(Clone, Copy, Debug, PartialEq, Eq, Structural)]
pub struct CollisionConfig {
    pub ground_check_distance: i64,
    pub wall_check_distance: i64,
    pub ceiling_check_distance: i64,
    pub ledge_check_distance: i64,
    pub slope_min_normal_y: i64,
    pub coyote_time: u64,
    pub collision_filter: u32,
}

/// The casts of one tick's contact checks.
#[derive(Clone, Copy, Debug, PartialEq, Eq, Structural)]
pub struct ContactProbes {
    pub ground: CastRequest,
    pub ceiling: CastRequest,
    pub wall_left: CastRequest,
    pub wall_right: CastRequest,
}

/// What each contact cast found.
#[derive(Clone, Copy, Debug, PartialEq, Eq, Structural)]
pub struct ProbeHits {
    pub ground: Option<CastHit>,
    pub ceiling: Option<CastHit>,
    pub wall_left: Option<CastHit>,
    pub wall_right: Option<CastHit>,
}

/// A body's contacts: the surfaces it touches and their normals, whether it
/// stands on a slope or by a ledge, where it last stood on the ground, and
/// how long it has been off the ground, in microseconds.
#[derive(Clone, Copy, Debug, PartialEq, Eq, Structural)]
pub struct CollisionState {
    pub grounded: bool,
    pub against_left_wall: bool,
    pub against_right_wall: bool,
    pub touching_ceiling: bool,
    pub ground_normal: Vector,
    pub left_wall_normal: Vector,
    pub right_wall_normal: Vector,
    pub ceiling_normal: Vector,
    pub on_slope: bool,
    pub ledge_left: bool,
    pub ledge_right: bool,
    pub last_ground_position: Vector,
    pub time_since_grounded: u64,
}

/// A body that touches nothing, at the origin, just off the ground.
pub open spec fn rest_state() -> CollisionState {
    CollisionState {
        grounded: false,
        against_left_wall: false,
        against_right_wall: false,
        touching_ceiling: false,
        ground_normal: Vector { x: 0, y: 0 },
        left_wall_normal: Vector { x: 0, y: 0 },
        right_wall_normal: Vector { x: 0, y: 0 },
        ceiling_normal: Vector { x: 0, y: 0 },
        on_slope: false,
        ledge_left: false,
        ledge_right: false,
        last_ground_position: Vector { x: 0, y: 0 },
        time_since_grounded: 0,
    }
}

/// A ground hit stops any fall.
pub open spec fn ground_rule(y: i64, hit: bool) -> i64 {
    if hit && y < 0 {
        0
    } else {
        y
    }
}

/// A ceiling hit sends the body down at one unit per second at least.
pub open spec fn ceiling_rule(y: i64, hit: bool) -> i64 {
    if hit && y > -UNIT {
        (-UNIT) as i64
    } else {
        y
    }
}

/// A wall on the left stops motion to the left.
pub open spec fn left_wall_rule(x: i64, hit: bool) -> i64 {
    if hit && x < 0 {
        0
    } else {
        x
    }
}

/// A wall on the right stops motion to the right.
pub open spec fn right_wall_rule(x: i64, hit: bool) -> i64 {
    if hit && x > 0 {
        0
    } else {
        x
    }
}

/// Horizontal speeds under one unit per second are taken as rest.
pub open spec fn dead_zone(x: i64) -> i64 {
    if -UNIT < x < UNIT {
        0
    } else {
        x
    }
}

/// No motion into a wall that the body touches.
pub open spec fn wall_block(x: i64, left: bool, right: bool) -> i64 {
    if left && x < 0 {
        0
    } else if right && x > 0 {
        0
    } else {
        x
    }
}

/// No upward motion against a ceiling that the body touches.
pub open spec fn ceiling_block(y: i64, ceiling: bool) -> i64 {
    if ceiling && y > 0 {
        (-UNIT) as i64
    } else {
        y
    }
}

/// The velocity after the steps that read the contact state: dead zone,
/// then wall and ceiling blocks.
pub open spec fn resolved_velocity(v: Velocity, s: CollisionState) -> Velocity {
    Velocity {
        x: wall_block(dead_zone(v.x), s.against_left_wall, s.against_right_wall),
        y: ceiling_block(v.y, s.touching_ceiling),
    }
}

/// The contact state after a tick whose casts found `hits`.
pub open spec fn contact_state(s: CollisionState, hits: ProbeHits, dt: u64) -> CollisionState {
    CollisionState {
        grounded: hits.ground.is_some(),
        against_left_wall: hits.wall_left.is_some(),
        against_right_wall: hits.wall_right.is_some(),
        touching_ceiling: hits.ceiling.is_some(),
        time_since_grounded: if hits.ground.is_some() {
            0
        } else {
            saturating_sum(s.time_since_grounded, dt)
        },
        ..s
    }
}

/// The velocity after a tick whose casts found `hits`: ground, ceiling,
/// left wall and right wall checks in that order, then the resolution steps.
pub open spec fn contact_velocity(v: Velocity, hits: ProbeHits) -> Velocity {
    let x = right_wall_rule(left_wall_rule(v.x, hits.wall_left.is_some()), hits.wall_right.is_some());
    let y = ceiling_rule(ground_rule(v.y, hits.ground.is_some()), hits.ceiling.is_some());
    Velocity {
        x: wall_block(dead_zone(x), hits.wall_left.is_some(), hits.wall_right.is_some()),
        y: ceiling_block(y, hits.ceiling.is_some()),
    }
}

impl Vector {
    pub fn new(x: i64, y: i64) -> (r: Vector)
        ensures
            r == (Vector { x, y }),
    {
        Vector { x, y }
    }
}

impl CollisionState {
    /// A body that touches nothing, at the origin, just off the ground.
    pub fn new() -> (r: CollisionState)
        ensures
            r == rest_state(),
    {
        let zero = Vector { x: 0, y: 0 };
        CollisionState {
            grounded: false,
            against_left_wall: false,
            against_right_wall: false,
            touching_ceiling: false,
            ground_normal: zero,
            left_wall_normal: zero,
            right_wall_normal: zero,
            ceiling_normal: zero,
            on_slope: false,
            ledge_left: false,
            ledge_right: false,
            last_ground_position: zero,
            time_since_grounded: 0,
        }
    }

    /// Whether the body may jump: on the ground, or off it for less than the
    /// coyote time.
    pub fn can_jump(&self, config: &CollisionConfig) -> (r: bool)
        ensures
            r == (self.grounded || self.time_since_grounded < config.coyote_time),
    {
        self.grounded || self.time_since_grounded < config.coyote_time
    }

    /// Whether the body touches a wall while off the ground.
    pub fn can_wall_jump(&self) -> (r: bool)
        ensures
            r == ((self.against_left_wall || self.against_right_wall) && !self.grounded),
    {
        (self.against_left_wall || self.against_right_wall) && !self.grounded
    }

    /// Whether the body hangs by a ledge while off the ground.
    pub fn can_grab_ledge(&self) -> (r: bool)
        ensures
            r == ((self.ledge_left || self.ledge_right) && !self.grounded),
    {
        (self.ledge_left || self.ledge_right) && !self.grounded
    }

    /// Whether the body stands on a slope no steeper than the one whose
    /// normal rises `min_normal_y` (of `UNIT`).
    pub fn is_on_walkable_slope(&self, min_normal_y: i64) -> (r: bool)
        ensures
            r == (self.on_slope && self.ground_normal.y > min_normal_y),
    {
        self.on_slope && self.ground_normal.y > min_normal_y
    }
}

impl Default for CollisionConfig {
    /// Probes of two units, ledges looked for eight units aside, slopes from
    /// 45 degrees, a tenth of a second of coyote time, all layers seen.
    fn default() -> (r: CollisionConfig)
        ensures
            r == (CollisionConfig {
                ground_check_distance: (2 * UNIT) as i64,
                wall_check_distance: (2 * UNIT) as i64,
                ceiling_check_distance: (2 * UNIT) as i64,
                ledge_check_distance: (8 * UNIT) as i64,
                slope_min_normal_y: COS_45_DEGREES,
                coyote_time: 100000,
                collision_filter: u32::MAX,
            }),
    {
        CollisionConfig {
            ground_check_distance: (2 * UNIT) as i64,
            wall_check_distance: (2 * UNIT) as i64,
            ceiling_check_distance: (2 * UNIT) as i64,
            ledge_check_distance: (8 * UNIT) as i64,
            slope_min_normal_y: COS_45_DEGREES,
            coyote_time: 100000,
            collision_filter: u32::MAX,
        }
    }
}

/// Probes of three units and ledges twelve units aside for a responsive
/// player, slopes from 30 degrees, 0.15 s of coyote time.
pub fn player_collision_config() -> (r: CollisionConfig)
    ensures
        r == (CollisionConfig {
            ground_check_distance: (3 * UNIT) as i64,
            wall_check_distance: (3 * UNIT) as i64,
            ceiling_check_distance: (3 * UNIT) as i64,
            ledge_check_distance: (12 * UNIT) as i64,
            slope_min_normal_y: COS_30_DEGREES,
            coyote_time: 150000,
            collision_filter: u32::MAX,
        }),
{
    CollisionConfig {
        ground_check_distance: (3 * UNIT) as i64,
        wall_check_distance: (3 * UNIT) as i64,
        ceiling_check_distance: (3 * UNIT) as i64,
        ledge_check_distance: (12 * UNIT) as i64,
        slope_min_normal_y: COS_30_DEGREES,
        coyote_time: 150000,
        collision_filter: u32::MAX,
    }
}

/// Shorter probes for other characters, slopes from 45 degrees, and no
/// coyote time.
pub fn npc_collision_config() -> (r: CollisionConfig)
    ensures
        r == (CollisionConfig {
            ground_check_distance: (2 * UNIT) as i64,
            wall_check_distance: (2 * UNIT) as i64,
            ceiling_check_distance: UNIT,
            ledge_check_distance: (6 * UNIT) as i64,
            slope_min_normal_y: COS_45_DEGREES,
            coyote_time: 0,
            collision_filter: u32::MAX,
        }),
{
    CollisionConfig {
        ground_check_distance: (2 * UNIT) as i64,
        wall_check_distance: (2 * UNIT) as i64,
        ceiling_check_distance: UNIT,
        ledge_check_distance: (6 * UNIT) as i64,
        slope_min_normal_y: COS_45_DEGREES,
        coyote_time: 0,
        collision_filter: u32::MAX,
    }
}

/// A cast along `direction`, or none where `direction` is zero: such a cast
/// has no direction and finds nothing.
pub fn cast_request(origin: Vector, direction: Vector, max_distance: i64, filter: u32) -> (r: Option<CastRequest>)
    ensures
        r.is_none() <==> direction.x == 0 && direction.y == 0,
        r.is_some() ==> r.unwrap() == (CastRequest { origin, direction, max_distance, filter }),
{
    if direction.x == 0 && direction.y == 0 {
        None
    } else {
        Some(CastRequest { origin, direction, max_distance, filter })
    }
}

/// The four contact casts from a collider anchor: down and up from the
/// anchor, left and right from a point `WALL_PROBE_LIFT` above it.
pub open spec fn probes_at(anchor: Vector, config: CollisionConfig) -> ContactProbes {
    let lifted = Vector { x: anchor.x, y: (anchor.y + WALL_PROBE_LIFT) as i64 };
    ContactProbes {
        ground: CastRequest {
            origin: anchor,
            direction: Vector { x: 0, y: -1i64 },
            max_distance: config.ground_check_distance,
            filter: config.collision_filter,
        },
        ceiling: CastRequest {
            origin: anchor,
            direction: Vector { x: 0, y: 1 },
            max_distance: config.ceiling_check_distance,
            filter: config.collision_filter,
        },
        wall_left: CastRequest {
            origin: lifted,
            direction: Vector { x: -1i64, y: 0 },
            max_distance: config.wall_check_distance,
            filter: config.collision_filter,
        },
        wall_right: CastRequest {
            origin: lifted,
            direction: Vector { x: 1, y: 0 },
            max_distance: config.wall_check_distance,
            filter: config.collision_filter,
        },
    }
}

/// The four contact casts from the body's collider anchor: down and up from
/// the anchor, left and right from a point `WALL_PROBE_LIFT` above it.
pub fn contact_probes(anchor: Vector, config: &CollisionConfig) -> (r: ContactProbes)
    requires
        anchor.y + WALL_PROBE_LIFT <= i64::MAX,
    ensures
        r == probes_at(anchor, *config),
{
    let lifted = Vector { x: anchor.x, y: anchor.y + WALL_PROBE_LIFT };
    ContactProbes {
        ground: CastRequest { origin: anchor, direction: Vector { x: 0, y: -1i64 }, max_distance: config.ground_check_distance, filter: config.collision_filter },
        ceiling: CastRequest { origin: anchor, direction: Vector { x: 0, y: 1 }, max_distance: config.ceiling_check_distance, filter: config.collision_filter },
        wall_left: CastRequest { origin: lifted, direction: Vector { x: -1i64, y: 0 }, max_distance: config.wall_check_distance, filter: config.collision_filter },
        wall_right: CastRequest { origin: lifted, direction: Vector { x: 1, y: 0 }, max_distance: config.wall_check_distance, filter: config.collision_filter },
    }
}

/// Ground check: a hit grounds the body, stops its fall and resets the time
/// off the ground; no hit adds `dt` to that time.
pub fn check_grounded_state(
    state: &mut CollisionState,
    velocity: &mut Velocity,
    hit: &Option<CastHit>,
    dt: u64,
)
    ensures
        *final(state) == (CollisionState {
            grounded: hit.is_some(),
            time_since_grounded: if hit.is_some() {
                0
            } else {
                saturating_sum(old(state).time_since_grounded, dt)
            },
            ..*old(state)
        }),
        final(velocity).x == old(velocity).x,
        final(velocity).y == ground_rule(old(velocity).y, hit.is_some()),
        hit.is_some() ==> final(velocity).y >= 0,
{
    if hit.is_some() {
        state.grounded = true;
        if velocity.y < 0 {
            velocity.y = 0;
        }
        state.time_since_grounded = 0;
    } else {
        state.grounded = false;
        state.time_since_grounded = state.time_since_grounded.saturating_add(dt);
    }
}

/// Ceiling check: a hit marks the contact, sends the body down, and ends any
/// gravity immunity left from a jump.
pub fn check_ceiling_state(
    state: &mut CollisionState,
    velocity: &mut Velocity,
    immunity: &mut Option<Timer>,
    hit: &Option<CastHit>,
)
    ensures
        *final(state) == (CollisionState { touching_ceiling: hit.is_some(), ..*old(state) }),
        final(velocity).x == old(velocity).x,
        final(velocity).y == ceiling_rule(old(velocity).y, hit.is_some()),
        final(immunity).is_some() == old(immunity).is_some(),
        hit.is_some() && old(immunity).is_some() ==> final(immunity).unwrap() == (Timer {
            elapsed: old(immunity).unwrap().duration,
            ..old(immunity).unwrap()
        }),
        hit.is_none() ==> *final(immunity) == *old(immunity),
{
    if hit.is_some() {
        state.touching_ceiling = true;
        if velocity.y > -UNIT {
            velocity.y = -UNIT;
        }
        match immunity {
            Some(timer) => {
                timer.finish();
            },
            None => {},
        }
    } else {
        state.touching_ceiling = false;
    }
}

/// Left wall check: a hit marks the contact and stops motion to the left.
pub fn check_wall_left_state(state: &mut CollisionState, velocity: &mut Velocity, hit: &Option<CastHit>)
    ensures
        *final(state) == (CollisionState { against_left_wall: hit.is_some(), ..*old(state) }),
        final(velocity).x == left_wall_rule(old(velocity).x, hit.is_some()),
        final(velocity).y == old(velocity).y,
{
    if hit.is_some() {
        state.against_left_wall = true;
        if velocity.x < 0 {
            velocity.x = 0;
        }
    } else {
        state.against_left_wall = false;
    }
}

/// Right wall check: a hit marks the contact and stops motion to the right.
pub fn check_wall_right_state(state: &mut CollisionState, velocity: &mut Velocity, hit: &Option<CastHit>)
    ensures
        *final(state) == (CollisionState { against_right_wall: hit.is_some(), ..*old(state) }),
        final(velocity).x == right_wall_rule(old(velocity).x, hit.is_some()),
        final(velocity).y == old(velocity).y,
{
    if hit.is_some() {
        state.against_right_wall = true;
        if velocity.x > 0 {
            velocity.x = 0;
        }
    } else {
        state.against_right_wall = false;
    }
}

/// The steps that read the contact state: dead zone, wall blocks, ceiling
/// block.
pub fn resolve_velocity(state: &CollisionState, velocity: &mut Velocity)
    ensures
        *final(velocity) == resolved_velocity(*old(velocity), *state),
{
    if -UNIT < velocity.x && velocity.x < UNIT {
        velocity.x = 0;
    }
    if state.against_left_wall && velocity.x < 0 {
        velocity.x = 0;
    }
    if state.against_right_wall && velocity.x > 0 {
        velocity.x = 0;
    }
    if state.touching_ceiling && velocity.y > 0 {
        velocity.y = -UNIT;
    }
}

/// One tick of contact checks: ground, ceiling, left wall, right wall, then
/// the resolution steps.
pub fn update_contacts(
    state: &mut CollisionState,
    velocity: &mut Velocity,
    immunity: &mut Option<Timer>,
    hits: &ProbeHits,
    dt: u64,
)
    ensures
        *final(state) == contact_state(*old(state), *hits, dt),
        *final(velocity) == contact_velocity(*old(velocity), *hits),
        final(immunity).is_some() == old(immunity).is_some(),
        hits.ceiling.is_some() && old(immunity).is_some() ==> final(immunity).unwrap().is_finished()
            && final(immunity).unwrap().duration == old(immunity).unwrap().duration,
        hits.ceiling.is_none() ==> *final(immunity) == *old(immunity),
{
    check_grounded_state(state, velocity, &hits.ground, dt);
    check_ceiling_state(state, velocity, immunity, &hits.ceiling);
    check_wall_left_state(state, velocity, &hits.wall_left);
    check_wall_right_state(state, velocity, &hits.wall_right);
    resolve_velocity(state, velocity);
}


/// A ground hit leaves no downward velocity at the end of the tick, when the
/// ceiling probe finds nothing: a falling body stops, any other keeps its
/// vertical speed.
pub proof fn lemma_ground_hit_stops_fall(v: Velocity, hits: ProbeHits)
    requires
        hits.ground.is_some(),
        hits.ceiling.is_none(),
    ensures
        contact_velocity(v, hits).y >= 0,
        contact_velocity(v, hits).y == if v.y < 0 {
            0
        } else {
            v.y
        },
{
}

/// A body whose left-wall probe hits ends the tick with no leftward
/// velocity, whatever velocity it began with; one that was moving left stops.
pub proof fn lemma_left_wall_blocks(v: Velocity, hits: ProbeHits)
    requires
        hits.wall_left.is_some(),
    ensures
        contact_velocity(v, hits).x >= 0,
        v.x < 0 ==> contact_velocity(v, hits).x == 0,
{
}

/// A body whose right-wall probe hits ends the tick with no rightward
/// velocity; one that was moving right stops.
pub proof fn lemma_right_wall_blocks(v: Velocity, hits: ProbeHits)
    requires
        hits.wall_right.is_some(),
    ensures
        contact_velocity(v, hits).x <= 0,
        v.x > 0 ==> contact_velocity(v, hits).x == 0,
{
}

/// Touching a wall on the left, the resolution steps leave no leftward
/// velocity: motion to the left becomes rest.
pub proof fn lemma_wall_contact_blocks(v: Velocity, s: CollisionState)
    requires
        s.against_left_wall,
    ensures
        resolved_velocity(v, s).x >= 0,
        v.x < 0 ==> resolved_velocity(v, s).x == 0,
{
}

} // verus!
