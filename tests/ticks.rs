use platformer::contact::{
    player_collision_config, CastHit, CastProvider, CastRequest, CollisionConfig, CollisionState,
    Vector, Velocity, UNIT,
};
use platformer::kinematic::{kinematic_movement_with_collision_detection, update_collision_state_only};
use platformer::motion::body_tick;
use platformer::timers::Timer;

/// Flat, endless surfaces: a floor, a ceiling and walls, each optional.
struct Planes {
    floor: Option<i64>,
    ceiling: Option<i64>,
    left_wall: Option<i64>,
    right_wall: Option<i64>,
    casts: std::cell::Cell<usize>,
}

impl Planes {
    fn new() -> Planes {
        Planes { floor: None, ceiling: None, left_wall: None, right_wall: None, casts: std::cell::Cell::new(0) }
    }
}

impl CastProvider for Planes {
    fn cast(&self, request: &CastRequest) -> Option<CastHit> {
        self.casts.set(self.casts.get() + 1);
        let (ox, oy) = (request.origin.x as f64, request.origin.y as f64);
        let (dx, dy) = (request.direction.x as f64, request.direction.y as f64);
        let len = (dx * dx + dy * dy).sqrt();
        let mut best: Option<CastHit> = None;
        let mut consider = |gap: f64, along: f64, normal: Vector| {
            if along > 0.0 && gap >= 0.0 {
                let d = (gap * len / along).floor() as i64;
                if d <= request.max_distance && best.map_or(true, |b| d < b.distance) {
                    best = Some(CastHit { distance: d, normal });
                }
            }
        };
        if let Some(f) = self.floor {
            consider(oy - f as f64, -dy, Vector::new(0, UNIT));
        }
        if let Some(c) = self.ceiling {
            consider(c as f64 - oy, dy, Vector::new(0, -UNIT));
        }
        if let Some(l) = self.left_wall {
            consider(ox - l as f64, -dx, Vector::new(UNIT, 0));
        }
        if let Some(r) = self.right_wall {
            consider(r as f64 - ox, dx, Vector::new(-UNIT, 0));
        }
        best
    }
}

/// Ground tilted so that its normal rises 800 of 1000, right under the body.
struct Slope;

impl CastProvider for Slope {
    fn cast(&self, request: &CastRequest) -> Option<CastHit> {
        if request.direction == Vector::new(0, -1) {
            Some(CastHit { distance: 0, normal: Vector::new(600, 800) })
        } else {
            None
        }
    }
}

fn probe_config() -> CollisionConfig {
    CollisionConfig {
        ground_check_distance: UNIT,
        wall_check_distance: UNIT,
        ceiling_check_distance: UNIT,
        ledge_check_distance: 8 * UNIT,
        slope_min_normal_y: 707,
        coyote_time: 100_000,
        collision_filter: u32::MAX,
    }
}

#[test]
fn falling_body_stops_a_skin_above_the_floor() {
    let world = Planes { floor: Some(0), ..Planes::new() };
    let mut state = CollisionState::new();
    let mut v = Velocity { x: 0, y: -10_000 };
    let mut immunity = None;
    let report = body_tick(&world, Vector::new(0, 5_000), &probe_config(), &mut state, &mut v, &mut immunity, 1_000_000);
    assert!(!state.grounded);
    assert_eq!(report.probes.ground.origin, Vector::new(0, 5_000));
    assert_eq!(report.probes.ground.direction, Vector::new(0, -1));
    assert_eq!(report.probes.wall_left.origin, Vector::new(0, 5_000 + UNIT));
    let cast = report.movement_cast.unwrap();
    assert_eq!((cast.direction, cast.max_distance), (Vector::new(0, -10_000), 10_000));
    assert_eq!(report.movement_hit.unwrap().distance, 5_000);
    assert_eq!(report.displacement, Vector::new(0, -4_900));
    assert_eq!(state.time_since_grounded, 1_000_000);
}

#[test]
fn resting_body_is_grounded_and_still() {
    let world = Planes { floor: Some(0), ..Planes::new() };
    let mut state = CollisionState::new();
    let mut v = Velocity { x: 500, y: -7_000 };
    let mut immunity = Some(Timer::new(300_000));
    let report = body_tick(&world, Vector::new(0, 500), &probe_config(), &mut state, &mut v, &mut immunity, 16_000);
    assert!(state.grounded);
    assert_eq!(v, Velocity { x: 0, y: 0 });
    assert_eq!(report.displacement, Vector::new(0, 0));
    assert_eq!(report.movement_cast, None);
    assert_eq!(world.casts.get(), 4);
}

#[test]
fn body_beside_wall_cannot_push_into_it() {
    let world = Planes { floor: Some(0), left_wall: Some(-800), ..Planes::new() };
    let mut state = CollisionState::new();
    let mut v = Velocity { x: -50_000, y: 0 };
    let mut immunity = None;
    let report = body_tick(&world, Vector::new(0, 500), &probe_config(), &mut state, &mut v, &mut immunity, 16_000);
    assert!(state.against_left_wall && state.grounded);
    assert_eq!(v.x, 0);
    assert_eq!(report.displacement, Vector::new(0, 0));
}

#[test]
fn axis_tick_stops_at_wall_then_settles_on_floor() {
    let world = Planes { floor: Some(0), right_wall: Some(10_000), ..Planes::new() };
    let config = probe_config();
    let mut state = CollisionState::new();
    let mut position = Vector::new(0, 3_000);
    let mut v = Velocity { x: 20_000, y: -6_000 };
    let trace = kinematic_movement_with_collision_detection(&world, &mut position, &mut v, &mut state, &config, 1_000_000);
    // X first: the wall is 10000 away, the body stops one sub-unit short.
    let x = trace.x_request.unwrap();
    assert_eq!((x.origin, x.direction, x.max_distance), (Vector::new(0, 3_000), Vector::new(1, 0), 20_000));
    assert_eq!(trace.x_hit.unwrap().distance, 10_000);
    // Y starts where the x move ended.
    let y = trace.y_request.unwrap();
    assert_eq!((y.origin, y.direction, y.max_distance), (Vector::new(9_999, 3_000), Vector::new(0, -1), 6_000));
    // Then Y: the floor is 3000 below.
    assert_eq!(trace.y_hit.unwrap().distance, 3_000);
    assert_eq!(position, Vector::new(9_999, 1));
    assert_eq!(trace.moved, Vector::new(9_999, -2_999));
    assert_eq!(v, Velocity { x: 0, y: -6_000 });
    assert!(state.against_right_wall && state.grounded);
    assert!(!state.ledge_right);
    assert_eq!(state.last_ground_position, position);
    assert_eq!(state.time_since_grounded, 0);
}

#[test]
fn axis_tick_in_free_fall_counts_time() {
    let world = Planes::new();
    let config = probe_config();
    let mut state = CollisionState::new();
    state.time_since_grounded = 40_000;
    let mut position = Vector::new(0, 0);
    let mut v = Velocity { x: 0, y: -9_000 };
    let trace = kinematic_movement_with_collision_detection(&world, &mut position, &mut v, &mut state, &config, 100_000);
    assert_eq!(position, Vector::new(0, -900));
    assert_eq!(trace.x_request, None);
    assert!(trace.ledge_left.is_none() && trace.ledge_right.is_none());
    assert!(!state.grounded);
    assert_eq!(state.time_since_grounded, 140_000);
    assert!(state.can_jump(&CollisionConfig { coyote_time: 150_000, ..config }));
    assert!(!state.can_jump(&config));
}

#[test]
fn wall_with_no_ground_beyond_is_a_ledge() {
    // Standing on a floor only to the left is not modelled by planes; a body
    // in the air beside a wall sees no ground beyond it.
    let world = Planes { left_wall: Some(-500), ..Planes::new() };
    let config = probe_config();
    let mut state = CollisionState::new();
    let hits = update_collision_state_only(&world, Vector::new(0, 0), &mut state, &config);
    assert!(hits.0.wall_left.is_some());
    assert!(state.against_left_wall && state.ledge_left);
    assert!(state.can_grab_ledge());
    assert_eq!(state.left_wall_normal, Vector::new(UNIT, 0));
}

#[test]
fn steep_ground_is_a_slope() {
    let mut state = CollisionState::new();
    update_collision_state_only(&Slope, Vector::new(0, 0), &mut state, &player_collision_config());
    assert!(state.grounded && state.on_slope);
    assert!(state.is_on_walkable_slope(707));
    assert!(!state.is_on_walkable_slope(800));
}
