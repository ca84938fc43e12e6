use platformer::contact::{
    cast_request, check_ceiling_state, check_grounded_state, check_wall_left_state,
    check_wall_right_state, contact_probes, resolve_velocity, update_contacts, CastHit,
    CastRequest, CollisionConfig, CollisionState, ProbeHits, Vector, Velocity, UNIT,
};
use platformer::timers::Timer;

fn hit(distance: i64) -> Option<CastHit> {
    Some(CastHit { distance, normal: Vector::new(0, 1) })
}

fn no_hits() -> ProbeHits {
    ProbeHits { ground: None, ceiling: None, wall_left: None, wall_right: None }
}

#[test]
fn ground_hit_clamps_fall_on_same_tick() {
    let mut state = CollisionState::new();
    state.time_since_grounded = 250_000;
    let mut velocity = Velocity { x: 0, y: -7_000 };
    let mut immunity = Some(Timer::new(300_000));
    let hits = ProbeHits { ground: hit(500), ..no_hits() };
    update_contacts(&mut state, &mut velocity, &mut immunity, &hits, 16_000);
    assert!(state.grounded);
    assert_eq!(state.time_since_grounded, 0);
    assert_eq!(velocity.y, 0);
}

#[test]
fn no_ground_hit_counts_time_off_ground() {
    let mut state = CollisionState::new();
    state.grounded = true;
    let mut velocity = Velocity { x: 0, y: -7_000 };
    check_grounded_state(&mut state, &mut velocity, &None, 16_000);
    assert!(!state.grounded);
    assert_eq!(state.time_since_grounded, 16_000);
    assert_eq!(velocity.y, -7_000);
    state.time_since_grounded = u64::MAX - 5;
    check_grounded_state(&mut state, &mut velocity, &None, 16_000);
    assert_eq!(state.time_since_grounded, u64::MAX);
}

#[test]
fn ceiling_hit_sends_body_down_and_ends_immunity() {
    let mut state = CollisionState::new();
    let mut velocity = Velocity { x: 3_000, y: 9_000 };
    let mut immunity = Some(Timer::new(300_000));
    check_ceiling_state(&mut state, &mut velocity, &mut immunity, &hit(0));
    assert!(state.touching_ceiling);
    assert_eq!(velocity, Velocity { x: 3_000, y: -UNIT });
    assert!(immunity.unwrap().finished());
    let mut falling = Velocity { x: 0, y: -4_000 };
    check_ceiling_state(&mut state, &mut falling, &mut immunity, &None);
    assert!(!state.touching_ceiling);
    assert_eq!(falling.y, -4_000);
}

#[test]
fn left_wall_blocks_leftward_motion() {
    let mut state = CollisionState::new();
    let mut velocity = Velocity { x: -12_000, y: 500 };
    let mut immunity = None;
    let hits = ProbeHits { wall_left: hit(100), ..no_hits() };
    update_contacts(&mut state, &mut velocity, &mut immunity, &hits, 16_000);
    assert!(state.against_left_wall);
    assert_eq!(velocity.x, 0);
    assert_eq!(velocity.y, 500);
}

#[test]
fn walls_keep_motion_away_from_them() {
    let mut state = CollisionState::new();
    let mut velocity = Velocity { x: 5_000, y: 0 };
    check_wall_left_state(&mut state, &mut velocity, &hit(10));
    assert_eq!(velocity.x, 5_000);
    check_wall_right_state(&mut state, &mut velocity, &hit(10));
    assert!(state.against_right_wall);
    assert_eq!(velocity.x, 0);
    assert!(state.can_wall_jump());
    state.grounded = true;
    assert!(!state.can_wall_jump());
}

#[test]
fn dead_zone_and_blocks() {
    let mut state = CollisionState::new();
    let mut slow = Velocity { x: 999, y: 40 };
    resolve_velocity(&state, &mut slow);
    assert_eq!(slow, Velocity { x: 0, y: 40 });
    let mut fast = Velocity { x: -1_000, y: 40 };
    resolve_velocity(&state, &mut fast);
    assert_eq!(fast, Velocity { x: -1_000, y: 40 });
    state.against_left_wall = true;
    state.touching_ceiling = true;
    resolve_velocity(&state, &mut fast);
    assert_eq!(fast, Velocity { x: 0, y: -UNIT });
}

#[test]
fn ground_and_ceiling_together_send_body_down() {
    let mut state = CollisionState::new();
    let mut velocity = Velocity { x: 0, y: -9_000 };
    let mut immunity = None;
    let hits = ProbeHits { ground: hit(0), ceiling: hit(0), ..no_hits() };
    update_contacts(&mut state, &mut velocity, &mut immunity, &hits, 1);
    assert!(state.grounded && state.touching_ceiling);
    assert_eq!(velocity.y, -UNIT);
}

#[test]
fn zero_direction_makes_no_cast() {
    let origin = Vector::new(5, 6);
    assert_eq!(cast_request(origin, Vector::new(0, 0), 100, 4), None);
    assert_eq!(
        cast_request(origin, Vector::new(0, -3), 100, 4),
        Some(CastRequest { origin, direction: Vector::new(0, -3), max_distance: 100, filter: 4 })
    );
}

#[test]
fn probes_start_at_the_anchor() {
    let config = CollisionConfig {
        ground_check_distance: 1_000,
        wall_check_distance: 2_000,
        ceiling_check_distance: 3_000,
        ledge_check_distance: 8_000,
        slope_min_normal_y: 707,
        coyote_time: 0,
        collision_filter: 4,
    };
    let probes = contact_probes(Vector::new(10, 20), &config);
    assert_eq!(probes.ground.origin, Vector::new(10, 20));
    assert_eq!(probes.ground.direction, Vector::new(0, -1));
    assert_eq!(probes.ground.max_distance, 1_000);
    assert_eq!(probes.ceiling.direction, Vector::new(0, 1));
    assert_eq!(probes.ceiling.max_distance, 3_000);
    assert_eq!(probes.wall_left.origin, Vector::new(10, 20 + UNIT));
    assert_eq!(probes.wall_left.direction, Vector::new(-1, 0));
    assert_eq!(probes.wall_right.direction, Vector::new(1, 0));
    assert_eq!(probes.wall_right.max_distance, 2_000);
    assert_eq!(probes.wall_right.filter, 4);
}
