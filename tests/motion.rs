use platformer::contact::{CastHit, CollisionConfig, CollisionState, Vector, Velocity};
use platformer::motion::{
    apply_velocity, displacement, finish_movement, isqrt, plan_movement, speed, target_distance,
    travel_distance, SKIN,
};

fn hit_at(distance: i64) -> Option<CastHit> {
    Some(CastHit { distance, normal: Vector::new(-1, 0) })
}

#[test]
fn square_roots_round_down() {
    assert_eq!(isqrt(0), 0);
    assert_eq!(isqrt(1), 1);
    assert_eq!(isqrt(24), 4);
    assert_eq!(isqrt(25), 5);
    assert_eq!(isqrt(u128::MAX), u64::MAX);
    assert_eq!(speed(&Velocity { x: 3_000, y: -4_000 }), 5_000);
    assert_eq!(speed(&Velocity { x: i64::MIN, y: 0 }), 1u64 << 63);
}

#[test]
fn target_distance_over_the_frame() {
    // 5000 sub-units per second for a quarter second.
    assert_eq!(target_distance(5_000, 250_000), Some(1_250));
    assert_eq!(target_distance(0, 250_000), None);
    assert_eq!(target_distance(5_000, 0), None);
    assert_eq!(target_distance(u64::MAX, u64::MAX), None);
}

#[test]
fn swept_stop_before_obstruction() {
    assert_eq!(travel_distance(2_000, &hit_at(700)), 700 - SKIN);
    assert_eq!(travel_distance(2_000, &hit_at(SKIN)), 0);
    assert_eq!(travel_distance(2_000, &hit_at(30)), 0);
    assert_eq!(travel_distance(2_000, &None), 2_000);
}

#[test]
fn displacement_follows_velocity() {
    let v = Velocity { x: 3_000, y: -4_000 };
    assert_eq!(displacement(&v, 5_000, 500), Vector::new(300, -400));
    assert_eq!(displacement(&v, 5_000, 0), Vector::new(0, 0));
}

#[test]
fn planned_move_and_its_end() {
    let v = Velocity { x: 3_000, y: -4_000 };
    let plan = plan_movement(Vector::new(1, 2), &v, 100_000, 4).unwrap();
    assert_eq!(plan.speed, 5_000);
    assert_eq!(plan.target, 500);
    assert_eq!(plan.cast.origin, Vector::new(1, 2));
    assert_eq!(plan.cast.direction, Vector::new(3_000, -4_000));
    assert_eq!(plan.cast.max_distance, 500);
    assert_eq!(plan.cast.filter, 4);
    // Unobstructed: the whole way.
    assert_eq!(finish_movement(&plan, &v, &None), Vector::new(300, -400));
    // Obstructed 350 away: 250 along the velocity.
    assert_eq!(finish_movement(&plan, &v, &hit_at(350)), Vector::new(150, -200));
    assert_eq!(plan_movement(Vector::new(0, 0), &Velocity { x: 0, y: 0 }, 100_000, 4), None);
}

#[test]
fn apply_velocity_resolves_then_plans() {
    let mut state = CollisionState::new();
    let config = CollisionConfig::default();
    state.against_right_wall = true;
    let mut v = Velocity { x: 8_000, y: 0 };
    assert_eq!(apply_velocity(&state, &config, &mut v, Vector::new(0, 0), 16_000), None);
    assert_eq!(v, Velocity { x: 0, y: 0 });
    let mut w = Velocity { x: -8_000, y: 0 };
    let plan = apply_velocity(&state, &config, &mut w, Vector::new(0, 0), 125_000).unwrap();
    assert_eq!(plan.target, 1_000);
    assert_eq!(plan.cast.direction, Vector::new(-8_000, 0));
}
