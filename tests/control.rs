use platformer::contact::{
    npc_collision_config, player_collision_config, CollisionConfig, CollisionState, Vector, Velocity,
};
use platformer::control::{
    apply_controls, apply_gravity, change_over_time, multiply_by_tile_size, player_setup,
    respawn_position, select_animation, shot_velocity, toggle_gravity, try_jump, walk_step,
    ControlInput, EntityGravity, MovementParams, PlayerAnimation, TILE_SIZE,
};
use platformer::layers::GameLayer;
use platformer::motion::free_displacement;
use platformer::timers::Timer;

fn airborne(time_since_grounded: u64) -> CollisionState {
    let mut s = CollisionState::new();
    s.time_since_grounded = time_since_grounded;
    s
}

fn params() -> MovementParams {
    MovementParams {
        walk_speed: 160_000,
        walk_acceleration: 400_000,
        ground_deceleration: 800_000,
        jump_force: 240_000,
        coyote_time: 500_000,
    }
}

#[test]
fn coyote_jump_inside_window_succeeds() {
    let state = airborne(400_000);
    let mut v = Velocity { x: 0, y: -2_000 };
    let mut cooldown = Timer::new(500_000);
    cooldown.finish();
    let mut immunity = Timer::new(300_000);
    immunity.finish();
    assert!(try_jump(&state, &mut v, 500_000, 240_000, &mut cooldown, &mut immunity));
    assert_eq!(v.y, 238_000);
    assert_eq!(cooldown.elapsed, 0);
    assert_eq!(immunity.elapsed, 0);
}

#[test]
fn coyote_jump_after_window_fails() {
    let state = airborne(500_000);
    let mut v = Velocity { x: 0, y: -2_000 };
    let mut cooldown = Timer::new(500_000);
    cooldown.finish();
    let mut immunity = Timer::new(300_000);
    assert!(!try_jump(&state, &mut v, 500_000, 240_000, &mut cooldown, &mut immunity));
    assert_eq!(v.y, -2_000);
}

#[test]
fn jump_waits_for_cooldown_off_ground_only() {
    let mut v = Velocity { x: 0, y: 0 };
    let mut cooldown = Timer::new(500_000);
    let mut immunity = Timer::new(300_000);
    assert!(!try_jump(&airborne(0), &mut v, 500_000, 240_000, &mut cooldown, &mut immunity));
    let mut grounded = CollisionState::new();
    grounded.grounded = true;
    assert!(try_jump(&grounded, &mut v, 500_000, 240_000, &mut cooldown, &mut immunity));
    assert_eq!(v.y, 240_000);
}

#[test]
fn gravity_pulls_only_when_free() {
    let g = EntityGravity { gravity: 480_000, max_fall_speed: 240_000, enabled: true };
    let mut v = Velocity { x: 7, y: 0 };
    apply_gravity(&g, &mut v, Some(false), 250_000);
    assert_eq!(v, Velocity { x: 7, y: -120_000 });
    apply_gravity(&g, &mut v, None, 250_000);
    assert_eq!(v.y, -240_000);
    // At the fall limit gravity stops.
    apply_gravity(&g, &mut v, None, 250_000);
    assert_eq!(v.y, -240_000);
    let mut grounded = Velocity { x: 0, y: 0 };
    apply_gravity(&g, &mut grounded, Some(true), 250_000);
    assert_eq!(grounded.y, 0);
    let off = EntityGravity { enabled: false, ..g };
    apply_gravity(&off, &mut grounded, Some(false), 250_000);
    assert_eq!(grounded.y, 0);
}

#[test]
fn gravity_immunity_holds_while_jump_held() {
    let mut g = EntityGravity { gravity: 1, max_fall_speed: 1, enabled: true };
    let mut immunity = Timer::new(300_000);
    toggle_gravity(&mut g, &mut immunity, true, 100_000);
    assert!(!g.enabled);
    assert_eq!(immunity.elapsed, 100_000);
    toggle_gravity(&mut g, &mut immunity, false, 100_000);
    assert!(g.enabled);
    toggle_gravity(&mut g, &mut immunity, true, 200_000);
    assert!(g.enabled);
    assert_eq!(immunity.elapsed, 300_000);
}

#[test]
fn walking_accelerates_and_decelerates() {
    let p = params();
    let left = ControlInput { left: true, right: false, jump: false };
    let right = ControlInput { left: false, right: true, jump: false };
    let idle = ControlInput { left: false, right: false, jump: false };
    assert_eq!(walk_step(0, &left, &p, 100_000), -40_000);
    assert_eq!(walk_step(-160_000, &left, &p, 100_000), 0);
    assert_eq!(walk_step(0, &right, &p, 100_000), 40_000);
    assert_eq!(walk_step(-10_000, &idle, &p, 100_000), 80_000);
    assert_eq!(walk_step(-10_000, &idle, &p, 2_000_000), 800_000);
    assert_eq!(walk_step(10_000, &idle, &p, 100_000), -80_000);
    assert_eq!(walk_step(0, &idle, &p, 100_000), 0);
    assert_eq!(change_over_time(-3, 500_000), -1);
    // A negative deceleration still clamps the change between the velocity and it.
    let odd = MovementParams { ground_deceleration: -5_000, ..p };
    assert_eq!(walk_step(-10_000, &idle, &odd, 100_000), -5_000);
}

#[test]
fn controls_drive_velocity_and_animation() {
    let p = params();
    let mut grounded = CollisionState::new();
    grounded.grounded = true;
    let mut v = Velocity { x: 0, y: 0 };
    let mut cooldown = Timer::new(500_000);
    let mut immunity = Timer::new(300_000);
    let input = ControlInput { left: false, right: true, jump: true };
    let out = apply_controls(&input, &p, &grounded, &mut v, &mut cooldown, &mut immunity, 100_000);
    assert_eq!(v, Velocity { x: 40_000, y: 240_000 });
    assert!(out.just_jumped);
    assert_eq!(out.flip_x, Some(false));
    assert_eq!(out.animation, PlayerAnimation::Jump);
    let idle = ControlInput { left: false, right: false, jump: false };
    let mut still = Velocity { x: 0, y: 0 };
    let out = apply_controls(&idle, &p, &grounded, &mut still, &mut cooldown, &mut immunity, 100_000);
    assert_eq!(out.animation, PlayerAnimation::Idle);
    // A tick without a jump only advances the cooldown.
    assert_eq!(cooldown.elapsed, 100_000);
    assert_eq!(out.flip_x, None);
    assert_eq!(select_animation(true, false, true), PlayerAnimation::Run);
    assert_eq!(select_animation(false, false, false), PlayerAnimation::Jump);
}

#[test]
fn timers_count_and_stop() {
    let mut t = Timer::new(100);
    t.tick(60);
    assert!(!t.finished());
    t.tick(60);
    assert!(t.finished());
    assert_eq!(t.elapsed, 100);
    t.reset();
    assert_eq!(t.elapsed, 0);
    t.tick(u64::MAX);
    assert!(t.finished());
    assert_eq!(t.elapsed, 100);
}

#[test]
fn player_defaults_in_sub_units() {
    assert_eq!(multiply_by_tile_size(3), 48_000);
    assert_eq!(TILE_SIZE, 16_000);
    let setup = player_setup();
    assert_eq!(setup.movement.walk_speed, 160_000);
    assert_eq!(setup.movement.walk_acceleration, 400_000);
    assert_eq!(setup.movement.ground_deceleration, 800_000);
    assert_eq!(setup.movement.jump_force, 240_000);
    assert_eq!(setup.gravity, EntityGravity { gravity: 480_000, max_fall_speed: 240_000, enabled: true });
    assert_eq!(setup.gravity_immunity, Timer::new(300_000));
    assert_eq!(setup.jump_cooldown, Timer::new(500_000));
    assert_eq!(setup.collision.ground_check_distance, 1_000);
    assert_eq!(setup.collision.collision_filter, GameLayer::LevelGeometry.to_bits());
    let d = CollisionConfig::default();
    assert_eq!((d.ground_check_distance, d.ledge_check_distance, d.coyote_time), (2_000, 8_000, 100_000));
    let p = player_collision_config();
    assert_eq!((p.wall_check_distance, p.ledge_check_distance, p.coyote_time), (3_000, 12_000, 150_000));
    let n = npc_collision_config();
    assert_eq!((n.ceiling_check_distance, n.ledge_check_distance, n.coyote_time), (1_000, 6_000, 0));
}

#[test]
fn shots_and_respawns() {
    assert_eq!(shot_velocity(160_000, false), Velocity { x: 230_000, y: 0 });
    assert_eq!(shot_velocity(160_000, true), Velocity { x: -230_000, y: 0 });
    assert_eq!(free_displacement(&Velocity { x: -230_000, y: 5 }, 100_000), Vector::new(-23_000, 0));
    assert_eq!(respawn_position(Some(Vector::new(3, -4))), Vector::new(3, -4));
    assert_eq!(respawn_position(None), Vector::new(0, 0));
}
