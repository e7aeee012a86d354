use gameplay_sandbox::player::{
    movement_input_axes, shoot_step, shooting_input_direction, GridDirection, Invincibility,
    PlayerBundle, ShootSquash, Weapon, BULLET_LIFETIME_NS, PLAYER_FIRE_RATE_NS,
    PLAYER_INVINCIBILITY_NS, PLAYER_SHOOT_SQUASH_NS, PLAYER_START_HEALTH,
};
use gameplay_sandbox::timer::OnceTimer;
use std::time::Duration;

#[test]
fn durations_match_the_float_constants() {
    assert_eq!(Duration::from_secs_f32(0.3).as_nanos() as u64, PLAYER_FIRE_RATE_NS);
    assert_eq!(Duration::from_secs_f32(1.0).as_nanos() as u64, PLAYER_INVINCIBILITY_NS);
    assert_eq!(Duration::from_secs_f32(0.18).as_nanos() as u64, PLAYER_SHOOT_SQUASH_NS);
    assert_eq!(Duration::from_secs_f32(1.5).as_nanos() as u64, BULLET_LIFETIME_NS);
}

#[test]
fn tick_accumulates_until_duration() {
    let mut t = OnceTimer::new(100);
    t.tick(30);
    assert_eq!(t.elapsed_ns(), 30);
    assert!(!t.is_finished());
    assert!(!t.just_finished());
    t.tick(50);
    assert_eq!(t.elapsed_ns(), 80);
    assert!(!t.is_finished());
    t.tick(50);
    assert_eq!(t.elapsed_ns(), 100);
    assert!(t.is_finished());
    assert!(t.just_finished());
}

#[test]
fn finished_timer_stays_finished() {
    let mut t = OnceTimer::new(10);
    t.tick(10);
    assert!(t.is_finished() && t.just_finished());
    t.tick(5);
    assert!(t.is_finished());
    assert!(!t.just_finished());
    assert_eq!(t.elapsed_ns(), 10);
}

#[test]
fn timer_finishes_when_time_adds_up() {
    let mut t = OnceTimer::new(1000);
    for _ in 0..9 {
        t.tick(100);
        assert!(!t.is_finished());
    }
    t.tick(100);
    assert!(t.is_finished());
}

#[test]
fn reset_starts_over() {
    let mut t = OnceTimer::new(10);
    t.tick(20);
    t.reset();
    assert_eq!(t.elapsed_ns(), 0);
    assert!(!t.is_finished());
    assert!(!t.just_finished());
    assert_eq!(t.duration_ns(), 10);
}

#[test]
fn elapsed_timer_finishes_on_first_tick_even_of_zero() {
    let mut t = OnceTimer::new_elapsed(500);
    assert!(!t.is_finished());
    t.tick(0);
    assert!(t.is_finished());
    assert!(t.just_finished());
}

#[test]
fn huge_tick_clamps_at_duration() {
    let mut t = OnceTimer::new(u64::MAX);
    t.tick(u64::MAX - 1);
    assert!(!t.is_finished());
    t.tick(u64::MAX);
    assert!(t.is_finished());
    assert_eq!(t.elapsed_ns(), u64::MAX);
}

#[test]
fn shooting_direction_priority() {
    assert_eq!(shooting_input_direction(true, true, true, true), GridDirection { x: -1, y: 0 });
    assert_eq!(shooting_input_direction(false, true, true, false), GridDirection { x: 1, y: 0 });
    assert_eq!(shooting_input_direction(false, false, true, true), GridDirection { x: 0, y: 1 });
    assert_eq!(shooting_input_direction(false, false, false, true), GridDirection { x: 0, y: -1 });
    assert!(shooting_input_direction(false, false, false, false).is_zero());
}

#[test]
fn movement_axes_cancel() {
    assert_eq!(movement_input_axes(true, true, false, false), GridDirection { x: 0, y: 0 });
    assert_eq!(movement_input_axes(true, false, true, false), GridDirection { x: -1, y: 1 });
    assert_eq!(movement_input_axes(false, true, false, true), GridDirection { x: 1, y: -1 });
}

#[test]
fn fresh_player_is_not_invincible() {
    let mut inv = Invincibility::default();
    assert!(!inv.is_active());
    inv.tick(0);
    assert!(!inv.is_active());
    inv.start();
    assert!(inv.is_active());
    inv.tick(PLAYER_INVINCIBILITY_NS - 1);
    assert!(inv.is_active());
    inv.tick(1);
    assert!(!inv.is_active());
}

#[test]
fn invincibility_window_lasts_one_second() {
    let mut inv = Invincibility::default();
    assert!(!inv.is_active());
    inv.start();
    assert!(inv.is_active());
    inv.tick(Duration::from_millis(999).as_nanos() as u64);
    assert!(inv.is_active());
    inv.tick(Duration::from_millis(1).as_nanos() as u64);
    assert!(!inv.is_active());
}

#[test]
fn finished_timer_constructor() {
    let mut t = OnceTimer::new_finished(40);
    assert!(t.is_finished());
    assert!(!t.just_finished());
    t.tick(10);
    assert!(t.is_finished());
    assert!(!t.just_finished());
    assert_eq!(t.elapsed_ns(), 40);
}

#[test]
fn weapon_fire_rate() {
    let mut weapon = Weapon::new(PLAYER_FIRE_RATE_NS);
    let mut squash = ShootSquash::new();
    let aim = GridDirection { x: 1, y: 0 };
    let step = 16_666_667u64;
    assert!(shoot_step(&mut weapon, &mut squash, step, aim));
    assert!(!squash.timer().is_finished());
    assert_eq!(squash.timer().elapsed_ns(), 0);
    let mut shots = 1;
    let mut frames = 0;
    while shots < 3 {
        frames += 1;
        if shoot_step(&mut weapon, &mut squash, step, aim) {
            shots += 1;
            // 300_000_012 ns needs 19 steps of 16_666_667 ns (18 give 300_000_006).
            assert_eq!(frames % 19, 0);
        }
    }
    assert_eq!(frames, 38);
}

#[test]
fn no_shot_without_aim() {
    let mut weapon = Weapon::new(PLAYER_FIRE_RATE_NS);
    let mut squash = ShootSquash::new();
    assert!(!shoot_step(&mut weapon, &mut squash, 1, GridDirection::zero()));
    assert!(weapon.can_fire());
    assert!(shoot_step(&mut weapon, &mut squash, 1, GridDirection { x: 0, y: -1 }));
    assert!(!weapon.can_fire());
}

#[test]
fn fresh_player() {
    let b = PlayerBundle::new();
    assert_eq!(b.health.0, PLAYER_START_HEALTH);
    assert_eq!(b.health.0, 5);
    assert!(!b.weapon.can_fire());
    assert!(!b.invincibility.is_active());
    assert!(!b.shoot_squash.timer().is_finished());
    assert_eq!(b.shoot_squash.timer().elapsed_ns(), PLAYER_SHOOT_SQUASH_NS);
}
