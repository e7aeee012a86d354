use gameplay_sandbox::combat::{
    bullet_enemy_collision, resolve_bullet_hits, BulletLifetime, ContactAction, ContactRound,
};
use gameplay_sandbox::effects::{
    death_sequence_inactive, finish_game_over_delay, fragment_plan, random_extra_count, Fragment,
    PendingGameOver,
};
use gameplay_sandbox::game_state::{reset_score_on_restart, resume_on_restart, GameState, Score};
use gameplay_sandbox::player::{Health, Invincibility};
use gameplay_sandbox::random::{RandomSource, WithJitter};
use gameplay_sandbox::ui::{
    game_over_overlay_visible, hp_display_value, hp_label, restart_requested, score_label,
    ButtonInteraction,
};

#[test]
fn greedy_bullet_hits() {
    let table = vec![vec![true, true], vec![true, false], vec![true, true]];
    let hits = resolve_bullet_hits(&table, 2);
    assert_eq!(hits, vec![Some(0), None, Some(1)]);
}

#[test]
fn enemy_hit_at_most_once_and_score_counts_kills() {
    let table = vec![
        vec![false, true, true],
        vec![false, true, false],
        vec![true, false, false],
        vec![false, false, true],
    ];
    let mut score = Score(7);
    let hits = bullet_enemy_collision(&table, 3, &mut score);
    assert_eq!(hits, vec![Some(1), None, Some(0), Some(2)]);
    assert_eq!(score.0, 10);
}

#[test]
fn no_bullets_or_no_enemies() {
    let mut score = Score(3);
    assert!(bullet_enemy_collision(&Vec::new(), 4, &mut score).is_empty());
    assert_eq!(score.0, 3);
    let table = vec![Vec::new(), Vec::new()];
    assert_eq!(bullet_enemy_collision(&table, 0, &mut score), vec![None, None]);
    assert_eq!(score.0, 3);
}

#[test]
fn one_hit_per_round() {
    let mut inv = Invincibility::default();
    inv.tick(1);
    let mut health = Health(5);
    let mut round = ContactRound::begin(&inv);
    assert!(round.can_take_damage());
    assert_eq!(round.step(&mut health, &mut inv, false), ContactAction::NoHit);
    assert_eq!(round.step(&mut health, &mut inv, true), ContactAction::Hit);
    assert_eq!(health.0, 4);
    assert!(inv.is_active());
    assert_eq!(round.step(&mut health, &mut inv, true), ContactAction::NoHit);
    assert_eq!(health.0, 4);
    assert!(!round.is_over());
}

#[test]
fn no_damage_while_invincible() {
    let mut inv = Invincibility::default();
    inv.tick(1);
    inv.start();
    inv.tick(999_999_999);
    let mut health = Health(2);
    let mut round = ContactRound::begin(&inv);
    assert!(!round.can_take_damage());
    assert_eq!(round.step(&mut health, &mut inv, true), ContactAction::NoHit);
    assert_eq!(health.0, 2);
    inv.tick(1);
    let mut round = ContactRound::begin(&inv);
    assert_eq!(round.step(&mut health, &mut inv, true), ContactAction::Hit);
    assert_eq!(health.0, 1);
}

#[test]
fn lethal_hit_ends_round_at_zero() {
    let mut inv = Invincibility::default();
    inv.tick(5);
    let mut health = Health(1);
    let mut round = ContactRound::begin(&inv);
    assert_eq!(round.step(&mut health, &mut inv, true), ContactAction::LethalHit);
    assert_eq!(health.0, 0);
    assert!(round.is_over());
    // the window was not reopened by a lethal hit
    assert!(!inv.is_active());
}

#[test]
fn damage_clamps_at_zero() {
    let mut inv = Invincibility::default();
    inv.tick(5);
    let mut health = Health(-3);
    let mut round = ContactRound::begin(&inv);
    assert_eq!(round.step(&mut health, &mut inv, true), ContactAction::LethalHit);
    assert_eq!(health.0, 0);
}

#[test]
fn bullet_lifetime_expires() {
    let mut life = BulletLifetime::new(1_500_000_000);
    assert!(!life.tick_expired(1_000_000_000));
    assert!(life.tick_expired(500_000_000));
}

#[test]
fn game_over_after_death_sequence() {
    let mut pending = PendingGameOver::default();
    assert!(death_sequence_inactive(&pending));
    assert_eq!(finish_game_over_delay(&mut pending, 10), None);
    pending.begin_death_sequence(100);
    assert!(!death_sequence_inactive(&pending));
    assert_eq!(finish_game_over_delay(&mut pending, 60), None);
    assert!(!death_sequence_inactive(&pending));
    assert_eq!(finish_game_over_delay(&mut pending, 40), Some(GameState::GameOver));
    assert!(death_sequence_inactive(&pending));
}

#[test]
fn restart_resets_session() {
    let mut score = Score(42);
    reset_score_on_restart(false, &mut score);
    assert_eq!(score.0, 42);
    reset_score_on_restart(true, &mut score);
    assert_eq!(score.0, 0);
    assert_eq!(resume_on_restart(true), Some(GameState::Playing));
    assert_eq!(resume_on_restart(false), None);
    let mut pending = PendingGameOver::default();
    pending.begin_death_sequence(5);
    pending.clear_on_restart(false);
    assert!(!death_sequence_inactive(&pending));
    pending.clear_on_restart(true);
    assert!(death_sequence_inactive(&pending));
    assert_eq!(GameState::default(), GameState::Playing);
    assert_eq!(Score::default().0, 0);
}

#[test]
fn burst_fragments_row_by_row() {
    let plan = fragment_plan(3, 2);
    assert_eq!(plan.len(), 11);
    assert_eq!(plan[0], Fragment::Core { col: 0, row: 0 });
    assert_eq!(plan[1], Fragment::Core { col: 1, row: 0 });
    assert_eq!(plan[5], Fragment::Core { col: 2, row: 1 });
    assert_eq!(plan[8], Fragment::Core { col: 2, row: 2 });
    assert_eq!(plan[9], Fragment::Extra);
    assert_eq!(plan[10], Fragment::Extra);
    assert!(fragment_plan(0, 0).is_empty());
}

#[test]
fn jitter_samples_stay_in_range() {
    let mut rng = RandomSource::from_seed(7);
    let j = WithJitter { value: 6usize, jitter: 2usize };
    let mut seen_low = false;
    let mut seen_high = false;
    for _ in 0..500 {
        let n = j.sample(&mut rng);
        assert!((4..=8).contains(&n));
        seen_low |= n == 4;
        seen_high |= n == 8;
    }
    assert!(seen_low && seen_high);
    let clipped = WithJitter { value: 1usize, jitter: 3usize };
    for _ in 0..200 {
        assert!(random_extra_count(&clipped, &mut rng) <= 4);
    }
    let fixed = WithJitter { value: 5usize, jitter: 0usize };
    assert_eq!(fixed.sample(&mut rng), 5);
}

#[test]
fn fresh_player_can_be_hit_at_once() {
    let mut inv = Invincibility::default();
    let mut health = Health(5);
    let mut round = ContactRound::begin(&inv);
    assert!(round.can_take_damage());
    assert_eq!(round.step(&mut health, &mut inv, true), ContactAction::Hit);
    assert_eq!(health.0, 4);
}

#[test]
fn kills_bounded_by_enemies() {
    let table = vec![vec![true], vec![true], vec![true]];
    let mut score = Score(0);
    let hits = bullet_enemy_collision(&table, 1, &mut score);
    assert_eq!(hits.len(), 3);
    assert_eq!(score.0, 1);
}

#[test]
fn same_seed_same_samples() {
    let mut a = RandomSource::from_seed(99);
    let mut b = RandomSource::from_seed(99);
    let j = WithJitter { value: 1000usize, jitter: 1000usize };
    for _ in 0..20 {
        assert_eq!(j.sample(&mut a), j.sample(&mut b));
    }
}

#[test]
fn hud_labels() {
    assert_eq!(hp_label(GameState::Playing, Some(5)), "HP: 5");
    assert_eq!(hp_label(GameState::Playing, Some(-2)), "HP: 0");
    assert_eq!(hp_label(GameState::Playing, None), "HP: 0");
    assert_eq!(hp_label(GameState::GameOver, Some(3)), "HP: 0");
    assert_eq!(hp_display_value(GameState::Playing, Some(12)), 12);
    assert_eq!(score_label(&Score(0)), "Score: 0");
    assert_eq!(score_label(&Score(1234)), "Score: 1234");
    assert_eq!(score_label(&Score(u32::MAX)), "Score: 4294967295");
}

#[test]
fn overlay_and_restart_button() {
    assert!(game_over_overlay_visible(GameState::GameOver));
    assert!(!game_over_overlay_visible(GameState::Playing));
    assert!(restart_requested(ButtonInteraction::Pressed));
    assert!(!restart_requested(ButtonInteraction::Hovered));
    assert!(!restart_requested(ButtonInteraction::Idle));
}
