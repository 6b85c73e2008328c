use vertical_shooter::animation::{AnimationConfig, AnimationType};
use vertical_shooter::geom::{clamp_i64, isqrt64, Vec2};
use vertical_shooter::item::{apply_item_effect, roll_item_drop, ItemType};
use vertical_shooter::player::{
    blink_visible, heart_states, player_movement, MoveInput, Player,
};
use vertical_shooter::score::Score;
use vertical_shooter::timer::{Timer, TimerMode};

fn vulnerable_player() -> Player {
    let mut p = Player::new();
    p.invincible_ms = 0;
    p
}

#[test]
fn fresh_player_state() {
    let p = Player::new();
    assert_eq!(p.max_hp, 3);
    assert_eq!(p.hp, 3);
    assert_eq!(p.invincible_ms, 1_000);
    assert_eq!(p.shoot_interval_ms, 200);
    assert!(!p.piercing);
    assert!(p.is_invincible());
}

#[test]
fn damage_decrements_and_opens_window() {
    let mut p = vulnerable_player();
    let died = p.apply_damage();
    assert!(!died);
    assert_eq!(p.hp, 2);
    assert_eq!(p.invincible_ms, 2_000);
}

#[test]
fn damage_while_invincible_changes_nothing() {
    let mut p = Player::new();
    assert!(p.invincible_ms > 0);
    let before = p;
    let died = p.apply_damage();
    assert!(!died);
    assert_eq!(p, before);
}

#[test]
fn lethal_damage_reports_death() {
    let mut p = vulnerable_player();
    p.hp = 1;
    let died = p.apply_damage();
    assert!(died);
    assert_eq!(p.hp, 0);
}

#[test]
fn invincibility_runs_down_and_stops_at_zero() {
    let mut p = Player::new();
    p.tick_invincibility(400);
    assert_eq!(p.invincible_ms, 600);
    p.tick_invincibility(10_000);
    assert_eq!(p.invincible_ms, 0);
    assert!(!p.is_invincible());
}

#[test]
fn three_heals_at_full_health_stay_clamped() {
    let mut p = vulnerable_player();
    assert_eq!(p.hp, 3);
    assert_eq!(p.max_hp, 3);
    apply_item_effect(&mut p, ItemType::Heal);
    apply_item_effect(&mut p, ItemType::Heal);
    apply_item_effect(&mut p, ItemType::Heal);
    assert_eq!(p.hp, 3);
}

#[test]
fn heal_restores_one_point_below_cap() {
    let mut p = vulnerable_player();
    p.hp = 1;
    apply_item_effect(&mut p, ItemType::Heal);
    assert_eq!(p.hp, 2);
}

#[test]
fn rapid_fire_twice_quarters_the_interval() {
    let mut p = vulnerable_player();
    assert_eq!(p.shoot_interval_ms, 200);
    apply_item_effect(&mut p, ItemType::RapidFire);
    assert_eq!(p.shoot_interval_ms, 100);
    apply_item_effect(&mut p, ItemType::RapidFire);
    assert_eq!(p.shoot_interval_ms, 50);
}

#[test]
fn rapid_fire_never_reaches_zero() {
    let mut p = vulnerable_player();
    p.shoot_interval_ms = 1;
    apply_item_effect(&mut p, ItemType::RapidFire);
    assert_eq!(p.shoot_interval_ms, 1);
}

#[test]
fn piercing_shot_sets_and_keeps_the_flag() {
    let mut p = vulnerable_player();
    apply_item_effect(&mut p, ItemType::PiercingShot);
    assert!(p.piercing);
    apply_item_effect(&mut p, ItemType::PiercingShot);
    assert!(p.piercing);
}

#[test]
fn item_drop_roll_matches_the_chance_and_kinds() {
    assert_eq!(roll_item_drop(0, 0), Some(ItemType::RapidFire));
    assert_eq!(roll_item_drop(29, 1), Some(ItemType::PiercingShot));
    assert_eq!(roll_item_drop(29, 2), Some(ItemType::Heal));
    assert_eq!(roll_item_drop(30, 0), None);
    assert_eq!(roll_item_drop(99, 2), None);
}

#[test]
fn once_timer_finishes_and_stays_finished() {
    let mut t = Timer::new(1_000, TimerMode::Once);
    t.tick(400);
    assert!(!t.is_finished());
    assert_eq!(t.remaining_ms(), 600);
    t.tick(600);
    assert!(t.is_finished());
    t.tick(100);
    assert!(t.is_finished());
    assert_eq!(t.elapsed_ms, 1_000);
}

#[test]
fn repeating_timer_wraps_with_remainder() {
    let mut t = Timer::new(300, TimerMode::Repeating);
    t.tick(250);
    assert!(!t.is_finished());
    t.tick(100);
    assert!(t.is_finished());
    assert_eq!(t.elapsed_ms, 50);
    t.tick(100);
    assert!(!t.is_finished());
}

#[test]
fn paused_timer_ignores_ticks() {
    let mut t = Timer::new(500, TimerMode::Once);
    t.pause();
    t.tick(1_000);
    assert!(!t.is_finished());
    assert_eq!(t.elapsed_ms, 0);
}

#[test]
fn reset_starts_the_countdown_over() {
    let mut t = Timer::new(200, TimerMode::Repeating);
    t.tick(200);
    assert!(t.is_finished());
    t.reset();
    assert!(!t.is_finished());
    assert_eq!(t.elapsed_ms, 0);
}

#[test]
fn movement_integrates_and_clamps() {
    let mut pos = Vec2::new(0, 0);
    let right = MoveInput { left: false, right: true, down: false, up: false };
    // 500 px/s for 100 ms moves 50 px = 50_000 milli-pixels.
    player_movement(&mut pos, right, 100);
    assert_eq!(pos.x, 50_000);
    assert_eq!(pos.y, 0);
    // A long enough hold pins the ship to the horizontal bound.
    player_movement(&mut pos, right, 1_000);
    assert_eq!(pos.x, 225_000);
    let up_left = MoveInput { left: true, right: false, down: false, up: true };
    player_movement(&mut pos, up_left, 1_000);
    assert_eq!(pos.x, -225_000);
    assert_eq!(pos.y, 340_000);
}

#[test]
fn opposite_keys_cancel() {
    let mut pos = Vec2::new(1_000, -2_000);
    let all = MoveInput { left: true, right: true, down: true, up: true };
    player_movement(&mut pos, all, 500);
    assert_eq!(pos, Vec2::new(1_000, -2_000));
}

#[test]
fn blink_alternates_by_period() {
    assert!(blink_visible(0));
    assert!(blink_visible(99));
    assert!(!blink_visible(100));
    assert!(!blink_visible(199));
    assert!(blink_visible(200));
}

#[test]
fn hearts_fill_up_to_current_hp() {
    let hearts = heart_states(1, 3);
    assert_eq!(hearts, vec![true, false, false]);
    assert_eq!(heart_states(3, 3), vec![true, true, true]);
    assert_eq!(heart_states(0, 2), vec![false, false]);
}

#[test]
fn score_awards_fixed_increments() {
    let mut s = Score::new();
    s.add_kill_award();
    s.add_kill_award();
    assert_eq!(s.score, 200);
}

#[test]
fn score_text_is_plain_decimal() {
    let mut s = Score::new();
    assert_eq!(s.score_text(), "0");
    s.score = 7;
    assert_eq!(s.score_text(), "7");
    s.score = 100;
    assert_eq!(s.score_text(), "100");
    s.score = 1_234_567_890;
    assert_eq!(s.score_text(), "1234567890");
}

#[test]
fn isqrt_exact_values() {
    assert_eq!(isqrt64(0), 0);
    assert_eq!(isqrt64(1), 1);
    assert_eq!(isqrt64(15), 3);
    assert_eq!(isqrt64(16), 4);
    assert_eq!(isqrt64(1_000_000), 1_000);
    assert_eq!(isqrt64(999_999), 999);
}

#[test]
fn clamp_holds_the_bounds() {
    assert_eq!(clamp_i64(5, -10, 10), 5);
    assert_eq!(clamp_i64(-50, -10, 10), -10);
    assert_eq!(clamp_i64(50, -10, 10), 10);
}

#[test]
fn animation_loops_and_play_once_ends() {
    let mut looping = AnimationConfig::new(0, 1, 10, AnimationType::Loop);
    let mut idx: usize = 0;
    // 10 fps: one frame per 100 ms.
    assert!(!looping.step(&mut idx, 100));
    assert_eq!(idx, 1);
    assert!(!looping.step(&mut idx, 100));
    assert_eq!(idx, 0);

    let mut once = AnimationConfig::new(0, 1, 10, AnimationType::Once);
    let mut jdx: usize = 0;
    assert!(!once.step(&mut jdx, 100));
    assert_eq!(jdx, 1);
    assert!(once.step(&mut jdx, 100));
}
