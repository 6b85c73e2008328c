use vertical_shooter::effects::VisualKind;
use vertical_shooter::enemy::{load_enemies, EnemyKind, EnemyMovePattern};
use vertical_shooter::explosion::{spawn_explosion, explosion_system, ExplosionTag};
use vertical_shooter::geom::Vec2;
use vertical_shooter::player::MoveInput;
use vertical_shooter::score::Score;
use vertical_shooter::stage::{
    create_disp_text, get_stage_name, load_stages, reset_stage_waves, update_waves, Stage,
    StageDatabase, StageSetting, WaveAdvance,
};
use vertical_shooter::timer::{Timer, TimerMode};
use vertical_shooter::wave::{dist_total_exec, pick_enemy_kind, Wave};
use vertical_shooter::world::{
    enter_playing, exit_playing, playing_system, playing_tick, spawn_enemy_system, EnemyState,
    Entity, EntityData, TickInput, World,
};
use vertical_shooter::{game_state_transition, GameEvent, GameState};

fn wave_with_dist(dist: Vec<(EnemyKind, u32)>) -> Wave {
    Wave {
        number: 0,
        defeated_count: 0,
        target_count: 10,
        enemy_speed: 200_000,
        spawn_interval_ms: 100,
        enemy_distribution: dist,
    }
}

fn db_with_dist(dist: Vec<(EnemyKind, u32)>) -> StageDatabase {
    StageDatabase {
        settings: vec![StageSetting {
            name: String::from("Stage1"),
            background: VisualKind::Ground,
            waves: vec![wave_with_dist(dist)],
            current_index: 0,
        }],
        current_index: 0,
    }
}

fn world_for_spawning(dist: Vec<(EnemyKind, u32)>) -> World {
    let mut w = enter_playing(db_with_dist(dist));
    // The spawn timer runs at the wave's 100 ms interval.
    assert_eq!(w.spawn_timer.duration_ms, 100);
    w.spawn_timer = Timer::new(100, TimerMode::Repeating);
    w
}

#[test]
fn weighted_draw_picks_by_cumulative_weight() {
    let dist = vec![
        (EnemyKind::DinoStraight, 2u32),
        (EnemyKind::DinoZigzag, 3u32),
        (EnemyKind::DinoHoming, 1u32),
    ];
    assert_eq!(dist_total_exec(&dist), 6);
    assert_eq!(pick_enemy_kind(&dist, 0), EnemyKind::DinoStraight);
    assert_eq!(pick_enemy_kind(&dist, 1), EnemyKind::DinoStraight);
    assert_eq!(pick_enemy_kind(&dist, 2), EnemyKind::DinoZigzag);
    assert_eq!(pick_enemy_kind(&dist, 4), EnemyKind::DinoZigzag);
    assert_eq!(pick_enemy_kind(&dist, 5), EnemyKind::DinoHoming);
    // A draw beyond the total falls back to the default kind.
    assert_eq!(pick_enemy_kind(&dist, 6), EnemyKind::DinoStraight);
}

#[test]
fn zero_weight_kind_is_never_drawn() {
    let dist = vec![(EnemyKind::DinoStraight, 1u32), (EnemyKind::DinoZigzag, 0u32)];
    let total = dist_total_exec(&dist);
    assert_eq!(total, 1);
    for value in 0..total {
        assert_eq!(pick_enemy_kind(&dist, value), EnemyKind::DinoStraight);
    }
}

#[test]
fn spawning_from_a_zero_weight_distribution_never_yields_that_kind() {
    // The distribution maps the straight dino to weight one and the
    // zigzag dino to weight zero: across repeated spawns, only
    // straight dinos appear.
    let mut w = world_for_spawning(vec![
        (EnemyKind::DinoStraight, 1u32),
        (EnemyKind::DinoZigzag, 0u32),
    ]);
    let db = load_enemies();
    for round in 0..30 {
        spawn_enemy_system(&mut w, 100, &db);
        assert_eq!(w.entities.len(), 2 + round, "one enemy per completed interval");
        match &w.entities[w.entities.len() - 1].data {
            EntityData::EnemyData(es) => {
                assert!(matches!(es.pattern, EnemyMovePattern::Straight));
            },
            _ => panic!("an enemy was expected"),
        }
        let x = w.entities[w.entities.len() - 1].pos.x;
        assert!((-210_000..210_000).contains(&x));
        assert_eq!(w.entities[w.entities.len() - 1].pos.y, 340_000);
    }
}

#[test]
fn empty_and_zero_sum_distributions_fall_back_without_panic() {
    let db = load_enemies();
    let mut empty = world_for_spawning(vec![]);
    spawn_enemy_system(&mut empty, 100, &db);
    assert_eq!(empty.entities.len(), 2);
    let mut zero = world_for_spawning(vec![(EnemyKind::DinoZigzag, 0u32)]);
    spawn_enemy_system(&mut zero, 100, &db);
    assert_eq!(zero.entities.len(), 2);
    match &zero.entities[1].data {
        EntityData::EnemyData(es) => {
            assert!(matches!(es.pattern, EnemyMovePattern::Straight));
        },
        _ => panic!("an enemy was expected"),
    }
}

#[test]
fn unknown_kind_falls_back_to_the_default_definition() {
    let mut catalog = load_enemies();
    catalog.defs.truncate(1);
    let mut w = world_for_spawning(vec![(EnemyKind::DinoHoming, 1u32)]);
    spawn_enemy_system(&mut w, 100, &catalog);
    assert_eq!(w.entities.len(), 2);
    match &w.entities[1].data {
        EntityData::EnemyData(es) => {
            assert!(matches!(es.pattern, EnemyMovePattern::Straight));
        },
        _ => panic!("an enemy was expected"),
    }
}

#[test]
fn no_spawn_without_a_live_player() {
    let mut w = world_for_spawning(vec![(EnemyKind::DinoStraight, 1u32)]);
    w.entities.clear();
    let db = load_enemies();
    spawn_enemy_system(&mut w, 100, &db);
    assert!(w.entities.is_empty());
}

#[test]
fn no_spawn_before_the_interval_completes() {
    let mut w = world_for_spawning(vec![(EnemyKind::DinoStraight, 1u32)]);
    let db = load_enemies();
    spawn_enemy_system(&mut w, 99, &db);
    assert_eq!(w.entities.len(), 1);
}

#[test]
fn stage_catalog_holds_three_stages_of_three_waves() {
    let db = load_stages();
    assert_eq!(db.settings.len(), 3);
    assert_eq!(db.current_index, 0);
    assert_eq!(db.settings[0].name, "Stage1");
    assert_eq!(db.settings[1].name, "Stage2");
    assert_eq!(db.settings[2].name, "Stage3");
    assert!(matches!(db.settings[1].background, VisualKind::Ocean));
    for s in &db.settings {
        assert_eq!(s.waves.len(), 3);
        assert_eq!(s.current_index, 0);
        assert_eq!(s.waves[0].target_count, 10);
        assert_eq!(s.waves[1].target_count, 20);
        assert_eq!(s.waves[2].target_count, 10);
        for wv in &s.waves {
            assert_eq!(wv.defeated_count, 0);
        }
    }
    assert_eq!(db.settings[0].waves[0].enemy_speed, 200_000);
    assert_eq!(db.settings[0].waves[0].spawn_interval_ms, 2_000);
    assert_eq!(db.settings[0].waves[1].spawn_interval_ms, 300);
}

#[test]
fn wave_advances_when_the_target_is_met() {
    let mut db = load_stages();
    let mut timer = Timer::new(2_000, TimerMode::Repeating);
    db.settings[0].waves[0].defeated_count = 10;
    let r = update_waves(&mut db, &mut timer);
    assert_eq!(r, WaveAdvance::Advanced);
    assert_eq!(db.settings[0].current_index, 1);
    assert_eq!(timer.duration_ms, 300);
    assert!(!timer.paused);
}

#[test]
fn wave_stays_short_of_the_target() {
    let mut db = load_stages();
    let mut timer = Timer::new(2_000, TimerMode::Repeating);
    db.settings[0].waves[0].defeated_count = 9;
    let r = update_waves(&mut db, &mut timer);
    assert_eq!(r, WaveAdvance::Stay);
    assert_eq!(db.settings[0].current_index, 0);
}

#[test]
fn final_wave_signals_the_clear_and_pauses_spawning() {
    let mut db = load_stages();
    let mut timer = Timer::new(100, TimerMode::Repeating);
    db.settings[0].current_index = 2;
    db.settings[0].waves[2].defeated_count = 10;
    let r = update_waves(&mut db, &mut timer);
    assert_eq!(r, WaveAdvance::Cleared);
    assert!(timer.paused);
}

#[test]
fn resetting_a_stage_rewinds_waves_and_counts() {
    let mut db = load_stages();
    db.settings[0].current_index = 2;
    db.settings[0].waves[1].defeated_count = 7;
    reset_stage_waves(&mut db);
    assert_eq!(db.settings[0].current_index, 0);
    assert_eq!(db.settings[0].waves[1].defeated_count, 0);
}

#[test]
fn stage_selection_wraps_both_ways() {
    let mut db = load_stages();
    db.select_next();
    assert_eq!(db.current_index, 1);
    db.select_next();
    db.select_next();
    assert_eq!(db.current_index, 0);
    db.select_prev();
    assert_eq!(db.current_index, 2);
}

#[test]
fn select_screen_text_marks_the_selection() {
    let mut db = load_stages();
    assert_eq!(create_disp_text(&db), " > Stage1\n\n   Stage2\n\n   Stage3\n\n");
    db.select_next();
    assert_eq!(create_disp_text(&db), "   Stage1\n\n > Stage2\n\n   Stage3\n\n");
    assert_eq!(get_stage_name(Stage::Stage3), "Stage3");
}

#[test]
fn mode_transitions_follow_the_flow() {
    assert_eq!(
        game_state_transition(GameState::Title, GameEvent::StartPressed),
        GameState::StageSelect
    );
    assert_eq!(
        game_state_transition(GameState::StageSelect, GameEvent::StageChosen),
        GameState::Playing
    );
    assert_eq!(
        game_state_transition(GameState::Playing, GameEvent::StageCleared),
        GameState::Clear
    );
    assert_eq!(
        game_state_transition(GameState::Clear, GameEvent::RestartPressed),
        GameState::Playing
    );
    assert_eq!(
        game_state_transition(GameState::Playing, GameEvent::GameOverConfirmed),
        GameState::Title
    );
    // An event that does not apply leaves the mode unchanged.
    assert_eq!(
        game_state_transition(GameState::Title, GameEvent::RestartPressed),
        GameState::Title
    );
}

#[test]
fn entering_play_builds_a_fresh_session() {
    let w = enter_playing(load_stages());
    assert_eq!(w.entities.len(), 1);
    assert!(w.entities[0].alive);
    assert!(matches!(w.entities[0].data, EntityData::PlayerData(_)));
    assert_eq!(w.entities[0].pos, Vec2 { x: 0, y: -300_000 });
    assert_eq!(w.score.score, 0);
    assert_eq!(w.spawn_timer.duration_ms, 2_000);
    assert!(w.explosions.is_empty());
    assert!(w.dead_timer.is_none());
}

#[test]
fn leaving_play_tears_the_session_down() {
    let mut w = enter_playing(load_stages());
    w.explosions.push(vertical_shooter::explosion::Explosion {
        pos: Vec2 { x: 0, y: 0 },
        anim: vertical_shooter::animation::AnimationConfig::new(
            0,
            3,
            10,
            vertical_shooter::animation::AnimationType::Once,
        ),
        frame_index: 0,
        tag: ExplosionTag::Enemy,
    });
    exit_playing(&mut w);
    assert!(w.entities.is_empty());
    assert!(w.explosions.is_empty());
}

#[test]
fn game_over_waits_for_the_delay_then_confirms() {
    let mut w = enter_playing(load_stages());
    w.entities.clear();
    // Nothing to wait for: the delay timer arms and runs.
    let to_title = playing_system(&mut w, 1_000, true);
    assert!(!to_title);
    assert!(!w.game_over_shown);
    let to_title = playing_system(&mut w, 2_000, false);
    assert!(w.game_over_shown);
    assert!(!to_title);
    let to_title = playing_system(&mut w, 100, true);
    assert!(to_title);
}

#[test]
fn game_over_is_held_back_while_the_death_explosion_plays() {
    let mut w = enter_playing(load_stages());
    w.entities.clear();
    spawn_explosion(&mut w.explosions, Vec2 { x: 0, y: 0 }, ExplosionTag::Player);
    let to_title = playing_system(&mut w, 5_000, true);
    assert!(!to_title);
    assert!(w.dead_timer.is_none());
}

#[test]
fn explosions_play_through_and_disappear() {
    let mut explosions = Vec::new();
    spawn_explosion(&mut explosions, Vec2 { x: 0, y: 0 }, ExplosionTag::Enemy);
    // Ten frames a second: one frame per 100 ms, four frames in all.
    for _ in 0..3 {
        explosion_system(&mut explosions, 100);
        assert_eq!(explosions.len(), 1);
    }
    assert_eq!(explosions[0].frame_index, 3);
    explosion_system(&mut explosions, 100);
    assert!(explosions.is_empty());
}

#[test]
fn a_full_tick_runs_every_phase() {
    let mut w = enter_playing(load_stages());
    let db = load_enemies();
    let input = TickInput {
        delta_ms: 100,
        movement: MoveInput { left: false, right: true, down: false, up: false },
        fire_held: true,
        confirm_pressed: false,
        sway: 0,
    };
    for _ in 0..50 {
        let (out, _) = playing_tick(&mut w, &db, input);
        assert!(!out.go_title);
        assert!(!out.stage_cleared);
    }
    assert_eq!(w.elapsed_ms, 5_000);
    // The ship drifted right and stayed inside the play field.
    let ship = &w.entities[0];
    assert!(matches!(ship.data, EntityData::PlayerData(_)));
    assert!(ship.pos.x > 0 && ship.pos.x <= 225_000);
}
