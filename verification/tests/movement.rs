use vertical_shooter::bullet::Bullet;
use vertical_shooter::collision::{Collider, ColliderShape, ColliderTag};
use vertical_shooter::effects::{AudioCue, VisualKind};
use vertical_shooter::enemy::EnemyMovePattern;
use vertical_shooter::geom::Vec2;
use vertical_shooter::player::Player;
use vertical_shooter::score::Score;
use vertical_shooter::stage::{StageDatabase, StageSetting};
use vertical_shooter::timer::{Timer, TimerMode};
use vertical_shooter::wave::Wave;
use vertical_shooter::world::{
    bullet_movement_system, enemy_fire_system, enemy_movement_system, flush_removals,
    player_shoot_system, EnemyState, Entity, EntityData, World,
};

fn rect(half: i64, tag: ColliderTag) -> Collider {
    Collider {
        shape: ColliderShape::Rectangle { half_extent: Vec2 { x: half, y: half } },
        tag,
    }
}

fn player_at(pos: Vec2) -> Entity {
    let mut p = Player::new();
    p.invincible_ms = 0;
    Entity {
        pos,
        collider: rect(15_000, ColliderTag::Player),
        alive: true,
        data: EntityData::PlayerData(p),
    }
}

fn enemy_at(pos: Vec2, pattern: EnemyMovePattern) -> Entity {
    Entity {
        pos,
        collider: rect(15_000, ColliderTag::Enemy),
        alive: true,
        data: EntityData::EnemyData(EnemyState {
            pattern,
            fire_timer: Timer::new(1_000, TimerMode::Repeating),
        }),
    }
}

fn bullet_at(pos: Vec2, is_player: bool) -> Entity {
    let speed: i64 = if is_player { 600_000 } else { 400_000 };
    Entity {
        pos,
        collider: rect(1_500, ColliderTag::Bullet { from_player: is_player }),
        alive: true,
        data: EntityData::BulletData(Bullet { is_player, speed }),
    }
}

/// A single-stage database whose one wave moves enemies at 200 px/s.
fn slow_db() -> StageDatabase {
    StageDatabase {
        settings: vec![StageSetting {
            name: String::from("Stage1"),
            background: VisualKind::Ground,
            waves: vec![Wave {
                number: 0,
                defeated_count: 0,
                target_count: 10,
                enemy_speed: 200_000,
                spawn_interval_ms: 2_000,
                enemy_distribution: vec![],
            }],
            current_index: 0,
        }],
        current_index: 0,
    }
}

fn world_of(entities: Vec<Entity>) -> World {
    World {
        entities,
        explosions: vec![],
        score: Score::new(),
        stage_db: slow_db(),
        spawn_timer: Timer::new(2_000, TimerMode::Repeating),
        shoot_cooldown: Timer::new(2_000, TimerMode::Repeating),
        dead_timer: None,
        game_over_shown: false,
        elapsed_ms: 0,
    }
}

#[test]
fn straight_enemies_fall_at_wave_speed() {
    let mut w = world_of(vec![enemy_at(Vec2 { x: 5_000, y: 100_000 }, EnemyMovePattern::Straight)]);
    // 200 px/s for 100 ms: 20 px = 20_000 milli-pixels straight down.
    enemy_movement_system(&mut w, 100, 0);
    assert_eq!(w.entities[0].pos, Vec2 { x: 5_000, y: 80_000 });
    assert!(w.entities[0].alive);
}

#[test]
fn zigzag_enemies_sway_by_the_factor() {
    let mut w = world_of(vec![enemy_at(Vec2 { x: 0, y: 100_000 }, EnemyMovePattern::Zigzag)]);
    // Full positive sway scales the downward speed fully sideways.
    enemy_movement_system(&mut w, 100, 1_000);
    assert_eq!(w.entities[0].pos, Vec2 { x: 20_000, y: 80_000 });
    // Half negative sway moves half as far the other way.
    enemy_movement_system(&mut w, 100, -500);
    assert_eq!(w.entities[0].pos, Vec2 { x: 10_000, y: 60_000 });
}

#[test]
fn homing_enemies_step_toward_the_player() {
    let mut w = world_of(vec![
        player_at(Vec2 { x: 0, y: -300_000 }),
        enemy_at(Vec2 { x: 0, y: 100_000 }, EnemyMovePattern::Homing),
    ]);
    // The player is straight below: the whole step goes downward.
    enemy_movement_system(&mut w, 100, 0);
    assert_eq!(w.entities[1].pos, Vec2 { x: 0, y: 80_000 });
    // Diagonal pursuit moves on both axes, toward the player.
    w.entities[1].pos = Vec2 { x: 100_000, y: 100_000 };
    w.entities[0].pos = Vec2 { x: 0, y: 0 };
    enemy_movement_system(&mut w, 100, 0);
    let pos = w.entities[1].pos;
    assert!(pos.x < 100_000 && pos.y < 100_000);
    assert!(pos.x > 80_000 && pos.y > 80_000);
}

#[test]
fn homing_enemies_hold_still_without_a_player() {
    let mut w = world_of(vec![enemy_at(Vec2 { x: 7_000, y: 9_000 }, EnemyMovePattern::Homing)]);
    enemy_movement_system(&mut w, 100, 0);
    assert_eq!(w.entities[0].pos, Vec2 { x: 7_000, y: 9_000 });
}

#[test]
fn enemies_crossing_the_bottom_are_removed() {
    let mut w = world_of(vec![enemy_at(Vec2 { x: 0, y: -379_000 }, EnemyMovePattern::Straight)]);
    enemy_movement_system(&mut w, 100, 0);
    assert!(!w.entities[0].alive);
    flush_removals(&mut w.entities);
    assert!(w.entities.is_empty());
}

#[test]
fn bullets_travel_by_ownership_and_leave_the_field() {
    let mut w = world_of(vec![
        bullet_at(Vec2 { x: 0, y: 0 }, true),
        bullet_at(Vec2 { x: 0, y: 0 }, false),
    ]);
    bullet_movement_system(&mut w, 100);
    // 600 px/s up for the player's, 400 px/s down for the enemy's.
    assert_eq!(w.entities[0].pos.y, 60_000);
    assert_eq!(w.entities[1].pos.y, -40_000);
    assert!(w.entities[0].alive && w.entities[1].alive);
    // Past the top line the player bullet is removed.
    w.entities[0].pos.y = 350_000;
    bullet_movement_system(&mut w, 100);
    assert_eq!(w.entities[0].pos.y, 410_000);
    assert!(!w.entities[0].alive);
}

#[test]
fn enemy_fire_releases_a_bullet_and_restarts_the_timer() {
    let mut w = world_of(vec![enemy_at(Vec2 { x: 12_000, y: 50_000 }, EnemyMovePattern::Straight)]);
    enemy_fire_system(&mut w, 999);
    assert_eq!(w.entities.len(), 1);
    enemy_fire_system(&mut w, 1);
    assert_eq!(w.entities.len(), 2);
    let bullet = &w.entities[1];
    assert_eq!(bullet.pos, Vec2 { x: 12_000, y: 50_000 });
    match bullet.data {
        EntityData::BulletData(b) => {
            assert!(!b.is_player);
            assert_eq!(b.speed, 400_000);
        },
        _ => panic!("an enemy bullet was expected"),
    }
    match w.entities[0].data {
        EntityData::EnemyData(es) => assert_eq!(es.fire_timer.elapsed_ms, 0),
        _ => panic!("the enemy was expected to stay"),
    }
}

#[test]
fn shooting_waits_for_the_synced_cooldown() {
    let mut w = world_of(vec![player_at(Vec2 { x: 10_000, y: -300_000 })]);
    let mut cues: Vec<AudioCue> = Vec::new();
    // The first pass syncs the 2000 ms cooldown to the player's
    // 200 ms cadence, so no shot leaves yet.
    player_shoot_system(&mut w, true, 100, &mut cues);
    assert_eq!(w.entities.len(), 1);
    assert_eq!(w.shoot_cooldown.duration_ms, 200);
    // Completing the cadence releases one bullet above the ship.
    player_shoot_system(&mut w, true, 100, &mut cues);
    assert_eq!(w.entities.len(), 2);
    assert_eq!(w.entities[1].pos, Vec2 { x: 10_000, y: -270_000 });
    assert_eq!(cues, vec![AudioCue::Shoot]);
    // Without the key held, a ready cooldown fires nothing.
    player_shoot_system(&mut w, false, 200, &mut cues);
    assert_eq!(w.entities.len(), 2);
}

#[test]
fn flushing_twice_is_a_no_op() {
    let mut w = world_of(vec![
        player_at(Vec2 { x: 0, y: 0 }),
        enemy_at(Vec2 { x: 0, y: 100_000 }, EnemyMovePattern::Straight),
    ]);
    w.entities[1].alive = false;
    flush_removals(&mut w.entities);
    assert_eq!(w.entities.len(), 1);
    flush_removals(&mut w.entities);
    assert_eq!(w.entities.len(), 1);
}
