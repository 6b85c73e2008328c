use vertical_shooter::bullet::Bullet;
use vertical_shooter::collision::{
    collision_system, overlaps, Collider, ColliderShape, ColliderTag,
};
use vertical_shooter::effects::{AudioCue, VisualKind};
use vertical_shooter::enemy::EnemyMovePattern;
use vertical_shooter::explosion::ExplosionTag;
use vertical_shooter::geom::Vec2;
use vertical_shooter::item::ItemType;
use vertical_shooter::player::Player;
use vertical_shooter::score::Score;
use vertical_shooter::stage::{StageDatabase, StageSetting};
use vertical_shooter::timer::{Timer, TimerMode};
use vertical_shooter::wave::Wave;
use vertical_shooter::world::{
    flush_removals, EnemyState, Entity, EntityData, World,
};

fn rect(half: i64, tag: ColliderTag) -> Collider {
    Collider {
        shape: ColliderShape::Rectangle { half_extent: Vec2 { x: half, y: half } },
        tag,
    }
}

fn player_entity(pos: Vec2, hp: i32, invincible_ms: u64, piercing: bool) -> Entity {
    let mut p = Player::new();
    p.hp = hp;
    p.invincible_ms = invincible_ms;
    p.piercing = piercing;
    Entity {
        pos,
        collider: rect(15_000, ColliderTag::Player),
        alive: true,
        data: EntityData::PlayerData(p),
    }
}

fn enemy_entity(pos: Vec2) -> Entity {
    Entity {
        pos,
        collider: rect(15_000, ColliderTag::Enemy),
        alive: true,
        data: EntityData::EnemyData(EnemyState {
            pattern: EnemyMovePattern::Straight,
            fire_timer: Timer::new(1_000, TimerMode::Repeating),
        }),
    }
}

fn player_bullet_entity(pos: Vec2) -> Entity {
    Entity {
        pos,
        collider: rect(1_500, ColliderTag::Bullet { from_player: true }),
        alive: true,
        data: EntityData::BulletData(Bullet { is_player: true, speed: 600_000 }),
    }
}

fn one_wave_db(target: u32) -> StageDatabase {
    StageDatabase {
        settings: vec![StageSetting {
            name: String::from("Stage1"),
            background: VisualKind::Ground,
            waves: vec![Wave {
                number: 0,
                defeated_count: 0,
                target_count: target,
                enemy_speed: 200_000,
                spawn_interval_ms: 2_000,
                enemy_distribution: vec![],
            }],
            current_index: 0,
        }],
        current_index: 0,
    }
}

fn world_with(entities: Vec<Entity>) -> World {
    World {
        entities,
        explosions: vec![],
        score: Score::new(),
        stage_db: one_wave_db(10),
        spawn_timer: Timer::new(2_000, TimerMode::Repeating),
        shoot_cooldown: Timer::new(2_000, TimerMode::Repeating),
        dead_timer: None,
        game_over_shown: false,
        elapsed_ms: 0,
    }
}

#[test]
fn boxes_touching_edge_to_edge_do_not_collide() {
    let h = ColliderShape::Rectangle { half_extent: Vec2 { x: 10_000, y: 10_000 } };
    // Touching exactly at the edge: excluded by the strict test.
    assert!(!overlaps(h, Vec2 { x: 0, y: 0 }, h, Vec2 { x: 20_000, y: 0 }));
    // One milli-pixel closer: colliding.
    assert!(overlaps(h, Vec2 { x: 0, y: 0 }, h, Vec2 { x: 19_999, y: 0 }));
    // Same on the vertical axis.
    assert!(!overlaps(h, Vec2 { x: 0, y: 0 }, h, Vec2 { x: 0, y: -20_000 }));
    assert!(overlaps(h, Vec2 { x: 0, y: 0 }, h, Vec2 { x: 0, y: -19_999 }));
}

#[test]
fn circles_collide_strictly_below_radius_sum() {
    let c1 = ColliderShape::Circle { radius: 6_000 };
    let c2 = ColliderShape::Circle { radius: 4_000 };
    assert!(!overlaps(c1, Vec2 { x: 0, y: 0 }, c2, Vec2 { x: 10_000, y: 0 }));
    assert!(overlaps(c1, Vec2 { x: 0, y: 0 }, c2, Vec2 { x: 9_999, y: 0 }));
    assert!(overlaps(c1, Vec2 { x: 0, y: 0 }, c2, Vec2 { x: 6_000, y: 6_000 }));
}

#[test]
fn capsules_use_the_box_test_and_mixed_pairs_never_collide() {
    let cap = ColliderShape::Capsule { half_extent: Vec2 { x: 10_000, y: 10_000 } };
    let rect = ColliderShape::Rectangle { half_extent: Vec2 { x: 10_000, y: 10_000 } };
    let circle = ColliderShape::Circle { radius: 50_000 };
    assert!(overlaps(cap, Vec2 { x: 0, y: 0 }, cap, Vec2 { x: 5_000, y: 0 }));
    assert!(!overlaps(cap, Vec2 { x: 0, y: 0 }, cap, Vec2 { x: 20_000, y: 0 }));
    // Mixed shape pairs have no test defined: never a collision.
    assert!(!overlaps(cap, Vec2 { x: 0, y: 0 }, rect, Vec2 { x: 0, y: 0 }));
    assert!(!overlaps(circle, Vec2 { x: 0, y: 0 }, rect, Vec2 { x: 0, y: 0 }));
}

#[test]
fn invincible_player_takes_no_damage_from_overlap() {
    let mut w = world_with(vec![
        player_entity(Vec2 { x: 0, y: 0 }, 3, 500, false),
        enemy_entity(Vec2 { x: 0, y: 0 }),
    ]);
    let (cues, _) = collision_system(&mut w);
    match w.entities[0].data {
        EntityData::PlayerData(p) => {
            assert_eq!(p.hp, 3);
            assert_eq!(p.invincible_ms, 500);
        },
        _ => panic!("player entity expected"),
    }
    assert!(w.entities[0].alive);
    assert!(cues.is_empty());
    assert!(w.explosions.is_empty());
}

#[test]
fn vulnerable_player_loses_one_hit_point() {
    let mut w = world_with(vec![
        player_entity(Vec2 { x: 0, y: 0 }, 3, 0, false),
        enemy_entity(Vec2 { x: 0, y: 0 }),
    ]);
    let (cues, _) = collision_system(&mut w);
    match w.entities[0].data {
        EntityData::PlayerData(p) => {
            assert_eq!(p.hp, 2);
            assert_eq!(p.invincible_ms, 2_000);
        },
        _ => panic!("player entity expected"),
    }
    assert!(w.entities[0].alive);
    // The enemy survives ramming the player.
    assert!(w.entities[1].alive);
    assert_eq!(cues, vec![AudioCue::Damage]);
}

#[test]
fn lethal_collision_destroys_player_and_explodes_exactly_once() {
    // Player at one hit point, vulnerable, overlapping two enemies in
    // the same tick: the death resolves once, not per remaining pair.
    let mut w = world_with(vec![
        player_entity(Vec2 { x: 0, y: 0 }, 1, 0, false),
        enemy_entity(Vec2 { x: 0, y: 0 }),
        enemy_entity(Vec2 { x: 1_000, y: 0 }),
    ]);
    let (cues, _) = collision_system(&mut w);
    assert!(!w.entities[0].alive);
    match w.entities[0].data {
        EntityData::PlayerData(p) => assert_eq!(p.hp, 0),
        _ => panic!("player entity expected"),
    }
    let player_explosions = w
        .explosions
        .iter()
        .filter(|e| matches!(e.tag, ExplosionTag::Player))
        .count();
    assert_eq!(player_explosions, 1);
    assert_eq!(cues, vec![AudioCue::Explosion]);
    flush_removals(&mut w.entities);
    assert_eq!(w.entities.len(), 2);
}

#[test]
fn kill_without_piercing_destroys_enemy_and_bullet() {
    let mut w = world_with(vec![
        player_entity(Vec2 { x: 200_000, y: -300_000 }, 3, 0, false),
        enemy_entity(Vec2 { x: 0, y: 0 }),
        player_bullet_entity(Vec2 { x: 0, y: 0 }),
    ]);
    let (cues, drops) = collision_system(&mut w);
    assert!(!w.entities[1].alive);
    assert!(!w.entities[2].alive);
    assert_eq!(w.score.score, 100);
    assert_eq!(
        w.stage_db.settings[0].waves[0].defeated_count,
        1
    );
    let enemy_explosions = w
        .explosions
        .iter()
        .filter(|e| matches!(e.tag, ExplosionTag::Enemy))
        .count();
    assert_eq!(enemy_explosions, 1);
    assert_eq!(cues, vec![AudioCue::Explosion]);
    assert!(drops.len() <= 1);
    if let Some((pos, _kind)) = drops.first() {
        assert_eq!(*pos, Vec2 { x: 0, y: 0 });
    }
    flush_removals(&mut w.entities);
    assert_eq!(w.entities.len(), 1);
}

#[test]
fn kill_with_piercing_keeps_the_bullet() {
    let mut w = world_with(vec![
        player_entity(Vec2 { x: 200_000, y: -300_000 }, 3, 0, true),
        enemy_entity(Vec2 { x: 0, y: 0 }),
        player_bullet_entity(Vec2 { x: 0, y: 0 }),
    ]);
    let (_, _) = collision_system(&mut w);
    assert!(!w.entities[1].alive);
    assert!(w.entities[2].alive);
    flush_removals(&mut w.entities);
    assert_eq!(w.entities.len(), 2);
}

#[test]
fn item_pickup_applies_and_consumes_the_item() {
    let mut w = world_with(vec![
        player_entity(Vec2 { x: 0, y: 0 }, 2, 0, false),
        Entity {
            pos: Vec2 { x: 0, y: 0 },
            collider: rect(10_000, ColliderTag::Item),
            alive: true,
            data: EntityData::ItemData(ItemType::Heal),
        },
    ]);
    let (cues, _) = collision_system(&mut w);
    match w.entities[0].data {
        EntityData::PlayerData(p) => assert_eq!(p.hp, 3),
        _ => panic!("player entity expected"),
    }
    assert!(!w.entities[1].alive);
    assert!(cues.is_empty());
}

#[test]
fn enemy_bullet_hurts_player_but_own_bullet_does_not() {
    // An enemy-owned bullet on the player: damage.
    let mut w = world_with(vec![
        player_entity(Vec2 { x: 0, y: 0 }, 3, 0, false),
        Entity {
            pos: Vec2 { x: 0, y: 0 },
            collider: rect(15_000, ColliderTag::Bullet { from_player: false }),
            alive: true,
            data: EntityData::BulletData(Bullet { is_player: false, speed: 400_000 }),
        },
    ]);
    collision_system(&mut w);
    match w.entities[0].data {
        EntityData::PlayerData(p) => assert_eq!(p.hp, 2),
        _ => panic!("player entity expected"),
    }
    // The player's own bullet overlapping the player: no effect.
    let mut w2 = world_with(vec![
        player_entity(Vec2 { x: 0, y: 0 }, 3, 0, false),
        player_bullet_entity(Vec2 { x: 0, y: 0 }),
    ]);
    collision_system(&mut w2);
    match w2.entities[0].data {
        EntityData::PlayerData(p) => assert_eq!(p.hp, 3),
        _ => panic!("player entity expected"),
    }
    assert!(w2.entities[1].alive);
}

#[test]
fn ten_kills_complete_a_wave_of_target_ten() {
    let mut w = world_with(vec![player_entity(Vec2 { x: 200_000, y: -300_000 }, 3, 0, false)]);
    for _ in 0..10 {
        w.entities.push(enemy_entity(Vec2 { x: 0, y: 0 }));
        w.entities.push(player_bullet_entity(Vec2 { x: 0, y: 0 }));
        collision_system(&mut w);
        flush_removals(&mut w.entities);
        assert_eq!(w.entities.len(), 1);
    }
    assert_eq!(w.stage_db.settings[0].waves[0].defeated_count, 10);
    assert_eq!(w.score.score, 1_000);
    // The only wave of the stage is complete: the director signals
    // the clear and pauses spawning.
    let r = vertical_shooter::stage::update_waves(&mut w.stage_db, &mut w.spawn_timer);
    assert_eq!(r, vertical_shooter::stage::WaveAdvance::Cleared);
    assert!(w.spawn_timer.paused);
}
