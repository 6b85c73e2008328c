//! The game world during play: a registry of collidable entities plus
//! the session resources — score, stage progress, timers, the global
//! clock — and the per-tick systems that drive them.
//!
//! Destruction is two-phase: systems only clear an entity's `alive`
//! flag, so pair scans never read removed data, and a flush at the end
//! of the tick drops the cleared entities.

use vstd::prelude::*;
use crate::bullet::{
    Bullet, BULLET_SPAWN_OFFSET_Y, PLAYER_BULLET_HALF, PLAYER_BULLET_SPEED,
};
use crate::collision::{Collider, ColliderShape, ColliderTag};
use crate::enemy::{EnemyDefinition, EnemyMovePattern};
use crate::explosion::Explosion;
use crate::geom::{Vec2, MAX_COORD};
use crate::item::{ItemType, ITEM_HALF_EXTENT};
use crate::player::{Player, PLAYER_START_Y};
use crate::score::Score;
use crate::stage::StageDatabase;
use crate::timer::{Timer, TimerMode, MAX_DURATION_MS};

verus! {

/// Half-extents of the player ship's collision box.
pub const PLAYER_HALF_X: i64 = 15_000;
pub const PLAYER_HALF_Y: i64 = 20_000;

/// Cooldown the shoot timer starts from before the first cadence sync.
pub const INITIAL_COOLDOWN_MS: u64 = 2_000;

/// Delay between the player's death sequence ending and the game-over
/// prompt, in milliseconds.
pub const DEAD_DELAY_MS: u64 = 3_000;

/// The data a live entity carries beside its transform and collider.
#[derive(Clone, Copy, PartialEq, Eq, Structural, Debug)]
pub enum EntityData {
    PlayerData(Player),
    EnemyData(EnemyState),
    BulletData(Bullet),
    ItemData(ItemType),
}

/// Mutable per-enemy state.
#[derive(Clone, Copy, PartialEq, Eq, Structural, Debug)]
pub struct EnemyState {
    pub pattern: EnemyMovePattern,
    pub fire_timer: Timer,
}

/// One collidable entity of the registry.
#[derive(Clone, Copy, PartialEq, Eq, Structural, Debug)]
pub struct Entity {
    pub pos: Vec2,
    pub collider: Collider,
    /// Cleared to mark the entity for removal at the end of the tick;
    /// a cleared entity takes part in nothing further.
    pub alive: bool,
    pub data: EntityData,
}

impl Entity {
    /// The collider tag agrees with the data variant, and every part
    /// is well-formed.
    pub open spec fn wf(self) -> bool {
        &&& self.pos.in_bounds()
        &&& self.collider.wf()
        &&& match self.data {
            EntityData::PlayerData(p) => {
                &&& self.collider.tag == ColliderTag::Player
                &&& p.wf()
                &&& self.alive ==> p.hp >= 1
            },
            EntityData::EnemyData(e) => {
                &&& self.collider.tag == ColliderTag::Enemy
                &&& e.fire_timer.wf()
            },
            EntityData::BulletData(b) => {
                &&& self.collider.tag == (ColliderTag::Bullet { from_player: b.is_player })
                &&& b.wf()
            },
            EntityData::ItemData(_) => self.collider.tag == ColliderTag::Item,
        }
    }

    pub open spec fn is_player(self) -> bool {
        self.data is PlayerData
    }

    pub open spec fn is_enemy(self) -> bool {
        self.data is EnemyData
    }

    pub open spec fn is_item(self) -> bool {
        self.data is ItemData
    }

    pub open spec fn is_bullet(self) -> bool {
        self.data is BulletData
    }

    /// The player state of a player entity.
    pub open spec fn player(self) -> Player
        recommends
            self.is_player(),
    {
        self.data->PlayerData_0
    }
}

/// At most one entity of the registry is the player.
pub open spec fn player_singleton(entities: Seq<Entity>) -> bool {
    forall|i: int, j: int| 0 <= i < j < entities.len()
        ==> !(#[trigger] entities[i].is_player() && #[trigger] entities[j].is_player())
}

/// Every entity of the registry is well-formed.
pub open spec fn entities_wf(entities: Seq<Entity>) -> bool {
    forall|i: int| 0 <= i < entities.len() ==> #[trigger] entities[i].wf()
}

/// The whole mutable state of one play session.
pub struct World {
    pub entities: Vec<Entity>,
    pub explosions: Vec<Explosion>,
    pub score: Score,
    pub stage_db: StageDatabase,
    /// Paces enemy spawning at the active wave's interval.
    pub spawn_timer: Timer,
    /// Paces the player's shots at the shoot interval.
    pub shoot_cooldown: Timer,
    /// Counts down from the player's death to the game-over prompt;
    /// unset while the player lives.
    pub dead_timer: Option<Timer>,
    /// Whether the game-over prompt is on screen.
    pub game_over_shown: bool,
    /// Time since the session began, in milliseconds; drives the
    /// zigzag phase.  Saturates at the machine limit.
    pub elapsed_ms: u64,
}

impl World {
    pub open spec fn wf(self) -> bool {
        &&& entities_wf(self.entities@)
        &&& player_singleton(self.entities@)
        &&& forall|i: int| 0 <= i < self.explosions@.len()
            ==> #[trigger] self.explosions@[i].wf()
        &&& self.stage_db.wf()
        &&& self.spawn_timer.wf()
        &&& self.shoot_cooldown.wf()
        &&& match self.dead_timer {
            Some(t) => t.wf(),
            None => true,
        }
    }

    /// Some entity is the live player.
    pub open spec fn has_live_player(self) -> bool {
        seq_has_live_player(self.entities@)
    }

    /// Scans for the live player.
    pub fn find_live_player(&self) -> (r: Option<usize>)
        ensures
            r is Some <==> self.has_live_player(),
            match r {
                Some(i) => i < self.entities@.len()
                    && self.entities@[i as int].is_player()
                    && self.entities@[i as int].alive,
                None => true,
            },
    {
        find_live_player_in(&self.entities)
    }
}

/// Some entity of the registry is the live player.
pub open spec fn seq_has_live_player(entities: Seq<Entity>) -> bool {
    exists|i: int| 0 <= i < entities.len()
        && (#[trigger] entities[i]).is_player() && entities[i].alive
}

/// The index of the live player, when there is one.
pub open spec fn seq_live_player_index(entities: Seq<Entity>) -> int {
    choose|i: int| 0 <= i < entities.len()
        && (#[trigger] entities[i]).is_player() && entities[i].alive
}

/// The live player's state, when there is one.
pub open spec fn seq_live_player(entities: Seq<Entity>) -> Player {
    entities[seq_live_player_index(entities)].player()
}

/// Scans a registry for the live player.
pub fn find_live_player_in(entities: &Vec<Entity>) -> (r: Option<usize>)
    ensures
        r is Some <==> seq_has_live_player(entities@),
        match r {
            Some(i) => i < entities@.len()
                && entities@[i as int].is_player()
                && entities@[i as int].alive,
            None => true,
        },
{
    let mut i: usize = 0;
    while i < entities.len()
        invariant
            i <= entities@.len(),
            forall|k: int| 0 <= k < i
                ==> !((#[trigger] entities@[k]).is_player() && entities@[k].alive),
        decreases entities@.len() - i,
    {
        let alive = entities[i].alive;
        let is_player = match entities[i].data {
            EntityData::PlayerData(_) => true,
            _ => false,
        };
        if alive && is_player {
            return Some(i);
        }
        i = i + 1;
    }
    None
}

/// The player entity a session starts with.
pub open spec fn player_entity_spec() -> Entity {
    Entity {
        pos: Vec2 { x: 0, y: PLAYER_START_Y },
        collider: Collider {
            shape: ColliderShape::Rectangle {
                half_extent: Vec2 { x: PLAYER_HALF_X, y: PLAYER_HALF_Y },
            },
            tag: ColliderTag::Player,
        },
        alive: true,
        data: EntityData::PlayerData(Player {
            max_hp: crate::player::PLAYER_MAX_HP,
            hp: crate::player::PLAYER_MAX_HP,
            invincible_ms: crate::player::SPAWN_INVINCIBLE_MS,
            shoot_interval_ms: crate::player::INITIAL_SHOOT_INTERVAL_MS,
            piercing: false,
        }),
    }
}

/// Appends the fresh player entity to the registry.
pub fn spawn_player(entities: &mut Vec<Entity>)
    requires
        entities_wf(old(entities)@),
        player_singleton(old(entities)@),
        forall|i: int| 0 <= i < old(entities)@.len()
            ==> !(#[trigger] old(entities)@[i]).is_player(),
    ensures
        final(entities)@ == old(entities)@.push(player_entity_spec()),
        entities_wf(final(entities)@),
        player_singleton(final(entities)@),
{
    let player = Player::new();
    entities.push(Entity {
        pos: Vec2 { x: 0, y: PLAYER_START_Y },
        collider: Collider {
            shape: ColliderShape::Rectangle {
                half_extent: Vec2 { x: PLAYER_HALF_X, y: PLAYER_HALF_Y },
            },
            tag: ColliderTag::Player,
        },
        alive: true,
        data: EntityData::PlayerData(player),
    });
}

/// The item entity a drop leaves at a position.
pub open spec fn item_entity_spec(pos: Vec2, kind: ItemType) -> Entity {
    Entity {
        pos,
        collider: Collider {
            shape: ColliderShape::Rectangle {
                half_extent: Vec2 { x: ITEM_HALF_EXTENT, y: ITEM_HALF_EXTENT },
            },
            tag: ColliderTag::Item,
        },
        alive: true,
        data: EntityData::ItemData(kind),
    }
}

/// Appends a dropped item to the registry.
pub fn spawn_item(entities: &mut Vec<Entity>, pos: Vec2, kind: ItemType)
    requires
        entities_wf(old(entities)@),
        player_singleton(old(entities)@),
        pos.in_bounds(),
    ensures
        final(entities)@ == old(entities)@.push(item_entity_spec(pos, kind)),
        entities_wf(final(entities)@),
        player_singleton(final(entities)@),
{
    entities.push(Entity {
        pos,
        collider: Collider {
            shape: ColliderShape::Rectangle {
                half_extent: Vec2 { x: ITEM_HALF_EXTENT, y: ITEM_HALF_EXTENT },
            },
            tag: ColliderTag::Item,
        },
        alive: true,
        data: EntityData::ItemData(kind),
    });
}

/// The player bullet fired from the ship at `ship_pos`.
pub open spec fn player_bullet_spec(ship_pos: Vec2) -> Entity {
    Entity {
        pos: Vec2 {
            x: ship_pos.x,
            y: if ship_pos.y + BULLET_SPAWN_OFFSET_Y <= MAX_COORD {
                (ship_pos.y + BULLET_SPAWN_OFFSET_Y) as i64
            } else {
                MAX_COORD
            },
        },
        collider: Collider {
            shape: ColliderShape::Rectangle {
                half_extent: Vec2 { x: PLAYER_BULLET_HALF, y: PLAYER_BULLET_HALF },
            },
            tag: ColliderTag::Bullet { from_player: true },
        },
        alive: true,
        data: EntityData::BulletData(Bullet { is_player: true, speed: PLAYER_BULLET_SPEED }),
    }
}

/// The enemy entity stamped from a definition at a position.
pub open spec fn enemy_entity_spec(pos: Vec2, def: EnemyDefinition) -> Entity {
    Entity {
        pos,
        collider: Collider {
            shape: ColliderShape::Rectangle { half_extent: def.collider_half },
            tag: ColliderTag::Enemy,
        },
        alive: true,
        data: EntityData::EnemyData(EnemyState {
            pattern: def.movement_pattern,
            fire_timer: Timer {
                mode: TimerMode::Repeating,
                duration_ms: def.fire_interval_ms,
                elapsed_ms: 0,
                finished: false,
                paused: false,
            },
        }),
    }
}

/// The bullet an enemy fires from `pos`.
pub open spec fn enemy_bullet_entity_spec(pos: Vec2) -> Entity {
    Entity {
        pos,
        collider: Collider {
            shape: ColliderShape::Rectangle {
                half_extent: Vec2 {
                    x: crate::bullet::ENEMY_BULLET_HALF,
                    y: crate::bullet::ENEMY_BULLET_HALF,
                },
            },
            tag: ColliderTag::Bullet { from_player: false },
        },
        alive: true,
        data: EntityData::BulletData(Bullet {
            is_player: false,
            speed: crate::bullet::ENEMY_BULLET_SPEED,
        }),
    }
}

/// The player after its invincibility window runs down by `delta_ms`.
pub open spec fn invincibility_ticked(p: Player, delta_ms: int) -> Player {
    Player {
        invincible_ms: if delta_ms >= p.invincible_ms {
            0u64
        } else {
            (p.invincible_ms - delta_ms) as u64
        },
        ..p
    }
}

/// One invincibility tick: every player entity's window runs down
/// by the frame delta; everything else is untouched.
pub open spec fn invincibility_rel(w0: World, w1: World, delta_ms: u64) -> bool {
    &&& w1.entities@.len() == w0.entities@.len()
    &&& forall|k: int| 0 <= k < w0.entities@.len()
        ==> #[trigger] w1.entities@[k] == (match w0.entities@[k].data {
            EntityData::PlayerData(p) => Entity {
                data: EntityData::PlayerData(invincibility_ticked(p, delta_ms as int)),
                ..w0.entities@[k]
            },
            _ => w0.entities@[k],
        })
    &&& w1.explosions == w0.explosions
    &&& w1.score == w0.score
    &&& w1.stage_db == w0.stage_db
    &&& w1.spawn_timer == w0.spawn_timer
    &&& w1.shoot_cooldown == w0.shoot_cooldown
    &&& w1.dead_timer == w0.dead_timer
    &&& w1.game_over_shown == w0.game_over_shown
    &&& w1.elapsed_ms == w0.elapsed_ms
}

/// Lets every player entity's invincibility window run down.
pub fn player_invincibility_system(w: &mut World, delta_ms: u64)
    requires
        old(w).wf(),
    ensures
        final(w).wf(),
        invincibility_rel(*old(w), *final(w), delta_ms),
{
    let n: usize = w.entities.len();
    let mut k: usize = 0;
    while k < n
        invariant
            n == w.entities@.len(),
            n == old(w).entities@.len(),
            k <= n,
            old(w).wf(),
            w.explosions == old(w).explosions,
            w.score == old(w).score,
            w.stage_db == old(w).stage_db,
            w.spawn_timer == old(w).spawn_timer,
            w.shoot_cooldown == old(w).shoot_cooldown,
            w.dead_timer == old(w).dead_timer,
            w.game_over_shown == old(w).game_over_shown,
            w.elapsed_ms == old(w).elapsed_ms,

            forall|m: int| 0 <= m < k
                ==> #[trigger] w.entities@[m] == (match old(w).entities@[m].data {
                    EntityData::PlayerData(p) => Entity {
                        data: EntityData::PlayerData(invincibility_ticked(p, delta_ms as int)),
                        ..old(w).entities@[m]
                    },
                    _ => old(w).entities@[m],
                }),
            forall|m: int| k <= m < n
                ==> #[trigger] w.entities@[m] == old(w).entities@[m],
        decreases n - k,
    {
        let mut e: Entity = w.entities[k];
        match e.data {
            EntityData::PlayerData(mut p) => {
                proof {
                    assert(old(w).entities@[k as int].wf());
                }
                p.tick_invincibility(delta_ms);
                e.data = EntityData::PlayerData(p);
                w.entities[k] = e;
            },
            _ => {},
        }
        k = k + 1;
    }
    proof {
        assert(entities_wf(w.entities@)) by {
            assert forall|m: int| 0 <= m < n implies (#[trigger] w.entities@[m]).wf() by {
                assert(old(w).entities@[m].wf());
            }
        }
        assert(player_singleton(w.entities@)) by {
            assert forall|a: int, b: int| 0 <= a < b < n
                implies !(#[trigger] w.entities@[a].is_player()
                    && #[trigger] w.entities@[b].is_player()) by {
                assert(w.entities@[a].is_player() == old(w).entities@[a].is_player());
                assert(w.entities@[b].is_player() == old(w).entities@[b].is_player());
            }
        }
    }
}

/// One player-movement tick: the live player (if any) moves by the
/// held keys, clamped to the play field; everything else is
/// untouched.
pub open spec fn player_move_rel(w0: World, w1: World, input: crate::player::MoveInput, delta_ms: u64) -> bool {
    &&& !w0.has_live_player() ==> w1.entities@ == w0.entities@
    &&& w0.has_live_player() ==> (exists|pi: int| 0 <= pi < w0.entities@.len()
        && w0.entities@[pi].is_player() && w0.entities@[pi].alive
        && w1.entities@ == w0.entities@.update(pi, (Entity {
            pos: Vec2 {
                x: crate::player::moved_axis(w0.entities@[pi].pos.x as int, input.left,
                    input.right, delta_ms as int, crate::player::PLAYER_BOUND_X as int) as i64,
                y: crate::player::moved_axis(w0.entities@[pi].pos.y as int, input.down,
                    input.up, delta_ms as int, crate::player::PLAYER_BOUND_Y as int) as i64,
            },
            ..w0.entities@[pi]
        })))
    &&& w1.explosions == w0.explosions
    &&& w1.score == w0.score
    &&& w1.stage_db == w0.stage_db
    &&& w1.spawn_timer == w0.spawn_timer
    &&& w1.shoot_cooldown == w0.shoot_cooldown
    &&& w1.dead_timer == w0.dead_timer
    &&& w1.game_over_shown == w0.game_over_shown
    &&& w1.elapsed_ms == w0.elapsed_ms
}

/// Moves the live player by this tick's directional input; without a
/// live player nothing moves.
pub fn player_movement_system(w: &mut World, input: crate::player::MoveInput, delta_ms: u64)
    requires
        old(w).wf(),
        delta_ms <= crate::geom::MAX_TICK_MS,
    ensures
        final(w).wf(),
        player_move_rel(*old(w), *final(w), input, delta_ms),
{
    match w.find_live_player() {
        Some(pi) => {
            proof {
                assert(w.entities@[pi as int].wf());
            }
            let mut e: Entity = w.entities[pi];
            let mut pos: Vec2 = e.pos;
            crate::player::player_movement(&mut pos, input, delta_ms);
            e.pos = pos;
            w.entities[pi] = e;
            proof {
                assert(entities_wf(w.entities@)) by {
                    assert forall|m: int| 0 <= m < w.entities@.len()
                        implies (#[trigger] w.entities@[m]).wf() by {
                        assert(old(w).entities@[m].wf());
                    }
                }
                assert(player_singleton(w.entities@)) by {
                    assert forall|a: int, b: int| 0 <= a < b < w.entities@.len()
                        implies !(#[trigger] w.entities@[a].is_player()
                            && #[trigger] w.entities@[b].is_player()) by {
                        assert(w.entities@[a].is_player() == old(w).entities@[a].is_player());
                        assert(w.entities@[b].is_player() == old(w).entities@[b].is_player());
                    }
                }
            }
        },
        None => {},
    }
}

/// In a registry with at most one player entity, any live player
/// found is the live player.
pub proof fn lemma_live_player_index_unique(entities: Seq<Entity>, pi: int)
    requires
        player_singleton(entities),
        0 <= pi < entities.len(),
        entities[pi].is_player(),
        entities[pi].alive,
    ensures
        seq_has_live_player(entities),
        seq_live_player_index(entities) == pi,
{
    assert(seq_has_live_player(entities));
    let w = seq_live_player_index(entities);
    if w != pi {
        if w < pi {
            assert(!(entities[w].is_player() && entities[pi].is_player()));
        } else {
            assert(!(entities[pi].is_player() && entities[w].is_player()));
        }
    }
}

/// Where the live player stands, for homing enemies; nothing to home
/// on without one.
pub open spec fn enemy_target(entities: Seq<Entity>) -> Option<Vec2> {
    if seq_has_live_player(entities) {
        Some(entities[seq_live_player_index(entities)].pos)
    } else {
        None
    }
}

/// One enemy after a movement tick: straight enemies fall, zigzag
/// enemies fall and sway, homing enemies step toward the target (and
/// stand still without one); an enemy past the bottom boundary is
/// marked removed.  Anything that is not a live enemy is untouched.
pub open spec fn enemy_moved(e: Entity, speed: int, delta_ms: int, sway: int,
    target: Option<Vec2>) -> Entity {
    if e.alive && e.is_enemy() {
        let new_pos = match e.data->EnemyData_0.pattern {
            EnemyMovePattern::Straight => Vec2 {
                x: e.pos.x,
                y: crate::enemy::fallen_y(e.pos.y as int, speed, delta_ms) as i64,
            },
            EnemyMovePattern::Zigzag => Vec2 {
                x: crate::enemy::swayed_x(e.pos.x as int, sway, speed, delta_ms) as i64,
                y: crate::enemy::fallen_y(e.pos.y as int, speed, delta_ms) as i64,
            },
            EnemyMovePattern::Homing => match target {
                Some(t) => if crate::enemy::dist2(e.pos, t) == 0 {
                    e.pos
                } else {
                    Vec2 {
                        x: crate::geom::clamp_spec(e.pos.x + crate::enemy::toward_delta(
                            t.x - e.pos.x, crate::geom::isqrt_of(crate::enemy::dist2(e.pos, t)),
                            speed, delta_ms), -MAX_COORD as int, MAX_COORD as int) as i64,
                        y: crate::geom::clamp_spec(e.pos.y + crate::enemy::toward_delta(
                            t.y - e.pos.y, crate::geom::isqrt_of(crate::enemy::dist2(e.pos, t)),
                            speed, delta_ms), -MAX_COORD as int, MAX_COORD as int) as i64,
                    }
                },
                None => e.pos,
            },
        };
        Entity {
            pos: new_pos,
            alive: !(new_pos.y <= crate::enemy::ENEMY_DESPAWN_Y),
            ..e
        }
    } else {
        e
    }
}

/// One enemy-movement tick: every live enemy steps by its pattern at
/// the active wave's speed, off-field enemies are marked removed;
/// everything else is untouched.
pub open spec fn enemy_move_rel(w0: World, w1: World, delta_ms: u64, sway: i64) -> bool {
    &&& w1.entities@.len() == w0.entities@.len()
    &&& forall|k: int| 0 <= k < w0.entities@.len()
        ==> #[trigger] w1.entities@[k] == enemy_moved(w0.entities@[k],
            w0.stage_db.current_wave().enemy_speed as int, delta_ms as int, sway as int,
            enemy_target(w0.entities@))
    &&& w1.explosions == w0.explosions
    &&& w1.score == w0.score
    &&& w1.stage_db == w0.stage_db
    &&& w1.spawn_timer == w0.spawn_timer
    &&& w1.shoot_cooldown == w0.shoot_cooldown
    &&& w1.dead_timer == w0.dead_timer
    &&& w1.game_over_shown == w0.game_over_shown
    &&& w1.elapsed_ms == w0.elapsed_ms
}

/// Integrates every live enemy's position by its movement pattern at
/// the active wave's speed, removing the ones that crossed the bottom
/// boundary.  The sway factor is the scaled sine of the global
/// elapsed time; homing aims at the live player's current position.
pub fn enemy_movement_system(w: &mut World, delta_ms: u64, sway: i64)
    requires
        old(w).wf(),
        delta_ms <= crate::geom::MAX_TICK_MS,
        -crate::enemy::SWAY_SCALE <= sway <= crate::enemy::SWAY_SCALE,
    ensures
        final(w).wf(),
        enemy_move_rel(*old(w), *final(w), delta_ms, sway),
{
    let target: Option<Vec2> = match w.find_live_player() {
        Some(pi) => {
            proof {
                lemma_live_player_index_unique(w.entities@, pi as int);
                assert(w.entities@[pi as int].wf());
            }
            Some(w.entities[pi].pos)
        },
        None => None,
    };
    proof {
        assert(match target {
            Some(t) => t.in_bounds(),
            None => true,
        });
    }
    let stage_index: usize = w.stage_db.current_index;
    let wave_index: usize = w.stage_db.settings[stage_index].current_index;
    let speed: i64 = w.stage_db.settings[stage_index].waves[wave_index].enemy_speed;
    proof {
        assert(old(w).stage_db.current_stage().waves@[wave_index as int].wf());
    }
    let n: usize = w.entities.len();
    let mut k: usize = 0;
    while k < n
        invariant
            old(w).wf(),
            n == w.entities@.len(),
            n == old(w).entities@.len(),
            k <= n,
            delta_ms <= crate::geom::MAX_TICK_MS,
            -crate::enemy::SWAY_SCALE <= sway <= crate::enemy::SWAY_SCALE,
            0 <= speed <= crate::geom::MAX_SPEED,
            target == enemy_target(old(w).entities@),
            match target {
                Some(t) => t.in_bounds(),
                None => true,
            },
            speed == old(w).stage_db.current_wave().enemy_speed,
            forall|m: int| 0 <= m < k
                ==> #[trigger] w.entities@[m] == enemy_moved(old(w).entities@[m], speed as int,
                    delta_ms as int, sway as int, enemy_target(old(w).entities@)),
            forall|m: int| k <= m < n
                ==> #[trigger] w.entities@[m] == old(w).entities@[m],
            w.explosions == old(w).explosions,
            w.score == old(w).score,
            w.stage_db == old(w).stage_db,
            w.spawn_timer == old(w).spawn_timer,
            w.shoot_cooldown == old(w).shoot_cooldown,
            w.dead_timer == old(w).dead_timer,
            w.game_over_shown == old(w).game_over_shown,
            w.elapsed_ms == old(w).elapsed_ms,
        decreases n - k,
    {
        let mut e: Entity = w.entities[k];
        let is_live_enemy = e.alive && (match e.data {
            EntityData::EnemyData(_) => true,
            _ => false,
        });
        if is_live_enemy {
            proof {
                assert(old(w).entities@[k as int].wf());
            }
            let pattern = match e.data {
                EntityData::EnemyData(es) => es.pattern,
                _ => EnemyMovePattern::Straight,
            };
            let mut pos: Vec2 = e.pos;
            match pattern {
                EnemyMovePattern::Straight => {
                    crate::enemy::enemy_step_straight(&mut pos, speed, delta_ms);
                },
                EnemyMovePattern::Zigzag => {
                    crate::enemy::enemy_step_zigzag(&mut pos, speed, delta_ms, sway);
                },
                EnemyMovePattern::Homing => {
                    match target {
                        Some(t) => {
                            crate::enemy::enemy_step_homing(&mut pos, speed, delta_ms, t);
                        },
                        None => {},
                    }
                },
            }
            e.pos = pos;
            if pos.y <= crate::enemy::ENEMY_DESPAWN_Y {
                e.alive = false;
            }
            w.entities[k] = e;
            proof {
                let ghost oe = old(w).entities@[k as int];
                match pattern {
                    EnemyMovePattern::Straight => {
                        assert(e == enemy_moved(oe, speed as int, delta_ms as int, sway as int,
                            target));
                    },
                    EnemyMovePattern::Zigzag => {
                        assert(e == enemy_moved(oe, speed as int, delta_ms as int, sway as int,
                            target));
                    },
                    EnemyMovePattern::Homing => {
                        match target {
                            Some(t) => {
                                assert(crate::enemy::dist2(oe.pos, t) >= 0) by (nonlinear_arith);
                            },
                            None => {},
                        }
                        assert(e == enemy_moved(oe, speed as int, delta_ms as int, sway as int,
                            target));
                    },
                }
            }
        }
        k = k + 1;
    }
    proof {
        assert(entities_wf(w.entities@)) by {
            assert forall|m: int| 0 <= m < n implies (#[trigger] w.entities@[m]).wf() by {
                assert(old(w).entities@[m].wf());
            }
        }
        assert(player_singleton(w.entities@)) by {
            assert forall|a: int, b: int| 0 <= a < b < n
                implies !(#[trigger] w.entities@[a].is_player()
                    && #[trigger] w.entities@[b].is_player()) by {
                assert(w.entities@[a].is_player() == old(w).entities@[a].is_player());
                assert(w.entities@[b].is_player() == old(w).entities@[b].is_player());
            }
        }
    }
}

/// One bullet after a movement tick: player bullets climb, enemy
/// bullets fall, and a bullet off the field is marked removed.
/// Anything that is not a live bullet is untouched.
pub open spec fn bullet_moved_entity(e: Entity, delta_ms: int) -> Entity {
    if e.alive && e.is_bullet() {
        let b = e.data->BulletData_0;
        let ny = crate::bullet::bullet_moved_y(e.pos.y as int, b.is_player, b.speed as int,
            delta_ms);
        Entity {
            pos: Vec2 { x: e.pos.x, y: ny as i64 },
            alive: !crate::bullet::bullet_off_field(ny),
            ..e
        }
    } else {
        e
    }
}

/// One bullet-movement tick: every live bullet travels by its
/// ownership, off-field bullets are marked removed; everything else
/// is untouched.
pub open spec fn bullet_move_rel(w0: World, w1: World, delta_ms: u64) -> bool {
    &&& w1.entities@.len() == w0.entities@.len()
    &&& forall|k: int| 0 <= k < w0.entities@.len()
        ==> #[trigger] w1.entities@[k]
            == bullet_moved_entity(w0.entities@[k], delta_ms as int)
    &&& w1.explosions == w0.explosions
    &&& w1.score == w0.score
    &&& w1.stage_db == w0.stage_db
    &&& w1.spawn_timer == w0.spawn_timer
    &&& w1.shoot_cooldown == w0.shoot_cooldown
    &&& w1.dead_timer == w0.dead_timer
    &&& w1.game_over_shown == w0.game_over_shown
    &&& w1.elapsed_ms == w0.elapsed_ms
}

/// Integrates every live bullet's position, removing the ones that
/// left the play field.
pub fn bullet_movement_system(w: &mut World, delta_ms: u64)
    requires
        old(w).wf(),
        delta_ms <= crate::geom::MAX_TICK_MS,
    ensures
        final(w).wf(),
        bullet_move_rel(*old(w), *final(w), delta_ms),
{
    let n: usize = w.entities.len();
    let mut k: usize = 0;
    while k < n
        invariant
            old(w).wf(),
            n == w.entities@.len(),
            n == old(w).entities@.len(),
            k <= n,
            delta_ms <= crate::geom::MAX_TICK_MS,
            forall|m: int| 0 <= m < k
                ==> #[trigger] w.entities@[m]
                    == bullet_moved_entity(old(w).entities@[m], delta_ms as int),
            forall|m: int| k <= m < n
                ==> #[trigger] w.entities@[m] == old(w).entities@[m],
            w.explosions == old(w).explosions,
            w.score == old(w).score,
            w.stage_db == old(w).stage_db,
            w.spawn_timer == old(w).spawn_timer,
            w.shoot_cooldown == old(w).shoot_cooldown,
            w.dead_timer == old(w).dead_timer,
            w.game_over_shown == old(w).game_over_shown,
            w.elapsed_ms == old(w).elapsed_ms,
        decreases n - k,
    {
        let mut e: Entity = w.entities[k];
        match e.data {
            EntityData::BulletData(b) => {
                if e.alive {
                    proof {
                        assert(old(w).entities@[k as int].wf());
                    }
                    let mut pos: Vec2 = e.pos;
                    let off = crate::bullet::bullet_step(&mut pos, b, delta_ms);
                    e.pos = pos;
                    if off {
                        e.alive = false;
                    }
                    w.entities[k] = e;
                }
            },
            _ => {},
        }
        k = k + 1;
    }
    proof {
        assert(entities_wf(w.entities@)) by {
            assert forall|m: int| 0 <= m < n implies (#[trigger] w.entities@[m]).wf() by {
                assert(old(w).entities@[m].wf());
            }
        }
        assert(player_singleton(w.entities@)) by {
            assert forall|a: int, b: int| 0 <= a < b < n
                implies !(#[trigger] w.entities@[a].is_player()
                    && #[trigger] w.entities@[b].is_player()) by {
                assert(w.entities@[a].is_player() == old(w).entities@[a].is_player());
                assert(w.entities@[b].is_player() == old(w).entities@[b].is_player());
            }
        }
    }
}

/// A fresh repeating timer of the given period.
pub open spec fn fresh_repeating(duration_ms: u64) -> Timer {
    Timer {
        mode: TimerMode::Repeating,
        duration_ms,
        elapsed_ms: 0,
        finished: false,
        paused: false,
    }
}

/// A just-completed repeating timer after its reset.
pub open spec fn reset_timer(t: Timer) -> Timer {
    Timer { elapsed_ms: 0, finished: false, ..t }
}

/// The shoot cooldown after its period is synced to the player's
/// cadence: replaced (and so restarted) whenever the interval changed.
pub open spec fn synced_cooldown(cd: Timer, entities: Seq<Entity>) -> Timer {
    if seq_has_live_player(entities)
        && cd.duration_ms != seq_live_player(entities).shoot_interval_ms {
        fresh_repeating(seq_live_player(entities).shoot_interval_ms)
    } else {
        cd
    }
}

/// One shoot tick: the cooldown syncs to the player's cadence and
/// ticks, and a completed cooldown with fire held and a live player
/// releases one bullet and the shoot cue; everything else is
/// untouched.
pub open spec fn shoot_rel(w0: World, w1: World, fire_held: bool, delta_ms: u64,
    c0: Seq<crate::effects::AudioCue>, c1: Seq<crate::effects::AudioCue>) -> bool {
    &&& ({
        let ticked = synced_cooldown(w0.shoot_cooldown, w0.entities@)
            .ticked(delta_ms as int);
        let fired = fire_held && ticked.finished && seq_has_live_player(w0.entities@);
        &&& w1.shoot_cooldown == if fired { reset_timer(ticked) } else { ticked }
        &&& fired ==> (w1.entities@ == w0.entities@.push(player_bullet_spec(
            w0.entities@[seq_live_player_index(w0.entities@)].pos))
            && c1 == c0.push(crate::effects::AudioCue::Shoot))
        &&& !fired ==> (w1.entities@ == w0.entities@
            && c1 == c0)
    })
    &&& w1.explosions == w0.explosions
    &&& w1.score == w0.score
    &&& w1.stage_db == w0.stage_db
    &&& w1.spawn_timer == w0.spawn_timer
    &&& w1.dead_timer == w0.dead_timer
    &&& w1.game_over_shown == w0.game_over_shown
    &&& w1.elapsed_ms == w0.elapsed_ms
}

/// Syncs the shoot cooldown to the live player's cadence, ticks it,
/// and — with fire held, the cooldown complete and a live player —
/// spawns a player bullet just above the ship, plays the shoot cue
/// and restarts the cooldown.
pub fn player_shoot_system(w: &mut World, fire_held: bool, delta_ms: u64,
    cues: &mut Vec<crate::effects::AudioCue>)
    requires
        old(w).wf(),
        delta_ms <= crate::geom::MAX_TICK_MS,
    ensures
        final(w).wf(),
        shoot_rel(*old(w), *final(w), fire_held, delta_ms, old(cues)@, final(cues)@),
{
    let found = w.find_live_player();
    match found {
        Some(pi) => {
            proof {
                lemma_live_player_index_unique(w.entities@, pi as int);
                assert(w.entities@[pi as int].wf());
            }
            let p: Player = match w.entities[pi].data {
                EntityData::PlayerData(p) => p,
                _ => {
                    return ;
                },
            };
            if w.shoot_cooldown.duration_ms != p.shoot_interval_ms {
                w.shoot_cooldown = Timer::new(p.shoot_interval_ms, TimerMode::Repeating);
            }
        },
        None => {},
    }
    w.shoot_cooldown.tick(delta_ms);
    if fire_held && w.shoot_cooldown.is_finished() {
        match found {
            Some(pi) => {
                proof {
                    assert(w.entities@[pi as int].wf());
                }
                let ship_pos = w.entities[pi].pos;
                let spawn_y: i64 = if ship_pos.y + BULLET_SPAWN_OFFSET_Y <= MAX_COORD {
                    ship_pos.y + BULLET_SPAWN_OFFSET_Y
                } else {
                    MAX_COORD
                };
                w.entities.push(Entity {
                    pos: Vec2 { x: ship_pos.x, y: spawn_y },
                    collider: Collider {
                        shape: ColliderShape::Rectangle {
                            half_extent: Vec2 { x: PLAYER_BULLET_HALF, y: PLAYER_BULLET_HALF },
                        },
                        tag: ColliderTag::Bullet { from_player: true },
                    },
                    alive: true,
                    data: EntityData::BulletData(Bullet {
                        is_player: true,
                        speed: PLAYER_BULLET_SPEED,
                    }),
                });
                cues.push(crate::effects::AudioCue::Shoot);
                w.shoot_cooldown.reset();
                proof {
                    assert(player_singleton(w.entities@)) by {
                        let n0 = old(w).entities@.len() as int;
                        assert forall|a: int, b: int| 0 <= a < b < w.entities@.len()
                            implies !(#[trigger] w.entities@[a].is_player()
                                && #[trigger] w.entities@[b].is_player()) by {
                            if b < n0 {
                                assert(w.entities@[a] == old(w).entities@[a]);
                                assert(w.entities@[b] == old(w).entities@[b]);
                            } else {
                                assert(!w.entities@[b].is_player());
                            }
                        }
                    }
                }
            },
            None => {},
        }
    }
}

/// The fire timer of one enemy after a tick: reset on completion.
pub open spec fn fired_timer(t: Timer, delta_ms: int) -> Timer {
    if t.ticked(delta_ms).finished {
        reset_timer(t.ticked(delta_ms))
    } else {
        t.ticked(delta_ms)
    }
}

/// One enemy after a fire tick: only its fire timer moves.
pub open spec fn enemy_fired(e: Entity, delta_ms: int) -> Entity {
    if e.alive && e.is_enemy() {
        Entity {
            data: EntityData::EnemyData(EnemyState {
                pattern: e.data->EnemyData_0.pattern,
                fire_timer: fired_timer(e.data->EnemyData_0.fire_timer, delta_ms),
            }),
            ..e
        }
    } else {
        e
    }
}

/// The bullets this tick's fire timers release: one per live enemy
/// whose timer completes, at the enemy's position, in registry order.
pub open spec fn fired_bullets(entities: Seq<Entity>, delta_ms: int) -> Seq<Entity>
    decreases entities.len(),
{
    if entities.len() == 0 {
        Seq::<Entity>::empty()
    } else {
        fired_bullets(entities.drop_last(), delta_ms) + if entities.last().alive
            && entities.last().is_enemy()
            && entities.last().data->EnemyData_0.fire_timer.ticked(delta_ms).finished {
            seq![enemy_bullet_entity_spec(entities.last().pos)]
        } else {
            Seq::<Entity>::empty()
        }
    }
}

/// Every released bullet is a well-formed, live, non-player bullet.
pub proof fn lemma_fired_bullets_wf(entities: Seq<Entity>, delta_ms: int)
    requires
        entities_wf(entities),
    ensures
        forall|i: int| 0 <= i < fired_bullets(entities, delta_ms).len() ==> {
            &&& (#[trigger] fired_bullets(entities, delta_ms)[i]).wf()
            &&& !fired_bullets(entities, delta_ms)[i].is_player()
        },
    decreases entities.len(),
{
    if entities.len() > 0 {
        let prefix = entities.drop_last();
        assert(entities_wf(prefix)) by {
            assert(forall|i: int| 0 <= i < prefix.len()
                ==> #[trigger] prefix[i] == entities[i]);
        }
        lemma_fired_bullets_wf(prefix, delta_ms);
        assert(entities[entities.len() - 1].wf());
        let fb = fired_bullets(entities, delta_ms);
        let fp = fired_bullets(prefix, delta_ms);
        assert forall|i: int| 0 <= i < fb.len()
            implies ((#[trigger] fb[i]).wf() && !fb[i].is_player()) by {
            if i < fp.len() {
                assert(fb[i] == fp[i]);
            } else {
                assert(fb[i] == enemy_bullet_entity_spec(entities.last().pos));
            }
        }
    }
}

/// One enemy-fire tick: every live enemy's fire timer moves, each
/// completion appends one enemy bullet at that enemy's position;
/// everything else is untouched.
pub open spec fn enemy_fire_rel(w0: World, w1: World, delta_ms: u64) -> bool {
    &&& w1.entities@.len() == w0.entities@.len()
        + fired_bullets(w0.entities@, delta_ms as int).len()
    &&& forall|k: int| 0 <= k < w0.entities@.len()
        ==> #[trigger] w1.entities@[k] == enemy_fired(w0.entities@[k],
            delta_ms as int)
    &&& w1.entities@.skip(w0.entities@.len() as int)
        == fired_bullets(w0.entities@, delta_ms as int)
    &&& w1.explosions == w0.explosions
    &&& w1.score == w0.score
    &&& w1.stage_db == w0.stage_db
    &&& w1.spawn_timer == w0.spawn_timer
    &&& w1.shoot_cooldown == w0.shoot_cooldown
    &&& w1.dead_timer == w0.dead_timer
    &&& w1.game_over_shown == w0.game_over_shown
    &&& w1.elapsed_ms == w0.elapsed_ms
}

/// Ticks every live enemy's fire timer; each completion releases one
/// enemy bullet at that enemy's position and restarts the timer.  The
/// released bullets join the registry after the pass, so a bullet
/// never fires in the tick of its own birth.
pub fn enemy_fire_system(w: &mut World, delta_ms: u64)
    requires
        old(w).wf(),
        delta_ms <= crate::geom::MAX_TICK_MS,
    ensures
        final(w).wf(),
        enemy_fire_rel(*old(w), *final(w), delta_ms),
{
    let n: usize = w.entities.len();
    let mut released: Vec<Entity> = Vec::new();
    let mut k: usize = 0;
    proof {
        assert(fired_bullets(old(w).entities@.take(0), delta_ms as int)
            =~= Seq::<Entity>::empty());
    }
    while k < n
        invariant
            old(w).wf(),
            n == w.entities@.len(),
            n == old(w).entities@.len(),
            k <= n,
            delta_ms <= crate::geom::MAX_TICK_MS,
            forall|m: int| 0 <= m < k
                ==> #[trigger] w.entities@[m] == enemy_fired(old(w).entities@[m],
                    delta_ms as int),
            forall|m: int| k <= m < n
                ==> #[trigger] w.entities@[m] == old(w).entities@[m],
            released@ == fired_bullets(old(w).entities@.take(k as int), delta_ms as int),
            w.explosions == old(w).explosions,
            w.score == old(w).score,
            w.stage_db == old(w).stage_db,
            w.spawn_timer == old(w).spawn_timer,
            w.shoot_cooldown == old(w).shoot_cooldown,
            w.dead_timer == old(w).dead_timer,
            w.game_over_shown == old(w).game_over_shown,
            w.elapsed_ms == old(w).elapsed_ms,
        decreases n - k,
    {
        proof {
            assert(old(w).entities@.take(k + 1).drop_last() =~= old(w).entities@.take(k as int));
            assert(old(w).entities@.take(k + 1).last() == old(w).entities@[k as int]);
        }
        let mut e: Entity = w.entities[k];
        let is_live_enemy = e.alive && (match e.data {
            EntityData::EnemyData(_) => true,
            _ => false,
        });
        if is_live_enemy {
            proof {
                assert(old(w).entities@[k as int].wf());
            }
            let mut es: EnemyState = match e.data {
                EntityData::EnemyData(es) => es,
                _ => {
                    return ;
                },
            };
            let mut t: Timer = es.fire_timer;
            t.tick(delta_ms);
            if t.is_finished() {
                released.push(Entity {
                    pos: e.pos,
                    collider: Collider {
                        shape: ColliderShape::Rectangle {
                            half_extent: Vec2 {
                                x: crate::bullet::ENEMY_BULLET_HALF,
                                y: crate::bullet::ENEMY_BULLET_HALF,
                            },
                        },
                        tag: ColliderTag::Bullet { from_player: false },
                    },
                    alive: true,
                    data: EntityData::BulletData(Bullet {
                        is_player: false,
                        speed: crate::bullet::ENEMY_BULLET_SPEED,
                    }),
                });
                t.reset();
            }
            es.fire_timer = t;
            e.data = EntityData::EnemyData(es);
            w.entities[k] = e;
        }
        proof {
            assert(released@ =~= fired_bullets(old(w).entities@.take(k + 1), delta_ms as int));
        }
        k = k + 1;
    }
    proof {
        assert(old(w).entities@.take(n as int) =~= old(w).entities@);
        lemma_fired_bullets_wf(old(w).entities@, delta_ms as int);
    }
    w.entities.append(&mut released);
    proof {
        let bullets = fired_bullets(old(w).entities@, delta_ms as int);
        assert(w.entities@.skip(n as int) =~= bullets);
        assert(entities_wf(w.entities@)) by {
            assert forall|m: int| 0 <= m < w.entities@.len()
                implies (#[trigger] w.entities@[m]).wf() by {
                if m < n {
                    assert(old(w).entities@[m].wf());
                } else {
                    assert(w.entities@[m] == bullets[m - n]);
                }
            }
        }
        assert(player_singleton(w.entities@)) by {
            assert forall|a: int, b: int| 0 <= a < b < w.entities@.len()
                implies !(#[trigger] w.entities@[a].is_player()
                    && #[trigger] w.entities@[b].is_player()) by {
                if b < n {
                    assert(w.entities@[a].is_player() == old(w).entities@[a].is_player());
                    assert(w.entities@[b].is_player() == old(w).entities@[b].is_player());
                } else {
                    assert(w.entities@[b] == bullets[b - n]);
                    assert(!w.entities@[b].is_player());
                }
            }
        }
    }
}

/// What a spawn attempt leaves behind, given the horizontal draw `x`
/// and the weight draw `v`: the drawn kind (the default kind for an
/// empty or zero-sum distribution) is stamped from the catalog at the
/// spawn line; a drawn kind missing from the catalog falls back to
/// the default kind's definition, and only a catalog without the
/// default spawns nothing.
pub open spec fn spawn_outcome(e0: Seq<Entity>, e1: Seq<Entity>,
    enemy_db: crate::enemy::EnemyDatabase, dist: Seq<(crate::enemy::EnemyKind, u32)>,
    x: i64, v: int) -> bool {
    let kind = if crate::wave::dist_total(dist) > 0 {
        crate::wave::pick_spec(dist, v)
    } else {
        crate::enemy::EnemyKind::DinoStraight
    };
    let pos = Vec2 { x, y: crate::enemy::ENEMY_SPAWN_Y };
    if enemy_db.has_kind(kind) {
        e1 == e0.push(enemy_entity_spec(pos, enemy_db.def_of(kind)))
    } else if enemy_db.has_kind(crate::enemy::EnemyKind::DinoStraight) {
        e1 == e0.push(enemy_entity_spec(pos,
            enemy_db.def_of(crate::enemy::EnemyKind::DinoStraight)))
    } else {
        e1 == e0
    }
}

/// One spawn attempt: the spawn timer ticks, and each completion
/// with a live player stamps one drawn enemy at the spawn line;
/// everything else is untouched.
pub open spec fn spawn_rel(w0: World, w1: World, db: crate::enemy::EnemyDatabase, delta_ms: u64) -> bool {
    &&& w1.spawn_timer == w0.spawn_timer.ticked(delta_ms as int)
    &&& ({
        let ready = w0.spawn_timer.ticked(delta_ms as int).finished
            && seq_has_live_player(w0.entities@);
        let dist = w0.stage_db.current_wave().enemy_distribution@;
        &&& !ready ==> w1.entities@ == w0.entities@
        &&& ready ==> (exists|x: i64, v: int| {
            &&& -crate::enemy::ENEMY_SPAWN_X_RANGE <= x < crate::enemy::ENEMY_SPAWN_X_RANGE
            &&& 0 <= v
            &&& (crate::wave::dist_total(dist) > 0 ==> v < crate::wave::dist_total(dist))
            &&& spawn_outcome(w0.entities@, w1.entities@, db, dist, x, v)
        })
        &&& (ready && db.has_kind(crate::enemy::EnemyKind::DinoStraight))
            ==> w1.entities@.len() == w0.entities@.len() + 1
    })
    &&& w1.explosions == w0.explosions
    &&& w1.score == w0.score
    &&& w1.stage_db == w0.stage_db
    &&& w1.shoot_cooldown == w0.shoot_cooldown
    &&& w1.dead_timer == w0.dead_timer
    &&& w1.game_over_shown == w0.game_over_shown
    &&& w1.elapsed_ms == w0.elapsed_ms
}

/// Attempts one enemy spawn: the spawn timer ticks at the active
/// wave's interval, and on each completion — provided a live player
/// exists — one enemy kind is drawn from the wave's weighted
/// distribution and its definition is stamped at a uniform horizontal
/// position on the spawn line.  A zero-sum or empty distribution, or
/// a drawn kind missing from the catalog, falls back to the default
/// kind; only a catalog without the fallback spawns nothing.
pub fn spawn_enemy_system(w: &mut World, delta_ms: u64, enemy_db: &crate::enemy::EnemyDatabase)
    requires
        old(w).wf(),
        enemy_db.wf(),
        delta_ms <= crate::geom::MAX_TICK_MS,
    ensures
        final(w).wf(),
        spawn_rel(*old(w), *final(w), *enemy_db, delta_ms),
{
    let ghost dist = old(w).stage_db.current_wave().enemy_distribution@;
    w.spawn_timer.tick(delta_ms);
    if !w.spawn_timer.is_finished() {
        return ;
    }
    match w.find_live_player() {
        Some(_) => {},
        None => {
            return ;
        },
    }
    let stage_index: usize = w.stage_db.current_index;
    let wave_index: usize = w.stage_db.settings[stage_index].current_index;
    proof {
        assert(old(w).stage_db.current_stage().waves@[wave_index as int].wf());
    }
    let total: u64 = crate::wave::dist_total_exec(
        &w.stage_db.settings[stage_index].waves[wave_index].enemy_distribution);
    proof {
        crate::wave::lemma_dist_total_bound(dist);
    }
    let value: u64 = if total > 0 {
        crate::rng::draw_in_range(0, total as i64) as u64
    } else {
        0
    };
    let kind: crate::enemy::EnemyKind = if total > 0 {
        crate::wave::pick_enemy_kind(
            &w.stage_db.settings[stage_index].waves[wave_index].enemy_distribution, value)
    } else {
        crate::enemy::EnemyKind::DinoStraight
    };
    let def: EnemyDefinition = match enemy_db.lookup(kind) {
        Some(def) => def,
        None => {
            match enemy_db.lookup(crate::enemy::EnemyKind::DinoStraight) {
                Some(def) => def,
                None => {
                    proof {
                        assert(spawn_outcome(old(w).entities@, w.entities@, *enemy_db, dist,
                            0, value as int));
                    }
                    return ;
                },
            }
        },
    };
    let x: i64 = crate::rng::draw_in_range(-crate::enemy::ENEMY_SPAWN_X_RANGE,
        crate::enemy::ENEMY_SPAWN_X_RANGE);
    w.entities.push(Entity {
        pos: Vec2 { x, y: crate::enemy::ENEMY_SPAWN_Y },
        collider: Collider {
            shape: ColliderShape::Rectangle { half_extent: def.collider_half },
            tag: ColliderTag::Enemy,
        },
        alive: true,
        data: EntityData::EnemyData(EnemyState {
            pattern: def.movement_pattern,
            fire_timer: Timer::new(def.fire_interval_ms, TimerMode::Repeating),
        }),
    });
    proof {
        let n0 = old(w).entities@.len() as int;
        assert(w.entities@ == old(w).entities@.push(enemy_entity_spec(
            Vec2 { x, y: crate::enemy::ENEMY_SPAWN_Y }, def)));
        assert(spawn_outcome(old(w).entities@, w.entities@, *enemy_db, dist, x, value as int));
        assert(entities_wf(w.entities@)) by {
            assert forall|m: int| 0 <= m < w.entities@.len()
                implies (#[trigger] w.entities@[m]).wf() by {
                if m < n0 {
                    assert(old(w).entities@[m].wf());
                }
            }
        }
        assert(player_singleton(w.entities@)) by {
            assert forall|a: int, b: int| 0 <= a < b < w.entities@.len()
                implies !(#[trigger] w.entities@[a].is_player()
                    && #[trigger] w.entities@[b].is_player()) by {
                if b < n0 {
                    assert(w.entities@[a] == old(w).entities@[a]);
                    assert(w.entities@[b] == old(w).entities@[b]);
                } else {
                    assert(!w.entities@[b].is_player());
                }
            }
        }
    }
}

/// Builds the world for a fresh play session on the selected stage:
/// the stage's waves reset, the player alone on the field, the score
/// at zero, and the spawn timer running at the first wave's interval.
pub fn enter_playing(stage_db: StageDatabase) -> (w: World)
    requires
        stage_db.wf(),
    ensures
        w.wf(),
        w.entities@ =~= seq![player_entity_spec()],
        w.has_live_player(),
        w.explosions@.len() == 0,
        w.score.score == 0,
        w.stage_db.wf(),
        w.stage_db.current_index == stage_db.current_index,
        w.stage_db.current_stage().current_index == 0,
        forall|j: int| 0 <= j < stage_db.current_stage().waves@.len()
            ==> #[trigger] w.stage_db.current_stage().waves@[j].defeated_count == 0,
        w.spawn_timer == fresh_repeating(w.stage_db.current_wave().spawn_interval_ms),
        w.shoot_cooldown == fresh_repeating(INITIAL_COOLDOWN_MS),
        w.dead_timer is None,
        !w.game_over_shown,
        w.elapsed_ms == 0,
{
    let mut db = stage_db;
    crate::stage::reset_stage_waves(&mut db);
    let stage_index: usize = db.current_index;
    let interval: u64 = db.settings[stage_index].waves[0].spawn_interval_ms;
    proof {
        assert(db.current_stage().waves@[0].wf());
    }
    let spawn_timer = Timer::new(interval, TimerMode::Repeating);
    let shoot_cooldown = Timer::new(INITIAL_COOLDOWN_MS, TimerMode::Repeating);
    let mut entities: Vec<Entity> = Vec::new();
    spawn_player(&mut entities);
    proof {
        assert(entities@ =~= seq![player_entity_spec()]);
        assert(entities@[0].is_player() && entities@[0].alive);
    }
    World {
        entities,
        explosions: Vec::new(),
        score: Score::new(),
        stage_db: db,
        spawn_timer,
        shoot_cooldown,
        dead_timer: None,
        game_over_shown: false,
        elapsed_ms: 0,
    }
}

/// Tears the session down on leaving play: every gameplay entity and
/// effect is dropped, so nothing leaks into the next session.
pub fn exit_playing(w: &mut World)
    requires
        old(w).wf(),
    ensures
        final(w).wf(),
        final(w).entities@.len() == 0,
        final(w).explosions@.len() == 0,
        final(w).stage_db == old(w).stage_db,
        final(w).score == old(w).score,
{
    w.entities.clear();
    w.explosions.clear();
}

/// Whether some explosion marks the player's destruction.
pub open spec fn player_explosion_exists(explosions: Seq<Explosion>) -> bool {
    exists|i: int| 0 <= i < explosions.len()
        && (#[trigger] explosions[i]).tag == crate::explosion::ExplosionTag::Player
}

/// Scans for a player-tagged explosion.
fn find_player_explosion(explosions: &Vec<Explosion>) -> (r: bool)
    ensures
        r == player_explosion_exists(explosions@),
{
    let mut i: usize = 0;
    while i < explosions.len()
        invariant
            i <= explosions@.len(),
            forall|k: int| 0 <= k < i
                ==> (#[trigger] explosions@[k]).tag != crate::explosion::ExplosionTag::Player,
        decreases explosions@.len() - i,
    {
        match explosions[i].tag {
            crate::explosion::ExplosionTag::Player => {
                return true;
            },
            _ => {},
        }
        i = i + 1;
    }
    false
}

/// One game-over watch: once the player is gone and the death
/// explosion has played out, the delay timer runs toward the
/// game-over prompt, whose confirmation asks for the title screen;
/// gameplay state is untouched.
pub open spec fn playing_rel(w0: World, w1: World, delta_ms: u64, confirm_pressed: bool, to_title: bool) -> bool {
    &&& w1.entities == w0.entities
    &&& w1.explosions == w0.explosions
    &&& w1.score == w0.score
    &&& w1.stage_db == w0.stage_db
    &&& w1.spawn_timer == w0.spawn_timer
    &&& w1.shoot_cooldown == w0.shoot_cooldown
    &&& w1.elapsed_ms == w0.elapsed_ms
    &&& seq_has_live_player(w0.entities@) || player_explosion_exists(w0.explosions@)
        ==> (w1 == w0 && !to_title)
    &&& !(seq_has_live_player(w0.entities@) || player_explosion_exists(w0.explosions@))
        ==> ({
            let armed = match w0.dead_timer {
                Some(t) => t,
                None => Timer {
                    mode: TimerMode::Once,
                    duration_ms: DEAD_DELAY_MS,
                    elapsed_ms: 0,
                    finished: false,
                    paused: false,
                },
            };
            let ticked = armed.ticked(delta_ms as int);
            if ticked.finished {
                &&& w1.dead_timer == Some(Timer { paused: true, ..ticked })
                &&& w1.game_over_shown
                &&& to_title == confirm_pressed
            } else {
                &&& w1.dead_timer == Some(ticked)
                &&& w1.game_over_shown == w0.game_over_shown
                &&& !to_title
            }
        })
}

/// Watches for the end of the death sequence: once the player is gone
/// and the death explosion has played out, a delay timer runs; when
/// it completes, the game-over prompt goes up, and confirming it asks
/// for the return to the title screen.  While the player lives (or
/// the explosion still plays) nothing changes.
pub fn playing_system(w: &mut World, delta_ms: u64, confirm_pressed: bool) -> (to_title: bool)
    requires
        old(w).wf(),
        delta_ms <= crate::geom::MAX_TICK_MS,
    ensures
        final(w).wf(),
        playing_rel(*old(w), *final(w), delta_ms, confirm_pressed, to_title),
{
    let alive = match w.find_live_player() {
        Some(_) => true,
        None => false,
    };
    if alive || find_player_explosion(&w.explosions) {
        return false;
    }
    let mut t: Timer = match w.dead_timer {
        Some(t) => t,
        None => Timer::new(DEAD_DELAY_MS, TimerMode::Once),
    };
    t.tick(delta_ms);
    if t.is_finished() {
        w.game_over_shown = true;
        t.pause();
        w.dead_timer = Some(t);
        confirm_pressed
    } else {
        w.dead_timer = Some(t);
        false
    }
}

/// The registry with the entities marked for removal dropped, order
/// kept.
pub open spec fn flushed(entities: Seq<Entity>) -> Seq<Entity> {
    entities.filter(|e: Entity| e.alive)
}

/// Drops every entity marked for removal.  Removing an entity that is
/// already gone needs no care here: marks are idempotent and the flush
/// only drops what is marked.
pub fn flush_removals(entities: &mut Vec<Entity>)
    requires
        entities_wf(old(entities)@),
        player_singleton(old(entities)@),
    ensures
        final(entities)@ == flushed(old(entities)@),
        entities_wf(final(entities)@),
        player_singleton(final(entities)@),
        forall|i: int| 0 <= i < final(entities)@.len() ==> (#[trigger] final(entities)@[i]).alive,
{
    let mut kept: Vec<Entity> = Vec::new();
    let mut i: usize = 0;
    proof {
        assert(entities@.take(0).filter(|e: Entity| e.alive) =~= Seq::<Entity>::empty());
    }
    while i < entities.len()
        invariant
            entities_wf(entities@),
            i <= entities@.len(),
            kept@ == entities@.take(i as int).filter(|e: Entity| e.alive),
        decreases entities@.len() - i,
    {
        proof {
            assert(entities@.take(i + 1).drop_last() =~= entities@.take(i as int));
            assert(entities@.take(i + 1).last() == entities@[i as int]);
            reveal_with_fuel(Seq::filter, 2);
        }
        let e = entities[i];
        if e.alive {
            kept.push(e);
        }
        i = i + 1;
    }
    proof {
        assert(entities@.take(entities@.len() as int) =~= entities@);
        lemma_flushed_props(entities@);
    }
    *entities = kept;
}

/// The item entities a list of decided drops turns into, in order.
pub open spec fn spawned_drops(drops: Seq<(Vec2, ItemType)>) -> Seq<Entity>
    decreases drops.len(),
{
    if drops.len() == 0 {
        Seq::<Entity>::empty()
    } else {
        spawned_drops(drops.drop_last()).push(item_entity_spec(drops.last().0, drops.last().1))
    }
}

/// Places the item drops the collision scan decided on, after every
/// read of the registry is done.
pub fn place_item_drops(entities: &mut Vec<Entity>, drops: &Vec<(Vec2, ItemType)>)
    requires
        entities_wf(old(entities)@),
        player_singleton(old(entities)@),
        forall|m: int| 0 <= m < drops@.len() ==> (#[trigger] drops@[m]).0.in_bounds(),
    ensures
        entities_wf(final(entities)@),
        player_singleton(final(entities)@),
        final(entities)@ == old(entities)@ + spawned_drops(drops@),
{
    proof {
        assert(old(entities)@ + spawned_drops(drops@.take(0)) =~= old(entities)@);
    }
    let mut i: usize = 0;
    while i < drops.len()
        invariant
            entities_wf(entities@),
            player_singleton(entities@),
            forall|m: int| 0 <= m < drops@.len() ==> (#[trigger] drops@[m]).0.in_bounds(),
            i <= drops@.len(),
            entities@ == old(entities)@ + spawned_drops(drops@.take(i as int)),
        decreases drops@.len() - i,
    {
        let (pos, kind) = drops[i];
        spawn_item(entities, pos, kind);
        proof {
            assert(drops@.take(i + 1).drop_last() =~= drops@.take(i as int));
            assert(drops@.take(i + 1).last() == drops@[i as int]);
            assert(entities@ =~= old(entities)@ + spawned_drops(drops@.take(i + 1)));
        }
        i = i + 1;
    }
    proof {
        assert(drops@.take(drops@.len() as int) =~= drops@);
    }
}

/// The per-tick snapshot the surrounding layer hands the core: the
/// frame delta, which keys are held or were pressed, and the zigzag
/// sway factor it derived from the global elapsed time.
#[derive(Clone, Copy, PartialEq, Eq, Structural, Debug)]
pub struct TickInput {
    pub delta_ms: u64,
    pub movement: crate::player::MoveInput,
    pub fire_held: bool,
    pub confirm_pressed: bool,
    /// Scaled sine of the elapsed time, in
    /// `[-SWAY_SCALE, SWAY_SCALE]`.
    pub sway: i64,
}

/// What one tick hands back to the surrounding layer.
pub struct TickOutcome {
    /// Audio cues raised this tick, in order.
    pub cues: Vec<crate::effects::AudioCue>,
    /// The last wave's target was met: the stage is clear.
    pub stage_cleared: bool,
    /// The game-over prompt was confirmed: return to the title.
    pub go_title: bool,
}

/// The worlds a tick passes through, one per phase, with the cues
/// and drops the middle phases produce: the ghost record a tick hands
/// back so that its contract can chain every phase's relation.
pub struct TickTrace {
    pub after_clock: World,
    pub after_spawn: World,
    pub after_shoot: World,
    pub cues_after_shoot: Seq<crate::effects::AudioCue>,
    pub after_fire: World,
    pub after_player_move: World,
    pub after_enemy_move: World,
    pub after_bullet_move: World,
    pub after_invincibility: World,
    pub after_collision: World,
    pub collision_cues: Seq<crate::effects::AudioCue>,
    pub drops: Seq<(Vec2, ItemType)>,
    pub after_explosions: World,
    pub after_drops: World,
    pub after_flush: World,
    pub after_waves: World,
    pub advance: crate::stage::WaveAdvance,
}

/// One tick is exactly the composition of its phases, in the fixed
/// order: the clock, spawn decisions (enemy spawning, player fire,
/// enemy fire), movement integration (player, enemies, bullets), the
/// invincibility countdown, collision detection and resolution,
/// explosion animation, placement of the decided item drops, the
/// removal flush, wave progression, and the game-over watch.  Each
/// step holds its phase's exact relation between the neighbouring
/// worlds of the trace.
pub open spec fn tick_rel(w0: World, w1: World, db: crate::enemy::EnemyDatabase,
    input: TickInput, t: TickTrace, out_cues: Seq<crate::effects::AudioCue>,
    stage_cleared: bool, go_title: bool) -> bool {
    &&& t.after_clock == (World {
        elapsed_ms: if w0.elapsed_ms + input.delta_ms <= u64::MAX {
            (w0.elapsed_ms + input.delta_ms) as u64
        } else {
            u64::MAX
        },
        ..w0
    })
    &&& spawn_rel(t.after_clock, t.after_spawn, db, input.delta_ms)
    &&& shoot_rel(t.after_spawn, t.after_shoot, input.fire_held, input.delta_ms,
        Seq::<crate::effects::AudioCue>::empty(), t.cues_after_shoot)
    &&& enemy_fire_rel(t.after_shoot, t.after_fire, input.delta_ms)
    &&& player_move_rel(t.after_fire, t.after_player_move, input.movement, input.delta_ms)
    &&& enemy_move_rel(t.after_player_move, t.after_enemy_move, input.delta_ms, input.sway)
    &&& bullet_move_rel(t.after_enemy_move, t.after_bullet_move, input.delta_ms)
    &&& invincibility_rel(t.after_bullet_move, t.after_invincibility, input.delta_ms)
    &&& crate::collision::collision_rel(t.after_invincibility, t.after_collision,
        t.collision_cues, t.drops)
    &&& t.after_explosions == (World {
        explosions: t.after_explosions.explosions,
        ..t.after_collision
    })
    &&& t.after_explosions.explosions@ == crate::explosion::explosions_after(
        t.after_collision.explosions@, input.delta_ms as int)
    &&& t.after_drops == (World { entities: t.after_drops.entities, ..t.after_explosions })
    &&& t.after_drops.entities@ == t.after_explosions.entities@ + spawned_drops(t.drops)
    &&& t.after_flush == (World { entities: t.after_flush.entities, ..t.after_drops })
    &&& t.after_flush.entities@ == flushed(t.after_drops.entities@)
    &&& t.after_waves == (World {
        stage_db: t.after_waves.stage_db,
        spawn_timer: t.after_waves.spawn_timer,
        ..t.after_flush
    })
    &&& crate::stage::waves_rel(t.after_flush.stage_db, t.after_flush.spawn_timer,
        t.after_waves.stage_db, t.after_waves.spawn_timer, t.advance)
    &&& playing_rel(t.after_waves, w1, input.delta_ms, input.confirm_pressed, go_title)
    &&& out_cues == t.cues_after_shoot + t.collision_cues
    &&& stage_cleared == (t.advance == crate::stage::WaveAdvance::Cleared)
}

/// Runs one simulation tick.  The outcome carries the cues and
/// transition flags; the ghost trace beside it witnesses that the
/// final world is exactly the composition of the phase relations, in
/// the order `tick_rel` fixes.
pub fn playing_tick(w: &mut World, enemy_db: &crate::enemy::EnemyDatabase, input: TickInput)
    -> (out: (TickOutcome, Ghost<TickTrace>))
    requires
        old(w).wf(),
        enemy_db.wf(),
        input.delta_ms <= crate::geom::MAX_TICK_MS,
        -crate::enemy::SWAY_SCALE <= input.sway <= crate::enemy::SWAY_SCALE,
    ensures
        final(w).wf(),
        tick_rel(*old(w), *final(w), *enemy_db, input, out.1@, out.0.cues@,
            out.0.stage_cleared, out.0.go_title),
        final(w).score.score >= old(w).score.score,
        final(w).elapsed_ms == if old(w).elapsed_ms + input.delta_ms <= u64::MAX {
            old(w).elapsed_ms + input.delta_ms
        } else {
            u64::MAX as int
        },
        out.0.go_title ==> final(w).game_over_shown,
        forall|i: int| 0 <= i < final(w).entities@.len()
            ==> (#[trigger] final(w).entities@[i]).alive,
{
    let delta: u64 = input.delta_ms;
    if w.elapsed_ms <= u64::MAX - delta {
        w.elapsed_ms = w.elapsed_ms + delta;
    } else {
        w.elapsed_ms = u64::MAX;
    }
    let ghost g_clock = *w;
    spawn_enemy_system(w, delta, enemy_db);
    let ghost g_spawn = *w;
    let mut cues: Vec<crate::effects::AudioCue> = Vec::new();
    player_shoot_system(w, input.fire_held, delta, &mut cues);
    let ghost g_shoot = *w;
    let ghost g_shoot_cues = cues@;
    enemy_fire_system(w, delta);
    let ghost g_fire = *w;
    player_movement_system(w, input.movement, delta);
    let ghost g_pmove = *w;
    enemy_movement_system(w, delta, input.sway);
    let ghost g_emove = *w;
    bullet_movement_system(w, delta);
    let ghost g_bmove = *w;
    player_invincibility_system(w, delta);
    let ghost g_inv = *w;
    let (mut collision_cues, drops) = crate::collision::collision_system(w);
    let ghost g_coll = *w;
    let ghost g_coll_cues = collision_cues@;
    cues.append(&mut collision_cues);
    crate::explosion::explosion_system(&mut w.explosions, delta);
    let ghost g_expl = *w;
    place_item_drops(&mut w.entities, &drops);
    let ghost g_drops = *w;
    flush_removals(&mut w.entities);
    let ghost g_flush = *w;
    let advance = crate::stage::update_waves(&mut w.stage_db, &mut w.spawn_timer);
    let ghost g_waves = *w;
    let stage_cleared = match advance {
        crate::stage::WaveAdvance::Cleared => true,
        _ => false,
    };
    let go_title = playing_system(w, delta, input.confirm_pressed);
    let ghost trace = TickTrace {
        after_clock: g_clock,
        after_spawn: g_spawn,
        after_shoot: g_shoot,
        cues_after_shoot: g_shoot_cues,
        after_fire: g_fire,
        after_player_move: g_pmove,
        after_enemy_move: g_emove,
        after_bullet_move: g_bmove,
        after_invincibility: g_inv,
        after_collision: g_coll,
        collision_cues: g_coll_cues,
        drops: drops@,
        after_explosions: g_expl,
        after_drops: g_drops,
        after_flush: g_flush,
        after_waves: g_waves,
        advance,
    };
    (TickOutcome { cues, stage_cleared, go_title }, Ghost(trace))
}

/// Some entity of the registry is the player, live or not.
pub open spec fn has_player(entities: Seq<Entity>) -> bool {
    exists|i: int| 0 <= i < entities.len() && (#[trigger] entities[i]).is_player()
}

/// Flushing keeps well-formedness and the player singleton, leaves
/// only live entities, and introduces no player.
pub proof fn lemma_flushed_props(entities: Seq<Entity>)
    requires
        entities_wf(entities),
        player_singleton(entities),
    ensures
        entities_wf(flushed(entities)),
        player_singleton(flushed(entities)),
        forall|i: int| 0 <= i < flushed(entities).len()
            ==> (#[trigger] flushed(entities)[i]).alive,
        has_player(flushed(entities)) ==> has_player(entities),
    decreases entities.len(),
{
    reveal_with_fuel(Seq::filter, 2);
    let fl = flushed(entities);
    if entities.len() > 0 {
        let prefix = entities.drop_last();
        let last = entities.last();
        assert(entities_wf(prefix) && player_singleton(prefix)) by {
            assert(forall|i: int| 0 <= i < prefix.len()
                ==> #[trigger] prefix[i] == entities[i]);
        }
        lemma_flushed_props(prefix);
        let fd = flushed(prefix);
        if last.alive {
            assert(fl =~= fd.push(last));
            if last.is_player() {
                assert forall|k: int| 0 <= k < prefix.len()
                    implies !(#[trigger] prefix[k]).is_player() by {
                    assert(prefix[k] == entities[k]);
                    assert(!(entities[k].is_player() && entities[entities.len() - 1].is_player()));
                }
                assert(!has_player(prefix));
                assert(!has_player(fd));
                assert forall|k: int| 0 <= k < fd.len()
                    implies !(#[trigger] fd[k]).is_player() by {
                    if fd[k].is_player() {
                        assert(has_player(fd));
                    }
                }
            }
            assert(player_singleton(fl)) by {
                assert forall|i: int, j: int| 0 <= i < j < fl.len()
                    implies !(#[trigger] fl[i].is_player() && #[trigger] fl[j].is_player()) by {
                    if j < fl.len() - 1 {
                        assert(fl[i] == fd[i] && fl[j] == fd[j]);
                    } else {
                        assert(fl[i] == fd[i] && fl[j] == last);
                        if last.is_player() && fd[i].is_player() {
                            assert(has_player(fd));
                        }
                    }
                }
            }
            if has_player(fl) {
                let w = choose|i: int| 0 <= i < fl.len() && (#[trigger] fl[i]).is_player();
                if w < fl.len() - 1 {
                    assert(fl[w] == fd[w]);
                    assert(has_player(fd));
                    assert(has_player(prefix));
                    let v = choose|i: int| 0 <= i < prefix.len()
                        && (#[trigger] prefix[i]).is_player();
                    assert(entities[v].is_player());
                    assert(has_player(entities));
                } else {
                    assert(entities[entities.len() - 1].is_player());
                    assert(has_player(entities));
                }
            }
        } else {
            assert(fl =~= fd);
            if has_player(fl) {
                assert(has_player(prefix));
                let v = choose|i: int| 0 <= i < prefix.len()
                    && (#[trigger] prefix[i]).is_player();
                assert(entities[v].is_player());
                assert(has_player(entities));
            }
        }
    }
}

} // verus!
