//! The collision engine: shape-versus-shape overlap tests, the scan
//! over every unordered pair of live collidable entities, and the
//! tag-pair-keyed resolution of each overlap.

use vstd::prelude::*;
use crate::effects::AudioCue;
use crate::explosion::{
    count_tagged, fresh_explosion, lemma_count_tagged_push, spawn_explosion, Explosion,
    ExplosionTag,
};
use crate::geom::{abs_spec, Vec2, MAX_EXTENT};
use crate::item::{roll_item_drop, ItemType, ITEM_DROP_CHANCE};
use crate::player::Player;
use crate::rng::draw_in_range;
use crate::score::{Score, KILL_AWARD};
use crate::stage::{defeat_recorded, StageDatabase};
use crate::world::{
    entities_wf, find_live_player_in, player_singleton, seq_has_live_player, seq_live_player,
    Entity, EntityData, World,
};

verus! {

/// The collision shape of an entity, immutable for its life.
#[derive(Clone, Copy, PartialEq, Eq, Structural, Debug)]
pub enum ColliderShape {
    Circle { radius: i64 },
    /// An axis-aligned box given by its half-extents.
    Rectangle { half_extent: Vec2 },
    /// Treated as its axis-aligned bounding box; no rotation is
    /// modeled.
    Capsule { half_extent: Vec2 },
}

impl ColliderShape {
    pub open spec fn wf(self) -> bool {
        match self {
            ColliderShape::Circle { radius } => 1 <= radius <= MAX_EXTENT,
            ColliderShape::Rectangle { half_extent } | ColliderShape::Capsule { half_extent } => {
                &&& 1 <= half_extent.x <= MAX_EXTENT
                &&& 1 <= half_extent.y <= MAX_EXTENT
            },
        }
    }
}

/// The role a collidable entity plays in resolution.
#[derive(Clone, Copy, PartialEq, Eq, Structural, Debug)]
pub enum ColliderTag {
    Player,
    Enemy,
    Bullet { from_player: bool },
    Item,
}

/// Shape and role of a collidable entity.
#[derive(Clone, Copy, PartialEq, Eq, Structural, Debug)]
pub struct Collider {
    pub shape: ColliderShape,
    pub tag: ColliderTag,
}

impl Collider {
    pub open spec fn wf(self) -> bool {
        self.shape.wf()
    }
}

/// Whether two placed shapes overlap:
/// - two circles overlap exactly when the squared distance of their
///   centers falls below the square of the radius sum;
/// - two rectangles, or two capsules, overlap exactly when they
///   overlap on both axes, strictly — boxes touching edge to edge do
///   not collide;
/// - a mixed pair of shapes has no overlap test and never collides.
pub open spec fn overlaps_spec(s1: ColliderShape, p1: Vec2, s2: ColliderShape, p2: Vec2) -> bool {
    match (s1, s2) {
        (ColliderShape::Circle { radius: r1 }, ColliderShape::Circle { radius: r2 }) => {
            (p1.x - p2.x) * (p1.x - p2.x) + (p1.y - p2.y) * (p1.y - p2.y)
                < (r1 + r2) * (r1 + r2)
        },
        (
            ColliderShape::Rectangle { half_extent: h1 },
            ColliderShape::Rectangle { half_extent: h2 },
        ) => rects_overlap(h1, p1, h2, p2),
        (
            ColliderShape::Capsule { half_extent: h1 },
            ColliderShape::Capsule { half_extent: h2 },
        ) => rects_overlap(h1, p1, h2, p2),
        _ => false,
    }
}

/// The axis-aligned box test, strict on both axes.
pub open spec fn rects_overlap(h1: Vec2, p1: Vec2, h2: Vec2, p2: Vec2) -> bool {
    &&& abs_spec(p1.x - p2.x) < h1.x + h2.x
    &&& abs_spec(p1.y - p2.y) < h1.y + h2.y
}

/// Tests two placed shapes for overlap.
pub fn overlaps(s1: ColliderShape, p1: Vec2, s2: ColliderShape, p2: Vec2) -> (b: bool)
    requires
        s1.wf(),
        s2.wf(),
        p1.in_bounds(),
        p2.in_bounds(),
    ensures
        b == overlaps_spec(s1, p1, s2, p2),
{
    match (s1, s2) {
        (ColliderShape::Circle { radius: r1 }, ColliderShape::Circle { radius: r2 }) => {
            let dx: i64 = p1.x - p2.x;
            let dy: i64 = p1.y - p2.y;
            proof {
                assert(dx * dx + dy * dy <= 8_000_000_000_000_000_000
                    && dx * dx >= 0 && dy * dy >= 0) by (nonlinear_arith)
                    requires
                        -2_000_000_000 <= dx <= 2_000_000_000,
                        -2_000_000_000 <= dy <= 2_000_000_000,
                    ;
                assert((r1 + r2) * (r1 + r2) <= 4_000_000_000_000 && (r1 + r2) * (r1 + r2) >= 0)
                    by (nonlinear_arith)
                    requires 0 <= r1 + r2 <= 2_000_000;
            }
            dx * dx + dy * dy < (r1 + r2) * (r1 + r2)
        },
        (
            ColliderShape::Rectangle { half_extent: h1 },
            ColliderShape::Rectangle { half_extent: h2 },
        ) => rects_overlap_exec(h1, p1, h2, p2),
        (
            ColliderShape::Capsule { half_extent: h1 },
            ColliderShape::Capsule { half_extent: h2 },
        ) => rects_overlap_exec(h1, p1, h2, p2),
        _ => false,
    }
}

/// Runs the axis-aligned box test.
fn rects_overlap_exec(h1: Vec2, p1: Vec2, h2: Vec2, p2: Vec2) -> (b: bool)
    requires
        p1.in_bounds(),
        p2.in_bounds(),
        1 <= h1.x <= MAX_EXTENT,
        1 <= h1.y <= MAX_EXTENT,
        1 <= h2.x <= MAX_EXTENT,
        1 <= h2.y <= MAX_EXTENT,
    ensures
        b == rects_overlap(h1, p1, h2, p2),
{
    let dx: i64 = p1.x - p2.x;
    let dy: i64 = p1.y - p2.y;
    let adx: i64 = if dx < 0 { -dx } else { dx };
    let ady: i64 = if dy < 0 { -dy } else { dy };
    adx < h1.x + h2.x && ady < h1.y + h2.y
}

/// How damage to the player resolves: nothing while the invincibility
/// window is open; otherwise one hit point lost and the window
/// reopened — lethally, the player entity is marked removed, an
/// explosion appears at its position and the explosion cue plays;
/// survivably, the damage cue plays.
pub open spec fn damage_resolution(pi: int, e0: Seq<Entity>, e1: Seq<Entity>,
    x0: Seq<Explosion>, x1: Seq<Explosion>, c0: Seq<AudioCue>, c1: Seq<AudioCue>) -> bool
    recommends
        0 <= pi < e0.len(),
        e0[pi].is_player(),
{
    let p = e0[pi].player();
    if p.invincible_ms > 0 {
        e1 == e0 && x1 == x0 && c1 == c0
    } else if p.hp == 1 {
        &&& e1 == e0.update(pi, Entity {
            alive: false,
            data: EntityData::PlayerData(p.damaged()),
            ..e0[pi]
        })
        &&& x1 == x0.push(fresh_explosion(e0[pi].pos, ExplosionTag::Player))
        &&& c1 == c0.push(AudioCue::Explosion)
    } else {
        &&& e1 == e0.update(pi, Entity { data: EntityData::PlayerData(p.damaged()), ..e0[pi] })
        &&& x1 == x0
        &&& c1 == c0.push(AudioCue::Damage)
    }
}

/// How an enemy killed by a player bullet resolves: the enemy is
/// marked removed and leaves an explosion and the explosion cue; the
/// bullet is marked removed unless the live player pierces (with no
/// live player the bullet is left alone); the kill is scored and
/// recorded against the active wave; an item may drop at the enemy's
/// position, any of the three kinds.
pub open spec fn kill_resolution(ei: int, bi: int, e0: Seq<Entity>, e1: Seq<Entity>,
    x0: Seq<Explosion>, x1: Seq<Explosion>, c0: Seq<AudioCue>, c1: Seq<AudioCue>,
    s0: Score, s1: Score, db0: StageDatabase, db1: StageDatabase,
    p0: Seq<(Vec2, ItemType)>, p1: Seq<(Vec2, ItemType)>) -> bool
    recommends
        0 <= ei < e0.len(),
        0 <= bi < e0.len(),
        ei != bi,
{
    let bullet_stays = if seq_has_live_player(e0) {
        seq_live_player(e0).piercing
    } else {
        true
    };
    let enemy_dead = e0.update(ei, Entity { alive: false, ..e0[ei] });
    &&& e1 == if bullet_stays {
        enemy_dead
    } else {
        enemy_dead.update(bi, Entity { alive: false, ..e0[bi] })
    }
    &&& x1 == x0.push(fresh_explosion(e0[ei].pos, ExplosionTag::Enemy))
    &&& c1 == c0.push(AudioCue::Explosion)
    &&& s1.score == if s0.score + KILL_AWARD <= u64::MAX {
        s0.score + KILL_AWARD
    } else {
        s0.score as int
    }
    &&& defeat_recorded(db0, db1)
    &&& (p1 == p0 || exists|k: ItemType| p1 == p0.push((e0[ei].pos, k)))
}

/// How an item pickup resolves: the item's effect mutates the player
/// and the item entity is marked removed.
pub open spec fn item_resolution(pi: int, ii: int, e0: Seq<Entity>, e1: Seq<Entity>) -> bool
    recommends
        0 <= pi < e0.len(),
        0 <= ii < e0.len(),
        pi != ii,
        e0[pi].is_player(),
        e0[ii].is_item(),
{
    let p = e0[pi].player();
    let kind = e0[ii].data->ItemData_0;
    e1 == e0.update(pi, Entity {
        data: EntityData::PlayerData(crate::item::item_applied(p, kind)),
        ..e0[pi]
    }).update(ii, Entity { alive: false, ..e0[ii] })
}

/// Applies damage to the player entity at `player_idx`.
pub fn handle_player_enemy_collision(entities: &mut Vec<Entity>, player_idx: usize,
    explosions: &mut Vec<Explosion>, cues: &mut Vec<AudioCue>)
    requires
        entities_wf(old(entities)@),
        player_singleton(old(entities)@),
        player_idx < old(entities)@.len(),
        old(entities)@[player_idx as int].is_player(),
        old(entities)@[player_idx as int].alive,
    ensures
        entities_wf(final(entities)@),
        player_singleton(final(entities)@),
        damage_resolution(player_idx as int, old(entities)@, final(entities)@,
            old(explosions)@, final(explosions)@, old(cues)@, final(cues)@),
{
    proof {
        assert(entities@[player_idx as int].wf());
    }
    let e = entities[player_idx];
    let mut p: Player = match e.data {
        EntityData::PlayerData(p) => p,
        _ => {
            return ;
        },
    };
    if p.invincible_ms > 0 {
        return ;
    }
    let died = p.apply_damage();
    let mut ent = e;
    ent.data = EntityData::PlayerData(p);
    if died {
        ent.alive = false;
        entities[player_idx] = ent;
        spawn_explosion(explosions, e.pos, ExplosionTag::Player);
        cues.push(AudioCue::Explosion);
    } else {
        entities[player_idx] = ent;
        cues.push(AudioCue::Damage);
    }
}

/// Resolves an enemy hit by a player bullet.
pub fn handle_enemy_bullet_collision(entities: &mut Vec<Entity>, enemy_idx: usize,
    bullet_idx: usize, explosions: &mut Vec<Explosion>, cues: &mut Vec<AudioCue>,
    score: &mut Score, stage_db: &mut StageDatabase, pending_items: &mut Vec<(Vec2, ItemType)>)
    requires
        entities_wf(old(entities)@),
        player_singleton(old(entities)@),
        old(stage_db).wf(),
        enemy_idx < old(entities)@.len(),
        bullet_idx < old(entities)@.len(),
        enemy_idx != bullet_idx,
        old(entities)@[enemy_idx as int].is_enemy(),
        old(entities)@[bullet_idx as int].is_bullet(),
    ensures
        entities_wf(final(entities)@),
        player_singleton(final(entities)@),
        final(stage_db).wf(),
        kill_resolution(enemy_idx as int, bullet_idx as int, old(entities)@, final(entities)@,
            old(explosions)@, final(explosions)@, old(cues)@, final(cues)@,
            *old(score), *final(score), *old(stage_db), *final(stage_db),
            old(pending_items)@, final(pending_items)@),
{
    proof {
        assert(entities@[enemy_idx as int].wf());
        assert(entities@[bullet_idx as int].wf());
    }
    let enemy_pos = entities[enemy_idx].pos;
    match find_live_player_in(entities) {
        Some(pi) => {
            let piercing = match entities[pi].data {
                EntityData::PlayerData(p) => p.piercing,
                _ => false,
            };
            proof {
                lemma_live_player_agrees(entities@, pi as int);
            }
            if !piercing {
                let mut b = entities[bullet_idx];
                b.alive = false;
                entities[bullet_idx] = b;
            }
        },
        None => {},
    }
    let mut en = entities[enemy_idx];
    en.alive = false;
    entities[enemy_idx] = en;
    spawn_explosion(explosions, enemy_pos, ExplosionTag::Enemy);
    cues.push(AudioCue::Explosion);
    score.add_kill_award();
    stage_db.record_defeat();
    let chance = draw_in_range(0, 100);
    if chance < ITEM_DROP_CHANCE {
        let kind_draw = draw_in_range(0, 3);
        match roll_item_drop(chance, kind_draw) {
            Some(kind) => {
                pending_items.push((enemy_pos, kind));
            },
            None => {},
        }
    }
    proof {
        let e0 = old(entities)@;
        let bullet_stays = if seq_has_live_player(e0) { seq_live_player(e0).piercing }
            else { true };
        let enemy_dead = e0.update(enemy_idx as int, Entity {
            alive: false,
            ..e0[enemy_idx as int]
        });
        if bullet_stays {
            assert(entities@ =~= enemy_dead);
        } else {
            assert(entities@ =~= enemy_dead.update(bullet_idx as int, Entity {
                alive: false,
                ..e0[bullet_idx as int]
            }));
        }
    }
}

/// In a registry with at most one player, any live player index found
/// carries the live player's state.
proof fn lemma_live_player_agrees(entities: Seq<Entity>, pi: int)
    requires
        player_singleton(entities),
        0 <= pi < entities.len(),
        entities[pi].is_player(),
        entities[pi].alive,
    ensures
        seq_has_live_player(entities),
        seq_live_player(entities) == entities[pi].player(),
{
    let w = crate::world::seq_live_player_index(entities);
    if w != pi {
        assert(!(entities[if w < pi { w } else { pi }].is_player()
            && entities[if w < pi { pi } else { w }].is_player()));
    }
}

/// The first tag takes damage from the second: the player rammed by
/// an enemy or hit by an enemy bullet.
pub open spec fn is_damage_pair(a: ColliderTag, b: ColliderTag) -> bool {
    a == ColliderTag::Player && (b == ColliderTag::Enemy
        || b == (ColliderTag::Bullet { from_player: false }))
}

/// The first tag is an enemy killed by the second, a player bullet.
pub open spec fn is_kill_pair(a: ColliderTag, b: ColliderTag) -> bool {
    a == ColliderTag::Enemy && b == (ColliderTag::Bullet { from_player: true })
}

/// The first tag is the player picking up the second, an item.
pub open spec fn is_item_pair(a: ColliderTag, b: ColliderTag) -> bool {
    a == ColliderTag::Player && b == ColliderTag::Item
}

/// No resolution is keyed to this unordered tag pair.
pub open spec fn no_effect_pair(a: ColliderTag, b: ColliderTag) -> bool {
    &&& !is_damage_pair(a, b)
    &&& !is_damage_pair(b, a)
    &&& !is_kill_pair(a, b)
    &&& !is_kill_pair(b, a)
    &&& !is_item_pair(a, b)
    &&& !is_item_pair(b, a)
}

/// The full effect of resolving the pair (i, j), keyed by its tags in
/// `e0`: the frame facts every resolution obeys (no entity moves or
/// changes collider or kind, nothing revives), and the exact per-case
/// relation — both orders of each handled tag pair alike, and no
/// effect at all for an unhandled pair.
pub open spec fn pair_outcome(i: int, j: int, e0: Seq<Entity>, e1: Seq<Entity>,
    x0: Seq<Explosion>, x1: Seq<Explosion>, c0: Seq<AudioCue>, c1: Seq<AudioCue>,
    s0: Score, s1: Score, db0: StageDatabase, db1: StageDatabase,
    p0: Seq<(Vec2, ItemType)>, p1: Seq<(Vec2, ItemType)>) -> bool
    recommends
        0 <= i < e0.len(),
        0 <= j < e0.len(),
        i != j,
{
    let t1 = e0[i].collider.tag;
    let t2 = e0[j].collider.tag;
    &&& e1.len() == e0.len()
    &&& forall|k: int| 0 <= k < e0.len() ==> {
        &&& (#[trigger] e1[k]).pos == e0[k].pos
        &&& e1[k].collider == e0[k].collider
        &&& e1[k].is_player() == e0[k].is_player()
    }
    &&& forall|k: int| 0 <= k < e0.len() ==> ((#[trigger] e1[k]).alive ==> e0[k].alive)
    &&& is_damage_pair(t1, t2) ==> (damage_resolution(i, e0, e1, x0, x1, c0, c1)
        && s1 == s0 && db1 == db0 && p1 == p0)
    &&& is_damage_pair(t2, t1) ==> (damage_resolution(j, e0, e1, x0, x1, c0, c1)
        && s1 == s0 && db1 == db0 && p1 == p0)
    &&& is_kill_pair(t1, t2) ==> kill_resolution(i, j, e0, e1, x0, x1, c0, c1, s0, s1,
        db0, db1, p0, p1)
    &&& is_kill_pair(t2, t1) ==> kill_resolution(j, i, e0, e1, x0, x1, c0, c1, s0, s1,
        db0, db1, p0, p1)
    &&& is_item_pair(t1, t2) ==> (item_resolution(i, j, e0, e1) && x1 == x0 && c1 == c0
        && s1 == s0 && db1 == db0 && p1 == p0)
    &&& is_item_pair(t2, t1) ==> (item_resolution(j, i, e0, e1) && x1 == x0 && c1 == c0
        && s1 == s0 && db1 == db0 && p1 == p0)
    &&& no_effect_pair(t1, t2) ==> (e1 == e0 && x1 == x0 && c1 == c0 && s1 == s0
        && db1 == db0 && p1 == p0)
}

/// The pair (a, b) is the only pair of live entities that overlaps in
/// the registry.
pub open spec fn sole_overlap(entities: Seq<Entity>, a: int, b: int) -> bool {
    &&& 0 <= a < b < entities.len()
    &&& entities[a].alive && entities[b].alive
    &&& overlaps_spec(entities[a].collider.shape, entities[a].pos,
        entities[b].collider.shape, entities[b].pos)
    &&& forall|i: int, j: int| 0 <= i < j < entities.len() && !(i == a && j == b)
        ==> !((#[trigger] entities[i]).alive && (#[trigger] entities[j]).alive
            && overlaps_spec(entities[i].collider.shape, entities[i].pos,
                entities[j].collider.shape, entities[j].pos))
}

/// Whether the scan, about to visit pair (i, j), has already visited
/// pair (a, b): pairs are visited in lexicographic order.
pub open spec fn scan_passed(a: int, b: int, i: int, j: int) -> bool {
    a < i || (a == i && b < j)
}

/// A dead player entity leaves the registry without a live player.
proof fn lemma_no_live_player_after_death(e0: Seq<Entity>, e1: Seq<Entity>, pi: int)
    requires
        player_singleton(e0),
        0 <= pi < e0.len(),
        e0[pi].is_player(),
        e1.len() == e0.len(),
        !e1[pi].alive,
        forall|k: int| 0 <= k < e0.len() && k != pi ==> #[trigger] e1[k] == e0[k],
    ensures
        !seq_has_live_player(e1),
{
    if seq_has_live_player(e1) {
        let w = crate::world::seq_live_player_index(e1);
        assert(0 <= w < e1.len() && e1[w].is_player() && e1[w].alive);
        assert(w != pi);
        assert(e1[w] == e0[w]);
        if w < pi {
            assert(!(e0[w].is_player() && e0[pi].is_player()));
        } else {
            assert(!(e0[pi].is_player() && e0[w].is_player()));
        }
    }
}

/// Resolves one overlapping pair by its tags, both orders alike:
/// player against enemy or enemy bullet damages the player; enemy
/// against player bullet kills the enemy; player against item applies
/// the item; every other pair has no effect.  Beyond the per-case
/// relation, the scan-level facts: nothing moves, no entity revives,
/// the live player can only be lost, the score never drops, and a
/// player explosion appears exactly when the player dies here.
pub fn resolve_pair(entities: &mut Vec<Entity>, i: usize, j: usize,
    explosions: &mut Vec<Explosion>, cues: &mut Vec<AudioCue>, score: &mut Score,
    stage_db: &mut StageDatabase, pending_items: &mut Vec<(Vec2, ItemType)>)
    requires
        entities_wf(old(entities)@),
        player_singleton(old(entities)@),
        old(stage_db).wf(),
        i < old(entities)@.len(),
        j < old(entities)@.len(),
        i != j,
        old(entities)@[i as int].alive,
        old(entities)@[j as int].alive,
        forall|k: int| 0 <= k < old(explosions)@.len()
            ==> (#[trigger] old(explosions)@[k]).wf(),
    ensures
        entities_wf(final(entities)@),
        player_singleton(final(entities)@),
        final(stage_db).wf(),
        forall|k: int| 0 <= k < final(explosions)@.len()
            ==> (#[trigger] final(explosions)@[k]).wf(),
        final(entities)@.len() == old(entities)@.len(),
        forall|k: int| 0 <= k < old(entities)@.len() ==> {
            &&& (#[trigger] final(entities)@[k]).pos == old(entities)@[k].pos
            &&& final(entities)@[k].collider == old(entities)@[k].collider
            &&& final(entities)@[k].is_player() == old(entities)@[k].is_player()
        },
        forall|k: int| 0 <= k < old(entities)@.len()
            ==> ((#[trigger] final(entities)@[k]).alive ==> old(entities)@[k].alive),
        seq_has_live_player(final(entities)@) ==> seq_has_live_player(old(entities)@),
        count_tagged(final(explosions)@, ExplosionTag::Player)
            == count_tagged(old(explosions)@, ExplosionTag::Player)
            + if seq_has_live_player(old(entities)@)
                && !seq_has_live_player(final(entities)@) { 1int } else { 0int },
        final(score).score >= old(score).score,
        crate::stage::defeats_accrued(*old(stage_db), *final(stage_db)),
        (forall|m: int| 0 <= m < old(pending_items)@.len()
            ==> (#[trigger] old(pending_items)@[m]).0.in_bounds())
            ==> (forall|m: int| 0 <= m < final(pending_items)@.len()
                ==> (#[trigger] final(pending_items)@[m]).0.in_bounds()),
        pair_outcome(i as int, j as int, old(entities)@, final(entities)@, old(explosions)@,
            final(explosions)@, old(cues)@, final(cues)@, *old(score), *final(score),
            *old(stage_db), *final(stage_db), old(pending_items)@, final(pending_items)@),
{
    proof {
        assert(entities@[i as int].wf());
        assert(entities@[j as int].wf());
        crate::stage::lemma_defeats_accrued_refl(*stage_db);
    }
    let t1 = entities[i].collider.tag;
    let t2 = entities[j].collider.tag;
    match (t1, t2) {
        (ColliderTag::Player, ColliderTag::Enemy)
        | (ColliderTag::Player, ColliderTag::Bullet { from_player: false }) => {
            handle_player_enemy_collision(entities, i, explosions, cues);
            proof {
                lemma_damage_scan_facts(old(entities)@, entities@, old(explosions)@,
                    explosions@, old(cues)@, cues@, i as int);
            }
        },
        (ColliderTag::Enemy, ColliderTag::Player)
        | (ColliderTag::Bullet { from_player: false }, ColliderTag::Player) => {
            handle_player_enemy_collision(entities, j, explosions, cues);
            proof {
                lemma_damage_scan_facts(old(entities)@, entities@, old(explosions)@,
                    explosions@, old(cues)@, cues@, j as int);
            }
        },
        (ColliderTag::Enemy, ColliderTag::Bullet { from_player: true }) => {
            handle_enemy_bullet_collision(entities, i, j, explosions, cues, score, stage_db,
                pending_items);
            proof {
                lemma_kill_scan_facts(old(entities)@, entities@, old(explosions)@,
                    explosions@, i as int, j as int);
            }
        },
        (ColliderTag::Bullet { from_player: true }, ColliderTag::Enemy) => {
            handle_enemy_bullet_collision(entities, j, i, explosions, cues, score, stage_db,
                pending_items);
            proof {
                lemma_kill_scan_facts(old(entities)@, entities@, old(explosions)@,
                    explosions@, j as int, i as int);
            }
        },
        (ColliderTag::Player, ColliderTag::Item) => {
            handle_player_item_collision(entities, i, j);
            proof {
                lemma_item_scan_facts(old(entities)@, entities@, i as int, j as int);
            }
        },
        (ColliderTag::Item, ColliderTag::Player) => {
            handle_player_item_collision(entities, j, i);
            proof {
                lemma_item_scan_facts(old(entities)@, entities@, j as int, i as int);
            }
        },
        _ => {},
    }
}

/// The scan-level facts after a damage resolution.
proof fn lemma_damage_scan_facts(e0: Seq<Entity>, e1: Seq<Entity>, x0: Seq<Explosion>,
    x1: Seq<Explosion>, c0: Seq<AudioCue>, c1: Seq<AudioCue>, pi: int)
    requires
        entities_wf(e0),
        player_singleton(e0),
        0 <= pi < e0.len(),
        e0[pi].is_player(),
        e0[pi].alive,
        damage_resolution(pi, e0, e1, x0, x1, c0, c1),
        forall|k: int| 0 <= k < x0.len() ==> (#[trigger] x0[k]).wf(),
    ensures
        forall|k: int| 0 <= k < x1.len() ==> (#[trigger] x1[k]).wf(),
        e1.len() == e0.len(),
        forall|k: int| 0 <= k < e0.len() ==> {
            &&& (#[trigger] e1[k]).pos == e0[k].pos
            &&& e1[k].collider == e0[k].collider
            &&& e1[k].is_player() == e0[k].is_player()
        },
        forall|k: int| 0 <= k < e0.len() ==> ((#[trigger] e1[k]).alive ==> e0[k].alive),
        seq_has_live_player(e1) ==> seq_has_live_player(e0),
        count_tagged(x1, ExplosionTag::Player) == count_tagged(x0, ExplosionTag::Player)
            + if seq_has_live_player(e0) && !seq_has_live_player(e1) { 1int } else { 0int },
{
    let p = e0[pi].player();
    assert(seq_has_live_player(e0));
    if p.invincible_ms > 0 {
        assert(e1 == e0 && x1 == x0);
    } else if p.hp == 1 {
        lemma_no_live_player_after_death(e0, e1, pi);
        lemma_count_tagged_push(x0, fresh_explosion(e0[pi].pos, ExplosionTag::Player),
            ExplosionTag::Player);
    } else {
        assert(e1[pi].is_player() && e1[pi].alive);
        assert(seq_has_live_player(e1));
        assert(x1 == x0);
    }
}

/// The scan-level facts after a kill resolution.
proof fn lemma_kill_scan_facts(e0: Seq<Entity>, e1: Seq<Entity>, x0: Seq<Explosion>,
    x1: Seq<Explosion>, ei: int, bi: int)
    requires
        entities_wf(e0),
        player_singleton(e0),
        0 <= ei < e0.len(),
        0 <= bi < e0.len(),
        ei != bi,
        e0[ei].is_enemy(),
        e0[bi].is_bullet(),
        ({
            let bullet_stays = if seq_has_live_player(e0) {
                seq_live_player(e0).piercing
            } else {
                true
            };
            let enemy_dead = e0.update(ei, Entity { alive: false, ..e0[ei] });
            e1 == if bullet_stays {
                enemy_dead
            } else {
                enemy_dead.update(bi, Entity { alive: false, ..e0[bi] })
            }
        }),
        x1 == x0.push(fresh_explosion(e0[ei].pos, ExplosionTag::Enemy)),
        forall|k: int| 0 <= k < x0.len() ==> (#[trigger] x0[k]).wf(),
    ensures
        forall|k: int| 0 <= k < x1.len() ==> (#[trigger] x1[k]).wf(),
        e1.len() == e0.len(),
        forall|k: int| 0 <= k < e0.len() ==> {
            &&& (#[trigger] e1[k]).pos == e0[k].pos
            &&& e1[k].collider == e0[k].collider
            &&& e1[k].is_player() == e0[k].is_player()
        },
        forall|k: int| 0 <= k < e0.len() ==> ((#[trigger] e1[k]).alive ==> e0[k].alive),
        seq_has_live_player(e1) == seq_has_live_player(e0),
        count_tagged(x1, ExplosionTag::Player) == count_tagged(x0, ExplosionTag::Player),
{
    lemma_count_tagged_push(x0, fresh_explosion(e0[ei].pos, ExplosionTag::Enemy),
        ExplosionTag::Player);
    if seq_has_live_player(e0) {
        let w = crate::world::seq_live_player_index(e0);
        assert(e0[w].is_player() && e0[w].alive);
        assert(w != ei && w != bi);
        assert(e1[w] == e0[w]);
        assert(seq_has_live_player(e1));
    }
    if seq_has_live_player(e1) {
        let w = crate::world::seq_live_player_index(e1);
        assert(e1[w].is_player() && e1[w].alive);
        assert(w != ei && w != bi);
        assert(e1[w] == e0[w]);
        assert(seq_has_live_player(e0));
    }
}

/// The scan-level facts after an item resolution.
proof fn lemma_item_scan_facts(e0: Seq<Entity>, e1: Seq<Entity>, pi: int, ii: int)
    requires
        entities_wf(e0),
        player_singleton(e0),
        0 <= pi < e0.len(),
        0 <= ii < e0.len(),
        pi != ii,
        e0[pi].is_player(),
        e0[pi].alive,
        e0[ii].is_item(),
        item_resolution(pi, ii, e0, e1),
    ensures
        e1.len() == e0.len(),
        forall|k: int| 0 <= k < e0.len() ==> {
            &&& (#[trigger] e1[k]).pos == e0[k].pos
            &&& e1[k].collider == e0[k].collider
            &&& e1[k].is_player() == e0[k].is_player()
        },
        forall|k: int| 0 <= k < e0.len() ==> ((#[trigger] e1[k]).alive ==> e0[k].alive),
        seq_has_live_player(e1) == seq_has_live_player(e0),
{
    assert(e1[pi].is_player() && e1[pi].alive);
    assert(seq_has_live_player(e1));
    assert(seq_has_live_player(e0));
}

/// No two live entities of the registry overlap.
pub open spec fn no_live_overlap(entities: Seq<Entity>) -> bool {
    forall|i: int, j: int| 0 <= i < j < entities.len()
        && (#[trigger] entities[i]).alive && (#[trigger] entities[j]).alive
        ==> !overlaps_spec(entities[i].collider.shape, entities[i].pos,
            entities[j].collider.shape, entities[j].pos)
}

/// Everything the collision scan guarantees, relating the world
/// before the scan to the world after it, with the cues raised and
/// the item drops decided: nothing moves or changes kind, nothing
/// revives, the live player can only be lost, a player explosion
/// appears exactly when the player dies in the scan, the score never
/// drops, defeat counts only accrue, the other session state is
/// untouched, a registry without an overlapping live pair is left
/// alone, and when exactly one live pair overlaps the scan performs
/// exactly that pair's resolution.
pub open spec fn collision_rel(w0: World, w1: World, cues: Seq<AudioCue>,
    drops: Seq<(Vec2, ItemType)>) -> bool {
    &&& w1.entities@.len() == w0.entities@.len()
    &&& forall|k: int| 0 <= k < w0.entities@.len() ==> {
        &&& (#[trigger] w1.entities@[k]).pos == w0.entities@[k].pos
        &&& w1.entities@[k].collider == w0.entities@[k].collider
        &&& w1.entities@[k].is_player() == w0.entities@[k].is_player()
    }
    &&& forall|k: int| 0 <= k < w0.entities@.len()
        ==> ((#[trigger] w1.entities@[k]).alive ==> w0.entities@[k].alive)
    &&& seq_has_live_player(w1.entities@) ==> seq_has_live_player(w0.entities@)
    &&& count_tagged(w1.explosions@, ExplosionTag::Player)
        == count_tagged(w0.explosions@, ExplosionTag::Player)
        + if seq_has_live_player(w0.entities@)
            && !seq_has_live_player(w1.entities@) { 1int } else { 0int }
    &&& w1.score.score >= w0.score.score
    &&& crate::stage::defeats_accrued(w0.stage_db, w1.stage_db)
    &&& w1.spawn_timer == w0.spawn_timer
    &&& w1.shoot_cooldown == w0.shoot_cooldown
    &&& w1.dead_timer == w0.dead_timer
    &&& w1.game_over_shown == w0.game_over_shown
    &&& w1.elapsed_ms == w0.elapsed_ms
    &&& forall|m: int| 0 <= m < drops.len() ==> (#[trigger] drops[m]).0.in_bounds()
    &&& no_live_overlap(w0.entities@) ==> (w1.entities == w0.entities
        && w1.explosions == w0.explosions && w1.score == w0.score
        && w1.stage_db == w0.stage_db && cues == Seq::<AudioCue>::empty()
        && drops == Seq::<(Vec2, ItemType)>::empty())
    &&& forall|a: int, b: int| #[trigger] sole_overlap(w0.entities@, a, b)
        ==> pair_outcome(a, b, w0.entities@, w1.entities@, w0.explosions@, w1.explosions@,
            Seq::<AudioCue>::empty(), cues, w0.score, w1.score, w0.stage_db, w1.stage_db,
            Seq::<(Vec2, ItemType)>::empty(), drops)
}

/// Scans every unordered pair of entities exactly once and resolves
/// each overlapping pair of live entities by its tags.  Destruction
/// within the scan only marks entities, so no pair reads removed
/// data, and a marked entity takes part in no further resolution —
/// in particular, a lethal hit on the player leaves exactly one
/// player explosion however many overlaps the scan still visits.
/// Returns the audio cues raised and the item drops to place after
/// the scan.
pub fn collision_system(w: &mut World) -> (out: (Vec<AudioCue>, Vec<(Vec2, ItemType)>))
    requires
        old(w).wf(),
    ensures
        final(w).wf(),
        collision_rel(*old(w), *final(w), out.0@, out.1@),
{
    let n: usize = w.entities.len();
    let mut cues: Vec<AudioCue> = Vec::new();
    let mut pending: Vec<(Vec2, ItemType)> = Vec::new();
    proof {
        crate::stage::lemma_defeats_accrued_refl(w.stage_db);
    }
    let mut i: usize = 0;
    while i < n
        invariant
            old(w).wf(),
            i <= n,
            n == w.entities@.len(),
            n == old(w).entities@.len(),
            entities_wf(w.entities@),
            player_singleton(w.entities@),
            w.stage_db.wf(),
            forall|k: int| 0 <= k < w.explosions@.len()
                ==> (#[trigger] w.explosions@[k]).wf(),
            forall|k: int| 0 <= k < n ==> {
                &&& (#[trigger] w.entities@[k]).pos == old(w).entities@[k].pos
                &&& w.entities@[k].collider == old(w).entities@[k].collider
                &&& w.entities@[k].is_player() == old(w).entities@[k].is_player()
            },
            forall|k: int| 0 <= k < n
                ==> ((#[trigger] w.entities@[k]).alive ==> old(w).entities@[k].alive),
            seq_has_live_player(w.entities@) ==> seq_has_live_player(old(w).entities@),
            count_tagged(w.explosions@, ExplosionTag::Player)
                == count_tagged(old(w).explosions@, ExplosionTag::Player)
                + if seq_has_live_player(old(w).entities@)
                    && !seq_has_live_player(w.entities@) { 1int } else { 0int },
            w.score.score >= old(w).score.score,
            crate::stage::defeats_accrued(old(w).stage_db, w.stage_db),
            w.spawn_timer == old(w).spawn_timer,
            w.shoot_cooldown == old(w).shoot_cooldown,
            w.dead_timer == old(w).dead_timer,
            w.game_over_shown == old(w).game_over_shown,
            w.elapsed_ms == old(w).elapsed_ms,
            forall|m: int| 0 <= m < pending@.len() ==> (#[trigger] pending@[m]).0.in_bounds(),
            no_live_overlap(old(w).entities@) ==> (w.entities == old(w).entities
                && w.explosions == old(w).explosions && w.score == old(w).score
                && w.stage_db == old(w).stage_db && cues@ == Seq::<AudioCue>::empty()
                && pending@ == Seq::<(Vec2, ItemType)>::empty()),
            forall|a: int, b: int| #[trigger] sole_overlap(old(w).entities@, a, b)
                ==> if scan_passed(a, b, i as int, i as int + 1) {
                    pair_outcome(a, b, old(w).entities@, w.entities@, old(w).explosions@,
                        w.explosions@, Seq::<AudioCue>::empty(), cues@, old(w).score,
                        w.score, old(w).stage_db, w.stage_db,
                        Seq::<(Vec2, ItemType)>::empty(), pending@)
                } else {
                    w.entities@ == old(w).entities@ && w.explosions@ == old(w).explosions@
                        && cues@ == Seq::<AudioCue>::empty() && w.score == old(w).score
                        && w.stage_db == old(w).stage_db
                        && pending@ == Seq::<(Vec2, ItemType)>::empty()
                },
        decreases n - i,
    {
        let mut j: usize = i + 1;
        while j < n
            invariant
                old(w).wf(),
                i < n,
                i < j <= n,
                n == w.entities@.len(),
                n == old(w).entities@.len(),
                entities_wf(w.entities@),
                player_singleton(w.entities@),
                w.stage_db.wf(),
                forall|k: int| 0 <= k < w.explosions@.len()
                    ==> (#[trigger] w.explosions@[k]).wf(),
                forall|k: int| 0 <= k < n ==> {
                    &&& (#[trigger] w.entities@[k]).pos == old(w).entities@[k].pos
                    &&& w.entities@[k].collider == old(w).entities@[k].collider
                    &&& w.entities@[k].is_player() == old(w).entities@[k].is_player()
                },
                forall|k: int| 0 <= k < n
                    ==> ((#[trigger] w.entities@[k]).alive ==> old(w).entities@[k].alive),
                seq_has_live_player(w.entities@) ==> seq_has_live_player(old(w).entities@),
                count_tagged(w.explosions@, ExplosionTag::Player)
                    == count_tagged(old(w).explosions@, ExplosionTag::Player)
                    + if seq_has_live_player(old(w).entities@)
                        && !seq_has_live_player(w.entities@) { 1int } else { 0int },
                w.score.score >= old(w).score.score,
                crate::stage::defeats_accrued(old(w).stage_db, w.stage_db),
                w.spawn_timer == old(w).spawn_timer,
                w.shoot_cooldown == old(w).shoot_cooldown,
                w.dead_timer == old(w).dead_timer,
                w.game_over_shown == old(w).game_over_shown,
                w.elapsed_ms == old(w).elapsed_ms,
                forall|m: int| 0 <= m < pending@.len()
                    ==> (#[trigger] pending@[m]).0.in_bounds(),
                no_live_overlap(old(w).entities@) ==> (w.entities == old(w).entities
                    && w.explosions == old(w).explosions && w.score == old(w).score
                    && w.stage_db == old(w).stage_db && cues@ == Seq::<AudioCue>::empty()
                    && pending@ == Seq::<(Vec2, ItemType)>::empty()),
                forall|a: int, b: int| #[trigger] sole_overlap(old(w).entities@, a, b)
                    ==> if scan_passed(a, b, i as int, j as int) {
                        pair_outcome(a, b, old(w).entities@, w.entities@, old(w).explosions@,
                            w.explosions@, Seq::<AudioCue>::empty(), cues@, old(w).score,
                            w.score, old(w).stage_db, w.stage_db,
                            Seq::<(Vec2, ItemType)>::empty(), pending@)
                    } else {
                        w.entities@ == old(w).entities@ && w.explosions@ == old(w).explosions@
                            && cues@ == Seq::<AudioCue>::empty() && w.score == old(w).score
                            && w.stage_db == old(w).stage_db
                            && pending@ == Seq::<(Vec2, ItemType)>::empty()
                    },
            decreases n - j,
        {
            let ei: Entity = w.entities[i];
            let ej: Entity = w.entities[j];
            let qualify: bool = if ei.alive && ej.alive {
                proof {
                    assert(w.entities@[i as int].wf());
                    assert(w.entities@[j as int].wf());
                }
                overlaps(ei.collider.shape, ei.pos, ej.collider.shape, ej.pos)
            } else {
                false
            };
            if qualify {
                let ghost pre = *w;
                resolve_pair(&mut w.entities, i, j, &mut w.explosions, &mut cues,
                    &mut w.score, &mut w.stage_db, &mut pending);
                proof {
                    crate::stage::lemma_accrued_compose(old(w).stage_db, pre.stage_db,
                        w.stage_db);
                    assert forall|a: int, b: int|
                        #[trigger] sole_overlap(old(w).entities@, a, b)
                        implies a == i as int && b == j as int by {
                        if !(a == i as int && b == j as int) {
                            assert(old(w).entities@[i as int].alive
                                && old(w).entities@[j as int].alive
                                && overlaps_spec(old(w).entities@[i as int].collider.shape,
                                    old(w).entities@[i as int].pos,
                                    old(w).entities@[j as int].collider.shape,
                                    old(w).entities@[j as int].pos));
                        }
                    }
                    if exists|a: int, b: int| sole_overlap(old(w).entities@, a, b) {
                        let (a, b) = choose|a: int, b: int|
                            sole_overlap(old(w).entities@, a, b);
                        assert(a == i as int && b == j as int);
                        assert(!scan_passed(a, b, i as int, j as int));
                        assert(pre.entities@ == old(w).entities@);
                        assert(pair_outcome(i as int, j as int, old(w).entities@, w.entities@,
                            old(w).explosions@, w.explosions@, Seq::<AudioCue>::empty(), cues@,
                            old(w).score, w.score, old(w).stage_db, w.stage_db,
                            Seq::<(Vec2, ItemType)>::empty(), pending@));
                    }
                }
            } else {
                proof {
                    assert forall|a: int, b: int|
                        #[trigger] sole_overlap(old(w).entities@, a, b)
                        implies !(a == i as int && b == j as int) by {
                        if a == i as int && b == j as int {
                            assert(w.entities@ == old(w).entities@);
                        }
                    }
                }
            }
            j = j + 1;
        }
        i = i + 1;
    }
    (cues, pending)
}

/// Applies an item pickup to the player.
pub fn handle_player_item_collision(entities: &mut Vec<Entity>, player_idx: usize,
    item_idx: usize)
    requires
        entities_wf(old(entities)@),
        player_singleton(old(entities)@),
        player_idx < old(entities)@.len(),
        item_idx < old(entities)@.len(),
        player_idx != item_idx,
        old(entities)@[player_idx as int].is_player(),
        old(entities)@[player_idx as int].alive,
        old(entities)@[item_idx as int].is_item(),
    ensures
        entities_wf(final(entities)@),
        player_singleton(final(entities)@),
        item_resolution(player_idx as int, item_idx as int, old(entities)@, final(entities)@),
{
    proof {
        assert(entities@[player_idx as int].wf());
        assert(entities@[item_idx as int].wf());
    }
    let kind: ItemType = match entities[item_idx].data {
        EntityData::ItemData(k) => k,
        _ => {
            return ;
        },
    };
    let e = entities[player_idx];
    let mut p: Player = match e.data {
        EntityData::PlayerData(p) => p,
        _ => {
            return ;
        },
    };
    crate::item::apply_item_effect(&mut p, kind);
    let mut ent = e;
    ent.data = EntityData::PlayerData(p);
    entities[player_idx] = ent;
    let mut it = entities[item_idx];
    it.alive = false;
    entities[item_idx] = it;
}

} // verus!
