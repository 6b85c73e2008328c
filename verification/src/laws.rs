//! Global laws of the simulation, each proved once and for all
//! inputs: boundary behaviour of the box test, invincibility, item
//! stacking and clamping, wave completion, the weighted draw, and
//! what a kill does to the bullet that caused it.

use vstd::prelude::*;
use crate::collision::{
    damage_resolution, kill_resolution, overlaps_spec, ColliderShape,
};
use crate::effects::AudioCue;
use crate::enemy::EnemyKind;
use crate::explosion::{Explosion, ExplosionTag};
use crate::geom::{abs_spec, Vec2};
use crate::item::{item_applied, ItemType};
use crate::player::Player;
use crate::score::Score;
use crate::stage::{defeat_recorded, StageDatabase};
use crate::wave::{dist_total, pick_spec};
use crate::world::{seq_has_live_player, seq_live_player, Entity};

verus! {

/// Axis-aligned boxes that touch exactly edge to edge, on either
/// axis, do not collide: the box test is strict.
pub proof fn lemma_touching_boxes_do_not_collide(h1: Vec2, p1: Vec2, h2: Vec2, p2: Vec2)
    requires
        abs_spec(p1.x - p2.x) == h1.x + h2.x || abs_spec(p1.y - p2.y) == h1.y + h2.y,
    ensures
        !overlaps_spec(ColliderShape::Rectangle { half_extent: h1 }, p1,
            ColliderShape::Rectangle { half_extent: h2 }, p2),
        !overlaps_spec(ColliderShape::Capsule { half_extent: h1 }, p1,
            ColliderShape::Capsule { half_extent: h2 }, p2),
{
}

/// While the invincibility window is open, damage changes nothing: a
/// collision resolved against an invincible player leaves every
/// entity — the player's hit points above all — exactly as it was.
pub proof fn lemma_invincible_collision_keeps_hp(pi: int, e0: Seq<Entity>, e1: Seq<Entity>,
    x0: Seq<Explosion>, x1: Seq<Explosion>, c0: Seq<AudioCue>, c1: Seq<AudioCue>)
    requires
        0 <= pi < e0.len(),
        e0[pi].is_player(),
        e0[pi].player().invincible_ms > 0,
        damage_resolution(pi, e0, e1, x0, x1, c0, c1),
    ensures
        e1 == e0,
        e1[pi].player().hp == e0[pi].player().hp,
{
}

/// A heal restores one hit point, clamped to the maximum: healing at
/// full health changes nothing, and hit points never pass the cap.
pub proof fn lemma_heal_is_clamped(p: Player)
    requires
        p.wf(),
    ensures
        item_applied(p, ItemType::Heal).hp <= p.max_hp,
        item_applied(p, ItemType::Heal).hp >= p.hp,
        p.hp == p.max_hp ==> item_applied(p, ItemType::Heal) == p,
{
}

/// Rapid fire stacks multiplicatively: two pickups quarter the shoot
/// interval, as long as the quartered interval stays above the floor
/// that keeps the cadence positive.
pub proof fn lemma_rapid_fire_stacks(p: Player)
    requires
        p.wf(),
        p.shoot_interval_ms >= 4,
    ensures
        item_applied(item_applied(p, ItemType::RapidFire), ItemType::RapidFire).shoot_interval_ms
            == p.shoot_interval_ms / 4,
        item_applied(item_applied(p, ItemType::RapidFire), ItemType::RapidFire)
            == (Player { shoot_interval_ms: (p.shoot_interval_ms / 4) as u64, ..p }),
{
    vstd::arithmetic::div_mod::lemma_div_denominator(p.shoot_interval_ms as int, 2, 2);
}

/// The kill that brings the active wave's defeat count to its target
/// completes the wave; the progression check then advances the stage
/// or signals the clear, as its own contract states.
pub proof fn lemma_target_met_completes_wave(db0: StageDatabase, db1: StageDatabase)
    requires
        db0.wf(),
        defeat_recorded(db0, db1),
        db0.current_wave().target_count >= 1,
        db0.current_wave().defeated_count == db0.current_wave().target_count - 1,
    ensures
        db1.wave_complete(),
        db1.current_wave().defeated_count == db0.current_wave().target_count,
{
}

/// A draw within the weight sum always selects a kind that stands in
/// the distribution with positive weight.
pub proof fn lemma_draw_picks_positive_weight(dist: Seq<(EnemyKind, u32)>, value: int)
    requires
        0 <= value < dist_total(dist),
    ensures
        exists|i: int| 0 <= i < dist.len()
            && (#[trigger] dist[i]).0 == pick_spec(dist, value) && dist[i].1 > 0,
    decreases dist.len(),
{
    crate::wave::lemma_dist_total_nonneg(dist.skip(1));
    if value < dist[0].1 {
        assert(dist[0].0 == pick_spec(dist, value) && dist[0].1 > 0);
    } else {
        lemma_draw_picks_positive_weight(dist.skip(1), value - dist[0].1);
        let i = choose|i: int| 0 <= i < dist.skip(1).len()
            && (#[trigger] dist.skip(1)[i]).0 == pick_spec(dist.skip(1), value - dist[0].1)
            && dist.skip(1)[i].1 > 0;
        assert(dist[i + 1] == dist.skip(1)[i]);
    }
}

/// A kind whose every entry carries zero weight is never drawn: with
/// the distribution mapping one kind to weight one and another to
/// weight zero, every draw yields the first.
pub proof fn lemma_zero_weight_never_picked(dist: Seq<(EnemyKind, u32)>, value: int,
    kind: EnemyKind)
    requires
        0 <= value < dist_total(dist),
        forall|i: int| 0 <= i < dist.len() && (#[trigger] dist[i]).0 == kind
            ==> dist[i].1 == 0,
    ensures
        pick_spec(dist, value) != kind,
{
    lemma_draw_picks_positive_weight(dist, value);
}

/// A lethal overlap resolves: when the registry's one overlapping
/// live pair is a vulnerable player at one hit point against an
/// enemy or an enemy bullet, the collision scan destroys the player,
/// leaves exactly one player explosion at the player's position,
/// raises the destruction cue alone, and touches neither score nor
/// progression.
pub proof fn lemma_sole_lethal_overlap_destroys_player(w0: crate::world::World,
    w1: crate::world::World, cues: Seq<AudioCue>, drops: Seq<(Vec2, ItemType)>,
    a: int, b: int, pi: int)
    requires
        crate::world::entities_wf(w0.entities@),
        crate::collision::collision_rel(w0, w1, cues, drops),
        crate::collision::sole_overlap(w0.entities@, a, b),
        pi == a || pi == b,
        w0.entities@[pi].is_player(),
        ({
            let other = w0.entities@[if pi == a { b } else { a }].collider.tag;
            other == crate::collision::ColliderTag::Enemy
                || other == (crate::collision::ColliderTag::Bullet { from_player: false })
        }),
        w0.entities@[pi].player().hp == 1,
        w0.entities@[pi].player().invincible_ms == 0,
    ensures
        !w1.entities@[pi].alive,
        w1.explosions@ == w0.explosions@.push(crate::explosion::fresh_explosion(
            w0.entities@[pi].pos, ExplosionTag::Player)),
        cues == seq![AudioCue::Explosion],
        drops == Seq::<(Vec2, ItemType)>::empty(),
        w1.score == w0.score,
        w1.stage_db == w0.stage_db,
{
    assert(w0.entities@[a].wf());
    assert(w0.entities@[b].wf());
    assert(crate::collision::pair_outcome(a, b, w0.entities@, w1.entities@, w0.explosions@,
        w1.explosions@, Seq::<AudioCue>::empty(), cues, w0.score, w1.score, w0.stage_db,
        w1.stage_db, Seq::<(Vec2, ItemType)>::empty(), drops));
    assert(damage_resolution(pi, w0.entities@, w1.entities@, w0.explosions@, w1.explosions@,
        Seq::<AudioCue>::empty(), cues));
    assert(cues =~= seq![AudioCue::Explosion]);
}

/// An enemy killed by a player bullet is destroyed in that
/// resolution, and the bullet with it exactly when the player does
/// not pierce: with piercing on, the bullet persists untouched.
pub proof fn lemma_piercing_decides_bullet_fate(ei: int, bi: int, e0: Seq<Entity>,
    e1: Seq<Entity>, x0: Seq<Explosion>, x1: Seq<Explosion>, c0: Seq<AudioCue>,
    c1: Seq<AudioCue>, s0: Score, s1: Score, db0: StageDatabase, db1: StageDatabase,
    p0: Seq<(Vec2, ItemType)>, p1: Seq<(Vec2, ItemType)>)
    requires
        0 <= ei < e0.len(),
        0 <= bi < e0.len(),
        ei != bi,
        seq_has_live_player(e0),
        kill_resolution(ei, bi, e0, e1, x0, x1, c0, c1, s0, s1, db0, db1, p0, p1),
    ensures
        !e1[ei].alive,
        seq_live_player(e0).piercing ==> e1[bi] == e0[bi],
        !seq_live_player(e0).piercing ==> !e1[bi].alive,
{
}

} // verus!
