//! Enemies: the immutable definition catalog and per-tick movement
//! integration for the three movement patterns.

use vstd::prelude::*;
use crate::geom::{
    abs_spec, clamp_spec, clamp_i64, is_isqrt, isqrt64, isqrt_of, lemma_isqrt_exists,
    lemma_isqrt_unique, Vec2, MAX_COORD, MAX_EXTENT, MAX_SPEED, MAX_TICK_MS,
};
use crate::bullet::{BulletDefinition, ENEMY_BULLET_SPEED, ENEMY_BULLET_HALF};
use crate::effects::VisualKind;
use crate::timer::MAX_DURATION_MS;

verus! {

/// Vertical spawn line at the top margin of the play field.
pub const ENEMY_SPAWN_Y: i64 = 340_000;

/// Horizontal spawn coordinates are drawn uniformly from
/// `[-ENEMY_SPAWN_X_RANGE, ENEMY_SPAWN_X_RANGE)`.
pub const ENEMY_SPAWN_X_RANGE: i64 = 210_000;

/// Enemies at or below this line are off the field and removed.
pub const ENEMY_DESPAWN_Y: i64 = -380_000;

/// Half-extent of a dino's collision box.
pub const ENEMY_HALF_EXTENT: i64 = 15_000;

/// Interval between enemy shots, in milliseconds.
pub const ENEMY_FIRE_INTERVAL_MS: u64 = 1_000;

/// Hit points in a dino's definition.
pub const ENEMY_MAX_HP: u32 = 3;

/// The zigzag sway factor is a scaled sine value in
/// `[-SWAY_SCALE, SWAY_SCALE]`.
pub const SWAY_SCALE: i64 = 1_000;

#[derive(Clone, Copy, PartialEq, Eq, Structural, Hash, Debug)]
pub enum EnemyKind {
    DinoStraight,
    DinoZigzag,
    DinoHoming,
}

#[derive(Clone, Copy, PartialEq, Eq, Structural, Debug)]
pub enum EnemyMovePattern {
    Straight,
    Zigzag,
    Homing,
}

/// Immutable description of one enemy kind.
#[derive(Clone, Copy, PartialEq, Eq, Structural, Debug)]
pub struct EnemyDefinition {
    pub kind: EnemyKind,
    pub max_hp: u32,
    pub movement_pattern: EnemyMovePattern,
    /// Half-extents of the collision box.
    pub collider_half: Vec2,
    pub fire_interval_ms: u64,
    /// Template for the bullets this enemy fires, if it fires.
    pub bullet: Option<BulletDefinition>,
    pub visual: VisualKind,
}

impl EnemyDefinition {
    pub open spec fn wf(self) -> bool {
        &&& 1 <= self.collider_half.x <= MAX_EXTENT
        &&& 1 <= self.collider_half.y <= MAX_EXTENT
        &&& 1 <= self.fire_interval_ms <= MAX_DURATION_MS
        &&& match self.bullet {
            Some(b) => b.wf(),
            None => true,
        }
    }
}

/// The catalog of enemy definitions for a play session, one per kind.
pub struct EnemyDatabase {
    pub defs: Vec<EnemyDefinition>,
}

impl EnemyDatabase {
    pub open spec fn wf(self) -> bool {
        &&& forall|i: int| 0 <= i < self.defs@.len() ==> self.defs@[i].wf()
        &&& forall|i: int, j: int|
            0 <= i < j < self.defs@.len() ==> self.defs@[i].kind != self.defs@[j].kind
    }

    /// Whether some definition carries this kind.
    pub open spec fn has_kind(self, kind: EnemyKind) -> bool {
        exists|i: int| 0 <= i < self.defs@.len() && self.defs@[i].kind == kind
    }

    /// The definition of a kind the catalog has; well-defined because
    /// a well-formed catalog holds each kind at most once.
    pub open spec fn def_of(self, kind: EnemyKind) -> EnemyDefinition {
        self.defs@[choose|i: int| 0 <= i < self.defs@.len() && self.defs@[i].kind == kind]
    }

    /// In a well-formed catalog, any entry of a kind is that kind's
    /// definition.
    pub proof fn lemma_def_of_unique(self, i: int)
        requires
            self.wf(),
            0 <= i < self.defs@.len(),
        ensures
            self.has_kind(self.defs@[i].kind),
            self.def_of(self.defs@[i].kind) == self.defs@[i],
    {
        let kind = self.defs@[i].kind;
        assert(self.has_kind(kind));
        let w = choose|j: int| 0 <= j < self.defs@.len() && self.defs@[j].kind == kind;
        if w != i {
            if w < i {
                assert(self.defs@[w].kind != self.defs@[i].kind);
            } else {
                assert(self.defs@[i].kind != self.defs@[w].kind);
            }
        }
    }

    /// Finds the definition for a kind, if the catalog has it.
    pub fn lookup(&self, kind: EnemyKind) -> (r: Option<EnemyDefinition>)
        requires
            self.wf(),
        ensures
            r == if self.has_kind(kind) {
                Some(self.def_of(kind))
            } else {
                None::<EnemyDefinition>
            },
            self.has_kind(kind) ==> self.def_of(kind).kind == kind && self.def_of(kind).wf(),
    {
        let mut i: usize = 0;
        while i < self.defs.len()
            invariant
                self.wf(),
                i <= self.defs@.len(),
                forall|k: int| 0 <= k < i ==> self.defs@[k].kind != kind,
            decreases self.defs@.len() - i,
        {
            if self.defs[i].kind == kind {
                proof {
                    self.lemma_def_of_unique(i as int);
                }
                return Some(self.defs[i]);
            }
            i = i + 1;
        }
        None
    }
}

/// The standard enemy bullet: slow, downward, egg-shaped.
pub fn enemy_bullet_definition() -> (b: BulletDefinition)
    ensures
        b.wf(),
        b == (BulletDefinition {
            is_player: false,
            speed: ENEMY_BULLET_SPEED,
            damage: 1,
            collider_half: Vec2 { x: ENEMY_BULLET_HALF, y: ENEMY_BULLET_HALF },
            visual: VisualKind::BlueEgg,
        }),
{
    BulletDefinition {
        is_player: false,
        speed: ENEMY_BULLET_SPEED,
        damage: 1,
        collider_half: Vec2 { x: ENEMY_BULLET_HALF, y: ENEMY_BULLET_HALF },
        visual: VisualKind::BlueEgg,
    }
}

/// The definition every dino shares, up to kind and movement pattern.
pub open spec fn dino_definition_spec(kind: EnemyKind, pattern: EnemyMovePattern,
    bullet: BulletDefinition) -> EnemyDefinition {
    EnemyDefinition {
        kind,
        max_hp: ENEMY_MAX_HP,
        movement_pattern: pattern,
        collider_half: Vec2 { x: ENEMY_HALF_EXTENT, y: ENEMY_HALF_EXTENT },
        fire_interval_ms: ENEMY_FIRE_INTERVAL_MS,
        bullet: Some(bullet),
        visual: VisualKind::Dino,
    }
}

/// Builds the session catalog: the three dinos, one per movement
/// pattern, all firing the standard enemy bullet.
pub fn load_enemies() -> (db: EnemyDatabase)
    ensures
        db.wf(),
        db.defs@.len() == 3,
        db.defs@[0] == dino_definition_spec(EnemyKind::DinoStraight, EnemyMovePattern::Straight,
            enemy_bullet_definition_spec()),
        db.defs@[1] == dino_definition_spec(EnemyKind::DinoZigzag, EnemyMovePattern::Zigzag,
            enemy_bullet_definition_spec()),
        db.defs@[2] == dino_definition_spec(EnemyKind::DinoHoming, EnemyMovePattern::Homing,
            enemy_bullet_definition_spec()),
{
    let bullet = enemy_bullet_definition();
    let mut defs: Vec<EnemyDefinition> = Vec::new();
    defs.push(EnemyDefinition {
        kind: EnemyKind::DinoStraight,
        max_hp: ENEMY_MAX_HP,
        movement_pattern: EnemyMovePattern::Straight,
        collider_half: Vec2 { x: ENEMY_HALF_EXTENT, y: ENEMY_HALF_EXTENT },
        fire_interval_ms: ENEMY_FIRE_INTERVAL_MS,
        bullet: Some(bullet),
        visual: VisualKind::Dino,
    });
    defs.push(EnemyDefinition {
        kind: EnemyKind::DinoZigzag,
        max_hp: ENEMY_MAX_HP,
        movement_pattern: EnemyMovePattern::Zigzag,
        collider_half: Vec2 { x: ENEMY_HALF_EXTENT, y: ENEMY_HALF_EXTENT },
        fire_interval_ms: ENEMY_FIRE_INTERVAL_MS,
        bullet: Some(bullet),
        visual: VisualKind::Dino,
    });
    defs.push(EnemyDefinition {
        kind: EnemyKind::DinoHoming,
        max_hp: ENEMY_MAX_HP,
        movement_pattern: EnemyMovePattern::Homing,
        collider_half: Vec2 { x: ENEMY_HALF_EXTENT, y: ENEMY_HALF_EXTENT },
        fire_interval_ms: ENEMY_FIRE_INTERVAL_MS,
        bullet: Some(bullet),
        visual: VisualKind::Dino,
    });
    EnemyDatabase { defs }
}

/// The enemy bullet definition as a spec value.
pub open spec fn enemy_bullet_definition_spec() -> BulletDefinition {
    BulletDefinition {
        is_player: false,
        speed: ENEMY_BULLET_SPEED,
        damage: 1,
        collider_half: Vec2 { x: ENEMY_BULLET_HALF, y: ENEMY_BULLET_HALF },
        visual: VisualKind::BlueEgg,
    }
}

/// Vertical position after one tick of constant downward drift.
pub open spec fn fallen_y(y: int, speed: int, delta_ms: int) -> int {
    clamp_spec(y - (speed * delta_ms) / 1000, -MAX_COORD as int, MAX_COORD as int)
}

/// An enemy at `y` has crossed the bottom boundary.
pub open spec fn enemy_off_field(y: int) -> bool {
    y <= ENEMY_DESPAWN_Y
}

/// Straight pattern: constant downward velocity.
pub fn enemy_step_straight(pos: &mut Vec2, speed: i64, delta_ms: u64)
    requires
        old(pos).in_bounds(),
        0 <= speed <= MAX_SPEED,
        delta_ms <= MAX_TICK_MS,
    ensures
        final(pos).in_bounds(),
        final(pos).x == old(pos).x,
        final(pos).y == fallen_y(old(pos).y as int, speed as int, delta_ms as int),
{
    proof {
        assert((speed as u64) * delta_ms <= 10_000_000 * 1_000_000) by (nonlinear_arith)
            requires speed as u64 <= 10_000_000, delta_ms <= 1_000_000;
    }
    let step: i64 = (((speed as u64) * delta_ms) / 1000) as i64;
    assert(step == (speed * delta_ms) / 1000);
    pos.y = clamp_i64(pos.y - step, -MAX_COORD, MAX_COORD);
}

/// Lateral displacement of one zigzag tick: the sway factor scales the
/// downward speed sideways; the division rounds the magnitude down and
/// the sign is applied afterwards.
pub open spec fn sway_delta(sway: int, speed: int, delta_ms: int) -> int {
    if sway >= 0 {
        (sway * speed * delta_ms) / 1_000_000
    } else {
        -(((-sway) * speed * delta_ms) / 1_000_000)
    }
}

/// Horizontal position after one tick of zigzag sway.
pub open spec fn swayed_x(x: int, sway: int, speed: int, delta_ms: int) -> int {
    clamp_spec(x + sway_delta(sway, speed, delta_ms), -MAX_COORD as int, MAX_COORD as int)
}

/// Zigzag pattern: downward drift plus a lateral sway.  The caller
/// derives `sway` from the global elapsed time, as a sine value scaled
/// by `SWAY_SCALE`; the phase is shared by every zigzag enemy.
pub fn enemy_step_zigzag(pos: &mut Vec2, speed: i64, delta_ms: u64, sway: i64)
    requires
        old(pos).in_bounds(),
        0 <= speed <= MAX_SPEED,
        delta_ms <= MAX_TICK_MS,
        -SWAY_SCALE <= sway <= SWAY_SCALE,
    ensures
        final(pos).in_bounds(),
        final(pos).x == swayed_x(old(pos).x as int, sway as int, speed as int, delta_ms as int),
        final(pos).y == fallen_y(old(pos).y as int, speed as int, delta_ms as int),
{
    proof {
        assert((speed as u64) * delta_ms <= 10_000_000 * 1_000_000) by (nonlinear_arith)
            requires speed as u64 <= 10_000_000, delta_ms <= 1_000_000;
    }
    let down: i64 = (((speed as u64) * delta_ms) / 1000) as i64;
    assert(down == (speed * delta_ms) / 1000);
    let sway_mag: u64 = if sway < 0 { (-sway) as u64 } else { sway as u64 };
    proof {
        assert(sway_mag * (speed as u64) <= 1_000 * 10_000_000) by (nonlinear_arith)
            requires sway_mag <= 1_000, speed as u64 <= 10_000_000;
        assert(sway_mag * (speed as u64) * delta_ms <= 10_000_000_000 * 1_000_000)
            by (nonlinear_arith)
            requires sway_mag * (speed as u64) <= 10_000_000_000, delta_ms <= 1_000_000;
    }
    let scaled: u64 = sway_mag * (speed as u64) * delta_ms;
    let side_mag: i64 = (scaled / 1_000_000) as i64;
    let side: i64 = if sway < 0 { -side_mag } else { side_mag };
    assert(side == sway_delta(sway as int, speed as int, delta_ms as int));
    pos.x = clamp_i64(pos.x + side, -MAX_COORD, MAX_COORD);
    pos.y = clamp_i64(pos.y - down, -MAX_COORD, MAX_COORD);
}

/// Squared distance between two points.
pub open spec fn dist2(a: Vec2, b: Vec2) -> int {
    (b.x - a.x) * (b.x - a.x) + (b.y - a.y) * (b.y - a.y)
}

/// Displacement along one axis of a homing tick: the axis share of the
/// direction (scaled to a thousandth) times speed and delta, the
/// division rounding the magnitude down with the sign applied after.
pub open spec fn toward_delta(d: int, len: int, speed: int, delta_ms: int) -> int {
    if d >= 0 {
        (((d * 1000) / len) * speed * delta_ms) / 1_000_000
    } else {
        -(((((-d) * 1000) / len) * speed * delta_ms) / 1_000_000)
    }
}

/// Homing pattern: one tick along the unit vector toward the target at
/// the given speed.  An enemy standing exactly on the target does not
/// move.
pub fn enemy_step_homing(pos: &mut Vec2, speed: i64, delta_ms: u64, target: Vec2)
    requires
        old(pos).in_bounds(),
        target.in_bounds(),
        0 <= speed <= MAX_SPEED,
        delta_ms <= MAX_TICK_MS,
    ensures
        final(pos).in_bounds(),
        dist2(*old(pos), target) == 0 ==> *final(pos) == *old(pos),
        dist2(*old(pos), target) > 0 ==> ({
            let len = isqrt_of(dist2(*old(pos), target));
            &&& final(pos).x == clamp_spec(old(pos).x + toward_delta(target.x - old(pos).x,
                len, speed as int, delta_ms as int), -MAX_COORD as int, MAX_COORD as int)
            &&& final(pos).y == clamp_spec(old(pos).y + toward_delta(target.y - old(pos).y,
                len, speed as int, delta_ms as int), -MAX_COORD as int, MAX_COORD as int)
        }),
{
    let dx: i64 = target.x - pos.x;
    let dy: i64 = target.y - pos.y;
    proof {
        assert(dx * dx + dy * dy <= 8_000_000_000_000_000_000 && dx * dx >= 0 && dy * dy >= 0)
            by (nonlinear_arith)
            requires -2_000_000_000 <= dx <= 2_000_000_000, -2_000_000_000 <= dy <= 2_000_000_000;
    }
    let d2: i64 = dx * dx + dy * dy;
    if d2 == 0 {
        return ;
    }
    let len: u64 = isqrt64(d2 as u64);
    proof {
        lemma_isqrt_exists(d2 as int);
        lemma_isqrt_unique(d2 as int, len as int, isqrt_of(d2 as int));
        assert(len >= 1) by (nonlinear_arith)
            requires is_isqrt(d2 as int, len as int), d2 >= 1;
        assert(len <= 3_000_000_000) by (nonlinear_arith)
            requires
                is_isqrt(d2 as int, len as int),
                d2 <= 8_000_000_000_000_000_000,
            ;
    }
    proof {
        lemma_axis_bound(dx as int, d2 as int, len as int);
        lemma_axis_bound(dy as int, d2 as int, len as int);
    }
    let sx: i64 = axis_move(dx, len, speed, delta_ms);
    let sy: i64 = axis_move(dy, len, speed, delta_ms);
    pos.x = clamp_i64(pos.x + sx, -MAX_COORD, MAX_COORD);
    pos.y = clamp_i64(pos.y + sy, -MAX_COORD, MAX_COORD);
}

/// An axis difference never exceeds the integer square root of the
/// squared distance it contributes to.
proof fn lemma_axis_bound(d: int, d2: int, len: int)
    requires
        d * d <= d2,
        is_isqrt(d2, len),
    ensures
        abs_spec(d) <= len,
{
    assert(abs_spec(d) <= len) by (nonlinear_arith)
        requires d * d <= d2, 0 <= len, d2 < (len + 1) * (len + 1);
}

/// One axis of the homing displacement, computed on magnitudes.
fn axis_move(d: i64, len: u64, speed: i64, delta_ms: u64) -> (s: i64)
    requires
        -2_000_000_000 <= d <= 2_000_000_000,
        1 <= len <= 3_000_000_000,
        abs_spec(d as int) <= len,
        0 <= speed <= MAX_SPEED,
        delta_ms <= MAX_TICK_MS,
    ensures
        s == toward_delta(d as int, len as int, speed as int, delta_ms as int),
        -10_000_000_000 <= s <= 10_000_000_000,
{
    let mag: u64 = if d < 0 { (-d) as u64 } else { d as u64 };
    let unit: u64 = mag * 1000 / len;
    proof {
        assert(mag * 1000 <= len * 1000) by (nonlinear_arith)
            requires mag <= len;
        vstd::arithmetic::div_mod::lemma_div_is_ordered((mag * 1000) as int, (len * 1000) as int,
            len as int);
        vstd::arithmetic::div_mod::lemma_div_multiples_vanish(1000, len as int);
        assert(unit <= 1000);
        assert(unit * (speed as u64) <= 1_000 * 10_000_000) by (nonlinear_arith)
            requires unit <= 1_000, speed as u64 <= 10_000_000;
        assert(unit * (speed as u64) * delta_ms <= 10_000_000_000 * 1_000_000)
            by (nonlinear_arith)
            requires unit * (speed as u64) <= 10_000_000_000, delta_ms <= 1_000_000;
    }
    let scaled: u64 = unit * (speed as u64) * delta_ms;
    let m: i64 = (scaled / 1_000_000) as i64;
    if d < 0 {
        -m
    } else {
        m
    }
}

} // verus!
