//! Bullets: the per-entity data, the templates enemies fire from, and
//! straight-line bullet movement with off-field removal.

use vstd::prelude::*;
use crate::geom::{clamp_spec, clamp_i64, Vec2, MAX_COORD, MAX_SPEED, MAX_TICK_MS, MAX_EXTENT};
use crate::effects::VisualKind;

verus! {

/// Speed of a player bullet, in milli-pixels per second (upward).
pub const PLAYER_BULLET_SPEED: i64 = 600_000;

/// Speed of an enemy bullet, in milli-pixels per second (downward).
pub const ENEMY_BULLET_SPEED: i64 = 400_000;

/// Half-extent of a player bullet's collision box.
pub const PLAYER_BULLET_HALF: i64 = 1_500;

/// Half-extent of an enemy bullet's collision box.
pub const ENEMY_BULLET_HALF: i64 = 15_000;

/// Vertical offset of a fresh player bullet above the ship.
pub const BULLET_SPAWN_OFFSET_Y: i64 = 30_000;

/// Bullets above this line are off the field and removed.
pub const BULLET_TOP_Y: i64 = 360_000;

/// Bullets below this line are off the field and removed.
pub const BULLET_BOTTOM_Y: i64 = -360_000;

/// Per-entity bullet data.
#[derive(Clone, Copy, PartialEq, Eq, Structural, Debug)]
pub struct Bullet {
    /// Player bullets travel up and hurt enemies; enemy bullets travel
    /// down and hurt the player.
    pub is_player: bool,
    /// Speed, in milli-pixels per second.
    pub speed: i64,
}

impl Bullet {
    pub open spec fn wf(self) -> bool {
        0 <= self.speed <= MAX_SPEED
    }
}

/// Template a spawner stamps bullets from.
#[derive(Clone, Copy, PartialEq, Eq, Structural, Debug)]
pub struct BulletDefinition {
    pub is_player: bool,
    pub speed: i64,
    pub damage: u32,
    /// Half-extents of the collision box.
    pub collider_half: Vec2,
    pub visual: VisualKind,
}

impl BulletDefinition {
    pub open spec fn wf(self) -> bool {
        &&& 0 <= self.speed <= MAX_SPEED
        &&& 1 <= self.collider_half.x <= MAX_EXTENT
        &&& 1 <= self.collider_half.y <= MAX_EXTENT
    }
}

/// Vertical position of a bullet after one tick: player bullets climb,
/// enemy bullets fall, both held inside the world bound.
pub open spec fn bullet_moved_y(y: int, is_player: bool, speed: int, delta_ms: int) -> int {
    if is_player {
        clamp_spec(y + (speed * delta_ms) / 1000, -MAX_COORD as int, MAX_COORD as int)
    } else {
        clamp_spec(y - (speed * delta_ms) / 1000, -MAX_COORD as int, MAX_COORD as int)
    }
}

/// A bullet at `y` has left the play field.
pub open spec fn bullet_off_field(y: int) -> bool {
    y >= BULLET_TOP_Y || y < BULLET_BOTTOM_Y
}

/// Integrates one bullet's position; reports whether it crossed out of
/// the play field and is to be removed.
pub fn bullet_step(pos: &mut Vec2, bullet: Bullet, delta_ms: u64) -> (despawn: bool)
    requires
        old(pos).in_bounds(),
        bullet.wf(),
        delta_ms <= MAX_TICK_MS,
    ensures
        final(pos).in_bounds(),
        final(pos).x == old(pos).x,
        final(pos).y == bullet_moved_y(old(pos).y as int, bullet.is_player, bullet.speed as int,
            delta_ms as int),
        despawn == bullet_off_field(final(pos).y as int),
{
    proof {
        assert((bullet.speed as u64) * delta_ms <= 10_000_000 * 1_000_000) by (nonlinear_arith)
            requires bullet.speed as u64 <= 10_000_000, delta_ms <= 1_000_000;
    }
    let step: i64 = (((bullet.speed as u64) * delta_ms) / 1000) as i64;
    assert(step == (bullet.speed * delta_ms) / 1000);
    if bullet.is_player {
        pos.y = clamp_i64(pos.y + step, -MAX_COORD, MAX_COORD);
    } else {
        pos.y = clamp_i64(pos.y - step, -MAX_COORD, MAX_COORD);
    }
    pos.y >= BULLET_TOP_Y || pos.y < BULLET_BOTTOM_Y
}

} // verus!
