//! The player state machine: health, invincibility window, shoot
//! cadence and the piercing flag, together with movement and the
//! cosmetic blink rule.

use vstd::prelude::*;
use crate::geom::{clamp_spec, clamp_i64, Vec2, MAX_TICK_MS};
use crate::timer::MAX_DURATION_MS;

verus! {

/// Hit points a fresh player starts and caps at.
pub const PLAYER_MAX_HP: i32 = 3;

/// Invincibility granted when the player spawns, in milliseconds.
pub const SPAWN_INVINCIBLE_MS: u64 = 1_000;

/// Invincibility window opened by taking damage, in milliseconds.
pub const DAMAGE_INVINCIBLE_MS: u64 = 2_000;

/// Interval between shots for a fresh player, in milliseconds.
pub const INITIAL_SHOOT_INTERVAL_MS: u64 = 200;

/// Rapid-fire stacking halves the interval; this floor keeps it
/// positive, so the cadence can never reach zero.
pub const MIN_SHOOT_INTERVAL_MS: u64 = 1;

/// Player movement speed, in milli-pixels per second.
pub const PLAYER_SPEED: i64 = 500_000;

/// Horizontal half-extent of the play field open to the player.
pub const PLAYER_BOUND_X: i64 = 225_000;

/// Vertical half-extent of the play field open to the player.
pub const PLAYER_BOUND_Y: i64 = 340_000;

/// Where the player appears on entering play.
pub const PLAYER_START_Y: i64 = -300_000;

/// Period of the invincibility blink, in milliseconds.
pub const BLINK_PERIOD_MS: u64 = 100;

/// Mutable state of the single player ship.
#[derive(Clone, Copy, PartialEq, Eq, Structural, Debug)]
pub struct Player {
    pub max_hp: i32,
    pub hp: i32,
    /// Remaining invincibility, in milliseconds; zero means vulnerable.
    pub invincible_ms: u64,
    /// Interval between shots, in milliseconds.
    pub shoot_interval_ms: u64,
    /// Whether player bullets survive hitting an enemy.
    pub piercing: bool,
}

impl Player {
    pub open spec fn wf(self) -> bool {
        &&& 1 <= self.max_hp <= 1_000
        &&& 0 <= self.hp <= self.max_hp
        &&& 1 <= self.shoot_interval_ms <= MAX_DURATION_MS
        &&& self.invincible_ms <= MAX_DURATION_MS
    }

    /// A fresh player, briefly invincible, at default cadence.
    pub fn new() -> (p: Player)
        ensures
            p.wf(),
            p == (Player {
                max_hp: PLAYER_MAX_HP,
                hp: PLAYER_MAX_HP,
                invincible_ms: SPAWN_INVINCIBLE_MS,
                shoot_interval_ms: INITIAL_SHOOT_INTERVAL_MS,
                piercing: false,
            }),
    {
        Player {
            max_hp: PLAYER_MAX_HP,
            hp: PLAYER_MAX_HP,
            invincible_ms: SPAWN_INVINCIBLE_MS,
            shoot_interval_ms: INITIAL_SHOOT_INTERVAL_MS,
            piercing: false,
        }
    }

    /// Damage is ignored while the invincibility window is open.
    pub fn is_invincible(&self) -> (b: bool)
        ensures
            b == (self.invincible_ms > 0),
    {
        self.invincible_ms > 0
    }

    /// The player after one incoming hit: no change while invincible,
    /// otherwise one hit point lost and the window reopened.
    pub open spec fn damaged(self) -> Player {
        if self.invincible_ms > 0 {
            self
        } else {
            Player {
                hp: (self.hp - 1) as i32,
                invincible_ms: DAMAGE_INVINCIBLE_MS,
                ..self
            }
        }
    }

    /// Applies one incoming hit; reports whether it was lethal.
    pub fn apply_damage(&mut self) -> (died: bool)
        requires
            old(self).wf(),
            old(self).hp >= 1,
        ensures
            final(self).wf(),
            *final(self) == old(self).damaged(),
            died == (old(self).invincible_ms == 0 && old(self).hp == 1),
            died == (final(self).hp == 0 && old(self).invincible_ms == 0),
    {
        if self.invincible_ms > 0 {
            return false;
        }
        self.hp = self.hp - 1;
        self.invincible_ms = DAMAGE_INVINCIBLE_MS;
        self.hp == 0
    }

    /// Lets the invincibility window run down by `delta_ms`.
    pub fn tick_invincibility(&mut self, delta_ms: u64)
        requires
            old(self).wf(),
        ensures
            final(self).wf(),
            *final(self) == (Player {
                invincible_ms: if delta_ms >= old(self).invincible_ms {
                    0u64
                } else {
                    (old(self).invincible_ms - delta_ms) as u64
                },
                ..*old(self)
            }),
    {
        if delta_ms >= self.invincible_ms {
            self.invincible_ms = 0;
        } else {
            self.invincible_ms = self.invincible_ms - delta_ms;
        }
    }
}

/// Which of the four direction keys are held this tick.
#[derive(Clone, Copy, PartialEq, Eq, Structural, Debug)]
pub struct MoveInput {
    pub left: bool,
    pub right: bool,
    pub down: bool,
    pub up: bool,
}

/// Displacement along one axis from its two keys: the step forward,
/// backward, or nothing when neither or both are held.
pub open spec fn axis_delta(neg: bool, pos: bool, step: int) -> int {
    if pos && !neg {
        step
    } else if neg && !pos {
        -step
    } else {
        0
    }
}

/// One axis position after a movement tick.
pub open spec fn moved_axis(v: int, neg: bool, pos: bool, delta_ms: int, bound: int) -> int {
    clamp_spec(v + axis_delta(neg, pos, (PLAYER_SPEED * delta_ms) / 1000), -bound, bound)
}

/// Integrates held direction keys into the player position at fixed
/// speed, clamping both axes to the play-field bounds.
pub fn player_movement(pos: &mut Vec2, input: MoveInput, delta_ms: u64)
    requires
        old(pos).in_bounds(),
        delta_ms <= MAX_TICK_MS,
    ensures
        final(pos).in_bounds(),
        final(pos).x == moved_axis(old(pos).x as int, input.left, input.right, delta_ms as int,
            PLAYER_BOUND_X as int),
        final(pos).y == moved_axis(old(pos).y as int, input.down, input.up, delta_ms as int,
            PLAYER_BOUND_Y as int),
{
    let step: i64 = (((PLAYER_SPEED as u64) * delta_ms) / 1000) as i64;
    assert(step == (PLAYER_SPEED * delta_ms) / 1000);
    let dx: i64 = (if input.right { step } else { 0 }) - (if input.left { step } else { 0 });
    let dy: i64 = (if input.up { step } else { 0 }) - (if input.down { step } else { 0 });
    pos.x = clamp_i64(pos.x + dx, -PLAYER_BOUND_X, PLAYER_BOUND_X);
    pos.y = clamp_i64(pos.y + dy, -PLAYER_BOUND_Y, PLAYER_BOUND_Y);
}

/// Whether the blinking ship is drawn this frame: opacity alternates
/// with each blink period elapsed inside the invincibility window.
pub fn blink_visible(elapsed_in_window_ms: u64) -> (b: bool)
    ensures
        b == ((elapsed_in_window_ms / BLINK_PERIOD_MS) % 2 == 0),
{
    (elapsed_in_window_ms / BLINK_PERIOD_MS) % 2 == 0
}

/// Fill state of each heart in the health display: one slot per
/// possible hit point, filled for each current hit point.
pub fn heart_states(hp: i32, max_hp: i32) -> (hearts: Vec<bool>)
    requires
        0 <= hp <= max_hp <= 1_000,
    ensures
        hearts@.len() == max_hp,
        forall|i: int| 0 <= i < max_hp ==> hearts@[i] == (i < hp),
{
    let mut hearts: Vec<bool> = Vec::new();
    let mut i: i32 = 0;
    while i < max_hp
        invariant
            0 <= i <= max_hp <= 1_000,
            0 <= hp,
            hearts@.len() == i,
            forall|k: int| 0 <= k < i ==> hearts@[k] == (k < hp),
        decreases max_hp - i,
    {
        hearts.push(i < hp);
        i = i + 1;
    }
    hearts
}

} // verus!
