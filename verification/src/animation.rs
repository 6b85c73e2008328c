//! Sprite-sheet animation stepping: a repeating frame timer walks the
//! sheet from the first to the last index, either looping or asking
//! for the entity's removal once it has played through.

use vstd::prelude::*;
use crate::geom::MAX_TICK_MS;
use crate::timer::{Timer, TimerMode};

verus! {

#[derive(Clone, Copy, PartialEq, Eq, Structural, Debug)]
pub enum AnimationType {
    /// Wraps back to the first frame after the last.
    Loop,
    /// Plays once; the entity is removed after the last frame.
    Once,
}

/// How one animation advances through its sprite sheet.
#[derive(Clone, Copy, PartialEq, Eq, Structural, Debug)]
pub struct AnimationConfig {
    pub timer: Timer,
    pub fps: u8,
    pub first_sprite_index: usize,
    pub last_sprite_index: usize,
    pub animation_type: AnimationType,
}

impl AnimationConfig {
    pub open spec fn wf(self) -> bool {
        &&& self.timer.wf()
        &&& self.last_sprite_index < usize::MAX
    }

    /// The repeating timer that paces an animation at `fps` frames a
    /// second (in whole milliseconds).
    pub fn timer_from_fps(fps: u8) -> (t: Timer)
        requires
            fps >= 1,
        ensures
            t.wf(),
            t.mode == TimerMode::Repeating,
            t.duration_ms == 1000int / (fps as int),
            t.elapsed_ms == 0,
            !t.finished,
            !t.paused,
    {
        proof {
            assert(1 <= 1000int / (fps as int) <= 1000) by (nonlinear_arith)
                requires 1 <= fps <= 255;
        }
        Timer::new(1000 / (fps as u64), TimerMode::Repeating)
    }

    pub fn new(first: usize, last: usize, fps: u8, anim_type: AnimationType)
        -> (c: AnimationConfig)
        requires
            fps >= 1,
            last < usize::MAX,
        ensures
            c.wf(),
            c.first_sprite_index == first,
            c.last_sprite_index == last,
            c.fps == fps,
            c.animation_type == anim_type,
            c.timer.mode == TimerMode::Repeating,
            c.timer.duration_ms == 1000int / (fps as int),
            c.timer.elapsed_ms == 0,
            !c.timer.finished,
            !c.timer.paused,
    {
        AnimationConfig {
            first_sprite_index: first,
            last_sprite_index: last,
            fps,
            timer: Self::timer_from_fps(fps),
            animation_type: anim_type,
        }
    }

    /// The animation config after one tick: only its timer moves.
    pub open spec fn stepped(self, delta_ms: int) -> AnimationConfig {
        AnimationConfig { timer: self.timer.ticked(delta_ms), ..self }
    }

    /// Where the sprite index stands after one tick: it advances only
    /// when the frame timer completes, and a looping animation wraps
    /// from the last frame back to the first.
    pub open spec fn stepped_frame(self, index: int, delta_ms: int) -> int {
        if self.timer.ticked(delta_ms).finished {
            if index >= self.last_sprite_index {
                match self.animation_type {
                    AnimationType::Loop => self.first_sprite_index as int,
                    AnimationType::Once => index,
                }
            } else {
                index + 1
            }
        } else {
            index
        }
    }

    /// Whether the tick ends the animation: a play-once animation is
    /// done when its timer completes on the last frame.
    pub open spec fn step_despawns(self, index: int, delta_ms: int) -> bool {
        &&& self.timer.ticked(delta_ms).finished
        &&& index >= self.last_sprite_index
        &&& self.animation_type == AnimationType::Once
    }

    /// Advances the animation by one tick.  When the frame timer
    /// completes, the sprite index moves forward, a looping animation
    /// wraps from the last frame to the first, and a play-once
    /// animation asks for the entity's removal instead.
    pub fn step(&mut self, index: &mut usize, delta_ms: u64) -> (despawn: bool)
        requires
            old(self).wf(),
            delta_ms <= MAX_TICK_MS,
        ensures
            final(self).wf(),
            *final(self) == old(self).stepped(delta_ms as int),
            *final(index) == old(self).stepped_frame(*old(index) as int, delta_ms as int),
            despawn == old(self).step_despawns(*old(index) as int, delta_ms as int),
    {
        self.timer.tick(delta_ms);
        if !self.timer.is_finished() {
            return false;
        }
        if *index >= self.last_sprite_index {
            match self.animation_type {
                AnimationType::Loop => {
                    *index = self.first_sprite_index;
                    false
                },
                AnimationType::Once => true,
            }
        } else {
            *index = *index + 1;
            false
        }
    }
}

} // verus!
