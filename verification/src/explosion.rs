//! Explosion effects: short play-once animations left behind by a
//! destroyed player or enemy.  Explosions have no collider; they exist
//! only until their animation has played through.

use vstd::prelude::*;
use crate::animation::{AnimationConfig, AnimationType};
use crate::geom::{Vec2, MAX_TICK_MS};
use crate::timer::{Timer, TimerMode};

verus! {

/// Frames per second of the explosion sheet.
pub const EXPLOSION_FPS: u8 = 10;

/// Index of the last frame of the explosion sheet.
pub const EXPLOSION_LAST_FRAME: usize = 3;

/// Whose destruction an explosion marks.
#[derive(Clone, Copy, PartialEq, Eq, Structural, Debug)]
pub enum ExplosionTag {
    Player,
    Enemy,
}

/// A live explosion effect.
#[derive(Clone, Copy, PartialEq, Eq, Structural, Debug)]
pub struct Explosion {
    pub pos: Vec2,
    pub anim: AnimationConfig,
    pub frame_index: usize,
    pub tag: ExplosionTag,
}

impl Explosion {
    pub open spec fn wf(self) -> bool {
        self.anim.wf()
    }

    /// The explosion after one tick: its animation timer moves and
    /// its frame may advance.
    pub open spec fn stepped(self, delta_ms: int) -> Explosion {
        Explosion {
            anim: self.anim.stepped(delta_ms),
            frame_index: self.anim.stepped_frame(self.frame_index as int, delta_ms) as usize,
            ..self
        }
    }

    /// Whether the tick finishes the explosion's play-once animation.
    pub open spec fn done_after(self, delta_ms: int) -> bool {
        self.anim.step_despawns(self.frame_index as int, delta_ms)
    }
}

/// The explosion a destruction leaves: the whole sheet from its first
/// frame, played once at the explosion frame rate.
pub open spec fn fresh_explosion(pos: Vec2, tag: ExplosionTag) -> Explosion {
    Explosion {
        pos,
        anim: AnimationConfig {
            timer: Timer {
                mode: TimerMode::Repeating,
                duration_ms: (1000int / (EXPLOSION_FPS as int)) as u64,
                elapsed_ms: 0,
                finished: false,
                paused: false,
            },
            fps: EXPLOSION_FPS,
            first_sprite_index: 0,
            last_sprite_index: EXPLOSION_LAST_FRAME,
            animation_type: AnimationType::Once,
        },
        frame_index: 0,
        tag,
    }
}

/// Adds an explosion effect at a position.
pub fn spawn_explosion(explosions: &mut Vec<Explosion>, pos: Vec2, tag: ExplosionTag)
    ensures
        final(explosions)@ == old(explosions)@.push(fresh_explosion(pos, tag)),
        fresh_explosion(pos, tag).wf(),
{
    let anim = AnimationConfig::new(0, EXPLOSION_LAST_FRAME, EXPLOSION_FPS, AnimationType::Once);
    explosions.push(Explosion { pos, anim, frame_index: 0, tag });
}

/// Counts the explosions carrying a tag.
pub open spec fn count_tagged(explosions: Seq<Explosion>, tag: ExplosionTag) -> int
    decreases explosions.len(),
{
    if explosions.len() == 0 {
        0
    } else {
        count_tagged(explosions.drop_last(), tag)
            + if explosions.last().tag == tag { 1int } else { 0int }
    }
}

/// Appending one explosion raises exactly the count of its tag.
pub proof fn lemma_count_tagged_push(explosions: Seq<Explosion>, e: Explosion, tag: ExplosionTag)
    ensures
        count_tagged(explosions.push(e), tag) == count_tagged(explosions, tag)
            + if e.tag == tag { 1int } else { 0int },
{
    assert(explosions.push(e).drop_last() =~= explosions);
    assert(explosions.push(e).last() == e);
}

/// The explosion list after one tick: every explosion stepped, the
/// finished ones removed, order kept.
pub open spec fn explosions_after(s: Seq<Explosion>, delta_ms: int) -> Seq<Explosion>
    decreases s.len(),
{
    if s.len() == 0 {
        Seq::<Explosion>::empty()
    } else {
        explosions_after(s.drop_last(), delta_ms) + if s.last().done_after(delta_ms) {
            Seq::<Explosion>::empty()
        } else {
            seq![s.last().stepped(delta_ms)]
        }
    }
}

/// Advances every explosion's animation; the ones that have played
/// through are removed, the rest keep their order.
pub fn explosion_system(explosions: &mut Vec<Explosion>, delta_ms: u64)
    requires
        forall|i: int| 0 <= i < old(explosions)@.len() ==> old(explosions)@[i].wf(),
        delta_ms <= MAX_TICK_MS,
    ensures
        forall|i: int| 0 <= i < final(explosions)@.len() ==> final(explosions)@[i].wf(),
        final(explosions)@ == explosions_after(old(explosions)@, delta_ms as int),
{
    let mut kept: Vec<Explosion> = Vec::new();
    let mut i: usize = 0;
    proof {
        assert(explosions@.take(0) =~= Seq::<Explosion>::empty());
    }
    while i < explosions.len()
        invariant
            forall|k: int| 0 <= k < explosions@.len() ==> explosions@[k].wf(),
            delta_ms <= MAX_TICK_MS,
            i <= explosions@.len(),
            forall|k: int| 0 <= k < kept@.len() ==> kept@[k].wf(),
            kept@ == explosions_after(explosions@.take(i as int), delta_ms as int),
        decreases explosions@.len() - i,
    {
        let mut e: Explosion = explosions[i];
        let mut frame: usize = e.frame_index;
        let done = e.anim.step(&mut frame, delta_ms);
        e.frame_index = frame;
        proof {
            assert(explosions@.take(i + 1).drop_last() =~= explosions@.take(i as int));
            assert(explosions@.take(i + 1).last() == explosions@[i as int]);
        }
        if !done {
            kept.push(e);
            proof {
                assert(kept@ =~= explosions_after(explosions@.take(i + 1), delta_ms as int));
            }
        } else {
            proof {
                assert(kept@ =~= explosions_after(explosions@.take(i + 1), delta_ms as int));
            }
        }
        i = i + 1;
    }
    proof {
        assert(explosions@.take(explosions@.len() as int) =~= explosions@);
    }
    *explosions = kept;
}

} // verus!
