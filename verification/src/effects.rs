//! The narrow interface to the rendering and audio collaborators.
//!
//! The core never plays a sound or composes pixels: it names the clip
//! or texture, and the surrounding layer performs the call.

use vstd::prelude::*;

verus! {

/// Textures and sprite sheets the renderer knows by name.
#[derive(Clone, Copy, PartialEq, Eq, Structural, Debug)]
pub enum VisualKind {
    Rocket,
    Dino,
    ExplosionSheet,
    FillHeart,
    EmptyHeart,
    RapidFireIcon,
    PiercingShotIcon,
    Apple,
    BlueEgg,
    YellowEgg,
    Ground,
    Ocean,
    Universe,
}

/// Fire-and-forget audio clips.
#[derive(Clone, Copy, PartialEq, Eq, Structural, Debug)]
pub enum AudioCue {
    Shoot,
    Damage,
    Explosion,
    PlayingBgm,
    ClearBgm,
}

} // verus!
