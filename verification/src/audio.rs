//! Sound cues and how each one is played.

use vstd::prelude::*;

verus! {

/// A request to play a sound cue.
#[derive(Clone, Copy, PartialEq, Eq, Structural, Debug)]
pub enum AudioStart {
    Bush,
    Fence,
    Rock,
    Laser,
    Cheering,
    DrumChase,
    GnomeDying,
    Goat,
    Pick,
    Pop,
    PopOut,
    Secret,
    Shovel,
    UhOh,
    Tock,
    SwitchOn,
    SwitchOff,
    ShovelBroken,
}

/// How a cue is played back.
#[derive(Clone, Copy, PartialEq, Eq, Structural, Debug)]
pub enum Playback {
    /// Loops until removed (it is tagged to be stopped later and removed on
    /// game over), at normal speed.
    Loop,
    /// Plays once and despawns, with a randomly varied speed so that repeated
    /// cues do not sound the same.
    OnceVaried,
}

impl AudioStart {
    /// Only the chase drums loop.
    pub open spec fn playback_spec(self) -> Playback {
        if self == AudioStart::DrumChase {
            Playback::Loop
        } else {
            Playback::OnceVaried
        }
    }

    /// How this cue is played.
    pub fn playback(&self) -> (p: Playback)
        ensures
            p == self.playback_spec(),
    {
        match self {
            AudioStart::DrumChase => Playback::Loop,
            _ => Playback::OnceVaried,
        }
    }
}

} // verus!
