//! The three-valued repeat mode and its cyclic transition.

use vstd::prelude::*;

verus! {

/// How playback continues when a track ends or the listener skips.
#[derive(Clone, Copy, Debug, PartialEq, Eq, Structural)]
pub enum RepeatMode {
    /// Play through the list once and stop at its end.
    Off,
    /// Replay the current track.
    One,
    /// Wrap around at either end of the list.
    All,
}

impl RepeatMode {
    /// The mode that follows `self` in the cycle `Off`, `One`, `All`, `Off`.
    pub open spec fn successor(self) -> RepeatMode {
        match self {
            RepeatMode::Off => RepeatMode::One,
            RepeatMode::One => RepeatMode::All,
            RepeatMode::All => RepeatMode::Off,
        }
    }

    /// Steps to the following mode of the cycle.
    pub fn next(&self) -> (r: RepeatMode)
        ensures
            r == self.successor(),
    {
        match self {
            RepeatMode::Off => RepeatMode::One,
            RepeatMode::One => RepeatMode::All,
            RepeatMode::All => RepeatMode::Off,
        }
    }

    /// Three steps of the cycle lead back to the starting mode, and fewer do not.
    pub proof fn lemma_cycle_has_period_three(self)
        ensures
            self.successor().successor().successor() == self,
            self.successor() != self,
            self.successor().successor() != self,
    {
    }
}

} // verus!
