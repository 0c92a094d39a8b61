//! Volume and mute.
//!
//! A volume is a level in thousandths of full scale. Muting silences the
//! output and leaves the stored volume alone.

use crate::audio::player::AudioPlayer;
use crate::audio::state::{SinkCommand, FULL_VOLUME};
use vstd::prelude::*;

verus! {

impl AudioPlayer {
    /// Stores `new_volume`, brought into the range from silence to full scale.
    /// The command passes the stored volume to the sink, unless the output is
    /// muted: then the sink stays silent.
    pub fn set_volume(&mut self, new_volume: i32) -> (command: SinkCommand)
        ensures
            final(self)@ == old(self)@.with_volume(new_volume as int),
            command == old(self)@.volume_command(new_volume as int),
            final(self)@.wf(),
    {
        proof {
            use_type_invariant(&*self);
        }
        let level: i32 = if new_volume < 0 {
            0
        } else if new_volume > FULL_VOLUME {
            FULL_VOLUME
        } else {
            new_volume
        };
        self.volume = level;
        if !self.is_muted {
            SinkCommand::SetVolume { level }
        } else {
            SinkCommand::Nothing
        }
    }

    /// The stored volume, whether or not the output is muted.
    pub fn get_volume(&self) -> (level: i32)
        ensures
            level == self@.volume,
            0 <= level <= FULL_VOLUME,
    {
        proof {
            use_type_invariant(self);
        }
        self.volume
    }

    /// The volume that the sink is to play at: the stored volume, or silence
    /// while the output is muted. Every command that rebuilds the sink carries
    /// it.
    pub fn effective_volume(&self) -> (level: i32)
        ensures
            level == self@.effective_volume(),
            0 <= level <= FULL_VOLUME,
    {
        proof {
            use_type_invariant(self);
        }
        if self.is_muted {
            0
        } else {
            self.volume
        }
    }

    /// Flips the mute flag and leaves the stored volume alone. The command
    /// silences the sink when the output is muted afterwards, and gives it the
    /// stored volume back when it is not.
    pub fn toggle_mute(&mut self) -> (command: SinkCommand)
        ensures
            final(self)@ == old(self)@.mute_toggled(),
            command == old(self)@.mute_command(),
            final(self)@.wf(),
    {
        proof {
            use_type_invariant(&*self);
        }
        let was_muted: bool = self.is_muted;
        self.is_muted = !was_muted;
        if was_muted {
            SinkCommand::SetVolume { level: self.volume }
        } else {
            SinkCommand::SetVolume { level: 0 }
        }
    }

    /// Whether the output is muted.
    pub fn is_muted(&self) -> (muted: bool)
        ensures
            muted == self@.muted,
    {
        self.is_muted
    }
}

} // verus!
