//! Adding tracks to the playlist.

use crate::audio::player::AudioPlayer;
use crate::audio::state::SinkCommand;
use std::path::PathBuf;
use vstd::prelude::*;

verus! {

impl AudioPlayer {
    /// Adds `path` to the end of the playlist. The first track of a
    /// coordinator that is not playing is started at once: the command is then
    /// a load of it, and `Nothing` in every other case.
    pub fn playlist(&mut self, path: PathBuf) -> (command: SinkCommand)
        ensures
            final(self)@ == old(self)@.enqueued(path),
            command == old(self)@.enqueue_command(path),
            final(self)@.wf(),
    {
        proof {
            use_type_invariant(&*self);
        }
        let is_first_song: bool = self.playlist.is_empty();
        // The list is taken out and put back whole: a field of a type with an
        // invariant cannot be lent to a call that may unwind.
        let mut taken: AudioPlayer = AudioPlayer::setup_audio();
        std::mem::swap(self, &mut taken);
        let AudioPlayer {
            playlist,
            current_index,
            is_playing,
            repeat_mode,
            is_muted,
            volume,
            clock,
        } = taken;
        let mut playlist: Vec<PathBuf> = playlist;
        playlist.push(path);
        proof {
            vstd::std_specs::vec::axiom_spec_len(&playlist);
        }
        *self = AudioPlayer {
            playlist,
            current_index,
            is_playing,
            repeat_mode,
            is_muted,
            volume,
            clock,
        };
        if is_first_song && !self.is_playing {
            self.play_current()
        } else {
            SinkCommand::Nothing
        }
    }
}

} // verus!
