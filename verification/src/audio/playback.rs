//! The transport operations: starting the current track, play/pause, skipping
//! in both directions, the repeat toggle and seeking.

use crate::audio::clock::PlaybackClock;
use crate::audio::player::AudioPlayer;
use crate::audio::repeat_mode::RepeatMode;
use crate::audio::state::{PlaybackError, SinkCommand};
use vstd::prelude::*;

verus! {

impl AudioPlayer {
    /// Decides how the current track is started: a load of it at the effective
    /// volume where there is one, nothing where the playlist is empty. The
    /// state changes only when the engine reports the load's success to
    /// `complete_load`.
    pub fn play_current(&self) -> (command: SinkCommand)
        ensures
            command == self@.play_command(),
            self@.tracks.len() == 0 ==> command == SinkCommand::Nothing,
            self@.tracks.len() > 0 ==> command == (SinkCommand::Load {
                index: self@.index as usize,
                volume: self@.effective_volume() as i32,
            }),
    {
        proof {
            use_type_invariant(self);
        }
        if self.playlist.is_empty() {
            return SinkCommand::Nothing;
        }
        if self.current_index >= self.playlist.len() {
            return SinkCommand::Nothing;
        }
        SinkCommand::Load { index: self.current_index, volume: self.effective_volume() }
    }

    /// Takes the outcome of a load that the engine attempted at `now`. After a
    /// success the current track plays and its clock starts at `now`; after a
    /// failure the state is as before, and the failure is handed on. While the
    /// playlist is empty no load is ever asked for, and a report of one changes
    /// nothing.
    pub fn complete_load(&mut self, outcome: Result<(), PlaybackError>, now: u64) -> (result:
        Result<(), PlaybackError>)
        ensures
            result == outcome,
            outcome.is_ok() ==> final(self)@ == old(self)@.loaded(now),
            outcome.is_err() ==> final(self)@ == old(self)@,
            final(self)@.wf(),
    {
        proof {
            use_type_invariant(&*self);
        }
        if outcome.is_ok() && self.current_index < self.playlist.len() {
            let mut clock: PlaybackClock = self.clock;
            clock.start(now);
            self.clock = clock;
            self.is_playing = true;
        }
        outcome
    }

    /// Flips between playing and paused at `now`, and moves the clock with it.
    /// With an empty playlist nothing changes.
    pub fn toggle_playback(&mut self, now: u64) -> (command: SinkCommand)
        ensures
            final(self)@ == old(self)@.toggled(now),
            command == old(self)@.toggle_command(),
            final(self)@.wf(),
    {
        proof {
            use_type_invariant(&*self);
        }
        if self.playlist.is_empty() {
            return SinkCommand::Nothing;
        }
        let mut clock: PlaybackClock = self.clock;
        if self.is_playing {
            clock.pause(now);
            self.clock = clock;
            self.is_playing = false;
            SinkCommand::Pause
        } else {
            clock.resume(now);
            self.clock = clock;
            self.is_playing = true;
            SinkCommand::Play
        }
    }

    /// Skips to the next track as the repeat mode says: the same track again
    /// under `One`, the following one with a wrap to the first under `All`, the
    /// following one if there is one under `Off`. The command starts the track
    /// that is current afterwards, or is `Nothing` where nothing was skipped.
    pub fn next(&mut self) -> (command: SinkCommand)
        ensures
            final(self)@ == old(self)@.advanced(),
            command == old(self)@.advance_command(),
            final(self)@.wf(),
    {
        proof {
            use_type_invariant(&*self);
        }
        let len: usize = self.playlist.len();
        if len == 0 {
            return SinkCommand::Nothing;
        }
        match self.repeat_mode {
            RepeatMode::One => self.play_current(),
            RepeatMode::All => {
                assert((self.current_index + 1) % (len as int) == if self.current_index + 1 < len {
                    self.current_index + 1
                } else {
                    0
                }) by (nonlinear_arith)
                    requires
                        0 <= self.current_index < len,
                ;
                self.current_index = (self.current_index + 1) % len;
                self.play_current()
            },
            RepeatMode::Off => {
                if self.current_index < len - 1 {
                    self.current_index = self.current_index + 1;
                    self.play_current()
                } else {
                    SinkCommand::Nothing
                }
            },
        }
    }

    /// Skips to the previous track: one back where the current track is not
    /// the first, to the last one from the first under `All`, and not at all
    /// from the first otherwise.
    pub fn previous(&mut self) -> (command: SinkCommand)
        ensures
            final(self)@ == old(self)@.retreated(),
            command == old(self)@.retreat_command(),
            final(self)@.wf(),
    {
        proof {
            use_type_invariant(&*self);
        }
        let len: usize = self.playlist.len();
        if len == 0 {
            return SinkCommand::Nothing;
        }
        if self.current_index > 0 {
            self.current_index = self.current_index - 1;
            self.play_current()
        } else if self.repeat_mode == RepeatMode::All {
            self.current_index = len - 1;
            self.play_current()
        } else {
            SinkCommand::Nothing
        }
    }

    /// Steps the repeat mode through its cycle. Nothing else changes, and the
    /// sink is not touched.
    pub fn repeats(&mut self)
        ensures
            final(self)@ == old(self)@.repeat_cycled(),
            final(self)@.wf(),
    {
        proof {
            use_type_invariant(&*self);
        }
        self.repeat_mode = self.repeat_mode.next();
    }

    /// Decides how a seek to `position` seconds is carried out: the current
    /// track is rebuilt there at the effective volume, and plays again if it
    /// was playing. With an empty playlist there is nothing to do. The state
    /// does not change.
    pub fn seek_to(&self, position: u64) -> (command: SinkCommand)
        ensures
            command == self@.seek_command(position),
            self@.tracks.len() == 0 ==> command == SinkCommand::Nothing,
            self@.tracks.len() > 0 ==> command == (SinkCommand::Seek {
                index: self@.index as usize,
                position,
                resume: self@.playing,
                volume: self@.effective_volume() as i32,
            }),
    {
        proof {
            use_type_invariant(self);
        }
        if self.current_index < self.playlist.len() {
            SinkCommand::Seek {
                index: self.current_index,
                position,
                resume: self.is_playing,
                volume: self.effective_volume(),
            }
        } else {
            SinkCommand::Nothing
        }
    }
}

} // verus!
