//! The playback coordinator: the owner of playlist, position, repeat mode,
//! volume, mute flag and clock.
//!
//! The coordinator decides and keeps the state; it drives no device. Each
//! transport operation returns the `SinkCommand` that the output engine has to
//! carry out, and the engine reports the outcome of a load back through
//! `complete_load`.

use crate::audio::clock::{PlaybackClock, NANOS_PER_SEC};
use crate::audio::repeat_mode::RepeatMode;
use crate::audio::state::{PlayerState, FULL_VOLUME};
use crate::audio::time_control::{get_audio_duration_symphonia, track_length, ProbedTrack};
use std::path::PathBuf;
use vstd::prelude::*;

verus! {

/// The whole seconds of the current track's length, where `probe` is what
/// the probe of its file found: zero where there is no current track or the
/// probe tells no length.
pub open spec fn total_seconds(state: PlayerState, probe: ProbedTrack) -> u64 {
    if 0 <= state.index < state.tracks.len() {
        match track_length(probe) {
            Some(length) => length.secs,
            None => 0,
        }
    } else {
        0
    }
}

/// The playback state of one player.
pub struct AudioPlayer {
    pub(crate) playlist: Vec<PathBuf>,
    pub(crate) current_index: usize,
    pub(crate) is_playing: bool,
    pub(crate) repeat_mode: RepeatMode,
    pub(crate) is_muted: bool,
    pub(crate) volume: i32,
    pub(crate) clock: PlaybackClock,
}

impl View for AudioPlayer {
    type V = PlayerState;

    open(crate) spec fn view(&self) -> PlayerState {
        PlayerState {
            tracks: self.playlist@,
            index: self.current_index as int,
            playing: self.is_playing,
            repeat_mode: self.repeat_mode,
            muted: self.is_muted,
            volume: self.volume as int,
            clock: self.clock,
        }
    }
}

impl AudioPlayer {
    #[verifier::type_invariant]
    pub(crate) open spec fn well_formed(&self) -> bool {
        self@.wf()
    }

    /// A coordinator with an empty playlist: nothing plays, nothing repeats,
    /// the output is not muted and the volume is at full scale.
    pub fn setup_audio() -> (player: AudioPlayer)
        ensures
            player@ == PlayerState::initial(),
            player@.wf(),
    {
        AudioPlayer {
            playlist: Vec::new(),
            current_index: 0,
            is_playing: false,
            repeat_mode: RepeatMode::Off,
            is_muted: false,
            volume: FULL_VOLUME,
            clock: PlaybackClock::new(),
        }
    }

    /// Whether the sink is playing.
    pub fn is_playing(&self) -> (playing: bool)
        ensures
            playing == self@.playing,
    {
        self.is_playing
    }

    /// The number of tracks in the playlist.
    pub fn playlist_len(&self) -> (len: usize)
        ensures
            len == self@.tracks.len(),
    {
        self.playlist.len()
    }

    /// The position of the current track: an offset into the playlist, or zero
    /// while the playlist is empty.
    pub fn current_index(&self) -> (index: usize)
        ensures
            index == self@.index,
            self@.wf(),
    {
        proof {
            use_type_invariant(self);
        }
        self.current_index
    }

    /// The repeat mode in force.
    pub fn repeat_mode(&self) -> (mode: RepeatMode)
        ensures
            mode == self@.repeat_mode,
    {
        self.repeat_mode
    }

    /// The track at `index`, where the playlist has one there.
    pub fn track(&self, index: usize) -> (track: Option<&PathBuf>)
        ensures
            index < self@.tracks.len() ==> track == Some(&self@.tracks[index as int]),
            index >= self@.tracks.len() ==> track.is_none(),
    {
        if index < self.playlist.len() {
            Some(&self.playlist[index])
        } else {
            None
        }
    }

    /// The current track, where there is one.
    pub fn current_track(&self) -> (track: Option<&PathBuf>)
        ensures
            self@.tracks.len() > 0 ==> track == Some(&self@.tracks[self@.index]),
            self@.tracks.len() == 0 ==> track.is_none(),
            self@.wf(),
    {
        proof {
            use_type_invariant(self);
        }
        self.track(self.current_index)
    }

    /// The total length of the current track in whole seconds, from what the
    /// probe of its file found. Zero where there is no current track and where
    /// the probe tells no length.
    pub fn get_total_duration(&self, probe: ProbedTrack) -> (seconds: u64)
        ensures
            seconds == total_seconds(self@, probe),
            self@.tracks.len() == 0 ==> seconds == 0,
    {
        if self.current_index >= self.playlist.len() {
            return 0;
        }
        match get_audio_duration_symphonia(probe) {
            Some(length) => length.as_secs(),
            None => 0,
        }
    }

    /// The play time of the current track at `now`, in whole seconds.
    pub fn get_current_time(&self, now: u64) -> (seconds: u64)
        ensures
            seconds == self@.current_time(now),
    {
        self.clock.elapsed(now) / NANOS_PER_SEC
    }
}

} // verus!
