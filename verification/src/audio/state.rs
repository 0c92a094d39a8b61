//! The mathematical model of the coordinator: its state as plain values, and
//! each transport operation as a function from a state to the next state and
//! to the command that the output engine has to carry out.

use crate::audio::clock::PlaybackClock;
use crate::audio::repeat_mode::RepeatMode;
use std::path::PathBuf;
use vstd::prelude::*;

verus! {

/// `std::path::PathBuf`, which the coordinator stores and hands back without
/// looking inside.
#[verifier::external_type_specification]
#[verifier::external_body]
pub struct ExPathBuf(PathBuf);

/// The volume level that stands for full scale; levels are thousandths of it.
pub const FULL_VOLUME: i32 = 1000;

/// What the output engine has to do after a transport operation.
///
/// The coordinator decides; the engine, which owns the device and the sink,
/// acts. A track is named by its position in the playlist.
#[derive(Clone, Copy, Debug, PartialEq, Eq, Structural)]
pub enum SinkCommand {
    /// Leave the sink as it is.
    Nothing,
    /// Replace the sink by a new one that plays the track at `index` from its
    /// beginning, at `volume` thousandths of full scale.
    Load { index: usize, volume: i32 },
    /// Replace the sink by a new one that holds the track at `index`, skipped
    /// forward by `position` seconds, at `volume` thousandths of full scale,
    /// playing if `resume` is set and paused if not.
    Seek { index: usize, position: u64, resume: bool, volume: i32 },
    /// Pause the sink.
    Pause,
    /// Let the sink play.
    Play,
    /// Set the sink's output volume to `level` thousandths of full scale.
    SetVolume { level: i32 },
}

/// Why the output engine could not carry out a `Load` or a `Seek`.
#[derive(Clone, Copy, Debug, PartialEq, Eq, Structural)]
pub enum PlaybackError {
    /// The output device could not be opened or gave no sink.
    Device,
    /// The track's file is missing or unreadable.
    File,
    /// The track's content is unrecognized or corrupt.
    Decode,
}

/// `level` brought into the range from silence to full scale.
pub open spec fn clamp_volume(level: int) -> int {
    if level < 0 {
        0
    } else if level > FULL_VOLUME {
        FULL_VOLUME as int
    } else {
        level
    }
}

/// The coordinator's state as plain values.
pub struct PlayerState {
    /// The playlist, in the order in which the tracks were added.
    pub tracks: Seq<PathBuf>,
    /// The position of the current track.
    pub index: int,
    /// Whether the sink is playing.
    pub playing: bool,
    /// What happens at the ends of the playlist.
    pub repeat_mode: RepeatMode,
    /// Whether the output is muted.
    pub muted: bool,
    /// The stored volume, in thousandths of full scale.
    pub volume: int,
    /// The clock of the current track.
    pub clock: PlaybackClock,
}

impl PlayerState {
    /// The current position is an offset into the playlist, or zero while the
    /// playlist is empty; nothing plays while the playlist is empty; the volume
    /// lies between silence and full scale; and the playlist is no longer than
    /// a machine can hold.
    pub open spec fn wf(self) -> bool {
        &&& self.tracks.len() <= usize::MAX
        &&& self.playing ==> self.tracks.len() > 0
        &&& 0 <= self.index
        &&& self.index < self.tracks.len() || (self.tracks.len() == 0 && self.index == 0)
        &&& 0 <= self.volume <= FULL_VOLUME
    }

    /// The clock keeps step with the transport: it runs while the sink plays,
    /// and once a track has begun it stands still while the sink does not.
    pub open spec fn clock_in_step(self) -> bool {
        &&& self.playing ==> self.clock.paused_at.is_none()
        &&& !self.playing && self.clock.started_at.is_some() ==> self.clock.paused_at.is_some()
    }

    /// The state of a coordinator that has just been set up.
    pub open spec fn initial() -> PlayerState {
        PlayerState {
            tracks: Seq::empty(),
            index: 0,
            playing: false,
            repeat_mode: RepeatMode::Off,
            muted: false,
            volume: FULL_VOLUME as int,
            clock: PlaybackClock::fresh(),
        }
    }

    /// The volume that reaches the output: the stored one, or silence while muted.
    pub open spec fn effective_volume(self) -> int {
        if self.muted {
            0
        } else {
            self.volume
        }
    }

    /// The command that starts the current track: a load of it at the
    /// effective volume where there is one, nothing where the playlist is empty
    /// or the position lies outside it.
    pub open spec fn play_command(self) -> SinkCommand {
        if 0 <= self.index < self.tracks.len() {
            SinkCommand::Load {
                index: self.index as usize,
                volume: self.effective_volume() as i32,
            }
        } else {
            SinkCommand::Nothing
        }
    }

    /// The state once the engine reports that a load succeeded at `now`: the
    /// current track plays and its clock starts. Where there is no current
    /// track no load can have been asked for, and the report changes nothing.
    pub open spec fn loaded(self, now: u64) -> PlayerState {
        if 0 <= self.index < self.tracks.len() {
            PlayerState { playing: true, clock: PlaybackClock::started(now), ..self }
        } else {
            self
        }
    }

    /// The state after `path` is added to the end of the playlist.
    pub open spec fn enqueued(self, path: PathBuf) -> PlayerState {
        PlayerState { tracks: self.tracks.push(path), ..self }
    }

    /// The command that goes with `enqueued`: the first track of an idle
    /// coordinator is started at once.
    pub open spec fn enqueue_command(self, path: PathBuf) -> SinkCommand {
        if self.tracks.len() == 0 && !self.playing {
            self.enqueued(path).play_command()
        } else {
            SinkCommand::Nothing
        }
    }

    /// The state after the play/pause toggle at `now`.
    pub open spec fn toggled(self, now: u64) -> PlayerState {
        if self.tracks.len() == 0 {
            self
        } else if self.playing {
            PlayerState { playing: false, clock: self.clock.paused(now), ..self }
        } else {
            PlayerState { playing: true, clock: self.clock.resumed(now), ..self }
        }
    }

    /// The command that goes with `toggled`.
    pub open spec fn toggle_command(self) -> SinkCommand {
        if self.tracks.len() == 0 {
            SinkCommand::Nothing
        } else if self.playing {
            SinkCommand::Pause
        } else {
            SinkCommand::Play
        }
    }

    /// The state after a skip to the next track.
    pub open spec fn advanced(self) -> PlayerState {
        if self.tracks.len() == 0 {
            self
        } else {
            match self.repeat_mode {
                RepeatMode::One => self,
                RepeatMode::All => if self.index + 1 < self.tracks.len() {
                    PlayerState { index: self.index + 1, ..self }
                } else {
                    PlayerState { index: 0, ..self }
                },
                RepeatMode::Off => if self.index + 1 < self.tracks.len() {
                    PlayerState { index: self.index + 1, ..self }
                } else {
                    self
                },
            }
        }
    }

    /// The command that goes with `advanced`: the track that is current after
    /// the skip is started, unless the skip was refused at the end of the list.
    pub open spec fn advance_command(self) -> SinkCommand {
        if self.tracks.len() == 0 {
            SinkCommand::Nothing
        } else if self.repeat_mode == RepeatMode::Off && !(self.index + 1 < self.tracks.len()) {
            SinkCommand::Nothing
        } else {
            self.advanced().play_command()
        }
    }

    /// The state after a skip to the previous track.
    pub open spec fn retreated(self) -> PlayerState {
        if self.tracks.len() == 0 {
            self
        } else if self.index > 0 {
            PlayerState { index: self.index - 1, ..self }
        } else if self.repeat_mode == RepeatMode::All {
            PlayerState { index: self.tracks.len() - 1, ..self }
        } else {
            self
        }
    }

    /// The command that goes with `retreated`: the track that is current after
    /// the skip is started, unless the skip was refused at the first track.
    pub open spec fn retreat_command(self) -> SinkCommand {
        if self.tracks.len() == 0 {
            SinkCommand::Nothing
        } else if self.index > 0 || self.repeat_mode == RepeatMode::All {
            self.retreated().play_command()
        } else {
            SinkCommand::Nothing
        }
    }

    /// The state after the repeat toggle.
    pub open spec fn repeat_cycled(self) -> PlayerState {
        PlayerState { repeat_mode: self.repeat_mode.successor(), ..self }
    }

    /// The command for a seek to `position` seconds: the current track is
    /// rebuilt there at the effective volume, and plays again if it was
    /// playing.
    pub open spec fn seek_command(self, position: u64) -> SinkCommand {
        if 0 <= self.index < self.tracks.len() {
            SinkCommand::Seek {
                index: self.index as usize,
                position,
                resume: self.playing,
                volume: self.effective_volume() as i32,
            }
        } else {
            SinkCommand::Nothing
        }
    }

    /// The state after the volume is set to `level`.
    pub open spec fn with_volume(self, level: int) -> PlayerState {
        PlayerState { volume: clamp_volume(level), ..self }
    }

    /// The command that goes with `with_volume`: the new volume reaches the
    /// sink unless the output is muted.
    pub open spec fn volume_command(self, level: int) -> SinkCommand {
        if self.muted {
            SinkCommand::Nothing
        } else {
            SinkCommand::SetVolume { level: clamp_volume(level) as i32 }
        }
    }

    /// The state after the mute toggle.
    pub open spec fn mute_toggled(self) -> PlayerState {
        PlayerState { muted: !self.muted, ..self }
    }

    /// The command that goes with `mute_toggled`: the sink gets the volume
    /// that is effective afterwards.
    pub open spec fn mute_command(self) -> SinkCommand {
        SinkCommand::SetVolume { level: self.mute_toggled().effective_volume() as i32 }
    }

    /// The play time of the current track at `now`, in whole seconds.
    pub open spec fn current_time(self, now: u64) -> u64 {
        self.clock.elapsed_at(now) / crate::audio::clock::NANOS_PER_SEC
    }
}

impl PlayerState {
    /// The current position stays an offset into the playlist: from a
    /// well-formed state every operation and every report of a load leads to a
    /// well-formed state, in which the playlist is empty or holds a track at
    /// the position, and nothing plays while the playlist is empty.
    pub proof fn lemma_operations_keep_index_in_bounds(
        self,
        path: PathBuf,
        now: u64,
        level: int,
    )
        requires
            self.wf(),
        ensures
            PlayerState::initial().wf(),
            self.tracks.len() == 0 || 0 <= self.index < self.tracks.len(),
            self.tracks.len() == 0 ==> !self.playing,
            self.tracks.len() < usize::MAX ==> self.enqueued(path).wf(),
            self.loaded(now).wf(),
            self.toggled(now).wf(),
            self.advanced().wf(),
            self.retreated().wf(),
            self.repeat_cycled().wf(),
            self.with_volume(level).wf(),
            self.mute_toggled().wf(),
    {
    }

    /// The clock keeps step with the transport through every operation: a
    /// state in which it runs exactly while the sink plays leads only to such
    /// states. While the sink plays, the time shown grows with the time that
    /// passes; while it is paused, the time shown stands still.
    pub proof fn lemma_clock_keeps_step(self, path: PathBuf, now: u64, later: u64, level: int)
        requires
            self.clock_in_step(),
            now <= later,
        ensures
            PlayerState::initial().clock_in_step(),
            self.enqueued(path).clock_in_step(),
            self.loaded(now).clock_in_step(),
            self.toggled(now).clock_in_step(),
            self.advanced().clock_in_step(),
            self.retreated().clock_in_step(),
            self.repeat_cycled().clock_in_step(),
            self.with_volume(level).clock_in_step(),
            self.mute_toggled().clock_in_step(),
            0 <= self.index < self.tracks.len() ==> self.loaded(now).playing && self.loaded(
                now,
            ).current_time(now) == 0,
            self.current_time(now) <= self.current_time(later),
            !self.playing && self.clock.started_at.is_some() ==> self.current_time(later)
                == self.current_time(now),
    {
    }

    /// Every command that rebuilds the sink names the track that is current
    /// once the operation is done, which the playlist holds, and carries the
    /// volume that is effective then: a muted output stays silent across a
    /// change of track.
    pub proof fn lemma_commands_name_existing_tracks(self, path: PathBuf, position: u64)
        requires
            self.wf(),
        ensures
            self.play_command() matches SinkCommand::Load { index, volume } ==> index
                == self.index && index < self.tracks.len() && volume == self.effective_volume(),
            self.enqueue_command(path) matches SinkCommand::Load { index, volume } ==> index
                == self.enqueued(path).index && index < self.enqueued(path).tracks.len() && volume
                == self.effective_volume(),
            self.advance_command() matches SinkCommand::Load { index, volume } ==> index
                == self.advanced().index && index < self.tracks.len() && volume
                == self.effective_volume(),
            self.retreat_command() matches SinkCommand::Load { index, volume } ==> index
                == self.retreated().index && index < self.tracks.len() && volume
                == self.effective_volume(),
            self.seek_command(position) matches SinkCommand::Seek { index, volume, .. } ==> index
                == self.index && index < self.tracks.len() && volume == self.effective_volume(),
            self.muted ==> {
                &&& self.play_command() matches SinkCommand::Load { volume, .. } ==> volume == 0
                &&& self.advance_command() matches SinkCommand::Load { volume, .. } ==> volume
                    == 0
                &&& self.retreat_command() matches SinkCommand::Load { volume, .. } ==> volume
                    == 0
                &&& self.seek_command(position) matches SinkCommand::Seek { volume, .. }
                    ==> volume == 0
            },
    {
    }

    /// Setting a volume stores it clamped, and setting the clamped volume
    /// again changes nothing.
    pub proof fn lemma_volume_clamp_is_idempotent(self, level: int)
        ensures
            self.with_volume(level).volume == clamp_volume(level),
            0 <= clamp_volume(level) <= FULL_VOLUME,
            0 <= level <= FULL_VOLUME ==> clamp_volume(level) == level,
            clamp_volume(clamp_volume(level)) == clamp_volume(level),
            self.with_volume(level).with_volume(clamp_volume(level)) == self.with_volume(level),
    {
    }

    /// Muting and unmuting gives back exactly the volume that was set: the
    /// stored volume never changes, and from an unmuted state the second toggle
    /// hands the sink that volume again, not silence.
    pub proof fn lemma_mute_restores_volume(self, level: int)
        requires
            0 <= level <= FULL_VOLUME,
        ensures
            self.with_volume(level).mute_toggled().volume == level,
            self.with_volume(level).mute_toggled().mute_toggled() == self.with_volume(level),
            !self.muted ==> {
                &&& self.with_volume(level).mute_toggled().effective_volume() == 0
                &&& self.with_volume(level).mute_toggled().mute_toggled().effective_volume()
                    == level
                &&& self.with_volume(level).mute_command() == (SinkCommand::SetVolume {
                    level: 0,
                })
                &&& self.with_volume(level).mute_toggled().mute_command() == (
                SinkCommand::SetVolume { level: level as i32 })
            },
    {
    }

    /// At the ends of the playlist a skip wraps under `All` and is refused
    /// under `Off`; under `One` a skip forward stays on the current track.
    pub proof fn lemma_skips_at_the_ends(self)
        requires
            self.wf(),
            self.tracks.len() > 0,
        ensures
            self.repeat_mode == RepeatMode::Off && self.index == self.tracks.len() - 1 ==> {
                &&& self.advanced() == self
                &&& self.advance_command() == SinkCommand::Nothing
            },
            self.repeat_mode == RepeatMode::All && self.index == self.tracks.len() - 1
                ==> self.advanced().index == 0,
            self.repeat_mode != RepeatMode::One && self.index < self.tracks.len() - 1
                ==> self.advanced().index == self.index + 1,
            self.repeat_mode == RepeatMode::One ==> self.advanced() == self,
            self.repeat_mode == RepeatMode::All && self.index == 0 ==> self.retreated().index
                == self.tracks.len() - 1,
            self.repeat_mode != RepeatMode::All && self.index == 0 ==> {
                &&& self.retreated() == self
                &&& self.retreat_command() == SinkCommand::Nothing
            },
            self.index > 0 ==> self.retreated().index == self.index - 1,
    {
    }

    /// With an empty playlist nothing plays; play/pause, both skips, seeking
    /// and a report of a load change nothing, and none of them asks anything
    /// of the sink. The repeat toggle still steps the mode, and changes nothing
    /// else.
    pub proof fn lemma_empty_playlist_is_safe(self, now: u64, position: u64)
        requires
            self.wf(),
            self.tracks.len() == 0,
        ensures
            !self.playing,
            self.play_command() == SinkCommand::Nothing,
            self.loaded(now) == self,
            self.toggled(now) == self,
            self.toggle_command() == SinkCommand::Nothing,
            self.advanced() == self,
            self.advance_command() == SinkCommand::Nothing,
            self.retreated() == self,
            self.retreat_command() == SinkCommand::Nothing,
            self.seek_command(position) == SinkCommand::Nothing,
            self.repeat_cycled() == (PlayerState {
                repeat_mode: self.repeat_mode.successor(),
                ..self
            }),
    {
    }
}

} // verus!
