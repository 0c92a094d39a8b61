//! The length of a track, worked out from what a probe of its file found.
//!
//! The probe itself opens the file and walks its container, and a reader of
//! a damaged container may give up in ways that only its caller can catch. So
//! the probe runs outside this library, next to the file; the library takes
//! its finding as a plain value and decides what follows from it.

use crate::audio::clock::NANOS_PER_SEC;
use vstd::prelude::*;

verus! {

/// What a probe of a track's file found.
#[derive(Clone, Copy, Debug, PartialEq, Eq, Structural)]
pub enum ProbedTrack {
    /// The file is missing or could not be opened.
    Unreadable,
    /// The probe gave no reader for the content: no supported container
    /// format was recognized, a recognized container could not be parsed, or
    /// the probe did not come to an end.
    Rejected,
    /// The container was read and holds no track.
    NoTrack,
    /// The codec parameters of the container's default track, as far as the
    /// container states them.
    Track { n_frames: Option<u64>, sample_rate: Option<u32> },
}

/// A length of time: whole seconds and the nanoseconds beyond them.
#[derive(Clone, Copy, Debug, PartialEq, Eq, Structural)]
pub struct TrackLength {
    /// The whole seconds.
    pub secs: u64,
    /// The rest, less than one second.
    pub subsec_nanos: u32,
}

/// The length of a track of `n_frames` frames at `sample_rate` frames per
/// second, cut off at the nanosecond.
pub open spec fn length_of_frames(n_frames: u64, sample_rate: u32) -> TrackLength
    recommends
        sample_rate > 0,
{
    TrackLength {
        secs: (n_frames as int / sample_rate as int) as u64,
        subsec_nanos: ((n_frames as int % sample_rate as int) * NANOS_PER_SEC / (
        sample_rate as int)) as u32,
    }
}

/// The length that follows from a probe: known where the default track
/// states its frame count and a sample rate other than zero.
pub open spec fn track_length(probe: ProbedTrack) -> Option<TrackLength> {
    match probe {
        ProbedTrack::Track { n_frames: Some(frames), sample_rate: Some(rate) } => if rate > 0 {
            Some(length_of_frames(frames, rate))
        } else {
            None
        },
        _ => None,
    }
}

impl TrackLength {
    /// The whole seconds of the length.
    pub fn as_secs(&self) -> (secs: u64)
        ensures
            secs == self.secs,
    {
        self.secs
    }
}

/// The total length of a track from what the probe of its file found: the
/// frame count divided by the sample rate. `None` where the file could not be
/// read, where the probe gave no reader or no track, where the track leaves
/// out either number, and where the rate is zero.
pub fn get_audio_duration_symphonia(probe: ProbedTrack) -> (length: Option<TrackLength>)
    ensures
        length == track_length(probe),
        length.is_some() <==> (probe matches ProbedTrack::Track {
            n_frames: Some(_),
            sample_rate: Some(rate),
        } && rate > 0),
        length matches Some(l) ==> l.subsec_nanos < NANOS_PER_SEC,
{
    match probe {
        ProbedTrack::Track { n_frames: Some(frames), sample_rate: Some(rate) } => {
            if rate == 0 {
                return None;
            }
            let rate_wide: u64 = rate as u64;
            let rest: u64 = frames % rate_wide;
            assert(rest * NANOS_PER_SEC / (rate_wide as int) < NANOS_PER_SEC) by (nonlinear_arith)
                requires
                    0 <= rest < rate_wide,
            ;
            let nanos: u64 = rest * NANOS_PER_SEC / rate_wide;
            Some(TrackLength { secs: frames / rate_wide, subsec_nanos: nanos as u32 })
        },
        _ => None,
    }
}

} // verus!
