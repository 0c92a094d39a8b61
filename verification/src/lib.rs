//! Playback coordination for a single-output audio player: the repeat mode,
//! the playback clock, the transport state that a front end drives, and the
//! text it shows for a time.

pub mod audio;
pub mod display;
