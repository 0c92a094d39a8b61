//! The playback coordinator and the parts it is made of.

pub mod clock;
pub mod playback;
pub mod player;
pub mod playlist;
pub mod repeat_mode;
pub mod state;
pub mod time_control;
pub mod volume_control;

pub use clock::PlaybackClock;
pub use player::AudioPlayer;
pub use repeat_mode::RepeatMode;
pub use state::{PlaybackError, PlayerState, SinkCommand};
