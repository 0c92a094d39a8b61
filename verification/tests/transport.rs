use audio_player::audio::clock::NANOS_PER_SEC;
use audio_player::audio::state::{PlaybackError, SinkCommand, FULL_VOLUME};
use audio_player::audio::time_control::ProbedTrack;
use audio_player::audio::{AudioPlayer, RepeatMode};
use std::path::PathBuf;

const SEC: u64 = NANOS_PER_SEC;

fn track(name: &str) -> PathBuf {
    PathBuf::from(name)
}

fn player_with(tracks: usize) -> AudioPlayer {
    let mut player = AudioPlayer::setup_audio();
    for i in 0..tracks {
        let command = player.playlist(track(&format!("track{i}.mp3")));
        if let SinkCommand::Load { .. } = command {
            assert_eq!(player.complete_load(Ok(()), 0), Ok(()));
        }
    }
    player
}

fn set_repeat(player: &mut AudioPlayer, mode: RepeatMode) {
    while player.repeat_mode() != mode {
        player.repeats();
    }
}

fn skip_to(player: &mut AudioPlayer, index: usize) {
    set_repeat(player, RepeatMode::All);
    while player.current_index() != index {
        player.next();
    }
}

#[test]
fn a_new_player_is_idle() {
    let player = AudioPlayer::setup_audio();
    assert_eq!(player.playlist_len(), 0);
    assert_eq!(player.current_index(), 0);
    assert!(!player.is_playing());
    assert!(!player.is_muted());
    assert_eq!(player.repeat_mode(), RepeatMode::Off);
    assert_eq!(player.get_volume(), FULL_VOLUME);
    assert_eq!(player.get_current_time(1_000 * SEC), 0);
    assert_eq!(player.current_track(), None);
    assert_eq!(player.play_current(), SinkCommand::Nothing);
}

#[test]
fn the_first_track_is_loaded_at_once() {
    let mut player = AudioPlayer::setup_audio();
    assert_eq!(player.playlist(track("a.mp3")), SinkCommand::Load { index: 0, volume: 1_000 });
    assert_eq!(player.playlist_len(), 1);
    assert_eq!(player.current_track(), Some(&track("a.mp3")));
    assert!(!player.is_playing());
    assert_eq!(player.complete_load(Ok(()), 3 * SEC), Ok(()));
    assert!(player.is_playing());
    assert_eq!(player.get_current_time(5 * SEC), 2);
}

#[test]
fn later_tracks_are_only_appended() {
    let mut player = player_with(1);
    assert_eq!(player.playlist(track("b.mp3")), SinkCommand::Nothing);
    assert_eq!(player.playlist(track("c.mp3")), SinkCommand::Nothing);
    assert_eq!(player.playlist_len(), 3);
    assert_eq!(player.current_index(), 0);
    assert_eq!(player.track(1), Some(&track("b.mp3")));
    assert_eq!(player.track(2), Some(&track("c.mp3")));
    assert_eq!(player.track(3), None);
}

#[test]
fn a_second_track_is_not_started_after_a_failed_first_load() {
    let mut player = AudioPlayer::setup_audio();
    assert_eq!(player.playlist(track("a.mp3")), SinkCommand::Load { index: 0, volume: 1_000 });
    assert_eq!(player.complete_load(Err(PlaybackError::File), SEC), Err(PlaybackError::File));
    assert!(!player.is_playing());
    assert_eq!(player.playlist(track("b.mp3")), SinkCommand::Nothing);
    assert_eq!(player.current_index(), 0);
}

#[test]
fn a_failed_load_leaves_the_state_alone() {
    for error in [PlaybackError::Device, PlaybackError::File, PlaybackError::Decode] {
        let mut player = player_with(3);
        player.toggle_playback(4 * SEC);
        assert_eq!(player.complete_load(Err(error), 9 * SEC), Err(error));
        assert!(!player.is_playing());
        assert_eq!(player.current_index(), 0);
        assert_eq!(player.playlist_len(), 3);
        assert_eq!(player.get_current_time(20 * SEC), 4);
    }
}

#[test]
fn a_load_restarts_the_clock() {
    let mut player = player_with(2);
    player.toggle_playback(10 * SEC);
    assert_eq!(player.next(), SinkCommand::Load { index: 1, volume: 1_000 });
    assert_eq!(player.complete_load(Ok(()), 30 * SEC), Ok(()));
    assert!(player.is_playing());
    assert_eq!(player.get_current_time(30 * SEC), 0);
    assert_eq!(player.get_current_time(95 * SEC), 65);
}

#[test]
fn next_at_the_end_without_repeat_halts() {
    let mut player = player_with(3);
    skip_to(&mut player, 2);
    set_repeat(&mut player, RepeatMode::Off);
    assert_eq!(player.next(), SinkCommand::Nothing);
    assert_eq!(player.current_index(), 2);
}

#[test]
fn next_at_the_end_with_repeat_all_wraps() {
    let mut player = player_with(3);
    skip_to(&mut player, 2);
    assert_eq!(player.repeat_mode(), RepeatMode::All);
    assert_eq!(player.next(), SinkCommand::Load { index: 0, volume: 1_000 });
    assert_eq!(player.current_index(), 0);
}

#[test]
fn next_with_repeat_one_replays_the_track() {
    let mut player = player_with(3);
    skip_to(&mut player, 1);
    set_repeat(&mut player, RepeatMode::One);
    assert_eq!(player.next(), SinkCommand::Load { index: 1, volume: 1_000 });
    assert_eq!(player.current_index(), 1);
}

#[test]
fn next_moves_on_inside_the_list() {
    let mut player = player_with(3);
    assert_eq!(player.next(), SinkCommand::Load { index: 1, volume: 1_000 });
    assert_eq!(player.next(), SinkCommand::Load { index: 2, volume: 1_000 });
    assert_eq!(player.current_index(), 2);
    assert_eq!(player.current_track(), Some(&track("track2.mp3")));
}

#[test]
fn previous_at_the_start_wraps_only_with_repeat_all() {
    let mut player = player_with(3);
    set_repeat(&mut player, RepeatMode::All);
    assert_eq!(player.previous(), SinkCommand::Load { index: 2, volume: 1_000 });
    assert_eq!(player.current_index(), 2);

    let mut player = player_with(3);
    assert_eq!(player.repeat_mode(), RepeatMode::Off);
    assert_eq!(player.previous(), SinkCommand::Nothing);
    assert_eq!(player.current_index(), 0);

    set_repeat(&mut player, RepeatMode::One);
    assert_eq!(player.previous(), SinkCommand::Nothing);
    assert_eq!(player.current_index(), 0);
}

#[test]
fn previous_steps_back_inside_the_list() {
    for mode in [RepeatMode::Off, RepeatMode::One, RepeatMode::All] {
        let mut player = player_with(3);
        skip_to(&mut player, 2);
        set_repeat(&mut player, mode);
        assert_eq!(player.previous(), SinkCommand::Load { index: 1, volume: 1_000 });
        assert_eq!(player.previous(), SinkCommand::Load { index: 0, volume: 1_000 });
        assert_eq!(player.current_index(), 0);
    }
}

#[test]
fn a_single_track_wraps_onto_itself() {
    let mut player = player_with(1);
    set_repeat(&mut player, RepeatMode::All);
    assert_eq!(player.next(), SinkCommand::Load { index: 0, volume: 1_000 });
    assert_eq!(player.previous(), SinkCommand::Load { index: 0, volume: 1_000 });
    set_repeat(&mut player, RepeatMode::Off);
    assert_eq!(player.next(), SinkCommand::Nothing);
    assert_eq!(player.previous(), SinkCommand::Nothing);
    assert_eq!(player.current_index(), 0);
}

#[test]
fn the_index_stays_inside_the_list() {
    let mut player = AudioPlayer::setup_audio();
    let mut seed: u32 = 12_345;
    for step in 0..2_000 {
        seed = seed.wrapping_mul(1_103_515_245).wrapping_add(12_345);
        match (seed >> 16) % 5 {
            0 => {
                player.playlist(track(&format!("t{step}.mp3")));
            }
            1 | 2 => {
                player.next();
            }
            3 => {
                player.previous();
            }
            _ => player.repeats(),
        }
        let len = player.playlist_len();
        let index = player.current_index();
        assert!(len == 0 || index < len);
        assert!(len > 0 || index == 0);
    }
    assert!(player.playlist_len() > 0);
}

#[test]
fn toggle_flips_between_pause_and_play() {
    let mut player = player_with(1);
    assert!(player.is_playing());
    assert_eq!(player.toggle_playback(5 * SEC), SinkCommand::Pause);
    assert!(!player.is_playing());
    assert_eq!(player.get_current_time(8 * SEC), 5);
    assert_eq!(player.toggle_playback(8 * SEC), SinkCommand::Play);
    assert!(player.is_playing());
    assert_eq!(player.get_current_time(10 * SEC), 7);
}

#[test]
fn the_repeat_toggle_cycles() {
    let mut player = AudioPlayer::setup_audio();
    player.repeats();
    assert_eq!(player.repeat_mode(), RepeatMode::One);
    player.repeats();
    assert_eq!(player.repeat_mode(), RepeatMode::All);
    player.repeats();
    assert_eq!(player.repeat_mode(), RepeatMode::Off);
}

#[test]
fn seek_rebuilds_the_current_track() {
    let mut player = player_with(3);
    player.next();
    assert_eq!(player.seek_to(42), SinkCommand::Seek { index: 1, position: 42, resume: true, volume: 1_000 });
    player.toggle_playback(SEC);
    assert_eq!(player.seek_to(0), SinkCommand::Seek { index: 1, position: 0, resume: false, volume: 1_000 });
    assert_eq!(
        player.seek_to(u64::MAX),
        SinkCommand::Seek { index: 1, position: u64::MAX, resume: false, volume: 1_000 }
    );
    assert_eq!(player.current_index(), 1);
    assert!(!player.is_playing());
}

#[test]
fn an_empty_playlist_makes_every_transport_operation_a_no_op() {
    let mut player = AudioPlayer::setup_audio();
    player.set_volume(400);
    assert_eq!(player.toggle_playback(SEC), SinkCommand::Nothing);
    assert_eq!(player.next(), SinkCommand::Nothing);
    assert_eq!(player.previous(), SinkCommand::Nothing);
    assert_eq!(player.seek_to(30), SinkCommand::Nothing);
    assert_eq!(player.play_current(), SinkCommand::Nothing);
    for mode in [RepeatMode::One, RepeatMode::All, RepeatMode::Off] {
        player.repeats();
        assert_eq!(player.repeat_mode(), mode);
        assert_eq!(player.next(), SinkCommand::Nothing);
        assert_eq!(player.previous(), SinkCommand::Nothing);
    }
    assert_eq!(player.playlist_len(), 0);
    assert_eq!(player.current_index(), 0);
    assert!(!player.is_playing());
    assert!(!player.is_muted());
    assert_eq!(player.get_volume(), 400);
    assert_eq!(player.get_current_time(50 * SEC), 0);
    let probe = ProbedTrack::Track { n_frames: Some(96_000), sample_rate: Some(48_000) };
    assert_eq!(player.get_total_duration(probe), 0);
}

#[test]
fn a_load_reported_on_an_empty_playlist_changes_nothing() {
    let mut player = AudioPlayer::setup_audio();
    assert_eq!(player.complete_load(Ok(()), 5 * SEC), Ok(()));
    assert!(!player.is_playing());
    assert_eq!(player.get_current_time(9 * SEC), 0);
    assert_eq!(player.complete_load(Err(PlaybackError::Device), SEC), Err(PlaybackError::Device));
    assert!(!player.is_playing());
    assert_eq!(player.toggle_playback(10 * SEC), SinkCommand::Nothing);
    assert!(!player.is_playing());
    assert_eq!(player.playlist(track("a.mp3")), SinkCommand::Load { index: 0, volume: 1_000 });
}

#[test]
fn a_rebuilt_sink_gets_the_effective_volume() {
    let mut player = player_with(3);
    player.set_volume(350);
    assert_eq!(player.effective_volume(), 350);
    assert_eq!(player.next(), SinkCommand::Load { index: 1, volume: 350 });
    assert_eq!(
        player.seek_to(12),
        SinkCommand::Seek { index: 1, position: 12, resume: true, volume: 350 }
    );
    assert_eq!(player.play_current(), SinkCommand::Load { index: 1, volume: 350 });
}

#[test]
fn a_muted_output_stays_silent_across_a_track_change() {
    let mut player = player_with(3);
    player.set_volume(800);
    player.toggle_mute();
    assert_eq!(player.effective_volume(), 0);
    assert_eq!(player.next(), SinkCommand::Load { index: 1, volume: 0 });
    assert_eq!(player.previous(), SinkCommand::Load { index: 0, volume: 0 });
    assert_eq!(
        player.seek_to(3),
        SinkCommand::Seek { index: 0, position: 3, resume: true, volume: 0 }
    );
    player.toggle_mute();
    assert_eq!(player.next(), SinkCommand::Load { index: 1, volume: 800 });
}

#[test]
fn the_first_track_of_a_muted_player_is_loaded_silent() {
    let mut player = AudioPlayer::setup_audio();
    player.toggle_mute();
    assert_eq!(player.playlist(track("a.mp3")), SinkCommand::Load { index: 0, volume: 0 });
}

#[test]
fn volume_is_clamped_on_every_write() {
    let mut player = AudioPlayer::setup_audio();
    assert_eq!(player.set_volume(250), SinkCommand::SetVolume { level: 250 });
    assert_eq!(player.get_volume(), 250);
    assert_eq!(player.set_volume(-1), SinkCommand::SetVolume { level: 0 });
    assert_eq!(player.get_volume(), 0);
    assert_eq!(player.set_volume(1_001), SinkCommand::SetVolume { level: 1_000 });
    assert_eq!(player.get_volume(), 1_000);
    assert_eq!(player.set_volume(i32::MIN), SinkCommand::SetVolume { level: 0 });
    assert_eq!(player.get_volume(), 0);
    assert_eq!(player.set_volume(i32::MAX), SinkCommand::SetVolume { level: 1_000 });
    assert_eq!(player.get_volume(), 1_000);
    assert_eq!(player.set_volume(0), SinkCommand::SetVolume { level: 0 });
    assert_eq!(player.set_volume(1_000), SinkCommand::SetVolume { level: 1_000 });
}

#[test]
fn setting_the_clamped_volume_again_changes_nothing() {
    for level in [-700, 0, 1, 333, 999, 1_000, 5_000] {
        let mut player = AudioPlayer::setup_audio();
        player.set_volume(level);
        let stored = player.get_volume();
        assert_eq!(stored, level.clamp(0, 1_000));
        player.set_volume(stored);
        assert_eq!(player.get_volume(), stored);
    }
}

#[test]
fn mute_silences_and_restores() {
    let mut player = AudioPlayer::setup_audio();
    player.set_volume(640);
    assert_eq!(player.toggle_mute(), SinkCommand::SetVolume { level: 0 });
    assert!(player.is_muted());
    assert_eq!(player.get_volume(), 640);
    assert_eq!(player.toggle_mute(), SinkCommand::SetVolume { level: 640 });
    assert!(!player.is_muted());
    assert_eq!(player.get_volume(), 640);
}

#[test]
fn a_volume_set_while_muted_waits_for_the_unmute() {
    let mut player = AudioPlayer::setup_audio();
    player.toggle_mute();
    assert_eq!(player.set_volume(300), SinkCommand::Nothing);
    assert_eq!(player.set_volume(2_000), SinkCommand::Nothing);
    assert_eq!(player.get_volume(), 1_000);
    assert_eq!(player.set_volume(300), SinkCommand::Nothing);
    assert_eq!(player.toggle_mute(), SinkCommand::SetVolume { level: 300 });
}
