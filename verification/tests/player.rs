use homeslashmusic::controls::{ReadBack, SourceEvent};
use homeslashmusic::decoder::clamp_seek;
use homeslashmusic::player::Player;
use homeslashmusic::player_model::Step;
use homeslashmusic::time::Duration;
use homeslashmusic::types::{
    AudioSpec, Event, InsertPosition, LoopMode, PlaybackState, SeekPosition, Track, TrackMetadata,
};
use homeslashmusic::volume::Volume;
use std::path::PathBuf;
use std::sync::Arc;

/// A source that only knows which file it plays.
type Source = String;

fn track(name: &str) -> Arc<Track> {
    let spec = AudioSpec {
        track_id: 0,
        bit_depth: Some(16),
        channel_bitmask: 3,
        channel_count: 2,
        sample_rate: 44100,
        total_duration: Some(Duration::from_secs(3)),
    };
    Arc::new(Track::new(PathBuf::from(name), spec, TrackMetadata::new()))
}

fn tracks(names: &[&str]) -> Vec<Arc<Track>> {
    names.iter().map(|name| track(name)).collect()
}

fn name(track: &Arc<Track>) -> String {
    track.file_path().to_string_lossy().into_owned()
}

fn current(player: &Player<Source>) -> Option<String> {
    player.current_track().map(|track| name(&track))
}

/// Does what a step asks for, as the server would with sources that always
/// open, while the audio side takes each armed source at once.
fn carry_out(player: &mut Player<Source>, step: Step, taken: &mut Vec<Source>) {
    match step {
        Step::Done | Step::AwaitSeek => {}
        Step::Load { track, then, start } => {
            let next = player.install(name(&track), then, start);
            carry_out(player, next, taken);
        }
        Step::Preload { track } => {
            let mut source = name(&track);
            loop {
                match player.preload(source) {
                    None => break,
                    Some(back) => {
                        source = back;
                        taken.extend(player.load_next());
                    }
                }
            }
        }
    }
}

fn loaded(names: &[&str]) -> Player<Source> {
    let mut player = Player::new();
    let step = player.insert_tracks(InsertPosition::End, &tracks(names));
    assert!(matches!(step, Step::Done));
    player.take_events();
    player
}

fn playing(names: &[&str]) -> (Player<Source>, Vec<Source>) {
    let mut player = loaded(names);
    let mut taken = Vec::new();
    let step = player.play();
    carry_out(&mut player, step, &mut taken);
    assert_eq!(player.playback_state(), PlaybackState::Playing);
    player.take_events();
    (player, taken)
}

#[test]
fn new_player_is_stopped_and_empty() {
    let mut player: Player<Source> = Player::new();
    assert_eq!(player.playback_state(), PlaybackState::Stopped);
    assert_eq!(player.loop_mode(), LoopMode::Off);
    assert!(!player.shuffle());
    assert_eq!(player.volume(), Volume::full());
    assert_eq!(player.position(), Duration::zero());
    assert_eq!(player.current_track_index(), 0);
    assert!(player.current_track().is_none());
    assert!(player.take_events().is_empty());
    assert!(player.load_next().is_none());
}

#[test]
fn play_on_an_empty_list_stays_stopped() {
    let mut player: Player<Source> = Player::new();
    assert!(matches!(player.play(), Step::Done));
    assert_eq!(player.playback_state(), PlaybackState::Stopped);
    assert!(player.take_events().is_empty());
}

#[test]
fn play_loads_the_current_track_and_starts_when_it_is_in_place() {
    let mut player = loaded(&["a", "b"]);
    let step = player.play();
    assert_eq!(player.playback_state(), PlaybackState::Stopped);
    let Step::Load { track, then, start } = step else { panic!("expected a load") };
    assert_eq!(name(&track), "a");
    assert_eq!(then.as_ref().map(name), Some("b".to_string()));
    assert!(start);
    let step = player.install("a".to_string(), then, start);
    assert_eq!(player.playback_state(), PlaybackState::Playing);
    assert_eq!(player.take_events(), vec![Event::PlaybackStateChanged(PlaybackState::Playing)]);
    let Step::Preload { track } = step else { panic!("expected a preload") };
    assert_eq!(name(&track), "b");
    assert_eq!(player.preload("b".to_string()), Some("b".to_string()));
    assert_eq!(player.load_next(), Some("a".to_string()));
    assert_eq!(player.preload("b".to_string()), None);
    assert_eq!(player.load_next(), Some("b".to_string()));
    assert_eq!(player.load_next(), None);
}

#[test]
fn pause_does_not_override_stop() {
    let mut player = loaded(&["a"]);
    player.pause();
    assert_eq!(player.playback_state(), PlaybackState::Stopped);
    assert!(player.take_events().is_empty());
    let (mut player, _) = playing(&["a"]);
    player.pause();
    assert_eq!(player.playback_state(), PlaybackState::Paused);
    assert_eq!(player.take_events(), vec![Event::PlaybackStateChanged(PlaybackState::Paused)]);
    assert!(matches!(player.play(), Step::Done));
    assert_eq!(player.playback_state(), PlaybackState::Playing);
    assert_eq!(player.take_events(), vec![Event::PlaybackStateChanged(PlaybackState::Playing)]);
}

#[test]
fn toggle_twice_returns_to_the_state() {
    let (mut player, _) = playing(&["a"]);
    assert!(matches!(player.toggle_playback(), Step::Done));
    assert_eq!(player.playback_state(), PlaybackState::Paused);
    assert!(matches!(player.toggle_playback(), Step::Done));
    assert_eq!(player.playback_state(), PlaybackState::Playing);
    player.pause();
    assert!(matches!(player.toggle_playback(), Step::Done));
    assert_eq!(player.playback_state(), PlaybackState::Playing);
    assert!(matches!(player.toggle_playback(), Step::Done));
    assert_eq!(player.playback_state(), PlaybackState::Paused);
}

#[test]
fn toggle_twice_from_stopped_is_playing_then_paused() {
    let mut player = loaded(&["a"]);
    let mut taken = Vec::new();
    let step = player.toggle_playback();
    carry_out(&mut player, step, &mut taken);
    assert_eq!(player.playback_state(), PlaybackState::Playing);
    assert!(matches!(player.toggle_playback(), Step::Done));
    assert_eq!(player.playback_state(), PlaybackState::Paused);
}

#[test]
fn stop_empties_the_slot_and_resets_the_position() {
    let (mut player, _) = playing(&["a", "b"]);
    assert_eq!(player.read_back(Duration::from_secs(1)), ReadBack::Apply {
        paused: false,
        volume: Volume::full(),
        seek: None,
    });
    player.report_position(Duration::from_secs(1));
    assert_eq!(player.position(), Duration::from_secs(1));
    player.stop();
    assert_eq!(player.playback_state(), PlaybackState::Stopped);
    assert_eq!(player.position(), Duration::zero());
    assert_eq!(player.load_next(), None);
    assert_eq!(player.take_events(), vec![Event::PlaybackStateChanged(PlaybackState::Stopped)]);
    // The source that was playing is told to end at its next read-back.
    assert_eq!(player.read_back(Duration::from_secs(1)), ReadBack::Skip);
    player.report_position(Duration::from_secs(2));
    assert_eq!(player.position(), Duration::zero());
    player.stop();
    assert!(player.take_events().is_empty());
}

#[test]
fn next_track_past_the_last_without_loop_stops() {
    let (mut player, _) = playing(&["a", "b"]);
    let mut taken = Vec::new();
    let step = player.go_to_next_track();
    carry_out(&mut player, step, &mut taken);
    assert_eq!(player.current_track_index(), 1);
    assert_eq!(player.playback_state(), PlaybackState::Playing);
    let step = player.go_to_next_track();
    assert!(matches!(step, Step::Done));
    assert_eq!(player.current_track_index(), 0);
    assert_eq!(player.playback_state(), PlaybackState::Stopped);
    assert_eq!(player.load_next(), None);
}

#[test]
fn next_track_past_the_last_with_playlist_loop_wraps() {
    let (mut player, _) = playing(&["a", "b"]);
    player.set_loop_mode(LoopMode::Playlist);
    let mut taken = Vec::new();
    let step = player.go_to_next_track();
    carry_out(&mut player, step, &mut taken);
    assert_eq!(player.current_track_index(), 1);
    let step = player.go_to_next_track();
    let Step::Load { track, then, start } = step else { panic!("expected a load") };
    assert_eq!(name(&track), "a");
    assert_eq!(then.as_ref().map(name), Some("b".to_string()));
    assert!(!start);
    assert_eq!(player.current_track_index(), 0);
    assert_eq!(player.playback_state(), PlaybackState::Playing);
}

#[test]
fn next_track_while_stopped_only_moves_the_index() {
    let mut player = loaded(&["a", "b", "c"]);
    assert!(matches!(player.go_to_next_track(), Step::Done));
    assert_eq!(player.current_track_index(), 1);
    assert_eq!(player.playback_state(), PlaybackState::Stopped);
    assert_eq!(player.take_events(), vec![Event::CurrentTrackChanged]);
    assert_eq!(player.load_next(), None);
}

#[test]
fn soft_previous_restarts_a_track_that_is_under_way() {
    let (mut player, mut taken) = playing(&["a", "b"]);
    let step = player.go_to_next_track();
    carry_out(&mut player, step, &mut taken);
    assert_eq!(player.current_track_index(), 1);
    player.take_events();
    player.report_position(Duration::from_millis(5001));
    let step = player.go_to_previous_track(true);
    assert!(matches!(step, Step::AwaitSeek));
    assert_eq!(player.current_track_index(), 1);
    assert!(player.take_events().is_empty());
    assert_eq!(player.read_back(Duration::from_millis(5001)), ReadBack::Apply {
        paused: false,
        volume: Volume::full(),
        seek: Some(Duration::zero()),
    });
}

#[test]
fn previous_goes_back_when_the_track_has_just_begun() {
    let (mut player, mut taken) = playing(&["a", "b"]);
    let step = player.go_to_next_track();
    carry_out(&mut player, step, &mut taken);
    player.report_position(Duration::from_secs(5));
    let step = player.go_to_previous_track(true);
    let Step::Load { track, start, .. } = step else { panic!("expected a load") };
    assert_eq!(name(&track), "a");
    assert!(!start);
    assert_eq!(player.current_track_index(), 0);
}

#[test]
fn previous_before_the_first_stops_or_wraps() {
    let (mut player, _) = playing(&["a", "b", "c"]);
    assert!(matches!(player.go_to_previous_track(false), Step::Done));
    assert_eq!(player.playback_state(), PlaybackState::Stopped);
    assert_eq!(player.current_track_index(), 0);
    let (mut player, _) = playing(&["a", "b", "c"]);
    player.set_loop_mode(LoopMode::Track);
    let step = player.go_to_previous_track(false);
    let Step::Load { track, then, .. } = step else { panic!("expected a load") };
    assert_eq!(name(&track), "c");
    assert!(then.is_none());
    assert_eq!(player.current_track_index(), 2);
    assert_eq!(player.playback_state(), PlaybackState::Playing);
}

#[test]
fn clear_tracks_stops_and_empties() {
    let (mut player, mut taken) = playing(&["a", "b"]);
    let step = player.go_to_next_track();
    carry_out(&mut player, step, &mut taken);
    player.take_events();
    player.clear_tracks();
    assert_eq!(player.get_track_list().track_list.len(), 0);
    assert_eq!(player.get_track_list().shuffle_indicies.len(), 0);
    assert_eq!(player.current_track_index(), 0);
    assert_eq!(player.playback_state(), PlaybackState::Stopped);
    assert_eq!(player.take_events(), vec![
        Event::PlaybackStateChanged(PlaybackState::Stopped),
        Event::CurrentTrackChanged,
    ]);
}

#[test]
fn set_volume_clamps_and_announces_changes() {
    let mut player: Player<Source> = Player::new();
    for value in [0.25f32, 0.0, 1.0, 1.5, -0.5, 7.0e20, f32::INFINITY, f32::NEG_INFINITY, -0.0] {
        player.set_volume(Volume::from_bits(value.to_bits()));
        let stored = f32::from_bits(player.volume().to_bits());
        assert_eq!(stored, value.clamp(0.0, 1.0));
        assert!((0.0..=1.0).contains(&stored));
    }
    player.set_volume(Volume::from_bits(f32::NAN.to_bits()));
    assert_eq!(f32::from_bits(player.volume().to_bits()), 0.0);
    player.take_events();
    player.set_volume(Volume::from_bits(0.5f32.to_bits()));
    assert_eq!(player.take_events(), vec![Event::VolumeChanged(Volume::from_bits(0.5f32.to_bits()))]);
    player.set_volume(Volume::from_bits(0.5f32.to_bits()));
    assert!(player.take_events().is_empty());
}

#[test]
fn set_loop_mode_is_read_back_and_announced_once() {
    let mut player: Player<Source> = Player::new();
    for mode in [LoopMode::Track, LoopMode::Playlist, LoopMode::Off] {
        player.set_loop_mode(mode);
        assert_eq!(player.loop_mode(), mode);
        assert_eq!(player.take_events(), vec![Event::LoopModeChanged(mode)]);
        player.set_loop_mode(mode);
        assert!(player.take_events().is_empty());
    }
}

#[test]
fn shuffle_preserves_current_in_the_player() {
    let mut player = loaded(&["x", "y", "z"]);
    assert!(matches!(player.go_to_next_track(), Step::Done));
    player.take_events();
    assert_eq!(current(&player), Some("y".to_string()));
    assert!(matches!(player.set_shuffle(true), Step::Done));
    assert!(player.shuffle());
    assert_eq!(player.get_track_list().shuffle_indicies[0], 1);
    assert_eq!(player.current_track_index(), 0);
    assert_eq!(current(&player), Some("y".to_string()));
    assert_eq!(player.take_events(), vec![Event::ShuffleChanged(true)]);
    assert!(matches!(player.set_shuffle(true), Step::Done));
    assert!(player.take_events().is_empty());
    assert!(matches!(player.set_shuffle(false), Step::Done));
    assert_eq!(player.current_track_index(), 1);
    assert_eq!(player.get_track_list().shuffle_indicies, vec![0, 1, 2]);
    assert_eq!(current(&player), Some("y".to_string()));
}

#[test]
fn shuffle_while_playing_reloads_what_comes_next() {
    let (mut player, _) = playing(&["x", "y", "z"]);
    let step = player.set_shuffle(true);
    let Step::Load { track, then, start } = step else { panic!("expected a load") };
    let next_index = player.get_track_list().shuffle_indicies[1];
    assert_eq!(name(&track), ["x", "y", "z"][next_index]);
    assert!(then.is_none());
    assert!(!start);
    assert_eq!(player.playback_state(), PlaybackState::Playing);
}

#[test]
fn insert_before_current_while_playing() {
    let (mut player, mut taken) = playing(&["a", "b", "c"]);
    for _ in 0..2 {
        let step = player.go_to_next_track();
        carry_out(&mut player, step, &mut taken);
    }
    assert_eq!(player.current_track_index(), 2);
    player.take_events();
    let step = player.insert_tracks(InsertPosition::Start, &tracks(&["d"]));
    assert!(matches!(step, Step::Done));
    let names: Vec<String> = player.get_track_list().track_list.iter().map(name).collect();
    assert_eq!(names, vec!["d", "a", "b", "c"]);
    assert_eq!(player.current_track_index(), 3);
    assert_eq!(current(&player), Some("c".to_string()));
    assert_eq!(player.playback_state(), PlaybackState::Playing);
    assert!(player.take_events().is_empty());
    // Nothing is told to end: what plays goes on playing.
    assert!(matches!(player.read_back(Duration::zero()), ReadBack::Apply { paused: false, .. }));
}

#[test]
fn replace_while_playing() {
    let (mut player, _) = playing(&["x"]);
    let step = player.insert_tracks(InsertPosition::Replace, &tracks(&["y"]));
    let Step::Load { track, then, start } = step else { panic!("expected a load") };
    assert_eq!(name(&track), "y");
    assert!(then.is_none());
    assert!(!start);
    let names: Vec<String> = player.get_track_list().track_list.iter().map(name).collect();
    assert_eq!(names, vec!["y"]);
    assert_eq!(player.current_track_index(), 0);
    assert_eq!(player.playback_state(), PlaybackState::Playing);
    assert_eq!(player.take_events(), vec![Event::CurrentTrackChanged]);
    // The source of x is told to end, and the source of y is armed.
    assert_eq!(player.read_back(Duration::from_secs(1)), ReadBack::Skip);
    assert!(matches!(player.install("y".to_string(), then, start), Step::Done));
    assert_eq!(player.load_next(), Some("y".to_string()));
}

#[test]
fn replace_while_stopped_does_not_start() {
    let mut player = loaded(&["x"]);
    let step = player.insert_tracks(InsertPosition::Replace, &tracks(&["y"]));
    assert!(matches!(step, Step::Done));
    assert_eq!(player.playback_state(), PlaybackState::Stopped);
    assert_eq!(current(&player), Some("y".to_string()));
    assert_eq!(player.load_next(), None);
}

#[test]
fn gapless_next() {
    let mut player = loaded(&["a", "b"]);
    let step = player.play();
    let Step::Load { track, then, start } = step else { panic!("expected a load") };
    let step = player.install(name(&track), then, start);
    let Step::Preload { track } = step else { panic!("expected a preload") };
    // The output takes a, which leaves the slot free for b.
    assert_eq!(player.load_next(), Some("a".to_string()));
    assert_eq!(player.preload(name(&track)), None);
    // a comes to its end: it does not repeat, and the output has b at once.
    assert!(!player.end_of_stream());
    assert_eq!(player.load_next(), Some("b".to_string()));
    let finished = SourceEvent::Finished;
    assert!(finished.indicates_end());
    assert!(matches!(player.handle_source_event(finished), Step::Done));
    assert_eq!(player.current_track_index(), 1);
    assert_eq!(player.playback_state(), PlaybackState::Playing);
    assert_eq!(player.read_back(Duration::zero()), ReadBack::Apply {
        paused: false,
        volume: Volume::full(),
        seek: None,
    });
    // b comes to its end: nothing is armed, the list is over, the player stops.
    assert!(!player.end_of_stream());
    assert_eq!(player.load_next(), None);
    assert!(matches!(player.handle_source_event(SourceEvent::Finished), Step::Done));
    assert_eq!(player.playback_state(), PlaybackState::Stopped);
    assert_eq!(player.current_track_index(), 0);
}

#[test]
fn seek_clamp() {
    let (mut player, _) = playing(&["a"]);
    let total = Some(Duration::from_secs(10));
    assert!(matches!(player.seek(SeekPosition::To(Duration::from_secs(30))), Step::AwaitSeek));
    let ReadBack::Apply { seek: Some(target), .. } = player.read_back(Duration::from_secs(2)) else {
        panic!("expected a seek")
    };
    assert_eq!(target, Duration::from_secs(30));
    let reached = clamp_seek(target, total);
    assert_eq!(reached, Duration::from_secs(10));
    player.report_position(reached);
    assert_eq!(player.position(), Duration::from_secs(10));
    assert!(matches!(player.handle_source_event(SourceEvent::Seeked(target)), Step::Done));
    assert_eq!(player.take_events(), vec![Event::Seeked(Duration::from_secs(30))]);
    // The seek was taken: the next read-back has none.
    assert!(matches!(player.read_back(reached), ReadBack::Apply { seek: None, .. }));
}

#[test]
fn seek_without_a_source_does_nothing() {
    let mut player = loaded(&["a"]);
    assert!(matches!(player.seek(SeekPosition::To(Duration::from_secs(1))), Step::Done));
    assert!(matches!(player.read_back(Duration::zero()), ReadBack::Apply { seek: None, .. }));
}

#[test]
fn relative_seeks_start_from_the_current_position() {
    let (mut player, _) = playing(&["a"]);
    player.seek(SeekPosition::Forward(Duration::from_secs(4)));
    assert!(matches!(
        player.read_back(Duration::from_secs(3)),
        ReadBack::Apply { seek: Some(target), .. } if target == Duration::from_secs(7)
    ));
    player.seek(SeekPosition::Backward(Duration::from_secs(4)));
    assert!(matches!(
        player.read_back(Duration::from_secs(3)),
        ReadBack::Apply { seek: Some(target), .. } if target == Duration::zero()
    ));
    assert_eq!(
        SeekPosition::Backward(Duration::from_secs(1)).target(Duration::from_millis(2500)),
        Duration::from_millis(1500)
    );
}

#[test]
fn paused_source_is_told_to_be_silent() {
    let (mut player, _) = playing(&["a"]);
    player.pause();
    player.set_volume(Volume::from_bits(0.5f32.to_bits()));
    assert_eq!(player.read_back(Duration::zero()), ReadBack::Apply {
        paused: true,
        volume: Volume::from_bits(0.5f32.to_bits()),
        seek: None,
    });
}

#[test]
fn track_loop_rewinds_at_the_end_of_the_stream() {
    let (mut player, taken) = playing(&["a"]);
    assert!(taken.is_empty());
    assert_eq!(player.load_next(), Some("a".to_string()));
    player.set_loop_mode(LoopMode::Track);
    assert!(player.end_of_stream());
    assert!(matches!(player.handle_source_event(SourceEvent::Looped), Step::Done));
    assert_eq!(player.playback_state(), PlaybackState::Playing);
    // Rewinding failed: the source has ended, and the player moves on.
    player.source_ended();
    let failed = SourceEvent::LoopError("no seeking in this stream".to_string());
    assert!(failed.indicates_end());
    let step = player.handle_source_event(failed);
    let Step::Load { track, .. } = step else { panic!("expected a load") };
    assert_eq!(name(&track), "a");
    assert_eq!(player.current_track_index(), 0);
}

#[test]
fn skipped_source_does_not_advance() {
    let (mut player, _) = playing(&["a", "b"]);
    let skipped = SourceEvent::Skipped;
    assert!(!skipped.indicates_end());
    assert!(matches!(player.handle_source_event(skipped), Step::Done));
    assert_eq!(player.current_track_index(), 0);
}

#[test]
fn a_source_that_arrives_after_stop_is_dropped() {
    let (mut player, _) = playing(&["a", "b"]);
    let step = player.go_to_previous_track(false);
    assert!(matches!(step, Step::Done));
    let (mut player, _) = playing(&["a", "b"]);
    player.set_loop_mode(LoopMode::Playlist);
    let Step::Load { then, start, .. } = player.go_to_previous_track(false) else {
        panic!("expected a load")
    };
    player.stop();
    assert!(matches!(player.install("b".to_string(), then, start), Step::Done));
    assert_eq!(player.load_next(), None);
    assert_eq!(player.preload("a".to_string()), None);
    assert_eq!(player.load_next(), None);
    assert_eq!(player.playback_state(), PlaybackState::Stopped);
}
