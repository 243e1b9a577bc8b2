use homeslashmusic::atomic_control_status::{AtomicLoopMode, AtomicPlaybackState};
use homeslashmusic::controls::{
    bump, preload_retry_interval, source_update_interval, Controls, ReadBack,
};
use homeslashmusic::dbus::{as_dbus_time, from_dbus_time, seek_by, seek_to};
use homeslashmusic::decoder::{
    active_channel, align_to_frame, clamp_seek, packet_action, Decoded, PacketAction,
};
use homeslashmusic::errors::{AudioServerError, LoadTrackError, PlayerError, SeekError};
use homeslashmusic::event_bus::EventBus;
use homeslashmusic::file_url::{decode_file_url, encode_file_url};
use homeslashmusic::output::{silence_layout, span_len, THRESHOLD};
use homeslashmusic::player::Player;
use homeslashmusic::player_model::Step;
use homeslashmusic::requests::{
    finish_load_tracks, frame, handle_request, render_errors, QualifiedRequest, Reply, Response,
};
use homeslashmusic::socket::socket_path;
use homeslashmusic::source_queue::SourceQueueState;
use homeslashmusic::tags::{add_tag_to_metadata, add_tag_with_number, insert_name, StandardTagKey, Tag, Value};
use homeslashmusic::time::Duration;
use homeslashmusic::types::{
    AudioSpec, Event, InsertPosition, LoopMode, PlaybackState, SeekPosition, Track, TrackMetadata,
    Version,
};
use homeslashmusic::volume::Volume;
use std::path::PathBuf;
use std::sync::atomic::Ordering;
use std::sync::Arc;

fn track(name: &str) -> Arc<Track> {
    let spec = AudioSpec {
        track_id: 0,
        bit_depth: None,
        channel_bitmask: 3,
        channel_count: 2,
        sample_rate: 44100,
        total_duration: None,
    };
    Arc::new(Track::new(PathBuf::from(name), spec, TrackMetadata::new()))
}

fn text_tag(key: StandardTagKey, text: &str) -> Tag {
    Tag { std_key: Some(key), value: Value::String(text.to_string()) }
}

#[test]
fn duration_counts_nanoseconds() {
    assert_eq!(Duration::zero().as_nanos(), 0);
    assert!(Duration::zero().is_zero());
    assert_eq!(Duration::from_secs(5).as_nanos(), 5_000_000_000);
    assert_eq!(Duration::from_millis(5).as_nanos(), 5_000_000);
    assert_eq!(Duration::from_micros(5).as_nanos(), 5_000);
    assert_eq!(Duration::from_nanos(17).as_nanos(), 17);
    assert_eq!(Duration::from_parts(2, 500_000_000).as_millis(), 2500);
    assert_eq!(Duration::from_parts(2, 500_000_000).as_secs(), 2);
    assert_eq!(Duration::from_parts(2, 500_000_000).subsec_nanos(), 500_000_000);
    assert_eq!(Duration::from_parts(1, 2_000_000_001).as_nanos(), 3_000_000_001);
    assert_eq!(Duration::from_micros(1_234_567).as_micros(), 1_234_567);
    assert_eq!(source_update_interval(), Duration::from_millis(5));
    assert_eq!(preload_retry_interval(), Duration::from_millis(15));
}

#[test]
fn duration_is_the_same_span_as_the_one_of_std() {
    let ours = Duration::from_parts(u64::MAX, 999_999_999);
    let theirs = std::time::Duration::new(u64::MAX, 999_999_999);
    assert_eq!(ours.as_nanos(), theirs.as_nanos());
    assert_eq!(ours.as_secs(), theirs.as_secs());
    assert_eq!(ours.subsec_nanos(), theirs.subsec_nanos());
    assert_eq!(Duration::from_nanos(u128::MAX), ours);
    assert_eq!(ours.saturating_add(Duration::from_nanos(1)), ours);
}

#[test]
fn duration_arithmetic_saturates() {
    let two = Duration::from_secs(2);
    let five = Duration::from_secs(5);
    assert_eq!(two.saturating_add(five), Duration::from_secs(7));
    assert_eq!(five.saturating_sub(two), Duration::from_secs(3));
    assert_eq!(two.saturating_sub(five), Duration::zero());
    assert_eq!(two.min(five), two);
    assert_eq!(five.min(two), two);
    assert!(five.is_longer_than(&two));
    assert!(!two.is_longer_than(&five));
    assert!(!two.is_longer_than(&two));
}

#[test]
fn volume_is_clamped_as_the_number_is() {
    let samples = [
        0.0f32, 1.0e-40, 0.1, 0.5, 0.999_999_9, 1.0, 1.000_000_1, 2.0, 1.0e30, f32::MAX,
        f32::INFINITY, -1.0e-40, -0.1, -1.0, -1.0e30, f32::MIN, f32::NEG_INFINITY, -0.0,
    ];
    for value in samples {
        let volume = Volume::from_bits(value.to_bits());
        assert_eq!(f32::from_bits(volume.to_bits()), value.clamp(0.0, 1.0));
        assert!(volume.to_bits() <= 1.0f32.to_bits());
    }
    assert_eq!(Volume::from_bits(f32::NAN.to_bits()), Volume::silent());
    assert_eq!(Volume::from_bits((-f32::NAN).to_bits()), Volume::silent());
    assert_eq!(Volume::full().to_bits(), 1.0f32.to_bits());
    assert_eq!(Volume::silent().to_bits(), 0.0f32.to_bits());
}

#[test]
fn source_queue_hands_a_source_out_once() {
    let mut queue: SourceQueueState<u32> = SourceQueueState::Empty;
    assert!(!queue.is_queued());
    assert!(!queue.is_playing());
    assert_eq!(queue.consume(), None);
    assert!(matches!(queue, SourceQueueState::Empty));
    queue = SourceQueueState::Queued(7);
    assert!(queue.is_queued());
    assert!(queue.is_playing());
    assert_eq!(queue.consume(), Some(7));
    assert!(matches!(queue, SourceQueueState::Playing));
    assert!(!queue.is_queued());
    assert!(queue.is_playing());
    assert_eq!(queue.consume(), None);
    assert!(matches!(queue, SourceQueueState::Empty));
}

#[test]
fn source_queue_invalidate_drops_an_armed_source() {
    let mut queue = SourceQueueState::Queued(7u32);
    queue.invalidate();
    assert!(matches!(queue, SourceQueueState::Playing));
    queue.invalidate();
    assert!(matches!(queue, SourceQueueState::Playing));
    let mut queue: SourceQueueState<u32> = SourceQueueState::Empty;
    queue.invalidate();
    assert!(matches!(queue, SourceQueueState::Empty));
}

#[test]
fn read_back_uses_up_one_skip_at_a_time() {
    let mut controls: Controls<u32> = Controls::new();
    controls.playback_state = PlaybackState::Playing;
    controls.source_queue = SourceQueueState::Playing;
    controls.to_skip = 2;
    controls.seek_position = Some(SeekPosition::To(Duration::from_secs(1)));
    assert_eq!(controls.read_back(Duration::zero()), ReadBack::Skip);
    assert_eq!(controls.to_skip, 1);
    assert!(controls.seek_position.is_some());
    assert_eq!(controls.read_back(Duration::zero()), ReadBack::Skip);
    assert_eq!(controls.to_skip, 0);
    assert_eq!(controls.read_back(Duration::zero()), ReadBack::Apply {
        paused: false,
        volume: Volume::full(),
        seek: Some(Duration::from_secs(1)),
    });
    assert!(controls.seek_position.is_none());
    assert_eq!(bump(0), 1);
    assert_eq!(bump(usize::MAX), usize::MAX);
}

#[test]
fn a_source_that_ends_frees_the_slot_only_if_it_was_the_one_playing() {
    let mut controls: Controls<u32> = Controls::new();
    controls.playback_state = PlaybackState::Playing;
    controls.source_queue = SourceQueueState::Playing;
    controls.source_ended();
    assert!(matches!(controls.source_queue, SourceQueueState::Empty));
    controls.source_queue = SourceQueueState::Queued(3);
    controls.source_ended();
    assert!(matches!(controls.source_queue, SourceQueueState::Queued(3)));
    assert!(!controls.end_of_stream());
    assert!(matches!(controls.source_queue, SourceQueueState::Queued(3)));
    assert_eq!(controls.load_next(), Some(3));
    controls.loop_mode = LoopMode::Track;
    assert!(controls.end_of_stream());
    assert!(matches!(controls.source_queue, SourceQueueState::Playing));
    controls.loop_mode = LoopMode::Playlist;
    assert!(!controls.end_of_stream());
    assert!(matches!(controls.source_queue, SourceQueueState::Empty));
}

#[test]
fn decoder_clamps_a_seek_to_the_length_of_the_track() {
    let ten = Duration::from_secs(10);
    assert_eq!(clamp_seek(Duration::from_secs(30), Some(ten)), ten);
    assert_eq!(clamp_seek(Duration::from_secs(3), Some(ten)), Duration::from_secs(3));
    assert_eq!(clamp_seek(ten, Some(ten)), ten);
    assert_eq!(clamp_seek(Duration::from_secs(30), None), Duration::from_secs(30));
}

#[test]
fn decoder_lines_up_with_the_channels() {
    assert_eq!(active_channel(7, 2), 1);
    assert_eq!(active_channel(8, 2), 0);
    assert_eq!(active_channel(5, 0), 0);
    assert_eq!(align_to_frame(7, 2), 6);
    assert_eq!(align_to_frame(17, 6), 12);
    assert_eq!(align_to_frame(0, 2), 0);
    assert_eq!(align_to_frame(7, 0), 7);
}

#[test]
fn decoder_passes_over_damaged_and_empty_packets() {
    assert_eq!(packet_action(Decoded::Frames(1152)), PacketAction::Deliver);
    assert_eq!(packet_action(Decoded::Frames(0)), PacketAction::Skip);
    assert_eq!(packet_action(Decoded::DecodeError), PacketAction::Skip);
    assert_eq!(packet_action(Decoded::Failed), PacketAction::End);
}

#[test]
fn output_span_is_never_empty() {
    assert_eq!(THRESHOLD, 512);
    assert_eq!(span_len(Some(1152), 0), Some(1152));
    assert_eq!(span_len(Some(0), 99), Some(512));
    assert_eq!(span_len(None, 99), Some(99));
    assert_eq!(span_len(None, 0), Some(512));
    assert_eq!(silence_layout(2, 48000), (2, 48000));
    assert_eq!(silence_layout(0, 48000), (1, 44100));
    assert_eq!(silence_layout(2, 0), (1, 44100));
}

#[test]
fn event_bus_drops_the_subscribers_that_were_not_reached() {
    let mut bus: EventBus<&str> = EventBus::new();
    assert!(bus.subscribers().is_empty());
    for name in ["a", "b", "c", "d"] {
        bus.subscribe(name);
    }
    assert_eq!(bus.subscribers(), &vec!["a", "b", "c", "d"]);
    bus.retain_reached(&vec![true, false, true, false]);
    assert_eq!(bus.subscribers(), &vec!["a", "c"]);
    bus.retain_reached(&vec![false]);
    assert_eq!(bus.subscribers(), &vec!["c"]);
    bus.retain_reached(&vec![true, false, false]);
    assert_eq!(bus.subscribers(), &vec!["c"]);
    bus.retain_reached(&vec![false]);
    assert!(bus.subscribers().is_empty());
}

#[test]
fn tags_fill_the_metadata() {
    let mut metadata = TrackMetadata::new();
    add_tag_to_metadata(&mut metadata, &text_tag(StandardTagKey::TrackTitle, "Song"));
    add_tag_to_metadata(&mut metadata, &text_tag(StandardTagKey::Album, "Record"));
    add_tag_to_metadata(&mut metadata, &text_tag(StandardTagKey::Date, "1999"));
    add_tag_to_metadata(&mut metadata, &text_tag(StandardTagKey::Artist, "One"));
    add_tag_to_metadata(&mut metadata, &text_tag(StandardTagKey::Artist, "Two"));
    add_tag_to_metadata(&mut metadata, &text_tag(StandardTagKey::Artist, "One"));
    add_tag_to_metadata(&mut metadata, &text_tag(StandardTagKey::Genre, "Jazz"));
    add_tag_to_metadata(&mut metadata, &text_tag(StandardTagKey::Genre, "Jazz"));
    add_tag_to_metadata(&mut metadata, &text_tag(StandardTagKey::Comment, "first"));
    add_tag_to_metadata(&mut metadata, &text_tag(StandardTagKey::Comment, "first"));
    add_tag_to_metadata(&mut metadata, &text_tag(StandardTagKey::Other, "ignored"));
    add_tag_to_metadata(&mut metadata, &Tag { std_key: None, value: Value::String("x".into()) });
    add_tag_to_metadata(&mut metadata, &Tag {
        std_key: Some(StandardTagKey::TrackTitle),
        value: Value::UnsignedInt(3),
    });
    assert_eq!(metadata.title.as_deref(), Some("Song"));
    assert_eq!(metadata.album.as_deref(), Some("Record"));
    assert_eq!(metadata.date.as_deref(), Some("1999"));
    assert_eq!(metadata.artists, vec!["One", "Two"]);
    assert_eq!(metadata.genres, vec!["Jazz"]);
    assert_eq!(metadata.comments, vec!["first", "first"]);
    assert_eq!(metadata.track_number, None);
}

#[test]
fn track_number_comes_as_a_number_or_as_text() {
    let mut metadata = TrackMetadata::new();
    let number = Tag { std_key: Some(StandardTagKey::TrackNumber), value: Value::UnsignedInt(7) };
    add_tag_to_metadata(&mut metadata, &number);
    assert_eq!(metadata.track_number, Some(7));
    add_tag_to_metadata(&mut metadata, &text_tag(StandardTagKey::TrackNumber, "12"));
    assert_eq!(metadata.track_number, Some(12));
    add_tag_to_metadata(&mut metadata, &text_tag(StandardTagKey::TrackNumber, "3/10"));
    assert_eq!(metadata.track_number, Some(12));
    add_tag_to_metadata(&mut metadata, &text_tag(StandardTagKey::TrackNumber, ""));
    assert_eq!(metadata.track_number, Some(12));
    let other = Tag { std_key: Some(StandardTagKey::TrackNumber), value: Value::Other };
    add_tag_to_metadata(&mut metadata, &other);
    assert_eq!(metadata.track_number, Some(12));
    add_tag_with_number(&mut metadata, &other, Some(4));
    assert_eq!(metadata.track_number, Some(4));
    add_tag_with_number(&mut metadata, &other, None);
    assert_eq!(metadata.track_number, Some(4));
    let mut names = vec!["a".to_string()];
    insert_name(&mut names, "b".to_string());
    insert_name(&mut names, "a".to_string());
    assert_eq!(names, vec!["a", "b"]);
}

#[test]
fn errors_say_what_went_wrong() {
    assert_eq!(SeekError::ErrorChannelClosed.message(), "Internal Player Error: SeekError channel closed");
    assert_eq!(SeekError::SeekFailed("no".into()).message(), "no");
    assert_eq!(LoadTrackError::CannonicalizeFailed("a".into()).message(), "a");
    assert_eq!(LoadTrackError::OpenFailed("b".into()).message(), "b");
    assert_eq!(LoadTrackError::ReadDirFailed("c".into()).message(), "c");
    assert_eq!(LoadTrackError::ProbeFailed("d".into()).message(), "d");
    assert_eq!(LoadTrackError::DecodingFailed("e".into()).message(), "e");
    assert_eq!(LoadTrackError::CodecNotSupported.message(), "Track has no supported audio codec");
    assert_eq!(
        PlayerError::SourceChannelClosed.message(),
        "Internal Player Error: SourceEvent channel closed"
    );
    assert_eq!(PlayerError::EventChannelClosed.message(), "Event channel closed");
    assert_eq!(
        PlayerError::LoadTrack(LoadTrackError::OpenFailed("gone".into())).message(),
        "Failed to load track: gone"
    );
    assert_eq!(PlayerError::SeekFailed(SeekError::SeekFailed("x".into())).message(), "failed to seek: ");
    assert_eq!(AudioServerError::MessageChannelClosed.message(), "AudioServer Message channel closed");
    assert_eq!(AudioServerError::PluginError("bus".into()).message(), "bus");
    assert_eq!(
        AudioServerError::PlayerError(PlayerError::EventChannelClosed).message(),
        "Event channel closed"
    );
}

#[test]
fn only_load_and_seek_errors_are_recoverable() {
    assert!(PlayerError::LoadTrack(LoadTrackError::CodecNotSupported).is_recoverable());
    assert!(PlayerError::SeekFailed(SeekError::ErrorChannelClosed).is_recoverable());
    assert!(!PlayerError::SourceChannelClosed.is_recoverable());
    assert!(!PlayerError::EventChannelClosed.is_recoverable());
    assert!(AudioServerError::PlayerError(PlayerError::LoadTrack(LoadTrackError::CodecNotSupported))
        .is_recoverable());
    assert!(!AudioServerError::PlayerError(PlayerError::EventChannelClosed).is_recoverable());
    assert!(!AudioServerError::MessageChannelClosed.is_recoverable());
    assert!(!AudioServerError::PluginError("x".into()).is_recoverable());
}

#[test]
fn socket_is_in_the_runtime_directory() {
    assert_eq!(socket_path(Some("/run/user/1000"), 0), "/run/user/1000/homeslashmusic.sock");
    assert_eq!(socket_path(Some("/tmp/x"), 1000), "/tmp/x/homeslashmusic.sock");
    assert_eq!(socket_path(None, 1000), "/run/user/1000/homeslashmusic.sock");
    assert_eq!(socket_path(None, 0), "/run/user/0/homeslashmusic.sock");
    assert_eq!(socket_path(None, 7), "/run/user/7/homeslashmusic.sock");
    assert_eq!(socket_path(None, 4_294_967_295), "/run/user/4294967295/homeslashmusic.sock");
    assert_eq!(socket_path(None, 1_020_304_050), "/run/user/1020304050/homeslashmusic.sock");
}

#[test]
fn dbus_time_is_in_microseconds() {
    assert_eq!(as_dbus_time(Duration::from_secs(2)), 2_000_000);
    assert_eq!(as_dbus_time(Duration::from_nanos(1_999)), 1);
    assert_eq!(as_dbus_time(Duration::zero()), 0);
    assert_eq!(from_dbus_time(2_000_000), Duration::from_secs(2));
    assert_eq!(from_dbus_time(0), Duration::zero());
    assert_eq!(from_dbus_time(-1), Duration::from_micros(u64::MAX));
    let long = Duration::from_parts(u64::MAX, 0);
    assert_eq!(as_dbus_time(long), long.as_micros() as i64);
}

#[test]
fn dbus_offsets_and_positions_become_seeks() {
    assert_eq!(seek_by(0), None);
    assert_eq!(seek_by(1_500_000), Some(SeekPosition::Forward(Duration::from_millis(1500))));
    assert_eq!(seek_by(-1_500_000), Some(SeekPosition::Backward(Duration::from_millis(1500))));
    assert_eq!(
        seek_by(i64::MIN),
        Some(SeekPosition::Backward(Duration::from_micros(1u64 << 63)))
    );
    assert_eq!(seek_to(0), Some(SeekPosition::To(Duration::zero())));
    assert_eq!(seek_to(2_000_000), Some(SeekPosition::To(Duration::from_secs(2))));
    assert_eq!(seek_to(-1), None);
}

#[test]
fn atomic_states_hold_what_was_stored() {
    let state = AtomicPlaybackState::new(PlaybackState::Stopped);
    assert_eq!(state.load(Ordering::Acquire), PlaybackState::Stopped);
    state.store(PlaybackState::Playing, Ordering::Release);
    assert_eq!(state.load(Ordering::Relaxed), PlaybackState::Playing);
    assert_eq!(state.swap(PlaybackState::Paused, Ordering::AcqRel), PlaybackState::Playing);
    assert_eq!(
        state.compare_exchange(
            PlaybackState::Paused,
            PlaybackState::Stopped,
            Ordering::AcqRel,
            Ordering::Acquire
        ),
        Ok(PlaybackState::Paused)
    );
    assert_eq!(
        state.compare_exchange(
            PlaybackState::Paused,
            PlaybackState::Playing,
            Ordering::AcqRel,
            Ordering::Acquire
        ),
        Err(PlaybackState::Stopped)
    );
    for (code, state) in [
        (0, PlaybackState::Playing),
        (1, PlaybackState::Paused),
        (2, PlaybackState::Stopped),
        (3, PlaybackState::Stopped),
        (usize::MAX, PlaybackState::Stopped),
    ] {
        assert_eq!(AtomicPlaybackState::from_usize(code), state);
    }
    for (code, mode) in [
        (0, LoopMode::Off),
        (1, LoopMode::Track),
        (2, LoopMode::Playlist),
        (3, LoopMode::Off),
        (usize::MAX, LoopMode::Off),
    ] {
        assert_eq!(AtomicLoopMode::from_usize(code), mode);
    }
    for state in [PlaybackState::Playing, PlaybackState::Paused, PlaybackState::Stopped] {
        let cell = AtomicPlaybackState::new(state);
        assert_eq!(cell.load(Ordering::SeqCst), state);
        assert_eq!(
            cell.compare_exchange(state, PlaybackState::Playing, Ordering::SeqCst, Ordering::SeqCst),
            Ok(state)
        );
        assert_eq!(cell.swap(state, Ordering::SeqCst), PlaybackState::Playing);
    }
    let mode = AtomicLoopMode::new(LoopMode::Off);
    assert_eq!(mode.load(Ordering::Acquire), LoopMode::Off);
    mode.store(LoopMode::Track, Ordering::Release);
    assert_eq!(mode.swap(LoopMode::Playlist, Ordering::Relaxed), LoopMode::Track);
    assert_eq!(
        mode.compare_exchange(LoopMode::Playlist, LoopMode::Off, Ordering::SeqCst, Ordering::SeqCst),
        Ok(LoopMode::Playlist)
    );
    assert_eq!(
        mode.compare_exchange(LoopMode::Playlist, LoopMode::Track, Ordering::SeqCst, Ordering::SeqCst),
        Err(LoopMode::Off)
    );
}

#[test]
fn requests_are_answered_from_the_player() {
    let mut player: Player<u32> = Player::new();
    let version = Version("1.02 (abc)".to_string());
    let reply = handle_request(&mut player, &version, QualifiedRequest::QueryVersion);
    assert!(matches!(reply, Reply::Respond(Response::Version(Version(text))) if text == "1.02 (abc)"));
    let reply = handle_request(&mut player, &version, QualifiedRequest::QueryPlaybackState);
    assert!(matches!(reply, Reply::Respond(Response::PlaybackState(PlaybackState::Stopped))));
    let volume = Volume::from_bits(1.5f32.to_bits());
    let reply = handle_request(&mut player, &version, QualifiedRequest::SetVolume(volume));
    assert!(matches!(reply, Reply::Respond(Response::Handled)));
    let reply = handle_request(&mut player, &version, QualifiedRequest::QueryVolume);
    assert!(matches!(reply, Reply::Respond(Response::Volume(v)) if v == Volume::full()));
    let volume = Volume::from_bits(0.25f32.to_bits());
    handle_request(&mut player, &version, QualifiedRequest::SetVolume(volume));
    let reply = handle_request(&mut player, &version, QualifiedRequest::QueryVolume);
    assert!(matches!(reply, Reply::Respond(Response::Volume(v)) if f32::from_bits(v.to_bits()) == 0.25));
    for mode in [LoopMode::Playlist, LoopMode::Track, LoopMode::Off] {
        let reply = handle_request(&mut player, &version, QualifiedRequest::SetLoopMode(mode));
        assert!(matches!(reply, Reply::Respond(Response::Handled)));
        let reply = handle_request(&mut player, &version, QualifiedRequest::QueryLoopMode);
        assert!(matches!(reply, Reply::Respond(Response::LoopMode(m)) if m == mode));
    }
    let reply = handle_request(&mut player, &version, QualifiedRequest::SetShuffle(true));
    assert!(matches!(reply, Reply::Work(Step::Done)));
    let reply = handle_request(&mut player, &version, QualifiedRequest::QueryShuffle);
    assert!(matches!(reply, Reply::Respond(Response::Shuffle(true))));
    let reply = handle_request(&mut player, &version, QualifiedRequest::QueryPosition);
    assert!(matches!(reply, Reply::Respond(Response::Position(p)) if p == Duration::zero()));
    let reply = handle_request(&mut player, &version, QualifiedRequest::QueryCurrentTrack);
    assert!(matches!(reply, Reply::Respond(Response::CurrentTrack(None))));
    let reply = handle_request(&mut player, &version, QualifiedRequest::QueryCurrentTrackIndex);
    assert!(matches!(reply, Reply::Respond(Response::CurrentTrackIndex(0))));
    let reply = handle_request(&mut player, &version, QualifiedRequest::Play);
    assert!(matches!(reply, Reply::Work(Step::Done)));
}

#[test]
fn load_tracks_is_answered_in_two_halves() {
    let mut player: Player<u32> = Player::new();
    let version = Version("1".to_string());
    let paths = vec![PathBuf::from("a"), PathBuf::from("missing")];
    let request = QualifiedRequest::LoadTracks(InsertPosition::End, paths.clone());
    let Reply::Load { position, paths: asked } = handle_request(&mut player, &version, request)
    else {
        panic!("expected a load")
    };
    assert_eq!(position, InsertPosition::End);
    assert_eq!(asked, paths);
    let errors = vec![
        (PathBuf::from("missing"), LoadTrackError::OpenFailed("not found".to_string())),
        (PathBuf::from("odd"), LoadTrackError::CodecNotSupported),
    ];
    let (response, step) = finish_load_tracks(&mut player, position, &[track("a")], errors);
    assert!(matches!(step, Step::Done));
    let Response::LoadErrors(rendered) = response else { panic!("expected the errors") };
    assert_eq!(rendered, vec![
        (PathBuf::from("missing"), "not found".to_string()),
        (PathBuf::from("odd"), "Track has no supported audio codec".to_string()),
    ]);
    assert_eq!(player.take_events(), vec![Event::CurrentTrackChanged]);
    let reply = handle_request(&mut player, &version, QualifiedRequest::QueryTrackList);
    let Reply::Respond(Response::TrackList(snapshot)) = reply else { panic!("expected the list") };
    assert_eq!(snapshot.track_list.len(), 1);
    assert_eq!(snapshot.shuffle_indicies, vec![0]);
    let reply = handle_request(&mut player, &version, QualifiedRequest::QueryCurrentTrack);
    let Reply::Respond(Response::CurrentTrack(Some(current))) = reply else {
        panic!("expected a track")
    };
    assert_eq!(current.file_path(), &PathBuf::from("a"));
    let reply = handle_request(&mut player, &version, QualifiedRequest::NextTrack);
    assert!(matches!(reply, Reply::Work(Step::Done)));
    let reply = handle_request(&mut player, &version, QualifiedRequest::PreviousTrack { soft: true });
    assert!(matches!(reply, Reply::Work(Step::Done)));
    let reply = handle_request(&mut player, &version, QualifiedRequest::TogglePlayback);
    assert!(matches!(reply, Reply::Work(Step::Load { start: true, .. })));
    let reply = handle_request(&mut player, &version, QualifiedRequest::Pause);
    assert!(matches!(reply, Reply::Respond(Response::Handled)));
    let reply = handle_request(&mut player, &version, QualifiedRequest::Seek(SeekPosition::To(Duration::zero())));
    assert!(matches!(reply, Reply::Work(Step::Done)));
    let reply = handle_request(&mut player, &version, QualifiedRequest::StopPlayback);
    assert!(matches!(reply, Reply::Respond(Response::Handled)));
    let reply = handle_request(&mut player, &version, QualifiedRequest::ClearTracks);
    assert!(matches!(reply, Reply::Respond(Response::Handled)));
    assert!(player.current_track().is_none());
    assert!(render_errors(Vec::new()).is_empty());
}

#[test]
fn messages_end_with_a_line_feed() {
    assert_eq!(frame("{\"Ok\":null}".to_string()), "{\"Ok\":null}\n");
    assert_eq!(frame(String::new()), "\n");
}

#[test]
fn file_urls_are_percent_encoded() {
    let names = vec![b"music".to_vec(), b"My Album".to_vec(), b"01-a_b.c~d (x).flac".to_vec()];
    assert_eq!(encode_file_url(&names), "file:///music/My%20Album/01-a_b.c~d%20%28x%29.flac");
    assert_eq!(encode_file_url(&Vec::new()), "file://");
    assert_eq!(encode_file_url(&vec![vec![0x00, 0x7f, 0xff, b'/', b'%']]), "file:///%00%7F%FF%2F%25");
    let every: Vec<u8> = (0..=255).collect();
    assert_eq!(
        encode_file_url(&vec![every.clone()]),
        format!("file:///{}", urlencoding::encode_binary(&every))
    );
}

#[test]
fn file_urls_are_decoded_to_paths() {
    assert_eq!(
        decode_file_url("file:///music/My%20Album/a%2Fb.flac"),
        Some(b"/music/My Album/a/b.flac".to_vec())
    );
    assert_eq!(decode_file_url("file://"), Some(Vec::new()));
    assert_eq!(decode_file_url("file:///a%zz%4"), Some(b"/a%zz%4".to_vec()));
    assert_eq!(decode_file_url("file:///%ff%FF"), Some(vec![b'/', 0xff, 0xff]));
    assert_eq!(decode_file_url("http://example.org/a"), None);
    assert_eq!(decode_file_url("file:/a"), None);
    assert_eq!(decode_file_url("File:///a"), None);
    assert_eq!(decode_file_url(""), None);
}
