use homeslashmusic::client::{TrackList, TrackListUpdate};
use homeslashmusic::time::Duration;
use homeslashmusic::types::{AudioSpec, Track, TrackListSnapshot, TrackMetadata};
use std::path::PathBuf;
use std::sync::Arc;

fn track(name: &str) -> Arc<Track> {
    let spec = AudioSpec {
        track_id: 0,
        bit_depth: None,
        channel_bitmask: 3,
        channel_count: 2,
        sample_rate: 44100,
        total_duration: Some(Duration::from_secs(3)),
    };
    Arc::new(Track::new(PathBuf::from(name), spec, TrackMetadata::new()))
}

fn tracks(names: &[&str]) -> Vec<Arc<Track>> {
    names.iter().map(|name| track(name)).collect()
}

fn snapshot(names: &[&str], order: &[usize]) -> TrackListSnapshot {
    TrackListSnapshot { track_list: tracks(names), shuffle_indicies: order.to_vec() }
}

fn names(list: &TrackList) -> Vec<String> {
    list.track_list().iter().map(|track| track.file_path().to_string_lossy().into_owned()).collect()
}

fn playing_order(list: &TrackList) -> Vec<String> {
    list.iter().iter().map(|track| track.file_path().to_string_lossy().into_owned()).collect()
}

#[test]
fn client_list_starts_empty_and_in_sync() {
    let list = TrackList::new();
    assert_eq!(list.len(), 0);
    assert!(!list.needs_sync());
    assert!(list.get(0).is_none());
    assert!(list.iter().is_empty());
}

#[test]
fn client_list_from_snapshot_plays_in_the_given_order() {
    let list = TrackList::from_snapshot(snapshot(&["a", "b", "c"], &[2, 0, 1]));
    assert_eq!(list.len(), 3);
    assert_eq!(names(&list), vec!["a", "b", "c"]);
    assert_eq!(list.shuffle_indicies(), &vec![2, 0, 1]);
    assert_eq!(playing_order(&list), vec!["c", "a", "b"]);
    assert_eq!(list.get(0).unwrap().file_path(), &PathBuf::from("c"));
    assert!(list.get(3).is_none());
}

#[test]
fn client_insert_splices_the_tracks_in() {
    let mut list = TrackList::from_snapshot(snapshot(&["a", "b"], &[0, 1]));
    let update = TrackListUpdate::Insert {
        index: 1,
        tracks: tracks(&["x", "y"]),
        new_shuffle_indicies: vec![0, 1, 2, 3],
    };
    assert_eq!(list.update(update), Ok(()));
    assert_eq!(names(&list), vec!["a", "x", "y", "b"]);
    assert_eq!(list.shuffle_indicies(), &vec![0, 1, 2, 3]);
    assert!(!list.needs_sync());
}

#[test]
fn client_insert_that_does_not_fit_is_refused() {
    let mut list = TrackList::from_snapshot(snapshot(&["a", "b"], &[0, 1]));
    let short = TrackListUpdate::Insert {
        index: 1,
        tracks: tracks(&["x"]),
        new_shuffle_indicies: vec![0, 1],
    };
    assert_eq!(list.update(short), Err(()));
    assert!(list.needs_sync());
    assert_eq!(names(&list), vec!["a", "b"]);
    let beyond = TrackListUpdate::Insert {
        index: 3,
        tracks: tracks(&["x"]),
        new_shuffle_indicies: vec![0, 1, 2],
    };
    assert_eq!(list.update(beyond), Err(()));
    assert_eq!(names(&list), vec!["a", "b"]);
    assert_eq!(list.shuffle_indicies(), &vec![0, 1]);
}

#[test]
fn client_remove_drops_the_listed_tracks() {
    let mut list = TrackList::from_snapshot(snapshot(&["a", "b", "c", "d"], &[0, 1, 2, 3]));
    let update = TrackListUpdate::Remove {
        removed_indicies: vec![2, 0],
        new_shuffle_indicies: vec![1, 0],
    };
    assert_eq!(list.update(update), Ok(()));
    assert_eq!(names(&list), vec!["b", "d"]);
    assert_eq!(playing_order(&list), vec!["d", "b"]);
    let wrong = TrackListUpdate::Remove {
        removed_indicies: vec![0, 0],
        new_shuffle_indicies: vec![],
    };
    assert_eq!(list.update(wrong), Err(()));
    assert!(list.needs_sync());
    assert_eq!(names(&list), vec!["b", "d"]);
}

#[test]
fn client_replace_and_clear_bring_the_list_back_in_sync() {
    let mut list = TrackList::from_snapshot(snapshot(&["a"], &[0]));
    let wrong = TrackListUpdate::Shuffle { new_shuffle_indicies: vec![0, 1] };
    assert_eq!(list.update(wrong), Err(()));
    assert!(list.needs_sync());
    assert_eq!(list.update(TrackListUpdate::Replace(snapshot(&["x", "y"], &[1, 0]))), Ok(()));
    assert!(!list.needs_sync());
    assert_eq!(playing_order(&list), vec!["y", "x"]);
    let wrong = TrackListUpdate::Shuffle { new_shuffle_indicies: vec![0] };
    assert_eq!(list.update(wrong), Err(()));
    assert!(list.needs_sync());
    assert_eq!(list.update(TrackListUpdate::Clear), Ok(()));
    assert!(!list.needs_sync());
    assert_eq!(list.len(), 0);
    assert!(list.shuffle_indicies().is_empty());
}

#[test]
fn client_replace_with_a_broken_snapshot_is_refused() {
    let mut list = TrackList::from_snapshot(snapshot(&["a"], &[0]));
    assert_eq!(list.update(TrackListUpdate::Replace(snapshot(&["x", "y"], &[0]))), Err(()));
    assert!(list.needs_sync());
    assert_eq!(names(&list), vec!["a"]);
}

#[test]
fn client_shuffle_sets_the_order() {
    let mut list = TrackList::from_snapshot(snapshot(&["a", "b", "c"], &[0, 1, 2]));
    let update = TrackListUpdate::Shuffle { new_shuffle_indicies: vec![1, 2, 0] };
    assert_eq!(list.update(update), Ok(()));
    assert_eq!(playing_order(&list), vec!["b", "c", "a"]);
    assert!(!list.needs_sync());
}

#[test]
fn client_sync_sets_the_whole_list() {
    let mut list = TrackList::new();
    list.sync(snapshot(&["a", "b"], &[1, 0]));
    assert_eq!(list.len(), 2);
    assert_eq!(playing_order(&list), vec!["b", "a"]);
    assert!(!list.needs_sync());
}
