use homeslashmusic::time::Duration;
use homeslashmusic::track_list::TrackList;
use homeslashmusic::types::{AudioSpec, InsertPosition, Track, TrackMetadata};
use std::path::PathBuf;
use std::sync::Arc;

fn track(name: &str) -> Arc<Track> {
    let spec = AudioSpec {
        track_id: 0,
        bit_depth: Some(16),
        channel_bitmask: 3,
        channel_count: 2,
        sample_rate: 44100,
        total_duration: Some(Duration::from_secs(3)),
    };
    Arc::new(Track::new(PathBuf::from(name), spec, TrackMetadata::new()))
}

fn tracks(names: &[&str]) -> Vec<Arc<Track>> {
    names.iter().map(|name| track(name)).collect()
}

fn names(list: &TrackList) -> Vec<String> {
    list.get_snapshot()
        .track_list
        .iter()
        .map(|track| track.file_path().to_string_lossy().into_owned())
        .collect()
}

fn order(list: &TrackList) -> Vec<usize> {
    list.get_snapshot().shuffle_indicies
}

fn name_at(list: &TrackList, position: usize) -> String {
    list.get_track(position)
        .expect("a track at the position")
        .file_path()
        .to_string_lossy()
        .into_owned()
}

fn is_permutation(order: &[usize]) -> bool {
    let mut seen = vec![false; order.len()];
    for &index in order {
        if index >= order.len() || seen[index] {
            return false;
        }
        seen[index] = true;
    }
    true
}

#[test]
fn new_list_is_empty() {
    let list = TrackList::new();
    assert_eq!(list.len(), 0);
    assert!(!list.shuffle_enabled());
    assert!(list.get_track(0).is_none());
    assert!(list.get_tracks_to_queue(0).is_none());
    assert_eq!(order(&list), Vec::<usize>::new());
}

#[test]
fn insert_at_end_keeps_order_of_insertion() {
    let mut list = TrackList::new();
    assert_eq!(list.insert_tracks(0, InsertPosition::End, &tracks(&["a", "b"])).unwrap(), 0);
    assert_eq!(list.insert_tracks(0, InsertPosition::End, &tracks(&["c"])).unwrap(), 0);
    assert_eq!(names(&list), vec!["a", "b", "c"]);
    assert_eq!(order(&list), vec![0, 1, 2]);
    assert_eq!(list.len(), 3);
}

#[test]
fn insert_before_current_moves_the_current_index() {
    let mut list = TrackList::new();
    list.insert_tracks(0, InsertPosition::End, &tracks(&["a", "b", "c"])).unwrap();
    let new_index = list.insert_tracks(2, InsertPosition::Start, &tracks(&["d"])).unwrap();
    assert_eq!(names(&list), vec!["d", "a", "b", "c"]);
    assert_eq!(new_index, 3);
    assert_eq!(name_at(&list, new_index), "c");
    assert_eq!(order(&list), vec![0, 1, 2, 3]);
}

#[test]
fn insert_at_the_current_index_moves_it_too() {
    let mut list = TrackList::new();
    list.insert_tracks(0, InsertPosition::End, &tracks(&["a", "b", "c"])).unwrap();
    let new_index =
        list.insert_tracks(1, InsertPosition::Absolute(1), &tracks(&["x", "y"])).unwrap();
    assert_eq!(names(&list), vec!["a", "x", "y", "b", "c"]);
    assert_eq!(new_index, 3);
    assert_eq!(name_at(&list, new_index), "b");
}

#[test]
fn insert_behind_current_leaves_the_current_index() {
    let mut list = TrackList::new();
    list.insert_tracks(0, InsertPosition::End, &tracks(&["a", "b", "c"])).unwrap();
    let new_index = list.insert_tracks(1, InsertPosition::Next, &tracks(&["x"])).unwrap();
    assert_eq!(names(&list), vec!["a", "b", "x", "c"]);
    assert_eq!(new_index, 1);
    let new_index = list.insert_tracks(1, InsertPosition::End, &tracks(&["z"])).unwrap();
    assert_eq!(names(&list), vec!["a", "b", "x", "c", "z"]);
    assert_eq!(new_index, 1);
}

#[test]
fn insert_next_into_empty_list_is_insert_at_end() {
    let mut by_next = TrackList::new();
    let mut by_end = TrackList::new();
    let next_index = by_next.insert_tracks(0, InsertPosition::Next, &tracks(&["a", "b"])).unwrap();
    let end_index = by_end.insert_tracks(0, InsertPosition::End, &tracks(&["a", "b"])).unwrap();
    assert_eq!(names(&by_next), names(&by_end));
    assert_eq!(order(&by_next), order(&by_end));
    assert_eq!(next_index, end_index);
    assert_eq!(next_index, 0);
}

#[test]
fn absolute_position_beyond_the_end_is_the_end() {
    let mut list = TrackList::new();
    list.insert_tracks(0, InsertPosition::End, &tracks(&["a", "b"])).unwrap();
    let new_index = list.insert_tracks(0, InsertPosition::Absolute(99), &tracks(&["c"])).unwrap();
    assert_eq!(names(&list), vec!["a", "b", "c"]);
    assert_eq!(new_index, 0);
}

#[test]
fn replace_starts_from_an_empty_list() {
    let mut list = TrackList::new();
    list.insert_tracks(0, InsertPosition::End, &tracks(&["a", "b", "c"])).unwrap();
    let new_index = list.insert_tracks(2, InsertPosition::Replace, &tracks(&["y"])).unwrap();
    assert_eq!(names(&list), vec!["y"]);
    assert_eq!(order(&list), vec![0]);
    assert_eq!(new_index, 0);
}

#[test]
fn get_absolute_resolves_each_position() {
    assert_eq!(InsertPosition::Absolute(2).get_absolute(0, 5), 2);
    assert_eq!(InsertPosition::Absolute(7).get_absolute(0, 5), 5);
    assert_eq!(InsertPosition::Next.get_absolute(3, 5), 4);
    assert_eq!(InsertPosition::Next.get_absolute(4, 5), 5);
    assert_eq!(InsertPosition::Next.get_absolute(0, 0), 0);
    assert_eq!(InsertPosition::Start.get_absolute(3, 5), 0);
    assert_eq!(InsertPosition::End.get_absolute(3, 5), 5);
    assert_eq!(InsertPosition::Replace.get_absolute(3, 5), 0);
}

#[test]
fn tracks_to_queue_are_current_and_next() {
    let mut list = TrackList::new();
    list.insert_tracks(0, InsertPosition::End, &tracks(&["a", "b", "c"])).unwrap();
    let (current, next) = list.get_tracks_to_queue(1).expect("a pair");
    assert_eq!(current.file_path(), &PathBuf::from("b"));
    assert_eq!(next.expect("a next track").file_path(), &PathBuf::from("c"));
    let (current, next) = list.get_tracks_to_queue(2).expect("a pair");
    assert_eq!(current.file_path(), &PathBuf::from("c"));
    assert!(next.is_none());
    assert!(list.get_tracks_to_queue(3).is_none());
}

#[test]
fn shuffle_preserves_current() {
    let mut list = TrackList::new();
    list.insert_tracks(0, InsertPosition::End, &tracks(&["x", "y", "z"])).unwrap();
    let shuffled_index = list.set_shuffle(true, 1).unwrap();
    assert!(list.shuffle_enabled());
    assert_eq!(shuffled_index, 0);
    assert_eq!(order(&list)[0], 1);
    assert!(is_permutation(&order(&list)));
    assert_eq!(name_at(&list, shuffled_index), "y");
    let ordered_index = list.set_shuffle(false, shuffled_index).unwrap();
    assert!(!list.shuffle_enabled());
    assert_eq!(ordered_index, 1);
    assert_eq!(order(&list), vec![0, 1, 2]);
    assert_eq!(names(&list), vec!["x", "y", "z"]);
}

#[test]
fn shuffle_of_an_empty_list_does_nothing_but_set_the_flag() {
    let mut list = TrackList::new();
    assert_eq!(list.set_shuffle(true, 0).unwrap(), 0);
    assert!(list.shuffle_enabled());
    assert_eq!(list.len(), 0);
    assert_eq!(list.set_shuffle(false, 0).unwrap(), 0);
    assert!(!list.shuffle_enabled());
}

#[test]
fn shuffle_rearranges_the_rest() {
    let all: Vec<String> = (0..40).map(|i| format!("t{i}")).collect();
    let all_names: Vec<&str> = all.iter().map(|name| name.as_str()).collect();
    let mut rearranged = false;
    for _ in 0..20 {
        let mut list = TrackList::new();
        list.insert_tracks(0, InsertPosition::End, &tracks(&all_names)).unwrap();
        list.set_shuffle(true, 5).unwrap();
        let order = order(&list);
        assert!(is_permutation(&order));
        assert_eq!(order[0], 5);
        let untouched: Vec<usize> = std::iter::once(5).chain((0..40).filter(|i| *i != 5)).collect();
        if order != untouched {
            rearranged = true;
        }
    }
    assert!(rearranged);
}

#[test]
fn insert_with_shuffle_on_keeps_current_and_the_order_of_the_others() {
    let mut landed_before_the_end = false;
    for _ in 0..20 {
        let mut list = TrackList::new();
        list.insert_tracks(0, InsertPosition::End, &tracks(&["a", "b", "c", "d", "e"])).unwrap();
        let current = list.set_shuffle(true, 2).unwrap();
        assert_eq!(name_at(&list, current), "c");
        let before = order(&list);
        let new_index =
            list.insert_tracks(current, InsertPosition::Absolute(1), &tracks(&["x", "y"])).unwrap();
        assert_eq!(names(&list), vec!["a", "x", "y", "b", "c", "d", "e"]);
        let after = order(&list);
        assert!(is_permutation(&after));
        assert_eq!(name_at(&list, new_index), "c");
        let kept: Vec<usize> = after.iter().copied().filter(|i| !(1..3).contains(i)).collect();
        let moved: Vec<usize> = before.iter().map(|&i| if i >= 1 { i + 2 } else { i }).collect();
        assert_eq!(kept, moved);
        // Chance may put both new entries at the very end, but not every time.
        if !(after[5] == 1 && after[6] == 2) {
            landed_before_the_end = true;
        }
    }
    assert!(landed_before_the_end);
}

#[test]
fn clear_keeps_the_shuffle_flag() {
    let mut list = TrackList::new();
    list.insert_tracks(0, InsertPosition::End, &tracks(&["a", "b"])).unwrap();
    list.set_shuffle(true, 0).unwrap();
    list.clear().unwrap();
    assert_eq!(list.len(), 0);
    assert!(list.shuffle_enabled());
    assert_eq!(order(&list), Vec::<usize>::new());
}

#[test]
fn track_getters_return_the_parts() {
    let mut metadata = TrackMetadata::new();
    metadata.title = Some("Title".to_string());
    let spec = AudioSpec {
        track_id: 7,
        bit_depth: None,
        channel_bitmask: 1,
        channel_count: 1,
        sample_rate: 48000,
        total_duration: None,
    };
    let track = Track::new(PathBuf::from("/music/a.flac"), spec, metadata);
    assert_eq!(track.file_path(), &PathBuf::from("/music/a.flac"));
    assert_eq!(track.audio_spec().track_id, 7);
    assert_eq!(track.audio_spec().sample_rate, 48000);
    assert_eq!(track.audio_spec().total_duration, None);
    assert_eq!(track.metadata().title.as_deref(), Some("Title"));
    assert!(track.metadata().artists.is_empty());
}
