//! The values that the control interface speaks in.

use crate::time::Duration;
use crate::volume::Volume;
use std::path::PathBuf;
use std::sync::Arc;
use vstd::prelude::*;

verus! {

/// `std::path::PathBuf`, carried through as it is. Nothing is known of what
/// a path holds: two paths are told apart only by being different values.
#[verifier::external_type_specification]
#[verifier::external_body]
pub struct ExPathBuf(PathBuf);

/// Whether the player is producing sound.
#[derive(Clone, Copy, Debug, PartialEq, Eq, Structural)]
pub enum PlaybackState {
    /// A source is feeding the output.
    Playing,
    /// A source is armed, and the output is silent.
    Paused,
    /// No source feeds the output, and the position is zero.
    Stopped,
}

/// What happens when a track, or the list, comes to its end.
#[derive(Clone, Copy, Debug, PartialEq, Eq, Structural)]
pub enum LoopMode {
    /// Playback stops after the last track.
    Off,
    /// The current track repeats.
    Track,
    /// The list starts over after the last track.
    Playlist,
}

/// Where to seek to inside the current track.
#[derive(Clone, Copy, Debug, PartialEq, Eq, Structural)]
pub enum SeekPosition {
    /// Forward from the current position by this much.
    Forward(Duration),
    /// Backward from the current position by this much.
    Backward(Duration),
    /// To this offset from the start of the track.
    To(Duration),
}

impl SeekPosition {
    /// The offset from the start of the track that this seek aims at when
    /// the track stands at `current`.
    pub open spec fn spec_target(&self, current: Duration) -> Duration {
        match *self {
            SeekPosition::Forward(by) => current.spec_saturating_add(by),
            SeekPosition::Backward(by) => current.spec_saturating_sub(by),
            SeekPosition::To(position) => position,
        }
    }

    /// The offset from the start of the track that this seek aims at when
    /// the track stands at `current`: a relative seek never leaves the range
    /// of a [`Duration`].
    #[verifier::when_used_as_spec(spec_target)]
    pub fn target(&self, current: Duration) -> (target: Duration)
        ensures
            target == self.spec_target(current),
    {
        match self {
            SeekPosition::Forward(by) => current.saturating_add(*by),
            SeekPosition::Backward(by) => current.saturating_sub(*by),
            SeekPosition::To(position) => *position,
        }
    }
}

/// Where new tracks go in the track list.
#[derive(Clone, Copy, Debug, PartialEq, Eq, Structural)]
pub enum InsertPosition {
    /// At this index of the list, or at its end if the index is beyond it.
    Absolute(usize),
    /// Directly behind the track that is current.
    Next,
    /// Before every track of the list.
    Start,
    /// Behind every track of the list.
    End,
    /// In place of the whole list.
    Replace,
}

impl InsertPosition {
    /// The index at which the new tracks are inserted into a list of
    /// `track_list_len` tracks whose current track stands at
    /// `current_position`.
    pub open spec fn spec_get_absolute(
        &self,
        current_position: usize,
        track_list_len: usize,
    ) -> usize {
        match *self {
            InsertPosition::Absolute(position) => if position <= track_list_len {
                position
            } else {
                track_list_len
            },
            InsertPosition::Next => if current_position < track_list_len {
                (current_position + 1) as usize
            } else {
                track_list_len
            },
            InsertPosition::Start => 0,
            InsertPosition::End => track_list_len,
            InsertPosition::Replace => 0,
        }
    }

    /// The index at which the new tracks are inserted: never beyond the end
    /// of the list, and for `Next` in an empty list the same as for `End`.
    #[verifier::when_used_as_spec(spec_get_absolute)]
    pub fn get_absolute(&self, current_position: usize, track_list_len: usize) -> (index: usize)
        ensures
            index == self.spec_get_absolute(current_position, track_list_len),
            index <= track_list_len,
    {
        match self {
            InsertPosition::Absolute(position) => if *position <= track_list_len {
                *position
            } else {
                track_list_len
            },
            InsertPosition::Next => if current_position < track_list_len {
                current_position + 1
            } else {
                track_list_len
            },
            InsertPosition::Start => 0,
            InsertPosition::End => track_list_len,
            InsertPosition::Replace => 0,
        }
    }
}

/// How the audio of a track is laid out.
#[derive(Clone, Copy, Debug, PartialEq, Eq, Structural)]
pub struct AudioSpec {
    pub track_id: u32,
    pub bit_depth: Option<u32>,
    pub channel_bitmask: u32,
    pub channel_count: u16,
    pub sample_rate: u32,
    pub total_duration: Option<Duration>,
}

/// What the tags of a track say about it. `artists` and `genres` are sets
/// kept in the order in which their members were first seen.
#[derive(Debug)]
pub struct TrackMetadata {
    pub title: Option<String>,
    pub artists: Vec<String>,
    pub album: Option<String>,
    pub track_number: Option<usize>,
    pub date: Option<String>,
    pub genres: Vec<String>,
    pub comments: Vec<String>,
}

/// Whether `name` is one of `names`.
pub open spec fn holds_name(names: Seq<String>, name: Seq<char>) -> bool {
    exists|i: int| 0 <= i < names.len() && (#[trigger] names[i])@ == name
}

/// Whether no name occurs twice in `names`.
pub open spec fn distinct_names(names: Seq<String>) -> bool {
    forall|i: int, j: int|
        0 <= i < j < names.len() ==> (#[trigger] names[i])@ != (#[trigger] names[j])@
}

impl TrackMetadata {
    /// Whether `artists` and `genres` hold no name twice.
    pub open spec fn wf(self) -> bool {
        &&& distinct_names(self.artists@)
        &&& distinct_names(self.genres@)
    }

    /// Metadata that says nothing.
    pub fn new() -> (metadata: TrackMetadata)
        ensures
            metadata.title is None,
            metadata.artists@.len() == 0,
            metadata.album is None,
            metadata.track_number is None,
            metadata.date is None,
            metadata.genres@.len() == 0,
            metadata.comments@.len() == 0,
            metadata.wf(),
    {
        TrackMetadata {
            title: None,
            artists: Vec::new(),
            album: None,
            track_number: None,
            date: None,
            genres: Vec::new(),
            comments: Vec::new(),
        }
    }
}

impl Default for TrackMetadata {
    fn default() -> (metadata: TrackMetadata)
        ensures
            metadata.title is None,
            metadata.artists@.len() == 0,
            metadata.album is None,
            metadata.track_number is None,
            metadata.date is None,
            metadata.genres@.len() == 0,
            metadata.comments@.len() == 0,
    {
        TrackMetadata::new()
    }
}

/// One audio file: where it is, how its audio is laid out, and what its tags
/// say. A track does not change once it is made.
#[derive(Debug)]
pub struct Track {
    file_path: PathBuf,
    audio_spec: AudioSpec,
    metadata: TrackMetadata,
}

impl Track {
    /// The canonical path of the file.
    pub closed spec fn spec_file_path(&self) -> &PathBuf {
        &self.file_path
    }

    /// The layout of the audio.
    pub closed spec fn spec_audio_spec(&self) -> &AudioSpec {
        &self.audio_spec
    }

    /// What the tags say.
    pub closed spec fn spec_metadata(&self) -> &TrackMetadata {
        &self.metadata
    }

    pub fn new(file_path: PathBuf, audio_spec: AudioSpec, metadata: TrackMetadata) -> (track: Track)
        ensures
            *track.spec_file_path() == file_path,
            *track.spec_audio_spec() == audio_spec,
            *track.spec_metadata() == metadata,
    {
        Track { file_path, audio_spec, metadata }
    }

    #[verifier::when_used_as_spec(spec_file_path)]
    pub fn file_path(&self) -> (path: &PathBuf)
        ensures
            path == self.spec_file_path(),
    {
        &self.file_path
    }

    #[verifier::when_used_as_spec(spec_audio_spec)]
    pub fn audio_spec(&self) -> (spec: &AudioSpec)
        ensures
            spec == self.spec_audio_spec(),
    {
        &self.audio_spec
    }

    #[verifier::when_used_as_spec(spec_metadata)]
    pub fn metadata(&self) -> (metadata: &TrackMetadata)
        ensures
            metadata == self.spec_metadata(),
    {
        &self.metadata
    }
}

/// `Arc::clone`: another handle on the same track.
#[verifier::external_body]
pub(crate) fn share_track(track: &Arc<Track>) -> (shared: Arc<Track>)
    ensures
        shared == *track,
{
    Arc::clone(track)
}

/// The version of the server, as it reports it.
#[derive(Debug)]
pub struct Version(pub String);

/// The reply to a request that asks for nothing back.
#[derive(Clone, Copy, Debug, PartialEq, Eq, Structural)]
pub struct Handled;

/// The track list as it stands at one moment: the tracks in the order in
/// which they were inserted, and the order in which they play.
#[derive(Debug)]
pub struct TrackListSnapshot {
    pub track_list: Vec<Arc<Track>>,
    pub shuffle_indicies: Vec<usize>,
}

/// A change of the player's state that front-ends are told of.
#[derive(Clone, Copy, Debug, PartialEq, Eq, Structural)]
pub enum Event {
    PlaybackStateChanged(PlaybackState),
    LoopModeChanged(LoopMode),
    ShuffleChanged(bool),
    VolumeChanged(Volume),
    Seeked(Duration),
    CurrentTrackChanged,
}

} // verus!
