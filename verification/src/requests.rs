//! The requests that a front-end makes, and how the player answers them.

use crate::errors::LoadTrackError;
use crate::player::Player;
use crate::player_model::{PlayerView, Step};
use crate::time::Duration;
use crate::types::{
    InsertPosition, LoopMode, PlaybackState, SeekPosition, Track, TrackListSnapshot, Version,
};
use crate::volume::Volume;
use std::path::PathBuf;
use std::sync::Arc;
use vstd::prelude::*;

verus! {

/// A request of a front-end.
#[derive(Debug)]
pub enum QualifiedRequest {
    QueryVersion,
    QueryPlaybackState,
    Play,
    Pause,
    StopPlayback,
    TogglePlayback,
    QueryCurrentTrack,
    QueryCurrentTrackIndex,
    NextTrack,
    PreviousTrack {
        /// Start the track over instead if it is well under way.
        soft: bool,
    },
    QueryLoopMode,
    SetLoopMode(LoopMode),
    QueryShuffle,
    SetShuffle(bool),
    QueryVolume,
    SetVolume(Volume),
    QueryPosition,
    Seek(SeekPosition),
    QueryTrackList,
    ClearTracks,
    LoadTracks(InsertPosition, Vec<PathBuf>),
}

/// What a front-end gets back.
#[derive(Debug)]
pub enum Response {
    Version(Version),
    PlaybackState(PlaybackState),
    /// The request was carried out, and there is nothing to tell.
    Handled,
    CurrentTrack(Option<Arc<Track>>),
    CurrentTrackIndex(usize),
    LoopMode(LoopMode),
    Shuffle(bool),
    Volume(Volume),
    Position(Duration),
    TrackList(TrackListSnapshot),
    /// The files that could not be loaded, each with the reason in words.
    LoadErrors(Vec<(PathBuf, String)>),
}

/// What is to be done about a request once the player has seen it.
#[derive(Debug)]
pub enum Reply {
    /// Send this response.
    Respond(Response),
    /// Carry out the step, then respond `Handled`, or with the error that
    /// the step ran into.
    Work(Step),
    /// Load the tracks at these paths, then hand them to
    /// `finish_load_tracks`.
    Load { position: InsertPosition, paths: Vec<PathBuf> },
}

/// Whether `post` and `reply` are a result of `request` on the player
/// `pre` of a server that reports `version`. A query answers from the state
/// and changes nothing; a command changes the state as the operation of the
/// player of the same name does, and leaves the work that the operation
/// asks for.
pub open spec fn handled<S>(
    pre: PlayerView<S>,
    version: Version,
    request: QualifiedRequest,
    post: PlayerView<S>,
    reply: Reply,
) -> bool {
    match request {
        QualifiedRequest::QueryVersion => {
            &&& post == pre
            &&& reply matches Reply::Respond(Response::Version(reported)) && reported.0
                == version.0
        },
        QualifiedRequest::QueryPlaybackState => post == pre && reply == Reply::Respond(
            Response::PlaybackState(pre.controls.playback_state),
        ),
        QualifiedRequest::Play => (post, reply) == (pre.play().0, Reply::Work(pre.play().1)),
        QualifiedRequest::Pause => (post, reply) == (
            pre.pause(),
            Reply::Respond(Response::Handled),
        ),
        QualifiedRequest::StopPlayback => (post, reply) == (
            pre.stop(),
            Reply::Respond(Response::Handled),
        ),
        QualifiedRequest::TogglePlayback => (post, reply) == (
            pre.toggle_playback().0,
            Reply::Work(pre.toggle_playback().1),
        ),
        QualifiedRequest::QueryCurrentTrack => post == pre && reply == Reply::Respond(
            Response::CurrentTrack(pre.current_track()),
        ),
        QualifiedRequest::QueryCurrentTrackIndex => post == pre && reply == Reply::Respond(
            Response::CurrentTrackIndex(pre.current_index),
        ),
        QualifiedRequest::NextTrack => (post, reply) == (
            pre.go_to_next_track().0,
            Reply::Work(pre.go_to_next_track().1),
        ),
        QualifiedRequest::PreviousTrack { soft } => (post, reply) == (
            pre.go_to_previous_track(soft).0,
            Reply::Work(pre.go_to_previous_track(soft).1),
        ),
        QualifiedRequest::QueryLoopMode => post == pre && reply == Reply::Respond(
            Response::LoopMode(pre.controls.loop_mode),
        ),
        QualifiedRequest::SetLoopMode(loop_mode) => (post, reply) == (
            pre.set_loop_mode(loop_mode),
            Reply::Respond(Response::Handled),
        ),
        QualifiedRequest::QueryShuffle => post == pre && reply == Reply::Respond(
            Response::Shuffle(pre.tracks.shuffle),
        ),
        QualifiedRequest::SetShuffle(shuffle) => reply matches Reply::Work(step)
            && pre.shuffle_set(shuffle, post, step),
        QualifiedRequest::QueryVolume => post == pre && reply == Reply::Respond(
            Response::Volume(pre.controls.volume),
        ),
        QualifiedRequest::SetVolume(volume) => (post, reply) == (
            pre.set_volume(volume),
            Reply::Respond(Response::Handled),
        ),
        QualifiedRequest::QueryPosition => post == pre && reply == Reply::Respond(
            Response::Position(pre.controls.position),
        ),
        QualifiedRequest::Seek(target) => (post, reply) == (
            pre.seek(target).0,
            Reply::Work(pre.seek(target).1),
        ),
        QualifiedRequest::QueryTrackList => {
            &&& post == pre
            &&& reply matches Reply::Respond(Response::TrackList(snapshot))
                && snapshot.track_list@ == pre.tracks.tracks && snapshot.shuffle_indicies@
                == pre.tracks.order
        },
        QualifiedRequest::ClearTracks => (post, reply) == (
            pre.clear_tracks(),
            Reply::Respond(Response::Handled),
        ),
        QualifiedRequest::LoadTracks(position, paths) => post == pre && reply == (Reply::Load {
            position,
            paths,
        }),
    }
}

/// Lets the player see `request`. `version` is what the server reports as
/// its version.
pub fn handle_request<S>(player: &mut Player<S>, version: &Version, request: QualifiedRequest) -> (reply:
    Reply)
    requires
        old(player).wf(),
    ensures
        final(player).wf(),
        handled(old(player)@, *version, request, final(player)@, reply),
{
    match request {
        QualifiedRequest::QueryVersion => Reply::Respond(
            Response::Version(Version(version.0.clone())),
        ),
        QualifiedRequest::QueryPlaybackState => Reply::Respond(
            Response::PlaybackState(player.playback_state()),
        ),
        QualifiedRequest::Play => Reply::Work(player.play()),
        QualifiedRequest::Pause => {
            player.pause();
            Reply::Respond(Response::Handled)
        },
        QualifiedRequest::StopPlayback => {
            player.stop();
            Reply::Respond(Response::Handled)
        },
        QualifiedRequest::TogglePlayback => Reply::Work(player.toggle_playback()),
        QualifiedRequest::QueryCurrentTrack => Reply::Respond(
            Response::CurrentTrack(player.current_track()),
        ),
        QualifiedRequest::QueryCurrentTrackIndex => Reply::Respond(
            Response::CurrentTrackIndex(player.current_track_index()),
        ),
        QualifiedRequest::NextTrack => Reply::Work(player.go_to_next_track()),
        QualifiedRequest::PreviousTrack { soft } => Reply::Work(player.go_to_previous_track(soft)),
        QualifiedRequest::QueryLoopMode => Reply::Respond(Response::LoopMode(player.loop_mode())),
        QualifiedRequest::SetLoopMode(loop_mode) => {
            player.set_loop_mode(loop_mode);
            Reply::Respond(Response::Handled)
        },
        QualifiedRequest::QueryShuffle => Reply::Respond(Response::Shuffle(player.shuffle())),
        QualifiedRequest::SetShuffle(shuffle) => Reply::Work(player.set_shuffle(shuffle)),
        QualifiedRequest::QueryVolume => Reply::Respond(Response::Volume(player.volume())),
        QualifiedRequest::SetVolume(volume) => {
            player.set_volume(volume);
            Reply::Respond(Response::Handled)
        },
        QualifiedRequest::QueryPosition => Reply::Respond(Response::Position(player.position())),
        QualifiedRequest::Seek(target) => Reply::Work(player.seek(target)),
        QualifiedRequest::QueryTrackList => Reply::Respond(
            Response::TrackList(player.get_track_list()),
        ),
        QualifiedRequest::ClearTracks => {
            player.clear_tracks();
            Reply::Respond(Response::Handled)
        },
        QualifiedRequest::LoadTracks(position, paths) => Reply::Load { position, paths },
    }
}

/// Whether `rendered` names the files of `errors` in their order, each
/// with its error in words.
pub open spec fn renders(
    errors: Seq<(PathBuf, LoadTrackError)>,
    rendered: Seq<(PathBuf, String)>,
) -> bool {
    &&& rendered.len() == errors.len()
    &&& forall|i: int|
        0 <= i < errors.len() ==> (#[trigger] rendered[i]).0 == errors[i].0 && rendered[i].1@
            == errors[i].1.spec_message()
}

/// Puts each error into words.
pub fn render_errors(errors: Vec<(PathBuf, LoadTrackError)>) -> (rendered: Vec<(PathBuf, String)>)
    ensures
        renders(errors@, rendered@),
{
    let ghost all = errors@;
    let mut errors = errors;
    let mut reversed: Vec<(PathBuf, String)> = Vec::new();
    while errors.len() > 0
        invariant
            errors@.len() + reversed@.len() == all.len(),
            errors@ == all.take(errors@.len() as int),
            forall|i: int|
                0 <= i < reversed@.len() ==> (#[trigger] reversed@[i]).0 == all[all.len() - 1
                    - i].0 && reversed@[i].1@ == all[all.len() - 1 - i].1.spec_message(),
        decreases errors@.len(),
    {
        match errors.pop() {
            Some((path, error)) => {
                let text = error.message();
                reversed.push((path, text));
                assert(errors@ =~= all.take(errors@.len() as int));
            },
            None => {},
        }
    }
    let mut rendered: Vec<(PathBuf, String)> = Vec::new();
    while reversed.len() > 0
        invariant
            rendered@.len() + reversed@.len() == all.len(),
            forall|i: int|
                0 <= i < reversed@.len() ==> (#[trigger] reversed@[i]).0 == all[all.len() - 1
                    - i].0 && reversed@[i].1@ == all[all.len() - 1 - i].1.spec_message(),
            forall|i: int|
                0 <= i < rendered@.len() ==> (#[trigger] rendered@[i]).0 == all[i].0
                    && rendered@[i].1@ == all[i].1.spec_message(),
        decreases reversed@.len(),
    {
        match reversed.pop() {
            Some(entry) => {
                rendered.push(entry);
            },
            None => {},
        }
    }
    rendered
}

/// The second half of `LoadTracks`: the tracks that could be loaded go
/// into the list at `position`, and the response names the files that
/// could not be loaded.
pub fn finish_load_tracks<S>(
    player: &mut Player<S>,
    position: InsertPosition,
    tracks: &[Arc<Track>],
    errors: Vec<(PathBuf, LoadTrackError)>,
) -> (done: (Response, Step))
    requires
        old(player).wf(),
        old(player)@.tracks.len() + tracks@.len() <= usize::MAX,
    ensures
        final(player).wf(),
        old(player)@.tracks_inserted(position, tracks@, final(player)@, done.1),
        done.0 matches Response::LoadErrors(rendered) && renders(errors@, rendered@),
{
    let step = player.insert_tracks(position, tracks);
    (Response::LoadErrors(render_errors(errors)), step)
}

/// A message as it goes over the line: followed by a line feed.
pub fn frame(message: String) -> (line: String)
    ensures
        line@ == message@.push('\n'),
{
    let mut line = message;
    proof {
        reveal_strlit("\n");
    }
    line.append("\n");
    assert(line@ =~= message@.push('\n'));
    line
}

} // verus!
