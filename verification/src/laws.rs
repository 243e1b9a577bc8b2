//! What follows from the contracts of the player and of its track list.

use crate::atomic_control_status::{
    loop_mode_code, loop_mode_of, playback_state_code, playback_state_of,
};
use crate::controls::{bumped, Controls, ReadBack, SourceEvent};
use crate::decoder::spec_clamp_seek;
use crate::order::{is_identity, is_permutation, shifted, spliced};
use crate::player_model::{last_announced, PlayerView, Step};
use crate::requests::{handled, QualifiedRequest, Reply, Response};
use crate::track_cache::{
    errors_in, errors_of, nested_tracks, own_keys, own_tracks, tracks_in, tracks_of, Found,
};
use crate::track_order::{arranged, lemma_arranged_keeps_tracks, lemma_stable_order, stable_order};
use crate::time::Duration;
use crate::track_list::TrackListView;
use crate::types::{
    Event, InsertPosition, LoopMode, PlaybackState, SeekPosition, Track, Version,
};
use crate::volume::{clamp_bits, Volume, FULL_BITS};
use std::sync::Arc;
use vstd::prelude::*;

verus! {

/// What the invariant of the player says, spelled out: the two sequences of
/// the track list are of one length and the playing order is a permutation;
/// the current index is inside the list, or 0 in an empty list; a stopped
/// player has an empty slot and stands at zero; the volume is not above
/// full; and the state that was announced last is the state of the player.
pub proof fn law_invariants<S>(player: PlayerView<S>)
    requires
        player.wf(),
    ensures
        player.tracks.tracks.len() == player.tracks.order.len(),
        is_permutation(player.tracks.order),
        !player.tracks.shuffle ==> is_identity(player.tracks.order),
        0 <= player.current_index,
        player.tracks.len() == 0 ==> player.current_index == 0,
        player.tracks.len() > 0 ==> player.current_index < player.tracks.len(),
        player.controls.playback_state is Stopped ==> player.controls.source_queue is Empty
            && player.controls.position@ == 0,
        player.controls.volume@ <= FULL_BITS,
        forall|state: PlaybackState|
            last_announced(player.events) == Some(state) ==> state
                == player.controls.playback_state,
{
}

/// The operations of the player that are functions of its state keep its
/// invariant.
pub proof fn law_invariant_kept<S>(
    player: PlayerView<S>,
    soft: bool,
    loop_mode: LoopMode,
    volume: Volume,
    target: SeekPosition,
    source: S,
    then: Option<Arc<Track>>,
    start: bool,
)
    requires
        player.wf(),
        volume@ <= FULL_BITS,
    ensures
        player.play().0.wf(),
        player.pause().wf(),
        player.toggle_playback().0.wf(),
        player.stop().wf(),
        player.go_to_next_track().0.wf(),
        player.go_to_previous_track(soft).0.wf(),
        player.set_loop_mode(loop_mode).wf(),
        player.set_volume(volume).wf(),
        player.seek(target).0.wf(),
        player.clear_tracks().wf(),
        player.install(source, then, start).0.wf(),
        player.preload(source).0.wf(),
{
    Duration::lemma_of_nanos(0);
    crate::player_model::lemma_last_announced_push(
        player.events,
        Event::PlaybackStateChanged(PlaybackState::Playing),
    );
    crate::player_model::lemma_last_announced_push(
        player.events,
        Event::PlaybackStateChanged(PlaybackState::Paused),
    );
    crate::player_model::lemma_last_announced_push(
        player.events,
        Event::PlaybackStateChanged(PlaybackState::Stopped),
    );
    crate::player_model::lemma_last_announced_push(player.events, Event::CurrentTrackChanged);
    crate::player_model::lemma_last_announced_push(
        player.events.push(Event::CurrentTrackChanged),
        Event::PlaybackStateChanged(PlaybackState::Stopped),
    );
    crate::player_model::lemma_last_announced_push(
        player.events,
        Event::LoopModeChanged(loop_mode),
    );
    crate::player_model::lemma_last_announced_push(player.events, Event::VolumeChanged(volume));
    crate::player_model::lemma_last_announced_push(
        player.events.push(Event::PlaybackStateChanged(PlaybackState::Stopped)),
        Event::CurrentTrackChanged,
    );
}

/// After the list is cleared it is empty, the current index is 0, and the
/// player is stopped.
pub proof fn law_clear_tracks<S>(player: PlayerView<S>)
    ensures
        player.clear_tracks().tracks.len() == 0,
        player.clear_tracks().current_index == 0,
        player.clear_tracks().controls.playback_state is Stopped,
{
}

/// Shuffle on and off again, on the track list: the track that was current
/// is current at its own index, and the playing order is the order of
/// insertion.
pub proof fn law_shuffle_round_trip(
    list: TrackListView,
    current_index: usize,
    shuffled: TrackListView,
    shuffled_index: usize,
    ordered: TrackListView,
    ordered_index: usize,
)
    requires
        list.wf(),
        list.len() == 0 || current_index < list.len(),
        list.shuffle_set(true, current_index, shuffled, shuffled_index),
        shuffled.shuffle_set(false, shuffled_index, ordered, ordered_index),
    ensures
        ordered.tracks == list.tracks,
        is_identity(ordered.order),
        list.len() > 0 ==> ordered_index == list.order[current_index as int],
        ordered.get_track(ordered_index as int) == list.get_track(current_index as int),
        list.len() > 0 ==> shuffled.track_at(shuffled_index as int) == list.track_at(
            current_index as int,
        ),
{
}

/// Shuffle on and off again, on a player whose shuffle was off: the list
/// and the current index are what they were.
pub proof fn law_player_shuffle_round_trip<S>(
    player: PlayerView<S>,
    shuffled: PlayerView<S>,
    first: Step,
    ordered: PlayerView<S>,
    second: Step,
)
    requires
        player.wf(),
        !player.tracks.shuffle,
        player.shuffle_set(true, shuffled, first),
        shuffled.shuffle_set(false, ordered, second),
    ensures
        ordered.tracks == player.tracks,
        ordered.current_index == player.current_index,
        ordered.current_track() == player.current_track(),
        shuffled.current_track() == player.current_track(),
        ordered.controls == player.controls,
{
    assert(ordered.tracks.order =~= player.tracks.order);
}

/// The volume that was set is the volume of the player: the value that was
/// asked for, clamped.
pub proof fn law_volume_round_trip<S>(player: PlayerView<S>, bits: u32, volume: Volume)
    requires
        volume@ == clamp_bits(bits),
    ensures
        player.set_volume(volume).controls.volume@ == clamp_bits(bits),
        player.set_volume(volume).controls.volume@ <= FULL_BITS,
{
}

/// The loop mode that was set is the loop mode of the player.
pub proof fn law_loop_mode_round_trip<S>(player: PlayerView<S>, loop_mode: LoopMode)
    ensures
        player.set_loop_mode(loop_mode).controls.loop_mode == loop_mode,
{
}

/// A seek to an offset, on a player with a source in its slot and nothing
/// to skip, reaches the source at its next read-back as that offset,
/// wherever the source stands.
pub proof fn law_seek_reaches_source<S>(
    player: PlayerView<S>,
    offset: Duration,
    current_position: Duration,
)
    requires
        !(player.controls.source_queue is Empty),
        player.controls.to_skip == 0,
    ensures
        player.seek(SeekPosition::To(offset)).1 == Step::AwaitSeek,
        player.seek(SeekPosition::To(offset)).0.controls.read_back_answer(current_position)
            matches ReadBack::Apply { seek, .. } && seek == Some(offset),
        player.seek(SeekPosition::To(offset)).0.controls.after_read_back().seek_position is None,
{
}

/// Toggling twice: a playing player plays again, a paused player is paused
/// again.
pub proof fn law_toggle_twice<S>(player: PlayerView<S>)
    requires
        !player.is_stopped(),
    ensures
        player.toggle_playback().0.toggle_playback().0.controls.playback_state
            == player.controls.playback_state,
        player.toggle_playback().1 == Step::Done,
        player.toggle_playback().0.toggle_playback().1 == Step::Done,
{
}

/// Toggling twice from stopped, with a track to play: the first toggle asks
/// for the source of the current track, the player plays once the source is
/// in place, and the second toggle pauses it.
pub proof fn law_toggle_twice_from_stopped<S>(player: PlayerView<S>, source: S)
    requires
        player.wf(),
        player.is_stopped(),
        player.tracks.len() > 0,
    ensures
        player.toggle_playback().0 == player,
        player.toggle_playback().1 == (Step::Load {
            track: player.tracks.track_at(player.current_index as int),
            then: player.tracks.get_track(player.current_index + 1),
            start: true,
        }),
        player.install(
            source,
            player.tracks.get_track(player.current_index + 1),
            true,
        ).0.controls.playback_state is Playing,
        player.install(
            source,
            player.tracks.get_track(player.current_index + 1),
            true,
        ).0.toggle_playback().0.controls.playback_state is Paused,
{
}

/// A stopped player with an empty list stays stopped when toggled.
pub proof fn law_toggle_stopped_empty<S>(player: PlayerView<S>)
    requires
        player.wf(),
        player.is_stopped(),
        player.tracks.len() == 0,
    ensures
        player.toggle_playback() == (player, Step::Done),
{
}

/// Going on from the last track with the loop off: the player stops at the
/// first track.
pub proof fn law_next_past_end_stops<S>(player: PlayerView<S>)
    requires
        player.wf(),
        player.current_index + 1 >= player.tracks.len(),
        player.controls.loop_mode is Off,
    ensures
        player.go_to_next_track().0.controls.playback_state is Stopped,
        player.go_to_next_track().0.current_index == 0,
        player.go_to_next_track().0.controls.source_queue is Empty,
        player.go_to_next_track().1 == Step::Done,
{
}

/// Going on from the last track with a loop on: the player goes on as it
/// was at the first track, and one that is not stopped asks for the source
/// of the first track.
pub proof fn law_next_past_end_wraps<S>(player: PlayerView<S>)
    requires
        player.wf(),
        player.tracks.len() > 0,
        player.current_index + 1 == player.tracks.len(),
        !(player.controls.loop_mode is Off),
    ensures
        player.go_to_next_track().0.controls.playback_state == player.controls.playback_state,
        player.go_to_next_track().0.current_index == 0,
        !player.is_stopped() ==> player.go_to_next_track().1 == (Step::Load {
            track: player.tracks.track_at(0),
            then: player.tracks.get_track(1),
            start: false,
        }),
{
}

/// Going back softly, more than five seconds into the track: the current
/// index stays, and a player with a source in its slot is left with a seek
/// to the start.
pub proof fn law_soft_previous_restarts<S>(player: PlayerView<S>)
    requires
        player.controls.position@ > 5_000_000_000,
    ensures
        player.go_to_previous_track(true).0.current_index == player.current_index,
        player.go_to_previous_track(true).0.tracks == player.tracks,
        player.go_to_previous_track(true).0.controls.playback_state
            == player.controls.playback_state,
        !(player.controls.source_queue is Empty) ==> player.go_to_previous_track(
            true,
        ).0.controls.seek_position == Some(SeekPosition::To(Duration::of_nanos(0)))
            && player.go_to_previous_track(true).1 == Step::AwaitSeek,
        player.controls.source_queue is Empty ==> player.go_to_previous_track(true) == (
            player,
            Step::Done,
        ),
{
}

/// Inserting into an empty list at `Next` is inserting at `End`.
pub proof fn law_next_into_empty_is_end(
    list: TrackListView,
    current_index: usize,
    new: Seq<Arc<Track>>,
    post: TrackListView,
    new_index: usize,
)
    requires
        list.len() == 0,
    ensures
        list.inserted(current_index, InsertPosition::Next, new, post, new_index)
            == list.inserted(current_index, InsertPosition::End, new, post, new_index),
{
}

/// Inserting, other than by replacing, leaves the current track the current
/// track. With shuffle off the current index moves up by the number of new
/// tracks if they go in at or before it, and stays if they go in behind it.
pub proof fn law_insert_keeps_current(
    list: TrackListView,
    current_index: usize,
    position: InsertPosition,
    new: Seq<Arc<Track>>,
    post: TrackListView,
    new_index: usize,
)
    requires
        list.wf(),
        current_index < list.len(),
        !(position is Replace),
        list.inserted(current_index, position, new, post, new_index),
    ensures
        post.get_track(new_index as int) == list.get_track(current_index as int),
        post.len() == list.len() + new.len(),
        !list.shuffle && list.insert_index(current_index, position) <= current_index
            ==> new_index == current_index + new.len(),
        !list.shuffle && list.insert_index(current_index, position) > current_index ==> new_index
            == current_index,
{
    let at = list.insert_index(current_index, position) as int;
    let x = list.order[current_index as int];
    assert(post.tracks == spliced(list.tracks, at, new));
    assert(post.order[new_index as int] == shifted(x, at, new.len() as int));
}

/// Setting the volume by a request and asking for it by the next: the
/// answer is the value that was asked for, clamped.
pub proof fn law_set_then_query_volume<S>(
    pre: PlayerView<S>,
    version: Version,
    bits: u32,
    volume: Volume,
    set: PlayerView<S>,
    first: Reply,
    post: PlayerView<S>,
    second: Reply,
)
    requires
        volume@ == clamp_bits(bits),
        handled(pre, version, QualifiedRequest::SetVolume(volume), set, first),
        handled(set, version, QualifiedRequest::QueryVolume, post, second),
    ensures
        first == Reply::Respond(Response::Handled),
        second matches Reply::Respond(Response::Volume(answer)) && answer@ == clamp_bits(bits)
            && answer@ <= FULL_BITS,
        post == set,
{
}

/// Setting the loop mode by a request and asking for it by the next: the
/// answer is the mode that was set.
pub proof fn law_set_then_query_loop_mode<S>(
    pre: PlayerView<S>,
    version: Version,
    loop_mode: LoopMode,
    set: PlayerView<S>,
    first: Reply,
    post: PlayerView<S>,
    second: Reply,
)
    requires
        handled(pre, version, QualifiedRequest::SetLoopMode(loop_mode), set, first),
        handled(set, version, QualifiedRequest::QueryLoopMode, post, second),
    ensures
        first == Reply::Respond(Response::Handled),
        second == Reply::Respond(Response::LoopMode(loop_mode)),
        post == set,
{
}

/// How many tracks were found.
pub open spec fn track_count(found: Found) -> nat
    decreases found,
{
    match found {
        Found::Track { .. } => 1,
        Found::Failed { .. } => 0,
        Found::Directory { entries } => track_count_in(entries@, entries@.len()),
    }
}

/// How many tracks were found in the first `upto` of `found`.
pub open spec fn track_count_in(found: Seq<Found>, upto: nat) -> nat
    decreases found, upto,
{
    if upto == 0 || upto > found.len() {
        0
    } else {
        track_count_in(found, (upto - 1) as nat) + track_count(found[upto - 1])
    }
}

/// How many failures were met.
pub open spec fn failure_count(found: Found) -> nat
    decreases found,
{
    match found {
        Found::Track { .. } => 0,
        Found::Failed { .. } => 1,
        Found::Directory { entries } => failure_count_in(entries@, entries@.len()),
    }
}

/// How many failures were met in the first `upto` of `found`.
pub open spec fn failure_count_in(found: Seq<Found>, upto: nat) -> nat
    decreases found, upto,
{
    if upto == 0 || upto > found.len() {
        0
    } else {
        failure_count_in(found, (upto - 1) as nat) + failure_count(found[upto - 1])
    }
}

/// A failure takes nothing away: as many tracks come of what was found as
/// files were loaded, and as many failures are reported as were met.
pub proof fn law_nothing_lost(found: Found)
    ensures
        tracks_of(found).len() == track_count(found),
        errors_of(found).len() == failure_count(found),
    decreases found,
{
    match found {
        Found::Directory { entries } => {
            law_nothing_lost_in(entries@, entries@.len());
            assert(entries@.len() == entries.len());
            lemma_stable_order(own_keys(entries@, entries@.len()));
        },
        _ => {},
    }
}

/// The same of the first `upto` of `found`: of a list of paths, and of the
/// entries of a directory.
pub proof fn law_nothing_lost_in(found: Seq<Found>, upto: nat)
    requires
        upto <= found.len(),
    ensures
        tracks_in(found, upto).len() == track_count_in(found, upto),
        errors_in(found, upto).len() == failure_count_in(found, upto),
        own_tracks(found, upto).len() + nested_tracks(found, upto).len() == track_count_in(
            found,
            upto,
        ),
        own_keys(found, upto).len() == own_tracks(found, upto).len(),
        own_tracks(found, upto).len() <= upto,
    decreases found, upto,
{
    if upto > 0 {
        law_nothing_lost_in(found, (upto - 1) as nat);
        law_nothing_lost(found[upto - 1]);
    }
}

/// Clamping a volume brings it into the range, and leaves alone what is in
/// the range already.
pub proof fn law_clamp(bits: u32)
    ensures
        clamp_bits(bits) <= FULL_BITS,
        bits <= FULL_BITS ==> clamp_bits(bits) == bits,
        clamp_bits(clamp_bits(bits)) == clamp_bits(bits),
{
}

/// A stopped player stands at the start of its track: its position is the
/// empty span.
pub proof fn law_stopped_at_zero<S>(player: PlayerView<S>)
    requires
        player.wf(),
        player.is_stopped(),
    ensures
        player.controls.position == Duration::of_nanos(0),
{
    Duration::lemma_of_nanos(0);
    Duration::lemma_view_injective(player.controls.position, Duration::of_nanos(0));
}

/// A state and a loop mode that go into a shared cell come out of it as
/// they went in: each is read back from its own number.
pub proof fn law_codes_round_trip(state: PlaybackState, mode: LoopMode)
    ensures
        playback_state_of(playback_state_code(state)) == state,
        loop_mode_of(loop_mode_code(mode)) == mode,
{
}

/// The files that were loaded, in the order in which they were found.
pub open spec fn found_tracks(found: Found) -> Seq<Arc<Track>>
    decreases found,
{
    match found {
        Found::Track { track, .. } => seq![track],
        Found::Failed { .. } => Seq::empty(),
        Found::Directory { entries } => found_tracks_in(entries@, entries@.len()),
    }
}

/// The files that were loaded among the first `upto` of `found`.
pub open spec fn found_tracks_in(found: Seq<Found>, upto: nat) -> Seq<Arc<Track>>
    decreases found, upto,
{
    if upto == 0 || upto > found.len() {
        Seq::empty()
    } else {
        found_tracks_in(found, (upto - 1) as nat) + found_tracks(found[upto - 1])
    }
}

/// The tracks that come of what was found are the files that were loaded,
/// each as often as it was found: ordering them loses none and adds none.
pub proof fn law_every_track_once(found: Found)
    ensures
        tracks_of(found).to_multiset() == found_tracks(found).to_multiset(),
    decreases found,
{
    match found {
        Found::Directory { entries } => {
            let all = entries@;
            let count = all.len();
            law_every_track_once_in(all, count);
            law_nothing_lost_in(all, count);
            assert(entries@.len() == entries.len());
            let own = own_tracks(all, count);
            let keys = own_keys(all, count);
            lemma_arranged_keeps_tracks(own, keys);
            vstd::seq_lib::lemma_multiset_commutative(
                arranged(own, stable_order(keys)),
                nested_tracks(all, count),
            );
        },
        _ => {},
    }
}

/// The same of the first `upto` of `found`: of a list of paths, and of the
/// entries of a directory.
pub proof fn law_every_track_once_in(found: Seq<Found>, upto: nat)
    requires
        upto <= found.len(),
    ensures
        tracks_in(found, upto).to_multiset() == found_tracks_in(found, upto).to_multiset(),
        own_tracks(found, upto).to_multiset().add(nested_tracks(found, upto).to_multiset())
            == found_tracks_in(found, upto).to_multiset(),
    decreases found, upto,
{
    vstd::seq_lib::to_multiset_len(Seq::<Arc<Track>>::empty());
    if upto == 0 {
        assert(tracks_in(found, 0) =~= found_tracks_in(found, 0));
        assert(own_tracks(found, 0).to_multiset().add(nested_tracks(found, 0).to_multiset())
            =~= found_tracks_in(found, 0).to_multiset());
    } else {
        let last = (upto - 1) as nat;
        let entry = found[last as int];
        law_every_track_once_in(found, last);
        law_every_track_once(entry);
        vstd::seq_lib::lemma_multiset_commutative(tracks_in(found, last), tracks_of(entry));
        vstd::seq_lib::lemma_multiset_commutative(
            found_tracks_in(found, last),
            found_tracks(entry),
        );
        match entry {
            Found::Track { track, .. } => {
                vstd::seq_lib::to_multiset_build(own_tracks(found, last), track);
                assert(found_tracks(entry) =~= Seq::empty().push(track));
                vstd::seq_lib::to_multiset_build(Seq::<Arc<Track>>::empty(), track);
                assert(own_tracks(found, upto).to_multiset().add(
                    nested_tracks(found, upto).to_multiset(),
                ) =~= found_tracks_in(found, upto).to_multiset());
            },
            Found::Failed { .. } => {
                assert(found_tracks_in(found, upto) =~= found_tracks_in(found, last));
            },
            Found::Directory { .. } => {
                vstd::seq_lib::lemma_multiset_commutative(
                    nested_tracks(found, last),
                    tracks_of(entry),
                );
                assert(own_tracks(found, upto).to_multiset().add(
                    nested_tracks(found, upto).to_multiset(),
                ) =~= found_tracks_in(found, upto).to_multiset());
            },
        }
    }
}

/// With shuffle off an insertion has one result only.
pub proof fn law_insert_in_order_is_determined(
    list: TrackListView,
    current_index: usize,
    position: InsertPosition,
    new: Seq<Arc<Track>>,
    first: TrackListView,
    first_index: usize,
    second: TrackListView,
    second_index: usize,
)
    requires
        !list.shuffle,
        list.inserted(current_index, position, new, first, first_index),
        list.inserted(current_index, position, new, second, second_index),
    ensures
        first == second,
        first_index == second_index,
{
    assert(first.order =~= second.order);
}

/// Pausing does not take a player out of its stop, and a player that was
/// paused while it played plays again when asked to.
pub proof fn law_pause_does_not_override_stop<S>(player: PlayerView<S>)
    ensures
        player.is_stopped() ==> player.pause() == player,
        player.controls.playback_state is Playing ==> player.pause().controls.playback_state
            is Paused,
        player.controls.playback_state is Playing ==> player.pause().play().0.controls.playback_state
            is Playing && player.pause().play().1 == Step::Done,
{
}

/// A seek beyond the end of a track goes to its end.
pub proof fn law_seek_clamp(target: Duration, total: Duration)
    ensures
        target@ >= total@ ==> spec_clamp_seek(target, Some(total)) == total,
        target@ <= total@ ==> spec_clamp_seek(target, Some(total)) == target,
        spec_clamp_seek(target, None) == target,
{
    if target@ == total@ {
        Duration::lemma_view_injective(target, total);
    }
}

/// Replacing the list of a player that is not stopped: the list is the new
/// tracks, the first of them is current and its source is asked for, what
/// plays is told to end, the state stays, and the change of track is the
/// one event.
pub proof fn law_replace_while_playing<S>(
    player: PlayerView<S>,
    new: Seq<Arc<Track>>,
    post: PlayerView<S>,
    step: Step,
)
    requires
        player.wf(),
        !player.is_stopped(),
        !(player.controls.source_queue is Empty),
        !player.tracks.shuffle,
        new.len() > 0,
        player.tracks_inserted(InsertPosition::Replace, new, post, step),
    ensures
        post.tracks.tracks == new,
        post.current_index == 0,
        post.current_track() == Some(new[0]),
        post.controls.playback_state == player.controls.playback_state,
        post.controls.to_skip == bumped(player.controls.to_skip),
        post.events == player.events.push(Event::CurrentTrackChanged),
        step == (Step::Load {
            track: new[0],
            then: if new.len() > 1 {
                Some(new[1])
            } else {
                None
            },
            start: false,
        }),
{
    assert(post.tracks.tracks =~= new);
}

/// One track after the other without a gap: a stopped player with two
/// tracks or more, with no loop, is played. The source of the first track
/// goes into the slot and is taken by the output; the source of the second
/// follows it into the slot while the first plays. When the first comes to
/// its end the second is there for the output to take at once, and the
/// player, told of the end, makes the second track the current one and
/// goes on playing.
pub proof fn law_gapless_next<S>(player: PlayerView<S>, first: S, second: S)
    requires
        player.wf(),
        player.is_stopped(),
        player.current_index == 0,
        player.tracks.len() >= 2,
        !(player.controls.loop_mode is Track),
    ensures
        ({
            let asked = player.play();
            let armed = asked.0.install(first, player.tracks.get_track(1), true);
            let taken = PlayerView {
                controls: Controls {
                    source_queue: armed.0.controls.source_queue.consumed(),
                    ..armed.0.controls
                },
                ..armed.0
            };
            let ahead = taken.preload(second);
            let ended = PlayerView { controls: ahead.0.controls.after_source_ended(), ..ahead.0 };
            let next = PlayerView {
                controls: Controls {
                    source_queue: ended.controls.source_queue.consumed(),
                    ..ended.controls
                },
                ..ended
            };
            let told = next.handle_source_event(SourceEvent::Finished);
            &&& asked.1 == (Step::Load {
                track: player.tracks.track_at(0),
                then: Some(player.tracks.track_at(1)),
                start: true,
            })
            &&& armed.1 == (Step::Preload { track: player.tracks.track_at(1) })
            &&& armed.0.controls.playback_state is Playing
            &&& armed.0.controls.source_queue.armed() == Some(first)
            &&& ahead.1 is None
            &&& ended.controls.source_queue.armed() == Some(second)
            &&& told.0.current_index == 1
            &&& told.0.controls.playback_state is Playing
            &&& told.0.controls.source_queue is Playing
            &&& told.0.controls.to_skip == player.controls.to_skip
        }),
{
}

} // verus!
