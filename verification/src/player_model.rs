//! What the player does, stated over plain values: every operation of the
//! player as a function from the state before it to the state after it.

use crate::controls::{bumped, Controls, SourceEvent};
use crate::source_queue::SourceQueueState;
use crate::time::Duration;
use crate::track_list::TrackListView;
use crate::types::{Event, InsertPosition, LoopMode, PlaybackState, SeekPosition, Track};
use crate::volume::Volume;
use std::sync::Arc;
use vstd::prelude::*;

verus! {

/// How far into a track `previous` starts the track over instead of going
/// back by one, in seconds.
pub const RESTART_THRESHOLD_SECS: u64 = 5;

/// What is left to do outside the player after one of its operations.
#[derive(Debug)]
pub enum Step {
    /// Nothing.
    Done,
    /// Open a source for `track` and hand it to `install`, with `then` and
    /// `start` as they are here.
    Load { track: Arc<Track>, then: Option<Arc<Track>>, start: bool },
    /// Open a source for `track` and hand it to `preload`, again and again
    /// until `preload` keeps it.
    Preload { track: Arc<Track> },
    /// A seek is pending: wait for the answer of the audio side.
    AwaitSeek,
}

/// The state that the last `PlaybackStateChanged` among `events` announces,
/// if there is one.
pub open spec fn last_announced(events: Seq<Event>) -> Option<PlaybackState>
    decreases events.len(),
{
    if events.len() == 0 {
        None
    } else {
        match events.last() {
            Event::PlaybackStateChanged(state) => Some(state),
            _ => last_announced(events.drop_last()),
        }
    }
}

/// What `last_announced` is after one more event.
pub proof fn lemma_last_announced_push(events: Seq<Event>, event: Event)
    ensures
        last_announced(events.push(event)) == match event {
            Event::PlaybackStateChanged(state) => Some(state),
            _ => last_announced(events),
        },
{
    assert(events.push(event).drop_last() =~= events);
}

/// The player, as plain values.
pub struct PlayerView<S> {
    pub tracks: TrackListView,
    /// The position of the current track in the playing order.
    pub current_index: usize,
    pub controls: Controls<S>,
    /// The events that were emitted and not yet taken.
    pub events: Seq<Event>,
}

impl<S> PlayerView<S> {
    /// What holds of the player between any two operations:
    /// - the track list is well formed;
    /// - the current index is inside the list, or 0 in an empty list;
    /// - while the player is stopped no source is armed and the position is
    ///   zero;
    /// - the last state that an event announced is the state of the player.
    pub open spec fn wf(self) -> bool {
        &&& self.tracks.wf()
        &&& self.current_index == 0 || self.current_index < self.tracks.len()
        &&& self.controls.wf()
        &&& match last_announced(self.events) {
            Some(state) => state == self.controls.playback_state,
            None => true,
        }
    }

    pub open spec fn is_stopped(self) -> bool {
        self.controls.playback_state is Stopped
    }

    /// The track that is current, if the list holds any.
    pub open spec fn current_track(self) -> Option<Arc<Track>> {
        self.tracks.get_track(self.current_index as int)
    }

    pub open spec fn emit(self, event: Event) -> PlayerView<S> {
        PlayerView { events: self.events.push(event), ..self }
    }

    /// Emits `event` if `wanted`.
    pub open spec fn emit_if(self, wanted: bool, event: Event) -> PlayerView<S> {
        if wanted {
            self.emit(event)
        } else {
            self
        }
    }

    /// The state changes to `state`, and is announced if that is a change.
    pub open spec fn set_playback_state(self, state: PlaybackState) -> PlayerView<S> {
        if self.controls.playback_state == state {
            self
        } else {
            PlayerView { controls: Controls { playback_state: state, ..self.controls }, ..self }.emit(
                Event::PlaybackStateChanged(state),
            )
        }
    }

    /// Pausing affects a playing player only: a stopped one stays stopped.
    pub open spec fn pause(self) -> PlayerView<S> {
        if self.controls.playback_state is Playing {
            self.set_playback_state(PlaybackState::Paused)
        } else {
            self
        }
    }

    /// The slot is emptied; if it was in use, one more source is to end.
    pub open spec fn clear_source_queue(self) -> PlayerView<S> {
        PlayerView {
            controls: Controls {
                to_skip: if self.controls.source_queue is Empty {
                    self.controls.to_skip
                } else {
                    bumped(self.controls.to_skip)
                },
                source_queue: SourceQueueState::Empty,
                ..self.controls
            },
            ..self
        }
    }

    /// Stopping empties the slot, ends what plays, and resets the position.
    pub open spec fn stop(self) -> PlayerView<S> {
        let cleared = self.clear_source_queue();
        let reset = PlayerView {
            controls: Controls { position: Duration::of_nanos(0), ..cleared.controls },
            ..cleared
        };
        reset.set_playback_state(PlaybackState::Stopped)
    }

    /// The current track is to play. With `use_queued` the source that is
    /// armed or playing is taken to be the one of the current track, and is
    /// left alone; without it, what plays is told to end, an armed source is
    /// dropped, and the current track is loaded afresh. An empty slot is
    /// always loaded. With `start` the player starts playing once the source
    /// of the current track is in place. The track behind the current one is
    /// loaded ahead. Without a current track nothing happens.
    pub open spec fn queue_current_track(self, use_queued: bool, start: bool) -> (
        PlayerView<S>,
        Step,
    ) {
        match self.tracks.tracks_to_queue(self.current_index as int) {
            None => (self, Step::Done),
            Some((current, next)) => {
                if self.controls.source_queue is Empty {
                    (self, Step::Load { track: current, then: next, start })
                } else if !use_queued {
                    (
                        PlayerView {
                            controls: Controls {
                                to_skip: bumped(self.controls.to_skip),
                                source_queue: self.controls.source_queue.invalidated(),
                                ..self.controls
                            },
                            ..self
                        },
                        Step::Load { track: current, then: next, start },
                    )
                } else {
                    (
                        if start {
                            self.set_playback_state(PlaybackState::Playing)
                        } else {
                            self
                        },
                        match next {
                            Some(track) => Step::Preload { track },
                            None => Step::Done,
                        },
                    )
                }
            },
        }
    }

    /// A stopped player loads the current track and starts once it is in
    /// place; with an empty list it stays stopped. A paused player plays
    /// again.
    pub open spec fn play(self) -> (PlayerView<S>, Step) {
        if self.is_stopped() {
            self.queue_current_track(true, true)
        } else {
            (self.set_playback_state(PlaybackState::Playing), Step::Done)
        }
    }

    pub open spec fn toggle_playback(self) -> (PlayerView<S>, Step) {
        if self.controls.playback_state is Playing {
            (self.pause(), Step::Done)
        } else {
            self.play()
        }
    }

    /// Whether running off either end of the list starts over at the other.
    pub open spec fn wraps(self) -> bool {
        !(self.controls.loop_mode is Off) && self.tracks.len() > 0
    }

    /// The current position moves to `index`; on a list with tracks that is
    /// announced.
    pub open spec fn move_to(self, index: usize) -> PlayerView<S> {
        PlayerView { current_index: index, ..self }.emit_if(
            self.tracks.len() > 0,
            Event::CurrentTrackChanged,
        )
    }

    /// The list has been run off: forward, or backward if `reverse`. Without
    /// a loop the player stops at the first track. With one it goes on at
    /// the other end of the list, unless it is stopped, in which case only
    /// the position moves.
    pub open spec fn stop_or_wrap_track(self, reverse: bool) -> (PlayerView<S>, Step) {
        if !self.wraps() {
            (self.move_to(0).stop(), Step::Done)
        } else {
            let moved = self.move_to(
                if reverse {
                    (self.tracks.len() - 1) as usize
                } else {
                    0
                },
            );
            if moved.is_stopped() {
                (moved, Step::Done)
            } else {
                moved.queue_current_track(false, false)
            }
        }
    }

    /// On to the next track of the playing order. A source that is armed or
    /// playing is taken to be the one that was loaded ahead.
    pub open spec fn go_to_next_track(self) -> (PlayerView<S>, Step) {
        if self.current_index + 1 >= self.tracks.len() {
            self.stop_or_wrap_track(false)
        } else {
            let moved = self.move_to((self.current_index + 1) as usize);
            if moved.is_stopped() {
                (moved, Step::Done)
            } else {
                moved.queue_current_track(true, false)
            }
        }
    }

    /// With no source in the slot there is nothing to seek in. Otherwise the
    /// seek is left for the next read-back.
    pub open spec fn seek(self, target: SeekPosition) -> (PlayerView<S>, Step) {
        if self.controls.source_queue is Empty {
            (self, Step::Done)
        } else {
            (
                PlayerView {
                    controls: Controls { seek_position: Some(target), ..self.controls },
                    ..self
                },
                Step::AwaitSeek,
            )
        }
    }

    /// Whether `previous` starts the current track over: if asked to go
    /// softly, and the track is more than five seconds in.
    pub open spec fn restarts(self, soft: bool) -> bool {
        soft && self.controls.position@ > RESTART_THRESHOLD_SECS * 1_000_000_000
    }

    /// Back to the previous track of the playing order, or to the start of
    /// the current one.
    pub open spec fn go_to_previous_track(self, soft: bool) -> (PlayerView<S>, Step) {
        if self.restarts(soft) {
            self.seek(SeekPosition::To(Duration::of_nanos(0)))
        } else if self.current_index == 0 {
            self.stop_or_wrap_track(true)
        } else {
            let moved = self.move_to((self.current_index - 1) as usize);
            if moved.is_stopped() {
                (moved, Step::Done)
            } else {
                moved.queue_current_track(false, false)
            }
        }
    }

    pub open spec fn set_loop_mode(self, loop_mode: LoopMode) -> PlayerView<S> {
        PlayerView { controls: Controls { loop_mode, ..self.controls }, ..self }.emit_if(
            loop_mode != self.controls.loop_mode,
            Event::LoopModeChanged(loop_mode),
        )
    }

    pub open spec fn set_volume(self, volume: Volume) -> PlayerView<S> {
        PlayerView { controls: Controls { volume, ..self.controls }, ..self }.emit_if(
            volume != self.controls.volume,
            Event::VolumeChanged(volume),
        )
    }

    /// The player stops, and the list is emptied.
    pub open spec fn clear_tracks(self) -> PlayerView<S> {
        let stopped = self.stop();
        PlayerView { tracks: self.tracks.cleared(), current_index: 0, ..stopped }.emit_if(
            self.tracks.len() > 0,
            Event::CurrentTrackChanged,
        )
    }

    /// Whether `post` and `step` are a result of switching shuffle to
    /// `shuffle`. The track that is current stays current, and what plays
    /// goes on playing; unless the player is stopped, the track that now
    /// follows the current one is loaded in place of what was loaded ahead.
    pub open spec fn shuffle_set(self, shuffle: bool, post: PlayerView<S>, step: Step) -> bool {
        if shuffle == self.tracks.shuffle {
            post == self && step == Step::Done
        } else {
            &&& self.tracks.shuffle_set(shuffle, self.current_index, post.tracks, post.current_index)
            &&& post.controls == self.controls
            &&& post.events == self.events.push(Event::ShuffleChanged(shuffle))
            &&& step == if self.is_stopped() {
                Step::Done
            } else {
                match post.tracks.tracks_to_queue(post.current_index as int) {
                    Some((_, Some(track))) => Step::Load { track, then: None, start: false },
                    _ => Step::Done,
                }
            }
        }
    }

    /// Whether inserting `count` tracks at `position` makes another track
    /// the current one: if the list is replaced or was empty, unless it was
    /// empty and stays so.
    pub open spec fn insertion_changes_track(self, position: InsertPosition, count: nat) -> bool {
        (position is Replace || self.tracks.len() == 0) && (self.tracks.len() > 0 || count > 0)
    }

    /// Whether `post` and `step` are a result of inserting `new` at
    /// `position`. What plays goes on playing, unless the list is replaced:
    /// then a player that is not stopped goes on with the first of the new
    /// tracks.
    pub open spec fn tracks_inserted(
        self,
        position: InsertPosition,
        new: Seq<Arc<Track>>,
        post: PlayerView<S>,
        step: Step,
    ) -> bool {
        let placed = PlayerView {
            tracks: post.tracks,
            current_index: post.current_index,
            ..self
        }.emit_if(self.insertion_changes_track(position, new.len()), Event::CurrentTrackChanged);
        &&& self.tracks.inserted(self.current_index, position, new, post.tracks, post.current_index)
        &&& (post, step) == if position is Replace && !self.is_stopped() {
            placed.queue_current_track(false, false)
        } else {
            (placed, Step::Done)
        }
    }

    /// Whether the player is stopped when a source arrives that does not
    /// start it: such a source is not wanted any more.
    pub open spec fn unwanted(self, start: bool) -> bool {
        self.is_stopped() && !start
    }

    /// The source of the current track has been opened and goes into the
    /// slot, in place of whatever is armed there. With `start` the player
    /// starts playing. `then` is loaded ahead next. A player that was
    /// stopped in the meantime drops the source.
    pub open spec fn install(self, source: S, then: Option<Arc<Track>>, start: bool) -> (
        PlayerView<S>,
        Step,
    ) {
        if self.unwanted(start) {
            (self, Step::Done)
        } else {
            let armed = PlayerView {
                controls: Controls {
                    source_queue: SourceQueueState::Queued(source),
                    ..self.controls
                },
                ..self
            };
            (
                if start {
                    armed.set_playback_state(PlaybackState::Playing)
                } else {
                    armed
                },
                match then {
                    Some(track) => Step::Preload { track },
                    None => Step::Done,
                },
            )
        }
    }

    /// A source that was opened ahead goes into the slot once the slot holds
    /// no armed source. Until then it is handed back. A stopped player
    /// drops it.
    pub open spec fn preload(self, source: S) -> (PlayerView<S>, Option<S>) {
        if self.is_stopped() {
            (self, None)
        } else if self.controls.source_queue is Queued {
            (self, Some(source))
        } else {
            (
                PlayerView {
                    controls: Controls {
                        source_queue: SourceQueueState::Queued(source),
                        ..self.controls
                    },
                    ..self
                },
                None,
            )
        }
    }

    /// A source reports. One that ended by itself makes the player go on to
    /// the next track; one that was told to end does not. A seek that was
    /// carried out is announced.
    pub open spec fn handle_source_event(self, event: SourceEvent) -> (PlayerView<S>, Step) {
        match event {
            SourceEvent::Finished => self.go_to_next_track(),
            SourceEvent::LoopError(_) => self.go_to_next_track(),
            SourceEvent::Seeked(position) => (self.emit(Event::Seeked(position)), Step::Done),
            _ => (self, Step::Done),
        }
    }
}

} // verus!
