//! The player: the track list, the current position in it, the state that
//! is shared with the audio side, and the events that wait to be sent.
//!
//! The player opens no file and waits for nothing. Where an operation needs
//! a source opened, or an answer from the audio side, it says so in the
//! [`Step`] that it returns, and goes on when it is handed the result.

use crate::controls::{bump, Controls, ReadBack, SourceEvent};
use crate::player_model::{
    last_announced, lemma_last_announced_push, PlayerView, Step, RESTART_THRESHOLD_SECS,
};
use crate::source_queue::SourceQueueState;
use crate::time::Duration;
use crate::track_list::TrackList;
use crate::types::{
    Event, InsertPosition, LoopMode, PlaybackState, SeekPosition, Track, TrackListSnapshot,
};
use crate::volume::Volume;
use std::sync::Arc;
use vstd::prelude::*;

verus! {

/// The player. `S` is whatever produces the samples of a track.
pub struct Player<S> {
    tracks: TrackList,
    current_track_index: usize,
    controls: Controls<S>,
    events: Vec<Event>,
}

impl<S> View for Player<S> {
    type V = PlayerView<S>;

    closed spec fn view(&self) -> PlayerView<S> {
        PlayerView {
            tracks: self.tracks@,
            current_index: self.current_track_index,
            controls: self.controls,
            events: self.events@,
        }
    }
}

impl<S> Player<S> {
    /// The invariant of the player.
    pub open spec fn wf(&self) -> bool {
        self@.wf()
    }

    /// A stopped player with an empty list, shuffle and loop off, and full
    /// volume.
    pub fn new() -> (player: Player<S>)
        ensures
            player.wf(),
            player@.tracks.len() == 0,
            !player@.tracks.shuffle,
            player@.current_index == 0,
            player@.controls.playback_state is Stopped,
            player@.controls.loop_mode is Off,
            player@.controls.volume == Volume::spec_full(),
            player@.controls.to_skip == 0,
            player@.controls.seek_position is None,
            player@.events.len() == 0,
    {
        Player {
            tracks: TrackList::new(),
            current_track_index: 0,
            controls: Controls::new(),
            events: Vec::new(),
        }
    }

    fn emit(&mut self, event: Event)
        ensures
            final(self)@ == old(self)@.emit(event),
            last_announced(final(self)@.events) == match event {
                Event::PlaybackStateChanged(state) => Some(state),
                _ => last_announced(old(self)@.events),
            },
    {
        proof {
            lemma_last_announced_push(self.events@, event);
        }
        self.events.push(event);
    }

    fn emit_if(&mut self, wanted: bool, event: Event)
        requires
            !(event is PlaybackStateChanged),
        ensures
            final(self)@ == old(self)@.emit_if(wanted, event),
            last_announced(final(self)@.events) == last_announced(old(self)@.events),
    {
        if wanted {
            self.emit(event);
        }
    }

    /// Hands out the events that were emitted since the last call, oldest
    /// first.
    pub fn take_events(&mut self) -> (events: Vec<Event>)
        requires
            old(self).wf(),
        ensures
            final(self).wf(),
            events@ == old(self)@.events,
            final(self)@ == (PlayerView { events: Seq::empty(), ..old(self)@ }),
    {
        let mut taken: Vec<Event> = Vec::new();
        std::mem::swap(&mut self.events, &mut taken);
        taken
    }

    fn clear_source_queue(&mut self)
        ensures
            final(self)@ == old(self)@.clear_source_queue(),
    {
        if self.controls.source_queue.is_playing() {
            self.controls.to_skip = bump(self.controls.to_skip);
        }
        self.controls.source_queue = SourceQueueState::Empty;
    }

    fn queue_current_track(&mut self, use_queued: bool, start: bool) -> (step: Step)
        requires
            old(self)@.tracks.wf(),
        ensures
            (final(self)@, step) == old(self)@.queue_current_track(use_queued, start),
    {
        match self.tracks.get_tracks_to_queue(self.current_track_index) {
            None => Step::Done,
            Some((current, next)) => {
                if !self.controls.source_queue.is_playing() {
                    Step::Load { track: current, then: next, start }
                } else if !use_queued {
                    self.controls.to_skip = bump(self.controls.to_skip);
                    self.controls.source_queue.invalidate();
                    Step::Load { track: current, then: next, start }
                } else {
                    if start {
                        self.set_playback_state(PlaybackState::Playing);
                    }
                    match next {
                        Some(track) => Step::Preload { track },
                        None => Step::Done,
                    }
                }
            },
        }
    }

    pub fn playback_state(&self) -> (state: PlaybackState)
        ensures
            state == self@.controls.playback_state,
    {
        self.controls.playback_state
    }

    fn is_stopped(&self) -> (stopped: bool)
        ensures
            stopped == self@.is_stopped(),
    {
        match self.controls.playback_state {
            PlaybackState::Stopped => true,
            _ => false,
        }
    }

    fn set_playback_state(&mut self, new_state: PlaybackState) -> (prev_state: PlaybackState)
        ensures
            final(self)@ == old(self)@.set_playback_state(new_state),
            prev_state == old(self)@.controls.playback_state,
            last_announced(final(self)@.events) == if prev_state == new_state {
                last_announced(old(self)@.events)
            } else {
                Some(new_state)
            },
    {
        let prev_state = self.controls.playback_state;
        self.controls.playback_state = new_state;
        if prev_state != new_state {
            self.emit(Event::PlaybackStateChanged(new_state));
        }
        prev_state
    }

    /// Starts or resumes playback. A stopped player first needs the source
    /// of the current track: see [`Step::Load`].
    pub fn play(&mut self) -> (step: Step)
        requires
            old(self).wf(),
        ensures
            final(self).wf(),
            (final(self)@, step) == old(self)@.play(),
    {
        if self.is_stopped() {
            self.queue_current_track(true, true)
        } else {
            self.set_playback_state(PlaybackState::Playing);
            Step::Done
        }
    }

    /// Pauses a playing player. A stopped player stays stopped.
    pub fn pause(&mut self)
        requires
            old(self).wf(),
        ensures
            final(self).wf(),
            final(self)@ == old(self)@.pause(),
    {
        let playing = match self.controls.playback_state {
            PlaybackState::Playing => true,
            _ => false,
        };
        if playing {
            self.set_playback_state(PlaybackState::Paused);
        }
    }

    /// Pauses a playing player, and plays otherwise.
    pub fn toggle_playback(&mut self) -> (step: Step)
        requires
            old(self).wf(),
        ensures
            final(self).wf(),
            (final(self)@, step) == old(self)@.toggle_playback(),
    {
        let playing = match self.controls.playback_state {
            PlaybackState::Playing => true,
            _ => false,
        };
        if playing {
            self.pause();
            Step::Done
        } else {
            self.play()
        }
    }

    fn stop_inner(&mut self)
        requires
            old(self)@.tracks.wf(),
            old(self)@.current_index == 0 || old(self)@.current_index < old(self)@.tracks.len(),
            old(self)@.controls.volume@ <= crate::volume::FULL_BITS,
            match last_announced(old(self)@.events) {
                Some(state) => state == old(self)@.controls.playback_state,
                None => true,
            },
        ensures
            final(self).wf(),
            final(self)@ == old(self)@.stop(),
    {
        self.clear_source_queue();
        self.controls.position = Duration::zero();
        self.set_playback_state(PlaybackState::Stopped);
    }

    /// Stops playback: what plays is told to end, what is armed is dropped,
    /// and the position goes back to zero.
    pub fn stop(&mut self)
        requires
            old(self).wf(),
        ensures
            final(self).wf(),
            final(self)@ == old(self)@.stop(),
    {
        self.stop_inner();
    }

    /// The track that is current, if the list holds any.
    pub fn current_track(&self) -> (track: Option<Arc<Track>>)
        requires
            self.wf(),
        ensures
            track == self@.current_track(),
    {
        self.tracks.get_track(self.current_track_index)
    }

    pub fn current_track_index(&self) -> (index: usize)
        ensures
            index == self@.current_index,
    {
        self.current_track_index
    }

    fn move_to(&mut self, index: usize)
        ensures
            final(self)@ == old(self)@.move_to(index),
            last_announced(final(self)@.events) == last_announced(old(self)@.events),
    {
        self.current_track_index = index;
        let announce = self.tracks.len() > 0;
        self.emit_if(announce, Event::CurrentTrackChanged);
    }

    fn stop_or_wrap_track(&mut self, reverse: bool) -> (step: Step)
        requires
            old(self).wf(),
        ensures
            final(self).wf(),
            (final(self)@, step) == old(self)@.stop_or_wrap_track(reverse),
    {
        let len = self.tracks.len();
        let should_loop = match self.controls.loop_mode {
            LoopMode::Off => false,
            _ => len > 0,
        };
        if !should_loop {
            self.move_to(0);
            self.stop_inner();
            Step::Done
        } else {
            let new_index = if reverse {
                len - 1
            } else {
                0
            };
            self.move_to(new_index);
            if self.is_stopped() {
                Step::Done
            } else {
                self.queue_current_track(false, false)
            }
        }
    }

    /// Goes on to the next track of the playing order. Behind the last
    /// track the player starts over if a loop is on, and stops at the first
    /// track if not.
    pub fn go_to_next_track(&mut self) -> (step: Step)
        requires
            old(self).wf(),
        ensures
            final(self).wf(),
            (final(self)@, step) == old(self)@.go_to_next_track(),
    {
        let len = self.tracks.len();
        if len == 0 || self.current_track_index >= len - 1 {
            self.stop_or_wrap_track(false)
        } else {
            self.move_to(self.current_track_index + 1);
            if self.is_stopped() {
                Step::Done
            } else {
                self.queue_current_track(true, false)
            }
        }
    }

    /// Goes back to the previous track of the playing order. With `soft`,
    /// and more than five seconds into the current track, that track starts
    /// over instead. Before the first track the player goes to the last if
    /// a loop is on, and stops if not.
    pub fn go_to_previous_track(&mut self, soft: bool) -> (step: Step)
        requires
            old(self).wf(),
        ensures
            final(self).wf(),
            (final(self)@, step) == old(self)@.go_to_previous_track(soft),
    {
        let threshold = Duration::from_secs(RESTART_THRESHOLD_SECS);
        if soft && self.controls.position.is_longer_than(&threshold) {
            self.seek(SeekPosition::To(Duration::zero()))
        } else if self.current_track_index == 0 {
            self.stop_or_wrap_track(true)
        } else {
            self.move_to(self.current_track_index - 1);
            if self.is_stopped() {
                Step::Done
            } else {
                self.queue_current_track(false, false)
            }
        }
    }

    /// Whether shuffle is on.
    pub fn shuffle(&self) -> (shuffle: bool)
        ensures
            shuffle == self@.tracks.shuffle,
    {
        self.tracks.shuffle_enabled()
    }

    /// Switches shuffle on or off. The track that is current stays current.
    pub fn set_shuffle(&mut self, shuffle: bool) -> (step: Step)
        requires
            old(self).wf(),
        ensures
            final(self).wf(),
            old(self)@.shuffle_set(shuffle, final(self)@, step),
    {
        if shuffle == self.tracks.shuffle_enabled() {
            return Step::Done;
        }
        let new_index = match self.tracks.set_shuffle(shuffle, self.current_track_index) {
            Ok(index) => index,
            Err(_) => 0,
        };
        self.current_track_index = new_index;
        self.emit(Event::ShuffleChanged(shuffle));
        if self.is_stopped() {
            Step::Done
        } else {
            match self.tracks.get_tracks_to_queue(self.current_track_index) {
                Some((_, Some(track))) => Step::Load { track, then: None, start: false },
                _ => Step::Done,
            }
        }
    }

    pub fn loop_mode(&self) -> (loop_mode: LoopMode)
        ensures
            loop_mode == self@.controls.loop_mode,
    {
        self.controls.loop_mode
    }

    /// Sets the loop mode, and announces it if it is a change.
    pub fn set_loop_mode(&mut self, loop_mode: LoopMode)
        requires
            old(self).wf(),
        ensures
            final(self).wf(),
            final(self)@ == old(self)@.set_loop_mode(loop_mode),
    {
        let prev_mode = self.controls.loop_mode;
        self.controls.loop_mode = loop_mode;
        self.emit_if(loop_mode != prev_mode, Event::LoopModeChanged(loop_mode));
    }

    /// The volume: never below silence, never above full.
    pub fn volume(&self) -> (volume: Volume)
        ensures
            volume == self@.controls.volume,
            volume@ <= crate::volume::FULL_BITS,
    {
        let volume = self.controls.volume;
        let _ = volume.to_bits();
        volume
    }

    /// Sets the volume, and announces it if it is a change.
    pub fn set_volume(&mut self, volume: Volume)
        requires
            old(self).wf(),
        ensures
            final(self).wf(),
            final(self)@ == old(self)@.set_volume(volume),
    {
        let prev_volume = self.controls.volume;
        let _ = volume.to_bits();
        self.controls.volume = volume;
        self.emit_if(volume != prev_volume, Event::VolumeChanged(volume));
    }

    /// Where the current track stood at the last read-back.
    pub fn position(&self) -> (position: Duration)
        ensures
            position == self@.controls.position,
    {
        self.controls.position
    }

    /// Asks the audio side to seek. With no source in the slot there is
    /// nothing to seek in, and nothing happens.
    pub fn seek(&mut self, seek_position: SeekPosition) -> (step: Step)
        requires
            old(self).wf(),
        ensures
            final(self).wf(),
            (final(self)@, step) == old(self)@.seek(seek_position),
    {
        if !self.controls.source_queue.is_playing() {
            return Step::Done;
        }
        self.controls.seek_position = Some(seek_position);
        Step::AwaitSeek
    }

    /// Stops the player and empties the list.
    pub fn clear_tracks(&mut self)
        requires
            old(self).wf(),
        ensures
            final(self).wf(),
            final(self)@ == old(self)@.clear_tracks(),
            final(self)@.tracks.len() == 0,
            final(self)@.current_index == 0,
            final(self)@.controls.playback_state is Stopped,
    {
        let had_tracks = self.tracks.len() > 0;
        self.stop_inner();
        let _ = self.tracks.clear();
        self.current_track_index = 0;
        self.emit_if(had_tracks, Event::CurrentTrackChanged);
    }

    /// The track list as it stands.
    pub fn get_track_list(&self) -> (snapshot: TrackListSnapshot)
        ensures
            snapshot.track_list@ == self@.tracks.tracks,
            snapshot.shuffle_indicies@ == self@.tracks.order,
    {
        self.tracks.get_snapshot()
    }

    /// Inserts `tracks` at `position`. The track that is current stays
    /// current, unless the list is replaced. The list must not outgrow what
    /// a `usize` can count.
    pub fn insert_tracks(&mut self, position: InsertPosition, tracks: &[Arc<Track>]) -> (step: Step)
        requires
            old(self).wf(),
            old(self)@.tracks.len() + tracks@.len() <= usize::MAX,
        ensures
            final(self).wf(),
            old(self)@.tracks_inserted(position, tracks@, final(self)@, step),
    {
        let replace = match position {
            InsertPosition::Replace => true,
            _ => false,
        };
        let len = self.tracks.len();
        let changes = (replace || len == 0) && (len > 0 || tracks.len() > 0);
        let new_index = match self.tracks.insert_tracks(self.current_track_index, position, tracks) {
            Ok(index) => index,
            Err(_) => 0,
        };
        self.current_track_index = new_index;
        self.emit_if(changes, Event::CurrentTrackChanged);
        if replace && !self.is_stopped() {
            self.queue_current_track(false, false)
        } else {
            Step::Done
        }
    }

    /// Takes in what a source reported.
    pub fn handle_source_event(&mut self, event: SourceEvent) -> (step: Step)
        requires
            old(self).wf(),
        ensures
            final(self).wf(),
            (final(self)@, step) == old(self)@.handle_source_event(event),
    {
        match event {
            SourceEvent::Finished => self.go_to_next_track(),
            SourceEvent::LoopError(_) => self.go_to_next_track(),
            SourceEvent::Seeked(position) => {
                self.emit(Event::Seeked(position));
                Step::Done
            },
            _ => Step::Done,
        }
    }

    /// Puts the source of the current track into the slot: the answer to
    /// [`Step::Load`].
    pub fn install(&mut self, source: S, then: Option<Arc<Track>>, start: bool) -> (step: Step)
        requires
            old(self).wf(),
        ensures
            final(self).wf(),
            (final(self)@, step) == old(self)@.install(source, then, start),
    {
        if self.is_stopped() && !start {
            return Step::Done;
        }
        self.controls.source_queue = SourceQueueState::Queued(source);
        if start {
            self.set_playback_state(PlaybackState::Playing);
        }
        match then {
            Some(track) => Step::Preload { track },
            None => Step::Done,
        }
    }

    /// Puts a source that was opened ahead into the slot, if the slot holds
    /// no armed source: the answer to [`Step::Preload`]. Hands the source
    /// back if the slot does.
    pub fn preload(&mut self, source: S) -> (back: Option<S>)
        requires
            old(self).wf(),
        ensures
            final(self).wf(),
            (final(self)@, back) == old(self)@.preload(source),
    {
        if self.is_stopped() {
            return None;
        }
        if self.controls.source_queue.is_queued() {
            return Some(source);
        }
        self.controls.source_queue = SourceQueueState::Queued(source);
        None
    }

    /// The read-back of the source that is playing: see
    /// [`Controls::read_back`].
    pub fn read_back(&mut self, current_position: Duration) -> (answer: ReadBack)
        requires
            old(self).wf(),
        ensures
            final(self).wf(),
            answer == old(self)@.controls.read_back_answer(current_position),
            final(self)@ == (PlayerView {
                controls: old(self)@.controls.after_read_back(),
                ..old(self)@
            }),
    {
        self.controls.read_back(current_position)
    }

    /// The end of a read-back: see [`Controls::report_position`].
    pub fn report_position(&mut self, position: Duration)
        requires
            old(self).wf(),
        ensures
            final(self).wf(),
            final(self)@ == (PlayerView {
                controls: old(self)@.controls.after_report_position(position),
                ..old(self)@
            }),
    {
        self.controls.report_position(position);
    }

    /// The track of the source that is playing has come to its end: see
    /// [`Controls::end_of_stream`].
    pub fn end_of_stream(&mut self) -> (rewind: bool)
        requires
            old(self).wf(),
        ensures
            final(self).wf(),
            rewind == (old(self)@.controls.loop_mode is Track),
            final(self)@ == (PlayerView {
                controls: if rewind {
                    old(self)@.controls
                } else {
                    old(self)@.controls.after_source_ended()
                },
                ..old(self)@
            }),
    {
        self.controls.end_of_stream()
    }

    /// A source has ended: see [`Controls::source_ended`].
    pub fn source_ended(&mut self)
        requires
            old(self).wf(),
        ensures
            final(self).wf(),
            final(self)@ == (PlayerView {
                controls: old(self)@.controls.after_source_ended(),
                ..old(self)@
            }),
    {
        self.controls.source_ended();
    }

    /// The output takes the armed source: see [`Controls::load_next`].
    pub fn load_next(&mut self) -> (source: Option<S>)
        requires
            old(self).wf(),
        ensures
            final(self).wf(),
            source == old(self)@.controls.source_queue.armed(),
            final(self)@ == (PlayerView {
                controls: Controls {
                    source_queue: old(self)@.controls.source_queue.consumed(),
                    ..old(self)@.controls
                },
                ..old(self)@
            }),
    {
        self.controls.load_next()
    }
}

} // verus!
