//! The state that the control side and the audio side share, and what the
//! audio side does with it.

use crate::source_queue::SourceQueueState;
use crate::time::Duration;
use crate::types::{LoopMode, PlaybackState, SeekPosition};
use crate::volume::{Volume, FULL_BITS};
use vstd::prelude::*;

verus! {

/// How much audio a source produces between two read-backs, in
/// milliseconds.
pub const SOURCE_UPDATE_INTERVAL_MILLIS: u64 = 5;

/// How much audio a source produces between two read-backs.
pub fn source_update_interval() -> (interval: Duration)
    ensures
        interval@ == SOURCE_UPDATE_INTERVAL_MILLIS * 1_000_000,
{
    Duration::from_millis(SOURCE_UPDATE_INTERVAL_MILLIS)
}

/// How long the player waits before it tries again to arm a source that was
/// opened ahead while the slot is taken: three read-backs.
pub fn preload_retry_interval() -> (interval: Duration)
    ensures
        interval@ == 3 * SOURCE_UPDATE_INTERVAL_MILLIS * 1_000_000,
{
    Duration::from_millis(3 * SOURCE_UPDATE_INTERVAL_MILLIS)
}

/// What a source tells the player.
#[derive(Debug)]
pub enum SourceEvent {
    /// A seek was carried out; the offset is the one it aimed at.
    Seeked(Duration),
    /// The track was to repeat, and rewinding it failed for this reason.
    LoopError(String),
    /// The track came to its end.
    Finished,
    /// The source was told to end, and did.
    Skipped,
    /// The track came to its end and started over.
    Looped,
}

impl SourceEvent {
    pub open spec fn spec_indicates_end(&self) -> bool {
        *self is Finished || *self is LoopError
    }

    /// Whether the source ended by itself, so that the player has to move
    /// on. A source that was told to end does not count.
    #[verifier::when_used_as_spec(spec_indicates_end)]
    pub fn indicates_end(&self) -> (ended: bool)
        ensures
            ended == (*self is Finished || *self is LoopError),
    {
        match self {
            SourceEvent::Finished => true,
            SourceEvent::LoopError(_) => true,
            _ => false,
        }
    }
}

/// What a source has to do after a read-back.
#[derive(Clone, Copy, Debug, PartialEq, Eq, Structural)]
pub enum ReadBack {
    /// End: produce no further sample, and report `Skipped`.
    Skip,
    /// Go on with these settings. Where `seek` holds an offset, seek there
    /// first and report the outcome.
    Apply { paused: bool, volume: Volume, seek: Option<Duration> },
}

/// The skip counter after one more request to skip. It does not wrap.
pub open spec fn bumped(to_skip: usize) -> usize {
    if to_skip < usize::MAX {
        (to_skip + 1) as usize
    } else {
        to_skip
    }
}

/// One more request to skip.
pub fn bump(to_skip: usize) -> (more: usize)
    ensures
        more == bumped(to_skip),
{
    if to_skip < usize::MAX {
        to_skip + 1
    } else {
        to_skip
    }
}

/// The shared state. `S` is whatever produces the samples.
#[derive(Debug)]
pub struct Controls<S> {
    pub playback_state: PlaybackState,
    pub loop_mode: LoopMode,
    pub volume: Volume,
    /// How many sources are still to be told to end.
    pub to_skip: usize,
    /// Where the current track stood at the last read-back.
    pub position: Duration,
    /// A seek that the next read-back is to carry out.
    pub seek_position: Option<SeekPosition>,
    pub source_queue: SourceQueueState<S>,
}

impl<S> Controls<S> {
    /// While the player is stopped no source is armed or playing, and the
    /// position is zero. The volume is never above full.
    pub open spec fn wf(&self) -> bool {
        &&& self.playback_state is Stopped ==> self.source_queue is Empty && self.position@ == 0
        &&& self.volume@ <= FULL_BITS
    }

    /// The state of a player that has done nothing yet: stopped, no loop,
    /// full volume.
    pub fn new() -> (controls: Controls<S>)
        ensures
            controls.playback_state is Stopped,
            controls.loop_mode is Off,
            controls.volume == Volume::spec_full(),
            controls.to_skip == 0,
            controls.position@ == 0,
            controls.seek_position is None,
            controls.source_queue is Empty,
            controls.wf(),
    {
        proof {
            Volume::lemma_full();
        }
        Controls {
            playback_state: PlaybackState::Stopped,
            loop_mode: LoopMode::Off,
            volume: Volume::full(),
            to_skip: 0,
            position: Duration::zero(),
            seek_position: None,
            source_queue: SourceQueueState::Empty,
        }
    }

    /// What `read_back` answers to a source that stands at
    /// `current_position`.
    pub open spec fn read_back_answer(self, current_position: Duration) -> ReadBack {
        if self.to_skip > 0 {
            ReadBack::Skip
        } else {
            ReadBack::Apply {
                paused: !(self.playback_state is Playing),
                volume: self.volume,
                seek: match self.seek_position {
                    Some(seek) => Some(seek.spec_target(current_position)),
                    None => None,
                },
            }
        }
    }

    /// The shared state after `read_back`.
    pub open spec fn after_read_back(self) -> Controls<S> {
        if self.to_skip > 0 {
            Controls { to_skip: (self.to_skip - 1) as usize, ..self }
        } else {
            Controls { seek_position: None, ..self }
        }
    }

    /// The periodic read-back of the source that is playing, which stands
    /// at `current_position`. A pending skip is used up and ends the source;
    /// nothing else is looked at then. Otherwise the source learns whether
    /// to be silent and how loud to be, and a pending seek is taken and
    /// turned into the offset to seek to.
    pub fn read_back(&mut self, current_position: Duration) -> (answer: ReadBack)
        ensures
            answer == old(self).read_back_answer(current_position),
            *final(self) == old(self).after_read_back(),
            old(self).wf() ==> final(self).wf(),
    {
        if self.to_skip > 0 {
            self.to_skip = self.to_skip - 1;
            return ReadBack::Skip;
        }
        let paused = match self.playback_state {
            PlaybackState::Playing => false,
            _ => true,
        };
        let seek = match self.seek_position.take() {
            Some(seek) => Some(seek.target(current_position)),
            None => None,
        };
        ReadBack::Apply { paused, volume: self.volume, seek }
    }

    /// The shared state after `report_position`.
    pub open spec fn after_report_position(self, position: Duration) -> Controls<S> {
        if self.playback_state is Stopped {
            self
        } else {
            Controls { position, ..self }
        }
    }

    /// The end of a read-back: the source reports where its track stands
    /// now. While the player is stopped the position stays zero: a source
    /// that is still read back then has been told to end.
    pub fn report_position(&mut self, position: Duration)
        ensures
            *final(self) == old(self).after_report_position(position),
            old(self).wf() ==> final(self).wf(),
    {
        match self.playback_state {
            PlaybackState::Stopped => {},
            _ => {
                self.position = position;
            },
        }
    }

    /// The shared state after a source that was playing has ended.
    pub open spec fn after_source_ended(self) -> Controls<S> {
        match self.source_queue {
            SourceQueueState::Playing => Controls { source_queue: SourceQueueState::Empty, ..self },
            _ => self,
        }
    }

    /// A source has ended, for whatever reason. If the slot still counts it
    /// as playing the slot becomes empty; if another source has been armed
    /// since, the slot is left alone.
    pub fn source_ended(&mut self)
        ensures
            *final(self) == old(self).after_source_ended(),
            old(self).wf() ==> final(self).wf(),
    {
        let playing = match self.source_queue {
            SourceQueueState::Playing => true,
            _ => false,
        };
        if playing {
            self.source_queue = SourceQueueState::Empty;
        }
    }

    /// The track of a source has come to its end. Returns whether the
    /// source is to rewind and go on, which it is while the loop mode is
    /// `Track`; if not, the source has ended.
    pub fn end_of_stream(&mut self) -> (rewind: bool)
        ensures
            rewind == (old(self).loop_mode is Track),
            *final(self) == if rewind {
                *old(self)
            } else {
                old(self).after_source_ended()
            },
            old(self).wf() ==> final(self).wf(),
    {
        match self.loop_mode {
            LoopMode::Track => true,
            _ => {
                self.source_ended();
                false
            },
        }
    }

    /// The output has run out of samples and takes the armed source, if
    /// there is one. Without one the output plays silence.
    pub fn load_next(&mut self) -> (source: Option<S>)
        ensures
            source == old(self).source_queue.armed(),
            *final(self) == (Controls { source_queue: old(self).source_queue.consumed(), ..*old(self) }),
            old(self).wf() ==> final(self).wf(),
    {
        self.source_queue.consume()
    }
}

} // verus!
