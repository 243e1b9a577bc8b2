//! The single slot through which the control side hands a source to the
//! audio side.

use vstd::prelude::*;

verus! {

/// What the slot holds. `S` is whatever produces the samples.
#[derive(Debug)]
pub enum SourceQueueState<S> {
    /// A source is armed and waits to be taken.
    Queued(S),
    /// The source that was armed has been taken and is producing samples.
    Playing,
    /// Nothing is armed and nothing plays.
    Empty,
}

impl<S> SourceQueueState<S> {
    pub open spec fn spec_is_queued(&self) -> bool {
        *self is Queued
    }

    /// Whether a source is armed.
    #[verifier::when_used_as_spec(spec_is_queued)]
    pub fn is_queued(&self) -> (queued: bool)
        ensures
            queued == (*self is Queued),
    {
        match self {
            SourceQueueState::Queued(_) => true,
            _ => false,
        }
    }

    pub open spec fn spec_is_playing(&self) -> bool {
        !(*self is Empty)
    }

    /// Whether a source is armed or has been taken: whether the slot is in
    /// use at all.
    #[verifier::when_used_as_spec(spec_is_playing)]
    pub fn is_playing(&self) -> (playing: bool)
        ensures
            playing == !(*self is Empty),
    {
        match self {
            SourceQueueState::Empty => false,
            _ => true,
        }
    }

    /// The slot after `invalidate`.
    pub open spec fn invalidated(self) -> SourceQueueState<S> {
        match self {
            SourceQueueState::Queued(_) => SourceQueueState::Playing,
            other => other,
        }
    }

    /// Drops an armed source. The slot then counts as taken; a slot that
    /// holds no source stays as it is.
    pub fn invalidate(&mut self)
        ensures
            *final(self) == old(self).invalidated(),
    {
        if self.is_queued() {
            *self = SourceQueueState::Playing;
        }
    }

    /// The slot after `consume`.
    pub open spec fn consumed(self) -> SourceQueueState<S> {
        match self {
            SourceQueueState::Queued(_) => SourceQueueState::Playing,
            _ => SourceQueueState::Empty,
        }
    }

    /// The source that `consume` hands out.
    pub open spec fn armed(self) -> Option<S> {
        match self {
            SourceQueueState::Queued(source) => Some(source),
            _ => None,
        }
    }

    /// Takes the armed source, if there is one; the slot then counts as
    /// taken. With no source armed, whatever was playing has ended, and the
    /// slot is empty afterwards.
    pub fn consume(&mut self) -> (source: Option<S>)
        ensures
            source == old(self).armed(),
            *final(self) == old(self).consumed(),
    {
        let mut state = SourceQueueState::Playing;
        std::mem::swap(self, &mut state);
        match state {
            SourceQueueState::Queued(source) => Some(source),
            _ => {
                *self = SourceQueueState::Empty;
                None
            },
        }
    }
}

} // verus!
