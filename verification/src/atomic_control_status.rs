//! The playback state and the loop mode in a form that threads can share
//! without a lock. Of what such a cell holds at a given moment nothing can
//! be said here: another thread may have written to it.

use crate::types::{LoopMode, PlaybackState};
use std::sync::atomic::{AtomicUsize, Ordering};
use vstd::prelude::*;

verus! {

/// The number that stands for a playback state.
pub open spec fn playback_state_code(state: PlaybackState) -> usize {
    match state {
        PlaybackState::Playing => 0,
        PlaybackState::Paused => 1,
        PlaybackState::Stopped => 2,
    }
}

/// The playback state that a number stands for. A number that stands for
/// none is read as `Stopped`.
pub open spec fn playback_state_of(code: usize) -> PlaybackState {
    if code == 0 {
        PlaybackState::Playing
    } else if code == 1 {
        PlaybackState::Paused
    } else {
        PlaybackState::Stopped
    }
}

/// The number that stands for a loop mode.
pub open spec fn loop_mode_code(mode: LoopMode) -> usize {
    match mode {
        LoopMode::Off => 0,
        LoopMode::Track => 1,
        LoopMode::Playlist => 2,
    }
}

/// The loop mode that a number stands for. A number that stands for none
/// is read as `Off`.
pub open spec fn loop_mode_of(code: usize) -> LoopMode {
    if code == 1 {
        LoopMode::Track
    } else if code == 2 {
        LoopMode::Playlist
    } else {
        LoopMode::Off
    }
}

/// Whether a load may be made in this ordering.
pub open spec fn loads(order: Ordering) -> bool {
    order != Ordering::Release && order != Ordering::AcqRel
}

/// Whether a store may be made in this ordering.
pub open spec fn stores(order: Ordering) -> bool {
    order != Ordering::Acquire && order != Ordering::AcqRel
}

/// `AtomicUsize::compare_exchange`: stores `new` if the cell holds
/// `current`, and returns what the cell held. Where it returns `Ok`, `new`
/// was stored and the cell held `current`. Of what comes back as `Err`
/// nothing is said here.
#[verifier::external_body]
fn exchange(
    cell: &AtomicUsize,
    current: usize,
    new: usize,
    success: Ordering,
    failure: Ordering,
) -> (result: Result<usize, usize>)
    requires
        loads(failure),
    ensures
        result matches Ok(held) ==> held == current,
{
    cell.compare_exchange(current, new, success, failure)
}

/// A playback state that threads share.
pub struct AtomicPlaybackState(AtomicUsize);

impl AtomicPlaybackState {
    fn to_usize(state: PlaybackState) -> (code: usize)
        ensures
            code == playback_state_code(state),
    {
        match state {
            PlaybackState::Playing => 0,
            PlaybackState::Paused => 1,
            PlaybackState::Stopped => 2,
        }
    }

    /// The state that the number `val` stands for, as a cell hands it
    /// out. A number that stands for no state is read as `Stopped`.
    pub fn from_usize(val: usize) -> (state: PlaybackState)
        ensures
            state == playback_state_of(val),
    {
        if val == 0 {
            PlaybackState::Playing
        } else if val == 1 {
            PlaybackState::Paused
        } else {
            PlaybackState::Stopped
        }
    }

    pub fn new(v: PlaybackState) -> AtomicPlaybackState {
        AtomicPlaybackState(AtomicUsize::new(Self::to_usize(v)))
    }

    pub fn load(&self, order: Ordering) -> PlaybackState
        requires
            loads(order),
    {
        Self::from_usize(self.0.load(order))
    }

    pub fn store(&self, val: PlaybackState, order: Ordering)
        requires
            stores(order),
    {
        self.0.store(Self::to_usize(val), order)
    }

    /// Stores `val` and returns what the cell held.
    pub fn swap(&self, val: PlaybackState, order: Ordering) -> PlaybackState {
        Self::from_usize(self.0.swap(Self::to_usize(val), order))
    }

    /// Stores `new` if the cell holds `current`. Returns what the cell
    /// held: as `Ok` if `new` was stored, as `Err` if not. What comes back
    /// as `Ok` is `current`; whether the exchange succeeds is up to what
    /// the other threads have stored.
    pub fn compare_exchange(
        &self,
        current: PlaybackState,
        new: PlaybackState,
        success: Ordering,
        failure: Ordering,
    ) -> (result: Result<PlaybackState, PlaybackState>)
        requires
            loads(failure),
        ensures
            result matches Ok(held) ==> held == current,
    {
        match exchange(
            &self.0,
            Self::to_usize(current),
            Self::to_usize(new),
            success,
            failure,
        ) {
            Ok(held) => Ok(Self::from_usize(held)),
            Err(held) => Err(Self::from_usize(held)),
        }
    }
}

/// A loop mode that threads share.
pub struct AtomicLoopMode(AtomicUsize);

impl AtomicLoopMode {
    fn to_usize(mode: LoopMode) -> (code: usize)
        ensures
            code == loop_mode_code(mode),
    {
        match mode {
            LoopMode::Off => 0,
            LoopMode::Track => 1,
            LoopMode::Playlist => 2,
        }
    }

    /// The mode that the number `val` stands for, as a cell hands it out.
    /// A number that stands for no mode is read as `Off`.
    pub fn from_usize(val: usize) -> (mode: LoopMode)
        ensures
            mode == loop_mode_of(val),
    {
        if val == 1 {
            LoopMode::Track
        } else if val == 2 {
            LoopMode::Playlist
        } else {
            LoopMode::Off
        }
    }

    pub fn new(v: LoopMode) -> AtomicLoopMode {
        AtomicLoopMode(AtomicUsize::new(Self::to_usize(v)))
    }

    pub fn load(&self, order: Ordering) -> LoopMode
        requires
            loads(order),
    {
        Self::from_usize(self.0.load(order))
    }

    pub fn store(&self, val: LoopMode, order: Ordering)
        requires
            stores(order),
    {
        self.0.store(Self::to_usize(val), order)
    }

    /// Stores `val` and returns what the cell held.
    pub fn swap(&self, val: LoopMode, order: Ordering) -> LoopMode {
        Self::from_usize(self.0.swap(Self::to_usize(val), order))
    }

    /// Stores `new` if the cell holds `current`. Returns what the cell
    /// held: as `Ok` if `new` was stored, as `Err` if not. What comes back
    /// as `Ok` is `current`; whether the exchange succeeds is up to what
    /// the other threads have stored.
    pub fn compare_exchange(
        &self,
        current: LoopMode,
        new: LoopMode,
        success: Ordering,
        failure: Ordering,
    ) -> (result: Result<LoopMode, LoopMode>)
        requires
            loads(failure),
        ensures
            result matches Ok(held) ==> held == current,
    {
        match exchange(
            &self.0,
            Self::to_usize(current),
            Self::to_usize(new),
            success,
            failure,
        ) {
            Ok(held) => Ok(Self::from_usize(held)),
            Err(held) => Err(Self::from_usize(held)),
        }
    }
}

} // verus!
