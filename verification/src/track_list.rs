//! The track list: the tracks in the order in which they were inserted, and
//! over them the order in which they play.

use crate::errors::PlayerError;
use crate::order::{
    is_identity, is_permutation, lemma_filter_insert_dropped, lemma_filter_keeps_all,
    lemma_insert_fresh, lemma_rearranged_permutation, outside, shifted, spliced,
};
use crate::rng::{random_index, shuffle};
use crate::types::{share_track, InsertPosition, Track, TrackListSnapshot};
use std::ops::Range;
use std::sync::Arc;
use vstd::prelude::*;

verus! {

/// The two parallel vectors of a track list. A position `p` of the playing
/// order refers to the track at index `shuffled_track_indicies[p]`.
pub struct TrackListInner {
    track_list: Vec<Arc<Track>>,
    shuffled_track_indicies: Vec<usize>,
}

impl TrackListInner {
    /// The tracks, in the order in which they were inserted.
    pub closed spec fn tracks(&self) -> Seq<Arc<Track>> {
        self.track_list@
    }

    /// The playing order.
    pub closed spec fn order(&self) -> Seq<usize> {
        self.shuffled_track_indicies@
    }

    /// Both vectors are of one length, and the playing order is a
    /// permutation of the indices of the tracks.
    pub open spec fn wf(&self) -> bool {
        &&& self.tracks().len() == self.order().len()
        &&& is_permutation(self.order())
    }

    pub fn new() -> (inner: TrackListInner)
        ensures
            inner.tracks().len() == 0,
            inner.order().len() == 0,
            inner.wf(),
    {
        TrackListInner { track_list: Vec::new(), shuffled_track_indicies: Vec::new() }
    }

    pub fn clear(&mut self)
        ensures
            final(self).tracks().len() == 0,
            final(self).order().len() == 0,
            final(self).wf(),
    {
        self.track_list.clear();
        self.shuffled_track_indicies.clear();
    }

    pub fn len(&self) -> (len: usize)
        ensures
            len == self.tracks().len(),
    {
        self.track_list.len()
    }

    /// The track at position `index` of the playing order.
    pub fn index(&self, index: usize) -> (track: &Arc<Track>)
        requires
            self.wf(),
            index < self.tracks().len(),
        ensures
            *track == self.tracks()[self.order()[index as int] as int],
    {
        &self.track_list[self.shuffled_track_indicies[index]]
    }

    /// Inserts `tracks` at `index` and moves the entries of the playing
    /// order that refer to a track at or behind `index` up with their tracks.
    /// The playing order does not yet mention the new tracks: their indices
    /// are returned, for the caller to insert.
    pub fn insert_tracks(&mut self, index: usize, tracks: &[Arc<Track>]) -> (fresh: Range<usize>)
        requires
            old(self).wf(),
            index <= old(self).tracks().len(),
            old(self).tracks().len() + tracks@.len() <= usize::MAX,
        ensures
            final(self).tracks() == spliced(old(self).tracks(), index as int, tracks@),
            final(self).order().len() == old(self).order().len(),
            forall|i: int|
                0 <= i < old(self).order().len() ==> (#[trigger] final(self).order()[i])
                    == shifted(old(self).order()[i], index as int, tracks@.len() as int),
            fresh.start == index,
            fresh.end == index + tracks@.len(),
    {
        let ghost before = self.track_list@;
        let ghost order_before = self.shuffled_track_indicies@;
        let count = tracks.len();
        let mut k: usize = 0;
        while k < count
            invariant
                k <= count,
                count == tracks@.len(),
                index <= before.len(),
                before.len() + count <= usize::MAX,
                self.track_list@ == before.subrange(0, index as int) + tracks@.subrange(
                    0,
                    k as int,
                ) + before.subrange(index as int, before.len() as int),
                self.shuffled_track_indicies@ == order_before,
            decreases count - k,
        {
            self.track_list.insert(index + k, share_track(&tracks[k]));
            k += 1;
            assert(self.track_list@ =~= before.subrange(0, index as int) + tracks@.subrange(
                0,
                k as int,
            ) + before.subrange(index as int, before.len() as int));
        }
        assert(tracks@.subrange(0, count as int) =~= tracks@);
        let mut i: usize = 0;
        while i < self.shuffled_track_indicies.len()
            invariant
                i <= order_before.len(),
                self.shuffled_track_indicies@.len() == order_before.len(),
                self.track_list@ == spliced(before, index as int, tracks@),
                count == tracks@.len(),
                before.len() + count <= usize::MAX,
                forall|j: int| 0 <= j < order_before.len() ==> (#[trigger] order_before[j]) < before.len(),
                forall|j: int|
                    0 <= j < i ==> (#[trigger] self.shuffled_track_indicies@[j]) == shifted(
                        order_before[j],
                        index as int,
                        count as int,
                    ),
                forall|j: int|
                    i <= j < order_before.len() ==> (#[trigger] self.shuffled_track_indicies@[j])
                        == order_before[j],
            decreases order_before.len() - i,
        {
            let value = self.shuffled_track_indicies[i];
            assert(value == order_before[i as int]);
            if value >= index {
                self.shuffled_track_indicies.set(i, value + count);
            }
            i += 1;
        }
        index..index + count
    }

    /// Shuffles the playing order and moves the entry at `current_index` to
    /// its head. Returns the position at which that entry now stands: 0.
    fn shuffle_tracks(&mut self, current_index: usize) -> (new_index: usize)
        requires
            old(self).wf(),
            current_index < old(self).order().len(),
        ensures
            final(self).wf(),
            final(self).tracks() == old(self).tracks(),
            final(self).order().to_multiset() == old(self).order().to_multiset(),
            final(self).order()[0] == old(self).order()[current_index as int],
            new_index == 0,
    {
        let ghost before = self.shuffled_track_indicies@;
        let current_track = self.shuffled_track_indicies.remove(current_index);
        shuffle(&mut self.shuffled_track_indicies);
        let ghost mixed = self.shuffled_track_indicies@;
        self.shuffled_track_indicies.insert(0, current_track);
        proof {
            vstd::seq_lib::to_multiset_remove(before, current_index as int);
            vstd::seq_lib::to_multiset_insert(mixed, 0, current_track);
            vstd::seq_lib::to_multiset_contains(before, current_track);
            assert(before.contains(current_track));
            assert(self.shuffled_track_indicies@.to_multiset() =~= before.to_multiset());
            lemma_rearranged_permutation(before, self.shuffled_track_indicies@);
        }
        0
    }

    /// Enters the indices `first, ..., first + count - 1` into the playing
    /// order, each at a position that is left to chance. Returns where the
    /// entry that stood at `current` stands afterwards.
    fn scatter_fresh(&mut self, first: usize, count: usize, current: usize) -> (new_current: usize)
        requires
            old(self).order().no_duplicates(),
            old(self).order().len() + count <= usize::MAX,
            first + count <= usize::MAX,
            current <= old(self).order().len(),
            forall|i: int|
                0 <= i < old(self).order().len() ==> !(first <= (#[trigger] old(self).order()[i])
                    < first + count),
        ensures
            final(self).tracks() == old(self).tracks(),
            final(self).order().len() == old(self).order().len() + count,
            final(self).order().no_duplicates(),
            final(self).order().filter(outside(first as int, first + count)) == old(self).order(),
            forall|i: int|
                0 <= i < final(self).order().len() ==> old(self).order().contains(
                    #[trigger] final(self).order()[i],
                ) || first <= final(self).order()[i] < first + count,
            new_current <= final(self).order().len(),
            current < old(self).order().len() ==> new_current < final(self).order().len()
                && final(self).order()[new_current as int] == old(self).order()[current as int],
    {
        let ghost before = self.shuffled_track_indicies@;
        let ghost keep = outside(first as int, first + count);
        proof {
            lemma_filter_keeps_all(before, keep);
        }
        let mut new_current = current;
        let mut k: usize = 0;
        while k < count
            invariant
                k <= count,
                before.len() + count <= usize::MAX,
                first + count <= usize::MAX,
                keep == outside(first as int, first + count),
                self.track_list@ == old(self).track_list@,
                self.shuffled_track_indicies@.len() == before.len() + k,
                self.shuffled_track_indicies@.no_duplicates(),
                self.shuffled_track_indicies@.filter(keep) == before,
                forall|i: int|
                    0 <= i < self.shuffled_track_indicies@.len() ==> before.contains(
                        #[trigger] self.shuffled_track_indicies@[i],
                    ) || first <= self.shuffled_track_indicies@[i] < first + k,
                forall|i: int| 0 <= i < before.len() ==> keep(#[trigger] before[i]),
                new_current <= self.shuffled_track_indicies@.len(),
                current <= before.len(),
                current < before.len() ==> new_current < self.shuffled_track_indicies@.len()
                    && self.shuffled_track_indicies@[new_current as int] == before[current as int],
            decreases count - k,
        {
            let ghost held = self.shuffled_track_indicies@;
            let fresh = first + k;
            let new_index = random_index(self.shuffled_track_indicies.len());
            proof {
                if held.contains(fresh) {
                    let i = choose|i: int| 0 <= i < held.len() && held[i] == fresh;
                    assert(before.contains(held[i]) || first <= held[i] < first + k);
                    if before.contains(fresh) {
                        let j = choose|j: int| 0 <= j < before.len() && before[j] == fresh;
                        assert(keep(before[j]));
                    }
                    assert(false);
                }
                lemma_insert_fresh(held, new_index as int, fresh);
                lemma_filter_insert_dropped(held, new_index as int, fresh, keep);
            }
            self.shuffled_track_indicies.insert(new_index, fresh);
            if new_index <= new_current {
                new_current += 1;
            }
            k += 1;
            proof {
                let now = self.shuffled_track_indicies@;
                assert forall|i: int| 0 <= i < now.len() implies before.contains(#[trigger] now[i])
                    || first <= now[i] < first + k by {
                    if i < new_index {
                        assert(now[i] == held[i]);
                    } else if i > new_index {
                        assert(now[i] == held[i - 1]);
                    }
                }
            }
        }
        new_current
    }

    /// Enters the indices `first, ..., first + count - 1` into the playing
    /// order at the positions `first, ..., first + count - 1`: where their
    /// tracks stand in the list.
    fn splice_fresh(&mut self, first: usize, count: usize)
        requires
            first <= old(self).order().len(),
            old(self).order().len() + count <= usize::MAX,
            forall|i: int|
                0 <= i < old(self).order().len() ==> (#[trigger] old(self).order()[i]) == (if i
                    < first {
                    i
                } else {
                    i + count
                }),
        ensures
            final(self).tracks() == old(self).tracks(),
            final(self).order().len() == old(self).order().len() + count,
            is_identity(final(self).order()),
            final(self).order().filter(outside(first as int, first + count)) == old(self).order(),
    {
        let ghost before = self.shuffled_track_indicies@;
        let ghost keep = outside(first as int, first + count);
        proof {
            lemma_filter_keeps_all(before, keep);
        }
        let mut k: usize = 0;
        while k < count
            invariant
                k <= count,
                first <= before.len(),
                before.len() + count <= usize::MAX,
                keep == outside(first as int, first + count),
                self.track_list@ == old(self).track_list@,
                self.shuffled_track_indicies@.len() == before.len() + k,
                self.shuffled_track_indicies@.filter(keep) == before,
                forall|i: int|
                    0 <= i < self.shuffled_track_indicies@.len() ==> (
                    #[trigger] self.shuffled_track_indicies@[i]) == (if i < first + k {
                        i
                    } else {
                        i - k + count
                    }),
            decreases count - k,
        {
            let ghost held = self.shuffled_track_indicies@;
            let fresh = first + k;
            proof {
                lemma_filter_insert_dropped(held, fresh as int, fresh, keep);
            }
            self.shuffled_track_indicies.insert(fresh, fresh);
            k += 1;
        }
    }

    /// Puts the playing order back into the order of insertion.
    fn order_tracks(&mut self)
        ensures
            final(self).tracks() == old(self).tracks(),
            final(self).order().len() == old(self).tracks().len(),
            is_identity(final(self).order()),
    {
        self.shuffled_track_indicies.clear();
        let len = self.track_list.len();
        let mut i: usize = 0;
        while i < len
            invariant
                i <= len,
                len == self.track_list@.len(),
                self.track_list@ == old(self).track_list@,
                self.shuffled_track_indicies@.len() == i,
                is_identity(self.shuffled_track_indicies@),
            decreases len - i,
        {
            self.shuffled_track_indicies.push(i);
            i += 1;
        }
    }
}


/// What a track list holds: the tracks in the order of insertion, the
/// playing order, and whether shuffle is on.
pub struct TrackListView {
    pub tracks: Seq<Arc<Track>>,
    pub order: Seq<usize>,
    pub shuffle: bool,
}

impl TrackListView {
    /// Both sequences are of one length, the playing order is a permutation
    /// of the indices of the tracks, and it is the identity while shuffle is
    /// off.
    pub open spec fn wf(self) -> bool {
        &&& self.tracks.len() == self.order.len()
        &&& is_permutation(self.order)
        &&& !self.shuffle ==> is_identity(self.order)
    }

    pub open spec fn len(self) -> nat {
        self.tracks.len()
    }

    /// The track at `position` of the playing order.
    pub open spec fn track_at(self, position: int) -> Arc<Track> {
        self.tracks[self.order[position] as int]
    }

    /// The track at `position` of the playing order, if there is one.
    pub open spec fn get_track(self, position: int) -> Option<Arc<Track>> {
        if 0 <= position < self.len() {
            Some(self.track_at(position))
        } else {
            None
        }
    }

    /// The track at `position` of the playing order and the one that plays
    /// after it, as far as they exist.
    pub open spec fn tracks_to_queue(self, position: int) -> Option<
        (Arc<Track>, Option<Arc<Track>>),
    > {
        if 0 <= position < self.len() {
            Some((self.track_at(position), self.get_track(position + 1)))
        } else {
            None
        }
    }

    /// The list without its tracks.
    pub open spec fn cleared(self) -> TrackListView {
        TrackListView { tracks: Seq::empty(), order: Seq::empty(), shuffle: self.shuffle }
    }

    /// The list that an insertion starts from: empty for `Replace`.
    pub open spec fn insert_base(self, position: InsertPosition) -> TrackListView {
        if position is Replace {
            self.cleared()
        } else {
            self
        }
    }

    /// The index at which an insertion at `position` puts the new tracks,
    /// seen from the position `current_index` of the playing order.
    pub open spec fn insert_index(self, current_index: usize, position: InsertPosition) -> usize {
        let base = self.insert_base(position);
        let current_track = if base.len() > 0 {
            base.order[current_index as int]
        } else {
            0
        };
        position.spec_get_absolute(current_track, base.len() as usize)
    }

    /// Whether `post` and `new_index` are a result of inserting `new` at
    /// `position` into this list, seen from the position `current_index` of
    /// the playing order:
    /// - the new tracks stand together at the insertion index;
    /// - the entries that were in the playing order are still in it, in the
    ///   order they had, and refer to the tracks they referred to;
    /// - `new_index` is the position of the track that was current, or 0 if
    ///   the list was empty or is replaced;
    /// - with shuffle off that determines `post`; with shuffle on, where the
    ///   new entries stand among the others is left to chance.
    pub open spec fn inserted(
        self,
        current_index: usize,
        position: InsertPosition,
        new: Seq<Arc<Track>>,
        post: TrackListView,
        new_index: usize,
    ) -> bool {
        let base = self.insert_base(position);
        let at = self.insert_index(current_index, position) as int;
        let count = new.len() as int;
        &&& post.shuffle == self.shuffle
        &&& post.wf()
        &&& post.tracks == spliced(base.tracks, at, new)
        &&& post.order.filter(outside(at, at + count)) == Seq::new(
            base.len(),
            |i: int| shifted(base.order[i], at, count) as usize,
        )
        &&& if base.len() == 0 {
            new_index == 0
        } else {
            &&& new_index < post.len()
            &&& post.order[new_index as int] == shifted(base.order[current_index as int], at, count)
            &&& !self.shuffle ==> new_index == shifted(current_index, at, count)
        }
    }

    /// Whether `post` and `new_index` are a result of switching shuffle to
    /// `shuffle`, seen from the position `current_index` of the playing
    /// order. Switching it on puts the current entry at the head of some
    /// permutation; switching it off restores the order of insertion, in
    /// which the current track stands at its own index.
    pub open spec fn shuffle_set(
        self,
        shuffle: bool,
        current_index: usize,
        post: TrackListView,
        new_index: usize,
    ) -> bool {
        &&& post.shuffle == shuffle
        &&& post.tracks == self.tracks
        &&& post.wf()
        &&& if self.len() == 0 {
            new_index == 0
        } else if shuffle {
            &&& new_index == 0
            &&& post.order[0] == self.order[current_index as int]
        } else {
            &&& new_index == self.order[current_index as int]
            &&& is_identity(post.order)
        }
    }
}

/// The track list of the player.
pub struct TrackList {
    inner: TrackListInner,
    shuffle_enabled: bool,
}

impl View for TrackList {
    type V = TrackListView;

    closed spec fn view(&self) -> TrackListView {
        TrackListView {
            tracks: self.inner.tracks(),
            order: self.inner.order(),
            shuffle: self.shuffle_enabled,
        }
    }
}

impl TrackList {
    /// The invariant of the track list.
    pub open spec fn wf(&self) -> bool {
        self@.wf()
    }

    /// An empty list with shuffle off.
    pub fn new() -> (list: TrackList)
        ensures
            list.wf(),
            list@.len() == 0,
            !list@.shuffle,
    {
        TrackList { inner: TrackListInner::new(), shuffle_enabled: false }
    }

    pub fn len(&self) -> (len: usize)
        ensures
            len == self@.len(),
    {
        self.inner.len()
    }

    /// The track at `index` of the playing order, if there is one.
    pub fn get_track(&self, index: usize) -> (track: Option<Arc<Track>>)
        requires
            self.wf(),
        ensures
            track == self@.get_track(index as int),
    {
        if index >= self.inner.len() {
            return None;
        }
        Some(share_track(self.inner.index(index)))
    }

    /// The track at `index` of the playing order and the one that plays
    /// after it: what the player loads now and what it loads ahead. `None`
    /// if there is no track at `index`.
    pub fn get_tracks_to_queue(&self, index: usize) -> (pair: Option<
        (Arc<Track>, Option<Arc<Track>>),
    >)
        requires
            self.wf(),
        ensures
            pair == self@.tracks_to_queue(index as int),
    {
        let num_tracks = self.inner.len();
        if index >= num_tracks {
            return None;
        }
        let current_track = share_track(self.inner.index(index));
        let is_last_track = index == num_tracks - 1;
        let next_track = if !is_last_track {
            Some(share_track(self.inner.index(index + 1)))
        } else {
            None
        };
        Some((current_track, next_track))
    }

    pub fn shuffle_enabled(&self) -> (enabled: bool)
        ensures
            enabled == self@.shuffle,
    {
        self.shuffle_enabled
    }

    /// Switches shuffle on or off and returns the position at which the
    /// track that stood at `current_index` stands afterwards.
    /// `current_index` has to be a position of the list, unless the list is
    /// empty.
    pub fn set_shuffle(&mut self, shuffle: bool, current_index: usize) -> (result: Result<
        usize,
        PlayerError,
    >)
        requires
            old(self).wf(),
            old(self)@.len() == 0 || current_index < old(self)@.len(),
        ensures
            final(self).wf(),
            result is Ok,
            old(self)@.shuffle_set(shuffle, current_index, final(self)@, result->Ok_0),
    {
        self.shuffle_enabled = shuffle;
        if self.inner.len() == 0 {
            return Ok(0);
        }
        if shuffle {
            let new_index = self.inner.shuffle_tracks(current_index);
            Ok(new_index)
        } else {
            let track_index = self.inner.shuffled_track_indicies[current_index];
            self.inner.order_tracks();
            proof {
                crate::order::lemma_identity_is_permutation(self.inner.order());
            }
            Ok(track_index)
        }
    }

    /// Empties the list. Whether shuffle is on stays as it is.
    pub fn clear(&mut self) -> (result: Result<(), PlayerError>)
        ensures
            final(self).wf(),
            result is Ok,
            final(self)@ == old(self)@.cleared(),
    {
        self.inner.clear();
        assert(self@.tracks =~= Seq::empty());
        assert(self@.order =~= Seq::empty());
        Ok(())
    }

    /// Inserts `tracks` at `position` and returns the position at which the
    /// track that stood at `current_index` stands afterwards.
    /// `current_index` has to be a position of the list, unless the list is
    /// empty or is replaced, and the list must not outgrow what a `usize`
    /// can count.
    pub fn insert_tracks(
        &mut self,
        current_index: usize,
        position: InsertPosition,
        tracks: &[Arc<Track>],
    ) -> (result: Result<usize, PlayerError>)
        requires
            old(self).wf(),
            old(self)@.len() + tracks@.len() <= usize::MAX,
            position is Replace || old(self)@.len() == 0 || current_index < old(self)@.len(),
        ensures
            final(self).wf(),
            result is Ok,
            old(self)@.inserted(current_index, position, tracks@, final(self)@, result->Ok_0),
    {
        if let InsertPosition::Replace = position {
            self.inner.clear();
            assert(self@ =~= old(self)@.cleared()) by {
                assert(self@.tracks =~= Seq::empty());
                assert(self@.order =~= Seq::empty());
            }
        }
        let ghost base = self@;
        let track_list_started_empty = self.inner.len() == 0;
        // `Next` goes behind the track that is current, wherever the playing
        // order has put it.
        let track_index = if !track_list_started_empty {
            self.inner.shuffled_track_indicies[current_index]
        } else {
            0
        };
        let insert_index = position.get_absolute(track_index, self.inner.len());
        let count = tracks.len();
        let ghost at = insert_index as int;
        let _ = self.inner.insert_tracks(insert_index, tracks);
        let ghost moved = self.inner.order();
        proof {
            assert(moved =~= Seq::new(
                base.len(),
                |i: int| shifted(base.order[i], at, count as int) as usize,
            ));
            assert(moved.no_duplicates()) by {
                assert forall|i: int, j: int|
                    0 <= i < moved.len() && 0 <= j < moved.len() && i != j implies moved[i]
                    != moved[j] by {
                    assert(base.order[i] != base.order[j]);
                }
            }
        }
        let new_current_index = if self.shuffle_enabled {
            let start = if track_list_started_empty {
                0
            } else {
                current_index
            };
            self.inner.scatter_fresh(insert_index, count, start)
        } else {
            self.inner.splice_fresh(insert_index, count);
            if track_list_started_empty {
                0
            } else if insert_index <= current_index {
                current_index + count
            } else {
                current_index
            }
        };
        proof {
            let order = self.inner.order();
            if self.shuffle_enabled {
                assert forall|i: int| 0 <= i < order.len() implies (#[trigger] order[i])
                    < order.len() by {
                    if moved.contains(order[i]) {
                        let j = choose|j: int| 0 <= j < moved.len() && moved[j] == order[i];
                        assert(base.order[j] < base.len());
                    }
                }
            } else {
                crate::order::lemma_identity_is_permutation(order);
            }
        }
        if !track_list_started_empty {
            Ok(new_current_index)
        } else {
            Ok(0)
        }
    }

    /// The list as it stands.
    pub fn get_snapshot(&self) -> (snapshot: TrackListSnapshot)
        ensures
            snapshot.track_list@ == self@.tracks,
            snapshot.shuffle_indicies@ == self@.order,
    {
        let mut track_list: Vec<Arc<Track>> = Vec::new();
        let mut i: usize = 0;
        while i < self.inner.track_list.len()
            invariant
                i <= self.inner.track_list@.len(),
                track_list@ == self.inner.track_list@.subrange(0, i as int),
            decreases self.inner.track_list@.len() - i,
        {
            track_list.push(share_track(&self.inner.track_list[i]));
            i += 1;
            assert(track_list@ =~= self.inner.track_list@.subrange(0, i as int));
        }
        assert(track_list@ =~= self.inner.track_list@);
        let mut shuffle_indicies: Vec<usize> = Vec::new();
        let mut j: usize = 0;
        while j < self.inner.shuffled_track_indicies.len()
            invariant
                j <= self.inner.shuffled_track_indicies@.len(),
                shuffle_indicies@ == self.inner.shuffled_track_indicies@.subrange(0, j as int),
            decreases self.inner.shuffled_track_indicies@.len() - j,
        {
            shuffle_indicies.push(self.inner.shuffled_track_indicies[j]);
            j += 1;
            assert(shuffle_indicies@ =~= self.inner.shuffled_track_indicies@.subrange(0, j as int));
        }
        assert(shuffle_indicies@ =~= self.inner.shuffled_track_indicies@);
        TrackListSnapshot { track_list, shuffle_indicies }
    }
}

} // verus!
