//! The track list as a front-end keeps it: a copy of the player's list that
//! is brought up to date by the updates that the player sends.

use crate::order::spliced;
use crate::types::{share_track, Track, TrackListSnapshot};
use std::sync::Arc;
use vstd::prelude::*;

verus! {

/// One change of the player's track list.
#[derive(Debug)]
pub enum TrackListUpdate {
    /// `tracks` were inserted at `index`.
    Insert { index: usize, tracks: Vec<Arc<Track>>, new_shuffle_indicies: Vec<usize> },
    /// The tracks at `removed_indicies` were removed.
    Remove { removed_indicies: Vec<usize>, new_shuffle_indicies: Vec<usize> },
    /// The list is now this one.
    Replace(TrackListSnapshot),
    /// The list is now empty.
    Clear,
    /// The playing order is now this one.
    Shuffle { new_shuffle_indicies: Vec<usize> },
}

/// `tracks` without those whose index is one of `removed`.
pub open spec fn without_indices<T>(tracks: Seq<T>, removed: Seq<usize>) -> Seq<T>
    decreases tracks.len(),
{
    if tracks.len() == 0 {
        tracks
    } else {
        let rest = without_indices(tracks.drop_last(), removed);
        if removed.contains((tracks.len() - 1) as usize) {
            rest
        } else {
            rest.push(tracks.last())
        }
    }
}

/// What a front-end's track list holds.
pub struct ClientView {
    pub tracks: Seq<Arc<Track>>,
    pub order: Seq<usize>,
    /// Whether an update could not be applied since the list was last set
    /// as a whole.
    pub needs_sync: bool,
}

impl ClientView {
    /// There are as many entries in the playing order as there are tracks.
    pub open spec fn wf(self) -> bool {
        self.tracks.len() == self.order.len()
    }

    /// The list after it was set as a whole.
    pub open spec fn synced(tracks: Seq<Arc<Track>>, order: Seq<usize>) -> ClientView {
        ClientView { tracks, order, needs_sync: false }
    }

    /// The list after an update that does not fit it: nothing changes but
    /// that the list is known to be out of date.
    pub open spec fn out_of_sync(self) -> ClientView {
        ClientView { needs_sync: true, ..self }
    }

    /// Whether `update` fits the list: whether applying it leaves as many
    /// entries in the playing order as there are tracks, and an insertion
    /// does not go beyond the end of the list.
    pub open spec fn fits(self, update: TrackListUpdate) -> bool {
        match update {
            TrackListUpdate::Insert { index, tracks, new_shuffle_indicies } => {
                &&& index <= self.tracks.len()
                &&& self.tracks.len() + tracks@.len() == new_shuffle_indicies@.len()
            },
            TrackListUpdate::Remove { removed_indicies, new_shuffle_indicies } => {
                without_indices(self.tracks, removed_indicies@).len() == new_shuffle_indicies@.len()
            },
            TrackListUpdate::Replace(snapshot) => {
                snapshot.track_list@.len() == snapshot.shuffle_indicies@.len()
            },
            TrackListUpdate::Clear => true,
            TrackListUpdate::Shuffle { new_shuffle_indicies } => {
                self.tracks.len() == new_shuffle_indicies@.len()
            },
        }
    }

    /// The list after `update`. An update that does not fit changes nothing
    /// but marks the list as out of date; setting or clearing the whole
    /// list takes the mark away, and the other updates leave it.
    pub open spec fn updated(self, update: TrackListUpdate) -> ClientView {
        if !self.fits(update) {
            self.out_of_sync()
        } else {
            match update {
                TrackListUpdate::Insert { index, tracks, new_shuffle_indicies } => ClientView {
                    tracks: spliced(self.tracks, index as int, tracks@),
                    order: new_shuffle_indicies@,
                    ..self
                },
                TrackListUpdate::Remove { removed_indicies, new_shuffle_indicies } => ClientView {
                    tracks: without_indices(self.tracks, removed_indicies@),
                    order: new_shuffle_indicies@,
                    ..self
                },
                TrackListUpdate::Replace(snapshot) => ClientView::synced(
                    snapshot.track_list@,
                    snapshot.shuffle_indicies@,
                ),
                TrackListUpdate::Clear => ClientView::synced(Seq::empty(), Seq::empty()),
                TrackListUpdate::Shuffle { new_shuffle_indicies } => ClientView {
                    order: new_shuffle_indicies@,
                    ..self
                },
            }
        }
    }

    /// The track at `position` of the playing order, if the order has that
    /// position and the entry there refers to a track.
    pub open spec fn get(self, position: int) -> Option<Arc<Track>> {
        if 0 <= position < self.order.len() && self.order[position] < self.tracks.len() {
            Some(self.tracks[self.order[position] as int])
        } else {
            None
        }
    }
}

/// A front-end's copy of the player's track list.
#[derive(Debug)]
pub struct TrackList {
    track_list: Vec<Arc<Track>>,
    shuffle_indicies: Vec<usize>,
    needs_sync: bool,
}

impl View for TrackList {
    type V = ClientView;

    closed spec fn view(&self) -> ClientView {
        ClientView {
            tracks: self.track_list@,
            order: self.shuffle_indicies@,
            needs_sync: self.needs_sync,
        }
    }
}

fn contains_index(indices: &Vec<usize>, index: usize) -> (found: bool)
    ensures
        found == indices@.contains(index),
{
    let mut i: usize = 0;
    while i < indices.len()
        invariant
            i <= indices@.len(),
            forall|j: int| 0 <= j < i ==> indices@[j] != index,
        decreases indices@.len() - i,
    {
        if indices[i] == index {
            return true;
        }
        i += 1;
    }
    false
}

impl TrackList {
    /// The invariant of the list.
    pub open spec fn wf(&self) -> bool {
        self@.wf()
    }

    /// An empty list that is up to date.
    pub fn new() -> (list: TrackList)
        ensures
            list.wf(),
            list@ == ClientView::synced(Seq::empty(), Seq::empty()),
    {
        TrackList { track_list: Vec::new(), shuffle_indicies: Vec::new(), needs_sync: false }
    }

    /// The list that `snapshot` shows.
    pub fn from_snapshot(snapshot: TrackListSnapshot) -> (list: TrackList)
        requires
            snapshot.track_list@.len() == snapshot.shuffle_indicies@.len(),
        ensures
            list.wf(),
            list@ == ClientView::synced(snapshot.track_list@, snapshot.shuffle_indicies@),
    {
        TrackList {
            track_list: snapshot.track_list,
            shuffle_indicies: snapshot.shuffle_indicies,
            needs_sync: false,
        }
    }

    pub fn len(&self) -> (len: usize)
        ensures
            len == self@.tracks.len(),
    {
        self.track_list.len()
    }

    /// Whether an update could not be applied since the list was last set
    /// as a whole, so that it has to be fetched anew.
    pub fn needs_sync(&self) -> (needed: bool)
        ensures
            needed == self@.needs_sync,
    {
        self.needs_sync
    }

    /// The tracks in the order in which they were inserted.
    pub fn track_list(&self) -> (tracks: &Vec<Arc<Track>>)
        ensures
            tracks@ == self@.tracks,
    {
        &self.track_list
    }

    /// The playing order.
    pub fn shuffle_indicies(&self) -> (order: &Vec<usize>)
        ensures
            order@ == self@.order,
    {
        &self.shuffle_indicies
    }

    /// The track at `index` of the playing order, if there is one.
    pub fn get(&self, index: usize) -> (track: Option<&Arc<Track>>)
        ensures
            match track {
                Some(track) => self@.get(index as int) == Some(*track),
                None => self@.get(index as int) is None,
            },
    {
        if index >= self.shuffle_indicies.len() {
            return None;
        }
        let track_index = self.shuffle_indicies[index];
        if track_index >= self.track_list.len() {
            return None;
        }
        Some(&self.track_list[track_index])
    }

    /// The tracks in playing order. An entry of the order that refers to no
    /// track is passed over.
    pub fn iter(&self) -> (tracks: Vec<Arc<Track>>)
        ensures
            tracks@.len() <= self@.order.len(),
            self@.wf() && (forall|i: int|
                0 <= i < self@.order.len() ==> (#[trigger] self@.order[i]) < self@.tracks.len())
                ==> tracks@.len() == self@.order.len() && forall|i: int|
                0 <= i < tracks@.len() ==> Some(#[trigger] tracks@[i]) == self@.get(i),
    {
        let mut tracks: Vec<Arc<Track>> = Vec::new();
        let mut index: usize = 0;
        let ghost mut complete = true;
        while index < self.shuffle_indicies.len()
            invariant
                index <= self.shuffle_indicies@.len(),
                tracks@.len() <= index,
                complete ==> tracks@.len() == index,
                complete ==> forall|i: int|
                    0 <= i < index ==> Some(#[trigger] tracks@[i]) == self@.get(i),
                !complete ==> exists|i: int|
                    0 <= i < self@.order.len() && (#[trigger] self@.order[i]) >= self@.tracks.len(),
            decreases self.shuffle_indicies@.len() - index,
        {
            match self.get(index) {
                Some(track) => {
                    tracks.push(share_track(track));
                },
                None => {
                    proof {
                        complete = false;
                        assert(self@.order[index as int] >= self@.tracks.len());
                    }
                },
            }
            index += 1;
        }
        tracks
    }

    /// Sets the list as a whole to what `snapshot` shows. The list is up to
    /// date afterwards.
    pub fn sync(&mut self, snapshot: TrackListSnapshot)
        requires
            snapshot.track_list@.len() == snapshot.shuffle_indicies@.len(),
        ensures
            final(self).wf(),
            final(self)@ == ClientView::synced(snapshot.track_list@, snapshot.shuffle_indicies@),
    {
        self.track_list = snapshot.track_list;
        self.shuffle_indicies = snapshot.shuffle_indicies;
        self.needs_sync = false;
    }

    /// Applies `update`. An update that does not fit the list is refused:
    /// the list then stays as it is and is marked as out of date.
    pub fn update(&mut self, update: TrackListUpdate) -> (result: Result<(), ()>)
        requires
            old(self).wf(),
        ensures
            final(self).wf(),
            final(self)@ == old(self)@.updated(update),
            result is Ok <==> old(self)@.fits(update),
    {
        match update {
            TrackListUpdate::Insert { index, tracks, new_shuffle_indicies } => {
                let len = self.track_list.len();
                if index > len || new_shuffle_indicies.len() < len || new_shuffle_indicies.len()
                    - len != tracks.len() {
                    self.needs_sync = true;
                    return Err(());
                }
                let ghost before = self.track_list@;
                let total = new_shuffle_indicies.len();
                let mut k: usize = 0;
                while k < tracks.len()
                    invariant
                        k <= tracks@.len(),
                        index <= before.len(),
                        before.len() + tracks@.len() == total,
                        total == new_shuffle_indicies@.len(),
                        self.track_list@ == before.subrange(0, index as int) + tracks@.subrange(
                            0,
                            k as int,
                        ) + before.subrange(index as int, before.len() as int),
                        self.needs_sync == old(self).needs_sync,
                    decreases tracks@.len() - k,
                {
                    self.track_list.insert(index + k, share_track(&tracks[k]));
                    k += 1;
                    assert(self.track_list@ =~= before.subrange(0, index as int)
                        + tracks@.subrange(0, k as int) + before.subrange(
                        index as int,
                        before.len() as int,
                    ));
                }
                assert(tracks@.subrange(0, tracks@.len() as int) =~= tracks@);
                self.shuffle_indicies = new_shuffle_indicies;
            },
            TrackListUpdate::Remove { removed_indicies, new_shuffle_indicies } => {
                let mut kept: Vec<Arc<Track>> = Vec::new();
                let mut index: usize = 0;
                while index < self.track_list.len()
                    invariant
                        index <= self.track_list@.len(),
                        self.track_list@ == old(self).track_list@,
                        self.shuffle_indicies@ == old(self).shuffle_indicies@,
                        self.needs_sync == old(self).needs_sync,
                        kept@ == without_indices(
                            self.track_list@.take(index as int),
                            removed_indicies@,
                        ),
                    decreases self.track_list@.len() - index,
                {
                    proof {
                        let longer = self.track_list@.take(index + 1);
                        assert(longer.drop_last() =~= self.track_list@.take(index as int));
                        assert(longer.last() == self.track_list@[index as int]);
                    }
                    if !contains_index(&removed_indicies, index) {
                        kept.push(share_track(&self.track_list[index]));
                    }
                    index += 1;
                }
                assert(self.track_list@.take(index as int) =~= self.track_list@);
                if kept.len() != new_shuffle_indicies.len() {
                    self.needs_sync = true;
                    return Err(());
                }
                self.track_list = kept;
                self.shuffle_indicies = new_shuffle_indicies;
            },
            TrackListUpdate::Replace(snapshot) => {
                if snapshot.track_list.len() != snapshot.shuffle_indicies.len() {
                    self.needs_sync = true;
                    return Err(());
                }
                self.sync(snapshot);
            },
            TrackListUpdate::Clear => {
                self.track_list.clear();
                self.shuffle_indicies.clear();
                self.needs_sync = false;
                assert(self@.tracks =~= Seq::empty());
                assert(self@.order =~= Seq::empty());
            },
            TrackListUpdate::Shuffle { new_shuffle_indicies } => {
                if self.track_list.len() != new_shuffle_indicies.len() {
                    self.needs_sync = true;
                    return Err(());
                }
                self.shuffle_indicies = new_shuffle_indicies;
            },
        }
        Ok(())
    }
}

} // verus!
