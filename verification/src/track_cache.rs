//! From what was found on disk to what goes into the track list.
//!
//! Reading directories and loading files is the caller's business. What it
//! found, it hands over as a tree; here the tree becomes the list of tracks
//! and the list of failures.

use crate::errors::LoadTrackError;
use crate::track_order::{
    arranged, key_of, key_views, lowercased, sort_key, sort_tracks, stable_order, SortKey,
    SortKeyView,
};
use crate::types::Track;
use std::path::PathBuf;
use std::sync::Arc;
use vstd::prelude::*;

verus! {

/// What was found at one path.
#[derive(Debug)]
pub enum Found {
    /// A file, which was loaded. `file_stem` is the stem of its name, for
    /// the case that its tags give no title.
    Track { track: Arc<Track>, file_stem: Option<String> },
    /// Something at `path` that could not be read or loaded.
    Failed { path: PathBuf, error: LoadTrackError },
    /// A directory, with what was found at each of its entries, in the
    /// order in which the entries were read.
    Directory { entries: Vec<Found> },
}

/// The key by which a track that was found is ordered.
pub open spec fn track_key(track: Arc<Track>, file_stem: Option<String>) -> SortKeyView {
    key_of(
        *track.spec_metadata(),
        match track.spec_metadata().title {
            Some(title) => Some(lowercased(title@)),
            None => None,
        },
        match file_stem {
            Some(stem) => Some(stem@),
            None => None,
        },
    )
}

/// The files among the first `upto` entries of a directory, in the order
/// in which they were read.
pub open spec fn own_tracks(entries: Seq<Found>, upto: nat) -> Seq<Arc<Track>>
    decreases upto,
{
    if upto == 0 || upto > entries.len() {
        Seq::empty()
    } else {
        let before = own_tracks(entries, (upto - 1) as nat);
        match entries[upto - 1] {
            Found::Track { track, .. } => before.push(track),
            _ => before,
        }
    }
}

/// The keys of those files.
pub open spec fn own_keys(entries: Seq<Found>, upto: nat) -> Seq<SortKeyView>
    decreases upto,
{
    if upto == 0 || upto > entries.len() {
        Seq::empty()
    } else {
        let before = own_keys(entries, (upto - 1) as nat);
        match entries[upto - 1] {
            Found::Track { track, file_stem } => before.push(track_key(track, file_stem)),
            _ => before,
        }
    }
}

/// The tracks that come of what was found, in the order in which they go
/// into the list. Of a directory its own files come first, ordered by
/// album, track number and title; then come the tracks of the directories
/// in it, directory by directory in the order in which they were read.
pub open spec fn tracks_of(found: Found) -> Seq<Arc<Track>>
    decreases found,
{
    match found {
        Found::Track { track, .. } => seq![track],
        Found::Failed { .. } => Seq::empty(),
        Found::Directory { entries } => arranged(
            own_tracks(entries@, entries@.len()),
            stable_order(own_keys(entries@, entries@.len())),
        ) + nested_tracks(entries@, entries@.len()),
    }
}

/// The tracks of the directories among the first `upto` entries of a
/// directory.
pub open spec fn nested_tracks(entries: Seq<Found>, upto: nat) -> Seq<Arc<Track>>
    decreases entries, upto,
{
    if upto == 0 || upto > entries.len() {
        Seq::empty()
    } else {
        let before = nested_tracks(entries, (upto - 1) as nat);
        match entries[upto - 1] {
            Found::Directory { .. } => before + tracks_of(entries[upto - 1]),
            _ => before,
        }
    }
}

/// The failures in what was found, each with its path, in the order in
/// which they were met.
pub open spec fn errors_of(found: Found) -> Seq<(PathBuf, LoadTrackError)>
    decreases found,
{
    match found {
        Found::Track { .. } => Seq::empty(),
        Found::Failed { path, error } => seq![(path, error)],
        Found::Directory { entries } => errors_in(entries@, entries@.len()),
    }
}

/// The failures in the first `upto` of `found`.
pub open spec fn errors_in(found: Seq<Found>, upto: nat) -> Seq<(PathBuf, LoadTrackError)>
    decreases found, upto,
{
    if upto == 0 || upto > found.len() {
        Seq::empty()
    } else {
        errors_in(found, (upto - 1) as nat) + errors_of(found[upto - 1])
    }
}

/// The tracks that come of the first `upto` of `found`, one after the
/// other.
pub open spec fn tracks_in(found: Seq<Found>, upto: nat) -> Seq<Arc<Track>>
    decreases upto,
{
    if upto == 0 || upto > found.len() {
        Seq::empty()
    } else {
        tracks_in(found, (upto - 1) as nat) + tracks_of(found[upto - 1])
    }
}

/// Turns `entries` around, so that they can be taken one by one from the
/// first on.
fn reversed(entries: Vec<Found>) -> (stack: Vec<Found>)
    ensures
        stack@.len() == entries@.len(),
        forall|i: int|
            0 <= i < stack@.len() ==> (#[trigger] stack@[i]) == entries@[entries@.len() - 1 - i],
{
    let ghost all = entries@;
    let mut entries = entries;
    let mut stack: Vec<Found> = Vec::new();
    while entries.len() > 0
        invariant
            entries@.len() + stack@.len() == all.len(),
            entries@ == all.take(entries@.len() as int),
            forall|i: int| 0 <= i < stack@.len() ==> (#[trigger] stack@[i]) == all[all.len() - 1 - i],
        decreases entries@.len(),
    {
        match entries.pop() {
            Some(entry) => {
                stack.push(entry);
                assert(entries@ =~= all.take(entries@.len() as int));
            },
            None => {},
        }
    }
    stack
}

/// Adds the tracks that come of `found` to `tracks` and its failures to
/// `errors`. A failure takes nothing away from what was found beside it.
pub fn collect(
    found: Found,
    tracks: &mut Vec<Arc<Track>>,
    errors: &mut Vec<(PathBuf, LoadTrackError)>,
)
    ensures
        final(tracks)@ == old(tracks)@ + tracks_of(found),
        final(errors)@ == old(errors)@ + errors_of(found),
    decreases found,
{
    match found {
        Found::Track { track, file_stem } => {
            tracks.push(track);
            assert(tracks@ =~= old(tracks)@ + tracks_of(found));
            assert(errors@ =~= old(errors)@ + errors_of(found));
        },
        Found::Failed { path, error } => {
            errors.push((path, error));
            assert(tracks@ =~= old(tracks)@ + tracks_of(found));
            assert(errors@ =~= old(errors)@ + errors_of(found));
        },
        Found::Directory { entries } => {
            let ghost all = entries@;
            let mut stack = reversed(entries);
            let total = stack.len();
            let mut own: Vec<Arc<Track>> = Vec::new();
            let mut keys: Vec<SortKey> = Vec::new();
            let mut nested: Vec<Arc<Track>> = Vec::new();
            let mut i: usize = 0;
            assert(errors@ =~= old(errors)@ + errors_in(all, 0));
            assert(key_views(keys@) =~= own_keys(all, 0));
            while stack.len() > 0
                invariant
                    found matches Found::Directory { entries } && entries@ == all,
                    i + stack@.len() == all.len(),
                    all.len() == total,
                    keys@.len() == own@.len(),
                    forall|j: int|
                        0 <= j < stack@.len() ==> (#[trigger] stack@[j]) == all[all.len() - 1 - j],
                    tracks@ == old(tracks)@,
                    own@ == own_tracks(all, i as nat),
                    key_views(keys@) == own_keys(all, i as nat),
                    nested@ == nested_tracks(all, i as nat),
                    errors@ == old(errors)@ + errors_in(all, i as nat),
                decreases stack@.len(),
            {
                let ghost held_keys = keys@;
                match stack.pop() {
                    Some(entry) => {
                        assert(entry == all[i as int]);
                        let is_directory = match &entry {
                            Found::Directory { .. } => true,
                            _ => false,
                        };
                        if is_directory {
                            collect(entry, &mut nested, errors);
                            assert(errors@ =~= old(errors)@ + errors_in(all, (i + 1) as nat));
                        } else {
                            match entry {
                                Found::Track { track, file_stem } => {
                                    let stem = match &file_stem {
                                        Some(stem) => Some(stem.as_str()),
                                        None => None,
                                    };
                                    let key = sort_key(track.metadata(), stem);
                                    own.push(track);
                                    keys.push(key);
                                    assert(key_views(keys@) =~= key_views(held_keys).push(key@));
                                    assert(errors@ =~= old(errors)@ + errors_in(
                                        all,
                                        (i + 1) as nat,
                                    ));
                                },
                                Found::Failed { path, error } => {
                                    errors.push((path, error));
                                    assert(errors@ =~= old(errors)@ + errors_in(
                                        all,
                                        (i + 1) as nat,
                                    ));
                                },
                                Found::Directory { .. } => {},
                            }
                        }
                    },
                    None => {},
                }
                i += 1;
            }
            proof {
                assert(key_views(keys@).len() == keys@.len());
            }
            let _ = sort_tracks(&mut own, &keys);
            tracks.append(&mut own);
            tracks.append(&mut nested);
            assert(tracks@ =~= old(tracks)@ + tracks_of(found));
        },
    }
}

/// The tracks that come of everything that was found, and the failures in
/// it. What was found at one path comes before what was found at the next.
pub fn collect_all(found: Vec<Found>) -> (result: (
    Vec<Arc<Track>>,
    Vec<(PathBuf, LoadTrackError)>,
))
    ensures
        result.0@ == tracks_in(found@, found@.len()),
        result.1@ == errors_in(found@, found@.len()),
{
    let ghost all = found@;
    let mut stack = reversed(found);
    let total = stack.len();
    let mut tracks: Vec<Arc<Track>> = Vec::new();
    let mut errors: Vec<(PathBuf, LoadTrackError)> = Vec::new();
    let mut i: usize = 0;
    while stack.len() > 0
        invariant
            i + stack@.len() == all.len(),
            all.len() == total,
            forall|j: int| 0 <= j < stack@.len() ==> (#[trigger] stack@[j]) == all[all.len() - 1 - j],
            tracks@ == tracks_in(all, i as nat),
            errors@ == errors_in(all, i as nat),
        decreases stack@.len(),
    {
        match stack.pop() {
            Some(entry) => {
                assert(entry == all[i as int]);
                collect(entry, &mut tracks, &mut errors);
            },
            None => {},
        }
        i += 1;
    }
    (tracks, errors)
}

} // verus!
