//! The order in which the tracks of one directory go into the list: by
//! album, then by track number, then by title.

use crate::order::{is_permutation, lemma_insert_fresh};
use crate::types::{share_track, Track, TrackMetadata};
use std::sync::Arc;
use vstd::prelude::*;
use vstd::string::*;
use vstd::utf8::encode_utf8;

verus! {

/// Whether `a` comes no later than `b` in the order of the dictionary,
/// byte by byte.
pub open spec fn bytes_le(a: Seq<u8>, b: Seq<u8>) -> bool
    decreases a.len(),
{
    if a.len() == 0 {
        true
    } else if b.len() == 0 {
        false
    } else if a[0] != b[0] {
        a[0] < b[0]
    } else {
        bytes_le(a.drop_first(), b.drop_first())
    }
}

/// Of two sequences of bytes one comes no later than the other.
pub proof fn lemma_bytes_le_total(a: Seq<u8>, b: Seq<u8>)
    ensures
        bytes_le(a, b) || bytes_le(b, a),
    decreases a.len(),
{
    if a.len() > 0 && b.len() > 0 && a[0] == b[0] {
        lemma_bytes_le_total(a.drop_first(), b.drop_first());
    }
}

/// What comes no later than something that comes no later than a third
/// comes no later than the third.
pub proof fn lemma_bytes_le_transitive(a: Seq<u8>, b: Seq<u8>, c: Seq<u8>)
    requires
        bytes_le(a, b),
        bytes_le(b, c),
    ensures
        bytes_le(a, c),
    decreases a.len(),
{
    if a.len() > 0 && b.len() > 0 && c.len() > 0 && a[0] == b[0] && b[0] == c[0] {
        lemma_bytes_le_transitive(a.drop_first(), b.drop_first(), c.drop_first());
    }
}

/// Whether the text `a` comes no later than the text `b`: in the order of
/// the dictionary over their bytes in UTF-8, which is the order of `str`.
pub open spec fn text_le(a: Seq<char>, b: Seq<char>) -> bool {
    bytes_le(encode_utf8(a), encode_utf8(b))
}

/// What a track is ordered by.
#[derive(Debug)]
pub struct SortKey {
    pub album: Option<String>,
    pub track_number: Option<usize>,
    /// The title in lower case, or the stem of the file name where the tags
    /// give no title.
    pub title: String,
}

/// A sort key, with its texts as sequences of characters.
pub struct SortKeyView {
    pub album: Option<Seq<char>>,
    pub track_number: Option<usize>,
    pub title: Seq<char>,
}

impl View for SortKey {
    type V = SortKeyView;

    open spec fn view(&self) -> SortKeyView {
        SortKeyView {
            album: match self.album {
                Some(album) => Some(album@),
                None => None,
            },
            track_number: self.track_number,
            title: self.title@,
        }
    }
}

/// Whether the album `a` comes no later than the album `b`. Tracks without
/// an album come first.
pub open spec fn album_le(a: Option<Seq<char>>, b: Option<Seq<char>>) -> bool {
    match (a, b) {
        (None, _) => true,
        (Some(_), None) => false,
        (Some(x), Some(y)) => text_le(x, y),
    }
}

/// Whether the track number `a` comes no later than the track number `b`.
/// Tracks without a number come last.
pub open spec fn number_le(a: Option<usize>, b: Option<usize>) -> bool {
    match (a, b) {
        (_, None) => true,
        (None, Some(_)) => false,
        (Some(x), Some(y)) => x <= y,
    }
}

/// Whether a track with the key `a` comes no later than one with the key
/// `b`: the album decides; between tracks of one album the track number;
/// between tracks of one number the title.
pub open spec fn key_le(a: SortKeyView, b: SortKeyView) -> bool {
    if !album_le(a.album, b.album) {
        false
    } else if !album_le(b.album, a.album) {
        true
    } else if !number_le(a.track_number, b.track_number) {
        false
    } else if !number_le(b.track_number, a.track_number) {
        true
    } else {
        text_le(a.title, b.title)
    }
}

/// Of two keys one comes no later than the other.
pub proof fn lemma_key_le_total(a: SortKeyView, b: SortKeyView)
    ensures
        key_le(a, b) || key_le(b, a),
{
    lemma_bytes_le_total(encode_utf8(a.title), encode_utf8(b.title));
    if a.album is Some && b.album is Some {
        lemma_bytes_le_total(encode_utf8(a.album->Some_0), encode_utf8(b.album->Some_0));
    }
}

proof fn lemma_album_le_transitive(
    a: Option<Seq<char>>,
    b: Option<Seq<char>>,
    c: Option<Seq<char>>,
)
    requires
        album_le(a, b),
        album_le(b, c),
    ensures
        album_le(a, c),
{
    if a is Some && b is Some && c is Some {
        lemma_bytes_le_transitive(
            encode_utf8(a->Some_0),
            encode_utf8(b->Some_0),
            encode_utf8(c->Some_0),
        );
    }
}

/// The order of the keys is transitive.
pub proof fn lemma_key_le_transitive(a: SortKeyView, b: SortKeyView, c: SortKeyView)
    requires
        key_le(a, b),
        key_le(b, c),
    ensures
        key_le(a, c),
{
    lemma_album_le_transitive(a.album, b.album, c.album);
    if album_le(c.album, a.album) {
        lemma_album_le_transitive(c.album, a.album, b.album);
        lemma_album_le_transitive(b.album, c.album, a.album);
        if number_le(c.track_number, a.track_number) {
            lemma_bytes_le_transitive(
                encode_utf8(a.title),
                encode_utf8(b.title),
                encode_utf8(c.title),
            );
        }
    }
}

/// `text` in lower case, as `str::to_lowercase` puts it.
pub uninterp spec fn lowercased(text: Seq<char>) -> Seq<char>;

/// `str::to_lowercase`: `text` in lower case.
#[verifier::external_body]
fn lowercase(text: &str) -> (lower: String)
    ensures
        lower@ == lowercased(text@),
{
    text.to_lowercase()
}

/// The title that a track is ordered by, given the title that its tags
/// give and the stem of its file name, each in the form in which it counts:
/// the title of the tags, else the stem, else the empty text.
pub open spec fn title_key(title: Option<Seq<char>>, file_stem: Option<Seq<char>>) -> Seq<char> {
    match title {
        Some(title) => title,
        None => match file_stem {
            Some(stem) => stem,
            None => Seq::empty(),
        },
    }
}

/// The key of a track with the tags `metadata` whose title in lower case
/// is `lower_title` and whose file name has the stem `file_stem`.
pub open spec fn key_of(
    metadata: TrackMetadata,
    lower_title: Option<Seq<char>>,
    file_stem: Option<Seq<char>>,
) -> SortKeyView {
    SortKeyView {
        album: match metadata.album {
            Some(album) => Some(album@),
            None => None,
        },
        track_number: metadata.track_number,
        title: title_key(lower_title, file_stem),
    }
}

/// The key of a track, from its tags, its title in lower case and the stem
/// of its file name.
pub fn key_from_parts(
    metadata: &TrackMetadata,
    lower_title: Option<String>,
    file_stem: Option<&str>,
) -> (key: SortKey)
    ensures
        key@ == key_of(
            *metadata,
            match lower_title {
                Some(title) => Some(title@),
                None => None,
            },
            match file_stem {
                Some(stem) => Some(stem@),
                None => None,
            },
        ),
{
    let title = match lower_title {
        Some(title) => title,
        None => match file_stem {
            Some(stem) => stem.to_owned(),
            None => String::new(),
        },
    };
    let album = match &metadata.album {
        Some(album) => Some(album.clone()),
        None => None,
    };
    SortKey { album, track_number: metadata.track_number, title }
}

/// The key of a track with the tags `metadata` whose file name has the
/// stem `file_stem`. The title counts in lower case; the stem counts as it
/// is.
pub fn sort_key(metadata: &TrackMetadata, file_stem: Option<&str>) -> (key: SortKey)
    ensures
        key@ == key_of(
            *metadata,
            match metadata.title {
                Some(title) => Some(lowercased(title@)),
                None => None,
            },
            match file_stem {
                Some(stem) => Some(stem@),
                None => None,
            },
        ),
{
    let lower_title = match &metadata.title {
        Some(title) => Some(lowercase(title.as_str())),
        None => None,
    };
    key_from_parts(metadata, lower_title, file_stem)
}

fn bytes_no_later(a: &[u8], b: &[u8]) -> (le: bool)
    ensures
        le == bytes_le(a@, b@),
{
    let mut i: usize = 0;
    assert(a@.skip(0) =~= a@ && b@.skip(0) =~= b@);
    while i < a.len() && i < b.len()
        invariant
            i <= a@.len(),
            i <= b@.len(),
            bytes_le(a@, b@) == bytes_le(a@.skip(i as int), b@.skip(i as int)),
        decreases a@.len() - i,
    {
        proof {
            assert(a@.skip(i as int).drop_first() =~= a@.skip(i + 1));
            assert(b@.skip(i as int).drop_first() =~= b@.skip(i + 1));
            assert(a@.skip(i as int)[0] == a@[i as int]);
            assert(b@.skip(i as int)[0] == b@[i as int]);
        }
        if a[i] != b[i] {
            return a[i] < b[i];
        }
        i += 1;
    }
    i >= a.len()
}

fn text_no_later(a: &String, b: &String) -> (le: bool)
    ensures
        le == text_le(a@, b@),
{
    bytes_no_later(a.as_str().as_bytes(), b.as_str().as_bytes())
}

fn album_no_later(a: &Option<String>, b: &Option<String>) -> (le: bool)
    ensures
        le == album_le(
            match *a {
                Some(x) => Some(x@),
                None => None,
            },
            match *b {
                Some(y) => Some(y@),
                None => None,
            },
        ),
{
    match (a, b) {
        (None, _) => true,
        (Some(_), None) => false,
        (Some(x), Some(y)) => text_no_later(x, y),
    }
}

fn number_no_later(a: Option<usize>, b: Option<usize>) -> (le: bool)
    ensures
        le == number_le(a, b),
{
    match (a, b) {
        (_, None) => true,
        (None, Some(_)) => false,
        (Some(x), Some(y)) => x <= y,
    }
}

/// Whether a track with the key `a` comes no later than one with the key
/// `b`.
pub fn key_no_later(a: &SortKey, b: &SortKey) -> (le: bool)
    ensures
        le == key_le(a@, b@),
{
    if !album_no_later(&a.album, &b.album) {
        false
    } else if !album_no_later(&b.album, &a.album) {
        true
    } else if !number_no_later(a.track_number, b.track_number) {
        false
    } else if !number_no_later(b.track_number, a.track_number) {
        true
    } else {
        text_no_later(&a.title, &b.title)
    }
}

/// The keys, with their texts as sequences of characters.
pub open spec fn key_views(keys: Seq<SortKey>) -> Seq<SortKeyView> {
    keys.map_values(|key: SortKey| key@)
}

/// Whether `order` lists indices of `keys` so that the keys ascend, and
/// so that of two equal keys the one with the lower index comes first.
pub open spec fn sorted_by_key(keys: Seq<SortKeyView>, order: Seq<usize>) -> bool {
    forall|k: int, l: int|
        0 <= k < l < order.len() ==> {
            &&& key_le(keys[(#[trigger] order[k]) as int], keys[(#[trigger] order[l]) as int])
            &&& key_le(keys[order[l] as int], keys[order[k] as int]) ==> order[k] < order[l]
        }
}

/// Where a track with the key `key` goes into `order`, looking from `at`
/// on: before the first entry whose key comes later than `key`.
pub open spec fn place_from(
    keys: Seq<SortKeyView>,
    order: Seq<usize>,
    key: SortKeyView,
    at: int,
) -> int
    decreases order.len() - at,
{
    if at < 0 || at >= order.len() || !key_le(keys[order[at] as int], key) {
        at
    } else {
        place_from(keys, order, key, at + 1)
    }
}

/// The order of the first `count` of the tracks with these keys: each
/// track in turn goes behind every track that comes no later than it.
pub open spec fn placed(keys: Seq<SortKeyView>, count: nat) -> Seq<usize>
    decreases count,
{
    if count == 0 {
        Seq::empty()
    } else {
        let before = placed(keys, (count - 1) as nat);
        before.insert(place_from(keys, before, keys[count - 1], 0), (count - 1) as usize)
    }
}

/// The order in which tracks with these keys go into the list: ascending
/// by key, and tracks with equal keys in the order in which they came.
pub open spec fn stable_order(keys: Seq<SortKeyView>) -> Seq<usize> {
    placed(keys, keys.len())
}

/// `tracks` in the given order: the track at `order[k]` stands at `k`.
pub open spec fn arranged(tracks: Seq<Arc<Track>>, order: Seq<usize>) -> Seq<Arc<Track>> {
    Seq::new(order.len(), |k: int| tracks[order[k] as int])
}

/// What `place_from` finds: every entry that it passes comes no later than
/// `key`, and the entry that it stops at comes later.
pub proof fn lemma_place_from(
    keys: Seq<SortKeyView>,
    order: Seq<usize>,
    key: SortKeyView,
    at: int,
)
    requires
        0 <= at <= order.len(),
    ensures
        at <= place_from(keys, order, key, at) <= order.len(),
        forall|k: int|
            at <= k < place_from(keys, order, key, at) ==> key_le(
                keys[(#[trigger] order[k]) as int],
                key,
            ),
        place_from(keys, order, key, at) < order.len() ==> !key_le(
            keys[order[place_from(keys, order, key, at)] as int],
            key,
        ),
    decreases order.len() - at,
{
    if at < order.len() && key_le(keys[order[at] as int], key) {
        lemma_place_from(keys, order, key, at + 1);
    }
}

/// The order that `placed` builds lists each of the first `count` indices
/// once, the keys ascend along it, and equal keys keep their order.
pub proof fn lemma_placed(keys: Seq<SortKeyView>, count: nat)
    requires
        count <= keys.len(),
        count <= usize::MAX,
    ensures
        placed(keys, count).len() == count,
        placed(keys, count).no_duplicates(),
        forall|k: int| 0 <= k < count ==> (#[trigger] placed(keys, count)[k]) < count,
        sorted_by_key(keys, placed(keys, count)),
    decreases count,
{
    if count > 0 {
        let i = (count - 1) as usize;
        let held = placed(keys, (count - 1) as nat);
        lemma_placed(keys, (count - 1) as nat);
        let x = keys[i as int];
        let at = place_from(keys, held, x, 0);
        lemma_place_from(keys, held, x, 0);
        let now = placed(keys, count);
        assert(now == held.insert(at, i));
        if held.contains(i) {
            let k = choose|k: int| 0 <= k < held.len() && held[k] == i;
            assert(held[k] < i);
        }
        lemma_insert_fresh(held, at, i);
        assert forall|k: int| 0 <= k < count implies (#[trigger] now[k]) < count by {
            if k < at {
                assert(now[k] == held[k]);
            } else if k > at {
                assert(now[k] == held[k - 1]);
            }
        }
        assert forall|k: int, l: int| 0 <= k < l < now.len() implies {
            &&& key_le(keys[(#[trigger] now[k]) as int], keys[(#[trigger] now[l]) as int])
            &&& key_le(keys[now[l] as int], keys[now[k] as int]) ==> now[k] < now[l]
        } by {
            if l < at {
                assert(now[k] == held[k] && now[l] == held[l]);
            } else if l == at {
                assert(now[k] == held[k]);
                assert(held[k] < i);
            } else if k > at {
                assert(now[k] == held[k - 1] && now[l] == held[l - 1]);
            } else if k < at {
                assert(now[k] == held[k] && now[l] == held[l - 1]);
            } else {
                // The new index stands at k, before an index that stood at or
                // behind the place where the search ended.
                let y = keys[held[l - 1] as int];
                let first = keys[held[at] as int];
                assert(now[l] == held[l - 1]);
                assert(held[l - 1] < i);
                assert(!key_le(first, x));
                if l - 1 > at {
                    assert(key_le(first, y));
                }
                if key_le(y, x) {
                    lemma_key_le_transitive(first, y, x);
                }
                lemma_key_le_total(x, y);
            }
        }
    }
}

/// The order of the tracks is a permutation of their indices along which
/// the keys ascend and equal keys keep their order.
pub proof fn lemma_stable_order(keys: Seq<SortKeyView>)
    requires
        keys.len() <= usize::MAX,
    ensures
        stable_order(keys).len() == keys.len(),
        is_permutation(stable_order(keys)),
        sorted_by_key(keys, stable_order(keys)),
{
    lemma_placed(keys, keys.len());
}

/// Arranged in the order of the first `count` keys, the first `count`
/// tracks are still those tracks, each as often as before.
pub proof fn lemma_arranged_prefix(tracks: Seq<Arc<Track>>, keys: Seq<SortKeyView>, count: nat)
    requires
        tracks.len() == keys.len(),
        count <= keys.len(),
        count <= usize::MAX,
    ensures
        arranged(tracks, placed(keys, count)).to_multiset() == tracks.take(
            count as int,
        ).to_multiset(),
    decreases count,
{
    if count == 0 {
        assert(arranged(tracks, placed(keys, 0)) =~= tracks.take(0));
    } else {
        let last = (count - 1) as nat;
        let held = placed(keys, last);
        let at = place_from(keys, held, keys[last as int], 0);
        lemma_arranged_prefix(tracks, keys, last);
        lemma_placed(keys, last);
        lemma_place_from(keys, held, keys[last as int], 0);
        let before = arranged(tracks, held);
        let track = tracks[last as int];
        assert(arranged(tracks, placed(keys, count)) =~= before.insert(at, track));
        assert(tracks.take(count as int) =~= tracks.take(last as int).push(track));
        vstd::seq_lib::to_multiset_insert(before, at, track);
        vstd::seq_lib::to_multiset_build(tracks.take(last as int), track);
    }
}

/// Putting tracks into their order loses no track and adds none.
pub proof fn lemma_arranged_keeps_tracks(tracks: Seq<Arc<Track>>, keys: Seq<SortKeyView>)
    requires
        tracks.len() == keys.len(),
        keys.len() <= usize::MAX,
    ensures
        arranged(tracks, stable_order(keys)).to_multiset() == tracks.to_multiset(),
{
    lemma_arranged_prefix(tracks, keys, keys.len());
    assert(tracks.take(tracks.len() as int) =~= tracks);
}

/// The order in which tracks with these keys go into the list.
pub fn sorted_order(keys: &Vec<SortKey>) -> (order: Vec<usize>)
    ensures
        order@ == stable_order(key_views(keys@)),
        order@.len() == keys@.len(),
        is_permutation(order@),
        sorted_by_key(key_views(keys@), order@),
{
    let ghost views = key_views(keys@);
    let mut order: Vec<usize> = Vec::new();
    let mut i: usize = 0;
    while i < keys.len()
        invariant
            i <= keys@.len(),
            views == key_views(keys@),
            order@ == placed(views, i as nat),
        decreases keys@.len() - i,
    {
        proof {
            lemma_placed(views, i as nat);
        }
        let mut at: usize = 0;
        while at < i && key_no_later(&keys[order[at]], &keys[i])
            invariant
                at <= i,
                i < keys@.len(),
                order@.len() == i,
                views == key_views(keys@),
                forall|k: int| 0 <= k < order@.len() ==> (#[trigger] order@[k]) < i,
                place_from(views, order@, views[i as int], 0) == place_from(
                    views,
                    order@,
                    views[i as int],
                    at as int,
                ),
            decreases i - at,
        {
            at += 1;
        }
        order.insert(at, i);
        i += 1;
    }
    proof {
        lemma_stable_order(views);
    }
    order
}

/// The tracks in the given order: the track at `order[k]` comes to stand
/// at `k`.
pub fn arrange(tracks: &Vec<Arc<Track>>, order: &Vec<usize>) -> (arranged: Vec<Arc<Track>>)
    requires
        forall|k: int| 0 <= k < order@.len() ==> (#[trigger] order@[k]) < tracks@.len(),
    ensures
        arranged@ == self::arranged(tracks@, order@),
{
    let mut arranged: Vec<Arc<Track>> = Vec::new();
    let mut k: usize = 0;
    while k < order.len()
        invariant
            k <= order@.len(),
            arranged@.len() == k,
            forall|j: int| 0 <= j < order@.len() ==> (#[trigger] order@[j]) < tracks@.len(),
            forall|j: int| 0 <= j < k ==> (#[trigger] arranged@[j]) == tracks@[order@[j] as int],
        decreases order@.len() - k,
    {
        arranged.push(share_track(&tracks[order[k]]));
        k += 1;
    }
    assert(arranged@ =~= self::arranged(tracks@, order@));
    arranged
}

/// Puts the tracks of one directory into the order in which they go into
/// the list. `keys` holds the key of each track in turn. Returns the order
/// that was applied: the track that stood at `order[k]` stands at `k`.
pub fn sort_tracks(tracks: &mut Vec<Arc<Track>>, keys: &Vec<SortKey>) -> (order: Vec<usize>)
    requires
        keys@.len() == old(tracks)@.len(),
    ensures
        order@ == stable_order(key_views(keys@)),
        final(tracks)@ == arranged(old(tracks)@, order@),
        final(tracks)@.len() == old(tracks)@.len(),
        final(tracks)@.to_multiset() == old(tracks)@.to_multiset(),
        is_permutation(order@),
        sorted_by_key(key_views(keys@), order@),
{
    let order = sorted_order(keys);
    let arranged = arrange(tracks, &order);
    proof {
        assert(keys@.len() == keys.len());
        lemma_arranged_keeps_tracks(tracks@, key_views(keys@));
    }
    *tracks = arranged;
    order
}

} // verus!
