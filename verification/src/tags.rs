//! What the tags of a file say, taken into the metadata of its track.

use crate::types::{distinct_names, holds_name, TrackMetadata};
use vstd::prelude::*;

verus! {

/// The kinds of tag that the metadata of a track has a place for.
#[derive(Clone, Copy, Debug, PartialEq, Eq, Structural)]
pub enum StandardTagKey {
    TrackTitle,
    Artist,
    Album,
    TrackNumber,
    Date,
    Genre,
    Comment,
    /// Any other kind.
    Other,
}

/// What a tag holds.
#[derive(Debug)]
pub enum Value {
    String(String),
    UnsignedInt(u64),
    /// Anything else: bytes, a flag, a signed or a fractional number.
    Other,
}

/// One tag of a file.
#[derive(Debug)]
pub struct Tag {
    /// The kind of the tag, where the format of the file names one.
    pub std_key: Option<StandardTagKey>,
    pub value: Value,
}

/// The metadata of a track, with the two sets and the comments as sequences.
pub struct MetadataView {
    pub title: Option<String>,
    pub artists: Seq<String>,
    pub album: Option<String>,
    pub track_number: Option<usize>,
    pub date: Option<String>,
    pub genres: Seq<String>,
    pub comments: Seq<String>,
}

impl View for TrackMetadata {
    type V = MetadataView;

    open spec fn view(&self) -> MetadataView {
        MetadataView {
            title: self.title,
            artists: self.artists@,
            album: self.album,
            track_number: self.track_number,
            date: self.date,
            genres: self.genres@,
            comments: self.comments@,
        }
    }
}

/// The number that `text` is the decimal notation of, as
/// `str::parse::<u64>` reads it; `None` where it refuses `text`.
pub uninterp spec fn parsed_number(text: Seq<char>) -> Option<u64>;

/// `str::parse::<u64>`: the number that `text` is read as, or `None`.
#[verifier::external_body]
fn parse_number(text: &str) -> (number: Option<u64>)
    ensures
        number == parsed_number(text@),
{
    text.parse::<u64>().ok()
}

/// `names` with `name` among them: added at the end if it is new.
pub open spec fn with_name(names: Seq<String>, name: String) -> Seq<String> {
    if holds_name(names, name@) {
        names
    } else {
        names.push(name)
    }
}

/// The track number that a tag gives: a number, as far as this machine can
/// index by it.
pub open spec fn as_track_number(number: Option<u64>) -> Option<usize> {
    match number {
        Some(n) => if n <= usize::MAX {
            Some(n as usize)
        } else {
            None
        },
        None => None,
    }
}

/// The number that the value of a tag gives: the value itself, or what the
/// value reads as if it is text.
pub open spec fn number_of(value: Value) -> Option<u64> {
    match value {
        Value::UnsignedInt(n) => Some(n),
        Value::String(text) => parsed_number(text@),
        Value::Other => None,
    }
}

impl MetadataView {
    /// The metadata after a tag of kind `key` with the text `text`. The
    /// title, the album and the date are replaced; an artist and a genre
    /// join their set; a comment is added to the comments. A track number
    /// is not text, and is left alone here.
    pub open spec fn with_text(self, key: StandardTagKey, text: String) -> MetadataView {
        match key {
            StandardTagKey::TrackTitle => MetadataView { title: Some(text), ..self },
            StandardTagKey::Artist => MetadataView {
                artists: with_name(self.artists, text),
                ..self
            },
            StandardTagKey::Album => MetadataView { album: Some(text), ..self },
            StandardTagKey::Date => MetadataView { date: Some(text), ..self },
            StandardTagKey::Genre => MetadataView { genres: with_name(self.genres, text), ..self },
            StandardTagKey::Comment => MetadataView { comments: self.comments.push(text), ..self },
            _ => self,
        }
    }

    /// The metadata after a tag that gives `number` as the track number: a
    /// number that can be indexed by replaces the track number.
    pub open spec fn with_number(self, number: Option<u64>) -> MetadataView {
        match as_track_number(number) {
            Some(n) => MetadataView { track_number: Some(n), ..self },
            None => self,
        }
    }

    /// The metadata after `tag`, where `number` is the number that the
    /// value of the tag gives. A tag without a kind, of a kind that the
    /// metadata has no place for, or with a value that does not suit its
    /// kind changes nothing.
    pub open spec fn with_tag(self, tag: Tag, number: Option<u64>) -> MetadataView {
        match tag.std_key {
            None => self,
            Some(StandardTagKey::TrackNumber) => self.with_number(number),
            Some(key) => match tag.value {
                Value::String(text) => self.with_text(key, text),
                _ => self,
            },
        }
    }
}

/// Lets `name` join `names`, unless it is one of them already.
pub fn insert_name(names: &mut Vec<String>, name: String)
    ensures
        final(names)@ == with_name(old(names)@, name),
        distinct_names(old(names)@) ==> distinct_names(final(names)@),
{
    let mut i: usize = 0;
    while i < names.len()
        invariant
            i <= names@.len(),
            names@ == old(names)@,
            forall|j: int| 0 <= j < i ==> (#[trigger] names@[j])@ != name@,
        decreases names@.len() - i,
    {
        if names[i] == name {
            return ;
        }
        i += 1;
    }
    names.push(name);
}

/// Takes `tag` into `metadata`, where `number` is the number that the value
/// of the tag gives.
pub fn add_tag_with_number(metadata: &mut TrackMetadata, tag: &Tag, number: Option<u64>)
    ensures
        final(metadata)@ == old(metadata)@.with_tag(*tag, number),
        old(metadata).wf() ==> final(metadata).wf(),
{
    match tag.std_key {
        Some(StandardTagKey::TrackTitle) => {
            if let Value::String(title) = &tag.value {
                metadata.title = Some(title.clone());
            }
        },
        Some(StandardTagKey::Artist) => {
            if let Value::String(artist) = &tag.value {
                insert_name(&mut metadata.artists, artist.clone());
            }
        },
        Some(StandardTagKey::Album) => {
            if let Value::String(album) = &tag.value {
                metadata.album = Some(album.clone());
            }
        },
        Some(StandardTagKey::TrackNumber) => {
            if let Some(n) = number {
                if n <= usize::MAX as u64 {
                    metadata.track_number = Some(n as usize);
                }
            }
        },
        Some(StandardTagKey::Date) => {
            if let Value::String(date) = &tag.value {
                metadata.date = Some(date.clone());
            }
        },
        Some(StandardTagKey::Genre) => {
            if let Value::String(genre) = &tag.value {
                insert_name(&mut metadata.genres, genre.clone());
            }
        },
        Some(StandardTagKey::Comment) => {
            if let Value::String(comment) = &tag.value {
                metadata.comments.push(comment.clone());
            }
        },
        _ => {},
    }
}

/// Takes `tag` into `metadata`. A track number may come as a number or as
/// the text of one.
pub fn add_tag_to_metadata(metadata: &mut TrackMetadata, tag: &Tag)
    ensures
        final(metadata)@ == old(metadata)@.with_tag(*tag, number_of(tag.value)),
        old(metadata).wf() ==> final(metadata).wf(),
{
    let number = match &tag.value {
        Value::UnsignedInt(n) => Some(*n),
        Value::String(text) => parse_number(text.as_str()),
        Value::Other => None,
    };
    add_tag_with_number(metadata, tag, number);
}

} // verus!
