use vstd::prelude::*;
use crate::tag_key::TagKey;
use crate::tag_key::key_name;
use crate::tag_key::is_well_known_name;

verus! {

/// The identity of a music item, assigned by the store.
#[derive(Copy, Clone, PartialEq, Eq, Structural, Debug)]
pub struct MusicID(pub i32);

/// A music item; everything that describes it lives in its tags.
#[derive(Copy, Clone, PartialEq, Eq, Structural, Debug)]
pub struct Music {
    pub id: MusicID,
}

/// An instant as seconds since the Unix epoch and the nanoseconds past that second.
#[derive(Copy, Clone, PartialEq, Eq, Structural, Debug)]
pub struct Timestamp {
    pub secs: i64,
    pub nanos: u32,
}

/// A sparse, typed fact attached to a music item. `vector` holds one byte per
/// component; each component is that byte's value.
#[derive(Clone, Debug)]
pub struct Tag {
    pub music_id: MusicID,
    pub key: TagKey,
    pub text: Option<String>,
    pub integer: Option<i32>,
    pub date: Option<Timestamp>,
    pub vector: Option<Vec<u8>>,
}

/// One playable representation of a music item: a format and where it lives.
#[derive(Clone, Debug)]
pub struct Source {
    pub music_id: MusicID,
    pub format: String,
    pub url: String,
}

/// A snapshot of every music item and every tag, for bulk export.
#[derive(Clone, Debug)]
pub struct MusidexMetadata {
    pub musics: Vec<Music>,
    pub tags: Vec<Tag>,
}

/// The instant that an RFC 3339 date string denotes, as (seconds, nanoseconds),
/// or `None` when the string is not a valid RFC 3339 date.
pub uninterp spec fn rfc3339_instant(s: Seq<char>) -> Option<(i64, u32)>;

/// Relies on chrono's `DateTime::parse_from_rfc3339`, read back through
/// `timestamp` and `timestamp_subsec_nanos`: the result depends on the text alone.
#[verifier::external_body]
fn parse_rfc3339(s: &str) -> (r: Option<Timestamp>)
    ensures
        match r {
            None => rfc3339_instant(s@) is None,
            Some(t) => rfc3339_instant(s@) == Some((t.secs, t.nanos)),
        },
{
    chrono::DateTime::parse_from_rfc3339(s).ok().map(
        |d| Timestamp { secs: d.timestamp(), nanos: d.timestamp_subsec_nanos() },
    )
}

/// What a stored date string decodes to: its instant, or absent when unparsable.
pub open spec fn date_of(s: Option<Seq<char>>) -> Option<Timestamp> {
    match s {
        None => None,
        Some(v) => match rfc3339_instant(v) {
            None => None,
            Some(p) => Some(Timestamp { secs: p.0, nanos: p.1 }),
        },
    }
}

impl Music {
    /// The music item with the given identity column.
    pub fn from_id(id: i32) -> (r: Music)
        ensures
            r.id.0 == id,
    {
        Music { id: MusicID(id) }
    }
}

impl Tag {
    /// Decodes a tag from its column values. The key goes through the key codec;
    /// a date that is not valid RFC 3339 becomes absent rather than an error.
    pub fn from_columns(
        music_id: i32,
        key: &str,
        text: Option<String>,
        integer: Option<i32>,
        date: Option<String>,
        vector: Option<Vec<u8>>,
    ) -> (r: Tag)
        ensures
            r.music_id.0 == music_id,
            key_name(r.key) == key@,
            r.key is Other <==> !is_well_known_name(key@),
            r.text == text,
            r.integer == integer,
            r.date == date_of(
                match date {
                    None => None,
                    Some(d) => Some(d@),
                },
            ),
            r.vector == vector,
    {
        let parsed = match &date {
            None => None,
            Some(d) => parse_rfc3339(d.as_str()),
        };
        Tag {
            music_id: MusicID(music_id),
            key: TagKey::decode(key),
            text,
            integer,
            date: parsed,
            vector,
        }
    }
}

} // verus!
