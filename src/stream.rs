use vstd::prelude::*;
use crate::entity::Source;
use vstd::string::StringSliceAdditionalSpecFns;
use crate::range::plan_read;
use crate::range::read_plan_of;
use crate::range::header_view;

verus! {

/// Why a streaming request could not be served.
#[derive(Clone, Copy, PartialEq, Eq, Structural, Debug)]
pub enum StreamError {
    /// The music item has no locally playable source.
    NoLocalSource,
    /// The range header could not be parsed.
    MalformedRange,
    /// The range header parsed but named no range.
    NoRanges,
}

/// How much of the file a request asks for: all of it, or `length` bytes from `start`.
#[derive(Clone, Copy, PartialEq, Eq, Structural, Debug)]
pub enum ReadPlan {
    Full,
    Span { start: u64, length: u64 },
}

/// What a streaming request answers with: the bytes read, the range
/// `(start, end_inclusive, total)` for the response headers, and the content type.
pub struct MusicMetadata {
    pub buf: Vec<u8>,
    pub range_size: (u64, u64, u64),
    pub content_type: &'static str,
}

/// The formats that can be streamed from local storage.
pub open spec fn is_local_format(f: Seq<char>) -> bool {
    f == "local_mp3"@ || f == "local_ogg"@ || f == "local_m4a"@
}

/// The position of the first locally playable source, if any.
pub open spec fn first_local(sources: Seq<Source>) -> Option<int> {
    if exists|i: int| 0 <= i < sources.len() && is_local_format(#[trigger] sources[i].format@) {
        Some(
            choose|i: int|
                0 <= i < sources.len() && is_local_format(#[trigger] sources[i].format@) && forall|
                    j: int,
                | 0 <= j < i ==> !is_local_format(#[trigger] sources[j].format@),
        )
    } else {
        None
    }
}

/// Whether `s` ends with `suffix`.
pub open spec fn has_suffix(s: Seq<u8>, suffix: Seq<u8>) -> bool {
    suffix.len() <= s.len() && s.subrange(s.len() - suffix.len(), s.len() as int) == suffix
}

/// The content type of a file, from the extension of its path.
pub open spec fn content_type_of(path_chars: Seq<char>) -> Seq<char> {
    let path = vstd::utf8::encode_utf8(path_chars);
    if has_suffix(path, ".mp3".spec_bytes()) {
        "audio/mpeg"@
    } else if has_suffix(path, ".ogg".spec_bytes()) {
        "audio/ogg"@
    } else if has_suffix(path, ".m4a".spec_bytes()) {
        "audio/mp4"@
    } else {
        ""@
    }
}

/// The last position of a buffer of `len` bytes read from `start`, clamped at zero.
pub open spec fn last_read(start: int, len: int) -> int {
    if start + len == 0 {
        0
    } else {
        start + len - 1
    }
}

fn format_is_local(f: &String) -> (r: bool)
    ensures
        r == is_local_format(f@),
{
    let mp3 = "local_mp3".to_owned();
    let ogg = "local_ogg".to_owned();
    let m4a = "local_m4a".to_owned();
    *f == mp3 || *f == ogg || *f == m4a
}

/// Picks the first source, in the given order, whose format is locally playable.
pub fn resolve_local_source(sources: &Vec<Source>) -> (r: Result<Source, StreamError>)
    ensures
        match first_local(sources@) {
            None => r == Err::<Source, StreamError>(StreamError::NoLocalSource),
            Some(i) => r == Ok::<Source, StreamError>(sources@[i]),
        },
{
    let mut i: usize = 0;
    while i < sources.len()
        invariant
            0 <= i <= sources@.len(),
            forall|j: int| 0 <= j < i ==> !is_local_format(#[trigger] sources@[j].format@),
        decreases sources@.len() - i,
    {
        let s = &sources[i];
        if format_is_local(&s.format) {
            let picked = Source { music_id: s.music_id, format: s.format.clone(), url: s.url.clone() };
            proof {
                let k = first_local(sources@).unwrap();
                assert(0 <= k < sources@.len() && is_local_format(sources@[k].format@));
                if k < i {
                    assert(!is_local_format(sources@[k].format@));
                }
                if k > i {
                    assert(!is_local_format(sources@[i as int].format@));
                }
            }
            return Ok(picked);
        }
        i = i + 1;
    }
    Err(StreamError::NoLocalSource)
}

fn ends_with_bytes(s: &[u8], suffix: &[u8]) -> (r: bool)
    ensures
        r == has_suffix(s@, suffix@),
{
    if suffix.len() > s.len() {
        return false;
    }
    let off = s.len() - suffix.len();
    let mut i: usize = 0;
    while i < suffix.len()
        invariant
            off + suffix@.len() == s@.len(),
            s@.len() <= usize::MAX,
            0 <= i <= suffix@.len(),
            forall|j: int| 0 <= j < i ==> s@[off + j] == suffix@[j],
        decreases suffix@.len() - i,
    {
        if s[off + i] != suffix[i] {
            assert(s@.subrange(off as int, s@.len() as int)[i as int] != suffix@[i as int]);
            return false;
        }
        i = i + 1;
    }
    assert(s@.subrange(off as int, s@.len() as int) =~= suffix@);
    true
}

/// Infers the content type from the path's extension; an unknown one gives "".
pub fn content_type_for(path: &str) -> (r: &'static str)
    ensures
        r@ == content_type_of(path@),
{
    let p = path.as_bytes();
    if ends_with_bytes(p, ".mp3".as_bytes()) {
        "audio/mpeg"
    } else if ends_with_bytes(p, ".ogg".as_bytes()) {
        "audio/ogg"
    } else if ends_with_bytes(p, ".m4a".as_bytes()) {
        "audio/mp4"
    } else {
        ""
    }
}

/// Answers a request without a range: the whole file, reported as
/// `(0, len - 1, len)`, where an empty file gives `(0, 0, 0)`.
pub fn full_response(buf: Vec<u8>, content_type: &'static str) -> (r: MusicMetadata)
    ensures
        r.buf@ == buf@,
        r.content_type@ == content_type@,
        r.range_size == (0u64, last_read(0, buf@.len() as int) as u64, buf@.len() as u64),
{
    let l = buf.len() as u64;
    let last = if l == 0 { 0 } else { l - 1 };
    MusicMetadata { buf, range_size: (0, last, l), content_type }
}

/// Answers a range request for `length` bytes from `start` with the bytes that
/// were read: the reported end is the requested end clamped to the last byte
/// read, and the total is the offset that the read reached.
pub fn partial_response(buf: Vec<u8>, start: u64, length: u64, content_type: &'static str) -> (r:
    MusicMetadata)
    requires
        start + length <= u64::MAX,
        start + buf@.len() <= u64::MAX,
    ensures
        r.buf@ == buf@,
        r.content_type@ == content_type@,
        r.range_size.0 == start,
        r.range_size.1 == vstd::math::min(
            start + length,
            last_read(start as int, buf@.len() as int),
        ),
        r.range_size.2 == start + buf@.len(),
{
    let len = start + buf.len() as u64;
    let last = if len == 0 { 0 } else { len - 1 };
    let end = if start + length < last { start + length } else { last };
    MusicMetadata { buf, range_size: (start, end, len), content_type }
}

/// Builds the answer to a request from its plan and the bytes read for it.
pub fn respond(plan: ReadPlan, buf: Vec<u8>, content_type: &'static str) -> (r: MusicMetadata)
    requires
        plan is Span ==> plan->start + plan->length <= u64::MAX && plan->start + buf@.len()
            <= u64::MAX,
    ensures
        r.buf@ == buf@,
        r.content_type@ == content_type@,
        match plan {
            ReadPlan::Full => r.range_size == (
                0u64,
                last_read(0, buf@.len() as int) as u64,
                buf@.len() as u64,
            ),
            ReadPlan::Span { start, length } => r.range_size == (
                start,
                vstd::math::min(start + length, last_read(start as int, buf@.len() as int)) as u64,
                (start + buf@.len()) as u64,
            ),
        },
{
    match plan {
        ReadPlan::Full => full_response(buf, content_type),
        ReadPlan::Span { start, length } => partial_response(buf, start, length, content_type),
    }
}

} // verus!

verus! {

/// What to serve for a request: the chosen source, its content type and the
/// part of its file to read.
pub struct StreamPlan {
    pub source: Source,
    pub content_type: &'static str,
    pub read: ReadPlan,
}

/// Decides how to answer a streaming request, given the item's sources in the
/// store's order and the optional `Range` header value: the first local source,
/// the content type of its path, and the part of the file to read.
pub fn plan_stream(sources: &Vec<Source>, header: Option<&[u8]>) -> (r: Result<
    StreamPlan,
    StreamError,
>)
    ensures
        first_local(sources@) is None ==> r == Err::<StreamPlan, StreamError>(
            StreamError::NoLocalSource,
        ),
        first_local(sources@) is Some ==> match read_plan_of(header_view(header)) {
            Err(e) => r == Err::<StreamPlan, StreamError>(e),
            Ok(p) => r is Ok && r->Ok_0.source == sources@[first_local(sources@).unwrap()]
                && r->Ok_0.content_type@ == content_type_of(r->Ok_0.source.url@)
                && r->Ok_0.read == p,
        },
        r matches Ok(p) ==> (p.read matches ReadPlan::Span { start, length } ==> start + length
            <= crate::range::RANGE_LIMIT),
{
    let source = resolve_local_source(sources)?;
    let content_type = content_type_for(source.url.as_str());
    let read = plan_read(header)?;
    Ok(StreamPlan { source, content_type, read })
}

} // verus!
