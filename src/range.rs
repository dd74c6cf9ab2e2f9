use vstd::prelude::*;
use crate::stream::ReadPlan;
use crate::stream::StreamError;

verus! {

#[verifier::external_type_specification]
#[verifier::external_body]
pub struct ExHttpRangeParseError(http_range::HttpRangeParseError);

/// The largest file size that a range header is resolved against.
pub const RANGE_LIMIT: u64 = 4294967295;

/// Whether a header value starts with the `bytes=` unit prefix (ASCII).
pub open spec fn has_bytes_unit(header: Seq<u8>) -> bool {
    header.len() >= 6 && header.subrange(0, 6) == seq![98u8, 121, 116, 101, 115, 61]
}

/// The ranges, as (start, length), that a `Range` header selects from a
/// resource of `size` bytes, or `None` when the header is invalid.
pub uninterp spec fn http_ranges_of(header: Seq<u8>, size: u64) -> Option<Seq<(u64, u64)>>;

/// Relies on http_range's `HttpRange::parse_bytes`: the result depends on the
/// header and the size alone; each range it returns lies within the size; an
/// empty header gives no ranges, and one without the `bytes=` prefix an error.
#[verifier::external_body]
fn parse_ranges(header: &[u8], size: u64) -> (r: Result<Vec<(u64, u64)>, http_range::HttpRangeParseError>)
    ensures
        match r {
            Ok(v) => http_ranges_of(header@, size) == Some(v@),
            Err(_) => http_ranges_of(header@, size) is None,
        },
        r is Ok ==> forall|i: int|
            0 <= i < r->Ok_0@.len() ==> #[trigger] r->Ok_0@[i].0 + r->Ok_0@[i].1 <= size,
        header@.len() == 0 ==> r is Ok && r->Ok_0@.len() == 0,
        header@.len() != 0 && !has_bytes_unit(header@) ==> r is Err,
{
    http_range::HttpRange::parse_bytes(header, size).map(
        |v| v.into_iter().map(|x| (x.start, x.length)).collect(),
    )
}

/// The plan for a parsed list of ranges: the first one is honoured and the rest
/// ignored; an empty list is an error.
pub fn first_range(ranges: &Vec<(u64, u64)>) -> (r: Result<ReadPlan, StreamError>)
    ensures
        ranges@.len() == 0 ==> r == Err::<ReadPlan, StreamError>(StreamError::NoRanges),
        ranges@.len() > 0 ==> r == Ok::<ReadPlan, StreamError>(
            ReadPlan::Span { start: ranges@[0].0, length: ranges@[0].1 },
        ),
{
    if ranges.len() == 0 {
        Err(StreamError::NoRanges)
    } else {
        let (start, length) = ranges[0];
        Ok(ReadPlan::Span { start, length })
    }
}

/// The optional header value as bytes.
pub open spec fn header_view(header: Option<&[u8]>) -> Option<Seq<u8>> {
    match header {
        None => None,
        Some(h) => Some(h@),
    }
}

/// What to read for an optional `Range` header value: the whole file when
/// there is none, else the first range it names.
pub open spec fn read_plan_of(header: Option<Seq<u8>>) -> Result<ReadPlan, StreamError> {
    match header {
        None => Ok(ReadPlan::Full),
        Some(h) => match http_ranges_of(h, RANGE_LIMIT) {
            None => Err(StreamError::MalformedRange),
            Some(rs) => if rs.len() == 0 {
                Err(StreamError::NoRanges)
            } else {
                Ok(ReadPlan::Span { start: rs[0].0, length: rs[0].1 })
            },
        },
    }
}

/// Decides what to read for an optional `Range` header value: the whole file
/// when there is none, else the first range it names; a malformed header or
/// one that names no range is an error, never a fallback to the whole file.
pub fn plan_read(header: Option<&[u8]>) -> (r: Result<ReadPlan, StreamError>)
    ensures
        r == read_plan_of(header_view(header)),
        header is Some ==> r != Ok::<ReadPlan, StreamError>(ReadPlan::Full),
        header matches Some(h) && h@.len() == 0 ==> r == Err::<ReadPlan, StreamError>(
            StreamError::NoRanges,
        ),
        header matches Some(h) && h@.len() != 0 && !has_bytes_unit(h@) ==> r == Err::<
            ReadPlan,
            StreamError,
        >(StreamError::MalformedRange),
        r matches Ok(ReadPlan::Span { start, length }) ==> start + length <= RANGE_LIMIT,
{
    match header {
        None => Ok(ReadPlan::Full),
        Some(h) => match parse_ranges(h, RANGE_LIMIT) {
            Err(_) => Err(StreamError::MalformedRange),
            Ok(v) => {
                let r = first_range(&v);
                proof {
                    if v@.len() > 0 {
                        assert(v@[0].0 + v@[0].1 <= RANGE_LIMIT);
                    }
                }
                r
            },
        },
    }
}

} // verus!
