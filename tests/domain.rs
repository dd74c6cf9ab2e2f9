use musidex::entity::{Music, MusicID, Source, Tag};
use musidex::music::{check_inserted, CreateError};
use musidex::range::{first_range, plan_read};
use musidex::stream::{
    content_type_for, full_response, partial_response, plan_stream, resolve_local_source, respond,
    ReadPlan, StreamError,
};
use musidex::tag_key::TagKey;

fn well_known() -> Vec<(TagKey, &'static str)> {
    vec![
        (TagKey::LocalMP3, "local_mp3"),
        (TagKey::LocalWEBM, "local_webm"),
        (TagKey::LocalM4A, "local_m4a"),
        (TagKey::LocalOGG, "local_ogg"),
        (TagKey::YoutubeVideoID, "youtube_video_id"),
        (TagKey::YoutubeURL, "youtube_url"),
        (TagKey::Title, "title"),
        (TagKey::Thumbnail, "thumbnail"),
        (TagKey::Duration, "duration"),
    ]
}

fn source(format: &str, url: &str) -> Source {
    Source { music_id: MusicID(1), format: format.to_string(), url: url.to_string() }
}

#[test]
fn well_known_keys_round_trip() {
    for (k, name) in well_known() {
        assert_eq!(k.encode(), name);
        let back = TagKey::decode(&k.encode());
        assert_eq!(format!("{:?}", back), format!("{:?}", k));
        assert!(!matches!(back, TagKey::Other(_)));
    }
}

#[test]
fn unknown_key_decodes_to_other() {
    let k = TagKey::decode("genre");
    assert!(matches!(&k, TagKey::Other(s) if s == "genre"));
    assert_eq!(k.encode(), "genre");
    assert_eq!(TagKey::Other("artist".to_string()).encode(), "artist");
}

#[test]
fn near_miss_key_is_other() {
    assert!(matches!(TagKey::decode("Title"), TagKey::Other(s) if s == "Title"));
    assert!(matches!(TagKey::decode(""), TagKey::Other(s) if s.is_empty()));
}

#[test]
fn tag_with_unparsable_date_has_no_date() {
    let t = Tag::from_columns(3, "title", Some("x".to_string()), None, Some("not a date".to_string()), None);
    assert_eq!(t.music_id, MusicID(3));
    assert!(matches!(t.key, TagKey::Title));
    assert_eq!(t.text.as_deref(), Some("x"));
    assert!(t.date.is_none());
}

#[test]
fn tag_with_rfc3339_date_is_decoded() {
    let t = Tag::from_columns(
        1,
        "added",
        None,
        Some(7),
        Some("1970-01-01T00:00:10.5+00:00".to_string()),
        Some(vec![1, 255]),
    );
    let d = t.date.unwrap();
    assert_eq!(d.secs, 10);
    assert_eq!(d.nanos, 500_000_000);
    assert_eq!(t.integer, Some(7));
    assert_eq!(t.vector, Some(vec![1, 255]));
    assert!(matches!(t.key, TagKey::Other(s) if s == "added"));
}

#[test]
fn date_offset_is_normalised() {
    let t = Tag::from_columns(1, "d", None, None, Some("1970-01-01T01:00:00+01:00".to_string()), None);
    assert_eq!(t.date.unwrap().secs, 0);
}

#[test]
fn music_from_id() {
    assert_eq!(Music::from_id(42), Music { id: MusicID(42) });
}

#[test]
fn resolver_prefers_local_over_remote() {
    let sources = vec![source("youtube_url", "https://example.com/v"), source("local_ogg", "a.ogg")];
    let s = resolve_local_source(&sources).unwrap();
    assert_eq!(s.format, "local_ogg");
    assert_eq!(s.url, "a.ogg");
}

#[test]
fn resolver_takes_first_local() {
    let sources = vec![source("local_m4a", "a.m4a"), source("local_mp3", "b.mp3")];
    assert_eq!(resolve_local_source(&sources).unwrap().url, "a.m4a");
}

#[test]
fn resolver_without_local_source() {
    let sources = vec![source("youtube_url", "u"), source("local_webm", "a.webm")];
    assert_eq!(resolve_local_source(&sources).err(), Some(StreamError::NoLocalSource));
    assert_eq!(resolve_local_source(&vec![]).err(), Some(StreamError::NoLocalSource));
}

#[test]
fn content_types_by_extension() {
    assert_eq!(content_type_for("x/song.mp3"), "audio/mpeg");
    assert_eq!(content_type_for("song.ogg"), "audio/ogg");
    assert_eq!(content_type_for("song.m4a"), "audio/mp4");
    assert_eq!(content_type_for("song.webm"), "");
    assert_eq!(content_type_for(""), "");
}

#[test]
fn full_read_reports_whole_file() {
    let r = full_response(vec![7u8; 1000], "audio/ogg");
    assert_eq!(r.buf.len(), 1000);
    assert_eq!(r.range_size, (0, 999, 1000));
    assert_eq!(r.content_type, "audio/ogg");
}

#[test]
fn full_read_of_empty_file_is_clamped() {
    let r = full_response(vec![], "");
    assert_eq!(r.range_size, (0, 0, 0));
}

#[test]
fn partial_read_of_hundred_bytes() {
    let plan = plan_read(Some(b"bytes=100-199".as_slice())).unwrap();
    assert_eq!(plan, ReadPlan::Span { start: 100, length: 100 });
    let file: Vec<u8> = (0..1000u32).map(|i| i as u8).collect();
    let read = file[100..200].to_vec();
    let r = respond(plan, read, "audio/mpeg");
    assert_eq!(r.buf.len(), 100);
    assert_eq!(r.range_size, (100, 199, 200));
}

#[test]
fn partial_read_short_at_end_of_file() {
    let r = partial_response(vec![0u8; 10], 990, 100, "");
    assert_eq!(r.range_size, (990, 999, 1000));
}

#[test]
fn malformed_range_is_an_error() {
    assert_eq!(plan_read(Some(b"bytes=abc".as_slice())), Err(StreamError::MalformedRange));
    assert_eq!(plan_read(Some(b"items=0-1".as_slice())), Err(StreamError::MalformedRange));
}

#[test]
fn missing_or_empty_range() {
    assert_eq!(plan_read(None), Ok(ReadPlan::Full));
    assert_eq!(plan_read(Some(b"".as_slice())), Err(StreamError::NoRanges));
}

#[test]
fn only_first_range_is_honoured() {
    assert_eq!(
        plan_read(Some(b"bytes=0-9,20-29".as_slice())),
        Ok(ReadPlan::Span { start: 0, length: 10 })
    );
    assert_eq!(first_range(&vec![(5, 6), (1, 2)]), Ok(ReadPlan::Span { start: 5, length: 6 }));
    assert_eq!(first_range(&vec![]), Err(StreamError::NoRanges));
}

#[test]
fn open_ended_range() {
    assert_eq!(
        plan_read(Some(b"bytes=4294967290-".as_slice())),
        Ok(ReadPlan::Span { start: 4294967290, length: 5 })
    );
}

#[test]
fn stream_plan_end_to_end() {
    let sources = vec![source("youtube_url", "u"), source("local_mp3", "a/b.mp3")];
    let p = plan_stream(&sources, Some(b"bytes=10-19".as_slice())).unwrap();
    assert_eq!(p.source.url, "a/b.mp3");
    assert_eq!(p.content_type, "audio/mpeg");
    assert_eq!(p.read, ReadPlan::Span { start: 10, length: 10 });
    assert_eq!(
        plan_stream(&sources, Some(b"bytes=abc".as_slice())).err(),
        Some(StreamError::MalformedRange)
    );
    assert_eq!(
        plan_stream(&vec![source("youtube_url", "u")], None).err(),
        Some(StreamError::NoLocalSource)
    );
}

#[test]
fn insert_outcome() {
    assert_eq!(check_inserted(0), Err(CreateError::NotInserted));
    assert_eq!(check_inserted(1), Ok(()));
}
