use vstd::prelude::*;

verus! {

/// The key of a tag: one of the well-known keys, or any other name.
#[derive(Clone, Debug)]
pub enum TagKey {
    LocalMP3,
    LocalWEBM,
    LocalM4A,
    LocalOGG,
    YoutubeVideoID,
    YoutubeURL,
    Title,
    Thumbnail,
    Duration,
    Other(String),
}

/// The canonical names of the well-known keys, in declaration order.
pub open spec fn well_known_names() -> Seq<Seq<char>> {
    seq![
        "local_mp3"@,
        "local_webm"@,
        "local_m4a"@,
        "local_ogg"@,
        "youtube_video_id"@,
        "youtube_url"@,
        "title"@,
        "thumbnail"@,
        "duration"@,
    ]
}

/// The position of a well-known key in the name table; `None` for `Other`.
pub open spec fn table_index(k: TagKey) -> Option<int> {
    match k {
        TagKey::LocalMP3 => Some(0),
        TagKey::LocalWEBM => Some(1),
        TagKey::LocalM4A => Some(2),
        TagKey::LocalOGG => Some(3),
        TagKey::YoutubeVideoID => Some(4),
        TagKey::YoutubeURL => Some(5),
        TagKey::Title => Some(6),
        TagKey::Thumbnail => Some(7),
        TagKey::Duration => Some(8),
        TagKey::Other(_) => None,
    }
}

/// The string form of a key: its canonical name, or the name `Other` carries.
pub open spec fn key_name(k: TagKey) -> Seq<char> {
    match k {
        TagKey::Other(s) => s@,
        _ => well_known_names()[table_index(k).unwrap()],
    }
}

/// Whether `s` is the canonical name of a well-known key.
pub open spec fn is_well_known_name(s: Seq<char>) -> bool {
    well_known_names().contains(s)
}

/// A key is canonical when an `Other` never carries a well-known name.
pub open spec fn is_canonical(k: TagKey) -> bool {
    match k {
        TagKey::Other(s) => !is_well_known_name(s@),
        _ => true,
    }
}

/// Two keys denote the same key when their string forms agree.
pub open spec fn same_key(a: TagKey, b: TagKey) -> bool {
    key_name(a) == key_name(b) && (a is Other <==> b is Other)
}

proof fn lemma_names_distinct()
    ensures
        forall|i: int, j: int|
            0 <= i < 9 && 0 <= j < 9 && i != j ==> well_known_names()[i]
                != well_known_names()[j],
{
    reveal_strlit("local_mp3");
    reveal_strlit("local_webm");
    reveal_strlit("local_m4a");
    reveal_strlit("local_ogg");
    reveal_strlit("youtube_video_id");
    reveal_strlit("youtube_url");
    reveal_strlit("title");
    reveal_strlit("thumbnail");
    reveal_strlit("duration");
    assert forall|i: int, j: int|
        0 <= i < 9 && 0 <= j < 9 && i != j implies well_known_names()[i]
            != well_known_names()[j] by {
        if well_known_names()[i] == well_known_names()[j] {
            assert(well_known_names()[i].len() == well_known_names()[j].len());
            assert(well_known_names()[i][0] == well_known_names()[j][0]);
            assert(well_known_names()[i].last() == well_known_names()[j].last());
        }
    }
}

/// The well-known key at position `i` of the name table.
fn key_at(i: usize) -> (r: TagKey)
    requires
        i < 9,
    ensures
        table_index(r) == Some(i as int),
{
    match i {
        0 => TagKey::LocalMP3,
        1 => TagKey::LocalWEBM,
        2 => TagKey::LocalM4A,
        3 => TagKey::LocalOGG,
        4 => TagKey::YoutubeVideoID,
        5 => TagKey::YoutubeURL,
        6 => TagKey::Title,
        7 => TagKey::Thumbnail,
        _ => TagKey::Duration,
    }
}

impl TagKey {
    /// The canonical name of a well-known key, read from the name table.
    fn canonical_name(&self) -> (r: &'static str)
        requires
            !(*self is Other),
        ensures
            r@ == well_known_names()[table_index(*self).unwrap()],
    {
        match self {
            TagKey::LocalMP3 => "local_mp3",
            TagKey::LocalWEBM => "local_webm",
            TagKey::LocalM4A => "local_m4a",
            TagKey::LocalOGG => "local_ogg",
            TagKey::YoutubeVideoID => "youtube_video_id",
            TagKey::YoutubeURL => "youtube_url",
            TagKey::Title => "title",
            TagKey::Thumbnail => "thumbnail",
            TagKey::Duration => "duration",
            TagKey::Other(_) => "",
        }
    }

    /// Encodes a key as its string form.
    pub fn encode(&self) -> (r: String)
        ensures
            r@ == key_name(*self),
    {
        match self {
            TagKey::Other(s) => s.clone(),
            _ => self.canonical_name().to_owned(),
        }
    }

    /// Decodes a string: a canonical name gives its well-known key, anything
    /// else gives `Other` carrying the string as it is.
    pub fn decode(s: &str) -> (r: TagKey)
        ensures
            key_name(r) == s@,
            r is Other <==> !is_well_known_name(s@),
            is_canonical(r),
    {
        let owned = s.to_owned();
        let mut i: usize = 0;
        while i < 9
            invariant
                0 <= i <= 9,
                owned@ == s@,
                forall|j: int| 0 <= j < i ==> well_known_names()[j] != s@,
            decreases 9 - i,
        {
            let k = key_at(i);
            let name = k.encode();
            if name == owned {
                return k;
            }
            i = i + 1;
        }
        proof {
            assert forall|j: int| 0 <= j < well_known_names().len() implies well_known_names()[j]
                != s@ by {}
        }
        TagKey::Other(owned)
    }
}

} // verus!

verus! {

/// Round trip through the string form: decoding what a canonical key encodes
/// to gives the same key back, and for a well-known key exactly that variant.
/// Here `r` stands for any key that `TagKey::decode` may return on
/// `key_name(k)`, as its postcondition describes.
pub proof fn lemma_round_trip(k: TagKey, r: TagKey)
    requires
        is_canonical(k),
        key_name(r) == key_name(k),
        r is Other <==> !is_well_known_name(key_name(k)),
    ensures
        same_key(r, k),
        !(k is Other) ==> r == k,
{
    lemma_names_distinct();
    if !(k is Other) {
        let i = table_index(k).unwrap();
        assert(well_known_names().contains(key_name(k))) by {
            assert(well_known_names()[i] == key_name(k));
        }
        let j = table_index(r).unwrap();
        assert(well_known_names()[j] == well_known_names()[i]);
        assert(i == j);
    }
}

} // verus!
