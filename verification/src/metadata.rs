//! The metadata codec: from the description of a media item to the
//! dictionary that is exported for it.

use crate::dict::{entries_map, Dict};
use crate::media::MediaMetadata;
use vstd::prelude::*;

verus! {

/// The key of the track identifier.
pub const TRACK_ID_KEY: &'static str = "mpris:trackid";

/// The key of the length in microseconds.
pub const LENGTH_KEY: &'static str = "mpris:length";

/// The key of the cover art location.
pub const ART_URL_KEY: &'static str = "mpris:artUrl";

/// The key of the title.
pub const TITLE_KEY: &'static str = "xesam:title";

/// The key of the list of artists.
pub const ARTIST_KEY: &'static str = "xesam:artist";

/// The key of the album.
pub const ALBUM_KEY: &'static str = "xesam:album";

/// The object path that stands in for the identifier of every track.
pub const TRACK_ID_PLACEHOLDER: &'static str = "/";

/// The description of a media item. Each field may be absent.
#[derive(Clone, PartialEq, Eq, Debug)]
pub struct OwnedMetadata {
    pub title: Option<String>,
    pub album: Option<String>,
    pub artist: Option<String>,
    pub cover_url: Option<String>,
    /// The length of the item in microseconds.
    pub duration: Option<i64>,
}

/// What an [`OwnedMetadata`] holds.
pub struct MetadataView {
    pub title: Option<Seq<char>>,
    pub album: Option<Seq<char>>,
    pub artist: Option<Seq<char>>,
    pub cover_url: Option<Seq<char>>,
    pub duration: Option<i64>,
}

impl MetadataView {
    /// The description without any field.
    pub open spec fn empty() -> MetadataView {
        MetadataView { title: None, album: None, artist: None, cover_url: None, duration: None }
    }
}

/// The characters of an optional string.
pub open spec fn text_of(s: Option<String>) -> Option<Seq<char>> {
    match s {
        Some(s) => Some(s@),
        None => None,
    }
}

/// The characters of an optional string slice.
pub open spec fn slice_text_of(s: Option<&str>) -> Option<Seq<char>> {
    match s {
        Some(s) => Some(s@),
        None => None,
    }
}

impl View for OwnedMetadata {
    type V = MetadataView;

    open spec fn view(&self) -> MetadataView {
        MetadataView {
            title: text_of(self.title),
            album: text_of(self.album),
            artist: text_of(self.artist),
            cover_url: text_of(self.cover_url),
            duration: self.duration,
        }
    }
}

impl Default for OwnedMetadata {
    /// The description without any field.
    fn default() -> (m: OwnedMetadata)
        ensures
            m@ == MetadataView::empty(),
    {
        OwnedMetadata { title: None, album: None, artist: None, cover_url: None, duration: None }
    }
}

/// An owned copy of an optional string slice.
fn owned_text(s: Option<&str>) -> (r: Option<String>)
    ensures
        text_of(r) == slice_text_of(s),
{
    match s {
        Some(s) => Some(s.to_owned()),
        None => None,
    }
}

impl OwnedMetadata {
    /// What `from` returns for a borrowed description.
    pub open spec fn spec_from(other: MediaMetadata<'_>) -> MetadataView {
        MetadataView {
            title: slice_text_of(other.title),
            album: slice_text_of(other.album),
            artist: slice_text_of(other.artist),
            cover_url: slice_text_of(other.cover_url),
            duration: match other.duration {
                Some(d) => Some(d as i64),
                None => None,
            },
        }
    }

    /// Whether the length of a borrowed description can be held in an owned
    /// one.
    pub open spec fn spec_fits(other: MediaMetadata<'_>) -> bool {
        other.duration matches Some(d) ==> d <= i64::MAX
    }

    /// Whether the length of a borrowed description can be held in an owned
    /// one.
    pub fn fits(other: &MediaMetadata<'_>) -> (b: bool)
        ensures
            b == Self::spec_fits(*other),
    {
        match other.duration {
            Some(d) => d <= i64::MAX as u128,
            None => true,
        }
    }

    /// The owned copy of a borrowed description. The length, if there is
    /// one, has to fit into 63 bits.
    pub fn from(other: MediaMetadata<'_>) -> (m: OwnedMetadata)
        requires
            Self::spec_fits(other),
        ensures
            m@ == Self::spec_from(other),
    {
        OwnedMetadata {
            title: owned_text(other.title),
            artist: owned_text(other.artist),
            album: owned_text(other.album),
            cover_url: owned_text(other.cover_url),
            duration: match other.duration {
                Some(d) => Some(d as i64),
                None => None,
            },
        }
    }
}

/// A value of the exported dictionary.
#[derive(Clone, PartialEq, Eq, Debug)]
pub enum MetadataValue {
    /// An object path.
    ObjectPath(String),
    /// A signed integer of 64 bits.
    Int64(i64),
    /// A string.
    Str(String),
    /// A list of strings.
    StrList(Vec<String>),
}

/// What a [`MetadataValue`] holds.
pub enum MetadataValueView {
    ObjectPath(Seq<char>),
    Int64(i64),
    Str(Seq<char>),
    StrList(Seq<Seq<char>>),
}

impl View for MetadataValue {
    type V = MetadataValueView;

    open spec fn view(&self) -> MetadataValueView {
        match self {
            MetadataValue::ObjectPath(p) => MetadataValueView::ObjectPath(p@),
            MetadataValue::Int64(n) => MetadataValueView::Int64(*n),
            MetadataValue::Str(s) => MetadataValueView::Str(s@),
            MetadataValue::StrList(l) => MetadataValueView::StrList(l.deep_view()),
        }
    }
}

impl MetadataValue {
    /// A copy of the value.
    pub fn duplicate(&self) -> (copy: MetadataValue)
        ensures
            copy@ == self@,
    {
        match self {
            MetadataValue::ObjectPath(p) => MetadataValue::ObjectPath(p.clone()),
            MetadataValue::Int64(n) => MetadataValue::Int64(*n),
            MetadataValue::Str(s) => MetadataValue::Str(s.clone()),
            MetadataValue::StrList(l) => {
                let copy = l.clone();
                assert(copy.deep_view() =~= l.deep_view());
                MetadataValue::StrList(copy)
            },
        }
    }
}

/// The exported dictionary of a media item.
pub type MetadataDict = Dict<MetadataValue>;

/// A copy of a dictionary.
pub fn duplicate_dict(dict: &MetadataDict) -> (copy: MetadataDict)
    ensures
        copy@ == dict@,
{
    let entries = dict.entries();
    let mut copy: MetadataDict = Dict::new();
    let mut i: usize = 0;
    while i < entries.len()
        invariant
            i <= entries@.len(),
            copy@ == entries_map(entries@.subrange(0, i as int)),
        decreases entries@.len() - i,
    {
        proof {
            assert(entries@.subrange(0, i + 1).drop_last() =~= entries@.subrange(0, i as int));
        }
        copy.insert(entries[i].key.clone(), entries[i].value.duplicate());
        i = i + 1;
    }
    proof {
        assert(entries@.subrange(0, i as int) =~= entries@);
    }
    copy
}

/// The entry that the dictionary of `m` holds under `key`, if it holds one.
///
/// The track identifier is always there, and is always the same
/// placeholder. Every other entry is there exactly when the field that it
/// carries is present. The artist is a list of one string.
pub open spec fn metadata_entry(m: MetadataView, key: Seq<char>) -> Option<MetadataValueView> {
    if key == TRACK_ID_KEY@ {
        Some(MetadataValueView::ObjectPath(TRACK_ID_PLACEHOLDER@))
    } else if key == LENGTH_KEY@ {
        match m.duration {
            Some(length) => Some(MetadataValueView::Int64(length)),
            None => None,
        }
    } else if key == ART_URL_KEY@ {
        match m.cover_url {
            Some(url) => Some(MetadataValueView::Str(url)),
            None => None,
        }
    } else if key == TITLE_KEY@ {
        match m.title {
            Some(title) => Some(MetadataValueView::Str(title)),
            None => None,
        }
    } else if key == ARTIST_KEY@ {
        match m.artist {
            Some(artist) => Some(MetadataValueView::StrList(seq![artist])),
            None => None,
        }
    } else if key == ALBUM_KEY@ {
        match m.album {
            Some(album) => Some(MetadataValueView::Str(album)),
            None => None,
        }
    } else {
        None
    }
}

/// The dictionary of `m`: the entries that [`metadata_entry`] gives, and no
/// others.
pub open spec fn metadata_dict_of(m: MetadataView) -> Map<Seq<char>, MetadataValueView> {
    Map::new(
        |key: Seq<char>| metadata_entry(m, key) is Some,
        |key: Seq<char>| metadata_entry(m, key).unwrap(),
    )
}

/// The six keys of the dictionary differ from one another.
pub proof fn lemma_keys_differ()
    ensures
        TRACK_ID_KEY@ != LENGTH_KEY@,
        TRACK_ID_KEY@ != ART_URL_KEY@,
        TRACK_ID_KEY@ != TITLE_KEY@,
        TRACK_ID_KEY@ != ARTIST_KEY@,
        TRACK_ID_KEY@ != ALBUM_KEY@,
        LENGTH_KEY@ != ART_URL_KEY@,
        LENGTH_KEY@ != TITLE_KEY@,
        LENGTH_KEY@ != ARTIST_KEY@,
        LENGTH_KEY@ != ALBUM_KEY@,
        ART_URL_KEY@ != TITLE_KEY@,
        ART_URL_KEY@ != ARTIST_KEY@,
        ART_URL_KEY@ != ALBUM_KEY@,
        TITLE_KEY@ != ARTIST_KEY@,
        TITLE_KEY@ != ALBUM_KEY@,
        ARTIST_KEY@ != ALBUM_KEY@,
{
    reveal_strlit("mpris:trackid");
    reveal_strlit("mpris:length");
    reveal_strlit("mpris:artUrl");
    reveal_strlit("xesam:title");
    reveal_strlit("xesam:artist");
    reveal_strlit("xesam:album");
    assert(TRACK_ID_KEY@.len() == 13);
    assert(LENGTH_KEY@.len() == 12 && LENGTH_KEY@[0] == 'm' && LENGTH_KEY@[6] == 'l');
    assert(ART_URL_KEY@.len() == 12 && ART_URL_KEY@[0] == 'm' && ART_URL_KEY@[6] == 'a');
    assert(TITLE_KEY@.len() == 11 && TITLE_KEY@[6] == 't');
    assert(ARTIST_KEY@.len() == 12 && ARTIST_KEY@[0] == 'x');
    assert(ALBUM_KEY@.len() == 11 && ALBUM_KEY@[6] == 'a');
}

/// The dictionary of a description without any field holds the track
/// identifier and nothing else.
pub proof fn lemma_empty_metadata_dict()
    ensures
        metadata_dict_of(MetadataView::empty()) == map![
            TRACK_ID_KEY@ => MetadataValueView::ObjectPath(TRACK_ID_PLACEHOLDER@),
        ],
{
    lemma_keys_differ();
    assert(metadata_dict_of(MetadataView::empty()) =~= map![
        TRACK_ID_KEY@ => MetadataValueView::ObjectPath(TRACK_ID_PLACEHOLDER@),
    ]);
}

/// The dictionary of a description holds the track identifier, and each
/// other key exactly when the description has the field that the key
/// carries.
pub proof fn lemma_metadata_dict_keys(m: MetadataView)
    ensures
        metadata_dict_of(m).contains_key(TRACK_ID_KEY@),
        metadata_dict_of(m).contains_key(LENGTH_KEY@) <==> m.duration is Some,
        metadata_dict_of(m).contains_key(ART_URL_KEY@) <==> m.cover_url is Some,
        metadata_dict_of(m).contains_key(TITLE_KEY@) <==> m.title is Some,
        metadata_dict_of(m).contains_key(ARTIST_KEY@) <==> m.artist is Some,
        metadata_dict_of(m).contains_key(ALBUM_KEY@) <==> m.album is Some,
        forall|key: Seq<char>| #[trigger]
            metadata_dict_of(m).contains_key(key) ==> key == TRACK_ID_KEY@ || key == LENGTH_KEY@
                || key == ART_URL_KEY@ || key == TITLE_KEY@ || key == ARTIST_KEY@ || key
                == ALBUM_KEY@,
{
    lemma_keys_differ();
}

/// The exported dictionary of a media item.
pub fn create_metadata_dict(metadata: &OwnedMetadata) -> (dict: MetadataDict)
    ensures
        dict@ == metadata_dict_of(metadata@),
{
    let mut dict: MetadataDict = Dict::new();
    dict.insert(TRACK_ID_KEY.to_owned(), MetadataValue::ObjectPath(TRACK_ID_PLACEHOLDER.to_owned()));
    if let Some(length) = metadata.duration {
        dict.insert(LENGTH_KEY.to_owned(), MetadataValue::Int64(length));
    }
    if let Some(cover_url) = &metadata.cover_url {
        dict.insert(ART_URL_KEY.to_owned(), MetadataValue::Str(cover_url.clone()));
    }
    if let Some(title) = &metadata.title {
        dict.insert(TITLE_KEY.to_owned(), MetadataValue::Str(title.clone()));
    }
    if let Some(artist) = &metadata.artist {
        let mut artists: Vec<String> = Vec::new();
        artists.push(artist.clone());
        assert(artists.deep_view() =~= seq![artist@]);
        dict.insert(ARTIST_KEY.to_owned(), MetadataValue::StrList(artists));
    }
    if let Some(album) = &metadata.album {
        dict.insert(ALBUM_KEY.to_owned(), MetadataValue::Str(album.clone()));
    }
    proof {
        lemma_keys_differ();
        assert(dict@ =~= metadata_dict_of(metadata@));
    }
    dict
}

} // verus!
