use mpris_controls::media::MediaMetadata;
use mpris_controls::metadata::{
    create_metadata_dict, duplicate_dict, MetadataValue, OwnedMetadata, ALBUM_KEY, ARTIST_KEY,
    ART_URL_KEY, LENGTH_KEY, TITLE_KEY, TRACK_ID_KEY, TRACK_ID_PLACEHOLDER,
};

fn text(s: &str) -> Option<String> {
    Some(s.to_string())
}

#[test]
fn keys_are_the_wire_names() {
    assert_eq!(TRACK_ID_KEY, "mpris:trackid");
    assert_eq!(LENGTH_KEY, "mpris:length");
    assert_eq!(ART_URL_KEY, "mpris:artUrl");
    assert_eq!(TITLE_KEY, "xesam:title");
    assert_eq!(ARTIST_KEY, "xesam:artist");
    assert_eq!(ALBUM_KEY, "xesam:album");
    assert_eq!(TRACK_ID_PLACEHOLDER, "/");
}

#[test]
fn empty_metadata_gives_only_the_track_id() {
    let dict = create_metadata_dict(&OwnedMetadata::default());
    assert_eq!(dict.len(), 1);
    assert_eq!(
        dict.get("mpris:trackid"),
        Some(&MetadataValue::ObjectPath("/".to_string()))
    );
    assert!(!dict.contains_key("mpris:length"));
    assert!(!dict.contains_key("mpris:artUrl"));
    assert!(!dict.contains_key("xesam:title"));
    assert!(!dict.contains_key("xesam:artist"));
    assert!(!dict.contains_key("xesam:album"));
}

#[test]
fn title_and_duration_give_three_entries() {
    let metadata = OwnedMetadata {
        title: text("A"),
        duration: Some(1000),
        ..OwnedMetadata::default()
    };
    let dict = create_metadata_dict(&metadata);
    assert_eq!(dict.len(), 3);
    assert_eq!(
        dict.get("mpris:trackid"),
        Some(&MetadataValue::ObjectPath("/".to_string()))
    );
    assert_eq!(dict.get("xesam:title"), Some(&MetadataValue::Str("A".to_string())));
    assert_eq!(dict.get("mpris:length"), Some(&MetadataValue::Int64(1000)));
    assert_eq!(dict.get("xesam:artist"), None);
    assert_eq!(dict.get("xesam:album"), None);
    assert_eq!(dict.get("mpris:artUrl"), None);
}

#[test]
fn full_metadata_gives_six_entries() {
    let metadata = OwnedMetadata {
        title: text("Song"),
        album: text("Record"),
        artist: text("Singer"),
        cover_url: text("file:///tmp/cover.png"),
        duration: Some(215_000_000),
    };
    let dict = create_metadata_dict(&metadata);
    assert_eq!(dict.len(), 6);
    assert_eq!(
        dict.get("mpris:trackid"),
        Some(&MetadataValue::ObjectPath("/".to_string()))
    );
    assert_eq!(dict.get("mpris:length"), Some(&MetadataValue::Int64(215_000_000)));
    assert_eq!(
        dict.get("mpris:artUrl"),
        Some(&MetadataValue::Str("file:///tmp/cover.png".to_string()))
    );
    assert_eq!(dict.get("xesam:title"), Some(&MetadataValue::Str("Song".to_string())));
    assert_eq!(dict.get("xesam:album"), Some(&MetadataValue::Str("Record".to_string())));
}

#[test]
fn artist_is_a_list_of_one_string() {
    let metadata = OwnedMetadata { artist: text("Singer"), ..OwnedMetadata::default() };
    let dict = create_metadata_dict(&metadata);
    assert_eq!(dict.len(), 2);
    assert_eq!(
        dict.get("xesam:artist"),
        Some(&MetadataValue::StrList(vec!["Singer".to_string()]))
    );
}

#[test]
fn each_optional_field_alone_gives_its_own_entry() {
    let album = OwnedMetadata { album: text("R"), ..OwnedMetadata::default() };
    let dict = create_metadata_dict(&album);
    assert_eq!(dict.len(), 2);
    assert_eq!(dict.get("xesam:album"), Some(&MetadataValue::Str("R".to_string())));

    let cover = OwnedMetadata { cover_url: text("u"), ..OwnedMetadata::default() };
    let dict = create_metadata_dict(&cover);
    assert_eq!(dict.len(), 2);
    assert_eq!(dict.get("mpris:artUrl"), Some(&MetadataValue::Str("u".to_string())));

    let length = OwnedMetadata { duration: Some(-5), ..OwnedMetadata::default() };
    let dict = create_metadata_dict(&length);
    assert_eq!(dict.len(), 2);
    assert_eq!(dict.get("mpris:length"), Some(&MetadataValue::Int64(-5)));
}

#[test]
fn empty_strings_are_present_fields() {
    let metadata = OwnedMetadata { title: text(""), ..OwnedMetadata::default() };
    let dict = create_metadata_dict(&metadata);
    assert_eq!(dict.len(), 2);
    assert_eq!(dict.get("xesam:title"), Some(&MetadataValue::Str(String::new())));
}

#[test]
fn codec_is_deterministic() {
    let metadata = OwnedMetadata {
        title: text("Song"),
        artist: text("Singer"),
        ..OwnedMetadata::default()
    };
    let first = create_metadata_dict(&metadata);
    let second = create_metadata_dict(&metadata);
    assert_eq!(first.entries(), second.entries());
}

#[test]
fn the_track_id_comes_first() {
    let metadata = OwnedMetadata { title: text("Song"), ..OwnedMetadata::default() };
    let dict = create_metadata_dict(&metadata);
    assert_eq!(dict.entries()[0].key, "mpris:trackid");
}

#[test]
fn default_metadata_has_no_field() {
    let metadata = OwnedMetadata::default();
    assert_eq!(metadata.title, None);
    assert_eq!(metadata.album, None);
    assert_eq!(metadata.artist, None);
    assert_eq!(metadata.cover_url, None);
    assert_eq!(metadata.duration, None);
}

#[test]
fn owned_copy_keeps_every_field() {
    let borrowed = MediaMetadata {
        title: Some("Song"),
        album: Some("Record"),
        artist: Some("Singer"),
        cover_url: Some("https://example.org/c.png"),
        duration: Some(3_000_000),
    };
    assert!(OwnedMetadata::fits(&borrowed));
    let owned = OwnedMetadata::from(borrowed);
    assert_eq!(
        owned,
        OwnedMetadata {
            title: text("Song"),
            album: text("Record"),
            artist: text("Singer"),
            cover_url: text("https://example.org/c.png"),
            duration: Some(3_000_000),
        }
    );
}

#[test]
fn owned_copy_of_nothing_is_nothing() {
    let owned = OwnedMetadata::from(MediaMetadata::default());
    assert_eq!(owned, OwnedMetadata::default());
}

#[test]
fn owned_copy_does_not_mix_up_the_fields() {
    let owned = OwnedMetadata::from(MediaMetadata {
        title: Some("t"),
        album: None,
        artist: Some("a"),
        cover_url: None,
        duration: None,
    });
    assert_eq!(owned.title, text("t"));
    assert_eq!(owned.artist, text("a"));
    assert_eq!(owned.album, None);
    assert_eq!(owned.cover_url, None);
    assert_eq!(owned.duration, None);
}

#[test]
fn the_longest_length_that_fits() {
    let longest = MediaMetadata { duration: Some(i64::MAX as u128), ..MediaMetadata::default() };
    assert!(OwnedMetadata::fits(&longest));
    assert_eq!(OwnedMetadata::from(longest).duration, Some(i64::MAX));
}

#[test]
fn a_length_of_more_than_63_bits_does_not_fit() {
    let too_long =
        MediaMetadata { duration: Some(i64::MAX as u128 + 1), ..MediaMetadata::default() };
    assert!(!OwnedMetadata::fits(&too_long));
    let far_too_long = MediaMetadata { duration: Some(u128::MAX), ..MediaMetadata::default() };
    assert!(!OwnedMetadata::fits(&far_too_long));
}

#[test]
fn no_length_always_fits() {
    assert!(OwnedMetadata::fits(&MediaMetadata::default()));
}

#[test]
fn values_are_copied_as_they_are() {
    let values = vec![
        MetadataValue::ObjectPath("/a/b".to_string()),
        MetadataValue::Int64(-7),
        MetadataValue::Str("s".to_string()),
        MetadataValue::StrList(vec!["x".to_string(), "y".to_string()]),
    ];
    for value in &values {
        assert_eq!(&value.duplicate(), value);
    }
}

#[test]
fn a_copied_dictionary_holds_the_same_entries() {
    let metadata = OwnedMetadata {
        title: text("Song"),
        album: text("Record"),
        artist: text("Singer"),
        cover_url: text("u"),
        duration: Some(12),
    };
    let dict = create_metadata_dict(&metadata);
    let copy = duplicate_dict(&dict);
    assert_eq!(copy.len(), 6);
    assert_eq!(copy.entries(), dict.entries());
}
