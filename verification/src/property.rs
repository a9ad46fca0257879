//! The exported properties of the player interface: their names and the
//! values that they take.

use crate::dict::Dict;
use crate::media::{MediaButton, Volume};
use crate::metadata::{MetadataDict, MetadataValueView};
use vstd::prelude::*;

verus! {

/// The name of the property that holds the metadata dictionary.
pub const METADATA_PROPERTY: &'static str = "Metadata";

/// The name of the property that holds the playback status.
pub const PLAYBACK_STATUS_PROPERTY: &'static str = "PlaybackStatus";

/// The name of the property that holds the volume.
pub const VOLUME_PROPERTY: &'static str = "Volume";

/// The name of the property that tells whether playback can be started.
pub const CAN_PLAY_PROPERTY: &'static str = "CanPlay";

/// The name of the property that tells whether playback can be paused.
pub const CAN_PAUSE_PROPERTY: &'static str = "CanPause";

/// The name of the property that tells whether there is a next item.
pub const CAN_GO_NEXT_PROPERTY: &'static str = "CanGoNext";

/// The name of the property that tells whether there is a previous item.
pub const CAN_GO_PREVIOUS_PROPERTY: &'static str = "CanGoPrevious";

/// The name of the property that tells whether the position can be moved.
pub const CAN_SEEK_PROPERTY: &'static str = "CanSeek";

/// The value of an exported property.
#[derive(Debug)]
pub enum PropertyValue {
    /// A metadata dictionary.
    Metadata(MetadataDict),
    /// A string.
    Str(String),
    /// A double precision number, held as its bit pattern.
    Double(Volume),
    /// A truth value.
    Bool(bool),
}

/// What a [`PropertyValue`] holds.
pub enum PropertyValueView {
    Metadata(Map<Seq<char>, MetadataValueView>),
    Str(Seq<char>),
    Double(Volume),
    Bool(bool),
}

impl View for PropertyValue {
    type V = PropertyValueView;

    open spec fn view(&self) -> PropertyValueView {
        match self {
            PropertyValue::Metadata(dict) => PropertyValueView::Metadata(dict@),
            PropertyValue::Str(s) => PropertyValueView::Str(s@),
            PropertyValue::Double(volume) => PropertyValueView::Double(*volume),
            PropertyValue::Bool(b) => PropertyValueView::Bool(*b),
        }
    }
}

/// A set of properties with their values.
pub type PropertyDict = Dict<PropertyValue>;

/// The name of the property that announces the availability of `button`.
/// The stop button has none.
pub open spec fn capability_property(button: MediaButton) -> Option<Seq<char>> {
    match button {
        MediaButton::Play => Some(CAN_PLAY_PROPERTY@),
        MediaButton::Pause => Some(CAN_PAUSE_PROPERTY@),
        MediaButton::Next => Some(CAN_GO_NEXT_PROPERTY@),
        MediaButton::Previous => Some(CAN_GO_PREVIOUS_PROPERTY@),
        MediaButton::Seek => Some(CAN_SEEK_PROPERTY@),
        MediaButton::Stop => None,
    }
}

/// The name of the property that announces the availability of `button`.
/// The stop button has none.
pub fn capability_property_name(button: MediaButton) -> (name: Option<&'static str>)
    ensures
        match name {
            Some(name) => capability_property(button) == Some(name@),
            None => capability_property(button) is None,
        },
{
    match button {
        MediaButton::Play => Some(CAN_PLAY_PROPERTY),
        MediaButton::Pause => Some(CAN_PAUSE_PROPERTY),
        MediaButton::Next => Some(CAN_GO_NEXT_PROPERTY),
        MediaButton::Previous => Some(CAN_GO_PREVIOUS_PROPERTY),
        MediaButton::Seek => Some(CAN_SEEK_PROPERTY),
        MediaButton::Stop => None,
    }
}

/// The names of the eight exported properties differ from one another.
pub proof fn lemma_property_names_differ()
    ensures
        METADATA_PROPERTY@ != PLAYBACK_STATUS_PROPERTY@,
        METADATA_PROPERTY@ != VOLUME_PROPERTY@,
        METADATA_PROPERTY@ != CAN_PLAY_PROPERTY@,
        METADATA_PROPERTY@ != CAN_PAUSE_PROPERTY@,
        METADATA_PROPERTY@ != CAN_GO_NEXT_PROPERTY@,
        METADATA_PROPERTY@ != CAN_GO_PREVIOUS_PROPERTY@,
        METADATA_PROPERTY@ != CAN_SEEK_PROPERTY@,
        PLAYBACK_STATUS_PROPERTY@ != VOLUME_PROPERTY@,
        PLAYBACK_STATUS_PROPERTY@ != CAN_PLAY_PROPERTY@,
        PLAYBACK_STATUS_PROPERTY@ != CAN_PAUSE_PROPERTY@,
        PLAYBACK_STATUS_PROPERTY@ != CAN_GO_NEXT_PROPERTY@,
        PLAYBACK_STATUS_PROPERTY@ != CAN_GO_PREVIOUS_PROPERTY@,
        PLAYBACK_STATUS_PROPERTY@ != CAN_SEEK_PROPERTY@,
        VOLUME_PROPERTY@ != CAN_PLAY_PROPERTY@,
        VOLUME_PROPERTY@ != CAN_PAUSE_PROPERTY@,
        VOLUME_PROPERTY@ != CAN_GO_NEXT_PROPERTY@,
        VOLUME_PROPERTY@ != CAN_GO_PREVIOUS_PROPERTY@,
        VOLUME_PROPERTY@ != CAN_SEEK_PROPERTY@,
        CAN_PLAY_PROPERTY@ != CAN_PAUSE_PROPERTY@,
        CAN_PLAY_PROPERTY@ != CAN_GO_NEXT_PROPERTY@,
        CAN_PLAY_PROPERTY@ != CAN_GO_PREVIOUS_PROPERTY@,
        CAN_PLAY_PROPERTY@ != CAN_SEEK_PROPERTY@,
        CAN_PAUSE_PROPERTY@ != CAN_GO_NEXT_PROPERTY@,
        CAN_PAUSE_PROPERTY@ != CAN_GO_PREVIOUS_PROPERTY@,
        CAN_PAUSE_PROPERTY@ != CAN_SEEK_PROPERTY@,
        CAN_GO_NEXT_PROPERTY@ != CAN_GO_PREVIOUS_PROPERTY@,
        CAN_GO_NEXT_PROPERTY@ != CAN_SEEK_PROPERTY@,
        CAN_GO_PREVIOUS_PROPERTY@ != CAN_SEEK_PROPERTY@,
{
    reveal_strlit("Metadata");
    reveal_strlit("PlaybackStatus");
    reveal_strlit("Volume");
    reveal_strlit("CanPlay");
    reveal_strlit("CanPause");
    reveal_strlit("CanGoNext");
    reveal_strlit("CanGoPrevious");
    reveal_strlit("CanSeek");
    assert(METADATA_PROPERTY@.len() == 8 && METADATA_PROPERTY@[0] == 'M');
    assert(PLAYBACK_STATUS_PROPERTY@.len() == 14);
    assert(VOLUME_PROPERTY@.len() == 6);
    assert(CAN_PLAY_PROPERTY@.len() == 7 && CAN_PLAY_PROPERTY@[3] == 'P');
    assert(CAN_PAUSE_PROPERTY@.len() == 8 && CAN_PAUSE_PROPERTY@[0] == 'C');
    assert(CAN_GO_NEXT_PROPERTY@.len() == 9);
    assert(CAN_GO_PREVIOUS_PROPERTY@.len() == 13);
    assert(CAN_SEEK_PROPERTY@.len() == 7 && CAN_SEEK_PROPERTY@[3] == 'S');
}

} // verus!
