//! The commands that travel from the host to the service worker.

use crate::media::{MediaButton, MediaMetadata, MediaPlayback, Volume};
use crate::metadata::{MetadataView, OwnedMetadata};
use vstd::prelude::*;

verus! {

/// One requested change of the service state, or the request to shut the
/// worker down.
#[derive(Clone, PartialEq, Debug)]
pub enum InternalEvent {
    ChangeMetadata(OwnedMetadata),
    ChangePlayback(MediaPlayback),
    ChangeVolume(Volume),
    ChangeButtonEnabled(MediaButton, bool),
    Kill,
}

/// What an [`InternalEvent`] holds.
pub enum EventView {
    ChangeMetadata(MetadataView),
    ChangePlayback(MediaPlayback),
    ChangeVolume(Volume),
    ChangeButtonEnabled(MediaButton, bool),
    Kill,
}

impl View for InternalEvent {
    type V = EventView;

    open spec fn view(&self) -> EventView {
        match self {
            InternalEvent::ChangeMetadata(metadata) => EventView::ChangeMetadata(metadata@),
            InternalEvent::ChangePlayback(playback) => EventView::ChangePlayback(*playback),
            InternalEvent::ChangeVolume(volume) => EventView::ChangeVolume(*volume),
            InternalEvent::ChangeButtonEnabled(button, enabled) => EventView::ChangeButtonEnabled(
                *button,
                *enabled,
            ),
            InternalEvent::Kill => EventView::Kill,
        }
    }
}

/// The command that changes the playback status to `playback`.
pub fn playback_command(playback: MediaPlayback) -> (event: InternalEvent)
    ensures
        event@ == EventView::ChangePlayback(playback),
{
    InternalEvent::ChangePlayback(playback)
}

/// The command that changes the metadata to an owned copy of `metadata`.
/// The length of the item, if it has one, has to fit into 63 bits.
pub fn metadata_command(metadata: MediaMetadata<'_>) -> (event: InternalEvent)
    requires
        OwnedMetadata::spec_fits(metadata),
    ensures
        event@ == EventView::ChangeMetadata(OwnedMetadata::spec_from(metadata)),
{
    InternalEvent::ChangeMetadata(OwnedMetadata::from(metadata))
}

/// The command that changes the volume to `volume`.
pub fn volume_command(volume: Volume) -> (event: InternalEvent)
    ensures
        event@ == EventView::ChangeVolume(volume),
{
    InternalEvent::ChangeVolume(volume)
}

/// The command that sets the availability of `button` to `enabled`.
pub fn button_command(button: MediaButton, enabled: bool) -> (event: InternalEvent)
    ensures
        event@ == EventView::ChangeButtonEnabled(button, enabled),
{
    InternalEvent::ChangeButtonEnabled(button, enabled)
}

/// The command that tells the worker to shut down.
pub fn shutdown_command() -> (event: InternalEvent)
    ensures
        event@ == EventView::Kill,
{
    InternalEvent::Kill
}

} // verus!
