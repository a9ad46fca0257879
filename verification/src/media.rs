//! The values that a host hands to the media controls.

use std::time::Duration;
use vstd::prelude::*;

verus! {

/// The buttons of a remote control whose availability a player announces.
#[derive(Clone, Copy, Debug, PartialEq, Eq, Structural)]
pub enum MediaButton {
    Play,
    Pause,
    Next,
    Previous,
    Seek,
    Stop,
}

/// A position within the current media item.
#[derive(Clone, Copy, Debug, PartialEq, Eq)]
pub struct MediaPosition(pub Duration);

/// The playback status of the player. The timing information of a status
/// is carried along and never exported with the status itself.
#[derive(Clone, Copy, Debug, PartialEq, Eq)]
pub enum MediaPlayback {
    Stopped,
    Paused { progress: Option<MediaPosition> },
    Playing { progress: Option<MediaPosition> },
}

impl MediaPlayback {
    /// The exported name of the status: one of three plain tokens.
    pub open spec fn token(self) -> Seq<char> {
        match self {
            MediaPlayback::Playing { .. } => "Playing"@,
            MediaPlayback::Paused { .. } => "Paused"@,
            MediaPlayback::Stopped => "Stopped"@,
        }
    }
}

/// The bit pattern of the volume 1.0.
pub const FULL_VOLUME_BITS: u64 = 0x3FF0_0000_0000_0000;

/// A volume level, held as the bit pattern of a double precision number.
/// The level is conventionally between 0.0 and 1.0; no value is rejected or
/// changed on its way through the controls.
#[derive(Clone, Copy, Debug, PartialEq, Eq, Structural)]
pub struct Volume {
    pub bits: u64,
}

impl Volume {
    /// The volume with the given bit pattern.
    pub fn from_bits(bits: u64) -> (v: Volume)
        ensures
            v.bits == bits,
    {
        Volume { bits }
    }

    /// The bit pattern of the volume.
    pub fn to_bits(self) -> (bits: u64)
        ensures
            bits == self.bits,
    {
        self.bits
    }

    /// The volume 1.0.
    pub fn full() -> (v: Volume)
        ensures
            v.bits == FULL_VOLUME_BITS,
    {
        Volume { bits: FULL_VOLUME_BITS }
    }
}

/// The names under which the controls appear on the bus.
#[derive(Clone, Copy, Debug, PartialEq, Eq)]
pub struct PlatformConfig<'a> {
    /// The name shown to users.
    pub display_name: &'a str,
    /// The last part of the bus name of the service.
    pub dbus_name: &'a str,
}

/// A description of the current media item, borrowed from the host. Each
/// field may be absent.
#[derive(Clone, Copy, Debug, PartialEq, Eq, Default)]
pub struct MediaMetadata<'a> {
    pub title: Option<&'a str>,
    pub album: Option<&'a str>,
    pub artist: Option<&'a str>,
    pub cover_url: Option<&'a str>,
    /// The length of the item in microseconds.
    pub duration: Option<u128>,
}

} // verus!
