//! The service state: what the player currently exports, and how one
//! command changes it.

use crate::dict::Dict;
use crate::event::{EventView, InternalEvent};
use crate::media::{MediaButton, MediaPlayback, Volume, FULL_VOLUME_BITS};
use crate::metadata::{
    create_metadata_dict, duplicate_dict, metadata_dict_of, MetadataDict, MetadataView,
    OwnedMetadata,
};
use crate::property::{
    capability_property, capability_property_name, lemma_property_names_differ, PropertyDict,
    PropertyValue, PropertyValueView, CAN_GO_NEXT_PROPERTY, CAN_GO_PREVIOUS_PROPERTY,
    CAN_PAUSE_PROPERTY, CAN_PLAY_PROPERTY, CAN_SEEK_PROPERTY, METADATA_PROPERTY,
    PLAYBACK_STATUS_PROPERTY, VOLUME_PROPERTY,
};
use vstd::prelude::*;

verus! {

/// What a [`ServiceState`] holds. The metadata dictionary is not part of
/// it: it is always the dictionary of the metadata.
pub struct ServiceModel {
    pub metadata: MetadataView,
    pub playback_status: MediaPlayback,
    pub volume: Volume,
    pub can_play: bool,
    pub can_pause: bool,
    pub can_go_next: bool,
    pub can_go_previous: bool,
    pub can_seek: bool,
}

impl ServiceModel {
    /// The state of a worker that has just started: nothing is playing, the
    /// volume is 1.0, there is no metadata and every control is available.
    pub open spec fn initial() -> ServiceModel {
        ServiceModel {
            metadata: MetadataView::empty(),
            playback_status: MediaPlayback::Stopped,
            volume: Volume { bits: FULL_VOLUME_BITS },
            can_play: true,
            can_pause: true,
            can_go_next: true,
            can_go_previous: true,
            can_seek: true,
        }
    }

    /// The state with the availability of `button` set to `enabled`. The
    /// stop button has no availability to set.
    pub open spec fn with_button(self, button: MediaButton, enabled: bool) -> ServiceModel {
        match button {
            MediaButton::Play => ServiceModel { can_play: enabled, ..self },
            MediaButton::Pause => ServiceModel { can_pause: enabled, ..self },
            MediaButton::Next => ServiceModel { can_go_next: enabled, ..self },
            MediaButton::Previous => ServiceModel { can_go_previous: enabled, ..self },
            MediaButton::Seek => ServiceModel { can_seek: enabled, ..self },
            MediaButton::Stop => self,
        }
    }

    /// The state after one command.
    pub open spec fn after(self, event: EventView) -> ServiceModel {
        match event {
            EventView::ChangeMetadata(metadata) => ServiceModel { metadata, ..self },
            EventView::ChangePlayback(playback_status) => ServiceModel { playback_status, ..self },
            EventView::ChangeVolume(volume) => ServiceModel { volume, ..self },
            EventView::ChangeButtonEnabled(button, enabled) => self.with_button(button, enabled),
            EventView::Kill => self,
        }
    }

    /// The exported properties with their current values.
    pub open spec fn exported(self) -> Map<Seq<char>, PropertyValueView> {
        map![
            METADATA_PROPERTY@ => PropertyValueView::Metadata(metadata_dict_of(self.metadata)),
            PLAYBACK_STATUS_PROPERTY@ => PropertyValueView::Str(self.playback_status.token()),
            VOLUME_PROPERTY@ => PropertyValueView::Double(self.volume),
            CAN_PLAY_PROPERTY@ => PropertyValueView::Bool(self.can_play),
            CAN_PAUSE_PROPERTY@ => PropertyValueView::Bool(self.can_pause),
            CAN_GO_NEXT_PROPERTY@ => PropertyValueView::Bool(self.can_go_next),
            CAN_GO_PREVIOUS_PROPERTY@ => PropertyValueView::Bool(self.can_go_previous),
            CAN_SEEK_PROPERTY@ => PropertyValueView::Bool(self.can_seek),
        ]
    }
}

/// The properties that one command changes, with their new values: at
/// most one, and none for the stop button or the request to shut down.
pub open spec fn changes(event: EventView) -> Map<Seq<char>, PropertyValueView> {
    match event {
        EventView::ChangeMetadata(metadata) => map![
            METADATA_PROPERTY@ => PropertyValueView::Metadata(metadata_dict_of(metadata)),
        ],
        EventView::ChangePlayback(playback_status) => map![
            PLAYBACK_STATUS_PROPERTY@ => PropertyValueView::Str(playback_status.token()),
        ],
        EventView::ChangeVolume(volume) => map![
            VOLUME_PROPERTY@ => PropertyValueView::Double(volume),
        ],
        EventView::ChangeButtonEnabled(button, enabled) => match capability_property(button) {
            Some(name) => map![name => PropertyValueView::Bool(enabled)],
            None => Map::empty(),
        },
        EventView::Kill => Map::empty(),
    }
}

/// The state after a sequence of commands. Nothing that follows a request
/// to shut down is applied.
pub open spec fn after_all(state: ServiceModel, events: Seq<EventView>) -> ServiceModel
    decreases events.len(),
{
    if events.len() == 0 || events.first() is Kill {
        state
    } else {
        after_all(state.after(events.first()), events.drop_first())
    }
}

/// Every property that a command announces as changed is an exported
/// property, and the announced value is the value that the property has
/// once the command is applied.
pub proof fn lemma_changes_are_exported(state: ServiceModel, event: EventView)
    ensures
        changes(event).submap_of(state.after(event).exported()),
{
    lemma_property_names_differ();
}

/// No command makes the availability of the stop button an exported
/// property: a command for the stop button announces nothing.
pub proof fn lemma_stop_is_never_announced(enabled: bool)
    ensures
        changes(EventView::ChangeButtonEnabled(MediaButton::Stop, enabled)) == Map::<
            Seq<char>,
            PropertyValueView,
        >::empty(),
{
}

/// The commands that announce nothing are the commands for the stop button
/// and the request to shut down, and no others.
pub proof fn lemma_silent_commands(event: EventView)
    ensures
        changes(event) == Map::<Seq<char>, PropertyValueView>::empty() <==> (event is Kill
            || event matches EventView::ChangeButtonEnabled(MediaButton::Stop, _)),
{
    match event {
        EventView::ChangeMetadata(_) => {
            assert(changes(event).contains_key(METADATA_PROPERTY@));
        },
        EventView::ChangePlayback(_) => {
            assert(changes(event).contains_key(PLAYBACK_STATUS_PROPERTY@));
        },
        EventView::ChangeVolume(_) => {
            assert(changes(event).contains_key(VOLUME_PROPERTY@));
        },
        EventView::ChangeButtonEnabled(button, _) => {
            match capability_property(button) {
                Some(name) => {
                    assert(changes(event).contains_key(name));
                },
                None => {},
            }
        },
        EventView::Kill => {},
    }
}

/// After a command that changes the playback status, the exported status
/// is the token of the new status, whatever timing it carries.
pub proof fn lemma_playback_status_follows_command(state: ServiceModel, playback: MediaPlayback)
    ensures
        state.after(EventView::ChangePlayback(playback)).playback_status.token()
            == playback.token(),
        playback is Playing ==> playback.token() == "Playing"@,
        playback is Paused ==> playback.token() == "Paused"@,
        playback is Stopped ==> playback.token() == "Stopped"@,
{
}

/// The volume after a sequence of commands is the volume of the last
/// volume command that was applied. Here `events[i]` sets the volume, no
/// request to shut down comes before it, and no volume command comes after
/// it.
pub proof fn lemma_last_volume_wins(state: ServiceModel, events: Seq<EventView>, i: int)
    requires
        0 <= i < events.len(),
        events[i] is ChangeVolume,
        forall|j: int| 0 <= j < i ==> !(#[trigger] events[j] is Kill),
        forall|j: int| i < j < events.len() ==> !(#[trigger] events[j] is ChangeVolume),
    ensures
        after_all(state, events).volume == events[i]->ChangeVolume_0,
    decreases events.len(),
{
    let rest = events.drop_first();
    if i == 0 {
        let next = state.after(events[0]);
        assert forall|j: int| 0 <= j < rest.len() implies !(#[trigger] rest[j] is ChangeVolume) by {
            assert(rest[j] == events[j + 1]);
        }
        lemma_volume_kept(next, rest);
    } else {
        assert(!(events[0] is Kill));
        assert(rest[i - 1] == events[i]);
        assert forall|j: int| 0 <= j < i - 1 implies !(#[trigger] rest[j] is Kill) by {
            assert(rest[j] == events[j + 1]);
        }
        assert forall|j: int| i - 1 < j < rest.len() implies !(#[trigger] rest[j]
            is ChangeVolume) by {
            assert(rest[j] == events[j + 1]);
        }
        lemma_last_volume_wins(state.after(events[0]), rest, i - 1);
    }
}

/// A sequence of commands without a volume command leaves the volume as it
/// is.
pub proof fn lemma_volume_kept(state: ServiceModel, events: Seq<EventView>)
    requires
        forall|j: int| 0 <= j < events.len() ==> !(#[trigger] events[j] is ChangeVolume),
    ensures
        after_all(state, events).volume == state.volume,
    decreases events.len(),
{
    if events.len() > 0 && !(events.first() is Kill) {
        let rest = events.drop_first();
        assert(!(events[0] is ChangeVolume));
        assert forall|j: int| 0 <= j < rest.len() implies !(#[trigger] rest[j] is ChangeVolume) by {
            assert(rest[j] == events[j + 1]);
        }
        lemma_volume_kept(state.after(events.first()), rest);
    }
}

/// The state of the service: the current metadata with its dictionary, the
/// playback status, the volume, and which controls are available.
#[derive(Debug)]
pub struct ServiceState {
    metadata: OwnedMetadata,
    metadata_dict: MetadataDict,
    playback_status: MediaPlayback,
    volume: Volume,
    can_play: bool,
    can_pause: bool,
    can_go_next: bool,
    can_go_previous: bool,
    can_seek: bool,
}

impl View for ServiceState {
    type V = ServiceModel;

    closed spec fn view(&self) -> ServiceModel {
        ServiceModel {
            metadata: self.metadata@,
            playback_status: self.playback_status,
            volume: self.volume,
            can_play: self.can_play,
            can_pause: self.can_pause,
            can_go_next: self.can_go_next,
            can_go_previous: self.can_go_previous,
            can_seek: self.can_seek,
        }
    }
}

impl ServiceState {
    /// The dictionary is the one that the codec gives for the metadata.
    #[verifier::type_invariant]
    spec fn dictionary_matches_metadata(self) -> bool {
        self.metadata_dict@ == metadata_dict_of(self.metadata@)
    }

    /// The state of a worker that has just started.
    pub fn new() -> (state: ServiceState)
        ensures
            state@ == ServiceModel::initial(),
    {
        let metadata = OwnedMetadata::default();
        let metadata_dict = create_metadata_dict(&metadata);
        ServiceState {
            metadata,
            metadata_dict,
            playback_status: MediaPlayback::Stopped,
            volume: Volume::full(),
            can_play: true,
            can_pause: true,
            can_go_next: true,
            can_go_previous: true,
            can_seek: true,
        }
    }

    /// Replaces the metadata, and with it the dictionary.
    pub fn set_metadata(&mut self, metadata: OwnedMetadata)
        ensures
            final(self)@ == (ServiceModel { metadata: metadata@, ..old(self)@ }),
    {
        let metadata_dict = create_metadata_dict(&metadata);
        *self = ServiceState {
            metadata,
            metadata_dict,
            playback_status: self.playback_status,
            volume: self.volume,
            can_play: self.can_play,
            can_pause: self.can_pause,
            can_go_next: self.can_go_next,
            can_go_previous: self.can_go_previous,
            can_seek: self.can_seek,
        };
    }

    /// The exported name of the playback status.
    pub fn get_playback_status(&self) -> (token: &'static str)
        ensures
            token@ == self@.playback_status.token(),
    {
        match self.playback_status {
            MediaPlayback::Playing { .. } => "Playing",
            MediaPlayback::Paused { .. } => "Paused",
            MediaPlayback::Stopped => "Stopped",
        }
    }

    /// The current metadata.
    pub fn metadata(&self) -> (metadata: &OwnedMetadata)
        ensures
            metadata@ == self@.metadata,
    {
        &self.metadata
    }

    /// The dictionary of the current metadata.
    pub fn metadata_dict(&self) -> (dict: &MetadataDict)
        ensures
            dict@ == metadata_dict_of(self@.metadata),
    {
        proof {
            use_type_invariant(self);
        }
        &self.metadata_dict
    }

    /// The playback status, with the timing that it carries.
    pub fn playback_status(&self) -> (playback: MediaPlayback)
        ensures
            playback == self@.playback_status,
    {
        self.playback_status
    }

    /// The volume.
    pub fn volume(&self) -> (volume: Volume)
        ensures
            volume == self@.volume,
    {
        self.volume
    }

    /// Whether playback can be started.
    pub fn can_play(&self) -> (b: bool)
        ensures
            b == self@.can_play,
    {
        self.can_play
    }

    /// Whether playback can be paused.
    pub fn can_pause(&self) -> (b: bool)
        ensures
            b == self@.can_pause,
    {
        self.can_pause
    }

    /// Whether there is a next item to go to.
    pub fn can_go_next(&self) -> (b: bool)
        ensures
            b == self@.can_go_next,
    {
        self.can_go_next
    }

    /// Whether there is a previous item to go to.
    pub fn can_go_previous(&self) -> (b: bool)
        ensures
            b == self@.can_go_previous,
    {
        self.can_go_previous
    }

    /// Whether the position can be moved.
    pub fn can_seek(&self) -> (b: bool)
        ensures
            b == self@.can_seek,
    {
        self.can_seek
    }

    /// Applies one command, and returns the properties that it changed
    /// with their new values.
    pub fn apply(&mut self, event: InternalEvent) -> (changed: PropertyDict)
        ensures
            final(self)@ == old(self)@.after(event@),
            changed@ == changes(event@),
    {
        proof {
            use_type_invariant(&*self);
        }
        let mut changed: PropertyDict = Dict::new();
        match event {
            InternalEvent::ChangeMetadata(metadata) => {
                self.set_metadata(metadata);
                proof {
                    use_type_invariant(&*self);
                }
                changed.insert(
                    METADATA_PROPERTY.to_owned(),
                    PropertyValue::Metadata(duplicate_dict(&self.metadata_dict)),
                );
            },
            InternalEvent::ChangePlayback(playback) => {
                self.playback_status = playback;
                changed.insert(
                    PLAYBACK_STATUS_PROPERTY.to_owned(),
                    PropertyValue::Str(self.get_playback_status().to_owned()),
                );
            },
            InternalEvent::ChangeVolume(volume) => {
                self.volume = volume;
                changed.insert(VOLUME_PROPERTY.to_owned(), PropertyValue::Double(volume));
            },
            InternalEvent::ChangeButtonEnabled(button, enabled) => {
                match button {
                    MediaButton::Play => {
                        self.can_play = enabled;
                    },
                    MediaButton::Pause => {
                        self.can_pause = enabled;
                    },
                    MediaButton::Next => {
                        self.can_go_next = enabled;
                    },
                    MediaButton::Previous => {
                        self.can_go_previous = enabled;
                    },
                    MediaButton::Seek => {
                        self.can_seek = enabled;
                    },
                    MediaButton::Stop => {},
                }
                if let Some(name) = capability_property_name(button) {
                    changed.insert(name.to_owned(), PropertyValue::Bool(enabled));
                }
            },
            InternalEvent::Kill => {},
        }
        changed
    }
}

} // verus!
