use mpris_controls::error::BusFailure;
use mpris_controls::event::InternalEvent;
use mpris_controls::media::{MediaButton, MediaPlayback, Volume};
use mpris_controls::metadata::OwnedMetadata;
use mpris_controls::property::{PropertyDict, PropertyValue};
use mpris_controls::state::ServiceState;
use mpris_controls::worker::{
    first_action, notification, on_emitted, on_received, on_serviced, WorkerAction,
    COMMAND_WAIT_MILLIS, TRANSPORT_WAIT_MILLIS,
};

fn failure() -> BusFailure {
    BusFailure {
        name: Some("org.freedesktop.DBus.Error.Disconnected".to_string()),
        message: Some("connection closed".to_string()),
    }
}

#[test]
fn the_waits_are_short_and_bounded() {
    assert_eq!(COMMAND_WAIT_MILLIS, 10);
    assert_eq!(TRANSPORT_WAIT_MILLIS, 1000);
}

#[test]
fn the_worker_first_waits_for_a_command() {
    assert!(matches!(first_action(), WorkerAction::WaitForCommand { millis: 10 }));
}

#[test]
fn without_a_command_the_worker_serves_the_transport() {
    let mut state = ServiceState::new();
    let action = on_received(&mut state, None);
    assert!(matches!(action, WorkerAction::ServiceTransport { millis: 1000 }));
    assert_eq!(state.get_playback_status(), "Stopped");
    assert_eq!(state.volume(), Volume::full());
}

#[test]
fn the_request_to_shut_down_stops_the_worker_at_once() {
    let mut state = ServiceState::new();
    state.apply(InternalEvent::ChangePlayback(MediaPlayback::Playing { progress: None }));
    let action = on_received(&mut state, Some(InternalEvent::Kill));
    assert!(matches!(action, WorkerAction::Stop(Ok(()))));
    assert_eq!(state.get_playback_status(), "Playing");
}

#[test]
fn a_command_is_applied_and_announced() {
    let mut state = ServiceState::new();
    let action = on_received(
        &mut state,
        Some(InternalEvent::ChangePlayback(MediaPlayback::Paused { progress: None })),
    );
    assert_eq!(state.get_playback_status(), "Paused");
    match action {
        WorkerAction::Emit(signal) => {
            assert_eq!(signal.path, "/org/mpris/MediaPlayer2");
            assert_eq!(signal.interface_name, "org.mpris.MediaPlayer2.Player");
            assert!(signal.invalidated_properties.is_empty());
            assert_eq!(signal.changed_properties.len(), 1);
            match signal.changed_properties.get("PlaybackStatus") {
                Some(PropertyValue::Str(s)) => assert_eq!(s, "Paused"),
                other => panic!("unexpected value {:?}", other),
            }
        }
        other => panic!("unexpected action {:?}", other),
    }
}

#[test]
fn a_metadata_command_announces_the_new_dictionary() {
    let mut state = ServiceState::new();
    let metadata = OwnedMetadata { title: Some("A".to_string()), ..OwnedMetadata::default() };
    match on_received(&mut state, Some(InternalEvent::ChangeMetadata(metadata))) {
        WorkerAction::Emit(signal) => match signal.changed_properties.get("Metadata") {
            Some(PropertyValue::Metadata(dict)) => {
                assert_eq!(dict.len(), 2);
                assert!(dict.contains_key("xesam:title"));
                assert!(dict.contains_key("mpris:trackid"));
            }
            other => panic!("unexpected value {:?}", other),
        },
        other => panic!("unexpected action {:?}", other),
    }
}

#[test]
fn a_command_for_the_stop_button_emits_nothing() {
    let mut state = ServiceState::new();
    let action =
        on_received(&mut state, Some(InternalEvent::ChangeButtonEnabled(MediaButton::Stop, false)));
    assert!(matches!(action, WorkerAction::ServiceTransport { millis: 1000 }));
}

#[test]
fn a_failed_emission_does_not_stop_the_worker() {
    assert!(matches!(on_emitted(false), WorkerAction::ServiceTransport { millis: 1000 }));
    assert!(matches!(on_emitted(true), WorkerAction::ServiceTransport { millis: 1000 }));
}

#[test]
fn after_serving_the_worker_waits_again() {
    assert!(matches!(on_serviced(Ok(())), WorkerAction::WaitForCommand { millis: 10 }));
}

#[test]
fn a_failure_of_the_transport_ends_the_worker() {
    match on_serviced(Err(failure())) {
        WorkerAction::Stop(Err(reported)) => assert_eq!(reported, failure()),
        other => panic!("unexpected action {:?}", other),
    }
}

#[test]
fn a_notification_names_the_player_and_drops_nothing() {
    let mut changed: PropertyDict = PropertyDict::new();
    changed.insert("CanSeek".to_string(), PropertyValue::Bool(true));
    let signal = notification(changed);
    assert_eq!(signal.path, "/org/mpris/MediaPlayer2");
    assert_eq!(signal.interface_name, "org.mpris.MediaPlayer2.Player");
    assert_eq!(signal.invalidated_properties, Vec::<String>::new());
    assert!(matches!(signal.changed_properties.get("CanSeek"), Some(PropertyValue::Bool(true))));
}

#[test]
fn a_run_of_the_worker_over_a_queue_of_commands() {
    let mut queue = vec![
        Some(InternalEvent::ChangeVolume(Volume::from_bits(0.5f64.to_bits()))),
        None,
        Some(InternalEvent::ChangeButtonEnabled(MediaButton::Stop, true)),
        Some(InternalEvent::ChangeButtonEnabled(MediaButton::Play, false)),
        Some(InternalEvent::Kill),
        Some(InternalEvent::ChangeVolume(Volume::from_bits(0.9f64.to_bits()))),
    ]
    .into_iter();
    let mut state = ServiceState::new();
    let mut emitted: Vec<String> = Vec::new();
    let mut served = 0;
    let mut action = first_action();
    let result = loop {
        action = match action {
            WorkerAction::WaitForCommand { .. } => {
                let received = queue.next().expect("the worker reads no further than the shutdown");
                on_received(&mut state, received)
            }
            WorkerAction::Emit(signal) => {
                for entry in signal.changed_properties.entries() {
                    emitted.push(entry.key.clone());
                }
                on_emitted(emitted.len() % 2 == 0)
            }
            WorkerAction::ServiceTransport { .. } => {
                served += 1;
                on_serviced(Ok(()))
            }
            WorkerAction::Stop(result) => break result,
        };
    };
    assert_eq!(result, Ok(()));
    assert_eq!(emitted, vec!["Volume".to_string(), "CanPlay".to_string()]);
    assert_eq!(served, 4);
    assert_eq!(f64::from_bits(state.volume().to_bits()), 0.5);
    assert!(!state.can_play());
    assert!(queue.next().is_some());
}

#[test]
fn a_worker_without_commands_stops_at_the_first_wait_that_brings_the_shutdown() {
    let mut state = ServiceState::new();
    let mut waits = 0;
    let mut served = 0;
    let mut action = first_action();
    let result = loop {
        action = match action {
            WorkerAction::WaitForCommand { millis } => {
                assert_eq!(millis, COMMAND_WAIT_MILLIS);
                waits += 1;
                on_received(&mut state, Some(InternalEvent::Kill))
            }
            WorkerAction::Emit(_) => panic!("nothing was changed"),
            WorkerAction::ServiceTransport { .. } => {
                served += 1;
                on_serviced(Ok(()))
            }
            WorkerAction::Stop(result) => break result,
        };
    };
    assert_eq!(result, Ok(()));
    assert_eq!(waits, 1);
    assert_eq!(served, 0);
}

#[test]
fn a_failing_transport_ends_a_run_with_the_failure() {
    let mut state = ServiceState::new();
    let mut action = first_action();
    let mut served = 0;
    let result = loop {
        action = match action {
            WorkerAction::WaitForCommand { .. } => on_received(&mut state, None),
            WorkerAction::Emit(_) => panic!("nothing was changed"),
            WorkerAction::ServiceTransport { millis } => {
                assert_eq!(millis, TRANSPORT_WAIT_MILLIS);
                served += 1;
                on_serviced(if served < 3 { Ok(()) } else { Err(failure()) })
            }
            WorkerAction::Stop(result) => break result,
        };
    };
    assert_eq!(result, Err(failure()));
    assert_eq!(served, 3);
}
