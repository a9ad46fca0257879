use mpris_controls::bus::{
    name_reply_result, name_request, name_request_for, service_name, setup_error, NameReply,
    NameRequest, BUS_NAME_PREFIX, OBJECT_PATH, PLAYER_INTERFACE,
};
use mpris_controls::error::{BusFailure, Error, SetupFailure};

fn invalid() -> Result<NameRequest, Error> {
    Err(Error::ConnectionSetupFailed(SetupFailure::InvalidName))
}

fn request(name: &str) -> Result<NameRequest, Error> {
    Ok(NameRequest {
        name: name.to_string(),
        allow_replacement: false,
        replace_existing: false,
        do_not_queue: true,
    })
}

#[test]
fn the_identity_on_the_bus() {
    assert_eq!(BUS_NAME_PREFIX, "org.mpris.MediaPlayer2.");
    assert_eq!(OBJECT_PATH, "/org/mpris/MediaPlayer2");
    assert_eq!(PLAYER_INTERFACE, "org.mpris.MediaPlayer2.Player");
}

#[test]
fn the_service_name_is_the_prefix_and_the_configured_part() {
    assert_eq!(service_name("my_player"), "org.mpris.MediaPlayer2.my_player");
    assert_eq!(service_name(""), "org.mpris.MediaPlayer2.");
    assert_eq!(service_name("a.b"), "org.mpris.MediaPlayer2.a.b");
}

#[test]
fn a_good_name_gives_a_request_that_neither_queues_nor_yields() {
    assert_eq!(name_request("my_player"), request("org.mpris.MediaPlayer2.my_player"));
    assert_eq!(name_request("player.instance7"), request("org.mpris.MediaPlayer2.player.instance7"));
    assert_eq!(name_request("with-dash"), request("org.mpris.MediaPlayer2.with-dash"));
}

#[test]
fn a_bad_name_gives_no_request() {
    assert_eq!(name_request(""), invalid());
    assert_eq!(name_request("has space"), invalid());
    assert_eq!(name_request("two..dots"), invalid());
    assert_eq!(name_request("ends.with.dot."), invalid());
    assert_eq!(name_request("sl/ash"), invalid());
    assert_eq!(name_request("7starts_with_digit"), invalid());
}

#[test]
fn a_name_of_more_than_255_bytes_gives_no_request() {
    let long = "a".repeat(255);
    assert_eq!(name_request(&long), invalid());
    let short = "a".repeat(255 - BUS_NAME_PREFIX.len());
    assert_eq!(name_request(&short), request(&format!("{}{}", BUS_NAME_PREFIX, short)));
}

#[test]
fn the_request_is_made_for_a_checked_name() {
    assert_eq!(name_request_for("x.y".to_string(), true), request("x.y"));
    assert_eq!(name_request_for("x.y".to_string(), false), invalid());
}

#[test]
fn only_ownership_is_a_success() {
    let taken = Err(Error::ConnectionSetupFailed(SetupFailure::NameTaken));
    assert_eq!(name_reply_result(NameReply::PrimaryOwner), Ok(()));
    assert_eq!(name_reply_result(NameReply::AlreadyOwner), Ok(()));
    assert_eq!(name_reply_result(NameReply::Exists), taken);
    assert_eq!(name_reply_result(NameReply::InQueue), taken);
}

#[test]
fn a_failure_of_the_transport_while_attaching() {
    let cause = BusFailure {
        name: Some("org.freedesktop.DBus.Error.NoServer".to_string()),
        message: None,
    };
    assert_eq!(
        setup_error(cause.clone()),
        Error::ConnectionSetupFailed(SetupFailure::Transport(cause))
    );
}
