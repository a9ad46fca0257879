//! The identity of the service on the bus, and the request for its name.

use crate::error::{BusFailure, Error, SetupFailure};
use vstd::prelude::*;
use vstd::string::StringExecFns;

verus! {

/// What every bus name of a media player starts with.
pub const BUS_NAME_PREFIX: &'static str = "org.mpris.MediaPlayer2.";

/// The object path under which the player is exported.
pub const OBJECT_PATH: &'static str = "/org/mpris/MediaPlayer2";

/// The interface that holds the exported properties of the player.
pub const PLAYER_INTERFACE: &'static str = "org.mpris.MediaPlayer2.Player";

/// Whether the bus library accepts `name` as a bus name: whether
/// `dbus::strings::BusName::new` returns a bus name for it.
pub uninterp spec fn valid_bus_name(name: Seq<char>) -> bool;

/// Asks `dbus::strings::BusName::new` whether it accepts `name`. That
/// function hands the characters of `name`, up to the first zero character
/// if there is one, to the validation of the bus library, and returns a
/// bus name or the message of the validation. Its answer depends on
/// `name` alone, and is all that the contract speaks of: it is given the
/// name [`valid_bus_name`].
#[verifier::external_body]
fn is_bus_name(name: &str) -> (valid: bool)
    ensures
        valid == valid_bus_name(name@),
{
    dbus::strings::BusName::new(name).is_ok()
}

/// A request for a name on the bus.
#[derive(Clone, PartialEq, Eq, Debug)]
pub struct NameRequest {
    /// The name that is asked for.
    pub name: String,
    /// Whether a later request may take the name away from this owner.
    pub allow_replacement: bool,
    /// Whether the name is to be taken away from an owner that allows it.
    pub replace_existing: bool,
    /// Whether the request fails at once where the name has an owner.
    pub do_not_queue: bool,
}

/// What a [`NameRequest`] holds.
pub struct NameRequestView {
    pub name: Seq<char>,
    pub allow_replacement: bool,
    pub replace_existing: bool,
    pub do_not_queue: bool,
}

impl View for NameRequest {
    type V = NameRequestView;

    open spec fn view(&self) -> NameRequestView {
        NameRequestView {
            name: self.name@,
            allow_replacement: self.allow_replacement,
            replace_existing: self.replace_existing,
            do_not_queue: self.do_not_queue,
        }
    }
}

/// The answer of the bus to a request for a name.
#[derive(Clone, Copy, PartialEq, Eq, Debug, Structural)]
pub enum NameReply {
    /// The name now belongs to the one who asked.
    PrimaryOwner,
    /// The name has another owner, and the request waits in its queue.
    InQueue,
    /// The name has another owner, and the request was dropped.
    Exists,
    /// The name already belonged to the one who asked.
    AlreadyOwner,
}

/// The bus name of the service with the given last part.
pub open spec fn service_name_of(suffix: Seq<char>) -> Seq<char> {
    BUS_NAME_PREFIX@ + suffix
}

/// The request that registers the service with the given last part of
/// its name: the first to ask owns the name, keeps it, and nobody waits
/// for it.
pub open spec fn name_request_of(suffix: Seq<char>) -> NameRequestView {
    NameRequestView {
        name: service_name_of(suffix),
        allow_replacement: false,
        replace_existing: false,
        do_not_queue: true,
    }
}

/// The bus name of the service with the given last part.
pub fn service_name(suffix: &str) -> (name: String)
    ensures
        name@ == service_name_of(suffix@),
{
    let mut name = BUS_NAME_PREFIX.to_owned();
    name.append(suffix);
    name
}

/// The request for a name that has been composed and checked.
pub fn name_request_for(name: String, valid: bool) -> (request: Result<NameRequest, Error>)
    ensures
        match request {
            Ok(r) => valid && r@ == (NameRequestView {
                name: name@,
                allow_replacement: false,
                replace_existing: false,
                do_not_queue: true,
            }),
            Err(e) => !valid && e == Error::ConnectionSetupFailed(SetupFailure::InvalidName),
        },
{
    if valid {
        Ok(NameRequest { name, allow_replacement: false, replace_existing: false, do_not_queue: true })
    } else {
        Err(Error::ConnectionSetupFailed(SetupFailure::InvalidName))
    }
}

/// The request that registers the service with the given last part of
/// its name, where that makes a bus name.
pub fn name_request(suffix: &str) -> (request: Result<NameRequest, Error>)
    ensures
        match request {
            Ok(r) => valid_bus_name(service_name_of(suffix@)) && r@ == name_request_of(suffix@),
            Err(e) => !valid_bus_name(service_name_of(suffix@)) && e
                == Error::ConnectionSetupFailed(SetupFailure::InvalidName),
        },
{
    let name = service_name(suffix);
    let valid = is_bus_name(name.as_str());
    name_request_for(name, valid)
}

/// Whether the answer of the bus gives the service its name. With a request
/// that does not queue, any answer but ownership means that the name is
/// taken.
pub fn name_reply_result(reply: NameReply) -> (result: Result<(), Error>)
    ensures
        match result {
            Ok(_) => reply == NameReply::PrimaryOwner || reply == NameReply::AlreadyOwner,
            Err(e) => (reply == NameReply::InQueue || reply == NameReply::Exists) && e
                == Error::ConnectionSetupFailed(SetupFailure::NameTaken),
        },
{
    match reply {
        NameReply::PrimaryOwner | NameReply::AlreadyOwner => Ok(()),
        NameReply::InQueue | NameReply::Exists => Err(
            Error::ConnectionSetupFailed(SetupFailure::NameTaken),
        ),
    }
}

/// The error of an attach whose connection or request for the name failed
/// in the transport.
pub fn setup_error(cause: BusFailure) -> (error: Error)
    ensures
        error == Error::ConnectionSetupFailed(SetupFailure::Transport(cause)),
{
    Error::ConnectionSetupFailed(SetupFailure::Transport(cause))
}

} // verus!
