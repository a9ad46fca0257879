//! What can go wrong when the controls are attached, used or detached.

use vstd::prelude::*;

verus! {

/// A failure that the bus transport reported: the name of the error and
/// its message, as far as the transport gave them.
#[derive(Clone, PartialEq, Eq, Debug)]
pub struct BusFailure {
    pub name: Option<String>,
    pub message: Option<String>,
}

/// Why the service could not be set up on the bus.
#[derive(Clone, PartialEq, Eq, Debug)]
pub enum SetupFailure {
    /// The configured name does not make a bus name.
    InvalidName,
    /// Another owner holds the name and keeps it.
    NameTaken,
    /// The connection could not be made, or the request for the name could
    /// not be carried out.
    Transport(BusFailure),
}

/// An error of the media controls.
#[derive(Clone, PartialEq, Eq, Debug)]
pub enum Error {
    /// The bus connection or the registration of the name failed while
    /// attaching. No worker was started.
    ConnectionSetupFailed(SetupFailure),
    /// A command was given while no worker was attached.
    ServiceNotRunning,
    /// A command could not be handed to the worker, which is gone.
    ServiceUnavailable,
    /// The worker ended abnormally.
    WorkerFault,
    /// The worker ended by itself and reported a failure of the transport.
    WorkerReportedError(BusFailure),
}

} // verus!
