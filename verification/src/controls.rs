//! The handle of the media controls: it starts and stops one service
//! worker, and passes the commands of the host on to it.
//!
//! The worker runs on a thread of its own, which the host of this library
//! starts and joins. The handle keeps the sending end of the command queue
//! and, as a value that it never looks into, what the host needs to wait
//! for the end of the worker.
//!
//! Whether the queue takes a command is not known before it is asked. So
//! every setter, and the detach, works in two steps. The first decides
//! what is put into the queue, or that nothing is, and says so exactly.
//! The second hands that command to the queue and reports the answer of
//! the queue.

use crate::bus::{name_request, name_request_of, service_name_of, valid_bus_name, NameRequest};
use crate::error::{BusFailure, Error, SetupFailure};
use crate::event::{
    button_command, metadata_command, playback_command, shutdown_command, volume_command,
    EventView, InternalEvent,
};
use crate::media::{MediaButton, MediaMetadata, MediaPlayback, PlatformConfig, Volume};
use crate::metadata::OwnedMetadata;
use std::sync::mpsc::Sender;
use vstd::prelude::*;

verus! {

/// The sending end of a queue of the standard library,
/// `std::sync::mpsc::Sender`. Nothing is known of what it holds.
#[verifier::external_type_specification]
#[verifier::external_body]
#[verifier::reject_recursive_types(T)]
pub struct ExSender<T>(Sender<T>);

/// Puts a command into the queue with `std::sync::mpsc::Sender::send`, and
/// tells whether the queue took it. The queue refuses a command once its
/// receiving end is gone, which nothing here can foresee: the contract
/// promises nothing.
#[verifier::external_body]
fn send_event(channel: &Sender<InternalEvent>, event: InternalEvent) -> (delivered: bool) {
    channel.send(event).is_ok()
}

/// How a worker ended, as seen by the one who waited for it.
#[derive(Clone, PartialEq, Eq, Debug)]
pub enum JoinOutcome {
    /// The worker ran to its end without a failure.
    Finished,
    /// The worker ran to its end and reported a failure of the transport.
    Failed(BusFailure),
    /// The worker ended abnormally.
    Panicked,
}

/// The result of a detach. Where no worker was attached there was nothing
/// to wait for, and the detach succeeds. Otherwise the result tells a
/// worker that ended abnormally from one that reported a failure.
pub open spec fn detach_result_of(outcome: Option<JoinOutcome>) -> Result<(), Error> {
    match outcome {
        None => Ok(()),
        Some(JoinOutcome::Finished) => Ok(()),
        Some(JoinOutcome::Failed(failure)) => Err(Error::WorkerReportedError(failure)),
        Some(JoinOutcome::Panicked) => Err(Error::WorkerFault),
    }
}

/// The result of a detach, given how the worker ended, if there was one
/// to wait for.
pub fn detach_result(outcome: Option<JoinOutcome>) -> (result: Result<(), Error>)
    ensures
        result == detach_result_of(outcome),
{
    match outcome {
        None => Ok(()),
        Some(JoinOutcome::Finished) => Ok(()),
        Some(JoinOutcome::Failed(failure)) => Err(Error::WorkerReportedError(failure)),
        Some(JoinOutcome::Panicked) => Err(Error::WorkerFault),
    }
}

/// How a worker ended that ran to its end with the given result.
pub fn finished(result: Result<(), BusFailure>) -> (outcome: JoinOutcome)
    ensures
        outcome == match result {
            Ok(_) => JoinOutcome::Finished,
            Err(failure) => JoinOutcome::Failed(failure),
        },
{
    match result {
        Ok(_) => JoinOutcome::Finished,
        Err(failure) => JoinOutcome::Failed(failure),
    }
}

/// The result of a command, given whether the queue took it.
pub open spec fn send_result_of(delivered: bool) -> Result<(), Error> {
    if delivered {
        Ok(())
    } else {
        Err(Error::ServiceUnavailable)
    }
}

/// The result of a command, given whether the queue took it.
pub fn send_result(delivered: bool) -> (result: Result<(), Error>)
    ensures
        result == send_result_of(delivered),
{
    if delivered {
        Ok(())
    } else {
        Err(Error::ServiceUnavailable)
    }
}

/// An attached worker: the sending end of its command queue, and what
/// the host needs to wait for its end.
pub struct ServiceThreadHandle<J> {
    pub event_channel: Sender<InternalEvent>,
    pub thread: J,
}

/// The second step of an attach over an attached worker: it gives the
/// request for the bus name in exchange for the outcome of the wait for
/// that worker.
pub struct AfterJoin {
    request: Result<NameRequest, Error>,
}

impl AfterJoin {
    /// The request for the bus name that is held back, or why none can be
    /// made.
    pub closed spec fn request(&self) -> Result<NameRequest, Error> {
        self.request
    }

    /// What is given for the outcome of the wait: the request that is held
    /// back where the worker ended without a failure, and the failure of
    /// the worker where it did not.
    pub open spec fn request_after(&self, outcome: JoinOutcome) -> Result<NameRequest, Error> {
        match detach_result_of(Some(outcome)) {
            Ok(_) => self.request(),
            Err(error) => Err(error),
        }
    }

    /// The request for the bus name, once the worker that was attached
    /// before has ended. Where that worker ended with a failure, the attach
    /// ends with the same failure, and the bus is not asked.
    pub fn joined(self, outcome: JoinOutcome) -> (request: Result<NameRequest, Error>)
        ensures
            request == self.request_after(outcome),
    {
        match detach_result(Some(outcome)) {
            Ok(_) => self.request,
            Err(error) => Err(error),
        }
    }
}

/// How an attach begins.
pub enum AttachBegin<J> {
    /// A worker was attached. It has been told to shut down, and the host
    /// waits for its end. The request for the bus name is held back until
    /// then.
    Join { worker: J, then: AfterJoin },
    /// No worker was attached: the host asks the bus for the name at once,
    /// or learns why no request can be made.
    Claim(Result<NameRequest, Error>),
}

/// Whether `request` is the request for the bus name of a service whose
/// name ends in `suffix`: the request that [`name_request_of`] describes
/// where that name is a bus name, and the refusal of the name where it is
/// not.
pub open spec fn is_request_for(request: Result<NameRequest, Error>, suffix: Seq<char>) -> bool {
    match request {
        Ok(r) => valid_bus_name(service_name_of(suffix)) && r@ == name_request_of(suffix),
        Err(e) => !valid_bus_name(service_name_of(suffix)) && e == Error::ConnectionSetupFailed(
            SetupFailure::InvalidName,
        ),
    }
}

/// A handle to the media controls.
pub struct MediaControls<J> {
    thread: Option<ServiceThreadHandle<J>>,
    dbus_name: String,
    friendly_name: String,
}

impl<J> MediaControls<J> {
    /// The attached worker, if there is one.
    pub closed spec fn worker(&self) -> Option<ServiceThreadHandle<J>> {
        self.thread
    }

    /// Whether a worker is attached.
    pub open spec fn attached(&self) -> bool {
        self.worker() is Some
    }

    /// The configured last part of the bus name.
    pub closed spec fn spec_dbus_name(&self) -> Seq<char> {
        self.dbus_name@
    }

    /// The configured display name.
    pub closed spec fn spec_friendly_name(&self) -> Seq<char> {
        self.friendly_name@
    }

    /// What the host waits on after a detach: the part of the attached
    /// worker that tells of its end, if a worker is attached.
    pub open spec fn waiting_of(&self) -> Option<J> {
        match self.worker() {
            Some(handle) => Some(handle.thread),
            None => None,
        }
    }

    /// Whether `request` is what becomes of `command` before the queue is
    /// called: the command itself where a worker is attached, and the
    /// refusal to send it where none is.
    pub open spec fn is_outgoing(
        &self,
        request: Result<InternalEvent, Error>,
        command: EventView,
    ) -> bool {
        match request {
            Ok(event) => self.attached() && event@ == command,
            Err(error) => !self.attached() && error == Error::ServiceNotRunning,
        }
    }

    /// Whether two handles are configured with the same names.
    pub open spec fn same_names(&self, other: &Self) -> bool {
        &&& self.spec_dbus_name() == other.spec_dbus_name()
        &&& self.spec_friendly_name() == other.spec_friendly_name()
    }

    /// The handle after a detach: the same names, and no worker.
    pub open spec fn detached_from(&self, before: &Self) -> bool {
        &&& self.same_names(before)
        &&& !self.attached()
    }

    /// Create media controls with the specified config. No worker is
    /// attached, and the transport is not touched.
    pub fn new(config: PlatformConfig<'_>) -> (controls: Result<Self, Error>)
        ensures
            controls matches Ok(c) && !c.attached() && c.spec_dbus_name() == config.dbus_name@
                && c.spec_friendly_name() == config.display_name@,
    {
        let PlatformConfig { dbus_name, display_name } = config;
        Ok(
            MediaControls {
                thread: None,
                dbus_name: dbus_name.to_owned(),
                friendly_name: display_name.to_owned(),
            },
        )
    }

    /// Whether a worker is attached.
    pub fn is_attached(&self) -> (b: bool)
        ensures
            b == self.attached(),
    {
        self.thread.is_some()
    }

    /// The configured last part of the bus name.
    pub fn dbus_name(&self) -> (name: &str)
        ensures
            name@ == self.spec_dbus_name(),
    {
        self.dbus_name.as_str()
    }

    /// The configured display name.
    pub fn friendly_name(&self) -> (name: &str)
        ensures
            name@ == self.spec_friendly_name(),
    {
        self.friendly_name.as_str()
    }

    /// The first step of an attach: any attached worker is detached, and
    /// the request for the bus name of the service is made up. Where a
    /// worker was attached, the host gets what it needs to wait for the
    /// worker's end, and the request only in exchange for the outcome of
    /// that wait. So the name is never asked for while the previous worker
    /// may still hold it.
    pub fn begin_attach(&mut self) -> (begin: AttachBegin<J>)
        ensures
            final(self).detached_from(old(self)),
            match begin {
                AttachBegin::Join { worker, then } => old(self).waiting_of() == Some(worker)
                    && is_request_for(then.request(), old(self).spec_dbus_name()),
                AttachBegin::Claim(request) => old(self).waiting_of() is None && is_request_for(
                    request,
                    old(self).spec_dbus_name(),
                ),
            },
    {
        let previous = self.detach();
        let request = name_request(self.dbus_name.as_str());
        match previous {
            Some(worker) => AttachBegin::Join { worker, then: AfterJoin { request } },
            None => AttachBegin::Claim(request),
        }
    }

    /// The last step of an attach: the handle takes the worker that the
    /// host has started. No worker is attached when this is called.
    pub fn attach(&mut self, event_channel: Sender<InternalEvent>, thread: J)
        requires
            !old(self).attached(),
        ensures
            final(self).same_names(old(self)),
            final(self).worker() == Some(ServiceThreadHandle { event_channel, thread }),
    {
        self.thread = Some(ServiceThreadHandle { event_channel, thread });
    }

    /// The first half of a detach: the handle lets go of the attached
    /// worker, if there is one, and gives it back with the command that is
    /// put into its queue, the request to shut down.
    pub fn release(&mut self) -> (released: Option<(ServiceThreadHandle<J>, InternalEvent)>)
        ensures
            final(self).detached_from(old(self)),
            match released {
                Some((handle, command)) => old(self).worker() == Some(handle) && command@
                    == EventView::Kill,
                None => old(self).worker() is None,
            },
    {
        match self.thread.take() {
            Some(handle) => Some((handle, shutdown_command())),
            None => None,
        }
    }

    /// Detach the worker. Where none is attached, nothing happens.
    /// Otherwise the handle lets go of the worker, the command that
    /// [`MediaControls::release`] gives is put into the worker's queue, and
    /// the host gets what it needs to wait for the worker's end. In either
    /// case no worker is attached afterwards.
    pub fn detach(&mut self) -> (waiting: Option<J>)
        ensures
            final(self).detached_from(old(self)),
            waiting == old(self).waiting_of(),
    {
        match self.release() {
            Some((handle, command)) => {
                let ServiceThreadHandle { event_channel, thread } = handle;
                // Whether the worker took the request shows when the host
                // waits for its end.
                let _ = send_event(&event_channel, command);
                Some(thread)
            },
            None => None,
        }
    }

    /// What `set_playback` puts into the queue of the worker, or its
    /// refusal where no worker is attached.
    pub fn playback_request(&self, playback: MediaPlayback) -> (request: Result<
        InternalEvent,
        Error,
    >)
        ensures
            self.is_outgoing(request, EventView::ChangePlayback(playback)),
    {
        if self.thread.is_some() {
            Ok(playback_command(playback))
        } else {
            Err(Error::ServiceNotRunning)
        }
    }

    /// What `set_metadata` puts into the queue of the worker, or its
    /// refusal where no worker is attached. The length of the item, if it
    /// has one, has to fit into 63 bits.
    pub fn metadata_request(&self, metadata: MediaMetadata<'_>) -> (request: Result<
        InternalEvent,
        Error,
    >)
        requires
            OwnedMetadata::spec_fits(metadata),
        ensures
            self.is_outgoing(
                request,
                EventView::ChangeMetadata(OwnedMetadata::spec_from(metadata)),
            ),
    {
        if self.thread.is_some() {
            Ok(metadata_command(metadata))
        } else {
            Err(Error::ServiceNotRunning)
        }
    }

    /// What `set_volume` puts into the queue of the worker, or its refusal
    /// where no worker is attached.
    pub fn volume_request(&self, volume: Volume) -> (request: Result<InternalEvent, Error>)
        ensures
            self.is_outgoing(request, EventView::ChangeVolume(volume)),
    {
        if self.thread.is_some() {
            Ok(volume_command(volume))
        } else {
            Err(Error::ServiceNotRunning)
        }
    }

    /// What `set_button_enabled` puts into the queue of the worker, or its
    /// refusal where no worker is attached.
    pub fn button_request(&self, button: MediaButton, enabled: bool) -> (request: Result<
        InternalEvent,
        Error,
    >)
        ensures
            self.is_outgoing(request, EventView::ChangeButtonEnabled(button, enabled)),
    {
        if self.thread.is_some() {
            Ok(button_command(button, enabled))
        } else {
            Err(Error::ServiceNotRunning)
        }
    }

    /// Set the current playback status: what
    /// [`MediaControls::playback_request`] gives is put into the queue of
    /// the worker.
    pub fn set_playback(&mut self, playback: MediaPlayback) -> (result: Result<(), Error>)
        ensures
            *final(self) == *old(self),
            !old(self).attached() ==> result == Err::<(), Error>(Error::ServiceNotRunning),
            old(self).attached() ==> result is Ok || result == Err::<(), Error>(
                Error::ServiceUnavailable,
            ),
    {
        match self.playback_request(playback) {
            Ok(command) => self.send_internal_event(command),
            Err(error) => Err(error),
        }
    }

    /// Set the metadata of the currently playing media item: what
    /// [`MediaControls::metadata_request`] gives is put into the queue of
    /// the worker. The length of the item, if it has one, has to fit into
    /// 63 bits.
    pub fn set_metadata(&mut self, metadata: MediaMetadata<'_>) -> (result: Result<(), Error>)
        requires
            OwnedMetadata::spec_fits(metadata),
        ensures
            *final(self) == *old(self),
            !old(self).attached() ==> result == Err::<(), Error>(Error::ServiceNotRunning),
            old(self).attached() ==> result is Ok || result == Err::<(), Error>(
                Error::ServiceUnavailable,
            ),
    {
        match self.metadata_request(metadata) {
            Ok(command) => self.send_internal_event(command),
            Err(error) => Err(error),
        }
    }

    /// Set the volume level: what [`MediaControls::volume_request`] gives
    /// is put into the queue of the worker.
    pub fn set_volume(&mut self, volume: Volume) -> (result: Result<(), Error>)
        ensures
            *final(self) == *old(self),
            !old(self).attached() ==> result == Err::<(), Error>(Error::ServiceNotRunning),
            old(self).attached() ==> result is Ok || result == Err::<(), Error>(
                Error::ServiceUnavailable,
            ),
    {
        match self.volume_request(volume) {
            Ok(command) => self.send_internal_event(command),
            Err(error) => Err(error),
        }
    }

    /// Enable or disable a specific media control button: what
    /// [`MediaControls::button_request`] gives is put into the queue of the
    /// worker.
    pub fn set_button_enabled(&mut self, button: MediaButton, enabled: bool) -> (result: Result<
        (),
        Error,
    >)
        ensures
            *final(self) == *old(self),
            !old(self).attached() ==> result == Err::<(), Error>(Error::ServiceNotRunning),
            old(self).attached() ==> result is Ok || result == Err::<(), Error>(
                Error::ServiceUnavailable,
            ),
    {
        match self.button_request(button, enabled) {
            Ok(command) => self.send_internal_event(command),
            Err(error) => Err(error),
        }
    }

    /// Hands a command to the attached worker: the command is put into
    /// the queue of the worker as it came.
    pub fn send_internal_event(&mut self, event: InternalEvent) -> (result: Result<(), Error>)
        ensures
            *final(self) == *old(self),
            !old(self).attached() ==> result == Err::<(), Error>(Error::ServiceNotRunning),
            old(self).attached() ==> result is Ok || result == Err::<(), Error>(
                Error::ServiceUnavailable,
            ),
    {
        match &self.thread {
            Some(handle) => send_result(send_event(&handle.event_channel, event)),
            None => Err(Error::ServiceNotRunning),
        }
    }
}

/// An attach over an attached worker asks for the bus name only after
/// that worker has ended, and has ended without a failure: no other
/// outcome of the wait gives a request.
pub proof fn lemma_name_is_claimed_after_previous_worker(then: AfterJoin, outcome: JoinOutcome)
    ensures
        then.request_after(outcome) is Ok ==> outcome == JoinOutcome::Finished
            && then.request_after(outcome) == then.request(),
        outcome matches JoinOutcome::Failed(failure) ==> then.request_after(outcome) == Err::<
            NameRequest,
            Error,
        >(Error::WorkerReportedError(failure)),
        outcome == JoinOutcome::Panicked ==> then.request_after(outcome) == Err::<
            NameRequest,
            Error,
        >(Error::WorkerFault),
{
}

/// A second detach in a row is without effect: the handle that the first
/// one leaves holds no worker, so the second one gives the host nothing to
/// wait for, leaves the handle as it is, and its result is success.
pub proof fn lemma_second_detach_is_without_effect<J>(
    before: MediaControls<J>,
    between: MediaControls<J>,
    after: MediaControls<J>,
)
    requires
        between.detached_from(&before),
        after.detached_from(&between),
    ensures
        between.waiting_of() is None,
        detach_result_of(None) is Ok,
        after.worker() == between.worker(),
        after.same_names(&between),
{
}

} // verus!
