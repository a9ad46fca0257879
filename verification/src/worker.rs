//! The decisions of the service worker.
//!
//! The worker owns the service state and the transport. It repeats four
//! things: it waits a short time for a command, applies the command, emits
//! a change notification where the command changed an exported property,
//! and serves the transport for a while. The functions of this module say,
//! after each of these, what the worker does next. Waiting, emitting and
//! serving are left to the one who runs the worker.

use crate::bus::{OBJECT_PATH, PLAYER_INTERFACE};
use crate::error::BusFailure;
use crate::event::{EventView, InternalEvent};
use crate::property::{PropertyDict, PropertyValueView};
use crate::state::{after_all, changes, ServiceModel, ServiceState};
use vstd::prelude::*;

verus! {

/// How long the worker waits for a command, in milliseconds.
pub const COMMAND_WAIT_MILLIS: u64 = 10;

/// How long the worker serves the transport at a time, in milliseconds.
pub const TRANSPORT_WAIT_MILLIS: u64 = 1000;

/// A change notification: the properties of one interface of one object
/// that changed, with their new values, and the properties whose values
/// are to be dropped.
#[derive(Debug)]
pub struct PropertiesChanged {
    pub path: String,
    pub interface_name: String,
    pub changed_properties: PropertyDict,
    pub invalidated_properties: Vec<String>,
}

/// What a [`PropertiesChanged`] holds.
pub struct PropertiesChangedView {
    pub path: Seq<char>,
    pub interface_name: Seq<char>,
    pub changed_properties: Map<Seq<char>, PropertyValueView>,
    pub invalidated_properties: Seq<Seq<char>>,
}

impl View for PropertiesChanged {
    type V = PropertiesChangedView;

    open spec fn view(&self) -> PropertiesChangedView {
        PropertiesChangedView {
            path: self.path@,
            interface_name: self.interface_name@,
            changed_properties: self.changed_properties@,
            invalidated_properties: self.invalidated_properties.deep_view(),
        }
    }
}

/// What the worker does next.
#[derive(Debug)]
pub enum WorkerAction {
    /// Wait for the next command, no longer than the given time.
    WaitForCommand { millis: u64 },
    /// Emit the notification.
    Emit(PropertiesChanged),
    /// Serve the calls that came in on the transport, no longer than the
    /// given time.
    ServiceTransport { millis: u64 },
    /// End, with the given result.
    Stop(Result<(), BusFailure>),
}

/// What a [`WorkerAction`] holds.
pub enum WorkerActionView {
    WaitForCommand { millis: u64 },
    Emit(PropertiesChangedView),
    ServiceTransport { millis: u64 },
    Stop(Result<(), BusFailure>),
}

impl View for WorkerAction {
    type V = WorkerActionView;

    open spec fn view(&self) -> WorkerActionView {
        match self {
            WorkerAction::WaitForCommand { millis } => WorkerActionView::WaitForCommand {
                millis: *millis,
            },
            WorkerAction::Emit(signal) => WorkerActionView::Emit(signal@),
            WorkerAction::ServiceTransport { millis } => WorkerActionView::ServiceTransport {
                millis: *millis,
            },
            WorkerAction::Stop(result) => WorkerActionView::Stop(*result),
        }
    }
}

/// What was received while waiting for a command.
pub open spec fn received_view(received: Option<InternalEvent>) -> Option<EventView> {
    match received {
        Some(event) => Some(event@),
        None => None,
    }
}

/// The notification of a set of changed properties: it names the player
/// interface of the player object, and no property to drop.
pub open spec fn notification_of(
    changed: Map<Seq<char>, PropertyValueView>,
) -> PropertiesChangedView {
    PropertiesChangedView {
        path: OBJECT_PATH@,
        interface_name: PLAYER_INTERFACE@,
        changed_properties: changed,
        invalidated_properties: Seq::empty(),
    }
}

/// The state after the wait for a command: a command other than the
/// request to shut down is applied, and nothing else changes the state.
pub open spec fn state_after_wait(state: ServiceModel, received: Option<EventView>) -> ServiceModel {
    match received {
        Some(event) => state.after(event),
        None => state,
    }
}

/// What the worker does after the wait for a command. On the request to
/// shut down it ends at once, with success. On a command that changed an
/// exported property it emits one notification. In every other case,
/// whether a command came or not, it serves the transport.
pub open spec fn action_after_wait(received: Option<EventView>) -> WorkerActionView {
    match received {
        Some(EventView::Kill) => WorkerActionView::Stop(Ok(())),
        Some(event) => if changes(event) == Map::<Seq<char>, PropertyValueView>::empty() {
            WorkerActionView::ServiceTransport { millis: TRANSPORT_WAIT_MILLIS }
        } else {
            WorkerActionView::Emit(notification_of(changes(event)))
        },
        None => WorkerActionView::ServiceTransport { millis: TRANSPORT_WAIT_MILLIS },
    }
}

/// The notification of a set of changed properties.
pub fn notification(changed: PropertyDict) -> (signal: PropertiesChanged)
    ensures
        signal@ == notification_of(changed@),
{
    let invalidated_properties: Vec<String> = Vec::new();
    assert(invalidated_properties.deep_view() =~= Seq::<Seq<char>>::empty());
    PropertiesChanged {
        path: OBJECT_PATH.to_owned(),
        interface_name: PLAYER_INTERFACE.to_owned(),
        changed_properties: changed,
        invalidated_properties,
    }
}

/// What a worker that has just started does first: it waits for a command.
pub fn first_action() -> (action: WorkerAction)
    ensures
        action@ == (WorkerActionView::WaitForCommand { millis: COMMAND_WAIT_MILLIS }),
{
    WorkerAction::WaitForCommand { millis: COMMAND_WAIT_MILLIS }
}

/// What the worker does after the wait for a command, given the command
/// that came, if one came. The state changes by that command alone.
pub fn on_received(state: &mut ServiceState, received: Option<InternalEvent>) -> (action:
    WorkerAction)
    ensures
        final(state)@ == state_after_wait(old(state)@, received_view(received)),
        action@ == action_after_wait(received_view(received)),
{
    match received {
        Some(InternalEvent::Kill) => WorkerAction::Stop(Ok(())),
        Some(event) => {
            let changed = state.apply(event);
            if changed.is_empty() {
                WorkerAction::ServiceTransport { millis: TRANSPORT_WAIT_MILLIS }
            } else {
                WorkerAction::Emit(notification(changed))
            }
        },
        None => WorkerAction::ServiceTransport { millis: TRANSPORT_WAIT_MILLIS },
    }
}

/// What the worker does after it has tried to emit a notification: it
/// serves the transport, whether the notification went out or not.
pub fn on_emitted(delivered: bool) -> (action: WorkerAction)
    ensures
        action@ == (WorkerActionView::ServiceTransport { millis: TRANSPORT_WAIT_MILLIS }),
{
    WorkerAction::ServiceTransport { millis: TRANSPORT_WAIT_MILLIS }
}

/// What the worker does after it has served the transport: it waits for
/// the next command, unless the transport failed. A failure of the
/// transport ends the worker, which reports it.
pub fn on_serviced(outcome: Result<(), BusFailure>) -> (action: WorkerAction)
    ensures
        match outcome {
            Ok(_) => action@ == (WorkerActionView::WaitForCommand { millis: COMMAND_WAIT_MILLIS }),
            Err(failure) => action@ == WorkerActionView::Stop(Err(failure)),
        },
{
    match outcome {
        Ok(_) => WorkerAction::WaitForCommand { millis: COMMAND_WAIT_MILLIS },
        Err(failure) => WorkerAction::Stop(Err(failure)),
    }
}

/// The state in which the worker is after a series of waits for a command,
/// given what each wait brought. After the request to shut down the worker
/// waits no more.
pub open spec fn state_after_waits(
    state: ServiceModel,
    received: Seq<Option<EventView>>,
) -> ServiceModel
    decreases received.len(),
{
    if received.len() == 0 || action_after_wait(received.first()) is Stop {
        state
    } else {
        state_after_waits(state_after_wait(state, received.first()), received.drop_first())
    }
}

/// The commands that a series of waits brought, in their order.
pub open spec fn commands_of(received: Seq<Option<EventView>>) -> Seq<EventView>
    decreases received.len(),
{
    if received.len() == 0 {
        Seq::empty()
    } else {
        match received.first() {
            Some(event) => seq![event] + commands_of(received.drop_first()),
            None => commands_of(received.drop_first()),
        }
    }
}

/// The worker applies the commands one at a time, in the order in which
/// they came out of the queue, and none that follows the request to shut
/// down. A wait that brought no command changes nothing.
pub proof fn lemma_worker_applies_commands_in_order(
    state: ServiceModel,
    received: Seq<Option<EventView>>,
)
    ensures
        state_after_waits(state, received) == after_all(state, commands_of(received)),
    decreases received.len(),
{
    if received.len() > 0 {
        let rest = received.drop_first();
        match received.first() {
            Some(event) => {
                let commands = seq![event] + commands_of(rest);
                assert(commands.first() == event);
                assert(commands.drop_first() =~= commands_of(rest));
                if !(event is Kill) {
                    lemma_worker_applies_commands_in_order(state.after(event), rest);
                }
            },
            None => {
                lemma_worker_applies_commands_in_order(state, rest);
            },
        }
    }
}

/// The request to shut down ends the worker with success. It changes
/// nothing in the state and announces nothing.
pub proof fn lemma_shutdown_ends_worker(state: ServiceModel)
    ensures
        action_after_wait(Some(EventView::Kill)) == WorkerActionView::Stop(Ok(())),
        state_after_wait(state, Some(EventView::Kill)) == state,
        changes(EventView::Kill) == Map::<Seq<char>, PropertyValueView>::empty(),
{
}

/// The worker emits a notification only for a command that changed an
/// exported property, and the notification carries exactly the properties
/// that the command changed.
pub proof fn lemma_notification_carries_changes(received: Option<EventView>)
    ensures
        match action_after_wait(received) {
            WorkerActionView::Emit(signal) => received matches Some(event) && signal.changed_properties
                == changes(event) && signal.changed_properties != Map::<
                Seq<char>,
                PropertyValueView,
            >::empty() && signal.invalidated_properties.len() == 0,
            _ => true,
        },
{
}

} // verus!
