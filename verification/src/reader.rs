//! The device reader's decisions: one task per device reads events and
//! forwards them onto the shared transport; this module holds the verified
//! decision logic of that loop and the trusted seam to the transport.

use vstd::prelude::*;

use crate::channel::SendOutcome;
use crate::event::ControlEvent;
use crate::event::Ctl1Event;

verus! {

/// Where a device reader task stands.
#[derive(Debug, Clone, Copy, PartialEq, Eq, Structural)]
pub enum ReaderState {
    /// No event has been read from the device yet.
    AwaitingFirstEvent,
    /// Events are being read and forwarded.
    Streaming,
    /// The task is done: the device disconnected, or the channel's receiving
    /// end closed. Final; a reconnect is a brand-new reader.
    Terminated,
}

/// What the reader loop does after one forwarding step.
#[derive(Debug, Clone, Copy, PartialEq, Eq, Structural)]
pub enum ReaderDirective {
    /// Keep reading the device.
    Continue,
    /// Stop this reader task.
    Terminate,
}

/// The reader's state machine: an observed event moves a waiting reader to
/// streaming; a disconnect event or a closed channel ends it; a terminated
/// reader never comes back.
pub open spec fn next_reader_state(
    state: ReaderState,
    event_is_disconnect: bool,
    channel_closed: bool,
) -> ReaderState {
    match state {
        ReaderState::Terminated => ReaderState::Terminated,
        _ => {
            if event_is_disconnect || channel_closed {
                ReaderState::Terminated
            } else {
                ReaderState::Streaming
            }
        },
    }
}

/// Advances the reader's state for one observed event. The terminal state is
/// final: once `Terminated`, every further input leaves it `Terminated`.
pub fn reader_transition(
    state: ReaderState,
    event_is_disconnect: bool,
    channel_closed: bool,
) -> (n: ReaderState)
    ensures
        n == next_reader_state(state, event_is_disconnect, channel_closed),
        state is Terminated ==> n is Terminated,
{
    match state {
        ReaderState::Terminated => ReaderState::Terminated,
        _ => {
            if event_is_disconnect || channel_closed {
                ReaderState::Terminated
            } else {
                ReaderState::Streaming
            }
        },
    }
}

/// What the loop does once an event's forwarding outcome is in: terminate
/// exactly on a disconnect event or a closed channel; a full channel only
/// drops the event (which this function consumes) and carries on.
pub fn reader_decision(event_is_disconnect: bool, outcome: SendOutcome) -> (d: ReaderDirective)
    ensures
        d == (if event_is_disconnect || outcome is Closed {
            ReaderDirective::Terminate
        } else {
            ReaderDirective::Continue
        }),
{
    match outcome {
        SendOutcome::Closed(_) => ReaderDirective::Terminate,
        _ => {
            if event_is_disconnect {
                ReaderDirective::Terminate
            } else {
                ReaderDirective::Continue
            }
        },
    }
}

/// `tokio::sync::mpsc::Sender`, the transport's sending endpoint. Opaque to
/// the verifier: a value carried through, every call on it wrapped below.
#[verifier::external_type_specification]
#[verifier::external_body]
#[verifier::reject_recursive_types(T)]
pub struct ExSender<T>(tokio::sync::mpsc::Sender<T>);

/// Relies on tokio's `Sender::try_send`: it never blocks or panics, and a
/// failed send hands the unsent message back — `TrySendError::Full` when the
/// channel is at capacity, `TrySendError::Closed` when the receiver is gone.
/// Success depends on the receiver and on concurrent senders, so nothing is
/// promised of which outcome comes, only that a failure returns the event
/// intact.
#[verifier::external_body]
fn chan_try_send(tx: &tokio::sync::mpsc::Sender<Ctl1Event>, ev: Ctl1Event) -> (r: SendOutcome)
    ensures
        r matches SendOutcome::Full(e) ==> e == ev,
        r matches SendOutcome::Closed(e) ==> e == ev,
{
    match tx.try_send(ev) {
        Ok(()) => SendOutcome::Sent,
        Err(tokio::sync::mpsc::error::TrySendError::Full(e)) => SendOutcome::Full(e),
        Err(tokio::sync::mpsc::error::TrySendError::Closed(e)) => SendOutcome::Closed(e),
    }
}

/// Stamps one event with its device's name and id and attempts the
/// non-blocking send on the real transport. Whatever the transport decides,
/// a failed send comes back with the stamped event intact.
pub fn forward_event(
    tx: &tokio::sync::mpsc::Sender<Ctl1Event>,
    event: ControlEvent,
    ctl_name: String,
    ctl_id: u64,
) -> (r: SendOutcome)
    ensures
        r matches SendOutcome::Full(e) ==> e.triggering_event == event && e.ctl_name == ctl_name
            && e.ctl_id == ctl_id,
        r matches SendOutcome::Closed(e) ==> e.triggering_event == event && e.ctl_name == ctl_name
            && e.ctl_id == ctl_id,
{
    let packet = Ctl1Event::new(event, ctl_name, ctl_id);
    chan_try_send(tx, packet)
}

/// One step of the reader loop against the real transport: forward the event
/// (dropping it on a full channel) and decide whether the task goes on. A
/// disconnect event always ends the task, whatever became of its best-effort
/// forward; only a closed channel ends it otherwise.
pub fn reader_forward(
    tx: &tokio::sync::mpsc::Sender<Ctl1Event>,
    event: ControlEvent,
    ctl_name: String,
    ctl_id: u64,
) -> (d: ReaderDirective)
    ensures
        event is Disconnect ==> d is Terminate,
        d is Continue ==> !(event is Disconnect),
{
    let disc = match &event {
        ControlEvent::Disconnect => true,
        _ => false,
    };
    let outcome = forward_event(tx, event, ctl_name, ctl_id);
    reader_decision(disc, outcome)
}

} // verus!
