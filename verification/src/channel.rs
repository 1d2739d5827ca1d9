//! The event channel: an unbounded multi-producer, multi-consumer queue.
//!
//! The four functions marked `external_body` are not proved: each states what
//! is taken on trust about the channel implementation it calls.

use vstd::prelude::*;
use crossbeam_channel::{Receiver, Sender};
use crate::protocol::{CapturerEvent, EventView};

verus! {

#[verifier::external_type_specification]
#[verifier::external_body]
#[verifier::reject_recursive_types(T)]
pub struct ExSender<T>(Sender<T>);

#[verifier::external_type_specification]
#[verifier::external_body]
#[verifier::reject_recursive_types(T)]
pub struct ExReceiver<T>(Receiver<T>);

/// The sending end of an event channel without bound. Only this module makes
/// one, from a channel it opened itself or from another `EventSender`, so that
/// sending through it never waits for room.
pub struct EventSender {
    inner: Sender<CapturerEvent>,
}

/// Calls `crossbeam_channel::unbounded`, which creates a channel without
/// bound and returns its two ends. Nothing is claimed of them.
#[verifier::external_body]
pub(crate) fn open_event_channel() -> (ends: (EventSender, Receiver<CapturerEvent>)) {
    let (sender, receiver) = crossbeam_channel::unbounded();
    (EventSender { inner: sender }, receiver)
}

/// Calls `Sender::send` on a channel without bound, where it appends the
/// message and returns without waiting. It fails only when every receiver is
/// gone, and the error then carries the message back unchanged: that much is
/// claimed, and nothing of when it succeeds.
#[verifier::external_body]
pub(crate) fn send_event(sender: &EventSender, event: CapturerEvent) -> (sent: Result<
    (),
    CapturerEvent,
>)
    ensures
        sent matches Err(returned) ==> returned == event,
{
    match sender.inner.send(event) {
        Ok(()) => Ok(()),
        Err(crossbeam_channel::SendError(returned)) => Err(returned),
    }
}

/// Calls `Sender::clone`. The clone refers to the channel of the handle it
/// was made from and is, field for field, that handle.
#[verifier::external_body]
pub(crate) fn share_sender(sender: &EventSender) -> (handle: EventSender)
    ensures
        handle == *sender,
{
    EventSender { inner: sender.inner.clone() }
}

/// Calls `Receiver::clone`. The clone refers to the channel of the handle it
/// was made from and is, field for field, that handle.
#[verifier::external_body]
pub(crate) fn share_receiver(receiver: &Receiver<CapturerEvent>) -> (handle: Receiver<CapturerEvent>)
    ensures
        handle == *receiver,
{
    receiver.clone()
}

impl EventSender {
    /// The channel handle inside.
    pub closed spec fn raw(&self) -> Sender<CapturerEvent> {
        self.inner
    }

    /// Puts `event` on the channel. The channel decides whether it takes the
    /// event; if it does not, the event comes back.
    pub fn send(&self, event: CapturerEvent) -> (sent: Result<(), CapturerEvent>)
        ensures
            sent matches Err(returned) ==> returned == event,
    {
        send_event(self, event)
    }

    /// A handle of the channel's own kind on the same sending end, for those
    /// who issue commands.
    pub fn sender(&self) -> (handle: Sender<CapturerEvent>)
        ensures
            handle == self.raw(),
    {
        share_sender(self).inner
    }
}

/// Whether `EventSender::send` was called on `sender` with an event of value
/// `notice`, and the channel's answer was `delivered`.
pub open spec fn handed_over(sender: EventSender, notice: EventView, delivered: bool) -> bool {
    exists|event: CapturerEvent, sent: Result<(), CapturerEvent>|
        {
            &&& event@ == notice
            &&& #[trigger] call_ensures(EventSender::send, (&sender, event), sent)
            &&& delivered == (sent is Ok)
        }
}

} // verus!
