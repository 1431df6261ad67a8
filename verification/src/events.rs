//! The events a stream publishes: each has a topic (a name and the stream's id)
//! and a payload.
use crate::types::AccountId;
use vstd::prelude::*;

verus! {

/// One published event, with the payload it carries.
#[derive(Clone, Copy, Debug, PartialEq, Eq, Structural)]
pub enum StreamEvent {
    Created {
        stream_id: u64,
        sender: AccountId,
        recipient: AccountId,
        amount: i128,
        flow_rate: i128,
        end_time: u64,
    },
    Withdrawn { stream_id: u64, recipient: AccountId, amount: i128, timestamp: u64 },
    Cancelled { stream_id: u64, sender: AccountId, refund_amount: i128, recipient_amount: i128 },
    ToppedUp { stream_id: u64, added_amount: i128, new_end_time: u64 },
    Completed { stream_id: u64 },
    RecipientTransferred { stream_id: u64, old_recipient: AccountId, new_recipient: AccountId },
    AutoRenewFailed { stream_id: u64, sender: AccountId, required_amount: i128 },
}

/// The name in an event's topic.
pub open spec fn topic_name(e: StreamEvent) -> Seq<char> {
    match e {
        StreamEvent::Created { .. } => "StreamCreated"@,
        StreamEvent::Withdrawn { .. } => "StreamWithdrawn"@,
        StreamEvent::Cancelled { .. } => "StreamCancelled"@,
        StreamEvent::ToppedUp { .. } => "StreamToppedUp"@,
        StreamEvent::Completed { .. } => "StreamCompleted"@,
        StreamEvent::RecipientTransferred { .. } => "RecipientTransferred"@,
        StreamEvent::AutoRenewFailed { .. } => "AutoRenewFailed"@,
    }
}

/// The stream that an event is about.
pub open spec fn event_stream_id(e: StreamEvent) -> u64 {
    match e {
        StreamEvent::Created { stream_id, .. } => stream_id,
        StreamEvent::Withdrawn { stream_id, .. } => stream_id,
        StreamEvent::Cancelled { stream_id, .. } => stream_id,
        StreamEvent::ToppedUp { stream_id, .. } => stream_id,
        StreamEvent::Completed { stream_id } => stream_id,
        StreamEvent::RecipientTransferred { stream_id, .. } => stream_id,
        StreamEvent::AutoRenewFailed { stream_id, .. } => stream_id,
    }
}

impl StreamEvent {
    /// The name in the event's topic.
    pub fn topic(&self) -> (t: &'static str)
        ensures
            t@ == topic_name(*self),
    {
        match self {
            StreamEvent::Created { .. } => "StreamCreated",
            StreamEvent::Withdrawn { .. } => "StreamWithdrawn",
            StreamEvent::Cancelled { .. } => "StreamCancelled",
            StreamEvent::ToppedUp { .. } => "StreamToppedUp",
            StreamEvent::Completed { .. } => "StreamCompleted",
            StreamEvent::RecipientTransferred { .. } => "RecipientTransferred",
            StreamEvent::AutoRenewFailed { .. } => "AutoRenewFailed",
        }
    }

    /// The id in the event's topic: the stream it is about.
    pub fn stream_id(&self) -> (id: u64)
        ensures
            id == event_stream_id(*self),
    {
        match self {
            StreamEvent::Created { stream_id, .. } => *stream_id,
            StreamEvent::Withdrawn { stream_id, .. } => *stream_id,
            StreamEvent::Cancelled { stream_id, .. } => *stream_id,
            StreamEvent::ToppedUp { stream_id, .. } => *stream_id,
            StreamEvent::Completed { stream_id } => *stream_id,
            StreamEvent::RecipientTransferred { stream_id, .. } => *stream_id,
            StreamEvent::AutoRenewFailed { stream_id, .. } => *stream_id,
        }
    }
}

/// The event of a new stream: its sender and recipient, the amount locked, the
/// flow rate and the end time.
pub fn stream_created(
    stream_id: u64,
    sender: AccountId,
    recipient: AccountId,
    amount: i128,
    flow_rate: i128,
    end_time: u64,
) -> (e: StreamEvent)
    ensures
        e == (StreamEvent::Created { stream_id, sender, recipient, amount, flow_rate, end_time }),
{
    StreamEvent::Created { stream_id, sender, recipient, amount, flow_rate, end_time }
}

/// The event of a withdrawal: who received how much, and when.
pub fn stream_withdrawn(stream_id: u64, recipient: AccountId, amount: i128, timestamp: u64) -> (e:
    StreamEvent)
    ensures
        e == (StreamEvent::Withdrawn { stream_id, recipient, amount, timestamp }),
{
    StreamEvent::Withdrawn { stream_id, recipient, amount, timestamp }
}

/// The event of a cancellation: the sender, what went back to the sender and
/// what went to the recipient.
pub fn stream_cancelled(
    stream_id: u64,
    sender: AccountId,
    refund_amount: i128,
    recipient_amount: i128,
) -> (e: StreamEvent)
    ensures
        e == (StreamEvent::Cancelled { stream_id, sender, refund_amount, recipient_amount }),
{
    StreamEvent::Cancelled { stream_id, sender, refund_amount, recipient_amount }
}

/// The event of a top-up: the amount added and the new end time.
pub fn stream_topped_up(stream_id: u64, added_amount: i128, new_end_time: u64) -> (e: StreamEvent)
    ensures
        e == (StreamEvent::ToppedUp { stream_id, added_amount, new_end_time }),
{
    StreamEvent::ToppedUp { stream_id, added_amount, new_end_time }
}

/// The event of a stream that reached its end and stopped.
pub fn stream_completed(stream_id: u64) -> (e: StreamEvent)
    ensures
        e == (StreamEvent::Completed { stream_id }),
{
    StreamEvent::Completed { stream_id }
}

/// The event of a stream whose recipient changed.
pub fn stream_recipient_transferred(
    stream_id: u64,
    old_recipient: AccountId,
    new_recipient: AccountId,
) -> (e: StreamEvent)
    ensures
        e == (StreamEvent::RecipientTransferred { stream_id, old_recipient, new_recipient }),
{
    StreamEvent::RecipientTransferred { stream_id, old_recipient, new_recipient }
}

/// The event of a renewal that could not be made: the sender held less than
/// the deposit that a new period needs.
pub fn stream_auto_renew_failed(stream_id: u64, sender: AccountId, required_amount: i128) -> (e:
    StreamEvent)
    ensures
        e == (StreamEvent::AutoRenewFailed { stream_id, sender, required_amount }),
{
    StreamEvent::AutoRenewFailed { stream_id, sender, required_amount }
}

} // verus!
