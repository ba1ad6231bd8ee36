//! Transition events and the broadcast channel that fans them out.
//!
//! The breaker owns the send half of a `tokio` broadcast channel. Every
//! state-affecting transition publishes a [`BreakerEvent`] on it; listeners
//! obtain the receive half through [`crate::breaker::CircuitBreaker::subscribe`].
//! Delivery is fire-and-forget: an event published while nobody is subscribed
//! is dropped, and a receiver that lags too far behind the channel's buffer
//! misses events rather than blocking the publisher.

use vstd::prelude::*;

verus! {

/// A named state transition, published to every subscriber when it happens.
#[derive(Clone, Copy, Debug, PartialEq, Eq, Structural)]
pub enum BreakerEvent {
    /// The breaker tripped to `Open`.
    Opened,
    /// The breaker was reset to `Closed`.
    Closed,
    /// The breaker left `Open` for `HalfOpen` to allow a probe call.
    HalfOpened,
}

impl BreakerEvent {
    /// The wire label of this event, as a sequence of characters.
    pub open spec fn spec_label(self) -> Seq<char> {
        match self {
            BreakerEvent::Opened => "open"@,
            BreakerEvent::Closed => "close"@,
            BreakerEvent::HalfOpened => "halfOpen"@,
        }
    }

    /// The textual label of this event: `"open"`, `"close"` or `"halfOpen"`.
    pub fn label(&self) -> (s: &'static str)
        ensures
            s@ == self.spec_label(),
    {
        match self {
            BreakerEvent::Opened => "open",
            BreakerEvent::Closed => "close",
            BreakerEvent::HalfOpened => "halfOpen",
        }
    }
}

#[verifier::external_type_specification]
#[verifier::external_body]
#[verifier::reject_recursive_types(T)]
pub struct ExBroadcastSender<T>(tokio::sync::broadcast::Sender<T>);

#[verifier::external_type_specification]
#[verifier::external_body]
#[verifier::reject_recursive_types(T)]
pub struct ExBroadcastReceiver<T>(tokio::sync::broadcast::Receiver<T>);

/// Relies on `tokio::sync::broadcast::channel`: creates a channel with the
/// given buffer capacity and hands back its send half (the initial receive
/// half is dropped; subscribers come later). The call panics when `capacity`
/// is `0` or above `usize::MAX / 2`, so those capacities are excluded here.
#[verifier::external_body]
pub(crate) fn new_event_sender(capacity: usize) -> (s: tokio::sync::broadcast::Sender<BreakerEvent>)
    requires
        1 <= capacity <= usize::MAX / 2,
{
    let (sender, _receiver) = tokio::sync::broadcast::channel(capacity);
    sender
}

/// Relies on `tokio::sync::broadcast::Sender::send`: the event reaches every
/// receiver subscribed at this moment; with none subscribed the send fails,
/// and that failure is deliberately ignored (delivery is fire-and-forget).
#[verifier::external_body]
pub(crate) fn send_event(sender: &tokio::sync::broadcast::Sender<BreakerEvent>, event: BreakerEvent) {
    let _ = sender.send(event);
}

/// Relies on `tokio::sync::broadcast::Sender::subscribe`: returns a fresh
/// receive half that observes every event published after this call, up to
/// the channel's lagged-consumer limit.
#[verifier::external_body]
pub(crate) fn subscribe_events(
    sender: &tokio::sync::broadcast::Sender<BreakerEvent>,
) -> (r: tokio::sync::broadcast::Receiver<BreakerEvent>) {
    sender.subscribe()
}

} // verus!
