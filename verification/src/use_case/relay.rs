//! The decisions of a subscription that relays gossip to a subscribed peer:
//! what to do with each thing that happens on it.

use crate::api::ChatMessage;
use vstd::prelude::*;

verus! {

/// What happens on a subscription.
pub enum RelayEvent {
    /// A gossip message came from the broadcast channel.
    Received(String),
    /// The subscription fell behind and messages were skipped.
    Lagged,
    /// The broadcast channel was closed.
    Closed,
    /// The last forwarded message was handed to the subscriber's stream.
    Delivered,
    /// The subscriber's stream is gone.
    DeliveryFailed,
}

/// What the subscription does next.
pub enum RelayAction {
    /// Hand this message to the subscriber, then report how that went.
    Forward(ChatMessage),
    /// Wait for the next message.
    Listen,
    /// End the subscription.
    Stop,
}

/// The decision of a subscription run by the peer at `from`: a received
/// message is forwarded as a chat message from this peer; a lag, or a
/// delivered message, leads to listening on; a closed channel or a lost
/// subscriber ends it.
pub fn relay_step(from: &String, event: RelayEvent) -> (action: RelayAction)
    ensures
        match event {
            RelayEvent::Received(content) => action matches RelayAction::Forward(m) && m.from@
                == from@ && m.content == content,
            RelayEvent::Lagged | RelayEvent::Delivered => action is Listen,
            RelayEvent::Closed | RelayEvent::DeliveryFailed => action is Stop,
        },
{
    match event {
        RelayEvent::Received(content) => RelayAction::Forward(
            ChatMessage { from: from.clone(), content },
        ),
        RelayEvent::Lagged => RelayAction::Listen,
        RelayEvent::Delivered => RelayAction::Listen,
        RelayEvent::Closed => RelayAction::Stop,
        RelayEvent::DeliveryFailed => RelayAction::Stop,
    }
}

} // verus!
