//! Decisions of the block subscription relay. The relay reads messages from
//! the WebSocket stream and passes each decoded block on to the subscribers;
//! the caller performs what each decision asks for.
use vstd::prelude::*;

verus! {

/// What the stream delivered, as the relay sees it.
#[derive(Debug, Clone, Copy, PartialEq, Eq, Structural)]
pub enum RelayEvent {
    /// A text message that decoded as a block.
    Block,
    /// A text message that did not decode as a block.
    Malformed,
    /// A close frame.
    Close,
    /// The transport failed.
    TransportError,
    /// Any other message (binary, ping, pong).
    Other,
    /// The stream has no more messages.
    End,
}

/// What the relay does next.
#[derive(Debug, Clone, Copy, PartialEq, Eq, Structural)]
pub enum RelayAction {
    /// Send the block to the subscribers, then go on.
    Forward,
    /// Log the decode failure and go on.
    LogAndSkip,
    /// Log the transport failure and stop.
    LogAndStop,
    /// Go on.
    Ignore,
    /// Stop.
    Stop,
}

pub open spec fn relay_action_of(event: RelayEvent) -> RelayAction {
    match event {
        RelayEvent::Block => RelayAction::Forward,
        RelayEvent::Malformed => RelayAction::LogAndSkip,
        RelayEvent::Close => RelayAction::Stop,
        RelayEvent::TransportError => RelayAction::LogAndStop,
        RelayEvent::Other => RelayAction::Ignore,
        RelayEvent::End => RelayAction::Stop,
    }
}

/// Whether the relay reads on after `action`.
pub open spec fn keeps_reading(action: RelayAction) -> bool {
    !(action is LogAndStop || action is Stop)
}

/// The decision for one event. The relay reads on after a block, a malformed
/// message and any other message, and stops on a close frame, a transport
/// failure and the end of the stream.
pub fn relay_action(event: RelayEvent) -> (r: RelayAction)
    ensures
        r == relay_action_of(event),
        keeps_reading(r) <==> (event is Block || event is Malformed || event is Other),
{
    match event {
        RelayEvent::Block => RelayAction::Forward,
        RelayEvent::Malformed => RelayAction::LogAndSkip,
        RelayEvent::Close => RelayAction::Stop,
        RelayEvent::TransportError => RelayAction::LogAndStop,
        RelayEvent::Other => RelayAction::Ignore,
        RelayEvent::End => RelayAction::Stop,
    }
}

/// Whether the relay reads on after forwarding a block: only while some
/// subscriber is left to receive it.
pub fn continue_after_forward(delivered: bool) -> (r: bool)
    ensures
        r == delivered,
{
    delivered
}

/// A malformed message is skipped: it is logged, and the relay reads on.
pub proof fn lemma_malformed_is_skipped()
    ensures
        relay_action_of(RelayEvent::Malformed) == RelayAction::LogAndSkip,
        keeps_reading(relay_action_of(RelayEvent::Malformed)),
{
}

} // verus!
