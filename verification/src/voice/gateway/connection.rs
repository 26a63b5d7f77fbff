//! The decisions of the loop that drives the gateway connection: it carries frames
//! between the gateway and the client, and stops at the first failure or close.
use vstd::prelude::*;

verus! {

/// How long the gateway may stay silent before the connection is given up, in seconds.
pub const GATEWAY_TIMEOUT_SECS: u64 = 90;

/// What the driving loop woke up to.
#[derive(Debug, Clone, Copy, PartialEq, Eq, Structural)]
pub enum ConnectionEvent {
    /// The client handed over a frame to send.
    FromUser,
    /// The client's sending side is gone.
    UserClosed,
    /// The gateway sent a frame.
    FromGateway,
    /// Reading from the gateway failed.
    GatewayError,
    /// The gateway's stream ended.
    GatewayClosed,
    /// The gateway stayed silent past the timeout.
    TimedOut,
}

/// What the driving loop does about an event.
#[derive(Debug, Clone, Copy, PartialEq, Eq, Structural)]
pub enum ConnectionAction {
    /// Send the client's frame to the gateway.
    SendToGateway,
    /// Close the gateway stream.
    CloseGateway,
    /// Hand the gateway's frame to the client.
    ForwardToUser,
    /// Close the channel to the client.
    CloseUserChannel,
}

/// The action the loop takes for each event.
pub open spec fn action_for(event: ConnectionEvent) -> ConnectionAction {
    match event {
        ConnectionEvent::FromUser => ConnectionAction::SendToGateway,
        ConnectionEvent::UserClosed => ConnectionAction::CloseGateway,
        ConnectionEvent::FromGateway => ConnectionAction::ForwardToUser,
        ConnectionEvent::GatewayError => ConnectionAction::CloseUserChannel,
        ConnectionEvent::GatewayClosed => ConnectionAction::CloseUserChannel,
        ConnectionEvent::TimedOut => ConnectionAction::CloseUserChannel,
    }
}

/// The action the loop takes for `event`.
pub fn connection_action(event: ConnectionEvent) -> (a: ConnectionAction)
    ensures
        a == action_for(event),
{
    match event {
        ConnectionEvent::FromUser => ConnectionAction::SendToGateway,
        ConnectionEvent::UserClosed => ConnectionAction::CloseGateway,
        ConnectionEvent::FromGateway => ConnectionAction::ForwardToUser,
        ConnectionEvent::GatewayError => ConnectionAction::CloseUserChannel,
        ConnectionEvent::GatewayClosed => ConnectionAction::CloseUserChannel,
        ConnectionEvent::TimedOut => ConnectionAction::CloseUserChannel,
    }
}

/// Whether the loop goes on once `action` was performed, `succeeded` telling whether
/// the frame could be passed on: it goes on only after a frame was passed on.
pub fn connection_continues(action: ConnectionAction, succeeded: bool) -> (go_on: bool)
    ensures
        go_on == ((action == ConnectionAction::SendToGateway || action
            == ConnectionAction::ForwardToUser) && succeeded),
{
    match action {
        ConnectionAction::SendToGateway => succeeded,
        ConnectionAction::ForwardToUser => succeeded,
        ConnectionAction::CloseGateway => false,
        ConnectionAction::CloseUserChannel => false,
    }
}

} // verus!
