//! Messages exchanged with the gateway.
pub mod incoming;
pub mod model;
pub mod outgoing;
