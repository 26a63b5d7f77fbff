//! The gateway protocol: the connection, intents and messages.
pub mod connection;
pub mod intents;
pub mod message;
