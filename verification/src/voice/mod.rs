//! The Discord gateway client.
pub mod client;
pub mod gateway;
