//! Data carried inside gateway messages.
pub mod activity;
pub mod id;
pub mod text;
pub mod user;
