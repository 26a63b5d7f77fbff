//! Gateway logic and terminal log store of a small Discord client.
pub mod circular;
pub mod strings;
pub mod ui;
pub mod voice;
