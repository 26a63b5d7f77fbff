//! The terminal console: its log store and how log text is laid out.
pub mod logger;
pub mod wrap;
