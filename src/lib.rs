//! Command language for a telemetry hub: a quote-aware tokenizer for
//! `name(key=value, ...)` invocations, a validating builder for the closed set
//! of hub commands, and their canonical transport documents.
pub mod text;
pub mod number;
pub mod params;
pub mod timestamp;
pub mod command;
pub mod document;
pub mod config;
pub mod transport;
pub mod session;
