//! SPDY/3.1 stream multiplexing over one or more transport connections.
pub mod commands;
pub mod config;
pub mod metrics;
pub mod open;
pub mod read;
pub mod session;
pub mod stream;
pub mod write;
