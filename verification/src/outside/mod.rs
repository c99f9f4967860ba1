//! What the library takes from other crates, and what it relies on of it.
pub mod buffer;
pub mod cancel;
pub mod clock;
pub mod cluster;
pub mod encode;
pub mod headers;
pub mod queue;
