//! Kubernetes port-forwarding over multiplexed SPDY/3.1.
//!
//! [`spdy`] is the stream multiplexer; it knows nothing about Kubernetes. On
//! top of it, [`connect`] negotiates the transport with the apiserver,
//! [`session`] forwards many connections to one pod port, [`pod_watch`]
//! resolves a selector to a ready pod, and [`forwarder`] keeps a pool of
//! sessions to it.
//!
//! The library decides and computes; it never waits. An operation that
//! depends on something outside answers with a step that names it. The caller
//! takes the step and hands in its outcome.
pub mod client;
pub mod connect;
pub mod error;
pub mod forwarder;
pub mod outside;
pub mod pod_watch;
pub mod recovery;
pub mod session;
pub mod spdy;
pub mod subprotocol;
pub mod text;
