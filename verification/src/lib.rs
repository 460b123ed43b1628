//! A fault-injection control-plane relay.
//!
//! Chaos commands (partition, heal, latency) arrive on a small inbound HTTP
//! surface and are relayed, body untouched, to a simulation backend. This
//! crate holds every decision of that relay: which operation an inbound path
//! names, where the matching backend call goes, what it carries, and which
//! envelope answers the caller once the backend call has ended. The sockets
//! themselves belong to the embedding program.

pub mod operation;
pub mod request;
pub mod envelope;
pub mod backend;
pub mod relay;
pub mod config;
pub mod laws;
