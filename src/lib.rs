//! A relay that fans text messages out to every connected peer.
//!
//! The verified part holds the registry of peers, the per-connection
//! state machine and the server's start and inject decisions. Sockets,
//! tasks and the accept loop are driven by the program around it.
mod channel;
pub mod connection;
pub mod registry;
pub mod server;
