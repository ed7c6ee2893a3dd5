//! Verified core of a line-oriented chat relay.
//!
//! Clients announce a username with `JOIN <name>`, broadcast with
//! `MSG <body>`, and disconnect with `LEAVE`. The library holds the wire
//! grammar, the registry of connected users, the per-connection session
//! state machine, the broadcast router, and the per-client delivery queue.
//! The surrounding process (listener, sockets, tasks) drives these parts
//! and performs the I/O they decide on.

pub mod client;
pub mod mailbox;
pub mod protocol;
pub mod registry;
pub mod router;
pub mod session;
