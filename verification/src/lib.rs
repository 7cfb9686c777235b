//! Relays broker messages to long-lived client connections.
//!
//! A broker event names its destination in its topic or in its payload. The
//! registry maps each connected client's identifier to the sending half of
//! that connection's outbound queue, and the router enqueues the event's text
//! on the queue of the client it names.

pub mod channel;
pub mod config;
pub mod handlers;
pub mod json;
pub mod mqtt;
pub mod registry;
pub mod session;
pub mod ws;
