//! A remote-terminal service over one datagram socket: many clients, each
//! attached to its own shell behind a pseudo-terminal.
//!
//! This crate holds the verified core: the wire protocol, the session
//! registry, the dispatcher's routing decisions, the per-session bridge
//! decisions and the client handshake.

pub mod frame;
pub mod registry;
pub mod dispatch;
pub mod session;
pub mod client;
pub mod input;
pub mod pty;
