//! Message types, connection setup and the receive-loop decisions of a small
//! UDP message bus, with a server that relays client messages and a client
//! that talks to it.

pub mod client;
pub mod error;
pub mod message;
pub mod rpc;
pub mod server;
