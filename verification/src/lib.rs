//! Building blocks of a WebSocket tunnel and of a multiplexed connection: which
//! service a connection is routed to, what is relayed and when the relay ends,
//! how the multiplexer's worker reacts to what happens to it, and how its
//! substreams are identified and counted.
//!
//! Nothing here reads or writes a socket. A driver performs an action, reports
//! what came of it, and asks for the next one.

pub mod multiplexing;
pub mod text;
pub mod tunnel;
pub mod utils;
