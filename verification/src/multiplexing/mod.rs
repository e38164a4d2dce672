//! A multiplexed connection: its substreams, the requests made of it, and the
//! worker that drives it.

pub mod connection;
pub mod control;
pub mod counter;
pub mod direction;
pub mod history;
pub mod metrics;
pub mod worker;
