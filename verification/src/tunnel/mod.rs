//! The tunnel: what the program is asked to be, where a connection goes, and what
//! passes through it.

pub mod command;
pub mod console;
pub mod relay;
pub mod server;

