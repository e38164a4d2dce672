//! Stream identifiers and wildcard matching of names.

pub mod matches;
pub mod stream_id;
