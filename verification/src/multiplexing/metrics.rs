//! How much each read and write adds to the connection's byte counters.

use vstd::prelude::*;

verus! {

/// The name of the counter of all inbound bytes.
pub const TOTAL_BYTES_READ: &'static str = "comms::substream::total_bytes_read";

/// The name of the counter of all outbound bytes.
pub const TOTAL_BYTES_WRITTEN: &'static str = "comms::substream::total_bytes_written";

/// What came of polling a substream for bytes.
#[derive(Debug, Clone, Copy, PartialEq, Eq, Structural)]
pub enum ReadOutcome {
    /// Nothing to read yet.
    Pending,
    /// The read went through.
    Done,
    /// The read failed.
    Failed,
}

/// What came of polling a substream to take bytes.
#[derive(Debug, Clone, Copy, PartialEq, Eq, Structural)]
pub enum WriteOutcome {
    /// It takes none yet.
    Pending,
    /// It took this many.
    Taken(usize),
    /// The write failed.
    Failed,
}

/// What a poll for bytes adds to the counter of inbound bytes: after a read that
/// went through, the number of bytes that it brought. `before` and `filled` are the lengths
/// of the filled part of the buffer before and after the poll. Otherwise the counter is left alone.
pub fn inbound_increment(outcome: ReadOutcome, before: usize, filled: usize) -> (increment: Option<
    u64,
>)
    requires
        before <= filled,
    ensures
        increment is Some <==> outcome == ReadOutcome::Done,
        increment is Some ==> increment->0 == filled - before,
{
    match outcome {
        ReadOutcome::Done => Some((filled - before) as u64),
        _ => None,
    }
}

/// What a write adds to the counter of outbound bytes: the number of bytes taken. A write
/// that is pending or has failed leaves the counter alone.
pub fn outbound_increment(outcome: WriteOutcome) -> (increment: Option<u64>)
    ensures
        match outcome {
            WriteOutcome::Taken(n) => increment is Some && increment->0 == n,
            _ => increment is None,
        },
{
    match outcome {
        WriteOutcome::Taken(n) => Some(n as u64),
        _ => None,
    }
}

} // verus!
