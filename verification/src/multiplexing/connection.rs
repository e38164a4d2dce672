//! A multiplexed connection and its substreams.

use vstd::prelude::*;

use crate::multiplexing::control::Control;
use crate::multiplexing::counter::SubstreamCounter;
use crate::multiplexing::counter::SubstreamGuard;
use crate::multiplexing::direction::ConnectionDirection;
use crate::multiplexing::worker::WorkerPhase;
use crate::multiplexing::worker::YamuxWorker;
use crate::utils::stream_id::Id;
use crate::utils::stream_id::StreamId;

verus! {

/// How many substreams opened by the remote may wait to be taken.
pub const INCOMING_CAPACITY: usize = 10;

/// How many requests may wait for the worker.
pub const REQUEST_CAPACITY: usize = 1;

/// Which part a node plays in the multiplexing protocol.
#[derive(Debug, Clone, Copy, PartialEq, Eq, Structural)]
pub enum Mode {
    /// The node that set the connection up.
    Client,
    /// The node that the connection was made to.
    Server,
}

/// A substream that is counted as in use.
#[derive(Debug)]
pub struct Substream {
    stream_id: Id,
    counter_guard: SubstreamGuard,
}

impl Substream {
    /// The substream with a given ID.
    pub closed spec fn of(id: Id) -> Substream {
        Substream { stream_id: id, counter_guard: SubstreamGuard::any() }
    }

    /// The substream's ID.
    pub closed spec fn id(&self) -> Id {
        self.stream_id
    }

    /// The substream made from an ID has that ID.
    pub broadcast proof fn substream_keeps_its_id(id: Id)
        ensures
            (#[trigger] Substream::of(id)).id() == id,
    {
    }

    /// Counts the stream `id` as in use from now on.
    pub fn open(id: Id, counter: &mut SubstreamCounter) -> (substream: Substream)
        requires
            old(counter)@ < usize::MAX,
        ensures
            substream == Substream::of(id),
            substream.id() == id,
            final(counter)@ == old(counter)@ + 1,
    {
        let counter_guard = counter.new_guard();
        Substream { stream_id: id, counter_guard }
    }

    /// The substream goes away and is no longer counted.
    pub fn close(self, counter: &mut SubstreamCounter)
        requires
            old(counter)@ > 0,
        ensures
            final(counter)@ == old(counter)@ - 1,
    {
        counter.release(self.counter_guard);
    }
}

impl StreamId for Substream {
    fn stream_id(&self) -> (id: Id)
        ensures
            id == self.id(),
    {
        self.stream_id
    }
}

/// What the channel of substreams opened by the remote gave when polled.
#[derive(Debug, Clone, Copy, PartialEq, Eq, Structural)]
pub enum Received {
    /// None is waiting.
    Pending,
    /// The stream with this ID was taken from the channel.
    Stream(Id),
    /// The worker is gone and none will come.
    Closed,
}

impl Received {
    /// How many substreams this brings into use.
    pub open spec fn substreams(self) -> nat {
        if self is Stream {
            1
        } else {
            0
        }
    }
}

/// What a poll for the next substream gives.
#[derive(Debug)]
pub enum NextSubstream {
    /// None is waiting.
    Pending,
    /// The next substream.
    Ready(Substream),
    /// There are no more.
    Ended,
}

/// The substreams initiated by the remote, in the order in which they come.
#[derive(Debug)]
pub struct IncomingSubstreams {
    capacity: usize,
    substream_counter: SubstreamCounter,
}

impl IncomingSubstreams {
    /// How many substreams may wait to be taken.
    pub closed spec fn bound(&self) -> usize {
        self.capacity
    }

    /// The number of substreams of the connection that are in use.
    pub closed spec fn active(&self) -> nat {
        self.substream_counter@
    }

    /// Substreams that come through a channel for `capacity` of them and are counted by
    /// `substream_counter`.
    pub fn new(capacity: usize, substream_counter: SubstreamCounter) -> (incoming: Self)
        ensures
            incoming.bound() == capacity,
            incoming.active() == substream_counter@,
    {
        IncomingSubstreams { capacity, substream_counter }
    }

    /// How many substreams may wait to be taken.
    pub fn capacity(&self) -> (capacity: usize)
        ensures
            capacity == self.bound(),
    {
        self.capacity
    }

    /// The number of substreams in use.
    pub fn substream_count(&self) -> (count: usize)
        ensures
            count == self.active(),
    {
        self.substream_counter.get()
    }

    /// The counter of the connection's substreams.
    pub fn substream_counter(&mut self) -> (counter: &mut SubstreamCounter)
        ensures
            counter@ == old(self).active(),
            final(self).active() == final(counter)@,
            final(self).bound() == old(self).bound(),
    {
        &mut self.substream_counter
    }

    /// What a consumer is given once the channel has been polled: a stream taken from
    /// the channel becomes a counted substream.
    pub fn poll_next(&mut self, received: Received) -> (next: NextSubstream)
        requires
            received is Stream ==> old(self).active() < usize::MAX,
        ensures
            next == (match received {
                Received::Pending => NextSubstream::Pending,
                Received::Stream(id) => NextSubstream::Ready(Substream::of(id)),
                Received::Closed => NextSubstream::Ended,
            }),
            received matches Received::Stream(id) ==> (
            next matches NextSubstream::Ready(substream) && substream.id() == id),
            received is Stream ==> final(self).active() == old(self).active() + 1,
            !(received is Stream) ==> final(self).active() == old(self).active(),
            final(self).active() == old(self).active() + received.substreams(),
            final(self).bound() == old(self).bound(),
    {
        match received {
            Received::Pending => NextSubstream::Pending,
            Received::Stream(id) => {
                let substream = Substream::open(id, &mut self.substream_counter);
                NextSubstream::Ready(substream)
            },
            Received::Closed => NextSubstream::Ended,
        }
    }
}

/// A connection that carries many substreams.
#[derive(Debug)]
pub struct Yamux {
    mode: Mode,
    control: Control,
    incoming: IncomingSubstreams,
}

impl Yamux {
    /// The part that this node plays.
    pub closed spec fn plays(&self) -> Mode {
        self.mode
    }

    /// The handle for requests.
    pub closed spec fn handle(&self) -> Control {
        self.control
    }

    /// The substreams initiated by the remote.
    pub closed spec fn arriving(&self) -> IncomingSubstreams {
        self.incoming
    }

    /// Upgrades a connection of the given direction. The side that was connected to is
    /// the protocol's server. No substream is in use yet, and the worker
    /// is about to look for something to do.
    pub fn upgrade_connection(direction: ConnectionDirection) -> (upgraded: (Yamux, YamuxWorker))
        ensures
            upgraded.0.plays() == (match direction {
                ConnectionDirection::Inbound => Mode::Server,
                ConnectionDirection::Outbound => Mode::Client,
            }),
            upgraded.0.handle()@ == REQUEST_CAPACITY,
            upgraded.0.arriving().bound() == INCOMING_CAPACITY,
            upgraded.0.arriving().active() == 0,
            upgraded.1@ == WorkerPhase::PollClosed,
    {
        let mode = match direction {
            ConnectionDirection::Inbound => Mode::Server,
            ConnectionDirection::Outbound => Mode::Client,
        };
        let substream_counter = SubstreamCounter::new();
        let (worker, control, incoming) = Self::spawn_incoming_stream_worker(substream_counter);
        (Yamux { mode, control, incoming }, worker)
    }

    /// The worker of a connection, with the handles that lead to it.
    fn spawn_incoming_stream_worker(counter: SubstreamCounter) -> (parts: (
        YamuxWorker,
        Control,
        IncomingSubstreams,
    ))
        ensures
            parts.0@ == WorkerPhase::PollClosed,
            parts.1@ == REQUEST_CAPACITY,
            parts.2.bound() == INCOMING_CAPACITY,
            parts.2.active() == counter@,
    {
        let worker = YamuxWorker::new();
        let control = Control::new(REQUEST_CAPACITY);
        (worker, control, IncomingSubstreams::new(INCOMING_CAPACITY, counter))
    }

    /// The part that this node plays.
    pub fn mode(&self) -> (mode: Mode)
        ensures
            mode == self.plays(),
    {
        self.mode
    }

    /// Get the yamux control struct
    pub fn get_yamux_control(&self) -> (control: Control)
        ensures
            control == self.handle(),
    {
        self.control
    }

    /// Returns a mutable reference to the substreams initiated by the remote
    pub fn incoming_mut(&mut self) -> (incoming: &mut IncomingSubstreams)
        ensures
            *incoming == old(self).arriving(),
            final(self).arriving() == *final(incoming),
            final(self).plays() == old(self).plays(),
            final(self).handle() == old(self).handle(),
    {
        &mut self.incoming
    }

    /// Consumes this object and returns the substreams initiated by the remote
    pub fn into_incoming(self) -> (incoming: IncomingSubstreams)
        ensures
            incoming == self.arriving(),
    {
        self.incoming
    }

    /// Return the number of active substreams
    pub fn substream_count(&self) -> (count: usize)
        ensures
            count == self.arriving().active(),
    {
        self.incoming.substream_count()
    }

    /// The counter of this connection's substreams
    pub fn substream_counter(&mut self) -> (counter: &mut SubstreamCounter)
        ensures
            counter@ == old(self).arriving().active(),
            final(self).arriving().active() == final(counter)@,
            final(self).arriving().bound() == old(self).arriving().bound(),
            final(self).plays() == old(self).plays(),
            final(self).handle() == old(self).handle(),
    {
        self.incoming.substream_counter()
    }
}

} // verus!
