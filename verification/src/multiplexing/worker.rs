//! The worker that drives a connection.
//!
//! The connection makes progress only while it is polled. The worker does that,
//! and between polls it serves requests and hands on the substreams
//! that the remote opens.

use vstd::prelude::*;

use crate::multiplexing::connection::Substream;
use crate::multiplexing::control::YamuxRequest;
use crate::multiplexing::counter::SubstreamCounter;
use crate::utils::stream_id::Id;

verus! {

/// Why the worker stopped.
#[derive(Debug, Clone, Copy, PartialEq, Eq, Structural)]
pub enum StopReason {
    /// Nobody takes incoming substreams any more; the connection was closed.
    IncomingClosed,
    /// A substream could not be handed on, because nobody takes them any more.
    ForwardFailed,
    /// The connection has no more substreams.
    InboundEnded,
    /// The connection failed.
    InboundFailed,
}

/// What the worker is at.
#[derive(Debug, Clone, Copy, PartialEq, Eq, Structural)]
pub enum WorkerPhase {
    /// Is anybody still taking incoming substreams?
    PollClosed,
    /// Is a request waiting?
    PollRequest,
    /// Has the remote opened a substream?
    PollInbound,
    /// Waiting until something has changed.
    Suspended,
    /// A substream to the remote is being opened, as requested.
    Opening,
    /// The requested substream is handed over.
    ReplyingOpened(Id),
    /// It is reported that the requested substream could not be opened.
    ReplyingOpenFailed,
    /// The connection is being closed, as requested.
    ClosingOnRequest,
    /// It is reported how closing the connection ended.
    ReplyingClosed,
    /// A substream that the remote opened is handed on.
    Forwarding(Id),
    /// The connection is being closed for good.
    ClosingAtEnd,
    /// The worker has stopped.
    Stopped(StopReason),
}

/// What became of the worker's last action. `E` is the connection's own error.
#[derive(Debug)]
pub enum WorkerEvent<E> {
    /// What was polled is not ready.
    Pending,
    /// Nobody takes incoming substreams any more.
    IncomingClosed,
    /// A request came.
    Request(YamuxRequest),
    /// All request handles are gone; no request will come.
    RequestsEnded,
    /// The remote opened a substream.
    Inbound(Id),
    /// The remote will open no more substreams.
    InboundEnded,
    /// The connection failed.
    InboundFailed,
    /// Something may have changed.
    Woken,
    /// A substream to the remote was opened.
    OutboundOpened(Id),
    /// It could not be opened, and this is why.
    OutboundFailed(E),
    /// Closing the connection has ended, with or without an error.
    ConnectionClosed(Result<(), E>),
    /// The reply reached the one who made the request.
    ReplyDelivered,
    /// The one who made the request no longer waits for the reply.
    ReplyDropped,
    /// The substream was handed on.
    Forwarded,
    /// The substream could not be handed on.
    ForwardFailed,
}

/// What the worker wants done next. `E` is the connection's own error.
#[derive(Debug)]
pub enum WorkerAction<E> {
    /// Poll whether the takers of incoming substreams are gone.
    PollIncomingClosed,
    /// Poll for a request.
    PollRequest,
    /// Poll the connection for a substream opened by the remote.
    PollInbound,
    /// Wait until one of the polls may give something else.
    Suspend,
    /// Open a substream to the remote.
    OpenOutbound,
    /// Reply with a newly opened substream.
    ReplyOpened(Substream),
    /// Reply with the error of opening a substream.
    ReplyOpenFailed(E),
    /// Close the connection.
    CloseConnection,
    /// Reply with how closing the connection ended.
    ReplyClosed(Result<(), E>),
    /// Hand on the stream that the remote opened.
    ForwardInbound(Id),
    /// Do nothing more.
    Stop(StopReason),
}

impl<E> WorkerEvent<E> {
    /// How many substreams the event brings into use.
    pub open spec fn substreams(self) -> nat {
        if self is OutboundOpened {
            1
        } else {
            0
        }
    }
}

impl WorkerPhase {
    /// The phase that follows when an event comes in this one; none if the event
    /// cannot come in it.
    pub open spec fn after<E>(self, event: WorkerEvent<E>) -> Option<WorkerPhase> {
        match (self, event) {
            (WorkerPhase::PollClosed, WorkerEvent::IncomingClosed) => Some(
                WorkerPhase::ClosingAtEnd,
            ),
            (WorkerPhase::PollClosed, WorkerEvent::Pending) => Some(WorkerPhase::PollRequest),
            (WorkerPhase::PollRequest, WorkerEvent::Request(YamuxRequest::OpenStream)) => Some(
                WorkerPhase::Opening,
            ),
            (WorkerPhase::PollRequest, WorkerEvent::Request(YamuxRequest::Close)) => Some(
                WorkerPhase::ClosingOnRequest,
            ),
            (WorkerPhase::PollRequest, WorkerEvent::Pending) => Some(WorkerPhase::PollInbound),
            (WorkerPhase::PollRequest, WorkerEvent::RequestsEnded) => Some(
                WorkerPhase::PollInbound,
            ),
            (WorkerPhase::PollInbound, WorkerEvent::Inbound(id)) => Some(
                WorkerPhase::Forwarding(id),
            ),
            (WorkerPhase::PollInbound, WorkerEvent::InboundEnded) => Some(
                WorkerPhase::Stopped(StopReason::InboundEnded),
            ),
            (WorkerPhase::PollInbound, WorkerEvent::InboundFailed) => Some(
                WorkerPhase::Stopped(StopReason::InboundFailed),
            ),
            (WorkerPhase::PollInbound, WorkerEvent::Pending) => Some(WorkerPhase::Suspended),
            (WorkerPhase::Suspended, WorkerEvent::Woken) => Some(WorkerPhase::PollClosed),
            (WorkerPhase::Opening, WorkerEvent::OutboundOpened(id)) => Some(
                WorkerPhase::ReplyingOpened(id),
            ),
            (WorkerPhase::Opening, WorkerEvent::OutboundFailed(_)) => Some(
                WorkerPhase::ReplyingOpenFailed,
            ),
            (WorkerPhase::ClosingOnRequest, WorkerEvent::ConnectionClosed(_)) => Some(
                WorkerPhase::ReplyingClosed,
            ),
            (
                WorkerPhase::ReplyingOpened(_)
                | WorkerPhase::ReplyingOpenFailed
                | WorkerPhase::ReplyingClosed,
                WorkerEvent::ReplyDelivered | WorkerEvent::ReplyDropped,
            ) => Some(WorkerPhase::PollClosed),
            (WorkerPhase::Forwarding(_), WorkerEvent::Forwarded) => Some(WorkerPhase::PollClosed),
            (WorkerPhase::Forwarding(_), WorkerEvent::ForwardFailed) => Some(
                WorkerPhase::Stopped(StopReason::ForwardFailed),
            ),
            (WorkerPhase::ClosingAtEnd, WorkerEvent::ConnectionClosed(_)) => Some(
                WorkerPhase::Stopped(StopReason::IncomingClosed),
            ),
            _ => None,
        }
    }

    /// An event that can come in this phase, whatever the connection has gone through, as long as
    /// the worker has not stopped.
    pub open spec fn some_event<E>(self) -> WorkerEvent<E> {
        match self {
            WorkerPhase::PollClosed | WorkerPhase::PollRequest => WorkerEvent::Pending,
            WorkerPhase::PollInbound => WorkerEvent::InboundEnded,
            WorkerPhase::Opening => WorkerEvent::OutboundFailed(arbitrary()),
            WorkerPhase::ClosingOnRequest | WorkerPhase::ClosingAtEnd => {
                WorkerEvent::ConnectionClosed(Ok(()))
            },
            WorkerPhase::ReplyingOpened(_)
            | WorkerPhase::ReplyingOpenFailed
            | WorkerPhase::ReplyingClosed => WorkerEvent::ReplyDelivered,
            WorkerPhase::Forwarding(_) => WorkerEvent::Forwarded,
            WorkerPhase::Suspended | WorkerPhase::Stopped(_) => WorkerEvent::Woken,
        }
    }

    /// Whether the worker goes on, or the reason why it does not.
    pub open spec fn verdict(self) -> Result<(), StopReason> {
        match self {
            WorkerPhase::Stopped(reason) => Err(reason),
            _ => Ok(()),
        }
    }

    /// What is to be done when an event comes in this phase. A request is
    /// answered with the very substream or error that came of it.
    pub open spec fn wants<E>(self, event: WorkerEvent<E>) -> WorkerAction<E>
        recommends
            self.after(event) is Some,
    {
        match (self.after(event), event) {
            (Some(WorkerPhase::ReplyingOpened(id)), _) => WorkerAction::ReplyOpened(
                Substream::of(id),
            ),
            (Some(WorkerPhase::ReplyingOpenFailed), WorkerEvent::OutboundFailed(err)) => {
                WorkerAction::ReplyOpenFailed(err)
            },
            (Some(WorkerPhase::ReplyingClosed), WorkerEvent::ConnectionClosed(result)) => {
                WorkerAction::ReplyClosed(result)
            },
            (Some(WorkerPhase::PollRequest), _) => WorkerAction::PollRequest,
            (Some(WorkerPhase::PollInbound), _) => WorkerAction::PollInbound,
            (Some(WorkerPhase::Suspended), _) => WorkerAction::Suspend,
            (Some(WorkerPhase::Opening), _) => WorkerAction::OpenOutbound,
            (Some(WorkerPhase::ClosingOnRequest), _) => WorkerAction::CloseConnection,
            (Some(WorkerPhase::ClosingAtEnd), _) => WorkerAction::CloseConnection,
            (Some(WorkerPhase::Forwarding(id)), _) => WorkerAction::ForwardInbound(id),
            (Some(WorkerPhase::Stopped(reason)), _) => WorkerAction::Stop(reason),
            _ => WorkerAction::PollIncomingClosed,
        }
    }
}

/// The phase of a worker that has taken in `events`, one after the other; none
/// if one of them could not have come when it did.
pub open spec fn phase_after<E>(events: Seq<WorkerEvent<E>>) -> Option<WorkerPhase>
    decreases events.len(),
{
    if events.len() == 0 {
        Some(WorkerPhase::PollClosed)
    } else {
        match phase_after(events.drop_last()) {
            Some(phase) => phase.after(events.last()),
            None => None,
        }
    }
}

/// What a worker wants done once it has taken in `events`. At first it
/// looks whether incoming substreams are still being taken.
pub open spec fn action_after<E>(events: Seq<WorkerEvent<E>>) -> WorkerAction<E> {
    match phase_after(events.drop_last()) {
        Some(phase) if events.len() > 0 => phase.wants(events.last()),
        _ => WorkerAction::PollIncomingClosed,
    }
}

/// A worker that has stopped stays stopped: nothing can come of its last action.
pub proof fn stopped_is_final<E>(reason: StopReason, event: WorkerEvent<E>)
    ensures
        WorkerPhase::Stopped(reason).after(event) is None,
{
}

/// As long as it has not stopped, there is an event that can come in each phase.
pub proof fn worker_is_never_stuck<E>(phase: WorkerPhase)
    ensures
        phase is Stopped <==> forall|event: WorkerEvent<E>| #[trigger] phase.after(event) is None,
{
    assert(phase.after(phase.some_event::<E>()) is Some || phase is Stopped);
}

/// What each event calls for, in whichever phase it can come. Of the polls, one that has nothing leads
/// to the next, and the last to waiting; how closing ended is replied if closing was requested, and
/// otherwise the worker stops.
pub proof fn each_event_calls_for_its_action<E>(phase: WorkerPhase, event: WorkerEvent<E>)
    requires
        phase.after(event) is Some,
    ensures
        match event {
            WorkerEvent::Pending => match phase {
                WorkerPhase::PollClosed => phase.wants(event) is PollRequest,
                WorkerPhase::PollRequest => phase.wants(event) is PollInbound,
                _ => phase.wants(event) is Suspend,
            },
            WorkerEvent::IncomingClosed => phase.wants(event) is CloseConnection,
            WorkerEvent::Request(YamuxRequest::OpenStream) => phase.wants(event) is OpenOutbound,
            WorkerEvent::Request(YamuxRequest::Close) => phase.wants(event) is CloseConnection,
            WorkerEvent::RequestsEnded => phase.wants(event) is PollInbound,
            WorkerEvent::Inbound(id) => phase.wants(event) == WorkerAction::<E>::ForwardInbound(id),
            WorkerEvent::InboundEnded => phase.wants(event) == WorkerAction::<E>::Stop(
                StopReason::InboundEnded,
            ),
            WorkerEvent::InboundFailed => phase.wants(event) == WorkerAction::<E>::Stop(
                StopReason::InboundFailed,
            ),
            WorkerEvent::Woken => phase.wants(event) is PollIncomingClosed,
            WorkerEvent::OutboundOpened(id) => phase.wants(event) == WorkerAction::<E>::ReplyOpened(
                Substream::of(id),
            ),
            WorkerEvent::OutboundFailed(err) => phase.wants(event) == WorkerAction::ReplyOpenFailed(
                err,
            ),
            WorkerEvent::ConnectionClosed(result) => if phase is ClosingOnRequest {
                phase.wants(event) == WorkerAction::ReplyClosed(result)
            } else {
                phase.wants(event) == WorkerAction::<E>::Stop(StopReason::IncomingClosed)
            },
            WorkerEvent::ReplyDelivered => phase.wants(event) is PollIncomingClosed,
            WorkerEvent::ReplyDropped => phase.wants(event) is PollIncomingClosed,
            WorkerEvent::Forwarded => phase.wants(event) is PollIncomingClosed,
            WorkerEvent::ForwardFailed => phase.wants(event) == WorkerAction::<E>::Stop(
                StopReason::ForwardFailed,
            ),
        },
{
}

/// The worker takes in what can come of the action that it wanted, and nothing else.
pub proof fn answers_fit_the_action<E>(
    phase: WorkerPhase,
    event: WorkerEvent<E>,
    next: WorkerEvent<E>,
)
    requires
        phase.after(event) is Some,
    ensures
        phase.after(event)->0.after(next) is Some <==> match phase.wants(event) {
            WorkerAction::PollIncomingClosed => next is Pending || next is IncomingClosed,
            WorkerAction::PollRequest => {
                next is Pending || next is Request || next is RequestsEnded
            },
            WorkerAction::PollInbound => {
                next is Pending || next is Inbound || next is InboundEnded || next is InboundFailed
            },
            WorkerAction::Suspend => next is Woken,
            WorkerAction::OpenOutbound => next is OutboundOpened || next is OutboundFailed,
            WorkerAction::CloseConnection => next is ConnectionClosed,
            WorkerAction::ReplyOpened(_) => next is ReplyDelivered || next is ReplyDropped,
            WorkerAction::ReplyOpenFailed(_) => next is ReplyDelivered || next is ReplyDropped,
            WorkerAction::ReplyClosed(_) => next is ReplyDelivered || next is ReplyDropped,
            WorkerAction::ForwardInbound(_) => next is Forwarded || next is ForwardFailed,
            WorkerAction::Stop(_) => false,
        },
{
}

/// The worker wants to stop, for a reason, exactly when it has stopped for that reason.
pub proof fn stop_is_wanted_exactly_when_stopped<E>(
    phase: WorkerPhase,
    event: WorkerEvent<E>,
    reason: StopReason,
)
    requires
        phase.after(event) is Some,
    ensures
        phase.wants(event) == WorkerAction::<E>::Stop(reason) <==> phase.after(event) == Some(
            WorkerPhase::Stopped(reason),
        ),
{
}

/// A worker that has taken in nothing asks whether incoming substreams are still taken, and can learn
/// that they are or that they are not.
pub proof fn first_question<E>(event: WorkerEvent<E>)
    ensures
        action_after(Seq::<WorkerEvent<E>>::empty()) is PollIncomingClosed,
        phase_after(seq![event]) is Some <==> event is Pending || event is IncomingClosed,
{
    reveal_with_fuel(phase_after, 2);
    assert(seq![event].drop_last() =~= Seq::<WorkerEvent<E>>::empty());
}

/// Once a stream of the remote has come, it is to be handed on, under its own ID.
pub proof fn an_inbound_stream_is_to_be_handed_on<E>(events: Seq<WorkerEvent<E>>, id: Id)
    requires
        phase_after(events) == Some(WorkerPhase::PollInbound),
    ensures
        phase_after(events.push(WorkerEvent::Inbound(id))) is Some,
        action_after(events.push(WorkerEvent::Inbound(id))) == WorkerAction::<E>::ForwardInbound(id),
{
    assert(events.push(WorkerEvent::Inbound(id)).drop_last() =~= events);
}

/// Once nobody takes incoming substreams any more, the connection is to be closed, and only
/// when that has ended, however it ended, does the worker stop.
pub proof fn the_connection_is_closed_before_the_worker_stops<E>(
    events: Seq<WorkerEvent<E>>,
    result: Result<(), E>,
)
    requires
        phase_after(events) == Some(WorkerPhase::PollClosed),
    ensures
        ({
            let told = events.push(WorkerEvent::IncomingClosed);
            let closed = told.push(WorkerEvent::ConnectionClosed(result));
            &&& phase_after(told) is Some
            &&& action_after(told) is CloseConnection
            &&& phase_after(closed) is Some
            &&& action_after(closed) == WorkerAction::<E>::Stop(StopReason::IncomingClosed)
        }),
{
    let told = events.push(WorkerEvent::IncomingClosed);
    let closed = told.push(WorkerEvent::ConnectionClosed(result));
    assert(told.drop_last() =~= events);
    assert(closed.drop_last() =~= told);
}

/// The worker from outside: what it wants next follows from what it wanted and what came of that.
/// Only the end of a close needs one look further back, at who asked for it.
pub proof fn one_action_leads_to_the_next<E>(events: Seq<WorkerEvent<E>>, event: WorkerEvent<E>)
    requires
        phase_after(events.push(event)) is Some,
    ensures
        match (action_after(events), event) {
            (WorkerAction::PollIncomingClosed, WorkerEvent::Pending) => action_after(
                events.push(event),
            ) is PollRequest,
            (WorkerAction::PollIncomingClosed, WorkerEvent::IncomingClosed) => action_after(
                events.push(event),
            ) is CloseConnection,
            (
                WorkerAction::PollRequest,
                WorkerEvent::Request(YamuxRequest::OpenStream),
            ) => action_after(events.push(event)) is OpenOutbound,
            (WorkerAction::PollRequest, WorkerEvent::Request(YamuxRequest::Close)) => action_after(
                events.push(event),
            ) is CloseConnection,
            (
                WorkerAction::PollRequest,
                WorkerEvent::Pending | WorkerEvent::RequestsEnded,
            ) => action_after(events.push(event)) is PollInbound,
            (WorkerAction::PollInbound, WorkerEvent::Pending) => action_after(
                events.push(event),
            ) is Suspend,
            (WorkerAction::PollInbound, WorkerEvent::Inbound(id)) => action_after(
                events.push(event),
            ) == WorkerAction::<E>::ForwardInbound(id),
            (WorkerAction::PollInbound, WorkerEvent::InboundEnded) => action_after(
                events.push(event),
            ) == WorkerAction::<E>::Stop(StopReason::InboundEnded),
            (WorkerAction::PollInbound, WorkerEvent::InboundFailed) => action_after(
                events.push(event),
            ) == WorkerAction::<E>::Stop(StopReason::InboundFailed),
            (WorkerAction::Suspend, WorkerEvent::Woken) => action_after(
                events.push(event),
            ) is PollIncomingClosed,
            (WorkerAction::OpenOutbound, WorkerEvent::OutboundOpened(id)) => action_after(
                events.push(event),
            ) == WorkerAction::<E>::ReplyOpened(Substream::of(id)),
            (WorkerAction::OpenOutbound, WorkerEvent::OutboundFailed(err)) => action_after(
                events.push(event),
            ) == WorkerAction::ReplyOpenFailed(err),
            (WorkerAction::CloseConnection, WorkerEvent::ConnectionClosed(result)) => {
                if events.last() is IncomingClosed {
                    action_after(events.push(event)) == WorkerAction::<E>::Stop(
                        StopReason::IncomingClosed,
                    )
                } else {
                    action_after(events.push(event)) == WorkerAction::ReplyClosed(result)
                }
            },
            (
                WorkerAction::ReplyOpened(_)
                | WorkerAction::ReplyOpenFailed(_)
                | WorkerAction::ReplyClosed(_),
                WorkerEvent::ReplyDelivered | WorkerEvent::ReplyDropped,
            ) => action_after(events.push(event)) is PollIncomingClosed,
            (WorkerAction::ForwardInbound(_), WorkerEvent::Forwarded) => action_after(
                events.push(event),
            ) is PollIncomingClosed,
            (WorkerAction::ForwardInbound(_), WorkerEvent::ForwardFailed) => action_after(
                events.push(event),
            ) == WorkerAction::<E>::Stop(StopReason::ForwardFailed),
            _ => false,
        },
{
    reveal_with_fuel(phase_after, 3);
    assert(events.push(event).drop_last() =~= events);
}

/// The worker looks for a request only right after it has seen that
/// incoming substreams are still being taken.
pub proof fn requests_come_second<E>(events: Seq<WorkerEvent<E>>)
    requires
        phase_after(events) == Some(WorkerPhase::PollRequest),
    ensures
        events.len() > 0,
        events.last() is Pending,
        phase_after(events.drop_last()) == Some(WorkerPhase::PollClosed),
{
}

/// The worker looks for a substream of the remote only right after it has seen
/// that incoming substreams are still being taken and that no request is waiting.
pub proof fn inbound_comes_last<E>(events: Seq<WorkerEvent<E>>)
    requires
        phase_after(events) == Some(WorkerPhase::PollInbound),
    ensures
        events.len() > 1,
        events.last() is Pending || events.last() is RequestsEnded,
        events.drop_last().last() is Pending,
        phase_after(events.drop_last().drop_last()) == Some(WorkerPhase::PollClosed),
{
    requests_come_second(events.drop_last());
}

/// The worker waits only after all three polls have had nothing for it.
pub proof fn worker_waits_only_when_idle<E>(events: Seq<WorkerEvent<E>>)
    requires
        phase_after(events) == Some(WorkerPhase::Suspended),
    ensures
        events.len() > 2,
        events.last() is Pending,
        events.drop_last().last() is Pending || events.drop_last().last()
            is RequestsEnded,
        events.drop_last().drop_last().last() is Pending,
        phase_after(events.drop_last().drop_last().drop_last()) == Some(WorkerPhase::PollClosed),
{
    inbound_comes_last(events.drop_last());
}

/// Whether an event is what can come of serving a request.
pub open spec fn comes_of<E>(request: YamuxRequest, outcome: WorkerEvent<E>) -> bool {
    match request {
        YamuxRequest::OpenStream => outcome is OutboundOpened || outcome is OutboundFailed,
        YamuxRequest::Close => outcome is ConnectionClosed,
    }
}

/// Serving a request is never an error of the worker: whatever is requested, whatever comes of it, and
/// whether or not the reply is still waited for, each step can be taken and the worker goes on.
pub proof fn serving_a_request_never_fails<E>(
    request: YamuxRequest,
    outcome: WorkerEvent<E>,
    reply: WorkerEvent<E>,
)
    requires
        comes_of(request, outcome),
        reply is ReplyDelivered || reply is ReplyDropped,
    ensures
        WorkerPhase::PollRequest.after(WorkerEvent::<E>::Request(request)) matches Some(serving) && {
            &&& serving.verdict() == Ok::<(), StopReason>(())
            &&& serving.after(outcome) matches Some(replying) && {
                &&& replying.verdict() == Ok::<(), StopReason>(())
                &&& replying.after(reply) == Some(WorkerPhase::PollClosed)
                &&& WorkerPhase::PollClosed.verdict() == Ok::<(), StopReason>(())
            }
        },
{
}

/// A request is answered before anything else is done, with what came of it: the substream
/// that was opened, the error of opening it, or the result of closing the connection.
/// The worker then goes on, whether or not the reply is still waited for.
pub proof fn requests_are_answered<E>(
    events: Seq<WorkerEvent<E>>,
    request: YamuxRequest,
    outcome: WorkerEvent<E>,
    reply: WorkerEvent<E>,
)
    requires
        phase_after(events.push(WorkerEvent::Request(request)).push(outcome).push(reply)) is Some,
    ensures
        phase_after(events) == Some(WorkerPhase::PollRequest),
        action_after(events.push(WorkerEvent::Request(request))) == (match request {
            YamuxRequest::OpenStream => WorkerAction::<E>::OpenOutbound,
            YamuxRequest::Close => WorkerAction::<E>::CloseConnection,
        }),
        match (request, action_after(events.push(WorkerEvent::Request(request)).push(outcome))) {
            (YamuxRequest::OpenStream, WorkerAction::ReplyOpened(substream)) => {
                outcome == WorkerEvent::<E>::OutboundOpened(substream.id())
            },
            (YamuxRequest::OpenStream, WorkerAction::ReplyOpenFailed(err)) => {
                outcome == WorkerEvent::<E>::OutboundFailed(err)
            },
            (YamuxRequest::Close, WorkerAction::ReplyClosed(result)) => {
                outcome == WorkerEvent::<E>::ConnectionClosed(result)
            },
            _ => false,
        },
        reply is ReplyDelivered || reply is ReplyDropped,
        phase_after(events.push(WorkerEvent::Request(request)).push(outcome).push(reply)) == Some(
            WorkerPhase::PollClosed,
        ),
{
    broadcast use Substream::substream_keeps_its_id;

    let asked = events.push(WorkerEvent::Request(request));
    let done = asked.push(outcome);
    let replied = done.push(reply);
    reveal_with_fuel(phase_after, 4);
    assert(replied.drop_last() =~= done);
    assert(done.drop_last() =~= asked);
    assert(asked.drop_last() =~= events);
}

/// The worker stops for one of four causes, and for no other: incoming substreams
/// are no longer taken, which it notices by itself (and then closes the connection) or
/// when it hands one on, or the connection has ended or failed.
pub proof fn worker_stops_for_cause<E>(events: Seq<WorkerEvent<E>>, reason: StopReason)
    requires
        phase_after(events) == Some(WorkerPhase::Stopped(reason)),
    ensures
        events.len() > 0,
        match reason {
            StopReason::IncomingClosed => {
                &&& events.len() > 1
                &&& events.last() is ConnectionClosed
                &&& events.drop_last().last() is IncomingClosed
            },
            StopReason::ForwardFailed => {
                &&& events.len() > 1
                &&& events.last() is ForwardFailed
                &&& events.drop_last().last() is Inbound
            },
            StopReason::InboundEnded => events.last() is InboundEnded,
            StopReason::InboundFailed => events.last() is InboundFailed,
        },
{
    let before = events.drop_last();
    if before.len() > 0 {
        assert(phase_after(before) == phase_after(before.drop_last())->0.after(before.last()));
    }
}

/// Every stream that the remote opens is handed on at once, under its own ID.
pub proof fn inbound_streams_are_handed_on<E>(events: Seq<WorkerEvent<E>>, id: Id)
    ensures
        phase_after(events) == Some(WorkerPhase::Forwarding(id)) <==> {
            &&& phase_after(events) is Some
            &&& events.len() > 0
            &&& events.last() == WorkerEvent::<E>::Inbound(id)
        },
{
}

/// The worker of one connection.
#[derive(Debug)]
pub struct YamuxWorker {
    phase: WorkerPhase,
}

impl View for YamuxWorker {
    type V = WorkerPhase;

    closed spec fn view(&self) -> WorkerPhase {
        self.phase
    }
}

impl YamuxWorker {
    /// A worker that has done nothing yet. Its first action is
    /// [`WorkerAction::PollIncomingClosed`].
    pub fn new() -> (worker: Self)
        ensures
            worker@ == WorkerPhase::PollClosed,
    {
        YamuxWorker { phase: WorkerPhase::PollClosed }
    }

    /// What the worker is at.
    pub fn phase(&self) -> (phase: WorkerPhase)
        ensures
            phase == self@,
    {
        self.phase
    }

    /// The phase that follows, if the event can come now.
    fn follow<E>(&self, event: &WorkerEvent<E>) -> (next: Option<WorkerPhase>)
        ensures
            next == self@.after(*event),
    {
        match (self.phase, event) {
            (WorkerPhase::PollClosed, WorkerEvent::IncomingClosed) => {
                Some(WorkerPhase::ClosingAtEnd)
            },
            (WorkerPhase::PollClosed, WorkerEvent::Pending) => Some(WorkerPhase::PollRequest),
            (WorkerPhase::PollRequest, WorkerEvent::Request(request)) => Some(
                Self::handle_request(*request),
            ),
            (WorkerPhase::PollRequest, WorkerEvent::Pending) => Some(WorkerPhase::PollInbound),
            (WorkerPhase::PollRequest, WorkerEvent::RequestsEnded) => {
                Some(WorkerPhase::PollInbound)
            },
            (WorkerPhase::PollInbound, WorkerEvent::Inbound(id)) => {
                Some(WorkerPhase::Forwarding(*id))
            },
            (WorkerPhase::PollInbound, WorkerEvent::InboundEnded) => {
                Some(WorkerPhase::Stopped(StopReason::InboundEnded))
            },
            (WorkerPhase::PollInbound, WorkerEvent::InboundFailed) => {
                Some(WorkerPhase::Stopped(StopReason::InboundFailed))
            },
            (WorkerPhase::PollInbound, WorkerEvent::Pending) => Some(WorkerPhase::Suspended),
            (WorkerPhase::Suspended, WorkerEvent::Woken) => Some(WorkerPhase::PollClosed),
            (WorkerPhase::Opening, WorkerEvent::OutboundOpened(id)) => {
                Some(WorkerPhase::ReplyingOpened(*id))
            },
            (WorkerPhase::Opening, WorkerEvent::OutboundFailed(_)) => {
                Some(WorkerPhase::ReplyingOpenFailed)
            },
            (WorkerPhase::ClosingOnRequest, WorkerEvent::ConnectionClosed(_)) => {
                Some(WorkerPhase::ReplyingClosed)
            },
            (
                WorkerPhase::ReplyingOpened(_)
                | WorkerPhase::ReplyingOpenFailed
                | WorkerPhase::ReplyingClosed,
                WorkerEvent::ReplyDelivered | WorkerEvent::ReplyDropped,
            ) => Some(WorkerPhase::PollClosed),
            (WorkerPhase::Forwarding(_), WorkerEvent::Forwarded) => Some(WorkerPhase::PollClosed),
            (WorkerPhase::Forwarding(_), WorkerEvent::ForwardFailed) => {
                Some(WorkerPhase::Stopped(StopReason::ForwardFailed))
            },
            (WorkerPhase::ClosingAtEnd, WorkerEvent::ConnectionClosed(_)) => {
                Some(WorkerPhase::Stopped(StopReason::IncomingClosed))
            },
            _ => None,
        }
    }

    /// The phase in which a request is served.
    fn handle_request(request: YamuxRequest) -> (phase: WorkerPhase)
        ensures
            phase == (match request {
                YamuxRequest::OpenStream => WorkerPhase::Opening,
                YamuxRequest::Close => WorkerPhase::ClosingOnRequest,
            }),
    {
        match request {
            YamuxRequest::OpenStream => WorkerPhase::Opening,
            YamuxRequest::Close => WorkerPhase::ClosingOnRequest,
        }
    }

    /// Whether `event` can come of what the worker is at.
    pub fn accepts<E>(&self, event: &WorkerEvent<E>) -> (accepted: bool)
        ensures
            accepted == self@.after(*event) is Some,
    {
        self.follow(event).is_some()
    }

    /// Takes in what became of the last action and says what to do next. A
    /// substream opened on request is counted as in use before it is handed over; an
    /// error that came of a request is handed over as it is.
    pub fn run<E>(&mut self, event: WorkerEvent<E>, counter: &mut SubstreamCounter) -> (action:
        WorkerAction<E>)
        requires
            old(self)@.after(event) is Some,
            event is OutboundOpened ==> old(counter)@ < usize::MAX,
        ensures
            Some(final(self)@) == old(self)@.after(event),
            action == old(self)@.wants(event),
            event matches WorkerEvent::OutboundOpened(id) ==> (
            action matches WorkerAction::ReplyOpened(substream) && substream.id() == id),
            action matches WorkerAction::Stop(reason) ==> final(self)@ == WorkerPhase::Stopped(reason),
            final(self)@ matches WorkerPhase::Stopped(reason) ==> action == WorkerAction::<E>::Stop(
                reason,
            ),
            match event {
                WorkerEvent::Pending => match old(self)@ {
                    WorkerPhase::PollClosed => action is PollRequest,
                    WorkerPhase::PollRequest => action is PollInbound,
                    _ => action is Suspend,
                },
                WorkerEvent::IncomingClosed => action is CloseConnection,
                WorkerEvent::Request(YamuxRequest::OpenStream) => action is OpenOutbound,
                WorkerEvent::Request(YamuxRequest::Close) => action is CloseConnection,
                WorkerEvent::RequestsEnded => action is PollInbound,
                WorkerEvent::Inbound(id) => action == WorkerAction::<E>::ForwardInbound(id),
                WorkerEvent::InboundEnded => action == WorkerAction::<E>::Stop(
                    StopReason::InboundEnded,
                ),
                WorkerEvent::InboundFailed => action == WorkerAction::<E>::Stop(
                    StopReason::InboundFailed,
                ),
                WorkerEvent::Woken => action is PollIncomingClosed,
                WorkerEvent::OutboundOpened(id) => action == WorkerAction::<E>::ReplyOpened(
                    Substream::of(id),
                ),
                WorkerEvent::OutboundFailed(err) => action == WorkerAction::ReplyOpenFailed(err),
                WorkerEvent::ConnectionClosed(result) => if old(self)@ is ClosingOnRequest {
                    action == WorkerAction::ReplyClosed(result)
                } else {
                    action == WorkerAction::<E>::Stop(StopReason::IncomingClosed)
                },
                WorkerEvent::ReplyDelivered => action is PollIncomingClosed,
                WorkerEvent::ReplyDropped => action is PollIncomingClosed,
                WorkerEvent::Forwarded => action is PollIncomingClosed,
                WorkerEvent::ForwardFailed => action == WorkerAction::<E>::Stop(
                    StopReason::ForwardFailed,
                ),
            },
            event is OutboundOpened ==> final(counter)@ == old(counter)@ + 1,
            !(event is OutboundOpened) ==> final(counter)@ == old(counter)@,
            final(counter)@ == old(counter)@ + event.substreams(),
    {
        if let Some(next) = self.follow(&event) {
            self.phase = next;
        }
        match (self.phase, event) {
            (WorkerPhase::ReplyingOpened(id), _) => {
                WorkerAction::ReplyOpened(Substream::open(id, counter))
            },
            (WorkerPhase::ReplyingOpenFailed, WorkerEvent::OutboundFailed(err)) => {
                WorkerAction::ReplyOpenFailed(err)
            },
            (WorkerPhase::ReplyingClosed, WorkerEvent::ConnectionClosed(result)) => {
                WorkerAction::ReplyClosed(result)
            },
            (WorkerPhase::PollRequest, _) => WorkerAction::PollRequest,
            (WorkerPhase::PollInbound, _) => WorkerAction::PollInbound,
            (WorkerPhase::Suspended, _) => WorkerAction::Suspend,
            (WorkerPhase::Opening, _) => WorkerAction::OpenOutbound,
            (WorkerPhase::ClosingOnRequest, _) => WorkerAction::CloseConnection,
            (WorkerPhase::ClosingAtEnd, _) => WorkerAction::CloseConnection,
            (WorkerPhase::Forwarding(id), _) => WorkerAction::ForwardInbound(id),
            (WorkerPhase::Stopped(reason), _) => WorkerAction::Stop(reason),
            _ => WorkerAction::PollIncomingClosed,
        }
    }
}

} // verus!
