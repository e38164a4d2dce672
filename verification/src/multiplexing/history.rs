//! What can happen to a connection over time, and what holds of it whatever happens.

use vstd::prelude::*;

use crate::multiplexing::connection::INCOMING_CAPACITY;
use crate::multiplexing::connection::Received;
use crate::multiplexing::connection::Substream;
use crate::multiplexing::connection::Yamux;
use crate::multiplexing::control::outcome_of_reply;
use crate::multiplexing::control::outcome_of_request;
use crate::multiplexing::control::YamuxControlError;
use crate::multiplexing::control::YamuxRequest;
use crate::multiplexing::worker::action_after;
use crate::multiplexing::worker::comes_of;
use crate::multiplexing::worker::phase_after;
use crate::multiplexing::worker::StopReason;
use crate::multiplexing::worker::WorkerAction;
use crate::multiplexing::worker::WorkerEvent;
use crate::multiplexing::worker::WorkerPhase;
use crate::utils::stream_id::Id;

verus! {

/// What can happen to the substreams of a connection. `E` is the connection's own error.
pub enum Happening<E> {
    /// The worker took in an event.
    Worked(WorkerEvent<E>),
    /// The channel of incoming substreams was polled for a consumer.
    Polled(Received),
    /// A substream went away.
    Dropped,
}

impl<E> Happening<E> {
    /// Whether this brings a substream into use.
    pub open spec fn opens(self) -> bool {
        match self {
            Happening::Worked(event) => event is OutboundOpened,
            Happening::Polled(received) => received is Stream,
            Happening::Dropped => false,
        }
    }
}

/// What a connection's counter shows, if it starts at zero, after all of this has
/// happened.
pub open spec fn count_after<E>(history: Seq<Happening<E>>) -> int
    decreases history.len(),
{
    if history.len() == 0 {
        0
    } else {
        let before = count_after(history.drop_last());
        match history.last() {
            Happening::Worked(event) => before + event.substreams(),
            Happening::Polled(received) => before + received.substreams(),
            Happening::Dropped => before - 1,
        }
    }
}

/// The count is the number of substreams handed out, on request or as they
/// came in, less the number of those that have gone away.
pub proof fn count_is_the_active_substreams<E>(history: Seq<Happening<E>>)
    ensures
        count_after(history) == history.filter(|h: Happening<E>| h.opens()).len() - history.filter(
            |h: Happening<E>| h is Dropped,
        ).len(),
    decreases history.len(),
{
    reveal(Seq::filter);
    if history.len() > 0 {
        count_is_the_active_substreams(history.drop_last());
    }
}

/// The events that the worker took in, in order.
pub open spec fn worker_events<E>(history: Seq<Happening<E>>) -> Seq<WorkerEvent<E>>
    decreases history.len(),
{
    if history.len() == 0 {
        Seq::empty()
    } else {
        let before = worker_events(history.drop_last());
        match history.last() {
            Happening::Worked(event) => before.push(event),
            _ => before,
        }
    }
}

/// What the worker is at after all of this has happened; none if the worker could not have
/// taken in its events.
pub open spec fn phase_in<E>(history: Seq<Happening<E>>) -> Option<WorkerPhase> {
    phase_after(worker_events(history))
}

/// What the worker wants done after all of this has happened.
pub open spec fn action_in<E>(history: Seq<Happening<E>>) -> WorkerAction<E> {
    action_after(worker_events(history))
}

/// The streams that wait in the channel of incoming substreams: those that the worker has handed on
/// and that were not taken yet, the first handed on first.
pub open spec fn waiting<E>(history: Seq<Happening<E>>) -> Seq<Id>
    decreases history.len(),
{
    if history.len() == 0 {
        Seq::empty()
    } else {
        let before = waiting(history.drop_last());
        match (history.last(), phase_in(history.drop_last())) {
            (
                Happening::Worked(WorkerEvent::Forwarded),
                Some(WorkerPhase::Forwarding(id)),
            ) => before.push(id),
            (Happening::Polled(Received::Stream(_)), _) if before.len() > 0 => before.drop_first(),
            _ => before,
        }
    }
}

/// Whether the connection is closed: closing it has ended, with or without an error, or
/// a substream could not be opened on it.
pub open spec fn is_closed<E>(history: Seq<Happening<E>>) -> bool
    decreases history.len(),
{
    &&& history.len() > 0
    &&& {
        ||| is_closed(history.drop_last())
        ||| history.last() matches Happening::Worked(event) && (event is ConnectionClosed
            || event is OutboundFailed)
    }
}

/// What the connection itself can give the worker, as `yamux::Connection` does. Once it is closed, no
/// substream can be opened on it and none comes from the remote: polled for one, it tells its end.
/// Closing it again succeeds.
pub open spec fn connection_gives<E>(history: Seq<Happening<E>>, event: WorkerEvent<E>) -> bool {
    is_closed(history) ==> {
        &&& !(event is OutboundOpened)
        &&& phase_in(history) == Some(WorkerPhase::PollInbound) ==> event is InboundEnded
        &&& event matches WorkerEvent::ConnectionClosed(result) ==> result is Ok
    }
}

/// Whether something can happen next. The worker takes in only what can come of what it is at and what
/// the connection gives; it hands a stream on only into a channel with room; the channel gives out
/// the stream that waits first, and tells its end only when the worker has stopped and
/// none waits; and only a substream in use goes away.
pub open spec fn can_follow<E>(history: Seq<Happening<E>>, next: Happening<E>) -> bool {
    match next {
        Happening::Worked(event) => {
            &&& phase_in(history.push(next)) is Some
            &&& connection_gives(history, event)
            &&& event is Forwarded ==> waiting(history).len() < INCOMING_CAPACITY
        },
        Happening::Polled(Received::Stream(id)) => {
            &&& waiting(history).len() > 0
            &&& waiting(history)[0] == id
        },
        Happening::Polled(Received::Closed) => {
            &&& phase_in(history) matches Some(phase) && phase is Stopped
            &&& waiting(history).len() == 0
        },
        Happening::Polled(Received::Pending) => true,
        Happening::Dropped => count_after(history) > 0,
    }
}

/// Whether all of this can happen to one connection, in this order.
pub open spec fn is_history<E>(history: Seq<Happening<E>>) -> bool
    decreases history.len(),
{
    history.len() > 0 ==> {
        &&& is_history(history.drop_last())
        &&& can_follow(history.drop_last(), history.last())
    }
}

/// Something more that happens comes last.
proof fn one_more<E>(history: Seq<Happening<E>>, next: Happening<E>)
    ensures
        history.push(next).drop_last() == history,
        is_history(history.push(next)) <==> is_history(history) && can_follow(history, next),
        next matches Happening::Worked(event) ==> {
            &&& worker_events(history.push(next)) == worker_events(history).push(event)
            &&& worker_events(history).push(event).drop_last() == worker_events(history)
            &&& phase_in(history) matches Some(phase) ==> {
                &&& phase_in(history.push(next)) == phase.after(event)
                &&& action_in(history.push(next)) == phase.wants(event)
            }
            &&& count_after(history.push(next)) == count_after(history) + event.substreams()
            &&& is_closed(history.push(next)) == (is_closed(history) || event is ConnectionClosed
                || event is OutboundFailed)
            &&& !(event is Forwarded) ==> waiting(history.push(next)) == waiting(history)
        },
{
    assert(history.push(next).drop_last() =~= history);
    if let Happening::Worked(event) = next {
        assert(worker_events(history).push(event).drop_last() =~= worker_events(history));
    }
}

/// The events that the worker took in could come when they did.
proof fn history_has_a_phase<E>(history: Seq<Happening<E>>)
    requires
        is_history(history),
    ensures
        phase_in(history) is Some,
    decreases history.len(),
{
    if history.len() > 0 {
        let before = history.drop_last();
        history_has_a_phase(before);
        assert(before.push(history.last()) =~= history);
    }
}

/// The count never goes below zero.
pub proof fn count_is_never_negative<E>(history: Seq<Happening<E>>)
    requires
        is_history(history),
    ensures
        count_after(history) >= 0,
    decreases history.len(),
{
    if history.len() > 0 {
        count_is_never_negative(history.drop_last());
    }
}

/// The channel of incoming substreams never holds more than its bound.
pub proof fn waiting_streams_stay_within_the_bound<E>(history: Seq<Happening<E>>)
    requires
        is_history(history),
    ensures
        waiting(history).len() <= INCOMING_CAPACITY,
    decreases history.len(),
{
    if history.len() > 0 {
        waiting_streams_stay_within_the_bound(history.drop_last());
    }
}

/// The IDs of the streams that the remote opened, in order.
pub open spec fn arrived<E>(history: Seq<Happening<E>>) -> Seq<Id>
    decreases history.len(),
{
    if history.len() == 0 {
        Seq::empty()
    } else {
        let before = arrived(history.drop_last());
        match history.last() {
            Happening::Worked(WorkerEvent::Inbound(id)) => before.push(id),
            _ => before,
        }
    }
}

/// The IDs of the incoming substreams that consumers were given, in order.
pub open spec fn taken<E>(history: Seq<Happening<E>>) -> Seq<Id>
    decreases history.len(),
{
    if history.len() == 0 {
        Seq::empty()
    } else {
        let before = taken(history.drop_last());
        match history.last() {
            Happening::Polled(Received::Stream(id)) => before.push(id),
            _ => before,
        }
    }
}

/// The stream that the worker has in hand: it is about to hand it on, or could not.
pub open spec fn in_hand<E>(history: Seq<Happening<E>>) -> Seq<Id> {
    match phase_in(history) {
        Some(WorkerPhase::Forwarding(id)) => seq![id],
        Some(WorkerPhase::Stopped(StopReason::ForwardFailed)) if arrived(history).len() > 0 => {
            seq![arrived(history).last()]
        },
        _ => Seq::empty(),
    }
}

/// Consumers are given the streams that the remote opens, each once and in the order in which it
/// opened them. Those not given out yet wait in the channel, but for the
/// last, which the worker may still have in hand.
pub proof fn incoming_streams_come_in_order<E>(history: Seq<Happening<E>>)
    requires
        is_history(history),
    ensures
        arrived(history) == taken(history) + waiting(history) + in_hand(history),
    decreases history.len(),
{
    if history.len() > 0 {
        let before = history.drop_last();
        let last = history.last();
        assert(before.push(last) =~= history);
        one_more(before, last);
        history_has_a_phase(before);
        incoming_streams_come_in_order(before);
        match last {
            Happening::Worked(event) => {
                match event {
                    WorkerEvent::Inbound(id) => {
                        assert(phase_in(before) == Some(WorkerPhase::PollInbound));
                        assert(phase_in(history) == Some(WorkerPhase::Forwarding(id)));
                    },
                    WorkerEvent::Forwarded => {
                        assert(phase_in(before)->0 is Forwarding);
                        assert(phase_in(history) == Some(WorkerPhase::PollClosed));
                    },
                    WorkerEvent::ForwardFailed => {
                        assert(phase_in(before)->0 is Forwarding);
                        assert(phase_in(history) == Some(
                            WorkerPhase::Stopped(StopReason::ForwardFailed),
                        ));
                        assert(arrived(before).last() == in_hand(before)[0]);
                    },
                    _ => {
                        assert(!(phase_in(before)->0 is Forwarding));
                        assert(!(phase_in(history)->0 is Forwarding));
                        assert(phase_in(before)->0 != WorkerPhase::Stopped(
                            StopReason::ForwardFailed,
                        ));
                    },
                }
            },
            Happening::Polled(Received::Stream(id)) => {
                assert(waiting(before) =~= seq![id] + waiting(before).drop_first());
            },
            _ => {},
        }
        assert(arrived(history) =~= taken(history) + waiting(history) + in_hand(history));
    }
}

/// Nothing but a full channel can hold the worker up: as long as it has not stopped and the
/// stream that it has in hand, if any, finds room, there is something that it can take in.
pub proof fn only_a_full_channel_holds_the_worker_up<E>(history: Seq<Happening<E>>)
    requires
        is_history(history),
        !(phase_in(history)->0 is Stopped),
        phase_in(history)->0 is Forwarding ==> waiting(history).len() < INCOMING_CAPACITY,
    ensures
        exists|event: WorkerEvent<E>| #[trigger] can_follow(history, Happening::Worked(event)),
{
    history_has_a_phase(history);
    let event = phase_in(history)->0.some_event::<E>();
    one_more(history, Happening::Worked(event));
    assert(can_follow(history, Happening::Worked(event)));
}

/// Whether an event tells that incoming substreams are no longer taken, or that the connection has
/// ended or failed.
pub open spec fn tells_the_end<E>(event: WorkerEvent<E>) -> bool {
    ||| event is IncomingClosed
    ||| event is ForwardFailed
    ||| event is InboundEnded
    ||| event is InboundFailed
}

/// Whatever the worker is at, it looks for a request after at most three events, as long as
/// incoming substreams can still be taken and the connection lives. It does not matter
/// how many of them wait, nor that none is being taken.
pub proof fn worker_soon_looks_for_requests<E>(
    history: Seq<Happening<E>>,
    first: WorkerEvent<E>,
    second: WorkerEvent<E>,
    third: WorkerEvent<E>,
)
    requires
        is_history(
            history.push(Happening::Worked(first)).push(Happening::Worked(second)).push(
                Happening::Worked(third),
            ),
        ),
        phase_in(history) != Some(WorkerPhase::ClosingAtEnd),
        !tells_the_end(first),
        !tells_the_end(second),
        !tells_the_end(third),
    ensures
        ({
            let one = history.push(Happening::Worked(first));
            let two = one.push(Happening::Worked(second));
            let three = two.push(Happening::Worked(third));
            ||| phase_in(history) == Some(WorkerPhase::PollRequest)
            ||| phase_in(one) == Some(WorkerPhase::PollRequest)
            ||| phase_in(two) == Some(WorkerPhase::PollRequest)
            ||| phase_in(three) == Some(WorkerPhase::PollRequest)
        }),
{
    let one = history.push(Happening::Worked(first));
    let two = one.push(Happening::Worked(second));
    one_more(history, Happening::Worked(first));
    one_more(one, Happening::Worked(second));
    one_more(two, Happening::Worked(third));
    history_has_a_phase(history);
}

/// Once the worker looks for a request, one that is made is taken, served and answered with what
/// came of it, however many incoming substreams wait, and none of those is touched.
pub proof fn requests_are_served_while_substreams_wait<E>(
    history: Seq<Happening<E>>,
    request: YamuxRequest,
    outcome: WorkerEvent<E>,
    reply: WorkerEvent<E>,
)
    requires
        is_history(history),
        phase_in(history) == Some(WorkerPhase::PollRequest),
        comes_of(request, outcome),
        connection_gives(
            history.push(Happening::Worked(WorkerEvent::Request(request))),
            outcome,
        ),
        reply is ReplyDelivered || reply is ReplyDropped,
    ensures
        ({
            let asked = history.push(Happening::Worked(WorkerEvent::Request(request)));
            let served = asked.push(Happening::Worked(outcome));
            let answered = served.push(Happening::Worked(reply));
            &&& is_history(answered)
            &&& action_in(asked) == (match request {
                YamuxRequest::OpenStream => WorkerAction::<E>::OpenOutbound,
                YamuxRequest::Close => WorkerAction::<E>::CloseConnection,
            })
            &&& action_in(served) == (match outcome {
                WorkerEvent::OutboundOpened(id) => WorkerAction::ReplyOpened(Substream::of(id)),
                WorkerEvent::OutboundFailed(err) => WorkerAction::ReplyOpenFailed(err),
                WorkerEvent::ConnectionClosed(result) => WorkerAction::ReplyClosed(result),
                _ => WorkerAction::Suspend,
            })
            &&& phase_in(answered) == Some(WorkerPhase::PollClosed)
            &&& waiting(answered) == waiting(history)
            &&& count_after(answered) == count_after(history) + outcome.substreams()
        }),
{
    let asked = history.push(Happening::Worked(WorkerEvent::Request(request)));
    let served = asked.push(Happening::Worked(outcome));
    one_more(history, Happening::Worked(WorkerEvent::Request(request)));
    one_more(asked, Happening::Worked(outcome));
    one_more(served, Happening::Worked(reply));
}

/// What the requests of a connection's handle do to the connection whose worker takes them. A request
/// to open has the worker open a substream. If the connection, not being closed, opens one,
/// the count rises by one and the request comes to that substream; otherwise the count stays and it
/// comes to the connection's error. A request to close has the worker close the
/// connection, leaves the count, and comes to how that ended.
pub proof fn requests_act_on_their_connection<E>(
    connection: Yamux,
    history: Seq<Happening<E>>,
    id: Id,
    err: E,
    result: Result<(), E>,
)
    requires
        is_history(history),
        connection.arriving().active() == count_after(history),
        phase_in(history) == Some(WorkerPhase::PollRequest),
    ensures
        ({
            let count = connection.arriving().active();
            let open = history.push(
                Happening::Worked(WorkerEvent::Request(connection.handle().request_to_open())),
            );
            let opened = open.push(Happening::Worked(WorkerEvent::OutboundOpened(id)));
            let failed = open.push(Happening::Worked(WorkerEvent::OutboundFailed(err)));
            let close = history.push(
                Happening::Worked(WorkerEvent::Request(connection.handle().request_to_close())),
            );
            let closed = close.push(Happening::Worked(WorkerEvent::ConnectionClosed(result)));
            &&& is_history(opened) <==> !is_closed(history)
            &&& is_history(failed)
            &&& is_history(closed) <==> (is_closed(history) ==> result is Ok)
            &&& action_in(open) is OpenOutbound
            &&& count_after(opened) == count + 1
            &&& action_in(opened) == WorkerAction::<E>::ReplyOpened(Substream::of(id))
            &&& outcome_of_reply(Some(Ok::<Substream, E>(Substream::of(id)))) == Ok::<
                Substream,
                YamuxControlError<E>,
            >(Substream::of(id))
            &&& count_after(failed) == count
            &&& action_in(failed) == WorkerAction::ReplyOpenFailed(err)
            &&& outcome_of_reply(Some(Err::<Substream, E>(err))) == Err::<
                Substream,
                YamuxControlError<E>,
            >(YamuxControlError::Connection(err))
            &&& action_in(close) is CloseConnection
            &&& count_after(closed) == count
            &&& action_in(closed) == WorkerAction::ReplyClosed(result)
            &&& outcome_of_reply(Some(result)) == (match result {
                Ok(()) => Ok::<(), YamuxControlError<E>>(()),
                Err(err) => Err(YamuxControlError::Connection(err)),
            })
        }),
{
    let open = history.push(Happening::Worked(WorkerEvent::Request(YamuxRequest::OpenStream)));
    let close = history.push(Happening::Worked(WorkerEvent::Request(YamuxRequest::Close)));
    one_more(history, Happening::Worked(WorkerEvent::Request(YamuxRequest::OpenStream)));
    one_more(open, Happening::Worked(WorkerEvent::OutboundOpened(id)));
    one_more(open, Happening::Worked(WorkerEvent::OutboundFailed(err)));
    one_more(history, Happening::Worked(WorkerEvent::Request(YamuxRequest::Close)));
    one_more(close, Happening::Worked(WorkerEvent::ConnectionClosed(result)));
}

/// What the worker's action replies to a request to open a substream, if it is such a reply.
pub open spec fn reply_to_open<E>(action: WorkerAction<E>) -> Option<Result<Substream, E>> {
    match action {
        WorkerAction::ReplyOpened(substream) => Some(Ok(substream)),
        WorkerAction::ReplyOpenFailed(err) => Some(Err(err)),
        _ => None,
    }
}

/// What has happened first is a history too, and a connection that is closed stays closed.
proof fn beginnings<E>(history: Seq<Happening<E>>, n: int)
    requires
        is_history(history),
        0 <= n <= history.len(),
    ensures
        is_history(history.take(n)),
        is_closed(history.take(n)) ==> is_closed(history),
        n < history.len() ==> can_follow(history.take(n), history[n]),
    decreases history.len(),
{
    if n == history.len() {
        assert(history.take(n) =~= history);
    } else {
        let before = history.drop_last();
        beginnings(before, n);
        assert(before.take(n) =~= history.take(n));
        if n == before.len() {
            assert(history.take(n) =~= before);
        }
    }
}

/// A connection that was closed stays closed, whatever happens.
pub proof fn closed_is_for_good<E>(history: Seq<Happening<E>>, n: int)
    requires
        is_history(history),
        0 <= n <= history.len(),
        is_closed(history.take(n)),
    ensures
        is_closed(history),
{
    beginnings(history, n);
}

/// A request to close that is answered with success leaves the connection closed, and so
/// does one that is answered with an error.
pub proof fn an_answered_close_has_closed<E>(history: Seq<Happening<E>>, result: Result<(), E>)
    requires
        is_history(history),
        history.len() > 0,
        history.last() is Worked,
        action_in(history) == WorkerAction::ReplyClosed(result),
    ensures
        is_closed(history),
{
    let before = history.drop_last();
    assert(before.push(history.last()) =~= history);
    one_more(before, history.last());
    history_has_a_phase(before);
}

/// Once the connection is closed, every request to open a substream comes to an error, through
/// whichever handle it is made: the worker does not accept it any more, drops it, or replies with
/// the connection's error. No substream is counted on account of it.
pub proof fn opens_fail_once_closed<E>(history: Seq<Happening<E>>, n: int, accepted: bool)
    requires
        is_history(history),
        0 <= n < history.len(),
        is_closed(history.take(n)),
        history.last() is Worked,
    ensures
        outcome_of_request(accepted, reply_to_open(action_in(history))) is Err,
        count_after(history) == count_after(history.drop_last()),
{
    let before = history.drop_last();
    beginnings(before, n);
    assert(before.take(n) =~= history.take(n));
    assert(before.push(history.last()) =~= history);
    one_more(before, history.last());
    history_has_a_phase(before);
}

/// Once the connection is closed, no more streams come: consumers are given those that had come by
/// then, in order, and no others.
pub proof fn no_streams_come_once_closed<E>(history: Seq<Happening<E>>, n: int)
    requires
        is_history(history),
        0 <= n <= history.len(),
        is_closed(history.take(n)),
    ensures
        arrived(history) == arrived(history.take(n)),
        taken(history) + waiting(history) + in_hand(history) == taken(history.take(n)) + waiting(
            history.take(n),
        ) + in_hand(history.take(n)),
    decreases history.len(),
{
    if n == history.len() {
        assert(history.take(n) =~= history);
    } else {
        let before = history.drop_last();
        assert(before.take(n) =~= history.take(n));
        no_streams_come_once_closed(before, n);
        closed_is_for_good(before, n);
        history_has_a_phase(before);
        assert(before.push(history.last()) =~= history);
        one_more(before, history.last());
        assert(arrived(history) == arrived(before));
        incoming_streams_come_in_order(history);
        beginnings(history, n);
        incoming_streams_come_in_order(history.take(n));
    }
}

/// Once a request to close was answered, with success or not, every later request to open a substream
/// comes to an error, whichever handle it is made through, and consumers are given the streams that
/// had come by then and no others.
pub proof fn nothing_opens_after_an_answered_close<E>(
    history: Seq<Happening<E>>,
    n: int,
    result: Result<(), E>,
    accepted: bool,
)
    requires
        is_history(history),
        0 < n < history.len(),
        history[n - 1] is Worked,
        action_in(history.take(n)) == WorkerAction::ReplyClosed(result),
        history.last() is Worked,
    ensures
        outcome_of_request(accepted, reply_to_open(action_in(history))) is Err,
        count_after(history) == count_after(history.drop_last()),
        arrived(history) == arrived(history.take(n)),
        taken(history).is_prefix_of(arrived(history.take(n))),
{
    beginnings(history, n);
    an_answered_close_has_closed(history.take(n), result);
    opens_fail_once_closed(history, n, accepted);
    no_streams_come_once_closed(history, n);
    incoming_streams_come_in_order(history);
    assert(taken(history) =~= arrived(history).take(taken(history).len() as int));
}

/// Once the connection is closed, the incoming side ends: when the worker next looks for a stream
/// of the remote it can only learn the end, and it stops.
pub proof fn worker_stops_once_closed<E>(history: Seq<Happening<E>>, event: WorkerEvent<E>)
    requires
        is_history(history),
        is_closed(history),
        phase_in(history) == Some(WorkerPhase::PollInbound),
    ensures
        can_follow(history, Happening::Worked(event)) <==> event is InboundEnded,
        event is InboundEnded ==> phase_in(history.push(Happening::Worked(event))) == Some(
            WorkerPhase::Stopped(StopReason::InboundEnded),
        ),
{
    one_more(history, Happening::Worked(event));
}

/// Once the worker has stopped, consumers are given what still waits, in order, and then, and only
/// then, the end.
pub proof fn incoming_ends_after_what_waits<E>(
    history: Seq<Happening<E>>,
    reason: StopReason,
    received: Received,
)
    requires
        is_history(history),
        phase_in(history) == Some(WorkerPhase::Stopped(reason)),
        received != Received::Pending,
    ensures
        can_follow(history, Happening::<E>::Polled(received)) <==> received == (
        if waiting(history).len() > 0 {
            Received::Stream(waiting(history)[0])
        } else {
            Received::Closed
        }),
{
}

/// A consumer is told the end only after everything that was handed on was taken, and is given
/// nothing after that.
pub proof fn end_is_told_last<E>(history: Seq<Happening<E>>, n: int)
    requires
        is_history(history),
        0 <= n < history.len(),
        history[n] == Happening::<E>::Polled(Received::Closed),
    ensures
        arrived(history) == taken(history) + in_hand(history),
        taken(history) == taken(history.take(n)),
        waiting(history).len() == 0,
        phase_in(history)->0 is Stopped,
    decreases history.len(),
{
    let before = history.drop_last();
    let last = history.last();
    assert(before.push(last) =~= history);
    one_more(before, last);
    history_has_a_phase(before);
    incoming_streams_come_in_order(history);
    if n < before.len() {
        end_is_told_last(before, n);
        assert(before.take(n) =~= history.take(n));
    } else {
        assert(history.take(n) =~= before);
    }
    assert(taken(history) + Seq::<Id>::empty() =~= taken(history));
    assert(waiting(history) =~= Seq::<Id>::empty());
}

} // verus!
