use burrow::multiplexing::connection::{
    IncomingSubstreams, Mode, NextSubstream, Received, Substream, Yamux, INCOMING_CAPACITY,
    REQUEST_CAPACITY,
};
use burrow::multiplexing::control::{Control, YamuxControlError, YamuxRequest};
use burrow::multiplexing::counter::SubstreamCounter;
use burrow::multiplexing::direction::ConnectionDirection;
use burrow::multiplexing::metrics::{
    inbound_increment, outbound_increment, ReadOutcome, WriteOutcome, TOTAL_BYTES_READ,
    TOTAL_BYTES_WRITTEN,
};
use burrow::multiplexing::worker::{self, StopReason, WorkerAction, WorkerPhase, YamuxWorker};
use burrow::utils::stream_id::{Id, StreamId};

type WorkerEvent = worker::WorkerEvent<&'static str>;

#[test]
fn directions_have_names() {
    assert_eq!(ConnectionDirection::Inbound.as_str(), "inbound");
    assert_eq!(ConnectionDirection::Outbound.as_str(), "outbound");
    assert_eq!(ConnectionDirection::Inbound.to_string(), "Inbound");
    assert_eq!(ConnectionDirection::Outbound.to_string(), "Outbound");
}

#[test]
fn direction_decides_the_mode() {
    let (inbound, worker) = Yamux::upgrade_connection(ConnectionDirection::Inbound);
    assert_eq!(inbound.mode(), Mode::Server);
    assert_eq!(inbound.substream_count(), 0);
    assert_eq!(inbound.get_yamux_control().capacity(), REQUEST_CAPACITY);
    assert_eq!(worker.phase(), WorkerPhase::PollClosed);
    assert_eq!(inbound.into_incoming().capacity(), INCOMING_CAPACITY);
    let (outbound, _) = Yamux::upgrade_connection(ConnectionDirection::Outbound);
    assert_eq!(outbound.mode(), Mode::Client);
    assert_eq!((REQUEST_CAPACITY, INCOMING_CAPACITY), (1, 10));
}

#[test]
fn counter_counts_guards() {
    let mut counter = SubstreamCounter::new();
    assert_eq!(counter.get(), 0);
    let first = counter.new_guard();
    let second = counter.new_guard();
    assert_eq!(counter.get(), 2);
    counter.release(first);
    assert_eq!(counter.get(), 1);
    counter.release(second);
    assert_eq!(counter.get(), 0);
}

#[test]
fn incoming_substreams_are_counted_when_taken() {
    let mut incoming = IncomingSubstreams::new(10, SubstreamCounter::new());
    assert!(matches!(
        incoming.poll_next(Received::Pending),
        NextSubstream::Pending
    ));
    assert_eq!(incoming.substream_count(), 0);
    match incoming.poll_next(Received::Stream(Id::new(4))) {
        NextSubstream::Ready(substream) => {
            assert_eq!(substream.stream_id(), Id::new(4));
            assert_eq!(incoming.substream_count(), 1);
            substream.close(incoming.substream_counter());
        }
        other => panic!("{other:?}"),
    }
    assert_eq!(incoming.substream_count(), 0);
    assert!(matches!(
        incoming.poll_next(Received::Closed),
        NextSubstream::Ended
    ));
    assert_eq!(incoming.substream_count(), 0);
}

#[test]
fn opening_and_closing_leaves_the_count() {
    let mut counter = SubstreamCounter::new();
    let kept = Substream::open(Id::new(1), &mut counter);
    let gone = Substream::open(Id::new(3), &mut counter);
    assert_eq!(counter.get(), 2);
    gone.close(&mut counter);
    assert_eq!(counter.get(), 1);
    assert_eq!(kept.stream_id(), Id::new(1));
}

#[test]
fn requests_and_their_errors() {
    let control = Control::new(1);
    assert_eq!(control.open_stream().request(), YamuxRequest::OpenStream);
    assert_eq!(control.close().request(), YamuxRequest::Close);

    let not_sent = control.open_stream().sent::<u8>(false);
    assert!(matches!(not_sent, Err(YamuxControlError::RequestNotSent)));

    let sent = control.open_stream().sent::<u8>(true).unwrap();
    assert_eq!(
        sent.replied::<u32, u8>(None),
        Err(YamuxControlError::ReplyDropped)
    );

    let sent = control.open_stream().sent::<u8>(true).unwrap();
    assert_eq!(
        sent.replied::<u32, u8>(Some(Err(5))),
        Err(YamuxControlError::Connection(5))
    );

    let sent = control.close().sent::<u8>(true).unwrap();
    assert_eq!(sent.replied::<u32, u8>(Some(Ok(8))), Ok(8));
}

#[test]
fn reads_and_writes_count_bytes() {
    assert_eq!(inbound_increment(ReadOutcome::Done, 0, 512), Some(512));
    assert_eq!(inbound_increment(ReadOutcome::Done, 7, 7), Some(0));
    assert_eq!(inbound_increment(ReadOutcome::Pending, 0, 0), None);
    assert_eq!(inbound_increment(ReadOutcome::Failed, 3, 512), None);
    assert_eq!(outbound_increment(WriteOutcome::Taken(77)), Some(77));
    assert_eq!(outbound_increment(WriteOutcome::Taken(0)), Some(0));
    assert_eq!(outbound_increment(WriteOutcome::Pending), None);
    assert_eq!(outbound_increment(WriteOutcome::Failed), None);
    assert_eq!(TOTAL_BYTES_READ, "comms::substream::total_bytes_read");
    assert_eq!(TOTAL_BYTES_WRITTEN, "comms::substream::total_bytes_written");
}

#[test]
fn bytes_read_in_parts_are_counted_once() {
    let first = inbound_increment(ReadOutcome::Done, 0, 4).unwrap();
    let second = inbound_increment(ReadOutcome::Done, 4, 10).unwrap();
    assert_eq!((first, second), (4, 6));
    assert_eq!(first + second, 10);
}

fn drive(
    worker: &mut YamuxWorker,
    counter: &mut SubstreamCounter,
    events: impl IntoIterator<Item = WorkerEvent>,
) -> String {
    let mut last = String::new();
    for event in events {
        assert!(worker.accepts(&event), "{event:?} in {:?}", worker.phase());
        last = match worker.run(event, counter) {
            WorkerAction::ReplyOpened(substream) => {
                let shown = format!("ReplyOpened {}", substream.stream_id().to_string());
                substream.close(counter);
                shown
            }
            other => format!("{other:?}"),
        };
    }
    last
}

#[test]
fn worker_polls_in_order() {
    let mut worker = YamuxWorker::new();
    let mut counter = SubstreamCounter::new();
    assert_eq!(worker.phase(), WorkerPhase::PollClosed);
    assert_eq!(drive(&mut worker, &mut counter, [WorkerEvent::Pending]), "PollRequest");
    assert_eq!(drive(&mut worker, &mut counter, [WorkerEvent::Pending]), "PollInbound");
    assert_eq!(drive(&mut worker, &mut counter, [WorkerEvent::Pending]), "Suspend");
    assert_eq!(drive(&mut worker, &mut counter, [WorkerEvent::Woken]), "PollIncomingClosed");
    assert_eq!(
        drive(
            &mut worker,
            &mut counter,
            [WorkerEvent::Pending, WorkerEvent::RequestsEnded]
        ),
        "PollInbound"
    );
}

#[test]
fn worker_opens_a_stream_on_request() {
    let mut worker = YamuxWorker::new();
    let mut counter = SubstreamCounter::new();
    assert_eq!(
        drive(
            &mut worker,
            &mut counter,
            [
                WorkerEvent::Pending,
                WorkerEvent::Request(YamuxRequest::OpenStream)
            ]
        ),
        "OpenOutbound"
    );
    match worker.run(WorkerEvent::OutboundOpened(Id::new(7)), &mut counter) {
        WorkerAction::ReplyOpened(substream) => {
            assert_eq!(substream.stream_id(), Id::new(7));
            assert_eq!(counter.get(), 1);
        }
        other => panic!("{other:?}"),
    }
    assert_eq!(
        drive(&mut worker, &mut counter, [WorkerEvent::ReplyDelivered]),
        "PollIncomingClosed"
    );
    assert_eq!(counter.get(), 1);
}

#[test]
fn worker_goes_on_after_a_failed_or_abandoned_request() {
    let mut worker = YamuxWorker::new();
    let mut counter = SubstreamCounter::new();
    let failed = [
        WorkerEvent::Pending,
        WorkerEvent::Request(YamuxRequest::OpenStream),
        WorkerEvent::OutboundFailed("refused"),
    ];
    assert_eq!(drive(&mut worker, &mut counter, failed), "ReplyOpenFailed(\"refused\")");
    assert_eq!(
        drive(&mut worker, &mut counter, [WorkerEvent::ReplyDropped]),
        "PollIncomingClosed"
    );
    let abandoned = [
        WorkerEvent::Pending,
        WorkerEvent::Request(YamuxRequest::OpenStream),
        WorkerEvent::OutboundOpened(Id::new(9)),
    ];
    assert_eq!(drive(&mut worker, &mut counter, abandoned), "ReplyOpened 9");
    assert_eq!(counter.get(), 0);
    let closed = [
        WorkerEvent::ReplyDropped,
        WorkerEvent::Pending,
        WorkerEvent::Request(YamuxRequest::Close),
    ];
    assert_eq!(drive(&mut worker, &mut counter, closed), "CloseConnection");
    assert_eq!(
        drive(&mut worker, &mut counter, [WorkerEvent::ConnectionClosed(Err("reset"))]),
        "ReplyClosed(Err(\"reset\"))"
    );
    assert_eq!(
        drive(&mut worker, &mut counter, [WorkerEvent::ReplyDelivered]),
        "PollIncomingClosed"
    );
}

#[test]
fn worker_hands_on_inbound_streams() {
    let mut worker = YamuxWorker::new();
    let mut counter = SubstreamCounter::new();
    let inbound = || {
        [
            WorkerEvent::Pending,
            WorkerEvent::Pending,
            WorkerEvent::Inbound(Id::new(6)),
        ]
    };
    drive(&mut worker, &mut counter, inbound());
    assert_eq!(worker.phase(), WorkerPhase::Forwarding(Id::new(6)));
    assert_eq!(counter.get(), 0);
    drive(&mut worker, &mut counter, [WorkerEvent::Forwarded]);
    drive(&mut worker, &mut counter, inbound());
    drive(&mut worker, &mut counter, [WorkerEvent::ForwardFailed]);
    assert_eq!(worker.phase(), WorkerPhase::Stopped(StopReason::ForwardFailed));
}

#[test]
fn worker_stops_and_stays_stopped() {
    let cases = [
        (
            vec![WorkerEvent::IncomingClosed, WorkerEvent::ConnectionClosed(Err("reset"))],
            StopReason::IncomingClosed,
        ),
        (
            vec![WorkerEvent::Pending, WorkerEvent::Pending, WorkerEvent::InboundEnded],
            StopReason::InboundEnded,
        ),
        (
            vec![WorkerEvent::Pending, WorkerEvent::Pending, WorkerEvent::InboundFailed],
            StopReason::InboundFailed,
        ),
    ];
    for (events, reason) in cases {
        let mut worker = YamuxWorker::new();
        let mut counter = SubstreamCounter::new();
        assert_eq!(
            drive(&mut worker, &mut counter, events),
            format!("Stop({reason:?})")
        );
        for event in [
            WorkerEvent::Pending,
            WorkerEvent::Woken,
            WorkerEvent::IncomingClosed,
            WorkerEvent::Request(YamuxRequest::Close),
        ] {
            assert!(!worker.accepts(&event));
        }
    }
}

#[test]
fn events_out_of_turn_are_not_accepted() {
    let worker = YamuxWorker::new();
    assert!(worker.accepts(&WorkerEvent::Pending));
    assert!(worker.accepts(&WorkerEvent::IncomingClosed));
    assert!(!worker.accepts(&WorkerEvent::Request(YamuxRequest::OpenStream)));
    assert!(!worker.accepts(&WorkerEvent::Inbound(Id::new(2))));
    assert!(!worker.accepts(&WorkerEvent::ReplyDelivered));
}

#[test]
fn replies_hold_what_came_of_the_request() {
    let mut worker = YamuxWorker::new();
    let mut counter = SubstreamCounter::new();
    let clean = [
        WorkerEvent::Pending,
        WorkerEvent::Request(YamuxRequest::Close),
        WorkerEvent::ConnectionClosed(Ok(())),
    ];
    assert_eq!(drive(&mut worker, &mut counter, clean), "ReplyClosed(Ok(()))");
    drive(&mut worker, &mut counter, [WorkerEvent::ReplyDelivered, WorkerEvent::Pending]);
    let control = Control::new(1);
    let unsent = control.open_stream();
    worker.run(WorkerEvent::Request(unsent.request()), &mut counter);
    match worker.run(WorkerEvent::OutboundFailed("too many"), &mut counter) {
        WorkerAction::ReplyOpenFailed(err) => {
            let sent = unsent.sent::<&'static str>(true).unwrap();
            assert_eq!(
                sent.replied::<u32, &'static str>(Some(Err(err))),
                Err(YamuxControlError::Connection("too many"))
            );
        }
        other => panic!("{other:?}"),
    }
    assert_eq!(counter.get(), 0);
}

#[test]
fn requests_are_served_while_substreams_wait() {
    let (mut connection, mut worker) = Yamux::upgrade_connection(ConnectionDirection::Inbound);
    for n in 0..INCOMING_CAPACITY {
        let forwarded = [
            WorkerEvent::Pending,
            WorkerEvent::Pending,
            WorkerEvent::Inbound(Id::new(n as u32)),
            WorkerEvent::Forwarded,
        ];
        drive(&mut worker, connection.substream_counter(), forwarded);
    }
    assert_eq!(connection.substream_count(), 0);
    let request = connection.get_yamux_control().open_stream().request();
    worker.run(WorkerEvent::Pending, connection.substream_counter());
    worker.run(WorkerEvent::Request(request), connection.substream_counter());
    let opened = worker.run(
        WorkerEvent::OutboundOpened(Id::new(40)),
        connection.substream_counter(),
    );
    assert!(matches!(opened, WorkerAction::ReplyOpened(_)));
    assert_eq!(connection.substream_count(), 1);
    drive(
        &mut worker,
        connection.substream_counter(),
        [WorkerEvent::ReplyDelivered, WorkerEvent::Pending],
    );
    let request = connection.get_yamux_control().close().request();
    let closing = worker.run(WorkerEvent::Request(request), connection.substream_counter());
    assert!(matches!(closing, WorkerAction::CloseConnection));
    assert_eq!(connection.substream_count(), 1);
}

#[test]
fn worker_soon_looks_for_requests() {
    let mut worker = YamuxWorker::new();
    let mut counter = SubstreamCounter::new();
    let mut passes: Vec<Vec<WorkerEvent>> = Vec::new();
    passes.push(vec![WorkerEvent::Pending, WorkerEvent::Woken, WorkerEvent::Pending]);
    passes.push(vec![
        WorkerEvent::Inbound(Id::new(2)),
        WorkerEvent::Forwarded,
        WorkerEvent::Pending,
    ]);
    drive(&mut worker, &mut counter, [WorkerEvent::Pending]);
    for pass in passes {
        drive(&mut worker, &mut counter, [WorkerEvent::Pending]);
        assert_eq!(worker.phase(), WorkerPhase::PollInbound);
        drive(&mut worker, &mut counter, pass);
        assert_eq!(worker.phase(), WorkerPhase::PollRequest);
    }
}

#[test]
fn connection_counts_both_kinds_of_substreams() {
    let (mut connection, mut worker) = Yamux::upgrade_connection(ConnectionDirection::Outbound);
    worker.run(WorkerEvent::Pending, connection.substream_counter());
    worker.run(
        WorkerEvent::Request(YamuxRequest::OpenStream),
        connection.substream_counter(),
    );
    let opened = worker.run(
        WorkerEvent::OutboundOpened(Id::new(1)),
        connection.substream_counter(),
    );
    assert_eq!(connection.substream_count(), 1);
    let taken = connection.incoming_mut().poll_next(Received::Stream(Id::new(2)));
    assert_eq!(connection.substream_count(), 2);
    match opened {
        WorkerAction::ReplyOpened(substream) => substream.close(connection.substream_counter()),
        other => panic!("{other:?}"),
    }
    assert_eq!(connection.substream_count(), 1);
    match taken {
        NextSubstream::Ready(substream) => substream.close(connection.substream_counter()),
        other => panic!("{other:?}"),
    }
    assert_eq!(connection.substream_count(), 0);
}

#[test]
fn opens_fail_and_incoming_ends_after_a_close() {
    let (mut connection, mut worker) = Yamux::upgrade_connection(ConnectionDirection::Inbound);
    let events = [
        WorkerEvent::Pending,
        WorkerEvent::Pending,
        WorkerEvent::Inbound(Id::new(1)),
        WorkerEvent::Forwarded,
        WorkerEvent::Pending,
        WorkerEvent::Request(YamuxRequest::Close),
        WorkerEvent::ConnectionClosed(Ok(())),
    ];
    assert_eq!(
        drive(&mut worker, connection.substream_counter(), events),
        "ReplyClosed(Ok(()))"
    );
    let refused = [
        WorkerEvent::ReplyDelivered,
        WorkerEvent::Pending,
        WorkerEvent::Request(YamuxRequest::OpenStream),
        WorkerEvent::OutboundFailed("closed"),
    ];
    assert_eq!(
        drive(&mut worker, connection.substream_counter(), refused),
        "ReplyOpenFailed(\"closed\")"
    );
    let ended = [
        WorkerEvent::ReplyDropped,
        WorkerEvent::Pending,
        WorkerEvent::RequestsEnded,
        WorkerEvent::InboundEnded,
    ];
    assert_eq!(
        drive(&mut worker, connection.substream_counter(), ended),
        "Stop(InboundEnded)"
    );
    let mut incoming = connection.into_incoming();
    assert!(matches!(
        incoming.poll_next(Received::Stream(Id::new(1))),
        NextSubstream::Ready(_)
    ));
    assert!(matches!(
        incoming.poll_next(Received::Closed),
        NextSubstream::Ended
    ));
}

#[test]
fn serving_a_request_never_stops_the_worker() {
    let requests = || {
        [
            (YamuxRequest::OpenStream, WorkerEvent::OutboundOpened(Id::new(1))),
            (YamuxRequest::OpenStream, WorkerEvent::OutboundFailed("e")),
            (YamuxRequest::Close, WorkerEvent::ConnectionClosed(Ok(()))),
            (YamuxRequest::Close, WorkerEvent::ConnectionClosed(Err("e"))),
        ]
    };
    let mut worker = YamuxWorker::new();
    let mut counter = SubstreamCounter::new();
    for delivered in [true, false] {
        for (request, outcome) in requests() {
            let reply = if delivered {
                WorkerEvent::ReplyDelivered
            } else {
                WorkerEvent::ReplyDropped
            };
            drive(
                &mut worker,
                &mut counter,
                [WorkerEvent::Pending, WorkerEvent::Request(request), outcome, reply],
            );
            assert_eq!(worker.phase(), WorkerPhase::PollClosed);
        }
    }
}

#[test]
fn a_closed_yamux_connection_opens_and_gives_nothing() {
    let socket = futures::io::Cursor::new(Vec::<u8>::new());
    let mut connection =
        yamux::Connection::new(socket, yamux::Config::default(), yamux::Mode::Client);
    let waker = futures::task::noop_waker();
    let mut cx = std::task::Context::from_waker(&waker);
    let mut closed = false;
    for _ in 0..100 {
        if connection.poll_close(&mut cx).is_ready() {
            closed = true;
            break;
        }
    }
    assert!(closed);
    for _ in 0..3 {
        assert!(matches!(
            connection.poll_new_outbound(&mut cx),
            std::task::Poll::Ready(Err(_))
        ));
        assert!(matches!(
            connection.poll_next_inbound(&mut cx),
            std::task::Poll::Ready(None)
        ));
        assert!(matches!(
            connection.poll_close(&mut cx),
            std::task::Poll::Ready(Ok(()))
        ));
    }
}
