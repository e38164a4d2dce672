use burrow::tunnel::command::{command, Command};
use burrow::tunnel::console::Line;
use burrow::tunnel::relay::{
    handle_client_connection, handle_http_tunnel, handle_tunnel, http_line, ByteTotals,
    RelayAction, RelayEvent, Step, WsMessage,
};
use burrow::tunnel::server::{
    after_accept, detect, AcceptAction, AcceptOutcome, Service, SessionEvent, SessionPhase,
    TunnelSession,
};

fn args(words: &[&str]) -> Vec<String> {
    words.iter().map(|word| word.to_string()).collect()
}

#[test]
fn commands() {
    assert_eq!(command(&args(&["program", "server"])), Command::Server);
    assert_eq!(command(&args(&["program", "client"])), Command::Client);
    assert_eq!(command(&args(&["program", "client", "server"])), Command::Client);
    assert_eq!(command(&args(&["program", "Server"])), Command::Usage);
    assert_eq!(command(&args(&["server"])), Command::Usage);
    assert_eq!(command(&args(&[])), Command::Usage);
}

#[test]
fn http_methods_are_detected() {
    for text in ["GET /", "POST /x", "HEAD /", "PUT /", "DELETE /", "OPTIONS "] {
        let bytes = text.as_bytes();
        assert_eq!(detect(bytes, bytes.len()), Service::Http, "{text}");
    }
}

#[test]
fn other_traffic_is_not_http() {
    for text in ["GET", "get /", "PATCH /", "DELETE", "OPTIONS*", "\u{0}\u{0}\u{0}\u{8}"] {
        let bytes = text.as_bytes();
        assert_eq!(detect(bytes, bytes.len()), Service::Tcp, "{text}");
    }
}

#[test]
fn only_peeked_bytes_count() {
    assert_eq!(detect(b"GET / HT", 4), Service::Http);
    assert_eq!(detect(b"GET / HT", 3), Service::Tcp);
    assert_eq!(detect(b"OPTIONS ", 8), Service::Http);
    assert_eq!(detect(b"OPTIONS ", 7), Service::Tcp);
    assert_eq!(detect(b"", 0), Service::Tcp);
}

#[test]
fn services_have_addresses() {
    assert_eq!(Service::Http.port(), 5422);
    assert_eq!(Service::Tcp.port(), 5433);
    assert_eq!(Service::Http.address(), "127.0.0.1:5422");
    assert_eq!(Service::Tcp.address(), "127.0.0.1:5433");
}

#[test]
fn listening_ends_with_a_failure() {
    assert_eq!(
        after_accept(AcceptOutcome::Connection),
        AcceptAction::ServeAndListen
    );
    assert_eq!(after_accept(AcceptOutcome::Failed), AcceptAction::Finish);
}

fn output(line: Option<Line>) -> String {
    match line {
        Some(Line::Output(text)) => text,
        other => panic!("{other:?}"),
    }
}

fn error(line: Option<Line>) -> String {
    match line {
        Some(Line::Error(text)) => text,
        other => panic!("{other:?}"),
    }
}

#[test]
fn session_of_a_http_connection() {
    let mut session = TunnelSession::new();
    assert_eq!(session.phase(), SessionPhase::Peeking);
    assert_eq!(
        output(session.tunnel_server(SessionEvent::Peeked { buf: b"GET / HT", n: 8 })),
        "Detected HTTP traffic, forwarding to 5422"
    );
    assert_eq!(session.phase(), SessionPhase::Accepting(Service::Http));
    assert!(session.tunnel_server(SessionEvent::Accepted).is_none());
    assert_eq!(session.phase(), SessionPhase::Connecting(Service::Http));
    assert!(session.tunnel_server(SessionEvent::Connected).is_none());
    assert_eq!(session.phase(), SessionPhase::Relaying(Service::Http));
    assert!(!session.accepts(&SessionEvent::Connected));
}

#[test]
fn session_of_another_connection() {
    let mut session = TunnelSession::new();
    assert!(!session.accepts(&SessionEvent::Accepted));
    assert_eq!(
        output(session.tunnel_server(SessionEvent::Peeked { buf: &[0, 0, 0, 8, 4, 210, 22, 47], n: 8 })),
        "Detected TCP traffic, forwarding to 5433"
    );
    session.tunnel_server(SessionEvent::Accepted);
    session.tunnel_server(SessionEvent::Connected);
    assert_eq!(session.phase(), SessionPhase::Relaying(Service::Tcp));
}

#[test]
fn sessions_that_are_given_up() {
    let mut session = TunnelSession::new();
    assert_eq!(
        error(session.tunnel_server(SessionEvent::Peeked { buf: &[0u8; 8], n: 0 })),
        "No data received, closing connection."
    );
    assert_eq!(session.phase(), SessionPhase::Closed);

    let mut session = TunnelSession::new();
    assert_eq!(
        error(session.tunnel_server(SessionEvent::PeekFailed("reset".to_string()))),
        "Failed to peek incoming data: reset"
    );
    assert_eq!(session.phase(), SessionPhase::Closed);

    let mut session = TunnelSession::new();
    session.tunnel_server(SessionEvent::Peeked { buf: b"PUT ", n: 4 });
    assert_eq!(
        error(session.tunnel_server(SessionEvent::AcceptFailed("no upgrade".to_string()))),
        "Failed to accept WebSocket connection: no upgrade"
    );
    assert_eq!(session.phase(), SessionPhase::Closed);
    assert!(!session.accepts(&SessionEvent::Accepted));
}

fn sent(step: Step) -> Vec<u8> {
    match step.action {
        RelayAction::Send(bytes) => bytes,
        other => panic!("{other:?}"),
    }
}

fn written(step: Step) -> Vec<u8> {
    match step.action {
        RelayAction::Write(bytes) => bytes,
        other => panic!("{other:?}"),
    }
}

#[test]
fn reads_are_sent() {
    let buf = [1u8, 2, 3, 4, 5];
    assert_eq!(sent(handle_tunnel(RelayEvent::Read { buf: &buf, n: 3 })), vec![1, 2, 3]);
    assert_eq!(sent(handle_http_tunnel(RelayEvent::Read { buf: &buf, n: 5 })), vec![1, 2, 3, 4, 5]);
    let mut totals = ByteTotals::new();
    assert_eq!(
        sent(handle_client_connection(&mut totals, RelayEvent::Read { buf: &buf, n: 1 })),
        vec![1]
    );
}

#[test]
fn binary_messages_are_written() {
    let message = || RelayEvent::Received(WsMessage::Binary(vec![9, 8, 7]));
    assert_eq!(written(handle_tunnel(message())), vec![9, 8, 7]);
    assert_eq!(written(handle_http_tunnel(message())), vec![9, 8, 7]);
    let mut totals = ByteTotals::new();
    assert_eq!(
        written(handle_client_connection(&mut totals, message())),
        vec![9, 8, 7]
    );
    assert_eq!(
        written(handle_tunnel(RelayEvent::Received(WsMessage::Binary(vec![])))),
        Vec::<u8>::new()
    );
}

fn waiting() -> Vec<RelayEvent<'static>> {
    vec![
        RelayEvent::Received(WsMessage::Text),
        RelayEvent::Received(WsMessage::Ping),
        RelayEvent::Received(WsMessage::Pong),
        RelayEvent::Received(WsMessage::Frame),
        RelayEvent::Sent,
        RelayEvent::Written,
    ]
}

fn stopping() -> Vec<RelayEvent<'static>> {
    vec![
        RelayEvent::Read { buf: &[], n: 0 },
        RelayEvent::ReadFailed("x".to_string()),
        RelayEvent::Received(WsMessage::Close),
        RelayEvent::ReceivedAll,
        RelayEvent::ReceiveFailed("x".to_string()),
        RelayEvent::SendFailed("x".to_string()),
        RelayEvent::WriteFailed("x".to_string()),
    ]
}

#[test]
fn relays_wait_and_stop_alike() {
    let mut totals = ByteTotals::new();
    for event in waiting() {
        let step = handle_tunnel(event);
        assert!(step.line.is_none());
        assert!(matches!(step.action, RelayAction::Wait));
    }
    for event in waiting() {
        assert!(matches!(handle_http_tunnel(event).action, RelayAction::Wait));
    }
    for event in waiting() {
        assert!(matches!(
            handle_client_connection(&mut totals, event).action,
            RelayAction::Wait
        ));
    }
    for event in stopping() {
        assert!(matches!(handle_tunnel(event).action, RelayAction::Stop));
    }
    for event in stopping() {
        assert!(matches!(handle_http_tunnel(event).action, RelayAction::Stop));
    }
    for event in stopping() {
        assert!(matches!(
            handle_client_connection(&mut totals, event).action,
            RelayAction::Stop
        ));
    }
    assert_eq!(totals, ByteTotals::new());
}

#[test]
fn lines_of_the_database_relay() {
    let buf = [0u8; 20];
    assert_eq!(
        output(handle_tunnel(RelayEvent::Read { buf: &buf, n: 20 }).line),
        "Writing 20 bytes to websocket"
    );
    assert!(handle_tunnel(RelayEvent::Read { buf: &buf, n: 0 }).line.is_none());
    assert_eq!(
        output(handle_tunnel(RelayEvent::Received(WsMessage::Binary(vec![0; 11]))).line),
        "Received 11 bytes"
    );
    let failures = [
        (RelayEvent::ReadFailed("e".to_string()), "Failed to read from postgres: e"),
        (RelayEvent::WriteFailed("e".to_string()), "Failed to write to postgres: e"),
        (RelayEvent::SendFailed("e".to_string()), "Failed to send to websocket: e"),
        (RelayEvent::ReceiveFailed("e".to_string()), "WebSocket error: e"),
    ];
    for (event, text) in failures {
        assert_eq!(error(handle_tunnel(event).line), text);
    }
}

#[test]
fn lines_of_the_http_relay() {
    let response = b"HTTP/1.1 200 OK\r\n\r\ncaf\xc3\xa9";
    assert_eq!(
        output(handle_http_tunnel(RelayEvent::Read { buf: response, n: response.len() }).line),
        "Forwarding HTTP Response:\nHTTP/1.1 200 OK\r\n\r\ncaf\u{e9}"
    );
    assert_eq!(
        output(handle_http_tunnel(RelayEvent::Read { buf: response, n: 0 }).line),
        "HTTP connection closed by server."
    );
    assert_eq!(
        output(handle_http_tunnel(RelayEvent::Received(WsMessage::Binary(b"GET / \xff!".to_vec()))).line),
        "Received HTTP Request:\nGET / \u{fffd}!"
    );
    let failures = [
        (RelayEvent::ReadFailed("e".to_string()), "Failed to read from HTTP service: e"),
        (RelayEvent::WriteFailed("e".to_string()), "Failed to write HTTP request to service: e"),
        (RelayEvent::SendFailed("e".to_string()), "Failed to send HTTP response to WebSocket: e"),
        (RelayEvent::ReceiveFailed("e".to_string()), "WebSocket error: e"),
    ];
    for (event, text) in failures {
        assert_eq!(error(handle_http_tunnel(event).line), text);
    }
    assert_eq!(
        output(http_line(&RelayEvent::Read { buf: &[7], n: 1 }, "seven")),
        "Forwarding HTTP Response:\nseven"
    );
}

#[test]
fn client_counts_and_reports() {
    let mut totals = ByteTotals::new();
    let buf = [0u8; 100];
    assert_eq!(
        output(handle_client_connection(&mut totals, RelayEvent::Read { buf: &buf, n: 100 }).line),
        "Sending 100 bytes (total: 100)"
    );
    assert_eq!(
        output(handle_client_connection(&mut totals, RelayEvent::Read { buf: &buf, n: 23 }).line),
        "Sending 23 bytes (total: 123)"
    );
    assert_eq!(
        output(
            handle_client_connection(
                &mut totals,
                RelayEvent::Received(WsMessage::Binary(vec![0; 7]))
            )
            .line
        ),
        "Received 7 bytes (total: 7)"
    );
    let failures = [
        (RelayEvent::ReadFailed("e".to_string()), "Failed to read from local stream: e"),
        (RelayEvent::WriteFailed("e".to_string()), "Failed to write to local stream: e"),
        (RelayEvent::SendFailed("e".to_string()), "Failed to send to websocket: e"),
        (RelayEvent::ReceiveFailed("e".to_string()), "WebSocket error: e"),
    ];
    for (event, text) in failures {
        assert_eq!(error(handle_client_connection(&mut totals, event).line), text);
    }
    assert_eq!(totals, ByteTotals { sent: 123, received: 7 });
    assert_eq!(
        output(Some(totals.closing_line())),
        "Connection closed. Total bytes: sent=123, received=7"
    );
}

#[test]
fn totals_that_would_not_fit_are_noticed() {
    let full = ByteTotals { sent: usize::MAX, received: usize::MAX - 2 };
    assert!(!full.fit_with(&RelayEvent::Read { buf: &[1], n: 1 }));
    assert!(full.fit_with(&RelayEvent::Read { buf: &[1], n: 0 }));
    assert!(full.fit_with(&RelayEvent::Received(WsMessage::Binary(vec![1, 2]))));
    assert!(!full.fit_with(&RelayEvent::Received(WsMessage::Binary(vec![1, 2, 3]))));
    assert!(full.fit_with(&RelayEvent::ReceivedAll));
}

#[test]
fn bytes_pass_through_both_ends_in_order() {
    let mut totals = ByteTotals::new();
    let mut arrived = Vec::new();
    for chunk in [&b"SELECT "[..], &b"1"[..], &b";\n"[..]] {
        let mut buf = [0u8; 16];
        buf[..chunk.len()].copy_from_slice(chunk);
        let message = sent(handle_client_connection(
            &mut totals,
            RelayEvent::Read { buf: &buf, n: chunk.len() },
        ));
        handle_tunnel(RelayEvent::Received(WsMessage::Ping));
        arrived.extend(written(handle_tunnel(RelayEvent::Received(WsMessage::Binary(message)))));
    }
    assert_eq!(arrived, b"SELECT 1;\n");
    assert_eq!(totals.sent, arrived.len());
}

#[test]
fn more_bytes_do_not_change_the_service() {
    assert_eq!(detect(b"HEAD / HTTP/1.1\r\n", 17), detect(b"HEAD / HTTP/1.1\r\n", 8));
    assert_eq!(detect(b"OPTIONS * HTTP/1.1", 18), Service::Http);
    assert_eq!(detect(b"CONNECT x HTTP/1.1", 18), detect(b"CONNECT x HTTP/1.1", 8));
    for n in 4..8 {
        assert_eq!(detect(b"GET / HT", n), Service::Http);
    }
}

#[test]
fn relay_sends_one_by_one_until_a_failure() {
    let reads = [&b"a"[..], &b"bc"[..], &b"d"[..], &b"e"[..]];
    let mut outcomes = vec![
        RelayEvent::SendFailed("gone".to_string()),
        RelayEvent::Sent,
        RelayEvent::Sent,
    ];
    let mut next_read = 0;
    let mut messages = Vec::new();
    let mut action = RelayAction::Wait;
    loop {
        let step = match action {
            RelayAction::Wait => {
                let buf = reads[next_read];
                next_read += 1;
                handle_tunnel(RelayEvent::Read { buf, n: buf.len() })
            }
            RelayAction::Send(bytes) => {
                messages.push(bytes);
                handle_tunnel(outcomes.pop().unwrap())
            }
            RelayAction::Write(_) => panic!("nothing was received"),
            RelayAction::Stop => break,
        };
        action = step.action;
    }
    assert_eq!(messages, vec![b"a".to_vec(), b"bc".to_vec(), b"d".to_vec()]);
    assert_eq!(next_read, 3);
}
