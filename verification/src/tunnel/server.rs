//! How the tunnel server treats a connection, up to the point where it relays.

use vstd::prelude::*;
use vstd::string::is_ascii_spec_bytes;

use crate::text::decimal;
use crate::text::digits;
use crate::tunnel::console::failure;
use crate::tunnel::console::joined;
use crate::tunnel::console::Line;
use crate::tunnel::console::Shown;
use crate::tunnel::console::shown;

verus! {

/// The port of the HTTP service behind the tunnel.
pub const HTTP_PORT: u16 = 5422;

/// The port of the other service behind the tunnel, a PostgreSQL database.
pub const TCP_PORT: u16 = 5433;

/// How many bytes of a connection are looked at to tell where it goes.
pub const PEEK_SIZE: usize = 8;

/// The services behind the tunnel.
#[derive(Debug, Clone, Copy, PartialEq, Eq, Structural)]
pub enum Service {
    /// The HTTP service.
    Http,
    /// The database.
    Tcp,
}

/// Whether `bytes` begin with an ASCII text.
pub open spec fn begin_with(bytes: Seq<u8>, text: Seq<char>) -> bool {
    &&& text.len() <= bytes.len()
    &&& forall|i: int| 0 <= i < text.len() ==> bytes[i] == #[trigger] text[i] as u8
}

/// Whether a connection that begins with `bytes` speaks HTTP: they begin with one of
/// the methods GET, POST, HEAD, PUT, DELETE and OPTIONS, and a space.
pub open spec fn is_http(bytes: Seq<u8>) -> bool {
    ||| begin_with(bytes, "GET "@)
    ||| begin_with(bytes, "POST "@)
    ||| begin_with(bytes, "HEAD "@)
    ||| begin_with(bytes, "PUT "@)
    ||| begin_with(bytes, "DELETE "@)
    ||| begin_with(bytes, "OPTIONS "@)
}

/// The service for a connection that begins with `bytes`.
pub open spec fn service_for(bytes: Seq<u8>) -> Service {
    if is_http(bytes) {
        Service::Http
    } else {
        Service::Tcp
    }
}

/// Bytes begin with a text exactly if they begin with the bytes that spell it.
proof fn spelled_out(bytes: Seq<u8>, text: Seq<char>, spelled: Seq<u8>)
    requires
        spelled.len() == text.len(),
        forall|i: int| 0 <= i < text.len() ==> spelled[i] == #[trigger] text[i] as u8,
    ensures
        begin_with(bytes, text) <==> spelled.is_prefix_of(bytes),
{
    if begin_with(bytes, text) {
        assert forall|i: int| 0 <= i < spelled.len() implies spelled[i] == bytes[i] by {
            assert(bytes[i] == text[i] as u8);
        }
        assert(spelled =~= bytes.take(spelled.len() as int));
    }
    if spelled.is_prefix_of(bytes) {
        assert forall|i: int| 0 <= i < text.len() implies bytes[i] == #[trigger] text[i] as u8 by {
            assert(spelled[i] == bytes.take(spelled.len() as int)[i]);
        }
    }
}

/// A connection goes to the HTTP service exactly if its first bytes are the ASCII codes of GET, POST,
/// HEAD, PUT, DELETE or OPTIONS, and a space; every other one goes to the database.
pub proof fn http_is_told_by_its_methods(bytes: Seq<u8>)
    ensures
        service_for(bytes) == Service::Http <==> {
            ||| seq![0x47u8, 0x45, 0x54, 0x20].is_prefix_of(bytes)
            ||| seq![0x50u8, 0x4f, 0x53, 0x54, 0x20].is_prefix_of(bytes)
            ||| seq![0x48u8, 0x45, 0x41, 0x44, 0x20].is_prefix_of(bytes)
            ||| seq![0x50u8, 0x55, 0x54, 0x20].is_prefix_of(bytes)
            ||| seq![0x44u8, 0x45, 0x4c, 0x45, 0x54, 0x45, 0x20].is_prefix_of(bytes)
            ||| seq![0x4fu8, 0x50, 0x54, 0x49, 0x4f, 0x4e, 0x53, 0x20].is_prefix_of(bytes)
        },
        service_for(bytes) == Service::Tcp <==> service_for(bytes) != Service::Http,
{
    reveal_strlit("GET ");
    spelled_out(bytes, "GET "@, seq![0x47u8, 0x45, 0x54, 0x20]);
    reveal_strlit("POST ");
    spelled_out(bytes, "POST "@, seq![0x50u8, 0x4f, 0x53, 0x54, 0x20]);
    reveal_strlit("HEAD ");
    spelled_out(bytes, "HEAD "@, seq![0x48u8, 0x45, 0x41, 0x44, 0x20]);
    reveal_strlit("PUT ");
    spelled_out(bytes, "PUT "@, seq![0x50u8, 0x55, 0x54, 0x20]);
    reveal_strlit("DELETE ");
    spelled_out(bytes, "DELETE "@, seq![0x44u8, 0x45, 0x4c, 0x45, 0x54, 0x45, 0x20]);
    reveal_strlit("OPTIONS ");
    spelled_out(bytes, "OPTIONS "@, seq![0x4fu8, 0x50, 0x54, 0x49, 0x4f, 0x4e, 0x53, 0x20]);
}

/// Whatever follows a method and its space, the connection goes to the HTTP service.
pub proof fn every_request_with_a_method_is_http(rest: Seq<u8>)
    ensures
        service_for(seq![0x47u8, 0x45, 0x54, 0x20] + rest) == Service::Http,
        service_for(seq![0x50u8, 0x4f, 0x53, 0x54, 0x20] + rest) == Service::Http,
        service_for(seq![0x48u8, 0x45, 0x41, 0x44, 0x20] + rest) == Service::Http,
        service_for(seq![0x50u8, 0x55, 0x54, 0x20] + rest) == Service::Http,
        service_for(seq![0x44u8, 0x45, 0x4c, 0x45, 0x54, 0x45, 0x20] + rest) == Service::Http,
        service_for(seq![0x4fu8, 0x50, 0x54, 0x49, 0x4f, 0x4e, 0x53, 0x20] + rest) == Service::Http,
{
    assert(seq![0x47u8, 0x45, 0x54, 0x20] =~= (seq![0x47u8, 0x45, 0x54, 0x20] + rest).take(seq![0x47u8, 0x45, 0x54, 0x20].len() as int));
    http_is_told_by_its_methods(seq![0x47u8, 0x45, 0x54, 0x20] + rest);
    assert(seq![0x50u8, 0x4f, 0x53, 0x54, 0x20] =~= (seq![0x50u8, 0x4f, 0x53, 0x54, 0x20] + rest).take(seq![0x50u8, 0x4f, 0x53, 0x54, 0x20].len() as int));
    http_is_told_by_its_methods(seq![0x50u8, 0x4f, 0x53, 0x54, 0x20] + rest);
    assert(seq![0x48u8, 0x45, 0x41, 0x44, 0x20] =~= (seq![0x48u8, 0x45, 0x41, 0x44, 0x20] + rest).take(seq![0x48u8, 0x45, 0x41, 0x44, 0x20].len() as int));
    http_is_told_by_its_methods(seq![0x48u8, 0x45, 0x41, 0x44, 0x20] + rest);
    assert(seq![0x50u8, 0x55, 0x54, 0x20] =~= (seq![0x50u8, 0x55, 0x54, 0x20] + rest).take(seq![0x50u8, 0x55, 0x54, 0x20].len() as int));
    http_is_told_by_its_methods(seq![0x50u8, 0x55, 0x54, 0x20] + rest);
    assert(seq![0x44u8, 0x45, 0x4c, 0x45, 0x54, 0x45, 0x20] =~= (seq![0x44u8, 0x45, 0x4c, 0x45, 0x54, 0x45, 0x20] + rest).take(seq![0x44u8, 0x45, 0x4c, 0x45, 0x54, 0x45, 0x20].len() as int));
    http_is_told_by_its_methods(seq![0x44u8, 0x45, 0x4c, 0x45, 0x54, 0x45, 0x20] + rest);
    assert(seq![0x4fu8, 0x50, 0x54, 0x49, 0x4f, 0x4e, 0x53, 0x20] =~= (seq![0x4fu8, 0x50, 0x54, 0x49, 0x4f, 0x4e, 0x53, 0x20] + rest).take(seq![0x4fu8, 0x50, 0x54, 0x49, 0x4f, 0x4e, 0x53, 0x20].len() as int));
    http_is_told_by_its_methods(seq![0x4fu8, 0x50, 0x54, 0x49, 0x4f, 0x4e, 0x53, 0x20] + rest);
}

/// As many bytes as are peeked are enough: the service does not depend on those that follow.
pub proof fn peeked_bytes_are_enough(bytes: Seq<u8>)
    requires
        bytes.len() >= PEEK_SIZE,
    ensures
        PEEK_SIZE == "OPTIONS "@.len(),
        service_for(bytes) == service_for(bytes.take(PEEK_SIZE as int)),
{
    reveal_strlit("GET ");
    reveal_strlit("POST ");
    reveal_strlit("HEAD ");
    reveal_strlit("PUT ");
    reveal_strlit("DELETE ");
    reveal_strlit("OPTIONS ");
    let peeked = bytes.take(PEEK_SIZE as int);
    assert forall|text: Seq<char>| text.len() <= PEEK_SIZE implies #[trigger] begin_with(
        bytes,
        text,
    ) == begin_with(peeked, text) by {
        if begin_with(peeked, text) {
            assert forall|i: int| 0 <= i < text.len() implies bytes[i] == #[trigger] text[i] as u8 by {
                assert(peeked[i] == text[i] as u8);
            }
        }
        if begin_with(bytes, text) {
            assert forall|i: int| 0 <= i < text.len() implies peeked[i] == #[trigger] text[i] as u8 by {
                assert(bytes[i] == text[i] as u8);
            }
        }
    }
}

/// Once a connection is seen to speak HTTP, seeing more of it changes nothing.
pub proof fn http_is_seen_early(bytes: Seq<u8>, more: Seq<u8>)
    requires
        is_http(bytes),
    ensures
        is_http(bytes + more),
{
    assert forall|text: Seq<char>| #[trigger] begin_with(bytes, text) implies begin_with(
        bytes + more,
        text,
    ) by {
        assert forall|i: int| 0 <= i < text.len() implies (bytes + more)[i] == #[trigger] text[i] as u8 by {
            assert(bytes[i] == text[i] as u8);
        }
    }
    assert(begin_with(bytes, "GET "@) ==> begin_with(bytes + more, "GET "@));
    assert(begin_with(bytes, "POST "@) ==> begin_with(bytes + more, "POST "@));
    assert(begin_with(bytes, "HEAD "@) ==> begin_with(bytes + more, "HEAD "@));
    assert(begin_with(bytes, "PUT "@) ==> begin_with(bytes + more, "PUT "@));
    assert(begin_with(bytes, "DELETE "@) ==> begin_with(bytes + more, "DELETE "@));
    assert(begin_with(bytes, "OPTIONS "@) ==> begin_with(bytes + more, "OPTIONS "@));
}

fn starts_with(bytes: &[u8], n: usize, text: &str) -> (found: bool)
    requires
        n <= bytes@.len(),
        text.is_ascii(),
    ensures
        found == begin_with(bytes@.take(n as int), text@),
{
    broadcast use is_ascii_spec_bytes;

    let prefix = text.as_bytes();
    if prefix.len() > n {
        return false;
    }
    let mut i: usize = 0;
    while i < prefix.len()
        invariant
            i <= prefix@.len() <= n <= bytes@.len(),
            prefix@.len() == text@.len(),
            forall|j: int| 0 <= j < prefix@.len() ==> #[trigger] prefix@[j] == text@[j] as u8,
            forall|j: int| 0 <= j < i ==> bytes@[j] == #[trigger] text@[j] as u8,
        decreases prefix@.len() - i,
    {
        if bytes[i] != prefix[i] {
            assert(bytes@.take(n as int)[i as int] != text@[i as int] as u8);
            return false;
        }
        i = i + 1;
    }
    true
}

/// The service for a connection of which the first `n` bytes of `buf` were peeked.
pub fn detect(buf: &[u8], n: usize) -> (service: Service)
    requires
        n <= buf@.len(),
    ensures
        service == service_for(buf@.take(n as int)),
        service == Service::Http <==> {
            ||| seq![0x47u8, 0x45, 0x54, 0x20].is_prefix_of(buf@.take(n as int))
            ||| seq![0x50u8, 0x4f, 0x53, 0x54, 0x20].is_prefix_of(buf@.take(n as int))
            ||| seq![0x48u8, 0x45, 0x41, 0x44, 0x20].is_prefix_of(buf@.take(n as int))
            ||| seq![0x50u8, 0x55, 0x54, 0x20].is_prefix_of(buf@.take(n as int))
            ||| seq![0x44u8, 0x45, 0x4c, 0x45, 0x54, 0x45, 0x20].is_prefix_of(buf@.take(n as int))
            ||| seq![0x4fu8, 0x50, 0x54, 0x49, 0x4f, 0x4e, 0x53, 0x20].is_prefix_of(buf@.take(n as int))
        },
{
    proof {
        http_is_told_by_its_methods(buf@.take(n as int));
        reveal_strlit("GET ");
        reveal_strlit("POST ");
        reveal_strlit("HEAD ");
        reveal_strlit("PUT ");
        reveal_strlit("DELETE ");
        reveal_strlit("OPTIONS ");
    }
    if starts_with(buf, n, "GET ") || starts_with(buf, n, "POST ") || starts_with(buf, n, "HEAD ")
        || starts_with(buf, n, "PUT ") || starts_with(buf, n, "DELETE ") || starts_with(
        buf,
        n,
        "OPTIONS ",
    ) {
        Service::Http
    } else {
        Service::Tcp
    }
}

impl Service {
    /// The port of the service.
    pub open spec fn target(self) -> u16 {
        match self {
            Service::Http => HTTP_PORT,
            Service::Tcp => TCP_PORT,
        }
    }

    /// The service is known by its port.
    pub proof fn port_tells_service(self, other: Service)
        ensures
            self.target() == other.target() <==> self == other,
    {
    }

    /// The port of the service.
    pub fn port(self) -> (port: u16)
        ensures
            port == self.target(),
    {
        match self {
            Service::Http => HTTP_PORT,
            Service::Tcp => TCP_PORT,
        }
    }

    /// Where the service is found: its port on this machine.
    pub fn address(self) -> (address: String)
        ensures
            address@ == "127.0.0.1:"@ + digits(self.target() as nat),
    {
        joined("127.0.0.1:", decimal(self.port() as u64).as_str())
    }
}

/// What came of listening for a connection.
#[derive(Debug, Clone, Copy, PartialEq, Eq, Structural)]
pub enum AcceptOutcome {
    /// A connection came.
    Connection,
    /// The listener failed.
    Failed,
}

/// What a listening end does next.
#[derive(Debug, Clone, Copy, PartialEq, Eq, Structural)]
pub enum AcceptAction {
    /// Serve the connection on the side and listen on.
    ServeAndListen,
    /// Listen no more and end without an error.
    Finish,
}

/// A listening end, server or client, serves every connection that comes, and ends at
/// the first failure to accept one.
pub fn after_accept(outcome: AcceptOutcome) -> (action: AcceptAction)
    ensures
        action == (match outcome {
            AcceptOutcome::Connection => AcceptAction::ServeAndListen,
            AcceptOutcome::Failed => AcceptAction::Finish,
        }),
{
    match outcome {
        AcceptOutcome::Connection => AcceptAction::ServeAndListen,
        AcceptOutcome::Failed => AcceptAction::Finish,
    }
}

/// What a connection to the server is at.
#[derive(Debug, Clone, Copy, PartialEq, Eq, Structural)]
pub enum SessionPhase {
    /// Its first bytes are looked at, without taking them.
    Peeking,
    /// The WebSocket handshake, for a connection that goes to this service.
    Accepting(Service),
    /// The service is being connected to.
    Connecting(Service),
    /// The tunnel to the service is up.
    Relaying(Service),
    /// The connection is given up.
    Closed,
}

/// What became of what the session was at. Errors come with their text.
#[derive(Debug)]
pub enum SessionEvent<'a> {
    /// The first `n` bytes of `buf` were peeked.
    Peeked { buf: &'a [u8], n: usize },
    /// Peeking failed.
    PeekFailed(String),
    /// The handshake succeeded.
    Accepted,
    /// The handshake failed.
    AcceptFailed(String),
    /// The service was connected to.
    Connected,
}

/// The content of a [`SessionEvent`].
pub enum SessionInput {
    /// These bytes were peeked.
    Peeked(Seq<u8>),
    /// Peeking failed.
    PeekFailed(Seq<char>),
    /// The handshake succeeded.
    Accepted,
    /// The handshake failed.
    AcceptFailed(Seq<char>),
    /// The service was connected to.
    Connected,
}

impl<'a> View for SessionEvent<'a> {
    type V = SessionInput;

    open spec fn view(&self) -> SessionInput {
        match self {
            SessionEvent::Peeked { buf, n } => SessionInput::Peeked(buf@.take(*n as int)),
            SessionEvent::PeekFailed(why) => SessionInput::PeekFailed(why@),
            SessionEvent::Accepted => SessionInput::Accepted,
            SessionEvent::AcceptFailed(why) => SessionInput::AcceptFailed(why@),
            SessionEvent::Connected => SessionInput::Connected,
        }
    }
}

impl<'a> SessionEvent<'a> {
    /// No more was peeked than the buffer holds.
    pub open spec fn fits(&self) -> bool {
        self matches SessionEvent::Peeked { buf, n } ==> *n <= buf@.len()
    }
}

impl SessionPhase {
    /// The phase that follows when something happens in this one; none if it cannot happen.
    pub open spec fn after(self, input: SessionInput) -> Option<SessionPhase> {
        match (self, input) {
            (SessionPhase::Peeking, SessionInput::Peeked(bytes)) => Some(
                if bytes.len() > 0 {
                    SessionPhase::Accepting(service_for(bytes))
                } else {
                    SessionPhase::Closed
                },
            ),
            (SessionPhase::Peeking, SessionInput::PeekFailed(_)) => Some(SessionPhase::Closed),
            (SessionPhase::Accepting(service), SessionInput::Accepted) => Some(
                SessionPhase::Connecting(service),
            ),
            (SessionPhase::Accepting(_), SessionInput::AcceptFailed(_)) => Some(
                SessionPhase::Closed,
            ),
            (SessionPhase::Connecting(service), SessionInput::Connected) => Some(
                SessionPhase::Relaying(service),
            ),
            _ => None,
        }
    }
}

/// What the server shows when something happens to a connection.
pub open spec fn session_shown(input: SessionInput) -> Option<Shown> {
    match input {
        SessionInput::Peeked(bytes) => Some(
            if bytes.len() == 0 {
                Shown::Error("No data received, closing connection."@)
            } else if is_http(bytes) {
                Shown::Output("Detected HTTP traffic, forwarding to "@ + digits(HTTP_PORT as nat))
            } else {
                Shown::Output("Detected TCP traffic, forwarding to "@ + digits(TCP_PORT as nat))
            },
        ),
        SessionInput::PeekFailed(why) => Some(
            Shown::Error("Failed to peek incoming data: "@ + why),
        ),
        SessionInput::AcceptFailed(why) => Some(
            Shown::Error("Failed to accept WebSocket connection: "@ + why),
        ),
        _ => None,
    }
}

/// A connection to the tunnel server. What its phase names is to be done next; in
/// [`SessionPhase::Relaying`] the relay takes over.
#[derive(Debug)]
pub struct TunnelSession {
    phase: SessionPhase,
}

impl View for TunnelSession {
    type V = SessionPhase;

    closed spec fn view(&self) -> SessionPhase {
        self.phase
    }
}

impl TunnelSession {
    /// A connection of which nothing is known yet.
    pub fn new() -> (session: Self)
        ensures
            session@ == SessionPhase::Peeking,
    {
        TunnelSession { phase: SessionPhase::Peeking }
    }

    /// What the connection is at, and so what is to be done.
    pub fn phase(&self) -> (phase: SessionPhase)
        ensures
            phase == self@,
    {
        self.phase
    }

    /// The phase that follows, if the event can come now.
    fn follow(&self, event: &SessionEvent) -> (next: Option<SessionPhase>)
        requires
            event.fits(),
        ensures
            next == self@.after(event@),
    {
        match (self.phase, event) {
            (SessionPhase::Peeking, SessionEvent::Peeked { buf, n }) => {
                if *n > 0 {
                    Some(SessionPhase::Accepting(detect(buf, *n)))
                } else {
                    Some(SessionPhase::Closed)
                }
            },
            (SessionPhase::Peeking, SessionEvent::PeekFailed(_)) => Some(SessionPhase::Closed),
            (SessionPhase::Accepting(service), SessionEvent::Accepted) => {
                Some(SessionPhase::Connecting(service))
            },
            (SessionPhase::Accepting(_), SessionEvent::AcceptFailed(_)) => {
                Some(SessionPhase::Closed)
            },
            (SessionPhase::Connecting(service), SessionEvent::Connected) => {
                Some(SessionPhase::Relaying(service))
            },
            _ => None,
        }
    }

    /// Whether `event` can come of what the connection is at.
    pub fn accepts(&self, event: &SessionEvent) -> (accepted: bool)
        requires
            event.fits(),
        ensures
            accepted == self@.after(event@) is Some,
    {
        self.follow(event).is_some()
    }

    /// Takes in what happened and says what to show.
    pub fn tunnel_server(&mut self, event: SessionEvent) -> (line: Option<Line>)
        requires
            event.fits(),
            old(self)@.after(event@) is Some,
        ensures
            match event {
                SessionEvent::Peeked { buf, n } => {
                    let bytes = buf@.take(n as int);
                    &&& old(self)@ == SessionPhase::Peeking
                    &&& if n == 0 {
                        &&& final(self)@ == SessionPhase::Closed
                        &&& line matches Some(Line::Error(text)) && text@
                            == "No data received, closing connection."@
                    } else if service_for(bytes) == Service::Http {
                        &&& final(self)@ == SessionPhase::Accepting(Service::Http)
                        &&& line matches Some(Line::Output(text)) && text@
                            == "Detected HTTP traffic, forwarding to "@ + digits(5422)
                    } else {
                        &&& final(self)@ == SessionPhase::Accepting(Service::Tcp)
                        &&& line matches Some(Line::Output(text)) && text@
                            == "Detected TCP traffic, forwarding to "@ + digits(5433)
                    }
                },
                SessionEvent::PeekFailed(why) => {
                    &&& old(self)@ == SessionPhase::Peeking
                    &&& final(self)@ == SessionPhase::Closed
                    &&& line matches Some(Line::Error(text)) && text@
                        == "Failed to peek incoming data: "@ + why@
                },
                SessionEvent::Accepted => {
                    &&& old(self)@ matches SessionPhase::Accepting(service) && final(self)@
                        == SessionPhase::Connecting(service)
                    &&& line is None
                },
                SessionEvent::AcceptFailed(why) => {
                    &&& old(self)@ is Accepting
                    &&& final(self)@ == SessionPhase::Closed
                    &&& line matches Some(Line::Error(text)) && text@
                        == "Failed to accept WebSocket connection: "@ + why@
                },
                SessionEvent::Connected => {
                    &&& old(self)@ matches SessionPhase::Connecting(service) && final(self)@
                        == SessionPhase::Relaying(service)
                    &&& line is None
                },
            },
            Some(final(self)@) == old(self)@.after(event@),
            shown(line) == session_shown(event@),
    {
        if let Some(next) = self.follow(&event) {
            self.phase = next;
        }
        match event {
            SessionEvent::Peeked { buf, n } => {
                if n == 0 {
                    Some(Line::Error("No data received, closing connection.".to_owned()))
                } else {
                    let service = detect(buf, n);
                    let port = decimal(service.port() as u64);
                    match service {
                        Service::Http => Some(
                            Line::Output(
                                joined("Detected HTTP traffic, forwarding to ", port.as_str()),
                            ),
                        ),
                        Service::Tcp => Some(
                            Line::Output(
                                joined("Detected TCP traffic, forwarding to ", port.as_str()),
                            ),
                        ),
                    }
                }
            },
            SessionEvent::PeekFailed(why) => Some(
                failure("Failed to peek incoming data: ", why.as_str()),
            ),
            SessionEvent::AcceptFailed(why) => Some(
                failure("Failed to accept WebSocket connection: ", why.as_str()),
            ),
            SessionEvent::Accepted => None,
            SessionEvent::Connected => None,
        }
    }
}

/// At each point of a connection exactly what was tried there can succeed or fail: the peek at first, the
/// handshake next, then reaching the service. Nothing comes after that, or once the connection was
/// given up.
pub proof fn each_step_has_its_outcomes(phase: SessionPhase, input: SessionInput)
    ensures
        phase.after(input) is Some <==> match phase {
            SessionPhase::Peeking => input is Peeked || input is PeekFailed,
            SessionPhase::Accepting(_) => input is Accepted || input is AcceptFailed,
            SessionPhase::Connecting(_) => input is Connected,
            SessionPhase::Relaying(_) => false,
            SessionPhase::Closed => false,
        },
{
}

/// Any peek into a buffer that holds the bytes peeked can be handed in, and so can anything else
/// that happens, and what was peeked are the first bytes of the buffer.
pub proof fn every_peek_can_be_handed_in(event: SessionEvent<'_>)
    ensures
        event.fits() <==> (event matches SessionEvent::Peeked { buf, n } ==> n <= buf@.len()),
        event matches SessionEvent::Peeked { buf, n } ==> event@ == SessionInput::Peeked(
            buf@.take(n as int),
        ),
        event is PeekFailed <==> event@ is PeekFailed,
        event is Accepted <==> event@ is Accepted,
        event is AcceptFailed <==> event@ is AcceptFailed,
        event is Connected <==> event@ is Connected,
{
}

/// The phase of a connection to which all of this has happened, one after the other; none
/// if something could not have happened when it did.
pub open spec fn session_after(inputs: Seq<SessionInput>) -> Option<SessionPhase>
    decreases inputs.len(),
{
    if inputs.len() == 0 {
        Some(SessionPhase::Peeking)
    } else {
        match session_after(inputs.drop_last()) {
            Some(phase) => phase.after(inputs.last()),
            None => None,
        }
    }
}

/// A connection is relayed exactly after some of its bytes were peeked, the handshake was made and
/// the service was reached, and it is relayed to the service that those
/// bytes call for.
pub proof fn relayed_to_the_service_detected(inputs: Seq<SessionInput>, service: Service)
    ensures
        session_after(inputs) == Some(SessionPhase::Relaying(service)) <==> {
            &&& inputs.len() == 3
            &&& inputs[0] matches SessionInput::Peeked(bytes)
            &&& bytes.len() > 0
            &&& service == service_for(bytes)
            &&& inputs[1] == SessionInput::Accepted
            &&& inputs[2] == SessionInput::Connected
        },
{
    reveal_with_fuel(session_after, 4);
    if inputs.len() == 3 {
        assert(inputs.drop_last().drop_last().drop_last().len() == 0);
        assert(inputs.drop_last().drop_last().last() == inputs[0]);
        assert(inputs.drop_last().last() == inputs[1]);
    } else if session_after(inputs) == Some(SessionPhase::Relaying(service)) {
        sessions_are_short(inputs);
    }
}

/// Nothing happens to a connection after it was given up or the relay took it over.
proof fn sessions_are_short(inputs: Seq<SessionInput>)
    requires
        session_after(inputs) is Some,
    ensures
        match session_after(inputs)->0 {
            SessionPhase::Peeking => inputs.len() == 0,
            SessionPhase::Accepting(_) => inputs.len() == 1,
            SessionPhase::Connecting(_) => inputs.len() == 2,
            SessionPhase::Relaying(_) => inputs.len() == 3,
            SessionPhase::Closed => inputs.len() == 1 || inputs.len() == 2,
        },
    decreases inputs.len(),
{
    if inputs.len() > 0 {
        sessions_are_short(inputs.drop_last());
    }
}

} // verus!
