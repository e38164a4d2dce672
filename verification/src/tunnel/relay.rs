//! What passes through the tunnel: bytes read on one side leave as binary
//! WebSocket messages, and the content of binary messages is written to the
//! other side.
//!
//! Both ends of the tunnel wait for whatever comes first, bytes or a
//! message, carry it over, and wait again, until one side has ended or failed.

use vstd::prelude::*;
use vstd::slice::slice_subrange;
use vstd::slice::slice_to_vec;
use vstd::utf8::decode_utf8;
use vstd::utf8::valid_utf8;

use crate::text::decimal;
use crate::text::digits;
use crate::tunnel::console::failure;
use crate::tunnel::console::joined;
use crate::tunnel::console::Line;
use crate::tunnel::console::Shown;
use crate::tunnel::console::shown;

verus! {

/// How many bytes are read at once, at most.
pub const BUFFER_SIZE: usize = 8192;

/// A message from the WebSocket.
#[derive(Debug)]
pub enum WsMessage {
    Text,
    Binary(Vec<u8>),
    Ping,
    Pong,
    Close,
    /// A raw frame.
    Frame,
}

/// The content of a [`WsMessage`].
pub enum Message {
    Text,
    Binary(Seq<u8>),
    Ping,
    Pong,
    Close,
    Frame,
}

impl View for WsMessage {
    type V = Message;

    open spec fn view(&self) -> Message {
        match self {
            WsMessage::Text => Message::Text,
            WsMessage::Binary(data) => Message::Binary(data@),
            WsMessage::Ping => Message::Ping,
            WsMessage::Pong => Message::Pong,
            WsMessage::Close => Message::Close,
            WsMessage::Frame => Message::Frame,
        }
    }
}

/// What happens to a relay. Errors come with their text.
#[derive(Debug)]
pub enum RelayEvent<'a> {
    /// The first `n` bytes of `buf` were read. None are left to read if `n` is zero.
    Read { buf: &'a [u8], n: usize },
    /// Reading failed.
    ReadFailed(String),
    /// A message came.
    Received(WsMessage),
    /// No more messages will come.
    ReceivedAll,
    /// The WebSocket failed.
    ReceiveFailed(String),
    /// A message was sent.
    Sent,
    /// It could not be sent.
    SendFailed(String),
    /// Bytes were written.
    Written,
    /// They could not be written.
    WriteFailed(String),
}

/// The content of a [`RelayEvent`].
pub enum Input {
    /// These bytes were read.
    Read(Seq<u8>),
    /// Reading failed.
    ReadFailed(Seq<char>),
    /// A message came.
    Received(Message),
    /// No more messages will come.
    ReceivedAll,
    /// The WebSocket failed.
    ReceiveFailed(Seq<char>),
    /// A message was sent.
    Sent,
    /// It could not be sent.
    SendFailed(Seq<char>),
    /// Bytes were written.
    Written,
    /// They could not be written.
    WriteFailed(Seq<char>),
}

impl<'a> View for RelayEvent<'a> {
    type V = Input;

    open spec fn view(&self) -> Input {
        match self {
            RelayEvent::Read { buf, n } => Input::Read(buf@.take(*n as int)),
            RelayEvent::ReadFailed(why) => Input::ReadFailed(why@),
            RelayEvent::Received(message) => Input::Received(message@),
            RelayEvent::ReceivedAll => Input::ReceivedAll,
            RelayEvent::ReceiveFailed(why) => Input::ReceiveFailed(why@),
            RelayEvent::Sent => Input::Sent,
            RelayEvent::SendFailed(why) => Input::SendFailed(why@),
            RelayEvent::Written => Input::Written,
            RelayEvent::WriteFailed(why) => Input::WriteFailed(why@),
        }
    }
}

impl<'a> RelayEvent<'a> {
    /// No more was read than the buffer holds.
    pub open spec fn fits(&self) -> bool {
        self matches RelayEvent::Read { buf, n } ==> *n <= buf@.len()
    }
}

impl Input {
    /// The bytes that were read here.
    pub open spec fn read(self) -> Seq<u8> {
        match self {
            Input::Read(bytes) => bytes,
            _ => Seq::empty(),
        }
    }

    /// The bytes that came in a binary message here.
    pub open spec fn received(self) -> Seq<u8> {
        match self {
            Input::Received(Message::Binary(data)) => data,
            _ => Seq::empty(),
        }
    }
}

/// What a relay does next.
#[derive(Debug)]
pub enum RelayAction {
    /// Wait for bytes or for a message.
    Wait,
    /// Send a binary message with this content.
    Send(Vec<u8>),
    /// Write these bytes.
    Write(Vec<u8>),
    /// Nothing more.
    Stop,
}

/// The content of a [`RelayAction`].
pub enum Effect {
    /// Wait for bytes or for a message.
    Wait,
    /// Send a binary message with this content.
    Send(Seq<u8>),
    /// Write these bytes.
    Write(Seq<u8>),
    /// Nothing more.
    Stop,
}

impl View for RelayAction {
    type V = Effect;

    open spec fn view(&self) -> Effect {
        match self {
            RelayAction::Wait => Effect::Wait,
            RelayAction::Send(bytes) => Effect::Send(bytes@),
            RelayAction::Write(bytes) => Effect::Write(bytes@),
            RelayAction::Stop => Effect::Stop,
        }
    }
}

/// What a relay answers to something that happens: it carries over what was read and the content of
/// binary messages, ignores the other messages, and stops when a side has ended or
/// something has failed.
pub open spec fn effect(input: Input) -> Effect {
    match input {
        Input::Read(bytes) => if bytes.len() > 0 {
            Effect::Send(bytes)
        } else {
            Effect::Stop
        },
        Input::Received(Message::Binary(data)) => Effect::Write(data),
        Input::Received(Message::Close) | Input::ReceivedAll => Effect::Stop,
        Input::Received(_) | Input::Sent | Input::Written => Effect::Wait,
        Input::ReadFailed(_)
        | Input::ReceiveFailed(_)
        | Input::SendFailed(_)
        | Input::WriteFailed(_) => Effect::Stop,
    }
}

/// What a relay shows, and what it does next.
#[derive(Debug)]
pub struct Step {
    pub line: Option<Line>,
    pub action: RelayAction,
}

/// What a relay does next.
fn answer(event: RelayEvent) -> (action: RelayAction)
    requires
        event.fits(),
    ensures
        action@ == effect(event@),
{
    match event {
        RelayEvent::Read { buf, n } => {
            if n > 0 {
                let payload = slice_to_vec(slice_subrange(buf, 0, n));
                assert(payload@ =~= buf@.take(n as int));
                RelayAction::Send(payload)
            } else {
                RelayAction::Stop
            }
        },
        RelayEvent::Received(WsMessage::Binary(data)) => RelayAction::Write(data),
        RelayEvent::Received(WsMessage::Close) => RelayAction::Stop,
        RelayEvent::Received(_) => RelayAction::Wait,
        RelayEvent::ReceivedAll => RelayAction::Stop,
        RelayEvent::Sent => RelayAction::Wait,
        RelayEvent::Written => RelayAction::Wait,
        _ => RelayAction::Stop,
    }
}

/// What the server's end of the tunnel shows when it relays to the database.
pub open spec fn tunnel_shown(input: Input) -> Option<Shown> {
    match input {
        Input::Read(bytes) => if bytes.len() > 0 {
            Some(Shown::Output("Writing "@ + digits(bytes.len()) + " bytes to websocket"@))
        } else {
            None
        },
        Input::ReadFailed(why) => Some(Shown::Error("Failed to read from postgres: "@ + why)),
        Input::Received(Message::Binary(data)) => Some(
            Shown::Output("Received "@ + digits(data.len()) + " bytes"@),
        ),
        Input::ReceiveFailed(why) => Some(Shown::Error("WebSocket error: "@ + why)),
        Input::SendFailed(why) => Some(Shown::Error("Failed to send to websocket: "@ + why)),
        Input::WriteFailed(why) => Some(Shown::Error("Failed to write to postgres: "@ + why)),
        _ => None,
    }
}

/// A number between two texts.
fn counted(before: &str, n: usize, after: &str) -> (text: String)
    ensures
        text@ == before@ + digits(n as nat) + after@,
{
    let mut text = joined(before, decimal(n as u64).as_str());
    text.append(after);
    text
}

/// The server's end of the tunnel to the database.
pub fn handle_tunnel(event: RelayEvent) -> (step: Step)
    requires
        event.fits(),
    ensures
        match event {
            RelayEvent::Read { buf, n } => if n > 0 {
                &&& step.action matches RelayAction::Send(bytes) && bytes@ == buf@.take(n as int)
                &&& step.line matches Some(Line::Output(text)) && text@ == "Writing "@ + digits(n as nat) + " bytes to websocket"@
            } else {
                &&& step.action is Stop
                &&& step.line is None
            },
            RelayEvent::Received(WsMessage::Binary(data)) => {
                &&& step.action matches RelayAction::Write(bytes) && bytes@ == data@
                &&& step.line matches Some(Line::Output(text)) && text@ == "Received "@ + digits(data@.len()) + " bytes"@
            },
            RelayEvent::Received(WsMessage::Close) | RelayEvent::ReceivedAll => {
                &&& step.action is Stop
                &&& step.line is None
            },
            RelayEvent::Received(_) | RelayEvent::Sent | RelayEvent::Written => {
                &&& step.action is Wait
                &&& step.line is None
            },
            RelayEvent::ReadFailed(why) => {
                &&& step.action is Stop
                &&& step.line matches Some(Line::Error(text)) && text@ == "Failed to read from postgres: "@ + why@
            },
            RelayEvent::ReceiveFailed(why) => {
                &&& step.action is Stop
                &&& step.line matches Some(Line::Error(text)) && text@ == "WebSocket error: "@ + why@
            },
            RelayEvent::SendFailed(why) => {
                &&& step.action is Stop
                &&& step.line matches Some(Line::Error(text)) && text@ == "Failed to send to websocket: "@ + why@
            },
            RelayEvent::WriteFailed(why) => {
                &&& step.action is Stop
                &&& step.line matches Some(Line::Error(text)) && text@ == "Failed to write to postgres: "@ + why@
            },
        },
        step.action@ == effect(event@),
        shown(step.line) == tunnel_shown(event@),
{
    let line = match &event {
        RelayEvent::Read { n, .. } => {
            if *n > 0 {
                Some(Line::Output(counted("Writing ", *n, " bytes to websocket")))
            } else {
                None
            }
        },
        RelayEvent::ReadFailed(why) => Some(failure("Failed to read from postgres: ", why.as_str())),
        RelayEvent::Received(WsMessage::Binary(data)) => Some(
            Line::Output(counted("Received ", data.len(), " bytes")),
        ),
        RelayEvent::ReceiveFailed(why) => Some(failure("WebSocket error: ", why.as_str())),
        RelayEvent::SendFailed(why) => Some(failure("Failed to send to websocket: ", why.as_str())),
        RelayEvent::WriteFailed(why) => Some(failure("Failed to write to postgres: ", why.as_str())),
        _ => None,
    };
    Step { line, action: answer(event) }
}

/// The characters in which `String::from_utf8_lossy` shows a sequence of bytes.
pub uninterp spec fn lossy(bytes: Seq<u8>) -> Seq<char>;

/// `String::from_utf8_lossy` decodes UTF-8 and puts a replacement character where the bytes are
/// no UTF-8. The contract claims that the text depends on the bytes alone, and that it is the
/// decoded text where the bytes are valid. How many replacement characters
/// stand for invalid bytes is left unsaid.
#[verifier::external_body]
fn readable(bytes: &[u8]) -> (text: String)
    ensures
        text@ == lossy(bytes@),
        valid_utf8(bytes@) ==> text@ == decode_utf8(bytes@),
{
    String::from_utf8_lossy(bytes).into_owned()
}

/// What the server's end of the tunnel shows when it relays to the HTTP service. `text`
/// is what was read or received, in readable form.
pub open spec fn http_shown(input: Input, text: Seq<char>) -> Option<Shown> {
    match input {
        Input::Read(bytes) => Some(
            Shown::Output(
                if bytes.len() > 0 {
                    "Forwarding HTTP Response:\n"@ + text
                } else {
                    "HTTP connection closed by server."@
                },
            ),
        ),
        Input::ReadFailed(why) => Some(Shown::Error("Failed to read from HTTP service: "@ + why)),
        Input::Received(Message::Binary(_)) => Some(
            Shown::Output("Received HTTP Request:\n"@ + text),
        ),
        Input::ReceiveFailed(why) => Some(Shown::Error("WebSocket error: "@ + why)),
        Input::SendFailed(why) => Some(
            Shown::Error("Failed to send HTTP response to WebSocket: "@ + why),
        ),
        Input::WriteFailed(why) => Some(
            Shown::Error("Failed to write HTTP request to service: "@ + why),
        ),
        _ => None,
    }
}

/// What is shown of an event at the HTTP service's relay, given what was read or received in
/// readable form.
pub fn http_line(event: &RelayEvent, text: &str) -> (line: Option<Line>)
    requires
        event.fits(),
    ensures
        shown(line) == http_shown(event@, text@),
        match event {
            RelayEvent::Read { n, .. } => line matches Some(Line::Output(shown_text))
                && shown_text@ == if *n > 0 {
                "Forwarding HTTP Response:\n"@ + text@
            } else {
                "HTTP connection closed by server."@
            },
            RelayEvent::Received(WsMessage::Binary(_)) => {
                line matches Some(Line::Output(shown_text)) && shown_text@
                    == "Received HTTP Request:\n"@ + text@
            },
            RelayEvent::ReadFailed(why) => line matches Some(Line::Error(shown_text))
                && shown_text@ == "Failed to read from HTTP service: "@ + why@,
            RelayEvent::ReceiveFailed(why) => line matches Some(Line::Error(shown_text))
                && shown_text@ == "WebSocket error: "@ + why@,
            RelayEvent::SendFailed(why) => line matches Some(Line::Error(shown_text))
                && shown_text@ == "Failed to send HTTP response to WebSocket: "@ + why@,
            RelayEvent::WriteFailed(why) => line matches Some(Line::Error(shown_text))
                && shown_text@ == "Failed to write HTTP request to service: "@ + why@,
            _ => line is None,
        },
{
    match event {
        RelayEvent::Read { n, .. } => {
            if *n > 0 {
                Some(Line::Output(joined("Forwarding HTTP Response:\n", text)))
            } else {
                Some(Line::Output("HTTP connection closed by server.".to_owned()))
            }
        },
        RelayEvent::ReadFailed(why) => Some(
            failure("Failed to read from HTTP service: ", why.as_str()),
        ),
        RelayEvent::Received(WsMessage::Binary(_)) => Some(
            Line::Output(joined("Received HTTP Request:\n", text)),
        ),
        RelayEvent::ReceiveFailed(why) => Some(failure("WebSocket error: ", why.as_str())),
        RelayEvent::SendFailed(why) => Some(
            failure("Failed to send HTTP response to WebSocket: ", why.as_str()),
        ),
        RelayEvent::WriteFailed(why) => Some(
            failure("Failed to write HTTP request to service: ", why.as_str()),
        ),
        _ => None,
    }
}

/// The server's end of the tunnel to the HTTP service.
pub fn handle_http_tunnel(event: RelayEvent) -> (step: Step)
    requires
        event.fits(),
    ensures
        match event {
            RelayEvent::Read { buf, n } => if n > 0 {
                &&& step.action matches RelayAction::Send(bytes) && bytes@ == buf@.take(n as int)
                &&& step.line matches Some(Line::Output(text)) && text@ == "Forwarding HTTP Response:\n"@ + lossy(buf@.take(n as int))
            } else {
                &&& step.action is Stop
                &&& step.line matches Some(Line::Output(text)) && text@ == "HTTP connection closed by server."@
            },
            RelayEvent::Received(WsMessage::Binary(data)) => {
                &&& step.action matches RelayAction::Write(bytes) && bytes@ == data@
                &&& step.line matches Some(Line::Output(text)) && text@ == "Received HTTP Request:\n"@ + lossy(data@)
            },
            RelayEvent::Received(WsMessage::Close) | RelayEvent::ReceivedAll => {
                &&& step.action is Stop
                &&& step.line is None
            },
            RelayEvent::Received(_) | RelayEvent::Sent | RelayEvent::Written => {
                &&& step.action is Wait
                &&& step.line is None
            },
            RelayEvent::ReadFailed(why) => {
                &&& step.action is Stop
                &&& step.line matches Some(Line::Error(text)) && text@ == "Failed to read from HTTP service: "@ + why@
            },
            RelayEvent::ReceiveFailed(why) => {
                &&& step.action is Stop
                &&& step.line matches Some(Line::Error(text)) && text@ == "WebSocket error: "@ + why@
            },
            RelayEvent::SendFailed(why) => {
                &&& step.action is Stop
                &&& step.line matches Some(Line::Error(text)) && text@ == "Failed to send HTTP response to WebSocket: "@ + why@
            },
            RelayEvent::WriteFailed(why) => {
                &&& step.action is Stop
                &&& step.line matches Some(Line::Error(text)) && text@ == "Failed to write HTTP request to service: "@ + why@
            },
        },
        step.action@ == effect(event@),
        shown(step.line) == http_shown(event@, lossy(event@.read() + event@.received())),
        valid_utf8(event@.read() + event@.received()) ==> shown(step.line) == http_shown(
            event@,
            decode_utf8(event@.read() + event@.received()),
        ),
{
    let line = match &event {
        RelayEvent::Read { buf, n } => {
            let text = readable(slice_subrange(buf, 0, *n));
            assert(buf@.subrange(0, *n as int) =~= event@.read() + event@.received());
            http_line(&event, text.as_str())
        },
        RelayEvent::Received(WsMessage::Binary(data)) => {
            let text = readable(data.as_slice());
            assert(data@ =~= event@.read() + event@.received());
            http_line(&event, text.as_str())
        },
        _ => http_line(&event, ""),
    };
    Step { line, action: answer(event) }
}

/// How many bytes the client's end of the tunnel has carried over.
#[derive(Debug, Clone, Copy, PartialEq, Eq, Structural)]
pub struct ByteTotals {
    /// Read and handed to the WebSocket.
    pub sent: usize,
    /// Received and handed to the local side.
    pub received: usize,
}

/// What the client's end of the tunnel shows. `sent` and `received` are the totals
/// with the present bytes.
pub open spec fn client_shown(input: Input, sent: nat, received: nat) -> Option<Shown> {
    match input {
        Input::Read(bytes) => if bytes.len() > 0 {
            Some(
                Shown::Output(
                    "Sending "@ + digits(bytes.len()) + " bytes (total: "@ + digits(sent) + ")"@,
                ),
            )
        } else {
            None
        },
        Input::ReadFailed(why) => Some(Shown::Error("Failed to read from local stream: "@ + why)),
        Input::Received(Message::Binary(data)) => Some(
            Shown::Output(
                "Received "@ + digits(data.len()) + " bytes (total: "@ + digits(received) + ")"@,
            ),
        ),
        Input::ReceiveFailed(why) => Some(Shown::Error("WebSocket error: "@ + why)),
        Input::SendFailed(why) => Some(Shown::Error("Failed to send to websocket: "@ + why)),
        Input::WriteFailed(why) => Some(Shown::Error("Failed to write to local stream: "@ + why)),
        _ => None,
    }
}

impl ByteTotals {
    /// Whether the totals still fit a `usize` with what was read or received now.
    pub open spec fn has_room(self, input: Input) -> bool {
        &&& self.sent + input.read().len() <= usize::MAX
        &&& self.received + input.received().len() <= usize::MAX
    }

    /// Nothing was carried over yet.
    pub fn new() -> (totals: Self)
        ensures
            totals.sent == 0,
            totals.received == 0,
    {
        ByteTotals { sent: 0, received: 0 }
    }

    /// Whether the totals still fit with what the event brings.
    pub fn fit_with(&self, event: &RelayEvent) -> (fit: bool)
        requires
            event.fits(),
        ensures
            fit == self.has_room(event@),
            fit == match event {
                RelayEvent::Read { n, .. } => self.sent + *n <= usize::MAX,
                RelayEvent::Received(WsMessage::Binary(data)) => {
                    self.received + data@.len() <= usize::MAX
                },
                _ => true,
            },
    {
        match event {
            RelayEvent::Read { n, .. } => self.sent <= usize::MAX - *n,
            RelayEvent::Received(WsMessage::Binary(data)) => {
                self.received <= usize::MAX - data.len()
            },
            _ => true,
        }
    }

    /// What is shown once the client's end has stopped.
    pub fn closing_line(&self) -> (line: Line)
        ensures
            line is Output,
            line@ == Shown::Output(
                "Connection closed. Total bytes: sent="@ + digits(self.sent as nat) + ", received="@
                    + digits(self.received as nat),
            ),
    {
        let mut text = counted("Connection closed. Total bytes: sent=", self.sent, ", received=");
        text.append(decimal(self.received as u64).as_str());
        Line::Output(text)
    }
}

/// A number, and another after a text, in brackets.
fn counted_of_total(before: &str, n: usize, total: usize) -> (text: String)
    ensures
        text@ == before@ + digits(n as nat) + " bytes (total: "@ + digits(total as nat) + ")"@,
{
    let mut text = counted(before, n, " bytes (total: ");
    text.append(decimal(total as u64).as_str());
    text.append(")");
    text
}

/// The client's end of the tunnel. It keeps count of the bytes that it has carried over, those
/// included that it then could not send or write.
pub fn handle_client_connection(totals: &mut ByteTotals, event: RelayEvent) -> (step: Step)
    requires
        event.fits(),
        old(totals).has_room(event@),
    ensures
        match event {
            RelayEvent::Read { buf, n } => if n > 0 {
                &&& step.action matches RelayAction::Send(bytes) && bytes@ == buf@.take(n as int)
                &&& step.line matches Some(Line::Output(text)) && text@ == "Sending "@ + digits(n as nat) + " bytes (total: "@ + digits((old(totals).sent + n) as nat) + ")"@
            } else {
                &&& step.action is Stop
                &&& step.line is None
            },
            RelayEvent::Received(WsMessage::Binary(data)) => {
                &&& step.action matches RelayAction::Write(bytes) && bytes@ == data@
                &&& step.line matches Some(Line::Output(text)) && text@ == "Received "@ + digits(data@.len()) + " bytes (total: "@ + digits((old(totals).received + data@.len()) as nat) + ")"@
            },
            RelayEvent::Received(WsMessage::Close) | RelayEvent::ReceivedAll => {
                &&& step.action is Stop
                &&& step.line is None
            },
            RelayEvent::Received(_) | RelayEvent::Sent | RelayEvent::Written => {
                &&& step.action is Wait
                &&& step.line is None
            },
            RelayEvent::ReadFailed(why) => {
                &&& step.action is Stop
                &&& step.line matches Some(Line::Error(text)) && text@ == "Failed to read from local stream: "@ + why@
            },
            RelayEvent::ReceiveFailed(why) => {
                &&& step.action is Stop
                &&& step.line matches Some(Line::Error(text)) && text@ == "WebSocket error: "@ + why@
            },
            RelayEvent::SendFailed(why) => {
                &&& step.action is Stop
                &&& step.line matches Some(Line::Error(text)) && text@ == "Failed to send to websocket: "@ + why@
            },
            RelayEvent::WriteFailed(why) => {
                &&& step.action is Stop
                &&& step.line matches Some(Line::Error(text)) && text@ == "Failed to write to local stream: "@ + why@
            },
        },
        event matches RelayEvent::Read { n, .. } ==> final(totals).sent == old(totals).sent + n,
        !(event is Read) ==> final(totals).sent == old(totals).sent,
        event matches RelayEvent::Received(WsMessage::Binary(data)) ==> final(totals).received
            == old(totals).received + data@.len(),
        !(event matches RelayEvent::Received(WsMessage::Binary(_))) ==> final(totals).received
            == old(totals).received,
        final(totals).sent == old(totals).sent + event@.read().len(),
        final(totals).received == old(totals).received + event@.received().len(),
        step.action@ == effect(event@),
        shown(step.line) == client_shown(
            event@,
            final(totals).sent as nat,
            final(totals).received as nat,
        ),
{
    let line = match &event {
        RelayEvent::Read { n, .. } => {
            if *n > 0 {
                totals.sent = totals.sent + *n;
                Some(Line::Output(counted_of_total("Sending ", *n, totals.sent)))
            } else {
                None
            }
        },
        RelayEvent::ReadFailed(why) => Some(
            failure("Failed to read from local stream: ", why.as_str()),
        ),
        RelayEvent::Received(WsMessage::Binary(data)) => {
            totals.received = totals.received + data.len();
            Some(Line::Output(counted_of_total("Received ", data.len(), totals.received)))
        },
        RelayEvent::ReceiveFailed(why) => Some(failure("WebSocket error: ", why.as_str())),
        RelayEvent::SendFailed(why) => Some(failure("Failed to send to websocket: ", why.as_str())),
        RelayEvent::WriteFailed(why) => Some(
            failure("Failed to write to local stream: ", why.as_str()),
        ),
        _ => None,
    };
    Step { line, action: answer(event) }
}

/// A relay sends exactly what was read, if anything was, and writes exactly the content of
/// binary messages.
pub proof fn relay_carries_exactly_what_came(input: Input, bytes: Seq<u8>)
    ensures
        effect(input) == Effect::Send(bytes) <==> input == Input::Read(bytes) && bytes.len() > 0,
        effect(input) == Effect::Write(bytes) <==> input == Input::Received(Message::Binary(bytes)),
{
}

/// A relay stops exactly when a side has ended, or a close message came, or anything has failed,
/// whatever the reason given.
pub proof fn relay_stops_exactly_at_an_end_or_a_failure(input: Input)
    ensures
        effect(input) is Stop <==> {
            ||| input matches Input::Read(bytes) && bytes.len() == 0
            ||| input == Input::Received(Message::Close)
            ||| input is ReceivedAll
            ||| input is ReadFailed
            ||| input is ReceiveFailed
            ||| input is SendFailed
            ||| input is WriteFailed
        },
        effect(input) is Wait <==> {
            ||| input matches Input::Received(message) && !(message is Binary) && !(
            message is Close)
            ||| input is Sent
            ||| input is Written
        },
{
}

/// Every event whose buffer holds what was read can be handed in, and says what it stands for: the
/// first bytes of the buffer, the content of a message, the reason of a failure.
pub proof fn events_say_what_happened(event: RelayEvent<'_>)
    ensures
        event.fits() <==> (event matches RelayEvent::Read { buf, n } ==> n <= buf@.len()),
        match event {
            RelayEvent::Read { buf, n } => event@ == Input::Read(buf@.take(n as int)),
            RelayEvent::ReadFailed(why) => event@ == Input::ReadFailed(why@),
            RelayEvent::Received(WsMessage::Text) => event@ == Input::Received(Message::Text),
            RelayEvent::Received(WsMessage::Binary(data)) => event@ == Input::Received(
                Message::Binary(data@),
            ),
            RelayEvent::Received(WsMessage::Ping) => event@ == Input::Received(Message::Ping),
            RelayEvent::Received(WsMessage::Pong) => event@ == Input::Received(Message::Pong),
            RelayEvent::Received(WsMessage::Close) => event@ == Input::Received(Message::Close),
            RelayEvent::Received(WsMessage::Frame) => event@ == Input::Received(Message::Frame),
            RelayEvent::ReceivedAll => event@ is ReceivedAll,
            RelayEvent::ReceiveFailed(why) => event@ == Input::ReceiveFailed(why@),
            RelayEvent::Sent => event@ is Sent,
            RelayEvent::SendFailed(why) => event@ == Input::SendFailed(why@),
            RelayEvent::Written => event@ is Written,
            RelayEvent::WriteFailed(why) => event@ == Input::WriteFailed(why@),
        },
{
}

/// Totals have room exactly as long as the sum with the bytes that were read or received fits, and
/// always for what brings no bytes.
pub proof fn room_is_a_matter_of_the_sums(totals: ByteTotals, input: Input)
    ensures
        totals.has_room(input) <==> match input {
            Input::Read(bytes) => totals.sent + bytes.len() <= usize::MAX,
            Input::Received(Message::Binary(data)) => totals.received + data.len() <= usize::MAX,
            _ => true,
        },
{
}

/// The total that the client shows for bytes read is that of all bytes read so far, these included,
/// and the total for a binary message that of all binary messages so far, this one included.
pub proof fn client_shows_running_totals(inputs: Seq<Input>, data: Seq<u8>)
    ensures
        ({
            let sending = totals_after(inputs.push(Input::Read(data)));
            data.len() > 0 ==> client_shown(Input::Read(data), sending.0, sending.1) == Some(
                Shown::Output(
                    "Sending "@ + digits(data.len()) + " bytes (total: "@ + digits(
                        bytes_read(inputs).len() + data.len(),
                    ) + ")"@,
                ),
            )
        }),
        ({
            let receiving = totals_after(inputs.push(Input::Received(Message::Binary(data))));
            client_shown(Input::Received(Message::Binary(data)), receiving.0, receiving.1) == Some(
                Shown::Output(
                    "Received "@ + digits(data.len()) + " bytes (total: "@ + digits(
                        bytes_written(inputs).len() + data.len(),
                    ) + ")"@,
                ),
            )
        }),
        totals_after(inputs).1 == concat(messages_received(inputs)).len(),
{
    assert(inputs.push(Input::Read(data)).drop_last() =~= inputs);
    assert(inputs.push(Input::Received(Message::Binary(data))).drop_last() =~= inputs);
    totals_are_the_bytes_carried(inputs);
    what_is_read_is_sent(inputs);
    what_is_received_is_written(inputs);
}

/// Totals grow by what is read and by what binary messages bring, and by nothing else.
pub proof fn totals_grow_by_what_is_carried(inputs: Seq<Input>, input: Input)
    ensures
        totals_after(Seq::<Input>::empty()) == (0nat, 0nat),
        totals_after(inputs.push(input)) == (match input {
            Input::Read(bytes) => (
                totals_after(inputs).0 + bytes.len(),
                totals_after(inputs).1,
            ),
            Input::Received(Message::Binary(data)) => (
                totals_after(inputs).0,
                totals_after(inputs).1 + data.len(),
            ),
            _ => totals_after(inputs),
        }),
{
    assert(inputs.push(input).drop_last() =~= inputs);
}

/// What went wrong is shown on standard error with its reason at the end, at every relay; the three
/// differ in what they name as the place.
pub proof fn failures_are_shown_with_their_reasons(
    why: Seq<char>,
    text: Seq<char>,
    sent: nat,
    received: nat,
)
    ensures
        tunnel_shown(Input::ReadFailed(why)) == Some(
            Shown::Error("Failed to read from postgres: "@ + why),
        ),
        tunnel_shown(Input::WriteFailed(why)) == Some(
            Shown::Error("Failed to write to postgres: "@ + why),
        ),
        tunnel_shown(Input::SendFailed(why)) == Some(
            Shown::Error("Failed to send to websocket: "@ + why),
        ),
        http_shown(Input::ReadFailed(why), text) == Some(
            Shown::Error("Failed to read from HTTP service: "@ + why),
        ),
        http_shown(Input::WriteFailed(why), text) == Some(
            Shown::Error("Failed to write HTTP request to service: "@ + why),
        ),
        http_shown(Input::SendFailed(why), text) == Some(
            Shown::Error("Failed to send HTTP response to WebSocket: "@ + why),
        ),
        client_shown(Input::ReadFailed(why), sent, received) == Some(
            Shown::Error("Failed to read from local stream: "@ + why),
        ),
        client_shown(Input::WriteFailed(why), sent, received) == Some(
            Shown::Error("Failed to write to local stream: "@ + why),
        ),
        client_shown(Input::SendFailed(why), sent, received) == Some(
            Shown::Error("Failed to send to websocket: "@ + why),
        ),
        tunnel_shown(Input::ReceiveFailed(why)) == Some(Shown::Error("WebSocket error: "@ + why)),
        http_shown(Input::ReceiveFailed(why), text) == tunnel_shown(Input::ReceiveFailed(why)),
        client_shown(Input::ReceiveFailed(why), sent, received) == tunnel_shown(
            Input::ReceiveFailed(why),
        ),
{
}

/// The parts, one after the other.
pub open spec fn concat(parts: Seq<Seq<u8>>) -> Seq<u8>
    decreases parts.len(),
{
    if parts.len() == 0 {
        Seq::empty()
    } else {
        concat(parts.drop_last()) + parts.last()
    }
}

/// All bytes that were read, in order.
pub open spec fn bytes_read(inputs: Seq<Input>) -> Seq<u8>
    decreases inputs.len(),
{
    if inputs.len() == 0 {
        Seq::empty()
    } else {
        bytes_read(inputs.drop_last()) + inputs.last().read()
    }
}

/// The contents of the binary messages that came, in order.
pub open spec fn messages_received(inputs: Seq<Input>) -> Seq<Seq<u8>>
    decreases inputs.len(),
{
    if inputs.len() == 0 {
        Seq::empty()
    } else {
        let before = messages_received(inputs.drop_last());
        match inputs.last() {
            Input::Received(Message::Binary(data)) => before.push(data),
            _ => before,
        }
    }
}

/// The contents of the messages that a relay sends, in order.
pub open spec fn messages_sent(inputs: Seq<Input>) -> Seq<Seq<u8>>
    decreases inputs.len(),
{
    if inputs.len() == 0 {
        Seq::empty()
    } else {
        let before = messages_sent(inputs.drop_last());
        match effect(inputs.last()) {
            Effect::Send(bytes) => before.push(bytes),
            _ => before,
        }
    }
}

/// All bytes that a relay writes, in order.
pub open spec fn bytes_written(inputs: Seq<Input>) -> Seq<u8>
    decreases inputs.len(),
{
    if inputs.len() == 0 {
        Seq::empty()
    } else {
        let before = bytes_written(inputs.drop_last());
        match effect(inputs.last()) {
            Effect::Write(bytes) => before + bytes,
            _ => before,
        }
    }
}

/// The totals that the client's end has counted, if it starts from zero.
pub open spec fn totals_after(inputs: Seq<Input>) -> (nat, nat)
    decreases inputs.len(),
{
    if inputs.len() == 0 {
        (0, 0)
    } else {
        let (sent, received) = totals_after(inputs.drop_last());
        (sent + inputs.last().read().len(), received + inputs.last().received().len())
    }
}

/// Put together, the messages that a relay sends are the bytes that it has read: none is lost,
/// added or moved.
pub proof fn what_is_read_is_sent(inputs: Seq<Input>)
    ensures
        concat(messages_sent(inputs)) == bytes_read(inputs),
    decreases inputs.len(),
{
    if inputs.len() > 0 {
        let before = inputs.drop_last();
        what_is_read_is_sent(before);
        match effect(inputs.last()) {
            Effect::Send(bytes) => {
                assert(messages_sent(inputs).drop_last() =~= messages_sent(before));
            },
            _ => {
                assert(inputs.last().read() =~= Seq::<u8>::empty());
                assert(bytes_read(inputs) =~= bytes_read(before));
            },
        }
    }
}

/// The bytes that a relay writes are the contents of the binary messages that came, put together.
pub proof fn what_is_received_is_written(inputs: Seq<Input>)
    ensures
        bytes_written(inputs) == concat(messages_received(inputs)),
    decreases inputs.len(),
{
    if inputs.len() > 0 {
        let before = inputs.drop_last();
        what_is_received_is_written(before);
        match inputs.last() {
            Input::Received(Message::Binary(data)) => {
                assert(messages_received(inputs).drop_last() =~= messages_received(before));
            },
            _ => {},
        }
    }
}

/// No message that a relay sends is empty.
pub proof fn sent_messages_are_not_empty(inputs: Seq<Input>)
    ensures
        forall|i: int|
            0 <= i < messages_sent(inputs).len() ==> (#[trigger] messages_sent(inputs)[i]).len() > 0,
    decreases inputs.len(),
{
    if inputs.len() > 0 {
        let before = inputs.drop_last();
        sent_messages_are_not_empty(before);
        assert forall|i: int| 0 <= i < messages_sent(inputs).len() implies (
        #[trigger] messages_sent(inputs)[i]).len() > 0 by {
            if i < messages_sent(before).len() {
                assert(messages_sent(inputs)[i] == messages_sent(before)[i]);
            }
        }
    }
}

/// A message holds no more than one read brings, and a read brings no more than the buffer holds.
pub proof fn messages_are_no_longer_than_a_read(inputs: Seq<Input>)
    requires
        forall|i: int|
            0 <= i < inputs.len() ==> (#[trigger] inputs[i]).read().len() <= BUFFER_SIZE,
    ensures
        forall|i: int|
            0 <= i < messages_sent(inputs).len() ==> (#[trigger] messages_sent(inputs)[i]).len()
                <= 8192,
        BUFFER_SIZE == 8192,
    decreases inputs.len(),
{
    if inputs.len() > 0 {
        let before = inputs.drop_last();
        assert forall|i: int| 0 <= i < before.len() implies (#[trigger] before[i]).read().len()
            <= BUFFER_SIZE by {
            assert(before[i] == inputs[i]);
        }
        messages_are_no_longer_than_a_read(before);
        assert(inputs[inputs.len() - 1].read().len() <= BUFFER_SIZE);
        assert forall|i: int| 0 <= i < messages_sent(inputs).len() implies (
        #[trigger] messages_sent(inputs)[i]).len() <= 8192 by {
            if i < messages_sent(before).len() {
                assert(messages_sent(inputs)[i] == messages_sent(before)[i]);
            }
        }
    }
}

proof fn concat_of_prefix(parts: Seq<Seq<u8>>, n: int)
    requires
        0 <= n <= parts.len(),
    ensures
        concat(parts.take(n)).is_prefix_of(concat(parts)),
    decreases parts.len() - n,
{
    if n == parts.len() {
        assert(parts.take(n) =~= parts);
    } else {
        concat_of_prefix(parts, n + 1);
        assert(parts.take(n + 1).drop_last() =~= parts.take(n));
        let shorter = concat(parts.take(n));
        let longer = concat(parts.take(n + 1));
        assert(longer == shorter + parts[n]);
        assert(shorter =~= longer.take(shorter.len() as int));
        assert(longer =~= concat(parts).take(longer.len() as int));
        assert(shorter =~= concat(parts).take(shorter.len() as int));
    }
}

/// Through both ends: when the messages that came to one end are, so far, those that the other
/// end has sent, then the bytes written at the one are, so far, the bytes read at the other.
pub proof fn tunnel_carries_bytes_in_order(sending: Seq<Input>, receiving: Seq<Input>)
    requires
        messages_received(receiving).is_prefix_of(messages_sent(sending)),
    ensures
        bytes_written(receiving).is_prefix_of(bytes_read(sending)),
{
    let came = messages_received(receiving);
    what_is_read_is_sent(sending);
    what_is_received_is_written(receiving);
    concat_of_prefix(messages_sent(sending), came.len() as int);
    assert(came =~= messages_sent(sending).take(came.len() as int));
}

/// Through both ends: when every message that was sent has come, every byte that was read has
/// been written.
pub proof fn tunnel_carries_every_byte(sending: Seq<Input>, receiving: Seq<Input>)
    requires
        messages_received(receiving) == messages_sent(sending),
    ensures
        bytes_written(receiving) == bytes_read(sending),
{
    what_is_read_is_sent(sending);
    what_is_received_is_written(receiving);
}

/// The client's totals are the lengths of what it has sent and of what it has written.
pub proof fn totals_are_the_bytes_carried(inputs: Seq<Input>)
    ensures
        totals_after(inputs).0 == concat(messages_sent(inputs)).len(),
        totals_after(inputs).1 == bytes_written(inputs).len(),
    decreases inputs.len(),
{
    if inputs.len() > 0 {
        let before = inputs.drop_last();
        totals_are_the_bytes_carried(before);
        match effect(inputs.last()) {
            Effect::Send(bytes) => {
                assert(messages_sent(inputs).drop_last() =~= messages_sent(before));
            },
            _ => {},
        }
    }
}

/// A message that is neither binary nor a close makes no difference to what is sent and written.
pub proof fn other_messages_are_ignored(inputs: Seq<Input>, message: Message)
    requires
        !(message is Binary),
        !(message is Close),
    ensures
        effect(Input::Received(message)) == Effect::Wait,
        messages_sent(inputs.push(Input::Received(message))) == messages_sent(inputs),
        bytes_written(inputs.push(Input::Received(message))) == bytes_written(inputs),
{
    assert(inputs.push(Input::Received(message)).drop_last() =~= inputs);
}

/// Whether something can happen when a relay has this to do: bytes and messages come while it
/// waits, sending and writing succeed or fail, and nothing comes after it has stopped.
pub open spec fn can_happen(todo: Effect, input: Input) -> bool {
    match todo {
        Effect::Wait => {
            ||| input is Read
            ||| input is ReadFailed
            ||| input is Received
            ||| input is ReceivedAll
            ||| input is ReceiveFailed
        },
        Effect::Send(_) => input is Sent || input is SendFailed,
        Effect::Write(_) => input is Written || input is WriteFailed,
        Effect::Stop => false,
    }
}

/// What a relay has to do once all of this has happened. It starts by waiting.
pub open spec fn todo_after(inputs: Seq<Input>) -> Effect {
    if inputs.len() == 0 {
        Effect::Wait
    } else {
        effect(inputs.last())
    }
}

/// Whether all of this can happen to one relay, in this order.
pub open spec fn is_run(inputs: Seq<Input>) -> bool
    decreases inputs.len(),
{
    inputs.len() > 0 ==> {
        &&& is_run(inputs.drop_last())
        &&& can_happen(todo_after(inputs.drop_last()), inputs.last())
    }
}

/// Nothing happens to a relay after it has stopped.
pub proof fn relay_stops_for_good(inputs: Seq<Input>, i: int)
    requires
        is_run(inputs),
        0 <= i < inputs.len(),
        effect(inputs[i]) is Stop,
    ensures
        i == inputs.len() - 1,
    decreases inputs.len(),
{
    let before = inputs.drop_last();
    if i < before.len() {
        relay_stops_for_good(before, i);
        assert(before.last() == inputs[i]);
    }
}

/// How many of the messages were sent without a failure.
pub open spec fn sends_confirmed(inputs: Seq<Input>) -> nat
    decreases inputs.len(),
{
    if inputs.len() == 0 {
        0
    } else {
        sends_confirmed(inputs.drop_last()) + (if inputs.last() is Sent {
            1nat
        } else {
            0
        })
    }
}

/// A relay sends one message at a time and goes on only after it was sent: all of its messages
/// were sent without a failure, but for the last, which may be on its way
/// or may have failed and so have stopped the relay.
pub proof fn messages_are_sent_one_by_one(inputs: Seq<Input>)
    requires
        is_run(inputs),
    ensures
        messages_sent(inputs).len() == sends_confirmed(inputs) + (if todo_after(inputs) is Send || (
        inputs.len() > 0 && inputs.last() is SendFailed) {
            1int
        } else {
            0
        }),
    decreases inputs.len(),
{
    if inputs.len() > 0 {
        messages_are_sent_one_by_one(inputs.drop_last());
    }
}

} // verus!
