//! One request/response exchange as a state machine. Whoever owns the socket
//! performs each action and reports what came of it as an event; every
//! decision of the exchange is taken here. An exchange connects, performs the
//! handshake, sends its one request, drains the response body frame by frame
//! and ends with the body as text, or with the error that stopped it.

use vstd::prelude::*;
use vstd::string::*;
use vstd::utf8::*;
use std::string::FromUtf8Error;
use bytes::Bytes;
use http_body_util::Empty;
use hyper::http::Uri;
use hyper::Request;
use crate::error::ErrorKind;
use crate::error::RestClientError;
use crate::method::token_of_verb;
use crate::method::verb_of_token;
use crate::method::RestMethod;
use crate::request::assemble;
use crate::request::header_text;
use crate::request::request_header_count;
use crate::request::request_host;
use crate::request::request_target;
use crate::request::request_verb;
use crate::target::target_of_text;
use crate::target::Target;

verus! {

/// What an exchange waits for.
#[derive(Clone, Copy, Debug, PartialEq, Eq, Structural)]
pub enum Phase {
    /// The connection is being opened.
    Connecting,
    /// The handshake is under way.
    Handshaking,
    /// The request is on its way and the response head is awaited.
    Sending,
    /// The response body is being read, frame by frame.
    Draining,
    /// The exchange is over.
    Finished,
}

/// One unit of a streamed response body.
#[derive(Debug)]
pub enum Frame {
    /// A chunk of the body.
    Data(Vec<u8>),
    /// Trailing metadata, which is no part of the body.
    Trailers,
}

/// A frame as plain values.
pub enum FrameView {
    Data(Seq<u8>),
    Trailers,
}

impl View for Frame {
    type V = FrameView;

    open spec fn view(&self) -> FrameView {
        match self {
            Frame::Data(chunk) => FrameView::Data(chunk@),
            Frame::Trailers => FrameView::Trailers,
        }
    }
}

/// What came of the action that the exchange asked for.
#[derive(Debug)]
pub enum Event {
    Connected,
    ConnectFailed,
    HandshakeDone,
    HandshakeFailed,
    /// The response head has arrived.
    ResponseHead,
    /// The request could not be sent, or no response head came back.
    SendFailed,
    /// The next frame of the body.
    Frame(Frame),
    /// Reading the next frame failed.
    FrameFailed,
    /// The body has no more frames.
    BodyEnded,
}

/// An event as plain values.
pub enum EventView {
    Connected,
    ConnectFailed,
    HandshakeDone,
    HandshakeFailed,
    ResponseHead,
    SendFailed,
    Frame(FrameView),
    FrameFailed,
    BodyEnded,
}

impl View for Event {
    type V = EventView;

    open spec fn view(&self) -> EventView {
        match self {
            Event::Connected => EventView::Connected,
            Event::ConnectFailed => EventView::ConnectFailed,
            Event::HandshakeDone => EventView::HandshakeDone,
            Event::HandshakeFailed => EventView::HandshakeFailed,
            Event::ResponseHead => EventView::ResponseHead,
            Event::SendFailed => EventView::SendFailed,
            Event::Frame(frame) => EventView::Frame(frame@),
            Event::FrameFailed => EventView::FrameFailed,
            Event::BodyEnded => EventView::BodyEnded,
        }
    }
}

/// What the owner of the socket is to do next.
#[derive(Debug)]
pub enum Action {
    /// Open a connection to this address.
    Connect(String),
    /// Perform the HTTP/1.1 handshake over the connection.
    Handshake,
    /// Send this request and wait for the response head.
    Send(Request<Empty<Bytes>>),
    /// Read the next frame of the body.
    NextFrame,
    /// Stop: this is the outcome of the call.
    Finish(Result<String, RestClientError>),
}

/// An action as plain values. What a request to send holds is stated beside
/// it.
pub enum ActionView {
    Connect(Seq<char>),
    Handshake,
    Send,
    NextFrame,
    Finish(Result<Seq<char>, ErrorKind>),
}

impl View for Action {
    type V = ActionView;

    open spec fn view(&self) -> ActionView {
        match self {
            Action::Connect(address) => ActionView::Connect(address@),
            Action::Handshake => ActionView::Handshake,
            Action::Send(_) => ActionView::Send,
            Action::NextFrame => ActionView::NextFrame,
            Action::Finish(Ok(body)) => ActionView::Finish(Ok(body@)),
            Action::Finish(Err(e)) => ActionView::Finish(Err(e.kind)),
        }
    }
}

/// An exchange as plain values.
pub struct ExchangeView {
    pub phase: Phase,
    /// The URL, the address and the `Host` header, until the request is made.
    pub target: Option<(Uri, Seq<char>, Seq<char>)>,
    pub method: RestMethod,
    /// The bytes of the data frames received so far, in their order.
    pub body: Seq<u8>,
}

/// The state of one call. It owns the byte accumulator, which nothing else
/// sees until the body is complete.
#[derive(Debug)]
pub struct Exchange {
    phase: Phase,
    target: Option<Target>,
    method: RestMethod,
    body: Vec<u8>,
}

impl View for Exchange {
    type V = ExchangeView;

    closed spec fn view(&self) -> ExchangeView {
        ExchangeView {
            phase: self.phase,
            target: match self.target {
                Some(t) => Some(t.parts()),
                None => None,
            },
            method: self.method,
            body: self.body@,
        }
    }
}

/// The outcome of a complete body: its text, if it is UTF-8.
pub open spec fn outcome_of_body(body: Seq<u8>) -> Result<Seq<char>, ErrorKind> {
    if valid_utf8(body) {
        Ok(decode_utf8(body))
    } else {
        Err(ErrorKind::Encoding)
    }
}

impl ExchangeView {
    /// What an exchange keeps true of itself: it knows its target exactly
    /// until the request is made, and holds body bytes only while draining.
    pub open spec fn wf(self) -> bool {
        &&& self.target is Some <==> (self.phase == Phase::Connecting || self.phase
            == Phase::Handshaking)
        &&& self.phase != Phase::Draining ==> self.body == Seq::<u8>::empty()
    }

    /// The exchange, ended.
    pub open spec fn finished(self) -> ExchangeView {
        ExchangeView {
            phase: Phase::Finished,
            target: None,
            method: self.method,
            body: Seq::<u8>::empty(),
        }
    }

    /// The exchange, moved on to `phase` with nothing else changed.
    pub open spec fn moved_to(self, phase: Phase) -> ExchangeView {
        ExchangeView { phase, ..self }
    }

    /// The state after an event, and the action that it calls for. Each phase
    /// waits for the outcome of its own action; any other event, and any
    /// failure, ends the exchange. Nothing of a body that was cut short is
    /// kept.
    pub open spec fn step(self, event: EventView) -> (ExchangeView, ActionView) {
        match (self.phase, event) {
            (Phase::Connecting, EventView::Connected) => (
                self.moved_to(Phase::Handshaking),
                ActionView::Handshake,
            ),
            (Phase::Connecting, EventView::ConnectFailed) => (
                self.finished(),
                ActionView::Finish(Err(ErrorKind::Connect)),
            ),
            (Phase::Handshaking, EventView::HandshakeDone) => if header_text(
                self.target->Some_0.2,
            ) {
                (
                    ExchangeView { phase: Phase::Sending, target: None, ..self },
                    ActionView::Send,
                )
            } else {
                (self.finished(), ActionView::Finish(Err(ErrorKind::RequestBuild)))
            },
            (Phase::Handshaking, EventView::HandshakeFailed) => (
                self.finished(),
                ActionView::Finish(Err(ErrorKind::Handshake)),
            ),
            (Phase::Sending, EventView::ResponseHead) => (
                self.moved_to(Phase::Draining),
                ActionView::NextFrame,
            ),
            (Phase::Draining, EventView::Frame(FrameView::Data(chunk))) => (
                ExchangeView { body: self.body + chunk, ..self },
                ActionView::NextFrame,
            ),
            (Phase::Draining, EventView::Frame(FrameView::Trailers)) => (
                self,
                ActionView::NextFrame,
            ),
            (Phase::Draining, EventView::BodyEnded) => (
                self.finished(),
                ActionView::Finish(outcome_of_body(self.body)),
            ),
            _ => (self.finished(), ActionView::Finish(Err(ErrorKind::Transport))),
        }
    }
}

/// The bytes of the data frames among `frames`, in the order of the frames.
pub open spec fn data_of(frames: Seq<FrameView>) -> Seq<u8>
    decreases frames.len(),
{
    if frames.len() == 0 {
        Seq::<u8>::empty()
    } else {
        data_of(frames.drop_last()) + match frames.last() {
            FrameView::Data(chunk) => chunk,
            FrameView::Trailers => Seq::<u8>::empty(),
        }
    }
}

/// The state after the frames of `frames` have arrived one after the other.
pub open spec fn after_frames(s: ExchangeView, frames: Seq<FrameView>) -> ExchangeView
    decreases frames.len(),
{
    if frames.len() == 0 {
        s
    } else {
        after_frames(s, frames.drop_last()).step(EventView::Frame(frames.last())).0
    }
}

/// While a body is drained, the accumulator holds the bytes of the data
/// frames received so far, in the order of their arrival, and nothing else;
/// when the body ends, the outcome is the text of exactly those bytes.
pub proof fn lemma_frames_accumulate_in_order(s: ExchangeView, frames: Seq<FrameView>)
    requires
        s.phase == Phase::Draining,
    ensures
        after_frames(s, frames) == (ExchangeView { body: s.body + data_of(frames), ..s }),
        after_frames(s, frames).step(EventView::BodyEnded).1 == ActionView::Finish(
            outcome_of_body(s.body + data_of(frames)),
        ),
    decreases frames.len(),
{
    if frames.len() == 0 {
        assert(s.body + data_of(frames) =~= s.body);
    } else {
        lemma_frames_accumulate_in_order(s, frames.drop_last());
        let before = after_frames(s, frames.drop_last());
        match frames.last() {
            FrameView::Data(chunk) => {
                assert(before.body + chunk =~= s.body + data_of(frames));
            },
            FrameView::Trailers => {
                assert(before.body =~= s.body + data_of(frames));
            },
        }
    }
}

/// The error of a byte sequence that is not UTF-8.
#[verifier::external_type_specification]
#[verifier::external_body]
pub struct ExFromUtf8Error(FromUtf8Error);

/// `String::from_utf8`: the text of `bytes` if they are UTF-8, and an error if
/// they are not.
#[verifier::external_body]
fn string_from_utf8(bytes: Vec<u8>) -> (r: Result<String, FromUtf8Error>)
    ensures
        match r {
            Ok(text) => valid_utf8(bytes@) && text@ == decode_utf8(bytes@),
            Err(_) => !valid_utf8(bytes@),
        },
{
    String::from_utf8(bytes)
}

/// Decodes a complete body. A body that is not UTF-8 is an `Encoding` error:
/// nothing of it is returned, not even what could be read.
pub fn decode_body(body: Vec<u8>) -> (r: Result<String, RestClientError>)
    ensures
        match outcome_of_body(body@) {
            Ok(text) => r matches Ok(s) && s@ == text,
            Err(kind) => r matches Err(e) && e.kind == kind,
        },
{
    match string_from_utf8(body) {
        Ok(text) => Ok(text),
        Err(_) => Err(RestClientError::new(ErrorKind::Encoding)),
    }
}

/// What callers without an error channel get in place of any failure.
pub open spec fn placeholder() -> Seq<char> {
    "This is an error"@
}

/// Flattens an outcome for callers that take a body and nothing else: every
/// failure becomes the same placeholder text.
pub fn body_or_placeholder(outcome: Result<String, RestClientError>) -> (text: String)
    ensures
        text@ == match outcome {
            Ok(body) => body@,
            Err(_) => placeholder(),
        },
{
    match outcome {
        Ok(body) => body,
        Err(_) => String::from_str("This is an error"),
    }
}

impl Exchange {
    pub open spec fn wf(&self) -> bool {
        self@.wf()
    }

    fn ended(method: RestMethod, kind: ErrorKind) -> (r: (Exchange, Action))
        ensures
            r.0@ == (ExchangeView {
                phase: Phase::Finished,
                target: None,
                method,
                body: Seq::<u8>::empty(),
            }),
            r.1@ == ActionView::Finish(Err(kind)),
    {
        (
            Exchange { phase: Phase::Finished, target: None, method, body: Vec::new() },
            Action::Finish(Err(RestClientError::new(kind))),
        )
    }

    /// Starts an exchange: reads the URL, then the method token, and asks for
    /// the connection. A bad URL or method ends the call before anything is
    /// connected; of the two, the URL is reported.
    pub fn begin(full_url: &str, method_str: &str) -> (r: Result<(Exchange, Action), RestClientError>)
        ensures
            match (target_of_text(full_url@), verb_of_token(method_str@)) {
                (Err(kind), _) => r matches Err(e) && e.kind == kind,
                (Ok(_), None) => r matches Err(e) && e.kind == ErrorKind::MethodParse,
                (Ok(parts), Some(method)) => r matches Ok(started) && started.0.wf() && started.0@
                    == (ExchangeView {
                    phase: Phase::Connecting,
                    target: Some(parts),
                    method,
                    body: Seq::<u8>::empty(),
                }) && started.1@ == ActionView::Connect(parts.1),
            },
    {
        let target = match Target::parse(full_url) {
            Ok(target) => target,
            Err(e) => {
                return Err(e);
            },
        };
        let method = match RestMethod::parse(method_str) {
            Ok(method) => method,
            Err(e) => {
                return Err(e);
            },
        };
        let address = target.address.clone();
        Ok(
            (
                Exchange { phase: Phase::Connecting, target: Some(target), method, body: Vec::new() },
                Action::Connect(address),
            ),
        )
    }

    pub fn phase(&self) -> (p: Phase)
        ensures
            p == self@.phase,
    {
        self.phase
    }

    pub fn method(&self) -> (m: RestMethod)
        ensures
            m == self@.method,
    {
        self.method
    }

    /// Takes the outcome of the last action and says what to do next.
    pub fn step(self, event: Event) -> (r: (Exchange, Action))
        requires
            self.wf(),
        ensures
            r.0.wf(),
            r.0@ == self@.step(event@).0,
            r.1@ == self@.step(event@).1,
            r.1 matches Action::Send(request) ==> {
                &&& request_target(request) == self@.target->Some_0.0
                &&& request_verb(request) == token_of_verb(self@.method)
                &&& request_host(request) == self@.target->Some_0.2
                &&& request_header_count(request) == 1
            },
    {
        let Exchange { phase, target, method, body } = self;
        match (phase, event) {
            (Phase::Connecting, Event::Connected) => (
                Exchange { phase: Phase::Handshaking, target, method, body },
                Action::Handshake,
            ),
            (Phase::Connecting, Event::ConnectFailed) => Self::ended(method, ErrorKind::Connect),
            (Phase::Handshaking, Event::HandshakeDone) => match target {
                Some(t) => {
                    let Target { uri, address, host_header } = t;
                    match assemble(uri, method, host_header.as_str()) {
                        Ok(request) => (
                            Exchange { phase: Phase::Sending, target: None, method, body },
                            Action::Send(request),
                        ),
                        Err(e) => Self::ended(method, e.kind()),
                    }
                },
                None => Self::ended(method, ErrorKind::RequestBuild),
            },
            (Phase::Handshaking, Event::HandshakeFailed) => Self::ended(
                method,
                ErrorKind::Handshake,
            ),
            (Phase::Sending, Event::ResponseHead) => (
                Exchange { phase: Phase::Draining, target, method, body },
                Action::NextFrame,
            ),
            (Phase::Draining, Event::Frame(Frame::Data(chunk))) => {
                let ghost before = body@;
                let mut body = body;
                body.extend_from_slice(chunk.as_slice());
                assert(body@ =~= before + chunk@);
                (Exchange { phase: Phase::Draining, target, method, body }, Action::NextFrame)
            },
            (Phase::Draining, Event::Frame(Frame::Trailers)) => (
                Exchange { phase: Phase::Draining, target, method, body },
                Action::NextFrame,
            ),
            (Phase::Draining, Event::BodyEnded) => (
                Exchange { phase: Phase::Finished, target: None, method, body: Vec::new() },
                Action::Finish(decode_body(body)),
            ),
            _ => Self::ended(method, ErrorKind::Transport),
        }
    }
}

} // verus!
