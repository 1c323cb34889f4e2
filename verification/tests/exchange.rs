use hyper::http::Method;
use rest_client::error::ErrorKind;
use rest_client::error::RestClientError;
use rest_client::exchange::body_or_placeholder;
use rest_client::exchange::decode_body;
use rest_client::exchange::Action;
use rest_client::exchange::Event;
use rest_client::exchange::Exchange;
use rest_client::exchange::Frame;
use rest_client::exchange::Phase;
use rest_client::method::RestMethod;
use rest_client::request::assemble;

/// Runs an exchange against a scripted peer: the events are handed over one
/// by one, and the outcome of the call is returned with the actions seen.
fn run(url: &str, method: &str, events: Vec<Event>) -> (Result<String, RestClientError>, Vec<String>) {
    let mut seen = Vec::new();
    let (mut exchange, first) = match Exchange::begin(url, method) {
        Ok(started) => started,
        Err(e) => return (Err(e), seen),
    };
    let mut action = first;
    let mut events = events.into_iter();
    loop {
        match action {
            Action::Connect(address) => seen.push(format!("connect {}", address)),
            Action::Handshake => seen.push(String::from("handshake")),
            Action::Send(request) => {
                seen.push(format!("send {} {}", request.method(), request.uri()))
            },
            Action::NextFrame => seen.push(String::from("frame")),
            Action::Finish(outcome) => {
                assert_eq!(exchange.phase(), Phase::Finished);
                return (outcome, seen);
            },
        }
        let event = events.next().expect("the script ended before the exchange did");
        let (next, then) = exchange.step(event);
        exchange = next;
        action = then;
    }
}

fn data(bytes: &[u8]) -> Event {
    Event::Frame(Frame::Data(bytes.to_vec()))
}

fn up_to_the_body() -> Vec<Event> {
    vec![Event::Connected, Event::HandshakeDone, Event::ResponseHead]
}

#[test]
fn a_get_returns_the_body() {
    let mut events = up_to_the_body();
    events.push(data(b"hello"));
    events.push(Event::BodyEnded);
    let (outcome, seen) = run("http://127.0.0.1:9090/", "GET", events);
    assert_eq!(outcome, Ok(String::from("hello")));
    assert_eq!(
        seen,
        vec![
            "connect 127.0.0.1:9090",
            "handshake",
            "send GET http://127.0.0.1:9090/",
            "frame",
            "frame",
        ]
    );
}

#[test]
fn an_unsupported_method_fails_before_connecting() {
    let (outcome, seen) = run("http://127.0.0.1:9090/", "PUT", vec![]);
    assert_eq!(outcome, Err(RestClientError::new(ErrorKind::MethodParse)));
    assert!(seen.is_empty());
    assert!(Exchange::begin("http://127.0.0.1:9090/", "PUT").is_err());
}

#[test]
fn a_bad_url_fails_before_connecting() {
    let (outcome, seen) = run("/no/host", "GET", vec![]);
    assert_eq!(outcome, Err(RestClientError::new(ErrorKind::UriParse)));
    assert!(seen.is_empty());
    let (outcome, _) = run("http://exa mple/", "PUT", vec![]);
    assert_eq!(outcome, Err(RestClientError::new(ErrorKind::UriParse)));
}

#[test]
fn a_closed_port_is_a_connect_error() {
    let (outcome, seen) = run("http://127.0.0.1:1/", "GET", vec![Event::ConnectFailed]);
    assert_eq!(outcome, Err(RestClientError::new(ErrorKind::Connect)));
    assert_eq!(seen, vec!["connect 127.0.0.1:1"]);
}

#[test]
fn frames_are_joined_in_order() {
    let mut events = up_to_the_body();
    events.push(data(b"ab"));
    events.push(data(b"cd"));
    events.push(data(b"ef"));
    events.push(Event::BodyEnded);
    let (outcome, seen) = run("http://example.org/", "GET", events);
    assert_eq!(outcome, Ok(String::from("abcdef")));
    assert_eq!(seen.iter().filter(|a| *a == "frame").count(), 4);
}

#[test]
fn a_body_that_is_not_utf8_is_an_encoding_error() {
    let mut events = up_to_the_body();
    events.push(data(b"ok so far "));
    events.push(data(&[0xff, 0xfe, 0x80]));
    events.push(Event::BodyEnded);
    let (outcome, _) = run("http://example.org/", "GET", events);
    assert_eq!(outcome, Err(RestClientError::new(ErrorKind::Encoding)));
}

#[test]
fn a_character_may_be_split_across_frames() {
    let mut events = up_to_the_body();
    events.push(data(&[b'h', 0xc3]));
    events.push(data(&[0xa9, b'!']));
    events.push(Event::BodyEnded);
    let (outcome, _) = run("http://example.org/", "POST", events);
    assert_eq!(outcome, Ok(String::from("h\u{e9}!")));
}

#[test]
fn an_empty_body_is_empty_text() {
    let mut events = up_to_the_body();
    events.push(Event::BodyEnded);
    let (outcome, _) = run("http://example.org/", "DELETE", events);
    assert_eq!(outcome, Ok(String::new()));
}

#[test]
fn trailers_are_no_part_of_the_body() {
    let mut events = up_to_the_body();
    events.push(data(b"body"));
    events.push(Event::Frame(Frame::Trailers));
    events.push(data(b""));
    events.push(Event::BodyEnded);
    let (outcome, _) = run("http://example.org/", "PATCH", events);
    assert_eq!(outcome, Ok(String::from("body")));
}

#[test]
fn a_failed_handshake_ends_the_call() {
    let events = vec![Event::Connected, Event::HandshakeFailed];
    let (outcome, seen) = run("http://example.org/", "GET", events);
    assert_eq!(outcome, Err(RestClientError::new(ErrorKind::Handshake)));
    assert_eq!(seen, vec!["connect example.org:80", "handshake"]);
}

#[test]
fn a_failed_send_is_a_transport_error() {
    let events = vec![Event::Connected, Event::HandshakeDone, Event::SendFailed];
    let (outcome, _) = run("http://example.org/", "GET", events);
    assert_eq!(outcome, Err(RestClientError::new(ErrorKind::Transport)));
}

#[test]
fn a_failed_frame_discards_what_was_read() {
    let mut events = up_to_the_body();
    events.push(data(b"partial"));
    events.push(Event::FrameFailed);
    let (outcome, _) = run("http://example.org/", "GET", events);
    assert_eq!(outcome, Err(RestClientError::new(ErrorKind::Transport)));
}

#[test]
fn an_event_out_of_turn_ends_the_call() {
    let (outcome, _) = run("http://example.org/", "GET", vec![Event::ResponseHead]);
    assert_eq!(outcome, Err(RestClientError::new(ErrorKind::Transport)));
    let (outcome, _) = run("http://example.org/", "GET", vec![Event::Connected, data(b"x")]);
    assert_eq!(outcome, Err(RestClientError::new(ErrorKind::Transport)));

    let (exchange, _) = Exchange::begin("http://example.org/", "GET").unwrap();
    let (exchange, _) = exchange.step(Event::ConnectFailed);
    assert_eq!(exchange.phase(), Phase::Finished);
    let (exchange, action) = exchange.step(Event::Connected);
    assert_eq!(exchange.phase(), Phase::Finished);
    assert!(matches!(action, Action::Finish(Err(e)) if e.kind() == ErrorKind::Transport));
}

#[test]
fn the_phases_follow_the_steps() {
    let (exchange, action) = Exchange::begin("http://example.org:8080/a?b=c", "POST").unwrap();
    assert_eq!(exchange.phase(), Phase::Connecting);
    assert_eq!(exchange.method(), RestMethod::POST);
    assert!(matches!(action, Action::Connect(address) if address == "example.org:8080"));
    let (exchange, action) = exchange.step(Event::Connected);
    assert_eq!(exchange.phase(), Phase::Handshaking);
    assert!(matches!(action, Action::Handshake));
    let (exchange, action) = exchange.step(Event::HandshakeDone);
    assert_eq!(exchange.phase(), Phase::Sending);
    assert!(matches!(action, Action::Send(_)));
    let (exchange, action) = exchange.step(Event::ResponseHead);
    assert_eq!(exchange.phase(), Phase::Draining);
    assert!(matches!(action, Action::NextFrame));
    let (exchange, action) = exchange.step(data(b"x"));
    assert_eq!(exchange.phase(), Phase::Draining);
    assert!(matches!(action, Action::NextFrame));
    let (exchange, action) = exchange.step(Event::BodyEnded);
    assert_eq!(exchange.phase(), Phase::Finished);
    assert!(matches!(action, Action::Finish(Ok(body)) if body == "x"));
}

#[test]
fn the_request_carries_target_verb_and_host() {
    let (exchange, _) = Exchange::begin("http://example.org:8080/a?b=c", "PATCH").unwrap();
    let (exchange, _) = exchange.step(Event::Connected);
    let (_, action) = exchange.step(Event::HandshakeDone);
    let request = match action {
        Action::Send(request) => request,
        other => panic!("no request: {:?}", other),
    };
    assert_eq!(request.method(), Method::PATCH);
    assert_eq!(request.uri().to_string(), "http://example.org:8080/a?b=c");
    assert_eq!(request.headers().len(), 1);
    assert_eq!(request.headers().get(hyper::header::HOST).unwrap(), "example.org:8080");
}

#[test]
fn assemble_refuses_a_host_that_is_no_header_value() {
    let uri: hyper::http::Uri = "http://example.org/".parse().unwrap();
    let request = assemble(uri.clone(), RestMethod::DELETE, "example.org").unwrap();
    assert_eq!(request.method(), Method::DELETE);
    assert_eq!(request.uri(), &uri);
    assert_eq!(request.headers().get("host").unwrap(), "example.org");

    let tab = assemble(uri.clone(), RestMethod::GET, "a\tb").unwrap();
    assert_eq!(tab.headers().get("host").unwrap(), "a\tb");

    for host in ["bad\nhost", "nul\0", "del\x7f", "cr\r"] {
        let e = assemble(uri.clone(), RestMethod::GET, host).unwrap_err();
        assert_eq!(e.kind(), ErrorKind::RequestBuild, "{:?}", host);
    }
}

#[test]
fn decode_body_takes_utf8_only() {
    assert_eq!(decode_body(b"hello".to_vec()), Ok(String::from("hello")));
    assert_eq!(decode_body(Vec::new()), Ok(String::new()));
    assert_eq!(
        decode_body("gr\u{fc}\u{df}e \u{1f600}".as_bytes().to_vec()),
        Ok(String::from("gr\u{fc}\u{df}e \u{1f600}"))
    );
    for bad in [&[0xffu8][..], &[0xc3][..], &[b'a', 0x80][..], &[0xed, 0xa0, 0x80][..], &[0xc0, 0xaf][..]] {
        assert_eq!(
            decode_body(bad.to_vec()),
            Err(RestClientError::new(ErrorKind::Encoding))
        );
    }
}

#[test]
fn every_failure_flattens_to_the_placeholder() {
    assert_eq!(body_or_placeholder(Ok(String::from("hello"))), "hello");
    assert_eq!(body_or_placeholder(Ok(String::new())), "");
    for kind in [
        ErrorKind::MethodParse,
        ErrorKind::UriParse,
        ErrorKind::Connect,
        ErrorKind::Handshake,
        ErrorKind::RequestBuild,
        ErrorKind::Transport,
        ErrorKind::Encoding,
    ] {
        assert_eq!(body_or_placeholder(Err(RestClientError::new(kind))), "This is an error");
    }
}
