use std::str::FromStr;

use hyper::http::Method;
use rest_client::error::ErrorKind;
use rest_client::error::RestClientError;
use rest_client::method::same_bytes;
use rest_client::method::same_text;
use rest_client::method::to_wire_verb;
use rest_client::method::wire_verb_name;
use rest_client::method::RestMethod;

#[test]
fn parse_reads_the_four_tokens() {
    assert_eq!(RestMethod::parse("GET"), Ok(RestMethod::GET));
    assert_eq!(RestMethod::parse("POST"), Ok(RestMethod::POST));
    assert_eq!(RestMethod::parse("DELETE"), Ok(RestMethod::DELETE));
    assert_eq!(RestMethod::parse("PATCH"), Ok(RestMethod::PATCH));
}

#[test]
fn parse_refuses_other_tokens() {
    for token in ["PUT", "get", " GET", "GET ", "", "HEAD", "GETT", "Post", "PATCH\n", "DELETE/"] {
        let e = RestMethod::parse(token).unwrap_err();
        assert_eq!(e.kind(), ErrorKind::MethodParse);
        assert_eq!(e, RestClientError::new(ErrorKind::MethodParse));
    }
}

#[test]
fn from_str_agrees_with_parse() {
    assert_eq!(RestMethod::from_str("PATCH"), Ok(RestMethod::PATCH));
    assert_eq!("DELETE".parse::<RestMethod>(), Ok(RestMethod::DELETE));
    assert_eq!(
        RestMethod::from_str("OPTIONS"),
        Err(RestClientError::new(ErrorKind::MethodParse))
    );
}

#[test]
fn tokens_read_back_as_their_verbs() {
    for m in [RestMethod::GET, RestMethod::POST, RestMethod::DELETE, RestMethod::PATCH] {
        assert_eq!(RestMethod::parse(m.as_str()), Ok(m));
    }
    assert_eq!(RestMethod::GET.as_str(), "GET");
    assert_eq!(RestMethod::POST.as_str(), "POST");
    assert_eq!(RestMethod::DELETE.as_str(), "DELETE");
    assert_eq!(RestMethod::PATCH.as_str(), "PATCH");
}

#[test]
fn wire_verbs_are_the_engines_own() {
    assert_eq!(to_wire_verb(RestMethod::GET).unwrap(), Method::GET);
    assert_eq!(to_wire_verb(RestMethod::POST).unwrap(), Method::POST);
    assert_eq!(to_wire_verb(RestMethod::DELETE).unwrap(), Method::DELETE);
    assert_eq!(to_wire_verb(RestMethod::PATCH).unwrap(), Method::PATCH);
}

#[test]
fn wire_verb_names_are_the_tokens() {
    for m in [RestMethod::GET, RestMethod::POST, RestMethod::DELETE, RestMethod::PATCH] {
        let verb = to_wire_verb(m).unwrap();
        assert_eq!(wire_verb_name(&verb), m.as_str());
    }
    assert_eq!(wire_verb_name(&Method::OPTIONS), "OPTIONS");
}

#[test]
fn same_bytes_compares_content() {
    assert!(same_bytes(b"", b""));
    assert!(same_bytes(b"abc", b"abc"));
    assert!(!same_bytes(b"abc", b"abd"));
    assert!(!same_bytes(b"abc", b"ab"));
    assert!(!same_bytes(b"", b"a"));
}

#[test]
fn same_text_compares_content() {
    assert!(same_text("GET", "GET"));
    assert!(!same_text("GET", "get"));
    assert!(same_text("h\u{e9}llo", "h\u{e9}llo"));
    assert!(!same_text("h\u{e9}llo", "hello"));
}

#[test]
fn every_failure_reads_the_same() {
    for kind in [
        ErrorKind::MethodParse,
        ErrorKind::UriParse,
        ErrorKind::Connect,
        ErrorKind::Handshake,
        ErrorKind::RequestBuild,
        ErrorKind::Transport,
        ErrorKind::Encoding,
    ] {
        let e = RestClientError::new(kind);
        assert_eq!(e.kind(), kind);
        assert_eq!(e.message(), "Error in rest client");
    }
}
