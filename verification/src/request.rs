//! The one request of an exchange: the URL as its target, the verb, a `Host`
//! header, and an empty body.

use vstd::prelude::*;
use vstd::string::*;
use vstd::utf8::encode_utf8;
use bytes::Bytes;
use http_body_util::Empty;
use hyper::http::Method;
use hyper::http::Uri;
use hyper::Request;
use crate::error::ErrorKind;
use crate::error::RestClientError;
use crate::method::to_wire_verb;
use crate::method::token_of_verb;
use crate::method::wire_text;
use crate::method::RestMethod;

verus! {

/// A request head with its body.
#[verifier::external_type_specification]
#[verifier::external_body]
#[verifier::reject_recursive_types(T)]
pub struct ExRequest<T>(Request<T>);

/// A body that is always empty.
#[verifier::external_type_specification]
#[verifier::external_body]
#[verifier::reject_recursive_types(D)]
pub struct ExEmpty<D>(Empty<D>);

/// A chunk of bytes, as the protocol engine passes them.
#[verifier::external_type_specification]
#[verifier::external_body]
pub struct ExBytes(Bytes);

/// The protocol engine's refusal to assemble a request.
#[verifier::external_type_specification]
#[verifier::external_body]
pub struct ExHttpError(hyper::http::Error);

/// The name of a request's method.
pub uninterp spec fn request_verb(request: Request<Empty<Bytes>>) -> Seq<char>;

/// A request's target.
pub uninterp spec fn request_target(request: Request<Empty<Bytes>>) -> Uri;

/// The value of a request's `Host` header, its bytes read as UTF-8.
pub uninterp spec fn request_host(request: Request<Empty<Bytes>>) -> Seq<char>;

/// How many header lines a request has.
pub uninterp spec fn request_header_count(request: Request<Empty<Bytes>>) -> nat;

/// Whether a byte may stand in a header value: anything from the space on but
/// the delete character, and the tab.
pub open spec fn header_byte(b: u8) -> bool {
    (b >= 32 && b != 127) || b == 9
}

/// Whether a text may be a header value: each byte of it may stand in one.
pub open spec fn header_text(text: Seq<char>) -> bool {
    forall|i: int|
        0 <= i < encode_utf8(text).len() ==> header_byte(#[trigger] encode_utf8(text)[i])
}

/// `Request::builder`, with `uri`, `method`, `header` and `body`. The request
/// is refused exactly when `host` is no header value; one that is made has
/// the given target and method, and `host` as its `Host` header and only
/// header.
#[verifier::external_body]
fn build_request(uri: Uri, verb: Method, host: &str) -> (r: Result<
    Request<Empty<Bytes>>,
    hyper::http::Error,
>)
    ensures
        r is Ok <==> header_text(host@),
        r matches Ok(request) ==> {
            &&& request_target(request) == uri
            &&& request_verb(request) == wire_text(verb)
            &&& request_host(request) == host@
            &&& request_header_count(request) == 1
        },
{
    Request::builder().uri(uri).method(verb).header(hyper::header::HOST, host).body(
        Empty::<Bytes>::new(),
    )
}

/// Assembles the request for `method` to `uri` with `host` as its `Host`
/// header, no other header and an empty body. A `host` that is no header
/// value is a `RequestBuild` error.
pub fn assemble(uri: Uri, method: RestMethod, host: &str) -> (r: Result<
    Request<Empty<Bytes>>,
    RestClientError,
>)
    ensures
        header_text(host@) ==> (r matches Ok(request) && request_target(request) == uri
            && request_verb(request) == token_of_verb(method) && request_host(request) == host@
            && request_header_count(request) == 1),
        !header_text(host@) ==> (r matches Err(e) && e.kind == ErrorKind::RequestBuild),
{
    match to_wire_verb(method) {
        Ok(verb) => match build_request(uri, verb, host) {
            Ok(request) => Ok(request),
            Err(_) => Err(RestClientError::new(ErrorKind::RequestBuild)),
        },
        Err(e) => Err(e),
    }
}

} // verus!
