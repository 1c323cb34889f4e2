//! The tagged error of the client, and the flat text that older callers expect.

use vstd::prelude::*;
use vstd::string::*;

verus! {

/// What ended an exchange.
#[derive(Clone, Copy, Debug, PartialEq, Eq, Structural)]
pub enum ErrorKind {
    /// The method token is none of the supported verbs.
    MethodParse,
    /// The URL is malformed or names no host.
    UriParse,
    /// The TCP connection could not be opened.
    Connect,
    /// The HTTP/1.1 handshake over the open connection failed.
    Handshake,
    /// The request could not be assembled from its parts.
    RequestBuild,
    /// Sending the request or reading a body frame failed.
    Transport,
    /// The response body is not UTF-8.
    Encoding,
}

/// A terminal failure of one call; none is retried.
#[derive(Clone, Copy, Debug, PartialEq, Eq, Structural)]
pub struct RestClientError {
    pub kind: ErrorKind,
}

impl RestClientError {
    pub fn new(kind: ErrorKind) -> (e: Self)
        ensures
            e.kind == kind,
    {
        RestClientError { kind }
    }

    /// The kind of failure, for callers that branch on it.
    pub fn kind(&self) -> (k: ErrorKind)
        ensures
            k == self.kind,
    {
        self.kind
    }

    /// The text shown for any failure, whatever its kind.
    pub fn message(&self) -> (s: String)
        ensures
            s@ == "Error in rest client"@,
    {
        String::from_str("Error in rest client")
    }
}

} // verus!
