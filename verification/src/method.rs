//! The request-method codec: token to verb, verb to token.

use vstd::prelude::*;
use vstd::string::*;
use vstd::utf8::*;
use hyper::http::method::InvalidMethod;
use hyper::http::Method;
use crate::error::ErrorKind;
use crate::error::RestClientError;

verus! {

/// The verbs this client sends.
#[derive(Clone, Copy, Debug, PartialEq, Eq, Structural)]
pub enum RestMethod {
    GET,
    POST,
    DELETE,
    PATCH,
}

/// The verb that a token stands for: exactly the four upper-case names, with
/// no trimming and no case folding.
pub open spec fn verb_of_token(token: Seq<char>) -> Option<RestMethod> {
    if token == "GET"@ {
        Some(RestMethod::GET)
    } else if token == "POST"@ {
        Some(RestMethod::POST)
    } else if token == "DELETE"@ {
        Some(RestMethod::DELETE)
    } else if token == "PATCH"@ {
        Some(RestMethod::PATCH)
    } else {
        None
    }
}

/// The token that a verb is written as on the wire.
pub open spec fn token_of_verb(m: RestMethod) -> Seq<char> {
    match m {
        RestMethod::GET => "GET"@,
        RestMethod::POST => "POST"@,
        RestMethod::DELETE => "DELETE"@,
        RestMethod::PATCH => "PATCH"@,
    }
}

/// Two strings are equal exactly when their UTF-8 encodings are.
pub proof fn lemma_same_bytes_same_text(a: Seq<char>, b: Seq<char>)
    ensures
        (encode_utf8(a) == encode_utf8(b)) <==> a == b,
{
    encode_utf8_decode_utf8(a);
    encode_utf8_decode_utf8(b);
}

/// Whether two byte slices hold the same bytes.
pub fn same_bytes(a: &[u8], b: &[u8]) -> (r: bool)
    ensures
        r == (a@ == b@),
{
    if a.len() != b.len() {
        return false;
    }
    let mut i: usize = 0;
    while i < a.len()
        invariant
            a.len() == b.len(),
            i <= a.len(),
            forall|j: int| 0 <= j < i ==> a@[j] == b@[j],
        decreases a.len() - i,
    {
        if a[i] != b[i] {
            return false;
        }
        i = i + 1;
    }
    assert(a@ =~= b@);
    true
}

/// Whether two strings hold the same text.
pub fn same_text(a: &str, b: &str) -> (r: bool)
    ensures
        r == (a@ == b@),
{
    proof {
        lemma_same_bytes_same_text(a@, b@);
    }
    same_bytes(a.as_bytes(), b.as_bytes())
}

impl RestMethod {
    /// Reads a method token. Any token but the four supported ones is a
    /// `MethodParse` error.
    pub fn parse(token: &str) -> (r: Result<RestMethod, RestClientError>)
        ensures
            match verb_of_token(token@) {
                Some(m) => r == Ok::<RestMethod, RestClientError>(m),
                None => r == Err::<RestMethod, RestClientError>(
                    RestClientError { kind: ErrorKind::MethodParse },
                ),
            },
    {
        if same_text(token, "GET") {
            Ok(RestMethod::GET)
        } else if same_text(token, "POST") {
            Ok(RestMethod::POST)
        } else if same_text(token, "DELETE") {
            Ok(RestMethod::DELETE)
        } else if same_text(token, "PATCH") {
            Ok(RestMethod::PATCH)
        } else {
            Err(RestClientError::new(ErrorKind::MethodParse))
        }
    }

    /// The token of this verb.
    pub fn as_str(&self) -> (s: &'static str)
        ensures
            s@ == token_of_verb(*self),
    {
        match self {
            RestMethod::GET => "GET",
            RestMethod::POST => "POST",
            RestMethod::DELETE => "DELETE",
            RestMethod::PATCH => "PATCH",
        }
    }
}

impl std::str::FromStr for RestMethod {
    type Err = RestClientError;

    /// Reads a method token, as `RestMethod::parse` does.
    fn from_str(s: &str) -> (r: Result<Self, Self::Err>)
        ensures
            match verb_of_token(s@) {
                Some(m) => r == Ok::<RestMethod, RestClientError>(m),
                None => r == Err::<RestMethod, RestClientError>(
                    RestClientError { kind: ErrorKind::MethodParse },
                ),
            },
    {
        RestMethod::parse(s)
    }
}

/// The protocol engine's representation of a request method.
#[verifier::external_type_specification]
#[verifier::external_body]
pub struct ExMethod(Method);

/// The protocol engine's refusal of a method token.
#[verifier::external_type_specification]
#[verifier::external_body]
pub struct ExInvalidMethod(InvalidMethod);

/// The name that a wire verb carries, as `Method::as_str` gives it.
pub uninterp spec fn wire_text(verb: Method) -> Seq<char>;

/// Whether these bytes spell one of the supported verbs.
pub open spec fn spells_supported_verb(src: Seq<u8>) -> bool {
    exists|m: RestMethod| src == encode_utf8(#[trigger] token_of_verb(m))
}

/// `Method::from_bytes`. A method that comes back carries exactly the bytes
/// it was made from as its name, and each supported verb's token is accepted.
#[verifier::external_body]
fn method_from_bytes(src: &[u8]) -> (r: Result<Method, InvalidMethod>)
    ensures
        r matches Ok(verb) ==> encode_utf8(wire_text(verb)) == src@,
        spells_supported_verb(src@) ==> r is Ok,
{
    Method::from_bytes(src)
}

/// `Method::as_str`: the name of a wire verb.
#[verifier::external_body]
fn method_as_str(verb: &Method) -> (s: &str)
    ensures
        s@ == wire_text(*verb),
{
    verb.as_str()
}

/// The wire verb of a method: the one whose name is the method's token. The
/// conversion is total on this closed set.
pub fn to_wire_verb(m: RestMethod) -> (r: Result<Method, RestClientError>)
    ensures
        r matches Ok(verb) && wire_text(verb) == token_of_verb(m),
{
    let token = m.as_str();
    match method_from_bytes(token.as_bytes()) {
        Ok(verb) => {
            proof {
                lemma_same_bytes_same_text(wire_text(verb), token_of_verb(m));
            }
            Ok(verb)
        },
        Err(_) => Err(RestClientError::new(ErrorKind::RequestBuild)),
    }
}

/// The name of a wire verb, as text.
pub fn wire_verb_name(verb: &Method) -> (s: String)
    ensures
        s@ == wire_text(*verb),
{
    String::from_str(method_as_str(verb))
}

/// Every verb's token reads back as that verb.
pub proof fn lemma_token_round_trip(m: RestMethod)
    ensures
        verb_of_token(token_of_verb(m)) == Some(m),
{
    reveal_strlit("GET");
    reveal_strlit("POST");
    reveal_strlit("DELETE");
    reveal_strlit("PATCH");
    assert("GET"@.len() == 3);
    assert("POST"@.len() == 4);
    assert("DELETE"@.len() == 6);
    assert("PATCH"@.len() == 5);
}

} // verus!
