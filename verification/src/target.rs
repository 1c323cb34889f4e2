//! Where a request goes: the URL is read by the protocol engine's own parser,
//! and from its parts come the address to connect to and the `Host` header.

use vstd::prelude::*;
use vstd::string::*;
use hyper::http::uri::InvalidUri;
use hyper::http::Uri;
use crate::error::ErrorKind;
use crate::error::RestClientError;

verus! {

/// The port of a URL that names none. TLS is not spoken, so no other default
/// is ever chosen.
pub const DEFAULT_PORT: u16 = 80;

/// A parsed URL.
#[verifier::external_type_specification]
#[verifier::external_body]
pub struct ExUri(Uri);

/// The parser's refusal of a URL.
#[verifier::external_type_specification]
#[verifier::external_body]
pub struct ExInvalidUri(InvalidUri);

/// What the parser makes of a URL's text, if it accepts it.
pub uninterp spec fn parsed_uri(text: Seq<char>) -> Option<Uri>;

/// The host of a parsed URL, as `Uri::host` gives it.
pub uninterp spec fn uri_host(uri: Uri) -> Option<Seq<char>>;

/// The port of a parsed URL, as `Uri::port_u16` gives it.
pub uninterp spec fn uri_port(uri: Uri) -> Option<u16>;

/// The authority of a parsed URL, as `Uri::authority` gives it.
pub uninterp spec fn uri_authority(uri: Uri) -> Option<Seq<char>>;

/// `str::parse::<Uri>`: the parser's reading of `url`. The same text always
/// reads the same.
#[verifier::external_body]
fn parse_uri(url: &str) -> (r: Result<Uri, InvalidUri>)
    ensures
        match r {
            Ok(uri) => parsed_uri(url@) == Some(uri),
            Err(_) => parsed_uri(url@) is None,
        },
{
    url.parse::<Uri>()
}

/// `Uri::host`. A URL has a host exactly when it has an authority.
#[verifier::external_body]
fn host_of(uri: &Uri) -> (r: Option<String>)
    ensures
        match r {
            Some(host) => uri_host(*uri) == Some(host@),
            None => uri_host(*uri) is None,
        },
        r is Some <==> uri_authority(*uri) is Some,
{
    uri.host().map(String::from)
}

/// `Uri::port_u16`.
#[verifier::external_body]
fn port_of(uri: &Uri) -> (r: Option<u16>)
    ensures
        r == uri_port(*uri),
{
    uri.port_u16()
}

/// `Uri::authority`, as text.
#[verifier::external_body]
fn authority_of(uri: &Uri) -> (r: Option<String>)
    ensures
        match r {
            Some(authority) => uri_authority(*uri) == Some(authority@),
            None => uri_authority(*uri) is None,
        },
{
    uri.authority().map(|a| String::from(a.as_str()))
}

/// The character of a decimal digit.
pub open spec fn digit_char(d: nat) -> char {
    if d == 0 {
        '0'
    } else if d == 1 {
        '1'
    } else if d == 2 {
        '2'
    } else if d == 3 {
        '3'
    } else if d == 4 {
        '4'
    } else if d == 5 {
        '5'
    } else if d == 6 {
        '6'
    } else if d == 7 {
        '7'
    } else if d == 8 {
        '8'
    } else {
        '9'
    }
}

/// A number in decimal, without leading zeros.
pub open spec fn decimal(n: nat) -> Seq<char>
    decreases n,
{
    if n < 10 {
        seq![digit_char(n)]
    } else {
        decimal(n / 10) + seq![digit_char(n % 10)]
    }
}

/// The address to connect to: host, a colon, the port in decimal.
pub open spec fn address_of(host: Seq<char>, port: u16) -> Seq<char> {
    host + seq![':'] + decimal(port as nat)
}

fn digit_text(d: u16) -> (s: &'static str)
    requires
        d < 10,
    ensures
        s@ == seq![digit_char(d as nat)],
{
    proof {
        reveal_strlit("0");
        reveal_strlit("1");
        reveal_strlit("2");
        reveal_strlit("3");
        reveal_strlit("4");
        reveal_strlit("5");
        reveal_strlit("6");
        reveal_strlit("7");
        reveal_strlit("8");
        reveal_strlit("9");
    }
    let s = if d == 0 {
        "0"
    } else if d == 1 {
        "1"
    } else if d == 2 {
        "2"
    } else if d == 3 {
        "3"
    } else if d == 4 {
        "4"
    } else if d == 5 {
        "5"
    } else if d == 6 {
        "6"
    } else if d == 7 {
        "7"
    } else if d == 8 {
        "8"
    } else {
        "9"
    };
    assert(s@ =~= seq![digit_char(d as nat)]);
    s
}

/// Appends `n` in decimal to `out`.
pub fn push_decimal(out: &mut String, n: u16)
    ensures
        final(out)@ == old(out)@ + decimal(n as nat),
    decreases n,
{
    if n >= 10 {
        push_decimal(out, n / 10);
    }
    out.append(digit_text(n % 10));
    proof {
        if n >= 10 {
            assert(out@ =~= old(out)@ + (decimal((n / 10) as nat) + seq![
                digit_char((n % 10) as nat),
            ]));
        }
    }
}

/// Where one request goes and under which name.
#[derive(Debug)]
pub struct Target {
    /// The parsed URL, which becomes the request's target as it is.
    pub uri: Uri,
    /// What to connect to: `host:port`.
    pub address: String,
    /// The value of the `Host` header: the URL's authority.
    pub host_header: String,
}

/// What `resolve` makes of the parts of a parsed URL.
pub open spec fn target_of(
    uri: Uri,
    host: Option<Seq<char>>,
    port: Option<u16>,
    authority: Option<Seq<char>>,
) -> Result<(Uri, Seq<char>, Seq<char>), ErrorKind> {
    match (host, authority) {
        (Some(h), Some(a)) => Ok(
            (
                uri,
                address_of(
                    h,
                    match port {
                        Some(p) => p,
                        None => DEFAULT_PORT,
                    },
                ),
                a,
            ),
        ),
        _ => Err(ErrorKind::UriParse),
    }
}

/// What `Target::parse` makes of a URL's text.
pub open spec fn target_of_text(url: Seq<char>) -> Result<(Uri, Seq<char>, Seq<char>), ErrorKind> {
    match parsed_uri(url) {
        Some(uri) => target_of(uri, uri_host(uri), uri_port(uri), uri_authority(uri)),
        None => Err(ErrorKind::UriParse),
    }
}

impl Target {
    /// The target as plain values: the URL, the address, the `Host` header.
    pub open spec fn parts(&self) -> (Uri, Seq<char>, Seq<char>) {
        (self.uri, self.address@, self.host_header@)
    }

    /// Builds the target from the parts of a parsed URL. A URL without a host
    /// is refused; a URL without a port goes to port 80.
    pub fn resolve(
        uri: Uri,
        host: Option<String>,
        port: Option<u16>,
        authority: Option<String>,
    ) -> (r: Result<Target, RestClientError>)
        ensures
            match target_of(
                uri,
                match host {
                    Some(h) => Some(h@),
                    None => None,
                },
                port,
                match authority {
                    Some(a) => Some(a@),
                    None => None,
                },
            ) {
                Ok(parts) => r matches Ok(t) && t.parts() == parts,
                Err(kind) => r matches Err(e) && e.kind == kind,
            },
    {
        match (host, authority) {
            (Some(h), Some(a)) => {
                let p: u16 = match port {
                    Some(p) => p,
                    None => DEFAULT_PORT,
                };
                let mut address = h;
                address.append(":");
                proof {
                    reveal_strlit(":");
                    assert(":"@ =~= seq![':']);
                }
                push_decimal(&mut address, p);
                Ok(Target { uri, address, host_header: a })
            },
            _ => Err(RestClientError::new(ErrorKind::UriParse)),
        }
    }

    /// Reads a URL. A text that the parser refuses, or that names no host, is
    /// a `UriParse` error.
    pub fn parse(url: &str) -> (r: Result<Target, RestClientError>)
        ensures
            match target_of_text(url@) {
                Ok(parts) => r matches Ok(t) && t.parts() == parts,
                Err(kind) => r matches Err(e) && e.kind == kind,
            },
    {
        match parse_uri(url) {
            Ok(uri) => {
                let host = host_of(&uri);
                let port = port_of(&uri);
                let authority = authority_of(&uri);
                Target::resolve(uri, host, port, authority)
            },
            Err(_) => Err(RestClientError::new(ErrorKind::UriParse)),
        }
    }
}

} // verus!
