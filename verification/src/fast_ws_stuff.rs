//! Where a websocket connection to Moonraker goes: the URL a client connects
//! to, and the socket address taken from the websocket URL of a host and port.
use vstd::prelude::*;
use vstd::string::*;

use crate::client::{websocket_url, websocket_url_text};
use crate::text::{decimal, push_decimal};

verus! {

/// What the connection reads of a parsed URL: its scheme, its domain (none
/// when the host is an address rather than a name) and its explicit port
/// (none when absent or the scheme's default).
#[derive(Debug)]
pub struct UrlParts {
    pub scheme: String,
    pub domain: Option<String>,
    pub port: Option<u16>,
}

impl View for UrlParts {
    type V = (Seq<char>, Option<Seq<char>>, Option<u16>);

    open spec fn view(&self) -> (Seq<char>, Option<Seq<char>>, Option<u16>) {
        (
            self.scheme@,
            match self.domain {
                Some(d) => Some(d@),
                None => None,
            },
            self.port,
        )
    }
}

/// What `url::Url::parse` gives for a text, read as `UrlParts`: none when the
/// text is not an absolute URL.
pub uninterp spec fn parsed_url(text: Seq<char>) -> Option<(Seq<char>, Option<Seq<char>>, Option<u16>)>;

/// Parses a URL with `url::Url::parse` and reads its scheme (`Url::scheme`),
/// domain (`Url::domain`) and port (`Url::port`); the result is named
/// `parsed_url` of the text.
#[verifier::external_body]
fn parse_url(text: &str) -> (r: Option<UrlParts>)
    ensures
        match r {
            Some(parts) => parsed_url(text@) == Some(parts@),
            None => parsed_url(text@) is None,
        },
{
    match url::Url::parse(text) {
        Ok(u) => {
            let domain = match u.domain() {
                Some(d) => Some(d.to_string()),
                None => None,
            };
            Some(UrlParts { scheme: u.scheme().to_string(), domain, port: u.port() })
        },
        Err(_) => None,
    }
}

/// The serialization `url::Url::parse` gives of a text (`Url::as_str` of the
/// parsed URL): none when the text is not an absolute URL.
pub uninterp spec fn url_serialization(text: Seq<char>) -> Option<Seq<char>>;

/// Parses a URL with `url::Url::parse` and gives its serialization
/// (`Url::as_str`); the result is named `url_serialization` of the text.
#[verifier::external_body]
fn serialize_url(text: &str) -> (r: Option<String>)
    ensures
        match r {
            Some(s) => url_serialization(text@) == Some(s@),
            None => url_serialization(text@) is None,
        },
{
    match url::Url::parse(text) {
        Ok(u) => Some(u.as_str().to_string()),
        Err(_) => None,
    }
}

/// The URL a client connects to for the text it was given: the text parsed as
/// a URL and written back; none when the text is not an absolute URL.
pub fn connect_target(url: &str) -> (r: Option<String>)
    ensures
        match url_serialization(url@) {
            Some(s) => r matches Some(t) && t@ == s,
            None => r is None,
        },
{
    serialize_url(url)
}

/// The port of a URL: its explicit one, else 443 for `wss` and 80 for `ws`;
/// none for another scheme without a port.
pub open spec fn port_or_default(scheme: Seq<char>, port: Option<u16>) -> Option<u16> {
    match port {
        Some(p) => Some(p),
        None => if scheme == "wss"@ {
            Some(443u16)
        } else if scheme == "ws"@ {
            Some(80u16)
        } else {
            None
        },
    }
}

/// The socket address `domain:port` of a parsed URL: none when the URL has
/// no domain or no port can be told.
pub open spec fn address_of(parts: (Seq<char>, Option<Seq<char>>, Option<u16>)) -> Option<Seq<char>> {
    match parts.1 {
        None => None,
        Some(domain) => match port_or_default(parts.0, parts.2) {
            None => None,
            Some(p) => Some(domain + ":"@ + decimal(p as nat)),
        },
    }
}

/// The socket address of a parsed URL, as `address_of` says.
pub fn address_from_parts(parts: &UrlParts) -> (r: Option<String>)
    ensures
        match r {
            Some(a) => address_of(parts@) == Some(a@),
            None => address_of(parts@) is None,
        },
{
    let domain = match &parts.domain {
        Some(d) => d,
        None => return None,
    };
    let port = match parts.port {
        Some(p) => p,
        None => {
            proof {
                reveal_strlit("wss");
                reveal_strlit("ws");
            }
            if parts.scheme.eq(&String::from_str("wss")) {
                443u16
            } else if parts.scheme.eq(&String::from_str("ws")) {
                80u16
            } else {
                return None;
            }
        },
    };
    let mut address = domain.clone();
    address.append(":");
    push_decimal(&mut address, port as u64);
    proof {
        reveal_strlit(":");
    }
    Some(address)
}

/// The socket address to open for Moonraker's websocket on a host and port:
/// the `domain:port` of the websocket URL. None when that URL does not parse,
/// has no domain (the host is an IP address), or has no port that can be told.
pub fn socket_address(hostname: &str, port: u16) -> (r: Option<String>)
    ensures
        match parsed_url(websocket_url_text(hostname@, Some(port))) {
            None => r is None,
            Some(parts) => match r {
                Some(a) => address_of(parts) == Some(a@),
                None => address_of(parts) is None,
            },
        },
{
    let url = websocket_url(hostname, Some(port));
    match parse_url(url.as_str()) {
        None => None,
        Some(parts) => address_from_parts(&parts),
    }
}

} // verus!
