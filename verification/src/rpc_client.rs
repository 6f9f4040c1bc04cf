//! The decisions of the JSON-RPC client: the URL that a multi-address stands
//! for, the token that a request carries, and what a response comes to.

use vstd::prelude::*;
use vstd::string::*;

verus! {

pub const DEFAULT_PORT: u16 = 1234;

/// Host of the endpoint where the multi-address names none.
pub open spec fn default_host() -> Seq<char> {
    "127.0.0.1"@
}

/// Scheme of the endpoint where the multi-address names none.
pub open spec fn default_protocol() -> Seq<char> {
    "http"@
}

/// Path of the endpoint.
pub open spec fn rpc_endpoint() -> Seq<char> {
    "rpc/v0"@
}

/// One component of a multi-address, with addresses and names as text.
#[derive(Debug)]
pub enum Protocol {
    Ip6(String),
    Ip4(String),
    Dns(String),
    Dns4(String),
    Dns6(String),
    Dnsaddr(String),
    Tcp(u16),
    Http,
    Https,
    /// Any component that does not bear on the URL.
    Other,
}

/// The parts of the URL of an endpoint.
#[derive(Debug)]
pub struct Url {
    pub protocol: String,
    pub port: u16,
    pub host: String,
}

/// What a [`Url`] holds.
pub struct UrlModel {
    pub protocol: Seq<char>,
    pub port: u16,
    pub host: Seq<char>,
}

impl View for Url {
    type V = UrlModel;

    open spec fn view(&self) -> UrlModel {
        UrlModel { protocol: self.protocol@, port: self.port, host: self.host@ }
    }
}

/// The URL parts after one more component: an address or a name becomes the
/// host, a TCP port the port, `http` or `https` the scheme; anything else
/// changes nothing.
pub open spec fn with_component(url: UrlModel, part: Protocol) -> UrlModel {
    match part {
        Protocol::Ip6(host) => UrlModel { host: host@, ..url },
        Protocol::Ip4(host) => UrlModel { host: host@, ..url },
        Protocol::Dns(host) => UrlModel { host: host@, ..url },
        Protocol::Dns4(host) => UrlModel { host: host@, ..url },
        Protocol::Dns6(host) => UrlModel { host: host@, ..url },
        Protocol::Dnsaddr(host) => UrlModel { host: host@, ..url },
        Protocol::Tcp(port) => UrlModel { port: port, ..url },
        Protocol::Http => UrlModel { protocol: "http"@, ..url },
        Protocol::Https => UrlModel { protocol: "https"@, ..url },
        Protocol::Other => url,
    }
}

/// The URL parts that the components of a multi-address give, starting from
/// the defaults and taking the components in order, so that of two that set
/// the same part the later one stands.
pub open spec fn url_parts(parts: Seq<Protocol>) -> UrlModel
    decreases parts.len(),
{
    if parts.len() == 0 {
        UrlModel { protocol: default_protocol(), port: DEFAULT_PORT, host: default_host() }
    } else {
        with_component(url_parts(parts.drop_last()), parts.last())
    }
}

/// The character of a decimal digit.
pub open spec fn digit_char(d: nat) -> char {
    if d == 0 {
        '0'
    } else if d == 1 {
        '1'
    } else if d == 2 {
        '2'
    } else if d == 3 {
        '3'
    } else if d == 4 {
        '4'
    } else if d == 5 {
        '5'
    } else if d == 6 {
        '6'
    } else if d == 7 {
        '7'
    } else if d == 8 {
        '8'
    } else {
        '9'
    }
}

/// A number in decimal, without leading zeros.
pub open spec fn decimal(n: nat) -> Seq<char>
    decreases n,
{
    if n < 10 {
        seq![digit_char(n)]
    } else {
        decimal(n / 10) + seq![digit_char(n % 10)]
    }
}

/// The URL as text: scheme, host, port and the path of the endpoint.
pub open spec fn url_text(url: UrlModel) -> Seq<char> {
    url.protocol + "://"@ + url.host + ":"@ + decimal(url.port as nat) + "/"@ + rpc_endpoint()
}

fn digit_text(d: u16) -> (text: &'static str)
    requires
        d < 10,
    ensures
        text@ == seq![digit_char(d as nat)],
{
    proof {
        reveal_strlit("0");
        reveal_strlit("1");
        reveal_strlit("2");
        reveal_strlit("3");
        reveal_strlit("4");
        reveal_strlit("5");
        reveal_strlit("6");
        reveal_strlit("7");
        reveal_strlit("8");
        reveal_strlit("9");
    }
    let text = if d == 0 {
        "0"
    } else if d == 1 {
        "1"
    } else if d == 2 {
        "2"
    } else if d == 3 {
        "3"
    } else if d == 4 {
        "4"
    } else if d == 5 {
        "5"
    } else if d == 6 {
        "6"
    } else if d == 7 {
        "7"
    } else if d == 8 {
        "8"
    } else {
        "9"
    };
    proof {
        assert(text@ =~= seq![digit_char(d as nat)]);
    }
    text
}

/// Writes a port number in decimal.
pub fn port_text(port: u16) -> (text: String)
    ensures
        text@ == decimal(port as nat),
    decreases port,
{
    if port < 10 {
        digit_text(port).to_owned()
    } else {
        let mut text = port_text(port / 10);
        text.append(digit_text(port % 10));
        text
    }
}

/// Applies one component of a multi-address to the URL parts.
fn apply_component(url: &mut Url, part: &Protocol)
    ensures
        final(url)@ == with_component(old(url)@, *part),
{
    match part {
        Protocol::Ip6(host) => {
            url.host = host.clone();
        },
        Protocol::Ip4(host) => {
            url.host = host.clone();
        },
        Protocol::Dns(host) => {
            url.host = host.clone();
        },
        Protocol::Dns4(host) => {
            url.host = host.clone();
        },
        Protocol::Dns6(host) => {
            url.host = host.clone();
        },
        Protocol::Dnsaddr(host) => {
            url.host = host.clone();
        },
        Protocol::Tcp(port) => {
            url.port = *port;
        },
        Protocol::Http => {
            url.protocol = "http".to_owned();
        },
        Protocol::Https => {
            url.protocol = "https".to_owned();
        },
        Protocol::Other => {},
    }
}

/// Folds the components of a multi-address into the parts of a URL; see
/// [`url_parts`].
pub fn fold_url(parts: &Vec<Protocol>) -> (url: Url)
    ensures
        url@ == url_parts(parts@),
{
    let mut url = Url {
        protocol: "http".to_owned(),
        port: DEFAULT_PORT,
        host: "127.0.0.1".to_owned(),
    };
    let mut i: usize = 0;
    proof {
        assert(parts@.subrange(0, 0) =~= Seq::<Protocol>::empty());
    }
    while i < parts.len()
        invariant
            i <= parts@.len(),
            url@ == url_parts(parts@.subrange(0, i as int)),
        decreases parts@.len() - i,
    {
        proof {
            let next = parts@.subrange(0, i + 1);
            assert(next.drop_last() =~= parts@.subrange(0, i as int));
            assert(next.last() == parts@[i as int]);
        }
        apply_component(&mut url, &parts[i]);
        i += 1;
    }
    proof {
        assert(parts@.subrange(0, parts@.len() as int) =~= parts@);
    }
    url
}

/// Parses a multi-address into a URL: the URL of the endpoint that the
/// components name, with the defaults for what they leave open.
pub fn multiaddress_to_url(multiaddr: Vec<Protocol>) -> (url: String)
    ensures
        url@ == url_text(url_parts(multiaddr@)),
{
    let addr = fold_url(&multiaddr);
    let mut url = addr.protocol;
    url.append("://");
    url.append(addr.host.as_str());
    url.append(":");
    url.append(port_text(addr.port).as_str());
    url.append("/");
    url.append("rpc/v0");
    url
}

/// Position of the first `:` in `text`, or its length where there is none.
pub open spec fn first_colon(text: Seq<char>) -> int
    decreases text.len(),
{
    if text.len() == 0 {
        0
    } else if text[0] == ':' {
        0
    } else {
        1 + first_colon(text.drop_first())
    }
}

/// A position before which no colon stands, and which holds one or is the
/// end, is the position of the first colon.
proof fn lemma_first_colon_found(text: Seq<char>, at: int)
    requires
        0 <= at <= text.len(),
        forall|i: int| 0 <= i < at ==> text[i] != ':',
        at < text.len() ==> text[at] == ':',
    ensures
        first_colon(text) == at,
    decreases text.len(),
{
    if text.len() > 0 && at > 0 {
        let rest = text.drop_first();
        assert(text[0] != ':');
        assert forall|i: int| 0 <= i < at - 1 implies rest[i] != ':' by {
            assert(rest[i] == text[i + 1]);
        }
        if at - 1 < rest.len() {
            assert(rest[at - 1] == text[at]);
        }
        lemma_first_colon_found(rest, at - 1);
    }
}

/// The setting that names the endpoint, taken apart: where it holds a colon,
/// the token before the first one and the multi-address after it; else no
/// token, and the whole setting as the multi-address.
pub fn split_api_info(info: &str) -> (parts: (Option<String>, String))
    ensures
        first_colon(info@) < info@.len() ==> parts.0 is Some && parts.0->0@ == info@.subrange(
            0,
            first_colon(info@),
        ) && parts.1@ == info@.subrange(first_colon(info@) + 1, info@.len() as int),
        first_colon(info@) >= info@.len() ==> parts.0 is None && parts.1@ == info@,
{
    let len = info.unicode_len();
    let mut at: usize = 0;
    while at < len && info.get_char(at) != ':'
        invariant
            at <= len == info@.len(),
            forall|i: int| 0 <= i < at ==> info@[i] != ':',
        decreases len - at,
    {
        at += 1;
    }
    proof {
        lemma_first_colon_found(info@, at as int);
    }
    if at < len {
        let token = info.substring_char(0, at).to_owned();
        let address = info.substring_char(at + 1, len).to_owned();
        (Some(token), address)
    } else {
        (None, info.to_owned())
    }
}

/// Error object in a response.
#[derive(Debug)]
pub struct JsonRpcError {
    pub code: i64,
    pub message: String,
}

/// A response of the endpoint: the result of the call, or the error that the
/// endpoint reports.
#[derive(Debug)]
pub enum JsonRpcResponse<R> {
    Result { result: R },
    Error { error: JsonRpcError },
}

/// Why a call gave no result.
#[derive(Debug)]
pub enum CallError {
    /// The HTTP status of the response was not one of success.
    Http { status: u16 },
    /// The body of the response could not be read as a response.
    Parse { reason: String },
    /// The endpoint answered with an error.
    Remote { code: i64, message: String },
}

/// The token that a request carries: the one configured for the endpoint if
/// there is one, else the one given with the call.
pub fn authorization(configured: &Option<String>, given: &Option<String>) -> (token: Option<String>)
    ensures
        token == if configured is Some {
            *configured
        } else {
            *given
        },
{
    match configured {
        Some(jwt) => Some(jwt.clone()),
        None => match given {
            Some(jwt) => Some(jwt.clone()),
            None => None,
        },
    }
}

/// Whether an HTTP status is one of success: 200 to 299.
pub fn is_success(status: u16) -> (success: bool)
    ensures
        success == (200 <= status < 300),
{
    200 <= status && status < 300
}

/// What a response comes to. A status other than success is an error whatever
/// the body holds; a body that could not be read is an error; an error that
/// the endpoint reports is passed on with its code and message; and only a
/// result is a result.
pub fn conclude<R>(status: u16, body: Result<JsonRpcResponse<R>, String>) -> (outcome: Result<
    R,
    CallError,
>)
    ensures
        outcome == if !(200 <= status < 300) {
            Err::<R, CallError>(CallError::Http { status })
        } else {
            match body {
                Err(reason) => Err(CallError::Parse { reason }),
                Ok(JsonRpcResponse::Error { error }) => Err(
                    CallError::Remote { code: error.code, message: error.message },
                ),
                Ok(JsonRpcResponse::Result { result }) => Ok(result),
            }
        },
{
    if !is_success(status) {
        return Err(CallError::Http { status });
    }
    match body {
        Err(reason) => Err(CallError::Parse { reason }),
        Ok(JsonRpcResponse::Error { error }) => Err(
            CallError::Remote { code: error.code, message: error.message },
        ),
        Ok(JsonRpcResponse::Result { result }) => Ok(result),
    }
}

} // verus!
