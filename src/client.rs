//! Client configuration, request paths and REST response handling.

use vstd::prelude::*;
use vstd::string::*;
use vstd::utf8::encode_utf8;

use crate::error::Error;
use crate::types::{decimal, push_decimal};

verus! {

/// Seconds that a REST request may take unless configured otherwise.
pub const DEFAULT_TIMEOUT_SECS: u64 = 30;

/// Connection settings of a client.
#[derive(Debug, Clone)]
pub struct ClientConfig {
    /// Base URL of the platform instance.
    pub base_url: String,
    /// API token sent as a bearer credential.
    pub token: String,
    /// Overall timeout of a REST request, in seconds.
    pub timeout: u64,
}

impl ClientConfig {
    /// Settings for `base_url` and `token`, with the default timeout.
    pub fn new(base_url: &str, token: &str) -> (r: ClientConfig)
        ensures
            r.base_url@ == base_url@,
            r.token@ == token@,
            r.timeout == DEFAULT_TIMEOUT_SECS,
    {
        ClientConfig {
            base_url: base_url.to_owned(),
            token: token.to_owned(),
            timeout: DEFAULT_TIMEOUT_SECS,
        }
    }

    /// The same settings with a request timeout of `seconds`.
    pub fn timeout(self, seconds: u64) -> (r: ClientConfig)
        ensures
            r.base_url == self.base_url,
            r.token == self.token,
            r.timeout == seconds,
    {
        ClientConfig { timeout: seconds, ..self }
    }
}

/// `s` without its trailing slashes.
pub open spec fn trim_trailing_slashes(s: Seq<char>) -> Seq<char>
    decreases s.len(),
{
    if s.len() > 0 && s.last() == '/' {
        trim_trailing_slashes(s.drop_last())
    } else {
        s
    }
}

/// The parts of a parsed URL that the library reads.
#[derive(Debug, Clone)]
pub struct UrlParts {
    /// The scheme, as the parser normalised it.
    pub scheme: String,
    /// The host, where the URL has one.
    pub host: Option<String>,
    /// The port, where the URL names one other than the scheme's default.
    pub port: Option<u16>,
}

impl UrlParts {
    pub open spec fn view(&self) -> (Seq<char>, Option<Seq<char>>, Option<u16>) {
        (
            self.scheme@,
            match self.host {
                Some(h) => Some(h@),
                None => None,
            },
            self.port,
        )
    }
}

/// Scheme, host and port of the URL that `s` denotes, or `None` where `s` is
/// no valid URL, as the `url` crate parses it.
pub uninterp spec fn parsed_url(s: Seq<char>) -> Option<(Seq<char>, Option<Seq<char>>, Option<u16>)>;

/// Relies on `url::Url::parse`, and on the `scheme`, `host_str` and `port`
/// accessors of its result: the outcome depends on the text alone. A failure
/// is handed on as the parser's message.
#[verifier::external_body]
pub(crate) fn parse_url(s: &str) -> (r: Result<UrlParts, String>)
    ensures
        match r {
            Ok(p) => parsed_url(s@) == Some(p.view()),
            Err(_) => parsed_url(s@) is None,
        },
{
    match url::Url::parse(s) {
        Ok(u) => Ok(UrlParts {
            scheme: u.scheme().to_string(),
            host: u.host_str().map(|h| h.to_string()),
            port: u.port(),
        }),
        Err(e) => Err(e.to_string()),
    }
}

/// The connection error for a base URL that does not parse, with the parser's
/// message as its cause.
pub(crate) fn invalid_base_url(cause: String) -> (r: Error)
    ensures
        r matches Error::Connection(m) && m@ == "invalid base URL: "@ + cause@,
{
    let mut m = "invalid base URL: ".to_owned();
    m.append(cause.as_str());
    Error::Connection(m)
}

/// The WebSocket scheme that stands for a REST scheme.
pub open spec fn ws_scheme(scheme: Seq<char>) -> Seq<char> {
    if scheme == "https"@ {
        "wss"@
    } else {
        "ws"@
    }
}

/// The `:port` segment of a URL, empty where no port is named.
pub open spec fn port_segment(port: Option<u16>) -> Seq<char> {
    match port {
        Some(p) => ":"@ + decimal(p as nat),
        None => Seq::empty(),
    }
}

/// The WebSocket URL for `path` on the server of a parsed base URL, or `None`
/// where that URL has no host.
pub open spec fn ws_url_of(
    parts: (Seq<char>, Option<Seq<char>>, Option<u16>),
    path: Seq<char>,
) -> Option<Seq<char>> {
    match parts.1 {
        Some(host) => Some(ws_scheme(parts.0) + "://"@ + host + port_segment(parts.2) + path),
        None => None,
    }
}

/// Whether `s` is the scheme `https`.
fn is_https(s: &str) -> (r: bool)
    ensures
        r == (s@ == "https"@),
{
    proof {
        reveal_strlit("https");
    }
    if s.unicode_len() != 5 {
        return false;
    }
    let r = s.get_char(0) == 'h' && s.get_char(1) == 't' && s.get_char(2) == 't' && s.get_char(3)
        == 'p' && s.get_char(4) == 's';
    if r {
        assert(s@ =~= "https"@);
    }
    r
}

/// The WebSocket URL for `path` on the server that `parts` describe.
pub fn ws_url_from_parts(parts: &UrlParts, path: &str) -> (r: Result<String, Error>)
    ensures
        match ws_url_of(parts.view(), path@) {
            Some(u) => r matches Ok(s) && s@ == u,
            None => r matches Err(Error::Connection(m)) && m@ == "Invalid host"@,
        },
{
    match &parts.host {
        None => Err(Error::connection("Invalid host")),
        Some(host) => {
            let https = is_https(parts.scheme.as_str());
            let mut out = if https {
                "wss".to_owned()
            } else {
                "ws".to_owned()
            };
            out.append("://");
            out.append(host.as_str());
            if let Some(p) = parts.port {
                out.append(":");
                push_decimal(&mut out, p);
            }
            out.append(path);
            assert(out@ =~= ws_url_of(parts.view(), path@)->Some_0);
            Ok(out)
        },
    }
}

/// `s` without its trailing slashes.
fn trim_slashes(s: &str) -> (r: String)
    ensures
        r@ == trim_trailing_slashes(s@),
{
    let mut end: usize = s.unicode_len();
    assert(s@.subrange(0, end as int) =~= s@);
    while end > 0 && s.get_char(end - 1) == '/'
        invariant
            end <= s@.len(),
            trim_trailing_slashes(s@.subrange(0, end as int)) == trim_trailing_slashes(s@),
        decreases end,
    {
        assert(s@.subrange(0, end as int).drop_last() =~= s@.subrange(0, end - 1));
        end = end - 1;
    }
    s.substring_char(0, end).to_owned()
}

/// What every request of a client shares: the base URL, without trailing
/// slashes, and the token.
#[derive(Debug, Clone)]
pub struct Endpoint {
    pub base_url: String,
    pub token: String,
}

impl Endpoint {
    /// The endpoint that `config` describes.
    pub fn new(config: &ClientConfig) -> (r: Endpoint)
        ensures
            r.base_url@ == trim_trailing_slashes(config.base_url@),
            r.token@ == config.token@,
    {
        Endpoint {
            base_url: trim_slashes(config.base_url.as_str()),
            token: config.token.as_str().to_owned(),
        }
    }

    /// The full URL of the REST resource at `path`.
    pub fn url(&self, path: &str) -> (r: String)
        ensures
            r@ == self.base_url@ + path@,
    {
        let mut out = self.base_url.as_str().to_owned();
        out.append(path);
        out
    }

    /// The value of the `Authorization` header.
    pub fn authorization(&self) -> (r: String)
        ensures
            r@ == "Bearer "@ + self.token@,
    {
        let mut out = "Bearer ".to_owned();
        out.append(self.token.as_str());
        out
    }

    /// The headers that every REST request carries: the bearer credential,
    /// and a request for JSON replies.
    pub fn headers(&self) -> (r: Vec<(String, String)>)
        ensures
            r@.len() == 2,
            r@[0].0@ == "Authorization"@,
            r@[0].1@ == "Bearer "@ + self.token@,
            r@[1].0@ == "Accept"@,
            r@[1].1@ == "application/json"@,
    {
        let mut r: Vec<(String, String)> = Vec::new();
        r.push(("Authorization".to_owned(), self.authorization()));
        r.push(("Accept".to_owned(), "application/json".to_owned()));
        r
    }

    /// The WebSocket URL for `path` on the server of the base URL: `wss` for
    /// an `https` base and `ws` otherwise, with its host and port.
    pub fn ws_url(&self, path: &str) -> (r: Result<String, Error>)
        ensures
            match parsed_url(self.base_url@) {
                None => r matches Err(Error::Connection(_)),
                Some(parts) => match ws_url_of(parts, path@) {
                    Some(u) => r matches Ok(s) && s@ == u,
                    None => r matches Err(Error::Connection(m)) && m@ == "Invalid host"@,
                },
            },
    {
        match parse_url(self.base_url.as_str()) {
            Err(e) => Err(invalid_base_url(e)),
            Ok(parts) => ws_url_from_parts(&parts, path),
        }
    }
}

/// Whether an HTTP status is a success (2xx).
pub fn is_success(status: u16) -> (r: bool)
    ensures
        r == (200 <= status < 300),
{
    200 <= status && status < 300
}

/// The `error` string field of the JSON object that `body` holds, or `None`
/// where `body` is no JSON, no object, or has no such string field.
pub uninterp spec fn json_error_field(body: Seq<u8>) -> Option<Seq<char>>;

/// Relies on `serde_json::from_slice` into a `serde_json::Value`, then
/// `Value::get("error")` and `Value::as_str`: the outcome depends on the bytes
/// alone, and empty input is no JSON.
#[verifier::external_body]
fn error_field(body: &[u8]) -> (r: Option<String>)
    ensures
        match r {
            Some(m) => json_error_field(body@) == Some(m@),
            None => json_error_field(body@) is None,
        },
        body@.len() == 0 ==> r is None,
{
    serde_json::from_slice::<serde_json::Value>(body)
        .ok()
        .and_then(|v| v.get("error").and_then(|e| e.as_str()).map(|m| m.to_string()))
}

/// Message of an API error whose body had no usable `error` field.
pub open spec fn fallback_message() -> Seq<char> {
    "Unknown error"@
}

/// The API error for `status`, with the `error` field found in the body, if
/// any: the field's text, else a generic message.
pub fn error_from_field(status: u16, field: Option<String>) -> (r: Error)
    ensures
        r matches Error::Api { status_code: s, message: m } && s == status && m@ == match field {
            Some(f) => f@,
            None => fallback_message(),
        },
{
    match field {
        Some(m) => Error::Api { status_code: status, message: m },
        None => Error::api(status, "Unknown error"),
    }
}

/// The API error for a non-success response with `status` and `body`.
pub fn error_from_response(status: u16, body: &[u8]) -> (r: Error)
    ensures
        r matches Error::Api { status_code: s, message: m } && s == status && m@ == match json_error_field(body@) {
            Some(f) => f,
            None => fallback_message(),
        },
{
    error_from_field(status, error_field(body))
}

/// A byte that percent-encoding leaves as it is: an ASCII letter or digit, or
/// one of `-`, `.`, `_`, `~`.
pub open spec fn is_unreserved(b: u8) -> bool {
    (0x30 <= b <= 0x39) || (0x41 <= b <= 0x5a) || (0x61 <= b <= 0x7a) || b == 0x2d || b == 0x2e
        || b == 0x5f || b == 0x7e
}

/// The upper-case hexadecimal digit of `d`, below 16.
pub open spec fn hex_digit(d: u8) -> char {
    if d < 10 {
        ((0x30 + d) as u8) as char
    } else {
        ((0x37 + d) as u8) as char
    }
}

/// The text that stands for one byte in percent-encoding.
pub open spec fn encode_byte(b: u8) -> Seq<char> {
    if is_unreserved(b) {
        seq![b as char]
    } else {
        seq!['%', hex_digit(b / 16), hex_digit(b % 16)]
    }
}

/// `bytes` percent-encoded: every byte but the unreserved ones becomes `%`
/// and two upper-case hexadecimal digits.
pub open spec fn percent_encoded(bytes: Seq<u8>) -> Seq<char>
    decreases bytes.len(),
{
    if bytes.len() == 0 {
        Seq::empty()
    } else {
        percent_encoded(bytes.drop_last()) + encode_byte(bytes.last())
    }
}

/// Relies on `urlencoding::encode`: it percent-encodes the UTF-8 bytes of its
/// argument, keeping ASCII letters, digits and `-`, `.`, `_`, `~`.
#[verifier::external_body]
fn percent_encode(s: &str) -> (r: String)
    ensures
        r@ == percent_encoded(encode_utf8(s@)),
{
    urlencoding::encode(s).into_owned()
}

/// Path of the container collection.
pub fn containers_path() -> (r: String)
    ensures
        r@ == "/api/containers"@,
{
    "/api/containers".to_owned()
}

/// Path of the container `id`.
pub fn container_path(id: &str) -> (r: String)
    ensures
        r@ == "/api/containers/"@ + id@,
{
    let mut out = "/api/containers/".to_owned();
    out.append(id);
    out
}

/// Path of an action (`start`, `stop`) on the container `id`.
pub fn container_action_path(id: &str, action: &str) -> (r: String)
    ensures
        r@ == "/api/containers/"@ + id@ + "/"@ + action@,
{
    let mut out = container_path(id);
    out.append("/");
    out.append(action);
    out
}

/// Path that lists the directory `path` of the container `id`.
pub fn files_list_path(id: &str, path: &str) -> (r: String)
    ensures
        r@ == "/api/containers/"@ + id@ + "/files/list?path="@ + percent_encoded(encode_utf8(path@)),
{
    let mut out = container_path(id);
    out.append("/files/list?path=");
    let enc = percent_encode(path);
    out.append(enc.as_str());
    out
}

/// Path of the file `path` of the container `id`.
pub fn files_path(id: &str, path: &str) -> (r: String)
    ensures
        r@ == "/api/containers/"@ + id@ + "/files?path="@ + percent_encoded(encode_utf8(path@)),
{
    let mut out = container_path(id);
    out.append("/files?path=");
    let enc = percent_encode(path);
    out.append(enc.as_str());
    out
}

/// Path that creates a directory in the container `id`.
pub fn mkdir_path(id: &str) -> (r: String)
    ensures
        r@ == "/api/containers/"@ + id@ + "/files/mkdir"@,
{
    let mut out = container_path(id);
    out.append("/files/mkdir");
    out
}

} // verus!
