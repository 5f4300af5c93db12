//! What is sent and what comes back: the description of an HTTP request, the
//! reply to it as the transport reports it, and the signing capability.

use crate::error::ApiError;
use vstd::prelude::*;
use vstd::string::StringExecFns;

verus! {

/// The origin that every API path is joined to.
pub const BASE_URL: &'static str = "https://music.163.com";

/// The number of seconds after which the transport gives a request up.
pub const TIMEOUT_SECONDS: u64 = 10;

/// The two styles of request.
#[derive(Clone, Copy, Debug, PartialEq, Eq, Structural)]
pub enum Method {
    /// Write-style: signed, with the fixed headers and the session token.
    Post,
    /// Read-style: the plain URL and nothing else.
    Get,
}

/// Which signing transform, and with it which header set, a request uses.
#[derive(Clone, Copy, Debug, PartialEq, Eq, Structural)]
pub enum CryptoApi {
    Weapi,
}

/// The transforms that turn plain text into what the server accepts. The
/// library calls them and claims nothing of what they return.
pub trait Cipher {
    /// Signs the text of a request's parameters; `None` if the transform
    /// fails on it.
    fn weapi(&self, text: &str) -> Option<String>;

    /// Turns the identifier of a resource into the path segment under which
    /// the asset host serves it.
    fn encrypt_id(&self, id: &str) -> String;
}

/// An HTTP request, ready for the transport.
#[derive(Debug, PartialEq, Eq)]
pub struct HttpRequest {
    pub method: Method,
    pub url: String,
    /// Header names and values, in the order in which they are set.
    pub headers: Vec<(String, String)>,
    /// The body; empty for a read-style request.
    pub body: String,
}

/// An [`HttpRequest`] as plain text.
pub struct HttpRequestView {
    pub method: Method,
    pub url: Seq<char>,
    pub headers: Seq<(Seq<char>, Seq<char>)>,
    pub body: Seq<char>,
}

impl View for HttpRequest {
    type V = HttpRequestView;

    open spec fn view(&self) -> HttpRequestView {
        HttpRequestView {
            method: self.method,
            url: self.url@,
            headers: self.headers@.map_values(|header: (String, String)| (header.0@, header.1@)),
            body: self.body@,
        }
    }
}

/// The `set-cookie` header of a reply.
#[derive(Debug, PartialEq, Eq)]
pub enum SetCookie {
    /// The reply has no such header.
    Absent,
    /// The header holds bytes that are not text.
    Unreadable,
    /// The header's value.
    Text(String),
}

/// A reply that arrived, whatever its status code.
#[derive(Debug, PartialEq, Eq)]
pub struct Reply {
    pub set_cookie: SetCookie,
    pub body: String,
}

/// What came of sending a request.
#[derive(Debug, PartialEq, Eq)]
pub enum Exchange {
    /// The transport failed: no connection, a timeout, or a body that could
    /// not be read.
    Failed,
    Answered(Reply),
}

/// What came of fetching a file.
#[derive(Debug, PartialEq, Eq)]
pub enum Fetched {
    /// The transport failed.
    Failed,
    Bytes(Vec<u8>),
}

/// The URL of an API path.
pub open spec fn endpoint(path: Seq<char>) -> Seq<char> {
    BASE_URL@ + path
}

/// The headers of a write-style request that presents itself as `agent`.
pub open spec fn post_headers(agent: Seq<char>) -> Seq<(Seq<char>, Seq<char>)> {
    seq![
        ("Cookie"@, "os=pc; appver=2.7.1.198277"@),
        ("Accept"@, "*/*"@),
        ("Accept-Encoding"@, "gzip,deflate"@),
        ("Accept-Language"@, "en-US,en;q=0.5"@),
        ("Connection"@, "keep-alive"@),
        ("Content-Type"@, "application/x-www-form-urlencoded"@),
        ("Host"@, "music.163.com"@),
        ("Referer"@, "https://music.163.com"@),
        ("User-Agent"@, agent),
    ]
}

/// The read-style request for `url`.
pub open spec fn get_request(url: Seq<char>) -> HttpRequestView {
    HttpRequestView { method: Method::Get, url, headers: Seq::empty(), body: Seq::empty() }
}

/// The write-style request for `url` that presents itself as `agent` and
/// carries `body`.
pub open spec fn post_request(url: Seq<char>, agent: Seq<char>, body: Seq<char>) -> HttpRequestView {
    HttpRequestView { method: Method::Post, url, headers: post_headers(agent), body }
}

/// Joins the origin and an API path.
pub fn endpoint_url(path: &str) -> (url: String)
    ensures
        url@ == endpoint(path@),
{
    let mut url = String::from_str(BASE_URL);
    url.append(path);
    url
}

fn header(name: &str, value: &str) -> (r: (String, String))
    ensures
        r.0@ == name@,
        r.1@ == value@,
{
    (String::from_str(name), String::from_str(value))
}

/// Builds a read-style request.
pub fn plain_get(url: String) -> (request: HttpRequest)
    ensures
        request@ == get_request(url@),
{
    let request = HttpRequest { method: Method::Get, url, headers: Vec::new(), body: String::new() };
    assert(request@.headers =~= Seq::empty());
    request
}

/// Builds a write-style request from what the signing transform returned.
///
/// With a signed body the request carries the fixed headers, the chosen
/// browser signature and that body. Without one the call has failed.
pub fn signed_post(url: String, agent: &str, signed: Option<String>) -> (r: Result<
    HttpRequest,
    ApiError,
>)
    ensures
        match signed {
            Some(body) => r matches Ok(request) && request@ == post_request(url@, agent@, body@),
            None => r == Err::<HttpRequest, ApiError>(ApiError::Signing),
        },
{
    match signed {
        None => Err(ApiError::Signing),
        Some(body) => {
            let mut headers: Vec<(String, String)> = Vec::new();
            headers.push(header("Cookie", "os=pc; appver=2.7.1.198277"));
            headers.push(header("Accept", "*/*"));
            headers.push(header("Accept-Encoding", "gzip,deflate"));
            headers.push(header("Accept-Language", "en-US,en;q=0.5"));
            headers.push(header("Connection", "keep-alive"));
            headers.push(header("Content-Type", "application/x-www-form-urlencoded"));
            headers.push(header("Host", "music.163.com"));
            headers.push(header("Referer", "https://music.163.com"));
            headers.push(header("User-Agent", agent));
            let request = HttpRequest { method: Method::Post, url, headers, body };
            assert(request@.headers =~= post_headers(agent@));
            Ok(request)
        },
    }
}

} // verus!
