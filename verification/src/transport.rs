//! What every outbound request carries: the browser-like header set, and
//! the reading of a response status.

use crate::config::{prefix_before, short_language, AppStateRef};
use vstd::prelude::*;
use vstd::string::*;

verus! {

/// One header line of a request.
#[derive(Debug, Clone)]
pub struct Header {
    pub name: String,
    pub value: String,
}

/// A request up to its body: where it goes and the headers it carries, in
/// order. All requests of this client are sent with the POST method.
#[derive(Debug, Clone)]
pub struct RequestHead {
    pub url: String,
    pub headers: Vec<Header>,
}

/// The origin that requests claim to come from.
pub open spec fn endpoint() -> Seq<char> {
    "https://chat.openai.com"@
}

/// The address of the conversation endpoint.
pub open spec fn conversation_url() -> Seq<char> {
    "https://chat.openai.com/backend-anon/conversation"@
}

/// The address of the requirements endpoint.
pub open spec fn requirements_url() -> Seq<char> {
    "https://chat.openai.com/backend-anon/sentinel/chat-requirements"@
}

/// The browser that requests claim to be.
pub open spec fn user_agent() -> Seq<char> {
    "Mozilla/5.0 (Macintosh; Intel Mac OS X 10_15_7) AppleWebKit/537.36 (KHTML, like Gecko) Chrome/121.0.0.0 Safari/537.36 Edg/121.0.0.0"@
}

/// The browser brands that requests claim.
pub open spec fn client_hint_brands() -> Seq<char> {
    "\"Not A(Brand\";v=\"99\", \"Microsoft Edge\";v=\"121\", \"Chromium\";v=\"121\""@
}

/// The value of `Accept-Language`: the language, then its short form with a
/// lower weight.
pub open spec fn accept_language(lang: Seq<char>) -> Seq<char> {
    lang + ","@ + short_language(lang) + ";q=0.9"@
}

/// The headers common to all requests, in the order in which they are set.
pub open spec fn common_headers(lang: Seq<char>, device_id: Seq<char>) -> Seq<
    (Seq<char>, Seq<char>),
> {
    seq![
        ("oai-language"@, lang),
        ("oai-device-id"@, device_id),
        ("Accept"@, "*/*"@),
        ("Accept-Language"@, accept_language(lang)),
        ("Cache-Control"@, "no-cache"@),
        ("Pragma"@, "no-cache"@),
        ("Referer"@, endpoint()),
        ("Origin"@, endpoint()),
        ("Content-Type"@, "application/json"@),
        ("sec-ch-ua"@, client_hint_brands()),
        ("sec-ch-ua-mobile"@, "?0"@),
        ("sec-ch-ua-platform"@, "\"macOS\""@),
        ("sec-fetch-dest"@, "empty"@),
        ("sec-fetch-mode"@, "cors"@),
        ("sec-fetch-site"@, "same-origin"@),
        ("User-Agent"@, user_agent()),
    ]
}

/// The headers that only a completion call carries: the proof token and the
/// session token, each when it is there.
pub open spec fn sentinel_headers(token: Option<Seq<char>>, proof_token: Option<Seq<char>>) -> Seq<
    (Seq<char>, Seq<char>),
> {
    let first = match proof_token {
        Some(p) => seq![("openai-sentinel-proof-token"@, p)],
        None => Seq::empty(),
    };
    let second = match token {
        Some(t) => seq![("openai-sentinel-chat-requirements-token"@, t)],
        None => Seq::empty(),
    };
    first + second
}

/// The complete header set of a request.
pub open spec fn request_headers(
    lang: Seq<char>,
    device_id: Seq<char>,
    token: Option<Seq<char>>,
    proof_token: Option<Seq<char>>,
) -> Seq<(Seq<char>, Seq<char>)> {
    common_headers(lang, device_id) + sentinel_headers(token, proof_token)
}

/// The headers of a list as pairs of name and value.
pub open spec fn headers_view(headers: Seq<Header>) -> Seq<(Seq<char>, Seq<char>)> {
    Seq::new(headers.len(), |i: int| (headers[i].name@, headers[i].value@))
}

/// The view of an optional string slice.
pub open spec fn opt_str_view(item: Option<&str>) -> Option<Seq<char>> {
    match item {
        Some(s) => Some(s@),
        None => None,
    }
}

/// The address of the conversation endpoint.
pub fn conversation_endpoint() -> (url: &'static str)
    ensures
        url@ == conversation_url(),
{
    "https://chat.openai.com/backend-anon/conversation"
}

/// The address of the requirements endpoint.
pub fn requirements_endpoint() -> (url: &'static str)
    ensures
        url@ == requirements_url(),
{
    "https://chat.openai.com/backend-anon/sentinel/chat-requirements"
}

/// Whether a status code denotes success (the 2xx class).
pub open spec fn is_success(status: u16) -> bool {
    200 <= status < 300
}

/// Decides whether a response with the given status code succeeded.
pub fn status_is_success(status: u16) -> (ok: bool)
    ensures
        ok == is_success(status),
{
    200 <= status && status < 300
}

fn push_header(headers: &mut Vec<Header>, name: &str, value: &str)
    ensures
        headers_view(final(headers)@) == headers_view(old(headers)@).push((name@, value@)),
{
    headers.push(Header { name: String::from_str(name), value: String::from_str(value) });
    assert(headers_view(headers@) =~= headers_view(old(headers)@).push((name@, value@)));
}

/// Lays out the request to `url`: the common headers for the configured
/// language and the given device, then the proof token and the session
/// token where given. Every request carries exactly this set.
pub fn build_req(
    url: &str,
    device_id: &str,
    token: Option<&str>,
    proof_token: Option<&str>,
    state: AppStateRef,
) -> (head: RequestHead)
    ensures
        head.url@ == url@,
        headers_view(head.headers@) == request_headers(
            state.lang@,
            device_id@,
            opt_str_view(token),
            opt_str_view(proof_token),
        ),
{
    let short_lang = prefix_before(state.lang.as_str(), '-');
    let mut accept_lang = state.lang.clone();
    accept_lang.append(",");
    accept_lang.append(short_lang.as_str());
    accept_lang.append(";q=0.9");

    let mut headers: Vec<Header> = Vec::new();
    assert(headers_view(headers@) =~= Seq::empty());
    push_header(&mut headers, "oai-language", state.lang.as_str());
    push_header(&mut headers, "oai-device-id", device_id);
    push_header(&mut headers, "Accept", "*/*");
    push_header(&mut headers, "Accept-Language", accept_lang.as_str());
    push_header(&mut headers, "Cache-Control", "no-cache");
    push_header(&mut headers, "Pragma", "no-cache");
    push_header(&mut headers, "Referer", "https://chat.openai.com");
    push_header(&mut headers, "Origin", "https://chat.openai.com");
    push_header(&mut headers, "Content-Type", "application/json");
    push_header(
        &mut headers,
        "sec-ch-ua",
        "\"Not A(Brand\";v=\"99\", \"Microsoft Edge\";v=\"121\", \"Chromium\";v=\"121\"",
    );
    push_header(&mut headers, "sec-ch-ua-mobile", "?0");
    push_header(&mut headers, "sec-ch-ua-platform", "\"macOS\"");
    push_header(&mut headers, "sec-fetch-dest", "empty");
    push_header(&mut headers, "sec-fetch-mode", "cors");
    push_header(&mut headers, "sec-fetch-site", "same-origin");
    push_header(
        &mut headers,
        "User-Agent",
        "Mozilla/5.0 (Macintosh; Intel Mac OS X 10_15_7) AppleWebKit/537.36 (KHTML, like Gecko) Chrome/121.0.0.0 Safari/537.36 Edg/121.0.0.0",
    );
    assert(headers_view(headers@) =~= common_headers(state.lang@, device_id@));
    match proof_token {
        Some(p) => push_header(&mut headers, "openai-sentinel-proof-token", p),
        None => {},
    }
    match token {
        Some(t) => push_header(&mut headers, "openai-sentinel-chat-requirements-token", t),
        None => {},
    }
    assert(headers_view(headers@) =~= request_headers(
        state.lang@,
        device_id@,
        opt_str_view(token),
        opt_str_view(proof_token),
    ));
    RequestHead { url: String::from_str(url), headers }
}

} // verus!
