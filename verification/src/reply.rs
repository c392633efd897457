use vstd::prelude::*;
use actix_http::StatusCode;

verus! {

/// The body of every refused request.
pub open spec fn spec_unauthorized_body() -> Seq<char> {
    "{\"status\": \"unauthorized\"}"@
}

/// The header that keeps API answers out of caches.
pub open spec fn no_cache_header() -> (Seq<char>, Seq<char>) {
    ("Cache-Control"@, "no-cache"@)
}

/// An HTTP answer: status code, headers in the order they are set, body.
pub struct Reply {
    pub status: u16,
    pub headers: Vec<(String, String)>,
    pub body: String,
}

/// What a `Reply` says, with texts as character sequences.
pub struct ReplyView {
    pub status: u16,
    pub headers: Seq<(Seq<char>, Seq<char>)>,
    pub body: Seq<char>,
}

impl View for Reply {
    type V = ReplyView;

    open spec fn view(&self) -> ReplyView {
        ReplyView {
            status: self.status,
            headers: self.headers@.map_values(|h: (String, String)| (h.0@, h.1@)),
            body: self.body@,
        }
    }
}

/// The answer to a request that the account may not make: `401` with
/// `Cache-Control: no-cache` and the unauthorized body.
pub open spec fn spec_unauthorized_response() -> ReplyView {
    ReplyView { status: 401, headers: seq![no_cache_header()], body: spec_unauthorized_body() }
}

/// The answer to a request that was served: `200` with
/// `Cache-Control: no-cache` and the given body.
pub open spec fn spec_fresh_ok(body: Seq<char>) -> ReplyView {
    ReplyView { status: 200, headers: seq![no_cache_header()], body }
}

/// The header that marks a JSON body.
pub open spec fn json_content_type_header() -> (Seq<char>, Seq<char>) {
    ("content-type"@, "application/json"@)
}

/// The answer to a request that was served with a JSON document: `200`
/// with `Cache-Control: no-cache`, then the JSON content type, and the
/// document as body.
pub open spec fn spec_fresh_json_ok(json: Seq<char>) -> ReplyView {
    ReplyView { status: 200, headers: seq![no_cache_header(), json_content_type_header()], body: json }
}

/// The header that marks a plain-text body.
pub open spec fn text_content_type_header() -> (Seq<char>, Seq<char>) {
    ("content-type"@, "text/plain; charset=utf-8"@)
}

/// The answer to a request that no signed-in account makes: `401` with a
/// plain-text content type and the unauthorized body.
pub open spec fn spec_not_signed_in_response() -> ReplyView {
    ReplyView { status: 401, headers: seq![text_content_type_header()], body: spec_unauthorized_body() }
}

/// `StatusCode::from_u16` of the `http` crate that actix re-exports, read
/// back with `as_u16`: its source accepts exactly the codes from 100 to 999
/// and keeps the number it was given.
#[verifier::external_body]
fn status_from_u16(code: u16) -> (r: Option<u16>)
    ensures
        r == (if 100 <= code < 1000 { Some(code) } else { None::<u16> }),
{
    match StatusCode::from_u16(code) {
        Ok(status) => Some(status.as_u16()),
        Err(_) => None,
    }
}

fn no_cache_headers() -> (h: Vec<(String, String)>)
    ensures
        h@.len() == 1,
        (h@[0].0@, h@[0].1@) == no_cache_header(),
{
    let name: String = "Cache-Control".to_owned();
    let value: String = "no-cache".to_owned();
    let mut h: Vec<(String, String)> = Vec::new();
    h.push((name, value));
    h
}

/// The body of every refused request, also the one of the `401` that a
/// request without a signed-in account gets.
pub fn unauthorized_body() -> (s: String)
    ensures
        s@ == spec_unauthorized_body(),
{
    "{\"status\": \"unauthorized\"}".to_owned()
}

/// The answer to a request that the account may not make.
pub fn unauthorized_response() -> (r: Reply)
    ensures
        r@ == spec_unauthorized_response(),
{
    let status: u16 = status_from_u16(401).unwrap();
    let body = unauthorized_body();
    let headers = no_cache_headers();
    let r = Reply { status, headers, body };
    assert(r@.headers[0] == no_cache_header());
    assert(r@.headers =~= seq![no_cache_header()]);
    r
}

/// The answer to a request that was served, carrying `body`.
pub fn fresh_ok(body: String) -> (r: Reply)
    ensures
        r@ == spec_fresh_ok(body@),
{
    let headers = no_cache_headers();
    let r = Reply { status: 200, headers, body };
    assert(r@.headers[0] == no_cache_header());
    assert(r@.headers =~= seq![no_cache_header()]);
    r
}

/// The answer to a request that was served with the JSON document `json`.
pub fn fresh_json_ok(json: String) -> (r: Reply)
    ensures
        r@ == spec_fresh_json_ok(json@),
{
    let mut headers = no_cache_headers();
    let name: String = "content-type".to_owned();
    let value: String = "application/json".to_owned();
    headers.push((name, value));
    let r = Reply { status: 200, headers, body: json };
    assert(r@.headers[0] == no_cache_header());
    assert(r@.headers[1] == json_content_type_header());
    assert(r@.headers =~= seq![no_cache_header(), json_content_type_header()]);
    r
}

/// The answer to a request that no signed-in account makes.
pub fn not_signed_in_response() -> (r: Reply)
    ensures
        r@ == spec_not_signed_in_response(),
{
    let status: u16 = status_from_u16(401).unwrap();
    let name: String = "content-type".to_owned();
    let value: String = "text/plain; charset=utf-8".to_owned();
    let mut headers: Vec<(String, String)> = Vec::new();
    headers.push((name, value));
    let body = unauthorized_body();
    let r = Reply { status, headers, body };
    assert(r@.headers[0] == text_content_type_header());
    assert(r@.headers =~= seq![text_content_type_header()]);
    r
}

} // verus!
