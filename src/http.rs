//! The shape of an HTTP request as the builders produce it, and the status
//! classes that every response handler starts from.
use crate::error::{is_status_error, Error};
use crate::text::{pairs, push_pair};
use vstd::prelude::*;
use vstd::string::*;

verus! {

/// The header that carries the API key on every request.
pub open spec fn api_key_header() -> Seq<char> {
    "x-api-key"@
}

/// HTTP method of a request.
#[derive(Debug, Clone, Copy, PartialEq, Eq, Structural)]
pub enum HttpMethod {
    Get,
    Post,
    Patch,
    Delete,
}

/// Where the bytes of an uploaded file come from.
#[derive(Debug, Clone)]
pub enum FileSource {
    /// The contents of the file at this path, read when the request is sent.
    Path(String),
    /// These bytes.
    Bytes(Vec<u8>),
}

/// The file part of a multipart form.
#[derive(Debug, Clone)]
pub struct FilePart {
    /// Name of the form field.
    pub field: String,
    /// File name sent with the part.
    pub file_name: String,
    /// MIME type of the part.
    pub mime: String,
    /// The bytes of the part.
    pub source: FileSource,
}

/// Body of a request.
#[derive(Debug, Clone)]
pub enum RequestBody {
    /// No body.
    Empty,
    /// This text, sent as it is.
    Text(String),
    /// The contents of the file at this path, sent as an octet stream.
    File(String),
    /// A multipart form of a text part named `request` and one file part.
    Multipart { request: String, file: FilePart },
}

/// An HTTP request, ready to be sent.
#[derive(Debug, Clone)]
pub struct Request {
    pub method: HttpMethod,
    pub url: String,
    /// Headers in the order they are set; the API key comes first.
    pub headers: Vec<(String, String)>,
    /// Query parameters in the order they are written.
    pub query: Vec<(String, String)>,
    pub body: RequestBody,
}

/// The headers of a request that carries only the API key.
pub open spec fn key_headers(key: Seq<char>) -> Seq<(Seq<char>, Seq<char>)> {
    seq![(api_key_header(), key)]
}

/// The headers of a request with a JSON body.
pub open spec fn json_headers(key: Seq<char>) -> Seq<(Seq<char>, Seq<char>)> {
    seq![(api_key_header(), key), ("Content-Type"@, "application/json"@)]
}

/// The headers that carry only the API key.
pub fn api_headers(api_key: &String) -> (r: Vec<(String, String)>)
    ensures
        pairs(r@) == key_headers(api_key@),
{
    let mut h: Vec<(String, String)> = Vec::new();
    push_pair(&mut h, "x-api-key", api_key.clone());
    assert(pairs(h@) =~= key_headers(api_key@));
    h
}

/// The API key header followed by a JSON content type.
pub fn api_json_headers(api_key: &String) -> (r: Vec<(String, String)>)
    ensures
        pairs(r@) == json_headers(api_key@),
{
    let mut h = api_headers(api_key);
    push_pair(&mut h, "Content-Type", String::from_str("application/json"));
    assert(pairs(h@) =~= json_headers(api_key@));
    h
}

/// A 2xx status.
pub open spec fn is_success_code(code: u16) -> bool {
    200 <= code <= 299
}

/// Whether `code` is a 2xx status.
pub fn is_success(code: u16) -> (r: bool)
    ensures
        r == is_success_code(code),
{
    200 <= code && code <= 299
}

/// Classifies a response whose failures carry the body text as their
/// message: a 2xx status hands back the body, any other status is an HTTP
/// status error with the status code and the body.
pub fn handle_text_status(status: u16, body: String) -> (r: Result<String, Error>)
    ensures
        is_success_code(status) ==> r == Ok::<String, Error>(body),
        !is_success_code(status) ==> (r matches Err(e) && is_status_error(e, status, body@)),
{
    if is_success(status) {
        Ok(body)
    } else {
        Err(Error::HttpStatusError { code: status, msg: body })
    }
}

/// The reason phrase that HTTP registers for a status code; empty for a
/// code it does not know.
pub uninterp spec fn reason_phrase(code: u16) -> Seq<char>;

/// Relies on `StatusCode::from_u16` and `StatusCode::canonical_reason` of
/// the http types that reqwest re-exports: the registered phrase of the
/// code, a function of the code alone.
#[verifier::external_body]
pub(crate) fn canonical_reason(code: u16) -> (r: String)
    ensures
        r@ == reason_phrase(code),
{
    match reqwest::StatusCode::from_u16(code) {
        Ok(s) => s.canonical_reason().unwrap_or_default().to_string(),
        Err(_) => String::new(),
    }
}

/// A GET request with the API key header and no body.
pub fn get_request(api_key: &String, url: String, query: Vec<(String, String)>) -> (r: Request)
    ensures
        r.method == HttpMethod::Get,
        r.url == url,
        pairs(r.headers@) == key_headers(api_key@),
        r.query == query,
        r.body is Empty,
{
    Request { method: HttpMethod::Get, url, headers: api_headers(api_key), query, body: RequestBody::Empty }
}

/// A request of `method` with the API key header, a JSON content type and
/// the JSON `body`.
pub fn json_request(method: HttpMethod, api_key: &String, url: String, query: Vec<(String, String)>, body: String) -> (r: Request)
    ensures
        r.method == method,
        r.url == url,
        pairs(r.headers@) == json_headers(api_key@),
        r.query == query,
        r.body == RequestBody::Text(body),
{
    Request { method, url, headers: api_json_headers(api_key), query, body: RequestBody::Text(body) }
}

} // verus!
