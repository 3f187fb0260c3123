//! Publishing a message to a topic of an experience.
use crate::error::{is_status_error, Error};
use crate::http::{
    api_json_headers, canonical_reason, is_success, is_success_code, json_headers, reason_phrase,
    HttpMethod, Request, RequestBody,
};
use crate::text::{concat, decimal, json_quote, json_string, pairs};
use crate::types::UniverseId;
use vstd::prelude::*;
use vstd::string::*;

verus! {

/// Parameters of publishing a message.
pub struct PublishMessageParams {
    pub api_key: String,
    pub universe_id: UniverseId,
    pub topic: String,
    pub message: String,
}

/// The URL of a topic of an experience.
pub open spec fn topic_url(universe_id: UniverseId, topic: Seq<char>) -> Seq<char> {
    "https://apis.roblox.com/messaging-service/v1/universes/"@ + decimal(universe_id.0 as nat)
        + "/topics/"@ + topic
}

/// The JSON body that carries a message.
pub open spec fn message_json(message: Seq<char>) -> Seq<char> {
    "{\"message\":"@ + json_string(message) + "}"@
}

/// The request that publishes a message to a topic.
pub fn publish_message(params: &PublishMessageParams) -> (r: Request)
    ensures
        r.method == HttpMethod::Post,
        r.url@ == topic_url(params.universe_id, params.topic@),
        pairs(r.headers@) == json_headers(params.api_key@),
        r.query@.len() == 0,
        r.body matches RequestBody::Text(b) && b@ == message_json(params.message@),
{
    let u = params.universe_id.to_string();
    let mut url = concat("https://apis.roblox.com/messaging-service/v1/universes/", u.as_str());
    url.append("/topics/");
    url.append(params.topic.as_str());
    let quoted = json_quote(params.message.as_str());
    let mut body = concat("{\"message\":", quoted.as_str());
    body.append("}");
    Request {
        method: HttpMethod::Post,
        url,
        headers: api_json_headers(&params.api_key),
        query: Vec::new(),
        body: RequestBody::Text(body),
    }
}

/// The message of a failed publish: one per status the service documents,
/// and the reason phrase of any other.
pub open spec fn messaging_message(code: u16) -> Seq<char> {
    if code == 400 {
        "invalid request"@
    } else if code == 401 {
        "api key not valid for operation"@
    } else if code == 403 {
        "publish not allowed on place"@
    } else if code == 500 {
        "internal server error"@
    } else {
        reason_phrase(code)
    }
}

/// Classifies the response to a published message.
pub fn handle_message_response(status: u16) -> (r: Result<(), Error>)
    ensures
        is_success_code(status) <==> r is Ok,
        !is_success_code(status) ==> (r matches Err(e) && is_status_error(e, status, messaging_message(status))),
{
    if is_success(status) {
        return Ok(());
    }
    let msg = if status == 400 {
        String::from_str("invalid request")
    } else if status == 401 {
        String::from_str("api key not valid for operation")
    } else if status == 403 {
        String::from_str("publish not allowed on place")
    } else if status == 500 {
        String::from_str("internal server error")
    } else {
        canonical_reason(status)
    };
    Err(Error::HttpStatusError { code: status, msg })
}

} // verus!
