//! Publishing a place file as a new version of a place.
use crate::error::{is_status_error, Error};
use crate::http::{
    canonical_reason, is_success, is_success_code, reason_phrase, HttpMethod, Request, RequestBody,
};
use crate::json::{json_u64_at, json_u64_field};
use crate::text::{concat, decimal, pairs, push_pair, single_pair};
use crate::types::{PlaceId, UniverseId};
use vstd::prelude::*;
use vstd::string::*;

verus! {

/// Whether a published version is only saved or also made live.
#[derive(Debug, Clone, Copy, PartialEq, Eq, Structural)]
pub enum PublishVersionType {
    /// Saved as a version, not made live.
    Saved,
    /// Saved and made live.
    Published,
}

/// The name of a version type, as the service reads it.
pub open spec fn version_type_name(v: PublishVersionType) -> Seq<char> {
    match v {
        PublishVersionType::Saved => "Saved"@,
        PublishVersionType::Published => "Published"@,
    }
}

impl PublishVersionType {
    /// The name of the version type.
    pub fn to_string(&self) -> (r: String)
        ensures
            r@ == version_type_name(*self),
    {
        match self {
            PublishVersionType::Saved => String::from_str("Saved"),
            PublishVersionType::Published => String::from_str("Published"),
        }
    }
}

/// Parameters of publishing a place file.
pub struct PublishExperienceParams {
    pub api_key: String,
    pub universe_id: UniverseId,
    pub place_id: PlaceId,
    pub version_type: PublishVersionType,
    pub filename: String,
}

/// What the service answers to a publish: the number of the new version.
#[derive(Debug, Clone, Copy, PartialEq, Eq, Structural)]
pub struct PublishExperienceResponse {
    pub version_number: u64,
}

/// The URL that publishes a place.
pub open spec fn publish_url(universe_id: UniverseId, place_id: PlaceId, v: PublishVersionType) -> Seq<char> {
    "https://apis.roblox.com/universes/v1/"@ + decimal(universe_id.0 as nat) + "/places/"@
        + decimal(place_id.0 as nat) + "/versions?versionType="@ + version_type_name(v)
}

/// The request that publishes the place file at `filename`, sent as an
/// octet stream.
pub fn publish_experience(params: &PublishExperienceParams) -> (r: Request)
    ensures
        r.method == HttpMethod::Post,
        r.url@ == publish_url(params.universe_id, params.place_id, params.version_type),
        pairs(r.headers@) == seq![
            ("x-api-key"@, params.api_key@),
            ("Content-Type"@, "application/octet-stream"@),
        ],
        r.query@.len() == 0,
        r.body matches RequestBody::File(f) && f@ == params.filename@,
{
    let u = params.universe_id.to_string();
    let p = params.place_id.to_string();
    let v = params.version_type.to_string();
    let mut url = concat("https://apis.roblox.com/universes/v1/", u.as_str());
    url.append("/places/");
    url.append(p.as_str());
    url.append("/versions?versionType=");
    url.append(v.as_str());
    let mut h = single_pair("x-api-key", params.api_key.clone());
    push_pair(&mut h, "Content-Type", String::from_str("application/octet-stream"));
    assert(pairs(h@) =~= seq![
        ("x-api-key"@, params.api_key@),
        ("Content-Type"@, "application/octet-stream"@),
    ]);
    Request {
        method: HttpMethod::Post,
        url,
        headers: h,
        query: Vec::new(),
        body: RequestBody::File(params.filename.clone()),
    }
}

/// The message of a failed publish: one per status the service documents,
/// and the reason phrase of any other.
pub open spec fn publish_message(code: u16) -> Seq<char> {
    if code == 400 {
        "invalid request or file content"@
    } else if code == 401 {
        "api key not valid for operation"@
    } else if code == 403 {
        "publish not allowed on place"@
    } else if code == 404 {
        "place or universe does not exist"@
    } else if code == 409 {
        "place not part of the universe"@
    } else if code == 500 {
        "internal server error"@
    } else {
        reason_phrase(code)
    }
}

/// The error of a failed publish with status `code`.
pub fn publish_status_error(code: u16) -> (r: Error)
    ensures
        is_status_error(r, code, publish_message(code)),
{
    let msg = if code == 400 {
        String::from_str("invalid request or file content")
    } else if code == 401 {
        String::from_str("api key not valid for operation")
    } else if code == 403 {
        String::from_str("publish not allowed on place")
    } else if code == 404 {
        String::from_str("place or universe does not exist")
    } else if code == 409 {
        String::from_str("place not part of the universe")
    } else if code == 500 {
        String::from_str("internal server error")
    } else {
        canonical_reason(code)
    };
    Error::HttpStatusError { code, msg }
}

impl PublishExperienceResponse {
    /// Reads the answer to a publish out of a JSON body: the unsigned
    /// integer at `versionNumber`, unchanged.
    pub fn decode(body: &str) -> (r: Result<PublishExperienceResponse, Error>)
        ensures
            match json_u64_at(body@, "versionNumber"@) {
                Some(v) => r == Ok::<PublishExperienceResponse, Error>(PublishExperienceResponse { version_number: v }),
                None => r matches Err(e) && e is SerdeJsonError,
            },
    {
        match json_u64_field(body, "versionNumber") {
            Some(v) => Ok(PublishExperienceResponse { version_number: v }),
            None => Err(Error::SerdeJsonError(String::from_str("response body holds no version number"))),
        }
    }
}

/// Classifies the response to a publish: a 2xx status yields the version
/// number of the body, any other the error of its status.
pub fn handle_publish_response(status: u16, body: &str) -> (r: Result<PublishExperienceResponse, Error>)
    ensures
        is_success_code(status) ==> match json_u64_at(body@, "versionNumber"@) {
            Some(v) => r == Ok::<PublishExperienceResponse, Error>(PublishExperienceResponse { version_number: v }),
            None => r matches Err(e) && e is SerdeJsonError,
        },
        !is_success_code(status) ==> (r matches Err(e) && is_status_error(e, status, publish_message(status))),
{
    if is_success(status) {
        PublishExperienceResponse::decode(body)
    } else {
        Err(publish_status_error(status))
    }
}

} // verus!
