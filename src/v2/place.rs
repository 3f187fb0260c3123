//! Places: reading and partially updating.
use crate::http::{
    get_request, json_headers, json_request, key_headers, HttpMethod, Request, RequestBody,
};
use crate::text::{
    concat, decimal, i64_to_decimal, json_object, opt_str_field, pairs, push_json_field,
    push_str_field, signed_decimal, single_pair,
};
use crate::types::{PlaceId, UniverseId};
use crate::error::{malformed, Error};
use crate::json::{json_i64_at, json_i64_field, json_str_at, json_str_field};
use vstd::prelude::*;
use vstd::string::*;

verus! {

/// Parameters of reading a place.
pub struct GetPlaceParams {
    pub api_key: String,
    pub universe_id: UniverseId,
    pub place_id: PlaceId,
}

/// The fields of a place to change; an absent field is left out of the
/// request body.
#[derive(Debug, Clone)]
pub struct UpdatePlaceInfo {
    pub path: Option<String>,
    pub create_time: Option<String>,
    pub update_time: Option<String>,
    pub display_name: Option<String>,
    pub description: Option<String>,
    pub server_size: Option<i32>,
}

/// Parameters of a partial update of a place.
pub struct UpdatePlaceParams {
    pub api_key: String,
    pub universe_id: UniverseId,
    pub place_id: PlaceId,
    pub update_mask: String,
    pub info: UpdatePlaceInfo,
}

/// The members of the JSON body of an update: the present fields, in
/// declaration order, under their camel-case names.
pub open spec fn place_fields(info: UpdatePlaceInfo) -> Seq<(Seq<char>, Seq<char>)> {
    opt_str_field("path"@, info.path) + opt_str_field("createTime"@, info.create_time)
        + opt_str_field("updateTime"@, info.update_time) + opt_str_field(
        "displayName"@,
        info.display_name,
    ) + opt_str_field("description"@, info.description) + match info.server_size {
        Some(n) => seq![("serverSize"@, signed_decimal(n as int))],
        None => seq![],
    }
}

impl UpdatePlaceInfo {
    /// The JSON body of an update: only the present fields.
    pub fn to_json(&self) -> (r: String)
        ensures
            r@ == json_object(place_fields(*self)),
    {
        let mut f: Vec<(String, String)> = Vec::new();
        push_str_field(&mut f, "path", &self.path);
        push_str_field(&mut f, "createTime", &self.create_time);
        push_str_field(&mut f, "updateTime", &self.update_time);
        push_str_field(&mut f, "displayName", &self.display_name);
        push_str_field(&mut f, "description", &self.description);
        let size = match self.server_size {
            Some(n) => Some(i64_to_decimal(n as i64)),
            None => None,
        };
        push_json_field(&mut f, "serverSize", size);
        assert(pairs(f@) =~= place_fields(*self));
        crate::text::object_text(&f)
    }
}

/// The URL of a place.
pub open spec fn place_url(universe_id: UniverseId, place_id: PlaceId) -> Seq<char> {
    "https://apis.roblox.com/cloud/v2/universes/"@ + decimal(universe_id.0 as nat) + "/places/"@
        + decimal(place_id.0 as nat)
}

fn build_url(universe_id: UniverseId, place_id: PlaceId) -> (r: String)
    ensures
        r@ == place_url(universe_id, place_id),
{
    let u = universe_id.to_string();
    let p = place_id.to_string();
    let mut s = concat("https://apis.roblox.com/cloud/v2/universes/", u.as_str());
    s.append("/places/");
    s.append(p.as_str());
    s
}

/// The request that reads a place.
pub fn get_place(params: &GetPlaceParams) -> (r: Request)
    ensures
        r.method == HttpMethod::Get,
        r.url@ == place_url(params.universe_id, params.place_id),
        pairs(r.headers@) == key_headers(params.api_key@),
        r.query@.len() == 0,
        r.body is Empty,
{
    get_request(&params.api_key, build_url(params.universe_id, params.place_id), Vec::new())
}

/// The request that changes the fields of a place named by the update
/// mask. The body holds exactly the present fields of `info`.
pub fn update_place(params: &UpdatePlaceParams) -> (r: Request)
    ensures
        r.method == HttpMethod::Patch,
        r.url@ == place_url(params.universe_id, params.place_id),
        pairs(r.headers@) == json_headers(params.api_key@),
        pairs(r.query@) == seq![("updateMask"@, params.update_mask@)],
        r.body matches RequestBody::Text(b) && b@ == json_object(place_fields(params.info)),
{
    json_request(
        HttpMethod::Patch,
        &params.api_key,
        build_url(params.universe_id, params.place_id),
        single_pair("updateMask", params.update_mask.clone()),
        params.info.to_json(),
    )
}

/// A place.
#[derive(Debug, Clone)]
pub struct PlaceInfo {
    pub path: String,
    pub create_time: String,
    pub update_time: String,
    pub display_name: String,
    pub description: String,
    pub server_size: i32,
}

/// `body` has the JSON shape of a [`PlaceInfo`].
pub open spec fn place_info_parses(body: Seq<char>) -> bool {
    &&& json_str_at(body, "path"@) is Some
    &&& json_str_at(body, "createTime"@) is Some
    &&& json_str_at(body, "updateTime"@) is Some
    &&& json_str_at(body, "displayName"@) is Some
    &&& json_str_at(body, "description"@) is Some
    &&& json_i64_at(body, "serverSize"@) matches Some(x) && i32::MIN <= x <= i32::MAX
}

/// `body` is the JSON form of `v`.
pub open spec fn place_info_matches(body: Seq<char>, v: PlaceInfo) -> bool {
    &&& json_str_at(body, "path"@) == Some(v.path@)
    &&& json_str_at(body, "createTime"@) == Some(v.create_time@)
    &&& json_str_at(body, "updateTime"@) == Some(v.update_time@)
    &&& json_str_at(body, "displayName"@) == Some(v.display_name@)
    &&& json_str_at(body, "description"@) == Some(v.description@)
    &&& json_i64_at(body, "serverSize"@) == Some(v.server_size as i64)
}

impl PlaceInfo {
    /// Reads a [`PlaceInfo`] out of a JSON body; fails exactly when the body
    /// does not have its shape.
    pub fn decode(body: &str) -> (r: Result<PlaceInfo, Error>)
        ensures
            place_info_parses(body@) <==> r is Ok,
            r matches Ok(v) ==> place_info_matches(body@, v),
            r matches Err(e) ==> e is SerdeJsonError,
    {
        let path = match json_str_field(body, "path") {
            Some(x) => x,
            None => {
                return Err(malformed("PlaceInfo"));
            },
        };
        let create_time = match json_str_field(body, "createTime") {
            Some(x) => x,
            None => {
                return Err(malformed("PlaceInfo"));
            },
        };
        let update_time = match json_str_field(body, "updateTime") {
            Some(x) => x,
            None => {
                return Err(malformed("PlaceInfo"));
            },
        };
        let display_name = match json_str_field(body, "displayName") {
            Some(x) => x,
            None => {
                return Err(malformed("PlaceInfo"));
            },
        };
        let description = match json_str_field(body, "description") {
            Some(x) => x,
            None => {
                return Err(malformed("PlaceInfo"));
            },
        };
        let server_size = match json_i64_field(body, "serverSize") {
            Some(x) => {
                if x < -2147483648 || x > 2147483647 {
                    return Err(malformed("PlaceInfo"));
                }
                x as i32
            },
            None => {
                return Err(malformed("PlaceInfo"));
            },
        };
        Ok(PlaceInfo { path, create_time, update_time, display_name, description, server_size })
    }
}

} // verus!
