//! Users: profile information and avatar thumbnails.
use crate::http::{get_request, key_headers, HttpMethod, Request};
use crate::text::{concat, decimal, pairs, push_pair};
use crate::types::RobloxUserId;
use crate::error::{malformed, Error};
use crate::json::{
    json_bool_at, json_bool_field, json_str_at, json_str_field, json_sub_at, json_sub_text,
};
use vstd::prelude::*;
use vstd::string::*;

verus! {

/// Image format of a thumbnail.
#[derive(Debug, Clone, Copy, PartialEq, Eq, Structural)]
pub enum UserThumbnailFormat {
    Png,
    Jpeg,
}

/// The text of a format as it is sent: in double quotes, as the
/// debug form of its name writes it.
pub open spec fn format_text(v: UserThumbnailFormat) -> Seq<char> {
    match v {
        UserThumbnailFormat::Png => "\"PNG\""@,
        UserThumbnailFormat::Jpeg => "\"JPEG\""@,
    }
}

impl UserThumbnailFormat {
    /// The text of this value as it is sent.
    pub fn to_string(&self) -> (r: String)
        ensures
            r@ == format_text(*self),
    {
        match self {
            UserThumbnailFormat::Png => String::from_str("\"PNG\""),
            UserThumbnailFormat::Jpeg => String::from_str("\"JPEG\""),
        }
    }
}

/// Edge length of a thumbnail, in pixels.
#[derive(Debug, Clone, Copy, PartialEq, Eq, Structural)]
pub enum UserThumbnailSize {
    Size48x48,
    Size50x50,
    Size60x60,
    Size75x75,
    Size100x100,
    Size110x110,
    Size150x150,
    Size180x180,
    Size352x352,
    Size420x420,
    Size720x720,
}

/// The text of a size as it is sent: in double quotes, as the
/// debug form of its name writes it.
pub open spec fn size_text(v: UserThumbnailSize) -> Seq<char> {
    match v {
        UserThumbnailSize::Size48x48 => "\"48\""@,
        UserThumbnailSize::Size50x50 => "\"50\""@,
        UserThumbnailSize::Size60x60 => "\"60\""@,
        UserThumbnailSize::Size75x75 => "\"75\""@,
        UserThumbnailSize::Size100x100 => "\"100\""@,
        UserThumbnailSize::Size110x110 => "\"110\""@,
        UserThumbnailSize::Size150x150 => "\"150\""@,
        UserThumbnailSize::Size180x180 => "\"180\""@,
        UserThumbnailSize::Size352x352 => "\"352\""@,
        UserThumbnailSize::Size420x420 => "\"420\""@,
        UserThumbnailSize::Size720x720 => "\"720\""@,
    }
}

impl UserThumbnailSize {
    /// The text of this value as it is sent.
    pub fn to_string(&self) -> (r: String)
        ensures
            r@ == size_text(*self),
    {
        match self {
            UserThumbnailSize::Size48x48 => String::from_str("\"48\""),
            UserThumbnailSize::Size50x50 => String::from_str("\"50\""),
            UserThumbnailSize::Size60x60 => String::from_str("\"60\""),
            UserThumbnailSize::Size75x75 => String::from_str("\"75\""),
            UserThumbnailSize::Size100x100 => String::from_str("\"100\""),
            UserThumbnailSize::Size110x110 => String::from_str("\"110\""),
            UserThumbnailSize::Size150x150 => String::from_str("\"150\""),
            UserThumbnailSize::Size180x180 => String::from_str("\"180\""),
            UserThumbnailSize::Size352x352 => String::from_str("\"352\""),
            UserThumbnailSize::Size420x420 => String::from_str("\"420\""),
            UserThumbnailSize::Size720x720 => String::from_str("\"720\""),
        }
    }
}

/// Shape of a thumbnail.
#[derive(Debug, Clone, Copy, PartialEq, Eq, Structural)]
pub enum UserThumbnailShape {
    Round,
    Square,
}

/// The text of a shape as it is sent: in double quotes, as the
/// debug form of its name writes it.
pub open spec fn shape_text(v: UserThumbnailShape) -> Seq<char> {
    match v {
        UserThumbnailShape::Round => "\"ROUND\""@,
        UserThumbnailShape::Square => "\"SQUARE\""@,
    }
}

impl UserThumbnailShape {
    /// The text of this value as it is sent.
    pub fn to_string(&self) -> (r: String)
        ensures
            r@ == shape_text(*self),
    {
        match self {
            UserThumbnailShape::Round => String::from_str("\"ROUND\""),
            UserThumbnailShape::Square => String::from_str("\"SQUARE\""),
        }
    }
}

/// Parameters of reading a user.
pub struct GetUserParams {
    pub api_key: String,
    pub user_id: RobloxUserId,
}

/// Parameters of generating the avatar thumbnail of a user.
pub struct GenerateUserThumbnailParams {
    pub api_key: String,
    pub user_id: RobloxUserId,
    pub size: Option<UserThumbnailSize>,
    pub format: Option<UserThumbnailFormat>,
    pub shape: Option<UserThumbnailShape>,
}

/// The URL of a user, followed by `suffix`.
pub open spec fn user_url(user_id: RobloxUserId, suffix: Seq<char>) -> Seq<char> {
    "https://apis.roblox.com/cloud/v2/users/"@ + decimal(user_id.0 as nat) + suffix
}

fn build_url(user_id: RobloxUserId, suffix: &str) -> (r: String)
    ensures
        r@ == user_url(user_id, suffix@),
{
    let id = user_id.to_string();
    let mut s = concat("https://apis.roblox.com/cloud/v2/users/", id.as_str());
    s.append(suffix);
    s
}

/// The request that reads a user.
pub fn get_user(params: &GetUserParams) -> (r: Request)
    ensures
        r.method == HttpMethod::Get,
        r.url@ == user_url(params.user_id, seq![]),
        pairs(r.headers@) == key_headers(params.api_key@),
        r.query@.len() == 0,
        r.body is Empty,
{
    proof {
        reveal_strlit("");
    }
    get_request(&params.api_key, build_url(params.user_id, ""), Vec::new())
}

/// The query of a thumbnail request: each option that is present.
pub open spec fn thumbnail_query(params: GenerateUserThumbnailParams) -> Seq<(Seq<char>, Seq<char>)> {
    (match params.size {
        Some(v) => seq![("size"@, size_text(v))],
        None => seq![],
    }) + (match params.format {
        Some(v) => seq![("format"@, format_text(v))],
        None => seq![],
    }) + (match params.shape {
        Some(v) => seq![("shape"@, shape_text(v))],
        None => seq![],
    })
}

/// The request that generates the avatar thumbnail of a user.
pub fn generate_thumbnail(params: &GenerateUserThumbnailParams) -> (r: Request)
    ensures
        r.method == HttpMethod::Get,
        r.url@ == user_url(params.user_id, ":generateThumbnail"@),
        pairs(r.headers@) == key_headers(params.api_key@),
        pairs(r.query@) == thumbnail_query(*params),
        r.body is Empty,
{
    let mut q: Vec<(String, String)> = Vec::new();
    match params.size {
        Some(v) => push_pair(&mut q, "size", v.to_string()),
        None => {},
    }
    match params.format {
        Some(v) => push_pair(&mut q, "format", v.to_string()),
        None => {},
    }
    match params.shape {
        Some(v) => push_pair(&mut q, "shape", v.to_string()),
        None => {},
    }
    assert(pairs(q@) =~= thumbnail_query(*params));
    get_request(&params.api_key, build_url(params.user_id, ":generateThumbnail"), q)
}

/// Who can see the social network profiles of a user.
#[derive(Debug, Clone, Copy, PartialEq, Eq, Structural)]
pub enum UserSocialNetworkVisibility {
    SocialNetworkVisibilityUnspecified,
    NoOne,
    Friends,
    FriendsAndFollowing,
    FriendsFollowingAndFollowers,
    Everyone,
}

/// The social network profiles of a user.
#[derive(Debug, Clone)]
pub struct UserSocialNetworkProfiles {
    pub facebook: String,
    pub twitter: String,
    pub youtube: String,
    pub twitch: String,
    pub guilded: String,
    pub visibility: String,
}

/// `body` has the JSON shape of a [`UserSocialNetworkProfiles`].
pub open spec fn user_social_network_profiles_parses(body: Seq<char>) -> bool {
    &&& json_str_at(body, "facebook"@) is Some
    &&& json_str_at(body, "twitter"@) is Some
    &&& json_str_at(body, "youtube"@) is Some
    &&& json_str_at(body, "twitch"@) is Some
    &&& json_str_at(body, "guilded"@) is Some
    &&& json_str_at(body, "visibility"@) is Some
}

/// `body` is the JSON form of `v`.
pub open spec fn user_social_network_profiles_matches(body: Seq<char>, v: UserSocialNetworkProfiles) -> bool {
    &&& json_str_at(body, "facebook"@) == Some(v.facebook@)
    &&& json_str_at(body, "twitter"@) == Some(v.twitter@)
    &&& json_str_at(body, "youtube"@) == Some(v.youtube@)
    &&& json_str_at(body, "twitch"@) == Some(v.twitch@)
    &&& json_str_at(body, "guilded"@) == Some(v.guilded@)
    &&& json_str_at(body, "visibility"@) == Some(v.visibility@)
}

impl UserSocialNetworkProfiles {
    /// Reads a [`UserSocialNetworkProfiles`] out of a JSON body; fails exactly when the body
    /// does not have its shape.
    pub fn decode(body: &str) -> (r: Result<UserSocialNetworkProfiles, Error>)
        ensures
            user_social_network_profiles_parses(body@) <==> r is Ok,
            r matches Ok(v) ==> user_social_network_profiles_matches(body@, v),
            r matches Err(e) ==> e is SerdeJsonError,
    {
        let facebook = match json_str_field(body, "facebook") {
            Some(x) => x,
            None => {
                return Err(malformed("UserSocialNetworkProfiles"));
            },
        };
        let twitter = match json_str_field(body, "twitter") {
            Some(x) => x,
            None => {
                return Err(malformed("UserSocialNetworkProfiles"));
            },
        };
        let youtube = match json_str_field(body, "youtube") {
            Some(x) => x,
            None => {
                return Err(malformed("UserSocialNetworkProfiles"));
            },
        };
        let twitch = match json_str_field(body, "twitch") {
            Some(x) => x,
            None => {
                return Err(malformed("UserSocialNetworkProfiles"));
            },
        };
        let guilded = match json_str_field(body, "guilded") {
            Some(x) => x,
            None => {
                return Err(malformed("UserSocialNetworkProfiles"));
            },
        };
        let visibility = match json_str_field(body, "visibility") {
            Some(x) => x,
            None => {
                return Err(malformed("UserSocialNetworkProfiles"));
            },
        };
        Ok(UserSocialNetworkProfiles { facebook, twitter, youtube, twitch, guilded, visibility })
    }
}

/// A user.
#[derive(Debug, Clone)]
pub struct GetUserResponse {
    pub path: String,
    pub create_time: String,
    pub id: String,
    pub name: String,
    pub display_name: String,
    pub about: String,
    pub locale: String,
    pub premium: Option<bool>,
    pub id_verified: Option<bool>,
    pub social_network_profiles: Option<UserSocialNetworkProfiles>,
}

/// `body` has the JSON shape of a [`GetUserResponse`].
pub open spec fn get_user_response_parses(body: Seq<char>) -> bool {
    &&& json_str_at(body, "path"@) is Some
    &&& json_str_at(body, "createTime"@) is Some
    &&& json_str_at(body, "id"@) is Some
    &&& json_str_at(body, "name"@) is Some
    &&& json_str_at(body, "displayName"@) is Some
    &&& json_str_at(body, "about"@) is Some
    &&& json_str_at(body, "locale"@) is Some
    &&& json_sub_at(body, "socialNetworkProfiles"@) matches Some(t) ==> user_social_network_profiles_parses(t)
}

/// `body` is the JSON form of `v`.
pub open spec fn get_user_response_matches(body: Seq<char>, v: GetUserResponse) -> bool {
    &&& json_str_at(body, "path"@) == Some(v.path@)
    &&& json_str_at(body, "createTime"@) == Some(v.create_time@)
    &&& json_str_at(body, "id"@) == Some(v.id@)
    &&& json_str_at(body, "name"@) == Some(v.name@)
    &&& json_str_at(body, "displayName"@) == Some(v.display_name@)
    &&& json_str_at(body, "about"@) == Some(v.about@)
    &&& json_str_at(body, "locale"@) == Some(v.locale@)
    &&& json_bool_at(body, "premium"@) == v.premium
    &&& json_bool_at(body, "idVerified"@) == v.id_verified
    &&& (match json_sub_at(body, "socialNetworkProfiles"@) { Some(t) => v.social_network_profiles matches Some(x) && user_social_network_profiles_matches(t, x), None => v.social_network_profiles is None })
}

impl GetUserResponse {
    /// Reads a [`GetUserResponse`] out of a JSON body; fails exactly when the body
    /// does not have its shape.
    pub fn decode(body: &str) -> (r: Result<GetUserResponse, Error>)
        ensures
            get_user_response_parses(body@) <==> r is Ok,
            r matches Ok(v) ==> get_user_response_matches(body@, v),
            r matches Err(e) ==> e is SerdeJsonError,
    {
        let path = match json_str_field(body, "path") {
            Some(x) => x,
            None => {
                return Err(malformed("GetUserResponse"));
            },
        };
        let create_time = match json_str_field(body, "createTime") {
            Some(x) => x,
            None => {
                return Err(malformed("GetUserResponse"));
            },
        };
        let id = match json_str_field(body, "id") {
            Some(x) => x,
            None => {
                return Err(malformed("GetUserResponse"));
            },
        };
        let name = match json_str_field(body, "name") {
            Some(x) => x,
            None => {
                return Err(malformed("GetUserResponse"));
            },
        };
        let display_name = match json_str_field(body, "displayName") {
            Some(x) => x,
            None => {
                return Err(malformed("GetUserResponse"));
            },
        };
        let about = match json_str_field(body, "about") {
            Some(x) => x,
            None => {
                return Err(malformed("GetUserResponse"));
            },
        };
        let locale = match json_str_field(body, "locale") {
            Some(x) => x,
            None => {
                return Err(malformed("GetUserResponse"));
            },
        };
        let premium = json_bool_field(body, "premium");
        let id_verified = json_bool_field(body, "idVerified");
        let social_network_profiles = match json_sub_text(body, "socialNetworkProfiles") {
            Some(t) => match UserSocialNetworkProfiles::decode(t.as_str()) {
                Ok(x) => Some(x),
                Err(e) => {
                    return Err(e);
                },
            },
            None => None,
        };
        Ok(GetUserResponse { path, create_time, id, name, display_name, about, locale, premium, id_verified, social_network_profiles })
    }
}

/// A generated thumbnail.
#[derive(Debug, Clone)]
pub struct GenerateUserThumbnailResponse {
    pub image_uri: String,
}

/// `body` has the JSON shape of a [`GenerateUserThumbnailResponse`].
pub open spec fn generate_user_thumbnail_response_parses(body: Seq<char>) -> bool {
    &&& json_str_at(body, "imageUri"@) is Some
}

/// `body` is the JSON form of `v`.
pub open spec fn generate_user_thumbnail_response_matches(body: Seq<char>, v: GenerateUserThumbnailResponse) -> bool {
    &&& json_str_at(body, "imageUri"@) == Some(v.image_uri@)
}

impl GenerateUserThumbnailResponse {
    /// Reads a [`GenerateUserThumbnailResponse`] out of a JSON body; fails exactly when the body
    /// does not have its shape.
    pub fn decode(body: &str) -> (r: Result<GenerateUserThumbnailResponse, Error>)
        ensures
            generate_user_thumbnail_response_parses(body@) <==> r is Ok,
            r matches Ok(v) ==> generate_user_thumbnail_response_matches(body@, v),
            r matches Err(e) ==> e is SerdeJsonError,
    {
        let image_uri = match json_str_field(body, "imageUri") {
            Some(x) => x,
            None => {
                return Err(malformed("GenerateUserThumbnailResponse"));
            },
        };
        Ok(GenerateUserThumbnailResponse { image_uri })
    }
}

/// The operation that generated a thumbnail.
#[derive(Debug, Clone)]
pub struct GenerateUserThumbnailOperationResponse {
    pub response: GenerateUserThumbnailResponse,
}

/// `body` has the JSON shape of a [`GenerateUserThumbnailOperationResponse`].
pub open spec fn generate_user_thumbnail_operation_response_parses(body: Seq<char>) -> bool {
    &&& json_sub_at(body, "response"@) matches Some(t) && generate_user_thumbnail_response_parses(t)
}

/// `body` is the JSON form of `v`.
pub open spec fn generate_user_thumbnail_operation_response_matches(body: Seq<char>, v: GenerateUserThumbnailOperationResponse) -> bool {
    &&& json_sub_at(body, "response"@) matches Some(t) && generate_user_thumbnail_response_matches(t, v.response)
}

impl GenerateUserThumbnailOperationResponse {
    /// Reads a [`GenerateUserThumbnailOperationResponse`] out of a JSON body; fails exactly when the body
    /// does not have its shape.
    pub fn decode(body: &str) -> (r: Result<GenerateUserThumbnailOperationResponse, Error>)
        ensures
            generate_user_thumbnail_operation_response_parses(body@) <==> r is Ok,
            r matches Ok(v) ==> generate_user_thumbnail_operation_response_matches(body@, v),
            r matches Err(e) ==> e is SerdeJsonError,
    {
        let response = match json_sub_text(body, "response") {
            Some(t) => match GenerateUserThumbnailResponse::decode(t.as_str()) {
                Ok(x) => x,
                Err(e) => {
                    return Err(e);
                },
            },
            None => {
                return Err(malformed("GenerateUserThumbnailOperationResponse"));
            },
        };
        Ok(GenerateUserThumbnailOperationResponse { response })
    }
}

} // verus!
