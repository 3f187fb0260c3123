//! Universes: reading, partially updating and restarting servers.
use crate::http::{
    json_headers, json_request, get_request, key_headers, HttpMethod, Request, RequestBody,
};
use crate::text::{
    concat, decimal, json_object, json_quote, json_string, object_text, opt_bool_field,
    opt_num_pair, opt_pair, opt_str_field, pairs, push_bool_field, push_json_field, push_opt_num,
    push_str_field, single_pair,
};
use crate::types::UniverseId;
use crate::error::{malformed, Error};
use crate::json::{
    json_bool_at, json_bool_field, json_str_at, json_str_field, json_sub_at, json_sub_text,
    json_u64_at, json_u64_field,
};
use crate::text::{opt_text, str_eq};
use vstd::prelude::*;
use vstd::string::*;

verus! {

/// Who can see and join a universe.
#[derive(Debug, Clone, Copy, PartialEq, Eq, Structural)]
pub enum UniverseVisibility {
    VisibilityUnspecified,
    Public,
    Private,
}

/// The age rating of a universe.
#[derive(Debug, Clone, Copy, PartialEq, Eq, Structural)]
pub enum UniverseAgeRating {
    AgeRatingUnspecified,
    AgeRatingAll,
    AgeRating9Plus,
    AgeRating13Plus,
    AgeRating17Plus,
}

/// A social link of a universe.
#[derive(Debug, Clone)]
pub struct UniverseSocialLink {
    pub title: String,
    pub uri: String,
}

/// Parameters of reading a universe.
pub struct GetUniverseParams {
    pub api_key: String,
    pub universe_id: UniverseId,
}

/// The fields of a universe to change; an absent field is left out of the
/// request body, which the service reads as "not changed".
#[derive(Debug, Clone)]
pub struct UpdateUniverseInfo {
    pub path: Option<String>,
    pub create_time: Option<String>,
    pub update_time: Option<String>,
    pub display_name: Option<String>,
    pub description: Option<String>,
    pub user: Option<String>,
    pub group: Option<String>,
    pub visibility: Option<UniverseVisibility>,
    pub facebook_social_link: Option<UniverseSocialLink>,
    pub twitter_social_link: Option<UniverseSocialLink>,
    pub youtube_social_link: Option<UniverseSocialLink>,
    pub twitch_social_link: Option<UniverseSocialLink>,
    pub discord_social_link: Option<UniverseSocialLink>,
    pub roblox_group_social_link: Option<UniverseSocialLink>,
    pub guilded_social_link: Option<UniverseSocialLink>,
    pub voice_chat_enabled: Option<bool>,
    pub age_rating: Option<UniverseAgeRating>,
    pub private_server_price_robux: Option<u32>,
    pub desktop_enabled: Option<bool>,
    pub mobile_enabled: Option<bool>,
    pub tablet_enabled: Option<bool>,
    pub console_enabled: Option<bool>,
    pub vr_enabled: Option<bool>,
}

/// Parameters of a partial update of a universe.
pub struct UpdateUniverseParams {
    pub api_key: String,
    pub universe_id: UniverseId,
    pub update_mask: String,
    pub info: UpdateUniverseInfo,
}

/// Parameters of restarting the servers of a universe.
pub struct RestartUniverseServersParams {
    pub api_key: String,
    pub universe_id: UniverseId,
}

/// JSON of a visibility.
pub open spec fn visibility_json(v: UniverseVisibility) -> Seq<char> {
    match v {
        UniverseVisibility::VisibilityUnspecified => "\"VISIBILITY_UNSPECIFIED\""@,
        UniverseVisibility::Public => "\"PUBLIC\""@,
        UniverseVisibility::Private => "\"PRIVATE\""@,
    }
}

/// JSON of an age rating.
pub open spec fn rating_json(v: UniverseAgeRating) -> Seq<char> {
    match v {
        UniverseAgeRating::AgeRatingUnspecified => "\"AGE_RATING_UNSPECIFIED\""@,
        UniverseAgeRating::AgeRatingAll => "\"AGE_RATING_ALL\""@,
        UniverseAgeRating::AgeRating9Plus => "\"AGE_RATING9_PLUS\""@,
        UniverseAgeRating::AgeRating13Plus => "\"AGE_RATING13_PLUS\""@,
        UniverseAgeRating::AgeRating17Plus => "\"AGE_RATING17_PLUS\""@,
    }
}

/// JSON of a social link.
pub open spec fn link_json(l: UniverseSocialLink) -> Seq<char> {
    "{\"title\":"@ + json_string(l.title@) + ",\"uri\":"@ + json_string(l.uri@) + "}"@
}

/// A visibility member when the value is present.
pub open spec fn visibility_field(k: Seq<char>, v: Option<UniverseVisibility>) -> Seq<(Seq<char>, Seq<char>)> {
    match v {
        Some(x) => seq![(k, visibility_json(x))],
        None => seq![],
    }
}

/// An age rating member when the value is present.
pub open spec fn rating_field(k: Seq<char>, v: Option<UniverseAgeRating>) -> Seq<(Seq<char>, Seq<char>)> {
    match v {
        Some(x) => seq![(k, rating_json(x))],
        None => seq![],
    }
}

/// A social link member when the value is present.
pub open spec fn link_field(k: Seq<char>, v: Option<UniverseSocialLink>) -> Seq<(Seq<char>, Seq<char>)> {
    match v {
        Some(x) => seq![(k, link_json(x))],
        None => seq![],
    }
}

/// The members of the JSON body of an update: the present fields, in
/// declaration order, under their camel-case names.
pub open spec fn universe_fields(info: UpdateUniverseInfo) -> Seq<(Seq<char>, Seq<char>)> {
    opt_str_field("path"@, info.path)
        + opt_str_field("createTime"@, info.create_time)
        + opt_str_field("updateTime"@, info.update_time)
        + opt_str_field("displayName"@, info.display_name)
        + opt_str_field("description"@, info.description)
        + opt_str_field("user"@, info.user)
        + opt_str_field("group"@, info.group)
        + visibility_field("visibility"@, info.visibility)
        + link_field("facebookSocialLink"@, info.facebook_social_link)
        + link_field("twitterSocialLink"@, info.twitter_social_link)
        + link_field("youtubeSocialLink"@, info.youtube_social_link)
        + link_field("twitchSocialLink"@, info.twitch_social_link)
        + link_field("discordSocialLink"@, info.discord_social_link)
        + link_field("robloxGroupSocialLink"@, info.roblox_group_social_link)
        + link_field("guildedSocialLink"@, info.guilded_social_link)
        + opt_bool_field("voiceChatEnabled"@, info.voice_chat_enabled)
        + rating_field("ageRating"@, info.age_rating)
        + opt_num_pair("privateServerPriceRobux"@, info.private_server_price_robux)
        + opt_bool_field("desktopEnabled"@, info.desktop_enabled)
        + opt_bool_field("mobileEnabled"@, info.mobile_enabled)
        + opt_bool_field("tabletEnabled"@, info.tablet_enabled)
        + opt_bool_field("consoleEnabled"@, info.console_enabled)
        + opt_bool_field("vrEnabled"@, info.vr_enabled)
}

impl UniverseVisibility {
    /// JSON of this visibility.
    pub fn to_json(&self) -> (r: String)
        ensures
            r@ == visibility_json(*self),
    {
        match self {
            UniverseVisibility::VisibilityUnspecified => String::from_str("\"VISIBILITY_UNSPECIFIED\""),
            UniverseVisibility::Public => String::from_str("\"PUBLIC\""),
            UniverseVisibility::Private => String::from_str("\"PRIVATE\""),
        }
    }
}

impl UniverseAgeRating {
    /// JSON of this age rating.
    pub fn to_json(&self) -> (r: String)
        ensures
            r@ == rating_json(*self),
    {
        match self {
            UniverseAgeRating::AgeRatingUnspecified => String::from_str("\"AGE_RATING_UNSPECIFIED\""),
            UniverseAgeRating::AgeRatingAll => String::from_str("\"AGE_RATING_ALL\""),
            UniverseAgeRating::AgeRating9Plus => String::from_str("\"AGE_RATING9_PLUS\""),
            UniverseAgeRating::AgeRating13Plus => String::from_str("\"AGE_RATING13_PLUS\""),
            UniverseAgeRating::AgeRating17Plus => String::from_str("\"AGE_RATING17_PLUS\""),
        }
    }
}

impl UniverseSocialLink {
    /// JSON of this link.
    pub fn to_json(&self) -> (r: String)
        ensures
            r@ == link_json(*self),
    {
        let t = json_quote(self.title.as_str());
        let u = json_quote(self.uri.as_str());
        let mut s = concat("{\"title\":", t.as_str());
        s.append(",\"uri\":");
        s.append(u.as_str());
        s.append("}");
        s
    }
}

fn push_link(f: &mut Vec<(String, String)>, k: &str, v: &Option<UniverseSocialLink>)
    ensures
        pairs(final(f)@) == pairs(old(f)@) + link_field(k@, *v),
{
    let j = match v {
        Some(l) => Some(l.to_json()),
        None => None,
    };
    push_json_field(f, k, j);
    assert(opt_pair(k@, j) =~= link_field(k@, *v));
}

impl UpdateUniverseInfo {
    /// The JSON body of an update: only the present fields, so that the
    /// service leaves the others as they are.
    pub fn to_json(&self) -> (r: String)
        ensures
            r@ == json_object(universe_fields(*self)),
    {
        let mut f: Vec<(String, String)> = Vec::new();
        push_str_field(&mut f, "path", &self.path);
        push_str_field(&mut f, "createTime", &self.create_time);
        push_str_field(&mut f, "updateTime", &self.update_time);
        push_str_field(&mut f, "displayName", &self.display_name);
        push_str_field(&mut f, "description", &self.description);
        push_str_field(&mut f, "user", &self.user);
        push_str_field(&mut f, "group", &self.group);
        let j = match &self.visibility {
            Some(x) => Some(x.to_json()),
            None => None,
        };
        let ghost before = pairs(f@);
        push_json_field(&mut f, "visibility", j);
        assert(pairs(f@) =~= before + visibility_field("visibility"@, self.visibility));
        push_link(&mut f, "facebookSocialLink", &self.facebook_social_link);
        push_link(&mut f, "twitterSocialLink", &self.twitter_social_link);
        push_link(&mut f, "youtubeSocialLink", &self.youtube_social_link);
        push_link(&mut f, "twitchSocialLink", &self.twitch_social_link);
        push_link(&mut f, "discordSocialLink", &self.discord_social_link);
        push_link(&mut f, "robloxGroupSocialLink", &self.roblox_group_social_link);
        push_link(&mut f, "guildedSocialLink", &self.guilded_social_link);
        push_bool_field(&mut f, "voiceChatEnabled", self.voice_chat_enabled);
        let j = match &self.age_rating {
            Some(x) => Some(x.to_json()),
            None => None,
        };
        let ghost before = pairs(f@);
        push_json_field(&mut f, "ageRating", j);
        assert(pairs(f@) =~= before + rating_field("ageRating"@, self.age_rating));
        push_opt_num(&mut f, "privateServerPriceRobux", self.private_server_price_robux);
        push_bool_field(&mut f, "desktopEnabled", self.desktop_enabled);
        push_bool_field(&mut f, "mobileEnabled", self.mobile_enabled);
        push_bool_field(&mut f, "tabletEnabled", self.tablet_enabled);
        push_bool_field(&mut f, "consoleEnabled", self.console_enabled);
        push_bool_field(&mut f, "vrEnabled", self.vr_enabled);
        assert(pairs(f@) =~= universe_fields(*self));
        object_text(&f)
    }
}

/// The URL of a universe, followed by `suffix`.
pub open spec fn universe_url(universe_id: UniverseId, suffix: Seq<char>) -> Seq<char> {
    "https://apis.roblox.com/cloud/v2/universes/"@ + decimal(universe_id.0 as nat) + suffix
}

fn build_url(universe_id: UniverseId, suffix: &str) -> (r: String)
    ensures
        r@ == universe_url(universe_id, suffix@),
{
    let id = universe_id.to_string();
    let mut s = concat("https://apis.roblox.com/cloud/v2/universes/", id.as_str());
    s.append(suffix);
    s
}

/// The request that reads a universe.
pub fn get_universe(params: &GetUniverseParams) -> (r: Request)
    ensures
        r.method == HttpMethod::Get,
        r.url@ == universe_url(params.universe_id, seq![]),
        pairs(r.headers@) == key_headers(params.api_key@),
        r.query@.len() == 0,
        r.body is Empty,
{
    proof {
        reveal_strlit("");
    }
    get_request(&params.api_key, build_url(params.universe_id, ""), Vec::new())
}

/// The request that changes the fields of a universe named by the update
/// mask. The body holds exactly the present fields of `info`.
pub fn update_universe(params: &UpdateUniverseParams) -> (r: Request)
    ensures
        r.method == HttpMethod::Patch,
        r.url@ == universe_url(params.universe_id, seq![]),
        pairs(r.headers@) == json_headers(params.api_key@),
        pairs(r.query@) == seq![("updateMask"@, params.update_mask@)],
        r.body matches RequestBody::Text(b) && b@ == json_object(universe_fields(params.info)),
{
    proof {
        reveal_strlit("");
    }
    json_request(
        HttpMethod::Patch,
        &params.api_key,
        build_url(params.universe_id, ""),
        single_pair("updateMask", params.update_mask.clone()),
        params.info.to_json(),
    )
}

/// The request that restarts the servers of a universe.
pub fn restart_universe_servers(params: &RestartUniverseServersParams) -> (r: Request)
    ensures
        r.method == HttpMethod::Post,
        r.url@ == universe_url(params.universe_id, ":restartServers"@),
        pairs(r.headers@) == json_headers(params.api_key@),
        r.query@.len() == 0,
        r.body matches RequestBody::Text(b) && b@ == "{}"@,
{
    json_request(
        HttpMethod::Post,
        &params.api_key,
        build_url(params.universe_id, ":restartServers"),
        Vec::new(),
        String::from_str("{}"),
    )
}

/// An update that names only the display name writes a body that holds
/// only the `displayName` member.
pub proof fn lemma_display_name_only_body(info: UpdateUniverseInfo, name: String)
    requires
        info.path is None,
        info.create_time is None,
        info.update_time is None,
        info.display_name == Some(name),
        info.description is None,
        info.user is None,
        info.group is None,
        info.visibility is None,
        info.facebook_social_link is None,
        info.twitter_social_link is None,
        info.youtube_social_link is None,
        info.twitch_social_link is None,
        info.discord_social_link is None,
        info.roblox_group_social_link is None,
        info.guilded_social_link is None,
        info.voice_chat_enabled is None,
        info.age_rating is None,
        info.private_server_price_robux is None,
        info.desktop_enabled is None,
        info.mobile_enabled is None,
        info.tablet_enabled is None,
        info.console_enabled is None,
        info.vr_enabled is None,
    ensures
        json_object(universe_fields(info)) == "{\"displayName\":"@ + json_string(name@) + "}"@,
{
    let f = universe_fields(info);
    assert(f =~= seq![("displayName"@, json_string(name@))]);
    reveal_with_fuel(crate::text::members, 2);
    assert(crate::text::members(f) == crate::text::member(f[0]));
    reveal_strlit("{");
    reveal_strlit("}");
    reveal_strlit("\"");
    reveal_strlit("\":");
    reveal_strlit("displayName");
    reveal_strlit("{\"displayName\":");
    assert(json_object(f) =~= "{\"displayName\":"@ + json_string(name@) + "}"@);
}

/// The name of a [`UniverseVisibility`] in a JSON body.
pub open spec fn universe_visibility_name(v: UniverseVisibility) -> Seq<char> {
    match v {
        UniverseVisibility::VisibilityUnspecified => "VISIBILITY_UNSPECIFIED"@,
        UniverseVisibility::Public => "PUBLIC"@,
        UniverseVisibility::Private => "PRIVATE"@,
    }
}

impl UniverseVisibility {
    /// The value that `s` names, if any.
    pub fn from_name(s: &str) -> (r: Option<UniverseVisibility>)
        ensures
            match r {
                Some(x) => universe_visibility_name(x) == s@,
                None => forall|x: UniverseVisibility| universe_visibility_name(x) != s@,
            },
    {
        if str_eq(s, "VISIBILITY_UNSPECIFIED") {
            return Some(UniverseVisibility::VisibilityUnspecified);
        }
        if str_eq(s, "PUBLIC") {
            return Some(UniverseVisibility::Public);
        }
        if str_eq(s, "PRIVATE") {
            return Some(UniverseVisibility::Private);
        }
        proof {
            reveal_strlit("VISIBILITY_UNSPECIFIED");
            reveal_strlit("PUBLIC");
            reveal_strlit("PRIVATE");
        }
        assert forall|x: UniverseVisibility| universe_visibility_name(x) != s@ by {
            match x {
                UniverseVisibility::VisibilityUnspecified => {},
                UniverseVisibility::Public => {},
                UniverseVisibility::Private => {},
            }
        }
        None
    }
}

/// The name of a [`UniverseAgeRating`] in a JSON body.
pub open spec fn universe_age_rating_name(v: UniverseAgeRating) -> Seq<char> {
    match v {
        UniverseAgeRating::AgeRatingUnspecified => "AGE_RATING_UNSPECIFIED"@,
        UniverseAgeRating::AgeRatingAll => "AGE_RATING_ALL"@,
        UniverseAgeRating::AgeRating9Plus => "AGE_RATING9_PLUS"@,
        UniverseAgeRating::AgeRating13Plus => "AGE_RATING13_PLUS"@,
        UniverseAgeRating::AgeRating17Plus => "AGE_RATING17_PLUS"@,
    }
}

impl UniverseAgeRating {
    /// The value that `s` names, if any.
    pub fn from_name(s: &str) -> (r: Option<UniverseAgeRating>)
        ensures
            match r {
                Some(x) => universe_age_rating_name(x) == s@,
                None => forall|x: UniverseAgeRating| universe_age_rating_name(x) != s@,
            },
    {
        if str_eq(s, "AGE_RATING_UNSPECIFIED") {
            return Some(UniverseAgeRating::AgeRatingUnspecified);
        }
        if str_eq(s, "AGE_RATING_ALL") {
            return Some(UniverseAgeRating::AgeRatingAll);
        }
        if str_eq(s, "AGE_RATING9_PLUS") {
            return Some(UniverseAgeRating::AgeRating9Plus);
        }
        if str_eq(s, "AGE_RATING13_PLUS") {
            return Some(UniverseAgeRating::AgeRating13Plus);
        }
        if str_eq(s, "AGE_RATING17_PLUS") {
            return Some(UniverseAgeRating::AgeRating17Plus);
        }
        proof {
            reveal_strlit("AGE_RATING_UNSPECIFIED");
            reveal_strlit("AGE_RATING_ALL");
            reveal_strlit("AGE_RATING9_PLUS");
            reveal_strlit("AGE_RATING13_PLUS");
            reveal_strlit("AGE_RATING17_PLUS");
        }
        assert forall|x: UniverseAgeRating| universe_age_rating_name(x) != s@ by {
            match x {
                UniverseAgeRating::AgeRatingUnspecified => {},
                UniverseAgeRating::AgeRatingAll => {},
                UniverseAgeRating::AgeRating9Plus => {},
                UniverseAgeRating::AgeRating13Plus => {},
                UniverseAgeRating::AgeRating17Plus => {},
            }
        }
        None
    }
}

/// `body` has the JSON shape of a [`UniverseSocialLink`].
pub open spec fn universe_social_link_parses(body: Seq<char>) -> bool {
    &&& json_str_at(body, "title"@) is Some
    &&& json_str_at(body, "uri"@) is Some
}

/// `body` is the JSON form of `v`.
pub open spec fn universe_social_link_matches(body: Seq<char>, v: UniverseSocialLink) -> bool {
    &&& json_str_at(body, "title"@) == Some(v.title@)
    &&& json_str_at(body, "uri"@) == Some(v.uri@)
}

impl UniverseSocialLink {
    /// Reads a [`UniverseSocialLink`] out of a JSON body; fails exactly when the body
    /// does not have its shape.
    pub fn decode(body: &str) -> (r: Result<UniverseSocialLink, Error>)
        ensures
            universe_social_link_parses(body@) <==> r is Ok,
            r matches Ok(v) ==> universe_social_link_matches(body@, v),
            r matches Err(e) ==> e is SerdeJsonError,
    {
        let title = match json_str_field(body, "title") {
            Some(x) => x,
            None => {
                return Err(malformed("UniverseSocialLink"));
            },
        };
        let uri = match json_str_field(body, "uri") {
            Some(x) => x,
            None => {
                return Err(malformed("UniverseSocialLink"));
            },
        };
        Ok(UniverseSocialLink { title, uri })
    }
}

/// A universe.
#[derive(Debug, Clone)]
pub struct UniverseInfo {
    pub path: String,
    pub create_time: String,
    pub update_time: String,
    pub display_name: String,
    pub description: String,
    pub user: Option<String>,
    pub group: Option<String>,
    pub visibility: UniverseVisibility,
    pub facebook_social_link: Option<UniverseSocialLink>,
    pub twitter_social_link: Option<UniverseSocialLink>,
    pub youtube_social_link: Option<UniverseSocialLink>,
    pub twitch_social_link: Option<UniverseSocialLink>,
    pub discord_social_link: Option<UniverseSocialLink>,
    pub roblox_group_social_link: Option<UniverseSocialLink>,
    pub guilded_social_link: Option<UniverseSocialLink>,
    pub voice_chat_enabled: bool,
    pub age_rating: UniverseAgeRating,
    pub private_server_price_robux: u32,
    pub desktop_enabled: bool,
    pub mobile_enabled: bool,
    pub tablet_enabled: bool,
    pub console_enabled: bool,
    pub vr_enabled: bool,
}

/// `body` has the JSON shape of a [`UniverseInfo`].
pub open spec fn universe_info_parses(body: Seq<char>) -> bool {
    &&& json_str_at(body, "path"@) is Some
    &&& json_str_at(body, "createTime"@) is Some
    &&& json_str_at(body, "updateTime"@) is Some
    &&& json_str_at(body, "displayName"@) is Some
    &&& json_str_at(body, "description"@) is Some
    &&& json_str_at(body, "visibility"@) matches Some(s) && exists|x: UniverseVisibility| #[trigger] universe_visibility_name(x) == s
    &&& json_sub_at(body, "facebookSocialLink"@) matches Some(t) ==> universe_social_link_parses(t)
    &&& json_sub_at(body, "twitterSocialLink"@) matches Some(t) ==> universe_social_link_parses(t)
    &&& json_sub_at(body, "youtubeSocialLink"@) matches Some(t) ==> universe_social_link_parses(t)
    &&& json_sub_at(body, "twitchSocialLink"@) matches Some(t) ==> universe_social_link_parses(t)
    &&& json_sub_at(body, "discordSocialLink"@) matches Some(t) ==> universe_social_link_parses(t)
    &&& json_sub_at(body, "robloxGroupSocialLink"@) matches Some(t) ==> universe_social_link_parses(t)
    &&& json_sub_at(body, "guildedSocialLink"@) matches Some(t) ==> universe_social_link_parses(t)
    &&& json_bool_at(body, "voiceChatEnabled"@) is Some
    &&& json_str_at(body, "ageRating"@) matches Some(s) && exists|x: UniverseAgeRating| #[trigger] universe_age_rating_name(x) == s
    &&& json_u64_at(body, "privateServerPriceRobux"@) matches Some(x) && x <= u32::MAX
    &&& json_bool_at(body, "desktopEnabled"@) is Some
    &&& json_bool_at(body, "mobileEnabled"@) is Some
    &&& json_bool_at(body, "tabletEnabled"@) is Some
    &&& json_bool_at(body, "consoleEnabled"@) is Some
    &&& json_bool_at(body, "vrEnabled"@) is Some
}

/// `body` is the JSON form of `v`.
pub open spec fn universe_info_matches(body: Seq<char>, v: UniverseInfo) -> bool {
    &&& json_str_at(body, "path"@) == Some(v.path@)
    &&& json_str_at(body, "createTime"@) == Some(v.create_time@)
    &&& json_str_at(body, "updateTime"@) == Some(v.update_time@)
    &&& json_str_at(body, "displayName"@) == Some(v.display_name@)
    &&& json_str_at(body, "description"@) == Some(v.description@)
    &&& json_str_at(body, "user"@) == opt_text(v.user)
    &&& json_str_at(body, "group"@) == opt_text(v.group)
    &&& json_str_at(body, "visibility"@) == Some(universe_visibility_name(v.visibility))
    &&& (match json_sub_at(body, "facebookSocialLink"@) { Some(t) => v.facebook_social_link matches Some(x) && universe_social_link_matches(t, x), None => v.facebook_social_link is None })
    &&& (match json_sub_at(body, "twitterSocialLink"@) { Some(t) => v.twitter_social_link matches Some(x) && universe_social_link_matches(t, x), None => v.twitter_social_link is None })
    &&& (match json_sub_at(body, "youtubeSocialLink"@) { Some(t) => v.youtube_social_link matches Some(x) && universe_social_link_matches(t, x), None => v.youtube_social_link is None })
    &&& (match json_sub_at(body, "twitchSocialLink"@) { Some(t) => v.twitch_social_link matches Some(x) && universe_social_link_matches(t, x), None => v.twitch_social_link is None })
    &&& (match json_sub_at(body, "discordSocialLink"@) { Some(t) => v.discord_social_link matches Some(x) && universe_social_link_matches(t, x), None => v.discord_social_link is None })
    &&& (match json_sub_at(body, "robloxGroupSocialLink"@) { Some(t) => v.roblox_group_social_link matches Some(x) && universe_social_link_matches(t, x), None => v.roblox_group_social_link is None })
    &&& (match json_sub_at(body, "guildedSocialLink"@) { Some(t) => v.guilded_social_link matches Some(x) && universe_social_link_matches(t, x), None => v.guilded_social_link is None })
    &&& json_bool_at(body, "voiceChatEnabled"@) == Some(v.voice_chat_enabled)
    &&& json_str_at(body, "ageRating"@) == Some(universe_age_rating_name(v.age_rating))
    &&& json_u64_at(body, "privateServerPriceRobux"@) == Some(v.private_server_price_robux as u64)
    &&& json_bool_at(body, "desktopEnabled"@) == Some(v.desktop_enabled)
    &&& json_bool_at(body, "mobileEnabled"@) == Some(v.mobile_enabled)
    &&& json_bool_at(body, "tabletEnabled"@) == Some(v.tablet_enabled)
    &&& json_bool_at(body, "consoleEnabled"@) == Some(v.console_enabled)
    &&& json_bool_at(body, "vrEnabled"@) == Some(v.vr_enabled)
}

impl UniverseInfo {
    /// Reads a [`UniverseInfo`] out of a JSON body; fails exactly when the body
    /// does not have its shape.
    pub fn decode(body: &str) -> (r: Result<UniverseInfo, Error>)
        ensures
            universe_info_parses(body@) <==> r is Ok,
            r matches Ok(v) ==> universe_info_matches(body@, v),
            r matches Err(e) ==> e is SerdeJsonError,
    {
        let path = match json_str_field(body, "path") {
            Some(x) => x,
            None => {
                return Err(malformed("UniverseInfo"));
            },
        };
        let create_time = match json_str_field(body, "createTime") {
            Some(x) => x,
            None => {
                return Err(malformed("UniverseInfo"));
            },
        };
        let update_time = match json_str_field(body, "updateTime") {
            Some(x) => x,
            None => {
                return Err(malformed("UniverseInfo"));
            },
        };
        let display_name = match json_str_field(body, "displayName") {
            Some(x) => x,
            None => {
                return Err(malformed("UniverseInfo"));
            },
        };
        let description = match json_str_field(body, "description") {
            Some(x) => x,
            None => {
                return Err(malformed("UniverseInfo"));
            },
        };
        let user = json_str_field(body, "user");
        let group = json_str_field(body, "group");
        let visibility = match json_str_field(body, "visibility") {
            Some(s) => match UniverseVisibility::from_name(s.as_str()) {
                Some(x) => x,
                None => {
                    return Err(malformed("UniverseInfo"));
                },
            },
            None => {
                return Err(malformed("UniverseInfo"));
            },
        };
        let facebook_social_link = match json_sub_text(body, "facebookSocialLink") {
            Some(t) => match UniverseSocialLink::decode(t.as_str()) {
                Ok(x) => Some(x),
                Err(e) => {
                    return Err(e);
                },
            },
            None => None,
        };
        let twitter_social_link = match json_sub_text(body, "twitterSocialLink") {
            Some(t) => match UniverseSocialLink::decode(t.as_str()) {
                Ok(x) => Some(x),
                Err(e) => {
                    return Err(e);
                },
            },
            None => None,
        };
        let youtube_social_link = match json_sub_text(body, "youtubeSocialLink") {
            Some(t) => match UniverseSocialLink::decode(t.as_str()) {
                Ok(x) => Some(x),
                Err(e) => {
                    return Err(e);
                },
            },
            None => None,
        };
        let twitch_social_link = match json_sub_text(body, "twitchSocialLink") {
            Some(t) => match UniverseSocialLink::decode(t.as_str()) {
                Ok(x) => Some(x),
                Err(e) => {
                    return Err(e);
                },
            },
            None => None,
        };
        let discord_social_link = match json_sub_text(body, "discordSocialLink") {
            Some(t) => match UniverseSocialLink::decode(t.as_str()) {
                Ok(x) => Some(x),
                Err(e) => {
                    return Err(e);
                },
            },
            None => None,
        };
        let roblox_group_social_link = match json_sub_text(body, "robloxGroupSocialLink") {
            Some(t) => match UniverseSocialLink::decode(t.as_str()) {
                Ok(x) => Some(x),
                Err(e) => {
                    return Err(e);
                },
            },
            None => None,
        };
        let guilded_social_link = match json_sub_text(body, "guildedSocialLink") {
            Some(t) => match UniverseSocialLink::decode(t.as_str()) {
                Ok(x) => Some(x),
                Err(e) => {
                    return Err(e);
                },
            },
            None => None,
        };
        let voice_chat_enabled = match json_bool_field(body, "voiceChatEnabled") {
            Some(x) => x,
            None => {
                return Err(malformed("UniverseInfo"));
            },
        };
        let age_rating = match json_str_field(body, "ageRating") {
            Some(s) => match UniverseAgeRating::from_name(s.as_str()) {
                Some(x) => x,
                None => {
                    return Err(malformed("UniverseInfo"));
                },
            },
            None => {
                return Err(malformed("UniverseInfo"));
            },
        };
        let private_server_price_robux = match json_u64_field(body, "privateServerPriceRobux") {
            Some(x) => {
                if x > 4294967295 {
                    return Err(malformed("UniverseInfo"));
                }
                x as u32
            },
            None => {
                return Err(malformed("UniverseInfo"));
            },
        };
        let desktop_enabled = match json_bool_field(body, "desktopEnabled") {
            Some(x) => x,
            None => {
                return Err(malformed("UniverseInfo"));
            },
        };
        let mobile_enabled = match json_bool_field(body, "mobileEnabled") {
            Some(x) => x,
            None => {
                return Err(malformed("UniverseInfo"));
            },
        };
        let tablet_enabled = match json_bool_field(body, "tabletEnabled") {
            Some(x) => x,
            None => {
                return Err(malformed("UniverseInfo"));
            },
        };
        let console_enabled = match json_bool_field(body, "consoleEnabled") {
            Some(x) => x,
            None => {
                return Err(malformed("UniverseInfo"));
            },
        };
        let vr_enabled = match json_bool_field(body, "vrEnabled") {
            Some(x) => x,
            None => {
                return Err(malformed("UniverseInfo"));
            },
        };
        Ok(UniverseInfo { path, create_time, update_time, display_name, description, user, group, visibility, facebook_social_link, twitter_social_link, youtube_social_link, twitch_social_link, discord_social_link, roblox_group_social_link, guilded_social_link, voice_chat_enabled, age_rating, private_server_price_robux, desktop_enabled, mobile_enabled, tablet_enabled, console_enabled, vr_enabled })
    }
}

/// Two optional social links with the same text.
pub open spec fn same_link(a: Option<UniverseSocialLink>, b: Option<UniverseSocialLink>) -> bool {
    match (a, b) {
        (Some(x), Some(y)) => x.title@ == y.title@ && x.uri@ == y.uri@,
        (None, None) => true,
        _ => false,
    }
}

/// Two universes that agree field by field.
pub open spec fn same_universe(a: UniverseInfo, b: UniverseInfo) -> bool {
    &&& a.path@ == b.path@
    &&& a.create_time@ == b.create_time@
    &&& a.update_time@ == b.update_time@
    &&& a.display_name@ == b.display_name@
    &&& a.description@ == b.description@
    &&& opt_text(a.user) == opt_text(b.user)
    &&& opt_text(a.group) == opt_text(b.group)
    &&& a.visibility == b.visibility
    &&& same_link(a.facebook_social_link, b.facebook_social_link)
    &&& same_link(a.twitter_social_link, b.twitter_social_link)
    &&& same_link(a.youtube_social_link, b.youtube_social_link)
    &&& same_link(a.twitch_social_link, b.twitch_social_link)
    &&& same_link(a.discord_social_link, b.discord_social_link)
    &&& same_link(a.roblox_group_social_link, b.roblox_group_social_link)
    &&& same_link(a.guilded_social_link, b.guilded_social_link)
    &&& a.voice_chat_enabled == b.voice_chat_enabled
    &&& a.age_rating == b.age_rating
    &&& a.private_server_price_robux == b.private_server_price_robux
    &&& a.desktop_enabled == b.desktop_enabled
    &&& a.mobile_enabled == b.mobile_enabled
    &&& a.tablet_enabled == b.tablet_enabled
    &&& a.console_enabled == b.console_enabled
    &&& a.vr_enabled == b.vr_enabled
}

proof fn lemma_universe_visibility_name_injective(x: UniverseVisibility, y: UniverseVisibility)
    requires
        universe_visibility_name(x) == universe_visibility_name(y),
    ensures
        x == y,
{
    reveal_strlit("VISIBILITY_UNSPECIFIED");
    reveal_strlit("PUBLIC");
    reveal_strlit("PRIVATE");
    assert("VISIBILITY_UNSPECIFIED"@.len() != "PUBLIC"@.len());
    assert("VISIBILITY_UNSPECIFIED"@.len() != "PRIVATE"@.len());
    assert("PUBLIC"@.len() != "PRIVATE"@.len());
}

proof fn lemma_universe_age_rating_name_injective(x: UniverseAgeRating, y: UniverseAgeRating)
    requires
        universe_age_rating_name(x) == universe_age_rating_name(y),
    ensures
        x == y,
{
    reveal_strlit("AGE_RATING_UNSPECIFIED");
    reveal_strlit("AGE_RATING_ALL");
    reveal_strlit("AGE_RATING9_PLUS");
    reveal_strlit("AGE_RATING13_PLUS");
    reveal_strlit("AGE_RATING17_PLUS");
    assert("AGE_RATING_UNSPECIFIED"@.len() != "AGE_RATING_ALL"@.len());
    assert("AGE_RATING_UNSPECIFIED"@.len() != "AGE_RATING9_PLUS"@.len());
    assert("AGE_RATING_ALL"@.len() != "AGE_RATING9_PLUS"@.len());
    assert("AGE_RATING_UNSPECIFIED"@.len() != "AGE_RATING13_PLUS"@.len());
    assert("AGE_RATING_ALL"@.len() != "AGE_RATING13_PLUS"@.len());
    assert("AGE_RATING9_PLUS"@.len() != "AGE_RATING13_PLUS"@.len());
    assert("AGE_RATING_UNSPECIFIED"@.len() != "AGE_RATING17_PLUS"@.len());
    assert("AGE_RATING_ALL"@.len() != "AGE_RATING17_PLUS"@.len());
    assert("AGE_RATING9_PLUS"@.len() != "AGE_RATING17_PLUS"@.len());
    assert("AGE_RATING13_PLUS"@[11] != "AGE_RATING17_PLUS"@[11]);
}

/// Reading a universe again, with the universe unchanged, gives the same
/// answer: the request is built from the parameters alone, and two
/// universes read from one answer body agree field by field.
pub proof fn lemma_repeated_read_agrees(body: Seq<char>, a: UniverseInfo, b: UniverseInfo)
    requires
        universe_info_matches(body, a),
        universe_info_matches(body, b),
    ensures
        same_universe(a, b),
{
    lemma_universe_visibility_name_injective(a.visibility, b.visibility);
    lemma_universe_age_rating_name_injective(a.age_rating, b.age_rating);
}

} // verus!
