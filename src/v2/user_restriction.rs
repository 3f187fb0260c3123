//! User restrictions: banning users from a universe or one of its places,
//! reading restrictions, and reading the log of changes.
use crate::http::{
    get_request, json_headers, json_request, key_headers, HttpMethod, Request, RequestBody,
};
use crate::text::{
    bool_text, bool_to_text, concat, decimal, json_object, json_quote, json_string, object_text,
    opt_num_pair, opt_pair, opt_str_field, pairs, push_opt, push_opt_num, push_pair, push_str_field,
    single_pair,
};
use crate::types::{PlaceId, RobloxUserId, UniverseId};
use crate::error::{malformed, Error};
use crate::json::{
    json_array_len, json_bool_at, json_bool_field, json_item_at, json_item_text, json_len_at,
    json_str_at, json_str_field, json_sub_at, json_sub_text,
};
use crate::text::opt_text;
use vstd::prelude::*;
use vstd::string::*;

verus! {

/// Parameters of changing the restriction of a user.
pub struct UpdateUserRestrictionParams {
    pub api_key: String,
    pub universe_id: UniverseId,
    pub place_id: Option<PlaceId>,
    pub user_id: RobloxUserId,
    pub idempotency_key: Option<String>,
    pub active: Option<bool>,
    /// Length of the restriction, written as `<seconds>s`.
    pub duration: Option<String>,
    pub private_reason: Option<String>,
    pub display_reason: Option<String>,
    pub exclude_alt_accounts: Option<bool>,
}

/// Parameters of reading the restriction of a user.
pub struct GetUserRestrictionParams {
    pub api_key: String,
    pub universe_id: UniverseId,
    pub place_id: Option<PlaceId>,
    pub user_id: RobloxUserId,
}

/// Parameters of listing the restrictions of a universe or a place.
pub struct ListUserRestrictionsParams {
    pub api_key: String,
    pub universe_id: UniverseId,
    pub place_id: Option<PlaceId>,
    pub max_page_size: Option<u32>,
    pub page_token: Option<String>,
    pub filter: Option<String>,
}

/// Parameters of listing the log of restriction changes.
pub struct ListUserRestrictionLogsParams {
    pub api_key: String,
    pub universe_id: UniverseId,
    pub place_id: Option<PlaceId>,
    pub max_page_size: Option<u32>,
    pub page_token: Option<String>,
    pub filter: Option<String>,
}

/// The URL of the restrictions of a universe, or of one of its places,
/// followed by `suffix`.
pub open spec fn restrictions_url(universe_id: UniverseId, place_id: Option<PlaceId>, suffix: Seq<char>) -> Seq<char> {
    "https://apis.roblox.com/cloud/v2/universes/"@ + decimal(universe_id.0 as nat) + match place_id {
        Some(p) => "/places/"@ + decimal(p.0 as nat),
        None => seq![],
    } + "/user-restrictions"@ + suffix
}

/// The URL of the restriction of one user.
pub open spec fn user_restriction_url(universe_id: UniverseId, place_id: Option<PlaceId>, user_id: RobloxUserId) -> Seq<char> {
    restrictions_url(universe_id, place_id, "/"@ + decimal(user_id.0 as nat))
}

fn build_url(universe_id: UniverseId, place_id: Option<PlaceId>, suffix: &str) -> (r: String)
    ensures
        r@ == restrictions_url(universe_id, place_id, suffix@),
{
    let u = universe_id.to_string();
    let mut s = concat("https://apis.roblox.com/cloud/v2/universes/", u.as_str());
    match place_id {
        Some(p) => {
            let d = p.to_string();
            s.append("/places/");
            s.append(d.as_str());
        },
        None => {},
    }
    s.append("/user-restrictions");
    s.append(suffix);
    assert(s@ =~= restrictions_url(universe_id, place_id, suffix@));
    s
}

fn build_user_url(universe_id: UniverseId, place_id: Option<PlaceId>, user_id: RobloxUserId) -> (r: String)
    ensures
        r@ == user_restriction_url(universe_id, place_id, user_id),
{
    let id = user_id.to_string();
    let suffix = concat("/", id.as_str());
    build_url(universe_id, place_id, suffix.as_str())
}

/// The request that reads the restriction of a user.
pub fn get_user_restriction(params: &GetUserRestrictionParams) -> (r: Request)
    ensures
        r.method == HttpMethod::Get,
        r.url@ == user_restriction_url(params.universe_id, params.place_id, params.user_id),
        pairs(r.headers@) == key_headers(params.api_key@),
        r.query@.len() == 0,
        r.body is Empty,
{
    get_request(&params.api_key, build_user_url(params.universe_id, params.place_id, params.user_id), Vec::new())
}

/// The query of a listing: each option that is present.
pub open spec fn listing_query(max_page_size: Option<u32>, page_token: Option<String>, filter: Option<String>) -> Seq<(Seq<char>, Seq<char>)> {
    opt_num_pair("maxPageSize"@, max_page_size) + opt_pair("pageToken"@, page_token) + opt_pair("filter"@, filter)
}

fn listing(max_page_size: Option<u32>, page_token: &Option<String>, filter: &Option<String>) -> (r: Vec<(String, String)>)
    ensures
        pairs(r@) == listing_query(max_page_size, *page_token, *filter),
{
    let mut q: Vec<(String, String)> = Vec::new();
    push_opt_num(&mut q, "maxPageSize", max_page_size);
    push_opt(&mut q, "pageToken", page_token);
    push_opt(&mut q, "filter", filter);
    assert(pairs(q@) =~= listing_query(max_page_size, *page_token, *filter));
    q
}

/// The request that lists the restrictions of a universe or a place.
pub fn list_user_restrictions(params: &ListUserRestrictionsParams) -> (r: Request)
    ensures
        r.method == HttpMethod::Get,
        r.url@ == restrictions_url(params.universe_id, params.place_id, seq![]),
        pairs(r.headers@) == key_headers(params.api_key@),
        pairs(r.query@) == listing_query(params.max_page_size, params.page_token, params.filter),
        r.body is Empty,
{
    proof {
        reveal_strlit("");
    }
    let q = listing(params.max_page_size, &params.page_token, &params.filter);
    get_request(&params.api_key, build_url(params.universe_id, params.place_id, ""), q)
}

/// The request that lists the log of restriction changes.
pub fn list_user_restriction_logs(params: &ListUserRestrictionLogsParams) -> (r: Request)
    ensures
        r.method == HttpMethod::Get,
        r.url@ == restrictions_url(params.universe_id, params.place_id, ":listLogs"@),
        pairs(r.headers@) == key_headers(params.api_key@),
        pairs(r.query@) == listing_query(params.max_page_size, params.page_token, params.filter),
        r.body is Empty,
{
    let q = listing(params.max_page_size, &params.page_token, &params.filter);
    get_request(&params.api_key, build_url(params.universe_id, params.place_id, ":listLogs"), q)
}

/// The text of an optional string; empty when absent.
pub open spec fn text_or_empty(v: Option<Seq<char>>) -> Seq<char> {
    match v {
        Some(s) => s,
        None => seq![],
    }
}

/// The value of an optional flag; false when absent.
pub open spec fn flag_or_false(v: Option<bool>) -> bool {
    match v {
        Some(b) => b,
        None => false,
    }
}

/// A string member when the text is present.
pub open spec fn opt_text_member(k: Seq<char>, v: Option<Seq<char>>) -> Seq<(Seq<char>, Seq<char>)> {
    match v {
        Some(s) => seq![(k, json_string(s))],
        None => seq![],
    }
}

/// The members of a game join restriction that starts at `start_time`: an
/// absent flag is false, an absent reason is empty, and an absent duration
/// is left out.
pub open spec fn restriction_members(
    active: Option<bool>,
    duration: Option<Seq<char>>,
    private_reason: Option<Seq<char>>,
    display_reason: Option<Seq<char>>,
    exclude_alt_accounts: Option<bool>,
    start_time: Seq<char>,
) -> Seq<(Seq<char>, Seq<char>)> {
    seq![("active"@, bool_text(flag_or_false(active))), ("startTime"@, json_string(start_time))]
        + opt_text_member("duration"@, duration) + seq![
        ("privateReason"@, json_string(text_or_empty(private_reason))),
        ("displayReason"@, json_string(text_or_empty(display_reason))),
        ("excludeAltAccounts"@, bool_text(flag_or_false(exclude_alt_accounts))),
        ("inherited"@, "false"@),
    ]
}

/// The JSON body that sends a game join restriction of the given members.
pub open spec fn restriction_json(members: Seq<(Seq<char>, Seq<char>)>) -> Seq<char> {
    "{\"gameJoinRestriction\":"@ + json_object(members) + "}"@
}

/// The members of the game join restriction sent by an update that starts
/// at `start_time`.
pub open spec fn restriction_fields(params: UpdateUserRestrictionParams, start_time: Seq<char>) -> Seq<(Seq<char>, Seq<char>)> {
    restriction_members(
        params.active,
        opt_text(params.duration),
        opt_text(params.private_reason),
        opt_text(params.display_reason),
        params.exclude_alt_accounts,
        start_time,
    )
}

/// The JSON body of an update that starts at `start_time`.
pub open spec fn restriction_body(params: UpdateUserRestrictionParams, start_time: Seq<char>) -> Seq<char> {
    restriction_json(restriction_fields(params, start_time))
}

/// The query of an update first sent at `first_sent`: the update mask, and
/// the idempotency key with the time it was first sent when there is a key.
pub open spec fn update_query(params: UpdateUserRestrictionParams, first_sent: Seq<char>) -> Seq<(Seq<char>, Seq<char>)> {
    seq![("updateMask"@, "gameJoinRestriction"@)] + match params.idempotency_key {
        Some(k) => seq![("idempotencyKey.key"@, k@), ("idempotencyKey.firstSent"@, first_sent)],
        None => seq![],
    }
}

fn quoted_or_empty(v: &Option<String>) -> (r: String)
    ensures
        r@ == json_string(text_or_empty(opt_text(*v))),
{
    match v {
        Some(s) => json_quote(s.as_str()),
        None => {
            let e = String::new();
            json_quote(e.as_str())
        },
    }
}

/// The request that changes the restriction of a user, made at a given
/// time: `start_time` is the RFC 3339 time the restriction starts, and
/// `first_sent` the RFC 3339 time, in milliseconds, the request is first
/// sent.
pub fn update_user_restriction_at(params: &UpdateUserRestrictionParams, start_time: &String, first_sent: &String) -> (r: Request)
    ensures
        r.method == HttpMethod::Patch,
        r.url@ == user_restriction_url(params.universe_id, params.place_id, params.user_id),
        pairs(r.headers@) == json_headers(params.api_key@),
        pairs(r.query@) == update_query(*params, first_sent@),
        r.body matches RequestBody::Text(b) && b@ == restriction_body(*params, start_time@),
{
    let mut q = single_pair("updateMask", String::from_str("gameJoinRestriction"));
    match &params.idempotency_key {
        Some(k) => {
            push_pair(&mut q, "idempotencyKey.key", k.clone());
            push_pair(&mut q, "idempotencyKey.firstSent", first_sent.clone());
        },
        None => {},
    }
    assert(pairs(q@) =~= update_query(*params, first_sent@));
    let active = match params.active {
        Some(b) => b,
        None => false,
    };
    let exclude = match params.exclude_alt_accounts {
        Some(b) => b,
        None => false,
    };
    let mut f = single_pair("active", bool_to_text(active));
    push_pair(&mut f, "startTime", json_quote(start_time.as_str()));
    push_str_field(&mut f, "duration", &params.duration);
    push_pair(&mut f, "privateReason", quoted_or_empty(&params.private_reason));
    push_pair(&mut f, "displayReason", quoted_or_empty(&params.display_reason));
    push_pair(&mut f, "excludeAltAccounts", bool_to_text(exclude));
    push_pair(&mut f, "inherited", String::from_str("false"));
    assert(pairs(f@) =~= restriction_fields(*params, start_time@));
    let inner = object_text(&f);
    let mut body = concat("{\"gameJoinRestriction\":", inner.as_str());
    body.append("}");
    json_request(
        HttpMethod::Patch,
        &params.api_key,
        build_user_url(params.universe_id, params.place_id, params.user_id),
        q,
        body,
    )
}

/// Whether `c` is an ASCII digit.
pub open spec fn is_digit(c: char) -> bool {
    '0' <= c && c <= '9'
}

/// Two RFC 3339 texts of one instant in UTC: `sent` is the date and time
/// to the second, a `.`, three digits of milliseconds and `Z`; `start`
/// begins with the same date and time and ends in `Z`.
pub open spec fn same_instant_texts(start: Seq<char>, sent: Seq<char>) -> bool {
    exists|k: int|
        #![trigger sent.subrange(0, k)]
        {
            &&& 0 <= k
            &&& sent.len() == k + 5
            &&& sent[k] == '.'
            &&& is_digit(sent[k + 1]) && is_digit(sent[k + 2]) && is_digit(sent[k + 3])
            &&& sent[k + 4] == 'Z'
            &&& start.len() > k
            &&& start.subrange(0, k) == sent.subrange(0, k)
            &&& start[start.len() - 1] == 'Z'
        }
}

/// Relies on chrono's `Utc::now`, written with `to_rfc3339_opts` twice (its
/// `write_rfc3339`): the current time as serde writes a timestamp
/// (`AutoSi`: fraction digits as needed, `Z` for UTC) and in milliseconds
/// (`Millis`: always three digits, `Z` for UTC). Both texts write the same
/// date and time to the second. Which instant it is depends on the clock.
#[verifier::external_body]
fn current_time() -> (r: (String, String))
    ensures
        same_instant_texts(r.0@, r.1@),
{
    let now = chrono::Utc::now();
    (
        now.to_rfc3339_opts(chrono::SecondsFormat::AutoSi, true),
        now.to_rfc3339_opts(chrono::SecondsFormat::Millis, true),
    )
}

/// The request that changes the restriction of a user, starting now. The
/// time is read from the clock; everything else is as
/// [`update_user_restriction_at`] builds it for that time.
pub fn update_user_restriction(params: &UpdateUserRestrictionParams) -> (r: Request)
    ensures
        r.method == HttpMethod::Patch,
        r.url@ == user_restriction_url(params.universe_id, params.place_id, params.user_id),
        pairs(r.headers@) == json_headers(params.api_key@),
        exists|start: Seq<char>, sent: Seq<char>|
            #![trigger update_query(*params, sent), restriction_body(*params, start)]
            {
            &&& same_instant_texts(start, sent)
            &&& pairs(r.query@) == update_query(*params, sent)
            &&& r.body matches RequestBody::Text(b) && b@ == restriction_body(*params, start)
        },
{
    let (start, sent) = current_time();
    let r = update_user_restriction_at(params, &start, &sent);
    assert(pairs(r.query@) == update_query(*params, sent@) && restriction_body(*params, start@) == restriction_body(*params, start@));
    r
}

/// A restriction from joining a universe or place. Times are RFC 3339 text.
#[derive(Debug, Clone)]
pub struct GameJoinRestriction {
    pub active: bool,
    pub start_time: Option<String>,
    pub duration: Option<String>,
    pub private_reason: String,
    pub display_reason: String,
    pub exclude_alt_accounts: bool,
    pub inherited: bool,
}

/// `body` has the JSON shape of a [`GameJoinRestriction`].
pub open spec fn game_join_restriction_parses(body: Seq<char>) -> bool {
    &&& json_bool_at(body, "active"@) is Some
    &&& json_str_at(body, "privateReason"@) is Some
    &&& json_str_at(body, "displayReason"@) is Some
    &&& json_bool_at(body, "excludeAltAccounts"@) is Some
    &&& json_bool_at(body, "inherited"@) is Some
}

/// `body` is the JSON form of `v`.
pub open spec fn game_join_restriction_matches(body: Seq<char>, v: GameJoinRestriction) -> bool {
    &&& json_bool_at(body, "active"@) == Some(v.active)
    &&& json_str_at(body, "startTime"@) == opt_text(v.start_time)
    &&& json_str_at(body, "duration"@) == opt_text(v.duration)
    &&& json_str_at(body, "privateReason"@) == Some(v.private_reason@)
    &&& json_str_at(body, "displayReason"@) == Some(v.display_reason@)
    &&& json_bool_at(body, "excludeAltAccounts"@) == Some(v.exclude_alt_accounts)
    &&& json_bool_at(body, "inherited"@) == Some(v.inherited)
}

impl GameJoinRestriction {
    /// Reads a [`GameJoinRestriction`] out of a JSON body; fails exactly when the body
    /// does not have its shape.
    pub fn decode(body: &str) -> (r: Result<GameJoinRestriction, Error>)
        ensures
            game_join_restriction_parses(body@) <==> r is Ok,
            r matches Ok(v) ==> game_join_restriction_matches(body@, v),
            r matches Err(e) ==> e is SerdeJsonError,
    {
        let active = match json_bool_field(body, "active") {
            Some(x) => x,
            None => {
                return Err(malformed("GameJoinRestriction"));
            },
        };
        let start_time = json_str_field(body, "startTime");
        let duration = json_str_field(body, "duration");
        let private_reason = match json_str_field(body, "privateReason") {
            Some(x) => x,
            None => {
                return Err(malformed("GameJoinRestriction"));
            },
        };
        let display_reason = match json_str_field(body, "displayReason") {
            Some(x) => x,
            None => {
                return Err(malformed("GameJoinRestriction"));
            },
        };
        let exclude_alt_accounts = match json_bool_field(body, "excludeAltAccounts") {
            Some(x) => x,
            None => {
                return Err(malformed("GameJoinRestriction"));
            },
        };
        let inherited = match json_bool_field(body, "inherited") {
            Some(x) => x,
            None => {
                return Err(malformed("GameJoinRestriction"));
            },
        };
        Ok(GameJoinRestriction { active, start_time, duration, private_reason, display_reason, exclude_alt_accounts, inherited })
    }
}

/// The restriction of a user.
#[derive(Debug, Clone)]
pub struct UserRestriction {
    pub path: String,
    pub update_time: Option<String>,
    pub user: String,
    pub game_join_restriction: GameJoinRestriction,
}

/// `body` has the JSON shape of a [`UserRestriction`].
pub open spec fn user_restriction_parses(body: Seq<char>) -> bool {
    &&& json_str_at(body, "path"@) is Some
    &&& json_str_at(body, "user"@) is Some
    &&& json_sub_at(body, "gameJoinRestriction"@) matches Some(t) && game_join_restriction_parses(t)
}

/// `body` is the JSON form of `v`.
pub open spec fn user_restriction_matches(body: Seq<char>, v: UserRestriction) -> bool {
    &&& json_str_at(body, "path"@) == Some(v.path@)
    &&& json_str_at(body, "updateTime"@) == opt_text(v.update_time)
    &&& json_str_at(body, "user"@) == Some(v.user@)
    &&& json_sub_at(body, "gameJoinRestriction"@) matches Some(t) && game_join_restriction_matches(t, v.game_join_restriction)
}

impl UserRestriction {
    /// Reads a [`UserRestriction`] out of a JSON body; fails exactly when the body
    /// does not have its shape.
    pub fn decode(body: &str) -> (r: Result<UserRestriction, Error>)
        ensures
            user_restriction_parses(body@) <==> r is Ok,
            r matches Ok(v) ==> user_restriction_matches(body@, v),
            r matches Err(e) ==> e is SerdeJsonError,
    {
        let path = match json_str_field(body, "path") {
            Some(x) => x,
            None => {
                return Err(malformed("UserRestriction"));
            },
        };
        let update_time = json_str_field(body, "updateTime");
        let user = match json_str_field(body, "user") {
            Some(x) => x,
            None => {
                return Err(malformed("UserRestriction"));
            },
        };
        let game_join_restriction = match json_sub_text(body, "gameJoinRestriction") {
            Some(t) => match GameJoinRestriction::decode(t.as_str()) {
                Ok(x) => x,
                Err(e) => {
                    return Err(e);
                },
            },
            None => {
                return Err(malformed("UserRestriction"));
            },
        };
        Ok(UserRestriction { path, update_time, user, game_join_restriction })
    }
}

/// One page of restrictions, with the token of the next page if any.
#[derive(Debug, Clone)]
pub struct UserRestrictionList {
    pub user_restrictions: Vec<UserRestriction>,
    pub next_page_token: Option<String>,
}

/// `body` has the JSON shape of a [`UserRestrictionList`].
pub open spec fn user_restriction_list_parses(body: Seq<char>) -> bool {
    &&& json_len_at(body, "userRestrictions"@) matches Some(n) && (forall|i: usize| i < n ==> (#[trigger] json_item_at(body, "userRestrictions"@, i) matches Some(t) && user_restriction_parses(t)))
}

/// `body` is the JSON form of `v`.
pub open spec fn user_restriction_list_matches(body: Seq<char>, v: UserRestrictionList) -> bool {
    &&& json_len_at(body, "userRestrictions"@) == Some(v.user_restrictions@.len() as usize) && (forall|i: int| 0 <= i < v.user_restrictions@.len() ==> (json_item_at(body, "userRestrictions"@, i as usize) matches Some(t) && user_restriction_matches(t, #[trigger] v.user_restrictions@[i])))
    &&& json_str_at(body, "nextPageToken"@) == opt_text(v.next_page_token)
}

impl UserRestrictionList {
    /// Reads a [`UserRestrictionList`] out of a JSON body; fails exactly when the body
    /// does not have its shape.
    pub fn decode(body: &str) -> (r: Result<UserRestrictionList, Error>)
        ensures
            user_restriction_list_parses(body@) <==> r is Ok,
            r matches Ok(v) ==> user_restriction_list_matches(body@, v),
            r matches Err(e) ==> e is SerdeJsonError,
    {
        let n = match json_array_len(body, "userRestrictions") {
            Some(n) => n,
            None => {
                return Err(malformed("UserRestrictionList"));
            },
        };
        let mut user_restrictions: Vec<UserRestriction> = Vec::new();
        let mut i: usize = 0;
        while i < n
            invariant
                json_len_at(body@, "userRestrictions"@) == Some(n),
                i <= n,
                user_restrictions@.len() == i,
                forall|k: int| 0 <= k < i ==> (json_item_at(body@, "userRestrictions"@, k as usize) matches Some(t) && user_restriction_matches(t, #[trigger] user_restrictions@[k])),
                forall|k: usize| k < i ==> (#[trigger] json_item_at(body@, "userRestrictions"@, k) matches Some(t) && user_restriction_parses(t)),
            decreases n - i,
        {
            let t = match json_item_text(body, "userRestrictions", i) {
                Some(t) => t,
                None => {
                    return Err(malformed("UserRestrictionList"));
                },
            };
            let x = match UserRestriction::decode(t.as_str()) {
                Ok(x) => x,
                Err(e) => {
                    return Err(e);
                },
            };
            user_restrictions.push(x);
            i = i + 1;
        }
        let next_page_token = json_str_field(body, "nextPageToken");
        Ok(UserRestrictionList { user_restrictions, next_page_token })
    }
}

/// A moderator that is a game server script.
#[derive(Debug, Clone)]
pub struct GameServerScript {}

/// Who changed a restriction.
#[derive(Debug, Clone)]
pub enum UserRestrictionModerator {
    RobloxUser(String),
    GameServerScript(GameServerScript),
}

/// `body` names a moderator: a user, or a game server script.
pub open spec fn user_restriction_moderator_parses(body: Seq<char>) -> bool {
    json_str_at(body, "robloxUser"@) is Some || json_sub_at(body, "gameServerScript"@) is Some
}

/// `body` is the JSON form of the moderator `v`.
pub open spec fn user_restriction_moderator_matches(body: Seq<char>, v: UserRestrictionModerator) -> bool {
    match v {
        UserRestrictionModerator::RobloxUser(u) => json_str_at(body, "robloxUser"@) == Some(u@),
        UserRestrictionModerator::GameServerScript(_) => json_str_at(body, "robloxUser"@) is None
            && json_sub_at(body, "gameServerScript"@) is Some,
    }
}

impl UserRestrictionModerator {
    /// Reads a moderator out of a JSON body.
    pub fn decode(body: &str) -> (r: Result<UserRestrictionModerator, Error>)
        ensures
            user_restriction_moderator_parses(body@) <==> r is Ok,
            r matches Ok(v) ==> user_restriction_moderator_matches(body@, v),
            r matches Err(e) ==> e is SerdeJsonError,
    {
        match json_str_field(body, "robloxUser") {
            Some(u) => Ok(UserRestrictionModerator::RobloxUser(u)),
            None => match json_sub_text(body, "gameServerScript") {
                Some(_) => Ok(UserRestrictionModerator::GameServerScript(GameServerScript {})),
                None => Err(malformed("UserRestrictionModerator")),
            },
        }
    }
}

/// A change to a restriction.
#[derive(Debug, Clone)]
pub struct UserRestrictionLog {
    pub user: String,
    pub place: String,
    pub create_time: String,
    pub active: bool,
    pub start_time: String,
    pub duration: String,
    pub private_reason: String,
    pub display_reason: String,
    pub exclude_alt_accounts: bool,
    pub moderator: UserRestrictionModerator,
}

/// `body` has the JSON shape of a [`UserRestrictionLog`].
pub open spec fn user_restriction_log_parses(body: Seq<char>) -> bool {
    &&& json_str_at(body, "user"@) is Some
    &&& json_str_at(body, "place"@) is Some
    &&& json_str_at(body, "createTime"@) is Some
    &&& json_bool_at(body, "active"@) is Some
    &&& json_str_at(body, "startTime"@) is Some
    &&& json_str_at(body, "duration"@) is Some
    &&& json_str_at(body, "privateReason"@) is Some
    &&& json_str_at(body, "displayReason"@) is Some
    &&& json_bool_at(body, "excludeAltAccounts"@) is Some
    &&& json_sub_at(body, "moderator"@) matches Some(t) && user_restriction_moderator_parses(t)
}

/// `body` is the JSON form of `v`.
pub open spec fn user_restriction_log_matches(body: Seq<char>, v: UserRestrictionLog) -> bool {
    &&& json_str_at(body, "user"@) == Some(v.user@)
    &&& json_str_at(body, "place"@) == Some(v.place@)
    &&& json_str_at(body, "createTime"@) == Some(v.create_time@)
    &&& json_bool_at(body, "active"@) == Some(v.active)
    &&& json_str_at(body, "startTime"@) == Some(v.start_time@)
    &&& json_str_at(body, "duration"@) == Some(v.duration@)
    &&& json_str_at(body, "privateReason"@) == Some(v.private_reason@)
    &&& json_str_at(body, "displayReason"@) == Some(v.display_reason@)
    &&& json_bool_at(body, "excludeAltAccounts"@) == Some(v.exclude_alt_accounts)
    &&& json_sub_at(body, "moderator"@) matches Some(t) && user_restriction_moderator_matches(t, v.moderator)
}

impl UserRestrictionLog {
    /// Reads a [`UserRestrictionLog`] out of a JSON body; fails exactly when the body
    /// does not have its shape.
    pub fn decode(body: &str) -> (r: Result<UserRestrictionLog, Error>)
        ensures
            user_restriction_log_parses(body@) <==> r is Ok,
            r matches Ok(v) ==> user_restriction_log_matches(body@, v),
            r matches Err(e) ==> e is SerdeJsonError,
    {
        let user = match json_str_field(body, "user") {
            Some(x) => x,
            None => {
                return Err(malformed("UserRestrictionLog"));
            },
        };
        let place = match json_str_field(body, "place") {
            Some(x) => x,
            None => {
                return Err(malformed("UserRestrictionLog"));
            },
        };
        let create_time = match json_str_field(body, "createTime") {
            Some(x) => x,
            None => {
                return Err(malformed("UserRestrictionLog"));
            },
        };
        let active = match json_bool_field(body, "active") {
            Some(x) => x,
            None => {
                return Err(malformed("UserRestrictionLog"));
            },
        };
        let start_time = match json_str_field(body, "startTime") {
            Some(x) => x,
            None => {
                return Err(malformed("UserRestrictionLog"));
            },
        };
        let duration = match json_str_field(body, "duration") {
            Some(x) => x,
            None => {
                return Err(malformed("UserRestrictionLog"));
            },
        };
        let private_reason = match json_str_field(body, "privateReason") {
            Some(x) => x,
            None => {
                return Err(malformed("UserRestrictionLog"));
            },
        };
        let display_reason = match json_str_field(body, "displayReason") {
            Some(x) => x,
            None => {
                return Err(malformed("UserRestrictionLog"));
            },
        };
        let exclude_alt_accounts = match json_bool_field(body, "excludeAltAccounts") {
            Some(x) => x,
            None => {
                return Err(malformed("UserRestrictionLog"));
            },
        };
        let moderator = match json_sub_text(body, "moderator") {
            Some(t) => match UserRestrictionModerator::decode(t.as_str()) {
                Ok(x) => x,
                Err(e) => {
                    return Err(e);
                },
            },
            None => {
                return Err(malformed("UserRestrictionLog"));
            },
        };
        Ok(UserRestrictionLog { user, place, create_time, active, start_time, duration, private_reason, display_reason, exclude_alt_accounts, moderator })
    }
}

/// One page of restriction changes, with the token of the next page if any.
#[derive(Debug, Clone)]
pub struct UserRestrictionLogsList {
    pub logs: Vec<UserRestrictionLog>,
    pub next_page_token: Option<String>,
}

/// `body` has the JSON shape of a [`UserRestrictionLogsList`].
pub open spec fn user_restriction_logs_list_parses(body: Seq<char>) -> bool {
    &&& json_len_at(body, "logs"@) matches Some(n) && (forall|i: usize| i < n ==> (#[trigger] json_item_at(body, "logs"@, i) matches Some(t) && user_restriction_log_parses(t)))
}

/// `body` is the JSON form of `v`.
pub open spec fn user_restriction_logs_list_matches(body: Seq<char>, v: UserRestrictionLogsList) -> bool {
    &&& json_len_at(body, "logs"@) == Some(v.logs@.len() as usize) && (forall|i: int| 0 <= i < v.logs@.len() ==> (json_item_at(body, "logs"@, i as usize) matches Some(t) && user_restriction_log_matches(t, #[trigger] v.logs@[i])))
    &&& json_str_at(body, "nextPageToken"@) == opt_text(v.next_page_token)
}

impl UserRestrictionLogsList {
    /// Reads a [`UserRestrictionLogsList`] out of a JSON body; fails exactly when the body
    /// does not have its shape.
    pub fn decode(body: &str) -> (r: Result<UserRestrictionLogsList, Error>)
        ensures
            user_restriction_logs_list_parses(body@) <==> r is Ok,
            r matches Ok(v) ==> user_restriction_logs_list_matches(body@, v),
            r matches Err(e) ==> e is SerdeJsonError,
    {
        let n = match json_array_len(body, "logs") {
            Some(n) => n,
            None => {
                return Err(malformed("UserRestrictionLogsList"));
            },
        };
        let mut logs: Vec<UserRestrictionLog> = Vec::new();
        let mut i: usize = 0;
        while i < n
            invariant
                json_len_at(body@, "logs"@) == Some(n),
                i <= n,
                logs@.len() == i,
                forall|k: int| 0 <= k < i ==> (json_item_at(body@, "logs"@, k as usize) matches Some(t) && user_restriction_log_matches(t, #[trigger] logs@[k])),
                forall|k: usize| k < i ==> (#[trigger] json_item_at(body@, "logs"@, k) matches Some(t) && user_restriction_log_parses(t)),
            decreases n - i,
        {
            let t = match json_item_text(body, "logs", i) {
                Some(t) => t,
                None => {
                    return Err(malformed("UserRestrictionLogsList"));
                },
            };
            let x = match UserRestrictionLog::decode(t.as_str()) {
                Ok(x) => x,
                Err(e) => {
                    return Err(e);
                },
            };
            logs.push(x);
            i = i + 1;
        }
        let next_page_token = json_str_field(body, "nextPageToken");
        Ok(UserRestrictionLogsList { logs, next_page_token })
    }
}

} // verus!
