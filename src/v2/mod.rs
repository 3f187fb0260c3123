//! Roblox Open Cloud v2 APIs: groups, inventory, Luau execution,
//! notifications, places, subscriptions, universes, users and user
//! restrictions.
pub mod http_err;
pub mod group;
pub mod inventory;
pub mod universe;
pub mod place;
pub mod subscription;
pub mod user;
pub mod user_restriction;
pub mod luau_execution;
pub mod notification;

use crate::http::{json_headers, key_headers, HttpMethod, Request, RequestBody};
use crate::text::{opt_text, decimal, json_object, opt_pair, pairs, u64_to_decimal};
use crate::types::{GroupId, PlaceId, RobloxUserId, UniverseId};
use group::{
    group_url, GetGroupParams, GetGroupShoutParams, ListGroupMembershipsParams,
    ListGroupRolesParams,
};
use inventory::{inventory_url, ListInventoryItemsParams};
use luau_execution::{
    place_version_url, task_endpoint, task_input_json, CreateLuauExecutionTaskParams,
    GetLuauExecutionSessionTaskLogsParams, GetLuauExecutionSessionTaskParams,
    LuauExecutionTaskLogView,
};
use notification::{notification_json, notifications_url, Notification, NotificationParams};
use place::{place_fields, place_url, GetPlaceParams, UpdatePlaceInfo, UpdatePlaceParams};
use subscription::{subscription_url, GetSubscriptionParams, SubscriptionView};
use universe::{
    universe_fields, universe_url, GetUniverseParams, RestartUniverseServersParams,
    UpdateUniverseInfo, UpdateUniverseParams,
};
use user::{
    thumbnail_query, user_url, GenerateUserThumbnailParams, GetUserParams, UserThumbnailFormat,
    UserThumbnailShape, UserThumbnailSize,
};
use user_restriction::{
    listing_query, restriction_body, restriction_fields, restriction_json, restriction_members, same_instant_texts, restrictions_url, update_query, user_restriction_url,
    GetUserRestrictionParams, ListUserRestrictionLogsParams, ListUserRestrictionsParams,
    UpdateUserRestrictionParams,
};
use vstd::prelude::*;
use vstd::string::*;

verus! {

/// The entry point of the v2 APIs: holds the API key.
#[derive(Debug)]
pub struct Client {
    pub api_key: String,
}

/// Operations on one group.
pub struct GroupClient {
    pub api_key: String,
    pub group_id: GroupId,
}

/// Operations on user inventories.
pub struct InventoryClient {
    pub api_key: String,
}

/// Luau execution against one place, or one version of it.
pub struct LuauExecutionClient {
    pub api_key: String,
    pub universe_id: UniverseId,
    pub place_id: PlaceId,
    pub version_id: Option<String>,
}

/// Operations on subscriptions.
pub struct SubscriptionClient {
    pub api_key: String,
}

/// Notifications from one universe.
pub struct NotificationClient {
    pub api_key: String,
    pub universe_id: UniverseId,
}

/// Operations on one place.
pub struct PlaceClient {
    pub api_key: String,
    pub universe_id: UniverseId,
    pub place_id: PlaceId,
}

/// Operations on one universe.
pub struct UniverseClient {
    pub api_key: String,
    pub universe_id: UniverseId,
}

/// Operations on users.
pub struct UserClient {
    pub api_key: String,
}

/// User restrictions of one universe.
pub struct UserRestrictionClient {
    pub api_key: String,
    pub universe_id: UniverseId,
}

/// A change to the restriction of a user. The duration is in seconds.
pub struct UserRestrictionParams {
    pub user_id: RobloxUserId,
    pub place_id: Option<PlaceId>,
    pub active: Option<bool>,
    pub duration: Option<u64>,
    pub private_reason: Option<String>,
    pub display_reason: Option<String>,
    pub exclude_alt_accounts: Option<bool>,
}

impl Client {
    /// A client that uses `api_key`.
    pub fn new(api_key: &str) -> (r: Client)
        ensures
            r.api_key@ == api_key@,
    {
        Client { api_key: String::from_str(api_key) }
    }

    /// Operations on the group `group_id`.
    pub fn group(&self, group_id: GroupId) -> (r: GroupClient)
        ensures
            r.api_key@ == self.api_key@,
            r.group_id == group_id,
    {
        GroupClient { api_key: self.api_key.clone(), group_id }
    }

    /// Operations on user inventories.
    pub fn inventory(&self) -> (r: InventoryClient)
        ensures
            r.api_key@ == self.api_key@,
    {
        InventoryClient { api_key: self.api_key.clone() }
    }

    /// Luau execution against a place, or one version of it.
    pub fn luau(&self, universe_id: UniverseId, place_id: PlaceId, version_id: Option<String>) -> (r: LuauExecutionClient)
        ensures
            r.api_key@ == self.api_key@,
            r.universe_id == universe_id,
            r.place_id == place_id,
            r.version_id == version_id,
    {
        LuauExecutionClient { api_key: self.api_key.clone(), universe_id, place_id, version_id }
    }

    /// Operations on subscriptions.
    pub fn subscription(&self) -> (r: SubscriptionClient)
        ensures
            r.api_key@ == self.api_key@,
    {
        SubscriptionClient { api_key: self.api_key.clone() }
    }

    /// Notifications from the universe `universe_id`.
    pub fn notification(&self, universe_id: UniverseId) -> (r: NotificationClient)
        ensures
            r.api_key@ == self.api_key@,
            r.universe_id == universe_id,
    {
        NotificationClient { api_key: self.api_key.clone(), universe_id }
    }

    /// Operations on a place.
    pub fn place(&self, universe_id: UniverseId, place_id: PlaceId) -> (r: PlaceClient)
        ensures
            r.api_key@ == self.api_key@,
            r.universe_id == universe_id,
            r.place_id == place_id,
    {
        PlaceClient { api_key: self.api_key.clone(), universe_id, place_id }
    }

    /// Operations on a universe.
    pub fn universe(&self, universe_id: UniverseId) -> (r: UniverseClient)
        ensures
            r.api_key@ == self.api_key@,
            r.universe_id == universe_id,
    {
        UniverseClient { api_key: self.api_key.clone(), universe_id }
    }

    /// Operations on users.
    pub fn user(&self) -> (r: UserClient)
        ensures
            r.api_key@ == self.api_key@,
    {
        UserClient { api_key: self.api_key.clone() }
    }

    /// User restrictions of a universe.
    pub fn user_restriction(&self, universe_id: UniverseId) -> (r: UserRestrictionClient)
        ensures
            r.api_key@ == self.api_key@,
            r.universe_id == universe_id,
    {
        UserRestrictionClient { api_key: self.api_key.clone(), universe_id }
    }
}

impl GroupClient {
    /// The request that reads the group.
    pub fn get_info(&self) -> (r: Request)
        ensures
            r.method == HttpMethod::Get,
            r.url@ == group_url(self.group_id, seq![]),
            pairs(r.headers@) == key_headers(self.api_key@),
            r.query@.len() == 0,
    {
        group::get_group(&GetGroupParams { api_key: self.api_key.clone(), group_id: self.group_id })
    }

    /// The request that reads the shout of the group.
    pub fn get_shout(&self) -> (r: Request)
        ensures
            r.method == HttpMethod::Get,
            r.url@ == group_url(self.group_id, "/shout"@),
            pairs(r.headers@) == key_headers(self.api_key@),
            r.query@.len() == 0,
    {
        group::get_group_shout(&GetGroupShoutParams { api_key: self.api_key.clone(), group_id: self.group_id })
    }

    /// The request that lists the roles of the group.
    pub fn list_roles(&self, max_page_size: Option<u32>, page_token: Option<String>) -> (r: Request)
        ensures
            r.method == HttpMethod::Get,
            r.url@ == group_url(self.group_id, "/roles"@),
            pairs(r.headers@) == key_headers(self.api_key@),
            pairs(r.query@) == crate::text::opt_num_pair("maxPageSize"@, max_page_size) + opt_pair("pageToken"@, page_token),
    {
        group::list_group_roles(&ListGroupRolesParams { api_key: self.api_key.clone(), group_id: self.group_id, max_page_size, page_token })
    }

    /// The request that lists the memberships of the group.
    pub fn list_memberships(&self, max_page_size: Option<u32>, filter: Option<String>, page_token: Option<String>) -> (r: Request)
        ensures
            r.method == HttpMethod::Get,
            r.url@ == group_url(self.group_id, "/memberships"@),
            pairs(r.headers@) == key_headers(self.api_key@),
            pairs(r.query@) == crate::text::opt_num_pair("maxPageSize"@, max_page_size) + opt_pair("pageToken"@, page_token) + opt_pair("filter"@, filter),
    {
        group::list_group_memberships(&ListGroupMembershipsParams { api_key: self.api_key.clone(), group_id: self.group_id, max_page_size, page_token, filter })
    }
}

impl InventoryClient {
    /// The request that lists the inventory items of a user.
    pub fn list_inventory_items(&self, user_id: RobloxUserId, max_page_size: Option<u32>, page_token: Option<String>, filter: Option<String>) -> (r: Request)
        ensures
            r.method == HttpMethod::Get,
            r.url@ == inventory_url(user_id),
            pairs(r.headers@) == key_headers(self.api_key@),
            pairs(r.query@) == crate::text::opt_num_pair("maxPageSize"@, max_page_size) + opt_pair("pageToken"@, page_token) + opt_pair("filter"@, filter),
    {
        inventory::list_inventory_items(&ListInventoryItemsParams { api_key: self.api_key.clone(), user_id, max_page_size, page_token, filter })
    }
}

impl LuauExecutionClient {
    /// The request that runs `script` as a new task.
    pub fn create_task(&self, script: String, timeout: Option<String>) -> (r: Request)
        ensures
            r.method == HttpMethod::Post,
            r.url@ == place_version_url(self.universe_id, self.place_id, self.version_id, "/luau-execution-session-tasks"@),
            pairs(r.headers@) == json_headers(self.api_key@),
            r.body matches RequestBody::Text(b) && b@ == task_input_json(script@, timeout),
    {
        let version_id = match &self.version_id {
            Some(v) => Some(v.clone()),
            None => None,
        };
        let r = luau_execution::create_luau_execution_task(&CreateLuauExecutionTaskParams {
            api_key: self.api_key.clone(),
            universe_id: self.universe_id,
            place_id: self.place_id,
            version_id,
            script,
            timeout,
        });
        assert(place_version_url(self.universe_id, self.place_id, version_id, "/luau-execution-session-tasks"@) =~= place_version_url(self.universe_id, self.place_id, self.version_id, "/luau-execution-session-tasks"@));
        r
    }

    /// The request that reads a task.
    pub fn get_task(&self, session_id: String, task_id: String) -> (r: Request)
        ensures
            r.method == HttpMethod::Get,
            r.url@ == place_version_url(self.universe_id, self.place_id, self.version_id, task_endpoint(session_id@, task_id@)),
            pairs(r.headers@) == key_headers(self.api_key@),
    {
        let ghost s = session_id@;
        let ghost t = task_id@;
        let version_id = match &self.version_id {
            Some(v) => Some(v.clone()),
            None => None,
        };
        let r = luau_execution::get_luau_execution_task(&GetLuauExecutionSessionTaskParams {
            api_key: self.api_key.clone(),
            universe_id: self.universe_id,
            place_id: self.place_id,
            version_id,
            session_id,
            task_id,
        });
        assert(place_version_url(self.universe_id, self.place_id, version_id, task_endpoint(s, t)) =~= place_version_url(self.universe_id, self.place_id, self.version_id, task_endpoint(s, t)));
        r
    }

    /// The request that reads the logs of a task.
    pub fn get_logs(&self, session_id: String, task_id: String, view: LuauExecutionTaskLogView, max_page_size: Option<u32>, page_token: Option<String>) -> (r: Request)
        ensures
            r.method == HttpMethod::Get,
            r.url@ == place_version_url(self.universe_id, self.place_id, self.version_id, task_endpoint(session_id@, task_id@) + "/logs"@),
            pairs(r.headers@) == key_headers(self.api_key@),
    {
        let ghost s = session_id@;
        let ghost t = task_id@;
        let version_id = match &self.version_id {
            Some(v) => Some(v.clone()),
            None => None,
        };
        let r = luau_execution::get_luau_execution_task_logs(&GetLuauExecutionSessionTaskLogsParams {
            api_key: self.api_key.clone(),
            universe_id: self.universe_id,
            place_id: self.place_id,
            version_id,
            session_id,
            task_id,
            max_page_size,
            page_token,
            view,
        });
        assert(place_version_url(self.universe_id, self.place_id, version_id, task_endpoint(s, t) + "/logs"@) =~= place_version_url(self.universe_id, self.place_id, self.version_id, task_endpoint(s, t) + "/logs"@));
        r
    }
}

impl SubscriptionClient {
    /// The request that reads a subscription of a product of a universe.
    pub fn get(&self, universe_id: UniverseId, subscription_product: String, subscription: String, view: Option<SubscriptionView>) -> (r: Request)
        ensures
            r.method == HttpMethod::Get,
            r.url@ == subscription_url(universe_id, subscription_product@),
            pairs(r.headers@) == key_headers(self.api_key@),
    {
        subscription::get_subscription(&GetSubscriptionParams { api_key: self.api_key.clone(), universe_id, subscription_product, subscription, view })
    }
}

impl NotificationClient {
    /// The request that sends `notification` to a user.
    pub fn send(&self, user_id: RobloxUserId, notification: Notification) -> (r: Request)
        ensures
            r.method == HttpMethod::Post,
            r.url@ == notifications_url(user_id),
            pairs(r.headers@) == key_headers(self.api_key@),
            r.body matches RequestBody::Text(b) && b@ == notification_json(notification),
    {
        notification::send_notification(&NotificationParams { api_key: self.api_key.clone(), user_id, notification })
    }
}

impl PlaceClient {
    /// The request that reads the place.
    pub fn get(&self) -> (r: Request)
        ensures
            r.method == HttpMethod::Get,
            r.url@ == place_url(self.universe_id, self.place_id),
            pairs(r.headers@) == key_headers(self.api_key@),
    {
        place::get_place(&GetPlaceParams { api_key: self.api_key.clone(), universe_id: self.universe_id, place_id: self.place_id })
    }

    /// The request that changes the fields of the place named by the mask.
    pub fn update(&self, update_mask: String, info: UpdatePlaceInfo) -> (r: Request)
        ensures
            r.method == HttpMethod::Patch,
            r.url@ == place_url(self.universe_id, self.place_id),
            pairs(r.headers@) == json_headers(self.api_key@),
            pairs(r.query@) == seq![("updateMask"@, update_mask@)],
            r.body matches RequestBody::Text(b) && b@ == json_object(place_fields(info)),
    {
        place::update_place(&UpdatePlaceParams { api_key: self.api_key.clone(), universe_id: self.universe_id, place_id: self.place_id, update_mask, info })
    }
}

impl UniverseClient {
    /// The request that reads the universe.
    pub fn get(&self) -> (r: Request)
        ensures
            r.method == HttpMethod::Get,
            r.url@ == universe_url(self.universe_id, seq![]),
            pairs(r.headers@) == key_headers(self.api_key@),
    {
        universe::get_universe(&GetUniverseParams { api_key: self.api_key.clone(), universe_id: self.universe_id })
    }

    /// The request that changes the fields of the universe named by the
    /// mask; the body holds exactly the present fields of `info`.
    pub fn update(&self, update_mask: String, info: UpdateUniverseInfo) -> (r: Request)
        ensures
            r.method == HttpMethod::Patch,
            r.url@ == universe_url(self.universe_id, seq![]),
            pairs(r.headers@) == json_headers(self.api_key@),
            pairs(r.query@) == seq![("updateMask"@, update_mask@)],
            r.body matches RequestBody::Text(b) && b@ == json_object(universe_fields(info)),
    {
        universe::update_universe(&UpdateUniverseParams { api_key: self.api_key.clone(), universe_id: self.universe_id, update_mask, info })
    }

    /// The request that restarts the servers of the universe.
    pub fn restart_servers(&self) -> (r: Request)
        ensures
            r.method == HttpMethod::Post,
            r.url@ == universe_url(self.universe_id, ":restartServers"@),
            pairs(r.headers@) == json_headers(self.api_key@),
    {
        universe::restart_universe_servers(&RestartUniverseServersParams { api_key: self.api_key.clone(), universe_id: self.universe_id })
    }
}

impl UserClient {
    /// The request that reads a user.
    pub fn get_user(&self, user_id: RobloxUserId) -> (r: Request)
        ensures
            r.method == HttpMethod::Get,
            r.url@ == user_url(user_id, seq![]),
            pairs(r.headers@) == key_headers(self.api_key@),
    {
        user::get_user(&GetUserParams { api_key: self.api_key.clone(), user_id })
    }

    /// The request that generates the avatar thumbnail of a user.
    pub fn generate_thumbnail(&self, user_id: RobloxUserId, size: Option<UserThumbnailSize>, format: Option<UserThumbnailFormat>, shape: Option<UserThumbnailShape>) -> (r: Request)
        ensures
            r.method == HttpMethod::Get,
            r.url@ == user_url(user_id, ":generateThumbnail"@),
            pairs(r.headers@) == key_headers(self.api_key@),
            pairs(r.query@) == thumbnail_query(GenerateUserThumbnailParams { api_key: self.api_key, user_id, size, format, shape }),
    {
        let p = GenerateUserThumbnailParams { api_key: self.api_key.clone(), user_id, size, format, shape };
        let r = user::generate_thumbnail(&p);
        assert(thumbnail_query(p) =~= thumbnail_query(GenerateUserThumbnailParams { api_key: self.api_key, user_id, size, format, shape }));
        r
    }
}

/// A duration in seconds, as the service reads it: `<seconds>s`.
pub open spec fn duration_text(seconds: u64) -> Seq<char> {
    decimal(seconds as nat) + "s"@
}

/// The text of an optional duration in seconds.
pub open spec fn duration_of(seconds: Option<u64>) -> Option<Seq<char>> {
    match seconds {
        Some(d) => Some(duration_text(d)),
        None => None,
    }
}

/// Writes a duration in seconds as `<seconds>s`.
pub fn format_duration(seconds: u64) -> (r: String)
    ensures
        r@ == duration_text(seconds),
{
    let mut s = u64_to_decimal(seconds);
    s.append("s");
    s
}

/// A key made of `n` ASCII letters and digits.
pub open spec fn is_alphanumeric_key(k: Seq<char>, n: nat) -> bool {
    &&& k.len() == n
    &&& forall|i: int| 0 <= i < k.len() ==> {
        let c = #[trigger] k[i];
        ('a' <= c && c <= 'z') || ('A' <= c && c <= 'Z') || ('0' <= c && c <= '9')
    }
}

/// Relies on rand's `rng().sample_iter(&Alphanumeric)`: `n` characters
/// drawn from the ASCII letters and digits. Which ones is left to chance.
#[verifier::external_body]
fn random_alphanumeric(n: usize) -> (r: String)
    ensures
        is_alphanumeric_key(r@, n as nat),
{
    rand::Rng::sample_iter(rand::rng(), &rand::distr::Alphanumeric).take(n).map(char::from).collect()
}

impl UserRestrictionClient {
    /// The request that lists the restrictions of the universe, or of one
    /// of its places.
    pub fn list_user_restrictions(&self, place_id: Option<PlaceId>, max_page_size: Option<u32>, filter: Option<String>, page_token: Option<String>) -> (r: Request)
        ensures
            r.method == HttpMethod::Get,
            r.url@ == restrictions_url(self.universe_id, place_id, seq![]),
            pairs(r.headers@) == key_headers(self.api_key@),
            pairs(r.query@) == listing_query(max_page_size, page_token, filter),
    {
        user_restriction::list_user_restrictions(&ListUserRestrictionsParams { api_key: self.api_key.clone(), universe_id: self.universe_id, place_id, max_page_size, page_token, filter })
    }

    /// The request that reads the restriction of a user.
    pub fn get_user_restriction(&self, user_id: RobloxUserId, place_id: Option<PlaceId>) -> (r: Request)
        ensures
            r.method == HttpMethod::Get,
            r.url@ == user_restriction_url(self.universe_id, place_id, user_id),
            pairs(r.headers@) == key_headers(self.api_key@),
    {
        user_restriction::get_user_restriction(&GetUserRestrictionParams { api_key: self.api_key.clone(), universe_id: self.universe_id, place_id, user_id })
    }

    /// The update request for a change, with the idempotency key `key`: the
    /// duration is written as `<seconds>s`.
    pub fn restriction_update(&self, params: &UserRestrictionParams, key: String) -> (r: UpdateUserRestrictionParams)
        ensures
            r.api_key@ == self.api_key@,
            r.universe_id == self.universe_id,
            r.place_id == params.place_id,
            r.user_id == params.user_id,
            r.idempotency_key matches Some(k) && k@ == key@,
            r.active == params.active,
            match params.duration {
                Some(d) => r.duration matches Some(t) && t@ == duration_text(d),
                None => r.duration is None,
            },
            crate::text::opt_text(r.private_reason) == crate::text::opt_text(params.private_reason),
            crate::text::opt_text(r.display_reason) == crate::text::opt_text(params.display_reason),
            r.exclude_alt_accounts == params.exclude_alt_accounts,
    {
        let duration = match params.duration {
            Some(d) => Some(format_duration(d)),
            None => None,
        };
        let private_reason = match &params.private_reason {
            Some(s) => Some(s.clone()),
            None => None,
        };
        let display_reason = match &params.display_reason {
            Some(s) => Some(s.clone()),
            None => None,
        };
        UpdateUserRestrictionParams {
            api_key: self.api_key.clone(),
            universe_id: self.universe_id,
            place_id: params.place_id,
            user_id: params.user_id,
            idempotency_key: Some(key),
            active: params.active,
            duration,
            private_reason,
            display_reason,
            exclude_alt_accounts: params.exclude_alt_accounts,
        }
    }

    /// The request that changes the restriction of a user, starting now,
    /// with a fresh random idempotency key of 32 letters and digits. The
    /// body holds the change, its duration written as `<seconds>s`.
    pub fn update_user_restriction(&self, params: &UserRestrictionParams) -> (r: Request)
        ensures
            r.method == HttpMethod::Patch,
            r.url@ == user_restriction_url(self.universe_id, params.place_id, params.user_id),
            pairs(r.headers@) == json_headers(self.api_key@),
            pairs(r.query@).len() == 3,
            pairs(r.query@)[0] == ("updateMask"@, "gameJoinRestriction"@),
            pairs(r.query@)[1].0 == "idempotencyKey.key"@,
            is_alphanumeric_key(pairs(r.query@)[1].1, 32),
            pairs(r.query@)[2].0 == "idempotencyKey.firstSent"@,
            exists|start: Seq<char>|
                #![trigger same_instant_texts(start, pairs(r.query@)[2].1)]
                {
                    &&& same_instant_texts(start, pairs(r.query@)[2].1)
                    &&& r.body matches RequestBody::Text(b) && b@ == restriction_json(
                        restriction_members(
                            params.active,
                            duration_of(params.duration),
                            opt_text(params.private_reason),
                            opt_text(params.display_reason),
                            params.exclude_alt_accounts,
                            start,
                        ),
                    )
                },
    {
        let key = random_alphanumeric(32);
        let u = self.restriction_update(params, key);
        let r = user_restriction::update_user_restriction(&u);
        proof {
            let s = choose|start: Seq<char>, sent: Seq<char>|
                #![trigger update_query(u, sent), restriction_body(u, start)]
                {
                    &&& same_instant_texts(start, sent)
                    &&& pairs(r.query@) == update_query(u, sent)
                    &&& r.body matches RequestBody::Text(b) && b@ == restriction_body(u, start)
                };
            assert(pairs(r.query@) == update_query(u, s.1));
            assert(opt_text(u.duration) == duration_of(params.duration));
            assert(restriction_fields(u, s.0) == restriction_members(
                params.active,
                duration_of(params.duration),
                opt_text(params.private_reason),
                opt_text(params.display_reason),
                params.exclude_alt_accounts,
                s.0,
            ));
            assert(pairs(r.query@)[2].1 == s.1);
            assert(same_instant_texts(s.0, pairs(r.query@)[2].1));
        }
        r
    }

    /// The request that lists the log of restriction changes of the
    /// universe, or of one of its places.
    pub fn list_user_restriction_logs(&self, place_id: Option<PlaceId>, max_page_size: Option<u32>, page_token: Option<String>, filter: Option<String>) -> (r: Request)
        ensures
            r.method == HttpMethod::Get,
            r.url@ == restrictions_url(self.universe_id, place_id, ":listLogs"@),
            pairs(r.headers@) == key_headers(self.api_key@),
            pairs(r.query@) == listing_query(max_page_size, page_token, filter),
    {
        user_restriction::list_user_restriction_logs(&ListUserRestrictionLogsParams { api_key: self.api_key.clone(), universe_id: self.universe_id, place_id, max_page_size, page_token, filter })
    }
}

} // verus!
