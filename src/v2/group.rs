//! Groups: information, shout, roles and memberships.
use crate::http::{get_request, key_headers, HttpMethod, Request};
use crate::text::{concat, decimal, opt_num_pair, opt_pair, pairs, push_opt, push_opt_num};
use crate::error::{malformed, Error};
use crate::json::{
    json_array_len, json_bool_at, json_bool_field, json_item_at, json_item_text, json_len_at,
    json_str_at, json_str_field, json_sub_at, json_sub_text, json_u64_at, json_u64_field,
};
use crate::text::opt_text;
use vstd::prelude::*;
use vstd::string::*;

pub use crate::types::GroupId;

verus! {

/// Parameters of reading a group.
pub struct GetGroupParams {
    pub api_key: String,
    pub group_id: GroupId,
}

/// Parameters of reading the shout of a group.
pub struct GetGroupShoutParams {
    pub api_key: String,
    pub group_id: GroupId,
}

/// Parameters of listing the roles of a group.
pub struct ListGroupRolesParams {
    pub api_key: String,
    pub group_id: GroupId,
    pub max_page_size: Option<u32>,
    pub page_token: Option<String>,
}

/// Parameters of listing the memberships of a group.
pub struct ListGroupMembershipsParams {
    pub api_key: String,
    pub group_id: GroupId,
    pub max_page_size: Option<u32>,
    pub page_token: Option<String>,
    pub filter: Option<String>,
}

/// The URL of a group, followed by `suffix`.
pub open spec fn group_url(group_id: GroupId, suffix: Seq<char>) -> Seq<char> {
    "https://apis.roblox.com/cloud/v2/groups/"@ + decimal(group_id.0 as nat) + suffix
}

fn build_url(group_id: GroupId, suffix: &str) -> (r: String)
    ensures
        r@ == group_url(group_id, suffix@),
{
    let id = group_id.to_string();
    let mut s = concat("https://apis.roblox.com/cloud/v2/groups/", id.as_str());
    s.append(suffix);
    s
}

/// The request that reads a group.
pub fn get_group(params: &GetGroupParams) -> (r: Request)
    ensures
        r.method == HttpMethod::Get,
        r.url@ == group_url(params.group_id, seq![]),
        pairs(r.headers@) == key_headers(params.api_key@),
        r.query@.len() == 0,
        r.body is Empty,
{
    proof {
        reveal_strlit("");
    }
    get_request(&params.api_key, build_url(params.group_id, ""), Vec::new())
}

/// The request that reads the shout of a group.
pub fn get_group_shout(params: &GetGroupShoutParams) -> (r: Request)
    ensures
        r.method == HttpMethod::Get,
        r.url@ == group_url(params.group_id, "/shout"@),
        pairs(r.headers@) == key_headers(params.api_key@),
        r.query@.len() == 0,
        r.body is Empty,
{
    get_request(&params.api_key, build_url(params.group_id, "/shout"), Vec::new())
}

/// The request that lists the roles of a group.
pub fn list_group_roles(params: &ListGroupRolesParams) -> (r: Request)
    ensures
        r.method == HttpMethod::Get,
        r.url@ == group_url(params.group_id, "/roles"@),
        pairs(r.headers@) == key_headers(params.api_key@),
        pairs(r.query@) == opt_num_pair("maxPageSize"@, params.max_page_size) + opt_pair(
            "pageToken"@,
            params.page_token,
        ),
        r.body is Empty,
{
    let mut q: Vec<(String, String)> = Vec::new();
    push_opt_num(&mut q, "maxPageSize", params.max_page_size);
    push_opt(&mut q, "pageToken", &params.page_token);
    assert(pairs(q@) =~= opt_num_pair("maxPageSize"@, params.max_page_size) + opt_pair("pageToken"@, params.page_token));
    get_request(&params.api_key, build_url(params.group_id, "/roles"), q)
}

/// The request that lists the memberships of a group.
pub fn list_group_memberships(params: &ListGroupMembershipsParams) -> (r: Request)
    ensures
        r.method == HttpMethod::Get,
        r.url@ == group_url(params.group_id, "/memberships"@),
        pairs(r.headers@) == key_headers(params.api_key@),
        pairs(r.query@) == opt_num_pair("maxPageSize"@, params.max_page_size) + opt_pair(
            "pageToken"@,
            params.page_token,
        ) + opt_pair("filter"@, params.filter),
        r.body is Empty,
{
    let mut q: Vec<(String, String)> = Vec::new();
    push_opt_num(&mut q, "maxPageSize", params.max_page_size);
    push_opt(&mut q, "pageToken", &params.page_token);
    push_opt(&mut q, "filter", &params.filter);
    assert(pairs(q@) =~= opt_num_pair("maxPageSize"@, params.max_page_size) + opt_pair("pageToken"@, params.page_token) + opt_pair("filter"@, params.filter));
    get_request(&params.api_key, build_url(params.group_id, "/memberships"), q)
}

/// A group.
#[derive(Debug, Clone)]
pub struct GetGroupResponse {
    pub path: String,
    pub create_time: String,
    pub update_time: String,
    pub id: String,
    pub display_name: String,
    pub description: String,
    pub owner: Option<String>,
    pub member_count: u64,
    pub public_entry_allowed: bool,
    pub locked: bool,
    pub verified: bool,
}

/// `body` has the JSON shape of a [`GetGroupResponse`].
pub open spec fn get_group_response_parses(body: Seq<char>) -> bool {
    &&& json_str_at(body, "path"@) is Some
    &&& json_str_at(body, "createTime"@) is Some
    &&& json_str_at(body, "updateTime"@) is Some
    &&& json_str_at(body, "id"@) is Some
    &&& json_str_at(body, "displayName"@) is Some
    &&& json_str_at(body, "description"@) is Some
    &&& json_u64_at(body, "memberCount"@) is Some
    &&& json_bool_at(body, "publicEntryAllowed"@) is Some
    &&& json_bool_at(body, "locked"@) is Some
    &&& json_bool_at(body, "verified"@) is Some
}

/// `body` is the JSON form of `v`.
pub open spec fn get_group_response_matches(body: Seq<char>, v: GetGroupResponse) -> bool {
    &&& json_str_at(body, "path"@) == Some(v.path@)
    &&& json_str_at(body, "createTime"@) == Some(v.create_time@)
    &&& json_str_at(body, "updateTime"@) == Some(v.update_time@)
    &&& json_str_at(body, "id"@) == Some(v.id@)
    &&& json_str_at(body, "displayName"@) == Some(v.display_name@)
    &&& json_str_at(body, "description"@) == Some(v.description@)
    &&& json_str_at(body, "owner"@) == opt_text(v.owner)
    &&& json_u64_at(body, "memberCount"@) == Some(v.member_count)
    &&& json_bool_at(body, "publicEntryAllowed"@) == Some(v.public_entry_allowed)
    &&& json_bool_at(body, "locked"@) == Some(v.locked)
    &&& json_bool_at(body, "verified"@) == Some(v.verified)
}

impl GetGroupResponse {
    /// Reads a [`GetGroupResponse`] out of a JSON body; fails exactly when the body
    /// does not have its shape.
    pub fn decode(body: &str) -> (r: Result<GetGroupResponse, Error>)
        ensures
            get_group_response_parses(body@) <==> r is Ok,
            r matches Ok(v) ==> get_group_response_matches(body@, v),
            r matches Err(e) ==> e is SerdeJsonError,
    {
        let path = match json_str_field(body, "path") {
            Some(x) => x,
            None => {
                return Err(malformed("GetGroupResponse"));
            },
        };
        let create_time = match json_str_field(body, "createTime") {
            Some(x) => x,
            None => {
                return Err(malformed("GetGroupResponse"));
            },
        };
        let update_time = match json_str_field(body, "updateTime") {
            Some(x) => x,
            None => {
                return Err(malformed("GetGroupResponse"));
            },
        };
        let id = match json_str_field(body, "id") {
            Some(x) => x,
            None => {
                return Err(malformed("GetGroupResponse"));
            },
        };
        let display_name = match json_str_field(body, "displayName") {
            Some(x) => x,
            None => {
                return Err(malformed("GetGroupResponse"));
            },
        };
        let description = match json_str_field(body, "description") {
            Some(x) => x,
            None => {
                return Err(malformed("GetGroupResponse"));
            },
        };
        let owner = json_str_field(body, "owner");
        let member_count = match json_u64_field(body, "memberCount") {
            Some(x) => x,
            None => {
                return Err(malformed("GetGroupResponse"));
            },
        };
        let public_entry_allowed = match json_bool_field(body, "publicEntryAllowed") {
            Some(x) => x,
            None => {
                return Err(malformed("GetGroupResponse"));
            },
        };
        let locked = match json_bool_field(body, "locked") {
            Some(x) => x,
            None => {
                return Err(malformed("GetGroupResponse"));
            },
        };
        let verified = match json_bool_field(body, "verified") {
            Some(x) => x,
            None => {
                return Err(malformed("GetGroupResponse"));
            },
        };
        Ok(GetGroupResponse { path, create_time, update_time, id, display_name, description, owner, member_count, public_entry_allowed, locked, verified })
    }
}

/// The shout of a group.
#[derive(Debug, Clone)]
pub struct GetGroupShoutResponse {
    pub path: String,
    pub create_time: String,
    pub update_time: String,
    pub content: String,
    pub poster: Option<String>,
}

/// `body` has the JSON shape of a [`GetGroupShoutResponse`].
pub open spec fn get_group_shout_response_parses(body: Seq<char>) -> bool {
    &&& json_str_at(body, "path"@) is Some
    &&& json_str_at(body, "createTime"@) is Some
    &&& json_str_at(body, "updateTime"@) is Some
    &&& json_str_at(body, "content"@) is Some
}

/// `body` is the JSON form of `v`.
pub open spec fn get_group_shout_response_matches(body: Seq<char>, v: GetGroupShoutResponse) -> bool {
    &&& json_str_at(body, "path"@) == Some(v.path@)
    &&& json_str_at(body, "createTime"@) == Some(v.create_time@)
    &&& json_str_at(body, "updateTime"@) == Some(v.update_time@)
    &&& json_str_at(body, "content"@) == Some(v.content@)
    &&& json_str_at(body, "poster"@) == opt_text(v.poster)
}

impl GetGroupShoutResponse {
    /// Reads a [`GetGroupShoutResponse`] out of a JSON body; fails exactly when the body
    /// does not have its shape.
    pub fn decode(body: &str) -> (r: Result<GetGroupShoutResponse, Error>)
        ensures
            get_group_shout_response_parses(body@) <==> r is Ok,
            r matches Ok(v) ==> get_group_shout_response_matches(body@, v),
            r matches Err(e) ==> e is SerdeJsonError,
    {
        let path = match json_str_field(body, "path") {
            Some(x) => x,
            None => {
                return Err(malformed("GetGroupShoutResponse"));
            },
        };
        let create_time = match json_str_field(body, "createTime") {
            Some(x) => x,
            None => {
                return Err(malformed("GetGroupShoutResponse"));
            },
        };
        let update_time = match json_str_field(body, "updateTime") {
            Some(x) => x,
            None => {
                return Err(malformed("GetGroupShoutResponse"));
            },
        };
        let content = match json_str_field(body, "content") {
            Some(x) => x,
            None => {
                return Err(malformed("GetGroupShoutResponse"));
            },
        };
        let poster = json_str_field(body, "poster");
        Ok(GetGroupShoutResponse { path, create_time, update_time, content, poster })
    }
}

/// What the members of a role may do.
#[derive(Debug, Clone)]
pub struct GroupRolePermission {
    pub view_wall_posts: bool,
    pub create_wall_posts: bool,
    pub delete_wall_posts: bool,
    pub view_group_shout: bool,
    pub create_group_shout: bool,
    pub change_rank: bool,
    pub accept_requests: bool,
    pub exile_members: bool,
    pub manage_relationships: bool,
    pub view_audit_log: bool,
    pub spend_group_funds: bool,
    pub advertise_group: bool,
    pub create_avatar_items: bool,
    pub manage_avatar_items: bool,
    pub manage_group_universes: bool,
    pub view_universe_analytics: bool,
    pub create_api_keys: bool,
    pub manage_api_keys: bool,
}

/// `body` has the JSON shape of a [`GroupRolePermission`].
pub open spec fn group_role_permission_parses(body: Seq<char>) -> bool {
    &&& json_bool_at(body, "viewWallPosts"@) is Some
    &&& json_bool_at(body, "createWallPosts"@) is Some
    &&& json_bool_at(body, "deleteWallPosts"@) is Some
    &&& json_bool_at(body, "viewGroupShout"@) is Some
    &&& json_bool_at(body, "createGroupShout"@) is Some
    &&& json_bool_at(body, "changeRank"@) is Some
    &&& json_bool_at(body, "acceptRequests"@) is Some
    &&& json_bool_at(body, "exileMembers"@) is Some
    &&& json_bool_at(body, "manageRelationships"@) is Some
    &&& json_bool_at(body, "viewAuditLog"@) is Some
    &&& json_bool_at(body, "spendGroupFunds"@) is Some
    &&& json_bool_at(body, "advertiseGroup"@) is Some
    &&& json_bool_at(body, "createAvatarItems"@) is Some
    &&& json_bool_at(body, "manageAvatarItems"@) is Some
    &&& json_bool_at(body, "manageGroupUniverses"@) is Some
    &&& json_bool_at(body, "viewUniverseAnalytics"@) is Some
    &&& json_bool_at(body, "createApiKeys"@) is Some
    &&& json_bool_at(body, "manageApiKeys"@) is Some
}

/// `body` is the JSON form of `v`.
pub open spec fn group_role_permission_matches(body: Seq<char>, v: GroupRolePermission) -> bool {
    &&& json_bool_at(body, "viewWallPosts"@) == Some(v.view_wall_posts)
    &&& json_bool_at(body, "createWallPosts"@) == Some(v.create_wall_posts)
    &&& json_bool_at(body, "deleteWallPosts"@) == Some(v.delete_wall_posts)
    &&& json_bool_at(body, "viewGroupShout"@) == Some(v.view_group_shout)
    &&& json_bool_at(body, "createGroupShout"@) == Some(v.create_group_shout)
    &&& json_bool_at(body, "changeRank"@) == Some(v.change_rank)
    &&& json_bool_at(body, "acceptRequests"@) == Some(v.accept_requests)
    &&& json_bool_at(body, "exileMembers"@) == Some(v.exile_members)
    &&& json_bool_at(body, "manageRelationships"@) == Some(v.manage_relationships)
    &&& json_bool_at(body, "viewAuditLog"@) == Some(v.view_audit_log)
    &&& json_bool_at(body, "spendGroupFunds"@) == Some(v.spend_group_funds)
    &&& json_bool_at(body, "advertiseGroup"@) == Some(v.advertise_group)
    &&& json_bool_at(body, "createAvatarItems"@) == Some(v.create_avatar_items)
    &&& json_bool_at(body, "manageAvatarItems"@) == Some(v.manage_avatar_items)
    &&& json_bool_at(body, "manageGroupUniverses"@) == Some(v.manage_group_universes)
    &&& json_bool_at(body, "viewUniverseAnalytics"@) == Some(v.view_universe_analytics)
    &&& json_bool_at(body, "createApiKeys"@) == Some(v.create_api_keys)
    &&& json_bool_at(body, "manageApiKeys"@) == Some(v.manage_api_keys)
}

impl GroupRolePermission {
    /// Reads a [`GroupRolePermission`] out of a JSON body; fails exactly when the body
    /// does not have its shape.
    pub fn decode(body: &str) -> (r: Result<GroupRolePermission, Error>)
        ensures
            group_role_permission_parses(body@) <==> r is Ok,
            r matches Ok(v) ==> group_role_permission_matches(body@, v),
            r matches Err(e) ==> e is SerdeJsonError,
    {
        let view_wall_posts = match json_bool_field(body, "viewWallPosts") {
            Some(x) => x,
            None => {
                return Err(malformed("GroupRolePermission"));
            },
        };
        let create_wall_posts = match json_bool_field(body, "createWallPosts") {
            Some(x) => x,
            None => {
                return Err(malformed("GroupRolePermission"));
            },
        };
        let delete_wall_posts = match json_bool_field(body, "deleteWallPosts") {
            Some(x) => x,
            None => {
                return Err(malformed("GroupRolePermission"));
            },
        };
        let view_group_shout = match json_bool_field(body, "viewGroupShout") {
            Some(x) => x,
            None => {
                return Err(malformed("GroupRolePermission"));
            },
        };
        let create_group_shout = match json_bool_field(body, "createGroupShout") {
            Some(x) => x,
            None => {
                return Err(malformed("GroupRolePermission"));
            },
        };
        let change_rank = match json_bool_field(body, "changeRank") {
            Some(x) => x,
            None => {
                return Err(malformed("GroupRolePermission"));
            },
        };
        let accept_requests = match json_bool_field(body, "acceptRequests") {
            Some(x) => x,
            None => {
                return Err(malformed("GroupRolePermission"));
            },
        };
        let exile_members = match json_bool_field(body, "exileMembers") {
            Some(x) => x,
            None => {
                return Err(malformed("GroupRolePermission"));
            },
        };
        let manage_relationships = match json_bool_field(body, "manageRelationships") {
            Some(x) => x,
            None => {
                return Err(malformed("GroupRolePermission"));
            },
        };
        let view_audit_log = match json_bool_field(body, "viewAuditLog") {
            Some(x) => x,
            None => {
                return Err(malformed("GroupRolePermission"));
            },
        };
        let spend_group_funds = match json_bool_field(body, "spendGroupFunds") {
            Some(x) => x,
            None => {
                return Err(malformed("GroupRolePermission"));
            },
        };
        let advertise_group = match json_bool_field(body, "advertiseGroup") {
            Some(x) => x,
            None => {
                return Err(malformed("GroupRolePermission"));
            },
        };
        let create_avatar_items = match json_bool_field(body, "createAvatarItems") {
            Some(x) => x,
            None => {
                return Err(malformed("GroupRolePermission"));
            },
        };
        let manage_avatar_items = match json_bool_field(body, "manageAvatarItems") {
            Some(x) => x,
            None => {
                return Err(malformed("GroupRolePermission"));
            },
        };
        let manage_group_universes = match json_bool_field(body, "manageGroupUniverses") {
            Some(x) => x,
            None => {
                return Err(malformed("GroupRolePermission"));
            },
        };
        let view_universe_analytics = match json_bool_field(body, "viewUniverseAnalytics") {
            Some(x) => x,
            None => {
                return Err(malformed("GroupRolePermission"));
            },
        };
        let create_api_keys = match json_bool_field(body, "createApiKeys") {
            Some(x) => x,
            None => {
                return Err(malformed("GroupRolePermission"));
            },
        };
        let manage_api_keys = match json_bool_field(body, "manageApiKeys") {
            Some(x) => x,
            None => {
                return Err(malformed("GroupRolePermission"));
            },
        };
        Ok(GroupRolePermission { view_wall_posts, create_wall_posts, delete_wall_posts, view_group_shout, create_group_shout, change_rank, accept_requests, exile_members, manage_relationships, view_audit_log, spend_group_funds, advertise_group, create_avatar_items, manage_avatar_items, manage_group_universes, view_universe_analytics, create_api_keys, manage_api_keys })
    }
}

/// A role of a group.
#[derive(Debug, Clone)]
pub struct GroupRole {
    pub path: String,
    pub create_time: Option<String>,
    pub update_time: Option<String>,
    pub id: String,
    pub display_name: String,
    pub description: Option<String>,
    pub rank: u32,
    pub member_count: Option<u64>,
    pub permissions: Option<GroupRolePermission>,
}

/// `body` has the JSON shape of a [`GroupRole`].
pub open spec fn group_role_parses(body: Seq<char>) -> bool {
    &&& json_str_at(body, "path"@) is Some
    &&& json_str_at(body, "id"@) is Some
    &&& json_str_at(body, "displayName"@) is Some
    &&& json_u64_at(body, "rank"@) matches Some(x) && x <= u32::MAX
    &&& json_sub_at(body, "permissions"@) matches Some(t) ==> group_role_permission_parses(t)
}

/// `body` is the JSON form of `v`.
pub open spec fn group_role_matches(body: Seq<char>, v: GroupRole) -> bool {
    &&& json_str_at(body, "path"@) == Some(v.path@)
    &&& json_str_at(body, "createTime"@) == opt_text(v.create_time)
    &&& json_str_at(body, "updateTime"@) == opt_text(v.update_time)
    &&& json_str_at(body, "id"@) == Some(v.id@)
    &&& json_str_at(body, "displayName"@) == Some(v.display_name@)
    &&& json_str_at(body, "description"@) == opt_text(v.description)
    &&& json_u64_at(body, "rank"@) == Some(v.rank as u64)
    &&& json_u64_at(body, "memberCount"@) == v.member_count
    &&& (match json_sub_at(body, "permissions"@) { Some(t) => v.permissions matches Some(x) && group_role_permission_matches(t, x), None => v.permissions is None })
}

impl GroupRole {
    /// Reads a [`GroupRole`] out of a JSON body; fails exactly when the body
    /// does not have its shape.
    pub fn decode(body: &str) -> (r: Result<GroupRole, Error>)
        ensures
            group_role_parses(body@) <==> r is Ok,
            r matches Ok(v) ==> group_role_matches(body@, v),
            r matches Err(e) ==> e is SerdeJsonError,
    {
        let path = match json_str_field(body, "path") {
            Some(x) => x,
            None => {
                return Err(malformed("GroupRole"));
            },
        };
        let create_time = json_str_field(body, "createTime");
        let update_time = json_str_field(body, "updateTime");
        let id = match json_str_field(body, "id") {
            Some(x) => x,
            None => {
                return Err(malformed("GroupRole"));
            },
        };
        let display_name = match json_str_field(body, "displayName") {
            Some(x) => x,
            None => {
                return Err(malformed("GroupRole"));
            },
        };
        let description = json_str_field(body, "description");
        let rank = match json_u64_field(body, "rank") {
            Some(x) => {
                if x > 4294967295 {
                    return Err(malformed("GroupRole"));
                }
                x as u32
            },
            None => {
                return Err(malformed("GroupRole"));
            },
        };
        let member_count = json_u64_field(body, "memberCount");
        let permissions = match json_sub_text(body, "permissions") {
            Some(t) => match GroupRolePermission::decode(t.as_str()) {
                Ok(x) => Some(x),
                Err(e) => {
                    return Err(e);
                },
            },
            None => None,
        };
        Ok(GroupRole { path, create_time, update_time, id, display_name, description, rank, member_count, permissions })
    }
}

/// One page of roles, with the token of the next page if any.
#[derive(Debug, Clone)]
pub struct ListGroupRolesResponse {
    pub group_roles: Vec<GroupRole>,
    pub next_page_token: Option<String>,
}

/// `body` has the JSON shape of a [`ListGroupRolesResponse`].
pub open spec fn list_group_roles_response_parses(body: Seq<char>) -> bool {
    &&& json_len_at(body, "groupRoles"@) matches Some(n) && (forall|i: usize| i < n ==> (#[trigger] json_item_at(body, "groupRoles"@, i) matches Some(t) && group_role_parses(t)))
}

/// `body` is the JSON form of `v`.
pub open spec fn list_group_roles_response_matches(body: Seq<char>, v: ListGroupRolesResponse) -> bool {
    &&& json_len_at(body, "groupRoles"@) == Some(v.group_roles@.len() as usize) && (forall|i: int| 0 <= i < v.group_roles@.len() ==> (json_item_at(body, "groupRoles"@, i as usize) matches Some(t) && group_role_matches(t, #[trigger] v.group_roles@[i])))
    &&& json_str_at(body, "nextPageToken"@) == opt_text(v.next_page_token)
}

impl ListGroupRolesResponse {
    /// Reads a [`ListGroupRolesResponse`] out of a JSON body; fails exactly when the body
    /// does not have its shape.
    pub fn decode(body: &str) -> (r: Result<ListGroupRolesResponse, Error>)
        ensures
            list_group_roles_response_parses(body@) <==> r is Ok,
            r matches Ok(v) ==> list_group_roles_response_matches(body@, v),
            r matches Err(e) ==> e is SerdeJsonError,
    {
        let n = match json_array_len(body, "groupRoles") {
            Some(n) => n,
            None => {
                return Err(malformed("ListGroupRolesResponse"));
            },
        };
        let mut group_roles: Vec<GroupRole> = Vec::new();
        let mut i: usize = 0;
        while i < n
            invariant
                json_len_at(body@, "groupRoles"@) == Some(n),
                i <= n,
                group_roles@.len() == i,
                forall|k: int| 0 <= k < i ==> (json_item_at(body@, "groupRoles"@, k as usize) matches Some(t) && group_role_matches(t, #[trigger] group_roles@[k])),
                forall|k: usize| k < i ==> (#[trigger] json_item_at(body@, "groupRoles"@, k) matches Some(t) && group_role_parses(t)),
            decreases n - i,
        {
            let t = match json_item_text(body, "groupRoles", i) {
                Some(t) => t,
                None => {
                    return Err(malformed("ListGroupRolesResponse"));
                },
            };
            let x = match GroupRole::decode(t.as_str()) {
                Ok(x) => x,
                Err(e) => {
                    return Err(e);
                },
            };
            group_roles.push(x);
            i = i + 1;
        }
        let next_page_token = json_str_field(body, "nextPageToken");
        Ok(ListGroupRolesResponse { group_roles, next_page_token })
    }
}

} // verus!
