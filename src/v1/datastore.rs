//! DataStore operations: listing stores and entries, reading, writing,
//! incrementing and deleting entries, and reading entry versions.
use crate::error::{malformed, Error};
use crate::http::{
    api_headers, is_success, is_success_code, key_headers, HttpMethod, Request, RequestBody,
};
use crate::json::{
    json_array_len, json_bool_at, json_bool_field, json_item_at, json_item_text, json_len_at,
    json_str_at, json_str_field, json_u64_at, json_u64_field,
};
use crate::text::{
    opt_text, bool_text, bool_to_text, concat, decimal, opt_pair, pairs, push_opt, push_pair,
    single_pair,
};
use crate::types::{ReturnLimit, RobloxUserId, UniverseId};
use crate::util::{checksum_of, get_checksum_base64};
use crate::v1::ds_error::{payload_matches, payload_parses, DataStoreErrorResponse};
use vstd::prelude::*;
use vstd::string::*;

verus! {

/// Parameters of listing the DataStores of an experience.
pub struct ListDataStoresParams {
    pub api_key: String,
    pub universe_id: UniverseId,
    pub prefix: Option<String>,
    pub limit: ReturnLimit,
    pub cursor: Option<String>,
}

/// Parameters of listing the entries of a DataStore.
pub struct ListEntriesParams {
    pub api_key: String,
    pub universe_id: UniverseId,
    pub datastore_name: String,
    pub scope: Option<String>,
    pub all_scopes: bool,
    pub prefix: Option<String>,
    pub limit: ReturnLimit,
    pub cursor: Option<String>,
}

/// Parameters of reading an entry.
pub struct GetEntryParams {
    pub api_key: String,
    pub universe_id: UniverseId,
    pub datastore_name: String,
    pub scope: Option<String>,
    pub key: String,
}

/// Parameters of writing an entry.
pub struct SetEntryParams {
    pub api_key: String,
    pub universe_id: UniverseId,
    pub datastore_name: String,
    pub scope: Option<String>,
    pub key: String,
    pub match_version: Option<String>,
    pub exclusive_create: Option<bool>,
    pub roblox_entry_user_ids: Option<Vec<RobloxUserId>>,
    pub roblox_entry_attributes: Option<String>,
    pub data: String,
}

/// Parameters of incrementing an entry. The amount is carried as the
/// decimal text of the number, as it is sent.
pub struct IncrementEntryParams {
    pub api_key: String,
    pub universe_id: UniverseId,
    pub datastore_name: String,
    pub scope: Option<String>,
    pub key: String,
    pub roblox_entry_user_ids: Option<Vec<RobloxUserId>>,
    pub roblox_entry_attributes: Option<String>,
    pub increment_by: String,
}

/// Parameters of deleting an entry.
pub struct DeleteEntryParams {
    pub api_key: String,
    pub universe_id: UniverseId,
    pub datastore_name: String,
    pub scope: Option<String>,
    pub key: String,
}

/// Parameters of listing the versions of an entry.
pub struct ListEntryVersionsParams {
    pub api_key: String,
    pub universe_id: UniverseId,
    pub datastore_name: String,
    pub scope: Option<String>,
    pub key: String,
    pub start_time: Option<String>,
    pub end_time: Option<String>,
    pub sort_order: String,
    pub limit: ReturnLimit,
    pub cursor: Option<String>,
}

/// Parameters of reading one version of an entry.
pub struct GetEntryVersionParams {
    pub api_key: String,
    pub universe_id: UniverseId,
    pub datastore_name: String,
    pub scope: Option<String>,
    pub key: String,
    pub version_id: String,
}

/// What the service answers to a write. Only the version is always
/// present; the service does not always fill in the other fields.
#[derive(Debug, Clone)]
pub struct SetEntryResponse {
    pub version: String,
    pub deleted: Option<bool>,
    pub content_length: Option<u64>,
    pub created_time: Option<String>,
    pub object_created_time: Option<String>,
}

/// The URL of a DataStore endpoint of an experience.
pub open spec fn ds_url(universe_id: UniverseId, endpoint: Seq<char>) -> Seq<char> {
    "https://apis.roblox.com/datastores/v1/universes/"@ + decimal(universe_id.0 as nat)
        + "/standard-datastores"@ + endpoint
}

/// The scope a request names: the one given, or `global`.
pub open spec fn scope_or_global(scope: Option<String>) -> Seq<char> {
    match scope {
        Some(s) => s@,
        None => "global"@,
    }
}

/// The query that names one entry.
pub open spec fn entry_query(name: Seq<char>, scope: Option<String>, key: Seq<char>) -> Seq<
    (Seq<char>, Seq<char>),
> {
    seq![("datastoreName"@, name), ("scope"@, scope_or_global(scope)), ("entryKey"@, key)]
}

/// Decimal ids separated by commas.
pub open spec fn ids_csv(ids: Seq<RobloxUserId>) -> Seq<char>
    decreases ids.len(),
{
    if ids.len() == 0 {
        seq![]
    } else if ids.len() == 1 {
        decimal(ids[0].0 as nat)
    } else {
        ids_csv(ids.drop_last()) + ","@ + decimal(ids.last().0 as nat)
    }
}

/// The user ids of an entry as a JSON array; an empty array when absent.
pub open spec fn user_ids_header(ids: Option<Vec<RobloxUserId>>) -> Seq<char> {
    match ids {
        Some(v) => "["@ + ids_csv(v@) + "]"@,
        None => "[]"@,
    }
}

/// The attributes of an entry; an empty JSON object when absent.
pub open spec fn attributes_header(attrs: Option<String>) -> Seq<char> {
    match attrs {
        Some(a) => a@,
        None => "{}"@,
    }
}

/// The text of an optional boolean.
pub open spec fn opt_bool_pair(k: Seq<char>, b: Option<bool>) -> Seq<(Seq<char>, Seq<char>)> {
    match b {
        Some(v) => seq![(k, bool_text(v))],
        None => seq![],
    }
}

/// Builds the URL of a DataStore endpoint.
pub fn build_url(endpoint: &str, universe_id: UniverseId) -> (r: String)
    ensures
        r@ == ds_url(universe_id, endpoint@),
{
    let id = universe_id.to_string();
    let mut s = concat("https://apis.roblox.com/datastores/v1/universes/", id.as_str());
    s.append("/standard-datastores");
    s.append(endpoint);
    s
}

/// The ids, in decimal, separated by commas; empty when absent.
pub fn build_ids_csv(ids: &Option<Vec<RobloxUserId>>) -> (r: String)
    ensures
        r@ == match ids {
            Some(v) => ids_csv(v@),
            None => seq![],
        },
{
    match ids {
        None => String::new(),
        Some(v) => {
            let mut s = String::new();
            let mut i: usize = 0;
            while i < v.len()
                invariant
                    i <= v@.len(),
                    s@ == ids_csv(v@.subrange(0, i as int)),
                decreases v@.len() - i,
            {
                let ghost prev = v@.subrange(0, i as int);
                let ghost next = v@.subrange(0, i as int + 1);
                assert(next.drop_last() =~= prev);
                if i > 0 {
                    s.append(",");
                }
                let d = v[i].to_string();
                s.append(d.as_str());
                proof {
                    reveal_strlit(",");
                    if i == 0 {
                        assert(ids_csv(prev) =~= seq![]);
                    }
                }
                i = i + 1;
            }
            assert(v@.subrange(0, v@.len() as int) =~= v@);
            s
        },
    }
}

fn user_ids_value(ids: &Option<Vec<RobloxUserId>>) -> (r: String)
    ensures
        r@ == user_ids_header(*ids),
{
    let csv = build_ids_csv(ids);
    let mut s = concat("[", csv.as_str());
    s.append("]");
    proof {
        reveal_strlit("[");
        reveal_strlit("]");
        reveal_strlit("[]");
        if ids is None {
            assert(s@ =~= "[]"@);
        }
    }
    s
}

fn attributes_value(attrs: &Option<String>) -> (r: String)
    ensures
        r@ == attributes_header(*attrs),
{
    match attrs {
        Some(a) => a.clone(),
        None => String::from_str("{}"),
    }
}

fn scope_value(scope: &Option<String>) -> (r: String)
    ensures
        r@ == scope_or_global(*scope),
{
    match scope {
        Some(s) => s.clone(),
        None => String::from_str("global"),
    }
}

fn build_entry_query(name: &String, scope: &Option<String>, key: &String) -> (r: Vec<
    (String, String),
>)
    ensures
        pairs(r@) == entry_query(name@, *scope, key@),
{
    let mut q = single_pair("datastoreName", name.clone());
    push_pair(&mut q, "scope", scope_value(scope));
    push_pair(&mut q, "entryKey", key.clone());
    assert(pairs(q@) =~= entry_query(name@, *scope, key@));
    q
}

/// The request that lists the DataStores of an experience.
pub fn list_datastores(params: &ListDataStoresParams) -> (r: Request)
    ensures
        r.method == HttpMethod::Get,
        r.url@ == ds_url(params.universe_id, seq![]),
        pairs(r.headers@) == key_headers(params.api_key@),
        pairs(r.query@) == seq![("limit"@, decimal(params.limit.0 as nat))] + opt_pair(
            "prefix"@,
            params.prefix,
        ) + opt_pair("cursor"@, params.cursor),
        r.body is Empty,
{
    let url = build_url("", params.universe_id);
    proof {
        reveal_strlit("");
    }
    let mut q = single_pair("limit", params.limit.to_string());
    push_opt(&mut q, "prefix", &params.prefix);
    push_opt(&mut q, "cursor", &params.cursor);
    Request {
        method: HttpMethod::Get,
        url,
        headers: api_headers(&params.api_key),
        query: q,
        body: RequestBody::Empty,
    }
}

/// The request that lists the entries of a DataStore.
pub fn list_entries(params: &ListEntriesParams) -> (r: Request)
    ensures
        r.method == HttpMethod::Get,
        r.url@ == ds_url(params.universe_id, "/datastore/entries"@),
        pairs(r.headers@) == key_headers(params.api_key@),
        pairs(r.query@) == seq![
            ("datastoreName"@, params.datastore_name@),
            ("limit"@, decimal(params.limit.0 as nat)),
            ("AllScopes"@, bool_text(params.all_scopes)),
            ("scope"@, scope_or_global(params.scope)),
        ] + opt_pair("prefix"@, params.prefix) + opt_pair("cursor"@, params.cursor),
        r.body is Empty,
{
    let url = build_url("/datastore/entries", params.universe_id);
    let mut q = single_pair("datastoreName", params.datastore_name.clone());
    push_pair(&mut q, "limit", params.limit.to_string());
    push_pair(&mut q, "AllScopes", bool_to_text(params.all_scopes));
    push_pair(&mut q, "scope", scope_value(&params.scope));
    let ghost fixed = pairs(q@);
    push_opt(&mut q, "prefix", &params.prefix);
    push_opt(&mut q, "cursor", &params.cursor);
    assert(fixed =~= seq![
        ("datastoreName"@, params.datastore_name@),
        ("limit"@, decimal(params.limit.0 as nat)),
        ("AllScopes"@, bool_text(params.all_scopes)),
        ("scope"@, scope_or_global(params.scope)),
    ]);
    Request {
        method: HttpMethod::Get,
        url,
        headers: api_headers(&params.api_key),
        query: q,
        body: RequestBody::Empty,
    }
}

/// The request that reads an entry; its value comes back as the body.
pub fn get_entry(params: &GetEntryParams) -> (r: Request)
    ensures
        r.method == HttpMethod::Get,
        r.url@ == ds_url(params.universe_id, "/datastore/entries/entry"@),
        pairs(r.headers@) == key_headers(params.api_key@),
        pairs(r.query@) == entry_query(params.datastore_name@, params.scope, params.key@),
        r.body is Empty,
{
    Request {
        method: HttpMethod::Get,
        url: build_url("/datastore/entries/entry", params.universe_id),
        headers: api_headers(&params.api_key),
        query: build_entry_query(&params.datastore_name, &params.scope, &params.key),
        body: RequestBody::Empty,
    }
}

/// The headers of a write: the API key, a JSON content type, the entry's
/// user ids and attributes, and the checksum of the body.
pub open spec fn set_entry_headers(params: SetEntryParams) -> Seq<(Seq<char>, Seq<char>)> {
    seq![
        ("x-api-key"@, params.api_key@),
        ("Content-Type"@, "application/json"@),
        ("roblox-entry-userids"@, user_ids_header(params.roblox_entry_user_ids)),
        ("roblox-entry-attributes"@, attributes_header(params.roblox_entry_attributes)),
        ("content-md5"@, checksum_of(params.data@)),
    ]
}

/// The request that writes an entry. The body is the data as given, and
/// the `content-md5` header is the checksum of exactly that body.
pub fn set_entry(params: &SetEntryParams) -> (r: Request)
    ensures
        r.method == HttpMethod::Post,
        r.url@ == ds_url(params.universe_id, "/datastore/entries/entry"@),
        pairs(r.headers@) == set_entry_headers(*params),
        pairs(r.query@) == entry_query(params.datastore_name@, params.scope, params.key@)
            + opt_pair("matchVersion"@, params.match_version) + opt_bool_pair(
            "exclusiveCreate"@,
            params.exclusive_create,
        ),
        r.body matches RequestBody::Text(b) && b@ == params.data@,
        r.body matches RequestBody::Text(b) && pairs(r.headers@)[4] == ("content-md5"@, checksum_of(b@)),
{
    let mut h = api_headers(&params.api_key);
    push_pair(&mut h, "Content-Type", String::from_str("application/json"));
    push_pair(&mut h, "roblox-entry-userids", user_ids_value(&params.roblox_entry_user_ids));
    push_pair(&mut h, "roblox-entry-attributes", attributes_value(&params.roblox_entry_attributes));
    push_pair(&mut h, "content-md5", get_checksum_base64(&params.data));
    assert(pairs(h@) =~= set_entry_headers(*params));
    let mut q = build_entry_query(&params.datastore_name, &params.scope, &params.key);
    push_opt(&mut q, "matchVersion", &params.match_version);
    let ghost before = pairs(q@);
    match params.exclusive_create {
        Some(b) => push_pair(&mut q, "exclusiveCreate", bool_to_text(b)),
        None => {},
    }
    assert(pairs(q@) =~= before + opt_bool_pair("exclusiveCreate"@, params.exclusive_create));
    Request {
        method: HttpMethod::Post,
        url: build_url("/datastore/entries/entry", params.universe_id),
        headers: h,
        query: q,
        body: RequestBody::Text(params.data.clone()),
    }
}

/// The request that increments an entry by an amount.
pub fn increment_entry(params: &IncrementEntryParams) -> (r: Request)
    ensures
        r.method == HttpMethod::Post,
        r.url@ == ds_url(params.universe_id, "/datastore/entries/entry/increment"@),
        pairs(r.headers@) == seq![
            ("x-api-key"@, params.api_key@),
            ("roblox-entry-userids"@, user_ids_header(params.roblox_entry_user_ids)),
            ("roblox-entry-attributes"@, attributes_header(params.roblox_entry_attributes)),
        ],
        pairs(r.query@) == entry_query(params.datastore_name@, params.scope, params.key@).push(
            ("incrementBy"@, params.increment_by@),
        ),
        r.body is Empty,
{
    let mut h = api_headers(&params.api_key);
    push_pair(&mut h, "roblox-entry-userids", user_ids_value(&params.roblox_entry_user_ids));
    push_pair(&mut h, "roblox-entry-attributes", attributes_value(&params.roblox_entry_attributes));
    assert(pairs(h@) =~= seq![
        ("x-api-key"@, params.api_key@),
        ("roblox-entry-userids"@, user_ids_header(params.roblox_entry_user_ids)),
        ("roblox-entry-attributes"@, attributes_header(params.roblox_entry_attributes)),
    ]);
    let mut q = build_entry_query(&params.datastore_name, &params.scope, &params.key);
    push_pair(&mut q, "incrementBy", params.increment_by.clone());
    Request {
        method: HttpMethod::Post,
        url: build_url("/datastore/entries/entry/increment", params.universe_id),
        headers: h,
        query: q,
        body: RequestBody::Empty,
    }
}

/// The request that deletes an entry.
pub fn delete_entry(params: &DeleteEntryParams) -> (r: Request)
    ensures
        r.method == HttpMethod::Delete,
        r.url@ == ds_url(params.universe_id, "/datastore/entries/entry"@),
        pairs(r.headers@) == key_headers(params.api_key@),
        pairs(r.query@) == entry_query(params.datastore_name@, params.scope, params.key@),
        r.body is Empty,
{
    Request {
        method: HttpMethod::Delete,
        url: build_url("/datastore/entries/entry", params.universe_id),
        headers: api_headers(&params.api_key),
        query: build_entry_query(&params.datastore_name, &params.scope, &params.key),
        body: RequestBody::Empty,
    }
}

/// The request that lists the versions of an entry.
pub fn list_entry_versions(params: &ListEntryVersionsParams) -> (r: Request)
    ensures
        r.method == HttpMethod::Get,
        r.url@ == ds_url(params.universe_id, "/datastore/entries/entry/versions"@),
        pairs(r.headers@) == key_headers(params.api_key@),
        pairs(r.query@) == entry_query(params.datastore_name@, params.scope, params.key@)
            + seq![
            ("limit"@, decimal(params.limit.0 as nat)),
            ("sortOrder"@, params.sort_order@),
        ] + opt_pair("startTime"@, params.start_time) + opt_pair("endTime"@, params.end_time)
            + opt_pair("cursor"@, params.cursor),
        r.body is Empty,
{
    let mut q = build_entry_query(&params.datastore_name, &params.scope, &params.key);
    let ghost first = pairs(q@);
    push_pair(&mut q, "limit", params.limit.to_string());
    push_pair(&mut q, "sortOrder", params.sort_order.clone());
    assert(pairs(q@) =~= first + seq![
        ("limit"@, decimal(params.limit.0 as nat)),
        ("sortOrder"@, params.sort_order@),
    ]);
    push_opt(&mut q, "startTime", &params.start_time);
    push_opt(&mut q, "endTime", &params.end_time);
    push_opt(&mut q, "cursor", &params.cursor);
    Request {
        method: HttpMethod::Get,
        url: build_url("/datastore/entries/entry/versions", params.universe_id),
        headers: api_headers(&params.api_key),
        query: q,
        body: RequestBody::Empty,
    }
}

/// The request that reads one version of an entry; its value comes back as
/// the body.
pub fn get_entry_version(params: &GetEntryVersionParams) -> (r: Request)
    ensures
        r.method == HttpMethod::Get,
        r.url@ == ds_url(params.universe_id, "/datastore/entries/entry/versions/version"@),
        pairs(r.headers@) == key_headers(params.api_key@),
        pairs(r.query@) == entry_query(params.datastore_name@, params.scope, params.key@).push(
            ("versionId"@, params.version_id@),
        ),
        r.body is Empty,
{
    let mut q = build_entry_query(&params.datastore_name, &params.scope, &params.key);
    push_pair(&mut q, "versionId", params.version_id.clone());
    Request {
        method: HttpMethod::Get,
        url: build_url("/datastore/entries/entry/versions/version", params.universe_id),
        headers: api_headers(&params.api_key),
        query: q,
        body: RequestBody::Empty,
    }
}

/// How a DataStore failure is reported: the service's payload when the body
/// has its shape, and a JSON error otherwise.
pub open spec fn datastore_failure(body: Seq<char>, e: Error) -> bool {
    &&& payload_parses(body) ==> (e matches Error::DataStoreError(p) && payload_matches(body, p))
    &&& !payload_parses(body) ==> e is SerdeJsonError
}

/// Classifies a DataStore response. A 2xx status hands back the body (the
/// JSON document, or the raw value of an entry); any other status is a
/// failure whose body is read as the service's error payload.
pub fn handle_res(status: u16, body: String) -> (r: Result<String, Error>)
    ensures
        is_success_code(status) ==> r == Ok::<String, Error>(body),
        !is_success_code(status) ==> (r matches Err(e) && datastore_failure(body@, e)),
{
    if is_success(status) {
        Ok(body)
    } else {
        match DataStoreErrorResponse::decode(body.as_str()) {
            Ok(p) => Err(Error::DataStoreError(p)),
            Err(e) => Err(e),
        }
    }
}

/// Classifies the response of an operation with no result.
pub fn handle_res_ok(status: u16, body: String) -> (r: Result<(), Error>)
    ensures
        is_success_code(status) <==> r is Ok,
        !is_success_code(status) ==> (r matches Err(e) && datastore_failure(body@, e)),
{
    match handle_res(status, body) {
        Ok(_) => Ok(()),
        Err(e) => Err(e),
    }
}

impl SetEntryResponse {
    /// Reads the answer to a write out of a JSON body. Succeeds exactly
    /// when the body holds a `version` string; each other field is the one
    /// the body holds, and absent when the body holds none of its type.
    pub fn decode(body: &str) -> (r: Result<SetEntryResponse, Error>)
        ensures
            r is Ok <==> json_str_at(body@, "version"@) is Some,
            r matches Ok(v) ==> {
                &&& json_str_at(body@, "version"@) == Some(v.version@)
                &&& json_bool_at(body@, "deleted"@) == v.deleted
                &&& json_u64_at(body@, "contentLength"@) == v.content_length
                &&& json_str_at(body@, "createdTime"@) == opt_text(v.created_time)
                &&& json_str_at(body@, "objectCreatedTime"@) == opt_text(v.object_created_time)
            },
            r matches Err(e) ==> e is SerdeJsonError,
    {
        let version = match json_str_field(body, "version") {
            Some(v) => v,
            None => {
                return Err(malformed("SetEntryResponse"));
            },
        };
        Ok(SetEntryResponse {
            version,
            deleted: json_bool_field(body, "deleted"),
            content_length: json_u64_field(body, "contentLength"),
            created_time: json_str_field(body, "createdTime"),
            object_created_time: json_str_field(body, "objectCreatedTime"),
        })
    }
}

/// A DataStore request that leaves the scope unset names the scope
/// `global`.
pub proof fn lemma_unset_scope_is_global(name: Seq<char>, key: Seq<char>)
    ensures
        entry_query(name, None, key)[1] == ("scope"@, "global"@),
        scope_or_global(None) == "global"@,
{
}

/// A DataStore of a listing.
#[derive(Debug, Clone)]
pub struct ListDataStoreEntry {
    pub name: String,
    pub created_time: String,
}

/// `body` has the JSON shape of a [`ListDataStoreEntry`].
pub open spec fn list_data_store_entry_parses(body: Seq<char>) -> bool {
    &&& json_str_at(body, "name"@) is Some
    &&& json_str_at(body, "createdTime"@) is Some
}

/// `body` is the JSON form of `v`.
pub open spec fn list_data_store_entry_matches(body: Seq<char>, v: ListDataStoreEntry) -> bool {
    &&& json_str_at(body, "name"@) == Some(v.name@)
    &&& json_str_at(body, "createdTime"@) == Some(v.created_time@)
}

impl ListDataStoreEntry {
    /// Reads a [`ListDataStoreEntry`] out of a JSON body; fails exactly when the body
    /// does not have its shape.
    pub fn decode(body: &str) -> (r: Result<ListDataStoreEntry, Error>)
        ensures
            list_data_store_entry_parses(body@) <==> r is Ok,
            r matches Ok(v) ==> list_data_store_entry_matches(body@, v),
            r matches Err(e) ==> e is SerdeJsonError,
    {
        let name = match json_str_field(body, "name") {
            Some(x) => x,
            None => {
                return Err(malformed("ListDataStoreEntry"));
            },
        };
        let created_time = match json_str_field(body, "createdTime") {
            Some(x) => x,
            None => {
                return Err(malformed("ListDataStoreEntry"));
            },
        };
        Ok(ListDataStoreEntry { name, created_time })
    }
}

/// One page of DataStores, with the cursor of the next page if any.
#[derive(Debug, Clone)]
pub struct ListDataStoresResponse {
    pub datastores: Vec<ListDataStoreEntry>,
    pub next_page_cursor: Option<String>,
}

/// `body` has the JSON shape of a [`ListDataStoresResponse`].
pub open spec fn list_data_stores_response_parses(body: Seq<char>) -> bool {
    &&& json_len_at(body, "datastores"@) matches Some(n) && (forall|i: usize| i < n ==> (#[trigger] json_item_at(body, "datastores"@, i) matches Some(t) && list_data_store_entry_parses(t)))
}

/// `body` is the JSON form of `v`.
pub open spec fn list_data_stores_response_matches(body: Seq<char>, v: ListDataStoresResponse) -> bool {
    &&& json_len_at(body, "datastores"@) == Some(v.datastores@.len() as usize) && (forall|i: int| 0 <= i < v.datastores@.len() ==> (json_item_at(body, "datastores"@, i as usize) matches Some(t) && list_data_store_entry_matches(t, #[trigger] v.datastores@[i])))
    &&& json_str_at(body, "nextPageCursor"@) == opt_text(v.next_page_cursor)
}

impl ListDataStoresResponse {
    /// Reads a [`ListDataStoresResponse`] out of a JSON body; fails exactly when the body
    /// does not have its shape.
    pub fn decode(body: &str) -> (r: Result<ListDataStoresResponse, Error>)
        ensures
            list_data_stores_response_parses(body@) <==> r is Ok,
            r matches Ok(v) ==> list_data_stores_response_matches(body@, v),
            r matches Err(e) ==> e is SerdeJsonError,
    {
        let n = match json_array_len(body, "datastores") {
            Some(n) => n,
            None => {
                return Err(malformed("ListDataStoresResponse"));
            },
        };
        let mut datastores: Vec<ListDataStoreEntry> = Vec::new();
        let mut i: usize = 0;
        while i < n
            invariant
                json_len_at(body@, "datastores"@) == Some(n),
                i <= n,
                datastores@.len() == i,
                forall|k: int| 0 <= k < i ==> (json_item_at(body@, "datastores"@, k as usize) matches Some(t) && list_data_store_entry_matches(t, #[trigger] datastores@[k])),
                forall|k: usize| k < i ==> (#[trigger] json_item_at(body@, "datastores"@, k) matches Some(t) && list_data_store_entry_parses(t)),
            decreases n - i,
        {
            let t = match json_item_text(body, "datastores", i) {
                Some(t) => t,
                None => {
                    return Err(malformed("ListDataStoresResponse"));
                },
            };
            let x = match ListDataStoreEntry::decode(t.as_str()) {
                Ok(x) => x,
                Err(e) => {
                    return Err(e);
                },
            };
            datastores.push(x);
            i = i + 1;
        }
        let next_page_cursor = json_str_field(body, "nextPageCursor");
        Ok(ListDataStoresResponse { datastores, next_page_cursor })
    }
}

/// An entry key of a listing, with its scope.
#[derive(Debug, Clone)]
pub struct ListEntriesKey {
    pub scope: String,
    pub key: String,
}

/// `body` has the JSON shape of a [`ListEntriesKey`].
pub open spec fn list_entries_key_parses(body: Seq<char>) -> bool {
    &&& json_str_at(body, "scope"@) is Some
    &&& json_str_at(body, "key"@) is Some
}

/// `body` is the JSON form of `v`.
pub open spec fn list_entries_key_matches(body: Seq<char>, v: ListEntriesKey) -> bool {
    &&& json_str_at(body, "scope"@) == Some(v.scope@)
    &&& json_str_at(body, "key"@) == Some(v.key@)
}

impl ListEntriesKey {
    /// Reads a [`ListEntriesKey`] out of a JSON body; fails exactly when the body
    /// does not have its shape.
    pub fn decode(body: &str) -> (r: Result<ListEntriesKey, Error>)
        ensures
            list_entries_key_parses(body@) <==> r is Ok,
            r matches Ok(v) ==> list_entries_key_matches(body@, v),
            r matches Err(e) ==> e is SerdeJsonError,
    {
        let scope = match json_str_field(body, "scope") {
            Some(x) => x,
            None => {
                return Err(malformed("ListEntriesKey"));
            },
        };
        let key = match json_str_field(body, "key") {
            Some(x) => x,
            None => {
                return Err(malformed("ListEntriesKey"));
            },
        };
        Ok(ListEntriesKey { scope, key })
    }
}

/// One page of entry keys, with the cursor of the next page if any.
#[derive(Debug, Clone)]
pub struct ListEntriesResponse {
    pub keys: Vec<ListEntriesKey>,
    pub next_page_cursor: Option<String>,
}

/// `body` has the JSON shape of a [`ListEntriesResponse`].
pub open spec fn list_entries_response_parses(body: Seq<char>) -> bool {
    &&& json_len_at(body, "keys"@) matches Some(n) && (forall|i: usize| i < n ==> (#[trigger] json_item_at(body, "keys"@, i) matches Some(t) && list_entries_key_parses(t)))
}

/// `body` is the JSON form of `v`.
pub open spec fn list_entries_response_matches(body: Seq<char>, v: ListEntriesResponse) -> bool {
    &&& json_len_at(body, "keys"@) == Some(v.keys@.len() as usize) && (forall|i: int| 0 <= i < v.keys@.len() ==> (json_item_at(body, "keys"@, i as usize) matches Some(t) && list_entries_key_matches(t, #[trigger] v.keys@[i])))
    &&& json_str_at(body, "nextPageCursor"@) == opt_text(v.next_page_cursor)
}

impl ListEntriesResponse {
    /// Reads a [`ListEntriesResponse`] out of a JSON body; fails exactly when the body
    /// does not have its shape.
    pub fn decode(body: &str) -> (r: Result<ListEntriesResponse, Error>)
        ensures
            list_entries_response_parses(body@) <==> r is Ok,
            r matches Ok(v) ==> list_entries_response_matches(body@, v),
            r matches Err(e) ==> e is SerdeJsonError,
    {
        let n = match json_array_len(body, "keys") {
            Some(n) => n,
            None => {
                return Err(malformed("ListEntriesResponse"));
            },
        };
        let mut keys: Vec<ListEntriesKey> = Vec::new();
        let mut i: usize = 0;
        while i < n
            invariant
                json_len_at(body@, "keys"@) == Some(n),
                i <= n,
                keys@.len() == i,
                forall|k: int| 0 <= k < i ==> (json_item_at(body@, "keys"@, k as usize) matches Some(t) && list_entries_key_matches(t, #[trigger] keys@[k])),
                forall|k: usize| k < i ==> (#[trigger] json_item_at(body@, "keys"@, k) matches Some(t) && list_entries_key_parses(t)),
            decreases n - i,
        {
            let t = match json_item_text(body, "keys", i) {
                Some(t) => t,
                None => {
                    return Err(malformed("ListEntriesResponse"));
                },
            };
            let x = match ListEntriesKey::decode(t.as_str()) {
                Ok(x) => x,
                Err(e) => {
                    return Err(e);
                },
            };
            keys.push(x);
            i = i + 1;
        }
        let next_page_cursor = json_str_field(body, "nextPageCursor");
        Ok(ListEntriesResponse { keys, next_page_cursor })
    }
}

/// A version of an entry.
#[derive(Debug, Clone)]
pub struct ListEntryVersion {
    pub version: String,
    pub deleted: bool,
    pub content_length: u64,
    pub created_time: String,
    pub object_created_time: String,
}

/// `body` has the JSON shape of a [`ListEntryVersion`].
pub open spec fn list_entry_version_parses(body: Seq<char>) -> bool {
    &&& json_str_at(body, "version"@) is Some
    &&& json_bool_at(body, "deleted"@) is Some
    &&& json_u64_at(body, "contentLength"@) is Some
    &&& json_str_at(body, "createdTime"@) is Some
    &&& json_str_at(body, "objectCreatedTime"@) is Some
}

/// `body` is the JSON form of `v`.
pub open spec fn list_entry_version_matches(body: Seq<char>, v: ListEntryVersion) -> bool {
    &&& json_str_at(body, "version"@) == Some(v.version@)
    &&& json_bool_at(body, "deleted"@) == Some(v.deleted)
    &&& json_u64_at(body, "contentLength"@) == Some(v.content_length)
    &&& json_str_at(body, "createdTime"@) == Some(v.created_time@)
    &&& json_str_at(body, "objectCreatedTime"@) == Some(v.object_created_time@)
}

impl ListEntryVersion {
    /// Reads a [`ListEntryVersion`] out of a JSON body; fails exactly when the body
    /// does not have its shape.
    pub fn decode(body: &str) -> (r: Result<ListEntryVersion, Error>)
        ensures
            list_entry_version_parses(body@) <==> r is Ok,
            r matches Ok(v) ==> list_entry_version_matches(body@, v),
            r matches Err(e) ==> e is SerdeJsonError,
    {
        let version = match json_str_field(body, "version") {
            Some(x) => x,
            None => {
                return Err(malformed("ListEntryVersion"));
            },
        };
        let deleted = match json_bool_field(body, "deleted") {
            Some(x) => x,
            None => {
                return Err(malformed("ListEntryVersion"));
            },
        };
        let content_length = match json_u64_field(body, "contentLength") {
            Some(x) => x,
            None => {
                return Err(malformed("ListEntryVersion"));
            },
        };
        let created_time = match json_str_field(body, "createdTime") {
            Some(x) => x,
            None => {
                return Err(malformed("ListEntryVersion"));
            },
        };
        let object_created_time = match json_str_field(body, "objectCreatedTime") {
            Some(x) => x,
            None => {
                return Err(malformed("ListEntryVersion"));
            },
        };
        Ok(ListEntryVersion { version, deleted, content_length, created_time, object_created_time })
    }
}

/// One page of entry versions, with the cursor of the next page if any.
#[derive(Debug, Clone)]
pub struct ListEntryVersionsResponse {
    pub versions: Vec<ListEntryVersion>,
    pub next_page_cursor: Option<String>,
}

/// `body` has the JSON shape of a [`ListEntryVersionsResponse`].
pub open spec fn list_entry_versions_response_parses(body: Seq<char>) -> bool {
    &&& json_len_at(body, "versions"@) matches Some(n) && (forall|i: usize| i < n ==> (#[trigger] json_item_at(body, "versions"@, i) matches Some(t) && list_entry_version_parses(t)))
}

/// `body` is the JSON form of `v`.
pub open spec fn list_entry_versions_response_matches(body: Seq<char>, v: ListEntryVersionsResponse) -> bool {
    &&& json_len_at(body, "versions"@) == Some(v.versions@.len() as usize) && (forall|i: int| 0 <= i < v.versions@.len() ==> (json_item_at(body, "versions"@, i as usize) matches Some(t) && list_entry_version_matches(t, #[trigger] v.versions@[i])))
    &&& json_str_at(body, "nextPageCursor"@) == opt_text(v.next_page_cursor)
}

impl ListEntryVersionsResponse {
    /// Reads a [`ListEntryVersionsResponse`] out of a JSON body; fails exactly when the body
    /// does not have its shape.
    pub fn decode(body: &str) -> (r: Result<ListEntryVersionsResponse, Error>)
        ensures
            list_entry_versions_response_parses(body@) <==> r is Ok,
            r matches Ok(v) ==> list_entry_versions_response_matches(body@, v),
            r matches Err(e) ==> e is SerdeJsonError,
    {
        let n = match json_array_len(body, "versions") {
            Some(n) => n,
            None => {
                return Err(malformed("ListEntryVersionsResponse"));
            },
        };
        let mut versions: Vec<ListEntryVersion> = Vec::new();
        let mut i: usize = 0;
        while i < n
            invariant
                json_len_at(body@, "versions"@) == Some(n),
                i <= n,
                versions@.len() == i,
                forall|k: int| 0 <= k < i ==> (json_item_at(body@, "versions"@, k as usize) matches Some(t) && list_entry_version_matches(t, #[trigger] versions@[k])),
                forall|k: usize| k < i ==> (#[trigger] json_item_at(body@, "versions"@, k) matches Some(t) && list_entry_version_parses(t)),
            decreases n - i,
        {
            let t = match json_item_text(body, "versions", i) {
                Some(t) => t,
                None => {
                    return Err(malformed("ListEntryVersionsResponse"));
                },
            };
            let x = match ListEntryVersion::decode(t.as_str()) {
                Ok(x) => x,
                Err(e) => {
                    return Err(e);
                },
            };
            versions.push(x);
            i = i + 1;
        }
        let next_page_cursor = json_str_field(body, "nextPageCursor");
        Ok(ListEntryVersionsResponse { versions, next_page_cursor })
    }
}

/// Two pages of entry keys that agree key by key and on the cursor.
pub open spec fn same_entries_page(a: ListEntriesResponse, b: ListEntriesResponse) -> bool {
    &&& a.keys@.len() == b.keys@.len()
    &&& (forall|i: int|
        0 <= i < a.keys@.len() ==> (#[trigger] a.keys@[i]).scope@ == b.keys@[i].scope@
            && a.keys@[i].key@ == b.keys@[i].key@)
    &&& opt_text(a.next_page_cursor) == opt_text(b.next_page_cursor)
}

/// Listing entries again with the same cursor, the data unchanged, gives
/// the same page: the request is built from the parameters alone, with the
/// cursor passed through as it is, and two pages read from one answer body
/// agree key by key and on the next cursor.
pub proof fn lemma_repeated_listing_agrees(body: Seq<char>, a: ListEntriesResponse, b: ListEntriesResponse)
    requires
        list_entries_response_matches(body, a),
        list_entries_response_matches(body, b),
    ensures
        same_entries_page(a, b),
{
    broadcast use vstd::std_specs::vec::axiom_spec_len;

    assert(a.keys.len() == a.keys@.len() && b.keys.len() == b.keys@.len());
    assert forall|i: int| 0 <= i < a.keys@.len() implies (#[trigger] a.keys@[i]).scope@ == b.keys@[i].scope@
        && a.keys@[i].key@ == b.keys@[i].key@ by {
        let ka = a.keys@[i];
        let kb = b.keys@[i];
        let t = json_item_at(body, "keys"@, i as usize).unwrap();
        assert(list_entries_key_matches(t, ka));
        assert(list_entries_key_matches(t, kb));
    }
}

} // verus!
