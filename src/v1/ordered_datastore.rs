//! OrderedDataStore operations: listing, creating, reading, updating,
//! incrementing and deleting entries.
use crate::error::{malformed, Error};
use crate::json::{
    json_array_len, json_i64_at, json_i64_field, json_item_at, json_item_text, json_len_at,
    json_str_at, json_str_field,
};
use crate::http::{
    api_headers, api_json_headers, json_headers, key_headers, HttpMethod, Request, RequestBody,
};
use crate::text::{
    opt_text, bool_text, bool_to_text, concat, decimal, i64_to_decimal, opt_pair, pairs, push_opt,
    push_pair, signed_decimal, single_pair,
};
use crate::types::{PageSize, UniverseId};
use crate::v1::datastore::scope_or_global;
use vstd::prelude::*;
use vstd::string::*;

verus! {

/// Parameters of listing the entries of an OrderedDataStore.
pub struct OrderedListEntriesParams {
    pub api_key: String,
    pub universe_id: UniverseId,
    pub ordered_datastore_name: String,
    pub scope: Option<String>,
    pub max_page_size: Option<PageSize>,
    pub page_token: Option<String>,
    pub order_by: Option<String>,
    pub filter: Option<String>,
}

/// Parameters of creating an entry.
pub struct OrderedCreateEntryParams {
    pub api_key: String,
    pub universe_id: UniverseId,
    pub ordered_datastore_name: String,
    pub scope: Option<String>,
    pub id: String,
    pub value: i64,
}

/// Parameters of updating an entry.
pub struct OrderedUpdateEntryParams {
    pub api_key: String,
    pub universe_id: UniverseId,
    pub ordered_datastore_name: String,
    pub scope: Option<String>,
    pub id: String,
    pub value: i64,
    pub allow_missing: Option<bool>,
}

/// Parameters of incrementing an entry.
pub struct OrderedIncrementEntryParams {
    pub api_key: String,
    pub universe_id: UniverseId,
    pub ordered_datastore_name: String,
    pub scope: Option<String>,
    pub id: String,
    pub increment: i64,
}

/// Parameters that name one entry.
pub struct OrderedEntryParams {
    pub api_key: String,
    pub universe_id: UniverseId,
    pub ordered_datastore_name: String,
    pub scope: Option<String>,
    pub id: String,
}

/// The URL of an endpoint of one scope of an OrderedDataStore.
pub open spec fn ods_url(
    universe_id: UniverseId,
    name: Seq<char>,
    scope: Option<String>,
    endpoint: Seq<char>,
) -> Seq<char> {
    "https://apis.roblox.com/ordered-data-stores/v1/universes/"@ + decimal(universe_id.0 as nat)
        + "/orderedDataStores/"@ + name + "/scopes/"@ + scope_or_global(scope) + endpoint
}

/// The endpoint of one entry.
pub open spec fn entry_endpoint(id: Seq<char>) -> Seq<char> {
    "/entries/"@ + id
}

/// A JSON object with one integer field.
pub open spec fn int_object(field: Seq<char>, v: i64) -> Seq<char> {
    "{\""@ + field + "\":"@ + signed_decimal(v as int) + "}"@
}

/// Builds the URL of an endpoint of one scope of an OrderedDataStore; an
/// absent scope is `global`.
pub fn build_url(endpoint: &str, universe_id: UniverseId, data_store: &str, scope: &Option<String>) -> (r: String)
    ensures
        r@ == ods_url(universe_id, data_store@, *scope, endpoint@),
{
    let id = universe_id.to_string();
    let mut s = concat("https://apis.roblox.com/ordered-data-stores/v1/universes/", id.as_str());
    s.append("/orderedDataStores/");
    s.append(data_store);
    s.append("/scopes/");
    match scope {
        Some(sc) => s.append(sc.as_str()),
        None => s.append("global"),
    }
    s.append(endpoint);
    s
}

fn int_body(field: &str, v: i64) -> (r: String)
    ensures
        r@ == int_object(field@, v),
{
    let digits = i64_to_decimal(v);
    let mut s = concat("{\"", field);
    s.append("\":");
    s.append(digits.as_str());
    s.append("}");
    s
}

/// The request that lists the entries of an OrderedDataStore.
pub fn list_entries(params: &OrderedListEntriesParams) -> (r: Request)
    ensures
        r.method == HttpMethod::Get,
        r.url@ == ods_url(params.universe_id, params.ordered_datastore_name@, params.scope, "/entries"@),
        pairs(r.headers@) == key_headers(params.api_key@),
        pairs(r.query@) == match params.max_page_size {
            Some(p) => seq![("max_page_size"@, decimal(p.0 as nat))],
            None => seq![],
        } + opt_pair("page_token"@, params.page_token) + opt_pair("order_by"@, params.order_by)
            + opt_pair("filter"@, params.filter),
        r.body is Empty,
{
    let mut q: Vec<(String, String)> = Vec::new();
    match params.max_page_size {
        Some(p) => push_pair(&mut q, "max_page_size", p.to_string()),
        None => {},
    }
    let ghost first = pairs(q@);
    assert(first =~= match params.max_page_size {
        Some(p) => seq![("max_page_size"@, decimal(p.0 as nat))],
        None => seq![],
    });
    push_opt(&mut q, "page_token", &params.page_token);
    push_opt(&mut q, "order_by", &params.order_by);
    push_opt(&mut q, "filter", &params.filter);
    Request {
        method: HttpMethod::Get,
        url: build_url("/entries", params.universe_id, params.ordered_datastore_name.as_str(), &params.scope),
        headers: api_headers(&params.api_key),
        query: q,
        body: RequestBody::Empty,
    }
}

/// The request that creates an entry with a value.
pub fn create_entry(params: &OrderedCreateEntryParams) -> (r: Request)
    ensures
        r.method == HttpMethod::Post,
        r.url@ == ods_url(params.universe_id, params.ordered_datastore_name@, params.scope, "/entries"@),
        pairs(r.headers@) == json_headers(params.api_key@),
        pairs(r.query@) == seq![("id"@, params.id@)],
        r.body matches RequestBody::Text(b) && b@ == int_object("value"@, params.value),
{
    Request {
        method: HttpMethod::Post,
        url: build_url("/entries", params.universe_id, params.ordered_datastore_name.as_str(), &params.scope),
        headers: api_json_headers(&params.api_key),
        query: single_pair("id", params.id.clone()),
        body: RequestBody::Text(int_body("value", params.value)),
    }
}

/// The request that reads an entry.
pub fn get_entry(params: &OrderedEntryParams) -> (r: Request)
    ensures
        r.method == HttpMethod::Get,
        r.url@ == ods_url(params.universe_id, params.ordered_datastore_name@, params.scope, entry_endpoint(params.id@)),
        pairs(r.headers@) == key_headers(params.api_key@),
        r.query@.len() == 0,
        r.body is Empty,
{
    let endpoint = concat("/entries/", params.id.as_str());
    Request {
        method: HttpMethod::Get,
        url: build_url(endpoint.as_str(), params.universe_id, params.ordered_datastore_name.as_str(), &params.scope),
        headers: api_headers(&params.api_key),
        query: Vec::new(),
        body: RequestBody::Empty,
    }
}

/// The request that deletes an entry.
pub fn delete_entry(params: &OrderedEntryParams) -> (r: Request)
    ensures
        r.method == HttpMethod::Delete,
        r.url@ == ods_url(params.universe_id, params.ordered_datastore_name@, params.scope, entry_endpoint(params.id@)),
        pairs(r.headers@) == key_headers(params.api_key@),
        r.query@.len() == 0,
        r.body is Empty,
{
    let endpoint = concat("/entries/", params.id.as_str());
    Request {
        method: HttpMethod::Delete,
        url: build_url(endpoint.as_str(), params.universe_id, params.ordered_datastore_name.as_str(), &params.scope),
        headers: api_headers(&params.api_key),
        query: Vec::new(),
        body: RequestBody::Empty,
    }
}

/// The request that sets the value of an entry.
pub fn update_entry(params: &OrderedUpdateEntryParams) -> (r: Request)
    ensures
        r.method == HttpMethod::Patch,
        r.url@ == ods_url(params.universe_id, params.ordered_datastore_name@, params.scope, entry_endpoint(params.id@)),
        pairs(r.headers@) == json_headers(params.api_key@),
        pairs(r.query@) == match params.allow_missing {
            Some(b) => seq![("allow_missing"@, bool_text(b))],
            None => seq![],
        },
        r.body matches RequestBody::Text(b) && b@ == int_object("value"@, params.value),
{
    let endpoint = concat("/entries/", params.id.as_str());
    let mut q: Vec<(String, String)> = Vec::new();
    match params.allow_missing {
        Some(b) => push_pair(&mut q, "allow_missing", bool_to_text(b)),
        None => {},
    }
    assert(pairs(q@) =~= match params.allow_missing {
        Some(b) => seq![("allow_missing"@, bool_text(b))],
        None => seq![],
    });
    Request {
        method: HttpMethod::Patch,
        url: build_url(endpoint.as_str(), params.universe_id, params.ordered_datastore_name.as_str(), &params.scope),
        headers: api_json_headers(&params.api_key),
        query: q,
        body: RequestBody::Text(int_body("value", params.value)),
    }
}

/// The request that adds an amount to the value of an entry.
pub fn increment_entry(params: &OrderedIncrementEntryParams) -> (r: Request)
    ensures
        r.method == HttpMethod::Post,
        r.url@ == ods_url(params.universe_id, params.ordered_datastore_name@, params.scope, entry_endpoint(params.id@) + ":increment"@),
        pairs(r.headers@) == json_headers(params.api_key@),
        r.query@.len() == 0,
        r.body matches RequestBody::Text(b) && b@ == int_object("amount"@, params.increment),
{
    let mut endpoint = concat("/entries/", params.id.as_str());
    endpoint.append(":increment");
    Request {
        method: HttpMethod::Post,
        url: build_url(endpoint.as_str(), params.universe_id, params.ordered_datastore_name.as_str(), &params.scope),
        headers: api_json_headers(&params.api_key),
        query: Vec::new(),
        body: RequestBody::Text(int_body("amount", params.increment)),
    }
}

/// An OrderedDataStore request that leaves the scope unset addresses the
/// scope `global`.
pub proof fn lemma_unset_scope_is_global(universe_id: UniverseId, name: Seq<char>, endpoint: Seq<char>)
    ensures
        ods_url(universe_id, name, None, endpoint) == "https://apis.roblox.com/ordered-data-stores/v1/universes/"@
            + decimal(universe_id.0 as nat) + "/orderedDataStores/"@ + name + "/scopes/global"@ + endpoint,
{
    reveal_strlit("/scopes/");
    reveal_strlit("global");
    reveal_strlit("/scopes/global");
    assert("/scopes/"@ + "global"@ =~= "/scopes/global"@);
    assert(ods_url(universe_id, name, None, endpoint) =~= "https://apis.roblox.com/ordered-data-stores/v1/universes/"@
            + decimal(universe_id.0 as nat) + "/orderedDataStores/"@ + name + "/scopes/global"@ + endpoint);
}

/// An entry of an OrderedDataStore.
#[derive(Debug, Clone)]
pub struct OrderedEntry {
    pub path: String,
    pub id: String,
    pub value: i64,
}

/// `body` has the JSON shape of a [`OrderedEntry`].
pub open spec fn ordered_entry_parses(body: Seq<char>) -> bool {
    &&& json_str_at(body, "path"@) is Some
    &&& json_str_at(body, "id"@) is Some
    &&& json_i64_at(body, "value"@) is Some
}

/// `body` is the JSON form of `v`.
pub open spec fn ordered_entry_matches(body: Seq<char>, v: OrderedEntry) -> bool {
    &&& json_str_at(body, "path"@) == Some(v.path@)
    &&& json_str_at(body, "id"@) == Some(v.id@)
    &&& json_i64_at(body, "value"@) == Some(v.value)
}

impl OrderedEntry {
    /// Reads a [`OrderedEntry`] out of a JSON body; fails exactly when the body
    /// does not have its shape.
    pub fn decode(body: &str) -> (r: Result<OrderedEntry, Error>)
        ensures
            ordered_entry_parses(body@) <==> r is Ok,
            r matches Ok(v) ==> ordered_entry_matches(body@, v),
            r matches Err(e) ==> e is SerdeJsonError,
    {
        let path = match json_str_field(body, "path") {
            Some(x) => x,
            None => {
                return Err(malformed("OrderedEntry"));
            },
        };
        let id = match json_str_field(body, "id") {
            Some(x) => x,
            None => {
                return Err(malformed("OrderedEntry"));
            },
        };
        let value = match json_i64_field(body, "value") {
            Some(x) => x,
            None => {
                return Err(malformed("OrderedEntry"));
            },
        };
        Ok(OrderedEntry { path, id, value })
    }
}

/// One page of entries, with the token of the next page if any.
#[derive(Debug, Clone)]
pub struct OrderedListEntriesResponse {
    pub entries: Vec<OrderedEntry>,
    pub next_page_token: Option<String>,
}

/// `body` has the JSON shape of a [`OrderedListEntriesResponse`].
pub open spec fn ordered_list_entries_response_parses(body: Seq<char>) -> bool {
    &&& json_len_at(body, "entries"@) matches Some(n) && (forall|i: usize| i < n ==> (#[trigger] json_item_at(body, "entries"@, i) matches Some(t) && ordered_entry_parses(t)))
}

/// `body` is the JSON form of `v`.
pub open spec fn ordered_list_entries_response_matches(body: Seq<char>, v: OrderedListEntriesResponse) -> bool {
    &&& json_len_at(body, "entries"@) == Some(v.entries@.len() as usize) && (forall|i: int| 0 <= i < v.entries@.len() ==> (json_item_at(body, "entries"@, i as usize) matches Some(t) && ordered_entry_matches(t, #[trigger] v.entries@[i])))
    &&& json_str_at(body, "nextPageToken"@) == opt_text(v.next_page_token)
}

impl OrderedListEntriesResponse {
    /// Reads a [`OrderedListEntriesResponse`] out of a JSON body; fails exactly when the body
    /// does not have its shape.
    pub fn decode(body: &str) -> (r: Result<OrderedListEntriesResponse, Error>)
        ensures
            ordered_list_entries_response_parses(body@) <==> r is Ok,
            r matches Ok(v) ==> ordered_list_entries_response_matches(body@, v),
            r matches Err(e) ==> e is SerdeJsonError,
    {
        let n = match json_array_len(body, "entries") {
            Some(n) => n,
            None => {
                return Err(malformed("OrderedListEntriesResponse"));
            },
        };
        let mut entries: Vec<OrderedEntry> = Vec::new();
        let mut i: usize = 0;
        while i < n
            invariant
                json_len_at(body@, "entries"@) == Some(n),
                i <= n,
                entries@.len() == i,
                forall|k: int| 0 <= k < i ==> (json_item_at(body@, "entries"@, k as usize) matches Some(t) && ordered_entry_matches(t, #[trigger] entries@[k])),
                forall|k: usize| k < i ==> (#[trigger] json_item_at(body@, "entries"@, k) matches Some(t) && ordered_entry_parses(t)),
            decreases n - i,
        {
            let t = match json_item_text(body, "entries", i) {
                Some(t) => t,
                None => {
                    return Err(malformed("OrderedListEntriesResponse"));
                },
            };
            let x = match OrderedEntry::decode(t.as_str()) {
                Ok(x) => x,
                Err(e) => {
                    return Err(e);
                },
            };
            entries.push(x);
            i = i + 1;
        }
        let next_page_token = json_str_field(body, "nextPageToken");
        Ok(OrderedListEntriesResponse { entries, next_page_token })
    }
}

} // verus!
