//! Roblox Open Cloud v1 APIs: DataStores, OrderedDataStores, Messaging,
//! experience publishing and Assets.
pub mod assets;
pub mod datastore;
pub mod ds_error;
pub mod experience;
pub mod messaging;
pub mod ordered_datastore;

use crate::error::Error;
use crate::http::{json_headers, key_headers, HttpMethod, Request, RequestBody};
use crate::text::{bool_text, decimal, opt_pair, pairs};
use crate::types::{PageSize, PlaceId, ReturnLimit, RobloxUserId, UniverseId};
use crate::util::checksum_of;
use assets::{
    assets_url, creation_json, is_upload, mime_of, AssetCreation, AssetType, CreateAssetParams,
    CreateAssetParamsWithContents, GetAssetOperationParams, UpdateAssetParams,
};
use datastore::{
    ds_url, entry_query, scope_or_global, DeleteEntryParams, GetEntryParams, GetEntryVersionParams,
    IncrementEntryParams, ListDataStoresParams, ListEntriesParams, ListEntryVersionsParams,
    SetEntryParams,
};
use experience::{publish_url, PublishExperienceParams, PublishVersionType};
use messaging::{message_json, topic_url, PublishMessageParams};
use ordered_datastore::{
    entry_endpoint, int_object, ods_url, OrderedCreateEntryParams, OrderedEntryParams,
    OrderedIncrementEntryParams, OrderedListEntriesParams, OrderedUpdateEntryParams,
};
use vstd::prelude::*;
use vstd::string::*;

verus! {

/// Publishing to one place of one experience.
pub struct RbxExperience {
    pub universe_id: UniverseId,
    pub place_id: PlaceId,
    pub api_key: String,
}

/// Messaging on one topic of one experience.
pub struct RbxMessaging {
    pub api_key: String,
    pub universe_id: UniverseId,
    pub topic: String,
}

/// The DataStores of one experience.
pub struct RbxDataStore {
    pub api_key: String,
    pub universe_id: UniverseId,
}

/// Listing the DataStores of an experience.
pub struct DataStoreListStores {
    pub prefix: Option<String>,
    pub limit: ReturnLimit,
    pub cursor: Option<String>,
}

/// Listing the entries of a DataStore.
pub struct DataStoreListEntries {
    pub name: String,
    pub scope: Option<String>,
    pub all_scopes: bool,
    pub prefix: Option<String>,
    pub limit: ReturnLimit,
    pub cursor: Option<String>,
}

/// Naming an entry to read.
pub struct DataStoreGetEntry {
    pub name: String,
    pub scope: Option<String>,
    pub key: String,
}

/// Writing an entry.
pub struct DataStoreSetEntry {
    pub name: String,
    pub scope: Option<String>,
    pub key: String,
    pub match_version: Option<String>,
    pub exclusive_create: Option<bool>,
    pub roblox_entry_user_ids: Option<Vec<RobloxUserId>>,
    pub roblox_entry_attributes: Option<String>,
    pub data: String,
}

/// Incrementing an entry; the amount is the decimal text of the number.
pub struct DataStoreIncrementEntry {
    pub name: String,
    pub scope: Option<String>,
    pub key: String,
    pub roblox_entry_user_ids: Option<Vec<RobloxUserId>>,
    pub roblox_entry_attributes: Option<String>,
    pub increment_by: String,
}

/// Naming an entry to delete.
pub struct DataStoreDeleteEntry {
    pub name: String,
    pub scope: Option<String>,
    pub key: String,
}

/// Listing the versions of an entry.
pub struct DataStoreListEntryVersions {
    pub name: String,
    pub scope: Option<String>,
    pub key: String,
    pub start_time: Option<String>,
    pub end_time: Option<String>,
    pub sort_order: String,
    pub limit: ReturnLimit,
    pub cursor: Option<String>,
}

/// Naming one version of an entry.
pub struct DataStoreGetEntryVersion {
    pub name: String,
    pub scope: Option<String>,
    pub key: String,
    pub version_id: String,
}

/// The OrderedDataStores of one experience.
pub struct RbxOrderedDataStore {
    pub api_key: String,
    pub universe_id: UniverseId,
}

/// Listing the entries of an OrderedDataStore.
pub struct OrderedDataStoreListEntries {
    pub name: String,
    pub scope: Option<String>,
    pub max_page_size: Option<PageSize>,
    pub page_token: Option<String>,
    pub order_by: Option<String>,
    pub filter: Option<String>,
}

/// Creating an entry.
pub struct OrderedDataStoreCreateEntry {
    pub name: String,
    pub scope: Option<String>,
    pub id: String,
    pub value: i64,
}

/// Updating an entry.
pub struct OrderedDataStoreUpdateEntry {
    pub name: String,
    pub scope: Option<String>,
    pub id: String,
    pub value: i64,
    pub allow_missing: Option<bool>,
}

/// Incrementing an entry.
pub struct OrderedDataStoreIncrementEntry {
    pub name: String,
    pub scope: Option<String>,
    pub id: String,
    pub increment: i64,
}

/// Naming an entry.
pub struct OrderedDataStoreEntry {
    pub name: String,
    pub scope: Option<String>,
    pub id: String,
}

/// Asset operations.
pub struct RbxAssets {
    pub api_key: String,
}

/// Creating an asset from a file.
pub struct CreateAsset {
    pub asset: AssetCreation,
    pub filepath: String,
}

/// Creating an asset from bytes in memory.
pub struct CreateAssetWithContents<'a> {
    pub asset: AssetCreation,
    pub contents: &'a [u8],
}

/// Uploading a new revision of an asset from a file.
pub struct UpdateAsset {
    pub asset_id: u64,
    pub asset_type: AssetType,
    pub filepath: String,
}

/// Naming an asset operation.
pub struct GetAsset {
    pub operation_id: String,
}

/// The entry point of the v1 APIs: holds the API key.
#[derive(Debug)]
pub struct RbxCloud {
    pub api_key: String,
}

fn clone_opt(v: &Option<String>) -> (r: Option<String>)
    ensures
        crate::text::opt_text(r) == crate::text::opt_text(*v),
        scope_or_global(r) == scope_or_global(*v),
        forall|k: Seq<char>| #[trigger] opt_pair(k, r) == opt_pair(k, *v),
{
    match v {
        Some(s) => Some(s.clone()),
        None => None,
    }
}

impl RbxExperience {
    /// The request that publishes the place file at `filename`.
    pub fn publish(&self, filename: &str, version_type: PublishVersionType) -> (r: Request)
        ensures
            r.method == HttpMethod::Post,
            r.url@ == publish_url(self.universe_id, self.place_id, version_type),
            r.body matches RequestBody::File(f) && f@ == filename@,
    {
        experience::publish_experience(&PublishExperienceParams {
            api_key: self.api_key.clone(),
            universe_id: self.universe_id,
            place_id: self.place_id,
            version_type,
            filename: String::from_str(filename),
        })
    }
}

impl RbxMessaging {
    /// The request that publishes `message` on the topic.
    pub fn publish(&self, message: &str) -> (r: Request)
        ensures
            r.method == HttpMethod::Post,
            r.url@ == topic_url(self.universe_id, self.topic@),
            pairs(r.headers@) == json_headers(self.api_key@),
            r.body matches RequestBody::Text(b) && b@ == message_json(message@),
    {
        messaging::publish_message(&PublishMessageParams {
            api_key: self.api_key.clone(),
            universe_id: self.universe_id,
            topic: self.topic.clone(),
            message: String::from_str(message),
        })
    }
}

impl RbxDataStore {
    /// The request that lists the DataStores of the experience.
    pub fn list_stores(&self, params: &DataStoreListStores) -> (r: Request)
        ensures
            r.method == HttpMethod::Get,
            r.url@ == ds_url(self.universe_id, seq![]),
            pairs(r.headers@) == key_headers(self.api_key@),
            pairs(r.query@) == seq![("limit"@, decimal(params.limit.0 as nat))] + opt_pair(
                "prefix"@,
                params.prefix,
            ) + opt_pair("cursor"@, params.cursor),
    {
        datastore::list_datastores(&ListDataStoresParams {
            api_key: self.api_key.clone(),
            universe_id: self.universe_id,
            prefix: clone_opt(&params.prefix),
            limit: params.limit,
            cursor: clone_opt(&params.cursor),
        })
    }

    /// The request that lists the entries of a DataStore.
    pub fn list_entries(&self, params: &DataStoreListEntries) -> (r: Request)
        ensures
            r.method == HttpMethod::Get,
            r.url@ == ds_url(self.universe_id, "/datastore/entries"@),
            pairs(r.headers@) == key_headers(self.api_key@),
            pairs(r.query@) == seq![
                ("datastoreName"@, params.name@),
                ("limit"@, decimal(params.limit.0 as nat)),
                ("AllScopes"@, bool_text(params.all_scopes)),
                ("scope"@, scope_or_global(params.scope)),
            ] + opt_pair("prefix"@, params.prefix) + opt_pair("cursor"@, params.cursor),
    {
        let scope = clone_opt(&params.scope);
        let r = datastore::list_entries(&ListEntriesParams {
            api_key: self.api_key.clone(),
            universe_id: self.universe_id,
            datastore_name: params.name.clone(),
            scope,
            all_scopes: params.all_scopes,
            prefix: clone_opt(&params.prefix),
            limit: params.limit,
            cursor: clone_opt(&params.cursor),
        });
        assert(scope_or_global(scope) == scope_or_global(params.scope));
        r
    }

    /// The request that reads an entry.
    pub fn get_entry(&self, params: &DataStoreGetEntry) -> (r: Request)
        ensures
            r.method == HttpMethod::Get,
            r.url@ == ds_url(self.universe_id, "/datastore/entries/entry"@),
            pairs(r.headers@) == key_headers(self.api_key@),
            pairs(r.query@) == entry_query(params.name@, params.scope, params.key@),
    {
        let scope = clone_opt(&params.scope);
        let r = datastore::get_entry(&GetEntryParams {
            api_key: self.api_key.clone(),
            universe_id: self.universe_id,
            datastore_name: params.name.clone(),
            scope,
            key: params.key.clone(),
        });
        assert(entry_query(params.name@, scope, params.key@) =~= entry_query(params.name@, params.scope, params.key@));
        r
    }

    /// The request that writes an entry; the `content-md5` header is the
    /// checksum of the data sent as the body.
    pub fn set_entry(&self, params: &DataStoreSetEntry) -> (r: Request)
        ensures
            r.method == HttpMethod::Post,
            r.url@ == ds_url(self.universe_id, "/datastore/entries/entry"@),
            r.body matches RequestBody::Text(b) && b@ == params.data@,
            pairs(r.headers@)[4] == ("content-md5"@, checksum_of(params.data@)),
            pairs(r.query@).subrange(0, 3) == entry_query(params.name@, params.scope, params.key@),
    {
        let scope = clone_opt(&params.scope);
        let ids = match &params.roblox_entry_user_ids {
            Some(v) => Some(v.clone()),
            None => None,
        };
        let r = datastore::set_entry(&SetEntryParams {
            api_key: self.api_key.clone(),
            universe_id: self.universe_id,
            datastore_name: params.name.clone(),
            scope,
            key: params.key.clone(),
            match_version: clone_opt(&params.match_version),
            exclusive_create: params.exclusive_create,
            roblox_entry_user_ids: ids,
            roblox_entry_attributes: clone_opt(&params.roblox_entry_attributes),
            data: params.data.clone(),
        });
        assert(entry_query(params.name@, scope, params.key@) =~= entry_query(params.name@, params.scope, params.key@));
        assert(pairs(r.query@).subrange(0, 3) =~= entry_query(params.name@, params.scope, params.key@));
        r
    }

    /// The request that increments an entry.
    pub fn increment_entry(&self, params: &DataStoreIncrementEntry) -> (r: Request)
        ensures
            r.method == HttpMethod::Post,
            r.url@ == ds_url(self.universe_id, "/datastore/entries/entry/increment"@),
            pairs(r.query@) == entry_query(params.name@, params.scope, params.key@).push(("incrementBy"@, params.increment_by@)),
    {
        let scope = clone_opt(&params.scope);
        let ids = match &params.roblox_entry_user_ids {
            Some(v) => Some(v.clone()),
            None => None,
        };
        let r = datastore::increment_entry(&IncrementEntryParams {
            api_key: self.api_key.clone(),
            universe_id: self.universe_id,
            datastore_name: params.name.clone(),
            scope,
            key: params.key.clone(),
            roblox_entry_user_ids: ids,
            roblox_entry_attributes: clone_opt(&params.roblox_entry_attributes),
            increment_by: params.increment_by.clone(),
        });
        assert(entry_query(params.name@, scope, params.key@) =~= entry_query(params.name@, params.scope, params.key@));
        r
    }

    /// The request that deletes an entry.
    pub fn delete_entry(&self, params: &DataStoreDeleteEntry) -> (r: Request)
        ensures
            r.method == HttpMethod::Delete,
            r.url@ == ds_url(self.universe_id, "/datastore/entries/entry"@),
            pairs(r.query@) == entry_query(params.name@, params.scope, params.key@),
    {
        let scope = clone_opt(&params.scope);
        let r = datastore::delete_entry(&DeleteEntryParams {
            api_key: self.api_key.clone(),
            universe_id: self.universe_id,
            datastore_name: params.name.clone(),
            scope,
            key: params.key.clone(),
        });
        assert(entry_query(params.name@, scope, params.key@) =~= entry_query(params.name@, params.scope, params.key@));
        r
    }

    /// The request that lists the versions of an entry.
    pub fn list_entry_versions(&self, params: &DataStoreListEntryVersions) -> (r: Request)
        ensures
            r.method == HttpMethod::Get,
            r.url@ == ds_url(self.universe_id, "/datastore/entries/entry/versions"@),
            pairs(r.headers@) == key_headers(self.api_key@),
            pairs(r.query@) == entry_query(params.name@, params.scope, params.key@) + seq![
                ("limit"@, decimal(params.limit.0 as nat)),
                ("sortOrder"@, params.sort_order@),
            ] + opt_pair("startTime"@, params.start_time) + opt_pair("endTime"@, params.end_time)
                + opt_pair("cursor"@, params.cursor),
    {
        let scope = clone_opt(&params.scope);
        let r = datastore::list_entry_versions(&ListEntryVersionsParams {
            api_key: self.api_key.clone(),
            universe_id: self.universe_id,
            datastore_name: params.name.clone(),
            scope,
            key: params.key.clone(),
            start_time: clone_opt(&params.start_time),
            end_time: clone_opt(&params.end_time),
            sort_order: params.sort_order.clone(),
            limit: params.limit,
            cursor: clone_opt(&params.cursor),
        });
        assert(entry_query(params.name@, scope, params.key@) =~= entry_query(params.name@, params.scope, params.key@));
        r
    }

    /// The request that reads one version of an entry.
    pub fn get_entry_version(&self, params: &DataStoreGetEntryVersion) -> (r: Request)
        ensures
            r.method == HttpMethod::Get,
            r.url@ == ds_url(self.universe_id, "/datastore/entries/entry/versions/version"@),
            pairs(r.query@) == entry_query(params.name@, params.scope, params.key@).push(("versionId"@, params.version_id@)),
    {
        let scope = clone_opt(&params.scope);
        let r = datastore::get_entry_version(&GetEntryVersionParams {
            api_key: self.api_key.clone(),
            universe_id: self.universe_id,
            datastore_name: params.name.clone(),
            scope,
            key: params.key.clone(),
            version_id: params.version_id.clone(),
        });
        assert(entry_query(params.name@, scope, params.key@) =~= entry_query(params.name@, params.scope, params.key@));
        r
    }
}

impl RbxOrderedDataStore {
    /// The request that lists the entries of an OrderedDataStore.
    pub fn list_entries(&self, params: &OrderedDataStoreListEntries) -> (r: Request)
        ensures
            r.method == HttpMethod::Get,
            r.url@ == ods_url(self.universe_id, params.name@, params.scope, "/entries"@),
            pairs(r.headers@) == key_headers(self.api_key@),
            pairs(r.query@) == (match params.max_page_size {
                Some(p) => seq![("max_page_size"@, decimal(p.0 as nat))],
                None => seq![],
            }) + opt_pair("page_token"@, params.page_token) + opt_pair("order_by"@, params.order_by)
                + opt_pair("filter"@, params.filter),
    {
        let scope = clone_opt(&params.scope);
        let r = ordered_datastore::list_entries(&OrderedListEntriesParams {
            api_key: self.api_key.clone(),
            universe_id: self.universe_id,
            ordered_datastore_name: params.name.clone(),
            scope,
            max_page_size: params.max_page_size,
            page_token: clone_opt(&params.page_token),
            order_by: clone_opt(&params.order_by),
            filter: clone_opt(&params.filter),
        });
        assert(scope_or_global(scope) == scope_or_global(params.scope));
        r
    }

    /// The request that creates an entry.
    pub fn create_entry(&self, params: &OrderedDataStoreCreateEntry) -> (r: Request)
        ensures
            r.method == HttpMethod::Post,
            r.url@ == ods_url(self.universe_id, params.name@, params.scope, "/entries"@),
            r.body matches RequestBody::Text(b) && b@ == int_object("value"@, params.value),
    {
        let scope = clone_opt(&params.scope);
        let r = ordered_datastore::create_entry(&OrderedCreateEntryParams {
            api_key: self.api_key.clone(),
            universe_id: self.universe_id,
            ordered_datastore_name: params.name.clone(),
            scope,
            id: params.id.clone(),
            value: params.value,
        });
        assert(scope_or_global(scope) == scope_or_global(params.scope));
        r
    }

    /// The request that reads an entry.
    pub fn get_entry(&self, params: &OrderedDataStoreEntry) -> (r: Request)
        ensures
            r.method == HttpMethod::Get,
            r.url@ == ods_url(self.universe_id, params.name@, params.scope, entry_endpoint(params.id@)),
    {
        let scope = clone_opt(&params.scope);
        let r = ordered_datastore::get_entry(&OrderedEntryParams {
            api_key: self.api_key.clone(),
            universe_id: self.universe_id,
            ordered_datastore_name: params.name.clone(),
            scope,
            id: params.id.clone(),
        });
        assert(scope_or_global(scope) == scope_or_global(params.scope));
        r
    }

    /// The request that deletes an entry.
    pub fn delete_entry(&self, params: &OrderedDataStoreEntry) -> (r: Request)
        ensures
            r.method == HttpMethod::Delete,
            r.url@ == ods_url(self.universe_id, params.name@, params.scope, entry_endpoint(params.id@)),
    {
        let scope = clone_opt(&params.scope);
        let r = ordered_datastore::delete_entry(&OrderedEntryParams {
            api_key: self.api_key.clone(),
            universe_id: self.universe_id,
            ordered_datastore_name: params.name.clone(),
            scope,
            id: params.id.clone(),
        });
        assert(scope_or_global(scope) == scope_or_global(params.scope));
        r
    }

    /// The request that sets the value of an entry.
    pub fn update_entry(&self, params: &OrderedDataStoreUpdateEntry) -> (r: Request)
        ensures
            r.method == HttpMethod::Patch,
            r.url@ == ods_url(self.universe_id, params.name@, params.scope, entry_endpoint(params.id@)),
            r.body matches RequestBody::Text(b) && b@ == int_object("value"@, params.value),
    {
        let scope = clone_opt(&params.scope);
        let r = ordered_datastore::update_entry(&OrderedUpdateEntryParams {
            api_key: self.api_key.clone(),
            universe_id: self.universe_id,
            ordered_datastore_name: params.name.clone(),
            scope,
            id: params.id.clone(),
            value: params.value,
            allow_missing: params.allow_missing,
        });
        assert(scope_or_global(scope) == scope_or_global(params.scope));
        r
    }

    /// The request that increments an entry.
    pub fn increment_entry(&self, params: &OrderedDataStoreIncrementEntry) -> (r: Request)
        ensures
            r.method == HttpMethod::Post,
            r.url@ == ods_url(self.universe_id, params.name@, params.scope, entry_endpoint(params.id@) + ":increment"@),
            r.body matches RequestBody::Text(b) && b@ == int_object("amount"@, params.increment),
    {
        let scope = clone_opt(&params.scope);
        let r = ordered_datastore::increment_entry(&OrderedIncrementEntryParams {
            api_key: self.api_key.clone(),
            universe_id: self.universe_id,
            ordered_datastore_name: params.name.clone(),
            scope,
            id: params.id.clone(),
            increment: params.increment,
        });
        assert(scope_or_global(scope) == scope_or_global(params.scope));
        r
    }
}

impl RbxAssets {
    /// The request that creates an asset from a file.
    pub fn create(&self, params: &CreateAsset) -> (r: Result<Request, Error>)
        ensures
            match assets::file_name_of(params.filepath@) {
                None => r matches Err(e) && e is FileLoadError,
                Some(name) => r matches Ok(q) && q.method == HttpMethod::Post && q.url@ == assets_url(None)
                    && is_upload(q.body, creation_json(params.asset), name, mime_of(params.asset.asset_type)),
            },
    {
        assets::create_asset(&CreateAssetParams {
            api_key: self.api_key.clone(),
            asset: params.asset.duplicate(),
            filepath: params.filepath.clone(),
        })
    }

    /// The request that creates an asset from bytes in memory.
    pub fn create_with_contents<'a>(&self, params: &CreateAssetWithContents<'a>) -> (r: Request)
        ensures
            r.method == HttpMethod::Post,
            r.url@ == assets_url(None),
            is_upload(r.body, creation_json(params.asset), params.asset.display_name@, mime_of(params.asset.asset_type)),
    {
        assets::create_asset_with_contents(&CreateAssetParamsWithContents {
            api_key: self.api_key.clone(),
            asset: params.asset.duplicate(),
            contents: params.contents,
        })
    }

    /// The request that uploads a new revision of an asset.
    pub fn update(&self, params: &UpdateAsset) -> (r: Result<Request, Error>)
        ensures
            match assets::file_name_of(params.filepath@) {
                None => r matches Err(e) && e is FileLoadError,
                Some(name) => r matches Ok(q) && q.method == HttpMethod::Patch && q.url@ == assets_url(Some(params.asset_id))
                    && is_upload(q.body, assets::asset_id_json(params.asset_id), name, mime_of(params.asset_type)),
            },
    {
        assets::update_asset(&UpdateAssetParams {
            api_key: self.api_key.clone(),
            asset_id: params.asset_id,
            asset_type: params.asset_type,
            filepath: params.filepath.clone(),
        })
    }

    /// The request that reads an asset operation.
    pub fn get(&self, params: &GetAsset) -> (r: Request)
        ensures
            r.method == HttpMethod::Get,
            r.url@ == "https://apis.roblox.com/assets/v1/operations/"@ + params.operation_id@,
    {
        assets::get_operation(&GetAssetOperationParams {
            api_key: self.api_key.clone(),
            operation_id: params.operation_id.clone(),
        })
    }
}

impl RbxCloud {
    /// A client that uses `api_key`.
    pub fn new(api_key: &str) -> (r: RbxCloud)
        ensures
            r.api_key@ == api_key@,
    {
        RbxCloud { api_key: String::from_str(api_key) }
    }

    /// Asset operations.
    pub fn assets(&self) -> (r: RbxAssets)
        ensures
            r.api_key@ == self.api_key@,
    {
        RbxAssets { api_key: self.api_key.clone() }
    }

    /// Publishing to a place of an experience.
    pub fn experience(&self, universe_id: UniverseId, place_id: PlaceId) -> (r: RbxExperience)
        ensures
            r.api_key@ == self.api_key@,
            r.universe_id == universe_id,
            r.place_id == place_id,
    {
        RbxExperience { api_key: self.api_key.clone(), universe_id, place_id }
    }

    /// Messaging on a topic of an experience.
    pub fn messaging(&self, universe_id: UniverseId, topic: &str) -> (r: RbxMessaging)
        ensures
            r.api_key@ == self.api_key@,
            r.universe_id == universe_id,
            r.topic@ == topic@,
    {
        RbxMessaging { api_key: self.api_key.clone(), universe_id, topic: String::from_str(topic) }
    }

    /// The DataStores of an experience.
    pub fn datastore(&self, universe_id: UniverseId) -> (r: RbxDataStore)
        ensures
            r.api_key@ == self.api_key@,
            r.universe_id == universe_id,
    {
        RbxDataStore { api_key: self.api_key.clone(), universe_id }
    }

    /// The OrderedDataStores of an experience.
    pub fn ordered_datastore(&self, universe_id: UniverseId) -> (r: RbxOrderedDataStore)
        ensures
            r.api_key@ == self.api_key@,
            r.universe_id == universe_id,
    {
        RbxOrderedDataStore { api_key: self.api_key.clone(), universe_id }
    }
}

} // verus!
