use rbxcloud::error::Error;
use rbxcloud::http::{HttpMethod, RequestBody};
use rbxcloud::types::{ReturnLimit, RobloxUserId, UniverseId};
use rbxcloud::util::get_checksum_base64;
use rbxcloud::v1::datastore::{
    build_ids_csv, get_entry, handle_res, handle_res_ok, list_datastores, list_entries, set_entry,
    GetEntryParams, ListDataStoresParams, ListEntriesParams, SetEntryParams, SetEntryResponse,
};
use rbxcloud::v1::ds_error::DataStoreErrorCode;
use rbxcloud::v1::ordered_datastore::{create_entry, get_entry as ordered_get_entry, OrderedCreateEntryParams, OrderedEntryParams};
use rbxcloud::v1::{DataStoreGetEntry, RbxCloud};

fn ds_pairs(v: &[(String, String)]) -> Vec<(&str, &str)> {
    v.iter().map(|(a, b)| (a.as_str(), b.as_str())).collect()
}

fn set_params(data: &str, scope: Option<String>) -> SetEntryParams {
    SetEntryParams {
        api_key: "KEY".to_string(),
        universe_id: UniverseId(123),
        datastore_name: "D".to_string(),
        scope,
        key: "K".to_string(),
        match_version: None,
        exclusive_create: None,
        roblox_entry_user_ids: None,
        roblox_entry_attributes: None,
        data: data.to_string(),
    }
}

#[test]
fn set_entry_request_scenario() {
    let r = set_entry(&set_params("{\"x\":1}", None));
    assert_eq!(r.method, HttpMethod::Post);
    assert_eq!(
        r.url,
        "https://apis.roblox.com/datastores/v1/universes/123/standard-datastores/datastore/entries/entry"
    );
    assert_eq!(
        ds_pairs(&r.query),
        vec![("datastoreName", "D"), ("scope", "global"), ("entryKey", "K")]
    );
    assert_eq!(
        ds_pairs(&r.headers),
        vec![
            ("x-api-key", "KEY"),
            ("Content-Type", "application/json"),
            ("roblox-entry-userids", "[]"),
            ("roblox-entry-attributes", "{}"),
            ("content-md5", "rD70jKoI+j7V4CXaae3GRQ=="),
        ]
    );
    match r.body {
        RequestBody::Text(b) => assert_eq!(b, "{\"x\":1}"),
        _ => panic!("expected a text body"),
    }
}

#[test]
fn checksum_matches_body() {
    assert_eq!(get_checksum_base64(&"hello".to_string()), "XUFAKrxLKna5cZ2REBfFkg==");
    let empty = get_checksum_base64(&String::new());
    assert_eq!(empty.len(), 24);
    assert!(empty.ends_with("=="));
    let r = set_entry(&set_params("hello", Some("s".to_string())));
    let body = match &r.body {
        RequestBody::Text(b) => b.clone(),
        _ => panic!("expected a text body"),
    };
    assert_eq!(r.headers[4].1, get_checksum_base64(&body));
    assert_eq!(ds_pairs(&r.query)[1], ("scope", "s"));
}

#[test]
fn set_entry_optional_headers_and_query() {
    let mut p = set_params("1", None);
    p.roblox_entry_user_ids = Some(vec![RobloxUserId(1), RobloxUserId(22), RobloxUserId(333)]);
    p.roblox_entry_attributes = Some("{\"a\":1}".to_string());
    p.match_version = Some("v7".to_string());
    p.exclusive_create = Some(true);
    let r = set_entry(&p);
    assert_eq!(r.headers[2].1, "[1,22,333]");
    assert_eq!(r.headers[3].1, "{\"a\":1}");
    assert_eq!(
        ds_pairs(&r.query)[3..].to_vec(),
        vec![("matchVersion", "v7"), ("exclusiveCreate", "true")]
    );
}

#[test]
fn ids_csv() {
    assert_eq!(build_ids_csv(&None), "");
    assert_eq!(build_ids_csv(&Some(vec![])), "");
    assert_eq!(build_ids_csv(&Some(vec![RobloxUserId(0), RobloxUserId(18446744073709551615)])), "0,18446744073709551615");
}

#[test]
fn scope_defaults_to_global() {
    let r = get_entry(&GetEntryParams {
        api_key: "k".to_string(),
        universe_id: UniverseId(1),
        datastore_name: "n".to_string(),
        scope: None,
        key: "e".to_string(),
    });
    assert_eq!(ds_pairs(&r.query), vec![("datastoreName", "n"), ("scope", "global"), ("entryKey", "e")]);
    let l = list_entries(&ListEntriesParams {
        api_key: "k".to_string(),
        universe_id: UniverseId(1),
        datastore_name: "n".to_string(),
        scope: None,
        all_scopes: false,
        prefix: Some("p".to_string()),
        limit: ReturnLimit(10),
        cursor: None,
    });
    assert_eq!(
        ds_pairs(&l.query),
        vec![("datastoreName", "n"), ("limit", "10"), ("AllScopes", "false"), ("scope", "global"), ("prefix", "p")]
    );
    let o = ordered_get_entry(&OrderedEntryParams {
        api_key: "k".to_string(),
        universe_id: UniverseId(5),
        ordered_datastore_name: "Board".to_string(),
        scope: None,
        id: "e1".to_string(),
    });
    assert_eq!(
        o.url,
        "https://apis.roblox.com/ordered-data-stores/v1/universes/5/orderedDataStores/Board/scopes/global/entries/e1"
    );
}

#[test]
fn list_datastores_passes_cursor_through() {
    let r = list_datastores(&ListDataStoresParams {
        api_key: "k".to_string(),
        universe_id: UniverseId(9),
        prefix: None,
        limit: ReturnLimit(5),
        cursor: Some("abc==/+".to_string()),
    });
    assert_eq!(r.url, "https://apis.roblox.com/datastores/v1/universes/9/standard-datastores");
    assert_eq!(ds_pairs(&r.query), vec![("limit", "5"), ("cursor", "abc==/+")]);
}

#[test]
fn repeated_get_entry_builds_identical_requests() {
    let cloud = RbxCloud::new("key");
    let ds = cloud.datastore(UniverseId(77));
    let p = DataStoreGetEntry { name: "D".to_string(), scope: None, key: "K".to_string() };
    let a = ds.get_entry(&p);
    let b = ds.get_entry(&p);
    assert_eq!(a.url, b.url);
    assert_eq!(a.headers, b.headers);
    assert_eq!(a.query, b.query);
    assert_eq!(a.method, b.method);
}

#[test]
fn set_entry_response_decodes() {
    let body = r#"{"version":"v1","deleted":false,"content_length":8,"created_time":"2024-01-01T00:00:00Z","object_created_time":"2024-01-01T00:00:00Z"}"#;
    let ok = handle_res(200, body.to_string()).unwrap();
    let v = SetEntryResponse::decode(&ok).unwrap();
    assert_eq!(v.version, "v1");
    let camel = r#"{"version":"v2","deleted":true,"contentLength":8,"createdTime":"c","objectCreatedTime":"o"}"#;
    let w = SetEntryResponse::decode(camel).unwrap();
    assert_eq!(w.version, "v2");
    assert_eq!(w.deleted, Some(true));
    assert_eq!(w.content_length, Some(8));
    assert_eq!(w.created_time.as_deref(), Some("c"));
    assert!(matches!(SetEntryResponse::decode(r#"{"deleted":false}"#), Err(Error::SerdeJsonError(_))));
}

#[test]
fn datastore_error_payload_is_kept() {
    let body = "{\"error\":\"NOT_FOUND\",\"message\":\"Entry not found.\",\"errorDetails\":[{\"errorDetailType\":\"DatastoreErrorInfo\",\"datastoreErrorCode\":\"EntryNotFound\"},{\"errorDetailType\":\"DatastoreErrorInfo\",\"datastoreErrorCode\":\"ChecksumMismatch\"}]}";
    match handle_res(404, body.to_string()) {
        Err(Error::DataStoreError(e)) => {
            assert_eq!(e.error, "NOT_FOUND");
            assert_eq!(e.message, "Entry not found.");
            assert_eq!(e.error_details.len(), 2);
            assert_eq!(e.error_details[0].datastore_error_code, DataStoreErrorCode::EntryNotFound);
            assert_eq!(e.error_details[1].datastore_error_code, DataStoreErrorCode::ChecksumMismatch);
            assert_eq!(e.to_string(), "[EntryNotFound, ChecksumMismatch] - Entry not found.");
        }
        other => panic!("unexpected {other:?}"),
    }
}

#[test]
fn datastore_error_unparsable_is_json_error() {
    assert!(matches!(handle_res(500, "oops".to_string()), Err(Error::SerdeJsonError(_))));
    let unknown = "{\"error\":\"X\",\"message\":\"m\",\"errorDetails\":[{\"errorDetailType\":\"t\",\"datastoreErrorCode\":\"NoSuchCode\"}]}";
    assert!(matches!(handle_res(400, unknown.to_string()), Err(Error::SerdeJsonError(_))));
    assert!(matches!(handle_res_ok(204, String::new()), Ok(())));
}

#[test]
fn ordered_create_body() {
    let r = create_entry(&OrderedCreateEntryParams {
        api_key: "k".to_string(),
        universe_id: UniverseId(5),
        ordered_datastore_name: "Board".to_string(),
        scope: Some("s".to_string()),
        id: "e1".to_string(),
        value: -42,
    });
    assert_eq!(ds_pairs(&r.query), vec![("id", "e1")]);
    match r.body {
        RequestBody::Text(b) => assert_eq!(b, "{\"value\":-42}"),
        _ => panic!("expected a text body"),
    }
    assert!(r.url.ends_with("/scopes/s/entries"));
}
