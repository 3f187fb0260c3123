use rbxcloud::error::Error;
use rbxcloud::v1::assets::{AssetCreator, AssetInfo, AssetOperation, AssetTypeCategory};
use rbxcloud::v1::datastore::{ListEntriesResponse, ListEntryVersionsResponse};
use rbxcloud::v1::ordered_datastore::OrderedListEntriesResponse;
use rbxcloud::v2::group::GroupRole;
use rbxcloud::v2::inventory::{InventoryItemAssetType, InventoryItems};
use rbxcloud::v2::luau_execution::{
    LuauExecutionSessionTask, LuauExecutionSessionTaskLog, LuauExecutionState, NewLuauExecutionSessionTask,
};
use rbxcloud::v2::place::PlaceInfo;
use rbxcloud::v2::universe::{UniverseAgeRating, UniverseInfo, UniverseVisibility};
use rbxcloud::v2::user_restriction::{UserRestriction, UserRestrictionLog, UserRestrictionModerator};

#[test]
fn list_entries_keeps_cursor() {
    let body = r#"{"keys":[{"scope":"global","key":"a"},{"scope":"s","key":"b"}],"nextPageCursor":"c1=="}"#;
    let r = ListEntriesResponse::decode(body).unwrap();
    assert_eq!(r.keys.len(), 2);
    assert_eq!(r.keys[1].scope, "s");
    assert_eq!(r.keys[1].key, "b");
    assert_eq!(r.next_page_cursor.as_deref(), Some("c1=="));
    let last = ListEntriesResponse::decode(r#"{"keys":[]}"#).unwrap();
    assert!(last.next_page_cursor.is_none());
    assert!(matches!(ListEntriesResponse::decode(r#"{"keys":[{"scope":1}]}"#), Err(Error::SerdeJsonError(_))));
}

#[test]
fn entry_versions_decode() {
    let body = r#"{"versions":[{"version":"v","deleted":true,"contentLength":3,"createdTime":"t","objectCreatedTime":"o"}],"nextPageCursor":null}"#;
    let r = ListEntryVersionsResponse::decode(body).unwrap();
    assert!(r.versions[0].deleted);
    assert_eq!(r.versions[0].content_length, 3);
    assert!(r.next_page_cursor.is_none());
}

#[test]
fn ordered_entries_decode() {
    let body = r#"{"entries":[{"path":"p","id":"a","value":-7}],"nextPageToken":"n"}"#;
    let r = OrderedListEntriesResponse::decode(body).unwrap();
    assert_eq!(r.entries[0].value, -7);
    assert_eq!(r.next_page_token.as_deref(), Some("n"));
}

#[test]
fn asset_operation_decode() {
    let body = r#"{"path":"operations/1","done":false,"metadata":{"@type":"type.googleapis.com/x"}}"#;
    let r = AssetOperation::decode(body).unwrap();
    assert_eq!(r.path.as_deref(), Some("operations/1"));
    assert_eq!(r.done, Some(false));
    assert_eq!(r.metadata.unwrap().message_type, "type.googleapis.com/x");
    assert!(r.error.is_none());
    assert!(matches!(AssetOperation::decode(r#"{"metadata":{}}"#), Err(Error::SerdeJsonError(_))));
}

#[test]
fn asset_info_decode() {
    let body = r#"{"assetType":"Decal","assetId":"5","creationContext":{"creator":{"groupId":"9"},"expectedPrice":0},"description":"d","displayName":"n","path":"assets/5","revisionId":"1","revisionCreateTime":"t","moderationResult":{"moderationState":"Approved"},"state":"Active"}"#;
    let r = AssetInfo::decode(body).unwrap();
    assert_eq!(r.asset_type, AssetTypeCategory::Decal);
    assert!(matches!(r.creation_context.creator, AssetCreator::Group(ref g) if g.group_id == "9"));
    assert_eq!(r.creation_context.expected_price, Some(0));
    assert_eq!(r.moderation_result.moderation_state, "Approved");
}

#[test]
fn group_role_decode() {
    let body = r#"{"path":"groups/1/roles/2","id":"2","displayName":"Member","rank":1,"memberCount":10}"#;
    let r = GroupRole::decode(body).unwrap();
    assert_eq!(r.rank, 1);
    assert_eq!(r.member_count, Some(10));
    assert!(r.permissions.is_none());
    assert!(r.description.is_none());
    assert!(matches!(GroupRole::decode(r#"{"path":"p","id":"2","displayName":"M","rank":4294967296}"#), Err(Error::SerdeJsonError(_))));
}

#[test]
fn place_and_universe_decode() {
    let p = PlaceInfo::decode(r#"{"path":"p","createTime":"c","updateTime":"u","displayName":"n","description":"d","serverSize":50}"#).unwrap();
    assert_eq!(p.server_size, 50);
    let u = UniverseInfo::decode(r#"{"path":"universes/1","createTime":"c","updateTime":"u","displayName":"n","description":"d","visibility":"PUBLIC","voiceChatEnabled":false,"ageRating":"AGE_RATING_13_PLUS","privateServerPriceRobux":10,"desktopEnabled":true,"mobileEnabled":true,"tabletEnabled":true,"consoleEnabled":false,"vrEnabled":false}"#);
    assert!(matches!(u, Err(Error::SerdeJsonError(_))));
    let u = UniverseInfo::decode(r#"{"path":"universes/1","createTime":"c","updateTime":"u","displayName":"n","description":"d","visibility":"PUBLIC","voiceChatEnabled":false,"ageRating":"AGE_RATING13_PLUS","privateServerPriceRobux":10,"desktopEnabled":true,"mobileEnabled":true,"tabletEnabled":true,"consoleEnabled":false,"vrEnabled":false,"discordSocialLink":{"title":"D","uri":"https://d"}}"#).unwrap();
    assert_eq!(u.visibility, UniverseVisibility::Public);
    assert_eq!(u.age_rating, UniverseAgeRating::AgeRating13Plus);
    assert_eq!(u.discord_social_link.unwrap().uri, "https://d");
    assert!(u.user.is_none());
}

#[test]
fn restriction_decode() {
    let r = UserRestriction::decode(r#"{"path":"p","user":"users/1","gameJoinRestriction":{"active":true,"startTime":"2024-01-01T00:00:00Z","duration":"60s","privateReason":"x","displayReason":"y","excludeAltAccounts":false,"inherited":false}}"#).unwrap();
    assert!(r.game_join_restriction.active);
    assert_eq!(r.game_join_restriction.duration.as_deref(), Some("60s"));
    let l = UserRestrictionLog::decode(r#"{"user":"u","place":"p","createTime":"c","active":true,"startTime":"s","duration":"d","privateReason":"a","displayReason":"b","excludeAltAccounts":false,"moderator":{"gameServerScript":{}}}"#).unwrap();
    assert!(matches!(l.moderator, UserRestrictionModerator::GameServerScript(_)));
}

#[test]
fn luau_and_inventory_decode() {
    let t = NewLuauExecutionSessionTask::decode(r#"{"path":"p","user":"u","state":"QUEUED","script":"print(1)"}"#).unwrap();
    assert_eq!(t.state, LuauExecutionState::Queued);
    let log = LuauExecutionSessionTaskLog::decode(r#"{"path":"p","messages":["a","b"],"structuredMessages":[]}"#).unwrap();
    assert_eq!(log.messages, vec!["a".to_string(), "b".to_string()]);
    let inv = InventoryItems::decode(r#"{"inventoryItems":[{"path":"p","assetDetails":{"assetId":"1","instanceId":"2","inventoryItemAssetType":"CLASSIC_TSHIRT"}}],"nextPageToken":""}"#).unwrap();
    let d = inv.inventory_items[0].asset_details.as_ref().unwrap();
    assert_eq!(d.inventory_item_asset_type, InventoryItemAssetType::ClassicTshirt);
    assert!(d.collectible_details.is_none());
}

#[test]
fn luau_task_results_kept_as_json() {
    let body = r#"{"path":"p","createTime":"c","updateTime":"u","user":"x","state":"COMPLETE","output":{"results":[1,"two",{"a":null}]}}"#;
    let t = LuauExecutionSessionTask::decode(body).unwrap();
    assert_eq!(t.state, LuauExecutionState::Complete);
    assert_eq!(t.output.results, vec!["1".to_string(), "\"two\"".to_string(), "{\"a\":null}".to_string()]);
    assert!(matches!(LuauExecutionSessionTask::decode(r#"{"path":"p"}"#), Err(Error::SerdeJsonError(_))));
}
