use rbxcloud::error::Error;
use rbxcloud::http::{HttpMethod, RequestBody};
use rbxcloud::types::{GroupId, PlaceId, RobloxUserId, UniverseId};
use rbxcloud::v2::http_err::{handle_http_err, handle_res, handle_res_ok};
use rbxcloud::v2::notification::{
    JoinExperience, Notification, NotificationPayload, NotificationSource, NotificationType, Parameter,
};
use rbxcloud::v2::place::UpdatePlaceInfo;
use rbxcloud::v2::subscription::SubscriptionView;
use rbxcloud::v2::universe::{UniverseAgeRating, UniverseSocialLink, UniverseVisibility, UpdateUniverseInfo};
use rbxcloud::v2::user::{UserThumbnailFormat, UserThumbnailShape, UserThumbnailSize};
use rbxcloud::v2::user_restriction::{update_user_restriction_at, UpdateUserRestrictionParams};
use rbxcloud::v2::{format_duration, Client, UserRestrictionParams};

fn v2_pairs(v: &[(String, String)]) -> Vec<(&str, &str)> {
    v.iter().map(|(a, b)| (a.as_str(), b.as_str())).collect()
}

fn body_text(b: &RequestBody) -> String {
    match b {
        RequestBody::Text(t) => t.clone(),
        _ => panic!("expected a text body"),
    }
}

fn empty_universe_info() -> UpdateUniverseInfo {
    UpdateUniverseInfo {
        path: None,
        create_time: None,
        update_time: None,
        display_name: None,
        description: None,
        user: None,
        group: None,
        visibility: None,
        facebook_social_link: None,
        twitter_social_link: None,
        youtube_social_link: None,
        twitch_social_link: None,
        discord_social_link: None,
        roblox_group_social_link: None,
        guilded_social_link: None,
        voice_chat_enabled: None,
        age_rating: None,
        private_server_price_robux: None,
        desktop_enabled: None,
        mobile_enabled: None,
        tablet_enabled: None,
        console_enabled: None,
        vr_enabled: None,
    }
}

#[test]
fn v2_status_messages() {
    let table = [
        (400, "invalid argument"),
        (403, "permission denied"),
        (404, "not found"),
        (409, "aborted"),
        (429, "resource exhausted"),
        (499, "cancelled"),
        (500, "internal server error"),
        (501, "not implemented"),
        (503, "unavailable"),
        (418, "unknown error"),
    ];
    for (code, msg) in table {
        match handle_http_err::<()>(code) {
            Err(Error::HttpStatusError { code: c, msg: m }) => {
                assert_eq!(c, code);
                assert_eq!(m, msg);
            }
            other => panic!("unexpected {other:?}"),
        }
    }
    assert_eq!(handle_res(200, "{}".to_string()).unwrap(), "{}");
    assert!(handle_res_ok(204).is_ok());
}

#[test]
fn get_user_restriction_not_found() {
    let client = Client::new("key").user_restriction(UniverseId(42));
    let r = client.get_user_restriction(RobloxUserId(123), None);
    assert_eq!(r.method, HttpMethod::Get);
    assert_eq!(r.url, "https://apis.roblox.com/cloud/v2/universes/42/user-restrictions/123");
    match handle_res(404, String::new()) {
        Err(e) => {
            assert!(matches!(&e, Error::HttpStatusError { code: 404, msg } if msg == "not found"));
            assert_eq!(e.to_string(), "http 404: not found");
        }
        Ok(_) => panic!("expected an error"),
    }
    let p = client.get_user_restriction(RobloxUserId(123), Some(PlaceId(7)));
    assert_eq!(p.url, "https://apis.roblox.com/cloud/v2/universes/42/places/7/user-restrictions/123");
}

#[test]
fn update_universe_display_name_only() {
    let mut info = empty_universe_info();
    info.display_name = Some("New Name".to_string());
    let r = Client::new("key").universe(UniverseId(9)).update("displayName".to_string(), info);
    assert_eq!(r.method, HttpMethod::Patch);
    assert_eq!(r.url, "https://apis.roblox.com/cloud/v2/universes/9");
    assert_eq!(v2_pairs(&r.query), vec![("updateMask", "displayName")]);
    assert_eq!(body_text(&r.body), "{\"displayName\":\"New Name\"}");
    assert_eq!(v2_pairs(&r.headers), vec![("x-api-key", "key"), ("Content-Type", "application/json")]);
}

#[test]
fn update_universe_several_fields() {
    let mut info = empty_universe_info();
    info.visibility = Some(UniverseVisibility::Private);
    info.age_rating = Some(UniverseAgeRating::AgeRating13Plus);
    info.private_server_price_robux = Some(25);
    info.vr_enabled = Some(false);
    info.twitch_social_link = Some(UniverseSocialLink { title: "t\"w".to_string(), uri: "https://x".to_string() });
    assert_eq!(
        info.to_json(),
        "{\"visibility\":\"PRIVATE\",\"twitchSocialLink\":{\"title\":\"t\\\"w\",\"uri\":\"https://x\"},\"ageRating\":\"AGE_RATING13_PLUS\",\"privateServerPriceRobux\":25,\"vrEnabled\":false}"
    );
    assert_eq!(empty_universe_info().to_json(), "{}");
}

#[test]
fn update_place_body() {
    let info = UpdatePlaceInfo {
        path: None,
        create_time: None,
        update_time: None,
        display_name: None,
        description: Some("d".to_string()),
        server_size: Some(-3),
    };
    let r = Client::new("k").place(UniverseId(1), PlaceId(2)).update("description,serverSize".to_string(), info);
    assert_eq!(r.url, "https://apis.roblox.com/cloud/v2/universes/1/places/2");
    assert_eq!(body_text(&r.body), "{\"description\":\"d\",\"serverSize\":-3}");
}

#[test]
fn restart_servers_request() {
    let r = Client::new("k").universe(UniverseId(3)).restart_servers();
    assert_eq!(r.method, HttpMethod::Post);
    assert_eq!(r.url, "https://apis.roblox.com/cloud/v2/universes/3:restartServers");
    assert_eq!(body_text(&r.body), "{}");
}

#[test]
fn group_requests() {
    let g = Client::new("k").group(GroupId(55));
    assert_eq!(g.get_info().url, "https://apis.roblox.com/cloud/v2/groups/55");
    assert_eq!(g.get_shout().url, "https://apis.roblox.com/cloud/v2/groups/55/shout");
    let r = g.list_roles(Some(10), Some("tok".to_string()));
    assert_eq!(r.url, "https://apis.roblox.com/cloud/v2/groups/55/roles");
    assert_eq!(v2_pairs(&r.query), vec![("maxPageSize", "10"), ("pageToken", "tok")]);
    let m = g.list_memberships(None, Some("f".to_string()), None);
    assert_eq!(v2_pairs(&m.query), vec![("filter", "f")]);
}

#[test]
fn inventory_and_user_requests() {
    let c = Client::new("k");
    let r = c.inventory().list_inventory_items(RobloxUserId(8), Some(2), None, Some("assetIds=1".to_string()));
    assert_eq!(r.url, "https://apis.roblox.com/cloud/v2/users/8/inventory-items");
    assert_eq!(v2_pairs(&r.query), vec![("maxPageSize", "2"), ("filter", "assetIds=1")]);
    let u = c.user().get_user(RobloxUserId(8));
    assert_eq!(u.url, "https://apis.roblox.com/cloud/v2/users/8");
    let t = c.user().generate_thumbnail(
        RobloxUserId(8),
        Some(UserThumbnailSize::Size420x420),
        Some(UserThumbnailFormat::Png),
        Some(UserThumbnailShape::Round),
    );
    assert_eq!(t.url, "https://apis.roblox.com/cloud/v2/users/8:generateThumbnail");
    assert_eq!(v2_pairs(&t.query), vec![("size", "\"420\""), ("format", "\"PNG\""), ("shape", "\"ROUND\"")]);
}

#[test]
fn subscription_request() {
    let r = Client::new("k").subscription().get(UniverseId(4), "prod".to_string(), "sub".to_string(), Some(SubscriptionView::Full));
    assert_eq!(r.url, "https://apis.roblox.com/cloud/v2/universes/4/subscription-products/prod");
    assert_eq!(v2_pairs(&r.query), vec![("view", "\"FULL\"")]);
}

#[test]
fn luau_requests() {
    let l = Client::new("k").luau(UniverseId(1), PlaceId(2), Some("3".to_string()));
    let r = l.create_task("print(1)".to_string(), Some("10s".to_string()));
    assert_eq!(r.url, "https://apis.roblox.com/cloud/v2/universes/1/places/2/versions/3/luau-execution-session-tasks");
    assert_eq!(body_text(&r.body), "{\"script\":\"print(1)\",\"timeout\":\"10s\"}");
    let n = Client::new("k").luau(UniverseId(1), PlaceId(2), None);
    let t = n.get_task("s".to_string(), "t".to_string());
    assert_eq!(t.url, "https://apis.roblox.com/cloud/v2/universes/1/places/2/luau-execution-sessions/s/tasks/t");
    let g = n.get_logs("s".to_string(), "t".to_string(), rbxcloud::v2::luau_execution::LuauExecutionTaskLogView::Flat, None, None);
    assert_eq!(g.url, "https://apis.roblox.com/cloud/v2/universes/1/places/2/luau-execution-sessions/s/tasks/t/logs");
    assert!(g.query.is_empty());
}

#[test]
fn notification_body() {
    let n = Notification {
        source: NotificationSource { universe: "universes/1".to_string() },
        payload: NotificationPayload {
            message_id: "m".to_string(),
            notification_type: NotificationType::Moment,
            parameters: Some(vec![(
                "name".to_string(),
                Parameter { string_value: Some("Bob".to_string()), int64_value: None },
            )]),
            join_experience: Some(JoinExperience { launch_data: "ld".to_string() }),
            analytics_data: None,
        },
    };
    let r = Client::new("k").notification(UniverseId(1)).send(RobloxUserId(5), n);
    assert_eq!(r.url, "https://apis.roblox.com/cloud/v2/users/5/notifications");
    assert_eq!(
        body_text(&r.body),
        "{\"source\":{\"universe\":\"universes/1\"},\"payload\":{\"messageId\":\"m\",\"type\":\"Moment\",\"parameters\":{\"name\":{\"stringValue\":\"Bob\",\"int64Value\":null}},\"joinExperience\":{\"launchData\":\"ld\"},\"analyticsData\":null}}"
    );
    assert_eq!(NotificationType::Moment.to_string(), "\"MOMENT\"");
}

#[test]
fn user_restriction_update_request() {
    let p = UpdateUserRestrictionParams {
        api_key: "k".to_string(),
        universe_id: UniverseId(1),
        place_id: None,
        user_id: RobloxUserId(2),
        idempotency_key: Some("abc".to_string()),
        active: Some(true),
        duration: Some("3600s".to_string()),
        private_reason: None,
        display_reason: Some("bye".to_string()),
        exclude_alt_accounts: None,
    };
    let start = "2024-05-01T10:00:00.123456Z".to_string();
    let sent = "2024-05-01T10:00:00.123Z".to_string();
    let r = update_user_restriction_at(&p, &start, &sent);
    assert_eq!(r.method, HttpMethod::Patch);
    assert_eq!(r.url, "https://apis.roblox.com/cloud/v2/universes/1/user-restrictions/2");
    assert_eq!(
        v2_pairs(&r.query),
        vec![
            ("updateMask", "gameJoinRestriction"),
            ("idempotencyKey.key", "abc"),
            ("idempotencyKey.firstSent", "2024-05-01T10:00:00.123Z"),
        ]
    );
    assert_eq!(
        body_text(&r.body),
        "{\"gameJoinRestriction\":{\"active\":true,\"startTime\":\"2024-05-01T10:00:00.123456Z\",\"duration\":\"3600s\",\"privateReason\":\"\",\"displayReason\":\"bye\",\"excludeAltAccounts\":false,\"inherited\":false}}"
    );
}

#[test]
fn user_restriction_client_adds_key_and_duration() {
    assert_eq!(format_duration(3600), "3600s");
    assert_eq!(format_duration(0), "0s");
    let c = Client::new("k").user_restriction(UniverseId(1));
    let params = UserRestrictionParams {
        user_id: RobloxUserId(2),
        place_id: Some(PlaceId(3)),
        active: Some(true),
        duration: Some(60),
        private_reason: None,
        display_reason: None,
        exclude_alt_accounts: Some(true),
    };
    let r = c.update_user_restriction(&params);
    assert_eq!(r.url, "https://apis.roblox.com/cloud/v2/universes/1/places/3/user-restrictions/2");
    assert_eq!(r.query.len(), 3);
    assert_eq!(r.query[1].0, "idempotencyKey.key");
    assert_eq!(r.query[1].1.len(), 32);
    assert!(r.query[1].1.chars().all(|c| c.is_ascii_alphanumeric()));
    assert!(body_text(&r.body).contains("\"duration\":\"60s\""));
    let u = c.restriction_update(&params, "key".to_string());
    assert_eq!(u.duration.as_deref(), Some("60s"));
    let l = c.list_user_restriction_logs(None, Some(5), None, None);
    assert_eq!(l.url, "https://apis.roblox.com/cloud/v2/universes/1/user-restrictions:listLogs");
    assert_eq!(v2_pairs(&l.query), vec![("maxPageSize", "5")]);
}
