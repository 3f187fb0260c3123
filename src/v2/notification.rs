//! Sending an experience notification to a user.
use crate::http::{key_headers, HttpMethod, Request, RequestBody};
use crate::text::{
    concat, decimal, i64_to_decimal, json_map, json_object, json_quote, json_string, map_text,
    object_text, pairs, push_pair, signed_decimal, single_pair,
};
use crate::types::RobloxUserId;
use crate::error::{malformed, Error};
use crate::json::{json_str_at, json_str_field};
use vstd::prelude::*;
use vstd::string::*;

verus! {

/// The kind of a notification.
#[derive(Debug, Clone, Copy, PartialEq, Eq, Structural)]
pub enum NotificationType {
    TypeUnspecified,
    Moment,
}

/// The name of a notification type, as it is written in a request body.
pub open spec fn notification_type_text(t: NotificationType) -> Seq<char> {
    match t {
        NotificationType::TypeUnspecified => "TypeUnspecified"@,
        NotificationType::Moment => "Moment"@,
    }
}

/// The name of a notification type, in capitals, in double quotes, as its
/// display form writes it.
pub open spec fn type_display(t: NotificationType) -> Seq<char> {
    match t {
        NotificationType::TypeUnspecified => "\"TYPE_UNSPECIFIED\""@,
        NotificationType::Moment => "\"MOMENT\""@,
    }
}

impl NotificationType {
    /// The display form of the type.
    pub fn to_string(&self) -> (r: String)
        ensures
            r@ == type_display(*self),
    {
        match self {
            NotificationType::TypeUnspecified => String::from_str("\"TYPE_UNSPECIFIED\""),
            NotificationType::Moment => String::from_str("\"MOMENT\""),
        }
    }
}

/// Data handed to the experience when the user joins from the
/// notification.
#[derive(Debug, Clone)]
pub struct JoinExperience {
    pub launch_data: String,
}

/// A value for a placeholder of the notification's message.
#[derive(Debug, Clone)]
pub struct Parameter {
    pub string_value: Option<String>,
    pub int64_value: Option<i64>,
}

/// The universe a notification comes from.
#[derive(Debug, Clone)]
pub struct NotificationSource {
    pub universe: String,
}

/// What a notification says. Parameters and analytics data are written
/// in the order they are given; each key is meant to appear once.
#[derive(Debug, Clone)]
pub struct NotificationPayload {
    pub message_id: String,
    pub notification_type: NotificationType,
    pub parameters: Option<Vec<(String, Parameter)>>,
    pub join_experience: Option<JoinExperience>,
    pub analytics_data: Option<Vec<(String, String)>>,
}

/// A notification.
#[derive(Debug, Clone)]
pub struct Notification {
    pub source: NotificationSource,
    pub payload: NotificationPayload,
}

/// Parameters of sending a notification to a user.
pub struct NotificationParams {
    pub api_key: String,
    pub user_id: RobloxUserId,
    pub notification: Notification,
}

/// JSON of an optional string; `null` when absent.
pub open spec fn opt_string_json(v: Option<String>) -> Seq<char> {
    match v {
        Some(s) => json_string(s@),
        None => "null"@,
    }
}

/// JSON of a parameter.
pub open spec fn parameter_json(p: Parameter) -> Seq<char> {
    json_object(seq![
        ("stringValue"@, opt_string_json(p.string_value)),
        ("int64Value"@, match p.int64_value {
            Some(v) => signed_decimal(v as int),
            None => "null"@,
        }),
    ])
}

/// The keys of a list of parameters with the JSON of their values.
pub open spec fn parameter_entries(v: Seq<(String, Parameter)>) -> Seq<(Seq<char>, Seq<char>)> {
    v.map_values(|e: (String, Parameter)| (e.0@, parameter_json(e.1)))
}

/// The keys of a list of analytics data with the JSON of their values.
pub open spec fn analytics_entries(v: Seq<(String, String)>) -> Seq<(Seq<char>, Seq<char>)> {
    v.map_values(|e: (String, String)| (e.0@, json_string(e.1@)))
}

/// JSON of a payload.
pub open spec fn payload_json(p: NotificationPayload) -> Seq<char> {
    json_object(seq![
        ("messageId"@, json_string(p.message_id@)),
        ("type"@, "\""@ + notification_type_text(p.notification_type) + "\""@),
        ("parameters"@, match p.parameters {
            Some(v) => json_map(parameter_entries(v@)),
            None => "null"@,
        }),
        ("joinExperience"@, match p.join_experience {
            Some(j) => json_object(seq![("launchData"@, json_string(j.launch_data@))]),
            None => "null"@,
        }),
        ("analyticsData"@, match p.analytics_data {
            Some(v) => json_map(analytics_entries(v@)),
            None => "null"@,
        }),
    ])
}

/// JSON of a notification.
pub open spec fn notification_json(n: Notification) -> Seq<char> {
    json_object(seq![
        ("source"@, json_object(seq![("universe"@, json_string(n.source.universe@))])),
        ("payload"@, payload_json(n.payload)),
    ])
}

fn opt_string_to_json(v: &Option<String>) -> (r: String)
    ensures
        r@ == opt_string_json(*v),
{
    match v {
        Some(s) => json_quote(s.as_str()),
        None => String::from_str("null"),
    }
}

impl Parameter {
    /// JSON of this parameter.
    pub fn to_json(&self) -> (r: String)
        ensures
            r@ == parameter_json(*self),
    {
        let mut f = single_pair("stringValue", opt_string_to_json(&self.string_value));
        let n = match self.int64_value {
            Some(v) => i64_to_decimal(v),
            None => String::from_str("null"),
        };
        push_pair(&mut f, "int64Value", n);
        assert(pairs(f@) =~= seq![
            ("stringValue"@, opt_string_json(self.string_value)),
            ("int64Value"@, match self.int64_value {
                Some(v) => signed_decimal(v as int),
                None => "null"@,
            }),
        ]);
        object_text(&f)
    }
}

fn parameters_to_json(v: &Vec<(String, Parameter)>) -> (r: String)
    ensures
        r@ == json_map(parameter_entries(v@)),
{
    let mut f: Vec<(String, String)> = Vec::new();
    let mut i: usize = 0;
    while i < v.len()
        invariant
            i <= v@.len(),
            pairs(f@) == parameter_entries(v@.subrange(0, i as int)),
        decreases v@.len() - i,
    {
        push_pair(&mut f, v[i].0.as_str(), v[i].1.to_json());
        assert(parameter_entries(v@.subrange(0, i as int + 1)) =~= parameter_entries(v@.subrange(0, i as int)).push((v@[i as int].0@, parameter_json(v@[i as int].1))));
        i = i + 1;
    }
    assert(v@.subrange(0, v@.len() as int) =~= v@);
    map_text(&f)
}

fn analytics_to_json(v: &Vec<(String, String)>) -> (r: String)
    ensures
        r@ == json_map(analytics_entries(v@)),
{
    let mut f: Vec<(String, String)> = Vec::new();
    let mut i: usize = 0;
    while i < v.len()
        invariant
            i <= v@.len(),
            pairs(f@) == analytics_entries(v@.subrange(0, i as int)),
        decreases v@.len() - i,
    {
        push_pair(&mut f, v[i].0.as_str(), json_quote(v[i].1.as_str()));
        assert(analytics_entries(v@.subrange(0, i as int + 1)) =~= analytics_entries(v@.subrange(0, i as int)).push((v@[i as int].0@, json_string(v@[i as int].1@))));
        i = i + 1;
    }
    assert(v@.subrange(0, v@.len() as int) =~= v@);
    map_text(&f)
}

impl NotificationPayload {
    /// JSON of this payload.
    pub fn to_json(&self) -> (r: String)
        ensures
            r@ == payload_json(*self),
    {
        let mut f = single_pair("messageId", json_quote(self.message_id.as_str()));
        let mut t = concat("\"", self.notification_type_name());
        t.append("\"");
        push_pair(&mut f, "type", t);
        let params = match &self.parameters {
            Some(v) => parameters_to_json(v),
            None => String::from_str("null"),
        };
        push_pair(&mut f, "parameters", params);
        let join = match &self.join_experience {
            Some(j) => {
                let g = single_pair("launchData", json_quote(j.launch_data.as_str()));
                object_text(&g)
            },
            None => String::from_str("null"),
        };
        push_pair(&mut f, "joinExperience", join);
        let analytics = match &self.analytics_data {
            Some(v) => analytics_to_json(v),
            None => String::from_str("null"),
        };
        push_pair(&mut f, "analyticsData", analytics);
        assert(pairs(f@) =~= seq![
            ("messageId"@, json_string(self.message_id@)),
            ("type"@, "\""@ + notification_type_text(self.notification_type) + "\""@),
            ("parameters"@, match self.parameters {
                Some(v) => json_map(parameter_entries(v@)),
                None => "null"@,
            }),
            ("joinExperience"@, match self.join_experience {
                Some(j) => json_object(seq![("launchData"@, json_string(j.launch_data@))]),
                None => "null"@,
            }),
            ("analyticsData"@, match self.analytics_data {
                Some(v) => json_map(analytics_entries(v@)),
                None => "null"@,
            }),
        ]);
        object_text(&f)
    }

    fn notification_type_name(&self) -> (r: &'static str)
        ensures
            r@ == notification_type_text(self.notification_type),
    {
        match self.notification_type {
            NotificationType::TypeUnspecified => "TypeUnspecified",
            NotificationType::Moment => "Moment",
        }
    }
}

impl Notification {
    /// JSON of this notification, as sent in the request body.
    pub fn to_json(&self) -> (r: String)
        ensures
            r@ == notification_json(*self),
    {
        let g = single_pair("universe", json_quote(self.source.universe.as_str()));
        let mut f = single_pair("source", object_text(&g));
        push_pair(&mut f, "payload", self.payload.to_json());
        assert(pairs(f@) =~= seq![
            ("source"@, json_object(seq![("universe"@, json_string(self.source.universe@))])),
            ("payload"@, payload_json(self.payload)),
        ]);
        object_text(&f)
    }
}

/// The URL of the notifications of a user.
pub open spec fn notifications_url(user_id: RobloxUserId) -> Seq<char> {
    "https://apis.roblox.com/cloud/v2/users/"@ + decimal(user_id.0 as nat) + "/notifications"@
}

/// The request that sends a notification to a user.
pub fn send_notification(params: &NotificationParams) -> (r: Request)
    ensures
        r.method == HttpMethod::Post,
        r.url@ == notifications_url(params.user_id),
        pairs(r.headers@) == key_headers(params.api_key@),
        r.query@.len() == 0,
        r.body matches RequestBody::Text(b) && b@ == notification_json(params.notification),
{
    let id = params.user_id.to_string();
    let mut url = concat("https://apis.roblox.com/cloud/v2/users/", id.as_str());
    url.append("/notifications");
    Request {
        method: HttpMethod::Post,
        url,
        headers: crate::http::api_headers(&params.api_key),
        query: Vec::new(),
        body: RequestBody::Text(params.notification.to_json()),
    }
}

/// What the service answers to a sent notification.
#[derive(Debug, Clone)]
pub struct NotificationResponse {
    pub path: String,
    pub id: String,
}

/// `body` has the JSON shape of a [`NotificationResponse`].
pub open spec fn notification_response_parses(body: Seq<char>) -> bool {
    &&& json_str_at(body, "path"@) is Some
    &&& json_str_at(body, "id"@) is Some
}

/// `body` is the JSON form of `v`.
pub open spec fn notification_response_matches(body: Seq<char>, v: NotificationResponse) -> bool {
    &&& json_str_at(body, "path"@) == Some(v.path@)
    &&& json_str_at(body, "id"@) == Some(v.id@)
}

impl NotificationResponse {
    /// Reads a [`NotificationResponse`] out of a JSON body; fails exactly when the body
    /// does not have its shape.
    pub fn decode(body: &str) -> (r: Result<NotificationResponse, Error>)
        ensures
            notification_response_parses(body@) <==> r is Ok,
            r matches Ok(v) ==> notification_response_matches(body@, v),
            r matches Err(e) ==> e is SerdeJsonError,
    {
        let path = match json_str_field(body, "path") {
            Some(x) => x,
            None => {
                return Err(malformed("NotificationResponse"));
            },
        };
        let id = match json_str_field(body, "id") {
            Some(x) => x,
            None => {
                return Err(malformed("NotificationResponse"));
            },
        };
        Ok(NotificationResponse { path, id })
    }
}

} // verus!
