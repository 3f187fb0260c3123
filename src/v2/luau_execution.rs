//! Luau execution: running a script against a place, and reading the task
//! and its logs.
use crate::http::{
    get_request, json_headers, json_request, key_headers, HttpMethod, Request, RequestBody,
};
use crate::text::{
    concat, decimal, json_object, json_quote, json_string, object_text, opt_str_field, pairs,
    push_str_field, single_pair,
};
use crate::types::{PlaceId, UniverseId};
use crate::error::{malformed, Error};
use crate::json::{
    json_array_len, json_item_at, json_item_text, json_len_at, json_str_at, json_str_field,
    json_str_of, json_str_value, json_sub_at, json_sub_text,
};
use crate::text::str_eq;
use vstd::prelude::*;
use vstd::string::*;

verus! {

/// Parameters of creating a Luau execution task.
pub struct CreateLuauExecutionTaskParams {
    pub api_key: String,
    pub universe_id: UniverseId,
    pub place_id: PlaceId,
    pub version_id: Option<String>,
    pub script: String,
    pub timeout: Option<String>,
}

/// Parameters of reading a Luau execution task.
pub struct GetLuauExecutionSessionTaskParams {
    pub api_key: String,
    pub universe_id: UniverseId,
    pub place_id: PlaceId,
    pub version_id: Option<String>,
    pub session_id: String,
    pub task_id: String,
}

/// How the logs of a task are laid out.
#[derive(Debug, Clone, Copy, PartialEq, Eq, Structural)]
pub enum LuauExecutionTaskLogView {
    Flat,
    Structured,
}

/// Parameters of reading the logs of a Luau execution task.
pub struct GetLuauExecutionSessionTaskLogsParams {
    pub api_key: String,
    pub universe_id: UniverseId,
    pub place_id: PlaceId,
    pub version_id: Option<String>,
    pub session_id: String,
    pub task_id: String,
    pub max_page_size: Option<u32>,
    pub page_token: Option<String>,
    pub view: LuauExecutionTaskLogView,
}

/// The URL of a place, or of one version of it, followed by `suffix`.
pub open spec fn place_version_url(universe_id: UniverseId, place_id: PlaceId, version_id: Option<String>, suffix: Seq<char>) -> Seq<char> {
    "https://apis.roblox.com/cloud/v2/universes/"@ + decimal(universe_id.0 as nat) + "/places/"@
        + decimal(place_id.0 as nat) + match version_id {
        Some(v) => "/versions/"@ + v@,
        None => seq![],
    } + suffix
}

/// The endpoint of one task of a session.
pub open spec fn task_endpoint(session_id: Seq<char>, task_id: Seq<char>) -> Seq<char> {
    "/luau-execution-sessions/"@ + session_id + "/tasks/"@ + task_id
}

fn build_url(universe_id: UniverseId, place_id: PlaceId, version_id: &Option<String>, suffix: &str) -> (r: String)
    ensures
        r@ == place_version_url(universe_id, place_id, *version_id, suffix@),
{
    let u = universe_id.to_string();
    let p = place_id.to_string();
    let mut s = concat("https://apis.roblox.com/cloud/v2/universes/", u.as_str());
    s.append("/places/");
    s.append(p.as_str());
    match version_id {
        Some(v) => {
            s.append("/versions/");
            s.append(v.as_str());
        },
        None => {},
    }
    s.append(suffix);
    assert(s@ =~= place_version_url(universe_id, place_id, *version_id, suffix@));
    s
}

fn task_suffix(session_id: &String, task_id: &String) -> (r: String)
    ensures
        r@ == task_endpoint(session_id@, task_id@),
{
    let mut s = concat("/luau-execution-sessions/", session_id.as_str());
    s.append("/tasks/");
    s.append(task_id.as_str());
    s
}

/// The JSON body of a new task: the script, and the timeout when given.
pub open spec fn task_input_json(script: Seq<char>, timeout: Option<String>) -> Seq<char> {
    json_object(seq![("script"@, json_string(script))] + opt_str_field("timeout"@, timeout))
}

/// The request that creates a Luau execution task.
pub fn create_luau_execution_task(params: &CreateLuauExecutionTaskParams) -> (r: Request)
    ensures
        r.method == HttpMethod::Post,
        r.url@ == place_version_url(params.universe_id, params.place_id, params.version_id, "/luau-execution-session-tasks"@),
        pairs(r.headers@) == json_headers(params.api_key@),
        r.query@.len() == 0,
        r.body matches RequestBody::Text(b) && b@ == task_input_json(params.script@, params.timeout),
{
    let mut f = single_pair("script", json_quote(params.script.as_str()));
    push_str_field(&mut f, "timeout", &params.timeout);
    json_request(
        HttpMethod::Post,
        &params.api_key,
        build_url(params.universe_id, params.place_id, &params.version_id, "/luau-execution-session-tasks"),
        Vec::new(),
        object_text(&f),
    )
}

/// The request that reads a Luau execution task.
pub fn get_luau_execution_task(params: &GetLuauExecutionSessionTaskParams) -> (r: Request)
    ensures
        r.method == HttpMethod::Get,
        r.url@ == place_version_url(params.universe_id, params.place_id, params.version_id, task_endpoint(params.session_id@, params.task_id@)),
        pairs(r.headers@) == key_headers(params.api_key@),
        r.query@.len() == 0,
        r.body is Empty,
{
    let suffix = task_suffix(&params.session_id, &params.task_id);
    get_request(&params.api_key, build_url(params.universe_id, params.place_id, &params.version_id, suffix.as_str()), Vec::new())
}

/// The request that reads the logs of a Luau execution task.
pub fn get_luau_execution_task_logs(params: &GetLuauExecutionSessionTaskLogsParams) -> (r: Request)
    ensures
        r.method == HttpMethod::Get,
        r.url@ == place_version_url(params.universe_id, params.place_id, params.version_id, task_endpoint(params.session_id@, params.task_id@) + "/logs"@),
        pairs(r.headers@) == key_headers(params.api_key@),
        r.query@.len() == 0,
        r.body is Empty,
{
    let mut suffix = task_suffix(&params.session_id, &params.task_id);
    suffix.append("/logs");
    get_request(&params.api_key, build_url(params.universe_id, params.place_id, &params.version_id, suffix.as_str()), Vec::new())
}

/// The state of a Luau execution task.
#[derive(Debug, Clone, Copy, PartialEq, Eq, Structural)]
pub enum LuauExecutionState {
    StateUnspecified,
    Queued,
    Processing,
    Cancelled,
    Complete,
    Failed,
}

/// The name of a [`LuauExecutionState`] in a JSON body.
pub open spec fn luau_execution_state_name(v: LuauExecutionState) -> Seq<char> {
    match v {
        LuauExecutionState::StateUnspecified => "STATE_UNSPECIFIED"@,
        LuauExecutionState::Queued => "QUEUED"@,
        LuauExecutionState::Processing => "PROCESSING"@,
        LuauExecutionState::Cancelled => "CANCELLED"@,
        LuauExecutionState::Complete => "COMPLETE"@,
        LuauExecutionState::Failed => "FAILED"@,
    }
}

impl LuauExecutionState {
    /// The value that `s` names, if any.
    pub fn from_name(s: &str) -> (r: Option<LuauExecutionState>)
        ensures
            match r {
                Some(x) => luau_execution_state_name(x) == s@,
                None => forall|x: LuauExecutionState| luau_execution_state_name(x) != s@,
            },
    {
        if str_eq(s, "STATE_UNSPECIFIED") {
            return Some(LuauExecutionState::StateUnspecified);
        }
        if str_eq(s, "QUEUED") {
            return Some(LuauExecutionState::Queued);
        }
        if str_eq(s, "PROCESSING") {
            return Some(LuauExecutionState::Processing);
        }
        if str_eq(s, "CANCELLED") {
            return Some(LuauExecutionState::Cancelled);
        }
        if str_eq(s, "COMPLETE") {
            return Some(LuauExecutionState::Complete);
        }
        if str_eq(s, "FAILED") {
            return Some(LuauExecutionState::Failed);
        }
        proof {
            reveal_strlit("STATE_UNSPECIFIED");
            reveal_strlit("QUEUED");
            reveal_strlit("PROCESSING");
            reveal_strlit("CANCELLED");
            reveal_strlit("COMPLETE");
            reveal_strlit("FAILED");
        }
        assert forall|x: LuauExecutionState| luau_execution_state_name(x) != s@ by {
            match x {
                LuauExecutionState::StateUnspecified => {},
                LuauExecutionState::Queued => {},
                LuauExecutionState::Processing => {},
                LuauExecutionState::Cancelled => {},
                LuauExecutionState::Complete => {},
                LuauExecutionState::Failed => {},
            }
        }
        None
    }
}

/// A task that was just created.
#[derive(Debug, Clone)]
pub struct NewLuauExecutionSessionTask {
    pub path: String,
    pub user: String,
    pub state: LuauExecutionState,
    pub script: String,
}

/// `body` has the JSON shape of a [`NewLuauExecutionSessionTask`].
pub open spec fn new_luau_execution_session_task_parses(body: Seq<char>) -> bool {
    &&& json_str_at(body, "path"@) is Some
    &&& json_str_at(body, "user"@) is Some
    &&& json_str_at(body, "state"@) matches Some(s) && exists|x: LuauExecutionState| #[trigger] luau_execution_state_name(x) == s
    &&& json_str_at(body, "script"@) is Some
}

/// `body` is the JSON form of `v`.
pub open spec fn new_luau_execution_session_task_matches(body: Seq<char>, v: NewLuauExecutionSessionTask) -> bool {
    &&& json_str_at(body, "path"@) == Some(v.path@)
    &&& json_str_at(body, "user"@) == Some(v.user@)
    &&& json_str_at(body, "state"@) == Some(luau_execution_state_name(v.state))
    &&& json_str_at(body, "script"@) == Some(v.script@)
}

impl NewLuauExecutionSessionTask {
    /// Reads a [`NewLuauExecutionSessionTask`] out of a JSON body; fails exactly when the body
    /// does not have its shape.
    pub fn decode(body: &str) -> (r: Result<NewLuauExecutionSessionTask, Error>)
        ensures
            new_luau_execution_session_task_parses(body@) <==> r is Ok,
            r matches Ok(v) ==> new_luau_execution_session_task_matches(body@, v),
            r matches Err(e) ==> e is SerdeJsonError,
    {
        let path = match json_str_field(body, "path") {
            Some(x) => x,
            None => {
                return Err(malformed("NewLuauExecutionSessionTask"));
            },
        };
        let user = match json_str_field(body, "user") {
            Some(x) => x,
            None => {
                return Err(malformed("NewLuauExecutionSessionTask"));
            },
        };
        let state = match json_str_field(body, "state") {
            Some(s) => match LuauExecutionState::from_name(s.as_str()) {
                Some(x) => x,
                None => {
                    return Err(malformed("NewLuauExecutionSessionTask"));
                },
            },
            None => {
                return Err(malformed("NewLuauExecutionSessionTask"));
            },
        };
        let script = match json_str_field(body, "script") {
            Some(x) => x,
            None => {
                return Err(malformed("NewLuauExecutionSessionTask"));
            },
        };
        Ok(NewLuauExecutionSessionTask { path, user, state, script })
    }
}

/// A log message with its time and kind.
#[derive(Debug, Clone)]
pub struct StructuredMessage {
    pub message: String,
    pub create_time: String,
    pub message_type: String,
}

/// `body` has the JSON shape of a [`StructuredMessage`].
pub open spec fn structured_message_parses(body: Seq<char>) -> bool {
    &&& json_str_at(body, "message"@) is Some
    &&& json_str_at(body, "createTime"@) is Some
    &&& json_str_at(body, "messageType"@) is Some
}

/// `body` is the JSON form of `v`.
pub open spec fn structured_message_matches(body: Seq<char>, v: StructuredMessage) -> bool {
    &&& json_str_at(body, "message"@) == Some(v.message@)
    &&& json_str_at(body, "createTime"@) == Some(v.create_time@)
    &&& json_str_at(body, "messageType"@) == Some(v.message_type@)
}

impl StructuredMessage {
    /// Reads a [`StructuredMessage`] out of a JSON body; fails exactly when the body
    /// does not have its shape.
    pub fn decode(body: &str) -> (r: Result<StructuredMessage, Error>)
        ensures
            structured_message_parses(body@) <==> r is Ok,
            r matches Ok(v) ==> structured_message_matches(body@, v),
            r matches Err(e) ==> e is SerdeJsonError,
    {
        let message = match json_str_field(body, "message") {
            Some(x) => x,
            None => {
                return Err(malformed("StructuredMessage"));
            },
        };
        let create_time = match json_str_field(body, "createTime") {
            Some(x) => x,
            None => {
                return Err(malformed("StructuredMessage"));
            },
        };
        let message_type = match json_str_field(body, "messageType") {
            Some(x) => x,
            None => {
                return Err(malformed("StructuredMessage"));
            },
        };
        Ok(StructuredMessage { message, create_time, message_type })
    }
}

/// The log of a task.
#[derive(Debug, Clone)]
pub struct LuauExecutionSessionTaskLog {
    pub path: String,
    pub messages: Vec<String>,
    pub structured_messages: Vec<StructuredMessage>,
}

/// `body` has the JSON shape of a [`LuauExecutionSessionTaskLog`].
pub open spec fn luau_execution_session_task_log_parses(body: Seq<char>) -> bool {
    &&& json_str_at(body, "path"@) is Some
    &&& json_len_at(body, "messages"@) matches Some(n) && (forall|i: usize| i < n ==> (#[trigger] json_item_at(body, "messages"@, i) matches Some(t) && json_str_of(t) is Some))
    &&& json_len_at(body, "structuredMessages"@) matches Some(n) && (forall|i: usize| i < n ==> (#[trigger] json_item_at(body, "structuredMessages"@, i) matches Some(t) && structured_message_parses(t)))
}

/// `body` is the JSON form of `v`.
pub open spec fn luau_execution_session_task_log_matches(body: Seq<char>, v: LuauExecutionSessionTaskLog) -> bool {
    &&& json_str_at(body, "path"@) == Some(v.path@)
    &&& json_len_at(body, "messages"@) == Some(v.messages@.len() as usize) && (forall|i: int| 0 <= i < v.messages@.len() ==> (json_item_at(body, "messages"@, i as usize) matches Some(t) && json_str_of(t) == Some((#[trigger] v.messages@[i])@)))
    &&& json_len_at(body, "structuredMessages"@) == Some(v.structured_messages@.len() as usize) && (forall|i: int| 0 <= i < v.structured_messages@.len() ==> (json_item_at(body, "structuredMessages"@, i as usize) matches Some(t) && structured_message_matches(t, #[trigger] v.structured_messages@[i])))
}

impl LuauExecutionSessionTaskLog {
    /// Reads a [`LuauExecutionSessionTaskLog`] out of a JSON body; fails exactly when the body
    /// does not have its shape.
    pub fn decode(body: &str) -> (r: Result<LuauExecutionSessionTaskLog, Error>)
        ensures
            luau_execution_session_task_log_parses(body@) <==> r is Ok,
            r matches Ok(v) ==> luau_execution_session_task_log_matches(body@, v),
            r matches Err(e) ==> e is SerdeJsonError,
    {
        let path = match json_str_field(body, "path") {
            Some(x) => x,
            None => {
                return Err(malformed("LuauExecutionSessionTaskLog"));
            },
        };
        let n = match json_array_len(body, "messages") {
            Some(n) => n,
            None => {
                return Err(malformed("LuauExecutionSessionTaskLog"));
            },
        };
        let mut messages: Vec<String> = Vec::new();
        let mut i: usize = 0;
        while i < n
            invariant
                json_len_at(body@, "messages"@) == Some(n),
                i <= n,
                messages@.len() == i,
                forall|k: int| 0 <= k < i ==> (json_item_at(body@, "messages"@, k as usize) matches Some(t) && json_str_of(t) == Some((#[trigger] messages@[k])@)),
                forall|k: usize| k < i ==> (#[trigger] json_item_at(body@, "messages"@, k) matches Some(t) && json_str_of(t) is Some),
            decreases n - i,
        {
            let t = match json_item_text(body, "messages", i) {
                Some(t) => t,
                None => {
                    return Err(malformed("LuauExecutionSessionTaskLog"));
                },
            };
            let x = match json_str_value(t.as_str()) {
                Some(x) => x,
                None => {
                    return Err(malformed("LuauExecutionSessionTaskLog"));
                },
            };
            messages.push(x);
            i = i + 1;
        }
        let n = match json_array_len(body, "structuredMessages") {
            Some(n) => n,
            None => {
                return Err(malformed("LuauExecutionSessionTaskLog"));
            },
        };
        let mut structured_messages: Vec<StructuredMessage> = Vec::new();
        let mut i: usize = 0;
        while i < n
            invariant
                json_len_at(body@, "structuredMessages"@) == Some(n),
                i <= n,
                structured_messages@.len() == i,
                forall|k: int| 0 <= k < i ==> (json_item_at(body@, "structuredMessages"@, k as usize) matches Some(t) && structured_message_matches(t, #[trigger] structured_messages@[k])),
                forall|k: usize| k < i ==> (#[trigger] json_item_at(body@, "structuredMessages"@, k) matches Some(t) && structured_message_parses(t)),
            decreases n - i,
        {
            let t = match json_item_text(body, "structuredMessages", i) {
                Some(t) => t,
                None => {
                    return Err(malformed("LuauExecutionSessionTaskLog"));
                },
            };
            let x = match StructuredMessage::decode(t.as_str()) {
                Ok(x) => x,
                Err(e) => {
                    return Err(e);
                },
            };
            structured_messages.push(x);
            i = i + 1;
        }
        Ok(LuauExecutionSessionTaskLog { path, messages, structured_messages })
    }
}

/// One page of logs, with the token of the next page.
#[derive(Debug, Clone)]
pub struct LuauExecutionSessionTaskLogPage {
    pub luau_execution_session_task_logs: Vec<LuauExecutionSessionTaskLog>,
    pub next_page_token: String,
}

/// `body` has the JSON shape of a [`LuauExecutionSessionTaskLogPage`].
pub open spec fn luau_execution_session_task_log_page_parses(body: Seq<char>) -> bool {
    &&& json_len_at(body, "luauExecutionSessionTaskLogs"@) matches Some(n) && (forall|i: usize| i < n ==> (#[trigger] json_item_at(body, "luauExecutionSessionTaskLogs"@, i) matches Some(t) && luau_execution_session_task_log_parses(t)))
    &&& json_str_at(body, "nextPageToken"@) is Some
}

/// `body` is the JSON form of `v`.
pub open spec fn luau_execution_session_task_log_page_matches(body: Seq<char>, v: LuauExecutionSessionTaskLogPage) -> bool {
    &&& json_len_at(body, "luauExecutionSessionTaskLogs"@) == Some(v.luau_execution_session_task_logs@.len() as usize) && (forall|i: int| 0 <= i < v.luau_execution_session_task_logs@.len() ==> (json_item_at(body, "luauExecutionSessionTaskLogs"@, i as usize) matches Some(t) && luau_execution_session_task_log_matches(t, #[trigger] v.luau_execution_session_task_logs@[i])))
    &&& json_str_at(body, "nextPageToken"@) == Some(v.next_page_token@)
}

impl LuauExecutionSessionTaskLogPage {
    /// Reads a [`LuauExecutionSessionTaskLogPage`] out of a JSON body; fails exactly when the body
    /// does not have its shape.
    pub fn decode(body: &str) -> (r: Result<LuauExecutionSessionTaskLogPage, Error>)
        ensures
            luau_execution_session_task_log_page_parses(body@) <==> r is Ok,
            r matches Ok(v) ==> luau_execution_session_task_log_page_matches(body@, v),
            r matches Err(e) ==> e is SerdeJsonError,
    {
        let n = match json_array_len(body, "luauExecutionSessionTaskLogs") {
            Some(n) => n,
            None => {
                return Err(malformed("LuauExecutionSessionTaskLogPage"));
            },
        };
        let mut luau_execution_session_task_logs: Vec<LuauExecutionSessionTaskLog> = Vec::new();
        let mut i: usize = 0;
        while i < n
            invariant
                json_len_at(body@, "luauExecutionSessionTaskLogs"@) == Some(n),
                i <= n,
                luau_execution_session_task_logs@.len() == i,
                forall|k: int| 0 <= k < i ==> (json_item_at(body@, "luauExecutionSessionTaskLogs"@, k as usize) matches Some(t) && luau_execution_session_task_log_matches(t, #[trigger] luau_execution_session_task_logs@[k])),
                forall|k: usize| k < i ==> (#[trigger] json_item_at(body@, "luauExecutionSessionTaskLogs"@, k) matches Some(t) && luau_execution_session_task_log_parses(t)),
            decreases n - i,
        {
            let t = match json_item_text(body, "luauExecutionSessionTaskLogs", i) {
                Some(t) => t,
                None => {
                    return Err(malformed("LuauExecutionSessionTaskLogPage"));
                },
            };
            let x = match LuauExecutionSessionTaskLog::decode(t.as_str()) {
                Ok(x) => x,
                Err(e) => {
                    return Err(e);
                },
            };
            luau_execution_session_task_logs.push(x);
            i = i + 1;
        }
        let next_page_token = match json_str_field(body, "nextPageToken") {
            Some(x) => x,
            None => {
                return Err(malformed("LuauExecutionSessionTaskLogPage"));
            },
        };
        Ok(LuauExecutionSessionTaskLogPage { luau_execution_session_task_logs, next_page_token })
    }
}

/// What a task returned: the JSON text of each result, in order.
#[derive(Debug, Clone)]
pub struct LuauExecutionOutput {
    pub results: Vec<String>,
}

/// `body` has the JSON shape of a [`LuauExecutionOutput`].
pub open spec fn luau_execution_output_parses(body: Seq<char>) -> bool {
    &&& json_len_at(body, "results"@) matches Some(n) && (forall|i: usize| i < n ==> (#[trigger] json_item_at(body, "results"@, i)) is Some)
}

/// `body` is the JSON form of `v`.
pub open spec fn luau_execution_output_matches(body: Seq<char>, v: LuauExecutionOutput) -> bool {
    &&& json_len_at(body, "results"@) == Some(v.results@.len() as usize) && (forall|i: int| 0 <= i < v.results@.len() ==> json_item_at(body, "results"@, i as usize) == Some((#[trigger] v.results@[i])@))
}

impl LuauExecutionOutput {
    /// Reads a [`LuauExecutionOutput`] out of a JSON body; fails exactly when the body
    /// does not have its shape.
    pub fn decode(body: &str) -> (r: Result<LuauExecutionOutput, Error>)
        ensures
            luau_execution_output_parses(body@) <==> r is Ok,
            r matches Ok(v) ==> luau_execution_output_matches(body@, v),
            r matches Err(e) ==> e is SerdeJsonError,
    {
        let n = match json_array_len(body, "results") {
            Some(n) => n,
            None => {
                return Err(malformed("LuauExecutionOutput"));
            },
        };
        let mut results: Vec<String> = Vec::new();
        let mut i: usize = 0;
        while i < n
            invariant
                json_len_at(body@, "results"@) == Some(n),
                i <= n,
                results@.len() == i,
                forall|k: int| 0 <= k < i ==> json_item_at(body@, "results"@, k as usize) == Some((#[trigger] results@[k])@),
                forall|k: usize| k < i ==> (#[trigger] json_item_at(body@, "results"@, k)) is Some,
            decreases n - i,
        {
            let t = match json_item_text(body, "results", i) {
                Some(t) => t,
                None => {
                    return Err(malformed("LuauExecutionOutput"));
                },
            };
            results.push(t);
            i = i + 1;
        }
        Ok(LuauExecutionOutput { results })
    }
}

/// A Luau execution task.
#[derive(Debug, Clone)]
pub struct LuauExecutionSessionTask {
    pub path: String,
    pub create_time: String,
    pub update_time: String,
    pub user: String,
    pub state: LuauExecutionState,
    pub output: LuauExecutionOutput,
}

/// `body` has the JSON shape of a [`LuauExecutionSessionTask`].
pub open spec fn luau_execution_session_task_parses(body: Seq<char>) -> bool {
    &&& json_str_at(body, "path"@) is Some
    &&& json_str_at(body, "createTime"@) is Some
    &&& json_str_at(body, "updateTime"@) is Some
    &&& json_str_at(body, "user"@) is Some
    &&& json_str_at(body, "state"@) matches Some(s) && exists|x: LuauExecutionState| #[trigger] luau_execution_state_name(x) == s
    &&& json_sub_at(body, "output"@) matches Some(t) && luau_execution_output_parses(t)
}

/// `body` is the JSON form of `v`.
pub open spec fn luau_execution_session_task_matches(body: Seq<char>, v: LuauExecutionSessionTask) -> bool {
    &&& json_str_at(body, "path"@) == Some(v.path@)
    &&& json_str_at(body, "createTime"@) == Some(v.create_time@)
    &&& json_str_at(body, "updateTime"@) == Some(v.update_time@)
    &&& json_str_at(body, "user"@) == Some(v.user@)
    &&& json_str_at(body, "state"@) == Some(luau_execution_state_name(v.state))
    &&& json_sub_at(body, "output"@) matches Some(t) && luau_execution_output_matches(t, v.output)
}

impl LuauExecutionSessionTask {
    /// Reads a [`LuauExecutionSessionTask`] out of a JSON body; fails exactly when the body
    /// does not have its shape.
    pub fn decode(body: &str) -> (r: Result<LuauExecutionSessionTask, Error>)
        ensures
            luau_execution_session_task_parses(body@) <==> r is Ok,
            r matches Ok(v) ==> luau_execution_session_task_matches(body@, v),
            r matches Err(e) ==> e is SerdeJsonError,
    {
        let path = match json_str_field(body, "path") {
            Some(x) => x,
            None => {
                return Err(malformed("LuauExecutionSessionTask"));
            },
        };
        let create_time = match json_str_field(body, "createTime") {
            Some(x) => x,
            None => {
                return Err(malformed("LuauExecutionSessionTask"));
            },
        };
        let update_time = match json_str_field(body, "updateTime") {
            Some(x) => x,
            None => {
                return Err(malformed("LuauExecutionSessionTask"));
            },
        };
        let user = match json_str_field(body, "user") {
            Some(x) => x,
            None => {
                return Err(malformed("LuauExecutionSessionTask"));
            },
        };
        let state = match json_str_field(body, "state") {
            Some(s) => match LuauExecutionState::from_name(s.as_str()) {
                Some(x) => x,
                None => {
                    return Err(malformed("LuauExecutionSessionTask"));
                },
            },
            None => {
                return Err(malformed("LuauExecutionSessionTask"));
            },
        };
        let output = match json_sub_text(body, "output") {
            Some(t) => match LuauExecutionOutput::decode(t.as_str()) {
                Ok(x) => x,
                Err(e) => {
                    return Err(e);
                },
            },
            None => {
                return Err(malformed("LuauExecutionSessionTask"));
            },
        };
        Ok(LuauExecutionSessionTask { path, create_time, update_time, user, state, output })
    }
}

} // verus!
