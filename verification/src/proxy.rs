//! The request proxy: one verified request plan per endpoint — method, URL,
//! body and timeout pinned exactly — and one shared mapping from what came
//! back (or failed to come back) into the uniform error taxonomy. The HTTP
//! exchange itself is the hosting layer's: it executes a `RequestPlan`,
//! hands the result in as an `HttpReply`, and receives the typed outcome.

use vstd::prelude::*;
use vstd::string::StringExecFns;
use crate::json::{
    json_parses, json_value_of, json_field, json_bool_of, json_number, json_from_str, json_get,
    json_as_bool, json_is_number, json_clone, json_error_message,
};

verus! {

/// The worker's fixed API base URL.
pub const API_BASE_URL: &'static str = "http://localhost:8765";

/// Per-operation timeout budget, in seconds: reads and queries.
pub const READ_TIMEOUT_SECS: u64 = 5;

/// Per-operation timeout budget, in seconds: camera discovery.
pub const DISCOVER_TIMEOUT_SECS: u64 = 10;

/// Per-operation timeout budget, in seconds: camera add and remove.
pub const CAMERA_EDIT_TIMEOUT_SECS: u64 = 10;

/// Per-operation timeout budget, in seconds: the camera connectivity test.
pub const CAMERA_TEST_TIMEOUT_SECS: u64 = 15;

/// The default discovery timeout sent to the worker when the caller gives
/// none.
pub const DEFAULT_DISCOVER_SECS: u32 = 5;

#[derive(Clone, Copy, PartialEq, Eq, Structural, Debug)]
pub enum Method {
    Get,
    Post,
    Delete,
}

/// One value of a JSON request body. A numeric value arrives already
/// rendered as its JSON literal text, so that no floating point runs
/// through this layer.
#[derive(PartialEq, Eq, Debug)]
pub enum FieldValue {
    Bool(bool),
    Uint(u32),
    Decimal(String),
    Text(String),
}

/// One field of a JSON request body.
#[derive(PartialEq, Eq, Debug)]
pub struct BodyField {
    pub name: String,
    pub value: FieldValue,
}

/// Everything the hosting layer needs to issue one request: the method, the
/// full URL, the body fields in order (None for body-less requests), and
/// the timeout budget.
#[derive(PartialEq, Eq, Debug)]
pub struct RequestPlan {
    pub method: Method,
    pub url: String,
    pub body: Option<Vec<BodyField>>,
    pub timeout_secs: u64,
}

/// The uniform error taxonomy: a transport-level failure with its cause, a
/// non-success HTTP status with its code, or a body that failed to decode
/// with the decoding cause.
#[derive(PartialEq, Eq, Debug)]
pub enum ProxyError {
    Transport { cause: String },
    Status { code: u16 },
    Parse { cause: String },
}

/// What one HTTP exchange produced, as the hosting layer saw it: no
/// response at all, or a response with its status code and body.
#[derive(PartialEq, Eq, Debug)]
pub enum HttpReply {
    TransportFailed { cause: String },
    Responded { status: u16, body: ReplyBody },
}

/// The body of a response: its text, or the cause of the failure to read
/// it.
#[derive(PartialEq, Eq, Debug)]
pub enum ReplyBody {
    Text(String),
    Unreadable { cause: String },
}

/// A snapshot of dashboard state as the worker reported it: the alerts and
/// configuration payloads are forwarded verbatim, and the capture timestamp
/// is kept as the JSON number it arrived as.
#[derive(PartialEq, Debug)]
pub struct DashboardData {
    pub alerts: serde_json::Value,
    pub config: serde_json::Value,
    pub timestamp: serde_json::Value,
}

fn join_url(base: &str, path: &str) -> (url: String)
    ensures
        url@ == base@ + path@,
{
    let mut url = String::from_str(base);
    url.append(path);
    url
}

fn camera_url(base: &str, camera_id: &str, suffix: &str) -> (url: String)
    ensures
        url@ == base@ + "/api/cameras/"@ + camera_id@ + suffix@,
{
    let mut url = String::from_str(base);
    url.append("/api/cameras/");
    url.append(camera_id);
    url.append(suffix);
    url
}

/// The dashboard snapshot query.
pub fn dashboard_request(base: &str) -> (plan: RequestPlan)
    ensures
        plan.method == Method::Get,
        plan.url@ == base@ + "/api/dashboard"@,
        plan.body is None,
        plan.timeout_secs == READ_TIMEOUT_SECS,
{
    RequestPlan {
        method: Method::Get,
        url: join_url(base, "/api/dashboard"),
        body: None,
        timeout_secs: READ_TIMEOUT_SECS,
    }
}

/// The camera feed listing query.
pub fn camera_feeds_request(base: &str) -> (plan: RequestPlan)
    ensures
        plan.method == Method::Get,
        plan.url@ == base@ + "/api/cameras"@,
        plan.body is None,
        plan.timeout_secs == READ_TIMEOUT_SECS,
{
    RequestPlan {
        method: Method::Get,
        url: join_url(base, "/api/cameras"),
        body: None,
        timeout_secs: READ_TIMEOUT_SECS,
    }
}

/// The system metrics query.
pub fn metrics_request(base: &str) -> (plan: RequestPlan)
    ensures
        plan.method == Method::Get,
        plan.url@ == base@ + "/api/metrics"@,
        plan.body is None,
        plan.timeout_secs == READ_TIMEOUT_SECS,
{
    RequestPlan {
        method: Method::Get,
        url: join_url(base, "/api/metrics"),
        body: None,
        timeout_secs: READ_TIMEOUT_SECS,
    }
}

/// The single-frame query for one camera.
pub fn camera_frame_request(base: &str, camera_id: &str) -> (plan: RequestPlan)
    ensures
        plan.method == Method::Get,
        plan.url@ == base@ + "/api/cameras/"@ + camera_id@ + "/frame"@,
        plan.body is None,
        plan.timeout_secs == READ_TIMEOUT_SECS,
{
    RequestPlan {
        method: Method::Get,
        url: camera_url(base, camera_id, "/frame"),
        body: None,
        timeout_secs: READ_TIMEOUT_SECS,
    }
}

/// The threshold update. The numeric value arrives rendered as its JSON
/// literal text.
pub fn threshold_request(base: &str, threshold_name: String, value_text: String) -> (plan:
    RequestPlan)
    ensures
        plan.method == Method::Post,
        plan.url@ == base@ + "/api/threshold"@,
        plan.timeout_secs == READ_TIMEOUT_SECS,
        match plan.body {
            Some(b) => b@.len() == 2 && b@[0].name@ == "threshold_name"@ && b@[0].value
                == FieldValue::Text(threshold_name) && b@[1].name@ == "value"@ && b@[1].value
                == FieldValue::Decimal(value_text),
            None => false,
        },
{
    let mut fields: Vec<BodyField> = Vec::new();
    fields.push(
        BodyField {
            name: String::from_str("threshold_name"),
            value: FieldValue::Text(threshold_name),
        },
    );
    fields.push(BodyField { name: String::from_str("value"), value: FieldValue::Decimal(value_text) });
    RequestPlan {
        method: Method::Post,
        url: join_url(base, "/api/threshold"),
        body: Some(fields),
        timeout_secs: READ_TIMEOUT_SECS,
    }
}

/// The alert acknowledgement.
pub fn acknowledge_request(base: &str, alert_id: String) -> (plan: RequestPlan)
    ensures
        plan.method == Method::Post,
        plan.url@ == base@ + "/api/acknowledge"@,
        plan.timeout_secs == READ_TIMEOUT_SECS,
        match plan.body {
            Some(b) => b@.len() == 1 && b@[0].name@ == "alert_id"@ && b@[0].value
                == FieldValue::Text(alert_id),
            None => false,
        },
{
    let mut fields: Vec<BodyField> = Vec::new();
    fields.push(BodyField { name: String::from_str("alert_id"), value: FieldValue::Text(alert_id) });
    RequestPlan {
        method: Method::Post,
        url: join_url(base, "/api/acknowledge"),
        body: Some(fields),
        timeout_secs: READ_TIMEOUT_SECS,
    }
}

/// The camera discovery command; a missing timeout falls back to the fixed
/// default.
pub fn discover_request(base: &str, timeout: Option<u32>) -> (plan: RequestPlan)
    ensures
        plan.method == Method::Post,
        plan.url@ == base@ + "/api/cameras/discover"@,
        plan.timeout_secs == DISCOVER_TIMEOUT_SECS,
        match plan.body {
            Some(b) => b@.len() == 1 && b@[0].name@ == "timeout"@ && b@[0].value
                == FieldValue::Uint(
                match timeout {
                    Some(t) => t,
                    None => DEFAULT_DISCOVER_SECS,
                },
            ),
            None => false,
        },
{
    let secs: u32 = match timeout {
        Some(t) => t,
        None => DEFAULT_DISCOVER_SECS,
    };
    let mut fields: Vec<BodyField> = Vec::new();
    fields.push(BodyField { name: String::from_str("timeout"), value: FieldValue::Uint(secs) });
    RequestPlan {
        method: Method::Post,
        url: join_url(base, "/api/cameras/discover"),
        body: Some(fields),
        timeout_secs: DISCOVER_TIMEOUT_SECS,
    }
}

/// How many of the two optional credentials are given.
pub open spec fn credential_count(username: Option<String>, password: Option<String>) -> int {
    (if username is Some {
        1int
    } else {
        0int
    }) + (if password is Some {
        1int
    } else {
        0int
    })
}

/// The optional credential fields stand at the body's tail, username before
/// password, each present exactly when given.
pub open spec fn credentials_at(
    b: Seq<BodyField>,
    from: int,
    username: Option<String>,
    password: Option<String>,
) -> bool {
    &&& b.len() == from + credential_count(username, password)
    &&& (username matches Some(u) ==> b[from].name@ == "username"@ && b[from].value
        == FieldValue::Text(u))
    &&& (password matches Some(p) ==> {
        let j = if username is Some {
            from + 1
        } else {
            from
        };
        b[j].name@ == "password"@ && b[j].value == FieldValue::Text(p)
    })
}

/// Appends the optional credential fields, username before password, each
/// only when given.
fn push_credentials(fields: &mut Vec<BodyField>, username: Option<String>, password: Option<String>)
    ensures
        credentials_at(final(fields)@, old(fields)@.len() as int, username, password),
        forall|i: int| 0 <= i < old(fields)@.len() ==> final(fields)@[i] == old(fields)@[i],
{
    if let Some(u) = username {
        fields.push(BodyField { name: String::from_str("username"), value: FieldValue::Text(u) });
    }
    if let Some(p) = password {
        fields.push(BodyField { name: String::from_str("password"), value: FieldValue::Text(p) });
    }
}

/// The camera registration command: identifier, stream URL, the fixed
/// enabled flag, and the credentials when given.
pub fn add_camera_request(
    base: &str,
    camera_id: String,
    rtsp_url: String,
    username: Option<String>,
    password: Option<String>,
) -> (plan: RequestPlan)
    ensures
        plan.method == Method::Post,
        plan.url@ == base@ + "/api/cameras/add"@,
        plan.timeout_secs == CAMERA_EDIT_TIMEOUT_SECS,
        match plan.body {
            Some(b) => b@.len() == 3 + credential_count(username, password) && b@[0].name@
                == "camera_id"@ && b@[0].value == FieldValue::Text(camera_id) && b@[1].name@
                == "rtsp_url"@ && b@[1].value == FieldValue::Text(rtsp_url) && b@[2].name@
                == "enabled"@ && b@[2].value == FieldValue::Bool(true) && credentials_at(
                b@,
                3,
                username,
                password,
            ),
            None => false,
        },
{
    let mut fields: Vec<BodyField> = Vec::new();
    fields.push(BodyField { name: String::from_str("camera_id"), value: FieldValue::Text(camera_id) });
    fields.push(BodyField { name: String::from_str("rtsp_url"), value: FieldValue::Text(rtsp_url) });
    fields.push(BodyField { name: String::from_str("enabled"), value: FieldValue::Bool(true) });
    push_credentials(&mut fields, username, password);
    RequestPlan {
        method: Method::Post,
        url: join_url(base, "/api/cameras/add"),
        body: Some(fields),
        timeout_secs: CAMERA_EDIT_TIMEOUT_SECS,
    }
}

/// The camera connectivity test: the stream URL, and the credentials when
/// given; the camera identifier rides in the path.
pub fn test_camera_request(
    base: &str,
    camera_id: &str,
    rtsp_url: String,
    username: Option<String>,
    password: Option<String>,
) -> (plan: RequestPlan)
    ensures
        plan.method == Method::Post,
        plan.url@ == base@ + "/api/cameras/"@ + camera_id@ + "/test"@,
        plan.timeout_secs == CAMERA_TEST_TIMEOUT_SECS,
        match plan.body {
            Some(b) => b@.len() == 1 + credential_count(username, password) && b@[0].name@
                == "rtsp_url"@ && b@[0].value == FieldValue::Text(rtsp_url) && credentials_at(
                b@,
                1,
                username,
                password,
            ),
            None => false,
        },
{
    let mut fields: Vec<BodyField> = Vec::new();
    fields.push(BodyField { name: String::from_str("rtsp_url"), value: FieldValue::Text(rtsp_url) });
    push_credentials(&mut fields, username, password);
    RequestPlan {
        method: Method::Post,
        url: camera_url(base, camera_id, "/test"),
        body: Some(fields),
        timeout_secs: CAMERA_TEST_TIMEOUT_SECS,
    }
}

/// The camera removal command.
pub fn remove_camera_request(base: &str, camera_id: &str) -> (plan: RequestPlan)
    ensures
        plan.method == Method::Delete,
        plan.url@ == base@ + "/api/cameras/"@ + camera_id@ + "/remove"@,
        plan.body is None,
        plan.timeout_secs == CAMERA_EDIT_TIMEOUT_SECS,
{
    RequestPlan {
        method: Method::Delete,
        url: camera_url(base, camera_id, "/remove"),
        body: None,
        timeout_secs: CAMERA_EDIT_TIMEOUT_SECS,
    }
}

pub open spec fn spec_status_success(code: u16) -> bool {
    200 <= code < 300
}

/// The success test on an HTTP status code: the 2xx class, as the HTTP
/// client's own success predicate has it.
pub fn status_success(code: u16) -> (ok: bool)
    ensures
        ok == spec_status_success(code),
{
    200 <= code && code < 300
}

/// The shared hard-error mapping of every operation: a transport failure
/// becomes a transport error with its cause, a non-success status becomes a
/// status error with the exact code, an unreadable body of a success
/// response becomes a parse error; the readable body of a success response
/// is handed on for decoding.
pub fn classify_reply(reply: HttpReply) -> (r: Result<String, ProxyError>)
    ensures
        match reply {
            HttpReply::TransportFailed { cause } => r matches Err(e) && e == (ProxyError::Transport {
                cause,
            }),
            HttpReply::Responded { status, body } => (if !spec_status_success(status) {
                r matches Err(e) && e == (ProxyError::Status { code: status })
            } else {
                match body {
                    ReplyBody::Unreadable { cause } => r matches Err(e) && e == (ProxyError::Parse {
                        cause,
                    }),
                    ReplyBody::Text(t) => r matches Ok(out) && out == t,
                }
            }),
        },
{
    match reply {
        HttpReply::TransportFailed { cause } => Err(ProxyError::Transport { cause }),
        HttpReply::Responded { status, body } => {
            if !status_success(status) {
                Err(ProxyError::Status { code: status })
            } else {
                match body {
                    ReplyBody::Unreadable { cause } => Err(ProxyError::Parse { cause }),
                    ReplyBody::Text(t) => Ok(t),
                }
            }
        },
    }
}

/// The soft-success rule of the threshold and acknowledgement responses:
/// only an explicit boolean true in the body counts as success; a missing
/// or non-boolean field is an ordinary false, not an error.
pub fn soft_success_flag(field: Option<bool>) -> (r: bool)
    ensures
        r == (field == Some(true)),
{
    match field {
        Some(b) => b,
        None => false,
    }
}

/// The boolean under the "success" key of a parsed body, when the key is
/// there and holds one.
pub open spec fn spec_success_field(v: serde_json::Value) -> Option<bool> {
    match json_field(v, "success"@) {
        Some(x) => json_bool_of(x),
        None => None,
    }
}

/// Reads the "success" field of a parsed response body, as a boolean when
/// it is one.
fn body_success_field(v: &serde_json::Value) -> (f: Option<bool>)
    ensures
        f == spec_success_field(*v),
{
    match json_get(v, "success") {
        Some(inner) => json_as_bool(inner),
        None => None,
    }
}

/// The full result mapping of a generic-payload operation: hard errors as
/// `classify_reply` has them, then the body decoded as JSON — a body that
/// is not valid JSON is a parse error, a valid one is returned as-is.
pub fn handle_generic_reply(reply: HttpReply) -> (r: Result<serde_json::Value, ProxyError>)
    ensures
        match reply {
            HttpReply::TransportFailed { cause } => r matches Err(e) && e == (ProxyError::Transport {
                cause,
            }),
            HttpReply::Responded { status, body } => (if !spec_status_success(status) {
                r matches Err(e) && e == (ProxyError::Status { code: status })
            } else {
                match body {
                    ReplyBody::Unreadable { cause } => r matches Err(e) && e == (ProxyError::Parse {
                        cause,
                    }),
                    ReplyBody::Text(t) => (if json_parses(t@) {
                        r matches Ok(v) && v == json_value_of(t@)
                    } else {
                        r matches Err(e) && e is Parse
                    }),
                }
            }),
        },
{
    match classify_reply(reply) {
        Err(e) => Err(e),
        Ok(t) => match json_from_str(t.as_str()) {
            Ok(v) => Ok(v),
            Err(e) => Err(ProxyError::Parse { cause: json_error_message(&e) }),
        },
    }
}

/// The full result mapping of a soft-success operation: hard errors as
/// `classify_reply` has them, a body that is not valid JSON is a parse
/// error, and a valid body always yields a plain boolean — never an error —
/// by the soft-success rule.
pub fn handle_soft_reply(reply: HttpReply) -> (r: Result<bool, ProxyError>)
    ensures
        match reply {
            HttpReply::TransportFailed { cause } => r matches Err(e) && e == (ProxyError::Transport {
                cause,
            }),
            HttpReply::Responded { status, body } => (if !spec_status_success(status) {
                r matches Err(e) && e == (ProxyError::Status { code: status })
            } else {
                match body {
                    ReplyBody::Unreadable { cause } => r matches Err(e) && e == (ProxyError::Parse {
                        cause,
                    }),
                    ReplyBody::Text(t) => (if json_parses(t@) {
                        r matches Ok(b) && b == (spec_success_field(json_value_of(t@)) == Some(
                            true,
                        ))
                    } else {
                        r matches Err(e) && e is Parse
                    }),
                }
            }),
        },
{
    match classify_reply(reply) {
        Err(e) => Err(e),
        Ok(t) => match json_from_str(t.as_str()) {
            Ok(v) => Ok(soft_success_flag(body_success_field(&v))),
            Err(e) => Err(ProxyError::Parse { cause: json_error_message(&e) }),
        },
    }
}

/// Assembles a dashboard snapshot from the pieces read out of a parsed
/// response body; each missing or ill-typed piece yields the exact parse
/// error the caller reports, checked in this order: alerts, config,
/// timestamp present, timestamp numeric.
pub fn assemble_dashboard(
    alerts: Option<serde_json::Value>,
    config: Option<serde_json::Value>,
    timestamp: Option<serde_json::Value>,
    timestamp_is_number: bool,
) -> (r: Result<DashboardData, ProxyError>)
    ensures
        match (alerts, config, timestamp) {
            (Option::None, _, _) => r matches Err(e) && e matches ProxyError::Parse { cause }
                && cause@ == "missing field alerts"@,
            (Option::Some(_), Option::None, _) => r matches Err(e) && e matches ProxyError::Parse {
                cause,
            } && cause@ == "missing field config"@,
            (Option::Some(_), Option::Some(_), Option::None) => r matches Err(e) && e
                matches ProxyError::Parse { cause } && cause@ == "missing field timestamp"@,
            (Option::Some(a), Option::Some(c), Option::Some(t)) => (if timestamp_is_number {
                r matches Ok(d) && d.alerts == a && d.config == c && d.timestamp == t
            } else {
                r matches Err(e) && e matches ProxyError::Parse { cause } && cause@
                    == "field timestamp is not a number"@
            }),
        },
{
    match alerts {
        None => Err(ProxyError::Parse { cause: String::from_str("missing field alerts") }),
        Some(a) => match config {
            None => Err(ProxyError::Parse { cause: String::from_str("missing field config") }),
            Some(c) => match timestamp {
                None => Err(
                    ProxyError::Parse { cause: String::from_str("missing field timestamp") },
                ),
                Some(t) => {
                    if timestamp_is_number {
                        Ok(DashboardData { alerts: a, config: c, timestamp: t })
                    } else {
                        Err(
                            ProxyError::Parse {
                                cause: String::from_str("field timestamp is not a number"),
                            },
                        )
                    }
                },
            },
        },
    }
}

/// What the dashboard decode owes for a parsed body w: the exact snapshot —
/// the alerts, config and timestamp fields of w, verbatim — when all three
/// are present and the timestamp is a number, and the exact parse cause
/// otherwise, checked in this order: alerts, config, timestamp present,
/// timestamp numeric.
pub open spec fn spec_dashboard_outcome(
    w: serde_json::Value,
    r: Result<DashboardData, ProxyError>,
) -> bool {
    match (json_field(w, "alerts"@), json_field(w, "config"@), json_field(w, "timestamp"@)) {
        (Option::None, _, _) => r matches Err(e) && e matches ProxyError::Parse { cause } && cause@
            == "missing field alerts"@,
        (Option::Some(_), Option::None, _) => r matches Err(e) && e matches ProxyError::Parse {
            cause,
        } && cause@ == "missing field config"@,
        (Option::Some(_), Option::Some(_), Option::None) => r matches Err(e) && e
            matches ProxyError::Parse { cause } && cause@ == "missing field timestamp"@,
        (Option::Some(a), Option::Some(c), Option::Some(t)) => (if json_number(t) {
            r matches Ok(d) && d.alerts == a && d.config == c && d.timestamp == t
        } else {
            r matches Err(e) && e matches ProxyError::Parse { cause } && cause@
                == "field timestamp is not a number"@
        }),
    }
}

/// The full result mapping of the dashboard operation: hard errors as
/// `classify_reply` has them, a body that is not valid JSON is a parse
/// error, and a valid body assembles into the exact snapshot its fields
/// give, or the exact parse error naming what was missing.
pub fn handle_dashboard_reply(reply: HttpReply) -> (r: Result<DashboardData, ProxyError>)
    ensures
        match reply {
            HttpReply::TransportFailed { cause } => r matches Err(e) && e == (ProxyError::Transport {
                cause,
            }),
            HttpReply::Responded { status, body } => (if !spec_status_success(status) {
                r matches Err(e) && e == (ProxyError::Status { code: status })
            } else {
                match body {
                    ReplyBody::Unreadable { cause } => r matches Err(e) && e == (ProxyError::Parse {
                        cause,
                    }),
                    ReplyBody::Text(t) => (if json_parses(t@) {
                        spec_dashboard_outcome(json_value_of(t@), r)
                    } else {
                        r matches Err(e) && e is Parse
                    }),
                }
            }),
        },
{
    match classify_reply(reply) {
        Err(e) => Err(e),
        Ok(t) => match json_from_str(t.as_str()) {
            Err(e) => Err(ProxyError::Parse { cause: json_error_message(&e) }),
            Ok(v) => {
                let alerts = match json_get(&v, "alerts") {
                    Some(x) => Some(json_clone(x)),
                    None => None,
                };
                let config = match json_get(&v, "config") {
                    Some(x) => Some(json_clone(x)),
                    None => None,
                };
                let (timestamp, timestamp_is_number) = match json_get(&v, "timestamp") {
                    Some(x) => (Some(json_clone(x)), json_is_number(x)),
                    None => (None, false),
                };
                assemble_dashboard(alerts, config, timestamp, timestamp_is_number)
            },
        },
    }
}

} // verus!
