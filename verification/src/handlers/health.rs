//! The health, readiness and status answers.

use vstd::prelude::*;
use crate::config::settings::Settings;
use crate::handlers::pubsub_handler::{pair, text_value};
use crate::json::{lemma_members_view, object_of, JsonValue, JsonView};
use crate::text::{owned, str_is_empty};

verus! {

/// The name the service reports.
pub open spec fn service_name() -> Seq<char> {
    "chatguru-clickup-middleware"@
}

/// How the ClickUp probe of the readiness check ended.
#[derive(Debug, Clone, Copy, PartialEq, Eq)]
pub enum ClickUpProbe {
    Connected,
    Disconnected,
    /// No answer within three seconds.
    Timeout,
}

/// The status reported for a probe.
pub open spec fn probe_status(p: ClickUpProbe) -> Seq<char> {
    match p {
        ClickUpProbe::Connected => "connected"@,
        ClickUpProbe::Disconnected => "disconnected"@,
        ClickUpProbe::Timeout => "timeout"@,
    }
}

/// Whether the service is ready: a slow ClickUp counts as ready, a failing one does not.
pub open spec fn ready_of(p: ClickUpProbe) -> bool {
    p != ClickUpProbe::Disconnected
}

/// The readiness report.
pub open spec fn ready_json(p: ClickUpProbe, version: Seq<char>, timestamp: Seq<char>, workspace_id: Seq<char>) -> JsonView {
    JsonView::Object(seq![
        ("dependencies"@, JsonView::Object(seq![
            ("clickup"@, JsonView::Object(seq![
                ("status"@, JsonView::Str(probe_status(p))),
                ("workspace_id"@, JsonView::Str(workspace_id)),
            ])),
        ])),
        ("ready"@, JsonView::Bool(ready_of(p))),
        ("service"@, JsonView::Str(service_name())),
        ("timestamp"@, JsonView::Str(timestamp)),
        ("version"@, JsonView::Str(version)),
    ])
}

/// The readiness answer: the report when ready, else (503) the report under `details`.
pub open spec fn readiness_json(p: ClickUpProbe, version: Seq<char>, timestamp: Seq<char>, workspace_id: Seq<char>) -> JsonView {
    if ready_of(p) {
        ready_json(p, version, timestamp, workspace_id)
    } else {
        JsonView::Object(seq![
            ("details"@, ready_json(p, version, timestamp, workspace_id)),
            ("error"@, JsonView::Str("Service not ready"@)),
        ])
    }
}

/// Whether the service is ready after a probe.
pub fn is_ready(p: ClickUpProbe) -> (r: bool)
    ensures
        r == ready_of(p),
{
    match p {
        ClickUpProbe::Disconnected => false,
        _ => true,
    }
}

/// The readiness answer: with `true`, sent as 200, else as 503.
pub fn readiness(p: ClickUpProbe, version: &str, timestamp: &str, workspace_id: &str) -> (r: (bool, JsonValue))
    ensures
        r.0 == ready_of(p),
        r.1@ == readiness_json(p, version@, timestamp@, workspace_id@),
{
    let status = match p {
        ClickUpProbe::Connected => "connected",
        ClickUpProbe::Disconnected => "disconnected",
        ClickUpProbe::Timeout => "timeout",
    };
    let ready = is_ready(p);
    let mut c: Vec<(String, JsonValue)> = Vec::new();
    c.push(pair("status", text_value(status)));
    c.push(pair("workspace_id", text_value(workspace_id)));
    proof {
        lemma_members_view(c@, seq![
            ("status"@, JsonView::Str(probe_status(p))),
            ("workspace_id"@, JsonView::Str(workspace_id@)),
        ]);
    }
    let clickup = object_of(c);
    let mut d: Vec<(String, JsonValue)> = Vec::new();
    d.push(pair("clickup", clickup));
    let ghost clickup_view = JsonView::Object(seq![
        ("status"@, JsonView::Str(probe_status(p))),
        ("workspace_id"@, JsonView::Str(workspace_id@)),
    ]);
    proof {
        lemma_members_view(d@, seq![("clickup"@, clickup_view)]);
    }
    let deps = object_of(d);
    let mut m: Vec<(String, JsonValue)> = Vec::new();
    m.push(pair("dependencies", deps));
    m.push(pair("ready", JsonValue::Bool(ready)));
    m.push(pair("service", text_value("chatguru-clickup-middleware")));
    m.push(pair("timestamp", text_value(timestamp)));
    m.push(pair("version", text_value(version)));
    proof {
        lemma_members_view(m@, seq![
            ("dependencies"@, JsonView::Object(seq![("clickup"@, clickup_view)])),
            ("ready"@, JsonView::Bool(ready_of(p))),
            ("service"@, JsonView::Str(service_name())),
            ("timestamp"@, JsonView::Str(timestamp@)),
            ("version"@, JsonView::Str(version@)),
        ]);
    }
    let report = object_of(m);
    if ready {
        (true, report)
    } else {
        let mut e: Vec<(String, JsonValue)> = Vec::new();
        e.push(pair("details", report));
        e.push(pair("error", text_value("Service not ready")));
        proof {
            lemma_members_view(e@, seq![
                ("details"@, ready_json(p, version@, timestamp@, workspace_id@)),
                ("error"@, JsonView::Str("Service not ready"@)),
            ]);
        }
        (false, object_of(e))
    }
}

/// The liveness answer; `memory_ok` says whether `RUST_LOG` is set.
pub open spec fn health_json(version: Seq<char>, timestamp: Seq<char>, rust_log_set: bool) -> JsonView {
    JsonView::Object(seq![
        ("memory_ok"@, JsonView::Bool(rust_log_set)),
        ("service"@, JsonView::Str(service_name())),
        ("status"@, JsonView::Str("healthy"@)),
        ("timestamp"@, JsonView::Str(timestamp)),
        ("version"@, JsonView::Str(version)),
    ])
}

/// The liveness answer.
pub fn health_body(version: &str, timestamp: &str, rust_log_set: bool) -> (r: JsonValue)
    ensures
        r@ == health_json(version@, timestamp@, rust_log_set),
{
    let mut m: Vec<(String, JsonValue)> = Vec::new();
    m.push(pair("memory_ok", JsonValue::Bool(rust_log_set)));
    m.push(pair("service", text_value("chatguru-clickup-middleware")));
    m.push(pair("status", text_value("healthy")));
    m.push(pair("timestamp", text_value(timestamp)));
    m.push(pair("version", text_value(version)));
    proof {
        lemma_members_view(m@, seq![
            ("memory_ok"@, JsonView::Bool(rust_log_set)),
            ("service"@, JsonView::Str(service_name())),
            ("status"@, JsonView::Str("healthy"@)),
            ("timestamp"@, JsonView::Str(timestamp@)),
            ("version"@, JsonView::Str(version@)),
        ]);
    }
    object_of(m)
}

/// Whether ClickUp is configured: a token and a list.
pub open spec fn clickup_configured(s: Settings) -> bool {
    s.clickup.token@.len() > 0 && s.clickup.list_id@.len() > 0
}

/// Whether the ChatGuru API is configured: a token, an endpoint and an account.
pub open spec fn chatguru_configured(s: Settings) -> bool {
    s.chatguru.api_token is Some && s.chatguru.api_endpoint is Some && s.chatguru.account_id is Some
}

/// The ClickUp part of the status; a configured ClickUp reports the list answer that the
/// status check stands in for (no name, status `ok`).
pub open spec fn clickup_status_json(s: Settings) -> JsonView {
    if clickup_configured(s) {
        JsonView::Object(seq![
            ("configured"@, JsonView::Bool(true)),
            ("connection"@, JsonView::Str("success"@)),
            ("list_id"@, JsonView::Str(s.clickup.list_id@)),
            ("list_name"@, JsonView::Str("unknown"@)),
            ("list_status"@, JsonView::Str("ok"@)),
            ("token_configured"@, JsonView::Bool(true)),
        ])
    } else {
        JsonView::Object(seq![
            ("configured"@, JsonView::Bool(false)),
            ("connection"@, JsonView::Str("not_configured"@)),
            ("list_id"@, JsonView::Str(s.clickup.list_id@)),
            ("token_configured"@, JsonView::Bool(s.clickup.token@.len() > 0)),
        ])
    }
}

/// The ChatGuru account reported, `not_configured` without one.
pub open spec fn account_text(s: Settings) -> Seq<char> {
    match s.chatguru.account_id {
        Some(a) => a@,
        None => "not_configured"@,
    }
}

/// The integrations part of the status.
pub open spec fn integrations_json(s: Settings) -> JsonView {
    JsonView::Object(seq![
        ("chatguru"@, JsonView::Object(seq![
            ("account_id"@, JsonView::Str(account_text(s))),
            ("api_configured"@, JsonView::Bool(chatguru_configured(s))),
            ("webhook_secret_configured"@, JsonView::Bool(s.chatguru.webhook_secret is Some)),
        ])),
        ("clickup"@, clickup_status_json(s)),
        ("openai"@, JsonView::Object(seq![
            ("enabled"@, JsonView::Bool(true)),
            ("project_id"@, JsonView::Str(s.gcp.project_id@)),
            ("region"@, JsonView::Str("us-central1"@)),
        ])),
        ("pubsub"@, JsonView::Object(seq![
            ("configured"@, JsonView::Bool(true)),
            ("connection"@, JsonView::Str("not_configured"@)),
            ("note"@, JsonView::Str("PubSub will be configured later"@)),
            ("project"@, JsonView::Str(s.gcp.project_id@)),
            ("topic"@, JsonView::Str(s.gcp.topic_name@)),
        ])),
    ])
}

/// The status report of the integrations.
pub open spec fn status_json(s: Settings, version: Seq<char>, timestamp: Seq<char>, environment: Seq<char>) -> JsonView {
    JsonView::Object(seq![
        ("chatguru_configured"@, JsonView::Bool(chatguru_configured(s))),
        ("clickup_connected"@, JsonView::Bool(clickup_configured(s))),
        ("environment"@, JsonView::Str(environment)),
        ("integrations"@, integrations_json(s)),
        ("service"@, JsonView::Str(service_name())),
        ("timestamp"@, JsonView::Str(timestamp)),
        ("uptime"@, JsonView::Str("N/A"@)),
        ("version"@, JsonView::Str(version)),
    ])
}

/// The ClickUp part of the status.
fn clickup_status(s: &Settings) -> (r: JsonValue)
    ensures
        r@ == clickup_status_json(*s),
{
    let has_token = !str_is_empty(s.clickup.token.as_str());
    let has_list = !str_is_empty(s.clickup.list_id.as_str());
    let mut m: Vec<(String, JsonValue)> = Vec::new();
    if has_token && has_list {
        m.push(pair("configured", JsonValue::Bool(true)));
        m.push(pair("connection", text_value("success")));
        m.push(pair("list_id", text_value(s.clickup.list_id.as_str())));
        m.push(pair("list_name", text_value("unknown")));
        m.push(pair("list_status", text_value("ok")));
        m.push(pair("token_configured", JsonValue::Bool(true)));
        proof {
            lemma_members_view(m@, seq![
                ("configured"@, JsonView::Bool(true)),
                ("connection"@, JsonView::Str("success"@)),
                ("list_id"@, JsonView::Str(s.clickup.list_id@)),
                ("list_name"@, JsonView::Str("unknown"@)),
                ("list_status"@, JsonView::Str("ok"@)),
                ("token_configured"@, JsonView::Bool(true)),
            ]);
        }
    } else {
        m.push(pair("configured", JsonValue::Bool(false)));
        m.push(pair("connection", text_value("not_configured")));
        m.push(pair("list_id", text_value(s.clickup.list_id.as_str())));
        m.push(pair("token_configured", JsonValue::Bool(has_token)));
        proof {
            lemma_members_view(m@, seq![
                ("configured"@, JsonView::Bool(false)),
                ("connection"@, JsonView::Str("not_configured"@)),
                ("list_id"@, JsonView::Str(s.clickup.list_id@)),
                ("token_configured"@, JsonView::Bool(s.clickup.token@.len() > 0)),
            ]);
        }
    }
    object_of(m)
}

/// The integrations part of the status.
fn integrations(s: &Settings) -> (r: JsonValue)
    ensures
        r@ == integrations_json(*s),
{
    let configured = s.chatguru.api_token.is_some() && s.chatguru.api_endpoint.is_some()
        && s.chatguru.account_id.is_some();
    let account = match &s.chatguru.account_id {
        Some(a) => a.clone(),
        None => owned("not_configured"),
    };
    let mut cg: Vec<(String, JsonValue)> = Vec::new();
    cg.push(pair("account_id", JsonValue::Str(account)));
    cg.push(pair("api_configured", JsonValue::Bool(configured)));
    cg.push(pair("webhook_secret_configured", JsonValue::Bool(s.chatguru.webhook_secret.is_some())));
    let ghost cg_view = seq![
        ("account_id"@, JsonView::Str(account_text(*s))),
        ("api_configured"@, JsonView::Bool(chatguru_configured(*s))),
        ("webhook_secret_configured"@, JsonView::Bool(s.chatguru.webhook_secret is Some)),
    ];
    proof {
        lemma_members_view(cg@, cg_view);
    }
    let mut oa: Vec<(String, JsonValue)> = Vec::new();
    oa.push(pair("enabled", JsonValue::Bool(true)));
    oa.push(pair("project_id", text_value(s.gcp.project_id.as_str())));
    oa.push(pair("region", text_value("us-central1")));
    let ghost oa_view = seq![
        ("enabled"@, JsonView::Bool(true)),
        ("project_id"@, JsonView::Str(s.gcp.project_id@)),
        ("region"@, JsonView::Str("us-central1"@)),
    ];
    proof {
        lemma_members_view(oa@, oa_view);
    }
    let mut ps: Vec<(String, JsonValue)> = Vec::new();
    ps.push(pair("configured", JsonValue::Bool(true)));
    ps.push(pair("connection", text_value("not_configured")));
    ps.push(pair("note", text_value("PubSub will be configured later")));
    ps.push(pair("project", text_value(s.gcp.project_id.as_str())));
    ps.push(pair("topic", text_value(s.gcp.topic_name.as_str())));
    let ghost ps_view = seq![
        ("configured"@, JsonView::Bool(true)),
        ("connection"@, JsonView::Str("not_configured"@)),
        ("note"@, JsonView::Str("PubSub will be configured later"@)),
        ("project"@, JsonView::Str(s.gcp.project_id@)),
        ("topic"@, JsonView::Str(s.gcp.topic_name@)),
    ];
    proof {
        lemma_members_view(ps@, ps_view);
    }
    let mut m: Vec<(String, JsonValue)> = Vec::new();
    m.push(pair("chatguru", object_of(cg)));
    m.push(pair("clickup", clickup_status(s)));
    m.push(pair("openai", object_of(oa)));
    m.push(pair("pubsub", object_of(ps)));
    proof {
        lemma_members_view(m@, seq![
            ("chatguru"@, JsonView::Object(cg_view)),
            ("clickup"@, clickup_status_json(*s)),
            ("openai"@, JsonView::Object(oa_view)),
            ("pubsub"@, JsonView::Object(ps_view)),
        ]);
    }
    object_of(m)
}

/// The status report of the integrations, for the settings, the running version, the time
/// and `RUST_ENV` (`development` when unset).
pub fn status_body(settings: &Settings, version: &str, timestamp: &str, environment: &str) -> (r: JsonValue)
    ensures
        r@ == status_json(*settings, version@, timestamp@, environment@),
{
    let chatguru = settings.chatguru.api_token.is_some() && settings.chatguru.api_endpoint.is_some()
        && settings.chatguru.account_id.is_some();
    let clickup = !str_is_empty(settings.clickup.token.as_str()) && !str_is_empty(settings.clickup.list_id.as_str());
    let mut m: Vec<(String, JsonValue)> = Vec::new();
    m.push(pair("chatguru_configured", JsonValue::Bool(chatguru)));
    m.push(pair("clickup_connected", JsonValue::Bool(clickup)));
    m.push(pair("environment", text_value(environment)));
    m.push(pair("integrations", integrations(settings)));
    m.push(pair("service", text_value("chatguru-clickup-middleware")));
    m.push(pair("timestamp", text_value(timestamp)));
    m.push(pair("uptime", text_value("N/A")));
    m.push(pair("version", text_value(version)));
    proof {
        lemma_members_view(m@, seq![
            ("chatguru_configured"@, JsonView::Bool(chatguru_configured(*settings))),
            ("clickup_connected"@, JsonView::Bool(clickup_configured(*settings))),
            ("environment"@, JsonView::Str(environment@)),
            ("integrations"@, integrations_json(*settings)),
            ("service"@, JsonView::Str(service_name())),
            ("timestamp"@, JsonView::Str(timestamp@)),
            ("uptime"@, JsonView::Str("N/A"@)),
            ("version"@, JsonView::Str(version@)),
        ]);
    }
    object_of(m)
}

} // verus!
