//! Events that ClickUp pushes to the middleware: the envelope republished on Pub/Sub and
//! the retries of the publication.
//!
//! The signature check and the payload's type belong to the ClickUp client crate; the
//! handler awaits them and Pub/Sub around these decisions.

use vstd::prelude::*;
use crate::handlers::pubsub_handler::{pair, text_value};
use crate::json::{lemma_members_view, object_of, JsonValue, JsonView};
use crate::text::owned;

verus! {

/// The topic used when none is configured.
pub open spec fn default_webhook_topic() -> Seq<char> {
    "clickup-webhook-events"@
}

/// The topic events are published on: the configured one, else the default.
pub fn webhook_topic(configured: Option<&str>) -> (r: String)
    ensures
        r@ == match configured {
            Some(t) => t@,
            None => default_webhook_topic(),
        },
{
    match configured {
        Some(t) => owned(t),
        None => owned("clickup-webhook-events"),
    }
}

/// How many times a publication is tried.
pub open spec fn max_publish_attempts() -> u32 {
    3
}

/// The wait after a failed attempt (numbered from one) before the next, in milliseconds:
/// 100, then doubled; none after the last attempt.
pub open spec fn retry_backoff_spec(attempt: u32) -> Option<u64> {
    if attempt == 1 {
        Some(100)
    } else if attempt == 2 {
        Some(200)
    } else {
        None
    }
}

/// The wait after a failed attempt, or `None` when the error is given up with.
pub fn retry_backoff_ms(attempt: u32) -> (r: Option<u64>)
    requires
        attempt >= 1,
    ensures
        r == retry_backoff_spec(attempt),
        r is Some <==> attempt < max_publish_attempts(),
{
    if attempt < 3 {
        let mut b: u64 = 100;
        let mut k: u32 = 1;
        while k < attempt
            invariant
                1 <= k <= attempt,
                attempt < 3,
                b == if k == 1 { 100u64 } else { 200u64 },
            decreases attempt - k,
        {
            b = b * 2;
            k = k + 1;
        }
        Some(b)
    } else {
        None
    }
}

/// The view of an optional id: a string, or null.
pub open spec fn opt_id_json(o: Option<String>) -> JsonView {
    match o {
        Some(s) => JsonView::Str(s@),
        None => JsonView::Null,
    }
}

/// An optional id as a JSON value.
fn opt_id(o: &Option<String>) -> (r: JsonValue)
    ensures
        r@ == opt_id_json(*o),
{
    match o {
        Some(s) => JsonValue::Str(s.clone()),
        None => JsonValue::Null,
    }
}

/// The ids of a ClickUp event.
#[derive(Debug, Clone)]
pub struct EventIds {
    pub webhook_id: String,
    /// The event's name, as ClickUp writes it (`taskCreated`, ...).
    pub event: String,
    pub task_id: Option<String>,
    pub list_id: Option<String>,
    pub folder_id: Option<String>,
    pub space_id: Option<String>,
}

/// The envelope published for a ClickUp event, members in `serde_json`'s key order.
pub open spec fn event_envelope_json(ids: EventIds, data: JsonView, received_at: Seq<char>) -> JsonView {
    JsonView::Object(seq![
        ("data"@, data),
        ("event"@, JsonView::Str(ids.event@)),
        ("folder_id"@, opt_id_json(ids.folder_id)),
        ("list_id"@, opt_id_json(ids.list_id)),
        ("received_at"@, JsonView::Str(received_at)),
        ("source"@, JsonView::Str("clickup-webhook"@)),
        ("space_id"@, opt_id_json(ids.space_id)),
        ("task_id"@, opt_id_json(ids.task_id)),
        ("webhook_id"@, JsonView::Str(ids.webhook_id@)),
    ])
}

/// The envelope published for a ClickUp event received at `received_at` (RFC 3339).
pub fn event_envelope(ids: &EventIds, data: JsonValue, received_at: &str) -> (r: JsonValue)
    ensures
        r@ == event_envelope_json(*ids, data@, received_at@),
{
    let ghost dv = data@;
    let mut m: Vec<(String, JsonValue)> = Vec::new();
    m.push(pair("data", data));
    m.push(pair("event", text_value(ids.event.as_str())));
    m.push(pair("folder_id", opt_id(&ids.folder_id)));
    m.push(pair("list_id", opt_id(&ids.list_id)));
    m.push(pair("received_at", text_value(received_at)));
    m.push(pair("source", text_value("clickup-webhook")));
    m.push(pair("space_id", opt_id(&ids.space_id)));
    m.push(pair("task_id", opt_id(&ids.task_id)));
    m.push(pair("webhook_id", text_value(ids.webhook_id.as_str())));
    proof {
        lemma_members_view(m@, seq![
            ("data"@, dv),
            ("event"@, JsonView::Str(ids.event@)),
            ("folder_id"@, opt_id_json(ids.folder_id)),
            ("list_id"@, opt_id_json(ids.list_id)),
            ("received_at"@, JsonView::Str(received_at@)),
            ("source"@, JsonView::Str("clickup-webhook"@)),
            ("space_id"@, opt_id_json(ids.space_id)),
            ("task_id"@, opt_id_json(ids.task_id)),
            ("webhook_id"@, JsonView::Str(ids.webhook_id@)),
        ]);
    }
    object_of(m)
}

/// The answer once the event is published.
pub fn published_response() -> (r: JsonValue)
    ensures
        r@ == JsonView::Object(seq![
            ("message"@, JsonView::Str("Event published to Pub/Sub"@)),
            ("status"@, JsonView::Str("success"@)),
        ]),
{
    let mut m: Vec<(String, JsonValue)> = Vec::new();
    m.push(pair("message", text_value("Event published to Pub/Sub")));
    m.push(pair("status", text_value("success")));
    proof {
        lemma_members_view(m@, seq![
            ("message"@, JsonView::Str("Event published to Pub/Sub"@)),
            ("status"@, JsonView::Str("success"@)),
        ]);
    }
    object_of(m)
}

} // verus!
