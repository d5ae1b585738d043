//! Events published on Pub/Sub, and the attributes by which subscribers filter them.

use vstd::prelude::*;
use crate::json::{str_at, JsonValue};
use crate::text::owned;

verus! {

/// The kinds of published events.
#[derive(Debug, Clone, Copy, PartialEq, Eq, Structural)]
pub enum EventType {
    TaskCreated,
    TaskUpdated,
    TaskDuplicate,
    ErrorCritical,
    AnnotationProcessed,
    WebhookReceived,
    CloudTaskEnqueued,
    ProcessingCompleted,
}

/// The name of a kind, as its `Debug` notation writes it.
pub open spec fn event_type_name(t: EventType) -> Seq<char> {
    match t {
        EventType::TaskCreated => "TaskCreated"@,
        EventType::TaskUpdated => "TaskUpdated"@,
        EventType::TaskDuplicate => "TaskDuplicate"@,
        EventType::ErrorCritical => "ErrorCritical"@,
        EventType::AnnotationProcessed => "AnnotationProcessed"@,
        EventType::WebhookReceived => "WebhookReceived"@,
        EventType::CloudTaskEnqueued => "CloudTaskEnqueued"@,
        EventType::ProcessingCompleted => "ProcessingCompleted"@,
    }
}

impl EventType {
    /// The name of the kind.
    pub fn name(&self) -> (r: String)
        ensures
            r@ == event_type_name(*self),
    {
        match self {
            EventType::TaskCreated => owned("TaskCreated"),
            EventType::TaskUpdated => owned("TaskUpdated"),
            EventType::TaskDuplicate => owned("TaskDuplicate"),
            EventType::ErrorCritical => owned("ErrorCritical"),
            EventType::AnnotationProcessed => owned("AnnotationProcessed"),
            EventType::WebhookReceived => owned("WebhookReceived"),
            EventType::CloudTaskEnqueued => owned("CloudTaskEnqueued"),
            EventType::ProcessingCompleted => owned("ProcessingCompleted"),
        }
    }
}

/// A published event.
#[derive(Debug)]
pub struct PubSubEvent {
    pub event_type: EventType,
    pub event_id: String,
    pub timestamp: String,
    pub source: String,
    pub data: JsonValue,
    pub metadata: Option<JsonValue>,
}

/// The attributes of an event: its kind, source, id and time; the campaign of a task event
/// that names one; the severity and alert flag of a critical error.
pub open spec fn event_attributes_spec(e: PubSubEvent) -> Seq<(Seq<char>, Seq<char>)> {
    let base = seq![
        ("event_type"@, event_type_name(e.event_type)),
        ("source"@, e.source@),
        ("event_id"@, e.event_id@),
        ("timestamp"@, e.timestamp@),
    ];
    match e.event_type {
        EventType::TaskCreated | EventType::TaskUpdated => match str_at(e.data@, "campanha"@) {
            Some(c) => base.push(("campanha"@, c)),
            None => base,
        },
        EventType::ErrorCritical => base + seq![("severity"@, "critical"@), ("alert_required"@, "true"@)],
        _ => base,
    }
}

/// The view of attribute pairs.
pub open spec fn pairs_view(v: Seq<(String, String)>) -> Seq<(Seq<char>, Seq<char>)> {
    v.map_values(|p: (String, String)| (p.0@, p.1@))
}

/// The attributes of an event, in order.
pub fn event_attributes(e: &PubSubEvent) -> (r: Vec<(String, String)>)
    ensures
        pairs_view(r@) == event_attributes_spec(*e),
{
    let mut a: Vec<(String, String)> = Vec::new();
    a.push((owned("event_type"), e.event_type.name()));
    a.push((owned("source"), e.source.clone()));
    a.push((owned("event_id"), e.event_id.clone()));
    a.push((owned("timestamp"), e.timestamp.clone()));
    let ghost base = pairs_view(a@);
    assert(base =~= seq![
        ("event_type"@, event_type_name(e.event_type)),
        ("source"@, e.source@),
        ("event_id"@, e.event_id@),
        ("timestamp"@, e.timestamp@),
    ]);
    match e.event_type {
        EventType::TaskCreated | EventType::TaskUpdated => {
            match e.data.get("campanha") {
                Some(v) => match v.as_str() {
                    Some(c) => {
                        a.push((owned("campanha"), c.clone()));
                        assert(pairs_view(a@) =~= base.push(("campanha"@, c@)));
                    },
                    None => {},
                },
                None => {},
            }
        },
        EventType::ErrorCritical => {
            a.push((owned("severity"), owned("critical")));
            a.push((owned("alert_required"), owned("true")));
            assert(pairs_view(a@) =~= base + seq![("severity"@, "critical"@), ("alert_required"@, "true"@)]);
        },
        _ => {},
    }
    a
}

} // verus!
