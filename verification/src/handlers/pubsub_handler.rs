//! Enrichment of tasks announced by Cloud Logging through Pub/Sub: decoding the log entry
//! and the answers of each step.
//!
//! The handler awaits ClickUp and the classifier between the steps; what it decides and
//! answers is here.

use vstd::prelude::*;
use crate::encoding::{base64_decoded, decode_base64, utf8_string};
use crate::json::{lemma_members_view, object_of, JsonValue, JsonView};
use crate::services::field_validator::ValidatedFieldValues;
use crate::services::task_classifier::Classification;
use crate::text::{decimal, owned, push_str, u64_to_decimal};

verus! {

/// A Pub/Sub message.
#[derive(Debug)]
pub struct PubSubMessage {
    /// The Base64-encoded data.
    pub data: String,
    pub attributes: Option<JsonValue>,
    pub message_id: Option<String>,
}

/// A Pub/Sub push request.
#[derive(Debug)]
pub struct PubSubPayload {
    pub message: PubSubMessage,
}

/// The classification written into a task.
#[derive(Debug)]
pub struct ClassificationResult {
    pub categoria: String,
    pub subcategoria: String,
    pub stars: u8,
}

/// The outcome of enriching a task.
#[derive(Debug)]
pub struct EnrichResponse {
    pub success: bool,
    pub task_id: Option<String>,
    pub action: String,
    pub classification: Option<ClassificationResult>,
    pub error: Option<String>,
}

/// The message id, or `unknown`.
pub fn message_id_or_unknown(m: &PubSubMessage) -> (r: String)
    ensures
        r@ == match m.message_id {
            Some(id) => id@,
            None => "unknown"@,
        },
{
    match &m.message_id {
        Some(id) => id.clone(),
        None => owned("unknown"),
    }
}

/// A failure with an error message.
pub open spec fn failure_json(error: Seq<char>) -> JsonView {
    JsonView::Object(seq![("error"@, JsonView::Str(error)), ("success"@, JsonView::Bool(false))])
}

/// A failure about a task.
pub open spec fn task_failure_json(task_id: Seq<char>, error: Seq<char>) -> JsonView {
    JsonView::Object(
        seq![
            ("error"@, JsonView::Str(error)),
            ("success"@, JsonView::Bool(false)),
            ("task_id"@, JsonView::Str(task_id)),
        ],
    )
}

/// A string value.
pub(crate) fn text_value(s: &str) -> (r: JsonValue)
    ensures
        r@ == JsonView::Str(s@),
{
    JsonValue::Str(owned(s))
}

/// A member.
pub(crate) fn pair(k: &str, v: JsonValue) -> (r: (String, JsonValue))
    ensures
        r.0@ == k@,
        r.1 == v,
{
    (owned(k), v)
}

/// A failure with an error message, members in `serde_json`'s key order.
pub fn failure_response(error: &str) -> (r: JsonValue)
    ensures
        r@ == failure_json(error@),
{
    let mut m: Vec<(String, JsonValue)> = Vec::new();
    m.push(pair("error", text_value(error)));
    m.push(pair("success", JsonValue::Bool(false)));
    proof {
        lemma_members_view(m@, seq![("error"@, JsonView::Str(error@)), ("success"@, JsonView::Bool(false))]);
    }
    object_of(m)
}

/// A failure about a task, members in `serde_json`'s key order.
pub fn task_failure_response(task_id: &str, error: &str) -> (r: JsonValue)
    ensures
        r@ == task_failure_json(task_id@, error@),
{
    let mut m: Vec<(String, JsonValue)> = Vec::new();
    m.push(pair("error", text_value(error)));
    m.push(pair("success", JsonValue::Bool(false)));
    m.push(pair("task_id", text_value(task_id)));
    proof {
        lemma_members_view(
            m@,
            seq![
                ("error"@, JsonView::Str(error@)),
                ("success"@, JsonView::Bool(false)),
                ("task_id"@, JsonView::Str(task_id@)),
            ],
        );
    }
    object_of(m)
}

/// `prefix` followed by `detail`.
fn prefixed(prefix: &str, detail: &str) -> (r: String)
    ensures
        r@ == prefix@ + detail@,
{
    let mut s = owned(prefix);
    push_str(&mut s, detail);
    s
}

/// The log entry carried by the message: its data decoded from Base64 and read as UTF-8.
/// A failure is answered with the decoder's error.
pub fn decode_log_data(data: &str) -> (r: Result<String, JsonValue>)
    ensures
        match r {
            Ok(s) => base64_decoded(data@) matches Some(b) && vstd::utf8::valid_utf8(b)
                && s@ == vstd::utf8::decode_utf8(b),
            Err(j) => match base64_decoded(data@) {
                None => exists|e: Seq<char>| j@ == failure_json("Base64 decode error: "@ + e),
                Some(b) => !vstd::utf8::valid_utf8(b) && exists|e: Seq<char>| j@ == failure_json("Invalid UTF-8: "@ + e),
            },
        },
{
    match decode_base64(data) {
        Ok(bytes) => match utf8_string(bytes) {
            Ok(s) => Ok(s),
            Err(e) => {
                let msg = prefixed("Invalid UTF-8: ", e.as_str());
                Err(failure_response(msg.as_str()))
            },
        },
        Err(e) => {
            let msg = prefixed("Base64 decode error: ", e.as_str());
            Err(failure_response(msg.as_str()))
        },
    }
}

/// The answer when no task id is found in the log entry.
pub fn no_task_id_response() -> (r: JsonValue)
    ensures
        r@ == failure_json("Could not extract task_id from log"@),
{
    failure_response("Could not extract task_id from log")
}

/// The answer when a step about a task fails: the step's label and the error.
pub fn step_failure_response(task_id: &str, label: &str, error: &str) -> (r: JsonValue)
    ensures
        r@ == task_failure_json(task_id@, label@ + error@),
{
    let msg = prefixed(label, error);
    task_failure_response(task_id, msg.as_str())
}

/// The answer when the task's fields are already filled.
pub open spec fn skipped_json(task_id: Seq<char>) -> JsonView {
    JsonView::Object(
        seq![
            ("action"@, JsonView::Str("skipped"@)),
            ("reason"@, JsonView::Str("Campos já preenchidos"@)),
            ("success"@, JsonView::Bool(true)),
            ("task_id"@, JsonView::Str(task_id)),
        ],
    )
}

/// The answer when the task's fields are already filled.
pub fn skipped_response(task_id: &str) -> (r: JsonValue)
    ensures
        r@ == skipped_json(task_id@),
{
    let mut m: Vec<(String, JsonValue)> = Vec::new();
    m.push(pair("action", text_value("skipped")));
    m.push(pair("reason", text_value("Campos já preenchidos")));
    m.push(pair("success", JsonValue::Bool(true)));
    m.push(pair("task_id", text_value(task_id)));
    proof {
        lemma_members_view(
            m@,
            seq![
                ("action"@, JsonView::Str("skipped"@)),
                ("reason"@, JsonView::Str("Campos já preenchidos"@)),
                ("success"@, JsonView::Bool(true)),
                ("task_id"@, JsonView::Str(task_id@)),
            ],
        );
    }
    object_of(m)
}

/// The answer when the task was enriched.
pub open spec fn enriched_json(task_id: Seq<char>, categoria: Seq<char>, subcategoria: Seq<char>, stars: u8) -> JsonView {
    JsonView::Object(
        seq![
            ("action"@, JsonView::Str("enriched"@)),
            (
                "classification"@,
                JsonView::Object(
                    seq![
                        ("categoria"@, JsonView::Str(categoria)),
                        ("stars"@, JsonView::Number(decimal(stars as nat))),
                        ("subcategoria"@, JsonView::Str(subcategoria)),
                    ],
                ),
            ),
            ("success"@, JsonView::Bool(true)),
            ("task_id"@, JsonView::Str(task_id)),
        ],
    )
}

/// The answer when the task was enriched, with the classification written into it.
pub fn enriched_response(task_id: &str, categoria: &str, subcategoria: &str, stars: u8) -> (r: JsonValue)
    ensures
        r@ == enriched_json(task_id@, categoria@, subcategoria@, stars),
{
    let mut c: Vec<(String, JsonValue)> = Vec::new();
    c.push(pair("categoria", text_value(categoria)));
    c.push(pair("stars", JsonValue::Number(u64_to_decimal(stars as u64))));
    c.push(pair("subcategoria", text_value(subcategoria)));
    proof {
        lemma_members_view(
            c@,
            seq![
                ("categoria"@, JsonView::Str(categoria@)),
                ("stars"@, JsonView::Number(decimal(stars as nat))),
                ("subcategoria"@, JsonView::Str(subcategoria@)),
            ],
        );
    }
    let classification = object_of(c);
    let mut m: Vec<(String, JsonValue)> = Vec::new();
    m.push(pair("action", text_value("enriched")));
    m.push(pair("classification", classification));
    m.push(pair("success", JsonValue::Bool(true)));
    m.push(pair("task_id", text_value(task_id)));
    proof {
        lemma_members_view(
            m@,
            seq![
                ("action"@, JsonView::Str("enriched"@)),
                (
                    "classification"@,
                    JsonView::Object(
                        seq![
                            ("categoria"@, JsonView::Str(categoria@)),
                            ("stars"@, JsonView::Number(decimal(stars as nat))),
                            ("subcategoria"@, JsonView::Str(subcategoria@)),
                        ],
                    ),
                ),
                ("success"@, JsonView::Bool(true)),
                ("task_id"@, JsonView::Str(task_id@)),
            ],
        );
    }
    object_of(m)
}

// ---------------------------------------------------------------------------------------
// The order of the steps

/// What the handler has learnt from the step it just awaited.
#[derive(Debug)]
pub enum EnrichEvent {
    /// The task was read: whether any of its category, subcategory and stars fields is
    /// empty, or why it could not be read.
    Fetched(Result<bool, String>),
    /// The classifier answered: the classification, or why it failed.
    Classified(Result<Classification, String>),
    /// The classification was checked against the configured options.
    Validated(Classification, Result<ValidatedFieldValues, String>),
    /// The validated values were written to the task.
    Enriched(Classification, ValidatedFieldValues, Result<(), String>),
}

/// What the handler does next.
#[derive(Debug)]
pub enum EnrichAction {
    /// Classify the task.
    Classify,
    /// Check the classification against the configured options.
    Validate(Classification),
    /// Write the validated values to the task.
    Enrich(Classification, ValidatedFieldValues),
    /// Answer with this and stop.
    Answer(JsonValue),
}

/// The next step of the enrichment of `task_id` after `event`:
/// - a task whose fields are filled is skipped;
/// - without a classifier an empty task fails;
/// - a classification is validated before anything is written;
/// - only validated values are written, and the answer after writing them says so;
/// - a failed step is answered with its error after the step's label.
pub fn enrich_step(task_id: &str, classifier_available: bool, event: EnrichEvent) -> (r: EnrichAction)
    ensures
        match event {
            EnrichEvent::Fetched(Err(e)) => r matches EnrichAction::Answer(a)
                && a@ == task_failure_json(task_id@, "Failed to fetch task: "@ + e@),
            EnrichEvent::Fetched(Ok(false)) => r matches EnrichAction::Answer(a) && a@ == skipped_json(task_id@),
            EnrichEvent::Fetched(Ok(true)) => if classifier_available {
                r is Classify
            } else {
                r matches EnrichAction::Answer(a) && a@ == task_failure_json(task_id@, "IA Service not available"@)
            },
            EnrichEvent::Classified(Err(e)) => r matches EnrichAction::Answer(a)
                && a@ == task_failure_json(task_id@, "Classification failed: "@ + e@),
            EnrichEvent::Classified(Ok(c)) => r matches EnrichAction::Validate(c2) && c2 == c,
            EnrichEvent::Validated(_, Err(e)) => r matches EnrichAction::Answer(a)
                && a@ == task_failure_json(task_id@, "Validation failed: "@ + e@),
            EnrichEvent::Validated(c, Ok(v)) => r matches EnrichAction::Enrich(c2, v2) && c2 == c && v2 == v,
            EnrichEvent::Enriched(_, _, Err(e)) => r matches EnrichAction::Answer(a)
                && a@ == task_failure_json(task_id@, "Enrichment failed: "@ + e@),
            EnrichEvent::Enriched(c, v, Ok(())) => r matches EnrichAction::Answer(a)
                && a@ == enriched_json(task_id@, c.categoria@, c.subcategoria@, v.stars),
        },
{
    match event {
        EnrichEvent::Fetched(Err(e)) => EnrichAction::Answer(step_failure_response(task_id, "Failed to fetch task: ", e.as_str())),
        EnrichEvent::Fetched(Ok(empty)) => if !empty {
            EnrichAction::Answer(skipped_response(task_id))
        } else if classifier_available {
            EnrichAction::Classify
        } else {
            EnrichAction::Answer(task_failure_response(task_id, "IA Service not available"))
        },
        EnrichEvent::Classified(Err(e)) => EnrichAction::Answer(step_failure_response(task_id, "Classification failed: ", e.as_str())),
        EnrichEvent::Classified(Ok(c)) => EnrichAction::Validate(c),
        EnrichEvent::Validated(_, Err(e)) => EnrichAction::Answer(step_failure_response(task_id, "Validation failed: ", e.as_str())),
        EnrichEvent::Validated(c, Ok(v)) => EnrichAction::Enrich(c, v),
        EnrichEvent::Enriched(_, _, Err(e)) => EnrichAction::Answer(step_failure_response(task_id, "Enrichment failed: ", e.as_str())),
        EnrichEvent::Enriched(c, v, Ok(())) => {
            let a = enriched_response(task_id, c.categoria.as_str(), c.subcategoria.as_str(), v.stars);
            EnrichAction::Answer(a)
        },
    }
}

} // verus!
