//! Tasks queued on Cloud Tasks: the request that queues a webhook for the worker, and the
//! name under which the queued task is known.
//!
//! The payload is serialised, the id drawn and the request sent by the caller.

use vstd::prelude::*;
use crate::encoding::{base64_encoded, encode_base64};
use crate::handlers::pubsub_handler::{pair, text_value};
use crate::json::{lemma_members_view, object_of, str_at, JsonValue, JsonView};
use crate::text::{owned, push_str};

verus! {

/// A queued task's payload, when it was created and how often it was retried.
#[derive(Debug, Clone)]
pub struct TaskPayload<T> {
    pub data: T,
    pub created_at: String,
    pub retry_count: u32,
}

/// The queue that a task goes to.
#[derive(Debug, Clone)]
pub struct CloudTasksConfig {
    pub project_id: String,
    pub location: String,
    pub queue_name: String,
}

/// The name given to the task of a webhook: `webhook-task-` and a fresh id.
pub fn webhook_task_name(id: &str) -> (r: String)
    ensures
        r@ == "webhook-task-"@ + id@,
{
    let mut s = owned("webhook-task-");
    push_str(&mut s, id);
    s
}

/// The worker endpoint the task calls: on `CLOUD_RUN_SERVICE_URL`, else on the local port.
pub fn worker_url(service_url: Option<&str>) -> (r: String)
    ensures
        r@ == "https://"@ + match service_url {
            Some(u) => u@,
            None => "localhost:8080"@,
        } + "/worker/process-task"@,
{
    let mut s = owned("https://");
    match service_url {
        Some(u) => push_str(&mut s, u),
        None => push_str(&mut s, "localhost:8080"),
    }
    push_str(&mut s, "/worker/process-task");
    s
}

/// The Cloud Tasks endpoint that queues tasks in the configured queue.
pub fn tasks_api_url(c: &CloudTasksConfig) -> (r: String)
    ensures
        r@ == "https://cloudtasks.googleapis.com/v2/projects/"@ + c.project_id@ + "/locations/"@ + c.location@
            + "/queues/"@ + c.queue_name@ + "/tasks"@,
{
    let mut s = owned("https://cloudtasks.googleapis.com/v2/projects/");
    push_str(&mut s, c.project_id.as_str());
    push_str(&mut s, "/locations/");
    push_str(&mut s, c.location.as_str());
    push_str(&mut s, "/queues/");
    push_str(&mut s, c.queue_name.as_str());
    push_str(&mut s, "/tasks");
    s
}

/// The request that queues a task: a POST of the serialised payload, in Base64, to the
/// worker, with the queue and task named in headers. The name is left to Cloud Tasks and
/// the task runs at once.
pub open spec fn task_request_json(url: Seq<char>, queue: Seq<char>, task_name: Seq<char>, payload_json: Seq<char>) -> JsonView {
    JsonView::Object(seq![
        ("task"@, JsonView::Object(seq![
            ("http_request"@, JsonView::Object(seq![
                ("body"@, JsonView::Str(base64_encoded(vstd::utf8::encode_utf8(payload_json)))),
                ("headers"@, JsonView::Object(seq![
                    ("Content-Type"@, JsonView::Str("application/json"@)),
                    ("X-Cloud-Tasks-Queue"@, JsonView::Str(queue)),
                    ("X-Cloud-Tasks-Task-Name"@, JsonView::Str(task_name)),
                ])),
                ("http_method"@, JsonView::Str("POST"@)),
                ("url"@, JsonView::Str(url)),
            ])),
        ])),
    ])
}

/// The request that queues a task for the serialised payload `payload_json`.
pub fn task_request(url: &str, queue: &str, task_name: &str, payload_json: &str) -> (r: JsonValue)
    ensures
        r@ == task_request_json(url@, queue@, task_name@, payload_json@),
{
    let body = encode_base64(payload_json.as_bytes());
    let mut h: Vec<(String, JsonValue)> = Vec::new();
    h.push(pair("Content-Type", text_value("application/json")));
    h.push(pair("X-Cloud-Tasks-Queue", text_value(queue)));
    h.push(pair("X-Cloud-Tasks-Task-Name", text_value(task_name)));
    let ghost hv = seq![
        ("Content-Type"@, JsonView::Str("application/json"@)),
        ("X-Cloud-Tasks-Queue"@, JsonView::Str(queue@)),
        ("X-Cloud-Tasks-Task-Name"@, JsonView::Str(task_name@)),
    ];
    proof {
        lemma_members_view(h@, hv);
    }
    let ghost body_view = body@;
    let mut r: Vec<(String, JsonValue)> = Vec::new();
    r.push(pair("body", JsonValue::Str(body)));
    r.push(pair("headers", object_of(h)));
    r.push(pair("http_method", text_value("POST")));
    r.push(pair("url", text_value(url)));
    let ghost rv = seq![
        ("body"@, JsonView::Str(body_view)),
        ("headers"@, JsonView::Object(hv)),
        ("http_method"@, JsonView::Str("POST"@)),
        ("url"@, JsonView::Str(url@)),
    ];
    proof {
        lemma_members_view(r@, rv);
    }
    let mut t: Vec<(String, JsonValue)> = Vec::new();
    t.push(pair("http_request", object_of(r)));
    proof {
        lemma_members_view(t@, seq![("http_request"@, JsonView::Object(rv))]);
    }
    let mut top: Vec<(String, JsonValue)> = Vec::new();
    top.push(pair("task", object_of(t)));
    proof {
        lemma_members_view(top@, seq![("task"@, JsonView::Object(seq![("http_request"@, JsonView::Object(rv))]))]);
    }
    object_of(top)
}

/// The name of a queued task: the one Cloud Tasks answers with, else the requested one.
pub fn enqueued_task_name(answer: &JsonValue, requested: &str) -> (r: String)
    ensures
        r@ == match str_at(answer@, "name"@) {
            Some(n) => n,
            None => requested@,
        },
{
    match answer.get("name") {
        Some(v) => match v.as_str() {
            Some(n) => n.clone(),
            None => owned(requested),
        },
        None => owned(requested),
    }
}

/// The error of a refused task: Cloud Tasks' answer.
pub fn enqueue_error(answer: &str) -> (r: String)
    ensures
        r@ == "Failed to enqueue Cloud Task: "@ + answer@,
{
    let mut s = owned("Failed to enqueue Cloud Task: ");
    push_str(&mut s, answer);
    s
}

} // verus!
