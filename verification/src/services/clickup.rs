//! Creating or updating the ClickUp task of a payload: finding a task with the same title
//! and the comment that keeps the history of an updated task.

use vstd::prelude::*;
use crate::json::{json_get, str_at, JsonValue, JsonView};
use crate::models::payload::WebhookPayload;
use crate::text::{contains, decimal, owned, parse_u64_spec, push_str, str_contains, str_eq, u64_to_decimal};

verus! {

/// Whether listing tasks failed for want of permission: then no duplicate is assumed.
pub fn listing_forbidden(err_text: &str) -> (r: bool)
    ensures
        r == (contains(err_text@, "OAUTH_027"@) || contains(err_text@, "Team not authorized"@)),
{
    str_contains(err_text, "OAUTH_027") || str_contains(err_text, "Team not authorized")
}

/// The first task of a list answer (`tasks`) whose name is exactly `title`.
pub open spec fn task_titled(tasks: Seq<JsonView>, title: Seq<char>) -> Option<JsonView>
    decreases tasks.len(),
{
    if tasks.len() == 0 {
        None
    } else if str_at(tasks[0], "name"@) == Some(title) {
        Some(tasks[0])
    } else {
        task_titled(tasks.drop_first(), title)
    }
}

/// The tasks of a list answer.
pub open spec fn listed_tasks(answer: JsonView) -> Seq<JsonView> {
    match json_get(answer, "tasks"@) {
        Some(JsonView::Array(a)) => a,
        _ => Seq::empty(),
    }
}

/// The first task of a list answer whose name is exactly `title`.
pub fn find_task_titled(answer: &JsonValue, title: &str) -> (r: Option<JsonValue>)
    ensures
        match r {
            Some(t) => task_titled(listed_tasks(answer@), title@) == Some(t@),
            None => task_titled(listed_tasks(answer@), title@).is_none(),
        },
{
    match answer.get("tasks") {
        Some(JsonValue::Array(tasks)) => {
            let ghost tv = listed_tasks(answer@);
            proof {
                if let Some(JsonView::Array(a)) = json_get(answer@, "tasks"@) {
                    assert(a =~= tasks@.map_values(|x: JsonValue| x@));
                }
            }
            let mut i: usize = 0;
            assert(tv.skip(0) == tv);
            while i < tasks.len()
                invariant
                    i <= tasks@.len(),
                    tv == listed_tasks(answer@),
                    tv == tasks@.map_values(|x: JsonValue| x@),
                    task_titled(tv, title@) == task_titled(tv.skip(i as int), title@),
                decreases tasks@.len() - i,
            {
                assert(tv.skip(i as int)[0] == tasks@[i as int]@);
                match tasks[i].get("name") {
                    Some(n) => match n.as_str() {
                        Some(name) => {
                            if str_eq(name.as_str(), title) {
                                assert(str_at(tv.skip(i as int)[0], "name"@) == Some(title@));
                                return Some(tasks[i].deep_clone());
                            }
                        },
                        None => {},
                    },
                    None => {},
                }
                assert(tv.skip(i as int).drop_first() == tv.skip(i + 1));
                i = i + 1;
            }
            None
        },
        _ => None,
    }
}

/// The name of a payload's format.
pub open spec fn payload_type_name(p: WebhookPayload) -> Seq<char> {
    match p {
        WebhookPayload::ChatGuru(_) => "ChatGuru"@,
        WebhookPayload::EventType(_) => "EventType"@,
        WebhookPayload::Generic(_) => "Generic"@,
    }
}

/// The last update of a task: `date_updated` as text, or as a number, or `Unknown`.
pub open spec fn last_update_text(t: JsonView) -> Seq<char> {
    match str_at(t, "date_updated"@) {
        Some(s) => s,
        None => match json_get(t, "date_updated"@) {
            Some(JsonView::Number(n)) => match parse_u64_spec(n) {
                Some(v) => decimal(v as nat),
                None => "Unknown"@,
            },
            _ => "Unknown"@,
        },
    }
}

/// The comment that keeps the previous version of an updated task.
pub open spec fn history_comment_spec(t: JsonView, p: WebhookPayload, timestamp: Seq<char>) -> Seq<char> {
    let title = match str_at(t, "name"@) {
        Some(s) => s,
        None => Seq::empty(),
    };
    let description = match str_at(t, "description"@) {
        Some(s) => s,
        None => Seq::empty(),
    };
    "📝 **Atualização Automática via Webhook**\n\n**Timestamp:** "@ + timestamp + "\n**Tipo de Payload:** "@
        + payload_type_name(p) + "\n\n---\n\n**Histórico da Versão Anterior:**\n- **Título:** "@ + title
        + "\n- **Última Atualização:** "@ + last_update_text(t) + "\n\n**Descrição Anterior:**\n```\n"@
        + description + "\n```"@
}

/// The string member `key`, or an empty string.
fn str_or_empty(v: &JsonValue, key: &str) -> (r: String)
    ensures
        r@ == match str_at(v@, key@) {
            Some(s) => s,
            None => Seq::<char>::empty(),
        },
{
    match v.get(key) {
        Some(x) => match x.as_str() {
            Some(s) => s.clone(),
            None => String::new(),
        },
        None => String::new(),
    }
}

/// The comment that keeps the previous version of an updated task, stamped with
/// `timestamp` (RFC 3339).
pub fn build_history_comment(existing_task: &JsonValue, payload: &WebhookPayload, timestamp: &str) -> (r: String)
    ensures
        r@ == history_comment_spec(existing_task@, *payload, timestamp@),
{
    let title = str_or_empty(existing_task, "name");
    let description = str_or_empty(existing_task, "description");
    let updated = match existing_task.get("date_updated") {
        Some(d) => match d.as_str() {
            Some(s) => s.clone(),
            None => match d.as_u64() {
                Some(n) => u64_to_decimal(n),
                None => owned("Unknown"),
            },
        },
        None => owned("Unknown"),
    };
    let kind = match payload {
        WebhookPayload::ChatGuru(_) => "ChatGuru",
        WebhookPayload::EventType(_) => "EventType",
        WebhookPayload::Generic(_) => "Generic",
    };
    let mut c = owned("📝 **Atualização Automática via Webhook**\n\n**Timestamp:** ");
    push_str(&mut c, timestamp);
    push_str(&mut c, "\n**Tipo de Payload:** ");
    push_str(&mut c, kind);
    push_str(&mut c, "\n\n---\n\n**Histórico da Versão Anterior:**\n- **Título:** ");
    push_str(&mut c, title.as_str());
    push_str(&mut c, "\n- **Última Atualização:** ");
    push_str(&mut c, updated.as_str());
    push_str(&mut c, "\n\n**Descrição Anterior:**\n```\n");
    push_str(&mut c, description.as_str());
    push_str(&mut c, "\n```");
    c
}

/// The id of a task, or an empty string.
pub fn task_id_of(task: &JsonValue) -> (r: String)
    ensures
        r@ == match str_at(task@, "id"@) {
            Some(s) => s,
            None => Seq::<char>::empty(),
        },
{
    str_or_empty(task, "id")
}

} // verus!
