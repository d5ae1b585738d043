//! Extraction of the id of a created task from a Cloud Logging entry.

use vstd::prelude::*;
use crate::json::{json_get, json_parse, opt_json_view, parse_json, str_at, JsonValue, JsonView};
use crate::text::{contains, str_contains};

verus! {

/// What compiling `pattern` with `regex::Regex::new` and taking capture group 1 of its first
/// match in `text` gives: an error for an invalid pattern, nothing when there is no match
/// or the group did not take part.
pub uninterp spec fn regex_first_capture(pattern: Seq<char>, text: Seq<char>) -> Result<Option<Seq<char>>, ()>;

/// Compiles `pattern` with `regex::Regex::new` and returns capture group 1 of the first match
/// in `text`.
#[verifier::external_body]
fn capture_group_1(pattern: &str, text: &str) -> (r: Result<Option<String>, ()>)
    ensures
        match r {
            Ok(Some(s)) => regex_first_capture(pattern@, text@) == Ok::<Option<Seq<char>>, ()>(Some(s@)),
            Ok(None) => regex_first_capture(pattern@, text@) == Ok::<Option<Seq<char>>, ()>(None),
            Err(_) => regex_first_capture(pattern@, text@) == Err::<Option<Seq<char>>, ()>(()),
        },
{
    match regex::Regex::new(pattern) {
        Ok(re) => Ok(re.captures(text).and_then(|c| c.get(1)).map(|m| m.as_str().to_string())),
        Err(_) => Err(()),
    }
}

/// Pattern of `Task criada - ID: <id>`.
pub open spec fn pattern_task_id() -> Seq<char> {
    r"Task criada\s*-\s*ID:\s*([a-zA-Z0-9]+)"@
}

/// Pattern of `Task criada com sucesso: <name> (<id>)`.
pub open spec fn pattern_success() -> Seq<char> {
    r"Task criada com sucesso:\s*[^(]+\(([a-zA-Z0-9]+)\)"@
}

/// Pattern of a numeric ClickUp id of 9 to 12 digits.
pub open spec fn pattern_numeric() -> Seq<char> {
    r"\b(\d{9,12})\b"@
}

/// Pattern of a short alphanumeric id after `ID`.
pub open spec fn pattern_alpha() -> Seq<char> {
    r"ID[:\s]+([a-zA-Z0-9]{6,12})"@
}

/// Pattern of a `task_id` member.
pub open spec fn pattern_json_id() -> Seq<char> {
    r#"["']?task_id["']?\s*[=:]\s*["']?([a-zA-Z0-9]+)["']?"#@
}

/// The last of the text patterns: the `task_id` member.
pub open spec fn from_json_like(t: Seq<char>) -> Option<Seq<char>> {
    match regex_first_capture(pattern_json_id(), t) {
        Ok(Some(id)) => Some(id),
        _ => None,
    }
}

/// The patterns tried when the text mentions a `Tarefa ... criada`, then the last one.
pub open spec fn from_tarefa(t: Seq<char>) -> Option<Seq<char>> {
    if contains(t, "Tarefa"@) && contains(t, "criada"@) {
        match regex_first_capture(pattern_numeric(), t) {
            Err(_) => None,
            Ok(Some(id)) => Some(id),
            Ok(None) => match regex_first_capture(pattern_alpha(), t) {
                Err(_) => None,
                Ok(Some(id)) => Some(id),
                Ok(None) => from_json_like(t),
            },
        }
    } else {
        from_json_like(t)
    }
}

/// The task id that a text gives: the first pattern that matches, in order; an invalid
/// pattern ends the search with nothing.
pub open spec fn extract_from_text_spec(t: Seq<char>) -> Option<Seq<char>> {
    match regex_first_capture(pattern_task_id(), t) {
        Err(_) => None,
        Ok(Some(id)) => Some(id),
        Ok(None) => match regex_first_capture(pattern_success(), t) {
            Err(_) => None,
            Ok(Some(id)) => Some(id),
            Ok(None) => from_tarefa(t),
        },
    }
}

/// The task id of a log entry: from its `textPayload`, then from `jsonPayload.message`,
/// when the entry is JSON, and otherwise from the whole text.
pub open spec fn extract_task_id_spec(log: Seq<char>) -> Option<Seq<char>> {
    task_id_of_entry(log, json_parse(log))
}

/// The task id of a log entry whose text is `log` and which reads as the JSON `parsed`,
/// if it reads as JSON at all.
pub open spec fn task_id_of_entry(log: Seq<char>, parsed: Option<JsonView>) -> Option<Seq<char>> {
    let from_text = extract_from_text_spec(log);
    match parsed {
        Some(j) => {
            let a = match str_at(j, "textPayload"@) {
                Some(tp) => extract_from_text_spec(tp),
                None => None,
            };
            if a is Some {
                a
            } else {
                let b = match json_get(j, "jsonPayload"@) {
                    Some(jp) => match str_at(jp, "message"@) {
                        Some(m) => extract_from_text_spec(m),
                        None => None,
                    },
                    None => None,
                };
                if b is Some {
                    b
                } else {
                    from_text
                }
            }
        },
        None => from_text,
    }
}

/// The view of an optional string.
pub open spec fn opt_str_view(o: Option<String>) -> Option<Seq<char>> {
    match o {
        Some(s) => Some(s@),
        None => None,
    }
}

/// Extracts the task id from a text with the known log patterns.
fn extract_from_text(text: &str) -> (r: Option<String>)
    ensures
        opt_str_view(r) == extract_from_text_spec(text@),
{
    match capture_group_1(r"Task criada\s*-\s*ID:\s*([a-zA-Z0-9]+)", text) {
        Err(_) => return None,
        Ok(Some(id)) => return Some(id),
        Ok(None) => {},
    }
    match capture_group_1(r"Task criada com sucesso:\s*[^(]+\(([a-zA-Z0-9]+)\)", text) {
        Err(_) => return None,
        Ok(Some(id)) => return Some(id),
        Ok(None) => {},
    }
    if str_contains(text, "Tarefa") && str_contains(text, "criada") {
        match capture_group_1(r"\b(\d{9,12})\b", text) {
            Err(_) => return None,
            Ok(Some(id)) => return Some(id),
            Ok(None) => {},
        }
        match capture_group_1(r"ID[:\s]+([a-zA-Z0-9]{6,12})", text) {
            Err(_) => return None,
            Ok(Some(id)) => return Some(id),
            Ok(None) => {},
        }
    }
    match capture_group_1(r#"["']?task_id["']?\s*[=:]\s*["']?([a-zA-Z0-9]+)["']?"#, text) {
        Ok(Some(id)) => Some(id),
        _ => None,
    }
}

/// Extracts the task id from a log entry, in plain text or as JSON with a `textPayload`
/// or a `jsonPayload.message`.
pub fn extract_task_id_from_log(log_data: &str) -> (r: Option<String>)
    ensures
        opt_str_view(r) == extract_task_id_spec(log_data@),
{
    match parse_json(log_data) {
        Ok(json) => task_id_from_entry(log_data, Some(&json)),
        Err(_) => task_id_from_entry(log_data, None),
    }
}

/// The task id of a log entry given what it reads as in JSON (`None` when it is no JSON).
pub fn task_id_from_entry(log_data: &str, parsed: Option<&JsonValue>) -> (r: Option<String>)
    ensures
        opt_str_view(r) == task_id_of_entry(log_data@, opt_json_view(parsed)),
{
    match parsed {
        Some(json) => {
            match json.get("textPayload") {
                Some(v) => match v.as_str() {
                    Some(tp) => {
                        let a = extract_from_text(tp.as_str());
                        if a.is_some() {
                            return a;
                        }
                    },
                    None => {},
                },
                None => {},
            }
            match json.get("jsonPayload") {
                Some(jp) => match jp.get("message") {
                    Some(m) => match m.as_str() {
                        Some(ms) => {
                            let b = extract_from_text(ms.as_str());
                            if b.is_some() {
                                return b;
                            }
                        },
                        None => {},
                    },
                    None => {},
                },
                None => {},
            }
        },
        None => {},
    }
    extract_from_text(log_data)
}

// ---------------------------------------------------------------------------------------
// Which pattern gives the id

/// `Task criada - ID: <id>` is tried first: when it matches, its id is the answer.
pub proof fn law_task_id_pattern_first(t: Seq<char>, id: Seq<char>)
    requires
        regex_first_capture(r"Task criada\s*-\s*ID:\s*([a-zA-Z0-9]+)"@, t) == Ok::<Option<Seq<char>>, ()>(Some(id)),
    ensures
        extract_from_text_spec(t) == Some(id),
{
}

/// `Task criada com sucesso: <name> (<id>)` comes second.
pub proof fn law_success_pattern_second(t: Seq<char>, id: Seq<char>)
    requires
        regex_first_capture(r"Task criada\s*-\s*ID:\s*([a-zA-Z0-9]+)"@, t) == Ok::<Option<Seq<char>>, ()>(None),
        regex_first_capture(r"Task criada com sucesso:\s*[^(]+\(([a-zA-Z0-9]+)\)"@, t) == Ok::<Option<Seq<char>>, ()>(Some(id)),
    ensures
        extract_from_text_spec(t) == Some(id),
{
}

/// In a text that mentions "Tarefa" and "criada", a ClickUp id of 9 to 12 digits comes
/// next.
pub proof fn law_tarefa_numeric_id(t: Seq<char>, id: Seq<char>)
    requires
        regex_first_capture(r"Task criada\s*-\s*ID:\s*([a-zA-Z0-9]+)"@, t) == Ok::<Option<Seq<char>>, ()>(None),
        regex_first_capture(r"Task criada com sucesso:\s*[^(]+\(([a-zA-Z0-9]+)\)"@, t) == Ok::<Option<Seq<char>>, ()>(None),
        contains(t, "Tarefa"@) && contains(t, "criada"@),
        regex_first_capture(r"\b(\d{9,12})\b"@, t) == Ok::<Option<Seq<char>>, ()>(Some(id)),
    ensures
        extract_from_text_spec(t) == Some(id),
{
}

/// In a text that mentions "Tarefa" and "criada" without a 9 to 12 digit number, a short
/// alphanumeric id after `ID:` is the answer.
pub proof fn law_tarefa_alphanumeric_id(t: Seq<char>, id: Seq<char>)
    requires
        regex_first_capture(r"Task criada\s*-\s*ID:\s*([a-zA-Z0-9]+)"@, t) == Ok::<Option<Seq<char>>, ()>(None),
        regex_first_capture(r"Task criada com sucesso:\s*[^(]+\(([a-zA-Z0-9]+)\)"@, t) == Ok::<Option<Seq<char>>, ()>(None),
        contains(t, "Tarefa"@) && contains(t, "criada"@),
        regex_first_capture(r"\b(\d{9,12})\b"@, t) == Ok::<Option<Seq<char>>, ()>(None),
        regex_first_capture(r"ID[:\s]+([a-zA-Z0-9]{6,12})"@, t) == Ok::<Option<Seq<char>>, ()>(Some(id)),
    ensures
        extract_from_text_spec(t) == Some(id),
        json_parse(t) is None ==> extract_task_id_spec(t) == Some(id),
{
}

/// A `task_id` member is the last resort; in a text that does not mention both "Tarefa"
/// and "criada" the numeric and short patterns are not tried.
pub proof fn law_task_id_member_last(t: Seq<char>, id: Seq<char>)
    requires
        regex_first_capture(r"Task criada\s*-\s*ID:\s*([a-zA-Z0-9]+)"@, t) == Ok::<Option<Seq<char>>, ()>(None),
        regex_first_capture(r"Task criada com sucesso:\s*[^(]+\(([a-zA-Z0-9]+)\)"@, t) == Ok::<Option<Seq<char>>, ()>(None),
        !(contains(t, "Tarefa"@) && contains(t, "criada"@)) || (regex_first_capture(r"\b(\d{9,12})\b"@, t) == Ok::<Option<Seq<char>>, ()>(None) && regex_first_capture(r"ID[:\s]+([a-zA-Z0-9]{6,12})"@, t) == Ok::<Option<Seq<char>>, ()>(None)),
        regex_first_capture(r#"["']?task_id["']?\s*[=:]\s*["']?([a-zA-Z0-9]+)["']?"#@, t) == Ok::<Option<Seq<char>>, ()>(Some(id)),
    ensures
        extract_from_text_spec(t) == Some(id),
{
}

/// A text where no pattern matches gives no id.
pub proof fn law_no_pattern_no_id(t: Seq<char>)
    requires
        regex_first_capture(r"Task criada\s*-\s*ID:\s*([a-zA-Z0-9]+)"@, t) == Ok::<Option<Seq<char>>, ()>(None),
        regex_first_capture(r"Task criada com sucesso:\s*[^(]+\(([a-zA-Z0-9]+)\)"@, t) == Ok::<Option<Seq<char>>, ()>(None),
        regex_first_capture(r"\b(\d{9,12})\b"@, t) == Ok::<Option<Seq<char>>, ()>(None),
        regex_first_capture(r"ID[:\s]+([a-zA-Z0-9]{6,12})"@, t) == Ok::<Option<Seq<char>>, ()>(None),
        regex_first_capture(r#"["']?task_id["']?\s*[=:]\s*["']?([a-zA-Z0-9]+)["']?"#@, t) == Ok::<Option<Seq<char>>, ()>(None),
    ensures
        extract_from_text_spec(t) is None,
{
}

} // verus!
