//! The ChatGuru API calls: the URLs that add a note to a chat and send a message.

use vstd::prelude::*;
use crate::auth::config::{url_encode, url_encoded};
use crate::handlers::worker::{lemma_string_object, member, object_of_strings};
use crate::json::{JsonValue, JsonView};
use crate::text::{chars_of, ends_with, is_numeric, numeric, owned, push_char, push_str, str_ends_with};

verus! {

/// The phone id used when none is given.
pub open spec fn default_phone_id() -> Seq<char> {
    "62558780e2923cc4705beee1"@
}

/// The numeric characters of a phone number, in order.
pub open spec fn digits_of(s: Seq<char>) -> Seq<char>
    decreases s.len(),
{
    if s.len() == 0 {
        s
    } else if numeric(s.last()) {
        digits_of(s.drop_last()).push(s.last())
    } else {
        digits_of(s.drop_last())
    }
}

/// Keeps the numeric characters of a phone number.
pub fn clean_phone(phone: &str) -> (r: String)
    ensures
        r@ == digits_of(phone@),
{
    let cs = chars_of(phone);
    let mut out = String::new();
    let mut i: usize = 0;
    while i < cs.len()
        invariant
            i <= cs@.len(),
            cs@ == phone@,
            out@ == digits_of(cs@.take(i as int)),
        decreases cs@.len() - i,
    {
        let ghost pre = cs@.take(i + 1);
        assert(pre.drop_last() == cs@.take(i as int));
        if is_numeric(cs[i]) {
            push_char(&mut out, cs[i]);
        }
        i = i + 1;
    }
    assert(cs@.take(i as int) == cs@);
    out
}

/// The API base: the endpoint when it ends with `/api/v1`, else the endpoint with `api/v1`
/// (after a slash) appended.
pub open spec fn api_base_spec(endpoint: Seq<char>) -> Seq<char> {
    if ends_with(endpoint, "/api/v1"@) {
        endpoint
    } else if ends_with(endpoint, "/"@) {
        endpoint + "api/v1"@
    } else {
        endpoint + "/api/v1"@
    }
}

/// The API base of an endpoint.
pub fn api_base(endpoint: &str) -> (r: String)
    ensures
        r@ == api_base_spec(endpoint@),
{
    if str_ends_with(endpoint, "/api/v1") {
        owned(endpoint)
    } else if str_ends_with(endpoint, "/") {
        let mut s = owned(endpoint);
        push_str(&mut s, "api/v1");
        s
    } else {
        let mut s = owned(endpoint);
        push_str(&mut s, "/api/v1");
        s
    }
}

/// A ChatGuru API call: the action, the text parameter and the chat.
pub open spec fn action_url_spec(
    endpoint: Seq<char>,
    key: Seq<char>,
    account_id: Seq<char>,
    phone_id: Seq<char>,
    action: Seq<char>,
    text_param: Seq<char>,
    text: Seq<char>,
    phone: Seq<char>,
) -> Seq<char> {
    api_base_spec(endpoint) + "?key="@ + key + "&account_id="@ + account_id + "&phone_id="@ + phone_id
        + "&action="@ + action + "&"@ + text_param + "="@ + url_encoded(text) + "&chat_number="@
        + digits_of(phone)
}

/// Builds a ChatGuru API call.
fn action_url(
    endpoint: &str,
    key: &str,
    account_id: &str,
    phone_id: &str,
    action: &str,
    text_param: &str,
    text: &str,
    phone: &str,
) -> (r: String)
    ensures
        r@ == action_url_spec(endpoint@, key@, account_id@, phone_id@, action@, text_param@, text@, phone@),
{
    let mut s = api_base(endpoint);
    push_str(&mut s, "?key=");
    push_str(&mut s, key);
    push_str(&mut s, "&account_id=");
    push_str(&mut s, account_id);
    push_str(&mut s, "&phone_id=");
    push_str(&mut s, phone_id);
    push_str(&mut s, "&action=");
    push_str(&mut s, action);
    push_str(&mut s, "&");
    push_str(&mut s, text_param);
    push_str(&mut s, "=");
    let encoded = url_encode(text);
    push_str(&mut s, encoded.as_str());
    push_str(&mut s, "&chat_number=");
    let digits = clean_phone(phone);
    push_str(&mut s, digits.as_str());
    s
}

/// The call that adds a note to a chat, on the default phone.
pub fn annotation_url(endpoint: &str, key: &str, account_id: &str, note: &str, phone: &str) -> (r: String)
    ensures
        r@ == action_url_spec(endpoint@, key@, account_id@, default_phone_id(), "note_add"@, "note_text"@, note@, phone@),
{
    action_url(endpoint, key, account_id, "62558780e2923cc4705beee1", "note_add", "note_text", note, phone)
}

/// The call that sends a message to a chat, on the given phone or the default one.
pub fn confirmation_url(endpoint: &str, key: &str, account_id: &str, phone_id: Option<&str>, message: &str, phone: &str) -> (r: String)
    ensures
        r@ == action_url_spec(
            endpoint@,
            key@,
            account_id@,
            match phone_id {
                Some(p) => p@,
                None => default_phone_id(),
            },
            "message_send"@,
            "text"@,
            message@,
            phone@,
        ),
{
    let pid = match phone_id {
        Some(p) => p,
        None => "62558780e2923cc4705beee1",
    };
    action_url(endpoint, key, account_id, pid, "message_send", "text", message, phone)
}

/// The endpoint that sends a text to a phone.
pub fn send_text_url(endpoint: &str) -> (r: String)
    ensures
        r@ == endpoint@ + "/messages/send-text"@,
{
    let mut s = owned(endpoint);
    push_str(&mut s, "/messages/send-text");
    s
}

/// The body that sends a text to a phone, members in `serde_json`'s key order.
pub fn send_text_body(account_id: &str, phone: &str, message: &str) -> (r: JsonValue)
    ensures
        r@ == JsonView::Object(seq![
            ("account_id"@, JsonView::Str(account_id@)),
            ("message"@, JsonView::Str(message@)),
            ("phone"@, JsonView::Str(phone@)),
        ]),
{
    let mut m: Vec<(String, String)> = Vec::new();
    m.push(member("account_id", owned(account_id)));
    m.push(member("message", owned(message)));
    m.push(member("phone", owned(phone)));
    let ghost mv = m@;
    let r = object_of_strings(m);
    proof {
        lemma_string_object(mv, seq![
            ("account_id"@, JsonView::Str(account_id@)),
            ("message"@, JsonView::Str(message@)),
            ("phone"@, JsonView::Str(phone@)),
        ]);
    }
    r
}

/// The error of a refused text: the API's answer.
pub fn send_text_error(answer: &str) -> (r: String)
    ensures
        r@ == "ChatGuru API error: "@ + answer@,
{
    let mut s = owned("ChatGuru API error: ");
    push_str(&mut s, answer);
    s
}

} // verus!
