//! The Pub/Sub worker: which messages it processes, where a task goes, what the classifier
//! is asked, and what is answered and annotated.
//!
//! The worker itself awaits ClickUp, the classifier and ChatGuru between these steps.

use vstd::prelude::*;
use crate::encoding::{base64_decoded, decode_base64, utf8_string};
use crate::json::{json_get, json_parse, parse_json, str_at, JsonValue, JsonView};
use crate::keyed::{lookup, map_position};
use crate::models::payload::WebhookPayload;
use crate::services::prompts::opt_view;
use crate::text::{decimal, joined, owned, push_str, signed_decimal, i64_to_decimal, str_eq, str_is_empty, str_trim, trim, u64_to_decimal};

verus! {

// ---------------------------------------------------------------------------------------
// Messages already processed

/// How long a processed message is remembered, in seconds.
pub const DEDUP_WINDOW_SECONDS: u64 = 3600;

/// The Pub/Sub message id of a push request: `message.messageId`, or `unknown`.
pub open spec fn message_id_spec(body: JsonView) -> Seq<char> {
    match json_get(body, "message"@) {
        Some(m) => match str_at(m, "messageId"@) {
            Some(id) => id,
            None => "unknown"@,
        },
        None => "unknown"@,
    }
}

/// The Pub/Sub message id of a push request.
pub fn message_id_of(body: &JsonValue) -> (r: String)
    ensures
        r@ == message_id_spec(body@),
{
    match body.get("message") {
        Some(m) => match m.get("messageId") {
            Some(v) => match v.as_str() {
                Some(id) => id.clone(),
                None => owned("unknown"),
            },
            None => owned("unknown"),
        },
        None => owned("unknown"),
    }
}

/// The messages processed in the last hour, with the second at which each was seen.
#[derive(Debug)]
pub struct ProcessedMessages {
    pub seen: Vec<(String, u64)>,
}

/// Whether a message seen at `t` is still remembered at `now`.
pub open spec fn still_remembered(t: u64, now: u64) -> bool {
    now < t || now - t < DEDUP_WINDOW_SECONDS
}

/// The entries still remembered at `now`, in order.
pub open spec fn recent(seen: Seq<(String, u64)>, now: u64) -> Seq<(String, u64)>
    decreases seen.len(),
{
    if seen.len() == 0 {
        seen
    } else if still_remembered(seen.last().1, now) {
        recent(seen.drop_last(), now).push(seen.last())
    } else {
        recent(seen.drop_last(), now)
    }
}

/// Whether `id` is among the entries.
pub open spec fn has_id(seen: Seq<(String, u64)>, id: Seq<char>) -> bool {
    lookup(seen, id).is_some()
}

impl ProcessedMessages {
    /// No message seen.
    pub fn new() -> (r: Self)
        ensures
            r.seen@ == Seq::<(String, u64)>::empty(),
    {
        ProcessedMessages { seen: Vec::new() }
    }

    /// Forgets the messages seen an hour or more before `now`, then tells whether `id`
    /// was seen; a message not seen is remembered as seen at `now`.
    pub fn check_and_mark(&mut self, id: &str, now: u64) -> (duplicate: bool)
        ensures
            duplicate == has_id(recent(old(self).seen@, now), id@),
            duplicate ==> final(self).seen@ == recent(old(self).seen@, now),
            !duplicate ==> final(self).seen@.len() == recent(old(self).seen@, now).len() + 1
                && final(self).seen@.drop_last() == recent(old(self).seen@, now)
                && final(self).seen@.last().0@ == id@ && final(self).seen@.last().1 == now,
    {
        let mut kept: Vec<(String, u64)> = Vec::new();
        let mut old_seen: Vec<(String, u64)> = Vec::new();
        std::mem::swap(&mut old_seen, &mut self.seen);
        let ghost all = old_seen@;
        let mut i: usize = 0;
        while i < old_seen.len()
            invariant
                i <= old_seen@.len(),
                old_seen@ == all,
                kept@ == recent(all.take(i as int), now),
            decreases old_seen@.len() - i,
        {
            let t = old_seen[i].1;
            let ghost pre = all.take(i + 1);
            assert(pre.drop_last() == all.take(i as int));
            assert(pre.last() == all[i as int]);
            if now < t || now - t < DEDUP_WINDOW_SECONDS {
                let k = old_seen[i].0.clone();
                kept.push((k, t));
                assert(kept@.last() == all[i as int]);
            }
            i = i + 1;
        }
        assert(all.take(all.len() as int) == all);
        let pos = map_position(&kept, id);
        match pos {
            Some(_) => {
                self.seen = kept;
                true
            },
            None => {
                kept.push((owned(id), now));
                self.seen = kept;
                false
            },
        }
    }
}

/// A message just marked as seen is a duplicate when it comes again within the hour.
pub proof fn lemma_marked_message_is_duplicate(seen: Seq<(String, u64)>, id: String, t: u64, now: u64)
    requires
        t <= now,
        now - t < DEDUP_WINDOW_SECONDS,
    ensures
        has_id(recent(seen.push((id, t)), now), id@),
{
    assert(seen.push((id, t)).drop_last() == seen);
    lemma_lookup_last(recent(seen, now), id, t);
}

/// A map that ends with key `k` finds some value for it.
proof fn lemma_lookup_last(m: Seq<(String, u64)>, k: String, t: u64)
    ensures
        lookup(m.push((k, t)), k@).is_some(),
    decreases m.len(),
{
    if m.len() > 0 && m[0].0@ != k@ {
        assert(m.push((k, t)).drop_first() == m.drop_first().push((k, t)));
        lemma_lookup_last(m.drop_first(), k, t);
    }
}

/// A message seen an hour or more ago is forgotten.
pub proof fn lemma_old_message_forgotten(seen: Seq<(String, u64)>, now: u64)
    ensures
        forall|i: int| 0 <= i < recent(seen, now).len() ==> still_remembered(#[trigger] recent(seen, now)[i].1, now),
    decreases seen.len(),
{
    if seen.len() > 0 {
        lemma_old_message_forgotten(seen.drop_last(), now);
        let r0 = recent(seen.drop_last(), now);
        if still_remembered(seen.last().1, now) {
            assert forall|i: int| 0 <= i < r0.push(seen.last()).len() implies still_remembered(
                #[trigger] r0.push(seen.last())[i].1,
                now,
            ) by {
                if i < r0.len() {
                    assert(r0.push(seen.last())[i] == r0[i]);
                }
            }
        }
    }
}

/// The first step of the worker for a push request at `now` (seconds): messages seen an
/// hour or more ago are forgotten; a message seen within the hour is answered as a
/// duplicate; any other message is recorded as seen at `now`, before anything is decoded,
/// and `None` lets the processing go on.
pub fn admit_message(seen: &mut ProcessedMessages, body: &JsonValue, now: u64) -> (r: Option<JsonValue>)
    ensures
        (r is Some) == has_id(recent(old(seen).seen@, now), message_id_spec(body@)),
        r matches Some(v) ==> v@ == duplicate_view(message_id_spec(body@)),
        r is Some ==> final(seen).seen@ == recent(old(seen).seen@, now),
        r is None ==> final(seen).seen@.len() == recent(old(seen).seen@, now).len() + 1
            && final(seen).seen@.drop_last() == recent(old(seen).seen@, now)
            && final(seen).seen@.last().0@ == message_id_spec(body@) && final(seen).seen@.last().1 == now,
{
    let id = message_id_of(body);
    if seen.check_and_mark(id.as_str(), now) {
        Some(duplicate_message_response(id.as_str()))
    } else {
        None
    }
}

/// A message recorded as seen at `t` is answered as a duplicate when the same message id
/// comes again within the hour, whatever happened to the first delivery.
pub proof fn lemma_redelivery_is_duplicate(
    before: Seq<(String, u64)>,
    after: Seq<(String, u64)>,
    id: Seq<char>,
    t: u64,
    now: u64,
)
    requires
        after.len() == recent(before, t).len() + 1,
        after.drop_last() == recent(before, t),
        after.last().0@ == id,
        after.last().1 == t,
        t <= now,
        now - t < DEDUP_WINDOW_SECONDS,
    ensures
        has_id(recent(after, now), id),
{
    let k = after.last().0;
    assert(after =~= after.drop_last().push((k, t)));
    lemma_marked_message_is_duplicate(after.drop_last(), k, t, now);
}

// ---------------------------------------------------------------------------------------
// The envelope of a push request

/// Why a push request carries no ChatGuru payload; the texts are those of the decoders.
#[derive(Debug, Clone, PartialEq, Eq)]
pub enum EnvelopeError {
    MissingData,
    InvalidBase64(String),
    InvalidUtf8(String),
    InvalidEnvelopeJson(String),
    MissingRawPayload,
    InvalidPayloadJson(String),
}

/// The message of an envelope error.
pub open spec fn envelope_error_text(e: EnvelopeError) -> Seq<char> {
    match e {
        EnvelopeError::MissingData => "Missing message.data in Pub/Sub payload"@,
        EnvelopeError::InvalidBase64(d) => "Failed to decode base64: "@ + d@,
        EnvelopeError::InvalidUtf8(d) => "Invalid UTF-8 in payload: "@ + d@,
        EnvelopeError::InvalidEnvelopeJson(d) => "Invalid envelope JSON: "@ + d@,
        EnvelopeError::MissingRawPayload => "Missing raw_payload in envelope"@,
        EnvelopeError::InvalidPayloadJson(d) => "Invalid payload JSON: "@ + d@,
    }
}

impl EnvelopeError {
    /// The message of the error.
    pub fn message(&self) -> (r: String)
        ensures
            r@ == envelope_error_text(*self),
    {
        let (head, detail) = match self {
            EnvelopeError::MissingData => return owned("Missing message.data in Pub/Sub payload"),
            EnvelopeError::InvalidBase64(d) => ("Failed to decode base64: ", d.as_str()),
            EnvelopeError::InvalidUtf8(d) => ("Invalid UTF-8 in payload: ", d.as_str()),
            EnvelopeError::InvalidEnvelopeJson(d) => ("Invalid envelope JSON: ", d.as_str()),
            EnvelopeError::MissingRawPayload => return owned("Missing raw_payload in envelope"),
            EnvelopeError::InvalidPayloadJson(d) => ("Invalid payload JSON: ", d.as_str()),
        };
        let mut s = owned(head);
        push_str(&mut s, detail);
        s
    }
}

/// The Base64 data of a push request: `message.data`, when it is a string.
pub open spec fn message_data(body: JsonView) -> Option<Seq<char>> {
    match json_get(body, "message"@) {
        Some(m) => str_at(m, "data"@),
        None => None,
    }
}

/// The serialized ChatGuru payload that an envelope carries as its `raw_payload` string.
pub fn raw_payload_of(envelope: &JsonValue) -> (r: Result<String, EnvelopeError>)
    ensures
        match str_at(envelope@, "raw_payload"@) {
            Some(p) => r matches Ok(s) && s@ == p,
            None => r == Err::<String, EnvelopeError>(EnvelopeError::MissingRawPayload),
        },
{
    match envelope.get("raw_payload") {
        Some(v) => match v.as_str() {
            Some(p) => Ok(p.clone()),
            None => Err(EnvelopeError::MissingRawPayload),
        },
        None => Err(EnvelopeError::MissingRawPayload),
    }
}

/// The serialized ChatGuru payload of a push request: `message.data` decoded from Base64,
/// read as UTF-8, parsed as the JSON envelope, whose `raw_payload` string it is.
pub fn envelope_raw_payload(body: &JsonValue) -> (r: Result<String, EnvelopeError>)
    ensures
        match message_data(body@) {
            None => r == Err::<String, EnvelopeError>(EnvelopeError::MissingData),
            Some(d) => match base64_decoded(d) {
                None => r matches Err(EnvelopeError::InvalidBase64(_)),
                Some(b) => if !vstd::utf8::valid_utf8(b) {
                    r matches Err(EnvelopeError::InvalidUtf8(_))
                } else {
                    match json_parse(vstd::utf8::decode_utf8(b)) {
                        None => r matches Err(EnvelopeError::InvalidEnvelopeJson(_)),
                        Some(env) => match str_at(env, "raw_payload"@) {
                            Some(p) => r matches Ok(s) && s@ == p,
                            None => r == Err::<String, EnvelopeError>(EnvelopeError::MissingRawPayload),
                        },
                    }
                },
            },
        },
{
    let data = match body.get("message") {
        Some(m) => match m.get("data") {
            Some(d) => match d.as_str() {
                Some(x) => x,
                None => return Err(EnvelopeError::MissingData),
            },
            None => return Err(EnvelopeError::MissingData),
        },
        None => return Err(EnvelopeError::MissingData),
    };
    let bytes = match decode_base64(data.as_str()) {
        Ok(b) => b,
        Err(e) => return Err(EnvelopeError::InvalidBase64(e)),
    };
    let text = match utf8_string(bytes) {
        Ok(t) => t,
        Err(e) => return Err(EnvelopeError::InvalidUtf8(e)),
    };
    match parse_json(text.as_str()) {
        Ok(envelope) => raw_payload_of(&envelope),
        Err(e) => Err(EnvelopeError::InvalidEnvelopeJson(e)),
    }
}

// ---------------------------------------------------------------------------------------
// Where the task goes

/// The name of a month in Portuguese, in capitals; January for anything else.
pub open spec fn month_caps(m: u32) -> Seq<char> {
    if m == 1 {
        "JANEIRO"@
    } else if m == 2 {
        "FEVEREIRO"@
    } else if m == 3 {
        "MARÇO"@
    } else if m == 4 {
        "ABRIL"@
    } else if m == 5 {
        "MAIO"@
    } else if m == 6 {
        "JUNHO"@
    } else if m == 7 {
        "JULHO"@
    } else if m == 8 {
        "AGOSTO"@
    } else if m == 9 {
        "SETEMBRO"@
    } else if m == 10 {
        "OUTUBRO"@
    } else if m == 11 {
        "NOVEMBRO"@
    } else if m == 12 {
        "DEZEMBRO"@
    } else {
        "JANEIRO"@
    }
}

/// The name of the monthly list of a client: the month in capitals and the year.
pub fn monthly_list_name(month: u32, year: i32) -> (r: String)
    ensures
        r@ == month_caps(month) + " "@ + signed_decimal(year as int),
{
    let mut s = owned(
        if month == 1 {
            "JANEIRO"
        } else if month == 2 {
            "FEVEREIRO"
        } else if month == 3 {
            "MARÇO"
        } else if month == 4 {
            "ABRIL"
        } else if month == 5 {
            "MAIO"
        } else if month == 6 {
            "JUNHO"
        } else if month == 7 {
            "JULHO"
        } else if month == 8 {
            "AGOSTO"
        } else if month == 9 {
            "SETEMBRO"
        } else if month == 10 {
            "OUTUBRO"
        } else if month == 11 {
            "NOVEMBRO"
        } else if month == 12 {
            "DEZEMBRO"
        } else {
            "JANEIRO"
        },
    );
    push_str(&mut s, " ");
    let y = i64_to_decimal(year as i64);
    push_str(&mut s, y.as_str());
    s
}

/// A list of a folder.
#[derive(Clone, Debug)]
pub struct ListInfo {
    pub id: String,
    pub name: String,
}

/// The id of the first list called `name`.
pub open spec fn list_id_named(lists: Seq<ListInfo>, name: Seq<char>) -> Option<Seq<char>>
    decreases lists.len(),
{
    if lists.len() == 0 {
        None
    } else if lists[0].name@ == name {
        Some(lists[0].id@)
    } else {
        list_id_named(lists.drop_first(), name)
    }
}

/// The id of the first list called `name`; when there is none the worker creates it.
pub fn find_list(lists: &Vec<ListInfo>, name: &str) -> (r: Option<String>)
    ensures
        opt_view(r) == list_id_named(lists@, name@),
{
    let mut i: usize = 0;
    assert(lists@.skip(0) == lists@);
    while i < lists.len()
        invariant
            i <= lists@.len(),
            list_id_named(lists@, name@) == list_id_named(lists@.skip(i as int), name@),
        decreases lists@.len() - i,
    {
        assert(lists@.skip(i as int)[0] == lists@[i as int]);
        if str_eq(lists[i].name.as_str(), name) {
            return Some(lists[i].id.clone());
        }
        assert(lists@.skip(i as int).drop_first() == lists@.skip(i + 1));
        i = i + 1;
    }
    None
}

// ---------------------------------------------------------------------------------------
// What the classifier is asked

/// `n. title` for the title at index `i`, counting from one.
pub open spec fn numbered(i: int, t: Seq<char>) -> Seq<char> {
    decimal((i + 1) as nat) + ". "@ + t
}

/// The titles numbered from one, one per line.
pub open spec fn numbered_titles(titles: Seq<Seq<char>>) -> Seq<char> {
    joined(Seq::new(titles.len(), |i: int| numbered(i, titles[i])), "\n"@)
}

/// The part of the classifier's context that lists the tasks already in the list.
pub open spec fn tasks_context(titles: Seq<Seq<char>>) -> Seq<char> {
    if titles.len() == 0 {
        "Nenhuma tarefa existe ainda nesta lista."@
    } else {
        "TASKS EXISTENTES NESTA LISTA (para verificação de duplicatas):\n"@ + numbered_titles(titles)
            + "\n\n"@
    }
}

/// The instructions on duplicates that end the classifier's context.
pub open spec fn duplicate_instructions() -> Seq<char> {
    "🚨 VERIFICAÇÃO DE DUPLICATAS OBRIGATÓRIA:\n1. Compare esta mensagem com TODAS as tasks existentes listadas acima\n2. Se encontrar uma task MUITO SIMILAR (mesmo objetivo/contexto):\n   - Marque is_duplicate=true\n   - Preencha existing_task_title com o título exato da task similar\n   - Explique na reason por que é duplicata\n3. Se NÃO encontrar similar:\n   - Marque is_duplicate=false\n   - Prossiga com a classificação normal da atividade"@
}

/// The classifier's context: the tasks already there, the user's message and the
/// instructions on duplicates.
pub open spec fn classification_context_spec(titles: Seq<Seq<char>>, message: Seq<char>) -> Seq<char> {
    tasks_context(titles) + "\n\nMENSAGEM DO USUÁRIO:\n"@ + message + "\n\n"@
        + duplicate_instructions()
}

/// Views of strings.
pub open spec fn title_views(v: Seq<String>) -> Seq<Seq<char>> {
    v.map_values(|s: String| s@)
}

/// Appends the titles numbered from one, one per line.
fn push_numbered_titles(out: &mut String, titles: &Vec<String>)
    ensures
        final(out)@ == old(out)@ + numbered_titles(title_views(titles@)),
{
    let ghost before = out@;
    let ghost items = Seq::new(titles@.len(), |i: int| numbered(i, titles@[i]@));
    let mut i: usize = 0;
    while i < titles.len()
        invariant
            i <= titles@.len(),
            items == Seq::new(titles@.len(), |i: int| numbered(i, titles@[i]@)),
            out@ == before + joined(items.take(i as int), "\n"@),
        decreases titles@.len() - i,
    {
        assert(items.take(i + 1).drop_last() == items.take(i as int));
        if i > 0 {
            push_str(out, "\n");
        }
        let n = u64_to_decimal((i + 1) as u64);
        push_str(out, n.as_str());
        push_str(out, ". ");
        push_str(out, titles[i].as_str());
        i = i + 1;
        assert(out@ =~= before + joined(items.take(i as int), "\n"@));
    }
    assert(items.take(i as int) == items);
    assert(items =~= Seq::new(title_views(titles@).len(), |i: int| numbered(i, title_views(titles@)[i])));
}

/// The classifier's context.
pub fn classification_context(titles: &Vec<String>, message: &str) -> (r: String)
    ensures
        r@ == classification_context_spec(title_views(titles@), message@),
{
    let mut c = String::new();
    if titles.len() == 0 {
        push_str(&mut c, "Nenhuma tarefa existe ainda nesta lista.");
    } else {
        push_str(&mut c, "TASKS EXISTENTES NESTA LISTA (para verificação de duplicatas):\n");
        push_numbered_titles(&mut c, titles);
        push_str(&mut c, "\n\n");
    }
    let ghost head = c@;
    assert(head =~= tasks_context(title_views(titles@)));
    push_str(&mut c, "\n\nMENSAGEM DO USUÁRIO:\n");
    push_str(&mut c, message);
    push_str(&mut c, "\n\n");
    push_str(
        &mut c,
        "🚨 VERIFICAÇÃO DE DUPLICATAS OBRIGATÓRIA:\n1. Compare esta mensagem com TODAS as tasks existentes listadas acima\n2. Se encontrar uma task MUITO SIMILAR (mesmo objetivo/contexto):\n   - Marque is_duplicate=true\n   - Preencha existing_task_title com o título exato da task similar\n   - Explique na reason por que é duplicata\n3. Se NÃO encontrar similar:\n   - Marque is_duplicate=false\n   - Prossiga com a classificação normal da atividade",
    );
    c
}

// ---------------------------------------------------------------------------------------
// What the worker answers and annotates

/// An object whose members are the given strings, in order.
pub open spec fn string_object(m: Seq<(String, String)>) -> JsonView {
    JsonView::Object(m.map_values(|p: (String, String)| (p.0@, JsonView::Str(p.1@))))
}

/// An object whose members are the given strings, in order.
pub fn object_of_strings(m: Vec<(String, String)>) -> (r: JsonValue)
    ensures
        r@ == string_object(m@),
{
    let mut out: Vec<(String, JsonValue)> = Vec::new();
    let mut i: usize = 0;
    while i < m.len()
        invariant
            i <= m@.len(),
            out@.len() == i,
            forall|j: int| 0 <= j < i ==> (#[trigger] out@[j]).0@ == m@[j].0@ && out@[j].1@ == JsonView::Str(m@[j].1@),
        decreases m@.len() - i,
    {
        let k = m[i].0.clone();
        let v = m[i].1.clone();
        out.push((k, JsonValue::Str(v)));
        i = i + 1;
    }
    let ghost os = out@;
    let r = JsonValue::Object(out);
    proof {
        if let JsonView::Object(got) = r@ {
            assert forall|j: int| 0 <= j < m@.len() implies got[j] == m@.map_values(
                |p: (String, String)| (p.0@, JsonView::Str(p.1@)),
            )[j] by {
                assert(os[j].0@ == m@[j].0@);
            }
            assert(got =~= m@.map_values(|p: (String, String)| (p.0@, JsonView::Str(p.1@))));
        }
    }
    r
}

/// The string object of members that give the target pairs.
pub(crate) proof fn lemma_string_object(m: Seq<(String, String)>, target: Seq<(Seq<char>, JsonView)>)
    requires
        m.len() == target.len(),
        forall|i: int| 0 <= i < m.len() ==> (#[trigger] m[i].0@, JsonView::Str(m[i].1@)) == target[i],
    ensures
        string_object(m) == JsonView::Object(target),
{
    assert(m.map_values(|p: (String, String)| (p.0@, JsonView::Str(p.1@))) =~= target);
}

/// A member of a string object.
pub(crate) fn member(k: &str, v: String) -> (r: (String, String))
    ensures
        r.0@ == k@,
        r.1@ == v@,
{
    (owned(k), v)
}

/// The answer for a message processed before.
pub open spec fn duplicate_view(message_id: Seq<char>) -> JsonView {
    JsonView::Object(seq![
        ("message"@, JsonView::Str("Mensagem já foi processada anteriormente"@)),
        ("message_id"@, JsonView::Str(message_id)),
        ("status"@, JsonView::Str("duplicate_message"@)),
    ])
}

/// The answer for a message processed before, members in `serde_json`'s key order.
pub fn duplicate_message_response(message_id: &str) -> (r: JsonValue)
    ensures
        r@ == duplicate_view(message_id@),
{
    let mut m: Vec<(String, String)> = Vec::new();
    m.push(member("message", owned("Mensagem já foi processada anteriormente")));
    m.push(member("message_id", owned(message_id)));
    m.push(member("status", owned("duplicate_message")));
    let ghost mv = m@;
    let r = object_of_strings(m);
    proof {
        lemma_string_object(mv, seq![
            ("message"@, JsonView::Str("Mensagem já foi processada anteriormente"@)),
            ("message_id"@, JsonView::Str(message_id@)),
            ("status"@, JsonView::Str("duplicate_message"@)),
        ]);
    }
    r
}

/// The answer for a message without `Info_2`: it does not come from a client.
pub fn no_attendant_response() -> (r: JsonValue)
    ensures
        r@ == JsonView::Object(seq![
            ("message"@, JsonView::Str("Info_2 não informado - não é cliente"@)),
            ("status"@, JsonView::Str("not_client"@)),
        ]),
{
    let mut m: Vec<(String, String)> = Vec::new();
    m.push(member("message", owned("Info_2 não informado - não é cliente")));
    m.push(member("status", owned("not_client")));
    let ghost mv = m@;
    let r = object_of_strings(m);
    proof {
        lemma_string_object(mv, seq![
            ("message"@, JsonView::Str("Info_2 não informado - não é cliente"@)),
            ("status"@, JsonView::Str("not_client"@)),
        ]);
    }
    r
}

/// The answer when no folder is named after the attendant: not a client.
pub fn no_folder_response(info_2: &str) -> (r: JsonValue)
    ensures
        r@ == JsonView::Object(seq![
            ("message"@, JsonView::Str("Nenhuma pasta encontrada para o atendente '"@ + info_2@ + "'"@)),
            ("status"@, JsonView::Str("not_client"@)),
        ]),
{
    let mut text = owned("Nenhuma pasta encontrada para o atendente '");
    push_str(&mut text, info_2);
    push_str(&mut text, "'");
    let mut m: Vec<(String, String)> = Vec::new();
    m.push(member("message", text));
    m.push(member("status", owned("not_client")));
    let ghost mv = m@;
    let r = object_of_strings(m);
    proof {
        lemma_string_object(mv, seq![
            ("message"@, JsonView::Str("Nenhuma pasta encontrada para o atendente '"@ + info_2@ + "'"@)),
            ("status"@, JsonView::Str("not_client"@)),
        ]);
    }
    r
}

/// Whether the attendant (`Info_2`) is missing: nothing but white space.
pub fn attendant_missing(info_2: &str) -> (r: bool)
    ensures
        r == (trim(info_2@).len() == 0),
{
    let t = str_trim(info_2);
    str_is_empty(t.as_str())
}

/// What the worker does with a classification.
#[derive(Debug, Clone, Copy, PartialEq, Eq, Structural)]
pub enum ClassifiedStep {
    /// The message is not a task: annotate why.
    NotTask,
    /// A task about it exists: annotate which.
    Duplicate,
    /// Create the task.
    Create,
}

/// What the worker does with a classification: nothing for a message that is no valid
/// activity, nothing for a duplicate, else it creates the task.
pub fn classified_step(is_valid_activity: bool, is_duplicate: bool) -> (r: ClassifiedStep)
    ensures
        !is_valid_activity ==> r == ClassifiedStep::NotTask,
        is_valid_activity && is_duplicate ==> r == ClassifiedStep::Duplicate,
        is_valid_activity && !is_duplicate ==> r == ClassifiedStep::Create,
{
    if !is_valid_activity {
        ClassifiedStep::NotTask
    } else if is_duplicate {
        ClassifiedStep::Duplicate
    } else {
        ClassifiedStep::Create
    }
}

/// The annotation for a message that is not a task.
pub fn not_task_annotation(reason: &str) -> (r: String)
    ensures
        r@ == "Mensagem analisada: "@ + reason@,
{
    let mut s = owned("Mensagem analisada: ");
    push_str(&mut s, reason);
    s
}

/// The title of the existing task, or `N/A`.
pub open spec fn existing_or_na(existing: Option<String>) -> Seq<char> {
    match existing {
        Some(t) => t@,
        None => "N/A"@,
    }
}

/// The annotation for a duplicate.
pub fn duplicate_annotation(existing: &Option<String>) -> (r: String)
    ensures
        r@ == "Já existe uma tarefa sobre este assunto: '"@ + existing_or_na(*existing) + "'"@,
{
    let mut s = owned("Já existe uma tarefa sobre este assunto: '");
    match existing {
        Some(t) => push_str(&mut s, t.as_str()),
        None => push_str(&mut s, "N/A"),
    }
    push_str(&mut s, "'");
    s
}

/// The answer for a message that is not a task.
pub fn not_task_response(reason: &str) -> (r: JsonValue)
    ensures
        r@ == JsonView::Object(seq![
            ("reason"@, JsonView::Str(reason@)),
            ("status"@, JsonView::Str("not_task"@)),
        ]),
{
    let mut m: Vec<(String, String)> = Vec::new();
    m.push(member("reason", owned(reason)));
    m.push(member("status", owned("not_task")));
    let ghost mv = m@;
    let r = object_of_strings(m);
    proof {
        lemma_string_object(mv, seq![
            ("reason"@, JsonView::Str(reason@)),
            ("status"@, JsonView::Str("not_task"@)),
        ]);
    }
    r
}

/// The answer for a duplicate.
pub fn duplicate_response(existing: &Option<String>) -> (r: JsonValue)
    ensures
        r@ == JsonView::Object(seq![
            ("existing_task"@, JsonView::Str(existing_or_na(*existing))),
            ("status"@, JsonView::Str("duplicate"@)),
        ]),
{
    let t = match existing {
        Some(t) => t.clone(),
        None => owned("N/A"),
    };
    let mut m: Vec<(String, String)> = Vec::new();
    m.push(member("existing_task", t));
    m.push(member("status", owned("duplicate")));
    let ghost mv = m@;
    let r = object_of_strings(m);
    proof {
        lemma_string_object(mv, seq![
            ("existing_task"@, JsonView::Str(existing_or_na(*existing))),
            ("status"@, JsonView::Str("duplicate"@)),
        ]);
    }
    r
}

/// The answer for a created task.
pub fn created_response(task_id: &str, task_url: &str) -> (r: JsonValue)
    ensures
        r@ == JsonView::Object(seq![
            ("status"@, JsonView::Str("created"@)),
            ("task_id"@, JsonView::Str(task_id@)),
            ("task_url"@, JsonView::Str(task_url@)),
        ]),
{
    let mut m: Vec<(String, String)> = Vec::new();
    m.push(member("status", owned("created")));
    m.push(member("task_id", owned(task_id)));
    m.push(member("task_url", owned(task_url)));
    let ghost mv = m@;
    let r = object_of_strings(m);
    proof {
        lemma_string_object(mv, seq![
            ("status"@, JsonView::Str("created"@)),
            ("task_id"@, JsonView::Str(task_id@)),
            ("task_url"@, JsonView::Str(task_url@)),
        ]);
    }
    r
}

/// The optional text, or `N/A`.
pub open spec fn or_na(o: Option<String>) -> Seq<char> {
    match o {
        Some(s) => s@,
        None => "N/A"@,
    }
}

/// The annotation for a created task: title, link, description, category and subcategory,
/// and the subtasks when there are some.
pub open spec fn created_annotation_spec(
    name: Seq<char>,
    url: Seq<char>,
    description: Option<String>,
    category: Option<String>,
    sub_categoria: Option<String>,
    subtasks: Seq<Seq<char>>,
) -> Seq<char> {
    let subs = if subtasks.len() > 0 {
        "✓ **Subtarefas**: "@ + joined(subtasks, ", "@)
    } else {
        Seq::empty()
    };
    "✅ Tarefa criada com sucesso!\n\n📝 **Título**: "@ + name + "\n🔗 **Link**: "@ + url
        + "\n📄 **Descrição**: "@ + or_na(description) + "\n📂 **Categoria**: "@ + or_na(category)
        + " > "@ + or_na(sub_categoria) + "\n"@ + subs
}

/// Appends the optional text, or `N/A`.
fn push_or_na(out: &mut String, o: &Option<String>)
    ensures
        final(out)@ == old(out)@ + or_na(*o),
{
    match o {
        Some(s) => push_str(out, s.as_str()),
        None => push_str(out, "N/A"),
    }
}

/// Appends the pieces joined by `sep`.
fn push_joined(out: &mut String, items: &Vec<String>, sep: &str)
    ensures
        final(out)@ == old(out)@ + joined(title_views(items@), sep@),
{
    let ghost before = out@;
    let ghost q = title_views(items@);
    let mut i: usize = 0;
    while i < items.len()
        invariant
            i <= items@.len(),
            q == title_views(items@),
            out@ == before + joined(q.take(i as int), sep@),
        decreases items@.len() - i,
    {
        assert(q.take(i + 1).drop_last() == q.take(i as int));
        if i > 0 {
            push_str(out, sep);
        }
        push_str(out, items[i].as_str());
        i = i + 1;
    }
    assert(q.take(i as int) == q);
}

/// The annotation for a created task.
pub fn created_annotation(
    name: &str,
    url: &str,
    description: &Option<String>,
    category: &Option<String>,
    sub_categoria: &Option<String>,
    subtasks: &Vec<String>,
) -> (r: String)
    ensures
        r@ == created_annotation_spec(name@, url@, *description, *category, *sub_categoria, title_views(subtasks@)),
{
    let mut s = owned("✅ Tarefa criada com sucesso!\n\n📝 **Título**: ");
    push_str(&mut s, name);
    push_str(&mut s, "\n🔗 **Link**: ");
    push_str(&mut s, url);
    push_str(&mut s, "\n📄 **Descrição**: ");
    push_or_na(&mut s, description);
    push_str(&mut s, "\n📂 **Categoria**: ");
    push_or_na(&mut s, category);
    push_str(&mut s, " > ");
    push_or_na(&mut s, sub_categoria);
    push_str(&mut s, "\n");
    let ghost head = s@;
    if subtasks.len() > 0 {
        push_str(&mut s, "✓ **Subtarefas**: ");
        push_joined(&mut s, subtasks, ", ");
    }
    assert(s@ =~= created_annotation_spec(name@, url@, *description, *category, *sub_categoria, title_views(subtasks@)));
    s
}

/// The chat and phone to which annotations about a payload go.
pub open spec fn annotation_target_of(p: WebhookPayload) -> (Seq<char>, Seq<char>) {
    match p {
        WebhookPayload::ChatGuru(c) => (
            match c.chat_id {
                Some(id) => id@,
                None => "unknown"@,
            },
            c.celular@,
        ),
        WebhookPayload::EventType(e) => (
            "unknown"@,
            match e.data.phone {
                Some(ph) => ph@,
                None => "unknown"@,
            },
        ),
        WebhookPayload::Generic(g) => (
            "unknown"@,
            match g.celular {
                Some(ph) => ph@,
                None => "unknown"@,
            },
        ),
    }
}

/// The chat and phone to which annotations about a payload go.
pub fn annotation_target(p: &WebhookPayload) -> (r: (String, String))
    ensures
        (r.0@, r.1@) == annotation_target_of(*p),
{
    match p {
        WebhookPayload::ChatGuru(c) => {
            let chat = match &c.chat_id {
                Some(id) => id.clone(),
                None => owned("unknown"),
            };
            (chat, c.celular.clone())
        },
        WebhookPayload::EventType(e) => {
            let phone = match &e.data.phone {
                Some(ph) => ph.clone(),
                None => owned("unknown"),
            };
            (owned("unknown"), phone)
        },
        WebhookPayload::Generic(g) => {
            let phone = match &g.celular {
                Some(ph) => ph.clone(),
                None => owned("unknown"),
            };
            (owned("unknown"), phone)
        },
    }
}

} // verus!
