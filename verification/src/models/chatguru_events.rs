//! Events that ChatGuru sends.

use vstd::prelude::*;
use crate::json::{json_get, members_view, object_of, JsonValue, JsonView};
use crate::text::{owned, str_eq};

verus! {

/// An event of ChatGuru.
#[derive(Debug)]
pub struct ChatGuruEvent {
    pub id: Option<String>,
    pub event_type: String,
    pub timestamp: String,
    /// The event's data; an empty object when absent.
    pub data: JsonValue,
    pub source: Option<String>,
    pub metadata: Option<JsonValue>,
    pub account_id: Option<String>,
    pub phone_id: Option<String>,
    pub contact: Option<JsonValue>,
    pub annotation: Option<JsonValue>,
}

/// The optional value's member `key`.
pub open spec fn member_of(v: Option<JsonValue>, key: Seq<char>) -> Option<JsonView> {
    match v {
        Some(x) => json_get(x@, key),
        None => None,
    }
}

/// The member `key` with value `v`, when there is one.
pub open spec fn opt_member(key: Seq<char>, v: Option<JsonView>) -> Seq<(Seq<char>, JsonView)> {
    match v {
        Some(x) => seq![(key, x)],
        None => Seq::empty(),
    }
}

/// The data of an event: its `data` when that is a non-empty object; else the annotation's
/// `data`; else an object gathered from the annotation (title as `task_title`,
/// `description`, `tags`) and the contact (`phone`, name as `contact_name`), members in
/// `serde_json`'s key order.
pub open spec fn event_data(e: ChatGuruEvent) -> JsonView {
    match e.data@ {
        JsonView::Object(m) if m.len() > 0 => e.data@,
        _ => match member_of(e.annotation, "data"@) {
            Some(d) => d,
            None => JsonView::Object(
                opt_member("contact_name"@, member_of(e.contact, "name"@)) + opt_member(
                    "description"@,
                    member_of(e.annotation, "description"@),
                ) + opt_member("phone"@, member_of(e.contact, "phone"@)) + opt_member(
                    "tags"@,
                    member_of(e.annotation, "tags"@),
                ) + opt_member("task_title"@, member_of(e.annotation, "title"@)),
            ),
        },
    }
}

/// The optional value's member `key`.
fn get_member(v: &Option<JsonValue>, key: &str) -> (r: Option<JsonValue>)
    ensures
        match r {
            Some(x) => member_of(*v, key@) == Some(x@),
            None => member_of(*v, key@).is_none(),
        },
{
    match v {
        Some(x) => match x.get(key) {
            Some(m) => Some(m.deep_clone()),
            None => None,
        },
        None => None,
    }
}

/// Appends the member `key` with value `v`, when there is one.
fn push_member(m: &mut Vec<(String, JsonValue)>, key: &str, v: Option<JsonValue>)
    ensures
        members_view(final(m)@) == members_view(old(m)@) + opt_member(key@, match v {
            Some(x) => Some(x@),
            None => None,
        }),
{
    match v {
        Some(x) => {
            m.push((owned(key), x));
            assert(members_view(m@) =~= members_view(old(m)@) + opt_member(key@, Some(m@.last().1@)));
        },
        None => {
            assert(members_view(m@) =~= members_view(old(m)@) + opt_member(key@, None));
        },
    }
}

/// What `chrono::DateTime::parse_from_rfc3339` reads from a text: the instant as Unix
/// seconds and the nanoseconds within the second (in UTC), or nothing for a text that is
/// not an RFC 3339 date-time.
pub uninterp spec fn rfc3339_utc(text: Seq<char>) -> Option<(i64, u32)>;

/// Parses an RFC 3339 date-time with `chrono::DateTime::parse_from_rfc3339` and gives its
/// Unix seconds and subsecond nanoseconds.
#[verifier::external_body]
fn parse_rfc3339(text: &str) -> (r: Option<(i64, u32)>)
    ensures
        r == rfc3339_utc(text@),
{
    match chrono::DateTime::parse_from_rfc3339(text) {
        Ok(dt) => Some((dt.timestamp(), dt.timestamp_subsec_nanos())),
        Err(_) => None,
    }
}

impl ChatGuruEvent {
    /// The event's timestamp as an instant in UTC: Unix seconds and the nanoseconds within
    /// the second; nothing when the timestamp is not an RFC 3339 date-time.
    pub fn get_timestamp_as_datetime(&self) -> (r: Option<(i64, u32)>)
        ensures
            r == rfc3339_utc(self.timestamp@),
    {
        parse_rfc3339(self.timestamp.as_str())
    }

    /// The event id.
    pub fn event_id(&self) -> (r: Option<&str>)
        ensures
            match r {
                Some(s) => self.id matches Some(id) && s@ == id@,
                None => self.id.is_none(),
            },
    {
        match &self.id {
            Some(id) => Some(id.as_str()),
            None => None,
        }
    }

    /// The data of the event.
    pub fn get_data(&self) -> (r: JsonValue)
        ensures
            r@ == event_data(*self),
    {
        match &self.data {
            JsonValue::Object(m) => {
                if m.len() > 0 {
                    return self.data.deep_clone();
                }
            },
            _ => {},
        }
        if let Some(d) = get_member(&self.annotation, "data") {
            return d;
        }
        let mut m: Vec<(String, JsonValue)> = Vec::new();
        assert(members_view(m@) =~= Seq::empty());
        push_member(&mut m, "contact_name", get_member(&self.contact, "name"));
        push_member(&mut m, "description", get_member(&self.annotation, "description"));
        push_member(&mut m, "phone", get_member(&self.contact, "phone"));
        push_member(&mut m, "tags", get_member(&self.annotation, "tags"));
        push_member(&mut m, "task_title", get_member(&self.annotation, "title"));
        object_of(m)
    }
}

/// The kinds of ChatGuru events.
#[derive(Debug, Clone, Copy, PartialEq, Eq, Structural)]
pub enum ChatGuruEventType {
    PaymentCreated,
    PaymentCompleted,
    PaymentFailed,
    CustomerCreated,
    InvoiceGenerated,
    PixReceived,
    NovoContato,
    MensagemRecebida,
    TrocaFila,
    FinalizacaoAtendimento,
    Unknown,
}

/// The name of an event kind.
pub open spec fn event_type_name(t: ChatGuruEventType) -> Seq<char> {
    match t {
        ChatGuruEventType::PaymentCreated => "payment_created"@,
        ChatGuruEventType::PaymentCompleted => "payment_completed"@,
        ChatGuruEventType::PaymentFailed => "payment_failed"@,
        ChatGuruEventType::CustomerCreated => "customer_created"@,
        ChatGuruEventType::InvoiceGenerated => "invoice_generated"@,
        ChatGuruEventType::PixReceived => "pix_received"@,
        ChatGuruEventType::NovoContato => "novo_contato"@,
        ChatGuruEventType::MensagemRecebida => "mensagem_recebida"@,
        ChatGuruEventType::TrocaFila => "troca_fila"@,
        ChatGuruEventType::FinalizacaoAtendimento => "finalizacao_atendimento"@,
        ChatGuruEventType::Unknown => "unknown"@,
    }
}

impl ChatGuruEventType {
    /// The name of the event kind.
    pub fn to_string(&self) -> (r: &'static str)
        ensures
            r@ == event_type_name(*self),
    {
        match self {
            ChatGuruEventType::PaymentCreated => "payment_created",
            ChatGuruEventType::PaymentCompleted => "payment_completed",
            ChatGuruEventType::PaymentFailed => "payment_failed",
            ChatGuruEventType::CustomerCreated => "customer_created",
            ChatGuruEventType::InvoiceGenerated => "invoice_generated",
            ChatGuruEventType::PixReceived => "pix_received",
            ChatGuruEventType::NovoContato => "novo_contato",
            ChatGuruEventType::MensagemRecebida => "mensagem_recebida",
            ChatGuruEventType::TrocaFila => "troca_fila",
            ChatGuruEventType::FinalizacaoAtendimento => "finalizacao_atendimento",
            ChatGuruEventType::Unknown => "unknown",
        }
    }

    /// The event kind with a name; any other name is `Unknown`.
    pub fn from_name(name: &str) -> (r: Self)
        ensures
            r != ChatGuruEventType::Unknown ==> event_type_name(r) == name@,
            r == ChatGuruEventType::Unknown ==> forall|t: ChatGuruEventType| t != ChatGuruEventType::Unknown
                ==> event_type_name(t) != name@,
    {
        if str_eq(name, "payment_created") {
            ChatGuruEventType::PaymentCreated
        } else if str_eq(name, "payment_completed") {
            ChatGuruEventType::PaymentCompleted
        } else if str_eq(name, "payment_failed") {
            ChatGuruEventType::PaymentFailed
        } else if str_eq(name, "customer_created") {
            ChatGuruEventType::CustomerCreated
        } else if str_eq(name, "invoice_generated") {
            ChatGuruEventType::InvoiceGenerated
        } else if str_eq(name, "pix_received") {
            ChatGuruEventType::PixReceived
        } else if str_eq(name, "novo_contato") {
            ChatGuruEventType::NovoContato
        } else if str_eq(name, "mensagem_recebida") {
            ChatGuruEventType::MensagemRecebida
        } else if str_eq(name, "troca_fila") {
            ChatGuruEventType::TrocaFila
        } else if str_eq(name, "finalizacao_atendimento") {
            ChatGuruEventType::FinalizacaoAtendimento
        } else {
            ChatGuruEventType::Unknown
        }
    }
}

} // verus!
