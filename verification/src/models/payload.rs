//! The webhook payloads that the middleware accepts, and the ClickUp tasks made from them.
//!
//! Maps of the payloads (`campos_personalizados`, `custom_data`, `extra`) are held as
//! vectors of pairs in the order in which they are walked.

use vstd::prelude::*;
use crate::json::JsonValue;
use crate::text::{chars_of, clone_opt, lowercase, owned, str_eq, string_of, to_lowercase};
use crate::services::prompts::opt_view;
use crate::models::task_builder::{text_field, text_member};
use crate::text::push_str;

verus! {

/// Whether the message came from the ChatGuru bot.
#[derive(Debug, Clone)]
pub struct BotContext {
    pub chat_guru: Option<bool>,
}

/// The payload that ChatGuru sends.
#[derive(Debug)]
pub struct ChatGuruPayload {
    pub campanha_id: String,
    pub campanha_nome: String,
    pub origem: String,
    pub email: String,
    pub nome: String,
    pub tags: Vec<String>,
    pub texto_mensagem: String,
    /// URL of an attached media file (older format).
    pub media_url: Option<String>,
    /// MIME type of the attached media (older format).
    pub media_type: Option<String>,
    /// Kind of message in the newer format: "image", "ptt" (audio), "video", ...
    pub tipo_mensagem: Option<String>,
    /// URL of the media file in the newer format.
    pub url_arquivo: Option<String>,
    pub campos_personalizados: Vec<(String, JsonValue)>,
    pub bot_context: Option<BotContext>,
    pub responsavel_nome: Option<String>,
    pub responsavel_email: Option<String>,
    pub link_chat: String,
    pub celular: String,
    pub phone_id: Option<String>,
    pub chat_id: Option<String>,
    pub chat_created: Option<String>,
    /// Chat of a batch of aggregated messages.
    pub _batch_chat_id: Option<String>,
    /// Number of messages in the batch.
    pub _batch_size: Option<u32>,
    /// Set on a message that the webhook made itself after processing media.
    pub _is_synthetic: Option<bool>,
    /// MIME type of the media that such a message came from.
    pub _original_media_type: Option<String>,
}

/// Data of an event of the older format.
#[derive(Debug)]
pub struct EventData {
    pub lead_name: Option<String>,
    pub phone: Option<String>,
    pub email: Option<String>,
    pub project_name: Option<String>,
    pub task_title: Option<String>,
    pub annotation: Option<String>,
    /// The amount, written with two decimals.
    pub amount: Option<String>,
    pub status: Option<String>,
    pub custom_data: Vec<(String, JsonValue)>,
    pub extra: Vec<(String, JsonValue)>,
}

/// A payload of the older format, with an event type.
#[derive(Debug)]
pub struct EventTypePayload {
    pub id: String,
    pub event_type: String,
    pub timestamp: String,
    pub data: EventData,
}

/// A minimal payload.
#[derive(Debug)]
pub struct GenericPayload {
    pub nome: Option<String>,
    pub celular: Option<String>,
    pub email: Option<String>,
    pub mensagem: Option<String>,
    pub extra: Vec<(String, JsonValue)>,
}

/// Any of the accepted payload formats.
#[derive(Debug)]
pub enum WebhookPayload {
    ChatGuru(ChatGuruPayload),
    EventType(EventTypePayload),
    Generic(GenericPayload),
}

// ---------------------------------------------------------------------------------------
// Media type of a URL

/// `s` up to the first `c`, or all of `s`.
pub open spec fn before_first(s: Seq<char>, c: char) -> Seq<char>
    decreases s.len(),
{
    if s.len() == 0 || s[0] == c {
        Seq::empty()
    } else {
        seq![s[0]] + before_first(s.drop_first(), c)
    }
}

/// `s` after the last `c`, or all of `s`.
pub open spec fn after_last(s: Seq<char>, c: char) -> Seq<char>
    decreases s.len(),
{
    if s.len() == 0 || s.last() == c {
        Seq::empty()
    } else {
        after_last(s.drop_last(), c).push(s.last())
    }
}

/// The MIME type of a (lowercased) file extension.
pub open spec fn mime_of_extension(e: Seq<char>) -> Seq<char> {
    if e == "jpg"@ || e == "jpeg"@ {
        "image/jpeg"@
    } else if e == "png"@ {
        "image/png"@
    } else if e == "gif"@ {
        "image/gif"@
    } else if e == "webp"@ {
        "image/webp"@
    } else if e == "ogg"@ || e == "oga"@ {
        "audio/ogg"@
    } else if e == "mp3"@ {
        "audio/mpeg"@
    } else if e == "wav"@ {
        "audio/wav"@
    } else if e == "m4a"@ {
        "audio/mp4"@
    } else if e == "opus"@ {
        "audio/opus"@
    } else if e == "mp4"@ {
        "video/mp4"@
    } else if e == "webm"@ {
        "video/webm"@
    } else if e == "avi"@ {
        "video/x-msvideo"@
    } else if e == "pdf"@ {
        "application/pdf"@
    } else if e == "doc"@ || e == "docx"@ {
        "application/msword"@
    } else if e == "xls"@ || e == "xlsx"@ {
        "application/vnd.ms-excel"@
    } else {
        "application/octet-stream"@
    }
}

/// The MIME type that the extension of a URL's path gives: the path ends at the first `?`,
/// the extension follows its last `.` and is lowercased.
pub open spec fn media_type_of_url(url: Seq<char>) -> Seq<char> {
    mime_of_extension(lowercase(after_last(before_first(url, '?'), '.')))
}

/// The characters of `v` before the first `c`.
pub fn prefix_before(v: &Vec<char>, c: char) -> (r: Vec<char>)
    ensures
        r@ == before_first(v@, c),
{
    let n = v.len();
    let mut i: usize = 0;
    assert(v@.skip(0) == v@);
    while i < n && v[i] != c
        invariant
            n == v@.len(),
            i <= n,
            before_first(v@, c) == v@.take(i as int) + before_first(v@.skip(i as int), c),
        decreases n - i,
    {
        let ghost rest = v@.skip(i as int);
        assert(rest[0] == v@[i as int]);
        assert(rest.drop_first() == v@.skip(i + 1));
        assert(v@.take(i as int) + seq![v@[i as int]] == v@.take(i + 1));
        i = i + 1;
    }
    if i < n {
        assert(v@.skip(i as int)[0] == c);
    } else {
        assert(v@.skip(i as int).len() == 0);
    }
    assert(before_first(v@, c) == v@.take(i as int));
    let mut r: Vec<char> = Vec::new();
    let mut k: usize = 0;
    while k < i
        invariant
            i <= n == v@.len(),
            k <= i,
            r@ == v@.take(k as int),
        decreases i - k,
    {
        r.push(v[k]);
        k = k + 1;
        assert(r@ == v@.take(k as int));
    }
    r
}

/// The characters of `v` after the last `c`.
pub fn suffix_after_last(v: &Vec<char>, c: char) -> (r: Vec<char>)
    ensures
        r@ == after_last(v@, c),
{
    let n = v.len();
    let mut j: usize = n;
    assert(v@.take(n as int) == v@);
    assert(v@.skip(n as int) == Seq::<char>::empty());
    while j > 0 && v[j - 1] != c
        invariant
            n == v@.len(),
            j <= n,
            after_last(v@, c) == after_last(v@.take(j as int), c) + v@.skip(j as int),
        decreases j,
    {
        let ghost pre = v@.take(j as int);
        assert(pre.last() == v@[j - 1]);
        assert(pre.drop_last() == v@.take(j - 1));
        assert(seq![v@[j - 1]] + v@.skip(j as int) == v@.skip(j - 1));
        assert(after_last(pre, c) == after_last(v@.take(j - 1), c).push(v@[j - 1]));
        assert(after_last(v@.take(j - 1), c).push(v@[j - 1]) + v@.skip(j as int) == after_last(
            v@.take(j - 1),
            c,
        ) + v@.skip(j - 1));
        j = j - 1;
    }
    if j > 0 {
        assert(v@.take(j as int).last() == c);
    } else {
        assert(v@.take(0) == Seq::<char>::empty());
    }
    assert(after_last(v@.take(j as int), c) == Seq::<char>::empty());
    assert(after_last(v@, c) == v@.skip(j as int));
    let mut r: Vec<char> = Vec::new();
    let mut k: usize = j;
    while k < n
        invariant
            j <= k <= n == v@.len(),
            r@ == v@.subrange(j as int, k as int),
        decreases n - k,
    {
        r.push(v[k]);
        k = k + 1;
        assert(r@ == v@.subrange(j as int, k as int));
    }
    assert(v@.subrange(j as int, n as int) == v@.skip(j as int));
    r
}

/// The MIME type of a lowercased extension.
fn mime_for_extension(e: &str) -> (r: String)
    ensures
        r@ == mime_of_extension(e@),
{

    if str_eq(e, "jpg") || str_eq(e, "jpeg") {
        owned("image/jpeg")
    } else if str_eq(e, "png") {
        owned("image/png")
    } else if str_eq(e, "gif") {
        owned("image/gif")
    } else if str_eq(e, "webp") {
        owned("image/webp")
    } else if str_eq(e, "ogg") || str_eq(e, "oga") {
        owned("audio/ogg")
    } else if str_eq(e, "mp3") {
        owned("audio/mpeg")
    } else if str_eq(e, "wav") {
        owned("audio/wav")
    } else if str_eq(e, "m4a") {
        owned("audio/mp4")
    } else if str_eq(e, "opus") {
        owned("audio/opus")
    } else if str_eq(e, "mp4") {
        owned("video/mp4")
    } else if str_eq(e, "webm") {
        owned("video/webm")
    } else if str_eq(e, "avi") {
        owned("video/x-msvideo")
    } else if str_eq(e, "pdf") {
        owned("application/pdf")
    } else if str_eq(e, "doc") || str_eq(e, "docx") {
        owned("application/msword")
    } else if str_eq(e, "xls") || str_eq(e, "xlsx") {
        owned("application/vnd.ms-excel")
    } else {
        owned("application/octet-stream")
    }
}

/// The MIME type for a message kind of the newer format; an unknown kind falls back to the
/// media URL, then to `url_arquivo`, then to a generic binary type.
pub open spec fn mime_of_kind(kind: Seq<char>, url: Option<Seq<char>>, arquivo: Option<Seq<char>>) -> Seq<char> {
    if kind == "image"@ {
        "image/jpeg"@
    } else if kind == "ptt"@ || kind == "audio"@ || kind == "voice"@ {
        "audio/ogg"@
    } else if kind == "video"@ {
        "video/mp4"@
    } else if kind == "document"@ {
        "application/pdf"@
    } else {
        match url {
            Some(u) => media_type_of_url(u),
            None => match arquivo {
                Some(u) => media_type_of_url(u),
                None => "application/octet-stream"@,
            },
        }
    }
}

/// The media URL after normalisation: `url_arquivo` when there was no `media_url`.
pub open spec fn normalized_url(p: ChatGuruPayload) -> Option<Seq<char>> {
    if p.url_arquivo.is_some() && p.media_url.is_none() {
        opt_view(p.url_arquivo)
    } else {
        opt_view(p.media_url)
    }
}

/// The media type after normalisation.
pub open spec fn normalized_type(p: ChatGuruPayload) -> Option<Seq<char>> {
    if p.media_type.is_some() {
        opt_view(p.media_type)
    } else {
        match opt_view(p.tipo_mensagem) {
            Some(kind) => Some(mime_of_kind(kind, normalized_url(p), opt_view(p.url_arquivo))),
            None => match normalized_url(p) {
                Some(u) => Some(media_type_of_url(u)),
                None => match opt_view(p.url_arquivo) {
                    Some(u) => Some(media_type_of_url(u)),
                    None => None,
                },
            },
        }
    }
}

/// `a` and `b` agree on every field but the two media fields.
pub open spec fn same_but_media(a: ChatGuruPayload, b: ChatGuruPayload) -> bool {
    &&& a.campanha_id == b.campanha_id
    &&& a.campanha_nome == b.campanha_nome
    &&& a.origem == b.origem
    &&& a.email == b.email
    &&& a.nome == b.nome
    &&& a.tags == b.tags
    &&& a.texto_mensagem == b.texto_mensagem
    &&& a.tipo_mensagem == b.tipo_mensagem
    &&& a.url_arquivo == b.url_arquivo
    &&& a.campos_personalizados == b.campos_personalizados
    &&& a.link_chat == b.link_chat
    &&& a.celular == b.celular
    &&& a.chat_id == b.chat_id
    &&& a._is_synthetic == b._is_synthetic
    &&& a._original_media_type == b._original_media_type
}

/// Normalising the media fields twice gives what normalising once gives: a payload whose
/// media fields are already normalised keeps them.
pub proof fn lemma_normalization_idempotent(raw: ChatGuruPayload, normalized: ChatGuruPayload)
    requires
        same_but_media(normalized, raw),
        opt_view(normalized.media_url) == normalized_url(raw),
        opt_view(normalized.media_type) == normalized_type(raw),
    ensures
        normalized_url(normalized) == normalized_url(raw),
        normalized_type(normalized) == normalized_type(raw),
{
}

impl ChatGuruPayload {
    /// The MIME type that the extension of the URL's path gives.
    pub fn detect_media_type_from_url(url: &str) -> (r: String)
        ensures
            r@ == media_type_of_url(url@),
    {
        let cs = chars_of(url);
        let path = prefix_before(&cs, '?');
        let ext = suffix_after_last(&path, '.');
        let ext_s = string_of(ext.as_slice());
        let lower = to_lowercase(ext_s.as_str());
        mime_for_extension(lower.as_str())
    }

    /// Fills `media_url` and `media_type` from `url_arquivo` and `tipo_mensagem` of the newer
    /// format; nothing changes when both are already there.
    pub fn normalize_media_fields(&mut self)
        ensures
            same_but_media(*final(self), *old(self)),
            old(self).media_url.is_some() && old(self).media_type.is_some() ==> *final(self) == *old(self),
            opt_view(final(self).media_url) == normalized_url(*old(self)),
            opt_view(final(self).media_type) == normalized_type(*old(self)),
    {
        if self.media_url.is_some() && self.media_type.is_some() {
            return;
        }
        if self.url_arquivo.is_some() && self.media_url.is_none() {
            self.media_url = clone_opt(&self.url_arquivo);
        }
        if self.media_type.is_none() {
            match &self.tipo_mensagem {
                Some(tipo) => {
                    let t = tipo.as_str();
                    let mt = if str_eq(t, "image") {
                        owned("image/jpeg")
                    } else if str_eq(t, "ptt") || str_eq(t, "audio") || str_eq(t, "voice") {
                        owned("audio/ogg")
                    } else if str_eq(t, "video") {
                        owned("video/mp4")
                    } else if str_eq(t, "document") {
                        owned("application/pdf")
                    } else {
                        match &self.media_url {
                            Some(u) => Self::detect_media_type_from_url(u.as_str()),
                            None => match &self.url_arquivo {
                                Some(u) => Self::detect_media_type_from_url(u.as_str()),
                                None => owned("application/octet-stream"),
                            },
                        }
                    };
                    self.media_type = Some(mt);
                },
                None => {
                    let mt = match &self.media_url {
                        Some(u) => Some(Self::detect_media_type_from_url(u.as_str())),
                        None => match &self.url_arquivo {
                            Some(u) => Some(Self::detect_media_type_from_url(u.as_str())),
                            None => None,
                        },
                    };
                    self.media_type = mt;
                },
            }
        }
    }
}

/// The text of a payload's message.
pub open spec fn message_text(w: WebhookPayload) -> Seq<char> {
    match w {
        WebhookPayload::ChatGuru(p) => p.texto_mensagem@,
        WebhookPayload::EventType(p) => match p.data.task_title {
            Some(t) => t@,
            None => match p.data.annotation {
                Some(a) => a@,
                None => Seq::empty(),
            },
        },
        WebhookPayload::Generic(p) => match p.mensagem {
            Some(m) => m@,
            None => Seq::empty(),
        },
    }
}

/// The attendant's name (`Info_2`) of a payload.
pub open spec fn info_2_text(w: WebhookPayload) -> Seq<char> {
    match w {
        WebhookPayload::ChatGuru(p) => match text_field(p.campos_personalizados@, "Info_2"@) {
            Some(s) => s,
            None => Seq::empty(),
        },
        WebhookPayload::EventType(p) => match p.data.lead_name {
            Some(l) => l@,
            None => Seq::empty(),
        },
        WebhookPayload::Generic(p) => match p.nome {
            Some(n) => n@,
            None => Seq::empty(),
        },
    }
}

/// The title by which duplicate tasks are found.
pub open spec fn task_title_of(w: WebhookPayload) -> Seq<char> {
    match w {
        WebhookPayload::ChatGuru(p) => "["@ + p.campanha_nome@ + "] "@ + p.nome@,
        WebhookPayload::EventType(p) => match p.data.task_title {
            Some(t) => t@,
            None => match p.data.lead_name {
                Some(n) => "["@ + p.event_type@ + "] "@ + n@,
                None => "Evento: "@ + p.event_type@,
            },
        },
        WebhookPayload::Generic(p) => "[Webhook] "@ + match p.nome {
            Some(n) => n@,
            None => "Contato"@,
        },
    }
}

/// `o`, or an empty string.
fn text_or_empty(o: &Option<String>) -> (r: String)
    ensures
        r@ == match *o {
            Some(s) => s@,
            None => Seq::<char>::empty(),
        },
{
    match o {
        Some(s) => s.clone(),
        None => String::new(),
    }
}

impl WebhookPayload {
    /// The text of the message.
    pub fn texto_mensagem(&self) -> (r: String)
        ensures
            r@ == message_text(*self),
    {
        match self {
            WebhookPayload::ChatGuru(p) => p.texto_mensagem.clone(),
            WebhookPayload::EventType(p) => match &p.data.task_title {
                Some(t) => t.clone(),
                None => text_or_empty(&p.data.annotation),
            },
            WebhookPayload::Generic(p) => text_or_empty(&p.mensagem),
        }
    }

    /// The attendant's name: `Info_2` of a ChatGuru payload, else the lead or contact name.
    pub fn get_info_2(&self) -> (r: String)
        ensures
            r@ == info_2_text(*self),
    {
        match self {
            WebhookPayload::ChatGuru(p) => {
                let v = text_member(&p.campos_personalizados, "Info_2");
                text_or_empty(&v)
            },
            WebhookPayload::EventType(p) => text_or_empty(&p.data.lead_name),
            WebhookPayload::Generic(p) => text_or_empty(&p.nome),
        }
    }

    /// The title by which duplicate tasks are found.
    pub fn get_task_title(&self) -> (r: String)
        ensures
            r@ == task_title_of(*self),
    {
        match self {
            WebhookPayload::ChatGuru(p) => {
                let mut t = owned("[");
                push_str(&mut t, p.campanha_nome.as_str());
                push_str(&mut t, "] ");
                push_str(&mut t, p.nome.as_str());
                t
            },
            WebhookPayload::EventType(p) => match &p.data.task_title {
                Some(t) => t.clone(),
                None => match &p.data.lead_name {
                    Some(n) => {
                        let mut t = owned("[");
                        push_str(&mut t, p.event_type.as_str());
                        push_str(&mut t, "] ");
                        push_str(&mut t, n.as_str());
                        t
                    },
                    None => {
                        let mut t = owned("Evento: ");
                        push_str(&mut t, p.event_type.as_str());
                        t
                    },
                },
            },
            WebhookPayload::Generic(p) => {
                let mut t = owned("[Webhook] ");
                match &p.nome {
                    Some(n) => push_str(&mut t, n.as_str()),
                    None => push_str(&mut t, "Contato"),
                }
                t
            },
        }
    }
}

} // verus!
