//! The ChatGuru webhook: what it reads from a payload, how it turns media into text, and
//! what it answers.

use vstd::prelude::*;
use crate::encoding::utf8_string;
use crate::json::{json_parse, parse_json, str_at, JsonValue, JsonView};
use crate::models::payload::{ChatGuruPayload, normalized_url, normalized_type, same_but_media};
use crate::services::prompts::opt_view;
use crate::services::hybrid_ai::{audio_extension, audio_extension_of};
use crate::text::{byte_len, contains, decimal, lowercase, owned, push_str, str_contains, str_is_empty, to_lowercase, truncate_with_suffix, truncated, u64_to_decimal, utf8_len};

verus! {

// ---------------------------------------------------------------------------------------
// The request body

/// Why a webhook body is refused.
#[derive(Debug, Clone, PartialEq, Eq)]
pub enum WebhookBodyError {
    /// The body is not UTF-8; the message begins "Invalid UTF-8 in request body: ".
    InvalidUtf8(String),
    /// The body is UTF-8 but not JSON; the message begins "Invalid JSON payload: ".
    InvalidJson(String),
}

/// The raw body of a webhook request as a JSON value: it must be UTF-8 and a JSON
/// document. A refused body gives the error the webhook answers with, and nothing after
/// this step runs.
pub fn parse_webhook_body(body: Vec<u8>) -> (r: Result<JsonValue, WebhookBodyError>)
    ensures
        match r {
            Ok(v) => vstd::utf8::valid_utf8(body@) && json_parse(vstd::utf8::decode_utf8(body@)) == Some(v@),
            Err(WebhookBodyError::InvalidUtf8(e)) => !vstd::utf8::valid_utf8(body@)
                && "Invalid UTF-8 in request body: "@.is_prefix_of(e@),
            Err(WebhookBodyError::InvalidJson(e)) => vstd::utf8::valid_utf8(body@)
                && json_parse(vstd::utf8::decode_utf8(body@)) is None
                && "Invalid JSON payload: "@.is_prefix_of(e@),
        },
{
    let text = match utf8_string(body) {
        Ok(t) => t,
        Err(e) => {
            let mut msg = owned("Invalid UTF-8 in request body: ");
            let ghost prefix = msg@;
            push_str(&mut msg, e.as_str());
            proof {
                assert(msg@.subrange(0, prefix.len() as int) =~= prefix);
            }
            return Err(WebhookBodyError::InvalidUtf8(msg));
        },
    };
    match parse_json(text.as_str()) {
        Ok(v) => Ok(v),
        Err(e) => {
            let mut msg = owned("Invalid JSON payload: ");
            let ghost prefix = msg@;
            push_str(&mut msg, e.as_str());
            proof {
                assert(msg@.subrange(0, prefix.len() as int) =~= prefix);
            }
            Err(WebhookBodyError::InvalidJson(msg))
        },
    }
}

// ---------------------------------------------------------------------------------------
// What the webhook reads from a payload

/// What the webhook logs and decides from a raw payload.
#[derive(Debug)]
pub struct WebhookInfo {
    /// `chat_id`, or `unknown`.
    pub chat_id: String,
    /// `sender_name`, or `unknown`.
    pub sender_name: String,
    /// `message_type`, or `text`.
    pub message_type: String,
    /// A non-empty `media_url` or `url_arquivo` is there.
    pub has_media: bool,
    /// `texto_mensagem`, cut to 100 characters and "..." when longer than 100 bytes.
    pub message_preview: String,
    /// The lowercased `media_url` contains `.pdf`.
    pub is_pdf: bool,
}

/// The string at `key`, or `default`.
pub open spec fn str_or(v: JsonView, key: Seq<char>, default: Seq<char>) -> Seq<char> {
    match str_at(v, key) {
        Some(s) => s,
        None => default,
    }
}

/// Whether `key` holds a non-empty string.
pub open spec fn nonempty_str_at(v: JsonView, key: Seq<char>) -> bool {
    match str_at(v, key) {
        Some(s) => s.len() > 0,
        None => false,
    }
}

/// The message as logged: cut to 100 characters and "..." when longer than 100 bytes.
pub open spec fn preview_of(v: JsonView) -> Seq<char> {
    match str_at(v, "texto_mensagem"@) {
        Some(t) => if utf8_len(t) > 100 {
            truncated(t, 100, "..."@)
        } else {
            t
        },
        None => Seq::empty(),
    }
}

/// Whether the media URL names a PDF.
pub open spec fn pdf_media(v: JsonView) -> bool {
    match str_at(v, "media_url"@) {
        Some(u) => contains(lowercase(u), ".pdf"@),
        None => false,
    }
}

/// The string at `key`.
fn string_at(v: &JsonValue, key: &str) -> (r: Option<String>)
    ensures
        opt_view(r) == str_at(v@, key@),
{
    match v.get(key) {
        Some(x) => match x.as_str() {
            Some(s) => Some(s.clone()),
            None => None,
        },
        None => None,
    }
}

/// The string at `key`, or `default`.
fn string_or(v: &JsonValue, key: &str, default: &str) -> (r: String)
    ensures
        r@ == str_or(v@, key@, default@),
{
    match string_at(v, key) {
        Some(s) => s,
        None => owned(default),
    }
}

/// Whether `key` holds a non-empty string.
fn has_nonempty(v: &JsonValue, key: &str) -> (r: bool)
    ensures
        r == nonempty_str_at(v@, key@),
{
    match string_at(v, key) {
        Some(s) => !str_is_empty(s.as_str()),
        None => false,
    }
}

/// What the webhook reads from a raw payload.
pub fn webhook_info(payload: &JsonValue) -> (r: WebhookInfo)
    ensures
        r.chat_id@ == str_or(payload@, "chat_id"@, "unknown"@),
        r.sender_name@ == str_or(payload@, "sender_name"@, "unknown"@),
        r.message_type@ == str_or(payload@, "message_type"@, "text"@),
        r.has_media == (nonempty_str_at(payload@, "media_url"@) || nonempty_str_at(
            payload@,
            "url_arquivo"@,
        )),
        r.message_preview@ == preview_of(payload@),
        r.is_pdf == pdf_media(payload@),
{
    let chat_id = string_or(payload, "chat_id", "unknown");
    let sender_name = string_or(payload, "sender_name", "unknown");
    let message_type = string_or(payload, "message_type", "text");
    let has_media = has_nonempty(payload, "media_url") || has_nonempty(payload, "url_arquivo");
    let message_preview = match string_at(payload, "texto_mensagem") {
        Some(t) => if byte_len(t.as_str()) > 100 {
            truncate_with_suffix(t.as_str(), 100, "...")
        } else {
            t
        },
        None => String::new(),
    };
    let is_pdf = match string_at(payload, "media_url") {
        Some(u) => {
            let l = to_lowercase(u.as_str());
            str_contains(l.as_str(), ".pdf")
        },
        None => false,
    };
    WebhookInfo { chat_id, sender_name, message_type, has_media, message_preview, is_pdf }
}

// ---------------------------------------------------------------------------------------
// Turning media into text

/// How attached media is turned into text.
#[derive(Debug, Clone, Copy, PartialEq, Eq, Structural)]
pub enum MediaKind {
    /// Transcribed.
    Audio,
    /// Described.
    Image,
    /// Its text extracted.
    Pdf,
    /// Left as it is.
    Unsupported,
}

/// How media of a type is turned into text: audio (including push-to-talk and voice),
/// then image, then PDF.
pub open spec fn media_kind_of(media_type: Seq<char>) -> MediaKind {
    if contains(media_type, "audio"@) || contains(media_type, "ptt"@) || contains(media_type, "voice"@) {
        MediaKind::Audio
    } else if contains(media_type, "image"@) {
        MediaKind::Image
    } else if contains(media_type, "pdf"@) || contains(media_type, "application/pdf"@) {
        MediaKind::Pdf
    } else {
        MediaKind::Unsupported
    }
}

/// How media of a type is turned into text.
pub fn media_kind(media_type: &str) -> (r: MediaKind)
    ensures
        r == media_kind_of(media_type@),
{
    if str_contains(media_type, "audio") || str_contains(media_type, "ptt") || str_contains(media_type, "voice") {
        MediaKind::Audio
    } else if str_contains(media_type, "image") {
        MediaKind::Image
    } else if str_contains(media_type, "pdf") || str_contains(media_type, "application/pdf") {
        MediaKind::Pdf
    } else {
        MediaKind::Unsupported
    }
}

/// The media of a payload, normalised, when it has a non-empty URL and a type.
pub open spec fn pending_media_of(p: ChatGuruPayload) -> Option<(Seq<char>, Seq<char>)> {
    match normalized_url(p) {
        Some(u) => match normalized_type(p) {
            Some(t) => if u.len() > 0 {
                Some((u, t))
            } else {
                None
            },
            None => None,
        },
        None => None,
    }
}

/// Normalises the media fields of the payload and gives its media URL and type, when it
/// has a non-empty URL and a type.
pub fn pending_media(p: &mut ChatGuruPayload) -> (r: Option<(String, String)>)
    ensures
        same_but_media(*final(p), *old(p)),
        opt_view(final(p).media_url) == normalized_url(*old(p)),
        opt_view(final(p).media_type) == normalized_type(*old(p)),
        match r {
            Some((u, t)) => pending_media_of(*old(p)) == Some((u@, t@)),
            None => pending_media_of(*old(p)).is_none(),
        },
{
    p.normalize_media_fields();
    match &p.media_url {
        Some(u) => match &p.media_type {
            Some(t) => if !str_is_empty(u.as_str()) {
                Some((u.clone(), t.clone()))
            } else {
                None
            },
            None => None,
        },
        None => None,
    }
}

/// The file name under which audio is sent for transcription: `audio.` and the URL's
/// extension.
pub fn audio_filename(url: &str) -> (r: String)
    ensures
        r@ == "audio."@ + audio_extension_of(url@),
{
    let ext = audio_extension(url);
    let mut f = owned("audio.");
    push_str(&mut f, ext.as_str());
    f
}

/// The annotation sent back to ChatGuru with a transcription.
pub fn transcription_annotation(transcription: &str) -> (r: String)
    ensures
        r@ == "🎵 **Áudio Transcrito**\n\n\""@ + transcription@
            + "\"\n\nℹ️ A transcrição foi processada automaticamente."@,
{
    let mut a = owned("🎵 **Áudio Transcrito**\n\n\"");
    push_str(&mut a, transcription);
    push_str(&mut a, "\"\n\nℹ️ A transcrição foi processada automaticamente.");
    a
}

/// The message text of a synthetic payload: the extracted text, after the original
/// message when there was one.
pub open spec fn synthetic_text(message: Seq<char>, extracted: Seq<char>) -> Seq<char> {
    if message.len() == 0 {
        extracted
    } else {
        message + "\n\n[Mídia processada]: "@ + extracted
    }
}

/// The payload that stands for a message whose media was turned into text: the text
/// joins the message, the payload is marked synthetic with the original media type, and
/// its media fields are emptied.
pub fn synthetic_payload(p: ChatGuruPayload, extracted: &str, media_type: &str) -> (r: ChatGuruPayload)
    ensures
        r.texto_mensagem@ == synthetic_text(p.texto_mensagem@, extracted@),
        r._is_synthetic == Some(true),
        opt_view(r._original_media_type) == Some(media_type@),
        r.media_url.is_none(),
        r.media_type.is_none(),
        r.url_arquivo.is_none(),
        r.tipo_mensagem.is_none(),
        r.nome == p.nome,
        r.celular == p.celular,
        r.email == p.email,
        r.campanha_id == p.campanha_id,
        r.campanha_nome == p.campanha_nome,
        r.campos_personalizados == p.campos_personalizados,
        r.chat_id == p.chat_id,
        r.link_chat == p.link_chat,
        r.origem == p.origem,
        r.tags == p.tags,
        r.bot_context == p.bot_context,
        r.responsavel_nome == p.responsavel_nome,
        r.responsavel_email == p.responsavel_email,
        r.phone_id == p.phone_id,
        r.chat_created == p.chat_created,
        r._batch_chat_id == p._batch_chat_id,
        r._batch_size == p._batch_size,
{
    let mut s = p;
    let text = if str_is_empty(s.texto_mensagem.as_str()) {
        owned(extracted)
    } else {
        let mut t = s.texto_mensagem.clone();
        push_str(&mut t, "\n\n[Mídia processada]: ");
        push_str(&mut t, extracted);
        t
    };
    s.texto_mensagem = text;
    s._is_synthetic = Some(true);
    s._original_media_type = Some(owned(media_type));
    s.media_url = None;
    s.media_type = None;
    s.url_arquivo = None;
    s.tipo_mensagem = None;
    s
}

// ---------------------------------------------------------------------------------------
// The media step and the route of a message

/// The media work due for a payload: its normalised URL, type and kind, when it has
/// media, a classifier is available and the type is one that can be turned into text.
pub open spec fn media_plan_of(p: ChatGuruPayload, classifier_available: bool) -> Option<(Seq<char>, Seq<char>, MediaKind)> {
    match pending_media_of(p) {
        Some((u, t)) => if classifier_available && media_kind_of(t) != MediaKind::Unsupported {
            Some((u, t, media_kind_of(t)))
        } else {
            None
        },
        None => None,
    }
}

/// Normalises the media fields of the payload and gives the media work due: the URL, the
/// type and how it is turned into text. Nothing is due without media, without a
/// classifier or for a type that cannot be turned into text.
pub fn media_plan(p: &mut ChatGuruPayload, classifier_available: bool) -> (r: Option<(String, String, MediaKind)>)
    ensures
        same_but_media(*final(p), *old(p)),
        opt_view(final(p).media_url) == normalized_url(*old(p)),
        opt_view(final(p).media_type) == normalized_type(*old(p)),
        match r {
            Some((u, t, k)) => media_plan_of(*old(p), classifier_available) == Some((u@, t@, k)),
            None => media_plan_of(*old(p), classifier_available).is_none(),
        },
{
    match pending_media(p) {
        Some((u, t)) => {
            let kind = media_kind(t.as_str());
            if classifier_available && kind != MediaKind::Unsupported {
                Some((u, t, kind))
            } else {
                None
            }
        },
        None => None,
    }
}

/// What became of the media of a webhook message.
#[derive(Debug)]
pub enum MediaOutcome {
    /// No media was turned into text: there was none, no classifier, an unsupported
    /// type, or the download, the processing or the time limit failed.
    Untouched,
    /// The media became text: the synthetic payload, and whether it was audio.
    Processed(ChatGuruPayload, bool),
}

/// The outcome of the media work of kind `kind` on payload `p` (normalised), given the text
/// the classifier extracted, or nothing when a step failed.
pub fn media_outcome(p: ChatGuruPayload, media_type: &str, kind: MediaKind, extracted: Option<String>) -> (r: MediaOutcome)
    ensures
        match extracted {
            Some(text) => r matches MediaOutcome::Processed(s, audio) && audio == (kind == MediaKind::Audio)
                && s.texto_mensagem@ == synthetic_text(p.texto_mensagem@, text@)
                && s == (ChatGuruPayload {
                    texto_mensagem: s.texto_mensagem,
                    _is_synthetic: Some(true),
                    _original_media_type: s._original_media_type,
                    media_url: None,
                    media_type: None,
                    url_arquivo: None,
                    tipo_mensagem: None,
                    ..p
                }) && opt_view(s._original_media_type) == Some(media_type@),
            None => r is Untouched,
        },
{
    match extracted {
        Some(text) => {
            let s = synthetic_payload(p, text.as_str(), media_type);
            MediaOutcome::Processed(s, kind == MediaKind::Audio)
        },
        None => MediaOutcome::Untouched,
    }
}

/// Where a webhook message goes once its media step is over.
#[derive(Debug)]
pub enum WebhookRoute {
    /// The synthetic audio payload was published at once: the fast-track answer, and
    /// nothing is queued.
    FastTrack,
    /// The payload is queued once under its chat and acknowledged: the synthetic payload,
    /// or `None` for the payload as it was received.
    Enqueue(Option<ChatGuruPayload>),
}

/// The route of a message: audio turned into text and published at once takes the fast
/// track; every other message is queued once, as the synthetic payload when its media
/// became text. `audio_published` is whether publishing the synthetic audio payload
/// succeeded (it is attempted only for processed audio).
pub fn webhook_route(outcome: MediaOutcome, audio_published: bool) -> (r: WebhookRoute)
    ensures
        match outcome {
            MediaOutcome::Processed(s, true) => if audio_published {
                r is FastTrack
            } else {
                r == WebhookRoute::Enqueue(Some(s))
            },
            MediaOutcome::Processed(s, false) => r == WebhookRoute::Enqueue(Some(s)),
            MediaOutcome::Untouched => r == WebhookRoute::Enqueue(None),
        },
{
    match outcome {
        MediaOutcome::Processed(s, audio) => if audio && audio_published {
            WebhookRoute::FastTrack
        } else {
            WebhookRoute::Enqueue(Some(s))
        },
        MediaOutcome::Untouched => WebhookRoute::Enqueue(None),
    }
}

// ---------------------------------------------------------------------------------------
// What the webhook answers

/// A string value.
fn str_value(s: &str) -> (r: JsonValue)
    ensures
        r@ == JsonView::Str(s@),
{
    JsonValue::Str(owned(s))
}

/// The acknowledgement of a queued message, members in `serde_json`'s key order.
pub open spec fn ack_json(request_id: Seq<char>, chat_id: Seq<char>, ms: u64) -> JsonView {
    JsonView::Object(seq![
        ("chat_id"@, JsonView::Str(chat_id)),
        ("message"@, JsonView::Str("Success"@)),
        ("processing_time_ms"@, JsonView::Number(decimal(ms as nat))),
        ("request_id"@, JsonView::Str(request_id)),
    ])
}

/// The answer when audio was transcribed and published at once, members in `serde_json`'s
/// key order.
pub open spec fn audio_fast_track_json(request_id: Seq<char>, chat_id: Seq<char>, ms: u64) -> JsonView {
    JsonView::Object(seq![
        ("audio_fast_track"@, JsonView::Bool(true)),
        ("chat_id"@, JsonView::Str(chat_id)),
        ("message"@, JsonView::Str("Audio processed and published immediately"@)),
        ("processing_time_ms"@, JsonView::Number(decimal(ms as nat))),
        ("request_id"@, JsonView::Str(request_id)),
    ])
}

/// The acknowledgement of a queued message.
pub fn ack_response(request_id: &str, chat_id: &str, processing_time_ms: u64) -> (r: JsonValue)
    ensures
        r@ == ack_json(request_id@, chat_id@, processing_time_ms),
{
    let mut m: Vec<(String, JsonValue)> = Vec::new();
    m.push((owned("chat_id"), str_value(chat_id)));
    m.push((owned("message"), str_value("Success")));
    m.push((owned("processing_time_ms"), JsonValue::Number(u64_to_decimal(processing_time_ms))));
    m.push((owned("request_id"), str_value(request_id)));
    let ghost ms = m@;
    let r = JsonValue::Object(m);
    proof {
        let target = seq![
            ("chat_id"@, JsonView::Str(chat_id@)),
            ("message"@, JsonView::Str("Success"@)),
            ("processing_time_ms"@, JsonView::Number(decimal(processing_time_ms as nat))),
            ("request_id"@, JsonView::Str(request_id@)),
        ];
        assert forall|i: int| 0 <= i < 4 implies (ms[i].0@, ms[i].1@) == target[i] by {}
        if let JsonView::Object(got) = r@ {
            assert(got =~= target);
        }
    }
    r
}

/// The answer when audio was transcribed and published at once.
pub fn audio_fast_track_response(request_id: &str, chat_id: &str, processing_time_ms: u64) -> (r: JsonValue)
    ensures
        r@ == audio_fast_track_json(request_id@, chat_id@, processing_time_ms),
{
    let mut m: Vec<(String, JsonValue)> = Vec::new();
    m.push((owned("audio_fast_track"), JsonValue::Bool(true)));
    m.push((owned("chat_id"), str_value(chat_id)));
    m.push((owned("message"), str_value("Audio processed and published immediately")));
    m.push((owned("processing_time_ms"), JsonValue::Number(u64_to_decimal(processing_time_ms))));
    m.push((owned("request_id"), str_value(request_id)));
    let ghost ms = m@;
    let r = JsonValue::Object(m);
    proof {
        let target = seq![
            ("audio_fast_track"@, JsonView::Bool(true)),
            ("chat_id"@, JsonView::Str(chat_id@)),
            ("message"@, JsonView::Str("Audio processed and published immediately"@)),
            ("processing_time_ms"@, JsonView::Number(decimal(processing_time_ms as nat))),
            ("request_id"@, JsonView::Str(request_id@)),
        ];
        assert forall|i: int| 0 <= i < 5 implies (ms[i].0@, ms[i].1@) == target[i] by {}
        if let JsonView::Object(got) = r@ {
            assert(got =~= target);
        }
    }
    r
}

} // verus!
