//! The ClickUp task made from a webhook payload.

use vstd::prelude::*;
use crate::json::{JsonValue, JsonView};
use crate::keyed::{lookup, map_position};
use crate::text::{byte_len, chars_of, is_alphanumeric, is_whitespace, is_ws, alphanumeric, owned, push_char, push_str, remove_all, replace, str_replace, str_trim, to_uppercase_char, trim, truncate_with_suffix, truncated, uppercase_char, utf8_len, str_contains, contains, str_starts_with, starts_with, str_eq, str_is_empty};
use crate::models::classification::ActivityClassification;
use crate::models::payload::{ChatGuruPayload, EventTypePayload, GenericPayload, WebhookPayload};
use crate::json::json_text;
use crate::services::prompt_text::{concat, lemma_concat_step, lemma_concat_all};
use crate::services::prompts::{opt_view, ActivityType, AiPromptConfig, category_id_spec, subcategory_id_spec, subcategory_stars_spec, status_id_spec};
use crate::models::clickup::{CreateTaskRequest, CustomField, CustomFieldValue, FieldValueView, TaskPriority, TaskView, field_views, new_field, string_views};

verus! {

// ---------------------------------------------------------------------------------------
// A professional title from the classifier's reason

/// `r` without the stock phrases with which the classifier starts its reasons.
pub open spec fn without_stock_phrases(r: Seq<char>) -> Seq<char> {
    let e = Seq::<char>::empty();
    let s1 = replace(r, "A mensagem contém"@, e);
    let s2 = replace(s1, "O usuário solicitou"@, e);
    let s3 = replace(s2, "A solicitação é sobre"@, e);
    let s4 = replace(s3, "Trata-se de"@, e);
    let s5 = replace(s4, "É uma solicitação de"@, e);
    let s6 = replace(s5, "um pedido específico de"@, e);
    let s7 = replace(s6, "um pedido de"@, e);
    let s8 = replace(s7, "uma solicitação de"@, e);
    let s9 = replace(s8, "uma solicitação para"@, e);
    let s10 = replace(s9, "A ação envolve"@, e);
    let s11 = replace(s10, "O pedido é para"@, e);
    replace(s11, "uma série de"@, e)
}

/// `s` with its first character uppercased.
pub open spec fn capitalized(s: Seq<char>) -> Seq<char> {
    if s.len() > 0 {
        uppercase_char(s[0]) + s.drop_first()
    } else {
        s
    }
}

/// Whether a title keeps `c`: letters, digits, white space, `-` and `_`.
pub open spec fn title_char(c: char) -> bool {
    alphanumeric(c) || is_ws(c) || c == '-' || c == '_'
}

/// A text has at least as many UTF-8 bytes as characters.
proof fn lemma_bytes_at_least_chars(s: Seq<char>)
    ensures
        vstd::utf8::encode_utf8(s).len() >= s.len(),
    decreases s.len(),
{
    if s.len() > 0 {
        lemma_bytes_at_least_chars(s.drop_first());
        assert(vstd::utf8::encode_scalar(s[0] as u32).len() >= 1);
    }
}

/// A professional title is never empty and has at most fifty characters (for a title whose
/// UTF-8 length fits the machine's `usize`).
pub proof fn lemma_title_length(reason: Seq<char>)
    requires
        vstd::utf8::encode_utf8(title_body(reason)).len() <= usize::MAX,
    ensures
        1 <= professional_title(reason).len() <= 50,
{
    let t = title_body(reason);
    lemma_bytes_at_least_chars(t);
    reveal_strlit("...");
    reveal_strlit("Atividade Profissional");
    if utf8_len(t) > 50 {
        let t2 = truncated(t, 47, "..."@);
        assert(t2.len() <= 50);
    } else {
        assert(t.len() <= 50);
    }
}

/// The characters of `s` that a title keeps.
pub open spec fn title_chars(s: Seq<char>) -> Seq<char>
    decreases s.len(),
{
    if s.len() == 0 {
        s
    } else if title_char(s.last()) {
        title_chars(s.drop_last()).push(s.last())
    } else {
        title_chars(s.drop_last())
    }
}

/// The title before its length is checked: stock phrases removed, first letter uppercased,
/// line breaks turned into spaces, other symbols dropped, white space trimmed.
pub open spec fn title_body(reason: Seq<char>) -> Seq<char> {
    let clean = trim(without_stock_phrases(reason));
    let cap = capitalized(clean);
    let one_line = trim(replace(replace(cap, "\n"@, " "@), "\r"@, " "@));
    trim(title_chars(one_line))
}

/// A short professional title for a task, taken from the classifier's reason: at most 50
/// bytes (else cut to 47 characters and "..."), and a stock title when fewer than 3 bytes
/// are left.
pub open spec fn professional_title(reason: Seq<char>) -> Seq<char> {
    let t = title_body(reason);
    let t2 = if utf8_len(t) > 50 {
        truncated(t, 47, "..."@)
    } else {
        t
    };
    if t2.len() == 0 || utf8_len(t2) < 3 {
        "Atividade Profissional"@
    } else {
        t2
    }
}

/// The characters of `s` that a title keeps.
fn keep_title_chars(s: &str) -> (r: String)
    ensures
        r@ == title_chars(s@),
{
    let cs = chars_of(s);
    let mut out = String::new();
    let mut i: usize = 0;
    while i < cs.len()
        invariant
            i <= cs@.len(),
            cs@ == s@,
            out@ == title_chars(cs@.take(i as int)),
        decreases cs@.len() - i,
    {
        let c = cs[i];
        let ghost pre = cs@.take(i + 1);
        assert(pre.drop_last() == cs@.take(i as int));
        assert(pre.last() == c);
        if is_alphanumeric(c) || is_whitespace(c) || c == '-' || c == '_' {
            push_char(&mut out, c);
        }
        i = i + 1;
    }
    assert(cs@.take(cs@.len() as int) == cs@);
    out
}

/// `s` with its first character uppercased.
fn capitalize(s: &str) -> (r: String)
    ensures
        r@ == capitalized(s@),
{
    let cs = chars_of(s);
    if cs.len() == 0 {
        owned(s)
    } else {
        let mut out = to_uppercase_char(cs[0]);
        let ghost head = out@;
        let mut k: usize = 1;
        while k < cs.len()
            invariant
                1 <= k <= cs@.len(),
                out@ == head + cs@.subrange(1, k as int),
            decreases cs@.len() - k,
        {
            push_char(&mut out, cs[k]);
            k = k + 1;
            assert(out@ =~= head + cs@.subrange(1, k as int));
        }
        assert(cs@.subrange(1, cs@.len() as int) =~= s@.drop_first());
        out
    }
}

/// A short professional title for a task, taken from the classifier's reason.
pub fn extract_professional_title(reason: &str) -> (r: String)
    ensures
        r@ == professional_title(reason@),
{
    let s1 = remove_all(reason, "A mensagem contém");
    let s2 = remove_all(s1.as_str(), "O usuário solicitou");
    let s3 = remove_all(s2.as_str(), "A solicitação é sobre");
    let s4 = remove_all(s3.as_str(), "Trata-se de");
    let s5 = remove_all(s4.as_str(), "É uma solicitação de");
    let s6 = remove_all(s5.as_str(), "um pedido específico de");
    let s7 = remove_all(s6.as_str(), "um pedido de");
    let s8 = remove_all(s7.as_str(), "uma solicitação de");
    let s9 = remove_all(s8.as_str(), "uma solicitação para");
    let s10 = remove_all(s9.as_str(), "A ação envolve");
    let s11 = remove_all(s10.as_str(), "O pedido é para");
    let s12 = remove_all(s11.as_str(), "uma série de");
    let clean = str_trim(s12.as_str());
    let cap = capitalize(clean.as_str());
    proof {
        reveal_strlit("\n");
        reveal_strlit("\r");
    }
    let no_lf = str_replace(cap.as_str(), "\n", " ");
    let no_cr = str_replace(no_lf.as_str(), "\r", " ");
    let one_line = str_trim(no_cr.as_str());
    let kept = keep_title_chars(one_line.as_str());
    let mut title = str_trim(kept.as_str());
    if byte_len(title.as_str()) > 50 {
        title = truncate_with_suffix(title.as_str(), 47, "...");
    }
    if byte_len(title.as_str()) < 3 {
        owned("Atividade Profissional")
    } else {
        proof {
            if title@.len() == 0 {
                assert(utf8_len(title@) == 0);
            }
        }
        title
    }
}

// ---------------------------------------------------------------------------------------
// Description of a ChatGuru task

/// The string member `key` of a map of JSON values.
pub open spec fn text_field(m: Seq<(String, JsonValue)>, key: Seq<char>) -> Option<Seq<char>> {
    match lookup(m, key) {
        Some(v) => match v@ {
            JsonView::Str(s) => Some(s),
            _ => None,
        },
        None => None,
    }
}

/// The string member `key` of a map of JSON values.
pub fn text_member(m: &Vec<(String, JsonValue)>, key: &str) -> (r: Option<String>)
    ensures
        opt_view(r) == text_field(m@, key@),
{
    match map_position(m, key) {
        Some(i) => match &m[i].1 {
            JsonValue::Str(s) => Some(s.clone()),
            _ => None,
        },
        None => None,
    }
}

/// What an optional reference points to.
pub open spec fn deref_opt<T>(o: Option<&T>) -> Option<T> {
    match o {
        Some(x) => Some(*x),
        None => None,
    }
}

/// The lines about attached media: an inline preview for an image, a link otherwise.
pub open spec fn media_lines(media_type: Seq<char>, url: Seq<char>) -> Seq<char> {
    if contains(media_type, "image"@) || contains(media_type, "photo"@) {
        "🖼️ Imagem anexada: [Visualizar]("@ + url + ")\n"@ + "\n![Imagem anexada]("@ + url + ")\n"@
    } else if contains(media_type, "audio"@) || contains(media_type, "voice"@) {
        "🎵 Áudio anexado: [Ouvir]("@ + url + ")\n"@
    } else {
        "📎 Arquivo anexado: [Baixar]("@ + url + ")\n"@
    }
}

/// The media section of a description, when the payload has both a media URL and type.
pub open spec fn media_section(p: ChatGuruPayload) -> Seq<char> {
    match p.media_url {
        Some(u) => match p.media_type {
            Some(t) => "\n\n**Mídia Anexada**\n"@ + media_lines(t@, u@),
            None => Seq::empty(),
        },
        None => Seq::empty(),
    }
}

/// Appends the media section of `p`.
fn push_media_section(out: &mut String, p: &ChatGuruPayload)
    ensures
        final(out)@ == old(out)@ + media_section(*p),
{
    match &p.media_url {
        Some(u) => match &p.media_type {
            Some(t) => {
                push_str(out, "\n\n**Mídia Anexada**\n");
                let ghost mid = out@;
                if str_contains(t.as_str(), "image") || str_contains(t.as_str(), "photo") {
                    push_str(out, "🖼️ Imagem anexada: [Visualizar](");
                    push_str(out, u.as_str());
                    push_str(out, ")\n");
                    push_str(out, "\n![Imagem anexada](");
                    push_str(out, u.as_str());
                    push_str(out, ")\n");
                } else if str_contains(t.as_str(), "audio") || str_contains(t.as_str(), "voice") {
                    push_str(out, "🎵 Áudio anexado: [Ouvir](");
                    push_str(out, u.as_str());
                    push_str(out, ")\n");
                } else {
                    push_str(out, "📎 Arquivo anexado: [Baixar](");
                    push_str(out, u.as_str());
                    push_str(out, ")\n");
                }
                assert(out@ =~= old(out)@ + media_section(*p));
            },
            None => {
                assert(out@ =~= old(out)@ + media_section(*p));
            },
        },
        None => {
            assert(out@ =~= old(out)@ + media_section(*p));
        },
    }
}

/// The message followed by a blank line, when there is a message.
pub open spec fn message_intro(p: ChatGuruPayload) -> Seq<char> {
    if p.texto_mensagem@.len() > 0 {
        p.texto_mensagem@ + "\n\n"@
    } else {
        Seq::empty()
    }
}

/// `label`, the value and a line break, when there is a value.
pub open spec fn labeled_line(label: Seq<char>, v: Option<String>) -> Seq<char> {
    match v {
        Some(x) => label + x@ + "\n"@,
        None => Seq::empty(),
    }
}

/// The opening of a description with a classification: the classifier's description (or
/// the message), then its campaign, category and activity type.
pub open spec fn classified_intro(p: ChatGuruPayload, a: ActivityClassification) -> Seq<char> {
    let base = match a.description {
        Some(d) => if d@.len() > 0 {
            d@ + "\n\n"@
        } else {
            message_intro(p)
        },
        None => message_intro(p),
    };
    let campaign = match a.campanha {
        Some(c) => if c@.len() > 0 {
            "**Campanha**: "@ + c@ + "\n"@
        } else {
            Seq::empty()
        },
        None => Seq::empty(),
    };
    base + campaign + labeled_line("**Categoria**: "@, a.category) + labeled_line(
        "**Tipo**: "@,
        a.tipo_atividade,
    )
}

/// The description of a ChatGuru task made with a classification, before it is trimmed.
pub open spec fn classified_description(p: ChatGuruPayload, ai: Option<ActivityClassification>) -> Seq<char> {
    let intro = match ai {
        Some(a) => classified_intro(p, a),
        None => message_intro(p),
    };
    let link = if p.link_chat@.len() > 0 {
        "\n[Ver conversa completa]("@ + p.link_chat@ + ")"@
    } else {
        Seq::empty()
    };
    intro + "\n**Contato**: "@ + p.nome@ + " ("@ + p.celular@ + ")\n"@ + link + media_section(p)
}

/// Appends `label`, the value and a line break, when there is a value.
fn push_labeled_line(out: &mut String, label: &str, v: &Option<String>)
    ensures
        final(out)@ == old(out)@ + labeled_line(label@, *v),
{
    match v {
        Some(x) => {
            push_str(out, label);
            push_str(out, x.as_str());
            push_str(out, "\n");
            assert(out@ =~= old(out)@ + labeled_line(label@, *v));
        },
        None => {
            assert(out@ =~= old(out)@ + labeled_line(label@, *v));
        },
    }
}

/// The description of a ChatGuru task made with a classification, before it is trimmed.
fn describe_classified(p: &ChatGuruPayload, ai: Option<&ActivityClassification>) -> (r: String)
    ensures
        r@ == classified_description(*p, deref_opt(ai)),
{
    let mut d = String::new();
    if !str_is_empty(p.texto_mensagem.as_str()) {
        push_str(&mut d, p.texto_mensagem.as_str());
        push_str(&mut d, "\n\n");
    }
    proof {
        if p.texto_mensagem@.len() == 0 {
            assert(d@ =~= message_intro(*p));
        } else {
            assert(d@ =~= message_intro(*p));
        }
    }
    if let Some(a) = ai {
        if let Some(ad) = &a.description {
            if !str_is_empty(ad.as_str()) {
                d = ad.clone();
                push_str(&mut d, "\n\n");
            }
        }
        let ghost base = d@;
        if let Some(c) = &a.campanha {
            if !str_is_empty(c.as_str()) {
                push_str(&mut d, "**Campanha**: ");
                push_str(&mut d, c.as_str());
                push_str(&mut d, "\n");
            }
        }
        push_labeled_line(&mut d, "**Categoria**: ", &a.category);
        push_labeled_line(&mut d, "**Tipo**: ", &a.tipo_atividade);
        assert(d@ =~= classified_intro(*p, *a));
    }
    let ghost intro = d@;
    push_str(&mut d, "\n**Contato**: ");
    push_str(&mut d, p.nome.as_str());
    push_str(&mut d, " (");
    push_str(&mut d, p.celular.as_str());
    push_str(&mut d, ")\n");
    let ghost contact = d@;
    if !str_is_empty(p.link_chat.as_str()) {
        push_str(&mut d, "\n[Ver conversa completa](");
        push_str(&mut d, p.link_chat.as_str());
        push_str(&mut d, ")");
    }
    let ghost linked = d@;
    push_media_section(&mut d, p);
    assert(d@ =~= classified_description(*p, deref_opt(ai)));
    d
}

// ---------------------------------------------------------------------------------------
// Name of a ChatGuru task

/// The message as a title: cut to 77 characters and "..." when longer than 80 bytes.
pub open spec fn message_title(m: Seq<char>) -> Seq<char> {
    if utf8_len(m) > 80 {
        truncated(m, 77, "..."@)
    } else {
        m
    }
}

/// Whether the payload comes from a test: its email starts with `test_` or its campaign
/// is `test_campaign`.
pub open spec fn is_test_payload(p: ChatGuruPayload) -> bool {
    starts_with(p.email@, "test_"@) || p.campanha_id@ == "test_campaign"@
}

/// The name of a task from a classified activity: the message when the reason comes from
/// keyword matching; else the professional title when it is longer than 5 bytes, else the
/// activity type and the contact's name, else the message.
pub open spec fn activity_task_name(p: ChatGuruPayload, a: ActivityClassification) -> Seq<char> {
    if starts_with(a.reason@, "Contém palavras-chave"@) {
        message_title(p.texto_mensagem@)
    } else {
        let t = professional_title(a.reason@);
        if t.len() > 0 && utf8_len(t) > 5 {
            t
        } else {
            match a.tipo_atividade {
                Some(tipo) => tipo@ + " - "@ + p.nome@,
                None => message_title(p.texto_mensagem@),
            }
        }
    }
}

/// The name of a task made with an optional classification, marked `[TESTE]` for tests.
pub open spec fn classified_task_name(p: ChatGuruPayload, ai: Option<ActivityClassification>) -> Seq<char> {
    let base = match ai {
        Some(a) => if a.is_activity {
            activity_task_name(p, a)
        } else {
            p.nome@
        },
        None => "[ChatGuru] "@ + p.nome@,
    };
    if is_test_payload(p) {
        "[TESTE] "@ + base
    } else {
        base
    }
}

/// The message as a title.
fn title_of_message(m: &str) -> (r: String)
    ensures
        r@ == message_title(m@),
{
    if byte_len(m) > 80 {
        truncate_with_suffix(m, 77, "...")
    } else {
        owned(m)
    }
}

/// The name of a task made with an optional classification.
fn name_classified(p: &ChatGuruPayload, ai: Option<&ActivityClassification>) -> (r: String)
    ensures
        r@ == classified_task_name(*p, deref_opt(ai)),
{
    let is_test = str_starts_with(p.email.as_str(), "test_") || str_eq(
        p.campanha_id.as_str(),
        "test_campaign",
    );
    let base = match ai {
        Some(a) => {
            if a.is_activity {
                if str_starts_with(a.reason.as_str(), "Contém palavras-chave") {
                    title_of_message(p.texto_mensagem.as_str())
                } else {
                    let t = extract_professional_title(a.reason.as_str());
                    if !str_is_empty(t.as_str()) && byte_len(t.as_str()) > 5 {
                        t
                    } else {
                        match &a.tipo_atividade {
                            Some(tipo) => {
                                let mut n = tipo.clone();
                                push_str(&mut n, " - ");
                                push_str(&mut n, p.nome.as_str());
                                n
                            },
                            None => title_of_message(p.texto_mensagem.as_str()),
                        }
                    }
                }
            } else {
                p.nome.clone()
            }
        },
        None => {
            let mut n = owned("[ChatGuru] ");
            push_str(&mut n, p.nome.as_str());
            n
        },
    };
    if is_test {
        let mut n = owned("[TESTE] ");
        push_str(&mut n, base.as_str());
        n
    } else {
        base
    }
}

// ---------------------------------------------------------------------------------------
// Custom fields of a ChatGuru task

/// The id of the first activity type called `name`.
pub open spec fn activity_type_id(ts: Seq<ActivityType>, name: Seq<char>) -> Option<Seq<char>>
    decreases ts.len(),
{
    if ts.len() == 0 {
        None
    } else if ts[0].name@ == name {
        Some(ts[0].id@)
    } else {
        activity_type_id(ts.drop_first(), name)
    }
}

/// The activity-type field: from the configuration, or the built-in id.
pub open spec fn activity_field_id(c: AiPromptConfig) -> Seq<char> {
    match c.field_ids {
        Some(ids) => ids.activity_type_field_id@,
        None => "f1259ffb-7be8-49ff-92f8-5ff9882888d0"@,
    }
}

/// The category field: from the configuration, or the built-in id.
pub open spec fn category_field_id(c: AiPromptConfig) -> Seq<char> {
    match c.field_ids {
        Some(ids) => ids.category_field_id@,
        None => "c19b4f95-1ff7-4966-b201-02905d33cec6"@,
    }
}

/// The subcategory field: from the configuration, or the built-in id.
pub open spec fn subcategory_field_id(c: AiPromptConfig) -> Seq<char> {
    match c.field_ids {
        Some(ids) => ids.subcategory_field_id@,
        None => "5333c095-eb40-4a5a-b0c2-76bfba4b1094"@,
    }
}

/// The stars field: from the configuration, or the built-in id.
pub open spec fn stars_field_id(c: AiPromptConfig) -> Seq<char> {
    match c.field_ids {
        Some(ids) => ids.stars_field_id@,
        None => "83afcb8c-2866-498f-9c62-8ea9666b104b"@,
    }
}

/// The back-office status field: from the configuration, or the built-in id.
pub open spec fn status_field_id(c: AiPromptConfig) -> Seq<char> {
    match c.field_ids {
        Some(ids) => ids.status_field_id@,
        None => "6abbfe79-f80b-4b55-9b4b-9bd7f65b6458"@,
    }
}

/// The field "Conta cliente", which takes `Info_1`.
pub open spec fn client_account_field_id() -> Seq<char> {
    "0cd1d510-1906-4484-ba66-06ccdd659768"@
}

/// One dropdown field when the option id is known.
pub open spec fn dropdown(field: Seq<char>, option: Option<Seq<char>>) -> Seq<(Seq<char>, FieldValueView)> {
    match option {
        Some(id) => seq![(field, FieldValueView::Dropdown(id))],
        None => Seq::empty(),
    }
}

/// The option id of the classified category.
pub open spec fn category_option(c: AiPromptConfig, a: ActivityClassification) -> Option<Seq<char>> {
    match a.category {
        Some(cat) => category_id_spec(c, cat@),
        None => None,
    }
}

/// The option id of the classified subcategory, under the classified category.
pub open spec fn subcategory_option(c: AiPromptConfig, a: ActivityClassification) -> Option<Seq<char>> {
    match a.sub_categoria {
        Some(sub) => match a.category {
            Some(cat) => subcategory_id_spec(c, cat@, sub@),
            None => None,
        },
        None => None,
    }
}

/// The stars of the classified subcategory.
pub open spec fn subcategory_stars(c: AiPromptConfig, a: ActivityClassification) -> Option<u8> {
    match a.sub_categoria {
        Some(sub) => match a.category {
            Some(cat) => subcategory_stars_spec(c, cat@, sub@),
            None => None,
        },
        None => None,
    }
}

/// Whether one of the fields has id `id`.
pub open spec fn has_field(fs: Seq<(Seq<char>, FieldValueView)>, id: Seq<char>) -> bool {
    exists|i: int| 0 <= i < fs.len() && #[trigger] fs[i].0 == id
}

/// The fields of the classification, before the category fields are checked once more.
pub open spec fn classified_fields_first(c: AiPromptConfig, a: ActivityClassification) -> Seq<(Seq<char>, FieldValueView)> {
    let tipo = match a.tipo_atividade {
        Some(t) => dropdown(activity_field_id(c), activity_type_id(c.activity_types@, t@)),
        None => Seq::empty(),
    };
    let cat = dropdown(category_field_id(c), category_option(c, a));
    let sub = match subcategory_option(c, a) {
        Some(sid) => seq![(subcategory_field_id(c), FieldValueView::Dropdown(sid))] + match subcategory_stars(c, a) {
            Some(st) => seq![(stars_field_id(c), FieldValueView::Rating(st as int))],
            None => Seq::empty(),
        },
        None => Seq::empty(),
    };
    tipo + cat + sub
}

/// The category and subcategory fields added under the configured ids when they are not
/// there yet.
pub open spec fn with_category_fields(
    c: AiPromptConfig,
    a: ActivityClassification,
    fs: Seq<(Seq<char>, FieldValueView)>,
) -> Seq<(Seq<char>, FieldValueView)> {
    match c.field_ids {
        Some(ids) => {
            let f1 = if !has_field(fs, ids.category_field_id@) {
                fs + dropdown(ids.category_field_id@, category_option(c, a))
            } else {
                fs
            };
            if !has_field(f1, ids.subcategory_field_id@) {
                f1 + dropdown(ids.subcategory_field_id@, subcategory_option(c, a))
            } else {
                f1
            }
        },
        None => fs,
    }
}

/// The custom fields that a classification gives.
pub open spec fn classified_fields(c: AiPromptConfig, a: ActivityClassification) -> Seq<(Seq<char>, FieldValueView)> {
    let status = match a.status_back_office {
        Some(st) => dropdown(status_field_id(c), status_id_spec(c.status_options@, st@)),
        None => Seq::empty(),
    };
    with_category_fields(c, a, classified_fields_first(c, a)) + status
}

/// The custom fields of a ChatGuru task: those of the classification, then `Info_1` as the
/// client account.
pub open spec fn task_fields(p: ChatGuruPayload, ai: Option<ActivityClassification>, c: AiPromptConfig) -> Seq<(Seq<char>, FieldValueView)> {
    let from_ai = match ai {
        Some(a) => classified_fields(c, a),
        None => Seq::empty(),
    };
    let info = match text_field(p.campos_personalizados@, "Info_1"@) {
        Some(s) => seq![(client_account_field_id(), FieldValueView::Text(s))],
        None => Seq::empty(),
    };
    from_ai + info
}

/// Appends a field.
fn push_field(fs: &mut Vec<CustomField>, id: String, value: CustomFieldValue)
    ensures
        field_views(final(fs)@) == field_views(old(fs)@).push((id@, value@)),
{
    let f = new_field(id, value);
    fs.push(f);
    assert(field_views(fs@) =~= field_views(old(fs)@).push(f@));
}

/// Appends a dropdown field when the option id is known.
fn push_dropdown(fs: &mut Vec<CustomField>, id: &str, option: Option<String>)
    ensures
        field_views(final(fs)@) == field_views(old(fs)@) + dropdown(id@, opt_view(option)),
{
    match option {
        Some(o) => {
            push_field(fs, owned(id), CustomFieldValue::DropdownOption(o));
            assert(field_views(fs@) =~= field_views(old(fs)@) + dropdown(id@, opt_view(option)));
        },
        None => {
            assert(field_views(fs@) =~= field_views(old(fs)@) + dropdown(id@, opt_view(option)));
        },
    }
}

/// Whether one of the fields has id `id`.
fn any_field_with_id(fs: &Vec<CustomField>, id: &str) -> (r: bool)
    ensures
        r == has_field(field_views(fs@), id@),
{
    let mut i: usize = 0;
    while i < fs.len()
        invariant
            i <= fs@.len(),
            forall|j: int| 0 <= j < i ==> #[trigger] field_views(fs@)[j].0 != id@,
        decreases fs@.len() - i,
    {
        if str_eq(fs[i].id.as_str(), id) {
            assert(field_views(fs@)[i as int].0 == id@);
            return true;
        }
        i = i + 1;
    }
    false
}

/// The id of the first activity type called `name`.
fn find_activity_type_id(ts: &Vec<ActivityType>, name: &str) -> (r: Option<String>)
    ensures
        opt_view(r) == activity_type_id(ts@, name@),
{
    let mut i: usize = 0;
    assert(ts@.skip(0) == ts@);
    while i < ts.len()
        invariant
            i <= ts@.len(),
            activity_type_id(ts@, name@) == activity_type_id(ts@.skip(i as int), name@),
        decreases ts@.len() - i,
    {
        assert(ts@.skip(i as int)[0] == ts@[i as int]);
        if str_eq(ts[i].name.as_str(), name) {
            return Some(ts[i].id.clone());
        }
        assert(ts@.skip(i as int).drop_first() == ts@.skip(i + 1));
        i = i + 1;
    }
    None
}

/// The option id of the classified subcategory.
fn subcategory_option_of(c: &AiPromptConfig, a: &ActivityClassification) -> (r: Option<String>)
    ensures
        opt_view(r) == subcategory_option(*c, *a),
{
    match &a.sub_categoria {
        Some(sub) => match &a.category {
            Some(cat) => c.get_subcategory_id(cat.as_str(), sub.as_str()),
            None => None,
        },
        None => None,
    }
}

/// The option id of the classified category.
fn category_option_of(c: &AiPromptConfig, a: &ActivityClassification) -> (r: Option<String>)
    ensures
        opt_view(r) == category_option(*c, *a),
{
    match &a.category {
        Some(cat) => c.get_category_id(cat.as_str()),
        None => None,
    }
}

/// The activity-type field id.
fn activity_field(c: &AiPromptConfig) -> (r: String)
    ensures
        r@ == activity_field_id(*c),
{
    match c.get_field_ids() {
        Some(ids) => ids.activity_type_field_id.clone(),
        None => owned("f1259ffb-7be8-49ff-92f8-5ff9882888d0"),
    }
}

/// The category field id.
fn category_field(c: &AiPromptConfig) -> (r: String)
    ensures
        r@ == category_field_id(*c),
{
    match c.get_field_ids() {
        Some(ids) => ids.category_field_id.clone(),
        None => owned("c19b4f95-1ff7-4966-b201-02905d33cec6"),
    }
}

/// The subcategory field id.
fn subcategory_field(c: &AiPromptConfig) -> (r: String)
    ensures
        r@ == subcategory_field_id(*c),
{
    match c.get_field_ids() {
        Some(ids) => ids.subcategory_field_id.clone(),
        None => owned("5333c095-eb40-4a5a-b0c2-76bfba4b1094"),
    }
}

/// The stars field id.
fn stars_field(c: &AiPromptConfig) -> (r: String)
    ensures
        r@ == stars_field_id(*c),
{
    match c.get_field_ids() {
        Some(ids) => ids.stars_field_id.clone(),
        None => owned("83afcb8c-2866-498f-9c62-8ea9666b104b"),
    }
}

/// The back-office status field id.
fn status_field(c: &AiPromptConfig) -> (r: String)
    ensures
        r@ == status_field_id(*c),
{
    match c.get_field_ids() {
        Some(ids) => ids.status_field_id.clone(),
        None => owned("6abbfe79-f80b-4b55-9b4b-9bd7f65b6458"),
    }
}

/// The fields of the classification, before the category fields are checked once more.
fn first_classified_fields(c: &AiPromptConfig, a: &ActivityClassification) -> (r: Vec<CustomField>)
    ensures
        field_views(r@) == classified_fields_first(*c, *a),
{
    let mut fs: Vec<CustomField> = Vec::new();
    assert(field_views(fs@) =~= Seq::empty());
    if let Some(t) = &a.tipo_atividade {
        let opt = find_activity_type_id(&c.activity_types, t.as_str());
        let fid = activity_field(c);
        push_dropdown(&mut fs, fid.as_str(), opt);
    }
    let ghost f1 = field_views(fs@);
    let cat = category_option_of(c, a);
    let cfid = category_field(c);
    push_dropdown(&mut fs, cfid.as_str(), cat);
    let ghost f2 = field_views(fs@);
    match subcategory_option_of(c, a) {
        Some(sid) => {
            let sfid = subcategory_field(c);
            push_field(&mut fs, sfid, CustomFieldValue::DropdownOption(sid));
            let stars = match &a.sub_categoria {
                Some(sub) => match &a.category {
                    Some(cat) => c.get_subcategory_stars(cat.as_str(), sub.as_str()),
                    None => None,
                },
                None => None,
            };
            assert(stars == subcategory_stars(*c, *a));
            if let Some(st) = stars {
                let stfid = stars_field(c);
                push_field(&mut fs, stfid, CustomFieldValue::Rating(st as i32));
            }
        },
        None => {},
    }
    assert(field_views(fs@) =~= classified_fields_first(*c, *a));
    fs
}

/// The custom fields that a classification gives.
fn fields_of_classification(c: &AiPromptConfig, a: &ActivityClassification) -> (r: Vec<CustomField>)
    ensures
        field_views(r@) == classified_fields(*c, *a),
{
    let mut fs = first_classified_fields(c, a);
    let ghost f0 = field_views(fs@);
    if let Some(ids) = c.get_field_ids() {
        if !any_field_with_id(&fs, ids.category_field_id.as_str()) {
            let cat = category_option_of(c, a);
            push_dropdown(&mut fs, ids.category_field_id.as_str(), cat);
        }
        if !any_field_with_id(&fs, ids.subcategory_field_id.as_str()) {
            let sub = subcategory_option_of(c, a);
            push_dropdown(&mut fs, ids.subcategory_field_id.as_str(), sub);
        }
    }
    assert(field_views(fs@) == with_category_fields(*c, *a, f0));
    let ghost f1 = field_views(fs@);
    if let Some(st) = &a.status_back_office {
        let sid = c.get_status_id(st.as_str());
        let fid = status_field(c);
        push_dropdown(&mut fs, fid.as_str(), sid);
    }
    assert(field_views(fs@) =~= classified_fields(*c, *a));
    fs
}

/// The custom fields of a ChatGuru task.
fn fields_of_task(p: &ChatGuruPayload, ai: Option<&ActivityClassification>, c: &AiPromptConfig) -> (r: Vec<CustomField>)
    ensures
        field_views(r@) == task_fields(*p, deref_opt(ai), *c),
{
    let mut fs = match ai {
        Some(a) => fields_of_classification(c, a),
        None => {
            let v: Vec<CustomField> = Vec::new();
            assert(field_views(v@) =~= Seq::empty());
            v
        },
    };
    let ghost f0 = field_views(fs@);
    if let Some(info) = text_member(&p.campos_personalizados, "Info_1") {
        push_field(&mut fs, owned("0cd1d510-1906-4484-ba66-06ccdd659768"), CustomFieldValue::Text(info));
    }
    assert(field_views(fs@) =~= task_fields(*p, deref_opt(ai), *c));
    fs
}

// ---------------------------------------------------------------------------------------
// The ChatGuru task with a classification

/// Name, client (`Info_1`) and phone appended to the description, each on a line of its
/// own, when present.
pub open spec fn contact_footer(p: ChatGuruPayload) -> Seq<char> {
    let name = if p.nome@.len() > 0 {
        "\nNome: "@ + p.nome@
    } else {
        Seq::empty()
    };
    let client = match text_field(p.campos_personalizados@, "Info_1"@) {
        Some(s) => "\nCliente: "@ + s,
        None => Seq::empty(),
    };
    let phone = if p.celular@.len() > 0 {
        "\nCelular: "@ + p.celular@
    } else {
        Seq::empty()
    };
    name + client + phone
}

/// The ClickUp task for a ChatGuru payload with an optional classification: no tags,
/// normal priority.
pub open spec fn classified_task(p: ChatGuruPayload, ai: Option<ActivityClassification>, c: AiPromptConfig) -> TaskView {
    TaskView {
        name: classified_task_name(p, ai),
        description: Some(trim(classified_description(p, ai)) + contact_footer(p)),
        tags: Some(Seq::empty()),
        priority: Some(TaskPriority::Normal),
        custom_fields: Some(task_fields(p, ai, c)),
    }
}

/// The prefix of the name of a task made from a test payload (an email starting with
/// `test_` or the campaign `test_campaign`), empty otherwise.
pub open spec fn test_prefix(p: ChatGuruPayload) -> Seq<char> {
    if starts_with(p.email@, "test_"@) || p.campanha_id@ == "test_campaign"@ {
        "[TESTE] "@
    } else {
        Seq::empty()
    }
}

/// When the classifier calls the message an activity only because it found keywords (its
/// reason starts with "Contém palavras-chave"), the task is named after the message itself,
/// cut to 77 characters and "..." when it is longer than 80 bytes, whatever the reason says.
pub proof fn law_keyword_activity_named_by_message(p: ChatGuruPayload, a: ActivityClassification, c: AiPromptConfig)
    requires
        a.is_activity,
        starts_with(a.reason@, "Contém palavras-chave"@),
    ensures
        classified_task(p, Some(a), c).name == test_prefix(p) + if utf8_len(p.texto_mensagem@) > 80 {
            truncated(p.texto_mensagem@, 77, "..."@)
        } else {
            p.texto_mensagem@
        },
{
    assert(Seq::<char>::empty() + activity_task_name(p, a) == activity_task_name(p, a));
}

/// A message that is not an activity is named after the contact.
pub proof fn law_non_activity_named_by_contact(p: ChatGuruPayload, a: ActivityClassification, c: AiPromptConfig)
    requires
        !a.is_activity,
    ensures
        classified_task(p, Some(a), c).name == test_prefix(p) + p.nome@,
{
    assert(Seq::<char>::empty() + p.nome@ == p.nome@);
}

/// Without a classification the task is named "[ChatGuru] " and the contact.
pub proof fn law_unclassified_named_by_contact(p: ChatGuruPayload, c: AiPromptConfig)
    ensures
        classified_task(p, None, c).name == test_prefix(p) + "[ChatGuru] "@ + p.nome@,
{
    assert(Seq::<char>::empty() + ("[ChatGuru] "@ + p.nome@) == "[ChatGuru] "@ + p.nome@);
    assert(("[TESTE] "@ + "[ChatGuru] "@) + p.nome@ == "[TESTE] "@ + ("[ChatGuru] "@ + p.nome@));
}

/// Name, client and phone lines of the description.
fn footer_of(p: &ChatGuruPayload) -> (r: String)
    ensures
        r@ == contact_footer(*p),
{
    let mut out = String::new();
    if !str_is_empty(p.nome.as_str()) {
        push_str(&mut out, "\nNome: ");
        push_str(&mut out, p.nome.as_str());
    }
    let ghost a = out@;
    if let Some(info) = text_member(&p.campos_personalizados, "Info_1") {
        push_str(&mut out, "\nCliente: ");
        push_str(&mut out, info.as_str());
    }
    let ghost b = out@;
    if !str_is_empty(p.celular.as_str()) {
        push_str(&mut out, "\nCelular: ");
        push_str(&mut out, p.celular.as_str());
    }
    assert(out@ =~= contact_footer(*p));
    out
}

/// A task with no tags and normal priority.
fn plain_task(name: String, description: String, fields: Option<Vec<CustomField>>) -> (r: CreateTaskRequest)
    ensures
        r@.name == name@,
        r@.description == Some(description@),
        r@.tags == Some(Seq::<Seq<char>>::empty()),
        r@.priority == Some(TaskPriority::Normal),
        r.custom_fields == fields,
{
    let tags: Vec<String> = Vec::new();
    assert(string_views(tags@) =~= Seq::empty());
    CreateTaskRequest {
        name,
        description: Some(description),
        tags: Some(tags),
        priority: Some(TaskPriority::Normal),
        custom_fields: fields,
    }
}

impl WebhookPayload {
    /// The ClickUp task for a ChatGuru payload, using the classification and the option ids
    /// of the configuration.
    pub fn chatguru_to_clickup_with_ai(
        &self,
        payload: &ChatGuruPayload,
        ai_classification: Option<&ActivityClassification>,
        prompt_config: &AiPromptConfig,
    ) -> (r: CreateTaskRequest)
        ensures
            r@ == classified_task(*payload, deref_opt(ai_classification), *prompt_config),
    {
        let description = describe_classified(payload, ai_classification);
        let task_name = name_classified(payload, ai_classification);
        let custom_fields = fields_of_task(payload, ai_classification, prompt_config);
        let footer = footer_of(payload);
        let mut final_description = str_trim(description.as_str());
        push_str(&mut final_description, footer.as_str());
        plain_task(task_name, final_description, Some(custom_fields))
    }
}

// ---------------------------------------------------------------------------------------
// Tasks without a classification

/// `- key: value` and a line break, the value as compact JSON.
pub open spec fn pair_line(kv: (String, JsonValue)) -> Seq<char> {
    "- "@ + kv.0@ + ": "@ + json_text(kv.1@) + "\n"@
}

/// One line per member, in order.
pub open spec fn pair_lines(m: Seq<(String, JsonValue)>) -> Seq<char> {
    concat(m.map_values(|kv: (String, JsonValue)| pair_line(kv)))
}

/// Appends one line per member.
fn push_pair_lines(out: &mut String, m: &Vec<(String, JsonValue)>)
    ensures
        final(out)@ == old(out)@ + pair_lines(m@),
{
    let ghost before = out@;
    let ghost lines = m@.map_values(|kv: (String, JsonValue)| pair_line(kv));
    let mut i: usize = 0;
    while i < m.len()
        invariant
            i <= m@.len(),
            lines == m@.map_values(|kv: (String, JsonValue)| pair_line(kv)),
            out@ == before + concat(lines.take(i as int)),
        decreases m@.len() - i,
    {
        push_str(out, "- ");
        push_str(out, m[i].0.as_str());
        push_str(out, ": ");
        m[i].1.write_json(out);
        push_str(out, "\n");
        proof {
            lemma_concat_step(lines, i as int);
            assert(lines[i as int] == pair_line(m@[i as int]));
        }
        i = i + 1;
        assert(out@ =~= before + concat(lines.take(i as int)));
    }
    proof {
        lemma_concat_all(lines);
    }
}

/// `v` when it is not empty, else `d`.
pub open spec fn or_else(v: Seq<char>, d: Seq<char>) -> Seq<char> {
    if v.len() > 0 {
        v
    } else {
        d
    }
}

/// The description of a ChatGuru task without classification, before it is trimmed.
pub open spec fn unclassified_description(p: ChatGuruPayload) -> Seq<char> {
    let message = if p.texto_mensagem@.len() > 0 {
        "\n**Mensagem**\n"@ + p.texto_mensagem@
    } else {
        Seq::empty()
    };
    "**Dados do Contato**\n\n"@ + "- Nome: "@ + p.nome@ + "\n"@ + "- Email: "@ + or_else(
        p.email@,
        p.celular@,
    ) + "\n"@ + "- Celular: "@ + p.celular@ + "\n"@ + "- Campanha: "@ + p.campanha_nome@
        + "\n"@ + "- Origem: "@ + or_else(p.origem@, "scheduler"@) + "\n"@ + message
        + media_section(p)
}

/// The requester (`Info_2`) and client account (`Info_1`) fields of a task without classification.
pub open spec fn unclassified_fields(p: ChatGuruPayload) -> Seq<(Seq<char>, FieldValueView)> {
    let requester = match text_field(p.campos_personalizados@, "Info_2"@) {
        Some(s) => seq![("bf24f5b1-e909-473e-b864-75bf22edf67e"@, FieldValueView::Text(s))],
        None => Seq::empty(),
    };
    let account = match text_field(p.campos_personalizados@, "Info_1"@) {
        Some(s) => seq![(client_account_field_id(), FieldValueView::Text(s))],
        None => Seq::empty(),
    };
    requester + account
}

/// The ClickUp task for a ChatGuru payload without classification: named after the contact.
pub open spec fn unclassified_task(p: ChatGuruPayload) -> TaskView {
    TaskView {
        name: p.nome@,
        description: Some(trim(unclassified_description(p))),
        tags: Some(Seq::empty()),
        priority: Some(TaskPriority::Normal),
        custom_fields: Some(unclassified_fields(p)),
    }
}

/// The title of an event task: its task title, its annotation, the event type and lead,
/// or the event type alone.
pub open spec fn event_title(p: EventTypePayload) -> Seq<char> {
    match p.data.task_title {
        Some(t) => t@,
        None => match p.data.annotation {
            Some(a) => a@,
            None => match p.data.lead_name {
                Some(l) => "["@ + p.event_type@ + "] "@ + l@,
                None => "Evento: "@ + p.event_type@,
            },
        },
    }
}

/// The description of an event task.
pub open spec fn event_description(p: EventTypePayload) -> Seq<char> {
    let d = p.data;
    let custom = if d.custom_data@.len() > 0 {
        "\n**Dados Customizados**\n"@ + pair_lines(d.custom_data@)
    } else {
        Seq::empty()
    };
    "**Tipo de Evento**: "@ + p.event_type@ + "\n**ID**: "@ + p.id@ + "\n**Timestamp**: "@
        + p.timestamp@ + "\n\n"@ + labeled_line("**Nome**: "@, d.lead_name) + labeled_line(
        "**Telefone**: "@,
        d.phone,
    ) + labeled_line("**Email**: "@, d.email) + labeled_line("**Projeto**: "@, d.project_name)
        + labeled_line("**Valor**: R$ "@, d.amount) + labeled_line("**Status**: "@, d.status)
        + custom
}

/// The tags of an event task.
pub open spec fn event_tags(event_type: Seq<char>) -> Seq<Seq<char>> {
    if event_type == "new_lead"@ {
        seq!["lead"@, "novo"@]
    } else if event_type == "payment_created"@ {
        seq!["pagamento"@, "criado"@]
    } else if event_type == "payment_completed"@ {
        seq!["pagamento"@, "concluído"@]
    } else {
        seq![event_type]
    }
}

/// The ClickUp task for an event payload.
pub open spec fn event_task(p: EventTypePayload) -> TaskView {
    TaskView {
        name: event_title(p),
        description: Some(event_description(p)),
        tags: Some(event_tags(p.event_type@)),
        priority: Some(TaskPriority::Normal),
        custom_fields: None,
    }
}

/// The optional string, or the default.
pub open spec fn or_default_text(o: Option<String>, d: Seq<char>) -> Seq<char> {
    match o {
        Some(s) => s@,
        None => d,
    }
}

/// The description of a generic task.
pub open spec fn generic_description(p: GenericPayload) -> Seq<char> {
    let message = match p.mensagem {
        Some(m) => "\n**Mensagem**\n"@ + m@ + "\n"@,
        None => Seq::empty(),
    };
    let extra = if p.extra@.len() > 0 {
        "\n**Dados Adicionais**\n"@ + pair_lines(p.extra@)
    } else {
        Seq::empty()
    };
    "**Dados do Contato**\n\n- Nome: "@ + or_default_text(p.nome, "Contato"@) + "\n- Celular: "@
        + or_default_text(p.celular, "Não informado"@) + "\n- Email: "@ + or_default_text(
        p.email,
        "Não informado"@,
    ) + "\n"@ + message + extra
}

/// The ClickUp task for a generic payload.
pub open spec fn generic_task(p: GenericPayload) -> TaskView {
    TaskView {
        name: "[Webhook] "@ + or_default_text(p.nome, "Contato"@),
        description: Some(generic_description(p)),
        tags: Some(seq!["webhook"@, "genérico"@]),
        priority: Some(TaskPriority::Normal),
        custom_fields: None,
    }
}

/// `o`, or `d` when there is none.
fn text_or(o: &Option<String>, d: &str) -> (r: String)
    ensures
        r@ == or_default_text(*o, d@),
{
    match o {
        Some(s) => s.clone(),
        None => owned(d),
    }
}

/// A task with the given tags, normal priority and no custom fields.
fn tagged_task(name: String, description: String, tags: Vec<String>) -> (r: CreateTaskRequest)
    ensures
        r@.name == name@,
        r@.description == Some(description@),
        r@.tags == Some(string_views(tags@)),
        r@.priority == Some(TaskPriority::Normal),
        r.custom_fields.is_none(),
{
    CreateTaskRequest {
        name,
        description: Some(description),
        tags: Some(tags),
        priority: Some(TaskPriority::Normal),
        custom_fields: None,
    }
}

impl WebhookPayload {
    /// The ClickUp task for a ChatGuru payload without classification.
    pub fn chatguru_to_clickup(&self, payload: &ChatGuruPayload) -> (r: CreateTaskRequest)
        ensures
            r@ == unclassified_task(*payload),
    {
        let p = payload;
        let mut d = owned("**Dados do Contato**\n\n");
        push_str(&mut d, "- Nome: ");
        push_str(&mut d, p.nome.as_str());
        push_str(&mut d, "\n");
        push_str(&mut d, "- Email: ");
        if !str_is_empty(p.email.as_str()) {
            push_str(&mut d, p.email.as_str());
        } else {
            push_str(&mut d, p.celular.as_str());
        }
        push_str(&mut d, "\n");
        push_str(&mut d, "- Celular: ");
        push_str(&mut d, p.celular.as_str());
        push_str(&mut d, "\n");
        push_str(&mut d, "- Campanha: ");
        push_str(&mut d, p.campanha_nome.as_str());
        push_str(&mut d, "\n");
        push_str(&mut d, "- Origem: ");
        if !str_is_empty(p.origem.as_str()) {
            push_str(&mut d, p.origem.as_str());
        } else {
            push_str(&mut d, "scheduler");
        }
        push_str(&mut d, "\n");
        let ghost head = d@;
        if !str_is_empty(p.texto_mensagem.as_str()) {
            push_str(&mut d, "\n**Mensagem**\n");
            push_str(&mut d, p.texto_mensagem.as_str());
        }
        let ghost with_message = d@;
        push_media_section(&mut d, p);
        assert(d@ =~= unclassified_description(*p));
        let mut fs: Vec<CustomField> = Vec::new();
        assert(field_views(fs@) =~= Seq::empty());
        if let Some(info2) = text_member(&p.campos_personalizados, "Info_2") {
            push_field(&mut fs, owned("bf24f5b1-e909-473e-b864-75bf22edf67e"), CustomFieldValue::Text(info2));
        }
        let ghost f1 = field_views(fs@);
        if let Some(info1) = text_member(&p.campos_personalizados, "Info_1") {
            push_field(&mut fs, owned("0cd1d510-1906-4484-ba66-06ccdd659768"), CustomFieldValue::Text(info1));
        }
        assert(field_views(fs@) =~= unclassified_fields(*p));
        let desc = str_trim(d.as_str());
        plain_task(p.nome.clone(), desc, Some(fs))
    }

    /// The ClickUp task for an event payload.
    pub fn eventtype_to_clickup(&self, payload: &EventTypePayload) -> (r: CreateTaskRequest)
        ensures
            r@ == event_task(*payload),
    {
        let p = payload;
        let data = &p.data;
        let title = match &data.task_title {
            Some(t) => t.clone(),
            None => match &data.annotation {
                Some(a) => a.clone(),
                None => match &data.lead_name {
                    Some(l) => {
                        let mut t = owned("[");
                        push_str(&mut t, p.event_type.as_str());
                        push_str(&mut t, "] ");
                        push_str(&mut t, l.as_str());
                        t
                    },
                    None => {
                        let mut t = owned("Evento: ");
                        push_str(&mut t, p.event_type.as_str());
                        t
                    },
                },
            },
        };
        let mut d = owned("**Tipo de Evento**: ");
        push_str(&mut d, p.event_type.as_str());
        push_str(&mut d, "\n**ID**: ");
        push_str(&mut d, p.id.as_str());
        push_str(&mut d, "\n**Timestamp**: ");
        push_str(&mut d, p.timestamp.as_str());
        push_str(&mut d, "\n\n");
        push_labeled_line(&mut d, "**Nome**: ", &data.lead_name);
        push_labeled_line(&mut d, "**Telefone**: ", &data.phone);
        push_labeled_line(&mut d, "**Email**: ", &data.email);
        push_labeled_line(&mut d, "**Projeto**: ", &data.project_name);
        push_labeled_line(&mut d, "**Valor**: R$ ", &data.amount);
        push_labeled_line(&mut d, "**Status**: ", &data.status);
        let ghost before_custom = d@;
        if data.custom_data.len() > 0 {
            push_str(&mut d, "\n**Dados Customizados**\n");
            push_pair_lines(&mut d, &data.custom_data);
        }
        assert(d@ =~= event_description(*p));
        let et = p.event_type.as_str();
        let tags = if str_eq(et, "new_lead") {
            vec![owned("lead"), owned("novo")]
        } else if str_eq(et, "payment_created") {
            vec![owned("pagamento"), owned("criado")]
        } else if str_eq(et, "payment_completed") {
            vec![owned("pagamento"), owned("concluído")]
        } else {
            vec![p.event_type.clone()]
        };
        assert(string_views(tags@) =~= event_tags(p.event_type@));
        tagged_task(title, d, tags)
    }

    /// The ClickUp task for a generic payload.
    pub fn generic_to_clickup(&self, payload: &GenericPayload) -> (r: CreateTaskRequest)
        ensures
            r@ == generic_task(*payload),
    {
        let p = payload;
        let nome = text_or(&p.nome, "Contato");
        let celular = text_or(&p.celular, "Não informado");
        let email = text_or(&p.email, "Não informado");
        let mut d = owned("**Dados do Contato**\n\n- Nome: ");
        push_str(&mut d, nome.as_str());
        push_str(&mut d, "\n- Celular: ");
        push_str(&mut d, celular.as_str());
        push_str(&mut d, "\n- Email: ");
        push_str(&mut d, email.as_str());
        push_str(&mut d, "\n");
        let ghost head = d@;
        if let Some(m) = &p.mensagem {
            push_str(&mut d, "\n**Mensagem**\n");
            push_str(&mut d, m.as_str());
            push_str(&mut d, "\n");
        }
        let ghost with_message = d@;
        if p.extra.len() > 0 {
            push_str(&mut d, "\n**Dados Adicionais**\n");
            push_pair_lines(&mut d, &p.extra);
        }
        assert(d@ =~= generic_description(*p));
        let mut name = owned("[Webhook] ");
        push_str(&mut name, nome.as_str());
        let tags = vec![owned("webhook"), owned("genérico")];
        assert(string_views(tags@) =~= seq!["webhook"@, "genérico"@]);
        tagged_task(name, d, tags)
    }

    /// The ClickUp task for any payload.
    pub fn to_clickup_task_data(&self) -> (r: CreateTaskRequest)
        ensures
            r@ == match self {
                WebhookPayload::ChatGuru(p) => unclassified_task(*p),
                WebhookPayload::EventType(p) => event_task(*p),
                WebhookPayload::Generic(p) => generic_task(*p),
            },
    {
        match self {
            WebhookPayload::ChatGuru(p) => self.chatguru_to_clickup(p),
            WebhookPayload::EventType(p) => self.eventtype_to_clickup(p),
            WebhookPayload::Generic(p) => self.generic_to_clickup(p),
        }
    }

    /// The ClickUp task for any payload, a ChatGuru one made with the classification.
    pub fn to_clickup_task_data_with_ai(
        &self,
        ai_classification: Option<&ActivityClassification>,
        prompt_config: &AiPromptConfig,
    ) -> (r: CreateTaskRequest)
        ensures
            r@ == match self {
                WebhookPayload::ChatGuru(p) => classified_task(*p, deref_opt(ai_classification), *prompt_config),
                WebhookPayload::EventType(p) => event_task(*p),
                WebhookPayload::Generic(p) => generic_task(*p),
            },
    {
        match self {
            WebhookPayload::ChatGuru(p) => self.chatguru_to_clickup_with_ai(p, ai_classification, prompt_config),
            WebhookPayload::EventType(p) => self.eventtype_to_clickup(p),
            WebhookPayload::Generic(p) => self.generic_to_clickup(p),
        }
    }
}

} // verus!
