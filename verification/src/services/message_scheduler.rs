//! Messages grouped per contact and handled at a fixed interval.
//!
//! Times are seconds since the Unix epoch. The scheduler's loop, the classifier and
//! ClickUp are awaited by the caller; which conversations are due, what is sent where, and
//! how the queue changes are here.

use vstd::prelude::*;
use crate::config::settings::{ChatGuruSettings, Settings};
use crate::keyed::{keys, lemma_lookup_first, lookup, map_position};
use crate::models::payload::{ChatGuruPayload, WebhookPayload};
use crate::text::{clone_opt, owned, push_str};

verus! {

/// A message waiting in a conversation.
#[derive(Debug, Clone)]
pub struct QueuedMessage {
    pub chat_id: String,
    pub phone: String,
    pub nome: String,
    pub message: String,
    pub annotation: Option<String>,
    /// When it arrived.
    pub timestamp: i64,
    pub processed: bool,
}

/// The messages of one contact.
#[derive(Debug, Clone)]
pub struct ConversationState {
    pub chat_id: String,
    pub phone: String,
    pub nome: String,
    pub messages: Vec<QueuedMessage>,
    /// When the conversation was last handled.
    pub last_processed: i64,
    pub active: bool,
}

/// The conversations by chat id, in the order in which they started.
#[derive(Debug)]
pub struct MessageScheduler {
    pub conversations: Vec<(String, ConversationState)>,
    /// Seconds between two handlings of a conversation.
    pub interval_seconds: u64,
}

/// Chat id, phone, name and text of the message of a payload: a ChatGuru payload is
/// grouped by its chat (its phone when it has none), an event by `event_` and its id, a
/// generic payload by `generic_` and its phone.
pub open spec fn message_identity(p: WebhookPayload) -> (Seq<char>, Seq<char>, Seq<char>, Seq<char>) {
    match p {
        WebhookPayload::ChatGuru(c) => (
            match c.chat_id {
                Some(id) => id@,
                None => c.celular@,
            },
            c.celular@,
            c.nome@,
            c.texto_mensagem@,
        ),
        WebhookPayload::EventType(e) => {
            let phone = match e.data.phone {
                Some(ph) => ph@,
                None => Seq::empty(),
            };
            (
                "event_"@ + e.id@,
                phone,
                match e.data.lead_name {
                    Some(n) => n@,
                    None => Seq::empty(),
                },
                match e.data.annotation {
                    Some(a) => a@,
                    None => Seq::empty(),
                },
            )
        },
        WebhookPayload::Generic(g) => {
            let phone = match g.celular {
                Some(ph) => ph@,
                None => Seq::empty(),
            };
            (
                "generic_"@ + phone,
                phone,
                match g.nome {
                    Some(n) => n@,
                    None => Seq::empty(),
                },
                match g.mensagem {
                    Some(m) => m@,
                    None => Seq::empty(),
                },
            )
        },
    }
}

/// The optional text, or an empty string.
fn text_or_empty(o: &Option<String>) -> (r: String)
    ensures
        r@ == match *o {
            Some(s) => s@,
            None => Seq::<char>::empty(),
        },
{
    match o {
        Some(s) => s.clone(),
        None => String::new(),
    }
}

/// Chat id, phone, name and text of the message of a payload.
pub fn queued_identity(p: &WebhookPayload) -> (r: (String, String, String, String))
    ensures
        (r.0@, r.1@, r.2@, r.3@) == message_identity(*p),
{
    match p {
        WebhookPayload::ChatGuru(c) => {
            let chat = match &c.chat_id {
                Some(id) => id.clone(),
                None => c.celular.clone(),
            };
            (chat, c.celular.clone(), c.nome.clone(), c.texto_mensagem.clone())
        },
        WebhookPayload::EventType(e) => {
            let phone = text_or_empty(&e.data.phone);
            let mut chat = owned("event_");
            push_str(&mut chat, e.id.as_str());
            (chat, phone, text_or_empty(&e.data.lead_name), text_or_empty(&e.data.annotation))
        },
        WebhookPayload::Generic(g) => {
            let phone = text_or_empty(&g.celular);
            let mut chat = owned("generic_");
            push_str(&mut chat, phone.as_str());
            (chat, phone, text_or_empty(&g.nome), text_or_empty(&g.mensagem))
        },
    }
}

/// Whether no two conversations share a chat id.
pub open spec fn unique_chats(c: Seq<(String, ConversationState)>) -> bool {
    forall|i: int, j: int| 0 <= i < j < c.len() ==> #[trigger] c[i].0@ != #[trigger] c[j].0@
}

/// Number of messages not yet handled.
pub open spec fn pending_count(ms: Seq<QueuedMessage>) -> nat
    decreases ms.len(),
{
    if ms.len() == 0 {
        0
    } else {
        pending_count(ms.drop_last()) + if ms.last().processed {
            0nat
        } else {
            1nat
        }
    }
}

/// The status of the conversations: `name (chat id)` and the count of messages not yet
/// handled, for each conversation with some, in order.
pub open spec fn status_entries(m: Seq<(String, ConversationState)>) -> Seq<(Seq<char>, nat)>
    decreases m.len(),
{
    if m.len() == 0 {
        Seq::empty()
    } else {
        let prior = status_entries(m.drop_last());
        let c = m.last().1;
        if pending_count(c.messages@) > 0 {
            prior.push((c.nome@ + " ("@ + m.last().0@ + ")"@, pending_count(c.messages@)))
        } else {
            prior
        }
    }
}

/// Whether a conversation is due at `now`: it is active, has messages, and the interval
/// has passed since it was last handled.
pub open spec fn is_due(c: ConversationState, interval: u64, now: i64) -> bool {
    c.active && c.messages@.len() > 0 && now - c.last_processed >= interval
}

/// Whether a handled message is still kept at `now`: for five minutes after it arrived.
pub open spec fn kept_after_handling(m: QueuedMessage, now: i64) -> bool {
    now - m.timestamp < 300
}

/// The messages kept after handling a conversation at `now`, in order.
pub open spec fn kept_messages(ms: Seq<QueuedMessage>, now: i64) -> Seq<QueuedMessage>
    decreases ms.len(),
{
    if ms.len() == 0 {
        ms
    } else if kept_after_handling(ms.last(), now) {
        kept_messages(ms.drop_last(), now).push(QueuedMessage { processed: true, ..ms.last() })
    } else {
        kept_messages(ms.drop_last(), now)
    }
}

impl MessageScheduler {
    /// No conversation, handled every `interval_seconds`.
    pub fn new(interval_seconds: u64) -> (r: Self)
        ensures
            r.conversations@ == Seq::<(String, ConversationState)>::empty(),
            r.interval_seconds == interval_seconds,
    {
        MessageScheduler { conversations: Vec::new(), interval_seconds }
    }

    /// Adds the message of a payload, received at `now`, to the conversation of its chat;
    /// a new chat starts an active conversation handled from `now`.
    pub fn queue_message_at(&mut self, payload: &WebhookPayload, annotation: Option<String>, now: i64)
        ensures
            unique_chats(old(self).conversations@) ==> unique_chats(final(self).conversations@),
            final(self).interval_seconds == old(self).interval_seconds,
            ({
                let (chat, phone, nome, text) = message_identity(*payload);
                match lookup(old(self).conversations@, chat) {
                    Some(c) => {
                        &&& final(self).conversations@.len() == old(self).conversations@.len()
                        &&& lookup(final(self).conversations@, chat) matches Some(c2)
                        &&& c2.messages@.drop_last() == c.messages@
                        &&& c2.messages@.last().message@ == text
                        &&& !c2.messages@.last().processed
                        &&& c2.messages@.last().timestamp == now
                        &&& c2.active == c.active && c2.last_processed == c.last_processed
                    },
                    None => {
                        &&& final(self).conversations@.len() == old(self).conversations@.len() + 1
                        &&& final(self).conversations@.drop_last() == old(self).conversations@
                        &&& final(self).conversations@.last().0@ == chat
                        &&& final(self).conversations@.last().1.messages@.len() == 1
                        &&& final(self).conversations@.last().1.messages@[0].message@ == text
                        &&& final(self).conversations@.last().1.active
                        &&& final(self).conversations@.last().1.last_processed == now
                        &&& final(self).conversations@.last().1.nome@ == nome
                        &&& final(self).conversations@.last().1.phone@ == phone
                    },
                }
            }),
    {
        let (chat_id, phone, nome, message) = queued_identity(payload);
        let qm = QueuedMessage {
            chat_id: chat_id.clone(),
            phone: phone.clone(),
            nome: nome.clone(),
            message,
            annotation,
            timestamp: now,
            processed: false,
        };
        match map_position(&self.conversations, chat_id.as_str()) {
            Some(i) => {
                let ghost before = self.conversations@;
                let (k, mut conv) = self.conversations.remove(i);
                conv.messages.push(qm);
                self.conversations.insert(i, (k, conv));
                proof {
                    if unique_chats(before) {
                        assert forall|a: int, b: int| 0 <= a < b < self.conversations@.len() implies
                            #[trigger] self.conversations@[a].0@ != #[trigger] self.conversations@[b].0@ by {
                            assert(self.conversations@[a].0 == before[a].0);
                            assert(self.conversations@[b].0 == before[b].0);
                        }
                    }
                    assert(self.conversations@.skip(0) == self.conversations@);
                    assert forall|j: int| 0 <= j < i implies self.conversations@[j].0@ != self.conversations@[i as int].0@ by {
                        assert(self.conversations@[j].0 == before[j].0);
                    }
                    lemma_lookup_first(self.conversations@, i as int);
                    lemma_lookup_first(before, i as int);
                }
            },
            None => {
                let conv = ConversationState {
                    chat_id: chat_id.clone(),
                    phone,
                    nome,
                    messages: vec![qm],
                    last_processed: now,
                    active: true,
                };
                let ghost before = self.conversations@;
                self.conversations.push((chat_id, conv));
                proof {
                    lemma_absent_key_not_equal(before, chat_id@);
                    if unique_chats(before) {
                        assert forall|a: int, b: int| 0 <= a < b < self.conversations@.len() implies
                            #[trigger] self.conversations@[a].0@ != #[trigger] self.conversations@[b].0@ by {
                            if b == before.len() {
                                assert(before[a].0@ != chat_id@);
                            }
                        }
                    }
                    assert(self.conversations@.drop_last() == before);
                }
            },
        }
    }

    /// The indices of the conversations due at `now`, in order.
    pub fn due_conversations(&self, now: i64) -> (r: Vec<usize>)
        ensures
            forall|k: int| 0 <= k < r@.len() ==> (#[trigger] r@[k]) < self.conversations@.len()
                && is_due(self.conversations@[r@[k] as int].1, self.interval_seconds, now),
            forall|i: int| 0 <= i < self.conversations@.len() && is_due(#[trigger] self.conversations@[i].1, self.interval_seconds, now)
                ==> r@.contains(i as usize),
            forall|a: int, b: int| 0 <= a < b < r@.len() ==> r@[a] < r@[b],
    {
        let mut r: Vec<usize> = Vec::new();
        let mut i: usize = 0;
        while i < self.conversations.len()
            invariant
                i <= self.conversations@.len(),
                forall|k: int| 0 <= k < r@.len() ==> (#[trigger] r@[k]) < i
                    && is_due(self.conversations@[r@[k] as int].1, self.interval_seconds, now),
                forall|j: int| 0 <= j < i && is_due(#[trigger] self.conversations@[j].1, self.interval_seconds, now)
                    ==> r@.contains(j as usize),
                forall|a: int, b: int| 0 <= a < b < r@.len() ==> r@[a] < r@[b],
            decreases self.conversations@.len() - i,
        {
            let c = &self.conversations[i].1;
            let due = c.active && c.messages.len() > 0 && (now as i128 - c.last_processed as i128)
                >= self.interval_seconds as i128;
            if due {
                let ghost r0 = r@;
                r.push(i);
                assert(r@.last() == i);
                assert forall|j: int| 0 <= j < i + 1 && is_due(#[trigger] self.conversations@[j].1, self.interval_seconds, now)
                    implies r@.contains(j as usize) by {
                    if j < i {
                        let k = choose|k: int| 0 <= k < r0.len() && r0[k] == j as usize;
                        assert(r@[k] == j as usize);
                    } else {
                        assert(r@[r@.len() - 1] == j as usize);
                    }
                }
            }
            i = i + 1;
        }
        r
    }

    /// Records that the conversation at `index` was handled at `now`: its messages are
    /// marked handled, those older than five minutes are dropped, and a conversation left
    /// with none turns inactive.
    pub fn finish_conversation_at(&mut self, index: usize, now: i64)
        requires
            index < old(self).conversations@.len(),
        ensures
            final(self).interval_seconds == old(self).interval_seconds,
            final(self).conversations@.len() == old(self).conversations@.len(),
            forall|j: int| 0 <= j < old(self).conversations@.len() && j != index ==> final(self).conversations@[j]
                == old(self).conversations@[j],
            final(self).conversations@[index as int].0 == old(self).conversations@[index as int].0,
            ({
                let c = old(self).conversations@[index as int].1;
                let c2 = final(self).conversations@[index as int].1;
                &&& c2.last_processed == now
                &&& c2.messages@ == kept_messages(c.messages@, now)
                &&& c2.active == (c.active && kept_messages(c.messages@, now).len() > 0)
                &&& c2.chat_id == c.chat_id && c2.nome == c.nome && c2.phone == c.phone
            }),
    {
        let (k, conv) = self.conversations.remove(index);
        let ghost old_msgs = conv.messages@;
        let mut kept: Vec<QueuedMessage> = Vec::new();
        let mut i: usize = 0;
        while i < conv.messages.len()
            invariant
                i <= old_msgs.len(),
                conv.messages@ == old_msgs,
                kept@ == kept_messages(old_msgs.take(i as int), now),
            decreases old_msgs.len() - i,
        {
            let m = &conv.messages[i];
            let ghost pre = old_msgs.take(i + 1);
            assert(pre.drop_last() == old_msgs.take(i as int));
            assert(pre.last() == old_msgs[i as int]);
            if (now as i128 - m.timestamp as i128) < 300 {
                let copy = QueuedMessage {
                    chat_id: m.chat_id.clone(),
                    phone: m.phone.clone(),
                    nome: m.nome.clone(),
                    message: m.message.clone(),
                    annotation: clone_opt(&m.annotation),
                    timestamp: m.timestamp,
                    processed: true,
                };
                kept.push(copy);
            }
            i = i + 1;
        }
        assert(old_msgs.take(old_msgs.len() as int) == old_msgs);
        let active = conv.active && kept.len() > 0;
        let updated = ConversationState {
            chat_id: conv.chat_id,
            phone: conv.phone,
            nome: conv.nome,
            messages: kept,
            last_processed: now,
            active,
        };
        self.conversations.insert(index, (k, updated));
    }

    /// `name (chat id)` and the number of messages not yet handled, for each conversation
    /// with some, in the order of the conversations.
    pub fn get_status(&self) -> (r: Vec<(String, usize)>)
        ensures
            r@.map_values(|p: (String, usize)| (p.0@, p.1 as nat)) == status_entries(self.conversations@),
    {
        let mut r: Vec<(String, usize)> = Vec::new();
        let mut i: usize = 0;
        while i < self.conversations.len()
            invariant
                i <= self.conversations@.len(),
                r@.map_values(|p: (String, usize)| (p.0@, p.1 as nat)) == status_entries(self.conversations@.take(i as int)),
            decreases self.conversations@.len() - i,
        {
            let ghost pre = self.conversations@.take(i + 1);
            assert(pre.drop_last() == self.conversations@.take(i as int));
            let c = &self.conversations[i].1;
            let mut pending: usize = 0;
            let mut j: usize = 0;
            while j < c.messages.len()
                invariant
                    j <= c.messages@.len(),
                    pending as nat == pending_count(c.messages@.take(j as int)),
                    pending <= j,
                decreases c.messages@.len() - j,
            {
                assert(c.messages@.take(j + 1).drop_last() == c.messages@.take(j as int));
                if !c.messages[j].processed {
                    pending = pending + 1;
                }
                j = j + 1;
            }
            assert(c.messages@.take(j as int) == c.messages@);
            let ghost before = r@;
            if pending > 0 {
                let mut label = c.nome.clone();
                push_str(&mut label, " (");
                push_str(&mut label, self.conversations[i].0.as_str());
                push_str(&mut label, ")");
                r.push((label, pending));
                assert(r@.map_values(|p: (String, usize)| (p.0@, p.1 as nat)) =~= before.map_values(|p: (String, usize)| (p.0@, p.1 as nat)).push(
                    (c.nome@ + " ("@ + self.conversations@[i as int].0@ + ")"@, pending as nat)));
            }
            i = i + 1;
        }
        assert(self.conversations@.take(i as int) == self.conversations@);
        r
    }
}

/// A conversation whose last message was just queued has a message waiting.
pub proof fn lemma_queued_message_pending(ms: Seq<QueuedMessage>)
    requires
        ms.len() > 0,
        !ms.last().processed,
    ensures
        pending_count(ms) >= 1,
{
}

/// Once a conversation is handled, none of the messages it keeps is waiting.
pub proof fn lemma_handled_conversation_has_none_pending(ms: Seq<QueuedMessage>, now: i64)
    ensures
        pending_count(kept_messages(ms, now)) == 0,
    decreases ms.len(),
{
    if ms.len() > 0 {
        lemma_handled_conversation_has_none_pending(ms.drop_last(), now);
        if kept_after_handling(ms.last(), now) {
            let k = kept_messages(ms.drop_last(), now).push(QueuedMessage { processed: true, ..ms.last() });
            assert(k.drop_last() == kept_messages(ms.drop_last(), now));
        }
    }
}

/// A key that a lookup does not find is no key of the map.
proof fn lemma_absent_key_not_equal(m: Seq<(String, ConversationState)>, k: Seq<char>)
    requires
        lookup(m, k).is_none(),
    ensures
        forall|i: int| 0 <= i < m.len() ==> (#[trigger] m[i]).0@ != k,
    decreases m.len(),
{
    if m.len() > 0 {
        lemma_absent_key_not_equal(m.drop_first(), k);
        assert forall|i: int| 0 <= i < m.len() implies (#[trigger] m[i]).0@ != k by {
            if i > 0 {
                assert(m.drop_first()[i - 1] == m[i]);
            }
        }
    }
}

// ---------------------------------------------------------------------------------------
// What is sent for a message

/// The phone id of the account on ChatGuru.
pub const SCHEDULER_PHONE_ID: &'static str = "62558780e2923cc4705beee1";

/// Whether `r` is the payload that the message of the conversation becomes: named after the
/// contact, from the "ChatGuru" campaign, with the scheduler as origin, and nothing else.
pub open spec fn scheduler_payload_of(r: ChatGuruPayload, conv: ConversationState, message: QueuedMessage) -> bool {
    &&& r.campanha_nome@ == "ChatGuru"@
    &&& r.origem@ == "scheduler"@
    &&& r.email == conv.phone
    &&& r.celular == conv.phone
    &&& r.nome == conv.nome
    &&& r.texto_mensagem == message.message
    &&& r.chat_id == Some(conv.chat_id)
    &&& r.campanha_id@.len() == 0
    &&& r.link_chat@.len() == 0
    &&& r.tags@.len() == 0
    &&& r.campos_personalizados@.len() == 0
    &&& r.media_url.is_none() && r.media_type.is_none()
    &&& r.tipo_mensagem.is_none() && r.url_arquivo.is_none()
    &&& r.bot_context.is_none() && r.responsavel_nome.is_none() && r.responsavel_email.is_none()
    &&& r.chat_created.is_none() && r._batch_chat_id.is_none() && r._batch_size.is_none()
    &&& r._is_synthetic.is_none() && r._original_media_type.is_none()
    &&& r.phone_id matches Some(id) && id@ == SCHEDULER_PHONE_ID@
}

/// The payload that a queued message becomes when it is turned into a task: named after the
/// contact, from the "ChatGuru" campaign, with the scheduler as origin.
pub fn scheduler_task_payload(conv: &ConversationState, message: &QueuedMessage) -> (r: ChatGuruPayload)
    ensures
        scheduler_payload_of(r, *conv, *message),
{
    ChatGuruPayload {
        campanha_id: String::new(),
        campanha_nome: owned("ChatGuru"),
        origem: owned("scheduler"),
        email: conv.phone.clone(),
        nome: conv.nome.clone(),
        tags: Vec::new(),
        texto_mensagem: message.message.clone(),
        media_url: None,
        media_type: None,
        tipo_mensagem: None,
        url_arquivo: None,
        campos_personalizados: Vec::new(),
        bot_context: None,
        responsavel_nome: None,
        responsavel_email: None,
        link_chat: String::new(),
        celular: conv.phone.clone(),
        phone_id: Some(owned(SCHEDULER_PHONE_ID)),
        chat_id: Some(conv.chat_id.clone()),
        chat_created: None,
        _batch_chat_id: None,
        _batch_size: None,
        _is_synthetic: None,
        _original_media_type: None,
    }
}

/// Where the confirmation of a created task goes: the API token, the endpoint and the
/// account, with the defaults for the last two; nothing without a token.
pub fn confirmation_target(c: &ChatGuruSettings) -> (r: Option<(String, String, String)>)
    ensures
        c.api_token.is_none() ==> r.is_none(),
        c.api_token matches Some(t) ==> r matches Some((rt, endpoint, account)) && rt == t
            && endpoint@ == match c.api_endpoint {
                Some(e) => e@,
                None => "https://s15.chatguru.app"@,
            } && account@ == match c.account_id {
                Some(a) => a@,
                None => "625584ce6fdcb7bda7d94aa8"@,
            },
{
    match &c.api_token {
        Some(t) => {
            let endpoint = match &c.api_endpoint {
                Some(e) => e.clone(),
                None => owned("https://s15.chatguru.app"),
            };
            let account = match &c.account_id {
                Some(a) => a.clone(),
                None => owned("625584ce6fdcb7bda7d94aa8"),
            };
            Some((t.clone(), endpoint, account))
        },
        None => None,
    }
}

/// Whether messages are classified: the AI settings are there and enabled.
pub fn classification_enabled(s: &Settings) -> (r: bool)
    ensures
        r == (s.ai matches Some(a) && a.enabled),
{
    match &s.ai {
        Some(a) => a.enabled,
        None => false,
    }
}

// ---------------------------------------------------------------------------------------
// The steps for one message

/// What the scheduler has learnt about the message it is handling.
#[derive(Debug)]
pub enum MessageEvent {
    /// The message is next in its conversation.
    Start,
    /// The classifier's verdict on the message: whether it is an activity, or nothing when
    /// the classifier could not be built or failed.
    Classified(Option<bool>),
    /// Whether the task was created.
    Created(bool),
}

/// What the scheduler does next for the message.
#[derive(Debug)]
pub enum MessageAction {
    /// Classify the message.
    Classify,
    /// Create the task from this payload.
    CreateTask(ChatGuruPayload),
    /// Send `text` to `phone` from the account's phone id, with the API token, the endpoint
    /// and the account of the target.
    Confirm { target: (String, String, String), phone: String, phone_id: String, text: String },
    /// Nothing more for this message.
    Done,
}

/// The next step for a message of a conversation: a message already processed, or one
/// seen without ClickUp or with classification switched off, needs nothing; a message is
/// classified, a task is created from it exactly when the classifier says it is an
/// activity, and "Ok ✅" is confirmed to the contact only after the task was created and
/// only when ChatGuru has an API token.
pub fn message_step(
    settings: &Settings,
    clickup_available: bool,
    conv: &ConversationState,
    message: &QueuedMessage,
    event: MessageEvent,
) -> (r: MessageAction)
    ensures
        match event {
            MessageEvent::Start => if !message.processed && clickup_available && (settings.ai matches Some(a)
                && a.enabled) {
                r is Classify
            } else {
                r is Done
            },
            MessageEvent::Classified(Some(true)) => r matches MessageAction::CreateTask(p)
                && scheduler_payload_of(p, *conv, *message),
            MessageEvent::Classified(_) => r is Done,
            MessageEvent::Created(true) => match settings.chatguru.api_token {
                Some(t) => r matches MessageAction::Confirm { target, phone, phone_id, text } && target.0 == t
                    && target.1@ == match settings.chatguru.api_endpoint {
                        Some(e) => e@,
                        None => "https://s15.chatguru.app"@,
                    } && target.2@ == match settings.chatguru.account_id {
                        Some(a) => a@,
                        None => "625584ce6fdcb7bda7d94aa8"@,
                    } && phone == conv.phone && phone_id@ == SCHEDULER_PHONE_ID@ && text@ == "Ok ✅"@,
                None => r is Done,
            },
            MessageEvent::Created(false) => r is Done,
        },
{
    match event {
        MessageEvent::Start => if !message.processed && clickup_available && classification_enabled(settings) {
            MessageAction::Classify
        } else {
            MessageAction::Done
        },
        MessageEvent::Classified(Some(true)) => MessageAction::CreateTask(scheduler_task_payload(conv, message)),
        MessageEvent::Classified(_) => MessageAction::Done,
        MessageEvent::Created(true) => match confirmation_target(&settings.chatguru) {
            Some(target) => MessageAction::Confirm {
                target,
                phone: conv.phone.clone(),
                phone_id: owned(SCHEDULER_PHONE_ID),
                text: owned("Ok ✅"),
            },
            None => MessageAction::Done,
        },
        MessageEvent::Created(false) => MessageAction::Done,
    }
}

} // verus!
