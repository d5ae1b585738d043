//! Following each contact's conversation to tell a new request from a change to the last
//! one.
//!
//! Times are seconds since the Unix epoch. Comparing messages by embeddings, which are
//! floating-point vectors, is left to the caller; the decisions by words and patterns are
//! here.

use vstd::prelude::*;
use crate::keyed::{lemma_lookup_first, lemma_lookup_none, lemma_update_first_at, lookup, map_position, unique_keys, update_first};
use crate::text::{
    byte_len, chars_of, contains, is_whitespace, is_ws, joined, lowercase, owned, push_str, str_contains,
    string_of, to_lowercase, utf8_len,
};

verus! {

/// What to do with a conversation's latest message.
#[derive(Debug, Clone)]
pub enum TaskAction {
    /// Create a task.
    CreateNew,
    /// Update a task with the changes.
    UpdateExisting { task_id: String, changes: Vec<String> },
    /// Nothing.
    NoAction,
}

/// A message of a conversation.
#[derive(Debug, Clone)]
pub struct MessageRecord {
    pub timestamp: i64,
    pub content: String,
    pub was_activity: bool,
}

/// The history of a contact.
#[derive(Debug, Clone)]
pub struct ConversationHistory {
    pub phone: String,
    pub last_task_id: Option<String>,
    pub last_task_title: Option<String>,
    /// At most the last 20 messages.
    pub messages: Vec<MessageRecord>,
    pub last_activity: i64,
    pub revision_count: u32,
}

/// A conversation after registering the task `task_id` titled `title` at `now`.
pub open spec fn registered(h: ConversationHistory, task_id: String, title: String, now: i64) -> ConversationHistory {
    ConversationHistory { last_task_id: Some(task_id), last_task_title: Some(title), last_activity: now, ..h }
}

/// The context given to the classifier: the contents of the last `max` messages and the
/// current message, joined by spaces; the current message alone when there are none.
pub open spec fn recent_context(messages: Seq<MessageRecord>, current: Seq<char>, max: nat) -> Seq<char> {
    let contents = messages.map_values(|m: MessageRecord| m.content@);
    let start = if contents.len() > max { contents.len() - max } else { 0 };
    if start >= contents.len() {
        current
    } else {
        joined(contents.subrange(start, contents.len() as int), " "@) + " "@ + current
    }
}

/// The conversations with activity in the two hours before `now`, in order.
pub open spec fn active_conversations(m: Seq<(String, ConversationHistory)>, now: i64) -> Seq<(String, ConversationHistory)>
    decreases m.len(),
{
    if m.len() == 0 {
        m
    } else if now - m.last().1.last_activity < 7200 {
        active_conversations(m.drop_last(), now).push(m.last())
    } else {
        active_conversations(m.drop_last(), now)
    }
}

/// The conversations by phone.
#[derive(Debug)]
pub struct ConversationTracker {
    pub conversations: Vec<(String, ConversationHistory)>,
}

// ---------------------------------------------------------------------------------------
// Words

/// The words of `s`: its maximal runs without white space, as `split_whitespace` gives them.
pub open spec fn words(s: Seq<char>) -> Seq<Seq<char>>
    decreases s.len(),
{
    if s.len() == 0 {
        Seq::empty()
    } else {
        let w = words(s.drop_last());
        let c = s.last();
        if is_ws(c) {
            w
        } else if s.len() > 1 && !is_ws(s[s.len() - 2]) {
            w.update(w.len() - 1, w.last().push(c))
        } else {
            w.push(seq![c])
        }
    }
}

/// A text ending in a character that is no white space has a word.
proof fn lemma_words_nonempty(s: Seq<char>)
    requires
        s.len() > 0,
        !is_ws(s.last()),
    ensures
        words(s).len() > 0,
    decreases s.len(),
{
    if s.len() > 1 && !is_ws(s[s.len() - 2]) {
        lemma_words_nonempty(s.drop_last());
        assert(s.drop_last().last() == s[s.len() - 2]);
    }
}

/// The words of `s`.
pub fn split_words(s: &str) -> (r: Vec<String>)
    ensures
        r@.map_values(|x: String| x@) == words(s@),
{
    let cs = chars_of(s);
    let mut ws: Vec<Vec<char>> = Vec::new();
    let mut i: usize = 0;
    while i < cs.len()
        invariant
            i <= cs@.len(),
            cs@ == s@,
            ws@.map_values(|x: Vec<char>| x@) == words(cs@.take(i as int)),
        decreases cs@.len() - i,
    {
        let c = cs[i];
        let ghost pre = cs@.take(i + 1);
        assert(pre.drop_last() == cs@.take(i as int));
        assert(pre.last() == c);
        let ghost before = ws@.map_values(|x: Vec<char>| x@);
        if is_whitespace(c) {
        } else if i > 0 && !is_whitespace(cs[i - 1]) {
            assert(pre[pre.len() - 2] == cs@[i - 1]);
            proof {
                lemma_words_nonempty(cs@.take(i as int));
                assert(cs@.take(i as int).last() == cs@[i - 1]);
            }
            let last = ws.len() - 1;
            let mut w = ws.remove(last);
            w.push(c);
            ws.push(w);
            assert(ws@.map_values(|x: Vec<char>| x@) =~= before.update(before.len() - 1, before.last().push(c)));
        } else {
            let mut w: Vec<char> = Vec::new();
            w.push(c);
            ws.push(w);
            assert(ws@.map_values(|x: Vec<char>| x@) =~= before.push(seq![c]));
        }
        i = i + 1;
    }
    assert(cs@.take(cs@.len() as int) == cs@);
    let mut r: Vec<String> = Vec::new();
    let mut k: usize = 0;
    while k < ws.len()
        invariant
            k <= ws@.len(),
            r@.map_values(|x: String| x@) == ws@.map_values(|x: Vec<char>| x@).take(k as int),
        decreases ws@.len() - k,
    {
        let ghost r0 = r@.map_values(|x: String| x@);
        r.push(string_of(ws[k].as_slice()));
        assert(r@.map_values(|x: String| x@) =~= r0.push(ws@[k as int]@));
        k = k + 1;
        assert(r@.map_values(|x: String| x@) =~= ws@.map_values(|x: Vec<char>| x@).take(k as int));
    }
    assert(ws@.map_values(|x: Vec<char>| x@).take(k as int) == ws@.map_values(|x: Vec<char>| x@));
    r
}

/// Whether a message has three words or fewer.
pub fn is_short_message(message: &str) -> (r: bool)
    ensures
        r == (words(message@).len() <= 3),
{
    let ws = split_words(message);
    assert(ws@.map_values(|x: String| x@).len() == ws@.len());
    ws.len() <= 3
}

// ---------------------------------------------------------------------------------------
// Patterns

/// What `regex::Regex::new(pattern)` and `is_match` answer for `text`: whether the pattern
/// matches somewhere in it, nothing for a pattern that does not compile.
pub uninterp spec fn regex_is_match(pattern: Seq<char>, text: Seq<char>) -> Option<bool>;

/// Compiles `pattern` with `regex::Regex::new` and tests it on `text` with `is_match`.
#[verifier::external_body]
fn regex_matches(pattern: &str, text: &str) -> (r: Option<bool>)
    ensures
        r == regex_is_match(pattern@, text@),
{
    match regex::Regex::new(pattern) {
        Ok(re) => Some(re.is_match(text)),
        Err(_) => None,
    }
}

/// Whether the pattern matches; a pattern that does not compile matches nothing.
pub open spec fn matches_pattern(pattern: Seq<char>, text: Seq<char>) -> bool {
    regex_is_match(pattern, text) == Some(true)
}

/// Negations and substitutions that announce a change.
pub open spec fn negation_patterns() -> Seq<Seq<char>> {
    seq![
        r"\bnão\b.*\b(quero|preciso|é|era)\b"@,
        r"\b(melhor|prefiro)\b.*\b(fazer|ser|pedir)\b"@,
        r"\b(muda|troca|altera|substitui)\b.*\bpor\b"@,
    ]
}

/// Phrases of a change of mind.
pub open spec fn change_of_mind_phrases() -> Seq<Seq<char>> {
    seq!["na verdade"@, "mudei de ideia"@, "pensando melhor"@, "ao invés dis"@, "esquece"@, "cancela"@, "espera"@]
}

/// Words that change something.
pub open spec fn modification_words() -> Seq<Seq<char>> {
    seq!["não"@, "muda"@, "troca"@, "altera"@, "corrige"@, "remove"@, "tira"@]
}

/// Whether some item of `items` satisfies the test.
pub open spec fn any_of(items: Seq<Seq<char>>, p: spec_fn(Seq<char>) -> bool) -> bool {
    exists|i: int| 0 <= i < items.len() && p(#[trigger] items[i])
}

/// The words of the last task's title longer than 3 bytes that the (lowercased) message
/// contains, lowercased.
pub open spec fn shared_title_words(title: Seq<char>, lower_message: Seq<char>) -> nat {
    words(title).filter(|w: Seq<char>| utf8_len(w) > 3 && contains(lower_message, lowercase(w))).len()
}

/// Whether a message changes the last request: a negation or substitution pattern, a
/// change-of-mind phrase, or two words of the last task's title together with a word that
/// changes something. Words of addition change nothing.
pub open spec fn is_modification(message: Seq<char>, last_title: Option<Seq<char>>) -> bool {
    let m = lowercase(message);
    ||| any_of(negation_patterns(), |p: Seq<char>| matches_pattern(p, m))
    ||| any_of(change_of_mind_phrases(), |p: Seq<char>| contains(m, p))
    ||| match last_title {
        Some(t) => shared_title_words(t, m) >= 2 && any_of(modification_words(), |w: Seq<char>| contains(m, w)),
        None => false,
    }
}

/// Whether the text contains one of the literals, in order; the index of the first.
fn contains_any(text: &str, items: &Vec<&str>) -> (r: bool)
    ensures
        r == exists|i: int| 0 <= i < items@.len() && contains(text@, (#[trigger] items@[i])@),
{
    let mut i: usize = 0;
    while i < items.len()
        invariant
            i <= items@.len(),
            forall|j: int| 0 <= j < i ==> !contains(text@, (#[trigger] items@[j])@),
        decreases items@.len() - i,
    {
        if str_contains(text, items[i]) {
            return true;
        }
        i = i + 1;
    }
    false
}

/// The number of words of the title longer than 3 bytes that the message contains,
/// lowercased.
fn count_shared_words(title: &str, lower_message: &str) -> (r: usize)
    ensures
        r == shared_title_words(title@, lower_message@),
{
    let ws = split_words(title);
    let ghost wv = ws@.map_values(|x: String| x@);
    let ghost p = |w: Seq<char>| utf8_len(w) > 3 && contains(lower_message@, lowercase(w));
    let mut n: usize = 0;
    let mut i: usize = 0;
    while i < ws.len()
        invariant
            i <= ws@.len(),
            wv == ws@.map_values(|x: String| x@),
            wv.len() == ws@.len(),
            p == (|w: Seq<char>| utf8_len(w) > 3 && contains(lower_message@, lowercase(w))),
            n == wv.take(i as int).filter(p).len(),
            n <= i,
        decreases ws@.len() - i,
    {
        let ghost pre = wv.take(i + 1);
        assert(pre.drop_last() == wv.take(i as int));
        proof {
            wv.take(i as int).lemma_filter_push(wv[i as int], p);
            assert(wv.take(i as int).push(wv[i as int]) == pre);
        }
        let w = ws[i].as_str();
        if byte_len(w) > 3 {
            let lw = to_lowercase(w);
            if str_contains(lower_message, lw.as_str()) {
                n = n + 1;
            }
        }
        i = i + 1;
    }
    assert(wv.take(i as int) == wv);
    n
}

/// Whether a message changes the last request.
pub fn is_modification_by_patterns(message: &str, last_title: &Option<String>) -> (r: bool)
    ensures
        r == is_modification(message@, match *last_title {
            Some(t) => Some(t@),
            None => None,
        }),
{
    let lower = to_lowercase(message);
    let m = lower.as_str();
    let pats: Vec<&str> = vec![
        r"\bnão\b.*\b(quero|preciso|é|era)\b",
        r"\b(melhor|prefiro)\b.*\b(fazer|ser|pedir)\b",
        r"\b(muda|troca|altera|substitui)\b.*\bpor\b",
    ];
    let ghost negs = negation_patterns();
    assert(pats@.map_values(|x: &str| x@) =~= negs);
    let mut i: usize = 0;
    while i < pats.len()
        invariant
            i <= pats@.len(),
            pats@.map_values(|x: &str| x@) == negs,
            negs == negation_patterns(),
            m@ == lowercase(message@),
            forall|j: int| 0 <= j < i ==> !matches_pattern(#[trigger] negs[j], m@),
        decreases pats@.len() - i,
    {
        assert(pats@[i as int]@ == negs[i as int]);
        if regex_matches(pats[i], m) == Some(true) {
            assert(any_of(negation_patterns(), |p: Seq<char>| matches_pattern(p, m@)));
            return true;
        }
        i = i + 1;
    }
    assert(!any_of(negation_patterns(), |p: Seq<char>| matches_pattern(p, m@)));
    let phrases: Vec<&str> = vec!["na verdade", "mudei de ideia", "pensando melhor", "ao invés dis", "esquece", "cancela", "espera"];
    assert(phrases@.map_values(|x: &str| x@) =~= change_of_mind_phrases());
    if contains_any(m, &phrases) {
        proof {
            let k = choose|k: int| 0 <= k < phrases@.len() && contains(m@, (#[trigger] phrases@[k])@);
            assert(change_of_mind_phrases()[k] == phrases@[k]@);
        }
        return true;
    }
    assert(!any_of(change_of_mind_phrases(), |p: Seq<char>| contains(m@, p))) by {
        if any_of(change_of_mind_phrases(), |p: Seq<char>| contains(m@, p)) {
            let k = choose|k: int| 0 <= k < change_of_mind_phrases().len() && contains(m@, #[trigger] change_of_mind_phrases()[k]);
            assert(change_of_mind_phrases()[k] == phrases@[k]@);
        }
    }
    match last_title {
        Some(t) => {
            let shared = count_shared_words(t.as_str(), m);
            if shared >= 2 {
                let mods: Vec<&str> = vec!["não", "muda", "troca", "altera", "corrige", "remove", "tira"];
                assert(mods@.map_values(|x: &str| x@) =~= modification_words());
                let found = contains_any(m, &mods);
                proof {
                    if found {
                        let k = choose|k: int| 0 <= k < mods@.len() && contains(m@, (#[trigger] mods@[k])@);
                        assert(modification_words()[k] == mods@[k]@);
                    } else if any_of(modification_words(), |w: Seq<char>| contains(m@, w)) {
                        let k = choose|k: int| 0 <= k < modification_words().len() && contains(m@, #[trigger] modification_words()[k]);
                        assert(modification_words()[k] == mods@[k]@);
                    }
                }
                found
            } else {
                false
            }
        },
        None => false,
    }
}

// ---------------------------------------------------------------------------------------
// When a message changes the last request

/// A message that says "na verdade", "mudei de ideia", "pensando melhor", "ao invés dis…",
/// "esquece", "cancela" or "espera", in any case, changes the last request.
pub proof fn law_change_of_mind_is_modification(message: Seq<char>, last_title: Option<Seq<char>>)
    requires
        contains(lowercase(message), "na verdade"@) || contains(lowercase(message), "mudei de ideia"@) || contains(lowercase(message), "pensando melhor"@) || contains(lowercase(message), "ao invés dis"@) || contains(lowercase(message), "esquece"@) || contains(lowercase(message), "cancela"@) || contains(lowercase(message), "espera"@),
    ensures
        is_modification(message, last_title),
{
    if contains(lowercase(message), "na verdade"@) { assert(change_of_mind_phrases()[0] == "na verdade"@); }
    if contains(lowercase(message), "mudei de ideia"@) { assert(change_of_mind_phrases()[1] == "mudei de ideia"@); }
    if contains(lowercase(message), "pensando melhor"@) { assert(change_of_mind_phrases()[2] == "pensando melhor"@); }
    if contains(lowercase(message), "ao invés dis"@) { assert(change_of_mind_phrases()[3] == "ao invés dis"@); }
    if contains(lowercase(message), "esquece"@) { assert(change_of_mind_phrases()[4] == "esquece"@); }
    if contains(lowercase(message), "cancela"@) { assert(change_of_mind_phrases()[5] == "cancela"@); }
    if contains(lowercase(message), "espera"@) { assert(change_of_mind_phrases()[6] == "espera"@); }
}

/// A message that negates or substitutes ("não … quero", "prefiro … pedir", "troca … por")
/// changes the last request.
pub proof fn law_negation_is_modification(message: Seq<char>, last_title: Option<Seq<char>>)
    requires
        regex_is_match(r"\bnão\b.*\b(quero|preciso|é|era)\b"@, lowercase(message)) == Some(true) || regex_is_match(r"\b(melhor|prefiro)\b.*\b(fazer|ser|pedir)\b"@, lowercase(message)) == Some(true) || regex_is_match(r"\b(muda|troca|altera|substitui)\b.*\bpor\b"@, lowercase(message)) == Some(true),
    ensures
        is_modification(message, last_title),
{
    if regex_is_match(r"\bnão\b.*\b(quero|preciso|é|era)\b"@, lowercase(message)) == Some(true) { assert(negation_patterns()[0] == r"\bnão\b.*\b(quero|preciso|é|era)\b"@); }
    if regex_is_match(r"\b(melhor|prefiro)\b.*\b(fazer|ser|pedir)\b"@, lowercase(message)) == Some(true) { assert(negation_patterns()[1] == r"\b(melhor|prefiro)\b.*\b(fazer|ser|pedir)\b"@); }
    if regex_is_match(r"\b(muda|troca|altera|substitui)\b.*\bpor\b"@, lowercase(message)) == Some(true) { assert(negation_patterns()[2] == r"\b(muda|troca|altera|substitui)\b.*\bpor\b"@); }
}

/// A message that repeats two words of the last task's title together with a word that
/// changes something ("não", "muda", "troca", "altera", "corrige", "remove", "tira")
/// changes the last request.
pub proof fn law_title_words_with_change_word(message: Seq<char>, title: Seq<char>)
    requires
        shared_title_words(title, lowercase(message)) >= 2,
        contains(lowercase(message), "não"@) || contains(lowercase(message), "muda"@) || contains(lowercase(message), "troca"@) || contains(lowercase(message), "altera"@) || contains(lowercase(message), "corrige"@) || contains(lowercase(message), "remove"@) || contains(lowercase(message), "tira"@),
    ensures
        is_modification(message, Some(title)),
{
    if contains(lowercase(message), "não"@) { assert(modification_words()[0] == "não"@); }
    if contains(lowercase(message), "muda"@) { assert(modification_words()[1] == "muda"@); }
    if contains(lowercase(message), "troca"@) { assert(modification_words()[2] == "troca"@); }
    if contains(lowercase(message), "altera"@) { assert(modification_words()[3] == "altera"@); }
    if contains(lowercase(message), "corrige"@) { assert(modification_words()[4] == "corrige"@); }
    if contains(lowercase(message), "remove"@) { assert(modification_words()[5] == "remove"@); }
    if contains(lowercase(message), "tira"@) { assert(modification_words()[6] == "tira"@); }
}

/// A message with none of these signs does not change the last request.
pub proof fn law_no_sign_no_modification(message: Seq<char>, last_title: Option<Seq<char>>)
    requires
        regex_is_match(r"\bnão\b.*\b(quero|preciso|é|era)\b"@, lowercase(message)) != Some(true) && regex_is_match(r"\b(melhor|prefiro)\b.*\b(fazer|ser|pedir)\b"@, lowercase(message)) != Some(true) && regex_is_match(r"\b(muda|troca|altera|substitui)\b.*\bpor\b"@, lowercase(message)) != Some(true),
        !contains(lowercase(message), "na verdade"@) && !contains(lowercase(message), "mudei de ideia"@) && !contains(lowercase(message), "pensando melhor"@) && !contains(lowercase(message), "ao invés dis"@) && !contains(lowercase(message), "esquece"@) && !contains(lowercase(message), "cancela"@) && !contains(lowercase(message), "espera"@),
        last_title matches Some(t) ==> shared_title_words(t, lowercase(message)) < 2 || (!contains(lowercase(message), "não"@) && !contains(lowercase(message), "muda"@) && !contains(lowercase(message), "troca"@) && !contains(lowercase(message), "altera"@) && !contains(lowercase(message), "corrige"@) && !contains(lowercase(message), "remove"@) && !contains(lowercase(message), "tira"@)),
    ensures
        !is_modification(message, last_title),
{
    let m = lowercase(message);
    assert(!any_of(negation_patterns(), |p: Seq<char>| matches_pattern(p, m))) by {
        if any_of(negation_patterns(), |p: Seq<char>| matches_pattern(p, m)) {
            let k = choose|k: int| 0 <= k < negation_patterns().len() && matches_pattern(#[trigger] negation_patterns()[k], m);
            assert(0 <= k < 3);
        }
    }
    assert(!any_of(change_of_mind_phrases(), |p: Seq<char>| contains(m, p))) by {
        if any_of(change_of_mind_phrases(), |p: Seq<char>| contains(m, p)) {
            let k = choose|k: int| 0 <= k < change_of_mind_phrases().len() && contains(m, #[trigger] change_of_mind_phrases()[k]);
            assert(0 <= k < 7);
        }
    }
    if let Some(t) = last_title {
        if shared_title_words(t, m) >= 2 {
            assert(!any_of(modification_words(), |w: Seq<char>| contains(m, w))) by {
                if any_of(modification_words(), |w: Seq<char>| contains(m, w)) {
                    let k = choose|k: int| 0 <= k < modification_words().len() && contains(m, #[trigger] modification_words()[k]);
                    assert(0 <= k < 7);
                }
            }
        }
    }
}

// ---------------------------------------------------------------------------------------
// Changes

/// The changes that a message announces: removal, substitution, quantity, urgency, and
/// the message itself as the new instruction.
pub open spec fn detected_changes(message: Seq<char>) -> Seq<Seq<char>> {
    let m = lowercase(message);
    let removal = if contains(m, "cancela"@) || contains(m, "remove"@) {
        seq!["Remoção de item"@]
    } else {
        Seq::empty()
    };
    let substitution = if contains(m, "troca"@) || contains(m, "substitui"@) {
        seq!["Substituição de item"@]
    } else {
        Seq::empty()
    };
    let quantity = if contains(m, "quantidade"@) || matches_pattern(r"\b\d+\s*(unidade|caixa|metro|kg|litro)"@, m) {
        seq!["Alteração de quantidade"@]
    } else {
        Seq::empty()
    };
    let urgency = if contains(m, "urgente"@) || contains(m, "prioridade"@) {
        seq!["Alteração de urgência"@]
    } else {
        Seq::empty()
    };
    removal + substitution + quantity + urgency + seq!["Nova instrução: "@ + message]
}

/// The changes that a message announces.
pub fn detect_changes(message: &str) -> (r: Vec<String>)
    ensures
        r@.map_values(|x: String| x@) == detected_changes(message@),
{
    let lower = to_lowercase(message);
    let m = lower.as_str();
    let mut changes: Vec<String> = Vec::new();
    if str_contains(m, "cancela") || str_contains(m, "remove") {
        changes.push(owned("Remoção de item"));
    }
    if str_contains(m, "troca") || str_contains(m, "substitui") {
        changes.push(owned("Substituição de item"));
    }
    if str_contains(m, "quantidade") || regex_matches(r"\b\d+\s*(unidade|caixa|metro|kg|litro)", m) == Some(true) {
        changes.push(owned("Alteração de quantidade"));
    }
    if str_contains(m, "urgente") || str_contains(m, "prioridade") {
        changes.push(owned("Alteração de urgência"));
    }
    let mut last = owned("Nova instrução: ");
    push_str(&mut last, message);
    changes.push(last);
    assert(changes@.map_values(|x: String| x@) =~= detected_changes(message@));
    changes
}

// ---------------------------------------------------------------------------------------
// Conversations

/// How long after the last activity a change still updates the last task, in seconds.
pub const UPDATE_WINDOW_SECONDS: i64 = 600;

/// The messages kept: the last 20.
pub open spec fn last_twenty(ms: Seq<MessageRecord>) -> Seq<MessageRecord> {
    if ms.len() > 20 {
        ms.skip(ms.len() - 20)
    } else {
        ms
    }
}

/// What a message does, given the history before it and whether it changes the last
/// request: a change within ten minutes of the last activity updates the last task; any
/// other activity creates a task.
pub open spec fn decided_update(h: ConversationHistory, modification: bool, now: i64) -> bool {
    modification && h.last_task_id.is_some() && now - h.last_activity < UPDATE_WINDOW_SECONDS
}

/// A new history for a phone, with no task.
fn new_history(phone: &str, now: i64) -> (r: ConversationHistory)
    ensures
        r.phone@ == phone@,
        r.last_task_id.is_none(),
        r.last_task_title.is_none(),
        r.messages@.len() == 0,
        r.last_activity == now,
        r.revision_count == 0,
{
    ConversationHistory {
        phone: owned(phone),
        last_task_id: None,
        last_task_title: None,
        messages: Vec::new(),
        last_activity: now,
        revision_count: 0,
    }
}

/// The history after an activity message at `now`: the message is kept (of the last 20),
/// the activity time moves to `now`, and the revision count goes up on an update and back
/// to zero on a new task.
pub open spec fn history_after(h: ConversationHistory, h2: ConversationHistory, message: Seq<char>, update: bool, now: i64) -> bool {
    &&& h2.phone == h.phone
    &&& h2.last_task_id == h.last_task_id
    &&& h2.last_task_title == h.last_task_title
    &&& h2.last_activity == now
    &&& h2.revision_count == if update {
        if h.revision_count == u32::MAX {
            0
        } else {
            (h.revision_count + 1) as u32
        }
    } else {
        0
    }
    &&& h2.messages@.len() == last_twenty(h.messages@.push(h2.messages@.last())).len()
    &&& h2.messages@ == last_twenty(h.messages@.push(h2.messages@.last()))
    &&& h2.messages@.last().content@ == message
    &&& h2.messages@.last().timestamp == now
    &&& h2.messages@.last().was_activity
}

/// The title of the last task, as a view.
pub open spec fn opt_title(h: ConversationHistory) -> Option<Seq<char>> {
    match h.last_task_title {
        Some(t) => Some(t@),
        None => None,
    }
}

impl ConversationTracker {
    /// No conversation.
    pub fn new() -> (r: Self)
        ensures
            r.conversations@.len() == 0,
    {
        ConversationTracker { conversations: Vec::new() }
    }

    /// Decides what to do with a message of `phone` at `now` (seconds) and records it:
    /// nothing for a message that is no activity; for an activity, an update of the last
    /// task when the message changes it within ten minutes, else a new task.
    pub fn analyze_context_at(&mut self, phone: &str, message: &str, is_activity: bool, now: i64) -> (r: TaskAction)
        ensures
            unique_keys(old(self).conversations@) ==> unique_keys(final(self).conversations@),
            !is_activity ==> (r matches TaskAction::NoAction && final(self).conversations@ == old(self).conversations@),
            is_activity ==> (lookup(final(self).conversations@, phone@) matches Some(h2) && match lookup(
                old(self).conversations@,
                phone@,
            ) {
                Some(h) => {
                    let update = decided_update(h, is_modification(message@, opt_title(h)), now);
                    &&& history_after(h, h2, message@, update, now)
                    &&& update ==> (r matches TaskAction::UpdateExisting { task_id, changes } && h.last_task_id
                        == Some(task_id) && changes@.map_values(|x: String| x@) == detected_changes(message@))
                    &&& !update ==> r matches TaskAction::CreateNew
                },
                None => {
                    &&& r matches TaskAction::CreateNew
                    &&& h2.phone@ == phone@ && h2.last_task_id.is_none() && h2.last_task_title.is_none()
                    &&& h2.last_activity == now && h2.revision_count == 0
                    &&& h2.messages@.len() == 1 && h2.messages@[0].content@ == message@
                    &&& h2.messages@[0].timestamp == now && h2.messages@[0].was_activity
                },
            }),
    {
        if !is_activity {
            return TaskAction::NoAction;
        }
        let ghost old_convs = self.conversations@;
        let idx = match map_position(&self.conversations, phone) {
            Some(i) => i,
            None => {
                proof {
                    lemma_lookup_none(old_convs, phone@);
                }
                self.conversations.push((owned(phone), new_history(phone, now)));
                let n = self.conversations.len() - 1;
                proof {
                    if unique_keys(old_convs) {
                        assert forall|a: int, b: int| 0 <= a < b < self.conversations@.len() implies
                            #[trigger] self.conversations@[a].0@ != #[trigger] self.conversations@[b].0@ by {
                            if b == n {
                                assert(old_convs[a].0@ != phone@);
                            }
                        }
                    }
                    assert forall|j: int| 0 <= j < n implies self.conversations@[j].0@ != phone@ by {
                        assert(self.conversations@[j] == old_convs[j]);
                    }
                }
                n
            },
        };
        let ghost mid = self.conversations@;
        proof {
            assert(mid[idx as int].0@ == phone@);
            assert forall|j: int| 0 <= j < idx implies mid[j].0@ != mid[idx as int].0@ by {}
            lemma_lookup_first(mid, idx as int);
            assert(unique_keys(old_convs) ==> unique_keys(mid));
        }
        let (key, mut h) = self.conversations.remove(idx);
        let last = h.last_activity;
        let modification = is_modification_by_patterns(message, &h.last_task_title);
        h.messages.push(MessageRecord { timestamp: now, content: owned(message), was_activity: true });
        let ghost pushed = h.messages@;
        if h.messages.len() > 20 {
            let extra = h.messages.len() - 20;
            let mut kept: Vec<MessageRecord> = Vec::new();
            let mut i: usize = extra;
            while i < h.messages.len()
                invariant
                    extra <= i <= h.messages@.len(),
                    h.messages@ == pushed,
                    kept@ == pushed.subrange(extra as int, i as int),
                decreases h.messages@.len() - i,
            {
                let m = &h.messages[i];
                kept.push(MessageRecord { timestamp: m.timestamp, content: m.content.clone(), was_activity: m.was_activity });
                assert(kept@.last() == pushed[i as int]) by {
                    assert(kept@.last().content == pushed[i as int].content);
                }
                i = i + 1;
                assert(kept@ =~= pushed.subrange(extra as int, i as int));
            }
            assert(pushed.subrange(extra as int, pushed.len() as int) == pushed.skip(extra as int));
            h.messages = kept;
        }
        let elapsed_ok = (now as i128 - last as i128) < 600;
        let action = if modification && h.last_task_id.is_some() && elapsed_ok {
            h.revision_count = h.revision_count.wrapping_add(1);
            let changes = detect_changes(message);
            h.last_activity = now;
            let task_id = match &h.last_task_id {
                Some(t) => t.clone(),
                None => owned(""),
            };
            TaskAction::UpdateExisting { task_id, changes }
        } else {
            h.revision_count = 0;
            h.last_activity = now;
            TaskAction::CreateNew
        };
        self.conversations.insert(idx, (key, h));
        proof {
            if unique_keys(mid) {
                assert forall|a: int, b: int| 0 <= a < b < self.conversations@.len() implies
                    #[trigger] self.conversations@[a].0@ != #[trigger] self.conversations@[b].0@ by {
                    assert(self.conversations@[a].0 == mid[a].0);
                    assert(self.conversations@[b].0 == mid[b].0);
                }
            }
            assert forall|j: int| 0 <= j < idx implies self.conversations@[j].0@ != self.conversations@[idx as int].0@ by {
                assert(self.conversations@[j].0 == mid[j].0);
            }
            lemma_lookup_first(self.conversations@, idx as int);
        }
        action
    }

    /// Records the task created for a phone's conversation at `now`: the conversation's last
    /// task becomes `task_id` with `title`, and its last activity `now`; a phone without a
    /// conversation changes nothing.
    pub fn register_task_at(&mut self, phone: &str, task_id: String, title: String, now: i64)
        ensures
            final(self).conversations@ == match lookup(old(self).conversations@, phone@) {
                Some(h) => update_first(old(self).conversations@, phone@, registered(h, task_id, title, now)),
                None => old(self).conversations@,
            },
    {
        let ghost m0 = self.conversations@;
        match map_position(&self.conversations, phone) {
            Some(i) => {
                let (k, mut h) = self.conversations.remove(i);
                h.last_task_id = Some(task_id);
                h.last_task_title = Some(title);
                h.last_activity = now;
                self.conversations.insert(i, (k, h));
                proof {
                    lemma_update_first_at(m0, phone@, registered(m0[i as int].1, task_id, title, now), i as int);
                    assert(self.conversations@ =~= m0.update(
                        i as int,
                        (m0[i as int].0, registered(m0[i as int].1, task_id, title, now)),
                    ));
                }
            },
            None => {},
        }
    }

    /// The last `max_messages` messages of the phone's conversation and the current one,
    /// joined by spaces; the current message alone when there are none.
    pub fn aggregate_recent_context(&self, phone: &str, current_message: &str, max_messages: usize) -> (r: String)
        ensures
            r@ == match lookup(self.conversations@, phone@) {
                Some(h) => recent_context(h.messages@, current_message@, max_messages as nat),
                None => current_message@,
            },
    {
        match map_position(&self.conversations, phone) {
            Some(i) => {
                let ms = &self.conversations[i].1.messages;
                let ghost contents = ms@.map_values(|m: MessageRecord| m.content@);
                let start = if ms.len() > max_messages {
                    ms.len() - max_messages
                } else {
                    0
                };
                if start >= ms.len() {
                    return owned(current_message);
                }
                let mut out = String::new();
                let mut k: usize = start;
                while k < ms.len()
                    invariant
                        start <= k <= ms@.len(),
                        start < ms@.len(),
                        contents == ms@.map_values(|m: MessageRecord| m.content@),
                        k > start ==> out@ == joined(contents.subrange(start as int, k as int), " "@),
                        k == start ==> out@.len() == 0,
                    decreases ms@.len() - k,
                {
                    let ghost before = out@;
                    if k > start {
                        push_str(&mut out, " ");
                    }
                    push_str(&mut out, ms[k].content.as_str());
                    proof {
                        let sub = contents.subrange(start as int, k + 1);
                        assert(sub.drop_last() == contents.subrange(start as int, k as int));
                        assert(sub.last() == ms@[k as int].content@);
                        if k == start {
                            assert(sub.len() == 1);
                            assert(out@ =~= sub[0]);
                        }
                    }
                    k = k + 1;
                }
                push_str(&mut out, " ");
                push_str(&mut out, current_message);
                out
            },
            None => owned(current_message),
        }
    }

    /// Forgets the conversations with no activity for two hours at `now`.
    pub fn cleanup_old_conversations_at(&mut self, now: i64)
        ensures
            final(self).conversations@ == active_conversations(old(self).conversations@, now),
    {
        let ghost orig = self.conversations@;
        let ghost mut p: int = 0;
        let mut i: usize = 0;
        assert(orig.skip(0) == orig);
        while i < self.conversations.len()
            invariant
                0 <= p <= orig.len(),
                i == active_conversations(orig.take(p), now).len(),
                self.conversations@ == active_conversations(orig.take(p), now) + orig.skip(p),
            decreases self.conversations@.len() - i,
        {
            let ghost pre = orig.take(p + 1);
            assert(pre.drop_last() == orig.take(p));
            assert(self.conversations@[i as int] == orig[p]);
            if (now as i128 - self.conversations[i].1.last_activity as i128) < 7200 {
                i = i + 1;
                proof {
                    p = p + 1;
                    assert(self.conversations@ =~= active_conversations(orig.take(p), now) + orig.skip(p));
                }
            } else {
                let ghost before = self.conversations@;
                let _gone = self.conversations.remove(i);
                proof {
                    p = p + 1;
                    assert(self.conversations@ =~= active_conversations(orig.take(p), now) + orig.skip(p));
                }
            }
        }
        proof {
            assert(p == orig.len()) by {
                if p < orig.len() {
                    assert(self.conversations@.len() > i);
                }
            }
            assert(orig.take(p) == orig);
            assert(self.conversations@ =~= active_conversations(orig, now));
        }
    }
}

} // verus!
