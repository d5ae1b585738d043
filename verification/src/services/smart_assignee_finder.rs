//! Matching an attendant's name with ClickUp users.
//!
//! Names are compared after normalisation; the fuzzy comparison, which scores names with
//! floating-point similarities, is left to the caller.

use vstd::prelude::*;
use crate::json::{JsonValue, JsonView};
use crate::services::prompts::opt_view;
use crate::text::{
    clone_opt, str_eq, alphanumeric, chars_of, is_alphanumeric, is_whitespace, is_ws, join_words, lowercase, string_of,
    to_lowercase, words_joined,
};

verus! {

/// How an assignee was found.
#[derive(Debug, Clone, Copy, PartialEq, Eq, Structural)]
pub enum SearchMethod {
    /// The exact name.
    ExactMatch,
    /// A similar name.
    FuzzyMatch,
    /// A name from earlier tasks.
    HistoricalMatch,
    /// Not found.
    NotFound,
}

/// What `deunicode::deunicode` gives for a text: its ASCII transliteration.
pub uninterp spec fn transliterated(s: Seq<char>) -> Seq<char>;

/// Transliterates `s` into ASCII with `deunicode::deunicode`.
#[verifier::external_body]
fn deunicode_text(s: &str) -> (r: String)
    ensures
        r@ == transliterated(s@),
{
    deunicode::deunicode(s)
}

/// The letters, digits and white space of `s`.
pub open spec fn alnum_ws(s: Seq<char>) -> Seq<char>
    decreases s.len(),
{
    if s.len() == 0 {
        s
    } else if alphanumeric(s.last()) || is_ws(s.last()) {
        alnum_ws(s.drop_last()).push(s.last())
    } else {
        alnum_ws(s.drop_last())
    }
}

/// A user name normalised: transliterated to ASCII, lowercased, without symbols, its words
/// joined by single spaces.
pub open spec fn normalized_user_name(name: Seq<char>) -> Seq<char> {
    words_joined(alnum_ws(lowercase(transliterated(name))))
}

/// A user name normalised.
pub fn normalize_name(name: &str) -> (r: String)
    ensures
        r@ == normalized_user_name(name@),
{
    let d = deunicode_text(name);
    let l = to_lowercase(d.as_str());
    let cs = chars_of(l.as_str());
    let mut kept: Vec<char> = Vec::new();
    let mut i: usize = 0;
    while i < cs.len()
        invariant
            i <= cs@.len(),
            kept@ == alnum_ws(cs@.take(i as int)),
        decreases cs@.len() - i,
    {
        let c = cs[i];
        let ghost pre = cs@.take(i + 1);
        assert(pre.drop_last() == cs@.take(i as int));
        assert(pre.last() == c);
        if is_alphanumeric(c) || is_whitespace(c) {
            kept.push(c);
        }
        i = i + 1;
    }
    assert(cs@.take(cs@.len() as int) == cs@);
    let k = string_of(kept.as_slice());
    join_words(k.as_str())
}

/// A ClickUp user as the team and task answers give it.
#[derive(Debug, Clone)]
pub struct ClickUpUser {
    pub id: String,
    pub username: String,
    pub email: Option<String>,
}

/// A user as plain values: id, name, e-mail.
pub open spec fn user_view(u: ClickUpUser) -> (Seq<char>, Seq<char>, Option<Seq<char>>) {
    (u.id@, u.username@, match u.email {
        Some(e) => Some(e@),
        None => None,
    })
}

/// The id of a user in an answer, which ClickUp writes as a string or as a number.
pub open spec fn flexible_id_spec(v: JsonView) -> Option<Seq<char>> {
    match v {
        JsonView::Str(s) => Some(s),
        JsonView::Number(n) => Some(n),
        _ => None,
    }
}

/// Reads an id written as a string or a number; anything else is no id.
pub fn flexible_id(v: &JsonValue) -> (r: Option<String>)
    ensures
        opt_view(r) == flexible_id_spec(v@),
{
    match v {
        JsonValue::Str(s) => Some(s.clone()),
        JsonValue::Number(n) => Some(n.clone()),
        _ => None,
    }
}

/// The first user whose normalised name is `normalized_name`.
pub open spec fn exact_user(users: Seq<ClickUpUser>, normalized_name: Seq<char>) -> Option<int>
    decreases users.len(),
{
    if users.len() == 0 {
        None
    } else if normalized_user_name(users.last().username@) == normalized_name && exact_user(users.drop_last(), normalized_name) is None {
        Some(users.len() - 1)
    } else {
        exact_user(users.drop_last(), normalized_name)
    }
}

/// The index of the first user whose normalised name is `normalized_name`: an exact match
/// wins over any similar name.
pub fn exact_match_index(users: &Vec<ClickUpUser>, normalized_name: &str) -> (r: Option<usize>)
    ensures
        match r {
            Some(i) => exact_user(users@, normalized_name@) == Some(i as int),
            None => exact_user(users@, normalized_name@) is None,
        },
{
    let mut i: usize = 0;
    while i < users.len()
        invariant
            i <= users@.len(),
            exact_user(users@.take(i as int), normalized_name@) is None,
        decreases users@.len() - i,
    {
        let n = normalize_name(users[i].username.as_str());
        let ghost pre = users@.take(i + 1);
        assert(pre.drop_last() == users@.take(i as int));
        if str_eq(n.as_str(), normalized_name) {
            proof {
                lemma_exact_user_prefix(users@, i as int, normalized_name@);
            }
            return Some(i);
        }
        i = i + 1;
    }
    assert(users@.take(i as int) == users@);
    None
}

/// A match found in a prefix, with none before it, is the match of the whole list.
proof fn lemma_exact_user_prefix(users: Seq<ClickUpUser>, i: int, name: Seq<char>)
    requires
        0 <= i < users.len(),
        exact_user(users.take(i), name) is None,
        normalized_user_name(users[i].username@) == name,
    ensures
        exact_user(users, name) == Some(i),
    decreases users.len(),
{
    if users.len() == i + 1 {
        assert(users.drop_last() == users.take(i));
    } else {
        assert(users.drop_last().take(i) == users.take(i));
        lemma_exact_user_prefix(users.drop_last(), i, name);
    }
}

/// The users of some lists, flattened, each id kept once at its first place.
pub open spec fn unique_users(users: Seq<ClickUpUser>) -> Seq<(Seq<char>, Seq<char>, Option<Seq<char>>)>
    decreases users.len(),
{
    if users.len() == 0 {
        Seq::empty()
    } else {
        let prior = unique_users(users.drop_last());
        if exists|j: int| 0 <= j < prior.len() && (#[trigger] prior[j]).0 == users.last().id@ {
            prior
        } else {
            prior.push(user_view(users.last()))
        }
    }
}

/// The assignees of earlier tasks, in order, each user once.
pub fn unique_assignees(assignees: &Vec<ClickUpUser>) -> (r: Vec<ClickUpUser>)
    ensures
        r@.map_values(|u: ClickUpUser| user_view(u)) == unique_users(assignees@),
{
    let mut out: Vec<ClickUpUser> = Vec::new();
    let mut i: usize = 0;
    while i < assignees.len()
        invariant
            i <= assignees@.len(),
            out@.map_values(|u: ClickUpUser| user_view(u)) == unique_users(assignees@.take(i as int)),
        decreases assignees@.len() - i,
    {
        let ghost pre = assignees@.take(i + 1);
        assert(pre.drop_last() == assignees@.take(i as int));
        let ghost prior = unique_users(assignees@.take(i as int));
        let mut seen = false;
        let mut k: usize = 0;
        while k < out.len()
            invariant
                k <= out@.len(),
                i < assignees@.len(),
                out@.map_values(|u: ClickUpUser| user_view(u)) == prior,
                seen == exists|j: int| 0 <= j < k && (#[trigger] prior[j]).0 == assignees@[i as int].id@,
            decreases out@.len() - k,
        {
            assert(prior[k as int] == user_view(out@[k as int]));
            if str_eq(out[k].id.as_str(), assignees[i].id.as_str()) {
                seen = true;
            }
            k = k + 1;
        }
        if !seen {
            let u = ClickUpUser {
                id: assignees[i].id.clone(),
                username: assignees[i].username.clone(),
                email: clone_opt(&assignees[i].email),
            };
            let ghost before = out@;
            out.push(u);
            assert(out@.map_values(|u: ClickUpUser| user_view(u)) =~= before.map_values(|u: ClickUpUser| user_view(u)).push(user_view(assignees@[i as int])));
        }
        i = i + 1;
    }
    assert(assignees@.take(i as int) == assignees@);
    out
}

} // verus!
