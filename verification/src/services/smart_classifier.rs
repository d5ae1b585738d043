//! The words that the pattern classifier weighs: the message lowercased, split on white
//! space, without words of two bytes or less, each reduced to its Portuguese stem; and the
//! key under which a confident classification is learned.
//!
//! The weights and confidences are floating-point and stay with the caller.

use vstd::prelude::*;
use crate::services::conversation_tracker::{split_words, words};
use crate::services::smart_assignee_finder::alnum_ws;
use crate::text::{byte_len, chars_of, is_alphanumeric, is_whitespace, lowercase, string_of, to_lowercase, utf8_len};

verus! {

/// What the Snowball Portuguese stemmer of `rust_stemmers` gives for a (lowercase) word.
pub uninterp spec fn portuguese_stem(word: Seq<char>) -> Seq<char>;

/// Stems a word with `rust_stemmers::Stemmer::create(Algorithm::Portuguese)`.
#[verifier::external_body]
fn stem_portuguese(word: &str) -> (r: String)
    ensures
        r@ == portuguese_stem(word@),
{
    rust_stemmers::Stemmer::create(rust_stemmers::Algorithm::Portuguese).stem(word).into_owned()
}

/// The stems of the words longer than two bytes, in order.
pub open spec fn stems_of(ws: Seq<Seq<char>>) -> Seq<Seq<char>>
    decreases ws.len(),
{
    if ws.len() == 0 {
        Seq::empty()
    } else if utf8_len(ws.last()) > 2 {
        stems_of(ws.drop_last()).push(portuguese_stem(ws.last()))
    } else {
        stems_of(ws.drop_last())
    }
}

/// The tokens of a message.
pub open spec fn tokens_of(message: Seq<char>) -> Seq<Seq<char>> {
    stems_of(words(lowercase(message)))
}

/// The tokens of a message: lowercased, split on white space, words of more than two bytes,
/// stemmed.
pub fn tokenize(message: &str) -> (r: Vec<String>)
    ensures
        r@.map_values(|x: String| x@) == tokens_of(message@),
{
    let l = to_lowercase(message);
    let ws = split_words(l.as_str());
    let ghost wv = ws@.map_values(|x: String| x@);
    let mut out: Vec<String> = Vec::new();
    let mut i: usize = 0;
    while i < ws.len()
        invariant
            i <= ws@.len(),
            wv == ws@.map_values(|x: String| x@),
            out@.map_values(|x: String| x@) == stems_of(wv.take(i as int)),
        decreases ws@.len() - i,
    {
        let ghost pre = wv.take(i + 1);
        assert(pre.drop_last() == wv.take(i as int));
        assert(pre.last() == ws@[i as int]@);
        if byte_len(ws[i].as_str()) > 2 {
            let ghost before = out@;
            out.push(stem_portuguese(ws[i].as_str()));
            assert(out@.map_values(|x: String| x@) =~= before.map_values(|x: String| x@).push(portuguese_stem(ws@[i as int]@)));
        }
        i = i + 1;
    }
    assert(wv.take(i as int) == wv);
    out
}

/// The key under which a classification is learned: the message lowercased, keeping letters,
/// digits and white space.
pub open spec fn learning_key(message: Seq<char>) -> Seq<char> {
    alnum_ws(lowercase(message))
}

/// The key under which a classification is learned.
pub fn normalize_for_learning(message: &str) -> (r: String)
    ensures
        r@ == learning_key(message@),
{
    let l = to_lowercase(message);
    let cs = chars_of(l.as_str());
    let mut kept: Vec<char> = Vec::new();
    let mut i: usize = 0;
    while i < cs.len()
        invariant
            i <= cs@.len(),
            kept@ == alnum_ws(cs@.take(i as int)),
        decreases cs@.len() - i,
    {
        let c = cs[i];
        let ghost pre = cs@.take(i + 1);
        assert(pre.drop_last() == cs@.take(i as int));
        assert(pre.last() == c);
        if is_alphanumeric(c) || is_whitespace(c) {
            kept.push(c);
        }
        i = i + 1;
    }
    assert(cs@.take(cs@.len() as int) == cs@);
    string_of(kept.as_slice())
}

} // verus!
