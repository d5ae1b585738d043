//! JSON documents as plain values: the tree that the logic reads and builds.
//!
//! Numbers keep the text that `serde_json` prints for them.

use vstd::prelude::*;
use crate::text::{joined, push_char, push_str, str_eq};

verus! {

/// A JSON value. An object keeps its members in order; a lookup reads the first member
/// with the key, so a document that names a key twice is read by its first occurrence.
#[derive(Debug)]
pub enum JsonValue {
    Null,
    Bool(bool),
    Number(String),
    Str(String),
    Array(Vec<JsonValue>),
    Object(Vec<(String, JsonValue)>),
}

/// The mathematical form of a JSON value.
pub enum JsonView {
    Null,
    Bool(bool),
    Number(Seq<char>),
    Str(Seq<char>),
    Array(Seq<JsonView>),
    Object(Seq<(Seq<char>, JsonView)>),
}

impl JsonValue {
    /// The mathematical form of this value.
    pub open spec fn view(self) -> JsonView
        decreases self,
    {
        match self {
            JsonValue::Null => JsonView::Null,
            JsonValue::Bool(b) => JsonView::Bool(b),
            JsonValue::Number(n) => JsonView::Number(n@),
            JsonValue::Str(s) => JsonView::Str(s@),
            JsonValue::Array(v) => JsonView::Array(
                Seq::new(
                    v@.len(),
                    |i: int|
                        if 0 <= i < v@.len() {
                            proof {
                                assert(decreases_to!(self => v@[i]));
                            }
                            v@[i].view()
                        } else {
                            JsonView::Null
                        },
                ),
            ),
            JsonValue::Object(m) => JsonView::Object(
                Seq::new(
                    m@.len(),
                    |i: int|
                        if 0 <= i < m@.len() {
                            proof {
                                assert(decreases_to!(self => m@[i].1));
                            }
                            (m@[i].0@, m@[i].1.view())
                        } else {
                            (Seq::empty(), JsonView::Null)
                        },
                ),
            ),
        }
    }
}

/// The value of the first member `key` of an object; nothing for other values.
pub open spec fn json_get(v: JsonView, key: Seq<char>) -> Option<JsonView> {
    match v {
        JsonView::Object(m) => member(m, key),
        _ => None,
    }
}

/// The value of the first member called `key`.
pub open spec fn member(m: Seq<(Seq<char>, JsonView)>, key: Seq<char>) -> Option<JsonView>
    decreases m.len(),
{
    if m.len() == 0 {
        None
    } else if m[0].0 == key {
        Some(m[0].1)
    } else {
        member(m.drop_first(), key)
    }
}

/// The text of a string value.
pub open spec fn json_str(v: Option<JsonView>) -> Option<Seq<char>> {
    match v {
        Some(JsonView::Str(s)) => Some(s),
        _ => None,
    }
}

/// The string at `key` of `v`, when `v` is an object with a string there.
pub open spec fn str_at(v: JsonView, key: Seq<char>) -> Option<Seq<char>> {
    json_str(json_get(v, key))
}

/// View of an optional reference to a value.
pub open spec fn opt_json_view(o: Option<&JsonValue>) -> Option<JsonView> {
    match o {
        Some(x) => Some(x@),
        None => None,
    }
}

impl JsonValue {
    /// The member `key` of an object, as `serde_json::Value::get` finds it.
    pub fn get(&self, key: &str) -> (r: Option<&JsonValue>)
        ensures
            opt_json_view(r) == json_get(self@, key@),
    {
        match self {
            JsonValue::Object(m) => {
                let ghost mv = match self@ {
                    JsonView::Object(x) => x,
                    _ => Seq::empty(),
                };
                assert(mv.len() == m@.len());
                let mut i: usize = 0;
                assert(mv.skip(0) == mv);
                while i < m.len()
                    invariant
                        i <= m@.len(),
                        mv.len() == m@.len(),
                        forall|j: int| 0 <= j < m@.len() ==> #[trigger] mv[j] == (m@[j].0@, m@[j].1@),
                        member(mv, key@) == member(mv.skip(i as int), key@),
                        json_get(self@, key@) == member(mv, key@),
                    decreases m@.len() - i,
                {
                    assert(mv.skip(i as int)[0] == mv[i as int]);
                    if str_eq(m[i].0.as_str(), key) {
                        assert(mv.skip(i as int)[0] == (m@[i as int].0@, m@[i as int].1@));
                        assert(member(mv.skip(i as int), key@) == Some(m@[i as int].1@));
                        return Some(&m[i].1);
                    }
                    assert(mv.skip(i as int).drop_first() == mv.skip(i + 1));
                    i = i + 1;
                }
                None
            },
            _ => None,
        }
    }

    /// The text of a string value.
    pub fn as_str(&self) -> (r: Option<&String>)
        ensures
            match r {
                Some(s) => self@ == JsonView::Str(s@),
                None => !(self@ is Str),
            },
    {
        match self {
            JsonValue::Str(s) => Some(s),
            _ => None,
        }
    }

    /// The items of an array value.
    pub fn as_array(&self) -> (r: Option<&Vec<JsonValue>>)
        ensures
            match r {
                Some(v) => self is Array && self == JsonValue::Array(*v),
                None => !(self is Array),
            },
    {
        match self {
            JsonValue::Array(v) => Some(v),
            _ => None,
        }
    }

    /// The number as an `i64`, as `serde_json::Value::as_i64` gives it: an integer within
    /// range, nothing for floats and other values.
    pub fn as_i64(&self) -> (r: Option<i64>)
        ensures
            r == match self@ {
                JsonView::Number(n) => crate::text::parse_i64_spec(n),
                _ => None::<i64>,
            },
    {
        match self {
            JsonValue::Number(n) => crate::text::parse_i64(n.as_str()),
            _ => None,
        }
    }

    /// The number as a `u64`, as `serde_json::Value::as_u64` gives it.
    pub fn as_u64(&self) -> (r: Option<u64>)
        ensures
            r == match self@ {
                JsonView::Number(n) => crate::text::parse_u64_spec(n),
                _ => None::<u64>,
            },
    {
        match self {
            JsonValue::Number(n) => crate::text::parse_u64(n.as_str()),
            _ => None,
        }
    }

    /// Whether this is `null`.
    pub fn is_null(&self) -> (r: bool)
        ensures
            r == (self@ is Null),
    {
        match self {
            JsonValue::Null => true,
            _ => false,
        }
    }

    /// A copy of this value.
    pub fn deep_clone(&self) -> (r: JsonValue)
        ensures
            r@ == self@,
        decreases self,
    {
        match self {
            JsonValue::Null => JsonValue::Null,
            JsonValue::Bool(b) => JsonValue::Bool(*b),
            JsonValue::Number(n) => JsonValue::Number(n.clone()),
            JsonValue::Str(s) => JsonValue::Str(s.clone()),
            JsonValue::Array(v) => {
                let mut out: Vec<JsonValue> = Vec::new();
                let mut i: usize = 0;
                while i < v.len()
                    invariant
                        i <= v@.len(),
                        out@.len() == i,
                        forall|j: int| 0 <= j < i ==> #[trigger] out@[j]@ == v@[j]@,
                        *self == JsonValue::Array(*v),
                    decreases v@.len() - i,
                {
                    proof {
                        let x = v@[i as int];
                        assert(decreases_to!(*self => (*self)->Array_0));
                        assert(decreases_to!(*v => v@));
                        assert(decreases_to!(v@ => x));
                        assert(decreases_to!(*self => x));
                    }
                    let c = v[i].deep_clone();
                    out.push(c);
                    i = i + 1;
                }
                let r = JsonValue::Array(out);
                assert(r@ == self@) by {
                    let a = match r@ {
                        JsonView::Array(x) => x,
                        _ => Seq::empty(),
                    };
                    let b = match self@ {
                        JsonView::Array(x) => x,
                        _ => Seq::empty(),
                    };
                    assert(a.len() == b.len());
                    assert forall|j: int| 0 <= j < a.len() implies a[j] == b[j] by {
                        assert(a[j] == out@[j]@);
                        assert(b[j] == v@[j]@);
                    }
                    assert(a =~= b);
                }
                r
            },
            JsonValue::Object(m) => {
                let mut out: Vec<(String, JsonValue)> = Vec::new();
                let mut i: usize = 0;
                while i < m.len()
                    invariant
                        i <= m@.len(),
                        out@.len() == i,
                        forall|j: int|
                            0 <= j < i ==> #[trigger] out@[j].0@ == m@[j].0@ && out@[j].1@ == m@[j].1@,
                        *self == JsonValue::Object(*m),
                    decreases m@.len() - i,
                {
                    let k = m[i].0.clone();
                    proof {
                        let x = m@[i as int];
                        assert(decreases_to!(*self => (*self)->Object_0));
                        assert(decreases_to!(*m => m@));
                        assert(decreases_to!(m@ => x));
                        assert(decreases_to!(x => x.1));
                        assert(decreases_to!(*self => x.1));
                    }
                    let c = m[i].1.deep_clone();
                    out.push((k, c));
                    i = i + 1;
                }
                let r = JsonValue::Object(out);
                assert(r@ == self@) by {
                    let a = match r@ {
                        JsonView::Object(x) => x,
                        _ => Seq::empty(),
                    };
                    let b = match self@ {
                        JsonView::Object(x) => x,
                        _ => Seq::empty(),
                    };
                    assert(a.len() == b.len());
                    assert forall|j: int| 0 <= j < a.len() implies a[j] == b[j] by {
                        assert(a[j] == (out@[j].0@, out@[j].1@));
                        assert(b[j] == (m@[j].0@, m@[j].1@));
                    }
                    assert(a =~= b);
                }
                r
            },
        }
    }
}

/// The two lowercase hexadecimal digits of a byte below 0x20, as `\u00XX` escapes print.
pub open spec fn hex_digit(d: int) -> char {
    if d < 10 {
        (d + 48) as char
    } else {
        (d + 87) as char
    }
}

/// How `serde_json` writes a character inside a string.
pub open spec fn escape_char(c: char) -> Seq<char> {
    if c == '"' {
        seq!['\\', '"']
    } else if c == '\\' {
        seq!['\\', '\\']
    } else if c == '\u{8}' {
        seq!['\\', 'b']
    } else if c == '\u{c}' {
        seq!['\\', 'f']
    } else if c == '\n' {
        seq!['\\', 'n']
    } else if c == '\r' {
        seq!['\\', 'r']
    } else if c == '\t' {
        seq!['\\', 't']
    } else if (c as u32) < 0x20 {
        seq!['\\', 'u', '0', '0', hex_digit(((c as u32) / 16) as int), hex_digit(((c as u32) % 16) as int)]
    } else {
        seq![c]
    }
}

/// A string with every character escaped.
pub open spec fn escape(s: Seq<char>) -> Seq<char>
    decreases s.len(),
{
    if s.len() == 0 {
        Seq::empty()
    } else {
        escape(s.drop_last()) + escape_char(s.last())
    }
}

/// The compact JSON text of a value, as `serde_json` prints it.
pub open spec fn json_text(v: JsonView) -> Seq<char>
    decreases v,
{
    match v {
        JsonView::Null => seq!['n', 'u', 'l', 'l'],
        JsonView::Bool(b) => if b {
            seq!['t', 'r', 'u', 'e']
        } else {
            seq!['f', 'a', 'l', 's', 'e']
        },
        JsonView::Number(n) => n,
        JsonView::Str(s) => seq!['"'] + escape(s) + seq!['"'],
        JsonView::Array(items) => seq!['['] + joined(item_texts(items), seq![',']) + seq![']'],
        JsonView::Object(m) => seq!['{'] + joined(member_texts(m), seq![',']) + seq!['}'],
    }
}

/// The texts of the items of an array.
pub open spec fn item_texts(items: Seq<JsonView>) -> Seq<Seq<char>>
    decreases items,
{
    Seq::new(
        items.len(),
        |i: int|
            if 0 <= i < items.len() {
                proof {
                    assert(decreases_to!(items => items[i]));
                }
                json_text(items[i])
            } else {
                Seq::empty()
            },
    )
}

/// The texts `"key":value` of the members of an object.
pub open spec fn member_texts(m: Seq<(Seq<char>, JsonView)>) -> Seq<Seq<char>>
    decreases m,
{
    Seq::new(
        m.len(),
        |i: int|
            if 0 <= i < m.len() {
                proof {
                    assert(decreases_to!(m => m[i]));
                    assert(decreases_to!(m[i] => m[i].1));
                }
                seq!['"'] + escape(m[i].0) + seq!['"', ':'] + json_text(m[i].1)
            } else {
                Seq::empty()
            },
    )
}

/// Appends the escaped characters of `s`.
pub fn push_escaped(out: &mut String, s: &str)
    ensures
        final(out)@ == old(out)@ + escape(s@),
{
    let cs = crate::text::chars_of(s);
    let ghost before = out@;
    let mut i: usize = 0;
    while i < cs.len()
        invariant
            i <= cs@.len(),
            cs@ == s@,
            out@ == before + escape(cs@.take(i as int)),
        decreases cs@.len() - i,
    {
        let c = cs[i];
        assert(cs@.take(i + 1).drop_last() == cs@.take(i as int));
        if c == '"' {
            push_char(out, '\\');
            push_char(out, '"');
        } else if c == '\\' {
            push_char(out, '\\');
            push_char(out, '\\');
        } else if c == '\u{8}' {
            push_char(out, '\\');
            push_char(out, 'b');
        } else if c == '\u{c}' {
            push_char(out, '\\');
            push_char(out, 'f');
        } else if c == '\n' {
            push_char(out, '\\');
            push_char(out, 'n');
        } else if c == '\r' {
            push_char(out, '\\');
            push_char(out, 'r');
        } else if c == '\t' {
            push_char(out, '\\');
            push_char(out, 't');
        } else if (c as u32) < 0x20 {
            let code = c as u32;
            let hi = code / 16;
            let lo = code % 16;
            let hc: char = if hi < 10 { ((hi + 48) as u8) as char } else { ((hi + 87) as u8) as char };
            let lc: char = if lo < 10 { ((lo + 48) as u8) as char } else { ((lo + 87) as u8) as char };
            assert(hc == hex_digit(hi as int));
            assert(lc == hex_digit(lo as int));
            push_char(out, '\\');
            push_char(out, 'u');
            push_char(out, '0');
            push_char(out, '0');
            push_char(out, hc);
            push_char(out, lc);
        } else {
            push_char(out, c);
        }
        i = i + 1;
    }
    assert(cs@.take(i as int) == cs@);
}

impl JsonValue {
    /// Appends the compact JSON text of this value, as `serde_json` prints it.
    pub fn write_json(&self, out: &mut String)
        ensures
            final(out)@ == old(out)@ + json_text(self@),
        decreases self,
    {
        let ghost start = out@;
        match self {
            JsonValue::Null => {
                push_char(out, 'n');
                push_char(out, 'u');
                push_char(out, 'l');
                push_char(out, 'l');
                assert(out@ =~= start + json_text(self@));
            },
            JsonValue::Bool(b) => {
                if *b {
                    push_char(out, 't');
                    push_char(out, 'r');
                    push_char(out, 'u');
                    push_char(out, 'e');
                    assert(out@ =~= start + json_text(self@));
                } else {
                    push_char(out, 'f');
                    push_char(out, 'a');
                    push_char(out, 'l');
                    push_char(out, 's');
                    push_char(out, 'e');
                    assert(out@ =~= start + json_text(self@));
                }
            },
            JsonValue::Number(n) => {
                push_str(out, n.as_str());
            },
            JsonValue::Str(s) => {
                push_char(out, '"');
                push_escaped(out, s.as_str());
                push_char(out, '"');
                assert(out@ =~= start + json_text(self@));
            },
            JsonValue::Array(v) => {
                let ghost texts = Seq::new(v@.len(), |i: int| json_text(v@[i]@));
                push_char(out, '[');
                let ghost before = out@;
                let mut i: usize = 0;
                while i < v.len()
                    invariant
                        i <= v@.len(),
                        *self == JsonValue::Array(*v),
                        texts == Seq::new(v@.len(), |i: int| json_text(v@[i]@)),
                        out@ == before + joined(texts.take(i as int), seq![',']),
                    decreases v@.len() - i,
                {
                    proof {
                        let x = v@[i as int];
                        assert(decreases_to!(*self => (*self)->Array_0));
                        assert(decreases_to!(*v => v@));
                        assert(decreases_to!(v@ => x));
                    }
                    assert(texts.take(i + 1).drop_last() == texts.take(i as int));
                    if i > 0 {
                        push_char(out, ',');
                    }
                    v[i].write_json(out);
                    i = i + 1;
                }
                push_char(out, ']');
                assert(texts.take(i as int) == texts);
                proof {
                    let items = match self@ {
                        JsonView::Array(x) => x,
                        _ => Seq::empty(),
                    };
                    assert forall|j: int| 0 <= j < texts.len() implies item_texts(items)[j] == texts[j] by {
                        assert(items[j] == v@[j]@);
                    }
                    assert(item_texts(items) =~= texts);
                    assert(out@ =~= start + json_text(self@));
                }
            },
            JsonValue::Object(m) => {
                let ghost texts = Seq::new(
                    m@.len(),
                    |i: int| seq!['"'] + escape(m@[i].0@) + seq!['"', ':'] + json_text(m@[i].1@),
                );
                push_char(out, '{');
                let ghost before = out@;
                let mut i: usize = 0;
                while i < m.len()
                    invariant
                        i <= m@.len(),
                        *self == JsonValue::Object(*m),
                        texts == Seq::new(
                            m@.len(),
                            |i: int| seq!['"'] + escape(m@[i].0@) + seq!['"', ':'] + json_text(m@[i].1@),
                        ),
                        out@ == before + joined(texts.take(i as int), seq![',']),
                    decreases m@.len() - i,
                {
                    proof {
                        let x = m@[i as int];
                        assert(decreases_to!(*self => (*self)->Object_0));
                        assert(decreases_to!(*m => m@));
                        assert(decreases_to!(m@ => x));
                        assert(decreases_to!(x => x.1));
                    }
                    assert(texts.take(i + 1).drop_last() == texts.take(i as int));
                    if i > 0 {
                        push_char(out, ',');
                    }
                    push_char(out, '"');
                    push_escaped(out, m[i].0.as_str());
                    push_char(out, '"');
                    push_char(out, ':');
                    m[i].1.write_json(out);
                    i = i + 1;
                }
                push_char(out, '}');
                assert(texts.take(i as int) == texts);
                proof {
                    let items = match self@ {
                        JsonView::Object(x) => x,
                        _ => Seq::empty(),
                    };
                    assert forall|j: int| 0 <= j < texts.len() implies member_texts(items)[j] == texts[j] by {
                        assert(items[j] == (m@[j].0@, m@[j].1@));
                    }
                    assert(member_texts(items) =~= texts);
                    assert(out@ =~= start + json_text(self@));
                }
            },
        }
    }

    /// The compact JSON text of this value, as `serde_json` prints it.
    pub fn to_json_string(&self) -> (r: String)
        ensures
            r@ == json_text(self@),
    {
        let mut s = String::new();
        self.write_json(&mut s);
        s
    }
}

/// The members as keys and values.
pub open spec fn members_view(m: Seq<(String, JsonValue)>) -> Seq<(Seq<char>, JsonView)> {
    m.map_values(|p: (String, JsonValue)| (p.0@, p.1@))
}

/// An object with the given members, in order.
pub fn object_of(m: Vec<(String, JsonValue)>) -> (r: JsonValue)
    ensures
        r@ == JsonView::Object(members_view(m@)),
{
    let ghost mv = m@;
    let r = JsonValue::Object(m);
    proof {
        if let JsonView::Object(got) = r@ {
            assert(got =~= members_view(mv));
        }
    }
    r
}

/// Members that give the target pairs make the target object.
pub proof fn lemma_members_view(m: Seq<(String, JsonValue)>, target: Seq<(Seq<char>, JsonView)>)
    requires
        m.len() == target.len(),
        forall|i: int| 0 <= i < m.len() ==> (#[trigger] m[i].0@, m[i].1@) == target[i],
    ensures
        members_view(m) == target,
{
    assert(members_view(m) =~= target);
}

/// What `serde_json` parses from a text: the value, or nothing for an invalid document.
pub uninterp spec fn json_parse(text: Seq<char>) -> Option<JsonView>;

/// Declares `serde_json::Value` to the verifier.
#[verifier::external_type_specification]
#[verifier::external_body]
pub struct ExSerdeJsonValue(serde_json::Value);

/// Converts a `serde_json::Value` into the library's value, variant by variant; a number
/// keeps the text that `serde_json` prints for it.
#[verifier::external_body]
fn from_serde(v: serde_json::Value) -> JsonValue {
    match v {
        serde_json::Value::Null => JsonValue::Null,
        serde_json::Value::Bool(b) => JsonValue::Bool(b),
        serde_json::Value::Number(n) => JsonValue::Number(n.to_string()),
        serde_json::Value::String(s) => JsonValue::Str(s),
        serde_json::Value::Array(a) => JsonValue::Array(a.into_iter().map(from_serde).collect()),
        serde_json::Value::Object(m) => JsonValue::Object(m.into_iter().map(|(k, x)| (k, from_serde(x))).collect()),
    }
}

/// Parses `text` as JSON with `serde_json::from_str`. On failure the error is `serde_json`'s
/// message, whose text is not stated.
#[verifier::external_body]
pub(crate) fn parse_json(text: &str) -> (r: Result<JsonValue, String>)
    ensures
        match r {
            Ok(v) => json_parse(text@) == Some(v@),
            Err(_) => json_parse(text@) == None::<JsonView>,
        },
{
    serde_json::from_str::<serde_json::Value>(text).map(from_serde).map_err(|e| e.to_string())
}

} // verus!
