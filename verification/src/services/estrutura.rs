//! Where a client's tasks go: the folder of the client and attendant, and the list of the
//! month, with an in-memory cache.
//!
//! The database and ClickUp are awaited by the caller; names, keys, the monthly list's
//! name and the cache are here.

use vstd::prelude::*;
use crate::handlers::worker::{lemma_string_object, member, object_of_strings};
use crate::error::AppError;
use crate::json::{json_get, str_at, JsonValue, JsonView};
use crate::keyed::{insert_spec, lemma_lookup_inserted, lookup, map_insert, map_position};
use crate::services::prompts::opt_view;
use crate::services::prompt_text::{pad2, push_pad2};
use crate::text::{
    chars_of, i64_to_decimal, lowercase, owned, parse_u64_spec, push_str, signed_decimal,
    starts_with, str_eq, str_starts_with, str_trim, string_of, to_lowercase, trim, parse_u64,
};

verus! {

/// A client's folder.
#[derive(Debug, Clone)]
pub struct FolderInfo {
    pub folder_id: String,
    pub folder_path: String,
    pub space_id: Option<String>,
}

/// Folders and monthly lists found, with the second at which each was stored.
#[derive(Debug)]
pub struct EstruturaCache {
    /// `attendant|client` → folder.
    pub folders: Vec<(String, (FolderInfo, u64))>,
    /// `folder id|year-month` → list id.
    pub lists: Vec<(String, (String, u64))>,
    /// How long an entry is trusted, in seconds.
    pub ttl_seconds: u64,
}

/// Whether an entry stored at `stored` is stale at `now`: more than the time to live has
/// passed (never when the clock went back).
pub open spec fn stale(stored: u64, now: u64, ttl: u64) -> bool {
    now > stored && now - stored > ttl
}

impl EstruturaCache {
    /// An empty cache that trusts entries for an hour.
    pub fn new() -> (r: Self)
        ensures
            r.folders@.len() == 0,
            r.lists@.len() == 0,
            r.ttl_seconds == 3600,
    {
        EstruturaCache { folders: Vec::new(), lists: Vec::new(), ttl_seconds: 3600 }
    }

    /// Whether an entry stored at `timestamp` is stale at `now` (seconds).
    pub fn is_expired(&self, timestamp: u64, now: u64) -> (r: bool)
        ensures
            r == stale(timestamp, now, self.ttl_seconds),
    {
        now > timestamp && now - timestamp > self.ttl_seconds
    }

    /// The folder stored under `key`, when it is not stale at `now`.
    pub fn cached_folder(&self, key: &str, now: u64) -> (r: Option<FolderInfo>)
        ensures
            match lookup(self.folders@, key@) {
                Some((f, t)) => if stale(t, now, self.ttl_seconds) {
                    r.is_none()
                } else {
                    r == Some(f)
                },
                None => r.is_none(),
            },
    {
        match map_position(&self.folders, key) {
            Some(i) => {
                let t = self.folders[i].1.1;
                if self.is_expired(t, now) {
                    None
                } else {
                    let f = &self.folders[i].1.0;
                    Some(FolderInfo {
                        folder_id: f.folder_id.clone(),
                        folder_path: f.folder_path.clone(),
                        space_id: crate::text::clone_opt(&f.space_id),
                    })
                }
            },
            None => None,
        }
    }

    /// Stores a folder under `key` at `now`.
    pub fn store_folder(&mut self, key: String, folder: FolderInfo, now: u64)
        ensures
            final(self).folders@ == insert_spec(old(self).folders@, key, (folder, now)),
            final(self).lists == old(self).lists,
            final(self).ttl_seconds == old(self).ttl_seconds,
    {
        map_insert(&mut self.folders, key, (folder, now));
    }

    /// The list stored under `key`, when it is not stale at `now`.
    pub fn cached_list(&self, key: &str, now: u64) -> (r: Option<String>)
        ensures
            match lookup(self.lists@, key@) {
                Some((l, t)) => if stale(t, now, self.ttl_seconds) {
                    r.is_none()
                } else {
                    r == Some(l)
                },
                None => r.is_none(),
            },
    {
        match map_position(&self.lists, key) {
            Some(i) => {
                let t = self.lists[i].1.1;
                if self.is_expired(t, now) {
                    None
                } else {
                    Some(self.lists[i].1.0.clone())
                }
            },
            None => None,
        }
    }

    /// Stores a list under `key` at `now`.
    pub fn store_list(&mut self, key: String, list_id: String, now: u64)
        ensures
            final(self).lists@ == insert_spec(old(self).lists@, key, (list_id, now)),
            final(self).folders == old(self).folders,
            final(self).ttl_seconds == old(self).ttl_seconds,
    {
        map_insert(&mut self.lists, key, (list_id, now));
    }
}

/// A list stored at `now` is found again under its key, and is not stale, until its time
/// to live has passed.
pub proof fn lemma_stored_list_found(m: Seq<(String, (String, u64))>, key: String, list_id: String, now: u64, later: u64, ttl: u64)
    requires
        later >= now,
        later - now <= ttl,
    ensures
        lookup(insert_spec(m, key, (list_id, now)), key@) == Some((list_id, now)),
        !stale(now, later, ttl),
{
    lemma_lookup_inserted(m, key, (list_id, now));
}

/// A folder stored at `now` is found again under its key, and is not stale, until its time
/// to live has passed.
pub proof fn lemma_stored_folder_found(m: Seq<(String, (FolderInfo, u64))>, key: String, folder: FolderInfo, now: u64, later: u64, ttl: u64)
    requires
        later >= now,
        later - now <= ttl,
    ensures
        lookup(insert_spec(m, key, (folder, now)), key@) == Some((folder, now)),
        !stale(now, later, ttl),
{
    lemma_lookup_inserted(m, key, (folder, now));
}

/// `a|b`, the key of the cache.
pub fn cache_key(a: &str, b: &str) -> (r: String)
    ensures
        r@ == a@ + "|"@ + b@,
{
    let mut k = owned(a);
    push_str(&mut k, "|");
    push_str(&mut k, b);
    k
}

/// The year and month written `YYYY-MM`, for a calendar month.
pub fn year_month_text(year: i32, month: u32) -> (r: String)
    requires
        1 <= month <= 12,
    ensures
        r@ == signed_decimal(year as int) + "-"@ + pad2(month as nat),
{
    let mut s = i64_to_decimal(year as i64);
    push_str(&mut s, "-");
    push_pad2(&mut s, month);
    s
}

/// The name of a month in Portuguese, in capitals.
pub open spec fn month_caps_name(m: u64) -> Option<Seq<char>> {
    if m == 1 {
        Some("JANEIRO"@)
    } else if m == 2 {
        Some("FEVEREIRO"@)
    } else if m == 3 {
        Some("MARÇO"@)
    } else if m == 4 {
        Some("ABRIL"@)
    } else if m == 5 {
        Some("MAIO"@)
    } else if m == 6 {
        Some("JUNHO"@)
    } else if m == 7 {
        Some("JULHO"@)
    } else if m == 8 {
        Some("AGOSTO"@)
    } else if m == 9 {
        Some("SETEMBRO"@)
    } else if m == 10 {
        Some("OUTUBRO"@)
    } else if m == 11 {
        Some("NOVEMBRO"@)
    } else if m == 12 {
        Some("DEZEMBRO"@)
    } else {
        None
    }
}

/// The parts of `s` separated by `-`, as `split('-')` gives them.
pub open spec fn dash_parts(s: Seq<char>) -> Seq<Seq<char>>
    decreases s.len(),
{
    if s.len() == 0 {
        seq![Seq::empty()]
    } else {
        let p = dash_parts(s.drop_last());
        if s.last() == '-' {
            p.push(Seq::empty())
        } else {
            p.update(p.len() - 1, p.last().push(s.last()))
        }
    }
}

/// The month as `parse::<u32>` reads it, 1 when it does not.
pub open spec fn month_number(m: Seq<char>) -> u64 {
    match parse_u64_spec(m) {
        Some(v) => if v <= u32::MAX {
            v
        } else {
            1
        },
        None => 1,
    }
}

/// The name of the list of a month `YYYY-MM`: the month in capitals and the year, or
/// `DESCONHECIDO` for a text that is not two parts; an unknown month number is
/// `DESCONHECIDO` too.
pub open spec fn month_list_name(year_month: Seq<char>) -> Seq<char> {
    let parts = dash_parts(year_month);
    if parts.len() != 2 {
        "DESCONHECIDO"@
    } else {
        let name = match month_caps_name(month_number(parts[1])) {
            Some(n) => n,
            None => "DESCONHECIDO"@,
        };
        name + " "@ + parts[0]
    }
}

/// The parts of `s` separated by `-`.
fn split_dash(s: &str) -> (r: Vec<String>)
    ensures
        r@.map_values(|x: String| x@) == dash_parts(s@),
{
    let cs = chars_of(s);
    let mut parts: Vec<String> = Vec::new();
    let mut cur: Vec<char> = Vec::new();
    let mut i: usize = 0;
    while i < cs.len()
        invariant
            i <= cs@.len(),
            cs@ == s@,
            parts@.map_values(|x: String| x@).push(cur@) == dash_parts(cs@.take(i as int)),
        decreases cs@.len() - i,
    {
        let ghost pre = cs@.take(i + 1);
        assert(pre.drop_last() == cs@.take(i as int));
        assert(pre.last() == cs@[i as int]);
        let ghost before = parts@.map_values(|x: String| x@);
        if cs[i] == '-' {
            let piece = string_of(cur.as_slice());
            parts.push(piece);
            cur = Vec::new();
            assert(parts@.map_values(|x: String| x@) =~= before.push(piece@));
            assert(parts@.map_values(|x: String| x@).push(cur@) =~= before.push(piece@).push(Seq::empty()));
        } else {
            cur.push(cs[i]);
            assert(parts@.map_values(|x: String| x@).push(cur@) =~= before.push(cur@.drop_last()).update(
                before.len() as int,
                cur@,
            ));
        }
        i = i + 1;
    }
    assert(cs@.take(cs@.len() as int) == cs@);
    let last = string_of(cur.as_slice());
    let ghost before = parts@.map_values(|x: String| x@);
    parts.push(last);
    assert(parts@.map_values(|x: String| x@) =~= before.push(last@));
    parts
}

/// The name of the list of a month `YYYY-MM`.
pub fn get_month_name(year_month: &str) -> (r: String)
    ensures
        r@ == month_list_name(year_month@),
{
    let parts = split_dash(year_month);
    if parts.len() != 2 {
        return owned("DESCONHECIDO");
    }
    let m: u64 = match parse_u64(parts[1].as_str()) {
        Some(v) => if v <= 0xffff_ffff {
            v
        } else {
            1
        },
        None => 1,
    };
    let mut s = owned(
        if m == 1 {
            "JANEIRO"
        } else if m == 2 {
            "FEVEREIRO"
        } else if m == 3 {
            "MARÇO"
        } else if m == 4 {
            "ABRIL"
        } else if m == 5 {
            "MAIO"
        } else if m == 6 {
            "JUNHO"
        } else if m == 7 {
            "JULHO"
        } else if m == 8 {
            "AGOSTO"
        } else if m == 9 {
            "SETEMBRO"
        } else if m == 10 {
            "OUTUBRO"
        } else if m == 11 {
            "NOVEMBRO"
        } else if m == 12 {
            "DEZEMBRO"
        } else {
            "DESCONHECIDO"
        },
    );
    push_str(&mut s, " ");
    push_str(&mut s, parts[0].as_str());
    s
}

/// The name of the monthly list of a folder: for a folder under "Clientes Inativos / ", the
/// client's name and the month, else the month.
pub open spec fn monthly_list_name_for(month_name: Seq<char>, folder_path: Option<Seq<char>>) -> Seq<char> {
    match folder_path {
        Some(p) => if starts_with(p, "Clientes Inativos / "@) && p.len() > "Clientes Inativos / "@.len() {
            p.skip("Clientes Inativos / "@.len() as int) + " - "@ + month_name
        } else {
            month_name
        },
        None => month_name,
    }
}

/// The name of the monthly list of a folder.
pub fn monthly_list_name(month_name: &str, folder_path: Option<&str>) -> (r: String)
    ensures
        r@ == monthly_list_name_for(month_name@, match folder_path {
            Some(p) => Some(p@),
            None => None,
        }),
{
    proof {
        reveal_strlit("Clientes Inativos / ");
    }
    match folder_path {
        Some(p) => {
            if str_starts_with(p, "Clientes Inativos / ") {
                let cs = chars_of(p);
                let n = 20usize;
                if cs.len() > n {
                    let mut client: Vec<char> = Vec::new();
                    let mut i: usize = n;
                    while i < cs.len()
                        invariant
                            n <= i <= cs@.len(),
                            client@ == cs@.subrange(n as int, i as int),
                        decreases cs@.len() - i,
                    {
                        client.push(cs[i]);
                        i = i + 1;
                        assert(client@ =~= cs@.subrange(n as int, i as int));
                    }
                    assert(cs@.subrange(n as int, cs@.len() as int) == p@.skip(n as int));
                    let mut s = string_of(client.as_slice());
                    push_str(&mut s, " - ");
                    push_str(&mut s, month_name);
                    s
                } else {
                    owned(month_name)
                }
            } else {
                owned(month_name)
            }
        },
        None => owned(month_name),
    }
}

/// What `regex::Regex::new(pattern)` and `replace_all(text, replacement)` give: the text
/// with every match replaced, or nothing for an invalid pattern.
pub uninterp spec fn regex_replaced(pattern: Seq<char>, text: Seq<char>, replacement: Seq<char>) -> Option<Seq<char>>;

/// Compiles `pattern` with `regex::Regex::new` and replaces every match in `text` with
/// `replacement` (taken literally: it holds no `$`).
#[verifier::external_body]
fn regex_replace_all(pattern: &str, text: &str, replacement: &str) -> (r: Option<String>)
    ensures
        match r {
            Some(s) => regex_replaced(pattern@, text@, replacement@) == Some(s@),
            None => regex_replaced(pattern@, text@, replacement@).is_none(),
        },
{
    regex::Regex::new(pattern).ok().map(|re| re.replace_all(text, replacement).into_owned())
}

/// Pattern of the characters that a local name drops.
pub open spec fn dropped_chars_pattern() -> Seq<char> {
    r"[^a-z0-9\s\-]"@
}

/// Pattern of a run of whitespace.
pub open spec fn whitespace_run_pattern() -> Seq<char> {
    r"\s+"@
}

/// A character without its accent, for the accented vowels, `ç` and `ñ`.
pub open spec fn plain_letter(c: char) -> char {
    if c == 'á' || c == 'à' || c == 'â' || c == 'ã' {
        'a'
    } else if c == 'é' || c == 'è' || c == 'ê' {
        'e'
    } else if c == 'í' || c == 'ì' || c == 'î' {
        'i'
    } else if c == 'ó' || c == 'ò' || c == 'ô' || c == 'õ' {
        'o'
    } else if c == 'ú' || c == 'ù' || c == 'û' {
        'u'
    } else if c == 'ç' {
        'c'
    } else if c == 'ñ' {
        'n'
    } else {
        c
    }
}

/// The text with each character without its accent.
pub open spec fn plain_letters(s: Seq<char>) -> Seq<char> {
    s.map_values(|c: char| plain_letter(c))
}

/// A name normalised without the database: trimmed, lowercased, without accents, with only
/// letters, digits, whitespace and hyphens, whitespace runs made single spaces, trimmed. A
/// pattern that did not compile would leave the text as it was.
pub open spec fn local_name(name: Seq<char>) -> Seq<char> {
    let a = plain_letters(lowercase(trim(name)));
    let b = match regex_replaced(dropped_chars_pattern(), a, Seq::empty()) {
        Some(x) => x,
        None => a,
    };
    let c = match regex_replaced(whitespace_run_pattern(), b, " "@) {
        Some(x) => x,
        None => b,
    };
    trim(c)
}

/// A character without its accent.
fn plain(c: char) -> (r: char)
    ensures
        r == plain_letter(c),
{
    if c == 'á' || c == 'à' || c == 'â' || c == 'ã' {
        'a'
    } else if c == 'é' || c == 'è' || c == 'ê' {
        'e'
    } else if c == 'í' || c == 'ì' || c == 'î' {
        'i'
    } else if c == 'ó' || c == 'ò' || c == 'ô' || c == 'õ' {
        'o'
    } else if c == 'ú' || c == 'ù' || c == 'û' {
        'u'
    } else if c == 'ç' {
        'c'
    } else if c == 'ñ' {
        'n'
    } else {
        c
    }
}

/// A name normalised without the database.
pub fn normalize_name_local(name: &str) -> (r: String)
    ensures
        r@ == local_name(name@),
{
    let t = str_trim(name);
    let l = to_lowercase(t.as_str());
    let cs = chars_of(l.as_str());
    let mut out: Vec<char> = Vec::new();
    let mut i: usize = 0;
    while i < cs.len()
        invariant
            i <= cs@.len(),
            out@ == plain_letters(cs@.take(i as int)),
        decreases cs@.len() - i,
    {
        out.push(plain(cs[i]));
        i = i + 1;
        assert(out@ =~= plain_letters(cs@.take(i as int)));
    }
    assert(cs@.take(i as int) == cs@);
    let a = string_of(out.as_slice());
    assert(a@ == plain_letters(lowercase(trim(name@))));
    proof {
        reveal_strlit("");
        assert(""@ =~= Seq::<char>::empty());
    }
    let b = match regex_replace_all(r"[^a-z0-9\s\-]", a.as_str(), "") {
        Some(x) => x,
        None => a,
    };
    let c = match regex_replace_all(r"\s+", b.as_str(), " ") {
        Some(x) => x,
        None => b,
    };
    str_trim(c.as_str())
}

/// The key of a client or attendant: the one the database maps the name to, else the name
/// normalised locally.
pub fn name_key(db_key: Option<String>, name: &str) -> (r: String)
    ensures
        r@ == match db_key {
            Some(k) => k@,
            None => local_name(name@),
        },
{
    match db_key {
        Some(k) => k,
        None => normalize_name_local(name),
    }
}

/// The message when no folder is mapped for a client and attendant.
pub fn structure_not_found_message(client: &str, attendant: &str) -> (r: String)
    ensures
        r@ == "Pasta não encontrada no banco de dados para Cliente='"@ + client@ + "' e Atendente='"@
            + attendant@ + "'. Por favor, crie a pasta no ClickUp e adicione o mapeamento no banco de dados."@,
{
    let mut s = owned("Pasta não encontrada no banco de dados para Cliente='");
    push_str(&mut s, client);
    push_str(&mut s, "' e Atendente='");
    push_str(&mut s, attendant);
    push_str(&mut s, "'. Por favor, crie a pasta no ClickUp e adicione o mapeamento no banco de dados.");
    s
}

/// The id of the first list of a folder's answer (`lists`) whose name is `name`; nothing
/// when that list's id is no string.
pub open spec fn list_id_named_spec(lists: Seq<JsonView>, name: Seq<char>) -> Option<Seq<char>>
    decreases lists.len(),
{
    if lists.len() == 0 {
        None
    } else if str_at(lists[0], "name"@) == Some(name) {
        str_at(lists[0], "id"@)
    } else {
        list_id_named_spec(lists.drop_first(), name)
    }
}

/// The lists of a folder's answer.
pub open spec fn folder_lists(answer: JsonView) -> Seq<JsonView> {
    match json_get(answer, "lists"@) {
        Some(JsonView::Array(a)) => a,
        _ => Seq::empty(),
    }
}

/// The id of the list of a folder called `name`.
pub fn find_list_id_named(answer: &JsonValue, name: &str) -> (r: Option<String>)
    ensures
        opt_view(r) == list_id_named_spec(folder_lists(answer@), name@),
{
    match answer.get("lists") {
        Some(JsonValue::Array(lists)) => {
            let ghost lv = folder_lists(answer@);
            proof {
                if let Some(JsonView::Array(a)) = json_get(answer@, "lists"@) {
                    assert(a =~= lists@.map_values(|x: JsonValue| x@));
                }
            }
            let mut i: usize = 0;
            assert(lv.skip(0) == lv);
            while i < lists.len()
                invariant
                    i <= lists@.len(),
                    lv == folder_lists(answer@),
                    lv == lists@.map_values(|x: JsonValue| x@),
                    list_id_named_spec(lv, name@) == list_id_named_spec(lv.skip(i as int), name@),
                decreases lists@.len() - i,
            {
                assert(lv.skip(i as int)[0] == lists@[i as int]@);
                match lists[i].get("name") {
                    Some(n) => match n.as_str() {
                        Some(s) => {
                            if str_eq(s.as_str(), name) {
                                assert(str_at(lv.skip(i as int)[0], "name"@) == Some(name@));
                                return match lists[i].get("id") {
                                    Some(v) => match v.as_str() {
                                        Some(id) => Some(id.clone()),
                                        None => None,
                                    },
                                    None => None,
                                };
                            }
                        },
                        None => {},
                    },
                    None => {},
                }
                assert(lv.skip(i as int).drop_first() == lv.skip(i + 1));
                i = i + 1;
            }
            None
        },
        _ => None,
    }
}

/// The id of a created list, or the error that the answer has none.
pub fn created_list_id(answer: &JsonValue) -> (r: Result<String, AppError>)
    ensures
        match str_at(answer@, "id"@) {
            Some(id) => r matches Ok(x) && x@ == id,
            None => r matches Err(AppError::InternalError(m)) && m@ == "list_id não encontrado na resposta"@,
        },
{
    match answer.get("id") {
        Some(v) => match v.as_str() {
            Some(id) => Ok(id.clone()),
            None => Err(AppError::InternalError(owned("list_id não encontrado na resposta"))),
        },
        None => Err(AppError::InternalError(owned("list_id não encontrado na resposta"))),
    }
}

/// The body that creates a monthly list, stamped with the time (`%Y-%m-%d %H:%M:%S`).
pub fn create_list_body(name: &str, created_at: &str) -> (r: JsonValue)
    ensures
        r@ == JsonView::Object(seq![
            ("content"@, JsonView::Str("Lista criada automaticamente em "@ + created_at@)),
            ("name"@, JsonView::Str(name@)),
        ]),
{
    let mut content = owned("Lista criada automaticamente em ");
    push_str(&mut content, created_at);
    let mut m: Vec<(String, String)> = Vec::new();
    m.push(member("content", content));
    m.push(member("name", owned(name)));
    let ghost mv = m@;
    let r = object_of_strings(m);
    proof {
        lemma_string_object(mv, seq![
            ("content"@, JsonView::Str("Lista criada automaticamente em "@ + created_at@)),
            ("name"@, JsonView::Str(name@)),
        ]);
    }
    r
}

} // verus!
