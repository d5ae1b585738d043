//! Finding a client's folder from the name the attendant typed.
//!
//! Names are compared after normalisation; the fuzzy comparison, which scores names with
//! floating-point similarities, is left to the caller.

use vstd::prelude::*;
use crate::config::custom_fields_loader::{parse_yaml_value, yaml_parse};
use crate::json::{json_get, JsonValue, JsonView};
use crate::keyed::keys;
use crate::services::prompt_text::views;
use crate::text::{
    chars_of, is_numeric, join_words, owned, lowercase, numeric, str_eq, str_trim, string_of, to_lowercase,
    push_str, squeeze_step, squeezed, trim, words_joined,
};

verus! {

/// Client name → folder id, as the mapping file gives it.
#[derive(Debug, Clone)]
pub struct ClienteMappings {
    pub dropdown_to_folder_mapping: Vec<(String, String)>,
}

/// How a client's folder was found.
#[derive(Debug, Clone, Copy, PartialEq, Eq, Structural)]
pub enum MatchType {
    /// The normalised names are equal.
    Exact,
    /// The names are similar enough.
    Fuzzy,
    /// Not found; the default folder is used.
    Fallback,
}

/// A character without its accent, for the accented Portuguese vowels and `ç`.
pub open spec fn unaccented(c: char) -> char {
    if c == 'á' || c == 'à' || c == 'â' || c == 'ã' {
        'a'
    } else if c == 'é' || c == 'è' || c == 'ê' {
        'e'
    } else if c == 'í' || c == 'ì' || c == 'î' {
        'i'
    } else if c == 'ó' || c == 'ò' || c == 'ô' || c == 'õ' {
        'o'
    } else if c == 'ú' || c == 'ù' || c == 'û' {
        'u'
    } else if c == 'ç' {
        'c'
    } else {
        c
    }
}

/// The characters kept by normalisation, without accents: numbers and parentheses go.
pub open spec fn name_chars(s: Seq<char>) -> Seq<char>
    decreases s.len(),
{
    if s.len() == 0 {
        s
    } else {
        let r = name_chars(s.drop_last());
        let c = s.last();
        if numeric(c) || c == '(' || c == ')' {
            r
        } else {
            r.push(unaccented(c))
        }
    }
}

/// A client name normalised: trimmed, lowercased, without numbers, parentheses and the
/// accents of Portuguese, its words joined by single spaces.
pub open spec fn normalized_name(name: Seq<char>) -> Seq<char> {
    words_joined(name_chars(lowercase(trim(name))))
}

/// A character without its accent.
fn unaccent(c: char) -> (r: char)
    ensures
        r == unaccented(c),
{
    if c == 'á' || c == 'à' || c == 'â' || c == 'ã' {
        'a'
    } else if c == 'é' || c == 'è' || c == 'ê' {
        'e'
    } else if c == 'í' || c == 'ì' || c == 'î' {
        'i'
    } else if c == 'ó' || c == 'ò' || c == 'ô' || c == 'õ' {
        'o'
    } else if c == 'ú' || c == 'ù' || c == 'û' {
        'u'
    } else if c == 'ç' {
        'c'
    } else {
        c
    }
}

/// A client name normalised.
pub fn normalize_name(name: &str) -> (r: String)
    ensures
        r@ == normalized_name(name@),
{
    let t = str_trim(name);
    let l = to_lowercase(t.as_str());
    let cs = chars_of(l.as_str());
    let mut kept: Vec<char> = Vec::new();
    let mut i: usize = 0;
    while i < cs.len()
        invariant
            i <= cs@.len(),
            kept@ == name_chars(cs@.take(i as int)),
        decreases cs@.len() - i,
    {
        let c = cs[i];
        let ghost pre = cs@.take(i + 1);
        assert(pre.drop_last() == cs@.take(i as int));
        assert(pre.last() == c);
        if !(is_numeric(c) || c == '(' || c == ')') {
            kept.push(unaccent(c));
        }
        i = i + 1;
    }
    assert(cs@.take(cs@.len() as int) == cs@);
    let k = string_of(kept.as_slice());
    join_words(k.as_str())
}

/// The first client whose normalised name is `normalized`, with its folder.
pub open spec fn exact_client(m: Seq<(String, String)>, normalized: Seq<char>) -> Option<(Seq<char>, Seq<char>)>
    decreases m.len(),
{
    if m.len() == 0 {
        None
    } else if normalized_name(m[0].0@) == normalized {
        Some((m[0].0@, m[0].1@))
    } else {
        exact_client(m.drop_first(), normalized)
    }
}

/// The first client whose normalised name is `normalized_name`: its name and folder.
pub fn find_exact_match(mappings: &Vec<(String, String)>, normalized_name: &str) -> (r: Option<(String, String)>)
    ensures
        match r {
            Some((c, f)) => exact_client(mappings@, normalized_name@) == Some((c@, f@)),
            None => exact_client(mappings@, normalized_name@).is_none(),
        },
{
    let mut i: usize = 0;
    assert(mappings@.skip(0) == mappings@);
    while i < mappings.len()
        invariant
            i <= mappings@.len(),
            exact_client(mappings@, normalized_name@) == exact_client(mappings@.skip(i as int), normalized_name@),
        decreases mappings@.len() - i,
    {
        assert(mappings@.skip(i as int)[0] == mappings@[i as int]);
        let n = normalize_name(mappings[i].0.as_str());
        if str_eq(n.as_str(), normalized_name) {
            return Some((mappings[i].0.clone(), mappings[i].1.clone()));
        }
        assert(mappings@.skip(i as int).drop_first() == mappings@.skip(i + 1));
        i = i + 1;
    }
    None
}

/// Whether a client of the mapping has the same normalised name.
pub fn has_client(mappings: &Vec<(String, String)>, client_name: &str) -> (r: bool)
    ensures
        r == exact_client(mappings@, normalized_name(client_name@)).is_some(),
{
    let n = normalize_name(client_name);
    find_exact_match(mappings, n.as_str()).is_some()
}

/// The names of the mapped clients.
pub fn list_clients(mappings: &Vec<(String, String)>) -> (r: Vec<String>)
    ensures
        views(r@) == keys(mappings@),
{
    let mut r: Vec<String> = Vec::new();
    let mut i: usize = 0;
    while i < mappings.len()
        invariant
            i <= mappings@.len(),
            views(r@) == keys(mappings@).take(i as int),
        decreases mappings@.len() - i,
    {
        let ghost r0 = r@;
        r.push(mappings[i].0.clone());
        assert(views(r@) =~= views(r0).push(keys(mappings@)[i as int]));
        i = i + 1;
        assert(views(r@) =~= keys(mappings@).take(i as int));
    }
    assert(keys(mappings@).take(i as int) == keys(mappings@));
    r
}

/// The folder used when a client is not found and `FALLBACK_FOLDER_ID` is not set.
pub open spec fn default_fallback_folder() -> Seq<char> {
    "901320655648"@
}

/// The fallback folder: `FALLBACK_FOLDER_ID`, else the default.
pub fn fallback_folder_id(configured: Option<String>) -> (r: String)
    ensures
        r@ == match configured {
            Some(f) => f@,
            None => default_fallback_folder(),
        },
{
    match configured {
        Some(f) => f,
        None => owned("901320655648"),
    }
}

/// The mapping of a mapping file: its `dropdown_to_folder_mapping`, or the same under the
/// alias `cliente_solicitante_mappings`.
pub open spec fn mapping_member(y: JsonView) -> Option<JsonView> {
    match json_get(y, "dropdown_to_folder_mapping"@) {
        Some(v) => Some(v),
        None => json_get(y, "cliente_solicitante_mappings"@),
    }
}

/// Client → folder pairs of a mapping, when every folder is a string.
pub open spec fn string_pairs(m: Seq<(Seq<char>, JsonView)>) -> Option<Seq<(Seq<char>, Seq<char>)>>
    decreases m.len(),
{
    if m.len() == 0 {
        Some(Seq::empty())
    } else {
        match (string_pairs(m.drop_last()), m.last().1) {
            (Some(p), JsonView::Str(f)) => Some(p.push((m.last().0, f))),
            _ => None,
        }
    }
}

/// What a mapping file gives: client → folder pairs in document order, or nothing when the
/// mapping is missing or holds something other than strings.
pub open spec fn mappings_of_yaml(y: JsonView) -> Option<Seq<(Seq<char>, Seq<char>)>> {
    match mapping_member(y) {
        Some(JsonView::Object(m)) => string_pairs(m),
        _ => None,
    }
}

/// The view of client → folder pairs.
pub open spec fn pair_views(m: Seq<(String, String)>) -> Seq<(Seq<char>, Seq<char>)> {
    m.map_values(|p: (String, String)| (p.0@, p.1@))
}

impl ClienteMappings {
    /// The mapping of a parsed mapping file.
    pub fn from_yaml_value(y: &JsonValue) -> (r: Option<ClienteMappings>)
        ensures
            match r {
                Some(c) => mappings_of_yaml(y@) == Some(pair_views(c.dropdown_to_folder_mapping@)),
                None => mappings_of_yaml(y@).is_none(),
            },
    {
        let member = match y.get("dropdown_to_folder_mapping") {
            Some(v) => v,
            None => match y.get("cliente_solicitante_mappings") {
                Some(v) => v,
                None => return None,
            },
        };
        assert(mapping_member(y@) == Some(member@));
        match member {
            JsonValue::Object(m) => {
                let ghost mv = match member@ {
                    JsonView::Object(x) => x,
                    _ => Seq::empty(),
                };
                assert(mv.len() == m@.len());
                let mut out: Vec<(String, String)> = Vec::new();
                let mut i: usize = 0;
                while i < m.len()
                    invariant
                        i <= m@.len(),
                        mv.len() == m@.len(),
                        member@ == JsonView::Object(mv),
                        mapping_member(y@) == Some(member@),
                        forall|j: int| 0 <= j < m@.len() ==> #[trigger] mv[j] == (m@[j].0@, m@[j].1@),
                        string_pairs(mv.take(i as int)) == Some(pair_views(out@)),
                    decreases m@.len() - i,
                {
                    let ghost pre = mv.take(i + 1);
                    assert(pre.drop_last() == mv.take(i as int));
                    assert(pre.last() == mv[i as int]);
                    match &m[i].1 {
                        JsonValue::Str(f) => {
                            let ghost before = out@;
                            out.push((m[i].0.clone(), f.clone()));
                            assert(pair_views(out@) =~= pair_views(before).push((m@[i as int].0@, f@)));
                        },
                        _ => {
                            proof {
                                assert(mv[i as int].1 == m@[i as int].1@);
                                assert(!(mv[i as int].1 is Str));
                                lemma_string_pairs_none(mv, i as int);
                                assert(member@ == JsonView::Object(mv));
                            }
                            return None;
                        },
                    }
                    i = i + 1;
                }
                assert(mv.take(i as int) == mv);
                Some(ClienteMappings { dropdown_to_folder_mapping: out })
            },
            _ => None,
        }
    }
}

/// How every error of reading a mapping file begins.
pub open spec fn yaml_error_prefix() -> Seq<char> {
    "Falha ao parsear YAML: "@
}

/// The error for a YAML document without a mapping of client names to folder ids.
pub open spec fn mapping_shape_error() -> Seq<char> {
    "Falha ao parsear YAML: dropdown_to_folder_mapping ausente ou com valores que não são texto"@
}

impl ClienteMappings {
    /// The mapping in the text of a mapping file. A text that is not YAML gives
    /// `serde_yaml`'s message after the common prefix; a document without the mapping, or
    /// with a folder that is not a string, gives the shape error.
    pub fn parse_yaml(content: &str) -> (r: Result<ClienteMappings, String>)
        ensures
            match yaml_parse(content@) {
                None => r matches Err(e) && yaml_error_prefix().is_prefix_of(e@),
                Some(y) => match mappings_of_yaml(y) {
                    Some(p) => r matches Ok(c) && pair_views(c.dropdown_to_folder_mapping@) == p,
                    None => r matches Err(e) && e@ == mapping_shape_error(),
                },
            },
    {
        match parse_yaml_value(content) {
            Ok(y) => match Self::from_yaml_value(&y) {
                Some(c) => Ok(c),
                None => Err(owned(
                    "Falha ao parsear YAML: dropdown_to_folder_mapping ausente ou com valores que não são texto",
                )),
            },
            Err(e) => {
                let mut msg = owned("Falha ao parsear YAML: ");
                push_str(&mut msg, e.as_str());
                proof {
                    assert(msg@.subrange(0, yaml_error_prefix().len() as int) =~= yaml_error_prefix());
                }
                Err(msg)
            },
        }
    }
}

/// A member that is not a string spoils the pairs of every longer prefix.
proof fn lemma_string_pairs_none(m: Seq<(Seq<char>, JsonView)>, i: int)
    requires
        0 <= i < m.len(),
        !(m[i].1 is Str),
    ensures
        string_pairs(m).is_none(),
    decreases m.len(),
{
    if i == m.len() - 1 {
    } else {
        lemma_string_pairs_none(m.drop_last(), i);
    }
}

/// A client is found by its own normalised name, unless an earlier client normalises to
/// the same name.
pub proof fn lemma_equal_names_match(m: Seq<(String, String)>, i: int)
    requires
        0 <= i < m.len(),
        forall|j: int| 0 <= j < i ==> normalized_name(#[trigger] m[j].0@) != normalized_name(m[i].0@),
    ensures
        exact_client(m, normalized_name(m[i].0@)) == Some((m[i].0@, m[i].1@)),
    decreases i,
{
    if i > 0 {
        assert forall|j: int| 0 <= j < i - 1 implies normalized_name(#[trigger] m.drop_first()[j].0@)
            != normalized_name(m.drop_first()[i - 1].0@) by {
            assert(m.drop_first()[j] == m[j + 1]);
        }
        assert(m.drop_first()[i - 1] == m[i]);
        assert(normalized_name(m[0].0@) != normalized_name(m[i].0@));
        lemma_equal_names_match(m.drop_first(), i - 1);
    }
}

// ---------------------------------------------------------------------------------------
// Accents

/// An accented Portuguese letter: á à â ã é è ê í ì î ó ò ô õ ú ù û or ç.
pub open spec fn accented_letter(c: char) -> bool {
    c == 'á' || c == 'à' || c == 'â' || c == 'ã' || c == 'é' || c == 'è' || c == 'ê' || c == 'í' || c == 'ì' || c == 'î' || c == 'ó' || c == 'ò' || c == 'ô' || c == 'õ' || c == 'ú' || c == 'ù' || c == 'û' || c == 'ç'
}

/// Whether no character of `s` is an accented Portuguese letter.
pub open spec fn without_accents(s: Seq<char>) -> bool {
    forall|i: int| 0 <= i < s.len() ==> !accented_letter(#[trigger] s[i])
}

/// The characters kept by normalisation carry no accent.
proof fn lemma_name_chars_without_accents(s: Seq<char>)
    ensures
        without_accents(name_chars(s)),
    decreases s.len(),
{
    if s.len() > 0 {
        lemma_name_chars_without_accents(s.drop_last());
        let r = name_chars(s.drop_last());
        let c = s.last();
        if !(numeric(c) || c == '(' || c == ')') {
            assert forall|i: int| 0 <= i < r.push(unaccented(c)).len() implies !accented_letter(
                #[trigger] r.push(unaccented(c))[i],
            ) by {
                if i < r.len() {
                    assert(r.push(unaccented(c))[i] == r[i]);
                }
            }
        }
    }
}

/// Squeezing white space adds only spaces.
proof fn lemma_squeezed_without_accents(s: Seq<char>)
    requires
        without_accents(s),
    ensures
        without_accents(squeezed(s)),
    decreases s.len(),
{
    if s.len() > 0 {
        let p = s.drop_last();
        assert forall|i: int| 0 <= i < p.len() implies !accented_letter(#[trigger] p[i]) by {
            assert(p[i] == s[i]);
        }
        lemma_squeezed_without_accents(p);
        let q = squeezed(p);
        let c = s.last();
        assert(!accented_letter(c)) by {
            assert(s[s.len() - 1] == c);
        }
        let q2 = squeeze_step(q, c);
        assert forall|i: int| 0 <= i < q2.len() implies !accented_letter(#[trigger] q2[i]) by {
            if i < q.len() {
                assert(q2[i] == q[i]);
            }
        }
    }
}

/// A normalised client name carries no accent at all: every accented Portuguese letter of
/// the name has been replaced, whatever the name.
pub proof fn law_normalized_name_without_accents(name: Seq<char>)
    ensures
        without_accents(normalized_name(name)),
{
    let s = name_chars(lowercase(trim(name)));
    lemma_name_chars_without_accents(lowercase(trim(name)));
    lemma_squeezed_without_accents(s);
    let q = squeezed(s);
    if q.len() > 0 && q.last() == ' ' {
        assert forall|i: int| 0 <= i < q.drop_last().len() implies !accented_letter(#[trigger] q.drop_last()[i]) by {
            assert(q.drop_last()[i] == q[i]);
        }
    }
}

/// Normalisation writes each accented Portuguese letter as its plain letter: á à â ã as
/// a, é è ê as e, í ì î as i, ó ò ô õ as o, ú ù û as u and ç as c (none of them is a
/// number, which normalisation drops).
pub proof fn law_accents_become_plain_letters(s: Seq<char>)
    ensures
        !numeric('á') ==> name_chars(s.push('á')) == name_chars(s).push('a'),
        !numeric('à') ==> name_chars(s.push('à')) == name_chars(s).push('a'),
        !numeric('â') ==> name_chars(s.push('â')) == name_chars(s).push('a'),
        !numeric('ã') ==> name_chars(s.push('ã')) == name_chars(s).push('a'),
        !numeric('é') ==> name_chars(s.push('é')) == name_chars(s).push('e'),
        !numeric('è') ==> name_chars(s.push('è')) == name_chars(s).push('e'),
        !numeric('ê') ==> name_chars(s.push('ê')) == name_chars(s).push('e'),
        !numeric('í') ==> name_chars(s.push('í')) == name_chars(s).push('i'),
        !numeric('ì') ==> name_chars(s.push('ì')) == name_chars(s).push('i'),
        !numeric('î') ==> name_chars(s.push('î')) == name_chars(s).push('i'),
        !numeric('ó') ==> name_chars(s.push('ó')) == name_chars(s).push('o'),
        !numeric('ò') ==> name_chars(s.push('ò')) == name_chars(s).push('o'),
        !numeric('ô') ==> name_chars(s.push('ô')) == name_chars(s).push('o'),
        !numeric('õ') ==> name_chars(s.push('õ')) == name_chars(s).push('o'),
        !numeric('ú') ==> name_chars(s.push('ú')) == name_chars(s).push('u'),
        !numeric('ù') ==> name_chars(s.push('ù')) == name_chars(s).push('u'),
        !numeric('û') ==> name_chars(s.push('û')) == name_chars(s).push('u'),
        !numeric('ç') ==> name_chars(s.push('ç')) == name_chars(s).push('c'),
{
    assert(s.push('á').drop_last() == s);
    assert(s.push('à').drop_last() == s);
    assert(s.push('â').drop_last() == s);
    assert(s.push('ã').drop_last() == s);
    assert(s.push('é').drop_last() == s);
    assert(s.push('è').drop_last() == s);
    assert(s.push('ê').drop_last() == s);
    assert(s.push('í').drop_last() == s);
    assert(s.push('ì').drop_last() == s);
    assert(s.push('î').drop_last() == s);
    assert(s.push('ó').drop_last() == s);
    assert(s.push('ò').drop_last() == s);
    assert(s.push('ô').drop_last() == s);
    assert(s.push('õ').drop_last() == s);
    assert(s.push('ú').drop_last() == s);
    assert(s.push('ù').drop_last() == s);
    assert(s.push('û').drop_last() == s);
    assert(s.push('ç').drop_last() == s);
}

} // verus!
