//! The option ids of ClickUp's category and subcategory fields, read from the prompt
//! configuration file.

use vstd::prelude::*;
use crate::json::{json_get, str_at, JsonValue, JsonView};
use crate::keyed::{insert_view, lemma_insert_view, lookup, map_insert, map_position, map_view};
use crate::services::prompts::opt_view;
use crate::text::{owned, parse_u64_spec};

verus! {

/// A subcategory option.
#[derive(Debug, Clone)]
pub struct SubcategoryInfo {
    pub id: String,
    pub name: String,
    pub stars: u8,
}

/// The option ids of the category and subcategory fields.
#[derive(Debug, Clone)]
pub struct CustomFieldsMappings {
    /// Category name → option id.
    pub categories: Vec<(String, String)>,
    /// Subcategory name → option.
    pub subcategories: Vec<(String, SubcategoryInfo)>,
    /// The category field.
    pub category_field_id: String,
    /// The subcategory field.
    pub subcategory_field_id: String,
    /// The stars (rating) field.
    pub stars_field_id: Option<String>,
}

/// A subcategory option as id, name and stars.
pub open spec fn info_view(i: SubcategoryInfo) -> (Seq<char>, Seq<char>, u8) {
    (i.id@, i.name@, i.stars)
}

/// What `serde_yaml` parses from a text, as a tree of values: mappings become objects
/// (members in document order, a key that is not a string read as an empty key), tagged
/// values their inner value, numbers the text that `serde_yaml` prints for them; nothing
/// for an invalid document.
pub uninterp spec fn yaml_parse(text: Seq<char>) -> Option<JsonView>;

/// Declares `serde_yaml::Value` to the verifier.
#[verifier::external_type_specification]
#[verifier::external_body]
pub struct ExSerdeYamlValue(serde_yaml::Value);

/// Converts a `serde_yaml::Value` into the library's value, variant by variant.
#[verifier::external_body]
fn from_yaml(v: serde_yaml::Value) -> JsonValue {
    match v {
        serde_yaml::Value::Null => JsonValue::Null,
        serde_yaml::Value::Bool(b) => JsonValue::Bool(b),
        serde_yaml::Value::Number(n) => JsonValue::Number(n.to_string()),
        serde_yaml::Value::String(s) => JsonValue::Str(s),
        serde_yaml::Value::Sequence(a) => JsonValue::Array(a.into_iter().map(from_yaml).collect()),
        serde_yaml::Value::Mapping(m) => JsonValue::Object(
            m.into_iter().map(|(k, x)| (k.as_str().unwrap_or("").to_string(), from_yaml(x))).collect(),
        ),
        serde_yaml::Value::Tagged(t) => from_yaml(t.value),
    }
}

/// Parses `text` as YAML with `serde_yaml::from_str`. On failure the error is
/// `serde_yaml`'s message, whose text is not stated.
#[verifier::external_body]
pub(crate) fn parse_yaml_value(text: &str) -> (r: Result<JsonValue, String>)
    ensures
        match r {
            Ok(v) => yaml_parse(text@) == Some(v@),
            Err(_) => yaml_parse(text@) == None::<JsonView>,
        },
{
    serde_yaml::from_str::<serde_yaml::Value>(text).map(from_yaml).map_err(|e| e.to_string())
}

/// The items of an array, none for anything else.
pub open spec fn items_of(v: Option<JsonView>) -> Seq<JsonView> {
    match v {
        Some(JsonView::Array(a)) => a,
        _ => Seq::empty(),
    }
}

/// The member `key` of an optional value.
pub open spec fn get_in(v: Option<JsonView>, key: Seq<char>) -> Option<JsonView> {
    match v {
        Some(x) => json_get(x, key),
        None => None,
    }
}

/// The string member `key` of an optional value.
pub open spec fn str_in(v: Option<JsonView>, key: Seq<char>) -> Option<Seq<char>> {
    match v {
        Some(x) => str_at(x, key),
        None => None,
    }
}

/// The first category field of the configuration.
pub open spec fn first_category_field(y: JsonView) -> Option<JsonView> {
    let items = items_of(json_get(y, "category_mappings"@));
    if items.len() > 0 {
        Some(items[0])
    } else {
        None
    }
}

/// The category map that the options give: name → id, later options replacing earlier
/// ones of the same name, options without a string id and name skipped.
pub open spec fn category_options(m: Seq<(Seq<char>, Seq<char>)>, opts: Seq<JsonView>) -> Seq<(Seq<char>, Seq<char>)>
    decreases opts.len(),
{
    if opts.len() == 0 {
        m
    } else {
        let m2 = category_options(m, opts.drop_last());
        let o = opts.last();
        match (str_at(o, "id"@), str_at(o, "name"@)) {
            (Some(id), Some(name)) => insert_view(m2, name, id),
            _ => m2,
        }
    }
}

/// The stars of a subcategory item, as `as_u64` reads them.
pub open spec fn stars_of(v: JsonView) -> Option<u64> {
    match json_get(v, "stars"@) {
        Some(JsonView::Number(n)) => parse_u64_spec(n),
        _ => None,
    }
}

/// The subcategory map after the items of one category: name → (id, name, stars cut to
/// a byte), items without a name, id and whole number of stars skipped.
pub open spec fn subcategory_items(m: Seq<(Seq<char>, (Seq<char>, Seq<char>, u8))>, items: Seq<JsonView>) -> Seq<(Seq<char>, (Seq<char>, Seq<char>, u8))>
    decreases items.len(),
{
    if items.len() == 0 {
        m
    } else {
        let m2 = subcategory_items(m, items.drop_last());
        let s = items.last();
        match (str_at(s, "name"@), str_at(s, "id"@), stars_of(s)) {
            (Some(name), Some(id), Some(st)) => insert_view(m2, name, (id, name, (st % 256) as u8)),
            _ => m2,
        }
    }
}

/// The subcategory map after the categories of the mapping, in order.
pub open spec fn subcategory_members(m: Seq<(Seq<char>, (Seq<char>, Seq<char>, u8))>, members: Seq<(Seq<char>, JsonView)>) -> Seq<(Seq<char>, (Seq<char>, Seq<char>, u8))>
    decreases members.len(),
{
    if members.len() == 0 {
        m
    } else {
        subcategory_items(subcategory_members(m, members.drop_last()), items_of(Some(members.last().1)))
    }
}

/// The members of a mapping, none for anything else.
pub open spec fn members_of(v: Option<JsonView>) -> Seq<(Seq<char>, JsonView)> {
    match v {
        Some(JsonView::Object(m)) => m,
        _ => Seq::empty(),
    }
}

/// Whether `c` holds the mappings that the configuration gives.
pub open spec fn mappings_of(y: JsonView, c: CustomFieldsMappings) -> bool {
    let first = first_category_field(y);
    let field_ids = json_get(y, "field_ids"@);
    &&& str_in(first, "id"@) == Some(c.category_field_id@)
    &&& c.subcategory_field_id@ == match str_in(field_ids, "subcategory_field_id"@) {
        Some(s) => s,
        None => "5333c095-eb40-4a5a-b0c2-76bfba4b1094"@,
    }
    &&& opt_view(c.stars_field_id) == str_in(field_ids, "stars_field_id"@)
    &&& map_view(c.categories@, |s: String| s@) == category_options(
        Seq::empty(),
        items_of(get_in(get_in(first, "type_config"@), "options"@)),
    )
    &&& map_view(c.subcategories@, |i: SubcategoryInfo| info_view(i)) == subcategory_members(
        Seq::empty(),
        members_of(json_get(y, "subcategory_mappings"@)),
    )
}

/// The string member `key` of `v`.
fn string_member(v: &JsonValue, key: &str) -> (r: Option<String>)
    ensures
        opt_view(r) == str_at(v@, key@),
{
    match v.get(key) {
        Some(x) => match x.as_str() {
            Some(s) => Some(s.clone()),
            None => None,
        },
        None => None,
    }
}

/// Adds the category options.
fn add_category_options(m: &mut Vec<(String, String)>, opts: &Vec<JsonValue>)
    ensures
        map_view(final(m)@, |s: String| s@) == category_options(
            map_view(old(m)@, |s: String| s@),
            opts@.map_values(|o: JsonValue| o@),
        ),
{
    let ghost start = map_view(m@, |s: String| s@);
    let ghost ov = opts@.map_values(|o: JsonValue| o@);
    let mut i: usize = 0;
    while i < opts.len()
        invariant
            i <= opts@.len(),
            ov == opts@.map_values(|o: JsonValue| o@),
            map_view(m@, |s: String| s@) == category_options(start, ov.take(i as int)),
        decreases opts@.len() - i,
    {
        let ghost pre = ov.take(i + 1);
        assert(pre.drop_last() == ov.take(i as int));
        assert(pre.last() == opts@[i as int]@);
        let id = string_member(&opts[i], "id");
        let name = string_member(&opts[i], "name");
        match (id, name) {
            (Some(id), Some(name)) => {
                proof {
                    lemma_insert_view(m@, name, id, |s: String| s@);
                }
                map_insert(m, name, id);
            },
            _ => {},
        }
        i = i + 1;
    }
    assert(ov.take(i as int) == ov);
}

/// Adds the subcategories of one category.
fn add_subcategory_items(m: &mut Vec<(String, SubcategoryInfo)>, items: &Vec<JsonValue>)
    ensures
        map_view(final(m)@, |i: SubcategoryInfo| info_view(i)) == subcategory_items(
            map_view(old(m)@, |i: SubcategoryInfo| info_view(i)),
            items@.map_values(|o: JsonValue| o@),
        ),
{
    let ghost start = map_view(m@, |i: SubcategoryInfo| info_view(i));
    let ghost iv = items@.map_values(|o: JsonValue| o@);
    let mut i: usize = 0;
    while i < items.len()
        invariant
            i <= items@.len(),
            iv == items@.map_values(|o: JsonValue| o@),
            map_view(m@, |i: SubcategoryInfo| info_view(i)) == subcategory_items(start, iv.take(i as int)),
        decreases items@.len() - i,
    {
        let ghost pre = iv.take(i + 1);
        assert(pre.drop_last() == iv.take(i as int));
        assert(pre.last() == items@[i as int]@);
        let name = string_member(&items[i], "name");
        let id = string_member(&items[i], "id");
        let stars = match items[i].get("stars") {
            Some(v) => v.as_u64(),
            None => None,
        };
        assert(stars == stars_of(items@[i as int]@));
        match (name, id, stars) {
            (Some(name), Some(id), Some(st)) => {
                let info = SubcategoryInfo { id, name: name.clone(), stars: (st % 256) as u8 };
                proof {
                    lemma_insert_view(m@, name, info, |i: SubcategoryInfo| info_view(i));
                }
                map_insert(m, name, info);
            },
            _ => {},
        }
        i = i + 1;
    }
    assert(iv.take(i as int) == iv);
}

impl CustomFieldsMappings {
    /// The mappings that a parsed configuration gives; an error when it has no id for its
    /// first category field.
    pub fn from_yaml_value(y: &JsonValue) -> (r: Result<Self, String>)
        ensures
            match r {
                Ok(c) => mappings_of(y@, c),
                Err(e) => str_in(first_category_field(y@), "id"@).is_none()
                    && e@ == "Campo category_mappings[0].id não encontrado"@,
            },
    {
        let first: Option<&JsonValue> = match y.get("category_mappings") {
            Some(cm) => match cm.as_array() {
                Some(a) => if a.len() > 0 {
                    Some(&a[0])
                } else {
                    None
                },
                None => None,
            },
            None => None,
        };
        proof {
            assert(match first {
                Some(f) => first_category_field(y@) == Some(f@),
                None => first_category_field(y@).is_none(),
            });
        }
        let category_field_id = match first {
            Some(f) => string_member(f, "id"),
            None => None,
        };
        let category_field_id = match category_field_id {
            Some(id) => id,
            None => {
                return Err(owned("Campo category_mappings[0].id não encontrado"));
            },
        };
        let (sub_field, stars_field) = match y.get("field_ids") {
            Some(f) => (string_member(f, "subcategory_field_id"), string_member(f, "stars_field_id")),
            None => (None, None),
        };
        let subcategory_field_id = match sub_field {
            Some(s) => s,
            None => owned("5333c095-eb40-4a5a-b0c2-76bfba4b1094"),
        };
        let mut categories: Vec<(String, String)> = Vec::new();
        assert(map_view(categories@, |s: String| s@) =~= Seq::empty());
        let opts: Option<&Vec<JsonValue>> = match first {
            Some(f) => match f.get("type_config") {
                Some(tc) => match tc.get("options") {
                    Some(o) => o.as_array(),
                    None => None,
                },
                None => None,
            },
            None => None,
        };
        match opts {
            Some(o) => {
                add_category_options(&mut categories, o);
                assert(o@.map_values(|x: JsonValue| x@) == items_of(get_in(get_in(first_category_field(y@), "type_config"@), "options"@)));
            },
            None => {},
        }
        let mut subcategories: Vec<(String, SubcategoryInfo)> = Vec::new();
        assert(map_view(subcategories@, |i: SubcategoryInfo| info_view(i)) =~= Seq::empty());
        match y.get("subcategory_mappings") {
            Some(JsonValue::Object(members)) => {
                let ghost mv = members_of(json_get(y@, "subcategory_mappings"@));
                let mut k: usize = 0;
                while k < members.len()
                    invariant
                        k <= members@.len(),
                        mv.len() == members@.len(),
                        forall|j: int| 0 <= j < members@.len() ==> mv[j] == (#[trigger] members@[j].0@, members@[j].1@),
                        map_view(subcategories@, |i: SubcategoryInfo| info_view(i)) == subcategory_members(
                            Seq::empty(),
                            mv.take(k as int),
                        ),
                    decreases members@.len() - k,
                {
                    let ghost pre = mv.take(k + 1);
                    assert(pre.drop_last() == mv.take(k as int));
                    assert(pre.last() == mv[k as int]);
                    assert(mv[k as int] == (members@[k as int].0@, members@[k as int].1@));
                    match members[k].1.as_array() {
                        Some(items) => {
                            add_subcategory_items(&mut subcategories, items);
                            proof {
                                if let JsonView::Array(a) = members@[k as int].1@ {
                                    assert(a =~= items@.map_values(|x: JsonValue| x@));
                                }
                            }
                        },
                        None => {},
                    }
                    k = k + 1;
                }
                assert(mv.take(k as int) == mv);
            },
            _ => {},
        }
        Ok(CustomFieldsMappings {
            categories,
            subcategories,
            category_field_id,
            subcategory_field_id,
            stars_field_id: stars_field,
        })
    }

    /// The mappings in a configuration text: `serde_yaml`'s error for a text that is not YAML,
    /// else as [`Self::from_yaml_value`] reads the document.
    pub fn parse_yaml(content: &str) -> (r: Result<Self, String>)
        ensures
            match yaml_parse(content@) {
                None => r is Err,
                Some(y) => match str_in(first_category_field(y), "id"@) {
                    None => r matches Err(e) && e@ == "Campo category_mappings[0].id não encontrado"@,
                    Some(_) => r matches Ok(c) && mappings_of(y, c),
                },
            },
    {
        match parse_yaml_value(content) {
            Ok(y) => Self::from_yaml_value(&y),
            Err(e) => Err(e),
        }
    }

    /// The option id of a category.
    pub fn get_category_id(&self, name: &str) -> (r: Option<&String>)
        ensures
            match r {
                Some(id) => lookup(self.categories@, name@) == Some(*id),
                None => lookup(self.categories@, name@).is_none(),
            },
    {
        match map_position(&self.categories, name) {
            Some(i) => Some(&self.categories[i].1),
            None => None,
        }
    }

    /// The option of a subcategory.
    pub fn get_subcategory_info(&self, name: &str) -> (r: Option<&SubcategoryInfo>)
        ensures
            match r {
                Some(info) => lookup(self.subcategories@, name@) == Some(*info),
                None => lookup(self.subcategories@, name@).is_none(),
            },
    {
        match map_position(&self.subcategories, name) {
            Some(i) => Some(&self.subcategories[i].1),
            None => None,
        }
    }

    /// The stars of a subcategory.
    pub fn get_stars(&self, subcategory_name: &str) -> (r: Option<u8>)
        ensures
            r == match lookup(self.subcategories@, subcategory_name@) {
                Some(info) => Some(info.stars),
                None => None,
            },
    {
        match self.get_subcategory_info(subcategory_name) {
            Some(info) => Some(info.stars),
            None => None,
        }
    }
}

} // verus!
