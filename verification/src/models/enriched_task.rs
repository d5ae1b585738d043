//! A task of ClickUp summarised for the classifier, which looks for duplicates.

use vstd::prelude::*;
use crate::json::{json_get, str_at, JsonValue, JsonView};
use crate::keyed::{insert_view, lemma_insert_view, map_insert, map_view};
use crate::services::prompts::opt_view;
use crate::text::{chars_of, joined, owned, parse_i64, parse_i64_spec, push_str, str_eq};

verus! {

/// A task of ClickUp as the classifier sees it.
#[derive(Debug, Clone)]
pub struct EnrichedTask {
    pub title: String,
    /// Creation time in milliseconds.
    pub created_at: i64,
    /// The first 200 characters of the description.
    pub description_preview: String,
    pub category: Option<String>,
    pub subcategory: Option<String>,
    pub status: String,
    /// Custom field name → value as text.
    pub custom_fields: Vec<(String, String)>,
}

/// The items of an optional array value.
pub open spec fn array_items(v: Option<JsonView>) -> Seq<JsonView> {
    match v {
        Some(JsonView::Array(a)) => a,
        _ => Seq::empty(),
    }
}

/// The name that a dropdown value holds: the string itself, or the `name` of the first
/// option of an array.
pub open spec fn option_name(v: Option<JsonView>) -> Option<Seq<char>> {
    match v {
        Some(JsonView::Str(s)) => Some(s),
        Some(JsonView::Array(a)) => if a.len() > 0 {
            str_at(a[0], "name"@)
        } else {
            None
        },
        _ => None,
    }
}

/// The category or subcategory after reading the fields: the last field with the id and a
/// name in its value decides.
pub open spec fn field_option(fields: Seq<JsonView>, id: Seq<char>) -> Option<Seq<char>>
    decreases fields.len(),
{
    if fields.len() == 0 {
        None
    } else {
        let f = fields.last();
        let earlier = field_option(fields.drop_last(), id);
        if str_at(f, "id"@) == Some(id) {
            match option_name(json_get(f, "value"@)) {
                Some(n) => Some(n),
                None => earlier,
            }
        } else {
            earlier
        }
    }
}

/// The `name`s of the items that have a string one.
pub open spec fn item_names(items: Seq<JsonView>) -> Seq<Seq<char>>
    decreases items.len(),
{
    if items.len() == 0 {
        Seq::empty()
    } else {
        match str_at(items.last(), "name"@) {
            Some(n) => item_names(items.drop_last()).push(n),
            None => item_names(items.drop_last()),
        }
    }
}

/// A custom field's value as text: a string, a number's text, the names of the options of
/// an array joined by commas, or nothing.
pub open spec fn value_text(v: Option<JsonView>) -> Seq<char> {
    match v {
        Some(JsonView::Str(s)) => s,
        Some(JsonView::Number(n)) => n,
        Some(JsonView::Array(a)) => joined(item_names(a), ", "@),
        _ => Seq::empty(),
    }
}

/// The map of custom field names to their values as text, for the fields with an id and a
/// name, later fields replacing earlier ones of the same name.
pub open spec fn field_texts(fields: Seq<JsonView>) -> Seq<(Seq<char>, Seq<char>)>
    decreases fields.len(),
{
    if fields.len() == 0 {
        Seq::empty()
    } else {
        let m = field_texts(fields.drop_last());
        let f = fields.last();
        match (str_at(f, "id"@), str_at(f, "name"@)) {
            (Some(_), Some(name)) => insert_view(m, name, value_text(json_get(f, "value"@))),
            _ => m,
        }
    }
}

/// The description text: `description`, else `text_content`.
pub open spec fn description_text(t: JsonView) -> Option<Seq<char>> {
    match str_at(t, "description"@) {
        Some(d) => Some(d),
        None => str_at(t, "text_content"@),
    }
}

/// The summary of a task.
pub open spec fn enriched_of(t: JsonView, category_field_id: Seq<char>, subcategory_field_id: Seq<char>, e: EnrichedTask) -> bool {
    let fields = array_items(json_get(t, "custom_fields"@));
    &&& e.title@ == match str_at(t, "name"@) {
        Some(n) => n,
        None => Seq::empty(),
    }
    &&& e.created_at == match str_at(t, "date_created"@) {
        Some(s) => match parse_i64_spec(s) {
            Some(v) => v,
            None => 0,
        },
        None => 0,
    }
    &&& e.description_preview@ == match description_text(t) {
        Some(d) => d.take(if d.len() < 200 { d.len() as int } else { 200 }),
        None => Seq::empty(),
    }
    &&& e.status@ == match json_get(t, "status"@) {
        Some(s) => match str_at(s, "status"@) {
            Some(st) => st,
            None => "unknown"@,
        },
        None => "unknown"@,
    }
    &&& opt_view(e.category) == field_option(fields, category_field_id)
    &&& opt_view(e.subcategory) == (if category_field_id == subcategory_field_id {
        None
    } else {
        field_option(fields, subcategory_field_id)
    })
    &&& map_view(e.custom_fields@, |s: String| s@) == field_texts(fields)
}

/// The string member `key` of `v`.
fn string_member(v: &JsonValue, key: &str) -> (r: Option<String>)
    ensures
        opt_view(r) == str_at(v@, key@),
{
    match v.get(key) {
        Some(x) => match x.as_str() {
            Some(s) => Some(s.clone()),
            None => None,
        },
        None => None,
    }
}

/// The name that a dropdown value holds.
fn option_name_of(v: Option<&JsonValue>) -> (r: Option<String>)
    ensures
        opt_view(r) == option_name(match v {
            Some(x) => Some(x@),
            None => None,
        }),
{
    match v {
        Some(JsonValue::Str(s)) => Some(s.clone()),
        Some(JsonValue::Array(a)) => if a.len() > 0 {
            string_member(&a[0], "name")
        } else {
            None
        },
        _ => None,
    }
}

/// The names of the items that have a string one, joined by commas.
fn joined_item_names(items: &Vec<JsonValue>) -> (r: String)
    ensures
        r@ == joined(item_names(items@.map_values(|x: JsonValue| x@)), ", "@),
{
    let ghost iv = items@.map_values(|x: JsonValue| x@);
    let mut names: Vec<String> = Vec::new();
    let mut i: usize = 0;
    while i < items.len()
        invariant
            i <= items@.len(),
            iv == items@.map_values(|x: JsonValue| x@),
            names@.map_values(|s: String| s@) == item_names(iv.take(i as int)),
        decreases items@.len() - i,
    {
        let ghost pre = iv.take(i + 1);
        assert(pre.drop_last() == iv.take(i as int));
        assert(pre.last() == items@[i as int]@);
        let ghost n0 = names@;
        match string_member(&items[i], "name") {
            Some(n) => {
                names.push(n);
                assert(names@.map_values(|s: String| s@) =~= n0.map_values(|s: String| s@).push(names@.last()@));
            },
            None => {},
        }
        i = i + 1;
    }
    assert(iv.take(i as int) == iv);
    let ghost q = names@.map_values(|s: String| s@);
    let mut out = String::new();
    let mut k: usize = 0;
    while k < names.len()
        invariant
            k <= names@.len(),
            q == names@.map_values(|s: String| s@),
            out@ == joined(q.take(k as int), ", "@),
        decreases names@.len() - k,
    {
        assert(q.take(k + 1).drop_last() == q.take(k as int));
        if k > 0 {
            push_str(&mut out, ", ");
        }
        push_str(&mut out, names[k].as_str());
        k = k + 1;
    }
    assert(q.take(k as int) == q);
    out
}

/// A custom field's value as text.
fn value_text_of(v: Option<&JsonValue>) -> (r: String)
    ensures
        r@ == value_text(match v {
            Some(x) => Some(x@),
            None => None,
        }),
{
    match v {
        Some(JsonValue::Str(s)) => s.clone(),
        Some(JsonValue::Number(n)) => n.clone(),
        Some(JsonValue::Array(a)) => {
            let r = joined_item_names(a);
            proof {
                if let JsonView::Array(av) = v.unwrap()@ {
                    assert(av =~= a@.map_values(|x: JsonValue| x@));
                }
            }
            r
        },
        _ => String::new(),
    }
}

impl EnrichedTask {
    /// The summary of a task given as ClickUp's JSON, with the category and subcategory read
    /// from the fields with the given ids.
    pub fn from_clickup_task_json(task: &JsonValue, category_field_id: &str, subcategory_field_id: &str) -> (r: Self)
        ensures
            enriched_of(task@, category_field_id@, subcategory_field_id@, r),
    {
        let title = match string_member(task, "name") {
            Some(n) => n,
            None => String::new(),
        };
        let created_at = match string_member(task, "date_created") {
            Some(s) => match parse_i64(s.as_str()) {
                Some(v) => v,
                None => 0,
            },
            None => 0,
        };
        let desc = match string_member(task, "description") {
            Some(d) => Some(d),
            None => string_member(task, "text_content"),
        };
        let description_preview = match desc {
            Some(d) => {
                let cs = chars_of(d.as_str());
                let n = if cs.len() < 200 {
                    cs.len()
                } else {
                    200
                };
                let mut p = String::new();
                let mut i: usize = 0;
                while i < n
                    invariant
                        n <= cs@.len(),
                        i <= n,
                        p@ == cs@.take(i as int),
                    decreases n - i,
                {
                    crate::text::push_char(&mut p, cs[i]);
                    i = i + 1;
                    assert(p@ =~= cs@.take(i as int));
                }
                p
            },
            None => String::new(),
        };
        let status = match task.get("status") {
            Some(s) => match string_member(s, "status") {
                Some(st) => st,
                None => owned("unknown"),
            },
            None => owned("unknown"),
        };
        let mut category: Option<String> = None;
        let mut subcategory: Option<String> = None;
        let mut custom_fields: Vec<(String, String)> = Vec::new();
        assert(map_view(custom_fields@, |s: String| s@) =~= Seq::empty());
        let same_ids = str_eq(category_field_id, subcategory_field_id);
        match task.get("custom_fields") {
            Some(JsonValue::Array(fields)) => {
                let ghost fv = array_items(json_get(task@, "custom_fields"@));
                proof {
                    if let Some(cf) = json_get(task@, "custom_fields"@) {
                        if let JsonView::Array(a) = cf {
                            assert(a =~= fields@.map_values(|x: JsonValue| x@));
                        }
                    }
                }
                assert(fv == fields@.map_values(|x: JsonValue| x@));
                let mut i: usize = 0;
                while i < fields.len()
                    invariant
                        i <= fields@.len(),
                        fv == fields@.map_values(|x: JsonValue| x@),
                        same_ids == (category_field_id@ == subcategory_field_id@),
                        opt_view(category) == field_option(fv.take(i as int), category_field_id@),
                        opt_view(subcategory) == (if same_ids {
                            None
                        } else {
                            field_option(fv.take(i as int), subcategory_field_id@)
                        }),
                        map_view(custom_fields@, |s: String| s@) == field_texts(fv.take(i as int)),
                    decreases fields@.len() - i,
                {
                    let f = &fields[i];
                    let ghost pre = fv.take(i + 1);
                    assert(pre.drop_last() == fv.take(i as int));
                    assert(pre.last() == f@);
                    let id = string_member(f, "id");
                    match &id {
                        Some(fid) => {
                            if str_eq(fid.as_str(), category_field_id) {
                                if let Some(n) = option_name_of(f.get("value")) {
                                    category = Some(n);
                                }
                            } else if str_eq(fid.as_str(), subcategory_field_id) {
                                if let Some(n) = option_name_of(f.get("value")) {
                                    subcategory = Some(n);
                                }
                            }
                        },
                        None => {},
                    }
                    let name = string_member(f, "name");
                    match (id, name) {
                        (Some(_), Some(name)) => {
                            let value = value_text_of(f.get("value"));
                            proof {
                                lemma_insert_view(custom_fields@, name, value, |s: String| s@);
                            }
                            map_insert(&mut custom_fields, name, value);
                        },
                        _ => {},
                    }
                    i = i + 1;
                }
                assert(fv.take(i as int) == fv);
            },
            _ => {},
        }
        EnrichedTask { title, created_at, description_preview, category, subcategory, status, custom_fields }
    }
}

} // verus!
