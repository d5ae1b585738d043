//! Reading a ClickUp task and checking whether its classification fields are filled.

use vstd::prelude::*;
use crate::json::{json_get, json_str, str_at, JsonValue, JsonView};
use crate::text::{owned, parse_i64_spec, str_eq, push_str};
use crate::services::prompts::AiPromptConfig;

verus! {

/// A custom field of a task.
#[derive(Debug)]
pub struct CustomFieldValue {
    pub id: String,
    pub name: Option<String>,
    pub value: Option<JsonValue>,
}

/// The fields of a ClickUp task that the enrichment reads.
#[derive(Debug)]
pub struct TaskInfo {
    pub id: String,
    pub name: String,
    pub description: Option<String>,
    pub custom_fields: Vec<CustomFieldValue>,
}

/// View of a custom field: id, name and value.
pub open spec fn cf_view(c: CustomFieldValue) -> (Seq<char>, Option<Seq<char>>, Option<JsonView>) {
    (c.id@, crate::services::prompts::opt_view(c.name), match c.value {
        Some(v) => Some(v@),
        None => None,
    })
}

/// The custom field that a JSON item gives: items without a string `id` give none.
pub open spec fn cf_of(item: JsonView) -> Option<(Seq<char>, Option<Seq<char>>, Option<JsonView>)> {
    match str_at(item, "id"@) {
        Some(id) => Some((id, str_at(item, "name"@), json_get(item, "value"@))),
        None => None,
    }
}

/// The custom fields of the items, skipping those without an id.
pub open spec fn cfs_of(items: Seq<JsonView>) -> Seq<(Seq<char>, Option<Seq<char>>, Option<JsonView>)>
    decreases items.len(),
{
    if items.len() == 0 {
        Seq::empty()
    } else {
        match cf_of(items.last()) {
            Some(c) => cfs_of(items.drop_last()).push(c),
            None => cfs_of(items.drop_last()),
        }
    }
}

/// The task description: `description`, or `text_content` when there is no `description`
/// member, taken when it is a string.
pub open spec fn description_of(t: JsonView) -> Option<Seq<char>> {
    match json_get(t, "description"@) {
        Some(d) => json_str(Some(d)),
        None => str_at(t, "text_content"@),
    }
}

/// The custom fields of a task: the items of its `custom_fields` array, if it has one.
pub open spec fn task_cfs(t: JsonView) -> Seq<(Seq<char>, Option<Seq<char>>, Option<JsonView>)> {
    match json_get(t, "custom_fields"@) {
        Some(JsonView::Array(items)) => cfs_of(items),
        _ => Seq::empty(),
    }
}

/// Reads one custom field item.
fn read_cf(item: &JsonValue) -> (r: Option<CustomFieldValue>)
    ensures
        match r {
            Some(c) => cf_of(item@) == Some(cf_view(c)),
            None => cf_of(item@) is None,
        },
{
    let id = match item.get("id") {
        Some(v) => match v.as_str() {
            Some(s) => s.clone(),
            None => return None,
        },
        None => return None,
    };
    let name = match item.get("name") {
        Some(v) => match v.as_str() {
            Some(s) => Some(s.clone()),
            None => None,
        },
        None => None,
    };
    let value = match item.get("value") {
        Some(v) => Some(v.deep_clone()),
        None => None,
    };
    Some(CustomFieldValue { id, name, value })
}

/// Parses the JSON of a task; a task without a string `id` or `name` is an error.
pub fn parse_task_json(json: &JsonValue) -> (r: Result<TaskInfo, String>)
    ensures
        match r {
            Ok(t) => str_at(json@, "id"@) == Some(t.id@) && str_at(json@, "name"@) == Some(t.name@)
                && crate::services::prompts::opt_view(t.description) == description_of(json@)
                && t.custom_fields@.map_values(|c: CustomFieldValue| cf_view(c)) == task_cfs(json@),
            Err(e) => (str_at(json@, "id"@) is None && e@ == "Campo 'id' não encontrado na tarefa"@)
                || (str_at(json@, "id"@) is Some && str_at(json@, "name"@) is None
                && e@ == "Campo 'name' não encontrado na tarefa"@),
        },
{
    let id = match json.get("id") {
        Some(v) => match v.as_str() {
            Some(s) => s.clone(),
            None => return Err(owned("Campo 'id' não encontrado na tarefa")),
        },
        None => return Err(owned("Campo 'id' não encontrado na tarefa")),
    };
    let name = match json.get("name") {
        Some(v) => match v.as_str() {
            Some(s) => s.clone(),
            None => return Err(owned("Campo 'name' não encontrado na tarefa")),
        },
        None => return Err(owned("Campo 'name' não encontrado na tarefa")),
    };
    let description = match json.get("description") {
        Some(d) => match d.as_str() {
            Some(s) => Some(s.clone()),
            None => None,
        },
        None => match json.get("text_content") {
            Some(d) => match d.as_str() {
                Some(s) => Some(s.clone()),
                None => None,
            },
            None => None,
        },
    };
    let mut custom_fields: Vec<CustomFieldValue> = Vec::new();
    match json.get("custom_fields") {
        Some(v) => match v.as_array() {
            Some(arr) => {
                let ghost items = match v@ {
                    JsonView::Array(x) => x,
                    _ => Seq::empty(),
                };
                let mut i: usize = 0;
                while i < arr.len()
                    invariant
                        i <= arr@.len(),
                        *v == JsonValue::Array(*arr),
                        items.len() == arr@.len(),
                        forall|j: int| 0 <= j < arr@.len() ==> #[trigger] items[j] == arr@[j]@,
                        custom_fields@.map_values(|c: CustomFieldValue| cf_view(c)) == cfs_of(items.take(i as int)),
                    decreases arr@.len() - i,
                {
                    assert(items.take(i + 1).drop_last() == items.take(i as int));
                    assert(items.take(i + 1).last() == arr@[i as int]@);
                    let ghost before = custom_fields@;
                    match read_cf(&arr[i]) {
                        Some(c) => {
                            custom_fields.push(c);
                            assert(custom_fields@.map_values(|c: CustomFieldValue| cf_view(c)) =~= before.map_values(
                                |c: CustomFieldValue| cf_view(c),
                            ).push(cf_view(custom_fields@.last())));
                        },
                        None => {},
                    }
                    i = i + 1;
                }
                assert(items.take(i as int) == items);
            },
            None => {},
        },
        None => {},
    }
    Ok(TaskInfo { id, name, description, custom_fields })
}

/// Whether a field value counts as empty: missing, `null`, `""`, the number 0 or `[]`.
pub open spec fn value_empty(v: Option<JsonView>) -> bool {
    match v {
        None => true,
        Some(JsonView::Null) => true,
        Some(JsonView::Str(s)) => s.len() == 0,
        Some(JsonView::Number(n)) => parse_i64_spec(n) == Some(0i64),
        Some(JsonView::Array(a)) => a.len() == 0,
        Some(_) => false,
    }
}

/// Whether the field `field_id` is empty: it is when the task has no such field, and
/// otherwise the first field with that id decides.
pub open spec fn field_empty(fields: Seq<(Seq<char>, Option<Seq<char>>, Option<JsonView>)>, field_id: Seq<char>) -> bool
    decreases fields.len(),
{
    if fields.len() == 0 {
        true
    } else if fields[0].0 == field_id {
        value_empty(fields[0].2)
    } else {
        field_empty(fields.drop_first(), field_id)
    }
}

/// Whether a field is empty (null, missing, or an empty value).
pub fn is_field_empty(fields: &[CustomFieldValue], field_id: &str) -> (r: bool)
    ensures
        r == field_empty(fields@.map_values(|c: CustomFieldValue| cf_view(c)), field_id@),
{
    let ghost fv = fields@.map_values(|c: CustomFieldValue| cf_view(c));
    let mut i: usize = 0;
    assert(fv.skip(0) == fv);
    while i < fields.len()
        invariant
            i <= fields@.len(),
            fv == fields@.map_values(|c: CustomFieldValue| cf_view(c)),
            field_empty(fv, field_id@) == field_empty(fv.skip(i as int), field_id@),
        decreases fields@.len() - i,
    {
        assert(fv.skip(i as int)[0] == cf_view(fields@[i as int]));
        if str_eq(fields[i].id.as_str(), field_id) {
            return match &fields[i].value {
                None => true,
                Some(JsonValue::Null) => true,
                Some(JsonValue::Str(s)) => s.as_str().is_empty(),
                Some(v) => {
                    match v {
                        JsonValue::Number(_) => match v.as_i64() {
                            Some(n) => n == 0,
                            None => false,
                        },
                        JsonValue::Array(a) => a.len() == 0,
                        _ => false,
                    }
                },
            };
        }
        assert(fv.skip(i as int).drop_first() == fv.skip(i + 1));
        i = i + 1;
    }
    true
}

/// The outcome of checking a fetched task: the task, and whether any of the category,
/// subcategory and stars fields is empty.
pub open spec fn fields_empty_spec(cfs: Seq<(Seq<char>, Option<Seq<char>>, Option<JsonView>)>, c: AiPromptConfig) -> bool {
    match c.field_ids {
        Some(ids) => field_empty(cfs, ids.category_field_id@) || field_empty(cfs, ids.subcategory_field_id@)
            || field_empty(cfs, ids.stars_field_id@),
        None => false,
    }
}

/// Reads the task fetched from ClickUp and tells whether any of its category,
/// subcategory and stars fields is empty. A configuration without field ids is an error.
pub fn check_fetched_task(task_json: &JsonValue, prompt_config: &AiPromptConfig) -> (r: Result<(TaskInfo, bool), String>)
    ensures
        match parse_task_json_spec_ok(task_json@) {
            false => r matches Err(e) && e@ == if str_at(task_json@, "id"@) is None {
                "Campo 'id' não encontrado na tarefa"@
            } else {
                "Campo 'name' não encontrado na tarefa"@
            },
            true => match prompt_config.field_ids {
                None => r matches Err(e) && e@ == "field_ids não encontrados no YAML"@,
                Some(_) => r matches Ok((t, empty)) && empty == fields_empty_spec(
                    t.custom_fields@.map_values(|c: CustomFieldValue| cf_view(c)),
                    *prompt_config,
                ) && t.custom_fields@.map_values(|c: CustomFieldValue| cf_view(c)) == task_cfs(task_json@)
                    && t.id@ == str_at(task_json@, "id"@).unwrap()
                    && t.name@ == str_at(task_json@, "name"@).unwrap()
                    && crate::services::prompts::opt_view(t.description) == description_of(task_json@),
            },
        },
{
    let task_info = match parse_task_json(task_json) {
        Ok(t) => t,
        Err(e) => return Err(e),
    };
    let field_ids = match prompt_config.get_field_ids() {
        Some(ids) => ids,
        None => return Err(owned("field_ids não encontrados no YAML")),
    };
    let categoria_empty = is_field_empty(task_info.custom_fields.as_slice(), field_ids.category_field_id.as_str());
    let subcategoria_empty = is_field_empty(task_info.custom_fields.as_slice(), field_ids.subcategory_field_id.as_str());
    let stars_empty = is_field_empty(task_info.custom_fields.as_slice(), field_ids.stars_field_id.as_str());
    let fields_empty = categoria_empty || subcategoria_empty || stars_empty;
    Ok((task_info, fields_empty))
}

/// The error when ClickUp could not give the task: the client's message after a prefix.
pub fn fetch_error(client_error: &str) -> (r: String)
    ensures
        r@ == "Erro ao buscar tarefa: "@ + client_error@,
{
    let mut m = owned("Erro ao buscar tarefa: ");
    push_str(&mut m, client_error);
    m
}

/// Whether a task JSON has a string `id` and a string `name`.
pub open spec fn parse_task_json_spec_ok(t: JsonView) -> bool {
    str_at(t, "id"@) is Some && str_at(t, "name"@) is Some
}

} // verus!
