//! Writing a validated classification into a ClickUp task.

use vstd::prelude::*;
use crate::models::clickup::{CustomField, CustomFieldValue, FieldValueView, field_views, new_field};
use crate::services::field_validator::ValidatedFieldValues;
use crate::services::prompts::AiPromptConfig;
use crate::text::{owned, push_str};

verus! {

/// The field updates of an enrichment, in order: category, subcategory, stars.
pub open spec fn enrichment_spec(c: AiPromptConfig, v: ValidatedFieldValues) -> Option<Seq<(Seq<char>, FieldValueView)>> {
    match c.field_ids {
        Some(ids) => Some(
            seq![
                (ids.category_field_id@, FieldValueView::Dropdown(v.categoria_id@)),
                (ids.subcategory_field_id@, FieldValueView::Dropdown(v.subcategoria_id@)),
                (ids.stars_field_id@, FieldValueView::Rating(v.stars as int)),
            ],
        ),
        None => None,
    }
}

/// The field updates that write the classification, one per field as ClickUp requires;
/// an error when the configuration has no field ids.
pub fn enrichment_updates(config: &AiPromptConfig, values: &ValidatedFieldValues) -> (r: Result<Vec<CustomField>, String>)
    ensures
        match r {
            Ok(fs) => enrichment_spec(*config, *values) == Some(field_views(fs@)),
            Err(e) => enrichment_spec(*config, *values).is_none() && e@ == "field_ids não encontrados no YAML"@,
        },
{
    match config.get_field_ids() {
        Some(ids) => {
            let mut fs: Vec<CustomField> = Vec::new();
            fs.push(new_field(ids.category_field_id.clone(), CustomFieldValue::DropdownOption(values.categoria_id.clone())));
            fs.push(new_field(ids.subcategory_field_id.clone(), CustomFieldValue::DropdownOption(values.subcategoria_id.clone())));
            fs.push(new_field(ids.stars_field_id.clone(), CustomFieldValue::Rating(values.stars as i32)));
            assert(field_views(fs@) =~= enrichment_spec(*config, *values).unwrap());
            Ok(fs)
        },
        None => Err(owned("field_ids não encontrados no YAML")),
    }
}

/// The error for a field that could not be updated: `Erro ao atualizar`, the field's
/// label and the error.
pub fn update_error(label: &str, e: &str) -> (r: String)
    ensures
        r@ == "Erro ao atualizar "@ + label@ + ": "@ + e@,
{
    let mut s = owned("Erro ao atualizar ");
    push_str(&mut s, label);
    push_str(&mut s, ": ");
    push_str(&mut s, e);
    s
}

} // verus!
