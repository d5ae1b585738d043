//! Validation of the category and subcategory that the classifier returned, against the
//! options of the prompt configuration.

use vstd::prelude::*;
use crate::text::push_str;
use crate::services::prompt_text::views;
use crate::services::prompts::{subcategory_id_spec, subcategory_names_spec, subcategory_stars_spec, category_id_spec, distinct_names, AiPromptConfig};
use crate::keyed::keys;

verus! {

/// Validated field values with the ids resolved.
#[derive(Debug, Clone)]
pub struct ValidatedFieldValues {
    pub categoria_id: String,
    pub subcategoria_id: String,
    pub stars: u8,
}

/// What `format!("{:?}", list)` prints for a list of strings.
pub uninterp spec fn debug_strings(v: Seq<Seq<char>>) -> Seq<char>;

/// Formats a list of strings with `Debug`, as `format!("{:?}", ..)` does.
#[verifier::external_body]
fn debug_list(v: &Vec<String>) -> (r: String)
    ensures
        r@ == debug_strings(views(v@)),
{
    format!("{:?}", v)
}

/// Error for an unknown category.
pub open spec fn unknown_category_message(categoria: Seq<char>, available: Seq<Seq<char>>) -> Seq<char> {
    "Categoria '"@ + categoria + "' não existe nas opções. Disponíveis: "@ + debug_strings(available)
}

/// Error for a subcategory unknown under its category.
pub open spec fn unknown_subcategory_message(
    subcategoria: Seq<char>,
    categoria: Seq<char>,
    available: Seq<Seq<char>>,
) -> Seq<char> {
    "Subcategoria '"@ + subcategoria + "' não existe para categoria '"@ + categoria
        + "'. Disponíveis: "@ + debug_strings(available)
}

/// Validates the category and subcategory and returns their option ids and the stars of the
/// subcategory (1 where the file gives none). An unknown category, or a subcategory unknown
/// under it, is an error that lists the available options.
pub fn validate_and_get_field_ids(
    prompt_config: &AiPromptConfig,
    categoria: &str,
    subcategoria: &str,
) -> (r: Result<ValidatedFieldValues, String>)
    ensures
        match category_id_spec(*prompt_config, categoria@) {
            None => r matches Err(e) && e@ == unknown_category_message(
                categoria@,
                distinct_names(keys(prompt_config.category_mappings@)),
            ),
            Some(cid) => match subcategory_id_spec(*prompt_config, categoria@, subcategoria@) {
                None => r matches Err(e) && e@ == unknown_subcategory_message(
                    subcategoria@,
                    categoria@,
                    subcategory_names_spec(*prompt_config, categoria@),
                ),
                Some(sid) => r matches Ok(v) && v.categoria_id@ == cid && v.subcategoria_id@ == sid
                    && v.stars == match subcategory_stars_spec(*prompt_config, categoria@, subcategoria@) {
                    Some(n) => n,
                    None => 1u8,
                },
            },
        },
{
    let categoria_id = match prompt_config.get_category_id(categoria) {
        Some(id) => id,
        None => {
            let available = prompt_config.get_available_categories();
            let mut msg = String::new();
            push_str(&mut msg, "Categoria '");
            push_str(&mut msg, categoria);
            push_str(&mut msg, "' não existe nas opções. Disponíveis: ");
            let d = debug_list(&available);
            push_str(&mut msg, d.as_str());
            return Err(msg);
        },
    };
    let subcategoria_id = match prompt_config.get_subcategory_id(categoria, subcategoria) {
        Some(id) => id,
        None => {
            let available = prompt_config.get_subcategories_for_category(categoria);
            let mut msg = String::new();
            push_str(&mut msg, "Subcategoria '");
            push_str(&mut msg, subcategoria);
            push_str(&mut msg, "' não existe para categoria '");
            push_str(&mut msg, categoria);
            push_str(&mut msg, "'. Disponíveis: ");
            let d = debug_list(&available);
            push_str(&mut msg, d.as_str());
            return Err(msg);
        },
    };
    let stars = match prompt_config.get_subcategory_stars(categoria, subcategoria) {
        Some(n) => n,
        None => 1,
    };
    Ok(ValidatedFieldValues { categoria_id, subcategoria_id, stars })
}

} // verus!
