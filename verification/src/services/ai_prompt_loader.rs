//! Prompt configuration with dynamic ClickUp fields: the prompt can list the categories,
//! activity types and statuses fetched from ClickUp in place of those of the file.

use vstd::prelude::*;
use crate::text::{joined, push_str};
use crate::keyed::{lookup, map_position};
use crate::services::prompt_text::{bullet_lines, concat, lemma_concat_all, lemma_concat_step, push_bullets, views};
use crate::services::prompts::{activity_lines, opt_view, push_activity_lines, push_status_lines, push_subcat_blocks, status_id, status_id_spec, status_lines, subcat_blocks, subcategory_entry, subcategory_names, find_subcategory_entry};
pub use crate::services::prompts::{ActivityType, CategoryMapping, StatusOption, SubcategoryMapping};

verus! {

/// Ids of the ClickUp custom fields that the classification fills.
#[derive(Debug, Clone)]
pub struct FieldIds {
    pub category_field_id: String,
    pub subcategory_field_id: String,
    pub activity_type_field_id: String,
    pub status_field_id: String,
}

/// The prompt configuration of the file `config/ai_prompt.yaml`. Its maps are held as
/// vectors of pairs (see [`crate::keyed`]).
#[derive(Debug, Clone)]
pub struct AiPromptConfig {
    pub system_role: String,
    pub task_description: String,
    pub categories: Vec<String>,
    pub activity_types: Vec<ActivityType>,
    pub status_options: Vec<StatusOption>,
    pub category_mappings: Vec<(String, CategoryMapping)>,
    pub subcategory_mappings: Vec<(String, Vec<SubcategoryMapping>)>,
    pub subcategory_examples: Vec<(String, Vec<String>)>,
    pub rules: Vec<String>,
    pub response_format: String,
    pub field_ids: Option<FieldIds>,
}

/// An example in double quotes.
pub open spec fn quoted(e: Seq<char>) -> Seq<char> {
    "\""@ + e + "\""@
}

/// The line of a category with its examples: `- category → "a", "b"`.
pub open spec fn example_line(e: (String, Vec<String>)) -> Seq<char> {
    "- "@ + e.0@ + " → "@ + joined(views(e.1@).map_values(|x: Seq<char>| quoted(x)), ", "@) + "\n"@
}

/// One line per category with examples.
pub open spec fn example_lines(m: Seq<(String, Vec<String>)>) -> Seq<char> {
    concat(m.map_values(|e: (String, Vec<String>)| example_line(e)))
}

/// The line of a dynamic activity type: `- name (description)`.
pub open spec fn pair_line(t: (String, String)) -> Seq<char> {
    "- "@ + t.0@ + " ("@ + t.1@ + ")\n"@
}

/// The subcategory section: the subcategory blocks when there are mappings, else the
/// example lines when there are examples, else nothing.
pub open spec fn subcategory_section(c: AiPromptConfig) -> Seq<char> {
    if c.subcategory_mappings@.len() > 0 {
        subcat_blocks(c.subcategory_mappings@)
    } else if c.subcategory_examples@.len() > 0 {
        example_lines(c.subcategory_examples@)
    } else {
        Seq::empty()
    }
}

/// The prompt for `context`, listing the dynamic values where they are given and those
/// of the file otherwise.
pub open spec fn dynamic_prompt_spec(
    c: AiPromptConfig,
    context: Seq<char>,
    categories: Option<Seq<Seq<char>>>,
    activity_types: Option<Seq<(String, String)>>,
    statuses: Option<Seq<Seq<char>>>,
) -> Seq<char> {
    c.system_role@ + "\n\n"@ + "CONTEXTO DA MENSAGEM:\n"@ + context + "\n\n"@ + c.task_description@
        + "\n\n"@ + "CATEGORIAS DISPONÍVEIS NO CLICKUP:\n"@ + (match categories {
        Some(cs) => bullet_lines(cs),
        None => bullet_lines(views(c.categories@)),
    }) + "\n"@ + "TIPO DE ATIVIDADE:\n"@ + (match activity_types {
        Some(ts) => concat(ts.map_values(|t: (String, String)| pair_line(t))),
        None => activity_lines(c.activity_types@),
    }) + "\n"@ + "STATUS BACK OFFICE:\n"@ + (match statuses {
        Some(ss) => bullet_lines(ss),
        None => status_lines(c.status_options@),
    }) + "\n"@ + "SUBCATEGORIAS DISPONÍVEIS (por categoria):\n"@ + subcategory_section(c) + "\n"@
        + "REGRAS IMPORTANTES:\n"@ + bullet_lines(views(c.rules@)) + "\n"@ + c.response_format@
}

/// View of an optional list of strings.
pub open spec fn opt_views(o: Option<Vec<String>>) -> Option<Seq<Seq<char>>> {
    match o {
        Some(v) => Some(views(v@)),
        None => None,
    }
}

/// View of an optional list of pairs.
pub open spec fn opt_pairs(o: Option<Vec<(String, String)>>) -> Option<Seq<(String, String)>> {
    match o {
        Some(v) => Some(v@),
        None => None,
    }
}

/// Appends the pieces joined by `sep`, each in double quotes.
fn push_quoted_joined(out: &mut String, items: &Vec<String>, sep: &str)
    ensures
        final(out)@ == old(out)@ + joined(views(items@).map_values(|x: Seq<char>| quoted(x)), sep@),
{
    let ghost before = out@;
    let ghost q = views(items@).map_values(|x: Seq<char>| quoted(x));
    let mut i: usize = 0;
    while i < items.len()
        invariant
            i <= items@.len(),
            q == views(items@).map_values(|x: Seq<char>| quoted(x)),
            out@ == before + joined(q.take(i as int), sep@),
        decreases items@.len() - i,
    {
        assert(q.take(i + 1).drop_last() == q.take(i as int));
        if i > 0 {
            push_str(out, sep);
        }
        push_str(out, "\"");
        push_str(out, items[i].as_str());
        push_str(out, "\"");
        i = i + 1;
    }
    assert(q.take(i as int) == q);
}

/// Appends one line per category with examples.
fn push_example_lines(out: &mut String, m: &Vec<(String, Vec<String>)>)
    ensures
        final(out)@ == old(out)@ + example_lines(m@),
{
    let ghost before = out@;
    let ghost lines = m@.map_values(|e: (String, Vec<String>)| example_line(e));
    let mut i: usize = 0;
    while i < m.len()
        invariant
            i <= m@.len(),
            lines == m@.map_values(|e: (String, Vec<String>)| example_line(e)),
            out@ == before + concat(lines.take(i as int)),
        decreases m@.len() - i,
    {
        proof {
            lemma_concat_step(lines, i as int);
        }
        push_str(out, "- ");
        push_str(out, m[i].0.as_str());
        push_str(out, " → ");
        push_quoted_joined(out, &m[i].1, ", ");
        push_str(out, "\n");
        i = i + 1;
    }
    proof {
        lemma_concat_all(lines);
    }
}

/// Appends one line per dynamic activity type.
fn push_pair_lines(out: &mut String, ts: &Vec<(String, String)>)
    ensures
        final(out)@ == old(out)@ + concat(ts@.map_values(|t: (String, String)| pair_line(t))),
{
    let ghost before = out@;
    let ghost lines = ts@.map_values(|t: (String, String)| pair_line(t));
    let mut i: usize = 0;
    while i < ts.len()
        invariant
            i <= ts@.len(),
            lines == ts@.map_values(|t: (String, String)| pair_line(t)),
            out@ == before + concat(lines.take(i as int)),
        decreases ts@.len() - i,
    {
        proof {
            lemma_concat_step(lines, i as int);
        }
        push_str(out, "- ");
        push_str(out, ts[i].0.as_str());
        push_str(out, " (");
        push_str(out, ts[i].1.as_str());
        push_str(out, ")\n");
        i = i + 1;
    }
    proof {
        lemma_concat_all(lines);
    }
}

impl AiPromptConfig {
    /// The prompt for `context` with the lists of the file.
    pub fn generate_prompt(&self, context: &str) -> (r: String)
        ensures
            r@ == dynamic_prompt_spec(*self, context@, None, None, None),
    {
        self.generate_prompt_with_dynamic_fields(context, None, None, None)
    }

    /// The prompt for `context`, with the categories, activity types `(name, description)`
    /// and statuses fetched from ClickUp in place of those of the file where given.
    #[verifier::rlimit(60)]
    #[verifier::spinoff_prover]
    pub fn generate_prompt_with_dynamic_fields(
        &self,
        context: &str,
        dynamic_categories: Option<Vec<String>>,
        dynamic_activity_types: Option<Vec<(String, String)>>,
        dynamic_status_options: Option<Vec<String>>,
    ) -> (r: String)
        ensures
            r@ == dynamic_prompt_spec(
                *self,
                context@,
                opt_views(dynamic_categories),
                opt_pairs(dynamic_activity_types),
                opt_views(dynamic_status_options),
            ),
    {
        let mut p = String::new();
        push_str(&mut p, self.system_role.as_str());
        push_str(&mut p, "\n\n");
        push_str(&mut p, "CONTEXTO DA MENSAGEM:\n");
        push_str(&mut p, context);
        push_str(&mut p, "\n\n");
        push_str(&mut p, self.task_description.as_str());
        push_str(&mut p, "\n\n");
        push_str(&mut p, "CATEGORIAS DISPONÍVEIS NO CLICKUP:\n");
        match &dynamic_categories {
            Some(cs) => push_bullets(&mut p, cs),
            None => push_bullets(&mut p, &self.categories),
        }
        push_str(&mut p, "\n");
        push_str(&mut p, "TIPO DE ATIVIDADE:\n");
        match &dynamic_activity_types {
            Some(ts) => push_pair_lines(&mut p, ts),
            None => push_activity_lines(&mut p, &self.activity_types),
        }
        push_str(&mut p, "\n");
        push_str(&mut p, "STATUS BACK OFFICE:\n");
        match &dynamic_status_options {
            Some(ss) => push_bullets(&mut p, ss),
            None => push_status_lines(&mut p, &self.status_options),
        }
        push_str(&mut p, "\n");
        push_str(&mut p, "SUBCATEGORIAS DISPONÍVEIS (por categoria):\n");
        if self.subcategory_mappings.len() > 0 {
            push_subcat_blocks(&mut p, &self.subcategory_mappings);
        } else if self.subcategory_examples.len() > 0 {
            push_example_lines(&mut p, &self.subcategory_examples);
        }
        push_str(&mut p, "\n");
        push_str(&mut p, "REGRAS IMPORTANTES:\n");
        push_bullets(&mut p, &self.rules);
        push_str(&mut p, "\n");
        push_str(&mut p, self.response_format.as_str());
        p
    }

    /// The option id of the category called `name`.
    pub fn get_category_id(&self, name: &str) -> (r: Option<String>)
        ensures
            opt_view(r) == match lookup(self.category_mappings@, name@) {
                Some(cm) => Some(cm.id@),
                None => None::<Seq<char>>,
            },
    {
        match map_position(&self.category_mappings, name) {
            Some(i) => Some(self.category_mappings[i].1.id.clone()),
            None => None,
        }
    }

    /// The option id of the status option called `name`.
    pub fn get_status_id(&self, name: &str) -> (r: Option<String>)
        ensures
            opt_view(r) == status_id_spec(self.status_options@, name@),
    {
        status_id(&self.status_options, name)
    }

    /// The option id of the subcategory, found under the trimmed category by its trimmed,
    /// case-insensitive name.
    pub fn get_subcategory_id(&self, category: &str, subcategory: &str) -> (r: Option<String>)
        ensures
            opt_view(r) == match subcategory_entry(self.subcategory_mappings@, category@, subcategory@) {
                Some(sc) => Some(sc.id@),
                None => None::<Seq<char>>,
            },
    {
        match find_subcategory_entry(&self.subcategory_mappings, category, subcategory) {
            Some(sc) => Some(sc.id.clone()),
            None => None,
        }
    }

    /// The stars of the subcategory, found as [`Self::get_subcategory_id`] finds it.
    pub fn get_subcategory_stars(&self, category: &str, subcategory: &str) -> (r: Option<u8>)
        ensures
            r == match subcategory_entry(self.subcategory_mappings@, category@, subcategory@) {
                Some(sc) => Some(sc.stars),
                None => None::<u8>,
            },
    {
        match find_subcategory_entry(&self.subcategory_mappings, category, subcategory) {
            Some(sc) => Some(sc.stars),
            None => None,
        }
    }

    /// Names of the subcategories of the trimmed category; empty for an unknown category.
    pub fn get_subcategories_for_category(&self, category: &str) -> (r: Vec<String>)
        ensures
            views(r@) == match lookup(self.subcategory_mappings@, crate::text::trim(category@)) {
                Some(subs) => subs@.map_values(|sc: SubcategoryMapping| sc.name@),
                None => Seq::<Seq<char>>::empty(),
            },
    {
        let cat = crate::text::str_trim(category);
        match map_position(&self.subcategory_mappings, cat.as_str()) {
            Some(p) => subcategory_names(&self.subcategory_mappings[p].1),
            None => Vec::new(),
        }
    }

    /// The ids of the custom fields, if the file gives them.
    pub fn get_field_ids(&self) -> (r: Option<&FieldIds>)
        ensures
            match r {
                Some(x) => self.field_ids == Some(*x),
                None => self.field_ids == None::<FieldIds>,
            },
    {
        self.field_ids.as_ref()
    }

    /// Whether the subcategory belongs to the category.
    pub fn validate_subcategory(&self, category: &str, subcategory: &str) -> (r: bool)
        ensures
            r == subcategory_entry(self.subcategory_mappings@, category@, subcategory@).is_some(),
    {
        self.get_subcategory_id(category, subcategory).is_some()
    }

    /// The whole subcategory entry, found as [`Self::get_subcategory_id`] finds it.
    pub fn get_subcategory_info(&self, category: &str, subcategory: &str) -> (r: Option<SubcategoryMapping>)
        ensures
            match r {
                Some(sc) => match subcategory_entry(self.subcategory_mappings@, category@, subcategory@) {
                    Some(e) => sc.name@ == e.name@ && sc.id@ == e.id@ && sc.stars == e.stars,
                    None => false,
                },
                None => subcategory_entry(self.subcategory_mappings@, category@, subcategory@) is None,
            },
    {
        match find_subcategory_entry(&self.subcategory_mappings, category, subcategory) {
            Some(sc) => Some(SubcategoryMapping { name: sc.name.clone(), id: sc.id.clone(), stars: sc.stars }),
            None => None,
        }
    }
}

} // verus!
