//! A classification prompt written from a template with placeholders.

use vstd::prelude::*;
use crate::services::prompt_text::{concat, lemma_concat_step, lemma_concat_all, views};
use crate::text::{decimal, joined, push_str, replace, str_replace, u64_to_decimal};

verus! {

/// An activity type with its description.
#[derive(Debug, Clone)]
pub struct ActivityType {
    pub name: String,
    pub description: String,
}

/// A category and examples of its subcategories.
#[derive(Debug, Clone)]
pub struct MappingExample {
    pub categoria: String,
    pub exemplos_subcategorias: Vec<String>,
}

/// The lists used when no current values are given.
#[derive(Debug, Clone)]
pub struct FallbackValues {
    pub categories: Vec<String>,
    pub activity_types: Vec<ActivityType>,
    pub status_options: Vec<String>,
}

/// The template of the classification prompt.
#[derive(Debug, Clone)]
pub struct PromptTemplate {
    pub system_role: String,
    pub task_description: String,
    /// Holds `{{categories_list}}`.
    pub categories_template: String,
    /// Holds `{{activity_types_list}}`.
    pub activity_types_template: String,
    /// Holds `{{status_list}}`.
    pub status_template: String,
    /// Holds `{{subcategories_list}}`.
    pub subcategories_template: String,
    pub rules: Vec<String>,
    pub mapping_examples: Vec<MappingExample>,
    /// Holds `{{activity_types_exact}}`, `{{categories_exact}}`, `{{subcategories_exact}}` and
    /// `{{status_exact}}`.
    pub response_format: String,
    pub fallback_values: FallbackValues,
}

/// The lists that fill the placeholders, already written one item per line.
#[derive(Debug, Clone)]
pub struct DynamicValues {
    pub categories_list: String,
    pub activity_types_list: String,
    pub status_list: String,
    pub subcategories_list: String,
}

/// The items as `- item` lines joined by line breaks.
pub open spec fn dash_list(items: Seq<Seq<char>>) -> Seq<char> {
    joined(items.map_values(|x: Seq<char>| "- "@ + x), "\n"@)
}

/// The activity types as `- name (description)` lines joined by line breaks.
pub open spec fn activity_list(ts: Seq<(Seq<char>, Seq<char>)>) -> Seq<char> {
    joined(ts.map_values(|t: (Seq<char>, Seq<char>)| "- "@ + t.0 + " ("@ + t.1 + ")"@), "\n"@)
}

/// The subcategories as a list: at most 20 lines, and a line that counts the rest.
pub open spec fn subcategory_list(subs: Seq<Seq<char>>) -> Seq<char> {
    if subs.len() == 0 {
        Seq::empty()
    } else if subs.len() > 20 {
        dash_list(subs.take(20)) + "\n... e mais "@ + decimal((subs.len() - 20) as nat) + " opções"@
    } else {
        dash_list(subs)
    }
}

/// Pairs of strings as pairs of views.
pub open spec fn pair_views(v: Seq<(String, String)>) -> Seq<(Seq<char>, Seq<char>)> {
    v.map_values(|p: (String, String)| (p.0@, p.1@))
}

/// Activity types as pairs of views.
pub open spec fn type_views(v: Seq<ActivityType>) -> Seq<(Seq<char>, Seq<char>)> {
    v.map_values(|t: ActivityType| (t.name@, t.description@))
}

/// Appends the items as `- item` lines joined by line breaks.
fn push_dash_list(out: &mut String, items: &Vec<String>, n: usize)
    requires
        n <= items@.len(),
    ensures
        final(out)@ == old(out)@ + dash_list(views(items@).take(n as int)),
{
    let ghost before = out@;
    let ghost q = views(items@).take(n as int).map_values(|x: Seq<char>| "- "@ + x);
    let mut i: usize = 0;
    while i < n
        invariant
            n <= items@.len(),
            i <= n,
            q == views(items@).take(n as int).map_values(|x: Seq<char>| "- "@ + x),
            out@ == before + joined(q.take(i as int), "\n"@),
        decreases n - i,
    {
        assert(q.take(i + 1).drop_last() == q.take(i as int));
        if i > 0 {
            push_str(out, "\n");
        }
        push_str(out, "- ");
        push_str(out, items[i].as_str());
        i = i + 1;
        assert(out@ =~= before + joined(q.take(i as int), "\n"@));
    }
    assert(q.take(i as int) == q);
}

/// Appends the activity types as `- name (description)` lines joined by line breaks.
fn push_activity_list(out: &mut String, ts: &Vec<(String, String)>)
    ensures
        final(out)@ == old(out)@ + activity_list(pair_views(ts@)),
{
    let ghost before = out@;
    let ghost q = pair_views(ts@).map_values(|t: (Seq<char>, Seq<char>)| "- "@ + t.0 + " ("@ + t.1 + ")"@);
    let mut i: usize = 0;
    while i < ts.len()
        invariant
            i <= ts@.len(),
            q == pair_views(ts@).map_values(|t: (Seq<char>, Seq<char>)| "- "@ + t.0 + " ("@ + t.1 + ")"@),
            out@ == before + joined(q.take(i as int), "\n"@),
        decreases ts@.len() - i,
    {
        assert(q.take(i + 1).drop_last() == q.take(i as int));
        if i > 0 {
            push_str(out, "\n");
        }
        push_str(out, "- ");
        push_str(out, ts[i].0.as_str());
        push_str(out, " (");
        push_str(out, ts[i].1.as_str());
        push_str(out, ")");
        i = i + 1;
        assert(out@ =~= before + joined(q.take(i as int), "\n"@));
    }
    assert(q.take(i as int) == q);
}

impl DynamicValues {
    /// The lists written one item per line; the subcategories are limited to 20 lines and a
    /// line that counts the rest.
    pub fn from_lists(
        categories: Vec<String>,
        activity_types: Vec<(String, String)>,
        status_options: Vec<String>,
        subcategories: Vec<String>,
    ) -> (r: Self)
        ensures
            r.categories_list@ == dash_list(views(categories@)),
            r.activity_types_list@ == activity_list(pair_views(activity_types@)),
            r.status_list@ == dash_list(views(status_options@)),
            r.subcategories_list@ == subcategory_list(views(subcategories@)),
    {
        let mut categories_list = String::new();
        push_dash_list(&mut categories_list, &categories, categories.len());
        assert(views(categories@).take(categories@.len() as int) == views(categories@));
        let mut activity_types_list = String::new();
        push_activity_list(&mut activity_types_list, &activity_types);
        let mut status_list = String::new();
        push_dash_list(&mut status_list, &status_options, status_options.len());
        assert(views(status_options@).take(status_options@.len() as int) == views(status_options@));
        let mut subcategories_list = String::new();
        if subcategories.len() > 20 {
            push_dash_list(&mut subcategories_list, &subcategories, 20);
            push_str(&mut subcategories_list, "\n... e mais ");
            let rest = u64_to_decimal((subcategories.len() - 20) as u64);
            push_str(&mut subcategories_list, rest.as_str());
            push_str(&mut subcategories_list, " opções");
        } else if subcategories.len() > 0 {
            push_dash_list(&mut subcategories_list, &subcategories, subcategories.len());
            assert(views(subcategories@).take(subcategories@.len() as int) == views(subcategories@));
        }
        DynamicValues { categories_list, activity_types_list, status_list, subcategories_list }
    }
}

/// The values of the placeholders: the given ones, or those written from the fallback
/// lists (with no subcategories).
pub open spec fn values_view(t: PromptTemplate, dv: Option<DynamicValues>) -> (Seq<char>, Seq<char>, Seq<char>, Seq<char>) {
    match dv {
        Some(v) => (v.categories_list@, v.activity_types_list@, v.status_list@, v.subcategories_list@),
        None => (
            dash_list(views(t.fallback_values.categories@)),
            activity_list(type_views(t.fallback_values.activity_types@)),
            dash_list(views(t.fallback_values.status_options@)),
            Seq::empty(),
        ),
    }
}

/// `- rule` and a line break for each rule.
pub open spec fn rule_lines(rules: Seq<Seq<char>>) -> Seq<char> {
    concat(rules.map_values(|r: Seq<char>| "- "@ + r + "\n"@))
}

/// The response format with its placeholders replaced by guidance.
pub open spec fn response_section(f: Seq<char>) -> Seq<char> {
    let a = replace(f, "{{activity_types_exact}}"@, "um dos valores da lista TIPO DE ATIVIDADE"@);
    let b = replace(a, "{{categories_exact}}"@, "um dos valores da lista CATEGORIAS"@);
    let c = replace(b, "{{subcategories_exact}}"@, "um dos valores da lista SUBCATEGORIAS"@);
    replace(c, "{{status_exact}}"@, "um dos valores da lista STATUS BACK OFFICE"@)
}

/// The prompt: role, context, task, the sections with their lists, the subcategory section
/// when there are subcategories, the rules, and the response format.
pub open spec fn rendered(t: PromptTemplate, context: Seq<char>, dv: Option<DynamicValues>) -> Seq<char> {
    let (cats, types, status, subs) = values_view(t, dv);
    let sub_section = if subs.len() > 0 {
        replace(t.subcategories_template@, "{{subcategories_list}}"@, subs) + "\n"@
    } else {
        Seq::empty()
    };
    t.system_role@ + "\n\n"@ + "CONTEXTO DA MENSAGEM:\n"@ + context + "\n\n"@ + t.task_description@
        + "\n\n"@ + replace(t.categories_template@, "{{categories_list}}"@, cats) + "\n"@ + replace(
        t.activity_types_template@,
        "{{activity_types_list}}"@,
        types,
    ) + "\n"@ + replace(t.status_template@, "{{status_list}}"@, status) + "\n"@ + sub_section
        + "REGRAS IMPORTANTES:\n"@ + rule_lines(views(t.rules@)) + "\n"@ + response_section(
        t.response_format@,
    )
}

/// Appends `- rule` and a line break for each rule.
fn push_rule_lines(out: &mut String, rules: &Vec<String>)
    ensures
        final(out)@ == old(out)@ + rule_lines(views(rules@)),
{
    let ghost before = out@;
    let ghost lines = views(rules@).map_values(|r: Seq<char>| "- "@ + r + "\n"@);
    let mut i: usize = 0;
    while i < rules.len()
        invariant
            i <= rules@.len(),
            lines == views(rules@).map_values(|r: Seq<char>| "- "@ + r + "\n"@),
            out@ == before + concat(lines.take(i as int)),
        decreases rules@.len() - i,
    {
        push_str(out, "- ");
        push_str(out, rules[i].as_str());
        push_str(out, "\n");
        proof {
            lemma_concat_step(lines, i as int);
        }
        i = i + 1;
        assert(out@ =~= before + concat(lines.take(i as int)));
    }
    proof {
        lemma_concat_all(lines);
    }
}

impl PromptTemplate {
    /// The values written from the fallback lists.
    pub fn get_fallback_dynamic_values(&self) -> (r: DynamicValues)
        ensures
            (r.categories_list@, r.activity_types_list@, r.status_list@, r.subcategories_list@)
                == values_view(*self, None),
    {
        let f = &self.fallback_values;
        let mut categories_list = String::new();
        push_dash_list(&mut categories_list, &f.categories, f.categories.len());
        assert(views(f.categories@).take(f.categories@.len() as int) == views(f.categories@));
        let mut pairs: Vec<(String, String)> = Vec::new();
        let mut i: usize = 0;
        while i < f.activity_types.len()
            invariant
                i <= f.activity_types@.len(),
                pair_views(pairs@) == type_views(f.activity_types@).take(i as int),
            decreases f.activity_types@.len() - i,
        {
            let ghost p0 = pairs@;
            pairs.push((f.activity_types[i].name.clone(), f.activity_types[i].description.clone()));
            assert(pair_views(pairs@) =~= pair_views(p0).push(type_views(f.activity_types@)[i as int]));
            i = i + 1;
            assert(pair_views(pairs@) =~= type_views(f.activity_types@).take(i as int));
        }
        assert(type_views(f.activity_types@).take(i as int) == type_views(f.activity_types@));
        let mut activity_types_list = String::new();
        push_activity_list(&mut activity_types_list, &pairs);
        let mut status_list = String::new();
        push_dash_list(&mut status_list, &f.status_options, f.status_options.len());
        assert(views(f.status_options@).take(f.status_options@.len() as int) == views(f.status_options@));
        DynamicValues { categories_list, activity_types_list, status_list, subcategories_list: String::new() }
    }

    /// The prompt for a message.
    #[verifier::rlimit(40)]
    pub fn render(&self, context: &str, dynamic_values: Option<DynamicValues>) -> (r: String)
        ensures
            r@ == rendered(*self, context@, dynamic_values),
    {
        let values = match dynamic_values {
            Some(v) => v,
            None => self.get_fallback_dynamic_values(),
        };
        proof {
            reveal_strlit("{{categories_list}}");
            reveal_strlit("{{activity_types_list}}");
            reveal_strlit("{{status_list}}");
            reveal_strlit("{{subcategories_list}}");
            reveal_strlit("{{activity_types_exact}}");
            reveal_strlit("{{categories_exact}}");
            reveal_strlit("{{subcategories_exact}}");
            reveal_strlit("{{status_exact}}");
        }
        let mut p = String::new();
        push_str(&mut p, self.system_role.as_str());
        push_str(&mut p, "\n\n");
        push_str(&mut p, "CONTEXTO DA MENSAGEM:\n");
        push_str(&mut p, context);
        push_str(&mut p, "\n\n");
        push_str(&mut p, self.task_description.as_str());
        push_str(&mut p, "\n\n");
        let cats = str_replace(self.categories_template.as_str(), "{{categories_list}}", values.categories_list.as_str());
        push_str(&mut p, cats.as_str());
        push_str(&mut p, "\n");
        let types = str_replace(
            self.activity_types_template.as_str(),
            "{{activity_types_list}}",
            values.activity_types_list.as_str(),
        );
        push_str(&mut p, types.as_str());
        push_str(&mut p, "\n");
        let status = str_replace(self.status_template.as_str(), "{{status_list}}", values.status_list.as_str());
        push_str(&mut p, status.as_str());
        push_str(&mut p, "\n");
        let ghost head = p@;
        if !crate::text::str_is_empty(values.subcategories_list.as_str()) {
            let subs = str_replace(
                self.subcategories_template.as_str(),
                "{{subcategories_list}}",
                values.subcategories_list.as_str(),
            );
            push_str(&mut p, subs.as_str());
            push_str(&mut p, "\n");
        }
        let ghost with_subs = p@;
        push_str(&mut p, "REGRAS IMPORTANTES:\n");
        push_rule_lines(&mut p, &self.rules);
        push_str(&mut p, "\n");
        let a = str_replace(self.response_format.as_str(), "{{activity_types_exact}}", "um dos valores da lista TIPO DE ATIVIDADE");
        let b = str_replace(a.as_str(), "{{categories_exact}}", "um dos valores da lista CATEGORIAS");
        let c = str_replace(b.as_str(), "{{subcategories_exact}}", "um dos valores da lista SUBCATEGORIAS");
        let d = str_replace(c.as_str(), "{{status_exact}}", "um dos valores da lista STATUS BACK OFFICE");
        push_str(&mut p, d.as_str());
        assert(p@ =~= rendered(*self, context@, dynamic_values));
        p
    }
}

} // verus!
