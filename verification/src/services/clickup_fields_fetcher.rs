//! The custom fields of a ClickUp list: their options, the ids the middleware writes, and a
//! prompt section that lists them.

use vstd::prelude::*;
use crate::keyed::{insert_view, lemma_insert_view, map_insert, map_view};
use crate::services::prompt_text::{bullet_lines, push_bullets, views};
use crate::text::{decimal, push_str, str_eq, u64_to_decimal};

verus! {

/// An option of a dropdown field.
#[derive(Debug, Clone)]
pub struct DropdownOption {
    pub id: String,
    pub name: String,
    pub color: Option<String>,
}

/// The configuration of a field.
#[derive(Debug, Clone)]
pub struct TypeConfig {
    pub options: Option<Vec<DropdownOption>>,
}

/// A custom field of a list.
#[derive(Debug, Clone)]
pub struct CustomField {
    pub id: String,
    pub name: String,
    pub field_type: String,
    pub type_config: Option<TypeConfig>,
}

/// Option names → ids and the ids of the fields, by the fields' names.
#[derive(Debug, Clone)]
pub struct FieldMappings {
    pub categories: Vec<(String, String)>,
    pub subcategories: Vec<(String, String)>,
    pub activity_types: Vec<(String, String)>,
    pub status_options: Vec<(String, String)>,
    pub category_field_id: String,
    pub subcategory_field_id: String,
    pub activity_type_field_id: String,
    pub status_field_id: String,
    pub info1_field_id: String,
    pub info2_field_id: String,
}

impl Default for FieldMappings {
    /// No options and empty ids.
    fn default() -> (r: Self)
        ensures
            r.categories@.len() == 0 && r.subcategories@.len() == 0,
            r.activity_types@.len() == 0 && r.status_options@.len() == 0,
            r.category_field_id@.len() == 0 && r.subcategory_field_id@.len() == 0,
            r.activity_type_field_id@.len() == 0 && r.status_field_id@.len() == 0,
            r.info1_field_id@.len() == 0 && r.info2_field_id@.len() == 0,
    {
        FieldMappings {
            categories: Vec::new(),
            subcategories: Vec::new(),
            activity_types: Vec::new(),
            status_options: Vec::new(),
            category_field_id: String::new(),
            subcategory_field_id: String::new(),
            activity_type_field_id: String::new(),
            status_field_id: String::new(),
            info1_field_id: String::new(),
            info2_field_id: String::new(),
        }
    }
}

/// The options of a field, none without a configuration or options.
pub open spec fn field_options(f: CustomField) -> Seq<DropdownOption> {
    match f.type_config {
        Some(tc) => match tc.options {
            Some(o) => o@,
            None => Seq::empty(),
        },
        None => Seq::empty(),
    }
}

/// The first field called `name`.
pub open spec fn field_named(fields: Seq<CustomField>, name: Seq<char>) -> Option<CustomField>
    decreases fields.len(),
{
    if fields.len() == 0 {
        None
    } else if fields[0].name@ == name {
        Some(fields[0])
    } else {
        field_named(fields.drop_first(), name)
    }
}

/// The option names of the first field called `name`, none without such a field.
pub open spec fn option_names_of(fields: Seq<CustomField>, name: Seq<char>) -> Seq<Seq<char>> {
    match field_named(fields, name) {
        Some(f) => field_options(f).map_values(|o: DropdownOption| o.name@),
        None => Seq::empty(),
    }
}

/// The index of the first field called `name`.
fn find_field(fields: &Vec<CustomField>, name: &str) -> (r: Option<usize>)
    ensures
        match r {
            Some(i) => i < fields@.len() && field_named(fields@, name@) == Some(fields@[i as int]),
            None => field_named(fields@, name@).is_none(),
        },
{
    let mut i: usize = 0;
    assert(fields@.skip(0) == fields@);
    while i < fields.len()
        invariant
            i <= fields@.len(),
            field_named(fields@, name@) == field_named(fields@.skip(i as int), name@),
        decreases fields@.len() - i,
    {
        assert(fields@.skip(i as int)[0] == fields@[i as int]);
        if str_eq(fields[i].name.as_str(), name) {
            return Some(i);
        }
        assert(fields@.skip(i as int).drop_first() == fields@.skip(i + 1));
        i = i + 1;
    }
    None
}

/// The options of a field.
fn options_of(f: &CustomField) -> (r: Option<&Vec<DropdownOption>>)
    ensures
        match r {
            Some(o) => field_options(*f) == o@,
            None => field_options(*f) == Seq::<DropdownOption>::empty(),
        },
{
    match &f.type_config {
        Some(tc) => match &tc.options {
            Some(o) => Some(o),
            None => None,
        },
        None => None,
    }
}

/// The option names of the first field called `name`.
pub fn option_names(fields: &Vec<CustomField>, name: &str) -> (r: Vec<String>)
    ensures
        views(r@) == option_names_of(fields@, name@),
{
    let mut r: Vec<String> = Vec::new();
    match find_field(fields, name) {
        Some(i) => match options_of(&fields[i]) {
            Some(opts) => {
                let ghost target = opts@.map_values(|o: DropdownOption| o.name@);
                let mut k: usize = 0;
                while k < opts.len()
                    invariant
                        k <= opts@.len(),
                        target == opts@.map_values(|o: DropdownOption| o.name@),
                        views(r@) == target.take(k as int),
                    decreases opts@.len() - k,
                {
                    let ghost r0 = r@;
                    r.push(opts[k].name.clone());
                    assert(views(r@) =~= views(r0).push(target[k as int]));
                    k = k + 1;
                    assert(views(r@) =~= target.take(k as int));
                }
                assert(target.take(k as int) == target);
            },
            None => {
                assert(views(r@) =~= Seq::empty());
            },
        },
        None => {
            assert(views(r@) =~= Seq::empty());
        },
    }
    r
}

/// The category options (field "Categoria").
pub fn available_categories(fields: &Vec<CustomField>) -> (r: Vec<String>)
    ensures
        views(r@) == option_names_of(fields@, "Categoria"@),
{
    option_names(fields, "Categoria")
}

/// The subcategory options (field "Sub Categoria").
pub fn available_subcategories(fields: &Vec<CustomField>) -> (r: Vec<String>)
    ensures
        views(r@) == option_names_of(fields@, "Sub Categoria"@),
{
    option_names(fields, "Sub Categoria")
}

/// Options as a map from name to id, later options replacing earlier ones of the same name.
pub open spec fn options_map(m: Seq<(Seq<char>, Seq<char>)>, opts: Seq<DropdownOption>) -> Seq<(Seq<char>, Seq<char>)>
    decreases opts.len(),
{
    if opts.len() == 0 {
        m
    } else {
        insert_view(options_map(m, opts.drop_last()), opts.last().name@, opts.last().id@)
    }
}

/// Adds the options of a field to a map.
fn add_options(m: &mut Vec<(String, String)>, f: &CustomField)
    ensures
        map_view(final(m)@, |s: String| s@) == options_map(map_view(old(m)@, |s: String| s@), field_options(*f)),
{
    match options_of(f) {
        Some(opts) => {
            let ghost start = map_view(m@, |s: String| s@);
            let mut k: usize = 0;
            while k < opts.len()
                invariant
                    k <= opts@.len(),
                    map_view(m@, |s: String| s@) == options_map(start, opts@.take(k as int)),
                decreases opts@.len() - k,
            {
                let ghost pre = opts@.take(k + 1);
                assert(pre.drop_last() == opts@.take(k as int));
                let name = opts[k].name.clone();
                let id = opts[k].id.clone();
                proof {
                    lemma_insert_view(m@, name, id, |s: String| s@);
                }
                map_insert(m, name, id);
                k = k + 1;
            }
            assert(opts@.take(k as int) == opts@);
        },
        None => {},
    }
}

/// The mappings as maps of views and field ids.
#[verifier::ext_equal]
pub struct MappingsView {
    pub categories: Seq<(Seq<char>, Seq<char>)>,
    pub subcategories: Seq<(Seq<char>, Seq<char>)>,
    pub activity_types: Seq<(Seq<char>, Seq<char>)>,
    pub status_options: Seq<(Seq<char>, Seq<char>)>,
    pub category_field_id: Seq<char>,
    pub subcategory_field_id: Seq<char>,
    pub activity_type_field_id: Seq<char>,
    pub status_field_id: Seq<char>,
    pub info1_field_id: Seq<char>,
    pub info2_field_id: Seq<char>,
}

/// The mappings as maps of views and field ids.
pub open spec fn mappings_view(m: FieldMappings) -> MappingsView {
    MappingsView {
        categories: map_view(m.categories@, |s: String| s@),
        subcategories: map_view(m.subcategories@, |s: String| s@),
        activity_types: map_view(m.activity_types@, |s: String| s@),
        status_options: map_view(m.status_options@, |s: String| s@),
        category_field_id: m.category_field_id@,
        subcategory_field_id: m.subcategory_field_id@,
        activity_type_field_id: m.activity_type_field_id@,
        status_field_id: m.status_field_id@,
        info1_field_id: m.info1_field_id@,
        info2_field_id: m.info2_field_id@,
    }
}

/// The mappings after reading one more field: "Categoria", "Tipo de Atividade", "Status
/// Back Office" and "Sub Categoria" give their id and options, "Solicitante (Info_1)" and
/// "Outro cliente" their id; other fields nothing.
pub open spec fn mappings_step(v: MappingsView, f: CustomField) -> MappingsView {
    let n = f.name@;
    if n == "Categoria"@ {
        MappingsView { category_field_id: f.id@, categories: options_map(v.categories, field_options(f)), ..v }
    } else if n == "Tipo de Atividade"@ {
        MappingsView { activity_type_field_id: f.id@, activity_types: options_map(v.activity_types, field_options(f)), ..v }
    } else if n == "Status Back Office"@ {
        MappingsView { status_field_id: f.id@, status_options: options_map(v.status_options, field_options(f)), ..v }
    } else if n == "Sub Categoria"@ {
        MappingsView { subcategory_field_id: f.id@, subcategories: options_map(v.subcategories, field_options(f)), ..v }
    } else if n == "Solicitante (Info_1)"@ {
        MappingsView { info1_field_id: f.id@, ..v }
    } else if n == "Outro cliente"@ {
        MappingsView { info2_field_id: f.id@, ..v }
    } else {
        v
    }
}

/// The mappings that the fields give, read in order from empty mappings.
pub open spec fn mappings_of_fields(fields: Seq<CustomField>) -> MappingsView
    decreases fields.len(),
{
    if fields.len() == 0 {
        MappingsView {
            categories: Seq::empty(),
            subcategories: Seq::empty(),
            activity_types: Seq::empty(),
            status_options: Seq::empty(),
            category_field_id: Seq::empty(),
            subcategory_field_id: Seq::empty(),
            activity_type_field_id: Seq::empty(),
            status_field_id: Seq::empty(),
            info1_field_id: Seq::empty(),
            info2_field_id: Seq::empty(),
        }
    } else {
        mappings_step(mappings_of_fields(fields.drop_last()), fields.last())
    }
}

/// The mappings of the fields.
pub fn field_mappings(fields: &Vec<CustomField>) -> (r: FieldMappings)
    ensures
        mappings_view(r) == mappings_of_fields(fields@),
{
    let mut m = FieldMappings::default();
    assert(m.category_field_id@ =~= Seq::empty() && m.subcategory_field_id@ =~= Seq::empty());
    assert(m.activity_type_field_id@ =~= Seq::empty() && m.status_field_id@ =~= Seq::empty());
    assert(m.info1_field_id@ =~= Seq::empty() && m.info2_field_id@ =~= Seq::empty());
    assert(mappings_view(m) =~= mappings_of_fields(fields@.take(0)));
    let mut i: usize = 0;
    while i < fields.len()
        invariant
            i <= fields@.len(),
            mappings_view(m) == mappings_of_fields(fields@.take(i as int)),
        decreases fields@.len() - i,
    {
        let f = &fields[i];
        let ghost pre = fields@.take(i + 1);
        assert(pre.drop_last() == fields@.take(i as int));
        assert(pre.last() == *f);
        let n = f.name.as_str();
        if str_eq(n, "Categoria") {
            m.category_field_id = f.id.clone();
            add_options(&mut m.categories, f);
        } else if str_eq(n, "Tipo de Atividade") {
            m.activity_type_field_id = f.id.clone();
            add_options(&mut m.activity_types, f);
        } else if str_eq(n, "Status Back Office") {
            m.status_field_id = f.id.clone();
            add_options(&mut m.status_options, f);
        } else if str_eq(n, "Sub Categoria") {
            m.subcategory_field_id = f.id.clone();
            add_options(&mut m.subcategories, f);
        } else if str_eq(n, "Solicitante (Info_1)") {
            m.info1_field_id = f.id.clone();
        } else if str_eq(n, "Outro cliente") {
            m.info2_field_id = f.id.clone();
        }
        i = i + 1;
        assert(mappings_view(m) =~= mappings_of_fields(fields@.take(i as int)));
    }
    assert(fields@.take(i as int) == fields@);
    m
}

/// The prompt lines of a field: a header and one line per option, then a blank line; nothing
/// without such a field.
pub open spec fn field_section(fields: Seq<CustomField>, name: Seq<char>, header: Seq<char>) -> Seq<char> {
    match field_named(fields, name) {
        Some(_) => header + bullet_lines(option_names_of(fields, name)) + "\n"@,
        None => Seq::empty(),
    }
}

/// The subcategory lines: the first ten options, and how many more there are.
pub open spec fn subcategory_section_of(fields: Seq<CustomField>) -> Seq<char> {
    let names = option_names_of(fields, "Sub Categoria"@);
    match field_named(fields, "Sub Categoria"@) {
        Some(_) => "SUBCATEGORIAS DISPONÍVEIS:\n"@
            + bullet_lines(if names.len() > 10 { names.take(10) } else { names })
            + (if names.len() > 10 {
                "... e mais "@ + decimal((names.len() - 10) as nat) + " opções\n"@
            } else {
                Seq::empty()
            })
            + "\n"@,
        None => Seq::empty(),
    }
}

/// The prompt section that lists the options of the fields the classifier fills.
pub open spec fn dynamic_prompt_section(fields: Seq<CustomField>) -> Seq<char> {
    field_section(fields, "Categoria"@, "CATEGORIAS DISPONÍVEIS NO CLICKUP:\n"@)
        + field_section(fields, "Tipo de Atividade"@, "TIPO DE ATIVIDADE:\n"@)
        + field_section(fields, "Status Back Office"@, "STATUS BACK OFFICE:\n"@)
        + subcategory_section_of(fields)
}

/// Appends the section of one field.
fn push_field_section(out: &mut String, fields: &Vec<CustomField>, name: &str, header: &str)
    ensures
        final(out)@ == old(out)@ + field_section(fields@, name@, header@),
{
    match find_field(fields, name) {
        Some(_) => {
            let names = option_names(fields, name);
            push_str(out, header);
            push_bullets(out, &names);
            push_str(out, "\n");
        },
        None => {},
    }
}

/// The prompt section that lists the options of the fields the classifier fills: the
/// categories, activity types and back-office statuses, and the first ten subcategories.
pub fn generate_dynamic_prompt_section(fields: &Vec<CustomField>) -> (r: String)
    ensures
        r@ == dynamic_prompt_section(fields@),
{
    let mut out = String::new();
    push_field_section(&mut out, fields, "Categoria", "CATEGORIAS DISPONÍVEIS NO CLICKUP:\n");
    push_field_section(&mut out, fields, "Tipo de Atividade", "TIPO DE ATIVIDADE:\n");
    push_field_section(&mut out, fields, "Status Back Office", "STATUS BACK OFFICE:\n");
    match find_field(fields, "Sub Categoria") {
        Some(_) => {
            let names = option_names(fields, "Sub Categoria");
            push_str(&mut out, "SUBCATEGORIAS DISPONÍVEIS:\n");
            if names.len() > 10 {
                let mut first: Vec<String> = Vec::new();
                let mut k: usize = 0;
                while k < 10
                    invariant
                        k <= 10,
                        names@.len() > 10,
                        views(first@) == views(names@).take(k as int),
                    decreases 10 - k,
                {
                    let ghost f0 = first@;
                    first.push(names[k].clone());
                    assert(views(first@) =~= views(f0).push(views(names@)[k as int]));
                    k = k + 1;
                    assert(views(first@) =~= views(names@).take(k as int));
                }
                push_bullets(&mut out, &first);
                push_str(&mut out, "... e mais ");
                let more = u64_to_decimal((names.len() - 10) as u64);
                push_str(&mut out, more.as_str());
                push_str(&mut out, " opções\n");
            } else {
                push_bullets(&mut out, &names);
            }
            push_str(&mut out, "\n");
        },
        None => {},
    }
    out
}

/// Whether cached fields read at `last_updated` (seconds) are still used at `now`: for
/// fifteen minutes.
pub fn cache_fresh(last_updated: i64, now: i64) -> (r: bool)
    ensures
        r == (now - last_updated < 15 * 60),
{
    (now as i128 - last_updated as i128) < 900
}

} // verus!
