//! Prompt configuration of the AI classifier: category, subcategory and star mappings,
//! and the classification prompt built from them.

use vstd::prelude::*;
use chrono::Datelike;
use crate::text::{decimal, lowercase, push_str, str_trim, to_lowercase, trim, u64_to_decimal, owned};
use crate::keyed::{
    insert_spec, keys, lemma_insert_keeps_unique, lemma_unique_keys_no_duplicates, lookup, map_insert, map_position,
    unique_keys,
};
use crate::services::prompt_text::{
    bullet_lines, concat, iso_date, lemma_concat_all, lemma_concat_step, push_bullets,
    push_iso_date, push_year, views, year_text,
};

verus! {

/// An activity type offered to the classifier.
#[derive(Debug, Clone)]
pub struct ActivityType {
    pub name: String,
    pub description: String,
    pub id: String,
}

/// A "status back office" option.
#[derive(Debug, Clone)]
pub struct StatusOption {
    pub name: String,
    pub id: String,
}

/// ClickUp option id of a category.
#[derive(Debug, Clone)]
pub struct CategoryMapping {
    pub id: String,
}

/// A subcategory with its ClickUp option id and its stars.
#[derive(Debug, Clone)]
pub struct SubcategoryMapping {
    pub name: String,
    pub id: String,
    pub stars: u8,
}

/// Ids of the ClickUp custom fields that the classification fills.
#[derive(Debug, Clone)]
pub struct FieldIds {
    pub category_field_id: String,
    pub subcategory_field_id: String,
    pub activity_type_field_id: String,
    pub status_field_id: String,
    pub stars_field_id: String,
}

/// The prompt configuration. The maps of the YAML file are held as vectors of pairs
/// (see [`crate::keyed`]).
#[derive(Debug, Clone)]
pub struct AiPromptConfig {
    pub system_role: String,
    pub task_description: String,
    pub categories: Vec<String>,
    pub activity_types: Vec<ActivityType>,
    pub status_options: Vec<StatusOption>,
    pub category_mappings: Vec<(String, CategoryMapping)>,
    pub subcategory_mappings: Vec<(String, Vec<SubcategoryMapping>)>,
    pub subcategory_examples: Vec<(String, Vec<String>)>,
    pub rules: Vec<String>,
    pub response_format: String,
    pub field_ids: Option<FieldIds>,
    pub cliente_solicitante_mappings: Vec<(String, String)>,
}

/// An option of a dropdown field in the YAML file.
#[derive(Debug, Clone)]
pub struct YamlOption {
    pub id: String,
    pub name: String,
}

/// The `type_config` of a dropdown field in the YAML file.
#[derive(Debug, Clone)]
pub struct YamlTypeConfig {
    pub options: Vec<YamlOption>,
}

/// A category field of the YAML file.
#[derive(Debug, Clone)]
pub struct YamlCategoryField {
    pub id: String,
    pub name: String,
    pub type_config: YamlTypeConfig,
}

/// The YAML file as it is parsed, before its category options become a map.
#[derive(Debug, Clone)]
pub struct YamlAiPromptConfig {
    pub system_role: String,
    pub task_description: String,
    pub categories: Vec<String>,
    pub activity_types: Vec<ActivityType>,
    pub status_options: Vec<StatusOption>,
    pub category_mappings: Vec<YamlCategoryField>,
    pub subcategory_mappings: Vec<(String, Vec<SubcategoryMapping>)>,
    pub subcategory_examples: Vec<(String, Vec<String>)>,
    pub rules: Vec<String>,
    pub response_format: String,
    pub field_ids: Option<FieldIds>,
    pub cliente_solicitante_mappings: Vec<(String, String)>,
}

// ---------------------------------------------------------------------------------------
// Building the configuration from the parsed file

/// The category map after inserting every option of `fields[..]` in order.
pub open spec fn options_map(fields: Seq<YamlCategoryField>) -> Seq<(String, CategoryMapping)>
    decreases fields.len(),
{
    if fields.len() == 0 {
        Seq::empty()
    } else {
        insert_options(options_map(fields.drop_last()), fields.last().type_config.options@)
    }
}

/// `m` after inserting each option name with its id, in order.
pub open spec fn insert_options(m: Seq<(String, CategoryMapping)>, opts: Seq<YamlOption>) -> Seq<
    (String, CategoryMapping),
>
    decreases opts.len(),
{
    if opts.len() == 0 {
        m
    } else {
        insert_spec(
            insert_options(m, opts.drop_last()),
            opts.last().name,
            CategoryMapping { id: opts.last().id },
        )
    }
}

/// Converts the parsed YAML file into the configuration.
pub fn from_parsed_yaml(y: YamlAiPromptConfig) -> (r: AiPromptConfig)
    ensures
        r.wf(),
        r.category_mappings@ == options_map(y.category_mappings@),
        r.categories@.len() == 0 ==> y.categories@.len() == 0,
        y.categories@.len() == 0 ==> views(r.categories@) == keys(r.category_mappings@),
        y.categories@.len() > 0 ==> r.categories@ == y.categories@,
        r.system_role == y.system_role,
        r.task_description == y.task_description,
        r.activity_types@ == y.activity_types@,
        r.status_options@ == y.status_options@,
        r.subcategory_mappings@ == y.subcategory_mappings@,
        r.subcategory_examples@ == y.subcategory_examples@,
        r.rules@ == y.rules@,
        r.response_format == y.response_format,
        r.field_ids == y.field_ids,
        r.cliente_solicitante_mappings@ == y.cliente_solicitante_mappings@,
{
    let mut category_mappings: Vec<(String, CategoryMapping)> = Vec::new();
    let fields = &y.category_mappings;
    let mut i: usize = 0;
    while i < fields.len()
        invariant
            i <= fields@.len(),
            category_mappings@ == options_map(fields@.take(i as int)),
            unique_keys(category_mappings@),
        decreases fields@.len() - i,
    {
        let opts = &fields[i].type_config.options;
        let ghost m0 = category_mappings@;
        let mut j: usize = 0;
        while j < opts.len()
            invariant
                j <= opts@.len(),
                category_mappings@ == insert_options(m0, opts@.take(j as int)),
                unique_keys(category_mappings@),
            decreases opts@.len() - j,
        {
            let name = opts[j].name.clone();
            let id = opts[j].id.clone();
            assert(opts@.take(j + 1).drop_last() == opts@.take(j as int));
            proof {
                lemma_insert_keeps_unique(category_mappings@, name, CategoryMapping { id });
            }
            map_insert(&mut category_mappings, name, CategoryMapping { id });
            j = j + 1;
        }
        assert(opts@.take(opts@.len() as int) == opts@);
        assert(fields@.take(i + 1).drop_last() == fields@.take(i as int));
        i = i + 1;
    }
    assert(fields@.take(fields@.len() as int) == fields@);
    let categories = if y.categories.len() == 0 {
        let mut ks: Vec<String> = Vec::new();
        let mut k: usize = 0;
        while k < category_mappings.len()
            invariant
                k <= category_mappings@.len(),
                views(ks@) == keys(category_mappings@).take(k as int),
            decreases category_mappings@.len() - k,
        {
            let key = category_mappings[k].0.clone();
            assert(key@ == keys(category_mappings@)[k as int]);
            let ghost ks0 = ks@;
            ks.push(key);
            assert(views(ks@) =~= views(ks0).push(key@));
            k = k + 1;
            assert(views(ks@) =~= keys(category_mappings@).take(k as int));
        }
        assert(keys(category_mappings@).take(k as int) == keys(category_mappings@));
        ks
    } else {
        y.categories
    };
    AiPromptConfig {
        system_role: y.system_role,
        task_description: y.task_description,
        categories,
        activity_types: y.activity_types,
        status_options: y.status_options,
        category_mappings,
        subcategory_mappings: y.subcategory_mappings,
        subcategory_examples: y.subcategory_examples,
        rules: y.rules,
        response_format: y.response_format,
        field_ids: y.field_ids,
        cliente_solicitante_mappings: y.cliente_solicitante_mappings,
    }
}

// ---------------------------------------------------------------------------------------
// Lookups

/// View of an optional string.
pub open spec fn opt_view(o: Option<String>) -> Option<Seq<char>> {
    match o {
        Some(s) => Some(s@),
        None => None,
    }
}

/// The first subcategory of `subs` whose lowercased name is `lname`.
pub open spec fn subcat_named(subs: Seq<SubcategoryMapping>, lname: Seq<char>) -> Option<SubcategoryMapping>
    decreases subs.len(),
{
    if subs.len() == 0 {
        None
    } else if lowercase(subs[0].name@) == lname {
        Some(subs[0])
    } else {
        subcat_named(subs.drop_first(), lname)
    }
}

/// The subcategory that `(category, subcategory)` names: the category is trimmed and the
/// subcategory is compared trimmed and lowercased with the lowercased names.
pub open spec fn subcategory_entry(
    m: Seq<(String, Vec<SubcategoryMapping>)>,
    category: Seq<char>,
    subcategory: Seq<char>,
) -> Option<SubcategoryMapping> {
    match lookup(m, trim(category)) {
        Some(subs) => subcat_named(subs@, lowercase(trim(subcategory))),
        None => None,
    }
}

/// Finds the subcategory whose lowercased name is `lname`.
pub fn find_subcategory(subs: &Vec<SubcategoryMapping>, lname: &str) -> (r: Option<usize>)
    ensures
        match r {
            Some(i) => i < subs@.len() && subcat_named(subs@, lname@) == Some(subs@[i as int]),
            None => subcat_named(subs@, lname@) == None::<SubcategoryMapping>,
        },
{
    let mut i: usize = 0;
    assert(subs@.skip(0) == subs@);
    while i < subs.len()
        invariant
            i <= subs@.len(),
            subcat_named(subs@, lname@) == subcat_named(subs@.skip(i as int), lname@),
        decreases subs@.len() - i,
    {
        let n = to_lowercase(subs[i].name.as_str());
        assert(subs@.skip(i as int)[0] == subs@[i as int]);
        if crate::text::str_eq(n.as_str(), lname) {
            return Some(i);
        }
        assert(subs@.skip(i as int).drop_first() == subs@.skip(i + 1));
        i = i + 1;
    }
    None
}

/// Finds the subcategory entry for `(category, subcategory)`.
pub fn find_subcategory_entry<'a>(
    m: &'a Vec<(String, Vec<SubcategoryMapping>)>,
    category: &str,
    subcategory: &str,
) -> (r: Option<&'a SubcategoryMapping>)
    ensures
        match r {
            Some(x) => subcategory_entry(m@, category@, subcategory@) == Some(*x),
            None => subcategory_entry(m@, category@, subcategory@) == None::<SubcategoryMapping>,
        },
{
    let cat = str_trim(category);
    let sub_t = str_trim(subcategory);
    let sub = to_lowercase(sub_t.as_str());
    match map_position(m, cat.as_str()) {
        Some(p) => {
            let subs = &m[p].1;
            match find_subcategory(subs, sub.as_str()) {
                Some(i) => Some(&subs[i]),
                None => None,
            }
        },
        None => None,
    }
}

/// The option id of a category.
pub open spec fn category_id_spec(c: AiPromptConfig, name: Seq<char>) -> Option<Seq<char>> {
    match lookup(c.category_mappings@, name) {
        Some(cm) => Some(cm.id@),
        None => None,
    }
}

/// The option id of a subcategory.
pub open spec fn subcategory_id_spec(c: AiPromptConfig, category: Seq<char>, subcategory: Seq<char>) -> Option<Seq<char>> {
    match subcategory_entry(c.subcategory_mappings@, category, subcategory) {
        Some(sc) => Some(sc.id@),
        None => None,
    }
}

/// The stars of a subcategory.
pub open spec fn subcategory_stars_spec(c: AiPromptConfig, category: Seq<char>, subcategory: Seq<char>) -> Option<u8> {
    match subcategory_entry(c.subcategory_mappings@, category, subcategory) {
        Some(sc) => Some(sc.stars),
        None => None,
    }
}

/// Names of the subcategories of a (trimmed) category.
pub open spec fn subcategory_names_spec(c: AiPromptConfig, category: Seq<char>) -> Seq<Seq<char>> {
    match lookup(c.subcategory_mappings@, trim(category)) {
        Some(subs) => subs@.map_values(|sc: SubcategoryMapping| sc.name@),
        None => Seq::empty(),
    }
}

/// The option id of the first status option called `name`.
pub open spec fn status_id_spec(opts: Seq<StatusOption>, name: Seq<char>) -> Option<Seq<char>>
    decreases opts.len(),
{
    if opts.len() == 0 {
        None
    } else if opts[0].name@ == name {
        Some(opts[0].id@)
    } else {
        status_id_spec(opts.drop_first(), name)
    }
}

/// The option id of the first status option called `name`.
pub fn status_id(opts: &Vec<StatusOption>, name: &str) -> (r: Option<String>)
    ensures
        opt_view(r) == status_id_spec(opts@, name@),
{
    let mut i: usize = 0;
    assert(opts@.skip(0) == opts@);
    while i < opts.len()
        invariant
            i <= opts@.len(),
            status_id_spec(opts@, name@) == status_id_spec(opts@.skip(i as int), name@),
        decreases opts@.len() - i,
    {
        assert(opts@.skip(i as int)[0] == opts@[i as int]);
        if crate::text::str_eq(opts[i].name.as_str(), name) {
            return Some(opts[i].id.clone());
        }
        assert(opts@.skip(i as int).drop_first() == opts@.skip(i + 1));
        i = i + 1;
    }
    None
}

/// Names of the subcategories in `subs`.
pub fn subcategory_names(subs: &Vec<SubcategoryMapping>) -> (r: Vec<String>)
    ensures
        views(r@) == subs@.map_values(|sc: SubcategoryMapping| sc.name@),
{
    let mut r: Vec<String> = Vec::new();
    let mut i: usize = 0;
    while i < subs.len()
        invariant
            i <= subs@.len(),
            views(r@) == subs@.map_values(|sc: SubcategoryMapping| sc.name@).take(i as int),
        decreases subs@.len() - i,
    {
        let n = subs[i].name.clone();
        let ghost r0 = r@;
        r.push(n);
        assert(views(r@) =~= views(r0).push(subs@[i as int].name@));
        i = i + 1;
        assert(views(r@) =~= subs@.map_values(|sc: SubcategoryMapping| sc.name@).take(i as int));
    }
    assert(subs@.map_values(|sc: SubcategoryMapping| sc.name@).take(i as int) == subs@.map_values(
        |sc: SubcategoryMapping| sc.name@,
    ));
    r
}

/// The names of `s`, each once, in the order in which they first occur.
pub open spec fn distinct_names(s: Seq<Seq<char>>) -> Seq<Seq<char>>
    decreases s.len(),
{
    if s.len() == 0 {
        s
    } else {
        let d = distinct_names(s.drop_last());
        if d.contains(s.last()) {
            d
        } else {
            d.push(s.last())
        }
    }
}

/// The distinct names hold no name twice and the same names as `s`; a sequence without
/// duplicates is its own distinct names.
pub proof fn lemma_distinct_names(s: Seq<Seq<char>>)
    ensures
        distinct_names(s).no_duplicates(),
        forall|k: Seq<char>| distinct_names(s).contains(k) <==> s.contains(k),
        s.no_duplicates() ==> distinct_names(s) == s,
    decreases s.len(),
{
    if s.len() > 0 {
        let p = s.drop_last();
        let x = s.last();
        lemma_distinct_names(p);
        let d = distinct_names(p);
        assert forall|k: Seq<char>| s.contains(k) <==> (p.contains(k) || k == x) by {
            if s.contains(k) {
                let j = choose|j: int| 0 <= j < s.len() && s[j] == k;
                if j < s.len() - 1 {
                    assert(p[j] == k);
                }
            }
            if p.contains(k) {
                let j = choose|j: int| 0 <= j < p.len() && p[j] == k;
                assert(s[j] == k);
            }
            if k == x {
                assert(s[s.len() - 1] == k);
            }
        }
        if !d.contains(x) {
            let d2 = d.push(x);
            assert forall|i: int, j: int| 0 <= i < d2.len() && 0 <= j < d2.len() && i != j implies d2[i] != d2[j] by {
                if i < d.len() && j < d.len() {
                    assert(d2[i] == d[i] && d2[j] == d[j]);
                } else if i < d.len() {
                    assert(d2[i] == d[i]);
                } else if j < d.len() {
                    assert(d2[j] == d[j]);
                }
            }
            assert forall|k: Seq<char>| d2.contains(k) <==> (d.contains(k) || k == x) by {
                if d2.contains(k) {
                    let j = choose|j: int| 0 <= j < d2.len() && d2[j] == k;
                    if j < d.len() {
                        assert(d[j] == k);
                    }
                }
                if d.contains(k) {
                    let j = choose|j: int| 0 <= j < d.len() && d[j] == k;
                    assert(d2[j] == k);
                }
                if k == x {
                    assert(d2[d.len() as int] == k);
                }
            }
        }
        if s.no_duplicates() {
            assert forall|i: int, j: int| 0 <= i < p.len() && 0 <= j < p.len() && i != j implies p[i] != p[j] by {
                assert(p[i] == s[i] && p[j] == s[j]);
            }
            assert(!p.contains(x)) by {
                if p.contains(x) {
                    let j = choose|j: int| 0 <= j < p.len() && p[j] == x;
                    assert(s[j] == s[s.len() - 1]);
                }
            }
            assert(s =~= p.push(x));
        }
    }
}

/// Whether one of the names is `k`.
fn contains_name(v: &Vec<String>, k: &str) -> (r: bool)
    ensures
        r == views(v@).contains(k@),
{
    let mut i: usize = 0;
    while i < v.len()
        invariant
            i <= v@.len(),
            forall|j: int| 0 <= j < i ==> v@[j]@ != k@,
        decreases v@.len() - i,
    {
        if crate::text::str_eq(v[i].as_str(), k) {
            assert(views(v@)[i as int] == k@);
            return true;
        }
        i = i + 1;
    }
    assert forall|j: int| 0 <= j < views(v@).len() implies views(v@)[j] != k@ by {
        assert(views(v@)[j] == v@[j]@);
    }
    false
}

impl AiPromptConfig {
    /// Well-formedness: each category name is a key of the category map at most once, as
    /// in a map.
    pub open spec fn wf(self) -> bool {
        unique_keys(self.category_mappings@)
    }

    /// The option id of the category called `name`.
    pub fn get_category_id(&self, name: &str) -> (r: Option<String>)
        ensures
            opt_view(r) == category_id_spec(*self, name@),
    {
        match map_position(&self.category_mappings, name) {
            Some(i) => Some(self.category_mappings[i].1.id.clone()),
            None => None,
        }
    }

    /// The category names, which are the keys of the category map, each once, in the order
    /// in which they first occur.
    pub fn get_available_categories(&self) -> (r: Vec<String>)
        ensures
            views(r@) == distinct_names(keys(self.category_mappings@)),
            views(r@).no_duplicates(),
            forall|k: Seq<char>| views(r@).contains(k) <==> keys(self.category_mappings@).contains(k),
            self.wf() ==> views(r@) == keys(self.category_mappings@),
    {
        let ghost ks = keys(self.category_mappings@);
        let mut r: Vec<String> = Vec::new();
        let mut i: usize = 0;
        while i < self.category_mappings.len()
            invariant
                i <= self.category_mappings@.len(),
                ks == keys(self.category_mappings@),
                views(r@) == distinct_names(ks.take(i as int)),
            decreases self.category_mappings@.len() - i,
        {
            let ghost pre = ks.take(i + 1);
            assert(pre.drop_last() == ks.take(i as int));
            assert(pre.last() == self.category_mappings@[i as int].0@);
            if !contains_name(&r, self.category_mappings[i].0.as_str()) {
                let k = self.category_mappings[i].0.clone();
                let ghost r0 = r@;
                r.push(k);
                assert(views(r@) =~= views(r0).push(k@));
            }
            i = i + 1;
        }
        assert(ks.take(i as int) == ks);
        proof {
            lemma_distinct_names(ks);
            lemma_unique_keys_no_duplicates(self.category_mappings@);
        }
        r
    }

    /// The option id of the subcategory, found under the trimmed category by its trimmed,
    /// case-insensitive name.
    pub fn get_subcategory_id(&self, category: &str, subcategory: &str) -> (r: Option<String>)
        ensures
            opt_view(r) == subcategory_id_spec(*self, category@, subcategory@),
    {
        match find_subcategory_entry(&self.subcategory_mappings, category, subcategory) {
            Some(sc) => Some(sc.id.clone()),
            None => None,
        }
    }

    /// Names of the subcategories of the trimmed category; empty for an unknown category.
    pub fn get_subcategories_for_category(&self, category: &str) -> (r: Vec<String>)
        ensures
            views(r@) == subcategory_names_spec(*self, category@),
    {
        let cat = str_trim(category);
        match map_position(&self.subcategory_mappings, cat.as_str()) {
            Some(p) => subcategory_names(&self.subcategory_mappings[p].1),
            None => Vec::new(),
        }
    }

    /// The stars of the subcategory, found as [`Self::get_subcategory_id`] finds it.
    pub fn get_subcategory_stars(&self, category: &str, subcategory: &str) -> (r: Option<u8>)
        ensures
            r == subcategory_stars_spec(*self, category@, subcategory@),
    {
        match find_subcategory_entry(&self.subcategory_mappings, category, subcategory) {
            Some(sc) => Some(sc.stars),
            None => None,
        }
    }

    /// The ids of the custom fields, if the file gives them.
    pub fn get_field_ids(&self) -> (r: Option<&FieldIds>)
        ensures
            match r {
                Some(x) => self.field_ids == Some(*x),
                None => self.field_ids == None::<FieldIds>,
            },
    {
        self.field_ids.as_ref()
    }

    /// Whether the subcategory belongs to the category.
    pub fn validate_subcategory(&self, category: &str, subcategory: &str) -> (r: bool)
        ensures
            r == subcategory_id_spec(*self, category@, subcategory@).is_some(),
    {
        self.get_subcategory_id(category, subcategory).is_some()
    }

    /// The option id of the status option called `name`.
    pub fn get_status_id(&self, name: &str) -> (r: Option<String>)
        ensures
            opt_view(r) == status_id_spec(self.status_options@, name@),
    {
        status_id(&self.status_options, name)
    }
}

// ---------------------------------------------------------------------------------------
// The classification prompt

/// The line of an activity type: `- name (description)`.
pub open spec fn activity_line(t: ActivityType) -> Seq<char> {
    "- "@ + t.name@ + " ("@ + t.description@ + ")\n"@
}

/// One line per activity type.
pub open spec fn activity_lines(ts: Seq<ActivityType>) -> Seq<char> {
    concat(ts.map_values(|t: ActivityType| activity_line(t)))
}

/// One list line per status option name.
pub open spec fn status_lines(os: Seq<StatusOption>) -> Seq<char> {
    bullet_lines(os.map_values(|o: StatusOption| o.name@))
}

/// The line of a subcategory: `  - name (N estrela)`, with `estrelas` above one star.
pub open spec fn subcat_line(sc: SubcategoryMapping) -> Seq<char> {
    "  - "@ + sc.name@ + " ("@ + decimal(sc.stars as nat) + " estrela"@ + (if sc.stars > 1 {
        "s"@
    } else {
        Seq::empty()
    }) + ")\n"@
}

/// The block of one category: a blank line, `category:`, and one line per subcategory.
pub open spec fn subcat_block(e: (String, Vec<SubcategoryMapping>)) -> Seq<char> {
    "\n"@ + e.0@ + ":\n"@ + concat(e.1@.map_values(|sc: SubcategoryMapping| subcat_line(sc)))
}

/// The blocks of all categories, in map order.
pub open spec fn subcat_blocks(m: Seq<(String, Vec<SubcategoryMapping>)>) -> Seq<char> {
    concat(m.map_values(|e: (String, Vec<SubcategoryMapping>)| subcat_block(e)))
}

/// Portuguese name of a month, `DESCONHECIDO` outside 1..=12.
pub open spec fn month_name_spec(m: nat) -> Seq<char> {
    if m == 1 {
        "JANEIRO"@
    } else if m == 2 {
        "FEVEREIRO"@
    } else if m == 3 {
        "MARÇO"@
    } else if m == 4 {
        "ABRIL"@
    } else if m == 5 {
        "MAIO"@
    } else if m == 6 {
        "JUNHO"@
    } else if m == 7 {
        "JULHO"@
    } else if m == 8 {
        "AGOSTO"@
    } else if m == 9 {
        "SETEMBRO"@
    } else if m == 10 {
        "OUTUBRO"@
    } else if m == 11 {
        "NOVEMBRO"@
    } else if m == 12 {
        "DEZEMBRO"@
    } else {
        "DESCONHECIDO"@
    }
}

/// Portuguese name of a month.
pub fn month_name(m: u32) -> (r: &'static str)
    ensures
        r@ == month_name_spec(m as nat),
{
    if m == 1 {
        "JANEIRO"
    } else if m == 2 {
        "FEVEREIRO"
    } else if m == 3 {
        "MARÇO"
    } else if m == 4 {
        "ABRIL"
    } else if m == 5 {
        "MAIO"
    } else if m == 6 {
        "JUNHO"
    } else if m == 7 {
        "JULHO"
    } else if m == 8 {
        "AGOSTO"
    } else if m == 9 {
        "SETEMBRO"
    } else if m == 10 {
        "OUTUBRO"
    } else if m == 11 {
        "NOVEMBRO"
    } else if m == 12 {
        "DEZEMBRO"
    } else {
        "DESCONHECIDO"
    }
}

/// The date line of the prompt.
pub open spec fn date_line(y: int, m: nat, d: nat) -> Seq<char> {
    "DATA ATUAL: "@ + iso_date(y, m, d) + " (Mês: "@ + month_name_spec(m) + ", Ano: "@ + year_text(y)
        + ")"@
}

/// The prompt for a context on the date `y-m-d`.
pub open spec fn prompt_spec(c: AiPromptConfig, context: Seq<char>, y: int, m: nat, d: nat) -> Seq<char> {
    c.system_role@ + "\n\n"@ + "CONTEXTO DA MENSAGEM:\n"@ + date_line(y, m, d) + "\n"@ + context
        + "\n\n"@ + c.task_description@ + "\n\n"@ + "CATEGORIAS DISPONÍVEIS NO CLICKUP:\n"@
        + bullet_lines(views(c.categories@)) + "\n"@ + "TIPO DE ATIVIDADE:\n"@ + activity_lines(
        c.activity_types@,
    ) + "\n"@ + "STATUS BACK OFFICE:\n"@ + status_lines(c.status_options@) + "\n"@
        + "SUBCATEGORIAS DISPONÍVEIS (por categoria):\n"@ + subcat_blocks(c.subcategory_mappings@)
        + "\n"@ + "REGRAS IMPORTANTES:\n"@ + bullet_lines(views(c.rules@)) + "\n"@
        + c.response_format@
}

/// Appends one line per activity type.
pub fn push_activity_lines(out: &mut String, ts: &Vec<ActivityType>)
    ensures
        final(out)@ == old(out)@ + activity_lines(ts@),
{
    let ghost before = out@;
    let ghost lines = ts@.map_values(|t: ActivityType| activity_line(t));
    let mut i: usize = 0;
    while i < ts.len()
        invariant
            i <= ts@.len(),
            lines == ts@.map_values(|t: ActivityType| activity_line(t)),
            out@ == before + concat(lines.take(i as int)),
        decreases ts@.len() - i,
    {
        proof {
            lemma_concat_step(lines, i as int);
        }
        push_str(out, "- ");
        push_str(out, ts[i].name.as_str());
        push_str(out, " (");
        push_str(out, ts[i].description.as_str());
        push_str(out, ")\n");
        assert(out@ == before + concat(lines.take(i as int)) + lines[i as int]);
        i = i + 1;
    }
    proof {
        lemma_concat_all(lines);
    }
}

/// Appends one list line per status option name.
pub fn push_status_lines(out: &mut String, os: &Vec<StatusOption>)
    ensures
        final(out)@ == old(out)@ + status_lines(os@),
{
    let ghost before = out@;
    let ghost lines = os@.map_values(|o: StatusOption| o.name@).map_values(
        |x: Seq<char>| crate::services::prompt_text::bullet(x),
    );
    let mut i: usize = 0;
    while i < os.len()
        invariant
            i <= os@.len(),
            lines == os@.map_values(|o: StatusOption| o.name@).map_values(
                |x: Seq<char>| crate::services::prompt_text::bullet(x),
            ),
            out@ == before + concat(lines.take(i as int)),
        decreases os@.len() - i,
    {
        proof {
            lemma_concat_step(lines, i as int);
        }
        push_str(out, "- ");
        push_str(out, os[i].name.as_str());
        push_str(out, "\n");
        assert(out@ == before + concat(lines.take(i as int)) + lines[i as int]);
        i = i + 1;
    }
    proof {
        lemma_concat_all(lines);
    }
}

/// Appends the line of one subcategory.
pub fn push_subcat_line(out: &mut String, sc: &SubcategoryMapping)
    ensures
        final(out)@ == old(out)@ + subcat_line(*sc),
{
    push_str(out, "  - ");
    push_str(out, sc.name.as_str());
    push_str(out, " (");
    let n = u64_to_decimal(sc.stars as u64);
    push_str(out, n.as_str());
    push_str(out, " estrela");
    if sc.stars > 1 {
        push_str(out, "s");
    }
    push_str(out, ")\n");
}

/// Appends the block of one category.
pub fn push_subcat_block(out: &mut String, e: &(String, Vec<SubcategoryMapping>))
    ensures
        final(out)@ == old(out)@ + subcat_block(*e),
{
    push_str(out, "\n");
    push_str(out, e.0.as_str());
    push_str(out, ":\n");
    let subs = &e.1;
    let ghost before = out@;
    let ghost lines = subs@.map_values(|sc: SubcategoryMapping| subcat_line(sc));
    let mut i: usize = 0;
    while i < subs.len()
        invariant
            i <= subs@.len(),
            lines == subs@.map_values(|sc: SubcategoryMapping| subcat_line(sc)),
            out@ == before + concat(lines.take(i as int)),
        decreases subs@.len() - i,
    {
        proof {
            lemma_concat_step(lines, i as int);
        }
        push_subcat_line(out, &subs[i]);
        i = i + 1;
    }
    proof {
        lemma_concat_all(lines);
    }
}

/// Appends the blocks of all categories.
pub fn push_subcat_blocks(out: &mut String, m: &Vec<(String, Vec<SubcategoryMapping>)>)
    ensures
        final(out)@ == old(out)@ + subcat_blocks(m@),
{
    let ghost before = out@;
    let ghost lines = m@.map_values(|e: (String, Vec<SubcategoryMapping>)| subcat_block(e));
    let mut i: usize = 0;
    while i < m.len()
        invariant
            i <= m@.len(),
            lines == m@.map_values(|e: (String, Vec<SubcategoryMapping>)| subcat_block(e)),
            out@ == before + concat(lines.take(i as int)),
        decreases m@.len() - i,
    {
        proof {
            lemma_concat_step(lines, i as int);
        }
        push_subcat_block(out, &m[i]);
        i = i + 1;
    }
    proof {
        lemma_concat_all(lines);
    }
}

/// Today's local date as year, month and day, read with `chrono::Local::now`.
#[verifier::external_body]
fn local_today() -> (r: (i32, u32, u32))
    ensures
        1 <= r.1 <= 12,
        1 <= r.2 <= 31,
{
    let now = chrono::Local::now();
    (now.year(), now.month(), now.day())
}

impl AiPromptConfig {
    /// The classification prompt for `context` on the date `year-month-day`.
    #[verifier::rlimit(60)]
    #[verifier::spinoff_prover]
    pub fn generate_prompt_at(&self, context: &str, year: i32, month: u32, day: u32) -> (r: String)
        requires
            month < 100,
            day < 100,
        ensures
            r@ == prompt_spec(*self, context@, year as int, month as nat, day as nat),
    {
        let mut p = String::new();
        push_str(&mut p, self.system_role.as_str());
        push_str(&mut p, "\n\n");
        push_str(&mut p, "CONTEXTO DA MENSAGEM:\n");
        push_str(&mut p, "DATA ATUAL: ");
        push_iso_date(&mut p, year, month, day);
        push_str(&mut p, " (Mês: ");
        push_str(&mut p, month_name(month));
        push_str(&mut p, ", Ano: ");
        push_year(&mut p, year);
        push_str(&mut p, ")");
        push_str(&mut p, "\n");
        push_str(&mut p, context);
        push_str(&mut p, "\n\n");
        push_str(&mut p, self.task_description.as_str());
        push_str(&mut p, "\n\n");
        push_str(&mut p, "CATEGORIAS DISPONÍVEIS NO CLICKUP:\n");
        push_bullets(&mut p, &self.categories);
        push_str(&mut p, "\n");
        push_str(&mut p, "TIPO DE ATIVIDADE:\n");
        push_activity_lines(&mut p, &self.activity_types);
        push_str(&mut p, "\n");
        push_str(&mut p, "STATUS BACK OFFICE:\n");
        push_status_lines(&mut p, &self.status_options);
        push_str(&mut p, "\n");
        push_str(&mut p, "SUBCATEGORIAS DISPONÍVEIS (por categoria):\n");
        push_subcat_blocks(&mut p, &self.subcategory_mappings);
        push_str(&mut p, "\n");
        push_str(&mut p, "REGRAS IMPORTANTES:\n");
        push_bullets(&mut p, &self.rules);
        push_str(&mut p, "\n");
        push_str(&mut p, self.response_format.as_str());
        p
    }

    /// The classification prompt for `context`, dated with today's local date.
    pub fn generate_prompt(&self, context: &str) -> (r: String)
        ensures
            exists|y: int, m: nat, d: nat|
                1 <= m <= 12 && 1 <= d <= 31 && r@ == prompt_spec(*self, context@, y, m, d),
    {
        let (y, m, d) = local_today();
        let r = self.generate_prompt_at(context, y, m, d);
        assert(r@ == prompt_spec(*self, context@, y as int, m as nat, d as nat));
        r
    }
}

/// The output format asked of the classifier when no configuration file can be read.
pub open spec fn fallback_response_format() -> Seq<char> {
    "Responda APENAS com JSON válido:\n{\n  \"is_activity\": true/false,\n  \"reason\": \"título curto e profissional (máximo 5 palavras)\",\n  \"tipo_atividade\": \"tipo da atividade\",\n  \"category\": \"categoria\",\n  \"sub_categoria\": \"subcategoria ou null\",\n  \"subtasks\": [],\n  \"status_back_office\": \"status\"\n}"@
}

/// An activity type.
fn activity_type(name: &str, description: &str, id: &str) -> (r: ActivityType)
    ensures
        r.name@ == name@,
        r.description@ == description@,
        r.id@ == id@,
{
    ActivityType { name: owned(name), description: owned(description), id: owned(id) }
}

impl AiPromptConfig {
    /// The configuration used when the file cannot be read: six categories, two activity
    /// types, one status, two rules and no mappings.
    pub fn fallback() -> (r: Self)
        ensures
            r.system_role@ == "Você é um assistente especializado em classificar solicitações e mapear campos para o sistema ClickUp."@,
            r.task_description@ == "Classifique se é uma atividade de trabalho válida e determine os campos apropriados."@,
            views(r.categories@) == seq!["Agendamentos"@, "Compras"@, "Documentos"@, "Lazer"@, "Logística"@, "Viagens"@],
            r.activity_types@.len() == 2,
            r.activity_types@[0].name@ == "Rotineira"@,
            r.activity_types@[0].description@ == "tarefas recorrentes e do dia a dia"@,
            r.activity_types@[0].id@ == "64f034f3-c5db-46e5-80e5-f515f11e2131"@,
            r.activity_types@[1].name@ == "Especifica"@,
            r.activity_types@[1].description@ == "tarefas pontuais com propósito específico"@,
            r.activity_types@[1].id@ == "e85a4dc7-82d8-4f63-89ee-462232f50f31"@,
            r.status_options@.len() == 1,
            r.status_options@[0].name@ == "Executar"@,
            r.status_options@[0].id@ == "7889796f-033f-450d-97dd-6fee2a44f1b1"@,
            r.category_mappings@.len() == 0,
            r.wf(),
            r.subcategory_mappings@.len() == 0,
            r.subcategory_examples@.len() == 0,
            views(r.rules@) == seq![
                "Sempre escolha valores EXATOS das listas fornecidas"@,
                "Se não houver certeza, classifique como false"@,
            ],
            r.response_format@ == fallback_response_format(),
            r.field_ids.is_none(),
            r.cliente_solicitante_mappings@.len() == 0,
    {
        let mut categories: Vec<String> = Vec::new();
        categories.push(owned("Agendamentos"));
        categories.push(owned("Compras"));
        categories.push(owned("Documentos"));
        categories.push(owned("Lazer"));
        categories.push(owned("Logística"));
        categories.push(owned("Viagens"));
        let mut activity_types: Vec<ActivityType> = Vec::new();
        activity_types.push(activity_type("Rotineira", "tarefas recorrentes e do dia a dia", "64f034f3-c5db-46e5-80e5-f515f11e2131"));
        activity_types.push(activity_type("Especifica", "tarefas pontuais com propósito específico", "e85a4dc7-82d8-4f63-89ee-462232f50f31"));
        let mut status_options: Vec<StatusOption> = Vec::new();
        status_options.push(StatusOption { name: owned("Executar"), id: owned("7889796f-033f-450d-97dd-6fee2a44f1b1") });
        let mut rules: Vec<String> = Vec::new();
        rules.push(owned("Sempre escolha valores EXATOS das listas fornecidas"));
        rules.push(owned("Se não houver certeza, classifique como false"));
        let r = AiPromptConfig {
            system_role: owned("Você é um assistente especializado em classificar solicitações e mapear campos para o sistema ClickUp."),
            task_description: owned("Classifique se é uma atividade de trabalho válida e determine os campos apropriados."),
            categories,
            activity_types,
            status_options,
            category_mappings: Vec::new(),
            subcategory_mappings: Vec::new(),
            subcategory_examples: Vec::new(),
            rules,
            response_format: owned("Responda APENAS com JSON válido:\n{\n  \"is_activity\": true/false,\n  \"reason\": \"título curto e profissional (máximo 5 palavras)\",\n  \"tipo_atividade\": \"tipo da atividade\",\n  \"category\": \"categoria\",\n  \"sub_categoria\": \"subcategoria ou null\",\n  \"subtasks\": [],\n  \"status_back_office\": \"status\"\n}"),
            field_ids: None,
            cliente_solicitante_mappings: Vec::new(),
        };
        assert(views(r.categories@) =~= seq!["Agendamentos"@, "Compras"@, "Documentos"@, "Lazer"@, "Logística"@, "Viagens"@]);
        assert(views(r.rules@) =~= seq![
            "Sempre escolha valores EXATOS das listas fornecidas"@,
            "Se não houver certeza, classifique como false"@,
        ]);
        r
    }
}

} // verus!
