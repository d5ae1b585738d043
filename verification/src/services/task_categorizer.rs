//! Keyword-based task categorisation.

use vstd::prelude::*;
use crate::text::{contains, contains_exec, chars_of, lowercase, to_lowercase, owned};

verus! {

/// ClickUp id of the category custom field.
pub const FIELD_CATEGORIA: &'static str = "eac5bbd3-4ff6-41ac-aa93-0a13a5a2c75a";
/// ClickUp id of the subcategory custom field.
pub const FIELD_SUBCATEGORIA: &'static str = "5333c095-eb40-4a5a-b0c2-76bfba4b1094";
/// ClickUp id of the stars custom field.
pub const FIELD_ESTRELAS: &'static str = "83afcb8c-2866-498f-9c62-8ea9666b104b";

/// Automatic categorisation of a task.
#[derive(Debug, Clone)]
pub struct Categorization {
    pub categoria: String,
    pub subcategoria: String,
    pub estrelas: u8,
}

/// A keyword rule: any of `keywords` selects the category pair.
pub struct KeywordRule {
    pub keywords: Vec<&'static str>,
    pub categoria: &'static str,
    pub subcategoria: &'static str,
}

/// The keyword rules, tried in this order.
pub open spec fn spec_rules() -> Seq<(Seq<Seq<char>>, Seq<char>, Seq<char>)> {
    seq![        (seq!["motoboy"@], "Logística"@, "Corrida de motoboy"@),
        (seq!["sedex"@, "correio"@], "Logística"@, "Motoboy + Correios e envios internacionais"@),
        (seq!["lalamove"@], "Logística"@, "Lalamove"@),
        (seq!["uber"@, "99"@], "Logística"@, "Transporte Urbano (Uber/99)"@),
        (seq!["taxista"@], "Logística"@, "Corridas com Taxistas"@),
        (seq!["entrega"@, "retirada"@], "Logística"@, "Corrida de motoboy"@),
        (seq!["reembolso"@, "bradesco saúde"@, "plano de saúde"@], "Plano de Saúde"@, "Reembolso Médico"@),
        (seq!["mercado"@], "Compras"@, "Mercados"@),
        (seq!["farmácia"@], "Compras"@, "Farmácia"@),
        (seq!["presente"@], "Compras"@, "Presentes"@),
        (seq!["shopper"@], "Compras"@, "Shopper"@),
        (seq!["papelaria"@], "Compras"@, "Papelaria"@),
        (seq!["petshop"@], "Compras"@, "Petshop"@),
        (seq!["ingresso"@], "Compras"@, "Ingressos"@),
        (seq!["troca"@], "Assuntos Pessoais"@, "Troca de titularidade"@),
        (seq!["internet"@], "Assuntos Pessoais"@, "Internet e TV por Assinatura"@),
        (seq!["telefone"@], "Assuntos Pessoais"@, "Telefone"@),
        (seq!["conserto"@], "Assuntos Pessoais"@, "Consertos na Casa"@),
        (seq!["assistência"@], "Assuntos Pessoais"@, "Assistência Técnica"@),
        (seq!["pagamento"@], "Financeiro"@, "Rotina de Pagamentos"@),
        (seq!["boleto"@], "Financeiro"@, "Emissão de boletos"@),
        (seq!["nota fiscal"@], "Financeiro"@, "Emissão de NF"@),
        (seq!["passagem"@], "Viagens"@, "Passagens Aéreas"@),
        (seq!["hospedagem"@, "hotel"@], "Viagens"@, "Hospedagens"@),
        (seq!["check in"@], "Viagens"@, "Checkins (Early/Late)"@),
        (seq!["bagagem"@], "Viagens"@, "Extravio de Bagagens"@),
        (seq!["consulta"@], "Agendamentos"@, "Consultas"@),
        (seq!["exame"@], "Agendamentos"@, "Exames"@),
        (seq!["vacina"@], "Agendamentos"@, "Vacinas"@),
        (seq!["manicure"@], "Agendamentos"@, "Manicure"@),
        (seq!["cabeleireiro"@], "Agendamentos"@, "Cabeleleiro"@),
        (seq!["restaurante"@, "reserva"@], "Lazer"@, "Reserva de restaurantes/bares"@),
        (seq!["festa"@], "Lazer"@, "Planejamento de festas"@),
        (seq!["passaporte"@], "Documentos"@, "Passaporte"@),
        (seq!["cnh"@], "Documentos"@, "CNH"@),
        (seq!["cidadania"@], "Documentos"@, "Cidadanias"@),
        (seq!["visto"@], "Documentos"@, "Vistos e Vistos Eletrônicos"@),
        (seq!["certidão"@], "Documentos"@, "Certidões"@),
        (seq!["contrato"@], "Documentos"@, "Contratos/Procurações"@),
    ]
}

/// The stars given to each subcategory.
pub open spec fn spec_star_table() -> Seq<(Seq<char>, u8)> {
    seq![
        ("Consultas"@, 1u8),
        ("Exames"@, 1u8),
        ("Veterinário/Petshop (Consultas/Exames/Banhos/Tosas)"@, 1u8),
        ("Vacinas"@, 1u8),
        ("Manicure"@, 1u8),
        ("Cabeleleiro"@, 1u8),
        ("Shopper"@, 2u8),
        ("Mercados"@, 1u8),
        ("Presentes"@, 1u8),
        ("Petshop"@, 1u8),
        ("Papelaria"@, 1u8),
        ("Farmácia"@, 2u8),
        ("Ingressos"@, 2u8),
        ("Móveis e Eletros"@, 2u8),
        ("Itens pessoais e da casa"@, 2u8),
        ("CIN"@, 1u8),
        ("Certificado Digital"@, 2u8),
        ("Documento de Vacinação (BR/Iternacional)"@, 1u8),
        ("Seguros Carro/Casa/Viagem (anual)"@, 2u8),
        ("Assinatura Digital"@, 1u8),
        ("Contratos/Procurações"@, 1u8),
        ("Cidadanias"@, 4u8),
        ("Vistos e Vistos Eletrônicos"@, 2u8),
        ("Passaporte"@, 1u8),
        ("CNH"@, 1u8),
        ("Averbações"@, 1u8),
        ("Certidões"@, 1u8),
        ("Reserva de restaurantes/bares"@, 1u8),
        ("Planejamento de festas"@, 4u8),
        ("Pesquisa de passeios/eventos (BR)"@, 3u8),
        ("Fornecedores no exterior (passeios, fotógrafos)"@, 2u8),
        ("Corrida de motoboy"@, 1u8),
        ("Motoboy + Correios e envios internacionais"@, 1u8),
        ("Lalamove"@, 1u8),
        ("Corridas com Taxistas"@, 1u8),
        ("Transporte Urbano (Uber/99)"@, 1u8),
        ("Passagens Aéreas"@, 2u8),
        ("Hospedagens"@, 2u8),
        ("Compra de Assentos e Bagagens"@, 1u8),
        ("Passagens de Ônibus"@, 1u8),
        ("Passagens de Trem"@, 2u8),
        ("Checkins (Early/Late)"@, 1u8),
        ("Extravio de Bagagens"@, 2u8),
        ("Seguro Viagem (Temporário)"@, 1u8),
        ("Transfer"@, 2u8),
        ("Programa de Milhagem"@, 1u8),
        ("Gestão de Contas (CIAs Aereas)"@, 1u8),
        ("Aluguel de Carro/Ônibus e Vans"@, 2u8),
        ("Roteiro de Viagens"@, 3u8),
        ("Reembolso Médico"@, 2u8),
        ("Extrato para IR"@, 1u8),
        ("Prévia de Reembolso"@, 1u8),
        ("Contestações"@, 1u8),
        ("Autorizações"@, 1u8),
        ("Contratações/Cancelamentos"@, 2u8),
        ("Gestão de Agenda"@, 1u8),
        ("Criação e envio de invites"@, 1u8),
        ("Emissão de NF"@, 1u8),
        ("Rotina de Pagamentos"@, 1u8),
        ("Emissão de boletos"@, 1u8),
        ("Conciliação Bancária"@, 2u8),
        ("Planilha de Gastos/Pagamentos"@, 4u8),
        ("Encerramento e Abertura de CNPJ"@, 2u8),
        ("Imposto de Renda"@, 1u8),
        ("Emissão de Guias de Imposto (DARF, DAS, DIRF, GPS)"@, 1u8),
        ("Mudanças"@, 3u8),
        ("Troca de titularidade"@, 1u8),
        ("Assuntos do Carro/Moto"@, 1u8),
        ("Internet e TV por Assinatura"@, 1u8),
        ("Contas de Consumo"@, 1u8),
        ("Anúncio de Vendas Online (Itens, eletros. móveis)"@, 3u8),
        ("Assuntos Escolares e Professores Particulares"@, 1u8),
        ("Academia e Cursos Livres"@, 1u8),
        ("Telefone"@, 1u8),
        ("Assistência Técnica"@, 1u8),
        ("Consertos na Casa"@, 1u8),
        ("Financeiro/Contábil"@, 1u8),
        ("Atendimento ao Cliente"@, 1u8),
        ("Gestão de Planilhas e Emails"@, 4u8),
        ("Documentos/Contratos e Assinaturas"@, 1u8),
        ("Gestão de Agenda (Corporativa)"@, 1u8),
        ("Recursos Humanos"@, 1u8),
        ("Gestão de Estoque"@, 1u8),
        ("Compras/vendas"@, 1u8),
        ("Fornecedores"@, 2u8),
        ("eSocial"@, 1u8),
        ("Contratações e Desligamentos"@, 1u8),
        ("DIRF"@, 1u8),
        ("Férias"@, 1u8),
    ]
}

/// View of an executable rule.
pub open spec fn rule_view(r: KeywordRule) -> (Seq<Seq<char>>, Seq<char>, Seq<char>) {
    (r.keywords@.map_values(|k: &str| k@), r.categoria@, r.subcategoria@)
}

/// The keyword rules as executable data.
pub fn keyword_rules() -> (r: Vec<KeywordRule>)
    ensures
        r@.map_values(|x: KeywordRule| rule_view(x)) == spec_rules(),
{
    let r = vec![
        KeywordRule { keywords: vec!["motoboy"], categoria: "Logística", subcategoria: "Corrida de motoboy" },
        KeywordRule { keywords: vec!["sedex", "correio"], categoria: "Logística", subcategoria: "Motoboy + Correios e envios internacionais" },
        KeywordRule { keywords: vec!["lalamove"], categoria: "Logística", subcategoria: "Lalamove" },
        KeywordRule { keywords: vec!["uber", "99"], categoria: "Logística", subcategoria: "Transporte Urbano (Uber/99)" },
        KeywordRule { keywords: vec!["taxista"], categoria: "Logística", subcategoria: "Corridas com Taxistas" },
        KeywordRule { keywords: vec!["entrega", "retirada"], categoria: "Logística", subcategoria: "Corrida de motoboy" },
        KeywordRule { keywords: vec!["reembolso", "bradesco saúde", "plano de saúde"], categoria: "Plano de Saúde", subcategoria: "Reembolso Médico" },
        KeywordRule { keywords: vec!["mercado"], categoria: "Compras", subcategoria: "Mercados" },
        KeywordRule { keywords: vec!["farmácia"], categoria: "Compras", subcategoria: "Farmácia" },
        KeywordRule { keywords: vec!["presente"], categoria: "Compras", subcategoria: "Presentes" },
        KeywordRule { keywords: vec!["shopper"], categoria: "Compras", subcategoria: "Shopper" },
        KeywordRule { keywords: vec!["papelaria"], categoria: "Compras", subcategoria: "Papelaria" },
        KeywordRule { keywords: vec!["petshop"], categoria: "Compras", subcategoria: "Petshop" },
        KeywordRule { keywords: vec!["ingresso"], categoria: "Compras", subcategoria: "Ingressos" },
        KeywordRule { keywords: vec!["troca"], categoria: "Assuntos Pessoais", subcategoria: "Troca de titularidade" },
        KeywordRule { keywords: vec!["internet"], categoria: "Assuntos Pessoais", subcategoria: "Internet e TV por Assinatura" },
        KeywordRule { keywords: vec!["telefone"], categoria: "Assuntos Pessoais", subcategoria: "Telefone" },
        KeywordRule { keywords: vec!["conserto"], categoria: "Assuntos Pessoais", subcategoria: "Consertos na Casa" },
        KeywordRule { keywords: vec!["assistência"], categoria: "Assuntos Pessoais", subcategoria: "Assistência Técnica" },
        KeywordRule { keywords: vec!["pagamento"], categoria: "Financeiro", subcategoria: "Rotina de Pagamentos" },
        KeywordRule { keywords: vec!["boleto"], categoria: "Financeiro", subcategoria: "Emissão de boletos" },
        KeywordRule { keywords: vec!["nota fiscal"], categoria: "Financeiro", subcategoria: "Emissão de NF" },
        KeywordRule { keywords: vec!["passagem"], categoria: "Viagens", subcategoria: "Passagens Aéreas" },
        KeywordRule { keywords: vec!["hospedagem", "hotel"], categoria: "Viagens", subcategoria: "Hospedagens" },
        KeywordRule { keywords: vec!["check in"], categoria: "Viagens", subcategoria: "Checkins (Early/Late)" },
        KeywordRule { keywords: vec!["bagagem"], categoria: "Viagens", subcategoria: "Extravio de Bagagens" },
        KeywordRule { keywords: vec!["consulta"], categoria: "Agendamentos", subcategoria: "Consultas" },
        KeywordRule { keywords: vec!["exame"], categoria: "Agendamentos", subcategoria: "Exames" },
        KeywordRule { keywords: vec!["vacina"], categoria: "Agendamentos", subcategoria: "Vacinas" },
        KeywordRule { keywords: vec!["manicure"], categoria: "Agendamentos", subcategoria: "Manicure" },
        KeywordRule { keywords: vec!["cabeleireiro"], categoria: "Agendamentos", subcategoria: "Cabeleleiro" },
        KeywordRule { keywords: vec!["restaurante", "reserva"], categoria: "Lazer", subcategoria: "Reserva de restaurantes/bares" },
        KeywordRule { keywords: vec!["festa"], categoria: "Lazer", subcategoria: "Planejamento de festas" },
        KeywordRule { keywords: vec!["passaporte"], categoria: "Documentos", subcategoria: "Passaporte" },
        KeywordRule { keywords: vec!["cnh"], categoria: "Documentos", subcategoria: "CNH" },
        KeywordRule { keywords: vec!["cidadania"], categoria: "Documentos", subcategoria: "Cidadanias" },
        KeywordRule { keywords: vec!["visto"], categoria: "Documentos", subcategoria: "Vistos e Vistos Eletrônicos" },
        KeywordRule { keywords: vec!["certidão"], categoria: "Documentos", subcategoria: "Certidões" },
        KeywordRule { keywords: vec!["contrato"], categoria: "Documentos", subcategoria: "Contratos/Procurações" },
    ];
    assert(r@.map_values(|x: KeywordRule| rule_view(x)) =~~= spec_rules());
    r
}

/// The star table as executable data.
pub fn star_table() -> (r: Vec<(&'static str, u8)>)
    ensures
        r@.map_values(|x: (&str, u8)| (x.0@, x.1)) == spec_star_table(),
{
    let r = vec![
        ("Consultas", 1u8),
        ("Exames", 1u8),
        ("Veterinário/Petshop (Consultas/Exames/Banhos/Tosas)", 1u8),
        ("Vacinas", 1u8),
        ("Manicure", 1u8),
        ("Cabeleleiro", 1u8),
        ("Shopper", 2u8),
        ("Mercados", 1u8),
        ("Presentes", 1u8),
        ("Petshop", 1u8),
        ("Papelaria", 1u8),
        ("Farmácia", 2u8),
        ("Ingressos", 2u8),
        ("Móveis e Eletros", 2u8),
        ("Itens pessoais e da casa", 2u8),
        ("CIN", 1u8),
        ("Certificado Digital", 2u8),
        ("Documento de Vacinação (BR/Iternacional)", 1u8),
        ("Seguros Carro/Casa/Viagem (anual)", 2u8),
        ("Assinatura Digital", 1u8),
        ("Contratos/Procurações", 1u8),
        ("Cidadanias", 4u8),
        ("Vistos e Vistos Eletrônicos", 2u8),
        ("Passaporte", 1u8),
        ("CNH", 1u8),
        ("Averbações", 1u8),
        ("Certidões", 1u8),
        ("Reserva de restaurantes/bares", 1u8),
        ("Planejamento de festas", 4u8),
        ("Pesquisa de passeios/eventos (BR)", 3u8),
        ("Fornecedores no exterior (passeios, fotógrafos)", 2u8),
        ("Corrida de motoboy", 1u8),
        ("Motoboy + Correios e envios internacionais", 1u8),
        ("Lalamove", 1u8),
        ("Corridas com Taxistas", 1u8),
        ("Transporte Urbano (Uber/99)", 1u8),
        ("Passagens Aéreas", 2u8),
        ("Hospedagens", 2u8),
        ("Compra de Assentos e Bagagens", 1u8),
        ("Passagens de Ônibus", 1u8),
        ("Passagens de Trem", 2u8),
        ("Checkins (Early/Late)", 1u8),
        ("Extravio de Bagagens", 2u8),
        ("Seguro Viagem (Temporário)", 1u8),
        ("Transfer", 2u8),
        ("Programa de Milhagem", 1u8),
        ("Gestão de Contas (CIAs Aereas)", 1u8),
        ("Aluguel de Carro/Ônibus e Vans", 2u8),
        ("Roteiro de Viagens", 3u8),
        ("Reembolso Médico", 2u8),
        ("Extrato para IR", 1u8),
        ("Prévia de Reembolso", 1u8),
        ("Contestações", 1u8),
        ("Autorizações", 1u8),
        ("Contratações/Cancelamentos", 2u8),
        ("Gestão de Agenda", 1u8),
        ("Criação e envio de invites", 1u8),
        ("Emissão de NF", 1u8),
        ("Rotina de Pagamentos", 1u8),
        ("Emissão de boletos", 1u8),
        ("Conciliação Bancária", 2u8),
        ("Planilha de Gastos/Pagamentos", 4u8),
        ("Encerramento e Abertura de CNPJ", 2u8),
        ("Imposto de Renda", 1u8),
        ("Emissão de Guias de Imposto (DARF, DAS, DIRF, GPS)", 1u8),
        ("Mudanças", 3u8),
        ("Troca de titularidade", 1u8),
        ("Assuntos do Carro/Moto", 1u8),
        ("Internet e TV por Assinatura", 1u8),
        ("Contas de Consumo", 1u8),
        ("Anúncio de Vendas Online (Itens, eletros. móveis)", 3u8),
        ("Assuntos Escolares e Professores Particulares", 1u8),
        ("Academia e Cursos Livres", 1u8),
        ("Telefone", 1u8),
        ("Assistência Técnica", 1u8),
        ("Consertos na Casa", 1u8),
        ("Financeiro/Contábil", 1u8),
        ("Atendimento ao Cliente", 1u8),
        ("Gestão de Planilhas e Emails", 4u8),
        ("Documentos/Contratos e Assinaturas", 1u8),
        ("Gestão de Agenda (Corporativa)", 1u8),
        ("Recursos Humanos", 1u8),
        ("Gestão de Estoque", 1u8),
        ("Compras/vendas", 1u8),
        ("Fornecedores", 2u8),
        ("eSocial", 1u8),
        ("Contratações e Desligamentos", 1u8),
        ("DIRF", 1u8),
        ("Férias", 1u8),
    ];
    assert(r@.map_values(|x: (&str, u8)| (x.0@, x.1)) =~= spec_star_table());
    r
}

/// Some keyword of `kws` occurs in `t`.
pub open spec fn any_keyword(t: Seq<char>, kws: Seq<Seq<char>>) -> bool {
    exists|k: int| 0 <= k < kws.len() && contains(t, #[trigger] kws[k])
}

/// Category pair of the first rule of `rules` with a keyword in `t`.
pub open spec fn first_rule(t: Seq<char>, rules: Seq<(Seq<Seq<char>>, Seq<char>, Seq<char>)>) -> Option<
    (Seq<char>, Seq<char>),
>
    decreases rules.len(),
{
    if rules.len() == 0 {
        None
    } else if any_keyword(t, rules[0].0) {
        Some((rules[0].1, rules[0].2))
    } else {
        first_rule(t, rules.drop_first())
    }
}

/// Stars listed for `sub` in `table`, at its first entry for `sub`.
pub open spec fn star_lookup(table: Seq<(Seq<char>, u8)>, sub: Seq<char>) -> Option<u8>
    decreases table.len(),
{
    if table.len() == 0 {
        None
    } else if table[0].0 == sub {
        Some(table[0].1)
    } else {
        star_lookup(table.drop_first(), sub)
    }
}

/// Stars of a subcategory: its table entry, or 1 where it has none.
pub open spec fn stars_for(sub: Seq<char>) -> u8 {
    match star_lookup(spec_star_table(), sub) {
        Some(n) => n,
        None => 1,
    }
}

/// Categorisation of an already lowercased text.
pub open spec fn categorize_lowered_spec(t: Seq<char>) -> Option<(Seq<char>, Seq<char>, u8)> {
    match first_rule(t, spec_rules()) {
        Some((c, s)) => Some((c, s, stars_for(s))),
        None => None,
    }
}

/// View of a categorisation.
pub open spec fn categorization_view(c: Categorization) -> (Seq<char>, Seq<char>, u8) {
    (c.categoria@, c.subcategoria@, c.estrelas)
}

/// View of an optional categorisation.
pub open spec fn opt_categorization_view(r: Option<Categorization>) -> Option<(Seq<char>, Seq<char>, u8)> {
    match r {
        Some(c) => Some(categorization_view(c)),
        None => None,
    }
}

/// Stars of `subcategoria`.
fn stars_of(subcategoria: &str) -> (r: u8)
    ensures
        r == stars_for(subcategoria@),
{
    let table = star_table();
    let sub = chars_of(subcategoria);
    let ghost spec_table = spec_star_table();
    let mut i: usize = 0;
    assert(spec_table.skip(0) == spec_table);
    while i < table.len()
        invariant
            table@.map_values(|x: (&str, u8)| (x.0@, x.1)) == spec_table,
            spec_table == spec_star_table(),
            sub@ == subcategoria@,
            i <= table@.len(),
            star_lookup(spec_table, sub@) == star_lookup(spec_table.skip(i as int), sub@),
        decreases table@.len() - i,
    {
        let (name, stars) = table[i];
        assert(spec_table[i as int] == (name@, stars));
        if crate::text::str_eq(name, subcategoria) {
            return stars;
        }
        assert(spec_table.skip(i as int).drop_first() == spec_table.skip(i + 1));
        i = i + 1;
    }
    1
}

/// Builds the categorisation for one category pair.
pub fn categorize(categoria: &str, subcategoria: &str) -> (r: Categorization)
    ensures
        categorization_view(r) == (categoria@, subcategoria@, stars_for(subcategoria@)),
{
    let estrelas = stars_of(subcategoria);
    Categorization { categoria: owned(categoria), subcategoria: owned(subcategoria), estrelas }
}

/// Whether some keyword of `kws` occurs in `t`.
fn any_keyword_exec(t: &[char], kws: &Vec<&'static str>) -> (r: bool)
    ensures
        r == any_keyword(t@, kws@.map_values(|k: &str| k@)),
{
    let ghost ks = kws@.map_values(|k: &str| k@);
    let mut i: usize = 0;
    while i < kws.len()
        invariant
            ks == kws@.map_values(|k: &str| k@),
            i <= kws@.len(),
            forall|j: int| 0 <= j < i ==> !contains(t@, #[trigger] ks[j]),
        decreases kws@.len() - i,
    {
        let kv = chars_of(kws[i]);
        assert(ks[i as int] == kws@[i as int]@);
        if contains_exec(t, kv.as_slice()) {
            return true;
        }
        i = i + 1;
    }
    false
}

/// Categorisation of a text that is already lowercased: the first rule with a keyword
/// occurring in the text decides.
pub fn categorize_lowered(text_lower: &str) -> (r: Option<Categorization>)
    ensures
        opt_categorization_view(r) == categorize_lowered_spec(text_lower@),
{
    let rules = keyword_rules();
    let t = chars_of(text_lower);
    let ghost spec_r = spec_rules();
    let mut i: usize = 0;
    assert(spec_r.skip(0) == spec_r);
    while i < rules.len()
        invariant
            rules@.map_values(|x: KeywordRule| rule_view(x)) == spec_r,
            spec_r == spec_rules(),
            t@ == text_lower@,
            i <= rules@.len(),
            first_rule(t@, spec_r) == first_rule(t@, spec_r.skip(i as int)),
        decreases rules@.len() - i,
    {
        let rule = &rules[i];
        assert(spec_r[i as int] == rule_view(*rule));
        assert(spec_r.skip(i as int)[0] == spec_r[i as int]);
        if any_keyword_exec(t.as_slice(), &rule.keywords) {
            return Some(categorize(rule.categoria, rule.subcategoria));
        }
        assert(spec_r.skip(i as int).drop_first() == spec_r.skip(i + 1));
        i = i + 1;
    }
    None
}

/// Analyses the text of a task and returns its automatic categorisation: the text is
/// lowercased and the first keyword rule that matches decides.
pub fn categorize_task(text: &str) -> (r: Option<Categorization>)
    ensures
        opt_categorization_view(r) == categorize_lowered_spec(lowercase(text@)),
{
    let lower = to_lowercase(text);
    categorize_lowered(lower.as_str())
}

// ---------------------------------------------------------------------------------------
// What each keyword selects

/// None of `kws` occurs in `t`.
pub open spec fn none_of(t: Seq<char>, kws: Seq<Seq<char>>) -> bool {
    forall|k: int| 0 <= k < kws.len() ==> !contains(t, #[trigger] kws[k])
}

/// The first rule with a keyword in `t` is the one at `i` when no earlier rule has one.
proof fn lemma_first_rule_at(t: Seq<char>, rules: Seq<(Seq<Seq<char>>, Seq<char>, Seq<char>)>, i: int)
    requires
        0 <= i < rules.len(),
        forall|j: int| 0 <= j < i ==> !any_keyword(t, #[trigger] rules[j].0),
        any_keyword(t, rules[i].0),
    ensures
        first_rule(t, rules) == Some((rules[i].1, rules[i].2)),
    decreases i,
{
    if i > 0 {
        assert(!any_keyword(t, rules[0].0));
        let rest = rules.drop_first();
        assert forall|j: int| 0 <= j < i - 1 implies !any_keyword(t, #[trigger] rest[j].0) by {
            assert(rest[j] == rules[j + 1]);
        }
        assert(rest[i - 1] == rules[i]);
        lemma_first_rule_at(t, rest, i - 1);
    }
}

/// The stars of the entry at `i` when no earlier entry names the same subcategory.
proof fn lemma_star_at(table: Seq<(Seq<char>, u8)>, sub: Seq<char>, i: int)
    requires
        0 <= i < table.len(),
        table[i].0 == sub,
        forall|j: int| 0 <= j < i ==> (#[trigger] table[j]).0 != sub,
    ensures
        star_lookup(table, sub) == Some(table[i].1),
    decreases i,
{
    if i > 0 {
        let rest = table.drop_first();
        assert forall|j: int| 0 <= j < i - 1 implies (#[trigger] rest[j]).0 != sub by {
            assert(rest[j] == table[j + 1]);
        }
        lemma_star_at(rest, sub, i - 1);
    }
}

#[verifier::spinoff_prover]
/// A text that contains "motoboy" is categorised as "Logística" / "Corrida de motoboy" with 1 star.
pub proof fn law_keyword_motoboy(t: Seq<char>)
    requires
        contains(t, "motoboy"@),
    ensures
        categorize_lowered_spec(t) == Some(("Logística"@, "Corrida de motoboy"@, 1u8)),
{
    let rules = spec_rules();
    assert(rules[0] == (seq!["motoboy"@], "Logística"@, "Corrida de motoboy"@));
    assert(any_keyword(t, rules[0].0)) by {
        if contains(t, "motoboy"@) { assert(rules[0].0[0] == "motoboy"@); }
    }
    lemma_first_rule_at(t, rules, 0);
    let table = spec_star_table();
    reveal_strlit("Corrida de motoboy");
    assert(table[0].0 == "Consultas"@);
    reveal_strlit("Consultas");
    assert(table[1].0 == "Exames"@);
    reveal_strlit("Exames");
    assert(table[2].0 == "Veterinário/Petshop (Consultas/Exames/Banhos/Tosas)"@);
    reveal_strlit("Veterinário/Petshop (Consultas/Exames/Banhos/Tosas)");
    assert(table[3].0 == "Vacinas"@);
    reveal_strlit("Vacinas");
    assert(table[4].0 == "Manicure"@);
    reveal_strlit("Manicure");
    assert(table[5].0 == "Cabeleleiro"@);
    reveal_strlit("Cabeleleiro");
    assert(table[6].0 == "Shopper"@);
    reveal_strlit("Shopper");
    assert(table[7].0 == "Mercados"@);
    reveal_strlit("Mercados");
    assert(table[8].0 == "Presentes"@);
    reveal_strlit("Presentes");
    assert(table[9].0 == "Petshop"@);
    reveal_strlit("Petshop");
    assert(table[10].0 == "Papelaria"@);
    reveal_strlit("Papelaria");
    assert(table[11].0 == "Farmácia"@);
    reveal_strlit("Farmácia");
    assert(table[12].0 == "Ingressos"@);
    reveal_strlit("Ingressos");
    assert(table[13].0 == "Móveis e Eletros"@);
    reveal_strlit("Móveis e Eletros");
    assert(table[14].0 == "Itens pessoais e da casa"@);
    reveal_strlit("Itens pessoais e da casa");
    assert(table[15].0 == "CIN"@);
    reveal_strlit("CIN");
    assert(table[16].0 == "Certificado Digital"@);
    reveal_strlit("Certificado Digital");
    assert(table[17].0 == "Documento de Vacinação (BR/Iternacional)"@);
    reveal_strlit("Documento de Vacinação (BR/Iternacional)");
    assert(table[18].0 == "Seguros Carro/Casa/Viagem (anual)"@);
    reveal_strlit("Seguros Carro/Casa/Viagem (anual)");
    assert(table[19].0 == "Assinatura Digital"@);
    reveal_strlit("Assinatura Digital");
    assert("Assinatura Digital"@[0] != "Corrida de motoboy"@[0]);
    assert(table[20].0 == "Contratos/Procurações"@);
    reveal_strlit("Contratos/Procurações");
    assert(table[21].0 == "Cidadanias"@);
    reveal_strlit("Cidadanias");
    assert(table[22].0 == "Vistos e Vistos Eletrônicos"@);
    reveal_strlit("Vistos e Vistos Eletrônicos");
    assert(table[23].0 == "Passaporte"@);
    reveal_strlit("Passaporte");
    assert(table[24].0 == "CNH"@);
    reveal_strlit("CNH");
    assert(table[25].0 == "Averbações"@);
    reveal_strlit("Averbações");
    assert(table[26].0 == "Certidões"@);
    reveal_strlit("Certidões");
    assert(table[27].0 == "Reserva de restaurantes/bares"@);
    reveal_strlit("Reserva de restaurantes/bares");
    assert(table[28].0 == "Planejamento de festas"@);
    reveal_strlit("Planejamento de festas");
    assert(table[29].0 == "Pesquisa de passeios/eventos (BR)"@);
    reveal_strlit("Pesquisa de passeios/eventos (BR)");
    assert(table[30].0 == "Fornecedores no exterior (passeios, fotógrafos)"@);
    reveal_strlit("Fornecedores no exterior (passeios, fotógrafos)");
    assert(table[31] == ("Corrida de motoboy"@, 1u8));
    assert forall|j: int| 0 <= j < 31 implies (#[trigger] table[j]).0 != "Corrida de motoboy"@ by {
        if j == 0 {  } else if j == 1 {  } else if j == 2 {  } else if j == 3 {  } else if j == 4 {  } else if j == 5 {  } else if j == 6 {  } else if j == 7 {  } else if j == 8 {  } else if j == 9 {  } else if j == 10 {  } else if j == 11 {  } else if j == 12 {  } else if j == 13 {  } else if j == 14 {  } else if j == 15 {  } else if j == 16 {  } else if j == 17 {  } else if j == 18 {  } else if j == 19 {  } else if j == 20 {  } else if j == 21 {  } else if j == 22 {  } else if j == 23 {  } else if j == 24 {  } else if j == 25 {  } else if j == 26 {  } else if j == 27 {  } else if j == 28 {  } else if j == 29 {  } else if j == 30 {  }
    }
    lemma_star_at(table, "Corrida de motoboy"@, 31);
}

#[verifier::spinoff_prover]
/// A text that contains any of "sedex", "correio", and no keyword of an earlier rule, is categorised as "Logística" / "Motoboy + Correios e envios internacionais" with 1 star.
pub proof fn law_keyword_sedex(t: Seq<char>)
    requires
        contains(t, "sedex"@) || contains(t, "correio"@),
        none_of(t, seq!["motoboy"@]),
    ensures
        categorize_lowered_spec(t) == Some(("Logística"@, "Motoboy + Correios e envios internacionais"@, 1u8)),
{
    let rules = spec_rules();
    let prefix = seq!["motoboy"@];
    assert(prefix[0] == "motoboy"@);
    assert(rules[0].0 == seq!["motoboy"@]);
    assert(!any_keyword(t, rules[0].0));
    assert forall|j: int| 0 <= j < 1 implies !any_keyword(t, #[trigger] rules[j].0) by {
        if j == 0 {  }
    }
    assert(rules[1] == (seq!["sedex"@, "correio"@], "Logística"@, "Motoboy + Correios e envios internacionais"@));
    assert(any_keyword(t, rules[1].0)) by {
        if contains(t, "sedex"@) { assert(rules[1].0[0] == "sedex"@); }
        if contains(t, "correio"@) { assert(rules[1].0[1] == "correio"@); }
    }
    lemma_first_rule_at(t, rules, 1);
    let table = spec_star_table();
    reveal_strlit("Motoboy + Correios e envios internacionais");
    assert(table[0].0 == "Consultas"@);
    reveal_strlit("Consultas");
    assert(table[1].0 == "Exames"@);
    reveal_strlit("Exames");
    assert(table[2].0 == "Veterinário/Petshop (Consultas/Exames/Banhos/Tosas)"@);
    reveal_strlit("Veterinário/Petshop (Consultas/Exames/Banhos/Tosas)");
    assert(table[3].0 == "Vacinas"@);
    reveal_strlit("Vacinas");
    assert(table[4].0 == "Manicure"@);
    reveal_strlit("Manicure");
    assert(table[5].0 == "Cabeleleiro"@);
    reveal_strlit("Cabeleleiro");
    assert(table[6].0 == "Shopper"@);
    reveal_strlit("Shopper");
    assert(table[7].0 == "Mercados"@);
    reveal_strlit("Mercados");
    assert(table[8].0 == "Presentes"@);
    reveal_strlit("Presentes");
    assert(table[9].0 == "Petshop"@);
    reveal_strlit("Petshop");
    assert(table[10].0 == "Papelaria"@);
    reveal_strlit("Papelaria");
    assert(table[11].0 == "Farmácia"@);
    reveal_strlit("Farmácia");
    assert(table[12].0 == "Ingressos"@);
    reveal_strlit("Ingressos");
    assert(table[13].0 == "Móveis e Eletros"@);
    reveal_strlit("Móveis e Eletros");
    assert(table[14].0 == "Itens pessoais e da casa"@);
    reveal_strlit("Itens pessoais e da casa");
    assert(table[15].0 == "CIN"@);
    reveal_strlit("CIN");
    assert(table[16].0 == "Certificado Digital"@);
    reveal_strlit("Certificado Digital");
    assert(table[17].0 == "Documento de Vacinação (BR/Iternacional)"@);
    reveal_strlit("Documento de Vacinação (BR/Iternacional)");
    assert(table[18].0 == "Seguros Carro/Casa/Viagem (anual)"@);
    reveal_strlit("Seguros Carro/Casa/Viagem (anual)");
    assert(table[19].0 == "Assinatura Digital"@);
    reveal_strlit("Assinatura Digital");
    assert(table[20].0 == "Contratos/Procurações"@);
    reveal_strlit("Contratos/Procurações");
    assert(table[21].0 == "Cidadanias"@);
    reveal_strlit("Cidadanias");
    assert(table[22].0 == "Vistos e Vistos Eletrônicos"@);
    reveal_strlit("Vistos e Vistos Eletrônicos");
    assert(table[23].0 == "Passaporte"@);
    reveal_strlit("Passaporte");
    assert(table[24].0 == "CNH"@);
    reveal_strlit("CNH");
    assert(table[25].0 == "Averbações"@);
    reveal_strlit("Averbações");
    assert(table[26].0 == "Certidões"@);
    reveal_strlit("Certidões");
    assert(table[27].0 == "Reserva de restaurantes/bares"@);
    reveal_strlit("Reserva de restaurantes/bares");
    assert(table[28].0 == "Planejamento de festas"@);
    reveal_strlit("Planejamento de festas");
    assert(table[29].0 == "Pesquisa de passeios/eventos (BR)"@);
    reveal_strlit("Pesquisa de passeios/eventos (BR)");
    assert(table[30].0 == "Fornecedores no exterior (passeios, fotógrafos)"@);
    reveal_strlit("Fornecedores no exterior (passeios, fotógrafos)");
    assert(table[31].0 == "Corrida de motoboy"@);
    reveal_strlit("Corrida de motoboy");
    assert(table[32] == ("Motoboy + Correios e envios internacionais"@, 1u8));
    assert forall|j: int| 0 <= j < 32 implies (#[trigger] table[j]).0 != "Motoboy + Correios e envios internacionais"@ by {
        if j == 0 {  } else if j == 1 {  } else if j == 2 {  } else if j == 3 {  } else if j == 4 {  } else if j == 5 {  } else if j == 6 {  } else if j == 7 {  } else if j == 8 {  } else if j == 9 {  } else if j == 10 {  } else if j == 11 {  } else if j == 12 {  } else if j == 13 {  } else if j == 14 {  } else if j == 15 {  } else if j == 16 {  } else if j == 17 {  } else if j == 18 {  } else if j == 19 {  } else if j == 20 {  } else if j == 21 {  } else if j == 22 {  } else if j == 23 {  } else if j == 24 {  } else if j == 25 {  } else if j == 26 {  } else if j == 27 {  } else if j == 28 {  } else if j == 29 {  } else if j == 30 {  } else if j == 31 {  }
    }
    lemma_star_at(table, "Motoboy + Correios e envios internacionais"@, 32);
}

#[verifier::spinoff_prover]
/// A text that contains "lalamove", and no keyword of an earlier rule, is categorised as "Logística" / "Lalamove" with 1 star.
pub proof fn law_keyword_lalamove(t: Seq<char>)
    requires
        contains(t, "lalamove"@),
        none_of(t, seq!["motoboy"@, "sedex"@, "correio"@]),
    ensures
        categorize_lowered_spec(t) == Some(("Logística"@, "Lalamove"@, 1u8)),
{
    let rules = spec_rules();
    let prefix = seq!["motoboy"@, "sedex"@, "correio"@];
    assert(prefix[0] == "motoboy"@);
    assert(prefix[1] == "sedex"@);
    assert(prefix[2] == "correio"@);
    assert(rules[0].0 == seq!["motoboy"@]);
    assert(!any_keyword(t, rules[0].0));
    assert(rules[1].0 == seq!["sedex"@, "correio"@]);
    assert(!any_keyword(t, rules[1].0));
    assert forall|j: int| 0 <= j < 2 implies !any_keyword(t, #[trigger] rules[j].0) by {
        if j == 0 {  } else if j == 1 {  }
    }
    assert(rules[2] == (seq!["lalamove"@], "Logística"@, "Lalamove"@));
    assert(any_keyword(t, rules[2].0)) by {
        if contains(t, "lalamove"@) { assert(rules[2].0[0] == "lalamove"@); }
    }
    lemma_first_rule_at(t, rules, 2);
    let table = spec_star_table();
    reveal_strlit("Lalamove");
    assert(table[0].0 == "Consultas"@);
    reveal_strlit("Consultas");
    assert(table[1].0 == "Exames"@);
    reveal_strlit("Exames");
    assert(table[2].0 == "Veterinário/Petshop (Consultas/Exames/Banhos/Tosas)"@);
    reveal_strlit("Veterinário/Petshop (Consultas/Exames/Banhos/Tosas)");
    assert(table[3].0 == "Vacinas"@);
    reveal_strlit("Vacinas");
    assert(table[4].0 == "Manicure"@);
    reveal_strlit("Manicure");
    assert("Manicure"@[0] != "Lalamove"@[0]);
    assert(table[5].0 == "Cabeleleiro"@);
    reveal_strlit("Cabeleleiro");
    assert(table[6].0 == "Shopper"@);
    reveal_strlit("Shopper");
    assert(table[7].0 == "Mercados"@);
    reveal_strlit("Mercados");
    assert("Mercados"@[0] != "Lalamove"@[0]);
    assert(table[8].0 == "Presentes"@);
    reveal_strlit("Presentes");
    assert(table[9].0 == "Petshop"@);
    reveal_strlit("Petshop");
    assert(table[10].0 == "Papelaria"@);
    reveal_strlit("Papelaria");
    assert(table[11].0 == "Farmácia"@);
    reveal_strlit("Farmácia");
    assert("Farmácia"@[0] != "Lalamove"@[0]);
    assert(table[12].0 == "Ingressos"@);
    reveal_strlit("Ingressos");
    assert(table[13].0 == "Móveis e Eletros"@);
    reveal_strlit("Móveis e Eletros");
    assert(table[14].0 == "Itens pessoais e da casa"@);
    reveal_strlit("Itens pessoais e da casa");
    assert(table[15].0 == "CIN"@);
    reveal_strlit("CIN");
    assert(table[16].0 == "Certificado Digital"@);
    reveal_strlit("Certificado Digital");
    assert(table[17].0 == "Documento de Vacinação (BR/Iternacional)"@);
    reveal_strlit("Documento de Vacinação (BR/Iternacional)");
    assert(table[18].0 == "Seguros Carro/Casa/Viagem (anual)"@);
    reveal_strlit("Seguros Carro/Casa/Viagem (anual)");
    assert(table[19].0 == "Assinatura Digital"@);
    reveal_strlit("Assinatura Digital");
    assert(table[20].0 == "Contratos/Procurações"@);
    reveal_strlit("Contratos/Procurações");
    assert(table[21].0 == "Cidadanias"@);
    reveal_strlit("Cidadanias");
    assert(table[22].0 == "Vistos e Vistos Eletrônicos"@);
    reveal_strlit("Vistos e Vistos Eletrônicos");
    assert(table[23].0 == "Passaporte"@);
    reveal_strlit("Passaporte");
    assert(table[24].0 == "CNH"@);
    reveal_strlit("CNH");
    assert(table[25].0 == "Averbações"@);
    reveal_strlit("Averbações");
    assert(table[26].0 == "Certidões"@);
    reveal_strlit("Certidões");
    assert(table[27].0 == "Reserva de restaurantes/bares"@);
    reveal_strlit("Reserva de restaurantes/bares");
    assert(table[28].0 == "Planejamento de festas"@);
    reveal_strlit("Planejamento de festas");
    assert(table[29].0 == "Pesquisa de passeios/eventos (BR)"@);
    reveal_strlit("Pesquisa de passeios/eventos (BR)");
    assert(table[30].0 == "Fornecedores no exterior (passeios, fotógrafos)"@);
    reveal_strlit("Fornecedores no exterior (passeios, fotógrafos)");
    assert(table[31].0 == "Corrida de motoboy"@);
    reveal_strlit("Corrida de motoboy");
    assert(table[32].0 == "Motoboy + Correios e envios internacionais"@);
    reveal_strlit("Motoboy + Correios e envios internacionais");
    assert(table[33] == ("Lalamove"@, 1u8));
    assert forall|j: int| 0 <= j < 33 implies (#[trigger] table[j]).0 != "Lalamove"@ by {
        if j == 0 {  } else if j == 1 {  } else if j == 2 {  } else if j == 3 {  } else if j == 4 {  } else if j == 5 {  } else if j == 6 {  } else if j == 7 {  } else if j == 8 {  } else if j == 9 {  } else if j == 10 {  } else if j == 11 {  } else if j == 12 {  } else if j == 13 {  } else if j == 14 {  } else if j == 15 {  } else if j == 16 {  } else if j == 17 {  } else if j == 18 {  } else if j == 19 {  } else if j == 20 {  } else if j == 21 {  } else if j == 22 {  } else if j == 23 {  } else if j == 24 {  } else if j == 25 {  } else if j == 26 {  } else if j == 27 {  } else if j == 28 {  } else if j == 29 {  } else if j == 30 {  } else if j == 31 {  } else if j == 32 {  }
    }
    lemma_star_at(table, "Lalamove"@, 33);
}

#[verifier::spinoff_prover]
/// A text that contains any of "uber", "99", and no keyword of an earlier rule, is categorised as "Logística" / "Transporte Urbano (Uber/99)" with 1 star.
pub proof fn law_keyword_uber(t: Seq<char>)
    requires
        contains(t, "uber"@) || contains(t, "99"@),
        none_of(t, seq!["motoboy"@, "sedex"@, "correio"@, "lalamove"@]),
    ensures
        categorize_lowered_spec(t) == Some(("Logística"@, "Transporte Urbano (Uber/99)"@, 1u8)),
{
    let rules = spec_rules();
    let prefix = seq!["motoboy"@, "sedex"@, "correio"@, "lalamove"@];
    assert(prefix[0] == "motoboy"@);
    assert(prefix[1] == "sedex"@);
    assert(prefix[2] == "correio"@);
    assert(prefix[3] == "lalamove"@);
    assert(rules[0].0 == seq!["motoboy"@]);
    assert(!any_keyword(t, rules[0].0));
    assert(rules[1].0 == seq!["sedex"@, "correio"@]);
    assert(!any_keyword(t, rules[1].0));
    assert(rules[2].0 == seq!["lalamove"@]);
    assert(!any_keyword(t, rules[2].0));
    assert forall|j: int| 0 <= j < 3 implies !any_keyword(t, #[trigger] rules[j].0) by {
        if j == 0 {  } else if j == 1 {  } else if j == 2 {  }
    }
    assert(rules[3] == (seq!["uber"@, "99"@], "Logística"@, "Transporte Urbano (Uber/99)"@));
    assert(any_keyword(t, rules[3].0)) by {
        if contains(t, "uber"@) { assert(rules[3].0[0] == "uber"@); }
        if contains(t, "99"@) { assert(rules[3].0[1] == "99"@); }
    }
    lemma_first_rule_at(t, rules, 3);
    let table = spec_star_table();
    reveal_strlit("Transporte Urbano (Uber/99)");
    assert(table[0].0 == "Consultas"@);
    reveal_strlit("Consultas");
    assert(table[1].0 == "Exames"@);
    reveal_strlit("Exames");
    assert(table[2].0 == "Veterinário/Petshop (Consultas/Exames/Banhos/Tosas)"@);
    reveal_strlit("Veterinário/Petshop (Consultas/Exames/Banhos/Tosas)");
    assert(table[3].0 == "Vacinas"@);
    reveal_strlit("Vacinas");
    assert(table[4].0 == "Manicure"@);
    reveal_strlit("Manicure");
    assert(table[5].0 == "Cabeleleiro"@);
    reveal_strlit("Cabeleleiro");
    assert(table[6].0 == "Shopper"@);
    reveal_strlit("Shopper");
    assert(table[7].0 == "Mercados"@);
    reveal_strlit("Mercados");
    assert(table[8].0 == "Presentes"@);
    reveal_strlit("Presentes");
    assert(table[9].0 == "Petshop"@);
    reveal_strlit("Petshop");
    assert(table[10].0 == "Papelaria"@);
    reveal_strlit("Papelaria");
    assert(table[11].0 == "Farmácia"@);
    reveal_strlit("Farmácia");
    assert(table[12].0 == "Ingressos"@);
    reveal_strlit("Ingressos");
    assert(table[13].0 == "Móveis e Eletros"@);
    reveal_strlit("Móveis e Eletros");
    assert(table[14].0 == "Itens pessoais e da casa"@);
    reveal_strlit("Itens pessoais e da casa");
    assert(table[15].0 == "CIN"@);
    reveal_strlit("CIN");
    assert(table[16].0 == "Certificado Digital"@);
    reveal_strlit("Certificado Digital");
    assert(table[17].0 == "Documento de Vacinação (BR/Iternacional)"@);
    reveal_strlit("Documento de Vacinação (BR/Iternacional)");
    assert(table[18].0 == "Seguros Carro/Casa/Viagem (anual)"@);
    reveal_strlit("Seguros Carro/Casa/Viagem (anual)");
    assert(table[19].0 == "Assinatura Digital"@);
    reveal_strlit("Assinatura Digital");
    assert(table[20].0 == "Contratos/Procurações"@);
    reveal_strlit("Contratos/Procurações");
    assert(table[21].0 == "Cidadanias"@);
    reveal_strlit("Cidadanias");
    assert(table[22].0 == "Vistos e Vistos Eletrônicos"@);
    reveal_strlit("Vistos e Vistos Eletrônicos");
    assert("Vistos e Vistos Eletrônicos"@[0] != "Transporte Urbano (Uber/99)"@[0]);
    assert(table[23].0 == "Passaporte"@);
    reveal_strlit("Passaporte");
    assert(table[24].0 == "CNH"@);
    reveal_strlit("CNH");
    assert(table[25].0 == "Averbações"@);
    reveal_strlit("Averbações");
    assert(table[26].0 == "Certidões"@);
    reveal_strlit("Certidões");
    assert(table[27].0 == "Reserva de restaurantes/bares"@);
    reveal_strlit("Reserva de restaurantes/bares");
    assert(table[28].0 == "Planejamento de festas"@);
    reveal_strlit("Planejamento de festas");
    assert(table[29].0 == "Pesquisa de passeios/eventos (BR)"@);
    reveal_strlit("Pesquisa de passeios/eventos (BR)");
    assert(table[30].0 == "Fornecedores no exterior (passeios, fotógrafos)"@);
    reveal_strlit("Fornecedores no exterior (passeios, fotógrafos)");
    assert(table[31].0 == "Corrida de motoboy"@);
    reveal_strlit("Corrida de motoboy");
    assert(table[32].0 == "Motoboy + Correios e envios internacionais"@);
    reveal_strlit("Motoboy + Correios e envios internacionais");
    assert(table[33].0 == "Lalamove"@);
    reveal_strlit("Lalamove");
    assert(table[34].0 == "Corridas com Taxistas"@);
    reveal_strlit("Corridas com Taxistas");
    assert(table[35] == ("Transporte Urbano (Uber/99)"@, 1u8));
    assert forall|j: int| 0 <= j < 35 implies (#[trigger] table[j]).0 != "Transporte Urbano (Uber/99)"@ by {
        if j == 0 {  } else if j == 1 {  } else if j == 2 {  } else if j == 3 {  } else if j == 4 {  } else if j == 5 {  } else if j == 6 {  } else if j == 7 {  } else if j == 8 {  } else if j == 9 {  } else if j == 10 {  } else if j == 11 {  } else if j == 12 {  } else if j == 13 {  } else if j == 14 {  } else if j == 15 {  } else if j == 16 {  } else if j == 17 {  } else if j == 18 {  } else if j == 19 {  } else if j == 20 {  } else if j == 21 {  } else if j == 22 {  } else if j == 23 {  } else if j == 24 {  } else if j == 25 {  } else if j == 26 {  } else if j == 27 {  } else if j == 28 {  } else if j == 29 {  } else if j == 30 {  } else if j == 31 {  } else if j == 32 {  } else if j == 33 {  } else if j == 34 {  }
    }
    lemma_star_at(table, "Transporte Urbano (Uber/99)"@, 35);
}

#[verifier::spinoff_prover]
/// A text that contains "taxista", and no keyword of an earlier rule, is categorised as "Logística" / "Corridas com Taxistas" with 1 star.
pub proof fn law_keyword_taxista(t: Seq<char>)
    requires
        contains(t, "taxista"@),
        none_of(t, seq!["motoboy"@, "sedex"@, "correio"@, "lalamove"@, "uber"@, "99"@]),
    ensures
        categorize_lowered_spec(t) == Some(("Logística"@, "Corridas com Taxistas"@, 1u8)),
{
    let rules = spec_rules();
    let prefix = seq!["motoboy"@, "sedex"@, "correio"@, "lalamove"@, "uber"@, "99"@];
    assert(prefix[0] == "motoboy"@);
    assert(prefix[1] == "sedex"@);
    assert(prefix[2] == "correio"@);
    assert(prefix[3] == "lalamove"@);
    assert(prefix[4] == "uber"@);
    assert(prefix[5] == "99"@);
    assert(rules[0].0 == seq!["motoboy"@]);
    assert(!any_keyword(t, rules[0].0));
    assert(rules[1].0 == seq!["sedex"@, "correio"@]);
    assert(!any_keyword(t, rules[1].0));
    assert(rules[2].0 == seq!["lalamove"@]);
    assert(!any_keyword(t, rules[2].0));
    assert(rules[3].0 == seq!["uber"@, "99"@]);
    assert(!any_keyword(t, rules[3].0));
    assert forall|j: int| 0 <= j < 4 implies !any_keyword(t, #[trigger] rules[j].0) by {
        if j == 0 {  } else if j == 1 {  } else if j == 2 {  } else if j == 3 {  }
    }
    assert(rules[4] == (seq!["taxista"@], "Logística"@, "Corridas com Taxistas"@));
    assert(any_keyword(t, rules[4].0)) by {
        if contains(t, "taxista"@) { assert(rules[4].0[0] == "taxista"@); }
    }
    lemma_first_rule_at(t, rules, 4);
    let table = spec_star_table();
    reveal_strlit("Corridas com Taxistas");
    assert(table[0].0 == "Consultas"@);
    reveal_strlit("Consultas");
    assert(table[1].0 == "Exames"@);
    reveal_strlit("Exames");
    assert(table[2].0 == "Veterinário/Petshop (Consultas/Exames/Banhos/Tosas)"@);
    reveal_strlit("Veterinário/Petshop (Consultas/Exames/Banhos/Tosas)");
    assert(table[3].0 == "Vacinas"@);
    reveal_strlit("Vacinas");
    assert(table[4].0 == "Manicure"@);
    reveal_strlit("Manicure");
    assert(table[5].0 == "Cabeleleiro"@);
    reveal_strlit("Cabeleleiro");
    assert(table[6].0 == "Shopper"@);
    reveal_strlit("Shopper");
    assert(table[7].0 == "Mercados"@);
    reveal_strlit("Mercados");
    assert(table[8].0 == "Presentes"@);
    reveal_strlit("Presentes");
    assert(table[9].0 == "Petshop"@);
    reveal_strlit("Petshop");
    assert(table[10].0 == "Papelaria"@);
    reveal_strlit("Papelaria");
    assert(table[11].0 == "Farmácia"@);
    reveal_strlit("Farmácia");
    assert(table[12].0 == "Ingressos"@);
    reveal_strlit("Ingressos");
    assert(table[13].0 == "Móveis e Eletros"@);
    reveal_strlit("Móveis e Eletros");
    assert(table[14].0 == "Itens pessoais e da casa"@);
    reveal_strlit("Itens pessoais e da casa");
    assert(table[15].0 == "CIN"@);
    reveal_strlit("CIN");
    assert(table[16].0 == "Certificado Digital"@);
    reveal_strlit("Certificado Digital");
    assert(table[17].0 == "Documento de Vacinação (BR/Iternacional)"@);
    reveal_strlit("Documento de Vacinação (BR/Iternacional)");
    assert(table[18].0 == "Seguros Carro/Casa/Viagem (anual)"@);
    reveal_strlit("Seguros Carro/Casa/Viagem (anual)");
    assert(table[19].0 == "Assinatura Digital"@);
    reveal_strlit("Assinatura Digital");
    assert(table[20].0 == "Contratos/Procurações"@);
    reveal_strlit("Contratos/Procurações");
    assert("Contratos/Procurações"@[2] != "Corridas com Taxistas"@[2]);
    assert(table[21].0 == "Cidadanias"@);
    reveal_strlit("Cidadanias");
    assert(table[22].0 == "Vistos e Vistos Eletrônicos"@);
    reveal_strlit("Vistos e Vistos Eletrônicos");
    assert(table[23].0 == "Passaporte"@);
    reveal_strlit("Passaporte");
    assert(table[24].0 == "CNH"@);
    reveal_strlit("CNH");
    assert(table[25].0 == "Averbações"@);
    reveal_strlit("Averbações");
    assert(table[26].0 == "Certidões"@);
    reveal_strlit("Certidões");
    assert(table[27].0 == "Reserva de restaurantes/bares"@);
    reveal_strlit("Reserva de restaurantes/bares");
    assert(table[28].0 == "Planejamento de festas"@);
    reveal_strlit("Planejamento de festas");
    assert(table[29].0 == "Pesquisa de passeios/eventos (BR)"@);
    reveal_strlit("Pesquisa de passeios/eventos (BR)");
    assert(table[30].0 == "Fornecedores no exterior (passeios, fotógrafos)"@);
    reveal_strlit("Fornecedores no exterior (passeios, fotógrafos)");
    assert(table[31].0 == "Corrida de motoboy"@);
    reveal_strlit("Corrida de motoboy");
    assert(table[32].0 == "Motoboy + Correios e envios internacionais"@);
    reveal_strlit("Motoboy + Correios e envios internacionais");
    assert(table[33].0 == "Lalamove"@);
    reveal_strlit("Lalamove");
    assert(table[34] == ("Corridas com Taxistas"@, 1u8));
    assert forall|j: int| 0 <= j < 34 implies (#[trigger] table[j]).0 != "Corridas com Taxistas"@ by {
        if j == 0 {  } else if j == 1 {  } else if j == 2 {  } else if j == 3 {  } else if j == 4 {  } else if j == 5 {  } else if j == 6 {  } else if j == 7 {  } else if j == 8 {  } else if j == 9 {  } else if j == 10 {  } else if j == 11 {  } else if j == 12 {  } else if j == 13 {  } else if j == 14 {  } else if j == 15 {  } else if j == 16 {  } else if j == 17 {  } else if j == 18 {  } else if j == 19 {  } else if j == 20 {  } else if j == 21 {  } else if j == 22 {  } else if j == 23 {  } else if j == 24 {  } else if j == 25 {  } else if j == 26 {  } else if j == 27 {  } else if j == 28 {  } else if j == 29 {  } else if j == 30 {  } else if j == 31 {  } else if j == 32 {  } else if j == 33 {  }
    }
    lemma_star_at(table, "Corridas com Taxistas"@, 34);
}

#[verifier::spinoff_prover]
/// A text that contains any of "entrega", "retirada", and no keyword of an earlier rule, is categorised as "Logística" / "Corrida de motoboy" with 1 star.
pub proof fn law_keyword_entrega(t: Seq<char>)
    requires
        contains(t, "entrega"@) || contains(t, "retirada"@),
        none_of(t, seq!["motoboy"@, "sedex"@, "correio"@, "lalamove"@, "uber"@, "99"@, "taxista"@]),
    ensures
        categorize_lowered_spec(t) == Some(("Logística"@, "Corrida de motoboy"@, 1u8)),
{
    let rules = spec_rules();
    let prefix = seq!["motoboy"@, "sedex"@, "correio"@, "lalamove"@, "uber"@, "99"@, "taxista"@];
    assert(prefix[0] == "motoboy"@);
    assert(prefix[1] == "sedex"@);
    assert(prefix[2] == "correio"@);
    assert(prefix[3] == "lalamove"@);
    assert(prefix[4] == "uber"@);
    assert(prefix[5] == "99"@);
    assert(prefix[6] == "taxista"@);
    assert(rules[0].0 == seq!["motoboy"@]);
    assert(!any_keyword(t, rules[0].0));
    assert(rules[1].0 == seq!["sedex"@, "correio"@]);
    assert(!any_keyword(t, rules[1].0));
    assert(rules[2].0 == seq!["lalamove"@]);
    assert(!any_keyword(t, rules[2].0));
    assert(rules[3].0 == seq!["uber"@, "99"@]);
    assert(!any_keyword(t, rules[3].0));
    assert(rules[4].0 == seq!["taxista"@]);
    assert(!any_keyword(t, rules[4].0));
    assert forall|j: int| 0 <= j < 5 implies !any_keyword(t, #[trigger] rules[j].0) by {
        if j == 0 {  } else if j == 1 {  } else if j == 2 {  } else if j == 3 {  } else if j == 4 {  }
    }
    assert(rules[5] == (seq!["entrega"@, "retirada"@], "Logística"@, "Corrida de motoboy"@));
    assert(any_keyword(t, rules[5].0)) by {
        if contains(t, "entrega"@) { assert(rules[5].0[0] == "entrega"@); }
        if contains(t, "retirada"@) { assert(rules[5].0[1] == "retirada"@); }
    }
    lemma_first_rule_at(t, rules, 5);
    let table = spec_star_table();
    reveal_strlit("Corrida de motoboy");
    assert(table[0].0 == "Consultas"@);
    reveal_strlit("Consultas");
    assert(table[1].0 == "Exames"@);
    reveal_strlit("Exames");
    assert(table[2].0 == "Veterinário/Petshop (Consultas/Exames/Banhos/Tosas)"@);
    reveal_strlit("Veterinário/Petshop (Consultas/Exames/Banhos/Tosas)");
    assert(table[3].0 == "Vacinas"@);
    reveal_strlit("Vacinas");
    assert(table[4].0 == "Manicure"@);
    reveal_strlit("Manicure");
    assert(table[5].0 == "Cabeleleiro"@);
    reveal_strlit("Cabeleleiro");
    assert(table[6].0 == "Shopper"@);
    reveal_strlit("Shopper");
    assert(table[7].0 == "Mercados"@);
    reveal_strlit("Mercados");
    assert(table[8].0 == "Presentes"@);
    reveal_strlit("Presentes");
    assert(table[9].0 == "Petshop"@);
    reveal_strlit("Petshop");
    assert(table[10].0 == "Papelaria"@);
    reveal_strlit("Papelaria");
    assert(table[11].0 == "Farmácia"@);
    reveal_strlit("Farmácia");
    assert(table[12].0 == "Ingressos"@);
    reveal_strlit("Ingressos");
    assert(table[13].0 == "Móveis e Eletros"@);
    reveal_strlit("Móveis e Eletros");
    assert(table[14].0 == "Itens pessoais e da casa"@);
    reveal_strlit("Itens pessoais e da casa");
    assert(table[15].0 == "CIN"@);
    reveal_strlit("CIN");
    assert(table[16].0 == "Certificado Digital"@);
    reveal_strlit("Certificado Digital");
    assert(table[17].0 == "Documento de Vacinação (BR/Iternacional)"@);
    reveal_strlit("Documento de Vacinação (BR/Iternacional)");
    assert(table[18].0 == "Seguros Carro/Casa/Viagem (anual)"@);
    reveal_strlit("Seguros Carro/Casa/Viagem (anual)");
    assert(table[19].0 == "Assinatura Digital"@);
    reveal_strlit("Assinatura Digital");
    assert("Assinatura Digital"@[0] != "Corrida de motoboy"@[0]);
    assert(table[20].0 == "Contratos/Procurações"@);
    reveal_strlit("Contratos/Procurações");
    assert(table[21].0 == "Cidadanias"@);
    reveal_strlit("Cidadanias");
    assert(table[22].0 == "Vistos e Vistos Eletrônicos"@);
    reveal_strlit("Vistos e Vistos Eletrônicos");
    assert(table[23].0 == "Passaporte"@);
    reveal_strlit("Passaporte");
    assert(table[24].0 == "CNH"@);
    reveal_strlit("CNH");
    assert(table[25].0 == "Averbações"@);
    reveal_strlit("Averbações");
    assert(table[26].0 == "Certidões"@);
    reveal_strlit("Certidões");
    assert(table[27].0 == "Reserva de restaurantes/bares"@);
    reveal_strlit("Reserva de restaurantes/bares");
    assert(table[28].0 == "Planejamento de festas"@);
    reveal_strlit("Planejamento de festas");
    assert(table[29].0 == "Pesquisa de passeios/eventos (BR)"@);
    reveal_strlit("Pesquisa de passeios/eventos (BR)");
    assert(table[30].0 == "Fornecedores no exterior (passeios, fotógrafos)"@);
    reveal_strlit("Fornecedores no exterior (passeios, fotógrafos)");
    assert(table[31] == ("Corrida de motoboy"@, 1u8));
    assert forall|j: int| 0 <= j < 31 implies (#[trigger] table[j]).0 != "Corrida de motoboy"@ by {
        if j == 0 {  } else if j == 1 {  } else if j == 2 {  } else if j == 3 {  } else if j == 4 {  } else if j == 5 {  } else if j == 6 {  } else if j == 7 {  } else if j == 8 {  } else if j == 9 {  } else if j == 10 {  } else if j == 11 {  } else if j == 12 {  } else if j == 13 {  } else if j == 14 {  } else if j == 15 {  } else if j == 16 {  } else if j == 17 {  } else if j == 18 {  } else if j == 19 {  } else if j == 20 {  } else if j == 21 {  } else if j == 22 {  } else if j == 23 {  } else if j == 24 {  } else if j == 25 {  } else if j == 26 {  } else if j == 27 {  } else if j == 28 {  } else if j == 29 {  } else if j == 30 {  }
    }
    lemma_star_at(table, "Corrida de motoboy"@, 31);
}

#[verifier::spinoff_prover]
/// A text that contains any of "reembolso", "bradesco saúde", "plano de saúde", and no keyword of an earlier rule, is categorised as "Plano de Saúde" / "Reembolso Médico" with 2 stars.
pub proof fn law_keyword_reembolso(t: Seq<char>)
    requires
        contains(t, "reembolso"@) || contains(t, "bradesco saúde"@) || contains(t, "plano de saúde"@),
        none_of(t, seq!["motoboy"@, "sedex"@, "correio"@, "lalamove"@, "uber"@, "99"@, "taxista"@, "entrega"@, "retirada"@]),
    ensures
        categorize_lowered_spec(t) == Some(("Plano de Saúde"@, "Reembolso Médico"@, 2u8)),
{
    let rules = spec_rules();
    let prefix = seq!["motoboy"@, "sedex"@, "correio"@, "lalamove"@, "uber"@, "99"@, "taxista"@, "entrega"@, "retirada"@];
    assert(prefix[0] == "motoboy"@);
    assert(prefix[1] == "sedex"@);
    assert(prefix[2] == "correio"@);
    assert(prefix[3] == "lalamove"@);
    assert(prefix[4] == "uber"@);
    assert(prefix[5] == "99"@);
    assert(prefix[6] == "taxista"@);
    assert(prefix[7] == "entrega"@);
    assert(prefix[8] == "retirada"@);
    assert(rules[0].0 == seq!["motoboy"@]);
    assert(!any_keyword(t, rules[0].0));
    assert(rules[1].0 == seq!["sedex"@, "correio"@]);
    assert(!any_keyword(t, rules[1].0));
    assert(rules[2].0 == seq!["lalamove"@]);
    assert(!any_keyword(t, rules[2].0));
    assert(rules[3].0 == seq!["uber"@, "99"@]);
    assert(!any_keyword(t, rules[3].0));
    assert(rules[4].0 == seq!["taxista"@]);
    assert(!any_keyword(t, rules[4].0));
    assert(rules[5].0 == seq!["entrega"@, "retirada"@]);
    assert(!any_keyword(t, rules[5].0));
    assert forall|j: int| 0 <= j < 6 implies !any_keyword(t, #[trigger] rules[j].0) by {
        if j == 0 {  } else if j == 1 {  } else if j == 2 {  } else if j == 3 {  } else if j == 4 {  } else if j == 5 {  }
    }
    assert(rules[6] == (seq!["reembolso"@, "bradesco saúde"@, "plano de saúde"@], "Plano de Saúde"@, "Reembolso Médico"@));
    assert(any_keyword(t, rules[6].0)) by {
        if contains(t, "reembolso"@) { assert(rules[6].0[0] == "reembolso"@); }
        if contains(t, "bradesco saúde"@) { assert(rules[6].0[1] == "bradesco saúde"@); }
        if contains(t, "plano de saúde"@) { assert(rules[6].0[2] == "plano de saúde"@); }
    }
    lemma_first_rule_at(t, rules, 6);
    let table = spec_star_table();
    reveal_strlit("Reembolso Médico");
    assert(table[0].0 == "Consultas"@);
    reveal_strlit("Consultas");
    assert(table[1].0 == "Exames"@);
    reveal_strlit("Exames");
    assert(table[2].0 == "Veterinário/Petshop (Consultas/Exames/Banhos/Tosas)"@);
    reveal_strlit("Veterinário/Petshop (Consultas/Exames/Banhos/Tosas)");
    assert(table[3].0 == "Vacinas"@);
    reveal_strlit("Vacinas");
    assert(table[4].0 == "Manicure"@);
    reveal_strlit("Manicure");
    assert(table[5].0 == "Cabeleleiro"@);
    reveal_strlit("Cabeleleiro");
    assert(table[6].0 == "Shopper"@);
    reveal_strlit("Shopper");
    assert(table[7].0 == "Mercados"@);
    reveal_strlit("Mercados");
    assert(table[8].0 == "Presentes"@);
    reveal_strlit("Presentes");
    assert(table[9].0 == "Petshop"@);
    reveal_strlit("Petshop");
    assert(table[10].0 == "Papelaria"@);
    reveal_strlit("Papelaria");
    assert(table[11].0 == "Farmácia"@);
    reveal_strlit("Farmácia");
    assert(table[12].0 == "Ingressos"@);
    reveal_strlit("Ingressos");
    assert(table[13].0 == "Móveis e Eletros"@);
    reveal_strlit("Móveis e Eletros");
    assert("Móveis e Eletros"@[0] != "Reembolso Médico"@[0]);
    assert(table[14].0 == "Itens pessoais e da casa"@);
    reveal_strlit("Itens pessoais e da casa");
    assert(table[15].0 == "CIN"@);
    reveal_strlit("CIN");
    assert(table[16].0 == "Certificado Digital"@);
    reveal_strlit("Certificado Digital");
    assert(table[17].0 == "Documento de Vacinação (BR/Iternacional)"@);
    reveal_strlit("Documento de Vacinação (BR/Iternacional)");
    assert(table[18].0 == "Seguros Carro/Casa/Viagem (anual)"@);
    reveal_strlit("Seguros Carro/Casa/Viagem (anual)");
    assert(table[19].0 == "Assinatura Digital"@);
    reveal_strlit("Assinatura Digital");
    assert(table[20].0 == "Contratos/Procurações"@);
    reveal_strlit("Contratos/Procurações");
    assert(table[21].0 == "Cidadanias"@);
    reveal_strlit("Cidadanias");
    assert(table[22].0 == "Vistos e Vistos Eletrônicos"@);
    reveal_strlit("Vistos e Vistos Eletrônicos");
    assert(table[23].0 == "Passaporte"@);
    reveal_strlit("Passaporte");
    assert(table[24].0 == "CNH"@);
    reveal_strlit("CNH");
    assert(table[25].0 == "Averbações"@);
    reveal_strlit("Averbações");
    assert(table[26].0 == "Certidões"@);
    reveal_strlit("Certidões");
    assert(table[27].0 == "Reserva de restaurantes/bares"@);
    reveal_strlit("Reserva de restaurantes/bares");
    assert(table[28].0 == "Planejamento de festas"@);
    reveal_strlit("Planejamento de festas");
    assert(table[29].0 == "Pesquisa de passeios/eventos (BR)"@);
    reveal_strlit("Pesquisa de passeios/eventos (BR)");
    assert(table[30].0 == "Fornecedores no exterior (passeios, fotógrafos)"@);
    reveal_strlit("Fornecedores no exterior (passeios, fotógrafos)");
    assert(table[31].0 == "Corrida de motoboy"@);
    reveal_strlit("Corrida de motoboy");
    assert(table[32].0 == "Motoboy + Correios e envios internacionais"@);
    reveal_strlit("Motoboy + Correios e envios internacionais");
    assert(table[33].0 == "Lalamove"@);
    reveal_strlit("Lalamove");
    assert(table[34].0 == "Corridas com Taxistas"@);
    reveal_strlit("Corridas com Taxistas");
    assert(table[35].0 == "Transporte Urbano (Uber/99)"@);
    reveal_strlit("Transporte Urbano (Uber/99)");
    assert(table[36].0 == "Passagens Aéreas"@);
    reveal_strlit("Passagens Aéreas");
    assert("Passagens Aéreas"@[0] != "Reembolso Médico"@[0]);
    assert(table[37].0 == "Hospedagens"@);
    reveal_strlit("Hospedagens");
    assert(table[38].0 == "Compra de Assentos e Bagagens"@);
    reveal_strlit("Compra de Assentos e Bagagens");
    assert(table[39].0 == "Passagens de Ônibus"@);
    reveal_strlit("Passagens de Ônibus");
    assert(table[40].0 == "Passagens de Trem"@);
    reveal_strlit("Passagens de Trem");
    assert(table[41].0 == "Checkins (Early/Late)"@);
    reveal_strlit("Checkins (Early/Late)");
    assert(table[42].0 == "Extravio de Bagagens"@);
    reveal_strlit("Extravio de Bagagens");
    assert(table[43].0 == "Seguro Viagem (Temporário)"@);
    reveal_strlit("Seguro Viagem (Temporário)");
    assert(table[44].0 == "Transfer"@);
    reveal_strlit("Transfer");
    assert(table[45].0 == "Programa de Milhagem"@);
    reveal_strlit("Programa de Milhagem");
    assert(table[46].0 == "Gestão de Contas (CIAs Aereas)"@);
    reveal_strlit("Gestão de Contas (CIAs Aereas)");
    assert(table[47].0 == "Aluguel de Carro/Ônibus e Vans"@);
    reveal_strlit("Aluguel de Carro/Ônibus e Vans");
    assert(table[48].0 == "Roteiro de Viagens"@);
    reveal_strlit("Roteiro de Viagens");
    assert(table[49] == ("Reembolso Médico"@, 2u8));
    assert forall|j: int| 0 <= j < 49 implies (#[trigger] table[j]).0 != "Reembolso Médico"@ by {
        if j == 0 {  } else if j == 1 {  } else if j == 2 {  } else if j == 3 {  } else if j == 4 {  } else if j == 5 {  } else if j == 6 {  } else if j == 7 {  } else if j == 8 {  } else if j == 9 {  } else if j == 10 {  } else if j == 11 {  } else if j == 12 {  } else if j == 13 {  } else if j == 14 {  } else if j == 15 {  } else if j == 16 {  } else if j == 17 {  } else if j == 18 {  } else if j == 19 {  } else if j == 20 {  } else if j == 21 {  } else if j == 22 {  } else if j == 23 {  } else if j == 24 {  } else if j == 25 {  } else if j == 26 {  } else if j == 27 {  } else if j == 28 {  } else if j == 29 {  } else if j == 30 {  } else if j == 31 {  } else if j == 32 {  } else if j == 33 {  } else if j == 34 {  } else if j == 35 {  } else if j == 36 {  } else if j == 37 {  } else if j == 38 {  } else if j == 39 {  } else if j == 40 {  } else if j == 41 {  } else if j == 42 {  } else if j == 43 {  } else if j == 44 {  } else if j == 45 {  } else if j == 46 {  } else if j == 47 {  } else if j == 48 {  }
    }
    lemma_star_at(table, "Reembolso Médico"@, 49);
}

#[verifier::spinoff_prover]
/// A text that contains "mercado", and no keyword of an earlier rule, is categorised as "Compras" / "Mercados" with 1 star.
pub proof fn law_keyword_mercado(t: Seq<char>)
    requires
        contains(t, "mercado"@),
        none_of(t, seq!["motoboy"@, "sedex"@, "correio"@, "lalamove"@, "uber"@, "99"@, "taxista"@, "entrega"@, "retirada"@, "reembolso"@, "bradesco saúde"@, "plano de saúde"@]),
    ensures
        categorize_lowered_spec(t) == Some(("Compras"@, "Mercados"@, 1u8)),
{
    let rules = spec_rules();
    let prefix = seq!["motoboy"@, "sedex"@, "correio"@, "lalamove"@, "uber"@, "99"@, "taxista"@, "entrega"@, "retirada"@, "reembolso"@, "bradesco saúde"@, "plano de saúde"@];
    assert(prefix[0] == "motoboy"@);
    assert(prefix[1] == "sedex"@);
    assert(prefix[2] == "correio"@);
    assert(prefix[3] == "lalamove"@);
    assert(prefix[4] == "uber"@);
    assert(prefix[5] == "99"@);
    assert(prefix[6] == "taxista"@);
    assert(prefix[7] == "entrega"@);
    assert(prefix[8] == "retirada"@);
    assert(prefix[9] == "reembolso"@);
    assert(prefix[10] == "bradesco saúde"@);
    assert(prefix[11] == "plano de saúde"@);
    assert(rules[0].0 == seq!["motoboy"@]);
    assert(!any_keyword(t, rules[0].0));
    assert(rules[1].0 == seq!["sedex"@, "correio"@]);
    assert(!any_keyword(t, rules[1].0));
    assert(rules[2].0 == seq!["lalamove"@]);
    assert(!any_keyword(t, rules[2].0));
    assert(rules[3].0 == seq!["uber"@, "99"@]);
    assert(!any_keyword(t, rules[3].0));
    assert(rules[4].0 == seq!["taxista"@]);
    assert(!any_keyword(t, rules[4].0));
    assert(rules[5].0 == seq!["entrega"@, "retirada"@]);
    assert(!any_keyword(t, rules[5].0));
    assert(rules[6].0 == seq!["reembolso"@, "bradesco saúde"@, "plano de saúde"@]);
    assert(!any_keyword(t, rules[6].0));
    assert forall|j: int| 0 <= j < 7 implies !any_keyword(t, #[trigger] rules[j].0) by {
        if j == 0 {  } else if j == 1 {  } else if j == 2 {  } else if j == 3 {  } else if j == 4 {  } else if j == 5 {  } else if j == 6 {  }
    }
    assert(rules[7] == (seq!["mercado"@], "Compras"@, "Mercados"@));
    assert(any_keyword(t, rules[7].0)) by {
        if contains(t, "mercado"@) { assert(rules[7].0[0] == "mercado"@); }
    }
    lemma_first_rule_at(t, rules, 7);
    let table = spec_star_table();
    reveal_strlit("Mercados");
    assert(table[0].0 == "Consultas"@);
    reveal_strlit("Consultas");
    assert(table[1].0 == "Exames"@);
    reveal_strlit("Exames");
    assert(table[2].0 == "Veterinário/Petshop (Consultas/Exames/Banhos/Tosas)"@);
    reveal_strlit("Veterinário/Petshop (Consultas/Exames/Banhos/Tosas)");
    assert(table[3].0 == "Vacinas"@);
    reveal_strlit("Vacinas");
    assert(table[4].0 == "Manicure"@);
    reveal_strlit("Manicure");
    assert("Manicure"@[1] != "Mercados"@[1]);
    assert(table[5].0 == "Cabeleleiro"@);
    reveal_strlit("Cabeleleiro");
    assert(table[6].0 == "Shopper"@);
    reveal_strlit("Shopper");
    assert(table[7] == ("Mercados"@, 1u8));
    assert forall|j: int| 0 <= j < 7 implies (#[trigger] table[j]).0 != "Mercados"@ by {
        if j == 0 {  } else if j == 1 {  } else if j == 2 {  } else if j == 3 {  } else if j == 4 {  } else if j == 5 {  } else if j == 6 {  }
    }
    lemma_star_at(table, "Mercados"@, 7);
}

#[verifier::spinoff_prover]
/// A text that contains "farmácia", and no keyword of an earlier rule, is categorised as "Compras" / "Farmácia" with 2 stars.
pub proof fn law_keyword_farmacia(t: Seq<char>)
    requires
        contains(t, "farmácia"@),
        none_of(t, seq!["motoboy"@, "sedex"@, "correio"@, "lalamove"@, "uber"@, "99"@, "taxista"@, "entrega"@, "retirada"@, "reembolso"@, "bradesco saúde"@, "plano de saúde"@, "mercado"@]),
    ensures
        categorize_lowered_spec(t) == Some(("Compras"@, "Farmácia"@, 2u8)),
{
    let rules = spec_rules();
    let prefix = seq!["motoboy"@, "sedex"@, "correio"@, "lalamove"@, "uber"@, "99"@, "taxista"@, "entrega"@, "retirada"@, "reembolso"@, "bradesco saúde"@, "plano de saúde"@, "mercado"@];
    assert(prefix[0] == "motoboy"@);
    assert(prefix[1] == "sedex"@);
    assert(prefix[2] == "correio"@);
    assert(prefix[3] == "lalamove"@);
    assert(prefix[4] == "uber"@);
    assert(prefix[5] == "99"@);
    assert(prefix[6] == "taxista"@);
    assert(prefix[7] == "entrega"@);
    assert(prefix[8] == "retirada"@);
    assert(prefix[9] == "reembolso"@);
    assert(prefix[10] == "bradesco saúde"@);
    assert(prefix[11] == "plano de saúde"@);
    assert(prefix[12] == "mercado"@);
    assert(rules[0].0 == seq!["motoboy"@]);
    assert(!any_keyword(t, rules[0].0));
    assert(rules[1].0 == seq!["sedex"@, "correio"@]);
    assert(!any_keyword(t, rules[1].0));
    assert(rules[2].0 == seq!["lalamove"@]);
    assert(!any_keyword(t, rules[2].0));
    assert(rules[3].0 == seq!["uber"@, "99"@]);
    assert(!any_keyword(t, rules[3].0));
    assert(rules[4].0 == seq!["taxista"@]);
    assert(!any_keyword(t, rules[4].0));
    assert(rules[5].0 == seq!["entrega"@, "retirada"@]);
    assert(!any_keyword(t, rules[5].0));
    assert(rules[6].0 == seq!["reembolso"@, "bradesco saúde"@, "plano de saúde"@]);
    assert(!any_keyword(t, rules[6].0));
    assert(rules[7].0 == seq!["mercado"@]);
    assert(!any_keyword(t, rules[7].0));
    assert forall|j: int| 0 <= j < 8 implies !any_keyword(t, #[trigger] rules[j].0) by {
        if j == 0 {  } else if j == 1 {  } else if j == 2 {  } else if j == 3 {  } else if j == 4 {  } else if j == 5 {  } else if j == 6 {  } else if j == 7 {  }
    }
    assert(rules[8] == (seq!["farmácia"@], "Compras"@, "Farmácia"@));
    assert(any_keyword(t, rules[8].0)) by {
        if contains(t, "farmácia"@) { assert(rules[8].0[0] == "farmácia"@); }
    }
    lemma_first_rule_at(t, rules, 8);
    let table = spec_star_table();
    reveal_strlit("Farmácia");
    assert(table[0].0 == "Consultas"@);
    reveal_strlit("Consultas");
    assert(table[1].0 == "Exames"@);
    reveal_strlit("Exames");
    assert(table[2].0 == "Veterinário/Petshop (Consultas/Exames/Banhos/Tosas)"@);
    reveal_strlit("Veterinário/Petshop (Consultas/Exames/Banhos/Tosas)");
    assert(table[3].0 == "Vacinas"@);
    reveal_strlit("Vacinas");
    assert(table[4].0 == "Manicure"@);
    reveal_strlit("Manicure");
    assert("Manicure"@[0] != "Farmácia"@[0]);
    assert(table[5].0 == "Cabeleleiro"@);
    reveal_strlit("Cabeleleiro");
    assert(table[6].0 == "Shopper"@);
    reveal_strlit("Shopper");
    assert(table[7].0 == "Mercados"@);
    reveal_strlit("Mercados");
    assert("Mercados"@[0] != "Farmácia"@[0]);
    assert(table[8].0 == "Presentes"@);
    reveal_strlit("Presentes");
    assert(table[9].0 == "Petshop"@);
    reveal_strlit("Petshop");
    assert(table[10].0 == "Papelaria"@);
    reveal_strlit("Papelaria");
    assert(table[11] == ("Farmácia"@, 2u8));
    assert forall|j: int| 0 <= j < 11 implies (#[trigger] table[j]).0 != "Farmácia"@ by {
        if j == 0 {  } else if j == 1 {  } else if j == 2 {  } else if j == 3 {  } else if j == 4 {  } else if j == 5 {  } else if j == 6 {  } else if j == 7 {  } else if j == 8 {  } else if j == 9 {  } else if j == 10 {  }
    }
    lemma_star_at(table, "Farmácia"@, 11);
}

#[verifier::spinoff_prover]
/// A text that contains "presente", and no keyword of an earlier rule, is categorised as "Compras" / "Presentes" with 1 star.
pub proof fn law_keyword_presente(t: Seq<char>)
    requires
        contains(t, "presente"@),
        none_of(t, seq!["motoboy"@, "sedex"@, "correio"@, "lalamove"@, "uber"@, "99"@, "taxista"@, "entrega"@, "retirada"@, "reembolso"@, "bradesco saúde"@, "plano de saúde"@, "mercado"@, "farmácia"@]),
    ensures
        categorize_lowered_spec(t) == Some(("Compras"@, "Presentes"@, 1u8)),
{
    let rules = spec_rules();
    let prefix = seq!["motoboy"@, "sedex"@, "correio"@, "lalamove"@, "uber"@, "99"@, "taxista"@, "entrega"@, "retirada"@, "reembolso"@, "bradesco saúde"@, "plano de saúde"@, "mercado"@, "farmácia"@];
    assert(prefix[0] == "motoboy"@);
    assert(prefix[1] == "sedex"@);
    assert(prefix[2] == "correio"@);
    assert(prefix[3] == "lalamove"@);
    assert(prefix[4] == "uber"@);
    assert(prefix[5] == "99"@);
    assert(prefix[6] == "taxista"@);
    assert(prefix[7] == "entrega"@);
    assert(prefix[8] == "retirada"@);
    assert(prefix[9] == "reembolso"@);
    assert(prefix[10] == "bradesco saúde"@);
    assert(prefix[11] == "plano de saúde"@);
    assert(prefix[12] == "mercado"@);
    assert(prefix[13] == "farmácia"@);
    assert(rules[0].0 == seq!["motoboy"@]);
    assert(!any_keyword(t, rules[0].0));
    assert(rules[1].0 == seq!["sedex"@, "correio"@]);
    assert(!any_keyword(t, rules[1].0));
    assert(rules[2].0 == seq!["lalamove"@]);
    assert(!any_keyword(t, rules[2].0));
    assert(rules[3].0 == seq!["uber"@, "99"@]);
    assert(!any_keyword(t, rules[3].0));
    assert(rules[4].0 == seq!["taxista"@]);
    assert(!any_keyword(t, rules[4].0));
    assert(rules[5].0 == seq!["entrega"@, "retirada"@]);
    assert(!any_keyword(t, rules[5].0));
    assert(rules[6].0 == seq!["reembolso"@, "bradesco saúde"@, "plano de saúde"@]);
    assert(!any_keyword(t, rules[6].0));
    assert(rules[7].0 == seq!["mercado"@]);
    assert(!any_keyword(t, rules[7].0));
    assert(rules[8].0 == seq!["farmácia"@]);
    assert(!any_keyword(t, rules[8].0));
    assert forall|j: int| 0 <= j < 9 implies !any_keyword(t, #[trigger] rules[j].0) by {
        if j == 0 {  } else if j == 1 {  } else if j == 2 {  } else if j == 3 {  } else if j == 4 {  } else if j == 5 {  } else if j == 6 {  } else if j == 7 {  } else if j == 8 {  }
    }
    assert(rules[9] == (seq!["presente"@], "Compras"@, "Presentes"@));
    assert(any_keyword(t, rules[9].0)) by {
        if contains(t, "presente"@) { assert(rules[9].0[0] == "presente"@); }
    }
    lemma_first_rule_at(t, rules, 9);
    let table = spec_star_table();
    reveal_strlit("Presentes");
    assert(table[0].0 == "Consultas"@);
    reveal_strlit("Consultas");
    assert("Consultas"@[0] != "Presentes"@[0]);
    assert(table[1].0 == "Exames"@);
    reveal_strlit("Exames");
    assert(table[2].0 == "Veterinário/Petshop (Consultas/Exames/Banhos/Tosas)"@);
    reveal_strlit("Veterinário/Petshop (Consultas/Exames/Banhos/Tosas)");
    assert(table[3].0 == "Vacinas"@);
    reveal_strlit("Vacinas");
    assert(table[4].0 == "Manicure"@);
    reveal_strlit("Manicure");
    assert(table[5].0 == "Cabeleleiro"@);
    reveal_strlit("Cabeleleiro");
    assert(table[6].0 == "Shopper"@);
    reveal_strlit("Shopper");
    assert(table[7].0 == "Mercados"@);
    reveal_strlit("Mercados");
    assert(table[8] == ("Presentes"@, 1u8));
    assert forall|j: int| 0 <= j < 8 implies (#[trigger] table[j]).0 != "Presentes"@ by {
        if j == 0 {  } else if j == 1 {  } else if j == 2 {  } else if j == 3 {  } else if j == 4 {  } else if j == 5 {  } else if j == 6 {  } else if j == 7 {  }
    }
    lemma_star_at(table, "Presentes"@, 8);
}

#[verifier::spinoff_prover]
/// A text that contains "shopper", and no keyword of an earlier rule, is categorised as "Compras" / "Shopper" with 2 stars.
pub proof fn law_keyword_shopper(t: Seq<char>)
    requires
        contains(t, "shopper"@),
        none_of(t, seq!["motoboy"@, "sedex"@, "correio"@, "lalamove"@, "uber"@, "99"@, "taxista"@, "entrega"@, "retirada"@, "reembolso"@, "bradesco saúde"@, "plano de saúde"@, "mercado"@, "farmácia"@, "presente"@]),
    ensures
        categorize_lowered_spec(t) == Some(("Compras"@, "Shopper"@, 2u8)),
{
    let rules = spec_rules();
    let prefix = seq!["motoboy"@, "sedex"@, "correio"@, "lalamove"@, "uber"@, "99"@, "taxista"@, "entrega"@, "retirada"@, "reembolso"@, "bradesco saúde"@, "plano de saúde"@, "mercado"@, "farmácia"@, "presente"@];
    assert(prefix[0] == "motoboy"@);
    assert(prefix[1] == "sedex"@);
    assert(prefix[2] == "correio"@);
    assert(prefix[3] == "lalamove"@);
    assert(prefix[4] == "uber"@);
    assert(prefix[5] == "99"@);
    assert(prefix[6] == "taxista"@);
    assert(prefix[7] == "entrega"@);
    assert(prefix[8] == "retirada"@);
    assert(prefix[9] == "reembolso"@);
    assert(prefix[10] == "bradesco saúde"@);
    assert(prefix[11] == "plano de saúde"@);
    assert(prefix[12] == "mercado"@);
    assert(prefix[13] == "farmácia"@);
    assert(prefix[14] == "presente"@);
    assert(rules[0].0 == seq!["motoboy"@]);
    assert(!any_keyword(t, rules[0].0));
    assert(rules[1].0 == seq!["sedex"@, "correio"@]);
    assert(!any_keyword(t, rules[1].0));
    assert(rules[2].0 == seq!["lalamove"@]);
    assert(!any_keyword(t, rules[2].0));
    assert(rules[3].0 == seq!["uber"@, "99"@]);
    assert(!any_keyword(t, rules[3].0));
    assert(rules[4].0 == seq!["taxista"@]);
    assert(!any_keyword(t, rules[4].0));
    assert(rules[5].0 == seq!["entrega"@, "retirada"@]);
    assert(!any_keyword(t, rules[5].0));
    assert(rules[6].0 == seq!["reembolso"@, "bradesco saúde"@, "plano de saúde"@]);
    assert(!any_keyword(t, rules[6].0));
    assert(rules[7].0 == seq!["mercado"@]);
    assert(!any_keyword(t, rules[7].0));
    assert(rules[8].0 == seq!["farmácia"@]);
    assert(!any_keyword(t, rules[8].0));
    assert(rules[9].0 == seq!["presente"@]);
    assert(!any_keyword(t, rules[9].0));
    assert forall|j: int| 0 <= j < 10 implies !any_keyword(t, #[trigger] rules[j].0) by {
        if j == 0 {  } else if j == 1 {  } else if j == 2 {  } else if j == 3 {  } else if j == 4 {  } else if j == 5 {  } else if j == 6 {  } else if j == 7 {  } else if j == 8 {  } else if j == 9 {  }
    }
    assert(rules[10] == (seq!["shopper"@], "Compras"@, "Shopper"@));
    assert(any_keyword(t, rules[10].0)) by {
        if contains(t, "shopper"@) { assert(rules[10].0[0] == "shopper"@); }
    }
    lemma_first_rule_at(t, rules, 10);
    let table = spec_star_table();
    reveal_strlit("Shopper");
    assert(table[0].0 == "Consultas"@);
    reveal_strlit("Consultas");
    assert(table[1].0 == "Exames"@);
    reveal_strlit("Exames");
    assert(table[2].0 == "Veterinário/Petshop (Consultas/Exames/Banhos/Tosas)"@);
    reveal_strlit("Veterinário/Petshop (Consultas/Exames/Banhos/Tosas)");
    assert(table[3].0 == "Vacinas"@);
    reveal_strlit("Vacinas");
    assert("Vacinas"@[0] != "Shopper"@[0]);
    assert(table[4].0 == "Manicure"@);
    reveal_strlit("Manicure");
    assert(table[5].0 == "Cabeleleiro"@);
    reveal_strlit("Cabeleleiro");
    assert(table[6] == ("Shopper"@, 2u8));
    assert forall|j: int| 0 <= j < 6 implies (#[trigger] table[j]).0 != "Shopper"@ by {
        if j == 0 {  } else if j == 1 {  } else if j == 2 {  } else if j == 3 {  } else if j == 4 {  } else if j == 5 {  }
    }
    lemma_star_at(table, "Shopper"@, 6);
}

#[verifier::spinoff_prover]
/// A text that contains "papelaria", and no keyword of an earlier rule, is categorised as "Compras" / "Papelaria" with 1 star.
pub proof fn law_keyword_papelaria(t: Seq<char>)
    requires
        contains(t, "papelaria"@),
        none_of(t, seq!["motoboy"@, "sedex"@, "correio"@, "lalamove"@, "uber"@, "99"@, "taxista"@, "entrega"@, "retirada"@, "reembolso"@, "bradesco saúde"@, "plano de saúde"@, "mercado"@, "farmácia"@, "presente"@, "shopper"@]),
    ensures
        categorize_lowered_spec(t) == Some(("Compras"@, "Papelaria"@, 1u8)),
{
    let rules = spec_rules();
    let prefix = seq!["motoboy"@, "sedex"@, "correio"@, "lalamove"@, "uber"@, "99"@, "taxista"@, "entrega"@, "retirada"@, "reembolso"@, "bradesco saúde"@, "plano de saúde"@, "mercado"@, "farmácia"@, "presente"@, "shopper"@];
    assert(prefix[0] == "motoboy"@);
    assert(prefix[1] == "sedex"@);
    assert(prefix[2] == "correio"@);
    assert(prefix[3] == "lalamove"@);
    assert(prefix[4] == "uber"@);
    assert(prefix[5] == "99"@);
    assert(prefix[6] == "taxista"@);
    assert(prefix[7] == "entrega"@);
    assert(prefix[8] == "retirada"@);
    assert(prefix[9] == "reembolso"@);
    assert(prefix[10] == "bradesco saúde"@);
    assert(prefix[11] == "plano de saúde"@);
    assert(prefix[12] == "mercado"@);
    assert(prefix[13] == "farmácia"@);
    assert(prefix[14] == "presente"@);
    assert(prefix[15] == "shopper"@);
    assert(rules[0].0 == seq!["motoboy"@]);
    assert(!any_keyword(t, rules[0].0));
    assert(rules[1].0 == seq!["sedex"@, "correio"@]);
    assert(!any_keyword(t, rules[1].0));
    assert(rules[2].0 == seq!["lalamove"@]);
    assert(!any_keyword(t, rules[2].0));
    assert(rules[3].0 == seq!["uber"@, "99"@]);
    assert(!any_keyword(t, rules[3].0));
    assert(rules[4].0 == seq!["taxista"@]);
    assert(!any_keyword(t, rules[4].0));
    assert(rules[5].0 == seq!["entrega"@, "retirada"@]);
    assert(!any_keyword(t, rules[5].0));
    assert(rules[6].0 == seq!["reembolso"@, "bradesco saúde"@, "plano de saúde"@]);
    assert(!any_keyword(t, rules[6].0));
    assert(rules[7].0 == seq!["mercado"@]);
    assert(!any_keyword(t, rules[7].0));
    assert(rules[8].0 == seq!["farmácia"@]);
    assert(!any_keyword(t, rules[8].0));
    assert(rules[9].0 == seq!["presente"@]);
    assert(!any_keyword(t, rules[9].0));
    assert(rules[10].0 == seq!["shopper"@]);
    assert(!any_keyword(t, rules[10].0));
    assert forall|j: int| 0 <= j < 11 implies !any_keyword(t, #[trigger] rules[j].0) by {
        if j == 0 {  } else if j == 1 {  } else if j == 2 {  } else if j == 3 {  } else if j == 4 {  } else if j == 5 {  } else if j == 6 {  } else if j == 7 {  } else if j == 8 {  } else if j == 9 {  } else if j == 10 {  }
    }
    assert(rules[11] == (seq!["papelaria"@], "Compras"@, "Papelaria"@));
    assert(any_keyword(t, rules[11].0)) by {
        if contains(t, "papelaria"@) { assert(rules[11].0[0] == "papelaria"@); }
    }
    lemma_first_rule_at(t, rules, 11);
    let table = spec_star_table();
    reveal_strlit("Papelaria");
    assert(table[0].0 == "Consultas"@);
    reveal_strlit("Consultas");
    assert("Consultas"@[0] != "Papelaria"@[0]);
    assert(table[1].0 == "Exames"@);
    reveal_strlit("Exames");
    assert(table[2].0 == "Veterinário/Petshop (Consultas/Exames/Banhos/Tosas)"@);
    reveal_strlit("Veterinário/Petshop (Consultas/Exames/Banhos/Tosas)");
    assert(table[3].0 == "Vacinas"@);
    reveal_strlit("Vacinas");
    assert(table[4].0 == "Manicure"@);
    reveal_strlit("Manicure");
    assert(table[5].0 == "Cabeleleiro"@);
    reveal_strlit("Cabeleleiro");
    assert(table[6].0 == "Shopper"@);
    reveal_strlit("Shopper");
    assert(table[7].0 == "Mercados"@);
    reveal_strlit("Mercados");
    assert(table[8].0 == "Presentes"@);
    reveal_strlit("Presentes");
    assert("Presentes"@[1] != "Papelaria"@[1]);
    assert(table[9].0 == "Petshop"@);
    reveal_strlit("Petshop");
    assert(table[10] == ("Papelaria"@, 1u8));
    assert forall|j: int| 0 <= j < 10 implies (#[trigger] table[j]).0 != "Papelaria"@ by {
        if j == 0 {  } else if j == 1 {  } else if j == 2 {  } else if j == 3 {  } else if j == 4 {  } else if j == 5 {  } else if j == 6 {  } else if j == 7 {  } else if j == 8 {  } else if j == 9 {  }
    }
    lemma_star_at(table, "Papelaria"@, 10);
}

#[verifier::spinoff_prover]
/// A text that contains "petshop", and no keyword of an earlier rule, is categorised as "Compras" / "Petshop" with 1 star.
pub proof fn law_keyword_petshop(t: Seq<char>)
    requires
        contains(t, "petshop"@),
        none_of(t, seq!["motoboy"@, "sedex"@, "correio"@, "lalamove"@, "uber"@, "99"@, "taxista"@, "entrega"@, "retirada"@, "reembolso"@, "bradesco saúde"@, "plano de saúde"@, "mercado"@, "farmácia"@, "presente"@, "shopper"@, "papelaria"@]),
    ensures
        categorize_lowered_spec(t) == Some(("Compras"@, "Petshop"@, 1u8)),
{
    let rules = spec_rules();
    let prefix = seq!["motoboy"@, "sedex"@, "correio"@, "lalamove"@, "uber"@, "99"@, "taxista"@, "entrega"@, "retirada"@, "reembolso"@, "bradesco saúde"@, "plano de saúde"@, "mercado"@, "farmácia"@, "presente"@, "shopper"@, "papelaria"@];
    assert(prefix[0] == "motoboy"@);
    assert(prefix[1] == "sedex"@);
    assert(prefix[2] == "correio"@);
    assert(prefix[3] == "lalamove"@);
    assert(prefix[4] == "uber"@);
    assert(prefix[5] == "99"@);
    assert(prefix[6] == "taxista"@);
    assert(prefix[7] == "entrega"@);
    assert(prefix[8] == "retirada"@);
    assert(prefix[9] == "reembolso"@);
    assert(prefix[10] == "bradesco saúde"@);
    assert(prefix[11] == "plano de saúde"@);
    assert(prefix[12] == "mercado"@);
    assert(prefix[13] == "farmácia"@);
    assert(prefix[14] == "presente"@);
    assert(prefix[15] == "shopper"@);
    assert(prefix[16] == "papelaria"@);
    assert(rules[0].0 == seq!["motoboy"@]);
    assert(!any_keyword(t, rules[0].0));
    assert(rules[1].0 == seq!["sedex"@, "correio"@]);
    assert(!any_keyword(t, rules[1].0));
    assert(rules[2].0 == seq!["lalamove"@]);
    assert(!any_keyword(t, rules[2].0));
    assert(rules[3].0 == seq!["uber"@, "99"@]);
    assert(!any_keyword(t, rules[3].0));
    assert(rules[4].0 == seq!["taxista"@]);
    assert(!any_keyword(t, rules[4].0));
    assert(rules[5].0 == seq!["entrega"@, "retirada"@]);
    assert(!any_keyword(t, rules[5].0));
    assert(rules[6].0 == seq!["reembolso"@, "bradesco saúde"@, "plano de saúde"@]);
    assert(!any_keyword(t, rules[6].0));
    assert(rules[7].0 == seq!["mercado"@]);
    assert(!any_keyword(t, rules[7].0));
    assert(rules[8].0 == seq!["farmácia"@]);
    assert(!any_keyword(t, rules[8].0));
    assert(rules[9].0 == seq!["presente"@]);
    assert(!any_keyword(t, rules[9].0));
    assert(rules[10].0 == seq!["shopper"@]);
    assert(!any_keyword(t, rules[10].0));
    assert(rules[11].0 == seq!["papelaria"@]);
    assert(!any_keyword(t, rules[11].0));
    assert forall|j: int| 0 <= j < 12 implies !any_keyword(t, #[trigger] rules[j].0) by {
        if j == 0 {  } else if j == 1 {  } else if j == 2 {  } else if j == 3 {  } else if j == 4 {  } else if j == 5 {  } else if j == 6 {  } else if j == 7 {  } else if j == 8 {  } else if j == 9 {  } else if j == 10 {  } else if j == 11 {  }
    }
    assert(rules[12] == (seq!["petshop"@], "Compras"@, "Petshop"@));
    assert(any_keyword(t, rules[12].0)) by {
        if contains(t, "petshop"@) { assert(rules[12].0[0] == "petshop"@); }
    }
    lemma_first_rule_at(t, rules, 12);
    let table = spec_star_table();
    reveal_strlit("Petshop");
    assert(table[0].0 == "Consultas"@);
    reveal_strlit("Consultas");
    assert(table[1].0 == "Exames"@);
    reveal_strlit("Exames");
    assert(table[2].0 == "Veterinário/Petshop (Consultas/Exames/Banhos/Tosas)"@);
    reveal_strlit("Veterinário/Petshop (Consultas/Exames/Banhos/Tosas)");
    assert(table[3].0 == "Vacinas"@);
    reveal_strlit("Vacinas");
    assert("Vacinas"@[0] != "Petshop"@[0]);
    assert(table[4].0 == "Manicure"@);
    reveal_strlit("Manicure");
    assert(table[5].0 == "Cabeleleiro"@);
    reveal_strlit("Cabeleleiro");
    assert(table[6].0 == "Shopper"@);
    reveal_strlit("Shopper");
    assert("Shopper"@[0] != "Petshop"@[0]);
    assert(table[7].0 == "Mercados"@);
    reveal_strlit("Mercados");
    assert(table[8].0 == "Presentes"@);
    reveal_strlit("Presentes");
    assert(table[9] == ("Petshop"@, 1u8));
    assert forall|j: int| 0 <= j < 9 implies (#[trigger] table[j]).0 != "Petshop"@ by {
        if j == 0 {  } else if j == 1 {  } else if j == 2 {  } else if j == 3 {  } else if j == 4 {  } else if j == 5 {  } else if j == 6 {  } else if j == 7 {  } else if j == 8 {  }
    }
    lemma_star_at(table, "Petshop"@, 9);
}

#[verifier::spinoff_prover]
/// A text that contains "ingresso", and no keyword of an earlier rule, is categorised as "Compras" / "Ingressos" with 2 stars.
pub proof fn law_keyword_ingresso(t: Seq<char>)
    requires
        contains(t, "ingresso"@),
        none_of(t, seq!["motoboy"@, "sedex"@, "correio"@, "lalamove"@, "uber"@, "99"@, "taxista"@, "entrega"@, "retirada"@, "reembolso"@, "bradesco saúde"@, "plano de saúde"@, "mercado"@, "farmácia"@, "presente"@, "shopper"@, "papelaria"@, "petshop"@]),
    ensures
        categorize_lowered_spec(t) == Some(("Compras"@, "Ingressos"@, 2u8)),
{
    let rules = spec_rules();
    let prefix = seq!["motoboy"@, "sedex"@, "correio"@, "lalamove"@, "uber"@, "99"@, "taxista"@, "entrega"@, "retirada"@, "reembolso"@, "bradesco saúde"@, "plano de saúde"@, "mercado"@, "farmácia"@, "presente"@, "shopper"@, "papelaria"@, "petshop"@];
    assert(prefix[0] == "motoboy"@);
    assert(prefix[1] == "sedex"@);
    assert(prefix[2] == "correio"@);
    assert(prefix[3] == "lalamove"@);
    assert(prefix[4] == "uber"@);
    assert(prefix[5] == "99"@);
    assert(prefix[6] == "taxista"@);
    assert(prefix[7] == "entrega"@);
    assert(prefix[8] == "retirada"@);
    assert(prefix[9] == "reembolso"@);
    assert(prefix[10] == "bradesco saúde"@);
    assert(prefix[11] == "plano de saúde"@);
    assert(prefix[12] == "mercado"@);
    assert(prefix[13] == "farmácia"@);
    assert(prefix[14] == "presente"@);
    assert(prefix[15] == "shopper"@);
    assert(prefix[16] == "papelaria"@);
    assert(prefix[17] == "petshop"@);
    assert(rules[0].0 == seq!["motoboy"@]);
    assert(!any_keyword(t, rules[0].0));
    assert(rules[1].0 == seq!["sedex"@, "correio"@]);
    assert(!any_keyword(t, rules[1].0));
    assert(rules[2].0 == seq!["lalamove"@]);
    assert(!any_keyword(t, rules[2].0));
    assert(rules[3].0 == seq!["uber"@, "99"@]);
    assert(!any_keyword(t, rules[3].0));
    assert(rules[4].0 == seq!["taxista"@]);
    assert(!any_keyword(t, rules[4].0));
    assert(rules[5].0 == seq!["entrega"@, "retirada"@]);
    assert(!any_keyword(t, rules[5].0));
    assert(rules[6].0 == seq!["reembolso"@, "bradesco saúde"@, "plano de saúde"@]);
    assert(!any_keyword(t, rules[6].0));
    assert(rules[7].0 == seq!["mercado"@]);
    assert(!any_keyword(t, rules[7].0));
    assert(rules[8].0 == seq!["farmácia"@]);
    assert(!any_keyword(t, rules[8].0));
    assert(rules[9].0 == seq!["presente"@]);
    assert(!any_keyword(t, rules[9].0));
    assert(rules[10].0 == seq!["shopper"@]);
    assert(!any_keyword(t, rules[10].0));
    assert(rules[11].0 == seq!["papelaria"@]);
    assert(!any_keyword(t, rules[11].0));
    assert(rules[12].0 == seq!["petshop"@]);
    assert(!any_keyword(t, rules[12].0));
    assert forall|j: int| 0 <= j < 13 implies !any_keyword(t, #[trigger] rules[j].0) by {
        if j == 0 {  } else if j == 1 {  } else if j == 2 {  } else if j == 3 {  } else if j == 4 {  } else if j == 5 {  } else if j == 6 {  } else if j == 7 {  } else if j == 8 {  } else if j == 9 {  } else if j == 10 {  } else if j == 11 {  } else if j == 12 {  }
    }
    assert(rules[13] == (seq!["ingresso"@], "Compras"@, "Ingressos"@));
    assert(any_keyword(t, rules[13].0)) by {
        if contains(t, "ingresso"@) { assert(rules[13].0[0] == "ingresso"@); }
    }
    lemma_first_rule_at(t, rules, 13);
    let table = spec_star_table();
    reveal_strlit("Ingressos");
    assert(table[0].0 == "Consultas"@);
    reveal_strlit("Consultas");
    assert("Consultas"@[0] != "Ingressos"@[0]);
    assert(table[1].0 == "Exames"@);
    reveal_strlit("Exames");
    assert(table[2].0 == "Veterinário/Petshop (Consultas/Exames/Banhos/Tosas)"@);
    reveal_strlit("Veterinário/Petshop (Consultas/Exames/Banhos/Tosas)");
    assert(table[3].0 == "Vacinas"@);
    reveal_strlit("Vacinas");
    assert(table[4].0 == "Manicure"@);
    reveal_strlit("Manicure");
    assert(table[5].0 == "Cabeleleiro"@);
    reveal_strlit("Cabeleleiro");
    assert(table[6].0 == "Shopper"@);
    reveal_strlit("Shopper");
    assert(table[7].0 == "Mercados"@);
    reveal_strlit("Mercados");
    assert(table[8].0 == "Presentes"@);
    reveal_strlit("Presentes");
    assert("Presentes"@[0] != "Ingressos"@[0]);
    assert(table[9].0 == "Petshop"@);
    reveal_strlit("Petshop");
    assert(table[10].0 == "Papelaria"@);
    reveal_strlit("Papelaria");
    assert("Papelaria"@[0] != "Ingressos"@[0]);
    assert(table[11].0 == "Farmácia"@);
    reveal_strlit("Farmácia");
    assert(table[12] == ("Ingressos"@, 2u8));
    assert forall|j: int| 0 <= j < 12 implies (#[trigger] table[j]).0 != "Ingressos"@ by {
        if j == 0 {  } else if j == 1 {  } else if j == 2 {  } else if j == 3 {  } else if j == 4 {  } else if j == 5 {  } else if j == 6 {  } else if j == 7 {  } else if j == 8 {  } else if j == 9 {  } else if j == 10 {  } else if j == 11 {  }
    }
    lemma_star_at(table, "Ingressos"@, 12);
}

#[verifier::spinoff_prover]
/// A text that contains "troca", and no keyword of an earlier rule, is categorised as "Assuntos Pessoais" / "Troca de titularidade" with 1 star.
pub proof fn law_keyword_troca(t: Seq<char>)
    requires
        contains(t, "troca"@),
        none_of(t, seq!["motoboy"@, "sedex"@, "correio"@, "lalamove"@, "uber"@, "99"@, "taxista"@, "entrega"@, "retirada"@, "reembolso"@, "bradesco saúde"@, "plano de saúde"@, "mercado"@, "farmácia"@, "presente"@, "shopper"@, "papelaria"@, "petshop"@, "ingresso"@]),
    ensures
        categorize_lowered_spec(t) == Some(("Assuntos Pessoais"@, "Troca de titularidade"@, 1u8)),
{
    let rules = spec_rules();
    let prefix = seq!["motoboy"@, "sedex"@, "correio"@, "lalamove"@, "uber"@, "99"@, "taxista"@, "entrega"@, "retirada"@, "reembolso"@, "bradesco saúde"@, "plano de saúde"@, "mercado"@, "farmácia"@, "presente"@, "shopper"@, "papelaria"@, "petshop"@, "ingresso"@];
    assert(prefix[0] == "motoboy"@);
    assert(prefix[1] == "sedex"@);
    assert(prefix[2] == "correio"@);
    assert(prefix[3] == "lalamove"@);
    assert(prefix[4] == "uber"@);
    assert(prefix[5] == "99"@);
    assert(prefix[6] == "taxista"@);
    assert(prefix[7] == "entrega"@);
    assert(prefix[8] == "retirada"@);
    assert(prefix[9] == "reembolso"@);
    assert(prefix[10] == "bradesco saúde"@);
    assert(prefix[11] == "plano de saúde"@);
    assert(prefix[12] == "mercado"@);
    assert(prefix[13] == "farmácia"@);
    assert(prefix[14] == "presente"@);
    assert(prefix[15] == "shopper"@);
    assert(prefix[16] == "papelaria"@);
    assert(prefix[17] == "petshop"@);
    assert(prefix[18] == "ingresso"@);
    assert(rules[0].0 == seq!["motoboy"@]);
    assert(!any_keyword(t, rules[0].0));
    assert(rules[1].0 == seq!["sedex"@, "correio"@]);
    assert(!any_keyword(t, rules[1].0));
    assert(rules[2].0 == seq!["lalamove"@]);
    assert(!any_keyword(t, rules[2].0));
    assert(rules[3].0 == seq!["uber"@, "99"@]);
    assert(!any_keyword(t, rules[3].0));
    assert(rules[4].0 == seq!["taxista"@]);
    assert(!any_keyword(t, rules[4].0));
    assert(rules[5].0 == seq!["entrega"@, "retirada"@]);
    assert(!any_keyword(t, rules[5].0));
    assert(rules[6].0 == seq!["reembolso"@, "bradesco saúde"@, "plano de saúde"@]);
    assert(!any_keyword(t, rules[6].0));
    assert(rules[7].0 == seq!["mercado"@]);
    assert(!any_keyword(t, rules[7].0));
    assert(rules[8].0 == seq!["farmácia"@]);
    assert(!any_keyword(t, rules[8].0));
    assert(rules[9].0 == seq!["presente"@]);
    assert(!any_keyword(t, rules[9].0));
    assert(rules[10].0 == seq!["shopper"@]);
    assert(!any_keyword(t, rules[10].0));
    assert(rules[11].0 == seq!["papelaria"@]);
    assert(!any_keyword(t, rules[11].0));
    assert(rules[12].0 == seq!["petshop"@]);
    assert(!any_keyword(t, rules[12].0));
    assert(rules[13].0 == seq!["ingresso"@]);
    assert(!any_keyword(t, rules[13].0));
    assert forall|j: int| 0 <= j < 14 implies !any_keyword(t, #[trigger] rules[j].0) by {
        if j == 0 {  } else if j == 1 {  } else if j == 2 {  } else if j == 3 {  } else if j == 4 {  } else if j == 5 {  } else if j == 6 {  } else if j == 7 {  } else if j == 8 {  } else if j == 9 {  } else if j == 10 {  } else if j == 11 {  } else if j == 12 {  } else if j == 13 {  }
    }
    assert(rules[14] == (seq!["troca"@], "Assuntos Pessoais"@, "Troca de titularidade"@));
    assert(any_keyword(t, rules[14].0)) by {
        if contains(t, "troca"@) { assert(rules[14].0[0] == "troca"@); }
    }
    lemma_first_rule_at(t, rules, 14);
    let table = spec_star_table();
    reveal_strlit("Troca de titularidade");
    assert(table[0].0 == "Consultas"@);
    reveal_strlit("Consultas");
    assert(table[1].0 == "Exames"@);
    reveal_strlit("Exames");
    assert(table[2].0 == "Veterinário/Petshop (Consultas/Exames/Banhos/Tosas)"@);
    reveal_strlit("Veterinário/Petshop (Consultas/Exames/Banhos/Tosas)");
    assert(table[3].0 == "Vacinas"@);
    reveal_strlit("Vacinas");
    assert(table[4].0 == "Manicure"@);
    reveal_strlit("Manicure");
    assert(table[5].0 == "Cabeleleiro"@);
    reveal_strlit("Cabeleleiro");
    assert(table[6].0 == "Shopper"@);
    reveal_strlit("Shopper");
    assert(table[7].0 == "Mercados"@);
    reveal_strlit("Mercados");
    assert(table[8].0 == "Presentes"@);
    reveal_strlit("Presentes");
    assert(table[9].0 == "Petshop"@);
    reveal_strlit("Petshop");
    assert(table[10].0 == "Papelaria"@);
    reveal_strlit("Papelaria");
    assert(table[11].0 == "Farmácia"@);
    reveal_strlit("Farmácia");
    assert(table[12].0 == "Ingressos"@);
    reveal_strlit("Ingressos");
    assert(table[13].0 == "Móveis e Eletros"@);
    reveal_strlit("Móveis e Eletros");
    assert(table[14].0 == "Itens pessoais e da casa"@);
    reveal_strlit("Itens pessoais e da casa");
    assert(table[15].0 == "CIN"@);
    reveal_strlit("CIN");
    assert(table[16].0 == "Certificado Digital"@);
    reveal_strlit("Certificado Digital");
    assert(table[17].0 == "Documento de Vacinação (BR/Iternacional)"@);
    reveal_strlit("Documento de Vacinação (BR/Iternacional)");
    assert(table[18].0 == "Seguros Carro/Casa/Viagem (anual)"@);
    reveal_strlit("Seguros Carro/Casa/Viagem (anual)");
    assert(table[19].0 == "Assinatura Digital"@);
    reveal_strlit("Assinatura Digital");
    assert(table[20].0 == "Contratos/Procurações"@);
    reveal_strlit("Contratos/Procurações");
    assert("Contratos/Procurações"@[0] != "Troca de titularidade"@[0]);
    assert(table[21].0 == "Cidadanias"@);
    reveal_strlit("Cidadanias");
    assert(table[22].0 == "Vistos e Vistos Eletrônicos"@);
    reveal_strlit("Vistos e Vistos Eletrônicos");
    assert(table[23].0 == "Passaporte"@);
    reveal_strlit("Passaporte");
    assert(table[24].0 == "CNH"@);
    reveal_strlit("CNH");
    assert(table[25].0 == "Averbações"@);
    reveal_strlit("Averbações");
    assert(table[26].0 == "Certidões"@);
    reveal_strlit("Certidões");
    assert(table[27].0 == "Reserva de restaurantes/bares"@);
    reveal_strlit("Reserva de restaurantes/bares");
    assert(table[28].0 == "Planejamento de festas"@);
    reveal_strlit("Planejamento de festas");
    assert(table[29].0 == "Pesquisa de passeios/eventos (BR)"@);
    reveal_strlit("Pesquisa de passeios/eventos (BR)");
    assert(table[30].0 == "Fornecedores no exterior (passeios, fotógrafos)"@);
    reveal_strlit("Fornecedores no exterior (passeios, fotógrafos)");
    assert(table[31].0 == "Corrida de motoboy"@);
    reveal_strlit("Corrida de motoboy");
    assert(table[32].0 == "Motoboy + Correios e envios internacionais"@);
    reveal_strlit("Motoboy + Correios e envios internacionais");
    assert(table[33].0 == "Lalamove"@);
    reveal_strlit("Lalamove");
    assert(table[34].0 == "Corridas com Taxistas"@);
    reveal_strlit("Corridas com Taxistas");
    assert("Corridas com Taxistas"@[0] != "Troca de titularidade"@[0]);
    assert(table[35].0 == "Transporte Urbano (Uber/99)"@);
    reveal_strlit("Transporte Urbano (Uber/99)");
    assert(table[36].0 == "Passagens Aéreas"@);
    reveal_strlit("Passagens Aéreas");
    assert(table[37].0 == "Hospedagens"@);
    reveal_strlit("Hospedagens");
    assert(table[38].0 == "Compra de Assentos e Bagagens"@);
    reveal_strlit("Compra de Assentos e Bagagens");
    assert(table[39].0 == "Passagens de Ônibus"@);
    reveal_strlit("Passagens de Ônibus");
    assert(table[40].0 == "Passagens de Trem"@);
    reveal_strlit("Passagens de Trem");
    assert(table[41].0 == "Checkins (Early/Late)"@);
    reveal_strlit("Checkins (Early/Late)");
    assert("Checkins (Early/Late)"@[0] != "Troca de titularidade"@[0]);
    assert(table[42].0 == "Extravio de Bagagens"@);
    reveal_strlit("Extravio de Bagagens");
    assert(table[43].0 == "Seguro Viagem (Temporário)"@);
    reveal_strlit("Seguro Viagem (Temporário)");
    assert(table[44].0 == "Transfer"@);
    reveal_strlit("Transfer");
    assert(table[45].0 == "Programa de Milhagem"@);
    reveal_strlit("Programa de Milhagem");
    assert(table[46].0 == "Gestão de Contas (CIAs Aereas)"@);
    reveal_strlit("Gestão de Contas (CIAs Aereas)");
    assert(table[47].0 == "Aluguel de Carro/Ônibus e Vans"@);
    reveal_strlit("Aluguel de Carro/Ônibus e Vans");
    assert(table[48].0 == "Roteiro de Viagens"@);
    reveal_strlit("Roteiro de Viagens");
    assert(table[49].0 == "Reembolso Médico"@);
    reveal_strlit("Reembolso Médico");
    assert(table[50].0 == "Extrato para IR"@);
    reveal_strlit("Extrato para IR");
    assert(table[51].0 == "Prévia de Reembolso"@);
    reveal_strlit("Prévia de Reembolso");
    assert(table[52].0 == "Contestações"@);
    reveal_strlit("Contestações");
    assert(table[53].0 == "Autorizações"@);
    reveal_strlit("Autorizações");
    assert(table[54].0 == "Contratações/Cancelamentos"@);
    reveal_strlit("Contratações/Cancelamentos");
    assert(table[55].0 == "Gestão de Agenda"@);
    reveal_strlit("Gestão de Agenda");
    assert(table[56].0 == "Criação e envio de invites"@);
    reveal_strlit("Criação e envio de invites");
    assert(table[57].0 == "Emissão de NF"@);
    reveal_strlit("Emissão de NF");
    assert(table[58].0 == "Rotina de Pagamentos"@);
    reveal_strlit("Rotina de Pagamentos");
    assert(table[59].0 == "Emissão de boletos"@);
    reveal_strlit("Emissão de boletos");
    assert(table[60].0 == "Conciliação Bancária"@);
    reveal_strlit("Conciliação Bancária");
    assert(table[61].0 == "Planilha de Gastos/Pagamentos"@);
    reveal_strlit("Planilha de Gastos/Pagamentos");
    assert(table[62].0 == "Encerramento e Abertura de CNPJ"@);
    reveal_strlit("Encerramento e Abertura de CNPJ");
    assert(table[63].0 == "Imposto de Renda"@);
    reveal_strlit("Imposto de Renda");
    assert(table[64].0 == "Emissão de Guias de Imposto (DARF, DAS, DIRF, GPS)"@);
    reveal_strlit("Emissão de Guias de Imposto (DARF, DAS, DIRF, GPS)");
    assert(table[65].0 == "Mudanças"@);
    reveal_strlit("Mudanças");
    assert(table[66] == ("Troca de titularidade"@, 1u8));
    assert forall|j: int| 0 <= j < 66 implies (#[trigger] table[j]).0 != "Troca de titularidade"@ by {
        if j == 0 {  } else if j == 1 {  } else if j == 2 {  } else if j == 3 {  } else if j == 4 {  } else if j == 5 {  } else if j == 6 {  } else if j == 7 {  } else if j == 8 {  } else if j == 9 {  } else if j == 10 {  } else if j == 11 {  } else if j == 12 {  } else if j == 13 {  } else if j == 14 {  } else if j == 15 {  } else if j == 16 {  } else if j == 17 {  } else if j == 18 {  } else if j == 19 {  } else if j == 20 {  } else if j == 21 {  } else if j == 22 {  } else if j == 23 {  } else if j == 24 {  } else if j == 25 {  } else if j == 26 {  } else if j == 27 {  } else if j == 28 {  } else if j == 29 {  } else if j == 30 {  } else if j == 31 {  } else if j == 32 {  } else if j == 33 {  } else if j == 34 {  } else if j == 35 {  } else if j == 36 {  } else if j == 37 {  } else if j == 38 {  } else if j == 39 {  } else if j == 40 {  } else if j == 41 {  } else if j == 42 {  } else if j == 43 {  } else if j == 44 {  } else if j == 45 {  } else if j == 46 {  } else if j == 47 {  } else if j == 48 {  } else if j == 49 {  } else if j == 50 {  } else if j == 51 {  } else if j == 52 {  } else if j == 53 {  } else if j == 54 {  } else if j == 55 {  } else if j == 56 {  } else if j == 57 {  } else if j == 58 {  } else if j == 59 {  } else if j == 60 {  } else if j == 61 {  } else if j == 62 {  } else if j == 63 {  } else if j == 64 {  } else if j == 65 {  }
    }
    lemma_star_at(table, "Troca de titularidade"@, 66);
}

#[verifier::spinoff_prover]
/// A text that contains "internet", and no keyword of an earlier rule, is categorised as "Assuntos Pessoais" / "Internet e TV por Assinatura" with 1 star.
pub proof fn law_keyword_internet(t: Seq<char>)
    requires
        contains(t, "internet"@),
        none_of(t, seq!["motoboy"@, "sedex"@, "correio"@, "lalamove"@, "uber"@, "99"@, "taxista"@, "entrega"@, "retirada"@, "reembolso"@, "bradesco saúde"@, "plano de saúde"@, "mercado"@, "farmácia"@, "presente"@, "shopper"@, "papelaria"@, "petshop"@, "ingresso"@, "troca"@]),
    ensures
        categorize_lowered_spec(t) == Some(("Assuntos Pessoais"@, "Internet e TV por Assinatura"@, 1u8)),
{
    let rules = spec_rules();
    let prefix = seq!["motoboy"@, "sedex"@, "correio"@, "lalamove"@, "uber"@, "99"@, "taxista"@, "entrega"@, "retirada"@, "reembolso"@, "bradesco saúde"@, "plano de saúde"@, "mercado"@, "farmácia"@, "presente"@, "shopper"@, "papelaria"@, "petshop"@, "ingresso"@, "troca"@];
    assert(prefix[0] == "motoboy"@);
    assert(prefix[1] == "sedex"@);
    assert(prefix[2] == "correio"@);
    assert(prefix[3] == "lalamove"@);
    assert(prefix[4] == "uber"@);
    assert(prefix[5] == "99"@);
    assert(prefix[6] == "taxista"@);
    assert(prefix[7] == "entrega"@);
    assert(prefix[8] == "retirada"@);
    assert(prefix[9] == "reembolso"@);
    assert(prefix[10] == "bradesco saúde"@);
    assert(prefix[11] == "plano de saúde"@);
    assert(prefix[12] == "mercado"@);
    assert(prefix[13] == "farmácia"@);
    assert(prefix[14] == "presente"@);
    assert(prefix[15] == "shopper"@);
    assert(prefix[16] == "papelaria"@);
    assert(prefix[17] == "petshop"@);
    assert(prefix[18] == "ingresso"@);
    assert(prefix[19] == "troca"@);
    assert(rules[0].0 == seq!["motoboy"@]);
    assert(!any_keyword(t, rules[0].0));
    assert(rules[1].0 == seq!["sedex"@, "correio"@]);
    assert(!any_keyword(t, rules[1].0));
    assert(rules[2].0 == seq!["lalamove"@]);
    assert(!any_keyword(t, rules[2].0));
    assert(rules[3].0 == seq!["uber"@, "99"@]);
    assert(!any_keyword(t, rules[3].0));
    assert(rules[4].0 == seq!["taxista"@]);
    assert(!any_keyword(t, rules[4].0));
    assert(rules[5].0 == seq!["entrega"@, "retirada"@]);
    assert(!any_keyword(t, rules[5].0));
    assert(rules[6].0 == seq!["reembolso"@, "bradesco saúde"@, "plano de saúde"@]);
    assert(!any_keyword(t, rules[6].0));
    assert(rules[7].0 == seq!["mercado"@]);
    assert(!any_keyword(t, rules[7].0));
    assert(rules[8].0 == seq!["farmácia"@]);
    assert(!any_keyword(t, rules[8].0));
    assert(rules[9].0 == seq!["presente"@]);
    assert(!any_keyword(t, rules[9].0));
    assert(rules[10].0 == seq!["shopper"@]);
    assert(!any_keyword(t, rules[10].0));
    assert(rules[11].0 == seq!["papelaria"@]);
    assert(!any_keyword(t, rules[11].0));
    assert(rules[12].0 == seq!["petshop"@]);
    assert(!any_keyword(t, rules[12].0));
    assert(rules[13].0 == seq!["ingresso"@]);
    assert(!any_keyword(t, rules[13].0));
    assert(rules[14].0 == seq!["troca"@]);
    assert(!any_keyword(t, rules[14].0));
    assert forall|j: int| 0 <= j < 15 implies !any_keyword(t, #[trigger] rules[j].0) by {
        if j == 0 {  } else if j == 1 {  } else if j == 2 {  } else if j == 3 {  } else if j == 4 {  } else if j == 5 {  } else if j == 6 {  } else if j == 7 {  } else if j == 8 {  } else if j == 9 {  } else if j == 10 {  } else if j == 11 {  } else if j == 12 {  } else if j == 13 {  } else if j == 14 {  }
    }
    assert(rules[15] == (seq!["internet"@], "Assuntos Pessoais"@, "Internet e TV por Assinatura"@));
    assert(any_keyword(t, rules[15].0)) by {
        if contains(t, "internet"@) { assert(rules[15].0[0] == "internet"@); }
    }
    lemma_first_rule_at(t, rules, 15);
    let table = spec_star_table();
    reveal_strlit("Internet e TV por Assinatura");
    assert(table[0].0 == "Consultas"@);
    reveal_strlit("Consultas");
    assert(table[1].0 == "Exames"@);
    reveal_strlit("Exames");
    assert(table[2].0 == "Veterinário/Petshop (Consultas/Exames/Banhos/Tosas)"@);
    reveal_strlit("Veterinário/Petshop (Consultas/Exames/Banhos/Tosas)");
    assert(table[3].0 == "Vacinas"@);
    reveal_strlit("Vacinas");
    assert(table[4].0 == "Manicure"@);
    reveal_strlit("Manicure");
    assert(table[5].0 == "Cabeleleiro"@);
    reveal_strlit("Cabeleleiro");
    assert(table[6].0 == "Shopper"@);
    reveal_strlit("Shopper");
    assert(table[7].0 == "Mercados"@);
    reveal_strlit("Mercados");
    assert(table[8].0 == "Presentes"@);
    reveal_strlit("Presentes");
    assert(table[9].0 == "Petshop"@);
    reveal_strlit("Petshop");
    assert(table[10].0 == "Papelaria"@);
    reveal_strlit("Papelaria");
    assert(table[11].0 == "Farmácia"@);
    reveal_strlit("Farmácia");
    assert(table[12].0 == "Ingressos"@);
    reveal_strlit("Ingressos");
    assert(table[13].0 == "Móveis e Eletros"@);
    reveal_strlit("Móveis e Eletros");
    assert(table[14].0 == "Itens pessoais e da casa"@);
    reveal_strlit("Itens pessoais e da casa");
    assert(table[15].0 == "CIN"@);
    reveal_strlit("CIN");
    assert(table[16].0 == "Certificado Digital"@);
    reveal_strlit("Certificado Digital");
    assert(table[17].0 == "Documento de Vacinação (BR/Iternacional)"@);
    reveal_strlit("Documento de Vacinação (BR/Iternacional)");
    assert(table[18].0 == "Seguros Carro/Casa/Viagem (anual)"@);
    reveal_strlit("Seguros Carro/Casa/Viagem (anual)");
    assert(table[19].0 == "Assinatura Digital"@);
    reveal_strlit("Assinatura Digital");
    assert(table[20].0 == "Contratos/Procurações"@);
    reveal_strlit("Contratos/Procurações");
    assert(table[21].0 == "Cidadanias"@);
    reveal_strlit("Cidadanias");
    assert(table[22].0 == "Vistos e Vistos Eletrônicos"@);
    reveal_strlit("Vistos e Vistos Eletrônicos");
    assert(table[23].0 == "Passaporte"@);
    reveal_strlit("Passaporte");
    assert(table[24].0 == "CNH"@);
    reveal_strlit("CNH");
    assert(table[25].0 == "Averbações"@);
    reveal_strlit("Averbações");
    assert(table[26].0 == "Certidões"@);
    reveal_strlit("Certidões");
    assert(table[27].0 == "Reserva de restaurantes/bares"@);
    reveal_strlit("Reserva de restaurantes/bares");
    assert(table[28].0 == "Planejamento de festas"@);
    reveal_strlit("Planejamento de festas");
    assert(table[29].0 == "Pesquisa de passeios/eventos (BR)"@);
    reveal_strlit("Pesquisa de passeios/eventos (BR)");
    assert(table[30].0 == "Fornecedores no exterior (passeios, fotógrafos)"@);
    reveal_strlit("Fornecedores no exterior (passeios, fotógrafos)");
    assert(table[31].0 == "Corrida de motoboy"@);
    reveal_strlit("Corrida de motoboy");
    assert(table[32].0 == "Motoboy + Correios e envios internacionais"@);
    reveal_strlit("Motoboy + Correios e envios internacionais");
    assert(table[33].0 == "Lalamove"@);
    reveal_strlit("Lalamove");
    assert(table[34].0 == "Corridas com Taxistas"@);
    reveal_strlit("Corridas com Taxistas");
    assert(table[35].0 == "Transporte Urbano (Uber/99)"@);
    reveal_strlit("Transporte Urbano (Uber/99)");
    assert(table[36].0 == "Passagens Aéreas"@);
    reveal_strlit("Passagens Aéreas");
    assert(table[37].0 == "Hospedagens"@);
    reveal_strlit("Hospedagens");
    assert(table[38].0 == "Compra de Assentos e Bagagens"@);
    reveal_strlit("Compra de Assentos e Bagagens");
    assert(table[39].0 == "Passagens de Ônibus"@);
    reveal_strlit("Passagens de Ônibus");
    assert(table[40].0 == "Passagens de Trem"@);
    reveal_strlit("Passagens de Trem");
    assert(table[41].0 == "Checkins (Early/Late)"@);
    reveal_strlit("Checkins (Early/Late)");
    assert(table[42].0 == "Extravio de Bagagens"@);
    reveal_strlit("Extravio de Bagagens");
    assert(table[43].0 == "Seguro Viagem (Temporário)"@);
    reveal_strlit("Seguro Viagem (Temporário)");
    assert(table[44].0 == "Transfer"@);
    reveal_strlit("Transfer");
    assert(table[45].0 == "Programa de Milhagem"@);
    reveal_strlit("Programa de Milhagem");
    assert(table[46].0 == "Gestão de Contas (CIAs Aereas)"@);
    reveal_strlit("Gestão de Contas (CIAs Aereas)");
    assert(table[47].0 == "Aluguel de Carro/Ônibus e Vans"@);
    reveal_strlit("Aluguel de Carro/Ônibus e Vans");
    assert(table[48].0 == "Roteiro de Viagens"@);
    reveal_strlit("Roteiro de Viagens");
    assert(table[49].0 == "Reembolso Médico"@);
    reveal_strlit("Reembolso Médico");
    assert(table[50].0 == "Extrato para IR"@);
    reveal_strlit("Extrato para IR");
    assert(table[51].0 == "Prévia de Reembolso"@);
    reveal_strlit("Prévia de Reembolso");
    assert(table[52].0 == "Contestações"@);
    reveal_strlit("Contestações");
    assert(table[53].0 == "Autorizações"@);
    reveal_strlit("Autorizações");
    assert(table[54].0 == "Contratações/Cancelamentos"@);
    reveal_strlit("Contratações/Cancelamentos");
    assert(table[55].0 == "Gestão de Agenda"@);
    reveal_strlit("Gestão de Agenda");
    assert(table[56].0 == "Criação e envio de invites"@);
    reveal_strlit("Criação e envio de invites");
    assert(table[57].0 == "Emissão de NF"@);
    reveal_strlit("Emissão de NF");
    assert(table[58].0 == "Rotina de Pagamentos"@);
    reveal_strlit("Rotina de Pagamentos");
    assert(table[59].0 == "Emissão de boletos"@);
    reveal_strlit("Emissão de boletos");
    assert(table[60].0 == "Conciliação Bancária"@);
    reveal_strlit("Conciliação Bancária");
    assert(table[61].0 == "Planilha de Gastos/Pagamentos"@);
    reveal_strlit("Planilha de Gastos/Pagamentos");
    assert(table[62].0 == "Encerramento e Abertura de CNPJ"@);
    reveal_strlit("Encerramento e Abertura de CNPJ");
    assert(table[63].0 == "Imposto de Renda"@);
    reveal_strlit("Imposto de Renda");
    assert(table[64].0 == "Emissão de Guias de Imposto (DARF, DAS, DIRF, GPS)"@);
    reveal_strlit("Emissão de Guias de Imposto (DARF, DAS, DIRF, GPS)");
    assert(table[65].0 == "Mudanças"@);
    reveal_strlit("Mudanças");
    assert(table[66].0 == "Troca de titularidade"@);
    reveal_strlit("Troca de titularidade");
    assert(table[67].0 == "Assuntos do Carro/Moto"@);
    reveal_strlit("Assuntos do Carro/Moto");
    assert(table[68] == ("Internet e TV por Assinatura"@, 1u8));
    assert forall|j: int| 0 <= j < 68 implies (#[trigger] table[j]).0 != "Internet e TV por Assinatura"@ by {
        if j == 0 {  } else if j == 1 {  } else if j == 2 {  } else if j == 3 {  } else if j == 4 {  } else if j == 5 {  } else if j == 6 {  } else if j == 7 {  } else if j == 8 {  } else if j == 9 {  } else if j == 10 {  } else if j == 11 {  } else if j == 12 {  } else if j == 13 {  } else if j == 14 {  } else if j == 15 {  } else if j == 16 {  } else if j == 17 {  } else if j == 18 {  } else if j == 19 {  } else if j == 20 {  } else if j == 21 {  } else if j == 22 {  } else if j == 23 {  } else if j == 24 {  } else if j == 25 {  } else if j == 26 {  } else if j == 27 {  } else if j == 28 {  } else if j == 29 {  } else if j == 30 {  } else if j == 31 {  } else if j == 32 {  } else if j == 33 {  } else if j == 34 {  } else if j == 35 {  } else if j == 36 {  } else if j == 37 {  } else if j == 38 {  } else if j == 39 {  } else if j == 40 {  } else if j == 41 {  } else if j == 42 {  } else if j == 43 {  } else if j == 44 {  } else if j == 45 {  } else if j == 46 {  } else if j == 47 {  } else if j == 48 {  } else if j == 49 {  } else if j == 50 {  } else if j == 51 {  } else if j == 52 {  } else if j == 53 {  } else if j == 54 {  } else if j == 55 {  } else if j == 56 {  } else if j == 57 {  } else if j == 58 {  } else if j == 59 {  } else if j == 60 {  } else if j == 61 {  } else if j == 62 {  } else if j == 63 {  } else if j == 64 {  } else if j == 65 {  } else if j == 66 {  } else if j == 67 {  }
    }
    lemma_star_at(table, "Internet e TV por Assinatura"@, 68);
}

#[verifier::spinoff_prover]
/// A text that contains "telefone", and no keyword of an earlier rule, is categorised as "Assuntos Pessoais" / "Telefone" with 1 star.
pub proof fn law_keyword_telefone(t: Seq<char>)
    requires
        contains(t, "telefone"@),
        none_of(t, seq!["motoboy"@, "sedex"@, "correio"@, "lalamove"@, "uber"@, "99"@, "taxista"@, "entrega"@, "retirada"@, "reembolso"@, "bradesco saúde"@, "plano de saúde"@, "mercado"@, "farmácia"@, "presente"@, "shopper"@, "papelaria"@, "petshop"@, "ingresso"@, "troca"@, "internet"@]),
    ensures
        categorize_lowered_spec(t) == Some(("Assuntos Pessoais"@, "Telefone"@, 1u8)),
{
    let rules = spec_rules();
    let prefix = seq!["motoboy"@, "sedex"@, "correio"@, "lalamove"@, "uber"@, "99"@, "taxista"@, "entrega"@, "retirada"@, "reembolso"@, "bradesco saúde"@, "plano de saúde"@, "mercado"@, "farmácia"@, "presente"@, "shopper"@, "papelaria"@, "petshop"@, "ingresso"@, "troca"@, "internet"@];
    assert(prefix[0] == "motoboy"@);
    assert(prefix[1] == "sedex"@);
    assert(prefix[2] == "correio"@);
    assert(prefix[3] == "lalamove"@);
    assert(prefix[4] == "uber"@);
    assert(prefix[5] == "99"@);
    assert(prefix[6] == "taxista"@);
    assert(prefix[7] == "entrega"@);
    assert(prefix[8] == "retirada"@);
    assert(prefix[9] == "reembolso"@);
    assert(prefix[10] == "bradesco saúde"@);
    assert(prefix[11] == "plano de saúde"@);
    assert(prefix[12] == "mercado"@);
    assert(prefix[13] == "farmácia"@);
    assert(prefix[14] == "presente"@);
    assert(prefix[15] == "shopper"@);
    assert(prefix[16] == "papelaria"@);
    assert(prefix[17] == "petshop"@);
    assert(prefix[18] == "ingresso"@);
    assert(prefix[19] == "troca"@);
    assert(prefix[20] == "internet"@);
    assert(rules[0].0 == seq!["motoboy"@]);
    assert(!any_keyword(t, rules[0].0));
    assert(rules[1].0 == seq!["sedex"@, "correio"@]);
    assert(!any_keyword(t, rules[1].0));
    assert(rules[2].0 == seq!["lalamove"@]);
    assert(!any_keyword(t, rules[2].0));
    assert(rules[3].0 == seq!["uber"@, "99"@]);
    assert(!any_keyword(t, rules[3].0));
    assert(rules[4].0 == seq!["taxista"@]);
    assert(!any_keyword(t, rules[4].0));
    assert(rules[5].0 == seq!["entrega"@, "retirada"@]);
    assert(!any_keyword(t, rules[5].0));
    assert(rules[6].0 == seq!["reembolso"@, "bradesco saúde"@, "plano de saúde"@]);
    assert(!any_keyword(t, rules[6].0));
    assert(rules[7].0 == seq!["mercado"@]);
    assert(!any_keyword(t, rules[7].0));
    assert(rules[8].0 == seq!["farmácia"@]);
    assert(!any_keyword(t, rules[8].0));
    assert(rules[9].0 == seq!["presente"@]);
    assert(!any_keyword(t, rules[9].0));
    assert(rules[10].0 == seq!["shopper"@]);
    assert(!any_keyword(t, rules[10].0));
    assert(rules[11].0 == seq!["papelaria"@]);
    assert(!any_keyword(t, rules[11].0));
    assert(rules[12].0 == seq!["petshop"@]);
    assert(!any_keyword(t, rules[12].0));
    assert(rules[13].0 == seq!["ingresso"@]);
    assert(!any_keyword(t, rules[13].0));
    assert(rules[14].0 == seq!["troca"@]);
    assert(!any_keyword(t, rules[14].0));
    assert(rules[15].0 == seq!["internet"@]);
    assert(!any_keyword(t, rules[15].0));
    assert forall|j: int| 0 <= j < 16 implies !any_keyword(t, #[trigger] rules[j].0) by {
        if j == 0 {  } else if j == 1 {  } else if j == 2 {  } else if j == 3 {  } else if j == 4 {  } else if j == 5 {  } else if j == 6 {  } else if j == 7 {  } else if j == 8 {  } else if j == 9 {  } else if j == 10 {  } else if j == 11 {  } else if j == 12 {  } else if j == 13 {  } else if j == 14 {  } else if j == 15 {  }
    }
    assert(rules[16] == (seq!["telefone"@], "Assuntos Pessoais"@, "Telefone"@));
    assert(any_keyword(t, rules[16].0)) by {
        if contains(t, "telefone"@) { assert(rules[16].0[0] == "telefone"@); }
    }
    lemma_first_rule_at(t, rules, 16);
    let table = spec_star_table();
    reveal_strlit("Telefone");
    assert(table[0].0 == "Consultas"@);
    reveal_strlit("Consultas");
    assert(table[1].0 == "Exames"@);
    reveal_strlit("Exames");
    assert(table[2].0 == "Veterinário/Petshop (Consultas/Exames/Banhos/Tosas)"@);
    reveal_strlit("Veterinário/Petshop (Consultas/Exames/Banhos/Tosas)");
    assert(table[3].0 == "Vacinas"@);
    reveal_strlit("Vacinas");
    assert(table[4].0 == "Manicure"@);
    reveal_strlit("Manicure");
    assert("Manicure"@[0] != "Telefone"@[0]);
    assert(table[5].0 == "Cabeleleiro"@);
    reveal_strlit("Cabeleleiro");
    assert(table[6].0 == "Shopper"@);
    reveal_strlit("Shopper");
    assert(table[7].0 == "Mercados"@);
    reveal_strlit("Mercados");
    assert("Mercados"@[0] != "Telefone"@[0]);
    assert(table[8].0 == "Presentes"@);
    reveal_strlit("Presentes");
    assert(table[9].0 == "Petshop"@);
    reveal_strlit("Petshop");
    assert(table[10].0 == "Papelaria"@);
    reveal_strlit("Papelaria");
    assert(table[11].0 == "Farmácia"@);
    reveal_strlit("Farmácia");
    assert("Farmácia"@[0] != "Telefone"@[0]);
    assert(table[12].0 == "Ingressos"@);
    reveal_strlit("Ingressos");
    assert(table[13].0 == "Móveis e Eletros"@);
    reveal_strlit("Móveis e Eletros");
    assert(table[14].0 == "Itens pessoais e da casa"@);
    reveal_strlit("Itens pessoais e da casa");
    assert(table[15].0 == "CIN"@);
    reveal_strlit("CIN");
    assert(table[16].0 == "Certificado Digital"@);
    reveal_strlit("Certificado Digital");
    assert(table[17].0 == "Documento de Vacinação (BR/Iternacional)"@);
    reveal_strlit("Documento de Vacinação (BR/Iternacional)");
    assert(table[18].0 == "Seguros Carro/Casa/Viagem (anual)"@);
    reveal_strlit("Seguros Carro/Casa/Viagem (anual)");
    assert(table[19].0 == "Assinatura Digital"@);
    reveal_strlit("Assinatura Digital");
    assert(table[20].0 == "Contratos/Procurações"@);
    reveal_strlit("Contratos/Procurações");
    assert(table[21].0 == "Cidadanias"@);
    reveal_strlit("Cidadanias");
    assert(table[22].0 == "Vistos e Vistos Eletrônicos"@);
    reveal_strlit("Vistos e Vistos Eletrônicos");
    assert(table[23].0 == "Passaporte"@);
    reveal_strlit("Passaporte");
    assert(table[24].0 == "CNH"@);
    reveal_strlit("CNH");
    assert(table[25].0 == "Averbações"@);
    reveal_strlit("Averbações");
    assert(table[26].0 == "Certidões"@);
    reveal_strlit("Certidões");
    assert(table[27].0 == "Reserva de restaurantes/bares"@);
    reveal_strlit("Reserva de restaurantes/bares");
    assert(table[28].0 == "Planejamento de festas"@);
    reveal_strlit("Planejamento de festas");
    assert(table[29].0 == "Pesquisa de passeios/eventos (BR)"@);
    reveal_strlit("Pesquisa de passeios/eventos (BR)");
    assert(table[30].0 == "Fornecedores no exterior (passeios, fotógrafos)"@);
    reveal_strlit("Fornecedores no exterior (passeios, fotógrafos)");
    assert(table[31].0 == "Corrida de motoboy"@);
    reveal_strlit("Corrida de motoboy");
    assert(table[32].0 == "Motoboy + Correios e envios internacionais"@);
    reveal_strlit("Motoboy + Correios e envios internacionais");
    assert(table[33].0 == "Lalamove"@);
    reveal_strlit("Lalamove");
    assert("Lalamove"@[0] != "Telefone"@[0]);
    assert(table[34].0 == "Corridas com Taxistas"@);
    reveal_strlit("Corridas com Taxistas");
    assert(table[35].0 == "Transporte Urbano (Uber/99)"@);
    reveal_strlit("Transporte Urbano (Uber/99)");
    assert(table[36].0 == "Passagens Aéreas"@);
    reveal_strlit("Passagens Aéreas");
    assert(table[37].0 == "Hospedagens"@);
    reveal_strlit("Hospedagens");
    assert(table[38].0 == "Compra de Assentos e Bagagens"@);
    reveal_strlit("Compra de Assentos e Bagagens");
    assert(table[39].0 == "Passagens de Ônibus"@);
    reveal_strlit("Passagens de Ônibus");
    assert(table[40].0 == "Passagens de Trem"@);
    reveal_strlit("Passagens de Trem");
    assert(table[41].0 == "Checkins (Early/Late)"@);
    reveal_strlit("Checkins (Early/Late)");
    assert(table[42].0 == "Extravio de Bagagens"@);
    reveal_strlit("Extravio de Bagagens");
    assert(table[43].0 == "Seguro Viagem (Temporário)"@);
    reveal_strlit("Seguro Viagem (Temporário)");
    assert(table[44].0 == "Transfer"@);
    reveal_strlit("Transfer");
    assert("Transfer"@[1] != "Telefone"@[1]);
    assert(table[45].0 == "Programa de Milhagem"@);
    reveal_strlit("Programa de Milhagem");
    assert(table[46].0 == "Gestão de Contas (CIAs Aereas)"@);
    reveal_strlit("Gestão de Contas (CIAs Aereas)");
    assert(table[47].0 == "Aluguel de Carro/Ônibus e Vans"@);
    reveal_strlit("Aluguel de Carro/Ônibus e Vans");
    assert(table[48].0 == "Roteiro de Viagens"@);
    reveal_strlit("Roteiro de Viagens");
    assert(table[49].0 == "Reembolso Médico"@);
    reveal_strlit("Reembolso Médico");
    assert(table[50].0 == "Extrato para IR"@);
    reveal_strlit("Extrato para IR");
    assert(table[51].0 == "Prévia de Reembolso"@);
    reveal_strlit("Prévia de Reembolso");
    assert(table[52].0 == "Contestações"@);
    reveal_strlit("Contestações");
    assert(table[53].0 == "Autorizações"@);
    reveal_strlit("Autorizações");
    assert(table[54].0 == "Contratações/Cancelamentos"@);
    reveal_strlit("Contratações/Cancelamentos");
    assert(table[55].0 == "Gestão de Agenda"@);
    reveal_strlit("Gestão de Agenda");
    assert(table[56].0 == "Criação e envio de invites"@);
    reveal_strlit("Criação e envio de invites");
    assert(table[57].0 == "Emissão de NF"@);
    reveal_strlit("Emissão de NF");
    assert(table[58].0 == "Rotina de Pagamentos"@);
    reveal_strlit("Rotina de Pagamentos");
    assert(table[59].0 == "Emissão de boletos"@);
    reveal_strlit("Emissão de boletos");
    assert(table[60].0 == "Conciliação Bancária"@);
    reveal_strlit("Conciliação Bancária");
    assert(table[61].0 == "Planilha de Gastos/Pagamentos"@);
    reveal_strlit("Planilha de Gastos/Pagamentos");
    assert(table[62].0 == "Encerramento e Abertura de CNPJ"@);
    reveal_strlit("Encerramento e Abertura de CNPJ");
    assert(table[63].0 == "Imposto de Renda"@);
    reveal_strlit("Imposto de Renda");
    assert(table[64].0 == "Emissão de Guias de Imposto (DARF, DAS, DIRF, GPS)"@);
    reveal_strlit("Emissão de Guias de Imposto (DARF, DAS, DIRF, GPS)");
    assert(table[65].0 == "Mudanças"@);
    reveal_strlit("Mudanças");
    assert("Mudanças"@[0] != "Telefone"@[0]);
    assert(table[66].0 == "Troca de titularidade"@);
    reveal_strlit("Troca de titularidade");
    assert(table[67].0 == "Assuntos do Carro/Moto"@);
    reveal_strlit("Assuntos do Carro/Moto");
    assert(table[68].0 == "Internet e TV por Assinatura"@);
    reveal_strlit("Internet e TV por Assinatura");
    assert(table[69].0 == "Contas de Consumo"@);
    reveal_strlit("Contas de Consumo");
    assert(table[70].0 == "Anúncio de Vendas Online (Itens, eletros. móveis)"@);
    reveal_strlit("Anúncio de Vendas Online (Itens, eletros. móveis)");
    assert(table[71].0 == "Assuntos Escolares e Professores Particulares"@);
    reveal_strlit("Assuntos Escolares e Professores Particulares");
    assert(table[72].0 == "Academia e Cursos Livres"@);
    reveal_strlit("Academia e Cursos Livres");
    assert(table[73] == ("Telefone"@, 1u8));
    assert forall|j: int| 0 <= j < 73 implies (#[trigger] table[j]).0 != "Telefone"@ by {
        if j == 0 {  } else if j == 1 {  } else if j == 2 {  } else if j == 3 {  } else if j == 4 {  } else if j == 5 {  } else if j == 6 {  } else if j == 7 {  } else if j == 8 {  } else if j == 9 {  } else if j == 10 {  } else if j == 11 {  } else if j == 12 {  } else if j == 13 {  } else if j == 14 {  } else if j == 15 {  } else if j == 16 {  } else if j == 17 {  } else if j == 18 {  } else if j == 19 {  } else if j == 20 {  } else if j == 21 {  } else if j == 22 {  } else if j == 23 {  } else if j == 24 {  } else if j == 25 {  } else if j == 26 {  } else if j == 27 {  } else if j == 28 {  } else if j == 29 {  } else if j == 30 {  } else if j == 31 {  } else if j == 32 {  } else if j == 33 {  } else if j == 34 {  } else if j == 35 {  } else if j == 36 {  } else if j == 37 {  } else if j == 38 {  } else if j == 39 {  } else if j == 40 {  } else if j == 41 {  } else if j == 42 {  } else if j == 43 {  } else if j == 44 {  } else if j == 45 {  } else if j == 46 {  } else if j == 47 {  } else if j == 48 {  } else if j == 49 {  } else if j == 50 {  } else if j == 51 {  } else if j == 52 {  } else if j == 53 {  } else if j == 54 {  } else if j == 55 {  } else if j == 56 {  } else if j == 57 {  } else if j == 58 {  } else if j == 59 {  } else if j == 60 {  } else if j == 61 {  } else if j == 62 {  } else if j == 63 {  } else if j == 64 {  } else if j == 65 {  } else if j == 66 {  } else if j == 67 {  } else if j == 68 {  } else if j == 69 {  } else if j == 70 {  } else if j == 71 {  } else if j == 72 {  }
    }
    lemma_star_at(table, "Telefone"@, 73);
}

#[verifier::spinoff_prover]
/// A text that contains "conserto", and no keyword of an earlier rule, is categorised as "Assuntos Pessoais" / "Consertos na Casa" with 1 star.
pub proof fn law_keyword_conserto(t: Seq<char>)
    requires
        contains(t, "conserto"@),
        none_of(t, seq!["motoboy"@, "sedex"@, "correio"@, "lalamove"@, "uber"@, "99"@, "taxista"@, "entrega"@, "retirada"@, "reembolso"@, "bradesco saúde"@, "plano de saúde"@, "mercado"@, "farmácia"@, "presente"@, "shopper"@, "papelaria"@, "petshop"@, "ingresso"@, "troca"@, "internet"@, "telefone"@]),
    ensures
        categorize_lowered_spec(t) == Some(("Assuntos Pessoais"@, "Consertos na Casa"@, 1u8)),
{
    let rules = spec_rules();
    let prefix = seq!["motoboy"@, "sedex"@, "correio"@, "lalamove"@, "uber"@, "99"@, "taxista"@, "entrega"@, "retirada"@, "reembolso"@, "bradesco saúde"@, "plano de saúde"@, "mercado"@, "farmácia"@, "presente"@, "shopper"@, "papelaria"@, "petshop"@, "ingresso"@, "troca"@, "internet"@, "telefone"@];
    assert(prefix[0] == "motoboy"@);
    assert(prefix[1] == "sedex"@);
    assert(prefix[2] == "correio"@);
    assert(prefix[3] == "lalamove"@);
    assert(prefix[4] == "uber"@);
    assert(prefix[5] == "99"@);
    assert(prefix[6] == "taxista"@);
    assert(prefix[7] == "entrega"@);
    assert(prefix[8] == "retirada"@);
    assert(prefix[9] == "reembolso"@);
    assert(prefix[10] == "bradesco saúde"@);
    assert(prefix[11] == "plano de saúde"@);
    assert(prefix[12] == "mercado"@);
    assert(prefix[13] == "farmácia"@);
    assert(prefix[14] == "presente"@);
    assert(prefix[15] == "shopper"@);
    assert(prefix[16] == "papelaria"@);
    assert(prefix[17] == "petshop"@);
    assert(prefix[18] == "ingresso"@);
    assert(prefix[19] == "troca"@);
    assert(prefix[20] == "internet"@);
    assert(prefix[21] == "telefone"@);
    assert(rules[0].0 == seq!["motoboy"@]);
    assert(!any_keyword(t, rules[0].0));
    assert(rules[1].0 == seq!["sedex"@, "correio"@]);
    assert(!any_keyword(t, rules[1].0));
    assert(rules[2].0 == seq!["lalamove"@]);
    assert(!any_keyword(t, rules[2].0));
    assert(rules[3].0 == seq!["uber"@, "99"@]);
    assert(!any_keyword(t, rules[3].0));
    assert(rules[4].0 == seq!["taxista"@]);
    assert(!any_keyword(t, rules[4].0));
    assert(rules[5].0 == seq!["entrega"@, "retirada"@]);
    assert(!any_keyword(t, rules[5].0));
    assert(rules[6].0 == seq!["reembolso"@, "bradesco saúde"@, "plano de saúde"@]);
    assert(!any_keyword(t, rules[6].0));
    assert(rules[7].0 == seq!["mercado"@]);
    assert(!any_keyword(t, rules[7].0));
    assert(rules[8].0 == seq!["farmácia"@]);
    assert(!any_keyword(t, rules[8].0));
    assert(rules[9].0 == seq!["presente"@]);
    assert(!any_keyword(t, rules[9].0));
    assert(rules[10].0 == seq!["shopper"@]);
    assert(!any_keyword(t, rules[10].0));
    assert(rules[11].0 == seq!["papelaria"@]);
    assert(!any_keyword(t, rules[11].0));
    assert(rules[12].0 == seq!["petshop"@]);
    assert(!any_keyword(t, rules[12].0));
    assert(rules[13].0 == seq!["ingresso"@]);
    assert(!any_keyword(t, rules[13].0));
    assert(rules[14].0 == seq!["troca"@]);
    assert(!any_keyword(t, rules[14].0));
    assert(rules[15].0 == seq!["internet"@]);
    assert(!any_keyword(t, rules[15].0));
    assert(rules[16].0 == seq!["telefone"@]);
    assert(!any_keyword(t, rules[16].0));
    assert forall|j: int| 0 <= j < 17 implies !any_keyword(t, #[trigger] rules[j].0) by {
        if j == 0 {  } else if j == 1 {  } else if j == 2 {  } else if j == 3 {  } else if j == 4 {  } else if j == 5 {  } else if j == 6 {  } else if j == 7 {  } else if j == 8 {  } else if j == 9 {  } else if j == 10 {  } else if j == 11 {  } else if j == 12 {  } else if j == 13 {  } else if j == 14 {  } else if j == 15 {  } else if j == 16 {  }
    }
    assert(rules[17] == (seq!["conserto"@], "Assuntos Pessoais"@, "Consertos na Casa"@));
    assert(any_keyword(t, rules[17].0)) by {
        if contains(t, "conserto"@) { assert(rules[17].0[0] == "conserto"@); }
    }
    lemma_first_rule_at(t, rules, 17);
    let table = spec_star_table();
    reveal_strlit("Consertos na Casa");
    assert(table[0].0 == "Consultas"@);
    reveal_strlit("Consultas");
    assert(table[1].0 == "Exames"@);
    reveal_strlit("Exames");
    assert(table[2].0 == "Veterinário/Petshop (Consultas/Exames/Banhos/Tosas)"@);
    reveal_strlit("Veterinário/Petshop (Consultas/Exames/Banhos/Tosas)");
    assert(table[3].0 == "Vacinas"@);
    reveal_strlit("Vacinas");
    assert(table[4].0 == "Manicure"@);
    reveal_strlit("Manicure");
    assert(table[5].0 == "Cabeleleiro"@);
    reveal_strlit("Cabeleleiro");
    assert(table[6].0 == "Shopper"@);
    reveal_strlit("Shopper");
    assert(table[7].0 == "Mercados"@);
    reveal_strlit("Mercados");
    assert(table[8].0 == "Presentes"@);
    reveal_strlit("Presentes");
    assert(table[9].0 == "Petshop"@);
    reveal_strlit("Petshop");
    assert(table[10].0 == "Papelaria"@);
    reveal_strlit("Papelaria");
    assert(table[11].0 == "Farmácia"@);
    reveal_strlit("Farmácia");
    assert(table[12].0 == "Ingressos"@);
    reveal_strlit("Ingressos");
    assert(table[13].0 == "Móveis e Eletros"@);
    reveal_strlit("Móveis e Eletros");
    assert(table[14].0 == "Itens pessoais e da casa"@);
    reveal_strlit("Itens pessoais e da casa");
    assert(table[15].0 == "CIN"@);
    reveal_strlit("CIN");
    assert(table[16].0 == "Certificado Digital"@);
    reveal_strlit("Certificado Digital");
    assert(table[17].0 == "Documento de Vacinação (BR/Iternacional)"@);
    reveal_strlit("Documento de Vacinação (BR/Iternacional)");
    assert(table[18].0 == "Seguros Carro/Casa/Viagem (anual)"@);
    reveal_strlit("Seguros Carro/Casa/Viagem (anual)");
    assert(table[19].0 == "Assinatura Digital"@);
    reveal_strlit("Assinatura Digital");
    assert(table[20].0 == "Contratos/Procurações"@);
    reveal_strlit("Contratos/Procurações");
    assert(table[21].0 == "Cidadanias"@);
    reveal_strlit("Cidadanias");
    assert(table[22].0 == "Vistos e Vistos Eletrônicos"@);
    reveal_strlit("Vistos e Vistos Eletrônicos");
    assert(table[23].0 == "Passaporte"@);
    reveal_strlit("Passaporte");
    assert(table[24].0 == "CNH"@);
    reveal_strlit("CNH");
    assert(table[25].0 == "Averbações"@);
    reveal_strlit("Averbações");
    assert(table[26].0 == "Certidões"@);
    reveal_strlit("Certidões");
    assert(table[27].0 == "Reserva de restaurantes/bares"@);
    reveal_strlit("Reserva de restaurantes/bares");
    assert(table[28].0 == "Planejamento de festas"@);
    reveal_strlit("Planejamento de festas");
    assert(table[29].0 == "Pesquisa de passeios/eventos (BR)"@);
    reveal_strlit("Pesquisa de passeios/eventos (BR)");
    assert(table[30].0 == "Fornecedores no exterior (passeios, fotógrafos)"@);
    reveal_strlit("Fornecedores no exterior (passeios, fotógrafos)");
    assert(table[31].0 == "Corrida de motoboy"@);
    reveal_strlit("Corrida de motoboy");
    assert(table[32].0 == "Motoboy + Correios e envios internacionais"@);
    reveal_strlit("Motoboy + Correios e envios internacionais");
    assert(table[33].0 == "Lalamove"@);
    reveal_strlit("Lalamove");
    assert(table[34].0 == "Corridas com Taxistas"@);
    reveal_strlit("Corridas com Taxistas");
    assert(table[35].0 == "Transporte Urbano (Uber/99)"@);
    reveal_strlit("Transporte Urbano (Uber/99)");
    assert(table[36].0 == "Passagens Aéreas"@);
    reveal_strlit("Passagens Aéreas");
    assert(table[37].0 == "Hospedagens"@);
    reveal_strlit("Hospedagens");
    assert(table[38].0 == "Compra de Assentos e Bagagens"@);
    reveal_strlit("Compra de Assentos e Bagagens");
    assert(table[39].0 == "Passagens de Ônibus"@);
    reveal_strlit("Passagens de Ônibus");
    assert(table[40].0 == "Passagens de Trem"@);
    reveal_strlit("Passagens de Trem");
    assert("Passagens de Trem"@[0] != "Consertos na Casa"@[0]);
    assert(table[41].0 == "Checkins (Early/Late)"@);
    reveal_strlit("Checkins (Early/Late)");
    assert(table[42].0 == "Extravio de Bagagens"@);
    reveal_strlit("Extravio de Bagagens");
    assert(table[43].0 == "Seguro Viagem (Temporário)"@);
    reveal_strlit("Seguro Viagem (Temporário)");
    assert(table[44].0 == "Transfer"@);
    reveal_strlit("Transfer");
    assert(table[45].0 == "Programa de Milhagem"@);
    reveal_strlit("Programa de Milhagem");
    assert(table[46].0 == "Gestão de Contas (CIAs Aereas)"@);
    reveal_strlit("Gestão de Contas (CIAs Aereas)");
    assert(table[47].0 == "Aluguel de Carro/Ônibus e Vans"@);
    reveal_strlit("Aluguel de Carro/Ônibus e Vans");
    assert(table[48].0 == "Roteiro de Viagens"@);
    reveal_strlit("Roteiro de Viagens");
    assert(table[49].0 == "Reembolso Médico"@);
    reveal_strlit("Reembolso Médico");
    assert(table[50].0 == "Extrato para IR"@);
    reveal_strlit("Extrato para IR");
    assert(table[51].0 == "Prévia de Reembolso"@);
    reveal_strlit("Prévia de Reembolso");
    assert(table[52].0 == "Contestações"@);
    reveal_strlit("Contestações");
    assert(table[53].0 == "Autorizações"@);
    reveal_strlit("Autorizações");
    assert(table[54].0 == "Contratações/Cancelamentos"@);
    reveal_strlit("Contratações/Cancelamentos");
    assert(table[55].0 == "Gestão de Agenda"@);
    reveal_strlit("Gestão de Agenda");
    assert(table[56].0 == "Criação e envio de invites"@);
    reveal_strlit("Criação e envio de invites");
    assert(table[57].0 == "Emissão de NF"@);
    reveal_strlit("Emissão de NF");
    assert(table[58].0 == "Rotina de Pagamentos"@);
    reveal_strlit("Rotina de Pagamentos");
    assert(table[59].0 == "Emissão de boletos"@);
    reveal_strlit("Emissão de boletos");
    assert(table[60].0 == "Conciliação Bancária"@);
    reveal_strlit("Conciliação Bancária");
    assert(table[61].0 == "Planilha de Gastos/Pagamentos"@);
    reveal_strlit("Planilha de Gastos/Pagamentos");
    assert(table[62].0 == "Encerramento e Abertura de CNPJ"@);
    reveal_strlit("Encerramento e Abertura de CNPJ");
    assert(table[63].0 == "Imposto de Renda"@);
    reveal_strlit("Imposto de Renda");
    assert(table[64].0 == "Emissão de Guias de Imposto (DARF, DAS, DIRF, GPS)"@);
    reveal_strlit("Emissão de Guias de Imposto (DARF, DAS, DIRF, GPS)");
    assert(table[65].0 == "Mudanças"@);
    reveal_strlit("Mudanças");
    assert(table[66].0 == "Troca de titularidade"@);
    reveal_strlit("Troca de titularidade");
    assert(table[67].0 == "Assuntos do Carro/Moto"@);
    reveal_strlit("Assuntos do Carro/Moto");
    assert(table[68].0 == "Internet e TV por Assinatura"@);
    reveal_strlit("Internet e TV por Assinatura");
    assert(table[69].0 == "Contas de Consumo"@);
    reveal_strlit("Contas de Consumo");
    assert("Contas de Consumo"@[3] != "Consertos na Casa"@[3]);
    assert(table[70].0 == "Anúncio de Vendas Online (Itens, eletros. móveis)"@);
    reveal_strlit("Anúncio de Vendas Online (Itens, eletros. móveis)");
    assert(table[71].0 == "Assuntos Escolares e Professores Particulares"@);
    reveal_strlit("Assuntos Escolares e Professores Particulares");
    assert(table[72].0 == "Academia e Cursos Livres"@);
    reveal_strlit("Academia e Cursos Livres");
    assert(table[73].0 == "Telefone"@);
    reveal_strlit("Telefone");
    assert(table[74].0 == "Assistência Técnica"@);
    reveal_strlit("Assistência Técnica");
    assert(table[75] == ("Consertos na Casa"@, 1u8));
    assert forall|j: int| 0 <= j < 75 implies (#[trigger] table[j]).0 != "Consertos na Casa"@ by {
        if j == 0 {  } else if j == 1 {  } else if j == 2 {  } else if j == 3 {  } else if j == 4 {  } else if j == 5 {  } else if j == 6 {  } else if j == 7 {  } else if j == 8 {  } else if j == 9 {  } else if j == 10 {  } else if j == 11 {  } else if j == 12 {  } else if j == 13 {  } else if j == 14 {  } else if j == 15 {  } else if j == 16 {  } else if j == 17 {  } else if j == 18 {  } else if j == 19 {  } else if j == 20 {  } else if j == 21 {  } else if j == 22 {  } else if j == 23 {  } else if j == 24 {  } else if j == 25 {  } else if j == 26 {  } else if j == 27 {  } else if j == 28 {  } else if j == 29 {  } else if j == 30 {  } else if j == 31 {  } else if j == 32 {  } else if j == 33 {  } else if j == 34 {  } else if j == 35 {  } else if j == 36 {  } else if j == 37 {  } else if j == 38 {  } else if j == 39 {  } else if j == 40 {  } else if j == 41 {  } else if j == 42 {  } else if j == 43 {  } else if j == 44 {  } else if j == 45 {  } else if j == 46 {  } else if j == 47 {  } else if j == 48 {  } else if j == 49 {  } else if j == 50 {  } else if j == 51 {  } else if j == 52 {  } else if j == 53 {  } else if j == 54 {  } else if j == 55 {  } else if j == 56 {  } else if j == 57 {  } else if j == 58 {  } else if j == 59 {  } else if j == 60 {  } else if j == 61 {  } else if j == 62 {  } else if j == 63 {  } else if j == 64 {  } else if j == 65 {  } else if j == 66 {  } else if j == 67 {  } else if j == 68 {  } else if j == 69 {  } else if j == 70 {  } else if j == 71 {  } else if j == 72 {  } else if j == 73 {  } else if j == 74 {  }
    }
    lemma_star_at(table, "Consertos na Casa"@, 75);
}

#[verifier::spinoff_prover]
/// A text that contains "assistência", and no keyword of an earlier rule, is categorised as "Assuntos Pessoais" / "Assistência Técnica" with 1 star.
pub proof fn law_keyword_assistencia(t: Seq<char>)
    requires
        contains(t, "assistência"@),
        none_of(t, seq!["motoboy"@, "sedex"@, "correio"@, "lalamove"@, "uber"@, "99"@, "taxista"@, "entrega"@, "retirada"@, "reembolso"@, "bradesco saúde"@, "plano de saúde"@, "mercado"@, "farmácia"@, "presente"@, "shopper"@, "papelaria"@, "petshop"@, "ingresso"@, "troca"@, "internet"@, "telefone"@, "conserto"@]),
    ensures
        categorize_lowered_spec(t) == Some(("Assuntos Pessoais"@, "Assistência Técnica"@, 1u8)),
{
    let rules = spec_rules();
    let prefix = seq!["motoboy"@, "sedex"@, "correio"@, "lalamove"@, "uber"@, "99"@, "taxista"@, "entrega"@, "retirada"@, "reembolso"@, "bradesco saúde"@, "plano de saúde"@, "mercado"@, "farmácia"@, "presente"@, "shopper"@, "papelaria"@, "petshop"@, "ingresso"@, "troca"@, "internet"@, "telefone"@, "conserto"@];
    assert(prefix[0] == "motoboy"@);
    assert(prefix[1] == "sedex"@);
    assert(prefix[2] == "correio"@);
    assert(prefix[3] == "lalamove"@);
    assert(prefix[4] == "uber"@);
    assert(prefix[5] == "99"@);
    assert(prefix[6] == "taxista"@);
    assert(prefix[7] == "entrega"@);
    assert(prefix[8] == "retirada"@);
    assert(prefix[9] == "reembolso"@);
    assert(prefix[10] == "bradesco saúde"@);
    assert(prefix[11] == "plano de saúde"@);
    assert(prefix[12] == "mercado"@);
    assert(prefix[13] == "farmácia"@);
    assert(prefix[14] == "presente"@);
    assert(prefix[15] == "shopper"@);
    assert(prefix[16] == "papelaria"@);
    assert(prefix[17] == "petshop"@);
    assert(prefix[18] == "ingresso"@);
    assert(prefix[19] == "troca"@);
    assert(prefix[20] == "internet"@);
    assert(prefix[21] == "telefone"@);
    assert(prefix[22] == "conserto"@);
    assert(rules[0].0 == seq!["motoboy"@]);
    assert(!any_keyword(t, rules[0].0));
    assert(rules[1].0 == seq!["sedex"@, "correio"@]);
    assert(!any_keyword(t, rules[1].0));
    assert(rules[2].0 == seq!["lalamove"@]);
    assert(!any_keyword(t, rules[2].0));
    assert(rules[3].0 == seq!["uber"@, "99"@]);
    assert(!any_keyword(t, rules[3].0));
    assert(rules[4].0 == seq!["taxista"@]);
    assert(!any_keyword(t, rules[4].0));
    assert(rules[5].0 == seq!["entrega"@, "retirada"@]);
    assert(!any_keyword(t, rules[5].0));
    assert(rules[6].0 == seq!["reembolso"@, "bradesco saúde"@, "plano de saúde"@]);
    assert(!any_keyword(t, rules[6].0));
    assert(rules[7].0 == seq!["mercado"@]);
    assert(!any_keyword(t, rules[7].0));
    assert(rules[8].0 == seq!["farmácia"@]);
    assert(!any_keyword(t, rules[8].0));
    assert(rules[9].0 == seq!["presente"@]);
    assert(!any_keyword(t, rules[9].0));
    assert(rules[10].0 == seq!["shopper"@]);
    assert(!any_keyword(t, rules[10].0));
    assert(rules[11].0 == seq!["papelaria"@]);
    assert(!any_keyword(t, rules[11].0));
    assert(rules[12].0 == seq!["petshop"@]);
    assert(!any_keyword(t, rules[12].0));
    assert(rules[13].0 == seq!["ingresso"@]);
    assert(!any_keyword(t, rules[13].0));
    assert(rules[14].0 == seq!["troca"@]);
    assert(!any_keyword(t, rules[14].0));
    assert(rules[15].0 == seq!["internet"@]);
    assert(!any_keyword(t, rules[15].0));
    assert(rules[16].0 == seq!["telefone"@]);
    assert(!any_keyword(t, rules[16].0));
    assert(rules[17].0 == seq!["conserto"@]);
    assert(!any_keyword(t, rules[17].0));
    assert forall|j: int| 0 <= j < 18 implies !any_keyword(t, #[trigger] rules[j].0) by {
        if j == 0 {  } else if j == 1 {  } else if j == 2 {  } else if j == 3 {  } else if j == 4 {  } else if j == 5 {  } else if j == 6 {  } else if j == 7 {  } else if j == 8 {  } else if j == 9 {  } else if j == 10 {  } else if j == 11 {  } else if j == 12 {  } else if j == 13 {  } else if j == 14 {  } else if j == 15 {  } else if j == 16 {  } else if j == 17 {  }
    }
    assert(rules[18] == (seq!["assistência"@], "Assuntos Pessoais"@, "Assistência Técnica"@));
    assert(any_keyword(t, rules[18].0)) by {
        if contains(t, "assistência"@) { assert(rules[18].0[0] == "assistência"@); }
    }
    lemma_first_rule_at(t, rules, 18);
    let table = spec_star_table();
    reveal_strlit("Assistência Técnica");
    assert(table[0].0 == "Consultas"@);
    reveal_strlit("Consultas");
    assert(table[1].0 == "Exames"@);
    reveal_strlit("Exames");
    assert(table[2].0 == "Veterinário/Petshop (Consultas/Exames/Banhos/Tosas)"@);
    reveal_strlit("Veterinário/Petshop (Consultas/Exames/Banhos/Tosas)");
    assert(table[3].0 == "Vacinas"@);
    reveal_strlit("Vacinas");
    assert(table[4].0 == "Manicure"@);
    reveal_strlit("Manicure");
    assert(table[5].0 == "Cabeleleiro"@);
    reveal_strlit("Cabeleleiro");
    assert(table[6].0 == "Shopper"@);
    reveal_strlit("Shopper");
    assert(table[7].0 == "Mercados"@);
    reveal_strlit("Mercados");
    assert(table[8].0 == "Presentes"@);
    reveal_strlit("Presentes");
    assert(table[9].0 == "Petshop"@);
    reveal_strlit("Petshop");
    assert(table[10].0 == "Papelaria"@);
    reveal_strlit("Papelaria");
    assert(table[11].0 == "Farmácia"@);
    reveal_strlit("Farmácia");
    assert(table[12].0 == "Ingressos"@);
    reveal_strlit("Ingressos");
    assert(table[13].0 == "Móveis e Eletros"@);
    reveal_strlit("Móveis e Eletros");
    assert(table[14].0 == "Itens pessoais e da casa"@);
    reveal_strlit("Itens pessoais e da casa");
    assert(table[15].0 == "CIN"@);
    reveal_strlit("CIN");
    assert(table[16].0 == "Certificado Digital"@);
    reveal_strlit("Certificado Digital");
    assert("Certificado Digital"@[0] != "Assistência Técnica"@[0]);
    assert(table[17].0 == "Documento de Vacinação (BR/Iternacional)"@);
    reveal_strlit("Documento de Vacinação (BR/Iternacional)");
    assert(table[18].0 == "Seguros Carro/Casa/Viagem (anual)"@);
    reveal_strlit("Seguros Carro/Casa/Viagem (anual)");
    assert(table[19].0 == "Assinatura Digital"@);
    reveal_strlit("Assinatura Digital");
    assert(table[20].0 == "Contratos/Procurações"@);
    reveal_strlit("Contratos/Procurações");
    assert(table[21].0 == "Cidadanias"@);
    reveal_strlit("Cidadanias");
    assert(table[22].0 == "Vistos e Vistos Eletrônicos"@);
    reveal_strlit("Vistos e Vistos Eletrônicos");
    assert(table[23].0 == "Passaporte"@);
    reveal_strlit("Passaporte");
    assert(table[24].0 == "CNH"@);
    reveal_strlit("CNH");
    assert(table[25].0 == "Averbações"@);
    reveal_strlit("Averbações");
    assert(table[26].0 == "Certidões"@);
    reveal_strlit("Certidões");
    assert(table[27].0 == "Reserva de restaurantes/bares"@);
    reveal_strlit("Reserva de restaurantes/bares");
    assert(table[28].0 == "Planejamento de festas"@);
    reveal_strlit("Planejamento de festas");
    assert(table[29].0 == "Pesquisa de passeios/eventos (BR)"@);
    reveal_strlit("Pesquisa de passeios/eventos (BR)");
    assert(table[30].0 == "Fornecedores no exterior (passeios, fotógrafos)"@);
    reveal_strlit("Fornecedores no exterior (passeios, fotógrafos)");
    assert(table[31].0 == "Corrida de motoboy"@);
    reveal_strlit("Corrida de motoboy");
    assert(table[32].0 == "Motoboy + Correios e envios internacionais"@);
    reveal_strlit("Motoboy + Correios e envios internacionais");
    assert(table[33].0 == "Lalamove"@);
    reveal_strlit("Lalamove");
    assert(table[34].0 == "Corridas com Taxistas"@);
    reveal_strlit("Corridas com Taxistas");
    assert(table[35].0 == "Transporte Urbano (Uber/99)"@);
    reveal_strlit("Transporte Urbano (Uber/99)");
    assert(table[36].0 == "Passagens Aéreas"@);
    reveal_strlit("Passagens Aéreas");
    assert(table[37].0 == "Hospedagens"@);
    reveal_strlit("Hospedagens");
    assert(table[38].0 == "Compra de Assentos e Bagagens"@);
    reveal_strlit("Compra de Assentos e Bagagens");
    assert(table[39].0 == "Passagens de Ônibus"@);
    reveal_strlit("Passagens de Ônibus");
    assert("Passagens de Ônibus"@[0] != "Assistência Técnica"@[0]);
    assert(table[40].0 == "Passagens de Trem"@);
    reveal_strlit("Passagens de Trem");
    assert(table[41].0 == "Checkins (Early/Late)"@);
    reveal_strlit("Checkins (Early/Late)");
    assert(table[42].0 == "Extravio de Bagagens"@);
    reveal_strlit("Extravio de Bagagens");
    assert(table[43].0 == "Seguro Viagem (Temporário)"@);
    reveal_strlit("Seguro Viagem (Temporário)");
    assert(table[44].0 == "Transfer"@);
    reveal_strlit("Transfer");
    assert(table[45].0 == "Programa de Milhagem"@);
    reveal_strlit("Programa de Milhagem");
    assert(table[46].0 == "Gestão de Contas (CIAs Aereas)"@);
    reveal_strlit("Gestão de Contas (CIAs Aereas)");
    assert(table[47].0 == "Aluguel de Carro/Ônibus e Vans"@);
    reveal_strlit("Aluguel de Carro/Ônibus e Vans");
    assert(table[48].0 == "Roteiro de Viagens"@);
    reveal_strlit("Roteiro de Viagens");
    assert(table[49].0 == "Reembolso Médico"@);
    reveal_strlit("Reembolso Médico");
    assert(table[50].0 == "Extrato para IR"@);
    reveal_strlit("Extrato para IR");
    assert(table[51].0 == "Prévia de Reembolso"@);
    reveal_strlit("Prévia de Reembolso");
    assert("Prévia de Reembolso"@[0] != "Assistência Técnica"@[0]);
    assert(table[52].0 == "Contestações"@);
    reveal_strlit("Contestações");
    assert(table[53].0 == "Autorizações"@);
    reveal_strlit("Autorizações");
    assert(table[54].0 == "Contratações/Cancelamentos"@);
    reveal_strlit("Contratações/Cancelamentos");
    assert(table[55].0 == "Gestão de Agenda"@);
    reveal_strlit("Gestão de Agenda");
    assert(table[56].0 == "Criação e envio de invites"@);
    reveal_strlit("Criação e envio de invites");
    assert(table[57].0 == "Emissão de NF"@);
    reveal_strlit("Emissão de NF");
    assert(table[58].0 == "Rotina de Pagamentos"@);
    reveal_strlit("Rotina de Pagamentos");
    assert(table[59].0 == "Emissão de boletos"@);
    reveal_strlit("Emissão de boletos");
    assert(table[60].0 == "Conciliação Bancária"@);
    reveal_strlit("Conciliação Bancária");
    assert(table[61].0 == "Planilha de Gastos/Pagamentos"@);
    reveal_strlit("Planilha de Gastos/Pagamentos");
    assert(table[62].0 == "Encerramento e Abertura de CNPJ"@);
    reveal_strlit("Encerramento e Abertura de CNPJ");
    assert(table[63].0 == "Imposto de Renda"@);
    reveal_strlit("Imposto de Renda");
    assert(table[64].0 == "Emissão de Guias de Imposto (DARF, DAS, DIRF, GPS)"@);
    reveal_strlit("Emissão de Guias de Imposto (DARF, DAS, DIRF, GPS)");
    assert(table[65].0 == "Mudanças"@);
    reveal_strlit("Mudanças");
    assert(table[66].0 == "Troca de titularidade"@);
    reveal_strlit("Troca de titularidade");
    assert(table[67].0 == "Assuntos do Carro/Moto"@);
    reveal_strlit("Assuntos do Carro/Moto");
    assert(table[68].0 == "Internet e TV por Assinatura"@);
    reveal_strlit("Internet e TV por Assinatura");
    assert(table[69].0 == "Contas de Consumo"@);
    reveal_strlit("Contas de Consumo");
    assert(table[70].0 == "Anúncio de Vendas Online (Itens, eletros. móveis)"@);
    reveal_strlit("Anúncio de Vendas Online (Itens, eletros. móveis)");
    assert(table[71].0 == "Assuntos Escolares e Professores Particulares"@);
    reveal_strlit("Assuntos Escolares e Professores Particulares");
    assert(table[72].0 == "Academia e Cursos Livres"@);
    reveal_strlit("Academia e Cursos Livres");
    assert(table[73].0 == "Telefone"@);
    reveal_strlit("Telefone");
    assert(table[74] == ("Assistência Técnica"@, 1u8));
    assert forall|j: int| 0 <= j < 74 implies (#[trigger] table[j]).0 != "Assistência Técnica"@ by {
        if j == 0 {  } else if j == 1 {  } else if j == 2 {  } else if j == 3 {  } else if j == 4 {  } else if j == 5 {  } else if j == 6 {  } else if j == 7 {  } else if j == 8 {  } else if j == 9 {  } else if j == 10 {  } else if j == 11 {  } else if j == 12 {  } else if j == 13 {  } else if j == 14 {  } else if j == 15 {  } else if j == 16 {  } else if j == 17 {  } else if j == 18 {  } else if j == 19 {  } else if j == 20 {  } else if j == 21 {  } else if j == 22 {  } else if j == 23 {  } else if j == 24 {  } else if j == 25 {  } else if j == 26 {  } else if j == 27 {  } else if j == 28 {  } else if j == 29 {  } else if j == 30 {  } else if j == 31 {  } else if j == 32 {  } else if j == 33 {  } else if j == 34 {  } else if j == 35 {  } else if j == 36 {  } else if j == 37 {  } else if j == 38 {  } else if j == 39 {  } else if j == 40 {  } else if j == 41 {  } else if j == 42 {  } else if j == 43 {  } else if j == 44 {  } else if j == 45 {  } else if j == 46 {  } else if j == 47 {  } else if j == 48 {  } else if j == 49 {  } else if j == 50 {  } else if j == 51 {  } else if j == 52 {  } else if j == 53 {  } else if j == 54 {  } else if j == 55 {  } else if j == 56 {  } else if j == 57 {  } else if j == 58 {  } else if j == 59 {  } else if j == 60 {  } else if j == 61 {  } else if j == 62 {  } else if j == 63 {  } else if j == 64 {  } else if j == 65 {  } else if j == 66 {  } else if j == 67 {  } else if j == 68 {  } else if j == 69 {  } else if j == 70 {  } else if j == 71 {  } else if j == 72 {  } else if j == 73 {  }
    }
    lemma_star_at(table, "Assistência Técnica"@, 74);
}

#[verifier::spinoff_prover]
/// A text that contains "pagamento", and no keyword of an earlier rule, is categorised as "Financeiro" / "Rotina de Pagamentos" with 1 star.
pub proof fn law_keyword_pagamento(t: Seq<char>)
    requires
        contains(t, "pagamento"@),
        none_of(t, seq!["motoboy"@, "sedex"@, "correio"@, "lalamove"@, "uber"@, "99"@, "taxista"@, "entrega"@, "retirada"@, "reembolso"@, "bradesco saúde"@, "plano de saúde"@, "mercado"@, "farmácia"@, "presente"@, "shopper"@, "papelaria"@, "petshop"@, "ingresso"@, "troca"@, "internet"@, "telefone"@, "conserto"@, "assistência"@]),
    ensures
        categorize_lowered_spec(t) == Some(("Financeiro"@, "Rotina de Pagamentos"@, 1u8)),
{
    let rules = spec_rules();
    let prefix = seq!["motoboy"@, "sedex"@, "correio"@, "lalamove"@, "uber"@, "99"@, "taxista"@, "entrega"@, "retirada"@, "reembolso"@, "bradesco saúde"@, "plano de saúde"@, "mercado"@, "farmácia"@, "presente"@, "shopper"@, "papelaria"@, "petshop"@, "ingresso"@, "troca"@, "internet"@, "telefone"@, "conserto"@, "assistência"@];
    assert(prefix[0] == "motoboy"@);
    assert(prefix[1] == "sedex"@);
    assert(prefix[2] == "correio"@);
    assert(prefix[3] == "lalamove"@);
    assert(prefix[4] == "uber"@);
    assert(prefix[5] == "99"@);
    assert(prefix[6] == "taxista"@);
    assert(prefix[7] == "entrega"@);
    assert(prefix[8] == "retirada"@);
    assert(prefix[9] == "reembolso"@);
    assert(prefix[10] == "bradesco saúde"@);
    assert(prefix[11] == "plano de saúde"@);
    assert(prefix[12] == "mercado"@);
    assert(prefix[13] == "farmácia"@);
    assert(prefix[14] == "presente"@);
    assert(prefix[15] == "shopper"@);
    assert(prefix[16] == "papelaria"@);
    assert(prefix[17] == "petshop"@);
    assert(prefix[18] == "ingresso"@);
    assert(prefix[19] == "troca"@);
    assert(prefix[20] == "internet"@);
    assert(prefix[21] == "telefone"@);
    assert(prefix[22] == "conserto"@);
    assert(prefix[23] == "assistência"@);
    assert(rules[0].0 == seq!["motoboy"@]);
    assert(!any_keyword(t, rules[0].0));
    assert(rules[1].0 == seq!["sedex"@, "correio"@]);
    assert(!any_keyword(t, rules[1].0));
    assert(rules[2].0 == seq!["lalamove"@]);
    assert(!any_keyword(t, rules[2].0));
    assert(rules[3].0 == seq!["uber"@, "99"@]);
    assert(!any_keyword(t, rules[3].0));
    assert(rules[4].0 == seq!["taxista"@]);
    assert(!any_keyword(t, rules[4].0));
    assert(rules[5].0 == seq!["entrega"@, "retirada"@]);
    assert(!any_keyword(t, rules[5].0));
    assert(rules[6].0 == seq!["reembolso"@, "bradesco saúde"@, "plano de saúde"@]);
    assert(!any_keyword(t, rules[6].0));
    assert(rules[7].0 == seq!["mercado"@]);
    assert(!any_keyword(t, rules[7].0));
    assert(rules[8].0 == seq!["farmácia"@]);
    assert(!any_keyword(t, rules[8].0));
    assert(rules[9].0 == seq!["presente"@]);
    assert(!any_keyword(t, rules[9].0));
    assert(rules[10].0 == seq!["shopper"@]);
    assert(!any_keyword(t, rules[10].0));
    assert(rules[11].0 == seq!["papelaria"@]);
    assert(!any_keyword(t, rules[11].0));
    assert(rules[12].0 == seq!["petshop"@]);
    assert(!any_keyword(t, rules[12].0));
    assert(rules[13].0 == seq!["ingresso"@]);
    assert(!any_keyword(t, rules[13].0));
    assert(rules[14].0 == seq!["troca"@]);
    assert(!any_keyword(t, rules[14].0));
    assert(rules[15].0 == seq!["internet"@]);
    assert(!any_keyword(t, rules[15].0));
    assert(rules[16].0 == seq!["telefone"@]);
    assert(!any_keyword(t, rules[16].0));
    assert(rules[17].0 == seq!["conserto"@]);
    assert(!any_keyword(t, rules[17].0));
    assert(rules[18].0 == seq!["assistência"@]);
    assert(!any_keyword(t, rules[18].0));
    assert forall|j: int| 0 <= j < 19 implies !any_keyword(t, #[trigger] rules[j].0) by {
        if j == 0 {  } else if j == 1 {  } else if j == 2 {  } else if j == 3 {  } else if j == 4 {  } else if j == 5 {  } else if j == 6 {  } else if j == 7 {  } else if j == 8 {  } else if j == 9 {  } else if j == 10 {  } else if j == 11 {  } else if j == 12 {  } else if j == 13 {  } else if j == 14 {  } else if j == 15 {  } else if j == 16 {  } else if j == 17 {  } else if j == 18 {  }
    }
    assert(rules[19] == (seq!["pagamento"@], "Financeiro"@, "Rotina de Pagamentos"@));
    assert(any_keyword(t, rules[19].0)) by {
        if contains(t, "pagamento"@) { assert(rules[19].0[0] == "pagamento"@); }
    }
    lemma_first_rule_at(t, rules, 19);
    let table = spec_star_table();
    reveal_strlit("Rotina de Pagamentos");
    assert(table[0].0 == "Consultas"@);
    reveal_strlit("Consultas");
    assert(table[1].0 == "Exames"@);
    reveal_strlit("Exames");
    assert(table[2].0 == "Veterinário/Petshop (Consultas/Exames/Banhos/Tosas)"@);
    reveal_strlit("Veterinário/Petshop (Consultas/Exames/Banhos/Tosas)");
    assert(table[3].0 == "Vacinas"@);
    reveal_strlit("Vacinas");
    assert(table[4].0 == "Manicure"@);
    reveal_strlit("Manicure");
    assert(table[5].0 == "Cabeleleiro"@);
    reveal_strlit("Cabeleleiro");
    assert(table[6].0 == "Shopper"@);
    reveal_strlit("Shopper");
    assert(table[7].0 == "Mercados"@);
    reveal_strlit("Mercados");
    assert(table[8].0 == "Presentes"@);
    reveal_strlit("Presentes");
    assert(table[9].0 == "Petshop"@);
    reveal_strlit("Petshop");
    assert(table[10].0 == "Papelaria"@);
    reveal_strlit("Papelaria");
    assert(table[11].0 == "Farmácia"@);
    reveal_strlit("Farmácia");
    assert(table[12].0 == "Ingressos"@);
    reveal_strlit("Ingressos");
    assert(table[13].0 == "Móveis e Eletros"@);
    reveal_strlit("Móveis e Eletros");
    assert(table[14].0 == "Itens pessoais e da casa"@);
    reveal_strlit("Itens pessoais e da casa");
    assert(table[15].0 == "CIN"@);
    reveal_strlit("CIN");
    assert(table[16].0 == "Certificado Digital"@);
    reveal_strlit("Certificado Digital");
    assert(table[17].0 == "Documento de Vacinação (BR/Iternacional)"@);
    reveal_strlit("Documento de Vacinação (BR/Iternacional)");
    assert(table[18].0 == "Seguros Carro/Casa/Viagem (anual)"@);
    reveal_strlit("Seguros Carro/Casa/Viagem (anual)");
    assert(table[19].0 == "Assinatura Digital"@);
    reveal_strlit("Assinatura Digital");
    assert(table[20].0 == "Contratos/Procurações"@);
    reveal_strlit("Contratos/Procurações");
    assert(table[21].0 == "Cidadanias"@);
    reveal_strlit("Cidadanias");
    assert(table[22].0 == "Vistos e Vistos Eletrônicos"@);
    reveal_strlit("Vistos e Vistos Eletrônicos");
    assert(table[23].0 == "Passaporte"@);
    reveal_strlit("Passaporte");
    assert(table[24].0 == "CNH"@);
    reveal_strlit("CNH");
    assert(table[25].0 == "Averbações"@);
    reveal_strlit("Averbações");
    assert(table[26].0 == "Certidões"@);
    reveal_strlit("Certidões");
    assert(table[27].0 == "Reserva de restaurantes/bares"@);
    reveal_strlit("Reserva de restaurantes/bares");
    assert(table[28].0 == "Planejamento de festas"@);
    reveal_strlit("Planejamento de festas");
    assert(table[29].0 == "Pesquisa de passeios/eventos (BR)"@);
    reveal_strlit("Pesquisa de passeios/eventos (BR)");
    assert(table[30].0 == "Fornecedores no exterior (passeios, fotógrafos)"@);
    reveal_strlit("Fornecedores no exterior (passeios, fotógrafos)");
    assert(table[31].0 == "Corrida de motoboy"@);
    reveal_strlit("Corrida de motoboy");
    assert(table[32].0 == "Motoboy + Correios e envios internacionais"@);
    reveal_strlit("Motoboy + Correios e envios internacionais");
    assert(table[33].0 == "Lalamove"@);
    reveal_strlit("Lalamove");
    assert(table[34].0 == "Corridas com Taxistas"@);
    reveal_strlit("Corridas com Taxistas");
    assert(table[35].0 == "Transporte Urbano (Uber/99)"@);
    reveal_strlit("Transporte Urbano (Uber/99)");
    assert(table[36].0 == "Passagens Aéreas"@);
    reveal_strlit("Passagens Aéreas");
    assert(table[37].0 == "Hospedagens"@);
    reveal_strlit("Hospedagens");
    assert(table[38].0 == "Compra de Assentos e Bagagens"@);
    reveal_strlit("Compra de Assentos e Bagagens");
    assert(table[39].0 == "Passagens de Ônibus"@);
    reveal_strlit("Passagens de Ônibus");
    assert(table[40].0 == "Passagens de Trem"@);
    reveal_strlit("Passagens de Trem");
    assert(table[41].0 == "Checkins (Early/Late)"@);
    reveal_strlit("Checkins (Early/Late)");
    assert(table[42].0 == "Extravio de Bagagens"@);
    reveal_strlit("Extravio de Bagagens");
    assert("Extravio de Bagagens"@[0] != "Rotina de Pagamentos"@[0]);
    assert(table[43].0 == "Seguro Viagem (Temporário)"@);
    reveal_strlit("Seguro Viagem (Temporário)");
    assert(table[44].0 == "Transfer"@);
    reveal_strlit("Transfer");
    assert(table[45].0 == "Programa de Milhagem"@);
    reveal_strlit("Programa de Milhagem");
    assert("Programa de Milhagem"@[0] != "Rotina de Pagamentos"@[0]);
    assert(table[46].0 == "Gestão de Contas (CIAs Aereas)"@);
    reveal_strlit("Gestão de Contas (CIAs Aereas)");
    assert(table[47].0 == "Aluguel de Carro/Ônibus e Vans"@);
    reveal_strlit("Aluguel de Carro/Ônibus e Vans");
    assert(table[48].0 == "Roteiro de Viagens"@);
    reveal_strlit("Roteiro de Viagens");
    assert(table[49].0 == "Reembolso Médico"@);
    reveal_strlit("Reembolso Médico");
    assert(table[50].0 == "Extrato para IR"@);
    reveal_strlit("Extrato para IR");
    assert(table[51].0 == "Prévia de Reembolso"@);
    reveal_strlit("Prévia de Reembolso");
    assert(table[52].0 == "Contestações"@);
    reveal_strlit("Contestações");
    assert(table[53].0 == "Autorizações"@);
    reveal_strlit("Autorizações");
    assert(table[54].0 == "Contratações/Cancelamentos"@);
    reveal_strlit("Contratações/Cancelamentos");
    assert(table[55].0 == "Gestão de Agenda"@);
    reveal_strlit("Gestão de Agenda");
    assert(table[56].0 == "Criação e envio de invites"@);
    reveal_strlit("Criação e envio de invites");
    assert(table[57].0 == "Emissão de NF"@);
    reveal_strlit("Emissão de NF");
    assert(table[58] == ("Rotina de Pagamentos"@, 1u8));
    assert forall|j: int| 0 <= j < 58 implies (#[trigger] table[j]).0 != "Rotina de Pagamentos"@ by {
        if j == 0 {  } else if j == 1 {  } else if j == 2 {  } else if j == 3 {  } else if j == 4 {  } else if j == 5 {  } else if j == 6 {  } else if j == 7 {  } else if j == 8 {  } else if j == 9 {  } else if j == 10 {  } else if j == 11 {  } else if j == 12 {  } else if j == 13 {  } else if j == 14 {  } else if j == 15 {  } else if j == 16 {  } else if j == 17 {  } else if j == 18 {  } else if j == 19 {  } else if j == 20 {  } else if j == 21 {  } else if j == 22 {  } else if j == 23 {  } else if j == 24 {  } else if j == 25 {  } else if j == 26 {  } else if j == 27 {  } else if j == 28 {  } else if j == 29 {  } else if j == 30 {  } else if j == 31 {  } else if j == 32 {  } else if j == 33 {  } else if j == 34 {  } else if j == 35 {  } else if j == 36 {  } else if j == 37 {  } else if j == 38 {  } else if j == 39 {  } else if j == 40 {  } else if j == 41 {  } else if j == 42 {  } else if j == 43 {  } else if j == 44 {  } else if j == 45 {  } else if j == 46 {  } else if j == 47 {  } else if j == 48 {  } else if j == 49 {  } else if j == 50 {  } else if j == 51 {  } else if j == 52 {  } else if j == 53 {  } else if j == 54 {  } else if j == 55 {  } else if j == 56 {  } else if j == 57 {  }
    }
    lemma_star_at(table, "Rotina de Pagamentos"@, 58);
}

#[verifier::spinoff_prover]
/// A text that contains "boleto", and no keyword of an earlier rule, is categorised as "Financeiro" / "Emissão de boletos" with 1 star.
pub proof fn law_keyword_boleto(t: Seq<char>)
    requires
        contains(t, "boleto"@),
        none_of(t, seq!["motoboy"@, "sedex"@, "correio"@, "lalamove"@, "uber"@, "99"@, "taxista"@, "entrega"@, "retirada"@, "reembolso"@, "bradesco saúde"@, "plano de saúde"@, "mercado"@, "farmácia"@, "presente"@, "shopper"@, "papelaria"@, "petshop"@, "ingresso"@, "troca"@, "internet"@, "telefone"@, "conserto"@, "assistência"@, "pagamento"@]),
    ensures
        categorize_lowered_spec(t) == Some(("Financeiro"@, "Emissão de boletos"@, 1u8)),
{
    let rules = spec_rules();
    let prefix = seq!["motoboy"@, "sedex"@, "correio"@, "lalamove"@, "uber"@, "99"@, "taxista"@, "entrega"@, "retirada"@, "reembolso"@, "bradesco saúde"@, "plano de saúde"@, "mercado"@, "farmácia"@, "presente"@, "shopper"@, "papelaria"@, "petshop"@, "ingresso"@, "troca"@, "internet"@, "telefone"@, "conserto"@, "assistência"@, "pagamento"@];
    assert(prefix[0] == "motoboy"@);
    assert(prefix[1] == "sedex"@);
    assert(prefix[2] == "correio"@);
    assert(prefix[3] == "lalamove"@);
    assert(prefix[4] == "uber"@);
    assert(prefix[5] == "99"@);
    assert(prefix[6] == "taxista"@);
    assert(prefix[7] == "entrega"@);
    assert(prefix[8] == "retirada"@);
    assert(prefix[9] == "reembolso"@);
    assert(prefix[10] == "bradesco saúde"@);
    assert(prefix[11] == "plano de saúde"@);
    assert(prefix[12] == "mercado"@);
    assert(prefix[13] == "farmácia"@);
    assert(prefix[14] == "presente"@);
    assert(prefix[15] == "shopper"@);
    assert(prefix[16] == "papelaria"@);
    assert(prefix[17] == "petshop"@);
    assert(prefix[18] == "ingresso"@);
    assert(prefix[19] == "troca"@);
    assert(prefix[20] == "internet"@);
    assert(prefix[21] == "telefone"@);
    assert(prefix[22] == "conserto"@);
    assert(prefix[23] == "assistência"@);
    assert(prefix[24] == "pagamento"@);
    assert(rules[0].0 == seq!["motoboy"@]);
    assert(!any_keyword(t, rules[0].0));
    assert(rules[1].0 == seq!["sedex"@, "correio"@]);
    assert(!any_keyword(t, rules[1].0));
    assert(rules[2].0 == seq!["lalamove"@]);
    assert(!any_keyword(t, rules[2].0));
    assert(rules[3].0 == seq!["uber"@, "99"@]);
    assert(!any_keyword(t, rules[3].0));
    assert(rules[4].0 == seq!["taxista"@]);
    assert(!any_keyword(t, rules[4].0));
    assert(rules[5].0 == seq!["entrega"@, "retirada"@]);
    assert(!any_keyword(t, rules[5].0));
    assert(rules[6].0 == seq!["reembolso"@, "bradesco saúde"@, "plano de saúde"@]);
    assert(!any_keyword(t, rules[6].0));
    assert(rules[7].0 == seq!["mercado"@]);
    assert(!any_keyword(t, rules[7].0));
    assert(rules[8].0 == seq!["farmácia"@]);
    assert(!any_keyword(t, rules[8].0));
    assert(rules[9].0 == seq!["presente"@]);
    assert(!any_keyword(t, rules[9].0));
    assert(rules[10].0 == seq!["shopper"@]);
    assert(!any_keyword(t, rules[10].0));
    assert(rules[11].0 == seq!["papelaria"@]);
    assert(!any_keyword(t, rules[11].0));
    assert(rules[12].0 == seq!["petshop"@]);
    assert(!any_keyword(t, rules[12].0));
    assert(rules[13].0 == seq!["ingresso"@]);
    assert(!any_keyword(t, rules[13].0));
    assert(rules[14].0 == seq!["troca"@]);
    assert(!any_keyword(t, rules[14].0));
    assert(rules[15].0 == seq!["internet"@]);
    assert(!any_keyword(t, rules[15].0));
    assert(rules[16].0 == seq!["telefone"@]);
    assert(!any_keyword(t, rules[16].0));
    assert(rules[17].0 == seq!["conserto"@]);
    assert(!any_keyword(t, rules[17].0));
    assert(rules[18].0 == seq!["assistência"@]);
    assert(!any_keyword(t, rules[18].0));
    assert(rules[19].0 == seq!["pagamento"@]);
    assert(!any_keyword(t, rules[19].0));
    assert forall|j: int| 0 <= j < 20 implies !any_keyword(t, #[trigger] rules[j].0) by {
        if j == 0 {  } else if j == 1 {  } else if j == 2 {  } else if j == 3 {  } else if j == 4 {  } else if j == 5 {  } else if j == 6 {  } else if j == 7 {  } else if j == 8 {  } else if j == 9 {  } else if j == 10 {  } else if j == 11 {  } else if j == 12 {  } else if j == 13 {  } else if j == 14 {  } else if j == 15 {  } else if j == 16 {  } else if j == 17 {  } else if j == 18 {  } else if j == 19 {  }
    }
    assert(rules[20] == (seq!["boleto"@], "Financeiro"@, "Emissão de boletos"@));
    assert(any_keyword(t, rules[20].0)) by {
        if contains(t, "boleto"@) { assert(rules[20].0[0] == "boleto"@); }
    }
    lemma_first_rule_at(t, rules, 20);
    let table = spec_star_table();
    reveal_strlit("Emissão de boletos");
    assert(table[0].0 == "Consultas"@);
    reveal_strlit("Consultas");
    assert(table[1].0 == "Exames"@);
    reveal_strlit("Exames");
    assert(table[2].0 == "Veterinário/Petshop (Consultas/Exames/Banhos/Tosas)"@);
    reveal_strlit("Veterinário/Petshop (Consultas/Exames/Banhos/Tosas)");
    assert(table[3].0 == "Vacinas"@);
    reveal_strlit("Vacinas");
    assert(table[4].0 == "Manicure"@);
    reveal_strlit("Manicure");
    assert(table[5].0 == "Cabeleleiro"@);
    reveal_strlit("Cabeleleiro");
    assert(table[6].0 == "Shopper"@);
    reveal_strlit("Shopper");
    assert(table[7].0 == "Mercados"@);
    reveal_strlit("Mercados");
    assert(table[8].0 == "Presentes"@);
    reveal_strlit("Presentes");
    assert(table[9].0 == "Petshop"@);
    reveal_strlit("Petshop");
    assert(table[10].0 == "Papelaria"@);
    reveal_strlit("Papelaria");
    assert(table[11].0 == "Farmácia"@);
    reveal_strlit("Farmácia");
    assert(table[12].0 == "Ingressos"@);
    reveal_strlit("Ingressos");
    assert(table[13].0 == "Móveis e Eletros"@);
    reveal_strlit("Móveis e Eletros");
    assert(table[14].0 == "Itens pessoais e da casa"@);
    reveal_strlit("Itens pessoais e da casa");
    assert(table[15].0 == "CIN"@);
    reveal_strlit("CIN");
    assert(table[16].0 == "Certificado Digital"@);
    reveal_strlit("Certificado Digital");
    assert(table[17].0 == "Documento de Vacinação (BR/Iternacional)"@);
    reveal_strlit("Documento de Vacinação (BR/Iternacional)");
    assert(table[18].0 == "Seguros Carro/Casa/Viagem (anual)"@);
    reveal_strlit("Seguros Carro/Casa/Viagem (anual)");
    assert(table[19].0 == "Assinatura Digital"@);
    reveal_strlit("Assinatura Digital");
    assert("Assinatura Digital"@[0] != "Emissão de boletos"@[0]);
    assert(table[20].0 == "Contratos/Procurações"@);
    reveal_strlit("Contratos/Procurações");
    assert(table[21].0 == "Cidadanias"@);
    reveal_strlit("Cidadanias");
    assert(table[22].0 == "Vistos e Vistos Eletrônicos"@);
    reveal_strlit("Vistos e Vistos Eletrônicos");
    assert(table[23].0 == "Passaporte"@);
    reveal_strlit("Passaporte");
    assert(table[24].0 == "CNH"@);
    reveal_strlit("CNH");
    assert(table[25].0 == "Averbações"@);
    reveal_strlit("Averbações");
    assert(table[26].0 == "Certidões"@);
    reveal_strlit("Certidões");
    assert(table[27].0 == "Reserva de restaurantes/bares"@);
    reveal_strlit("Reserva de restaurantes/bares");
    assert(table[28].0 == "Planejamento de festas"@);
    reveal_strlit("Planejamento de festas");
    assert(table[29].0 == "Pesquisa de passeios/eventos (BR)"@);
    reveal_strlit("Pesquisa de passeios/eventos (BR)");
    assert(table[30].0 == "Fornecedores no exterior (passeios, fotógrafos)"@);
    reveal_strlit("Fornecedores no exterior (passeios, fotógrafos)");
    assert(table[31].0 == "Corrida de motoboy"@);
    reveal_strlit("Corrida de motoboy");
    assert("Corrida de motoboy"@[0] != "Emissão de boletos"@[0]);
    assert(table[32].0 == "Motoboy + Correios e envios internacionais"@);
    reveal_strlit("Motoboy + Correios e envios internacionais");
    assert(table[33].0 == "Lalamove"@);
    reveal_strlit("Lalamove");
    assert(table[34].0 == "Corridas com Taxistas"@);
    reveal_strlit("Corridas com Taxistas");
    assert(table[35].0 == "Transporte Urbano (Uber/99)"@);
    reveal_strlit("Transporte Urbano (Uber/99)");
    assert(table[36].0 == "Passagens Aéreas"@);
    reveal_strlit("Passagens Aéreas");
    assert(table[37].0 == "Hospedagens"@);
    reveal_strlit("Hospedagens");
    assert(table[38].0 == "Compra de Assentos e Bagagens"@);
    reveal_strlit("Compra de Assentos e Bagagens");
    assert(table[39].0 == "Passagens de Ônibus"@);
    reveal_strlit("Passagens de Ônibus");
    assert(table[40].0 == "Passagens de Trem"@);
    reveal_strlit("Passagens de Trem");
    assert(table[41].0 == "Checkins (Early/Late)"@);
    reveal_strlit("Checkins (Early/Late)");
    assert(table[42].0 == "Extravio de Bagagens"@);
    reveal_strlit("Extravio de Bagagens");
    assert(table[43].0 == "Seguro Viagem (Temporário)"@);
    reveal_strlit("Seguro Viagem (Temporário)");
    assert(table[44].0 == "Transfer"@);
    reveal_strlit("Transfer");
    assert(table[45].0 == "Programa de Milhagem"@);
    reveal_strlit("Programa de Milhagem");
    assert(table[46].0 == "Gestão de Contas (CIAs Aereas)"@);
    reveal_strlit("Gestão de Contas (CIAs Aereas)");
    assert(table[47].0 == "Aluguel de Carro/Ônibus e Vans"@);
    reveal_strlit("Aluguel de Carro/Ônibus e Vans");
    assert(table[48].0 == "Roteiro de Viagens"@);
    reveal_strlit("Roteiro de Viagens");
    assert("Roteiro de Viagens"@[0] != "Emissão de boletos"@[0]);
    assert(table[49].0 == "Reembolso Médico"@);
    reveal_strlit("Reembolso Médico");
    assert(table[50].0 == "Extrato para IR"@);
    reveal_strlit("Extrato para IR");
    assert(table[51].0 == "Prévia de Reembolso"@);
    reveal_strlit("Prévia de Reembolso");
    assert(table[52].0 == "Contestações"@);
    reveal_strlit("Contestações");
    assert(table[53].0 == "Autorizações"@);
    reveal_strlit("Autorizações");
    assert(table[54].0 == "Contratações/Cancelamentos"@);
    reveal_strlit("Contratações/Cancelamentos");
    assert(table[55].0 == "Gestão de Agenda"@);
    reveal_strlit("Gestão de Agenda");
    assert(table[56].0 == "Criação e envio de invites"@);
    reveal_strlit("Criação e envio de invites");
    assert(table[57].0 == "Emissão de NF"@);
    reveal_strlit("Emissão de NF");
    assert(table[58].0 == "Rotina de Pagamentos"@);
    reveal_strlit("Rotina de Pagamentos");
    assert(table[59] == ("Emissão de boletos"@, 1u8));
    assert forall|j: int| 0 <= j < 59 implies (#[trigger] table[j]).0 != "Emissão de boletos"@ by {
        if j == 0 {  } else if j == 1 {  } else if j == 2 {  } else if j == 3 {  } else if j == 4 {  } else if j == 5 {  } else if j == 6 {  } else if j == 7 {  } else if j == 8 {  } else if j == 9 {  } else if j == 10 {  } else if j == 11 {  } else if j == 12 {  } else if j == 13 {  } else if j == 14 {  } else if j == 15 {  } else if j == 16 {  } else if j == 17 {  } else if j == 18 {  } else if j == 19 {  } else if j == 20 {  } else if j == 21 {  } else if j == 22 {  } else if j == 23 {  } else if j == 24 {  } else if j == 25 {  } else if j == 26 {  } else if j == 27 {  } else if j == 28 {  } else if j == 29 {  } else if j == 30 {  } else if j == 31 {  } else if j == 32 {  } else if j == 33 {  } else if j == 34 {  } else if j == 35 {  } else if j == 36 {  } else if j == 37 {  } else if j == 38 {  } else if j == 39 {  } else if j == 40 {  } else if j == 41 {  } else if j == 42 {  } else if j == 43 {  } else if j == 44 {  } else if j == 45 {  } else if j == 46 {  } else if j == 47 {  } else if j == 48 {  } else if j == 49 {  } else if j == 50 {  } else if j == 51 {  } else if j == 52 {  } else if j == 53 {  } else if j == 54 {  } else if j == 55 {  } else if j == 56 {  } else if j == 57 {  } else if j == 58 {  }
    }
    lemma_star_at(table, "Emissão de boletos"@, 59);
}

#[verifier::spinoff_prover]
/// A text that contains "nota fiscal", and no keyword of an earlier rule, is categorised as "Financeiro" / "Emissão de NF" with 1 star.
pub proof fn law_keyword_nota_fiscal(t: Seq<char>)
    requires
        contains(t, "nota fiscal"@),
        none_of(t, seq!["motoboy"@, "sedex"@, "correio"@, "lalamove"@, "uber"@, "99"@, "taxista"@, "entrega"@, "retirada"@, "reembolso"@, "bradesco saúde"@, "plano de saúde"@, "mercado"@, "farmácia"@, "presente"@, "shopper"@, "papelaria"@, "petshop"@, "ingresso"@, "troca"@, "internet"@, "telefone"@, "conserto"@, "assistência"@, "pagamento"@, "boleto"@]),
    ensures
        categorize_lowered_spec(t) == Some(("Financeiro"@, "Emissão de NF"@, 1u8)),
{
    let rules = spec_rules();
    let prefix = seq!["motoboy"@, "sedex"@, "correio"@, "lalamove"@, "uber"@, "99"@, "taxista"@, "entrega"@, "retirada"@, "reembolso"@, "bradesco saúde"@, "plano de saúde"@, "mercado"@, "farmácia"@, "presente"@, "shopper"@, "papelaria"@, "petshop"@, "ingresso"@, "troca"@, "internet"@, "telefone"@, "conserto"@, "assistência"@, "pagamento"@, "boleto"@];
    assert(prefix[0] == "motoboy"@);
    assert(prefix[1] == "sedex"@);
    assert(prefix[2] == "correio"@);
    assert(prefix[3] == "lalamove"@);
    assert(prefix[4] == "uber"@);
    assert(prefix[5] == "99"@);
    assert(prefix[6] == "taxista"@);
    assert(prefix[7] == "entrega"@);
    assert(prefix[8] == "retirada"@);
    assert(prefix[9] == "reembolso"@);
    assert(prefix[10] == "bradesco saúde"@);
    assert(prefix[11] == "plano de saúde"@);
    assert(prefix[12] == "mercado"@);
    assert(prefix[13] == "farmácia"@);
    assert(prefix[14] == "presente"@);
    assert(prefix[15] == "shopper"@);
    assert(prefix[16] == "papelaria"@);
    assert(prefix[17] == "petshop"@);
    assert(prefix[18] == "ingresso"@);
    assert(prefix[19] == "troca"@);
    assert(prefix[20] == "internet"@);
    assert(prefix[21] == "telefone"@);
    assert(prefix[22] == "conserto"@);
    assert(prefix[23] == "assistência"@);
    assert(prefix[24] == "pagamento"@);
    assert(prefix[25] == "boleto"@);
    assert(rules[0].0 == seq!["motoboy"@]);
    assert(!any_keyword(t, rules[0].0));
    assert(rules[1].0 == seq!["sedex"@, "correio"@]);
    assert(!any_keyword(t, rules[1].0));
    assert(rules[2].0 == seq!["lalamove"@]);
    assert(!any_keyword(t, rules[2].0));
    assert(rules[3].0 == seq!["uber"@, "99"@]);
    assert(!any_keyword(t, rules[3].0));
    assert(rules[4].0 == seq!["taxista"@]);
    assert(!any_keyword(t, rules[4].0));
    assert(rules[5].0 == seq!["entrega"@, "retirada"@]);
    assert(!any_keyword(t, rules[5].0));
    assert(rules[6].0 == seq!["reembolso"@, "bradesco saúde"@, "plano de saúde"@]);
    assert(!any_keyword(t, rules[6].0));
    assert(rules[7].0 == seq!["mercado"@]);
    assert(!any_keyword(t, rules[7].0));
    assert(rules[8].0 == seq!["farmácia"@]);
    assert(!any_keyword(t, rules[8].0));
    assert(rules[9].0 == seq!["presente"@]);
    assert(!any_keyword(t, rules[9].0));
    assert(rules[10].0 == seq!["shopper"@]);
    assert(!any_keyword(t, rules[10].0));
    assert(rules[11].0 == seq!["papelaria"@]);
    assert(!any_keyword(t, rules[11].0));
    assert(rules[12].0 == seq!["petshop"@]);
    assert(!any_keyword(t, rules[12].0));
    assert(rules[13].0 == seq!["ingresso"@]);
    assert(!any_keyword(t, rules[13].0));
    assert(rules[14].0 == seq!["troca"@]);
    assert(!any_keyword(t, rules[14].0));
    assert(rules[15].0 == seq!["internet"@]);
    assert(!any_keyword(t, rules[15].0));
    assert(rules[16].0 == seq!["telefone"@]);
    assert(!any_keyword(t, rules[16].0));
    assert(rules[17].0 == seq!["conserto"@]);
    assert(!any_keyword(t, rules[17].0));
    assert(rules[18].0 == seq!["assistência"@]);
    assert(!any_keyword(t, rules[18].0));
    assert(rules[19].0 == seq!["pagamento"@]);
    assert(!any_keyword(t, rules[19].0));
    assert(rules[20].0 == seq!["boleto"@]);
    assert(!any_keyword(t, rules[20].0));
    assert forall|j: int| 0 <= j < 21 implies !any_keyword(t, #[trigger] rules[j].0) by {
        if j == 0 {  } else if j == 1 {  } else if j == 2 {  } else if j == 3 {  } else if j == 4 {  } else if j == 5 {  } else if j == 6 {  } else if j == 7 {  } else if j == 8 {  } else if j == 9 {  } else if j == 10 {  } else if j == 11 {  } else if j == 12 {  } else if j == 13 {  } else if j == 14 {  } else if j == 15 {  } else if j == 16 {  } else if j == 17 {  } else if j == 18 {  } else if j == 19 {  } else if j == 20 {  }
    }
    assert(rules[21] == (seq!["nota fiscal"@], "Financeiro"@, "Emissão de NF"@));
    assert(any_keyword(t, rules[21].0)) by {
        if contains(t, "nota fiscal"@) { assert(rules[21].0[0] == "nota fiscal"@); }
    }
    lemma_first_rule_at(t, rules, 21);
    let table = spec_star_table();
    reveal_strlit("Emissão de NF");
    assert(table[0].0 == "Consultas"@);
    reveal_strlit("Consultas");
    assert(table[1].0 == "Exames"@);
    reveal_strlit("Exames");
    assert(table[2].0 == "Veterinário/Petshop (Consultas/Exames/Banhos/Tosas)"@);
    reveal_strlit("Veterinário/Petshop (Consultas/Exames/Banhos/Tosas)");
    assert(table[3].0 == "Vacinas"@);
    reveal_strlit("Vacinas");
    assert(table[4].0 == "Manicure"@);
    reveal_strlit("Manicure");
    assert(table[5].0 == "Cabeleleiro"@);
    reveal_strlit("Cabeleleiro");
    assert(table[6].0 == "Shopper"@);
    reveal_strlit("Shopper");
    assert(table[7].0 == "Mercados"@);
    reveal_strlit("Mercados");
    assert(table[8].0 == "Presentes"@);
    reveal_strlit("Presentes");
    assert(table[9].0 == "Petshop"@);
    reveal_strlit("Petshop");
    assert(table[10].0 == "Papelaria"@);
    reveal_strlit("Papelaria");
    assert(table[11].0 == "Farmácia"@);
    reveal_strlit("Farmácia");
    assert(table[12].0 == "Ingressos"@);
    reveal_strlit("Ingressos");
    assert(table[13].0 == "Móveis e Eletros"@);
    reveal_strlit("Móveis e Eletros");
    assert(table[14].0 == "Itens pessoais e da casa"@);
    reveal_strlit("Itens pessoais e da casa");
    assert(table[15].0 == "CIN"@);
    reveal_strlit("CIN");
    assert(table[16].0 == "Certificado Digital"@);
    reveal_strlit("Certificado Digital");
    assert(table[17].0 == "Documento de Vacinação (BR/Iternacional)"@);
    reveal_strlit("Documento de Vacinação (BR/Iternacional)");
    assert(table[18].0 == "Seguros Carro/Casa/Viagem (anual)"@);
    reveal_strlit("Seguros Carro/Casa/Viagem (anual)");
    assert(table[19].0 == "Assinatura Digital"@);
    reveal_strlit("Assinatura Digital");
    assert(table[20].0 == "Contratos/Procurações"@);
    reveal_strlit("Contratos/Procurações");
    assert(table[21].0 == "Cidadanias"@);
    reveal_strlit("Cidadanias");
    assert(table[22].0 == "Vistos e Vistos Eletrônicos"@);
    reveal_strlit("Vistos e Vistos Eletrônicos");
    assert(table[23].0 == "Passaporte"@);
    reveal_strlit("Passaporte");
    assert(table[24].0 == "CNH"@);
    reveal_strlit("CNH");
    assert(table[25].0 == "Averbações"@);
    reveal_strlit("Averbações");
    assert(table[26].0 == "Certidões"@);
    reveal_strlit("Certidões");
    assert(table[27].0 == "Reserva de restaurantes/bares"@);
    reveal_strlit("Reserva de restaurantes/bares");
    assert(table[28].0 == "Planejamento de festas"@);
    reveal_strlit("Planejamento de festas");
    assert(table[29].0 == "Pesquisa de passeios/eventos (BR)"@);
    reveal_strlit("Pesquisa de passeios/eventos (BR)");
    assert(table[30].0 == "Fornecedores no exterior (passeios, fotógrafos)"@);
    reveal_strlit("Fornecedores no exterior (passeios, fotógrafos)");
    assert(table[31].0 == "Corrida de motoboy"@);
    reveal_strlit("Corrida de motoboy");
    assert(table[32].0 == "Motoboy + Correios e envios internacionais"@);
    reveal_strlit("Motoboy + Correios e envios internacionais");
    assert(table[33].0 == "Lalamove"@);
    reveal_strlit("Lalamove");
    assert(table[34].0 == "Corridas com Taxistas"@);
    reveal_strlit("Corridas com Taxistas");
    assert(table[35].0 == "Transporte Urbano (Uber/99)"@);
    reveal_strlit("Transporte Urbano (Uber/99)");
    assert(table[36].0 == "Passagens Aéreas"@);
    reveal_strlit("Passagens Aéreas");
    assert(table[37].0 == "Hospedagens"@);
    reveal_strlit("Hospedagens");
    assert(table[38].0 == "Compra de Assentos e Bagagens"@);
    reveal_strlit("Compra de Assentos e Bagagens");
    assert(table[39].0 == "Passagens de Ônibus"@);
    reveal_strlit("Passagens de Ônibus");
    assert(table[40].0 == "Passagens de Trem"@);
    reveal_strlit("Passagens de Trem");
    assert(table[41].0 == "Checkins (Early/Late)"@);
    reveal_strlit("Checkins (Early/Late)");
    assert(table[42].0 == "Extravio de Bagagens"@);
    reveal_strlit("Extravio de Bagagens");
    assert(table[43].0 == "Seguro Viagem (Temporário)"@);
    reveal_strlit("Seguro Viagem (Temporário)");
    assert(table[44].0 == "Transfer"@);
    reveal_strlit("Transfer");
    assert(table[45].0 == "Programa de Milhagem"@);
    reveal_strlit("Programa de Milhagem");
    assert(table[46].0 == "Gestão de Contas (CIAs Aereas)"@);
    reveal_strlit("Gestão de Contas (CIAs Aereas)");
    assert(table[47].0 == "Aluguel de Carro/Ônibus e Vans"@);
    reveal_strlit("Aluguel de Carro/Ônibus e Vans");
    assert(table[48].0 == "Roteiro de Viagens"@);
    reveal_strlit("Roteiro de Viagens");
    assert(table[49].0 == "Reembolso Médico"@);
    reveal_strlit("Reembolso Médico");
    assert(table[50].0 == "Extrato para IR"@);
    reveal_strlit("Extrato para IR");
    assert(table[51].0 == "Prévia de Reembolso"@);
    reveal_strlit("Prévia de Reembolso");
    assert(table[52].0 == "Contestações"@);
    reveal_strlit("Contestações");
    assert(table[53].0 == "Autorizações"@);
    reveal_strlit("Autorizações");
    assert(table[54].0 == "Contratações/Cancelamentos"@);
    reveal_strlit("Contratações/Cancelamentos");
    assert(table[55].0 == "Gestão de Agenda"@);
    reveal_strlit("Gestão de Agenda");
    assert(table[56].0 == "Criação e envio de invites"@);
    reveal_strlit("Criação e envio de invites");
    assert(table[57] == ("Emissão de NF"@, 1u8));
    assert forall|j: int| 0 <= j < 57 implies (#[trigger] table[j]).0 != "Emissão de NF"@ by {
        if j == 0 {  } else if j == 1 {  } else if j == 2 {  } else if j == 3 {  } else if j == 4 {  } else if j == 5 {  } else if j == 6 {  } else if j == 7 {  } else if j == 8 {  } else if j == 9 {  } else if j == 10 {  } else if j == 11 {  } else if j == 12 {  } else if j == 13 {  } else if j == 14 {  } else if j == 15 {  } else if j == 16 {  } else if j == 17 {  } else if j == 18 {  } else if j == 19 {  } else if j == 20 {  } else if j == 21 {  } else if j == 22 {  } else if j == 23 {  } else if j == 24 {  } else if j == 25 {  } else if j == 26 {  } else if j == 27 {  } else if j == 28 {  } else if j == 29 {  } else if j == 30 {  } else if j == 31 {  } else if j == 32 {  } else if j == 33 {  } else if j == 34 {  } else if j == 35 {  } else if j == 36 {  } else if j == 37 {  } else if j == 38 {  } else if j == 39 {  } else if j == 40 {  } else if j == 41 {  } else if j == 42 {  } else if j == 43 {  } else if j == 44 {  } else if j == 45 {  } else if j == 46 {  } else if j == 47 {  } else if j == 48 {  } else if j == 49 {  } else if j == 50 {  } else if j == 51 {  } else if j == 52 {  } else if j == 53 {  } else if j == 54 {  } else if j == 55 {  } else if j == 56 {  }
    }
    lemma_star_at(table, "Emissão de NF"@, 57);
}

#[verifier::spinoff_prover]
/// A text that contains "passagem", and no keyword of an earlier rule, is categorised as "Viagens" / "Passagens Aéreas" with 2 stars.
pub proof fn law_keyword_passagem(t: Seq<char>)
    requires
        contains(t, "passagem"@),
        none_of(t, seq!["motoboy"@, "sedex"@, "correio"@, "lalamove"@, "uber"@, "99"@, "taxista"@, "entrega"@, "retirada"@, "reembolso"@, "bradesco saúde"@, "plano de saúde"@, "mercado"@, "farmácia"@, "presente"@, "shopper"@, "papelaria"@, "petshop"@, "ingresso"@, "troca"@, "internet"@, "telefone"@, "conserto"@, "assistência"@, "pagamento"@, "boleto"@, "nota fiscal"@]),
    ensures
        categorize_lowered_spec(t) == Some(("Viagens"@, "Passagens Aéreas"@, 2u8)),
{
    let rules = spec_rules();
    let prefix = seq!["motoboy"@, "sedex"@, "correio"@, "lalamove"@, "uber"@, "99"@, "taxista"@, "entrega"@, "retirada"@, "reembolso"@, "bradesco saúde"@, "plano de saúde"@, "mercado"@, "farmácia"@, "presente"@, "shopper"@, "papelaria"@, "petshop"@, "ingresso"@, "troca"@, "internet"@, "telefone"@, "conserto"@, "assistência"@, "pagamento"@, "boleto"@, "nota fiscal"@];
    assert(prefix[0] == "motoboy"@);
    assert(prefix[1] == "sedex"@);
    assert(prefix[2] == "correio"@);
    assert(prefix[3] == "lalamove"@);
    assert(prefix[4] == "uber"@);
    assert(prefix[5] == "99"@);
    assert(prefix[6] == "taxista"@);
    assert(prefix[7] == "entrega"@);
    assert(prefix[8] == "retirada"@);
    assert(prefix[9] == "reembolso"@);
    assert(prefix[10] == "bradesco saúde"@);
    assert(prefix[11] == "plano de saúde"@);
    assert(prefix[12] == "mercado"@);
    assert(prefix[13] == "farmácia"@);
    assert(prefix[14] == "presente"@);
    assert(prefix[15] == "shopper"@);
    assert(prefix[16] == "papelaria"@);
    assert(prefix[17] == "petshop"@);
    assert(prefix[18] == "ingresso"@);
    assert(prefix[19] == "troca"@);
    assert(prefix[20] == "internet"@);
    assert(prefix[21] == "telefone"@);
    assert(prefix[22] == "conserto"@);
    assert(prefix[23] == "assistência"@);
    assert(prefix[24] == "pagamento"@);
    assert(prefix[25] == "boleto"@);
    assert(prefix[26] == "nota fiscal"@);
    assert(rules[0].0 == seq!["motoboy"@]);
    assert(!any_keyword(t, rules[0].0));
    assert(rules[1].0 == seq!["sedex"@, "correio"@]);
    assert(!any_keyword(t, rules[1].0));
    assert(rules[2].0 == seq!["lalamove"@]);
    assert(!any_keyword(t, rules[2].0));
    assert(rules[3].0 == seq!["uber"@, "99"@]);
    assert(!any_keyword(t, rules[3].0));
    assert(rules[4].0 == seq!["taxista"@]);
    assert(!any_keyword(t, rules[4].0));
    assert(rules[5].0 == seq!["entrega"@, "retirada"@]);
    assert(!any_keyword(t, rules[5].0));
    assert(rules[6].0 == seq!["reembolso"@, "bradesco saúde"@, "plano de saúde"@]);
    assert(!any_keyword(t, rules[6].0));
    assert(rules[7].0 == seq!["mercado"@]);
    assert(!any_keyword(t, rules[7].0));
    assert(rules[8].0 == seq!["farmácia"@]);
    assert(!any_keyword(t, rules[8].0));
    assert(rules[9].0 == seq!["presente"@]);
    assert(!any_keyword(t, rules[9].0));
    assert(rules[10].0 == seq!["shopper"@]);
    assert(!any_keyword(t, rules[10].0));
    assert(rules[11].0 == seq!["papelaria"@]);
    assert(!any_keyword(t, rules[11].0));
    assert(rules[12].0 == seq!["petshop"@]);
    assert(!any_keyword(t, rules[12].0));
    assert(rules[13].0 == seq!["ingresso"@]);
    assert(!any_keyword(t, rules[13].0));
    assert(rules[14].0 == seq!["troca"@]);
    assert(!any_keyword(t, rules[14].0));
    assert(rules[15].0 == seq!["internet"@]);
    assert(!any_keyword(t, rules[15].0));
    assert(rules[16].0 == seq!["telefone"@]);
    assert(!any_keyword(t, rules[16].0));
    assert(rules[17].0 == seq!["conserto"@]);
    assert(!any_keyword(t, rules[17].0));
    assert(rules[18].0 == seq!["assistência"@]);
    assert(!any_keyword(t, rules[18].0));
    assert(rules[19].0 == seq!["pagamento"@]);
    assert(!any_keyword(t, rules[19].0));
    assert(rules[20].0 == seq!["boleto"@]);
    assert(!any_keyword(t, rules[20].0));
    assert(rules[21].0 == seq!["nota fiscal"@]);
    assert(!any_keyword(t, rules[21].0));
    assert forall|j: int| 0 <= j < 22 implies !any_keyword(t, #[trigger] rules[j].0) by {
        if j == 0 {  } else if j == 1 {  } else if j == 2 {  } else if j == 3 {  } else if j == 4 {  } else if j == 5 {  } else if j == 6 {  } else if j == 7 {  } else if j == 8 {  } else if j == 9 {  } else if j == 10 {  } else if j == 11 {  } else if j == 12 {  } else if j == 13 {  } else if j == 14 {  } else if j == 15 {  } else if j == 16 {  } else if j == 17 {  } else if j == 18 {  } else if j == 19 {  } else if j == 20 {  } else if j == 21 {  }
    }
    assert(rules[22] == (seq!["passagem"@], "Viagens"@, "Passagens Aéreas"@));
    assert(any_keyword(t, rules[22].0)) by {
        if contains(t, "passagem"@) { assert(rules[22].0[0] == "passagem"@); }
    }
    lemma_first_rule_at(t, rules, 22);
    let table = spec_star_table();
    reveal_strlit("Passagens Aéreas");
    assert(table[0].0 == "Consultas"@);
    reveal_strlit("Consultas");
    assert(table[1].0 == "Exames"@);
    reveal_strlit("Exames");
    assert(table[2].0 == "Veterinário/Petshop (Consultas/Exames/Banhos/Tosas)"@);
    reveal_strlit("Veterinário/Petshop (Consultas/Exames/Banhos/Tosas)");
    assert(table[3].0 == "Vacinas"@);
    reveal_strlit("Vacinas");
    assert(table[4].0 == "Manicure"@);
    reveal_strlit("Manicure");
    assert(table[5].0 == "Cabeleleiro"@);
    reveal_strlit("Cabeleleiro");
    assert(table[6].0 == "Shopper"@);
    reveal_strlit("Shopper");
    assert(table[7].0 == "Mercados"@);
    reveal_strlit("Mercados");
    assert(table[8].0 == "Presentes"@);
    reveal_strlit("Presentes");
    assert(table[9].0 == "Petshop"@);
    reveal_strlit("Petshop");
    assert(table[10].0 == "Papelaria"@);
    reveal_strlit("Papelaria");
    assert(table[11].0 == "Farmácia"@);
    reveal_strlit("Farmácia");
    assert(table[12].0 == "Ingressos"@);
    reveal_strlit("Ingressos");
    assert(table[13].0 == "Móveis e Eletros"@);
    reveal_strlit("Móveis e Eletros");
    assert("Móveis e Eletros"@[0] != "Passagens Aéreas"@[0]);
    assert(table[14].0 == "Itens pessoais e da casa"@);
    reveal_strlit("Itens pessoais e da casa");
    assert(table[15].0 == "CIN"@);
    reveal_strlit("CIN");
    assert(table[16].0 == "Certificado Digital"@);
    reveal_strlit("Certificado Digital");
    assert(table[17].0 == "Documento de Vacinação (BR/Iternacional)"@);
    reveal_strlit("Documento de Vacinação (BR/Iternacional)");
    assert(table[18].0 == "Seguros Carro/Casa/Viagem (anual)"@);
    reveal_strlit("Seguros Carro/Casa/Viagem (anual)");
    assert(table[19].0 == "Assinatura Digital"@);
    reveal_strlit("Assinatura Digital");
    assert(table[20].0 == "Contratos/Procurações"@);
    reveal_strlit("Contratos/Procurações");
    assert(table[21].0 == "Cidadanias"@);
    reveal_strlit("Cidadanias");
    assert(table[22].0 == "Vistos e Vistos Eletrônicos"@);
    reveal_strlit("Vistos e Vistos Eletrônicos");
    assert(table[23].0 == "Passaporte"@);
    reveal_strlit("Passaporte");
    assert(table[24].0 == "CNH"@);
    reveal_strlit("CNH");
    assert(table[25].0 == "Averbações"@);
    reveal_strlit("Averbações");
    assert(table[26].0 == "Certidões"@);
    reveal_strlit("Certidões");
    assert(table[27].0 == "Reserva de restaurantes/bares"@);
    reveal_strlit("Reserva de restaurantes/bares");
    assert(table[28].0 == "Planejamento de festas"@);
    reveal_strlit("Planejamento de festas");
    assert(table[29].0 == "Pesquisa de passeios/eventos (BR)"@);
    reveal_strlit("Pesquisa de passeios/eventos (BR)");
    assert(table[30].0 == "Fornecedores no exterior (passeios, fotógrafos)"@);
    reveal_strlit("Fornecedores no exterior (passeios, fotógrafos)");
    assert(table[31].0 == "Corrida de motoboy"@);
    reveal_strlit("Corrida de motoboy");
    assert(table[32].0 == "Motoboy + Correios e envios internacionais"@);
    reveal_strlit("Motoboy + Correios e envios internacionais");
    assert(table[33].0 == "Lalamove"@);
    reveal_strlit("Lalamove");
    assert(table[34].0 == "Corridas com Taxistas"@);
    reveal_strlit("Corridas com Taxistas");
    assert(table[35].0 == "Transporte Urbano (Uber/99)"@);
    reveal_strlit("Transporte Urbano (Uber/99)");
    assert(table[36] == ("Passagens Aéreas"@, 2u8));
    assert forall|j: int| 0 <= j < 36 implies (#[trigger] table[j]).0 != "Passagens Aéreas"@ by {
        if j == 0 {  } else if j == 1 {  } else if j == 2 {  } else if j == 3 {  } else if j == 4 {  } else if j == 5 {  } else if j == 6 {  } else if j == 7 {  } else if j == 8 {  } else if j == 9 {  } else if j == 10 {  } else if j == 11 {  } else if j == 12 {  } else if j == 13 {  } else if j == 14 {  } else if j == 15 {  } else if j == 16 {  } else if j == 17 {  } else if j == 18 {  } else if j == 19 {  } else if j == 20 {  } else if j == 21 {  } else if j == 22 {  } else if j == 23 {  } else if j == 24 {  } else if j == 25 {  } else if j == 26 {  } else if j == 27 {  } else if j == 28 {  } else if j == 29 {  } else if j == 30 {  } else if j == 31 {  } else if j == 32 {  } else if j == 33 {  } else if j == 34 {  } else if j == 35 {  }
    }
    lemma_star_at(table, "Passagens Aéreas"@, 36);
}

#[verifier::spinoff_prover]
/// A text that contains any of "hospedagem", "hotel", and no keyword of an earlier rule, is categorised as "Viagens" / "Hospedagens" with 2 stars.
pub proof fn law_keyword_hospedagem(t: Seq<char>)
    requires
        contains(t, "hospedagem"@) || contains(t, "hotel"@),
        none_of(t, seq!["motoboy"@, "sedex"@, "correio"@, "lalamove"@, "uber"@, "99"@, "taxista"@, "entrega"@, "retirada"@, "reembolso"@, "bradesco saúde"@, "plano de saúde"@, "mercado"@, "farmácia"@, "presente"@, "shopper"@, "papelaria"@, "petshop"@, "ingresso"@, "troca"@, "internet"@, "telefone"@, "conserto"@, "assistência"@, "pagamento"@, "boleto"@, "nota fiscal"@, "passagem"@]),
    ensures
        categorize_lowered_spec(t) == Some(("Viagens"@, "Hospedagens"@, 2u8)),
{
    let rules = spec_rules();
    let prefix = seq!["motoboy"@, "sedex"@, "correio"@, "lalamove"@, "uber"@, "99"@, "taxista"@, "entrega"@, "retirada"@, "reembolso"@, "bradesco saúde"@, "plano de saúde"@, "mercado"@, "farmácia"@, "presente"@, "shopper"@, "papelaria"@, "petshop"@, "ingresso"@, "troca"@, "internet"@, "telefone"@, "conserto"@, "assistência"@, "pagamento"@, "boleto"@, "nota fiscal"@, "passagem"@];
    assert(prefix[0] == "motoboy"@);
    assert(prefix[1] == "sedex"@);
    assert(prefix[2] == "correio"@);
    assert(prefix[3] == "lalamove"@);
    assert(prefix[4] == "uber"@);
    assert(prefix[5] == "99"@);
    assert(prefix[6] == "taxista"@);
    assert(prefix[7] == "entrega"@);
    assert(prefix[8] == "retirada"@);
    assert(prefix[9] == "reembolso"@);
    assert(prefix[10] == "bradesco saúde"@);
    assert(prefix[11] == "plano de saúde"@);
    assert(prefix[12] == "mercado"@);
    assert(prefix[13] == "farmácia"@);
    assert(prefix[14] == "presente"@);
    assert(prefix[15] == "shopper"@);
    assert(prefix[16] == "papelaria"@);
    assert(prefix[17] == "petshop"@);
    assert(prefix[18] == "ingresso"@);
    assert(prefix[19] == "troca"@);
    assert(prefix[20] == "internet"@);
    assert(prefix[21] == "telefone"@);
    assert(prefix[22] == "conserto"@);
    assert(prefix[23] == "assistência"@);
    assert(prefix[24] == "pagamento"@);
    assert(prefix[25] == "boleto"@);
    assert(prefix[26] == "nota fiscal"@);
    assert(prefix[27] == "passagem"@);
    assert(rules[0].0 == seq!["motoboy"@]);
    assert(!any_keyword(t, rules[0].0));
    assert(rules[1].0 == seq!["sedex"@, "correio"@]);
    assert(!any_keyword(t, rules[1].0));
    assert(rules[2].0 == seq!["lalamove"@]);
    assert(!any_keyword(t, rules[2].0));
    assert(rules[3].0 == seq!["uber"@, "99"@]);
    assert(!any_keyword(t, rules[3].0));
    assert(rules[4].0 == seq!["taxista"@]);
    assert(!any_keyword(t, rules[4].0));
    assert(rules[5].0 == seq!["entrega"@, "retirada"@]);
    assert(!any_keyword(t, rules[5].0));
    assert(rules[6].0 == seq!["reembolso"@, "bradesco saúde"@, "plano de saúde"@]);
    assert(!any_keyword(t, rules[6].0));
    assert(rules[7].0 == seq!["mercado"@]);
    assert(!any_keyword(t, rules[7].0));
    assert(rules[8].0 == seq!["farmácia"@]);
    assert(!any_keyword(t, rules[8].0));
    assert(rules[9].0 == seq!["presente"@]);
    assert(!any_keyword(t, rules[9].0));
    assert(rules[10].0 == seq!["shopper"@]);
    assert(!any_keyword(t, rules[10].0));
    assert(rules[11].0 == seq!["papelaria"@]);
    assert(!any_keyword(t, rules[11].0));
    assert(rules[12].0 == seq!["petshop"@]);
    assert(!any_keyword(t, rules[12].0));
    assert(rules[13].0 == seq!["ingresso"@]);
    assert(!any_keyword(t, rules[13].0));
    assert(rules[14].0 == seq!["troca"@]);
    assert(!any_keyword(t, rules[14].0));
    assert(rules[15].0 == seq!["internet"@]);
    assert(!any_keyword(t, rules[15].0));
    assert(rules[16].0 == seq!["telefone"@]);
    assert(!any_keyword(t, rules[16].0));
    assert(rules[17].0 == seq!["conserto"@]);
    assert(!any_keyword(t, rules[17].0));
    assert(rules[18].0 == seq!["assistência"@]);
    assert(!any_keyword(t, rules[18].0));
    assert(rules[19].0 == seq!["pagamento"@]);
    assert(!any_keyword(t, rules[19].0));
    assert(rules[20].0 == seq!["boleto"@]);
    assert(!any_keyword(t, rules[20].0));
    assert(rules[21].0 == seq!["nota fiscal"@]);
    assert(!any_keyword(t, rules[21].0));
    assert(rules[22].0 == seq!["passagem"@]);
    assert(!any_keyword(t, rules[22].0));
    assert forall|j: int| 0 <= j < 23 implies !any_keyword(t, #[trigger] rules[j].0) by {
        if j == 0 {  } else if j == 1 {  } else if j == 2 {  } else if j == 3 {  } else if j == 4 {  } else if j == 5 {  } else if j == 6 {  } else if j == 7 {  } else if j == 8 {  } else if j == 9 {  } else if j == 10 {  } else if j == 11 {  } else if j == 12 {  } else if j == 13 {  } else if j == 14 {  } else if j == 15 {  } else if j == 16 {  } else if j == 17 {  } else if j == 18 {  } else if j == 19 {  } else if j == 20 {  } else if j == 21 {  } else if j == 22 {  }
    }
    assert(rules[23] == (seq!["hospedagem"@, "hotel"@], "Viagens"@, "Hospedagens"@));
    assert(any_keyword(t, rules[23].0)) by {
        if contains(t, "hospedagem"@) { assert(rules[23].0[0] == "hospedagem"@); }
        if contains(t, "hotel"@) { assert(rules[23].0[1] == "hotel"@); }
    }
    lemma_first_rule_at(t, rules, 23);
    let table = spec_star_table();
    reveal_strlit("Hospedagens");
    assert(table[0].0 == "Consultas"@);
    reveal_strlit("Consultas");
    assert(table[1].0 == "Exames"@);
    reveal_strlit("Exames");
    assert(table[2].0 == "Veterinário/Petshop (Consultas/Exames/Banhos/Tosas)"@);
    reveal_strlit("Veterinário/Petshop (Consultas/Exames/Banhos/Tosas)");
    assert(table[3].0 == "Vacinas"@);
    reveal_strlit("Vacinas");
    assert(table[4].0 == "Manicure"@);
    reveal_strlit("Manicure");
    assert(table[5].0 == "Cabeleleiro"@);
    reveal_strlit("Cabeleleiro");
    assert("Cabeleleiro"@[0] != "Hospedagens"@[0]);
    assert(table[6].0 == "Shopper"@);
    reveal_strlit("Shopper");
    assert(table[7].0 == "Mercados"@);
    reveal_strlit("Mercados");
    assert(table[8].0 == "Presentes"@);
    reveal_strlit("Presentes");
    assert(table[9].0 == "Petshop"@);
    reveal_strlit("Petshop");
    assert(table[10].0 == "Papelaria"@);
    reveal_strlit("Papelaria");
    assert(table[11].0 == "Farmácia"@);
    reveal_strlit("Farmácia");
    assert(table[12].0 == "Ingressos"@);
    reveal_strlit("Ingressos");
    assert(table[13].0 == "Móveis e Eletros"@);
    reveal_strlit("Móveis e Eletros");
    assert(table[14].0 == "Itens pessoais e da casa"@);
    reveal_strlit("Itens pessoais e da casa");
    assert(table[15].0 == "CIN"@);
    reveal_strlit("CIN");
    assert(table[16].0 == "Certificado Digital"@);
    reveal_strlit("Certificado Digital");
    assert(table[17].0 == "Documento de Vacinação (BR/Iternacional)"@);
    reveal_strlit("Documento de Vacinação (BR/Iternacional)");
    assert(table[18].0 == "Seguros Carro/Casa/Viagem (anual)"@);
    reveal_strlit("Seguros Carro/Casa/Viagem (anual)");
    assert(table[19].0 == "Assinatura Digital"@);
    reveal_strlit("Assinatura Digital");
    assert(table[20].0 == "Contratos/Procurações"@);
    reveal_strlit("Contratos/Procurações");
    assert(table[21].0 == "Cidadanias"@);
    reveal_strlit("Cidadanias");
    assert(table[22].0 == "Vistos e Vistos Eletrônicos"@);
    reveal_strlit("Vistos e Vistos Eletrônicos");
    assert(table[23].0 == "Passaporte"@);
    reveal_strlit("Passaporte");
    assert(table[24].0 == "CNH"@);
    reveal_strlit("CNH");
    assert(table[25].0 == "Averbações"@);
    reveal_strlit("Averbações");
    assert(table[26].0 == "Certidões"@);
    reveal_strlit("Certidões");
    assert(table[27].0 == "Reserva de restaurantes/bares"@);
    reveal_strlit("Reserva de restaurantes/bares");
    assert(table[28].0 == "Planejamento de festas"@);
    reveal_strlit("Planejamento de festas");
    assert(table[29].0 == "Pesquisa de passeios/eventos (BR)"@);
    reveal_strlit("Pesquisa de passeios/eventos (BR)");
    assert(table[30].0 == "Fornecedores no exterior (passeios, fotógrafos)"@);
    reveal_strlit("Fornecedores no exterior (passeios, fotógrafos)");
    assert(table[31].0 == "Corrida de motoboy"@);
    reveal_strlit("Corrida de motoboy");
    assert(table[32].0 == "Motoboy + Correios e envios internacionais"@);
    reveal_strlit("Motoboy + Correios e envios internacionais");
    assert(table[33].0 == "Lalamove"@);
    reveal_strlit("Lalamove");
    assert(table[34].0 == "Corridas com Taxistas"@);
    reveal_strlit("Corridas com Taxistas");
    assert(table[35].0 == "Transporte Urbano (Uber/99)"@);
    reveal_strlit("Transporte Urbano (Uber/99)");
    assert(table[36].0 == "Passagens Aéreas"@);
    reveal_strlit("Passagens Aéreas");
    assert(table[37] == ("Hospedagens"@, 2u8));
    assert forall|j: int| 0 <= j < 37 implies (#[trigger] table[j]).0 != "Hospedagens"@ by {
        if j == 0 {  } else if j == 1 {  } else if j == 2 {  } else if j == 3 {  } else if j == 4 {  } else if j == 5 {  } else if j == 6 {  } else if j == 7 {  } else if j == 8 {  } else if j == 9 {  } else if j == 10 {  } else if j == 11 {  } else if j == 12 {  } else if j == 13 {  } else if j == 14 {  } else if j == 15 {  } else if j == 16 {  } else if j == 17 {  } else if j == 18 {  } else if j == 19 {  } else if j == 20 {  } else if j == 21 {  } else if j == 22 {  } else if j == 23 {  } else if j == 24 {  } else if j == 25 {  } else if j == 26 {  } else if j == 27 {  } else if j == 28 {  } else if j == 29 {  } else if j == 30 {  } else if j == 31 {  } else if j == 32 {  } else if j == 33 {  } else if j == 34 {  } else if j == 35 {  } else if j == 36 {  }
    }
    lemma_star_at(table, "Hospedagens"@, 37);
}

#[verifier::spinoff_prover]
/// A text that contains "check in", and no keyword of an earlier rule, is categorised as "Viagens" / "Checkins (Early/Late)" with 1 star.
pub proof fn law_keyword_check_in(t: Seq<char>)
    requires
        contains(t, "check in"@),
        none_of(t, seq!["motoboy"@, "sedex"@, "correio"@, "lalamove"@, "uber"@, "99"@, "taxista"@, "entrega"@, "retirada"@, "reembolso"@, "bradesco saúde"@, "plano de saúde"@, "mercado"@, "farmácia"@, "presente"@, "shopper"@, "papelaria"@, "petshop"@, "ingresso"@, "troca"@, "internet"@, "telefone"@, "conserto"@, "assistência"@, "pagamento"@, "boleto"@, "nota fiscal"@, "passagem"@, "hospedagem"@, "hotel"@]),
    ensures
        categorize_lowered_spec(t) == Some(("Viagens"@, "Checkins (Early/Late)"@, 1u8)),
{
    let rules = spec_rules();
    let prefix = seq!["motoboy"@, "sedex"@, "correio"@, "lalamove"@, "uber"@, "99"@, "taxista"@, "entrega"@, "retirada"@, "reembolso"@, "bradesco saúde"@, "plano de saúde"@, "mercado"@, "farmácia"@, "presente"@, "shopper"@, "papelaria"@, "petshop"@, "ingresso"@, "troca"@, "internet"@, "telefone"@, "conserto"@, "assistência"@, "pagamento"@, "boleto"@, "nota fiscal"@, "passagem"@, "hospedagem"@, "hotel"@];
    assert(prefix[0] == "motoboy"@);
    assert(prefix[1] == "sedex"@);
    assert(prefix[2] == "correio"@);
    assert(prefix[3] == "lalamove"@);
    assert(prefix[4] == "uber"@);
    assert(prefix[5] == "99"@);
    assert(prefix[6] == "taxista"@);
    assert(prefix[7] == "entrega"@);
    assert(prefix[8] == "retirada"@);
    assert(prefix[9] == "reembolso"@);
    assert(prefix[10] == "bradesco saúde"@);
    assert(prefix[11] == "plano de saúde"@);
    assert(prefix[12] == "mercado"@);
    assert(prefix[13] == "farmácia"@);
    assert(prefix[14] == "presente"@);
    assert(prefix[15] == "shopper"@);
    assert(prefix[16] == "papelaria"@);
    assert(prefix[17] == "petshop"@);
    assert(prefix[18] == "ingresso"@);
    assert(prefix[19] == "troca"@);
    assert(prefix[20] == "internet"@);
    assert(prefix[21] == "telefone"@);
    assert(prefix[22] == "conserto"@);
    assert(prefix[23] == "assistência"@);
    assert(prefix[24] == "pagamento"@);
    assert(prefix[25] == "boleto"@);
    assert(prefix[26] == "nota fiscal"@);
    assert(prefix[27] == "passagem"@);
    assert(prefix[28] == "hospedagem"@);
    assert(prefix[29] == "hotel"@);
    assert(rules[0].0 == seq!["motoboy"@]);
    assert(!any_keyword(t, rules[0].0));
    assert(rules[1].0 == seq!["sedex"@, "correio"@]);
    assert(!any_keyword(t, rules[1].0));
    assert(rules[2].0 == seq!["lalamove"@]);
    assert(!any_keyword(t, rules[2].0));
    assert(rules[3].0 == seq!["uber"@, "99"@]);
    assert(!any_keyword(t, rules[3].0));
    assert(rules[4].0 == seq!["taxista"@]);
    assert(!any_keyword(t, rules[4].0));
    assert(rules[5].0 == seq!["entrega"@, "retirada"@]);
    assert(!any_keyword(t, rules[5].0));
    assert(rules[6].0 == seq!["reembolso"@, "bradesco saúde"@, "plano de saúde"@]);
    assert(!any_keyword(t, rules[6].0));
    assert(rules[7].0 == seq!["mercado"@]);
    assert(!any_keyword(t, rules[7].0));
    assert(rules[8].0 == seq!["farmácia"@]);
    assert(!any_keyword(t, rules[8].0));
    assert(rules[9].0 == seq!["presente"@]);
    assert(!any_keyword(t, rules[9].0));
    assert(rules[10].0 == seq!["shopper"@]);
    assert(!any_keyword(t, rules[10].0));
    assert(rules[11].0 == seq!["papelaria"@]);
    assert(!any_keyword(t, rules[11].0));
    assert(rules[12].0 == seq!["petshop"@]);
    assert(!any_keyword(t, rules[12].0));
    assert(rules[13].0 == seq!["ingresso"@]);
    assert(!any_keyword(t, rules[13].0));
    assert(rules[14].0 == seq!["troca"@]);
    assert(!any_keyword(t, rules[14].0));
    assert(rules[15].0 == seq!["internet"@]);
    assert(!any_keyword(t, rules[15].0));
    assert(rules[16].0 == seq!["telefone"@]);
    assert(!any_keyword(t, rules[16].0));
    assert(rules[17].0 == seq!["conserto"@]);
    assert(!any_keyword(t, rules[17].0));
    assert(rules[18].0 == seq!["assistência"@]);
    assert(!any_keyword(t, rules[18].0));
    assert(rules[19].0 == seq!["pagamento"@]);
    assert(!any_keyword(t, rules[19].0));
    assert(rules[20].0 == seq!["boleto"@]);
    assert(!any_keyword(t, rules[20].0));
    assert(rules[21].0 == seq!["nota fiscal"@]);
    assert(!any_keyword(t, rules[21].0));
    assert(rules[22].0 == seq!["passagem"@]);
    assert(!any_keyword(t, rules[22].0));
    assert(rules[23].0 == seq!["hospedagem"@, "hotel"@]);
    assert(!any_keyword(t, rules[23].0));
    assert forall|j: int| 0 <= j < 24 implies !any_keyword(t, #[trigger] rules[j].0) by {
        if j == 0 {  } else if j == 1 {  } else if j == 2 {  } else if j == 3 {  } else if j == 4 {  } else if j == 5 {  } else if j == 6 {  } else if j == 7 {  } else if j == 8 {  } else if j == 9 {  } else if j == 10 {  } else if j == 11 {  } else if j == 12 {  } else if j == 13 {  } else if j == 14 {  } else if j == 15 {  } else if j == 16 {  } else if j == 17 {  } else if j == 18 {  } else if j == 19 {  } else if j == 20 {  } else if j == 21 {  } else if j == 22 {  } else if j == 23 {  }
    }
    assert(rules[24] == (seq!["check in"@], "Viagens"@, "Checkins (Early/Late)"@));
    assert(any_keyword(t, rules[24].0)) by {
        if contains(t, "check in"@) { assert(rules[24].0[0] == "check in"@); }
    }
    lemma_first_rule_at(t, rules, 24);
    let table = spec_star_table();
    reveal_strlit("Checkins (Early/Late)");
    assert(table[0].0 == "Consultas"@);
    reveal_strlit("Consultas");
    assert(table[1].0 == "Exames"@);
    reveal_strlit("Exames");
    assert(table[2].0 == "Veterinário/Petshop (Consultas/Exames/Banhos/Tosas)"@);
    reveal_strlit("Veterinário/Petshop (Consultas/Exames/Banhos/Tosas)");
    assert(table[3].0 == "Vacinas"@);
    reveal_strlit("Vacinas");
    assert(table[4].0 == "Manicure"@);
    reveal_strlit("Manicure");
    assert(table[5].0 == "Cabeleleiro"@);
    reveal_strlit("Cabeleleiro");
    assert(table[6].0 == "Shopper"@);
    reveal_strlit("Shopper");
    assert(table[7].0 == "Mercados"@);
    reveal_strlit("Mercados");
    assert(table[8].0 == "Presentes"@);
    reveal_strlit("Presentes");
    assert(table[9].0 == "Petshop"@);
    reveal_strlit("Petshop");
    assert(table[10].0 == "Papelaria"@);
    reveal_strlit("Papelaria");
    assert(table[11].0 == "Farmácia"@);
    reveal_strlit("Farmácia");
    assert(table[12].0 == "Ingressos"@);
    reveal_strlit("Ingressos");
    assert(table[13].0 == "Móveis e Eletros"@);
    reveal_strlit("Móveis e Eletros");
    assert(table[14].0 == "Itens pessoais e da casa"@);
    reveal_strlit("Itens pessoais e da casa");
    assert(table[15].0 == "CIN"@);
    reveal_strlit("CIN");
    assert(table[16].0 == "Certificado Digital"@);
    reveal_strlit("Certificado Digital");
    assert(table[17].0 == "Documento de Vacinação (BR/Iternacional)"@);
    reveal_strlit("Documento de Vacinação (BR/Iternacional)");
    assert(table[18].0 == "Seguros Carro/Casa/Viagem (anual)"@);
    reveal_strlit("Seguros Carro/Casa/Viagem (anual)");
    assert(table[19].0 == "Assinatura Digital"@);
    reveal_strlit("Assinatura Digital");
    assert(table[20].0 == "Contratos/Procurações"@);
    reveal_strlit("Contratos/Procurações");
    assert("Contratos/Procurações"@[1] != "Checkins (Early/Late)"@[1]);
    assert(table[21].0 == "Cidadanias"@);
    reveal_strlit("Cidadanias");
    assert(table[22].0 == "Vistos e Vistos Eletrônicos"@);
    reveal_strlit("Vistos e Vistos Eletrônicos");
    assert(table[23].0 == "Passaporte"@);
    reveal_strlit("Passaporte");
    assert(table[24].0 == "CNH"@);
    reveal_strlit("CNH");
    assert(table[25].0 == "Averbações"@);
    reveal_strlit("Averbações");
    assert(table[26].0 == "Certidões"@);
    reveal_strlit("Certidões");
    assert(table[27].0 == "Reserva de restaurantes/bares"@);
    reveal_strlit("Reserva de restaurantes/bares");
    assert(table[28].0 == "Planejamento de festas"@);
    reveal_strlit("Planejamento de festas");
    assert(table[29].0 == "Pesquisa de passeios/eventos (BR)"@);
    reveal_strlit("Pesquisa de passeios/eventos (BR)");
    assert(table[30].0 == "Fornecedores no exterior (passeios, fotógrafos)"@);
    reveal_strlit("Fornecedores no exterior (passeios, fotógrafos)");
    assert(table[31].0 == "Corrida de motoboy"@);
    reveal_strlit("Corrida de motoboy");
    assert(table[32].0 == "Motoboy + Correios e envios internacionais"@);
    reveal_strlit("Motoboy + Correios e envios internacionais");
    assert(table[33].0 == "Lalamove"@);
    reveal_strlit("Lalamove");
    assert(table[34].0 == "Corridas com Taxistas"@);
    reveal_strlit("Corridas com Taxistas");
    assert("Corridas com Taxistas"@[1] != "Checkins (Early/Late)"@[1]);
    assert(table[35].0 == "Transporte Urbano (Uber/99)"@);
    reveal_strlit("Transporte Urbano (Uber/99)");
    assert(table[36].0 == "Passagens Aéreas"@);
    reveal_strlit("Passagens Aéreas");
    assert(table[37].0 == "Hospedagens"@);
    reveal_strlit("Hospedagens");
    assert(table[38].0 == "Compra de Assentos e Bagagens"@);
    reveal_strlit("Compra de Assentos e Bagagens");
    assert(table[39].0 == "Passagens de Ônibus"@);
    reveal_strlit("Passagens de Ônibus");
    assert(table[40].0 == "Passagens de Trem"@);
    reveal_strlit("Passagens de Trem");
    assert(table[41] == ("Checkins (Early/Late)"@, 1u8));
    assert forall|j: int| 0 <= j < 41 implies (#[trigger] table[j]).0 != "Checkins (Early/Late)"@ by {
        if j == 0 {  } else if j == 1 {  } else if j == 2 {  } else if j == 3 {  } else if j == 4 {  } else if j == 5 {  } else if j == 6 {  } else if j == 7 {  } else if j == 8 {  } else if j == 9 {  } else if j == 10 {  } else if j == 11 {  } else if j == 12 {  } else if j == 13 {  } else if j == 14 {  } else if j == 15 {  } else if j == 16 {  } else if j == 17 {  } else if j == 18 {  } else if j == 19 {  } else if j == 20 {  } else if j == 21 {  } else if j == 22 {  } else if j == 23 {  } else if j == 24 {  } else if j == 25 {  } else if j == 26 {  } else if j == 27 {  } else if j == 28 {  } else if j == 29 {  } else if j == 30 {  } else if j == 31 {  } else if j == 32 {  } else if j == 33 {  } else if j == 34 {  } else if j == 35 {  } else if j == 36 {  } else if j == 37 {  } else if j == 38 {  } else if j == 39 {  } else if j == 40 {  }
    }
    lemma_star_at(table, "Checkins (Early/Late)"@, 41);
}

#[verifier::spinoff_prover]
/// A text that contains "bagagem", and no keyword of an earlier rule, is categorised as "Viagens" / "Extravio de Bagagens" with 2 stars.
pub proof fn law_keyword_bagagem(t: Seq<char>)
    requires
        contains(t, "bagagem"@),
        none_of(t, seq!["motoboy"@, "sedex"@, "correio"@, "lalamove"@, "uber"@, "99"@, "taxista"@, "entrega"@, "retirada"@, "reembolso"@, "bradesco saúde"@, "plano de saúde"@, "mercado"@, "farmácia"@, "presente"@, "shopper"@, "papelaria"@, "petshop"@, "ingresso"@, "troca"@, "internet"@, "telefone"@, "conserto"@, "assistência"@, "pagamento"@, "boleto"@, "nota fiscal"@, "passagem"@, "hospedagem"@, "hotel"@, "check in"@]),
    ensures
        categorize_lowered_spec(t) == Some(("Viagens"@, "Extravio de Bagagens"@, 2u8)),
{
    let rules = spec_rules();
    let prefix = seq!["motoboy"@, "sedex"@, "correio"@, "lalamove"@, "uber"@, "99"@, "taxista"@, "entrega"@, "retirada"@, "reembolso"@, "bradesco saúde"@, "plano de saúde"@, "mercado"@, "farmácia"@, "presente"@, "shopper"@, "papelaria"@, "petshop"@, "ingresso"@, "troca"@, "internet"@, "telefone"@, "conserto"@, "assistência"@, "pagamento"@, "boleto"@, "nota fiscal"@, "passagem"@, "hospedagem"@, "hotel"@, "check in"@];
    assert(prefix[0] == "motoboy"@);
    assert(prefix[1] == "sedex"@);
    assert(prefix[2] == "correio"@);
    assert(prefix[3] == "lalamove"@);
    assert(prefix[4] == "uber"@);
    assert(prefix[5] == "99"@);
    assert(prefix[6] == "taxista"@);
    assert(prefix[7] == "entrega"@);
    assert(prefix[8] == "retirada"@);
    assert(prefix[9] == "reembolso"@);
    assert(prefix[10] == "bradesco saúde"@);
    assert(prefix[11] == "plano de saúde"@);
    assert(prefix[12] == "mercado"@);
    assert(prefix[13] == "farmácia"@);
    assert(prefix[14] == "presente"@);
    assert(prefix[15] == "shopper"@);
    assert(prefix[16] == "papelaria"@);
    assert(prefix[17] == "petshop"@);
    assert(prefix[18] == "ingresso"@);
    assert(prefix[19] == "troca"@);
    assert(prefix[20] == "internet"@);
    assert(prefix[21] == "telefone"@);
    assert(prefix[22] == "conserto"@);
    assert(prefix[23] == "assistência"@);
    assert(prefix[24] == "pagamento"@);
    assert(prefix[25] == "boleto"@);
    assert(prefix[26] == "nota fiscal"@);
    assert(prefix[27] == "passagem"@);
    assert(prefix[28] == "hospedagem"@);
    assert(prefix[29] == "hotel"@);
    assert(prefix[30] == "check in"@);
    assert(rules[0].0 == seq!["motoboy"@]);
    assert(!any_keyword(t, rules[0].0));
    assert(rules[1].0 == seq!["sedex"@, "correio"@]);
    assert(!any_keyword(t, rules[1].0));
    assert(rules[2].0 == seq!["lalamove"@]);
    assert(!any_keyword(t, rules[2].0));
    assert(rules[3].0 == seq!["uber"@, "99"@]);
    assert(!any_keyword(t, rules[3].0));
    assert(rules[4].0 == seq!["taxista"@]);
    assert(!any_keyword(t, rules[4].0));
    assert(rules[5].0 == seq!["entrega"@, "retirada"@]);
    assert(!any_keyword(t, rules[5].0));
    assert(rules[6].0 == seq!["reembolso"@, "bradesco saúde"@, "plano de saúde"@]);
    assert(!any_keyword(t, rules[6].0));
    assert(rules[7].0 == seq!["mercado"@]);
    assert(!any_keyword(t, rules[7].0));
    assert(rules[8].0 == seq!["farmácia"@]);
    assert(!any_keyword(t, rules[8].0));
    assert(rules[9].0 == seq!["presente"@]);
    assert(!any_keyword(t, rules[9].0));
    assert(rules[10].0 == seq!["shopper"@]);
    assert(!any_keyword(t, rules[10].0));
    assert(rules[11].0 == seq!["papelaria"@]);
    assert(!any_keyword(t, rules[11].0));
    assert(rules[12].0 == seq!["petshop"@]);
    assert(!any_keyword(t, rules[12].0));
    assert(rules[13].0 == seq!["ingresso"@]);
    assert(!any_keyword(t, rules[13].0));
    assert(rules[14].0 == seq!["troca"@]);
    assert(!any_keyword(t, rules[14].0));
    assert(rules[15].0 == seq!["internet"@]);
    assert(!any_keyword(t, rules[15].0));
    assert(rules[16].0 == seq!["telefone"@]);
    assert(!any_keyword(t, rules[16].0));
    assert(rules[17].0 == seq!["conserto"@]);
    assert(!any_keyword(t, rules[17].0));
    assert(rules[18].0 == seq!["assistência"@]);
    assert(!any_keyword(t, rules[18].0));
    assert(rules[19].0 == seq!["pagamento"@]);
    assert(!any_keyword(t, rules[19].0));
    assert(rules[20].0 == seq!["boleto"@]);
    assert(!any_keyword(t, rules[20].0));
    assert(rules[21].0 == seq!["nota fiscal"@]);
    assert(!any_keyword(t, rules[21].0));
    assert(rules[22].0 == seq!["passagem"@]);
    assert(!any_keyword(t, rules[22].0));
    assert(rules[23].0 == seq!["hospedagem"@, "hotel"@]);
    assert(!any_keyword(t, rules[23].0));
    assert(rules[24].0 == seq!["check in"@]);
    assert(!any_keyword(t, rules[24].0));
    assert forall|j: int| 0 <= j < 25 implies !any_keyword(t, #[trigger] rules[j].0) by {
        if j == 0 {  } else if j == 1 {  } else if j == 2 {  } else if j == 3 {  } else if j == 4 {  } else if j == 5 {  } else if j == 6 {  } else if j == 7 {  } else if j == 8 {  } else if j == 9 {  } else if j == 10 {  } else if j == 11 {  } else if j == 12 {  } else if j == 13 {  } else if j == 14 {  } else if j == 15 {  } else if j == 16 {  } else if j == 17 {  } else if j == 18 {  } else if j == 19 {  } else if j == 20 {  } else if j == 21 {  } else if j == 22 {  } else if j == 23 {  } else if j == 24 {  }
    }
    assert(rules[25] == (seq!["bagagem"@], "Viagens"@, "Extravio de Bagagens"@));
    assert(any_keyword(t, rules[25].0)) by {
        if contains(t, "bagagem"@) { assert(rules[25].0[0] == "bagagem"@); }
    }
    lemma_first_rule_at(t, rules, 25);
    let table = spec_star_table();
    reveal_strlit("Extravio de Bagagens");
    assert(table[0].0 == "Consultas"@);
    reveal_strlit("Consultas");
    assert(table[1].0 == "Exames"@);
    reveal_strlit("Exames");
    assert(table[2].0 == "Veterinário/Petshop (Consultas/Exames/Banhos/Tosas)"@);
    reveal_strlit("Veterinário/Petshop (Consultas/Exames/Banhos/Tosas)");
    assert(table[3].0 == "Vacinas"@);
    reveal_strlit("Vacinas");
    assert(table[4].0 == "Manicure"@);
    reveal_strlit("Manicure");
    assert(table[5].0 == "Cabeleleiro"@);
    reveal_strlit("Cabeleleiro");
    assert(table[6].0 == "Shopper"@);
    reveal_strlit("Shopper");
    assert(table[7].0 == "Mercados"@);
    reveal_strlit("Mercados");
    assert(table[8].0 == "Presentes"@);
    reveal_strlit("Presentes");
    assert(table[9].0 == "Petshop"@);
    reveal_strlit("Petshop");
    assert(table[10].0 == "Papelaria"@);
    reveal_strlit("Papelaria");
    assert(table[11].0 == "Farmácia"@);
    reveal_strlit("Farmácia");
    assert(table[12].0 == "Ingressos"@);
    reveal_strlit("Ingressos");
    assert(table[13].0 == "Móveis e Eletros"@);
    reveal_strlit("Móveis e Eletros");
    assert(table[14].0 == "Itens pessoais e da casa"@);
    reveal_strlit("Itens pessoais e da casa");
    assert(table[15].0 == "CIN"@);
    reveal_strlit("CIN");
    assert(table[16].0 == "Certificado Digital"@);
    reveal_strlit("Certificado Digital");
    assert(table[17].0 == "Documento de Vacinação (BR/Iternacional)"@);
    reveal_strlit("Documento de Vacinação (BR/Iternacional)");
    assert(table[18].0 == "Seguros Carro/Casa/Viagem (anual)"@);
    reveal_strlit("Seguros Carro/Casa/Viagem (anual)");
    assert(table[19].0 == "Assinatura Digital"@);
    reveal_strlit("Assinatura Digital");
    assert(table[20].0 == "Contratos/Procurações"@);
    reveal_strlit("Contratos/Procurações");
    assert(table[21].0 == "Cidadanias"@);
    reveal_strlit("Cidadanias");
    assert(table[22].0 == "Vistos e Vistos Eletrônicos"@);
    reveal_strlit("Vistos e Vistos Eletrônicos");
    assert(table[23].0 == "Passaporte"@);
    reveal_strlit("Passaporte");
    assert(table[24].0 == "CNH"@);
    reveal_strlit("CNH");
    assert(table[25].0 == "Averbações"@);
    reveal_strlit("Averbações");
    assert(table[26].0 == "Certidões"@);
    reveal_strlit("Certidões");
    assert(table[27].0 == "Reserva de restaurantes/bares"@);
    reveal_strlit("Reserva de restaurantes/bares");
    assert(table[28].0 == "Planejamento de festas"@);
    reveal_strlit("Planejamento de festas");
    assert(table[29].0 == "Pesquisa de passeios/eventos (BR)"@);
    reveal_strlit("Pesquisa de passeios/eventos (BR)");
    assert(table[30].0 == "Fornecedores no exterior (passeios, fotógrafos)"@);
    reveal_strlit("Fornecedores no exterior (passeios, fotógrafos)");
    assert(table[31].0 == "Corrida de motoboy"@);
    reveal_strlit("Corrida de motoboy");
    assert(table[32].0 == "Motoboy + Correios e envios internacionais"@);
    reveal_strlit("Motoboy + Correios e envios internacionais");
    assert(table[33].0 == "Lalamove"@);
    reveal_strlit("Lalamove");
    assert(table[34].0 == "Corridas com Taxistas"@);
    reveal_strlit("Corridas com Taxistas");
    assert(table[35].0 == "Transporte Urbano (Uber/99)"@);
    reveal_strlit("Transporte Urbano (Uber/99)");
    assert(table[36].0 == "Passagens Aéreas"@);
    reveal_strlit("Passagens Aéreas");
    assert(table[37].0 == "Hospedagens"@);
    reveal_strlit("Hospedagens");
    assert(table[38].0 == "Compra de Assentos e Bagagens"@);
    reveal_strlit("Compra de Assentos e Bagagens");
    assert(table[39].0 == "Passagens de Ônibus"@);
    reveal_strlit("Passagens de Ônibus");
    assert(table[40].0 == "Passagens de Trem"@);
    reveal_strlit("Passagens de Trem");
    assert(table[41].0 == "Checkins (Early/Late)"@);
    reveal_strlit("Checkins (Early/Late)");
    assert(table[42] == ("Extravio de Bagagens"@, 2u8));
    assert forall|j: int| 0 <= j < 42 implies (#[trigger] table[j]).0 != "Extravio de Bagagens"@ by {
        if j == 0 {  } else if j == 1 {  } else if j == 2 {  } else if j == 3 {  } else if j == 4 {  } else if j == 5 {  } else if j == 6 {  } else if j == 7 {  } else if j == 8 {  } else if j == 9 {  } else if j == 10 {  } else if j == 11 {  } else if j == 12 {  } else if j == 13 {  } else if j == 14 {  } else if j == 15 {  } else if j == 16 {  } else if j == 17 {  } else if j == 18 {  } else if j == 19 {  } else if j == 20 {  } else if j == 21 {  } else if j == 22 {  } else if j == 23 {  } else if j == 24 {  } else if j == 25 {  } else if j == 26 {  } else if j == 27 {  } else if j == 28 {  } else if j == 29 {  } else if j == 30 {  } else if j == 31 {  } else if j == 32 {  } else if j == 33 {  } else if j == 34 {  } else if j == 35 {  } else if j == 36 {  } else if j == 37 {  } else if j == 38 {  } else if j == 39 {  } else if j == 40 {  } else if j == 41 {  }
    }
    lemma_star_at(table, "Extravio de Bagagens"@, 42);
}

#[verifier::spinoff_prover]
/// A text that contains "consulta", and no keyword of an earlier rule, is categorised as "Agendamentos" / "Consultas" with 1 star.
pub proof fn law_keyword_consulta(t: Seq<char>)
    requires
        contains(t, "consulta"@),
        none_of(t, seq!["motoboy"@, "sedex"@, "correio"@, "lalamove"@, "uber"@, "99"@, "taxista"@, "entrega"@, "retirada"@, "reembolso"@, "bradesco saúde"@, "plano de saúde"@, "mercado"@, "farmácia"@, "presente"@, "shopper"@, "papelaria"@, "petshop"@, "ingresso"@, "troca"@, "internet"@, "telefone"@, "conserto"@, "assistência"@, "pagamento"@, "boleto"@, "nota fiscal"@, "passagem"@, "hospedagem"@, "hotel"@, "check in"@, "bagagem"@]),
    ensures
        categorize_lowered_spec(t) == Some(("Agendamentos"@, "Consultas"@, 1u8)),
{
    let rules = spec_rules();
    let prefix = seq!["motoboy"@, "sedex"@, "correio"@, "lalamove"@, "uber"@, "99"@, "taxista"@, "entrega"@, "retirada"@, "reembolso"@, "bradesco saúde"@, "plano de saúde"@, "mercado"@, "farmácia"@, "presente"@, "shopper"@, "papelaria"@, "petshop"@, "ingresso"@, "troca"@, "internet"@, "telefone"@, "conserto"@, "assistência"@, "pagamento"@, "boleto"@, "nota fiscal"@, "passagem"@, "hospedagem"@, "hotel"@, "check in"@, "bagagem"@];
    assert(prefix[0] == "motoboy"@);
    assert(prefix[1] == "sedex"@);
    assert(prefix[2] == "correio"@);
    assert(prefix[3] == "lalamove"@);
    assert(prefix[4] == "uber"@);
    assert(prefix[5] == "99"@);
    assert(prefix[6] == "taxista"@);
    assert(prefix[7] == "entrega"@);
    assert(prefix[8] == "retirada"@);
    assert(prefix[9] == "reembolso"@);
    assert(prefix[10] == "bradesco saúde"@);
    assert(prefix[11] == "plano de saúde"@);
    assert(prefix[12] == "mercado"@);
    assert(prefix[13] == "farmácia"@);
    assert(prefix[14] == "presente"@);
    assert(prefix[15] == "shopper"@);
    assert(prefix[16] == "papelaria"@);
    assert(prefix[17] == "petshop"@);
    assert(prefix[18] == "ingresso"@);
    assert(prefix[19] == "troca"@);
    assert(prefix[20] == "internet"@);
    assert(prefix[21] == "telefone"@);
    assert(prefix[22] == "conserto"@);
    assert(prefix[23] == "assistência"@);
    assert(prefix[24] == "pagamento"@);
    assert(prefix[25] == "boleto"@);
    assert(prefix[26] == "nota fiscal"@);
    assert(prefix[27] == "passagem"@);
    assert(prefix[28] == "hospedagem"@);
    assert(prefix[29] == "hotel"@);
    assert(prefix[30] == "check in"@);
    assert(prefix[31] == "bagagem"@);
    assert(rules[0].0 == seq!["motoboy"@]);
    assert(!any_keyword(t, rules[0].0));
    assert(rules[1].0 == seq!["sedex"@, "correio"@]);
    assert(!any_keyword(t, rules[1].0));
    assert(rules[2].0 == seq!["lalamove"@]);
    assert(!any_keyword(t, rules[2].0));
    assert(rules[3].0 == seq!["uber"@, "99"@]);
    assert(!any_keyword(t, rules[3].0));
    assert(rules[4].0 == seq!["taxista"@]);
    assert(!any_keyword(t, rules[4].0));
    assert(rules[5].0 == seq!["entrega"@, "retirada"@]);
    assert(!any_keyword(t, rules[5].0));
    assert(rules[6].0 == seq!["reembolso"@, "bradesco saúde"@, "plano de saúde"@]);
    assert(!any_keyword(t, rules[6].0));
    assert(rules[7].0 == seq!["mercado"@]);
    assert(!any_keyword(t, rules[7].0));
    assert(rules[8].0 == seq!["farmácia"@]);
    assert(!any_keyword(t, rules[8].0));
    assert(rules[9].0 == seq!["presente"@]);
    assert(!any_keyword(t, rules[9].0));
    assert(rules[10].0 == seq!["shopper"@]);
    assert(!any_keyword(t, rules[10].0));
    assert(rules[11].0 == seq!["papelaria"@]);
    assert(!any_keyword(t, rules[11].0));
    assert(rules[12].0 == seq!["petshop"@]);
    assert(!any_keyword(t, rules[12].0));
    assert(rules[13].0 == seq!["ingresso"@]);
    assert(!any_keyword(t, rules[13].0));
    assert(rules[14].0 == seq!["troca"@]);
    assert(!any_keyword(t, rules[14].0));
    assert(rules[15].0 == seq!["internet"@]);
    assert(!any_keyword(t, rules[15].0));
    assert(rules[16].0 == seq!["telefone"@]);
    assert(!any_keyword(t, rules[16].0));
    assert(rules[17].0 == seq!["conserto"@]);
    assert(!any_keyword(t, rules[17].0));
    assert(rules[18].0 == seq!["assistência"@]);
    assert(!any_keyword(t, rules[18].0));
    assert(rules[19].0 == seq!["pagamento"@]);
    assert(!any_keyword(t, rules[19].0));
    assert(rules[20].0 == seq!["boleto"@]);
    assert(!any_keyword(t, rules[20].0));
    assert(rules[21].0 == seq!["nota fiscal"@]);
    assert(!any_keyword(t, rules[21].0));
    assert(rules[22].0 == seq!["passagem"@]);
    assert(!any_keyword(t, rules[22].0));
    assert(rules[23].0 == seq!["hospedagem"@, "hotel"@]);
    assert(!any_keyword(t, rules[23].0));
    assert(rules[24].0 == seq!["check in"@]);
    assert(!any_keyword(t, rules[24].0));
    assert(rules[25].0 == seq!["bagagem"@]);
    assert(!any_keyword(t, rules[25].0));
    assert forall|j: int| 0 <= j < 26 implies !any_keyword(t, #[trigger] rules[j].0) by {
        if j == 0 {  } else if j == 1 {  } else if j == 2 {  } else if j == 3 {  } else if j == 4 {  } else if j == 5 {  } else if j == 6 {  } else if j == 7 {  } else if j == 8 {  } else if j == 9 {  } else if j == 10 {  } else if j == 11 {  } else if j == 12 {  } else if j == 13 {  } else if j == 14 {  } else if j == 15 {  } else if j == 16 {  } else if j == 17 {  } else if j == 18 {  } else if j == 19 {  } else if j == 20 {  } else if j == 21 {  } else if j == 22 {  } else if j == 23 {  } else if j == 24 {  } else if j == 25 {  }
    }
    assert(rules[26] == (seq!["consulta"@], "Agendamentos"@, "Consultas"@));
    assert(any_keyword(t, rules[26].0)) by {
        if contains(t, "consulta"@) { assert(rules[26].0[0] == "consulta"@); }
    }
    lemma_first_rule_at(t, rules, 26);
    let table = spec_star_table();
    reveal_strlit("Consultas");
    assert(table[0] == ("Consultas"@, 1u8));
    assert forall|j: int| 0 <= j < 0 implies (#[trigger] table[j]).0 != "Consultas"@ by {
        
    }
    lemma_star_at(table, "Consultas"@, 0);
}

#[verifier::spinoff_prover]
/// A text that contains "exame", and no keyword of an earlier rule, is categorised as "Agendamentos" / "Exames" with 1 star.
pub proof fn law_keyword_exame(t: Seq<char>)
    requires
        contains(t, "exame"@),
        none_of(t, seq!["motoboy"@, "sedex"@, "correio"@, "lalamove"@, "uber"@, "99"@, "taxista"@, "entrega"@, "retirada"@, "reembolso"@, "bradesco saúde"@, "plano de saúde"@, "mercado"@, "farmácia"@, "presente"@, "shopper"@, "papelaria"@, "petshop"@, "ingresso"@, "troca"@, "internet"@, "telefone"@, "conserto"@, "assistência"@, "pagamento"@, "boleto"@, "nota fiscal"@, "passagem"@, "hospedagem"@, "hotel"@, "check in"@, "bagagem"@, "consulta"@]),
    ensures
        categorize_lowered_spec(t) == Some(("Agendamentos"@, "Exames"@, 1u8)),
{
    let rules = spec_rules();
    let prefix = seq!["motoboy"@, "sedex"@, "correio"@, "lalamove"@, "uber"@, "99"@, "taxista"@, "entrega"@, "retirada"@, "reembolso"@, "bradesco saúde"@, "plano de saúde"@, "mercado"@, "farmácia"@, "presente"@, "shopper"@, "papelaria"@, "petshop"@, "ingresso"@, "troca"@, "internet"@, "telefone"@, "conserto"@, "assistência"@, "pagamento"@, "boleto"@, "nota fiscal"@, "passagem"@, "hospedagem"@, "hotel"@, "check in"@, "bagagem"@, "consulta"@];
    assert(prefix[0] == "motoboy"@);
    assert(prefix[1] == "sedex"@);
    assert(prefix[2] == "correio"@);
    assert(prefix[3] == "lalamove"@);
    assert(prefix[4] == "uber"@);
    assert(prefix[5] == "99"@);
    assert(prefix[6] == "taxista"@);
    assert(prefix[7] == "entrega"@);
    assert(prefix[8] == "retirada"@);
    assert(prefix[9] == "reembolso"@);
    assert(prefix[10] == "bradesco saúde"@);
    assert(prefix[11] == "plano de saúde"@);
    assert(prefix[12] == "mercado"@);
    assert(prefix[13] == "farmácia"@);
    assert(prefix[14] == "presente"@);
    assert(prefix[15] == "shopper"@);
    assert(prefix[16] == "papelaria"@);
    assert(prefix[17] == "petshop"@);
    assert(prefix[18] == "ingresso"@);
    assert(prefix[19] == "troca"@);
    assert(prefix[20] == "internet"@);
    assert(prefix[21] == "telefone"@);
    assert(prefix[22] == "conserto"@);
    assert(prefix[23] == "assistência"@);
    assert(prefix[24] == "pagamento"@);
    assert(prefix[25] == "boleto"@);
    assert(prefix[26] == "nota fiscal"@);
    assert(prefix[27] == "passagem"@);
    assert(prefix[28] == "hospedagem"@);
    assert(prefix[29] == "hotel"@);
    assert(prefix[30] == "check in"@);
    assert(prefix[31] == "bagagem"@);
    assert(prefix[32] == "consulta"@);
    assert(rules[0].0 == seq!["motoboy"@]);
    assert(!any_keyword(t, rules[0].0));
    assert(rules[1].0 == seq!["sedex"@, "correio"@]);
    assert(!any_keyword(t, rules[1].0));
    assert(rules[2].0 == seq!["lalamove"@]);
    assert(!any_keyword(t, rules[2].0));
    assert(rules[3].0 == seq!["uber"@, "99"@]);
    assert(!any_keyword(t, rules[3].0));
    assert(rules[4].0 == seq!["taxista"@]);
    assert(!any_keyword(t, rules[4].0));
    assert(rules[5].0 == seq!["entrega"@, "retirada"@]);
    assert(!any_keyword(t, rules[5].0));
    assert(rules[6].0 == seq!["reembolso"@, "bradesco saúde"@, "plano de saúde"@]);
    assert(!any_keyword(t, rules[6].0));
    assert(rules[7].0 == seq!["mercado"@]);
    assert(!any_keyword(t, rules[7].0));
    assert(rules[8].0 == seq!["farmácia"@]);
    assert(!any_keyword(t, rules[8].0));
    assert(rules[9].0 == seq!["presente"@]);
    assert(!any_keyword(t, rules[9].0));
    assert(rules[10].0 == seq!["shopper"@]);
    assert(!any_keyword(t, rules[10].0));
    assert(rules[11].0 == seq!["papelaria"@]);
    assert(!any_keyword(t, rules[11].0));
    assert(rules[12].0 == seq!["petshop"@]);
    assert(!any_keyword(t, rules[12].0));
    assert(rules[13].0 == seq!["ingresso"@]);
    assert(!any_keyword(t, rules[13].0));
    assert(rules[14].0 == seq!["troca"@]);
    assert(!any_keyword(t, rules[14].0));
    assert(rules[15].0 == seq!["internet"@]);
    assert(!any_keyword(t, rules[15].0));
    assert(rules[16].0 == seq!["telefone"@]);
    assert(!any_keyword(t, rules[16].0));
    assert(rules[17].0 == seq!["conserto"@]);
    assert(!any_keyword(t, rules[17].0));
    assert(rules[18].0 == seq!["assistência"@]);
    assert(!any_keyword(t, rules[18].0));
    assert(rules[19].0 == seq!["pagamento"@]);
    assert(!any_keyword(t, rules[19].0));
    assert(rules[20].0 == seq!["boleto"@]);
    assert(!any_keyword(t, rules[20].0));
    assert(rules[21].0 == seq!["nota fiscal"@]);
    assert(!any_keyword(t, rules[21].0));
    assert(rules[22].0 == seq!["passagem"@]);
    assert(!any_keyword(t, rules[22].0));
    assert(rules[23].0 == seq!["hospedagem"@, "hotel"@]);
    assert(!any_keyword(t, rules[23].0));
    assert(rules[24].0 == seq!["check in"@]);
    assert(!any_keyword(t, rules[24].0));
    assert(rules[25].0 == seq!["bagagem"@]);
    assert(!any_keyword(t, rules[25].0));
    assert(rules[26].0 == seq!["consulta"@]);
    assert(!any_keyword(t, rules[26].0));
    assert forall|j: int| 0 <= j < 27 implies !any_keyword(t, #[trigger] rules[j].0) by {
        if j == 0 {  } else if j == 1 {  } else if j == 2 {  } else if j == 3 {  } else if j == 4 {  } else if j == 5 {  } else if j == 6 {  } else if j == 7 {  } else if j == 8 {  } else if j == 9 {  } else if j == 10 {  } else if j == 11 {  } else if j == 12 {  } else if j == 13 {  } else if j == 14 {  } else if j == 15 {  } else if j == 16 {  } else if j == 17 {  } else if j == 18 {  } else if j == 19 {  } else if j == 20 {  } else if j == 21 {  } else if j == 22 {  } else if j == 23 {  } else if j == 24 {  } else if j == 25 {  } else if j == 26 {  }
    }
    assert(rules[27] == (seq!["exame"@], "Agendamentos"@, "Exames"@));
    assert(any_keyword(t, rules[27].0)) by {
        if contains(t, "exame"@) { assert(rules[27].0[0] == "exame"@); }
    }
    lemma_first_rule_at(t, rules, 27);
    let table = spec_star_table();
    reveal_strlit("Exames");
    assert(table[0].0 == "Consultas"@);
    reveal_strlit("Consultas");
    assert(table[1] == ("Exames"@, 1u8));
    assert forall|j: int| 0 <= j < 1 implies (#[trigger] table[j]).0 != "Exames"@ by {
        if j == 0 {  }
    }
    lemma_star_at(table, "Exames"@, 1);
}

#[verifier::spinoff_prover]
/// A text that contains "vacina", and no keyword of an earlier rule, is categorised as "Agendamentos" / "Vacinas" with 1 star.
pub proof fn law_keyword_vacina(t: Seq<char>)
    requires
        contains(t, "vacina"@),
        none_of(t, seq!["motoboy"@, "sedex"@, "correio"@, "lalamove"@, "uber"@, "99"@, "taxista"@, "entrega"@, "retirada"@, "reembolso"@, "bradesco saúde"@, "plano de saúde"@, "mercado"@, "farmácia"@, "presente"@, "shopper"@, "papelaria"@, "petshop"@, "ingresso"@, "troca"@, "internet"@, "telefone"@, "conserto"@, "assistência"@, "pagamento"@, "boleto"@, "nota fiscal"@, "passagem"@, "hospedagem"@, "hotel"@, "check in"@, "bagagem"@, "consulta"@, "exame"@]),
    ensures
        categorize_lowered_spec(t) == Some(("Agendamentos"@, "Vacinas"@, 1u8)),
{
    let rules = spec_rules();
    let prefix = seq!["motoboy"@, "sedex"@, "correio"@, "lalamove"@, "uber"@, "99"@, "taxista"@, "entrega"@, "retirada"@, "reembolso"@, "bradesco saúde"@, "plano de saúde"@, "mercado"@, "farmácia"@, "presente"@, "shopper"@, "papelaria"@, "petshop"@, "ingresso"@, "troca"@, "internet"@, "telefone"@, "conserto"@, "assistência"@, "pagamento"@, "boleto"@, "nota fiscal"@, "passagem"@, "hospedagem"@, "hotel"@, "check in"@, "bagagem"@, "consulta"@, "exame"@];
    assert(prefix[0] == "motoboy"@);
    assert(prefix[1] == "sedex"@);
    assert(prefix[2] == "correio"@);
    assert(prefix[3] == "lalamove"@);
    assert(prefix[4] == "uber"@);
    assert(prefix[5] == "99"@);
    assert(prefix[6] == "taxista"@);
    assert(prefix[7] == "entrega"@);
    assert(prefix[8] == "retirada"@);
    assert(prefix[9] == "reembolso"@);
    assert(prefix[10] == "bradesco saúde"@);
    assert(prefix[11] == "plano de saúde"@);
    assert(prefix[12] == "mercado"@);
    assert(prefix[13] == "farmácia"@);
    assert(prefix[14] == "presente"@);
    assert(prefix[15] == "shopper"@);
    assert(prefix[16] == "papelaria"@);
    assert(prefix[17] == "petshop"@);
    assert(prefix[18] == "ingresso"@);
    assert(prefix[19] == "troca"@);
    assert(prefix[20] == "internet"@);
    assert(prefix[21] == "telefone"@);
    assert(prefix[22] == "conserto"@);
    assert(prefix[23] == "assistência"@);
    assert(prefix[24] == "pagamento"@);
    assert(prefix[25] == "boleto"@);
    assert(prefix[26] == "nota fiscal"@);
    assert(prefix[27] == "passagem"@);
    assert(prefix[28] == "hospedagem"@);
    assert(prefix[29] == "hotel"@);
    assert(prefix[30] == "check in"@);
    assert(prefix[31] == "bagagem"@);
    assert(prefix[32] == "consulta"@);
    assert(prefix[33] == "exame"@);
    assert(rules[0].0 == seq!["motoboy"@]);
    assert(!any_keyword(t, rules[0].0));
    assert(rules[1].0 == seq!["sedex"@, "correio"@]);
    assert(!any_keyword(t, rules[1].0));
    assert(rules[2].0 == seq!["lalamove"@]);
    assert(!any_keyword(t, rules[2].0));
    assert(rules[3].0 == seq!["uber"@, "99"@]);
    assert(!any_keyword(t, rules[3].0));
    assert(rules[4].0 == seq!["taxista"@]);
    assert(!any_keyword(t, rules[4].0));
    assert(rules[5].0 == seq!["entrega"@, "retirada"@]);
    assert(!any_keyword(t, rules[5].0));
    assert(rules[6].0 == seq!["reembolso"@, "bradesco saúde"@, "plano de saúde"@]);
    assert(!any_keyword(t, rules[6].0));
    assert(rules[7].0 == seq!["mercado"@]);
    assert(!any_keyword(t, rules[7].0));
    assert(rules[8].0 == seq!["farmácia"@]);
    assert(!any_keyword(t, rules[8].0));
    assert(rules[9].0 == seq!["presente"@]);
    assert(!any_keyword(t, rules[9].0));
    assert(rules[10].0 == seq!["shopper"@]);
    assert(!any_keyword(t, rules[10].0));
    assert(rules[11].0 == seq!["papelaria"@]);
    assert(!any_keyword(t, rules[11].0));
    assert(rules[12].0 == seq!["petshop"@]);
    assert(!any_keyword(t, rules[12].0));
    assert(rules[13].0 == seq!["ingresso"@]);
    assert(!any_keyword(t, rules[13].0));
    assert(rules[14].0 == seq!["troca"@]);
    assert(!any_keyword(t, rules[14].0));
    assert(rules[15].0 == seq!["internet"@]);
    assert(!any_keyword(t, rules[15].0));
    assert(rules[16].0 == seq!["telefone"@]);
    assert(!any_keyword(t, rules[16].0));
    assert(rules[17].0 == seq!["conserto"@]);
    assert(!any_keyword(t, rules[17].0));
    assert(rules[18].0 == seq!["assistência"@]);
    assert(!any_keyword(t, rules[18].0));
    assert(rules[19].0 == seq!["pagamento"@]);
    assert(!any_keyword(t, rules[19].0));
    assert(rules[20].0 == seq!["boleto"@]);
    assert(!any_keyword(t, rules[20].0));
    assert(rules[21].0 == seq!["nota fiscal"@]);
    assert(!any_keyword(t, rules[21].0));
    assert(rules[22].0 == seq!["passagem"@]);
    assert(!any_keyword(t, rules[22].0));
    assert(rules[23].0 == seq!["hospedagem"@, "hotel"@]);
    assert(!any_keyword(t, rules[23].0));
    assert(rules[24].0 == seq!["check in"@]);
    assert(!any_keyword(t, rules[24].0));
    assert(rules[25].0 == seq!["bagagem"@]);
    assert(!any_keyword(t, rules[25].0));
    assert(rules[26].0 == seq!["consulta"@]);
    assert(!any_keyword(t, rules[26].0));
    assert(rules[27].0 == seq!["exame"@]);
    assert(!any_keyword(t, rules[27].0));
    assert forall|j: int| 0 <= j < 28 implies !any_keyword(t, #[trigger] rules[j].0) by {
        if j == 0 {  } else if j == 1 {  } else if j == 2 {  } else if j == 3 {  } else if j == 4 {  } else if j == 5 {  } else if j == 6 {  } else if j == 7 {  } else if j == 8 {  } else if j == 9 {  } else if j == 10 {  } else if j == 11 {  } else if j == 12 {  } else if j == 13 {  } else if j == 14 {  } else if j == 15 {  } else if j == 16 {  } else if j == 17 {  } else if j == 18 {  } else if j == 19 {  } else if j == 20 {  } else if j == 21 {  } else if j == 22 {  } else if j == 23 {  } else if j == 24 {  } else if j == 25 {  } else if j == 26 {  } else if j == 27 {  }
    }
    assert(rules[28] == (seq!["vacina"@], "Agendamentos"@, "Vacinas"@));
    assert(any_keyword(t, rules[28].0)) by {
        if contains(t, "vacina"@) { assert(rules[28].0[0] == "vacina"@); }
    }
    lemma_first_rule_at(t, rules, 28);
    let table = spec_star_table();
    reveal_strlit("Vacinas");
    assert(table[0].0 == "Consultas"@);
    reveal_strlit("Consultas");
    assert(table[1].0 == "Exames"@);
    reveal_strlit("Exames");
    assert(table[2].0 == "Veterinário/Petshop (Consultas/Exames/Banhos/Tosas)"@);
    reveal_strlit("Veterinário/Petshop (Consultas/Exames/Banhos/Tosas)");
    assert(table[3] == ("Vacinas"@, 1u8));
    assert forall|j: int| 0 <= j < 3 implies (#[trigger] table[j]).0 != "Vacinas"@ by {
        if j == 0 {  } else if j == 1 {  } else if j == 2 {  }
    }
    lemma_star_at(table, "Vacinas"@, 3);
}

#[verifier::spinoff_prover]
/// A text that contains "manicure", and no keyword of an earlier rule, is categorised as "Agendamentos" / "Manicure" with 1 star.
pub proof fn law_keyword_manicure(t: Seq<char>)
    requires
        contains(t, "manicure"@),
        none_of(t, seq!["motoboy"@, "sedex"@, "correio"@, "lalamove"@, "uber"@, "99"@, "taxista"@, "entrega"@, "retirada"@, "reembolso"@, "bradesco saúde"@, "plano de saúde"@, "mercado"@, "farmácia"@, "presente"@, "shopper"@, "papelaria"@, "petshop"@, "ingresso"@, "troca"@, "internet"@, "telefone"@, "conserto"@, "assistência"@, "pagamento"@, "boleto"@, "nota fiscal"@, "passagem"@, "hospedagem"@, "hotel"@, "check in"@, "bagagem"@, "consulta"@, "exame"@, "vacina"@]),
    ensures
        categorize_lowered_spec(t) == Some(("Agendamentos"@, "Manicure"@, 1u8)),
{
    let rules = spec_rules();
    let prefix = seq!["motoboy"@, "sedex"@, "correio"@, "lalamove"@, "uber"@, "99"@, "taxista"@, "entrega"@, "retirada"@, "reembolso"@, "bradesco saúde"@, "plano de saúde"@, "mercado"@, "farmácia"@, "presente"@, "shopper"@, "papelaria"@, "petshop"@, "ingresso"@, "troca"@, "internet"@, "telefone"@, "conserto"@, "assistência"@, "pagamento"@, "boleto"@, "nota fiscal"@, "passagem"@, "hospedagem"@, "hotel"@, "check in"@, "bagagem"@, "consulta"@, "exame"@, "vacina"@];
    assert(prefix[0] == "motoboy"@);
    assert(prefix[1] == "sedex"@);
    assert(prefix[2] == "correio"@);
    assert(prefix[3] == "lalamove"@);
    assert(prefix[4] == "uber"@);
    assert(prefix[5] == "99"@);
    assert(prefix[6] == "taxista"@);
    assert(prefix[7] == "entrega"@);
    assert(prefix[8] == "retirada"@);
    assert(prefix[9] == "reembolso"@);
    assert(prefix[10] == "bradesco saúde"@);
    assert(prefix[11] == "plano de saúde"@);
    assert(prefix[12] == "mercado"@);
    assert(prefix[13] == "farmácia"@);
    assert(prefix[14] == "presente"@);
    assert(prefix[15] == "shopper"@);
    assert(prefix[16] == "papelaria"@);
    assert(prefix[17] == "petshop"@);
    assert(prefix[18] == "ingresso"@);
    assert(prefix[19] == "troca"@);
    assert(prefix[20] == "internet"@);
    assert(prefix[21] == "telefone"@);
    assert(prefix[22] == "conserto"@);
    assert(prefix[23] == "assistência"@);
    assert(prefix[24] == "pagamento"@);
    assert(prefix[25] == "boleto"@);
    assert(prefix[26] == "nota fiscal"@);
    assert(prefix[27] == "passagem"@);
    assert(prefix[28] == "hospedagem"@);
    assert(prefix[29] == "hotel"@);
    assert(prefix[30] == "check in"@);
    assert(prefix[31] == "bagagem"@);
    assert(prefix[32] == "consulta"@);
    assert(prefix[33] == "exame"@);
    assert(prefix[34] == "vacina"@);
    assert(rules[0].0 == seq!["motoboy"@]);
    assert(!any_keyword(t, rules[0].0));
    assert(rules[1].0 == seq!["sedex"@, "correio"@]);
    assert(!any_keyword(t, rules[1].0));
    assert(rules[2].0 == seq!["lalamove"@]);
    assert(!any_keyword(t, rules[2].0));
    assert(rules[3].0 == seq!["uber"@, "99"@]);
    assert(!any_keyword(t, rules[3].0));
    assert(rules[4].0 == seq!["taxista"@]);
    assert(!any_keyword(t, rules[4].0));
    assert(rules[5].0 == seq!["entrega"@, "retirada"@]);
    assert(!any_keyword(t, rules[5].0));
    assert(rules[6].0 == seq!["reembolso"@, "bradesco saúde"@, "plano de saúde"@]);
    assert(!any_keyword(t, rules[6].0));
    assert(rules[7].0 == seq!["mercado"@]);
    assert(!any_keyword(t, rules[7].0));
    assert(rules[8].0 == seq!["farmácia"@]);
    assert(!any_keyword(t, rules[8].0));
    assert(rules[9].0 == seq!["presente"@]);
    assert(!any_keyword(t, rules[9].0));
    assert(rules[10].0 == seq!["shopper"@]);
    assert(!any_keyword(t, rules[10].0));
    assert(rules[11].0 == seq!["papelaria"@]);
    assert(!any_keyword(t, rules[11].0));
    assert(rules[12].0 == seq!["petshop"@]);
    assert(!any_keyword(t, rules[12].0));
    assert(rules[13].0 == seq!["ingresso"@]);
    assert(!any_keyword(t, rules[13].0));
    assert(rules[14].0 == seq!["troca"@]);
    assert(!any_keyword(t, rules[14].0));
    assert(rules[15].0 == seq!["internet"@]);
    assert(!any_keyword(t, rules[15].0));
    assert(rules[16].0 == seq!["telefone"@]);
    assert(!any_keyword(t, rules[16].0));
    assert(rules[17].0 == seq!["conserto"@]);
    assert(!any_keyword(t, rules[17].0));
    assert(rules[18].0 == seq!["assistência"@]);
    assert(!any_keyword(t, rules[18].0));
    assert(rules[19].0 == seq!["pagamento"@]);
    assert(!any_keyword(t, rules[19].0));
    assert(rules[20].0 == seq!["boleto"@]);
    assert(!any_keyword(t, rules[20].0));
    assert(rules[21].0 == seq!["nota fiscal"@]);
    assert(!any_keyword(t, rules[21].0));
    assert(rules[22].0 == seq!["passagem"@]);
    assert(!any_keyword(t, rules[22].0));
    assert(rules[23].0 == seq!["hospedagem"@, "hotel"@]);
    assert(!any_keyword(t, rules[23].0));
    assert(rules[24].0 == seq!["check in"@]);
    assert(!any_keyword(t, rules[24].0));
    assert(rules[25].0 == seq!["bagagem"@]);
    assert(!any_keyword(t, rules[25].0));
    assert(rules[26].0 == seq!["consulta"@]);
    assert(!any_keyword(t, rules[26].0));
    assert(rules[27].0 == seq!["exame"@]);
    assert(!any_keyword(t, rules[27].0));
    assert(rules[28].0 == seq!["vacina"@]);
    assert(!any_keyword(t, rules[28].0));
    assert forall|j: int| 0 <= j < 29 implies !any_keyword(t, #[trigger] rules[j].0) by {
        if j == 0 {  } else if j == 1 {  } else if j == 2 {  } else if j == 3 {  } else if j == 4 {  } else if j == 5 {  } else if j == 6 {  } else if j == 7 {  } else if j == 8 {  } else if j == 9 {  } else if j == 10 {  } else if j == 11 {  } else if j == 12 {  } else if j == 13 {  } else if j == 14 {  } else if j == 15 {  } else if j == 16 {  } else if j == 17 {  } else if j == 18 {  } else if j == 19 {  } else if j == 20 {  } else if j == 21 {  } else if j == 22 {  } else if j == 23 {  } else if j == 24 {  } else if j == 25 {  } else if j == 26 {  } else if j == 27 {  } else if j == 28 {  }
    }
    assert(rules[29] == (seq!["manicure"@], "Agendamentos"@, "Manicure"@));
    assert(any_keyword(t, rules[29].0)) by {
        if contains(t, "manicure"@) { assert(rules[29].0[0] == "manicure"@); }
    }
    lemma_first_rule_at(t, rules, 29);
    let table = spec_star_table();
    reveal_strlit("Manicure");
    assert(table[0].0 == "Consultas"@);
    reveal_strlit("Consultas");
    assert(table[1].0 == "Exames"@);
    reveal_strlit("Exames");
    assert(table[2].0 == "Veterinário/Petshop (Consultas/Exames/Banhos/Tosas)"@);
    reveal_strlit("Veterinário/Petshop (Consultas/Exames/Banhos/Tosas)");
    assert(table[3].0 == "Vacinas"@);
    reveal_strlit("Vacinas");
    assert(table[4] == ("Manicure"@, 1u8));
    assert forall|j: int| 0 <= j < 4 implies (#[trigger] table[j]).0 != "Manicure"@ by {
        if j == 0 {  } else if j == 1 {  } else if j == 2 {  } else if j == 3 {  }
    }
    lemma_star_at(table, "Manicure"@, 4);
}

#[verifier::spinoff_prover]
/// A text that contains "cabeleireiro", and no keyword of an earlier rule, is categorised as "Agendamentos" / "Cabeleleiro" with 1 star.
pub proof fn law_keyword_cabeleireiro(t: Seq<char>)
    requires
        contains(t, "cabeleireiro"@),
        none_of(t, seq!["motoboy"@, "sedex"@, "correio"@, "lalamove"@, "uber"@, "99"@, "taxista"@, "entrega"@, "retirada"@, "reembolso"@, "bradesco saúde"@, "plano de saúde"@, "mercado"@, "farmácia"@, "presente"@, "shopper"@, "papelaria"@, "petshop"@, "ingresso"@, "troca"@, "internet"@, "telefone"@, "conserto"@, "assistência"@, "pagamento"@, "boleto"@, "nota fiscal"@, "passagem"@, "hospedagem"@, "hotel"@, "check in"@, "bagagem"@, "consulta"@, "exame"@, "vacina"@, "manicure"@]),
    ensures
        categorize_lowered_spec(t) == Some(("Agendamentos"@, "Cabeleleiro"@, 1u8)),
{
    let rules = spec_rules();
    let prefix = seq!["motoboy"@, "sedex"@, "correio"@, "lalamove"@, "uber"@, "99"@, "taxista"@, "entrega"@, "retirada"@, "reembolso"@, "bradesco saúde"@, "plano de saúde"@, "mercado"@, "farmácia"@, "presente"@, "shopper"@, "papelaria"@, "petshop"@, "ingresso"@, "troca"@, "internet"@, "telefone"@, "conserto"@, "assistência"@, "pagamento"@, "boleto"@, "nota fiscal"@, "passagem"@, "hospedagem"@, "hotel"@, "check in"@, "bagagem"@, "consulta"@, "exame"@, "vacina"@, "manicure"@];
    assert(prefix[0] == "motoboy"@);
    assert(prefix[1] == "sedex"@);
    assert(prefix[2] == "correio"@);
    assert(prefix[3] == "lalamove"@);
    assert(prefix[4] == "uber"@);
    assert(prefix[5] == "99"@);
    assert(prefix[6] == "taxista"@);
    assert(prefix[7] == "entrega"@);
    assert(prefix[8] == "retirada"@);
    assert(prefix[9] == "reembolso"@);
    assert(prefix[10] == "bradesco saúde"@);
    assert(prefix[11] == "plano de saúde"@);
    assert(prefix[12] == "mercado"@);
    assert(prefix[13] == "farmácia"@);
    assert(prefix[14] == "presente"@);
    assert(prefix[15] == "shopper"@);
    assert(prefix[16] == "papelaria"@);
    assert(prefix[17] == "petshop"@);
    assert(prefix[18] == "ingresso"@);
    assert(prefix[19] == "troca"@);
    assert(prefix[20] == "internet"@);
    assert(prefix[21] == "telefone"@);
    assert(prefix[22] == "conserto"@);
    assert(prefix[23] == "assistência"@);
    assert(prefix[24] == "pagamento"@);
    assert(prefix[25] == "boleto"@);
    assert(prefix[26] == "nota fiscal"@);
    assert(prefix[27] == "passagem"@);
    assert(prefix[28] == "hospedagem"@);
    assert(prefix[29] == "hotel"@);
    assert(prefix[30] == "check in"@);
    assert(prefix[31] == "bagagem"@);
    assert(prefix[32] == "consulta"@);
    assert(prefix[33] == "exame"@);
    assert(prefix[34] == "vacina"@);
    assert(prefix[35] == "manicure"@);
    assert(rules[0].0 == seq!["motoboy"@]);
    assert(!any_keyword(t, rules[0].0));
    assert(rules[1].0 == seq!["sedex"@, "correio"@]);
    assert(!any_keyword(t, rules[1].0));
    assert(rules[2].0 == seq!["lalamove"@]);
    assert(!any_keyword(t, rules[2].0));
    assert(rules[3].0 == seq!["uber"@, "99"@]);
    assert(!any_keyword(t, rules[3].0));
    assert(rules[4].0 == seq!["taxista"@]);
    assert(!any_keyword(t, rules[4].0));
    assert(rules[5].0 == seq!["entrega"@, "retirada"@]);
    assert(!any_keyword(t, rules[5].0));
    assert(rules[6].0 == seq!["reembolso"@, "bradesco saúde"@, "plano de saúde"@]);
    assert(!any_keyword(t, rules[6].0));
    assert(rules[7].0 == seq!["mercado"@]);
    assert(!any_keyword(t, rules[7].0));
    assert(rules[8].0 == seq!["farmácia"@]);
    assert(!any_keyword(t, rules[8].0));
    assert(rules[9].0 == seq!["presente"@]);
    assert(!any_keyword(t, rules[9].0));
    assert(rules[10].0 == seq!["shopper"@]);
    assert(!any_keyword(t, rules[10].0));
    assert(rules[11].0 == seq!["papelaria"@]);
    assert(!any_keyword(t, rules[11].0));
    assert(rules[12].0 == seq!["petshop"@]);
    assert(!any_keyword(t, rules[12].0));
    assert(rules[13].0 == seq!["ingresso"@]);
    assert(!any_keyword(t, rules[13].0));
    assert(rules[14].0 == seq!["troca"@]);
    assert(!any_keyword(t, rules[14].0));
    assert(rules[15].0 == seq!["internet"@]);
    assert(!any_keyword(t, rules[15].0));
    assert(rules[16].0 == seq!["telefone"@]);
    assert(!any_keyword(t, rules[16].0));
    assert(rules[17].0 == seq!["conserto"@]);
    assert(!any_keyword(t, rules[17].0));
    assert(rules[18].0 == seq!["assistência"@]);
    assert(!any_keyword(t, rules[18].0));
    assert(rules[19].0 == seq!["pagamento"@]);
    assert(!any_keyword(t, rules[19].0));
    assert(rules[20].0 == seq!["boleto"@]);
    assert(!any_keyword(t, rules[20].0));
    assert(rules[21].0 == seq!["nota fiscal"@]);
    assert(!any_keyword(t, rules[21].0));
    assert(rules[22].0 == seq!["passagem"@]);
    assert(!any_keyword(t, rules[22].0));
    assert(rules[23].0 == seq!["hospedagem"@, "hotel"@]);
    assert(!any_keyword(t, rules[23].0));
    assert(rules[24].0 == seq!["check in"@]);
    assert(!any_keyword(t, rules[24].0));
    assert(rules[25].0 == seq!["bagagem"@]);
    assert(!any_keyword(t, rules[25].0));
    assert(rules[26].0 == seq!["consulta"@]);
    assert(!any_keyword(t, rules[26].0));
    assert(rules[27].0 == seq!["exame"@]);
    assert(!any_keyword(t, rules[27].0));
    assert(rules[28].0 == seq!["vacina"@]);
    assert(!any_keyword(t, rules[28].0));
    assert(rules[29].0 == seq!["manicure"@]);
    assert(!any_keyword(t, rules[29].0));
    assert forall|j: int| 0 <= j < 30 implies !any_keyword(t, #[trigger] rules[j].0) by {
        if j == 0 {  } else if j == 1 {  } else if j == 2 {  } else if j == 3 {  } else if j == 4 {  } else if j == 5 {  } else if j == 6 {  } else if j == 7 {  } else if j == 8 {  } else if j == 9 {  } else if j == 10 {  } else if j == 11 {  } else if j == 12 {  } else if j == 13 {  } else if j == 14 {  } else if j == 15 {  } else if j == 16 {  } else if j == 17 {  } else if j == 18 {  } else if j == 19 {  } else if j == 20 {  } else if j == 21 {  } else if j == 22 {  } else if j == 23 {  } else if j == 24 {  } else if j == 25 {  } else if j == 26 {  } else if j == 27 {  } else if j == 28 {  } else if j == 29 {  }
    }
    assert(rules[30] == (seq!["cabeleireiro"@], "Agendamentos"@, "Cabeleleiro"@));
    assert(any_keyword(t, rules[30].0)) by {
        if contains(t, "cabeleireiro"@) { assert(rules[30].0[0] == "cabeleireiro"@); }
    }
    lemma_first_rule_at(t, rules, 30);
    let table = spec_star_table();
    reveal_strlit("Cabeleleiro");
    assert(table[0].0 == "Consultas"@);
    reveal_strlit("Consultas");
    assert(table[1].0 == "Exames"@);
    reveal_strlit("Exames");
    assert(table[2].0 == "Veterinário/Petshop (Consultas/Exames/Banhos/Tosas)"@);
    reveal_strlit("Veterinário/Petshop (Consultas/Exames/Banhos/Tosas)");
    assert(table[3].0 == "Vacinas"@);
    reveal_strlit("Vacinas");
    assert(table[4].0 == "Manicure"@);
    reveal_strlit("Manicure");
    assert(table[5] == ("Cabeleleiro"@, 1u8));
    assert forall|j: int| 0 <= j < 5 implies (#[trigger] table[j]).0 != "Cabeleleiro"@ by {
        if j == 0 {  } else if j == 1 {  } else if j == 2 {  } else if j == 3 {  } else if j == 4 {  }
    }
    lemma_star_at(table, "Cabeleleiro"@, 5);
}

#[verifier::spinoff_prover]
/// A text that contains any of "restaurante", "reserva", and no keyword of an earlier rule, is categorised as "Lazer" / "Reserva de restaurantes/bares" with 1 star.
pub proof fn law_keyword_restaurante(t: Seq<char>)
    requires
        contains(t, "restaurante"@) || contains(t, "reserva"@),
        none_of(t, seq!["motoboy"@, "sedex"@, "correio"@, "lalamove"@, "uber"@, "99"@, "taxista"@, "entrega"@, "retirada"@, "reembolso"@, "bradesco saúde"@, "plano de saúde"@, "mercado"@, "farmácia"@, "presente"@, "shopper"@, "papelaria"@, "petshop"@, "ingresso"@, "troca"@, "internet"@, "telefone"@, "conserto"@, "assistência"@, "pagamento"@, "boleto"@, "nota fiscal"@, "passagem"@, "hospedagem"@, "hotel"@, "check in"@, "bagagem"@, "consulta"@, "exame"@, "vacina"@, "manicure"@, "cabeleireiro"@]),
    ensures
        categorize_lowered_spec(t) == Some(("Lazer"@, "Reserva de restaurantes/bares"@, 1u8)),
{
    let rules = spec_rules();
    let prefix = seq!["motoboy"@, "sedex"@, "correio"@, "lalamove"@, "uber"@, "99"@, "taxista"@, "entrega"@, "retirada"@, "reembolso"@, "bradesco saúde"@, "plano de saúde"@, "mercado"@, "farmácia"@, "presente"@, "shopper"@, "papelaria"@, "petshop"@, "ingresso"@, "troca"@, "internet"@, "telefone"@, "conserto"@, "assistência"@, "pagamento"@, "boleto"@, "nota fiscal"@, "passagem"@, "hospedagem"@, "hotel"@, "check in"@, "bagagem"@, "consulta"@, "exame"@, "vacina"@, "manicure"@, "cabeleireiro"@];
    assert(prefix[0] == "motoboy"@);
    assert(prefix[1] == "sedex"@);
    assert(prefix[2] == "correio"@);
    assert(prefix[3] == "lalamove"@);
    assert(prefix[4] == "uber"@);
    assert(prefix[5] == "99"@);
    assert(prefix[6] == "taxista"@);
    assert(prefix[7] == "entrega"@);
    assert(prefix[8] == "retirada"@);
    assert(prefix[9] == "reembolso"@);
    assert(prefix[10] == "bradesco saúde"@);
    assert(prefix[11] == "plano de saúde"@);
    assert(prefix[12] == "mercado"@);
    assert(prefix[13] == "farmácia"@);
    assert(prefix[14] == "presente"@);
    assert(prefix[15] == "shopper"@);
    assert(prefix[16] == "papelaria"@);
    assert(prefix[17] == "petshop"@);
    assert(prefix[18] == "ingresso"@);
    assert(prefix[19] == "troca"@);
    assert(prefix[20] == "internet"@);
    assert(prefix[21] == "telefone"@);
    assert(prefix[22] == "conserto"@);
    assert(prefix[23] == "assistência"@);
    assert(prefix[24] == "pagamento"@);
    assert(prefix[25] == "boleto"@);
    assert(prefix[26] == "nota fiscal"@);
    assert(prefix[27] == "passagem"@);
    assert(prefix[28] == "hospedagem"@);
    assert(prefix[29] == "hotel"@);
    assert(prefix[30] == "check in"@);
    assert(prefix[31] == "bagagem"@);
    assert(prefix[32] == "consulta"@);
    assert(prefix[33] == "exame"@);
    assert(prefix[34] == "vacina"@);
    assert(prefix[35] == "manicure"@);
    assert(prefix[36] == "cabeleireiro"@);
    assert(rules[0].0 == seq!["motoboy"@]);
    assert(!any_keyword(t, rules[0].0));
    assert(rules[1].0 == seq!["sedex"@, "correio"@]);
    assert(!any_keyword(t, rules[1].0));
    assert(rules[2].0 == seq!["lalamove"@]);
    assert(!any_keyword(t, rules[2].0));
    assert(rules[3].0 == seq!["uber"@, "99"@]);
    assert(!any_keyword(t, rules[3].0));
    assert(rules[4].0 == seq!["taxista"@]);
    assert(!any_keyword(t, rules[4].0));
    assert(rules[5].0 == seq!["entrega"@, "retirada"@]);
    assert(!any_keyword(t, rules[5].0));
    assert(rules[6].0 == seq!["reembolso"@, "bradesco saúde"@, "plano de saúde"@]);
    assert(!any_keyword(t, rules[6].0));
    assert(rules[7].0 == seq!["mercado"@]);
    assert(!any_keyword(t, rules[7].0));
    assert(rules[8].0 == seq!["farmácia"@]);
    assert(!any_keyword(t, rules[8].0));
    assert(rules[9].0 == seq!["presente"@]);
    assert(!any_keyword(t, rules[9].0));
    assert(rules[10].0 == seq!["shopper"@]);
    assert(!any_keyword(t, rules[10].0));
    assert(rules[11].0 == seq!["papelaria"@]);
    assert(!any_keyword(t, rules[11].0));
    assert(rules[12].0 == seq!["petshop"@]);
    assert(!any_keyword(t, rules[12].0));
    assert(rules[13].0 == seq!["ingresso"@]);
    assert(!any_keyword(t, rules[13].0));
    assert(rules[14].0 == seq!["troca"@]);
    assert(!any_keyword(t, rules[14].0));
    assert(rules[15].0 == seq!["internet"@]);
    assert(!any_keyword(t, rules[15].0));
    assert(rules[16].0 == seq!["telefone"@]);
    assert(!any_keyword(t, rules[16].0));
    assert(rules[17].0 == seq!["conserto"@]);
    assert(!any_keyword(t, rules[17].0));
    assert(rules[18].0 == seq!["assistência"@]);
    assert(!any_keyword(t, rules[18].0));
    assert(rules[19].0 == seq!["pagamento"@]);
    assert(!any_keyword(t, rules[19].0));
    assert(rules[20].0 == seq!["boleto"@]);
    assert(!any_keyword(t, rules[20].0));
    assert(rules[21].0 == seq!["nota fiscal"@]);
    assert(!any_keyword(t, rules[21].0));
    assert(rules[22].0 == seq!["passagem"@]);
    assert(!any_keyword(t, rules[22].0));
    assert(rules[23].0 == seq!["hospedagem"@, "hotel"@]);
    assert(!any_keyword(t, rules[23].0));
    assert(rules[24].0 == seq!["check in"@]);
    assert(!any_keyword(t, rules[24].0));
    assert(rules[25].0 == seq!["bagagem"@]);
    assert(!any_keyword(t, rules[25].0));
    assert(rules[26].0 == seq!["consulta"@]);
    assert(!any_keyword(t, rules[26].0));
    assert(rules[27].0 == seq!["exame"@]);
    assert(!any_keyword(t, rules[27].0));
    assert(rules[28].0 == seq!["vacina"@]);
    assert(!any_keyword(t, rules[28].0));
    assert(rules[29].0 == seq!["manicure"@]);
    assert(!any_keyword(t, rules[29].0));
    assert(rules[30].0 == seq!["cabeleireiro"@]);
    assert(!any_keyword(t, rules[30].0));
    assert forall|j: int| 0 <= j < 31 implies !any_keyword(t, #[trigger] rules[j].0) by {
        if j == 0 {  } else if j == 1 {  } else if j == 2 {  } else if j == 3 {  } else if j == 4 {  } else if j == 5 {  } else if j == 6 {  } else if j == 7 {  } else if j == 8 {  } else if j == 9 {  } else if j == 10 {  } else if j == 11 {  } else if j == 12 {  } else if j == 13 {  } else if j == 14 {  } else if j == 15 {  } else if j == 16 {  } else if j == 17 {  } else if j == 18 {  } else if j == 19 {  } else if j == 20 {  } else if j == 21 {  } else if j == 22 {  } else if j == 23 {  } else if j == 24 {  } else if j == 25 {  } else if j == 26 {  } else if j == 27 {  } else if j == 28 {  } else if j == 29 {  } else if j == 30 {  }
    }
    assert(rules[31] == (seq!["restaurante"@, "reserva"@], "Lazer"@, "Reserva de restaurantes/bares"@));
    assert(any_keyword(t, rules[31].0)) by {
        if contains(t, "restaurante"@) { assert(rules[31].0[0] == "restaurante"@); }
        if contains(t, "reserva"@) { assert(rules[31].0[1] == "reserva"@); }
    }
    lemma_first_rule_at(t, rules, 31);
    let table = spec_star_table();
    reveal_strlit("Reserva de restaurantes/bares");
    assert(table[0].0 == "Consultas"@);
    reveal_strlit("Consultas");
    assert(table[1].0 == "Exames"@);
    reveal_strlit("Exames");
    assert(table[2].0 == "Veterinário/Petshop (Consultas/Exames/Banhos/Tosas)"@);
    reveal_strlit("Veterinário/Petshop (Consultas/Exames/Banhos/Tosas)");
    assert(table[3].0 == "Vacinas"@);
    reveal_strlit("Vacinas");
    assert(table[4].0 == "Manicure"@);
    reveal_strlit("Manicure");
    assert(table[5].0 == "Cabeleleiro"@);
    reveal_strlit("Cabeleleiro");
    assert(table[6].0 == "Shopper"@);
    reveal_strlit("Shopper");
    assert(table[7].0 == "Mercados"@);
    reveal_strlit("Mercados");
    assert(table[8].0 == "Presentes"@);
    reveal_strlit("Presentes");
    assert(table[9].0 == "Petshop"@);
    reveal_strlit("Petshop");
    assert(table[10].0 == "Papelaria"@);
    reveal_strlit("Papelaria");
    assert(table[11].0 == "Farmácia"@);
    reveal_strlit("Farmácia");
    assert(table[12].0 == "Ingressos"@);
    reveal_strlit("Ingressos");
    assert(table[13].0 == "Móveis e Eletros"@);
    reveal_strlit("Móveis e Eletros");
    assert(table[14].0 == "Itens pessoais e da casa"@);
    reveal_strlit("Itens pessoais e da casa");
    assert(table[15].0 == "CIN"@);
    reveal_strlit("CIN");
    assert(table[16].0 == "Certificado Digital"@);
    reveal_strlit("Certificado Digital");
    assert(table[17].0 == "Documento de Vacinação (BR/Iternacional)"@);
    reveal_strlit("Documento de Vacinação (BR/Iternacional)");
    assert(table[18].0 == "Seguros Carro/Casa/Viagem (anual)"@);
    reveal_strlit("Seguros Carro/Casa/Viagem (anual)");
    assert(table[19].0 == "Assinatura Digital"@);
    reveal_strlit("Assinatura Digital");
    assert(table[20].0 == "Contratos/Procurações"@);
    reveal_strlit("Contratos/Procurações");
    assert(table[21].0 == "Cidadanias"@);
    reveal_strlit("Cidadanias");
    assert(table[22].0 == "Vistos e Vistos Eletrônicos"@);
    reveal_strlit("Vistos e Vistos Eletrônicos");
    assert(table[23].0 == "Passaporte"@);
    reveal_strlit("Passaporte");
    assert(table[24].0 == "CNH"@);
    reveal_strlit("CNH");
    assert(table[25].0 == "Averbações"@);
    reveal_strlit("Averbações");
    assert(table[26].0 == "Certidões"@);
    reveal_strlit("Certidões");
    assert(table[27] == ("Reserva de restaurantes/bares"@, 1u8));
    assert forall|j: int| 0 <= j < 27 implies (#[trigger] table[j]).0 != "Reserva de restaurantes/bares"@ by {
        if j == 0 {  } else if j == 1 {  } else if j == 2 {  } else if j == 3 {  } else if j == 4 {  } else if j == 5 {  } else if j == 6 {  } else if j == 7 {  } else if j == 8 {  } else if j == 9 {  } else if j == 10 {  } else if j == 11 {  } else if j == 12 {  } else if j == 13 {  } else if j == 14 {  } else if j == 15 {  } else if j == 16 {  } else if j == 17 {  } else if j == 18 {  } else if j == 19 {  } else if j == 20 {  } else if j == 21 {  } else if j == 22 {  } else if j == 23 {  } else if j == 24 {  } else if j == 25 {  } else if j == 26 {  }
    }
    lemma_star_at(table, "Reserva de restaurantes/bares"@, 27);
}

#[verifier::spinoff_prover]
/// A text that contains "festa", and no keyword of an earlier rule, is categorised as "Lazer" / "Planejamento de festas" with 4 stars.
pub proof fn law_keyword_festa(t: Seq<char>)
    requires
        contains(t, "festa"@),
        none_of(t, seq!["motoboy"@, "sedex"@, "correio"@, "lalamove"@, "uber"@, "99"@, "taxista"@, "entrega"@, "retirada"@, "reembolso"@, "bradesco saúde"@, "plano de saúde"@, "mercado"@, "farmácia"@, "presente"@, "shopper"@, "papelaria"@, "petshop"@, "ingresso"@, "troca"@, "internet"@, "telefone"@, "conserto"@, "assistência"@, "pagamento"@, "boleto"@, "nota fiscal"@, "passagem"@, "hospedagem"@, "hotel"@, "check in"@, "bagagem"@, "consulta"@, "exame"@, "vacina"@, "manicure"@, "cabeleireiro"@, "restaurante"@, "reserva"@]),
    ensures
        categorize_lowered_spec(t) == Some(("Lazer"@, "Planejamento de festas"@, 4u8)),
{
    let rules = spec_rules();
    let prefix = seq!["motoboy"@, "sedex"@, "correio"@, "lalamove"@, "uber"@, "99"@, "taxista"@, "entrega"@, "retirada"@, "reembolso"@, "bradesco saúde"@, "plano de saúde"@, "mercado"@, "farmácia"@, "presente"@, "shopper"@, "papelaria"@, "petshop"@, "ingresso"@, "troca"@, "internet"@, "telefone"@, "conserto"@, "assistência"@, "pagamento"@, "boleto"@, "nota fiscal"@, "passagem"@, "hospedagem"@, "hotel"@, "check in"@, "bagagem"@, "consulta"@, "exame"@, "vacina"@, "manicure"@, "cabeleireiro"@, "restaurante"@, "reserva"@];
    assert(prefix[0] == "motoboy"@);
    assert(prefix[1] == "sedex"@);
    assert(prefix[2] == "correio"@);
    assert(prefix[3] == "lalamove"@);
    assert(prefix[4] == "uber"@);
    assert(prefix[5] == "99"@);
    assert(prefix[6] == "taxista"@);
    assert(prefix[7] == "entrega"@);
    assert(prefix[8] == "retirada"@);
    assert(prefix[9] == "reembolso"@);
    assert(prefix[10] == "bradesco saúde"@);
    assert(prefix[11] == "plano de saúde"@);
    assert(prefix[12] == "mercado"@);
    assert(prefix[13] == "farmácia"@);
    assert(prefix[14] == "presente"@);
    assert(prefix[15] == "shopper"@);
    assert(prefix[16] == "papelaria"@);
    assert(prefix[17] == "petshop"@);
    assert(prefix[18] == "ingresso"@);
    assert(prefix[19] == "troca"@);
    assert(prefix[20] == "internet"@);
    assert(prefix[21] == "telefone"@);
    assert(prefix[22] == "conserto"@);
    assert(prefix[23] == "assistência"@);
    assert(prefix[24] == "pagamento"@);
    assert(prefix[25] == "boleto"@);
    assert(prefix[26] == "nota fiscal"@);
    assert(prefix[27] == "passagem"@);
    assert(prefix[28] == "hospedagem"@);
    assert(prefix[29] == "hotel"@);
    assert(prefix[30] == "check in"@);
    assert(prefix[31] == "bagagem"@);
    assert(prefix[32] == "consulta"@);
    assert(prefix[33] == "exame"@);
    assert(prefix[34] == "vacina"@);
    assert(prefix[35] == "manicure"@);
    assert(prefix[36] == "cabeleireiro"@);
    assert(prefix[37] == "restaurante"@);
    assert(prefix[38] == "reserva"@);
    assert(rules[0].0 == seq!["motoboy"@]);
    assert(!any_keyword(t, rules[0].0));
    assert(rules[1].0 == seq!["sedex"@, "correio"@]);
    assert(!any_keyword(t, rules[1].0));
    assert(rules[2].0 == seq!["lalamove"@]);
    assert(!any_keyword(t, rules[2].0));
    assert(rules[3].0 == seq!["uber"@, "99"@]);
    assert(!any_keyword(t, rules[3].0));
    assert(rules[4].0 == seq!["taxista"@]);
    assert(!any_keyword(t, rules[4].0));
    assert(rules[5].0 == seq!["entrega"@, "retirada"@]);
    assert(!any_keyword(t, rules[5].0));
    assert(rules[6].0 == seq!["reembolso"@, "bradesco saúde"@, "plano de saúde"@]);
    assert(!any_keyword(t, rules[6].0));
    assert(rules[7].0 == seq!["mercado"@]);
    assert(!any_keyword(t, rules[7].0));
    assert(rules[8].0 == seq!["farmácia"@]);
    assert(!any_keyword(t, rules[8].0));
    assert(rules[9].0 == seq!["presente"@]);
    assert(!any_keyword(t, rules[9].0));
    assert(rules[10].0 == seq!["shopper"@]);
    assert(!any_keyword(t, rules[10].0));
    assert(rules[11].0 == seq!["papelaria"@]);
    assert(!any_keyword(t, rules[11].0));
    assert(rules[12].0 == seq!["petshop"@]);
    assert(!any_keyword(t, rules[12].0));
    assert(rules[13].0 == seq!["ingresso"@]);
    assert(!any_keyword(t, rules[13].0));
    assert(rules[14].0 == seq!["troca"@]);
    assert(!any_keyword(t, rules[14].0));
    assert(rules[15].0 == seq!["internet"@]);
    assert(!any_keyword(t, rules[15].0));
    assert(rules[16].0 == seq!["telefone"@]);
    assert(!any_keyword(t, rules[16].0));
    assert(rules[17].0 == seq!["conserto"@]);
    assert(!any_keyword(t, rules[17].0));
    assert(rules[18].0 == seq!["assistência"@]);
    assert(!any_keyword(t, rules[18].0));
    assert(rules[19].0 == seq!["pagamento"@]);
    assert(!any_keyword(t, rules[19].0));
    assert(rules[20].0 == seq!["boleto"@]);
    assert(!any_keyword(t, rules[20].0));
    assert(rules[21].0 == seq!["nota fiscal"@]);
    assert(!any_keyword(t, rules[21].0));
    assert(rules[22].0 == seq!["passagem"@]);
    assert(!any_keyword(t, rules[22].0));
    assert(rules[23].0 == seq!["hospedagem"@, "hotel"@]);
    assert(!any_keyword(t, rules[23].0));
    assert(rules[24].0 == seq!["check in"@]);
    assert(!any_keyword(t, rules[24].0));
    assert(rules[25].0 == seq!["bagagem"@]);
    assert(!any_keyword(t, rules[25].0));
    assert(rules[26].0 == seq!["consulta"@]);
    assert(!any_keyword(t, rules[26].0));
    assert(rules[27].0 == seq!["exame"@]);
    assert(!any_keyword(t, rules[27].0));
    assert(rules[28].0 == seq!["vacina"@]);
    assert(!any_keyword(t, rules[28].0));
    assert(rules[29].0 == seq!["manicure"@]);
    assert(!any_keyword(t, rules[29].0));
    assert(rules[30].0 == seq!["cabeleireiro"@]);
    assert(!any_keyword(t, rules[30].0));
    assert(rules[31].0 == seq!["restaurante"@, "reserva"@]);
    assert(!any_keyword(t, rules[31].0));
    assert forall|j: int| 0 <= j < 32 implies !any_keyword(t, #[trigger] rules[j].0) by {
        if j == 0 {  } else if j == 1 {  } else if j == 2 {  } else if j == 3 {  } else if j == 4 {  } else if j == 5 {  } else if j == 6 {  } else if j == 7 {  } else if j == 8 {  } else if j == 9 {  } else if j == 10 {  } else if j == 11 {  } else if j == 12 {  } else if j == 13 {  } else if j == 14 {  } else if j == 15 {  } else if j == 16 {  } else if j == 17 {  } else if j == 18 {  } else if j == 19 {  } else if j == 20 {  } else if j == 21 {  } else if j == 22 {  } else if j == 23 {  } else if j == 24 {  } else if j == 25 {  } else if j == 26 {  } else if j == 27 {  } else if j == 28 {  } else if j == 29 {  } else if j == 30 {  } else if j == 31 {  }
    }
    assert(rules[32] == (seq!["festa"@], "Lazer"@, "Planejamento de festas"@));
    assert(any_keyword(t, rules[32].0)) by {
        if contains(t, "festa"@) { assert(rules[32].0[0] == "festa"@); }
    }
    lemma_first_rule_at(t, rules, 32);
    let table = spec_star_table();
    reveal_strlit("Planejamento de festas");
    assert(table[0].0 == "Consultas"@);
    reveal_strlit("Consultas");
    assert(table[1].0 == "Exames"@);
    reveal_strlit("Exames");
    assert(table[2].0 == "Veterinário/Petshop (Consultas/Exames/Banhos/Tosas)"@);
    reveal_strlit("Veterinário/Petshop (Consultas/Exames/Banhos/Tosas)");
    assert(table[3].0 == "Vacinas"@);
    reveal_strlit("Vacinas");
    assert(table[4].0 == "Manicure"@);
    reveal_strlit("Manicure");
    assert(table[5].0 == "Cabeleleiro"@);
    reveal_strlit("Cabeleleiro");
    assert(table[6].0 == "Shopper"@);
    reveal_strlit("Shopper");
    assert(table[7].0 == "Mercados"@);
    reveal_strlit("Mercados");
    assert(table[8].0 == "Presentes"@);
    reveal_strlit("Presentes");
    assert(table[9].0 == "Petshop"@);
    reveal_strlit("Petshop");
    assert(table[10].0 == "Papelaria"@);
    reveal_strlit("Papelaria");
    assert(table[11].0 == "Farmácia"@);
    reveal_strlit("Farmácia");
    assert(table[12].0 == "Ingressos"@);
    reveal_strlit("Ingressos");
    assert(table[13].0 == "Móveis e Eletros"@);
    reveal_strlit("Móveis e Eletros");
    assert(table[14].0 == "Itens pessoais e da casa"@);
    reveal_strlit("Itens pessoais e da casa");
    assert(table[15].0 == "CIN"@);
    reveal_strlit("CIN");
    assert(table[16].0 == "Certificado Digital"@);
    reveal_strlit("Certificado Digital");
    assert(table[17].0 == "Documento de Vacinação (BR/Iternacional)"@);
    reveal_strlit("Documento de Vacinação (BR/Iternacional)");
    assert(table[18].0 == "Seguros Carro/Casa/Viagem (anual)"@);
    reveal_strlit("Seguros Carro/Casa/Viagem (anual)");
    assert(table[19].0 == "Assinatura Digital"@);
    reveal_strlit("Assinatura Digital");
    assert(table[20].0 == "Contratos/Procurações"@);
    reveal_strlit("Contratos/Procurações");
    assert(table[21].0 == "Cidadanias"@);
    reveal_strlit("Cidadanias");
    assert(table[22].0 == "Vistos e Vistos Eletrônicos"@);
    reveal_strlit("Vistos e Vistos Eletrônicos");
    assert(table[23].0 == "Passaporte"@);
    reveal_strlit("Passaporte");
    assert(table[24].0 == "CNH"@);
    reveal_strlit("CNH");
    assert(table[25].0 == "Averbações"@);
    reveal_strlit("Averbações");
    assert(table[26].0 == "Certidões"@);
    reveal_strlit("Certidões");
    assert(table[27].0 == "Reserva de restaurantes/bares"@);
    reveal_strlit("Reserva de restaurantes/bares");
    assert(table[28] == ("Planejamento de festas"@, 4u8));
    assert forall|j: int| 0 <= j < 28 implies (#[trigger] table[j]).0 != "Planejamento de festas"@ by {
        if j == 0 {  } else if j == 1 {  } else if j == 2 {  } else if j == 3 {  } else if j == 4 {  } else if j == 5 {  } else if j == 6 {  } else if j == 7 {  } else if j == 8 {  } else if j == 9 {  } else if j == 10 {  } else if j == 11 {  } else if j == 12 {  } else if j == 13 {  } else if j == 14 {  } else if j == 15 {  } else if j == 16 {  } else if j == 17 {  } else if j == 18 {  } else if j == 19 {  } else if j == 20 {  } else if j == 21 {  } else if j == 22 {  } else if j == 23 {  } else if j == 24 {  } else if j == 25 {  } else if j == 26 {  } else if j == 27 {  }
    }
    lemma_star_at(table, "Planejamento de festas"@, 28);
}

#[verifier::spinoff_prover]
/// A text that contains "passaporte", and no keyword of an earlier rule, is categorised as "Documentos" / "Passaporte" with 1 star.
pub proof fn law_keyword_passaporte(t: Seq<char>)
    requires
        contains(t, "passaporte"@),
        none_of(t, seq!["motoboy"@, "sedex"@, "correio"@, "lalamove"@, "uber"@, "99"@, "taxista"@, "entrega"@, "retirada"@, "reembolso"@, "bradesco saúde"@, "plano de saúde"@, "mercado"@, "farmácia"@, "presente"@, "shopper"@, "papelaria"@, "petshop"@, "ingresso"@, "troca"@, "internet"@, "telefone"@, "conserto"@, "assistência"@, "pagamento"@, "boleto"@, "nota fiscal"@, "passagem"@, "hospedagem"@, "hotel"@, "check in"@, "bagagem"@, "consulta"@, "exame"@, "vacina"@, "manicure"@, "cabeleireiro"@, "restaurante"@, "reserva"@, "festa"@]),
    ensures
        categorize_lowered_spec(t) == Some(("Documentos"@, "Passaporte"@, 1u8)),
{
    let rules = spec_rules();
    let prefix = seq!["motoboy"@, "sedex"@, "correio"@, "lalamove"@, "uber"@, "99"@, "taxista"@, "entrega"@, "retirada"@, "reembolso"@, "bradesco saúde"@, "plano de saúde"@, "mercado"@, "farmácia"@, "presente"@, "shopper"@, "papelaria"@, "petshop"@, "ingresso"@, "troca"@, "internet"@, "telefone"@, "conserto"@, "assistência"@, "pagamento"@, "boleto"@, "nota fiscal"@, "passagem"@, "hospedagem"@, "hotel"@, "check in"@, "bagagem"@, "consulta"@, "exame"@, "vacina"@, "manicure"@, "cabeleireiro"@, "restaurante"@, "reserva"@, "festa"@];
    assert(prefix[0] == "motoboy"@);
    assert(prefix[1] == "sedex"@);
    assert(prefix[2] == "correio"@);
    assert(prefix[3] == "lalamove"@);
    assert(prefix[4] == "uber"@);
    assert(prefix[5] == "99"@);
    assert(prefix[6] == "taxista"@);
    assert(prefix[7] == "entrega"@);
    assert(prefix[8] == "retirada"@);
    assert(prefix[9] == "reembolso"@);
    assert(prefix[10] == "bradesco saúde"@);
    assert(prefix[11] == "plano de saúde"@);
    assert(prefix[12] == "mercado"@);
    assert(prefix[13] == "farmácia"@);
    assert(prefix[14] == "presente"@);
    assert(prefix[15] == "shopper"@);
    assert(prefix[16] == "papelaria"@);
    assert(prefix[17] == "petshop"@);
    assert(prefix[18] == "ingresso"@);
    assert(prefix[19] == "troca"@);
    assert(prefix[20] == "internet"@);
    assert(prefix[21] == "telefone"@);
    assert(prefix[22] == "conserto"@);
    assert(prefix[23] == "assistência"@);
    assert(prefix[24] == "pagamento"@);
    assert(prefix[25] == "boleto"@);
    assert(prefix[26] == "nota fiscal"@);
    assert(prefix[27] == "passagem"@);
    assert(prefix[28] == "hospedagem"@);
    assert(prefix[29] == "hotel"@);
    assert(prefix[30] == "check in"@);
    assert(prefix[31] == "bagagem"@);
    assert(prefix[32] == "consulta"@);
    assert(prefix[33] == "exame"@);
    assert(prefix[34] == "vacina"@);
    assert(prefix[35] == "manicure"@);
    assert(prefix[36] == "cabeleireiro"@);
    assert(prefix[37] == "restaurante"@);
    assert(prefix[38] == "reserva"@);
    assert(prefix[39] == "festa"@);
    assert(rules[0].0 == seq!["motoboy"@]);
    assert(!any_keyword(t, rules[0].0));
    assert(rules[1].0 == seq!["sedex"@, "correio"@]);
    assert(!any_keyword(t, rules[1].0));
    assert(rules[2].0 == seq!["lalamove"@]);
    assert(!any_keyword(t, rules[2].0));
    assert(rules[3].0 == seq!["uber"@, "99"@]);
    assert(!any_keyword(t, rules[3].0));
    assert(rules[4].0 == seq!["taxista"@]);
    assert(!any_keyword(t, rules[4].0));
    assert(rules[5].0 == seq!["entrega"@, "retirada"@]);
    assert(!any_keyword(t, rules[5].0));
    assert(rules[6].0 == seq!["reembolso"@, "bradesco saúde"@, "plano de saúde"@]);
    assert(!any_keyword(t, rules[6].0));
    assert(rules[7].0 == seq!["mercado"@]);
    assert(!any_keyword(t, rules[7].0));
    assert(rules[8].0 == seq!["farmácia"@]);
    assert(!any_keyword(t, rules[8].0));
    assert(rules[9].0 == seq!["presente"@]);
    assert(!any_keyword(t, rules[9].0));
    assert(rules[10].0 == seq!["shopper"@]);
    assert(!any_keyword(t, rules[10].0));
    assert(rules[11].0 == seq!["papelaria"@]);
    assert(!any_keyword(t, rules[11].0));
    assert(rules[12].0 == seq!["petshop"@]);
    assert(!any_keyword(t, rules[12].0));
    assert(rules[13].0 == seq!["ingresso"@]);
    assert(!any_keyword(t, rules[13].0));
    assert(rules[14].0 == seq!["troca"@]);
    assert(!any_keyword(t, rules[14].0));
    assert(rules[15].0 == seq!["internet"@]);
    assert(!any_keyword(t, rules[15].0));
    assert(rules[16].0 == seq!["telefone"@]);
    assert(!any_keyword(t, rules[16].0));
    assert(rules[17].0 == seq!["conserto"@]);
    assert(!any_keyword(t, rules[17].0));
    assert(rules[18].0 == seq!["assistência"@]);
    assert(!any_keyword(t, rules[18].0));
    assert(rules[19].0 == seq!["pagamento"@]);
    assert(!any_keyword(t, rules[19].0));
    assert(rules[20].0 == seq!["boleto"@]);
    assert(!any_keyword(t, rules[20].0));
    assert(rules[21].0 == seq!["nota fiscal"@]);
    assert(!any_keyword(t, rules[21].0));
    assert(rules[22].0 == seq!["passagem"@]);
    assert(!any_keyword(t, rules[22].0));
    assert(rules[23].0 == seq!["hospedagem"@, "hotel"@]);
    assert(!any_keyword(t, rules[23].0));
    assert(rules[24].0 == seq!["check in"@]);
    assert(!any_keyword(t, rules[24].0));
    assert(rules[25].0 == seq!["bagagem"@]);
    assert(!any_keyword(t, rules[25].0));
    assert(rules[26].0 == seq!["consulta"@]);
    assert(!any_keyword(t, rules[26].0));
    assert(rules[27].0 == seq!["exame"@]);
    assert(!any_keyword(t, rules[27].0));
    assert(rules[28].0 == seq!["vacina"@]);
    assert(!any_keyword(t, rules[28].0));
    assert(rules[29].0 == seq!["manicure"@]);
    assert(!any_keyword(t, rules[29].0));
    assert(rules[30].0 == seq!["cabeleireiro"@]);
    assert(!any_keyword(t, rules[30].0));
    assert(rules[31].0 == seq!["restaurante"@, "reserva"@]);
    assert(!any_keyword(t, rules[31].0));
    assert(rules[32].0 == seq!["festa"@]);
    assert(!any_keyword(t, rules[32].0));
    assert forall|j: int| 0 <= j < 33 implies !any_keyword(t, #[trigger] rules[j].0) by {
        if j == 0 {  } else if j == 1 {  } else if j == 2 {  } else if j == 3 {  } else if j == 4 {  } else if j == 5 {  } else if j == 6 {  } else if j == 7 {  } else if j == 8 {  } else if j == 9 {  } else if j == 10 {  } else if j == 11 {  } else if j == 12 {  } else if j == 13 {  } else if j == 14 {  } else if j == 15 {  } else if j == 16 {  } else if j == 17 {  } else if j == 18 {  } else if j == 19 {  } else if j == 20 {  } else if j == 21 {  } else if j == 22 {  } else if j == 23 {  } else if j == 24 {  } else if j == 25 {  } else if j == 26 {  } else if j == 27 {  } else if j == 28 {  } else if j == 29 {  } else if j == 30 {  } else if j == 31 {  } else if j == 32 {  }
    }
    assert(rules[33] == (seq!["passaporte"@], "Documentos"@, "Passaporte"@));
    assert(any_keyword(t, rules[33].0)) by {
        if contains(t, "passaporte"@) { assert(rules[33].0[0] == "passaporte"@); }
    }
    lemma_first_rule_at(t, rules, 33);
    let table = spec_star_table();
    reveal_strlit("Passaporte");
    assert(table[0].0 == "Consultas"@);
    reveal_strlit("Consultas");
    assert(table[1].0 == "Exames"@);
    reveal_strlit("Exames");
    assert(table[2].0 == "Veterinário/Petshop (Consultas/Exames/Banhos/Tosas)"@);
    reveal_strlit("Veterinário/Petshop (Consultas/Exames/Banhos/Tosas)");
    assert(table[3].0 == "Vacinas"@);
    reveal_strlit("Vacinas");
    assert(table[4].0 == "Manicure"@);
    reveal_strlit("Manicure");
    assert(table[5].0 == "Cabeleleiro"@);
    reveal_strlit("Cabeleleiro");
    assert(table[6].0 == "Shopper"@);
    reveal_strlit("Shopper");
    assert(table[7].0 == "Mercados"@);
    reveal_strlit("Mercados");
    assert(table[8].0 == "Presentes"@);
    reveal_strlit("Presentes");
    assert(table[9].0 == "Petshop"@);
    reveal_strlit("Petshop");
    assert(table[10].0 == "Papelaria"@);
    reveal_strlit("Papelaria");
    assert(table[11].0 == "Farmácia"@);
    reveal_strlit("Farmácia");
    assert(table[12].0 == "Ingressos"@);
    reveal_strlit("Ingressos");
    assert(table[13].0 == "Móveis e Eletros"@);
    reveal_strlit("Móveis e Eletros");
    assert(table[14].0 == "Itens pessoais e da casa"@);
    reveal_strlit("Itens pessoais e da casa");
    assert(table[15].0 == "CIN"@);
    reveal_strlit("CIN");
    assert(table[16].0 == "Certificado Digital"@);
    reveal_strlit("Certificado Digital");
    assert(table[17].0 == "Documento de Vacinação (BR/Iternacional)"@);
    reveal_strlit("Documento de Vacinação (BR/Iternacional)");
    assert(table[18].0 == "Seguros Carro/Casa/Viagem (anual)"@);
    reveal_strlit("Seguros Carro/Casa/Viagem (anual)");
    assert(table[19].0 == "Assinatura Digital"@);
    reveal_strlit("Assinatura Digital");
    assert(table[20].0 == "Contratos/Procurações"@);
    reveal_strlit("Contratos/Procurações");
    assert(table[21].0 == "Cidadanias"@);
    reveal_strlit("Cidadanias");
    assert("Cidadanias"@[0] != "Passaporte"@[0]);
    assert(table[22].0 == "Vistos e Vistos Eletrônicos"@);
    reveal_strlit("Vistos e Vistos Eletrônicos");
    assert(table[23] == ("Passaporte"@, 1u8));
    assert forall|j: int| 0 <= j < 23 implies (#[trigger] table[j]).0 != "Passaporte"@ by {
        if j == 0 {  } else if j == 1 {  } else if j == 2 {  } else if j == 3 {  } else if j == 4 {  } else if j == 5 {  } else if j == 6 {  } else if j == 7 {  } else if j == 8 {  } else if j == 9 {  } else if j == 10 {  } else if j == 11 {  } else if j == 12 {  } else if j == 13 {  } else if j == 14 {  } else if j == 15 {  } else if j == 16 {  } else if j == 17 {  } else if j == 18 {  } else if j == 19 {  } else if j == 20 {  } else if j == 21 {  } else if j == 22 {  }
    }
    lemma_star_at(table, "Passaporte"@, 23);
}

#[verifier::spinoff_prover]
/// A text that contains "cnh", and no keyword of an earlier rule, is categorised as "Documentos" / "CNH" with 1 star.
pub proof fn law_keyword_cnh(t: Seq<char>)
    requires
        contains(t, "cnh"@),
        none_of(t, seq!["motoboy"@, "sedex"@, "correio"@, "lalamove"@, "uber"@, "99"@, "taxista"@, "entrega"@, "retirada"@, "reembolso"@, "bradesco saúde"@, "plano de saúde"@, "mercado"@, "farmácia"@, "presente"@, "shopper"@, "papelaria"@, "petshop"@, "ingresso"@, "troca"@, "internet"@, "telefone"@, "conserto"@, "assistência"@, "pagamento"@, "boleto"@, "nota fiscal"@, "passagem"@, "hospedagem"@, "hotel"@, "check in"@, "bagagem"@, "consulta"@, "exame"@, "vacina"@, "manicure"@, "cabeleireiro"@, "restaurante"@, "reserva"@, "festa"@, "passaporte"@]),
    ensures
        categorize_lowered_spec(t) == Some(("Documentos"@, "CNH"@, 1u8)),
{
    let rules = spec_rules();
    let prefix = seq!["motoboy"@, "sedex"@, "correio"@, "lalamove"@, "uber"@, "99"@, "taxista"@, "entrega"@, "retirada"@, "reembolso"@, "bradesco saúde"@, "plano de saúde"@, "mercado"@, "farmácia"@, "presente"@, "shopper"@, "papelaria"@, "petshop"@, "ingresso"@, "troca"@, "internet"@, "telefone"@, "conserto"@, "assistência"@, "pagamento"@, "boleto"@, "nota fiscal"@, "passagem"@, "hospedagem"@, "hotel"@, "check in"@, "bagagem"@, "consulta"@, "exame"@, "vacina"@, "manicure"@, "cabeleireiro"@, "restaurante"@, "reserva"@, "festa"@, "passaporte"@];
    assert(prefix[0] == "motoboy"@);
    assert(prefix[1] == "sedex"@);
    assert(prefix[2] == "correio"@);
    assert(prefix[3] == "lalamove"@);
    assert(prefix[4] == "uber"@);
    assert(prefix[5] == "99"@);
    assert(prefix[6] == "taxista"@);
    assert(prefix[7] == "entrega"@);
    assert(prefix[8] == "retirada"@);
    assert(prefix[9] == "reembolso"@);
    assert(prefix[10] == "bradesco saúde"@);
    assert(prefix[11] == "plano de saúde"@);
    assert(prefix[12] == "mercado"@);
    assert(prefix[13] == "farmácia"@);
    assert(prefix[14] == "presente"@);
    assert(prefix[15] == "shopper"@);
    assert(prefix[16] == "papelaria"@);
    assert(prefix[17] == "petshop"@);
    assert(prefix[18] == "ingresso"@);
    assert(prefix[19] == "troca"@);
    assert(prefix[20] == "internet"@);
    assert(prefix[21] == "telefone"@);
    assert(prefix[22] == "conserto"@);
    assert(prefix[23] == "assistência"@);
    assert(prefix[24] == "pagamento"@);
    assert(prefix[25] == "boleto"@);
    assert(prefix[26] == "nota fiscal"@);
    assert(prefix[27] == "passagem"@);
    assert(prefix[28] == "hospedagem"@);
    assert(prefix[29] == "hotel"@);
    assert(prefix[30] == "check in"@);
    assert(prefix[31] == "bagagem"@);
    assert(prefix[32] == "consulta"@);
    assert(prefix[33] == "exame"@);
    assert(prefix[34] == "vacina"@);
    assert(prefix[35] == "manicure"@);
    assert(prefix[36] == "cabeleireiro"@);
    assert(prefix[37] == "restaurante"@);
    assert(prefix[38] == "reserva"@);
    assert(prefix[39] == "festa"@);
    assert(prefix[40] == "passaporte"@);
    assert(rules[0].0 == seq!["motoboy"@]);
    assert(!any_keyword(t, rules[0].0));
    assert(rules[1].0 == seq!["sedex"@, "correio"@]);
    assert(!any_keyword(t, rules[1].0));
    assert(rules[2].0 == seq!["lalamove"@]);
    assert(!any_keyword(t, rules[2].0));
    assert(rules[3].0 == seq!["uber"@, "99"@]);
    assert(!any_keyword(t, rules[3].0));
    assert(rules[4].0 == seq!["taxista"@]);
    assert(!any_keyword(t, rules[4].0));
    assert(rules[5].0 == seq!["entrega"@, "retirada"@]);
    assert(!any_keyword(t, rules[5].0));
    assert(rules[6].0 == seq!["reembolso"@, "bradesco saúde"@, "plano de saúde"@]);
    assert(!any_keyword(t, rules[6].0));
    assert(rules[7].0 == seq!["mercado"@]);
    assert(!any_keyword(t, rules[7].0));
    assert(rules[8].0 == seq!["farmácia"@]);
    assert(!any_keyword(t, rules[8].0));
    assert(rules[9].0 == seq!["presente"@]);
    assert(!any_keyword(t, rules[9].0));
    assert(rules[10].0 == seq!["shopper"@]);
    assert(!any_keyword(t, rules[10].0));
    assert(rules[11].0 == seq!["papelaria"@]);
    assert(!any_keyword(t, rules[11].0));
    assert(rules[12].0 == seq!["petshop"@]);
    assert(!any_keyword(t, rules[12].0));
    assert(rules[13].0 == seq!["ingresso"@]);
    assert(!any_keyword(t, rules[13].0));
    assert(rules[14].0 == seq!["troca"@]);
    assert(!any_keyword(t, rules[14].0));
    assert(rules[15].0 == seq!["internet"@]);
    assert(!any_keyword(t, rules[15].0));
    assert(rules[16].0 == seq!["telefone"@]);
    assert(!any_keyword(t, rules[16].0));
    assert(rules[17].0 == seq!["conserto"@]);
    assert(!any_keyword(t, rules[17].0));
    assert(rules[18].0 == seq!["assistência"@]);
    assert(!any_keyword(t, rules[18].0));
    assert(rules[19].0 == seq!["pagamento"@]);
    assert(!any_keyword(t, rules[19].0));
    assert(rules[20].0 == seq!["boleto"@]);
    assert(!any_keyword(t, rules[20].0));
    assert(rules[21].0 == seq!["nota fiscal"@]);
    assert(!any_keyword(t, rules[21].0));
    assert(rules[22].0 == seq!["passagem"@]);
    assert(!any_keyword(t, rules[22].0));
    assert(rules[23].0 == seq!["hospedagem"@, "hotel"@]);
    assert(!any_keyword(t, rules[23].0));
    assert(rules[24].0 == seq!["check in"@]);
    assert(!any_keyword(t, rules[24].0));
    assert(rules[25].0 == seq!["bagagem"@]);
    assert(!any_keyword(t, rules[25].0));
    assert(rules[26].0 == seq!["consulta"@]);
    assert(!any_keyword(t, rules[26].0));
    assert(rules[27].0 == seq!["exame"@]);
    assert(!any_keyword(t, rules[27].0));
    assert(rules[28].0 == seq!["vacina"@]);
    assert(!any_keyword(t, rules[28].0));
    assert(rules[29].0 == seq!["manicure"@]);
    assert(!any_keyword(t, rules[29].0));
    assert(rules[30].0 == seq!["cabeleireiro"@]);
    assert(!any_keyword(t, rules[30].0));
    assert(rules[31].0 == seq!["restaurante"@, "reserva"@]);
    assert(!any_keyword(t, rules[31].0));
    assert(rules[32].0 == seq!["festa"@]);
    assert(!any_keyword(t, rules[32].0));
    assert(rules[33].0 == seq!["passaporte"@]);
    assert(!any_keyword(t, rules[33].0));
    assert forall|j: int| 0 <= j < 34 implies !any_keyword(t, #[trigger] rules[j].0) by {
        if j == 0 {  } else if j == 1 {  } else if j == 2 {  } else if j == 3 {  } else if j == 4 {  } else if j == 5 {  } else if j == 6 {  } else if j == 7 {  } else if j == 8 {  } else if j == 9 {  } else if j == 10 {  } else if j == 11 {  } else if j == 12 {  } else if j == 13 {  } else if j == 14 {  } else if j == 15 {  } else if j == 16 {  } else if j == 17 {  } else if j == 18 {  } else if j == 19 {  } else if j == 20 {  } else if j == 21 {  } else if j == 22 {  } else if j == 23 {  } else if j == 24 {  } else if j == 25 {  } else if j == 26 {  } else if j == 27 {  } else if j == 28 {  } else if j == 29 {  } else if j == 30 {  } else if j == 31 {  } else if j == 32 {  } else if j == 33 {  }
    }
    assert(rules[34] == (seq!["cnh"@], "Documentos"@, "CNH"@));
    assert(any_keyword(t, rules[34].0)) by {
        if contains(t, "cnh"@) { assert(rules[34].0[0] == "cnh"@); }
    }
    lemma_first_rule_at(t, rules, 34);
    let table = spec_star_table();
    reveal_strlit("CNH");
    assert(table[0].0 == "Consultas"@);
    reveal_strlit("Consultas");
    assert(table[1].0 == "Exames"@);
    reveal_strlit("Exames");
    assert(table[2].0 == "Veterinário/Petshop (Consultas/Exames/Banhos/Tosas)"@);
    reveal_strlit("Veterinário/Petshop (Consultas/Exames/Banhos/Tosas)");
    assert(table[3].0 == "Vacinas"@);
    reveal_strlit("Vacinas");
    assert(table[4].0 == "Manicure"@);
    reveal_strlit("Manicure");
    assert(table[5].0 == "Cabeleleiro"@);
    reveal_strlit("Cabeleleiro");
    assert(table[6].0 == "Shopper"@);
    reveal_strlit("Shopper");
    assert(table[7].0 == "Mercados"@);
    reveal_strlit("Mercados");
    assert(table[8].0 == "Presentes"@);
    reveal_strlit("Presentes");
    assert(table[9].0 == "Petshop"@);
    reveal_strlit("Petshop");
    assert(table[10].0 == "Papelaria"@);
    reveal_strlit("Papelaria");
    assert(table[11].0 == "Farmácia"@);
    reveal_strlit("Farmácia");
    assert(table[12].0 == "Ingressos"@);
    reveal_strlit("Ingressos");
    assert(table[13].0 == "Móveis e Eletros"@);
    reveal_strlit("Móveis e Eletros");
    assert(table[14].0 == "Itens pessoais e da casa"@);
    reveal_strlit("Itens pessoais e da casa");
    assert(table[15].0 == "CIN"@);
    reveal_strlit("CIN");
    assert("CIN"@[1] != "CNH"@[1]);
    assert(table[16].0 == "Certificado Digital"@);
    reveal_strlit("Certificado Digital");
    assert(table[17].0 == "Documento de Vacinação (BR/Iternacional)"@);
    reveal_strlit("Documento de Vacinação (BR/Iternacional)");
    assert(table[18].0 == "Seguros Carro/Casa/Viagem (anual)"@);
    reveal_strlit("Seguros Carro/Casa/Viagem (anual)");
    assert(table[19].0 == "Assinatura Digital"@);
    reveal_strlit("Assinatura Digital");
    assert(table[20].0 == "Contratos/Procurações"@);
    reveal_strlit("Contratos/Procurações");
    assert(table[21].0 == "Cidadanias"@);
    reveal_strlit("Cidadanias");
    assert(table[22].0 == "Vistos e Vistos Eletrônicos"@);
    reveal_strlit("Vistos e Vistos Eletrônicos");
    assert(table[23].0 == "Passaporte"@);
    reveal_strlit("Passaporte");
    assert(table[24] == ("CNH"@, 1u8));
    assert forall|j: int| 0 <= j < 24 implies (#[trigger] table[j]).0 != "CNH"@ by {
        if j == 0 {  } else if j == 1 {  } else if j == 2 {  } else if j == 3 {  } else if j == 4 {  } else if j == 5 {  } else if j == 6 {  } else if j == 7 {  } else if j == 8 {  } else if j == 9 {  } else if j == 10 {  } else if j == 11 {  } else if j == 12 {  } else if j == 13 {  } else if j == 14 {  } else if j == 15 {  } else if j == 16 {  } else if j == 17 {  } else if j == 18 {  } else if j == 19 {  } else if j == 20 {  } else if j == 21 {  } else if j == 22 {  } else if j == 23 {  }
    }
    lemma_star_at(table, "CNH"@, 24);
}

#[verifier::spinoff_prover]
/// A text that contains "cidadania", and no keyword of an earlier rule, is categorised as "Documentos" / "Cidadanias" with 4 stars.
pub proof fn law_keyword_cidadania(t: Seq<char>)
    requires
        contains(t, "cidadania"@),
        none_of(t, seq!["motoboy"@, "sedex"@, "correio"@, "lalamove"@, "uber"@, "99"@, "taxista"@, "entrega"@, "retirada"@, "reembolso"@, "bradesco saúde"@, "plano de saúde"@, "mercado"@, "farmácia"@, "presente"@, "shopper"@, "papelaria"@, "petshop"@, "ingresso"@, "troca"@, "internet"@, "telefone"@, "conserto"@, "assistência"@, "pagamento"@, "boleto"@, "nota fiscal"@, "passagem"@, "hospedagem"@, "hotel"@, "check in"@, "bagagem"@, "consulta"@, "exame"@, "vacina"@, "manicure"@, "cabeleireiro"@, "restaurante"@, "reserva"@, "festa"@, "passaporte"@, "cnh"@]),
    ensures
        categorize_lowered_spec(t) == Some(("Documentos"@, "Cidadanias"@, 4u8)),
{
    let rules = spec_rules();
    let prefix = seq!["motoboy"@, "sedex"@, "correio"@, "lalamove"@, "uber"@, "99"@, "taxista"@, "entrega"@, "retirada"@, "reembolso"@, "bradesco saúde"@, "plano de saúde"@, "mercado"@, "farmácia"@, "presente"@, "shopper"@, "papelaria"@, "petshop"@, "ingresso"@, "troca"@, "internet"@, "telefone"@, "conserto"@, "assistência"@, "pagamento"@, "boleto"@, "nota fiscal"@, "passagem"@, "hospedagem"@, "hotel"@, "check in"@, "bagagem"@, "consulta"@, "exame"@, "vacina"@, "manicure"@, "cabeleireiro"@, "restaurante"@, "reserva"@, "festa"@, "passaporte"@, "cnh"@];
    assert(prefix[0] == "motoboy"@);
    assert(prefix[1] == "sedex"@);
    assert(prefix[2] == "correio"@);
    assert(prefix[3] == "lalamove"@);
    assert(prefix[4] == "uber"@);
    assert(prefix[5] == "99"@);
    assert(prefix[6] == "taxista"@);
    assert(prefix[7] == "entrega"@);
    assert(prefix[8] == "retirada"@);
    assert(prefix[9] == "reembolso"@);
    assert(prefix[10] == "bradesco saúde"@);
    assert(prefix[11] == "plano de saúde"@);
    assert(prefix[12] == "mercado"@);
    assert(prefix[13] == "farmácia"@);
    assert(prefix[14] == "presente"@);
    assert(prefix[15] == "shopper"@);
    assert(prefix[16] == "papelaria"@);
    assert(prefix[17] == "petshop"@);
    assert(prefix[18] == "ingresso"@);
    assert(prefix[19] == "troca"@);
    assert(prefix[20] == "internet"@);
    assert(prefix[21] == "telefone"@);
    assert(prefix[22] == "conserto"@);
    assert(prefix[23] == "assistência"@);
    assert(prefix[24] == "pagamento"@);
    assert(prefix[25] == "boleto"@);
    assert(prefix[26] == "nota fiscal"@);
    assert(prefix[27] == "passagem"@);
    assert(prefix[28] == "hospedagem"@);
    assert(prefix[29] == "hotel"@);
    assert(prefix[30] == "check in"@);
    assert(prefix[31] == "bagagem"@);
    assert(prefix[32] == "consulta"@);
    assert(prefix[33] == "exame"@);
    assert(prefix[34] == "vacina"@);
    assert(prefix[35] == "manicure"@);
    assert(prefix[36] == "cabeleireiro"@);
    assert(prefix[37] == "restaurante"@);
    assert(prefix[38] == "reserva"@);
    assert(prefix[39] == "festa"@);
    assert(prefix[40] == "passaporte"@);
    assert(prefix[41] == "cnh"@);
    assert(rules[0].0 == seq!["motoboy"@]);
    assert(!any_keyword(t, rules[0].0));
    assert(rules[1].0 == seq!["sedex"@, "correio"@]);
    assert(!any_keyword(t, rules[1].0));
    assert(rules[2].0 == seq!["lalamove"@]);
    assert(!any_keyword(t, rules[2].0));
    assert(rules[3].0 == seq!["uber"@, "99"@]);
    assert(!any_keyword(t, rules[3].0));
    assert(rules[4].0 == seq!["taxista"@]);
    assert(!any_keyword(t, rules[4].0));
    assert(rules[5].0 == seq!["entrega"@, "retirada"@]);
    assert(!any_keyword(t, rules[5].0));
    assert(rules[6].0 == seq!["reembolso"@, "bradesco saúde"@, "plano de saúde"@]);
    assert(!any_keyword(t, rules[6].0));
    assert(rules[7].0 == seq!["mercado"@]);
    assert(!any_keyword(t, rules[7].0));
    assert(rules[8].0 == seq!["farmácia"@]);
    assert(!any_keyword(t, rules[8].0));
    assert(rules[9].0 == seq!["presente"@]);
    assert(!any_keyword(t, rules[9].0));
    assert(rules[10].0 == seq!["shopper"@]);
    assert(!any_keyword(t, rules[10].0));
    assert(rules[11].0 == seq!["papelaria"@]);
    assert(!any_keyword(t, rules[11].0));
    assert(rules[12].0 == seq!["petshop"@]);
    assert(!any_keyword(t, rules[12].0));
    assert(rules[13].0 == seq!["ingresso"@]);
    assert(!any_keyword(t, rules[13].0));
    assert(rules[14].0 == seq!["troca"@]);
    assert(!any_keyword(t, rules[14].0));
    assert(rules[15].0 == seq!["internet"@]);
    assert(!any_keyword(t, rules[15].0));
    assert(rules[16].0 == seq!["telefone"@]);
    assert(!any_keyword(t, rules[16].0));
    assert(rules[17].0 == seq!["conserto"@]);
    assert(!any_keyword(t, rules[17].0));
    assert(rules[18].0 == seq!["assistência"@]);
    assert(!any_keyword(t, rules[18].0));
    assert(rules[19].0 == seq!["pagamento"@]);
    assert(!any_keyword(t, rules[19].0));
    assert(rules[20].0 == seq!["boleto"@]);
    assert(!any_keyword(t, rules[20].0));
    assert(rules[21].0 == seq!["nota fiscal"@]);
    assert(!any_keyword(t, rules[21].0));
    assert(rules[22].0 == seq!["passagem"@]);
    assert(!any_keyword(t, rules[22].0));
    assert(rules[23].0 == seq!["hospedagem"@, "hotel"@]);
    assert(!any_keyword(t, rules[23].0));
    assert(rules[24].0 == seq!["check in"@]);
    assert(!any_keyword(t, rules[24].0));
    assert(rules[25].0 == seq!["bagagem"@]);
    assert(!any_keyword(t, rules[25].0));
    assert(rules[26].0 == seq!["consulta"@]);
    assert(!any_keyword(t, rules[26].0));
    assert(rules[27].0 == seq!["exame"@]);
    assert(!any_keyword(t, rules[27].0));
    assert(rules[28].0 == seq!["vacina"@]);
    assert(!any_keyword(t, rules[28].0));
    assert(rules[29].0 == seq!["manicure"@]);
    assert(!any_keyword(t, rules[29].0));
    assert(rules[30].0 == seq!["cabeleireiro"@]);
    assert(!any_keyword(t, rules[30].0));
    assert(rules[31].0 == seq!["restaurante"@, "reserva"@]);
    assert(!any_keyword(t, rules[31].0));
    assert(rules[32].0 == seq!["festa"@]);
    assert(!any_keyword(t, rules[32].0));
    assert(rules[33].0 == seq!["passaporte"@]);
    assert(!any_keyword(t, rules[33].0));
    assert(rules[34].0 == seq!["cnh"@]);
    assert(!any_keyword(t, rules[34].0));
    assert forall|j: int| 0 <= j < 35 implies !any_keyword(t, #[trigger] rules[j].0) by {
        if j == 0 {  } else if j == 1 {  } else if j == 2 {  } else if j == 3 {  } else if j == 4 {  } else if j == 5 {  } else if j == 6 {  } else if j == 7 {  } else if j == 8 {  } else if j == 9 {  } else if j == 10 {  } else if j == 11 {  } else if j == 12 {  } else if j == 13 {  } else if j == 14 {  } else if j == 15 {  } else if j == 16 {  } else if j == 17 {  } else if j == 18 {  } else if j == 19 {  } else if j == 20 {  } else if j == 21 {  } else if j == 22 {  } else if j == 23 {  } else if j == 24 {  } else if j == 25 {  } else if j == 26 {  } else if j == 27 {  } else if j == 28 {  } else if j == 29 {  } else if j == 30 {  } else if j == 31 {  } else if j == 32 {  } else if j == 33 {  } else if j == 34 {  }
    }
    assert(rules[35] == (seq!["cidadania"@], "Documentos"@, "Cidadanias"@));
    assert(any_keyword(t, rules[35].0)) by {
        if contains(t, "cidadania"@) { assert(rules[35].0[0] == "cidadania"@); }
    }
    lemma_first_rule_at(t, rules, 35);
    let table = spec_star_table();
    reveal_strlit("Cidadanias");
    assert(table[0].0 == "Consultas"@);
    reveal_strlit("Consultas");
    assert(table[1].0 == "Exames"@);
    reveal_strlit("Exames");
    assert(table[2].0 == "Veterinário/Petshop (Consultas/Exames/Banhos/Tosas)"@);
    reveal_strlit("Veterinário/Petshop (Consultas/Exames/Banhos/Tosas)");
    assert(table[3].0 == "Vacinas"@);
    reveal_strlit("Vacinas");
    assert(table[4].0 == "Manicure"@);
    reveal_strlit("Manicure");
    assert(table[5].0 == "Cabeleleiro"@);
    reveal_strlit("Cabeleleiro");
    assert(table[6].0 == "Shopper"@);
    reveal_strlit("Shopper");
    assert(table[7].0 == "Mercados"@);
    reveal_strlit("Mercados");
    assert(table[8].0 == "Presentes"@);
    reveal_strlit("Presentes");
    assert(table[9].0 == "Petshop"@);
    reveal_strlit("Petshop");
    assert(table[10].0 == "Papelaria"@);
    reveal_strlit("Papelaria");
    assert(table[11].0 == "Farmácia"@);
    reveal_strlit("Farmácia");
    assert(table[12].0 == "Ingressos"@);
    reveal_strlit("Ingressos");
    assert(table[13].0 == "Móveis e Eletros"@);
    reveal_strlit("Móveis e Eletros");
    assert(table[14].0 == "Itens pessoais e da casa"@);
    reveal_strlit("Itens pessoais e da casa");
    assert(table[15].0 == "CIN"@);
    reveal_strlit("CIN");
    assert(table[16].0 == "Certificado Digital"@);
    reveal_strlit("Certificado Digital");
    assert(table[17].0 == "Documento de Vacinação (BR/Iternacional)"@);
    reveal_strlit("Documento de Vacinação (BR/Iternacional)");
    assert(table[18].0 == "Seguros Carro/Casa/Viagem (anual)"@);
    reveal_strlit("Seguros Carro/Casa/Viagem (anual)");
    assert(table[19].0 == "Assinatura Digital"@);
    reveal_strlit("Assinatura Digital");
    assert(table[20].0 == "Contratos/Procurações"@);
    reveal_strlit("Contratos/Procurações");
    assert(table[21] == ("Cidadanias"@, 4u8));
    assert forall|j: int| 0 <= j < 21 implies (#[trigger] table[j]).0 != "Cidadanias"@ by {
        if j == 0 {  } else if j == 1 {  } else if j == 2 {  } else if j == 3 {  } else if j == 4 {  } else if j == 5 {  } else if j == 6 {  } else if j == 7 {  } else if j == 8 {  } else if j == 9 {  } else if j == 10 {  } else if j == 11 {  } else if j == 12 {  } else if j == 13 {  } else if j == 14 {  } else if j == 15 {  } else if j == 16 {  } else if j == 17 {  } else if j == 18 {  } else if j == 19 {  } else if j == 20 {  }
    }
    lemma_star_at(table, "Cidadanias"@, 21);
}

#[verifier::spinoff_prover]
/// A text that contains "visto", and no keyword of an earlier rule, is categorised as "Documentos" / "Vistos e Vistos Eletrônicos" with 2 stars.
pub proof fn law_keyword_visto(t: Seq<char>)
    requires
        contains(t, "visto"@),
        none_of(t, seq!["motoboy"@, "sedex"@, "correio"@, "lalamove"@, "uber"@, "99"@, "taxista"@, "entrega"@, "retirada"@, "reembolso"@, "bradesco saúde"@, "plano de saúde"@, "mercado"@, "farmácia"@, "presente"@, "shopper"@, "papelaria"@, "petshop"@, "ingresso"@, "troca"@, "internet"@, "telefone"@, "conserto"@, "assistência"@, "pagamento"@, "boleto"@, "nota fiscal"@, "passagem"@, "hospedagem"@, "hotel"@, "check in"@, "bagagem"@, "consulta"@, "exame"@, "vacina"@, "manicure"@, "cabeleireiro"@, "restaurante"@, "reserva"@, "festa"@, "passaporte"@, "cnh"@, "cidadania"@]),
    ensures
        categorize_lowered_spec(t) == Some(("Documentos"@, "Vistos e Vistos Eletrônicos"@, 2u8)),
{
    let rules = spec_rules();
    let prefix = seq!["motoboy"@, "sedex"@, "correio"@, "lalamove"@, "uber"@, "99"@, "taxista"@, "entrega"@, "retirada"@, "reembolso"@, "bradesco saúde"@, "plano de saúde"@, "mercado"@, "farmácia"@, "presente"@, "shopper"@, "papelaria"@, "petshop"@, "ingresso"@, "troca"@, "internet"@, "telefone"@, "conserto"@, "assistência"@, "pagamento"@, "boleto"@, "nota fiscal"@, "passagem"@, "hospedagem"@, "hotel"@, "check in"@, "bagagem"@, "consulta"@, "exame"@, "vacina"@, "manicure"@, "cabeleireiro"@, "restaurante"@, "reserva"@, "festa"@, "passaporte"@, "cnh"@, "cidadania"@];
    assert(prefix[0] == "motoboy"@);
    assert(prefix[1] == "sedex"@);
    assert(prefix[2] == "correio"@);
    assert(prefix[3] == "lalamove"@);
    assert(prefix[4] == "uber"@);
    assert(prefix[5] == "99"@);
    assert(prefix[6] == "taxista"@);
    assert(prefix[7] == "entrega"@);
    assert(prefix[8] == "retirada"@);
    assert(prefix[9] == "reembolso"@);
    assert(prefix[10] == "bradesco saúde"@);
    assert(prefix[11] == "plano de saúde"@);
    assert(prefix[12] == "mercado"@);
    assert(prefix[13] == "farmácia"@);
    assert(prefix[14] == "presente"@);
    assert(prefix[15] == "shopper"@);
    assert(prefix[16] == "papelaria"@);
    assert(prefix[17] == "petshop"@);
    assert(prefix[18] == "ingresso"@);
    assert(prefix[19] == "troca"@);
    assert(prefix[20] == "internet"@);
    assert(prefix[21] == "telefone"@);
    assert(prefix[22] == "conserto"@);
    assert(prefix[23] == "assistência"@);
    assert(prefix[24] == "pagamento"@);
    assert(prefix[25] == "boleto"@);
    assert(prefix[26] == "nota fiscal"@);
    assert(prefix[27] == "passagem"@);
    assert(prefix[28] == "hospedagem"@);
    assert(prefix[29] == "hotel"@);
    assert(prefix[30] == "check in"@);
    assert(prefix[31] == "bagagem"@);
    assert(prefix[32] == "consulta"@);
    assert(prefix[33] == "exame"@);
    assert(prefix[34] == "vacina"@);
    assert(prefix[35] == "manicure"@);
    assert(prefix[36] == "cabeleireiro"@);
    assert(prefix[37] == "restaurante"@);
    assert(prefix[38] == "reserva"@);
    assert(prefix[39] == "festa"@);
    assert(prefix[40] == "passaporte"@);
    assert(prefix[41] == "cnh"@);
    assert(prefix[42] == "cidadania"@);
    assert(rules[0].0 == seq!["motoboy"@]);
    assert(!any_keyword(t, rules[0].0));
    assert(rules[1].0 == seq!["sedex"@, "correio"@]);
    assert(!any_keyword(t, rules[1].0));
    assert(rules[2].0 == seq!["lalamove"@]);
    assert(!any_keyword(t, rules[2].0));
    assert(rules[3].0 == seq!["uber"@, "99"@]);
    assert(!any_keyword(t, rules[3].0));
    assert(rules[4].0 == seq!["taxista"@]);
    assert(!any_keyword(t, rules[4].0));
    assert(rules[5].0 == seq!["entrega"@, "retirada"@]);
    assert(!any_keyword(t, rules[5].0));
    assert(rules[6].0 == seq!["reembolso"@, "bradesco saúde"@, "plano de saúde"@]);
    assert(!any_keyword(t, rules[6].0));
    assert(rules[7].0 == seq!["mercado"@]);
    assert(!any_keyword(t, rules[7].0));
    assert(rules[8].0 == seq!["farmácia"@]);
    assert(!any_keyword(t, rules[8].0));
    assert(rules[9].0 == seq!["presente"@]);
    assert(!any_keyword(t, rules[9].0));
    assert(rules[10].0 == seq!["shopper"@]);
    assert(!any_keyword(t, rules[10].0));
    assert(rules[11].0 == seq!["papelaria"@]);
    assert(!any_keyword(t, rules[11].0));
    assert(rules[12].0 == seq!["petshop"@]);
    assert(!any_keyword(t, rules[12].0));
    assert(rules[13].0 == seq!["ingresso"@]);
    assert(!any_keyword(t, rules[13].0));
    assert(rules[14].0 == seq!["troca"@]);
    assert(!any_keyword(t, rules[14].0));
    assert(rules[15].0 == seq!["internet"@]);
    assert(!any_keyword(t, rules[15].0));
    assert(rules[16].0 == seq!["telefone"@]);
    assert(!any_keyword(t, rules[16].0));
    assert(rules[17].0 == seq!["conserto"@]);
    assert(!any_keyword(t, rules[17].0));
    assert(rules[18].0 == seq!["assistência"@]);
    assert(!any_keyword(t, rules[18].0));
    assert(rules[19].0 == seq!["pagamento"@]);
    assert(!any_keyword(t, rules[19].0));
    assert(rules[20].0 == seq!["boleto"@]);
    assert(!any_keyword(t, rules[20].0));
    assert(rules[21].0 == seq!["nota fiscal"@]);
    assert(!any_keyword(t, rules[21].0));
    assert(rules[22].0 == seq!["passagem"@]);
    assert(!any_keyword(t, rules[22].0));
    assert(rules[23].0 == seq!["hospedagem"@, "hotel"@]);
    assert(!any_keyword(t, rules[23].0));
    assert(rules[24].0 == seq!["check in"@]);
    assert(!any_keyword(t, rules[24].0));
    assert(rules[25].0 == seq!["bagagem"@]);
    assert(!any_keyword(t, rules[25].0));
    assert(rules[26].0 == seq!["consulta"@]);
    assert(!any_keyword(t, rules[26].0));
    assert(rules[27].0 == seq!["exame"@]);
    assert(!any_keyword(t, rules[27].0));
    assert(rules[28].0 == seq!["vacina"@]);
    assert(!any_keyword(t, rules[28].0));
    assert(rules[29].0 == seq!["manicure"@]);
    assert(!any_keyword(t, rules[29].0));
    assert(rules[30].0 == seq!["cabeleireiro"@]);
    assert(!any_keyword(t, rules[30].0));
    assert(rules[31].0 == seq!["restaurante"@, "reserva"@]);
    assert(!any_keyword(t, rules[31].0));
    assert(rules[32].0 == seq!["festa"@]);
    assert(!any_keyword(t, rules[32].0));
    assert(rules[33].0 == seq!["passaporte"@]);
    assert(!any_keyword(t, rules[33].0));
    assert(rules[34].0 == seq!["cnh"@]);
    assert(!any_keyword(t, rules[34].0));
    assert(rules[35].0 == seq!["cidadania"@]);
    assert(!any_keyword(t, rules[35].0));
    assert forall|j: int| 0 <= j < 36 implies !any_keyword(t, #[trigger] rules[j].0) by {
        if j == 0 {  } else if j == 1 {  } else if j == 2 {  } else if j == 3 {  } else if j == 4 {  } else if j == 5 {  } else if j == 6 {  } else if j == 7 {  } else if j == 8 {  } else if j == 9 {  } else if j == 10 {  } else if j == 11 {  } else if j == 12 {  } else if j == 13 {  } else if j == 14 {  } else if j == 15 {  } else if j == 16 {  } else if j == 17 {  } else if j == 18 {  } else if j == 19 {  } else if j == 20 {  } else if j == 21 {  } else if j == 22 {  } else if j == 23 {  } else if j == 24 {  } else if j == 25 {  } else if j == 26 {  } else if j == 27 {  } else if j == 28 {  } else if j == 29 {  } else if j == 30 {  } else if j == 31 {  } else if j == 32 {  } else if j == 33 {  } else if j == 34 {  } else if j == 35 {  }
    }
    assert(rules[36] == (seq!["visto"@], "Documentos"@, "Vistos e Vistos Eletrônicos"@));
    assert(any_keyword(t, rules[36].0)) by {
        if contains(t, "visto"@) { assert(rules[36].0[0] == "visto"@); }
    }
    lemma_first_rule_at(t, rules, 36);
    let table = spec_star_table();
    reveal_strlit("Vistos e Vistos Eletrônicos");
    assert(table[0].0 == "Consultas"@);
    reveal_strlit("Consultas");
    assert(table[1].0 == "Exames"@);
    reveal_strlit("Exames");
    assert(table[2].0 == "Veterinário/Petshop (Consultas/Exames/Banhos/Tosas)"@);
    reveal_strlit("Veterinário/Petshop (Consultas/Exames/Banhos/Tosas)");
    assert(table[3].0 == "Vacinas"@);
    reveal_strlit("Vacinas");
    assert(table[4].0 == "Manicure"@);
    reveal_strlit("Manicure");
    assert(table[5].0 == "Cabeleleiro"@);
    reveal_strlit("Cabeleleiro");
    assert(table[6].0 == "Shopper"@);
    reveal_strlit("Shopper");
    assert(table[7].0 == "Mercados"@);
    reveal_strlit("Mercados");
    assert(table[8].0 == "Presentes"@);
    reveal_strlit("Presentes");
    assert(table[9].0 == "Petshop"@);
    reveal_strlit("Petshop");
    assert(table[10].0 == "Papelaria"@);
    reveal_strlit("Papelaria");
    assert(table[11].0 == "Farmácia"@);
    reveal_strlit("Farmácia");
    assert(table[12].0 == "Ingressos"@);
    reveal_strlit("Ingressos");
    assert(table[13].0 == "Móveis e Eletros"@);
    reveal_strlit("Móveis e Eletros");
    assert(table[14].0 == "Itens pessoais e da casa"@);
    reveal_strlit("Itens pessoais e da casa");
    assert(table[15].0 == "CIN"@);
    reveal_strlit("CIN");
    assert(table[16].0 == "Certificado Digital"@);
    reveal_strlit("Certificado Digital");
    assert(table[17].0 == "Documento de Vacinação (BR/Iternacional)"@);
    reveal_strlit("Documento de Vacinação (BR/Iternacional)");
    assert(table[18].0 == "Seguros Carro/Casa/Viagem (anual)"@);
    reveal_strlit("Seguros Carro/Casa/Viagem (anual)");
    assert(table[19].0 == "Assinatura Digital"@);
    reveal_strlit("Assinatura Digital");
    assert(table[20].0 == "Contratos/Procurações"@);
    reveal_strlit("Contratos/Procurações");
    assert(table[21].0 == "Cidadanias"@);
    reveal_strlit("Cidadanias");
    assert(table[22] == ("Vistos e Vistos Eletrônicos"@, 2u8));
    assert forall|j: int| 0 <= j < 22 implies (#[trigger] table[j]).0 != "Vistos e Vistos Eletrônicos"@ by {
        if j == 0 {  } else if j == 1 {  } else if j == 2 {  } else if j == 3 {  } else if j == 4 {  } else if j == 5 {  } else if j == 6 {  } else if j == 7 {  } else if j == 8 {  } else if j == 9 {  } else if j == 10 {  } else if j == 11 {  } else if j == 12 {  } else if j == 13 {  } else if j == 14 {  } else if j == 15 {  } else if j == 16 {  } else if j == 17 {  } else if j == 18 {  } else if j == 19 {  } else if j == 20 {  } else if j == 21 {  }
    }
    lemma_star_at(table, "Vistos e Vistos Eletrônicos"@, 22);
}

#[verifier::spinoff_prover]
/// A text that contains "certidão", and no keyword of an earlier rule, is categorised as "Documentos" / "Certidões" with 1 star.
pub proof fn law_keyword_certidao(t: Seq<char>)
    requires
        contains(t, "certidão"@),
        none_of(t, seq!["motoboy"@, "sedex"@, "correio"@, "lalamove"@, "uber"@, "99"@, "taxista"@, "entrega"@, "retirada"@, "reembolso"@, "bradesco saúde"@, "plano de saúde"@, "mercado"@, "farmácia"@, "presente"@, "shopper"@, "papelaria"@, "petshop"@, "ingresso"@, "troca"@, "internet"@, "telefone"@, "conserto"@, "assistência"@, "pagamento"@, "boleto"@, "nota fiscal"@, "passagem"@, "hospedagem"@, "hotel"@, "check in"@, "bagagem"@, "consulta"@, "exame"@, "vacina"@, "manicure"@, "cabeleireiro"@, "restaurante"@, "reserva"@, "festa"@, "passaporte"@, "cnh"@, "cidadania"@, "visto"@]),
    ensures
        categorize_lowered_spec(t) == Some(("Documentos"@, "Certidões"@, 1u8)),
{
    let rules = spec_rules();
    let prefix = seq!["motoboy"@, "sedex"@, "correio"@, "lalamove"@, "uber"@, "99"@, "taxista"@, "entrega"@, "retirada"@, "reembolso"@, "bradesco saúde"@, "plano de saúde"@, "mercado"@, "farmácia"@, "presente"@, "shopper"@, "papelaria"@, "petshop"@, "ingresso"@, "troca"@, "internet"@, "telefone"@, "conserto"@, "assistência"@, "pagamento"@, "boleto"@, "nota fiscal"@, "passagem"@, "hospedagem"@, "hotel"@, "check in"@, "bagagem"@, "consulta"@, "exame"@, "vacina"@, "manicure"@, "cabeleireiro"@, "restaurante"@, "reserva"@, "festa"@, "passaporte"@, "cnh"@, "cidadania"@, "visto"@];
    assert(prefix[0] == "motoboy"@);
    assert(prefix[1] == "sedex"@);
    assert(prefix[2] == "correio"@);
    assert(prefix[3] == "lalamove"@);
    assert(prefix[4] == "uber"@);
    assert(prefix[5] == "99"@);
    assert(prefix[6] == "taxista"@);
    assert(prefix[7] == "entrega"@);
    assert(prefix[8] == "retirada"@);
    assert(prefix[9] == "reembolso"@);
    assert(prefix[10] == "bradesco saúde"@);
    assert(prefix[11] == "plano de saúde"@);
    assert(prefix[12] == "mercado"@);
    assert(prefix[13] == "farmácia"@);
    assert(prefix[14] == "presente"@);
    assert(prefix[15] == "shopper"@);
    assert(prefix[16] == "papelaria"@);
    assert(prefix[17] == "petshop"@);
    assert(prefix[18] == "ingresso"@);
    assert(prefix[19] == "troca"@);
    assert(prefix[20] == "internet"@);
    assert(prefix[21] == "telefone"@);
    assert(prefix[22] == "conserto"@);
    assert(prefix[23] == "assistência"@);
    assert(prefix[24] == "pagamento"@);
    assert(prefix[25] == "boleto"@);
    assert(prefix[26] == "nota fiscal"@);
    assert(prefix[27] == "passagem"@);
    assert(prefix[28] == "hospedagem"@);
    assert(prefix[29] == "hotel"@);
    assert(prefix[30] == "check in"@);
    assert(prefix[31] == "bagagem"@);
    assert(prefix[32] == "consulta"@);
    assert(prefix[33] == "exame"@);
    assert(prefix[34] == "vacina"@);
    assert(prefix[35] == "manicure"@);
    assert(prefix[36] == "cabeleireiro"@);
    assert(prefix[37] == "restaurante"@);
    assert(prefix[38] == "reserva"@);
    assert(prefix[39] == "festa"@);
    assert(prefix[40] == "passaporte"@);
    assert(prefix[41] == "cnh"@);
    assert(prefix[42] == "cidadania"@);
    assert(prefix[43] == "visto"@);
    assert(rules[0].0 == seq!["motoboy"@]);
    assert(!any_keyword(t, rules[0].0));
    assert(rules[1].0 == seq!["sedex"@, "correio"@]);
    assert(!any_keyword(t, rules[1].0));
    assert(rules[2].0 == seq!["lalamove"@]);
    assert(!any_keyword(t, rules[2].0));
    assert(rules[3].0 == seq!["uber"@, "99"@]);
    assert(!any_keyword(t, rules[3].0));
    assert(rules[4].0 == seq!["taxista"@]);
    assert(!any_keyword(t, rules[4].0));
    assert(rules[5].0 == seq!["entrega"@, "retirada"@]);
    assert(!any_keyword(t, rules[5].0));
    assert(rules[6].0 == seq!["reembolso"@, "bradesco saúde"@, "plano de saúde"@]);
    assert(!any_keyword(t, rules[6].0));
    assert(rules[7].0 == seq!["mercado"@]);
    assert(!any_keyword(t, rules[7].0));
    assert(rules[8].0 == seq!["farmácia"@]);
    assert(!any_keyword(t, rules[8].0));
    assert(rules[9].0 == seq!["presente"@]);
    assert(!any_keyword(t, rules[9].0));
    assert(rules[10].0 == seq!["shopper"@]);
    assert(!any_keyword(t, rules[10].0));
    assert(rules[11].0 == seq!["papelaria"@]);
    assert(!any_keyword(t, rules[11].0));
    assert(rules[12].0 == seq!["petshop"@]);
    assert(!any_keyword(t, rules[12].0));
    assert(rules[13].0 == seq!["ingresso"@]);
    assert(!any_keyword(t, rules[13].0));
    assert(rules[14].0 == seq!["troca"@]);
    assert(!any_keyword(t, rules[14].0));
    assert(rules[15].0 == seq!["internet"@]);
    assert(!any_keyword(t, rules[15].0));
    assert(rules[16].0 == seq!["telefone"@]);
    assert(!any_keyword(t, rules[16].0));
    assert(rules[17].0 == seq!["conserto"@]);
    assert(!any_keyword(t, rules[17].0));
    assert(rules[18].0 == seq!["assistência"@]);
    assert(!any_keyword(t, rules[18].0));
    assert(rules[19].0 == seq!["pagamento"@]);
    assert(!any_keyword(t, rules[19].0));
    assert(rules[20].0 == seq!["boleto"@]);
    assert(!any_keyword(t, rules[20].0));
    assert(rules[21].0 == seq!["nota fiscal"@]);
    assert(!any_keyword(t, rules[21].0));
    assert(rules[22].0 == seq!["passagem"@]);
    assert(!any_keyword(t, rules[22].0));
    assert(rules[23].0 == seq!["hospedagem"@, "hotel"@]);
    assert(!any_keyword(t, rules[23].0));
    assert(rules[24].0 == seq!["check in"@]);
    assert(!any_keyword(t, rules[24].0));
    assert(rules[25].0 == seq!["bagagem"@]);
    assert(!any_keyword(t, rules[25].0));
    assert(rules[26].0 == seq!["consulta"@]);
    assert(!any_keyword(t, rules[26].0));
    assert(rules[27].0 == seq!["exame"@]);
    assert(!any_keyword(t, rules[27].0));
    assert(rules[28].0 == seq!["vacina"@]);
    assert(!any_keyword(t, rules[28].0));
    assert(rules[29].0 == seq!["manicure"@]);
    assert(!any_keyword(t, rules[29].0));
    assert(rules[30].0 == seq!["cabeleireiro"@]);
    assert(!any_keyword(t, rules[30].0));
    assert(rules[31].0 == seq!["restaurante"@, "reserva"@]);
    assert(!any_keyword(t, rules[31].0));
    assert(rules[32].0 == seq!["festa"@]);
    assert(!any_keyword(t, rules[32].0));
    assert(rules[33].0 == seq!["passaporte"@]);
    assert(!any_keyword(t, rules[33].0));
    assert(rules[34].0 == seq!["cnh"@]);
    assert(!any_keyword(t, rules[34].0));
    assert(rules[35].0 == seq!["cidadania"@]);
    assert(!any_keyword(t, rules[35].0));
    assert(rules[36].0 == seq!["visto"@]);
    assert(!any_keyword(t, rules[36].0));
    assert forall|j: int| 0 <= j < 37 implies !any_keyword(t, #[trigger] rules[j].0) by {
        if j == 0 {  } else if j == 1 {  } else if j == 2 {  } else if j == 3 {  } else if j == 4 {  } else if j == 5 {  } else if j == 6 {  } else if j == 7 {  } else if j == 8 {  } else if j == 9 {  } else if j == 10 {  } else if j == 11 {  } else if j == 12 {  } else if j == 13 {  } else if j == 14 {  } else if j == 15 {  } else if j == 16 {  } else if j == 17 {  } else if j == 18 {  } else if j == 19 {  } else if j == 20 {  } else if j == 21 {  } else if j == 22 {  } else if j == 23 {  } else if j == 24 {  } else if j == 25 {  } else if j == 26 {  } else if j == 27 {  } else if j == 28 {  } else if j == 29 {  } else if j == 30 {  } else if j == 31 {  } else if j == 32 {  } else if j == 33 {  } else if j == 34 {  } else if j == 35 {  } else if j == 36 {  }
    }
    assert(rules[37] == (seq!["certidão"@], "Documentos"@, "Certidões"@));
    assert(any_keyword(t, rules[37].0)) by {
        if contains(t, "certidão"@) { assert(rules[37].0[0] == "certidão"@); }
    }
    lemma_first_rule_at(t, rules, 37);
    let table = spec_star_table();
    reveal_strlit("Certidões");
    assert(table[0].0 == "Consultas"@);
    reveal_strlit("Consultas");
    assert("Consultas"@[1] != "Certidões"@[1]);
    assert(table[1].0 == "Exames"@);
    reveal_strlit("Exames");
    assert(table[2].0 == "Veterinário/Petshop (Consultas/Exames/Banhos/Tosas)"@);
    reveal_strlit("Veterinário/Petshop (Consultas/Exames/Banhos/Tosas)");
    assert(table[3].0 == "Vacinas"@);
    reveal_strlit("Vacinas");
    assert(table[4].0 == "Manicure"@);
    reveal_strlit("Manicure");
    assert(table[5].0 == "Cabeleleiro"@);
    reveal_strlit("Cabeleleiro");
    assert(table[6].0 == "Shopper"@);
    reveal_strlit("Shopper");
    assert(table[7].0 == "Mercados"@);
    reveal_strlit("Mercados");
    assert(table[8].0 == "Presentes"@);
    reveal_strlit("Presentes");
    assert("Presentes"@[0] != "Certidões"@[0]);
    assert(table[9].0 == "Petshop"@);
    reveal_strlit("Petshop");
    assert(table[10].0 == "Papelaria"@);
    reveal_strlit("Papelaria");
    assert("Papelaria"@[0] != "Certidões"@[0]);
    assert(table[11].0 == "Farmácia"@);
    reveal_strlit("Farmácia");
    assert(table[12].0 == "Ingressos"@);
    reveal_strlit("Ingressos");
    assert("Ingressos"@[0] != "Certidões"@[0]);
    assert(table[13].0 == "Móveis e Eletros"@);
    reveal_strlit("Móveis e Eletros");
    assert(table[14].0 == "Itens pessoais e da casa"@);
    reveal_strlit("Itens pessoais e da casa");
    assert(table[15].0 == "CIN"@);
    reveal_strlit("CIN");
    assert(table[16].0 == "Certificado Digital"@);
    reveal_strlit("Certificado Digital");
    assert(table[17].0 == "Documento de Vacinação (BR/Iternacional)"@);
    reveal_strlit("Documento de Vacinação (BR/Iternacional)");
    assert(table[18].0 == "Seguros Carro/Casa/Viagem (anual)"@);
    reveal_strlit("Seguros Carro/Casa/Viagem (anual)");
    assert(table[19].0 == "Assinatura Digital"@);
    reveal_strlit("Assinatura Digital");
    assert(table[20].0 == "Contratos/Procurações"@);
    reveal_strlit("Contratos/Procurações");
    assert(table[21].0 == "Cidadanias"@);
    reveal_strlit("Cidadanias");
    assert(table[22].0 == "Vistos e Vistos Eletrônicos"@);
    reveal_strlit("Vistos e Vistos Eletrônicos");
    assert(table[23].0 == "Passaporte"@);
    reveal_strlit("Passaporte");
    assert(table[24].0 == "CNH"@);
    reveal_strlit("CNH");
    assert(table[25].0 == "Averbações"@);
    reveal_strlit("Averbações");
    assert(table[26] == ("Certidões"@, 1u8));
    assert forall|j: int| 0 <= j < 26 implies (#[trigger] table[j]).0 != "Certidões"@ by {
        if j == 0 {  } else if j == 1 {  } else if j == 2 {  } else if j == 3 {  } else if j == 4 {  } else if j == 5 {  } else if j == 6 {  } else if j == 7 {  } else if j == 8 {  } else if j == 9 {  } else if j == 10 {  } else if j == 11 {  } else if j == 12 {  } else if j == 13 {  } else if j == 14 {  } else if j == 15 {  } else if j == 16 {  } else if j == 17 {  } else if j == 18 {  } else if j == 19 {  } else if j == 20 {  } else if j == 21 {  } else if j == 22 {  } else if j == 23 {  } else if j == 24 {  } else if j == 25 {  }
    }
    lemma_star_at(table, "Certidões"@, 26);
}

#[verifier::spinoff_prover]
/// A text that contains "contrato", and no keyword of an earlier rule, is categorised as "Documentos" / "Contratos/Procurações" with 1 star.
pub proof fn law_keyword_contrato(t: Seq<char>)
    requires
        contains(t, "contrato"@),
        none_of(t, seq!["motoboy"@, "sedex"@, "correio"@, "lalamove"@, "uber"@, "99"@, "taxista"@, "entrega"@, "retirada"@, "reembolso"@, "bradesco saúde"@, "plano de saúde"@, "mercado"@, "farmácia"@, "presente"@, "shopper"@, "papelaria"@, "petshop"@, "ingresso"@, "troca"@, "internet"@, "telefone"@, "conserto"@, "assistência"@, "pagamento"@, "boleto"@, "nota fiscal"@, "passagem"@, "hospedagem"@, "hotel"@, "check in"@, "bagagem"@, "consulta"@, "exame"@, "vacina"@, "manicure"@, "cabeleireiro"@, "restaurante"@, "reserva"@, "festa"@, "passaporte"@, "cnh"@, "cidadania"@, "visto"@, "certidão"@]),
    ensures
        categorize_lowered_spec(t) == Some(("Documentos"@, "Contratos/Procurações"@, 1u8)),
{
    let rules = spec_rules();
    let prefix = seq!["motoboy"@, "sedex"@, "correio"@, "lalamove"@, "uber"@, "99"@, "taxista"@, "entrega"@, "retirada"@, "reembolso"@, "bradesco saúde"@, "plano de saúde"@, "mercado"@, "farmácia"@, "presente"@, "shopper"@, "papelaria"@, "petshop"@, "ingresso"@, "troca"@, "internet"@, "telefone"@, "conserto"@, "assistência"@, "pagamento"@, "boleto"@, "nota fiscal"@, "passagem"@, "hospedagem"@, "hotel"@, "check in"@, "bagagem"@, "consulta"@, "exame"@, "vacina"@, "manicure"@, "cabeleireiro"@, "restaurante"@, "reserva"@, "festa"@, "passaporte"@, "cnh"@, "cidadania"@, "visto"@, "certidão"@];
    assert(prefix[0] == "motoboy"@);
    assert(prefix[1] == "sedex"@);
    assert(prefix[2] == "correio"@);
    assert(prefix[3] == "lalamove"@);
    assert(prefix[4] == "uber"@);
    assert(prefix[5] == "99"@);
    assert(prefix[6] == "taxista"@);
    assert(prefix[7] == "entrega"@);
    assert(prefix[8] == "retirada"@);
    assert(prefix[9] == "reembolso"@);
    assert(prefix[10] == "bradesco saúde"@);
    assert(prefix[11] == "plano de saúde"@);
    assert(prefix[12] == "mercado"@);
    assert(prefix[13] == "farmácia"@);
    assert(prefix[14] == "presente"@);
    assert(prefix[15] == "shopper"@);
    assert(prefix[16] == "papelaria"@);
    assert(prefix[17] == "petshop"@);
    assert(prefix[18] == "ingresso"@);
    assert(prefix[19] == "troca"@);
    assert(prefix[20] == "internet"@);
    assert(prefix[21] == "telefone"@);
    assert(prefix[22] == "conserto"@);
    assert(prefix[23] == "assistência"@);
    assert(prefix[24] == "pagamento"@);
    assert(prefix[25] == "boleto"@);
    assert(prefix[26] == "nota fiscal"@);
    assert(prefix[27] == "passagem"@);
    assert(prefix[28] == "hospedagem"@);
    assert(prefix[29] == "hotel"@);
    assert(prefix[30] == "check in"@);
    assert(prefix[31] == "bagagem"@);
    assert(prefix[32] == "consulta"@);
    assert(prefix[33] == "exame"@);
    assert(prefix[34] == "vacina"@);
    assert(prefix[35] == "manicure"@);
    assert(prefix[36] == "cabeleireiro"@);
    assert(prefix[37] == "restaurante"@);
    assert(prefix[38] == "reserva"@);
    assert(prefix[39] == "festa"@);
    assert(prefix[40] == "passaporte"@);
    assert(prefix[41] == "cnh"@);
    assert(prefix[42] == "cidadania"@);
    assert(prefix[43] == "visto"@);
    assert(prefix[44] == "certidão"@);
    assert(rules[0].0 == seq!["motoboy"@]);
    assert(!any_keyword(t, rules[0].0));
    assert(rules[1].0 == seq!["sedex"@, "correio"@]);
    assert(!any_keyword(t, rules[1].0));
    assert(rules[2].0 == seq!["lalamove"@]);
    assert(!any_keyword(t, rules[2].0));
    assert(rules[3].0 == seq!["uber"@, "99"@]);
    assert(!any_keyword(t, rules[3].0));
    assert(rules[4].0 == seq!["taxista"@]);
    assert(!any_keyword(t, rules[4].0));
    assert(rules[5].0 == seq!["entrega"@, "retirada"@]);
    assert(!any_keyword(t, rules[5].0));
    assert(rules[6].0 == seq!["reembolso"@, "bradesco saúde"@, "plano de saúde"@]);
    assert(!any_keyword(t, rules[6].0));
    assert(rules[7].0 == seq!["mercado"@]);
    assert(!any_keyword(t, rules[7].0));
    assert(rules[8].0 == seq!["farmácia"@]);
    assert(!any_keyword(t, rules[8].0));
    assert(rules[9].0 == seq!["presente"@]);
    assert(!any_keyword(t, rules[9].0));
    assert(rules[10].0 == seq!["shopper"@]);
    assert(!any_keyword(t, rules[10].0));
    assert(rules[11].0 == seq!["papelaria"@]);
    assert(!any_keyword(t, rules[11].0));
    assert(rules[12].0 == seq!["petshop"@]);
    assert(!any_keyword(t, rules[12].0));
    assert(rules[13].0 == seq!["ingresso"@]);
    assert(!any_keyword(t, rules[13].0));
    assert(rules[14].0 == seq!["troca"@]);
    assert(!any_keyword(t, rules[14].0));
    assert(rules[15].0 == seq!["internet"@]);
    assert(!any_keyword(t, rules[15].0));
    assert(rules[16].0 == seq!["telefone"@]);
    assert(!any_keyword(t, rules[16].0));
    assert(rules[17].0 == seq!["conserto"@]);
    assert(!any_keyword(t, rules[17].0));
    assert(rules[18].0 == seq!["assistência"@]);
    assert(!any_keyword(t, rules[18].0));
    assert(rules[19].0 == seq!["pagamento"@]);
    assert(!any_keyword(t, rules[19].0));
    assert(rules[20].0 == seq!["boleto"@]);
    assert(!any_keyword(t, rules[20].0));
    assert(rules[21].0 == seq!["nota fiscal"@]);
    assert(!any_keyword(t, rules[21].0));
    assert(rules[22].0 == seq!["passagem"@]);
    assert(!any_keyword(t, rules[22].0));
    assert(rules[23].0 == seq!["hospedagem"@, "hotel"@]);
    assert(!any_keyword(t, rules[23].0));
    assert(rules[24].0 == seq!["check in"@]);
    assert(!any_keyword(t, rules[24].0));
    assert(rules[25].0 == seq!["bagagem"@]);
    assert(!any_keyword(t, rules[25].0));
    assert(rules[26].0 == seq!["consulta"@]);
    assert(!any_keyword(t, rules[26].0));
    assert(rules[27].0 == seq!["exame"@]);
    assert(!any_keyword(t, rules[27].0));
    assert(rules[28].0 == seq!["vacina"@]);
    assert(!any_keyword(t, rules[28].0));
    assert(rules[29].0 == seq!["manicure"@]);
    assert(!any_keyword(t, rules[29].0));
    assert(rules[30].0 == seq!["cabeleireiro"@]);
    assert(!any_keyword(t, rules[30].0));
    assert(rules[31].0 == seq!["restaurante"@, "reserva"@]);
    assert(!any_keyword(t, rules[31].0));
    assert(rules[32].0 == seq!["festa"@]);
    assert(!any_keyword(t, rules[32].0));
    assert(rules[33].0 == seq!["passaporte"@]);
    assert(!any_keyword(t, rules[33].0));
    assert(rules[34].0 == seq!["cnh"@]);
    assert(!any_keyword(t, rules[34].0));
    assert(rules[35].0 == seq!["cidadania"@]);
    assert(!any_keyword(t, rules[35].0));
    assert(rules[36].0 == seq!["visto"@]);
    assert(!any_keyword(t, rules[36].0));
    assert(rules[37].0 == seq!["certidão"@]);
    assert(!any_keyword(t, rules[37].0));
    assert forall|j: int| 0 <= j < 38 implies !any_keyword(t, #[trigger] rules[j].0) by {
        if j == 0 {  } else if j == 1 {  } else if j == 2 {  } else if j == 3 {  } else if j == 4 {  } else if j == 5 {  } else if j == 6 {  } else if j == 7 {  } else if j == 8 {  } else if j == 9 {  } else if j == 10 {  } else if j == 11 {  } else if j == 12 {  } else if j == 13 {  } else if j == 14 {  } else if j == 15 {  } else if j == 16 {  } else if j == 17 {  } else if j == 18 {  } else if j == 19 {  } else if j == 20 {  } else if j == 21 {  } else if j == 22 {  } else if j == 23 {  } else if j == 24 {  } else if j == 25 {  } else if j == 26 {  } else if j == 27 {  } else if j == 28 {  } else if j == 29 {  } else if j == 30 {  } else if j == 31 {  } else if j == 32 {  } else if j == 33 {  } else if j == 34 {  } else if j == 35 {  } else if j == 36 {  } else if j == 37 {  }
    }
    assert(rules[38] == (seq!["contrato"@], "Documentos"@, "Contratos/Procurações"@));
    assert(any_keyword(t, rules[38].0)) by {
        if contains(t, "contrato"@) { assert(rules[38].0[0] == "contrato"@); }
    }
    lemma_first_rule_at(t, rules, 38);
    let table = spec_star_table();
    reveal_strlit("Contratos/Procurações");
    assert(table[0].0 == "Consultas"@);
    reveal_strlit("Consultas");
    assert(table[1].0 == "Exames"@);
    reveal_strlit("Exames");
    assert(table[2].0 == "Veterinário/Petshop (Consultas/Exames/Banhos/Tosas)"@);
    reveal_strlit("Veterinário/Petshop (Consultas/Exames/Banhos/Tosas)");
    assert(table[3].0 == "Vacinas"@);
    reveal_strlit("Vacinas");
    assert(table[4].0 == "Manicure"@);
    reveal_strlit("Manicure");
    assert(table[5].0 == "Cabeleleiro"@);
    reveal_strlit("Cabeleleiro");
    assert(table[6].0 == "Shopper"@);
    reveal_strlit("Shopper");
    assert(table[7].0 == "Mercados"@);
    reveal_strlit("Mercados");
    assert(table[8].0 == "Presentes"@);
    reveal_strlit("Presentes");
    assert(table[9].0 == "Petshop"@);
    reveal_strlit("Petshop");
    assert(table[10].0 == "Papelaria"@);
    reveal_strlit("Papelaria");
    assert(table[11].0 == "Farmácia"@);
    reveal_strlit("Farmácia");
    assert(table[12].0 == "Ingressos"@);
    reveal_strlit("Ingressos");
    assert(table[13].0 == "Móveis e Eletros"@);
    reveal_strlit("Móveis e Eletros");
    assert(table[14].0 == "Itens pessoais e da casa"@);
    reveal_strlit("Itens pessoais e da casa");
    assert(table[15].0 == "CIN"@);
    reveal_strlit("CIN");
    assert(table[16].0 == "Certificado Digital"@);
    reveal_strlit("Certificado Digital");
    assert(table[17].0 == "Documento de Vacinação (BR/Iternacional)"@);
    reveal_strlit("Documento de Vacinação (BR/Iternacional)");
    assert(table[18].0 == "Seguros Carro/Casa/Viagem (anual)"@);
    reveal_strlit("Seguros Carro/Casa/Viagem (anual)");
    assert(table[19].0 == "Assinatura Digital"@);
    reveal_strlit("Assinatura Digital");
    assert(table[20] == ("Contratos/Procurações"@, 1u8));
    assert forall|j: int| 0 <= j < 20 implies (#[trigger] table[j]).0 != "Contratos/Procurações"@ by {
        if j == 0 {  } else if j == 1 {  } else if j == 2 {  } else if j == 3 {  } else if j == 4 {  } else if j == 5 {  } else if j == 6 {  } else if j == 7 {  } else if j == 8 {  } else if j == 9 {  } else if j == 10 {  } else if j == 11 {  } else if j == 12 {  } else if j == 13 {  } else if j == 14 {  } else if j == 15 {  } else if j == 16 {  } else if j == 17 {  } else if j == 18 {  } else if j == 19 {  }
    }
    lemma_star_at(table, "Contratos/Procurações"@, 20);
}

} // verus!
