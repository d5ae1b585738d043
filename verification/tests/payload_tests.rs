use chatguru_clickup::json::JsonValue;
use chatguru_clickup::models::clickup::{CustomFieldValue, TaskPriority};
use chatguru_clickup::models::payload::{
    ChatGuruPayload, EventData, EventTypePayload, GenericPayload, WebhookPayload,
};
use chatguru_clickup::models::task_builder::extract_professional_title;

fn s(x: &str) -> String {
    x.to_string()
}

fn chatguru(nome: &str, texto: &str) -> ChatGuruPayload {
    ChatGuruPayload {
        campanha_id: s("c1"),
        campanha_nome: s("Campanha X"),
        origem: s(""),
        email: s(""),
        nome: s(nome),
        tags: vec![],
        texto_mensagem: s(texto),
        media_url: None,
        media_type: None,
        tipo_mensagem: None,
        url_arquivo: None,
        campos_personalizados: vec![],
        bot_context: None,
        responsavel_nome: None,
        responsavel_email: None,
        link_chat: s(""),
        celular: s("5511999990000"),
        phone_id: None,
        chat_id: None,
        chat_created: None,
        _batch_chat_id: None,
        _batch_size: None,
        _is_synthetic: None,
        _original_media_type: None,
    }
}

fn event(event_type: &str) -> EventTypePayload {
    EventTypePayload {
        id: s("evt-1"),
        event_type: s(event_type),
        timestamp: s("2025-01-01T00:00:00Z"),
        data: EventData {
            lead_name: None,
            phone: None,
            email: None,
            project_name: None,
            task_title: None,
            annotation: None,
            amount: None,
            status: None,
            custom_data: vec![],
            extra: vec![],
        },
    }
}

fn generic(nome: Option<&str>, mensagem: Option<&str>) -> GenericPayload {
    GenericPayload {
        nome: nome.map(s),
        celular: None,
        email: None,
        mensagem: mensagem.map(s),
        extra: vec![],
    }
}

#[test]
fn professional_title_drops_stock_phrases_and_capitalizes() {
    assert_eq!(extract_professional_title("O usuário solicitou reserva de hotel"), "Reserva de hotel");
}

#[test]
fn professional_title_falls_back_when_too_short() {
    assert_eq!(extract_professional_title("Trata-se de"), "Atividade Profissional");
    assert_eq!(extract_professional_title("ab"), "Atividade Profissional");
}

#[test]
fn professional_title_removes_symbols_and_newlines() {
    assert_eq!(extract_professional_title("compra de passagem!\nurgente?"), "Compra de passagem urgente");
}

#[test]
fn professional_title_is_truncated_with_ellipsis() {
    let long = "reserva de restaurante para o jantar de aniversario da empresa inteira";
    let t = extract_professional_title(long);
    assert!(t.ends_with("..."));
    assert_eq!(t.chars().count(), 50);
    assert!(t.starts_with("Reserva de restaurante"));
}

#[test]
fn media_type_from_url_extension() {
    assert_eq!(ChatGuruPayload::detect_media_type_from_url("https://x.com/a/audio.OGG?sig=1"), "audio/ogg");
    assert_eq!(ChatGuruPayload::detect_media_type_from_url("https://x.com/photo.jpeg"), "image/jpeg");
    assert_eq!(ChatGuruPayload::detect_media_type_from_url("https://x.com/doc.pdf"), "application/pdf");
    assert_eq!(ChatGuruPayload::detect_media_type_from_url("https://x.com/file"), "application/octet-stream");
}

#[test]
fn normalize_media_fields_maps_newer_format() {
    let mut p = chatguru("Ana", "oi");
    p.url_arquivo = Some(s("https://s3/voice.oga"));
    p.tipo_mensagem = Some(s("ptt"));
    p.normalize_media_fields();
    assert_eq!(p.media_url, Some(s("https://s3/voice.oga")));
    assert_eq!(p.media_type, Some(s("audio/ogg")));
}

#[test]
fn normalize_media_fields_detects_by_url_for_chat_messages() {
    let mut p = chatguru("Ana", "oi");
    p.url_arquivo = Some(s("https://s3/pic.png"));
    p.tipo_mensagem = Some(s("chat"));
    p.normalize_media_fields();
    assert_eq!(p.media_type, Some(s("image/png")));
}

#[test]
fn normalize_media_fields_keeps_complete_media() {
    let mut p = chatguru("Ana", "oi");
    p.media_url = Some(s("https://a/b.mp3"));
    p.media_type = Some(s("audio/mpeg"));
    p.url_arquivo = Some(s("https://other/c.png"));
    p.tipo_mensagem = Some(s("image"));
    p.normalize_media_fields();
    assert_eq!(p.media_url, Some(s("https://a/b.mp3")));
    assert_eq!(p.media_type, Some(s("audio/mpeg")));
}

#[test]
fn task_titles_of_each_format() {
    let c = WebhookPayload::ChatGuru(chatguru("Maria", "texto"));
    assert_eq!(c.get_task_title(), "[Campanha X] Maria");

    let mut e = event("new_lead");
    assert_eq!(WebhookPayload::EventType(event("new_lead")).get_task_title(), "Evento: new_lead");
    e.data.lead_name = Some(s("João"));
    assert_eq!(WebhookPayload::EventType(e).get_task_title(), "[new_lead] João");

    let g = WebhookPayload::Generic(generic(None, None));
    assert_eq!(g.get_task_title(), "[Webhook] Contato");
}

#[test]
fn message_text_and_attendant_of_each_format() {
    let mut c = chatguru("Maria", "preciso de um taxi");
    c.campos_personalizados = vec![(s("Info_2"), JsonValue::Str(s("Anne")))];
    let w = WebhookPayload::ChatGuru(c);
    assert_eq!(w.texto_mensagem(), "preciso de um taxi");
    assert_eq!(w.get_info_2(), "Anne");

    let mut e = event("x");
    e.data.annotation = Some(s("nota"));
    e.data.lead_name = Some(s("Lead"));
    let w = WebhookPayload::EventType(e);
    assert_eq!(w.texto_mensagem(), "nota");
    assert_eq!(w.get_info_2(), "Lead");

    let w = WebhookPayload::Generic(generic(None, None));
    assert_eq!(w.texto_mensagem(), "");
    assert_eq!(w.get_info_2(), "");
}

#[test]
fn plain_chatguru_task() {
    let mut c = chatguru("Maria", "Quero agendar consulta");
    c.campos_personalizados = vec![
        (s("Info_1"), JsonValue::Str(s("Conta A"))),
        (s("Info_2"), JsonValue::Str(s("Anne"))),
    ];
    let w = WebhookPayload::ChatGuru(c);
    let t = w.to_clickup_task_data();
    assert_eq!(t.name, "Maria");
    assert_eq!(
        t.description.unwrap(),
        "**Dados do Contato**\n\n- Nome: Maria\n- Email: 5511999990000\n- Celular: 5511999990000\n- Campanha: Campanha X\n- Origem: scheduler\n\n**Mensagem**\nQuero agendar consulta"
    );
    assert_eq!(t.tags, Some(vec![]));
    assert_eq!(t.priority, Some(TaskPriority::Normal));
    let fields = t.custom_fields.unwrap();
    assert_eq!(fields.len(), 2);
    assert_eq!(fields[0].id, "bf24f5b1-e909-473e-b864-75bf22edf67e");
    assert!(matches!(&fields[0].value, CustomFieldValue::Text(x) if x == "Anne"));
    assert_eq!(fields[1].id, "0cd1d510-1906-4484-ba66-06ccdd659768");
    assert!(matches!(&fields[1].value, CustomFieldValue::Text(x) if x == "Conta A"));
}

#[test]
fn plain_chatguru_task_with_image() {
    let mut c = chatguru("Maria", "");
    c.media_url = Some(s("https://img/x.jpg"));
    c.media_type = Some(s("image/jpeg"));
    let t = WebhookPayload::ChatGuru(c).to_clickup_task_data();
    let d = t.description.unwrap();
    assert!(d.ends_with("🖼️ Imagem anexada: [Visualizar](https://img/x.jpg)\n\n![Imagem anexada](https://img/x.jpg)"));
}

#[test]
fn event_task_tags_and_description() {
    let mut e = event("payment_created");
    e.data.task_title = Some(s("Pagamento recebido"));
    e.data.phone = Some(s("551100"));
    e.data.amount = Some(s("10.50"));
    let t = WebhookPayload::EventType(e).to_clickup_task_data();
    assert_eq!(t.name, "Pagamento recebido");
    assert_eq!(t.tags, Some(vec![s("pagamento"), s("criado")]));
    assert_eq!(
        t.description.unwrap(),
        "**Tipo de Evento**: payment_created\n**ID**: evt-1\n**Timestamp**: 2025-01-01T00:00:00Z\n\n**Telefone**: 551100\n**Valor**: R$ 10.50\n"
    );
    assert_eq!(t.priority, Some(TaskPriority::Normal));
}

#[test]
fn event_task_other_kind_is_tagged_with_its_name() {
    let t = WebhookPayload::EventType(event("custom_event")).to_clickup_task_data();
    assert_eq!(t.name, "Evento: custom_event");
    assert_eq!(t.tags, Some(vec![s("custom_event")]));
}

#[test]
fn generic_task() {
    let t = WebhookPayload::Generic(generic(Some("Paulo"), Some("Olá"))).to_clickup_task_data();
    assert_eq!(t.name, "[Webhook] Paulo");
    assert_eq!(
        t.description.unwrap(),
        "**Dados do Contato**\n\n- Nome: Paulo\n- Celular: Não informado\n- Email: Não informado\n\n**Mensagem**\nOlá\n"
    );
    assert_eq!(t.tags, Some(vec![s("webhook"), s("genérico")]));
}
