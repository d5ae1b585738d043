use chatguru_clickup::models::payload::{ChatGuruPayload, GenericPayload, WebhookPayload};
use chatguru_clickup::models::task_builder::extract_professional_title;
use chatguru_clickup::services::config_db::ConfigCache;
use chatguru_clickup::services::message_scheduler::MessageScheduler;

fn s(x: &str) -> String {
    x.to_string()
}

fn payload(url: Option<&str>, tipo: Option<&str>) -> ChatGuruPayload {
    ChatGuruPayload {
        campanha_id: s(""),
        campanha_nome: s(""),
        origem: s(""),
        email: s(""),
        nome: s("Ana"),
        tags: vec![],
        texto_mensagem: s("oi"),
        media_url: None,
        media_type: None,
        tipo_mensagem: tipo.map(s),
        url_arquivo: url.map(s),
        campos_personalizados: vec![],
        bot_context: None,
        responsavel_nome: None,
        responsavel_email: None,
        link_chat: s(""),
        celular: s("55"),
        phone_id: None,
        chat_id: Some(s("chat-1")),
        chat_created: None,
        _batch_chat_id: None,
        _batch_size: None,
        _is_synthetic: None,
        _original_media_type: None,
    }
}

#[test]
fn normalizing_media_twice_changes_nothing_more() {
    for (url, tipo) in [
        (Some("https://s3/a.jpg?x=1"), Some("chat")),
        (Some("https://s3/voice"), Some("ptt")),
        (None, Some("document")),
        (None, None),
    ] {
        let mut p = payload(url, tipo);
        p.normalize_media_fields();
        let (u1, t1) = (p.media_url.clone(), p.media_type.clone());
        p.normalize_media_fields();
        assert_eq!(p.media_url, u1);
        assert_eq!(p.media_type, t1);
    }
}

#[test]
fn professional_titles_have_one_to_fifty_characters() {
    for reason in [
        "",
        "x",
        "Trata-se de",
        "compra de material de escritório",
        "uma solicitação de reserva de um restaurante italiano para o jantar de sexta com a equipe",
        "áéíóú ÀÉÍÓÚ çãõ ñ ü 日本語 texto com muitos caracteres especiais !!! ??? ### 1234567890",
    ] {
        let n = extract_professional_title(reason).chars().count();
        assert!((1..=50).contains(&n), "{} gave {}", reason, n);
    }
}

#[test]
fn config_value_read_back_until_stale() {
    let mut c = ConfigCache::new();
    c.set(s("dynamic_structure_enabled"), s("true"), 500);
    assert_eq!(c.get("dynamic_structure_enabled", 500 + 3600), Some(s("true")));
    assert_eq!(c.get("dynamic_structure_enabled", 500 + 3601), None);
    assert_eq!(c.get("other", 500), None);
}

#[test]
fn queued_message_is_pending_until_handled() {
    let mut sched = MessageScheduler::new(100);
    let p = WebhookPayload::ChatGuru(payload(None, None));
    sched.queue_message_at(&p, None, 1000);
    assert_eq!(sched.get_status(), vec![(s("Ana (chat-1)"), 1)]);
    assert!(sched.due_conversations(1099).is_empty());
    assert_eq!(sched.due_conversations(1100), vec![0]);
    sched.finish_conversation_at(0, 1100);
    assert!(sched.get_status().is_empty());
    let g = WebhookPayload::Generic(GenericPayload { nome: None, celular: Some(s("77")), email: None, mensagem: None, extra: vec![] });
    sched.queue_message_at(&g, None, 1200);
    assert_eq!(sched.get_status().len(), 1);
}
