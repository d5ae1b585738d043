use chatguru_clickup::error::AppError;
use chatguru_clickup::services::media_sync::MediaSyncService;
use chatguru_clickup::handlers::webhook::{parse_webhook_body, WebhookBodyError};
use chatguru_clickup::handlers::worker::{admit_message, ProcessedMessages};
use chatguru_clickup::json::JsonValue;
use chatguru_clickup::models::chatguru_events::ChatGuruEvent;
use chatguru_clickup::services::conversation_tracker::{ConversationTracker, TaskAction};
use chatguru_clickup::services::prompts::{
    from_parsed_yaml, YamlAiPromptConfig, YamlCategoryField, YamlOption, YamlTypeConfig,
};
use chatguru_clickup::services::task_fetcher::fetch_error;
use chatguru_clickup::services::vertex::SupportedMimeType;

fn s(x: &str) -> String {
    x.to_string()
}

fn obj(members: Vec<(&str, JsonValue)>) -> JsonValue {
    JsonValue::Object(members.into_iter().map(|(k, v)| (k.to_string(), v)).collect())
}

fn push_request(id: Option<&str>) -> JsonValue {
    let mut message = vec![("data", JsonValue::Str(s("e30=")))];
    if let Some(id) = id {
        message.push(("messageId", JsonValue::Str(s(id))));
    }
    obj(vec![("message", obj(message))])
}

#[test]
fn webhook_body_is_parsed() {
    let v = parse_webhook_body(br#"{"chat_id":"c1","n":[1,true]}"#.to_vec()).unwrap();
    assert_eq!(v.to_json_string(), r#"{"chat_id":"c1","n":[1,true]}"#);
}

#[test]
fn webhook_body_not_utf8_is_refused() {
    match parse_webhook_body(vec![0x7b, 0xff, 0x7d]) {
        Err(WebhookBodyError::InvalidUtf8(e)) => {
            assert!(e.starts_with("Invalid UTF-8 in request body: "));
            assert!(e.len() > "Invalid UTF-8 in request body: ".len());
        }
        other => panic!("unexpected {:?}", other),
    }
}

#[test]
fn webhook_body_not_json_is_refused() {
    match parse_webhook_body(b"{\"chat_id\":".to_vec()) {
        Err(WebhookBodyError::InvalidJson(e)) => assert!(e.starts_with("Invalid JSON payload: ")),
        other => panic!("unexpected {:?}", other),
    }
}

fn event(timestamp: &str) -> ChatGuruEvent {
    ChatGuruEvent {
        id: None,
        event_type: s("payment_created"),
        timestamp: s(timestamp),
        data: obj(vec![]),
        source: None,
        metadata: None,
        account_id: None,
        phone_id: None,
        contact: None,
        annotation: None,
    }
}

#[test]
fn event_timestamp_as_utc_instant() {
    assert_eq!(event("2024-01-15T10:30:00Z").get_timestamp_as_datetime(), Some((1705314600, 0)));
    assert_eq!(event("2024-01-15T12:30:00.5+02:00").get_timestamp_as_datetime(), Some((1705314600, 500_000_000)));
    assert_eq!(event("15/01/2024 10:30").get_timestamp_as_datetime(), None);
}

#[test]
fn mime_type_round_trip() {
    let all = [
        SupportedMimeType::ImageJpeg,
        SupportedMimeType::ImagePng,
        SupportedMimeType::ImageWebp,
        SupportedMimeType::ImageGif,
        SupportedMimeType::VideoMp4,
        SupportedMimeType::VideoQuicktime,
        SupportedMimeType::VideoMpeg,
        SupportedMimeType::VideoWebm,
        SupportedMimeType::AudioMp3,
        SupportedMimeType::AudioWav,
        SupportedMimeType::AudioAac,
        SupportedMimeType::ApplicationPdf,
    ];
    for m in all {
        assert_eq!(SupportedMimeType::from_str(m.to_string()), Some(m));
    }
    assert_eq!(
        SupportedMimeType::from_str(SupportedMimeType::AudioMpeg.to_string()),
        Some(SupportedMimeType::AudioMp3)
    );
    assert_eq!(SupportedMimeType::from_str("IMAGE/PNG"), Some(SupportedMimeType::ImagePng));
}

#[test]
fn worker_redelivery_within_the_hour_is_duplicate() {
    let mut seen = ProcessedMessages::new();
    assert!(admit_message(&mut seen, &push_request(Some("m-7")), 1000).is_none());
    let again = admit_message(&mut seen, &push_request(Some("m-7")), 1000 + 3599).unwrap();
    assert_eq!(
        again.to_json_string(),
        r#"{"message":"Mensagem já foi processada anteriormente","message_id":"m-7","status":"duplicate_message"}"#
    );
    assert!(admit_message(&mut seen, &push_request(Some("m-7")), 1000 + 3600).is_none());
    assert!(admit_message(&mut seen, &push_request(None), 5000).is_none());
    assert!(admit_message(&mut seen, &push_request(None), 5001).is_some());
}

#[test]
fn category_names_are_listed_once() {
    let field = |names: &[&str]| YamlCategoryField {
        id: s("f"),
        name: s("Categoria"),
        type_config: YamlTypeConfig {
            options: names.iter().map(|n| YamlOption { id: format!("id-{}", n), name: s(n) }).collect(),
        },
    };
    let y = YamlAiPromptConfig {
        system_role: s(""),
        task_description: s(""),
        categories: vec![],
        activity_types: vec![],
        status_options: vec![],
        category_mappings: vec![field(&["Lazer", "Compras"]), field(&["Lazer", "Viagens"])],
        subcategory_mappings: vec![],
        subcategory_examples: vec![],
        rules: vec![],
        response_format: s(""),
        field_ids: None,
        cliente_solicitante_mappings: vec![],
    };
    let c = from_parsed_yaml(y);
    assert_eq!(c.get_available_categories(), vec![s("Lazer"), s("Compras"), s("Viagens")]);
}

#[test]
fn registered_task_is_kept_in_the_conversation() {
    let mut t = ConversationTracker::new();
    assert!(matches!(t.analyze_context_at("5511", "pedido de taxi", true, 100), TaskAction::CreateNew));
    t.register_task_at("5511", s("t-1"), s("Táxi"), 120);
    let h = &t.conversations[0].1;
    assert_eq!(h.last_task_id, Some(s("t-1")));
    assert_eq!(h.last_task_title, Some(s("Táxi")));
    assert_eq!(h.last_activity, 120);
    assert_eq!(h.messages.len(), 1);
    t.register_task_at("9999", s("t-2"), s("x"), 130);
    assert_eq!(t.conversations.len(), 1);
}

#[test]
fn media_sync_answers_an_internal_error() {
    let e = MediaSyncService::new(5).wait_for_result(s("c-1")).unwrap_err();
    assert_eq!(e, AppError::InternalError(s("Media Sync Service disabled during Vertex AI refactoring")));
    assert_eq!(e.message(), "Media Sync Service disabled during Vertex AI refactoring");
}

#[test]
fn fetch_error_names_the_client_error() {
    assert_eq!(fetch_error("timeout"), "Erro ao buscar tarefa: timeout");
}
