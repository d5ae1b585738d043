use chatguru_clickup::config::settings::{
    AISettings, ChatGuruSettings, CircuitBreakerConfig, ClickUpSettings, GcpSettings, ServerSettings, Settings,
};
use chatguru_clickup::error::AppError;
use chatguru_clickup::handlers::pubsub_handler::{enrich_step, EnrichAction, EnrichEvent};
use chatguru_clickup::handlers::webhook::{
    media_outcome, media_plan, synthetic_payload, webhook_route, MediaKind, MediaOutcome, WebhookRoute,
};
use chatguru_clickup::models::classification::ActivityClassification;
use chatguru_clickup::models::payload::ChatGuruPayload;
use chatguru_clickup::services::field_validator::ValidatedFieldValues;
use chatguru_clickup::services::gcp_optimizations::SimpleCircuitBreaker;
use chatguru_clickup::services::hybrid_ai::{classify_step, AIServiceType, ClassifyAction, ClassifyEvent, HybridAIConfig};
use chatguru_clickup::services::message_scheduler::{message_step, ConversationState, MessageAction, MessageEvent, QueuedMessage};
use chatguru_clickup::services::prompts::AiPromptConfig;
use chatguru_clickup::services::task_classifier::Classification;

fn s(x: &str) -> String {
    x.to_string()
}

fn payload(text: &str, url: Option<&str>, tipo: Option<&str>) -> ChatGuruPayload {
    ChatGuruPayload {
        campanha_id: s("c1"),
        campanha_nome: s("Campanha"),
        origem: s("whatsapp"),
        email: s("ana@x"),
        nome: s("Ana"),
        tags: vec![s("vip")],
        texto_mensagem: s(text),
        media_url: None,
        media_type: None,
        tipo_mensagem: tipo.map(s),
        url_arquivo: url.map(s),
        campos_personalizados: vec![],
        bot_context: None,
        responsavel_nome: Some(s("Bruno")),
        responsavel_email: Some(s("b@x")),
        link_chat: s("link"),
        celular: s("5511"),
        phone_id: Some(s("p1")),
        chat_id: Some(s("chat-1")),
        chat_created: Some(s("2024-01-01")),
        _batch_chat_id: Some(s("chat-1")),
        _batch_size: Some(2),
        _is_synthetic: None,
        _original_media_type: None,
    }
}

#[test]
fn synthetic_payload_keeps_every_other_field() {
    let r = synthetic_payload(payload("oi", Some("https://s3/a.ogg"), Some("ptt")), "texto", "audio/ogg");
    assert_eq!(r.texto_mensagem, "oi\n\n[Mídia processada]: texto");
    assert_eq!(r._is_synthetic, Some(true));
    assert_eq!(r._original_media_type, Some(s("audio/ogg")));
    assert!(r.url_arquivo.is_none() && r.tipo_mensagem.is_none() && r.media_url.is_none());
    assert_eq!(r.origem, "whatsapp");
    assert_eq!(r.tags, vec![s("vip")]);
    assert_eq!(r.responsavel_nome, Some(s("Bruno")));
    assert_eq!(r.responsavel_email, Some(s("b@x")));
    assert_eq!(r.phone_id, Some(s("p1")));
    assert_eq!(r.chat_created, Some(s("2024-01-01")));
    assert_eq!(r._batch_chat_id, Some(s("chat-1")));
    assert_eq!(r._batch_size, Some(2));
    let empty = synthetic_payload(payload("", None, None), "texto", "image/png");
    assert_eq!(empty.texto_mensagem, "texto");
}

#[test]
fn webhook_audio_takes_the_fast_track_only_when_published() {
    let mut p = payload("", Some("https://s3/a.ogg"), Some("ptt"));
    let (url, media_type, kind) = media_plan(&mut p, true).unwrap();
    assert_eq!(url, "https://s3/a.ogg");
    assert_eq!(kind, MediaKind::Audio);
    assert!(media_plan(&mut payload("", Some("https://s3/a.ogg"), Some("ptt")), false).is_none());
    assert!(media_plan(&mut payload("oi", None, None), true).is_none());

    let outcome = media_outcome(p, &media_type, kind, Some(s("olá")));
    match &outcome {
        MediaOutcome::Processed(sp, audio) => {
            assert!(*audio);
            assert_eq!(sp.texto_mensagem, "olá");
        }
        MediaOutcome::Untouched => panic!("expected processed media"),
    }
    assert!(matches!(webhook_route(outcome, true), WebhookRoute::FastTrack));

    let again = media_outcome(payload("", None, None), "audio/ogg", MediaKind::Audio, Some(s("olá")));
    assert!(matches!(webhook_route(again, false), WebhookRoute::Enqueue(Some(_))));
    let image = media_outcome(payload("", None, None), "image/png", MediaKind::Image, Some(s("foto")));
    assert!(matches!(webhook_route(image, true), WebhookRoute::Enqueue(Some(_))));
    let failed = media_outcome(payload("", None, None), "audio/ogg", MediaKind::Audio, None);
    assert!(matches!(failed, MediaOutcome::Untouched));
    assert!(matches!(webhook_route(failed, true), WebhookRoute::Enqueue(None)));
}

fn classification() -> Classification {
    Classification { categoria: s("Lazer"), subcategoria: s("Festa"), is_activity: true }
}

fn values() -> ValidatedFieldValues {
    ValidatedFieldValues { categoria_id: s("c"), subcategoria_id: s("sc"), stars: 3 }
}

fn answer(a: EnrichAction) -> String {
    match a {
        EnrichAction::Answer(v) => v.to_json_string(),
        other => panic!("expected an answer, got {:?}", other),
    }
}

#[test]
fn enrichment_steps_in_order() {
    assert!(answer(enrich_step("t1", true, EnrichEvent::Fetched(Ok(false)))).contains("\"action\":\"skipped\""));
    assert!(matches!(enrich_step("t1", true, EnrichEvent::Fetched(Ok(true))), EnrichAction::Classify));
    assert_eq!(
        answer(enrich_step("t1", false, EnrichEvent::Fetched(Ok(true)))),
        r#"{"error":"IA Service not available","success":false,"task_id":"t1"}"#
    );
    assert_eq!(
        answer(enrich_step("t1", true, EnrichEvent::Fetched(Err(s("x"))))),
        r#"{"error":"Failed to fetch task: x","success":false,"task_id":"t1"}"#
    );
    assert!(matches!(enrich_step("t1", true, EnrichEvent::Classified(Ok(classification()))), EnrichAction::Validate(_)));
    assert!(answer(enrich_step("t1", true, EnrichEvent::Classified(Err(s("y"))))).contains("Classification failed: y"));
    assert!(answer(enrich_step("t1", true, EnrichEvent::Validated(classification(), Err(s("z"))))).contains("Validation failed: z"));
    assert!(matches!(
        enrich_step("t1", true, EnrichEvent::Validated(classification(), Ok(values()))),
        EnrichAction::Enrich(_, _)
    ));
    assert!(answer(enrich_step("t1", true, EnrichEvent::Enriched(classification(), values(), Err(s("w")))))
        .contains("Enrichment failed: w"));
    assert_eq!(
        answer(enrich_step("t1", true, EnrichEvent::Enriched(classification(), values(), Ok(())))),
        r#"{"action":"enriched","classification":{"categoria":"Lazer","stars":3,"subcategoria":"Festa"},"success":true,"task_id":"t1"}"#
    );
}

fn settings(ai_enabled: bool, token: Option<&str>) -> Settings {
    Settings {
        server: ServerSettings { host: s("0.0.0.0"), port: 8080 },
        clickup: ClickUpSettings { token: s("t"), list_id: s("l"), base_url: s("https://api.clickup.com") },
        gcp: GcpSettings {
            project_id: s("p"),
            topic_name: s("t"),
            subscription_name: s("s"),
            pubsub_topic: None,
            media_processing_topic: None,
            media_results_topic: None,
            media_results_subscription: None,
        },
        chatguru: ChatGuruSettings {
            webhook_secret: None,
            validate_signature: false,
            legacy_response_mode: None,
            api_token: token.map(s),
            api_endpoint: None,
            account_id: None,
            phone_ids: None,
        },
        vertex: None,
        ai: Some(AISettings { enabled: ai_enabled, use_hybrid: None, prefer_vertex: None }),
        hybrid_ai: None,
    }
}

fn queued(processed: bool) -> QueuedMessage {
    QueuedMessage {
        chat_id: s("chat-1"),
        phone: s("5511"),
        nome: s("Ana"),
        message: s("preciso de um táxi"),
        annotation: None,
        timestamp: 0,
        processed,
    }
}

fn conversation() -> ConversationState {
    ConversationState {
        chat_id: s("chat-1"),
        phone: s("5511"),
        nome: s("Ana"),
        messages: vec![queued(false)],
        last_processed: 0,
        active: true,
    }
}

#[test]
fn scheduler_creates_one_task_per_activity_and_confirms_after() {
    let st = settings(true, Some("tok"));
    let c = conversation();
    let m = queued(false);
    assert!(matches!(message_step(&st, true, &c, &m, MessageEvent::Start), MessageAction::Classify));
    assert!(matches!(message_step(&st, true, &c, &queued(true), MessageEvent::Start), MessageAction::Done));
    assert!(matches!(message_step(&st, false, &c, &m, MessageEvent::Start), MessageAction::Done));
    assert!(matches!(message_step(&settings(false, None), true, &c, &m, MessageEvent::Start), MessageAction::Done));
    match message_step(&st, true, &c, &m, MessageEvent::Classified(Some(true))) {
        MessageAction::CreateTask(p) => {
            assert_eq!(p.origem, "scheduler");
            assert_eq!(p.texto_mensagem, "preciso de um táxi");
        }
        other => panic!("unexpected {:?}", other),
    }
    assert!(matches!(message_step(&st, true, &c, &m, MessageEvent::Classified(Some(false))), MessageAction::Done));
    assert!(matches!(message_step(&st, true, &c, &m, MessageEvent::Classified(None)), MessageAction::Done));
    match message_step(&st, true, &c, &m, MessageEvent::Created(true)) {
        MessageAction::Confirm { target, phone, phone_id, text } => {
            assert_eq!(target, (s("tok"), s("https://s15.chatguru.app"), s("625584ce6fdcb7bda7d94aa8")));
            assert_eq!(phone, "5511");
            assert_eq!(phone_id, "62558780e2923cc4705beee1");
            assert_eq!(text, "Ok ✅");
        }
        other => panic!("unexpected {:?}", other),
    }
    assert!(matches!(message_step(&settings(true, None), true, &c, &m, MessageEvent::Created(true)), MessageAction::Done));
    assert!(matches!(message_step(&st, true, &c, &m, MessageEvent::Created(false)), MessageAction::Done));
}

#[test]
fn open_breaker_refuses_calls_until_the_timeout() {
    let mut cb = SimpleCircuitBreaker::new(CircuitBreakerConfig {
        failure_threshold: 2,
        timeout_duration: 30,
        half_open_max_calls: 3,
        success_threshold: 3,
    });
    assert_eq!(cb.guard_call_at(1000), Ok(()));
    assert_eq!(cb.complete_at::<u32>(Err(s("a")), 1000), Err(s("a")));
    assert_eq!(cb.guard_call_at(1001), Ok(()));
    assert_eq!(cb.complete_at::<u32>(Err(s("b")), 1001), Err(s("b")));
    assert_eq!(cb.get_state(), 1);
    assert_eq!(cb.guard_call_at(1020), Err(s("Circuit breaker is open")));
    assert_eq!(cb.guard_call_at(1032), Ok(()));
    assert_eq!(cb.get_state(), 2);
    assert_eq!(cb.complete_at(Ok(7u32), 1033), Ok(7));
}

fn activity(reason: &str) -> ActivityClassification {
    ActivityClassification {
        reason: s(reason),
        is_activity: true,
        category: None,
        campanha: None,
        description: None,
        space_name: None,
        folder_name: None,
        list_name: None,
        info_1: None,
        info_2: None,
        tipo_atividade: None,
        sub_categoria: None,
        subtasks: vec![],
        status_back_office: None,
    }
}

#[test]
fn hybrid_classification_falls_back_to_openai() {
    let config = HybridAIConfig {
        use_vertex_primary: true,
        vertex_enabled: true,
        vertex_timeout_ms: 1000,
        openai_fallback_enabled: true,
        verbose_logging: false,
    };
    assert!(matches!(classify_step(&config, true, ClassifyEvent::Start, 0), ClassifyAction::AskVertex));
    assert!(matches!(classify_step(&config, false, ClassifyEvent::Start, 0), ClassifyAction::AskOpenAI));
    match classify_step(&config, true, ClassifyEvent::VertexAnswered(Ok(activity("v"))), 12) {
        ClassifyAction::Done(Ok(r)) => {
            assert_eq!(r.classification.reason, "v");
            assert_eq!(r.metadata.service_used, AIServiceType::VertexAI);
            assert!(!r.metadata.fallback_occurred);
        }
        other => panic!("unexpected {:?}", other),
    }
    assert!(matches!(
        classify_step(&config, true, ClassifyEvent::VertexAnswered(Err(s("x"))), 12),
        ClassifyAction::AskOpenAI
    ));
    match classify_step(&config, true, ClassifyEvent::OpenAIAnswered(Ok(activity("o"))), 20) {
        ClassifyAction::Done(Ok(r)) => {
            assert_eq!(r.metadata.service_used, AIServiceType::OpenAI);
            assert!(r.metadata.fallback_occurred);
            assert_eq!(r.metadata.debug_message, "OpenAI successful");
        }
        other => panic!("unexpected {:?}", other),
    }
    match classify_step(&config, true, ClassifyEvent::OpenAIAnswered(Err(s("down"))), 20) {
        ClassifyAction::Done(Err(e)) => {
            assert_eq!(e, AppError::InternalError(s("Todos os serviços AI falharam. OpenAI: down")))
        }
        other => panic!("unexpected {:?}", other),
    }
}

#[test]
fn available_categories_are_distinct_even_when_built_by_hand() {
    let mut c = AiPromptConfig::fallback();
    let mapping = |id: &str| chatguru_clickup::services::prompts::CategoryMapping { id: s(id) };
    c.category_mappings = vec![(s("Lazer"), mapping("1")), (s("Compras"), mapping("2")), (s("Lazer"), mapping("3"))];
    assert_eq!(c.get_available_categories(), vec![s("Lazer"), s("Compras")]);
}
