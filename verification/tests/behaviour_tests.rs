use chatguru_clickup::auth::config::OAuth2Config;
use chatguru_clickup::auth::token_manager::TokenCache;
use chatguru_clickup::models::clickup::CustomFieldValue as ClickUpFieldValue;
use chatguru_clickup::config::settings::{
    AISettings, BatchProcessingConfig, ChatGuruSettings, ClickUpSettings, GcpSettings,
    ServerSettings, Settings, VertexSettings,
};
use chatguru_clickup::json::JsonValue;
use chatguru_clickup::models::classification::ActivityClassification;
use chatguru_clickup::services::config_db::parse_bool;
use chatguru_clickup::services::field_validator::ValidatedFieldValues;
use chatguru_clickup::services::folder_resolver;
use chatguru_clickup::services::gcp_optimizations::{BatchProcessor, BatchTask};
use chatguru_clickup::services::hybrid_ai::{
    AIProcessingMetadata, AIServiceType, ConnectivityTestResult, HybridAIConfig, HybridAIResult,
    ServiceStatus,
};
use chatguru_clickup::services::log_parser::extract_task_id_from_log;
use chatguru_clickup::services::media_sync::MediaSyncService;
use chatguru_clickup::services::smart_assignee_finder;
use chatguru_clickup::services::task_categorizer::categorize_task;
use chatguru_clickup::services::task_classifier::Classification;
use chatguru_clickup::services::task_fetcher::{is_field_empty, parse_task_json, CustomFieldValue};
use chatguru_clickup::services::vertex::{CachedToken, SupportedMimeType};

fn s(x: &str) -> String {
    x.to_string()
}

fn obj(members: Vec<(&str, JsonValue)>) -> JsonValue {
    JsonValue::Object(members.into_iter().map(|(k, v)| (k.to_string(), v)).collect())
}

#[test]
fn test_validated_field_values_structure() {
    let values = ValidatedFieldValues {
        categoria_id: "cat-123".to_string(),
        subcategoria_id: "subcat-456".to_string(),
        stars: 3,
    };

    assert_eq!(values.categoria_id, "cat-123");
    assert_eq!(values.subcategoria_id, "subcat-456");
    assert_eq!(values.stars, 3);
}

#[test]
fn test_categorize_motoboy() {
    let result = categorize_task("Envio de reembolso via motoboy").unwrap();
    assert_eq!(result.categoria, "Logística");
    assert_eq!(result.subcategoria, "Corrida de motoboy");
    assert_eq!(result.estrelas, 1);
}

#[test]
fn test_categorize_reembolso() {
    let result = categorize_task("Reembolso médico bradesco saúde").unwrap();
    assert_eq!(result.categoria, "Plano de Saúde");
    assert_eq!(result.subcategoria, "Reembolso Médico");
    assert_eq!(result.estrelas, 2);
}

#[test]
fn test_categorize_festa() {
    let result = categorize_task("Planejamento de festa de aniversário").unwrap();
    assert_eq!(result.categoria, "Lazer");
    assert_eq!(result.subcategoria, "Planejamento de festas");
    assert_eq!(result.estrelas, 4);
}

#[test]
fn test_classification_structure() {
    let classification = Classification {
        categoria: "Plano de Saúde".to_string(),
        subcategoria: "Reembolso Médico".to_string(),
        is_activity: true,
    };

    assert_eq!(classification.categoria, "Plano de Saúde");
    assert_eq!(classification.subcategoria, "Reembolso Médico");
    assert!(classification.is_activity);
}

#[test]
fn test_supported_mime_type_detection() {
    assert_eq!(SupportedMimeType::from_str("image/jpeg"), Some(SupportedMimeType::ImageJpeg));
    assert_eq!(SupportedMimeType::from_str("video/mp4"), Some(SupportedMimeType::VideoMp4));
    assert_eq!(SupportedMimeType::from_str("application/unknown"), None);
}

#[test]
fn test_mime_type_categories() {
    let image = SupportedMimeType::ImageJpeg;
    let video = SupportedMimeType::VideoMp4;
    let audio = SupportedMimeType::AudioMp3;
    let doc = SupportedMimeType::ApplicationPdf;

    assert!(image.is_image());
    assert!(!image.is_video());

    assert!(video.is_video());
    assert!(!video.is_audio());

    assert!(audio.is_audio());
    assert!(!audio.is_document());

    assert!(doc.is_document());
    assert!(!doc.is_image());
}

#[test]
fn test_cached_token_expiration() {
    let token = CachedToken::new("test_token".to_string(), 0);
    assert!(token.is_expired());

    let token = CachedToken::new("test_token".to_string(), 3600);
    assert!(!token.is_expired());
}

fn create_test_settings_vertex_disabled() -> Settings {
    Settings {
        server: ServerSettings { host: "0.0.0.0".to_string(), port: 8080 },
        clickup: ClickUpSettings {
            token: "test_token".to_string(),
            list_id: "test_list".to_string(),
            base_url: "https://api.clickup.com".to_string(),
        },
        gcp: GcpSettings {
            project_id: "test-project".to_string(),
            topic_name: "test-topic".to_string(),
            subscription_name: "test-sub".to_string(),
            pubsub_topic: None,
            media_processing_topic: None,
            media_results_topic: None,
            media_results_subscription: None,
        },
        chatguru: ChatGuruSettings {
            webhook_secret: None,
            validate_signature: false,
            legacy_response_mode: None,
            api_token: None,
            api_endpoint: None,
            account_id: None,
            phone_ids: None,
        },
        vertex: None,
        ai: Some(AISettings { enabled: true, use_hybrid: Some(true), prefer_vertex: Some(false) }),
        hybrid_ai: None,
    }
}

fn create_test_settings_vertex_enabled() -> Settings {
    let mut settings = create_test_settings_vertex_disabled();
    settings.vertex = Some(VertexSettings {
        enabled: true,
        project_id: "test-project".to_string(),
        location: "us-central1".to_string(),
        model: Some("gemini-1.5-pro".to_string()),
        timeout_seconds: 30,
        max_media_size_mb: None,
        supported_mime_types: None,
    });
    settings.ai = Some(AISettings { enabled: true, use_hybrid: Some(true), prefer_vertex: Some(true) });
    settings
}

#[test]
fn test_hybrid_ai_config_default() {
    let config = HybridAIConfig::default();

    assert!(!config.use_vertex_primary, "Por padrão, deve usar OpenAI como primário");
    assert!(!config.vertex_enabled, "Por padrão, Vertex AI deve estar desabilitado");
    assert!(config.openai_fallback_enabled, "Fallback OpenAI sempre habilitado");
    assert!(config.verbose_logging, "Logs detalhados por padrão");
    assert_eq!(config.vertex_timeout_ms, 15000, "Timeout padrão 15s");
}

#[test]
fn test_hybrid_ai_config_from_settings_vertex_disabled() {
    let settings = create_test_settings_vertex_disabled();
    let config = HybridAIConfig::from_settings(&settings);

    assert!(!config.vertex_enabled, "Vertex AI deve estar desabilitado");
    assert!(!config.use_vertex_primary, "OpenAI deve ser primário");
    assert!(config.openai_fallback_enabled, "Fallback sempre habilitado");
}

#[test]
fn test_hybrid_ai_config_from_settings_vertex_enabled() {
    let settings = create_test_settings_vertex_enabled();
    let config = HybridAIConfig::from_settings(&settings);

    assert!(config.vertex_enabled, "Vertex AI deve estar habilitado");
    assert!(config.use_vertex_primary, "Vertex AI deve ser primário quando habilitado");
    assert!(config.openai_fallback_enabled, "Fallback sempre habilitado");
    assert_eq!(config.vertex_timeout_ms, 30000, "Timeout configurado: 30s");
}

#[test]
fn test_hybrid_ai_result_structure() {
    let classification = ActivityClassification {
        reason: "Teste".to_string(),
        is_activity: true,
        category: Some("Logística".to_string()),
        campanha: Some("WhatsApp".to_string()),
        description: Some("Teste".to_string()),
        space_name: None,
        folder_name: None,
        list_name: None,
        info_1: None,
        info_2: None,
        tipo_atividade: None,
        sub_categoria: Some("Corrida de motoboy".to_string()),
        subtasks: vec![],
        status_back_office: None,
    };

    let metadata = AIProcessingMetadata {
        service_used: AIServiceType::OpenAI,
        fallback_occurred: false,
        processing_time_ms: 150,
        debug_message: "OpenAI successful".to_string(),
    };

    let result = HybridAIResult { classification: classification.clone(), metadata };

    assert_eq!(result.classification.reason, "Teste");
    assert!(result.classification.is_activity);
    assert_eq!(result.metadata.processing_time_ms, 150);
    assert!(!result.metadata.fallback_occurred);
}

#[test]
fn test_service_status_structure() {
    let status = ServiceStatus {
        openai_available: true,
        vertex_available: false,
        vertex_enabled: false,
        current_strategy: "OpenAI only".to_string(),
    };

    assert!(status.openai_available);
    assert!(!status.vertex_available);
    assert!(!status.vertex_enabled);
    assert_eq!(status.current_strategy, "OpenAI only");
}

#[test]
fn test_connectivity_test_result_structure() {
    let result = ConnectivityTestResult {
        openai_status: "healthy".to_string(),
        vertex_status: "not_available".to_string(),
        overall_health: "healthy".to_string(),
    };

    assert_eq!(result.openai_status, "healthy");
    assert_eq!(result.vertex_status, "not_available");
    assert_eq!(result.overall_health, "healthy");
}

#[test]
fn test_feature_flag_vertex_disabled_by_default() {
    let settings = create_test_settings_vertex_disabled();
    let config = HybridAIConfig::from_settings(&settings);

    assert!(!config.vertex_enabled, "Vertex AI deve estar desabilitado por padrão");
    assert!(!config.use_vertex_primary, "OpenAI deve ser primário por padrão");
}

#[test]
fn test_feature_flag_vertex_explicitly_disabled() {
    let mut settings = create_test_settings_vertex_disabled();
    settings.vertex = Some(VertexSettings {
        enabled: false,
        project_id: "test".to_string(),
        location: "us-central1".to_string(),
        model: None,
        timeout_seconds: 30,
        max_media_size_mb: None,
        supported_mime_types: None,
    });

    let config = HybridAIConfig::from_settings(&settings);

    assert!(!config.vertex_enabled, "Vertex AI deve estar desabilitado quando enabled=false");
    assert!(!config.use_vertex_primary, "OpenAI deve ser primário quando Vertex desabilitado");
}

#[test]
fn test_feature_flag_vertex_enabled() {
    let settings = create_test_settings_vertex_enabled();
    let config = HybridAIConfig::from_settings(&settings);

    assert!(config.vertex_enabled, "Vertex AI deve estar habilitado quando enabled=true");
    assert!(config.use_vertex_primary, "Vertex AI deve ser primário quando habilitado");
    assert!(config.openai_fallback_enabled, "Fallback OpenAI sempre habilitado");
}

#[test]
fn test_extract_task_id_pattern1() {
    let log = "🎉 Task criada - ID: abc123xyz";
    assert_eq!(extract_task_id_from_log(log), Some("abc123xyz".to_string()));
}

#[test]
fn test_extract_task_id_pattern2() {
    let log = "✅ Task criada com sucesso: Reembolso Médico (def456ghi)";
    assert_eq!(extract_task_id_from_log(log), Some("def456ghi".to_string()));
}

#[test]
fn test_extract_task_id_numeric() {
    let log = "Tarefa criada com ID 901322079100";
    assert_eq!(extract_task_id_from_log(log), Some("901322079100".to_string()));
}

#[test]
fn test_extract_task_id_json() {
    let log = r#"{"textPayload": "🎉 Task criada - ID: xyz789abc"}"#;
    assert_eq!(extract_task_id_from_log(log), Some("xyz789abc".to_string()));
}

#[test]
fn test_extract_task_id_none() {
    let log = "Mensagem sem ID de tarefa";
    assert_eq!(extract_task_id_from_log(log), None);
}

#[test]
fn test_parse_task_json() {
    let json = obj(vec![
        ("id", JsonValue::Str(s("abc123"))),
        ("name", JsonValue::Str(s("Reembolso Médico"))),
        ("description", JsonValue::Str(s("Descrição da tarefa"))),
        (
            "custom_fields",
            JsonValue::Array(vec![
                obj(vec![
                    ("id", JsonValue::Str(s("field1"))),
                    ("name", JsonValue::Str(s("Categoria"))),
                    ("value", JsonValue::Null),
                ]),
                obj(vec![
                    ("id", JsonValue::Str(s("field2"))),
                    ("name", JsonValue::Str(s("Subcategoria"))),
                    ("value", JsonValue::Str(s("valor"))),
                ]),
            ]),
        ),
    ]);

    let task = parse_task_json(&json).unwrap();
    assert_eq!(task.id, "abc123");
    assert_eq!(task.name, "Reembolso Médico");
    assert_eq!(task.custom_fields.len(), 2);
}

#[test]
fn test_is_field_empty() {
    let fields = vec![
        CustomFieldValue { id: "f1".to_string(), name: None, value: None },
        CustomFieldValue { id: "f2".to_string(), name: None, value: Some(JsonValue::Null) },
        CustomFieldValue { id: "f3".to_string(), name: None, value: Some(JsonValue::Str(s("valor"))) },
    ];

    assert!(is_field_empty(&fields, "f1"));
    assert!(is_field_empty(&fields, "f2"));
    assert!(!is_field_empty(&fields, "f3"));
    assert!(is_field_empty(&fields, "inexistente"));
}

#[test]
fn folder_resolver_test_normalize_name() {
    assert_eq!(folder_resolver::normalize_name("Raphaela Spielberg"), "raphaela spielberg");
    assert_eq!(folder_resolver::normalize_name("  Gabriel Benarros  "), "gabriel benarros");
    assert_eq!(folder_resolver::normalize_name("José Muritiba"), "jose muritiba");

    assert_eq!(folder_resolver::normalize_name("William Duarte (123)"), "william duarte");
    assert_eq!(folder_resolver::normalize_name("Fernanda Cruz (456)"), "fernanda cruz");
    assert_eq!(folder_resolver::normalize_name("Alex 123 Test"), "alex test");
    assert_eq!(folder_resolver::normalize_name("Carlos (Secron) 789"), "carlos secron");
}

#[test]
fn test_exact_match() {
    let mappings = vec![("Raphaela Spielberg".to_string(), "folder-123".to_string())];
    let normalized = folder_resolver::normalize_name("Raphaela Spielberg");
    let result = folder_resolver::find_exact_match(&mappings, &normalized).unwrap();
    assert_eq!(result.1, "folder-123");
}

#[test]
fn smart_assignee_finder_test_normalize_name() {
    assert_eq!(smart_assignee_finder::normalize_name("William"), "william");
    assert_eq!(smart_assignee_finder::normalize_name("Anne Souza"), "anne souza");
    assert_eq!(smart_assignee_finder::normalize_name("Gabriel Moreno"), "gabriel moreno");
    assert_eq!(smart_assignee_finder::normalize_name("WILLIAM DUARTE"), "william duarte");
    assert_eq!(smart_assignee_finder::normalize_name("  Anne  "), "anne");
}

#[test]
fn test_authorization_url() {
    let config = OAuth2Config {
        client_id: "test_client_id".to_string(),
        client_secret: "test_secret".to_string(),
        redirect_uri: "https://example.com/callback".to_string(),
        token_secret_name: "test-secret".to_string(),
    };

    let url = config.authorization_url();
    assert!(url.contains("client_id=test_client_id"));
    assert!(url.contains("redirect_uri=https%3A%2F%2Fexample.com%2Fcallback"));
}

#[test]
fn test_bool_parsing() {
    assert_eq!(parse_bool("true"), true);
    assert_eq!(parse_bool("false"), false);
    assert_eq!(parse_bool("1"), true);
    assert_eq!(parse_bool("0"), false);
}

#[test]
fn test_batch_processing() {
    let config = BatchProcessingConfig { enabled: true, batch_size: 2, batch_timeout: 1, max_batch_wait: 1 };
    let mut processor = BatchProcessor::new(config);
    let now: i64 = 1_700_000_000_000;

    processor.add_task(BatchTask { task_id: "1".to_string(), payload: "{}".to_string(), created_at: now });
    processor.add_task(BatchTask { task_id: "2".to_string(), payload: "{}".to_string(), created_at: now });

    let batch = processor.get_batch_if_ready_at(now);
    assert!(batch.is_some());
    assert_eq!(batch.unwrap().len(), 2);
}

#[test]
fn test_media_sync_disabled() {
    let sync = MediaSyncService::new(1);

    let result = sync.wait_for_result("test-123".to_string());
    assert!(result.is_err());

    let notified = sync.notify_result("test".to_string());
    assert!(!notified);

    assert_eq!(sync.pending_count(), 0);
}

#[test]
fn test_ai_service_type_serialization() {
    let openai_json = serde_json::to_string(AIServiceType::OpenAI.name()).unwrap();
    let vertex_json = serde_json::to_string(AIServiceType::VertexAI.name()).unwrap();

    assert_eq!(openai_json, "\"OpenAI\"");
    assert_eq!(vertex_json, "\"VertexAI\"");
}

#[test]
fn test_custom_field_values() {
    let categoria_value = ClickUpFieldValue::DropdownOption("cat-123".to_string());
    let stars_value = ClickUpFieldValue::Rating(3);

    match categoria_value {
        ClickUpFieldValue::DropdownOption(id) => assert_eq!(id, "cat-123"),
        _ => panic!("Tipo incorreto"),
    }

    match stars_value {
        ClickUpFieldValue::Rating(rating) => assert_eq!(rating, 3),
        _ => panic!("Tipo incorreto"),
    }
}

#[test]
fn test_token_cache_expiration() {
    let mut cache = TokenCache::new(1);
    let now: u64 = 1_700_000_000_000;
    assert!(!cache.is_valid_at(now));

    cache.set_at("test_token".to_string(), now);
    assert!(cache.is_valid_at(now));

    assert!(!cache.is_valid_at(now + 2_000));
}
