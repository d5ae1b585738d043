use chatguru_clickup::auth::client::{extract_oauth_error_code, validation_for_response, AuthorizedTeam};
use chatguru_clickup::auth::pages::{error_page, success_page, success_with_warning_page, teams_html};
use chatguru_clickup::auth::handlers::{callback_step, exchange_error, missing_code_message, CallbackStep, OAuthCallbackParams};
use chatguru_clickup::auth::token_manager::{refused_token_error, unsaved_token_error, TokenCache};
use chatguru_clickup::config::settings::{
    ChatGuruSettings, ClickUpSettings, GcpSettings, ServerSettings, Settings,
};
use base64::Engine;
use chatguru_clickup::handlers::clickup_webhook::{event_envelope, retry_backoff_ms, webhook_topic, EventIds};
use chatguru_clickup::handlers::health::{health_body, is_ready, readiness, status_body, ClickUpProbe};
use chatguru_clickup::handlers::pubsub_handler::{decode_log_data, enriched_response, skipped_response};
use chatguru_clickup::handlers::webhook::{
    ack_response, audio_filename, media_kind, transcription_annotation, webhook_info, MediaKind,
};
use chatguru_clickup::handlers::worker::{
    envelope_raw_payload, message_id_of, monthly_list_name, EnvelopeError, ProcessedMessages,
};
use chatguru_clickup::json::JsonValue;
use chatguru_clickup::middleware::admin_auth::{
    admin_access, is_production, service_unavailable_body, unauthorized_body, AdminAccess,
};

fn s(x: &str) -> String {
    x.to_string()
}

fn encode_base64(bytes: &[u8]) -> String {
    base64::engine::general_purpose::STANDARD.encode(bytes)
}

fn obj(members: Vec<(&str, JsonValue)>) -> JsonValue {
    JsonValue::Object(members.into_iter().map(|(k, v)| (k.to_string(), v)).collect())
}

fn text(x: &str) -> JsonValue {
    JsonValue::Str(s(x))
}

fn push_request(data: &str) -> JsonValue {
    obj(vec![("message", obj(vec![("data", text(data)), ("messageId", text("m-1"))]))])
}

// ----- Webhook

#[test]
fn webhook_info_defaults_and_preview() {
    let long: String = "x".repeat(120);
    let info = webhook_info(&obj(vec![
        ("texto_mensagem", text(&long)),
        ("media_url", text("https://s3/Doc.PDF")),
    ]));
    assert_eq!(info.chat_id, "unknown");
    assert_eq!(info.sender_name, "unknown");
    assert_eq!(info.message_type, "text");
    assert!(info.has_media);
    assert!(info.is_pdf);
    assert_eq!(info.message_preview, format!("{}...", "x".repeat(100)));
}

#[test]
fn webhook_media_kinds() {
    assert_eq!(media_kind("audio/ogg"), MediaKind::Audio);
    assert_eq!(media_kind("ptt"), MediaKind::Audio);
    assert_eq!(media_kind("image/png"), MediaKind::Image);
    assert_eq!(media_kind("application/pdf"), MediaKind::Pdf);
    assert_eq!(media_kind("video/mp4"), MediaKind::Unsupported);
}

#[test]
fn webhook_audio_texts() {
    assert_eq!(audio_filename("https://s3/voice.oga?sig=abc"), "audio.oga");
    assert_eq!(
        transcription_annotation("olá"),
        "🎵 **Áudio Transcrito**\n\n\"olá\"\n\nℹ️ A transcrição foi processada automaticamente."
    );
    assert_eq!(
        ack_response("r1", "c1", 12).to_json_string(),
        r#"{"chat_id":"c1","message":"Success","processing_time_ms":12,"request_id":"r1"}"#
    );
}

// ----- Worker

#[test]
fn worker_message_ids_and_deduplication() {
    assert_eq!(message_id_of(&push_request("")), "m-1");
    assert_eq!(message_id_of(&obj(vec![])), "unknown");
    let mut seen = ProcessedMessages::new();
    assert!(!seen.check_and_mark("m-1", 1000));
    assert!(seen.check_and_mark("m-1", 1000 + 3599));
    assert!(!seen.check_and_mark("m-1", 1000 + 3600 + 3599 + 1));
}

#[test]
fn worker_envelope_decoding() {
    let envelope = r#"{"raw_payload":"{\"nome\":\"Ana\"}"}"#;
    let body = push_request(&encode_base64(envelope.as_bytes()));
    assert_eq!(envelope_raw_payload(&body), Ok(s(r#"{"nome":"Ana"}"#)));

    assert_eq!(envelope_raw_payload(&obj(vec![])), Err(EnvelopeError::MissingData));
    assert!(matches!(envelope_raw_payload(&push_request("%%%")), Err(EnvelopeError::InvalidBase64(_))));
    let bad_utf8 = push_request(&encode_base64(&[0xff, 0xfe]));
    assert!(matches!(envelope_raw_payload(&bad_utf8), Err(EnvelopeError::InvalidUtf8(_))));
    let not_json = push_request(&encode_base64(b"not json"));
    assert!(matches!(envelope_raw_payload(&not_json), Err(EnvelopeError::InvalidEnvelopeJson(_))));
    let no_raw = push_request(&encode_base64(br#"{"other":1}"#));
    assert_eq!(envelope_raw_payload(&no_raw), Err(EnvelopeError::MissingRawPayload));
    assert_eq!(EnvelopeError::MissingData.message(), "Missing message.data in Pub/Sub payload");
    assert_eq!(EnvelopeError::InvalidBase64(s("x")).message(), "Failed to decode base64: x");
    assert_eq!(EnvelopeError::MissingRawPayload.message(), "Missing raw_payload in envelope");
}

#[test]
fn worker_monthly_list() {
    assert_eq!(monthly_list_name(11, 2025), "NOVEMBRO 2025");
    assert_eq!(monthly_list_name(3, 2024), "MARÇO 2024");
}

// ----- Pub/Sub handler

#[test]
fn pubsub_handler_answers() {
    assert_eq!(decode_log_data(&encode_base64(b"log line")).unwrap(), "log line");
    assert!(decode_log_data("%%%").is_err());
    assert_eq!(
        enriched_response("t1", "Lazer", "Festa", 4).to_json_string(),
        r#"{"action":"enriched","classification":{"categoria":"Lazer","stars":4,"subcategoria":"Festa"},"success":true,"task_id":"t1"}"#
    );
    assert!(skipped_response("t1").to_json_string().contains("\"task_id\":\"t1\""));
}

// ----- ClickUp webhooks

#[test]
fn clickup_webhook_topic_and_retries() {
    assert_eq!(webhook_topic(None), "clickup-webhook-events");
    assert_eq!(webhook_topic(Some("t")), "t");
    assert_eq!(retry_backoff_ms(1), Some(100));
    assert_eq!(retry_backoff_ms(2), Some(200));
    assert_eq!(retry_backoff_ms(3), None);
}

#[test]
fn clickup_webhook_envelope() {
    let ids = EventIds {
        webhook_id: s("w1"),
        event: s("taskCreated"),
        task_id: Some(s("t1")),
        list_id: None,
        folder_id: None,
        space_id: None,
    };
    assert_eq!(
        event_envelope(&ids, JsonValue::Null, "2025-01-01T00:00:00Z").to_json_string(),
        r#"{"data":null,"event":"taskCreated","folder_id":null,"list_id":null,"received_at":"2025-01-01T00:00:00Z","source":"clickup-webhook","space_id":null,"task_id":"t1","webhook_id":"w1"}"#
    );
}

// ----- Health

fn settings(token: &str, list: &str) -> Settings {
    Settings {
        server: ServerSettings { host: s("0.0.0.0"), port: 8080 },
        clickup: ClickUpSettings { token: s(token), list_id: s(list), base_url: s("https://api.clickup.com") },
        gcp: GcpSettings {
            project_id: s("proj"),
            topic_name: s("topic"),
            subscription_name: s("sub"),
            pubsub_topic: None,
            media_processing_topic: None,
            media_results_topic: None,
            media_results_subscription: None,
        },
        chatguru: ChatGuruSettings {
            webhook_secret: None,
            validate_signature: false,
            legacy_response_mode: None,
            api_token: None,
            api_endpoint: None,
            account_id: None,
            phone_ids: None,
        },
        vertex: None,
        ai: None,
        hybrid_ai: None,
    }
}

#[test]
fn health_answers() {
    assert_eq!(
        health_body("1.0.0", "T", true).to_json_string(),
        r#"{"memory_ok":true,"service":"chatguru-clickup-middleware","status":"healthy","timestamp":"T","version":"1.0.0"}"#
    );
    assert!(is_ready(ClickUpProbe::Timeout));
    assert!(!is_ready(ClickUpProbe::Disconnected));
    let (ok, body) = readiness(ClickUpProbe::Disconnected, "1", "T", "ws");
    assert!(!ok);
    assert_eq!(
        body.to_json_string(),
        r#"{"details":{"dependencies":{"clickup":{"status":"disconnected","workspace_id":"ws"}},"ready":false,"service":"chatguru-clickup-middleware","timestamp":"T","version":"1"},"error":"Service not ready"}"#
    );
}

#[test]
fn status_report_of_unconfigured_clickup() {
    let body = status_body(&settings("", "L"), "1", "T", "development").to_json_string();
    assert!(body.starts_with(r#"{"chatguru_configured":false,"clickup_connected":false,"environment":"development","integrations":{"chatguru":{"account_id":"not_configured","api_configured":false,"webhook_secret_configured":false},"clickup":{"configured":false,"connection":"not_configured","list_id":"L","token_configured":false}"#));
    let body = status_body(&settings("tok", "L"), "1", "T", "production").to_json_string();
    assert!(body.contains(r#""clickup":{"configured":true,"connection":"success","list_id":"L","list_name":"unknown","list_status":"ok","token_configured":true}"#));
    assert!(body.contains(r#""clickup_connected":true"#));
}

// ----- Admin guard

#[test]
fn admin_guard_decisions() {
    assert_eq!(admin_access(Some("k"), Some("k"), true), AdminAccess::Granted);
    assert_eq!(admin_access(Some("k"), Some("x"), false), AdminAccess::Unauthorized);
    assert_eq!(admin_access(Some("k"), None, false), AdminAccess::Unauthorized);
    assert_eq!(admin_access(None, None, false), AdminAccess::Granted);
    assert_eq!(admin_access(None, Some("k"), true), AdminAccess::Unavailable);
    assert!(is_production(Some("production")));
    assert!(!is_production(None));
    assert!(unauthorized_body().to_json_string().contains("Missing or invalid X-Admin-Key header"));
    assert!(service_unavailable_body().to_json_string().contains("ADMIN_API_KEY not configured on server"));
}

// ----- OAuth

#[test]
fn oauth_error_codes() {
    assert_eq!(extract_oauth_error_code(r#"{"err":"x","ECODE":"OAUTH_025"}"#), Some(s("OAUTH_025")));
    assert_eq!(extract_oauth_error_code(r#"{"error":{"code":"OAUTH_019"}}"#), Some(s("OAUTH_019")));
    assert_eq!(extract_oauth_error_code("plain Token expired text"), Some(s("Token expired")));
    assert_eq!(extract_oauth_error_code("nothing"), None);
}

#[test]
fn oauth_token_validation() {
    let r = validation_for_response(200, "");
    assert!(r.is_valid && !r.should_invalidate_cache && !r.should_reauthorize);
    let r = validation_for_response(401, r#"{"ECODE":"OAUTH_027"}"#);
    assert!(!r.is_valid && !r.should_invalidate_cache && r.should_reauthorize);
    assert_eq!(r.error_code, Some(s("OAUTH_027")));
    let r = validation_for_response(500, "oops");
    assert!(!r.is_valid && !r.should_invalidate_cache && !r.should_reauthorize);
    assert_eq!(r.status_code, Some(500));
    let r = validation_for_response(403, "oops");
    assert!(r.should_invalidate_cache && r.should_reauthorize);
}

#[test]
fn oauth_token_cache_and_messages() {
    let mut c = TokenCache::new(300);
    assert!(!c.is_valid_at(0));
    c.set_at(s("tok"), 1_000_000);
    assert!(c.is_valid_at(1_000_000 + 299_999));
    assert!(!c.is_valid_at(1_000_000 + 300_000));
    c.clear();
    assert!(!c.is_valid_at(1_000_000));
    assert_eq!(refused_token_error(Some("OAUTH_027")), "Team não autorizado no ClickUp. Verifique as permissões do workspace.");
    assert_eq!(unsaved_token_error(None), "Token fornecido é inválido");
}

#[test]
fn oauth_callback_steps() {
    assert!(matches!(callback_step(OAuthCallbackParams { code: None, error: Some(s("denied")) }), CallbackStep::ShowError(e) if e == "denied"));
    assert!(matches!(callback_step(OAuthCallbackParams { code: None, error: None }), CallbackStep::MissingCode));
    assert!(matches!(callback_step(OAuthCallbackParams { code: Some(s("c")), error: None }), CallbackStep::Exchange(c) if c == "c"));
    assert_eq!(missing_code_message(), "Missing code parameter");
    assert_eq!(exchange_error("x"), "Failed to exchange code: x");
}

// ----- OAuth pages

#[test]
fn oauth_pages() {
    let teams = vec![
        AuthorizedTeam { id: s("1"), name: s("Equipe A") },
        AuthorizedTeam { id: s("2"), name: s("Equipe B") },
    ];
    let box_html = teams_html(Some(&teams));
    assert!(box_html.contains("<ul><li><strong>Equipe A</strong> (ID: 1)</li>\n<li><strong>Equipe B</strong> (ID: 2)</li></ul>"));
    assert_eq!(teams_html(None), "");
    let page = success_page("TOKEN123", Some(&teams));
    assert!(page.contains("<textarea id=\"token\" rows=\"4\" readonly>TOKEN123</textarea>"));
    assert!(page.contains("body { font-family"));
    assert!(page.contains(&box_html));
    let page = success_with_warning_page("T", "falhou ao salvar", None);
    assert!(page.contains("<p><strong>falhou ao salvar</strong></p>"));
    let page = error_page("access_denied");
    assert!(page.contains("<p><strong>Erro:</strong> access_denied</p>"));
    assert!(page.trim_start().starts_with("<!DOCTYPE html>"));
}
