use chatguru_clickup::config::custom_fields_loader::CustomFieldsMappings;
use chatguru_clickup::config::settings::CircuitBreakerConfig;
use chatguru_clickup::services::folder_resolver::{fallback_folder_id, ClienteMappings};
use chatguru_clickup::services::prompts::AiPromptConfig;
use chatguru_clickup::services::smart_classifier::{normalize_for_learning, tokenize};
use chatguru_clickup::error::AppError;
use chatguru_clickup::json::JsonValue;
use chatguru_clickup::services::cloud_tasks::{
    enqueue_error, enqueued_task_name, task_request, tasks_api_url, webhook_task_name, worker_url, CloudTasksConfig,
};
use chatguru_clickup::services::chatguru::{
    annotation_url, api_base, clean_phone, confirmation_url, send_text_body, send_text_error, send_text_url,
};
use chatguru_clickup::services::clickup::{build_history_comment, find_task_titled, listing_forbidden, task_id_of};
use chatguru_clickup::services::clickup_fields_fetcher::{
    available_categories, cache_fresh, field_mappings, generate_dynamic_prompt_section, CustomField,
    DropdownOption, TypeConfig,
};
use chatguru_clickup::services::context_cache::{should_auto_save, ContextCache};
use chatguru_clickup::services::conversation_tracker::{
    detect_changes, is_short_message, split_words, ConversationTracker,
};
use chatguru_clickup::services::estrutura::{
    cache_key, create_list_body, created_list_id, find_list_id_named, get_month_name, monthly_list_name,
    name_key, normalize_name_local, structure_not_found_message, year_month_text, EstruturaCache,
};
use chatguru_clickup::services::gcp_optimizations::SimpleCircuitBreaker;
use chatguru_clickup::services::log_parser::task_id_from_entry;
use chatguru_clickup::services::pubsub::{event_attributes, EventType, PubSubEvent};
use chatguru_clickup::services::secrets::{
    clickup_token_from, list_id_from, openai_key_from, project_id_from, secret_path,
};
use chatguru_clickup::services::smart_assignee_finder::{
    exact_match_index, flexible_id, unique_assignees, ClickUpUser,
};
use chatguru_clickup::services::vertex::{inline_media_part, media_type_of_response, Part, SupportedMimeType};
use chatguru_clickup::models::payload::{GenericPayload, WebhookPayload};

fn s(x: &str) -> String {
    x.to_string()
}

fn obj(members: Vec<(&str, JsonValue)>) -> JsonValue {
    JsonValue::Object(members.into_iter().map(|(k, v)| (k.to_string(), v)).collect())
}

fn text(x: &str) -> JsonValue {
    JsonValue::Str(s(x))
}

// ----- ChatGuru API calls

#[test]
fn chatguru_phone_is_reduced_to_digits() {
    assert_eq!(clean_phone("+55 (11) 99999-0000"), "5511999990000");
}

#[test]
fn chatguru_api_base_forms() {
    assert_eq!(api_base("https://s15.chatguru.app/api/v1"), "https://s15.chatguru.app/api/v1");
    assert_eq!(api_base("https://s15.chatguru.app/"), "https://s15.chatguru.app/api/v1");
    assert_eq!(api_base("https://s15.chatguru.app"), "https://s15.chatguru.app/api/v1");
}

#[test]
fn chatguru_annotation_url() {
    let u = annotation_url("https://s15.chatguru.app", "KEY", "ACC", "Tarefa criada: ok", "+55 11 9");
    assert_eq!(
        u,
        "https://s15.chatguru.app/api/v1?key=KEY&account_id=ACC&phone_id=62558780e2923cc4705beee1&action=note_add&note_text=Tarefa%20criada%3A%20ok&chat_number=55119"
    );
}

#[test]
fn chatguru_confirmation_url_with_phone_id() {
    let u = confirmation_url("https://x/api/v1", "K", "A", Some("PID"), "Ok", "123");
    assert_eq!(u, "https://x/api/v1?key=K&account_id=A&phone_id=PID&action=message_send&text=Ok&chat_number=123");
}

#[test]
fn chatguru_send_text_request() {
    assert_eq!(send_text_url("https://api"), "https://api/messages/send-text");
    assert_eq!(
        send_text_body("A1", "5511", "oi").to_json_string(),
        r#"{"account_id":"A1","message":"oi","phone":"5511"}"#
    );
    assert_eq!(send_text_error("boom"), "ChatGuru API error: boom");
}

// ----- ClickUp tasks

#[test]
fn clickup_forbidden_listing() {
    assert!(listing_forbidden("error OAUTH_027 ..."));
    assert!(listing_forbidden("Team not authorized"));
    assert!(!listing_forbidden("timeout"));
}

#[test]
fn clickup_task_with_same_title_is_found() {
    let answer = obj(vec![(
        "tasks",
        JsonValue::Array(vec![
            obj(vec![("id", text("1")), ("name", text("Outra"))]),
            obj(vec![("id", text("2")), ("name", text("Reserva"))]),
            obj(vec![("id", text("3")), ("name", text("Reserva"))]),
        ]),
    )]);
    let t = find_task_titled(&answer, "Reserva").unwrap();
    assert_eq!(task_id_of(&t), "2");
    assert!(find_task_titled(&answer, "Nada").is_none());
    assert!(find_task_titled(&obj(vec![]), "Reserva").is_none());
}

#[test]
fn clickup_history_comment() {
    let task = obj(vec![
        ("name", text("Antiga")),
        ("description", text("desc")),
        ("date_updated", JsonValue::Number(s("1700000000000"))),
    ]);
    let p = WebhookPayload::Generic(GenericPayload { nome: None, celular: None, email: None, mensagem: None, extra: vec![] });
    let c = build_history_comment(&task, &p, "2025-01-01T00:00:00Z");
    assert_eq!(
        c,
        "📝 **Atualização Automática via Webhook**\n\n**Timestamp:** 2025-01-01T00:00:00Z\n**Tipo de Payload:** Generic\n\n---\n\n**Histórico da Versão Anterior:**\n- **Título:** Antiga\n- **Última Atualização:** 1700000000000\n\n**Descrição Anterior:**\n```\ndesc\n```"
    );
}

// ----- Custom fields

fn field(id: &str, name: &str, opts: &[(&str, &str)]) -> CustomField {
    CustomField {
        id: s(id),
        name: s(name),
        field_type: s("drop_down"),
        type_config: Some(TypeConfig {
            options: Some(opts.iter().map(|(i, n)| DropdownOption { id: s(i), name: s(n), color: None }).collect()),
        }),
    }
}

#[test]
fn fields_mappings_and_categories() {
    let fields = vec![
        field("cat", "Categoria", &[("c1", "Lazer"), ("c2", "Compras")]),
        field("info1", "Solicitante (Info_1)", &[]),
        field("x", "Outro", &[("o", "ignored")]),
    ];
    assert_eq!(available_categories(&fields), vec![s("Lazer"), s("Compras")]);
    let m = field_mappings(&fields);
    assert_eq!(m.category_field_id, "cat");
    assert_eq!(m.categories, vec![(s("Lazer"), s("c1")), (s("Compras"), s("c2"))]);
    assert_eq!(m.info1_field_id, "info1");
    assert!(m.subcategories.is_empty());
}

#[test]
fn fields_prompt_section_lists_ten_subcategories() {
    let subs: Vec<(String, String)> = (1..=12).map(|i| (format!("s{}", i), format!("Sub {}", i))).collect();
    let subs_ref: Vec<(&str, &str)> = subs.iter().map(|(a, b)| (a.as_str(), b.as_str())).collect();
    let fields = vec![field("cat", "Categoria", &[("c1", "Lazer")]), field("sub", "Sub Categoria", &subs_ref)];
    let p = generate_dynamic_prompt_section(&fields);
    let expected_subs: String = (1..=10).map(|i| format!("- Sub {}\n", i)).collect();
    assert_eq!(
        p,
        format!(
            "CATEGORIAS DISPONÍVEIS NO CLICKUP:\n- Lazer\n\nSUBCATEGORIAS DISPONÍVEIS:\n{}... e mais 2 opções\n\n",
            expected_subs
        )
    );
}

#[test]
fn fields_cache_lasts_fifteen_minutes() {
    assert!(cache_fresh(1000, 1000 + 899));
    assert!(!cache_fresh(1000, 1000 + 900));
}

// ----- Classification cache

#[test]
fn context_cache_keys_messages_by_sha256_hex() {
    let mut c = ContextCache::new();
    c.store_classification_at("abc", true, s("atividade"), 30, 0);
    assert_eq!(c.entries[0].0, "ba7816bf8f01cfea414140de5dae2223b00361a396177a9cb410ff61f20015ad");
    assert_eq!(
        c.get_cached_at("ba7816bf8f01cfea414140de5dae2223b00361a396177a9cb410ff61f20015ad", 10),
        Some((true, s("atividade")))
    );
}

#[test]
fn context_cache_read_after_write_within_ttl() {
    let mut c = ContextCache::new();
    c.store_classification_at("pedido de taxi", true, s("atividade"), 30, 1000);
    assert_eq!(c.get_cached_classification_at("pedido de taxi", 1000 + 30 * 60 - 1), Some((true, s("atividade"))));
    assert_eq!(c.stats.cache_hits, 1);
    assert_eq!(c.get_cached_classification_at("pedido de taxi", 1000 + 30 * 60), None);
    assert_eq!(c.get_cached_classification_at("outra mensagem", 1000), None);
    assert_eq!(c.stats.cache_hits, 1);
}

#[test]
fn context_cache_cleanup_drops_entries_two_hours_old() {
    let mut c = ContextCache::new();
    c.store_at(s("a"), false, s("r"), 60, 0);
    c.store_at(s("b"), true, s("r"), 60, 5000);
    c.cleanup_at(7200);
    assert_eq!(c.entries.len(), 1);
    assert_eq!(c.entries[0].0, "b");
}

#[test]
fn context_cache_auto_save_every_fifty() {
    assert!(!should_auto_save(0));
    assert!(should_auto_save(50));
    assert!(!should_auto_save(51));
}

// ----- Conversation tracker

#[test]
fn conversation_words_and_short_messages() {
    assert_eq!(split_words("  a  b\tc "), vec![s("a"), s("b"), s("c")]);
    assert!(is_short_message("ok"));
    assert!(!is_short_message("isto é uma mensagem comprida"));
}

#[test]
fn conversation_context_joins_recent_messages() {
    let mut t = ConversationTracker::new();
    assert_eq!(t.aggregate_recent_context("55", "agora", 3), "agora");
    t.analyze_context_at("55", "primeira", true, 100);
    t.analyze_context_at("55", "segunda", true, 110);
    assert_eq!(t.aggregate_recent_context("55", "agora", 1), "segunda agora");
    assert_eq!(t.aggregate_recent_context("55", "agora", 5), "primeira segunda agora");
    assert_eq!(t.aggregate_recent_context("55", "agora", 0), "agora");
}

#[test]
fn conversation_cleanup_keeps_recent_conversations() {
    let mut t = ConversationTracker::new();
    t.analyze_context_at("old", "x", true, 0);
    t.analyze_context_at("new", "y", true, 7000);
    t.cleanup_old_conversations_at(7200);
    assert_eq!(t.conversations.len(), 1);
    assert_eq!(t.conversations[0].0, "new");
}

#[test]
fn conversation_changes_detected() {
    assert_eq!(detect_changes("muda o horário para amanhã"), vec![s("Nova instrução: muda o horário para amanhã")]);
    assert_eq!(
        detect_changes("Cancela, é urgente"),
        vec![s("Remoção de item"), s("Alteração de urgência"), s("Nova instrução: Cancela, é urgente")]
    );
}

// ----- Structure

#[test]
fn estrutura_local_names() {
    assert_eq!(normalize_name_local("  José da Conceição!! "), "jose da conceicao");
    assert_eq!(normalize_name_local("Ana   Maria-Souza"), "ana maria-souza");
    assert_eq!(name_key(Some(s("key")), "Ana"), "key");
    assert_eq!(name_key(None, "Ana"), "ana");
}

#[test]
fn estrutura_month_names() {
    assert_eq!(year_month_text(2025, 3), "2025-03");
    assert_eq!(get_month_name("2025-10"), "OUTUBRO 2025");
    assert_eq!(get_month_name("2025"), "DESCONHECIDO");
    assert_eq!(get_month_name("2025-13"), "DESCONHECIDO 2025");
    assert_eq!(monthly_list_name("OUTUBRO 2025", Some("Clientes Inativos / Carla")), "Carla - OUTUBRO 2025");
    assert_eq!(monthly_list_name("OUTUBRO 2025", Some("Anne / Carla")), "OUTUBRO 2025");
    assert_eq!(cache_key("anne", "carla"), "anne|carla");
}

#[test]
fn estrutura_cache_read_after_write() {
    let mut c = EstruturaCache::new();
    c.store_list(s("f|2025-10"), s("L1"), 100);
    assert_eq!(c.cached_list("f|2025-10", 100 + 3600), Some(s("L1")));
    assert_eq!(c.cached_list("f|2025-10", 100 + 3601), None);
}

#[test]
fn estrutura_lists_answers() {
    let answer = obj(vec![(
        "lists",
        JsonValue::Array(vec![
            obj(vec![("id", text("9")), ("name", text("SETEMBRO 2025"))]),
            obj(vec![("id", text("10")), ("name", text("OUTUBRO 2025"))]),
        ]),
    )]);
    assert_eq!(find_list_id_named(&answer, "OUTUBRO 2025"), Some(s("10")));
    assert_eq!(find_list_id_named(&answer, "NOVEMBRO 2025"), None);
    assert_eq!(created_list_id(&obj(vec![("id", text("77"))])), Ok(s("77")));
    assert_eq!(created_list_id(&obj(vec![])), Err(AppError::InternalError(s("list_id não encontrado na resposta"))));
    assert_eq!(
        create_list_body("OUTUBRO 2025", "2025-10-01 10:00:00").to_json_string(),
        r#"{"content":"Lista criada automaticamente em 2025-10-01 10:00:00","name":"OUTUBRO 2025"}"#
    );
    assert_eq!(
        structure_not_found_message("carla", "anne"),
        "Pasta não encontrada no banco de dados para Cliente='carla' e Atendente='anne'. Por favor, crie a pasta no ClickUp e adicione o mapeamento no banco de dados."
    );
}

// ----- Circuit breaker

#[test]
fn circuit_breaker_opens_waits_and_closes() {
    let config = CircuitBreakerConfig { failure_threshold: 2, timeout_duration: 30, half_open_max_calls: 3, success_threshold: 2 };
    let mut b = SimpleCircuitBreaker::new(config);
    assert!(b.can_execute_at(0));
    b.on_failure_at(10);
    assert_eq!(b.get_state(), 0);
    b.on_failure_at(11);
    assert_eq!(b.get_state(), 1);
    assert!(!b.can_execute_at(41));
    assert!(b.can_execute_at(42));
    assert_eq!(b.get_state(), 2);
    b.on_success();
    assert_eq!(b.get_state(), 2);
    b.on_success();
    assert_eq!(b.get_state(), 0);
    assert!(b.can_execute_at(43));
}

// ----- Log entries

#[test]
fn log_entry_json_message() {
    let entry = obj(vec![("jsonPayload", obj(vec![("message", text("Task criada - ID: abc999"))]))]);
    assert_eq!(task_id_from_entry("{...}", Some(&entry)), Some(s("abc999")));
    assert_eq!(task_id_from_entry("Task criada - ID: zz1", None), Some(s("zz1")));
}

// ----- Pub/Sub

#[test]
fn pubsub_attributes() {
    let e = PubSubEvent {
        event_type: EventType::ErrorCritical,
        event_id: s("id1"),
        timestamp: s("t"),
        source: s("src"),
        data: obj(vec![]),
        metadata: None,
    };
    assert_eq!(
        event_attributes(&e),
        vec![
            (s("event_type"), s("ErrorCritical")),
            (s("source"), s("src")),
            (s("event_id"), s("id1")),
            (s("timestamp"), s("t")),
            (s("severity"), s("critical")),
            (s("alert_required"), s("true")),
        ]
    );
    let e = PubSubEvent {
        event_type: EventType::TaskCreated,
        event_id: s("id2"),
        timestamp: s("t"),
        source: s("src"),
        data: obj(vec![("campanha", text("WhatsApp"))]),
        metadata: None,
    };
    let a = event_attributes(&e);
    assert_eq!(a.len(), 5);
    assert_eq!(a[4], (s("campanha"), s("WhatsApp")));
}

// ----- Secrets

#[test]
fn secrets_priority() {
    assert_eq!(project_id_from(Some("p1"), Some("p2")), "p1");
    assert_eq!(project_id_from(None, Some("p2")), "p2");
    assert_eq!(project_id_from(None, None), "buzzlightear");
    assert_eq!(secret_path("p", "clickup-oauth-token"), "projects/p/secrets/clickup-oauth-token/versions/latest");
    assert_eq!(clickup_token_from(None, Some(s("personal")), Some(s("env"))), Ok(s("personal")));
    assert_eq!(clickup_token_from(None, None, Some(s("test-token-from-env"))), Ok(s("test-token-from-env")));
    assert_eq!(
        clickup_token_from(None, None, None),
        Err(s("clickup_api_token não encontrado no Secret Manager (OAuth2 ou Personal) nem no ambiente"))
    );
    assert_eq!(openai_key_from(None, Some(s("k"))), Ok(s("k")));
    assert_eq!(list_id_from(Some(s("  ")), Some(s("test-list-from-env")), "default"), "test-list-from-env");
    assert_eq!(list_id_from(Some(s("sec")), Some(s("env")), "default"), "sec");
    assert_eq!(list_id_from(None, None, "default"), "default");
}

// ----- Assignees

fn user(id: &str, name: &str) -> ClickUpUser {
    ClickUpUser { id: s(id), username: s(name), email: None }
}

#[test]
fn assignee_exact_match_and_unique_users() {
    let users = vec![user("1", "William Duarte"), user("2", "Anne Souza"), user("3", "anne souza")];
    assert_eq!(exact_match_index(&users, "anne souza"), Some(1));
    assert_eq!(exact_match_index(&users, "gabriel"), None);
    let unique = unique_assignees(&vec![user("1", "A"), user("2", "B"), user("1", "A again")]);
    assert_eq!(unique.len(), 2);
    assert_eq!(unique[0].username, "A");
    assert_eq!(unique[1].id, "2");
    assert_eq!(flexible_id(&JsonValue::Number(s("42"))), Some(s("42")));
    assert_eq!(flexible_id(&text("x")), Some(s("x")));
    assert_eq!(flexible_id(&JsonValue::Null), None);
}

// ----- Media

#[test]
fn media_types_and_parts() {
    assert_eq!(media_type_of_response(Some("image/PNG")), Ok(SupportedMimeType::ImagePng));
    assert_eq!(media_type_of_response(None), Err(AppError::VertexError(s("Tipo MIME não suportado: application/octet-stream"))));
    match inline_media_part(b"hi", SupportedMimeType::ApplicationPdf).unwrap() {
        Part::InlineData(d) => {
            assert_eq!(d.mime_type, "application/pdf");
            assert_eq!(d.data, "aGk=");
        },
        _ => panic!("expected inline data"),
    }
    let big = vec![0u8; 10 * 1024 * 1024 + 1];
    assert_eq!(
        inline_media_part(&big, SupportedMimeType::ImagePng).err(),
        Some(AppError::VertexError(s("Arquivo muito grande: 10485761 bytes (máximo 10MB)")))
    );
}

// ----- Base64, UTF-8 and JSON decoding


// ----- Pattern classifier words

#[test]
fn classifier_tokens_and_learning_keys() {
    let t = tokenize("Oi, PRECISO de um orçamento");
    assert_eq!(t.len(), 3);
    assert_eq!(t[0], "oi,");
    assert!(t[1].starts_with("precis"));
    assert!(t[2].starts_with("orçament"));
    assert_eq!(normalize_for_learning("Bom dia!! Tudo bem?"), "bom dia tudo bem");
}

// ----- Folder mapping file

#[test]
fn folder_mapping_from_yaml() {
    let m = ClienteMappings::parse_yaml("cliente_solicitante_mappings:\n  Ana Souza: \"901\"\n  Bruno: \"902\"\n").unwrap();
    assert_eq!(m.dropdown_to_folder_mapping, vec![(s("Ana Souza"), s("901")), (s("Bruno"), s("902"))]);
    let shape = "Falha ao parsear YAML: dropdown_to_folder_mapping ausente ou com valores que não são texto";
    assert_eq!(ClienteMappings::parse_yaml("dropdown_to_folder_mapping:\n  Ana: [1, 2]\n").err(), Some(s(shape)));
    assert_eq!(ClienteMappings::parse_yaml("other: 1\n").err(), Some(s(shape)));
    let not_yaml = ClienteMappings::parse_yaml("a: [1, 2\n").unwrap_err();
    assert!(not_yaml.starts_with("Falha ao parsear YAML: "));
    assert!(not_yaml.len() > "Falha ao parsear YAML: ".len());
    let from_value = ClienteMappings::from_yaml_value(&obj(vec![(
        "dropdown_to_folder_mapping",
        obj(vec![("Ana", text("901"))]),
    )]))
    .unwrap();
    assert_eq!(from_value.dropdown_to_folder_mapping, vec![(s("Ana"), s("901"))]);
    assert_eq!(fallback_folder_id(None), "901320655648");
    assert_eq!(fallback_folder_id(Some(s("7"))), "7");
}

// ----- Fallback prompt configuration

#[test]
fn fallback_prompt_configuration() {
    let c = AiPromptConfig::fallback();
    assert_eq!(c.categories.len(), 6);
    assert_eq!(c.activity_types[1].name, "Especifica");
    assert_eq!(c.status_options[0].id, "7889796f-033f-450d-97dd-6fee2a44f1b1");
    assert!(c.response_format.starts_with("Responda APENAS com JSON válido:\n{"));
    assert!(c.field_ids.is_none());
    assert_eq!(c.get_category_id("Lazer"), None);
}

// ----- Custom field mappings file

#[test]
fn custom_field_mappings_from_yaml_text() {
    let text = "category_mappings:\n  - id: cat-field\n    name: Categoria_nova\n    type_config:\n      options:\n        - id: c1\n          name: Lazer\n        - id: c2\n          name: Compras\nfield_ids:\n  stars_field_id: stars-field\nsubcategory_mappings:\n  Lazer:\n    - name: Festa\n      id: s1\n      stars: 4\n    - name: incompleta\n";
    let m = CustomFieldsMappings::parse_yaml(text).unwrap();
    assert_eq!(m.category_field_id, "cat-field");
    assert_eq!(m.subcategory_field_id, "5333c095-eb40-4a5a-b0c2-76bfba4b1094");
    assert_eq!(m.stars_field_id, Some(s("stars-field")));
    assert_eq!(m.get_category_id("Compras"), Some(&s("c2")));
    assert_eq!(m.get_stars("Festa"), Some(4));
    assert_eq!(m.get_subcategory_info("Festa").unwrap().id, "s1");
    assert!(m.get_subcategory_info("incompleta").is_none());
    assert_eq!(
        CustomFieldsMappings::parse_yaml("category_mappings: []\n").err(),
        Some(s("Campo category_mappings[0].id não encontrado"))
    );
    assert!(CustomFieldsMappings::parse_yaml("a: [unclosed").is_err());
}

// ----- Cloud Tasks

#[test]
fn cloud_task_request() {
    let c = CloudTasksConfig { project_id: s("p"), location: s("us-central1"), queue_name: s("q") };
    assert_eq!(tasks_api_url(&c), "https://cloudtasks.googleapis.com/v2/projects/p/locations/us-central1/queues/q/tasks");
    assert_eq!(worker_url(None), "https://localhost:8080/worker/process-task");
    assert_eq!(worker_url(Some("svc.run.app")), "https://svc.run.app/worker/process-task");
    assert_eq!(webhook_task_name("abc"), "webhook-task-abc");
    assert_eq!(
        task_request("https://w/worker/process-task", "q", "webhook-task-abc", "{}").to_json_string(),
        r#"{"task":{"http_request":{"body":"e30=","headers":{"Content-Type":"application/json","X-Cloud-Tasks-Queue":"q","X-Cloud-Tasks-Task-Name":"webhook-task-abc"},"http_method":"POST","url":"https://w/worker/process-task"}}}"#
    );
    assert_eq!(enqueued_task_name(&obj(vec![("name", text("projects/p/tasks/1"))]), "x"), "projects/p/tasks/1");
    assert_eq!(enqueued_task_name(&obj(vec![]), "x"), "x");
    assert_eq!(enqueue_error("quota"), "Failed to enqueue Cloud Task: quota");
}
