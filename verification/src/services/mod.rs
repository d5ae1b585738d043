//! Services of the middleware: classification, prompts, caches and the rest.

pub mod task_categorizer;
pub mod prompt_text;
pub mod prompts;
pub mod ai_prompt_loader;
pub mod field_validator;
pub mod task_fetcher;
pub mod log_parser;
pub mod vertex;
pub mod secrets;
pub mod chatguru;
pub mod context_cache;
pub mod smart_classifier;
pub mod gcp_optimizations;
pub mod hybrid_ai;
pub mod message_scheduler;
pub mod prompt_template;
pub mod folder_resolver;
pub mod smart_assignee_finder;
pub mod task_classifier;
pub mod task_enricher;
pub mod estrutura;
pub mod config_db;
pub mod media_sync;
pub mod pubsub;
pub mod conversation_tracker;
pub mod cloud_tasks;
pub mod clickup_fields_fetcher;
pub mod clickup;
