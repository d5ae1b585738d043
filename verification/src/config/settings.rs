//! Settings of the middleware, as read from its configuration files and environment.

use vstd::prelude::*;

verus! {

/// Where the HTTP server listens.
#[derive(Debug, Clone)]
pub struct ServerSettings {
    pub host: String,
    pub port: u16,
}

/// Access to ClickUp.
#[derive(Debug, Clone)]
pub struct ClickUpSettings {
    pub token: String,
    pub list_id: String,
    pub base_url: String,
}

/// The Google Cloud project and its Pub/Sub topics.
#[derive(Debug, Clone)]
pub struct GcpSettings {
    pub project_id: String,
    pub topic_name: String,
    pub subscription_name: String,
    /// Topic for raw webhooks.
    pub pubsub_topic: Option<String>,
    /// Topic for media processing requests.
    pub media_processing_topic: Option<String>,
    /// Topic for media processing results.
    pub media_results_topic: Option<String>,
    /// Subscription to the media results.
    pub media_results_subscription: Option<String>,
}

/// Access to ChatGuru.
#[derive(Debug, Clone)]
pub struct ChatGuruSettings {
    pub webhook_secret: Option<String>,
    pub validate_signature: bool,
    pub legacy_response_mode: Option<bool>,
    /// Token for sending annotations back.
    pub api_token: Option<String>,
    pub api_endpoint: Option<String>,
    pub account_id: Option<String>,
    pub phone_ids: Option<Vec<String>>,
}

/// Classification settings.
#[derive(Debug, Clone)]
pub struct AISettings {
    pub enabled: bool,
    /// Use the hybrid classification service.
    pub use_hybrid: Option<bool>,
    /// Prefer Vertex AI when the hybrid service is on.
    pub prefer_vertex: Option<bool>,
}

/// Settings of the hybrid classification service.
#[derive(Debug, Clone)]
pub struct HybridAISettings {
    /// The main feature flag.
    pub enabled: bool,
    /// Fall back automatically to the other service.
    pub fallback_enabled: Option<bool>,
    /// Log which service answered.
    pub log_service_used: Option<bool>,
    /// Timeout of Vertex AI.
    pub vertex_timeout_seconds: Option<u64>,
    /// Prefer Vertex AI for media.
    pub prefer_vertex_for_media: Option<bool>,
}

impl Default for HybridAISettings {
    /// Off, with fallback and logging on, a 10 s Vertex timeout and Vertex preferred for
    /// media.
    fn default() -> (r: Self)
        ensures
            !r.enabled,
            r.fallback_enabled == Some(true),
            r.log_service_used == Some(true),
            r.vertex_timeout_seconds == Some(10u64),
            r.prefer_vertex_for_media == Some(true),
    {
        HybridAISettings {
            enabled: false,
            fallback_enabled: Some(true),
            log_service_used: Some(true),
            vertex_timeout_seconds: Some(10),
            prefer_vertex_for_media: Some(true),
        }
    }
}

/// Thresholds of the circuit breaker.
#[derive(Debug, Clone)]
pub struct CircuitBreakerConfig {
    /// Failures in a row that open the circuit.
    pub failure_threshold: u32,
    /// Seconds an open circuit waits before it lets a call through.
    pub timeout_duration: u64,
    /// Calls that a half-open circuit lets through.
    pub half_open_max_calls: u32,
    /// Successes that close a half-open circuit.
    pub success_threshold: u32,
}

impl Default for CircuitBreakerConfig {
    /// Five failures, a 30 s timeout, three half-open calls and three successes.
    fn default() -> (r: Self)
        ensures
            r.failure_threshold == 5,
            r.timeout_duration == 30,
            r.half_open_max_calls == 3,
            r.success_threshold == 3,
    {
        CircuitBreakerConfig {
            failure_threshold: 5,
            timeout_duration: 30,
            half_open_max_calls: 3,
            success_threshold: 3,
        }
    }
}

/// Settings of batch processing.
#[derive(Debug, Clone)]
pub struct BatchProcessingConfig {
    pub enabled: bool,
    /// Tasks that make a batch.
    pub batch_size: usize,
    /// Seconds after which the oldest task makes a batch of what is there.
    pub batch_timeout: u64,
    pub max_batch_wait: u64,
}

impl Default for BatchProcessingConfig {
    /// On, batches of five, 30 s timeout, 10 s wait.
    fn default() -> (r: Self)
        ensures
            r.enabled,
            r.batch_size == 5,
            r.batch_timeout == 30,
            r.max_batch_wait == 10,
    {
        BatchProcessingConfig { enabled: true, batch_size: 5, batch_timeout: 30, max_batch_wait: 10 }
    }
}

/// Settings of the metrics.
#[derive(Debug, Clone)]
pub struct MonitoringConfig {
    pub enabled: bool,
    pub metrics_port: u16,
    pub custom_metrics: Vec<String>,
}

impl Default for MonitoringConfig {
    /// On, port 9090, with the four custom metrics.
    fn default() -> (r: Self)
        ensures
            r.enabled,
            r.metrics_port == 9090,
            r.custom_metrics@.len() == 4,
            r.custom_metrics@[0]@ == "task_processing_duration"@,
            r.custom_metrics@[1]@ == "clickup_api_calls"@,
            r.custom_metrics@[2]@ == "batch_processing_size"@,
            r.custom_metrics@[3]@ == "circuit_breaker_state"@,
    {
        MonitoringConfig {
            enabled: true,
            metrics_port: 9090,
            custom_metrics: vec![
                "task_processing_duration".to_string(),
                "clickup_api_calls".to_string(),
                "batch_processing_size".to_string(),
                "circuit_breaker_state".to_string(),
            ],
        }
    }
}

/// Vertex AI settings that the middleware reads (its generation parameters are handed to
/// the API as they are and stay with the caller).
#[derive(Debug, Clone)]
pub struct VertexSettings {
    pub enabled: bool,
    pub timeout_seconds: u64,
    pub project_id: String,
    pub location: String,
    /// Model to use (gemini-1.5-flash when absent).
    pub model: Option<String>,
    /// Largest media file in MB (10 when absent).
    pub max_media_size_mb: Option<u32>,
    /// Accepted MIME types.
    pub supported_mime_types: Option<Vec<String>>,
}

/// All settings.
#[derive(Debug, Clone)]
pub struct Settings {
    pub server: ServerSettings,
    pub clickup: ClickUpSettings,
    pub gcp: GcpSettings,
    pub chatguru: ChatGuruSettings,
    pub ai: Option<AISettings>,
    pub vertex: Option<VertexSettings>,
    pub hybrid_ai: Option<HybridAISettings>,
}

} // verus!
