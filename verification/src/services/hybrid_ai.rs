//! Choosing between Vertex AI and OpenAI for classification and media, and reporting on
//! both.
//!
//! OpenAI is the service that is always there; Vertex AI is optional and, when enabled and
//! available, tried first.

use vstd::prelude::*;
use crate::config::settings::Settings;
use crate::error::AppError;
use crate::models::classification::ActivityClassification;
use crate::models::payload::{after_last, before_first};
use crate::text::{chars_of, owned, push_str, str_contains, str_eq, string_of, contains};

verus! {

/// How the classification service behaves.
#[derive(Debug, Clone)]
pub struct HybridAIConfig {
    /// Try Vertex AI first, when it is available.
    pub use_vertex_primary: bool,
    /// Vertex AI is enabled.
    pub vertex_enabled: bool,
    /// Time given to Vertex AI before falling back, in milliseconds.
    pub vertex_timeout_ms: u64,
    /// Fall back to OpenAI.
    pub openai_fallback_enabled: bool,
    /// Log each decision.
    pub verbose_logging: bool,
}

impl Default for HybridAIConfig {
    /// OpenAI only, Vertex AI off, 15 s Vertex timeout, fallback and logging on.
    fn default() -> (r: Self)
        ensures
            !r.use_vertex_primary,
            !r.vertex_enabled,
            r.vertex_timeout_ms == 15000,
            r.openai_fallback_enabled,
            r.verbose_logging,
    {
        HybridAIConfig {
            use_vertex_primary: false,
            vertex_enabled: false,
            vertex_timeout_ms: 15000,
            openai_fallback_enabled: true,
            verbose_logging: true,
        }
    }
}

/// Whether the settings enable Vertex AI.
pub open spec fn vertex_on(s: Settings) -> bool {
    match s.vertex {
        Some(v) => v.enabled,
        None => false,
    }
}

impl HybridAIConfig {
    /// The configuration that the settings give: Vertex AI first exactly when it is
    /// enabled, its timeout from the settings (15 s without Vertex settings), OpenAI
    /// fallback always on, logging as the AI settings are enabled (on without them).
    pub fn from_settings(settings: &Settings) -> (r: Self)
        requires
            settings.vertex matches Some(v) ==> v.timeout_seconds * 1000 <= u64::MAX,
        ensures
            r.vertex_enabled == vertex_on(*settings),
            r.use_vertex_primary == vertex_on(*settings),
            r.vertex_timeout_ms == match settings.vertex {
                Some(v) => v.timeout_seconds * 1000,
                None => 15000,
            },
            r.openai_fallback_enabled,
            r.verbose_logging == match settings.ai {
                Some(a) => a.enabled,
                None => true,
            },
    {
        let vertex_enabled = match &settings.vertex {
            Some(v) => v.enabled,
            None => false,
        };
        let vertex_timeout_ms = match &settings.vertex {
            Some(v) => v.timeout_seconds * 1000,
            None => 15000,
        };
        let verbose_logging = match &settings.ai {
            Some(a) => a.enabled,
            None => true,
        };
        HybridAIConfig {
            use_vertex_primary: vertex_enabled,
            vertex_enabled,
            vertex_timeout_ms,
            openai_fallback_enabled: true,
            verbose_logging,
        }
    }
}

/// The service that classified.
#[derive(Debug, Clone, Copy, PartialEq, Eq, Structural)]
pub enum AIServiceType {
    OpenAI,
    VertexAI,
}

/// The name of a service, as it is written in reports.
pub open spec fn service_type_name(t: AIServiceType) -> Seq<char> {
    match t {
        AIServiceType::OpenAI => "OpenAI"@,
        AIServiceType::VertexAI => "VertexAI"@,
    }
}

impl AIServiceType {
    /// The name of the service, as it is written in reports.
    pub fn name(&self) -> (r: &'static str)
        ensures
            r@ == service_type_name(*self),
    {
        match self {
            AIServiceType::OpenAI => "OpenAI",
            AIServiceType::VertexAI => "VertexAI",
        }
    }
}

/// How a classification was obtained.
#[derive(Debug, Clone)]
pub struct AIProcessingMetadata {
    pub service_used: AIServiceType,
    /// Vertex AI was tried first and failed.
    pub fallback_occurred: bool,
    pub processing_time_ms: u64,
    pub debug_message: String,
}

/// A classification and how it was obtained.
#[derive(Debug, Clone)]
pub struct HybridAIResult {
    pub classification: ActivityClassification,
    pub metadata: AIProcessingMetadata,
}

/// Which services are there and which strategy is in use.
#[derive(Debug)]
pub struct ServiceStatus {
    pub openai_available: bool,
    pub vertex_available: bool,
    pub vertex_enabled: bool,
    pub current_strategy: String,
}

/// The outcome of testing both services.
#[derive(Debug)]
pub struct ConnectivityTestResult {
    pub openai_status: String,
    pub vertex_status: String,
    pub overall_health: String,
}

/// Whether Vertex AI is tried first: it is the primary service and it started.
pub open spec fn vertex_first(c: HybridAIConfig, vertex_available: bool) -> bool {
    c.use_vertex_primary && vertex_available
}

/// Whether Vertex AI is tried first.
pub fn tries_vertex_first(config: &HybridAIConfig, vertex_available: bool) -> (r: bool)
    ensures
        r == vertex_first(*config, vertex_available),
{
    config.use_vertex_primary && vertex_available
}

/// The status of the services: OpenAI always there, Vertex AI when it started.
pub fn service_status(config: &HybridAIConfig, vertex_available: bool) -> (r: ServiceStatus)
    ensures
        r.openai_available,
        r.vertex_available == vertex_available,
        r.vertex_enabled == config.vertex_enabled,
        r.current_strategy@ == if vertex_first(*config, vertex_available) {
            "Vertex AI primary with OpenAI fallback"@
        } else {
            "OpenAI only"@
        },
{
    let strategy = if config.use_vertex_primary && vertex_available {
        owned("Vertex AI primary with OpenAI fallback")
    } else {
        owned("OpenAI only")
    };
    ServiceStatus {
        openai_available: true,
        vertex_available,
        vertex_enabled: config.vertex_enabled,
        current_strategy: strategy,
    }
}

/// How a classification by one of the services is reported: Vertex AI never falls back,
/// OpenAI reports a fallback when Vertex AI was tried first.
pub fn classification_metadata(
    config: &HybridAIConfig,
    vertex_available: bool,
    service_used: AIServiceType,
    processing_time_ms: u64,
) -> (r: AIProcessingMetadata)
    ensures
        r.service_used == service_used,
        r.processing_time_ms == processing_time_ms,
        r.fallback_occurred == (service_used == AIServiceType::OpenAI && vertex_first(*config, vertex_available)),
        r.debug_message@ == match service_used {
            AIServiceType::VertexAI => "Vertex AI successful"@,
            AIServiceType::OpenAI => "OpenAI successful"@,
        },
{
    match service_used {
        AIServiceType::VertexAI => AIProcessingMetadata {
            service_used,
            fallback_occurred: false,
            processing_time_ms,
            debug_message: owned("Vertex AI successful"),
        },
        AIServiceType::OpenAI => AIProcessingMetadata {
            service_used,
            fallback_occurred: config.use_vertex_primary && vertex_available,
            processing_time_ms,
            debug_message: owned("OpenAI successful"),
        },
    }
}

/// What the hybrid classification has learnt.
#[derive(Debug)]
pub enum ClassifyEvent {
    /// A classification is asked for.
    Start,
    /// Vertex AI answered.
    VertexAnswered(Result<ActivityClassification, String>),
    /// OpenAI answered.
    OpenAIAnswered(Result<ActivityClassification, String>),
}

/// What the hybrid classification does next.
#[derive(Debug)]
pub enum ClassifyAction {
    /// Ask Vertex AI.
    AskVertex,
    /// Ask OpenAI.
    AskOpenAI,
    /// The result.
    Done(Result<HybridAIResult, AppError>),
}

/// The next step of a hybrid classification, `processing_time_ms` after it started:
/// Vertex AI first when it is the primary service and it started, OpenAI otherwise or when
/// Vertex AI fails, and an internal error when OpenAI fails too.
pub fn classify_step(
    config: &HybridAIConfig,
    vertex_available: bool,
    event: ClassifyEvent,
    processing_time_ms: u64,
) -> (r: ClassifyAction)
    ensures
        match event {
            ClassifyEvent::Start => if vertex_first(*config, vertex_available) {
                r is AskVertex
            } else {
                r is AskOpenAI
            },
            ClassifyEvent::VertexAnswered(Ok(c)) => r matches ClassifyAction::Done(Ok(h)) && h.classification == c
                && h.metadata.service_used == AIServiceType::VertexAI && !h.metadata.fallback_occurred
                && h.metadata.processing_time_ms == processing_time_ms
                && h.metadata.debug_message@ == "Vertex AI successful"@,
            ClassifyEvent::VertexAnswered(Err(_)) => r is AskOpenAI,
            ClassifyEvent::OpenAIAnswered(Ok(c)) => r matches ClassifyAction::Done(Ok(h)) && h.classification == c
                && h.metadata.service_used == AIServiceType::OpenAI
                && h.metadata.fallback_occurred == vertex_first(*config, vertex_available)
                && h.metadata.processing_time_ms == processing_time_ms
                && h.metadata.debug_message@ == "OpenAI successful"@,
            ClassifyEvent::OpenAIAnswered(Err(e)) => r matches ClassifyAction::Done(Err(AppError::InternalError(m)))
                && m@ == "Todos os serviços AI falharam. OpenAI: "@ + e@,
        },
{
    match event {
        ClassifyEvent::Start => if config.use_vertex_primary && vertex_available {
            ClassifyAction::AskVertex
        } else {
            ClassifyAction::AskOpenAI
        },
        ClassifyEvent::VertexAnswered(Ok(c)) => {
            let metadata = classification_metadata(config, vertex_available, AIServiceType::VertexAI, processing_time_ms);
            ClassifyAction::Done(Ok(HybridAIResult { classification: c, metadata }))
        },
        ClassifyEvent::VertexAnswered(Err(_)) => ClassifyAction::AskOpenAI,
        ClassifyEvent::OpenAIAnswered(Ok(c)) => {
            let metadata = classification_metadata(config, vertex_available, AIServiceType::OpenAI, processing_time_ms);
            ClassifyAction::Done(Ok(HybridAIResult { classification: c, metadata }))
        },
        ClassifyEvent::OpenAIAnswered(Err(e)) => {
            let mut m = owned("Todos os serviços AI falharam. OpenAI: ");
            push_str(&mut m, e.as_str());
            ClassifyAction::Done(Err(AppError::InternalError(m)))
        },
    }
}

/// The status written for the outcome of a test: `healthy`, or `error: ` and the message.
pub open spec fn test_status(outcome: Result<(), String>) -> Seq<char> {
    match outcome {
        Ok(_) => "healthy"@,
        Err(e) => "error: "@ + e@,
    }
}

/// The status written for the outcome of a test.
fn status_of(outcome: &Result<(), String>) -> (r: String)
    ensures
        r@ == test_status(*outcome),
{
    match outcome {
        Ok(_) => owned("healthy"),
        Err(e) => {
            let mut s = owned("error: ");
            push_str(&mut s, e.as_str());
            s
        },
    }
}

/// The report of a connectivity test: the OpenAI outcome, the Vertex AI outcome
/// (`not_available` when there is no Vertex AI), and an overall health that OpenAI alone
/// decides.
pub fn connectivity_result(
    openai: &Result<(), String>,
    vertex: &Option<Result<(), String>>,
) -> (r: ConnectivityTestResult)
    ensures
        r.openai_status@ == test_status(*openai),
        r.vertex_status@ == match *vertex {
            Some(v) => test_status(v),
            None => "not_available"@,
        },
        r.overall_health@ == if openai is Ok {
            "healthy"@
        } else {
            "degraded"@
        },
{
    let openai_status = status_of(openai);
    let vertex_status = match vertex {
        Some(v) => status_of(v),
        None => owned("not_available"),
    };
    let overall_health = if str_eq(openai_status.as_str(), "healthy") {
        owned("healthy")
    } else {
        owned("degraded")
    };
    proof {
        if openai is Err {
            reveal_strlit("healthy");
            reveal_strlit("error: ");
            assert(openai_status@[0] == 'e');
            assert(openai_status@ != "healthy"@);
        }
    }
    ConnectivityTestResult { openai_status, vertex_status, overall_health }
}

/// How OpenAI handles a media file.
#[derive(Debug, Clone, Copy, PartialEq, Eq, Structural)]
pub enum MediaRoute {
    /// Transcribed as audio.
    Audio,
    /// Described as an image.
    Image,
    /// Not handled.
    Unsupported,
}

/// How OpenAI handles a media type: audio first, then image.
pub open spec fn media_route_of(media_type: Seq<char>) -> MediaRoute {
    if contains(media_type, "audio"@) {
        MediaRoute::Audio
    } else if contains(media_type, "image"@) {
        MediaRoute::Image
    } else {
        MediaRoute::Unsupported
    }
}

/// How OpenAI handles a media type.
pub fn media_route(media_type: &str) -> (r: MediaRoute)
    ensures
        r == media_route_of(media_type@),
{
    if str_contains(media_type, "audio") {
        MediaRoute::Audio
    } else if str_contains(media_type, "image") {
        MediaRoute::Image
    } else {
        MediaRoute::Unsupported
    }
}

/// The error for a media type that is not handled.
pub fn unsupported_media_message(media_type: &str) -> (r: String)
    ensures
        r@ == "Tipo de mídia não suportado: "@ + media_type@,
{
    let mut s = owned("Tipo de mídia não suportado: ");
    push_str(&mut s, media_type);
    s
}

/// The extension of an audio URL, as handed to the transcription: what follows the last
/// `.`, up to a `?`.
pub open spec fn audio_extension_of(url: Seq<char>) -> Seq<char> {
    before_first(after_last(url, '.'), '?')
}

/// The extension of an audio URL.
pub fn audio_extension(url: &str) -> (r: String)
    ensures
        r@ == audio_extension_of(url@),
{
    let cs = chars_of(url);
    let ext = crate::models::payload::suffix_after_last(&cs, '.');
    let e = crate::models::payload::prefix_before(&ext, '?');
    string_of(e.as_slice())
}

} // verus!
