//! The classification that the AI service gives for a conversation.

use vstd::prelude::*;

verus! {

/// Whether a conversation is a task, and how it is filed.
#[derive(Debug, Clone)]
pub struct ActivityClassification {
    pub reason: String,
    pub is_activity: bool,
    pub category: Option<String>,
    pub campanha: Option<String>,
    pub description: Option<String>,
    pub space_name: Option<String>,
    pub folder_name: Option<String>,
    pub list_name: Option<String>,
    pub info_1: Option<String>,
    pub info_2: Option<String>,
    pub tipo_atividade: Option<String>,
    pub sub_categoria: Option<String>,
    pub subtasks: Vec<String>,
    pub status_back_office: Option<String>,
}

/// The name under which the rest of the service knows the classification.
pub type OpenAIClassification = ActivityClassification;

} // verus!
