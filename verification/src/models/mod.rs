//! Data carried between ChatGuru, the classifier and ClickUp.

pub mod classification;
pub mod clickup;
pub mod payload;
pub mod chatguru_events;
pub mod enriched_task;
pub mod task_builder;
