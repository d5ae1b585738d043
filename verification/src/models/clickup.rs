//! The request that creates a ClickUp task, as plain values.

use vstd::prelude::*;

verus! {

/// Priority of a task.
#[derive(Debug, Clone, Copy, PartialEq, Eq, Structural)]
pub enum TaskPriority {
    Urgent,
    High,
    Normal,
    Low,
}

/// Value of a custom field of a new task.
#[derive(Debug)]
pub enum CustomFieldValue {
    /// The id of the chosen option of a dropdown field.
    DropdownOption(String),
    /// A rating.
    Rating(i32),
    /// Free text.
    Text(String),
}

/// A custom field of a new task.
#[derive(Debug)]
pub struct CustomField {
    pub id: String,
    pub value: CustomFieldValue,
}

/// The task that the middleware asks ClickUp to create.
#[derive(Debug)]
pub struct CreateTaskRequest {
    pub name: String,
    pub description: Option<String>,
    pub tags: Option<Vec<String>>,
    pub priority: Option<TaskPriority>,
    pub custom_fields: Option<Vec<CustomField>>,
}

/// The mathematical form of a custom field value.
pub enum FieldValueView {
    Dropdown(Seq<char>),
    Rating(int),
    Text(Seq<char>),
}

impl CustomFieldValue {
    pub open spec fn view(self) -> FieldValueView {
        match self {
            CustomFieldValue::DropdownOption(s) => FieldValueView::Dropdown(s@),
            CustomFieldValue::Rating(n) => FieldValueView::Rating(n as int),
            CustomFieldValue::Text(s) => FieldValueView::Text(s@),
        }
    }
}

impl CustomField {
    /// The field as an id and a value.
    pub open spec fn view(self) -> (Seq<char>, FieldValueView) {
        (self.id@, self.value@)
    }
}

/// The fields as ids and values.
pub open spec fn field_views(fs: Seq<CustomField>) -> Seq<(Seq<char>, FieldValueView)> {
    fs.map_values(|f: CustomField| f@)
}

/// The mathematical form of a task request.
pub struct TaskView {
    pub name: Seq<char>,
    pub description: Option<Seq<char>>,
    pub tags: Option<Seq<Seq<char>>>,
    pub priority: Option<TaskPriority>,
    pub custom_fields: Option<Seq<(Seq<char>, FieldValueView)>>,
}

/// Views of strings.
pub open spec fn string_views(v: Seq<String>) -> Seq<Seq<char>> {
    v.map_values(|s: String| s@)
}

impl CreateTaskRequest {
    pub open spec fn view(self) -> TaskView {
        TaskView {
            name: self.name@,
            description: match self.description {
                Some(d) => Some(d@),
                None => None,
            },
            tags: match self.tags {
                Some(t) => Some(string_views(t@)),
                None => None,
            },
            priority: self.priority,
            custom_fields: match self.custom_fields {
                Some(f) => Some(field_views(f@)),
                None => None,
            },
        }
    }
}

/// A field given by its id and value.
pub fn new_field(id: String, value: CustomFieldValue) -> (r: CustomField)
    ensures
        r@ == (id@, value@),
{
    CustomField { id, value }
}

} // verus!
