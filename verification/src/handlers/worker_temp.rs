//! The organizational context handed to the classifier: the folder and list where a
//! client's tasks go.

use vstd::prelude::*;
use crate::services::prompts::opt_view;
use crate::text::owned;

verus! {

/// The folder and list of a client.
#[derive(Debug, Clone)]
pub struct OrganizationalContext {
    pub folder_id: String,
    pub folder_name: String,
    pub list_id: String,
    pub list_name: String,
}

/// What the workspace hierarchy says of where a client's tasks go.
#[derive(Debug, Clone)]
pub struct TargetValidation {
    pub is_valid: bool,
    pub folder_id: Option<String>,
    pub folder_name: Option<String>,
    pub list_id: Option<String>,
    pub list_name: Option<String>,
    pub reason: String,
}

/// The workspace to search: the first id given, else the default workspace.
pub fn workspace_id_or_default(workspace_id: Option<String>, team_id: Option<String>) -> (r: String)
    ensures
        r@ == match workspace_id {
            Some(w) => w@,
            None => match team_id {
                Some(t) => t@,
                None => "9013037641"@,
            },
        },
{
    match workspace_id {
        Some(w) => w,
        None => match team_id {
            Some(t) => t,
            None => owned("9013037641"),
        },
    }
}

/// The context of a validated target: there is one exactly when the target is valid with
/// a folder and a list; missing names read "Pasta Desconhecida" and "Lista Desconhecida".
pub fn context_from_validation(v: &TargetValidation) -> (r: Option<OrganizationalContext>)
    ensures
        r.is_some() == (v.is_valid && v.folder_id.is_some() && v.list_id.is_some()),
        r matches Some(c) ==> {
            &&& Some(c.folder_id@) == opt_view(v.folder_id)
            &&& Some(c.list_id@) == opt_view(v.list_id)
            &&& c.folder_name@ == match v.folder_name {
                Some(n) => n@,
                None => "Pasta Desconhecida"@,
            }
            &&& c.list_name@ == match v.list_name {
                Some(n) => n@,
                None => "Lista Desconhecida"@,
            }
        },
{
    if !v.is_valid {
        return None;
    }
    match (&v.folder_id, &v.list_id) {
        (Some(f), Some(l)) => {
            let folder_name = match &v.folder_name {
                Some(n) => n.clone(),
                None => owned("Pasta Desconhecida"),
            };
            let list_name = match &v.list_name {
                Some(n) => n.clone(),
                None => owned("Lista Desconhecida"),
            };
            Some(OrganizationalContext { folder_id: f.clone(), folder_name, list_id: l.clone(), list_name })
        },
        _ => None,
    }
}

} // verus!
