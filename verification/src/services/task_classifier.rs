//! Asking the classifier about an existing task, and reading its answer.

use vstd::prelude::*;
use crate::services::task_fetcher::TaskInfo;
use crate::text::{owned, push_str};

verus! {

/// The category and subcategory of a task.
#[derive(Debug, Clone)]
pub struct Classification {
    pub categoria: String,
    pub subcategoria: String,
    pub is_activity: bool,
}

/// What the classifier is told about a task: its title and its description.
pub open spec fn task_context_spec(t: TaskInfo) -> Seq<char> {
    "TÍTULO DA TAREFA: "@ + t.name@ + "\n\nDESCRIÇÃO: "@ + match t.description {
        Some(d) => d@,
        None => "Sem descrição"@,
    }
}

/// What the classifier is told about a task.
pub fn task_context(task: &TaskInfo) -> (r: String)
    ensures
        r@ == task_context_spec(*task),
{
    let mut c = owned("TÍTULO DA TAREFA: ");
    push_str(&mut c, task.name.as_str());
    push_str(&mut c, "\n\nDESCRIÇÃO: ");
    match &task.description {
        Some(d) => push_str(&mut c, d.as_str()),
        None => push_str(&mut c, "Sem descrição"),
    }
    c
}

/// The classification of a task from the classifier's answer: it needs a category and a
/// subcategory, even for an answer that is no activity.
pub fn classification_from(
    is_activity: bool,
    category: Option<String>,
    sub_categoria: Option<String>,
) -> (r: Result<Classification, String>)
    ensures
        match r {
            Ok(c) => category == Some(c.categoria) && sub_categoria == Some(c.subcategoria)
                && c.is_activity == is_activity,
            Err(e) => (category.is_none() && e@ == "Categoria não determinada pela IA"@) || (
            category.is_some() && sub_categoria.is_none() && e@
                == "Subcategoria não determinada pela IA"@),
        },
{
    let categoria = match category {
        Some(c) => c,
        None => {
            return Err(owned("Categoria não determinada pela IA"));
        },
    };
    let subcategoria = match sub_categoria {
        Some(s) => s,
        None => {
            return Err(owned("Subcategoria não determinada pela IA"));
        },
    };
    Ok(Classification { categoria, subcategoria, is_activity })
}

/// The error for a failed call of the classifier.
pub fn classifier_error(e: &str) -> (r: String)
    ensures
        r@ == "Erro na classificação: "@ + e@,
{
    let mut s = owned("Erro na classificação: ");
    push_str(&mut s, e);
    s
}

} // verus!
