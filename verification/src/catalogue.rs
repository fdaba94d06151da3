//! Categories and product types: their names, the category tree's parent
//! rule, and archiving.
use vstd::prelude::*;

use crate::error::{validation, AppError};
use crate::products::{required_message, required_text};
use crate::text::{int_text, num_text, owned, trim};

verus! {

/// Longest category or product-type name, in characters.
pub const MAX_NAME_LEN: usize = 120;

/// A category or product-type name: trimmed, required, at most 120
/// characters.
pub fn validate_name(label: &str, value: &str) -> (r: Result<String, AppError>)
    ensures
        trim(value@).len() == 0 || trim(value@).len() > MAX_NAME_LEN ==> (r matches Err(
            AppError::Validation(m),
        ) && m@ == required_message(label@, 120)),
        !(trim(value@).len() == 0 || trim(value@).len() > MAX_NAME_LEN) ==> (r matches Ok(t)
            && t@ == trim(value@)),
{
    required_text(label, value, 120)
}

/// A category as stored: name, parent, sort order, whether active.
#[derive(Debug)]
pub struct CategoryRecord {
    pub name: String,
    pub parent_id: Option<i64>,
    pub sort_order: i64,
    pub is_active: bool,
}

/// Merges an update into a stored category: given fields replace stored
/// ones, the name checked. A category may not become its own parent.
pub fn plan_category_update(
    category_id: i64,
    current: CategoryRecord,
    name: &Option<String>,
    parent_id: Option<Option<i64>>,
    sort_order: Option<i64>,
    is_active: Option<bool>,
) -> (r: Result<CategoryRecord, AppError>)
    ensures
        match name {
            Some(n) if trim(n@).len() == 0 || trim(n@).len() > MAX_NAME_LEN => r matches Err(
                AppError::Validation(m),
            ) && m@ == required_message("category name"@, 120),
            _ => {
                let parent = match parent_id {
                    Some(p) => p,
                    None => current.parent_id,
                };
                if parent == Some(category_id) {
                    r matches Err(AppError::Validation(m)) && m@
                        == "a category cannot be its own parent"@
                } else {
                    r matches Ok(c) && c.parent_id == parent && c.name@ == match name {
                        Some(n) => trim(n@),
                        None => current.name@,
                    } && c.sort_order == match sort_order {
                        Some(s) => s,
                        None => current.sort_order,
                    } && c.is_active == match is_active {
                        Some(a) => a,
                        None => current.is_active,
                    }
                }
            },
        },
{
    let new_name = match name {
        Some(value) => validate_name("category name", value.as_str())?,
        None => current.name,
    };
    let new_parent = match parent_id {
        Some(p) => p,
        None => current.parent_id,
    };
    match new_parent {
        Some(p) => {
            if p == category_id {
                return Err(validation("a category cannot be its own parent"));
            }
        },
        None => {},
    }
    Ok(
        CategoryRecord {
            name: new_name,
            parent_id: new_parent,
            sort_order: match sort_order {
                Some(s) => s,
                None => current.sort_order,
            },
            is_active: match is_active {
                Some(a) => a,
                None => current.is_active,
            },
        },
    )
}

/// A sibling under the same parent already has the name.
pub fn sibling_conflict(name: &str) -> (e: AppError)
    ensures
        e matches AppError::Conflict(m) && m@ == "a sibling category named `"@ + name@
            + "` already exists"@,
{
    let mut m = owned("a sibling category named `");
    m.append(name);
    m.append("` already exists");
    AppError::Conflict(m)
}

/// Another type of the category already has the name.
pub fn product_type_conflict(name: &str) -> (e: AppError)
    ensures
        e matches AppError::Conflict(m) && m@ == "a product type named `"@ + name@
            + "` already exists in this category"@,
{
    let mut m = owned("a product type named `");
    m.append(name);
    m.append("` already exists in this category");
    AppError::Conflict(m)
}

/// Archiving a category or a product type: it must exist and still be
/// active. `kind` names it in the messages; `found` is whether it is active.
pub fn check_archivable(kind: &str, id: i64, found: Option<bool>) -> (r: Result<(), AppError>)
    ensures
        match found {
            None => r matches Err(AppError::NotFound(m)) && m@ == kind@ + " "@ + num_text(
                id as int,
            ),
            Some(false) => r matches Err(AppError::Conflict(m)) && m@ == kind@
                + " is already archived"@,
            Some(true) => r is Ok,
        },
{
    match found {
        None => {
            let mut m = owned(kind);
            m.append(" ");
            m.append(int_text(id).as_str());
            Err(AppError::NotFound(m))
        },
        Some(false) => {
            let mut m = owned(kind);
            m.append(" is already archived");
            Err(AppError::Conflict(m))
        },
        Some(true) => Ok(()),
    }
}

} // verus!
