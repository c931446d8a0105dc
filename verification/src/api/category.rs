use vstd::prelude::*;
use crate::utils::app_error::{failure, require_row, AppError, AppErrorView, Fetched, BAD_REQUEST, INTERNAL_SERVER_ERROR, NOT_FOUND};

verus! {

/// A category as the store holds it: its name is all there is to it.
#[derive(Debug, PartialEq, Eq)]
pub struct Category {
    pub name: String,
}

/// The answer when the store could not be asked about categories.
pub open spec fn category_store_error() -> AppErrorView {
    failure(INTERNAL_SERVER_ERROR, "Database Error"@)
}

/// Reads the query of a search for categories: those whose name contains
/// the text given, or all of them where none is given.
pub fn get_category(name: Option<&str>) -> (contains: Option<String>)
    ensures
        match name {
            Some(text) => contains is Some && contains->0@ == text@,
            None => contains is None,
        },
{
    match name {
        Some(text) => Some(text.to_owned()),
        None => None,
    }
}

/// What the client is told once the store has answered a search or an
/// insertion of categories.
pub fn category_stored<T>(outcome: Option<T>) -> (r: Result<T, AppError>)
    ensures
        match outcome {
            Some(value) => r == Ok::<T, AppError>(value),
            None => r is Err && r->Err_0@ == category_store_error(),
        },
{
    match outcome {
        Some(value) => Ok(value),
        None => Err(AppError::new(INTERNAL_SERVER_ERROR, "Database Error")),
    }
}

/// Reads the body of a request that creates a category: the row to store
/// has the name that was sent.
pub fn post_category(category: Category) -> (row: Category)
    ensures
        row.name@ == category.name@,
{
    Category { name: category.name }
}

/// Reads the query of a request that deletes a category: the name is
/// required, and the first category whose name contains it is the one to go.
pub fn delete_category(name: Option<&str>) -> (r: Result<String, AppError>)
    ensures
        match name {
            Some(text) => r is Ok && r->Ok_0@ == text@,
            None => r is Err && r->Err_0@ == failure(BAD_REQUEST, "Name is required"@),
        },
{
    match name {
        Some(text) => Ok(text.to_owned()),
        None => Err(AppError::new(BAD_REQUEST, "Name is required")),
    }
}

/// The category to delete, given what the search found.
pub fn category_to_delete(fetched: Fetched<Category>) -> (r: Result<Category, AppError>)
    ensures
        match fetched {
            Fetched::Row(found) => r == Ok::<Category, AppError>(found),
            Fetched::Missing => r is Err && r->Err_0@ == failure(NOT_FOUND, "Category not found"@),
            Fetched::Failed => r is Err && r->Err_0@ == category_store_error(),
        },
{
    require_row(fetched, "Database Error", NOT_FOUND, "Category not found")
}

} // verus!
