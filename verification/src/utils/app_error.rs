use vstd::prelude::*;

verus! {

pub const OK: u16 = 200;

pub const CREATED: u16 = 201;

pub const BAD_REQUEST: u16 = 400;

pub const UNAUTHORIZED: u16 = 401;

pub const NOT_FOUND: u16 = 404;

pub const INTERNAL_SERVER_ERROR: u16 = 500;

/// The error a handler answers with: an HTTP status and a message for the
/// client.
#[derive(Debug, PartialEq, Eq)]
pub struct AppError {
    code: u16,
    message: String,
}

/// The mathematical content of an [`AppError`].
pub struct AppErrorView {
    pub code: u16,
    pub message: Seq<char>,
}

impl View for AppError {
    type V = AppErrorView;

    closed spec fn view(&self) -> AppErrorView {
        AppErrorView { code: self.code, message: self.message@ }
    }
}

/// The error with status `code` and text `message`.
pub open spec fn failure(code: u16, message: Seq<char>) -> AppErrorView {
    AppErrorView { code, message }
}

impl AppError {
    pub fn new(code: u16, message: &str) -> (e: AppError)
        ensures
            e@ == failure(code, message@),
    {
        AppError { code, message: message.to_owned() }
    }

    pub fn code(&self) -> (code: u16)
        ensures
            code == self@.code,
    {
        self.code
    }

    pub fn message(&self) -> (message: &str)
        ensures
            message@ == self@.message,
    {
        self.message.as_str()
    }
}

/// The answer when the store could not be asked.
pub open spec fn database_error() -> AppErrorView {
    failure(INTERNAL_SERVER_ERROR, "Database error"@)
}

/// What the client is told once the store has answered: the value it gave,
/// or status 500 where it gave none.
pub fn stored<T>(outcome: Option<T>) -> (r: Result<T, AppError>)
    ensures
        match outcome {
            Some(value) => r == Ok::<T, AppError>(value),
            None => r is Err && r->Err_0@ == database_error(),
        },
{
    match outcome {
        Some(value) => Ok(value),
        None => Err(AppError::new(INTERNAL_SERVER_ERROR, "Database error")),
    }
}

/// What a lookup in the store came back with.
#[derive(Debug, PartialEq, Eq)]
pub enum Fetched<T> {
    /// The row that was asked for.
    Row(T),
    /// The store holds no such row.
    Missing,
    /// The store could not be asked.
    Failed,
}

/// Turns a lookup into the row or into the error that the client is told:
/// status 500 with `failed` when the store could not be asked, and `missing`
/// when it holds no such row.
pub fn require_row<T>(fetched: Fetched<T>, failed: &str, missing_code: u16, missing: &str) -> (r:
    Result<T, AppError>)
    ensures
        match fetched {
            Fetched::Row(row) => r == Ok::<T, AppError>(row),
            Fetched::Missing => r is Err && r->Err_0@ == failure(missing_code, missing@),
            Fetched::Failed => r is Err && r->Err_0@ == failure(INTERNAL_SERVER_ERROR, failed@),
        },
{
    match fetched {
        Fetched::Row(row) => Ok(row),
        Fetched::Missing => Err(AppError::new(missing_code, missing)),
        Fetched::Failed => Err(AppError::new(INTERNAL_SERVER_ERROR, failed)),
    }
}

} // verus!
