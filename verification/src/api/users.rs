use vstd::prelude::*;
use vstd::string::StringSliceAdditionalSpecFns;
use crate::utils::app_error::{database_error, failure, require_row, AppError, AppErrorView, Fetched, BAD_REQUEST, NOT_FOUND};
use crate::utils::text::{as_text, parse_i64, parsed_i64, text_of};

verus! {

/// The answer when an id is not a number.
pub open spec fn id_not_integer() -> AppErrorView {
    failure(BAD_REQUEST, "ID must be an integer"@)
}

/// A user as the store holds it.
#[derive(Debug, PartialEq, Eq)]
pub struct User {
    pub id: i64,
    pub username: String,
    pub password: String,
}

/// The body of a request that creates or changes a user. Every field may be
/// left out.
#[derive(Debug, PartialEq, Eq)]
pub struct UpsertModel {
    id: Option<i64>,
    username: Option<String>,
    password: Option<String>,
}

/// The mathematical content of an [`UpsertModel`].
pub struct UpsertModelView {
    pub id: Option<i64>,
    pub username: Option<Seq<char>>,
    pub password: Option<Seq<char>>,
}

impl View for UpsertModel {
    type V = UpsertModelView;

    closed spec fn view(&self) -> UpsertModelView {
        UpsertModelView {
            id: self.id,
            username: text_of(self.username),
            password: text_of(self.password),
        }
    }
}

impl UpsertModel {
    pub fn new(id: Option<i64>, username: Option<String>, password: Option<String>) -> (m:
        UpsertModel)
        ensures
            m@ == (UpsertModelView {
                id,
                username: text_of(username),
                password: text_of(password),
            }),
    {
        UpsertModel { id, username, password }
    }

    pub fn id(&self) -> (id: Option<i64>)
        ensures
            id == self@.id,
    {
        self.id
    }

    pub fn username(&self) -> (username: Option<&str>)
        ensures
            match username {
                Some(t) => self@.username == Some(t@),
                None => self@.username is None,
            },
    {
        as_text(&self.username)
    }

    pub fn password(&self) -> (password: Option<&str>)
        ensures
            match password {
                Some(t) => self@.password == Some(t@),
                None => self@.password is None,
            },
    {
        as_text(&self.password)
    }
}

/// Which users a search asks for: those that meet every condition given.
#[derive(Debug, PartialEq, Eq)]
pub struct UserFilter {
    /// The id is exactly this.
    pub id: Option<i64>,
    /// The name contains this.
    pub username: Option<String>,
}

/// A user that is yet to be stored.
#[derive(Debug, PartialEq, Eq)]
pub struct NewUser {
    pub username: String,
    pub password: String,
}

/// A change to the user `id`: the fields that are given replace what the
/// store holds.
#[derive(Debug, PartialEq, Eq)]
pub struct UserChange {
    pub id: i64,
    pub username: Option<String>,
    pub password: Option<String>,
}

fn owned(text: Option<&str>) -> (r: Option<String>)
    ensures
        match text {
            Some(t) => text_of(r) == Some(t@),
            None => r is None,
        },
{
    match text {
        Some(t) => Some(t.to_owned()),
        None => None,
    }
}

/// Reads the query of a search for users. An id that is given has to be a
/// decimal integer.
pub fn get_user(id: Option<&str>, username: Option<&str>) -> (r: Result<UserFilter, AppError>)
    ensures
        match id {
            Some(text) if parsed_i64(text.spec_bytes()) is None => r is Err && r->Err_0@
                == id_not_integer(),
            _ => {
                &&& r is Ok
                &&& r->Ok_0.id == match id {
                    Some(text) => parsed_i64(text.spec_bytes()),
                    None => None,
                }
                &&& text_of(r->Ok_0.username) == match username {
                    Some(name) => Some(name@),
                    None => None,
                }
            },
        },
{
    let id = match id {
        Some(text) => match parse_i64(text) {
            Some(n) => Some(n),
            None => {
                return Err(AppError::new(BAD_REQUEST, "ID must be an integer"));
            },
        },
        None => None,
    };
    Ok(UserFilter { id, username: owned(username) })
}

/// Reads the body of a request that creates a user: the name and the
/// password are required, and the name is asked for first.
pub fn post_user(user: UpsertModel) -> (r: Result<NewUser, AppError>)
    ensures
        match (user@.username, user@.password) {
            (None, _) => r is Err && r->Err_0@ == failure(BAD_REQUEST, "Username is required"@),
            (Some(_), None) => r is Err && r->Err_0@ == failure(
                BAD_REQUEST,
                "Password is required"@,
            ),
            (Some(username), Some(password)) => r is Ok && r->Ok_0.username@ == username
                && r->Ok_0.password@ == password,
        },
{
    let username = match user.username {
        Some(username) => username,
        None => {
            return Err(AppError::new(BAD_REQUEST, "Username is required"));
        },
    };
    let password = match user.password {
        Some(password) => password,
        None => {
            return Err(AppError::new(BAD_REQUEST, "Password is required"));
        },
    };
    Ok(NewUser { username, password })
}

/// Reads the body of a request that changes a user: the id is required.
pub fn put_user(user: UpsertModel) -> (r: Result<UserChange, AppError>)
    ensures
        match user@.id {
            None => r is Err && r->Err_0@ == failure(BAD_REQUEST, "User ID not provided"@),
            Some(id) => {
                &&& r is Ok
                &&& r->Ok_0.id == id
                &&& text_of(r->Ok_0.username) == user@.username
                &&& text_of(r->Ok_0.password) == user@.password
            },
        },
{
    match user.id {
        None => Err(AppError::new(BAD_REQUEST, "User ID not provided")),
        Some(id) => Ok(UserChange { id, username: user.username, password: user.password }),
    }
}

impl UserChange {
    /// The user after the change, given what the store holds under the id:
    /// each field that the request names is replaced, the others stay.
    pub fn apply(self, fetched: Fetched<User>) -> (r: Result<User, AppError>)
        ensures
            match fetched {
                Fetched::Failed => r is Err && r->Err_0@ == database_error(),
                Fetched::Missing => r is Err && r->Err_0@ == failure(NOT_FOUND, "User not found"@),
                Fetched::Row(found) => {
                    &&& r is Ok
                    &&& r->Ok_0.id == found.id
                    &&& r->Ok_0.username@ == match self.username {
                        Some(name) => name@,
                        None => found.username@,
                    }
                    &&& r->Ok_0.password@ == match self.password {
                        Some(password) => password@,
                        None => found.password@,
                    }
                },
            },
    {
        let found = require_row(fetched, "Database error", NOT_FOUND, "User not found")?;
        let username = match self.username {
            Some(name) => name,
            None => found.username,
        };
        let password = match self.password {
            Some(password) => password,
            None => found.password,
        };
        Ok(User { id: found.id, username, password })
    }
}

/// Reads the query of a request that deletes a user: the id is required and
/// has to be a decimal integer.
pub fn delete_user(id: Option<&str>) -> (r: Result<i64, AppError>)
    ensures
        match id {
            None => r is Err && r->Err_0@ == failure(BAD_REQUEST, "User ID not provided"@),
            Some(text) => match parsed_i64(text.spec_bytes()) {
                None => r is Err && r->Err_0@ == id_not_integer(),
                Some(n) => r == Ok::<i64, AppError>(n),
            },
        },
{
    match id {
        None => Err(AppError::new(BAD_REQUEST, "User ID not provided")),
        Some(text) => match parse_i64(text) {
            None => Err(AppError::new(BAD_REQUEST, "ID must be an integer")),
            Some(n) => Ok(n),
        },
    }
}

} // verus!
