use vstd::prelude::*;
use crate::api::users::User;
use crate::utils::app_error::{failure, require_row, AppError, AppErrorView, Fetched, BAD_REQUEST, UNAUTHORIZED};
use crate::utils::jwt::{claims_at, claims_match, create_token, create_token_at, Claims};

verus! {

/// The body of a login request.
#[derive(Debug, PartialEq, Eq)]
pub struct RequestUser {
    username: String,
    password: String,
}

/// The mathematical content of a [`RequestUser`].
pub struct RequestUserView {
    pub username: Seq<char>,
    pub password: Seq<char>,
}

impl View for RequestUser {
    type V = RequestUserView;

    closed spec fn view(&self) -> RequestUserView {
        RequestUserView { username: self.username@, password: self.password@ }
    }
}

impl RequestUser {
    pub fn new(username: String, password: String) -> (r: RequestUser)
        ensures
            r@ == (RequestUserView { username: username@, password: password@ }),
    {
        RequestUser { username, password }
    }

    /// The name to look the account up by.
    pub fn username(&self) -> (username: &str)
        ensures
            username@ == self@.username,
    {
        self.username.as_str()
    }

    /// The password to hold against the stored one.
    pub fn password(&self) -> (password: &str)
        ensures
            password@ == self@.password,
    {
        self.password.as_str()
    }
}

/// The answer to a login with a name or a password that is not right. It is
/// the same text for both, so that it tells nothing of which one it was.
pub open spec fn bad_credentials(code: u16) -> AppErrorView {
    failure(code, "incorrect username and/or password"@)
}

/// The account that a login is for, given what the store holds under the
/// name that was sent.
pub fn find_account(fetched: Fetched<User>) -> (r: Result<User, AppError>)
    ensures
        match fetched {
            Fetched::Row(user) => r == Ok::<User, AppError>(user),
            Fetched::Missing => r is Err && r->Err_0@ == bad_credentials(BAD_REQUEST),
            Fetched::Failed => r is Err && r->Err_0@ == failure(
                crate::utils::app_error::INTERNAL_SERVER_ERROR,
                "Error logging in, please try again later"@,
            ),
        },
{
    require_row(
        fetched,
        "Error logging in, please try again later",
        BAD_REQUEST,
        "incorrect username and/or password",
    )
}

/// What a login at Unix time `now` comes to once the password has been held
/// against the stored one: the claims of a token for the account, or a
/// refusal.
pub fn login_at(user: User, password_matches: bool, now: i64) -> (r: Result<Claims, AppError>)
    ensures
        if password_matches {
            claims_match(r, claims_at(user.username@, now))
        } else {
            r is Err && r->Err_0@ == bad_credentials(UNAUTHORIZED)
        },
{
    if !password_matches {
        return Err(AppError::new(UNAUTHORIZED, "incorrect username and/or password"));
    }
    create_token_at(user.username, now)
}

/// What a login comes to now.
pub fn login(user: User, password_matches: bool) -> (r: Result<Claims, AppError>)
    ensures
        if password_matches {
            exists|now: i64| claims_match(r, #[trigger] claims_at(user.username@, now))
        } else {
            r is Err && r->Err_0@ == bad_credentials(UNAUTHORIZED)
        },
{
    if !password_matches {
        return Err(AppError::new(UNAUTHORIZED, "incorrect username and/or password"));
    }
    create_token(user.username)
}

} // verus!
