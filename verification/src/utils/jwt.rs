use vstd::prelude::*;
use crate::relay::admission::{first_value, first_values};
use crate::utils::app_error::{failure, AppError, AppErrorView, INTERNAL_SERVER_ERROR, UNAUTHORIZED};

verus! {

/// How long a token is good for, in seconds.
pub const TOKEN_LIFETIME: i64 = 3600;

/// What a token says of its bearer.
#[derive(Debug, PartialEq, Eq)]
pub struct Claims {
    exp: usize,
    username: String,
}

/// The mathematical content of [`Claims`].
pub struct ClaimsView {
    /// The Unix time at which the token expires.
    pub exp: usize,
    pub username: Seq<char>,
}

impl View for Claims {
    type V = ClaimsView;

    closed spec fn view(&self) -> ClaimsView {
        ClaimsView { exp: self.exp, username: self.username@ }
    }
}

impl Claims {
    pub fn new(exp: usize, username: String) -> (claims: Claims)
        ensures
            claims@ == (ClaimsView { exp, username: username@ }),
    {
        Claims { exp, username }
    }

    pub fn exp(&self) -> (exp: usize)
        ensures
            exp == self@.exp,
    {
        self.exp
    }

    pub fn username(&self) -> (username: &str)
        ensures
            username@ == self@.username,
    {
        self.username.as_str()
    }
}

/// Why a token could not be decoded.
#[derive(Clone, Copy, Debug, PartialEq, Eq, Structural)]
pub enum DecodeFault {
    /// The text is not a token.
    InvalidToken,
    /// The signature does not match the content.
    InvalidSignature,
    /// The token says of itself that it has expired.
    ExpiredSignature,
    /// Anything else.
    Other,
}

/// The answer to a request that has not shown who it comes from.
pub open spec fn unauthenticated() -> AppErrorView {
    failure(UNAUTHORIZED, "not authenticated!"@)
}

/// The answer when a token cannot be made.
pub open spec fn token_not_created() -> AppErrorView {
    failure(INTERNAL_SERVER_ERROR, "There wa an error, please try again later"@)
}

/// `chrono::Utc::now` followed by `DateTime::timestamp`: the Unix time of
/// the system clock, in seconds.
///
/// Trusted, and nothing is claimed of the value: it is whatever the clock
/// says.
#[verifier::external_body]
fn unix_now() -> i64 {
    chrono::Utc::now().timestamp()
}

/// The claims of a token issued to `username` at Unix time `now`, or the
/// error to answer with where the expiry cannot be told in seconds.
pub open spec fn claims_at(username: Seq<char>, now: i64) -> Result<ClaimsView, AppErrorView> {
    if now + TOKEN_LIFETIME > i64::MAX {
        Err(token_not_created())
    } else {
        Ok(ClaimsView { exp: (now + TOKEN_LIFETIME) as usize, username })
    }
}

/// Whether `r` is what `expected` describes.
pub open spec fn claims_match(r: Result<Claims, AppError>, expected: Result<ClaimsView, AppErrorView>) -> bool {
    match (r, expected) {
        (Ok(claims), Ok(view)) => claims@ == view,
        (Err(e), Err(view)) => e@ == view,
        _ => false,
    }
}

/// The claims of a token issued to `username` at Unix time `now`: it expires
/// one hour later.
pub fn create_token_at(username: String, now: i64) -> (r: Result<Claims, AppError>)
    ensures
        claims_match(r, claims_at(username@, now)),
{
    if now > i64::MAX - TOKEN_LIFETIME {
        return Err(AppError::new(INTERNAL_SERVER_ERROR, "There wa an error, please try again later"));
    }
    let expires_at: i64 = now + TOKEN_LIFETIME;
    let exp: usize = #[verifier::truncate]
    (expires_at as usize);
    Ok(Claims { exp, username })
}

/// The claims of a token issued to `username` now. They are yet to be
/// signed.
pub fn create_token(username: String) -> (r: Result<Claims, AppError>)
    ensures
        exists|now: i64| claims_match(r, #[trigger] claims_at(username@, now)),
{
    let now = unix_now();
    create_token_at(username, now)
}

/// The outcome of signing: the token, or the error to answer with where the
/// signer produced none.
pub fn signed(token: Option<String>) -> (r: Result<String, AppError>)
    ensures
        match token {
            Some(t) => r == Ok::<String, AppError>(t),
            None => r is Err && r->Err_0@ == token_not_created(),
        },
{
    match token {
        Some(t) => Ok(t),
        None => Err(
            AppError::new(INTERNAL_SERVER_ERROR, "There wa an error, please try again later"),
        ),
    }
}

/// The scheme word that may stand in front of a token, with its blank.
pub open spec fn bearer_prefix() -> Seq<u8> {
    seq![66u8, 101u8, 97u8, 114u8, 101u8, 114u8, 32u8]
}

/// Where the token proper starts in `text`: behind every `Bearer ` that
/// stands in front of it, however many there are.
pub open spec fn payload_start_spec(text: Seq<u8>) -> nat
    decreases text.len(),
{
    if text.len() >= 7 && text.subrange(0, 7) == bearer_prefix() {
        7 + payload_start_spec(text.skip(7))
    } else {
        0
    }
}

fn at_bearer(text: &[u8], at: usize) -> (r: bool)
    requires
        at <= text.len(),
    ensures
        r == (text@.skip(at as int).len() >= 7 && text@.skip(at as int).subrange(0, 7)
            == bearer_prefix()),
{
    let ghost rest = text@.skip(at as int);
    if text.len() - at < 7 {
        return false;
    }
    let hit = text[at] == 66 && text[at + 1] == 101 && text[at + 2] == 97 && text[at + 3] == 114
        && text[at + 4] == 101 && text[at + 5] == 114 && text[at + 6] == 32;
    proof {
        let head = rest.subrange(0, 7);
        assert(head.len() == 7);
        assert(forall|i: int| 0 <= i < 7 ==> head[i] == text@[at + i]);
        if hit {
            assert(head =~= bearer_prefix());
        } else {
            assert(head[0] == bearer_prefix()[0] && head[1] == bearer_prefix()[1] && head[2]
                == bearer_prefix()[2] && head[3] == bearer_prefix()[3] && head[4]
                == bearer_prefix()[4] && head[5] == bearer_prefix()[5] && head[6]
                == bearer_prefix()[6] ==> hit);
        }
    }
    hit
}

/// Finds where the token proper starts in the text of an `Authorization`
/// value.
pub fn payload_start(text: &[u8]) -> (at: usize)
    ensures
        at == payload_start_spec(text@),
        at <= text.len(),
{
    let mut at: usize = 0;
    assert(text@.skip(0) == text@);
    while at_bearer(text, at)
        invariant
            at <= text.len(),
            payload_start_spec(text@) == at + payload_start_spec(text@.skip(at as int)),
        decreases text.len() - at,
    {
        assert(text@.skip(at as int).skip(7) == text@.skip(at + 7));
        at = at + 7;
    }
    at
}

/// What becomes of a decoded token at Unix time `now`.
pub open spec fn validated_at(decoded: Result<Claims, DecodeFault>, now: i64) -> Result<
    Claims,
    AppErrorView,
> {
    match decoded {
        Err(DecodeFault::Other) => Err(failure(INTERNAL_SERVER_ERROR, "Error validating token"@)),
        Err(_) => Err(unauthenticated()),
        Ok(claims) => if now > claims@.exp as i64 {
            Err(unauthenticated())
        } else {
            Ok(claims)
        },
    }
}

/// Whether `r` is what `expected` describes.
pub open spec fn validation_matches(r: Result<Claims, AppError>, expected: Result<Claims, AppErrorView>) -> bool {
    match (r, expected) {
        (Ok(claims), Ok(wanted)) => claims == wanted,
        (Err(e), Err(view)) => e@ == view,
        _ => false,
    }
}

/// Judges a decoded token at Unix time `now`.
///
/// A text that is no token, a wrong signature and a token that has expired
/// are all answered alike, so that the answer tells nothing of the reason.
/// Any other fault is the server's.
pub fn validate_token_at(decoded: Result<Claims, DecodeFault>, now: i64) -> (r: Result<
    Claims,
    AppError,
>)
    ensures
        validation_matches(r, validated_at(decoded, now)),
{
    match decoded {
        Err(DecodeFault::Other) => Err(
            AppError::new(INTERNAL_SERVER_ERROR, "Error validating token"),
        ),
        Err(_) => Err(AppError::new(UNAUTHORIZED, "not authenticated!")),
        Ok(claims) => {
            let exp: i64 = #[verifier::truncate]
            (claims.exp as i64);
            if now > exp {
                Err(AppError::new(UNAUTHORIZED, "not authenticated!"))
            } else {
                Ok(claims)
            }
        },
    }
}

/// Judges a decoded token now.
pub fn validate_token(decoded: Result<Claims, DecodeFault>) -> (r: Result<Claims, AppError>)
    ensures
        exists|now: i64| validation_matches(r, #[trigger] validated_at(decoded, now)),
{
    let now = unix_now();
    validate_token_at(decoded, now)
}

/// Whether `b` may stand in a header value that is read as text: a visible
/// ASCII character, a blank or a tab.
pub open spec fn is_visible_ascii(b: u8) -> bool {
    32 <= b < 127 || b == 9
}

/// Whether `value` can be read as text.
pub open spec fn is_text(value: Seq<u8>) -> bool {
    forall|i: int| 0 <= i < value.len() ==> is_visible_ascii(#[trigger] value[i])
}

fn check_text(value: &[u8]) -> (r: bool)
    ensures
        r == is_text(value@),
{
    let mut i: usize = 0;
    while i < value.len()
        invariant
            i <= value.len(),
            forall|j: int| 0 <= j < i ==> is_visible_ascii(#[trigger] value@[j]),
        decreases value.len() - i,
    {
        let b = value[i];
        if !(32 <= b && b < 127 || b == 9) {
            return false;
        }
        i = i + 1;
    }
    true
}

/// What the `Authorization` header of a request yields.
pub open spec fn authorization_of(headers: axum::http::HeaderMap) -> Result<Seq<u8>, AppErrorView> {
    if !first_values(headers).contains_key("Authorization"@) {
        Err(unauthenticated())
    } else if !is_text(first_values(headers)["Authorization"@]) {
        Err(failure(INTERNAL_SERVER_ERROR, "Error reading token"@))
    } else {
        Ok(first_values(headers)["Authorization"@])
    }
}

/// Takes the text of the `Authorization` header from a request. A request
/// without the header is not authenticated; a value that is not text cannot
/// be read.
pub fn authorization(headers: &axum::http::HeaderMap) -> (r: Result<Vec<u8>, AppError>)
    ensures
        match authorization_of(*headers) {
            Ok(text) => r is Ok && r->Ok_0@ == text,
            Err(e) => r is Err && r->Err_0@ == e,
        },
{
    match first_value(headers, "Authorization") {
        None => Err(AppError::new(UNAUTHORIZED, "not authenticated!")),
        Some(value) => {
            if check_text(value.as_slice()) {
                Ok(value)
            } else {
                Err(AppError::new(INTERNAL_SERVER_ERROR, "Error reading token"))
            }
        },
    }
}

/// Lets a request with valid claims through at Unix time `now`, unless the
/// claims have expired by then.
pub fn authenticate_at(claims: &Claims, now: i64) -> (r: Result<(), AppError>)
    ensures
        r is Err <==> claims@.exp < now as usize,
        r matches Err(e) ==> e@ == failure(UNAUTHORIZED, "Token has expired"@),
{
    let now_secs: usize = #[verifier::truncate]
    (now as usize);
    if claims.exp < now_secs {
        Err(AppError::new(UNAUTHORIZED, "Token has expired"))
    } else {
        Ok(())
    }
}

/// Lets a request with valid claims through, unless the claims have expired
/// by now.
pub fn authenticate(claims: &Claims) -> (r: Result<(), AppError>)
    ensures
        exists|now: i64| r is Err <==> claims@.exp < #[trigger] (now as usize),
        r matches Err(e) ==> e@ == failure(UNAUTHORIZED, "Token has expired"@),
{
    let now = unix_now();
    authenticate_at(claims, now)
}

} // verus!
