//! Sessions, logins and password hashes: what a session cookie grants, how a
//! login attempt is judged, and the argon2 calls behind both.

use argon2::password_hash::{PasswordHash, PasswordHasher, PasswordVerifier, SaltString};
use argon2::Argon2;
use vstd::prelude::*;

use crate::admin_forms::LoginForm;
use crate::ids::{is_uuid_text, parses_as_uuid};
use crate::text::to_owned_string;

verus! {

/// Name of the cookie that carries the session token.
pub const SESSION_COOKIE: &'static str = "auth_token";

/// Days a session stays valid after login.
pub const SESSION_TTL_DAYS: i64 = 7;

/// Why a request carries no usable session.
#[derive(Debug, Clone, Copy, PartialEq, Eq, Structural)]
pub enum AuthError {
    MissingCookie,
    InvalidToken,
    SessionExpired,
    /// The session store could not be read.
    Database,
}

impl AuthError {
    /// The text of the error, as logged.
    pub fn message(&self) -> (res: &'static str)
        ensures
            res@ == match self {
                AuthError::MissingCookie => "missing auth cookie"@,
                AuthError::InvalidToken => "invalid session token"@,
                AuthError::SessionExpired => "session expired"@,
                AuthError::Database => "failed to validate session"@,
            },
    {
        match self {
            AuthError::MissingCookie => "missing auth cookie",
            AuthError::InvalidToken => "invalid session token",
            AuthError::SessionExpired => "session expired",
            AuthError::Database => "failed to validate session",
        }
    }
}

/// A signed-in user: id in hyphenated text form, name and role.
#[derive(Debug, Clone)]
pub struct AuthUser {
    pub id: String,
    pub username: String,
    pub is_admin: bool,
}

/// The stored credentials of a user, looked up by name at login.
#[derive(Debug, Clone)]
pub struct DbUserAuth {
    pub id: String,
    pub password_hash: String,
}

/// The answer to a JSON request without a usable session.
#[derive(Debug, Clone)]
pub struct JsonAuthError {
    pub status: u16,
    pub message: &'static str,
}

/// The session token of a request: a missing cookie and a cookie that is
/// not a UUID are refused.
pub fn session_token(cookie: Option<&str>) -> (res: Result<String, AuthError>)
    ensures
        match cookie {
            None => res == Err::<String, AuthError>(AuthError::MissingCookie),
            Some(c) => if is_uuid_text(c@) {
                res is Ok && res->Ok_0@ == c@
            } else {
                res == Err::<String, AuthError>(AuthError::InvalidToken)
            },
        },
{
    match cookie {
        None => Err(AuthError::MissingCookie),
        Some(c) => {
            if parses_as_uuid(c) {
                Ok(to_owned_string(c))
            } else {
                Err(AuthError::InvalidToken)
            }
        },
    }
}

/// The user of a valid token, or `SessionExpired` when the session store
/// knows no live session for it.
pub fn session_user(found: Option<AuthUser>) -> (res: Result<AuthUser, AuthError>)
    ensures
        match found {
            Some(u) => res == Ok::<AuthUser, AuthError>(u),
            None => res == Err::<AuthUser, AuthError>(AuthError::SessionExpired),
        },
{
    match found {
        Some(u) => Ok(u),
        None => Err(AuthError::SessionExpired),
    }
}

/// The JSON answer for a request without a usable session: 401 asking to
/// log in, or 500 when the session store failed.
pub fn json_auth_error(err: AuthError) -> (res: JsonAuthError)
    ensures
        err == AuthError::Database ==> res.status == 500 && res.message@ == "无法验证会话，请稍后再试。"@,
        err != AuthError::Database ==> res.status == 401 && res.message@ == "请先登录。"@,
{
    match err {
        AuthError::Database => JsonAuthError { status: 500, message: "无法验证会话，请稍后再试。" },
        _ => JsonAuthError { status: 401, message: "请先登录。" },
    }
}

/// Where an administrator-only page sends its visitor: to the login page
/// without a live session, to the start page with an error for a user who
/// is no administrator, and through for an administrator.
pub fn admin_gate(session: Result<AuthUser, AuthError>) -> (res: Result<AuthUser, &'static str>)
    ensures
        match session {
            Err(_) => res is Err && res->Err_0@ == "/login"@,
            Ok(u) => if u.is_admin {
                res == Ok::<AuthUser, &'static str>(u)
            } else {
                res is Err && res->Err_0@ == "/?error=not_authorized"@
            },
        },
{
    match session {
        Err(_) => Err("/login"),
        Ok(u) => {
            if u.is_admin {
                Ok(u)
            } else {
                Err("/?error=not_authorized")
            }
        },
    }
}

/// Whether argon2 (default parameters) accepts `password` against the PHC
/// string `phc`.
pub uninterp spec fn argon2_accepts(password: Seq<char>, phc: Seq<char>) -> bool;

/// Whether `PasswordHash::new` reads `phc` as a PHC string.
pub uninterp spec fn parses_as_phc(phc: Seq<char>) -> bool;

/// The outside error of the password hashing crate.
#[verifier::external_type_specification]
#[verifier::external_body]
pub struct ExPasswordHashError(argon2::password_hash::Error);

/// Calls `PasswordHash::new` on the stored hash and, when it parses,
/// `Argon2::default().verify_password`. The result is `argon2_accepts` of
/// the two texts; a hash that `PasswordHash::new` refuses (`parses_as_phc`
/// false) never verifies, and an empty hash is always refused.
#[verifier::external_body]
pub fn verify_password(password: &str, password_hash: &str) -> (res: bool)
    ensures
        res == argon2_accepts(password@, password_hash@),
        !parses_as_phc(password_hash@) ==> !res,
        password_hash@.len() == 0 ==> !res,
{
    match PasswordHash::new(password_hash) {
        Ok(hash) => Argon2::default().verify_password(password.as_bytes(), &hash).is_ok(),
        Err(_) => false,
    }
}

/// Hashes a password with `Argon2::default()` and a fresh random salt from
/// the operating system, and returns the PHC string. The salt is random,
/// so only this is stated: a hash handed back is a PHC string that
/// `PasswordHash::new` reads and that verifies the same password, as
/// argon2's documentation shows.
#[verifier::external_body]
pub fn hash_password(password: &str) -> (res: Result<String, argon2::password_hash::Error>)
    ensures
        res is Ok ==> parses_as_phc(res->Ok_0@),
        res is Ok ==> argon2_accepts(password@, res->Ok_0@),
{
    let salt = SaltString::generate(&mut rand_core::OsRng);
    match Argon2::default().hash_password(password.as_bytes(), &salt) {
        Ok(hash) => Ok(hash.to_string()),
        Err(err) => Err(err),
    }
}

/// Why a login attempt is refused.
#[derive(Debug, Clone, Copy, PartialEq, Eq, Structural)]
pub enum LoginFailure {
    /// Unknown user or wrong password.
    InvalidCredentials,
    /// The user store or session store failed.
    ServerError,
}

impl LoginFailure {
    /// The HTTP status answered.
    pub fn status_code(&self) -> (res: u16)
        ensures
            res == match self {
                LoginFailure::InvalidCredentials => 401u16,
                LoginFailure::ServerError => 500u16,
            },
    {
        match self {
            LoginFailure::InvalidCredentials => 401,
            LoginFailure::ServerError => 500,
        }
    }

    /// The page answered.
    pub fn page_html(&self) -> (res: &'static str)
        ensures
            res@ == match self {
                LoginFailure::InvalidCredentials => "<h1>登录失败</h1><p>用户名或密码错误。</p>"@,
                LoginFailure::ServerError => "<h1>服务器错误</h1><p>请稍后再试。</p>"@,
            },
    {
        match self {
            LoginFailure::InvalidCredentials => "<h1>登录失败</h1><p>用户名或密码错误。</p>",
            LoginFailure::ServerError => "<h1>服务器错误</h1><p>请稍后再试。</p>",
        }
    }
}

/// The judgement of a login attempt once the password check has answered:
/// an unknown user or a refused password are invalid credentials, else the
/// user's id is returned.
pub fn login_decision(found: Option<DbUserAuth>, accepted: bool) -> (res: Result<String, LoginFailure>)
    ensures
        match found {
            None => res == Err::<String, LoginFailure>(LoginFailure::InvalidCredentials),
            Some(u) => if accepted {
                res == Ok::<String, LoginFailure>(u.id)
            } else {
                res == Err::<String, LoginFailure>(LoginFailure::InvalidCredentials)
            },
        },
{
    match found {
        None => Err(LoginFailure::InvalidCredentials),
        Some(u) => {
            if accepted {
                Ok(u.id)
            } else {
                Err(LoginFailure::InvalidCredentials)
            }
        },
    }
}

/// The outcome of a login with `password` against the credentials found for
/// the typed name: the user's id when the password verifies against the
/// stored hash, else invalid credentials.
pub open spec fn login_outcome(password: Seq<char>, found: Option<DbUserAuth>) -> Result<String, LoginFailure> {
    match found {
        None => Err(LoginFailure::InvalidCredentials),
        Some(u) => if argon2_accepts(password, u.password_hash@) {
            Ok(u.id)
        } else {
            Err(LoginFailure::InvalidCredentials)
        },
    }
}

/// Judges a login attempt against the credentials found for the typed
/// name: the password must verify against the stored hash.
pub fn check_login(form: &LoginForm, found: Option<DbUserAuth>) -> (res: Result<String, LoginFailure>)
    ensures
        res == login_outcome(form.password@, found),
{
    let accepted = match &found {
        None => false,
        Some(u) => verify_password(form.password.as_str(), u.password_hash.as_str()),
    };
    login_decision(found, accepted)
}

} // verus!
