//! The dashboard's user administration: creating users, resetting
//! passwords and assigning usage groups, and where each request lands.

use vstd::prelude::*;

use crate::admin_forms::{redirect_target, redirect_with};
use crate::auth::{argon2_accepts, hash_password, login_outcome, DbUserAuth, LoginFailure};
use crate::text::{str_eq, trim, trim_str};

verus! {

/// `/dashboard?error=code`.
pub open spec fn dashboard_error(code: Seq<char>) -> Seq<char> {
    redirect_target("/dashboard"@, "error"@, code)
}

/// `/dashboard?status=code`.
pub open spec fn dashboard_status(code: Seq<char>) -> Seq<char> {
    redirect_target("/dashboard"@, "status"@, code)
}

/// The form that creates a user. The usage group is the group's id in
/// text form; the administrator box is present only when ticked.
#[derive(Debug, Clone)]
pub struct CreateUserForm {
    pub username: String,
    pub password: String,
    pub usage_group_id: Option<String>,
    pub is_admin: Option<String>,
}

/// The form that resets a user's password.
#[derive(Debug, Clone)]
pub struct UpdatePasswordForm {
    pub username: String,
    pub password: String,
}

/// The form that moves a user to another usage group.
#[derive(Debug, Clone)]
pub struct AssignUserGroupForm {
    pub username: String,
    pub usage_group_id: String,
}

/// A user ready to be stored.
#[derive(Debug, Clone)]
pub struct NewUser {
    pub username: String,
    pub password_hash: String,
    pub usage_group_id: String,
    pub is_admin: bool,
}

/// What the database answered to a write: the rows it changed, or a
/// failure with the SQLSTATE code when it gave one.
#[derive(Debug, Clone)]
pub enum WriteResult {
    Done(u64),
    Failed(Option<String>),
}

/// Whether a failure carries the given SQLSTATE code.
pub open spec fn failed_with(result: WriteResult, code: Seq<char>) -> bool {
    match result {
        WriteResult::Failed(Some(c)) => c@ == code,
        _ => false,
    }
}

fn failure_code_is(result: &WriteResult, code: &str) -> (res: bool)
    ensures
        res == failed_with(*result, code@),
{
    match result {
        WriteResult::Failed(Some(c)) => str_eq(c.as_str(), code),
        _ => false,
    }
}

fn dashboard_error_location(code: &str) -> (res: String)
    ensures
        res@ == dashboard_error(code@),
{
    redirect_with("/dashboard", "error", code)
}

fn dashboard_status_location(code: &str) -> (res: String)
    ensures
        res@ == dashboard_status(code@),
{
    redirect_with("/dashboard", "status", code)
}

/// Checks the create-user form and hashes the password. A blank name, a
/// blank password and a missing group are refused in that order; the name
/// and password are taken trimmed. When hashing fails the request ends
/// with the unknown error.
pub fn prepare_new_user(form: &CreateUserForm) -> (res: Result<NewUser, String>)
    ensures
        trim(form.username@).len() == 0 ==> res is Err && res->Err_0@ == dashboard_error("missing_username"@),
        trim(form.username@).len() != 0 && trim(form.password@).len() == 0 ==> res is Err
            && res->Err_0@ == dashboard_error("missing_password"@),
        trim(form.username@).len() != 0 && trim(form.password@).len() != 0 && form.usage_group_id is None
            ==> res is Err && res->Err_0@ == dashboard_error("group_missing"@),
        trim(form.username@).len() != 0 && trim(form.password@).len() != 0 && form.usage_group_id is Some
            ==> match res {
            Ok(user) => {
                &&& user.username@ == trim(form.username@)
                &&& argon2_accepts(trim(form.password@), user.password_hash@)
                &&& user.usage_group_id == form.usage_group_id->0
                &&& user.is_admin == (form.is_admin is Some)
            },
            Err(location) => location@ == dashboard_error("unknown"@),
        },
{
    let username = trim_str(form.username.as_str());
    if username.as_str().is_empty() {
        return Err(dashboard_error_location("missing_username"));
    }
    let password = trim_str(form.password.as_str());
    if password.as_str().is_empty() {
        return Err(dashboard_error_location("missing_password"));
    }
    let group_id = match &form.usage_group_id {
        Some(id) => id.clone(),
        None => return Err(dashboard_error_location("group_missing")),
    };
    let is_admin = form.is_admin.is_some();
    match hash_password(password.as_str()) {
        Ok(hash) => Ok(NewUser { username, password_hash: hash, usage_group_id: group_id, is_admin }),
        Err(_) => Err(dashboard_error_location("unknown")),
    }
}

/// Where the dashboard lands after storing a new user: created, a
/// duplicate name (unique violation `23505`), or the unknown error.
pub fn create_user_location(result: &WriteResult) -> (res: String)
    ensures
        result is Done ==> res@ == dashboard_status("created"@),
        failed_with(*result, "23505"@) ==> res@ == dashboard_error("duplicate"@),
        result is Failed && !failed_with(*result, "23505"@) ==> res@ == dashboard_error("unknown"@),
{
    match result {
        WriteResult::Done(_) => dashboard_status_location("created"),
        WriteResult::Failed(_) => {
            if failure_code_is(result, "23505") {
                dashboard_error_location("duplicate")
            } else {
                dashboard_error_location("unknown")
            }
        },
    }
}

/// Checks the password-reset form and hashes the new password: a blank
/// name, then a blank password, are refused; hashing failure ends with the
/// unknown error. Returns the trimmed name and the new hash.
pub fn prepare_password_reset(form: &UpdatePasswordForm) -> (res: Result<(String, String), String>)
    ensures
        trim(form.username@).len() == 0 ==> res is Err && res->Err_0@ == dashboard_error("user_missing"@),
        trim(form.username@).len() != 0 && trim(form.password@).len() == 0 ==> res is Err
            && res->Err_0@ == dashboard_error("missing_password"@),
        trim(form.username@).len() != 0 && trim(form.password@).len() != 0 ==> match res {
            Ok((name, hash)) => name@ == trim(form.username@) && argon2_accepts(trim(form.password@), hash@),
            Err(location) => location@ == dashboard_error("unknown"@),
        },
{
    let username = trim_str(form.username.as_str());
    if username.as_str().is_empty() {
        return Err(dashboard_error_location("user_missing"));
    }
    let password = trim_str(form.password.as_str());
    if password.as_str().is_empty() {
        return Err(dashboard_error_location("missing_password"));
    }
    match hash_password(password.as_str()) {
        Ok(hash) => Ok((username, hash)),
        Err(_) => Err(dashboard_error_location("unknown")),
    }
}

/// Where the dashboard lands after a password reset: updated when a row
/// changed, the missing-user error when none did, else the unknown error.
pub fn password_reset_location(result: &WriteResult) -> (res: String)
    ensures
        match result {
            WriteResult::Done(n) => if *n > 0 {
                res@ == dashboard_status("password_updated"@)
            } else {
                res@ == dashboard_error("user_missing"@)
            },
            WriteResult::Failed(_) => res@ == dashboard_error("unknown"@),
        },
{
    match result {
        WriteResult::Done(n) => {
            if *n > 0 {
                dashboard_status_location("password_updated")
            } else {
                dashboard_error_location("user_missing")
            }
        },
        WriteResult::Failed(_) => dashboard_error_location("unknown"),
    }
}

/// The name of the user to move, trimmed; a blank name is refused.
pub fn assign_group_username(form: &AssignUserGroupForm) -> (res: Result<String, String>)
    ensures
        trim(form.username@).len() == 0 ==> res is Err && res->Err_0@ == dashboard_error("user_missing"@),
        trim(form.username@).len() != 0 ==> res is Ok && res->Ok_0@ == trim(form.username@),
{
    let username = trim_str(form.username.as_str());
    if username.as_str().is_empty() {
        Err(dashboard_error_location("user_missing"))
    } else {
        Ok(username)
    }
}

/// Where the dashboard lands after moving a user: assigned when a row
/// changed, the missing-user error when none did, the missing-group error
/// on a foreign-key violation (`23503`), else the unknown error.
pub fn assign_group_location(result: &WriteResult) -> (res: String)
    ensures
        match result {
            WriteResult::Done(n) => if *n > 0 {
                res@ == dashboard_status("group_assigned"@)
            } else {
                res@ == dashboard_error("user_missing"@)
            },
            WriteResult::Failed(_) => if failed_with(*result, "23503"@) {
                res@ == dashboard_error("group_missing"@)
            } else {
                res@ == dashboard_error("unknown"@)
            },
        },
{
    match result {
        WriteResult::Done(n) => {
            if *n > 0 {
                dashboard_status_location("group_assigned")
            } else {
                dashboard_error_location("user_missing")
            }
        },
        WriteResult::Failed(_) => {
            if failure_code_is(result, "23503") {
                dashboard_error_location("group_missing")
            } else {
                dashboard_error_location("unknown")
            }
        },
    }
}


/// Where the dashboard lands when a usage group's row could not be written,
/// or `None` when it was: a duplicate name (`23505`), another failure (the
/// unknown error), or an update of a group that does not exist.
pub fn group_write_failure(existing: bool, result: &WriteResult) -> (res: Option<String>)
    ensures
        match result {
            WriteResult::Done(n) => if existing && *n == 0 {
                res matches Some(l) && l@ == dashboard_error("group_missing"@)
            } else {
                res is None
            },
            WriteResult::Failed(_) => if failed_with(*result, "23505"@) {
                res matches Some(l) && l@ == dashboard_error("group_duplicate"@)
            } else {
                res matches Some(l) && l@ == dashboard_error("unknown"@)
            },
        },
{
    match result {
        WriteResult::Done(n) => {
            if existing && *n == 0 {
                Some(dashboard_error_location("group_missing"))
            } else {
                None
            }
        },
        WriteResult::Failed(_) => {
            if failure_code_is(result, "23505") {
                Some(dashboard_error_location("group_duplicate"))
            } else {
                Some(dashboard_error_location("unknown"))
            }
        },
    }
}


/// A password set on the dashboard opens the account: when a user was
/// created, or a password reset, with a hash that `prepare_new_user` or
/// `prepare_password_reset` made from the typed password, a login whose
/// password is that typed password, trimmed, against the stored hash gives
/// the user's id.
pub proof fn lemma_set_password_logs_in(typed: Seq<char>, password_hash: String, id: String)
    requires
        argon2_accepts(trim(typed), password_hash@),
    ensures
        login_outcome(trim(typed), Some(DbUserAuth { id, password_hash })) == Ok::<String, LoginFailure>(id),
{
}

} // verus!
