//! Registration and authentication: what is stored for a new user, when a
//! login and password are accepted, and what the client is answered.
use vstd::prelude::*;
use crate::hashing_api::{default_phc_prefix, hashing_password, is_generated_salt, max_password_bytes, stored_hash_text, utf8_len, verify_password, verify_password_spec, PasswordFault, VerifyPasswordErr};
use crate::http::{answer_reply, empty_reply, is_answer, is_text, text_reply, DbOutcome, Reply, Status};
use crate::models::{AuthUser, NewAuthUser, User};
use crate::text::{contains, contains_spec, starts_with_spec};

verus! {

/// Why a login and password were not accepted.
pub enum VerifyUserErr {
    /// No user has this login.
    InvalidLogin,
    /// The password does not match.
    InvalidPassword,
    /// The database or the stored hash failed.
    InternalError(String),
}

/// The model of a [`VerifyUserErr`].
pub enum UserFault {
    InvalidLogin,
    InvalidPassword,
    InternalError(Seq<char>),
}

impl View for VerifyUserErr {
    type V = UserFault;

    open spec fn view(&self) -> UserFault {
        match self {
            VerifyUserErr::InvalidLogin => UserFault::InvalidLogin,
            VerifyUserErr::InvalidPassword => UserFault::InvalidPassword,
            VerifyUserErr::InternalError(s) => UserFault::InternalError(s@),
        }
    }
}

/// The model of a login check's result.
pub open spec fn user_result_view(r: Result<AuthUser, VerifyUserErr>) -> Result<AuthUser, UserFault> {
    match r {
        Ok(u) => Ok(u),
        Err(e) => Err(e@),
    }
}

/// The outcome of checking `password` given the rows that the lookup of the
/// login found (at most one is asked for; the first is the one checked).
pub open spec fn check_user_spec(lookup: DbOutcome<Vec<AuthUser>>, password: Seq<char>) -> Result<AuthUser, UserFault> {
    match lookup {
        DbOutcome::Failed(e) => Err(UserFault::InternalError(e@)),
        DbOutcome::Blocked => Err(UserFault::InternalError("blocking error"@)),
        DbOutcome::Done(users) => if users@.len() == 0 {
            Err(UserFault::InvalidLogin)
        } else {
            match verify_password_spec(password, users@[0].hash_password@) {
                Ok(_) => Ok(users@[0]),
                Err(PasswordFault::InvalidPassword(_)) => Err(UserFault::InvalidPassword),
                Err(PasswordFault::InternalError(m)) => Err(UserFault::InternalError(m)),
            }
        },
    }
}

/// Decides whether a login and password are those of a registered user,
/// given the outcome of looking the login up in the `auth` table.
pub fn check_user_registration(lookup: DbOutcome<Vec<AuthUser>>, password: &str) -> (r: Result<AuthUser, VerifyUserErr>)
    ensures
        user_result_view(r) == check_user_spec(lookup, password@),
{
    let mut user = match lookup {
        DbOutcome::Done(v) => v,
        DbOutcome::Failed(e) => {
            return Err(VerifyUserErr::InternalError(e));
        },
        DbOutcome::Blocked => {
            return Err(VerifyUserErr::InternalError("blocking error".to_owned()));
        },
    };
    if user.len() == 0 {
        Err(VerifyUserErr::InvalidLogin)
    } else {
        match verify_password(password, user[0].hash_password.as_str()) {
            Err(err) => match err {
                VerifyPasswordErr::InvalidPassword(_) => Err(VerifyUserErr::InvalidPassword),
                VerifyPasswordErr::InternalError(v) => Err(VerifyUserErr::InternalError(v)),
            },
            Ok(_) => Ok(user.swap_remove(0)),
        }
    }
}

/// The reply owed for a refused login: "user not found" and "invalid
/// password" as JSON answers, an empty 500 for an internal error.
pub open spec fn refusal_reply(e: UserFault, r: Reply) -> bool {
    match e {
        UserFault::InvalidLogin => r.status == Status::Success && is_answer(r.body, "user not found"@),
        UserFault::InvalidPassword => r.status == Status::Success && is_answer(r.body, "invalid password"@),
        UserFault::InternalError(_) => r.status == Status::InternalServerError && r.body is Empty,
    }
}

/// Passes an accepted user through, and turns a refusal into the reply the
/// client gets.
pub fn get_auth_user(user: Result<AuthUser, VerifyUserErr>) -> (r: Result<AuthUser, Reply>)
    ensures
        match user {
            Ok(u) => r == Ok::<AuthUser, Reply>(u),
            Err(e) => r matches Err(reply) && refusal_reply(e@, reply),
        },
{
    match user {
        Ok(v) => Ok(v),
        Err(err) => Err(
            match err {
                VerifyUserErr::InvalidLogin => answer_reply(Status::Success, "user not found".to_owned()),
                VerifyUserErr::InvalidPassword => answer_reply(Status::Success, "invalid password".to_owned()),
                VerifyUserErr::InternalError(_) => empty_reply(Status::InternalServerError),
            },
        ),
    }
}

/// Answers a registration check: "registered" when the login and password
/// are accepted, otherwise the refusal reply.
pub fn check_registration(user: User, lookup: DbOutcome<Vec<AuthUser>>) -> (r: Reply)
    ensures
        match check_user_spec(lookup, user.password@) {
            Ok(_) => r.status == Status::Success && is_answer(r.body, "registered"@),
            Err(e) => refusal_reply(e, r),
        },
{
    match get_auth_user(check_user_registration(lookup, user.password.as_str())) {
        Ok(_) => answer_reply(Status::Success, "registered".to_owned()),
        Err(e) => e,
    }
}

/// The text by which the database reports a login that is already taken.
pub open spec fn duplicate_key_text() -> Seq<char> {
    "duplicate key value violates unique constraint"@
}

/// Prepares the row stored for a new user: the login and the Argon2 hash of
/// the password, which verifies against that password.
pub fn register(user: User) -> (r: Result<NewAuthUser, Reply>)
    ensures
        r matches Ok(n) && n.login == user.login && exists|salt: Seq<char>|
            is_generated_salt(salt) && n.hash_password@ == #[trigger] stored_hash_text(user.password@, salt),
        utf8_len(user.password@) <= max_password_bytes() ==> (r matches Ok(n)
            && verify_password_spec(user.password@, n.hash_password@) == Ok::<(), PasswordFault>(())
            && starts_with_spec(n.hash_password@, default_phc_prefix())),
{
    let hash_password = match hashing_password(user.password.as_str()) {
        Ok(v) => v,
        Err(_) => {
            return Err(empty_reply(Status::InternalServerError));
        },
    };
    Ok(NewAuthUser { login: user.login, hash_password })
}

/// Answers a registration from the outcome of storing the new user.
pub fn register_reply(inserted: DbOutcome<usize>) -> (r: Reply)
    ensures
        match inserted {
            DbOutcome::Done(_) => r.status == Status::Success && is_text(r.body, "success"@),
            DbOutcome::Failed(e) => if contains_spec(e@, duplicate_key_text()) {
                r.status == Status::Success && is_answer(r.body, "this entry already exists"@)
            } else {
                r.status == Status::InternalServerError && r.body is Empty
            },
            DbOutcome::Blocked => r.status == Status::InternalServerError && r.body is Empty,
        },
{
    match inserted {
        DbOutcome::Done(_) => text_reply(Status::Success, "success".to_owned()),
        DbOutcome::Failed(v) => {
            if contains(v.as_str(), "duplicate key value violates unique constraint") {
                return answer_reply(Status::Success, "this entry already exists".to_owned());
            }
            empty_reply(Status::InternalServerError)
        },
        DbOutcome::Blocked => empty_reply(Status::InternalServerError),
    }
}


/// A user who registered with a password can log in with it: when the row
/// stored by [`register`] (whose hash verifies against the password) is what
/// the lookup of the login finds first, the check accepts and gives that row.
pub proof fn registered_user_is_accepted(password: Seq<char>, stored: NewAuthUser, rows: Vec<AuthUser>)
    requires
        verify_password_spec(password, stored.hash_password@) == Ok::<(), PasswordFault>(()),
        rows@.len() > 0,
        rows@[0].login == stored.login,
        rows@[0].hash_password == stored.hash_password,
    ensures
        check_user_spec(DbOutcome::Done(rows), password) == Ok::<AuthUser, UserFault>(rows@[0]),
{
}

/// A login that the lookup does not find is refused as such, whatever the
/// password.
pub proof fn unknown_login_is_refused(rows: Vec<AuthUser>, password: Seq<char>)
    requires
        rows@.len() == 0,
    ensures
        check_user_spec(DbOutcome::Done(rows), password) == Err::<AuthUser, UserFault>(UserFault::InvalidLogin),
{
}

} // verus!
