//! Requests and answers of the user endpoints, and what the handlers decide
//! between reading and writing.

use super::{ErrorResponse, StatusCode};
use crate::middleware::auth::{
    hash_password, hmac_sha256, stored_secret, stored_text, verify_password,
};
use crate::models::users::User;
use vstd::prelude::*;
use vstd::utf8::encode_utf8;

verus! {

#[derive(Debug)]
pub struct GetUserResponse {
    pub id: String,
    pub name: String,
    pub email: String,
    pub public_key: String,
    pub private_key: Vec<u8>,
}

#[derive(Debug)]
pub struct SignUpRequest {
    pub name: String,
    pub email: String,
    pub password: String,
}

#[derive(Debug)]
pub struct SignUpResponse {
    pub id: String,
    pub name: String,
    pub email: String,
    pub public_key: String,
}

#[derive(Debug)]
pub struct LoginRequest {
    pub email: String,
    pub password: String,
}

#[derive(Debug)]
pub struct LoginResponse {
    pub user: GetUserResponse,
    pub token: String,
}

/// What to change of a user: each part that is given.
#[derive(Debug)]
pub struct UpdateUserRequest {
    pub name: Option<String>,
    pub email: Option<String>,
}

#[derive(Debug)]
pub struct UpdateUserResponse {
    pub id: String,
    pub name: String,
    pub email: String,
    pub public_key: String,
}

#[derive(Debug)]
pub struct DeleteUserResponse {
    pub message: String,
}

/// The user that a request for a user is about: the one named in the path,
/// or the one asking where the path names none.
pub fn requested_user_id(user_id: &str, current_user_id: &str) -> (id: String)
    ensures
        id@ == if user_id@.len() == 0 && current_user_id@.len() != 0 {
            current_user_id@
        } else {
            user_id@
        },
{
    if user_id.is_empty() && !current_user_id.is_empty() {
        current_user_id.to_owned()
    } else {
        user_id.to_owned()
    }
}

/// The answer when something that should not fail did: status 500 with the
/// reason.
pub fn internal_error(reason: String) -> (response: ErrorResponse)
    ensures
        response.status_code == StatusCode::InternalServerError.code(),
        response.error == reason,
{
    ErrorResponse { status_code: StatusCode::InternalServerError.as_u16(), error: reason }
}

/// The answer to a login for a user that is not known: status 401 with the
/// reason.
pub fn unknown_user(reason: String) -> (response: ErrorResponse)
    ensures
        response.status_code == StatusCode::Unauthorized.code(),
        response.error == reason,
{
    ErrorResponse { status_code: StatusCode::Unauthorized.as_u16(), error: reason }
}

impl GetUserResponse {
    /// All of a user but the stored password.
    pub fn of(user: User) -> (response: GetUserResponse)
        ensures
            response.id == user.id,
            response.name == user.name,
            response.email == user.email,
            response.public_key == user.public_key,
            response.private_key == user.private_key,
    {
        GetUserResponse {
            id: user.id,
            name: user.name,
            email: user.email,
            public_key: user.public_key,
            private_key: user.private_key,
        }
    }
}

impl SignUpResponse {
    /// What a new user is told of themselves: nothing secret.
    pub fn of(user: User) -> (response: SignUpResponse)
        ensures
            response.id == user.id,
            response.name == user.name,
            response.email == user.email,
            response.public_key == user.public_key,
    {
        SignUpResponse {
            id: user.id,
            name: user.name,
            email: user.email,
            public_key: user.public_key,
        }
    }
}

impl UpdateUserResponse {
    /// The user as they are after the change: nothing secret.
    pub fn of(user: User) -> (response: UpdateUserResponse)
        ensures
            response.id == user.id,
            response.name == user.name,
            response.email == user.email,
            response.public_key == user.public_key,
    {
        UpdateUserResponse {
            id: user.id,
            name: user.name,
            email: user.email,
            public_key: user.public_key,
        }
    }
}

pub open spec fn email_taken_message() -> Seq<char> {
    "Email is already registered"@
}

pub open spec fn hashing_failed_message() -> Seq<char> {
    "Password hashing failed"@
}

pub open spec fn verification_failed_message() -> Seq<char> {
    "Password verification failed"@
}

pub open spec fn invalid_credentials_message() -> Seq<char> {
    "Invalid credentials"@
}

/// What a sign-up stores as the password, before the user is created. An
/// email that is registered already is refused with status 400.
pub fn prepare_sign_up(email_is_registered: bool, payload: &SignUpRequest) -> (stored: Result<
    String,
    ErrorResponse,
>)
    ensures
        match stored {
            Ok(text) => !email_is_registered && exists|salt: Seq<u8>|
                salt.len() == 32 && text@ == #[trigger] stored_text(
                    salt,
                    encode_utf8(payload.password@),
                ),
            Err(error) => email_is_registered && error.says(
                StatusCode::BadRequest,
                email_taken_message(),
            ),
        },
{
    if email_is_registered {
        return Err(ErrorResponse::new(StatusCode::BadRequest, "Email is already registered"));
    }
    match hash_password(payload.password.as_str()) {
        Ok(text) => Ok(text),
        Err(_) => Err(
            ErrorResponse::new(StatusCode::InternalServerError, "Password hashing failed"),
        ),
    }
}

/// What a login with `password` amounts to for a known user, given what
/// checking the password against the stored one came to.
pub fn judge_login(verdict: Result<bool, StatusCode>) -> (judgement: Result<(), ErrorResponse>)
    ensures
        match verdict {
            Ok(true) => judgement is Ok,
            Ok(false) => judgement matches Err(error) && error.says(
                StatusCode::Unauthorized,
                invalid_credentials_message(),
            ),
            Err(_) => judgement matches Err(error) && error.says(
                StatusCode::InternalServerError,
                verification_failed_message(),
            ),
        },
{
    match verdict {
        Ok(true) => Ok(()),
        Ok(false) => Err(ErrorResponse::new(StatusCode::Unauthorized, "Invalid credentials")),
        Err(_) => Err(
            ErrorResponse::new(StatusCode::InternalServerError, "Password verification failed"),
        ),
    }
}

/// Whether `password` lets in the given user: it does where it gives the mac
/// that is stored for the user. A wrong password is refused with status 401,
/// a stored password that cannot be read with status 500.
pub fn authenticate(user: &User, password: &str) -> (judgement: Result<(), ErrorResponse>)
    ensures
        match stored_secret(user.password_hash@) {
            Some((salt, mac)) => if hmac_sha256(salt, encode_utf8(password@)) == mac {
                judgement is Ok
            } else {
                judgement matches Err(error) && error.says(
                    StatusCode::Unauthorized,
                    invalid_credentials_message(),
                )
            },
            None => judgement matches Err(error) && error.says(
                StatusCode::InternalServerError,
                verification_failed_message(),
            ),
        },
{
    judge_login(verify_password(password, user.password_hash.as_str()))
}

impl LoginResponse {
    /// The answer to a login that was let in.
    pub fn of(user: User, token: String) -> (response: LoginResponse)
        ensures
            response.token == token,
            response.user.id == user.id,
            response.user.name == user.name,
            response.user.email == user.email,
            response.user.public_key == user.public_key,
            response.user.private_key == user.private_key,
    {
        LoginResponse { token, user: GetUserResponse::of(user) }
    }
}

impl DeleteUserResponse {
    /// The answer to a deletion that was carried out.
    pub fn done() -> (response: DeleteUserResponse)
        ensures
            response.message@ == "User successfully deleted"@,
    {
        DeleteUserResponse { message: "User successfully deleted".to_owned() }
    }
}

} // verus!
