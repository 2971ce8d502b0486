//! Error kinds of the authentication flows and the body sent for them.

use crate::view::option_view;
use vstd::prelude::*;

verus! {

/// Why a request's fields were rejected before any lookup.
#[derive(Clone, Copy, Debug, PartialEq, Eq, Structural)]
pub enum ValidationError {
    /// The email holds no `@`.
    InvalidEmail,
    /// The password is shorter than six bytes.
    PasswordTooShort,
}

/// Every way a flow can fail.
#[derive(Clone, Copy, Debug, PartialEq, Eq, Structural)]
pub enum AuthError {
    /// A field of the request is malformed.
    Validation(ValidationError),
    /// The email is already registered.
    Conflict,
    /// Unknown email or wrong password; the two are never told apart.
    InvalidCredentials,
    /// The reset token is unknown or past its expiry.
    InvalidOrExpiredToken,
    /// The reset token was redeemed before.
    AlreadyUsedToken,
    /// The bearer token is missing or was rejected, for whatever reason.
    Unauthenticated,
    /// The authenticated subject no longer resolves to a user.
    NotFound,
    /// The store failed, or answered something that was not asked.
    Persistence,
    /// The password could not be hashed.
    Hashing,
    /// The stored hash could not be read when checking a password.
    Verification,
    /// The session token could not be signed.
    Signing,
}

impl AuthError {
    /// The HTTP status class of each error.
    pub open spec fn spec_status(self) -> u16 {
        match self {
            AuthError::Validation(_) => 400,
            AuthError::Conflict => 409,
            AuthError::InvalidCredentials => 401,
            AuthError::InvalidOrExpiredToken => 400,
            AuthError::AlreadyUsedToken => 400,
            AuthError::Unauthenticated => 401,
            AuthError::NotFound => 404,
            AuthError::Persistence => 500,
            AuthError::Hashing => 500,
            AuthError::Verification => 500,
            AuthError::Signing => 500,
        }
    }

    /// The message shown to the client for each error.
    pub open spec fn spec_message(self) -> Seq<char> {
        match self {
            AuthError::Validation(ValidationError::InvalidEmail) => "Invalid email format"@,
            AuthError::Validation(ValidationError::PasswordTooShort) =>
                "Password must be at least 6 characters long"@,
            AuthError::Conflict => "User with this email already exists"@,
            AuthError::InvalidCredentials => "Invalid email or password"@,
            AuthError::InvalidOrExpiredToken => "Invalid or expired reset token"@,
            AuthError::AlreadyUsedToken => "Reset token has already been used"@,
            AuthError::Unauthenticated => "Unauthorized"@,
            AuthError::NotFound => "User not found"@,
            AuthError::Persistence => "Database error occurred"@,
            AuthError::Hashing => "Failed to hash password"@,
            AuthError::Verification => "Failed to verify password"@,
            AuthError::Signing => "Failed to generate token"@,
        }
    }

    /// Client faults are 4xx, failures of the service itself are 500.
    #[verifier::when_used_as_spec(spec_status)]
    pub fn status(self) -> (code: u16)
        ensures
            code == self.spec_status(),
    {
        match self {
            AuthError::Validation(_) => 400,
            AuthError::Conflict => 409,
            AuthError::InvalidCredentials => 401,
            AuthError::InvalidOrExpiredToken => 400,
            AuthError::AlreadyUsedToken => 400,
            AuthError::Unauthenticated => 401,
            AuthError::NotFound => 404,
            AuthError::Persistence => 500,
            AuthError::Hashing => 500,
            AuthError::Verification => 500,
            AuthError::Signing => 500,
        }
    }

    /// The text for the client. It depends on the error kind alone, so two
    /// causes that share a kind cannot be told apart by it.
    pub fn message(self) -> (text: &'static str)
        ensures
            text@ == self.spec_message(),
    {
        match self {
            AuthError::Validation(ValidationError::InvalidEmail) => "Invalid email format",
            AuthError::Validation(ValidationError::PasswordTooShort) =>
                "Password must be at least 6 characters long",
            AuthError::Conflict => "User with this email already exists",
            AuthError::InvalidCredentials => "Invalid email or password",
            AuthError::InvalidOrExpiredToken => "Invalid or expired reset token",
            AuthError::AlreadyUsedToken => "Reset token has already been used",
            AuthError::Unauthenticated => "Unauthorized",
            AuthError::NotFound => "User not found",
            AuthError::Persistence => "Database error occurred",
            AuthError::Hashing => "Failed to hash password",
            AuthError::Verification => "Failed to verify password",
            AuthError::Signing => "Failed to generate token",
        }
    }
}

/// The body of an error response.
#[derive(Debug, PartialEq, Eq)]
pub struct ErrorResponse {
    pub error: String,
    pub details: Option<String>,
}

/// What an `ErrorResponse` holds, as sequences of characters.
pub struct ErrorResponseView {
    pub error: Seq<char>,
    pub details: Option<Seq<char>>,
}

impl View for ErrorResponse {
    type V = ErrorResponseView;

    open spec fn view(&self) -> ErrorResponseView {
        ErrorResponseView { error: self.error@, details: option_view(self.details) }
    }
}

impl ErrorResponse {
    /// A body with a message and no details.
    pub fn new(error: String) -> (response: Self)
        ensures
            response@ == (ErrorResponseView { error: error@, details: None }),
    {
        ErrorResponse { error, details: None }
    }

    /// A body with a message and details.
    pub fn with_details(error: String, details: String) -> (response: Self)
        ensures
            response@ == (ErrorResponseView { error: error@, details: Some(details@) }),
    {
        ErrorResponse { error, details: Some(details) }
    }

    /// The response for an error of the flows: its message, without details.
    pub fn for_error(error: AuthError) -> (response: Self)
        ensures
            response@ == (ErrorResponseView { error: error.spec_message(), details: None }),
    {
        ErrorResponse::new(error.message().to_owned())
    }
}

/// Pairs a status code with the body that carries `message`.
pub fn error_response(status: u16, message: String) -> (response: (u16, ErrorResponse))
    ensures
        response.0 == status,
        response.1@ == (ErrorResponseView { error: message@, details: None }),
{
    (status, ErrorResponse::new(message))
}

/// Pairs a status code with the body that carries `message` and `details`.
pub fn error_response_with_details(status: u16, message: String, details: String) -> (response: (
    u16,
    ErrorResponse,
))
    ensures
        response.0 == status,
        response.1@ == (ErrorResponseView { error: message@, details: Some(details@) }),
{
    (status, ErrorResponse::with_details(message, details))
}

} // verus!
