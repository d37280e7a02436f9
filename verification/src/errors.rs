//! The error taxonomy of the backend, and the fixed status and body that each
//! kind is answered with.

use vstd::prelude::*;
use vstd::string::*;

verus! {

/// The body that accompanies a rejection.
#[derive(Debug, Clone, PartialEq, Eq)]
pub struct ErrorResponse {
    pub error: String,
    pub code: String,
    pub message: String,
    /// The per-field findings as JSON text, present for validation errors only.
    pub validation_errors: Option<String>,
}

/// Why the store handed no record out.
#[derive(Debug, Clone, PartialEq, Eq)]
pub struct StoreError {
    /// Whether the query found no row; any other failure is a fault of the
    /// store.
    pub row_not_found: bool,
    /// The store's own words.
    pub message: String,
}

/// The finding of one validation rule.
#[derive(Debug, Clone, PartialEq, Eq)]
pub struct ValidationError {
    pub code: String,
}

impl ValidationError {
    pub fn new(code: &str) -> (error: ValidationError)
        ensures
            error.code@ == code@,
    {
        ValidationError { code: code.to_string() }
    }
}

/// What a failed validation of a request body reports.
#[derive(Debug, Clone, PartialEq, Eq)]
pub struct ValidationErrors {
    /// The findings in their diagnostic rendering.
    pub summary: String,
    /// The findings as JSON text.
    pub details: String,
}

#[derive(Debug, Clone, PartialEq, Eq)]
pub enum CustomError {
    BadRequest,
    NotFound(String),
    InternalServerError,
    DatabaseError(String),
    ConfigError(String),
    Conflict(String, String),
    NotStrongPassword,
    InvalidConfirmationCode,
    CodeExpired,
    AccountAlreadyConfirmed,
    AccountNotFound,
    InvalidCredentials,
    AccountNotVerified,
    AccountDisabled,
    TooManyAttempts,
    InvalidToken(String),
    Unauthorized,
    Forbidden,
    TokenExpired,
    ValidationError(ValidationErrors),
    ExternalServiceError(String),
}

/// A `CustomError` with its texts as character sequences.
pub enum ErrorView {
    BadRequest,
    NotFound(Seq<char>),
    InternalServerError,
    DatabaseError(Seq<char>),
    ConfigError(Seq<char>),
    Conflict(Seq<char>, Seq<char>),
    NotStrongPassword,
    InvalidConfirmationCode,
    CodeExpired,
    AccountAlreadyConfirmed,
    AccountNotFound,
    InvalidCredentials,
    AccountNotVerified,
    AccountDisabled,
    TooManyAttempts,
    InvalidToken(Seq<char>),
    Unauthorized,
    Forbidden,
    TokenExpired,
    ValidationError(Seq<char>, Seq<char>),
    ExternalServiceError(Seq<char>),
}

impl View for CustomError {
    type V = ErrorView;

    open spec fn view(&self) -> ErrorView {
        match self {
            CustomError::BadRequest => ErrorView::BadRequest,
            CustomError::NotFound(resource) => ErrorView::NotFound(resource@),
            CustomError::InternalServerError => ErrorView::InternalServerError,
            CustomError::DatabaseError(message) => ErrorView::DatabaseError(message@),
            CustomError::ConfigError(message) => ErrorView::ConfigError(message@),
            CustomError::Conflict(message, code) => ErrorView::Conflict(message@, code@),
            CustomError::NotStrongPassword => ErrorView::NotStrongPassword,
            CustomError::InvalidConfirmationCode => ErrorView::InvalidConfirmationCode,
            CustomError::CodeExpired => ErrorView::CodeExpired,
            CustomError::AccountAlreadyConfirmed => ErrorView::AccountAlreadyConfirmed,
            CustomError::AccountNotFound => ErrorView::AccountNotFound,
            CustomError::InvalidCredentials => ErrorView::InvalidCredentials,
            CustomError::AccountNotVerified => ErrorView::AccountNotVerified,
            CustomError::AccountDisabled => ErrorView::AccountDisabled,
            CustomError::TooManyAttempts => ErrorView::TooManyAttempts,
            CustomError::InvalidToken(message) => ErrorView::InvalidToken(message@),
            CustomError::Unauthorized => ErrorView::Unauthorized,
            CustomError::Forbidden => ErrorView::Forbidden,
            CustomError::TokenExpired => ErrorView::TokenExpired,
            CustomError::ValidationError(errors) => ErrorView::ValidationError(
                errors.summary@,
                errors.details@,
            ),
            CustomError::ExternalServiceError(message) => ErrorView::ExternalServiceError(message@),
        }
    }
}

impl ErrorView {
    /// The HTTP status that the kind is answered with.
    pub open spec fn status(self) -> int {
        match self {
            ErrorView::NotFound(_) | ErrorView::AccountNotFound => 404,
            ErrorView::InternalServerError
            | ErrorView::DatabaseError(_)
            | ErrorView::ConfigError(_)
            | ErrorView::ExternalServiceError(_) => 500,
            ErrorView::BadRequest
            | ErrorView::NotStrongPassword
            | ErrorView::InvalidConfirmationCode
            | ErrorView::CodeExpired
            | ErrorView::AccountAlreadyConfirmed
            | ErrorView::ValidationError(_, _) => 400,
            ErrorView::Conflict(_, _) => 409,
            ErrorView::InvalidCredentials
            | ErrorView::InvalidToken(_)
            | ErrorView::Unauthorized
            | ErrorView::TokenExpired => 401,
            ErrorView::AccountNotVerified | ErrorView::AccountDisabled | ErrorView::Forbidden => 403,
            ErrorView::TooManyAttempts => 429,
        }
    }

    /// The `error` line of the body.
    pub open spec fn error_text(self) -> Seq<char> {
        match self {
            ErrorView::BadRequest => "Bad Request"@,
            ErrorView::NotFound(resource) => resource + " not found"@,
            ErrorView::InternalServerError => "Internal server error"@,
            ErrorView::DatabaseError(_) => "Database error"@,
            ErrorView::ConfigError(_) => "Config error"@,
            ErrorView::Conflict(_, _) => "Conflict"@,
            ErrorView::NotStrongPassword => "Not Strong Password"@,
            ErrorView::InvalidConfirmationCode => "Invalid confirmation code"@,
            ErrorView::CodeExpired => "Code expired"@,
            ErrorView::AccountAlreadyConfirmed => "Account already confirmed"@,
            ErrorView::AccountNotFound => "Account not found"@,
            ErrorView::InvalidCredentials => "Invalid credentials"@,
            ErrorView::AccountNotVerified => "Account not verified"@,
            ErrorView::AccountDisabled => "Account disabled"@,
            ErrorView::TooManyAttempts => "Too many attempts"@,
            ErrorView::InvalidToken(_) => "Invalid token"@,
            ErrorView::Unauthorized => "Unauthorized"@,
            ErrorView::Forbidden => "Forbidden"@,
            ErrorView::TokenExpired => "Token expired"@,
            ErrorView::ValidationError(_, _) => ""@,
            ErrorView::ExternalServiceError(_) => "External service error"@,
        }
    }

    /// The stable machine-readable code of the body.
    pub open spec fn code(self) -> Seq<char> {
        match self {
            ErrorView::BadRequest => "BAD_001"@,
            ErrorView::NotFound(_) => "RES_001"@,
            ErrorView::InternalServerError => "SRV_001"@,
            ErrorView::DatabaseError(_) => "DB_001"@,
            ErrorView::ConfigError(_) => "CFG_001"@,
            ErrorView::Conflict(_, code) => code,
            ErrorView::NotStrongPassword => "PWD_001"@,
            ErrorView::InvalidConfirmationCode => "CON_002"@,
            ErrorView::CodeExpired => "CON_003"@,
            ErrorView::AccountAlreadyConfirmed => "CON_004"@,
            ErrorView::AccountNotFound => "CON_005"@,
            ErrorView::InvalidCredentials => "AUTH_001"@,
            ErrorView::AccountNotVerified => "AUTH_002"@,
            ErrorView::AccountDisabled => "AUTH_003"@,
            ErrorView::TooManyAttempts => "AUTH_004"@,
            ErrorView::InvalidToken(_) => "AUTH_005"@,
            ErrorView::Unauthorized => "AUTH_006"@,
            ErrorView::Forbidden => "AUTH_007"@,
            ErrorView::TokenExpired => "AUTH_008"@,
            ErrorView::ValidationError(_, _) => "VAL_001"@,
            ErrorView::ExternalServiceError(_) => "EXT_001"@,
        }
    }

    /// The human-readable message of the body.
    pub open spec fn message(self) -> Seq<char> {
        match self {
            ErrorView::BadRequest => "Bad request"@,
            ErrorView::NotFound(_) => "The requested resource could not be found"@,
            ErrorView::InternalServerError => "An unexpected error occurred"@,
            ErrorView::DatabaseError(message) => message,
            ErrorView::ConfigError(message) => message,
            ErrorView::Conflict(message, _) => message,
            ErrorView::NotStrongPassword => "Password must be at least 8 characters long and contain at least one uppercase letter, one lowercase letter, one number, and one special character"@,
            ErrorView::InvalidConfirmationCode => "The provided confirmation code is invalid"@,
            ErrorView::CodeExpired => "The confirmation code has expired"@,
            ErrorView::AccountAlreadyConfirmed => "This account has already been confirmed"@,
            ErrorView::AccountNotFound => "No account found with the provided email"@,
            ErrorView::InvalidCredentials => "The provided email or password is incorrect"@,
            ErrorView::AccountNotVerified => "Please verify your email address before logging in"@,
            ErrorView::AccountDisabled => "Your account has been disabled. Please contact support"@,
            ErrorView::TooManyAttempts => "Too many failed login attempts. Please try again later"@,
            ErrorView::InvalidToken(message) => message,
            ErrorView::Unauthorized => "You are not authorized to access this resource"@,
            ErrorView::Forbidden => "You do not have permission to access this resource"@,
            ErrorView::TokenExpired => "The provided token has expired"@,
            ErrorView::ValidationError(summary, _) => summary,
            ErrorView::ExternalServiceError(message) => message,
        }
    }

    /// The per-field findings of the body: present for validation errors only.
    pub open spec fn validation_errors(self) -> Option<Seq<char>> {
        match self {
            ErrorView::ValidationError(_, details) => Some(details),
            _ => None,
        }
    }
}

impl ErrorResponse {
    /// Whether the body is the one that `error` is answered with.
    pub open spec fn renders(&self, error: ErrorView) -> bool {
        &&& self.error@ == error.error_text()
        &&& self.code@ == error.code()
        &&& self.message@ == error.message()
        &&& match self.validation_errors {
            Some(details) => error.validation_errors() == Some(details@),
            None => error.validation_errors() is None,
        }
    }
}

fn plain_body(error: &str, code: &str, message: &str) -> (body: ErrorResponse)
    ensures
        body.error@ == error@,
        body.code@ == code@,
        body.message@ == message@,
        body.validation_errors is None,
{
    ErrorResponse {
        error: error.to_string(),
        code: code.to_string(),
        message: message.to_string(),
        validation_errors: None,
    }
}

impl CustomError {
    /// The HTTP status that this error is answered with.
    pub fn status_code(&self) -> (status: u16)
        ensures
            status == self@.status(),
    {
        match self {
            CustomError::NotFound(_) | CustomError::AccountNotFound => 404,
            CustomError::InternalServerError
            | CustomError::DatabaseError(_)
            | CustomError::ConfigError(_)
            | CustomError::ExternalServiceError(_) => 500,
            CustomError::BadRequest
            | CustomError::NotStrongPassword
            | CustomError::InvalidConfirmationCode
            | CustomError::CodeExpired
            | CustomError::AccountAlreadyConfirmed
            | CustomError::ValidationError(_) => 400,
            CustomError::Conflict(_, _) => 409,
            CustomError::InvalidCredentials
            | CustomError::InvalidToken(_)
            | CustomError::Unauthorized
            | CustomError::TokenExpired => 401,
            CustomError::AccountNotVerified
            | CustomError::AccountDisabled
            | CustomError::Forbidden => 403,
            CustomError::TooManyAttempts => 429,
        }
    }

    /// The status and body that this error is answered with.
    pub fn error_response(&self) -> (response: (u16, ErrorResponse))
        ensures
            response.0 == self@.status(),
            response.1.renders(self@),
    {
        let status = self.status_code();
        let body = match self {
            CustomError::NotFound(resource) => plain_body(
                resource.clone().concat(" not found").as_str(),
                "RES_001",
                "The requested resource could not be found",
            ),
            CustomError::InternalServerError => plain_body(
                "Internal server error",
                "SRV_001",
                "An unexpected error occurred",
            ),
            CustomError::BadRequest => plain_body("Bad Request", "BAD_001", "Bad request"),
            CustomError::DatabaseError(message) => plain_body(
                "Database error",
                "DB_001",
                message.as_str(),
            ),
            CustomError::ConfigError(message) => plain_body(
                "Config error",
                "CFG_001",
                message.as_str(),
            ),
            CustomError::Conflict(message, code) => plain_body(
                "Conflict",
                code.as_str(),
                message.as_str(),
            ),
            CustomError::NotStrongPassword => plain_body(
                "Not Strong Password",
                "PWD_001",
                "Password must be at least 8 characters long and contain at least one uppercase letter, one lowercase letter, one number, and one special character",
            ),
            CustomError::InvalidConfirmationCode => plain_body(
                "Invalid confirmation code",
                "CON_002",
                "The provided confirmation code is invalid",
            ),
            CustomError::CodeExpired => plain_body(
                "Code expired",
                "CON_003",
                "The confirmation code has expired",
            ),
            CustomError::AccountAlreadyConfirmed => plain_body(
                "Account already confirmed",
                "CON_004",
                "This account has already been confirmed",
            ),
            CustomError::AccountNotFound => plain_body(
                "Account not found",
                "CON_005",
                "No account found with the provided email",
            ),
            CustomError::InvalidCredentials => plain_body(
                "Invalid credentials",
                "AUTH_001",
                "The provided email or password is incorrect",
            ),
            CustomError::AccountNotVerified => plain_body(
                "Account not verified",
                "AUTH_002",
                "Please verify your email address before logging in",
            ),
            CustomError::AccountDisabled => plain_body(
                "Account disabled",
                "AUTH_003",
                "Your account has been disabled. Please contact support",
            ),
            CustomError::TooManyAttempts => plain_body(
                "Too many attempts",
                "AUTH_004",
                "Too many failed login attempts. Please try again later",
            ),
            CustomError::InvalidToken(message) => plain_body(
                "Invalid token",
                "AUTH_005",
                message.as_str(),
            ),
            CustomError::Unauthorized => plain_body(
                "Unauthorized",
                "AUTH_006",
                "You are not authorized to access this resource",
            ),
            CustomError::Forbidden => plain_body(
                "Forbidden",
                "AUTH_007",
                "You do not have permission to access this resource",
            ),
            CustomError::TokenExpired => plain_body(
                "Token expired",
                "AUTH_008",
                "The provided token has expired",
            ),
            CustomError::ValidationError(errors) => ErrorResponse {
                error: "".to_string(),
                code: "VAL_001".to_string(),
                message: errors.summary.clone(),
                validation_errors: Some(errors.details.clone()),
            },
            CustomError::ExternalServiceError(message) => plain_body(
                "External service error",
                "EXT_001",
                message.as_str(),
            ),
        };
        (status, body)
    }
}

/// Whether an outcome is the given ruling: the same value, or an error with
/// the same kind and texts.
pub open spec fn answers<T>(outcome: Result<T, CustomError>, verdict: Result<T, ErrorView>) -> bool {
    match outcome {
        Ok(value) => verdict == Ok::<T, ErrorView>(value),
        Err(error) => verdict == Err::<T, ErrorView>(error@),
    }
}

} // verus!
