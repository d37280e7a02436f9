use api::errors::{CustomError, ErrorResponse, ValidationError, ValidationErrors};

fn body(error: &str, code: &str, message: &str) -> ErrorResponse {
    ErrorResponse {
        error: error.to_string(),
        code: code.to_string(),
        message: message.to_string(),
        validation_errors: None,
    }
}

fn text(message: &str) -> String {
    message.to_string()
}

#[test]
fn rejections_of_the_pipeline_have_their_status() {
    assert_eq!(CustomError::Unauthorized.status_code(), 401);
    assert_eq!(CustomError::Forbidden.status_code(), 403);
    assert_eq!(CustomError::InvalidToken(text("Invalid token")).status_code(), 401);
    assert_eq!(CustomError::BadRequest.status_code(), 400);
    assert_eq!(CustomError::NotFound(text("Organization not found")).status_code(), 404);
    assert_eq!(CustomError::DatabaseError(text("down")).status_code(), 500);
}

#[test]
fn every_kind_has_its_status() {
    let cases: Vec<(CustomError, u16)> = vec![
        (CustomError::BadRequest, 400),
        (CustomError::NotFound(text("x")), 404),
        (CustomError::InternalServerError, 500),
        (CustomError::DatabaseError(text("x")), 500),
        (CustomError::ConfigError(text("x")), 500),
        (CustomError::Conflict(text("x"), text("y")), 409),
        (CustomError::NotStrongPassword, 400),
        (CustomError::InvalidConfirmationCode, 400),
        (CustomError::CodeExpired, 400),
        (CustomError::AccountAlreadyConfirmed, 400),
        (CustomError::AccountNotFound, 404),
        (CustomError::InvalidCredentials, 401),
        (CustomError::AccountNotVerified, 403),
        (CustomError::AccountDisabled, 403),
        (CustomError::TooManyAttempts, 429),
        (CustomError::InvalidToken(text("x")), 401),
        (CustomError::Unauthorized, 401),
        (CustomError::Forbidden, 403),
        (CustomError::TokenExpired, 401),
        (
            CustomError::ValidationError(ValidationErrors { summary: text("s"), details: text("{}") }),
            400,
        ),
        (CustomError::ExternalServiceError(text("x")), 500),
    ];
    for (error, status) in cases {
        assert_eq!(error.status_code(), status);
        assert_eq!(error.error_response().0, status);
    }
}

#[test]
fn fixed_bodies() {
    let cases: Vec<(CustomError, ErrorResponse)> = vec![
        (CustomError::BadRequest, body("Bad Request", "BAD_001", "Bad request")),
        (
            CustomError::InternalServerError,
            body("Internal server error", "SRV_001", "An unexpected error occurred"),
        ),
        (
            CustomError::NotStrongPassword,
            body(
                "Not Strong Password",
                "PWD_001",
                "Password must be at least 8 characters long and contain at least one uppercase letter, one lowercase letter, one number, and one special character",
            ),
        ),
        (
            CustomError::InvalidConfirmationCode,
            body("Invalid confirmation code", "CON_002", "The provided confirmation code is invalid"),
        ),
        (CustomError::CodeExpired, body("Code expired", "CON_003", "The confirmation code has expired")),
        (
            CustomError::AccountAlreadyConfirmed,
            body("Account already confirmed", "CON_004", "This account has already been confirmed"),
        ),
        (
            CustomError::AccountNotFound,
            body("Account not found", "CON_005", "No account found with the provided email"),
        ),
        (
            CustomError::InvalidCredentials,
            body("Invalid credentials", "AUTH_001", "The provided email or password is incorrect"),
        ),
        (
            CustomError::AccountNotVerified,
            body("Account not verified", "AUTH_002", "Please verify your email address before logging in"),
        ),
        (
            CustomError::AccountDisabled,
            body("Account disabled", "AUTH_003", "Your account has been disabled. Please contact support"),
        ),
        (
            CustomError::TooManyAttempts,
            body("Too many attempts", "AUTH_004", "Too many failed login attempts. Please try again later"),
        ),
        (
            CustomError::Unauthorized,
            body("Unauthorized", "AUTH_006", "You are not authorized to access this resource"),
        ),
        (
            CustomError::Forbidden,
            body("Forbidden", "AUTH_007", "You do not have permission to access this resource"),
        ),
        (CustomError::TokenExpired, body("Token expired", "AUTH_008", "The provided token has expired")),
    ];
    for (error, expected) in cases {
        assert_eq!(error.error_response().1, expected);
    }
}

#[test]
fn bodies_that_carry_a_text() {
    assert_eq!(
        CustomError::NotFound(text("Organization")).error_response().1,
        body("Organization not found", "RES_001", "The requested resource could not be found")
    );
    assert_eq!(
        CustomError::NotFound(text("Organization not found")).error_response().1,
        body(
            "Organization not found not found",
            "RES_001",
            "The requested resource could not be found"
        )
    );
    assert_eq!(
        CustomError::NotFound(String::new()).error_response().1.error,
        " not found"
    );
    assert_eq!(
        CustomError::DatabaseError(text("pool timed out")).error_response().1,
        body("Database error", "DB_001", "pool timed out")
    );
    assert_eq!(
        CustomError::ConfigError(text("PORT environment variable not set")).error_response().1,
        body("Config error", "CFG_001", "PORT environment variable not set")
    );
    assert_eq!(
        CustomError::Conflict(text("taken"), text("username or email")).error_response().1,
        body("Conflict", "username or email", "taken")
    );
    assert_eq!(
        CustomError::InvalidToken(text("Not an access token")).error_response().1,
        body("Invalid token", "AUTH_005", "Not an access token")
    );
    assert_eq!(
        CustomError::ExternalServiceError(text("GitHub API error: 502")).error_response().1,
        body("External service error", "EXT_001", "GitHub API error: 502")
    );
}

#[test]
fn validation_body_carries_the_findings() {
    let errors = ValidationErrors {
        summary: text("ValidationErrors({\"name\": ...})"),
        details: text("{\"name\":[{\"code\":\"length\"}]}"),
    };
    let (status, response) = CustomError::ValidationError(errors).error_response();
    assert_eq!(status, 400);
    assert_eq!(
        response,
        ErrorResponse {
            error: String::new(),
            code: text("VAL_001"),
            message: text("ValidationErrors({\"name\": ...})"),
            validation_errors: Some(text("{\"name\":[{\"code\":\"length\"}]}")),
        }
    );
}

#[test]
fn validation_finding_keeps_its_code() {
    assert_eq!(ValidationError::new("length").code, "length");
    assert_eq!(ValidationError::new("").code, "");
}
