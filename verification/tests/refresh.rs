use api::clock::Timestamp;
use api::directory::Directory;
use api::errors::{CustomError, StoreError};
use api::ident::Id;
use api::models::auth::User;
use api::services::auth::AuthService;
use api::services::token::TokenService;

const U1: u128 = 0x0a0b0c0d_0000_4000_8000_000000000001;

fn u1() -> User {
    User {
        id: Id::from_u128(U1),
        email: "u1@example.org".to_string(),
        username: "u1".to_string(),
        password_hash: None,
        is_email_verified: true,
        email_verification_token: None,
        email_verification_expires_at: None,
        created_at: Timestamp { unix_nanos: 0 },
        updated_at: Timestamp { unix_nanos: 0 },
        last_login_at: None,
        avatar_url: None,
        github_id: None,
        github_url: None,
    }
}

fn store() -> Directory {
    Directory { users: vec![u1()], orgs: vec![], members: vec![] }
}

fn auth() -> AuthService {
    AuthService::new(TokenService::new().unwrap())
}

fn invalid(message: &str) -> CustomError {
    CustomError::InvalidToken(message.to_string())
}

/// The refresh route as the application runs it: verify, look the user up,
/// issue.
fn refresh(auth: &AuthService, store: &Directory, header: &str) -> Result<api::models::auth::LoginResponse, CustomError> {
    let user_id = auth.refresh_token_subject(header)?;
    auth.refresh_token(user_id, store.get_user_by_id(user_id))
}

#[test]
fn refresh_after_access_expiry_and_again_with_the_same_token() {
    let auth = auth();
    let store = store();
    // Issued twenty minutes ago: the access token has expired, the refresh
    // token has not.
    let issued = Timestamp { unix_nanos: Timestamp::now().unix_nanos - 20 * 60_000_000_000 };
    let (access, refresh_token, _, _) =
        auth.token_service.generate_token_pair_at(Id::from_u128(U1), issued).unwrap();
    assert_eq!(auth.token_service.verify_access_token(&access), Err(invalid("Invalid token")));

    let first = refresh(&auth, &store, &refresh_token).unwrap();
    assert_eq!(first.message, "Token refreshed successfully");
    assert_eq!(first.user_id, "0a0b0c0d-0000-4000-8000-000000000001");
    assert_eq!(first.email, "u1@example.org");
    assert_eq!(first.expires_in_access, 900);
    assert_eq!(first.expires_in_refresh, 604800);
    assert_eq!(auth.token_service.extract_user_id(&first.access_token), Ok(Id::from_u128(U1)));
    assert_ne!(first.refresh_token, refresh_token);

    // No rotation is enforced: the first refresh token is accepted again.
    let second = refresh(&auth, &store, &refresh_token).unwrap();
    assert_eq!(auth.token_service.extract_user_id(&second.access_token), Ok(Id::from_u128(U1)));
    assert_ne!(second.access_token, first.access_token);
    assert_ne!(second.refresh_token, first.refresh_token);

    // And so is each new one.
    assert!(refresh(&auth, &store, &first.refresh_token).is_ok());
    assert!(refresh(&auth, &store, &second.refresh_token).is_ok());
}

#[test]
fn renewal_and_sign_in_hold_the_identifiers_drawn_for_them() {
    let auth = auth();
    let now = Timestamp { unix_nanos: 4_102_444_800_000_000_000 };
    let access_id = Id::from_u128(0x33333333_3333_4333_8333_333333333333);
    let refresh_id = Id::from_u128(0x44444444_4444_4444_8444_444444444444);
    let renewed = auth
        .refresh_token_with(Id::from_u128(U1), Ok(u1()), now, access_id, refresh_id)
        .unwrap();
    assert_eq!(renewed.message, "Token refreshed successfully");
    assert_eq!(renewed.expires_in_access, 900);
    assert_eq!(renewed.expires_in_refresh, 604800);
    let claims = auth.token_service.verify_access_token(&renewed.access_token).unwrap();
    assert_eq!(claims.token_id.as_deref(), Some("33333333-3333-4333-8333-333333333333"));
    assert_eq!(claims.subject.as_deref(), Some("0a0b0c0d-0000-4000-8000-000000000001"));
    assert_eq!(auth.refresh_token_subject(&renewed.refresh_token), Ok(Id::from_u128(U1)));
    let broken = StoreError { row_not_found: true, message: "no rows".to_string() };
    assert_eq!(
        auth.refresh_token_with(Id::from_u128(U1), Err(broken), now, access_id, refresh_id),
        Err(invalid("User not found"))
    );
    // A sign-in without a password hash fails before anything is issued.
    assert_eq!(
        auth.login_user_with(Ok(u1()), "pw", now, access_id, refresh_id),
        Err(CustomError::InvalidCredentials)
    );
}

#[test]
fn missing_refresh_header_is_an_invalid_token() {
    assert_eq!(auth().refresh_token_subject(""), Err(invalid("Invalid refresh token")));
}

#[test]
fn subject_of_a_refresh_token_must_be_a_user_id() {
    assert_eq!(
        AuthService::refresh_user_id(Ok("0a0b0c0d-0000-4000-8000-000000000001".to_string())),
        Ok(Id::from_u128(U1))
    );
    for text in ["", "u1", "0a0b0c0d-0000-4000-8000-00000000000", "0a0b0c0d-0000-4000-8000-00000000000g"] {
        assert_eq!(
            AuthService::refresh_user_id(Ok(text.to_string())),
            Err(invalid("Invalid user ID format"))
        );
    }
    for failure in [
        invalid("Invalid refresh token"),
        invalid("sub claim not found"),
        CustomError::InternalServerError,
    ] {
        assert_eq!(AuthService::refresh_user_id(Err(failure.clone())), Err(failure));
    }
}

#[test]
fn access_token_does_not_refresh() {
    let auth = auth();
    let (access, _, _, _) = auth.token_service.generate_token_pair(Id::from_u128(U1)).unwrap();
    assert_eq!(refresh(&auth, &store(), &access), Err(invalid("Invalid refresh token")));
}

#[test]
fn refresh_for_a_user_that_is_gone_is_invalid() {
    let auth = auth();
    let (_, refresh_token, _, _) = auth.token_service.generate_token_pair(Id::from_u128(U1)).unwrap();
    let empty = Directory::new();
    assert_eq!(refresh(&auth, &empty, &refresh_token), Err(invalid("User not found")));
    let broken = StoreError { row_not_found: false, message: "down".to_string() };
    assert_eq!(auth.refresh_token(Id::from_u128(U1), Err(broken)), Err(invalid("User not found")));
}

#[test]
fn renewed_pair_is_issued_at_the_given_instant() {
    let auth = auth();
    let now = Timestamp { unix_nanos: 4_102_444_800_000_000_000 };
    let renewed = auth.refresh_token_at(Id::from_u128(U1), Ok(u1()), now).unwrap();
    let claims = auth.token_service.verify_access_token(&renewed.access_token).unwrap();
    assert_eq!(claims.expires_at.as_deref(), Some("2100-01-01T00:15:00Z"));
    assert_eq!(auth.refresh_token_subject(&renewed.refresh_token), Ok(Id::from_u128(U1)));
    let late = Timestamp { unix_nanos: i128::MAX };
    assert_eq!(
        auth.refresh_token_at(Id::from_u128(U1), Ok(u1()), late),
        Err(CustomError::InternalServerError)
    );
}

#[test]
fn the_token_names_the_user_and_the_record_fills_the_response() {
    let auth = auth();
    let mut record = u1();
    record.id = Id::from_u128(2);
    let renewed = auth.refresh_token(Id::from_u128(U1), Ok(record)).unwrap();
    assert_eq!(renewed.user_id, "00000000-0000-0000-0000-000000000002");
    assert_eq!(auth.token_service.extract_user_id(&renewed.access_token), Ok(Id::from_u128(U1)));
}
