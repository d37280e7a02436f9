//! Users, their stored credentials, and the bodies of the sign-in routes.

use vstd::prelude::*;
use vstd::string::*;
use crate::clock::Timestamp;
use crate::ident::Id;

verus! {

// --- data models ---

#[derive(Debug, Clone, PartialEq, Eq)]
pub struct User {
    pub id: Id,
    pub email: String,
    pub username: String,
    pub password_hash: Option<String>,
    pub is_email_verified: bool,
    pub email_verification_token: Option<String>,
    pub email_verification_expires_at: Option<Timestamp>,
    pub created_at: Timestamp,
    pub updated_at: Timestamp,
    pub last_login_at: Option<Timestamp>,
    pub avatar_url: Option<String>,
    pub github_id: Option<String>,
    pub github_url: Option<String>,
}

#[derive(Debug, Clone, PartialEq, Eq)]
pub struct RefreshToken {
    pub id: Id,
    pub user_id: Id,
    pub token_hash: String,
    pub expires_at: Timestamp,
    pub created_at: Timestamp,
    pub revoked_at: Option<Timestamp>,
    pub replaced_by_token: Option<Id>,
    /// JSON text.
    pub device_info: Option<String>,
    pub ip_address: Option<String>,
    pub is_valid: bool,
}

#[derive(Debug, Clone, PartialEq, Eq)]
pub struct RevokedToken {
    pub id: Id,
    pub token_identifier: String,
    pub revoked_at: Timestamp,
    pub expires_at: Timestamp,
    pub revocation_reason: Option<String>,
}

#[derive(Debug, Clone, PartialEq, Eq)]
pub struct AuthLog {
    pub id: Id,
    pub user_id: Option<Id>,
    pub event_type: String,
    pub ip_address: Option<String>,
    pub user_agent: Option<String>,
    pub created_at: Timestamp,
    /// JSON text.
    pub details: Option<String>,
}

/// A copy of an optional text.
pub fn duplicate_text(text: &Option<String>) -> (copy: Option<String>)
    ensures
        copy == *text,
{
    match text {
        Some(t) => Some(t.clone()),
        None => None,
    }
}

impl User {
    /// A copy of the record with every attribute as it is.
    pub fn duplicate(&self) -> (copy: User)
        ensures
            copy == *self,
    {
        User {
            id: self.id,
            email: self.email.clone(),
            username: self.username.clone(),
            password_hash: duplicate_text(&self.password_hash),
            is_email_verified: self.is_email_verified,
            email_verification_token: duplicate_text(&self.email_verification_token),
            email_verification_expires_at: self.email_verification_expires_at,
            created_at: self.created_at,
            updated_at: self.updated_at,
            last_login_at: self.last_login_at,
            avatar_url: duplicate_text(&self.avatar_url),
            github_id: duplicate_text(&self.github_id),
            github_url: duplicate_text(&self.github_url),
        }
    }
}

// --- request/response models ---

#[derive(Debug, Clone, PartialEq, Eq)]
pub struct RegisterRequest {
    pub username: String,
    pub email: String,
    pub password: String,
}

#[derive(Debug, Clone, PartialEq, Eq)]
pub struct RegisterResponse {
    pub message: String,
    pub user_id: String,
    pub email: String,
}

#[derive(Debug, Clone, PartialEq, Eq)]
pub struct LoginRequest {
    pub email: String,
    pub password: String,
}

#[derive(Debug, Clone, PartialEq, Eq)]
pub struct LoginResponse {
    pub message: String,
    pub user_id: String,
    pub email: String,
    pub access_token: String,
    pub refresh_token: String,
    /// Seconds.
    pub expires_in_refresh: i64,
    /// Seconds.
    pub expires_in_access: i64,
}

// --- repository models ---

#[derive(Debug, Clone, PartialEq, Eq)]
pub struct CreateUserData {
    pub email: String,
    pub username: String,
    pub password: String,
}

#[derive(Debug, Clone, PartialEq, Eq)]
pub struct UpdateUserData {
    pub email: Option<String>,
    pub username: Option<String>,
    pub password: Option<String>,
}

#[derive(Debug, Clone, PartialEq, Eq)]
pub struct CreateRefreshTokenData {
    pub user_id: Id,
    pub token_hash: String,
    pub expires_at: Timestamp,
    /// JSON text.
    pub device_info: Option<String>,
    pub ip_address: Option<String>,
}

#[derive(Debug, Clone, PartialEq, Eq)]
pub struct CreateRevokedTokenData {
    pub token_identifier: String,
    pub revoked_at: Timestamp,
    pub expires_at: Timestamp,
    pub revocation_reason: Option<String>,
}

#[derive(Debug, Clone, PartialEq, Eq)]
pub struct CreateGithubUser {
    pub email: String,
    pub username: String,
    pub github_id: String,
    pub github_url: String,
    pub avatar_url: Option<String>,
}

#[derive(Debug, Clone, PartialEq, Eq)]
pub struct UpdateGithubUser {
    pub email: Option<String>,
    pub github_id: Option<String>,
    pub github_url: Option<String>,
    pub avatar_url: Option<String>,
}

#[derive(Debug, Clone, PartialEq, Eq)]
pub struct UserGithubResponse {
    pub user: User,
    pub access_token: String,
    pub refresh_token: String,
    pub access_token_expiration: i64,
    pub refresh_token_expiration: i64,
}

} // verus!
