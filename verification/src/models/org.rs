//! Organizations, their members and invitations.

use vstd::prelude::*;
use vstd::string::*;
use crate::clock::Timestamp;
use crate::ident::Id;
use crate::models::auth::User;
use crate::text::{regex_is_match, starts_with};
use crate::errors::ValidationError;

verus! {

// --- data models ---

#[derive(Debug, Clone, Copy, PartialEq, Eq, Structural, Hash)]
pub enum MemberRole {
    Owner,
    Admin,
    Member,
}

#[derive(Debug, Clone, Copy, PartialEq, Eq, Structural, Hash)]
pub enum MemberStatus {
    Active,
    Invited,
    Disabled,
}

#[derive(Debug, Clone, PartialEq, Eq)]
pub struct Org {
    pub id: Id,
    pub name: String,
    pub slug: String,
    pub custom_id: String,
    pub created_at: Timestamp,
    pub updated_at: Timestamp,
    pub logo_url: Option<String>,
}

#[derive(Debug, Clone, Copy, PartialEq, Eq, Structural)]
pub struct OrgMember {
    pub id: Id,
    pub org_id: Id,
    pub user_id: Id,
    pub role: MemberRole,
    pub status: MemberStatus,
    pub joined_at: Timestamp,
    pub invited_by: Id,
    pub created_at: Timestamp,
    pub updated_at: Timestamp,
}

#[derive(Debug, Clone, PartialEq, Eq)]
pub struct OrgMemberInvite {
    pub id: Id,
    pub org_id: Id,
    pub email: String,
    pub role: MemberRole,
    pub invited_by: Id,
    pub invited_at: Timestamp,
    pub expires_at: Timestamp,
    pub token: String,
}

// --- request/response models ---

#[derive(Debug, Clone, PartialEq, Eq)]
pub struct CreateOrgRequest {
    pub name: String,
    pub logo_url: Option<String>,
}

#[derive(Debug, Clone, PartialEq, Eq)]
pub struct UpdateOrgRequest {
    pub name: Option<String>,
    pub logo_url: Option<String>,
}

#[derive(Debug, Clone, PartialEq, Eq)]
pub struct InviteOrgMemberRequest {
    pub email: String,
}

#[derive(Debug, Clone, Copy, PartialEq, Eq, Structural)]
pub struct UpdateOrgMemberRequest {
    pub role: Option<MemberRole>,
    pub status: Option<MemberStatus>,
}

#[derive(Debug, Clone, Copy, PartialEq, Eq, Structural)]
pub struct MembershipResponse {
    pub answer: bool,
}

#[derive(Debug, Clone, PartialEq, Eq)]
pub struct OrgMemberResponse {
    pub user: User,
    pub org_member: OrgMember,
}

#[derive(Debug, Clone, PartialEq, Eq)]
pub struct OrgMemberInviteResponse {
    pub org_member_invite: OrgMemberInvite,
    pub org_name: String,
    pub org_logo: Option<String>,
    pub invited_by: User,
}

impl MemberRole {
    /// The name of the role in the store.
    pub open spec fn spec_db_name(self) -> Seq<char> {
        match self {
            MemberRole::Owner => "OWNER"@,
            MemberRole::Admin => "ADMIN"@,
            MemberRole::Member => "MEMBER"@,
        }
    }

    /// The name of the role in the store.
    pub fn db_name(&self) -> (name: &'static str)
        ensures
            name@ == self.spec_db_name(),
    {
        match self {
            MemberRole::Owner => "OWNER",
            MemberRole::Admin => "ADMIN",
            MemberRole::Member => "MEMBER",
        }
    }
}

impl Org {
    /// A copy of the organization with every attribute as it is.
    pub fn duplicate(&self) -> (copy: Org)
        ensures
            copy == *self,
    {
        Org {
            id: self.id,
            name: self.name.clone(),
            slug: self.slug.clone(),
            custom_id: self.custom_id.clone(),
            created_at: self.created_at,
            updated_at: self.updated_at,
            logo_url: match &self.logo_url {
                Some(url) => Some(url.clone()),
                None => None,
            },
        }
    }
}

impl OrgMember {
    /// Whether the membership gives its user standing in the organization.
    pub open spec fn spec_is_active(&self) -> bool {
        self.status == MemberStatus::Active
    }

    #[verifier::when_used_as_spec(spec_is_active)]
    pub fn is_active(&self) -> (active: bool)
        ensures
            active == self.spec_is_active(),
    {
        self.status == MemberStatus::Active
    }
}

// --- validation rules ---

pub const EMAIL_PATTERN: &'static str = r"^[a-zA-Z0-9._%+-]+@[a-zA-Z0-9.-]+\.[a-zA-Z]{2,}$";

/// A logo must be served over HTTPS.
pub fn validate_logo_url(url: &str) -> (checked: Result<(), ValidationError>)
    ensures
        checked is Ok <==> "https://"@.is_prefix_of(url@),
        checked matches Err(e) ==> e.code@ == "logo_url must be a valid URL"@,
{
    if !starts_with(url, "https://") {
        return Err(ValidationError::new("logo_url must be a valid URL"));
    }
    Ok(())
}

/// An address is accepted where it matches `EMAIL_PATTERN`.
pub fn validate_email(email: &str) -> (checked: Result<(), ValidationError>)
    ensures
        checked is Ok <==> crate::text::regex_match(EMAIL_PATTERN@, email@) == Some(true),
        checked matches Err(e) ==> e.code@ == "email must be a valid email address"@,
{
    match regex_is_match(EMAIL_PATTERN, email) {
        Some(true) => Ok(()),
        _ => Err(ValidationError::new("email must be a valid email address")),
    }
}

} // verus!
