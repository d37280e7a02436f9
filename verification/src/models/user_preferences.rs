//! The preferences that a user keeps.

use vstd::prelude::*;
use crate::clock::Timestamp;
use crate::ident::Id;

verus! {

#[derive(Debug, Clone, PartialEq, Eq)]
pub struct UserPreference {
    pub id: Id,
    pub user_id: Id,
    pub theme: String,
    pub language: String,
    pub default_org_id: Option<Id>,
    pub cta_color: String,
    pub cta_text_color: String,
    pub font_size: String,
    pub created_at: Timestamp,
    pub updated_at: Timestamp,
}

#[derive(Debug, Clone, Copy, PartialEq, Eq, Structural)]
pub struct UserPreferenceRequest {
    pub user_id: Id,
}

#[derive(Debug, Clone, PartialEq, Eq)]
pub struct UserPreferenceUpdateRequest {
    pub default_org_id: Option<Id>,
    pub theme: String,
    pub language: String,
    pub cta_color: String,
    pub cta_text_color: String,
    pub font_size: String,
}

} // verus!
