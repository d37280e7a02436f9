//! Comments.

use vstd::prelude::*;
use vstd::string::*;
use crate::errors::ValidationError;
use crate::clock::Timestamp;
use crate::ident::Id;
use crate::models::auth::User;

verus! {

#[derive(Debug, Clone, Copy, PartialEq, Eq, Structural, Hash)]
pub enum CommentType {
    Issue,
    Document,
    Attachment,
}

#[derive(Debug, Clone, PartialEq, Eq)]
pub struct Comment {
    pub id: Id,
    pub org_id: Id,
    pub creator_id: Id,
    pub comment_type: CommentType,
    pub comment_owner_id: Id,
    /// JSON text.
    pub content: String,
    pub parent_id: Option<Id>,
    pub edited_at: Option<Timestamp>,
    pub created_at: Timestamp,
    pub updated_at: Timestamp,
}

#[derive(Debug, Clone, PartialEq, Eq)]
pub struct CommentRequest {
    pub comment_type: CommentType,
    /// JSON text.
    pub content: String,
    pub parent_id: Option<Id>,
    pub comment_owner_id: Id,
}

#[derive(Debug, Clone, PartialEq, Eq)]
pub struct UpdateCommentRequest {
    /// JSON text.
    pub content: String,
}

#[derive(Debug, Clone, PartialEq, Eq)]
pub struct CommentResponse {
    pub comment: Comment,
    pub creator: User,
}

/// The content of a comment, as JSON text, must not be `null`.
pub fn validate_content(value: &String) -> (checked: Result<(), ValidationError>)
    ensures
        checked is Ok <==> value@ != "null"@,
        checked matches Err(e) ==> e.code@ == "Content cannot be empty"@,
{
    if *value == "null".to_string() {
        return Err(ValidationError::new("Content cannot be empty"));
    }
    Ok(())
}

} // verus!
