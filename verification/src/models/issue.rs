//! Issues and the rules on their request bodies.

use vstd::prelude::*;
use crate::clock::{chrono_now, Timestamp};
use crate::errors::ValidationError;
use crate::ident::Id;
use crate::models::comment::CommentResponse;

verus! {

// --- data models ---

#[derive(Debug, Clone, Copy, PartialEq, Eq, Structural, Hash)]
pub enum IssuePriority {
    Urgent,
    High,
    Medium,
    Low,
}

#[derive(Debug, Clone, Copy, PartialEq, Eq, Structural, Hash)]
pub enum IssueStatus {
    Backlog,
    Todo,
    InProgress,
    InReview,
    Done,
    Canceled,
    Blocked,
}

#[derive(Debug, Clone, PartialEq, Eq)]
pub struct Issue {
    pub id: Id,
    pub org_id: Id,
    pub creator_id: Id,
    pub number: i32,
    pub title: String,
    /// JSON text.
    pub description: Option<String>,
    pub priority: IssuePriority,
    pub status: IssueStatus,
    pub parent_id: Option<Id>,
    pub due_date: Option<Timestamp>,
    pub created_at: Timestamp,
    pub updated_at: Timestamp,
}

// --- request/response models ---

#[derive(Debug, Clone, PartialEq, Eq)]
pub struct IssueRequest {
    pub title: String,
    /// JSON text.
    pub description: Option<String>,
    pub priority: IssuePriority,
    pub status: IssueStatus,
    pub parent_id: Option<Id>,
    pub due_date: Option<Timestamp>,
}

#[derive(Debug, Clone, PartialEq, Eq)]
pub struct UpdateIssueRequest {
    pub title: Option<String>,
    /// JSON text.
    pub description: Option<String>,
    pub priority: Option<IssuePriority>,
    pub status: Option<IssueStatus>,
    pub parent_id: Option<Id>,
    pub due_date: Option<Timestamp>,
    pub remove_due_date: Option<bool>,
}

#[derive(Debug, Clone, PartialEq, Eq)]
pub struct IssueResponse {
    pub issue: Issue,
    pub issue_id: Id,
    pub sub_issues: Option<Vec<Issue>>,
    pub comments: Option<Vec<CommentResponse>>,
}

// --- validation rules ---

/// A due date is accepted unless it lies before `now`.
pub fn validate_due_date_at(due_date: &Timestamp, now: &Timestamp) -> (checked: Result<
    (),
    ValidationError,
>)
    ensures
        checked is Ok <==> due_date_accepted(*due_date, *now),
        checked matches Err(e) ==> e.code@ == "due_date cannot be in the past"@,
{
    if due_date.unix_nanos < now.unix_nanos {
        return Err(ValidationError::new("due_date cannot be in the past"));
    }
    Ok(())
}

/// A due date is accepted unless it lies before the present instant: the
/// answer is the one that `validate_due_date_at` gives at the instant that the
/// clock shows.
pub fn validate_due_date(due_date: &Timestamp) -> (checked: Result<(), ValidationError>)
    ensures
        exists|now: Timestamp| checked is Ok <==> #[trigger] due_date_accepted(*due_date, now),
        checked matches Err(e) ==> e.code@ == "due_date cannot be in the past"@,
{
    let now = chrono_now();
    let checked = validate_due_date_at(due_date, &now);
    assert(checked is Ok <==> due_date_accepted(*due_date, now));
    checked
}

/// Every status is accepted.
pub fn validate_status(status: &IssueStatus) -> (checked: Result<(), ValidationError>)
    ensures
        checked is Ok,
{
    match status {
        IssueStatus::Backlog
        | IssueStatus::Todo
        | IssueStatus::InProgress
        | IssueStatus::InReview
        | IssueStatus::Done
        | IssueStatus::Canceled
        | IssueStatus::Blocked => Ok(()),
    }
}

/// Every priority is accepted.
pub fn validate_priority(priority: &IssuePriority) -> (checked: Result<(), ValidationError>)
    ensures
        checked is Ok,
{
    match priority {
        IssuePriority::Urgent
        | IssuePriority::High
        | IssuePriority::Medium
        | IssuePriority::Low => Ok(()),
    }
}

/// Whether a due date is accepted at an instant: it does not lie before it.
pub open spec fn due_date_accepted(due_date: Timestamp, now: Timestamp) -> bool {
    due_date.unix_nanos >= now.unix_nanos
}

} // verus!
