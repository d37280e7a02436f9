//! What the issue service makes of the store's answers.

use vstd::prelude::*;
use vstd::string::*;
use crate::errors::{CustomError, ErrorView, StoreError};
use crate::ident::{uuid_to_string, Id};
use crate::models::comment::CommentResponse;
use crate::models::issue::{Issue, IssueResponse};

verus! {

pub struct IssueService;

impl IssueService {
    pub fn new() -> IssueService {
        IssueService
    }

    /// The error that a failed lookup of the issue `id` becomes.
    pub open spec fn issue_lookup_error(id: Id, failure: StoreError) -> ErrorView {
        if failure.row_not_found {
            ErrorView::NotFound("Issue with id: "@ + id.text() + " not found"@)
        } else {
            ErrorView::DatabaseError(failure.message@)
        }
    }

    /// The issue `id` as the store found, changed or deleted it.
    pub fn issue_found<T>(&self, id: Id, found: Result<T, StoreError>) -> (issue: Result<T, CustomError>)
        ensures
            match found {
                Ok(stored) => issue == Ok::<T, CustomError>(stored),
                Err(failure) => issue matches Err(error) && error@ == Self::issue_lookup_error(
                    id,
                    failure,
                ),
            },
    {
        match found {
            Ok(stored) => Ok(stored),
            Err(failure) => {
                if failure.row_not_found {
                    let resource = "Issue with id: ".to_string().concat(
                        uuid_to_string(id).as_str(),
                    ).concat(" not found");
                    Err(CustomError::NotFound(resource))
                } else {
                    Err(CustomError::DatabaseError(failure.message))
                }
            },
        }
    }

    /// What else the store found for an issue: any failure is the store's.
    pub fn related_found<T>(&self, found: Result<T, StoreError>) -> (related: Result<T, CustomError>)
        ensures
            match found {
                Ok(stored) => related == Ok::<T, CustomError>(stored),
                Err(failure) => related matches Err(error) && error@ == ErrorView::DatabaseError(
                    failure.message@,
                ),
            },
    {
        match found {
            Ok(stored) => Ok(stored),
            Err(failure) => Err(CustomError::DatabaseError(failure.message)),
        }
    }

    /// A new issue as it is answered: without sub-issues and comments.
    pub fn created_response(&self, issue: Issue) -> (response: IssueResponse)
        ensures
            response.issue == issue,
            response.issue_id == issue.id,
            response.sub_issues is None,
            response.comments is None,
    {
        IssueResponse { issue_id: issue.id, issue, sub_issues: None, comments: None }
    }

    /// An issue as it is answered with its sub-issues and comments.
    pub fn full_response(
        &self,
        issue_id: Id,
        issue: Issue,
        sub_issues: Vec<Issue>,
        comments: Vec<CommentResponse>,
    ) -> (response: IssueResponse)
        ensures
            response.issue == issue,
            response.issue_id == issue_id,
            response.sub_issues == Some(sub_issues),
            response.comments == Some(comments),
    {
        IssueResponse { issue_id, issue, sub_issues: Some(sub_issues), comments: Some(comments) }
    }
}

} // verus!
