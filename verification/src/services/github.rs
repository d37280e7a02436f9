//! What is sent to GitHub of an issue where the request leaves it open.

use vstd::prelude::*;
use vstd::string::*;
use crate::models::github::{CreateIssueRequest, IssueState, UpdateIssueRequest};

verus! {

pub struct GithubService;

/// An issue as it is sent to GitHub: every field has a value.
#[derive(Debug, Clone, PartialEq, Eq)]
pub struct IssueFields {
    pub title: String,
    pub body: String,
    pub state: IssueState,
    pub assignees: Vec<String>,
    pub labels: Vec<String>,
}

/// A text, or the empty text in its place.
pub open spec fn text_or_empty(text: Option<String>) -> Seq<char> {
    match text {
        Some(t) => t@,
        None => Seq::empty(),
    }
}

/// A list of texts, or the empty list in its place.
pub open spec fn list_or_empty(list: Option<Vec<String>>) -> Seq<String> {
    match list {
        Some(l) => l@,
        None => Seq::empty(),
    }
}

fn or_empty_text(text: Option<String>) -> (value: String)
    ensures
        value@ == text_or_empty(text),
{
    match text {
        Some(t) => t,
        None => String::new(),
    }
}

fn or_empty_list(list: Option<Vec<String>>) -> (value: Vec<String>)
    ensures
        value@ == list_or_empty(list),
{
    match list {
        Some(l) => l,
        None => Vec::new(),
    }
}

impl GithubService {
    /// The fields of an issue that is changed: a title or a body that the
    /// request leaves out is sent empty, no state means open, and no
    /// assignees or labels mean none.
    pub fn update_issue(request: UpdateIssueRequest) -> (fields: IssueFields)
        ensures
            fields.title@ == text_or_empty(request.title),
            fields.body@ == text_or_empty(request.body),
            fields.state == match request.state {
                Some(state) => state,
                None => IssueState::Open,
            },
            fields.assignees@ == list_or_empty(request.assignees),
            fields.labels@ == list_or_empty(request.labels),
    {
        IssueFields {
            title: or_empty_text(request.title),
            body: or_empty_text(request.body),
            state: match request.state {
                Some(state) => state,
                None => IssueState::Open,
            },
            assignees: or_empty_list(request.assignees),
            labels: or_empty_list(request.labels),
        }
    }

    /// The fields of an issue that is created: it is open, a body that the
    /// request leaves out is sent empty, and no assignees or labels mean
    /// none.
    pub fn create_issue(request: CreateIssueRequest) -> (fields: IssueFields)
        ensures
            fields.title == request.title,
            fields.body@ == text_or_empty(request.body),
            fields.state == IssueState::Open,
            fields.assignees@ == list_or_empty(request.assignees),
            fields.labels@ == list_or_empty(request.labels),
    {
        IssueFields {
            title: request.title,
            body: or_empty_text(request.body),
            state: IssueState::Open,
            assignees: or_empty_list(request.assignees),
            labels: or_empty_list(request.labels),
        }
    }
}

} // verus!
