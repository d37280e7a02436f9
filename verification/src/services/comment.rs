//! What the comment service makes of the store's answers.

use vstd::prelude::*;
use vstd::string::*;
use crate::errors::{CustomError, ErrorView, StoreError};
use crate::ident::Id;
use crate::models::auth::User;
use crate::models::comment::{Comment, CommentResponse};

verus! {

pub struct CommentService;

impl CommentService {
    pub fn new() -> CommentService {
        CommentService
    }

    /// What the store found, stored or deleted: any failure is the store's.
    pub fn comment_found<T>(&self, found: Result<T, StoreError>) -> (comment: Result<T, CustomError>)
        ensures
            match found {
                Ok(stored) => comment == Ok::<T, CustomError>(stored),
                Err(failure) => comment matches Err(error) && error@ == ErrorView::DatabaseError(
                    failure.message@,
                ),
            },
    {
        match found {
            Ok(stored) => Ok(stored),
            Err(failure) => Err(CustomError::DatabaseError(failure.message)),
        }
    }

    /// The comment as the store found it, for the user who wants to change or
    /// delete it: only its creator may.
    pub fn own_comment(&self, found: Result<Comment, StoreError>, user_id: Id) -> (comment: Result<
        Comment,
        CustomError,
    >)
        ensures
            match found {
                Ok(stored) => if stored.creator_id == user_id {
                    comment == Ok::<Comment, CustomError>(stored)
                } else {
                    comment matches Err(error) && error@ == ErrorView::Unauthorized
                },
                Err(failure) => comment matches Err(error) && error@ == ErrorView::DatabaseError(
                    failure.message@,
                ),
            },
    {
        let comment = self.comment_found(found)?;
        if comment.creator_id != user_id {
            return Err(CustomError::Unauthorized);
        }
        Ok(comment)
    }

    /// A comment together with its creator, as the store found the creator.
    pub fn comment_response(&self, comment: Comment, creator: Result<User, StoreError>) -> (response:
        Result<CommentResponse, CustomError>)
        ensures
            match creator {
                Ok(user) => response == Ok::<CommentResponse, CustomError>(
                    CommentResponse { comment, creator: user },
                ),
                Err(_) => response matches Err(error) && error@ == ErrorView::InvalidToken(
                    "User not found"@,
                ),
            },
    {
        match creator {
            Ok(user) => Ok(CommentResponse { comment, creator: user }),
            Err(_) => Err(CustomError::InvalidToken("User not found".to_string())),
        }
    }
}

} // verus!
