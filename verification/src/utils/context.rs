//! Reading the request context from a handler.

use vstd::prelude::*;
use crate::errors::{CustomError, ErrorView};
use crate::ident::Id;
use crate::models::context::RequestContext;
use crate::models::org::Org;

verus! {

/// The caller's user id. A request without an identity is unauthorized.
pub fn get_context_user_id(req: &RequestContext) -> (user_id: Result<Id, CustomError>)
    ensures
        match user_id {
            Ok(id) => req.identity() == Some(id),
            Err(error) => req.identity() is None && error@ == ErrorView::Unauthorized,
        },
{
    match &req.user {
        Some(user_context) => match user_context.user_id {
            Some(user_id) => Ok(user_id),
            None => Err(CustomError::Unauthorized),
        },
        None => Err(CustomError::Unauthorized),
    }
}

/// The organization that the request is scoped to. A request without one is
/// unauthorized.
pub fn get_context_org(req: &RequestContext) -> (org: Result<Org, CustomError>)
    ensures
        match org {
            Ok(found) => req.organization() == Some(found),
            Err(error) => req.organization() is None && error@ == ErrorView::Unauthorized,
        },
{
    match &req.org {
        Some(org_context) => match &org_context.org {
            Some(org) => Ok(org.duplicate()),
            None => Err(CustomError::Unauthorized),
        },
        None => Err(CustomError::Unauthorized),
    }
}

} // verus!
