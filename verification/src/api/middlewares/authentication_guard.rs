//! The authentication gate: the request must have an identity.

use vstd::prelude::*;
use crate::errors::{answers, CustomError, ErrorView};
use crate::models::context::RequestContext;

verus! {

/// The guard as a route declares it.
pub struct AuthenticationGuard;

/// The guard at work on requests.
pub struct AuthenticationMiddleware;

/// What the guard makes of a request.
pub open spec fn authentication_verdict(req: RequestContext) -> Result<(), ErrorView> {
    if req.identity() is Some {
        Ok(())
    } else {
        Err(ErrorView::Unauthorized)
    }
}

impl AuthenticationGuard {
    /// The guard at work on requests.
    pub fn new_transform(&self) -> AuthenticationMiddleware {
        AuthenticationMiddleware
    }
}

impl AuthenticationMiddleware {
    /// Forwards a request that has an identity; any other is unauthorized.
    pub fn call(&self, req: &RequestContext) -> (verdict: Result<(), CustomError>)
        ensures
            answers(verdict, authentication_verdict(*req)),
    {
        if let Some(context) = &req.user {
            if context.user_id.is_some() {
                return Ok(());
            }
        }
        Err(CustomError::Unauthorized)
    }
}

} // verus!
