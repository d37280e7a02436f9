//! What a request carries from one stage of its pipeline to the next.

use vstd::prelude::*;
use crate::ident::Id;
use crate::models::org::Org;

verus! {

/// The identity of the caller: empty until a valid credential is seen.
#[derive(Debug, Clone, PartialEq, Eq)]
pub struct UserContext {
    pub user_id: Option<Id>,
}

/// The organization that the request is scoped to.
#[derive(Debug, Clone, PartialEq, Eq)]
pub struct OrgContext {
    pub org: Option<Org>,
}

/// The context of one request, threaded through its pipeline. An entry is
/// absent until the stage that owns it has run.
#[derive(Debug, Clone, PartialEq, Eq)]
pub struct RequestContext {
    pub user: Option<UserContext>,
    pub org: Option<OrgContext>,
}

impl Default for UserContext {
    fn default() -> (context: UserContext)
        ensures
            context.user_id is None,
    {
        UserContext { user_id: None }
    }
}

impl Default for OrgContext {
    fn default() -> (context: OrgContext)
        ensures
            context.org is None,
    {
        OrgContext { org: None }
    }
}

impl RequestContext {
    /// The context of a request that no stage has seen yet.
    pub fn new() -> (context: RequestContext)
        ensures
            context.user is None,
            context.org is None,
    {
        RequestContext { user: None, org: None }
    }

    /// The caller's user id, where the request has an identity.
    pub open spec fn identity(&self) -> Option<Id> {
        match self.user {
            Some(user) => user.user_id,
            None => None,
        }
    }

    /// The organization in scope, where the request has one.
    pub open spec fn organization(&self) -> Option<Org> {
        match self.org {
            Some(scope) => scope.org,
            None => None,
        }
    }
}

} // verus!
