//! The organization scope resolver: the guard of routes that name an
//! organization in their path.
//!
//! It works in three steps, with a question to the store after the first and
//! after the second: `call` settles which organization is asked for and by
//! whom, `session_resolved` takes the caller's user record, and
//! `org_resolved` takes the organization as the store found it for that
//! member, and attaches it to the request. `handle` runs the three against a
//! store in memory.

use vstd::prelude::*;
use vstd::string::*;
use crate::directory::{
    first_org, first_user, is_active_row, lemma_first_active, lemma_first_org_has_id,
    lemma_first_user_has_id, Directory,
};
use crate::errors::{answers, CustomError, ErrorView, StoreError};
use crate::ident::{uuid_parse_str, Id};
use crate::models::auth::User;
use crate::models::context::{OrgContext, RequestContext};
use crate::models::org::{Org, OrgMember};
use crate::services::auth::AuthService;
use crate::services::org::OrgService;

verus! {

/// The guard as a route declares it.
#[derive(Debug, Clone, Copy)]
pub struct OrgGuard;

/// The guard at work on requests.
pub struct OrgMiddleware;

/// An organization and the user who asks for it.
#[derive(Debug, Clone, Copy, PartialEq, Eq, Structural)]
pub struct OrgScopeRequest {
    pub org_id: Id,
    pub user_id: Id,
}

/// What the first step makes of a request and of the organization segment of
/// its path.
pub open spec fn scope_request(req: RequestContext, org_id: Option<Seq<char>>) -> Result<
    OrgScopeRequest,
    ErrorView,
> {
    match req.identity() {
        None => Err(ErrorView::Unauthorized),
        Some(user_id) => match org_id {
            None => Err(ErrorView::NotFound("Organization ID not found"@)),
            Some(segment) => match Id::parsed(segment) {
                None => Err(ErrorView::BadRequest),
                Some(org_id) => Ok(OrgScopeRequest { org_id, user_id }),
            },
        },
    }
}

/// What the resolver answers where the lookup of the organization failed: an
/// organization that was not found for the member is not found, and any other
/// failure is handed on as it came.
pub open spec fn scope_failure(error: ErrorView) -> ErrorView {
    if error is NotFound {
        ErrorView::NotFound("Organization not found"@)
    } else {
        error
    }
}

/// The request once the organization is attached to it.
pub open spec fn scoped(req: RequestContext, org: Org) -> RequestContext {
    RequestContext { user: req.user, org: Some(OrgContext { org: Some(org) }) }
}

/// What the resolver makes of a request against a store.
pub open spec fn scope_verdict(
    directory: &Directory,
    req: RequestContext,
    org_id: Option<Seq<char>>,
) -> Result<RequestContext, ErrorView> {
    match scope_request(req, org_id) {
        Err(error) => Err(error),
        Ok(pending) => match first_user(directory.users@, pending.user_id) {
            None => Err(ErrorView::InvalidToken("User not found"@)),
            Some(user) => match directory.visible_org(pending.org_id, user.id) {
                None => Err(ErrorView::NotFound("Organization not found"@)),
                Some(org) => Ok(scoped(req, org)),
            },
        },
    }
}

pub open spec fn segment_view(segment: Option<&str>) -> Option<Seq<char>> {
    match segment {
        Some(text) => Some(text@),
        None => None,
    }
}

impl OrgGuard {
    /// The guard at work on requests.
    pub fn new_transform(&self) -> OrgMiddleware {
        OrgMiddleware
    }
}

impl OrgMiddleware {
    /// First step: reads the caller off the request and the organization id
    /// off the path. A request without an identity is unauthorized, whatever
    /// its path holds. `org_id` is the path segment of that name, if the route
    /// has one.
    pub fn call(&self, req: &RequestContext, org_id: Option<&str>) -> (pending: Result<
        OrgScopeRequest,
        CustomError,
    >)
        ensures
            answers(pending, scope_request(*req, segment_view(org_id))),
    {
        let user_id = match &req.user {
            Some(context) => match context.user_id {
                Some(id) => id,
                None => { return Err(CustomError::Unauthorized); },
            },
            None => { return Err(CustomError::Unauthorized); },
        };
        let org_id = match org_id {
            Some(segment) => segment,
            None => {
                return Err(CustomError::NotFound("Organization ID not found".to_string()));
            },
        };
        let org_id = match uuid_parse_str(org_id) {
            Some(id) => id,
            None => { return Err(CustomError::BadRequest); },
        };
        Ok(OrgScopeRequest { org_id, user_id })
    }

    /// Second step: takes the answer of the session store. A failure is the
    /// caller's failure; a user record names the member to load the
    /// organization for.
    pub fn session_resolved(&self, pending: OrgScopeRequest, session: Result<User, CustomError>) -> (next:
        Result<OrgScopeRequest, CustomError>)
        ensures
            match session {
                Ok(user) => next == Ok::<OrgScopeRequest, CustomError>(
                    OrgScopeRequest { org_id: pending.org_id, user_id: user.id },
                ),
                Err(error) => next == Err::<OrgScopeRequest, CustomError>(error),
            },
    {
        match session {
            Ok(user) => Ok(OrgScopeRequest { org_id: pending.org_id, user_id: user.id }),
            Err(error) => Err(error),
        }
    }

    /// Third step: takes the organization as the store found it for the
    /// member, and attaches it to the request. An organization that was not
    /// found for the member is not found, whether it is missing or the caller
    /// is no active member of it; any other failure is handed on as it came.
    pub fn org_resolved(&self, req: &mut RequestContext, org: Result<Org, CustomError>) -> (verdict:
        Result<(), CustomError>)
        ensures
            match org {
                Ok(found) => verdict is Ok && *final(req) == scoped(*old(req), found),
                Err(failure) => *final(req) == *old(req) && (verdict matches Err(error) && error@
                    == scope_failure(failure@) && (!(failure is NotFound) ==> error == failure)),
            },
    {
        match org {
            Ok(found) => {
                req.org = Some(OrgContext { org: Some(found) });
                Ok(())
            },
            Err(CustomError::NotFound(_)) => Err(
                CustomError::NotFound("Organization not found".to_string()),
            ),
            Err(failure) => Err(failure),
        }
    }

    /// Runs the guard on a request against a store in memory.
    pub fn handle(
        &self,
        req: &mut RequestContext,
        org_id: Option<&str>,
        auth_service: &AuthService,
        org_service: &OrgService,
        directory: &Directory,
    ) -> (verdict: Result<(), CustomError>)
        ensures
            match verdict {
                Ok(_) => scope_verdict(directory, *old(req), segment_view(org_id)) == Ok::<
                    RequestContext,
                    ErrorView,
                >(*final(req)),
                Err(error) => *final(req) == *old(req) && scope_verdict(
                    directory,
                    *old(req),
                    segment_view(org_id),
                ) == Err::<RequestContext, ErrorView>(error@),
            },
    {
        let pending = self.call(req, org_id)?;
        let session = auth_service.get_session(directory.get_user_by_id(pending.user_id));
        let lookup = self.session_resolved(pending, session)?;
        let org = org_service.get_org(
            lookup.org_id,
            directory.find_by_id(lookup.org_id, lookup.user_id),
        );
        self.org_resolved(req, org)
    }
}

/// A caller who is not an active member of the organization that the path
/// names is told that the organization is not found, whether or not the store
/// holds such an organization.
pub proof fn lemma_scope_hides_foreign_org(
    directory: &Directory,
    req: RequestContext,
    org_id: Option<Seq<char>>,
    pending: OrgScopeRequest,
)
    requires
        scope_request(req, org_id) == Ok::<OrgScopeRequest, ErrorView>(pending),
        first_user(directory.users@, pending.user_id) is Some,
        forall|i: int|
            0 <= i < directory.members@.len() ==> !is_active_row(
                #[trigger] directory.members@[i],
                pending.org_id,
                pending.user_id,
            ),
    ensures
        scope_verdict(directory, req, org_id) == Err::<RequestContext, ErrorView>(
            ErrorView::NotFound("Organization not found"@),
        ),
{
    lemma_first_user_has_id(directory.users@, pending.user_id);
    lemma_first_active(directory.members@, pending.org_id, pending.user_id);
}

/// For a caller who is an active member of the organization that the path
/// names, the request goes on with the organization as the store holds it, and
/// with its identity as it was.
pub proof fn lemma_scope_attaches_org(
    directory: &Directory,
    req: RequestContext,
    org_id: Option<Seq<char>>,
    pending: OrgScopeRequest,
    org: Org,
    row: OrgMember,
)
    requires
        scope_request(req, org_id) == Ok::<OrgScopeRequest, ErrorView>(pending),
        first_user(directory.users@, pending.user_id) is Some,
        directory.members@.contains(row),
        is_active_row(row, pending.org_id, pending.user_id),
        first_org(directory.orgs@, pending.org_id) == Some(org),
    ensures
        scope_verdict(directory, req, org_id) == Ok::<RequestContext, ErrorView>(scoped(req, org)),
        scoped(req, org).organization() == Some(org),
        scoped(req, org).identity() == req.identity(),
        org.id == pending.org_id,
{
    lemma_first_user_has_id(directory.users@, pending.user_id);
    lemma_first_org_has_id(directory.orgs@, pending.org_id);
    lemma_first_active(directory.members@, pending.org_id, pending.user_id);
}

/// A failure of the store other than a missing row reaches the caller as the
/// database error that it is: only a missing organization or membership is
/// answered as not found.
pub proof fn lemma_store_failure_is_handed_on(id: Id, failure: StoreError)
    ensures
        scope_failure(OrgService::org_lookup_error(id, failure)) == (if failure.row_not_found {
            ErrorView::NotFound("Organization not found"@)
        } else {
            ErrorView::DatabaseError(failure.message@)
        }),
{
}

/// A request without an identity never gets past the resolver: it is
/// unauthorized before its path is looked at.
pub proof fn lemma_scope_needs_identity(
    directory: &Directory,
    req: RequestContext,
    org_id: Option<Seq<char>>,
)
    requires
        req.identity() is None,
    ensures
        scope_request(req, org_id) == Err::<OrgScopeRequest, ErrorView>(ErrorView::Unauthorized),
        scope_verdict(directory, req, org_id) == Err::<RequestContext, ErrorView>(
            ErrorView::Unauthorized,
        ),
{
}

} // verus!
