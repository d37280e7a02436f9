//! The role policy gate: the caller's role in the organization of the request
//! must be one that the route allows.
//!
//! It works in three steps, with a question to the store after the first and
//! after the second: `call` settles whose role in which organization is asked
//! for, `session_resolved` takes the caller's user record, and
//! `role_resolved` takes the role as the store found it for that member.
//! `handle` runs the three against a store in memory.

use vstd::prelude::*;
use crate::directory::{
    first_user, is_active_row, lemma_first_active, lemma_first_user_has_id, Directory,
};
use crate::errors::{answers, CustomError, ErrorView, StoreError};
use crate::ident::Id;
use crate::models::auth::User;
use crate::models::context::RequestContext;
use crate::models::org::MemberRole;
use crate::services::auth::AuthService;
use crate::services::org::OrgService;

verus! {

/// The guard as a route declares it: with the roles that it allows.
pub struct RoleGuard {
    allowed_roles: Vec<MemberRole>,
}

/// The guard at work on requests.
pub struct RoleMiddleware {
    allowed_roles: Vec<MemberRole>,
}

/// An organization and the user whose role in it is asked for.
#[derive(Debug, Clone, Copy, PartialEq, Eq, Structural)]
pub struct RoleRequest {
    pub org_id: Id,
    pub user_id: Id,
}

/// What the first step makes of a request.
pub open spec fn role_request(req: RequestContext) -> Result<RoleRequest, ErrorView> {
    match req.organization() {
        None => Err(ErrorView::Unauthorized),
        Some(org) => match req.identity() {
            None => Err(ErrorView::Unauthorized),
            Some(user_id) => Ok(RoleRequest { org_id: org.id, user_id }),
        },
    }
}

/// What the policy makes of the role that the store found.
pub open spec fn role_verdict(allowed: Seq<MemberRole>, role: Option<MemberRole>) -> Result<
    (),
    ErrorView,
> {
    match role {
        Some(held) => if allowed.contains(held) {
            Ok(())
        } else {
            Err(ErrorView::Forbidden)
        },
        None => Err(ErrorView::Forbidden),
    }
}

/// What the policy makes of the answer of the role lookup: a failure of the
/// lookup is handed on as it came.
pub open spec fn role_ruling(allowed: Seq<MemberRole>, role: Result<Option<MemberRole>, ErrorView>) -> Result<
    (),
    ErrorView,
> {
    match role {
        Ok(held) => role_verdict(allowed, held),
        Err(failure) => Err(failure),
    }
}

/// What the guard makes of a request against a store.
pub open spec fn policy_verdict(allowed: Seq<MemberRole>, directory: &Directory, req: RequestContext) -> Result<
    (),
    ErrorView,
> {
    match role_request(req) {
        Err(error) => Err(error),
        Ok(pending) => match first_user(directory.users@, pending.user_id) {
            None => Err(ErrorView::InvalidToken("User not found"@)),
            Some(user) => role_verdict(allowed, directory.active_role(pending.org_id, user.id)),
        },
    }
}

impl RoleGuard {
    /// The roles that the guard lets pass.
    pub closed spec fn allowed(&self) -> Seq<MemberRole> {
        self.allowed_roles@
    }

    /// A guard that lets the given roles pass, and no other.
    pub fn new(roles: Vec<MemberRole>) -> (guard: RoleGuard)
        ensures
            guard.allowed() == roles@,
    {
        RoleGuard { allowed_roles: roles }
    }

    /// The roles that the guard lets pass, in the order of their declaration.
    pub fn allowed_roles(&self) -> (roles: Vec<MemberRole>)
        ensures
            roles@ == self.allowed(),
    {
        self.new_transform().allowed_roles
    }

    /// The guard at work on requests, with the same roles.
    pub fn new_transform(&self) -> (middleware: RoleMiddleware)
        ensures
            middleware.allowed() == self.allowed(),
    {
        let mut allowed_roles: Vec<MemberRole> = Vec::new();
        let mut i: usize = 0;
        while i < self.allowed_roles.len()
            invariant
                i <= self.allowed_roles@.len(),
                allowed_roles@ == self.allowed_roles@.take(i as int),
            decreases self.allowed_roles@.len() - i,
        {
            allowed_roles.push(self.allowed_roles[i]);
            assert(self.allowed_roles@.take(i + 1) =~= self.allowed_roles@.take(i as int).push(
                self.allowed_roles@[i as int],
            ));
            i += 1;
        }
        assert(self.allowed_roles@.take(i as int) =~= self.allowed_roles@);
        RoleMiddleware { allowed_roles }
    }
}

impl RoleMiddleware {
    /// The roles that the guard lets pass.
    pub closed spec fn allowed(&self) -> Seq<MemberRole> {
        self.allowed_roles@
    }

    /// Whether the guard lets the role pass.
    pub fn allows(&self, role: MemberRole) -> (allowed: bool)
        ensures
            allowed == self.allowed().contains(role),
    {
        let mut i: usize = 0;
        while i < self.allowed_roles.len()
            invariant
                i <= self.allowed_roles@.len(),
                forall|j: int| 0 <= j < i ==> self.allowed_roles@[j] != role,
            decreases self.allowed_roles@.len() - i,
        {
            if self.allowed_roles[i] == role {
                return true;
            }
            i += 1;
        }
        false
    }

    /// First step: reads the organization and the caller off the request.
    pub fn call(&self, req: &RequestContext) -> (pending: Result<RoleRequest, CustomError>)
        ensures
            answers(pending, role_request(*req)),
    {
        let org_id = match &req.org {
            Some(org_context) => match &org_context.org {
                Some(org) => org.id,
                None => { return Err(CustomError::Unauthorized); },
            },
            None => { return Err(CustomError::Unauthorized); },
        };
        let user_id = match &req.user {
            Some(user_context) => match user_context.user_id {
                Some(id) => id,
                None => { return Err(CustomError::Unauthorized); },
            },
            None => { return Err(CustomError::Unauthorized); },
        };
        Ok(RoleRequest { org_id, user_id })
    }

    /// Second step: takes the answer of the session store. A failure is the
    /// caller's failure; a user record names the member to look the role up
    /// for.
    pub fn session_resolved(&self, pending: RoleRequest, session: Result<User, CustomError>) -> (next:
        Result<RoleRequest, CustomError>)
        ensures
            match session {
                Ok(user) => next == Ok::<RoleRequest, CustomError>(
                    RoleRequest { org_id: pending.org_id, user_id: user.id },
                ),
                Err(error) => next == Err::<RoleRequest, CustomError>(error),
            },
    {
        match session {
            Ok(user) => Ok(RoleRequest { org_id: pending.org_id, user_id: user.id }),
            Err(error) => Err(error),
        }
    }

    /// Third step: takes the role as the store found it for the member, or
    /// `None` where the member has no active membership. A caller without an
    /// active membership, or with a role that is not among the allowed ones,
    /// is forbidden; a failure of the lookup is handed on as it came.
    pub fn role_resolved(&self, role: Result<Option<MemberRole>, CustomError>) -> (verdict:
        Result<(), CustomError>)
        ensures
            answers(
                verdict,
                role_ruling(
                    self.allowed(),
                    match role {
                        Ok(held) => Ok(held),
                        Err(failure) => Err(failure@),
                    },
                ),
            ),
            role matches Err(failure) ==> verdict == Err::<(), CustomError>(failure),
    {
        let user_role = match role {
            Ok(Some(held)) => held,
            Ok(None) => { return Err(CustomError::Forbidden); },
            Err(failure) => { return Err(failure); },
        };
        if !self.allows(user_role) {
            return Err(CustomError::Forbidden);
        }
        Ok(())
    }

    /// Runs the guard on a request against a store in memory.
    pub fn handle(
        &self,
        req: &RequestContext,
        auth_service: &AuthService,
        org_service: &OrgService,
        directory: &Directory,
    ) -> (verdict: Result<(), CustomError>)
        ensures
            answers(verdict, policy_verdict(self.allowed(), directory, *req)),
    {
        let pending = self.call(req)?;
        let session = auth_service.get_session(directory.get_user_by_id(pending.user_id));
        let lookup = self.session_resolved(pending, session)?;
        let role = org_service.check_user_role(
            directory.check_user_role(lookup.org_id, lookup.user_id),
        );
        self.role_resolved(role)
    }
}

/// The guard lets a request pass exactly where its caller is an active member
/// of its organization with a role among the allowed ones.
pub proof fn lemma_policy_is_allow_set(
    allowed: Seq<MemberRole>,
    directory: &Directory,
    req: RequestContext,
    pending: RoleRequest,
)
    requires
        role_request(req) == Ok::<RoleRequest, ErrorView>(pending),
        first_user(directory.users@, pending.user_id) is Some,
    ensures
        policy_verdict(allowed, directory, req) is Ok <==> (directory.active_role(
            pending.org_id,
            pending.user_id,
        ) matches Some(role) && allowed.contains(role)),
        policy_verdict(allowed, directory, req) matches Err(error) ==> error
            == ErrorView::Forbidden,
{
    lemma_first_user_has_id(directory.users@, pending.user_id);
}

/// A failure of the store other than a missing row reaches the caller as the
/// database error that it is: only a missing membership, or a role outside
/// the allowed ones, is answered as forbidden.
pub proof fn lemma_role_store_failure_is_handed_on(allowed: Seq<MemberRole>, failure: StoreError)
    ensures
        role_ruling(allowed, OrgService::role_lookup(Err(failure))) == Err::<(), ErrorView>(
            if failure.row_not_found {
                ErrorView::Forbidden
            } else {
                ErrorView::DatabaseError(failure.message@)
            },
        ),
{
}

/// A caller with no active membership in the organization is forbidden: the
/// guard does not say that the organization is not found.
pub proof fn lemma_no_membership_is_forbidden(
    allowed: Seq<MemberRole>,
    directory: &Directory,
    req: RequestContext,
    pending: RoleRequest,
)
    requires
        role_request(req) == Ok::<RoleRequest, ErrorView>(pending),
        first_user(directory.users@, pending.user_id) is Some,
        forall|i: int|
            0 <= i < directory.members@.len() ==> !is_active_row(
                #[trigger] directory.members@[i],
                pending.org_id,
                pending.user_id,
            ),
    ensures
        policy_verdict(allowed, directory, req) == Err::<(), ErrorView>(ErrorView::Forbidden),
{
    lemma_first_user_has_id(directory.users@, pending.user_id);
    lemma_first_active(directory.members@, pending.org_id, pending.user_id);
}

/// The policy is membership in the allow-set and no ranking: a role passes a
/// gate that lists it, and fails one that does not, whatever else is listed.
pub proof fn lemma_roles_are_not_ranked(allowed: Seq<MemberRole>, role: MemberRole)
    ensures
        role_verdict(allowed, Some(role)) is Ok <==> allowed.contains(role),
        role_verdict(seq![MemberRole::Owner], Some(MemberRole::Member)) == Err::<(), ErrorView>(
            ErrorView::Forbidden,
        ),
        role_verdict(seq![MemberRole::Owner], Some(MemberRole::Admin)) == Err::<(), ErrorView>(
            ErrorView::Forbidden,
        ),
        role_verdict(seq![MemberRole::Admin], Some(MemberRole::Owner)) == Err::<(), ErrorView>(
            ErrorView::Forbidden,
        ),
        role_verdict(seq![MemberRole::Admin, MemberRole::Owner], Some(MemberRole::Admin)) is Ok,
        role_verdict(seq![MemberRole::Admin, MemberRole::Owner], Some(MemberRole::Owner)) is Ok,
{
    let both = seq![MemberRole::Admin, MemberRole::Owner];
    assert(both[0] == MemberRole::Admin);
    assert(both[1] == MemberRole::Owner);
    let owner = seq![MemberRole::Owner];
    assert(owner[0] == MemberRole::Owner);
    let admin = seq![MemberRole::Admin];
    assert(admin[0] == MemberRole::Admin);
}

} // verus!
