//! The guards of a route, composed in their fixed order.
//!
//! A request passes the identity resolver, then the guards that its route
//! declares: authentication, organization scope, role policy. The first guard
//! that fails answers the request, and no later one is asked.

use vstd::prelude::*;
use crate::api::middlewares::authentication_guard::{
    authentication_verdict, AuthenticationGuard,
};
use crate::api::middlewares::org_guard::{scope_verdict, segment_view, OrgGuard};
use crate::api::middlewares::role_guard::{policy_verdict, RoleGuard};
use crate::api::middlewares::token_extractor::{resolves, TokenExtractor};
use crate::directory::Directory;
use crate::errors::{answers, CustomError, ErrorView};
use crate::ident::Id;
use crate::models::context::{RequestContext, UserContext};
use crate::models::org::MemberRole;
use crate::services::auth::AuthService;
use crate::services::org::OrgService;
use crate::services::token::TokenService;

verus! {

/// The header that carries the access token, in the bearer scheme.
pub const AUTHORIZATION_HEADER: &'static str = "Authorization";

/// The header that carries the refresh token to the refresh route.
pub const REFRESH_TOKEN_HEADER: &'static str = "RefreshTokenX";

/// The name of the path segment that holds the organization id.
pub const ORG_ID_SEGMENT: &'static str = "org_id";

/// The guards that a group of routes declares.
pub struct RouteGuards {
    /// Whether the caller must be signed in.
    pub authentication: bool,
    /// Whether the route names an organization that the caller must belong
    /// to.
    pub organization: bool,
    /// The roles that the route allows, where it restricts them.
    pub roles: Option<RoleGuard>,
}

impl RouteGuards {
    /// The roles that the routes allow, where they restrict them.
    pub open spec fn allowed(&self) -> Option<Seq<MemberRole>> {
        match self.roles {
            Some(guard) => Some(guard.allowed()),
            None => None,
        }
    }

    /// What the guards make of a request that the identity resolver has
    /// passed, against a store: the request as the handler gets it, or the
    /// error of the first guard that fails.
    pub open spec fn verdict(
        &self,
        directory: &Directory,
        req: RequestContext,
        org_id: Option<Seq<char>>,
    ) -> Result<RequestContext, ErrorView> {
        if self.authentication && authentication_verdict(req) is Err {
            Err(authentication_verdict(req)->Err_0)
        } else {
            let scoped = if self.organization {
                scope_verdict(directory, req, org_id)
            } else {
                Ok(req)
            };
            match scoped {
                Err(error) => Err(error),
                Ok(inner) => match self.allowed() {
                    Some(allowed) => match policy_verdict(allowed, directory, inner) {
                        Ok(_) => Ok(inner),
                        Err(error) => Err(error),
                    },
                    None => Ok(inner),
                },
            }
        }
    }

    /// Routes that anyone may call.
    pub fn public() -> (guards: RouteGuards)
        ensures
            !guards.authentication,
            !guards.organization,
            guards.allowed() is None,
    {
        RouteGuards { authentication: false, organization: false, roles: None }
    }

    /// Routes for a signed-in caller, whatever the organization.
    pub fn authenticated() -> (guards: RouteGuards)
        ensures
            guards.authentication,
            !guards.organization,
            guards.allowed() is None,
    {
        RouteGuards { authentication: true, organization: false, roles: None }
    }

    /// Routes for the members of the organization in the path.
    pub fn organization() -> (guards: RouteGuards)
        ensures
            guards.authentication,
            guards.organization,
            guards.allowed() is None,
    {
        RouteGuards { authentication: true, organization: true, roles: None }
    }

    /// Routes for the owners of the organization in the path: changing a
    /// member's role and removing a member.
    pub fn owner_only() -> (guards: RouteGuards)
        ensures
            guards.authentication,
            guards.organization,
            guards.allowed() == Some(seq![MemberRole::Owner]),
    {
        let mut roles: Vec<MemberRole> = Vec::new();
        roles.push(MemberRole::Owner);
        assert(roles@ =~= seq![MemberRole::Owner]);
        RouteGuards { authentication: true, organization: true, roles: Some(RoleGuard::new(roles)) }
    }

    /// Routes for the admins and owners of the organization in the path:
    /// changing and deleting the organization, inviting, and listing invites
    /// and members.
    pub fn admin_or_owner() -> (guards: RouteGuards)
        ensures
            guards.authentication,
            guards.organization,
            guards.allowed() == Some(seq![MemberRole::Admin, MemberRole::Owner]),
    {
        let mut roles: Vec<MemberRole> = Vec::new();
        roles.push(MemberRole::Admin);
        roles.push(MemberRole::Owner);
        assert(roles@ =~= seq![MemberRole::Admin, MemberRole::Owner]);
        RouteGuards { authentication: true, organization: true, roles: Some(RoleGuard::new(roles)) }
    }

    /// Runs the guards on a request against a store in memory: the request
    /// as the handler gets it, or the error of the first guard that fails.
    pub fn handle(
        &self,
        req: RequestContext,
        org_id: Option<&str>,
        auth_service: &AuthService,
        org_service: &OrgService,
        directory: &Directory,
    ) -> (verdict: Result<RequestContext, CustomError>)
        ensures
            answers(verdict, self.verdict(directory, req, segment_view(org_id))),
    {
        let mut req = req;
        if self.authentication {
            AuthenticationGuard.new_transform().call(&req)?;
        }
        if self.organization {
            OrgGuard.new_transform().handle(&mut req, org_id, auth_service, org_service, directory)?;
        }
        if let Some(guard) = &self.roles {
            guard.new_transform().handle(&req, auth_service, org_service, directory)?;
        }
        Ok(req)
    }
}

impl RouteGuards {
    /// A request with the given identity and nothing else.
    pub open spec fn arriving(identity: Option<Id>) -> RequestContext {
        RequestContext { user: Some(UserContext { user_id: identity }), org: None }
    }

    /// Takes a request from its `Authorization` header to its handler,
    /// against a store in memory: the identity resolver first, then the
    /// guards. The answer is the one of the guards to the request with the
    /// identity that the resolver made out.
    pub fn serve(
        &self,
        state: Option<&TokenService>,
        authorization: Option<&str>,
        org_id: Option<&str>,
        auth_service: &AuthService,
        org_service: &OrgService,
        directory: &Directory,
    ) -> (verdict: Result<RequestContext, CustomError>)
        ensures
            exists|identity: Option<Id>|
                resolves(state, authorization, identity) && answers(
                    verdict,
                    #[trigger] self.verdict(
                        directory,
                        Self::arriving(identity),
                        segment_view(org_id),
                    ),
                ),
    {
        let mut req = RequestContext::new();
        TokenExtractor.new_transform().call(&mut req, state, authorization);
        assert(req == Self::arriving(req.identity()));
        self.handle(req, org_id, auth_service, org_service, directory)
    }
}

/// Anonymous fallback, from header to answer. Where a route asks for a
/// signed-in caller, a request without an `Authorization` header, or with one
/// that is not in the bearer scheme, is unauthorized.
pub proof fn lemma_anonymous_is_turned_down(
    guards: RouteGuards,
    state: Option<&TokenService>,
    authorization: Option<&str>,
    org_id: Option<Seq<char>>,
    directory: &Directory,
    identity: Option<Id>,
)
    requires
        guards.authentication,
        resolves(state, authorization, identity),
        authorization matches Some(header) ==> !"Bearer "@.is_prefix_of(header@),
    ensures
        guards.verdict(directory, RouteGuards::arriving(identity), org_id) == Err::<
            RequestContext,
            ErrorView,
        >(ErrorView::Unauthorized),
{
}

/// Short circuit. Where a route asks for a signed-in caller, a request without
/// an identity is unauthorized whatever the store holds and whatever its path
/// names: no later guard has a say.
pub proof fn lemma_first_failure_answers(
    guards: RouteGuards,
    directory: &Directory,
    req: RequestContext,
    org_id: Option<Seq<char>>,
)
    requires
        guards.authentication,
        req.identity() is None,
    ensures
        guards.verdict(directory, req, org_id) == Err::<RequestContext, ErrorView>(
            ErrorView::Unauthorized,
        ),
{
}

/// A request that reaches its handler has passed every guard that its route
/// declares, and carries what they established: the identity it came with,
/// and the organization where the route is scoped to one.
pub proof fn lemma_handled_has_passed(
    guards: RouteGuards,
    directory: &Directory,
    req: RequestContext,
    org_id: Option<Seq<char>>,
    handled: RequestContext,
)
    requires
        guards.verdict(directory, req, org_id) == Ok::<RequestContext, ErrorView>(handled),
    ensures
        handled.user == req.user,
        guards.authentication ==> handled.identity() is Some,
        guards.organization ==> scope_verdict(directory, req, org_id) == Ok::<
            RequestContext,
            ErrorView,
        >(handled) && handled.organization() is Some,
        !guards.organization ==> handled == req,
        guards.allowed() matches Some(allowed) ==> policy_verdict(allowed, directory, handled)
            is Ok,
{
}

} // verus!
