//! The identity resolver: the first stage of every request.
//!
//! It reads the `Authorization` header and, where the header holds a valid
//! access token in the bearer scheme, records the token's user as the
//! identity of the request. It never turns a request down: whatever is wrong
//! with the header, the request goes on without an identity.

use vstd::prelude::*;
use vstd::string::*;
use crate::api::middlewares::authentication_guard::authentication_verdict;
use crate::errors::{CustomError, ErrorView};
use crate::ident::Id;
use crate::models::context::{RequestContext, UserContext};
use crate::services::token::{access_verdict, subject_verdict, TokenService};
use crate::text::{trim, trimmed};
use crate::utils::bearer_token::extract_bearer_token;

verus! {

/// The resolver as the application installs it.
pub struct TokenExtractor;

/// The resolver at work on requests.
pub struct TokenExtractorMiddleware;

/// The credential of a header value in the bearer scheme: what follows the
/// scheme, without white space at either end.
pub open spec fn bearer_credential(header: Seq<char>) -> Seq<char> {
    trimmed(header.skip(7))
}

/// Whether a token is an access token of the service whose subject is the
/// user.
pub open spec fn names_user(service: &TokenService, token: Seq<char>, user_id: Id) -> bool {
    match service.sealed(token) {
        Some(claims) => access_verdict(Some(claims)) is Ok && subject_verdict(claims) == Ok::<
            Id,
            ErrorView,
        >(user_id),
        None => false,
    }
}

/// Whether `identity` may be what the resolver makes of a header. An identity
/// comes only from a header in the bearer scheme whose credential names the
/// user; no identity may come of any header.
pub open spec fn resolves(
    state: Option<&TokenService>,
    authorization: Option<&str>,
    identity: Option<Id>,
) -> bool {
    match identity {
        Some(user_id) => {
            &&& state matches Some(service)
            &&& authorization matches Some(header)
            &&& "Bearer "@.is_prefix_of(header@)
            &&& names_user(service, bearer_credential(header@), user_id)
        },
        None => true,
    }
}

/// The identity that an answer of the token service gives a request.
pub fn identity_of(outcome: Result<Id, CustomError>) -> (context: UserContext)
    ensures
        context.user_id == match outcome {
            Ok(user_id) => Some(user_id),
            Err(_) => None,
        },
{
    let mut context = UserContext::default();
    if let Ok(user_id) = outcome {
        context.user_id = Some(user_id);
    }
    context
}

impl TokenExtractor {
    /// The resolver at work on requests.
    pub fn new_transform(&self) -> TokenExtractorMiddleware {
        TokenExtractorMiddleware
    }
}

impl TokenExtractorMiddleware {
    /// Resolves the identity of a request from its `Authorization` header, if
    /// it has one, and records it in the context. `state` is the token service
    /// of the application, if one is installed.
    pub fn call(
        &self,
        req: &mut RequestContext,
        state: Option<&TokenService>,
        authorization: Option<&str>,
    )
        ensures
            final(req).user matches Some(context) && resolves(
                state,
                authorization,
                context.user_id,
            ),
            final(req).org == old(req).org,
    {
        let mut context = UserContext::default();
        if let Some(auth_str) = authorization {
            if let Ok(credential) = extract_bearer_token(auth_str) {
                let token = trim(credential);
                if let Some(token_service) = state {
                    context = identity_of(token_service.extract_user_id(token));
                }
            }
        }
        req.user = Some(context);
    }
}

/// Anonymous fallback. A request without an `Authorization` header, or with
/// one that is not in the bearer scheme, goes on without an identity, and the
/// authentication gate turns it down as unauthorized.
pub proof fn lemma_anonymous_is_unauthorized(
    state: Option<&TokenService>,
    authorization: Option<&str>,
    req: RequestContext,
)
    requires
        req.user matches Some(context) && resolves(state, authorization, context.user_id),
        authorization matches Some(header) ==> !"Bearer "@.is_prefix_of(header@),
    ensures
        req.identity() is None,
        authentication_verdict(req) == Err::<(), ErrorView>(ErrorView::Unauthorized),
{
}

/// A request gets an identity only from a header in the bearer scheme whose
/// credential the token service sealed as an access token for that user.
pub proof fn lemma_identity_is_vouched_for(
    state: Option<&TokenService>,
    authorization: Option<&str>,
    req: RequestContext,
    user_id: Id,
)
    requires
        req.user matches Some(context) && resolves(state, authorization, context.user_id),
        req.identity() == Some(user_id),
    ensures
        state is Some,
        authorization is Some,
        "Bearer "@.is_prefix_of(authorization->Some_0@),
        state->Some_0.sealed(bearer_credential(authorization->Some_0@)) is Some,
        state->Some_0.sealed(bearer_credential(authorization->Some_0@))->Some_0.token_type == Some(
            "access"@,
        ),
        state->Some_0.sealed(bearer_credential(authorization->Some_0@))->Some_0.subject is Some,
        Id::parsed(
            state->Some_0.sealed(bearer_credential(authorization->Some_0@))->Some_0.subject->Some_0,
        ) == Some(user_id),
{
}

} // verus!
