use api::api::middlewares::authentication_guard::AuthenticationGuard;
use api::api::middlewares::org_guard::{OrgGuard, OrgScopeRequest};
use api::api::middlewares::role_guard::{RoleGuard, RoleRequest};
use api::api::middlewares::token_extractor::{identity_of, TokenExtractor};
use api::api::pipeline::RouteGuards;
use api::clock::Timestamp;
use api::directory::Directory;
use api::errors::{CustomError, StoreError};
use api::ident::Id;
use api::models::auth::User;
use api::models::context::{OrgContext, RequestContext, UserContext};
use api::models::org::{MemberRole, MemberStatus, Org, OrgMember};
use api::services::auth::AuthService;
use api::services::org::OrgService;
use api::services::token::TokenService;
use api::utils::bearer_token::extract_bearer_token;
use api::utils::context::{get_context_org, get_context_user_id};

const ORG_TEXT: &str = "11111111-2222-3333-4444-555555555555";
const ORG: u128 = 0x11111111_2222_3333_4444_555555555555;
const OTHER_ORG: u128 = 0x99999999_2222_3333_4444_555555555555;

fn at(seconds: i128) -> Timestamp {
    Timestamp { unix_nanos: seconds * 1_000_000_000 }
}

fn user(id: u128, name: &str) -> User {
    User {
        id: Id::from_u128(id),
        email: format!("{}@example.org", name),
        username: name.to_string(),
        password_hash: None,
        is_email_verified: true,
        email_verification_token: None,
        email_verification_expires_at: None,
        created_at: at(1),
        updated_at: at(2),
        last_login_at: None,
        avatar_url: None,
        github_id: None,
        github_url: None,
    }
}

fn org(id: u128, name: &str) -> Org {
    Org {
        id: Id::from_u128(id),
        name: name.to_string(),
        slug: format!("{}-123", name),
        custom_id: "ACM".to_string(),
        created_at: at(10),
        updated_at: at(20),
        logo_url: Some("https://example.org/logo.png".to_string()),
    }
}

fn member(org_id: u128, user_id: u128, role: MemberRole, status: MemberStatus) -> OrgMember {
    OrgMember {
        id: Id::from_u128(org_id ^ user_id),
        org_id: Id::from_u128(org_id),
        user_id: Id::from_u128(user_id),
        role,
        status,
        joined_at: at(30),
        invited_by: Id::from_u128(1),
        created_at: at(30),
        updated_at: at(30),
    }
}

/// Users 1 to 6. In the organization: 1 owns, 2 administers, 3 is a member,
/// 4 is invited, 5 is disabled, 6 has no row. User 7 is not in the store.
fn directory() -> Directory {
    Directory {
        users: vec![
            user(1, "olga"),
            user(2, "adam"),
            user(3, "mia"),
            user(4, "ivan"),
            user(5, "dora"),
            user(6, "nina"),
        ],
        orgs: vec![org(ORG, "acme"), org(OTHER_ORG, "other")],
        members: vec![
            member(ORG, 1, MemberRole::Owner, MemberStatus::Active),
            member(ORG, 2, MemberRole::Admin, MemberStatus::Active),
            member(ORG, 3, MemberRole::Member, MemberStatus::Active),
            member(ORG, 4, MemberRole::Member, MemberStatus::Invited),
            member(ORG, 5, MemberRole::Owner, MemberStatus::Disabled),
            member(OTHER_ORG, 6, MemberRole::Owner, MemberStatus::Active),
        ],
    }
}

fn tokens() -> TokenService {
    TokenService::new().unwrap()
}

fn auth() -> AuthService {
    AuthService::new(tokens())
}

fn signed_in(id: u128) -> RequestContext {
    RequestContext { user: Some(UserContext { user_id: Some(Id::from_u128(id)) }), org: None }
}

fn anonymous() -> RequestContext {
    RequestContext { user: Some(UserContext { user_id: None }), org: None }
}

fn scoped(id: u128, org_id: u128) -> RequestContext {
    RequestContext {
        user: Some(UserContext { user_id: Some(Id::from_u128(id)) }),
        org: Some(OrgContext { org: Some(org(org_id, "acme")) }),
    }
}

fn resolve(authorization: Option<&str>) -> RequestContext {
    let mut req = RequestContext::new();
    let service = tokens();
    TokenExtractor.new_transform().call(&mut req, Some(&service), authorization);
    req
}

fn not_found(what: &str) -> CustomError {
    CustomError::NotFound(what.to_string())
}

// --- identity resolver ---

#[test]
fn new_request_has_no_context() {
    let req = RequestContext::new();
    assert_eq!(req.user, None);
    assert_eq!(req.org, None);
    assert_eq!(UserContext::default(), UserContext { user_id: None });
    assert_eq!(OrgContext::default(), OrgContext { org: None });
}

#[test]
fn missing_header_is_anonymous_and_unauthorized() {
    let req = resolve(None);
    assert_eq!(req.user, Some(UserContext { user_id: None }));
    assert_eq!(req.org, None);
    assert_eq!(
        AuthenticationGuard.new_transform().call(&req),
        Err(CustomError::Unauthorized)
    );
}

#[test]
fn malformed_scheme_is_anonymous_and_unauthorized() {
    let (access, _, _, _) = tokens().generate_token_pair(Id::from_u128(1)).unwrap();
    let headers = [
        "Token xyz".to_string(),
        format!("Token {}", access),
        format!("bearer {}", access),
        format!("Bearer{}", access),
        format!(" Bearer {}", access),
        access.clone(),
        String::new(),
        "Bearer".to_string(),
    ];
    for header in headers.iter() {
        let req = resolve(Some(header));
        assert_eq!(req.user, Some(UserContext { user_id: None }));
        assert_eq!(
            AuthenticationGuard.new_transform().call(&req),
            Err(CustomError::Unauthorized)
        );
    }
}

#[test]
fn invalid_credential_is_anonymous() {
    let service = tokens();
    let (_, refresh, _, _) = service.generate_token_pair(Id::from_u128(1)).unwrap();
    let (expired, _, _, _) = service.generate_token_pair_at(Id::from_u128(1), at(1_000_000_000)).unwrap();
    let (foreign, _, _, _) =
        TokenService::with_key([1u8; 32]).generate_token_pair(Id::from_u128(1)).unwrap();
    for credential in ["", "garbage", refresh.as_str(), expired.as_str(), foreign.as_str()] {
        let req = resolve(Some(&format!("Bearer {}", credential)));
        assert_eq!(req.user, Some(UserContext { user_id: None }));
    }
}

#[test]
fn valid_credential_gives_the_identity() {
    let (access, _, _, _) = tokens().generate_token_pair(Id::from_u128(3)).unwrap();
    let req = resolve(Some(&format!("Bearer {}", access)));
    assert_eq!(req.user, Some(UserContext { user_id: Some(Id::from_u128(3)) }));
    assert_eq!(req.org, None);
    assert_eq!(AuthenticationGuard.new_transform().call(&req), Ok(()));
    assert_eq!(get_context_user_id(&req), Ok(Id::from_u128(3)));
}

#[test]
fn credential_is_what_follows_the_scheme_trimmed() {
    let (access, _, _, _) = tokens().generate_token_pair(Id::from_u128(3)).unwrap();
    let expected = Some(UserContext { user_id: Some(Id::from_u128(3)) });
    assert_eq!(resolve(Some(&format!("Bearer {}", access))).user, expected);
    assert_eq!(resolve(Some(&format!("Bearer   {}  ", access))).user, expected);
    assert_eq!(resolve(Some(&format!("Bearer \t{}\n", access))).user, expected);
    assert_eq!(resolve(Some(&format!("Bearer \u{a0}{}\u{2003}", access))).user, expected);
}

#[test]
fn only_one_scheme_prefix_is_taken_off() {
    let (access, _, _, _) = tokens().generate_token_pair(Id::from_u128(3)).unwrap();
    let anonymous = Some(UserContext { user_id: None });
    // What is left after the one prefix begins with `Bearer `, and is no token.
    assert_eq!(resolve(Some(&format!("Bearer Bearer {}", access))).user, anonymous);
    assert_eq!(resolve(Some(&format!("Bearer Bearer Bearer {}", access))).user, anonymous);
    assert_eq!(resolve(Some(&format!("Bearer  Bearer {}", access))).user, anonymous);
    assert_eq!(
        AuthenticationGuard.new_transform().call(&resolve(Some(&format!("Bearer Bearer {}", access)))),
        Err(CustomError::Unauthorized)
    );
}

#[test]
fn resolver_without_token_service_is_anonymous() {
    let (access, _, _, _) = tokens().generate_token_pair(Id::from_u128(3)).unwrap();
    let mut req = RequestContext::new();
    TokenExtractor.new_transform().call(&mut req, None, Some(&format!("Bearer {}", access)));
    assert_eq!(req.user, Some(UserContext { user_id: None }));
}

#[test]
fn resolver_keeps_the_organization_entry() {
    let mut req = scoped(1, ORG);
    let service = tokens();
    TokenExtractor.new_transform().call(&mut req, Some(&service), None);
    assert_eq!(req.user, Some(UserContext { user_id: None }));
    assert_eq!(req.org, Some(OrgContext { org: Some(org(ORG, "acme")) }));
}

#[test]
fn identity_of_swallows_every_error() {
    assert_eq!(identity_of(Ok(Id::from_u128(9))).user_id, Some(Id::from_u128(9)));
    assert_eq!(identity_of(Err(CustomError::InvalidToken("Invalid token".to_string()))).user_id, None);
    assert_eq!(identity_of(Err(CustomError::InternalServerError)).user_id, None);
}

// --- bearer scheme, context readers ---

#[test]
fn bearer_token_is_what_follows_the_scheme() {
    assert_eq!(extract_bearer_token("Bearer abc"), Ok("abc"));
    assert_eq!(extract_bearer_token("Bearer "), Ok(""));
    assert_eq!(extract_bearer_token("Bearer  abc "), Ok(" abc "));
    assert_eq!(extract_bearer_token("Bearer Bearer x"), Ok("Bearer x"));
    assert_eq!(extract_bearer_token("Bearer \u{e9}\u{4e2d}"), Ok("\u{e9}\u{4e2d}"));
    for header in ["", "Bearer", "bearer abc", "Token xyz", " Bearer abc", "Bearerabc"] {
        assert_eq!(extract_bearer_token(header), Err(CustomError::BadRequest));
    }
}

#[test]
fn context_readers_need_their_entries() {
    assert_eq!(get_context_user_id(&RequestContext::new()), Err(CustomError::Unauthorized));
    assert_eq!(get_context_user_id(&anonymous()), Err(CustomError::Unauthorized));
    assert_eq!(get_context_user_id(&signed_in(4)), Ok(Id::from_u128(4)));
    assert_eq!(get_context_org(&signed_in(4)), Err(CustomError::Unauthorized));
    let empty = RequestContext { user: None, org: Some(OrgContext { org: None }) };
    assert_eq!(get_context_org(&empty), Err(CustomError::Unauthorized));
    assert_eq!(get_context_org(&scoped(4, ORG)), Ok(org(ORG, "acme")));
}

// --- authentication ---

#[test]
fn authentication_needs_an_identity() {
    let gate = AuthenticationGuard.new_transform();
    assert_eq!(gate.call(&RequestContext::new()), Err(CustomError::Unauthorized));
    assert_eq!(gate.call(&anonymous()), Err(CustomError::Unauthorized));
    assert_eq!(gate.call(&signed_in(1)), Ok(()));
    assert_eq!(gate.call(&signed_in(7)), Ok(()));
}

// --- organization scope ---

fn scope(req: &mut RequestContext, segment: Option<&str>) -> Result<(), CustomError> {
    OrgGuard.new_transform().handle(req, segment, &auth(), &OrgService::new(), &directory())
}

#[test]
fn active_member_gets_the_organization() {
    for id in [1u128, 2, 3] {
        let mut req = signed_in(id);
        assert_eq!(scope(&mut req, Some(ORG_TEXT)), Ok(()));
        assert_eq!(req.org, Some(OrgContext { org: Some(org(ORG, "acme")) }));
        assert_eq!(req.user, signed_in(id).user);
        assert_eq!(get_context_org(&req), Ok(org(ORG, "acme")));
    }
}

#[test]
fn organization_context_holds_the_current_attributes() {
    let mut store = directory();
    store.orgs[0].name = "renamed".to_string();
    store.orgs[0].logo_url = None;
    store.orgs[0].updated_at = at(99);
    let mut req = signed_in(1);
    let verdict =
        OrgGuard.new_transform().handle(&mut req, Some(ORG_TEXT), &auth(), &OrgService::new(), &store);
    assert_eq!(verdict, Ok(()));
    let attached = get_context_org(&req).unwrap();
    assert_eq!(attached.name, "renamed");
    assert_eq!(attached.logo_url, None);
    assert_eq!(attached.updated_at, at(99));
    assert_eq!(attached.slug, "acme-123");
    assert_eq!(attached.created_at, at(10));
}

#[test]
fn without_active_membership_the_organization_is_not_found() {
    // Invited, disabled, member of another organization only.
    for id in [4u128, 5, 6] {
        let mut req = signed_in(id);
        assert_eq!(scope(&mut req, Some(ORG_TEXT)), Err(not_found("Organization not found")));
        assert_eq!(req, signed_in(id));
    }
}

#[test]
fn an_organization_that_does_not_exist_is_not_found_alike() {
    let missing = "00000000-0000-0000-0000-00000000abcd";
    for id in [1u128, 4, 6] {
        let mut req = signed_in(id);
        assert_eq!(scope(&mut req, Some(missing)), Err(not_found("Organization not found")));
        assert_eq!(req.org, None);
    }
}

#[test]
fn membership_without_its_organization_is_not_found() {
    let mut store = directory();
    store.orgs.clear();
    let mut req = signed_in(1);
    let verdict =
        OrgGuard.new_transform().handle(&mut req, Some(ORG_TEXT), &auth(), &OrgService::new(), &store);
    assert_eq!(verdict, Err(not_found("Organization not found")));
}

#[test]
fn scope_fails_in_the_order_of_its_steps() {
    let gate = OrgGuard.new_transform();
    // No identity entry at all: unauthorized before the path is looked at.
    assert_eq!(gate.call(&RequestContext::new(), None), Err(CustomError::Unauthorized));
    assert_eq!(gate.call(&RequestContext::new(), Some("junk")), Err(CustomError::Unauthorized));
    // Empty identity: unauthorized, whatever the path holds.
    assert_eq!(gate.call(&anonymous(), None), Err(CustomError::Unauthorized));
    assert_eq!(gate.call(&anonymous(), Some("junk")), Err(CustomError::Unauthorized));
    assert_eq!(gate.call(&anonymous(), Some("not-a-uuid")), Err(CustomError::Unauthorized));
    assert_eq!(gate.call(&anonymous(), Some(ORG_TEXT)), Err(CustomError::Unauthorized));
    // No segment of that name.
    assert_eq!(gate.call(&signed_in(1), None), Err(not_found("Organization ID not found")));
    // Malformed segment.
    assert_eq!(gate.call(&signed_in(1), Some("junk")), Err(CustomError::BadRequest));
    assert_eq!(gate.call(&signed_in(1), Some("")), Err(CustomError::BadRequest));
    assert_eq!(gate.call(&signed_in(1), Some("1111-2222")), Err(CustomError::BadRequest));
    assert_eq!(
        gate.call(&signed_in(1), Some(ORG_TEXT)),
        Ok(OrgScopeRequest { org_id: Id::from_u128(ORG), user_id: Id::from_u128(1) })
    );
}

#[test]
fn stale_session_fails_the_scope_as_the_store_says() {
    let mut req = signed_in(7);
    assert_eq!(
        scope(&mut req, Some(ORG_TEXT)),
        Err(CustomError::InvalidToken("User not found".to_string()))
    );
    let gate = OrgGuard.new_transform();
    let pending = OrgScopeRequest { org_id: Id::from_u128(ORG), user_id: Id::from_u128(7) };
    assert_eq!(
        gate.session_resolved(pending, Err(CustomError::DatabaseError("down".to_string()))),
        Err(CustomError::DatabaseError("down".to_string()))
    );
    assert_eq!(
        gate.session_resolved(pending, Ok(user(8, "kim"))),
        Ok(OrgScopeRequest { org_id: Id::from_u128(ORG), user_id: Id::from_u128(8) })
    );
}

#[test]
fn only_a_missing_organization_is_not_found() {
    let gate = OrgGuard.new_transform();
    let mut req = signed_in(1);
    assert_eq!(
        gate.org_resolved(&mut req, Err(not_found("Org with id: x not found"))),
        Err(not_found("Organization not found"))
    );
    assert_eq!(req, signed_in(1));
    // Any other failure reaches the caller as it came.
    for failure in [
        CustomError::DatabaseError("down".to_string()),
        CustomError::InternalServerError,
        CustomError::Forbidden,
    ] {
        let mut req = signed_in(1);
        assert_eq!(gate.org_resolved(&mut req, Err(failure.clone())), Err(failure));
        assert_eq!(req, signed_in(1));
    }
    // From the store's answer to the caller's.
    let orgs = OrgService::new();
    let broken = StoreError { row_not_found: false, message: "pool timed out".to_string() };
    let missing = StoreError { row_not_found: true, message: "no rows".to_string() };
    let mut req = signed_in(1);
    assert_eq!(
        gate.org_resolved(&mut req, orgs.get_org(Id::from_u128(ORG), Err(broken))),
        Err(CustomError::DatabaseError("pool timed out".to_string()))
    );
    assert_eq!(
        gate.org_resolved(&mut req, orgs.get_org(Id::from_u128(ORG), Err(missing))),
        Err(not_found("Organization not found"))
    );
    let mut req = signed_in(1);
    assert_eq!(gate.org_resolved(&mut req, Ok(org(ORG, "acme"))), Ok(()));
    assert_eq!(req, scoped(1, ORG));
}

// --- role policy ---

fn policy(roles: Vec<MemberRole>, req: &RequestContext) -> Result<(), CustomError> {
    RoleGuard::new(roles).new_transform().handle(req, &auth(), &OrgService::new(), &directory())
}

#[test]
fn member_fails_an_owner_only_route() {
    assert_eq!(policy(vec![MemberRole::Owner], &scoped(3, ORG)), Err(CustomError::Forbidden));
    assert_eq!(policy(vec![MemberRole::Owner], &scoped(2, ORG)), Err(CustomError::Forbidden));
    assert_eq!(policy(vec![MemberRole::Owner], &scoped(1, ORG)), Ok(()));
}

#[test]
fn admin_passes_an_admin_or_owner_route() {
    let roles = vec![MemberRole::Admin, MemberRole::Owner];
    assert_eq!(policy(roles.clone(), &scoped(2, ORG)), Ok(()));
    assert_eq!(policy(roles.clone(), &scoped(1, ORG)), Ok(()));
    assert_eq!(policy(roles, &scoped(3, ORG)), Err(CustomError::Forbidden));
}

#[test]
fn owner_does_not_pass_an_admin_only_route() {
    assert_eq!(policy(vec![MemberRole::Admin], &scoped(1, ORG)), Err(CustomError::Forbidden));
    assert_eq!(policy(vec![MemberRole::Admin], &scoped(2, ORG)), Ok(()));
    assert_eq!(policy(vec![], &scoped(1, ORG)), Err(CustomError::Forbidden));
    assert_eq!(policy(vec![MemberRole::Member, MemberRole::Member], &scoped(3, ORG)), Ok(()));
}

#[test]
fn no_membership_row_is_forbidden_not_not_found() {
    let roles = vec![MemberRole::Admin, MemberRole::Owner, MemberRole::Member];
    // No row, invited, disabled.
    for id in [6u128, 4, 5] {
        assert_eq!(policy(roles.clone(), &scoped(id, ORG)), Err(CustomError::Forbidden));
    }
}

#[test]
fn role_policy_needs_both_contexts() {
    let roles = vec![MemberRole::Owner];
    assert_eq!(policy(roles.clone(), &signed_in(1)), Err(CustomError::Unauthorized));
    assert_eq!(policy(roles.clone(), &RequestContext::new()), Err(CustomError::Unauthorized));
    let no_identity = RequestContext { user: None, org: scoped(1, ORG).org };
    assert_eq!(policy(roles.clone(), &no_identity), Err(CustomError::Unauthorized));
    let empty_identity = RequestContext { user: anonymous().user, org: scoped(1, ORG).org };
    assert_eq!(policy(roles.clone(), &empty_identity), Err(CustomError::Unauthorized));
    let gate = RoleGuard::new(roles).new_transform();
    assert_eq!(
        gate.call(&scoped(1, ORG)),
        Ok(RoleRequest { org_id: Id::from_u128(ORG), user_id: Id::from_u128(1) })
    );
}

#[test]
fn stale_session_fails_the_role_policy_as_the_store_says() {
    assert_eq!(
        policy(vec![MemberRole::Owner], &scoped(7, ORG)),
        Err(CustomError::InvalidToken("User not found".to_string()))
    );
    let gate = RoleGuard::new(vec![MemberRole::Owner]).new_transform();
    let pending = RoleRequest { org_id: Id::from_u128(ORG), user_id: Id::from_u128(7) };
    assert_eq!(
        gate.session_resolved(pending, Err(CustomError::TokenExpired)),
        Err(CustomError::TokenExpired)
    );
    assert_eq!(
        gate.session_resolved(pending, Ok(user(1, "olga"))),
        Ok(RoleRequest { org_id: Id::from_u128(ORG), user_id: Id::from_u128(1) })
    );
}

#[test]
fn only_membership_and_role_are_forbidden() {
    let gate = RoleGuard::new(vec![MemberRole::Owner, MemberRole::Admin]).new_transform();
    assert_eq!(gate.role_resolved(Ok(None)), Err(CustomError::Forbidden));
    assert_eq!(gate.role_resolved(Ok(Some(MemberRole::Member))), Err(CustomError::Forbidden));
    assert_eq!(gate.role_resolved(Ok(Some(MemberRole::Owner))), Ok(()));
    assert_eq!(gate.role_resolved(Ok(Some(MemberRole::Admin))), Ok(()));
    // A failure of the lookup reaches the caller as it came.
    for failure in [CustomError::DatabaseError("down".to_string()), not_found("x")] {
        assert_eq!(gate.role_resolved(Err(failure.clone())), Err(failure));
    }
    // From the store's answer to the caller's.
    let orgs = OrgService::new();
    let broken = StoreError { row_not_found: false, message: "pool timed out".to_string() };
    let missing = StoreError { row_not_found: true, message: "no rows".to_string() };
    assert_eq!(
        gate.role_resolved(orgs.check_user_role(Err(broken))),
        Err(CustomError::DatabaseError("pool timed out".to_string()))
    );
    assert_eq!(gate.role_resolved(orgs.check_user_role(Err(missing))), Err(CustomError::Forbidden));
    assert_eq!(gate.role_resolved(orgs.check_user_role(Ok(MemberRole::Admin))), Ok(()));
    assert_eq!(
        RoleGuard::new(vec![MemberRole::Admin, MemberRole::Owner]).allowed_roles(),
        vec![MemberRole::Admin, MemberRole::Owner]
    );
    assert_eq!(
        RouteGuards::owner_only().roles.unwrap().allowed_roles(),
        vec![MemberRole::Owner]
    );
    assert_eq!(
        RouteGuards::admin_or_owner().roles.unwrap().allowed_roles(),
        vec![MemberRole::Admin, MemberRole::Owner]
    );
    assert!(gate.allows(MemberRole::Admin));
    assert!(!gate.allows(MemberRole::Member));
}

// --- the pipeline ---

fn run(guards: &RouteGuards, req: RequestContext, segment: Option<&str>) -> Result<RequestContext, CustomError> {
    guards.handle(req, segment, &auth(), &OrgService::new(), &directory())
}

#[test]
fn public_routes_take_anyone() {
    let guards = RouteGuards::public();
    assert_eq!(run(&guards, anonymous(), None), Ok(anonymous()));
    assert_eq!(run(&guards, signed_in(7), Some("junk")), Ok(signed_in(7)));
}

#[test]
fn authenticated_routes_need_a_login_only() {
    let guards = RouteGuards::authenticated();
    assert_eq!(run(&guards, anonymous(), None), Err(CustomError::Unauthorized));
    assert_eq!(run(&guards, signed_in(6), None), Ok(signed_in(6)));
    assert_eq!(run(&guards, signed_in(7), Some("junk")), Ok(signed_in(7)));
}

#[test]
fn first_failing_guard_answers() {
    let guards = RouteGuards::owner_only();
    // Anonymous: unauthorized, though the path is malformed too.
    assert_eq!(run(&guards, anonymous(), Some("junk")), Err(CustomError::Unauthorized));
    assert_eq!(run(&guards, resolve(Some("Token xyz")), Some(ORG_TEXT)), Err(CustomError::Unauthorized));
    // Signed in: the path is looked at.
    assert_eq!(run(&guards, signed_in(3), Some("junk")), Err(CustomError::BadRequest));
    // Not a member: not found, and the role is never asked for.
    assert_eq!(run(&guards, signed_in(6), Some(ORG_TEXT)), Err(not_found("Organization not found")));
    // A member, but not an owner.
    assert_eq!(run(&guards, signed_in(3), Some(ORG_TEXT)), Err(CustomError::Forbidden));
    assert_eq!(run(&guards, signed_in(2), Some(ORG_TEXT)), Err(CustomError::Forbidden));
    assert_eq!(run(&guards, signed_in(1), Some(ORG_TEXT)), Ok(scoped(1, ORG)));
}

#[test]
fn the_two_policies_of_the_product() {
    let owners = RouteGuards::owner_only();
    let admins = RouteGuards::admin_or_owner();
    let members = RouteGuards::organization();
    for (id, is_owner, is_admin) in [(1u128, true, true), (2, false, true), (3, false, false)] {
        assert_eq!(run(&owners, signed_in(id), Some(ORG_TEXT)).is_ok(), is_owner);
        assert_eq!(run(&admins, signed_in(id), Some(ORG_TEXT)).is_ok(), is_admin);
        assert_eq!(run(&members, signed_in(id), Some(ORG_TEXT)), Ok(scoped(id, ORG)));
    }
}

#[test]
fn a_request_from_header_to_handler() {
    let service = tokens();
    let (access, refresh, _, _) = service.generate_token_pair(Id::from_u128(2)).unwrap();
    let serve = |guards: RouteGuards, header: Option<&str>| {
        guards.serve(Some(&service), header, Some(ORG_TEXT), &auth(), &OrgService::new(), &directory())
    };
    let bearer = format!("Bearer {}", access);
    let handled = serve(RouteGuards::admin_or_owner(), Some(&bearer)).unwrap();
    assert_eq!(get_context_user_id(&handled), Ok(Id::from_u128(2)));
    assert_eq!(get_context_org(&handled).unwrap().id, Id::from_u128(ORG));
    assert_eq!(serve(RouteGuards::owner_only(), Some(&bearer)), Err(CustomError::Forbidden));
    assert_eq!(serve(RouteGuards::owner_only(), None), Err(CustomError::Unauthorized));
    assert_eq!(serve(RouteGuards::owner_only(), Some("Token xyz")), Err(CustomError::Unauthorized));
    let with_refresh = format!("Bearer {}", refresh);
    assert_eq!(
        serve(RouteGuards::authenticated(), Some(&with_refresh)),
        Err(CustomError::Unauthorized)
    );
    assert_eq!(serve(RouteGuards::public(), None), Ok(anonymous()));
}

// --- the store in memory ---

#[test]
fn store_lookups() {
    let store = directory();
    assert_eq!(store.get_user_by_id(Id::from_u128(3)), Ok(user(3, "mia")));
    assert!(matches!(store.get_user_by_id(Id::from_u128(7)), Err(StoreError { row_not_found: true, .. })));
    assert_eq!(store.find_by_id(Id::from_u128(ORG), Id::from_u128(1)), Ok(org(ORG, "acme")));
    assert!(store.find_by_id(Id::from_u128(ORG), Id::from_u128(4)).is_err());
    assert!(store.find_by_id(Id::from_u128(OTHER_ORG), Id::from_u128(1)).is_err());
    assert_eq!(store.find_by_id(Id::from_u128(OTHER_ORG), Id::from_u128(6)).unwrap().name, "other");
    assert_eq!(store.check_user_role(Id::from_u128(ORG), Id::from_u128(2)), Ok(MemberRole::Admin));
    assert!(store.check_user_role(Id::from_u128(ORG), Id::from_u128(5)).is_err());
    assert!(store.is_user_member_of_org(Id::from_u128(ORG), Id::from_u128(3)));
    assert!(!store.is_user_member_of_org(Id::from_u128(ORG), Id::from_u128(4)));
    assert!(!store.is_user_member_of_org(Id::from_u128(ORG), Id::from_u128(6)));
    let empty = Directory::new();
    assert!(empty.get_user_by_id(Id::from_u128(1)).is_err());
    assert!(empty.find_by_id(Id::from_u128(ORG), Id::from_u128(1)).is_err());
    assert!(OrgMember::is_active(&member(ORG, 1, MemberRole::Owner, MemberStatus::Active)));
    assert!(!OrgMember::is_active(&member(ORG, 1, MemberRole::Owner, MemberStatus::Invited)));
}

#[test]
fn services_map_the_failures_of_the_store() {
    let missing = StoreError { row_not_found: true, message: "no rows".to_string() };
    let broken = StoreError { row_not_found: false, message: "pool timed out".to_string() };
    let orgs = OrgService::new();
    assert_eq!(
        orgs.get_org(Id::from_u128(ORG), Err(missing.clone())),
        Err(not_found("Org with id: 11111111-2222-3333-4444-555555555555 not found"))
    );
    assert_eq!(
        orgs.get_org(Id::from_u128(ORG), Err(broken.clone())),
        Err(CustomError::DatabaseError("pool timed out".to_string()))
    );
    assert_eq!(orgs.get_org(Id::from_u128(ORG), Ok(org(ORG, "acme"))), Ok(org(ORG, "acme")));
    assert_eq!(orgs.check_user_role(Err(missing.clone())), Ok(None));
    assert_eq!(
        orgs.check_user_role(Err(broken.clone())),
        Err(CustomError::DatabaseError("pool timed out".to_string()))
    );
    assert_eq!(orgs.check_user_role(Ok(MemberRole::Admin)), Ok(Some(MemberRole::Admin)));
    assert_eq!(orgs.session_role(Ok(MemberRole::Member)), Ok(MemberRole::Member));
    assert_eq!(
        orgs.session_role(Err(missing.clone())),
        Err(CustomError::DatabaseError("no rows".to_string()))
    );
    assert_eq!(
        orgs.session_role(Err(broken.clone())),
        Err(CustomError::DatabaseError("pool timed out".to_string()))
    );
    for failure in [missing, broken] {
        assert_eq!(
            auth().get_session(Err(failure)),
            Err(CustomError::InvalidToken("User not found".to_string()))
        );
    }
    assert_eq!(auth().get_session(Ok(user(1, "olga"))), Ok(user(1, "olga")));
}

#[test]
fn store_keeps_one_row_for_each_pair() {
    let mut store = Directory::new();
    let owner = member(ORG, 1, MemberRole::Owner, MemberStatus::Active);
    assert_eq!(store.add_member(owner), None);
    assert_eq!(store.members, vec![owner]);
    // A second row for the pair is refused, whatever its role and status.
    let again = member(ORG, 1, MemberRole::Member, MemberStatus::Disabled);
    assert_eq!(store.add_member(again), Some(again));
    assert_eq!(store.members, vec![owner]);
    // Another user, and the same user in another organization, are taken.
    let other_user = member(ORG, 2, MemberRole::Member, MemberStatus::Invited);
    let other_org = member(OTHER_ORG, 1, MemberRole::Admin, MemberStatus::Active);
    assert_eq!(store.add_member(other_user), None);
    assert_eq!(store.add_member(other_org), None);
    assert_eq!(store.members, vec![owner, other_user, other_org]);
    assert_eq!(store.check_user_role(Id::from_u128(ORG), Id::from_u128(1)), Ok(MemberRole::Owner));
    assert!(store.check_user_role(Id::from_u128(ORG), Id::from_u128(2)).is_err());
    assert_eq!(
        store.check_user_role(Id::from_u128(OTHER_ORG), Id::from_u128(1)),
        Ok(MemberRole::Admin)
    );
}
