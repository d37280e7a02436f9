//! The credential codec: sealed, expiring access and refresh tokens.
//!
//! A token is a PASETO `v4.local` string. Its payload names the user it was
//! issued for (`sub`), a random token identifier (`jti`), the instant it
//! expires at (`exp`, RFC 3339) and, under `type`, whether it grants access or
//! a refresh.

use rusty_paseto::prelude::{
    CustomClaim, ExpirationClaim, Key, Local, PasetoBuilder, PasetoParser, PasetoSymmetricKey,
    SubjectClaim, TokenIdentifierClaim, V4,
};
use vstd::prelude::*;
use vstd::string::*;
use crate::clock::{rfc3339_text, Timestamp};
use crate::errors::{CustomError, ErrorView};
use crate::ident::{uuid_new_v4, uuid_parse_str, uuid_to_string, Id};
use crate::text::text_view;

verus! {

/// Minutes that an access token lives.
pub const ACCESS_TOKEN_EXPIRATION: i64 = 15;

/// Minutes that a refresh token lives: seven days.
pub const REFRESH_TOKEN_EXPIRATION: i64 = 7 * 24 * 60;

/// The claims that the codec reads from a token.
#[derive(Debug, Clone, PartialEq, Eq)]
pub struct Claims {
    pub subject: Option<String>,
    pub token_id: Option<String>,
    pub expires_at: Option<String>,
    pub token_type: Option<String>,
}

/// `Claims` with its texts as character sequences.
pub struct ClaimsView {
    pub subject: Option<Seq<char>>,
    pub token_id: Option<Seq<char>>,
    pub expires_at: Option<Seq<char>>,
    pub token_type: Option<Seq<char>>,
}

impl View for Claims {
    type V = ClaimsView;

    open spec fn view(&self) -> ClaimsView {
        ClaimsView {
            subject: text_view(self.subject),
            token_id: text_view(self.token_id),
            expires_at: text_view(self.expires_at),
            token_type: text_view(self.token_type),
        }
    }
}

/// What `PasetoParser::<V4, Local>::parse` finds in the payload of a token that
/// it opens under a key: the texts under `sub`, `jti`, `exp` and the claim
/// named `tag`, each `None` where the payload has no text under that name.
pub uninterp spec fn sealed_claims(key: Seq<u8>, token: Seq<char>, tag: Seq<char>) -> Option<
    ClaimsView,
>;

/// The claim names that `rusty_paseto` keeps for itself.
pub open spec fn reserved_claim(name: Seq<char>) -> bool {
    ||| name == "iss"@
    ||| name == "sub"@
    ||| name == "aud"@
    ||| name == "exp"@
    ||| name == "nbf"@
    ||| name == "iat"@
    ||| name == "jti"@
}

/// The claim name `type` is not a reserved one.
pub proof fn lemma_type_is_free()
    ensures
        !reserved_claim("type"@),
        "type"@.len() > 0,
{
    reveal_strlit("type");
    reveal_strlit("iss");
    reveal_strlit("sub");
    reveal_strlit("aud");
    reveal_strlit("exp");
    reveal_strlit("nbf");
    reveal_strlit("iat");
    reveal_strlit("jti");
    assert("type"@.len() == 4);
    assert("iss"@.len() == 3);
    assert("sub"@.len() == 3);
    assert("aud"@.len() == 3);
    assert("exp"@.len() == 3);
    assert("nbf"@.len() == 3);
    assert("iat"@.len() == 3);
    assert("jti"@.len() == 3);
}

/// `PasetoBuilder::<V4, Local>::build` on a builder that was given a subject, a
/// token identifier, an expiration and one custom claim. The builder draws a
/// random nonce and may fail. A token that comes back holds the four claims.
#[verifier::external_body]
fn seal(
    key: &[u8; 32],
    subject: &str,
    token_id: &str,
    expires_at: &str,
    tag: &str,
    token_type: &str,
) -> (token: Option<String>)
    requires
        tag@.len() > 0,
    ensures
        token matches Some(t) ==> sealed_claims(key@, t@, tag@) == Some(
            ClaimsView {
                subject: Some(subject@),
                token_id: Some(token_id@),
                expires_at: Some(expires_at@),
                token_type: Some(token_type@),
            },
        ),
{
    let key = PasetoSymmetricKey::<V4, Local>::from(Key::from(key));
    let expiry = ExpirationClaim::try_from(expires_at).ok()?;
    let kind = CustomClaim::try_from((tag, token_type)).ok()?;
    PasetoBuilder::<V4, Local>::default()
        .set_claim(SubjectClaim::from(subject))
        .set_claim(TokenIdentifierClaim::from(token_id))
        .set_claim(expiry)
        .set_claim(kind)
        .build(&key)
        .ok()
}

/// `PasetoParser::<V4, Local>::parse` with the parser's default checks, which
/// read the clock: it may turn any token down. Claims that come back are the
/// ones sealed in the token.
#[verifier::external_body]
fn open(key: &[u8; 32], token: &str, tag: &str) -> (claims: Option<Claims>)
    ensures
        claims matches Some(c) ==> sealed_claims(key@, token@, tag@) == Some(c@),
{
    let key = PasetoSymmetricKey::<V4, Local>::from(Key::from(key));
    let json = PasetoParser::<V4, Local>::default().parse(token, &key).ok()?;
    Some(Claims {
        subject: json["sub"].as_str().map(String::from),
        token_id: json["jti"].as_str().map(String::from),
        expires_at: json["exp"].as_str().map(String::from),
        token_type: json[tag].as_str().map(String::from),
    })
}

/// `PasetoParser::<V4, Local>::parse` after `check_claim` with a custom claim.
/// The claim cannot be made, and the result is `Err`, exactly where its name is
/// reserved. Otherwise the parser may turn any token down; claims that come
/// back are the ones sealed in the token, and hold the expected text under the
/// checked name.
#[verifier::external_body]
fn open_expecting(key: &[u8; 32], token: &str, tag: &str, token_type: &str) -> (claims: Result<
    Option<Claims>,
    (),
>)
    ensures
        claims is Err <==> reserved_claim(tag@),
        claims matches Ok(Some(c)) ==> sealed_claims(key@, token@, tag@) == Some(c@)
            && c@.token_type == Some(token_type@),
{
    let key = PasetoSymmetricKey::<V4, Local>::from(Key::from(key));
    let Ok(expected) = CustomClaim::try_from((tag, token_type)) else { return Err(()) };
    let Ok(json) = PasetoParser::<V4, Local>::default().check_claim(expected).parse(token, &key)
    else {
        return Ok(None);
    };
    Ok(Some(Claims {
        subject: json["sub"].as_str().map(String::from),
        token_id: json["jti"].as_str().map(String::from),
        expires_at: json["exp"].as_str().map(String::from),
        token_type: json[tag].as_str().map(String::from),
    }))
}

// --- what the codec decides ---

/// What the access check makes of an opened token: the claims, unless the
/// token was turned down or does not grant access.
pub open spec fn access_verdict(opened: Option<ClaimsView>) -> Result<ClaimsView, ErrorView> {
    match opened {
        None => Err(ErrorView::InvalidToken("Invalid token"@)),
        Some(claims) => if claims.token_type == Some("access"@) {
            Ok(claims)
        } else {
            Err(ErrorView::InvalidToken("Not an access token"@))
        },
    }
}

/// What the refresh check makes of a token opened as a refresh token: its
/// subject.
pub open spec fn refresh_verdict(opened: Result<Option<ClaimsView>, ()>) -> Result<
    Seq<char>,
    ErrorView,
> {
    match opened {
        Err(_) => Err(ErrorView::InternalServerError),
        Ok(None) => Err(ErrorView::InvalidToken("Invalid refresh token"@)),
        Ok(Some(claims)) => match claims.subject {
            Some(subject) => Ok(subject),
            None => Err(ErrorView::InvalidToken("sub claim not found"@)),
        },
    }
}

/// The user that the subject of a claim set names.
pub open spec fn subject_verdict(claims: ClaimsView) -> Result<Id, ErrorView> {
    match claims.subject {
        None => Err(ErrorView::InvalidToken("Missing sub claim"@)),
        Some(subject) => match Id::parsed(subject) {
            Some(id) => Ok(id),
            None => Err(ErrorView::InvalidToken("Invalid user ID"@)),
        },
    }
}

pub open spec fn claims_view(claims: Option<Claims>) -> Option<ClaimsView> {
    match claims {
        Some(c) => Some(c@),
        None => None,
    }
}

/// Whether an outcome with claims is the given ruling.
pub open spec fn is_claims_verdict(
    outcome: Result<Claims, CustomError>,
    verdict: Result<ClaimsView, ErrorView>,
) -> bool {
    match outcome {
        Ok(claims) => verdict == Ok::<ClaimsView, ErrorView>(claims@),
        Err(error) => verdict == Err::<ClaimsView, ErrorView>(error@),
    }
}

/// Whether an outcome with a text is the given ruling.
pub open spec fn is_text_verdict(
    outcome: Result<String, CustomError>,
    verdict: Result<Seq<char>, ErrorView>,
) -> bool {
    match outcome {
        Ok(text) => verdict == Ok::<Seq<char>, ErrorView>(text@),
        Err(error) => verdict == Err::<Seq<char>, ErrorView>(error@),
    }
}

/// Whether an outcome with a user id is the given ruling.
pub open spec fn is_id_verdict(outcome: Result<Id, CustomError>, verdict: Result<Id, ErrorView>) -> bool {
    match outcome {
        Ok(id) => verdict == Ok::<Id, ErrorView>(id),
        Err(error) => verdict == Err::<Id, ErrorView>(error@),
    }
}

/// Accepts an opened token as an access token.
pub fn access_claims(opened: Option<Claims>) -> (outcome: Result<Claims, CustomError>)
    ensures
        is_claims_verdict(outcome, access_verdict(claims_view(opened))),
        outcome matches Ok(claims) ==> opened == Some(claims),
{
    match opened {
        None => Err(CustomError::InvalidToken("Invalid token".to_string())),
        Some(claims) => {
            let grants_access = match &claims.token_type {
                Some(token_type) => *token_type == "access".to_string(),
                None => false,
            };
            if !grants_access {
                return Err(CustomError::InvalidToken("Not an access token".to_string()));
            }
            Ok(claims)
        },
    }
}

/// Reads the subject out of a token that was opened as a refresh token.
pub fn refresh_subject(opened: Result<Option<Claims>, ()>) -> (outcome: Result<String, CustomError>)
    ensures
        is_text_verdict(
            outcome,
            refresh_verdict(
                match opened {
                    Ok(claims) => Ok(claims_view(claims)),
                    Err(_) => Err(()),
                },
            ),
        ),
{
    match opened {
        Err(_) => Err(CustomError::InternalServerError),
        Ok(None) => Err(CustomError::InvalidToken("Invalid refresh token".to_string())),
        Ok(Some(claims)) => match claims.subject {
            Some(subject) => Ok(subject),
            None => Err(CustomError::InvalidToken("sub claim not found".to_string())),
        },
    }
}

/// Reads the user id out of the subject of a claim set.
pub fn subject_user_id(claims: &Claims) -> (outcome: Result<Id, CustomError>)
    ensures
        is_id_verdict(outcome, subject_verdict(claims@)),
{
    match &claims.subject {
        None => Err(CustomError::InvalidToken("Missing sub claim".to_string())),
        Some(subject) => match uuid_parse_str(subject.as_str()) {
            Some(id) => Ok(id),
            None => Err(CustomError::InvalidToken("Invalid user ID".to_string())),
        },
    }
}


// --- the service ---

/// Issues and verifies tokens under one symmetric key.
pub struct TokenService {
    key: [u8; 32],
}

/// The key of a service made by `TokenService::new`. It is fixed in the source
/// and fit for development only.
pub open spec fn development_key() -> Seq<u8> {
    seq![
        119u8, 117, 98, 98, 97, 108, 117, 98, 98, 97, 100, 117, 98, 100, 117, 98,
        119, 117, 98, 98, 97, 108, 117, 98, 98, 97, 100, 117, 98, 100, 117, 98,
    ]
}

impl TokenService {
    /// The key that the service seals and opens tokens with.
    pub closed spec fn secret(&self) -> Seq<u8> {
        self.key@
    }

    /// The claims sealed in a token, as this service reads them.
    pub open spec fn sealed(&self, token: Seq<char>) -> Option<ClaimsView> {
        sealed_claims(self.secret(), token, "type"@)
    }

    /// Whether a token is one of this service that names the subject, the
    /// expiration and the type, and has a token identifier.
    pub open spec fn carries(
        &self,
        token: Seq<char>,
        subject: Seq<char>,
        expires_at: Seq<char>,
        token_type: Seq<char>,
    ) -> bool {
        match self.sealed(token) {
            Some(claims) => {
                &&& claims.subject == Some(subject)
                &&& claims.token_id is Some
                &&& claims.expires_at == Some(expires_at)
                &&& claims.token_type == Some(token_type)
            },
            None => false,
        }
    }

    /// Whether a token of this service is one issued for the user at `now`
    /// with the given type and life time.
    pub open spec fn issued_token(
        &self,
        token: Seq<char>,
        user_id: Id,
        now: Timestamp,
        token_type: Seq<char>,
        minutes: int,
    ) -> bool {
        &&& Id::parsed(user_id.text()) == Some(user_id)
        &&& match rfc3339_text(now.spec_plus_minutes(minutes)) {
            Some(expires_at) => self.carries(token, user_id.text(), expires_at, token_type),
            None => false,
        }
    }

    /// Whether `pair` is a token pair issued for the user at `now`: an access
    /// token, a refresh token, and the minutes that each lives.
    pub open spec fn issued(&self, user_id: Id, now: Timestamp, pair: (String, String, i64, i64)) -> bool {
        &&& self.issued_token(pair.0@, user_id, now, "access"@, ACCESS_TOKEN_EXPIRATION as int)
        &&& self.issued_token(pair.1@, user_id, now, "refresh"@, REFRESH_TOKEN_EXPIRATION as int)
        &&& pair.2 == ACCESS_TOKEN_EXPIRATION
        &&& pair.3 == REFRESH_TOKEN_EXPIRATION
    }

    /// Whether a token is one of this service whose token identifier is the
    /// text of `token_id`.
    pub open spec fn identified(&self, token: Seq<char>, token_id: Id) -> bool {
        &&& Id::parsed(token_id.text()) == Some(token_id)
        &&& match self.sealed(token) {
            Some(claims) => claims.token_id == Some(token_id.text()),
            None => false,
        }
    }

    /// Whether `pair` is a token pair issued for the user at `now` with the
    /// two token identifiers that were drawn for it: the first for the access
    /// token, the second for the refresh token.
    pub open spec fn issued_with(
        &self,
        user_id: Id,
        now: Timestamp,
        access_id: Id,
        refresh_id: Id,
        pair: (String, String, i64, i64),
    ) -> bool {
        &&& self.issued(user_id, now, pair)
        &&& self.identified(pair.0@, access_id)
        &&& self.identified(pair.1@, refresh_id)
    }

    /// Whether `outcome` is an answer of the access check to the token: the
    /// ruling on the sealed claims, or the ruling on a token turned down.
    pub open spec fn access_outcome(&self, token: Seq<char>, outcome: Result<Claims, CustomError>) -> bool {
        ||| is_claims_verdict(outcome, access_verdict(None))
        ||| self.sealed(token) is Some && is_claims_verdict(
            outcome,
            access_verdict(self.sealed(token)),
        )
    }

    /// The claims that the refresh check accepts of those sealed in a token.
    pub open spec fn sealed_refresh(&self, token: Seq<char>) -> Option<ClaimsView> {
        match self.sealed(token) {
            Some(claims) => if claims.token_type == Some("refresh"@) {
                Some(claims)
            } else {
                None
            },
            None => None,
        }
    }

    /// Whether `outcome` is an answer of the refresh check to the token.
    pub open spec fn refresh_outcome(&self, token: Seq<char>, outcome: Result<String, CustomError>) -> bool {
        ||| is_text_verdict(outcome, refresh_verdict(Ok(None)))
        ||| self.sealed_refresh(token) is Some && is_text_verdict(
            outcome,
            refresh_verdict(Ok(self.sealed_refresh(token))),
        )
    }

    /// Whether `outcome` is an answer to asking the token for its user.
    pub open spec fn user_id_outcome(&self, token: Seq<char>, outcome: Result<Id, CustomError>) -> bool {
        ||| outcome matches Err(error) && access_verdict(None) == Err::<ClaimsView, ErrorView>(error@)
        ||| self.sealed(token) is Some && match access_verdict(self.sealed(token)) {
            Ok(claims) => is_id_verdict(outcome, subject_verdict(claims)),
            Err(error) => outcome matches Err(e) && e@ == error,
        }
    }

    /// A service with the development key.
    pub fn new() -> (service: Result<TokenService, CustomError>)
        ensures
            service matches Ok(made) && made.secret() == development_key(),
    {
        let key: [u8; 32] = [
            119u8, 117, 98, 98, 97, 108, 117, 98, 98, 97, 100, 117, 98, 100, 117, 98,
            119, 117, 98, 98, 97, 108, 117, 98, 98, 97, 100, 117, 98, 100, 117, 98,
        ];
        assert(key@ =~= development_key());
        Ok(TokenService { key })
    }

    /// A service with a key of the caller's.
    pub fn with_key(key: [u8; 32]) -> (service: TokenService)
        ensures
            service.secret() == key@,
    {
        TokenService { key }
    }

    /// Seals one token for the user: its identifier, its type and the minutes
    /// it lives from `now` on.
    fn issue_token(
        &self,
        user_id: Id,
        now: Timestamp,
        token_id: Id,
        token_type: &str,
        minutes: i64,
    ) -> (token: Result<String, CustomError>)
        ensures
            match token {
                Ok(sealed) => self.issued_token(sealed@, user_id, now, token_type@, minutes as int)
                    && self.identified(sealed@, token_id),
                Err(error) => error@ == ErrorView::InternalServerError,
            },
    {
        let expires_at = match now.plus_minutes(minutes) {
            Some(instant) => match instant.to_rfc3339() {
                Some(text) => text,
                None => { return Err(CustomError::InternalServerError); },
            },
            None => { return Err(CustomError::InternalServerError); },
        };
        let token_id = uuid_to_string(token_id);
        let subject = uuid_to_string(user_id);
        proof {
            lemma_type_is_free();
        }
        match seal(
            &self.key,
            subject.as_str(),
            token_id.as_str(),
            expires_at.as_str(),
            "type",
            token_type,
        ) {
            Some(sealed) => Ok(sealed),
            None => Err(CustomError::InternalServerError),
        }
    }

    /// A token identifier drawn at random.
    pub fn draw_token_id() -> Id {
        uuid_new_v4()
    }

    /// Issues an access and a refresh token for the user, as they are issued
    /// at the instant `now` with the token identifiers that were drawn for
    /// them: each token holds the text of its own. Sealing draws on the
    /// system's randomness and may fail.
    pub fn generate_token_pair_with(
        &self,
        user_id: Id,
        now: Timestamp,
        access_id: Id,
        refresh_id: Id,
    ) -> (pair: Result<(String, String, i64, i64), CustomError>)
        ensures
            match pair {
                Ok(issued) => self.issued_with(user_id, now, access_id, refresh_id, issued),
                Err(error) => error@ == ErrorView::InternalServerError,
            },
    {
        let access_token = self.issue_token(
            user_id,
            now,
            access_id,
            "access",
            ACCESS_TOKEN_EXPIRATION,
        )?;
        let refresh_token = self.issue_token(
            user_id,
            now,
            refresh_id,
            "refresh",
            REFRESH_TOKEN_EXPIRATION,
        )?;
        Ok((access_token, refresh_token, ACCESS_TOKEN_EXPIRATION, REFRESH_TOKEN_EXPIRATION))
    }

    /// Issues an access and a refresh token for the user, as they are issued
    /// at the instant `now`: a token identifier is drawn for each.
    pub fn generate_token_pair_at(&self, user_id: Id, now: Timestamp) -> (pair: Result<
        (String, String, i64, i64),
        CustomError,
    >)
        ensures
            match pair {
                Ok(issued) => self.issued(user_id, now, issued) && exists|
                    access_id: Id,
                    refresh_id: Id,
                | #[trigger] self.issued_with(user_id, now, access_id, refresh_id, issued),
                Err(error) => error@ == ErrorView::InternalServerError,
            },
    {
        let access_id = Self::draw_token_id();
        let refresh_id = Self::draw_token_id();
        let pair = self.generate_token_pair_with(user_id, now, access_id, refresh_id);
        assert(pair matches Ok(issued) ==> self.issued_with(
            user_id,
            now,
            access_id,
            refresh_id,
            issued,
        ));
        pair
    }

    /// Issues an access and a refresh token for the user at the present
    /// instant.
    pub fn generate_token_pair(&self, user_id: Id) -> (pair: Result<
        (String, String, i64, i64),
        CustomError,
    >)
        ensures
            match pair {
                Ok(issued) => exists|now: Timestamp, access_id: Id, refresh_id: Id| #[trigger]
                    self.issued_with(user_id, now, access_id, refresh_id, issued),
                Err(error) => error@ == ErrorView::InternalServerError,
            },
    {
        let now = Timestamp::now();
        let access_id = Self::draw_token_id();
        let refresh_id = Self::draw_token_id();
        let pair = self.generate_token_pair_with(user_id, now, access_id, refresh_id);
        assert(pair matches Ok(issued) ==> self.issued_with(
            user_id,
            now,
            access_id,
            refresh_id,
            issued,
        ));
        pair
    }

    /// Verifies an access token and hands out its claims. The token is turned
    /// down where it is not sealed under the key, where it has expired, and
    /// where its type is not `access`.
    pub fn verify_access_token(&self, token: &str) -> (outcome: Result<Claims, CustomError>)
        ensures
            self.access_outcome(token@, outcome),
    {
        access_claims(open(&self.key, token, "type"))
    }

    /// Verifies a refresh token and hands out its subject.
    pub fn verify_refresh_token(&self, token: &str) -> (outcome: Result<String, CustomError>)
        ensures
            self.refresh_outcome(token@, outcome),
    {
        proof {
            lemma_type_is_free();
        }
        refresh_subject(open_expecting(&self.key, token, "type", "refresh"))
    }

    /// Verifies an access token and reads the user id out of its subject.
    pub fn extract_user_id(&self, token: &str) -> (outcome: Result<Id, CustomError>)
        ensures
            self.user_id_outcome(token@, outcome),
    {
        let claims = self.verify_access_token(token)?;
        subject_user_id(&claims)
    }
}

// --- what holds of issued tokens ---

/// The two token types are different texts.
pub proof fn lemma_types_differ()
    ensures
        "access"@ != "refresh"@,
{
    reveal_strlit("access");
    reveal_strlit("refresh");
    assert("access"@.len() == 6);
    assert("refresh"@.len() == 7);
}

/// Round trip. Whenever the access check accepts the access token of a pair
/// issued for a user, the subject of the claims is the user's id as text; and
/// where it turns the token down, it does so as for a token that does not
/// open, never for its type.
pub proof fn lemma_access_round_trip(
    service: TokenService,
    user_id: Id,
    now: Timestamp,
    pair: (String, String, i64, i64),
    outcome: Result<Claims, CustomError>,
)
    requires
        service.issued(user_id, now, pair),
        service.access_outcome(pair.0@, outcome),
    ensures
        outcome matches Ok(claims) ==> claims@.subject == Some(user_id.text())
            && claims@.token_type == Some("access"@),
        outcome matches Err(error) ==> error@ == ErrorView::InvalidToken("Invalid token"@),
{
}

/// Round trip. Whenever the access token of a pair issued for a user yields a
/// user id, it is that user's.
pub proof fn lemma_user_id_round_trip(
    service: TokenService,
    user_id: Id,
    now: Timestamp,
    pair: (String, String, i64, i64),
    outcome: Result<Id, CustomError>,
)
    requires
        service.issued(user_id, now, pair),
        service.user_id_outcome(pair.0@, outcome),
    ensures
        outcome matches Ok(found) ==> found == user_id,
        outcome matches Err(error) ==> error@ == ErrorView::InvalidToken("Invalid token"@),
{
}

/// Type isolation. The access check turns the refresh token of an issued pair
/// down with `InvalidToken`.
pub proof fn lemma_refresh_token_grants_no_access(
    service: TokenService,
    user_id: Id,
    now: Timestamp,
    pair: (String, String, i64, i64),
    outcome: Result<Claims, CustomError>,
)
    requires
        service.issued(user_id, now, pair),
        service.access_outcome(pair.1@, outcome),
    ensures
        outcome matches Err(error) && error@ is InvalidToken,
{
    lemma_types_differ();
}

/// Type isolation. Asking the refresh token of an issued pair for its user
/// fails with `InvalidToken`.
pub proof fn lemma_refresh_token_names_no_user(
    service: TokenService,
    user_id: Id,
    now: Timestamp,
    pair: (String, String, i64, i64),
    outcome: Result<Id, CustomError>,
)
    requires
        service.issued(user_id, now, pair),
        service.user_id_outcome(pair.1@, outcome),
    ensures
        outcome matches Err(error) && error@ is InvalidToken,
{
    lemma_types_differ();
}

/// Type isolation. The refresh check turns the access token of an issued pair
/// down with `InvalidToken`.
pub proof fn lemma_access_token_grants_no_refresh(
    service: TokenService,
    user_id: Id,
    now: Timestamp,
    pair: (String, String, i64, i64),
    outcome: Result<String, CustomError>,
)
    requires
        service.issued(user_id, now, pair),
        service.refresh_outcome(pair.0@, outcome),
    ensures
        outcome matches Err(error) && error@ == ErrorView::InvalidToken("Invalid refresh token"@),
{
    lemma_types_differ();
}

/// Whenever the refresh check accepts the refresh token of a pair issued for
/// a user, it hands out the user's id as text.
pub proof fn lemma_refresh_round_trip(
    service: TokenService,
    user_id: Id,
    now: Timestamp,
    pair: (String, String, i64, i64),
    outcome: Result<String, CustomError>,
)
    requires
        service.issued(user_id, now, pair),
        service.refresh_outcome(pair.1@, outcome),
    ensures
        outcome matches Ok(subject) ==> subject@ == user_id.text() && Id::parsed(subject@) == Some(
            user_id,
        ),
        outcome matches Err(error) ==> error@ == ErrorView::InvalidToken("Invalid refresh token"@),
{
}

/// Token identifiers tell tokens apart: two tokens that hold the texts of two
/// different identifiers are two different tokens, and so are their claims.
pub proof fn lemma_identifiers_tell_tokens_apart(
    service: TokenService,
    first: Seq<char>,
    second: Seq<char>,
    first_id: Id,
    second_id: Id,
)
    requires
        service.identified(first, first_id),
        service.identified(second, second_id),
        first_id != second_id,
    ensures
        first != second,
        service.sealed(first)->Some_0.token_id != service.sealed(second)->Some_0.token_id,
{
}

/// Two pairs that were issued with four different token identifiers consist
/// of four different tokens.
pub proof fn lemma_fresh_identifiers_give_fresh_tokens(
    service: TokenService,
    first_user: Id,
    first_now: Timestamp,
    first_ids: (Id, Id),
    first: (String, String, i64, i64),
    second_user: Id,
    second_now: Timestamp,
    second_ids: (Id, Id),
    second: (String, String, i64, i64),
)
    requires
        service.issued_with(first_user, first_now, first_ids.0, first_ids.1, first),
        service.issued_with(second_user, second_now, second_ids.0, second_ids.1, second),
        first_ids.0 != first_ids.1,
        second_ids.0 != second_ids.1,
        first_ids.0 != second_ids.0,
        first_ids.0 != second_ids.1,
        first_ids.1 != second_ids.0,
        first_ids.1 != second_ids.1,
    ensures
        first.0@ != first.1@,
        second.0@ != second.1@,
        first.0@ != second.0@,
        first.0@ != second.1@,
        first.1@ != second.0@,
        first.1@ != second.1@,
{
    lemma_identifiers_tell_tokens_apart(service, first.0@, first.1@, first_ids.0, first_ids.1);
    lemma_identifiers_tell_tokens_apart(service, second.0@, second.1@, second_ids.0, second_ids.1);
    lemma_identifiers_tell_tokens_apart(service, first.0@, second.0@, first_ids.0, second_ids.0);
    lemma_identifiers_tell_tokens_apart(service, first.0@, second.1@, first_ids.0, second_ids.1);
    lemma_identifiers_tell_tokens_apart(service, first.1@, second.0@, first_ids.1, second_ids.0);
    lemma_identifiers_tell_tokens_apart(service, first.1@, second.1@, first_ids.1, second_ids.1);
}

/// Idempotence. Two answers of the access check that accept the same token
/// hold the same claims: verifying uses nothing up.
pub proof fn lemma_access_check_is_idempotent(
    service: TokenService,
    token: Seq<char>,
    first: Result<Claims, CustomError>,
    second: Result<Claims, CustomError>,
)
    requires
        service.access_outcome(token, first),
        service.access_outcome(token, second),
        first is Ok,
        second is Ok,
    ensures
        first->Ok_0@ == second->Ok_0@,
{
}

/// Idempotence. Two answers of the refresh check that accept the same token
/// name the same subject.
pub proof fn lemma_refresh_check_is_idempotent(
    service: TokenService,
    token: Seq<char>,
    first: Result<String, CustomError>,
    second: Result<String, CustomError>,
)
    requires
        service.refresh_outcome(token, first),
        service.refresh_outcome(token, second),
        first is Ok,
        second is Ok,
    ensures
        first->Ok_0@ == second->Ok_0@,
{
}


} // verus!
