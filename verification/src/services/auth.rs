//! Sessions and their renewal.

use vstd::prelude::*;
use vstd::string::*;
use crate::clock::Timestamp;
use crate::errors::{CustomError, ErrorView, StoreError};
use crate::ident::{uuid_parse_str, uuid_to_string, Id};
use crate::models::auth::{
    CreateUserData, LoginResponse, RegisterRequest, RegisterResponse, User,
};
use crate::models::user_preferences::UserPreferenceRequest;
use crate::password::{hash_password, password_accepted, random_salt, verify_password};
use crate::services::token::{
    lemma_identifiers_tell_tokens_apart, TokenService, ACCESS_TOKEN_EXPIRATION,
    REFRESH_TOKEN_EXPIRATION,
};

verus! {

pub struct AuthService {
    pub token_service: TokenService,
}

/// The seconds in a number of minutes.
pub open spec fn spec_seconds(minutes: int) -> int {
    minutes * 60
}

impl LoginResponse {
    /// Whether the response hands `pair` to `user` under the given message.
    pub open spec fn delivers(
        &self,
        message: Seq<char>,
        user: User,
        pair: (String, String, i64, i64),
    ) -> bool {
        &&& self.message@ == message
        &&& self.user_id@ == user.id.text()
        &&& self.email@ == user.email@
        &&& self.access_token@ == pair.0@
        &&& self.refresh_token@ == pair.1@
        &&& self.expires_in_access == spec_seconds(pair.2 as int)
        &&& self.expires_in_refresh == spec_seconds(pair.3 as int)
    }
}

impl AuthService {
    pub fn new(token_service: TokenService) -> (service: AuthService)
        ensures
            service.token_service == token_service,
    {
        AuthService { token_service }
    }

    /// The user record behind an identity: `found` is what the store found
    /// under the user id. A user that the store does not hand out makes the
    /// credential invalid.
    pub fn get_session(&self, found: Result<User, StoreError>) -> (session: Result<User, CustomError>)
        ensures
            match found {
                Ok(user) => session == Ok::<User, CustomError>(user),
                Err(_) => session matches Err(error) && error@ == ErrorView::InvalidToken(
                    "User not found"@,
                ),
            },
    {
        match found {
            Ok(user) => Ok(user),
            Err(_) => Err(CustomError::InvalidToken("User not found".to_string())),
        }
    }

    // --- registration ---

    /// First step of a registration: `taken` is what the store answered to
    /// whether the name or the address is taken. For a new user the password
    /// is hashed, and the record to store comes back.
    pub fn register_user(&self, request: RegisterRequest, taken: Result<bool, StoreError>) -> (data:
        Result<CreateUserData, CustomError>)
        ensures
            match taken {
                Err(failure) => data matches Err(error) && error@ == ErrorView::DatabaseError(
                    failure.message@,
                ),
                Ok(true) => data matches Err(error) && error@ == ErrorView::Conflict(
                    "User with this username or email already exists"@,
                    "username or email"@,
                ),
                Ok(false) => match data {
                    Ok(record) => record.email == request.email && record.username
                        == request.username && password_accepted(
                        record.password@,
                        request.password@,
                    ) == Some(true),
                    Err(error) => error@ == ErrorView::InternalServerError,
                },
            },
    {
        let user_exist = match taken {
            Ok(answer) => answer,
            Err(failure) => { return Err(CustomError::DatabaseError(failure.message)); },
        };
        if user_exist {
            return Err(
                CustomError::Conflict(
                    "User with this username or email already exists".to_string(),
                    "username or email".to_string(),
                ),
            );
        }
        let salt = random_salt();
        let password_hash = match hash_password(request.password.as_str(), salt.as_str()) {
            Some(hash) => hash,
            None => { return Err(CustomError::InternalServerError); },
        };
        Ok(CreateUserData { email: request.email, username: request.username, password: password_hash })
    }

    /// Second step of a registration: `created` is what the store answered to
    /// storing the record. The new user gets preferences of their own.
    pub fn user_created(&self, created: Result<User, StoreError>) -> (next: Result<
        (User, UserPreferenceRequest),
        CustomError,
    >)
        ensures
            match created {
                Ok(user) => next == Ok::<(User, UserPreferenceRequest), CustomError>(
                    (user, UserPreferenceRequest { user_id: user.id }),
                ),
                Err(failure) => next matches Err(error) && error@ == ErrorView::DatabaseError(
                    failure.message@,
                ),
            },
    {
        match created {
            Ok(user) => {
                let preference = UserPreferenceRequest { user_id: user.id };
                Ok((user, preference))
            },
            Err(failure) => Err(CustomError::DatabaseError(failure.message)),
        }
    }

    /// Last step of a registration: `stored` is what the store answered to
    /// storing the preferences.
    pub fn user_registered(&self, user: User, stored: Result<(), StoreError>) -> (response: Result<
        RegisterResponse,
        CustomError,
    >)
        ensures
            match stored {
                Ok(_) => response matches Ok(body) && body.message@
                    == "User registered successfully"@ && body.user_id@ == user.id.text()
                    && body.email == user.email,
                Err(failure) => response matches Err(error) && error@
                    == ErrorView::DatabaseError(failure.message@),
            },
    {
        match stored {
            Ok(_) => Ok(
                RegisterResponse {
                    message: "User registered successfully".to_string(),
                    user_id: uuid_to_string(user.id),
                    email: user.email,
                },
            ),
            Err(failure) => Err(CustomError::DatabaseError(failure.message)),
        }
    }

    // --- signing in ---

    /// Whether the record is one that the password signs in to.
    pub open spec fn password_opens(user: User, password: Seq<char>) -> bool {
        user.password_hash matches Some(hash) && password_accepted(hash@, password) == Some(true)
    }

    /// Whether `response` signs `user` in with a pair issued at `now`.
    pub open spec fn signs_in(&self, response: LoginResponse, user: User, now: Timestamp) -> bool {
        &&& response.message@ == "User logged in successfully"@
        &&& response.user_id@ == user.id.text()
        &&& response.email@ == user.email@
        &&& self.token_service.issued_token(
            response.access_token@,
            user.id,
            now,
            "access"@,
            ACCESS_TOKEN_EXPIRATION as int,
        )
        &&& self.token_service.issued_token(
            response.refresh_token@,
            user.id,
            now,
            "refresh"@,
            REFRESH_TOKEN_EXPIRATION as int,
        )
        &&& response.expires_in_access == spec_seconds(ACCESS_TOKEN_EXPIRATION as int)
        &&& response.expires_in_refresh == spec_seconds(REFRESH_TOKEN_EXPIRATION as int)
    }

    /// Whether the two tokens of a response hold the texts of the two token
    /// identifiers: the access token the first, the refresh token the second.
    pub open spec fn identifies(&self, response: LoginResponse, access_id: Id, refresh_id: Id) -> bool {
        &&& self.token_service.identified(response.access_token@, access_id)
        &&& self.token_service.identified(response.refresh_token@, refresh_id)
    }

    /// Whether `response` signs `user` in with a pair issued at `now` with
    /// the two token identifiers.
    pub open spec fn signs_in_with(
        &self,
        response: LoginResponse,
        user: User,
        now: Timestamp,
        access_id: Id,
        refresh_id: Id,
    ) -> bool {
        self.signs_in(response, user, now) && self.identifies(response, access_id, refresh_id)
    }

    /// First step of a sign-in, as it goes at the instant `now` with the
    /// token identifiers that were drawn for it: `found` is what the store
    /// found under the address. Whatever is wrong with the address, the record
    /// or the password, the credentials are invalid, and nothing tells which.
    /// Otherwise a pair is issued, which may fail as issuing does.
    pub fn login_user_with(
        &self,
        found: Result<User, StoreError>,
        password: &str,
        now: Timestamp,
        access_id: Id,
        refresh_id: Id,
    ) -> (response: Result<LoginResponse, CustomError>)
        ensures
            match found {
                Ok(user) if Self::password_opens(user, password@) => match response {
                    Ok(body) => self.signs_in_with(body, user, now, access_id, refresh_id),
                    Err(error) => error@ == ErrorView::InternalServerError,
                },
                _ => response matches Err(error) && error@ == ErrorView::InvalidCredentials,
            },
    {
        let user = match found {
            Ok(user) => user,
            Err(_) => { return Err(CustomError::InvalidCredentials); },
        };
        let accepted = match &user.password_hash {
            Some(hash) => verify_password(hash.as_str(), password),
            None => None,
        };
        match accepted {
            Some(true) => {},
            _ => { return Err(CustomError::InvalidCredentials); },
        }
        let pair = self.token_service.generate_token_pair_with(
            user.id,
            now,
            access_id,
            refresh_id,
        )?;
        Ok(Self::token_response("User logged in successfully", &user, pair))
    }

    /// First step of a sign-in, as it goes at the instant `now`: a token
    /// identifier is drawn for each token.
    pub fn login_user_at(&self, found: Result<User, StoreError>, password: &str, now: Timestamp) -> (response:
        Result<LoginResponse, CustomError>)
        ensures
            match found {
                Ok(user) if Self::password_opens(user, password@) => match response {
                    Ok(body) => self.signs_in(body, user, now) && exists|
                        access_id: Id,
                        refresh_id: Id,
                    | #[trigger] self.signs_in_with(body, user, now, access_id, refresh_id),
                    Err(error) => error@ == ErrorView::InternalServerError,
                },
                _ => response matches Err(error) && error@ == ErrorView::InvalidCredentials,
            },
    {
        let access_id = TokenService::draw_token_id();
        let refresh_id = TokenService::draw_token_id();
        let response = self.login_user_with(found, password, now, access_id, refresh_id);
        assert(response matches Ok(body) ==> (found matches Ok(user) && self.signs_in_with(
            body,
            user,
            now,
            access_id,
            refresh_id,
        )));
        response
    }

    /// First step of a sign-in at the present instant.
    pub fn login_user(&self, found: Result<User, StoreError>, password: &str) -> (response: Result<
        LoginResponse,
        CustomError,
    >)
        ensures
            match found {
                Ok(user) if Self::password_opens(user, password@) => match response {
                    Ok(body) => exists|now: Timestamp, access_id: Id, refresh_id: Id| #[trigger]
                        self.signs_in_with(body, user, now, access_id, refresh_id),
                    Err(error) => error@ == ErrorView::InternalServerError,
                },
                _ => response matches Err(error) && error@ == ErrorView::InvalidCredentials,
            },
    {
        let now = Timestamp::now();
        let access_id = TokenService::draw_token_id();
        let refresh_id = TokenService::draw_token_id();
        let response = self.login_user_with(found, password, now, access_id, refresh_id);
        assert(response matches Ok(body) ==> (found matches Ok(user) && self.signs_in_with(
            body,
            user,
            now,
            access_id,
            refresh_id,
        )));
        response
    }

    /// Last step of a sign-in: `recorded` is what the store answered to
    /// noting the time of the sign-in.
    pub fn login_recorded(&self, response: LoginResponse, recorded: Result<(), StoreError>) -> (outcome:
        Result<LoginResponse, CustomError>)
        ensures
            match recorded {
                Ok(_) => outcome == Ok::<LoginResponse, CustomError>(response),
                Err(_) => outcome matches Err(error) && error@ == ErrorView::DatabaseError(
                    "Failed to update last login"@,
                ),
            },
    {
        match recorded {
            Ok(_) => Ok(response),
            Err(_) => Err(CustomError::DatabaseError("Failed to update last login".to_string())),
        }
    }

    // --- renewal ---

    /// Whether `outcome` is an answer to asking a refresh token for the user
    /// that it renews the session of.
    pub open spec fn refresh_user_outcome(&self, token: Seq<char>, outcome: Result<Id, CustomError>) -> bool {
        ||| outcome matches Err(error) && error@ == ErrorView::InvalidToken(
            "Invalid refresh token"@,
        )
        ||| self.token_service.sealed_refresh(token) matches Some(claims) && match claims.subject {
            Some(subject) => match Id::parsed(subject) {
                Some(user_id) => outcome == Ok::<Id, CustomError>(user_id),
                None => outcome matches Err(error) && error@ == ErrorView::InvalidToken(
                    "Invalid user ID format"@,
                ),
            },
            None => outcome matches Err(error) && error@ == ErrorView::InvalidToken(
                "sub claim not found"@,
            ),
        }
    }

    /// Whether `response` renews the session of `user` with a pair issued for
    /// `user_id` at `now`.
    pub open spec fn renews(&self, response: LoginResponse, user_id: Id, user: User, now: Timestamp) -> bool {
        &&& response.message@ == "Token refreshed successfully"@
        &&& response.user_id@ == user.id.text()
        &&& response.email@ == user.email@
        &&& self.token_service.issued_token(
            response.access_token@,
            user_id,
            now,
            "access"@,
            ACCESS_TOKEN_EXPIRATION as int,
        )
        &&& self.token_service.issued_token(
            response.refresh_token@,
            user_id,
            now,
            "refresh"@,
            REFRESH_TOKEN_EXPIRATION as int,
        )
        &&& response.expires_in_access == spec_seconds(ACCESS_TOKEN_EXPIRATION as int)
        &&& response.expires_in_refresh == spec_seconds(REFRESH_TOKEN_EXPIRATION as int)
    }

    /// The response that hands a freshly issued pair to its user.
    fn token_response(message: &str, user: &User, pair: (String, String, i64, i64)) -> (response:
        LoginResponse)
        requires
            0 <= pair.2 <= REFRESH_TOKEN_EXPIRATION,
            0 <= pair.3 <= REFRESH_TOKEN_EXPIRATION,
        ensures
            response.delivers(message@, *user, pair),
    {
        let (access_token, refresh_token, access_token_exp, refresh_token_exp) = pair;
        LoginResponse {
            message: message.to_string(),
            user_id: uuid_to_string(user.id),
            email: user.email.clone(),
            access_token,
            refresh_token,
            expires_in_access: access_token_exp * 60,
            expires_in_refresh: refresh_token_exp * 60,
        }
    }

    /// The user that the subject of a verified refresh token names: `subject`
    /// is the answer of the refresh check. A failed check is handed on, and a
    /// subject that is no user id makes the token invalid.
    pub fn refresh_user_id(subject: Result<String, CustomError>) -> (outcome: Result<Id, CustomError>)
        ensures
            match subject {
                Err(error) => outcome == Err::<Id, CustomError>(error),
                Ok(text) => match Id::parsed(text@) {
                    Some(id) => outcome == Ok::<Id, CustomError>(id),
                    None => outcome matches Err(e) && e@ == ErrorView::InvalidToken(
                        "Invalid user ID format"@,
                    ),
                },
            },
    {
        let user_id_str = match subject {
            Ok(text) => text,
            Err(error) => { return Err(error); },
        };
        match uuid_parse_str(user_id_str.as_str()) {
            Some(user_id) => Ok(user_id),
            None => Err(CustomError::InvalidToken("Invalid user ID format".to_string())),
        }
    }

    /// First step of a renewal: verifies the refresh token and reads the user
    /// id out of its subject. The caller then asks the store for that user.
    pub fn refresh_token_subject(&self, refresh_token: &str) -> (outcome: Result<Id, CustomError>)
        ensures
            self.refresh_user_outcome(refresh_token@, outcome),
    {
        Self::refresh_user_id(self.token_service.verify_refresh_token(refresh_token))
    }

    /// Whether `response` renews the session of `user` with a pair issued for
    /// `user_id` at `now` with the two token identifiers.
    pub open spec fn renews_with(
        &self,
        response: LoginResponse,
        user_id: Id,
        user: User,
        now: Timestamp,
        access_id: Id,
        refresh_id: Id,
    ) -> bool {
        self.renews(response, user_id, user, now) && self.identifies(
            response,
            access_id,
            refresh_id,
        )
    }

    /// Second step of a renewal, as it goes at the instant `now` with the
    /// token identifiers that were drawn for it: `found` is what the store
    /// found under the user id. A user that the store does not hand out makes
    /// the token invalid; otherwise a new pair is issued, which may fail as
    /// issuing does.
    pub fn refresh_token_with(
        &self,
        user_id: Id,
        found: Result<User, StoreError>,
        now: Timestamp,
        access_id: Id,
        refresh_id: Id,
    ) -> (response: Result<LoginResponse, CustomError>)
        ensures
            match found {
                Err(_) => response matches Err(error) && error@ == ErrorView::InvalidToken(
                    "User not found"@,
                ),
                Ok(user) => match response {
                    Ok(renewed) => self.renews_with(
                        renewed,
                        user_id,
                        user,
                        now,
                        access_id,
                        refresh_id,
                    ),
                    Err(error) => error@ == ErrorView::InternalServerError,
                },
            },
    {
        let user = match found {
            Ok(user) => user,
            Err(_) => { return Err(CustomError::InvalidToken("User not found".to_string())); },
        };
        let pair = self.token_service.generate_token_pair_with(
            user_id,
            now,
            access_id,
            refresh_id,
        )?;
        Ok(Self::token_response("Token refreshed successfully", &user, pair))
    }

    /// Second step of a renewal, as it goes at the instant `now`: a token
    /// identifier is drawn for each token.
    pub fn refresh_token_at(&self, user_id: Id, found: Result<User, StoreError>, now: Timestamp) -> (response:
        Result<LoginResponse, CustomError>)
        ensures
            match found {
                Err(_) => response matches Err(error) && error@ == ErrorView::InvalidToken(
                    "User not found"@,
                ),
                Ok(user) => match response {
                    Ok(renewed) => self.renews(renewed, user_id, user, now) && exists|
                        access_id: Id,
                        refresh_id: Id,
                    | #[trigger] self.renews_with(renewed, user_id, user, now, access_id, refresh_id),
                    Err(error) => error@ == ErrorView::InternalServerError,
                },
            },
    {
        let access_id = TokenService::draw_token_id();
        let refresh_id = TokenService::draw_token_id();
        let response = self.refresh_token_with(user_id, found, now, access_id, refresh_id);
        assert(response matches Ok(renewed) ==> (found matches Ok(user) && self.renews_with(
            renewed,
            user_id,
            user,
            now,
            access_id,
            refresh_id,
        )));
        response
    }

    /// Second step of a renewal at the present instant.
    pub fn refresh_token(&self, user_id: Id, found: Result<User, StoreError>) -> (response: Result<
        LoginResponse,
        CustomError,
    >)
        ensures
            match found {
                Err(_) => response matches Err(error) && error@ == ErrorView::InvalidToken(
                    "User not found"@,
                ),
                Ok(user) => match response {
                    Ok(renewed) => exists|now: Timestamp, access_id: Id, refresh_id: Id| #[trigger]
                        self.renews_with(renewed, user_id, user, now, access_id, refresh_id),
                    Err(error) => error@ == ErrorView::InternalServerError,
                },
            },
    {
        let now = Timestamp::now();
        let access_id = TokenService::draw_token_id();
        let refresh_id = TokenService::draw_token_id();
        let response = self.refresh_token_with(user_id, found, now, access_id, refresh_id);
        assert(response matches Ok(renewed) ==> (found matches Ok(user) && self.renews_with(
            renewed,
            user_id,
            user,
            now,
            access_id,
            refresh_id,
        )));
        response
    }
}

/// A renewal hands out a new pair. Where the token identifiers drawn for the
/// renewal are different from those of the pair that the refresh token came
/// from, each token of the response is different from each token of that
/// pair; and the new tokens name the same user.
pub proof fn lemma_renewed_pair_is_new(
    service: AuthService,
    user_id: Id,
    user: User,
    issued_at: Timestamp,
    old_ids: (Id, Id),
    pair: (String, String, i64, i64),
    renewed_at: Timestamp,
    new_ids: (Id, Id),
    response: LoginResponse,
)
    requires
        service.token_service.issued_with(user_id, issued_at, old_ids.0, old_ids.1, pair),
        service.renews_with(response, user_id, user, renewed_at, new_ids.0, new_ids.1),
        new_ids.0 != old_ids.0,
        new_ids.0 != old_ids.1,
        new_ids.1 != old_ids.0,
        new_ids.1 != old_ids.1,
    ensures
        response.access_token@ != pair.0@,
        response.access_token@ != pair.1@,
        response.refresh_token@ != pair.0@,
        response.refresh_token@ != pair.1@,
        service.token_service.sealed(response.access_token@)->Some_0.subject == Some(
            user_id.text(),
        ),
        service.token_service.sealed(response.refresh_token@)->Some_0.subject == Some(
            user_id.text(),
        ),
{
    let tokens = service.token_service;
    lemma_identifiers_tell_tokens_apart(
        tokens,
        response.access_token@,
        pair.0@,
        new_ids.0,
        old_ids.0,
    );
    lemma_identifiers_tell_tokens_apart(
        tokens,
        response.access_token@,
        pair.1@,
        new_ids.0,
        old_ids.1,
    );
    lemma_identifiers_tell_tokens_apart(
        tokens,
        response.refresh_token@,
        pair.0@,
        new_ids.1,
        old_ids.0,
    );
    lemma_identifiers_tell_tokens_apart(
        tokens,
        response.refresh_token@,
        pair.1@,
        new_ids.1,
        old_ids.1,
    );
}

} // verus!
