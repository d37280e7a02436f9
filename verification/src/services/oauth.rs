//! What signing in through GitHub decides once GitHub has answered.

use vstd::prelude::*;
use vstd::string::*;
use crate::errors::{CustomError, ErrorView};
use crate::models::auth::{CreateGithubUser, UpdateGithubUser, User, UserGithubResponse};
use crate::models::github::{UserEmail, UserInfo};
use crate::text::{decimal_text, text_view, to_decimal};

verus! {

pub struct OauthService;

/// The address of the first entry that is marked primary.
pub open spec fn first_primary(emails: Seq<UserEmail>) -> Option<String>
    decreases emails.len(),
{
    if emails.len() == 0 {
        None
    } else if emails[0].primary {
        Some(emails[0].email)
    } else {
        first_primary(emails.drop_first())
    }
}

/// A new value for a stored text, where the stored one differs from what
/// GitHub reports.
pub open spec fn changed_text(stored: Option<String>, reported: String) -> Option<Seq<char>> {
    if text_view(stored) != Some(reported@) {
        Some(reported@)
    } else {
        None
    }
}

impl OauthService {
    pub fn new() -> OauthService {
        OauthService
    }

    /// The primary address among those that GitHub lists for the user. A user
    /// without one cannot sign in.
    pub fn primary_email(&self, emails: &Vec<UserEmail>) -> (email: Result<String, CustomError>)
        ensures
            match first_primary(emails@) {
                Some(address) => email == Ok::<String, CustomError>(address),
                None => email matches Err(error) && error@ == ErrorView::ExternalServiceError(
                    "Primary email not found"@,
                ),
            },
    {
        let mut i: usize = 0;
        assert(emails@.skip(0) =~= emails@);
        while i < emails.len()
            invariant
                i <= emails@.len(),
                first_primary(emails@) == first_primary(emails@.skip(i as int)),
            decreases emails@.len() - i,
        {
            assert(emails@.skip(i as int)[0] == emails@[i as int]);
            if emails[i].primary {
                return Ok(emails[i].email.clone());
            }
            assert(emails@.skip(i as int).drop_first() =~= emails@.skip(i + 1));
            i += 1;
        }
        Err(CustomError::ExternalServiceError("Primary email not found".to_string()))
    }

    /// What GitHub reported of a user, with the primary address among those
    /// that it lists in place of the address in the report, and that address.
    /// A user without a primary address cannot sign in.
    pub fn get_user_info(&self, reported: UserInfo, emails: &Vec<UserEmail>) -> (info: Result<
        (UserInfo, String),
        CustomError,
    >)
        ensures
            match first_primary(emails@) {
                Some(address) => info == Ok::<(UserInfo, String), CustomError>(
                    (UserInfo { email: Some(address), ..reported }, address),
                ),
                None => info matches Err(error) && error@ == ErrorView::ExternalServiceError(
                    "Primary email not found"@,
                ),
            },
    {
        let email = self.primary_email(emails)?;
        let mut user_info = reported;
        user_info.email = Some(email.clone());
        Ok((user_info, email))
    }

    /// The record to store for a user whom GitHub vouches for and the store
    /// does not know.
    pub fn new_github_user(&self, user_info: &UserInfo, user_email: &str) -> (data: CreateGithubUser)
        ensures
            data.email@ == user_email@,
            data.username == user_info.login,
            data.github_id@ == decimal_text(user_info.id as nat),
            data.github_url == user_info.html_url,
            data.avatar_url == Some(user_info.avatar_url),
    {
        CreateGithubUser {
            email: user_email.to_string(),
            username: user_info.login.clone(),
            github_id: to_decimal(user_info.id),
            github_url: user_info.html_url.clone(),
            avatar_url: Some(user_info.avatar_url.clone()),
        }
    }

    /// Notes in `update_user` what of the stored record differs from what
    /// GitHub reports: the profile address, the avatar, the email. Says
    /// whether anything does.
    pub fn collect_user_updates(
        &self,
        update_user: &mut UpdateGithubUser,
        user: &User,
        user_info: &UserInfo,
        user_email: &str,
    ) -> (needs_update: bool)
        ensures
            text_view(final(update_user).github_url) == match changed_text(
                user.github_url,
                user_info.html_url,
            ) {
                Some(url) => Some(url),
                None => text_view(old(update_user).github_url),
            },
            text_view(final(update_user).avatar_url) == match changed_text(
                user.avatar_url,
                user_info.avatar_url,
            ) {
                Some(url) => Some(url),
                None => text_view(old(update_user).avatar_url),
            },
            text_view(final(update_user).email) == if user.email@ != user_email@ {
                Some(user_email@)
            } else {
                text_view(old(update_user).email)
            },
            final(update_user).github_id == old(update_user).github_id,
            needs_update == (changed_text(user.github_url, user_info.html_url) is Some
                || changed_text(user.avatar_url, user_info.avatar_url) is Some || user.email@
                != user_email@),
    {
        let mut needs_update = false;
        if !same_text(&user.github_url, &user_info.html_url) {
            update_user.github_url = Some(user_info.html_url.clone());
            needs_update = true;
        }
        if !same_text(&user.avatar_url, &user_info.avatar_url) {
            update_user.avatar_url = Some(user_info.avatar_url.clone());
            needs_update = true;
        }
        if user.email != user_email.to_string() {
            update_user.email = Some(user_email.to_string());
            needs_update = true;
        }
        needs_update
    }

    /// What to store of a user who signs in through GitHub again: the
    /// differences to the stored record, or `None` where there are none.
    pub fn update_user_if_needed(&self, user: &User, user_info: &UserInfo, user_email: &str) -> (update:
        Option<UpdateGithubUser>)
        ensures
            match update {
                Some(changes) => {
                    &&& changes.github_id == user.github_id
                    &&& text_view(changes.github_url) == changed_text(
                        user.github_url,
                        user_info.html_url,
                    )
                    &&& text_view(changes.avatar_url) == changed_text(
                        user.avatar_url,
                        user_info.avatar_url,
                    )
                    &&& text_view(changes.email) == if user.email@ != user_email@ {
                        Some(user_email@)
                    } else {
                        None
                    }
                },
                None => changed_text(user.github_url, user_info.html_url) is None && changed_text(
                    user.avatar_url,
                    user_info.avatar_url,
                ) is None && user.email@ == user_email@,
            },
            update is Some <==> (changed_text(user.github_url, user_info.html_url) is Some
                || changed_text(user.avatar_url, user_info.avatar_url) is Some || user.email@
                != user_email@),
    {
        let mut update_user = UpdateGithubUser {
            email: None,
            avatar_url: None,
            github_id: crate::models::auth::duplicate_text(&user.github_id),
            github_url: None,
        };
        if self.collect_user_updates(&mut update_user, user, user_info, user_email) {
            Some(update_user)
        } else {
            None
        }
    }

    /// The response that signs a GitHub user in: the record and a pair issued
    /// for it. A pair that could not be issued is an internal error.
    pub fn github_response(&self, user: User, pair: Result<(String, String, i64, i64), CustomError>) -> (response:
        Result<UserGithubResponse, CustomError>)
        ensures
            match pair {
                Ok(issued) => response matches Ok(body) && body.user == user && body.access_token
                    == issued.0 && body.refresh_token == issued.1
                    && body.access_token_expiration == issued.2
                    && body.refresh_token_expiration == issued.3,
                Err(_) => response matches Err(error) && error@
                    == ErrorView::InternalServerError,
            },
    {
        match pair {
            Ok((access_token, refresh_token, access_token_expiration, refresh_token_expiration)) => Ok(
                UserGithubResponse {
                    user,
                    access_token,
                    refresh_token,
                    access_token_expiration,
                    refresh_token_expiration,
                },
            ),
            Err(_) => Err(CustomError::InternalServerError),
        }
    }
}

/// Whether a stored text is there and is the reported one.
fn same_text(stored: &Option<String>, reported: &String) -> (same: bool)
    ensures
        same == (text_view(*stored) == Some(reported@)),
{
    match stored {
        Some(text) => *text == *reported,
        None => false,
    }
}

} // verus!
