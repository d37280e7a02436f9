//! What the organization service makes of the store's answers.

use vstd::prelude::*;
use vstd::string::*;
use crate::errors::{answers, CustomError, ErrorView, StoreError};
use crate::clock::Timestamp;
use crate::ident::{uuid_new_v4, uuid_text, uuid_to_string, Id};
use crate::models::auth::User;
use crate::models::org::{MemberRole, Org};
use crate::models::user_preferences::{UserPreference, UserPreferenceUpdateRequest};

verus! {

pub struct OrgService;

/// Days that an invitation stays open.
pub const INVITE_DAYS: i64 = 7;


impl OrgService {
    pub fn new() -> OrgService {
        OrgService
    }

    /// The error that a failed lookup of the organization `id` becomes.
    pub open spec fn org_lookup_error(id: Id, failure: StoreError) -> ErrorView {
        if failure.row_not_found {
            ErrorView::NotFound("Org with id: "@ + id.text() + " not found"@)
        } else {
            ErrorView::DatabaseError(failure.message@)
        }
    }

    /// What the store found, changed or deleted under the organization `id`.
    pub fn org_found<T>(&self, id: Id, found: Result<T, StoreError>) -> (outcome: Result<T, CustomError>)
        ensures
            match found {
                Ok(stored) => outcome == Ok::<T, CustomError>(stored),
                Err(failure) => outcome matches Err(error) && error@ == Self::org_lookup_error(
                    id,
                    failure,
                ),
            },
    {
        match found {
            Ok(stored) => Ok(stored),
            Err(failure) => {
                if failure.row_not_found {
                    let resource = "Org with id: ".to_string().concat(
                        uuid_to_string(id).as_str(),
                    ).concat(" not found");
                    Err(CustomError::NotFound(resource))
                } else {
                    Err(CustomError::DatabaseError(failure.message))
                }
            },
        }
    }

    /// The organization `id` as its member sees it: `found` is what the store
    /// found for the pair of organization and active member.
    pub fn get_org(&self, id: Id, found: Result<Org, StoreError>) -> (org: Result<Org, CustomError>)
        ensures
            match found {
                Ok(stored) => org == Ok::<Org, CustomError>(stored),
                Err(failure) => org matches Err(error) && error@ == Self::org_lookup_error(
                    id,
                    failure,
                ),
            },
    {
        self.org_found(id, found)
    }

    /// What the lookup of a role comes to: a pair without a row has no role,
    /// and any other failure is the store's.
    pub open spec fn role_lookup(found: Result<MemberRole, StoreError>) -> Result<
        Option<MemberRole>,
        ErrorView,
    > {
        match found {
            Ok(stored) => Ok(Some(stored)),
            Err(failure) => if failure.row_not_found {
                Ok(None)
            } else {
                Err(ErrorView::DatabaseError(failure.message@))
            },
        }
    }

    /// The role of a user in an organization: `found` is what the store found
    /// for the pair of organization and active member. A pair without a row
    /// has no role; any other failure is the store's.
    pub fn check_user_role(&self, found: Result<MemberRole, StoreError>) -> (role: Result<
        Option<MemberRole>,
        CustomError,
    >)
        ensures
            answers(role, Self::role_lookup(found)),
    {
        match found {
            Ok(role) => Ok(Some(role)),
            Err(failure) => {
                if failure.row_not_found {
                    Ok(None)
                } else {
                    Err(CustomError::DatabaseError(failure.message))
                }
            },
        }
    }

    /// The role that a caller is told to hold in an organization: `found` is
    /// what the store found for the pair of organization and active member.
    /// Any failure, a missing row too, is answered as the store's, in its own
    /// words.
    pub fn session_role(&self, found: Result<MemberRole, StoreError>) -> (held: Result<
        MemberRole,
        CustomError,
    >)
        ensures
            match found {
                Ok(stored) => held == Ok::<MemberRole, CustomError>(stored),
                Err(failure) => held matches Err(error) && error@ == ErrorView::DatabaseError(
                    failure.message@,
                ),
            },
    {
        match found {
            Ok(stored) => Ok(stored),
            Err(failure) => Err(CustomError::DatabaseError(failure.message)),
        }
    }

    /// What a failure of the store becomes where nothing else is known of it.
    pub fn stored<T>(&self, found: Result<T, StoreError>) -> (outcome: Result<T, CustomError>)
        ensures
            match found {
                Ok(value) => outcome == Ok::<T, CustomError>(value),
                Err(failure) => outcome matches Err(error) && error@ == ErrorView::DatabaseError(
                    failure.message@,
                ),
            },
    {
        match found {
            Ok(value) => Ok(value),
            Err(failure) => Err(CustomError::DatabaseError(failure.message)),
        }
    }

    /// Whether a member can be changed or removed: `is_member` is what the
    /// store answered to whether the user is an active member of the
    /// organization.
    pub fn member_found(&self, is_member: Result<bool, StoreError>) -> (outcome: Result<(), CustomError>)
        ensures
            match is_member {
                Ok(true) => outcome is Ok,
                Ok(false) => outcome matches Err(error) && error@ == ErrorView::NotFound(
                    "Member not found"@,
                ),
                Err(failure) => outcome matches Err(error) && error@ == ErrorView::DatabaseError(
                    failure.message@,
                ),
            },
    {
        if !self.stored(is_member)? {
            return Err(CustomError::NotFound("Member not found".to_string()));
        }
        Ok(())
    }

    /// Whether an invitation can go out: `invitee` is what the store found
    /// under the address. Only users of the application are invited.
    pub fn invitee_found(&self, invitee: Result<User, StoreError>) -> (outcome: Result<(), CustomError>)
        ensures
            match invitee {
                Ok(_) => outcome is Ok,
                Err(_) => outcome matches Err(error) && error@ == ErrorView::NotFound(
                    "User not found"@,
                ),
            },
    {
        match invitee {
            Ok(_) => Ok(()),
            Err(_) => Err(CustomError::NotFound("User not found".to_string())),
        }
    }

    /// The invitation, or the answer to declining it, as the store gave it
    /// under a token.
    pub fn invite_found<T>(&self, found: Result<T, StoreError>) -> (outcome: Result<T, CustomError>)
        ensures
            match found {
                Ok(value) => outcome == Ok::<T, CustomError>(value),
                Err(failure) => outcome matches Err(error) && error@ == (if failure.row_not_found {
                    ErrorView::NotFound("Invite not found"@)
                } else {
                    ErrorView::DatabaseError(failure.message@)
                }),
            },
    {
        match found {
            Ok(value) => Ok(value),
            Err(failure) => {
                if failure.row_not_found {
                    Err(CustomError::NotFound("Invite not found".to_string()))
                } else {
                    Err(CustomError::DatabaseError(failure.message))
                }
            },
        }
    }

    /// The preferences of the creator of a new organization: as they were,
    /// with the new organization as the default one.
    pub fn default_org_update(&self, preferences: UserPreference, org_id: Id) -> (update:
        UserPreferenceUpdateRequest)
        ensures
            update.default_org_id == Some(org_id),
            update.theme == preferences.theme,
            update.language == preferences.language,
            update.cta_color == preferences.cta_color,
            update.cta_text_color == preferences.cta_text_color,
            update.font_size == preferences.font_size,
    {
        UserPreferenceUpdateRequest {
            default_org_id: Some(org_id),
            theme: preferences.theme,
            language: preferences.language,
            cta_color: preferences.cta_color,
            cta_text_color: preferences.cta_text_color,
            font_size: preferences.font_size,
        }
    }

    /// The instant at which an invitation made at `now` runs out, or `None`
    /// where the count leaves the range of the representation.
    pub fn invite_expiry(&self, now: Timestamp) -> (expires_at: Option<Timestamp>)
        ensures
            match expires_at {
                Some(t) => t.unix_nanos == now.spec_plus_minutes(INVITE_DAYS * 24 * 60),
                None => !(i128::MIN <= now.spec_plus_minutes(INVITE_DAYS * 24 * 60) <= i128::MAX),
            },
    {
        now.plus_minutes(INVITE_DAYS * 24 * 60)
    }

    /// A token for a new invitation: a random identifier as text.
    pub fn invite_token(&self) -> (token: String)
        ensures
            exists|value: int| token@ == #[trigger] uuid_text(value),
    {
        let id = uuid_new_v4();
        let token = uuid_to_string(id);
        assert(token@ == uuid_text(id.value as int));
        token
    }
}

} // verus!
