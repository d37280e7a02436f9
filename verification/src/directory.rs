//! A store of users, organizations and memberships held in memory.
//!
//! It answers the three lookups that the guards consume, and states what each
//! of them means: a user record by id, an organization as one of its active
//! members sees it, and the role of an active member.

use vstd::prelude::*;
use vstd::string::*;
use crate::errors::StoreError;
use crate::ident::Id;
use crate::models::auth::User;
use crate::models::org::{MemberRole, MemberStatus, Org, OrgMember};

verus! {

pub struct Directory {
    pub users: Vec<User>,
    pub orgs: Vec<Org>,
    pub members: Vec<OrgMember>,
}

/// The first user record with the id.
pub open spec fn first_user(users: Seq<User>, id: Id) -> Option<User>
    decreases users.len(),
{
    if users.len() == 0 {
        None
    } else if users[0].id == id {
        Some(users[0])
    } else {
        first_user(users.drop_first(), id)
    }
}

/// The first organization with the id.
pub open spec fn first_org(orgs: Seq<Org>, id: Id) -> Option<Org>
    decreases orgs.len(),
{
    if orgs.len() == 0 {
        None
    } else if orgs[0].id == id {
        Some(orgs[0])
    } else {
        first_org(orgs.drop_first(), id)
    }
}

/// Whether the row is the active membership of the user in the organization.
pub open spec fn is_active_row(row: OrgMember, org_id: Id, user_id: Id) -> bool {
    row.org_id == org_id && row.user_id == user_id && row.status == MemberStatus::Active
}

/// The first active membership of the user in the organization.
pub open spec fn first_active(members: Seq<OrgMember>, org_id: Id, user_id: Id) -> Option<
    OrgMember,
>
    decreases members.len(),
{
    if members.len() == 0 {
        None
    } else if is_active_row(members[0], org_id, user_id) {
        Some(members[0])
    } else {
        first_active(members.drop_first(), org_id, user_id)
    }
}

/// There is a first active membership of the user in the organization
/// exactly where some row is one.
pub proof fn lemma_first_active(members: Seq<OrgMember>, org_id: Id, user_id: Id)
    ensures
        first_active(members, org_id, user_id) is None <==> forall|i: int|
            0 <= i < members.len() ==> !is_active_row(#[trigger] members[i], org_id, user_id),
        first_active(members, org_id, user_id) matches Some(row) ==> members.contains(row)
            && is_active_row(row, org_id, user_id),
    decreases members.len(),
{
    if members.len() > 0 {
        let rest = members.drop_first();
        lemma_first_active(rest, org_id, user_id);
        assert forall|i: int| 0 < i < members.len() implies members[i] == rest[i - 1] by {}
        if !is_active_row(members[0], org_id, user_id) {
            if first_active(rest, org_id, user_id) is None {
                assert forall|i: int| 0 <= i < members.len() implies !is_active_row(
                    #[trigger] members[i],
                    org_id,
                    user_id,
                ) by {
                    if i > 0 {
                        assert(members[i] == rest[i - 1]);
                    }
                }
            } else {
                let row = first_active(rest, org_id, user_id)->Some_0;
                let j = choose|j: int| 0 <= j < rest.len() && rest[j] == row;
                assert(members[j + 1] == row);
            }
        }
    }
}

/// The first user record with an id has that id.
pub proof fn lemma_first_user_has_id(users: Seq<User>, id: Id)
    ensures
        first_user(users, id) matches Some(user) ==> user.id == id && users.contains(user),
    decreases users.len(),
{
    if users.len() > 0 && users[0].id != id {
        let rest = users.drop_first();
        lemma_first_user_has_id(rest, id);
        if first_user(rest, id) is Some {
            let user = first_user(rest, id)->Some_0;
            let j = choose|j: int| 0 <= j < rest.len() && rest[j] == user;
            assert(users[j + 1] == user);
        }
    }
}

/// The first organization with an id has that id.
pub proof fn lemma_first_org_has_id(orgs: Seq<Org>, id: Id)
    ensures
        first_org(orgs, id) matches Some(org) ==> org.id == id && orgs.contains(org),
    decreases orgs.len(),
{
    if orgs.len() > 0 && orgs[0].id != id {
        let rest = orgs.drop_first();
        lemma_first_org_has_id(rest, id);
        if first_org(rest, id) is Some {
            let org = first_org(rest, id)->Some_0;
            let j = choose|j: int| 0 <= j < rest.len() && rest[j] == org;
            assert(orgs[j + 1] == org);
        }
    }
}

/// Where each pair of organization and user has at most one membership row,
/// the row of a pair decides alone: its user is an active member with its
/// role where its status is active, and no member at all where it is not.
pub proof fn lemma_status_decides(directory: &Directory, row: OrgMember)
    requires
        directory.one_row_per_pair(),
        directory.members@.contains(row),
    ensures
        directory.active_membership(row.org_id, row.user_id) == (if row.status
            == MemberStatus::Active {
            Some(row)
        } else {
            None
        }),
        directory.active_role(row.org_id, row.user_id) == (if row.status == MemberStatus::Active {
            Some(row.role)
        } else {
            None
        }),
{
    let members = directory.members@;
    lemma_first_active(members, row.org_id, row.user_id);
    let k = choose|k: int| 0 <= k < members.len() && members[k] == row;
    if first_active(members, row.org_id, row.user_id) is Some {
        let found = first_active(members, row.org_id, row.user_id)->Some_0;
        let j = choose|j: int| 0 <= j < members.len() && members[j] == found;
        if j != k {
            if j < k {
                assert(!(members[j].org_id == members[k].org_id && members[j].user_id
                    == members[k].user_id));
            } else {
                assert(!(members[k].org_id == members[j].org_id && members[k].user_id
                    == members[j].user_id));
            }
        }
    } else if row.status == MemberStatus::Active {
        assert(is_active_row(members[k], row.org_id, row.user_id));
    }
}

fn row_not_found() -> (failure: StoreError)
    ensures
        failure.row_not_found,
{
    StoreError {
        row_not_found: true,
        message: "no rows returned by a query that expected to return at least one row".to_string(),
    }
}

impl Directory {
    pub fn new() -> (directory: Directory)
        ensures
            directory.users@.len() == 0,
            directory.orgs@.len() == 0,
            directory.members@.len() == 0,
    {
        Directory { users: Vec::new(), orgs: Vec::new(), members: Vec::new() }
    }

    /// The membership that gives the user standing in the organization, if
    /// there is one.
    pub open spec fn active_membership(&self, org_id: Id, user_id: Id) -> Option<OrgMember> {
        first_active(self.members@, org_id, user_id)
    }

    /// The organization as the user sees it: there only for an active member.
    pub open spec fn visible_org(&self, org_id: Id, user_id: Id) -> Option<Org> {
        if self.active_membership(org_id, user_id) is Some {
            first_org(self.orgs@, org_id)
        } else {
            None
        }
    }

    /// The role that the user holds in the organization as an active member.
    pub open spec fn active_role(&self, org_id: Id, user_id: Id) -> Option<MemberRole> {
        match self.active_membership(org_id, user_id) {
            Some(row) => Some(row.role),
            None => None,
        }
    }

    /// Whether each pair of organization and user has at most one membership
    /// row.
    pub open spec fn one_row_per_pair(&self) -> bool {
        forall|i: int, j: int|
            0 <= i < j < self.members@.len() ==> !(#[trigger] self.members@[i].org_id
                == #[trigger] self.members@[j].org_id && self.members@[i].user_id
                == self.members@[j].user_id)
    }

    /// Whether the store holds a membership row for the pair.
    pub open spec fn has_row(&self, org_id: Id, user_id: Id) -> bool {
        exists|i: int|
            0 <= i < self.members@.len() && (#[trigger] self.members@[i]).org_id == org_id
                && self.members@[i].user_id == user_id
    }

    fn holds_row(&self, org_id: Id, user_id: Id) -> (held: bool)
        ensures
            held == self.has_row(org_id, user_id),
    {
        let mut i: usize = 0;
        while i < self.members.len()
            invariant
                i <= self.members@.len(),
                forall|j: int|
                    0 <= j < i ==> !((#[trigger] self.members@[j]).org_id == org_id
                        && self.members@[j].user_id == user_id),
            decreases self.members@.len() - i,
        {
            if self.members[i].org_id == org_id && self.members[i].user_id == user_id {
                return true;
            }
            i += 1;
        }
        false
    }

    /// Stores a membership, unless the store holds one for the same pair of
    /// organization and user already: then the store stays as it is and the
    /// membership comes back.
    pub fn add_member(&mut self, row: OrgMember) -> (refused: Option<OrgMember>)
        ensures
            old(self).one_row_per_pair() ==> final(self).one_row_per_pair(),
            final(self).users@ == old(self).users@,
            final(self).orgs@ == old(self).orgs@,
            match refused {
                Some(back) => back == row && old(self).has_row(row.org_id, row.user_id)
                    && final(self).members@ == old(self).members@,
                None => !old(self).has_row(row.org_id, row.user_id) && final(self).members@
                    == old(self).members@.push(row),
            },
    {
        if self.holds_row(row.org_id, row.user_id) {
            return Some(row);
        }
        self.members.push(row);
        None
    }

    fn find_active(&self, org_id: Id, user_id: Id) -> (row: Option<OrgMember>)
        ensures
            row == self.active_membership(org_id, user_id),
    {
        let mut i: usize = 0;
        assert(self.members@.skip(0) =~= self.members@);
        while i < self.members.len()
            invariant
                i <= self.members@.len(),
                first_active(self.members@, org_id, user_id) == first_active(
                    self.members@.skip(i as int),
                    org_id,
                    user_id,
                ),
            decreases self.members@.len() - i,
        {
            let row = self.members[i];
            assert(self.members@.skip(i as int)[0] == row);
            if row.org_id == org_id && row.user_id == user_id && row.status
                == MemberStatus::Active {
                return Some(row);
            }
            assert(self.members@.skip(i as int).drop_first() == self.members@.skip(i + 1));
            i += 1;
        }
        None
    }

    /// The user record with the id.
    pub fn get_user_by_id(&self, id: Id) -> (found: Result<User, StoreError>)
        ensures
            match found {
                Ok(user) => first_user(self.users@, id) == Some(user),
                Err(failure) => first_user(self.users@, id) is None && failure.row_not_found,
            },
    {
        let mut i: usize = 0;
        assert(self.users@.skip(0) =~= self.users@);
        while i < self.users.len()
            invariant
                i <= self.users@.len(),
                first_user(self.users@, id) == first_user(self.users@.skip(i as int), id),
            decreases self.users@.len() - i,
        {
            assert(self.users@.skip(i as int)[0] == self.users@[i as int]);
            if self.users[i].id == id {
                return Ok(self.users[i].duplicate());
            }
            assert(self.users@.skip(i as int).drop_first() == self.users@.skip(i + 1));
            i += 1;
        }
        Err(row_not_found())
    }

    /// The organization with the id, for a user who is an active member of
    /// it. To anyone else the organization is not there.
    pub fn find_by_id(&self, id: Id, user_id: Id) -> (found: Result<Org, StoreError>)
        ensures
            match found {
                Ok(org) => self.visible_org(id, user_id) == Some(org),
                Err(failure) => self.visible_org(id, user_id) is None && failure.row_not_found,
            },
    {
        if self.find_active(id, user_id).is_none() {
            return Err(row_not_found());
        }
        let mut i: usize = 0;
        assert(self.orgs@.skip(0) =~= self.orgs@);
        while i < self.orgs.len()
            invariant
                i <= self.orgs@.len(),
                self.active_membership(id, user_id) is Some,
                first_org(self.orgs@, id) == first_org(self.orgs@.skip(i as int), id),
            decreases self.orgs@.len() - i,
        {
            assert(self.orgs@.skip(i as int)[0] == self.orgs@[i as int]);
            if self.orgs[i].id == id {
                return Ok(self.orgs[i].duplicate());
            }
            assert(self.orgs@.skip(i as int).drop_first() == self.orgs@.skip(i + 1));
            i += 1;
        }
        Err(row_not_found())
    }

    /// The role of the user in the organization, for an active member.
    pub fn check_user_role(&self, org_id: Id, user_id: Id) -> (found: Result<MemberRole, StoreError>)
        ensures
            match found {
                Ok(role) => self.active_role(org_id, user_id) == Some(role),
                Err(failure) => self.active_role(org_id, user_id) is None && failure.row_not_found,
            },
    {
        match self.find_active(org_id, user_id) {
            Some(row) => Ok(row.role),
            None => Err(row_not_found()),
        }
    }

    /// Whether the user is an active member of the organization.
    pub fn is_user_member_of_org(&self, org_id: Id, user_id: Id) -> (member: bool)
        ensures
            member == self.active_membership(org_id, user_id).is_some(),
    {
        self.find_active(org_id, user_id).is_some()
    }
}

} // verus!
