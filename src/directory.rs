use vstd::prelude::*;

use crate::model::{Permission, Role, User};
use crate::text::same_text;

verus! {

/// A snapshot of the user, role and permission stores that a check reads.
/// An id that no record carries is a failed lookup: the record does not
/// exist, or the store could not be read for it.
pub struct Directory {
    pub users: Vec<User>,
    pub roles: Vec<Role>,
    pub permissions: Vec<Permission>,
}

/// The first user with id `id`.
pub open spec fn user_lookup(users: Seq<User>, id: Seq<char>) -> Option<User>
    decreases users.len(),
{
    if users.len() == 0 {
        None
    } else if users[0].id@ == id {
        Some(users[0])
    } else {
        user_lookup(users.drop_first(), id)
    }
}

/// The first role with id `id`.
pub open spec fn role_lookup(roles: Seq<Role>, id: Seq<char>) -> Option<Role>
    decreases roles.len(),
{
    if roles.len() == 0 {
        None
    } else if roles[0].id@ == id {
        Some(roles[0])
    } else {
        role_lookup(roles.drop_first(), id)
    }
}

/// The first permission with id `id`.
pub open spec fn permission_lookup(permissions: Seq<Permission>, id: Seq<char>) -> Option<Permission>
    decreases permissions.len(),
{
    if permissions.len() == 0 {
        None
    } else if permissions[0].id@ == id {
        Some(permissions[0])
    } else {
        permission_lookup(permissions.drop_first(), id)
    }
}

impl Directory {
    pub fn new(users: Vec<User>, roles: Vec<Role>, permissions: Vec<Permission>) -> (r: Directory)
        ensures
            r.users@ == users@,
            r.roles@ == roles@,
            r.permissions@ == permissions@,
    {
        Directory { users, roles, permissions }
    }

    /// Looks a user up by id.
    pub fn find_user(&self, id: &str) -> (r: Option<&User>)
        ensures
            match r {
                Some(u) => user_lookup(self.users@, id@) == Some(*u),
                None => user_lookup(self.users@, id@) is None,
            },
    {
        let mut i: usize = 0;
        assert(self.users@.subrange(0, self.users@.len() as int) == self.users@);
        while i < self.users.len()
            invariant
                i <= self.users@.len(),
                user_lookup(self.users@, id@) == user_lookup(
                    self.users@.subrange(i as int, self.users@.len() as int),
                    id@,
                ),
            decreases self.users@.len() - i,
        {
            let ghost rest = self.users@.subrange(i as int, self.users@.len() as int);
            if same_text(self.users[i].id.as_str(), id) {
                assert(rest[0] == self.users@[i as int]);
                return Some(&self.users[i]);
            }
            assert(rest.drop_first() == self.users@.subrange(i + 1, self.users@.len() as int));
            i = i + 1;
        }
        None
    }

    /// Looks a role up by id.
    pub fn find_role(&self, id: &str) -> (r: Option<&Role>)
        ensures
            match r {
                Some(x) => role_lookup(self.roles@, id@) == Some(*x),
                None => role_lookup(self.roles@, id@) is None,
            },
    {
        let mut i: usize = 0;
        assert(self.roles@.subrange(0, self.roles@.len() as int) == self.roles@);
        while i < self.roles.len()
            invariant
                i <= self.roles@.len(),
                role_lookup(self.roles@, id@) == role_lookup(
                    self.roles@.subrange(i as int, self.roles@.len() as int),
                    id@,
                ),
            decreases self.roles@.len() - i,
        {
            let ghost rest = self.roles@.subrange(i as int, self.roles@.len() as int);
            if same_text(self.roles[i].id.as_str(), id) {
                assert(rest[0] == self.roles@[i as int]);
                return Some(&self.roles[i]);
            }
            assert(rest.drop_first() == self.roles@.subrange(i + 1, self.roles@.len() as int));
            i = i + 1;
        }
        None
    }

    /// Looks a permission up by id.
    pub fn find_permission(&self, id: &str) -> (r: Option<&Permission>)
        ensures
            match r {
                Some(p) => permission_lookup(self.permissions@, id@) == Some(*p),
                None => permission_lookup(self.permissions@, id@) is None,
            },
    {
        let mut i: usize = 0;
        assert(self.permissions@.subrange(0, self.permissions@.len() as int) == self.permissions@);
        while i < self.permissions.len()
            invariant
                i <= self.permissions@.len(),
                permission_lookup(self.permissions@, id@) == permission_lookup(
                    self.permissions@.subrange(i as int, self.permissions@.len() as int),
                    id@,
                ),
            decreases self.permissions@.len() - i,
        {
            let ghost rest = self.permissions@.subrange(i as int, self.permissions@.len() as int);
            if same_text(self.permissions[i].id.as_str(), id) {
                assert(rest[0] == self.permissions@[i as int]);
                return Some(&self.permissions[i]);
            }
            assert(rest.drop_first() == self.permissions@.subrange(
                i + 1,
                self.permissions@.len() as int,
            ));
            i = i + 1;
        }
        None
    }
}

} // verus!
