use vstd::prelude::*;

use crate::directory::{permission_lookup, role_lookup, Directory};
use crate::model::{Permission, Role, User};
use crate::text::same_text;

verus! {

/// How a left-to-right scan ends: on a permission with the wanted name, on
/// a lookup that failed, or having seen every id without either.
#[derive(Clone, Copy, Debug, PartialEq, Eq, Structural)]
pub enum Scan {
    Match,
    Failed,
    Exhausted,
}

/// Scans permission ids in order: a failed lookup ends the scan as
/// `Failed`, a permission named `name` ends it as `Match`.
pub open spec fn scan_permissions(ids: Seq<String>, permissions: Seq<Permission>, name: Seq<char>) -> Scan
    decreases ids.len(),
{
    if ids.len() == 0 {
        Scan::Exhausted
    } else {
        match permission_lookup(permissions, ids[0]@) {
            None => Scan::Failed,
            Some(p) => if p.name@ == name {
                Scan::Match
            } else {
                scan_permissions(ids.drop_first(), permissions, name)
            },
        }
    }
}

/// Scans role ids in order, each role's permissions depth first; the
/// first failed lookup or match anywhere ends the whole scan.
pub open spec fn scan_roles(
    ids: Seq<String>,
    roles: Seq<Role>,
    permissions: Seq<Permission>,
    name: Seq<char>,
) -> Scan
    decreases ids.len(),
{
    if ids.len() == 0 {
        Scan::Exhausted
    } else {
        match role_lookup(roles, ids[0]@) {
            None => Scan::Failed,
            Some(r) => match scan_permissions(r.permissions@, permissions, name) {
                Scan::Exhausted => scan_roles(ids.drop_first(), roles, permissions, name),
                found => found,
            },
        }
    }
}

/// Whether `user` holds the permission `name`: never for the empty name,
/// otherwise exactly when the fail-closed scan of the user's roles ends on
/// a match.
pub open spec fn holds_permission(
    user: User,
    roles: Seq<Role>,
    permissions: Seq<Permission>,
    name: Seq<char>,
) -> bool {
    name.len() > 0 && scan_roles(user.roles@, roles, permissions, name) is Match
}

/// Decides whether `user` holds the permission named `permission_name`.
/// The empty name is never granted; otherwise the scan of the user's roles
/// decides, and only a match grants.
pub fn does_user_have_permission(directory: &Directory, user: &User, permission_name: &str) -> (r:
    bool)
    ensures
        r == holds_permission(*user, directory.roles@, directory.permissions@, permission_name@),
{
    if permission_name.is_empty() {
        return false;
    }
    scan_user_roles(directory, user, permission_name) == Scan::Match
}

/// Walks the user's roles in order and each role's permissions in order:
/// a role or permission that cannot be looked up ends the walk as `Failed`,
/// even if a later role would grant; the first permission with that exact
/// name ends it as `Match`.
pub fn scan_user_roles(directory: &Directory, user: &User, permission_name: &str) -> (r: Scan)
    requires
        permission_name@.len() > 0,
    ensures
        r == scan_roles(user.roles@, directory.roles@, directory.permissions@, permission_name@),
{
    let ghost roles = directory.roles@;
    let ghost perms = directory.permissions@;
    let ghost name = permission_name@;
    let ghost ids = user.roles@;
    let mut i: usize = 0;
    assert(ids.subrange(0, ids.len() as int) == ids);
    while i < user.roles.len()
        invariant
            ids == user.roles@,
            roles == directory.roles@,
            perms == directory.permissions@,
            name == permission_name@,
            name.len() > 0,
            i <= ids.len(),
            scan_roles(ids, roles, perms, name) == scan_roles(
                ids.subrange(i as int, ids.len() as int),
                roles,
                perms,
                name,
            ),
        decreases ids.len() - i,
    {
        let ghost rest = ids.subrange(i as int, ids.len() as int);
        assert(rest[0] == ids[i as int]);
        assert(rest.drop_first() == ids.subrange(i + 1, ids.len() as int));
        let role = match directory.find_role(user.roles[i].as_str()) {
            Some(x) => x,
            None => {
                return Scan::Failed;
            },
        };
        let ghost pids = role.permissions@;
        let mut j: usize = 0;
        assert(pids.subrange(0, pids.len() as int) == pids);
        while j < role.permissions.len()
            invariant
                ids == user.roles@,
                roles == directory.roles@,
                perms == directory.permissions@,
                name == permission_name@,
                name.len() > 0,
                pids == role.permissions@,
                i < ids.len(),
                rest == ids.subrange(i as int, ids.len() as int),
                role_lookup(roles, rest[0]@) == Some(*role),
                scan_roles(ids, roles, perms, name) == scan_roles(rest, roles, perms, name),
                j <= pids.len(),
                scan_permissions(pids, perms, name) == scan_permissions(
                    pids.subrange(j as int, pids.len() as int),
                    perms,
                    name,
                ),
            decreases pids.len() - j,
        {
            let ghost prest = pids.subrange(j as int, pids.len() as int);
            assert(prest[0] == pids[j as int]);
            assert(prest.drop_first() == pids.subrange(j + 1, pids.len() as int));
            let permission = match directory.find_permission(role.permissions[j].as_str()) {
                Some(p) => p,
                None => {
                    return Scan::Failed;
                },
            };
            if same_text(permission.name.as_str(), permission_name) {
                assert(scan_permissions(prest, perms, name) is Match);
                assert(scan_roles(rest, roles, perms, name) is Match);
                return Scan::Match;
            }
            j = j + 1;
        }
        assert(pids.subrange(j as int, pids.len() as int).len() == 0);
        i = i + 1;
    }
    Scan::Exhausted
}

/// The empty name is never granted, whoever asks.
pub proof fn lemma_empty_permission_denied(user: User, roles: Seq<Role>, permissions: Seq<Permission>)
    ensures
        !holds_permission(user, roles, permissions, Seq::<char>::empty()),
{
}

/// Whether every permission id in `ids` can be looked up.
pub open spec fn permissions_resolve(ids: Seq<String>, permissions: Seq<Permission>) -> bool {
    forall|j: int| 0 <= j < ids.len() ==> (#[trigger] permission_lookup(permissions, ids[j]@)) is Some
}

/// Whether some id in `ids` names a permission called `name`.
pub open spec fn names_permission(ids: Seq<String>, permissions: Seq<Permission>, name: Seq<char>) -> bool {
    exists|j: int|
        0 <= j < ids.len() && match #[trigger] permission_lookup(permissions, ids[j]@) {
            Some(p) => p.name@ == name,
            None => false,
        }
}

/// Whether every role id in `ids`, and every permission id of those roles,
/// can be looked up.
pub open spec fn roles_resolve(ids: Seq<String>, roles: Seq<Role>, permissions: Seq<Permission>) -> bool {
    forall|i: int|
        0 <= i < ids.len() ==> match #[trigger] role_lookup(roles, ids[i]@) {
            Some(r) => permissions_resolve(r.permissions@, permissions),
            None => false,
        }
}

/// Whether some role among `ids` has a permission called `name`.
pub open spec fn granted_by_roles(
    ids: Seq<String>,
    roles: Seq<Role>,
    permissions: Seq<Permission>,
    name: Seq<char>,
) -> bool {
    exists|i: int|
        0 <= i < ids.len() && match #[trigger] role_lookup(roles, ids[i]@) {
            Some(r) => names_permission(r.permissions@, permissions, name),
            None => false,
        }
}

proof fn lemma_scan_permissions_resolved(ids: Seq<String>, permissions: Seq<Permission>, name: Seq<char>)
    requires
        permissions_resolve(ids, permissions),
    ensures
        scan_permissions(ids, permissions, name) == if names_permission(ids, permissions, name) {
            Scan::Match
        } else {
            Scan::Exhausted
        },
    decreases ids.len(),
{
    if ids.len() > 0 {
        let rest = ids.drop_first();
        assert forall|j: int| 0 <= j < rest.len() implies (#[trigger] permission_lookup(
            permissions,
            rest[j]@,
        )) is Some by {
            assert(rest[j] == ids[j + 1]);
        }
        lemma_scan_permissions_resolved(rest, permissions, name);
        assert(permission_lookup(permissions, ids[0]@) is Some);
        if names_permission(rest, permissions, name) {
            let j = choose|j: int|
                0 <= j < rest.len() && match #[trigger] permission_lookup(permissions, rest[j]@) {
                    Some(p) => p.name@ == name,
                    None => false,
                };
            assert(rest[j] == ids[j + 1]);
        }
        if names_permission(ids, permissions, name) {
            let j = choose|j: int|
                0 <= j < ids.len() && match #[trigger] permission_lookup(permissions, ids[j]@) {
                    Some(p) => p.name@ == name,
                    None => false,
                };
            if j > 0 {
                assert(rest[j - 1] == ids[j]);
            }
        }
    }
}

/// When every role of the user and every permission of those roles can be
/// looked up, their order does not matter: the user holds a non-empty name
/// exactly when one of their roles has a permission of that name.
pub proof fn lemma_resolved_scan_is_union(
    user: User,
    roles: Seq<Role>,
    permissions: Seq<Permission>,
    name: Seq<char>,
)
    requires
        roles_resolve(user.roles@, roles, permissions),
        name.len() > 0,
    ensures
        holds_permission(user, roles, permissions, name) == granted_by_roles(
            user.roles@,
            roles,
            permissions,
            name,
        ),
{
    lemma_scan_roles_resolved(user.roles@, roles, permissions, name);
}

proof fn lemma_scan_roles_resolved(
    ids: Seq<String>,
    roles: Seq<Role>,
    permissions: Seq<Permission>,
    name: Seq<char>,
)
    requires
        roles_resolve(ids, roles, permissions),
    ensures
        scan_roles(ids, roles, permissions, name) == if granted_by_roles(ids, roles, permissions, name) {
            Scan::Match
        } else {
            Scan::Exhausted
        },
    decreases ids.len(),
{
    if ids.len() > 0 {
        let rest = ids.drop_first();
        assert forall|i: int| 0 <= i < rest.len() implies match #[trigger] role_lookup(roles, rest[i]@) {
            Some(r) => permissions_resolve(r.permissions@, permissions),
            None => false,
        } by {
            assert(rest[i] == ids[i + 1]);
        }
        lemma_scan_roles_resolved(rest, roles, permissions, name);
        let first = role_lookup(roles, ids[0]@);
        assert(first is Some);
        lemma_scan_permissions_resolved(first->Some_0.permissions@, permissions, name);
        if granted_by_roles(rest, roles, permissions, name) {
            let i = choose|i: int|
                0 <= i < rest.len() && match #[trigger] role_lookup(roles, rest[i]@) {
                    Some(r) => names_permission(r.permissions@, permissions, name),
                    None => false,
                };
            assert(rest[i] == ids[i + 1]);
        }
        if granted_by_roles(ids, roles, permissions, name) {
            let i = choose|i: int|
                0 <= i < ids.len() && match #[trigger] role_lookup(roles, ids[i]@) {
                    Some(r) => names_permission(r.permissions@, permissions, name),
                    None => false,
                };
            if i > 0 {
                assert(rest[i - 1] == ids[i]);
            }
        }
    }
}

} // verus!
