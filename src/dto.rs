use vstd::prelude::*;

use crate::directory::{permission_lookup, role_lookup, Directory};
use crate::model::{Permission as PermissionRecord, Role as RoleRecord, User as UserRecord};

verus! {

/// A permission as the API shows it.
pub struct Permission {
    pub id: String,
    pub name: String,
    pub description: String,
}

/// A role as the API shows it, with its permissions spelled out.
pub struct Role {
    pub id: String,
    pub name: String,
    pub description: String,
    pub permissions: Vec<Permission>,
}

/// A user as the API shows it: no password hash, roles spelled out.
pub struct User {
    pub id: String,
    pub username: String,
    pub email_address: String,
    pub first_name: String,
    pub last_name: String,
    pub enabled: bool,
    pub roles: Vec<Role>,
    pub created_at: String,
    pub last_active: String,
}

/// Request to create a permission.
pub struct CreatePermission {
    pub name: String,
    pub description: String,
    pub permissions: Vec<String>,
}

/// Request to replace a permission's name and description.
pub struct UpdatePermission {
    pub name: String,
    pub description: String,
}

/// Request to set a new password.
pub struct UpdatePassword {
    pub password: String,
}

/// Request to create a role.
pub struct CreateRole {
    pub name: String,
    pub description: String,
    pub permissions: Vec<String>,
}

/// Request to replace a role's name, description and permissions.
pub struct UpdateRole {
    pub name: String,
    pub description: String,
    pub permissions: Vec<String>,
}

/// Request to create a user.
pub struct CreateUser {
    pub username: String,
    pub email_address: String,
    pub password: String,
    pub first_name: String,
    pub last_name: String,
    pub roles: Vec<String>,
}

/// Request to replace a user's details, status and roles.
pub struct UpdateUser {
    pub username: String,
    pub email_address: String,
    pub first_name: String,
    pub last_name: String,
    pub enabled: bool,
    pub roles: Vec<String>,
}

/// Self-service registration.
pub struct RegisterRequest {
    pub first_name: String,
    pub last_name: String,
    pub username: String,
    pub email_address: String,
    pub password: String,
}

/// Self-service change of one's own details.
pub struct UpdateRequest {
    pub username: String,
    pub email_address: String,
    pub first_name: String,
    pub last_name: String,
}

/// Whether `d` shows the permission record `p`.
pub open spec fn shows_permission(d: Permission, p: PermissionRecord) -> bool {
    d.id@ == p.id@ && d.name@ == p.name@ && d.description@ == p.description@
}

/// The permissions among `ids` that can be looked up, in order; the others
/// are left out.
pub open spec fn found_permissions(ids: Seq<String>, permissions: Seq<PermissionRecord>) -> Seq<
    PermissionRecord,
>
    decreases ids.len(),
{
    if ids.len() == 0 {
        Seq::empty()
    } else {
        let rest = found_permissions(ids.drop_last(), permissions);
        match permission_lookup(permissions, ids.last()@) {
            Some(p) => rest.push(p),
            None => rest,
        }
    }
}

/// The roles among `ids` that can be looked up, in order.
pub open spec fn found_roles(ids: Seq<String>, roles: Seq<RoleRecord>) -> Seq<RoleRecord>
    decreases ids.len(),
{
    if ids.len() == 0 {
        Seq::empty()
    } else {
        let rest = found_roles(ids.drop_last(), roles);
        match role_lookup(roles, ids.last()@) {
            Some(r) => rest.push(r),
            None => rest,
        }
    }
}

/// Whether `d` shows the role record `r` with the permissions `permissions` can resolve.
pub open spec fn shows_role(d: Role, r: RoleRecord, permissions: Seq<PermissionRecord>) -> bool {
    let found = found_permissions(r.permissions@, permissions);
    &&& d.id@ == r.id@ && d.name@ == r.name@ && d.description@ == r.description@
    &&& d.permissions@.len() == found.len()
    &&& forall|i: int| 0 <= i < found.len() ==> shows_permission(#[trigger] d.permissions@[i], found[i])
}

/// Shows a permission record through the API.
pub fn convert_permission_to_dto(permission: PermissionRecord) -> (r: Permission)
    ensures
        shows_permission(r, permission),
{
    Permission { id: permission.id, name: permission.name, description: permission.description }
}

fn copy_permission(p: &PermissionRecord) -> (r: Permission)
    ensures
        shows_permission(r, *p),
{
    Permission { id: p.id.clone(), name: p.name.clone(), description: p.description.clone() }
}

/// Shows a role with the permissions that can be looked up; ids that
/// resolve to nothing are left out.
pub fn convert_role_to_dto(directory: &Directory, role: &RoleRecord) -> (r: Role)
    ensures
        shows_role(r, *role, directory.permissions@),
{
    let mut shown: Vec<Permission> = Vec::new();
    let ghost ids = role.permissions@;
    let ghost perms = directory.permissions@;
    let mut i: usize = 0;
    while i < role.permissions.len()
        invariant
            ids == role.permissions@,
            perms == directory.permissions@,
            i <= ids.len(),
            shown@.len() == found_permissions(ids.subrange(0, i as int), perms).len(),
            forall|k: int|
                0 <= k < shown@.len() ==> shows_permission(
                    #[trigger] shown@[k],
                    found_permissions(ids.subrange(0, i as int), perms)[k],
                ),
        decreases ids.len() - i,
    {
        let ghost before = found_permissions(ids.subrange(0, i as int), perms);
        assert(ids.subrange(0, i + 1).drop_last() == ids.subrange(0, i as int));
        assert(ids.subrange(0, i + 1).last() == ids[i as int]);
        match directory.find_permission(role.permissions[i].as_str()) {
            Some(p) => {
                shown.push(copy_permission(p));
            },
            None => {},
        }
        i = i + 1;
    }
    assert(ids.subrange(0, ids.len() as int) == ids);
    Role {
        id: role.id.clone(),
        name: role.name.clone(),
        description: role.description.clone(),
        permissions: shown,
    }
}

/// Shows a user with the roles that can be looked up, each with its
/// permissions; the password hash is not shown.
pub fn convert_user_to_dto(directory: &Directory, user: &UserRecord) -> (r: User)
    ensures
        r.id@ == user.id@,
        r.username@ == user.username@,
        r.email_address@ == user.email_address@,
        r.first_name@ == user.first_name@,
        r.last_name@ == user.last_name@,
        r.enabled == user.enabled,
        r.created_at@ == user.created_at@,
        r.last_active@ == user.last_active@,
        r.roles@.len() == found_roles(user.roles@, directory.roles@).len(),
        forall|k: int|
            0 <= k < r.roles@.len() ==> shows_role(
                #[trigger] r.roles@[k],
                found_roles(user.roles@, directory.roles@)[k],
                directory.permissions@,
            ),
{
    let mut shown: Vec<Role> = Vec::new();
    let ghost ids = user.roles@;
    let ghost roles = directory.roles@;
    let mut i: usize = 0;
    while i < user.roles.len()
        invariant
            ids == user.roles@,
            roles == directory.roles@,
            i <= ids.len(),
            shown@.len() == found_roles(ids.subrange(0, i as int), roles).len(),
            forall|k: int|
                0 <= k < shown@.len() ==> shows_role(
                    #[trigger] shown@[k],
                    found_roles(ids.subrange(0, i as int), roles)[k],
                    directory.permissions@,
                ),
        decreases ids.len() - i,
    {
        assert(ids.subrange(0, i + 1).drop_last() == ids.subrange(0, i as int));
        assert(ids.subrange(0, i + 1).last() == ids[i as int]);
        match directory.find_role(user.roles[i].as_str()) {
            Some(x) => {
                shown.push(convert_role_to_dto(directory, x));
            },
            None => {},
        }
        i = i + 1;
    }
    assert(ids.subrange(0, ids.len() as int) == ids);
    User {
        id: user.id.clone(),
        username: user.username.clone(),
        email_address: user.email_address.clone(),
        first_name: user.first_name.clone(),
        last_name: user.last_name.clone(),
        enabled: user.enabled,
        roles: shown,
        created_at: user.created_at.clone(),
        last_active: user.last_active.clone(),
    }
}

} // verus!
