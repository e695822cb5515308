use vstd::prelude::*;

use crate::directory::{permission_lookup, role_lookup, Directory};
use crate::dto::{
    CreatePermission,
    CreateRole,
    CreateUser,
    RegisterRequest,
    UpdatePermission,
    UpdateRequest,
    UpdateRole,
    UpdateUser,
};
use crate::model::{Permission, Role, User};
use crate::auth::bcrypt_verdict;
use crate::requests::RequestError;
use crate::time::now_text;

verus! {

/// Relies on uuid::Uuid::new_v4 and its `Display`: a fresh random id.
/// Nothing is known of its value.
#[verifier::external_body]
fn fresh_id() -> (r: String) {
    uuid::Uuid::new_v4().to_string()
}

/// Relies on bcrypt::hash with bcrypt::DEFAULT_COST: a salted hash of the
/// password, with a random salt; `None` when hashing fails. bcrypt::verify
/// rehashes with the salt and cost the hash carries, so it accepts the
/// password against it.
#[verifier::external_body]
fn hash_password(password: &str) -> (r: Option<String>)
    ensures
        r matches Some(h) ==> bcrypt_verdict(password@, h@) == Some(true),
{
    bcrypt::hash(password, bcrypt::DEFAULT_COST).ok()
}

fn copy_ids(ids: &Vec<String>) -> (r: Vec<String>)
    ensures
        r@.len() == ids@.len(),
        forall|i: int| 0 <= i < ids@.len() ==> #[trigger] r@[i]@ == ids@[i]@,
{
    let mut r: Vec<String> = Vec::new();
    let mut i: usize = 0;
    while i < ids.len()
        invariant
            i <= ids@.len(),
            r@.len() == i,
            forall|k: int| 0 <= k < i ==> #[trigger] r@[k]@ == ids@[k]@,
        decreases ids@.len() - i,
    {
        r.push(ids[i].clone());
        i = i + 1;
    }
    r
}

/// Whether two id lists hold the same ids in the same order.
pub open spec fn same_ids(a: Seq<String>, b: Seq<String>) -> bool {
    a.len() == b.len() && forall|i: int| 0 <= i < a.len() ==> #[trigger] a[i]@ == b[i]@
}

/// A new enabled account with a fresh id, the password hashed, the given
/// roles, created now and never active; `None` when hashing fails.
fn new_account(
    username: &String,
    email_address: &String,
    password: &String,
    first_name: &String,
    last_name: &String,
    roles: Vec<String>,
) -> (r: Option<User>)
    ensures
        r matches Some(u) ==> {
            &&& u.username@ == username@ && u.email_address@ == email_address@
            &&& u.first_name@ == first_name@ && u.last_name@ == last_name@
            &&& u.enabled && u.roles@ == roles@ && u.last_active@.len() == 0
            &&& bcrypt_verdict(password@, u.password@) == Some(true)
        },
{
    let hash = match hash_password(password.as_str()) {
        Some(h) => h,
        None => {
            return None;
        },
    };
    Some(
        User {
            id: fresh_id(),
            username: username.clone(),
            email_address: email_address.clone(),
            password: hash,
            first_name: first_name.clone(),
            last_name: last_name.clone(),
            enabled: true,
            roles,
            created_at: now_text(),
            last_active: String::new(),
        },
    )
}

/// The account an administrator creates: enabled, with the requested
/// roles; `None` when the password cannot be hashed.
pub fn new_user_record(request: &CreateUser) -> (r: Option<User>)
    ensures
        r matches Some(u) ==> {
            &&& u.username@ == request.username@ && u.email_address@ == request.email_address@
            &&& u.first_name@ == request.first_name@ && u.last_name@ == request.last_name@
            &&& u.enabled && same_ids(u.roles@, request.roles@) && u.last_active@.len() == 0
            &&& bcrypt_verdict(request.password@, u.password@) == Some(true)
        },
{
    let roles = copy_ids(&request.roles);
    new_account(
        &request.username,
        &request.email_address,
        &request.password,
        &request.first_name,
        &request.last_name,
        roles,
    )
}

/// The account a registration creates: enabled and without roles; `None`
/// when the password cannot be hashed.
pub fn registered_user_record(request: &RegisterRequest) -> (r: Option<User>)
    ensures
        r matches Some(u) ==> {
            &&& u.username@ == request.username@ && u.email_address@ == request.email_address@
            &&& u.first_name@ == request.first_name@ && u.last_name@ == request.last_name@
            &&& u.enabled && u.roles@.len() == 0 && u.last_active@.len() == 0
            &&& bcrypt_verdict(request.password@, u.password@) == Some(true)
        },
{
    new_account(
        &request.username,
        &request.email_address,
        &request.password,
        &request.first_name,
        &request.last_name,
        Vec::new(),
    )
}

/// A new role with a fresh id and the requested permissions.
pub fn new_role_record(request: &CreateRole) -> (r: Role)
    ensures
        r.name@ == request.name@,
        r.description@ == request.description@,
        same_ids(r.permissions@, request.permissions@),
{
    Role {
        id: fresh_id(),
        name: request.name.clone(),
        description: request.description.clone(),
        permissions: copy_ids(&request.permissions),
    }
}

/// A new permission with a fresh id.
pub fn new_permission_record(request: &CreatePermission) -> (r: Permission)
    ensures
        r.name@ == request.name@,
        r.description@ == request.description@,
{
    Permission { id: fresh_id(), name: request.name.clone(), description: request.description.clone() }
}

/// The stored form of a new password: refused when empty, otherwise its
/// salted hash.
pub fn hashed_password(password: &str) -> (r: Result<String, RequestError>)
    ensures
        password@.len() == 0 <==> r == Err::<String, RequestError>(RequestError::EmptyPassword),
        r matches Err(e) ==> e == RequestError::EmptyPassword || e == RequestError::PasswordNotHashed,
        r matches Ok(h) ==> bcrypt_verdict(password@, h@) == Some(true),
{
    if password.is_empty() {
        return Err(RequestError::EmptyPassword);
    }
    match hash_password(password) {
        Some(h) => Ok(h),
        None => Err(RequestError::PasswordNotHashed),
    }
}

/// Applies an administrator's change of details, status and roles; the
/// id, password and timestamps stay.
pub fn apply_user_update(user: &mut User, update: &UpdateUser)
    ensures
        final(user).id == old(user).id,
        final(user).password == old(user).password,
        final(user).created_at == old(user).created_at,
        final(user).last_active == old(user).last_active,
        final(user).username@ == update.username@,
        final(user).email_address@ == update.email_address@,
        final(user).first_name@ == update.first_name@,
        final(user).last_name@ == update.last_name@,
        final(user).enabled == update.enabled,
        same_ids(final(user).roles@, update.roles@),
{
    user.username = update.username.clone();
    user.email_address = update.email_address.clone();
    user.first_name = update.first_name.clone();
    user.last_name = update.last_name.clone();
    user.enabled = update.enabled;
    user.roles = copy_ids(&update.roles);
}

/// Applies a user's change of their own details; status, roles, password
/// and timestamps stay.
pub fn apply_details_update(user: &mut User, update: &UpdateRequest)
    ensures
        final(user).id == old(user).id,
        final(user).password == old(user).password,
        final(user).enabled == old(user).enabled,
        final(user).roles == old(user).roles,
        final(user).created_at == old(user).created_at,
        final(user).last_active == old(user).last_active,
        final(user).username@ == update.username@,
        final(user).email_address@ == update.email_address@,
        final(user).first_name@ == update.first_name@,
        final(user).last_name@ == update.last_name@,
{
    user.username = update.username.clone();
    user.email_address = update.email_address.clone();
    user.first_name = update.first_name.clone();
    user.last_name = update.last_name.clone();
}

/// Applies a change of a role's name, description and permissions; the id
/// stays.
pub fn apply_role_update(role: &mut Role, update: &UpdateRole)
    ensures
        final(role).id == old(role).id,
        final(role).name@ == update.name@,
        final(role).description@ == update.description@,
        same_ids(final(role).permissions@, update.permissions@),
{
    role.name = update.name.clone();
    role.description = update.description.clone();
    role.permissions = copy_ids(&update.permissions);
}

/// Applies a change of a permission's name and description; the id stays.
pub fn apply_permission_update(permission: &mut Permission, update: &UpdatePermission)
    ensures
        final(permission).id == old(permission).id,
        final(permission).name@ == update.name@,
        final(permission).description@ == update.description@,
{
    permission.name = update.name.clone();
    permission.description = update.description.clone();
}

/// Index of the first role id that no role record carries.
pub fn first_unknown_role(directory: &Directory, ids: &Vec<String>) -> (r: Option<usize>)
    ensures
        match r {
            Some(i) => i < ids@.len() && role_lookup(directory.roles@, ids@[i as int]@) is None
                && forall|k: int| 0 <= k < i ==> role_lookup(directory.roles@, (#[trigger] ids@[k])@) is Some,
            None => forall|k: int| 0 <= k < ids@.len() ==> role_lookup(directory.roles@, (#[trigger] ids@[k])@) is Some,
        },
{
    let mut i: usize = 0;
    while i < ids.len()
        invariant
            i <= ids@.len(),
            forall|k: int| 0 <= k < i ==> role_lookup(directory.roles@, (#[trigger] ids@[k])@) is Some,
        decreases ids@.len() - i,
    {
        if directory.find_role(ids[i].as_str()).is_none() {
            return Some(i);
        }
        i = i + 1;
    }
    None
}

/// Index of the first permission id that no permission record carries.
pub fn first_unknown_permission(directory: &Directory, ids: &Vec<String>) -> (r: Option<usize>)
    ensures
        match r {
            Some(i) => i < ids@.len() && permission_lookup(directory.permissions@, ids@[i as int]@) is None
                && forall|k: int| 0 <= k < i ==> permission_lookup(directory.permissions@, (#[trigger] ids@[k])@) is Some,
            None => forall|k: int| 0 <= k < ids@.len() ==> permission_lookup(directory.permissions@, (#[trigger] ids@[k])@) is Some,
        },
{
    let mut i: usize = 0;
    while i < ids.len()
        invariant
            i <= ids@.len(),
            forall|k: int| 0 <= k < i ==> permission_lookup(directory.permissions@, (#[trigger] ids@[k])@) is Some,
        decreases ids@.len() - i,
    {
        if directory.find_permission(ids[i].as_str()).is_none() {
            return Some(i);
        }
        i = i + 1;
    }
    None
}

} // verus!
