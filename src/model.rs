use vstd::prelude::*;

verus! {

/// A stored account. The guard reads `id`, `enabled` and `roles`.
#[derive(Clone, Debug)]
pub struct User {
    pub id: String,
    pub username: String,
    pub email_address: String,
    pub password: String,
    pub first_name: String,
    pub last_name: String,
    pub enabled: bool,
    /// Role ids, in the order the permission check walks them.
    pub roles: Vec<String>,
    pub created_at: String,
    pub last_active: String,
}

/// A stored role: a named, ordered list of permission ids.
#[derive(Clone, Debug)]
pub struct Role {
    pub id: String,
    pub name: String,
    pub description: String,
    pub permissions: Vec<String>,
}

/// A stored permission; the guard compares its `name` only.
#[derive(Clone, Debug)]
pub struct Permission {
    pub id: String,
    pub name: String,
    pub description: String,
}

} // verus!
