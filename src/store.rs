use vstd::prelude::*;

use crate::config::Config;

verus! {

/// Where user records are kept.
#[derive(Clone)]
pub struct UserRepository {
    pub collection: String,
}

/// Where role records are kept.
#[derive(Clone)]
pub struct RoleRepository {
    pub collection: String,
}

/// Where permission records are kept.
#[derive(Clone)]
pub struct PermissionRepository {
    pub collection: String,
}

impl UserRepository {
    pub fn new(collection: &str) -> (r: Self)
        ensures
            r.collection@ == collection@,
    {
        Self { collection: collection.to_owned() }
    }
}

impl RoleRepository {
    pub fn new(collection: &str) -> (r: Self)
        ensures
            r.collection@ == collection@,
    {
        Self { collection: collection.to_owned() }
    }
}

impl PermissionRepository {
    pub fn new(collection: &str) -> (r: Self)
        ensures
            r.collection@ == collection@,
    {
        Self { collection: collection.to_owned() }
    }
}

/// The three repositories, one per record kind.
#[derive(Clone)]
pub struct Repositories {
    pub user_repository: UserRepository,
    pub role_repository: RoleRepository,
    pub permission_repository: PermissionRepository,
}

impl Repositories {
    /// Points each repository at the collection the configuration names.
    pub fn new(config: &Config) -> (r: Repositories)
        ensures
            r.user_repository.collection@ == config.mongodb.user_collection@,
            r.role_repository.collection@ == config.mongodb.role_collection@,
            r.permission_repository.collection@ == config.mongodb.permission_collection@,
    {
        Repositories {
            user_repository: UserRepository::new(config.mongodb.user_collection.as_str()),
            role_repository: RoleRepository::new(config.mongodb.role_collection.as_str()),
            permission_repository: PermissionRepository::new(
                config.mongodb.permission_collection.as_str(),
            ),
        }
    }
}

/// Operations on users, over their repository.
#[derive(Clone)]
pub struct UserService {
    pub repository: UserRepository,
}

/// Operations on roles, over their repository.
#[derive(Clone)]
pub struct RoleService {
    pub repository: RoleRepository,
}

/// Operations on permissions, over their repository.
#[derive(Clone)]
pub struct PermissionService {
    pub repository: PermissionRepository,
}

impl UserService {
    pub fn new(repository: UserRepository) -> (r: Self)
        ensures
            r.repository.collection@ == repository.collection@,
    {
        Self { repository }
    }
}

impl RoleService {
    pub fn new(repository: RoleRepository) -> (r: Self)
        ensures
            r.repository.collection@ == repository.collection@,
    {
        Self { repository }
    }
}

impl PermissionService {
    pub fn new(repository: PermissionRepository) -> (r: Self)
        ensures
            r.repository.collection@ == repository.collection@,
    {
        Self { repository }
    }
}

/// The three services, one per record kind.
#[derive(Clone)]
pub struct Services {
    pub permission_service: PermissionService,
    pub role_service: RoleService,
    pub user_service: UserService,
}

impl Services {
    /// Builds each service over the collection the configuration names.
    pub fn new(config: &Config) -> (r: Services)
        ensures
            r.user_service.repository.collection@ == config.mongodb.user_collection@,
            r.role_service.repository.collection@ == config.mongodb.role_collection@,
            r.permission_service.repository.collection@ == config.mongodb.permission_collection@,
    {
        let repositories = Repositories::new(config);
        Services {
            user_service: UserService::new(repositories.user_repository),
            permission_service: PermissionService::new(repositories.permission_repository),
            role_service: RoleService::new(repositories.role_repository),
        }
    }
}

} // verus!
