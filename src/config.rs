use vstd::prelude::*;

verus! {

/// Where the HTTP server listens.
pub struct ServerConfig {
    pub host: String,
    pub port: u32,
}

/// How to reach the document store, and the collection of each record kind.
pub struct MongoDB {
    pub address: String,
    pub port: u32,
    pub database: String,
    pub user: String,
    pub password: String,
    pub ssl: bool,
    pub auth_source: String,
    pub permission_collection: String,
    pub role_collection: String,
    pub user_collection: String,
}

/// Session token settings: the signing secret and the lifetime of a token
/// in milliseconds.
#[derive(Clone, Debug)]
pub struct JWT {
    pub secret: String,
    pub expires: i64,
}

/// The whole configuration of the service.
pub struct Config {
    pub server: ServerConfig,
    pub mongodb: MongoDB,
    pub jwt: JWT,
}

} // verus!
