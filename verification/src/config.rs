//! Where the service finds its database and its token store.

pub mod redis_client;

use vstd::prelude::*;

verus! {

/// The service's configuration.
#[derive(Debug, PartialEq, Clone)]
pub struct AppConfig {
    pub db: DBConfig,
    pub redis: RedisConfig,
}

/// How to reach the database.
#[derive(Debug, PartialEq, Clone)]
pub struct DBConfig {
    pub url: String,
}

/// How to reach the token store.
#[derive(Debug, PartialEq, Clone)]
pub struct RedisConfig {
    pub url: String,
}

} // verus!
