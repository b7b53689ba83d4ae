//! # Service configuration.
//!
//! This module allows to configure the service.
//!
//! It provides a `Config` trait to build custom configuration
//! implementations, and two implementations of it: `DefaultConfig`, for a
//! service backed by a database, and `MinimalConfig`, for one without.
//!
//! The process environment is read once at bootstrap into an
//! [`EnvironmentSnapshot`]; building a configuration from that snapshot is
//! specified and verified here.

use vstd::prelude::*;
use crate::app::text_or;
use crate::decimal::{parse_decimal, parse_u32};

verus! {

/// The number of database connections to open when `DATABASE_POOL_SIZE`
/// does not say otherwise.
pub const DEFAULT_DATABASE_POOL_SIZE: u32 = 4;

/// The environment variables the service reads, captured once at process
/// start by the bootstrap code.
#[derive(Debug)]
pub struct EnvironmentSnapshot {
    /// `DATABASE_URL`: the URL to connect to the database.
    pub database_url: Option<String>,
    /// `API_ENTRY_POINT`: the mounting point of the API methods.
    pub api_entry_point: Option<String>,
    /// `DATABASE_POOL_SIZE`: the number of connections to open.
    pub database_pool_size: Option<String>,
    /// Whether `LF_DISABLE_DATABASE` is set, turning the database off.
    pub database_disabled: bool,
}

/// Why a configuration could not be built from the environment.
#[derive(Debug, Clone, PartialEq, Eq)]
pub enum ConfigurationError {
    /// The database is enabled and no `DATABASE_URL` variable is set.
    MissingDatabaseUrl,
}

/// This trait allows to provide a configuration for the resources needed by
/// the API.
pub trait Config {
    /// The database URL, in the abstract.
    spec fn spec_database_url(&self) -> Seq<char>;

    /// The entry point, in the abstract.
    spec fn spec_entry_point(&self) -> Seq<char>;

    /// The connection pool size, in the abstract.
    spec fn spec_database_pool_size(&self) -> u32;

    /// Whether the service uses a database, in the abstract.
    spec fn spec_with_database(&self) -> bool;

    /// The URL to connect to the database.
    fn get_database_url(&self) -> (url: &str)
        ensures
            url@ == self.spec_database_url(),
    ;

    /// The mounting point of the API methods.
    fn get_entry_point(&self) -> (entry_point: &str)
        ensures
            entry_point@ == self.spec_entry_point(),
    ;

    /// The number of connections the pool opens.
    fn get_database_pool_size(&self) -> (pool_size: u32)
        ensures
            pool_size == self.spec_database_pool_size(),
    ;

    /// Whether the service wires a database at all.
    fn with_database(&self) -> (with: bool)
        ensures
            with == self.spec_with_database(),
    ;
}

/// This trait allows to configure the object from the environment.
pub trait EnvironmentConfigurable: Sized {
    /// What an outcome of `parse_environment` must look like for the given
    /// environment.
    spec fn parse_environment_post(
        env: &EnvironmentSnapshot,
        outcome: Result<Self, ConfigurationError>,
    ) -> bool;

    /// Build the configuration from the captured environment.
    fn parse_environment(env: &EnvironmentSnapshot) -> (outcome: Result<
        Self,
        ConfigurationError,
    >)
        ensures
            Self::parse_environment_post(env, outcome),
    ;
}

/// The pool size an override text denotes when it parses as an unsigned
/// 32-bit integer; the default otherwise.
pub open spec fn pool_size_or_default(text: Option<String>) -> u32 {
    match text {
        None => DEFAULT_DATABASE_POOL_SIZE,
        Some(override_text) => match parse_decimal(override_text@) {
            Some(value) => if value <= u32::MAX {
                value as u32
            } else {
                DEFAULT_DATABASE_POOL_SIZE
            },
            None => DEFAULT_DATABASE_POOL_SIZE,
        },
    }
}

/// This is a default implementation of the `Config` trait, for a service
/// backed by a database. It is built from the following variables of the
/// captured environment:
///
///   - `API_ENTRY_POINT` (facultative, by default `/`): the mounting point
///     of the API methods
///   - `DATABASE_URL` (mandatory unless the database is disabled): the URL
///     to connect to the database
///   - `DATABASE_POOL_SIZE` (facultative, by default 4): the number of
///     connections to open
pub struct DefaultConfig {
    database_url: String,
    entry_point: String,
    database_pool_size: u32,
    with_database: bool,
}

impl Config for DefaultConfig {
    closed spec fn spec_database_url(&self) -> Seq<char> {
        self.database_url@
    }

    closed spec fn spec_entry_point(&self) -> Seq<char> {
        self.entry_point@
    }

    closed spec fn spec_database_pool_size(&self) -> u32 {
        self.database_pool_size
    }

    closed spec fn spec_with_database(&self) -> bool {
        self.with_database
    }

    fn get_database_url(&self) -> (url: &str) {
        self.database_url.as_str()
    }

    fn get_entry_point(&self) -> (entry_point: &str) {
        self.entry_point.as_str()
    }

    fn get_database_pool_size(&self) -> (pool_size: u32) {
        self.database_pool_size
    }

    fn with_database(&self) -> (with: bool) {
        self.with_database
    }
}

impl EnvironmentConfigurable for DefaultConfig {
    open spec fn parse_environment_post(
        env: &EnvironmentSnapshot,
        outcome: Result<Self, ConfigurationError>,
    ) -> bool {
        match outcome {
            Err(error) => {
                &&& error == ConfigurationError::MissingDatabaseUrl
                &&& !env.database_disabled
                &&& env.database_url is None
            },
            Ok(config) => {
                &&& !(env.database_url is None && !env.database_disabled)
                &&& config.spec_with_database() == !env.database_disabled
                &&& config.spec_database_url() == text_or(env.database_url, Seq::<char>::empty())
                &&& config.spec_entry_point() == text_or(env.api_entry_point, "/"@)
                &&& config.spec_database_pool_size() == pool_size_or_default(
                    env.database_pool_size,
                )
            },
        }
    }

    fn parse_environment(env: &EnvironmentSnapshot) -> (outcome: Result<
        Self,
        ConfigurationError,
    >) {
        let with_database = !env.database_disabled;

        let database_url = match &env.database_url {
            Some(url) => url.clone(),
            None => {
                if with_database {
                    return Err(ConfigurationError::MissingDatabaseUrl);
                }
                String::new()
            },
        };

        let entry_point = match &env.api_entry_point {
            Some(entry) => entry.clone(),
            None => "/".to_owned(),
        };

        let database_pool_size = match &env.database_pool_size {
            Some(text) => match parse_u32(text.as_str()) {
                Some(size) => size,
                None => DEFAULT_DATABASE_POOL_SIZE,
            },
            None => DEFAULT_DATABASE_POOL_SIZE,
        };

        Ok(
            DefaultConfig {
                database_url,
                entry_point,
                database_pool_size,
                with_database,
            },
        )
    }
}

/// This is a minimal implementation of the `Config` trait, for a service
/// without a database. It is built from the following variable of the
/// captured environment:
///
///   - `API_ENTRY_POINT` (facultative, by default `/`): the mounting point
///     of the API methods
pub struct MinimalConfig {
    entry_point: String,
}

impl Config for MinimalConfig {
    open spec fn spec_database_url(&self) -> Seq<char> {
        Seq::<char>::empty()
    }

    closed spec fn spec_entry_point(&self) -> Seq<char> {
        self.entry_point@
    }

    open spec fn spec_database_pool_size(&self) -> u32 {
        0
    }

    open spec fn spec_with_database(&self) -> bool {
        false
    }

    fn get_database_url(&self) -> (url: &str) {
        proof {
            reveal_strlit("");
            assert(""@ =~= Seq::<char>::empty());
        }
        ""
    }

    fn get_entry_point(&self) -> (entry_point: &str) {
        self.entry_point.as_str()
    }

    fn get_database_pool_size(&self) -> (pool_size: u32) {
        0
    }

    fn with_database(&self) -> (with: bool) {
        false
    }
}

impl EnvironmentConfigurable for MinimalConfig {
    open spec fn parse_environment_post(
        env: &EnvironmentSnapshot,
        outcome: Result<Self, ConfigurationError>,
    ) -> bool {
        match outcome {
            Err(_) => false,
            Ok(config) => config.spec_entry_point() == text_or(env.api_entry_point, "/"@),
        }
    }

    fn parse_environment(env: &EnvironmentSnapshot) -> (outcome: Result<
        Self,
        ConfigurationError,
    >) {
        let entry_point = match &env.api_entry_point {
            Some(entry) => entry.clone(),
            None => "/".to_owned(),
        };
        Ok(MinimalConfig { entry_point })
    }
}

} // verus!
