//! The service and its settings.
//!
//! The operations of the service are chains of steps. A step says what is to be done
//! outside of this library; the next method takes the step and the outcome, and
//! decides what follows.
use vstd::prelude::*;
use r2d2_redis::RedisConnectionManager;
use redis::RedisError;
use crate::db::{FlupDb, REDIS_URL, StartError, connection_manager_for};

verus! {

/// The settings of the service.
#[derive(Debug, Clone, PartialEq)]
pub struct FlupConfig {
    pub host: String,
    pub url: String,
    pub salt: String,
    pub xforwarded: bool,
    pub xforwarded_index: usize,
}

/// The settings that decide what is answered.
#[verifier::ext_equal]
pub struct ConfigView {
    pub host: Seq<char>,
    pub url: Seq<char>,
    pub salt: Seq<char>,
    pub xforwarded: bool,
    pub xforwarded_index: nat,
}

impl View for FlupConfig {
    type V = ConfigView;

    open spec fn view(&self) -> ConfigView {
        ConfigView {
            host: self.host@,
            url: self.url@,
            salt: self.salt@,
            xforwarded: self.xforwarded,
            xforwarded_index: self.xforwarded_index as nat,
        }
    }
}

/// The service: its settings and its database.
#[derive(Debug, Clone, PartialEq)]
pub struct Flup {
    pub config: FlupConfig,
    pub db: FlupDb,
}

impl Flup {
    /// The service with the given settings, and what connects to its database.
    pub fn new(config: FlupConfig, key_prefix: String) -> (flup: Result<
        (Flup, RedisConnectionManager),
        StartError,
    >)
        ensures
            flup is Ok,
            flup->Ok_0.0.config == config,
            flup->Ok_0.0.db@ == key_prefix@,
            flup->Ok_0.0.db.key_prefix == key_prefix,
            connection_manager_for(REDIS_URL@) == Ok::<RedisConnectionManager, RedisError>(
                flup->Ok_0.1,
            ),
    {
        match FlupDb::new(key_prefix) {
            Ok((db, manager)) => Ok((Flup { config, db }, manager)),
            Err(error) => Err(error),
        }
    }
}

} // verus!
