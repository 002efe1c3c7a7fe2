//! The shared configuration record.
//!
//! One read-only record, built at startup, holds the signing secret and the
//! datastore and bind settings. Loading it from the environment is the
//! caller's business; the library only fixes the record's shape and its
//! default values.

use vstd::prelude::*;
use vstd::string::*;

verus! {

/// The configuration shared by every request.
#[derive(Debug)]
pub struct Config {
    pub mongodb_uri: String,
    pub database_name: String,
    pub jwt_secret: String,
    pub port: u16,
    pub address: String,
}

impl Config {
    /// Builds a configuration from explicit values.
    pub fn new(
        mongodb_uri: String,
        database_name: String,
        jwt_secret: String,
        port: u16,
        address: String,
    ) -> (c: Config)
        ensures
            c.mongodb_uri == mongodb_uri,
            c.database_name == database_name,
            c.jwt_secret == jwt_secret,
            c.port == port,
            c.address == address,
    {
        Config { mongodb_uri, database_name, jwt_secret, port, address }
    }
}

impl Default for Config {
    /// The development defaults; a deployment must override the secret.
    fn default() -> (c: Config)
        ensures
            c.mongodb_uri@ == "mongodb://localhost:27017"@,
            c.database_name@ == "todo_rust_db"@,
            c.jwt_secret@ == "default_secret_change_me"@,
            c.port == 8000,
            c.address@ == "127.0.0.1"@,
    {
        Config {
            mongodb_uri: String::from_str("mongodb://localhost:27017"),
            database_name: String::from_str("todo_rust_db"),
            jwt_secret: String::from_str("default_secret_change_me"),
            port: 8000,
            address: String::from_str("127.0.0.1"),
        }
    }
}

} // verus!
