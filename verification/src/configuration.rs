//! Configuration data for the application and its database, with the
//! connection strings they yield. Loading settings from files and the
//! environment is left to the surrounding program.

use crate::strutil::{spec_decimal, str_eq, u16_to_string};
use vstd::prelude::*;
use vstd::string::StringExecFns;

verus! {

/// Application-level settings: where the HTTP server listens.
pub struct ApplicationSettings {
    pub port: u16,
    pub host: String,
}

/// Connection parameters of the relational store.
pub struct DatabaseSettings {
    pub username: String,
    pub password: String,
    pub port: u16,
    pub host: String,
    pub database_name: String,
}

/// The settings the service is built from.
pub struct Settings {
    pub database: DatabaseSettings,
    pub application: ApplicationSettings,
}

/// The connection string of `d`, with the database name.
pub open spec fn spec_connection_string(d: &DatabaseSettings) -> Seq<char> {
    spec_connection_string_without_db(d) + "/"@ + d.database_name@
}

/// The connection string of `d`, up to and including the port.
pub open spec fn spec_connection_string_without_db(d: &DatabaseSettings) -> Seq<char> {
    "postgres://"@ + d.username@ + ":"@ + d.password@ + "@"@ + d.host@ + ":"@ + spec_decimal(
        d.port as nat,
    )
}

impl DatabaseSettings {
    /// `postgres://{username}:{password}@{host}:{port}/{database_name}`.
    pub fn connection_string(&self) -> (r: String)
        ensures
            r@ == spec_connection_string(self),
    {
        let mut s = self.connection_string_without_db();
        s.append("/");
        s.append(self.database_name.as_str());
        proof {
            assert(s@ =~= spec_connection_string(self));
        }
        s
    }

    /// `postgres://{username}:{password}@{host}:{port}`.
    pub fn connection_string_without_db(&self) -> (r: String)
        ensures
            r@ == spec_connection_string_without_db(self),
    {
        let mut s = String::from_str("postgres://");
        s.append(self.username.as_str());
        s.append(":");
        s.append(self.password.as_str());
        s.append("@");
        s.append(self.host.as_str());
        s.append(":");
        let port = u16_to_string(self.port);
        s.append(port.as_str());
        proof {
            assert(s@ =~= spec_connection_string_without_db(self));
        }
        s
    }
}

/// The runtime environment the service was configured for.
#[derive(Clone, Copy, PartialEq, Eq, Structural, Debug)]
pub enum Environment {
    Local,
    Production,
}

impl Environment {
    /// The name of the environment, as it appears in configuration files.
    pub fn as_str(&self) -> (r: &'static str)
        ensures
            match self {
                Environment::Local => r@ == "local"@,
                Environment::Production => r@ == "production"@,
            },
    {
        match self {
            Environment::Local => "local",
            Environment::Production => "production",
        }
    }

    /// Parse an environment name; only `local` and `production` are known.
    pub fn try_from(value: String) -> (r: Result<Environment, String>)
        ensures
            match r {
                Ok(Environment::Local) => value@ == "local"@,
                Ok(Environment::Production) => value@ == "production"@,
                Err(e) => {
                    &&& value@ != "local"@
                    &&& value@ != "production"@
                    &&& e@ == value@
                        + " is not a supported environment. Use either `local` or `production`."@
                },
            },
    {
        if str_eq(value.as_str(), "local") {
            Ok(Environment::Local)
        } else if str_eq(value.as_str(), "production") {
            Ok(Environment::Production)
        } else {
            Err(value.concat(" is not a supported environment. Use either `local` or `production`."))
        }
    }
}

} // verus!
