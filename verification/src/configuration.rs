//! Settings the service is started with.

use crate::domain::user_password::SecretString;
use crate::text::{join, lowercased, same_text, to_lowercase};
use vstd::prelude::*;

verus! {

/// The possible runtime environment for our application.
#[derive(Clone, Copy, Debug, PartialEq, Eq, Structural)]
pub enum Environment {
    Local,
    Production,
}

/// What is said of a name that is no environment's, after the name.
pub const UNSUPPORTED_ENVIRONMENT: &'static str =
    " is not a supported environment. Use either `local` or `production`.";

/// The environment with the name, which is taken as it stands.
pub open spec fn named(name: Seq<char>) -> Option<Environment> {
    if name == "local"@ {
        Some(Environment::Local)
    } else if name == "production"@ {
        Some(Environment::Production)
    } else {
        None
    }
}

/// The environment that the variable names, and the local one where the
/// variable is not set. Upper and lower case are the same in a name.
pub open spec fn selected(variable: Option<Seq<char>>) -> Option<Environment> {
    match variable {
        Some(name) => named(lowercased(name)),
        None => Some(Environment::Local),
    }
}

impl Environment {
    /// The name under which the environment is written in configuration.
    pub open spec fn name(self) -> Seq<char> {
        match self {
            Environment::Local => "local"@,
            Environment::Production => "production"@,
        }
    }

    pub fn as_str(&self) -> (r: &'static str)
        ensures
            r@ == self.name(),
    {
        match self {
            Environment::Local => "local",
            Environment::Production => "production",
        }
    }

    /// The environment with the name, which is taken as it stands: `local` or
    /// `production`. Any other name is refused, and the error says which name
    /// it was.
    pub fn from_name(name: &str) -> (r: Result<Environment, String>)
        ensures
            match r {
                Ok(environment) => named(name@) == Some(environment),
                Err(message) => named(name@) is None && message@ == name@
                    + UNSUPPORTED_ENVIRONMENT@,
            },
    {
        if same_text(name, "local") {
            Ok(Environment::Local)
        } else if same_text(name, "production") {
            Ok(Environment::Production)
        } else {
            Err(join(name, UNSUPPORTED_ENVIRONMENT))
        }
    }

    /// The environment with the name, upper and lower case being the same.
    /// The error names the name in lower case.
    pub fn try_from(s: String) -> (r: Result<Environment, String>)
        ensures
            match r {
                Ok(environment) => named(lowercased(s@)) == Some(environment),
                Err(message) => named(lowercased(s@)) is None && message@ == lowercased(s@)
                    + UNSUPPORTED_ENVIRONMENT@,
            },
    {
        let lower = to_lowercase(s.as_str());
        Environment::from_name(lower.as_str())
    }

    /// The environment that the variable names, and the local one where the
    /// variable is not set.
    pub fn from_variable(variable: Option<String>) -> (r: Result<Environment, String>)
        ensures
            match r {
                Ok(environment) => selected(text_in(variable)) == Some(environment),
                Err(message) => selected(text_in(variable)) is None && message@ == lowercased(
                    variable->0@,
                ) + UNSUPPORTED_ENVIRONMENT@,
            },
    {
        match variable {
            Some(name) => Environment::try_from(name),
            None => Ok(Environment::Local),
        }
    }

    /// The name of the file that holds the environment's settings.
    pub fn settings_file(&self) -> (file: String)
        ensures
            file@ == self.name() + ".yaml"@,
    {
        join(self.as_str(), ".yaml")
    }
}

/// The text of the variable, if it is set.
pub open spec fn text_in(variable: Option<String>) -> Option<Seq<char>> {
    match variable {
        Some(text) => Some(text@),
        None => None,
    }
}

/// Settings for tests.
#[derive(Clone, Debug)]
pub struct TestSettings {
    pub secret_key: String,
}

/// Where the database is and how to log in to it.
#[derive(Debug)]
pub struct DatabaseSettings {
    pub username: String,
    pub password: SecretString,
    pub port: u16,
    pub host: String,
    pub database_name: String,
    pub require_ssl: bool,
}

/// Whether a connection must be encrypted.
#[derive(Clone, Copy, Debug, PartialEq, Eq, Structural)]
pub enum SslMode {
    /// Encrypted, or no connection.
    Require,
    /// Encrypted where the server offers it.
    Prefer,
}

/// What a connection to the database server is opened with.
#[derive(Debug)]
pub struct ConnectOptions<'a> {
    pub host: &'a str,
    pub username: &'a str,
    pub password: &'a SecretString,
    pub port: u16,
    pub ssl_mode: SslMode,
    /// The database to use, where one is chosen.
    pub database: Option<&'a str>,
    /// Whether every statement is written to the log, at the level of traces.
    pub trace_statements: bool,
}

impl DatabaseSettings {
    /// The encryption that the settings ask for.
    pub open spec fn ssl_mode(&self) -> SslMode {
        if self.require_ssl {
            SslMode::Require
        } else {
            SslMode::Prefer
        }
    }

    /// A connection to the server, with no database chosen.
    pub fn without_db(&self) -> (options: ConnectOptions<'_>)
        ensures
            options.host@ == self.host@,
            options.username@ == self.username@,
            options.password@ == self.password@,
            options.port == self.port,
            options.ssl_mode == self.ssl_mode(),
            options.database is None,
            !options.trace_statements,
    {
        let ssl_mode = if self.require_ssl {
            SslMode::Require
        } else {
            SslMode::Prefer
        };
        ConnectOptions {
            host: self.host.as_str(),
            username: self.username.as_str(),
            password: &self.password,
            port: self.port,
            ssl_mode,
            database: None,
            trace_statements: false,
        }
    }

    /// A connection to the service's database, with every statement logged.
    pub fn with_db(&self) -> (options: ConnectOptions<'_>)
        ensures
            options.host@ == self.host@,
            options.username@ == self.username@,
            options.password@ == self.password@,
            options.port == self.port,
            options.ssl_mode == self.ssl_mode(),
            options.database matches Some(name) && name@ == self.database_name@,
            options.trace_statements,
    {
        let base = self.without_db();
        ConnectOptions {
            host: base.host,
            username: base.username,
            password: base.password,
            port: base.port,
            ssl_mode: base.ssl_mode,
            database: Some(self.database_name.as_str()),
            trace_statements: true,
        }
    }
}

} // verus!
