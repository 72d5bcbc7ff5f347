//! Process-wide configuration: the credentials every request must match,
//! the listening port, the shell handed to a freshly created session, and
//! the one session name all connections attach to.  The values arrive from
//! the process environment; this module owns the validation and the
//! defaults, so a missing or malformed required value is rejected exactly
//! once, before anything listens.

use vstd::prelude::*;
use vstd::string::StringExecFns;
use crate::numbers::{parse_u16, parse_u16_spec};

verus! {

/// The deployment's settings.
pub struct Config {
    /// Port the server listens on.
    pub port: u16,
    /// Username every client must present.
    pub username: String,
    /// Password every client must present.
    pub password: String,
    /// Default shell for a freshly created session.
    pub shell: String,
    /// Name of the one multiplexer session all connections share.
    pub session: String,
}

/// Why a configuration was rejected.
#[derive(Clone, Copy, PartialEq, Eq, Structural, Debug)]
pub enum ConfigError {
    /// The required username setting is absent.
    MissingUsername,
    /// The required password setting is absent.
    MissingPassword,
    /// The port setting is present but no valid port number.
    InvalidPort,
}

impl Clone for Config {
    /// An identical configuration.
    fn clone(&self) -> (other: Config)
        ensures
            other.port == self.port,
            other.username@ == self.username@,
            other.password@ == self.password@,
            other.shell@ == self.shell@,
            other.session@ == self.session@,
    {
        Config {
            port: self.port,
            username: self.username.clone(),
            password: self.password.clone(),
            shell: self.shell.clone(),
            session: self.session.clone(),
        }
    }
}

impl ConfigError {
    /// The human-readable explanation the process prints before it exits
    /// with a non-zero status.
    pub fn message(&self) -> (text: String)
        ensures
            self == ConfigError::MissingUsername ==> text@ == "TERM_USERNAME environment variable is required"@,
            self == ConfigError::MissingPassword ==> text@ == "TERM_PASSWORD environment variable is required"@,
            self == ConfigError::InvalidPort ==> text@ == "TERM_PORT must be a valid port number"@,
    {
        match self {
            ConfigError::MissingUsername => String::from_str(
                "TERM_USERNAME environment variable is required",
            ),
            ConfigError::MissingPassword => String::from_str(
                "TERM_PASSWORD environment variable is required",
            ),
            ConfigError::InvalidPort => String::from_str("TERM_PORT must be a valid port number"),
        }
    }
}

impl Config {
    /// Validates the raw environment values and fills in the defaults:
    /// username and password are required, the port defaults to 3000 and
    /// must otherwise be a decimal port number, the shell defaults to
    /// `/bin/sh`, and the session name to `main`.
    pub fn from_values(
        username: Option<String>,
        password: Option<String>,
        port: Option<String>,
        shell: Option<String>,
        session: Option<String>,
    ) -> (r: Result<Config, ConfigError>)
        ensures
            username is None <==> r == Err::<Config, ConfigError>(ConfigError::MissingUsername),
            username is Some && password is None <==> r == Err::<Config, ConfigError>(
                ConfigError::MissingPassword,
            ),
            username is Some && password is Some && (match port {
                Some(p) => parse_u16_spec(p@) is None,
                None => false,
            }) <==> r == Err::<Config, ConfigError>(ConfigError::InvalidPort),
            r is Ok ==> {
                let c = r.unwrap();
                &&& c.username@ == username.unwrap()@
                &&& c.password@ == password.unwrap()@
                &&& c.port == (match port {
                    Some(p) => parse_u16_spec(p@).unwrap(),
                    None => 3000u16,
                })
                &&& c.shell@ == (match shell {
                    Some(s) => s@,
                    None => "/bin/sh"@,
                })
                &&& c.session@ == (match session {
                    Some(s) => s@,
                    None => "main"@,
                })
            },
    {
        let username = match username {
            Some(u) => u,
            None => {
                return Err(ConfigError::MissingUsername);
            },
        };
        let password = match password {
            Some(p) => p,
            None => {
                return Err(ConfigError::MissingPassword);
            },
        };
        let port: u16 = match port {
            Some(p) => match parse_u16(p.as_str()) {
                Some(n) => n,
                None => {
                    return Err(ConfigError::InvalidPort);
                },
            },
            None => 3000,
        };
        let shell = match shell {
            Some(s) => s,
            None => String::from_str("/bin/sh"),
        };
        let session = match session {
            Some(s) => s,
            None => String::from_str("main"),
        };
        Ok(Config { port, username, password, shell, session })
    }
}

} // verus!
