//! Service configuration: the database connection settings, validated from
//! plain environment-variable values.  Reading the environment itself is the
//! surrounding binary's job; this module owns the validation policy.

use vstd::prelude::*;
use crate::text::{parse_u32, parse_u32_spec};

verus! {

/// Database connection settings.
#[derive(Debug, Clone)]
pub struct Config {
    pub db_host: String,
    pub db_port: u16,
    pub db_user: String,
    pub db_password: String,
    pub db_name: String,
}

/// Why a configuration could not be built.
#[derive(Debug, Clone)]
pub enum ConfigError {
    /// A required variable was absent; the payload names it.
    MissingVar(String),
    /// The port variable was present but is not a valid port number; the
    /// payload holds the offending text.
    InvalidPort(String),
}

/// A port text is valid when it parses as a number that fits in 16 bits.
pub open spec fn valid_port_text(s: Seq<char>) -> bool {
    match parse_u32_spec(s) {
        Some(v) => v <= u16::MAX as u32,
        None => false,
    }
}

/// Builds the configuration from the five environment values, each absent or
/// present.  The variables are checked in a fixed order — host, port, user,
/// password, name — and the first absent one is reported; a present but
/// malformed port is reported after all five are found present.
pub fn config_from_env_values(
    db_host: Option<String>,
    db_port: Option<String>,
    db_user: Option<String>,
    db_password: Option<String>,
    db_name: Option<String>,
) -> (r: Result<Config, ConfigError>)
    ensures
        db_host is None ==> (r matches Err(ConfigError::MissingVar(v)) && v@ == "DB_HOST"@),
        db_host is Some && db_port is None ==> (r matches Err(ConfigError::MissingVar(v)) && v@
            == "DB_PORT"@),
        db_host is Some && db_port is Some && db_user is None ==> (r matches Err(
            ConfigError::MissingVar(v),
        ) && v@ == "DB_USER"@),
        db_host is Some && db_port is Some && db_user is Some && db_password is None ==> (r matches
            Err(ConfigError::MissingVar(v)) && v@ == "DB_PASSWORD"@),
        db_host is Some && db_port is Some && db_user is Some && db_password is Some && db_name
            is None ==> (r matches Err(ConfigError::MissingVar(v)) && v@ == "DB_NAME"@),
        db_host is Some && db_port is Some && db_user is Some && db_password is Some && db_name
            is Some && !valid_port_text(db_port->0@) ==> (r matches Err(
            ConfigError::InvalidPort(v),
        ) && v@ == db_port->0@),
        db_host is Some && db_port is Some && db_user is Some && db_password is Some && db_name
            is Some && valid_port_text(db_port->0@) ==> (r matches Ok(c) && c.db_host@ == db_host
            ->0@ && c.db_port as int == parse_u32_spec(db_port->0@)->0 as int && c.db_user@
            == db_user->0@ && c.db_password@ == db_password->0@ && c.db_name@ == db_name->0@),
{
    let host = match db_host {
        Some(v) => v,
        None => {
            return Err(ConfigError::MissingVar("DB_HOST".to_owned()));
        },
    };
    let port_text = match db_port {
        Some(v) => v,
        None => {
            return Err(ConfigError::MissingVar("DB_PORT".to_owned()));
        },
    };
    let user = match db_user {
        Some(v) => v,
        None => {
            return Err(ConfigError::MissingVar("DB_USER".to_owned()));
        },
    };
    let password = match db_password {
        Some(v) => v,
        None => {
            return Err(ConfigError::MissingVar("DB_PASSWORD".to_owned()));
        },
    };
    let name = match db_name {
        Some(v) => v,
        None => {
            return Err(ConfigError::MissingVar("DB_NAME".to_owned()));
        },
    };
    let port: u16 = match parse_u32(port_text.as_str()) {
        Some(v) => {
            if v <= u16::MAX as u32 {
                v as u16
            } else {
                return Err(ConfigError::InvalidPort(port_text));
            }
        },
        None => {
            return Err(ConfigError::InvalidPort(port_text));
        },
    };
    Ok(
        Config {
            db_host: host,
            db_port: port,
            db_user: user,
            db_password: password,
            db_name: name,
        },
    )
}

} // verus!
