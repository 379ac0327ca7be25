//! Where the database is and how to log in.

use vstd::prelude::*;

use crate::strings::{parse_u64, parsed_u64, trim, trimmed};

verus! {

/// The settings of a database connection. A missing port means 3306.
#[derive(Debug)]
pub struct EnvVars {
    pub host: Option<String>,
    pub user: Option<String>,
    pub password: Option<String>,
    pub db_name: Option<String>,
    pub port: Option<u16>,
}

/// The environment variables the settings are read from.
#[derive(Debug, PartialEq, Eq, Clone, Copy, Structural)]
pub enum EnvVarKeys {
    Host,
    User,
    Password,
    DbName,
    Port,
}

impl EnvVarKeys {
    /// The variable's name.
    pub open spec fn name(self) -> Seq<char> {
        match self {
            Self::Host => "WORDPRESS_DB_HOST"@,
            Self::User => "WORDPRESS_DB_USER"@,
            Self::Password => "WORDPRESS_DB_PASSWORD"@,
            Self::DbName => "WORDPRESS_DB_NAME"@,
            Self::Port => "WORDPRESS_DB_PORT"@,
        }
    }

    pub fn as_str(&self) -> (r: &'static str)
        ensures
            r@ == self.name(),
    {
        match self {
            Self::Host => "WORDPRESS_DB_HOST",
            Self::User => "WORDPRESS_DB_USER",
            Self::Password => "WORDPRESS_DB_PASSWORD",
            Self::DbName => "WORDPRESS_DB_NAME",
            Self::Port => "WORDPRESS_DB_PORT",
        }
    }
}

/// The port that a text names: the number it holds between white space, if
/// that is a number up to 65535.
pub open spec fn port_of_text(text: Seq<char>) -> Option<u16> {
    match parsed_u64(trimmed(text)) {
        Some(n) => if n <= u16::MAX {
            Some(n as u16)
        } else {
            None
        },
        None => None,
    }
}

/// Reads a port from a text.
pub fn parse_port(text: &str) -> (r: Option<u16>)
    ensures
        r == port_of_text(text@),
{
    match parse_u64(trim(text)) {
        Some(n) => if n <= 65535 {
            Some(n as u16)
        } else {
            None
        },
        None => None,
    }
}

impl EnvVars {
    /// The port to connect to: 3306 where none is set.
    pub open spec fn port_or_default(self) -> u16 {
        match self.port {
            Some(port) => port,
            None => 3306,
        }
    }

    pub fn new(
        host: String,
        user: String,
        password: String,
        db_name: String,
        port: Option<u16>,
    ) -> (r: EnvVars)
        ensures
            r.host == Some(host),
            r.user == Some(user),
            r.password == Some(password),
            r.db_name == Some(db_name),
            r.port == port,
    {
        EnvVars {
            host: Some(host),
            user: Some(user),
            password: Some(password),
            db_name: Some(db_name),
            port,
        }
    }

    /// The settings that the values of the five variables make. A variable
    /// that is not set leaves its setting open; so does a port that is no
    /// number.
    pub fn from_values(
        host: Option<String>,
        user: Option<String>,
        password: Option<String>,
        db_name: Option<String>,
        port: Option<String>,
    ) -> (r: EnvVars)
        ensures
            r.host == host,
            r.user == user,
            r.password == password,
            r.db_name == db_name,
            r.port == (match port {
                Some(text) => port_of_text(text@),
                None => None,
            }),
    {
        let port = match port {
            Some(text) => parse_port(text.as_str()),
            None => None,
        };
        EnvVars { host, user, password, db_name, port }
    }

    /// The port to connect to.
    pub fn tcp_port(&self) -> (r: u16)
        ensures
            r == self.port_or_default(),
    {
        match self.port {
            Some(port) => port,
            None => 3306,
        }
    }
}

} // verus!
