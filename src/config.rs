use vstd::prelude::*;

use crate::errors::AppError;
use crate::numbers::{numeral_value, parse_decimal};

verus! {

/// Process-wide settings, read once at startup and passed to whatever needs
/// them: the token signing secret and the address to listen on.
#[derive(Debug, Clone)]
pub struct Config {
    pub jwt_secret: String,
    pub server_host: String,
    pub server_port: u16,
}

/// The port that a configured value selects: the value read as a number,
/// 8080 when none is configured.
pub open spec fn selected_port(port: Option<Seq<char>>) -> Option<int> {
    match port {
        Some(p) => numeral_value(p, u16::MAX as int),
        None => Some(8080),
    }
}

impl Config {
    /// Settings from configured values. A missing secret is a configuration
    /// error (any configured value is kept as it is), and so is a port that is not a number up to
    /// 65535; the host defaults to `127.0.0.1` and the port to 8080.
    pub fn from_values(jwt_secret: Option<String>, server_host: Option<String>, server_port: Option<
        String,
    >) -> (r: Result<Config, AppError>)
        ensures
            ({
                let secret_ok = jwt_secret is Some;
                let port = selected_port(match server_port {
                    Some(p) => Some(p@),
                    None => None,
                });
                if secret_ok && port is Some {
                    r matches Ok(c) && Some(c.jwt_secret@) == (match jwt_secret {
                        Some(s) => Some(s@),
                        None => None,
                    }) && c.server_port as int == port->0 && c.server_host@ == (match server_host {
                        Some(h) => h@,
                        None => "127.0.0.1"@,
                    })
                } else {
                    r matches Err(AppError::ConfigurationError)
                }
            }),
    {
        let secret = match jwt_secret {
            Some(s) => s,
            None => return Err(AppError::ConfigurationError),
        };
        let port: u16 = match &server_port {
            Some(p) => {
                let parsed = parse_decimal(p.as_str(), 65535);
                match parsed {
                    Some(v) => v as u16,
                    None => return Err(AppError::ConfigurationError),
                }
            },
            None => 8080,
        };
        let host = match server_host {
            Some(h) => h,
            None => "127.0.0.1".to_owned(),
        };
        Ok(Config { jwt_secret: secret, server_host: host, server_port: port })
    }
}

} // verus!
