//! The settings that the application starts with.

use vstd::prelude::*;
use vstd::string::*;
use crate::errors::{CustomError, ErrorView};
use crate::text::{parse_u16, parsed_u16};

verus! {

#[derive(Debug, Clone, PartialEq, Eq)]
pub struct Config {
    pub port: u16,
    pub database_url: String,
    pub github_client_id: String,
    pub github_client_secret: String,
    pub github_redirect_url: String,
}

/// The values of the environment that the settings are read from, each
/// `None` where the variable is not set.
#[derive(Debug, Clone, PartialEq, Eq)]
pub struct Environment {
    pub port: Option<String>,
    pub database_url: Option<String>,
    pub github_client_id: Option<String>,
    pub github_client_secret: Option<String>,
    pub github_redirect_url: Option<String>,
}

/// The first of the settings that cannot be had from the environment, as
/// the message that reports it.
pub open spec fn first_fault(environment: Environment) -> Option<Seq<char>> {
    match environment.port {
        None => Some("PORT environment variable not set"@),
        Some(port) => if parsed_u16(port@) is None {
            Some("Failed to parse PORT as u16"@)
        } else if environment.database_url is None {
            Some("DATABASE_URL environment variable not set"@)
        } else if environment.github_client_id is None {
            Some("GITHUB_CLIENT_ID environment variable not set"@)
        } else if environment.github_client_secret is None {
            Some("GITHUB_CLIENT_SECRET environment variable not set"@)
        } else if environment.github_redirect_url is None {
            Some("GITHUB_REDIRECT_URL environment variable not set"@)
        } else {
            None
        },
    }
}

fn required(value: Option<String>, message: &str) -> (setting: Result<String, CustomError>)
    ensures
        match value {
            Some(text) => setting == Ok::<String, CustomError>(text),
            None => setting matches Err(error) && error@ == ErrorView::ConfigError(message@),
        },
{
    match value {
        Some(text) => Ok(text),
        None => Err(CustomError::ConfigError(message.to_string())),
    }
}

impl Config {
    /// The settings as the environment gives them. A variable that is not
    /// set, or a port that is no number, is a configuration error, and the
    /// first one in the order of the fields is reported.
    pub fn from_environment(environment: Environment) -> (config: Result<Config, CustomError>)
        ensures
            match first_fault(environment) {
                Some(message) => config matches Err(error) && error@ == ErrorView::ConfigError(
                    message,
                ),
                None => config matches Ok(made) && Some(made.port) == parsed_u16(
                    environment.port->Some_0@,
                ) && Some(made.database_url) == environment.database_url && Some(
                    made.github_client_id,
                ) == environment.github_client_id && Some(made.github_client_secret)
                    == environment.github_client_secret && Some(made.github_redirect_url)
                    == environment.github_redirect_url,
            },
    {
        let port_text = required(environment.port, "PORT environment variable not set")?;
        let port = match parse_u16(port_text.as_str()) {
            Some(number) => number,
            None => {
                return Err(CustomError::ConfigError("Failed to parse PORT as u16".to_string()));
            },
        };
        let database_url = required(
            environment.database_url,
            "DATABASE_URL environment variable not set",
        )?;
        let github_client_id = required(
            environment.github_client_id,
            "GITHUB_CLIENT_ID environment variable not set",
        )?;
        let github_client_secret = required(
            environment.github_client_secret,
            "GITHUB_CLIENT_SECRET environment variable not set",
        )?;
        let github_redirect_url = required(
            environment.github_redirect_url,
            "GITHUB_REDIRECT_URL environment variable not set",
        )?;
        Ok(Config { port, database_url, github_client_id, github_client_secret, github_redirect_url })
    }
}

} // verus!
