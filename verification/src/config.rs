//! Settings read from the environment.
use vstd::prelude::*;

use crate::text::{concat, owned};

verus! {

/// Environment variable holding the vault's path.
pub const VAULT_PATH_VAR: &'static str = "FICHE_VAULT_PATH";

/// Environment variable holding the Groq API key.
pub const GROQ_API_KEY_VAR: &'static str = "GROQ_API_KEY";

/// Failures while loading the settings.
#[derive(Debug)]
pub enum ConfigError {
    /// The `.env` file could not be loaded; the loader's description.
    DotEnv(String),
    /// The named environment variable is not set.
    MissingVar(String),
}

/// The text shown for a settings error.
pub open spec fn config_error_message(e: ConfigError) -> Seq<char> {
    match e {
        ConfigError::DotEnv(m) => "Failed to load .env file: "@ + m@,
        ConfigError::MissingVar(v) => "Environment variable '"@ + v@ + "' is required but not set"@,
    }
}

impl ConfigError {
    /// The text shown for this error.
    pub fn message(&self) -> (r: String)
        ensures
            r@ == config_error_message(*self),
    {
        match self {
            ConfigError::DotEnv(m) => concat("Failed to load .env file: ", m.as_str()),
            ConfigError::MissingVar(v) => {
                let head = concat("Environment variable '", v.as_str());
                concat(head.as_str(), "' is required but not set")
            },
        }
    }
}

/// The settings.
#[derive(Debug, Clone)]
pub struct Config {
    pub vault_path: String,
    pub groq_api_key: String,
}

impl Config {
    /// The settings from the values of `FICHE_VAULT_PATH` and `GROQ_API_KEY`
    /// (`None` when a variable is unset); the first missing one, in that
    /// order, is reported.
    pub fn from_vars(vault_path: Option<String>, groq_api_key: Option<String>) -> (r: Result<
        Config,
        ConfigError,
    >)
        ensures
            match (vault_path, groq_api_key) {
                (Some(p), Some(k)) => r is Ok && r->Ok_0.vault_path == p && r->Ok_0.groq_api_key
                    == k,
                (None, _) => r is Err && r->Err_0 is MissingVar && r->Err_0->MissingVar_0@
                    == VAULT_PATH_VAR@,
                (Some(_), None) => r is Err && r->Err_0 is MissingVar && r->Err_0->MissingVar_0@
                    == GROQ_API_KEY_VAR@,
            },
    {
        let vault_path = match vault_path {
            Some(p) => p,
            None => return Err(ConfigError::MissingVar(owned(VAULT_PATH_VAR))),
        };
        let groq_api_key = match groq_api_key {
            Some(k) => k,
            None => return Err(ConfigError::MissingVar(owned(GROQ_API_KEY_VAR))),
        };
        Ok(Config { vault_path, groq_api_key })
    }
}

} // verus!
