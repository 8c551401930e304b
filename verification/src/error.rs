//! The errors that end a run.
use vstd::prelude::*;

use crate::config::{config_error_message, ConfigError};
use crate::llm::{llm_error_message, LlmError};
use crate::scrapper::{scrap_error_message, ScrapError};
use crate::text::concat;
use crate::vault::{vault_error_message, VaultError};

verus! {

/// Any failure of a run.
#[derive(Debug)]
pub enum AppError {
    Config(ConfigError),
    InitializationError(String),
    Scrap(ScrapError),
    Llm(LlmError),
    Vault(VaultError),
}

/// The text shown for a failed run.
pub open spec fn app_error_message(e: AppError) -> Seq<char> {
    match e {
        AppError::Config(c) => "Configuration error: "@ + config_error_message(c),
        AppError::InitializationError(m) => "Failed to initialize application context: "@ + m@,
        AppError::Scrap(s) => "Scraping error: "@ + scrap_error_message(s),
        AppError::Llm(l) => "LLM error: "@ + llm_error_message(l),
        AppError::Vault(v) => "Vault error: "@ + vault_error_message(v),
    }
}

impl AppError {
    /// The text shown for this error.
    pub fn message(&self) -> (r: String)
        ensures
            r@ == app_error_message(*self),
    {
        match self {
            AppError::Config(c) => concat("Configuration error: ", c.message().as_str()),
            AppError::InitializationError(m) => concat(
                "Failed to initialize application context: ",
                m.as_str(),
            ),
            AppError::Scrap(s) => concat("Scraping error: ", s.message().as_str()),
            AppError::Llm(l) => concat("LLM error: ", l.message().as_str()),
            AppError::Vault(v) => concat("Vault error: ", v.message().as_str()),
        }
    }
}

impl From<ConfigError> for AppError {
    fn from(e: ConfigError) -> (r: Self) {
        AppError::Config(e)
    }
}

impl vstd::std_specs::convert::FromSpecImpl<ConfigError> for AppError {
    open spec fn obeys_from_spec() -> bool {
        true
    }

    open spec fn from_spec(v: ConfigError) -> Self {
        AppError::Config(v)
    }
}

impl From<ScrapError> for AppError {
    fn from(e: ScrapError) -> (r: Self) {
        AppError::Scrap(e)
    }
}

impl vstd::std_specs::convert::FromSpecImpl<ScrapError> for AppError {
    open spec fn obeys_from_spec() -> bool {
        true
    }

    open spec fn from_spec(v: ScrapError) -> Self {
        AppError::Scrap(v)
    }
}

impl From<LlmError> for AppError {
    fn from(e: LlmError) -> (r: Self) {
        AppError::Llm(e)
    }
}

impl vstd::std_specs::convert::FromSpecImpl<LlmError> for AppError {
    open spec fn obeys_from_spec() -> bool {
        true
    }

    open spec fn from_spec(v: LlmError) -> Self {
        AppError::Llm(v)
    }
}

impl From<VaultError> for AppError {
    fn from(e: VaultError) -> (r: Self) {
        AppError::Vault(e)
    }
}

impl vstd::std_specs::convert::FromSpecImpl<VaultError> for AppError {
    open spec fn obeys_from_spec() -> bool {
        true
    }

    open spec fn from_spec(v: VaultError) -> Self {
        AppError::Vault(v)
    }
}

} // verus!
