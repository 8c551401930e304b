//! Summaries produced by a language model, and the errors of talking to it.
use vstd::prelude::*;

pub mod groq;

use crate::text::concat;

verus! {

/// Failures while asking the language model.
#[derive(Debug)]
pub enum LlmError {
    /// The request could not be sent; the HTTP client's description.
    HttpRequest(String),
    /// An answer could not be decoded; the decoder's description.
    ResponseParse(String),
    /// The service answered with an error, or with nothing usable.
    Api(String),
}

/// The text shown for a language-model error.
pub open spec fn llm_error_message(e: LlmError) -> Seq<char> {
    match e {
        LlmError::HttpRequest(m) => "HTTP request failed: "@ + m@,
        LlmError::ResponseParse(m) => "Failed to parse response: "@ + m@,
        LlmError::Api(m) => "API returned an error: "@ + m@,
    }
}

impl LlmError {
    /// The text shown for this error.
    pub fn message(&self) -> (r: String)
        ensures
            r@ == llm_error_message(*self),
    {
        match self {
            LlmError::HttpRequest(m) => concat("HTTP request failed: ", m.as_str()),
            LlmError::ResponseParse(m) => concat("Failed to parse response: ", m.as_str()),
            LlmError::Api(m) => concat("API returned an error: ", m.as_str()),
        }
    }
}

/// Summary of an article, with a few tags.
#[derive(Debug)]
pub struct ArticleSummary {
    pub summary: String,
    pub tags: Vec<String>,
}

/// Summary of a tool's presentation page.
#[derive(Debug)]
pub struct ToolSummary {
    pub summary: String,
}

} // verus!
