//! Verified core of a command-line clipper that scrapes a web page, asks a
//! language model for a structured summary and files a Markdown report in a
//! notes vault.
pub mod cli;
pub mod commands;
pub mod config;
pub mod error;
pub mod llm;
pub mod scrapper;
pub mod text;
pub mod vault;
