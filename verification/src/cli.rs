//! The command line: a verbosity flag and one of two commands.
use vstd::prelude::*;

verus! {

/// The parsed command line.
#[derive(Debug)]
pub struct Args {
    /// Enable verbose logging.
    pub verbose: bool,
    pub command: Commands,
}

/// What to clip.
#[derive(Debug)]
pub enum Commands {
    Article(ArticleClipCommand),
    Tool(ToolClipCommand),
}

/// Clip an article.
#[derive(Debug)]
pub struct ArticleClipCommand {
    /// The URL.
    pub url: String,
}

/// Clip a tool's presentation page.
#[derive(Debug)]
pub struct ToolClipCommand {
    /// The URL.
    pub url: String,
}

} // verus!
