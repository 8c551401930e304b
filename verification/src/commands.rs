//! Clipping a page: scrape it, have it summarized, write the report. The
//! decisions between those outside steps are a state machine; the caller
//! performs each action and reports what happened.
use vstd::prelude::*;

use crate::error::AppError;
use crate::llm::{ArticleSummary, LlmError, ToolSummary};
use crate::scrapper::{ScrapError, ScrapResult};
use crate::vault::VaultError;

verus! {

/// What is being clipped.
#[derive(Debug, Clone, Copy, PartialEq, Eq, Structural)]
pub enum ClipKind {
    /// An article; `read` says whether the report marks it as read.
    Article { read: bool },
    /// A tool's presentation page.
    Tool,
}

/// Where a clip stands.
#[derive(Debug, Clone, Copy, PartialEq, Eq, Structural)]
pub enum ClipStage {
    AwaitingPage,
    AwaitingSummary,
    AwaitingReport,
    Finished,
}

/// A clip in progress.
#[derive(Debug)]
pub struct ClipFlow {
    /// The page's URL.
    pub url: String,
    pub kind: ClipKind,
    pub stage: ClipStage,
    /// The page's title, once scraped.
    pub title: Option<String>,
}

/// What happened since the last action.
#[derive(Debug)]
pub enum ClipEvent {
    /// The page was scraped, or not.
    Scraped(Result<ScrapResult, ScrapError>),
    /// The article was summarized, or not.
    ArticleSummarized(Result<ArticleSummary, LlmError>),
    /// The tool page was summarized, or not.
    ToolSummarized(Result<ToolSummary, LlmError>),
    /// The report was written at the given path, or not.
    ReportWritten(Result<String, VaultError>),
}

/// What to do next.
#[derive(Debug)]
pub enum ClipAction {
    /// Scrape the page at this URL.
    Scrap(String),
    /// Summarize this article content.
    SummarizeArticle(String),
    /// Summarize this tool page content.
    SummarizeTool(String),
    /// Write an article report.
    WriteArticleReport {
        url: String,
        title: Option<String>,
        summary: String,
        tags: Vec<String>,
        read: bool,
    },
    /// Write a tool report.
    WriteToolReport { url: String, title: Option<String>, summary: String },
    /// The clip is over: the report's path, or why it failed.
    Finish(Result<String, AppError>),
}

/// How far along a clip is; each step moves it further.
pub open spec fn clip_rank(s: ClipStage) -> int {
    match s {
        ClipStage::AwaitingPage => 0,
        ClipStage::AwaitingSummary => 1,
        ClipStage::AwaitingReport => 2,
        ClipStage::Finished => 3,
    }
}

/// Whether `event` can happen to `flow`.
pub open spec fn clip_accepts(flow: ClipFlow, event: ClipEvent) -> bool {
    match flow.stage {
        ClipStage::AwaitingPage => event is Scraped,
        ClipStage::AwaitingSummary => match flow.kind {
            ClipKind::Article { .. } => event is ArticleSummarized,
            ClipKind::Tool => event is ToolSummarized,
        },
        ClipStage::AwaitingReport => event is ReportWritten,
        ClipStage::Finished => false,
    }
}

/// The clip ended, with this outcome.
pub open spec fn finished(flow: ClipFlow, outcome: Result<String, AppError>) -> (ClipFlow, ClipAction) {
    (ClipFlow { stage: ClipStage::Finished, ..flow }, ClipAction::Finish(outcome))
}

/// The next state and action of a clip, given what happened. Each failure
/// ends the clip with the error wrapped as an `AppError`; a scraped page is
/// summarized, its title kept for the report; a summary is written as a
/// report of the clip's URL and the page's title; a written report ends the
/// clip with its path.
pub open spec fn clip_next(flow: ClipFlow, event: ClipEvent) -> (ClipFlow, ClipAction) {
    match event {
        ClipEvent::Scraped(Err(e)) => finished(flow, Err(AppError::Scrap(e))),
        ClipEvent::Scraped(Ok(page)) => (
            ClipFlow { stage: ClipStage::AwaitingSummary, title: page.title, ..flow },
            match flow.kind {
                ClipKind::Article { .. } => ClipAction::SummarizeArticle(page.content),
                ClipKind::Tool => ClipAction::SummarizeTool(page.content),
            },
        ),
        ClipEvent::ArticleSummarized(Err(e)) => finished(flow, Err(AppError::Llm(e))),
        ClipEvent::ArticleSummarized(Ok(s)) => (
            ClipFlow { stage: ClipStage::AwaitingReport, title: None, ..flow },
            ClipAction::WriteArticleReport {
                url: flow.url,
                title: flow.title,
                summary: s.summary,
                tags: s.tags,
                read: match flow.kind {
                    ClipKind::Article { read } => read,
                    ClipKind::Tool => false,
                },
            },
        ),
        ClipEvent::ToolSummarized(Err(e)) => finished(flow, Err(AppError::Llm(e))),
        ClipEvent::ToolSummarized(Ok(s)) => (
            ClipFlow { stage: ClipStage::AwaitingReport, title: None, ..flow },
            ClipAction::WriteToolReport { url: flow.url, title: flow.title, summary: s.summary },
        ),
        ClipEvent::ReportWritten(Err(e)) => finished(flow, Err(AppError::Vault(e))),
        ClipEvent::ReportWritten(Ok(path)) => finished(flow, Ok(path)),
    }
}

/// The start of a clip of `url`: scrape it.
pub open spec fn clip_start(kind: ClipKind, url: String) -> (ClipFlow, ClipAction) {
    (
        ClipFlow { url: url, kind, stage: ClipStage::AwaitingPage, title: None },
        ClipAction::Scrap(url),
    )
}

impl ClipFlow {
    /// Starts clipping `url` as `kind`: the first action scrapes it.
    pub fn start(kind: ClipKind, url: String) -> (r: (ClipFlow, ClipAction))
        ensures
            r == clip_start(kind, url),
    {
        let first = url.clone();
        (ClipFlow { url, kind, stage: ClipStage::AwaitingPage, title: None }, ClipAction::Scrap(first))
    }

    /// Whether `event` can happen to this clip now.
    pub fn accepts(&self, event: &ClipEvent) -> (r: bool)
        ensures
            r == clip_accepts(*self, *event),
    {
        match self.stage {
            ClipStage::AwaitingPage => match event {
                ClipEvent::Scraped(_) => true,
                _ => false,
            },
            ClipStage::AwaitingSummary => match self.kind {
                ClipKind::Article { .. } => match event {
                    ClipEvent::ArticleSummarized(_) => true,
                    _ => false,
                },
                ClipKind::Tool => match event {
                    ClipEvent::ToolSummarized(_) => true,
                    _ => false,
                },
            },
            ClipStage::AwaitingReport => match event {
                ClipEvent::ReportWritten(_) => true,
                _ => false,
            },
            ClipStage::Finished => false,
        }
    }

    /// Takes one step of the clip: given what happened, the clip's next state
    /// and the action to perform.
    pub fn step(self, event: ClipEvent) -> (r: (ClipFlow, ClipAction))
        requires
            clip_accepts(self, event),
        ensures
            r == clip_next(self, event),
            clip_rank(r.0.stage) > clip_rank(self.stage),
    {
        let ClipFlow { url, kind, stage, title } = self;
        match event {
            ClipEvent::Scraped(Err(e)) => (
                ClipFlow { url, kind, stage: ClipStage::Finished, title },
                ClipAction::Finish(Err(AppError::Scrap(e))),
            ),
            ClipEvent::Scraped(Ok(page)) => {
                let ScrapResult { title: page_title, content, url: _ } = page;
                let action = match kind {
                    ClipKind::Article { .. } => ClipAction::SummarizeArticle(content),
                    ClipKind::Tool => ClipAction::SummarizeTool(content),
                };
                (ClipFlow { url, kind, stage: ClipStage::AwaitingSummary, title: page_title }, action)
            },
            ClipEvent::ArticleSummarized(Err(e)) => (
                ClipFlow { url, kind, stage: ClipStage::Finished, title },
                ClipAction::Finish(Err(AppError::Llm(e))),
            ),
            ClipEvent::ArticleSummarized(Ok(s)) => {
                let read = match kind {
                    ClipKind::Article { read } => read,
                    ClipKind::Tool => false,
                };
                let ArticleSummary { summary, tags } = s;
                let action = ClipAction::WriteArticleReport {
                    url: url.clone(),
                    title,
                    summary,
                    tags,
                    read,
                };
                (ClipFlow { url, kind, stage: ClipStage::AwaitingReport, title: None }, action)
            },
            ClipEvent::ToolSummarized(Err(e)) => (
                ClipFlow { url, kind, stage: ClipStage::Finished, title },
                ClipAction::Finish(Err(AppError::Llm(e))),
            ),
            ClipEvent::ToolSummarized(Ok(s)) => {
                let ToolSummary { summary } = s;
                let action = ClipAction::WriteToolReport { url: url.clone(), title, summary };
                (ClipFlow { url, kind, stage: ClipStage::AwaitingReport, title: None }, action)
            },
            ClipEvent::ReportWritten(Err(e)) => (
                ClipFlow { url, kind, stage: ClipStage::Finished, title },
                ClipAction::Finish(Err(AppError::Vault(e))),
            ),
            ClipEvent::ReportWritten(Ok(path)) => (
                ClipFlow { url, kind, stage: ClipStage::Finished, title },
                ClipAction::Finish(Ok(path)),
            ),
        }
    }
}

/// Law: an article clip that scrapes `page` and gets `summary` writes the
/// report of the URL it started with, the page's title, and the summary's
/// text and tags, with the requested read mark; it summarizes exactly the
/// page's content.
pub proof fn lemma_article_clip_writes_what_it_read(
    url: String,
    read: bool,
    page: ScrapResult,
    summary: ArticleSummary,
)
    ensures
        ({
            let (f0, a0) = clip_start(ClipKind::Article { read }, url);
            let (f1, a1) = clip_next(f0, ClipEvent::Scraped(Ok(page)));
            let (f2, a2) = clip_next(f1, ClipEvent::ArticleSummarized(Ok(summary)));
            &&& a0 == ClipAction::Scrap(url)
            &&& a1 == ClipAction::SummarizeArticle(page.content)
            &&& a2 == ClipAction::WriteArticleReport {
                url: url,
                title: page.title,
                summary: summary.summary,
                tags: summary.tags,
                read: read,
            }
            &&& f2.stage == ClipStage::AwaitingReport
        }),
{
}

/// Law: a tool clip that scrapes `page` and gets `summary` writes the report
/// of the URL it started with, the page's title and the summary's text; it
/// summarizes exactly the page's content.
pub proof fn lemma_tool_clip_writes_what_it_read(url: String, page: ScrapResult, summary: ToolSummary)
    ensures
        ({
            let (f0, a0) = clip_start(ClipKind::Tool, url);
            let (f1, a1) = clip_next(f0, ClipEvent::Scraped(Ok(page)));
            let (f2, a2) = clip_next(f1, ClipEvent::ToolSummarized(Ok(summary)));
            &&& a0 == ClipAction::Scrap(url)
            &&& a1 == ClipAction::SummarizeTool(page.content)
            &&& a2 == ClipAction::WriteToolReport {
                url: url,
                title: page.title,
                summary: summary.summary,
            }
        }),
{
}


/// Law: a clip can always go on with the answer to the action it was given.
/// A new clip accepts its page; after a scraped page a tool clip accepts the
/// tool summary (and not the article summary) and an article clip the
/// article summary (and not the tool summary); a clip asked to write a report
/// accepts the outcome of the write; a finished clip accepts nothing.
pub proof fn lemma_clip_goes_on(kind: ClipKind, url: String, flow: ClipFlow, event: ClipEvent)
    ensures
        forall|p: Result<ScrapResult, ScrapError>| #[trigger] clip_accepts(
            clip_start(kind, url).0,
            ClipEvent::Scraped(p),
        ),
        clip_accepts(flow, event) ==> ({
            let (next, action) = clip_next(flow, event);
            &&& action is Scrap ==> forall|p: Result<ScrapResult, ScrapError>|
                #[trigger] clip_accepts(next, ClipEvent::Scraped(p))
            &&& action is SummarizeTool ==> next.kind == ClipKind::Tool
                && forall|s: Result<ToolSummary, LlmError>|
                #[trigger] clip_accepts(next, ClipEvent::ToolSummarized(s))
                && forall|s: Result<ArticleSummary, LlmError>|
                !#[trigger] clip_accepts(next, ClipEvent::ArticleSummarized(s))
            &&& action is SummarizeArticle ==> next.kind is Article
                && forall|s: Result<ArticleSummary, LlmError>|
                #[trigger] clip_accepts(next, ClipEvent::ArticleSummarized(s))
                && forall|s: Result<ToolSummary, LlmError>|
                !#[trigger] clip_accepts(next, ClipEvent::ToolSummarized(s))
            &&& (action is WriteArticleReport || action is WriteToolReport) ==> forall|
                w: Result<String, VaultError>,
            | #[trigger] clip_accepts(next, ClipEvent::ReportWritten(w))
            &&& action is Finish ==> forall|e: ClipEvent| !#[trigger] clip_accepts(next, e)
        }),
        flow.kind == ClipKind::Tool && flow.stage == ClipStage::AwaitingSummary ==> forall|
            s: Result<ToolSummary, LlmError>,
        | #[trigger] clip_accepts(flow, ClipEvent::ToolSummarized(s)),
        flow.kind is Article && flow.stage == ClipStage::AwaitingSummary ==> forall|
            s: Result<ArticleSummary, LlmError>,
        | #[trigger] clip_accepts(flow, ClipEvent::ArticleSummarized(s)),
{
}

/// Law: a clip ends as soon as one of its steps fails, with that failure as
/// the outcome; no report is written after a failed scrape or summary.
pub proof fn lemma_clip_stops_at_first_failure(flow: ClipFlow, event: ClipEvent)
    requires
        clip_accepts(flow, event),
        match event {
            ClipEvent::Scraped(r) => r is Err,
            ClipEvent::ArticleSummarized(r) => r is Err,
            ClipEvent::ToolSummarized(r) => r is Err,
            ClipEvent::ReportWritten(r) => r is Err,
        },
    ensures
        clip_next(flow, event).0.stage == ClipStage::Finished,
        clip_next(flow, event).1 is Finish,
        clip_next(flow, event).1->Finish_0 is Err,
        !clip_accepts(clip_next(flow, event).0, event),
{
}

} // verus!
