use fiche::commands::{ClipAction, ClipEvent, ClipFlow, ClipKind, ClipStage};
use fiche::config::{Config, ConfigError};
use fiche::error::AppError;
use fiche::llm::{ArticleSummary, LlmError, ToolSummary};
use fiche::scrapper::{ScrapError, ScrapResult};
use fiche::vault::VaultError;

fn page() -> ScrapResult {
    ScrapResult {
        title: Some("Title".to_string()),
        content: "# Content".to_string(),
        url: "https://a.b".to_string(),
    }
}

#[test]
fn article_clip_runs_to_its_report() {
    let (flow, action) = ClipFlow::start(ClipKind::Article { read: true }, "https://a.b".to_string());
    assert!(matches!(action, ClipAction::Scrap(ref u) if u == "https://a.b"));
    assert_eq!(flow.stage, ClipStage::AwaitingPage);
    let (flow, action) = flow.step(ClipEvent::Scraped(Ok(page())));
    assert!(matches!(action, ClipAction::SummarizeArticle(ref c) if c == "# Content"));
    let summary = ArticleSummary { summary: "S".to_string(), tags: vec!["t1".to_string()] };
    assert!(flow.accepts(&ClipEvent::ArticleSummarized(Err(LlmError::Api(String::new())))));
    assert!(!flow.accepts(&ClipEvent::ToolSummarized(Err(LlmError::Api(String::new())))));
    let (flow, action) = flow.step(ClipEvent::ArticleSummarized(Ok(summary)));
    match action {
        ClipAction::WriteArticleReport { url, title, summary, tags, read } => {
            assert_eq!(url, "https://a.b");
            assert_eq!(title, Some("Title".to_string()));
            assert_eq!(summary, "S");
            assert_eq!(tags, vec!["t1".to_string()]);
            assert!(read);
        }
        other => panic!("unexpected {:?}", other),
    }
    let (flow, action) = flow.step(ClipEvent::ReportWritten(Ok("/vault/x.md".to_string())));
    assert_eq!(flow.stage, ClipStage::Finished);
    assert!(matches!(action, ClipAction::Finish(Ok(ref p)) if p == "/vault/x.md"));
    assert!(!flow.accepts(&ClipEvent::ReportWritten(Ok(String::new()))));
}

#[test]
fn tool_clip_runs_to_its_report() {
    let (flow, _) = ClipFlow::start(ClipKind::Tool, "https://t".to_string());
    let (flow, action) = flow.step(ClipEvent::Scraped(Ok(page())));
    assert!(matches!(action, ClipAction::SummarizeTool(_)));
    let (_, action) = flow.step(ClipEvent::ToolSummarized(Ok(ToolSummary { summary: "T".to_string() })));
    match action {
        ClipAction::WriteToolReport { url, title, summary } => {
            assert_eq!(url, "https://t");
            assert_eq!(title, Some("Title".to_string()));
            assert_eq!(summary, "T");
        }
        other => panic!("unexpected {:?}", other),
    }
}

#[test]
fn clips_stop_at_the_first_failure() {
    let (flow, _) = ClipFlow::start(ClipKind::Tool, "u".to_string());
    let (flow, action) = flow.step(ClipEvent::Scraped(Err(ScrapError::FetchError("dns".to_string()))));
    assert_eq!(flow.stage, ClipStage::Finished);
    assert!(matches!(action, ClipAction::Finish(Err(AppError::Scrap(ScrapError::FetchError(_))))));

    let (flow, _) = ClipFlow::start(ClipKind::Article { read: false }, "u".to_string());
    let (flow, _) = flow.step(ClipEvent::Scraped(Ok(page())));
    let (flow, action) = flow.step(ClipEvent::ArticleSummarized(Err(LlmError::Api("x".to_string()))));
    assert_eq!(flow.stage, ClipStage::Finished);
    assert!(matches!(action, ClipAction::Finish(Err(AppError::Llm(_)))));

    let (flow, _) = ClipFlow::start(ClipKind::Tool, "u".to_string());
    let (flow, _) = flow.step(ClipEvent::Scraped(Ok(page())));
    let (flow, _) = flow.step(ClipEvent::ToolSummarized(Ok(ToolSummary { summary: String::new() })));
    let (_, action) = flow.step(ClipEvent::ReportWritten(Err(VaultError::IoError("exists".to_string()))));
    assert!(matches!(action, ClipAction::Finish(Err(AppError::Vault(_)))));
}

#[test]
fn config_reports_the_first_missing_variable() {
    let c = Config::from_vars(Some("/v".to_string()), Some("k".to_string())).unwrap();
    assert_eq!(c.vault_path, "/v");
    assert_eq!(c.groq_api_key, "k");
    match Config::from_vars(None, None) {
        Err(ConfigError::MissingVar(v)) => assert_eq!(v, "FICHE_VAULT_PATH"),
        other => panic!("unexpected {:?}", other),
    }
    match Config::from_vars(Some("/v".to_string()), None) {
        Err(ConfigError::MissingVar(v)) => assert_eq!(v, "GROQ_API_KEY"),
        other => panic!("unexpected {:?}", other),
    }
}

#[test]
fn error_messages_nest() {
    let e = AppError::from(ConfigError::MissingVar("GROQ_API_KEY".to_string()));
    assert_eq!(
        e.message(),
        "Configuration error: Environment variable 'GROQ_API_KEY' is required but not set"
    );
    assert_eq!(
        AppError::from(ConfigError::DotEnv("no file".to_string())).message(),
        "Configuration error: Failed to load .env file: no file"
    );
    assert_eq!(
        AppError::InitializationError("tls".to_string()).message(),
        "Failed to initialize application context: tls"
    );
    assert_eq!(
        AppError::from(ScrapError::FetchError("x".to_string())).message(),
        "Scraping error: Failed to fetch the URL: x"
    );
    assert_eq!(
        AppError::from(LlmError::Api("y".to_string())).message(),
        "LLM error: API returned an error: y"
    );
    assert_eq!(
        AppError::from(VaultError::IoError("z".to_string())).message(),
        "Vault error: I/O error: z"
    );
}
