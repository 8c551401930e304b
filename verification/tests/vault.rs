use fiche::vault::{
    collect_issue_keys, report_file_name, to_ascii_uppercase, ArticleReportContext,
    IssueEntry, ProjectEntry, ReportPayload, ReportTemplates, TemplateKind, ToolReportContext,
    VaultError,
};

#[test]
fn template_kinds_have_names() {
    assert_eq!(TemplateKind::Article.as_str(), "article");
    assert_eq!(TemplateKind::Tool.as_str(), "tool");
    assert!(TemplateKind::Article.source().starts_with("---\ntype: radar/report"));
    assert!(TemplateKind::Tool.source().starts_with("---\ntype: radar/tool"));
}

fn article() -> ArticleReportContext {
    ArticleReportContext::new(
        "https://example.com/post",
        Some("A <b> post".to_string()),
        "Short summary.",
        &["rust".to_string(), "verification".to_string()],
        false,
        "2024-05-01".to_string(),
    )
}

#[test]
fn article_context_holds_the_page_data() {
    let a = article();
    assert_eq!(a.url, "https://example.com/post");
    assert_eq!(a.title, "A -b- post");
    assert_eq!(a.summary, "Short summary.");
    assert_eq!(a.tags, vec!["rust".to_string(), "verification".to_string()]);
    assert!(!a.read);
    assert_eq!(a.date, "2024-05-01");
    assert_eq!(a.template_kind(), TemplateKind::Article);
    assert_eq!(a.dir_path(), "10_Personal/tech-radar/reports");
    assert_eq!(a.title(), "A -b- post");
    assert_eq!(report_file_name(&a), "A -b- post.md");
}

#[test]
fn untitled_pages_give_untitled_article() {
    let t = ToolReportContext::new("https://tool.dev", None, "A tool.", "2024-01-02".to_string());
    assert_eq!(t.title, "untitled_article");
    assert_eq!(t.template_kind(), TemplateKind::Tool);
    assert_eq!(t.dir_path(), "10_Personal/tech-radar/tools");
    assert_eq!(report_file_name(&t), "untitled_article.md");
}

#[test]
fn existing_report_files_are_refused() {
    let e = VaultError::already_exists("/vault/10_Personal/x.md");
    match &e {
        VaultError::IoError(m) => assert_eq!(m, "File already exists: /vault/10_Personal/x.md"),
        other => panic!("unexpected {:?}", other),
    }
    assert_eq!(e.message(), "I/O error: File already exists: /vault/10_Personal/x.md");
}

#[test]
fn article_report_renders() {
    let templates = ReportTemplates::new().expect("templates compile");
    let out = templates.render(&article()).expect("renders");
    assert_eq!(
        out,
        "---\ntype: radar/report\nurl: https://example.com/post\ndate_created: 2024-05-01\ntags:\n  - rust\n  - verification\nread: False\n---\n# A -b- post\n\nShort summary."
    );
}

#[test]
fn tool_report_renders() {
    let templates = ReportTemplates::new().expect("templates compile");
    let t = ToolReportContext::new(
        "https://tool.dev",
        Some("Tool".to_string()),
        "Does things.",
        "2024-01-02".to_string(),
    );
    let out = templates.render(&t).expect("renders");
    assert_eq!(
        out,
        "---\ntype: radar/tool\nurl:  https://tool.dev\ndate_created: 2024-01-02\n---\n# Tool\n\nDoes things."
    );
}

#[test]
fn article_without_tags_renders_an_empty_list() {
    let templates = ReportTemplates::new().unwrap();
    let a = ArticleReportContext::new("u", Some("T".to_string()), "S", &[], true, "d".to_string());
    let out = templates.render(&a).unwrap();
    assert_eq!(out, "---\ntype: radar/report\nurl: u\ndate_created: d\ntags:\nread: True\n---\n# T\n\nS");
}

#[test]
fn vault_error_messages() {
    assert_eq!(VaultError::IoError("disk full".to_string()).message(), "I/O error: disk full");
    assert_eq!(
        VaultError::TemplateError("bad".to_string()).message(),
        "Template rendering error: bad"
    );
}

#[test]
fn ascii_uppercase_keeps_other_characters() {
    assert_eq!(to_ascii_uppercase("abc-Zé1"), "ABC-Zé1");
    assert_eq!(to_ascii_uppercase(""), "");
}

fn entry(is_dir: bool, name: Option<&str>) -> IssueEntry {
    IssueEntry { is_dir, name: name.map(|n| n.to_string()) }
}

#[test]
fn issue_keys_are_collected_in_upper_case() {
    let projects = vec![
        ProjectEntry {
            is_dir: true,
            issues: Some(vec![
                entry(true, Some("abc")),
                entry(false, Some("notes.md")),
                entry(true, None),
                entry(true, Some("Def-12")),
            ]),
        },
        ProjectEntry { is_dir: false, issues: Some(vec![entry(true, Some("ignored"))]) },
        ProjectEntry { is_dir: true, issues: None },
        ProjectEntry { is_dir: true, issues: Some(vec![entry(true, Some("xyz"))]) },
    ];
    assert_eq!(
        collect_issue_keys(&projects),
        vec!["ABC".to_string(), "DEF-12".to_string(), "XYZ".to_string()]
    );
    assert!(collect_issue_keys(&vec![]).is_empty());
}
