//! Reports for the notes vault: their file names, their content rendered from
//! templates, and the issue keys found in the vault's project folders.
use vstd::prelude::*;

pub mod file_name;

pub use file_name::{build_file_name, sanitize_file_name};

use crate::text::{concat, opt_view, owned, push_char};
use file_name::built_file_name;

verus! {

/// Template of an article report.
pub const ARTICLE_TEMPLATE: &'static str = r#"---
type: radar/report
url: {{ url }}
date_created: {{ date }}
tags:
{%- for tag in tags %}
  - {{ tag }}
{%- endfor %}
read: {{ read }}
---
# {{ title }}

{{ summary }}
"#;

/// Template of a tool report.
pub const TOOL_TEMPLATE: &'static str = r#"---
type: radar/tool
url:  {{ url }}
date_created: {{ date }}
---
# {{ title }}

{{ summary }}
"#;

/// The two kinds of report, each with a template of its own.
#[derive(Debug, Clone, Copy, PartialEq, Eq, Structural)]
pub enum TemplateKind {
    Article,
    Tool,
}

/// Name under which a kind's template is registered.
pub open spec fn kind_name(kind: TemplateKind) -> Seq<char> {
    match kind {
        TemplateKind::Article => "article"@,
        TemplateKind::Tool => "tool"@,
    }
}

/// Source text of a kind's template.
pub open spec fn kind_source(kind: TemplateKind) -> Seq<char> {
    match kind {
        TemplateKind::Article => ARTICLE_TEMPLATE@,
        TemplateKind::Tool => TOOL_TEMPLATE@,
    }
}

impl TemplateKind {
    /// The name under which this kind's template is registered.
    pub fn as_str(self) -> (r: &'static str)
        ensures
            r@ == kind_name(self),
    {
        match self {
            TemplateKind::Article => "article",
            TemplateKind::Tool => "tool",
        }
    }

    /// The source text of this kind's template.
    pub fn source(self) -> (r: &'static str)
        ensures
            r@ == kind_source(self),
    {
        match self {
            TemplateKind::Article => ARTICLE_TEMPLATE,
            TemplateKind::Tool => TOOL_TEMPLATE,
        }
    }
}

/// Failures while writing a report.
#[derive(Debug)]
pub enum VaultError {
    /// A file-system operation failed; the text is the operating system's
    /// description.
    IoError(String),
    /// A template could not be compiled or rendered; the text is the template
    /// engine's description.
    TemplateError(String),
}

/// The text shown for a vault error.
pub open spec fn vault_error_message(e: VaultError) -> Seq<char> {
    match e {
        VaultError::IoError(m) => "I/O error: "@ + m@,
        VaultError::TemplateError(m) => "Template rendering error: "@ + m@,
    }
}

impl VaultError {
    /// The error for a report whose file is already there: an I/O error
    /// whose text is `File already exists: ` and the file's path.
    pub fn already_exists(path: &str) -> (r: VaultError)
        ensures
            r is IoError,
            r->IoError_0@ == "File already exists: "@ + path@,
    {
        VaultError::IoError(concat("File already exists: ", path))
    }

    /// The text shown for this error.
    pub fn message(&self) -> (r: String)
        ensures
            r@ == vault_error_message(*self),
    {
        match self {
            VaultError::IoError(m) => concat("I/O error: ", m.as_str()),
            VaultError::TemplateError(m) => concat("Template rendering error: ", m.as_str()),
        }
    }
}

// ---------------------------------------------------------------------------
// Template contexts
// ---------------------------------------------------------------------------

/// A value handed to a template.
#[derive(Debug)]
pub enum TemplateValue {
    Text(String),
    Flag(bool),
    TextList(Vec<String>),
}

/// The mathematical content of a `TemplateValue`.
pub enum TemplateValueView {
    Text(Seq<char>),
    Flag(bool),
    TextList(Seq<Seq<char>>),
}

impl View for TemplateValue {
    type V = TemplateValueView;

    open spec fn view(&self) -> TemplateValueView {
        match self {
            TemplateValue::Text(s) => TemplateValueView::Text(s@),
            TemplateValue::Flag(b) => TemplateValueView::Flag(*b),
            TemplateValue::TextList(l) => TemplateValueView::TextList(strings_view(l@)),
        }
    }
}

/// The characters of each string.
pub open spec fn strings_view(l: Seq<String>) -> Seq<Seq<char>> {
    l.map_values(|s: String| s@)
}

/// The mathematical content of a template context: named values.
pub open spec fn context_view(ctx: Seq<(String, TemplateValue)>) -> Seq<(Seq<char>, TemplateValueView)> {
    ctx.map_values(|e: (String, TemplateValue)| (e.0@, e.1@))
}

/// A copy of a list of strings.
fn clone_strings(l: &[String]) -> (r: Vec<String>)
    ensures
        strings_view(r@) == strings_view(l@),
{
    let mut r: Vec<String> = Vec::new();
    let mut i: usize = 0;
    while i < l.len()
        invariant
            i <= l@.len(),
            strings_view(r@) == strings_view(l@.take(i as int)),
        decreases l@.len() - i,
    {
        let s = l[i].clone();
        r.push(s);
        assert(strings_view(l@.take(i + 1)) =~= strings_view(l@.take(i as int)).push(l@[i as int]@));
        assert(strings_view(r@) =~= strings_view(l@.take(i as int)).push(l@[i as int]@));
        i = i + 1;
    }
    assert(l@.take(l@.len() as int) =~= l@);
    r
}

/// What a report provides to be written: its kind, its folder, its title and
/// the values its template reads.
pub trait ReportPayload {
    spec fn kind_spec(&self) -> TemplateKind;

    spec fn dir_spec(&self) -> Seq<char>;

    spec fn title_spec(&self) -> Seq<char>;

    spec fn context_spec(&self) -> Seq<(Seq<char>, TemplateValueView)>;

    fn template_kind(&self) -> (r: TemplateKind)
        ensures
            r == self.kind_spec(),
    ;

    fn dir_path(&self) -> (r: &str)
        ensures
            r@ == self.dir_spec(),
    ;

    fn title(&self) -> (r: &str)
        ensures
            r@ == self.title_spec(),
    ;

    fn template_context(&self) -> (r: Vec<(String, TemplateValue)>)
        ensures
            context_view(r@) == self.context_spec(),
    ;
}

/// Folder of article reports, relative to the vault.
pub open spec fn article_dir() -> Seq<char> {
    "10_Personal/tech-radar/reports"@
}

/// Folder of tool reports, relative to the vault.
pub open spec fn tool_dir() -> Seq<char> {
    "10_Personal/tech-radar/tools"@
}

/// What an article report shows.
#[derive(Debug)]
pub struct ArticleReportContext {
    pub url: String,
    pub title: String,
    pub summary: String,
    pub date: String,
    pub tags: Vec<String>,
    pub read: bool,
}

/// What a tool report shows.
#[derive(Debug)]
pub struct ToolReportContext {
    pub url: String,
    pub title: String,
    pub summary: String,
    pub date: String,
}

impl ReportPayload for ArticleReportContext {
    open spec fn kind_spec(&self) -> TemplateKind {
        TemplateKind::Article
    }

    open spec fn dir_spec(&self) -> Seq<char> {
        article_dir()
    }

    open spec fn title_spec(&self) -> Seq<char> {
        self.title@
    }

    open spec fn context_spec(&self) -> Seq<(Seq<char>, TemplateValueView)> {
        seq![
            ("url"@, TemplateValueView::Text(self.url@)),
            ("title"@, TemplateValueView::Text(self.title@)),
            ("summary"@, TemplateValueView::Text(self.summary@)),
            ("date"@, TemplateValueView::Text(self.date@)),
            ("tags"@, TemplateValueView::TextList(strings_view(self.tags@))),
            ("read"@, TemplateValueView::Flag(self.read)),
        ]
    }

    fn template_kind(&self) -> (r: TemplateKind) {
        TemplateKind::Article
    }

    fn dir_path(&self) -> (r: &str) {
        "10_Personal/tech-radar/reports"
    }

    fn title(&self) -> (r: &str) {
        self.title.as_str()
    }

    fn template_context(&self) -> (r: Vec<(String, TemplateValue)>) {
        let r = vec![
            (owned("url"), TemplateValue::Text(self.url.clone())),
            (owned("title"), TemplateValue::Text(self.title.clone())),
            (owned("summary"), TemplateValue::Text(self.summary.clone())),
            (owned("date"), TemplateValue::Text(self.date.clone())),
            (owned("tags"), TemplateValue::TextList(clone_strings(self.tags.as_slice()))),
            (owned("read"), TemplateValue::Flag(self.read)),
        ];
        assert(context_view(r@) =~= self.context_spec());
        r
    }
}

impl ReportPayload for ToolReportContext {
    open spec fn kind_spec(&self) -> TemplateKind {
        TemplateKind::Tool
    }

    open spec fn dir_spec(&self) -> Seq<char> {
        tool_dir()
    }

    open spec fn title_spec(&self) -> Seq<char> {
        self.title@
    }

    open spec fn context_spec(&self) -> Seq<(Seq<char>, TemplateValueView)> {
        seq![
            ("url"@, TemplateValueView::Text(self.url@)),
            ("title"@, TemplateValueView::Text(self.title@)),
            ("summary"@, TemplateValueView::Text(self.summary@)),
            ("date"@, TemplateValueView::Text(self.date@)),
        ]
    }

    fn template_kind(&self) -> (r: TemplateKind) {
        TemplateKind::Tool
    }

    fn dir_path(&self) -> (r: &str) {
        "10_Personal/tech-radar/tools"
    }

    fn title(&self) -> (r: &str) {
        self.title.as_str()
    }

    fn template_context(&self) -> (r: Vec<(String, TemplateValue)>) {
        let r = vec![
            (owned("url"), TemplateValue::Text(self.url.clone())),
            (owned("title"), TemplateValue::Text(self.title.clone())),
            (owned("summary"), TemplateValue::Text(self.summary.clone())),
            (owned("date"), TemplateValue::Text(self.date.clone())),
        ];
        assert(context_view(r@) =~= self.context_spec());
        r
    }
}

impl ArticleReportContext {
    /// The article report for the given page data, dated `date`; its title is
    /// the file name built from the page title.
    pub fn new(
        url: &str,
        title: Option<String>,
        summary: &str,
        tags: &[String],
        read: bool,
        date: String,
    ) -> (r: Self)
        ensures
            r.url@ == url@,
            r.title@ == built_file_name(opt_view(title)),
            r.summary@ == summary@,
            strings_view(r.tags@) == strings_view(tags@),
            r.read == read,
            r.date == date,
    {
        ArticleReportContext {
            url: owned(url),
            title: build_file_name(title),
            summary: owned(summary),
            tags: clone_strings(tags),
            date,
            read,
        }
    }
}

impl ToolReportContext {
    /// The tool report for the given page data, dated `date`; its title is the
    /// file name built from the page title.
    pub fn new(url: &str, title: Option<String>, summary: &str, date: String) -> (r: Self)
        ensures
            r.url@ == url@,
            r.title@ == built_file_name(opt_view(title)),
            r.summary@ == summary@,
            r.date == date,
    {
        ToolReportContext {
            url: owned(url),
            title: build_file_name(title),
            summary: owned(summary),
            date,
        }
    }
}


/// Whether the context `ctx` gives the name `name` the value `v`: some entry
/// is `(name, v)`, and every entry named `name` has the value `v`.
pub open spec fn gives(ctx: Seq<(Seq<char>, TemplateValueView)>, name: Seq<char>, v: TemplateValueView) -> bool {
    &&& exists|i: int| 0 <= i < ctx.len() && ctx[i] == (name, v)
    &&& forall|i: int| 0 <= i < ctx.len() && #[trigger] ctx[i].0 == name ==> ctx[i].1 == v
}

/// The characters of each string of `l`, one list per string, in order.
pub open spec fn each_text(l: Seq<String>) -> Seq<Seq<char>> {
    Seq::new(l.len(), |i: int| l[i]@)
}

/// Law: an article report hands its template every one of its fields under
/// its own name: its URL, title, summary and date as texts, all its tags in
/// order as a list, and its read mark as a flag.
pub proof fn lemma_article_context_carries_fields(a: ArticleReportContext)
    ensures
        gives(a.context_spec(), "url"@, TemplateValueView::Text(a.url@)),
        gives(a.context_spec(), "title"@, TemplateValueView::Text(a.title@)),
        gives(a.context_spec(), "summary"@, TemplateValueView::Text(a.summary@)),
        gives(a.context_spec(), "date"@, TemplateValueView::Text(a.date@)),
        gives(a.context_spec(), "tags"@, TemplateValueView::TextList(each_text(a.tags@))),
        gives(a.context_spec(), "read"@, TemplateValueView::Flag(a.read)),
{
    reveal_strlit("url");
    reveal_strlit("title");
    reveal_strlit("summary");
    reveal_strlit("date");
    reveal_strlit("tags");
    reveal_strlit("read");
    let ctx = a.context_spec();
    assert(strings_view(a.tags@) =~= each_text(a.tags@));
    assert(ctx[0] == ("url"@, TemplateValueView::Text(a.url@)));
    assert(ctx[1] == ("title"@, TemplateValueView::Text(a.title@)));
    assert(ctx[2] == ("summary"@, TemplateValueView::Text(a.summary@)));
    assert(ctx[3] == ("date"@, TemplateValueView::Text(a.date@)));
    assert(ctx[4] == ("tags"@, TemplateValueView::TextList(each_text(a.tags@))));
    assert(ctx[5] == ("read"@, TemplateValueView::Flag(a.read)));
    assert("date"@[0] != "tags"@[0] && "date"@[0] != "read"@[0] && "tags"@[0] != "read"@[0]);
    assert("url"@.len() == 3 && "title"@.len() == 5 && "summary"@.len() == 7);
    assert("date"@.len() == 4 && "tags"@.len() == 4 && "read"@.len() == 4);
}

/// Law: a tool report hands its template every one of its fields under its
/// own name: its URL, title, summary and date as texts.
pub proof fn lemma_tool_context_carries_fields(t: ToolReportContext)
    ensures
        gives(t.context_spec(), "url"@, TemplateValueView::Text(t.url@)),
        gives(t.context_spec(), "title"@, TemplateValueView::Text(t.title@)),
        gives(t.context_spec(), "summary"@, TemplateValueView::Text(t.summary@)),
        gives(t.context_spec(), "date"@, TemplateValueView::Text(t.date@)),
{
    reveal_strlit("url");
    reveal_strlit("title");
    reveal_strlit("summary");
    reveal_strlit("date");
    let ctx = t.context_spec();
    assert(ctx[0] == ("url"@, TemplateValueView::Text(t.url@)));
    assert(ctx[1] == ("title"@, TemplateValueView::Text(t.title@)));
    assert(ctx[2] == ("summary"@, TemplateValueView::Text(t.summary@)));
    assert(ctx[3] == ("date"@, TemplateValueView::Text(t.date@)));
    assert("url"@.len() == 3 && "title"@.len() == 5 && "summary"@.len() == 7 && "date"@.len() == 4);
}

/// The file name of a report: its title followed by `.md`.
pub fn report_file_name<P: ReportPayload>(payload: &P) -> (r: String)
    ensures
        r@ == payload.title_spec() + ".md"@,
{
    concat(payload.title(), ".md")
}

/// Format of report dates (year, month and day, as in `2024-07-08`), for
/// chrono's `format`.
pub const DATE_FORMAT: &'static str = "%Y-%m-%d";

// ---------------------------------------------------------------------------
// Trusted: minijinja
// ---------------------------------------------------------------------------

/// minijinja's template environment.
#[verifier::external_type_specification]
#[verifier::external_body]
pub struct ExEnvironment<'source>(minijinja::Environment<'source>);

/// minijinja's error type.
#[verifier::external_type_specification]
#[verifier::external_body]
pub struct ExTemplateError(minijinja::Error);

/// The templates an environment holds: source text by template name.
pub uninterp spec fn env_templates(env: minijinja::Environment<'static>) -> Map<Seq<char>, Seq<char>>;

/// Whether an environment has the settings that `Environment::new` gives
/// (filters, tests, globals, auto-escaping, undefined behaviour), unchanged.
pub uninterp spec fn env_has_default_settings(env: minijinja::Environment<'static>) -> bool;

/// Whether minijinja compiles the template `source` registered as `name` in
/// an environment with default settings.
pub uninterp spec fn template_compiles(name: Seq<char>, source: Seq<char>) -> bool;

/// What minijinja renders for the template registered as `name` in an
/// environment with default settings whose templates (source by name) are
/// `templates`, given the context `ctx`; `None` when rendering fails. The
/// whole map is an argument because a template may include, extend or import
/// the others.
pub uninterp spec fn rendered_template(
    templates: Map<Seq<char>, Seq<char>>,
    name: Seq<char>,
    ctx: Seq<(Seq<char>, TemplateValueView)>,
) -> Option<Seq<char>>;

/// An environment's templates when it holds none.
pub open spec fn no_templates() -> Map<Seq<char>, Seq<char>> {
    Map::empty()
}

/// A new template environment.
///
/// Trusted: calls `minijinja::Environment::new`, which the crate documents as
/// holding no template yet and the default filters, tests and globals.
#[verifier::external_body]
fn new_environment() -> (r: minijinja::Environment<'static>)
    ensures
        env_templates(r) == no_templates(),
        env_has_default_settings(r),
{
    minijinja::Environment::new()
}

/// Registers the template `source` under `name`.
///
/// Trusted: calls `minijinja::Environment::add_template`. The crate's source
/// compiles the template and stores it under `name` only when that succeeds;
/// whether it compiles is named (`template_compiles`). Other settings are not
/// touched. What the environment holds after a failure is not described.
#[verifier::external_body]
fn add_template(
    env: &mut minijinja::Environment<'static>,
    name: &'static str,
    source: &'static str,
) -> (r: Result<(), minijinja::Error>)
    requires
        env_has_default_settings(*old(env)),
    ensures
        r is Ok <==> template_compiles(name@, source@),
        r is Ok ==> env_templates(*final(env)) == env_templates(*old(env)).insert(name@, source@),
        env_has_default_settings(*final(env)) == env_has_default_settings(*old(env)),
{
    env.add_template(name, source)
}

/// Renders the template registered as `name` with the context `ctx`.
///
/// Trusted: calls `minijinja::Environment::get_template`, then
/// `minijinja::Template::render` with a map value built from `ctx` (texts as
/// strings, flags as booleans, text lists as sequences of strings). Without a
/// loader a name that was never registered is an error; otherwise the output
/// is named (`rendered_template`) as a function of all the environment's
/// templates (other templates can be included, extended or imported), the
/// name and the context. The error's text is not described.
#[verifier::external_body]
fn render_template(
    env: &minijinja::Environment<'static>,
    name: &str,
    ctx: Vec<(String, TemplateValue)>,
) -> (r: Result<String, minijinja::Error>)
    requires
        env_has_default_settings(*env),
    ensures
        !env_templates(*env).contains_key(name@) ==> r is Err,
        env_templates(*env).contains_key(name@) ==> match rendered_template(
            env_templates(*env),
            name@,
            context_view(ctx@),
        ) {
            Some(out) => r is Ok && r->Ok_0@ == out,
            None => r is Err,
        },
{
    let value: std::collections::BTreeMap<String, minijinja::Value> = ctx
        .into_iter()
        .map(|(k, v)| (k, match v {
            TemplateValue::Text(s) => minijinja::Value::from(s),
            TemplateValue::Flag(b) => minijinja::Value::from(b),
            TemplateValue::TextList(l) => minijinja::Value::from(l),
        }))
        .collect();
    env.get_template(name)?.render(minijinja::Value::from(value))
}

/// The vault error for a template failure, with the engine's description:
/// the text that `e` displays.
fn template_error(e: minijinja::Error) -> (r: VaultError)
    ensures
        r is TemplateError,
        vstd::string::to_string_from_display_ensures::<minijinja::Error>(&e, r->TemplateError_0),
{
    VaultError::TemplateError(e.to_string())
}

// ---------------------------------------------------------------------------
// The report templates
// ---------------------------------------------------------------------------

/// The templates of both report kinds, by name.
pub open spec fn report_templates() -> Map<Seq<char>, Seq<char>> {
    map!["article"@ => ARTICLE_TEMPLATE@, "tool"@ => TOOL_TEMPLATE@]
}

/// A template environment holding the article and tool report templates.
pub struct ReportTemplates {
    env: minijinja::Environment<'static>,
}

impl ReportTemplates {
    #[verifier::type_invariant]
    spec fn holds_report_templates(self) -> bool {
        &&& env_has_default_settings(self.env)
        &&& env_templates(self.env) == report_templates()
    }

    /// An environment with the article and tool templates registered; fails
    /// with a template error when one of them does not compile.
    pub fn new() -> (r: Result<Self, VaultError>)
        ensures
            r is Ok <==> (template_compiles("article"@, ARTICLE_TEMPLATE@) && template_compiles(
                "tool"@,
                TOOL_TEMPLATE@,
            )),
            r is Err ==> r->Err_0 is TemplateError,
    {
        let mut env = new_environment();
        match add_template(&mut env, TemplateKind::Article.as_str(), ARTICLE_TEMPLATE) {
            Ok(()) => {},
            Err(e) => return Err(template_error(e)),
        }
        match add_template(&mut env, TemplateKind::Tool.as_str(), TOOL_TEMPLATE) {
            Ok(()) => {},
            Err(e) => return Err(template_error(e)),
        }
        assert(env_templates(env) =~= report_templates());
        Ok(ReportTemplates { env })
    }

    /// Renders a report with the template of its kind.
    pub fn render<P: ReportPayload>(&self, payload: &P) -> (r: Result<String, VaultError>)
        ensures
            match rendered_template(
                report_templates(),
                kind_name(payload.kind_spec()),
                payload.context_spec(),
            ) {
                Some(out) => r is Ok && r->Ok_0@ == out,
                None => r is Err && r->Err_0 is TemplateError,
            },
    {
        proof {
            use_type_invariant(self);
            reveal_strlit("article");
            reveal_strlit("tool");
        }
        let kind = payload.template_kind();
        let ctx = payload.template_context();
        assert("article"@.len() == 7 && "tool"@.len() == 4);
        assert(report_templates().contains_key(kind_name(kind)));
        match render_template(&self.env, kind.as_str(), ctx) {
            Ok(s) => Ok(s),
            Err(e) => Err(template_error(e)),
        }
    }
}

// ---------------------------------------------------------------------------
// Issue keys
// ---------------------------------------------------------------------------

/// An entry of a project's `issues` folder.
#[derive(Debug)]
pub struct IssueEntry {
    /// Whether the entry is a folder.
    pub is_dir: bool,
    /// Its name, when that is valid Unicode.
    pub name: Option<String>,
}

/// An entry of the vault's `20_Work/projects` folder.
#[derive(Debug)]
pub struct ProjectEntry {
    /// Whether the entry is a folder.
    pub is_dir: bool,
    /// The entries of its `issues` folder, when it has one.
    pub issues: Option<Vec<IssueEntry>>,
}

/// ASCII upper case of one character.
pub open spec fn ascii_upper(c: char) -> char {
    if 'a' <= c <= 'z' {
        ((c as u32) - 32) as char
    } else {
        c
    }
}

/// ASCII upper case of a string; other characters are kept.
pub open spec fn ascii_uppercase(s: Seq<char>) -> Seq<char> {
    s.map_values(|c: char| ascii_upper(c))
}


/// Law: the ASCII upper case of a string has its length and, character by
/// character, turns a letter `a`..=`z` into the character 32 code points
/// below (its capital) and keeps every other character.
pub proof fn lemma_ascii_uppercase_per_char(s: Seq<char>)
    ensures
        ascii_uppercase(s).len() == s.len(),
        forall|i: int| 0 <= i < s.len() && 'a' <= #[trigger] s[i] <= 'z' ==> ascii_uppercase(s)[i]
            as u32 == s[i] as u32 - 32,
        forall|i: int| 0 <= i < s.len() && !('a' <= #[trigger] s[i] <= 'z') ==> ascii_uppercase(
            s,
        )[i] == s[i],
{
    assert forall|i: int| 0 <= i < s.len() && 'a' <= #[trigger] s[i] <= 'z' implies ascii_uppercase(
        s,
    )[i] as u32 == s[i] as u32 - 32 by {
        let c = s[i];
        let u: u32 = ((c as u32) - 32) as u32;
        assert(0x41 <= u <= 0x5A);
        assert((u as char) as u32 == u);
    }
}

/// Keys of the issue folders among `entries`, in order.
pub open spec fn entry_keys(entries: Seq<IssueEntry>) -> Seq<Seq<char>>
    decreases entries.len(),
{
    if entries.len() == 0 {
        Seq::empty()
    } else {
        let e = entries.last();
        let rest = entry_keys(entries.drop_last());
        match e.name {
            Some(n) if e.is_dir => rest.push(ascii_uppercase(n@)),
            _ => rest,
        }
    }
}

/// Keys of one project: those of its issue folders, when it is a folder with
/// an `issues` folder.
pub open spec fn project_keys(p: ProjectEntry) -> Seq<Seq<char>> {
    match p.issues {
        Some(entries) if p.is_dir => entry_keys(entries@),
        _ => Seq::empty(),
    }
}

/// Keys of all projects, in order.
pub open spec fn issue_keys(projects: Seq<ProjectEntry>) -> Seq<Seq<char>>
    decreases projects.len(),
{
    if projects.len() == 0 {
        Seq::empty()
    } else {
        issue_keys(projects.drop_last()) + project_keys(projects.last())
    }
}


/// Whether `s` holds no ASCII lower-case letter.
pub open spec fn has_no_ascii_lowercase(s: Seq<char>) -> bool {
    forall|i: int| 0 <= i < s.len() ==> !('a' <= #[trigger] s[i] <= 'z')
}

proof fn lemma_ascii_upper_no_lowercase(c: char)
    ensures
        !('a' <= ascii_upper(c) <= 'z'),
{
    if 'a' <= c <= 'z' {
        assert((c as u32) - 32 < 'a' as u32);
    }
}

proof fn lemma_entry_keys_upper(entries: Seq<IssueEntry>)
    ensures
        forall|k: int| 0 <= k < entry_keys(entries).len() ==> has_no_ascii_lowercase(
            #[trigger] entry_keys(entries)[k],
        ),
    decreases entries.len(),
{
    if entries.len() > 0 {
        lemma_entry_keys_upper(entries.drop_last());
        let e = entries.last();
        if e.is_dir && e.name is Some {
            let key = ascii_uppercase(e.name->Some_0@);
            assert forall|i: int| 0 <= i < key.len() implies !('a' <= #[trigger] key[i] <= 'z') by {
                lemma_ascii_upper_no_lowercase(e.name->Some_0@[i]);
            }
            let rest = entry_keys(entries.drop_last());
            assert(entry_keys(entries) == rest.push(key));
            assert forall|k: int| 0 <= k < entry_keys(entries).len() implies has_no_ascii_lowercase(
                #[trigger] entry_keys(entries)[k],
            ) by {
                if k < rest.len() {
                    assert(entry_keys(entries)[k] == rest[k]);
                } else {
                    assert(entry_keys(entries)[k] == key);
                }
            }
        }
    }
}

/// Law: issue keys are upper case: none holds an ASCII lower-case letter.
pub proof fn lemma_issue_keys_upper_case(projects: Seq<ProjectEntry>)
    ensures
        forall|k: int| 0 <= k < issue_keys(projects).len() ==> has_no_ascii_lowercase(
            #[trigger] issue_keys(projects)[k],
        ),
    decreases projects.len(),
{
    if projects.len() > 0 {
        lemma_issue_keys_upper_case(projects.drop_last());
        let p = projects.last();
        if p.is_dir && p.issues is Some {
            lemma_entry_keys_upper(p.issues->Some_0@);
        }
        let front = issue_keys(projects.drop_last());
        let back = project_keys(p);
        assert forall|k: int| 0 <= k < issue_keys(projects).len() implies has_no_ascii_lowercase(
            #[trigger] issue_keys(projects)[k],
        ) by {
            if k < front.len() {
                assert(issue_keys(projects)[k] == front[k]);
            } else {
                assert(issue_keys(projects)[k] == back[k - front.len()]);
            }
        }
    }
}

/// One character in ASCII upper case.
fn ascii_upper_char(c: char) -> (r: char)
    ensures
        r == ascii_upper(c),
{
    if 'a' <= c && c <= 'z' {
        let b: u8 = (c as u8) - 32;
        let r = b as char;
        assert(r == ((c as u32) - 32) as char);
        r
    } else {
        c
    }
}

/// A copy of `s` in ASCII upper case.
pub fn to_ascii_uppercase(s: &str) -> (r: String)
    ensures
        r@ == ascii_uppercase(s@),
{
    let n: usize = s.unicode_len();
    let mut r = String::new();
    let mut i: usize = 0;
    while i < n
        invariant
            n == s@.len(),
            i <= n,
            r@ == ascii_uppercase(s@.take(i as int)),
        decreases n - i,
    {
        let c = ascii_upper_char(s.get_char(i));
        push_char(&mut r, c);
        assert(ascii_uppercase(s@.take(i + 1)) =~= ascii_uppercase(s@.take(i as int)).push(c));
        i = i + 1;
    }
    assert(s@.take(n as int) =~= s@);
    r
}

/// The views of a list of strings.
pub open spec fn keys_view(keys: Seq<String>) -> Seq<Seq<char>> {
    keys.map_values(|s: String| s@)
}

/// Appends the keys of the issue folders among `entries` to `keys`.
fn push_entry_keys(keys: &mut Vec<String>, entries: &Vec<IssueEntry>)
    ensures
        keys_view(final(keys)@) == keys_view(old(keys)@) + entry_keys(entries@),
{
    let ghost start = keys_view(keys@);
    let mut i: usize = 0;
    while i < entries.len()
        invariant
            i <= entries@.len(),
            keys_view(keys@) == start + entry_keys(entries@.take(i as int)),
        decreases entries@.len() - i,
    {
        let e = &entries[i];
        assert(entries@.take(i + 1).drop_last() =~= entries@.take(i as int));
        assert(entries@.take(i + 1).last() == entries@[i as int]);
        if e.is_dir {
            match &e.name {
                Some(n) => {
                    let k = to_ascii_uppercase(n.as_str());
                    let ghost before = keys@;
                    keys.push(k);
                    assert(entry_keys(entries@.take(i + 1)) == entry_keys(entries@.take(i as int)).push(ascii_uppercase(n@)));
                    assert(keys_view(keys@) =~= keys_view(before).push(k@));
                    assert(keys_view(keys@) =~= start + entry_keys(entries@.take(i + 1)));
                },
                None => {},
            }
        }
        assert(keys_view(keys@) =~= start + entry_keys(entries@.take(i + 1)));
        i = i + 1;
    }
    assert(entries@.take(entries@.len() as int) =~= entries@);
}

/// The keys of the issue folders found at
/// `20_Work/projects/{project}/issues/{key}`, in ASCII upper case, in the
/// order of the listing. Entries that are not folders, and names that are not
/// valid Unicode, are skipped.
pub fn collect_issue_keys(projects: &Vec<ProjectEntry>) -> (r: Vec<String>)
    ensures
        keys_view(r@) == issue_keys(projects@),
{
    let mut keys: Vec<String> = Vec::new();
    let mut i: usize = 0;
    while i < projects.len()
        invariant
            i <= projects@.len(),
            keys_view(keys@) == issue_keys(projects@.take(i as int)),
        decreases projects@.len() - i,
    {
        let p = &projects[i];
        assert(projects@.take(i + 1).drop_last() =~= projects@.take(i as int));
        assert(projects@.take(i + 1).last() == projects@[i as int]);
        if p.is_dir {
            match &p.issues {
                Some(entries) => {
                    push_entry_keys(&mut keys, entries);
                },
                None => {},
            }
        }
        assert(keys_view(keys@) =~= issue_keys(projects@.take(i + 1)));
        i = i + 1;
    }
    assert(projects@.take(projects@.len() as int) =~= projects@);
    keys
}

} // verus!
