//! Turning a fetched web page into Markdown content and a title.
use vstd::prelude::*;

use crate::text::{concat, opt_view, owned};

verus! {

/// Failures while scraping a page.
#[derive(Debug)]
pub enum ScrapError {
    /// The page could not be fetched; the HTTP client's description.
    FetchError(String),
    /// The page could not be read or yielded no content.
    ParseError(String),
    /// The HTML could not be converted to Markdown; the converter's description.
    ConversionError(String),
}

/// The text shown for a scraping error.
pub open spec fn scrap_error_message(e: ScrapError) -> Seq<char> {
    match e {
        ScrapError::FetchError(m) => "Failed to fetch the URL: "@ + m@,
        ScrapError::ParseError(m) => "Failed to parse the HTML content: "@ + m@,
        ScrapError::ConversionError(m) => "Failed to convert HTML to Markdown: "@ + m@,
    }
}

impl ScrapError {
    /// The text shown for this error.
    pub fn message(&self) -> (r: String)
        ensures
            r@ == scrap_error_message(*self),
    {
        match self {
            ScrapError::FetchError(m) => concat("Failed to fetch the URL: ", m.as_str()),
            ScrapError::ParseError(m) => concat("Failed to parse the HTML content: ", m.as_str()),
            ScrapError::ConversionError(m) => concat(
                "Failed to convert HTML to Markdown: ",
                m.as_str(),
            ),
        }
    }
}

/// A scraped page.
#[derive(Debug)]
pub struct ScrapResult {
    pub title: Option<String>,
    pub content: String,
    pub url: String,
}

/// A heading of the page.
#[derive(Debug)]
pub struct PageHeader {
    /// 1 for `<h1>` through 6 for `<h6>`.
    pub level: u8,
    pub text: String,
}

/// What the conversion found about the page.
#[derive(Debug)]
pub struct PageMetadata {
    /// The text of the `<title>` element, if any.
    pub document_title: Option<String>,
    /// The headings, in document order.
    pub headers: Vec<PageHeader>,
}

/// Category of a problem the converter met but worked around.
#[derive(Debug, Clone, Copy, PartialEq, Eq, Structural)]
pub enum PageWarningKind {
    /// An image could not be extracted.
    ImageExtractionFailed,
    /// The input encoding was not recognized; UTF-8 was assumed.
    EncodingFallback,
    /// The input was truncated because of size limits.
    TruncatedInput,
    /// The HTML was malformed; conversion went on as best it could.
    MalformedHtml,
    /// Potentially unsafe content was removed.
    SanitizationApplied,
    /// The document was nested too deeply; traversal was cut short.
    DepthLimitExceeded,
}

/// A problem the converter met but worked around.
#[derive(Debug)]
pub struct PageWarning {
    pub kind: PageWarningKind,
    /// The converter's description.
    pub message: String,
}

/// The result of converting a page to Markdown.
#[derive(Debug)]
pub struct PageConversion {
    /// The Markdown text, if the converter produced one.
    pub content: Option<String>,
    pub metadata: PageMetadata,
    /// The converter's warnings, in the order it gave them.
    pub warnings: Vec<PageWarning>,
}

/// The warnings as (kind, message) pairs.
pub open spec fn warnings_view(w: Seq<PageWarning>) -> Seq<(PageWarningKind, Seq<char>)> {
    w.map_values(|x: PageWarning| (x.kind, x.message@))
}

/// The headings as (level, text) pairs.
pub open spec fn headers_view(h: Seq<PageHeader>) -> Seq<(u8, Seq<char>)> {
    h.map_values(|x: PageHeader| (x.level, x.text@))
}

/// A conversion as plain values: content, document title, headings and
/// warnings.
pub open spec fn conversion_view(c: PageConversion) -> (
    Option<Seq<char>>,
    Option<Seq<char>>,
    Seq<(u8, Seq<char>)>,
    Seq<(PageWarningKind, Seq<char>)>,
) {
    (
        opt_view(c.content),
        opt_view(c.metadata.document_title),
        headers_view(c.metadata.headers@),
        warnings_view(c.warnings@),
    )
}

/// The text of the first level-1 heading.
pub open spec fn first_h1(headers: Seq<(u8, Seq<char>)>) -> Option<Seq<char>>
    decreases headers.len(),
{
    if headers.len() == 0 {
        None
    } else if headers[0].0 == 1 {
        Some(headers[0].1)
    } else {
        first_h1(headers.drop_first())
    }
}

/// The title of a page: its `<title>`, else its first level-1 heading.
pub open spec fn page_title(
    document_title: Option<Seq<char>>,
    headers: Seq<(u8, Seq<char>)>,
) -> Option<Seq<char>> {
    match document_title {
        Some(t) => Some(t),
        None => first_h1(headers),
    }
}


/// The first level-1 heading, characterized: `None` exactly when no heading
/// has level 1; otherwise the text of a level-1 heading with no level-1
/// heading before it.
proof fn lemma_first_h1_is_first_level_one(headers: Seq<(u8, Seq<char>)>)
    ensures
        first_h1(headers) is None <==> forall|i: int| 0 <= i < headers.len() ==> headers[i].0 != 1,
        first_h1(headers) is Some ==> exists|i: int|
            0 <= i < headers.len() && headers[i].0 == 1 && headers[i].1 == first_h1(headers)->Some_0
                && forall|j: int| 0 <= j < i ==> headers[j].0 != 1,
    decreases headers.len(),
{
    if headers.len() > 0 {
        let rest = headers.drop_first();
        lemma_first_h1_is_first_level_one(rest);
        if headers[0].0 == 1 {
            assert(headers[0].0 == 1 && headers[0].1 == first_h1(headers)->Some_0);
        } else {
            assert forall|i: int| 0 <= i < rest.len() implies rest[i] == headers[i + 1] by {}
            if first_h1(rest) is None {
                assert forall|i: int| 0 <= i < headers.len() implies headers[i].0 != 1 by {
                    if i > 0 {
                        assert(headers[i] == rest[i - 1]);
                    }
                }
            } else {
                let k = choose|k: int|
                    0 <= k < rest.len() && rest[k].0 == 1 && rest[k].1 == first_h1(rest)->Some_0
                        && forall|j: int| 0 <= j < k ==> rest[j].0 != 1;
                assert(headers[k + 1] == rest[k]);
                assert forall|j: int| 0 <= j < k + 1 implies headers[j].0 != 1 by {
                    if j > 0 {
                        assert(headers[j] == rest[j - 1]);
                    }
                }
            }
            if forall|i: int| 0 <= i < headers.len() ==> headers[i].0 != 1 {
                assert forall|i: int| 0 <= i < rest.len() implies rest[i].0 != 1 by {
                    assert(rest[i] == headers[i + 1]);
                }
            }
        }
    }
}

/// Law: the title of a page is its document title whenever it has one,
/// whatever its headings. Without one, it is the text of the first heading of
/// level 1, and there is no title exactly when no heading has level 1.
pub proof fn lemma_title_choice(
    document_title: Option<Seq<char>>,
    headers: Seq<(u8, Seq<char>)>,
)
    ensures
        document_title is Some ==> page_title(document_title, headers) == document_title,
        document_title is None ==> (page_title(document_title, headers) is None <==> forall|i: int|
            0 <= i < headers.len() ==> headers[i].0 != 1),
        document_title is None && page_title(document_title, headers) is Some ==> exists|i: int|
            0 <= i < headers.len() && headers[i].0 == 1 && headers[i].1 == page_title(
                document_title,
                headers,
            )->Some_0 && forall|j: int| 0 <= j < i ==> headers[j].0 != 1,
{
    lemma_first_h1_is_first_level_one(headers);
}

/// The title of a page: the document title when there is one, otherwise the
/// text of the first level-1 heading, otherwise none.
pub fn extract_title(html_metadata: PageMetadata) -> (r: Option<String>)
    ensures
        html_metadata.document_title is Some ==> r == html_metadata.document_title,
        opt_view(r) == page_title(
            opt_view(html_metadata.document_title),
            headers_view(html_metadata.headers@),
        ),
{
    let PageMetadata { document_title, headers } = html_metadata;
    match document_title {
        Some(t) => Some(t),
        None => {
            let ghost hv = headers_view(headers@);
            let mut i: usize = 0;
            assert(hv.skip(0) =~= hv);
            while i < headers.len()
                invariant
                    i <= headers@.len(),
                    hv == headers_view(headers@),
                    hv == headers_view(html_metadata.headers@),
                    html_metadata.document_title is None,
                    first_h1(hv) == first_h1(hv.skip(i as int)),
                decreases headers@.len() - i,
            {
                assert(hv.skip(i as int)[0] == hv[i as int]);
                assert(hv[i as int] == (headers@[i as int].level, headers@[i as int].text@));
                assert(hv.skip(i as int).drop_first() =~= hv.skip(i + 1));
                if headers[i].level == 1 {
                    return Some(headers[i].text.clone());
                }
                i = i + 1;
            }
            assert(hv.skip(i as int) =~= Seq::<(u8, Seq<char>)>::empty());
            None
        },
    }
}

/// What `html_to_markdown_rs::convert` makes of a page with the default
/// options: content, document title, headings and warnings, or, when it
/// fails, the text its error displays.
pub uninterp spec fn html_conversion(html: Seq<char>) -> Result<
    (
        Option<Seq<char>>,
        Option<Seq<char>>,
        Seq<(u8, Seq<char>)>,
        Seq<(PageWarningKind, Seq<char>)>,
    ),
    Seq<char>,
>;

/// html_to_markdown_rs's error type.
#[verifier::external_type_specification]
#[verifier::external_body]
pub struct ExConversionError(html_to_markdown_rs::ConversionError);

/// Converts a page to Markdown.
///
/// Trusted: calls `html_to_markdown_rs::convert` with the default options
/// and keeps, of its result, the content, the document title, the headings
/// (level and text) and the warnings (kind and message). The
/// result is named (`html_conversion`) as a function of the HTML (the crate
/// sorts what it reads from hash maps so that its output does not depend on
/// the process); so is the text that its error displays (the crate's error
/// type derives its display from its fields).
#[verifier::external_body]
fn convert_html(html: &str) -> (r: Result<PageConversion, html_to_markdown_rs::ConversionError>)
    ensures
        match html_conversion(html@) {
            Ok(v) => r is Ok && conversion_view(r->Ok_0) == v,
            Err(text) => r is Err && forall|s: String|
                #[trigger] vstd::string::to_string_from_display_ensures::<
                    html_to_markdown_rs::ConversionError,
                >(&r->Err_0, s) ==> s@ == text,
        },
{
    let res = html_to_markdown_rs::convert(html, None)?;
    let headers = res.metadata.headers.into_iter().map(
        |h| PageHeader { level: h.level, text: h.text },
    ).collect();
    let warnings = res.warnings.into_iter().map(|w| PageWarning { kind: warning_kind(w.kind), message: w.message }).collect();
    Ok(
        PageConversion {
            content: res.content,
            metadata: PageMetadata { document_title: res.metadata.document.title, headers },
            warnings,
        },
    )
}

/// html_to_markdown_rs's warning categories.
#[verifier::external_type_specification]
#[verifier::external_body]
pub struct ExWarningKind(html_to_markdown_rs::WarningKind);

/// The library's name for a warning category of the converter.
///
/// Trusted: tells the variants of `html_to_markdown_rs::WarningKind` apart,
/// one arm each; the variant of the same name is returned. Nothing is stated,
/// as the outside enum is opaque here.
#[verifier::external_body]
fn warning_kind(k: html_to_markdown_rs::WarningKind) -> PageWarningKind {
    match k {
        html_to_markdown_rs::WarningKind::ImageExtractionFailed => PageWarningKind::ImageExtractionFailed,
        html_to_markdown_rs::WarningKind::EncodingFallback => PageWarningKind::EncodingFallback,
        html_to_markdown_rs::WarningKind::TruncatedInput => PageWarningKind::TruncatedInput,
        html_to_markdown_rs::WarningKind::MalformedHtml => PageWarningKind::MalformedHtml,
        html_to_markdown_rs::WarningKind::SanitizationApplied => PageWarningKind::SanitizationApplied,
        html_to_markdown_rs::WarningKind::DepthLimitExceeded => PageWarningKind::DepthLimitExceeded,
    }
}

/// The scrap result of a converted page: its content and title, or a parse
/// error when the conversion produced no content.
pub fn scrap_result_from(url: &str, conversion: PageConversion) -> (r: Result<
    ScrapResult,
    ScrapError,
>)
    ensures
        match conversion_view(conversion).0 {
            Some(content) => r is Ok && r->Ok_0.content@ == content && r->Ok_0.url@ == url@
                && opt_view(r->Ok_0.title) == page_title(
                conversion_view(conversion).1,
                conversion_view(conversion).2,
            ),
            None => r is Err && r->Err_0 is ParseError && r->Err_0->ParseError_0@ == "Failed to extract content from HTML"@,
        },
{
    let PageConversion { content, metadata, warnings: _ } = conversion;
    match content {
        Some(content) => Ok(
            ScrapResult { title: extract_title(metadata), content, url: owned(url) },
        ),
        None => Err(ScrapError::ParseError(owned("Failed to extract content from HTML"))),
    }
}

/// Converts a fetched page to a scrap result, together with the converter's
/// warnings (none when the converter failed): the converter's failure becomes
/// a conversion error with the text of the converter's error, a page without
/// content a parse error.
pub fn convert_page(url: &str, raw_html: &str) -> (r: (Vec<PageWarning>, Result<ScrapResult, ScrapError>))
    ensures
        match html_conversion(raw_html@) {
            Err(text) => r.0@.len() == 0 && r.1 is Err && r.1->Err_0 is ConversionError
                && r.1->Err_0->ConversionError_0@ == text,
            Ok((content, document_title, headers, warnings)) => {
                &&& warnings_view(r.0@) == warnings
                &&& match content {
                    Some(c) => r.1 is Ok && r.1->Ok_0.content@ == c && r.1->Ok_0.url@ == url@
                        && opt_view(r.1->Ok_0.title) == page_title(document_title, headers),
                    None => r.1 is Err && r.1->Err_0 is ParseError && r.1->Err_0->ParseError_0@
                        == "Failed to extract content from HTML"@,
                }
            },
        },
{
    match convert_html(raw_html) {
        Ok(conversion) => {
            let PageConversion { content, metadata, warnings } = conversion;
            let rest = PageConversion { content, metadata, warnings: Vec::new() };
            (warnings, scrap_result_from(url, rest))
        },
        Err(e) => (Vec::new(), Err(ScrapError::ConversionError(e.to_string()))),
    }
}

} // verus!
