use fiche::scrapper::{
    convert_page, extract_title, scrap_result_from, PageConversion, PageHeader, PageMetadata, PageWarning, PageWarningKind,
    ScrapError,
};

fn header(level: u8, text: &str) -> PageHeader {
    PageHeader { level, text: text.to_string() }
}

#[test]
fn document_title_wins() {
    let m = PageMetadata {
        document_title: Some("Doc".to_string()),
        headers: vec![header(1, "Heading")],
    };
    assert_eq!(extract_title(m), Some("Doc".to_string()));
}

#[test]
fn first_level_one_heading_is_the_fallback() {
    let m = PageMetadata {
        document_title: None,
        headers: vec![header(2, "Sub"), header(1, "Main"), header(1, "Other")],
    };
    assert_eq!(extract_title(m), Some("Main".to_string()));
    let m = PageMetadata { document_title: None, headers: vec![header(2, "Sub")] };
    assert_eq!(extract_title(m), None);
}

#[test]
fn conversion_without_content_is_a_parse_error() {
    let c = PageConversion {
        content: None,
        metadata: PageMetadata { document_title: Some("T".to_string()), headers: vec![] },
        warnings: vec![],
    };
    match scrap_result_from("https://x", c) {
        Err(ScrapError::ParseError(m)) => assert_eq!(m, "Failed to extract content from HTML"),
        other => panic!("unexpected {:?}", other),
    }
}

#[test]
fn conversion_with_content_is_a_result() {
    let c = PageConversion {
        content: Some("body".to_string()),
        metadata: PageMetadata { document_title: None, headers: vec![header(1, "H")] },
        warnings: vec![PageWarning { kind: PageWarningKind::MalformedHtml, message: "m".to_string() }],
    };
    let r = scrap_result_from("https://x", c).unwrap();
    assert_eq!(r.content, "body");
    assert_eq!(r.title, Some("H".to_string()));
    assert_eq!(r.url, "https://x");
}

#[test]
fn pages_convert_to_markdown() {
    let html = "<html><head><title>My Page</title></head><body><h1>Heading</h1><p>Hello <b>world</b></p></body></html>";
    let (warnings, r) = convert_page("https://example.com", html);
    assert!(warnings.is_empty());
    let r = r.unwrap();
    assert_eq!(r.title, Some("My Page".to_string()));
    assert_eq!(r.url, "https://example.com");
    assert!(r.content.contains("Hello"));
    assert!(r.content.contains("**world**"));
    assert_ne!(r.content, html);
}

#[test]
fn heading_is_used_without_title_element() {
    let html = "<html><body><h2>Sub</h2><h1>Main title</h1><p>Text</p></body></html>";
    let r = convert_page("u", html).1.unwrap();
    assert_eq!(r.title, Some("Main title".to_string()));
}

#[test]
fn scrap_error_messages() {
    assert_eq!(ScrapError::FetchError("x".to_string()).message(), "Failed to fetch the URL: x");
    assert_eq!(
        ScrapError::ParseError("y".to_string()).message(),
        "Failed to parse the HTML content: y"
    );
    assert_eq!(
        ScrapError::ConversionError("z".to_string()).message(),
        "Failed to convert HTML to Markdown: z"
    );
}
