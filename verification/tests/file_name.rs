use fiche::vault::file_name::{clean_file_name, finish_file_name, MAX_FILE_NAME_BYTES};
use fiche::vault::{build_file_name, sanitize_file_name};

#[test]
fn plain_title_is_kept() {
    assert_eq!(sanitize_file_name("Hello World"), "Hello World");
    assert_eq!(sanitize_file_name("Rust 1.80 released"), "Rust 1.80 released");
}

#[test]
fn forbidden_characters_become_dashes() {
    assert_eq!(
        sanitize_file_name("a<b>c:d\"e/f\\g|h?i*j"),
        "a-b-c-d-e-f-g-h-i-j"
    );
    assert_eq!(sanitize_file_name("The Kimi K3 Moment | Blog"), "The Kimi K3 Moment - Blog");
}

#[test]
fn control_characters_become_underscores() {
    assert_eq!(sanitize_file_name("a\tb\nc\u{1f}"), "a_b_c_");
    assert_eq!(sanitize_file_name("x\u{7f}"), "x\u{7f}");
}

#[test]
fn trailing_dots_and_spaces_are_removed() {
    assert_eq!(sanitize_file_name("name. . "), "name");
    assert_eq!(sanitize_file_name(" leading stays"), " leading stays");
    assert_eq!(sanitize_file_name("a.b."), "a.b");
}

#[test]
fn empty_names_become_untitled() {
    assert_eq!(sanitize_file_name(""), "untitled");
    assert_eq!(sanitize_file_name("..."), "untitled");
    assert_eq!(sanitize_file_name(" . "), "untitled");
    assert_eq!(clean_file_name(" . "), "untitled");
}

#[test]
fn reserved_device_names_get_an_underscore() {
    assert_eq!(sanitize_file_name("con"), "_con");
    assert_eq!(sanitize_file_name("CON.txt"), "_CON.txt");
    assert_eq!(sanitize_file_name("com1.tar.gz"), "_com1.tar.gz");
    assert_eq!(sanitize_file_name("Lpt9"), "_Lpt9");
    assert_eq!(sanitize_file_name("aux."), "_aux");
    assert_eq!(sanitize_file_name("console"), "console");
    assert_eq!(sanitize_file_name("com10"), "com10");
    assert_eq!(sanitize_file_name("my.con"), "my.con");
}

#[test]
fn finishing_uses_the_given_upper_case_form() {
    assert_eq!(finish_file_name("x", "CON"), "_x");
    assert_eq!(finish_file_name("con", "con"), "con");
    assert_eq!(finish_file_name("nul", "NUL.MD"), "_nul");
}

#[test]
fn long_names_are_cut_to_255_bytes() {
    let long = "a".repeat(300);
    let r = sanitize_file_name(&long);
    assert_eq!(r, "a".repeat(255));
    assert_eq!(r.len(), MAX_FILE_NAME_BYTES);

    let accents = "é".repeat(200);
    let r = sanitize_file_name(&accents);
    assert_eq!(r, "é".repeat(127));
    assert_eq!(r.len(), 254);

    let euros = "€".repeat(100);
    let r = sanitize_file_name(&euros);
    assert_eq!(r, "€".repeat(85));
    assert_eq!(r.len(), 255);

    let exact = "b".repeat(255);
    assert_eq!(sanitize_file_name(&exact), exact);
}

#[test]
fn reserved_and_long_names_are_prefixed_then_cut() {
    let name = format!("con.{}", "x".repeat(300));
    let r = sanitize_file_name(&name);
    assert_eq!(r.len(), 255);
    assert!(r.starts_with("_con.xxx"));
}

#[test]
fn file_names_never_hold_forbidden_characters() {
    for name in ["<>", "a/b/c", "\u{0}\u{1}", "what?*", "  ..", "\\\\server\\share"] {
        let r = sanitize_file_name(name);
        assert!(!r.is_empty());
        assert!(r.len() <= 255);
        assert!(r.chars().all(|c| !"<>:\"/\\|?*".contains(c) && (c as u32) >= 0x20));
    }
}

#[test]
fn good_names_are_unchanged() {
    for name in ["Notes", "Rust - 2024 edition", "été", "report.v2"] {
        assert_eq!(sanitize_file_name(name), name);
    }
}

#[test]
fn missing_titles_give_untitled_article() {
    assert_eq!(build_file_name(None), "untitled_article");
    assert_eq!(build_file_name(Some("A/B".to_string())), "A-B");
    assert_eq!(build_file_name(Some("".to_string())), "untitled");
}

#[test]
fn sanitizing_twice_changes_nothing_more() {
    for name in ["a<b>c", "name. . ", "", "con", "Notes/2024", &"x".repeat(300)] {
        let once = sanitize_file_name(name);
        assert_eq!(sanitize_file_name(&once), once);
    }
}
