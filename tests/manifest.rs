use llmstxtdl::error::DownloadError;
use llmstxtdl::location::Location;
use llmstxtdl::manifest::{extract_file_path, parse_llms_txt, resolve_url};

fn parsed(content: &str, base: &str) -> Vec<String> {
    match parse_llms_txt(content, base) {
        Ok(v) => v,
        Err(e) => panic!("parse failed: {}", e.message()),
    }
}

#[test]
fn scenario_comment_plain_and_link() {
    let urls = parsed("# comment\n/docs/a.md\n- [B](/docs/b.md): desc\n", "https://x.test");
    assert_eq!(urls, vec!["https://x.test/docs/a.md".to_string(), "https://x.test/docs/b.md".to_string()]);
}

#[test]
fn parse_keeps_manifest_order_and_duplicates() {
    let urls = parsed("z.md\na.md\n[Z](z.md)\nhttps://other.test/m.txt\n", "https://x.test/");
    assert_eq!(
        urls,
        vec![
            "https://x.test/z.md".to_string(),
            "https://x.test/a.md".to_string(),
            "https://x.test/z.md".to_string(),
            "https://other.test/m.txt".to_string(),
        ]
    );
}

#[test]
fn comment_and_blank_lines_are_excluded() {
    let urls = parsed("# a.md\n   # [x](/x.md)\n\n   \t\n#\n", "https://x.test");
    assert!(urls.is_empty());
}

#[test]
fn empty_manifest_gives_no_references() {
    assert!(parsed("", "https://x.test").is_empty());
}

#[test]
fn crlf_lines_are_trimmed() {
    let urls = parsed("a.md\r\nb.md\r\n", "https://x.test/");
    assert_eq!(urls, vec!["https://x.test/a.md".to_string(), "https://x.test/b.md".to_string()]);
}

#[test]
fn invalid_base_is_invalid_url() {
    match parse_llms_txt("a.md\n", "not a url") {
        Err(DownloadError::InvalidUrl(m)) => assert!(m.starts_with("Invalid base URL 'not a url': ")),
        other => panic!("unexpected: {:?}", other),
    }
}

#[test]
fn unresolvable_reference_fails_the_parse() {
    match parse_llms_txt("http://[bad.md\n", "https://x.test") {
        Err(DownloadError::ParseError(m)) => {
            assert!(m.starts_with("Failed to resolve URL 'http://[bad.md' against base 'https://x.test/': "))
        }
        other => panic!("unexpected: {:?}", other),
    }
}

#[test]
fn extract_markdown_link() {
    assert_eq!(extract_file_path("- [Title](/docs/api.md): Description"), Some("/docs/api.md".to_string()));
    assert_eq!(extract_file_path("  [Title](/docs/api.md)  "), Some("/docs/api.md".to_string()));
}

#[test]
fn extract_plain_path() {
    assert_eq!(extract_file_path("  docs/api.md  "), Some("docs/api.md".to_string()));
}

#[test]
fn extract_rejects_dash_lines_and_anchor_links() {
    assert_eq!(extract_file_path("- item.md"), None);
    assert_eq!(extract_file_path("- [Section](#intro)"), None);
    assert_eq!(extract_file_path("no dot here"), None);
}

#[test]
fn anchor_link_falls_back_to_plain_line() {
    assert_eq!(extract_file_path("see [x](#y) v1.2"), Some("see [x](#y) v1.2".to_string()));
}

fn base(s: &str) -> Location {
    match Location::parse(s) {
        Ok(l) => l,
        Err(e) => panic!("bad base: {e}"),
    }
}

#[test]
fn absolute_reference_is_unchanged() {
    let b = base("https://example.com/docs");
    let r = resolve_url("https://other.test/a/b.md", &b).ok();
    assert_eq!(r, Some("https://other.test/a/b.md".to_string()));
}

#[test]
fn relative_resolution_is_idempotent() {
    let b = base("https://example.com/docs");
    for rel in ["guide.md", "/api/x.md", "../up.md", "sub/dir/file.txt"] {
        let once = resolve_url(rel, &b).ok().unwrap();
        let twice = resolve_url(&once, &b).ok().unwrap();
        assert_eq!(once, twice);
    }
    assert_eq!(resolve_url("guide.md", &b).ok(), Some("https://example.com/guide.md".to_string()));
}
