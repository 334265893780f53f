use llmstxtdl::error::DownloadError;
use llmstxtdl::paths::{domain_directory, get_local_file_path, sanitize_filename, validate_url};

#[test]
fn sanitize_replaces_reserved_and_control_characters() {
    assert_eq!(sanitize_filename("a<b>c:d\"e|f?g*h\\i/j"), "a_b_c_d_e_f_g_h_i_j");
    assert_eq!(sanitize_filename("tab\there"), "tab_here");
}

#[test]
fn sanitize_trims_dots_and_spaces() {
    assert_eq!(sanitize_filename(" .name. "), "name");
}

#[test]
fn sanitize_empty_becomes_unnamed() {
    assert_eq!(sanitize_filename(""), "unnamed");
    assert_eq!(sanitize_filename("..."), "unnamed");
}

#[test]
fn sanitize_truncates_to_255_characters() {
    let long = "é".repeat(300);
    assert_eq!(sanitize_filename(&long).chars().count(), 255);
    assert_eq!(sanitize_filename(&"a".repeat(255)), "a".repeat(255));
}

#[test]
fn domain_directory_uses_host() {
    assert_eq!(domain_directory("https://example.com/docs", "out").ok(), Some("out/example.com".to_string()));
    assert_eq!(domain_directory("https://example.com", "out/").ok(), Some("out/example.com".to_string()));
}

#[test]
fn domain_directory_adds_non_default_port() {
    assert_eq!(domain_directory("http://example.com:8080/", "out").ok(), Some("out/example.com_8080".to_string()));
    assert_eq!(domain_directory("https://example.com:443/", "out").ok(), Some("out/example.com".to_string()));
}

#[test]
fn domain_directory_needs_a_host() {
    match domain_directory("data:text/plain,hi", "out") {
        Err(DownloadError::InvalidUrl(m)) => assert_eq!(m, "URL must have a valid host"),
        other => panic!("unexpected: {:?}", other),
    }
    match domain_directory("nope", "out") {
        Err(DownloadError::InvalidUrl(m)) => assert!(m.starts_with("Failed to parse URL: ")),
        other => panic!("unexpected: {:?}", other),
    }
}

#[test]
fn local_path_mirrors_remote_path() {
    assert_eq!(
        get_local_file_path("https://example.com/docs/guide/a.md", "out/example.com").ok(),
        Some("out/example.com/docs/guide/a.md".to_string())
    );
}

#[test]
fn local_path_sanitizes_segments() {
    assert_eq!(
        get_local_file_path("https://example.com/docs/a:b.md", "root").ok(),
        Some("root/docs/a_b.md".to_string())
    );
}

#[test]
fn root_path_maps_to_index_html() {
    assert_eq!(get_local_file_path("https://example.com/", "root").ok(), Some("root/index.html".to_string()));
    assert_eq!(get_local_file_path("https://example.com", "root/").ok(), Some("root/index.html".to_string()));
}

#[test]
fn local_path_is_deterministic_and_distinct() {
    let a1 = get_local_file_path("https://example.com/a/b.md", "r").ok();
    let a2 = get_local_file_path("https://example.com/a/b.md", "r").ok();
    let b = get_local_file_path("https://example.com/a/c.md", "r").ok();
    assert_eq!(a1, a2);
    assert_ne!(a1, b);
}

#[test]
fn validate_strips_trailing_slash() {
    assert_eq!(validate_url("https://example.com/").ok(), Some("https://example.com".to_string()));
    assert_eq!(validate_url("http://example.com/docs").ok(), Some("http://example.com/docs".to_string()));
}

#[test]
fn validate_rejects_other_schemes() {
    match validate_url("ftp://example.com/") {
        Err(DownloadError::InvalidUrl(m)) => {
            assert_eq!(m, "Unsupported URL scheme 'ftp'. Only http and https are supported.")
        }
        other => panic!("unexpected: {:?}", other),
    }
}

#[test]
fn validate_rejects_malformed() {
    match validate_url("example.com") {
        Err(DownloadError::InvalidUrl(m)) => assert!(m.starts_with("Invalid URL format: ")),
        other => panic!("unexpected: {:?}", other),
    }
}
