use llmstxtdl::error::{DownloadError, ErrorCategory, IoFailure, NetworkFailure};
use llmstxtdl::result::{DownloadResult, RunStatus};
use llmstxtdl::retry::{AttemptOutcome, RetryDecision, RetryPolicy};
use llmstxtdl::run::{manifest_unavailable, manifest_url};

#[test]
fn retry_server_errors_then_success_takes_three_attempts() {
    let p = RetryPolicy::new();
    let answers = [AttemptOutcome::Status(500), AttemptOutcome::Status(500), AttemptOutcome::Completed];
    let mut attempts = 0u32;
    let mut delays = Vec::new();
    let mut done = false;
    for (i, o) in answers.into_iter().enumerate() {
        attempts += 1;
        match p.decide("https://x.test/a.md", i as u32, o) {
            RetryDecision::Done => {
                done = true;
                break;
            }
            RetryDecision::Retry { delay_ms, error } => {
                assert!(matches!(error, DownloadError::HttpError { status: 500, .. }));
                delays.push(delay_ms);
            }
            RetryDecision::Fail(e) => panic!("failed: {}", e.message()),
        }
    }
    assert!(done);
    assert_eq!(attempts, 3);
    assert_eq!(delays, vec![500, 1000]);
}

#[test]
fn retry_not_found_fails_at_once() {
    let p = RetryPolicy::new();
    match p.decide("https://x.test/a.md", 0, AttemptOutcome::Status(404)) {
        RetryDecision::Fail(DownloadError::FileNotFound(u)) => assert_eq!(u, "https://x.test/a.md"),
        other => panic!("unexpected: {:?}", other),
    }
    match p.decide("https://x.test/a.md", 0, AttemptOutcome::Status(403)) {
        RetryDecision::Fail(DownloadError::HttpError { status: 403, .. }) => {}
        other => panic!("unexpected: {:?}", other),
    }
}

#[test]
fn retry_gives_up_after_last_retry() {
    let p = RetryPolicy::new();
    match p.decide("u", 3, AttemptOutcome::Status(503)) {
        RetryDecision::Fail(DownloadError::HttpError { status: 503, .. }) => {}
        other => panic!("unexpected: {:?}", other),
    }
    let timeout = AttemptOutcome::Send { kind: NetworkFailure::Timeout, detail: "t".to_string() };
    match p.decide("u", 3, timeout) {
        RetryDecision::Fail(DownloadError::Timeout(u)) => assert_eq!(u, "u"),
        other => panic!("unexpected: {:?}", other),
    }
    let conn = AttemptOutcome::Send { kind: NetworkFailure::Connect, detail: "refused".to_string() };
    match p.decide("u", 1, conn) {
        RetryDecision::Retry { delay_ms: 1000, error: DownloadError::NetworkError { kind: NetworkFailure::Connect, .. } } => {}
        other => panic!("unexpected: {:?}", other),
    }
}

#[test]
fn backoff_doubles() {
    let p = RetryPolicy::new();
    assert_eq!(p.calculate_delay(0), 500);
    assert_eq!(p.calculate_delay(1), 1000);
    assert_eq!(p.calculate_delay(2), 2000);
}

#[test]
fn scenario_one_missing_one_downloaded() {
    let mut r = DownloadResult::new();
    r.record("https://x.test/a.md".to_string(), Ok(("out/x.test/a.md".to_string(), 42)));
    r.record("https://x.test/b.md".to_string(), Err(DownloadError::FileNotFound("https://x.test/b.md".to_string())));
    assert_eq!(r.success_count(), 1);
    assert_eq!(r.failure_count(), 1);
    assert_eq!(r.total_files, 2);
    assert_eq!(r.total_bytes, 42);
    assert!(!r.all_successful());
    assert_eq!(r.run_status(), RunStatus::Partial);
    assert_eq!(r.error_stats(), vec![("not_found".to_string(), 1)]);
    assert_eq!(r.failed[0].1, "File not found: https://x.test/b.md is not available on the server.");
}

#[test]
fn scenario_manifest_missing_aborts() {
    let url = manifest_url("https://x.test");
    assert_eq!(url, "https://x.test/llms.txt");
    let p = RetryPolicy::new();
    let e = match p.decide(&url, 0, AttemptOutcome::Status(404)) {
        RetryDecision::Fail(e) => e,
        other => panic!("unexpected: {:?}", other),
    };
    match manifest_unavailable(&url, &e) {
        DownloadError::ParseError(m) => assert_eq!(
            m,
            "Could not find or access llms.txt at https://x.test/llms.txt: File not found: https://x.test/llms.txt is not available on the server."
        ),
        other => panic!("unexpected: {:?}", other),
    }
}

#[test]
fn empty_result_is_not_all_successful() {
    let r = DownloadResult::new();
    assert!(!r.all_successful());
    assert_eq!(r.run_status(), RunStatus::NoneSucceeded);
    assert!(r.error_stats().is_empty());
    let mut r2 = DownloadResult::default();
    r2.add_success("u".to_string(), "p".to_string(), 1);
    assert_eq!(r2.run_status(), RunStatus::AllSucceeded);
}

#[test]
fn error_stats_counts_by_category_in_order() {
    let mut r = DownloadResult::new();
    r.add_failure("a".to_string(), &DownloadError::HttpError { status: 502, url: "a".to_string() });
    r.add_failure("b".to_string(), &DownloadError::Timeout("b".to_string()));
    r.add_failure("c".to_string(), &DownloadError::FileNotFound("c".to_string()));
    r.add_failure("d".to_string(), &DownloadError::Timeout("d".to_string()));
    assert_eq!(
        r.error_stats(),
        vec![("not_found".to_string(), 1), ("timeout".to_string(), 2), ("server_error".to_string(), 1)]
    );
}

#[test]
fn categories_follow_error_kind() {
    let r = DownloadResult::new();
    let perm = DownloadError::IoError { kind: IoFailure::PermissionDenied, detail: String::new() };
    assert_eq!(r.categorize_error(&perm), "permission");
    assert_eq!(DownloadError::HttpError { status: 403, url: "u".to_string() }.category(), ErrorCategory::Forbidden);
    assert_eq!(DownloadError::HttpError { status: 401, url: "u".to_string() }.category(), ErrorCategory::Other);
    let net = DownloadError::NetworkError { kind: NetworkFailure::Connect, detail: String::new() };
    assert_eq!(net.category(), ErrorCategory::Network);
    assert_eq!(DownloadError::ParseError("x".to_string()).category(), ErrorCategory::Other);
}

#[test]
fn messages_are_specific() {
    let e = DownloadError::HttpError { status: 503, url: "https://x.test/a".to_string() };
    assert_eq!(e.message(), "Server error (503): The server encountered an error while processing https://x.test/a.");
    let e = DownloadError::HttpError { status: 418, url: "u".to_string() };
    assert_eq!(e.message(), "HTTP error (418): Request to u failed.");
    let e = DownloadError::HttpError { status: 401, url: "u".to_string() };
    assert_eq!(e.message(), "Unauthorized (401): Authentication required to access u.");
    let e = DownloadError::IoError { kind: IoFailure::Other, detail: "disk".to_string() };
    assert_eq!(e.message(), "File system error: disk");
    let e = DownloadError::InvalidUrl("x".to_string());
    assert_eq!(e.message(), "Invalid URL: x. Please check the URL format and try again.");
}

fn float_format(bytes: u64) -> String {
    let units = ["B", "KB", "MB", "GB"];
    let mut size = bytes as f64;
    let mut i = 0;
    while size >= 1024.0 && i < units.len() - 1 {
        size /= 1024.0;
        i += 1;
    }
    if i == 0 {
        format!("{} {}", bytes, units[i])
    } else {
        format!("{:.1} {}", size, units[i])
    }
}

#[test]
fn format_bytes_exact_values() {
    assert_eq!(DownloadResult::format_bytes(0), "0 B");
    assert_eq!(DownloadResult::format_bytes(1023), "1023 B");
    assert_eq!(DownloadResult::format_bytes(1024), "1.0 KB");
    assert_eq!(DownloadResult::format_bytes(1536), "1.5 KB");
    assert_eq!(DownloadResult::format_bytes(1048576), "1.0 MB");
    assert_eq!(DownloadResult::format_bytes(1073741824 * 5), "5.0 GB");
    assert_eq!(DownloadResult::format_bytes(1048575), "1024.0 KB");
}

#[test]
fn format_bytes_matches_float_formatting() {
    let mut samples: Vec<u64> = (0..5000).collect();
    samples.extend((0..4000).map(|k| 1024 + 256 + 512 * k));
    samples.extend([1280, 1126, 1127, 10547, 1048575, 1048576, 1572864, 1073741823, 1073741824, 1_000_000_000_000]);
    for b in samples {
        assert_eq!(DownloadResult::format_bytes(b), float_format(b), "bytes = {b}");
    }
}

#[test]
fn details_lists_files_breakdown_and_advice() {
    let mut r = DownloadResult::new();
    r.add_success("https://x.test/a.md".to_string(), "out/a.md".to_string(), 10);
    r.add_failure("https://x.test/b.md".to_string(), &DownloadError::FileNotFound("https://x.test/b.md".to_string()));
    r.add_failure("https://x.test/c.md".to_string(), &DownloadError::Timeout("https://x.test/c.md".to_string()));
    let d = r.details();
    assert!(d.starts_with("\n✅ Successfully downloaded files:\n   • https://x.test/a.md\n     → out/a.md\n"));
    assert!(d.contains("\n📊 Error breakdown:\n   • Files not found (404): 1 file(s)\n   • Network timeouts: 1 file(s)\n\n"));
    assert!(d.contains("   • https://x.test/c.md\n     ❌ Timeout: Request to https://x.test/c.md took too long. The server may be overloaded.\n"));
    assert!(d.contains("   🌐 Network issues detected:\n"));
    assert!(d.contains("   📄 Missing files detected:\n"));
    assert!(!d.contains("Permission issues"));
}

#[test]
fn details_of_one_category_has_no_breakdown() {
    let mut r = DownloadResult::new();
    r.add_failure("u".to_string(), &DownloadError::HttpError { status: 500, url: "u".to_string() });
    let d = r.details();
    assert!(!d.contains("Error breakdown"));
    assert!(d.contains("   🔧 Server issues detected:\n"));
    assert_eq!(DownloadResult::new().details(), "");
}
