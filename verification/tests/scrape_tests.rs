use opcache_exporter::error::{DecodeKind, ScrapeError};
use opcache_exporter::fcgi::FcgiOutcome;
use opcache_exporter::scrape::metrics_from_transport;

fn stdout_with(body: &str) -> Vec<u8> {
    let mut wire = Vec::new();
    wire.extend_from_slice(b"Content-type: application/json\r\n\r\n");
    wire.extend_from_slice(body.as_bytes());
    wire
}

fn full_body() -> String {
    let mut s = String::new();
    for piece in [
        "{\"opcache_enabled\":true,\"cache_full\":false,\"restart_pending\":false,",
        "\"restart_in_progress\":false,",
        "\"memory_usage\":{\"used_memory\":1000,\"free_memory\":500,",
        "\"wasted_memory\":0,\"current_wasted_percentage\":0.0},",
        "\"interned_strings_usage\":{\"buffer_size\":1,\"used_memory\":1,",
        "\"free_memory\":1,\"number_of_strings\":1},",
        "\"opcache_statistics\":{\"num_cached_scripts\":1,\"num_cached_keys\":1,",
        "\"max_cached_keys\":1,\"hits\":7,\"start_time\":1,\"last_restart_time\":0,",
        "\"oom_restarts\":0,\"hash_restarts\":0,\"manual_restarts\":0,\"misses\":2,",
        "\"blacklist_misses\":0,\"blacklist_miss_ratio\":0.0,\"opcache_hit_rate\":77.7},",
        "\"scripts\":{}}"
    ] {
        s.push_str(piece);
    }
    s
}

// A refused connection degrades to exactly one block: HELP/TYPE/sample for
// the liveness gauge, valued 0, with no other metric line present.
#[test]
fn connection_refusal_renders_liveness_zero() {
    let (text, err) = metrics_from_transport(Err(ScrapeError::Connection));
    assert_eq!(
        text,
        "# HELP opcache_up Opcache Scrape Successful\n# TYPE opcache_up gauge\nopcache_up 0"
    );
    assert!(!text.contains("opcache_opcache_enabled"));
    assert!(matches!(err, Some(ScrapeError::Connection)));
}

#[test]
fn successful_exchange_renders_the_full_set() {
    let outcome = FcgiOutcome { app_status: 0, stdout: stdout_with(&full_body()), stderr: vec![] };
    let (text, err) = metrics_from_transport(Ok(outcome));
    assert!(err.is_none());
    let lines: Vec<&str> = text.split('\n').collect();
    assert_eq!(lines.len(), 26 * 3);
    assert_eq!(lines[2], "opcache_up 1");
    assert!(text.contains("\nopcache_memory_usage_used_memory 1000"));
    assert!(text.contains("\nopcache_opcache_statistics_hits 7"));
    assert!(text.contains("\nopcache_opcache_statistics_opcache_hit_rate 77.7"));
}

#[test]
fn nonzero_status_degrades_with_the_diagnostic() {
    let outcome = FcgiOutcome {
        app_status: 70,
        stdout: stdout_with(&full_body()),
        stderr: b"PHP Fatal error".to_vec(),
    };
    let (text, err) = metrics_from_transport(Ok(outcome));
    assert!(text.ends_with("opcache_up 0"));
    match err {
        Some(ScrapeError::Application { status, diagnostic }) => {
            assert_eq!(status, 70);
            assert_eq!(diagnostic, b"PHP Fatal error");
        }
        other => panic!("unexpected: {:?}", other),
    }
}

#[test]
fn missing_separator_degrades_as_malformed() {
    let outcome =
        FcgiOutcome { app_status: 0, stdout: full_body().into_bytes(), stderr: vec![] };
    let (text, err) = metrics_from_transport(Ok(outcome));
    assert!(text.ends_with("opcache_up 0"));
    assert!(matches!(err, Some(ScrapeError::MalformedResponse)));
}

#[test]
fn undecodable_body_degrades_with_the_decode_kind() {
    let outcome =
        FcgiOutcome { app_status: 0, stdout: stdout_with("{not json"), stderr: vec![] };
    let (text, err) = metrics_from_transport(Ok(outcome));
    assert!(text.ends_with("opcache_up 0"));
    assert!(matches!(err, Some(ScrapeError::Decode(DecodeKind::Syntax))));

    let mut stdout = b"\r\n\r\n".to_vec();
    stdout.extend_from_slice(&[0xff, 0xfe]);
    let outcome = FcgiOutcome { app_status: 0, stdout, stderr: vec![] };
    let (_, err) = metrics_from_transport(Ok(outcome));
    assert!(matches!(err, Some(ScrapeError::Decode(DecodeKind::Utf8))));

    let outcome = FcgiOutcome { app_status: 0, stdout: stdout_with("{}"), stderr: vec![] };
    let (_, err) = metrics_from_transport(Ok(outcome));
    assert!(matches!(err, Some(ScrapeError::Decode(DecodeKind::Schema))));
}

#[test]
fn timeout_degrades_like_any_failure() {
    let (text, err) = metrics_from_transport(Err(ScrapeError::Timeout));
    assert!(text.ends_with("opcache_up 0"));
    assert!(matches!(err, Some(ScrapeError::Timeout)));
}
