use opcache_exporter::config::{build_params, ScrapeConfig};
use opcache_exporter::error::ScrapeError;
use opcache_exporter::scrape::prepare_request;

fn config() -> ScrapeConfig {
    ScrapeConfig {
        request_method: "GET".to_string(),
        script_filename: "/var/www/index.php".to_string(),
        request_uri: "/opcache".to_string(),
        document_uri: None,
        remote_addr: "127.0.0.1".to_string(),
        remote_port: 12345,
        server_addr: "127.0.0.1".to_string(),
        server_port: 80,
        server_name: "example.com".to_string(),
    }
}

#[test]
fn params_hold_exactly_the_cgi_variables() {
    let params = build_params(&config()).unwrap();
    let got: Vec<(String, String)> = params.pairs;
    let expected = vec![
        ("REQUEST_METHOD", "GET"),
        ("DOCUMENT_ROOT", "/var/www"),
        ("SCRIPT_NAME", "index.php"),
        ("SCRIPT_FILENAME", "/var/www/index.php"),
        ("REQUEST_URI", "/opcache"),
        ("DOCUMENT_URI", "/opcache"),
        ("REMOTE_ADDR", "127.0.0.1"),
        ("REMOTE_PORT", "12345"),
        ("SERVER_ADDR", "127.0.0.1"),
        ("SERVER_PORT", "80"),
        ("SERVER_NAME", "example.com"),
        ("CONTENT_TYPE", ""),
        ("CONTENT_LENGTH", "0"),
        ("HTTP_HOST", "example.com"),
    ];
    assert_eq!(got.len(), expected.len());
    for ((name, value), (want_name, want_value)) in got.iter().zip(expected.iter()) {
        assert_eq!(name, want_name);
        assert_eq!(value, want_value);
    }
}

// Building twice from one configuration yields identical content.
#[test]
fn params_build_is_pure() {
    let first = build_params(&config()).unwrap();
    let second = build_params(&config()).unwrap();
    assert_eq!(first.pairs, second.pairs);
}

#[test]
fn document_uri_defaults_to_request_uri() {
    let mut cfg = config();
    cfg.document_uri = Some("/status".to_string());
    let params = build_params(&cfg).unwrap();
    assert_eq!(params.pairs[5].1, "/status");
}

#[test]
fn path_without_directory_gets_the_root() {
    let mut cfg = config();
    cfg.script_filename = "index.php".to_string();
    let params = build_params(&cfg).unwrap();
    assert_eq!(params.pairs[1].1, "/");
    assert_eq!(params.pairs[2].1, "index.php");
    cfg.script_filename = "/index.php".to_string();
    let params = build_params(&cfg).unwrap();
    assert_eq!(params.pairs[1].1, "/");
    assert_eq!(params.pairs[2].1, "index.php");
}

#[test]
fn undecomposable_path_is_a_configuration_error() {
    for bad in ["", "/", "/var/www/"] {
        let mut cfg = config();
        cfg.script_filename = bad.to_string();
        assert!(matches!(build_params(&cfg), Err(ScrapeError::Configuration)));
        assert!(matches!(prepare_request(&cfg), Err(ScrapeError::Configuration)));
    }
}

#[test]
fn oversize_parameter_is_a_configuration_error() {
    let mut cfg = config();
    cfg.server_name = "x".repeat(70_000);
    assert!(matches!(prepare_request(&cfg), Err(ScrapeError::Configuration)));
}

fn records(mut bytes: &[u8]) -> Vec<(u8, Vec<u8>)> {
    let mut out = Vec::new();
    while !bytes.is_empty() {
        let header = &bytes[..8];
        assert_eq!(header[0], 1, "protocol version");
        assert_eq!((header[2], header[3]), (0, 1), "request id 1");
        let clen = ((header[4] as usize) << 8) | header[5] as usize;
        let plen = header[6] as usize;
        out.push((header[1], bytes[8..8 + clen].to_vec()));
        bytes = &bytes[8 + clen + plen..];
    }
    out
}

// A request built for a GET configuration carries CONTENT_LENGTH "0" and no
// stdin payload bytes besides the terminating zero-length record.
#[test]
fn get_request_has_no_body() {
    let bytes = prepare_request(&config()).unwrap();
    let records = records(&bytes);
    assert_eq!(records[0].0, 1, "begin-request first");
    assert_eq!(records[0].1, vec![0, 1, 0, 0, 0, 0, 0, 0], "responder role, no keep-alive");
    let stdin: Vec<&(u8, Vec<u8>)> = records.iter().filter(|r| r.0 == 5).collect();
    assert_eq!(stdin.len(), 1, "only the stdin terminator");
    assert!(stdin[0].1.is_empty());
    let params_payload: Vec<u8> = records
        .iter()
        .filter(|r| r.0 == 4)
        .flat_map(|r| r.1.clone())
        .collect();
    let needle = b"\x0e\x01CONTENT_LENGTH0";
    assert!(params_payload.windows(needle.len()).any(|w| w == needle));
    // params stream is terminated by a zero-length record
    let params_records: Vec<&(u8, Vec<u8>)> = records.iter().filter(|r| r.0 == 4).collect();
    assert!(params_records.last().unwrap().1.is_empty());
    assert_eq!(params_records.len(), 15, "one record per variable plus the terminator");
}
