use opcache_exporter::fcgi::FcgiReader;
use opcache_exporter::response::split_response;

fn record(rtype: u8, content: &[u8], padding: u8) -> Vec<u8> {
    let mut out = vec![
        1,
        rtype,
        0,
        1,
        (content.len() >> 8) as u8,
        (content.len() & 0xff) as u8,
        padding,
        0,
    ];
    out.extend_from_slice(content);
    out.extend(std::iter::repeat(0).take(padding as usize));
    out
}

fn feed(reader: &mut FcgiReader, mut bytes: &[u8]) {
    while !reader.done() {
        let need = reader.needed();
        let (chunk, rest) = bytes.split_at(need);
        reader.step(chunk).unwrap();
        bytes = rest;
    }
    assert!(bytes.is_empty());
}

#[test]
fn reader_accumulates_stdout_and_finishes() {
    let mut wire = Vec::new();
    wire.extend(record(6, b"Status: 200\r\n\r\n{\"a\"", 3));
    wire.extend(record(7, b"some notice", 0));
    wire.extend(record(6, b":1}", 1));
    wire.extend(record(6, b"", 0));
    wire.extend(record(3, &[0, 0, 0, 0, 0, 0, 0, 0], 0));
    let mut reader = FcgiReader::new();
    feed(&mut reader, &wire);
    assert!(reader.done());
    let outcome = reader.into_outcome();
    assert_eq!(outcome.stdout, b"Status: 200\r\n\r\n{\"a\":1}");
    assert_eq!(outcome.stderr, b"some notice");
    assert_eq!(outcome.app_status, 0);
}

#[test]
fn reader_reports_the_application_status() {
    let mut wire = Vec::new();
    wire.extend(record(3, &[0, 0, 1, 4, 0, 0, 0, 0], 0));
    let mut reader = FcgiReader::new();
    feed(&mut reader, &wire);
    assert_eq!(reader.into_outcome().app_status, 260);
}

#[test]
fn unknown_record_types_are_skipped() {
    let mut wire = Vec::new();
    wire.extend(record(11, b"ignore me", 0));
    wire.extend(record(6, b"out", 0));
    wire.extend(record(3, &[0, 0, 0, 0, 0, 0, 0, 0], 0));
    let mut reader = FcgiReader::new();
    feed(&mut reader, &wire);
    assert_eq!(reader.into_outcome().stdout, b"out");
}

#[test]
fn framing_violations_are_rejected() {
    // wrong protocol version
    let mut reader = FcgiReader::new();
    assert!(reader.step(&[2, 6, 0, 1, 0, 0, 0, 0]).is_err());
    // request id other than 1
    let mut reader = FcgiReader::new();
    assert!(reader.step(&[1, 6, 0, 2, 0, 0, 0, 0]).is_err());
    // end-request with the wrong content length
    let mut reader = FcgiReader::new();
    reader.step(&[1, 3, 0, 1, 0, 4, 0, 0]).unwrap();
    assert!(reader.step(&[9, 9, 9, 9]).is_err());
}

#[test]
fn split_takes_headers_and_body_apart() {
    let (headers, body) = split_response(b"X: y\r\nZ: w\r\n\r\n{\"a\":1}").unwrap();
    assert_eq!(headers, b"X: y\r\nZ: w");
    assert_eq!(body, b"{\"a\":1}");
}

// The split happens at the first blank line even when the body holds the
// same byte sequence inside a string value.
#[test]
fn split_uses_only_the_first_separator() {
    let (headers, body) = split_response(b"H: v\r\n\r\n{\"s\":\"a\r\n\r\nb\"}").unwrap();
    assert_eq!(headers, b"H: v");
    assert_eq!(body, b"{\"s\":\"a\r\n\r\nb\"}");
}

#[test]
fn missing_separator_is_malformed() {
    assert!(split_response(b"no separator here").is_err());
    assert!(split_response(b"").is_err());
    assert!(split_response(b"\r\n\r").is_err());
}

#[test]
fn separator_at_the_edges() {
    let (headers, body) = split_response(b"\r\n\r\n").unwrap();
    assert!(headers.is_empty());
    assert!(body.is_empty());
    let (headers, body) = split_response(b"\r\n\r\nbody").unwrap();
    assert!(headers.is_empty());
    assert_eq!(body, b"body");
}
