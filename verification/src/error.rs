//! The closed set of failure kinds of the scrape pipeline.
//!
//! Every failure of a scrape collapses at the orchestrator into a degraded
//! rendering; these kinds exist so that callers and logs can tell the
//! failures apart without string inspection.
use vstd::prelude::*;

verus! {

/// Which part of decoding the response body failed.
#[derive(Debug, Clone, PartialEq, Eq, Structural)]
pub enum DecodeKind {
    /// The body is not valid UTF-8 text.
    Utf8,
    /// The body is not well-formed JSON.
    Syntax,
    /// The JSON is well-formed but does not match the snapshot schema.
    Schema,
}

/// One failure kind per way a scrape can go wrong.
#[derive(Debug, Clone)]
pub enum ScrapeError {
    /// The script path of the configuration cannot be decomposed, or a
    /// parameter is too large for the FastCGI wire encoding.
    Configuration,
    /// The FastCGI target refused or dropped the connection.
    Connection,
    /// The caller-supplied deadline passed while awaiting the response.
    Timeout,
    /// A malformed FastCGI record: bad version, or a request id other than 1,
    /// or an end-request record of the wrong size.
    Framing,
    /// The worker finished with a nonzero application status; carries that
    /// status and the captured diagnostic bytes from the stderr stream.
    Application { status: u32, diagnostic: Vec<u8> },
    /// The response has no blank-line separator between headers and body.
    MalformedResponse,
    /// The body could not be decoded into a snapshot.
    Decode(DecodeKind),
}

} // verus!
