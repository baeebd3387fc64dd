//! The scrape orchestrator: one request prepared per invocation, one
//! transport attempt, and a rendering produced on every outcome.
//!
//! The transport itself — opening the connection, writing the request
//! bytes, feeding the reader, enforcing the caller's deadline — belongs to
//! the calling infrastructure. This module prepares the exact bytes to
//! send and turns whatever came back, or the failure that prevented an
//! answer, into exposition text: a full metric set on success, the
//! liveness gauge valued 0 on any failure. No error propagates to the
//! caller as a hard failure.
use vstd::prelude::*;
use crate::config::ScrapeConfig;
use crate::config::params_spec;
use crate::decode::decode_snapshot;
use crate::decode::sp_decode;
use crate::error::ScrapeError;
use crate::fcgi::FCGI_BEGIN_REQUEST;
use crate::fcgi::FCGI_PARAMS;
use crate::fcgi::FCGI_STDIN;
use crate::fcgi::FcgiOutcome;
use crate::fcgi::all_pairs_fit;
use crate::fcgi::begin_request_content;
use crate::fcgi::encode_request;
use crate::fcgi::params_records_to;
use crate::fcgi::record_bytes;
use crate::fcgi::request_bytes;
use crate::fcgi::stdin_records;
use crate::render::render_failure_text;
use crate::render::render_opcache_stats;
use crate::render::render_scrape_failure;
use crate::render::render_spec;
use crate::response::split_response;
use crate::response::split_spec;

verus! {

/// Whether a configuration yields a parameter set that fits the wire
/// encoding.
pub open spec fn request_feasible(cfg: ScrapeConfig) -> bool {
    match params_spec(cfg) {
        None => false,
        Some(pairs) => all_pairs_fit(pairs),
    }
}

/// The bytes of one whole request for a configuration: the built parameter
/// set framed as FastCGI records, with an empty body. Fails, with a
/// configuration error, exactly when the script path cannot be decomposed
/// or a parameter does not fit the wire encoding.
pub fn prepare_request(cfg: &ScrapeConfig) -> (r: Result<Vec<u8>, ScrapeError>)
    ensures
        r is Ok <==> request_feasible(*cfg),
        r matches Ok(b) ==> (params_spec(*cfg) matches Some(pairs) && b@ == request_bytes(
            pairs,
            Seq::empty(),
        )),
        r matches Err(e) ==> e is Configuration,
{
    let params = match crate::config::build_params(cfg) {
        Err(e) => {
            return Err(e);
        },
        Ok(p) => p,
    };
    let body: Vec<u8> = Vec::new();
    let r = encode_request(&params, body.as_slice());
    proof {
        let pairs = params.view_pairs();
        assert(params_spec(*cfg) == Some(pairs));
        assert((r is Ok) <==> all_pairs_fit(pairs));
    }
    r
}

/// The text of a completed exchange: the full metric set when the status
/// is zero and the stdout payload splits and decodes, the liveness-only
/// set otherwise.
pub open spec fn scrape_success_text(status: u32, stdout: Seq<u8>) -> Seq<char> {
    if status != 0 {
        render_failure_text()
    } else {
        match split_spec(stdout) {
            None => render_failure_text(),
            Some(p) => match sp_decode(p.1) {
                Err(_) => render_failure_text(),
                Ok(op) => render_spec(op),
            },
        }
    }
}

/// Turns a transport outcome into exposition text, never failing: the full
/// metric set when the exchange completed with status zero and the payload
/// decoded, the liveness gauge valued 0 otherwise. Beside the text stands
/// the failure that caused a degraded rendering, for the caller's log.
pub fn metrics_from_transport(outcome: Result<FcgiOutcome, ScrapeError>) -> (r: (
    String,
    Option<ScrapeError>,
))
    ensures
        match outcome {
            Err(_) => r.0@ == render_failure_text(),
            Ok(o) => r.0@ == scrape_success_text(o.app_status, o.stdout@),
        },
        match outcome {
            Err(e) => r.1 == Some(e),
            Ok(o) => {
                if o.app_status != 0 {
                    r.1 matches Some(e2) && e2 matches ScrapeError::Application {
                        status,
                        diagnostic,
                    } && status == o.app_status && diagnostic@ == o.stderr@
                } else if split_spec(o.stdout@) is None {
                    r.1 matches Some(e2) && e2 is MalformedResponse
                } else if sp_decode(split_spec(o.stdout@)->Some_0.1) is Err {
                    r.1 == Some(ScrapeError::Decode(sp_decode(split_spec(o.stdout@)->Some_0.1)->Err_0))
                } else {
                    r.1 is None
                }
            },
        },
{
    let o = match outcome {
        Err(e) => {
            return (render_scrape_failure(), Some(e));
        },
        Ok(o) => o,
    };
    if o.app_status != 0 {
        let e = ScrapeError::Application { status: o.app_status, diagnostic: o.stderr };
        return (render_scrape_failure(), Some(e));
    }
    let body = match split_response(o.stdout.as_slice()) {
        Err(e) => {
            return (render_scrape_failure(), Some(e));
        },
        Ok(p) => p.1,
    };
    match decode_snapshot(body.as_slice()) {
        Err(e) => (render_scrape_failure(), Some(e)),
        Ok(op) => (render_opcache_stats(&op), None),
    }
}

/// Law: a request is built with an empty body — its stdin section is the
/// zero-length terminator record alone, and the parameter set it frames
/// carries a `CONTENT_LENGTH` of `"0"`.
pub proof fn lemma_request_no_body(cfg: ScrapeConfig, pairs: Seq<(Seq<char>, Seq<char>)>)
    requires
        params_spec(cfg) == Some(pairs),
    ensures
        pairs[12] == ("CONTENT_LENGTH"@, "0"@),
        request_bytes(pairs, Seq::empty()) == record_bytes(
            FCGI_BEGIN_REQUEST,
            begin_request_content(),
        ) + params_records_to(pairs, pairs.len() as int) + record_bytes(FCGI_PARAMS, Seq::empty())
            + record_bytes(FCGI_STDIN, Seq::empty()),
{
    crate::config::lemma_params_content_length(cfg, pairs);
    assert(stdin_records(Seq::<u8>::empty(), 0) =~= Seq::<u8>::empty());
    assert(request_bytes(pairs, Seq::empty()) =~= record_bytes(
        FCGI_BEGIN_REQUEST,
        begin_request_content(),
    ) + params_records_to(pairs, pairs.len() as int) + record_bytes(FCGI_PARAMS, Seq::empty())
        + record_bytes(FCGI_STDIN, Seq::empty()));
}

} // verus!
