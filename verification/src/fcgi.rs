//! The FastCGI wire protocol: binary record framing for one
//! request/response cycle with request id fixed at 1.
//!
//! The request side is encoded here in full — a begin-request record, one
//! params record per CGI variable followed by the empty params terminator,
//! the body as stdin records followed by the empty stdin terminator. The
//! response side is a state machine fed exact byte counts by the caller,
//! which accumulates the stdout and stderr streams until the end-request
//! record arrives.
use vstd::prelude::*;
use vstd::utf8::encode_utf8;
use crate::config::ParamSet;
use crate::config::pairs_views;
use crate::error::ScrapeError;

verus! {

pub const FCGI_BEGIN_REQUEST: u8 = 1;
pub const FCGI_END_REQUEST: u8 = 3;
pub const FCGI_PARAMS: u8 = 4;
pub const FCGI_STDIN: u8 = 5;
pub const FCGI_STDOUT: u8 = 6;
pub const FCGI_STDERR: u8 = 7;

/// The bytes of one record: the 8-byte header — version 1, the type, the
/// request id 1 big-endian, the content length big-endian, no padding —
/// then the content.
pub open spec fn record_bytes(rtype: u8, content: Seq<u8>) -> Seq<u8> {
    seq![
        1u8,
        rtype,
        0u8,
        1u8,
        ((content.len() as int) / 256) as u8,
        ((content.len() as int) % 256) as u8,
        0u8,
        0u8,
    ] + content
}

/// The length prefix of one name or value: one byte below 128, else four
/// bytes big-endian with the high bit of the first set.
pub open spec fn len_prefix(n: int) -> Seq<u8> {
    if n < 128 {
        seq![n as u8]
    } else {
        seq![
            ((n / 0x1000000) % 128 + 128) as u8,
            ((n / 0x10000) % 256) as u8,
            ((n / 256) % 256) as u8,
            (n % 256) as u8,
        ]
    }
}

/// The length-prefixed encoding of one CGI variable, both texts as their
/// UTF-8 bytes.
pub open spec fn pair_bytes(name: Seq<char>, value: Seq<char>) -> Seq<u8> {
    let n = encode_utf8(name);
    let v = encode_utf8(value);
    len_prefix(n.len() as int) + len_prefix(v.len() as int) + n + v
}

/// Whether one CGI variable fits the encoding this client emits: the
/// four-byte length prefix caps either text, and the whole pair must fit
/// one record's two-byte content length.
pub open spec fn pair_fits(name: Seq<char>, value: Seq<char>) -> bool {
    &&& encode_utf8(name).len() < 0x80000000
    &&& encode_utf8(value).len() < 0x80000000
    &&& pair_bytes(name, value).len() <= 0xffff
}

/// Every variable of a parameter list fits the wire encoding.
pub open spec fn all_pairs_fit(pairs: Seq<(Seq<char>, Seq<char>)>) -> bool {
    forall|j: int| 0 <= j < pairs.len() ==> #[trigger] pair_fits(pairs[j].0, pairs[j].1)
}

/// The params records of the first `i` variables, one record per variable.
pub open spec fn params_records_to(pairs: Seq<(Seq<char>, Seq<char>)>, i: int) -> Seq<u8>
    decreases i,
{
    if i <= 0 {
        Seq::empty()
    } else {
        params_records_to(pairs, i - 1) + record_bytes(
            FCGI_PARAMS,
            pair_bytes(pairs[i - 1].0, pairs[i - 1].1),
        )
    }
}

/// The stdin records of the body from offset `i` on, in chunks of at most
/// 65535 bytes; an empty remainder yields no record.
pub open spec fn stdin_records(body: Seq<u8>, i: int) -> Seq<u8>
    decreases body.len() - i,
{
    if i < 0 || i >= body.len() {
        Seq::empty()
    } else if body.len() - i <= 0xffff {
        record_bytes(FCGI_STDIN, body.subrange(i, body.len() as int))
    } else {
        record_bytes(FCGI_STDIN, body.subrange(i, i + 0xffff)) + stdin_records(body, i + 0xffff)
    }
}

/// The begin-request content: role responder, no keep-alive, five
/// reserved bytes.
pub open spec fn begin_request_content() -> Seq<u8> {
    seq![0u8, 1u8, 0u8, 0u8, 0u8, 0u8, 0u8, 0u8]
}

/// The full request byte stream of a parameter list and a body.
pub open spec fn request_bytes(pairs: Seq<(Seq<char>, Seq<char>)>, body: Seq<u8>) -> Seq<u8> {
    record_bytes(FCGI_BEGIN_REQUEST, begin_request_content()) + params_records_to(
        pairs,
        pairs.len() as int,
    ) + record_bytes(FCGI_PARAMS, Seq::empty()) + stdin_records(body, 0) + record_bytes(
        FCGI_STDIN,
        Seq::empty(),
    )
}

/// Copies a byte range of a slice.
pub fn copy_range(s: &[u8], a: usize, b: usize) -> (r: Vec<u8>)
    requires
        a <= b <= s@.len(),
    ensures
        r@ == s@.subrange(a as int, b as int),
{
    let mut out: Vec<u8> = Vec::new();
    let mut i: usize = a;
    while i < b
        invariant
            a <= i <= b <= s@.len(),
            out@ == s@.subrange(a as int, i as int),
        decreases b - i,
    {
        let x = s[i];
        out.push(x);
        proof {
            assert(out@ =~= s@.subrange(a as int, i as int + 1));
        }
        i = i + 1;
    }
    out
}

/// Appends one record: header, then the content, no padding.
fn append_record(out: &mut Vec<u8>, rtype: u8, content: &Vec<u8>)
    requires
        content@.len() <= 0xffff,
    ensures
        final(out)@ == old(out)@ + record_bytes(rtype, content@),
{
    let n = content.len();
    out.push(1);
    out.push(rtype);
    out.push(0);
    out.push(1);
    out.push((n / 256) as u8);
    out.push((n % 256) as u8);
    out.push(0);
    out.push(0);
    out.extend_from_slice(content.as_slice());
    proof {
        assert(out@ =~= old(out)@ + record_bytes(rtype, content@));
    }
}

/// Appends the length prefix of one text.
fn append_len_prefix(out: &mut Vec<u8>, n: usize)
    requires
        n < 0x80000000,
    ensures
        final(out)@ == old(out)@ + len_prefix(n as int),
{
    if n < 128 {
        out.push(n as u8);
        proof {
            assert(out@ =~= old(out)@ + len_prefix(n as int));
        }
    } else {
        out.push(((n / 0x1000000) % 128 + 128) as u8);
        out.push(((n / 0x10000) % 256) as u8);
        out.push(((n / 256) % 256) as u8);
        out.push((n % 256) as u8);
        proof {
            assert(out@ =~= old(out)@ + len_prefix(n as int));
        }
    }
}

/// Appends the stdin records of the body from offset `i` on.
fn append_stdin_records(out: &mut Vec<u8>, body: &[u8], i: usize)
    requires
        i <= body@.len(),
    ensures
        final(out)@ == old(out)@ + stdin_records(body@, i as int),
    decreases body@.len() - i,
{
    if i >= body.len() {
        proof {
            assert(out@ =~= old(out)@ + stdin_records(body@, i as int));
        }
    } else if body.len() - i <= 0xffff {
        let chunk = copy_range(body, i, body.len());
        append_record(out, FCGI_STDIN, &chunk);
        proof {
            assert(out@ =~= old(out)@ + stdin_records(body@, i as int));
        }
    } else {
        let chunk = copy_range(body, i, i + 0xffff);
        append_record(out, FCGI_STDIN, &chunk);
        append_stdin_records(out, body, i + 0xffff);
        proof {
            assert(out@ =~= old(out)@ + stdin_records(body@, i as int));
        }
    }
}

/// Encodes the whole request byte stream of a parameter set and a body.
/// Fails, with a configuration error, exactly when some variable does not
/// fit the wire encoding.
pub fn encode_request(params: &ParamSet, body: &[u8]) -> (r: Result<Vec<u8>, ScrapeError>)
    ensures
        r is Ok <==> all_pairs_fit(params.view_pairs()),
        r matches Ok(b) ==> b@ == request_bytes(params.view_pairs(), body@),
        r matches Err(e) ==> e is Configuration,
{
    let ghost pv = params.view_pairs();
    let mut out: Vec<u8> = Vec::new();
    let begin: Vec<u8> = vec![0u8, 1u8, 0u8, 0u8, 0u8, 0u8, 0u8, 0u8];
    proof {
        assert(begin@ =~= begin_request_content());
    }
    append_record(&mut out, FCGI_BEGIN_REQUEST, &begin);
    let mut i: usize = 0;
    while i < params.pairs.len()
        invariant
            i <= params.pairs@.len(),
            pv == pairs_views(params.pairs@),
            out@ == record_bytes(FCGI_BEGIN_REQUEST, begin_request_content()) + params_records_to(
                pv,
                i as int,
            ),
            forall|j: int| 0 <= j < i ==> #[trigger] pair_fits(pv[j].0, pv[j].1),
        decreases params.pairs@.len() - i,
    {
        let name = &params.pairs[i].0;
        let value = &params.pairs[i].1;
        let nb = crate::text::str_bytes_vec(name.as_str());
        let vb = crate::text::str_bytes_vec(value.as_str());
        if nb.len() >= 0x80000000 || vb.len() >= 0x80000000 {
            proof {
                assert(params.view_pairs()[i as int] == (params.pairs@[i as int].0@,
                    params.pairs@[i as int].1@));
                assert(!pair_fits(params.view_pairs()[i as int].0,
                    params.view_pairs()[i as int].1));
                assert(!all_pairs_fit(params.view_pairs()));
            }
            return Err(ScrapeError::Configuration);
        }
        let mut content: Vec<u8> = Vec::new();
        append_len_prefix(&mut content, nb.len());
        append_len_prefix(&mut content, vb.len());
        content.extend_from_slice(nb.as_slice());
        content.extend_from_slice(vb.as_slice());
        proof {
            assert(content@ =~= pair_bytes(pv[i as int].0, pv[i as int].1));
        }
        if content.len() > 0xffff {
            proof {
                assert(params.view_pairs()[i as int] == (params.pairs@[i as int].0@,
                    params.pairs@[i as int].1@));
                assert(!pair_fits(params.view_pairs()[i as int].0,
                    params.view_pairs()[i as int].1));
                assert(!all_pairs_fit(params.view_pairs()));
            }
            return Err(ScrapeError::Configuration);
        }
        append_record(&mut out, FCGI_PARAMS, &content);
        proof {
            assert(params_records_to(pv, i + 1) == params_records_to(pv, i as int) + record_bytes(
                FCGI_PARAMS,
                pair_bytes(pv[i as int].0, pv[i as int].1),
            ));
            assert(out@ =~= record_bytes(FCGI_BEGIN_REQUEST, begin_request_content())
                + params_records_to(pv, i + 1));
        }
        i = i + 1;
    }
    let empty: Vec<u8> = Vec::new();
    append_record(&mut out, FCGI_PARAMS, &empty);
    append_stdin_records(&mut out, body, 0);
    append_record(&mut out, FCGI_STDIN, &empty);
    proof {
        assert(out@ =~= request_bytes(pv, body@));
        assert(all_pairs_fit(params.view_pairs()));
    }
    Ok(out)
}

/// Where the response reader stands: before a record header, before a
/// record's content and padding, or past the end-request record.
#[derive(Debug, Clone, Copy, PartialEq, Eq, Structural)]
pub enum ReadState {
    Header,
    Body { rtype: u8, clen: u16, plen: u8 },
    Done,
}

/// The response side of one exchange: fed exact byte counts, it
/// accumulates the stdout and stderr streams until end-request.
#[derive(Debug)]
pub struct FcgiReader {
    pub state: ReadState,
    pub stdout: Vec<u8>,
    pub stderr: Vec<u8>,
    pub app_status: u32,
    pub protocol_status: u8,
}

/// Mathematical image of [`FcgiReader`].
pub struct FcgiReaderV {
    pub state: ReadState,
    pub stdout: Seq<u8>,
    pub stderr: Seq<u8>,
    pub app_status: u32,
    pub protocol_status: u8,
}

impl View for FcgiReader {
    type V = FcgiReaderV;

    open spec fn view(&self) -> FcgiReaderV {
        FcgiReaderV {
            state: self.state,
            stdout: self.stdout@,
            stderr: self.stderr@,
            app_status: self.app_status,
            protocol_status: self.protocol_status,
        }
    }
}

/// How many bytes the reader wants next: a header, or a record's content
/// plus padding, or nothing once done.
pub open spec fn spec_needed(v: FcgiReaderV) -> int {
    match v.state {
        ReadState::Header => 8,
        ReadState::Body { rtype, clen, plen } => clen + plen,
        ReadState::Done => 0,
    }
}

/// The big-endian 32-bit value of four bytes.
pub open spec fn be32(b: Seq<u8>) -> int {
    b[0] * 0x1000000 + b[1] * 0x10000 + b[2] * 256 + b[3]
}

/// One transition of the reader on an exact chunk: `None` is a framing
/// violation. A header must carry version 1 and request id 1; stdout and
/// stderr content accumulates; padding is discarded; records of other
/// types are skipped; an end-request record must carry 8 content bytes and
/// yields the application and protocol status.
pub open spec fn step_spec(pre: FcgiReaderV, chunk: Seq<u8>) -> Option<FcgiReaderV> {
    match pre.state {
        ReadState::Header => {
            if chunk[0] != 1 || chunk[2] != 0 || chunk[3] != 1 {
                None
            } else {
                Some(
                    FcgiReaderV {
                        state: ReadState::Body {
                            rtype: chunk[1],
                            clen: (chunk[4] * 256 + chunk[5]) as u16,
                            plen: chunk[6],
                        },
                        ..pre
                    },
                )
            }
        },
        ReadState::Body { rtype, clen, plen } => {
            let content = chunk.subrange(0, clen as int);
            if rtype == FCGI_STDOUT {
                Some(FcgiReaderV { state: ReadState::Header, stdout: pre.stdout + content, ..pre })
            } else if rtype == FCGI_STDERR {
                Some(FcgiReaderV { state: ReadState::Header, stderr: pre.stderr + content, ..pre })
            } else if rtype == FCGI_END_REQUEST {
                if clen != 8 {
                    None
                } else {
                    Some(
                        FcgiReaderV {
                            state: ReadState::Done,
                            app_status: be32(content) as u32,
                            protocol_status: content[4],
                            ..pre
                        },
                    )
                }
            } else {
                Some(FcgiReaderV { state: ReadState::Header, ..pre })
            }
        },
        ReadState::Done => None,
    }
}

impl FcgiReader {
    /// A fresh reader awaiting the first record header.
    pub fn new() -> (r: FcgiReader)
        ensures
            r@ == (FcgiReaderV {
                state: ReadState::Header,
                stdout: Seq::empty(),
                stderr: Seq::empty(),
                app_status: 0,
                protocol_status: 0,
            }),
    {
        let r = FcgiReader {
            state: ReadState::Header,
            stdout: Vec::new(),
            stderr: Vec::new(),
            app_status: 0,
            protocol_status: 0,
        };
        proof {
            assert(r@.stdout =~= Seq::<u8>::empty());
            assert(r@.stderr =~= Seq::<u8>::empty());
        }
        r
    }

    /// How many bytes to read next.
    pub fn needed(&self) -> (r: usize)
        ensures
            r as int == spec_needed(self@),
    {
        match self.state {
            ReadState::Header => 8,
            ReadState::Body { rtype, clen, plen } => clen as usize + plen as usize,
            ReadState::Done => 0,
        }
    }

    /// Whether the end-request record has been seen.
    pub fn done(&self) -> (r: bool)
        ensures
            r == (self@.state is Done),
    {
        match self.state {
            ReadState::Done => true,
            _ => false,
        }
    }

    /// Feeds the reader the exact number of bytes it asked for. On a
    /// framing violation the reader is left unchanged and the exchange
    /// must be abandoned.
    pub fn step(&mut self, chunk: &[u8]) -> (r: Result<(), ScrapeError>)
        requires
            !(old(self)@.state is Done),
            chunk@.len() == spec_needed(old(self)@),
        ensures
            match r {
                Ok(()) => step_spec(old(self)@, chunk@) == Some(final(self)@),
                Err(e) => e is Framing && step_spec(old(self)@, chunk@) is None && final(self)@
                    == old(self)@,
            },
    {
        match self.state {
            ReadState::Header => {
                if chunk[0] != 1 || chunk[2] != 0 || chunk[3] != 1 {
                    return Err(ScrapeError::Framing);
                }
                let clen: u16 = (chunk[4] as u16) * 256 + (chunk[5] as u16);
                self.state = ReadState::Body { rtype: chunk[1], clen, plen: chunk[6] };
                Ok(())
            },
            ReadState::Body { rtype, clen, plen } => {
                if rtype == FCGI_STDOUT {
                    let mut content = copy_range(chunk, 0, clen as usize);
                    self.stdout.append(&mut content);
                    self.state = ReadState::Header;
                    Ok(())
                } else if rtype == FCGI_STDERR {
                    let mut content = copy_range(chunk, 0, clen as usize);
                    self.stderr.append(&mut content);
                    self.state = ReadState::Header;
                    Ok(())
                } else if rtype == FCGI_END_REQUEST {
                    if clen != 8 {
                        return Err(ScrapeError::Framing);
                    }
                    let status: u32 = (chunk[0] as u32) * 0x1000000 + (chunk[1] as u32) * 0x10000
                        + (chunk[2] as u32) * 256 + (chunk[3] as u32);
                    self.app_status = status;
                    self.protocol_status = chunk[4];
                    self.state = ReadState::Done;
                    proof {
                        assert(chunk@.subrange(0, 8)[0] == chunk@[0]);
                        assert(chunk@.subrange(0, 8)[1] == chunk@[1]);
                        assert(chunk@.subrange(0, 8)[2] == chunk@[2]);
                        assert(chunk@.subrange(0, 8)[3] == chunk@[3]);
                        assert(chunk@.subrange(0, 8)[4] == chunk@[4]);
                    }
                    Ok(())
                } else {
                    self.state = ReadState::Header;
                    Ok(())
                }
            },
            ReadState::Done => Err(ScrapeError::Framing),
        }
    }
}

/// What one exchange produced: the worker's application exit status and
/// the accumulated stdout and stderr streams.
#[derive(Debug)]
pub struct FcgiOutcome {
    pub app_status: u32,
    pub stdout: Vec<u8>,
    pub stderr: Vec<u8>,
}

impl FcgiReader {
    /// Hands out what the exchange produced, once the end-request record
    /// has been seen.
    pub fn into_outcome(self) -> (r: FcgiOutcome)
        requires
            self@.state is Done,
        ensures
            r.app_status == self@.app_status,
            r.stdout@ == self@.stdout,
            r.stderr@ == self@.stderr,
    {
        FcgiOutcome { app_status: self.app_status, stdout: self.stdout, stderr: self.stderr }
    }
}

} // verus!
