//! The request builder: from a scrape configuration to the CGI parameter
//! set of one FastCGI request. Pure; its only failure is a script path that
//! cannot be decomposed into a directory and a file name.
use vstd::prelude::*;
use vstd::string::StrSliceExecFns;
use vstd::string::StringExecFns;
use crate::error::ScrapeError;
use crate::text::dec_nat;
use crate::text::dec_u64_string;

verus! {

/// Everything one scrape needs to know: where the worker listens is kept by
/// the caller; this describes the request handed to it.
#[derive(Debug, Clone)]
pub struct ScrapeConfig {
    /// HTTP-style request method, `GET` or `POST`.
    pub request_method: String,
    /// Path of the status script on the worker's filesystem.
    pub script_filename: String,
    /// Request URI presented to the worker.
    pub request_uri: String,
    /// Document URI; defaults to the request URI.
    pub document_uri: Option<String>,
    /// Address the request claims to come from.
    pub remote_addr: String,
    pub remote_port: u16,
    /// Address and port of the serving side.
    pub server_addr: String,
    pub server_port: u16,
    /// Server name, mirrored into the HTTP host header variable.
    pub server_name: String,
}

/// An ordered set of CGI variables with unique names, fully enumerated
/// before transmission and never mutated afterwards.
#[derive(Debug, Clone)]
pub struct ParamSet {
    pub pairs: Vec<(String, String)>,
}

/// Mathematical image of a pair list.
pub open spec fn pairs_views(s: Seq<(String, String)>) -> Seq<(Seq<char>, Seq<char>)> {
    s.map_values(|e: (String, String)| (e.0@, e.1@))
}

impl ParamSet {
    pub open spec fn view_pairs(self) -> Seq<(Seq<char>, Seq<char>)> {
        pairs_views(self.pairs@)
    }
}

/// The index of the last `/` of a path at or before `i`, or `-1`.
pub open spec fn last_slash_at(p: Seq<char>, i: int) -> int
    decreases i + 1,
{
    if i < 0 || i >= p.len() {
        -1
    } else if p[i] == '/' {
        i
    } else {
        last_slash_at(p, i - 1)
    }
}

/// Splits a script path into the parent directory and the file name.
/// An empty path, or one whose last component is empty, cannot be
/// decomposed. A path without a directory part, or with the root as its
/// directory, gets the root directory.
pub open spec fn doc_split(p: Seq<char>) -> Option<(Seq<char>, Seq<char>)> {
    if p.len() == 0 || p[p.len() - 1] == '/' {
        None
    } else {
        let j = last_slash_at(p, p.len() - 1);
        if j < 0 {
            Some((seq!['/'], p))
        } else if j == 0 {
            Some((seq!['/'], p.subrange(1, p.len() as int)))
        } else {
            Some((p.subrange(0, j), p.subrange(j + 1, p.len() as int)))
        }
    }
}

/// The document URI: the configured one, else the request URI.
pub open spec fn doc_uri_spec(c: ScrapeConfig) -> Seq<char> {
    match c.document_uri {
        Some(u) => u@,
        None => c.request_uri@,
    }
}

/// The full parameter list of a configuration, in order, or nothing when
/// the script path cannot be decomposed.
pub open spec fn params_spec(c: ScrapeConfig) -> Option<Seq<(Seq<char>, Seq<char>)>> {
    match doc_split(c.script_filename@) {
        None => None,
        Some(split) => Some(
            seq![
                ("REQUEST_METHOD"@, c.request_method@),
                ("DOCUMENT_ROOT"@, split.0),
                ("SCRIPT_NAME"@, split.1),
                ("SCRIPT_FILENAME"@, c.script_filename@),
                ("REQUEST_URI"@, c.request_uri@),
                ("DOCUMENT_URI"@, doc_uri_spec(c)),
                ("REMOTE_ADDR"@, c.remote_addr@),
                ("REMOTE_PORT"@, dec_nat(c.remote_port as nat)),
                ("SERVER_ADDR"@, c.server_addr@),
                ("SERVER_PORT"@, dec_nat(c.server_port as nat)),
                ("SERVER_NAME"@, c.server_name@),
                ("CONTENT_TYPE"@, Seq::<char>::empty()),
                ("CONTENT_LENGTH"@, "0"@),
                ("HTTP_HOST"@, c.server_name@),
            ],
        ),
    }
}

/// Finds the last `/` of a path, if any.
fn find_last_slash(p: &str) -> (r: Option<usize>)
    ensures
        match r {
            Some(j) => j < p@.len() && last_slash_at(p@, p@.len() - 1) == j as int,
            None => last_slash_at(p@, p@.len() - 1) == -1,
        },
{
    let n = p.unicode_len();
    let mut i: usize = n;
    while i > 0
        invariant
            i <= n,
            n == p@.len(),
            last_slash_at(p@, p@.len() - 1) == last_slash_at(p@, i as int - 1),
        decreases i,
    {
        let c = p.get_char(i - 1);
        if c == '/' {
            return Some(i - 1);
        }
        i = i - 1;
    }
    None
}

/// Splits the script path, at run time (see [`doc_split`]).
pub fn split_script_path(p: &str) -> (r: Option<(String, String)>)
    ensures
        match r {
            Some(s) => doc_split(p@) == Some((s.0@, s.1@)),
            None => doc_split(p@) is None,
        },
{
    proof {
        reveal_strlit("/");
        assert("/"@ =~= seq!['/']);
    }
    let n = p.unicode_len();
    if n == 0 {
        return None;
    }
    if p.get_char(n - 1) == '/' {
        return None;
    }
    match find_last_slash(p) {
        None => Some((String::from_str("/"), String::from_str(p))),
        Some(j) => {
            if j == 0 {
                let name = p.substring_char(1, n);
                Some((String::from_str("/"), String::from_str(name)))
            } else {
                let root = p.substring_char(0, j);
                let name = p.substring_char(j + 1, n);
                Some((String::from_str(root), String::from_str(name)))
            }
        },
    }
}

/// Builds the parameter set of a configuration: exactly the fixed CGI
/// variables of [`params_spec`], in that order. Fails, with a configuration
/// error, exactly when the script path cannot be decomposed.
pub fn build_params(c: &ScrapeConfig) -> (r: Result<ParamSet, ScrapeError>)
    ensures
        r is Ok <==> params_spec(*c) is Some,
        r matches Ok(p) ==> Some(p.view_pairs()) == params_spec(*c),
        r matches Err(e) ==> e is Configuration,
{
    let split = match split_script_path(c.script_filename.as_str()) {
        None => {
            return Err(ScrapeError::Configuration);
        },
        Some(s) => s,
    };
    let doc_uri = match &c.document_uri {
        Some(u) => u.clone(),
        None => c.request_uri.clone(),
    };
    let mut pairs: Vec<(String, String)> = Vec::new();
    pairs.push((String::from_str("REQUEST_METHOD"), c.request_method.clone()));
    pairs.push((String::from_str("DOCUMENT_ROOT"), split.0));
    pairs.push((String::from_str("SCRIPT_NAME"), split.1));
    pairs.push((String::from_str("SCRIPT_FILENAME"), c.script_filename.clone()));
    pairs.push((String::from_str("REQUEST_URI"), c.request_uri.clone()));
    pairs.push((String::from_str("DOCUMENT_URI"), doc_uri));
    pairs.push((String::from_str("REMOTE_ADDR"), c.remote_addr.clone()));
    pairs.push((String::from_str("REMOTE_PORT"), dec_u64_string(c.remote_port as u64)));
    pairs.push((String::from_str("SERVER_ADDR"), c.server_addr.clone()));
    pairs.push((String::from_str("SERVER_PORT"), dec_u64_string(c.server_port as u64)));
    pairs.push((String::from_str("SERVER_NAME"), c.server_name.clone()));
    pairs.push((String::from_str("CONTENT_TYPE"), String::new()));
    pairs.push((String::from_str("CONTENT_LENGTH"), String::from_str("0")));
    pairs.push((String::from_str("HTTP_HOST"), c.server_name.clone()));
    proof {
        assert(Some(pairs_views(pairs@)) =~~= params_spec(*c));
    }
    Ok(ParamSet { pairs })
}

/// Law: the parameter set is a pure function of the configuration — two
/// builds from identical configurations carry identical key/value content.
pub proof fn lemma_params_pure(c1: ScrapeConfig, c2: ScrapeConfig)
    requires
        c1 == c2,
    ensures
        params_spec(c1) == params_spec(c2),
{
}

/// Law: a successfully built parameter set carries a `CONTENT_LENGTH` of
/// `"0"`: the request body is always empty.
pub proof fn lemma_params_content_length(c: ScrapeConfig, pairs: Seq<(Seq<char>, Seq<char>)>)
    requires
        params_spec(c) == Some(pairs),
    ensures
        pairs[12] == ("CONTENT_LENGTH"@, "0"@),
        exists|i: int| 0 <= i < pairs.len() && pairs[i] == ("CONTENT_LENGTH"@, "0"@),
{
    assert(pairs[12] == ("CONTENT_LENGTH"@, "0"@));
}

} // verus!
