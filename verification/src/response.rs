//! The response parser's first half: splitting the CGI-style stdout
//! payload into the header block and the body at the first blank line.
use vstd::prelude::*;
use crate::error::ScrapeError;
use crate::fcgi::copy_range;

verus! {

/// Whether the blank-line separator `\r\n\r\n` stands at offset `i`.
pub open spec fn sep_at(s: Seq<u8>, i: int) -> bool {
    &&& 0 <= i
    &&& i + 4 <= s.len()
    &&& s[i] == 13u8
    &&& s[i + 1] == 10u8
    &&& s[i + 2] == 13u8
    &&& s[i + 3] == 10u8
}

/// The first separator offset at or after `i`, if any.
pub open spec fn find_sep_from(s: Seq<u8>, i: int) -> Option<int>
    decreases s.len() - i,
{
    if i < 0 || i + 4 > s.len() {
        None
    } else if sep_at(s, i) {
        Some(i)
    } else {
        find_sep_from(s, i + 1)
    }
}

/// The header block and the body: everything before the first separator,
/// and everything after it.
pub open spec fn split_spec(s: Seq<u8>) -> Option<(Seq<u8>, Seq<u8>)> {
    match find_sep_from(s, 0) {
        None => None,
        Some(i) => Some((s.subrange(0, i), s.subrange(i + 4, s.len() as int))),
    }
}

/// Splits the response at the first blank-line separator. Fails, as a
/// malformed response, exactly when no separator occurs.
pub fn split_response(s: &[u8]) -> (r: Result<(Vec<u8>, Vec<u8>), ScrapeError>)
    ensures
        r is Ok <==> find_sep_from(s@, 0) is Some,
        r matches Ok(p) ==> split_spec(s@) == Some((p.0@, p.1@)),
        r matches Err(e) ==> e is MalformedResponse,
{
    let n = s.len();
    if n < 4 {
        return Err(ScrapeError::MalformedResponse);
    }
    let mut i: usize = 0;
    while i <= n - 4
        invariant
            n == s@.len(),
            4 <= n,
            i <= n,
            find_sep_from(s@, 0) == find_sep_from(s@, i as int),
        decreases n - i,
    {
        if s[i] == 13 && s[i + 1] == 10 && s[i + 2] == 13 && s[i + 3] == 10 {
            let headers = copy_range(s, 0, i);
            let body = copy_range(s, i + 4, n);
            return Ok((headers, body));
        }
        i = i + 1;
    }
    Err(ScrapeError::MalformedResponse)
}

/// What [`find_sep_from`] finds, from `k` on: the first separator at or
/// after `k`, or the absence of any.
proof fn lemma_find_from(s: Seq<u8>, k: int)
    requires
        0 <= k,
    ensures
        match find_sep_from(s, k) {
            Some(i) => k <= i && sep_at(s, i) && (forall|j: int| k <= j < i ==> !sep_at(s, j)),
            None => forall|j: int| j >= k ==> !sep_at(s, j),
        },
    decreases s.len() - k,
{
    if k + 4 > s.len() {
    } else if sep_at(s, k) {
    } else {
        lemma_find_from(s, k + 1);
    }
}

/// Law: the split happens at the first separator only — whatever later
/// occurrences of the same byte sequence the body holds, the header block
/// is free of separators and the body begins right after the first one.
pub proof fn lemma_split_first_separator(s: Seq<u8>)
    ensures
        split_spec(s) matches Some(p) ==> exists|i: int|
            {
                &&& #[trigger] sep_at(s, i)
                &&& (forall|j: int| 0 <= j < i ==> !sep_at(s, j))
                &&& p.0 == s.subrange(0, i)
                &&& p.1 == s.subrange(i + 4, s.len() as int)
            },
        split_spec(s) is None ==> forall|j: int| !sep_at(s, j),
{
    lemma_find_from(s, 0);
    if split_spec(s) is Some {
        let i = find_sep_from(s, 0)->Some_0;
        assert(sep_at(s, i));
    } else {
        assert forall|j: int| !sep_at(s, j) by {
            if sep_at(s, j) {
                assert(j >= 0);
            }
        }
    }
}

} // verus!
