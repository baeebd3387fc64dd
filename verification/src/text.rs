//! Plain-text helpers shared by the pipeline: decimal rendering of integers
//! and the bridge between byte buffers and UTF-8 text.
use vstd::prelude::*;
use vstd::string::StringExecFns;

verus! {

/// The character of one decimal digit.
pub open spec fn digit_char(d: int) -> char {
    if d == 0 {
        '0'
    } else if d == 1 {
        '1'
    } else if d == 2 {
        '2'
    } else if d == 3 {
        '3'
    } else if d == 4 {
        '4'
    } else if d == 5 {
        '5'
    } else if d == 6 {
        '6'
    } else if d == 7 {
        '7'
    } else if d == 8 {
        '8'
    } else {
        '9'
    }
}

/// Decimal text of a natural number, most significant digit first,
/// without leading zeros.
pub open spec fn dec_nat(n: nat) -> Seq<char>
    decreases n,
{
    if n < 10 {
        seq![digit_char(n as int)]
    } else {
        dec_nat(n / 10) + seq![digit_char((n % 10) as int)]
    }
}

/// Decimal text of an integer: a minus sign for negative values,
/// then the decimal digits of the magnitude.
pub open spec fn dec_int(n: int) -> Seq<char> {
    if n < 0 {
        seq!['-'] + dec_nat((-n) as nat)
    } else {
        dec_nat(n as nat)
    }
}

/// Appends the character of one decimal digit.
pub(crate) fn append_digit(s: &mut String, d: u8)
    requires
        d < 10,
    ensures
        final(s)@ == old(s)@ + seq![digit_char(d as int)],
{
    proof {
        reveal_strlit("0");
        reveal_strlit("1");
        reveal_strlit("2");
        reveal_strlit("3");
        reveal_strlit("4");
        reveal_strlit("5");
        reveal_strlit("6");
        reveal_strlit("7");
        reveal_strlit("8");
        reveal_strlit("9");
    }
    if d == 0 {
        s.append("0");
        proof { assert(s@ =~= old(s)@ + seq![digit_char(d as int)]); }
    } else if d == 1 {
        s.append("1");
        proof { assert(s@ =~= old(s)@ + seq![digit_char(d as int)]); }
    } else if d == 2 {
        s.append("2");
        proof { assert(s@ =~= old(s)@ + seq![digit_char(d as int)]); }
    } else if d == 3 {
        s.append("3");
        proof { assert(s@ =~= old(s)@ + seq![digit_char(d as int)]); }
    } else if d == 4 {
        s.append("4");
        proof { assert(s@ =~= old(s)@ + seq![digit_char(d as int)]); }
    } else if d == 5 {
        s.append("5");
        proof { assert(s@ =~= old(s)@ + seq![digit_char(d as int)]); }
    } else if d == 6 {
        s.append("6");
        proof { assert(s@ =~= old(s)@ + seq![digit_char(d as int)]); }
    } else if d == 7 {
        s.append("7");
        proof { assert(s@ =~= old(s)@ + seq![digit_char(d as int)]); }
    } else if d == 8 {
        s.append("8");
        proof { assert(s@ =~= old(s)@ + seq![digit_char(d as int)]); }
    } else {
        s.append("9");
        proof { assert(s@ =~= old(s)@ + seq![digit_char(d as int)]); }
    }
}

/// Appends the decimal text of a natural number.
pub fn append_dec_u64(s: &mut String, n: u64)
    ensures
        final(s)@ == old(s)@ + dec_nat(n as nat),
    decreases n,
{
    if n < 10 {
        append_digit(s, n as u8);
    } else {
        append_dec_u64(s, n / 10);
        append_digit(s, (n % 10) as u8);
        proof {
            assert(s@ =~= old(s)@ + dec_nat(n as nat));
        }
    }
}

/// Appends the decimal text of a signed integer.
pub fn append_dec_i64(s: &mut String, n: i64)
    ensures
        final(s)@ == old(s)@ + dec_int(n as int),
{
    if n >= 0 {
        append_dec_u64(s, n as u64);
    } else {
        s.append("-");
        let m: u64 = (-(n as i128)) as u64;
        append_dec_u64(s, m);
        proof {
            reveal_strlit("-");
            assert("-"@ =~= seq!['-']);
            assert(s@ =~= old(s)@ + dec_int(n as int));
        }
    }
}

/// The decimal text of a natural number as an owned string.
pub fn dec_u64_string(n: u64) -> (r: String)
    ensures
        r@ == dec_nat(n as nat),
{
    let mut s = String::new();
    append_dec_u64(&mut s, n);
    proof { assert(s@ =~= dec_nat(n as nat)); }
    s
}

/// The UTF-8 bytes of a text, as an owned buffer.
pub fn str_bytes_vec(s: &str) -> (r: Vec<u8>)
    ensures
        r@ == vstd::utf8::encode_utf8(s@),
{
    let b = s.as_bytes();
    let mut out: Vec<u8> = Vec::new();
    let mut i: usize = 0;
    while i < b.len()
        invariant
            i <= b@.len(),
            out@ == b@.subrange(0, i as int),
            b@ == vstd::utf8::encode_utf8(s@),
        decreases b@.len() - i,
    {
        let x = b[i];
        out.push(x);
        proof {
            assert(out@ =~= b@.subrange(0, i as int + 1));
        }
        i = i + 1;
    }
    proof {
        assert(out@ =~= b@);
    }
    out
}

/// Relies on `String::from_utf8`: it returns the decoded text exactly when
/// the bytes are valid UTF-8, and rejects them otherwise.
#[verifier::external_body]
pub fn bytes_to_string(v: Vec<u8>) -> (r: Option<String>)
    ensures
        r is Some <==> vstd::utf8::valid_utf8(v@),
        r matches Some(s) ==> s@ == vstd::utf8::decode_utf8(v@),
{
    match String::from_utf8(v) {
        Ok(s) => Some(s),
        Err(_) => None,
    }
}


} // verus!
