//! The response parser's second half: the schema-validated decode of the
//! JSON body into a snapshot.
//!
//! The body must be UTF-8 text holding one JSON object. Fields the schema
//! knows are read by name with the type the schema gives them — unknown
//! fields are skipped — and the whole snapshot decodes only when every
//! required field is present with the right shape. The first occurrence of
//! a key decides its value. The three failure kinds are told apart: bytes
//! that are not text, text that is not JSON, and JSON that does not match
//! the schema.
use vstd::prelude::*;
use vstd::utf8::decode_utf8;
use vstd::utf8::encode_utf8;
use vstd::utf8::valid_utf8;
use crate::error::DecodeKind;
use crate::error::ScrapeError;
use crate::fcgi::copy_range;
use crate::json::is_digit;
use crate::json::number_end;
use crate::json::obj_raw;
use crate::json::sp_number_end;
use crate::json::sp_obj_raw;
use crate::json::sp_str_rest;
use crate::json::sp_ws;
use crate::json::str_rest;
use crate::json::ws_end;
use crate::php_date_format::PhpDate;
use crate::php_date_format::parse_date;
use crate::snapshot::InternedStringsUsage;
use crate::snapshot::InternedStringsUsageV;
use crate::snapshot::MemoryUsage;
use crate::snapshot::MemoryUsageV;
use crate::snapshot::Opcache;
use crate::snapshot::OpcacheStatistics;
use crate::snapshot::OpcacheStatisticsV;
use crate::snapshot::OpcacheV;
use crate::snapshot::Scripts;
use crate::snapshot::ScriptsV;
use crate::text::bytes_to_string;
use crate::text::str_bytes_vec;

verus! {

/// Whether two byte buffers hold the same bytes, at run time.
pub fn bytes_eq(a: &[u8], b: &[u8]) -> (r: bool)
    ensures
        r == (a@ == b@),
{
    if a.len() != b.len() {
        proof {
            assert(a@ != b@);
        }
        return false;
    }
    let mut i: usize = 0;
    while i < a.len()
        invariant
            i <= a@.len(),
            a@.len() == b@.len(),
            forall|j: int| 0 <= j < i ==> a@[j] == b@[j],
        decreases a@.len() - i,
    {
        if a[i] != b[i] {
            return false;
        }
        i = i + 1;
    }
    proof {
        assert(a@ =~= b@);
    }
    true
}

/// The extent of the first member named `key`, from index `i` on.
pub open spec fn find_key_at(
    entries: Seq<(Seq<u8>, (int, int))>,
    key: Seq<u8>,
    i: int,
) -> Option<(int, int)>
    decreases entries.len() - i,
{
    if i < 0 || i >= entries.len() {
        None
    } else if entries[i].0 == key {
        Some(entries[i].1)
    } else {
        find_key_at(entries, key, i + 1)
    }
}

/// Finds the first member named `key`, at run time.
pub fn find_key(entries: &Vec<(Vec<u8>, (usize, usize))>, key: &[u8]) -> (r: Option<
    (usize, usize),
>)
    ensures
        match r {
            Some(p) => find_key_at(crate::json::raw_views(entries@), key@, 0) == Some(
                (p.0 as int, p.1 as int),
            ),
            None => find_key_at(crate::json::raw_views(entries@), key@, 0) is None,
        },
{
    let ghost ev = crate::json::raw_views(entries@);
    let mut i: usize = 0;
    while i < entries.len()
        invariant
            i <= entries@.len(),
            ev == crate::json::raw_views(entries@),
            find_key_at(ev, key@, 0) == find_key_at(ev, key@, i as int),
        decreases entries@.len() - i,
    {
        if bytes_eq(entries[i].0.as_slice(), key) {
            return Some((entries[i].1.0, entries[i].1.1));
        }
        i = i + 1;
    }
    None
}

/// All bytes of `[j, b)` are decimal digits.
pub open spec fn all_digits_range(s: Seq<u8>, j: int, b: int) -> bool {
    forall|k: int| j <= k < b ==> is_digit(#[trigger] s[k])
}

/// The decimal value of the digits of `[j, b)`, onto an accumulator.
pub open spec fn digits_val_range(s: Seq<u8>, j: int, b: int, acc: int) -> int
    decreases b - j,
{
    if j < b && 0 <= j < s.len() {
        digits_val_range(s, j + 1, b, acc * 10 + (s[j] - 48))
    } else {
        acc
    }
}

/// The accumulated value only grows while digits are read.
proof fn lemma_digits_val_lb(s: Seq<u8>, j: int, b: int, acc: int)
    requires
        0 <= j,
        b <= s.len(),
        acc >= 0,
        all_digits_range(s, j, b),
    ensures
        digits_val_range(s, j, b, acc) >= acc,
    decreases b - j,
{
    if j < b {
        lemma_digits_val_lb(s, j + 1, b, acc * 10 + (s[j] - 48));
    }
}

/// The signed integer value of the extent `[a, b)`, when its text is an
/// optional minus sign and digits whose value fits a signed 64-bit
/// machine word.
pub open spec fn sp_i64_at(s: Seq<u8>, a: int, b: int) -> Option<int> {
    if !(0 <= a < b <= s.len()) {
        None
    } else if s[a] == 45 {
        if a + 1 < b && all_digits_range(s, a + 1, b) {
            let v = digits_val_range(s, a + 1, b, 0);
            if v <= 0x8000000000000000 {
                Some(-v)
            } else {
                None
            }
        } else {
            None
        }
    } else if all_digits_range(s, a, b) {
        let v = digits_val_range(s, a, b, 0);
        if v <= 0x7fffffffffffffff {
            Some(v)
        } else {
            None
        }
    } else {
        None
    }
}

/// Reads the digits of `[p, b)` into a value no greater than `limit`, at
/// run time.
fn digits_value(s: &[u8], p: usize, b: usize, limit: u64) -> (r: Option<u64>)
    requires
        p <= b <= s@.len(),
        limit >= 9,
    ensures
        match r {
            Some(v) => p < b && all_digits_range(s@, p as int, b as int) && v as int
                == digits_val_range(s@, p as int, b as int, 0) && v <= limit,
            None => p >= b || !all_digits_range(s@, p as int, b as int) || digits_val_range(
                s@,
                p as int,
                b as int,
                0,
            ) > limit,
        },
{
    if p >= b {
        return None;
    }
    let mut acc: u64 = 0;
    let mut j: usize = p;
    while j < b
        invariant
            p <= j <= b <= s@.len(),
            limit >= 9,
            acc <= limit,
            forall|k: int| p <= k < j ==> is_digit(#[trigger] s@[k]),
            digits_val_range(s@, p as int, b as int, 0) == digits_val_range(
                s@,
                j as int,
                b as int,
                acc as int,
            ),
        decreases b - j,
    {
        let c = s[j];
        if !(48 <= c && c <= 57) {
            proof {
                assert(!all_digits_range(s@, p as int, b as int));
            }
            return None;
        }
        let d = (c - 48) as u64;
        if acc > (limit - d) / 10 {
            proof {
                if all_digits_range(s@, p as int, b as int) {
                    lemma_digits_val_lb(
                        s@,
                        j as int + 1,
                        b as int,
                        acc as int * 10 + (s@[j as int] - 48),
                    );
                    assert(acc as int * 10 + d as int > limit as int) by {
                        vstd::arithmetic::div_mod::lemma_fundamental_div_mod(
                            limit as int - d as int,
                            10,
                        );
                    }
                    assert(digits_val_range(s@, p as int, b as int, 0) > limit as int);
                }
            }
            return None;
        }
        acc = acc * 10 + d;
        j = j + 1;
    }
    Some(acc)
}

/// Reads the signed integer of the extent `[a, b)`, at run time.
fn i64_of_extent(s: &[u8], a: usize, b: usize) -> (r: Option<i64>)
    requires
        b <= s@.len(),
    ensures
        match r {
            Some(v) => sp_i64_at(s@, a as int, b as int) == Some(v as int),
            None => sp_i64_at(s@, a as int, b as int) is None,
        },
{
    if !(a < b) {
        return None;
    }
    if s[a] == 45 {
        match digits_value(s, a + 1, b, 0x8000000000000000) {
            None => None,
            Some(v) => {
                let r: i64 = (-(v as i128)) as i64;
                Some(r)
            },
        }
    } else {
        match digits_value(s, a, b, 0x7fffffffffffffff) {
            None => None,
            Some(v) => Some(v as i64),
        }
    }
}

/// The boolean of the extent `[a, b)`, when its text is a boolean literal.
pub open spec fn sp_bool_at(s: Seq<u8>, a: int, b: int) -> Option<bool> {
    if !(0 <= a < b <= s.len()) {
        None
    } else if b - a == 4 && s[a] == 116 && s[a + 1] == 114 && s[a + 2] == 117 && s[a + 3] == 101 {
        Some(true)
    } else if b - a == 5 && s[a] == 102 && s[a + 1] == 97 && s[a + 2] == 108 && s[a + 3] == 115
        && s[a + 4] == 101 {
        Some(false)
    } else {
        None
    }
}

/// Reads the boolean of the extent `[a, b)`, at run time.
fn bool_of_extent(s: &[u8], a: usize, b: usize) -> (r: Option<bool>)
    requires
        b <= s@.len(),
    ensures
        match r {
            Some(v) => sp_bool_at(s@, a as int, b as int) == Some(v),
            None => sp_bool_at(s@, a as int, b as int) is None,
        },
{
    if !(a < b) {
        return None;
    }
    if b - a == 4 && s[a] == 116 && s[a + 1] == 114 && s[a + 2] == 117 && s[a + 3] == 101 {
        Some(true)
    } else if b - a == 5 && s[a] == 102 && s[a + 1] == 97 && s[a + 2] == 108 && s[a + 3] == 115
        && s[a + 4] == 101 {
        Some(false)
    } else {
        None
    }
}

/// The number text of the extent `[a, b)`, as characters, when the extent
/// is exactly one JSON number.
pub open spec fn sp_numtext_at(s: Seq<u8>, a: int, b: int) -> Option<Seq<char>> {
    if !(0 <= a <= b <= s.len()) {
        None
    } else if sp_number_end(s, a) != b {
        None
    } else if valid_utf8(s.subrange(a, b)) {
        Some(decode_utf8(s.subrange(a, b)))
    } else {
        None
    }
}

/// Reads the number text of the extent `[a, b)`, at run time.
fn numtext_of_extent(s: &[u8], a: usize, b: usize) -> (r: Option<String>)
    requires
        b <= s@.len(),
    ensures
        match r {
            Some(v) => sp_numtext_at(s@, a as int, b as int) == Some(v@),
            None => sp_numtext_at(s@, a as int, b as int) is None,
        },
{
    if !(a <= b) {
        return None;
    }
    match number_end(s, a) {
        None => None,
        Some(e) => {
            if e != b {
                return None;
            }
            let raw = copy_range(s, a, b);
            bytes_to_string(raw)
        },
    }
}

/// The decoded content bytes of the extent `[a, b)`, when the extent is
/// exactly one JSON string.
pub open spec fn sp_strbytes_at(s: Seq<u8>, a: int, b: int) -> Option<Seq<u8>> {
    if !(0 <= a < s.len() && s[a] == 34) {
        None
    } else {
        match sp_str_rest(s, a + 1) {
            None => None,
            Some(r) => if r.1 == b {
                Some(r.0)
            } else {
                None
            },
        }
    }
}

/// The text of the extent `[a, b)`, when the extent is one JSON string
/// with UTF-8 content.
pub open spec fn sp_strchars_at(s: Seq<u8>, a: int, b: int) -> Option<Seq<char>> {
    match sp_strbytes_at(s, a, b) {
        None => None,
        Some(c) => if valid_utf8(c) {
            Some(decode_utf8(c))
        } else {
            None
        },
    }
}

/// Reads the text of the extent `[a, b)`, at run time.
fn string_of_extent(s: &[u8], a: usize, b: usize) -> (r: Option<String>)
    ensures
        match r {
            Some(v) => sp_strchars_at(s@, a as int, b as int) == Some(v@),
            None => sp_strchars_at(s@, a as int, b as int) is None,
        },
{
    if !(a < s.len()) {
        return None;
    }
    if s[a] != 34 {
        return None;
    }
    match str_rest(s, a + 1) {
        None => None,
        Some(p) => {
            if p.1 != b {
                return None;
            }
            bytes_to_string(p.0)
        },
    }
}

/// The date of the extent `[a, b)`, when the extent is one JSON string
/// holding the fixed timestamp format.
pub open spec fn sp_date_at(s: Seq<u8>, a: int, b: int) -> Option<PhpDate> {
    match sp_strchars_at(s, a, b) {
        None => None,
        Some(t) => parse_date(t),
    }
}

/// Reads the date of the extent `[a, b)`, at run time.
fn date_of_extent(s: &[u8], a: usize, b: usize) -> (r: Option<PhpDate>)
    ensures
        match r {
            Some(v) => sp_date_at(s@, a as int, b as int) == Some(v),
            None => sp_date_at(s@, a as int, b as int) is None,
        },
{
    match string_of_extent(s, a, b) {
        None => None,
        Some(t) => match crate::php_date_format::deserialize(t.as_str()) {
            Ok(d) => Some(d),
            Err(_) => None,
        },
    }
}

/// The integer field named `key`.
pub open spec fn sp_int_field(s: Seq<u8>, entries: Seq<(Seq<u8>, (int, int))>, key: Seq<u8>) -> Option<int> {
    match find_key_at(entries, key, 0) {
        None => None,
        Some(e) => sp_i64_at(s, e.0, e.1),
    }
}

/// The boolean field named `key`.
pub open spec fn sp_bool_field(s: Seq<u8>, entries: Seq<(Seq<u8>, (int, int))>, key: Seq<u8>) -> Option<bool> {
    match find_key_at(entries, key, 0) {
        None => None,
        Some(e) => sp_bool_at(s, e.0, e.1),
    }
}

/// The number-text field named `key`.
pub open spec fn sp_numtext_field(s: Seq<u8>, entries: Seq<(Seq<u8>, (int, int))>, key: Seq<u8>) -> Option<Seq<char>> {
    match find_key_at(entries, key, 0) {
        None => None,
        Some(e) => sp_numtext_at(s, e.0, e.1),
    }
}

/// The string field named `key`.
pub open spec fn sp_string_field(s: Seq<u8>, entries: Seq<(Seq<u8>, (int, int))>, key: Seq<u8>) -> Option<Seq<char>> {
    match find_key_at(entries, key, 0) {
        None => None,
        Some(e) => sp_strchars_at(s, e.0, e.1),
    }
}

/// The timestamp field named `key`.
pub open spec fn sp_date_field(s: Seq<u8>, entries: Seq<(Seq<u8>, (int, int))>, key: Seq<u8>) -> Option<PhpDate> {
    match find_key_at(entries, key, 0) {
        None => None,
        Some(e) => sp_date_at(s, e.0, e.1),
    }
}

/// Reads the integer field named `key`, at run time.
fn i64_field(s: &[u8], entries: &Vec<(Vec<u8>, (usize, usize))>, key: &str) -> (r: Option<i64>)
    ensures
        match r {
            Some(v) => sp_int_field(s@, crate::json::raw_views(entries@), encode_utf8(key@))
                == Some(v as int),
            None => sp_int_field(s@, crate::json::raw_views(entries@), encode_utf8(key@)) is None,
        },
{
    let kb = str_bytes_vec(key);
    match find_key(entries, kb.as_slice()) {
        None => None,
        Some(e) => {
            if e.1 > s.len() {
                return None;
            }
            i64_of_extent(s, e.0, e.1)
        },
    }
}

/// Reads the boolean field named `key`, at run time.
fn bool_field(s: &[u8], entries: &Vec<(Vec<u8>, (usize, usize))>, key: &str) -> (r: Option<bool>)
    ensures
        match r {
            Some(v) => sp_bool_field(s@, crate::json::raw_views(entries@), encode_utf8(key@))
                == Some(v),
            None => sp_bool_field(s@, crate::json::raw_views(entries@), encode_utf8(key@)) is None,
        },
{
    let kb = str_bytes_vec(key);
    match find_key(entries, kb.as_slice()) {
        None => None,
        Some(e) => {
            if e.1 > s.len() {
                return None;
            }
            bool_of_extent(s, e.0, e.1)
        },
    }
}

/// Reads the number-text field named `key`, at run time.
fn numtext_field(s: &[u8], entries: &Vec<(Vec<u8>, (usize, usize))>, key: &str) -> (r: Option<
    String,
>)
    ensures
        match r {
            Some(v) => sp_numtext_field(s@, crate::json::raw_views(entries@), encode_utf8(key@))
                == Some(v@),
            None => sp_numtext_field(s@, crate::json::raw_views(entries@), encode_utf8(key@))
                is None,
        },
{
    let kb = str_bytes_vec(key);
    match find_key(entries, kb.as_slice()) {
        None => None,
        Some(e) => {
            if e.1 > s.len() {
                return None;
            }
            numtext_of_extent(s, e.0, e.1)
        },
    }
}

/// Reads the string field named `key`, at run time.
fn string_field(s: &[u8], entries: &Vec<(Vec<u8>, (usize, usize))>, key: &str) -> (r: Option<
    String,
>)
    ensures
        match r {
            Some(v) => sp_string_field(s@, crate::json::raw_views(entries@), encode_utf8(key@))
                == Some(v@),
            None => sp_string_field(s@, crate::json::raw_views(entries@), encode_utf8(key@))
                is None,
        },
{
    let kb = str_bytes_vec(key);
    match find_key(entries, kb.as_slice()) {
        None => None,
        Some(e) => string_of_extent(s, e.0, e.1),
    }
}

/// Reads the timestamp field named `key`, at run time.
fn date_field(s: &[u8], entries: &Vec<(Vec<u8>, (usize, usize))>, key: &str) -> (r: Option<
    PhpDate,
>)
    ensures
        match r {
            Some(v) => sp_date_field(s@, crate::json::raw_views(entries@), encode_utf8(key@))
                == Some(v),
            None => sp_date_field(s@, crate::json::raw_views(entries@), encode_utf8(key@)) is None,
        },
{
    let kb = str_bytes_vec(key);
    match find_key(entries, kb.as_slice()) {
        None => None,
        Some(e) => date_of_extent(s, e.0, e.1),
    }
}

/// The memory-usage object at `a`.
pub open spec fn sp_memory_usage_at(s: Seq<u8>, a: int, fuel: nat) -> Option<MemoryUsageV> {
    match sp_obj_raw(s, a, fuel) {
        None => None,
        Some(p) => match (
            sp_int_field(s, p.0, encode_utf8("used_memory"@)),
            sp_int_field(s, p.0, encode_utf8("free_memory"@)),
            sp_int_field(s, p.0, encode_utf8("wasted_memory"@)),
            sp_numtext_field(s, p.0, encode_utf8("current_wasted_percentage"@)),
        ) {
            (Some(u), Some(f), Some(w), Some(c)) => Some(
                MemoryUsageV {
                    used_memory: u,
                    free_memory: f,
                    wasted_memory: w,
                    current_wasted_percentage: c,
                },
            ),
            _ => None,
        },
    }
}

/// Reads the memory-usage object at `a`, at run time.
fn parse_memory_usage(s: &[u8], a: usize, fuel: usize) -> (r: Option<MemoryUsage>)
    requires
        a <= s@.len(),
    ensures
        match r {
            Some(m) => sp_memory_usage_at(s@, a as int, fuel as nat) == Some(m@),
            None => sp_memory_usage_at(s@, a as int, fuel as nat) is None,
        },
{
    match obj_raw(s, a, fuel) {
        None => None,
        Some(p) => {
            let entries = p.0;
            let used = i64_field(s, &entries, "used_memory");
            let free = i64_field(s, &entries, "free_memory");
            let wasted = i64_field(s, &entries, "wasted_memory");
            let pct = numtext_field(s, &entries, "current_wasted_percentage");
            match (used, free, wasted, pct) {
                (Some(u), Some(f), Some(w), Some(c)) => Some(
                    MemoryUsage {
                        used_memory: u,
                        free_memory: f,
                        wasted_memory: w,
                        current_wasted_percentage: c,
                    },
                ),
                _ => None,
            }
        },
    }
}

/// The interned-strings object at `a`.
pub open spec fn sp_interned_at(s: Seq<u8>, a: int, fuel: nat) -> Option<InternedStringsUsageV> {
    match sp_obj_raw(s, a, fuel) {
        None => None,
        Some(p) => match (
            sp_int_field(s, p.0, encode_utf8("buffer_size"@)),
            sp_int_field(s, p.0, encode_utf8("used_memory"@)),
            sp_int_field(s, p.0, encode_utf8("free_memory"@)),
            sp_int_field(s, p.0, encode_utf8("number_of_strings"@)),
        ) {
            (Some(b), Some(u), Some(f), Some(n)) => Some(
                InternedStringsUsageV {
                    buffer_size: b,
                    used_memory: u,
                    free_memory: f,
                    number_of_strings: n,
                },
            ),
            _ => None,
        },
    }
}

/// Reads the interned-strings object at `a`, at run time.
fn parse_interned(s: &[u8], a: usize, fuel: usize) -> (r: Option<InternedStringsUsage>)
    requires
        a <= s@.len(),
    ensures
        match r {
            Some(m) => sp_interned_at(s@, a as int, fuel as nat) == Some(m@),
            None => sp_interned_at(s@, a as int, fuel as nat) is None,
        },
{
    match obj_raw(s, a, fuel) {
        None => None,
        Some(p) => {
            let entries = p.0;
            let bs = i64_field(s, &entries, "buffer_size");
            let used = i64_field(s, &entries, "used_memory");
            let free = i64_field(s, &entries, "free_memory");
            let ns = i64_field(s, &entries, "number_of_strings");
            match (bs, used, free, ns) {
                (Some(b), Some(u), Some(f), Some(n)) => Some(
                    InternedStringsUsage {
                        buffer_size: b,
                        used_memory: u,
                        free_memory: f,
                        number_of_strings: n,
                    },
                ),
                _ => None,
            }
        },
    }
}

/// The statistics object at `a`.
pub open spec fn sp_statistics_at(s: Seq<u8>, a: int, fuel: nat) -> Option<OpcacheStatisticsV> {
    match sp_obj_raw(s, a, fuel) {
        None => None,
        Some(p) => {
            let e = p.0;
            match (
                sp_int_field(s, e, encode_utf8("num_cached_scripts"@)),
                sp_int_field(s, e, encode_utf8("num_cached_keys"@)),
                sp_int_field(s, e, encode_utf8("max_cached_keys"@)),
                sp_int_field(s, e, encode_utf8("hits"@)),
                sp_int_field(s, e, encode_utf8("start_time"@)),
                sp_int_field(s, e, encode_utf8("last_restart_time"@)),
                sp_int_field(s, e, encode_utf8("oom_restarts"@)),
                sp_int_field(s, e, encode_utf8("hash_restarts"@)),
                sp_int_field(s, e, encode_utf8("manual_restarts"@)),
                sp_int_field(s, e, encode_utf8("misses"@)),
                sp_int_field(s, e, encode_utf8("blacklist_misses"@)),
                sp_numtext_field(s, e, encode_utf8("blacklist_miss_ratio"@)),
                sp_numtext_field(s, e, encode_utf8("opcache_hit_rate"@)),
            ) {
                (
                    Some(ncs),
                    Some(nck),
                    Some(mck),
                    Some(h),
                    Some(st),
                    Some(lrt),
                    Some(or),
                    Some(hr),
                    Some(mr),
                    Some(mi),
                    Some(bm),
                    Some(bmr),
                    Some(ohr),
                ) => Some(
                    OpcacheStatisticsV {
                        num_cached_scripts: ncs,
                        num_cached_keys: nck,
                        max_cached_keys: mck,
                        hits: h,
                        start_time: st,
                        last_restart_time: lrt,
                        oom_restarts: or,
                        hash_restarts: hr,
                        manual_restarts: mr,
                        misses: mi,
                        blacklist_misses: bm,
                        blacklist_miss_ratio: bmr,
                        opcache_hit_rate: ohr,
                    },
                ),
                _ => None,
            }
        },
    }
}

/// Reads the statistics object at `a`, at run time.
fn parse_statistics(s: &[u8], a: usize, fuel: usize) -> (r: Option<OpcacheStatistics>)
    requires
        a <= s@.len(),
    ensures
        match r {
            Some(m) => sp_statistics_at(s@, a as int, fuel as nat) == Some(m@),
            None => sp_statistics_at(s@, a as int, fuel as nat) is None,
        },
{
    match obj_raw(s, a, fuel) {
        None => None,
        Some(p) => {
            let entries = p.0;
            let ncs = i64_field(s, &entries, "num_cached_scripts");
            let nck = i64_field(s, &entries, "num_cached_keys");
            let mck = i64_field(s, &entries, "max_cached_keys");
            let h = i64_field(s, &entries, "hits");
            let st = i64_field(s, &entries, "start_time");
            let lrt = i64_field(s, &entries, "last_restart_time");
            let or = i64_field(s, &entries, "oom_restarts");
            let hr = i64_field(s, &entries, "hash_restarts");
            let mr = i64_field(s, &entries, "manual_restarts");
            let mi = i64_field(s, &entries, "misses");
            let bm = i64_field(s, &entries, "blacklist_misses");
            let bmr = numtext_field(s, &entries, "blacklist_miss_ratio");
            let ohr = numtext_field(s, &entries, "opcache_hit_rate");
            if ncs.is_none() || nck.is_none() || mck.is_none() || h.is_none() || st.is_none()
                || lrt.is_none() || or.is_none() || hr.is_none() || mr.is_none() || mi.is_none()
                || bm.is_none() || bmr.is_none() || ohr.is_none() {
                return None;
            }
            Some(
                OpcacheStatistics {
                    num_cached_scripts: ncs.unwrap(),
                    num_cached_keys: nck.unwrap(),
                    max_cached_keys: mck.unwrap(),
                    hits: h.unwrap(),
                    start_time: st.unwrap(),
                    last_restart_time: lrt.unwrap(),
                    oom_restarts: or.unwrap(),
                    hash_restarts: hr.unwrap(),
                    manual_restarts: mr.unwrap(),
                    misses: mi.unwrap(),
                    blacklist_misses: bm.unwrap(),
                    blacklist_miss_ratio: bmr.unwrap(),
                    opcache_hit_rate: ohr.unwrap(),
                },
            )
        },
    }
}

/// The per-script record at `a`.
pub open spec fn sp_script_record_at(s: Seq<u8>, a: int, fuel: nat) -> Option<ScriptsV> {
    match sp_obj_raw(s, a, fuel) {
        None => None,
        Some(p) => match (
            sp_string_field(s, p.0, encode_utf8("full_path"@)),
            sp_int_field(s, p.0, encode_utf8("hits"@)),
            sp_numtext_field(s, p.0, encode_utf8("memory_consumption"@)),
            sp_date_field(s, p.0, encode_utf8("last_used"@)),
            sp_int_field(s, p.0, encode_utf8("last_used_timestamp"@)),
            sp_int_field(s, p.0, encode_utf8("timestamp"@)),
        ) {
            (Some(fp), Some(h), Some(mc), Some(lu), Some(lut), Some(ts)) => Some(
                ScriptsV {
                    full_path: fp,
                    hits: h,
                    memory_consumption: mc,
                    last_used: lu,
                    last_used_timestamp: lut,
                    timestamp: ts,
                },
            ),
            _ => None,
        },
    }
}

/// Reads the per-script record at `a`, at run time.
fn parse_script_record(s: &[u8], a: usize, fuel: usize) -> (r: Option<Scripts>)
    requires
        a <= s@.len(),
    ensures
        match r {
            Some(m) => sp_script_record_at(s@, a as int, fuel as nat) == Some(m@),
            None => sp_script_record_at(s@, a as int, fuel as nat) is None,
        },
{
    match obj_raw(s, a, fuel) {
        None => None,
        Some(p) => {
            let entries = p.0;
            let fp = string_field(s, &entries, "full_path");
            let h = i64_field(s, &entries, "hits");
            let mc = numtext_field(s, &entries, "memory_consumption");
            let lu = date_field(s, &entries, "last_used");
            let lut = i64_field(s, &entries, "last_used_timestamp");
            let ts = i64_field(s, &entries, "timestamp");
            match (fp, h, mc, lu, lut, ts) {
                (Some(fp2), Some(h2), Some(mc2), Some(lu2), Some(lut2), Some(ts2)) => Some(
                    Scripts {
                        full_path: fp2,
                        hits: h2,
                        memory_consumption: mc2,
                        last_used: lu2,
                        last_used_timestamp: lut2,
                        timestamp: ts2,
                    },
                ),
                _ => None,
            }
        },
    }
}

/// The scripts map from member `i` on: each member's key is a script path
/// and its value one per-script record.
pub open spec fn sp_scripts_at(
    s: Seq<u8>,
    entries: Seq<(Seq<u8>, (int, int))>,
    i: int,
    fuel: nat,
) -> Option<Seq<(Seq<char>, ScriptsV)>>
    decreases entries.len() - i,
{
    if i < 0 || i >= entries.len() {
        Some(Seq::empty())
    } else if !valid_utf8(entries[i].0) {
        None
    } else {
        match sp_script_record_at(s, entries[i].1.0, fuel) {
            None => None,
            Some(rec) => match sp_scripts_at(s, entries, i + 1, fuel) {
                None => None,
                Some(rest) => Some(seq![(decode_utf8(entries[i].0), rec)] + rest),
            },
        }
    }
}

/// Reads the scripts map from member `i` on, at run time.
fn parse_scripts(
    s: &[u8],
    entries: &Vec<(Vec<u8>, (usize, usize))>,
    i: usize,
    fuel: usize,
) -> (r: Option<Vec<(String, Scripts)>>)
    ensures
        match r {
            Some(v) => sp_scripts_at(s@, crate::json::raw_views(entries@), i as int, fuel as nat)
                == Some(crate::snapshot::scripts_views(v@)),
            None => sp_scripts_at(s@, crate::json::raw_views(entries@), i as int, fuel as nat)
                is None,
        },
    decreases entries@.len() - i,
{
    let ghost ev = crate::json::raw_views(entries@);
    if i >= entries.len() {
        let empty: Vec<(String, Scripts)> = Vec::new();
        proof {
            assert(crate::snapshot::scripts_views(empty@) =~= Seq::<(Seq<char>, ScriptsV)>::empty());
        }
        return Some(empty);
    }
    let klen = entries[i].0.len();
    let key = copy_range(entries[i].0.as_slice(), 0, klen);
    proof {
        assert(key@ =~= entries@[i as int].0@);
        assert(ev[i as int].0 == entries@[i as int].0@);
    }
    let path = match bytes_to_string(key) {
        None => {
            proof {
                assert(!valid_utf8(ev[i as int].0));
            }
            return None;
        },
        Some(p) => p,
    };
    let a = entries[i].1.0;
    if a > s.len() {
        proof {
            assert(ev[i as int].1.0 == entries@[i as int].1.0 as int);
            assert(sp_obj_raw(s@, ev[i as int].1.0, fuel as nat) is None);
        }
        return None;
    }
    let rec = match parse_script_record(s, a, fuel) {
        None => {
            return None;
        },
        Some(rec) => rec,
    };
    match parse_scripts(s, entries, i + 1, fuel) {
        None => None,
        Some(rest) => {
            let ghost rv = rest@;
            let mut out = rest;
            out.insert(0, (path, rec));
            proof {
                assert(crate::snapshot::scripts_views(out@) =~= seq![(path@, rec@)]
                    + crate::snapshot::scripts_views(rv));
            }
            Some(out)
        },
    }
}

/// The snapshot of a raw member list.
pub open spec fn sp_fields(s: Seq<u8>, entries: Seq<(Seq<u8>, (int, int))>, fuel: nat) -> Option<
    OpcacheV,
> {
    let mu = match find_key_at(entries, encode_utf8("memory_usage"@), 0) {
        None => None,
        Some(e) => sp_memory_usage_at(s, e.0, fuel),
    };
    let isu = match find_key_at(entries, encode_utf8("interned_strings_usage"@), 0) {
        None => None,
        Some(e) => sp_interned_at(s, e.0, fuel),
    };
    let st = match find_key_at(entries, encode_utf8("opcache_statistics"@), 0) {
        None => None,
        Some(e) => sp_statistics_at(s, e.0, fuel),
    };
    let sc = match find_key_at(entries, encode_utf8("scripts"@), 0) {
        None => None,
        Some(e) => match sp_obj_raw(s, e.0, fuel) {
            None => None,
            Some(p) => sp_scripts_at(s, p.0, 0, fuel),
        },
    };
    match (
        sp_bool_field(s, entries, encode_utf8("opcache_enabled"@)),
        sp_bool_field(s, entries, encode_utf8("cache_full"@)),
        sp_bool_field(s, entries, encode_utf8("restart_pending"@)),
        sp_bool_field(s, entries, encode_utf8("restart_in_progress"@)),
        mu,
        isu,
        st,
        sc,
    ) {
        (Some(en), Some(cf), Some(rp), Some(rip), Some(m), Some(u), Some(t), Some(c)) => Some(
            OpcacheV {
                opcache_enabled: en,
                cache_full: cf,
                restart_pending: rp,
                restart_in_progress: rip,
                memory_usage: m,
                interned_strings_usage: u,
                opcache_statistics: t,
                scripts: c,
            },
        ),
        _ => None,
    }
}

/// Reads the snapshot of a raw member list, at run time.
fn parse_fields(s: &[u8], entries: &Vec<(Vec<u8>, (usize, usize))>, fuel: usize) -> (r: Option<
    Opcache,
>)
    ensures
        match r {
            Some(op) => sp_fields(s@, crate::json::raw_views(entries@), fuel as nat) == Some(op@),
            None => sp_fields(s@, crate::json::raw_views(entries@), fuel as nat) is None,
        },
{
    let en = bool_field(s, entries, "opcache_enabled");
    let cf = bool_field(s, entries, "cache_full");
    let rp = bool_field(s, entries, "restart_pending");
    let rip = bool_field(s, entries, "restart_in_progress");
    let kmu = str_bytes_vec("memory_usage");
    let mu = match find_key(entries, kmu.as_slice()) {
        None => None,
        Some(e) => if e.0 <= s.len() {
            parse_memory_usage(s, e.0, fuel)
        } else {
            None
        },
    };
    let kisu = str_bytes_vec("interned_strings_usage");
    let isu = match find_key(entries, kisu.as_slice()) {
        None => None,
        Some(e) => if e.0 <= s.len() {
            parse_interned(s, e.0, fuel)
        } else {
            None
        },
    };
    let kst = str_bytes_vec("opcache_statistics");
    let st = match find_key(entries, kst.as_slice()) {
        None => None,
        Some(e) => if e.0 <= s.len() {
            parse_statistics(s, e.0, fuel)
        } else {
            None
        },
    };
    let ksc = str_bytes_vec("scripts");
    let sc = match find_key(entries, ksc.as_slice()) {
        None => None,
        Some(e) => if e.0 <= s.len() {
            match obj_raw(s, e.0, fuel) {
                None => None,
                Some(p) => parse_scripts(s, &p.0, 0, fuel),
            }
        } else {
            None
        },
    };
    match (en, cf, rp, rip, mu, isu, st, sc) {
        (Some(en2), Some(cf2), Some(rp2), Some(rip2), Some(m), Some(u), Some(t), Some(c)) => Some(
            Opcache {
                opcache_enabled: en2,
                cache_full: cf2,
                restart_pending: rp2,
                restart_in_progress: rip2,
                memory_usage: m,
                interned_strings_usage: u,
                opcache_statistics: t,
                scripts: c,
            },
        ),
        _ => None,
    }
}

/// The nesting allowance of a body: one more than its length, which no
/// JSON value of that length can exhaust.
pub open spec fn decode_fuel(body: Seq<u8>) -> nat {
    if body.len() < usize::MAX {
        (body.len() + 1) as nat
    } else {
        body.len()
    }
}

/// The decode of a whole body: UTF-8 text, then one JSON object with
/// nothing but whitespace around it, then the schema's fields.
pub open spec fn sp_decode(body: Seq<u8>) -> Result<OpcacheV, DecodeKind> {
    if !valid_utf8(body) {
        Err(DecodeKind::Utf8)
    } else {
        let st = sp_ws(body, 0);
        match sp_obj_raw(body, st, decode_fuel(body)) {
            None => Err(DecodeKind::Syntax),
            Some(p) => if sp_ws(body, p.1) != body.len() {
                Err(DecodeKind::Syntax)
            } else {
                match sp_fields(body, p.0, decode_fuel(body)) {
                    None => Err(DecodeKind::Schema),
                    Some(op) => Ok(op),
                }
            },
        }
    }
}

/// Decodes the response body into a snapshot. The three failure kinds are
/// reported apart: bytes that are not UTF-8 text, text that is not one
/// JSON object, and an object that misses a field of the schema or gives
/// it the wrong shape.
pub fn decode_snapshot(body: &[u8]) -> (r: Result<Opcache, ScrapeError>)
    ensures
        r is Ok <==> sp_decode(body@) is Ok,
        r matches Ok(op) ==> sp_decode(body@) == Ok::<OpcacheV, DecodeKind>(op@),
        r matches Err(e) ==> (e matches ScrapeError::Decode(k) && sp_decode(body@)
            == Err::<OpcacheV, DecodeKind>(k)),
{
    let whole = copy_range(body, 0, body.len());
    proof {
        assert(whole@ =~= body@);
    }
    match bytes_to_string(whole) {
        None => {
            return Err(ScrapeError::Decode(DecodeKind::Utf8));
        },
        Some(_) => {},
    }
    let st = ws_end(body, 0);
    let fuel = if body.len() < usize::MAX {
        body.len() + 1
    } else {
        body.len()
    };
    match obj_raw(body, st, fuel) {
        None => Err(ScrapeError::Decode(DecodeKind::Syntax)),
        Some(p) => {
            let tail = ws_end(body, p.1);
            if tail != body.len() {
                return Err(ScrapeError::Decode(DecodeKind::Syntax));
            }
            match parse_fields(body, &p.0, fuel) {
                None => Err(ScrapeError::Decode(DecodeKind::Schema)),
                Some(op) => Ok(op),
            }
        },
    }
}

} // verus!
