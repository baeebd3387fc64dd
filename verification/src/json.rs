//! A byte-level JSON reader, specified as recursive functions over the
//! input bytes and executed by functions proved equal to them.
//!
//! Objects are read into lists of raw members — the key's decoded content
//! bytes and the extent of the value's text — so that a schema layer can
//! pick the fields it knows and leave the rest untouched. Value skipping
//! is bounded by a fuel argument; callers pass one more than the input
//! length, which no JSON value can exhaust, since every nesting level
//! consumes at least one byte.
//!
//! String escapes cover the short forms and `\uXXXX` for ASCII scalars;
//! a `\u` escape beyond ASCII is rejected. Control bytes below 0x20 are
//! rejected inside strings.
use vstd::prelude::*;

verus! {

/// JSON whitespace.
pub open spec fn is_ws(b: u8) -> bool {
    b == 32 || b == 9 || b == 10 || b == 13
}

/// A decimal digit byte.
pub open spec fn is_digit(b: u8) -> bool {
    48 <= b <= 57
}

/// The first offset at or after `i` that holds no whitespace.
pub open spec fn sp_ws(s: Seq<u8>, i: int) -> int
    decreases s.len() - i,
{
    if 0 <= i < s.len() && is_ws(s[i]) {
        sp_ws(s, i + 1)
    } else {
        i
    }
}

/// The first offset at or after `i` that holds no digit.
pub open spec fn sp_digits(s: Seq<u8>, i: int) -> int
    decreases s.len() - i,
{
    if 0 <= i < s.len() && is_digit(s[i]) {
        sp_digits(s, i + 1)
    } else {
        i
    }
}

/// The end of the number that starts at `i`, or `-1`.
pub open spec fn sp_number_end(s: Seq<u8>, i: int) -> int {
    let i1 = if 0 <= i < s.len() && s[i] == 45 {
        i + 1
    } else {
        i
    };
    if !(0 <= i1 < s.len() && is_digit(s[i1])) {
        -1
    } else {
        let i2 = if s[i1] == 48 {
            i1 + 1
        } else {
            sp_digits(s, i1)
        };
        let i3 = if i2 < s.len() && s[i2] == 46 {
            if i2 + 1 < s.len() && is_digit(s[i2 + 1]) {
                sp_digits(s, i2 + 1)
            } else {
                -1
            }
        } else {
            i2
        };
        if i3 < 0 {
            -1
        } else if i3 < s.len() && (s[i3] == 101 || s[i3] == 69) {
            let i4 = if i3 + 1 < s.len() && (s[i3 + 1] == 43 || s[i3 + 1] == 45) {
                i3 + 2
            } else {
                i3 + 1
            };
            if i4 < s.len() && is_digit(s[i4]) {
                sp_digits(s, i4)
            } else {
                -1
            }
        } else {
            i3
        }
    }
}

/// The value of a hexadecimal digit byte, or `-1`.
pub open spec fn hex_val(b: u8) -> int {
    if 48 <= b <= 57 {
        b - 48
    } else if 97 <= b <= 102 {
        b - 87
    } else if 65 <= b <= 70 {
        b - 55
    } else {
        -1
    }
}

/// The decoded content and end offset of the string whose opening quote
/// stands just before `i`, or nothing on an unterminated or ill-escaped
/// string.
pub open spec fn sp_str_rest(s: Seq<u8>, i: int) -> Option<(Seq<u8>, int)>
    decreases s.len() - i,
{
    if i < 0 || i >= s.len() {
        None
    } else if s[i] == 34 {
        Some((Seq::empty(), i + 1))
    } else if s[i] == 92 {
        if i + 1 >= s.len() {
            None
        } else {
            let e = s[i + 1];
            if e == 34 || e == 92 || e == 47 {
                match sp_str_rest(s, i + 2) {
                    None => None,
                    Some(r) => Some((seq![e] + r.0, r.1)),
                }
            } else if e == 98 {
                match sp_str_rest(s, i + 2) {
                    None => None,
                    Some(r) => Some((seq![8u8] + r.0, r.1)),
                }
            } else if e == 102 {
                match sp_str_rest(s, i + 2) {
                    None => None,
                    Some(r) => Some((seq![12u8] + r.0, r.1)),
                }
            } else if e == 110 {
                match sp_str_rest(s, i + 2) {
                    None => None,
                    Some(r) => Some((seq![10u8] + r.0, r.1)),
                }
            } else if e == 114 {
                match sp_str_rest(s, i + 2) {
                    None => None,
                    Some(r) => Some((seq![13u8] + r.0, r.1)),
                }
            } else if e == 116 {
                match sp_str_rest(s, i + 2) {
                    None => None,
                    Some(r) => Some((seq![9u8] + r.0, r.1)),
                }
            } else if e == 117 {
                if i + 6 > s.len() {
                    None
                } else {
                    let h0 = hex_val(s[i + 2]);
                    let h1 = hex_val(s[i + 3]);
                    let h2 = hex_val(s[i + 4]);
                    let h3 = hex_val(s[i + 5]);
                    if h0 < 0 || h1 < 0 || h2 < 0 || h3 < 0 {
                        None
                    } else {
                        let hv = 4096 * h0 + 256 * h1 + 16 * h2 + h3;
                        if hv > 127 {
                            None
                        } else {
                            match sp_str_rest(s, i + 6) {
                                None => None,
                                Some(r) => Some((seq![hv as u8] + r.0, r.1)),
                            }
                        }
                    }
                }
            } else {
                None
            }
        }
    } else if s[i] < 32 {
        None
    } else {
        match sp_str_rest(s, i + 1) {
            None => None,
            Some(r) => Some((seq![s[i]] + r.0, r.1)),
        }
    }
}

/// The end of the value that starts at `i`, or `-1`; nesting is bounded
/// by the fuel.
pub open spec fn sp_skip_value(s: Seq<u8>, i: int, fuel: nat) -> int
    decreases fuel,
{
    if fuel == 0 {
        -1
    } else if i < 0 || i >= s.len() {
        -1
    } else {
        let b = s[i];
        if b == 123 {
            sp_skip_object(s, sp_ws(s, i + 1), (fuel - 1) as nat)
        } else if b == 91 {
            sp_skip_array(s, sp_ws(s, i + 1), (fuel - 1) as nat)
        } else if b == 34 {
            match sp_str_rest(s, i + 1) {
                None => -1,
                Some(r) => r.1,
            }
        } else if b == 116 {
            if i + 4 <= s.len() && s[i + 1] == 114 && s[i + 2] == 117 && s[i + 3] == 101 {
                i + 4
            } else {
                -1
            }
        } else if b == 102 {
            if i + 5 <= s.len() && s[i + 1] == 97 && s[i + 2] == 108 && s[i + 3] == 115 && s[i + 4]
                == 101 {
                i + 5
            } else {
                -1
            }
        } else if b == 110 {
            if i + 4 <= s.len() && s[i + 1] == 117 && s[i + 2] == 108 && s[i + 3] == 108 {
                i + 4
            } else {
                -1
            }
        } else {
            sp_number_end(s, i)
        }
    }
}

/// The end of the object whose brace was consumed, with `i` past the
/// opening whitespace, or `-1`.
pub open spec fn sp_skip_object(s: Seq<u8>, i: int, fuel: nat) -> int
    decreases fuel,
{
    if fuel == 0 {
        -1
    } else if i < 0 || i >= s.len() {
        -1
    } else if s[i] == 125 {
        i + 1
    } else {
        sp_skip_members(s, i, (fuel - 1) as nat)
    }
}

/// The end of the member list that starts at a key's quote at `i`,
/// or `-1`.
pub open spec fn sp_skip_members(s: Seq<u8>, i: int, fuel: nat) -> int
    decreases fuel,
{
    if fuel == 0 {
        -1
    } else if i < 0 || i >= s.len() || s[i] != 34 {
        -1
    } else {
        match sp_str_rest(s, i + 1) {
            None => -1,
            Some(k) => {
                let j2 = sp_ws(s, k.1);
                if j2 >= s.len() || s[j2] != 58 {
                    -1
                } else {
                    let ve = sp_skip_value(s, sp_ws(s, j2 + 1), (fuel - 1) as nat);
                    if ve < 0 {
                        -1
                    } else {
                        let j3 = sp_ws(s, ve);
                        if j3 < s.len() && s[j3] == 44 {
                            sp_skip_members(s, sp_ws(s, j3 + 1), (fuel - 1) as nat)
                        } else if j3 < s.len() && s[j3] == 125 {
                            j3 + 1
                        } else {
                            -1
                        }
                    }
                }
            },
        }
    }
}

/// The end of the array whose bracket was consumed, with `i` past the
/// opening whitespace, or `-1`.
pub open spec fn sp_skip_array(s: Seq<u8>, i: int, fuel: nat) -> int
    decreases fuel,
{
    if fuel == 0 {
        -1
    } else if i < 0 || i >= s.len() {
        -1
    } else if s[i] == 93 {
        i + 1
    } else {
        sp_skip_elements(s, i, (fuel - 1) as nat)
    }
}

/// The end of the element list that starts at a value at `i`, or `-1`.
pub open spec fn sp_skip_elements(s: Seq<u8>, i: int, fuel: nat) -> int
    decreases fuel,
{
    if fuel == 0 {
        -1
    } else {
        let ve = sp_skip_value(s, i, (fuel - 1) as nat);
        if ve < 0 {
            -1
        } else {
            let j = sp_ws(s, ve);
            if j < s.len() && s[j] == 44 {
                sp_skip_elements(s, sp_ws(s, j + 1), (fuel - 1) as nat)
            } else if j < s.len() && s[j] == 93 {
                j + 1
            } else {
                -1
            }
        }
    }
}

/// The raw members of the object whose brace stands at `i`: each key's
/// decoded content with its value's extent, in payload order, and the
/// offset past the closing brace. The whole object, or nothing.
pub open spec fn sp_obj_raw(s: Seq<u8>, i: int, fuel: nat) -> Option<
    (Seq<(Seq<u8>, (int, int))>, int),
> {
    if i < 0 || i >= s.len() || s[i] != 123 {
        None
    } else {
        let j = sp_ws(s, i + 1);
        if j < s.len() && s[j] == 125 {
            Some((Seq::empty(), j + 1))
        } else {
            sp_members_raw(s, j, fuel)
        }
    }
}

/// The raw member list from a key's quote at `i` to the closing brace.
pub open spec fn sp_members_raw(s: Seq<u8>, i: int, fuel: nat) -> Option<
    (Seq<(Seq<u8>, (int, int))>, int),
>
    decreases fuel,
{
    if fuel == 0 {
        None
    } else if i < 0 || i >= s.len() || s[i] != 34 {
        None
    } else {
        match sp_str_rest(s, i + 1) {
            None => None,
            Some(k) => {
                let j2 = sp_ws(s, k.1);
                if j2 >= s.len() || s[j2] != 58 {
                    None
                } else {
                    let vs = sp_ws(s, j2 + 1);
                    let ve = sp_skip_value(s, vs, (fuel - 1) as nat);
                    if ve < 0 {
                        None
                    } else {
                        let j3 = sp_ws(s, ve);
                        if j3 < s.len() && s[j3] == 44 {
                            match sp_members_raw(s, sp_ws(s, j3 + 1), (fuel - 1) as nat) {
                                None => None,
                                Some(rest) => Some(
                                    (seq![(k.0, (vs, ve))] + rest.0, rest.1),
                                ),
                            }
                        } else if j3 < s.len() && s[j3] == 125 {
                            Some((seq![(k.0, (vs, ve))], j3 + 1))
                        } else {
                            None
                        }
                    }
                }
            },
        }
    }
}

/// Finds the first non-whitespace offset, at run time.
pub fn ws_end(s: &[u8], i: usize) -> (r: usize)
    requires
        i <= s@.len(),
    ensures
        r as int == sp_ws(s@, i as int),
        i <= r <= s@.len(),
{
    let mut j = i;
    while j < s.len() && (s[j] == 32 || s[j] == 9 || s[j] == 10 || s[j] == 13)
        invariant
            i <= j <= s@.len(),
            sp_ws(s@, i as int) == sp_ws(s@, j as int),
        decreases s@.len() - j,
    {
        j = j + 1;
    }
    j
}

/// Finds the first non-digit offset, at run time.
pub fn digits_end(s: &[u8], i: usize) -> (r: usize)
    requires
        i <= s@.len(),
    ensures
        r as int == sp_digits(s@, i as int),
        i <= r <= s@.len(),
{
    let mut j = i;
    while j < s.len() && 48 <= s[j] && s[j] <= 57
        invariant
            i <= j <= s@.len(),
            sp_digits(s@, i as int) == sp_digits(s@, j as int),
        decreases s@.len() - j,
    {
        j = j + 1;
    }
    j
}

/// Finds the end of a number, at run time.
pub fn number_end(s: &[u8], i: usize) -> (r: Option<usize>)
    requires
        i <= s@.len(),
    ensures
        match r {
            Some(j) => j as int == sp_number_end(s@, i as int) && i <= j <= s@.len(),
            None => sp_number_end(s@, i as int) == -1,
        },
{
    let i1 = if i < s.len() && s[i] == 45 {
        i + 1
    } else {
        i
    };
    if !(i1 < s.len() && 48 <= s[i1] && s[i1] <= 57) {
        return None;
    }
    let i2 = if s[i1] == 48 {
        i1 + 1
    } else {
        digits_end(s, i1)
    };
    let i3 = if i2 < s.len() && s[i2] == 46 {
        if i2 + 1 < s.len() && 48 <= s[i2 + 1] && s[i2 + 1] <= 57 {
            digits_end(s, i2 + 1)
        } else {
            return None;
        }
    } else {
        i2
    };
    if i3 < s.len() && (s[i3] == 101 || s[i3] == 69) {
        let i4 = if i3 + 1 < s.len() && (s[i3 + 1] == 43 || s[i3 + 1] == 45) {
            i3 + 2
        } else {
            i3 + 1
        };
        if i4 < s.len() && 48 <= s[i4] && s[i4] <= 57 {
            Some(digits_end(s, i4))
        } else {
            None
        }
    } else {
        Some(i3)
    }
}

/// The value of a hexadecimal digit byte, at run time.
fn hex_val_exec(b: u8) -> (r: i8)
    ensures
        r as int == hex_val(b),
{
    if 48 <= b && b <= 57 {
        (b - 48) as i8
    } else if 97 <= b && b <= 102 {
        (b - 87) as i8
    } else if 65 <= b && b <= 70 {
        (b - 55) as i8
    } else {
        -1
    }
}

/// Reads a string's remainder, at run time.
pub fn str_rest(s: &[u8], i: usize) -> (r: Option<(Vec<u8>, usize)>)
    requires
        i <= s@.len(),
    ensures
        match r {
            Some(p) => sp_str_rest(s@, i as int) == Some((p.0@, p.1 as int)) && i < p.1 <= s@.len(),
            None => sp_str_rest(s@, i as int) is None,
        },
    decreases s@.len() - i,
{
    if i >= s.len() {
        return None;
    }
    let b = s[i];
    if b == 34 {
        let empty: Vec<u8> = Vec::new();
        proof {
            assert(empty@ =~= Seq::<u8>::empty());
        }
        return Some((empty, i + 1));
    }
    if b == 92 {
        if i + 1 >= s.len() {
            return None;
        }
        let e = s[i + 1];
        let decoded: u8 = if e == 34 || e == 92 || e == 47 {
            e
        } else if e == 98 {
            8
        } else if e == 102 {
            12
        } else if e == 110 {
            10
        } else if e == 114 {
            13
        } else if e == 116 {
            9
        } else if e == 117 {
            if s.len() - i < 6 {
                return None;
            }
            let h0 = hex_val_exec(s[i + 2]);
            let h1 = hex_val_exec(s[i + 3]);
            let h2 = hex_val_exec(s[i + 4]);
            let h3 = hex_val_exec(s[i + 5]);
            if h0 < 0 || h1 < 0 || h2 < 0 || h3 < 0 {
                return None;
            }
            let hv: i32 = 4096 * (h0 as i32) + 256 * (h1 as i32) + 16 * (h2 as i32) + (h3 as i32);
            if hv > 127 {
                return None;
            }
            match str_rest(s, i + 6) {
                None => {
                    return None;
                },
                Some(p) => {
                    let mut c = p.0;
                    c.insert(0, hv as u8);
                    proof {
                        assert(c@ =~= seq![(4096 * hex_val(s@[i as int + 2]) + 256 * hex_val(
                            s@[i as int + 3],
                        ) + 16 * hex_val(s@[i as int + 4]) + hex_val(s@[i as int + 5])) as u8]
                            + p.0@);
                    }
                    return Some((c, p.1));
                },
            }
        } else {
            return None;
        };
        match str_rest(s, i + 2) {
            None => None,
            Some(p) => {
                let mut c = p.0;
                c.insert(0, decoded);
                proof {
                    assert(c@ =~= seq![decoded] + p.0@);
                }
                Some((c, p.1))
            },
        }
    } else if b < 32 {
        None
    } else {
        match str_rest(s, i + 1) {
            None => None,
            Some(p) => {
                let mut c = p.0;
                c.insert(0, b);
                proof {
                    assert(c@ =~= seq![b] + p.0@);
                }
                Some((c, p.1))
            },
        }
    }
}

/// Skips one value, at run time.
pub fn skip_value(s: &[u8], i: usize, fuel: usize) -> (r: Option<usize>)
    requires
        i <= s@.len(),
    ensures
        match r {
            Some(j) => j as int == sp_skip_value(s@, i as int, fuel as nat) && j <= s@.len(),
            None => sp_skip_value(s@, i as int, fuel as nat) == -1,
        },
    decreases fuel,
{
    if fuel == 0 {
        return None;
    }
    if i >= s.len() {
        return None;
    }
    let b = s[i];
    if b == 123 {
        let j = ws_end(s, i + 1);
        skip_object(s, j, fuel - 1)
    } else if b == 91 {
        let j = ws_end(s, i + 1);
        skip_array(s, j, fuel - 1)
    } else if b == 34 {
        match str_rest(s, i + 1) {
            None => None,
            Some(p) => Some(p.1),
        }
    } else if b == 116 {
        if s.len() - i >= 4 && s[i + 1] == 114 && s[i + 2] == 117 && s[i + 3] == 101 {
            Some(i + 4)
        } else {
            None
        }
    } else if b == 102 {
        if s.len() - i >= 5 && s[i + 1] == 97 && s[i + 2] == 108 && s[i + 3] == 115 && s[i + 4]
            == 101 {
            Some(i + 5)
        } else {
            None
        }
    } else if b == 110 {
        if s.len() - i >= 4 && s[i + 1] == 117 && s[i + 2] == 108 && s[i + 3] == 108 {
            Some(i + 4)
        } else {
            None
        }
    } else {
        number_end(s, i)
    }
}

/// Skips an object's remainder, at run time.
fn skip_object(s: &[u8], i: usize, fuel: usize) -> (r: Option<usize>)
    requires
        i <= s@.len(),
    ensures
        match r {
            Some(j) => j as int == sp_skip_object(s@, i as int, fuel as nat) && j <= s@.len(),
            None => sp_skip_object(s@, i as int, fuel as nat) == -1,
        },
    decreases fuel,
{
    if fuel == 0 {
        return None;
    }
    if i >= s.len() {
        return None;
    }
    if s[i] == 125 {
        Some(i + 1)
    } else {
        skip_members(s, i, fuel - 1)
    }
}

/// Skips a member list, at run time.
fn skip_members(s: &[u8], i: usize, fuel: usize) -> (r: Option<usize>)
    requires
        i <= s@.len(),
    ensures
        match r {
            Some(j) => j as int == sp_skip_members(s@, i as int, fuel as nat) && j <= s@.len(),
            None => sp_skip_members(s@, i as int, fuel as nat) == -1,
        },
    decreases fuel,
{
    if fuel == 0 {
        return None;
    }
    if i >= s.len() || s[i] != 34 {
        return None;
    }
    match str_rest(s, i + 1) {
        None => None,
        Some(k) => {
            let j2 = ws_end(s, k.1);
            if j2 >= s.len() || s[j2] != 58 {
                return None;
            }
            let vs = ws_end(s, j2 + 1);
            match skip_value(s, vs, fuel - 1) {
                None => None,
                Some(ve) => {
                    let j3 = ws_end(s, ve);
                    if j3 < s.len() && s[j3] == 44 {
                        let nk = ws_end(s, j3 + 1);
                        skip_members(s, nk, fuel - 1)
                    } else if j3 < s.len() && s[j3] == 125 {
                        Some(j3 + 1)
                    } else {
                        None
                    }
                },
            }
        },
    }
}

/// Skips an array's remainder, at run time.
fn skip_array(s: &[u8], i: usize, fuel: usize) -> (r: Option<usize>)
    requires
        i <= s@.len(),
    ensures
        match r {
            Some(j) => j as int == sp_skip_array(s@, i as int, fuel as nat) && j <= s@.len(),
            None => sp_skip_array(s@, i as int, fuel as nat) == -1,
        },
    decreases fuel,
{
    if fuel == 0 {
        return None;
    }
    if i >= s.len() {
        return None;
    }
    if s[i] == 93 {
        Some(i + 1)
    } else {
        skip_elements(s, i, fuel - 1)
    }
}

/// Skips an element list, at run time.
fn skip_elements(s: &[u8], i: usize, fuel: usize) -> (r: Option<usize>)
    requires
        i <= s@.len(),
    ensures
        match r {
            Some(j) => j as int == sp_skip_elements(s@, i as int, fuel as nat) && j <= s@.len(),
            None => sp_skip_elements(s@, i as int, fuel as nat) == -1,
        },
    decreases fuel,
{
    if fuel == 0 {
        return None;
    }
    match skip_value(s, i, fuel - 1) {
        None => None,
        Some(ve) => {
            let j = ws_end(s, ve);
            if j < s.len() && s[j] == 44 {
                let ne = ws_end(s, j + 1);
                skip_elements(s, ne, fuel - 1)
            } else if j < s.len() && s[j] == 93 {
                Some(j + 1)
            } else {
                None
            }
        },
    }
}

/// Mathematical image of a raw member list.
pub open spec fn raw_views(v: Seq<(Vec<u8>, (usize, usize))>) -> Seq<(Seq<u8>, (int, int))> {
    v.map_values(|e: (Vec<u8>, (usize, usize))| (e.0@, (e.1.0 as int, e.1.1 as int)))
}

/// Reads an object's raw members, at run time.
pub fn obj_raw(s: &[u8], i: usize, fuel: usize) -> (r: Option<
    (Vec<(Vec<u8>, (usize, usize))>, usize),
>)
    requires
        i <= s@.len(),
    ensures
        match r {
            Some(p) => sp_obj_raw(s@, i as int, fuel as nat) == Some(
                (raw_views(p.0@), p.1 as int),
            ) && p.1 <= s@.len(),
            None => sp_obj_raw(s@, i as int, fuel as nat) is None,
        },
{
    if i >= s.len() || s[i] != 123 {
        return None;
    }
    let j = ws_end(s, i + 1);
    if j < s.len() && s[j] == 125 {
        let empty: Vec<(Vec<u8>, (usize, usize))> = Vec::new();
        proof {
            assert(raw_views(empty@) =~= Seq::<(Seq<u8>, (int, int))>::empty());
        }
        Some((empty, j + 1))
    } else {
        members_raw(s, j, fuel)
    }
}

/// Reads a raw member list, at run time.
fn members_raw(s: &[u8], i: usize, fuel: usize) -> (r: Option<
    (Vec<(Vec<u8>, (usize, usize))>, usize),
>)
    requires
        i <= s@.len(),
    ensures
        match r {
            Some(p) => sp_members_raw(s@, i as int, fuel as nat) == Some(
                (raw_views(p.0@), p.1 as int),
            ) && p.1 <= s@.len(),
            None => sp_members_raw(s@, i as int, fuel as nat) is None,
        },
    decreases fuel,
{
    if fuel == 0 {
        return None;
    }
    if i >= s.len() || s[i] != 34 {
        return None;
    }
    match str_rest(s, i + 1) {
        None => None,
        Some(k) => {
            let j2 = ws_end(s, k.1);
            if j2 >= s.len() || s[j2] != 58 {
                return None;
            }
            let vs = ws_end(s, j2 + 1);
            match skip_value(s, vs, fuel - 1) {
                None => None,
                Some(ve) => {
                    let j3 = ws_end(s, ve);
                    if j3 < s.len() && s[j3] == 44 {
                        let nk = ws_end(s, j3 + 1);
                        match members_raw(s, nk, fuel - 1) {
                            None => None,
                            Some(rest) => {
                                let mut entries = rest.0;
                                entries.insert(0, (k.0, (vs, ve)));
                                proof {
                                    assert(raw_views(entries@) =~= seq![
                                        (k.0@, (vs as int, ve as int)),
                                    ] + raw_views(rest.0@));
                                }
                                Some((entries, rest.1))
                            },
                        }
                    } else if j3 < s.len() && s[j3] == 125 {
                        let mut entries: Vec<(Vec<u8>, (usize, usize))> = Vec::new();
                        entries.push((k.0, (vs, ve)));
                        proof {
                            assert(raw_views(entries@) =~= seq![(k.0@, (vs as int, ve as int))]);
                        }
                        Some((entries, j3 + 1))
                    } else {
                        None
                    }
                },
            }
        },
    }
}

} // verus!
