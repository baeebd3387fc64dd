//! The fixed textual timestamp format of the per-script records:
//! `"Www Mmm  d HH:MM:SS YYYY"` — an English weekday and month abbreviation,
//! a space-padded day of the month, a 24-hour clock and a four-digit year,
//! always 24 characters. Encoding writes the weekday derived from the date;
//! decoding checks it and rejects a contradictory one.
use vstd::prelude::*;
use vstd::string::StrSliceExecFns;
use vstd::string::StringExecFns;
use crate::error::DecodeKind;
use crate::error::ScrapeError;
use crate::text::append_digit;
use vstd::arithmetic::div_mod::lemma_div_denominator;
use vstd::arithmetic::div_mod::lemma_fundamental_div_mod;
use crate::text::digit_char;

verus! {

/// A calendar timestamp in the proleptic Gregorian calendar, second
/// resolution, without a zone. The weekday is not stored: it is derived
/// from the date when text is produced, and checked when text is parsed.
#[derive(Debug, Clone, Copy, PartialEq, Eq, Structural)]
pub struct PhpDate {
    pub year: u16,
    pub month: u8,
    pub day: u8,
    pub hour: u8,
    pub minute: u8,
    pub second: u8,
}

/// Whether a year is a leap year.
pub open spec fn is_leap_year(y: int) -> bool {
    y % 4 == 0 && (y % 100 != 0 || y % 400 == 0)
}

/// The number of days of one month.
pub open spec fn days_in_month(y: int, m: int) -> int {
    if m == 2 {
        if is_leap_year(y) {
            29
        } else {
            28
        }
    } else if m == 4 || m == 6 || m == 9 || m == 11 {
        30
    } else {
        31
    }
}

/// A date the format can represent: a real calendar date with a four-digit
/// year and in-range clock fields.
pub open spec fn date_valid(d: PhpDate) -> bool {
    &&& 1 <= d.year <= 9999
    &&& 1 <= d.month <= 12
    &&& 1 <= d.day <= days_in_month(d.year as int, d.month as int)
    &&& d.hour < 24
    &&& d.minute < 60
    &&& d.second < 60
}

/// The month term of the day-of-week formula.
pub open spec fn weekday_month_term(m: int) -> int {
    if m == 1 {
        0
    } else if m == 2 {
        3
    } else if m == 3 {
        2
    } else if m == 4 {
        5
    } else if m == 5 {
        0
    } else if m == 6 {
        3
    } else if m == 7 {
        5
    } else if m == 8 {
        1
    } else if m == 9 {
        4
    } else if m == 10 {
        6
    } else if m == 11 {
        2
    } else {
        4
    }
}

/// The day of the week of a date, 0 for Sunday through 6 for Saturday.
pub open spec fn weekday_of(d: PhpDate) -> int {
    let y = if d.month < 3 {
        d.year - 1
    } else {
        d.year as int
    };
    (y + y / 4 - y / 100 + y / 400 + weekday_month_term(d.month as int) + d.day) % 7
}

/// The English three-letter weekday abbreviation.
pub open spec fn wd_name(w: int) -> Seq<char> {
    if w == 0 {
        seq!['S', 'u', 'n']
    } else if w == 1 {
        seq!['M', 'o', 'n']
    } else if w == 2 {
        seq!['T', 'u', 'e']
    } else if w == 3 {
        seq!['W', 'e', 'd']
    } else if w == 4 {
        seq!['T', 'h', 'u']
    } else if w == 5 {
        seq!['F', 'r', 'i']
    } else {
        seq!['S', 'a', 't']
    }
}

/// The English three-letter month abbreviation.
pub open spec fn mon_name(m: int) -> Seq<char> {
    if m == 1 {
        seq!['J', 'a', 'n']
    } else if m == 2 {
        seq!['F', 'e', 'b']
    } else if m == 3 {
        seq!['M', 'a', 'r']
    } else if m == 4 {
        seq!['A', 'p', 'r']
    } else if m == 5 {
        seq!['M', 'a', 'y']
    } else if m == 6 {
        seq!['J', 'u', 'n']
    } else if m == 7 {
        seq!['J', 'u', 'l']
    } else if m == 8 {
        seq!['A', 'u', 'g']
    } else if m == 9 {
        seq!['S', 'e', 'p']
    } else if m == 10 {
        seq!['O', 'c', 't']
    } else if m == 11 {
        seq!['N', 'o', 'v']
    } else {
        seq!['D', 'e', 'c']
    }
}

/// The weekday index of a three-letter abbreviation, or `-1`.
pub open spec fn wd_index(a: char, b: char, c: char) -> int {
    if a == 'S' && b == 'u' && c == 'n' {
        0
    } else if a == 'M' && b == 'o' && c == 'n' {
        1
    } else if a == 'T' && b == 'u' && c == 'e' {
        2
    } else if a == 'W' && b == 'e' && c == 'd' {
        3
    } else if a == 'T' && b == 'h' && c == 'u' {
        4
    } else if a == 'F' && b == 'r' && c == 'i' {
        5
    } else if a == 'S' && b == 'a' && c == 't' {
        6
    } else {
        -1
    }
}

/// The month number of a three-letter abbreviation, or `-1`.
pub open spec fn mon_index(a: char, b: char, c: char) -> int {
    if a == 'J' && b == 'a' && c == 'n' {
        1
    } else if a == 'F' && b == 'e' && c == 'b' {
        2
    } else if a == 'M' && b == 'a' && c == 'r' {
        3
    } else if a == 'A' && b == 'p' && c == 'r' {
        4
    } else if a == 'M' && b == 'a' && c == 'y' {
        5
    } else if a == 'J' && b == 'u' && c == 'n' {
        6
    } else if a == 'J' && b == 'u' && c == 'l' {
        7
    } else if a == 'A' && b == 'u' && c == 'g' {
        8
    } else if a == 'S' && b == 'e' && c == 'p' {
        9
    } else if a == 'O' && b == 'c' && c == 't' {
        10
    } else if a == 'N' && b == 'o' && c == 'v' {
        11
    } else if a == 'D' && b == 'e' && c == 'c' {
        12
    } else {
        -1
    }
}

/// The value of one decimal digit character, or `-1`.
pub open spec fn digit_val(c: char) -> int {
    if c == '0' {
        0
    } else if c == '1' {
        1
    } else if c == '2' {
        2
    } else if c == '3' {
        3
    } else if c == '4' {
        4
    } else if c == '5' {
        5
    } else if c == '6' {
        6
    } else if c == '7' {
        7
    } else if c == '8' {
        8
    } else if c == '9' {
        9
    } else {
        -1
    }
}

/// Two zero-padded decimal digits.
pub open spec fn two_digits(n: int) -> Seq<char> {
    seq![digit_char(n / 10), digit_char(n % 10)]
}

/// The day of the month, space-padded to two characters.
pub open spec fn day_padded(d: int) -> Seq<char> {
    if d < 10 {
        seq![' ', digit_char(d)]
    } else {
        two_digits(d)
    }
}

/// Four zero-padded decimal digits.
pub open spec fn four_digits(y: int) -> Seq<char> {
    seq![
        digit_char(y / 1000),
        digit_char((y / 100) % 10),
        digit_char((y / 10) % 10),
        digit_char(y % 10),
    ]
}

/// The 24-character text of a date.
pub open spec fn date_text(d: PhpDate) -> Seq<char> {
    wd_name(weekday_of(d)) + seq![' '] + mon_name(d.month as int) + seq![' '] + day_padded(
        d.day as int,
    ) + seq![' '] + two_digits(d.hour as int) + seq![':'] + two_digits(d.minute as int)
        + seq![':'] + two_digits(d.second as int) + seq![' '] + four_digits(d.year as int)
}

/// The date of a 24-character text, if the text is exactly the format's
/// image of a representable date whose weekday abbreviation agrees with
/// the date.
pub open spec fn parse_date(s: Seq<char>) -> Option<PhpDate> {
    if s.len() != 24 {
        None
    } else {
        let wd = wd_index(s[0], s[1], s[2]);
        let mon = mon_index(s[4], s[5], s[6]);
        let day_ok = if s[8] == ' ' {
            digit_val(s[9]) >= 1
        } else {
            digit_val(s[8]) >= 1 && digit_val(s[9]) >= 0
        };
        let day = if s[8] == ' ' {
            digit_val(s[9])
        } else {
            10 * digit_val(s[8]) + digit_val(s[9])
        };
        let clock_ok = digit_val(s[11]) >= 0 && digit_val(s[12]) >= 0 && digit_val(s[14]) >= 0
            && digit_val(s[15]) >= 0 && digit_val(s[17]) >= 0 && digit_val(s[18]) >= 0;
        let year_ok = digit_val(s[20]) >= 0 && digit_val(s[21]) >= 0 && digit_val(s[22]) >= 0
            && digit_val(s[23]) >= 0;
        if wd < 0 || mon < 0 || !day_ok || !clock_ok || !year_ok || s[3] != ' ' || s[7] != ' '
            || s[10] != ' ' || s[13] != ':' || s[16] != ':' || s[19] != ' ' {
            None
        } else {
            let d = PhpDate {
                year: (1000 * digit_val(s[20]) + 100 * digit_val(s[21]) + 10 * digit_val(s[22])
                    + digit_val(s[23])) as u16,
                month: mon as u8,
                day: day as u8,
                hour: (10 * digit_val(s[11]) + digit_val(s[12])) as u8,
                minute: (10 * digit_val(s[14]) + digit_val(s[15])) as u8,
                second: (10 * digit_val(s[17]) + digit_val(s[18])) as u8,
            };
            if date_valid(d) && wd == weekday_of(d) {
                Some(d)
            } else {
                None
            }
        }
    }
}

impl PhpDate {
    /// A date the format can represent (see [`date_valid`]).
    pub open spec fn valid(self) -> bool {
        date_valid(self)
    }

    /// Whether this date is representable, decided at run time.
    pub fn check_valid(&self) -> (r: bool)
        ensures
            r == self.valid(),
    {
        let dm: u8 = days_in_month_exec(self.year, self.month);
        1 <= self.year && self.year <= 9999 && 1 <= self.month && self.month <= 12 && 1 <= self.day
            && self.day <= dm && self.hour < 24 && self.minute < 60 && self.second < 60
    }
}

/// The number of days of one month, decided at run time.
pub fn days_in_month_exec(y: u16, m: u8) -> (r: u8)
    ensures
        r as int == days_in_month(y as int, m as int),
{
    if m == 2 {
        if y % 4 == 0 && (y % 100 != 0 || y % 400 == 0) {
            29
        } else {
            28
        }
    } else if m == 4 || m == 6 || m == 9 || m == 11 {
        30
    } else {
        31
    }
}

/// The day of the week, decided at run time.
pub fn weekday_exec(d: &PhpDate) -> (r: u8)
    requires
        d.valid(),
    ensures
        r < 7,
        r as int == weekday_of(*d),
{
    let y: u32 = if d.month < 3 {
        d.year as u32 - 1
    } else {
        d.year as u32
    };
    let t: u32 = if d.month == 1 {
        0
    } else if d.month == 2 {
        3
    } else if d.month == 3 {
        2
    } else if d.month == 4 {
        5
    } else if d.month == 5 {
        0
    } else if d.month == 6 {
        3
    } else if d.month == 7 {
        5
    } else if d.month == 8 {
        1
    } else if d.month == 9 {
        4
    } else if d.month == 10 {
        6
    } else if d.month == 11 {
        2
    } else {
        4
    };
    let w = (y + y / 4 - y / 100 + y / 400 + t + d.day as u32) % 7;
    w as u8
}

/// Appends a weekday abbreviation.
fn append_wd_name(s: &mut String, w: u8)
    requires
        w < 7,
    ensures
        final(s)@ == old(s)@ + wd_name(w as int),
{
    proof {
        reveal_strlit("Sun");
        reveal_strlit("Mon");
        reveal_strlit("Tue");
        reveal_strlit("Wed");
        reveal_strlit("Thu");
        reveal_strlit("Fri");
        reveal_strlit("Sat");
    }
    if w == 0 {
        s.append("Sun");
        proof { assert(s@ =~= old(s)@ + wd_name(w as int)); }
    } else if w == 1 {
        s.append("Mon");
        proof { assert(s@ =~= old(s)@ + wd_name(w as int)); }
    } else if w == 2 {
        s.append("Tue");
        proof { assert(s@ =~= old(s)@ + wd_name(w as int)); }
    } else if w == 3 {
        s.append("Wed");
        proof { assert(s@ =~= old(s)@ + wd_name(w as int)); }
    } else if w == 4 {
        s.append("Thu");
        proof { assert(s@ =~= old(s)@ + wd_name(w as int)); }
    } else if w == 5 {
        s.append("Fri");
        proof { assert(s@ =~= old(s)@ + wd_name(w as int)); }
    } else {
        s.append("Sat");
        proof { assert(s@ =~= old(s)@ + wd_name(w as int)); }
    }
}

/// Appends a month abbreviation.
fn append_mon_name(s: &mut String, m: u8)
    requires
        1 <= m <= 12,
    ensures
        final(s)@ == old(s)@ + mon_name(m as int),
{
    proof {
        reveal_strlit("Jan");
        reveal_strlit("Feb");
        reveal_strlit("Mar");
        reveal_strlit("Apr");
        reveal_strlit("May");
        reveal_strlit("Jun");
        reveal_strlit("Jul");
        reveal_strlit("Aug");
        reveal_strlit("Sep");
        reveal_strlit("Oct");
        reveal_strlit("Nov");
        reveal_strlit("Dec");
    }
    if m == 1 {
        s.append("Jan");
        proof { assert(s@ =~= old(s)@ + mon_name(m as int)); }
    } else if m == 2 {
        s.append("Feb");
        proof { assert(s@ =~= old(s)@ + mon_name(m as int)); }
    } else if m == 3 {
        s.append("Mar");
        proof { assert(s@ =~= old(s)@ + mon_name(m as int)); }
    } else if m == 4 {
        s.append("Apr");
        proof { assert(s@ =~= old(s)@ + mon_name(m as int)); }
    } else if m == 5 {
        s.append("May");
        proof { assert(s@ =~= old(s)@ + mon_name(m as int)); }
    } else if m == 6 {
        s.append("Jun");
        proof { assert(s@ =~= old(s)@ + mon_name(m as int)); }
    } else if m == 7 {
        s.append("Jul");
        proof { assert(s@ =~= old(s)@ + mon_name(m as int)); }
    } else if m == 8 {
        s.append("Aug");
        proof { assert(s@ =~= old(s)@ + mon_name(m as int)); }
    } else if m == 9 {
        s.append("Sep");
        proof { assert(s@ =~= old(s)@ + mon_name(m as int)); }
    } else if m == 10 {
        s.append("Oct");
        proof { assert(s@ =~= old(s)@ + mon_name(m as int)); }
    } else if m == 11 {
        s.append("Nov");
        proof { assert(s@ =~= old(s)@ + mon_name(m as int)); }
    } else {
        s.append("Dec");
        proof { assert(s@ =~= old(s)@ + mon_name(m as int)); }
    }
}

/// Appends two zero-padded digits.
fn append_two_digits(s: &mut String, n: u8)
    requires
        n < 100,
    ensures
        final(s)@ == old(s)@ + two_digits(n as int),
{
    append_digit(s, n / 10);
    append_digit(s, n % 10);
    proof {
        assert(s@ =~= old(s)@ + two_digits(n as int));
    }
}

/// Encodes a date as the fixed 24-character text, the weekday derived
/// from the date.
pub fn serialize(date: &PhpDate) -> (r: String)
    requires
        date.valid(),
    ensures
        r@ == date_text(*date),
{
    proof {
        reveal_strlit(" ");
        reveal_strlit(":");
        assert(" "@ =~= seq![' ']);
        assert(":"@ =~= seq![':']);
    }
    let mut s = String::new();
    let w = weekday_exec(date);
    append_wd_name(&mut s, w);
    s.append(" ");
    append_mon_name(&mut s, date.month);
    s.append(" ");
    if date.day < 10 {
        s.append(" ");
        append_digit(&mut s, date.day);
    } else {
        append_two_digits(&mut s, date.day);
    }
    s.append(" ");
    append_two_digits(&mut s, date.hour);
    s.append(":");
    append_two_digits(&mut s, date.minute);
    s.append(":");
    append_two_digits(&mut s, date.second);
    s.append(" ");
    let y = date.year;
    append_digit(&mut s, (y / 1000) as u8);
    append_digit(&mut s, ((y / 100) % 10) as u8);
    append_digit(&mut s, ((y / 10) % 10) as u8);
    append_digit(&mut s, (y % 10) as u8);
    proof {
        assert(s@ =~= date_text(*date));
    }
    s
}

/// The value of one digit character, decided at run time.
fn digit_val_exec(c: char) -> (r: i8)
    ensures
        r as int == digit_val(c),
{
    if c == '0' {
        0
    } else if c == '1' {
        1
    } else if c == '2' {
        2
    } else if c == '3' {
        3
    } else if c == '4' {
        4
    } else if c == '5' {
        5
    } else if c == '6' {
        6
    } else if c == '7' {
        7
    } else if c == '8' {
        8
    } else if c == '9' {
        9
    } else {
        -1
    }
}

/// Decodes the fixed 24-character text into a date. Fails, as a schema
/// decode error, exactly on text that is not the format's image of a
/// representable date with an agreeing weekday.
pub fn deserialize(s: &str) -> (r: Result<PhpDate, ScrapeError>)
    ensures
        r is Ok <==> parse_date(s@) is Some,
        r matches Ok(d) ==> parse_date(s@) == Some(d),
        r matches Err(e) ==> e == ScrapeError::Decode(DecodeKind::Schema),
{
    if s.unicode_len() != 24 {
        return Err(ScrapeError::Decode(DecodeKind::Schema));
    }
    let c0 = s.get_char(0);
    let c1 = s.get_char(1);
    let c2 = s.get_char(2);
    let c3 = s.get_char(3);
    let c4 = s.get_char(4);
    let c5 = s.get_char(5);
    let c6 = s.get_char(6);
    let c7 = s.get_char(7);
    let c8 = s.get_char(8);
    let c9 = s.get_char(9);
    let c10 = s.get_char(10);
    let c11 = s.get_char(11);
    let c12 = s.get_char(12);
    let c13 = s.get_char(13);
    let c14 = s.get_char(14);
    let c15 = s.get_char(15);
    let c16 = s.get_char(16);
    let c17 = s.get_char(17);
    let c18 = s.get_char(18);
    let c19 = s.get_char(19);
    let c20 = s.get_char(20);
    let c21 = s.get_char(21);
    let c22 = s.get_char(22);
    let c23 = s.get_char(23);
    let wd: i8 = if c0 == 'S' && c1 == 'u' && c2 == 'n' {
        0
    } else if c0 == 'M' && c1 == 'o' && c2 == 'n' {
        1
    } else if c0 == 'T' && c1 == 'u' && c2 == 'e' {
        2
    } else if c0 == 'W' && c1 == 'e' && c2 == 'd' {
        3
    } else if c0 == 'T' && c1 == 'h' && c2 == 'u' {
        4
    } else if c0 == 'F' && c1 == 'r' && c2 == 'i' {
        5
    } else if c0 == 'S' && c1 == 'a' && c2 == 't' {
        6
    } else {
        -1
    };
    let mon: i8 = if c4 == 'J' && c5 == 'a' && c6 == 'n' {
        1
    } else if c4 == 'F' && c5 == 'e' && c6 == 'b' {
        2
    } else if c4 == 'M' && c5 == 'a' && c6 == 'r' {
        3
    } else if c4 == 'A' && c5 == 'p' && c6 == 'r' {
        4
    } else if c4 == 'M' && c5 == 'a' && c6 == 'y' {
        5
    } else if c4 == 'J' && c5 == 'u' && c6 == 'n' {
        6
    } else if c4 == 'J' && c5 == 'u' && c6 == 'l' {
        7
    } else if c4 == 'A' && c5 == 'u' && c6 == 'g' {
        8
    } else if c4 == 'S' && c5 == 'e' && c6 == 'p' {
        9
    } else if c4 == 'O' && c5 == 'c' && c6 == 't' {
        10
    } else if c4 == 'N' && c5 == 'o' && c6 == 'v' {
        11
    } else if c4 == 'D' && c5 == 'e' && c6 == 'c' {
        12
    } else {
        -1
    };
    let d8 = digit_val_exec(c8);
    let d9 = digit_val_exec(c9);
    let day_ok: bool = if c8 == ' ' {
        d9 >= 1
    } else {
        d8 >= 1 && d9 >= 0
    };
    let day: i16 = if c8 == ' ' {
        d9 as i16
    } else {
        10 * (d8 as i16) + (d9 as i16)
    };
    let d11 = digit_val_exec(c11);
    let d12 = digit_val_exec(c12);
    let d14 = digit_val_exec(c14);
    let d15 = digit_val_exec(c15);
    let d17 = digit_val_exec(c17);
    let d18 = digit_val_exec(c18);
    let d20 = digit_val_exec(c20);
    let d21 = digit_val_exec(c21);
    let d22 = digit_val_exec(c22);
    let d23 = digit_val_exec(c23);
    let clock_ok = d11 >= 0 && d12 >= 0 && d14 >= 0 && d15 >= 0 && d17 >= 0 && d18 >= 0;
    let year_ok = d20 >= 0 && d21 >= 0 && d22 >= 0 && d23 >= 0;
    if wd < 0 || mon < 0 || !day_ok || !clock_ok || !year_ok || c3 != ' ' || c7 != ' '
        || c10 != ' ' || c13 != ':' || c16 != ':' || c19 != ' ' {
        return Err(ScrapeError::Decode(DecodeKind::Schema));
    }
    let year: i32 = 1000 * (d20 as i32) + 100 * (d21 as i32) + 10 * (d22 as i32) + (d23 as i32);
    let d = PhpDate {
        year: year as u16,
        month: mon as u8,
        day: day as u8,
        hour: (10 * d11 + d12) as u8,
        minute: (10 * d14 + d15) as u8,
        second: (10 * d17 + d18) as u8,
    };
    if d.check_valid() {
        let w = weekday_exec(&d);
        if wd as u8 == w {
            Ok(d)
        } else {
            Err(ScrapeError::Decode(DecodeKind::Schema))
        }
    } else {
        Err(ScrapeError::Decode(DecodeKind::Schema))
    }
}

/// The year digit decomposition used by [`four_digits`] reassembles to the
/// year.
proof fn lemma_four_digit_value(y: int)
    requires
        0 <= y <= 9999,
    ensures
        1000 * (y / 1000) + 100 * ((y / 100) % 10) + 10 * ((y / 10) % 10) + y % 10 == y,
{
    lemma_fundamental_div_mod(y, 10);
    lemma_fundamental_div_mod(y / 10, 10);
    lemma_fundamental_div_mod(y / 100, 10);
    lemma_div_denominator(y, 10, 10);
    lemma_div_denominator(y, 100, 10);
}

/// Where each character of the assembled 24-character text comes from,
/// for components of the format's fixed widths.
#[verifier::rlimit(50)]
proof fn lemma_cat24(
    a: Seq<char>,
    b: Seq<char>,
    c: Seq<char>,
    d1: Seq<char>,
    e: Seq<char>,
    f: Seq<char>,
    g: Seq<char>,
    h: Seq<char>,
    i2: Seq<char>,
    j: Seq<char>,
    k: Seq<char>,
    l: Seq<char>,
    m2: Seq<char>,
)
    requires
        a.len() == 3,
        b.len() == 1,
        c.len() == 3,
        d1.len() == 1,
        e.len() == 2,
        f.len() == 1,
        g.len() == 2,
        h.len() == 1,
        i2.len() == 2,
        j.len() == 1,
        k.len() == 2,
        l.len() == 1,
        m2.len() == 4,
    ensures
        (a + b + c + d1 + e + f + g + h + i2 + j + k + l + m2).len() == 24,
        (a + b + c + d1 + e + f + g + h + i2 + j + k + l + m2)[0] == a[0],
        (a + b + c + d1 + e + f + g + h + i2 + j + k + l + m2)[1] == a[1],
        (a + b + c + d1 + e + f + g + h + i2 + j + k + l + m2)[2] == a[2],
        (a + b + c + d1 + e + f + g + h + i2 + j + k + l + m2)[3] == b[0],
        (a + b + c + d1 + e + f + g + h + i2 + j + k + l + m2)[4] == c[0],
        (a + b + c + d1 + e + f + g + h + i2 + j + k + l + m2)[5] == c[1],
        (a + b + c + d1 + e + f + g + h + i2 + j + k + l + m2)[6] == c[2],
        (a + b + c + d1 + e + f + g + h + i2 + j + k + l + m2)[7] == d1[0],
        (a + b + c + d1 + e + f + g + h + i2 + j + k + l + m2)[8] == e[0],
        (a + b + c + d1 + e + f + g + h + i2 + j + k + l + m2)[9] == e[1],
        (a + b + c + d1 + e + f + g + h + i2 + j + k + l + m2)[10] == f[0],
        (a + b + c + d1 + e + f + g + h + i2 + j + k + l + m2)[11] == g[0],
        (a + b + c + d1 + e + f + g + h + i2 + j + k + l + m2)[12] == g[1],
        (a + b + c + d1 + e + f + g + h + i2 + j + k + l + m2)[13] == h[0],
        (a + b + c + d1 + e + f + g + h + i2 + j + k + l + m2)[14] == i2[0],
        (a + b + c + d1 + e + f + g + h + i2 + j + k + l + m2)[15] == i2[1],
        (a + b + c + d1 + e + f + g + h + i2 + j + k + l + m2)[16] == j[0],
        (a + b + c + d1 + e + f + g + h + i2 + j + k + l + m2)[17] == k[0],
        (a + b + c + d1 + e + f + g + h + i2 + j + k + l + m2)[18] == k[1],
        (a + b + c + d1 + e + f + g + h + i2 + j + k + l + m2)[19] == l[0],
        (a + b + c + d1 + e + f + g + h + i2 + j + k + l + m2)[20] == m2[0],
        (a + b + c + d1 + e + f + g + h + i2 + j + k + l + m2)[21] == m2[1],
        (a + b + c + d1 + e + f + g + h + i2 + j + k + l + m2)[22] == m2[2],
        (a + b + c + d1 + e + f + g + h + i2 + j + k + l + m2)[23] == m2[3],
{
}

/// A weekday abbreviation carries its index back.
proof fn lemma_wd_index_name(w: int)
    requires
        0 <= w < 7,
    ensures
        wd_name(w).len() == 3,
        wd_index(wd_name(w)[0], wd_name(w)[1], wd_name(w)[2]) == w,
{
}

/// A month abbreviation carries its number back.
proof fn lemma_mon_index_name(m: int)
    requires
        1 <= m <= 12,
    ensures
        mon_name(m).len() == 3,
        mon_index(mon_name(m)[0], mon_name(m)[1], mon_name(m)[2]) == m,
{
}

/// A digit character carries its value back, and is no separator.
proof fn lemma_digit_char_val(x: int)
    requires
        0 <= x < 10,
    ensures
        digit_val(digit_char(x)) == x,
        digit_char(x) != ' ',
        digit_char(x) != ':',
{
}

/// Law: within the representable range, encoding a date and decoding the
/// text is the identity.
#[verifier::rlimit(100)]
pub proof fn lemma_date_round_trip(d: PhpDate)
    requires
        date_valid(d),
    ensures
        parse_date(date_text(d)) == Some(d),
{
    let s = date_text(d);
    let w = weekday_of(d);
    let m = d.month as int;
    let day = d.day as int;
    let hour = d.hour as int;
    let minute = d.minute as int;
    let second = d.second as int;
    let year = d.year as int;
    assert(0 <= w < 7);
    lemma_wd_index_name(w);
    lemma_mon_index_name(m);
    lemma_digit_char_val(day / 10);
    lemma_digit_char_val(day % 10);
    lemma_digit_char_val(hour / 10);
    lemma_digit_char_val(hour % 10);
    lemma_digit_char_val(minute / 10);
    lemma_digit_char_val(minute % 10);
    lemma_digit_char_val(second / 10);
    lemma_digit_char_val(second % 10);
    lemma_digit_char_val(year / 1000);
    lemma_digit_char_val((year / 100) % 10);
    lemma_digit_char_val((year / 10) % 10);
    lemma_digit_char_val(year % 10);
    lemma_cat24(
        wd_name(w),
        seq![' '],
        mon_name(m),
        seq![' '],
        day_padded(day),
        seq![' '],
        two_digits(hour),
        seq![':'],
        two_digits(minute),
        seq![':'],
        two_digits(second),
        seq![' '],
        four_digits(year),
    );
    assert(wd_index(s[0], s[1], s[2]) == w);
    assert(mon_index(s[4], s[5], s[6]) == m);
    if day < 10 {
        assert(s[8] == ' ' && digit_val(s[9]) == day);
    } else {
        assert(digit_val(s[8]) == day / 10 >= 1);
        assert(digit_val(s[9]) == day % 10);
        lemma_fundamental_div_mod(day, 10);
    }
    lemma_fundamental_div_mod(hour, 10);
    lemma_fundamental_div_mod(minute, 10);
    lemma_fundamental_div_mod(second, 10);
    lemma_four_digit_value(year);
    assert(10 * digit_val(s[11]) + digit_val(s[12]) == hour);
    assert(10 * digit_val(s[14]) + digit_val(s[15]) == minute);
    assert(10 * digit_val(s[17]) + digit_val(s[18]) == second);
    assert(1000 * digit_val(s[20]) + 100 * digit_val(s[21]) + 10 * digit_val(s[22]) + digit_val(
        s[23],
    ) == year);
    assert(parse_date(s) == Some(d));
}

} // verus!
