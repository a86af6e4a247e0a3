//! Calendar dates: parsing the metadata's `YYYY-MM-DD` date text and
//! rendering it in the long form the page template shows (`March 05, 2024`).

use vstd::prelude::*;

verus! {

/// A calendar date, as the plain values the pipeline reads of it.
pub struct Date {
    pub year: u32,
    pub month: u8,
    pub day: u8,
}

pub open spec fn is_leap_year(y: int) -> bool {
    y % 4 == 0 && (y % 100 != 0 || y % 400 == 0)
}

pub open spec fn days_in_month(y: int, m: int) -> int {
    if m == 2 {
        if is_leap_year(y) {
            29
        } else {
            28
        }
    } else if m == 4 || m == 6 || m == 9 || m == 11 {
        30
    } else {
        31
    }
}

impl Date {
    /// A valid calendar date with a four-digit year.
    pub open spec fn wf(self) -> bool {
        &&& self.year <= 9999
        &&& 1 <= self.month <= 12
        &&& 1 <= self.day <= days_in_month(self.year as int, self.month as int)
    }
}

pub open spec fn is_digit(c: char) -> bool {
    '0' <= c && c <= '9'
}

pub open spec fn digit_val(c: char) -> int {
    c as int - 48
}

/// The shape `YYYY-MM-DD`: ten characters, digits with dashes between the
/// three groups.
pub open spec fn date_shape(s: Seq<char>) -> bool {
    &&& s.len() == 10
    &&& is_digit(s[0]) && is_digit(s[1]) && is_digit(s[2]) && is_digit(s[3])
    &&& s[4] == '-'
    &&& is_digit(s[5]) && is_digit(s[6])
    &&& s[7] == '-'
    &&& is_digit(s[8]) && is_digit(s[9])
}

pub open spec fn year_of(s: Seq<char>) -> int {
    digit_val(s[0]) * 1000 + digit_val(s[1]) * 100 + digit_val(s[2]) * 10 + digit_val(s[3])
}

pub open spec fn month_of(s: Seq<char>) -> int {
    digit_val(s[5]) * 10 + digit_val(s[6])
}

pub open spec fn day_of(s: Seq<char>) -> int {
    digit_val(s[8]) * 10 + digit_val(s[9])
}

/// The date text is well-shaped and names a valid calendar date.
pub open spec fn valid_date_string(s: Seq<char>) -> bool {
    &&& date_shape(s)
    &&& 1 <= month_of(s) <= 12
    &&& 1 <= day_of(s) <= days_in_month(year_of(s), month_of(s))
}

fn is_digit_exec(c: char) -> (r: bool)
    ensures
        r == is_digit(c),
{
    '0' <= c && c <= '9'
}

fn days_in_month_exec(y: u32, m: u8) -> (r: u8)
    requires
        1 <= m <= 12,
    ensures
        r as int == days_in_month(y as int, m as int),
{
    if m == 2 {
        if y % 4 == 0 && (y % 100 != 0 || y % 400 == 0) {
            29
        } else {
            28
        }
    } else if m == 4 || m == 6 || m == 9 || m == 11 {
        30
    } else {
        31
    }
}

/// Parses date text of the form `YYYY-MM-DD`. Returns the date exactly when
/// the text is well-shaped and names a valid calendar date.
pub fn parse_date(s: &str) -> (r: Option<Date>)
    ensures
        r is Some <==> valid_date_string(s@),
        match r {
            Some(d) => d.wf() && d.year as int == year_of(s@) && d.month as int == month_of(s@)
                && d.day as int == day_of(s@),
            None => true,
        },
{
    let n = s.unicode_len();
    if n != 10 {
        return None;
    }
    let c0 = s.get_char(0);
    let c1 = s.get_char(1);
    let c2 = s.get_char(2);
    let c3 = s.get_char(3);
    let c4 = s.get_char(4);
    let c5 = s.get_char(5);
    let c6 = s.get_char(6);
    let c7 = s.get_char(7);
    let c8 = s.get_char(8);
    let c9 = s.get_char(9);
    if !(is_digit_exec(c0) && is_digit_exec(c1) && is_digit_exec(c2) && is_digit_exec(c3)
        && c4 == '-' && is_digit_exec(c5) && is_digit_exec(c6) && c7 == '-' && is_digit_exec(c8)
        && is_digit_exec(c9)) {
        return None;
    }
    let year: u32 = (c0 as u32 - 48) * 1000 + (c1 as u32 - 48) * 100 + (c2 as u32 - 48) * 10 + (
    c3 as u32 - 48);
    let month8: u8 = ((c5 as u32 - 48) * 10 + (c6 as u32 - 48)) as u8;
    let day8: u8 = ((c8 as u32 - 48) * 10 + (c9 as u32 - 48)) as u8;
    if month8 < 1 || month8 > 12 {
        return None;
    }
    if day8 < 1 || day8 > days_in_month_exec(year, month8) {
        return None;
    }
    Some(Date { year, month: month8, day: day8 })
}

// ---------------------------------------------------------------------------
// Formatting.
// ---------------------------------------------------------------------------

/// The English name of month `m`.
pub open spec fn month_name(m: int) -> Seq<char> {
    if m == 1 {
        "January"@
    } else if m == 2 {
        "February"@
    } else if m == 3 {
        "March"@
    } else if m == 4 {
        "April"@
    } else if m == 5 {
        "May"@
    } else if m == 6 {
        "June"@
    } else if m == 7 {
        "July"@
    } else if m == 8 {
        "August"@
    } else if m == 9 {
        "September"@
    } else if m == 10 {
        "October"@
    } else if m == 11 {
        "November"@
    } else {
        "December"@
    }
}

pub open spec fn digit_char(v: int) -> char {
    if v == 0 {
        '0'
    } else if v == 1 {
        '1'
    } else if v == 2 {
        '2'
    } else if v == 3 {
        '3'
    } else if v == 4 {
        '4'
    } else if v == 5 {
        '5'
    } else if v == 6 {
        '6'
    } else if v == 7 {
        '7'
    } else if v == 8 {
        '8'
    } else {
        '9'
    }
}

/// Two decimal digits, zero padded.
pub open spec fn two_digits(v: int) -> Seq<char> {
    seq![digit_char(v / 10 % 10), digit_char(v % 10)]
}

/// Four decimal digits, zero padded.
pub open spec fn four_digits(v: int) -> Seq<char> {
    seq![
        digit_char(v / 1000 % 10),
        digit_char(v / 100 % 10),
        digit_char(v / 10 % 10),
        digit_char(v % 10),
    ]
}

/// The long form of a date: full month name, zero-padded day, a comma, and
/// the zero-padded four-digit year.
pub open spec fn formatted_date(d: Date) -> Seq<char> {
    month_name(d.month as int) + " "@ + two_digits(d.day as int) + ", "@ + four_digits(
        d.year as int,
    )
}

/// Appends the decimal digit `v`.
pub(crate) fn append_digit(out: &mut String, v: u32)
    requires
        v <= 9,
    ensures
        final(out)@ == old(out)@ + seq![digit_char(v as int)],
{
    if v == 0 {
        out.append("0");
        proof {
            reveal_strlit("0");
            assert("0"@ =~= seq![digit_char(0)]);
        }
    } else if v == 1 {
        out.append("1");
        proof {
            reveal_strlit("1");
            assert("1"@ =~= seq![digit_char(1)]);
        }
    } else if v == 2 {
        out.append("2");
        proof {
            reveal_strlit("2");
            assert("2"@ =~= seq![digit_char(2)]);
        }
    } else if v == 3 {
        out.append("3");
        proof {
            reveal_strlit("3");
            assert("3"@ =~= seq![digit_char(3)]);
        }
    } else if v == 4 {
        out.append("4");
        proof {
            reveal_strlit("4");
            assert("4"@ =~= seq![digit_char(4)]);
        }
    } else if v == 5 {
        out.append("5");
        proof {
            reveal_strlit("5");
            assert("5"@ =~= seq![digit_char(5)]);
        }
    } else if v == 6 {
        out.append("6");
        proof {
            reveal_strlit("6");
            assert("6"@ =~= seq![digit_char(6)]);
        }
    } else if v == 7 {
        out.append("7");
        proof {
            reveal_strlit("7");
            assert("7"@ =~= seq![digit_char(7)]);
        }
    } else if v == 8 {
        out.append("8");
        proof {
            reveal_strlit("8");
            assert("8"@ =~= seq![digit_char(8)]);
        }
    } else {
        out.append("9");
        proof {
            reveal_strlit("9");
            assert("9"@ =~= seq![digit_char(9)]);
        }
    }
}

fn append_month_name(out: &mut String, m: u8)
    requires
        1 <= m <= 12,
    ensures
        final(out)@ == old(out)@ + month_name(m as int),
{
    if m == 1 {
        out.append("January");
    } else if m == 2 {
        out.append("February");
    } else if m == 3 {
        out.append("March");
    } else if m == 4 {
        out.append("April");
    } else if m == 5 {
        out.append("May");
    } else if m == 6 {
        out.append("June");
    } else if m == 7 {
        out.append("July");
    } else if m == 8 {
        out.append("August");
    } else if m == 9 {
        out.append("September");
    } else if m == 10 {
        out.append("October");
    } else if m == 11 {
        out.append("November");
    } else {
        out.append("December");
    }
}

/// Renders a date in the long form, `March 05, 2024`.
pub fn format_date(d: &Date) -> (r: String)
    requires
        d.wf(),
    ensures
        r@ == formatted_date(*d),
{
    let mut out = String::new();
    append_month_name(&mut out, d.month);
    out.append(" ");
    append_digit(&mut out, (d.day / 10) as u32);
    append_digit(&mut out, (d.day % 10) as u32);
    out.append(", ");
    append_digit(&mut out, d.year / 1000);
    append_digit(&mut out, d.year / 100 % 10);
    append_digit(&mut out, d.year / 10 % 10);
    append_digit(&mut out, d.year % 10);
    proof {
        assert(out@ =~= formatted_date(*d));
    }
    out
}

} // verus!
