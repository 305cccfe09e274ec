//! Calendar dates with a time of day, and the strict `YYYY/MM/DD HH:MM:SS`
//! textual format in which records carry them.

use vstd::prelude::*;
use vstd::string::StrSliceExecFns;
use vstd::string::StringExecFns;

verus! {

/// A calendar date and time of day, without a time zone.
#[derive(Clone, Copy, Debug, PartialEq, Eq, Structural)]
pub struct DateTime {
    pub year: u16,
    pub month: u8,
    pub day: u8,
    pub hour: u8,
    pub minute: u8,
    pub second: u8,
}

pub open spec fn is_leap_year(y: int) -> bool {
    (y % 4 == 0 && y % 100 != 0) || y % 400 == 0
}

pub open spec fn days_in_month(y: int, m: int) -> int {
    if m == 2 {
        if is_leap_year(y) {
            29
        } else {
            28
        }
    } else if m == 4 || m == 6 || m == 9 || m == 11 {
        30
    } else {
        31
    }
}

impl DateTime {
    /// The components form a real calendar date and a real time of day.
    pub open spec fn wf(self) -> bool {
        &&& self.year <= 9999
        &&& 1 <= self.month <= 12
        &&& 1 <= self.day <= days_in_month(self.year as int, self.month as int)
        &&& self.hour <= 23
        &&& self.minute <= 59
        &&& self.second <= 59
    }
}

pub open spec fn is_digit(c: char) -> bool {
    48 <= c as u32 <= 57
}

pub open spec fn digit_val(c: char) -> int {
    c as u32 - 48
}

/// The two-digit number written at positions `i` and `i + 1`.
pub open spec fn num2(s: Seq<char>, i: int) -> int {
    digit_val(s[i]) * 10 + digit_val(s[i + 1])
}

/// The four-digit number written at positions `i` through `i + 3`.
pub open spec fn num4(s: Seq<char>, i: int) -> int {
    digit_val(s[i]) * 1000 + digit_val(s[i + 1]) * 100 + digit_val(s[i + 2]) * 10 + digit_val(
        s[i + 3],
    )
}

/// `s` matches `YYYY/MM/DD HH:MM:SS` exactly: 19 characters, digits and
/// separators in fixed positions, every component within its calendar range.
pub open spec fn date_str_ok(s: Seq<char>) -> bool {
    &&& s.len() == 19
    &&& is_digit(s[0]) && is_digit(s[1]) && is_digit(s[2]) && is_digit(s[3])
    &&& s[4] == '/'
    &&& is_digit(s[5]) && is_digit(s[6])
    &&& s[7] == '/'
    &&& is_digit(s[8]) && is_digit(s[9])
    &&& s[10] == ' '
    &&& is_digit(s[11]) && is_digit(s[12])
    &&& s[13] == ':'
    &&& is_digit(s[14]) && is_digit(s[15])
    &&& s[16] == ':'
    &&& is_digit(s[17]) && is_digit(s[18])
    &&& 1 <= num2(s, 5) <= 12
    &&& 1 <= num2(s, 8) <= days_in_month(num4(s, 0), num2(s, 5))
    &&& num2(s, 11) <= 23
    &&& num2(s, 14) <= 59
    &&& num2(s, 17) <= 59
}

/// The value written by a string that satisfies `date_str_ok`.
pub open spec fn date_of_str(s: Seq<char>) -> DateTime {
    DateTime {
        year: num4(s, 0) as u16,
        month: num2(s, 5) as u8,
        day: num2(s, 8) as u8,
        hour: num2(s, 11) as u8,
        minute: num2(s, 14) as u8,
        second: num2(s, 17) as u8,
    }
}

fn digit_of(c: char) -> (r: Option<u8>)
    ensures
        r is Some <==> is_digit(c),
        r matches Some(d) ==> d == digit_val(c) && d <= 9,
{
    let v = c as u32;
    if 48 <= v && v <= 57 {
        Some((v - 48) as u8)
    } else {
        None
    }
}

fn days_in_month_x(y: u16, m: u8) -> (r: u8)
    requires
        1 <= m <= 12,
    ensures
        r == days_in_month(y as int, m as int),
{
    if m == 2 {
        if (y % 4 == 0 && y % 100 != 0) || y % 400 == 0 {
            29
        } else {
            28
        }
    } else if m == 4 || m == 6 || m == 9 || m == 11 {
        30
    } else {
        31
    }
}

/// Parse a string against the strict `YYYY/MM/DD HH:MM:SS` format; any
/// deviation (wrong length, wrong separator, non-digit, out-of-range
/// component) yields `None`.
pub fn parse_date(s: &str) -> (r: Option<DateTime>)
    ensures
        r is Some <==> date_str_ok(s@),
        r matches Some(d) ==> d == date_of_str(s@) && d.wf(),
{
    if s.unicode_len() != 19 {
        return None;
    }
    if s.get_char(4) != '/' || s.get_char(7) != '/' || s.get_char(10) != ' ' || s.get_char(13)
        != ':' || s.get_char(16) != ':' {
        return None;
    }
    let y0 = match digit_of(s.get_char(0)) {
        Some(d) => d,
        None => { return None },
    };
    let y1 = match digit_of(s.get_char(1)) {
        Some(d) => d,
        None => { return None },
    };
    let y2 = match digit_of(s.get_char(2)) {
        Some(d) => d,
        None => { return None },
    };
    let y3 = match digit_of(s.get_char(3)) {
        Some(d) => d,
        None => { return None },
    };
    let mo0 = match digit_of(s.get_char(5)) {
        Some(d) => d,
        None => { return None },
    };
    let mo1 = match digit_of(s.get_char(6)) {
        Some(d) => d,
        None => { return None },
    };
    let d0 = match digit_of(s.get_char(8)) {
        Some(d) => d,
        None => { return None },
    };
    let d1 = match digit_of(s.get_char(9)) {
        Some(d) => d,
        None => { return None },
    };
    let h0 = match digit_of(s.get_char(11)) {
        Some(d) => d,
        None => { return None },
    };
    let h1 = match digit_of(s.get_char(12)) {
        Some(d) => d,
        None => { return None },
    };
    let mi0 = match digit_of(s.get_char(14)) {
        Some(d) => d,
        None => { return None },
    };
    let mi1 = match digit_of(s.get_char(15)) {
        Some(d) => d,
        None => { return None },
    };
    let s0 = match digit_of(s.get_char(17)) {
        Some(d) => d,
        None => { return None },
    };
    let s1 = match digit_of(s.get_char(18)) {
        Some(d) => d,
        None => { return None },
    };
    let year: u16 = y0 as u16 * 1000 + y1 as u16 * 100 + y2 as u16 * 10 + y3 as u16;
    let month: u8 = mo0 * 10 + mo1;
    let day: u8 = d0 * 10 + d1;
    let hour: u8 = h0 * 10 + h1;
    let minute: u8 = mi0 * 10 + mi1;
    let second: u8 = s0 * 10 + s1;
    if month < 1 || month > 12 {
        return None;
    }
    if day < 1 || day > days_in_month_x(year, month) {
        return None;
    }
    if hour > 23 {
        return None;
    }
    if minute > 59 {
        return None;
    }
    if second > 59 {
        return None;
    }
    Some(DateTime { year, month, day, hour, minute, second })
}

pub open spec fn digit_char(d: int) -> char {
    if d == 0 {
        '0'
    } else if d == 1 {
        '1'
    } else if d == 2 {
        '2'
    } else if d == 3 {
        '3'
    } else if d == 4 {
        '4'
    } else if d == 5 {
        '5'
    } else if d == 6 {
        '6'
    } else if d == 7 {
        '7'
    } else if d == 8 {
        '8'
    } else {
        '9'
    }
}

/// The ISO-style text `YYYY-MM-DDTHH:MM:SS` under which a value is stored.
pub open spec fn date_text(d: DateTime) -> Seq<char> {
    seq![
        digit_char(d.year as int / 1000),
        digit_char((d.year as int / 100) % 10),
        digit_char((d.year as int / 10) % 10),
        digit_char(d.year as int % 10),
        '-',
        digit_char(d.month as int / 10),
        digit_char(d.month as int % 10),
        '-',
        digit_char(d.day as int / 10),
        digit_char(d.day as int % 10),
        'T',
        digit_char(d.hour as int / 10),
        digit_char(d.hour as int % 10),
        ':',
        digit_char(d.minute as int / 10),
        digit_char(d.minute as int % 10),
        ':',
        digit_char(d.second as int / 10),
        digit_char(d.second as int % 10),
    ]
}

fn digit_str(d: u8) -> (r: &'static str)
    requires
        d <= 9,
    ensures
        r@ =~= seq![digit_char(d as int)],
{
    proof {
        reveal_strlit("0");
        reveal_strlit("1");
        reveal_strlit("2");
        reveal_strlit("3");
        reveal_strlit("4");
        reveal_strlit("5");
        reveal_strlit("6");
        reveal_strlit("7");
        reveal_strlit("8");
        reveal_strlit("9");
    }
    match d {
        0 => "0",
        1 => "1",
        2 => "2",
        3 => "3",
        4 => "4",
        5 => "5",
        6 => "6",
        7 => "7",
        8 => "8",
        _ => "9",
    }
}

impl DateTime {
    /// Render as `YYYY-MM-DDTHH:MM:SS`.
    pub fn to_text(&self) -> (r: String)
        requires
            self.wf(),
        ensures
            r@ == date_text(*self),
    {
        proof {
            reveal_strlit("-");
            reveal_strlit("T");
            reveal_strlit(":");
        }
        let mut out = String::new();
        out.append(digit_str((self.year / 1000) as u8));
        out.append(digit_str(((self.year / 100) % 10) as u8));
        out.append(digit_str(((self.year / 10) % 10) as u8));
        out.append(digit_str((self.year % 10) as u8));
        out.append("-");
        out.append(digit_str(self.month / 10));
        out.append(digit_str(self.month % 10));
        out.append("-");
        out.append(digit_str(self.day / 10));
        out.append(digit_str(self.day % 10));
        out.append("T");
        out.append(digit_str(self.hour / 10));
        out.append(digit_str(self.hour % 10));
        out.append(":");
        out.append(digit_str(self.minute / 10));
        out.append(digit_str(self.minute % 10));
        out.append(":");
        out.append(digit_str(self.second / 10));
        out.append(digit_str(self.second % 10));
        proof {
            assert(out@ =~= date_text(*self));
        }
        out
    }
}

} // verus!
