//! Rendering of date-times as text. The fixed layouts (date, time, zone
//! suffix) are plain zero-padded decimal fields, so they are rendered and
//! verified here; arbitrary format strings go through chrono's format
//! machinery in the trusted bridge.

use crate::bridge::{format_naive, naive_format_of};
use crate::civil::{CivilDateTime, Zone};
use crate::easy::EasyTime;
use vstd::arithmetic::div_mod::{lemma_div_is_ordered, lemma_fundamental_div_mod_converse};
use vstd::prelude::*;
use vstd::string::StringExecFns;

verus! {

pub open spec fn digit_char(n: int) -> char {
    if n == 0 {
        '0'
    } else if n == 1 {
        '1'
    } else if n == 2 {
        '2'
    } else if n == 3 {
        '3'
    } else if n == 4 {
        '4'
    } else if n == 5 {
        '5'
    } else if n == 6 {
        '6'
    } else if n == 7 {
        '7'
    } else if n == 8 {
        '8'
    } else {
        '9'
    }
}

/// Decimal digits of `n`, most significant first, no padding.
pub open spec fn dec_digits(n: nat) -> Seq<char>
    decreases n,
{
    if n < 10 {
        seq![digit_char(n as int)]
    } else {
        dec_digits(n / 10) + seq![digit_char((n % 10) as int)]
    }
}

/// Two-digit zero-padded rendering of `n` (0-99).
pub open spec fn two_digits(n: int) -> Seq<char> {
    seq![digit_char(n / 10), digit_char(n % 10)]
}

/// `n` zero-padded to at least four digits.
pub open spec fn padded_four(n: nat) -> Seq<char> {
    if n < 10 {
        seq!['0', '0', '0'] + dec_digits(n)
    } else if n < 100 {
        seq!['0', '0'] + dec_digits(n)
    } else if n < 1000 {
        seq!['0'] + dec_digits(n)
    } else {
        dec_digits(n)
    }
}

/// A year as the date layout shows it: zero-padded to four digits, with a
/// leading minus sign for years before year zero.
pub open spec fn year_digits(y: int) -> Seq<char> {
    if y < 0 {
        seq!['-'] + padded_four((-y) as nat)
    } else {
        padded_four(y as nat)
    }
}

/// The `YYYY-MM-DD` rendering of the date fields.
pub open spec fn date_chars(c: CivilDateTime) -> Seq<char> {
    year_digits(c.year as int) + seq!['-'] + two_digits(c.month as int) + seq!['-'] + two_digits(
        c.day as int,
    )
}

/// The `HH:MM:SS` rendering of the time fields.
pub open spec fn time_chars(c: CivilDateTime) -> Seq<char> {
    two_digits(c.hour as int) + seq![':'] + two_digits(c.minute as int) + seq![':'] + two_digits(
        c.second as int,
    )
}

/// The `YYYY-MM-DD HH:MM:SS` rendering, the default layout.
pub open spec fn date_time_chars(c: CivilDateTime) -> Seq<char> {
    date_chars(c) + seq![' '] + time_chars(c)
}

/// An offset as chrono displays a fixed offset: sign, hours and minutes,
/// with a seconds part only when the offset is not whole minutes.
pub open spec fn fixed_offset_chars(offset: int) -> Seq<char> {
    let sign = if offset < 0 {
        seq!['-']
    } else {
        seq!['+']
    };
    let a = if offset < 0 {
        -offset
    } else {
        offset
    };
    let body = two_digits(a / 60 / 60) + seq![':'] + two_digits(a / 60 % 60);
    if a % 60 == 0 {
        sign + body
    } else {
        sign + body + seq![':'] + two_digits(a % 60)
    }
}

/// The zone suffix the `*_with_timezone` layouts append: `UTC` for the UTC
/// zone, otherwise the value's offset.
pub open spec fn offset_chars(c: CivilDateTime) -> Seq<char> {
    if c.zone is Utc {
        seq!['U', 'T', 'C']
    } else {
        fixed_offset_chars(c.offset_seconds as int)
    }
}

/// What a custom format string produces for the wall-clock fields of `c`:
/// chrono's output, or `None` for a format string chrono rejects.
pub open spec fn custom_format_of(c: CivilDateTime, fmt: Seq<char>) -> Option<Seq<char>> {
    naive_format_of(
        c.year as int,
        c.month as int,
        c.day as int,
        c.hour as int,
        c.minute as int,
        c.second as int,
        c.nanosecond as int,
        fmt,
    )
}

fn digit_str(n: u32) -> (r: &'static str)
    requires
        n < 10,
    ensures
        r@ == seq![digit_char(n as int)],
{
    let r: &'static str = if n == 0 {
        "0"
    } else if n == 1 {
        "1"
    } else if n == 2 {
        "2"
    } else if n == 3 {
        "3"
    } else if n == 4 {
        "4"
    } else if n == 5 {
        "5"
    } else if n == 6 {
        "6"
    } else if n == 7 {
        "7"
    } else if n == 8 {
        "8"
    } else {
        "9"
    };
    proof {
        reveal_strlit("0");
        reveal_strlit("1");
        reveal_strlit("2");
        reveal_strlit("3");
        reveal_strlit("4");
        reveal_strlit("5");
        reveal_strlit("6");
        reveal_strlit("7");
        reveal_strlit("8");
        reveal_strlit("9");
        assert(r@ =~= seq![digit_char(n as int)]);
    }
    r
}

fn push_two_digits(out: &mut String, n: u32)
    requires
        n < 100,
    ensures
        final(out)@ == old(out)@ + two_digits(n as int),
{
    out.append(digit_str(n / 10));
    out.append(digit_str(n % 10));
    proof {
        assert(final(out)@ =~= old(out)@ + two_digits(n as int));
    }
}

fn push_dec_digits(out: &mut String, n: u32)
    ensures
        final(out)@ == old(out)@ + dec_digits(n as nat),
    decreases n,
{
    if n < 10 {
        out.append(digit_str(n));
    } else {
        push_dec_digits(out, n / 10);
        out.append(digit_str(n % 10));
        proof {
            assert(final(out)@ =~= old(out)@ + dec_digits(n as nat));
        }
    }
}

fn push_year(out: &mut String, year: i32)
    requires
        -1_000_000_000 <= year <= 1_000_000_000,
    ensures
        final(out)@ == old(out)@ + year_digits(year as int),
{
    proof {
        reveal_strlit("-");
        reveal_strlit("000");
        reveal_strlit("00");
        reveal_strlit("0");
    }
    let n: u32 = if year < 0 {
        out.append("-");
        (-year) as u32
    } else {
        year as u32
    };
    if n < 10 {
        out.append("000");
    } else if n < 100 {
        out.append("00");
    } else if n < 1000 {
        out.append("0");
    }
    push_dec_digits(out, n);
    proof {
        assert("000"@ =~= seq!['0', '0', '0']);
        assert("00"@ =~= seq!['0', '0']);
        assert("0"@ =~= seq!['0']);
        assert("-"@ =~= seq!['-']);
        assert(final(out)@ =~= old(out)@ + year_digits(year as int));
    }
}

fn push_date(out: &mut String, c: &CivilDateTime)
    requires
        c.wf(),
    ensures
        final(out)@ == old(out)@ + date_chars(*c),
{
    proof {
        reveal_strlit("-");
    }
    push_year(out, c.year);
    out.append("-");
    push_two_digits(out, c.month as u32);
    out.append("-");
    push_two_digits(out, c.day as u32);
    proof {
        assert("-"@ =~= seq!['-']);
        assert(final(out)@ =~= old(out)@ + date_chars(*c));
    }
}

fn push_time(out: &mut String, c: &CivilDateTime)
    requires
        c.wf(),
    ensures
        final(out)@ == old(out)@ + time_chars(*c),
{
    proof {
        reveal_strlit(":");
    }
    push_two_digits(out, c.hour as u32);
    out.append(":");
    push_two_digits(out, c.minute as u32);
    out.append(":");
    push_two_digits(out, c.second as u32);
    proof {
        assert(":"@ =~= seq![':']);
        assert(final(out)@ =~= old(out)@ + time_chars(*c));
    }
}

fn push_offset(out: &mut String, c: &CivilDateTime)
    requires
        c.wf(),
    ensures
        final(out)@ == old(out)@ + offset_chars(*c),
{
    proof {
        reveal_strlit("UTC");
        reveal_strlit("+");
        reveal_strlit("-");
        reveal_strlit(":");
    }
    match c.zone {
        Zone::Utc => {
            out.append("UTC");
            proof {
                assert("UTC"@ =~= seq!['U', 'T', 'C']);
                assert(final(out)@ =~= old(out)@ + offset_chars(*c));
            }
        },
        _ => {
            let a: u32 = if c.offset_seconds < 0 {
                out.append("-");
                (-c.offset_seconds) as u32
            } else {
                out.append("+");
                c.offset_seconds as u32
            };
            proof {
                lemma_fundamental_div_mod_converse(86399, 60, 1439, 59);
                lemma_div_is_ordered(a as int, 86399, 60);
                lemma_fundamental_div_mod_converse(1439, 60, 23, 59);
                lemma_div_is_ordered(a as int / 60, 1439, 60);
            }
            let mins: u32 = a / 60;
            push_two_digits(out, mins / 60);
            out.append(":");
            push_two_digits(out, mins % 60);
            let sec: u32 = a % 60;
            if sec != 0 {
                out.append(":");
                push_two_digits(out, sec);
            }
            proof {
                assert("+"@ =~= seq!['+']);
                assert("-"@ =~= seq!['-']);
                assert(":"@ =~= seq![':']);
                assert(final(out)@ =~= old(out)@ + offset_chars(*c));
            }
        },
    }
}

impl EasyTime {
    /// The base time's date, `YYYY-MM-DD`.
    pub fn to_date(&self) -> (r: String)
        requires
            self.wf(),
        ensures
            r@ == date_chars(self.time_now),
    {
        let mut out = String::new();
        push_date(&mut out, &self.time_now);
        proof {
            assert(out@ =~= date_chars(self.time_now));
        }
        out
    }

    /// The base time's time of day, `HH:MM:SS`.
    pub fn to_time(&self) -> (r: String)
        requires
            self.wf(),
        ensures
            r@ == time_chars(self.time_now),
    {
        let mut out = String::new();
        push_time(&mut out, &self.time_now);
        proof {
            assert(out@ =~= time_chars(self.time_now));
        }
        out
    }

    /// The base time in the default layout, `YYYY-MM-DD HH:MM:SS`.
    pub fn to_date_time(&self) -> (r: String)
        requires
            self.wf(),
        ensures
            r@ == date_time_chars(self.time_now),
    {
        proof {
            reveal_strlit(" ");
        }
        let mut out = String::new();
        push_date(&mut out, &self.time_now);
        out.append(" ");
        push_time(&mut out, &self.time_now);
        proof {
            assert(" "@ =~= seq![' ']);
            assert(out@ =~= date_time_chars(self.time_now));
        }
        out
    }

    /// The default layout; same as `to_date_time`.
    pub fn to_string(&self) -> (r: String)
        requires
            self.wf(),
        ensures
            r@ == date_time_chars(self.time_now),
    {
        self.to_date_time()
    }

    /// The default layout followed by the zone suffix.
    pub fn to_string_with_timezone(&self) -> (r: String)
        requires
            self.wf(),
        ensures
            r@ == date_time_chars(self.time_now) + seq![' '] + offset_chars(self.time_now),
    {
        proof {
            reveal_strlit(" ");
        }
        let mut out = self.to_date_time();
        out.append(" ");
        push_offset(&mut out, &self.time_now);
        proof {
            assert(" "@ =~= seq![' ']);
            assert(out@ =~= date_time_chars(self.time_now) + seq![' '] + offset_chars(
                self.time_now,
            ));
        }
        out
    }

    /// The base time under a caller-supplied chrono format string; `None`
    /// when chrono rejects the format string.
    pub fn to_string_with_format(&self, format_str: &str) -> (r: Option<String>)
        requires
            self.wf(),
        ensures
            match r {
                Some(s) => custom_format_of(self.time_now, format_str@) == Some(s@),
                None => custom_format_of(self.time_now, format_str@) is None,
            },
    {
        format_naive(
            self.time_now.year,
            self.time_now.month,
            self.time_now.day,
            self.time_now.hour,
            self.time_now.minute,
            self.time_now.second,
            self.time_now.nanosecond,
            format_str,
        )
    }

    /// A caller-supplied format followed by the zone suffix.
    pub fn to_string_with_timezone_format(&self, format_str: &str) -> (r: Option<String>)
        requires
            self.wf(),
        ensures
            match r {
                Some(s) => (custom_format_of(self.time_now, format_str@) matches Some(body)
                    && s@ == body + seq![' '] + offset_chars(self.time_now)),
                None => custom_format_of(self.time_now, format_str@) is None,
            },
    {
        proof {
            reveal_strlit(" ");
        }
        match self.to_string_with_format(format_str) {
            Some(mut s) => {
                s.append(" ");
                push_offset(&mut s, &self.time_now);
                proof {
                    assert(" "@ =~= seq![' ']);
                }
                Some(s)
            },
            None => None,
        }
    }

    /// Kept for backward compatibility; same behaviour as
    /// `to_string_with_timezone_format`.
    pub fn to_string_with_timezone_format_with_timezone(&self, format_str: &str) -> (r: Option<
        String,
    >)
        requires
            self.wf(),
        ensures
            match r {
                Some(s) => (custom_format_of(self.time_now, format_str@) matches Some(body)
                    && s@ == body + seq![' '] + offset_chars(self.time_now)),
                None => custom_format_of(self.time_now, format_str@) is None,
            },
    {
        self.to_string_with_timezone_format(format_str)
    }

    /// A caller-supplied format followed by the zone suffix.
    pub fn to_date_time_with_timezone_format(&self, format_str: &str) -> (r: Option<String>)
        requires
            self.wf(),
        ensures
            match r {
                Some(s) => (custom_format_of(self.time_now, format_str@) matches Some(body)
                    && s@ == body + seq![' '] + offset_chars(self.time_now)),
                None => custom_format_of(self.time_now, format_str@) is None,
            },
    {
        self.to_string_with_timezone_format(format_str)
    }
}

} // verus!
