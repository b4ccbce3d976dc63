//! Decimal and time formatting for table cells: integers rendered in decimal,
//! durations in seconds with one decimal place, and timestamps either as a
//! relative `"<N>s ago"` or as an absolute `HH:MM:SS` wall-clock string.

use vstd::prelude::*;
use vstd::string::StrSliceExecFns;
use vstd::string::StringExecFns;
use jiff::Timestamp;

verus! {

/// Smallest millisecond count since the Unix epoch that a timestamp can carry.
pub const TS_MIN_MS: i64 = -377705023201000;

/// Largest millisecond count since the Unix epoch that a timestamp can carry.
pub const TS_MAX_MS: i64 = 253402207200999;

/// The decimal digit character for a value below ten.
pub open spec fn spec_digit(d: nat) -> char {
    if d == 0 {
        '0'
    } else if d == 1 {
        '1'
    } else if d == 2 {
        '2'
    } else if d == 3 {
        '3'
    } else if d == 4 {
        '4'
    } else if d == 5 {
        '5'
    } else if d == 6 {
        '6'
    } else if d == 7 {
        '7'
    } else if d == 8 {
        '8'
    } else {
        '9'
    }
}

/// The decimal rendering of a natural number, most significant digit first,
/// with no leading zeros (zero itself renders as "0").
pub open spec fn spec_u64_string(n: nat) -> Seq<char>
    decreases n,
{
    if n < 10 {
        seq![spec_digit(n)]
    } else {
        spec_u64_string(n / 10) + seq![spec_digit(n % 10)]
    }
}

fn digit_str(d: u64) -> (r: &'static str)
    requires
        d < 10,
    ensures
        r@ == seq![spec_digit(d as nat)],
{
    proof {
        reveal_strlit("0");
        reveal_strlit("1");
        reveal_strlit("2");
        reveal_strlit("3");
        reveal_strlit("4");
        reveal_strlit("5");
        reveal_strlit("6");
        reveal_strlit("7");
        reveal_strlit("8");
        reveal_strlit("9");
    }
    let r: &'static str = if d == 0 {
        "0"
    } else if d == 1 {
        "1"
    } else if d == 2 {
        "2"
    } else if d == 3 {
        "3"
    } else if d == 4 {
        "4"
    } else if d == 5 {
        "5"
    } else if d == 6 {
        "6"
    } else if d == 7 {
        "7"
    } else if d == 8 {
        "8"
    } else {
        "9"
    };
    proof {
        assert(r@ =~= seq![spec_digit(d as nat)]);
    }
    r
}

/// Render a number in decimal.
pub fn u64_string(n: u64) -> (s: String)
    ensures
        s@ == spec_u64_string(n as nat),
    decreases n,
{
    if n < 10 {
        digit_str(n).to_owned()
    } else {
        let mut s = u64_string(n / 10);
        s.append(digit_str(n % 10));
        s
    }
}

/// A duration in whole milliseconds rendered as seconds with one decimal
/// place and an "s" suffix, the tenths rounded half-up.
pub open spec fn spec_format_duration(ms: nat) -> Seq<char> {
    spec_u64_string((ms + 50) / 100 / 10) + seq!['.'] + seq![spec_digit((ms + 50) / 100 % 10)]
        + seq!['s']
}

/// Render a millisecond duration as seconds with one decimal place, e.g.
/// 1500 renders as "1.5s".
pub fn format_duration(duration: u32) -> (s: String)
    ensures
        s@ == spec_format_duration(duration as nat),
{
    let tenths: u64 = (duration as u64 + 50) / 100;
    let mut s = u64_string(tenths / 10);
    s.append(".");
    s.append(digit_str(tenths % 10));
    s.append("s");
    proof {
        reveal_strlit(".");
        reveal_strlit("s");
        assert("."@ =~= seq!['.']);
        assert("s"@ =~= seq!['s']);
    }
    s
}

/// A number below one hundred rendered as exactly two decimal digits.
pub open spec fn spec_two_digits(n: nat) -> Seq<char> {
    seq![spec_digit(n / 10), spec_digit(n % 10)]
}

/// The `HH:MM:SS` wall-clock string, in UTC, of an instant given as
/// milliseconds since the Unix epoch (negative values reach back before it).
pub open spec fn spec_hms(ms: int) -> Seq<char> {
    let sod = (ms / 1000) % 86400;
    spec_two_digits((sod / 3600) as nat) + seq![':'] + spec_two_digits((sod / 60 % 60) as nat)
        + seq![':'] + spec_two_digits((sod % 60) as nat)
}

/// Relies on jiff's `Timestamp::from_millisecond` and `Timestamp::strftime`:
/// a timestamp carries no zone, so "%H:%M:%S" renders the wall-clock time of
/// its instant in UTC, each field zero-padded to two digits. The
/// construction only fails above `TS_MAX_MS - 999`, where the fallback
/// `Timestamp::MAX` holds the same whole second and so the same wall-clock
/// reading.
#[verifier::external_body]
pub(crate) fn hms_string(ms: i64) -> (s: String)
    requires
        TS_MIN_MS <= ms <= TS_MAX_MS,
    ensures
        s@ == spec_hms(ms as int),
{
    let ts = Timestamp::from_millisecond(ms).unwrap_or(Timestamp::MAX);
    ts.strftime("%H:%M:%S").to_string()
}

/// A record timestamp rendered relative to `now`: `"<N>s ago"` (N the
/// elapsed seconds rounded half-up) while strictly less than ten seconds
/// have elapsed, and the absolute `HH:MM:SS` of the record otherwise.
pub open spec fn spec_format_time_relative(created_on: int, now: int) -> Seq<char> {
    if 0 <= now - created_on < 10000 {
        spec_u64_string(((now - created_on + 500) / 1000) as nat) + seq!['s', ' ', 'a', 'g', 'o']
    } else {
        spec_hms(created_on)
    }
}

/// Render a record timestamp for the time column, relative to `now` (both in
/// milliseconds since the Unix epoch).
pub fn format_time_relative(created_on: i64, now: i64) -> (s: String)
    requires
        TS_MIN_MS <= created_on <= TS_MAX_MS,
        TS_MIN_MS <= now <= TS_MAX_MS,
    ensures
        s@ == spec_format_time_relative(created_on as int, now as int),
{
    if now >= created_on && now - created_on < 10000 {
        let n: i64 = (now - created_on + 500) / 1000;
        let mut s = u64_string(n as u64);
        s.append("s ago");
        proof {
            reveal_strlit("s ago");
            assert("s ago"@ =~= seq!['s', ' ', 'a', 'g', 'o']);
        }
        s
    } else {
        hms_string(created_on)
    }
}

} // verus!
