//! Human-readable formatting of byte counts and durations, built from a
//! verified decimal renderer.

use vstd::prelude::*;
use vstd::arithmetic::div_mod::lemma_div_is_ordered;
use vstd::arithmetic::div_mod::lemma_div_is_ordered_by_denominator;

verus! {

/// One kibibyte.
pub const KB: u64 = 1024;

/// One mebibyte.
pub const MB: u64 = 1024 * 1024;

/// One gibibyte.
pub const GB: u64 = 1024 * 1024 * 1024;

/// The character of one decimal digit.
pub open spec fn spec_digit_char(d: int) -> char {
    if d == 0 {
        '0'
    } else if d == 1 {
        '1'
    } else if d == 2 {
        '2'
    } else if d == 3 {
        '3'
    } else if d == 4 {
        '4'
    } else if d == 5 {
        '5'
    } else if d == 6 {
        '6'
    } else if d == 7 {
        '7'
    } else if d == 8 {
        '8'
    } else {
        '9'
    }
}

/// The decimal digits of a number, most significant first.
pub open spec fn spec_dec_digits(n: nat) -> Seq<char>
    decreases n,
{
    if n < 10 {
        seq![spec_digit_char(n as int)]
    } else {
        spec_dec_digits(n / 10) + seq![spec_digit_char((n % 10) as int)]
    }
}

/// A value scaled by a unit, rendered with two decimals: the whole part,
/// a point, and the remainder in hundredths rounded half-up, with the
/// carry of a remainder that rounds up to a whole unit.
pub open spec fn spec_scaled_chars(v: int, unit: int) -> Seq<char>
    recommends
        unit >= 1024,
        v >= 0,
{
    let whole = v / unit;
    let frac = ((v % unit) * 100 + unit / 2) / unit;
    let carried_whole = if frac >= 100 {
        whole + 1
    } else {
        whole
    };
    let carried_frac = if frac >= 100 {
        frac - 100
    } else {
        frac
    };
    spec_dec_digits(carried_whole as nat) + "."@ + seq![
        spec_digit_char(carried_frac / 10),
        spec_digit_char(carried_frac % 10),
    ]
}

/// A byte count rendered for display: scaled to the largest of GB, MB and
/// KB that it reaches, with two decimals, or as plain bytes below one KB.
pub open spec fn spec_format_bytes(bytes: u64) -> Seq<char> {
    if bytes >= GB {
        spec_scaled_chars(bytes as int, GB as int) + " GB"@
    } else if bytes >= MB {
        spec_scaled_chars(bytes as int, MB as int) + " MB"@
    } else if bytes >= KB {
        spec_scaled_chars(bytes as int, KB as int) + " KB"@
    } else {
        spec_dec_digits(bytes as nat) + " B"@
    }
}

/// A duration in whole seconds rendered for display: seconds below a
/// minute, minutes and seconds below an hour, hours and minutes beyond.
pub open spec fn spec_format_duration(secs: u64) -> Seq<char> {
    if secs < 60 {
        spec_dec_digits(secs as nat) + "s"@
    } else if secs < 3600 {
        spec_dec_digits((secs / 60) as nat) + "m "@ + spec_dec_digits((secs % 60) as nat) + "s"@
    } else {
        spec_dec_digits((secs / 3600) as nat) + "h "@ + spec_dec_digits(
            ((secs % 3600) / 60) as nat,
        ) + "m"@
    }
}

fn digit_str(d: u64) -> (s: &'static str)
    requires
        d < 10,
    ensures
        s@ == seq![spec_digit_char(d as int)],
{
    proof {
        reveal_strlit("0");
        reveal_strlit("1");
        reveal_strlit("2");
        reveal_strlit("3");
        reveal_strlit("4");
        reveal_strlit("5");
        reveal_strlit("6");
        reveal_strlit("7");
        reveal_strlit("8");
        reveal_strlit("9");
    }
    match d {
        0 => "0",
        1 => "1",
        2 => "2",
        3 => "3",
        4 => "4",
        5 => "5",
        6 => "6",
        7 => "7",
        8 => "8",
        _ => "9",
    }
}

/// Renders a number in decimal.
pub fn u64_to_string(n: u64) -> (s: String)
    ensures
        s@ == spec_dec_digits(n as nat),
    decreases n,
{
    if n < 10 {
        String::from_str(digit_str(n))
    } else {
        let mut s = u64_to_string(n / 10);
        s.append(digit_str(n % 10));
        s
    }
}

fn scaled_string(v: u64, unit: u64, suffix: &str) -> (s: String)
    requires
        1024 <= unit <= GB,
    ensures
        s@ == spec_scaled_chars(v as int, unit as int) + suffix@,
{
    let whole = v / unit;
    let rem = v % unit;
    let frac = (rem * 100 + unit / 2) / unit;
    proof {
        lemma_div_is_ordered_by_denominator(v as int, 1024, unit as int);
        lemma_div_is_ordered(v as int, u64::MAX as int, 1024);
        assert((rem * 100 + unit / 2) < unit * 101) by (nonlinear_arith)
            requires
                rem < unit,
                unit >= 1024,
        ;
        vstd::arithmetic::div_mod::lemma_multiply_divide_lt(
            (rem * 100 + unit / 2) as int,
            unit as int,
            101,
        );
    }
    let (carried_whole, carried_frac) = if frac >= 100 {
        (whole + 1, frac - 100)
    } else {
        (whole, frac)
    };
    let mut s = u64_to_string(carried_whole);
    s.append(".");
    s.append(digit_str(carried_frac / 10));
    s.append(digit_str(carried_frac % 10));
    s.append(suffix);
    s
}

/// Renders a byte count for display.
pub fn format_bytes(bytes: u64) -> (s: String)
    ensures
        s@ == spec_format_bytes(bytes),
{
    if bytes >= GB {
        scaled_string(bytes, GB, " GB")
    } else if bytes >= MB {
        scaled_string(bytes, MB, " MB")
    } else if bytes >= KB {
        scaled_string(bytes, KB, " KB")
    } else {
        let mut s = u64_to_string(bytes);
        s.append(" B");
        s
    }
}

/// A rate in bytes per second rendered for display: scaled like a byte
/// count, always with two decimals, and a per-second suffix.
pub open spec fn spec_format_bytes_per_sec(rate: u64) -> Seq<char> {
    if rate >= GB {
        spec_scaled_chars(rate as int, GB as int) + " GB/s"@
    } else if rate >= MB {
        spec_scaled_chars(rate as int, MB as int) + " MB/s"@
    } else if rate >= KB {
        spec_scaled_chars(rate as int, KB as int) + " KB/s"@
    } else {
        spec_dec_digits(rate as nat) + ".00 B/s"@
    }
}

/// Renders a rate in bytes per second for display.
pub fn format_bytes_per_sec(bytes_per_sec: u64) -> (s: String)
    ensures
        s@ == spec_format_bytes_per_sec(bytes_per_sec),
{
    if bytes_per_sec >= GB {
        scaled_string(bytes_per_sec, GB, " GB/s")
    } else if bytes_per_sec >= MB {
        scaled_string(bytes_per_sec, MB, " MB/s")
    } else if bytes_per_sec >= KB {
        scaled_string(bytes_per_sec, KB, " KB/s")
    } else {
        let mut s = u64_to_string(bytes_per_sec);
        s.append(".00 B/s");
        s
    }
}

/// Renders a duration in whole seconds for display.
pub fn format_duration(secs: u64) -> (s: String)
    ensures
        s@ == spec_format_duration(secs),
{
    if secs < 60 {
        let mut s = u64_to_string(secs);
        s.append("s");
        s
    } else if secs < 3600 {
        let mut s = u64_to_string(secs / 60);
        s.append("m ");
        let tail = u64_to_string(secs % 60);
        s.append(tail.as_str());
        s.append("s");
        s
    } else {
        let mut s = u64_to_string(secs / 3600);
        s.append("h ");
        let tail = u64_to_string((secs % 3600) / 60);
        s.append(tail.as_str());
        s.append("m");
        s
    }
}

/// Law: a rendered decimal number never starts with a superfluous zero —
/// only the number zero itself starts with the zero digit.
pub proof fn lemma_no_leading_zero(n: u64)
    ensures
        spec_dec_digits(n as nat).len() >= 1,
        n > 0 ==> spec_dec_digits(n as nat)[0] != '0',
    decreases n,
{
    if n >= 10 {
        lemma_no_leading_zero(n / 10);
        assert(spec_dec_digits(n as nat)[0] == spec_dec_digits((n / 10) as nat)[0]);
    }
}

} // verus!
