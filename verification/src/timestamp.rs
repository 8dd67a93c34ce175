//! Rendering a track duration as a `minutes:seconds` label.
//!
//! A duration in milliseconds becomes whole minutes and the leftover
//! seconds, each zero-padded to two digits; minutes beyond two digits keep
//! their full decimal form.

use vstd::prelude::*;

verus! {

/// The decimal digit character for `d`.
pub open spec fn digit_char(d: int) -> char
    recommends
        0 <= d < 10,
{
    if d == 0 {
        '0'
    } else if d == 1 {
        '1'
    } else if d == 2 {
        '2'
    } else if d == 3 {
        '3'
    } else if d == 4 {
        '4'
    } else if d == 5 {
        '5'
    } else if d == 6 {
        '6'
    } else if d == 7 {
        '7'
    } else if d == 8 {
        '8'
    } else {
        '9'
    }
}

/// The decimal digits of `n`, most significant first, with no leading zero
/// except for zero itself.
pub open spec fn decimal_digits(n: nat) -> Seq<char>
    decreases n,
{
    if n < 10 {
        seq![digit_char(n as int)]
    } else {
        decimal_digits(n / 10) + seq![digit_char((n % 10) as int)]
    }
}

/// `n` as exactly two digits, zero-padded.
pub open spec fn two_digits(n: nat) -> Seq<char>
    recommends
        n < 100,
{
    seq![digit_char((n / 10) as int), digit_char((n % 10) as int)]
}

/// The minutes field: zero-padded to two digits, wider only when the
/// number needs more.
pub open spec fn minutes_field(m: nat) -> Seq<char> {
    if m < 100 {
        two_digits(m)
    } else {
        decimal_digits(m)
    }
}

/// The label for a duration of `ms` milliseconds: whole minutes, a colon,
/// then the leftover seconds as two digits.
pub open spec fn timestamp_label(ms: nat) -> Seq<char> {
    minutes_field(ms / 60000) + seq![':'] + two_digits((ms / 1000) % 60)
}

/// The one-character string of the decimal digit `d`.
fn digit_str(d: u64) -> (s: &'static str)
    requires
        d < 10,
    ensures
        s@ == seq![digit_char(d as int)],
{
    proof {
        reveal_strlit("0");
        reveal_strlit("1");
        reveal_strlit("2");
        reveal_strlit("3");
        reveal_strlit("4");
        reveal_strlit("5");
        reveal_strlit("6");
        reveal_strlit("7");
        reveal_strlit("8");
        reveal_strlit("9");
    }
    let s = match d {
        0 => "0",
        1 => "1",
        2 => "2",
        3 => "3",
        4 => "4",
        5 => "5",
        6 => "6",
        7 => "7",
        8 => "8",
        _ => "9",
    };
    proof {
        assert(s@ =~= seq![digit_char(d as int)]);
    }
    s
}

/// Append the full decimal form of `n`.
fn push_decimal(out: &mut String, n: u64)
    ensures
        final(out)@ == old(out)@ + decimal_digits(n as nat),
    decreases n,
{
    if n >= 10 {
        push_decimal(out, n / 10);
    }
    let ghost before = out@;
    out.append(digit_str(n % 10));
    proof {
        if n < 10 {
            assert(n % 10 == n) by (nonlinear_arith)
                requires
                    0 <= n < 10,
            ;
            assert(out@ =~= old(out)@ + decimal_digits(n as nat));
        } else {
            assert(out@ =~= old(out)@ + decimal_digits(n as nat));
        }
    }
}

/// Append `n` as exactly two digits, zero-padded.
fn push_two_digits(out: &mut String, n: u64)
    requires
        n < 100,
    ensures
        final(out)@ == old(out)@ + two_digits(n as nat),
{
    let tens = n / 10;
    let ones = n % 10;
    out.append(digit_str(tens));
    out.append(digit_str(ones));
    proof {
        assert(out@ =~= old(out)@ + two_digits(n as nat));
    }
}

/// The `minutes:seconds` label of a duration given in milliseconds:
/// minutes zero-padded to at least two digits, a colon, then the leftover
/// seconds as exactly two digits.
pub fn display_timestamp(ms: u64) -> (s: String)
    ensures
        s@ == timestamp_label(ms as nat),
{
    let minutes = ms / 60000;
    let seconds = (ms / 1000) % 60;
    let mut out = String::new();
    if minutes < 100 {
        push_two_digits(&mut out, minutes);
    } else {
        push_decimal(&mut out, minutes);
    }
    proof {
        reveal_strlit(":");
    }
    out.append(":");
    push_two_digits(&mut out, seconds);
    proof {
        assert((":")@ =~= seq![':']);
        assert(out@ =~= timestamp_label(ms as nat));
    }
    out
}

} // verus!
