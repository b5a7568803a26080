//! Decimal rendering of the counter and the clock reading into the two
//! text lines the display shows.

use vstd::prelude::*;

verus! {

/// The decimal digit character for a digit value below ten.
pub open spec fn digit_char(d: nat) -> char {
    if d == 0 {
        '0'
    } else if d == 1 {
        '1'
    } else if d == 2 {
        '2'
    } else if d == 3 {
        '3'
    } else if d == 4 {
        '4'
    } else if d == 5 {
        '5'
    } else if d == 6 {
        '6'
    } else if d == 7 {
        '7'
    } else if d == 8 {
        '8'
    } else {
        '9'
    }
}

/// The decimal rendering of `n`, most significant digit first, with no
/// leading zeros (zero renders as the single digit `0`).
pub open spec fn decimal_digits(n: nat) -> Seq<char>
    decreases n,
{
    if n < 10 {
        seq![digit_char(n)]
    } else {
        decimal_digits(n / 10) + seq![digit_char(n % 10)]
    }
}

/// The full time line: the fixed prefix followed by the seconds reading.
pub open spec fn time_text(secs: nat) -> Seq<char> {
    "time: "@ + decimal_digits(secs)
}

/// The full counter line: the fixed prefix followed by the counter value.
pub open spec fn counter_text(count: nat) -> Seq<char> {
    "counter: "@ + decimal_digits(count)
}

/// The one-character string for a digit value below ten.
fn digit_str(d: u64) -> (s: &'static str)
    requires
        d < 10,
    ensures
        s@ =~= seq![digit_char(d as nat)],
{
    proof {
        reveal_strlit("0");
        reveal_strlit("1");
        reveal_strlit("2");
        reveal_strlit("3");
        reveal_strlit("4");
        reveal_strlit("5");
        reveal_strlit("6");
        reveal_strlit("7");
        reveal_strlit("8");
        reveal_strlit("9");
    }
    if d == 0 {
        "0"
    } else if d == 1 {
        "1"
    } else if d == 2 {
        "2"
    } else if d == 3 {
        "3"
    } else if d == 4 {
        "4"
    } else if d == 5 {
        "5"
    } else if d == 6 {
        "6"
    } else if d == 7 {
        "7"
    } else if d == 8 {
        "8"
    } else {
        "9"
    }
}

/// Append the decimal rendering of `n` to `out`.
fn push_decimal(out: &mut String, n: u64)
    ensures
        final(out)@ == old(out)@ + decimal_digits(n as nat),
    decreases n,
{
    if n < 10 {
        out.append(digit_str(n));
        proof {
            assert(out@ =~= old(out)@ + decimal_digits(n as nat));
        }
    } else {
        assert(n / 10 < n) by (nonlinear_arith)
            requires
                n >= 10,
        ;
        push_decimal(out, n / 10);
        out.append(digit_str(n % 10));
        proof {
            assert(out@ =~= old(out)@ + decimal_digits(n as nat));
        }
    }
}

/// The decimal rendering of `n` as an owned string.
pub fn u64_to_decimal(n: u64) -> (s: String)
    ensures
        s@ == decimal_digits(n as nat),
{
    let mut s = String::new();
    push_decimal(&mut s, n);
    proof {
        assert(s@ =~= decimal_digits(n as nat));
    }
    s
}

/// The rendered time line for a seconds reading.
pub fn render_time_line(secs: u64) -> (s: String)
    ensures
        s@ == time_text(secs as nat),
{
    let mut s = String::from_str("time: ");
    push_decimal(&mut s, secs);
    s
}

/// The rendered counter line for a counter value.
pub fn render_counter_line(count: u64) -> (s: String)
    ensures
        s@ == counter_text(count as nat),
{
    let mut s = String::from_str("counter: ");
    push_decimal(&mut s, count);
    s
}

} // verus!
