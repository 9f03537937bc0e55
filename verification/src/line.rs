//! The text form of a log entry: one line per entry.
//!
//! A line holds six fields, separated by a comma and a space: mission-elapsed time in
//! seconds with three decimals, the phase's name, the altitude with one decimal, and the
//! acceleration along x, y and z with two decimals each, as in
//! `12.345, WaitPeak, 104.2, 0.12, -0.03, 1.01`. A value is rounded to the nearest
//! number that its decimals can show, and to the even one of two that are equally
//! near. A value below zero keeps its sign even where it rounds to zero.

use crate::telemetry::LogEntry;
use vstd::prelude::*;
use vstd::string::StringExecFns;

verus! {

/// The character of a decimal digit.
pub open spec fn digit_char(d: nat) -> char {
    if d == 0 {
        '0'
    } else if d == 1 {
        '1'
    } else if d == 2 {
        '2'
    } else if d == 3 {
        '3'
    } else if d == 4 {
        '4'
    } else if d == 5 {
        '5'
    } else if d == 6 {
        '6'
    } else if d == 7 {
        '7'
    } else if d == 8 {
        '8'
    } else {
        '9'
    }
}

/// `n` in decimal, without leading zeros.
pub open spec fn decimal(n: nat) -> Seq<char>
    decreases n,
{
    if n < 10 {
        seq![digit_char(n)]
    } else {
        decimal(n / 10).push(digit_char(n % 10))
    }
}

/// The lowest `places` decimal digits of `n`, with leading zeros.
pub open spec fn padded(n: nat, places: nat) -> Seq<char>
    decreases places,
{
    if places == 0 {
        Seq::empty()
    } else {
        padded(n / 10, (places - 1) as nat).push(digit_char(n % 10))
    }
}

/// Ten to the power of `k`.
pub open spec fn pow10(k: nat) -> nat
    decreases k,
{
    if k == 0 {
        1
    } else {
        10 * pow10((k - 1) as nat)
    }
}

/// `n` over `unit`, rounded to the nearest whole number and to the even one where two
/// are equally near.
pub open spec fn nearest(n: nat, unit: nat) -> nat {
    let q = n / unit;
    let r = n % unit;
    if 2 * r > unit || (2 * r == unit && q % 2 == 1) {
        q + 1
    } else {
        q
    }
}

/// `value` written with `places` decimals, where `unit` counts of `value` make up one
/// step of the last decimal.
pub open spec fn fixed_point(value: int, unit: nat, places: nat) -> Seq<char> {
    let shown = nearest(vstd::math::abs(value), unit);
    let sign: Seq<char> = if value < 0 {
        seq!['-']
    } else {
        Seq::empty()
    };
    sign + decimal(shown / pow10(places)) + seq!['.'] + padded(shown % pow10(places), places)
}

/// Nanoseconds in a millisecond, the last decimal of a time in seconds.
pub const MET_UNIT: u64 = 1_000_000;

/// Thousandths in a tenth, the last decimal of an altitude.
pub const ALT_UNIT: u64 = 100;

/// Thousandths in a hundredth, the last decimal of an acceleration.
pub const ACCEL_UNIT: u64 = 10;

/// The line for `entry`.
pub open spec fn line_of(entry: LogEntry) -> Seq<char> {
    fixed_point(entry.met as int, MET_UNIT as nat, 3) + ", "@ + entry.status.name_spec() + ", "@
        + fixed_point(entry.alt as int, ALT_UNIT as nat, 1) + ", "@ + fixed_point(
        entry.accel.0 as int,
        ACCEL_UNIT as nat,
        2,
    ) + ", "@ + fixed_point(entry.accel.1 as int, ACCEL_UNIT as nat, 2) + ", "@ + fixed_point(
        entry.accel.2 as int,
        ACCEL_UNIT as nat,
        2,
    )
}

fn digit_str(d: u64) -> (s: &'static str)
    requires
        d < 10,
    ensures
        s@ == seq![digit_char(d as nat)],
{
    proof {
        reveal_strlit("0");
        reveal_strlit("1");
        reveal_strlit("2");
        reveal_strlit("3");
        reveal_strlit("4");
        reveal_strlit("5");
        reveal_strlit("6");
        reveal_strlit("7");
        reveal_strlit("8");
        reveal_strlit("9");
    }
    let s = if d == 0 {
        "0"
    } else if d == 1 {
        "1"
    } else if d == 2 {
        "2"
    } else if d == 3 {
        "3"
    } else if d == 4 {
        "4"
    } else if d == 5 {
        "5"
    } else if d == 6 {
        "6"
    } else if d == 7 {
        "7"
    } else if d == 8 {
        "8"
    } else {
        "9"
    };
    s
}

fn append_decimal(out: &mut String, n: u64)
    ensures
        final(out)@ == old(out)@ + decimal(n as nat),
    decreases n,
{
    if n >= 10 {
        append_decimal(out, n / 10);
    }
    out.append(digit_str(n % 10));
}

fn append_padded(out: &mut String, n: u64, places: u32)
    ensures
        final(out)@ == old(out)@ + padded(n as nat, places as nat),
    decreases places,
{
    if places > 0 {
        append_padded(out, n / 10, places - 1);
        out.append(digit_str(n % 10));
    }
}

fn power_of_ten(places: u32) -> (p: u64)
    requires
        places <= 3,
    ensures
        p == pow10(places as nat),
        1 <= p <= 1000,
{
    proof {
        reveal_with_fuel(pow10, 4);
    }
    if places == 0 {
        1
    } else if places == 1 {
        10
    } else if places == 2 {
        100
    } else {
        1000
    }
}

fn round_nearest(n: u64, unit: u64) -> (shown: u64)
    requires
        unit >= 2,
    ensures
        shown == nearest(n as nat, unit as nat),
{
    let q = n / unit;
    let r = n % unit;
    let rest = unit - r;
    assert(q < u64::MAX) by (nonlinear_arith)
        requires
            q == n / unit,
            unit >= 2,
            n <= u64::MAX,
    ;
    if r > rest || (r == rest && q % 2 == 1) {
        q + 1
    } else {
        q
    }
}

fn append_fixed(out: &mut String, negative: bool, magnitude: u64, unit: u64, places: u32)
    requires
        unit >= 2,
        places <= 3,
        negative ==> magnitude > 0,
    ensures
        final(out)@ == old(out)@ + fixed_point(
            if negative {
                -(magnitude as int)
            } else {
                magnitude as int
            },
            unit as nat,
            places as nat,
        ),
{
    let shown = round_nearest(magnitude, unit);
    let whole = power_of_ten(places);
    if negative {
        out.append("-");
        proof {
            reveal_strlit("-");
        }
    }
    append_decimal(out, shown / whole);
    out.append(".");
    proof {
        reveal_strlit(".");
    }
    append_padded(out, shown % whole, places);
    assert(out@ =~= old(out)@ + fixed_point(
        if negative {
            -(magnitude as int)
        } else {
            magnitude as int
        },
        unit as nat,
        places as nat,
    ));
}

fn append_reading(out: &mut String, value: i32, unit: u64, places: u32)
    requires
        unit >= 2,
        places <= 3,
    ensures
        final(out)@ == old(out)@ + fixed_point(value as int, unit as nat, places as nat),
{
    let wide = value as i64;
    if wide < 0 {
        append_fixed(out, true, (-wide) as u64, unit, places);
    } else {
        append_fixed(out, false, wide as u64, unit, places);
    }
}

impl LogEntry {
    /// Writes the entry as one line of text, without a line end.
    pub fn to_line(&self) -> (line: String)
        ensures
            line@ == line_of(*self),
    {
        let mut line = String::new();
        append_fixed(&mut line, false, self.met, MET_UNIT, 3);
        line.append(", ");
        line.append(self.status.name());
        line.append(", ");
        append_reading(&mut line, self.alt, ALT_UNIT, 1);
        line.append(", ");
        append_reading(&mut line, self.accel.0, ACCEL_UNIT, 2);
        line.append(", ");
        append_reading(&mut line, self.accel.1, ACCEL_UNIT, 2);
        line.append(", ");
        append_reading(&mut line, self.accel.2, ACCEL_UNIT, 2);
        line
    }
}

} // verus!
