//! The altitude trend over a trailing window of the telemetry log.
//!
//! The trend is an average of pairwise slopes, not one slope from the window's first
//! entry to its last. Every two neighbouring entries of the window give one slope, the
//! slopes are summed, and the sum is divided by the size of the window (one more than
//! the number of pairs). Slopes are held in thousandths of an altitude unit per second
//! and each quotient is cut toward zero. The division by the window's size is never
//! carried out: an average is compared with a rate by comparing the sum with the rate
//! times the size, which loses nothing.

use crate::telemetry::LogEntry;
use vstd::arithmetic::div_mod::*;
use vstd::math::abs;
use vstd::prelude::*;

verus! {

/// Nanoseconds in one second.
pub const NANOS_PER_SECOND: u64 = 1_000_000_000;

/// The slope between two neighbouring entries, in thousandths of an altitude unit per
/// second: the altitude gained from `older` to `newer` over the time between them, cut
/// toward zero. Time is told apart down to one nanosecond, so two entries that bear the
/// same time are taken to lie one nanosecond apart.
pub open spec fn pair_slope(newer: LogEntry, older: LogEntry) -> int {
    let rise = newer.alt - older.alt;
    let run = newer.met - older.met;
    let span = if run == 0 {
        1
    } else {
        abs(run)
    };
    let size = (abs(rise) * NANOS_PER_SECOND) / (span as int);
    if (rise < 0) != (run < 0) {
        -size
    } else {
        size
    }
}

/// The sum of the slopes of all neighbouring pairs of a window that runs newest first.
pub open spec fn slope_sum(window: Seq<LogEntry>) -> int
    decreases window.len(),
{
    if window.len() < 2 {
        0
    } else {
        slope_sum(window.drop_last()) + pair_slope(
            window[window.len() - 2],
            window[window.len() - 1],
        )
    }
}

/// The average slope of the window, its slope sum over a `size` above zero, lies below
/// `rate`.
pub open spec fn average_below(window: Seq<LogEntry>, size: nat, rate: int) -> bool {
    slope_sum(window) < rate * size
}

/// The average slope of the window is exactly zero.
pub open spec fn average_level(window: Seq<LogEntry>) -> bool {
    slope_sum(window) == 0
}

/// `newer` lies later than `older`, and from one to the other the altitude changed at
/// exactly `rate` thousandths of an altitude unit per second.
pub open spec fn steady_pair(newer: LogEntry, older: LogEntry, rate: int) -> bool {
    &&& newer.met > older.met
    &&& (newer.alt - older.alt) * NANOS_PER_SECOND == rate * (newer.met - older.met)
}

/// The altitude changes at exactly `rate` between all neighbours of the window, which
/// runs newest first with no two entries at the same time.
pub open spec fn linear(window: Seq<LogEntry>, rate: int) -> bool {
    forall|i: int, j: int|
        0 <= i && j == i + 1 && j < window.len() ==> steady_pair(
            #[trigger] window[i],
            #[trigger] window[j],
            rate,
        )
}

/// All entries of the window hold the same altitude.
pub open spec fn level(window: Seq<LogEntry>) -> bool {
    forall|i: int| 0 <= i < window.len() ==> (#[trigger] window[i]).alt == window[0].alt
}

/// Computes the slope between two neighbouring entries.
pub fn slope_between(newer: &LogEntry, older: &LogEntry) -> (slope: i64)
    ensures
        slope == pair_slope(*newer, *older),
{
    let backwards = newer.met < older.met;
    let span: u64 = if newer.met == older.met {
        1
    } else if backwards {
        older.met - newer.met
    } else {
        newer.met - older.met
    };
    let falling = newer.alt < older.alt;
    let height: u64 = if falling {
        (older.alt as i64 - newer.alt as i64) as u64
    } else {
        (newer.alt as i64 - older.alt as i64) as u64
    };
    let scaled: u64 = height * NANOS_PER_SECOND;
    proof {
        lemma_div_is_ordered_by_denominator(scaled as int, 1, span as int);
    }
    let size = (scaled / span) as i64;
    if falling != backwards {
        -size
    } else {
        size
    }
}

/// Sums the slopes of all neighbouring pairs of a window that runs newest first.
pub fn slope_total(window: &Vec<LogEntry>) -> (sum: i128)
    ensures
        sum == slope_sum(window@),
{
    let n = window.len();
    let mut sum: i128 = 0;
    if n < 2 {
        return sum;
    }
    let mut i: usize = 1;
    while i < n
        invariant
            n == window@.len(),
            1 <= i <= n,
            sum == slope_sum(window@.take(i as int)),
            -(i * 0x8000_0000_0000_0000) <= sum <= i * 0x8000_0000_0000_0000,
        decreases n - i,
    {
        let slope = slope_between(&window[i - 1], &window[i]);
        proof {
            let grown = window@.take(i + 1);
            assert(grown.drop_last() =~= window@.take(i as int));
        }
        sum = sum + slope as i128;
        i += 1;
    }
    assert(window@.take(n as int) =~= window@);
    sum
}

/// Whether the average slope of the window, its slope sum over `size`, lies below
/// `rate` thousandths of an altitude unit per second.
pub fn average_slope_below(window: &Vec<LogEntry>, size: usize, rate: i64) -> (below: bool)
    ensures
        below == average_below(window@, size as nat, rate as int),
{
    let sum = slope_total(window);
    assert(-0x8000_0000_0000_0000 * 0xffff_ffff_ffff_ffff <= rate * size
        <= 0x8000_0000_0000_0000 * 0xffff_ffff_ffff_ffff) by (nonlinear_arith)
        requires
            -0x8000_0000_0000_0000 <= rate < 0x8000_0000_0000_0000,
            0 <= size < 0x1_0000_0000_0000_0000,
    ;
    sum < (rate as i128) * (size as i128)
}

/// Whether the average slope of the window is exactly zero.
pub fn average_slope_level(window: &Vec<LogEntry>) -> (is_level: bool)
    ensures
        is_level == average_level(window@),
{
    slope_total(window) == 0
}

/// Where the altitude changes at one exact rate between all neighbours of a window,
/// however unevenly the samples are spaced, every pairwise slope is that rate and the
/// sum is the rate times the number of pairs. The average over the window's size then
/// differs from the rate by the rate over the size.
pub proof fn lemma_linear_trend(window: Seq<LogEntry>, rate: int)
    requires
        linear(window, rate),
    ensures
        window.len() >= 1 ==> slope_sum(window) == rate * (window.len() - 1),
        window.len() == 0 ==> slope_sum(window) == 0,
    decreases window.len(),
{
    if window.len() >= 2 {
        let n = window.len() as int;
        let front = window.drop_last();
        assert(linear(front, rate)) by {
            assert forall|i: int, j: int|
                0 <= i && j == i + 1 && j < front.len() implies steady_pair(
                #[trigger] front[i],
                #[trigger] front[j],
                rate,
            ) by {
                assert(steady_pair(window[i], window[j], rate));
            }
        }
        lemma_linear_trend(front, rate);
        lemma_exact_slope(window[n - 2], window[n - 1], rate);
        assert(rate * (n - 2) + rate == rate * (n - 1)) by (nonlinear_arith);
    } else if window.len() == 1 {
        assert(rate * 0 == 0) by (nonlinear_arith);
    }
}

/// Two entries apart in time whose altitudes differ by exactly `rate` per second have
/// the slope `rate`.
pub proof fn lemma_exact_slope(newer: LogEntry, older: LogEntry, rate: int)
    requires
        steady_pair(newer, older, rate),
    ensures
        pair_slope(newer, older) == rate,
{
    let rise = newer.alt - older.alt;
    let run = newer.met - older.met;
    if rise >= 0 {
        lemma_div_multiples_vanish(rate, run);
        assert(rate * run == run * rate) by (nonlinear_arith);
    } else {
        assert(-rise * NANOS_PER_SECOND == (-rate) * run) by (nonlinear_arith)
            requires
                rise * NANOS_PER_SECOND == rate * run,
        ;
        lemma_div_multiples_vanish(-rate, run);
        assert((-rate) * run == run * (-rate)) by (nonlinear_arith);
    }
}

/// A window whose entries all hold the same altitude has the slope sum zero, whatever
/// their times.
pub proof fn lemma_level_trend(window: Seq<LogEntry>)
    requires
        level(window),
    ensures
        slope_sum(window) == 0,
        average_level(window),
    decreases window.len(),
{
    if window.len() >= 2 {
        let n = window.len() as int;
        let front = window.drop_last();
        assert forall|i: int| 0 <= i < front.len() implies (#[trigger] front[i]).alt
            == front[0].alt by {
            assert(front[i] == window[i]);
        }
        lemma_level_trend(front);
    }
}

} // verus!
