//! The telemetry log: time-stamped samples in the order they were taken.
//!
//! Readings are fixed-point integers. An altitude is held in thousandths of an altitude
//! unit, an acceleration in thousandths of g per axis, and mission-elapsed time in
//! nanoseconds.

use crate::phase::Phase;
use vstd::prelude::*;

verus! {

/// The number of entries kept while waiting on the pad.
pub const LOG_CAP: usize = 1000;

/// One sample: the phase it was taken in, when, and the readings held at that time.
#[derive(Debug, Clone, Copy, PartialEq, Eq)]
pub struct LogEntry {
    /// The phase at capture.
    pub status: Phase,
    /// Mission-elapsed time in nanoseconds.
    pub met: u64,
    /// Altitude in thousandths of an altitude unit.
    pub alt: i32,
    /// Acceleration along x, y and z in thousandths of g.
    pub accel: (i32, i32, i32),
}

/// Mission-elapsed time never decreases from one entry to the next.
pub open spec fn chronological(log: Seq<LogEntry>) -> bool {
    forall|i: int, j: int| 0 <= i <= j < log.len() ==> log[i].met <= log[j].met
}

/// The entry as it is stored behind `log`: one stamped earlier than the newest entry
/// takes the newest entry's time, so that the log never runs backwards.
pub open spec fn stamped(log: Seq<LogEntry>, entry: LogEntry) -> LogEntry {
    if log.len() > 0 && entry.met < log.last().met {
        LogEntry { met: log.last().met, ..entry }
    } else {
        entry
    }
}

/// The log after `entry` was appended. An entry taken in `WaitLaunch` that brings the
/// length above [`LOG_CAP`] pushes the oldest entry out; in any other phase nothing
/// leaves the log.
pub open spec fn appended(log: Seq<LogEntry>, entry: LogEntry) -> Seq<LogEntry> {
    let grown = log.push(stamped(log, entry));
    if entry.status == Phase::WaitLaunch && grown.len() > LOG_CAP {
        grown.drop_first()
    } else {
        grown
    }
}

/// The log after each of `entries` was appended in turn.
pub open spec fn appended_all(log: Seq<LogEntry>, entries: Seq<LogEntry>) -> Seq<LogEntry>
    decreases entries.len(),
{
    if entries.len() == 0 {
        log
    } else {
        appended(appended_all(log, entries.drop_last()), entries.last())
    }
}

/// The newest `n` entries, newest first; all of them where the log holds fewer.
pub open spec fn window_of(log: Seq<LogEntry>, n: nat) -> Seq<LogEntry> {
    Seq::new(if n <= log.len() { n } else { log.len() }, |i: int| log[log.len() - 1 - i])
}

/// The entries from index `start` on; none where the log ends before `start`.
pub open spec fn entries_from(log: Seq<LogEntry>, start: nat) -> Seq<LogEntry> {
    if start <= log.len() {
        log.skip(start as int)
    } else {
        Seq::empty()
    }
}

/// An ordered buffer of samples whose mission-elapsed time never decreases.
#[derive(Debug)]
pub struct TelemetryLog {
    entries: Vec<LogEntry>,
}

impl View for TelemetryLog {
    type V = Seq<LogEntry>;

    closed spec fn view(&self) -> Seq<LogEntry> {
        self.entries@
    }
}

impl TelemetryLog {
    #[verifier::type_invariant]
    spec fn ordered(self) -> bool {
        chronological(self.entries@)
    }

    /// An empty log.
    pub fn new() -> (log: TelemetryLog)
        ensures
            log@ == Seq::<LogEntry>::empty(),
    {
        TelemetryLog { entries: Vec::new() }
    }

    /// The number of entries held.
    pub fn len(&self) -> (n: usize)
        ensures
            n == self@.len(),
    {
        self.entries.len()
    }

    /// The entries, oldest first. They are in chronological order.
    pub fn entries(&self) -> (entries: &Vec<LogEntry>)
        ensures
            entries@ == self@,
            chronological(self@),
    {
        proof {
            use_type_invariant(self);
        }
        &self.entries
    }

    /// Appends `entry`, stamped no earlier than the newest entry. In `WaitLaunch` the
    /// oldest entry leaves once the length has passed [`LOG_CAP`].
    pub fn append(&mut self, entry: LogEntry)
        ensures
            final(self)@ == appended(old(self)@, entry),
            chronological(final(self)@),
    {
        proof {
            use_type_invariant(&*self);
        }
        // The entries are taken out, changed and put back as a whole, so that the log
        // is never seen out of order.
        let mut taken = TelemetryLog::new();
        std::mem::swap(self, &mut taken);
        let TelemetryLog { entries: mut entries } = taken;
        let mut stored = entry;
        let n = entries.len();
        if n > 0 && entry.met < entries[n - 1].met {
            stored.met = entries[n - 1].met;
        }
        entries.push(stored);
        if matches!(entry.status, Phase::WaitLaunch) && entries.len() > LOG_CAP {
            entries.remove(0);
        }
        *self = TelemetryLog { entries };
    }

    /// The newest `n` entries, newest first, or all of them where the log holds fewer.
    /// The log is left as it is.
    pub fn window(&self, n: usize) -> (window: Vec<LogEntry>)
        ensures
            window@ == window_of(self@, n as nat),
    {
        let len = self.entries.len();
        let count = if n <= len { n } else { len };
        let mut window: Vec<LogEntry> = Vec::new();
        let mut i: usize = 0;
        while i < count
            invariant
                len == self.entries@.len(),
                count <= len,
                i <= count,
                window@.len() == i,
                forall|k: int| 0 <= k < i ==> window@[k] == self.entries@[len - 1 - k],
            decreases count - i,
        {
            window.push(self.entries[len - 1 - i]);
            i += 1;
        }
        window
    }

    /// The entries from index `start` on, oldest first; none where the log ends
    /// before `start`.
    pub fn since(&self, start: usize) -> (tail: Vec<LogEntry>)
        ensures
            tail@ == entries_from(self@, start as nat),
    {
        let len = self.entries.len();
        let mut tail: Vec<LogEntry> = Vec::new();
        if start > len {
            return tail;
        }
        let mut i: usize = start;
        while i < len
            invariant
                len == self.entries@.len(),
                start <= i <= len,
                tail@.len() == i - start,
                forall|k: int| 0 <= k < tail@.len() ==> tail@[k] == self.entries@[start + k],
            decreases len - i,
        {
            tail.push(self.entries[i]);
            i += 1;
        }
        tail
    }

    /// Empties the log.
    pub fn clear(&mut self)
        ensures
            final(self)@ == Seq::<LogEntry>::empty(),
    {
        *self = TelemetryLog::new();
    }
}

/// The log after each of `entries` was pushed in turn, stamped as [`appended`] stamps
/// it, with nothing removed.
pub open spec fn grown_all(log: Seq<LogEntry>, entries: Seq<LogEntry>) -> Seq<LogEntry>
    decreases entries.len(),
{
    if entries.len() == 0 {
        log
    } else {
        let before = grown_all(log, entries.drop_last());
        before.push(stamped(before, entries.last()))
    }
}

/// The newest `n` entries in the order of the log; all of them where it holds fewer.
pub open spec fn newest(log: Seq<LogEntry>, n: nat) -> Seq<LogEntry> {
    if log.len() <= n {
        log
    } else {
        log.skip(log.len() - n)
    }
}

/// Every entry was taken in `WaitLaunch`.
pub open spec fn all_on_pad(entries: Seq<LogEntry>) -> bool {
    forall|i: int| 0 <= i < entries.len() ==> (#[trigger] entries[i]).status == Phase::WaitLaunch
}

/// No entry was taken in `WaitLaunch`.
pub open spec fn none_on_pad(entries: Seq<LogEntry>) -> bool {
    forall|i: int| 0 <= i < entries.len() ==> (#[trigger] entries[i]).status != Phase::WaitLaunch
}

/// Appending keeps a chronological log chronological. The new entry comes last, and
/// what leaves, if anything, is the oldest entry alone.
pub proof fn lemma_append(log: Seq<LogEntry>, entry: LogEntry)
    ensures
        chronological(log) ==> chronological(appended(log, entry)),
        appended(log, entry).last() == stamped(log, entry),
        entry.status == Phase::WaitLaunch && log.len() >= LOG_CAP ==> appended(log, entry)
            == log.drop_first().push(stamped(log, entry)),
        entry.status != Phase::WaitLaunch || log.len() < LOG_CAP ==> appended(log, entry)
            == log.push(stamped(log, entry)),
{
}

/// However many entries are appended on the pad to a log within [`LOG_CAP`], what is
/// kept are the newest [`LOG_CAP`] of all that were pushed, in their order: the oldest
/// leave first, and the length never passes the cap.
pub proof fn lemma_pad_keeps_newest(log: Seq<LogEntry>, entries: Seq<LogEntry>)
    requires
        log.len() <= LOG_CAP,
        all_on_pad(entries),
    ensures
        appended_all(log, entries) == newest(grown_all(log, entries), LOG_CAP as nat),
        grown_all(log, entries).len() == log.len() + entries.len(),
        appended_all(log, entries).len() == if log.len() + entries.len() <= LOG_CAP {
            log.len() + entries.len()
        } else {
            LOG_CAP as nat
        },
    decreases entries.len(),
{
    if entries.len() > 0 {
        let front = entries.drop_last();
        let entry = entries.last();
        assert(all_on_pad(front)) by {
            assert forall|i: int| 0 <= i < front.len() implies (#[trigger] front[i]).status
                == Phase::WaitLaunch by {
                assert(front[i] == entries[i]);
            }
        }
        lemma_pad_keeps_newest(log, front);
        let kept = appended_all(log, front);
        let full = grown_all(log, front);
        assert(appended(kept, entry) =~= newest(
            full.push(stamped(full, entry)),
            LOG_CAP as nat,
        ));
    }
}

/// Entries appended in any phase but `WaitLaunch` push nothing out, however long the
/// log grows.
pub proof fn lemma_flight_keeps_all(log: Seq<LogEntry>, entries: Seq<LogEntry>)
    requires
        none_on_pad(entries),
    ensures
        appended_all(log, entries) == grown_all(log, entries),
        appended_all(log, entries).len() == log.len() + entries.len(),
    decreases entries.len(),
{
    if entries.len() > 0 {
        let front = entries.drop_last();
        assert(none_on_pad(front)) by {
            assert forall|i: int| 0 <= i < front.len() implies (#[trigger] front[i]).status
                != Phase::WaitLaunch by {
                assert(front[i] == entries[i]);
            }
        }
        lemma_flight_keeps_all(log, front);
    }
}

/// A chronological log stays chronological whatever is appended to it, in whatever
/// phase.
pub proof fn lemma_appended_all_chronological(log: Seq<LogEntry>, entries: Seq<LogEntry>)
    requires
        chronological(log),
    ensures
        chronological(appended_all(log, entries)),
    decreases entries.len(),
{
    if entries.len() > 0 {
        lemma_appended_all_chronological(log, entries.drop_last());
        lemma_append(appended_all(log, entries.drop_last()), entries.last());
    }
}

} // verus!
