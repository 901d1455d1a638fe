//! Traffic counters: every observed message bumps a lifetime total and a total
//! for the current reporting interval; each report closes the interval.
use vstd::prelude::*;
use vstd::string::*;
use crate::text::{decimal, decimal_string};

verus! {

/// The two message counters of the relay.
pub struct Stats {
    pub total_all_time: u64,
    pub total_since_last: u64,
}

/// A counter after one more message: one more, held at `u64::MAX` once there.
pub open spec fn bumped(n: nat) -> nat {
    if n < u64::MAX {
        n + 1
    } else {
        n
    }
}

/// The counters `(lifetime, interval)` after one more message.
pub open spec fn after_signal(s: (nat, nat)) -> (nat, nat) {
    (bumped(s.0), bumped(s.1))
}

/// The counters after `k` more messages.
pub open spec fn after_signals(s: (nat, nat), k: nat) -> (nat, nat)
    decreases k,
{
    if k == 0 {
        s
    } else {
        after_signal(after_signals(s, (k - 1) as nat))
    }
}

/// The counters once an interval has been reported: the lifetime total stays.
pub open spec fn after_report(s: (nat, nat)) -> (nat, nat) {
    (s.0, 0)
}

impl View for Stats {
    /// `(lifetime total, total since the last report)`.
    type V = (nat, nat);

    open spec fn view(&self) -> (nat, nat) {
        (self.total_all_time as nat, self.total_since_last as nat)
    }
}

impl Stats {
    /// Counters at zero.
    pub fn new() -> (r: Stats)
        ensures
            r@ == (0nat, 0nat),
    {
        Stats { total_all_time: 0, total_since_last: 0 }
    }

    /// Counts one observed message in both totals.
    pub fn increment(&mut self)
        ensures
            final(self)@ == after_signal(old(self)@),
    {
        if self.total_all_time < u64::MAX {
            self.total_all_time = self.total_all_time + 1;
        }
        if self.total_since_last < u64::MAX {
            self.total_since_last = self.total_since_last + 1;
        }
    }

    /// Messages counted since the counters were made.
    pub fn get_total_all_time(&self) -> (r: u64)
        ensures
            r == self@.0,
    {
        self.total_all_time
    }

    /// Messages counted since the last report.
    pub fn get_total_last_interval(&self) -> (r: u64)
        ensures
            r == self@.1,
    {
        self.total_since_last
    }

    /// Closes the reporting interval: its total goes back to zero.
    pub fn reset_interval(&mut self)
        ensures
            final(self)@ == after_report(old(self)@),
    {
        self.total_since_last = 0;
    }
}

/// After `k` messages that follow a report, the interval total is `k` and the lifetime
/// total has grown by `k`; a report then leaves the lifetime total as it was.
/// (The counters stay below `u64::MAX`.)
pub proof fn lemma_interval_counts(s: (nat, nat), k: nat)
    requires
        s.0 + k <= u64::MAX,
        s.1 + k <= u64::MAX,
    ensures
        after_signals(after_report(s), k) == (s.0 + k, k),
        after_signals(s, k) == (s.0 + k, s.1 + k),
        after_report(after_signals(s, k)).0 == s.0 + k,
    decreases k,
{
    if k > 0 {
        lemma_interval_counts(s, (k - 1) as nat);
    }
}

/// Seconds in an interval of `minutes` minutes, held at `u64::MAX` when larger.
pub fn interval_seconds(minutes: u64) -> (r: u64)
    ensures
        r == if minutes * 60 <= u64::MAX { minutes * 60 } else { u64::MAX as int },
{
    if minutes <= u64::MAX / 60 {
        minutes * 60
    } else {
        u64::MAX
    }
}

/// The two report lines: the lifetime total, then the total of the last interval,
/// with `minute` in the plural for an interval longer than one minute.
pub open spec fn report_text(interval: nat, all_time: nat, since_last: nat) -> Seq<Seq<char>> {
    seq![
        "[STATS] Total since container start: "@ + decimal(all_time),
        "[STATS] Total in the last "@ + decimal(interval) + (if interval > 1 {
            " minutes: "@
        } else {
            " minute: "@
        }) + decimal(since_last),
    ]
}

/// The report lines for an interval of `interval` minutes.
pub fn report_lines(interval: u64, all_time: u64, since_last: u64) -> (r: Vec<String>)
    ensures
        r@.map_values(|l: String| l@) == report_text(
            interval as nat,
            all_time as nat,
            since_last as nat,
        ),
{
    let first = String::from_str("[STATS] Total since container start: ").concat(
        decimal_string(all_time).as_str(),
    );
    let unit = if interval > 1 {
        " minutes: "
    } else {
        " minute: "
    };
    let second = String::from_str("[STATS] Total in the last ").concat(
        decimal_string(interval).as_str(),
    ).concat(unit).concat(decimal_string(since_last).as_str());
    let mut r: Vec<String> = Vec::new();
    r.push(first);
    r.push(second);
    assert(r@.map_values(|l: String| l@) =~= report_text(
        interval as nat,
        all_time as nat,
        since_last as nat,
    ));
    r
}

} // verus!
