//! The client's throughput aggregator. It adds up the byte counts that the
//! readers report and, on a sample that arrives more than one second after
//! the last report, turns the total into a message count and starts a new
//! window. Time is a count of nanoseconds since a fixed origin on a monotonic
//! clock. The interval is checked only when a sample arrives, so a window may
//! last longer than one second.

use vstd::prelude::*;
use crate::client::MESSAGE_LEN;

verus! {

/// Length of a reporting window, in nanoseconds.
pub const REPORT_INTERVAL_NANOS: u64 = 1_000_000_000;

/// A window of the aggregator in mathematical terms: the bytes counted since
/// the last report, and the time of that report.
pub struct RateWindow {
    pub total: int,
    pub last: int,
}

/// A report is due on a sample at `now` when strictly more than the interval
/// has passed since `last`. A clock reading before `last` counts as no time.
pub open spec fn report_due(last: int, now: int) -> bool {
    now - last > REPORT_INTERVAL_NANOS
}

/// The message count reported for `total` bytes.
pub open spec fn messages_in(total: int) -> int {
    total / (MESSAGE_LEN as int)
}

/// One sample of `count` bytes at time `now`: the next window, and the
/// message count reported, if any.
pub open spec fn sample_step(w: RateWindow, count: int, now: int) -> (RateWindow, Option<int>) {
    let t = w.total + count;
    if report_due(w.last, now) {
        (RateWindow { total: 0, last: now }, Some(messages_in(t)))
    } else {
        (RateWindow { total: t, last: w.last }, None)
    }
}

/// A run of samples, each a pair of a byte count and its arrival time: the
/// window after the last of them, and what each of them reported.
pub open spec fn run_samples(w: RateWindow, samples: Seq<(int, int)>) -> (RateWindow, Seq<Option<int>>)
    decreases samples.len(),
{
    if samples.len() == 0 {
        (w, Seq::empty())
    } else {
        let before = run_samples(w, samples.drop_last());
        let s = samples.last();
        let step = sample_step(before.0, s.0, s.1);
        (step.0, before.1.push(step.1))
    }
}

/// The sum of the byte counts of `samples`.
pub open spec fn sample_sum(samples: Seq<(int, int)>) -> int
    decreases samples.len(),
{
    if samples.len() == 0 {
        0
    } else {
        sample_sum(samples.drop_last()) + samples.last().0
    }
}

/// No sample of `samples` arrives more than the interval after `last`.
pub open spec fn within_window(last: int, samples: Seq<(int, int)>) -> bool {
    forall|i: int| 0 <= i < samples.len() ==> !report_due(last, #[trigger] samples[i].1)
}

/// What the aggregator is handed: a sample, or news that the queue is closed
/// because every reader has gone.
#[derive(Clone, Copy, Debug, PartialEq, Eq, Structural)]
pub enum RateEvent {
    Sample { count: usize, now_nanos: u64 },
    Closed,
}

/// What the aggregator does next.
#[derive(Clone, Copy, Debug, PartialEq, Eq, Structural)]
pub enum RateAction {
    /// Wait for the next sample.
    Continue,
    /// Print this many messages per interval, then wait for the next sample.
    Report(usize),
    /// End the aggregator.
    Stop,
}

/// The aggregator's running total and the time of its last report.
pub struct RateAggregator {
    total: usize,
    last_update: u64,
}

impl RateAggregator {
    pub closed spec fn window(&self) -> RateWindow {
        RateWindow { total: self.total as int, last: self.last_update as int }
    }

    /// An aggregator whose first window starts at `now_nanos`.
    pub fn new(now_nanos: u64) -> (a: RateAggregator)
        ensures
            a.window() == (RateWindow { total: 0, last: now_nanos as int }),
    {
        RateAggregator { total: 0, last_update: now_nanos }
    }

    /// Bytes counted since the last report.
    pub fn total(&self) -> (r: usize)
        ensures
            r == self.window().total,
    {
        self.total
    }

    /// Takes one event. A sample is added to the total and may close the
    /// window (see `sample_step`); a closed queue stops the aggregator.
    pub fn on_event(&mut self, event: RateEvent) -> (action: RateAction)
        requires
            event matches RateEvent::Sample { count, .. } ==> old(self).window().total + count
                <= usize::MAX,
        ensures
            match event {
                RateEvent::Sample { count, now_nanos } => {
                    let step = sample_step(old(self).window(), count as int, now_nanos as int);
                    &&& final(self).window() == step.0
                    &&& match step.1 {
                        Some(m) => action == RateAction::Report(m as usize),
                        None => action == RateAction::Continue,
                    }
                },
                RateEvent::Closed => {
                    &&& action == RateAction::Stop
                    &&& final(self).window() == old(self).window()
                },
            },
    {
        match event {
            RateEvent::Sample { count, now_nanos } => {
                self.total = self.total + count;
                let elapsed: u64 = if now_nanos > self.last_update {
                    now_nanos - self.last_update
                } else {
                    0
                };
                if elapsed > REPORT_INTERVAL_NANOS {
                    let messages = self.total / MESSAGE_LEN;
                    self.total = 0;
                    self.last_update = now_nanos;
                    RateAction::Report(messages)
                } else {
                    RateAction::Continue
                }
            },
            RateEvent::Closed => RateAction::Stop,
        }
    }
}

/// Samples that arrive within one window, from any readers and in any
/// interleaving, add up: the total grows by exactly the sum of their counts,
/// and none of them reports.
pub proof fn lemma_window_total(w: RateWindow, samples: Seq<(int, int)>)
    requires
        within_window(w.last, samples),
    ensures
        run_samples(w, samples).0 == (RateWindow { total: w.total + sample_sum(samples), last: w.last }),
        forall|i: int| 0 <= i < samples.len() ==> #[trigger] run_samples(w, samples).1[i] is None,
        run_samples(w, samples).1.len() == samples.len(),
    decreases samples.len(),
{
    if samples.len() > 0 {
        let init = samples.drop_last();
        assert forall|i: int| 0 <= i < init.len() implies !report_due(w.last, #[trigger] init[i].1) by {
            assert(init[i] == samples[i]);
        }
        lemma_window_total(w, init);
        assert(!report_due(w.last, samples[samples.len() - 1].1));
    }
}

/// Starting from an empty window, samples that sum to
/// `S` bytes within the window, followed by one that closes it, report
/// exactly `S / 8` messages (the closing sample's bytes included in `S`), and
/// leave an empty window starting at the closing sample's time.
pub proof fn lemma_window_rate(w: RateWindow, samples: Seq<(int, int)>)
    requires
        w.total == 0,
        samples.len() > 0,
        within_window(w.last, samples.drop_last()),
        report_due(w.last, samples.last().1),
    ensures
        run_samples(w, samples).1.last() == Some(sample_sum(samples) / 8),
        run_samples(w, samples).0 == (RateWindow { total: 0, last: samples.last().1 }),
{
    lemma_window_total(w, samples.drop_last());
}

} // verus!
