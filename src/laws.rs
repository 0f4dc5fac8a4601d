use vstd::prelude::*;
use crate::stats::MinerStats;
use crate::refresh::{RefreshLoop, Tick};

verus! {

/// The loop's state and the statistics after the ticks `ts`, in order.
pub open spec fn run(l: RefreshLoop, s: MinerStats, ts: Seq<Tick>) -> (RefreshLoop, MinerStats)
    decreases ts.len(),
{
    if ts.len() == 0 {
        (l, s)
    } else {
        let (l0, s0) = run(l, s, ts.drop_last());
        (l0.after(ts.last()), l0.stats_after(s0, ts.last()))
    }
}

/// The clock readings at which the ticks `ts` performed an update, in order.
pub open spec fn update_times(l: RefreshLoop, s: MinerStats, ts: Seq<Tick>) -> Seq<u64>
    decreases ts.len(),
{
    if ts.len() == 0 {
        Seq::empty()
    } else {
        let prior = update_times(l, s, ts.drop_last());
        if run(l, s, ts.drop_last()).0.is_due(ts.last()) {
            prior.push(ts.last().now)
        } else {
            prior
        }
    }
}

/// The statistics after the first `n` ticks of `ts`.
pub open spec fn stats_at(l: RefreshLoop, s: MinerStats, ts: Seq<Tick>, n: int) -> MinerStats {
    run(l, s, ts.take(n)).1
}

proof fn lemma_run_step(l: RefreshLoop, s: MinerStats, ts: Seq<Tick>, n: int)
    requires
        0 <= n < ts.len(),
    ensures
        run(l, s, ts.take(n + 1)) == (
            run(l, s, ts.take(n)).0.after(ts[n]),
            run(l, s, ts.take(n)).0.stats_after(run(l, s, ts.take(n)).1, ts[n]),
        ),
{
    assert(ts.take(n + 1).drop_last() =~= ts.take(n));
}

/// Each tick leaves the counter where it was or raises it: after `n + 1`
/// ticks `total_hashes` is at least what it was after `n`.
pub proof fn lemma_total_monotone(l: RefreshLoop, s: MinerStats, ts: Seq<Tick>, n: int)
    requires
        0 <= n < ts.len(),
    ensures
        stats_at(l, s, ts, n + 1).total_hashes >= stats_at(l, s, ts, n).total_hashes,
{
    lemma_run_step(l, s, ts, n);
}

/// A reader that samples the statistics after `i` ticks and again after
/// `j >= i` ticks never sees `total_hashes` go down.
pub proof fn lemma_samples_never_decrease(
    l: RefreshLoop,
    s: MinerStats,
    ts: Seq<Tick>,
    i: int,
    j: int,
)
    requires
        0 <= i <= j <= ts.len(),
    ensures
        stats_at(l, s, ts, i).total_hashes <= stats_at(l, s, ts, j).total_hashes,
    decreases j - i,
{
    if i < j {
        lemma_samples_never_decrease(l, s, ts, i, j - 1);
        lemma_total_monotone(l, s, ts, j - 1);
    }
}

/// Whatever ticks come, the start time of the statistics stays the one
/// they were created with.
pub proof fn lemma_start_time_fixed(l: RefreshLoop, s: MinerStats, ts: Seq<Tick>)
    ensures
        run(l, s, ts).1.start_time == s.start_time,
    decreases ts.len(),
{
    if ts.len() > 0 {
        lemma_start_time_fixed(l, s, ts.drop_last());
    }
}

proof fn lemma_update_times_track(l: RefreshLoop, s: MinerStats, ts: Seq<Tick>)
    ensures
        run(l, s, ts).0.cadence == l.cadence,
        run(l, s, ts).0.last_update == if update_times(l, s, ts).len() == 0 {
            l.last_update
        } else {
            update_times(l, s, ts).last()
        },
        forall|k: int|
            0 < k < update_times(l, s, ts).len() ==> #[trigger] update_times(l, s, ts)[k]
                >= update_times(l, s, ts)[k - 1] + l.cadence,
        update_times(l, s, ts).len() > 0 ==> update_times(l, s, ts)[0] >= l.last_update
            + l.cadence,
    decreases ts.len(),
{
    if ts.len() > 0 {
        lemma_update_times_track(l, s, ts.drop_last());
    }
}

/// Two successive updates are at least one cadence apart on the loop's
/// clock, and the first comes at least one cadence after the loop's start.
pub proof fn lemma_cadence_lower_bound(l: RefreshLoop, s: MinerStats, ts: Seq<Tick>)
    ensures
        forall|k: int|
            0 < k < update_times(l, s, ts).len() ==> #[trigger] update_times(l, s, ts)[k]
                >= update_times(l, s, ts)[k - 1] + l.cadence,
        update_times(l, s, ts).len() > 0 ==> update_times(l, s, ts)[0] >= l.last_update
            + l.cadence,
{
    lemma_update_times_track(l, s, ts);
}

} // verus!
