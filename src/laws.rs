use vstd::prelude::*;

use crate::model::{
    after_fetch, after_read, after_reads, after_wake, fetch_succeeded, is_stale, read_result,
    settled, wake_starts_refresh, MonitorState,
};
use crate::types::{BlockHeader, ChainHead, LoopPhase, Read, ReadErr};

verus! {

/// Reads leave a state unchanged whenever none of them finds the cache stale.
proof fn lemma_fresh_reads_unchanged(s: MonitorState, times: Seq<u64>)
    requires
        forall|i: int| 0 <= i < times.len() ==> !is_stale(s, #[trigger] times[i]),
    ensures
        after_reads(s, times) == s,
    decreases times.len(),
{
    if times.len() > 0 {
        let rest = times.drop_first();
        assert forall|i: int| 0 <= i < rest.len() implies !is_stale(s, #[trigger] rest[i]) by {
            assert(rest[i] == times[i + 1]);
        }
        lemma_fresh_reads_unchanged(s, rest);
    }
}

/// Within one poll interval after a successful refresh at `now`, every read in any sequence
/// is served from the cache, and the reads leave the state as it was, with no wake
/// pending, so the loop issues no upstream call.
pub proof fn lemma_reads_within_interval_cached(
    s: MonitorState,
    now: u64,
    block: Result<Option<BlockHeader>, String>,
    gas: Result<u128, String>,
    times: Seq<u64>,
)
    requires
        s.wf(),
        s.phase == LoopPhase::Refreshing,
        fetch_succeeded(block, gas),
        forall|i: int| 0 <= i < times.len() ==> now <= #[trigger] times[i] <= now + s.poll_interval,
    ensures
        ({
            let p = after_fetch(s, now, block, gas);
            &&& forall|i: int| 0 <= i < times.len() ==> {
                &&& !is_stale(p, #[trigger] times[i])
                &&& read_result(p, times[i], p.head) == Ok::<Read<ChainHead>, ReadErr>(Read::Ready(p.head))
                &&& read_result(p, times[i], p.gas_price) == Ok::<Read<u128>, ReadErr>(Read::Ready(p.gas_price))
            }
            &&& after_reads(p, times) == p
            &&& !wake_starts_refresh(p)
        }),
{
    let p = after_fetch(s, now, block, gas);
    lemma_fresh_reads_unchanged(p, times);
}

/// After a successful refresh at `now`, the cache is fresh up to one poll interval past
/// `now` and stale at every time beyond it.
pub proof fn lemma_monotonic_freshness(
    s: MonitorState,
    now: u64,
    block: Result<Option<BlockHeader>, String>,
    gas: Result<u128, String>,
    t: u64,
)
    requires
        s.phase == LoopPhase::Refreshing,
        fetch_succeeded(block, gas),
    ensures
        t <= now + s.poll_interval ==> !is_stale(after_fetch(s, now, block, gas), t),
        t > now + s.poll_interval ==> is_stale(after_fetch(s, now, block, gas), t),
{
}

/// Reads at one time by readers that all find an idle loop's cache stale: each waits, and
/// their signals collapse into one pending wake.
proof fn lemma_stale_reads_coalesce(s: MonitorState, now: u64, n: nat, k: nat)
    requires
        s.phase == LoopPhase::Idle,
        is_stale(s, now),
        k <= n,
    ensures
        after_reads(s, Seq::new(n, |i: int| now).take(k as int)) == (if k == 0 {
            s
        } else {
            MonitorState { wake_pending: true, ..s }
        }),
    decreases k,
{
    let times = Seq::new(n, |i: int| now);
    if k > 0 {
        lemma_stale_reads_coalesce(s, now, n, (k - 1) as nat);
        let prev = times.take(k - 1);
        let cur = times.take(k as int);
        let ps = if k == 1 { s } else { MonitorState { wake_pending: true, ..s } };
        lemma_reads_append(s, prev, now);
        assert(cur =~= prev.push(now));
        assert(after_read(ps, now) == MonitorState { wake_pending: true, ..s });
    }
}

/// Reading once more after a sequence of reads.
proof fn lemma_reads_append(s: MonitorState, times: Seq<u64>, t: u64)
    ensures
        after_reads(s, times.push(t)) == after_read(after_reads(s, times), t),
    decreases times.len(),
{
    if times.len() == 0 {
        assert(times.push(t).drop_first() =~= Seq::<u64>::empty());
        assert(times.push(t)[0] == t);
        assert(after_reads(after_read(s, t), Seq::<u64>::empty()) == after_read(s, t));
    } else {
        assert(times.push(t).drop_first() =~= times.drop_first().push(t));
        assert(times.push(t)[0] == times[0]);
        lemma_reads_append(after_read(s, times[0]), times.drop_first(), t);
    }
}

/// Any number of readers that find an idle loop's cache stale at the same time all wait,
/// and the loop then runs exactly one refresh: the first wake starts it, no reader that
/// comes while it is in flight signals another, and once it has published no wake is
/// pending. Every waiting reader then takes the one published value.
pub proof fn lemma_single_flight(
    s: MonitorState,
    now: u64,
    n: nat,
    t: u64,
    later: u64,
    block: Result<Option<BlockHeader>, String>,
    gas: Result<u128, String>,
)
    requires
        s.wf(),
        s.phase == LoopPhase::Idle,
        is_stale(s, now),
        n >= 1,
    ensures
        ({
            let times = Seq::new(n, |i: int| now);
            let w = after_reads(s, times);
            let r = after_wake(w);
            let p = after_fetch(r, later, block, gas);
            &&& forall|k: int| 0 <= k < n ==> read_result(
                #[trigger] after_reads(s, times.take(k)),
                now,
                s.head,
            ) == Ok::<Read<ChainHead>, ReadErr>(Read::Wait)
            &&& wake_starts_refresh(w)
            &&& r.phase == LoopPhase::Refreshing
            &&& !wake_starts_refresh(r)
            &&& after_read(r, t) == r
            &&& !wake_starts_refresh(p)
            &&& fetch_succeeded(block, gas) ==> settled(p, p.head) == Ok::<ChainHead, ReadErr>(
                ChainHead {
                    block_number: block->Ok_0->Some_0.number,
                    block_timestamp: block->Ok_0->Some_0.timestamp,
                },
            )
            &&& fetch_succeeded(block, gas) ==> settled(p, p.gas_price) == Ok::<u128, ReadErr>(
                gas->Ok_0,
            )
            &&& !fetch_succeeded(block, gas) ==> settled(p, p.head) == Err::<ChainHead, ReadErr>(
                ReadErr::RefreshUnavailable,
            )
        }),
{
    let times = Seq::new(n, |i: int| now);
    assert forall|k: int| 0 <= k < n implies read_result(
        #[trigger] after_reads(s, times.take(k)),
        now,
        s.head,
    ) == Ok::<Read<ChainHead>, ReadErr>(Read::Wait) by {
        lemma_stale_reads_coalesce(s, now, n, k as nat);
    }
    lemma_stale_reads_coalesce(s, now, n, n);
    assert(times.take(n as int) =~= times);
}

} // verus!
