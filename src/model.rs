use vstd::prelude::*;

use crate::types::{BlockHeader, ChainHead, LoopPhase, Read, ReadErr};

verus! {

/// The abstract state of a chain monitor: both cached values, the freshness deadline,
/// the single-slot wake signal and the refresh loop's phase.
pub struct MonitorState {
    pub head: ChainHead,
    pub gas_price: u128,
    /// The freshness deadline; a read at a time past it finds the cache stale.
    pub next_update: u64,
    pub poll_interval: u64,
    /// Whether a wake signal is pending (any number of signals collapse into one).
    pub wake_pending: bool,
    pub phase: LoopPhase,
}

impl MonitorState {
    /// While a refresh is in flight no wake is pending: the one that started it was consumed,
    /// and readers that find the cache stale meanwhile join the refresh in flight.
    pub open spec fn wf(self) -> bool {
        self.phase == LoopPhase::Refreshing ==> !self.wake_pending
    }
}

/// The state of a service just built at time `now`.
pub open spec fn initial_state(poll_interval: u64, now: u64) -> MonitorState {
    MonitorState {
        head: ChainHead { block_number: 0, block_timestamp: 0 },
        gas_price: 0,
        next_update: now,
        poll_interval,
        wake_pending: false,
        phase: LoopPhase::Idle,
    }
}

/// The sole staleness predicate: the time is past the deadline.
pub open spec fn is_stale(s: MonitorState, now: u64) -> bool {
    now > s.next_update
}

/// `now + interval`, held at the largest `u64`.
pub open spec fn deadline_after(now: u64, interval: u64) -> u64 {
    if now + interval > u64::MAX {
        u64::MAX
    } else {
        (now + interval) as u64
    }
}

/// A read signals a wake exactly when it finds the cache stale and no refresh is in flight
/// (a stopped or failed loop takes the wake when it runs again); while a refresh is in
/// flight a stale read joins it instead.
pub open spec fn check_signals(s: MonitorState, now: u64) -> bool {
    is_stale(s, now) && s.phase != LoopPhase::Refreshing
}

/// The state after a read at `now`: a signalled wake is the only change.
pub open spec fn after_read(s: MonitorState, now: u64) -> MonitorState {
    if check_signals(s, now) {
        MonitorState { wake_pending: true, ..s }
    } else {
        s
    }
}

/// What a read at `now` of a value `v` cached in `s` hands back: the value while fresh,
/// otherwise a wait for the next publish. A read itself never fails.
pub open spec fn read_result<T>(s: MonitorState, now: u64, v: T) -> Result<Read<T>, ReadErr> {
    if !is_stale(s, now) {
        Ok(Read::Ready(v))
    } else {
        Ok(Read::Wait)
    }
}

/// What a reader that waited takes once the cycle it waited on has ended: the published
/// value, or an error where the loop died instead.
pub open spec fn settled<T>(s: MonitorState, v: T) -> Result<T, ReadErr> {
    if s.phase == LoopPhase::Failed {
        Err(ReadErr::RefreshUnavailable)
    } else {
        Ok(v)
    }
}

/// A wake starts a refresh exactly when the loop is idle and a wake is pending.
pub open spec fn wake_starts_refresh(s: MonitorState) -> bool {
    s.phase == LoopPhase::Idle && s.wake_pending
}

/// The state after the loop is woken.
pub open spec fn after_wake(s: MonitorState) -> MonitorState {
    if wake_starts_refresh(s) {
        MonitorState { phase: LoopPhase::Refreshing, wake_pending: false, ..s }
    } else {
        s
    }
}

/// The state after cancellation: it takes effect only while idle.
pub open spec fn after_cancel(s: MonitorState) -> MonitorState {
    if s.phase == LoopPhase::Idle {
        MonitorState { phase: LoopPhase::Stopped, ..s }
    } else {
        s
    }
}

/// Both fetches of a refresh succeeded and a block came back.
pub open spec fn fetch_succeeded(block: Result<Option<BlockHeader>, String>, gas: Result<u128, String>) -> bool {
    block matches Ok(Some(_)) && gas is Ok
}

/// The state after a successful refresh at `now` that fetched `header` and `gas_price`:
/// both values published, the deadline moved one poll interval past `now`, back to idle.
pub open spec fn published(s: MonitorState, now: u64, header: BlockHeader, gas_price: u128) -> MonitorState {
    MonitorState {
        head: ChainHead { block_number: header.number, block_timestamp: header.timestamp },
        gas_price,
        next_update: deadline_after(now, s.poll_interval),
        phase: LoopPhase::Idle,
        ..s
    }
}

/// The state after a fatal error: nothing published, the loop ended.
pub open spec fn failed(s: MonitorState) -> MonitorState {
    MonitorState { phase: LoopPhase::Failed, ..s }
}

/// The state after the fetches of a refresh came back at `now`.
pub open spec fn after_fetch(
    s: MonitorState,
    now: u64,
    block: Result<Option<BlockHeader>, String>,
    gas: Result<u128, String>,
) -> MonitorState {
    if s.phase == LoopPhase::Refreshing && fetch_succeeded(block, gas) {
        published(s, now, block->Ok_0->Some_0, gas->Ok_0)
    } else {
        failed(s)
    }
}

} // verus!

verus! {

/// The state after a sequence of reads at the given times, in order.
pub open spec fn after_reads(s: MonitorState, times: Seq<u64>) -> MonitorState
    decreases times.len(),
{
    if times.len() == 0 {
        s
    } else {
        after_reads(after_read(s, times[0]), times.drop_first())
    }
}

} // verus!
