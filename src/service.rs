use vstd::prelude::*;

use crate::error::ChainMonitorErr;
use crate::model::{
    after_cancel, after_fetch, after_read, after_wake, failed, initial_state, is_stale, read_result, settled,
    wake_starts_refresh, MonitorState,
};
use crate::types::{BlockHeader, ChainHead, LoopPhase, Read, ReadErr};

verus! {

/// How long a successful refresh keeps the cache fresh, in nanoseconds.
pub const DEFAULT_POLL_INTERVAL_NANOS: u64 = 1_000_000;

/// A debounced cache of the chain head and the gas price, with the decisions of the
/// loop that refreshes it.
///
/// Times are plain `u64` ticks of a monotonic clock (nanoseconds in the usual driver).
/// The driver holds the service under a reader/writer lock, takes it exclusively for the
/// whole of a refresh, and hands each event in as a method call.
pub struct ChainMonitorService {
    head: ChainHead,
    gas_price: u128,
    next_update: u64,
    poll_interval: u64,
    wake_pending: bool,
    phase: LoopPhase,
}

impl View for ChainMonitorService {
    type V = MonitorState;

    closed spec fn view(&self) -> MonitorState {
        MonitorState {
            head: self.head,
            gas_price: self.gas_price,
            next_update: self.next_update,
            poll_interval: self.poll_interval,
            wake_pending: self.wake_pending,
            phase: self.phase,
        }
    }
}

impl ChainMonitorService {
    /// A service built at time `now`: block 0 at timestamp 0, gas price 0, and a deadline
    /// of `now`, so that the first read after construction finds the cache stale.
    pub fn new(poll_interval: u64, now: u64) -> (r: Self)
        ensures
            r@ == initial_state(poll_interval, now),
            r@.wf(),
    {
        ChainMonitorService {
            head: ChainHead { block_number: 0, block_timestamp: 0 },
            gas_price: 0,
            next_update: now,
            poll_interval,
            wake_pending: false,
            phase: LoopPhase::Idle,
        }
    }

    /// Whether the cache is stale at `now`.
    pub fn is_stale(&self, now: u64) -> (r: bool)
        ensures
            r == is_stale(self@, now),
    {
        now > self.next_update
    }

    /// The staleness check of a read at `now`: it signals a wake where a refresh is owed and
    /// no refresh is in flight, and says whether the reader is served or waits.
    fn check(&mut self, now: u64) -> (r: Result<Read<()>, ReadErr>)
        requires
            old(self)@.wf(),
        ensures
            final(self)@ == after_read(old(self)@, now),
            final(self)@.wf(),
            r == read_result(old(self)@, now, ()),
    {
        if now <= self.next_update {
            Ok(Read::Ready(()))
        } else {
            if self.phase != LoopPhase::Refreshing {
                self.wake_pending = true;
            }
            Ok(Read::Wait)
        }
    }

    /// A read of the chain head at `now`: the cached head while fresh; otherwise a wake is
    /// signalled and the reader waits for the next publish.
    pub fn current_chain_head(&mut self, now: u64) -> (r: Result<Read<ChainHead>, ReadErr>)
        requires
            old(self)@.wf(),
        ensures
            final(self)@ == after_read(old(self)@, now),
            final(self)@.wf(),
            r == read_result(old(self)@, now, old(self)@.head),
    {
        match self.check(now) {
            Ok(Read::Ready(_)) => Ok(Read::Ready(self.head)),
            Ok(Read::Wait) => Ok(Read::Wait),
            Err(e) => Err(e),
        }
    }

    /// A read of the block number at `now`, as `current_chain_head` decides it.
    pub fn current_block_number(&mut self, now: u64) -> (r: Result<Read<u64>, ReadErr>)
        requires
            old(self)@.wf(),
        ensures
            final(self)@ == after_read(old(self)@, now),
            final(self)@.wf(),
            r == read_result(old(self)@, now, old(self)@.head.block_number),
    {
        match self.current_chain_head(now) {
            Ok(Read::Ready(head)) => Ok(Read::Ready(head.block_number)),
            Ok(Read::Wait) => Ok(Read::Wait),
            Err(e) => Err(e),
        }
    }

    /// A read of the gas price at `now`: the cached price while fresh; otherwise a wake is
    /// signalled and the reader waits for the next publish.
    pub fn current_gas_price(&mut self, now: u64) -> (r: Result<Read<u128>, ReadErr>)
        requires
            old(self)@.wf(),
        ensures
            final(self)@ == after_read(old(self)@, now),
            final(self)@.wf(),
            r == read_result(old(self)@, now, old(self)@.gas_price),
    {
        match self.check(now) {
            Ok(Read::Ready(_)) => Ok(Read::Ready(self.gas_price)),
            Ok(Read::Wait) => Ok(Read::Wait),
            Err(e) => Err(e),
        }
    }

    /// The head that a reader who waited takes once the cycle it waited on has ended.
    pub fn published_chain_head(&self) -> (r: Result<ChainHead, ReadErr>)
        ensures
            r == settled(self@, self@.head),
    {
        if self.phase == LoopPhase::Failed {
            Err(ReadErr::RefreshUnavailable)
        } else {
            Ok(self.head)
        }
    }

    /// The block number that a reader who waited takes once the cycle has ended.
    pub fn published_block_number(&self) -> (r: Result<u64, ReadErr>)
        ensures
            r == settled(self@, self@.head.block_number),
    {
        match self.published_chain_head() {
            Ok(head) => Ok(head.block_number),
            Err(e) => Err(e),
        }
    }

    /// The gas price that a reader who waited takes once the cycle has ended.
    pub fn published_gas_price(&self) -> (r: Result<u128, ReadErr>)
        ensures
            r == settled(self@, self@.gas_price),
    {
        if self.phase == LoopPhase::Failed {
            Err(ReadErr::RefreshUnavailable)
        } else {
            Ok(self.gas_price)
        }
    }

    /// A run of the refresh loop begins, with the chain id that the upstream reported or its
    /// failure. A failure ends the run with an RPC error; a run cannot begin while a refresh
    /// is in flight (an unexpected error). Otherwise the loop is idle, and a wake pending from before stays.
    pub fn start(&mut self, chain_id: Result<u64, String>) -> (r: Result<(), ChainMonitorErr>)
        requires
            old(self)@.wf(),
        ensures
            final(self)@.wf(),
            old(self)@.phase == LoopPhase::Refreshing ==> {
                &&& final(self)@ == old(self)@
                &&& r matches Err(ChainMonitorErr::UnexpectedErr(_))
            },
            old(self)@.phase != LoopPhase::Refreshing ==> match chain_id {
                Ok(_) => {
                    &&& r is Ok
                    &&& final(self)@ == (MonitorState { phase: LoopPhase::Idle, ..old(self)@ })
                },
                Err(e) => {
                    &&& r == Err::<(), ChainMonitorErr>(ChainMonitorErr::RpcErr(e))
                    &&& final(self)@ == failed(old(self)@)
                },
            },
    {
        if self.phase == LoopPhase::Refreshing {
            return Err(ChainMonitorErr::UnexpectedErr("a refresh is already in flight".to_owned()));
        }
        match chain_id {
            Ok(_) => {
                self.phase = LoopPhase::Idle;
                Ok(())
            },
            Err(e) => {
                self.phase = LoopPhase::Failed;
                Err(ChainMonitorErr::RpcErr(e))
            },
        }
    }

    /// The loop wakes up. A refresh begins, and the pending wake is consumed, exactly when
    /// the loop is idle and a wake is pending; the result says whether both upstream fetches
    /// are to be issued.
    pub fn on_wake(&mut self) -> (r: bool)
        requires
            old(self)@.wf(),
        ensures
            r == wake_starts_refresh(old(self)@),
            final(self)@ == after_wake(old(self)@),
            final(self)@.wf(),
    {
        if self.phase == LoopPhase::Idle && self.wake_pending {
            self.phase = LoopPhase::Refreshing;
            self.wake_pending = false;
            true
        } else {
            false
        }
    }

    /// Cancellation arrives. While idle it ends the loop without error and without touching
    /// the cache or the deadline; the result says whether it did. A refresh in flight runs to
    /// its end first.
    pub fn on_cancel(&mut self) -> (r: bool)
        requires
            old(self)@.wf(),
        ensures
            r == (old(self)@.phase == LoopPhase::Idle),
            final(self)@ == after_cancel(old(self)@),
            final(self)@.wf(),
            r ==> final(self)@.phase == LoopPhase::Stopped,
            final(self)@.head == old(self)@.head,
            final(self)@.gas_price == old(self)@.gas_price,
            final(self)@.next_update == old(self)@.next_update,
    {
        if self.phase == LoopPhase::Idle {
            self.phase = LoopPhase::Stopped;
            true
        } else {
            false
        }
    }

    /// Both fetches of the refresh in flight came back at `now`. Where both succeeded and a
    /// block came back, both values are published together, the deadline moves one poll
    /// interval past `now` and the loop is idle again. Otherwise nothing is published and the
    /// loop ends with the error: the block's failure before the gas price's, an upstream
    /// failure or a missing block as an RPC error, no refresh in flight as unexpected.
    pub fn on_fetched(
        &mut self,
        now: u64,
        block: Result<Option<BlockHeader>, String>,
        gas: Result<u128, String>,
    ) -> (r: Result<(), ChainMonitorErr>)
        requires
            old(self)@.wf(),
        ensures
            final(self)@ == after_fetch(old(self)@, now, block, gas),
            final(self)@.wf(),
            old(self)@.phase != LoopPhase::Refreshing ==> r matches Err(
                ChainMonitorErr::UnexpectedErr(_),
            ),
            old(self)@.phase == LoopPhase::Refreshing ==> match block {
                Err(e) => r == Err::<(), ChainMonitorErr>(ChainMonitorErr::RpcErr(e)),
                Ok(None) => r matches Err(ChainMonitorErr::RpcErr(_)),
                Ok(Some(_)) => match gas {
                    Err(e) => r == Err::<(), ChainMonitorErr>(ChainMonitorErr::RpcErr(e)),
                    Ok(_) => r is Ok,
                },
            },
    {
        if self.phase != LoopPhase::Refreshing {
            self.phase = LoopPhase::Failed;
            return Err(ChainMonitorErr::UnexpectedErr("no refresh in flight".to_owned()));
        }
        let header = match block {
            Err(e) => {
                self.phase = LoopPhase::Failed;
                return Err(ChainMonitorErr::RpcErr(e));
            },
            Ok(None) => {
                self.phase = LoopPhase::Failed;
                return Err(
                    ChainMonitorErr::RpcErr(
                        "failed to fetch latest block: no block in response".to_owned(),
                    ),
                );
            },
            Ok(Some(h)) => h,
        };
        let gas_price = match gas {
            Err(e) => {
                self.phase = LoopPhase::Failed;
                return Err(ChainMonitorErr::RpcErr(e));
            },
            Ok(g) => g,
        };
        self.head = ChainHead { block_number: header.number, block_timestamp: header.timestamp };
        self.gas_price = gas_price;
        self.next_update = now.saturating_add(self.poll_interval);
        self.phase = LoopPhase::Idle;
        Ok(())
    }

    /// The cached head.
    pub fn cached_head(&self) -> (r: ChainHead)
        ensures
            r == self@.head,
    {
        self.head
    }

    /// The cached gas price.
    pub fn cached_gas_price(&self) -> (r: u128)
        ensures
            r == self@.gas_price,
    {
        self.gas_price
    }

    /// The freshness deadline.
    pub fn next_update(&self) -> (r: u64)
        ensures
            r == self@.next_update,
    {
        self.next_update
    }

    /// The refresh loop's phase.
    pub fn phase(&self) -> (r: LoopPhase)
        ensures
            r == self@.phase,
    {
        self.phase
    }

    /// Whether a wake is pending.
    pub fn wake_pending(&self) -> (r: bool)
        ensures
            r == self@.wake_pending,
    {
        self.wake_pending
    }
}

} // verus!
