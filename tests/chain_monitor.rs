use chain_monitor::error::ChainMonitorErr;
use chain_monitor::service::{ChainMonitorService, DEFAULT_POLL_INTERVAL_NANOS};
use chain_monitor::types::{BlockHeader, ChainHead, LoopPhase, Read, ReadErr};

const POLL: u64 = 100;

fn header(number: u64, timestamp: u64) -> Result<Option<BlockHeader>, String> {
    Ok(Some(BlockHeader { number, timestamp }))
}

/// Drives one full refresh cycle at `now` with the given upstream answers.
fn refresh(
    svc: &mut ChainMonitorService,
    now: u64,
    block: Result<Option<BlockHeader>, String>,
    gas: Result<u128, String>,
) -> Result<(), ChainMonitorErr> {
    assert!(svc.on_wake());
    svc.on_fetched(now, block, gas)
}

#[test]
fn chain_monitor_smoke_test() {
    let mut svc = ChainMonitorService::new(DEFAULT_POLL_INTERVAL_NANOS, 0);
    assert_eq!(svc.start(Ok(888833888)), Ok(()));

    assert_eq!(svc.current_block_number(1), Ok(Read::Wait));
    assert_eq!(refresh(&mut svc, 1, header(0, 0), Ok(1)), Ok(()));
    let block = svc.published_block_number().unwrap();
    assert_eq!(block, 0);

    const NUM_BLOCKS: u64 = 10;

    // Block should still be 0 until the next polling interval.
    assert_eq!(svc.current_block_number(2), Ok(Read::Ready(0)));

    // Past the deadline the block number is queried from the chain again.
    let now = svc.next_update() + 1;
    assert_eq!(svc.current_block_number(now), Ok(Read::Wait));
    assert_eq!(refresh(&mut svc, now, header(NUM_BLOCKS, 20), Ok(1)), Ok(()));
    let block = svc.published_block_number().unwrap();
    assert_eq!(block, NUM_BLOCKS);
}

#[test]
fn first_read_is_stale_and_refresh_serves_block_ten() {
    let mut svc = ChainMonitorService::new(POLL, 1000);
    assert_eq!(svc.cached_head(), ChainHead { block_number: 0, block_timestamp: 0 });
    assert_eq!(svc.cached_gas_price(), 0);
    assert!(!svc.is_stale(1000));
    assert!(svc.is_stale(1001));
    assert_eq!(svc.current_block_number(1001), Ok(Read::Wait));
    assert!(svc.wake_pending());
    assert!(svc.on_wake());
    assert_eq!(svc.phase(), LoopPhase::Refreshing);
    assert!(!svc.on_wake());
    assert_eq!(svc.on_fetched(1002, header(10, 77), Ok(5)), Ok(()));
    assert_eq!(svc.published_block_number(), Ok(10));
    assert_eq!(svc.published_chain_head(), Ok(ChainHead { block_number: 10, block_timestamp: 77 }));
    assert_eq!(svc.next_update(), 1102);
    assert!(!svc.on_wake());
}

#[test]
fn gas_price_failure_ends_loop_without_publishing() {
    let mut svc = ChainMonitorService::new(POLL, 0);
    assert_eq!(svc.current_block_number(1), Ok(Read::Wait));
    assert_eq!(refresh(&mut svc, 1, header(7, 70), Ok(3)), Ok(()));

    let now = svc.next_update() + 1;
    assert_eq!(svc.current_block_number(now), Ok(Read::Wait));
    let r = refresh(&mut svc, now, header(8, 80), Err("connection reset".to_string()));
    assert_eq!(r, Err(ChainMonitorErr::RpcErr("connection reset".to_string())));
    assert_eq!(r.unwrap_err().code(), "[B-CHM-400]");
    assert_eq!(svc.phase(), LoopPhase::Failed);
    assert_eq!(svc.published_block_number(), Err(ReadErr::RefreshUnavailable));
    assert_eq!(svc.published_gas_price(), Err(ReadErr::RefreshUnavailable));
    assert_eq!(svc.cached_head().block_number, 7);
    assert_eq!(svc.cached_gas_price(), 3);
    // A stale read after the failure waits, and its wake is kept for the restarted loop.
    assert_eq!(svc.current_block_number(now), Ok(Read::Wait));
    assert!(svc.wake_pending());
    assert!(!svc.on_wake());
    assert_eq!(svc.start(Ok(1)), Ok(()));
    assert!(svc.on_wake());
    assert_eq!(svc.on_fetched(now + 1, header(9, 90), Ok(4)), Ok(()));
    assert_eq!(svc.published_block_number(), Ok(9));
    assert_eq!(svc.published_gas_price(), Ok(4));
}

#[test]
fn two_gas_price_readers_share_one_refresh() {
    let mut svc = ChainMonitorService::new(POLL, 0);
    assert_eq!(svc.current_gas_price(5), Ok(Read::Wait));
    assert_eq!(svc.current_gas_price(6), Ok(Read::Wait));
    assert!(svc.on_wake());
    // A reader that finds the cache stale while the refresh is in flight signals nothing.
    assert_eq!(svc.current_gas_price(7), Ok(Read::Wait));
    assert!(!svc.wake_pending());
    assert_eq!(svc.on_fetched(8, header(1, 1), Ok(42_000_000_000)), Ok(()));
    let first = svc.published_gas_price();
    let second = svc.published_gas_price();
    assert_eq!(first, Ok(42_000_000_000));
    assert_eq!(first, second);
    assert!(!svc.on_wake());
}

#[test]
fn reads_within_interval_are_served_from_cache() {
    let mut svc = ChainMonitorService::new(POLL, 0);
    assert_eq!(svc.current_block_number(1), Ok(Read::Wait));
    assert_eq!(refresh(&mut svc, 10, header(3, 30), Ok(9)), Ok(()));
    for t in [10u64, 11, 50, 109, 110] {
        assert!(!svc.is_stale(t));
        assert_eq!(svc.current_block_number(t), Ok(Read::Ready(3)));
        assert_eq!(svc.current_gas_price(t), Ok(Read::Ready(9)));
    }
    assert!(!svc.wake_pending());
    assert!(!svc.on_wake());
}

#[test]
fn freshness_ends_one_interval_after_refresh() {
    let mut svc = ChainMonitorService::new(POLL, 0);
    assert_eq!(svc.current_block_number(1), Ok(Read::Wait));
    assert_eq!(refresh(&mut svc, 500, header(1, 1), Ok(1)), Ok(()));
    assert!(!svc.is_stale(599));
    assert!(!svc.is_stale(600));
    assert!(svc.is_stale(601));
}

#[test]
fn deadline_holds_at_largest_time() {
    let mut svc = ChainMonitorService::new(POLL, 0);
    assert_eq!(svc.current_block_number(1), Ok(Read::Wait));
    assert_eq!(refresh(&mut svc, u64::MAX - 1, header(1, 1), Ok(1)), Ok(()));
    assert_eq!(svc.next_update(), u64::MAX);
    assert!(!svc.is_stale(u64::MAX));
}

#[test]
fn cancel_while_idle_stops_without_touching_cache() {
    let mut svc = ChainMonitorService::new(POLL, 0);
    assert_eq!(svc.current_block_number(1), Ok(Read::Wait));
    assert_eq!(refresh(&mut svc, 1, header(4, 40), Ok(2)), Ok(()));
    let deadline = svc.next_update();
    assert!(svc.on_cancel());
    assert_eq!(svc.phase(), LoopPhase::Stopped);
    assert_eq!(svc.cached_head(), ChainHead { block_number: 4, block_timestamp: 40 });
    assert_eq!(svc.cached_gas_price(), 2);
    assert_eq!(svc.next_update(), deadline);
    assert!(!svc.on_wake());
}

#[test]
fn cancel_during_refresh_waits_for_its_end() {
    let mut svc = ChainMonitorService::new(POLL, 0);
    assert_eq!(svc.current_block_number(1), Ok(Read::Wait));
    assert!(svc.on_wake());
    assert!(!svc.on_cancel());
    assert_eq!(svc.phase(), LoopPhase::Refreshing);
    assert_eq!(svc.on_fetched(2, header(1, 1), Ok(1)), Ok(()));
    assert!(svc.on_cancel());
}

#[test]
fn block_fetch_failure_is_an_rpc_error() {
    let mut svc = ChainMonitorService::new(POLL, 0);
    assert_eq!(svc.current_block_number(1), Ok(Read::Wait));
    let r = refresh(&mut svc, 2, Err("timeout".to_string()), Err("also down".to_string()));
    assert_eq!(r, Err(ChainMonitorErr::RpcErr("timeout".to_string())));
    assert_eq!(svc.cached_head().block_number, 0);
}

#[test]
fn missing_block_is_an_rpc_error() {
    let mut svc = ChainMonitorService::new(POLL, 0);
    assert_eq!(svc.current_block_number(1), Ok(Read::Wait));
    let r = refresh(&mut svc, 2, Ok(None), Ok(1));
    assert!(matches!(r, Err(ChainMonitorErr::RpcErr(_))));
    assert_eq!(r.unwrap_err().code(), "[B-CHM-400]");
    assert_eq!(svc.cached_gas_price(), 0);
    assert_eq!(svc.phase(), LoopPhase::Failed);
}

#[test]
fn fetch_without_refresh_in_flight_is_unexpected() {
    let mut svc = ChainMonitorService::new(POLL, 0);
    let r = svc.on_fetched(2, header(1, 1), Ok(1));
    assert!(matches!(r, Err(ChainMonitorErr::UnexpectedErr(_))));
    assert_eq!(r.unwrap_err().code(), "[B-CHM-500]");
    assert_eq!(svc.cached_head().block_number, 0);
}

#[test]
fn chain_id_failure_ends_run() {
    let mut svc = ChainMonitorService::new(POLL, 0);
    let r = svc.start(Err("no chain id".to_string()));
    assert_eq!(r, Err(ChainMonitorErr::RpcErr("no chain id".to_string())));
    assert_eq!(svc.phase(), LoopPhase::Failed);
    // A restart by the supervisor brings the loop back, cache intact.
    assert_eq!(svc.start(Ok(1)), Ok(()));
    assert_eq!(svc.phase(), LoopPhase::Idle);
}

#[test]
fn start_while_refreshing_is_refused() {
    let mut svc = ChainMonitorService::new(POLL, 0);
    assert_eq!(svc.current_gas_price(1), Ok(Read::Wait));
    assert!(svc.on_wake());
    assert!(matches!(svc.start(Ok(1)), Err(ChainMonitorErr::UnexpectedErr(_))));
    assert_eq!(svc.phase(), LoopPhase::Refreshing);
}

#[test]
fn stale_read_after_stop_keeps_wake_for_restart() {
    let mut svc = ChainMonitorService::new(POLL, 0);
    assert!(svc.on_cancel());
    assert_eq!(svc.current_block_number(1), Ok(Read::Wait));
    assert!(svc.wake_pending());
    assert!(!svc.on_wake());
    assert_eq!(svc.start(Ok(1)), Ok(()));
    assert!(svc.on_wake());
}
