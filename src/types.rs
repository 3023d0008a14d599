use vstd::prelude::*;

verus! {

/// The head of the chain as last published: the latest block's number and timestamp.
#[derive(Clone, Copy, Debug, PartialEq, Eq, Structural)]
pub struct ChainHead {
    pub block_number: u64,
    pub block_timestamp: u64,
}

/// What the upstream node reports of its latest block.
#[derive(Clone, Copy, Debug, PartialEq, Eq, Structural)]
pub struct BlockHeader {
    pub number: u64,
    pub timestamp: u64,
}

/// Where the refresh loop stands.
#[derive(Clone, Copy, Debug, PartialEq, Eq, Structural)]
pub enum LoopPhase {
    /// Waiting for a wake signal or for cancellation.
    Idle,
    /// Holding the freshness gate exclusively while both upstream fetches run.
    Refreshing,
    /// Cancelled while idle; ended without error.
    Stopped,
    /// Ended by a fatal error.
    Failed,
}

/// What a read hands back when it does not fail.
#[derive(Clone, Copy, Debug, PartialEq, Eq)]
pub enum Read<T> {
    /// The cache is fresh: the value is served at once.
    Ready(T),
    /// The cache is stale: wait for the next publish, then take the published value.
    Wait,
}

/// The one error a reader can see.
#[derive(Clone, Copy, Debug, PartialEq, Eq, Structural)]
pub enum ReadErr {
    /// The refresh loop ended with an error, so no refresh will come.
    RefreshUnavailable,
}

} // verus!
