use vstd::prelude::*;

verus! {

/// A fatal error of the refresh loop, handed to the supervisor that owns it.
///
/// Both kinds are recoverable by restarting the loop; the code tells them apart.
#[derive(Clone, Debug, PartialEq, Eq)]
pub enum ChainMonitorErr {
    /// An upstream call failed (transport, node error) or answered without what was asked
    /// (no block in the response); holds the message.
    RpcErr(String),
    /// Anything else: an internal invariant of the loop that did not hold.
    UnexpectedErr(String),
}

/// The code of an upstream failure.
pub open spec fn rpc_err_code() -> Seq<char> {
    "[B-CHM-400]"@
}

/// The code of any other failure.
pub open spec fn unexpected_err_code() -> Seq<char> {
    "[B-CHM-500]"@
}

impl ChainMonitorErr {
    /// The error's classification code.
    pub fn code(&self) -> (r: &'static str)
        ensures
            self is RpcErr ==> r@ == rpc_err_code(),
            self is UnexpectedErr ==> r@ == unexpected_err_code(),
    {
        match self {
            ChainMonitorErr::RpcErr(_) => "[B-CHM-400]",
            ChainMonitorErr::UnexpectedErr(_) => "[B-CHM-500]",
        }
    }
}

} // verus!
