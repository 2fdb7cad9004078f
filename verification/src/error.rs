//! How a synchronisation fails.

use vstd::prelude::*;
use vstd::std_specs::convert::FromSpecImpl;

verus! {

/// What can go wrong inside a pass.
#[derive(Clone, Copy, Debug, PartialEq, Eq, Structural)]
pub enum InternalError {
    /// A query failed, or the server's data contradicts itself.
    Failed,
    /// Two answers taken at different times disagree: the chain has moved.
    Inconsistency,
}

/// What a caller is told when a synchronisation did not run to its end.
#[derive(Clone, Copy, Debug, PartialEq, Eq, Structural)]
pub enum TxSyncError {
    /// A query failed or the server's data did not hold together. Trying
    /// again later may succeed.
    Failed,
    /// A sink reported a confirmed transaction without the block that
    /// confirmed it. Trying again will not help.
    UntrackedConfirmation,
}

impl From<InternalError> for TxSyncError {
    fn from(err: InternalError) -> (r: Self) {
        TxSyncError::Failed
    }
}

impl FromSpecImpl<InternalError> for TxSyncError {
    open spec fn obeys_from_spec() -> bool {
        true
    }

    open spec fn from_spec(err: InternalError) -> Self {
        TxSyncError::Failed
    }
}

impl TxSyncError {
    /// The error in words.
    pub fn message(&self) -> (r: &'static str)
        ensures
            r@ == (match *self {
                TxSyncError::Failed => "Failed to conduct transaction sync."@,
                TxSyncError::UntrackedConfirmation =>
                    "Untracked confirmation of funding transaction."@,
            }),
    {
        match self {
            TxSyncError::Failed => "Failed to conduct transaction sync.",
            TxSyncError::UntrackedConfirmation => "Untracked confirmation of funding transaction.",
        }
    }
}

} // verus!
