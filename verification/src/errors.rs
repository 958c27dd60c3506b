use vstd::prelude::*;

verus! {

/// Failures of the ledger operations. Every failure aborts the whole
/// operation: no error leaves a partial mutation behind.
#[derive(Clone, Copy, PartialEq, Eq, Structural, Debug)]
pub enum LedgerError {
    /// The caller is not the authority the operation demands.
    Unauthorized,
    /// An addition or multiplication would leave the numeric range;
    /// the ledger never wraps silently.
    ArithmeticOverflow,
    /// The external minting step rejected the request.
    MintFailure,
}

} // verus!
