use vstd::prelude::*;

verus! {

/// A 256-bit account identity on the ledger, held as four 64-bit words and
/// compared by value. The substrate authenticates callers; here an identity
/// is ordinary data.
#[derive(Clone, Copy, PartialEq, Eq, Structural, Debug)]
pub struct Pubkey {
    pub w0: u64,
    pub w1: u64,
    pub w2: u64,
    pub w3: u64,
}

} // verus!
