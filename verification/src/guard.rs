use vstd::prelude::*;

use crate::errors::LedgerError;
use crate::keys::Pubkey;
use crate::state::Config;

verus! {

/// The authorization guard: admits exactly the stored admin identity.
/// A pure check with no side effect; every admin-gated operation runs it
/// before touching any state.
pub fn authorize(caller: &Pubkey, config: &Config) -> (r: Result<(), LedgerError>)
    ensures
        r == (if *caller == config.admin {
            Ok::<(), LedgerError>(())
        } else {
            Err::<(), LedgerError>(LedgerError::Unauthorized)
        }),
{
    if *caller == config.admin {
        Ok(())
    } else {
        Err(LedgerError::Unauthorized)
    }
}

} // verus!
