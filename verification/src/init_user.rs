use vstd::prelude::*;

use crate::errors::LedgerError;
use crate::guard::authorize;
use crate::keys::Pubkey;
use crate::state::Config;
use crate::state::UserConfig;

verus! {

/// The registration operation's view of the transaction: the signing
/// caller, the freshly allocated ledger record it fills, and the global
/// configuration it is checked against. The substrate creates the record
/// at the address derived from the target user's identity, at most once
/// per user.
pub struct InitializeUser {
    /// The authenticated caller; must be the admin.
    pub admin: Pubkey,
    /// The ledger record being created.
    pub user_config: UserConfig,
    /// The singleton configuration, read for the admin identity.
    pub config: Config,
}

/// Exactly what a registration run does: under the admin it writes a fresh
/// ledger for the target user with every counter at zero; under any other
/// caller it fails `Unauthorized` and leaves all state unchanged. The
/// configuration is never written.
pub open spec fn initialize_user_transition(
    pre: InitializeUser,
    post: InitializeUser,
    user_key: Pubkey,
    user_bump: u8,
    r: Result<(), LedgerError>,
) -> bool {
    &&& post.admin == pre.admin
    &&& post.config == pre.config
    &&& if pre.admin == pre.config.admin {
        &&& r is Ok
        &&& post.user_config == UserConfig::fresh(user_key, user_bump)
    } else {
        &&& r == Err::<(), LedgerError>(LedgerError::Unauthorized)
        &&& post == pre
    }
}

impl InitializeUser {
    /// Registers a user: only the admin may do so, and the new ledger
    /// starts with all four counters at zero.
    pub fn initialize_user(&mut self, user_key: Pubkey, user_bump: u8) -> (r: Result<
        (),
        LedgerError,
    >)
        ensures
            initialize_user_transition(*old(self), *final(self), user_key, user_bump, r),
    {
        authorize(&self.admin, &self.config)?;
        self.user_config = UserConfig {
            user: user_key,
            temp_points: 0,
            noise_points: 0,
            heat_points: 0,
            vibration_points: 0,
            bump: user_bump,
        };
        Ok(())
    }
}

} // verus!
