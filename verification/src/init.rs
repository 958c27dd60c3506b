use vstd::prelude::*;

use crate::errors::LedgerError;
use crate::keys::Pubkey;
use crate::state::Config;

verus! {

/// The bootstrap operation's view of the transaction: the signing caller
/// and the freshly allocated configuration record it fills. The substrate
/// creates the record at the address derived from the fixed config tag,
/// at most once for the system's lifetime.
pub struct Initialize {
    /// The authenticated caller; bootstrap makes it the admin.
    pub admin: Pubkey,
    /// The singleton configuration record being created.
    pub config: Config,
}

/// Exactly what a bootstrap run does: it writes the configuration record
/// with the caller as admin and the given rates and bump seeds, touches
/// nothing else, and cannot fail.
pub open spec fn initialize_transition(
    pre: Initialize,
    post: Initialize,
    reward_temp: u8,
    reward_noise: u8,
    reward_vibration: u8,
    reward_heat: u8,
    rewards_bump: u8,
    config_bump: u8,
    r: Result<(), LedgerError>,
) -> bool {
    &&& r is Ok
    &&& post.admin == pre.admin
    &&& post.config == (Config {
        admin: pre.admin,
        rewards_bump,
        reward_temp,
        reward_noise,
        reward_vibration,
        reward_heat,
        bump: config_bump,
    })
}

impl Initialize {
    /// Creates the global configuration: the caller becomes the admin, the
    /// four per-category reward rates are fixed for good, and the two bump
    /// seeds record the derivations of the config record and the reward
    /// mint whose authority is delegated to the config record itself.
    pub fn initialize(
        &mut self,
        reward_temp: u8,
        reward_noise: u8,
        reward_vibration: u8,
        reward_heat: u8,
        rewards_bump: u8,
        config_bump: u8,
    ) -> (r: Result<(), LedgerError>)
        ensures
            initialize_transition(
                *old(self),
                *final(self),
                reward_temp,
                reward_noise,
                reward_vibration,
                reward_heat,
                rewards_bump,
                config_bump,
                r,
            ),
    {
        self.config = Config {
            admin: self.admin,
            rewards_bump,
            reward_temp,
            reward_noise,
            reward_vibration,
            reward_heat,
            bump: config_bump,
        };
        Ok(())
    }
}

} // verus!
