//! A points-accrual and redemption ledger: an admin credits per-category
//! sensor points to registered users, and a user redeems their own points
//! for a reward amount weighted by fixed per-category rates, atomically
//! with the external mint step. Every operation's effect is stated as an
//! exact transition relation and proved, with all arithmetic
//! overflow-checked.

pub mod claim;
pub mod errors;
pub mod guard;
pub mod init;
pub mod init_user;
pub mod keys;
pub mod laws;
pub mod sensor;
pub mod state;
pub mod update_points;

use vstd::prelude::*;

use crate::claim::claim_transition;
use crate::claim::Claim;
use crate::errors::LedgerError;
use crate::init::initialize_transition;
use crate::init::Initialize;
use crate::init_user::initialize_user_transition;
use crate::init_user::InitializeUser;
use crate::keys::Pubkey;
use crate::sensor::SensorType;
use crate::update_points::update_points_transition;
use crate::update_points::UpdatePoints;

verus! {

/// Bootstraps the system: creates the singleton configuration with the
/// caller as admin and the four reward rates fixed for good.
pub fn initialize(
    ctx: &mut Initialize,
    reward_temp: u8,
    reward_noise: u8,
    reward_vibration: u8,
    reward_heat: u8,
    rewards_bump: u8,
    config_bump: u8,
) -> (r: Result<(), LedgerError>)
    ensures
        initialize_transition(
            *old(ctx),
            *final(ctx),
            reward_temp,
            reward_noise,
            reward_vibration,
            reward_heat,
            rewards_bump,
            config_bump,
            r,
        ),
{
    ctx.initialize(reward_temp, reward_noise, reward_vibration, reward_heat, rewards_bump, config_bump)
}

/// Registers a user: admin-only; the new ledger starts at zero everywhere.
pub fn initialize_user(ctx: &mut InitializeUser, user_key: Pubkey, user_bump: u8) -> (r: Result<
    (),
    LedgerError,
>)
    ensures
        initialize_user_transition(*old(ctx), *final(ctx), user_key, user_bump, r),
{
    ctx.initialize_user(user_key, user_bump)
}

/// Accrues points to one category of the target user's ledger: admin-only
/// and overflow-checked.
pub fn update_points(ctx: &mut UpdatePoints, sensor_type: SensorType, value: u32) -> (r: Result<
    (),
    LedgerError,
>)
    ensures
        update_points_transition(*old(ctx), *final(ctx), sensor_type, value, r),
{
    ctx.update_points(sensor_type, value)
}

/// Redeems the caller's points for the scaled weighted total, resetting
/// the counters only when the external mint step committed.
pub fn claim(ctx: &mut Claim, mint_accepted: bool) -> (r: Result<u64, LedgerError>)
    ensures
        claim_transition(*old(ctx), *final(ctx), mint_accepted, r),
        old(ctx).wf() ==> final(ctx).wf(),
{
    ctx.claim(mint_accepted)
}

} // verus!
