use vstd::prelude::*;

use crate::claim::claim_fits;
use crate::claim::claim_transition;
use crate::claim::lemma_pow10_pos;
use crate::claim::pow10;
use crate::claim::reward_units;
use crate::claim::weighted_total;
use crate::claim::Claim;
use crate::errors::LedgerError;
use crate::init_user::initialize_user_transition;
use crate::init_user::InitializeUser;
use crate::keys::Pubkey;
use crate::sensor::SensorType;
use crate::update_points::update_points_transition;
use crate::update_points::UpdatePoints;

verus! {

/// Accrual is admin-gated: under any caller other than the stored admin it
/// fails `Unauthorized` and leaves all state unchanged.
pub proof fn lemma_accrue_requires_admin(
    pre: UpdatePoints,
    post: UpdatePoints,
    sensor_type: SensorType,
    value: u32,
    r: Result<(), LedgerError>,
)
    requires
        update_points_transition(pre, post, sensor_type, value, r),
        pre.admin != pre.config.admin,
    ensures
        r == Err::<(), LedgerError>(LedgerError::Unauthorized),
        post == pre,
{
}

/// Registration is admin-gated: under any caller other than the stored
/// admin it fails `Unauthorized` and leaves all state unchanged.
pub proof fn lemma_register_requires_admin(
    pre: InitializeUser,
    post: InitializeUser,
    user_key: Pubkey,
    user_bump: u8,
    r: Result<(), LedgerError>,
)
    requires
        initialize_user_transition(pre, post, user_key, user_bump, r),
        pre.admin != pre.config.admin,
    ensures
        r == Err::<(), LedgerError>(LedgerError::Unauthorized),
        post == pre,
{
}

/// Accrual never wraps: whenever the addressed counter plus the credited
/// amount exceeds the 32-bit range, accrual fails `ArithmeticOverflow`
/// and the counter (with all other state) is unchanged.
pub proof fn lemma_accrue_overflow_safe(
    pre: UpdatePoints,
    post: UpdatePoints,
    sensor_type: SensorType,
    value: u32,
    r: Result<(), LedgerError>,
)
    requires
        update_points_transition(pre, post, sensor_type, value, r),
        pre.admin == pre.config.admin,
        pre.user_config.points_of(sensor_type) + value > u32::MAX,
    ensures
        r == Err::<(), LedgerError>(LedgerError::ArithmeticOverflow),
        post == pre,
        post.user_config.points_of(sensor_type) == pre.user_config.points_of(sensor_type),
{
}

/// A successful accrual raises exactly the addressed counter by exactly
/// the credited amount: every other counter, the owner, and the
/// configuration keep their values.
pub proof fn lemma_accrue_touches_one_counter(
    pre: UpdatePoints,
    post: UpdatePoints,
    sensor_type: SensorType,
    value: u32,
    r: Result<(), LedgerError>,
)
    requires
        update_points_transition(pre, post, sensor_type, value, r),
        r is Ok,
    ensures
        post.user_config.points_of(sensor_type) == pre.user_config.points_of(sensor_type) + value,
        forall|other: SensorType|
            other != sensor_type ==> post.user_config.points_of(other)
                == pre.user_config.points_of(other),
        post.user_config.user == pre.user_config.user,
        post.config == pre.config,
{
}

/// A counter never decreases through accrual, whatever the outcome: only
/// redemption's atomic reset ever lowers one.
pub proof fn lemma_accrue_never_decreases(
    pre: UpdatePoints,
    post: UpdatePoints,
    sensor_type: SensorType,
    value: u32,
    r: Result<(), LedgerError>,
)
    requires
        update_points_transition(pre, post, sensor_type, value, r),
    ensures
        forall|s: SensorType|
            post.user_config.points_of(s) >= pre.user_config.points_of(s),
{
}

/// Redemption is self-service and self-contained: the one ledger record
/// the transaction holds is bound to the caller by its derived address
/// (`wf`), it still belongs to the caller afterwards, and no other user's
/// record is part of the transaction at all.
pub proof fn lemma_claim_touches_only_own_ledger(
    pre: Claim,
    post: Claim,
    mint_accepted: bool,
    r: Result<u64, LedgerError>,
)
    requires
        pre.wf(),
        claim_transition(pre, post, mint_accepted, r),
    ensures
        post.wf(),
        post.user == pre.user,
        post.user_config.user == pre.user,
{
}

/// A successful redemption pays exactly the rate-weighted sum of the four
/// counters, scaled by ten to the mint's decimals, and resets all four
/// counters to zero.
pub proof fn lemma_claim_pays_weighted_total(
    pre: Claim,
    post: Claim,
    r: Result<u64, LedgerError>,
)
    requires
        claim_transition(pre, post, true, r),
        claim_fits(pre.config, pre.user_config, pre.rewards_decimals),
    ensures
        r == Ok::<u64, LedgerError>(
            (weighted_total(pre.config, pre.user_config) * pow10(
                pre.rewards_decimals as nat,
            )) as u64,
        ),
        post.user_config.all_zero(),
        post.user_config.user == pre.user_config.user,
{
}

/// Redemption is atomic: when the external mint step does not commit, the
/// whole operation fails and every counter retains its pre-redemption
/// value; no partial state survives any failed redemption.
pub proof fn lemma_claim_atomic_on_mint_failure(
    pre: Claim,
    post: Claim,
    r: Result<u64, LedgerError>,
)
    requires
        claim_transition(pre, post, false, r),
    ensures
        r is Err,
        post == pre,
{
}

/// Redemption is not idempotent: starting from a ledger whose weighted
/// total is positive, a first successful redemption pays a positive
/// amount, and an immediate second redemption, with nothing accrued in
/// between, pays exactly zero and changes nothing.
pub proof fn lemma_claim_not_idempotent(
    pre: Claim,
    mid: Claim,
    post: Claim,
    r1: Result<u64, LedgerError>,
    r2: Result<u64, LedgerError>,
)
    requires
        claim_transition(pre, mid, true, r1),
        claim_transition(mid, post, true, r2),
        claim_fits(pre.config, pre.user_config, pre.rewards_decimals),
        weighted_total(pre.config, pre.user_config) > 0,
    ensures
        r1 matches Ok(a1) && a1 > 0,
        r2 == Ok::<u64, LedgerError>(0u64),
        post == mid,
{
    lemma_pow10_pos(pre.rewards_decimals as nat);
    assert(weighted_total(pre.config, pre.user_config) * pow10(pre.rewards_decimals as nat) >= 1)
        by (nonlinear_arith)
        requires
            weighted_total(pre.config, pre.user_config) >= 1,
            pow10(pre.rewards_decimals as nat) >= 1,
    ;
    assert(mid.user_config.all_zero());
    assert(weighted_total(mid.config, mid.user_config) == 0);
    assert(reward_units(mid.config, mid.user_config, mid.rewards_decimals) == 0);
    assert(claim_fits(mid.config, mid.user_config, mid.rewards_decimals));
    assert(post.user_config == mid.user_config);
}

} // verus!
