use vstd::prelude::*;

use crate::errors::LedgerError;
use crate::keys::Pubkey;
use crate::state::Config;
use crate::state::UserConfig;

verus! {

/// Ten to the `n`th power.
pub open spec fn pow10(n: nat) -> nat
    decreases n,
{
    if n == 0 {
        1
    } else {
        10 * pow10((n - 1) as nat)
    }
}

pub proof fn lemma_pow10_pos(n: nat)
    ensures
        pow10(n) >= 1,
    decreases n,
{
    if n > 0 {
        lemma_pow10_pos((n - 1) as nat);
    }
}

pub proof fn lemma_pow10_mono(a: nat, b: nat)
    requires
        a <= b,
    ensures
        pow10(a) <= pow10(b),
    decreases b,
{
    if a < b {
        lemma_pow10_mono(a, (b - 1) as nat);
        lemma_pow10_pos((b - 1) as nat);
    }
}

/// Each per-category product `points * rate` fits in 32 bits.
pub open spec fn products_fit(c: Config, u: UserConfig) -> bool {
    &&& u.temp_points * c.reward_temp <= u32::MAX
    &&& u.noise_points * c.reward_noise <= u32::MAX
    &&& u.vibration_points * c.reward_vibration <= u32::MAX
    &&& u.heat_points * c.reward_heat <= u32::MAX
}

/// The rate-weighted sum of the four counters, over the unbounded integers.
pub open spec fn weighted_total(c: Config, u: UserConfig) -> int {
    u.temp_points * c.reward_temp + u.noise_points * c.reward_noise + u.vibration_points
        * c.reward_vibration + u.heat_points * c.reward_heat
}

/// The amount a redemption pays out, in the reward's smallest unit: the
/// weighted total scaled by ten to the reward's decimals.
pub open spec fn reward_units(c: Config, u: UserConfig, decimals: u8) -> int {
    weighted_total(c, u) * pow10(decimals as nat)
}

/// Every arithmetic step of a redemption stays in range: the four products
/// and their sum fit in 32 bits, and the scaled amount fits in 64 bits.
pub open spec fn claim_fits(c: Config, u: UserConfig, decimals: u8) -> bool {
    &&& products_fit(c, u)
    &&& weighted_total(c, u) <= u32::MAX
    &&& reward_units(c, u, decimals) <= u64::MAX
}

/// Scales a whole-point total into the reward's smallest unit, multiplying
/// by ten once per decimal and refusing to overflow 64 bits.
fn scale_points(total: u32, decimals: u8) -> (r: Option<u64>)
    ensures
        r is Some <==> total * pow10(decimals as nat) <= u64::MAX,
        r matches Some(a) ==> a == total * pow10(decimals as nat),
{
    let mut acc: u64 = total as u64;
    let mut i: u8 = 0;
    proof {
        assert(pow10(0) == 1);
        assert(acc == total * pow10(0)) by (nonlinear_arith)
            requires
                acc == total,
                pow10(0) == 1,
        ;
    }
    while i < decimals
        invariant
            i <= decimals,
            acc == total * pow10(i as nat),
        decreases decimals - i,
    {
        let ghost p = pow10(i as nat);
        acc = match acc.checked_mul(10) {
            Some(v) => v,
            None => {
                proof {
                    assert(pow10((i + 1) as nat) == 10 * p);
                    assert(total * pow10((i + 1) as nat) == acc * 10) by (nonlinear_arith)
                        requires
                            acc == total * p,
                            pow10((i + 1) as nat) == 10 * p,
                    ;
                    lemma_pow10_mono((i + 1) as nat, decimals as nat);
                    assert(total * pow10(decimals as nat) >= total * pow10((i + 1) as nat))
                        by (nonlinear_arith)
                        requires
                            pow10(decimals as nat) >= pow10((i + 1) as nat),
                    ;
                }
                return None;
            },
        };
        proof {
            assert(pow10((i + 1) as nat) == 10 * p);
            assert(total * pow10((i + 1) as nat) == (total * p) * 10) by (nonlinear_arith)
                requires
                    pow10((i + 1) as nat) == 10 * p,
            ;
        }
        i = i + 1;
    }
    Some(acc)
}

/// The redemption operation's view of the transaction: the signing caller,
/// the caller's own ledger record, the global configuration supplying the
/// rates, and the decimals of the reward mint. The substrate derives the
/// ledger's address from the caller's identity, so the record a redemption
/// holds is the caller's own: that binding is `wf`.
pub struct Claim {
    /// The authenticated caller, redeeming for itself.
    pub user: Pubkey,
    /// The caller's own ledger record.
    pub user_config: UserConfig,
    /// The singleton configuration, read for the rates.
    pub config: Config,
    /// The reward mint's decimals: one whole point pays ten to this many
    /// of the mint's smallest unit.
    pub rewards_decimals: u8,
}

/// Exactly what a redemption run does, for each outcome of the external
/// mint step: when any arithmetic step would overflow it fails
/// `ArithmeticOverflow`; when the mint step was refused it fails
/// `MintFailure`; in either failure all state is unchanged. Otherwise it
/// pays the scaled weighted total and resets all four counters to zero,
/// touching neither the owner, the configuration, nor the decimals.
pub open spec fn claim_transition(
    pre: Claim,
    post: Claim,
    mint_accepted: bool,
    r: Result<u64, LedgerError>,
) -> bool {
    &&& post.user == pre.user
    &&& post.config == pre.config
    &&& post.rewards_decimals == pre.rewards_decimals
    &&& if !claim_fits(pre.config, pre.user_config, pre.rewards_decimals) {
        &&& r == Err::<u64, LedgerError>(LedgerError::ArithmeticOverflow)
        &&& post == pre
    } else if !mint_accepted {
        &&& r == Err::<u64, LedgerError>(LedgerError::MintFailure)
        &&& post == pre
    } else {
        &&& r == Ok::<u64, LedgerError>(
            reward_units(pre.config, pre.user_config, pre.rewards_decimals) as u64,
        )
        &&& post.user_config == pre.user_config.zeroed()
    }
}

impl Claim {
    /// The record under redemption is the caller's own: the substrate's
    /// address derivation binds the two identities together.
    pub open spec fn wf(self) -> bool {
        self.user_config.user == self.user
    }

    /// The amount this redemption would pay, computed with overflow-checked
    /// multiplication and addition throughout: the rate-weighted sum of the
    /// four counters, scaled by ten to the mint's decimals. Reads only.
    pub fn reward_amount(&self) -> (r: Result<u64, LedgerError>)
        ensures
            r == (if claim_fits(self.config, self.user_config, self.rewards_decimals) {
                Ok::<u64, LedgerError>(
                    reward_units(self.config, self.user_config, self.rewards_decimals) as u64,
                )
            } else {
                Err::<u64, LedgerError>(LedgerError::ArithmeticOverflow)
            }),
    {
        let temp_points = match self.user_config.temp_points.checked_mul(
            self.config.reward_temp as u32,
        ) {
            Some(v) => v,
            None => {
                return Err(LedgerError::ArithmeticOverflow);
            },
        };
        let noise_points = match self.user_config.noise_points.checked_mul(
            self.config.reward_noise as u32,
        ) {
            Some(v) => v,
            None => {
                return Err(LedgerError::ArithmeticOverflow);
            },
        };
        let vibration_points = match self.user_config.vibration_points.checked_mul(
            self.config.reward_vibration as u32,
        ) {
            Some(v) => v,
            None => {
                return Err(LedgerError::ArithmeticOverflow);
            },
        };
        let heat_points = match self.user_config.heat_points.checked_mul(
            self.config.reward_heat as u32,
        ) {
            Some(v) => v,
            None => {
                return Err(LedgerError::ArithmeticOverflow);
            },
        };
        let sum_tn = match temp_points.checked_add(noise_points) {
            Some(v) => v,
            None => {
                return Err(LedgerError::ArithmeticOverflow);
            },
        };
        let sum_tnv = match sum_tn.checked_add(vibration_points) {
            Some(v) => v,
            None => {
                return Err(LedgerError::ArithmeticOverflow);
            },
        };
        let total_points = match sum_tnv.checked_add(heat_points) {
            Some(v) => v,
            None => {
                return Err(LedgerError::ArithmeticOverflow);
            },
        };
        match scale_points(total_points, self.rewards_decimals) {
            Some(amount) => Ok(amount),
            None => Err(LedgerError::ArithmeticOverflow),
        }
    }

    /// Redeems the caller's points. The surrounding runtime performs the
    /// external mint of `reward_amount` within the same transaction and
    /// reports its outcome as `mint_accepted`; the counters are reset only
    /// on a committed mint, so a refused mint leaves every counter exactly
    /// as it was. Returns the amount paid out.
    pub fn claim(&mut self, mint_accepted: bool) -> (r: Result<u64, LedgerError>)
        ensures
            claim_transition(*old(self), *final(self), mint_accepted, r),
            old(self).wf() ==> final(self).wf(),
    {
        let amount = match self.reward_amount() {
            Ok(a) => a,
            Err(e) => {
                return Err(e);
            },
        };
        if !mint_accepted {
            return Err(LedgerError::MintFailure);
        }
        self.user_config.noise_points = 0;
        self.user_config.temp_points = 0;
        self.user_config.vibration_points = 0;
        self.user_config.heat_points = 0;
        Ok(amount)
    }
}

} // verus!
