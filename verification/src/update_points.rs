use vstd::prelude::*;

use crate::errors::LedgerError;
use crate::guard::authorize;
use crate::keys::Pubkey;
use crate::sensor::SensorType;
use crate::state::Config;
use crate::state::UserConfig;

verus! {

/// The accrual operation's view of the transaction: the signing caller,
/// the target user's ledger record, and the global configuration. The
/// substrate binds the ledger record to its owner through the address it
/// was derived from, so this operation can only ever reach the record it
/// was handed.
pub struct UpdatePoints {
    /// The authenticated caller; must be the admin.
    pub admin: Pubkey,
    /// The target user's ledger record.
    pub user_config: UserConfig,
    /// The singleton configuration, read for the admin identity.
    pub config: Config,
}

/// Exactly what an accrual run does: under the admin it adds `value` to
/// the one addressed counter when the sum fits in 32 bits, fails
/// `ArithmeticOverflow` when it does not, and under any other caller
/// fails `Unauthorized`; on every failure all state is unchanged, and on
/// success no other counter, the owner, or the configuration is touched.
pub open spec fn update_points_transition(
    pre: UpdatePoints,
    post: UpdatePoints,
    sensor_type: SensorType,
    value: u32,
    r: Result<(), LedgerError>,
) -> bool {
    &&& post.admin == pre.admin
    &&& post.config == pre.config
    &&& if pre.admin != pre.config.admin {
        &&& r == Err::<(), LedgerError>(LedgerError::Unauthorized)
        &&& post == pre
    } else if pre.user_config.points_of(sensor_type) + value > u32::MAX {
        &&& r == Err::<(), LedgerError>(LedgerError::ArithmeticOverflow)
        &&& post == pre
    } else {
        &&& r is Ok
        &&& post.user_config == pre.user_config.with_points(
            sensor_type,
            (pre.user_config.points_of(sensor_type) + value) as u32,
        )
    }
}

impl UpdatePoints {
    /// Accrues points: only the admin may credit a user, the addition is
    /// overflow-checked (the ledger fails loud rather than wrap), and
    /// exactly one category's counter changes.
    pub fn update_points(&mut self, sensor_type: SensorType, value: u32) -> (r: Result<
        (),
        LedgerError,
    >)
        ensures
            update_points_transition(*old(self), *final(self), sensor_type, value, r),
    {
        authorize(&self.admin, &self.config)?;
        let current: u32 = self.user_config.points(sensor_type);
        let next: u32 = match current.checked_add(value) {
            Some(n) => n,
            None => {
                return Err(LedgerError::ArithmeticOverflow);
            },
        };
        match sensor_type {
            SensorType::Noise => {
                self.user_config.noise_points = next;
            },
            SensorType::Temp => {
                self.user_config.temp_points = next;
            },
            SensorType::Vibration => {
                self.user_config.vibration_points = next;
            },
            SensorType::Heat => {
                self.user_config.heat_points = next;
            },
        }
        Ok(())
    }
}

} // verus!
