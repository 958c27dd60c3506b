use vstd::prelude::*;

use crate::keys::Pubkey;
use crate::sensor::SensorType;

verus! {

/// The singleton global configuration: the admin identity, the bump seeds
/// that locate the record and the reward mint, and one reward rate per
/// sensor category. Created once; no operation mutates it afterwards.
#[derive(Clone, Copy, PartialEq, Eq, Structural, Debug)]
pub struct Config {
    pub admin: Pubkey,
    pub rewards_bump: u8,
    pub reward_temp: u8,
    pub reward_noise: u8,
    pub reward_vibration: u8,
    pub reward_heat: u8,
    pub bump: u8,
}

impl Config {
    /// The reward rate the configuration assigns to one category.
    pub open spec fn rate_of(self, sensor: SensorType) -> u8 {
        match sensor {
            SensorType::Noise => self.reward_noise,
            SensorType::Temp => self.reward_temp,
            SensorType::Vibration => self.reward_vibration,
            SensorType::Heat => self.reward_heat,
        }
    }

    /// The reward rate for one category, widened to the counters' width.
    pub fn rate(&self, sensor: SensorType) -> (r: u32)
        ensures
            r == self.rate_of(sensor),
    {
        match sensor {
            SensorType::Noise => self.reward_noise as u32,
            SensorType::Temp => self.reward_temp as u32,
            SensorType::Vibration => self.reward_vibration as u32,
            SensorType::Heat => self.reward_heat as u32,
        }
    }
}

/// One user's ledger record: the owning identity, four point counters
/// (one per sensor category), and the bump seed that locates the record.
#[derive(Clone, Copy, PartialEq, Eq, Structural, Debug)]
pub struct UserConfig {
    pub user: Pubkey,
    pub temp_points: u32,
    pub noise_points: u32,
    pub vibration_points: u32,
    pub heat_points: u32,
    pub bump: u8,
}

impl UserConfig {
    /// The counter the ledger keeps for one category.
    pub open spec fn points_of(self, sensor: SensorType) -> u32 {
        match sensor {
            SensorType::Noise => self.noise_points,
            SensorType::Temp => self.temp_points,
            SensorType::Vibration => self.vibration_points,
            SensorType::Heat => self.heat_points,
        }
    }

    /// The same ledger with one category's counter replaced and every
    /// other field untouched.
    pub open spec fn with_points(self, sensor: SensorType, v: u32) -> UserConfig {
        match sensor {
            SensorType::Noise => UserConfig { noise_points: v, ..self },
            SensorType::Temp => UserConfig { temp_points: v, ..self },
            SensorType::Vibration => UserConfig { vibration_points: v, ..self },
            SensorType::Heat => UserConfig { heat_points: v, ..self },
        }
    }

    /// The same ledger with all four counters reset to zero.
    pub open spec fn zeroed(self) -> UserConfig {
        UserConfig {
            temp_points: 0,
            noise_points: 0,
            vibration_points: 0,
            heat_points: 0,
            ..self
        }
    }

    /// All four counters are zero.
    pub open spec fn all_zero(self) -> bool {
        self.temp_points == 0 && self.noise_points == 0 && self.vibration_points == 0
            && self.heat_points == 0
    }

    /// A fresh ledger for `user`: every counter at zero.
    pub open spec fn fresh(user: Pubkey, bump: u8) -> UserConfig {
        UserConfig {
            user,
            temp_points: 0,
            noise_points: 0,
            vibration_points: 0,
            heat_points: 0,
            bump,
        }
    }

    /// The counter kept for one category.
    pub fn points(&self, sensor: SensorType) -> (r: u32)
        ensures
            r == self.points_of(sensor),
    {
        match sensor {
            SensorType::Noise => self.noise_points,
            SensorType::Temp => self.temp_points,
            SensorType::Vibration => self.vibration_points,
            SensorType::Heat => self.heat_points,
        }
    }
}

} // verus!
