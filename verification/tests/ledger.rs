use points_ledger::claim::Claim;
use points_ledger::errors::LedgerError;
use points_ledger::guard::authorize;
use points_ledger::init::Initialize;
use points_ledger::init_user::InitializeUser;
use points_ledger::keys::Pubkey;
use points_ledger::sensor::SensorType;
use points_ledger::state::Config;
use points_ledger::state::UserConfig;
use points_ledger::update_points::UpdatePoints;

fn key(tag: u64) -> Pubkey {
    Pubkey { w0: tag, w1: 2 * tag, w2: 3 * tag, w3: 4 * tag }
}

fn config(admin: Pubkey, rt: u8, rn: u8, rv: u8, rh: u8) -> Config {
    Config {
        admin,
        rewards_bump: 254,
        reward_temp: rt,
        reward_noise: rn,
        reward_vibration: rv,
        reward_heat: rh,
        bump: 255,
    }
}

fn ledger(user: Pubkey, temp: u32, noise: u32, vibration: u32, heat: u32) -> UserConfig {
    UserConfig {
        user,
        temp_points: temp,
        noise_points: noise,
        vibration_points: vibration,
        heat_points: heat,
        bump: 253,
    }
}

#[test]
fn initialize_sets_config() {
    let admin = key(1);
    let mut ctx = Initialize { admin, config: config(key(0), 0, 0, 0, 0) };
    let r = ctx.initialize(2, 1, 3, 1, 254, 255);
    assert_eq!(r, Ok(()));
    assert_eq!(ctx.config.admin, admin);
    assert_eq!(ctx.config.reward_temp, 2);
    assert_eq!(ctx.config.reward_noise, 1);
    assert_eq!(ctx.config.reward_vibration, 3);
    assert_eq!(ctx.config.reward_heat, 1);
    assert_eq!(ctx.config.rewards_bump, 254);
    assert_eq!(ctx.config.bump, 255);
}

#[test]
fn initialize_user_creates_zeroed_ledger() {
    let admin = key(1);
    let user = key(2);
    let mut ctx = InitializeUser {
        admin,
        user_config: ledger(key(0), 9, 9, 9, 9),
        config: config(admin, 2, 1, 3, 1),
    };
    let r = ctx.initialize_user(user, 250);
    assert_eq!(r, Ok(()));
    assert_eq!(ctx.user_config.user, user);
    assert_eq!(ctx.user_config.temp_points, 0);
    assert_eq!(ctx.user_config.noise_points, 0);
    assert_eq!(ctx.user_config.vibration_points, 0);
    assert_eq!(ctx.user_config.heat_points, 0);
    assert_eq!(ctx.user_config.bump, 250);
}

#[test]
fn initialize_user_rejects_non_admin() {
    let admin = key(1);
    let intruder = key(7);
    let before = ledger(key(0), 9, 9, 9, 9);
    let mut ctx = InitializeUser {
        admin: intruder,
        user_config: before,
        config: config(admin, 2, 1, 3, 1),
    };
    let r = ctx.initialize_user(key(2), 250);
    assert_eq!(r, Err(LedgerError::Unauthorized));
    assert_eq!(ctx.user_config, before);
}

#[test]
fn authorize_admits_exactly_the_admin() {
    let admin = key(1);
    let cfg = config(admin, 2, 1, 3, 1);
    assert_eq!(authorize(&admin, &cfg), Ok(()));
    assert_eq!(authorize(&key(9), &cfg), Err(LedgerError::Unauthorized));
}

#[test]
fn update_points_accrues_one_counter() {
    let admin = key(1);
    let user = key(2);
    let mut ctx = UpdatePoints {
        admin,
        user_config: ledger(user, 10, 20, 30, 40),
        config: config(admin, 2, 1, 3, 1),
    };
    let r = ctx.update_points(SensorType::Vibration, 12);
    assert_eq!(r, Ok(()));
    assert_eq!(ctx.user_config.vibration_points, 42);
    assert_eq!(ctx.user_config.temp_points, 10);
    assert_eq!(ctx.user_config.noise_points, 20);
    assert_eq!(ctx.user_config.heat_points, 40);
    assert_eq!(ctx.user_config.user, user);
}

#[test]
fn update_points_rejects_non_admin() {
    let admin = key(1);
    let before = ledger(key(2), 10, 20, 30, 40);
    let mut ctx = UpdatePoints {
        admin: key(7),
        user_config: before,
        config: config(admin, 2, 1, 3, 1),
    };
    let r = ctx.update_points(SensorType::Noise, 7);
    assert_eq!(r, Err(LedgerError::Unauthorized));
    assert_eq!(ctx.user_config.noise_points, 20);
    assert_eq!(ctx.user_config, before);
}

#[test]
fn update_points_fails_loud_on_overflow() {
    let admin = key(1);
    let before = ledger(key(2), 1, u32::MAX - 2, 1, 1);
    let mut ctx = UpdatePoints { admin, user_config: before, config: config(admin, 2, 1, 3, 1) };
    let r = ctx.update_points(SensorType::Noise, 3);
    assert_eq!(r, Err(LedgerError::ArithmeticOverflow));
    assert_eq!(ctx.user_config, before);
    // the counter may still be filled to the brim exactly
    let r2 = ctx.update_points(SensorType::Noise, 2);
    assert_eq!(r2, Ok(()));
    assert_eq!(ctx.user_config.noise_points, u32::MAX);
}

#[test]
fn claim_pays_weighted_total_and_resets() {
    let admin = key(1);
    let user = key(2);
    let mut ctx = Claim {
        user,
        user_config: ledger(user, 10, 5, 0, 0),
        config: config(admin, 2, 1, 3, 1),
        rewards_decimals: 6,
    };
    let r = ctx.claim(true);
    // (10*2 + 5*1 + 0*3 + 0*1) * 10^6
    assert_eq!(r, Ok(25_000_000));
    assert_eq!(ctx.user_config.temp_points, 0);
    assert_eq!(ctx.user_config.noise_points, 0);
    assert_eq!(ctx.user_config.vibration_points, 0);
    assert_eq!(ctx.user_config.heat_points, 0);
    assert_eq!(ctx.user, user);
    assert_eq!(ctx.user_config.user, user);
}

#[test]
fn claim_with_zero_decimals_pays_raw_total() {
    let admin = key(1);
    let user = key(2);
    let ctx = Claim {
        user,
        user_config: ledger(user, 7, 11, 13, 17),
        config: config(admin, 2, 1, 3, 5),
        rewards_decimals: 0,
    };
    // 7*2 + 11*1 + 13*3 + 17*5 = 14 + 11 + 39 + 85 = 149
    assert_eq!(ctx.reward_amount(), Ok(149));
}

#[test]
fn claim_keeps_counters_when_mint_fails() {
    let admin = key(1);
    let user = key(2);
    let before = ledger(user, 10, 5, 0, 0);
    let mut ctx = Claim {
        user,
        user_config: before,
        config: config(admin, 2, 1, 3, 1),
        rewards_decimals: 6,
    };
    let r = ctx.claim(false);
    assert_eq!(r, Err(LedgerError::MintFailure));
    assert_eq!(ctx.user_config, before);
}

#[test]
fn claim_twice_pays_zero_the_second_time() {
    let admin = key(1);
    let user = key(2);
    let mut ctx = Claim {
        user,
        user_config: ledger(user, 10, 5, 0, 0),
        config: config(admin, 2, 1, 3, 1),
        rewards_decimals: 6,
    };
    let first = ctx.claim(true);
    assert_eq!(first, Ok(25_000_000));
    let second = ctx.claim(true);
    assert_eq!(second, Ok(0));
    assert_eq!(ctx.user_config.temp_points, 0);
    assert_eq!(ctx.user_config.noise_points, 0);
    assert_eq!(ctx.user_config.vibration_points, 0);
    assert_eq!(ctx.user_config.heat_points, 0);
}

#[test]
fn claim_fails_loud_when_a_product_overflows() {
    let admin = key(1);
    let user = key(2);
    let before = ledger(user, u32::MAX, 0, 0, 0);
    let mut ctx = Claim {
        user,
        user_config: before,
        config: config(admin, 255, 1, 1, 1),
        rewards_decimals: 6,
    };
    let r = ctx.claim(true);
    assert_eq!(r, Err(LedgerError::ArithmeticOverflow));
    assert_eq!(ctx.user_config, before);
}

#[test]
fn claim_fails_loud_when_the_sum_overflows() {
    let admin = key(1);
    let user = key(2);
    // each product fits in 32 bits, their sum does not
    let before = ledger(user, u32::MAX - 1, 3, 0, 0);
    let mut ctx = Claim {
        user,
        user_config: before,
        config: config(admin, 1, 1, 1, 1),
        rewards_decimals: 6,
    };
    let r = ctx.claim(true);
    assert_eq!(r, Err(LedgerError::ArithmeticOverflow));
    assert_eq!(ctx.user_config, before);
}

#[test]
fn claim_fails_loud_when_scaling_overflows() {
    let admin = key(1);
    let user = key(2);
    // 4294967295 * 10^12 exceeds 64 bits
    let before = ledger(user, u32::MAX, 0, 0, 0);
    let mut ctx = Claim {
        user,
        user_config: before,
        config: config(admin, 1, 1, 1, 1),
        rewards_decimals: 12,
    };
    let r = ctx.claim(true);
    assert_eq!(r, Err(LedgerError::ArithmeticOverflow));
    assert_eq!(ctx.user_config, before);
}

#[test]
fn claim_never_touches_another_ledger() {
    let admin = key(1);
    let user_a = key(2);
    let ledger_b = ledger(key(3), 100, 100, 100, 100);
    let mut ctx = Claim {
        user: user_a,
        user_config: ledger(user_a, 10, 5, 0, 0),
        config: config(admin, 2, 1, 3, 1),
        rewards_decimals: 6,
    };
    let r = ctx.claim(true);
    assert_eq!(r, Ok(25_000_000));
    // the transaction held only the caller's record, which it still owns
    assert_eq!(ctx.user_config.user, user_a);
    assert_eq!(ledger_b, ledger(key(3), 100, 100, 100, 100));
}
