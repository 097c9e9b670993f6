use soroban_playground::staking_derivatives::{Error, StakingDerivatives, RATE_PRECISION, SECONDS_PER_YEAR};

const ADMIN: u64 = 1;
const STAKER: u64 = 2;
const VALIDATOR: u64 = 3;

fn ready() -> StakingDerivatives {
    let mut c = StakingDerivatives::new();
    // 10% a year, a 100-second unbonding period
    c.initialize(0, ADMIN, 1_000, 100).unwrap();
    c
}

#[test]
fn initialize_checks_its_parameters() {
    let mut c = StakingDerivatives::new();
    assert_eq!(c.get_exchange_rate(), Err(Error::NotInitialized));
    assert_eq!(c.initialize(0, ADMIN, 0, 100), Err(Error::InvalidRate));
    assert_eq!(c.initialize(0, ADMIN, 10_001, 100), Err(Error::InvalidRate));
    assert_eq!(c.initialize(0, ADMIN, 1_000, 0), Err(Error::InvalidPeriod));
    c.initialize(0, ADMIN, 1_000, 100).unwrap();
    assert_eq!(c.initialize(0, ADMIN, 1_000, 100), Err(Error::AlreadyInitialized));
    assert_eq!(c.get_exchange_rate(), Ok(RATE_PRECISION));
}

#[test]
fn a_year_of_accrual_at_ten_percent() {
    let mut c = ready();
    assert_eq!(c.accrue(SECONDS_PER_YEAR as u64), Ok(1_100_000));
    // accruing again at the same moment changes nothing
    assert_eq!(c.accrue(SECONDS_PER_YEAR as u64), Ok(1_100_000));
    assert_eq!(c.preview_stake(1_100), Ok(1_000));
    assert_eq!(c.preview_unstake(1_000), Ok(1_100));
}

#[test]
fn stake_unstake_and_claim_after_unbonding() {
    let mut c = ready();
    assert_eq!(c.stake(0, STAKER, 0), Err(Error::ZeroAmount));
    assert_eq!(c.stake(0, STAKER, 1_000), Ok(1_000));
    let info = c.get_user_info(STAKER).unwrap();
    assert_eq!((info.lst_balance, info.underlying_value), (1_000, 1_000));
    assert_eq!(c.unstake(10, STAKER, 2_000), Err(Error::InsufficientBalance));
    let (amount, release) = c.unstake(10, STAKER, 400).unwrap();
    assert_eq!(release, 110);
    assert!(amount >= 400);
    assert_eq!(c.claim_unbonded(50, STAKER, 0), Err(Error::UnbondNotReady));
    assert_eq!(c.claim_unbonded(110, STAKER, 0), Ok(amount));
    assert_eq!(c.claim_unbonded(111, STAKER, 0), Err(Error::AlreadyClaimed));
    assert_eq!(c.claim_unbonded(111, STAKER, 5), Err(Error::InvalidEntry));
    assert!(c.get_unbond_entry(STAKER, 0).unwrap().claimed);
}

#[test]
fn admin_delegates_and_pauses() {
    let mut c = ready();
    assert_eq!(c.delegate_to_validator(STAKER, VALIDATOR, 5), Err(Error::Unauthorized));
    c.delegate_to_validator(ADMIN, VALIDATOR, 5).unwrap();
    assert_eq!(c.get_validator_stake(VALIDATOR), Ok(5));
    c.set_paused(ADMIN, true).unwrap();
    assert_eq!(c.stake(0, STAKER, 10), Err(Error::Paused));
    assert_eq!(c.set_reward_rate(0, ADMIN, 20_000), Err(Error::InvalidRate));
}
