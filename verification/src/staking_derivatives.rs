//! A liquid staking derivative: stakers deposit the underlying token for
//! lstTokens at an exchange rate that accrues rewards over time; unstaking
//! queues the underlying for release after an unbonding period.
use vstd::prelude::*;
use std::collections::HashMap;
use crate::common::{Address, fits_i128, max_int, tdiv_signed, div_trunc};

verus! {

broadcast use vstd::std_specs::hash::group_hash_axioms;

/// One lstToken is worth `RATE_PRECISION` underlying units at genesis.
pub const RATE_PRECISION: i128 = 1_000_000;
/// Seconds per year (365.25 days).
pub const SECONDS_PER_YEAR: i128 = 31_557_600;
/// `10 000 * SECONDS_PER_YEAR`: the divisor of the accrual formula.
pub const ACCRUAL_DIVISOR: i128 = 315_576_000_000;

#[derive(Clone, Copy, Debug, PartialEq, Eq, Structural)]
pub enum Error {
    AlreadyInitialized,
    NotInitialized,
    Unauthorized,
    Paused,
    InvalidRate,
    InvalidPeriod,
    ZeroAmount,
    InsufficientBalance,
    InvalidEntry,
    AlreadyClaimed,
    UnbondNotReady,
    Overflow,
}

#[derive(Clone, Copy, Debug, PartialEq, Eq, Structural)]
pub struct UnbondEntry {
    pub amount: i128,
    pub release_ts: u64,
    pub claimed: bool,
}

#[derive(Clone, Copy, Debug, PartialEq, Eq, Structural)]
pub struct UserInfo {
    pub lst_balance: i128,
    pub underlying_value: i128,
    pub pending_unbond_count: u32,
}

#[derive(Clone, Copy, Debug, PartialEq, Eq, Structural)]
pub struct ProtocolMetrics {
    pub total_staked: i128,
    pub total_lst: i128,
    pub exchange_rate: i128,
    pub total_rewards: i128,
    pub total_unbonding: i128,
    pub last_accrual_ts: u64,
}

/// The protocol's storage.  Entry `i` of a staker's unbonding queue is
/// stored under `entry_key(staker, i)`.
pub struct StakingDerivatives {
    pub admin: Option<Address>,
    pub paused: bool,
    pub total_staked: i128,
    pub total_lst: i128,
    pub exchange_rate: i128,
    pub last_accrual_ts: u64,
    pub reward_rate_bps: i128,
    pub unbonding_period: u64,
    pub total_rewards: i128,
    pub total_unbonding: i128,
    pub lst_balances: HashMap<Address, i128>,
    pub unbond_counts: HashMap<Address, u32>,
    pub unbond_entries: HashMap<u128, UnbondEntry>,
    pub validator_stakes: HashMap<Address, i128>,
}

pub open spec fn entry_key(staker: Address, idx: u32) -> u128 {
    (staker as int * 0x1_0000_0000 + idx as int) as u128
}

fn entry_key_of(staker: Address, idx: u32) -> (k: u128)
    ensures
        k == entry_key(staker, idx),
{
    staker as u128 * 0x1_0000_0000 + idx as u128
}

/// The exchange rate and accrual time after accruing rewards up to `now`:
/// the rate grows by `rate * reward_bps * elapsed / (10 000 * year)`
/// (truncated); an overflowing product is an error.
pub open spec fn accrual(rate: i128, reward_bps: i128, last: u64, now: u64) -> Result<(i128, u64), Error> {
    if now <= last {
        Ok((rate, last))
    } else if !fits_i128(rate * reward_bps) || !fits_i128(rate * reward_bps * (now - last)) {
        Err(Error::Overflow)
    } else {
        Ok(((rate + tdiv_signed(rate * reward_bps * (now - last), ACCRUAL_DIVISOR as int)) as i128, now))
    }
}

impl StakingDerivatives {
    /// The rate never drops below its genesis value and the reward rate is
    /// a positive number of basis points.
    pub open spec fn wf(&self) -> bool {
        &&& self.exchange_rate >= RATE_PRECISION
        &&& 0 < self.reward_rate_bps <= 10_000
    }

    pub open spec fn spec_accrual(&self, now: u64) -> Result<(i128, u64), Error> {
        accrual(self.exchange_rate, self.reward_rate_bps, self.last_accrual_ts, now)
    }

    /// The accrued rate stays in range.
    pub open spec fn accrual_fits(&self, now: u64) -> bool {
        now > self.last_accrual_ts && fits_i128(self.exchange_rate * self.reward_rate_bps) && fits_i128(
            self.exchange_rate * self.reward_rate_bps * (now - self.last_accrual_ts),
        ) ==> fits_i128(
            self.exchange_rate + tdiv_signed(
                self.exchange_rate * self.reward_rate_bps * (now - self.last_accrual_ts),
                ACCRUAL_DIVISOR as int,
            ),
        )
    }

    pub open spec fn spec_lst(&self, a: Address) -> i128 {
        if self.lst_balances@.contains_key(a) {
            self.lst_balances@[a]
        } else {
            0
        }
    }

    pub open spec fn spec_count(&self, a: Address) -> u32 {
        if self.unbond_counts@.contains_key(a) {
            self.unbond_counts@[a]
        } else {
            0
        }
    }

    pub open spec fn spec_validator(&self, a: Address) -> i128 {
        if self.validator_stakes@.contains_key(a) {
            self.validator_stakes@[a]
        } else {
            0
        }
    }

    /// Storage before `initialize`, with the defaults its getters use.
    pub fn new() -> (s: Self)
        ensures
            s.wf(),
            s.admin is None,
            !s.paused,
            s.exchange_rate == RATE_PRECISION,
            s.reward_rate_bps == 500,
            s.unbonding_period == 604_800,
            s.total_staked == 0 && s.total_lst == 0 && s.total_rewards == 0 && s.total_unbonding == 0,
            s.last_accrual_ts == 0,
            s.lst_balances@ == Map::<Address, i128>::empty(),
            s.unbond_counts@ == Map::<Address, u32>::empty(),
            s.unbond_entries@ == Map::<u128, UnbondEntry>::empty(),
            s.validator_stakes@ == Map::<Address, i128>::empty(),
    {
        StakingDerivatives {
            admin: None,
            paused: false,
            total_staked: 0,
            total_lst: 0,
            exchange_rate: RATE_PRECISION,
            last_accrual_ts: 0,
            reward_rate_bps: 500,
            unbonding_period: 604_800,
            total_rewards: 0,
            total_unbonding: 0,
            lst_balances: HashMap::new(),
            unbond_counts: HashMap::new(),
            unbond_entries: HashMap::new(),
            validator_stakes: HashMap::new(),
        }
    }

    /// Set the admin, an annual reward rate of 1 to 10 000 bps and a
    /// positive unbonding period; the rate starts at 1:1 and accrues from
    /// `now`.
    pub fn initialize(&mut self, now: u64, admin: Address, reward_rate_bps: i128, unbonding_period: u64) -> (r:
        Result<(), Error>)
        requires
            old(self).wf(),
        ensures
            final(self).wf(),
            old(self).admin is Some ==> r == Err::<(), Error>(Error::AlreadyInitialized) && *final(self) == *old(self),
            old(self).admin is None && (reward_rate_bps <= 0 || reward_rate_bps > 10_000) ==> r == Err::<(), Error>(
                Error::InvalidRate,
            ) && *final(self) == *old(self),
            old(self).admin is None && 0 < reward_rate_bps <= 10_000 && unbonding_period == 0 ==> r == Err::<
                (),
                Error,
            >(Error::InvalidPeriod) && *final(self) == *old(self),
            old(self).admin is None && 0 < reward_rate_bps <= 10_000 && unbonding_period > 0 ==> r is Ok && *final(
                self) == (StakingDerivatives {
                admin: Some(admin),
                reward_rate_bps,
                unbonding_period,
                exchange_rate: RATE_PRECISION,
                last_accrual_ts: now,
                ..*old(self)
            }),
    {
        if self.admin.is_some() {
            return Err(Error::AlreadyInitialized);
        }
        if reward_rate_bps <= 0 || reward_rate_bps > 10_000 {
            return Err(Error::InvalidRate);
        }
        if unbonding_period == 0 {
            return Err(Error::InvalidPeriod);
        }
        self.admin = Some(admin);
        self.reward_rate_bps = reward_rate_bps;
        self.unbonding_period = unbonding_period;
        self.exchange_rate = RATE_PRECISION;
        self.last_accrual_ts = now;
        Ok(())
    }

    /// The accrued rate and accrual time at `now`, without storing them.
    fn accrued(&self, now: u64) -> (r: Result<(i128, u64), Error>)
        requires
            self.wf(),
            self.accrual_fits(now),
        ensures
            r == self.spec_accrual(now),
            r matches Ok(v) ==> v.0 >= self.exchange_rate,
    {
        if now <= self.last_accrual_ts {
            return Ok((self.exchange_rate, self.last_accrual_ts));
        }
        let elapsed = (now - self.last_accrual_ts) as i128;
        let a = match self.exchange_rate.checked_mul(self.reward_rate_bps) {
            Some(v) => v,
            None => return Err(Error::Overflow),
        };
        let b = match a.checked_mul(elapsed) {
            Some(v) => v,
            None => return Err(Error::Overflow),
        };
        assert(a >= 0 && b >= 0) by (nonlinear_arith)
            requires
                a == self.exchange_rate * self.reward_rate_bps,
                b == a * elapsed,
                self.exchange_rate >= 0,
                self.reward_rate_bps >= 0,
                elapsed >= 0,
        ;
        let delta = div_trunc(b, ACCRUAL_DIVISOR);
        Ok((self.exchange_rate + delta, now))
    }

    /// Why the protocol refuses writes, if it does.
    pub open spec fn active_error(&self) -> Option<Error> {
        if self.admin is None {
            Some(Error::NotInitialized)
        } else if self.paused {
            Some(Error::Paused)
        } else {
            None
        }
    }

    /// lstTokens minted for `amount` at `rate`.
    pub open spec fn minted(amount: int, rate: int) -> int {
        (amount * RATE_PRECISION) / rate
    }

    /// Why `stake` fails, if it does.
    pub open spec fn stake_error(&self, now: u64, amount: i128) -> Option<Error> {
        if self.active_error() is Some {
            self.active_error()
        } else if amount <= 0 {
            Some(Error::ZeroAmount)
        } else if self.spec_accrual(now) is Err {
            Some(Error::Overflow)
        } else if !fits_i128(amount * RATE_PRECISION) {
            Some(Error::Overflow)
        } else if Self::minted(amount as int, self.spec_accrual(now)->Ok_0.0 as int) == 0 {
            Some(Error::ZeroAmount)
        } else {
            None
        }
    }

    /// Stake `amount` underlying at the rate accrued to `now`; returns the
    /// lstTokens minted (`amount * 10^6 / rate`, truncated).
    pub fn stake(&mut self, now: u64, staker: Address, amount: i128) -> (r: Result<i128, Error>)
        requires
            old(self).wf(),
            old(self).accrual_fits(now),
            old(self).stake_error(now, amount) is None ==> {
                let m = Self::minted(amount as int, old(self).spec_accrual(now)->Ok_0.0 as int);
                fits_i128(old(self).spec_lst(staker) + m) && fits_i128(old(self).total_lst + m) && fits_i128(
                    old(self).total_staked + amount,
                )
            },
        ensures
            final(self).wf(),
            match old(self).stake_error(now, amount) {
                Some(e) => r == Err::<i128, Error>(e) && *final(self) == *old(self),
                None => {
                    let (rate, ts) = old(self).spec_accrual(now)->Ok_0;
                    let m = Self::minted(amount as int, rate as int);
                    &&& r == Ok::<i128, Error>(m as i128)
                    &&& final(self).exchange_rate == rate
                    &&& final(self).last_accrual_ts == ts
                    &&& final(self).lst_balances@ == old(self).lst_balances@.insert(
                        staker,
                        (old(self).spec_lst(staker) + m) as i128,
                    )
                    &&& final(self).total_lst == old(self).total_lst + m
                    &&& final(self).total_staked == old(self).total_staked + amount
                    &&& final(self).total_rewards == old(self).total_rewards
                    &&& final(self).total_unbonding == old(self).total_unbonding
                    &&& final(self).unbond_counts@ == old(self).unbond_counts@
                    &&& final(self).unbond_entries@ == old(self).unbond_entries@
                    &&& final(self).validator_stakes@ == old(self).validator_stakes@
                    &&& final(self).admin == old(self).admin
                    &&& final(self).paused == old(self).paused
                    &&& final(self).reward_rate_bps == old(self).reward_rate_bps
                    &&& final(self).unbonding_period == old(self).unbonding_period
                },
            },
    {
        if self.admin.is_none() {
            return Err(Error::NotInitialized);
        }
        if self.paused {
            return Err(Error::Paused);
        }
        if amount <= 0 {
            return Err(Error::ZeroAmount);
        }
        let (rate, ts) = self.accrued(now)?;
        let scaled = match amount.checked_mul(RATE_PRECISION) {
            Some(v) => v,
            None => return Err(Error::Overflow),
        };
        let minted = scaled / rate;
        if minted == 0 {
            return Err(Error::ZeroAmount);
        }
        self.exchange_rate = rate;
        self.last_accrual_ts = ts;
        let bal = self.load_lst(staker);
        self.lst_balances.insert(staker, bal + minted);
        self.total_lst = self.total_lst + minted;
        self.total_staked = self.total_staked + amount;
        Ok(minted)
    }

    fn load_lst(&self, a: Address) -> (b: i128)
        ensures
            b == self.spec_lst(a),
    {
        match self.lst_balances.get(&a) {
            Some(b) => *b,
            None => 0,
        }
    }

    fn load_count(&self, a: Address) -> (c: u32)
        ensures
            c == self.spec_count(a),
    {
        match self.unbond_counts.get(&a) {
            Some(c) => *c,
            None => 0,
        }
    }

    /// Underlying released for `lst_amount` at `rate`.
    pub open spec fn redeemed(lst_amount: int, rate: int) -> int {
        (lst_amount * rate) / (RATE_PRECISION as int)
    }

    /// Why `unstake` fails, if it does.
    pub open spec fn unstake_error(&self, now: u64, staker: Address, lst_amount: i128) -> Option<Error> {
        if self.active_error() is Some {
            self.active_error()
        } else if lst_amount <= 0 {
            Some(Error::ZeroAmount)
        } else if self.spec_lst(staker) < lst_amount {
            Some(Error::InsufficientBalance)
        } else if self.spec_accrual(now) is Err {
            Some(Error::Overflow)
        } else if !fits_i128(lst_amount * self.spec_accrual(now)->Ok_0.0) {
            Some(Error::Overflow)
        } else {
            None
        }
    }

    /// The balance and queue arithmetic of an unstake stays in range.
    pub open spec fn unstake_fits(&self, now: u64, staker: Address, lst_amount: i128) -> bool {
        let u = Self::redeemed(lst_amount as int, self.spec_accrual(now)->Ok_0.0 as int);
        &&& fits_i128(self.total_lst - lst_amount)
        &&& fits_i128(self.total_staked - u)
        &&& now + self.unbonding_period <= u64::MAX
        &&& self.spec_count(staker) < u32::MAX
        &&& fits_i128(self.total_unbonding + u)
    }

    /// Burn `lst_amount` lstTokens at the rate accrued to `now`; the
    /// underlying (`lst_amount * rate / 10^6`) joins the staker's unbonding
    /// queue, released after the unbonding period.  Returns the amount and
    /// its release time.
    pub fn unstake(&mut self, now: u64, staker: Address, lst_amount: i128) -> (r: Result<(i128, u64), Error>)
        requires
            old(self).wf(),
            old(self).accrual_fits(now),
            old(self).unstake_error(now, staker, lst_amount) is None ==> old(self).unstake_fits(now, staker, lst_amount),
        ensures
            final(self).wf(),
            match old(self).unstake_error(now, staker, lst_amount) {
                Some(e) => r == Err::<(i128, u64), Error>(e) && *final(self) == *old(self),
                None => {
                    let (rate, ts) = old(self).spec_accrual(now)->Ok_0;
                    let u = Self::redeemed(lst_amount as int, rate as int);
                    let release = (now + old(self).unbonding_period) as u64;
                    let idx = old(self).spec_count(staker);
                    &&& r == Ok::<(i128, u64), Error>((u as i128, release))
                    &&& final(self).exchange_rate == rate
                    &&& final(self).last_accrual_ts == ts
                    &&& final(self).lst_balances@ == old(self).lst_balances@.insert(
                        staker,
                        (old(self).spec_lst(staker) - lst_amount) as i128,
                    )
                    &&& final(self).total_lst == old(self).total_lst - lst_amount
                    &&& final(self).total_staked == max_int(old(self).total_staked - u, 0)
                    &&& final(self).unbond_entries@ == old(self).unbond_entries@.insert(
                        entry_key(staker, idx),
                        UnbondEntry { amount: u as i128, release_ts: release, claimed: false },
                    )
                    &&& final(self).unbond_counts@ == old(self).unbond_counts@.insert(staker, (idx + 1) as u32)
                    &&& final(self).total_unbonding == old(self).total_unbonding + u
                    &&& final(self).total_rewards == old(self).total_rewards
                    &&& final(self).validator_stakes@ == old(self).validator_stakes@
                    &&& final(self).admin == old(self).admin
                    &&& final(self).paused == old(self).paused
                    &&& final(self).reward_rate_bps == old(self).reward_rate_bps
                    &&& final(self).unbonding_period == old(self).unbonding_period
                },
            },
    {
        if self.admin.is_none() {
            return Err(Error::NotInitialized);
        }
        if self.paused {
            return Err(Error::Paused);
        }
        if lst_amount <= 0 {
            return Err(Error::ZeroAmount);
        }
        let bal = self.load_lst(staker);
        if bal < lst_amount {
            return Err(Error::InsufficientBalance);
        }
        let (rate, ts) = self.accrued(now)?;
        let scaled = match lst_amount.checked_mul(rate) {
            Some(v) => v,
            None => return Err(Error::Overflow),
        };
        assert(scaled >= 0) by (nonlinear_arith)
            requires
                scaled == lst_amount * rate,
                lst_amount > 0,
                rate > 0,
        ;
        let underlying = scaled / RATE_PRECISION;
        self.exchange_rate = rate;
        self.last_accrual_ts = ts;
        self.lst_balances.insert(staker, bal - lst_amount);
        self.total_lst = self.total_lst - lst_amount;
        let staked = self.total_staked - underlying;
        self.total_staked = if staked < 0 {
            0
        } else {
            staked
        };
        let release_ts = now + self.unbonding_period;
        let idx = self.load_count(staker);
        let k = entry_key_of(staker, idx);
        self.unbond_entries.insert(k, UnbondEntry { amount: underlying, release_ts, claimed: false });
        self.unbond_counts.insert(staker, idx + 1);
        self.total_unbonding = self.total_unbonding + underlying;
        Ok((underlying, release_ts))
    }

    /// Why `claim_unbonded` fails, if it does.
    pub open spec fn claim_error(&self, now: u64, staker: Address, idx: u32) -> Option<Error> {
        let k = entry_key(staker, idx);
        if self.active_error() is Some {
            self.active_error()
        } else if !self.unbond_entries@.contains_key(k) {
            Some(Error::InvalidEntry)
        } else if self.unbond_entries@[k].claimed {
            Some(Error::AlreadyClaimed)
        } else if now < self.unbond_entries@[k].release_ts {
            Some(Error::UnbondNotReady)
        } else {
            None
        }
    }

    /// Claim a released unbonding entry once; returns its amount (the host
    /// pays it out).
    pub fn claim_unbonded(&mut self, now: u64, staker: Address, idx: u32) -> (r: Result<i128, Error>)
        requires
            old(self).wf(),
            old(self).claim_error(now, staker, idx) is None ==> fits_i128(
                old(self).total_unbonding - old(self).unbond_entries@[entry_key(staker, idx)].amount,
            ),
        ensures
            final(self).wf(),
            match old(self).claim_error(now, staker, idx) {
                Some(e) => r == Err::<i128, Error>(e) && *final(self) == *old(self),
                None => {
                    let k = entry_key(staker, idx);
                    let e = old(self).unbond_entries@[k];
                    &&& r == Ok::<i128, Error>(e.amount)
                    &&& final(self).unbond_entries@ == old(self).unbond_entries@.insert(
                        k,
                        UnbondEntry { claimed: true, ..e },
                    )
                    &&& final(self).total_unbonding == max_int(old(self).total_unbonding - e.amount, 0)
                    &&& *final(self) == (StakingDerivatives {
                        unbond_entries: final(self).unbond_entries,
                        total_unbonding: final(self).total_unbonding,
                        ..*old(self)
                    })
                },
            },
    {
        if self.admin.is_none() {
            return Err(Error::NotInitialized);
        }
        if self.paused {
            return Err(Error::Paused);
        }
        let k = entry_key_of(staker, idx);
        let e = match self.unbond_entries.get(&k) {
            None => return Err(Error::InvalidEntry),
            Some(e) => *e,
        };
        if e.claimed {
            return Err(Error::AlreadyClaimed);
        }
        if now < e.release_ts {
            return Err(Error::UnbondNotReady);
        }
        self.unbond_entries.insert(k, UnbondEntry { claimed: true, ..e });
        let left = self.total_unbonding - e.amount;
        self.total_unbonding = if left < 0 {
            0
        } else {
            left
        };
        Ok(e.amount)
    }

    /// Why an admin-only write by `admin` fails, if it does.
    pub open spec fn admin_write_error(&self, admin: Address) -> Option<Error> {
        if self.active_error() is Some {
            self.active_error()
        } else if self.admin != Some(admin) {
            Some(Error::Unauthorized)
        } else {
            None
        }
    }

    /// The admin records `amount` more stake with a validator.
    pub fn delegate_to_validator(&mut self, admin: Address, validator: Address, amount: i128) -> (r: Result<(), Error>)
        requires
            old(self).wf(),
            old(self).admin_write_error(admin) is None && amount >= 0 ==> fits_i128(
                old(self).spec_validator(validator) + amount,
            ),
        ensures
            final(self).wf(),
            old(self).admin_write_error(admin) is Some ==> r == Err::<(), Error>(old(self).admin_write_error(admin)->0)
                && *final(self) == *old(self),
            old(self).admin_write_error(admin) is None && amount < 0 ==> r == Err::<(), Error>(Error::ZeroAmount)
                && *final(self) == *old(self),
            old(self).admin_write_error(admin) is None && amount >= 0 ==> {
                &&& r is Ok
                &&& final(self).validator_stakes@ == old(self).validator_stakes@.insert(
                    validator,
                    (old(self).spec_validator(validator) + amount) as i128,
                )
                &&& *final(self) == (StakingDerivatives {
                    validator_stakes: final(self).validator_stakes,
                    ..*old(self)
                })
            },
    {
        if self.admin.is_none() {
            return Err(Error::NotInitialized);
        }
        if self.paused {
            return Err(Error::Paused);
        }
        if self.admin != Some(admin) {
            return Err(Error::Unauthorized);
        }
        if amount < 0 {
            return Err(Error::ZeroAmount);
        }
        let current = match self.validator_stakes.get(&validator) {
            Some(v) => *v,
            None => 0,
        };
        self.validator_stakes.insert(validator, current + amount);
        Ok(())
    }

    /// The rate implied by the pool: staked per lstToken, never below the
    /// genesis rate; unchanged while no lstTokens exist.
    pub open spec fn pool_rate(total_staked: int, total_lst: int, current: i128) -> i128 {
        if total_lst == 0 {
            current
        } else {
            max_int(tdiv_signed(total_staked * RATE_PRECISION, total_lst), RATE_PRECISION as int) as i128
        }
    }

    /// Why `report_validator_rewards` fails, if it does.
    pub open spec fn reward_error(&self, admin: Address, reward_amount: i128) -> Option<Error> {
        if self.admin_write_error(admin) is Some {
            self.admin_write_error(admin)
        } else if reward_amount <= 0 {
            Some(Error::ZeroAmount)
        } else if self.total_lst != 0 && !fits_i128((self.total_staked + reward_amount) * RATE_PRECISION) {
            Some(Error::Overflow)
        } else {
            None
        }
    }

    /// The admin reports validator rewards: they are compounded into the
    /// staked pool and the rate is recomputed from the pool.
    pub fn report_validator_rewards(&mut self, admin: Address, validator: Address, reward_amount: i128) -> (r: Result<
        (),
        Error,
    >)
        requires
            old(self).wf(),
            old(self).admin_write_error(admin) is None && reward_amount > 0 ==> fits_i128(
                old(self).total_staked + reward_amount,
            ) && fits_i128(old(self).total_rewards + reward_amount) && !((old(self).total_staked + reward_amount)
                * RATE_PRECISION == i128::MIN && old(self).total_lst == -1),
        ensures
            final(self).wf(),
            match old(self).reward_error(admin, reward_amount) {
                Some(e) => r == Err::<(), Error>(e) && *final(self) == *old(self),
                None => {
                    let staked = old(self).total_staked + reward_amount;
                    &&& r is Ok
                    &&& *final(self) == (StakingDerivatives {
                        total_staked: staked as i128,
                        total_rewards: (old(self).total_rewards + reward_amount) as i128,
                        exchange_rate: Self::pool_rate(staked, old(self).total_lst as int, old(self).exchange_rate),
                        ..*old(self)
                    })
                },
            },
    {
        if self.admin.is_none() {
            return Err(Error::NotInitialized);
        }
        if self.paused {
            return Err(Error::Paused);
        }
        if self.admin != Some(admin) {
            return Err(Error::Unauthorized);
        }
        if reward_amount <= 0 {
            return Err(Error::ZeroAmount);
        }
        let staked = self.total_staked + reward_amount;
        let rate = if self.total_lst == 0 {
            self.exchange_rate
        } else {
            let scaled = match staked.checked_mul(RATE_PRECISION) {
                Some(v) => v,
                None => return Err(Error::Overflow),
            };
            let q = div_trunc(scaled, self.total_lst);
            if q < RATE_PRECISION {
                RATE_PRECISION
            } else {
                q
            }
        };
        self.total_staked = staked;
        self.total_rewards = self.total_rewards + reward_amount;
        self.exchange_rate = rate;
        Ok(())
    }

    /// Why an admin call fails on the admin check alone.
    pub open spec fn admin_error(&self, admin: Address) -> Option<Error> {
        if self.admin is None {
            Some(Error::NotInitialized)
        } else if self.admin != Some(admin) {
            Some(Error::Unauthorized)
        } else {
            None
        }
    }

    /// The admin changes the reward rate (1 to 10 000 bps) after accruing at
    /// the old one up to `now`.
    pub fn set_reward_rate(&mut self, now: u64, admin: Address, new_rate_bps: i128) -> (r: Result<(), Error>)
        requires
            old(self).wf(),
            old(self).accrual_fits(now),
        ensures
            final(self).wf(),
            old(self).admin_error(admin) is Some ==> r == Err::<(), Error>(old(self).admin_error(admin)->0) && *final(
                self) == *old(self),
            old(self).admin_error(admin) is None && (new_rate_bps <= 0 || new_rate_bps > 10_000) ==> r == Err::<
                (),
                Error,
            >(Error::InvalidRate) && *final(self) == *old(self),
            old(self).admin_error(admin) is None && 0 < new_rate_bps <= 10_000 ==> match old(self).spec_accrual(now) {
                Err(e) => r == Err::<(), Error>(e) && *final(self) == *old(self),
                Ok(v) => r is Ok && *final(self) == (StakingDerivatives {
                    exchange_rate: v.0,
                    last_accrual_ts: v.1,
                    reward_rate_bps: new_rate_bps,
                    ..*old(self)
                }),
            },
    {
        if self.admin.is_none() {
            return Err(Error::NotInitialized);
        }
        if self.admin != Some(admin) {
            return Err(Error::Unauthorized);
        }
        if new_rate_bps <= 0 || new_rate_bps > 10_000 {
            return Err(Error::InvalidRate);
        }
        let (rate, ts) = self.accrued(now)?;
        self.exchange_rate = rate;
        self.last_accrual_ts = ts;
        self.reward_rate_bps = new_rate_bps;
        Ok(())
    }

    /// The admin pauses or resumes the protocol.
    pub fn set_paused(&mut self, admin: Address, paused: bool) -> (r: Result<(), Error>)
        requires
            old(self).wf(),
        ensures
            final(self).wf(),
            match old(self).admin_error(admin) {
                Some(e) => r == Err::<(), Error>(e) && *final(self) == *old(self),
                None => r is Ok && *final(self) == (StakingDerivatives { paused, ..*old(self) }),
            },
    {
        if self.admin.is_none() {
            return Err(Error::NotInitialized);
        }
        if self.admin != Some(admin) {
            return Err(Error::Unauthorized);
        }
        self.paused = paused;
        Ok(())
    }

    /// Anyone accrues rewards up to `now`; returns the new rate.
    pub fn accrue(&mut self, now: u64) -> (r: Result<i128, Error>)
        requires
            old(self).wf(),
            old(self).accrual_fits(now),
        ensures
            final(self).wf(),
            old(self).admin is None ==> r == Err::<i128, Error>(Error::NotInitialized) && *final(self) == *old(self),
            old(self).admin is Some ==> match old(self).spec_accrual(now) {
                Err(e) => r == Err::<i128, Error>(e) && *final(self) == *old(self),
                Ok(v) => r == Ok::<i128, Error>(v.0) && *final(self) == (StakingDerivatives {
                    exchange_rate: v.0,
                    last_accrual_ts: v.1,
                    ..*old(self)
                }),
            },
    {
        if self.admin.is_none() {
            return Err(Error::NotInitialized);
        }
        let (rate, ts) = self.accrued(now)?;
        self.exchange_rate = rate;
        self.last_accrual_ts = ts;
        Ok(rate)
    }

    pub fn get_exchange_rate(&self) -> (r: Result<i128, Error>)
        ensures
            self.admin is None ==> r == Err::<i128, Error>(Error::NotInitialized),
            self.admin is Some ==> r == Ok::<i128, Error>(self.exchange_rate),
    {
        if self.admin.is_none() {
            return Err(Error::NotInitialized);
        }
        Ok(self.exchange_rate)
    }

    /// lstTokens `amount` would mint at the stored rate (not accrued).
    pub fn preview_stake(&self, amount: i128) -> (r: Result<i128, Error>)
        requires
            self.wf(),
        ensures
            self.admin is None ==> r == Err::<i128, Error>(Error::NotInitialized),
            self.admin is Some && !fits_i128(amount * RATE_PRECISION) ==> r == Err::<i128, Error>(Error::Overflow),
            self.admin is Some && fits_i128(amount * RATE_PRECISION) ==> r == Ok::<i128, Error>(
                tdiv_signed(amount * RATE_PRECISION, self.exchange_rate as int) as i128,
            ),
    {
        if self.admin.is_none() {
            return Err(Error::NotInitialized);
        }
        let scaled = match amount.checked_mul(RATE_PRECISION) {
            Some(v) => v,
            None => return Err(Error::Overflow),
        };
        Ok(div_trunc(scaled, self.exchange_rate))
    }

    /// Underlying `lst_amount` would redeem at the stored rate.
    pub fn preview_unstake(&self, lst_amount: i128) -> (r: Result<i128, Error>)
        requires
            self.wf(),
        ensures
            self.admin is None ==> r == Err::<i128, Error>(Error::NotInitialized),
            self.admin is Some && !fits_i128(lst_amount * self.exchange_rate) ==> r == Err::<i128, Error>(
                Error::Overflow,
            ),
            self.admin is Some && fits_i128(lst_amount * self.exchange_rate) ==> r == Ok::<i128, Error>(
                tdiv_signed(lst_amount * self.exchange_rate, RATE_PRECISION as int) as i128,
            ),
    {
        if self.admin.is_none() {
            return Err(Error::NotInitialized);
        }
        let scaled = match lst_amount.checked_mul(self.exchange_rate) {
            Some(v) => v,
            None => return Err(Error::Overflow),
        };
        Ok(div_trunc(scaled, RATE_PRECISION))
    }

    /// A staker's lstToken balance, its value at the stored rate and the
    /// length of its unbonding queue.
    pub fn get_user_info(&self, staker: Address) -> (r: Result<UserInfo, Error>)
        requires
            self.wf(),
        ensures
            self.admin is None ==> r == Err::<UserInfo, Error>(Error::NotInitialized),
            self.admin is Some && !fits_i128(self.spec_lst(staker) * self.exchange_rate) ==> r == Err::<
                UserInfo,
                Error,
            >(Error::Overflow),
            self.admin is Some && fits_i128(self.spec_lst(staker) * self.exchange_rate) ==> r == Ok::<UserInfo, Error>(
                UserInfo {
                    lst_balance: self.spec_lst(staker),
                    underlying_value: tdiv_signed(
                        self.spec_lst(staker) * self.exchange_rate,
                        RATE_PRECISION as int,
                    ) as i128,
                    pending_unbond_count: self.spec_count(staker),
                },
            ),
    {
        if self.admin.is_none() {
            return Err(Error::NotInitialized);
        }
        let bal = self.load_lst(staker);
        let scaled = match bal.checked_mul(self.exchange_rate) {
            Some(v) => v,
            None => return Err(Error::Overflow),
        };
        Ok(
            UserInfo {
                lst_balance: bal,
                underlying_value: div_trunc(scaled, RATE_PRECISION),
                pending_unbond_count: self.load_count(staker),
            },
        )
    }

    pub fn get_unbond_entry(&self, staker: Address, idx: u32) -> (r: Result<UnbondEntry, Error>)
        ensures
            self.admin is None ==> r == Err::<UnbondEntry, Error>(Error::NotInitialized),
            self.admin is Some && self.unbond_entries@.contains_key(entry_key(staker, idx)) ==> r == Ok::<
                UnbondEntry,
                Error,
            >(self.unbond_entries@[entry_key(staker, idx)]),
            self.admin is Some && !self.unbond_entries@.contains_key(entry_key(staker, idx)) ==> r == Err::<
                UnbondEntry,
                Error,
            >(Error::InvalidEntry),
    {
        if self.admin.is_none() {
            return Err(Error::NotInitialized);
        }
        let k = entry_key_of(staker, idx);
        match self.unbond_entries.get(&k) {
            Some(e) => Ok(*e),
            None => Err(Error::InvalidEntry),
        }
    }

    pub fn get_metrics(&self) -> (r: Result<ProtocolMetrics, Error>)
        ensures
            self.admin is None ==> r == Err::<ProtocolMetrics, Error>(Error::NotInitialized),
            self.admin is Some ==> r == Ok::<ProtocolMetrics, Error>(
                ProtocolMetrics {
                    total_staked: self.total_staked,
                    total_lst: self.total_lst,
                    exchange_rate: self.exchange_rate,
                    total_rewards: self.total_rewards,
                    total_unbonding: self.total_unbonding,
                    last_accrual_ts: self.last_accrual_ts,
                },
            ),
    {
        if self.admin.is_none() {
            return Err(Error::NotInitialized);
        }
        Ok(
            ProtocolMetrics {
                total_staked: self.total_staked,
                total_lst: self.total_lst,
                exchange_rate: self.exchange_rate,
                total_rewards: self.total_rewards,
                total_unbonding: self.total_unbonding,
                last_accrual_ts: self.last_accrual_ts,
            },
        )
    }

    pub fn get_validator_stake(&self, validator: Address) -> (r: Result<i128, Error>)
        ensures
            self.admin is None ==> r == Err::<i128, Error>(Error::NotInitialized),
            self.admin is Some ==> r == Ok::<i128, Error>(self.spec_validator(validator)),
    {
        if self.admin.is_none() {
            return Err(Error::NotInitialized);
        }
        match self.validator_stakes.get(&validator) {
            Some(v) => Ok(*v),
            None => Ok(0),
        }
    }
}

/// Accrual never lowers the exchange rate (as long as the result stays in
/// range).
pub proof fn lemma_accrual_monotone(rate: i128, reward_bps: i128, last: u64, now: u64)
    requires
        rate >= RATE_PRECISION,
        0 < reward_bps <= 10_000,
        accrual(rate, reward_bps, last, now) is Ok,
        now > last ==> fits_i128(rate + tdiv_signed(rate * reward_bps * (now - last), ACCRUAL_DIVISOR as int)),
    ensures
        accrual(rate, reward_bps, last, now)->Ok_0.0 >= rate,
{
    if now > last {
        let p = rate * reward_bps * (now - last);
        assert(p >= 0) by (nonlinear_arith)
            requires
                rate >= 0,
                reward_bps >= 0,
                now - last >= 0,
                p == rate * reward_bps * (now - last),
        ;
    }
}

} // verus!
