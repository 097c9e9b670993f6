//! Algorithmic stablecoin with an elastic supply (rebase towards a target
//! price, contraction limited by the reserve) and a Peg Stability Module
//! that swaps reserve assets for stablecoins near parity for a fee.
use vstd::prelude::*;
use std::collections::HashMap;
use crate::common::{Address, tdiv, fits_i128, min_int};

verus! {

broadcast use vstd::std_specs::hash::group_hash_axioms;

pub const DEFAULT_PRICE: i128 = 10_000_000;
pub const DEFAULT_FEE_BPS: u32 = 10;
pub const DEFAULT_COOLDOWN: u64 = 3600;
pub const DEFAULT_DEBT_CEILING: i128 = 1_000_000_000_000;
pub const INITIAL_SHARE_SUPPLY: i128 = 1_000_000_000;
pub const MAX_PSM_FEE_BPS: u32 = 500;

#[derive(Clone, Copy, Debug, PartialEq, Eq, Structural)]
pub enum Error {
    Unauthorized,
    ContractPaused,
    AlreadyInState,
    NotInitialized,
    InvalidAmount,
    InsufficientBalance,
    PriceStale,
    RebaseTooFrequent,
    PsmPaused,
    PsmDebtCeilingExceeded,
    PsmInsufficientReserve,
    InvalidFeeBps,
    InvalidDebtCeiling,
}

#[derive(Clone, Copy, Debug, PartialEq, Eq, Structural)]
pub struct RebaseInfo {
    pub old_supply: i128,
    pub new_supply: i128,
    pub price: i128,
    pub timestamp: u64,
}

#[derive(Clone, Copy, Debug, PartialEq, Eq, Structural)]
pub struct PsmSwapResult {
    pub amount_in: i128,
    pub amount_out: i128,
    pub fee_collected: i128,
    pub vault_balance: i128,
    pub minted_debt: i128,
}

#[derive(Clone, Copy, Debug, PartialEq, Eq, Structural)]
pub struct PsmConfig {
    pub paused: bool,
    pub mint_fee_bps: u32,
    pub redeem_fee_bps: u32,
    pub debt_ceiling: i128,
    pub minted_debt: i128,
    pub vault_balance: i128,
    pub fee_vault: i128,
}

/// `amount * fee_bps / 10000`, rounded towards zero.
pub open spec fn spec_fee(amount: int, fee_bps: int) -> int {
    tdiv(amount * fee_bps, 10_000)
}

/// The supply after a rebase at `price` against `target`: expanded by the
/// relative premium, or contracted by the relative discount but by no more
/// than the reserve.
pub open spec fn spec_rebase_supply(old_supply: int, price: int, target: int, reserve: int) -> int {
    if price > target {
        let ratio = tdiv((price - target) * 1_000_000, target);
        old_supply + tdiv(old_supply * ratio, 1_000_000)
    } else if price < target {
        let ratio = tdiv((target - price) * 1_000_000, target);
        old_supply - min_int(tdiv(old_supply * ratio, 1_000_000), reserve)
    } else {
        old_supply
    }
}

/// A rebase moves the supply towards the peg and no further: below the
/// target price the supply never grows, falls by no more than the reserve
/// and by no more than the relative discount `(target - price) / target` of
/// it, and stays non-negative; above the target it never shrinks and grows
/// by no more than the relative premium; at the target it is unchanged.
pub proof fn lemma_rebase_direction(old_supply: int, price: int, target: int, reserve: int)
    requires
        old_supply >= 0,
        reserve >= 0,
        0 < price,
        0 < target,
    ensures
        ({
            let n = spec_rebase_supply(old_supply, price, target, reserve);
            &&& price < target ==> {
                &&& 0 <= n <= old_supply
                &&& old_supply - reserve <= n
                &&& (old_supply - n) * target <= old_supply * (target - price)
            }
            &&& price > target ==> old_supply <= n && (n - old_supply) * target <= old_supply * (price - target)
            &&& price == target ==> n == old_supply
        }),
{
    if price < target {
        let ratio = tdiv((target - price) * 1_000_000, target);
        let num = (target - price) * 1_000_000;
        assert(ratio == num / target);
        assert(ratio * target <= num) by (nonlinear_arith)
            requires
                ratio == num / target,
                num >= 0,
                target > 0,
        ;
        assert(ratio <= 1_000_000) by (nonlinear_arith)
            requires
                ratio * target <= num,
                num == (target - price) * 1_000_000,
                price > 0,
                target > 0,
                ratio >= 0,
        ;
        assert(0 <= ratio) by (nonlinear_arith)
            requires
                ratio == num / target,
                num >= 0,
                target > 0,
        ;
        let prod = old_supply * ratio;
        assert(0 <= prod <= old_supply * 1_000_000) by (nonlinear_arith)
            requires
                prod == old_supply * ratio,
                0 <= ratio <= 1_000_000,
                old_supply >= 0,
        ;
        let c = prod / 1_000_000;
        assert(tdiv(prod, 1_000_000) == c);
        assert(0 <= c <= old_supply && c * 1_000_000 <= prod) by (nonlinear_arith)
            requires
                c == prod / 1_000_000,
                0 <= prod <= old_supply * 1_000_000,
        ;
        assert(c * target <= old_supply * (target - price)) by (nonlinear_arith)
            requires
                c * 1_000_000 <= prod,
                prod == old_supply * ratio,
                ratio * target <= num,
                num == (target - price) * 1_000_000,
                old_supply >= 0,
                target > 0,
                c >= 0,
        ;
        let taken = min_int(c, reserve);
        assert(0 <= taken <= c);
        assert(taken * target <= c * target) by (nonlinear_arith)
            requires
                0 <= taken <= c,
                target > 0,
        ;
    } else if price > target {
        let num = (price - target) * 1_000_000;
        let ratio = tdiv(num, target);
        assert(ratio == num / target);
        assert(0 <= ratio && ratio * target <= num) by (nonlinear_arith)
            requires
                ratio == num / target,
                num >= 0,
                target > 0,
        ;
        let prod = old_supply * ratio;
        assert(prod >= 0) by (nonlinear_arith)
            requires
                prod == old_supply * ratio,
                ratio >= 0,
                old_supply >= 0,
        ;
        let c = prod / 1_000_000;
        assert(tdiv(prod, 1_000_000) == c);
        assert(0 <= c && c * 1_000_000 <= prod) by (nonlinear_arith)
            requires
                c == prod / 1_000_000,
                prod >= 0,
        ;
        assert(c * target <= old_supply * (price - target)) by (nonlinear_arith)
            requires
                c * 1_000_000 <= prod,
                prod == old_supply * ratio,
                ratio * target <= num,
                num == (price - target) * 1_000_000,
                old_supply >= 0,
                target > 0,
                c >= 0,
        ;
    }
}

/// The unchecked operations of a rebase fit.
pub open spec fn rebase_defined(old_supply: int, price: int, target: int, reserve: int) -> bool {
    &&& target > 0
    &&& fits_i128(price - target)
    &&& fits_i128((price - target) * 1_000_000)
    &&& fits_i128((target - price) * 1_000_000)
    &&& price > target ==> fits_i128(old_supply * tdiv((price - target) * 1_000_000, target))
    &&& price < target ==> fits_i128(old_supply * tdiv((target - price) * 1_000_000, target))
    &&& fits_i128(spec_rebase_supply(old_supply, price, target, reserve))
}

/// The persistent storage of the stablecoin contract.
pub struct AlgorithmicStablecoin {
    pub admin: Option<Address>,
    pub oracle: Option<Address>,
    pub target_price: i128,
    pub current_price: i128,
    pub total_supply: i128,
    pub share_supply: i128,
    pub balances: HashMap<Address, i128>,
    pub paused: bool,
    pub last_rebase_time: u64,
    pub reserve: i128,
    pub rebase_cooldown: u64,
    pub psm_paused: bool,
    pub psm_mint_fee_bps: u32,
    pub psm_redeem_fee_bps: u32,
    pub psm_debt_ceiling: i128,
    pub psm_minted_debt: i128,
    pub psm_vault: i128,
    pub psm_fee_vault: i128,
}

impl AlgorithmicStablecoin {
    pub open spec fn balance_of(&self, a: Address) -> int {
        if self.balances@.contains_key(a) {
            self.balances@[a] as int
        } else {
            0
        }
    }

    pub open spec fn initialized(&self) -> bool {
        self.admin is Some
    }

    /// Empty storage: every key reads as its default.
    pub fn new() -> (s: Self)
        ensures
            !s.initialized(),
            s.oracle is None,
            s.balances@ == Map::<Address, i128>::empty(),
            s.total_supply == 0,
            !s.paused,
            !s.psm_paused,
            s.current_price == DEFAULT_PRICE,
            s.target_price == DEFAULT_PRICE,
            s.rebase_cooldown == DEFAULT_COOLDOWN,
            s.psm_mint_fee_bps == DEFAULT_FEE_BPS,
            s.psm_redeem_fee_bps == DEFAULT_FEE_BPS,
            s.psm_debt_ceiling == 0,
            s.psm_minted_debt == 0,
            s.psm_vault == 0,
            s.psm_fee_vault == 0,
            s.reserve == 0,
            s.last_rebase_time == 0,
    {
        AlgorithmicStablecoin {
            admin: None,
            oracle: None,
            target_price: DEFAULT_PRICE,
            current_price: DEFAULT_PRICE,
            total_supply: 0,
            share_supply: 0,
            balances: HashMap::new(),
            paused: false,
            last_rebase_time: 0,
            reserve: 0,
            rebase_cooldown: DEFAULT_COOLDOWN,
            psm_paused: false,
            psm_mint_fee_bps: DEFAULT_FEE_BPS,
            psm_redeem_fee_bps: DEFAULT_FEE_BPS,
            psm_debt_ceiling: 0,
            psm_minted_debt: 0,
            psm_vault: 0,
            psm_fee_vault: 0,
        }
    }

    fn load_balance(&self, a: Address) -> (b: i128)
        ensures
            b == self.balance_of(a),
    {
        match self.balances.get(&a) {
            Some(v) => *v,
            None => 0,
        }
    }

    fn assert_admin(&self, caller: Address) -> (r: Result<(), Error>)
        ensures
            !self.initialized() ==> r == Err::<(), Error>(Error::NotInitialized),
            self.initialized() && self.admin != Some(caller) ==> r == Err::<(), Error>(Error::Unauthorized),
            self.admin == Some(caller) ==> r is Ok,
    {
        match self.admin {
            None => Err(Error::NotInitialized),
            Some(a) => if a != caller {
                Err(Error::Unauthorized)
            } else {
                Ok(())
            },
        }
    }

    /// The admin check as a value: `None` when `caller` is the admin.
    pub open spec fn admin_error(&self, caller: Address) -> Option<Error> {
        if !self.initialized() {
            Some(Error::NotInitialized)
        } else if self.admin != Some(caller) {
            Some(Error::Unauthorized)
        } else {
            None
        }
    }

    /// Set admin and oracle and write every default; fails once set.
    pub fn init(&mut self, admin: Address, oracle: Address) -> (r: Result<(), Error>)
        ensures
            old(self).initialized() ==> r == Err::<(), Error>(Error::AlreadyInState) && *final(self) == *old(self),
            !old(self).initialized() ==> {
                &&& r is Ok
                &&& final(self).admin == Some(admin)
                &&& final(self).oracle == Some(oracle)
                &&& final(self).target_price == DEFAULT_PRICE
                &&& final(self).current_price == DEFAULT_PRICE
                &&& final(self).total_supply == 0
                &&& final(self).share_supply == INITIAL_SHARE_SUPPLY
                &&& !final(self).paused
                &&& final(self).last_rebase_time == 0
                &&& final(self).reserve == 0
                &&& final(self).rebase_cooldown == DEFAULT_COOLDOWN
                &&& !final(self).psm_paused
                &&& final(self).psm_mint_fee_bps == DEFAULT_FEE_BPS
                &&& final(self).psm_redeem_fee_bps == DEFAULT_FEE_BPS
                &&& final(self).psm_debt_ceiling == DEFAULT_DEBT_CEILING
                &&& final(self).psm_minted_debt == 0
                &&& final(self).psm_vault == 0
                &&& final(self).psm_fee_vault == 0
                &&& final(self).balances@ == old(self).balances@
            },
    {
        if self.admin.is_some() {
            return Err(Error::AlreadyInState);
        }
        self.admin = Some(admin);
        self.oracle = Some(oracle);
        self.target_price = DEFAULT_PRICE;
        self.current_price = DEFAULT_PRICE;
        self.total_supply = 0;
        self.share_supply = INITIAL_SHARE_SUPPLY;
        self.paused = false;
        self.last_rebase_time = 0;
        self.reserve = 0;
        self.rebase_cooldown = DEFAULT_COOLDOWN;
        self.psm_paused = false;
        self.psm_mint_fee_bps = DEFAULT_FEE_BPS;
        self.psm_redeem_fee_bps = DEFAULT_FEE_BPS;
        self.psm_debt_ceiling = DEFAULT_DEBT_CEILING;
        self.psm_minted_debt = 0;
        self.psm_vault = 0;
        self.psm_fee_vault = 0;
        Ok(())
    }

    /// The admin sets the PSM fees (each at most 500 bps) and a positive
    /// debt ceiling.
    pub fn psm_set_params(&mut self, admin: Address, mint_fee_bps: u32, redeem_fee_bps: u32, debt_ceiling: i128) -> (r: Result<(), Error>)
        ensures
            match old(self).admin_error(admin) {
                Some(e) => r == Err::<(), Error>(e) && *final(self) == *old(self),
                None => if mint_fee_bps > MAX_PSM_FEE_BPS || redeem_fee_bps > MAX_PSM_FEE_BPS {
                    r == Err::<(), Error>(Error::InvalidFeeBps) && *final(self) == *old(self)
                } else if debt_ceiling <= 0 {
                    r == Err::<(), Error>(Error::InvalidDebtCeiling) && *final(self) == *old(self)
                } else {
                    r is Ok && *final(self) == (AlgorithmicStablecoin {
                        psm_mint_fee_bps: mint_fee_bps,
                        psm_redeem_fee_bps: redeem_fee_bps,
                        psm_debt_ceiling: debt_ceiling,
                        ..*old(self)
                    })
                },
            },
    {
        self.assert_admin(admin)?;
        if mint_fee_bps > MAX_PSM_FEE_BPS || redeem_fee_bps > MAX_PSM_FEE_BPS {
            return Err(Error::InvalidFeeBps);
        }
        if debt_ceiling <= 0 {
            return Err(Error::InvalidDebtCeiling);
        }
        self.psm_mint_fee_bps = mint_fee_bps;
        self.psm_redeem_fee_bps = redeem_fee_bps;
        self.psm_debt_ceiling = debt_ceiling;
        Ok(())
    }

    /// The admin pauses or resumes the PSM alone.
    pub fn psm_set_paused(&mut self, admin: Address, paused: bool) -> (r: Result<(), Error>)
        ensures
            match old(self).admin_error(admin) {
                Some(e) => r == Err::<(), Error>(e) && *final(self) == *old(self),
                None => r is Ok && *final(self) == (AlgorithmicStablecoin { psm_paused: paused, ..*old(self) }),
            },
    {
        self.assert_admin(admin)?;
        self.psm_paused = paused;
        Ok(())
    }

    /// Why `psm_mint` fails, if it does.
    pub open spec fn psm_mint_error(&self, amount: i128) -> Option<Error> {
        let fee = spec_fee(amount as int, self.psm_mint_fee_bps as int);
        if self.paused {
            Some(Error::ContractPaused)
        } else if self.psm_paused {
            Some(Error::PsmPaused)
        } else if amount <= 0 {
            Some(Error::InvalidAmount)
        } else if self.psm_minted_debt + (amount - fee) > self.psm_debt_ceiling {
            Some(Error::PsmDebtCeilingExceeded)
        } else {
            None
        }
    }

    /// Deposit `amount` of reserve into the PSM vault and receive
    /// `amount - fee` stablecoins; the fee goes to the fee vault and the
    /// minted amount counts against the debt ceiling.
    pub fn psm_mint(&mut self, user: Address, amount: i128) -> (r: Result<PsmSwapResult, Error>)
        requires
            !old(self).paused && !old(self).psm_paused && amount > 0 ==> fits_i128(amount * old(self).psm_mint_fee_bps)
                && fits_i128(old(self).psm_minted_debt + (amount - spec_fee(amount as int, old(self).psm_mint_fee_bps as int))),
            old(self).psm_mint_error(amount) is None ==> {
                let fee = spec_fee(amount as int, old(self).psm_mint_fee_bps as int);
                &&& fits_i128(old(self).psm_vault + amount)
                &&& fits_i128(old(self).psm_fee_vault + fee)
                &&& fits_i128(old(self).balance_of(user) + (amount - fee))
                &&& fits_i128(old(self).total_supply + (amount - fee))
            },
        ensures
            r is Ok ==> final(self).psm_minted_debt <= final(self).psm_debt_ceiling,
            match old(self).psm_mint_error(amount) {
                Some(e) => r == Err::<PsmSwapResult, Error>(e) && *final(self) == *old(self),
                None => {
                    let fee = spec_fee(amount as int, old(self).psm_mint_fee_bps as int);
                    let out = amount - fee;
                    &&& r == Ok::<PsmSwapResult, Error>(PsmSwapResult {
                        amount_in: amount,
                        amount_out: out as i128,
                        fee_collected: fee as i128,
                        vault_balance: (old(self).psm_vault + amount) as i128,
                        minted_debt: (old(self).psm_minted_debt + out) as i128,
                    })
                    &&& final(self).balances@ == old(self).balances@.insert(user, (old(self).balance_of(user) + out) as i128)
                    &&& *final(self) == (AlgorithmicStablecoin {
                        balances: final(self).balances,
                        psm_vault: (old(self).psm_vault + amount) as i128,
                        psm_fee_vault: (old(self).psm_fee_vault + fee) as i128,
                        total_supply: (old(self).total_supply + out) as i128,
                        psm_minted_debt: (old(self).psm_minted_debt + out) as i128,
                        ..*old(self)
                    })
                },
            },
    {
        if self.paused {
            return Err(Error::ContractPaused);
        }
        if self.psm_paused {
            return Err(Error::PsmPaused);
        }
        if amount <= 0 {
            return Err(Error::InvalidAmount);
        }
        let fee_collected = amount * (self.psm_mint_fee_bps as i128) / 10_000;
        proof {
            assert(amount * self.psm_mint_fee_bps >= 0) by (nonlinear_arith)
                requires amount > 0;
        }
        let amount_out = amount - fee_collected;
        if self.psm_minted_debt + amount_out > self.psm_debt_ceiling {
            return Err(Error::PsmDebtCeilingExceeded);
        }
        let new_vault = self.psm_vault + amount;
        self.psm_vault = new_vault;
        self.psm_fee_vault = self.psm_fee_vault + fee_collected;
        let user_balance = self.load_balance(user);
        self.balances.insert(user, user_balance + amount_out);
        self.total_supply = self.total_supply + amount_out;
        let new_minted_debt = self.psm_minted_debt + amount_out;
        self.psm_minted_debt = new_minted_debt;
        Ok(PsmSwapResult {
            amount_in: amount,
            amount_out,
            fee_collected,
            vault_balance: new_vault,
            minted_debt: new_minted_debt,
        })
    }

    /// Why `psm_redeem` fails, if it does.
    pub open spec fn psm_redeem_error(&self, user: Address, amount: i128) -> Option<Error> {
        let fee = spec_fee(amount as int, self.psm_redeem_fee_bps as int);
        if self.paused {
            Some(Error::ContractPaused)
        } else if self.psm_paused {
            Some(Error::PsmPaused)
        } else if amount <= 0 {
            Some(Error::InvalidAmount)
        } else if self.psm_vault < amount - fee {
            Some(Error::PsmInsufficientReserve)
        } else if self.balance_of(user) < amount {
            Some(Error::InsufficientBalance)
        } else {
            None
        }
    }

    /// Burn `amount` stablecoins and take `amount - fee` reserve out of the
    /// vault; the PSM debt falls by `amount`, not below zero.
    pub fn psm_redeem(&mut self, user: Address, amount: i128) -> (r: Result<PsmSwapResult, Error>)
        requires
            !old(self).paused && !old(self).psm_paused && amount > 0 ==> fits_i128(amount * old(self).psm_redeem_fee_bps),
            old(self).psm_redeem_error(user, amount) is None ==> {
                let fee = spec_fee(amount as int, old(self).psm_redeem_fee_bps as int);
                &&& fits_i128(old(self).total_supply - amount)
                &&& fits_i128(old(self).psm_fee_vault + fee)
                &&& fits_i128(old(self).psm_vault - (amount - fee))
            },
        ensures
            match old(self).psm_redeem_error(user, amount) {
                Some(e) => r == Err::<PsmSwapResult, Error>(e) && *final(self) == *old(self),
                None => {
                    let fee = spec_fee(amount as int, old(self).psm_redeem_fee_bps as int);
                    let out = amount - fee;
                    let debt = if old(self).psm_minted_debt > amount {
                        old(self).psm_minted_debt - amount
                    } else {
                        0
                    };
                    &&& r == Ok::<PsmSwapResult, Error>(PsmSwapResult {
                        amount_in: amount,
                        amount_out: out as i128,
                        fee_collected: fee as i128,
                        vault_balance: (old(self).psm_vault - out) as i128,
                        minted_debt: debt as i128,
                    })
                    &&& final(self).balances@ == old(self).balances@.insert(user, (old(self).balance_of(user) - amount) as i128)
                    &&& *final(self) == (AlgorithmicStablecoin {
                        balances: final(self).balances,
                        psm_vault: (old(self).psm_vault - out) as i128,
                        psm_fee_vault: (old(self).psm_fee_vault + fee) as i128,
                        total_supply: (old(self).total_supply - amount) as i128,
                        psm_minted_debt: debt as i128,
                        ..*old(self)
                    })
                },
            },
    {
        if self.paused {
            return Err(Error::ContractPaused);
        }
        if self.psm_paused {
            return Err(Error::PsmPaused);
        }
        if amount <= 0 {
            return Err(Error::InvalidAmount);
        }
        let fee_collected = amount * (self.psm_redeem_fee_bps as i128) / 10_000;
        proof {
            assert(amount * self.psm_redeem_fee_bps >= 0) by (nonlinear_arith)
                requires amount > 0;
        }
        let amount_out = amount - fee_collected;
        let vault_balance = self.psm_vault;
        if vault_balance < amount_out {
            return Err(Error::PsmInsufficientReserve);
        }
        let user_balance = self.load_balance(user);
        if user_balance < amount {
            return Err(Error::InsufficientBalance);
        }
        self.balances.insert(user, user_balance - amount);
        self.total_supply = self.total_supply - amount;
        let minted_debt = self.psm_minted_debt;
        let new_minted_debt = if minted_debt > amount {
            minted_debt - amount
        } else {
            0
        };
        self.psm_minted_debt = new_minted_debt;
        let new_vault = vault_balance - amount_out;
        self.psm_vault = new_vault;
        self.psm_fee_vault = self.psm_fee_vault + fee_collected;
        Ok(PsmSwapResult {
            amount_in: amount,
            amount_out,
            fee_collected,
            vault_balance: new_vault,
            minted_debt: new_minted_debt,
        })
    }

    /// The admin takes the accumulated fees; the fee vault is emptied.
    pub fn psm_collect_fees(&mut self, admin: Address) -> (r: Result<i128, Error>)
        ensures
            match old(self).admin_error(admin) {
                Some(e) => r == Err::<i128, Error>(e) && *final(self) == *old(self),
                None => r == Ok::<i128, Error>(old(self).psm_fee_vault) && *final(self) == (AlgorithmicStablecoin {
                    psm_fee_vault: 0,
                    ..*old(self)
                }),
            },
    {
        self.assert_admin(admin)?;
        let fee_vault = self.psm_fee_vault;
        self.psm_fee_vault = 0;
        Ok(fee_vault)
    }

    pub fn psm_config(&self) -> (c: PsmConfig)
        ensures
            c == (PsmConfig {
                paused: self.psm_paused,
                mint_fee_bps: self.psm_mint_fee_bps,
                redeem_fee_bps: self.psm_redeem_fee_bps,
                debt_ceiling: self.psm_debt_ceiling,
                minted_debt: self.psm_minted_debt,
                vault_balance: self.psm_vault,
                fee_vault: self.psm_fee_vault,
            }),
    {
        PsmConfig {
            paused: self.psm_paused,
            mint_fee_bps: self.psm_mint_fee_bps,
            redeem_fee_bps: self.psm_redeem_fee_bps,
            debt_ceiling: self.psm_debt_ceiling,
            minted_debt: self.psm_minted_debt,
            vault_balance: self.psm_vault,
            fee_vault: self.psm_fee_vault,
        }
    }

    /// The admin mints `amount` to `to`.
    pub fn mint(&mut self, admin: Address, to: Address, amount: i128) -> (r: Result<(), Error>)
        requires
            old(self).admin == Some(admin) && !old(self).paused && amount > 0 ==> fits_i128(old(self).balance_of(to) + amount)
                && fits_i128(old(self).total_supply + amount),
        ensures
            match old(self).admin_error(admin) {
                Some(e) => r == Err::<(), Error>(e) && *final(self) == *old(self),
                None => if old(self).paused {
                    r == Err::<(), Error>(Error::ContractPaused) && *final(self) == *old(self)
                } else if amount <= 0 {
                    r == Err::<(), Error>(Error::InvalidAmount) && *final(self) == *old(self)
                } else {
                    &&& r is Ok
                    &&& final(self).balances@ == old(self).balances@.insert(to, (old(self).balance_of(to) + amount) as i128)
                    &&& *final(self) == (AlgorithmicStablecoin {
                        balances: final(self).balances,
                        total_supply: (old(self).total_supply + amount) as i128,
                        ..*old(self)
                    })
                },
            },
    {
        self.assert_admin(admin)?;
        if self.paused {
            return Err(Error::ContractPaused);
        }
        if amount <= 0 {
            return Err(Error::InvalidAmount);
        }
        let current = self.load_balance(to);
        self.balances.insert(to, current + amount);
        self.total_supply = self.total_supply + amount;
        Ok(())
    }

    /// Burn `amount` of the caller's balance.
    pub fn burn(&mut self, from: Address, amount: i128) -> (r: Result<(), Error>)
        requires
            !old(self).paused && 0 < amount <= old(self).balance_of(from) ==> fits_i128(old(self).total_supply - amount),
        ensures
            if old(self).paused {
                r == Err::<(), Error>(Error::ContractPaused) && *final(self) == *old(self)
            } else if amount <= 0 {
                r == Err::<(), Error>(Error::InvalidAmount) && *final(self) == *old(self)
            } else if old(self).balance_of(from) < amount {
                r == Err::<(), Error>(Error::InsufficientBalance) && *final(self) == *old(self)
            } else {
                &&& r is Ok
                &&& final(self).balances@ == old(self).balances@.insert(from, (old(self).balance_of(from) - amount) as i128)
                &&& *final(self) == (AlgorithmicStablecoin {
                    balances: final(self).balances,
                    total_supply: (old(self).total_supply - amount) as i128,
                    ..*old(self)
                })
            },
    {
        if self.paused {
            return Err(Error::ContractPaused);
        }
        if amount <= 0 {
            return Err(Error::InvalidAmount);
        }
        let current = self.load_balance(from);
        if current < amount {
            return Err(Error::InsufficientBalance);
        }
        self.balances.insert(from, current - amount);
        self.total_supply = self.total_supply - amount;
        Ok(())
    }

    /// Move `amount` from `from` to `to`.  Both balances are read before
    /// either is written, so a transfer to oneself credits the amount.
    pub fn transfer(&mut self, from: Address, to: Address, amount: i128) -> (r: Result<(), Error>)
        requires
            !old(self).paused && 0 < amount <= old(self).balance_of(from) ==> fits_i128(old(self).balance_of(to) + amount),
        ensures
            if old(self).paused {
                r == Err::<(), Error>(Error::ContractPaused) && *final(self) == *old(self)
            } else if amount <= 0 {
                r == Err::<(), Error>(Error::InvalidAmount) && *final(self) == *old(self)
            } else if old(self).balance_of(from) < amount {
                r == Err::<(), Error>(Error::InsufficientBalance) && *final(self) == *old(self)
            } else {
                &&& r is Ok
                &&& final(self).balances@ == old(self).balances@.insert(from, (old(self).balance_of(from) - amount) as i128).insert(
                    to,
                    (old(self).balance_of(to) + amount) as i128,
                )
                &&& *final(self) == (AlgorithmicStablecoin { balances: final(self).balances, ..*old(self) })
            },
    {
        if self.paused {
            return Err(Error::ContractPaused);
        }
        if amount <= 0 {
            return Err(Error::InvalidAmount);
        }
        let from_balance = self.load_balance(from);
        if from_balance < amount {
            return Err(Error::InsufficientBalance);
        }
        let to_balance = self.load_balance(to);
        self.balances.insert(from, from_balance - amount);
        self.balances.insert(to, to_balance + amount);
        Ok(())
    }

    /// The oracle posts a positive price.
    pub fn set_price(&mut self, oracle: Address, new_price: i128) -> (r: Result<(), Error>)
        ensures
            old(self).oracle is None ==> r == Err::<(), Error>(Error::NotInitialized) && *final(self) == *old(self),
            old(self).oracle is Some && old(self).oracle != Some(oracle) ==> r == Err::<(), Error>(Error::Unauthorized)
                && *final(self) == *old(self),
            old(self).oracle == Some(oracle) && new_price <= 0 ==> r == Err::<(), Error>(Error::InvalidAmount)
                && *final(self) == *old(self),
            old(self).oracle == Some(oracle) && new_price > 0 ==> r is Ok && *final(self) == (AlgorithmicStablecoin {
                current_price: new_price,
                ..*old(self)
            }),
    {
        match self.oracle {
            None => return Err(Error::NotInitialized),
            Some(o) => if o != oracle {
                return Err(Error::Unauthorized);
            },
        }
        if new_price <= 0 {
            return Err(Error::InvalidAmount);
        }
        self.current_price = new_price;
        Ok(())
    }

    /// After the cooldown, anyone rebases the supply towards the target
    /// price.
    pub fn rebase(&mut self, now: u64, caller: Address) -> (r: Result<RebaseInfo, Error>)
        requires
            !old(self).paused ==> old(self).last_rebase_time + old(self).rebase_cooldown <= u64::MAX,
            !old(self).paused && now >= old(self).last_rebase_time + old(self).rebase_cooldown ==> old(self).initialized()
                && rebase_defined(old(self).total_supply as int, old(self).current_price as int,
                old(self).target_price as int, old(self).reserve as int),
        ensures
            if old(self).paused {
                r == Err::<RebaseInfo, Error>(Error::ContractPaused) && *final(self) == *old(self)
            } else if now < old(self).last_rebase_time + old(self).rebase_cooldown {
                r == Err::<RebaseInfo, Error>(Error::RebaseTooFrequent) && *final(self) == *old(self)
            } else {
                let ns = spec_rebase_supply(old(self).total_supply as int, old(self).current_price as int,
                    old(self).target_price as int, old(self).reserve as int);
                &&& r == Ok::<RebaseInfo, Error>(RebaseInfo {
                    old_supply: old(self).total_supply,
                    new_supply: ns as i128,
                    price: old(self).current_price,
                    timestamp: now,
                })
                &&& *final(self) == (AlgorithmicStablecoin {
                    total_supply: ns as i128,
                    last_rebase_time: now,
                    ..*old(self)
                })
            },
            r is Ok && old(self).total_supply >= 0 && old(self).reserve >= 0 && old(self).current_price > 0 ==> {
                let info = r->Ok_0;
                &&& old(self).current_price < old(self).target_price ==> old(self).total_supply - old(self).reserve
                    <= info.new_supply <= info.old_supply
                &&& old(self).current_price > old(self).target_price ==> info.new_supply >= info.old_supply
                &&& old(self).current_price == old(self).target_price ==> info.new_supply == info.old_supply
            },
    {
        if self.paused {
            return Err(Error::ContractPaused);
        }
        if now < self.last_rebase_time + self.rebase_cooldown {
            return Err(Error::RebaseTooFrequent);
        }
        let current_price = self.current_price;
        let target_price = self.target_price;
        let old_supply = self.total_supply;
        proof {
            if old_supply >= 0 && self.reserve >= 0 && current_price > 0 {
                lemma_rebase_direction(old_supply as int, current_price as int, target_price as int, self.reserve as int);
            }
        }
        let new_supply = if current_price > target_price {
            let expansion_ratio = (current_price - target_price) * 1_000_000 / target_price;
            let expansion_amount = old_supply * expansion_ratio / 1_000_000;
            old_supply + expansion_amount
        } else if current_price < target_price {
            let contraction_ratio = (target_price - current_price) * 1_000_000 / target_price;
            let max_contraction = old_supply * contraction_ratio / 1_000_000;
            let reserve = self.reserve;
            let actual = if max_contraction > reserve {
                reserve
            } else {
                max_contraction
            };
            old_supply - actual
        } else {
            old_supply
        };
        self.total_supply = new_supply;
        self.last_rebase_time = now;
        Ok(RebaseInfo { old_supply, new_supply, price: current_price, timestamp: now })
    }

    /// The admin pauses; fails when already paused.
    pub fn pause(&mut self, admin: Address) -> (r: Result<(), Error>)
        ensures
            match old(self).admin_error(admin) {
                Some(e) => r == Err::<(), Error>(e) && *final(self) == *old(self),
                None => if old(self).paused {
                    r == Err::<(), Error>(Error::AlreadyInState) && *final(self) == *old(self)
                } else {
                    r is Ok && *final(self) == (AlgorithmicStablecoin { paused: true, ..*old(self) })
                },
            },
    {
        self.assert_admin(admin)?;
        if self.paused {
            return Err(Error::AlreadyInState);
        }
        self.paused = true;
        Ok(())
    }

    /// The admin resumes; fails when not paused.
    pub fn unpause(&mut self, admin: Address) -> (r: Result<(), Error>)
        ensures
            match old(self).admin_error(admin) {
                Some(e) => r == Err::<(), Error>(e) && *final(self) == *old(self),
                None => if !old(self).paused {
                    r == Err::<(), Error>(Error::AlreadyInState) && *final(self) == *old(self)
                } else {
                    r is Ok && *final(self) == (AlgorithmicStablecoin { paused: false, ..*old(self) })
                },
            },
    {
        self.assert_admin(admin)?;
        if !self.paused {
            return Err(Error::AlreadyInState);
        }
        self.paused = false;
        Ok(())
    }

    /// The admin adds to the reserve that backs contractions.
    pub fn add_reserve(&mut self, admin: Address, amount: i128) -> (r: Result<(), Error>)
        requires
            old(self).admin == Some(admin) && amount > 0 ==> fits_i128(old(self).reserve + amount),
        ensures
            match old(self).admin_error(admin) {
                Some(e) => r == Err::<(), Error>(e) && *final(self) == *old(self),
                None => if amount <= 0 {
                    r == Err::<(), Error>(Error::InvalidAmount) && *final(self) == *old(self)
                } else {
                    r is Ok && *final(self) == (AlgorithmicStablecoin { reserve: (old(self).reserve + amount) as i128, ..*old(self) })
                },
            },
    {
        self.assert_admin(admin)?;
        if amount <= 0 {
            return Err(Error::InvalidAmount);
        }
        self.reserve = self.reserve + amount;
        Ok(())
    }

    /// The admin withdraws from the reserve, up to its balance.
    pub fn withdraw_reserve(&mut self, admin: Address, amount: i128) -> (r: Result<(), Error>)
        ensures
            match old(self).admin_error(admin) {
                Some(e) => r == Err::<(), Error>(e) && *final(self) == *old(self),
                None => if amount <= 0 {
                    r == Err::<(), Error>(Error::InvalidAmount) && *final(self) == *old(self)
                } else if old(self).reserve < amount {
                    r == Err::<(), Error>(Error::InsufficientBalance) && *final(self) == *old(self)
                } else {
                    r is Ok && *final(self) == (AlgorithmicStablecoin { reserve: (old(self).reserve - amount) as i128, ..*old(self) })
                },
            },
    {
        self.assert_admin(admin)?;
        if amount <= 0 {
            return Err(Error::InvalidAmount);
        }
        if self.reserve < amount {
            return Err(Error::InsufficientBalance);
        }
        self.reserve = self.reserve - amount;
        Ok(())
    }

    pub fn balance(&self, user: Address) -> (b: i128)
        ensures
            b == self.balance_of(user),
    {
        self.load_balance(user)
    }

    pub fn total_supply(&self) -> (s: i128)
        ensures
            s == self.total_supply,
    {
        self.total_supply
    }

    pub fn get_price(&self) -> (p: i128)
        ensures
            p == self.current_price,
    {
        self.current_price
    }

    pub fn get_target_price(&self) -> (p: i128)
        ensures
            p == self.target_price,
    {
        self.target_price
    }

    pub fn get_reserve(&self) -> (p: i128)
        ensures
            p == self.reserve,
    {
        self.reserve
    }

    pub fn is_paused(&self) -> (b: bool)
        ensures
            b == self.paused,
    {
        self.paused
    }

    pub fn get_admin(&self) -> (r: Result<Address, Error>)
        ensures
            match self.admin {
                Some(a) => r == Ok::<Address, Error>(a),
                None => r == Err::<Address, Error>(Error::NotInitialized),
            },
    {
        match self.admin {
            Some(a) => Ok(a),
            None => Err(Error::NotInitialized),
        }
    }
}

} // verus!
