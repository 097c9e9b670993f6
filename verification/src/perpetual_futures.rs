//! Perpetual futures at a quoted price: traders open leveraged long or
//! short positions at the mark price and close them at an exit price; an
//! under-margined position can be liquidated; the admin sets the mark and
//! index prices, from which the funding rate follows.
use vstd::prelude::*;
use std::collections::HashMap;
use crate::common::{Address, fits_i128, tdiv_signed, div_trunc};

verus! {

broadcast use vstd::std_specs::hash::group_hash_axioms;

pub const MAX_LEVERAGE: u32 = 100;
/// Maintenance margin: 5% of the collateral.
pub const MAINTENANCE_MARGIN_BPS: i128 = 500;

#[derive(Clone, Copy, Debug, PartialEq, Eq, Structural)]
pub enum Error {
    AlreadyInitialized,
    NotInitialized,
    Unauthorized,
    ContractPaused,
    InvalidPrice,
    InvalidSize,
    InvalidLeverage,
    InsufficientMargin,
    PositionNotFound,
    PositionNotActive,
}

#[derive(Clone, Copy, Debug, PartialEq, Eq, Structural)]
pub enum PositionStatus {
    Active,
    Closed,
    Liquidated,
}

#[derive(Clone, Copy, Debug, PartialEq, Eq, Structural)]
pub struct Position {
    pub id: u64,
    pub trader: Address,
    pub is_long: bool,
    pub size: i128,
    pub leverage: u32,
    pub entry_price: i128,
    pub collateral: i128,
    pub status: PositionStatus,
}

#[derive(Clone, Copy, Debug, PartialEq, Eq, Structural)]
pub struct FundingRate {
    pub mark_price: i128,
    pub index_price: i128,
    pub rate_bps: i32,
    pub last_update: u64,
}

/// The futures contract's storage.
pub struct PerpetualFutures {
    pub admin: Option<Address>,
    pub initialized: bool,
    pub paused: bool,
    pub position_count: u64,
    pub positions: HashMap<u64, Position>,
    pub funding: Option<FundingRate>,
}

/// Profit or loss of a position at a price: the price move in the
/// position's direction times its size, over the entry price (truncated).
pub open spec fn spec_pnl(p: Position, price: i128) -> int {
    if p.is_long {
        tdiv_signed((price - p.entry_price) * p.size, p.entry_price as int)
    } else {
        tdiv_signed((p.entry_price - price) * p.size, p.entry_price as int)
    }
}

/// The arithmetic of `spec_pnl` stays in range.
pub open spec fn pnl_fits(p: Position, price: i128) -> bool {
    let d = if p.is_long {
        price - p.entry_price
    } else {
        p.entry_price - price
    };
    fits_i128(d) && fits_i128(d * p.size)
}

fn pnl(p: &Position, price: i128) -> (r: i128)
    requires
        p.entry_price > 0,
        pnl_fits(*p, price),
    ensures
        r == spec_pnl(*p, price),
{
    let d = if p.is_long {
        price - p.entry_price
    } else {
        p.entry_price - price
    };
    div_trunc(d * p.size, p.entry_price)
}

impl PerpetualFutures {
    /// The admin and funding record are set exactly when initialized; the
    /// mark price and every entry price are positive.
    pub open spec fn wf(&self) -> bool {
        &&& self.initialized <==> self.admin is Some
        &&& self.initialized <==> self.funding is Some
        &&& self.funding is Some ==> self.funding->0.mark_price > 0
        &&& forall|id: u64| #[trigger] self.positions@.contains_key(id) ==> self.positions@[id].entry_price > 0
    }

    pub fn new() -> (s: Self)
        ensures
            s.wf(),
            !s.initialized,
            !s.paused,
            s.position_count == 0,
            s.positions@ == Map::<u64, Position>::empty(),
    {
        PerpetualFutures {
            admin: None,
            initialized: false,
            paused: false,
            position_count: 0,
            positions: HashMap::new(),
            funding: None,
        }
    }

    /// Set the admin and start with mark and index at `initial_price`.
    pub fn initialize(&mut self, now: u64, admin: Address, initial_price: i128) -> (r: Result<(), Error>)
        requires
            old(self).wf(),
        ensures
            final(self).wf(),
            old(self).initialized ==> r == Err::<(), Error>(Error::AlreadyInitialized) && *final(self) == *old(self),
            !old(self).initialized && initial_price <= 0 ==> r == Err::<(), Error>(Error::InvalidPrice) && *final(
                self) == *old(self),
            !old(self).initialized && initial_price > 0 ==> r is Ok && *final(self) == (PerpetualFutures {
                admin: Some(admin),
                initialized: true,
                paused: false,
                position_count: 0,
                funding: Some(
                    FundingRate { mark_price: initial_price, index_price: initial_price, rate_bps: 0, last_update: now },
                ),
                ..*old(self)
            }),
    {
        if self.initialized {
            return Err(Error::AlreadyInitialized);
        }
        if initial_price <= 0 {
            return Err(Error::InvalidPrice);
        }
        self.admin = Some(admin);
        self.initialized = true;
        self.paused = false;
        self.position_count = 0;
        self.funding = Some(
            FundingRate { mark_price: initial_price, index_price: initial_price, rate_bps: 0, last_update: now },
        );
        Ok(())
    }

    /// Why an admin-only call fails, if it does.
    pub open spec fn admin_error(&self, admin: Address) -> Option<Error> {
        if !self.initialized {
            Some(Error::NotInitialized)
        } else if self.admin != Some(admin) {
            Some(Error::Unauthorized)
        } else {
            None
        }
    }

    fn check_admin(&self, admin: Address) -> (r: Result<(), Error>)
        requires
            self.wf(),
        ensures
            match self.admin_error(admin) {
                Some(e) => r == Err::<(), Error>(e),
                None => r is Ok,
            },
    {
        if !self.initialized {
            return Err(Error::NotInitialized);
        }
        match self.admin {
            Some(a) => if a != admin {
                Err(Error::Unauthorized)
            } else {
                Ok(())
            },
            None => Err(Error::NotInitialized),
        }
    }

    pub fn set_paused(&mut self, admin: Address, paused: bool) -> (r: Result<(), Error>)
        requires
            old(self).wf(),
        ensures
            final(self).wf(),
            match old(self).admin_error(admin) {
                Some(e) => r == Err::<(), Error>(e) && *final(self) == *old(self),
                None => r is Ok && *final(self) == (PerpetualFutures { paused, ..*old(self) }),
            },
    {
        self.check_admin(admin)?;
        self.paused = paused;
        Ok(())
    }

    /// Why `open_position` fails, if it does.
    pub open spec fn open_error(&self, size: i128, leverage: u32, collateral: i128) -> Option<Error> {
        if self.paused {
            Some(Error::ContractPaused)
        } else if !self.initialized {
            Some(Error::NotInitialized)
        } else if size <= 0 {
            Some(Error::InvalidSize)
        } else if leverage == 0 || leverage > MAX_LEVERAGE {
            Some(Error::InvalidLeverage)
        } else if collateral <= 0 {
            Some(Error::InsufficientMargin)
        } else {
            None
        }
    }

    /// A trader opens a position of positive size with leverage 1 to 100
    /// and positive collateral at the current mark price.  Returns its id.
    pub fn open_position(&mut self, trader: Address, is_long: bool, size: i128, leverage: u32, collateral: i128) -> (r:
        Result<u64, Error>)
        requires
            old(self).wf(),
            old(self).open_error(size, leverage, collateral) is None ==> old(self).position_count < u64::MAX,
        ensures
            final(self).wf(),
            match old(self).open_error(size, leverage, collateral) {
                Some(e) => r == Err::<u64, Error>(e) && *final(self) == *old(self),
                None => {
                    let id = (old(self).position_count + 1) as u64;
                    &&& r == Ok::<u64, Error>(id)
                    &&& final(self).position_count == id
                    &&& final(self).positions@ == old(self).positions@.insert(
                        id,
                        Position {
                            id,
                            trader,
                            is_long,
                            size,
                            leverage,
                            entry_price: old(self).funding->0.mark_price,
                            collateral,
                            status: PositionStatus::Active,
                        },
                    )
                    &&& final(self).funding == old(self).funding
                    &&& final(self).admin == old(self).admin
                    &&& final(self).initialized == old(self).initialized
                    &&& final(self).paused == old(self).paused
                },
            },
    {
        if self.paused {
            return Err(Error::ContractPaused);
        }
        if !self.initialized {
            return Err(Error::NotInitialized);
        }
        if size <= 0 {
            return Err(Error::InvalidSize);
        }
        if leverage == 0 || leverage > MAX_LEVERAGE {
            return Err(Error::InvalidLeverage);
        }
        if collateral <= 0 {
            return Err(Error::InsufficientMargin);
        }
        let mark = match self.funding {
            Some(f) => f.mark_price,
            None => return Err(Error::NotInitialized),
        };
        let id = self.position_count + 1;
        self.positions.insert(
            id,
            Position {
                id,
                trader,
                is_long,
                size,
                leverage,
                entry_price: mark,
                collateral,
                status: PositionStatus::Active,
            },
        );
        self.position_count = id;
        Ok(id)
    }

    /// Why `close_position` fails, if it does.
    pub open spec fn close_error(&self, trader: Address, position_id: u64, exit_price: i128) -> Option<Error> {
        if self.paused {
            Some(Error::ContractPaused)
        } else if !self.initialized {
            Some(Error::NotInitialized)
        } else if exit_price <= 0 {
            Some(Error::InvalidPrice)
        } else if !self.positions@.contains_key(position_id) {
            Some(Error::PositionNotFound)
        } else if self.positions@[position_id].trader != trader {
            Some(Error::Unauthorized)
        } else if self.positions@[position_id].status != PositionStatus::Active {
            Some(Error::PositionNotActive)
        } else {
            None
        }
    }

    /// The trader closes an active position at `exit_price`.  Returns the
    /// settlement: collateral plus profit or loss.
    pub fn close_position(&mut self, trader: Address, position_id: u64, exit_price: i128) -> (r: Result<i128, Error>)
        requires
            old(self).wf(),
            old(self).close_error(trader, position_id, exit_price) is None ==> {
                let p = old(self).positions@[position_id];
                pnl_fits(p, exit_price) && fits_i128(p.collateral + spec_pnl(p, exit_price))
            },
        ensures
            final(self).wf(),
            match old(self).close_error(trader, position_id, exit_price) {
                Some(e) => r == Err::<i128, Error>(e) && *final(self) == *old(self),
                None => {
                    let p = old(self).positions@[position_id];
                    &&& r == Ok::<i128, Error>((p.collateral + spec_pnl(p, exit_price)) as i128)
                    &&& final(self).positions@ == old(self).positions@.insert(
                        p.id,
                        Position { status: PositionStatus::Closed, ..p },
                    )
                    &&& final(self).funding == old(self).funding
                    &&& final(self).position_count == old(self).position_count
                    &&& final(self).admin == old(self).admin
                    &&& final(self).initialized == old(self).initialized
                    &&& final(self).paused == old(self).paused
                },
            },
    {
        if self.paused {
            return Err(Error::ContractPaused);
        }
        if !self.initialized {
            return Err(Error::NotInitialized);
        }
        if exit_price <= 0 {
            return Err(Error::InvalidPrice);
        }
        let p = match self.positions.get(&position_id) {
            None => return Err(Error::PositionNotFound),
            Some(p) => *p,
        };
        if p.trader != trader {
            return Err(Error::Unauthorized);
        }
        if p.status != PositionStatus::Active {
            return Err(Error::PositionNotActive);
        }
        let gain = pnl(&p, exit_price);
        self.positions.insert(p.id, Position { status: PositionStatus::Closed, ..p });
        Ok(p.collateral + gain)
    }

    /// The funding rate in bps for mark and index prices: their difference
    /// times 10 000 over the index (truncated), then truncated to `i32`.
    pub open spec fn spec_rate(mark_price: i128, index_price: i128) -> i32 {
        tdiv_signed((mark_price - index_price) * 10_000, index_price as int) as i32
    }

    /// The admin sets positive mark and index prices; the funding rate is
    /// recomputed and returned.
    pub fn update_funding_rate(&mut self, now: u64, admin: Address, mark_price: i128, index_price: i128) -> (r: Result<
        i32,
        Error,
    >)
        requires
            old(self).wf(),
            old(self).admin_error(admin) is None && mark_price > 0 && index_price > 0 ==> fits_i128(
                (mark_price - index_price) * 10_000,
            ),
        ensures
            final(self).wf(),
            old(self).admin_error(admin) is Some ==> r == Err::<i32, Error>(old(self).admin_error(admin)->0) && *final(
                self) == *old(self),
            old(self).admin_error(admin) is None && (mark_price <= 0 || index_price <= 0) ==> r == Err::<i32, Error>(
                Error::InvalidPrice,
            ) && *final(self) == *old(self),
            old(self).admin_error(admin) is None && mark_price > 0 && index_price > 0 ==> {
                let rate = Self::spec_rate(mark_price, index_price);
                &&& r == Ok::<i32, Error>(rate)
                &&& *final(self) == (PerpetualFutures {
                    funding: Some(FundingRate { mark_price, index_price, rate_bps: rate, last_update: now }),
                    ..*old(self)
                })
            },
    {
        self.check_admin(admin)?;
        if mark_price <= 0 || index_price <= 0 {
            return Err(Error::InvalidPrice);
        }
        let rate_bps = div_trunc((mark_price - index_price) * 10_000, index_price) as i32;
        self.funding = Some(FundingRate { mark_price, index_price, rate_bps, last_update: now });
        Ok(rate_bps)
    }

    /// Why `liquidate_position` fails, if it does.
    pub open spec fn liquidate_error(&self, position_id: u64, current_price: i128) -> Option<Error> {
        if self.paused {
            Some(Error::ContractPaused)
        } else if !self.initialized {
            Some(Error::NotInitialized)
        } else if current_price <= 0 {
            Some(Error::InvalidPrice)
        } else if !self.positions@.contains_key(position_id) {
            Some(Error::PositionNotFound)
        } else {
            let p = self.positions@[position_id];
            if p.status != PositionStatus::Active {
                Some(Error::PositionNotActive)
            } else if p.collateral + spec_pnl(p, current_price) > tdiv_signed(
                p.collateral * MAINTENANCE_MARGIN_BPS,
                10_000,
            ) {
                Some(Error::InsufficientMargin)
            } else {
                None
            }
        }
    }

    /// Anyone liquidates an active position whose remaining margin at
    /// `current_price` is at most 5% of its collateral.
    pub fn liquidate_position(&mut self, liquidator: Address, position_id: u64, current_price: i128) -> (r: Result<
        (),
        Error,
    >)
        requires
            old(self).wf(),
            !old(self).paused && old(self).initialized && current_price > 0 && old(self).positions@.contains_key(
                position_id,
            ) ==> {
                let p = old(self).positions@[position_id];
                pnl_fits(p, current_price) && fits_i128(p.collateral + spec_pnl(p, current_price)) && fits_i128(
                    p.collateral * MAINTENANCE_MARGIN_BPS,
                )
            },
        ensures
            final(self).wf(),
            match old(self).liquidate_error(position_id, current_price) {
                Some(e) => r == Err::<(), Error>(e) && *final(self) == *old(self),
                None => {
                    let p = old(self).positions@[position_id];
                    &&& r is Ok
                    &&& final(self).positions@ == old(self).positions@.insert(
                        p.id,
                        Position { status: PositionStatus::Liquidated, ..p },
                    )
                    &&& final(self).funding == old(self).funding
                    &&& final(self).position_count == old(self).position_count
                    &&& final(self).admin == old(self).admin
                    &&& final(self).initialized == old(self).initialized
                    &&& final(self).paused == old(self).paused
                },
            },
    {
        if self.paused {
            return Err(Error::ContractPaused);
        }
        if !self.initialized {
            return Err(Error::NotInitialized);
        }
        if current_price <= 0 {
            return Err(Error::InvalidPrice);
        }
        let p = match self.positions.get(&position_id) {
            None => return Err(Error::PositionNotFound),
            Some(p) => *p,
        };
        if p.status != PositionStatus::Active {
            return Err(Error::PositionNotActive);
        }
        let gain = pnl(&p, current_price);
        let remaining = p.collateral + gain;
        let threshold = div_trunc(p.collateral * MAINTENANCE_MARGIN_BPS, 10_000);
        if remaining > threshold {
            return Err(Error::InsufficientMargin);
        }
        self.positions.insert(p.id, Position { status: PositionStatus::Liquidated, ..p });
        Ok(())
    }

    pub fn get_position(&self, position_id: u64) -> (r: Result<Position, Error>)
        ensures
            self.positions@.contains_key(position_id) ==> r == Ok::<Position, Error>(self.positions@[position_id]),
            !self.positions@.contains_key(position_id) ==> r == Err::<Position, Error>(Error::PositionNotFound),
    {
        match self.positions.get(&position_id) {
            Some(p) => Ok(*p),
            None => Err(Error::PositionNotFound),
        }
    }

    pub fn get_funding_rate(&self) -> (r: Result<FundingRate, Error>)
        ensures
            match self.funding {
                Some(f) => r == Ok::<FundingRate, Error>(f),
                None => r == Err::<FundingRate, Error>(Error::NotInitialized),
            },
    {
        match self.funding {
            Some(f) => Ok(f),
            None => Err(Error::NotInitialized),
        }
    }

    pub fn position_count(&self) -> (n: u64)
        ensures
            n == self.position_count,
    {
        self.position_count
    }

    pub fn is_paused(&self) -> (b: bool)
        ensures
            b == self.paused,
    {
        self.paused
    }

    pub fn get_admin(&self) -> (r: Result<Address, Error>)
        ensures
            match self.admin {
                Some(a) => r == Ok::<Address, Error>(a),
                None => r == Err::<Address, Error>(Error::NotInitialized),
            },
    {
        match self.admin {
            Some(a) => Ok(a),
            None => Err(Error::NotInitialized),
        }
    }
}

/// Closing at the entry price neither gains nor loses: the settlement is
/// the collateral.
pub proof fn lemma_close_at_entry_returns_collateral(p: Position)
    requires
        p.entry_price > 0,
    ensures
        spec_pnl(p, p.entry_price) == 0,
{
}

} // verus!
