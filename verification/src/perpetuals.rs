//! Perpetual futures on a virtual AMM: the mark price follows a
//! constant-product pool `x * y = k`, and an 8-hour funding rate
//! `(mark - index) * 10000 / index`, clamped to ±500 bps, moves collateral
//! between longs and shorts.
use vstd::prelude::*;
use crate::common::{Address, tdiv, tdiv_signed, abs_int, fits_i128, fits_i64, clamp_int, sat_i128, sat_i64,
    div_trunc, i128_saturating_add, i128_saturating_sub, i64_saturating_add};

verus! {

pub const MAX_FUNDING_RATE_BPS: i64 = 500;
pub const FUNDING_PERIOD_SECS: u64 = 8 * 3600;
pub const MAX_LEVERAGE: u32 = 100;
pub const MAINTENANCE_MARGIN_BPS: i128 = 500;

#[derive(Clone, Copy, Debug, PartialEq, Eq, Structural)]
pub enum Error {
    AlreadyInitialized,
    NotInitialized,
    Unauthorized,
    ContractPaused,
    InvalidLeverage,
    InvalidSize,
    InvalidPrice,
    PositionNotFound,
    PositionNotActive,
    InsufficientMargin,
    InvalidVammReserves,
    ArithmeticOverflow,
    FundingNotDue,
    InvalidFundingRate,
}

#[derive(Clone, Copy, Debug, PartialEq, Eq, Structural)]
pub enum PositionStatus {
    Active,
    Closed,
    Liquidated,
}

#[derive(Clone, Copy, Debug, PartialEq, Eq, Structural)]
pub struct Position {
    pub id: u64,
    pub trader: Address,
    pub is_long: bool,
    pub size: i128,
    pub leverage: u32,
    pub entry_price: i128,
    pub collateral: i128,
    pub status: PositionStatus,
}

/// Constant-product pool state; `k = reserve_x * reserve_y`.
#[derive(Clone, Copy, Debug, PartialEq, Eq, Structural)]
pub struct VammConfig {
    pub reserve_x: i128,
    pub reserve_y: i128,
    pub k: i128,
}

#[derive(Clone, Copy, Debug, PartialEq, Eq, Structural)]
pub struct FundingRate {
    pub mark_price: i128,
    pub index_price: i128,
    pub rate_bps: i32,
    pub last_update: u64,
    pub last_settlement: u64,
}

#[derive(Clone, Copy, Debug, PartialEq, Eq, Structural)]
pub struct FundingSettlement {
    pub rate_bps: i32,
    pub longs_pay: bool,
    pub total_payments: i128,
    pub new_accumulator: i64,
    pub timestamp: u64,
}

// ── vAMM helpers ────────────────────────────────────────────────────────────

/// `reserve_y * 10^7 / reserve_x`, the mark price with 7 decimals.
pub open spec fn spec_mark_price(v: VammConfig) -> Result<int, Error> {
    if v.reserve_x == 0 {
        Err(Error::InvalidVammReserves)
    } else {
        Ok(tdiv_signed(v.reserve_y * 10_000_000, v.reserve_x as int))
    }
}

/// The mark price can be computed without overflow.
pub open spec fn mark_price_defined(v: VammConfig) -> bool {
    v.reserve_x != 0 ==> fits_i128(v.reserve_y * 10_000_000) && !(v.reserve_y * 10_000_000 == i128::MIN
        && v.reserve_x == -1)
}

impl Perpetuals {
    /// Mark price of the pool: `reserve_y / reserve_x` with 7 decimals.
    pub fn vamm_mark_price_from(vamm: &VammConfig) -> (r: Result<i128, Error>)
        requires
            mark_price_defined(*vamm),
        ensures
            match spec_mark_price(*vamm) {
                Ok(p) => r == Ok::<i128, Error>(p as i128),
                Err(e) => r == Err::<i128, Error>(e),
            },
    {
        if vamm.reserve_x == 0 {
            return Err(Error::InvalidVammReserves);
        }
        Ok(div_trunc(vamm.reserve_y * 10_000_000, vamm.reserve_x))
    }
}

/// The pool after a trade of `size` base units: a long removes `size` from
/// the base reserve, a short adds it; the quote reserve becomes `k / x`.
pub open spec fn spec_vamm_trade(v: VammConfig, is_long: bool, size: int) -> Result<VammConfig, Error> {
    if is_long {
        if v.reserve_x <= size {
            Err(Error::InvalidVammReserves)
        } else {
            let nx = v.reserve_x - size;
            Ok(VammConfig { reserve_x: nx as i128, reserve_y: tdiv_signed(v.k as int, nx) as i128, k: v.k })
        }
    } else {
        let nx = v.reserve_x + size;
        if !fits_i128(nx) {
            Err(Error::ArithmeticOverflow)
        } else if nx == 0 {
            Err(Error::InvalidVammReserves)
        } else {
            Ok(VammConfig { reserve_x: nx as i128, reserve_y: tdiv_signed(v.k as int, nx) as i128, k: v.k })
        }
    }
}

/// A constant-product pool (`k == x * y`) with positive reserves: a long
/// never lowers the mark price and a short never raises it.
pub proof fn lemma_trade_moves_mark(v: VammConfig, is_long: bool, size: int)
    requires
        v.reserve_x > 0,
        v.reserve_y >= 0,
        v.k == v.reserve_x * v.reserve_y,
        size > 0,
        is_long ==> size < v.reserve_x,
        !is_long ==> fits_i128(v.reserve_x + size),
    ensures
        spec_vamm_trade(v, is_long, size) is Ok,
        spec_mark_price(spec_vamm_trade(v, is_long, size)->Ok_0) is Ok,
        is_long ==> spec_mark_price(spec_vamm_trade(v, is_long, size)->Ok_0)->Ok_0 >= spec_mark_price(v)->Ok_0,
        !is_long ==> spec_mark_price(spec_vamm_trade(v, is_long, size)->Ok_0)->Ok_0 <= spec_mark_price(v)->Ok_0,
{
    let x = v.reserve_x as int;
    let y = v.reserve_y as int;
    let nx = if is_long {
        x - size
    } else {
        x + size
    };
    assert(v.k >= 0) by (nonlinear_arith)
        requires
            v.k == x * y,
            x > 0,
            y >= 0,
    ;
    vstd::arithmetic::div_mod::lemma_div_multiples_vanish(y, x);
    assert(y * x == v.k) by (nonlinear_arith)
        requires
            v.k == x * y,
    ;
    let ny = (v.k as int) / nx;
    assert(0 <= ny <= v.k) by {
        vstd::arithmetic::div_mod::lemma_div_pos_is_pos(v.k as int, nx);
        vstd::arithmetic::div_mod::lemma_div_is_ordered_by_denominator(v.k as int, 1, nx);
    }
    assert(tdiv_signed(v.k as int, nx) == ny);
    assert((ny as i128) as int == ny);
    if is_long {
        // k / nx >= k / x == y
        vstd::arithmetic::div_mod::lemma_div_is_ordered_by_denominator(v.k as int, nx, x);
        assert(ny >= y);
        assert(ny * 10_000_000 >= y * 10_000_000);
        vstd::arithmetic::div_mod::lemma_div_is_ordered(y * 10_000_000, ny * 10_000_000, nx);
        vstd::arithmetic::div_mod::lemma_div_is_ordered_by_denominator(y * 10_000_000, nx, x);
    } else {
        vstd::arithmetic::div_mod::lemma_div_is_ordered_by_denominator(v.k as int, x, nx);
        assert(ny <= y);
        assert(ny * 10_000_000 <= y * 10_000_000);
        vstd::arithmetic::div_mod::lemma_div_is_ordered(ny * 10_000_000, y * 10_000_000, nx);
        vstd::arithmetic::div_mod::lemma_div_is_ordered_by_denominator(y * 10_000_000, x, nx);
    }
}

/// The unchecked operations of a trade neither overflow nor divide `MIN` by -1.
pub open spec fn vamm_trade_defined(v: VammConfig, is_long: bool, size: int) -> bool {
    &&& (is_long && v.reserve_x > size) ==> fits_i128(v.reserve_x - size)
    &&& !(v.k == i128::MIN && ((is_long && v.reserve_x - size == -1) || (!is_long && v.reserve_x + size == -1)))
}

impl Perpetuals {
    /// Apply a trade to the pool (constant-product invariant).
    pub fn apply_vamm_trade(vamm: &mut VammConfig, is_long: bool, size: i128) -> (r: Result<(), Error>)
        requires
            vamm_trade_defined(*old(vamm), is_long, size as int),
        ensures
            match spec_vamm_trade(*old(vamm), is_long, size as int) {
                Ok(v) => r is Ok && *final(vamm) == v,
                Err(e) => r == Err::<(), Error>(e) && *final(vamm) == *old(vamm),
            },
    {
        if is_long {
            if vamm.reserve_x <= size {
                return Err(Error::InvalidVammReserves);
            }
            let new_x = vamm.reserve_x - size;
            let new_y = div_trunc(vamm.k, new_x);
            vamm.reserve_x = new_x;
            vamm.reserve_y = new_y;
        } else {
            let new_x = match vamm.reserve_x.checked_add(size) {
                Some(v) => v,
                None => return Err(Error::ArithmeticOverflow),
            };
            if new_x == 0 {
                return Err(Error::InvalidVammReserves);
            }
            let new_y = div_trunc(vamm.k, new_x);
            vamm.reserve_x = new_x;
            vamm.reserve_y = new_y;
        }
        Ok(())
    }
}

/// The 8-hour funding rate in bps: `(mark - index) * 10000 / index`
/// (truncated to `i64`), clamped to ±`MAX_FUNDING_RATE_BPS`; 0 for a zero
/// index.
pub open spec fn spec_rate_bps(mark: int, index: int) -> int {
    if index == 0 {
        0
    } else {
        clamp_int((tdiv_signed((mark - index) * 10_000, index) as i64) as int, -500, 500)
    }
}

/// The unchecked difference and product of the rate formula fit.
pub open spec fn rate_defined(mark: int, index: int) -> bool {
    index != 0 ==> fits_i128(mark - index) && fits_i128((mark - index) * 10_000) && !((mark - index) * 10_000
        == i128::MIN && index == -1)
}

impl Perpetuals {
    pub fn compute_rate_bps(mark_price: i128, index_price: i128) -> (r: i32)
        requires
            rate_defined(mark_price as int, index_price as int),
        ensures
            r == spec_rate_bps(mark_price as int, index_price as int),
            -500 <= r <= 500,
    {
        if index_price == 0 {
            return 0;
        }
        let raw: i64 = div_trunc((mark_price - index_price) * 10_000, index_price) as i64;
        let clamped = if raw < -MAX_FUNDING_RATE_BPS {
            -MAX_FUNDING_RATE_BPS
        } else if raw > MAX_FUNDING_RATE_BPS {
            MAX_FUNDING_RATE_BPS
        } else {
            raw
        };
        clamped as i32
    }
}

/// Profit or loss of a position at `price`: the relative price move times
/// the size, sign-adjusted for the side.
pub open spec fn spec_pnl(p: Position, price: int) -> int {
    if p.is_long {
        tdiv_signed((price - p.entry_price) * p.size, p.entry_price as int)
    } else {
        tdiv_signed((p.entry_price - price) * p.size, p.entry_price as int)
    }
}

pub open spec fn pnl_defined(p: Position, price: int) -> bool {
    let d = if p.is_long {
        price - p.entry_price
    } else {
        p.entry_price - price
    };
    &&& p.entry_price != 0
    &&& fits_i128(d)
    &&& fits_i128(d * p.size)
    &&& !(d * p.size == i128::MIN && p.entry_price == -1)
}

fn pnl(p: &Position, price: i128) -> (r: i128)
    requires
        pnl_defined(*p, price as int),
    ensures
        r == spec_pnl(*p, price as int),
{
    if p.is_long {
        div_trunc((price - p.entry_price) * p.size, p.entry_price)
    } else {
        div_trunc((p.entry_price - price) * p.size, p.entry_price)
    }
}

/// A position after one funding settlement at `rate_bps`: the payment
/// `size * |rate| / 10000` is taken from the paying side and given to the
/// other (saturating), for active positions only.
pub open spec fn funding_payment(p: Position, rate_bps: int) -> int {
    tdiv(p.size * abs_int(rate_bps), 10_000)
}

pub open spec fn settle_position(p: Position, rate_bps: int) -> Position {
    if p.status != PositionStatus::Active {
        p
    } else if p.is_long == (rate_bps > 0) {
        Position { collateral: sat_i128(p.collateral - funding_payment(p, rate_bps)) as i128, ..p }
    } else {
        Position { collateral: sat_i128(p.collateral + funding_payment(p, rate_bps)) as i128, ..p }
    }
}

/// Total of the payments over active positions, accumulated with saturation
/// in position order.
pub open spec fn settle_total(ps: Seq<Position>, rate_bps: int) -> int
    decreases ps.len(),
{
    if ps.len() == 0 {
        0
    } else {
        let prev = settle_total(ps.drop_last(), rate_bps);
        if ps.last().status == PositionStatus::Active {
            sat_i128(prev + funding_payment(ps.last(), rate_bps))
        } else {
            prev
        }
    }
}

proof fn lemma_settle_total_range(ps: Seq<Position>, rate_bps: int)
    ensures
        fits_i128(settle_total(ps, rate_bps)),
    decreases ps.len(),
{
    if ps.len() > 0 {
        lemma_settle_total_range(ps.drop_last(), rate_bps);
    }
}

// ── Contract ────────────────────────────────────────────────────────────────

/// The persistent storage of the perpetuals contract.
pub struct Perpetuals {
    pub admin: Option<Address>,
    pub paused: bool,
    pub vamm: VammConfig,
    pub funding: FundingRate,
    pub accumulator: i64,
    /// Position `id` is stored at index `id - 1`.
    pub positions: Vec<Position>,
    /// The accumulator when position `id` was opened, at index `id - 1`.
    pub snapshots: Vec<i64>,
}

impl Perpetuals {
    pub open spec fn wf(&self) -> bool {
        &&& self.positions@.len() == self.snapshots@.len()
        &&& self.positions@.len() <= u64::MAX
        &&& forall|i: int| 0 <= i < self.positions@.len() ==> #[trigger] self.positions@[i].id == i + 1
    }

    pub open spec fn initialized(&self) -> bool {
        self.admin is Some
    }

    pub open spec fn spec_position(&self, id: u64) -> Option<Position> {
        if 1 <= id <= self.positions@.len() {
            Some(self.positions@[id - 1])
        } else {
            None
        }
    }

    /// Empty storage.
    pub fn new() -> (s: Self)
        ensures
            s.wf(),
            !s.initialized(),
            !s.paused,
            s.admin is None,
            s.positions@.len() == 0,
            s.snapshots@.len() == 0,
            s.accumulator == 0,
            s.vamm == (VammConfig { reserve_x: 0, reserve_y: 0, k: 0 }),
            s.funding == (FundingRate { mark_price: 0, index_price: 0, rate_bps: 0, last_update: 0, last_settlement: 0 }),
    {
        Perpetuals {
            admin: None,
            paused: false,
            vamm: VammConfig { reserve_x: 0, reserve_y: 0, k: 0 },
            funding: FundingRate { mark_price: 0, index_price: 0, rate_bps: 0, last_update: 0, last_settlement: 0 },
            accumulator: 0,
            positions: Vec::new(),
            snapshots: Vec::new(),
        }
    }

    /// Why `initialize` fails, if it does.
    pub open spec fn initialize_error(&self, reserve_x: i128, reserve_y: i128, index_price: i128) -> Option<Error> {
        if self.initialized() {
            Some(Error::AlreadyInitialized)
        } else if reserve_x <= 0 || reserve_y <= 0 {
            Some(Error::InvalidVammReserves)
        } else if index_price <= 0 {
            Some(Error::InvalidPrice)
        } else if !fits_i128(reserve_x * reserve_y) {
            Some(Error::ArithmeticOverflow)
        } else {
            None
        }
    }

    /// Seed the pool and the funding state; the admin signs.
    pub fn initialize(&mut self, now: u64, admin: Address, reserve_x: i128, reserve_y: i128, index_price: i128) -> (r: Result<(), Error>)
        requires
            old(self).wf(),
            old(self).initialize_error(reserve_x, reserve_y, index_price) is None ==> fits_i128(reserve_y * 10_000_000),
        ensures
            final(self).wf(),
            match old(self).initialize_error(reserve_x, reserve_y, index_price) {
                Some(e) => r == Err::<(), Error>(e) && *final(self) == *old(self),
                None => {
                    &&& r is Ok
                    &&& final(self).admin == Some(admin)
                    &&& !final(self).paused
                    &&& final(self).accumulator == 0
                    &&& final(self).vamm == VammConfig { reserve_x, reserve_y, k: (reserve_x * reserve_y) as i128 }
                    &&& final(self).funding == FundingRate {
                        mark_price: (reserve_y * 10_000_000 / reserve_x as int) as i128,
                        index_price,
                        rate_bps: 0,
                        last_update: now,
                        last_settlement: now,
                    }
                    &&& final(self).positions@ == old(self).positions@
                    &&& final(self).snapshots@ == old(self).snapshots@
                },
            },
    {
        if self.admin.is_some() {
            return Err(Error::AlreadyInitialized);
        }
        if reserve_x <= 0 || reserve_y <= 0 {
            return Err(Error::InvalidVammReserves);
        }
        if index_price <= 0 {
            return Err(Error::InvalidPrice);
        }
        let k = match reserve_x.checked_mul(reserve_y) {
            Some(v) => v,
            None => return Err(Error::ArithmeticOverflow),
        };
        let vamm = VammConfig { reserve_x, reserve_y, k };
        let mark_price = match Perpetuals::vamm_mark_price_from(&vamm) {
            Ok(p) => p,
            Err(e) => return Err(e),
        };
        self.admin = Some(admin);
        self.paused = false;
        self.accumulator = 0;
        self.vamm = vamm;
        self.funding = FundingRate { mark_price, index_price, rate_bps: 0, last_update: now, last_settlement: now };
        Ok(())
    }

    fn assert_admin(&self, admin: Address) -> (r: Result<(), Error>)
        ensures
            !self.initialized() ==> r == Err::<(), Error>(Error::NotInitialized),
            self.initialized() && self.admin != Some(admin) ==> r == Err::<(), Error>(Error::Unauthorized),
            self.admin == Some(admin) ==> r is Ok,
    {
        match self.admin {
            None => Err(Error::NotInitialized),
            Some(a) => if a != admin {
                Err(Error::Unauthorized)
            } else {
                Ok(())
            },
        }
    }

    /// The admin pauses or resumes trading.
    pub fn set_paused(&mut self, admin: Address, paused: bool) -> (r: Result<(), Error>)
        ensures
            !old(self).initialized() ==> r == Err::<(), Error>(Error::NotInitialized) && *final(self) == *old(self),
            old(self).initialized() && old(self).admin != Some(admin) ==> r == Err::<(), Error>(Error::Unauthorized)
                && *final(self) == *old(self),
            old(self).admin == Some(admin) ==> r is Ok && *final(self) == (Perpetuals { paused, ..*old(self) }),
    {
        self.assert_admin(admin)?;
        self.paused = paused;
        Ok(())
    }

    /// Current mark price of the pool.
    pub fn mark_price(&self) -> (r: Result<i128, Error>)
        requires
            self.initialized() ==> mark_price_defined(self.vamm),
        ensures
            !self.initialized() ==> r == Err::<i128, Error>(Error::NotInitialized),
            self.initialized() ==> match spec_mark_price(self.vamm) {
                Ok(p) => r == Ok::<i128, Error>(p as i128),
                Err(e) => r == Err::<i128, Error>(e),
            },
    {
        if self.admin.is_none() {
            return Err(Error::NotInitialized);
        }
        Perpetuals::vamm_mark_price_from(&self.vamm)
    }

    /// The admin pushes a new index price; the rate is recomputed against
    /// the stored mark price.
    pub fn update_index_price(&mut self, now: u64, admin: Address, index_price: i128) -> (r: Result<(), Error>)
        requires
            old(self).admin == Some(admin) && index_price > 0 ==> rate_defined(
                old(self).funding.mark_price as int,
                index_price as int,
            ),
        ensures
            !old(self).initialized() ==> r == Err::<(), Error>(Error::NotInitialized) && *final(self) == *old(self),
            old(self).initialized() && old(self).admin != Some(admin) ==> r == Err::<(), Error>(Error::Unauthorized)
                && *final(self) == *old(self),
            old(self).admin == Some(admin) && index_price <= 0 ==> r == Err::<(), Error>(Error::InvalidPrice)
                && *final(self) == *old(self),
            old(self).admin == Some(admin) && index_price > 0 ==> r is Ok && *final(self) == (Perpetuals {
                funding: FundingRate {
                    index_price,
                    last_update: now,
                    rate_bps: spec_rate_bps(old(self).funding.mark_price as int, index_price as int) as i32,
                    ..old(self).funding
                },
                ..*old(self)
            }),
    {
        self.assert_admin(admin)?;
        if index_price <= 0 {
            return Err(Error::InvalidPrice);
        }
        let rate = Perpetuals::compute_rate_bps(self.funding.mark_price, index_price);
        self.funding = FundingRate { index_price, last_update: now, rate_bps: rate, ..self.funding };
        Ok(())
    }

    /// Why `update_funding_rate` fails, if it does.
    pub open spec fn update_funding_rate_error(&self, now: u64) -> Option<Error> {
        if !self.initialized() {
            Some(Error::NotInitialized)
        } else if now < self.funding.last_update + FUNDING_PERIOD_SECS {
            Some(Error::FundingNotDue)
        } else {
            match spec_mark_price(self.vamm) {
                Err(e) => Some(e),
                Ok(_) => None,
            }
        }
    }

    /// Once per period, anyone recomputes the rate from the pool's mark
    /// price and advances the accumulator by `rate * 10^6` (saturating).
    pub fn update_funding_rate(&mut self, now: u64) -> (r: Result<i32, Error>)
        requires
            old(self).initialized() ==> old(self).funding.last_update + FUNDING_PERIOD_SECS <= u64::MAX,
            old(self).initialized() && now >= old(self).funding.last_update + FUNDING_PERIOD_SECS ==> mark_price_defined(old(self).vamm),
            old(self).update_funding_rate_error(now) is None ==> rate_defined(
                spec_mark_price(old(self).vamm)->Ok_0,
                old(self).funding.index_price as int,
            ),
        ensures
            match old(self).update_funding_rate_error(now) {
                Some(e) => r == Err::<i32, Error>(e) && *final(self) == *old(self),
                None => {
                    let mark = spec_mark_price(old(self).vamm)->Ok_0;
                    let rate = spec_rate_bps(mark, old(self).funding.index_price as int);
                    &&& r == Ok::<i32, Error>(rate as i32)
                    &&& *final(self) == (Perpetuals {
                        funding: FundingRate {
                            mark_price: mark as i128,
                            rate_bps: rate as i32,
                            last_update: now,
                            ..old(self).funding
                        },
                        accumulator: sat_i64(old(self).accumulator + rate * 1_000_000) as i64,
                        ..*old(self)
                    })
                },
            },
    {
        if self.admin.is_none() {
            return Err(Error::NotInitialized);
        }
        if now < self.funding.last_update + FUNDING_PERIOD_SECS {
            return Err(Error::FundingNotDue);
        }
        let mark = Perpetuals::vamm_mark_price_from(&self.vamm)?;
        let rate = Perpetuals::compute_rate_bps(mark, self.funding.index_price);
        let delta = (rate as i64) * 1_000_000;
        let new_acc = i64_saturating_add(self.accumulator, delta);
        self.accumulator = new_acc;
        self.funding = FundingRate { mark_price: mark, rate_bps: rate, last_update: now, ..self.funding };
        Ok(rate)
    }

    /// Why `settle_funding` fails, if it does.
    pub open spec fn settle_funding_error(&self, now: u64) -> Option<Error> {
        if !self.initialized() {
            Some(Error::NotInitialized)
        } else if self.paused {
            Some(Error::ContractPaused)
        } else if now < self.funding.last_settlement + FUNDING_PERIOD_SECS {
            Some(Error::FundingNotDue)
        } else {
            None
        }
    }

    /// Once per period, settle the stored rate across all active positions:
    /// the paying side (longs when the rate is positive) loses
    /// `size * |rate| / 10000` of collateral and the other side gains it.
    pub fn settle_funding(&mut self, now: u64) -> (r: Result<FundingSettlement, Error>)
        requires
            old(self).wf(),
            old(self).initialized() ==> old(self).funding.last_settlement + FUNDING_PERIOD_SECS <= u64::MAX,
            old(self).settle_funding_error(now) is None ==> forall|i: int|
                0 <= i < old(self).positions@.len() && #[trigger] old(self).positions@[i].status == PositionStatus::Active
                    ==> fits_i128(old(self).positions@[i].size * abs_int(old(self).funding.rate_bps as int)),
        ensures
            final(self).wf(),
            match old(self).settle_funding_error(now) {
                Some(e) => r == Err::<FundingSettlement, Error>(e) && *final(self) == *old(self),
                None => {
                    let rate = old(self).funding.rate_bps as int;
                    let acc = sat_i64(old(self).accumulator + rate * 1_000_000);
                    &&& r == Ok::<FundingSettlement, Error>(FundingSettlement {
                        rate_bps: rate as i32,
                        longs_pay: rate > 0,
                        total_payments: settle_total(old(self).positions@, rate) as i128,
                        new_accumulator: acc as i64,
                        timestamp: now,
                    })
                    &&& final(self).positions@ == old(self).positions@.map_values(|p: Position| settle_position(p, rate))
                    &&& final(self).accumulator == acc
                    &&& final(self).funding == FundingRate { last_settlement: now, ..old(self).funding }
                    &&& final(self).snapshots@ == old(self).snapshots@
                    &&& final(self).vamm == old(self).vamm
                    &&& final(self).admin == old(self).admin
                    &&& final(self).paused == old(self).paused
                },
            },
    {
        if self.admin.is_none() {
            return Err(Error::NotInitialized);
        }
        if self.paused {
            return Err(Error::ContractPaused);
        }
        if now < self.funding.last_settlement + FUNDING_PERIOD_SECS {
            return Err(Error::FundingNotDue);
        }
        let rate_bps = self.funding.rate_bps;
        let longs_pay = rate_bps > 0;
        let abs_rate: i128 = if rate_bps >= 0 {
            rate_bps as i128
        } else {
            -(rate_bps as i128)
        };
        let ghost old_ps = self.positions@;
        let ghost old_snap = self.snapshots@;
        let ghost old_funding = self.funding;
        let ghost old_acc = self.accumulator;
        let ghost old_vamm = self.vamm;
        let ghost old_admin = self.admin;
        let ghost old_paused = self.paused;
        let mut total_payments: i128 = 0;
        let n = self.positions.len();
        let mut i: usize = 0;
        while i < n
            invariant
                n == self.positions@.len(),
                n == old_ps.len(),
                0 <= i <= n,
                self.snapshots@ == old_snap,
                self.funding == old_funding,
                self.accumulator == old_acc,
                self.vamm == old_vamm,
                self.admin == old_admin,
                self.paused == old_paused,
                rate_bps == old_funding.rate_bps,
                abs_rate == abs_int(rate_bps as int),
                longs_pay == (rate_bps > 0),
                forall|j: int| 0 <= j < i ==> #[trigger] self.positions@[j] == settle_position(old_ps[j], rate_bps as int),
                forall|j: int| i <= j < n ==> #[trigger] self.positions@[j] == old_ps[j],
                total_payments == settle_total(old_ps.subrange(0, i as int), rate_bps as int),
                forall|j: int|
                    0 <= j < old_ps.len() && #[trigger] old_ps[j].status == PositionStatus::Active ==> fits_i128(
                        old_ps[j].size * abs_int(rate_bps as int),
                    ),
            decreases n - i,
        {
            let mut pos = self.positions[i];
            proof {
                assert(old_ps.subrange(0, i + 1).drop_last() == old_ps.subrange(0, i as int));
                assert(old_ps.subrange(0, i + 1).last() == old_ps[i as int]);
            }
            if pos.status == PositionStatus::Active {
                let payment = pos.size * abs_rate / 10_000;
                if pos.is_long == longs_pay {
                    pos.collateral = i128_saturating_sub(pos.collateral, payment);
                } else {
                    pos.collateral = i128_saturating_add(pos.collateral, payment);
                }
                total_payments = i128_saturating_add(total_payments, payment);
                self.positions.set(i, pos);
            }
            i = i + 1;
        }
        proof {
            assert(old_ps.subrange(0, n as int) == old_ps);
            assert(self.positions@ == old_ps.map_values(|p: Position| settle_position(p, rate_bps as int)));
            assert forall|j: int| 0 <= j < self.positions@.len() implies #[trigger] self.positions@[j].id == j + 1 by {
                assert(self.positions@[j] == settle_position(old_ps[j], rate_bps as int));
            }
        }
        let delta = (rate_bps as i64) * 1_000_000;
        let new_acc = i64_saturating_add(self.accumulator, delta);
        self.accumulator = new_acc;
        self.funding = FundingRate { last_settlement: now, ..self.funding };
        Ok(FundingSettlement { rate_bps, longs_pay, total_payments, new_accumulator: new_acc, timestamp: now })
    }

    /// Why `open_position` fails, if it does.
    pub open spec fn open_position_error(&self, is_long: bool, size: i128, leverage: u32, collateral: i128) -> Option<Error> {
        if self.paused {
            Some(Error::ContractPaused)
        } else if !self.initialized() {
            Some(Error::NotInitialized)
        } else if size <= 0 {
            Some(Error::InvalidSize)
        } else if leverage == 0 || leverage > MAX_LEVERAGE {
            Some(Error::InvalidLeverage)
        } else if collateral <= 0 {
            Some(Error::InsufficientMargin)
        } else {
            match spec_vamm_trade(self.vamm, is_long, size as int) {
                Err(e) => Some(e),
                Ok(v) => match spec_mark_price(v) {
                    Err(e) => Some(e),
                    Ok(_) => None,
                },
            }
        }
    }

    /// Open a leveraged position; the trade moves the pool and the entry
    /// price is the resulting mark price.  Returns the new position id.
    pub fn open_position(&mut self, trader: Address, is_long: bool, size: i128, leverage: u32, collateral: i128) -> (r: Result<u64, Error>)
        requires
            old(self).wf(),
            old(self).initialized() && !old(self).paused && size > 0 ==> vamm_trade_defined(old(self).vamm, is_long, size as int),
            old(self).initialized() && !old(self).paused && size > 0 && spec_vamm_trade(old(self).vamm, is_long, size as int) is Ok
                ==> mark_price_defined(spec_vamm_trade(old(self).vamm, is_long, size as int)->Ok_0),
            old(self).open_position_error(is_long, size, leverage, collateral) is None ==> old(self).positions@.len() < u64::MAX,
        ensures
            final(self).wf(),
            match old(self).open_position_error(is_long, size, leverage, collateral) {
                Some(e) => r == Err::<u64, Error>(e) && *final(self) == *old(self),
                None => {
                    let v = spec_vamm_trade(old(self).vamm, is_long, size as int)->Ok_0;
                    let entry = spec_mark_price(v)->Ok_0;
                    let id = (old(self).positions@.len() + 1) as u64;
                    &&& r == Ok::<u64, Error>(id)
                    &&& final(self).vamm == v
                    &&& final(self).funding == FundingRate { mark_price: entry as i128, ..old(self).funding }
                    &&& final(self).positions@ == old(self).positions@.push(Position {
                        id,
                        trader,
                        is_long,
                        size,
                        leverage,
                        entry_price: entry as i128,
                        collateral,
                        status: PositionStatus::Active,
                    })
                    &&& final(self).snapshots@ == old(self).snapshots@.push(old(self).accumulator)
                    &&& final(self).accumulator == old(self).accumulator
                    &&& final(self).admin == old(self).admin
                    &&& final(self).paused == old(self).paused
                },
            },
    {
        if self.paused {
            return Err(Error::ContractPaused);
        }
        if self.admin.is_none() {
            return Err(Error::NotInitialized);
        }
        if size <= 0 {
            return Err(Error::InvalidSize);
        }
        if leverage == 0 || leverage > MAX_LEVERAGE {
            return Err(Error::InvalidLeverage);
        }
        if collateral <= 0 {
            return Err(Error::InsufficientMargin);
        }
        let mut vamm = self.vamm;
        Perpetuals::apply_vamm_trade(&mut vamm, is_long, size)?;
        let entry_price = Perpetuals::vamm_mark_price_from(&vamm)?;
        self.vamm = vamm;
        self.funding = FundingRate { mark_price: entry_price, ..self.funding };
        let id = self.positions.len() as u64 + 1;
        self.snapshots.push(self.accumulator);
        self.positions.push(Position {
            id,
            trader,
            is_long,
            size,
            leverage,
            entry_price,
            collateral,
            status: PositionStatus::Active,
        });
        proof {
            assert forall|i: int| 0 <= i < self.positions@.len() implies #[trigger] self.positions@[i].id == i + 1 by {
                if i < old(self).positions@.len() {
                    assert(self.positions@[i] == old(self).positions@[i]);
                }
            }
        }
        Ok(id)
    }

    /// Why `close_position` fails, if it does.
    pub open spec fn close_position_error(&self, trader: Address, position_id: u64) -> Option<Error> {
        if self.paused {
            Some(Error::ContractPaused)
        } else if !self.initialized() {
            Some(Error::NotInitialized)
        } else if self.spec_position(position_id) is None {
            Some(Error::PositionNotFound)
        } else {
            let p = self.spec_position(position_id).unwrap();
            if p.trader != trader {
                Some(Error::Unauthorized)
            } else if p.status != PositionStatus::Active {
                Some(Error::PositionNotActive)
            } else {
                match spec_vamm_trade(self.vamm, !p.is_long, p.size as int) {
                    Err(e) => Some(e),
                    Ok(v) => match spec_mark_price(v) {
                        Err(e) => Some(e),
                        Ok(_) => None,
                    },
                }
            }
        }
    }

    /// Funding owed by a position since it opened:
    /// `size * (acc - acc_at_open) / 10^10`.
    pub open spec fn unpaid_funding(&self, position_id: u64) -> int {
        let p = self.spec_position(position_id).unwrap();
        tdiv(p.size * (self.accumulator - self.snapshots@[position_id - 1]), 10_000_000_000)
    }

    /// Net settlement of closing at the exit price: collateral plus PnL,
    /// less funding for a long, plus funding for a short.
    pub open spec fn close_settlement(&self, position_id: u64, exit_price: int) -> int {
        let p = self.spec_position(position_id).unwrap();
        if p.is_long {
            p.collateral + spec_pnl(p, exit_price) - self.unpaid_funding(position_id)
        } else {
            p.collateral + spec_pnl(p, exit_price) + self.unpaid_funding(position_id)
        }
    }

    /// The unchecked operations of closing neither overflow nor divide by 0.
    pub open spec fn close_defined(&self, position_id: u64, exit_price: int) -> bool {
        let p = self.spec_position(position_id).unwrap();
        let d = self.accumulator - self.snapshots@[position_id - 1];
        &&& pnl_defined(p, exit_price)
        &&& fits_i64(d)
        &&& fits_i128(p.size * d)
        &&& fits_i128(p.collateral + spec_pnl(p, exit_price))
        &&& fits_i128(self.close_settlement(position_id, exit_price))
    }

    /// The trader closes an active position; the reverse trade moves the
    /// pool.  Returns the net settlement.
    pub fn close_position(&mut self, trader: Address, position_id: u64) -> (r: Result<i128, Error>)
        requires
            old(self).wf(),
            old(self).initialized() && !old(self).paused && old(self).spec_position(position_id) is Some
                && old(self).spec_position(position_id).unwrap().trader == trader
                && old(self).spec_position(position_id).unwrap().status == PositionStatus::Active ==> {
                let p = old(self).spec_position(position_id).unwrap();
                &&& vamm_trade_defined(old(self).vamm, !p.is_long, p.size as int)
                &&& spec_vamm_trade(old(self).vamm, !p.is_long, p.size as int) is Ok ==> mark_price_defined(
                    spec_vamm_trade(old(self).vamm, !p.is_long, p.size as int)->Ok_0,
                )
            },
            old(self).close_position_error(trader, position_id) is None ==> old(self).close_defined(
                position_id,
                spec_mark_price(spec_vamm_trade(old(self).vamm, !old(self).spec_position(position_id).unwrap().is_long,
                    old(self).spec_position(position_id).unwrap().size as int)->Ok_0)->Ok_0,
            ),
        ensures
            final(self).wf(),
            match old(self).close_position_error(trader, position_id) {
                Some(e) => r == Err::<i128, Error>(e) && *final(self) == *old(self),
                None => {
                    let p = old(self).spec_position(position_id).unwrap();
                    let v = spec_vamm_trade(old(self).vamm, !p.is_long, p.size as int)->Ok_0;
                    let exit = spec_mark_price(v)->Ok_0;
                    &&& r == Ok::<i128, Error>(old(self).close_settlement(position_id, exit) as i128)
                    &&& final(self).vamm == v
                    &&& final(self).funding == FundingRate { mark_price: exit as i128, ..old(self).funding }
                    &&& final(self).positions@ == old(self).positions@.update(
                        position_id - 1,
                        Position { status: PositionStatus::Closed, ..p },
                    )
                    &&& final(self).snapshots@ == old(self).snapshots@
                    &&& final(self).accumulator == old(self).accumulator
                    &&& final(self).admin == old(self).admin
                    &&& final(self).paused == old(self).paused
                },
            },
            r is Ok ==> {
                let p = old(self).spec_position(position_id)->0;
                let exit = spec_mark_price(spec_vamm_trade(old(self).vamm, !p.is_long, p.size as int)->Ok_0)->Ok_0;
                let owed = tdiv(p.size * (old(self).accumulator - old(self).snapshots@[position_id - 1]), 10_000_000_000);
                &&& p.is_long ==> r->Ok_0 == p.collateral + spec_pnl(p, exit) - owed
                &&& !p.is_long ==> r->Ok_0 == p.collateral + spec_pnl(p, exit) + owed
            },
    {
        if self.paused {
            return Err(Error::ContractPaused);
        }
        if self.admin.is_none() {
            return Err(Error::NotInitialized);
        }
        if position_id == 0 || position_id > self.positions.len() as u64 {
            return Err(Error::PositionNotFound);
        }
        let idx = (position_id - 1) as usize;
        let mut pos = self.positions[idx];
        if pos.trader != trader {
            return Err(Error::Unauthorized);
        }
        if pos.status != PositionStatus::Active {
            return Err(Error::PositionNotActive);
        }
        let mut vamm = self.vamm;
        Perpetuals::apply_vamm_trade(&mut vamm, !pos.is_long, pos.size)?;
        let exit_price = Perpetuals::vamm_mark_price_from(&vamm)?;
        proof {
            lemma_close_funding_direction(*self, position_id, exit_price as int);
        }
        let pl = pnl(&pos, exit_price);
        let acc_delta = self.accumulator - self.snapshots[idx];
        let funding_payment = pos.size * (acc_delta as i128) / 10_000_000_000i128;
        let net_settlement = if pos.is_long {
            pos.collateral + pl - funding_payment
        } else {
            pos.collateral + pl + funding_payment
        };
        self.vamm = vamm;
        pos.status = PositionStatus::Closed;
        self.positions.set(idx, pos);
        self.funding = FundingRate { mark_price: exit_price, ..self.funding };
        Ok(net_settlement)
    }

    /// Why `liquidate_position` fails, if it does.
    pub open spec fn liquidate_error(&self, position_id: u64) -> Option<Error> {
        if self.paused {
            Some(Error::ContractPaused)
        } else if !self.initialized() {
            Some(Error::NotInitialized)
        } else if self.spec_position(position_id) is None {
            Some(Error::PositionNotFound)
        } else {
            let p = self.spec_position(position_id).unwrap();
            if p.status != PositionStatus::Active {
                Some(Error::PositionNotActive)
            } else {
                match spec_mark_price(self.vamm) {
                    Err(e) => Some(e),
                    Ok(price) => if p.collateral + spec_pnl(p, price) > tdiv(p.collateral * MAINTENANCE_MARGIN_BPS, 10_000) {
                        Some(Error::InsufficientMargin)
                    } else {
                        None
                    },
                }
            }
        }
    }

    /// Anyone liquidates an active position whose collateral plus PnL at
    /// the mark price has fallen to 5% of its collateral.
    pub fn liquidate_position(&mut self, liquidator: Address, position_id: u64) -> (r: Result<(), Error>)
        requires
            old(self).wf(),
            old(self).initialized() && !old(self).paused && old(self).spec_position(position_id) is Some
                && old(self).spec_position(position_id).unwrap().status == PositionStatus::Active ==> {
                let p = old(self).spec_position(position_id).unwrap();
                &&& mark_price_defined(old(self).vamm)
                &&& spec_mark_price(old(self).vamm) is Ok ==> {
                    let price = spec_mark_price(old(self).vamm)->Ok_0;
                    &&& pnl_defined(p, price)
                    &&& fits_i128(p.collateral + spec_pnl(p, price))
                    &&& fits_i128(p.collateral * MAINTENANCE_MARGIN_BPS)
                }
            },
        ensures
            final(self).wf(),
            match old(self).liquidate_error(position_id) {
                Some(e) => r == Err::<(), Error>(e) && *final(self) == *old(self),
                None => {
                    let p = old(self).spec_position(position_id).unwrap();
                    &&& r is Ok
                    &&& final(self).positions@ == old(self).positions@.update(
                        position_id - 1,
                        Position { status: PositionStatus::Liquidated, ..p },
                    )
                    &&& final(self).vamm == old(self).vamm
                    &&& final(self).funding == old(self).funding
                    &&& final(self).snapshots@ == old(self).snapshots@
                    &&& final(self).accumulator == old(self).accumulator
                    &&& final(self).admin == old(self).admin
                    &&& final(self).paused == old(self).paused
                },
            },
    {
        if self.paused {
            return Err(Error::ContractPaused);
        }
        if self.admin.is_none() {
            return Err(Error::NotInitialized);
        }
        if position_id == 0 || position_id > self.positions.len() as u64 {
            return Err(Error::PositionNotFound);
        }
        let idx = (position_id - 1) as usize;
        let mut pos = self.positions[idx];
        if pos.status != PositionStatus::Active {
            return Err(Error::PositionNotActive);
        }
        let current_price = Perpetuals::vamm_mark_price_from(&self.vamm)?;
        let pl = pnl(&pos, current_price);
        let remaining_margin = pos.collateral + pl;
        let maintenance_threshold = pos.collateral * MAINTENANCE_MARGIN_BPS / 10_000;
        if remaining_margin > maintenance_threshold {
            return Err(Error::InsufficientMargin);
        }
        pos.status = PositionStatus::Liquidated;
        self.positions.set(idx, pos);
        Ok(())
    }

    pub fn get_position(&self, position_id: u64) -> (r: Result<Position, Error>)
        ensures
            match self.spec_position(position_id) {
                Some(p) => r == Ok::<Position, Error>(p),
                None => r == Err::<Position, Error>(Error::PositionNotFound),
            },
    {
        if position_id == 0 || position_id > self.positions.len() as u64 {
            return Err(Error::PositionNotFound);
        }
        Ok(self.positions[(position_id - 1) as usize])
    }

    pub fn get_funding_rate(&self) -> (r: Result<FundingRate, Error>)
        ensures
            r == if self.initialized() {
                Ok::<FundingRate, Error>(self.funding)
            } else {
                Err(Error::NotInitialized)
            },
    {
        if self.admin.is_none() {
            return Err(Error::NotInitialized);
        }
        Ok(self.funding)
    }

    pub fn get_funding_accumulator(&self) -> (a: i64)
        ensures
            a == self.accumulator,
    {
        self.accumulator
    }

    pub fn get_vamm_config(&self) -> (r: Result<VammConfig, Error>)
        ensures
            r == if self.initialized() {
                Ok::<VammConfig, Error>(self.vamm)
            } else {
                Err(Error::NotInitialized)
            },
    {
        if self.admin.is_none() {
            return Err(Error::NotInitialized);
        }
        Ok(self.vamm)
    }

    pub fn position_count(&self) -> (n: u64)
        requires
            self.wf(),
        ensures
            n == self.positions@.len(),
    {
        self.positions.len() as u64
    }

    pub fn is_paused(&self) -> (b: bool)
        ensures
            b == self.paused,
    {
        self.paused
    }

    pub fn get_admin(&self) -> (r: Result<Address, Error>)
        ensures
            match self.admin {
                Some(a) => r == Ok::<Address, Error>(a),
                None => r == Err::<Address, Error>(Error::NotInitialized),
            },
    {
        match self.admin {
            Some(a) => Ok(a),
            None => Err(Error::NotInitialized),
        }
    }
}

/// A position settles at most once: once it is no longer active (closing
/// marks it `Closed`), every further close of it is refused, with
/// `PositionNotActive` for its trader on a running contract.
pub proof fn lemma_position_closes_once(s: Perpetuals, trader: Address, position_id: u64)
    requires
        s.spec_position(position_id) is Some,
        s.spec_position(position_id)->0.status != PositionStatus::Active,
    ensures
        s.close_position_error(trader, position_id) is Some,
        !s.paused && s.initialized() && s.spec_position(position_id)->0.trader == trader ==> s.close_position_error(
            trader,
            position_id,
        ) == Some(Error::PositionNotActive),
{
}

/// Funding moves opposite ways for the two sides: closing a position
/// settles its collateral plus its PnL, less the funding accrued since it
/// opened (`size * (acc - acc_at_open) / 10^10`, truncated) for a long and
/// plus that funding for a short.  So with the accumulator risen, a long
/// gets back no more than collateral plus PnL and a short no less, and a
/// long and a short of one size and opening accumulator differ in their
/// funding terms by exactly twice that amount.
pub proof fn lemma_close_funding_direction(s: Perpetuals, position_id: u64, exit_price: int)
    requires
        s.spec_position(position_id) is Some,
    ensures
        ({
            let p = s.spec_position(position_id)->0;
            let accrued = s.accumulator - s.snapshots@[position_id - 1];
            let owed = tdiv(p.size * accrued, 10_000_000_000);
            let funding_term = s.close_settlement(position_id, exit_price) - p.collateral - spec_pnl(p, exit_price);
            &&& p.is_long ==> funding_term == -owed
            &&& !p.is_long ==> funding_term == owed
            &&& p.size >= 0 && accrued >= 0 && p.is_long ==> funding_term <= 0
            &&& p.size >= 0 && accrued >= 0 && !p.is_long ==> funding_term >= 0
        }),
{
    let p = s.spec_position(position_id)->0;
    let accrued = s.accumulator - s.snapshots@[position_id - 1];
    if p.size >= 0 && accrued >= 0 {
        assert(p.size * accrued >= 0) by (nonlinear_arith)
            requires
                p.size >= 0,
                accrued >= 0,
        ;
    }
}

/// The funding terms of a long and a short of equal size opened at the same
/// accumulator are opposite: they differ by twice the funding owed.
pub proof fn lemma_close_funding_long_short(s: Perpetuals, long_id: u64, short_id: u64, exit_price: int)
    requires
        s.spec_position(long_id) is Some,
        s.spec_position(short_id) is Some,
        s.spec_position(long_id)->0.is_long,
        !s.spec_position(short_id)->0.is_long,
        s.spec_position(long_id)->0.size == s.spec_position(short_id)->0.size,
        s.snapshots@[long_id - 1] == s.snapshots@[short_id - 1],
    ensures
        ({
            let pl = s.spec_position(long_id)->0;
            let ps = s.spec_position(short_id)->0;
            let owed = tdiv(pl.size * (s.accumulator - s.snapshots@[long_id - 1]), 10_000_000_000);
            (s.close_settlement(short_id, exit_price) - ps.collateral - spec_pnl(ps, exit_price)) - (s.close_settlement(
                long_id,
                exit_price,
            ) - pl.collateral - spec_pnl(pl, exit_price)) == 2 * owed
        }),
{
    lemma_close_funding_direction(s, long_id, exit_price);
    lemma_close_funding_direction(s, short_id, exit_price);
}

} // verus!
