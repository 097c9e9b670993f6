//! Loan syndication: collateral-backed multi-lender term loans with a senior
//! and a junior tranche.  Senior lenders are paid first from repayments;
//! junior lenders receive the residual and so absorb defaults first.
use vstd::prelude::*;
use std::collections::HashMap;
use crate::common::{Address, fits_i128, min_int};

verus! {

broadcast use vstd::std_specs::hash::group_hash_axioms;

pub const BPS_DENOMINATOR: i128 = 10_000;
pub const MAX_YIELD_BPS: u32 = 10_000;
pub const MAX_GRACE_PERIOD: u64 = 90 * 24 * 60 * 60;

#[derive(Clone, Copy, Debug, PartialEq, Eq, Structural)]
pub enum Error {
    AlreadyInitialized,
    NotInitialized,
    Unauthorized,
    ContractPaused,
    InvalidAmount,
    InvalidTerms,
    InvalidTranche,
    InvalidLoanStatus,
    LoanNotFound,
    FundingClosed,
    TrancheCapacityExceeded,
    LoanNotFunded,
    LoanNotMatured,
    NothingToClaim,
    ArithmeticOverflow,
}

#[derive(Clone, Copy, Debug, PartialEq, Eq, Structural)]
pub enum LoanStatus {
    Funding,
    Active,
    Repaid,
    Defaulted,
    Cancelled,
}

#[derive(Clone, Copy, Debug, PartialEq, Eq, Structural)]
pub enum Tranche {
    Senior,
    Junior,
}

#[derive(Clone, Copy, Debug, PartialEq, Eq, Structural)]
pub enum TrancheType {
    Senior,
    Junior,
}

#[derive(Clone, Copy, Debug, PartialEq, Eq, Structural)]
pub struct Loan {
    pub id: u32,
    pub borrower: Address,
    pub asset: Address,
    pub status: LoanStatus,
    pub principal_target: i128,
    pub senior_target: i128,
    pub junior_target: i128,
    pub senior_funded: i128,
    pub junior_funded: i128,
    pub senior_yield_bps: u32,
    pub junior_yield_bps: u32,
    pub funding_deadline: u64,
    pub maturity: u64,
    pub grace_period: u64,
    pub repaid: i128,
    pub total_claimed: i128,
    pub created_at: u64,
}

#[derive(Clone, Copy, Debug, PartialEq, Eq, Structural)]
pub struct TranchePosition {
    pub loan_id: u32,
    pub lender: Address,
    pub tranche: Tranche,
    pub principal: i128,
    pub claimed: i128,
}

#[derive(Clone, Copy, Debug, PartialEq, Eq, Structural)]
pub struct TrancheSummary {
    pub tranche: Tranche,
    pub target: i128,
    pub funded: i128,
    pub yield_bps: u32,
    pub amount_due: i128,
    pub settlement_allocation: i128,
}

/// A token movement that the host performs after a successful call.
#[derive(Clone, Copy, Debug, PartialEq, Eq, Structural)]
pub struct Transfer {
    pub from: Address,
    pub to: Address,
    pub amount: i128,
}

// ── Arithmetic ──────────────────────────────────────────────────────────────

/// Greatest common divisor by Euclid's algorithm on non-negative integers.
pub open spec fn spec_gcd(a: int, b: int) -> int
    decreases b,
{
    if b <= 0 {
        a
    } else {
        spec_gcd(b, a % b)
    }
}

/// `d` divides `x`.
pub open spec fn divides(d: int, x: int) -> bool {
    d != 0 && x % d == 0
}

proof fn lemma_mod_linear(a: int, b: int, d: int)
    requires
        d > 0,
        b > 0,
        divides(d, b),
        divides(d, a % b),
        a >= 0,
    ensures
        divides(d, a),
{
    let q = a / b;
    let r = a % b;
    vstd::arithmetic::div_mod::lemma_fundamental_div_mod(a, b);
    let kb = b / d;
    let kr = r / d;
    vstd::arithmetic::div_mod::lemma_fundamental_div_mod(b, d);
    vstd::arithmetic::div_mod::lemma_fundamental_div_mod(r, d);
    assert(a == d * (q * kb + kr)) by (nonlinear_arith)
        requires
            a == b * q + r,
            b == d * kb,
            r == d * kr,
    ;
    vstd::arithmetic::div_mod::lemma_mod_multiples_basic(q * kb + kr, d);
    vstd::arithmetic::mul::lemma_mul_is_commutative(d, q * kb + kr);
}

/// The Euclidean gcd of non-negative numbers, not both zero, is positive and
/// divides both.
pub proof fn lemma_gcd_divides(a: int, b: int)
    requires
        a >= 0,
        b >= 0,
        a > 0 || b > 0,
    ensures
        spec_gcd(a, b) > 0,
        divides(spec_gcd(a, b), a),
        divides(spec_gcd(a, b), b),
    decreases b,
{
    if b == 0 {
        vstd::arithmetic::div_mod::lemma_mod_self_0(a);
        vstd::arithmetic::div_mod::lemma_small_mod(0, a as nat);
    } else {
        vstd::arithmetic::div_mod::lemma_mod_pos_bound(a, b);
        lemma_gcd_divides(b, a % b);
        let g = spec_gcd(a, b);
        assert(g == spec_gcd(b, a % b));
        lemma_mod_linear(a, b, g);
    }
}

/// Euclid's algorithm.
pub fn gcd(left: i128, right: i128) -> (g: i128)
    requires
        left >= 0,
        right >= 0,
    ensures
        g == spec_gcd(left as int, right as int),
{
    let mut l = left;
    let mut r = right;
    while r != 0
        invariant
            l >= 0,
            r >= 0,
            spec_gcd(l as int, r as int) == spec_gcd(left as int, right as int),
        decreases r,
    {
        let rem = l % r;
        proof {
            vstd::arithmetic::div_mod::lemma_mod_pos_bound(l as int, r as int);
        }
        l = r;
        r = rem;
    }
    l
}

/// What `mul_div_floor(left, right, denominator)` returns: the input
/// error, the overflow of the product after both cross-reductions by the
/// gcd, or `floor(left * right / denominator)`.
pub open spec fn spec_mul_div_floor(left: int, right: int, denominator: int) -> Result<int, Error> {
    if left < 0 || right < 0 || denominator <= 0 {
        Err(Error::InvalidAmount)
    } else {
        let g1 = spec_gcd(left, denominator);
        let g2 = spec_gcd(right, denominator / g1);
        if (left / g1) * (right / g2) > i128::MAX {
            Err(Error::ArithmeticOverflow)
        } else {
            Ok(left * right / denominator)
        }
    }
}

/// A `Result` of the contract equals a `Result` over mathematical integers.
pub open spec fn same_result(r: Result<i128, Error>, s: Result<int, Error>) -> bool {
    match r {
        Ok(v) => s == Ok::<int, Error>(v as int),
        Err(e) => s == Err::<int, Error>(e),
    }
}

proof fn lemma_cancel_common_factor(x: int, y: int, k: int)
    requires
        x >= 0,
        y > 0,
        k > 0,
    ensures
        (x * k) / (y * k) == x / y,
{
    vstd::arithmetic::mul::lemma_mul_nonnegative(x, k);
    vstd::arithmetic::div_mod::lemma_div_denominator(x * k, k, y);
    vstd::arithmetic::div_mod::lemma_div_by_multiple(x, k);
    vstd::arithmetic::mul::lemma_mul_is_commutative(k, y);
}

/// `floor(left * right / denominator)` computed after cancelling common
/// factors, so that only the reduced product has to fit in an `i128`.
pub fn mul_div_floor(left: i128, right: i128, denominator: i128) -> (r: Result<i128, Error>)
    ensures
        same_result(r, spec_mul_div_floor(left as int, right as int, denominator as int)),
{
    if left < 0 || right < 0 || denominator <= 0 {
        return Err(Error::InvalidAmount);
    }
    let first_gcd = gcd(left, denominator);
    proof {
        lemma_gcd_divides(left as int, denominator as int);
    }
    let reduced_left = left / first_gcd;
    let remaining_denominator = denominator / first_gcd;
    proof {
        vstd::arithmetic::div_mod::lemma_fundamental_div_mod(denominator as int, first_gcd as int);
        vstd::arithmetic::div_mod::lemma_fundamental_div_mod(left as int, first_gcd as int);
        assert(remaining_denominator > 0) by (nonlinear_arith)
            requires
                denominator == first_gcd * remaining_denominator,
                denominator > 0,
                first_gcd > 0,
        ;
    }
    let second_gcd = gcd(right, remaining_denominator);
    proof {
        lemma_gcd_divides(right as int, remaining_denominator as int);
        vstd::arithmetic::div_mod::lemma_fundamental_div_mod(right as int, second_gcd as int);
        vstd::arithmetic::div_mod::lemma_fundamental_div_mod(
            remaining_denominator as int,
            second_gcd as int,
        );
    }
    let reduced_right = right / second_gcd;
    let last_denominator = remaining_denominator / second_gcd;
    proof {
        assert(last_denominator > 0) by (nonlinear_arith)
            requires
                remaining_denominator == second_gcd * last_denominator,
                remaining_denominator > 0,
                second_gcd > 0,
        ;
        assert(reduced_left >= 0 && reduced_right >= 0) by (nonlinear_arith)
            requires
                left == first_gcd * reduced_left,
                right == second_gcd * reduced_right,
                left >= 0,
                right >= 0,
                first_gcd > 0,
                second_gcd > 0,
        ;
    }
    match reduced_left.checked_mul(reduced_right) {
        None => Err(Error::ArithmeticOverflow),
        Some(product) => {
            proof {
                let k = first_gcd * second_gcd;
                let a = reduced_left as int;
                let b = reduced_right as int;
                let g1 = first_gcd as int;
                let g2 = second_gcd as int;
                assert(k > 0) by (nonlinear_arith)
                    requires
                        k == g1 * g2,
                        g1 > 0,
                        g2 > 0,
                ;
                assert((g1 * a) * (g2 * b) == (a * b) * (g1 * g2)) by (nonlinear_arith);
                assert(g1 * (g2 * last_denominator) == last_denominator * (g1 * g2))
                    by (nonlinear_arith);
                assert(reduced_left * reduced_right >= 0) by (nonlinear_arith)
                    requires
                        reduced_left >= 0,
                        reduced_right >= 0,
                ;
                lemma_cancel_common_factor(reduced_left * reduced_right, last_denominator as int, k);
            }
            Ok(product / last_denominator)
        },
    }
}

// ── Pure helpers ────────────────────────────────────────────────────────────

pub fn validate_amount(amount: i128) -> (r: Result<(), Error>)
    ensures
        r == (if amount <= 0 {
            Err::<(), Error>(Error::InvalidAmount)
        } else {
            Ok(())
        }),
{
    if amount <= 0 {
        return Err(Error::InvalidAmount);
    }
    Ok(())
}

/// The loan terms that `create_loan` accepts at time `now`.
pub open spec fn terms_valid(
    now: u64,
    principal_target: i128,
    senior_target: i128,
    senior_yield_bps: u32,
    junior_yield_bps: u32,
    funding_deadline: u64,
    maturity: u64,
    grace_period: u64,
) -> bool {
    &&& principal_target > 0
    &&& senior_target > 0
    &&& senior_target < principal_target
    &&& senior_yield_bps <= MAX_YIELD_BPS
    &&& junior_yield_bps <= MAX_YIELD_BPS
    &&& junior_yield_bps >= senior_yield_bps
    &&& funding_deadline > now
    &&& maturity > funding_deadline
    &&& grace_period <= MAX_GRACE_PERIOD
}

pub fn validate_terms(
    now: u64,
    principal_target: i128,
    senior_target: i128,
    senior_yield_bps: u32,
    junior_yield_bps: u32,
    funding_deadline: u64,
    maturity: u64,
    grace_period: u64,
) -> (r: Result<(), Error>)
    ensures
        r is Ok <==> terms_valid(
            now,
            principal_target,
            senior_target,
            senior_yield_bps,
            junior_yield_bps,
            funding_deadline,
            maturity,
            grace_period,
        ),
        r is Err ==> r == Err::<(), Error>(Error::InvalidTerms),
{
    if principal_target <= 0 || senior_target <= 0 || senior_target >= principal_target
        || senior_yield_bps > MAX_YIELD_BPS || junior_yield_bps > MAX_YIELD_BPS
        || junior_yield_bps < senior_yield_bps || funding_deadline <= now || maturity
        <= funding_deadline || grace_period > MAX_GRACE_PERIOD {
        return Err(Error::InvalidTerms);
    }
    Ok(())
}

pub open spec fn spec_parse_tranche(value: u32) -> Result<Tranche, Error> {
    if value == 0 {
        Ok(Tranche::Senior)
    } else if value == 1 {
        Ok(Tranche::Junior)
    } else {
        Err(Error::InvalidTranche)
    }
}

pub fn parse_tranche(value: u32) -> (r: Result<Tranche, Error>)
    ensures
        r == spec_parse_tranche(value),
{
    match value {
        0 => Ok(Tranche::Senior),
        1 => Ok(Tranche::Junior),
        _ => Err(Error::InvalidTranche),
    }
}

/// (funded, target) of a tranche.
pub open spec fn spec_tranche_funding(loan: Loan, tranche: Tranche) -> (i128, i128) {
    match tranche {
        Tranche::Senior => (loan.senior_funded, loan.senior_target),
        Tranche::Junior => (loan.junior_funded, loan.junior_target),
    }
}

pub fn tranche_funding(loan: &Loan, tranche: Tranche) -> (r: (i128, i128))
    ensures
        r == spec_tranche_funding(*loan, tranche),
{
    match tranche {
        Tranche::Senior => (loan.senior_funded, loan.senior_target),
        Tranche::Junior => (loan.junior_funded, loan.junior_target),
    }
}

/// Principal plus the fixed yield on it: `principal + floor(principal * yield / 10000)`.
pub open spec fn spec_tranche_due(principal: int, yield_bps: int) -> Result<int, Error> {
    match spec_mul_div_floor(principal, yield_bps, BPS_DENOMINATOR as int) {
        Ok(interest) => if fits_i128(principal + interest) {
            Ok(principal + interest)
        } else {
            Err(Error::ArithmeticOverflow)
        },
        Err(e) => Err(e),
    }
}

pub fn tranche_due(principal: i128, yield_bps: u32) -> (r: Result<i128, Error>)
    ensures
        same_result(r, spec_tranche_due(principal as int, yield_bps as int)),
{
    let interest = mul_div_floor(principal, yield_bps as i128, BPS_DENOMINATOR)?;
    match principal.checked_add(interest) {
        Some(v) => Ok(v),
        None => Err(Error::ArithmeticOverflow),
    }
}

/// Sum of what both tranches are owed.
pub open spec fn spec_total_due(loan: Loan) -> Result<int, Error> {
    match spec_tranche_due(loan.senior_target as int, loan.senior_yield_bps as int) {
        Err(e) => Err(e),
        Ok(s) => match spec_tranche_due(loan.junior_target as int, loan.junior_yield_bps as int) {
            Err(e) => Err(e),
            Ok(j) => if fits_i128(s + j) {
                Ok(s + j)
            } else {
                Err(Error::ArithmeticOverflow)
            },
        },
    }
}

pub fn total_due(loan: &Loan) -> (r: Result<i128, Error>)
    ensures
        same_result(r, spec_total_due(*loan)),
{
    let s = tranche_due(loan.senior_target, loan.senior_yield_bps)?;
    let j = tranche_due(loan.junior_target, loan.junior_yield_bps)?;
    match s.checked_add(j) {
        Some(v) => Ok(v),
        None => Err(Error::ArithmeticOverflow),
    }
}

/// The repayment waterfall: the senior tranche receives repayments up to
/// what it is due; the junior tranche receives the residual up to its due.
pub open spec fn spec_tranche_allocation(loan: Loan, tranche: Tranche) -> Result<int, Error> {
    match spec_tranche_due(loan.senior_target as int, loan.senior_yield_bps as int) {
        Err(e) => Err(e),
        Ok(senior_due) => match tranche {
            Tranche::Senior => Ok(min_int(loan.repaid as int, senior_due)),
            Tranche::Junior => {
                let residual = if loan.repaid > senior_due {
                    loan.repaid - senior_due
                } else {
                    0
                };
                match spec_tranche_due(loan.junior_target as int, loan.junior_yield_bps as int) {
                    Err(e) => Err(e),
                    Ok(junior_due) => Ok(min_int(residual, junior_due)),
                }
            },
        },
    }
}

/// The repayment waterfall: the two tranches' allocations together are
/// what was repaid, up to what both are owed, and the junior tranche
/// receives nothing until the senior tranche is owed nothing more.
pub proof fn lemma_waterfall(loan: Loan)
    requires
        loan.repaid >= 0,
        spec_tranche_due(loan.senior_target as int, loan.senior_yield_bps as int) is Ok,
        spec_tranche_due(loan.junior_target as int, loan.junior_yield_bps as int) is Ok,
    ensures
        ({
            let s = spec_tranche_allocation(loan, Tranche::Senior)->Ok_0;
            let j = spec_tranche_allocation(loan, Tranche::Junior)->Ok_0;
            let sd = spec_tranche_due(loan.senior_target as int, loan.senior_yield_bps as int)->Ok_0;
            let jd = spec_tranche_due(loan.junior_target as int, loan.junior_yield_bps as int)->Ok_0;
            &&& spec_tranche_allocation(loan, Tranche::Senior) is Ok
            &&& spec_tranche_allocation(loan, Tranche::Junior) is Ok
            &&& s + j == min_int(loan.repaid as int, sd + jd)
            &&& s < sd ==> j == 0
        }),
{
}

pub fn tranche_allocation(loan: &Loan, tranche: Tranche) -> (r: Result<i128, Error>)
    ensures
        same_result(r, spec_tranche_allocation(*loan, tranche)),
{
    let senior_due = tranche_due(loan.senior_target, loan.senior_yield_bps)?;
    match tranche {
        Tranche::Senior => Ok(if loan.repaid <= senior_due {
            loan.repaid
        } else {
            senior_due
        }),
        Tranche::Junior => {
            let residual = if loan.repaid > senior_due {
                match loan.repaid.checked_sub(senior_due) {
                    Some(v) => v,
                    None => return Err(Error::ArithmeticOverflow),
                }
            } else {
                0
            };
            let junior_due = tranche_due(loan.junior_target, loan.junior_yield_bps)?;
            Ok(if residual <= junior_due {
                residual
            } else {
                junior_due
            })
        },
    }
}

/// What a lender may still claim: its pro-rata share of its tranche's
/// allocation, less what it already claimed.
pub open spec fn spec_position_claim(loan: Loan, position: TranchePosition) -> Result<int, Error> {
    if position.principal <= 0 {
        Ok(0)
    } else {
        let funded = spec_tranche_funding(loan, position.tranche).0;
        if funded <= 0 {
            Ok(0)
        } else {
            match spec_tranche_allocation(loan, position.tranche) {
                Err(e) => Err(e),
                Ok(alloc) => match spec_mul_div_floor(alloc, position.principal as int, funded as int) {
                    Err(e) => Err(e),
                    Ok(ent) => if fits_i128(ent - position.claimed) {
                        Ok(ent - position.claimed)
                    } else {
                        Err(Error::ArithmeticOverflow)
                    },
                },
            }
        }
    }
}

pub fn position_claim(loan: &Loan, position: &TranchePosition) -> (r: Result<i128, Error>)
    ensures
        same_result(r, spec_position_claim(*loan, *position)),
{
    if position.principal <= 0 {
        return Ok(0);
    }
    let tranche_funded = match position.tranche {
        Tranche::Senior => loan.senior_funded,
        Tranche::Junior => loan.junior_funded,
    };
    if tranche_funded <= 0 {
        return Ok(0);
    }
    let alloc = tranche_allocation(loan, position.tranche)?;
    let entitlement = mul_div_floor(alloc, position.principal, tranche_funded)?;
    match entitlement.checked_sub(position.claimed) {
        Some(v) => Ok(v),
        None => Err(Error::ArithmeticOverflow),
    }
}

// ── Contract state ──────────────────────────────────────────────────────────

/// Storage key of a lender's position in one tranche of one loan.
pub open spec fn spec_position_key(loan_id: u32, lender: Address, tranche: Tranche) -> u128 {
    (loan_id as int * 0x2_0000_0000_0000_0000 + lender as int * 2 + match tranche {
        Tranche::Senior => 0int,
        Tranche::Junior => 1int,
    }) as u128
}

pub fn position_key(loan_id: u32, lender: Address, tranche: Tranche) -> (k: u128)
    ensures
        k == spec_position_key(loan_id, lender, tranche),
{
    let t: u128 = match tranche {
        Tranche::Senior => 0,
        Tranche::Junior => 1,
    };
    (loan_id as u128) * 0x2_0000_0000_0000_0000 + (lender as u128) * 2 + t
}

/// The position a lender holds before it first funds: nothing.
pub open spec fn empty_position(loan_id: u32, lender: Address, tranche: Tranche) -> TranchePosition {
    TranchePosition { loan_id, lender, tranche, principal: 0, claimed: 0 }
}

/// The persistent storage of the loan-syndication contract.
pub struct LoanSyndication {
    pub admin: Option<Address>,
    pub paused: bool,
    /// Loan `id` is stored at index `id - 1`.
    pub loans: Vec<Loan>,
    pub positions: HashMap<u128, TranchePosition>,
}

impl LoanSyndication {
    /// Loans are numbered from 1 in creation order.
    pub open spec fn wf(&self) -> bool {
        &&& self.loans@.len() <= u32::MAX
        &&& forall|i: int| 0 <= i < self.loans@.len() ==> #[trigger] self.loans@[i].id == i + 1
    }

    pub open spec fn spec_loan(&self, id: u32) -> Option<Loan> {
        if 1 <= id <= self.loans@.len() {
            Some(self.loans@[id - 1])
        } else {
            None
        }
    }

    pub open spec fn spec_position(&self, loan_id: u32, lender: Address, tranche: Tranche) -> TranchePosition {
        let k = spec_position_key(loan_id, lender, tranche);
        if self.positions@.contains_key(k) {
            self.positions@[k]
        } else {
            empty_position(loan_id, lender, tranche)
        }
    }

    pub open spec fn initialized(&self) -> bool {
        self.admin is Some
    }

    /// Empty storage.
    pub fn new() -> (s: Self)
        ensures
            s.wf(),
            s.admin is None,
            !s.paused,
            s.loans@.len() == 0,
            s.positions@ == Map::<u128, TranchePosition>::empty(),
    {
        LoanSyndication { admin: None, paused: false, loans: Vec::new(), positions: HashMap::new() }
    }

    fn load_loan(&self, loan_id: u32) -> (r: Result<Loan, Error>)
        ensures
            match self.spec_loan(loan_id) {
                Some(l) => r == Ok::<Loan, Error>(l),
                None => r == Err::<Loan, Error>(Error::LoanNotFound),
            },
    {
        if loan_id == 0 || loan_id as usize > self.loans.len() {
            return Err(Error::LoanNotFound);
        }
        Ok(self.loans[loan_id as usize - 1])
    }

    fn store_loan(&mut self, loan: Loan)
        requires
            old(self).wf(),
            old(self).spec_loan(loan.id) is Some,
        ensures
            final(self).wf(),
            final(self).loans@ == old(self).loans@.update(loan.id - 1, loan),
            final(self).positions@ == old(self).positions@,
            final(self).admin == old(self).admin,
            final(self).paused == old(self).paused,
    {
        let idx = loan.id as usize - 1;
        self.loans.set(idx, loan);
    }

    fn load_position(&self, loan_id: u32, lender: Address, tranche: Tranche) -> (p: TranchePosition)
        ensures
            p == self.spec_position(loan_id, lender, tranche),
    {
        let k = position_key(loan_id, lender, tranche);
        match self.positions.get(&k) {
            Some(p) => *p,
            None => TranchePosition { loan_id, lender, tranche, principal: 0, claimed: 0 },
        }
    }

    fn store_position(&mut self, loan_id: u32, lender: Address, tranche: Tranche, p: TranchePosition)
        ensures
            final(self).positions@ == old(self).positions@.insert(
                spec_position_key(loan_id, lender, tranche),
                p,
            ),
            final(self).loans@ == old(self).loans@,
            final(self).admin == old(self).admin,
            final(self).paused == old(self).paused,
    {
        let k = position_key(loan_id, lender, tranche);
        self.positions.insert(k, p);
    }

    /// Set the admin once.
    pub fn initialize(&mut self, admin: Address) -> (r: Result<(), Error>)
        ensures
            old(self).initialized() ==> r == Err::<(), Error>(Error::AlreadyInitialized)
                && *final(self) == *old(self),
            !old(self).initialized() ==> r is Ok && final(self).admin == Some(admin)
                && final(self).paused == old(self).paused && final(self).loans@ == old(self).loans@
                && final(self).positions@ == old(self).positions@,
    {
        if self.admin.is_some() {
            return Err(Error::AlreadyInitialized);
        }
        self.admin = Some(admin);
        Ok(())
    }

    /// Stop new risk (loan creation, funding, drawdown); the admin signs.
    pub fn pause(&mut self) -> (r: Result<(), Error>)
        ensures
            !old(self).initialized() ==> r == Err::<(), Error>(Error::NotInitialized)
                && *final(self) == *old(self),
            old(self).initialized() ==> r is Ok && final(self).paused
                && final(self).admin == old(self).admin && final(self).loans@ == old(self).loans@
                && final(self).positions@ == old(self).positions@,
    {
        if self.admin.is_none() {
            return Err(Error::NotInitialized);
        }
        self.paused = true;
        Ok(())
    }

    /// Resume; the admin signs.
    pub fn unpause(&mut self) -> (r: Result<(), Error>)
        ensures
            !old(self).initialized() ==> r == Err::<(), Error>(Error::NotInitialized)
                && *final(self) == *old(self),
            old(self).initialized() ==> r is Ok && !final(self).paused
                && final(self).admin == old(self).admin && final(self).loans@ == old(self).loans@
                && final(self).positions@ == old(self).positions@,
    {
        if self.admin.is_none() {
            return Err(Error::NotInitialized);
        }
        self.paused = false;
        Ok(())
    }

    /// Why `create_loan` fails, if it does.
    pub open spec fn create_loan_error(
        &self,
        now: u64,
        principal_target: i128,
        senior_target: i128,
        senior_yield_bps: u32,
        junior_yield_bps: u32,
        funding_deadline: u64,
        maturity: u64,
        grace_period: u64,
    ) -> Option<Error> {
        if !self.initialized() {
            Some(Error::NotInitialized)
        } else if self.paused {
            Some(Error::ContractPaused)
        } else if !terms_valid(now, principal_target, senior_target, senior_yield_bps,
            junior_yield_bps, funding_deadline, maturity, grace_period) {
            Some(Error::InvalidTerms)
        } else if self.loans@.len() >= u32::MAX {
            Some(Error::ArithmeticOverflow)
        } else {
            None
        }
    }

    /// Create a fixed-term loan in the `Funding` state; the borrower signs.
    /// `senior_target` is below `principal_target`; the difference is the
    /// junior first-loss tranche.
    pub fn create_loan(
        &mut self,
        now: u64,
        borrower: Address,
        asset: Address,
        principal_target: i128,
        senior_target: i128,
        senior_yield_bps: u32,
        junior_yield_bps: u32,
        funding_deadline: u64,
        maturity: u64,
        grace_period: u64,
    ) -> (r: Result<u32, Error>)
        requires
            old(self).wf(),
        ensures
            final(self).wf(),
            match old(self).create_loan_error(now, principal_target, senior_target,
                senior_yield_bps, junior_yield_bps, funding_deadline, maturity, grace_period) {
                Some(e) => r == Err::<u32, Error>(e) && *final(self) == *old(self),
                None => r == Ok::<u32, Error>((old(self).loans@.len() + 1) as u32)
                    && final(self).loans@ == old(self).loans@.push(
                    Loan {
                        id: (old(self).loans@.len() + 1) as u32,
                        borrower,
                        asset,
                        status: LoanStatus::Funding,
                        principal_target,
                        senior_target,
                        junior_target: (principal_target - senior_target) as i128,
                        senior_funded: 0,
                        junior_funded: 0,
                        senior_yield_bps,
                        junior_yield_bps,
                        funding_deadline,
                        maturity,
                        grace_period,
                        repaid: 0,
                        total_claimed: 0,
                        created_at: now,
                    },
                ) && final(self).positions@ == old(self).positions@
                    && final(self).admin == old(self).admin && final(self).paused == old(self).paused,
            },
    {
        if self.admin.is_none() {
            return Err(Error::NotInitialized);
        }
        if self.paused {
            return Err(Error::ContractPaused);
        }
        validate_terms(
            now,
            principal_target,
            senior_target,
            senior_yield_bps,
            junior_yield_bps,
            funding_deadline,
            maturity,
            grace_period,
        )?;
        let junior_target = principal_target - senior_target;
        if self.loans.len() >= u32::MAX as usize {
            return Err(Error::ArithmeticOverflow);
        }
        let id = self.loans.len() as u32 + 1;
        let loan = Loan {
            id,
            borrower,
            asset,
            status: LoanStatus::Funding,
            principal_target,
            senior_target,
            junior_target,
            senior_funded: 0,
            junior_funded: 0,
            senior_yield_bps,
            junior_yield_bps,
            funding_deadline,
            maturity,
            grace_period,
            repaid: 0,
            total_claimed: 0,
            created_at: now,
        };
        self.loans.push(loan);
        Ok(id)
    }

    /// Why `fund` fails, if it does.
    pub open spec fn fund_error(
        &self,
        now: u64,
        lender: Address,
        loan_id: u32,
        tranche: u32,
        amount: i128,
    ) -> Option<Error> {
        if !self.initialized() {
            Some(Error::NotInitialized)
        } else if self.paused {
            Some(Error::ContractPaused)
        } else if amount <= 0 {
            Some(Error::InvalidAmount)
        } else if tranche > 1 {
            Some(Error::InvalidTranche)
        } else if self.spec_loan(loan_id) is None {
            Some(Error::LoanNotFound)
        } else {
            let loan = self.spec_loan(loan_id).unwrap();
            let t = spec_parse_tranche(tranche).unwrap();
            let (funded, target) = spec_tranche_funding(loan, t);
            if loan.status != LoanStatus::Funding {
                Some(Error::InvalidLoanStatus)
            } else if now >= loan.funding_deadline {
                Some(Error::FundingClosed)
            } else if !fits_i128(funded + amount) {
                Some(Error::ArithmeticOverflow)
            } else if funded + amount > target {
                Some(Error::TrancheCapacityExceeded)
            } else if !fits_i128(self.spec_position(loan_id, lender, t).principal + amount) {
                Some(Error::ArithmeticOverflow)
            } else {
                None
            }
        }
    }

    /// Lend `amount` into the senior (`0`) or junior (`1`) tranche; the
    /// lender signs and the host moves `amount` from the lender to the
    /// contract.
    pub fn fund(&mut self, now: u64, lender: Address, loan_id: u32, tranche: u32, amount: i128) -> (r: Result<(), Error>)
        requires
            old(self).wf(),
        ensures
            final(self).wf(),
            match old(self).fund_error(now, lender, loan_id, tranche, amount) {
                Some(e) => r == Err::<(), Error>(e) && *final(self) == *old(self),
                None => {
                    let loan = old(self).spec_loan(loan_id).unwrap();
                    let t = spec_parse_tranche(tranche).unwrap();
                    let p = old(self).spec_position(loan_id, lender, t);
                    &&& r is Ok
                    &&& final(self).loans@ == old(self).loans@.update(
                        loan_id - 1,
                        match t {
                            Tranche::Senior => Loan { senior_funded: (loan.senior_funded + amount) as i128, ..loan },
                            Tranche::Junior => Loan { junior_funded: (loan.junior_funded + amount) as i128, ..loan },
                        },
                    )
                    &&& final(self).positions@ == old(self).positions@.insert(
                        spec_position_key(loan_id, lender, t),
                        TranchePosition { principal: (p.principal + amount) as i128, ..p },
                    )
                    &&& final(self).admin == old(self).admin
                    &&& final(self).paused == old(self).paused
                },
            },
    {
        if self.admin.is_none() {
            return Err(Error::NotInitialized);
        }
        if self.paused {
            return Err(Error::ContractPaused);
        }
        validate_amount(amount)?;
        let t = parse_tranche(tranche)?;
        let mut loan = self.load_loan(loan_id)?;
        if loan.status != LoanStatus::Funding {
            return Err(Error::InvalidLoanStatus);
        }
        if now >= loan.funding_deadline {
            return Err(Error::FundingClosed);
        }
        let (funded, target) = tranche_funding(&loan, t);
        let new_funded = match funded.checked_add(amount) {
            Some(v) => v,
            None => return Err(Error::ArithmeticOverflow),
        };
        if new_funded > target {
            return Err(Error::TrancheCapacityExceeded);
        }
        let mut position = self.load_position(loan_id, lender, t);
        position.principal = match position.principal.checked_add(amount) {
            Some(v) => v,
            None => return Err(Error::ArithmeticOverflow),
        };
        match t {
            Tranche::Senior => loan.senior_funded = new_funded,
            Tranche::Junior => loan.junior_funded = new_funded,
        }
        self.store_loan(loan);
        self.store_position(loan_id, lender, t, position);
        Ok(())
    }

    /// Why `drawdown` fails, if it does.
    pub open spec fn drawdown_error(&self, now: u64, loan_id: u32) -> Option<Error> {
        if !self.initialized() {
            Some(Error::NotInitialized)
        } else if self.paused {
            Some(Error::ContractPaused)
        } else if self.spec_loan(loan_id) is None {
            Some(Error::LoanNotFound)
        } else {
            let loan = self.spec_loan(loan_id).unwrap();
            if loan.status != LoanStatus::Funding {
                Some(Error::InvalidLoanStatus)
            } else if loan.senior_funded != loan.senior_target || loan.junior_funded != loan.junior_target {
                Some(Error::LoanNotFunded)
            } else if now >= loan.maturity {
                Some(Error::InvalidLoanStatus)
            } else {
                None
            }
        }
    }

    /// The borrower draws the principal once both tranches are exactly
    /// funded; the host moves `principal_target` to the borrower.
    pub fn drawdown(&mut self, now: u64, loan_id: u32) -> (r: Result<Transfer, Error>)
        requires
            old(self).wf(),
        ensures
            final(self).wf(),
            match old(self).drawdown_error(now, loan_id) {
                Some(e) => r == Err::<Transfer, Error>(e) && *final(self) == *old(self),
                None => {
                    let loan = old(self).spec_loan(loan_id).unwrap();
                    &&& r == Ok::<Transfer, Error>(Transfer { from: 0, to: loan.borrower, amount: loan.principal_target })
                    &&& final(self).loans@ == old(self).loans@.update(loan_id - 1, Loan { status: LoanStatus::Active, ..loan })
                    &&& final(self).positions@ == old(self).positions@
                    &&& final(self).admin == old(self).admin
                    &&& final(self).paused == old(self).paused
                },
            },
    {
        if self.admin.is_none() {
            return Err(Error::NotInitialized);
        }
        if self.paused {
            return Err(Error::ContractPaused);
        }
        let mut loan = self.load_loan(loan_id)?;
        if loan.status != LoanStatus::Funding {
            return Err(Error::InvalidLoanStatus);
        }
        if loan.senior_funded != loan.senior_target || loan.junior_funded != loan.junior_target {
            return Err(Error::LoanNotFunded);
        }
        if now >= loan.maturity {
            return Err(Error::InvalidLoanStatus);
        }
        loan.status = LoanStatus::Active;
        self.store_loan(loan);
        Ok(Transfer { from: 0, to: loan.borrower, amount: loan.principal_target })
    }

    /// Why `repay` fails, if it does.
    pub open spec fn repay_error(&self, loan_id: u32, amount: i128) -> Option<Error> {
        if !self.initialized() {
            Some(Error::NotInitialized)
        } else if amount <= 0 {
            Some(Error::InvalidAmount)
        } else if self.spec_loan(loan_id) is None {
            Some(Error::LoanNotFound)
        } else {
            let loan = self.spec_loan(loan_id).unwrap();
            if loan.status != LoanStatus::Active {
                Some(Error::InvalidLoanStatus)
            } else {
                match spec_total_due(loan) {
                    Err(e) => Some(e),
                    Ok(due) => if !fits_i128(due - loan.repaid) {
                        Some(Error::ArithmeticOverflow)
                    } else if min_int(amount as int, due - loan.repaid) <= 0 {
                        Some(Error::InvalidAmount)
                    } else {
                        None
                    },
                }
            }
        }
    }

    /// Service the loan: any payer may repay; the amount taken is capped at
    /// what is still outstanding, and the loan becomes `Repaid` when the
    /// total due is reached.  Returns the amount taken from the payer.
    pub fn repay(&mut self, payer: Address, loan_id: u32, amount: i128) -> (r: Result<i128, Error>)
        requires
            old(self).wf(),
        ensures
            final(self).wf(),
            match old(self).repay_error(loan_id, amount) {
                Some(e) => r == Err::<i128, Error>(e) && *final(self) == *old(self),
                None => {
                    let loan = old(self).spec_loan(loan_id).unwrap();
                    let due = spec_total_due(loan)->Ok_0;
                    let actual = min_int(amount as int, due - loan.repaid);
                    let repaid = loan.repaid + actual;
                    &&& r == Ok::<i128, Error>(actual as i128)
                    &&& final(self).loans@ == old(self).loans@.update(
                        loan_id - 1,
                        Loan {
                            repaid: repaid as i128,
                            status: if repaid == due { LoanStatus::Repaid } else { LoanStatus::Active },
                            ..loan
                        },
                    )
                    &&& final(self).positions@ == old(self).positions@
                    &&& final(self).admin == old(self).admin
                    &&& final(self).paused == old(self).paused
                },
            },
    {
        if self.admin.is_none() {
            return Err(Error::NotInitialized);
        }
        validate_amount(amount)?;
        let mut loan = self.load_loan(loan_id)?;
        if loan.status != LoanStatus::Active {
            return Err(Error::InvalidLoanStatus);
        }
        let total = total_due(&loan)?;
        let outstanding = match total.checked_sub(loan.repaid) {
            Some(v) => v,
            None => return Err(Error::ArithmeticOverflow),
        };
        let actual = if amount <= outstanding {
            amount
        } else {
            outstanding
        };
        if actual <= 0 {
            return Err(Error::InvalidAmount);
        }
        loan.repaid = loan.repaid + actual;
        if loan.repaid == total {
            loan.status = LoanStatus::Repaid;
        }
        self.store_loan(loan);
        Ok(actual)
    }

    /// Why `mark_default` fails, if it does.
    pub open spec fn mark_default_error(&self, now: u64, loan_id: u32) -> Option<Error> {
        if !self.initialized() {
            Some(Error::NotInitialized)
        } else if self.spec_loan(loan_id) is None {
            Some(Error::LoanNotFound)
        } else {
            let loan = self.spec_loan(loan_id).unwrap();
            if loan.status != LoanStatus::Active {
                Some(Error::InvalidLoanStatus)
            } else if loan.maturity + loan.grace_period > u64::MAX {
                Some(Error::ArithmeticOverflow)
            } else if now < loan.maturity + loan.grace_period {
                Some(Error::LoanNotMatured)
            } else {
                None
            }
        }
    }

    /// Anyone may mark an active loan defaulted once maturity plus the grace
    /// period has passed.
    pub fn mark_default(&mut self, now: u64, loan_id: u32) -> (r: Result<(), Error>)
        requires
            old(self).wf(),
        ensures
            final(self).wf(),
            match old(self).mark_default_error(now, loan_id) {
                Some(e) => r == Err::<(), Error>(e) && *final(self) == *old(self),
                None => {
                    let loan = old(self).spec_loan(loan_id).unwrap();
                    &&& r is Ok
                    &&& final(self).loans@ == old(self).loans@.update(loan_id - 1, Loan { status: LoanStatus::Defaulted, ..loan })
                    &&& final(self).positions@ == old(self).positions@
                    &&& final(self).admin == old(self).admin
                    &&& final(self).paused == old(self).paused
                },
            },
    {
        if self.admin.is_none() {
            return Err(Error::NotInitialized);
        }
        let mut loan = self.load_loan(loan_id)?;
        if loan.status != LoanStatus::Active {
            return Err(Error::InvalidLoanStatus);
        }
        let default_time = match loan.maturity.checked_add(loan.grace_period) {
            Some(v) => v,
            None => return Err(Error::ArithmeticOverflow),
        };
        if now < default_time {
            return Err(Error::LoanNotMatured);
        }
        loan.status = LoanStatus::Defaulted;
        self.store_loan(loan);
        Ok(())
    }

    /// Why `cancel_loan` fails, if it does.
    pub open spec fn cancel_loan_error(&self, caller: Address, loan_id: u32) -> Option<Error> {
        if !self.initialized() {
            Some(Error::NotInitialized)
        } else if self.spec_loan(loan_id) is None {
            Some(Error::LoanNotFound)
        } else {
            let loan = self.spec_loan(loan_id).unwrap();
            if caller != loan.borrower && Some(caller) != self.admin {
                Some(Error::Unauthorized)
            } else if loan.status != LoanStatus::Funding {
                Some(Error::InvalidLoanStatus)
            } else {
                None
            }
        }
    }

    /// The borrower or the admin cancels a loan before drawdown.
    pub fn cancel_loan(&mut self, caller: Address, loan_id: u32) -> (r: Result<(), Error>)
        requires
            old(self).wf(),
        ensures
            final(self).wf(),
            match old(self).cancel_loan_error(caller, loan_id) {
                Some(e) => r == Err::<(), Error>(e) && *final(self) == *old(self),
                None => {
                    let loan = old(self).spec_loan(loan_id).unwrap();
                    &&& r is Ok
                    &&& final(self).loans@ == old(self).loans@.update(loan_id - 1, Loan { status: LoanStatus::Cancelled, ..loan })
                    &&& final(self).positions@ == old(self).positions@
                    &&& final(self).admin == old(self).admin
                    &&& final(self).paused == old(self).paused
                },
            },
    {
        let admin = match self.admin {
            Some(a) => a,
            None => return Err(Error::NotInitialized),
        };
        let mut loan = self.load_loan(loan_id)?;
        if caller != loan.borrower && caller != admin {
            return Err(Error::Unauthorized);
        }
        if loan.status != LoanStatus::Funding {
            return Err(Error::InvalidLoanStatus);
        }
        loan.status = LoanStatus::Cancelled;
        self.store_loan(loan);
        Ok(())
    }

    /// Why `expire_loan` fails, if it does.
    pub open spec fn expire_loan_error(&self, now: u64, loan_id: u32) -> Option<Error> {
        if !self.initialized() {
            Some(Error::NotInitialized)
        } else if self.spec_loan(loan_id) is None {
            Some(Error::LoanNotFound)
        } else {
            let loan = self.spec_loan(loan_id).unwrap();
            if loan.status != LoanStatus::Funding {
                Some(Error::InvalidLoanStatus)
            } else if now < loan.funding_deadline {
                Some(Error::FundingClosed)
            } else {
                None
            }
        }
    }

    /// Anyone may cancel a loan that was not drawn by its funding deadline.
    pub fn expire_loan(&mut self, now: u64, loan_id: u32) -> (r: Result<(), Error>)
        requires
            old(self).wf(),
        ensures
            final(self).wf(),
            match old(self).expire_loan_error(now, loan_id) {
                Some(e) => r == Err::<(), Error>(e) && *final(self) == *old(self),
                None => {
                    let loan = old(self).spec_loan(loan_id).unwrap();
                    &&& r is Ok
                    &&& final(self).loans@ == old(self).loans@.update(loan_id - 1, Loan { status: LoanStatus::Cancelled, ..loan })
                    &&& final(self).positions@ == old(self).positions@
                    &&& final(self).admin == old(self).admin
                    &&& final(self).paused == old(self).paused
                },
            },
    {
        if self.admin.is_none() {
            return Err(Error::NotInitialized);
        }
        let mut loan = self.load_loan(loan_id)?;
        if loan.status != LoanStatus::Funding {
            return Err(Error::InvalidLoanStatus);
        }
        if now < loan.funding_deadline {
            return Err(Error::FundingClosed);
        }
        loan.status = LoanStatus::Cancelled;
        self.store_loan(loan);
        Ok(())
    }

    /// Why `claim_refund` fails, if it does.
    pub open spec fn claim_refund_error(&self, lender: Address, loan_id: u32, tranche: u32) -> Option<Error> {
        if !self.initialized() {
            Some(Error::NotInitialized)
        } else if tranche > 1 {
            Some(Error::InvalidTranche)
        } else if self.spec_loan(loan_id) is None {
            Some(Error::LoanNotFound)
        } else {
            let loan = self.spec_loan(loan_id).unwrap();
            let p = self.spec_position(loan_id, lender, spec_parse_tranche(tranche).unwrap());
            if loan.status != LoanStatus::Cancelled {
                Some(Error::InvalidLoanStatus)
            } else if !fits_i128(p.principal - p.claimed) {
                Some(Error::ArithmeticOverflow)
            } else if p.principal - p.claimed <= 0 {
                Some(Error::NothingToClaim)
            } else if !fits_i128(loan.total_claimed + (p.principal - p.claimed)) {
                Some(Error::ArithmeticOverflow)
            } else {
                None
            }
        }
    }

    /// After cancellation a lender takes back the principal it has not yet
    /// withdrawn; returns the refund, which the host pays to the lender.
    pub fn claim_refund(&mut self, lender: Address, loan_id: u32, tranche: u32) -> (r: Result<i128, Error>)
        requires
            old(self).wf(),
        ensures
            final(self).wf(),
            match old(self).claim_refund_error(lender, loan_id, tranche) {
                Some(e) => r == Err::<i128, Error>(e) && *final(self) == *old(self),
                None => {
                    let loan = old(self).spec_loan(loan_id).unwrap();
                    let t = spec_parse_tranche(tranche).unwrap();
                    let p = old(self).spec_position(loan_id, lender, t);
                    let refund = p.principal - p.claimed;
                    &&& r == Ok::<i128, Error>(refund as i128)
                    &&& final(self).loans@ == old(self).loans@.update(
                        loan_id - 1,
                        Loan { total_claimed: (loan.total_claimed + refund) as i128, ..loan },
                    )
                    &&& final(self).positions@ == old(self).positions@.insert(
                        spec_position_key(loan_id, lender, t),
                        TranchePosition { claimed: p.principal, ..p },
                    )
                    &&& final(self).admin == old(self).admin
                    &&& final(self).paused == old(self).paused
                },
            },
    {
        if self.admin.is_none() {
            return Err(Error::NotInitialized);
        }
        let t = parse_tranche(tranche)?;
        let mut loan = self.load_loan(loan_id)?;
        if loan.status != LoanStatus::Cancelled {
            return Err(Error::InvalidLoanStatus);
        }
        let mut position = self.load_position(loan_id, lender, t);
        let refund = match position.principal.checked_sub(position.claimed) {
            Some(v) => v,
            None => return Err(Error::ArithmeticOverflow),
        };
        if refund <= 0 {
            return Err(Error::NothingToClaim);
        }
        position.claimed = position.principal;
        loan.total_claimed = match loan.total_claimed.checked_add(refund) {
            Some(v) => v,
            None => return Err(Error::ArithmeticOverflow),
        };
        self.store_position(loan_id, lender, t, position);
        self.store_loan(loan);
        Ok(refund)
    }

    /// Why `claim` fails, if it does.
    pub open spec fn claim_error(&self, lender: Address, loan_id: u32, tranche: u32) -> Option<Error> {
        if !self.initialized() {
            Some(Error::NotInitialized)
        } else if tranche > 1 {
            Some(Error::InvalidTranche)
        } else if self.spec_loan(loan_id) is None {
            Some(Error::LoanNotFound)
        } else {
            let loan = self.spec_loan(loan_id).unwrap();
            let p = self.spec_position(loan_id, lender, spec_parse_tranche(tranche).unwrap());
            if loan.status != LoanStatus::Repaid && loan.status != LoanStatus::Defaulted {
                Some(Error::InvalidLoanStatus)
            } else {
                match spec_position_claim(loan, p) {
                    Err(e) => Some(e),
                    Ok(amount) => if amount <= 0 {
                        Some(Error::NothingToClaim)
                    } else if !fits_i128(p.claimed + amount) || !fits_i128(loan.total_claimed + amount) {
                        Some(Error::ArithmeticOverflow)
                    } else {
                        None
                    },
                }
            }
        }
    }

    /// After repayment or default a lender claims its pro-rata share of its
    /// tranche's waterfall allocation; returns the amount paid out.
    pub fn claim(&mut self, lender: Address, loan_id: u32, tranche: u32) -> (r: Result<i128, Error>)
        requires
            old(self).wf(),
        ensures
            final(self).wf(),
            match old(self).claim_error(lender, loan_id, tranche) {
                Some(e) => r == Err::<i128, Error>(e) && *final(self) == *old(self),
                None => {
                    let loan = old(self).spec_loan(loan_id).unwrap();
                    let t = spec_parse_tranche(tranche).unwrap();
                    let p = old(self).spec_position(loan_id, lender, t);
                    let amount = spec_position_claim(loan, p)->Ok_0;
                    &&& r == Ok::<i128, Error>(amount as i128)
                    &&& final(self).loans@ == old(self).loans@.update(
                        loan_id - 1,
                        Loan { total_claimed: (loan.total_claimed + amount) as i128, ..loan },
                    )
                    &&& final(self).positions@ == old(self).positions@.insert(
                        spec_position_key(loan_id, lender, t),
                        TranchePosition { claimed: (p.claimed + amount) as i128, ..p },
                    )
                    &&& final(self).admin == old(self).admin
                    &&& final(self).paused == old(self).paused
                },
            },
    {
        if self.admin.is_none() {
            return Err(Error::NotInitialized);
        }
        let t = parse_tranche(tranche)?;
        let mut loan = self.load_loan(loan_id)?;
        if loan.status != LoanStatus::Repaid && loan.status != LoanStatus::Defaulted {
            return Err(Error::InvalidLoanStatus);
        }
        let mut position = self.load_position(loan_id, lender, t);
        let amount = position_claim(&loan, &position)?;
        if amount <= 0 {
            return Err(Error::NothingToClaim);
        }
        position.claimed = match position.claimed.checked_add(amount) {
            Some(v) => v,
            None => return Err(Error::ArithmeticOverflow),
        };
        loan.total_claimed = match loan.total_claimed.checked_add(amount) {
            Some(v) => v,
            None => return Err(Error::ArithmeticOverflow),
        };
        self.store_position(loan_id, lender, t, position);
        self.store_loan(loan);
        Ok(amount)
    }

    pub fn get_loan(&self, loan_id: u32) -> (r: Result<Loan, Error>)
        ensures
            match self.spec_loan(loan_id) {
                Some(l) => r == Ok::<Loan, Error>(l),
                None => r == Err::<Loan, Error>(Error::LoanNotFound),
            },
    {
        self.load_loan(loan_id)
    }

    pub fn get_position(&self, loan_id: u32, lender: Address, tranche: u32) -> (r: Result<TranchePosition, Error>)
        ensures
            match spec_parse_tranche(tranche) {
                Ok(t) => r == Ok::<TranchePosition, Error>(self.spec_position(loan_id, lender, t)),
                Err(e) => r == Err::<TranchePosition, Error>(e),
            },
    {
        let t = parse_tranche(tranche)?;
        Ok(self.load_position(loan_id, lender, t))
    }

    /// Target, funding, yield, amount due and waterfall allocation of a tranche.
    pub fn tranche_summary(&self, loan_id: u32, tranche: u32) -> (r: Result<TrancheSummary, Error>)
        ensures
            match self.spec_loan(loan_id) {
                None => r == Err::<TrancheSummary, Error>(Error::LoanNotFound),
                Some(loan) => match spec_parse_tranche(tranche) {
                    Err(e) => r == Err::<TrancheSummary, Error>(e),
                    Ok(t) => {
                        let (funded, target) = spec_tranche_funding(loan, t);
                        let y = match t {
                            Tranche::Senior => loan.senior_yield_bps,
                            Tranche::Junior => loan.junior_yield_bps,
                        };
                        match (spec_tranche_due(target as int, y as int), spec_tranche_allocation(loan, t)) {
                            (Err(e), _) => r == Err::<TrancheSummary, Error>(e),
                            (Ok(_), Err(e)) => r == Err::<TrancheSummary, Error>(e),
                            (Ok(due), Ok(alloc)) => r == Ok::<TrancheSummary, Error>(TrancheSummary {
                                tranche: t,
                                target,
                                funded,
                                yield_bps: y,
                                amount_due: due as i128,
                                settlement_allocation: alloc as i128,
                            }),
                        }
                    },
                },
            },
    {
        let loan = self.load_loan(loan_id)?;
        let t = parse_tranche(tranche)?;
        let (target, funded, yield_bps) = match t {
            Tranche::Senior => (loan.senior_target, loan.senior_funded, loan.senior_yield_bps),
            Tranche::Junior => (loan.junior_target, loan.junior_funded, loan.junior_yield_bps),
        };
        let amount_due = tranche_due(target, yield_bps)?;
        let settlement_allocation = tranche_allocation(&loan, t)?;
        Ok(TrancheSummary { tranche: t, target, funded, yield_bps, amount_due, settlement_allocation })
    }

    /// What `claim` would pay the lender now.
    pub fn calculate_claim(&self, loan_id: u32, lender: Address, tranche: u32) -> (r: Result<i128, Error>)
        ensures
            match self.spec_loan(loan_id) {
                None => r == Err::<i128, Error>(Error::LoanNotFound),
                Some(loan) => match spec_parse_tranche(tranche) {
                    Err(e) => r == Err::<i128, Error>(e),
                    Ok(t) => same_result(r, spec_position_claim(loan, self.spec_position(loan_id, lender, t))),
                },
            },
    {
        let loan = self.load_loan(loan_id)?;
        let t = parse_tranche(tranche)?;
        let position = self.load_position(loan_id, lender, t);
        position_claim(&loan, &position)
    }

    pub fn loan_total_due(&self, loan_id: u32) -> (r: Result<i128, Error>)
        ensures
            match self.spec_loan(loan_id) {
                None => r == Err::<i128, Error>(Error::LoanNotFound),
                Some(loan) => same_result(r, spec_total_due(loan)),
            },
    {
        let loan = self.load_loan(loan_id)?;
        total_due(&loan)
    }

    pub fn loan_count(&self) -> (n: u32)
        requires
            self.wf(),
        ensures
            n == self.loans@.len(),
    {
        self.loans.len() as u32
    }

    pub fn is_paused(&self) -> (b: bool)
        ensures
            b == self.paused,
    {
        self.paused
    }
}

} // verus!
