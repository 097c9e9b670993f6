//! European cash-settled options with a writer margin pool and
//! Black-Scholes Greeks computed by integer approximations.
//!
//! Prices are scaled by `PRICE_PRECISION`, Greeks and probabilities by
//! `GREEK_PRECISION`.
use vstd::prelude::*;
use std::collections::HashMap;
use crate::common::{Address, tdiv, tdiv_signed, fits_i128, clamp_int, max_int, min_int, abs_int, sat_i128, div_trunc, i128_saturating_mul};

verus! {

broadcast use vstd::std_specs::hash::group_hash_axioms;

pub const PRICE_PRECISION: i128 = 1_000_000;
pub const GREEK_PRECISION: i128 = 1_000_000;
pub const MIN_MARGIN_BPS: i128 = 2_000;
pub const SECONDS_PER_YEAR: i128 = 31_557_600;

// ── Integer square root ─────────────────────────────────────────────────────

/// `s` is the integer square root of `p`.
pub open spec fn is_isqrt(s: int, p: int) -> bool {
    0 <= s && s * s <= p && p < (s + 1) * (s + 1)
}

pub open spec fn sq(r: int) -> int {
    r * r
}

/// One Newton step never goes below any `r` with `r * r <= p`.
proof fn lemma_newton_step_bound(s: int, p: int, r: int)
    requires
        s > 0,
        p >= 0,
        r >= 0,
        r * r <= p,
    ensures
        r <= (s + p / s) / 2,
{
    let q = p / s;
    vstd::arithmetic::div_mod::lemma_fundamental_div_mod(p, s);
    vstd::arithmetic::div_mod::lemma_mod_pos_bound(p, s);
    assert(s * (q + 1) > p) by (nonlinear_arith)
        requires
            p == s * q + p % s,
            p % s < s,
    ;
    assert((s - r) * (s - r) >= 0) by (nonlinear_arith);
    assert(s * (s + q + 1) > 2 * s * r) by (nonlinear_arith)
        requires
            s * (q + 1) > p,
            r * r <= p,
            (s - r) * (s - r) >= 0,
    ;
    assert(s + q + 1 > 2 * r) by (nonlinear_arith)
        requires
            s * (s + q + 1) > 2 * s * r,
            s > 0,
    ;
}

/// Integer square root of `x_scaled * scale` by Newton's method: `√T`
/// scaled by `√scale` when `T` is scaled by `scale` (the Greeks pass
/// `GREEK_PRECISION`).  A product that is not positive gives 0.
pub fn isqrt_scaled(x_scaled: i128, scale: i128) -> (s: i128)
    requires
        x_scaled <= 0 || (i128::MIN < x_scaled * scale < i128::MAX),
    ensures
        x_scaled <= 0 || x_scaled * scale <= 0 ==> s == 0,
        x_scaled > 0 && x_scaled * scale > 0 ==> is_isqrt(s as int, x_scaled * scale),
{
    if x_scaled <= 0 {
        return 0;
    }
    let product = x_scaled * scale;
    if product <= 0 {
        return 0;
    }
    let mut s = product;
    let mut t = (s + 1) / 2;
    proof {
        assert(product / product == 1) by {
            vstd::arithmetic::div_mod::lemma_div_by_self(product as int);
        }
        assert forall|r: int| 0 <= r && #[trigger] sq(r) <= product implies r <= product by {
            if r > product {
                assert(r * r > product) by (nonlinear_arith)
                    requires
                        r > product,
                        product > 0,
                ;
            }
        }
    }
    while t < s
        invariant
            product == x_scaled * scale,
            0 < product < i128::MAX,
            0 < s <= product,
            t == (s + product / s) / 2,
            forall|r: int| 0 <= r && #[trigger] sq(r) <= product ==> r <= s,
        decreases s,
    {
        proof {
            assert forall|r: int| 0 <= r && #[trigger] sq(r) <= product implies r <= t by {
                lemma_newton_step_bound(s as int, product as int, r);
            }
            assert(sq(1) <= product);
            assert(t >= 1);
        }
        s = t;
        proof {
            vstd::arithmetic::div_mod::lemma_div_pos_is_pos(product as int, s as int);
            vstd::arithmetic::div_mod::lemma_div_is_ordered_by_denominator(product as int, 1, s as int);
            let q = product / s;
            vstd::arithmetic::div_mod::lemma_fundamental_div_mod(product as int, s as int);
            vstd::arithmetic::div_mod::lemma_mod_pos_bound(product as int, s as int);
            if q >= 1 {
                assert(s + q <= product + 1) by (nonlinear_arith)
                    requires
                        s >= 1,
                        q >= 1,
                        s * q <= product,
                ;
            }
        }
        t = (s + product / s) / 2;
    }
    proof {
        let q = product / s;
        vstd::arithmetic::div_mod::lemma_fundamental_div_mod(product as int, s as int);
        vstd::arithmetic::div_mod::lemma_mod_pos_bound(product as int, s as int);
        assert(q >= s);
        assert(s * s <= product) by (nonlinear_arith)
            requires
                product == s * q + product % s,
                product % s >= 0,
                q >= s,
                s > 0,
        ;
        if (s + 1) * (s + 1) <= product {
            assert(sq(s + 1) <= product);
            assert(s + 1 <= s);
        }
    }
    s
}

// ── Standard normal density and distribution ─────────────────────────────────

/// The Padé approximant of `e^(-u)` scaled by `GREEK_PRECISION`, for
/// `u = x² / 2` in the same scale:
/// `(120 - 60u + 12u² - u³) / (120 + 60u + 12u² + u³)`, negative numerators
/// taken as 0.
pub open spec fn spec_exp_neg(u: int) -> int {
    let u2 = u * u / 1_000_000;
    let u3 = u2 * u / 1_000_000;
    let num = 120 * 1_000_000 - 60 * u + 12 * u2 - u3;
    let den = 120 * 1_000_000 + 60 * u + 12 * u2 + u3;
    max_int(num, 0) * 1_000_000 / den
}

#[verifier::opaque]
/// `n(x) = e^(-x²/2) / √(2π)` with `1/√(2π) ≈ 0.398942`, both scaled by
/// `GREEK_PRECISION`; zero beyond six standard deviations.
pub open spec fn spec_normal_pdf(x: int) -> int {
    let x2 = sat_i128(x * x) / 1_000_000;
    if x2 > 36 * 1_000_000 {
        0
    } else {
        398_942 * spec_exp_neg(x2 / 2) / 1_000_000
    }
}

/// Standard normal density, argument and result scaled by `GREEK_PRECISION`.
pub fn normal_pdf(x_scaled: i128) -> (r: i128)
    ensures
        r == spec_normal_pdf(x_scaled as int),
        0 <= r <= 398_942,
{
    reveal(spec_normal_pdf);
    let inv_sqrt_2pi: i128 = 398_942;
    let sq = i128_saturating_mul(x_scaled, x_scaled);
    proof {
        assert(x_scaled * x_scaled >= 0) by (nonlinear_arith);
    }
    let x2 = sq / GREEK_PRECISION;
    if x2 > 36 * GREEK_PRECISION {
        return 0;
    }
    let u = x2 / 2;
    proof {
        assert(0 <= u <= 18_000_000);
        assert(u * u <= 324_000_000_000_000) by (nonlinear_arith)
            requires 0 <= u <= 18_000_000;
        assert(u * u >= 0) by (nonlinear_arith);
    }
    let u2 = i128_saturating_mul(u, u) / GREEK_PRECISION;
    proof {
        assert(0 <= u2 <= 324_000_000);
        assert(0 <= u2 * u <= 324_000_000 * 18_000_000) by (nonlinear_arith)
            requires 0 <= u2 <= 324_000_000, 0 <= u <= 18_000_000;
    }
    let u3 = i128_saturating_mul(u2, u) / GREEK_PRECISION;
    proof {
        assert(0 <= u3 <= 5_832_000_000);
    }
    let scale = GREEK_PRECISION;
    let num = 120 * scale - 60 * u + 12 * u2 - u3;
    let den = 120 * scale + 60 * u + 12 * u2 + u3;
    let num_pos = if num >= 0 {
        num
    } else {
        0
    };
    proof {
        assert(num_pos <= 120 * scale + 12 * 324_000_000);
        assert(0 <= num_pos * scale <= (120 * scale + 12 * 324_000_000) * scale) by (nonlinear_arith)
            requires 0 <= num_pos <= 120 * scale + 12 * 324_000_000, scale == 1_000_000;
    }
    let exp_neg_u = if den > 0 {
        let prod = match num_pos.checked_mul(scale) {
            Some(v) => v,
            None => 0,
        };
        prod / den
    } else {
        0
    };
    proof {
        assert(num_pos <= den);
        assert(num_pos * scale / (den as int) <= scale) by (nonlinear_arith)
            requires 0 <= num_pos <= den, den > 0, scale == 1_000_000;
        assert(0 <= num_pos * scale / (den as int)) by (nonlinear_arith)
            requires 0 <= num_pos, den > 0, scale == 1_000_000;
        assert(0 <= inv_sqrt_2pi * exp_neg_u <= 398_942 * 1_000_000) by (nonlinear_arith)
            requires 0 <= exp_neg_u <= 1_000_000, inv_sqrt_2pi == 398_942;
    }
    inv_sqrt_2pi * exp_neg_u / 1_000_000
}

pub const CDF_A1: i128 = 31_938_153;
pub const CDF_A2: i128 = -35_656_378;
pub const CDF_A3: i128 = 178_147_794;
pub const CDF_A4: i128 = -182_125_598;
pub const CDF_A5: i128 = 133_027_443;
pub const CDF_P: i128 = 2_316_419;

/// The Abramowitz–Stegun polynomial `a1·t + a2·t² + … + a5·t⁵` for `t`
/// scaled by 10⁶ and the coefficients (and the result) by 10⁸, evaluated
/// by Horner's rule with truncating division by 10⁶ at each step.
pub open spec fn spec_cdf_poly(t: int) -> int {
    let i4 = CDF_A4 + tdiv(t * CDF_A5, 1_000_000);
    let i3 = CDF_A3 + tdiv(t * i4, 1_000_000);
    let i2 = CDF_A2 + tdiv(t * i3, 1_000_000);
    let i1 = CDF_A1 + tdiv(t * i2, 1_000_000);
    tdiv(t * i1, 1_000_000)
}

#[verifier::opaque]
/// `N(x)` by the Abramowitz–Stegun approximation 26.2.17 in integers:
/// `x` clamped to ±6, `t = 1 / (1 + p|x|)`, `N(|x|) = 1 - n(|x|) · poly(t)`
/// clamped to [0, 1], reflected for negative `x`; argument and result
/// scaled by `GREEK_PRECISION`.  Over ±8 it stays within about 1.2·10⁻³ of
/// the standard normal distribution.
pub open spec fn spec_normal_cdf(x: int) -> int {
    let xc = clamp_int(x, -6_000_000int, 6_000_000int);
    if xc == 0 {
        500_000
    } else {
        let ax = abs_int(xc);
        let denom_t = 1_000_000int + CDF_P * ax / 10_000_000;
        let t = 1_000_000_000_000int / denom_t;
        let poly = spec_cdf_poly(t);
        let n = clamp_int(1_000_000 - spec_normal_pdf(ax) * abs_int(poly) / 100_000_000, 0, 1_000_000);
        if xc < 0 {
            1_000_000 - n
        } else {
            n
        }
    }
}

/// Standard normal distribution function, argument and result scaled by
/// `GREEK_PRECISION`.
pub fn normal_cdf(x_scaled: i128) -> (r: i128)
    ensures
        r == spec_normal_cdf(x_scaled as int),
        0 <= r <= GREEK_PRECISION,
{
    reveal(spec_normal_cdf);
    let lo = -6 * GREEK_PRECISION;
    let hi = 6 * GREEK_PRECISION;
    let x_scaled = if x_scaled < lo {
        lo
    } else if x_scaled > hi {
        hi
    } else {
        x_scaled
    };
    if x_scaled == 0 {
        return GREEK_PRECISION / 2;
    }
    let neg = x_scaled < 0;
    let ax = if neg {
        -x_scaled
    } else {
        x_scaled
    };
    let a1: i128 = CDF_A1;
    let a2: i128 = CDF_A2;
    let a3: i128 = CDF_A3;
    let a4: i128 = CDF_A4;
    let a5: i128 = CDF_A5;
    let p_coeff: i128 = CDF_P;
    proof {
        assert(0 <= p_coeff * ax <= 2_316_419 * 6_000_000) by (nonlinear_arith)
            requires 0 < ax <= 6_000_000, p_coeff == 2_316_419;
    }
    let denom_t = 1_000_000 + p_coeff * ax / 10_000_000;
    let t = 1_000_000_000_000i128 / denom_t;
    proof {
        assert(t <= 1_000_000) by (nonlinear_arith)
            requires t == 1_000_000_000_000int / (denom_t as int), denom_t >= 1_000_000;
        assert(t >= 0) by (nonlinear_arith)
            requires t == 1_000_000_000_000int / (denom_t as int), denom_t >= 1_000_000;
        assert(0 <= t * a5 <= 1_000_000 * 133_027_443) by (nonlinear_arith)
            requires 0 <= t <= 1_000_000, a5 == 133_027_443;
    }
    let i4 = a4 + t * a5 / 1_000_000;
    proof {
        assert(-200_000_000 <= i4 <= 200_000_000);
        assert(-200_000_000_000_000 <= t * i4 <= 200_000_000_000_000) by (nonlinear_arith)
            requires 0 <= t <= 1_000_000, -200_000_000 <= i4 <= 200_000_000;
    }
    let i3 = a3 + t * i4 / 1_000_000;
    proof {
        assert(-400_000_000 <= i3 <= 400_000_000);
        assert(-400_000_000_000_000 <= t * i3 <= 400_000_000_000_000) by (nonlinear_arith)
            requires 0 <= t <= 1_000_000, -400_000_000 <= i3 <= 400_000_000;
    }
    let i2 = a2 + t * i3 / 1_000_000;
    proof {
        assert(-800_000_000 <= i2 <= 800_000_000);
        assert(-800_000_000_000_000 <= t * i2 <= 800_000_000_000_000) by (nonlinear_arith)
            requires 0 <= t <= 1_000_000, -800_000_000 <= i2 <= 800_000_000;
    }
    let i1 = a1 + t * i2 / 1_000_000;
    proof {
        assert(-900_000_000 <= i1 <= 900_000_000);
        assert(-900_000_000_000_000 <= t * i1 <= 900_000_000_000_000) by (nonlinear_arith)
            requires 0 <= t <= 1_000_000, -900_000_000 <= i1 <= 900_000_000;
    }
    let poly = t * i1 / 1_000_000;
    proof {
        assert(-900_000_000 <= poly <= 900_000_000);
    }
    let pdf = normal_pdf(ax);
    let apoly = if poly >= 0 {
        poly
    } else {
        -poly
    };
    proof {
        assert(0 <= pdf * apoly <= 398_942 * 900_000_000) by (nonlinear_arith)
            requires 0 <= pdf <= 398_942, 0 <= apoly <= 900_000_000;
    }
    let n = GREEK_PRECISION - pdf * apoly / 100_000_000;
    let n = if n < 0 {
        0
    } else if n > GREEK_PRECISION {
        GREEK_PRECISION
    } else {
        n
    };
    if neg {
        GREEK_PRECISION - n
    } else {
        n
    }
}

/// The integer square root is unique.
pub proof fn lemma_isqrt_unique(a: int, b: int, p: int)
    requires
        is_isqrt(a, p),
        is_isqrt(b, p),
    ensures
        a == b,
{
    if a < b {
        assert((a + 1) * (a + 1) <= b * b) by (nonlinear_arith)
            requires 0 <= a, a + 1 <= b;
    } else if b < a {
        assert((b + 1) * (b + 1) <= a * a) by (nonlinear_arith)
            requires 0 <= b, b + 1 <= a;
    }
}

/// The integer square root of `p`.
pub open spec fn spec_isqrt(p: int) -> int {
    choose|s: int| is_isqrt(s, p)
}

proof fn lemma_isqrt_is(s: int, p: int)
    requires
        is_isqrt(s, p),
    ensures
        spec_isqrt(p) == s,
{
    assert(is_isqrt(s, p));
    let c = spec_isqrt(p);
    lemma_isqrt_unique(c, s, p);
}

// ── Types ───────────────────────────────────────────────────────────────────

#[derive(Clone, Copy, Debug, PartialEq, Eq, Structural)]
pub enum Error {
    AlreadyInitialized,
    NotInitialized,
    Unauthorized,
    Paused,
    InvalidStrike,
    InvalidExpiry,
    ZeroAmount,
    Overflow,
    InsufficientMargin,
    OptionNotFound,
    OptionAlreadySettled,
    OptionExpired,
    OptionNotExpired,
    NotOptionHolder,
    InvalidVolatility,
}

#[derive(Clone, Copy, Debug, PartialEq, Eq, Structural)]
pub enum OptionType {
    Call,
    Put,
}

#[derive(Clone, Copy, Debug, PartialEq, Eq, Structural)]
pub enum OptionStatus {
    Active,
    Exercised,
    Expired,
}

#[derive(Clone, Copy, Debug, PartialEq, Eq, Structural)]
pub struct OptionContract {
    pub id: u32,
    pub writer: Address,
    pub option_type: OptionType,
    pub strike_price: i128,
    pub spot_price_at_write: i128,
    pub premium: i128,
    pub size: i128,
    pub expiry: u64,
    pub holder: Option<Address>,
    pub status: OptionStatus,
    pub settlement_price: i128,
}

#[derive(Clone, Copy, Debug, PartialEq, Eq, Structural)]
pub struct Greeks {
    pub delta: i128,
    pub gamma: i128,
    pub theta: i128,
    pub vega: i128,
    pub intrinsic_value: i128,
    pub time_value: i128,
}

#[derive(Clone, Copy, Debug, PartialEq, Eq, Structural)]
pub struct MarginRequirement {
    pub required: i128,
    pub deposited: i128,
    pub margin_call: bool,
}

// ── Greeks ──────────────────────────────────────────────────────────────────

/// Intrinsic value per unit at spot `s`: `max(S - K, 0)` for a call,
/// `max(K - S, 0)` for a put.
pub open spec fn spec_intrinsic(ot: OptionType, strike: int, spot: int) -> int {
    match ot {
        OptionType::Call => max_int(spot - strike, 0),
        OptionType::Put => max_int(strike - spot, 0),
    }
}

/// The raw (unchecked) subtraction that forms the intrinsic value fits.
pub open spec fn intrinsic_fits(ot: OptionType, strike: int, spot: int) -> bool {
    match ot {
        OptionType::Call => fits_i128(spot - strike),
        OptionType::Put => fits_i128(strike - spot),
    }
}

fn intrinsic(ot: OptionType, strike: i128, spot: i128) -> (r: i128)
    requires
        intrinsic_fits(ot, strike as int, spot as int),
    ensures
        r == spec_intrinsic(ot, strike as int, spot as int),
{
    match ot {
        OptionType::Call => {
            let d = spot - strike;
            if d > 0 {
                d
            } else {
                0
            }
        },
        OptionType::Put => {
            let d = strike - spot;
            if d > 0 {
                d
            } else {
                0
            }
        },
    }
}

/// Greeks at or after expiry: delta ±1 when in the money, intrinsic value
/// `intrinsic * size / PRICE_PRECISION`, nothing else.
pub open spec fn spec_expired_greeks(ot: OptionType, strike: int, size: int, spot: int) -> Greeks {
    let i = spec_intrinsic(ot, strike, spot);
    Greeks {
        delta: if i > 0 {
            match ot {
                OptionType::Call => 1_000_000i128,
                OptionType::Put => -1_000_000i128,
            }
        } else {
            0i128
        },
        gamma: 0,
        theta: 0,
        vega: 0,
        intrinsic_value: tdiv(i * size, PRICE_PRECISION as int) as i128,
        time_value: 0,
    }
}

/// The live (pre-expiry) intermediate quantities, all scaled by
/// `GREEK_PRECISION`: time to expiry in years, volatility, `√T`, `ln(S/K)`
/// approximated by `(S - K) / K`, `d1`, `d2`.
pub open spec fn g_t(secs: int) -> int {
    secs * 1_000_000 / SECONDS_PER_YEAR as int
}

pub open spec fn g_sigma(vol_bps: int) -> int {
    vol_bps * 1_000_000 / 10_000
}

pub open spec fn g_sqrt_t(secs: int) -> int {
    spec_isqrt(g_t(secs) * 1_000_000)
}

pub open spec fn g_ln_sk(strike: int, spot: int) -> int {
    if strike > 0 {
        tdiv((spot - strike) * 1_000_000, strike)
    } else {
        0
    }
}

pub open spec fn g_num_d1(strike: int, spot: int, vol_bps: int, secs: int) -> int {
    let sigma = g_sigma(vol_bps);
    let sigma_sq = sigma * sigma / 1_000_000;
    g_ln_sk(strike, spot) + (sigma_sq / 2) * g_t(secs) / 1_000_000
}

pub open spec fn g_denom_d1(vol_bps: int, secs: int) -> int {
    g_sigma(vol_bps) * g_sqrt_t(secs) / 1_000_000
}

pub open spec fn g_d1(strike: int, spot: int, vol_bps: int, secs: int) -> int {
    let den = g_denom_d1(vol_bps, secs);
    if den != 0 {
        tdiv(g_num_d1(strike, spot, vol_bps, secs) * 1_000_000, den)
    } else {
        0
    }
}

pub open spec fn g_d2(strike: int, spot: int, vol_bps: int, secs: int) -> int {
    g_d1(strike, spot, vol_bps, secs) - g_sigma(vol_bps) * g_sqrt_t(secs) / 1_000_000
}

/// The Greeks before expiry (risk-free rate taken as 0):
/// delta `N(d1)` (call) or `N(d1) - 1` (put); gamma `n(d1) / (S σ √T)`;
/// vega `S n(d1) √T` per 1% of volatility; theta `-(S n(d1) σ) / (2√T)` per
/// day; time value `max(BS price - intrinsic, 0)` with the BS price
/// `S N(d1) - K N(d2)` (call) or `K N(-d2) - S N(-d1)` (put).
pub open spec fn spec_live_greeks(ot: OptionType, strike: int, size: int, spot: int, vol_bps: int, secs: int) -> Greeks {
    let sigma = g_sigma(vol_bps);
    let sqrt_t = g_sqrt_t(secs);
    let d1 = g_d1(strike, spot, vol_bps, secs);
    let d2 = g_d2(strike, spot, vol_bps, secs);
    let nd1 = spec_normal_cdf(d1);
    let nd2 = spec_normal_cdf(d2);
    let pdf = spec_normal_pdf(d1);
    let denom_gamma = tdiv(tdiv(spot * sigma, 1_000_000 * sqrt_t), 1_000_000);
    let theta_annual = if sqrt_t != 0 {
        -tdiv(tdiv(tdiv(spot * pdf, 1_000_000 * sigma), 1_000_000), max_int(2 * sqrt_t / 1_000_000, 1))
    } else {
        0
    };
    let i = spec_intrinsic(ot, strike, spot);
    let bs = match ot {
        OptionType::Call => tdiv(spot * nd1, 1_000_000) - tdiv(strike * nd2, 1_000_000),
        OptionType::Put => tdiv(strike * (1_000_000 - nd2), 1_000_000) - tdiv(spot * (1_000_000 - nd1), 1_000_000),
    };
    Greeks {
        delta: (match ot {
            OptionType::Call => nd1,
            OptionType::Put => nd1 - 1_000_000,
        }) as i128,
        gamma: (if denom_gamma != 0 {
            tdiv_signed(pdf * 1_000_000, denom_gamma)
        } else {
            0
        }) as i128,
        theta: tdiv(theta_annual, 365) as i128,
        vega: tdiv(tdiv(tdiv(spot * pdf, 1_000_000 * sqrt_t), 1_000_000), 100) as i128,
        intrinsic_value: tdiv(i * size, PRICE_PRECISION as int) as i128,
        time_value: max_int(bs - i, 0) as i128,
    }
}

/// The approximation of `N(x)` lies in `[0, 1]` (scaled).
pub proof fn lemma_normal_cdf_range(x: int)
    ensures
        0 <= spec_normal_cdf(x) <= 1_000_000,
{
    reveal(spec_normal_cdf);
}

/// Put–call delta relation: for one strike, spot, volatility and time to
/// expiry, the live call delta exceeds the put delta by exactly 1, the call
/// delta lies in `[0, 1]` and the put delta in `[-1, 0]` (scaled).
pub proof fn lemma_put_call_delta(strike: int, size: int, spot: int, vol_bps: int, secs: int)
    ensures
        ({
            let c = spec_live_greeks(OptionType::Call, strike, size, spot, vol_bps, secs);
            let p = spec_live_greeks(OptionType::Put, strike, size, spot, vol_bps, secs);
            &&& c.delta - p.delta == 1_000_000
            &&& 0 <= c.delta <= 1_000_000
            &&& -1_000_000 <= p.delta <= 0
        }),
{
    lemma_normal_cdf_range(g_d1(strike, spot, vol_bps, secs));
}

/// The delta of a put lies in `[-1, 0]` and that of a call in `[0, 1]`
/// (scaled by 10^6), before expiry and after it.  At or after expiry an
/// in-the-money call (spot above strike) has delta 1 and an in-the-money
/// put (spot below strike) delta -1; out of the money the delta is 0, and
/// what is left is the intrinsic value alone.
pub proof fn lemma_delta_by_side(ot: OptionType, strike: int, size: int, spot: int, vol_bps: int, secs: int)
    ensures
        ({
            let e = spec_expired_greeks(ot, strike, size, spot);
            let l = spec_live_greeks(ot, strike, size, spot, vol_bps, secs);
            &&& ot == OptionType::Call ==> 0 <= e.delta <= 1_000_000 && 0 <= l.delta <= 1_000_000
            &&& ot == OptionType::Put ==> -1_000_000 <= e.delta <= 0 && -1_000_000 <= l.delta <= 0
            &&& ot == OptionType::Call ==> (e.delta == if spot > strike { 1_000_000int } else { 0int })
            &&& ot == OptionType::Put ==> (e.delta == if spot < strike { -1_000_000int } else { 0int })
            &&& e.gamma == 0 && e.theta == 0 && e.vega == 0 && e.time_value == 0
            &&& ot == OptionType::Call && spot <= strike ==> e.intrinsic_value == 0
            &&& ot == OptionType::Put && spot >= strike ==> e.intrinsic_value == 0
        }),
{
    lemma_put_call_delta(strike, size, spot, vol_bps, secs);
    assert(0 * size == 0);
}

/// At or after expiry the intrinsic value is the payoff of exercising
/// `size` units (prices scaled by `PRICE_PRECISION`): `(spot - strike)` per
/// unit for an in-the-money call, `(strike - spot)` for an in-the-money put,
/// rounded down.
pub proof fn lemma_expired_intrinsic(ot: OptionType, strike: int, size: int, spot: int)
    requires
        size >= 0,
        -0x1000_0000_0000_0000_0000_0000_0000_0000 < (strike - spot) * size < 0x1000_0000_0000_0000_0000_0000_0000_0000,
    ensures
        ({
            let e = spec_expired_greeks(ot, strike, size, spot);
            &&& ot == OptionType::Call && spot > strike ==> e.intrinsic_value == (spot - strike) * size / PRICE_PRECISION as int
            &&& ot == OptionType::Put && spot < strike ==> e.intrinsic_value == (strike - spot) * size / PRICE_PRECISION as int
        }),
{
    if spot > strike {
        assert((spot - strike) * size >= 0) by (nonlinear_arith)
            requires
                spot > strike,
                size >= 0,
        ;
        assert((spot - strike) * size == -((strike - spot) * size)) by (nonlinear_arith);
    }
    if spot < strike {
        assert((strike - spot) * size >= 0) by (nonlinear_arith)
            requires
                spot < strike,
                size >= 0,
        ;
    }
}

/// At or after expiry, a call and a put on one strike and spot: if the spot
/// differs from the strike exactly one of them is in the money, and the
/// call's delta exceeds the put's by 1 (scaled); at the strike both are 0.
pub proof fn lemma_expired_put_call_delta(strike: int, size: int, spot: int)
    ensures
        ({
            let c = spec_expired_greeks(OptionType::Call, strike, size, spot);
            let p = spec_expired_greeks(OptionType::Put, strike, size, spot);
            &&& spot != strike ==> c.delta - p.delta == 1_000_000
            &&& spot == strike ==> c.delta == 0 && p.delta == 0
        }),
{
}

/// Some checked multiplication on the way to the live Greeks overflows.
pub open spec fn live_greeks_overflow(ot: OptionType, strike: int, spot: int, vol_bps: int, secs: int) -> bool {
    let sigma = g_sigma(vol_bps);
    let nd1 = spec_normal_cdf(g_d1(strike, spot, vol_bps, secs));
    let nd2 = spec_normal_cdf(g_d2(strike, spot, vol_bps, secs));
    ||| (strike > 0 && !fits_i128((spot - strike) * 1_000_000))
    ||| (g_denom_d1(vol_bps, secs) != 0 && !fits_i128(g_num_d1(strike, spot, vol_bps, secs) * 1_000_000))
    ||| !fits_i128(spot * sigma)
    ||| !fits_i128(spot * spec_normal_pdf(g_d1(strike, spot, vol_bps, secs)))
    ||| (ot == OptionType::Call && !fits_i128(spot * nd1))
    ||| (ot == OptionType::Call && !fits_i128(strike * nd2))
    ||| (ot == OptionType::Put && !fits_i128(strike * (1_000_000 - nd2)))
    ||| (ot == OptionType::Put && !fits_i128(spot * (1_000_000 - nd1)))
}

/// The inputs on which the live computation neither divides by zero nor
/// overflows an unchecked operation: at least 32 seconds to expiry (so that
/// `√T > 0`), and the unchecked sums and differences fit.
pub open spec fn live_greeks_defined(ot: OptionType, strike: int, size: int, spot: int, vol_bps: int, secs: int) -> bool {
    let i = spec_intrinsic(ot, strike, spot);
    let nd1 = spec_normal_cdf(g_d1(strike, spot, vol_bps, secs));
    let nd2 = spec_normal_cdf(g_d2(strike, spot, vol_bps, secs));
    let bs = match ot {
        OptionType::Call => tdiv(spot * nd1, 1_000_000) - tdiv(strike * nd2, 1_000_000),
        OptionType::Put => tdiv(strike * (1_000_000 - nd2), 1_000_000) - tdiv(spot * (1_000_000 - nd1), 1_000_000),
    };
    &&& secs >= 32
    &&& (strike > 0 ==> fits_i128(spot - strike))
    &&& fits_i128(g_num_d1(strike, spot, vol_bps, secs))
    &&& fits_i128(g_d2(strike, spot, vol_bps, secs))
    &&& intrinsic_fits(ot, strike, spot)
    &&& fits_i128(i * size)
    &&& fits_i128(bs - i)
}

proof fn lemma_sqrt_bounds(secs: int)
    requires
        0 <= secs <= u64::MAX,
    ensures
        0 <= g_t(secs) <= 600_000_000_000_000_000,
        g_t(secs) * 1_000_000 < i128::MAX,
{
    assert(secs * 1_000_000 <= 18_446_744_073_709_551_615 * 1_000_000) by (nonlinear_arith)
        requires 0 <= secs <= 18_446_744_073_709_551_615int;
    assert(secs * 1_000_000 >= 0) by (nonlinear_arith)
        requires 0 <= secs;
}

proof fn lemma_isqrt_le(s: int, p: int, bound: int)
    requires
        is_isqrt(s, p),
        0 <= bound,
        p <= bound * bound,
    ensures
        s <= bound,
{
    if s > bound {
        assert(s * s > bound * bound) by (nonlinear_arith)
            requires s > bound, bound >= 0;
    }
}

/// `T`, `σ` and `√T` for `secs` seconds to expiry and volatility `vol_bps`.
fn time_terms(vol_bps: i128, secs: u64) -> (r: (i128, i128, i128))
    requires
        0 < vol_bps <= 100_000,
        secs >= 32,
    ensures
        r.0 == g_t(secs as int),
        r.1 == g_sigma(vol_bps as int),
        r.2 == g_sqrt_t(secs as int),
        1 <= r.0 <= 600_000_000_000_000_000,
        100 <= r.1 <= 10_000_000,
        1 <= r.2 <= 775_000_000_000,
{
    proof {
        lemma_sqrt_bounds(secs as int);
    }
    let time_to_expiry_secs = secs as i128;
    let t_scaled = time_to_expiry_secs * GREEK_PRECISION / SECONDS_PER_YEAR;
    assert(t_scaled >= 1) by (nonlinear_arith)
        requires
            t_scaled == (time_to_expiry_secs * 1_000_000) / 31_557_600,
            time_to_expiry_secs >= 32,
    ;
    let sigma_scaled = vol_bps * GREEK_PRECISION / 10_000;
    let sqrt_t = isqrt_scaled(t_scaled, GREEK_PRECISION);
    proof {
        lemma_isqrt_is(sqrt_t as int, t_scaled * 1_000_000);
        lemma_isqrt_le(sqrt_t as int, t_scaled * 1_000_000, 775_000_000_000);
        assert(is_isqrt(sqrt_t as int, t_scaled * 1_000_000));
        assert((sqrt_t + 1) * (sqrt_t + 1) > t_scaled * 1_000_000);
        if sqrt_t == 0 {
            assert((sqrt_t + 1) * (sqrt_t + 1) == 1) by (nonlinear_arith)
                requires sqrt_t == 0;
            assert(t_scaled * 1_000_000 >= 1_000_000);
            assert(false);
        }
    }
    (t_scaled, sigma_scaled, sqrt_t)
}

/// `d1` and `d2`, or the overflow of a checked product on the way.
fn d_terms(strike: i128, spot_price: i128, vol_bps: i128, secs: u64) -> (r: Result<(i128, i128), Error>)
    requires
        0 < vol_bps <= 100_000,
        secs >= 32,
        strike > 0 ==> fits_i128(spot_price - strike),
        fits_i128(g_num_d1(strike as int, spot_price as int, vol_bps as int, secs as int)),
        fits_i128(g_d2(strike as int, spot_price as int, vol_bps as int, secs as int)),
    ensures
        ({
            let overflow = (strike > 0 && !fits_i128((spot_price - strike) * 1_000_000)) || (
            g_denom_d1(vol_bps as int, secs as int) != 0 && !fits_i128(
                g_num_d1(strike as int, spot_price as int, vol_bps as int, secs as int) * 1_000_000,
            ));
            &&& overflow ==> r == Err::<(i128, i128), Error>(Error::Overflow)
            &&& !overflow ==> r == Ok::<(i128, i128), Error>(
                (
                    g_d1(strike as int, spot_price as int, vol_bps as int, secs as int) as i128,
                    g_d2(strike as int, spot_price as int, vol_bps as int, secs as int) as i128,
                ),
            )
        }),
{
    let (t_scaled, sigma_scaled, sqrt_t) = time_terms(vol_bps, secs);
    let ln_sk = if strike > 0 {
        match (spot_price - strike).checked_mul(GREEK_PRECISION) {
            Some(v) => v / strike,
            None => return Err(Error::Overflow),
        }
    } else {
        0
    };
    assert(0 <= sigma_scaled * sigma_scaled <= 100_000_000_000_000) by (nonlinear_arith)
        requires 100 <= sigma_scaled <= 10_000_000;
    let sigma_sq = sigma_scaled * sigma_scaled / GREEK_PRECISION;
    assert(0 <= (sigma_sq / 2) * t_scaled <= 50_000_000 * 600_000_000_000_000_000) by (nonlinear_arith)
        requires 0 <= sigma_sq / 2 <= 50_000_000, 0 <= t_scaled <= 600_000_000_000_000_000;
    let sigma_sq_half_t = (sigma_sq / 2) * t_scaled / GREEK_PRECISION;
    let numerator_d1 = ln_sk + sigma_sq_half_t;
    assert(0 <= sigma_scaled * sqrt_t <= 10_000_000 * 775_000_000_000) by (nonlinear_arith)
        requires 100 <= sigma_scaled <= 10_000_000, 0 <= sqrt_t <= 775_000_000_000;
    let denom_d1 = sigma_scaled * sqrt_t / GREEK_PRECISION;
    let d1 = if denom_d1 != 0 {
        match numerator_d1.checked_mul(GREEK_PRECISION) {
            Some(v) => v / denom_d1,
            None => return Err(Error::Overflow),
        }
    } else {
        0
    };
    let sigma_sqrt_t = sigma_scaled * sqrt_t / GREEK_PRECISION;
    let d2 = d1 - sigma_sqrt_t;
    Ok((d1, d2))
}

/// Greeks of a live option `secs` seconds before expiry at spot `spot_price`
/// and volatility `vol_bps`.
pub fn live_greeks(
    ot: OptionType,
    strike: i128,
    size: i128,
    spot_price: i128,
    vol_bps: i128,
    secs: u64,
) -> (r: Result<Greeks, Error>)
    requires
        0 < vol_bps <= 100_000,
        live_greeks_defined(ot, strike as int, size as int, spot_price as int, vol_bps as int, secs as int),
    ensures
        live_greeks_overflow(ot, strike as int, spot_price as int, vol_bps as int, secs as int) ==> r
            == Err::<Greeks, Error>(Error::Overflow),
        !live_greeks_overflow(ot, strike as int, spot_price as int, vol_bps as int, secs as int) ==> r
            == Ok::<Greeks, Error>(spec_live_greeks(ot, strike as int, size as int, spot_price as int, vol_bps as int, secs as int)),
{
    let (_t_scaled, sigma_scaled, sqrt_t) = time_terms(vol_bps, secs);
    let (d1, d2) = d_terms(strike, spot_price, vol_bps, secs)?;
    let nd1 = normal_cdf(d1);
    let nd2 = normal_cdf(d2);
    let n_d1 = normal_pdf(d1);
    let delta = match ot {
        OptionType::Call => nd1,
        OptionType::Put => nd1 - GREEK_PRECISION,
    };
    let s_sigma = match spot_price.checked_mul(sigma_scaled) {
        Some(v) => v,
        None => return Err(Error::Overflow),
    };
    let p_sqrt = GREEK_PRECISION * sqrt_t;
    let denom_gamma = s_sigma / p_sqrt / GREEK_PRECISION;
    assert(0 <= n_d1 * GREEK_PRECISION <= 398_942_000_000) by (nonlinear_arith)
        requires 0 <= n_d1 <= 398_942;
    let gamma = if denom_gamma != 0 {
        div_trunc(n_d1 * GREEK_PRECISION, denom_gamma)
    } else {
        0
    };
    let s_pdf = match spot_price.checked_mul(n_d1) {
        Some(v) => v,
        None => return Err(Error::Overflow),
    };
    let vega = s_pdf / p_sqrt / GREEK_PRECISION / 100;
    let two_sqrt = 2 * sqrt_t / GREEK_PRECISION;
    let theta_div = if two_sqrt >= 1 {
        two_sqrt
    } else {
        1
    };
    let theta_annual = -(s_pdf / (GREEK_PRECISION * sigma_scaled) / GREEK_PRECISION / theta_div);
    let theta = theta_annual / 365;
    let intr = intrinsic(ot, strike, spot_price);
    let intrinsic_value = intr * size / PRICE_PRECISION;
    let bs_price = match ot {
        OptionType::Call => {
            let a = match spot_price.checked_mul(nd1) {
                Some(v) => v,
                None => return Err(Error::Overflow),
            };
            let b = match strike.checked_mul(nd2) {
                Some(v) => v,
                None => return Err(Error::Overflow),
            };
            a / GREEK_PRECISION - b / GREEK_PRECISION
        },
        OptionType::Put => {
            let a = match strike.checked_mul(GREEK_PRECISION - nd2) {
                Some(v) => v,
                None => return Err(Error::Overflow),
            };
            let b = match spot_price.checked_mul(GREEK_PRECISION - nd1) {
                Some(v) => v,
                None => return Err(Error::Overflow),
            };
            a / GREEK_PRECISION - b / GREEK_PRECISION
        },
    };
    let tv = bs_price - intr;
    let time_value = if tv >= 0 {
        tv
    } else {
        0
    };
    Ok(Greeks { delta, gamma, theta, vega, intrinsic_value, time_value })
}

// ── Contract ────────────────────────────────────────────────────────────────

/// The persistent storage of the options contract.
pub struct OptionsContract {
    pub admin: Option<Address>,
    pub paused: bool,
    /// Option `id` is stored at index `id`.
    pub options: Vec<OptionContract>,
    pub margins: HashMap<Address, i128>,
    pub total_margin: i128,
}

/// `notional * MIN_MARGIN_BPS / 10000` with `notional = strike * size / PRICE_PRECISION`.
pub open spec fn spec_required_margin(strike: int, size: int) -> int {
    tdiv(tdiv(strike * size, PRICE_PRECISION as int) * MIN_MARGIN_BPS, 10_000)
}

/// The checked products of the margin requirement overflow.
pub open spec fn required_margin_overflows(strike: int, size: int) -> bool {
    !fits_i128(strike * size) || !fits_i128(tdiv(strike * size, PRICE_PRECISION as int) * MIN_MARGIN_BPS)
}

fn required_margin(strike: i128, size: i128) -> (r: Result<i128, Error>)
    ensures
        required_margin_overflows(strike as int, size as int) ==> r == Err::<i128, Error>(Error::Overflow),
        !required_margin_overflows(strike as int, size as int) ==> r == Ok::<i128, Error>(
            spec_required_margin(strike as int, size as int) as i128,
        ),
{
    let notional = match strike.checked_mul(size) {
        Some(v) => v / PRICE_PRECISION,
        None => return Err(Error::Overflow),
    };
    match notional.checked_mul(MIN_MARGIN_BPS) {
        Some(v) => Ok(v / 10_000),
        None => Err(Error::Overflow),
    }
}

impl OptionsContract {
    pub open spec fn wf(&self) -> bool {
        &&& self.options@.len() <= u32::MAX
        &&& forall|i: int| 0 <= i < self.options@.len() ==> {
            &&& #[trigger] self.options@[i].id == i
            &&& self.options@[i].size > 0
            &&& self.options@[i].strike_price > 0
        }
    }

    pub open spec fn initialized(&self) -> bool {
        self.admin is Some
    }

    pub open spec fn spec_option(&self, id: u32) -> Option<OptionContract> {
        if id < self.options@.len() {
            Some(self.options@[id as int])
        } else {
            None
        }
    }

    pub open spec fn margin(&self, a: Address) -> int {
        if self.margins@.contains_key(a) {
            self.margins@[a] as int
        } else {
            0
        }
    }

    /// Empty storage.
    pub fn new() -> (s: Self)
        ensures
            s.wf(),
            !s.initialized(),
            !s.paused,
            s.options@.len() == 0,
            s.margins@ == Map::<Address, i128>::empty(),
            s.total_margin == 0,
    {
        OptionsContract { admin: None, paused: false, options: Vec::new(), margins: HashMap::new(), total_margin: 0 }
    }

    fn load_margin(&self, a: Address) -> (m: i128)
        ensures
            m == self.margin(a),
    {
        match self.margins.get(&a) {
            Some(v) => *v,
            None => 0,
        }
    }

    fn active_error(&self) -> (r: Result<(), Error>)
        ensures
            !self.initialized() ==> r == Err::<(), Error>(Error::NotInitialized),
            self.initialized() && self.paused ==> r == Err::<(), Error>(Error::Paused),
            self.initialized() && !self.paused ==> r is Ok,
    {
        if self.admin.is_none() {
            return Err(Error::NotInitialized);
        }
        if self.paused {
            return Err(Error::Paused);
        }
        Ok(())
    }

    fn load_option(&self, id: u32) -> (r: Result<OptionContract, Error>)
        ensures
            match self.spec_option(id) {
                Some(o) => r == Ok::<OptionContract, Error>(o),
                None => r == Err::<OptionContract, Error>(Error::OptionNotFound),
            },
    {
        if (id as usize) < self.options.len() {
            Ok(self.options[id as usize])
        } else {
            Err(Error::OptionNotFound)
        }
    }

    /// Set the admin once.
    pub fn initialize(&mut self, admin: Address) -> (r: Result<(), Error>)
        ensures
            old(self).initialized() ==> r == Err::<(), Error>(Error::AlreadyInitialized)
                && *final(self) == *old(self),
            !old(self).initialized() ==> r is Ok && final(self).admin == Some(admin)
                && final(self).paused == old(self).paused && final(self).options@ == old(self).options@
                && final(self).margins@ == old(self).margins@ && final(self).total_margin == old(self).total_margin,
    {
        if self.admin.is_some() {
            return Err(Error::AlreadyInitialized);
        }
        self.admin = Some(admin);
        Ok(())
    }

    /// Why `write_option` fails, if it does.
    pub open spec fn write_option_error(
        &self,
        now: u64,
        strike_price: i128,
        size: i128,
        premium: i128,
        expiry: u64,
        margin: i128,
    ) -> Option<Error> {
        if !self.initialized() {
            Some(Error::NotInitialized)
        } else if self.paused {
            Some(Error::Paused)
        } else if strike_price <= 0 {
            Some(Error::InvalidStrike)
        } else if expiry <= now {
            Some(Error::InvalidExpiry)
        } else if size <= 0 || premium < 0 || margin <= 0 {
            Some(Error::ZeroAmount)
        } else if required_margin_overflows(strike_price as int, size as int) {
            Some(Error::Overflow)
        } else if margin < spec_required_margin(strike_price as int, size as int) {
            Some(Error::InsufficientMargin)
        } else {
            None
        }
    }

    /// A writer creates an active option, posting `margin` of at least
    /// 20% of the notional `strike * size`.  Returns the new option's id.
    pub fn write_option(
        &mut self,
        now: u64,
        writer: Address,
        option_type: OptionType,
        strike_price: i128,
        spot_price: i128,
        size: i128,
        premium: i128,
        expiry: u64,
        margin: i128,
    ) -> (r: Result<u32, Error>)
        requires
            old(self).wf(),
            old(self).write_option_error(now, strike_price, size, premium, expiry, margin) is None ==> {
                &&& old(self).options@.len() < u32::MAX
                &&& fits_i128(old(self).margin(writer) + margin)
                &&& fits_i128(old(self).total_margin + margin)
            },
        ensures
            final(self).wf(),
            match old(self).write_option_error(now, strike_price, size, premium, expiry, margin) {
                Some(e) => r == Err::<u32, Error>(e) && *final(self) == *old(self),
                None => {
                    let id = old(self).options@.len() as u32;
                    &&& r == Ok::<u32, Error>(id)
                    &&& final(self).options@ == old(self).options@.push(OptionContract {
                        id,
                        writer,
                        option_type,
                        strike_price,
                        spot_price_at_write: spot_price,
                        premium,
                        size,
                        expiry,
                        holder: None,
                        status: OptionStatus::Active,
                        settlement_price: 0,
                    })
                    &&& final(self).margins@ == old(self).margins@.insert(writer, (old(self).margin(writer) + margin) as i128)
                    &&& final(self).total_margin == old(self).total_margin + margin
                    &&& final(self).admin == old(self).admin
                    &&& final(self).paused == old(self).paused
                },
            },
    {
        self.active_error()?;
        if strike_price <= 0 {
            return Err(Error::InvalidStrike);
        }
        if expiry <= now {
            return Err(Error::InvalidExpiry);
        }
        if size <= 0 || premium < 0 || margin <= 0 {
            return Err(Error::ZeroAmount);
        }
        let min_margin = required_margin(strike_price, size)?;
        if margin < min_margin {
            return Err(Error::InsufficientMargin);
        }
        let id = self.options.len() as u32;
        let opt = OptionContract {
            id,
            writer,
            option_type,
            strike_price,
            spot_price_at_write: spot_price,
            premium,
            size,
            expiry,
            holder: None,
            status: OptionStatus::Active,
            settlement_price: 0,
        };
        self.options.push(opt);
        let m = self.load_margin(writer);
        self.margins.insert(writer, m + margin);
        self.total_margin = self.total_margin + margin;
        Ok(id)
    }

    /// Why `buy_option` fails, if it does.
    pub open spec fn buy_option_error(&self, now: u64, option_id: u32) -> Option<Error> {
        if !self.initialized() {
            Some(Error::NotInitialized)
        } else if self.paused {
            Some(Error::Paused)
        } else if self.spec_option(option_id) is None {
            Some(Error::OptionNotFound)
        } else {
            let o = self.spec_option(option_id).unwrap();
            if o.status != OptionStatus::Active {
                Some(Error::OptionAlreadySettled)
            } else if now >= o.expiry {
                Some(Error::OptionExpired)
            } else if o.holder is Some {
                Some(Error::OptionAlreadySettled)
            } else {
                None
            }
        }
    }

    /// A buyer takes an unowned active option before expiry; the premium is
    /// credited to the writer's margin.  Returns the premium.
    pub fn buy_option(&mut self, now: u64, buyer: Address, option_id: u32) -> (r: Result<i128, Error>)
        requires
            old(self).wf(),
            old(self).buy_option_error(now, option_id) is None ==> fits_i128(
                old(self).margin(old(self).spec_option(option_id).unwrap().writer)
                    + old(self).spec_option(option_id).unwrap().premium,
            ),
        ensures
            final(self).wf(),
            match old(self).buy_option_error(now, option_id) {
                Some(e) => r == Err::<i128, Error>(e) && *final(self) == *old(self),
                None => {
                    let o = old(self).spec_option(option_id).unwrap();
                    &&& r == Ok::<i128, Error>(o.premium)
                    &&& final(self).options@ == old(self).options@.update(option_id as int, OptionContract { holder: Some(buyer), ..o })
                    &&& final(self).margins@ == old(self).margins@.insert(o.writer, (old(self).margin(o.writer) + o.premium) as i128)
                    &&& final(self).total_margin == old(self).total_margin
                    &&& final(self).admin == old(self).admin
                    &&& final(self).paused == old(self).paused
                },
            },
    {
        self.active_error()?;
        let mut opt = self.load_option(option_id)?;
        if opt.status != OptionStatus::Active {
            return Err(Error::OptionAlreadySettled);
        }
        if now >= opt.expiry {
            return Err(Error::OptionExpired);
        }
        if opt.holder.is_some() {
            return Err(Error::OptionAlreadySettled);
        }
        opt.holder = Some(buyer);
        let m = self.load_margin(opt.writer);
        self.margins.insert(opt.writer, m + opt.premium);
        self.options.set(option_id as usize, opt);
        Ok(opt.premium)
    }

    /// Why `exercise` fails, if it does.
    pub open spec fn exercise_error(&self, now: u64, holder: Address, option_id: u32, settlement_price: i128) -> Option<Error> {
        if !self.initialized() {
            Some(Error::NotInitialized)
        } else if self.paused {
            Some(Error::Paused)
        } else if self.spec_option(option_id) is None {
            Some(Error::OptionNotFound)
        } else {
            let o = self.spec_option(option_id).unwrap();
            if o.status != OptionStatus::Active {
                Some(Error::OptionAlreadySettled)
            } else if now < o.expiry {
                Some(Error::OptionNotExpired)
            } else if o.holder != Some(holder) {
                Some(Error::NotOptionHolder)
            } else if !fits_i128(spec_intrinsic(o.option_type, o.strike_price as int, settlement_price as int) * o.size) {
                Some(Error::Overflow)
            } else {
                None
            }
        }
    }

    /// `exercise` gets as far as computing the payout.
    pub open spec fn exercise_reaches_payout(&self, now: u64, holder: Address, option_id: u32) -> bool {
        &&& self.initialized()
        &&& !self.paused
        &&& self.spec_option(option_id) is Some
        &&& self.spec_option(option_id).unwrap().status == OptionStatus::Active
        &&& now >= self.spec_option(option_id).unwrap().expiry
        &&& self.spec_option(option_id).unwrap().holder == Some(holder)
    }

    /// The cash payout of exercising: the intrinsic value at the settlement
    /// price times the size, capped at the writer's margin.
    pub open spec fn exercise_payout(&self, o: OptionContract, settlement_price: i128) -> int {
        min_int(
            tdiv(spec_intrinsic(o.option_type, o.strike_price as int, settlement_price as int) * o.size, PRICE_PRECISION as int),
            self.margin(o.writer),
        )
    }

    /// The holder exercises at or after expiry; the payout is drawn from the
    /// writer's margin.  Returns the payout.
    pub fn exercise(&mut self, now: u64, holder: Address, option_id: u32, settlement_price: i128) -> (r: Result<i128, Error>)
        requires
            old(self).wf(),
            old(self).exercise_reaches_payout(now, holder, option_id) ==> intrinsic_fits(
                old(self).spec_option(option_id).unwrap().option_type,
                old(self).spec_option(option_id).unwrap().strike_price as int,
                settlement_price as int,
            ),
            old(self).exercise_error(now, holder, option_id, settlement_price) is None ==> fits_i128(
                old(self).total_margin - old(self).exercise_payout(
                    old(self).spec_option(option_id).unwrap(),
                    settlement_price,
                ),
            ),
        ensures
            final(self).wf(),
            match old(self).exercise_error(now, holder, option_id, settlement_price) {
                Some(e) => r == Err::<i128, Error>(e) && *final(self) == *old(self),
                None => {
                    let o = old(self).spec_option(option_id).unwrap();
                    let pay = old(self).exercise_payout(o, settlement_price);
                    &&& r == Ok::<i128, Error>(pay as i128)
                    &&& final(self).options@ == old(self).options@.update(
                        option_id as int,
                        OptionContract { status: OptionStatus::Exercised, settlement_price, ..o },
                    )
                    &&& final(self).margins@ == old(self).margins@.insert(o.writer, (old(self).margin(o.writer) - pay) as i128)
                    &&& final(self).total_margin == max_int(old(self).total_margin - pay, 0)
                    &&& final(self).admin == old(self).admin
                    &&& final(self).paused == old(self).paused
                },
            },
    {
        self.active_error()?;
        let mut opt = self.load_option(option_id)?;
        if opt.status != OptionStatus::Active {
            return Err(Error::OptionAlreadySettled);
        }
        if now < opt.expiry {
            return Err(Error::OptionNotExpired);
        }
        match opt.holder {
            None => return Err(Error::NotOptionHolder),
            Some(h) => if h != holder {
                return Err(Error::NotOptionHolder);
            },
        }
        let intr = intrinsic(opt.option_type, opt.strike_price, settlement_price);
        let payout = match intr.checked_mul(opt.size) {
            Some(v) => v / PRICE_PRECISION,
            None => return Err(Error::Overflow),
        };
        let writer_margin = self.load_margin(opt.writer);
        let actual_payout = if payout <= writer_margin {
            payout
        } else {
            writer_margin
        };
        proof {
            assert(intr * opt.size >= 0) by (nonlinear_arith)
                requires intr >= 0, opt.size >= 0;
        }
        self.margins.insert(opt.writer, writer_margin - actual_payout);
        let t = self.total_margin - actual_payout;
        self.total_margin = if t >= 0 {
            t
        } else {
            0
        };
        opt.status = OptionStatus::Exercised;
        opt.settlement_price = settlement_price;
        self.options.set(option_id as usize, opt);
        Ok(actual_payout)
    }

    /// Why `expire_option` fails, if it does.
    pub open spec fn expire_option_error(&self, now: u64, writer: Address, option_id: u32) -> Option<Error> {
        if !self.initialized() {
            Some(Error::NotInitialized)
        } else if self.paused {
            Some(Error::Paused)
        } else if self.spec_option(option_id) is None {
            Some(Error::OptionNotFound)
        } else {
            let o = self.spec_option(option_id).unwrap();
            if o.status != OptionStatus::Active {
                Some(Error::OptionAlreadySettled)
            } else if now < o.expiry {
                Some(Error::OptionNotExpired)
            } else if o.writer != writer {
                Some(Error::Unauthorized)
            } else {
                None
            }
        }
    }

    /// The writer marks an unexercised option expired after its expiry.
    pub fn expire_option(&mut self, now: u64, writer: Address, option_id: u32) -> (r: Result<(), Error>)
        requires
            old(self).wf(),
        ensures
            final(self).wf(),
            match old(self).expire_option_error(now, writer, option_id) {
                Some(e) => r == Err::<(), Error>(e) && *final(self) == *old(self),
                None => {
                    let o = old(self).spec_option(option_id).unwrap();
                    &&& r is Ok
                    &&& final(self).options@ == old(self).options@.update(
                        option_id as int,
                        OptionContract { status: OptionStatus::Expired, ..o },
                    )
                    &&& final(self).margins@ == old(self).margins@
                    &&& final(self).total_margin == old(self).total_margin
                    &&& final(self).admin == old(self).admin
                    &&& final(self).paused == old(self).paused
                },
            },
    {
        self.active_error()?;
        let mut opt = self.load_option(option_id)?;
        if opt.status != OptionStatus::Active {
            return Err(Error::OptionAlreadySettled);
        }
        if now < opt.expiry {
            return Err(Error::OptionNotExpired);
        }
        if opt.writer != writer {
            return Err(Error::Unauthorized);
        }
        opt.status = OptionStatus::Expired;
        self.options.set(option_id as usize, opt);
        Ok(())
    }

    /// Add margin; returns the writer's new margin.
    pub fn deposit_margin(&mut self, writer: Address, amount: i128) -> (r: Result<i128, Error>)
        requires
            old(self).initialized() && !old(self).paused && amount > 0 ==> fits_i128(
                old(self).margin(writer) + amount,
            ) && fits_i128(old(self).total_margin + amount),
        ensures
            !old(self).initialized() ==> r == Err::<i128, Error>(Error::NotInitialized) && *final(self) == *old(self),
            old(self).initialized() && old(self).paused ==> r == Err::<i128, Error>(Error::Paused)
                && *final(self) == *old(self),
            old(self).initialized() && !old(self).paused && amount <= 0 ==> r == Err::<i128, Error>(
                Error::ZeroAmount,
            ) && *final(self) == *old(self),
            old(self).initialized() && !old(self).paused && amount > 0 ==> {
                &&& r == Ok::<i128, Error>((old(self).margin(writer) + amount) as i128)
                &&& final(self).margins@ == old(self).margins@.insert(writer, (old(self).margin(writer) + amount) as i128)
                &&& final(self).total_margin == old(self).total_margin + amount
                &&& final(self).options@ == old(self).options@
                &&& final(self).admin == old(self).admin
                &&& final(self).paused == old(self).paused
            },
    {
        self.active_error()?;
        if amount <= 0 {
            return Err(Error::ZeroAmount);
        }
        let new_margin = self.load_margin(writer) + amount;
        self.margins.insert(writer, new_margin);
        self.total_margin = self.total_margin + amount;
        Ok(new_margin)
    }

    /// Withdraw margin up to the writer's balance; returns the new margin.
    pub fn withdraw_margin(&mut self, writer: Address, amount: i128) -> (r: Result<i128, Error>)
        requires
            old(self).initialized() && !old(self).paused && 0 < amount <= old(self).margin(writer)
                ==> fits_i128(old(self).total_margin - amount),
        ensures
            !old(self).initialized() ==> r == Err::<i128, Error>(Error::NotInitialized) && *final(self) == *old(self),
            old(self).initialized() && old(self).paused ==> r == Err::<i128, Error>(Error::Paused)
                && *final(self) == *old(self),
            old(self).initialized() && !old(self).paused && amount <= 0 ==> r == Err::<i128, Error>(
                Error::ZeroAmount,
            ) && *final(self) == *old(self),
            old(self).initialized() && !old(self).paused && amount > 0 && old(self).margin(writer) < amount
                ==> r == Err::<i128, Error>(Error::InsufficientMargin) && *final(self) == *old(self),
            old(self).initialized() && !old(self).paused && 0 < amount <= old(self).margin(writer) ==> {
                &&& r == Ok::<i128, Error>((old(self).margin(writer) - amount) as i128)
                &&& final(self).margins@ == old(self).margins@.insert(writer, (old(self).margin(writer) - amount) as i128)
                &&& final(self).total_margin == max_int(old(self).total_margin - amount, 0)
                &&& final(self).options@ == old(self).options@
                &&& final(self).admin == old(self).admin
                &&& final(self).paused == old(self).paused
            },
    {
        self.active_error()?;
        if amount <= 0 {
            return Err(Error::ZeroAmount);
        }
        let current = self.load_margin(writer);
        if current < amount {
            return Err(Error::InsufficientMargin);
        }
        let new_margin = current - amount;
        self.margins.insert(writer, new_margin);
        let t = self.total_margin - amount;
        self.total_margin = if t >= 0 {
            t
        } else {
            0
        };
        Ok(new_margin)
    }

    /// The inputs on which `compute_greeks` does not panic.
    pub open spec fn greeks_defined(&self, now: u64, option_id: u32, spot_price: i128, vol_bps: i128) -> bool {
        let o = self.spec_option(option_id).unwrap();
        self.initialized() && 0 < vol_bps <= 100_000 && self.spec_option(option_id) is Some ==> if now
            >= o.expiry {
            intrinsic_fits(o.option_type, o.strike_price as int, spot_price as int) && fits_i128(
                spec_intrinsic(o.option_type, o.strike_price as int, spot_price as int) * o.size,
            )
        } else {
            live_greeks_defined(o.option_type, o.strike_price as int, o.size as int, spot_price as int,
                vol_bps as int, (o.expiry - now) as int)
        }
    }

    /// Black-Scholes Greeks of an option at `spot_price` and implied
    /// volatility `vol_bps` (at most 1000%).
    pub fn compute_greeks(&self, now: u64, option_id: u32, spot_price: i128, vol_bps: i128) -> (r: Result<Greeks, Error>)
        requires
            self.wf(),
            self.greeks_defined(now, option_id, spot_price, vol_bps),
        ensures
            !self.initialized() ==> r == Err::<Greeks, Error>(Error::NotInitialized),
            self.initialized() && !(0 < vol_bps <= 100_000) ==> r == Err::<Greeks, Error>(Error::InvalidVolatility),
            self.initialized() && 0 < vol_bps <= 100_000 && self.spec_option(option_id) is None ==> r == Err::<Greeks, Error>(
                Error::OptionNotFound,
            ),
            self.initialized() && 0 < vol_bps <= 100_000 && self.spec_option(option_id) is Some ==> {
                let o = self.spec_option(option_id).unwrap();
                if now >= o.expiry {
                    r == Ok::<Greeks, Error>(spec_expired_greeks(o.option_type, o.strike_price as int, o.size as int, spot_price as int))
                } else if live_greeks_overflow(o.option_type, o.strike_price as int, spot_price as int, vol_bps as int, (o.expiry - now) as int) {
                    r == Err::<Greeks, Error>(Error::Overflow)
                } else {
                    r == Ok::<Greeks, Error>(spec_live_greeks(o.option_type, o.strike_price as int, o.size as int,
                        spot_price as int, vol_bps as int, (o.expiry - now) as int))
                }
            },
            r is Ok ==> {
                let o = self.spec_option(option_id).unwrap();
                &&& o.option_type == OptionType::Put ==> -1_000_000 <= r->Ok_0.delta <= 0
                &&& o.option_type == OptionType::Call ==> 0 <= r->Ok_0.delta <= 1_000_000
            },
    {
        if self.admin.is_none() {
            return Err(Error::NotInitialized);
        }
        if vol_bps <= 0 || vol_bps > 100_000 {
            return Err(Error::InvalidVolatility);
        }
        let opt = self.load_option(option_id)?;
        proof {
            lemma_delta_by_side(opt.option_type, opt.strike_price as int, opt.size as int, spot_price as int,
                vol_bps as int, (opt.expiry - now) as int);
        }
        if now >= opt.expiry {
            let intr = intrinsic(opt.option_type, opt.strike_price, spot_price);
            let delta = if intr > 0 {
                match opt.option_type {
                    OptionType::Call => GREEK_PRECISION,
                    OptionType::Put => -GREEK_PRECISION,
                }
            } else {
                0
            };
            return Ok(Greeks {
                delta,
                gamma: 0,
                theta: 0,
                vega: 0,
                intrinsic_value: intr * opt.size / PRICE_PRECISION,
                time_value: 0,
            });
        }
        live_greeks(opt.option_type, opt.strike_price, opt.size, spot_price, vol_bps, opt.expiry - now)
    }

    /// Margin requirement of the writer of an option: 20% of the notional
    /// while active (none once settled), against the writer's margin.
    pub fn check_margin(&self, option_id: u32) -> (r: Result<MarginRequirement, Error>)
        ensures
            !self.initialized() ==> r == Err::<MarginRequirement, Error>(Error::NotInitialized),
            self.initialized() && self.spec_option(option_id) is None ==> r == Err::<MarginRequirement, Error>(
                Error::OptionNotFound,
            ),
            self.initialized() && self.spec_option(option_id) is Some ==> {
                let o = self.spec_option(option_id).unwrap();
                let dep = self.margin(o.writer);
                if o.status != OptionStatus::Active {
                    r == Ok::<MarginRequirement, Error>(MarginRequirement { required: 0, deposited: dep as i128, margin_call: false })
                } else if required_margin_overflows(o.strike_price as int, o.size as int) {
                    r == Err::<MarginRequirement, Error>(Error::Overflow)
                } else {
                    let req = spec_required_margin(o.strike_price as int, o.size as int);
                    r == Ok::<MarginRequirement, Error>(MarginRequirement {
                        required: req as i128,
                        deposited: dep as i128,
                        margin_call: dep < req,
                    })
                }
            },
    {
        if self.admin.is_none() {
            return Err(Error::NotInitialized);
        }
        let opt = self.load_option(option_id)?;
        if opt.status != OptionStatus::Active {
            return Ok(MarginRequirement { required: 0, deposited: self.load_margin(opt.writer), margin_call: false });
        }
        let required = required_margin(opt.strike_price, opt.size)?;
        let deposited = self.load_margin(opt.writer);
        Ok(MarginRequirement { required, deposited, margin_call: deposited < required })
    }

    pub fn get_option(&self, option_id: u32) -> (r: Result<OptionContract, Error>)
        ensures
            !self.initialized() ==> r == Err::<OptionContract, Error>(Error::NotInitialized),
            self.initialized() ==> match self.spec_option(option_id) {
                Some(o) => r == Ok::<OptionContract, Error>(o),
                None => r == Err::<OptionContract, Error>(Error::OptionNotFound),
            },
    {
        if self.admin.is_none() {
            return Err(Error::NotInitialized);
        }
        self.load_option(option_id)
    }

    pub fn get_margin_balance(&self, writer: Address) -> (r: Result<i128, Error>)
        ensures
            !self.initialized() ==> r == Err::<i128, Error>(Error::NotInitialized),
            self.initialized() ==> r == Ok::<i128, Error>(self.margin(writer) as i128),
    {
        if self.admin.is_none() {
            return Err(Error::NotInitialized);
        }
        Ok(self.load_margin(writer))
    }

    pub fn get_total_margin(&self) -> (r: Result<i128, Error>)
        ensures
            !self.initialized() ==> r == Err::<i128, Error>(Error::NotInitialized),
            self.initialized() ==> r == Ok::<i128, Error>(self.total_margin),
    {
        if self.admin.is_none() {
            return Err(Error::NotInitialized);
        }
        Ok(self.total_margin)
    }

    pub fn get_option_count(&self) -> (r: Result<u32, Error>)
        requires
            self.wf(),
        ensures
            !self.initialized() ==> r == Err::<u32, Error>(Error::NotInitialized),
            self.initialized() ==> r == Ok::<u32, Error>(self.options@.len() as u32),
    {
        if self.admin.is_none() {
            return Err(Error::NotInitialized);
        }
        Ok(self.options.len() as u32)
    }

    /// The admin pauses or resumes the contract.
    pub fn set_paused(&mut self, admin: Address, paused: bool) -> (r: Result<(), Error>)
        ensures
            !old(self).initialized() ==> r == Err::<(), Error>(Error::NotInitialized) && *final(self) == *old(self),
            old(self).initialized() && old(self).admin != Some(admin) ==> r == Err::<(), Error>(Error::Unauthorized)
                && *final(self) == *old(self),
            old(self).admin == Some(admin) ==> r is Ok && final(self).paused == paused
                && final(self).admin == old(self).admin && final(self).options@ == old(self).options@
                && final(self).margins@ == old(self).margins@ && final(self).total_margin == old(self).total_margin,
    {
        match self.admin {
            None => Err(Error::NotInitialized),
            Some(a) => {
                if a != admin {
                    return Err(Error::Unauthorized);
                }
                self.paused = paused;
                Ok(())
            },
        }
    }
}

} // verus!
