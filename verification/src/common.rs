//! Definitions shared by the contract models.
use vstd::prelude::*;

verus! {

/// An account or contract address.  The host's opaque address is modelled by
/// a number that identifies it; contracts only ever compare addresses.
pub type Address = u64;

/// Rust's truncating integer division, for a positive divisor or a
/// non-negative dividend (the cases the contracts use).
pub open spec fn tdiv(a: int, b: int) -> int {
    if a >= 0 {
        a / b
    } else {
        -((-a) / b)
    }
}

/// Rust's truncating remainder, matching `tdiv`.
pub open spec fn trem(a: int, b: int) -> int {
    if a >= 0 {
        a % b
    } else {
        -((-a) % b)
    }
}

/// The value fits in an `i128`.
pub open spec fn fits_i128(x: int) -> bool {
    i128::MIN <= x <= i128::MAX
}

/// The value fits in an `i64`.
pub open spec fn fits_i64(x: int) -> bool {
    i64::MIN <= x <= i64::MAX
}

pub open spec fn max_int(a: int, b: int) -> int {
    if a >= b {
        a
    } else {
        b
    }
}

pub open spec fn min_int(a: int, b: int) -> int {
    if a <= b {
        a
    } else {
        b
    }
}

/// `x.clamp(lo, hi)` for `lo <= hi`.
pub open spec fn clamp_int(x: int, lo: int, hi: int) -> int {
    if x < lo {
        lo
    } else if x > hi {
        hi
    } else {
        x
    }
}

/// `i128::saturating_add` / `saturating_sub` land here: the exact value
/// pinned to the `i128` range.
pub open spec fn sat_i128(x: int) -> int {
    clamp_int(x, i128::MIN as int, i128::MAX as int)
}

/// The exact value pinned to the `i64` range.
pub open spec fn sat_i64(x: int) -> int {
    clamp_int(x, i64::MIN as int, i64::MAX as int)
}

/// `a.saturating_add(b)` on `i128`.
pub fn i128_saturating_add(a: i128, b: i128) -> (r: i128)
    ensures
        r == sat_i128(a + b),
{
    if b >= 0 {
        if a > i128::MAX - b {
            i128::MAX
        } else {
            a + b
        }
    } else {
        if a < i128::MIN - b {
            i128::MIN
        } else {
            a + b
        }
    }
}

/// `a.saturating_sub(b)` on `i128`.
pub fn i128_saturating_sub(a: i128, b: i128) -> (r: i128)
    ensures
        r == sat_i128(a - b),
{
    if b >= 0 {
        if a < i128::MIN + b {
            i128::MIN
        } else {
            a - b
        }
    } else {
        if a > i128::MAX + b {
            i128::MAX
        } else {
            a - b
        }
    }
}

/// `a.saturating_add(b)` on `i64`.
pub fn i64_saturating_add(a: i64, b: i64) -> (r: i64)
    ensures
        r == sat_i64(a + b),
{
    if b >= 0 {
        if a > i64::MAX - b {
            i64::MAX
        } else {
            a + b
        }
    } else {
        if a < i64::MIN - b {
            i64::MIN
        } else {
            a + b
        }
    }
}

/// Absolute value.
pub open spec fn abs_int(a: int) -> int {
    if a >= 0 {
        a
    } else {
        -a
    }
}

/// Rust's truncating division for a divisor of either sign: the quotient
/// of the magnitudes, negated when the signs differ.
pub open spec fn tdiv_signed(a: int, b: int) -> int {
    if (a >= 0) == (b > 0) {
        abs_int(a) / abs_int(b)
    } else {
        -(abs_int(a) / abs_int(b))
    }
}

/// `a / b` on `i128` for a divisor of either sign.
pub fn div_trunc(a: i128, b: i128) -> (r: i128)
    requires
        b != 0,
        !(a == i128::MIN && b == -1),
    ensures
        r == tdiv_signed(a as int, b as int),
{
    if b > 0 {
        if a >= 0 {
            a / b
        } else {
            assert((-(a as int)) / (b as int) <= -(a as int)) by (nonlinear_arith)
                requires a < 0, b > 0;
            if a == i128::MIN {
                let q = (a + b) / b;
                proof {
                    let qq = (-(a as int)) / (b as int);
                    vstd::arithmetic::div_mod::lemma_fundamental_div_mod(-(a as int), b as int);
                    vstd::arithmetic::div_mod::lemma_fundamental_div_mod(-(a as int) - b, b as int);
                    vstd::arithmetic::div_mod::lemma_div_plus_one(-(a as int) - b, b as int);
                }
                q - 1
            } else {
                -((-a) / b)
            }
        }
    } else if b == i128::MIN {
        if a == i128::MIN {
            1
        } else {
            proof {
                vstd::arithmetic::div_mod::lemma_small_div_converse(abs_int(a as int), abs_int(b as int));
                assert(abs_int(a as int) < abs_int(b as int));
                vstd::arithmetic::div_mod::lemma_basic_div(abs_int(a as int), abs_int(b as int));
            }
            0
        }
    } else {
        let nb = -b;
        if a >= 0 {
            -(a / nb)
        } else if a == i128::MIN {
            let q = (a + nb) / nb;
            proof {
                vstd::arithmetic::div_mod::lemma_fundamental_div_mod(-(a as int), nb as int);
                vstd::arithmetic::div_mod::lemma_fundamental_div_mod(-(a as int) - nb, nb as int);
                vstd::arithmetic::div_mod::lemma_div_plus_one(-(a as int) - nb, nb as int);
            }
            1 - q
        } else {
            (-a) / nb
        }
    }
}

/// `a.saturating_mul(b)` on `i128`.
pub fn i128_saturating_mul(a: i128, b: i128) -> (r: i128)
    ensures
        r == sat_i128(a * b),
{
    match a.checked_mul(b) {
        Some(v) => v,
        None => {
            if (a >= 0) == (b >= 0) {
                assert(a * b >= 0) by (nonlinear_arith)
                    requires (a >= 0) == (b >= 0);
                i128::MAX
            } else {
                assert(a * b <= 0) by (nonlinear_arith)
                    requires (a >= 0) != (b >= 0);
                i128::MIN
            }
        },
    }
}

/// A host string or byte string, held as its bytes.
pub type Text = Vec<u8>;

/// Byte-wise equality of two texts.
pub fn text_eq(a: &Text, b: &Text) -> (r: bool)
    ensures
        r == (a@ == b@),
{
    if a.len() != b.len() {
        return false;
    }
    let mut i: usize = 0;
    while i < a.len()
        invariant
            a@.len() == b@.len(),
            0 <= i <= a@.len(),
            forall|k: int| 0 <= k < i ==> a@[k] == b@[k],
        decreases a@.len() - i,
    {
        if a[i] != b[i] {
            return false;
        }
        i = i + 1;
    }
    assert(a@ == b@);
    true
}

/// A copy of a text.
pub fn text_copy(a: &Text) -> (c: Text)
    ensures
        c@ == a@,
{
    let mut c: Text = Vec::new();
    let mut i: usize = 0;
    while i < a.len()
        invariant
            0 <= i <= a@.len(),
            c@ == a@.subrange(0, i as int),
        decreases a@.len() - i,
    {
        c.push(a[i]);
        i = i + 1;
    }
    assert(a@.subrange(0, a@.len() as int) == a@);
    c
}

/// `j` is the first index of `s` whose element satisfies `p`.
pub open spec fn is_first_match<T>(s: Seq<T>, p: spec_fn(T) -> bool, j: int) -> bool {
    &&& 0 <= j < s.len()
    &&& p(s[j])
    &&& forall|k: int| 0 <= k < j ==> !p(s[k])
}

/// The index of the first element of `s` satisfying `p`, if any.
pub open spec fn first_match<T>(s: Seq<T>, p: spec_fn(T) -> bool) -> Option<int> {
    if exists|i: int| 0 <= i < s.len() && p(s[i]) {
        Some(choose|j: int| is_first_match(s, p, j))
    } else {
        None
    }
}

proof fn lemma_first_match_exists<T>(s: Seq<T>, p: spec_fn(T) -> bool, w: int)
    requires
        0 <= w < s.len(),
        p(s[w]),
    ensures
        exists|j: int| is_first_match(s, p, j),
    decreases w,
{
    if exists|k: int| 0 <= k < w && p(s[k]) {
        let k = choose|k: int| 0 <= k < w && p(s[k]);
        lemma_first_match_exists(s, p, k);
    } else {
        assert(is_first_match(s, p, w));
    }
}

/// A first match found by a scan is the first match.
pub proof fn lemma_first_match_is<T>(s: Seq<T>, p: spec_fn(T) -> bool, j: int)
    requires
        is_first_match(s, p, j),
    ensures
        first_match(s, p) == Some(j),
{
    lemma_first_match_exists(s, p, j);
    let c = choose|i: int| is_first_match(s, p, i);
    assert(is_first_match(s, p, c));
    if c < j {
        assert(!p(s[c]));
    } else if j < c {
        assert(!p(s[j]));
    }
}

/// A scan that found no match.
pub proof fn lemma_first_match_none<T>(s: Seq<T>, p: spec_fn(T) -> bool)
    requires
        forall|k: int| 0 <= k < s.len() ==> !p(s[k]),
    ensures
        first_match(s, p) is None,
{
}

/// The match of `first_match` satisfies `p` and lies in range.
pub proof fn lemma_first_match_some<T>(s: Seq<T>, p: spec_fn(T) -> bool)
    requires
        first_match(s, p) is Some,
    ensures
        is_first_match(s, p, first_match(s, p).unwrap()),
{
    let w = choose|i: int| 0 <= i < s.len() && p(s[i]);
    lemma_first_match_exists(s, p, w);
}

/// Position at which a keyed write lands: the first match, or the end.
pub open spec fn write_index(m: Option<int>, len: int) -> int {
    match m {
        Some(i) => i,
        None => len,
    }
}

/// `s` with `x` at the write position of `m`.
pub open spec fn written<T>(s: Seq<T>, m: Option<int>, x: T) -> Seq<T> {
    match m {
        Some(i) => s.update(i, x),
        None => s.push(x),
    }
}

} // verus!
