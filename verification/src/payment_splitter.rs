//! Splits a payment equally among distinct recipients; the remainder goes
//! one unit each to the first recipients, so that the shares always add up
//! to exactly the amount.
use vstd::prelude::*;
use crate::common::Address;

verus! {

pub const MAX_RECIPIENTS: u32 = 100;

#[derive(Clone, Copy, Debug, PartialEq, Eq, Structural)]
pub enum Error {
    ZeroAmount,
    NoRecipients,
    TooManyRecipients,
    DuplicateRecipient,
    AmountTooSmall,
    PayerIsRecipient,
}

/// The contract keeps no storage.
pub struct PaymentSplitter;

/// No address occurs twice.
pub open spec fn distinct(s: Seq<Address>) -> bool {
    forall|i: int, j: int| 0 <= i < j < s.len() ==> s[i] != s[j]
}

/// Why a split of `amount` among `recipients` is refused, if it is.
pub open spec fn split_error(amount: i128, recipients: Seq<Address>) -> Option<Error> {
    if amount <= 0 {
        Some(Error::ZeroAmount)
    } else if recipients.len() == 0 {
        Some(Error::NoRecipients)
    } else if recipients.len() > MAX_RECIPIENTS {
        Some(Error::TooManyRecipients)
    } else if !distinct(recipients) {
        Some(Error::DuplicateRecipient)
    } else if amount < recipients.len() {
        Some(Error::AmountTooSmall)
    } else {
        None
    }
}

/// Share of recipient `i`: `amount / n`, plus one for the first
/// `amount % n` recipients.
pub open spec fn share_of(amount: int, n: int, i: int) -> int {
    amount / n + if i < amount % n {
        1int
    } else {
        0int
    }
}

pub open spec fn spec_shares(amount: int, n: int) -> Seq<int> {
    Seq::new(n as nat, |i: int| share_of(amount, n, i))
}

/// Sum of a sequence of integers.
pub open spec fn seq_sum(s: Seq<int>) -> int
    decreases s.len(),
{
    if s.len() == 0 {
        0
    } else {
        seq_sum(s.drop_last()) + s.last()
    }
}

proof fn lemma_prefix_sum(amount: int, n: int, k: int)
    requires
        amount >= 0,
        n > 0,
        0 <= k <= n,
    ensures
        seq_sum(spec_shares(amount, n).take(k)) == k * (amount / n) + if k < amount % n {
            k
        } else {
            amount % n
        },
    decreases k,
{
    vstd::arithmetic::div_mod::lemma_mod_pos_bound(amount, n);
    if k == 0 {
        assert(spec_shares(amount, n).take(0).len() == 0);
        assert(0 * (amount / n) == 0) by (nonlinear_arith);
    } else {
        lemma_prefix_sum(amount, n, k - 1);
        let s = spec_shares(amount, n).take(k);
        assert(s.drop_last() == spec_shares(amount, n).take(k - 1));
        assert(s.last() == share_of(amount, n, k - 1));
        assert(k * (amount / n) == (k - 1) * (amount / n) + amount / n) by (nonlinear_arith);
    }
}

/// Splitting never creates or loses value: the shares add up to exactly
/// the amount, and any two shares differ by at most one unit.
pub proof fn lemma_split_conserves_value(amount: int, n: int)
    requires
        amount > 0,
        n > 0,
    ensures
        seq_sum(spec_shares(amount, n)) == amount,
        forall|i: int, j: int| 0 <= i < n && 0 <= j < n ==> spec_shares(amount, n)[i] - spec_shares(amount, n)[j] <= 1,
{
    lemma_prefix_sum(amount, n, n);
    assert(spec_shares(amount, n).take(n) == spec_shares(amount, n));
    vstd::arithmetic::div_mod::lemma_fundamental_div_mod(amount, n);
    vstd::arithmetic::div_mod::lemma_mod_pos_bound(amount, n);
    assert(n * (amount / n) == (amount / n) * n) by (nonlinear_arith);
}

impl PaymentSplitter {
    /// Validate and compute the shares of `amount` among `recipients`.
    pub fn split_shares(amount: i128, recipients: &Vec<Address>) -> (r: Result<Vec<i128>, Error>)
        ensures
            match split_error(amount, recipients@) {
                Some(e) => r == Err::<Vec<i128>, Error>(e),
                None => r is Ok && r->Ok_0@.map_values(|v: i128| v as int) == spec_shares(
                    amount as int,
                    recipients@.len() as int,
                ),
            },
    {
        if amount <= 0 {
            return Err(Error::ZeroAmount);
        }
        let count = recipients.len();
        if count == 0 {
            return Err(Error::NoRecipients);
        }
        if count > MAX_RECIPIENTS as usize {
            return Err(Error::TooManyRecipients);
        }
        let mut i: usize = 0;
        let mut dup = false;
        while i < count
            invariant_except_break
                !dup,
            invariant
                count == recipients@.len(),
                0 <= i <= count,
                forall|a: int, b: int| 0 <= a < i && a < b < count ==> recipients@[a] != recipients@[b],
            ensures
                !dup ==> distinct(recipients@),
                dup ==> !distinct(recipients@),
            decreases count - i,
        {
            let current = recipients[i];
            let mut j: usize = i + 1;
            while j < count
                invariant_except_break
                    !dup,
                invariant
                    count == recipients@.len(),
                    0 <= i < count,
                    current == recipients@[i as int],
                    i + 1 <= j <= count,
                    forall|b: int| i < b < j ==> recipients@[i as int] != recipients@[b],
                ensures
                    dup ==> !distinct(recipients@),
                    !dup ==> forall|b: int| i < b < count ==> recipients@[i as int] != recipients@[b],
                decreases count - j,
            {
                if current == recipients[j] {
                    dup = true;
                    break;
                }
                j = j + 1;
            }
            if dup {
                break;
            }
            i = i + 1;
        }
        if dup {
            return Err(Error::DuplicateRecipient);
        }
        let count_i128 = count as i128;
        if amount < count_i128 {
            return Err(Error::AmountTooSmall);
        }
        let base = amount / count_i128;
        let remainder = amount % count_i128;
        let mut shares: Vec<i128> = Vec::new();
        let mut k: usize = 0;
        while k < count
            invariant
                0 <= k <= count,
                count == recipients@.len(),
                count_i128 == count,
                0 < count <= 100,
                amount > 0,
                base == amount / count_i128,
                remainder == amount % count_i128,
                shares@.len() == k,
                forall|t: int| 0 <= t < k ==> shares@[t] == share_of(amount as int, count as int, t),
            decreases count - k,
        {
            let extra: i128 = if (k as i128) < remainder {
                1
            } else {
                0
            };
            proof {
                vstd::arithmetic::div_mod::lemma_div_pos_is_pos(amount as int, count as int);
                vstd::arithmetic::div_mod::lemma_div_is_ordered_by_denominator(amount as int, 1, count as int);
                if extra == 1 {
                    if count == 1 {
                        vstd::arithmetic::div_mod::lemma_mod_self_0(1);
                        vstd::arithmetic::div_mod::lemma_small_mod(0, 1);
                        assert(amount % 1 == 0);
                    }
                    vstd::arithmetic::div_mod::lemma_div_is_ordered_by_denominator(amount as int, 2, count as int);
                    assert(base <= amount / 2);
                }
            }
            shares.push(base + extra);
            k = k + 1;
        }
        proof {
            assert(shares@.map_values(|v: i128| v as int) =~= spec_shares(amount as int, count as int));
        }
        Ok(shares)
    }

    /// The shares a split would pay, without paying.
    pub fn preview_split(amount: i128, recipients: &Vec<Address>) -> (r: Result<Vec<i128>, Error>)
        ensures
            match split_error(amount, recipients@) {
                Some(e) => r == Err::<Vec<i128>, Error>(e),
                None => r is Ok && r->Ok_0@.map_values(|v: i128| v as int) == spec_shares(
                    amount as int,
                    recipients@.len() as int,
                ),
            },
    {
        Self::split_shares(amount, recipients)
    }

    /// Split a payment from `from`: validate, refuse a payer that is also a
    /// recipient, and return the amount the host transfers to each recipient
    /// in order.
    pub fn split(from: Address, amount: i128, recipients: &Vec<Address>) -> (r: Result<Vec<i128>, Error>)
        ensures
            match split_error(amount, recipients@) {
                Some(e) => r == Err::<Vec<i128>, Error>(e),
                None => if recipients@.contains(from) {
                    r == Err::<Vec<i128>, Error>(Error::PayerIsRecipient)
                } else {
                    r is Ok && r->Ok_0@.map_values(|v: i128| v as int) == spec_shares(
                        amount as int,
                        recipients@.len() as int,
                    )
                },
            },
    {
        let shares = Self::split_shares(amount, recipients)?;
        let mut i: usize = 0;
        let mut found = false;
        while i < recipients.len()
            invariant_except_break
                !found,
            invariant
                0 <= i <= recipients@.len(),
                forall|k: int| 0 <= k < i ==> recipients@[k] != from,
            ensures
                found ==> i < recipients@.len() && recipients@[i as int] == from,
                !found ==> !recipients@.contains(from),
            decreases recipients@.len() - i,
        {
            if recipients[i] == from {
                found = true;
                break;
            }
            i = i + 1;
        }
        if found {
            return Err(Error::PayerIsRecipient);
        }
        Ok(shares)
    }
}

} // verus!
