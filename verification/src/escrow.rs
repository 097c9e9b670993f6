//! Freelancer escrow: milestone-based payment agreements between a client
//! and a freelancer with an arbiter for disputes, and bilateral SHA-256
//! hash-time-locked atomic swaps.
//!
//! Each atomic-swap entry point returns the token movements that the host
//! carries out after it succeeds.
use vstd::prelude::*;
use std::collections::HashMap;
use crate::common::{Address, fits_i128, sat_i128, tdiv_signed, div_trunc, i128_saturating_sub};

verus! {

broadcast use vstd::std_specs::hash::group_hash_axioms;

/// Shortest allowed time lock of a swap, in seconds.
pub const MIN_TIMELOCK_SECONDS: u64 = 60;
/// Longest allowed time lock of a swap: 30 days.
pub const MAX_TIMELOCK_SECONDS: u64 = 2_592_000;
/// Longest accepted preimage.
pub const MAX_PREIMAGE_BYTES: usize = 64;
/// Most milestones one escrow may have.
pub const MAX_MILESTONES: usize = 20;

#[derive(Clone, Copy, Debug, PartialEq, Eq, Structural)]
pub enum Error {
    AlreadyInitialized,
    NotInitialized,
    InvalidFeeBps,
    InvalidAmount,
    NoMilestones,
    TooManyMilestones,
    EscrowNotFound,
    MilestoneNotFound,
    Unauthorized,
    InvalidState,
    InvalidRuling,
    InvalidSwap,
    SameAsset,
    TimelockOutOfRange,
    InvalidHashlock,
    SwapNotFound,
    SwapExpired,
    SwapNotExpired,
    InvalidPreimage,
    Overflow,
}

#[derive(Clone, Copy, Debug, PartialEq, Eq, Structural)]
pub enum EscrowStatus {
    Pending,
    Active,
    Completed,
    Disputed,
    Cancelled,
}

#[derive(Clone, Copy, Debug, PartialEq, Eq, Structural)]
pub enum MilestoneStatus {
    Pending,
    InProgress,
    UnderReview,
    Approved,
    Paid,
}

#[derive(Clone, Copy, Debug, PartialEq, Eq, Structural)]
pub enum Ruling {
    FreelancerFavored,
    ClientFavored,
    Split,
}

#[derive(Clone, Copy, Debug, PartialEq, Eq, Structural)]
pub enum AtomicSwapStatus {
    AwaitingCounterparty,
    Funded,
    Claimed,
    Refunded,
    Cancelled,
}

#[derive(Clone, Copy, Debug, PartialEq, Eq, Structural)]
pub struct Analytics {
    pub total_escrows: u32,
    pub active_escrows: u32,
    pub completed_escrows: u32,
    pub disputed_escrows: u32,
    pub cancelled_escrows: u32,
    pub total_value_locked: i128,
    pub total_paid_out: i128,
}

#[derive(Clone, Copy, Debug, PartialEq, Eq, Structural)]
pub struct AtomicSwapStats {
    pub total: u64,
    pub active: u64,
    pub claimed: u64,
    pub refunded: u64,
    pub cancelled: u64,
}

#[derive(Clone, Copy, Debug, PartialEq, Eq, Structural)]
pub struct Escrow {
    pub id: u32,
    pub client: Address,
    pub freelancer: Address,
    pub arbiter: Address,
    pub total_amount: i128,
    pub paid_amount: i128,
    pub milestone_count: u32,
    pub status: EscrowStatus,
    pub created_at: u64,
    pub arbiter_fee_bps: u32,
}

#[derive(Clone, Copy, Debug, PartialEq, Eq, Structural)]
pub struct Milestone {
    pub id: u32,
    pub amount: i128,
    pub status: MilestoneStatus,
}

/// Which way a swap leg moves relative to the contract's custody.
#[derive(Clone, Copy, Debug, PartialEq, Eq, Structural)]
pub enum Custody {
    /// From the account into the contract.
    Lock,
    /// From the contract back out to the account.
    Release,
}

/// A movement of `amount` of `token` between the contract and `account`,
/// which the host carries out after a successful swap call.
#[derive(Clone, Copy, Debug, PartialEq, Eq, Structural)]
pub struct SwapTransfer {
    pub direction: Custody,
    pub token: Address,
    pub account: Address,
    pub amount: i128,
}

#[derive(Clone, Debug)]
pub struct AtomicSwap {
    pub id: u64,
    pub maker: Address,
    pub taker: Address,
    pub offered_token: Address,
    pub offered_amount: i128,
    pub requested_token: Address,
    pub requested_amount: i128,
    pub hashlock: [u8; 32],
    pub expires_at: u64,
    pub status: AtomicSwapStatus,
    pub revealed_preimage: Option<Vec<u8>>,
    pub created_at: u64,
    pub funded_at: Option<u64>,
    pub settled_at: Option<u64>,
}

/// The escrow contract's storage.  Escrow `id` is `escrows[id - 1]`, swap
/// `id` is `swaps[id - 1]`, and milestone `m` of escrow `e` is stored under
/// `milestone_key(e, m)`.
pub struct FreelancerEscrow {
    pub admin: Option<Address>,
    pub arbiter_fee_bps: u32,
    pub analytics: Analytics,
    pub escrows: Vec<Escrow>,
    pub milestones: HashMap<u64, Milestone>,
    pub swaps: Vec<AtomicSwap>,
    pub swap_stats: AtomicSwapStats,
}

/// The storage key of milestone `milestone_id` of escrow `escrow_id`.
pub open spec fn milestone_key(escrow_id: u32, milestone_id: u32) -> u64 {
    (escrow_id as int * 0x1_0000_0000 + milestone_id as int) as u64
}

fn milestone_key_of(escrow_id: u32, milestone_id: u32) -> (k: u64)
    ensures
        k == milestone_key(escrow_id, milestone_id),
{
    escrow_id as u64 * 0x1_0000_0000 + milestone_id as u64
}

/// `x.saturating_sub(1)` on a counter.
pub open spec fn dec_sat(x: u32) -> u32 {
    if x == 0 {
        0
    } else {
        (x - 1) as u32
    }
}

/// The sum of a sequence of amounts.
pub open spec fn seq_sum(s: Seq<i128>) -> int
    decreases s.len(),
{
    if s.len() == 0 {
        0
    } else {
        seq_sum(s.drop_last()) + s.last()
    }
}

/// Every amount is positive.
pub open spec fn all_positive(s: Seq<i128>) -> bool {
    forall|j: int| 0 <= j < s.len() ==> s[j] > 0
}

/// Adding up the positive amounts in front never leaves the `i128` range.
pub open spec fn milestone_sums_fit(s: Seq<i128>) -> bool {
    forall|k: int| 0 <= k <= s.len() && #[trigger] all_positive(s.take(k)) ==> seq_sum(s.take(k)) <= i128::MAX
}

/// `m` with the first `n` milestones of a new escrow stored.
pub open spec fn with_milestones(m: Map<u64, Milestone>, escrow_id: u32, amounts: Seq<i128>, n: nat) -> Map<u64, Milestone>
    decreases n,
{
    if n == 0 {
        m
    } else {
        with_milestones(m, escrow_id, amounts, (n - 1) as nat).insert(
            milestone_key(escrow_id, n as u32),
            Milestone { id: n as u32, amount: amounts[n - 1], status: MilestoneStatus::Pending },
        )
    }
}

/// A swap with its progress fields replaced.
pub open spec fn swap_with(
    o: AtomicSwap,
    status: AtomicSwapStatus,
    funded_at: Option<u64>,
    settled_at: Option<u64>,
    revealed: Option<Vec<u8>>,
) -> AtomicSwap {
    AtomicSwap { status, funded_at, settled_at, revealed_preimage: revealed, ..o }
}

/// `new_preimage` when given, else `current`.
pub open spec fn preimage_or(new_preimage: Option<Vec<u8>>, current: Option<Vec<u8>>) -> Option<Vec<u8>> {
    match new_preimage {
        Some(_) => new_preimage,
        None => current,
    }
}

/// The hash lock is all zero bytes.
pub open spec fn is_zero_hash(h: Seq<u8>) -> bool {
    forall|i: int| 0 <= i < h.len() ==> h[i] == 0
}

fn zero_hash(h: &[u8; 32]) -> (r: bool)
    ensures
        r == is_zero_hash(h@),
{
    let mut i: usize = 0;
    while i < 32
        invariant
            0 <= i <= 32,
            h@.len() == 32,
            forall|j: int| 0 <= j < i ==> h@[j] == 0,
        decreases 32 - i,
    {
        if h[i] != 0 {
            return false;
        }
        i = i + 1;
    }
    true
}

/// The SHA-256 digest that the Soroban host computes for a byte string.
pub uninterp spec fn host_sha256_digest(data: Seq<u8>) -> Seq<u8>;

/// `Crypto::sha256` of soroban-sdk (the host's SHA-256) on `data`.
/// Trusted: the result is the digest of `data` alone, 32 bytes long as its
/// `Hash<32>` type fixes.
#[verifier::external_body]
fn host_sha256(env: &soroban_sdk::Env, data: &[u8]) -> (d: Vec<u8>)
    ensures
        d@ == host_sha256_digest(data@),
        d@.len() == 32,
{
    env.crypto().sha256(&soroban_sdk::Bytes::from_slice(env, data)).to_array().to_vec()
}

fn digest_matches(d: &Vec<u8>, h: &[u8; 32]) -> (r: bool)
    ensures
        r == (d@ == h@),
{
    if d.len() != 32 {
        return false;
    }
    let mut i: usize = 0;
    while i < 32
        invariant
            0 <= i <= 32,
            d@.len() == 32,
            h@.len() == 32,
            forall|j: int| 0 <= j < i ==> d@[j] == h@[j],
        decreases 32 - i,
    {
        if d[i] != h[i] {
            return false;
        }
        i = i + 1;
    }
    assert(d@ =~= h@);
    true
}

impl FreelancerEscrow {
    pub open spec fn initialized(&self) -> bool {
        self.admin is Some
    }

    /// Ids match positions, stored fees are basis points, amounts are
    /// positive and payments never negative.
    pub open spec fn wf(&self) -> bool {
        &&& self.escrows@.len() <= u32::MAX
        &&& self.swaps@.len() <= u64::MAX
        &&& self.arbiter_fee_bps <= 10_000
        &&& forall|i: int| 0 <= i < self.escrows@.len() ==> {
            let e = #[trigger] self.escrows@[i];
            &&& e.id == i + 1
            &&& e.arbiter_fee_bps <= 10_000
            &&& e.total_amount > 0
            &&& e.paid_amount >= 0
        }
        &&& forall|i: int| 0 <= i < self.swaps@.len() ==> (#[trigger] self.swaps@[i]).id == i + 1
        &&& forall|k: u64| #[trigger] self.milestones@.contains_key(k) ==> self.milestones@[k].amount > 0
    }

    pub open spec fn spec_escrow(&self, id: u32) -> Option<Escrow> {
        if 1 <= id <= self.escrows@.len() {
            Some(self.escrows@[id - 1])
        } else {
            None
        }
    }

    pub open spec fn spec_milestone(&self, escrow_id: u32, milestone_id: u32) -> Option<Milestone> {
        let k = milestone_key(escrow_id, milestone_id);
        if self.milestones@.contains_key(k) {
            Some(self.milestones@[k])
        } else {
            None
        }
    }

    pub open spec fn spec_swap(&self, id: u64) -> Option<AtomicSwap> {
        if 1 <= id <= self.swaps@.len() {
            Some(self.swaps@[id - 1])
        } else {
            None
        }
    }

    /// Storage before `initialize`.
    pub fn new() -> (s: Self)
        ensures
            s.wf(),
            !s.initialized(),
            s.escrows@.len() == 0,
            s.swaps@.len() == 0,
            s.milestones@ == Map::<u64, Milestone>::empty(),
    {
        FreelancerEscrow {
            admin: None,
            arbiter_fee_bps: 0,
            analytics: Analytics {
                total_escrows: 0,
                active_escrows: 0,
                completed_escrows: 0,
                disputed_escrows: 0,
                cancelled_escrows: 0,
                total_value_locked: 0,
                total_paid_out: 0,
            },
            escrows: Vec::new(),
            milestones: HashMap::new(),
            swaps: Vec::new(),
            swap_stats: AtomicSwapStats { total: 0, active: 0, claimed: 0, refunded: 0, cancelled: 0 },
        }
    }

    /// Set the admin and the arbiter fee (basis points, at most 10 000) and
    /// zero the analytics.
    pub fn initialize(&mut self, admin: Address, arbiter_fee_bps: u32) -> (r: Result<(), Error>)
        requires
            old(self).wf(),
        ensures
            final(self).wf(),
            old(self).initialized() ==> r == Err::<(), Error>(Error::AlreadyInitialized) && *final(self) == *old(self),
            !old(self).initialized() && arbiter_fee_bps > 10_000 ==> r == Err::<(), Error>(Error::InvalidFeeBps)
                && *final(self) == *old(self),
            !old(self).initialized() && arbiter_fee_bps <= 10_000 ==> {
                &&& r is Ok
                &&& final(self).admin == Some(admin)
                &&& final(self).arbiter_fee_bps == arbiter_fee_bps
                &&& final(self).analytics == (Analytics {
                    total_escrows: 0,
                    active_escrows: 0,
                    completed_escrows: 0,
                    disputed_escrows: 0,
                    cancelled_escrows: 0,
                    total_value_locked: 0,
                    total_paid_out: 0,
                })
                &&& final(self).escrows@ == old(self).escrows@
                &&& final(self).milestones@ == old(self).milestones@
                &&& final(self).swaps@ == old(self).swaps@
                &&& final(self).swap_stats == old(self).swap_stats
            },
    {
        if self.admin.is_some() {
            return Err(Error::AlreadyInitialized);
        }
        if arbiter_fee_bps > 10_000 {
            return Err(Error::InvalidFeeBps);
        }
        self.admin = Some(admin);
        self.arbiter_fee_bps = arbiter_fee_bps;
        self.analytics = Analytics {
            total_escrows: 0,
            active_escrows: 0,
            completed_escrows: 0,
            disputed_escrows: 0,
            cancelled_escrows: 0,
            total_value_locked: 0,
            total_paid_out: 0,
        };
        Ok(())
    }

    // ── Atomic swaps ──────────────────────────────────────────────────────

    /// Why `create_atomic_swap` fails, if it does.
    pub open spec fn create_swap_error(
        &self,
        now: u64,
        maker: Address,
        taker: Address,
        offered_token: Address,
        offered_amount: i128,
        requested_token: Address,
        requested_amount: i128,
        hashlock: Seq<u8>,
        expires_at: u64,
    ) -> Option<Error> {
        if !self.initialized() {
            Some(Error::NotInitialized)
        } else if maker == taker {
            Some(Error::InvalidSwap)
        } else if offered_token == requested_token {
            Some(Error::SameAsset)
        } else if offered_amount <= 0 || requested_amount <= 0 {
            Some(Error::InvalidAmount)
        } else if now + MIN_TIMELOCK_SECONDS > u64::MAX || now + MAX_TIMELOCK_SECONDS > u64::MAX {
            Some(Error::Overflow)
        } else if expires_at < now + MIN_TIMELOCK_SECONDS || expires_at > now + MAX_TIMELOCK_SECONDS {
            Some(Error::TimelockOutOfRange)
        } else if is_zero_hash(hashlock) {
            Some(Error::InvalidHashlock)
        } else if self.swaps@.len() + 1 > u64::MAX {
            Some(Error::Overflow)
        } else if self.swap_stats.total + 1 > u64::MAX || self.swap_stats.active + 1 > u64::MAX {
            Some(Error::Overflow)
        } else {
            None
        }
    }

    /// The maker locks `offered_amount` of `offered_token` under `hashlock`
    /// until `expires_at`; the taker is to lock `requested_amount` of
    /// `requested_token`.  Returns the swap id and the transfer that locks
    /// `offered_amount` of `offered_token` from the maker.
    pub fn create_atomic_swap(
        &mut self,
        now: u64,
        maker: Address,
        taker: Address,
        offered_token: Address,
        offered_amount: i128,
        requested_token: Address,
        requested_amount: i128,
        hashlock: [u8; 32],
        expires_at: u64,
    ) -> (r: Result<(u64, SwapTransfer), Error>)
        requires
            old(self).wf(),
        ensures
            final(self).wf(),
            match old(self).create_swap_error(
                now,
                maker,
                taker,
                offered_token,
                offered_amount,
                requested_token,
                requested_amount,
                hashlock@,
                expires_at,
            ) {
                Some(e) => r == Err::<(u64, SwapTransfer), Error>(e) && *final(self) == *old(self),
                None => {
                    let id = (old(self).swaps@.len() + 1) as u64;
                    &&& r == Ok::<(u64, SwapTransfer), Error>(
                        (
                            id,
                            SwapTransfer {
                                direction: Custody::Lock,
                                token: offered_token,
                                account: maker,
                                amount: offered_amount,
                            },
                        ),
                    )
                    &&& final(self).swaps@ == old(self).swaps@.push(
                        AtomicSwap {
                            id,
                            maker,
                            taker,
                            offered_token,
                            offered_amount,
                            requested_token,
                            requested_amount,
                            hashlock,
                            expires_at,
                            status: AtomicSwapStatus::AwaitingCounterparty,
                            revealed_preimage: None,
                            created_at: now,
                            funded_at: None,
                            settled_at: None,
                        },
                    )
                    &&& final(self).swap_stats == (AtomicSwapStats {
                        total: (old(self).swap_stats.total + 1) as u64,
                        active: (old(self).swap_stats.active + 1) as u64,
                        ..old(self).swap_stats
                    })
                    &&& final(self).escrows@ == old(self).escrows@
                    &&& final(self).milestones@ == old(self).milestones@
                    &&& final(self).admin == old(self).admin
                    &&& final(self).arbiter_fee_bps == old(self).arbiter_fee_bps
                    &&& final(self).analytics == old(self).analytics
                },
            },
    {
        if self.admin.is_none() {
            return Err(Error::NotInitialized);
        }
        if maker == taker {
            return Err(Error::InvalidSwap);
        }
        if offered_token == requested_token {
            return Err(Error::SameAsset);
        }
        if offered_amount <= 0 || requested_amount <= 0 {
            return Err(Error::InvalidAmount);
        }
        let min_expiry = match now.checked_add(MIN_TIMELOCK_SECONDS) {
            Some(v) => v,
            None => return Err(Error::Overflow),
        };
        let max_expiry = match now.checked_add(MAX_TIMELOCK_SECONDS) {
            Some(v) => v,
            None => return Err(Error::Overflow),
        };
        if expires_at < min_expiry || expires_at > max_expiry {
            return Err(Error::TimelockOutOfRange);
        }
        if zero_hash(&hashlock) {
            return Err(Error::InvalidHashlock);
        }
        let count = self.swaps.len() as u64;
        let id = match count.checked_add(1) {
            Some(v) => v,
            None => return Err(Error::Overflow),
        };
        let total = match self.swap_stats.total.checked_add(1) {
            Some(v) => v,
            None => return Err(Error::Overflow),
        };
        let active = match self.swap_stats.active.checked_add(1) {
            Some(v) => v,
            None => return Err(Error::Overflow),
        };
        self.swaps.push(
            AtomicSwap {
                id,
                maker,
                taker,
                offered_token,
                offered_amount,
                requested_token,
                requested_amount,
                hashlock,
                expires_at,
                status: AtomicSwapStatus::AwaitingCounterparty,
                revealed_preimage: None,
                created_at: now,
                funded_at: None,
                settled_at: None,
            },
        );
        self.swap_stats = AtomicSwapStats { total, active, ..self.swap_stats };
        Ok((id, SwapTransfer { direction: Custody::Lock, token: offered_token, account: maker, amount: offered_amount }))
    }

    /// Replace the progress fields of the swap at `i`; `new_preimage`, when given,
    /// becomes the revealed preimage.
    fn set_swap_state(
        &mut self,
        i: usize,
        status: AtomicSwapStatus,
        funded_at: Option<u64>,
        settled_at: Option<u64>,
        new_preimage: Option<Vec<u8>>,
    )
        requires
            i < old(self).swaps@.len(),
        ensures
            final(self).swaps@ == old(self).swaps@.update(
                i as int,
                swap_with(
                    old(self).swaps@[i as int],
                    status,
                    funded_at,
                    settled_at,
                    preimage_or(new_preimage, old(self).swaps@[i as int].revealed_preimage),
                ),
            ),
            final(self).escrows@ == old(self).escrows@,
            final(self).milestones@ == old(self).milestones@,
            final(self).admin == old(self).admin,
            final(self).arbiter_fee_bps == old(self).arbiter_fee_bps,
            final(self).analytics == old(self).analytics,
            final(self).swap_stats == old(self).swap_stats,
    {
        let o = self.swaps.remove(i);
        let revealed = match new_preimage {
            Some(p) => Some(p),
            None => o.revealed_preimage,
        };
        self.swaps.insert(
            i,
            AtomicSwap {
                id: o.id,
                maker: o.maker,
                taker: o.taker,
                offered_token: o.offered_token,
                offered_amount: o.offered_amount,
                requested_token: o.requested_token,
                requested_amount: o.requested_amount,
                hashlock: o.hashlock,
                expires_at: o.expires_at,
                status,
                revealed_preimage: revealed,
                created_at: o.created_at,
                funded_at,
                settled_at,
            },
        );
        proof {
            assert(self.swaps@ =~= old(self).swaps@.update(i as int, self.swaps@[i as int]));
        }
    }

    /// Why `fund_atomic_swap` fails, if it does.
    pub open spec fn fund_swap_error(&self, now: u64, swap_id: u64, taker: Address) -> Option<Error> {
        if !self.initialized() {
            Some(Error::NotInitialized)
        } else if self.spec_swap(swap_id) is None {
            Some(Error::SwapNotFound)
        } else {
            let s = self.spec_swap(swap_id).unwrap();
            if s.taker != taker {
                Some(Error::Unauthorized)
            } else if s.status != AtomicSwapStatus::AwaitingCounterparty {
                Some(Error::InvalidState)
            } else if now >= s.expires_at {
                Some(Error::SwapExpired)
            } else {
                None
            }
        }
    }

    /// The designated taker locks the requested leg before expiry: the
    /// returned transfer moves `requested_amount` of `requested_token` from
    /// the taker into the contract.
    pub fn fund_atomic_swap(&mut self, now: u64, swap_id: u64, taker: Address) -> (r: Result<SwapTransfer, Error>)
        requires
            old(self).wf(),
        ensures
            final(self).wf(),
            match old(self).fund_swap_error(now, swap_id, taker) {
                Some(e) => r == Err::<SwapTransfer, Error>(e) && *final(self) == *old(self),
                None => {
                    let o = old(self).swaps@[swap_id - 1];
                    &&& r == Ok::<SwapTransfer, Error>(
                        SwapTransfer {
                            direction: Custody::Lock,
                            token: o.requested_token,
                            account: taker,
                            amount: o.requested_amount,
                        },
                    )
                    &&& final(self).swaps@ == old(self).swaps@.update(
                        swap_id - 1,
                        swap_with(o, AtomicSwapStatus::Funded, Some(now), o.settled_at, o.revealed_preimage),
                    )
                    &&& final(self).swap_stats == old(self).swap_stats
                    &&& final(self).escrows@ == old(self).escrows@
                    &&& final(self).milestones@ == old(self).milestones@
                    &&& final(self).admin == old(self).admin
                    &&& final(self).analytics == old(self).analytics
                },
            },
    {
        if self.admin.is_none() {
            return Err(Error::NotInitialized);
        }
        if swap_id == 0 || swap_id > self.swaps.len() as u64 {
            return Err(Error::SwapNotFound);
        }
        let i = (swap_id - 1) as usize;
        if self.swaps[i].taker != taker {
            return Err(Error::Unauthorized);
        }
        if self.swaps[i].status != AtomicSwapStatus::AwaitingCounterparty {
            return Err(Error::InvalidState);
        }
        if now >= self.swaps[i].expires_at {
            return Err(Error::SwapExpired);
        }
        let settled = self.swaps[i].settled_at;
        let leg = SwapTransfer {
            direction: Custody::Lock,
            token: self.swaps[i].requested_token,
            account: taker,
            amount: self.swaps[i].requested_amount,
        };
        self.set_swap_state(i, AtomicSwapStatus::Funded, Some(now), settled, None);
        Ok(leg)
    }

    /// Why a claim with a preimage whose digest is `digest` fails, if it does.
    pub open spec fn claim_swap_error(&self, now: u64, swap_id: u64, preimage: Seq<u8>, digest: Seq<u8>) -> Option<
        Error,
    > {
        if !self.initialized() {
            Some(Error::NotInitialized)
        } else if preimage.len() == 0 || preimage.len() > MAX_PREIMAGE_BYTES {
            Some(Error::InvalidPreimage)
        } else if self.spec_swap(swap_id) is None {
            Some(Error::SwapNotFound)
        } else {
            let s = self.spec_swap(swap_id).unwrap();
            if s.status != AtomicSwapStatus::Funded {
                Some(Error::InvalidState)
            } else if now >= s.expires_at {
                Some(Error::SwapExpired)
            } else if digest != s.hashlock@ {
                Some(Error::InvalidPreimage)
            } else if self.swap_stats.active == 0 || self.swap_stats.claimed + 1 > u64::MAX {
                Some(Error::Overflow)
            } else {
                None
            }
        }
    }

    /// What settles a claimed swap: its offered leg goes to the taker and its
    /// requested leg to the maker.
    pub open spec fn claim_legs(o: AtomicSwap) -> (SwapTransfer, SwapTransfer) {
        (
            SwapTransfer { direction: Custody::Release, token: o.offered_token, account: o.taker, amount: o.offered_amount },
            SwapTransfer {
                direction: Custody::Release,
                token: o.requested_token,
                account: o.maker,
                amount: o.requested_amount,
            },
        )
    }

    /// What unwinds an expired swap: the offered leg back to the maker and,
    /// when the swap was funded, the requested leg back to the taker.
    pub open spec fn refund_legs(o: AtomicSwap) -> Seq<SwapTransfer> {
        let offered = SwapTransfer {
            direction: Custody::Release,
            token: o.offered_token,
            account: o.maker,
            amount: o.offered_amount,
        };
        if o.status == AtomicSwapStatus::Funded {
            seq![
                offered,
                SwapTransfer {
                    direction: Custody::Release,
                    token: o.requested_token,
                    account: o.taker,
                    amount: o.requested_amount,
                },
            ]
        } else {
            seq![offered]
        }
    }

    /// The state after a successful claim of swap `swap_id` with `preimage`.
    pub open spec fn claimed(&self, final_state: &Self, now: u64, swap_id: u64, preimage: Vec<u8>) -> bool {
        let o = self.swaps@[swap_id - 1];
        &&& final_state.swaps@ == self.swaps@.update(
            swap_id - 1,
            swap_with(o, AtomicSwapStatus::Claimed, o.funded_at, Some(now), Some(preimage)),
        )
        &&& final_state.swap_stats == (AtomicSwapStats {
            active: (self.swap_stats.active - 1) as u64,
            claimed: (self.swap_stats.claimed + 1) as u64,
            ..self.swap_stats
        })
        &&& final_state.escrows@ == self.escrows@
        &&& final_state.milestones@ == self.milestones@
        &&& final_state.admin == self.admin
        &&& final_state.analytics == self.analytics
    }

    /// Settle a funded swap given the preimage and its SHA-256 digest: both
    /// legs are exchanged, the offered one to the taker and the requested one
    /// to the maker, as the returned transfers say.
    pub fn claim_atomic_swap_with_digest(&mut self, now: u64, swap_id: u64, preimage: Vec<u8>, digest: &Vec<u8>) -> (r:
        Result<(SwapTransfer, SwapTransfer), Error>)
        requires
            old(self).wf(),
        ensures
            final(self).wf(),
            match old(self).claim_swap_error(now, swap_id, preimage@, digest@) {
                Some(e) => r == Err::<(SwapTransfer, SwapTransfer), Error>(e) && *final(self) == *old(self),
                None => r == Ok::<(SwapTransfer, SwapTransfer), Error>(Self::claim_legs(old(self).swaps@[swap_id - 1]))
                    && old(self).claimed(&*final(self), now, swap_id, preimage),
            },
    {
        if self.admin.is_none() {
            return Err(Error::NotInitialized);
        }
        if preimage.len() == 0 || preimage.len() > MAX_PREIMAGE_BYTES {
            return Err(Error::InvalidPreimage);
        }
        if swap_id == 0 || swap_id > self.swaps.len() as u64 {
            return Err(Error::SwapNotFound);
        }
        let i = (swap_id - 1) as usize;
        if self.swaps[i].status != AtomicSwapStatus::Funded {
            return Err(Error::InvalidState);
        }
        if now >= self.swaps[i].expires_at {
            return Err(Error::SwapExpired);
        }
        if !digest_matches(digest, &self.swaps[i].hashlock) {
            return Err(Error::InvalidPreimage);
        }
        let active = match self.swap_stats.active.checked_sub(1) {
            Some(v) => v,
            None => return Err(Error::Overflow),
        };
        let claimed = match self.swap_stats.claimed.checked_add(1) {
            Some(v) => v,
            None => return Err(Error::Overflow),
        };
        let funded = self.swaps[i].funded_at;
        let legs = (
            SwapTransfer {
                direction: Custody::Release,
                token: self.swaps[i].offered_token,
                account: self.swaps[i].taker,
                amount: self.swaps[i].offered_amount,
            },
            SwapTransfer {
                direction: Custody::Release,
                token: self.swaps[i].requested_token,
                account: self.swaps[i].maker,
                amount: self.swaps[i].requested_amount,
            },
        );
        self.set_swap_state(i, AtomicSwapStatus::Claimed, funded, Some(now), Some(preimage));
        self.swap_stats = AtomicSwapStats { active, claimed, ..self.swap_stats };
        Ok(legs)
    }

    /// Reveal the preimage and exchange both legs.  Anyone may call this
    /// (relayers included); the preimage's SHA-256 digest, which the host
    /// computes, must equal the swap's hash lock.
    pub fn claim_atomic_swap(&mut self, env: &soroban_sdk::Env, now: u64, swap_id: u64, preimage: Vec<u8>) -> (r: Result<
        (SwapTransfer, SwapTransfer),
        Error,
    >)
        requires
            old(self).wf(),
        ensures
            final(self).wf(),
            match old(self).claim_swap_error(now, swap_id, preimage@, host_sha256_digest(preimage@)) {
                Some(e) => r == Err::<(SwapTransfer, SwapTransfer), Error>(e) && *final(self) == *old(self),
                None => r == Ok::<(SwapTransfer, SwapTransfer), Error>(Self::claim_legs(old(self).swaps@[swap_id - 1]))
                    && old(self).claimed(&*final(self), now, swap_id, preimage),
            },
    {
        let digest = host_sha256(env, preimage.as_slice());
        self.claim_atomic_swap_with_digest(now, swap_id, preimage, &digest)
    }

    /// Why `refund_atomic_swap` fails, if it does.
    pub open spec fn refund_swap_error(&self, now: u64, swap_id: u64) -> Option<Error> {
        if !self.initialized() {
            Some(Error::NotInitialized)
        } else if self.spec_swap(swap_id) is None {
            Some(Error::SwapNotFound)
        } else {
            let s = self.spec_swap(swap_id).unwrap();
            if s.status != AtomicSwapStatus::Funded && s.status != AtomicSwapStatus::AwaitingCounterparty {
                Some(Error::InvalidState)
            } else if now < s.expires_at {
                Some(Error::SwapNotExpired)
            } else if self.swap_stats.active == 0 || self.swap_stats.refunded + 1 > u64::MAX {
                Some(Error::Overflow)
            } else {
                None
            }
        }
    }

    /// After expiry anyone may unwind an open swap: the returned transfers
    /// give `offered_amount` back to the maker and, when the swap was funded,
    /// `requested_amount` back to the taker.
    pub fn refund_atomic_swap(&mut self, now: u64, swap_id: u64) -> (r: Result<Vec<SwapTransfer>, Error>)
        requires
            old(self).wf(),
        ensures
            final(self).wf(),
            match old(self).refund_swap_error(now, swap_id) {
                Some(e) => r is Err && r->Err_0 == e && *final(self) == *old(self),
                None => {
                    let o = old(self).swaps@[swap_id - 1];
                    &&& r is Ok && r->Ok_0@ == Self::refund_legs(o)
                    &&& final(self).swaps@ == old(self).swaps@.update(
                        swap_id - 1,
                        swap_with(o, AtomicSwapStatus::Refunded, o.funded_at, Some(now), o.revealed_preimage),
                    )
                    &&& final(self).swap_stats == (AtomicSwapStats {
                        active: (old(self).swap_stats.active - 1) as u64,
                        refunded: (old(self).swap_stats.refunded + 1) as u64,
                        ..old(self).swap_stats
                    })
                    &&& final(self).escrows@ == old(self).escrows@
                    &&& final(self).milestones@ == old(self).milestones@
                    &&& final(self).admin == old(self).admin
                    &&& final(self).analytics == old(self).analytics
                },
            },
    {
        if self.admin.is_none() {
            return Err(Error::NotInitialized);
        }
        if swap_id == 0 || swap_id > self.swaps.len() as u64 {
            return Err(Error::SwapNotFound);
        }
        let i = (swap_id - 1) as usize;
        let status = self.swaps[i].status;
        if status != AtomicSwapStatus::Funded && status != AtomicSwapStatus::AwaitingCounterparty {
            return Err(Error::InvalidState);
        }
        if now < self.swaps[i].expires_at {
            return Err(Error::SwapNotExpired);
        }
        let active = match self.swap_stats.active.checked_sub(1) {
            Some(v) => v,
            None => return Err(Error::Overflow),
        };
        let refunded = match self.swap_stats.refunded.checked_add(1) {
            Some(v) => v,
            None => return Err(Error::Overflow),
        };
        let funded = self.swaps[i].funded_at;
        let mut legs: Vec<SwapTransfer> = Vec::new();
        legs.push(
            SwapTransfer {
                direction: Custody::Release,
                token: self.swaps[i].offered_token,
                account: self.swaps[i].maker,
                amount: self.swaps[i].offered_amount,
            },
        );
        if status == AtomicSwapStatus::Funded {
            legs.push(
                SwapTransfer {
                    direction: Custody::Release,
                    token: self.swaps[i].requested_token,
                    account: self.swaps[i].taker,
                    amount: self.swaps[i].requested_amount,
                },
            );
        }
        self.set_swap_state(i, AtomicSwapStatus::Refunded, funded, Some(now), None);
        self.swap_stats = AtomicSwapStats { active, refunded, ..self.swap_stats };
        Ok(legs)
    }

    /// Why `cancel_atomic_swap` fails, if it does.
    pub open spec fn cancel_swap_error(&self, now: u64, swap_id: u64, maker: Address) -> Option<Error> {
        if !self.initialized() {
            Some(Error::NotInitialized)
        } else if self.spec_swap(swap_id) is None {
            Some(Error::SwapNotFound)
        } else {
            let s = self.spec_swap(swap_id).unwrap();
            if s.maker != maker {
                Some(Error::Unauthorized)
            } else if s.status != AtomicSwapStatus::AwaitingCounterparty {
                Some(Error::InvalidState)
            } else if now >= s.expires_at {
                Some(Error::SwapExpired)
            } else if self.swap_stats.active == 0 || self.swap_stats.cancelled + 1 > u64::MAX {
                Some(Error::Overflow)
            } else {
                None
            }
        }
    }

    /// The maker withdraws a swap the taker has not funded yet; the returned
    /// transfer gives `offered_amount` back to the maker.
    pub fn cancel_atomic_swap(&mut self, now: u64, swap_id: u64, maker: Address) -> (r: Result<SwapTransfer, Error>)
        requires
            old(self).wf(),
        ensures
            final(self).wf(),
            match old(self).cancel_swap_error(now, swap_id, maker) {
                Some(e) => r == Err::<SwapTransfer, Error>(e) && *final(self) == *old(self),
                None => {
                    let o = old(self).swaps@[swap_id - 1];
                    &&& r == Ok::<SwapTransfer, Error>(
                        SwapTransfer {
                            direction: Custody::Release,
                            token: o.offered_token,
                            account: maker,
                            amount: o.offered_amount,
                        },
                    )
                    &&& final(self).swaps@ == old(self).swaps@.update(
                        swap_id - 1,
                        swap_with(o, AtomicSwapStatus::Cancelled, o.funded_at, Some(now), o.revealed_preimage),
                    )
                    &&& final(self).swap_stats == (AtomicSwapStats {
                        active: (old(self).swap_stats.active - 1) as u64,
                        cancelled: (old(self).swap_stats.cancelled + 1) as u64,
                        ..old(self).swap_stats
                    })
                    &&& final(self).escrows@ == old(self).escrows@
                    &&& final(self).milestones@ == old(self).milestones@
                    &&& final(self).admin == old(self).admin
                    &&& final(self).analytics == old(self).analytics
                },
            },
    {
        if self.admin.is_none() {
            return Err(Error::NotInitialized);
        }
        if swap_id == 0 || swap_id > self.swaps.len() as u64 {
            return Err(Error::SwapNotFound);
        }
        let i = (swap_id - 1) as usize;
        if self.swaps[i].maker != maker {
            return Err(Error::Unauthorized);
        }
        if self.swaps[i].status != AtomicSwapStatus::AwaitingCounterparty {
            return Err(Error::InvalidState);
        }
        if now >= self.swaps[i].expires_at {
            return Err(Error::SwapExpired);
        }
        let active = match self.swap_stats.active.checked_sub(1) {
            Some(v) => v,
            None => return Err(Error::Overflow),
        };
        let cancelled = match self.swap_stats.cancelled.checked_add(1) {
            Some(v) => v,
            None => return Err(Error::Overflow),
        };
        let funded = self.swaps[i].funded_at;
        let leg = SwapTransfer {
            direction: Custody::Release,
            token: self.swaps[i].offered_token,
            account: maker,
            amount: self.swaps[i].offered_amount,
        };
        self.set_swap_state(i, AtomicSwapStatus::Cancelled, funded, Some(now), None);
        self.swap_stats = AtomicSwapStats { active, cancelled, ..self.swap_stats };
        Ok(leg)
    }

    pub fn get_atomic_swap(&self, swap_id: u64) -> (r: Result<&AtomicSwap, Error>)
        ensures
            match self.spec_swap(swap_id) {
                Some(s) => r == Ok::<&AtomicSwap, Error>(&s),
                None => r == Err::<&AtomicSwap, Error>(Error::SwapNotFound),
            },
    {
        if swap_id == 0 || swap_id > self.swaps.len() as u64 {
            return Err(Error::SwapNotFound);
        }
        Ok(&self.swaps[(swap_id - 1) as usize])
    }

    pub fn get_atomic_swap_count(&self) -> (n: u64)
        requires
            self.wf(),
        ensures
            n == self.swaps@.len(),
    {
        self.swaps.len() as u64
    }

    pub fn get_atomic_swap_stats(&self) -> (r: Result<AtomicSwapStats, Error>)
        ensures
            self.initialized() ==> r == Ok::<AtomicSwapStats, Error>(self.swap_stats),
            !self.initialized() ==> r == Err::<AtomicSwapStats, Error>(Error::NotInitialized),
    {
        if self.admin.is_none() {
            return Err(Error::NotInitialized);
        }
        Ok(self.swap_stats)
    }
}

/// The arbiter fee on `amount` at `bps` basis points, truncated toward zero,
/// lies between zero and `amount`.
pub proof fn lemma_fee_bounds(amount: int, bps: int)
    requires
        0 <= bps <= 10_000,
    ensures
        amount >= 0 ==> 0 <= tdiv_signed(amount * bps, 10_000) <= amount,
        amount < 0 ==> amount <= tdiv_signed(amount * bps, 10_000) <= 0,
{
    if amount >= 0 {
        assert(0 <= amount * bps <= amount * 10_000) by (nonlinear_arith)
            requires
                amount >= 0,
                0 <= bps <= 10_000,
        ;
        assert((amount * bps) / 10_000 <= amount) by (nonlinear_arith)
            requires
                0 <= amount * bps <= amount * 10_000,
        ;
    } else {
        let a = -amount;
        assert(0 <= a * bps <= a * 10_000) by (nonlinear_arith)
            requires
                a > 0,
                0 <= bps <= 10_000,
        ;
        assert((a * bps) / 10_000 <= a) by (nonlinear_arith)
            requires
                0 <= a * bps <= a * 10_000,
        ;
        assert(amount * bps == -(a * bps)) by (nonlinear_arith)
            requires
                a == -amount,
        ;
    }
}

impl FreelancerEscrow {
    fn escrow_index(&self, escrow_id: u32) -> (r: Result<usize, Error>)
        ensures
            match self.spec_escrow(escrow_id) {
                Some(_) => r == Ok::<usize, Error>((escrow_id - 1) as usize),
                None => r == Err::<usize, Error>(Error::EscrowNotFound),
            },
    {
        if escrow_id == 0 || escrow_id as usize > self.escrows.len() {
            return Err(Error::EscrowNotFound);
        }
        Ok((escrow_id - 1) as usize)
    }

    fn load_milestone(&self, escrow_id: u32, milestone_id: u32) -> (r: Result<Milestone, Error>)
        ensures
            match self.spec_milestone(escrow_id, milestone_id) {
                Some(m) => r == Ok::<Milestone, Error>(m),
                None => r == Err::<Milestone, Error>(Error::MilestoneNotFound),
            },
    {
        let k = milestone_key_of(escrow_id, milestone_id);
        match self.milestones.get(&k) {
            Some(m) => Ok(*m),
            None => Err(Error::MilestoneNotFound),
        }
    }

    /// Why `create_escrow` fails, if it does.
    pub open spec fn create_escrow_error(&self, total_amount: i128, amounts: Seq<i128>) -> Option<Error> {
        if !self.initialized() {
            Some(Error::NotInitialized)
        } else if total_amount <= 0 {
            Some(Error::InvalidAmount)
        } else if amounts.len() == 0 {
            Some(Error::NoMilestones)
        } else if amounts.len() > MAX_MILESTONES {
            Some(Error::TooManyMilestones)
        } else if !all_positive(amounts) || seq_sum(amounts) != total_amount {
            Some(Error::InvalidAmount)
        } else {
            None
        }
    }

    /// The client opens an escrow whose positive milestone amounts (at most
    /// 20) add up to `total_amount`.  Returns the new escrow's id; milestone
    /// `j` (from 1) gets the `j`-th amount.
    pub fn create_escrow(
        &mut self,
        now: u64,
        client: Address,
        freelancer: Address,
        arbiter: Address,
        total_amount: i128,
        milestone_amounts: &Vec<i128>,
    ) -> (r: Result<u32, Error>)
        requires
            old(self).wf(),
            old(self).initialized() && total_amount > 0 && 0 < milestone_amounts@.len() <= MAX_MILESTONES
                ==> milestone_sums_fit(milestone_amounts@),
            old(self).create_escrow_error(total_amount, milestone_amounts@) is None ==> old(self).escrows@.len()
                < u32::MAX && old(self).analytics.total_escrows < u32::MAX,
        ensures
            final(self).wf(),
            match old(self).create_escrow_error(total_amount, milestone_amounts@) {
                Some(e) => r == Err::<u32, Error>(e) && *final(self) == *old(self),
                None => {
                    let id = (old(self).escrows@.len() + 1) as u32;
                    &&& r == Ok::<u32, Error>(id)
                    &&& final(self).escrows@ == old(self).escrows@.push(
                        Escrow {
                            id,
                            client,
                            freelancer,
                            arbiter,
                            total_amount,
                            paid_amount: 0,
                            milestone_count: milestone_amounts@.len() as u32,
                            status: EscrowStatus::Pending,
                            created_at: now,
                            arbiter_fee_bps: old(self).arbiter_fee_bps,
                        },
                    )
                    &&& final(self).milestones@ == with_milestones(
                        old(self).milestones@,
                        id,
                        milestone_amounts@,
                        milestone_amounts@.len(),
                    )
                    &&& final(self).analytics == (Analytics {
                        total_escrows: (old(self).analytics.total_escrows + 1) as u32,
                        ..old(self).analytics
                    })
                    &&& final(self).swaps@ == old(self).swaps@
                    &&& final(self).swap_stats == old(self).swap_stats
                    &&& final(self).admin == old(self).admin
                    &&& final(self).arbiter_fee_bps == old(self).arbiter_fee_bps
                },
            },
    {
        if self.admin.is_none() {
            return Err(Error::NotInitialized);
        }
        if total_amount <= 0 {
            return Err(Error::InvalidAmount);
        }
        if milestone_amounts.len() == 0 {
            return Err(Error::NoMilestones);
        }
        if milestone_amounts.len() > MAX_MILESTONES {
            return Err(Error::TooManyMilestones);
        }
        let ghost s = milestone_amounts@;
        let mut sum: i128 = 0;
        let mut i: usize = 0;
        while i < milestone_amounts.len()
            invariant
                s == milestone_amounts@,
                0 < s.len(),
                0 <= i <= s.len() <= MAX_MILESTONES,
                *self == *old(self),
                old(self).wf(),
                old(self).initialized(),
                total_amount > 0,
                milestone_sums_fit(s),
                sum == seq_sum(s.take(i as int)),
                sum >= 0,
                all_positive(s.take(i as int)),
            decreases s.len() - i,
        {
            let amt = milestone_amounts[i];
            if amt <= 0 {
                proof {
                    assert(!all_positive(s));
                }
                return Err(Error::InvalidAmount);
            }
            proof {
                assert(s.take(i + 1).drop_last() =~= s.take(i as int));
                assert(all_positive(s.take(i + 1)));
            }
            sum = sum + amt;
            i = i + 1;
        }
        proof {
            assert(s.take(s.len() as int) =~= s);
        }
        if sum != total_amount {
            return Err(Error::InvalidAmount);
        }
        let id = (self.escrows.len() + 1) as u32;
        let mut j: usize = 0;
        while j < milestone_amounts.len()
            invariant
                s == milestone_amounts@,
                0 <= j <= s.len() <= MAX_MILESTONES,
                all_positive(s),
                id == old(self).escrows@.len() + 1,
                self.milestones@ == with_milestones(old(self).milestones@, id, s, j as nat),
                forall|k: u64| #[trigger] self.milestones@.contains_key(k) ==> self.milestones@[k].amount > 0,
                self.escrows@ == old(self).escrows@,
                self.swaps@ == old(self).swaps@,
                self.swap_stats == old(self).swap_stats,
                self.admin == old(self).admin,
                self.arbiter_fee_bps == old(self).arbiter_fee_bps,
                self.analytics == old(self).analytics,
            decreases s.len() - j,
        {
            let k = milestone_key_of(id, (j + 1) as u32);
            self.milestones.insert(
                k,
                Milestone { id: (j + 1) as u32, amount: milestone_amounts[j], status: MilestoneStatus::Pending },
            );
            j = j + 1;
        }
        self.escrows.push(
            Escrow {
                id,
                client,
                freelancer,
                arbiter,
                total_amount,
                paid_amount: 0,
                milestone_count: milestone_amounts.len() as u32,
                status: EscrowStatus::Pending,
                created_at: now,
                arbiter_fee_bps: self.arbiter_fee_bps,
            },
        );
        self.analytics.total_escrows = self.analytics.total_escrows + 1;
        Ok(id)
    }

    /// Why `deposit` fails, if it does.
    pub open spec fn deposit_error(&self, escrow_id: u32, client: Address) -> Option<Error> {
        if !self.initialized() {
            Some(Error::NotInitialized)
        } else if self.spec_escrow(escrow_id) is None {
            Some(Error::EscrowNotFound)
        } else {
            let e = self.spec_escrow(escrow_id).unwrap();
            if e.client != client {
                Some(Error::Unauthorized)
            } else if e.status != EscrowStatus::Pending {
                Some(Error::InvalidState)
            } else if self.spec_milestone(escrow_id, 1) is None {
                Some(Error::MilestoneNotFound)
            } else {
                None
            }
        }
    }

    /// The client pays in the full amount: the escrow becomes active and its
    /// first milestone in progress.
    pub fn deposit(&mut self, escrow_id: u32, client: Address) -> (r: Result<(), Error>)
        requires
            old(self).wf(),
            old(self).deposit_error(escrow_id, client) is None ==> old(self).analytics.active_escrows < u32::MAX
                && fits_i128(
                old(self).analytics.total_value_locked + old(self).escrows@[escrow_id - 1].total_amount,
            ),
        ensures
            final(self).wf(),
            match old(self).deposit_error(escrow_id, client) {
                Some(e) => r == Err::<(), Error>(e) && *final(self) == *old(self),
                None => {
                    let e = old(self).escrows@[escrow_id - 1];
                    let m = old(self).milestones@[milestone_key(escrow_id, 1)];
                    &&& r is Ok
                    &&& final(self).escrows@ == old(self).escrows@.update(
                        escrow_id - 1,
                        Escrow { status: EscrowStatus::Active, ..e },
                    )
                    &&& final(self).milestones@ == old(self).milestones@.insert(
                        milestone_key(escrow_id, 1),
                        Milestone { status: MilestoneStatus::InProgress, ..m },
                    )
                    &&& final(self).analytics == (Analytics {
                        active_escrows: (old(self).analytics.active_escrows + 1) as u32,
                        total_value_locked: (old(self).analytics.total_value_locked + e.total_amount) as i128,
                        ..old(self).analytics
                    })
                    &&& final(self).swaps@ == old(self).swaps@
                    &&& final(self).swap_stats == old(self).swap_stats
                    &&& final(self).admin == old(self).admin
                    &&& final(self).arbiter_fee_bps == old(self).arbiter_fee_bps
                },
            },
    {
        if self.admin.is_none() {
            return Err(Error::NotInitialized);
        }
        let i = self.escrow_index(escrow_id)?;
        let e = self.escrows[i];
        if e.client != client {
            return Err(Error::Unauthorized);
        }
        if e.status != EscrowStatus::Pending {
            return Err(Error::InvalidState);
        }
        let first = self.load_milestone(escrow_id, 1)?;
        let k = milestone_key_of(escrow_id, 1);
        self.milestones.insert(k, Milestone { status: MilestoneStatus::InProgress, ..first });
        self.escrows.set(i, Escrow { status: EscrowStatus::Active, ..e });
        self.analytics.active_escrows = self.analytics.active_escrows + 1;
        self.analytics.total_value_locked = self.analytics.total_value_locked + e.total_amount;
        Ok(())
    }

    /// Why a milestone review step fails, if it does: the caller must be the
    /// escrow's freelancer (`by_freelancer`) or client, the escrow active and
    /// the milestone in state `expected`.
    pub open spec fn review_error(
        &self,
        escrow_id: u32,
        caller: Address,
        by_freelancer: bool,
        milestone_id: u32,
        expected: MilestoneStatus,
    ) -> Option<Error> {
        if !self.initialized() {
            Some(Error::NotInitialized)
        } else if self.spec_escrow(escrow_id) is None {
            Some(Error::EscrowNotFound)
        } else {
            let e = self.spec_escrow(escrow_id).unwrap();
            if (if by_freelancer {
                e.freelancer
            } else {
                e.client
            }) != caller {
                Some(Error::Unauthorized)
            } else if e.status != EscrowStatus::Active {
                Some(Error::InvalidState)
            } else if self.spec_milestone(escrow_id, milestone_id) is None {
                Some(Error::MilestoneNotFound)
            } else if self.spec_milestone(escrow_id, milestone_id).unwrap().status != expected {
                Some(Error::InvalidState)
            } else {
                None
            }
        }
    }

    /// Only the milestone's status changed, to `next`.
    pub open spec fn milestone_moved(&self, final_state: &Self, escrow_id: u32, milestone_id: u32, next: MilestoneStatus) -> bool {
        let k = milestone_key(escrow_id, milestone_id);
        &&& final_state.milestones@ == self.milestones@.insert(k, Milestone { status: next, ..self.milestones@[k] })
        &&& final_state.escrows@ == self.escrows@
        &&& final_state.swaps@ == self.swaps@
        &&& final_state.swap_stats == self.swap_stats
        &&& final_state.admin == self.admin
        &&& final_state.arbiter_fee_bps == self.arbiter_fee_bps
        &&& final_state.analytics == self.analytics
    }

    fn review_step(
        &mut self,
        escrow_id: u32,
        caller: Address,
        by_freelancer: bool,
        milestone_id: u32,
        expected: MilestoneStatus,
        next: MilestoneStatus,
    ) -> (r: Result<(), Error>)
        requires
            old(self).wf(),
        ensures
            final(self).wf(),
            match old(self).review_error(escrow_id, caller, by_freelancer, milestone_id, expected) {
                Some(e) => r == Err::<(), Error>(e) && *final(self) == *old(self),
                None => r is Ok && old(self).milestone_moved(&*final(self), escrow_id, milestone_id, next),
            },
    {
        if self.admin.is_none() {
            return Err(Error::NotInitialized);
        }
        let i = self.escrow_index(escrow_id)?;
        let e = self.escrows[i];
        let party = if by_freelancer {
            e.freelancer
        } else {
            e.client
        };
        if party != caller {
            return Err(Error::Unauthorized);
        }
        if e.status != EscrowStatus::Active {
            return Err(Error::InvalidState);
        }
        let m = self.load_milestone(escrow_id, milestone_id)?;
        if m.status != expected {
            return Err(Error::InvalidState);
        }
        let k = milestone_key_of(escrow_id, milestone_id);
        self.milestones.insert(k, Milestone { status: next, ..m });
        Ok(())
    }

    /// The freelancer hands in a milestone that is in progress for review.
    pub fn submit_milestone(&mut self, escrow_id: u32, freelancer: Address, milestone_id: u32) -> (r: Result<(), Error>)
        requires
            old(self).wf(),
        ensures
            final(self).wf(),
            match old(self).review_error(escrow_id, freelancer, true, milestone_id, MilestoneStatus::InProgress) {
                Some(e) => r == Err::<(), Error>(e) && *final(self) == *old(self),
                None => r is Ok && old(self).milestone_moved(
                    &*final(self),
                    escrow_id,
                    milestone_id,
                    MilestoneStatus::UnderReview,
                ),
            },
    {
        self.review_step(
            escrow_id,
            freelancer,
            true,
            milestone_id,
            MilestoneStatus::InProgress,
            MilestoneStatus::UnderReview,
        )
    }

    /// The client accepts a milestone under review.
    pub fn approve_milestone(&mut self, escrow_id: u32, client: Address, milestone_id: u32) -> (r: Result<(), Error>)
        requires
            old(self).wf(),
        ensures
            final(self).wf(),
            match old(self).review_error(escrow_id, client, false, milestone_id, MilestoneStatus::UnderReview) {
                Some(e) => r == Err::<(), Error>(e) && *final(self) == *old(self),
                None => r is Ok && old(self).milestone_moved(
                    &*final(self),
                    escrow_id,
                    milestone_id,
                    MilestoneStatus::Approved,
                ),
            },
    {
        self.review_step(
            escrow_id,
            client,
            false,
            milestone_id,
            MilestoneStatus::UnderReview,
            MilestoneStatus::Approved,
        )
    }

    /// The client sends a milestone under review back to work.
    pub fn reject_milestone(&mut self, escrow_id: u32, client: Address, milestone_id: u32) -> (r: Result<(), Error>)
        requires
            old(self).wf(),
        ensures
            final(self).wf(),
            match old(self).review_error(escrow_id, client, false, milestone_id, MilestoneStatus::UnderReview) {
                Some(e) => r == Err::<(), Error>(e) && *final(self) == *old(self),
                None => r is Ok && old(self).milestone_moved(
                    &*final(self),
                    escrow_id,
                    milestone_id,
                    MilestoneStatus::InProgress,
                ),
            },
    {
        self.review_step(
            escrow_id,
            client,
            false,
            milestone_id,
            MilestoneStatus::UnderReview,
            MilestoneStatus::InProgress,
        )
    }

    /// The freelancer's share of a milestone payment: the amount less the
    /// arbiter fee.
    pub open spec fn net_payment(amount: int, bps: int) -> int {
        amount - tdiv_signed(amount * bps, 10_000)
    }

    /// The milestones after milestone `milestone_id` is paid: it becomes
    /// `Paid`, and the next one, if it exists within the escrow's count and
    /// is still pending, starts.
    pub open spec fn milestones_after_payment(&self, e: Escrow, milestone_id: u32) -> Map<u64, Milestone> {
        let k = milestone_key(e.id, milestone_id);
        let m1 = self.milestones@.insert(k, Milestone { status: MilestoneStatus::Paid, ..self.milestones@[k] });
        let nk = milestone_key(e.id, (milestone_id + 1) as u32);
        if milestone_id + 1 <= e.milestone_count && m1.contains_key(nk) && m1[nk].status == MilestoneStatus::Pending {
            m1.insert(nk, Milestone { status: MilestoneStatus::InProgress, ..m1[nk] })
        } else {
            m1
        }
    }

    /// The arithmetic of a payment stays in range.
    pub open spec fn payment_fits(&self, escrow_id: u32, milestone_id: u32) -> bool {
        let e = self.escrows@[escrow_id - 1];
        let m = self.milestones@[milestone_key(escrow_id, milestone_id)];
        &&& milestone_id < u32::MAX
        &&& fits_i128(m.amount * e.arbiter_fee_bps)
        &&& fits_i128(e.paid_amount + m.amount)
        &&& e.paid_amount + m.amount >= e.total_amount ==> self.analytics.completed_escrows < u32::MAX && fits_i128(
            self.analytics.total_paid_out + e.total_amount,
        )
    }

    /// The client pays an approved milestone.  Returns the net amount due to
    /// the freelancer (the amount less the arbiter fee).  When everything
    /// has been paid the escrow completes.
    pub fn release_payment(&mut self, escrow_id: u32, client: Address, milestone_id: u32) -> (r: Result<i128, Error>)
        requires
            old(self).wf(),
            old(self).review_error(escrow_id, client, false, milestone_id, MilestoneStatus::Approved) is None
                ==> old(self).payment_fits(escrow_id, milestone_id),
        ensures
            final(self).wf(),
            match old(self).review_error(escrow_id, client, false, milestone_id, MilestoneStatus::Approved) {
                Some(e) => r == Err::<i128, Error>(e) && *final(self) == *old(self),
                None => {
                    let e = old(self).escrows@[escrow_id - 1];
                    let m = old(self).milestones@[milestone_key(escrow_id, milestone_id)];
                    let paid = e.paid_amount + m.amount;
                    let a = old(self).analytics;
                    &&& r == Ok::<i128, Error>(Self::net_payment(m.amount as int, e.arbiter_fee_bps as int) as i128)
                    &&& final(self).milestones@ == old(self).milestones_after_payment(e, milestone_id)
                    &&& paid < e.total_amount ==> final(self).escrows@ == old(self).escrows@.update(
                        escrow_id - 1,
                        Escrow { paid_amount: paid as i128, ..e },
                    ) && final(self).analytics == a
                    &&& paid >= e.total_amount ==> final(self).escrows@ == old(self).escrows@.update(
                        escrow_id - 1,
                        Escrow { paid_amount: paid as i128, status: EscrowStatus::Completed, ..e },
                    ) && final(self).analytics == (Analytics {
                        active_escrows: dec_sat(a.active_escrows),
                        completed_escrows: (a.completed_escrows + 1) as u32,
                        total_value_locked: sat_i128(a.total_value_locked - e.total_amount) as i128,
                        total_paid_out: (a.total_paid_out + e.total_amount) as i128,
                        ..a
                    })
                    &&& final(self).swaps@ == old(self).swaps@
                    &&& final(self).swap_stats == old(self).swap_stats
                    &&& final(self).admin == old(self).admin
                    &&& final(self).arbiter_fee_bps == old(self).arbiter_fee_bps
                },
            },
    {
        if self.admin.is_none() {
            return Err(Error::NotInitialized);
        }
        let i = self.escrow_index(escrow_id)?;
        let e = self.escrows[i];
        if e.client != client {
            return Err(Error::Unauthorized);
        }
        if e.status != EscrowStatus::Active {
            return Err(Error::InvalidState);
        }
        let m = self.load_milestone(escrow_id, milestone_id)?;
        if m.status != MilestoneStatus::Approved {
            return Err(Error::InvalidState);
        }
        proof {
            lemma_fee_bounds(m.amount as int, e.arbiter_fee_bps as int);
        }
        let fee = div_trunc(m.amount * e.arbiter_fee_bps as i128, 10_000);
        let net = m.amount - fee;
        let k = milestone_key_of(escrow_id, milestone_id);
        self.milestones.insert(k, Milestone { status: MilestoneStatus::Paid, ..m });
        let paid = e.paid_amount + m.amount;
        let next_id = milestone_id + 1;
        if next_id <= e.milestone_count {
            let nk = milestone_key_of(escrow_id, next_id);
            match self.milestones.get(&nk) {
                Some(next) => {
                    let next = *next;
                    if next.status == MilestoneStatus::Pending {
                        self.milestones.insert(nk, Milestone { status: MilestoneStatus::InProgress, ..next });
                    }
                },
                None => {},
            }
        }
        if paid >= e.total_amount {
            self.escrows.set(i, Escrow { paid_amount: paid, status: EscrowStatus::Completed, ..e });
            let active = if self.analytics.active_escrows == 0 {
                0
            } else {
                self.analytics.active_escrows - 1
            };
            self.analytics.active_escrows = active;
            self.analytics.completed_escrows = self.analytics.completed_escrows + 1;
            self.analytics.total_value_locked = i128_saturating_sub(self.analytics.total_value_locked, e.total_amount);
            self.analytics.total_paid_out = self.analytics.total_paid_out + e.total_amount;
        } else {
            self.escrows.set(i, Escrow { paid_amount: paid, ..e });
        }
        Ok(net)
    }

    /// Why `raise_dispute` fails, if it does.
    pub open spec fn dispute_error(&self, escrow_id: u32, initiator: Address) -> Option<Error> {
        if !self.initialized() {
            Some(Error::NotInitialized)
        } else if self.spec_escrow(escrow_id) is None {
            Some(Error::EscrowNotFound)
        } else {
            let e = self.spec_escrow(escrow_id).unwrap();
            if e.client != initiator && e.freelancer != initiator {
                Some(Error::Unauthorized)
            } else if e.status != EscrowStatus::Active {
                Some(Error::InvalidState)
            } else {
                None
            }
        }
    }

    /// The client or the freelancer locks an active escrow for the arbiter.
    pub fn raise_dispute(&mut self, escrow_id: u32, initiator: Address) -> (r: Result<(), Error>)
        requires
            old(self).wf(),
            old(self).dispute_error(escrow_id, initiator) is None ==> old(self).analytics.disputed_escrows < u32::MAX,
        ensures
            final(self).wf(),
            match old(self).dispute_error(escrow_id, initiator) {
                Some(e) => r == Err::<(), Error>(e) && *final(self) == *old(self),
                None => {
                    let e = old(self).escrows@[escrow_id - 1];
                    let a = old(self).analytics;
                    &&& r is Ok
                    &&& final(self).escrows@ == old(self).escrows@.update(
                        escrow_id - 1,
                        Escrow { status: EscrowStatus::Disputed, ..e },
                    )
                    &&& final(self).analytics == (Analytics {
                        disputed_escrows: (a.disputed_escrows + 1) as u32,
                        active_escrows: dec_sat(a.active_escrows),
                        ..a
                    })
                    &&& final(self).milestones@ == old(self).milestones@
                    &&& final(self).swaps@ == old(self).swaps@
                    &&& final(self).swap_stats == old(self).swap_stats
                    &&& final(self).admin == old(self).admin
                    &&& final(self).arbiter_fee_bps == old(self).arbiter_fee_bps
                },
            },
    {
        if self.admin.is_none() {
            return Err(Error::NotInitialized);
        }
        let i = self.escrow_index(escrow_id)?;
        let e = self.escrows[i];
        if e.client != initiator && e.freelancer != initiator {
            return Err(Error::Unauthorized);
        }
        if e.status != EscrowStatus::Active {
            return Err(Error::InvalidState);
        }
        self.escrows.set(i, Escrow { status: EscrowStatus::Disputed, ..e });
        self.analytics.disputed_escrows = self.analytics.disputed_escrows + 1;
        let active = if self.analytics.active_escrows == 0 {
            0
        } else {
            self.analytics.active_escrows - 1
        };
        self.analytics.active_escrows = active;
        Ok(())
    }

    /// Why `resolve_dispute` fails, if it does.
    pub open spec fn resolve_error(&self, escrow_id: u32, arbiter: Address, ruling: u32) -> Option<Error> {
        if !self.initialized() {
            Some(Error::NotInitialized)
        } else if self.spec_escrow(escrow_id) is None {
            Some(Error::EscrowNotFound)
        } else {
            let e = self.spec_escrow(escrow_id).unwrap();
            if e.arbiter != arbiter {
                Some(Error::Unauthorized)
            } else if e.status != EscrowStatus::Disputed {
                Some(Error::InvalidState)
            } else if ruling > 2 {
                Some(Error::InvalidRuling)
            } else {
                None
            }
        }
    }

    /// What the freelancer receives under a ruling (`0` freelancer favoured,
    /// `1` client favoured, `2` split) on the unpaid remainder, after the
    /// arbiter fee.
    pub open spec fn dispute_payout(remaining: int, bps: int, ruling: u32) -> int {
        let fee = tdiv_signed(remaining * bps, 10_000);
        if ruling == 0 {
            remaining - fee
        } else if ruling == 1 {
            0
        } else {
            tdiv_signed(remaining - fee, 2)
        }
    }

    /// The arbiter settles a disputed escrow.  Returns the freelancer's
    /// payout; the escrow is then fully settled and complete.
    pub fn resolve_dispute(&mut self, escrow_id: u32, arbiter: Address, ruling: u32) -> (r: Result<i128, Error>)
        requires
            old(self).wf(),
            old(self).resolve_error(escrow_id, arbiter, ruling) is None ==> {
                let e = old(self).escrows@[escrow_id - 1];
                &&& fits_i128((e.total_amount - e.paid_amount) * e.arbiter_fee_bps)
                &&& old(self).analytics.completed_escrows < u32::MAX
                &&& fits_i128(old(self).analytics.total_paid_out + (e.total_amount - e.paid_amount))
            },
        ensures
            final(self).wf(),
            match old(self).resolve_error(escrow_id, arbiter, ruling) {
                Some(e) => r == Err::<i128, Error>(e) && *final(self) == *old(self),
                None => {
                    let e = old(self).escrows@[escrow_id - 1];
                    let remaining = e.total_amount - e.paid_amount;
                    let a = old(self).analytics;
                    &&& r == Ok::<i128, Error>(
                        Self::dispute_payout(remaining, e.arbiter_fee_bps as int, ruling) as i128,
                    )
                    &&& final(self).escrows@ == old(self).escrows@.update(
                        escrow_id - 1,
                        Escrow { paid_amount: e.total_amount, status: EscrowStatus::Completed, ..e },
                    )
                    &&& final(self).analytics == (Analytics {
                        completed_escrows: (a.completed_escrows + 1) as u32,
                        total_value_locked: sat_i128(a.total_value_locked - remaining) as i128,
                        total_paid_out: (a.total_paid_out + remaining) as i128,
                        ..a
                    })
                    &&& final(self).milestones@ == old(self).milestones@
                    &&& final(self).swaps@ == old(self).swaps@
                    &&& final(self).swap_stats == old(self).swap_stats
                    &&& final(self).admin == old(self).admin
                    &&& final(self).arbiter_fee_bps == old(self).arbiter_fee_bps
                },
            },
            r is Ok && old(self).escrows@[escrow_id - 1].total_amount >= old(self).escrows@[escrow_id - 1].paid_amount ==> {
                let e = old(self).escrows@[escrow_id - 1];
                let remaining = e.total_amount - e.paid_amount;
                &&& ruling == 0 ==> 0 <= r->Ok_0 <= remaining
                &&& ruling == 1 ==> r->Ok_0 == 0
                &&& ruling == 2 ==> 0 <= 2 * r->Ok_0 <= Self::dispute_payout(remaining, e.arbiter_fee_bps as int, 0)
            },
    {
        if self.admin.is_none() {
            return Err(Error::NotInitialized);
        }
        let i = self.escrow_index(escrow_id)?;
        let e = self.escrows[i];
        proof {
            if e.total_amount >= e.paid_amount {
                lemma_dispute_rulings((e.total_amount - e.paid_amount) as int, e.arbiter_fee_bps as int);
            }
        }
        if e.arbiter != arbiter {
            return Err(Error::Unauthorized);
        }
        if e.status != EscrowStatus::Disputed {
            return Err(Error::InvalidState);
        }
        let ruling_enum = match ruling {
            0 => Ruling::FreelancerFavored,
            1 => Ruling::ClientFavored,
            2 => Ruling::Split,
            _ => return Err(Error::InvalidRuling),
        };
        let remaining = e.total_amount - e.paid_amount;
        proof {
            lemma_fee_bounds(remaining as int, e.arbiter_fee_bps as int);
        }
        let fee = div_trunc(remaining * e.arbiter_fee_bps as i128, 10_000);
        let payout = match ruling_enum {
            Ruling::FreelancerFavored => remaining - fee,
            Ruling::ClientFavored => 0,
            Ruling::Split => div_trunc(remaining - fee, 2),
        };
        self.escrows.set(i, Escrow { paid_amount: e.total_amount, status: EscrowStatus::Completed, ..e });
        self.analytics.completed_escrows = self.analytics.completed_escrows + 1;
        self.analytics.total_value_locked = i128_saturating_sub(self.analytics.total_value_locked, remaining);
        self.analytics.total_paid_out = self.analytics.total_paid_out + remaining;
        Ok(payout)
    }

    /// Why `cancel_escrow` fails, if it does.
    pub open spec fn cancel_escrow_error(&self, escrow_id: u32, client: Address) -> Option<Error> {
        if !self.initialized() {
            Some(Error::NotInitialized)
        } else if self.spec_escrow(escrow_id) is None {
            Some(Error::EscrowNotFound)
        } else {
            let e = self.spec_escrow(escrow_id).unwrap();
            if e.client != client {
                Some(Error::Unauthorized)
            } else if e.status != EscrowStatus::Pending {
                Some(Error::InvalidState)
            } else {
                None
            }
        }
    }

    /// The client withdraws an escrow that was never funded.
    pub fn cancel_escrow(&mut self, escrow_id: u32, client: Address) -> (r: Result<(), Error>)
        requires
            old(self).wf(),
            old(self).cancel_escrow_error(escrow_id, client) is None ==> old(self).analytics.cancelled_escrows
                < u32::MAX,
        ensures
            final(self).wf(),
            match old(self).cancel_escrow_error(escrow_id, client) {
                Some(e) => r == Err::<(), Error>(e) && *final(self) == *old(self),
                None => {
                    let e = old(self).escrows@[escrow_id - 1];
                    &&& r is Ok
                    &&& final(self).escrows@ == old(self).escrows@.update(
                        escrow_id - 1,
                        Escrow { status: EscrowStatus::Cancelled, ..e },
                    )
                    &&& final(self).analytics == (Analytics {
                        cancelled_escrows: (old(self).analytics.cancelled_escrows + 1) as u32,
                        ..old(self).analytics
                    })
                    &&& final(self).milestones@ == old(self).milestones@
                    &&& final(self).swaps@ == old(self).swaps@
                    &&& final(self).swap_stats == old(self).swap_stats
                    &&& final(self).admin == old(self).admin
                    &&& final(self).arbiter_fee_bps == old(self).arbiter_fee_bps
                },
            },
    {
        if self.admin.is_none() {
            return Err(Error::NotInitialized);
        }
        let i = self.escrow_index(escrow_id)?;
        let e = self.escrows[i];
        if e.client != client {
            return Err(Error::Unauthorized);
        }
        if e.status != EscrowStatus::Pending {
            return Err(Error::InvalidState);
        }
        self.escrows.set(i, Escrow { status: EscrowStatus::Cancelled, ..e });
        self.analytics.cancelled_escrows = self.analytics.cancelled_escrows + 1;
        Ok(())
    }

    pub fn get_escrow(&self, escrow_id: u32) -> (r: Result<Escrow, Error>)
        ensures
            match self.spec_escrow(escrow_id) {
                Some(e) => r == Ok::<Escrow, Error>(e),
                None => r == Err::<Escrow, Error>(Error::EscrowNotFound),
            },
    {
        let i = self.escrow_index(escrow_id)?;
        Ok(self.escrows[i])
    }

    pub fn get_milestone(&self, escrow_id: u32, milestone_id: u32) -> (r: Result<Milestone, Error>)
        ensures
            match self.spec_milestone(escrow_id, milestone_id) {
                Some(m) => r == Ok::<Milestone, Error>(m),
                None => r == Err::<Milestone, Error>(Error::MilestoneNotFound),
            },
    {
        self.load_milestone(escrow_id, milestone_id)
    }

    pub fn get_analytics(&self) -> (r: Result<Analytics, Error>)
        ensures
            self.initialized() ==> r == Ok::<Analytics, Error>(self.analytics),
            !self.initialized() ==> r == Err::<Analytics, Error>(Error::NotInitialized),
    {
        if self.admin.is_none() {
            return Err(Error::NotInitialized);
        }
        Ok(self.analytics)
    }

    pub fn get_escrow_count(&self) -> (n: u32)
        requires
            self.wf(),
        ensures
            n == self.escrows@.len(),
    {
        self.escrows.len() as u32
    }

    pub fn is_initialized(&self) -> (b: bool)
        ensures
            b == self.initialized(),
    {
        self.admin.is_some()
    }

    pub fn get_admin(&self) -> (r: Result<Address, Error>)
        ensures
            match self.admin {
                Some(a) => r == Ok::<Address, Error>(a),
                None => r == Err::<Address, Error>(Error::NotInitialized),
            },
    {
        match self.admin {
            Some(a) => Ok(a),
            None => Err(Error::NotInitialized),
        }
    }
}

/// A swap that has been claimed, refunded or cancelled is final: no entry
/// point accepts it again.
pub proof fn lemma_settled_swap_is_final(
    c: FreelancerEscrow,
    now: u64,
    swap_id: u64,
    who: Address,
    preimage: Seq<u8>,
    digest: Seq<u8>,
)
    requires
        c.spec_swap(swap_id) is Some,
        c.spec_swap(swap_id).unwrap().status != AtomicSwapStatus::AwaitingCounterparty,
        c.spec_swap(swap_id).unwrap().status != AtomicSwapStatus::Funded,
    ensures
        c.fund_swap_error(now, swap_id, who) is Some,
        c.claim_swap_error(now, swap_id, preimage, digest) is Some,
        c.refund_swap_error(now, swap_id) is Some,
        c.cancel_swap_error(now, swap_id, who) is Some,
{
}

/// At any moment a swap is either still claimable or already refundable,
/// never both: a claim needs `now` before the expiry, a refund at or after
/// it.
pub proof fn lemma_claim_and_refund_exclusive(c: FreelancerEscrow, now: u64, swap_id: u64, preimage: Seq<u8>, digest: Seq<u8>)
    requires
        c.claim_swap_error(now, swap_id, preimage, digest) is None,
    ensures
        c.refund_swap_error(now, swap_id) == Some(Error::SwapNotExpired),
{
}

/// A swap settles by claim only with a preimage whose digest is the hash
/// lock.
pub proof fn lemma_claim_needs_hashlock_preimage(c: FreelancerEscrow, now: u64, swap_id: u64, preimage: Seq<u8>, digest: Seq<u8>)
    requires
        c.claim_swap_error(now, swap_id, preimage, digest) is None,
    ensures
        c.spec_swap(swap_id) is Some,
        digest == c.spec_swap(swap_id).unwrap().hashlock@,
        1 <= preimage.len() <= MAX_PREIMAGE_BYTES,
{
}

/// How the three rulings share a disputed remainder `remaining` with the
/// arbiter fee at `bps`: the client-favoured ruling pays the freelancer
/// nothing; the freelancer-favoured one pays the remainder less a fee of
/// `bps / 10_000` of it, rounded down; a split pays half of that, rounded
/// down, so at most half the freelancer-favoured payout and less than it
/// whenever that payout exceeds 1.
pub proof fn lemma_dispute_rulings(remaining: int, bps: int)
    requires
        remaining >= 0,
        0 <= bps <= 10_000,
    ensures
        ({
            let favoured = FreelancerEscrow::dispute_payout(remaining, bps, 0);
            let client = FreelancerEscrow::dispute_payout(remaining, bps, 1);
            let split = FreelancerEscrow::dispute_payout(remaining, bps, 2);
            &&& client == 0
            &&& 0 <= favoured <= remaining
            &&& remaining * (10_000 - bps) <= favoured * 10_000 < remaining * (10_000 - bps) + 10_000
            &&& 0 <= split
            &&& 2 * split <= favoured <= 2 * split + 1
            &&& favoured > 1 ==> split < favoured
        }),
{
    lemma_fee_bounds(remaining, bps);
    let x = remaining * bps;
    assert(x >= 0) by (nonlinear_arith)
        requires
            x == remaining * bps,
            remaining >= 0,
            bps >= 0,
    ;
    let fee = x / 10_000;
    assert(fee * 10_000 <= x < fee * 10_000 + 10_000) by (nonlinear_arith)
        requires
            fee == x / 10_000,
            x >= 0,
    ;
    assert(remaining * (10_000 - bps) == remaining * 10_000 - x) by (nonlinear_arith)
        requires
            x == remaining * bps,
    ;
    assert(tdiv_signed(x, 10_000) == fee);
    let favoured = remaining - fee;
    assert(favoured >= 0);
    assert(tdiv_signed(favoured, 2) == favoured / 2);
}

} // verus!
