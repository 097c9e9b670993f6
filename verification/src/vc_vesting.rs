//! Venture funding released in tranches: investors vote on each tranche's
//! milestone with their allocation as weight; a tranche approved by the
//! required share is released to the pool's admin, after which investors
//! can compute their pro-rata claim.
use vstd::prelude::*;
use std::collections::HashMap;
use crate::common::{Address, Text, fits_i128, tdiv_signed, div_trunc};

verus! {

broadcast use vstd::std_specs::hash::group_hash_axioms;

/// Longest voting window: 30 days.
pub const MAX_VOTING_PERIOD: u64 = 2_592_000;
pub const MAX_TRANCHES: u32 = 20;

#[derive(Clone, Copy, Debug, PartialEq, Eq, Structural)]
pub enum VCVestingError {
    NotInitialized,
    AlreadyInitialized,
    Unauthorized,
    InvalidParameters,
    PoolNotFound,
    InvalidTranche,
    TrancheNotFound,
    MilestoneAlreadyVoted,
    VotingPeriodEnded,
    InsufficientVotes,
    TrancheAlreadyReleased,
    VotingNotOpen,
    TrancheNotReleased,
    InvalidVotingPeriod,
    InvestorNotFound,
    AlreadyVoted,
}

#[derive(Clone, Debug)]
pub struct Tranche {
    pub id: u32,
    pub total_amount: i128,
    pub released_amount: i128,
    pub milestone_description: Text,
    pub released: bool,
    pub voting_end_time: u64,
    pub required_votes_bps: u32,
    pub approve_votes: i128,
    pub reject_votes: i128,
}

#[derive(Clone, Copy, Debug, PartialEq, Eq, Structural)]
pub struct Vote {
    pub voter: Address,
    pub pool_id: u32,
    pub tranche_id: u32,
    pub approve: bool,
    pub weight: i128,
    pub timestamp: u64,
}

#[derive(Clone, Debug)]
pub struct VCPool {
    pub id: u32,
    pub name: Text,
    pub token: Address,
    pub admin: Address,
    pub total_allocation: i128,
    pub tranche_count: u32,
    pub created_at: u64,
    pub active: bool,
}

#[derive(Clone, Copy, Debug, PartialEq, Eq, Structural)]
pub struct Investor {
    pub address: Address,
    pub allocation: i128,
}

/// The vesting contract's storage.  Tranche `t` of pool `p` lives under
/// `tranche_key(p, t)`, investors under `investor_key(p, address)` and
/// votes under `vote_key(p, t, voter)`.
pub struct VCVestingContract {
    pub admin: Option<Address>,
    pub token: Option<Address>,
    pub pool_count: u32,
    pub pools: HashMap<u32, VCPool>,
    pub tranches: HashMap<u64, Tranche>,
    pub investors: HashMap<u128, Investor>,
    pub investor_counts: HashMap<u32, u32>,
    pub votes: HashMap<u128, Vote>,
    pub total_allocations: HashMap<u32, i128>,
}

pub open spec fn tranche_key(pool_id: u32, tranche_id: u32) -> u64 {
    (pool_id as int * 0x1_0000_0000 + tranche_id as int) as u64
}

fn tranche_key_of(pool_id: u32, tranche_id: u32) -> (k: u64)
    ensures
        k == tranche_key(pool_id, tranche_id),
{
    pool_id as u64 * 0x1_0000_0000 + tranche_id as u64
}

pub open spec fn investor_key(pool_id: u32, investor: Address) -> u128 {
    (pool_id as int * 0x1_0000_0000_0000_0000 + investor as int) as u128
}

fn investor_key_of(pool_id: u32, investor: Address) -> (k: u128)
    ensures
        k == investor_key(pool_id, investor),
{
    pool_id as u128 * 0x1_0000_0000_0000_0000 + investor as u128
}

pub open spec fn vote_key(pool_id: u32, tranche_id: u32, voter: Address) -> u128 {
    (pool_id as int * 0x1_0000_0000_0000_0000_0000_0000 + tranche_id as int * 0x1_0000_0000_0000_0000
        + voter as int) as u128
}

fn vote_key_of(pool_id: u32, tranche_id: u32, voter: Address) -> (k: u128)
    ensures
        k == vote_key(pool_id, tranche_id, voter),
{
    pool_id as u128 * 0x1_0000_0000_0000_0000_0000_0000 + tranche_id as u128 * 0x1_0000_0000_0000_0000
        + voter as u128
}

impl VCVestingContract {
    /// The token is recorded together with the admin.
    pub open spec fn wf(&self) -> bool {
        self.admin is Some <==> self.token is Some
    }

    pub open spec fn spec_total(&self, pool_id: u32) -> i128 {
        if self.total_allocations@.contains_key(pool_id) {
            self.total_allocations@[pool_id]
        } else {
            0
        }
    }

    pub open spec fn spec_investor_count(&self, pool_id: u32) -> u32 {
        if self.investor_counts@.contains_key(pool_id) {
            self.investor_counts@[pool_id]
        } else {
            0
        }
    }

    pub fn new() -> (s: Self)
        ensures
            s.wf(),
            s.admin is None,
            s.pool_count == 0,
            s.pools@ == Map::<u32, VCPool>::empty(),
            s.tranches@ == Map::<u64, Tranche>::empty(),
            s.investors@ == Map::<u128, Investor>::empty(),
            s.votes@ == Map::<u128, Vote>::empty(),
            s.total_allocations@ == Map::<u32, i128>::empty(),
    {
        VCVestingContract {
            admin: None,
            token: None,
            pool_count: 0,
            pools: HashMap::new(),
            tranches: HashMap::new(),
            investors: HashMap::new(),
            investor_counts: HashMap::new(),
            votes: HashMap::new(),
            total_allocations: HashMap::new(),
        }
    }

    pub fn initialize(&mut self, admin: Address, token: Address) -> (r: Result<(), VCVestingError>)
        requires
            old(self).wf(),
        ensures
            final(self).wf(),
            old(self).admin is Some ==> r == Err::<(), VCVestingError>(VCVestingError::AlreadyInitialized)
                && *final(self) == *old(self),
            old(self).admin is None ==> r is Ok && *final(self) == (VCVestingContract {
                admin: Some(admin),
                token: Some(token),
                pool_count: 0,
                ..*old(self)
            }),
    {
        if self.admin.is_some() {
            return Err(VCVestingError::AlreadyInitialized);
        }
        self.admin = Some(admin);
        self.token = Some(token);
        self.pool_count = 0;
        Ok(())
    }

    /// The admin opens an active pool with a positive allocation and 1 to
    /// 20 tranches.  Returns its id.
    pub fn create_pool(&mut self, now: u64, name: Text, total_allocation: i128, tranche_count: u32) -> (r: Result<
        u32,
        VCVestingError,
    >)
        requires
            old(self).wf(),
            old(self).admin is Some && total_allocation > 0 && 0 < tranche_count <= MAX_TRANCHES ==> old(
                self,
            ).pool_count < u32::MAX,
        ensures
            final(self).wf(),
            old(self).admin is None ==> r == Err::<u32, VCVestingError>(VCVestingError::NotInitialized) && *final(
                self) == *old(self),
            old(self).admin is Some && !(total_allocation > 0 && 0 < tranche_count <= MAX_TRANCHES) ==> r == Err::<
                u32,
                VCVestingError,
            >(VCVestingError::InvalidParameters) && *final(self) == *old(self),
            old(self).admin is Some && total_allocation > 0 && 0 < tranche_count <= MAX_TRANCHES ==> {
                let id = (old(self).pool_count + 1) as u32;
                &&& r == Ok::<u32, VCVestingError>(id)
                &&& final(self).pools@ == old(self).pools@.insert(
                    id,
                    VCPool {
                        id,
                        name,
                        token: old(self).token->0,
                        admin: old(self).admin->0,
                        total_allocation,
                        tranche_count,
                        created_at: now,
                        active: true,
                    },
                )
                &&& final(self).total_allocations@ == old(self).total_allocations@.insert(id, 0)
                &&& final(self).investor_counts@ == old(self).investor_counts@.insert(id, 0)
                &&& *final(self) == (VCVestingContract {
                    pool_count: id,
                    pools: final(self).pools,
                    total_allocations: final(self).total_allocations,
                    investor_counts: final(self).investor_counts,
                    ..*old(self)
                })
            },
    {
        let admin = match self.admin {
            None => return Err(VCVestingError::NotInitialized),
            Some(a) => a,
        };
        if total_allocation <= 0 || tranche_count == 0 || tranche_count > MAX_TRANCHES {
            return Err(VCVestingError::InvalidParameters);
        }
        let id = self.pool_count + 1;
        let token = match self.token {
            None => return Err(VCVestingError::NotInitialized),
            Some(t) => t,
        };
        self.pools.insert(
            id,
            VCPool { id, name, token, admin, total_allocation, tranche_count, created_at: now, active: true },
        );
        self.pool_count = id;
        self.total_allocations.insert(id, 0);
        self.investor_counts.insert(id, 0);
        Ok(id)
    }

    /// Why `add_tranche` fails, if it does.
    pub open spec fn tranche_error(&self, pool_id: u32, tranche_id: u32, amount: i128, required_votes_bps: u32) -> Option<
        VCVestingError,
    > {
        if self.admin is None {
            Some(VCVestingError::NotInitialized)
        } else if !self.pools@.contains_key(pool_id) {
            Some(VCVestingError::PoolNotFound)
        } else if !self.pools@[pool_id].active {
            Some(VCVestingError::InvalidParameters)
        } else if tranche_id == 0 || tranche_id > self.pools@[pool_id].tranche_count {
            Some(VCVestingError::InvalidTranche)
        } else if amount <= 0 || required_votes_bps == 0 || required_votes_bps > 10000 {
            Some(VCVestingError::InvalidParameters)
        } else {
            None
        }
    }

    /// The admin defines (or redefines) a tranche of an active pool: a
    /// positive amount released when `required_votes_bps` of the
    /// investors' allocation approves its milestone.
    pub fn add_tranche(
        &mut self,
        pool_id: u32,
        tranche_id: u32,
        amount: i128,
        milestone_description: Text,
        required_votes_bps: u32,
    ) -> (r: Result<(), VCVestingError>)
        requires
            old(self).wf(),
        ensures
            final(self).wf(),
            match old(self).tranche_error(pool_id, tranche_id, amount, required_votes_bps) {
                Some(e) => r == Err::<(), VCVestingError>(e) && *final(self) == *old(self),
                None => {
                    &&& r is Ok
                    &&& final(self).tranches@ == old(self).tranches@.insert(
                        tranche_key(pool_id, tranche_id),
                        Tranche {
                            id: tranche_id,
                            total_amount: amount,
                            released_amount: 0,
                            milestone_description,
                            released: false,
                            voting_end_time: 0,
                            required_votes_bps,
                            approve_votes: 0,
                            reject_votes: 0,
                        },
                    )
                    &&& *final(self) == (VCVestingContract { tranches: final(self).tranches, ..*old(self) })
                },
            },
    {
        if self.admin.is_none() {
            return Err(VCVestingError::NotInitialized);
        }
        let (active, count) = match self.pools.get(&pool_id) {
            None => return Err(VCVestingError::PoolNotFound),
            Some(p) => (p.active, p.tranche_count),
        };
        if !active {
            return Err(VCVestingError::InvalidParameters);
        }
        if tranche_id == 0 || tranche_id > count {
            return Err(VCVestingError::InvalidTranche);
        }
        if amount <= 0 || required_votes_bps == 0 || required_votes_bps > 10000 {
            return Err(VCVestingError::InvalidParameters);
        }
        let k = tranche_key_of(pool_id, tranche_id);
        self.tranches.insert(
            k,
            Tranche {
                id: tranche_id,
                total_amount: amount,
                released_amount: 0,
                milestone_description,
                released: false,
                voting_end_time: 0,
                required_votes_bps,
                approve_votes: 0,
                reject_votes: 0,
            },
        );
        Ok(())
    }

    /// The admin records (or replaces) an investor's positive allocation;
    /// the pool's investor count and total allocation grow.
    pub fn add_investor(&mut self, pool_id: u32, investor: Address, allocation: i128) -> (r: Result<
        (),
        VCVestingError,
    >)
        requires
            old(self).wf(),
            old(self).admin is Some && allocation > 0 && old(self).pools@.contains_key(pool_id) ==> old(
                self,
            ).spec_investor_count(pool_id) < u32::MAX && fits_i128(old(self).spec_total(pool_id) + allocation),
        ensures
            final(self).wf(),
            old(self).admin is None ==> r == Err::<(), VCVestingError>(VCVestingError::NotInitialized) && *final(
                self) == *old(self),
            old(self).admin is Some && allocation <= 0 ==> r == Err::<(), VCVestingError>(
                VCVestingError::InvalidParameters,
            ) && *final(self) == *old(self),
            old(self).admin is Some && allocation > 0 && !old(self).pools@.contains_key(pool_id) ==> r == Err::<
                (),
                VCVestingError,
            >(VCVestingError::PoolNotFound) && *final(self) == *old(self),
            old(self).admin is Some && allocation > 0 && old(self).pools@.contains_key(pool_id) ==> {
                &&& r is Ok
                &&& final(self).investors@ == old(self).investors@.insert(
                    investor_key(pool_id, investor),
                    Investor { address: investor, allocation },
                )
                &&& final(self).investor_counts@ == old(self).investor_counts@.insert(
                    pool_id,
                    (old(self).spec_investor_count(pool_id) + 1) as u32,
                )
                &&& final(self).total_allocations@ == old(self).total_allocations@.insert(
                    pool_id,
                    (old(self).spec_total(pool_id) + allocation) as i128,
                )
                &&& *final(self) == (VCVestingContract {
                    investors: final(self).investors,
                    investor_counts: final(self).investor_counts,
                    total_allocations: final(self).total_allocations,
                    ..*old(self)
                })
            },
    {
        if self.admin.is_none() {
            return Err(VCVestingError::NotInitialized);
        }
        if allocation <= 0 {
            return Err(VCVestingError::InvalidParameters);
        }
        if !self.pools.contains_key(&pool_id) {
            return Err(VCVestingError::PoolNotFound);
        }
        let k = investor_key_of(pool_id, investor);
        self.investors.insert(k, Investor { address: investor, allocation });
        let count = match self.investor_counts.get(&pool_id) {
            Some(c) => *c,
            None => 0,
        };
        self.investor_counts.insert(pool_id, count + 1);
        let total = match self.total_allocations.get(&pool_id) {
            Some(t) => *t,
            None => 0,
        };
        self.total_allocations.insert(pool_id, total + allocation);
        Ok(())
    }

    /// Replace a stored tranche's progress fields.
    fn update_tranche(
        &mut self,
        k: u64,
        released: bool,
        released_amount: i128,
        voting_end_time: u64,
        approve_votes: i128,
        reject_votes: i128,
    )
        requires
            old(self).tranches@.contains_key(k),
        ensures
            final(self).tranches@ == old(self).tranches@.insert(k, final(self).tranches@[k]),
            Self::tranche_updated(
                old(self).tranches@[k],
                final(self).tranches@[k],
                released,
                released_amount,
                voting_end_time,
                approve_votes,
                reject_votes,
            ),
            *final(self) == (VCVestingContract { tranches: final(self).tranches, ..*old(self) }),
    {
        let t = self.tranches.remove(&k).unwrap();
        self.tranches.insert(
            k,
            Tranche {
                id: t.id,
                total_amount: t.total_amount,
                released_amount,
                milestone_description: t.milestone_description,
                released,
                voting_end_time,
                required_votes_bps: t.required_votes_bps,
                approve_votes,
                reject_votes,
            },
        );
        proof {
            assert(self.tranches@ =~= old(self).tranches@.insert(k, self.tranches@[k]));
        }
    }

    /// `n` is `o` with the given progress fields.
    pub open spec fn tranche_updated(
        o: Tranche,
        n: Tranche,
        released: bool,
        released_amount: i128,
        voting_end_time: u64,
        approve_votes: i128,
        reject_votes: i128,
    ) -> bool {
        &&& n.released == released && n.released_amount == released_amount && n.voting_end_time == voting_end_time
        &&& n.approve_votes == approve_votes && n.reject_votes == reject_votes
        &&& n.id == o.id && n.total_amount == o.total_amount && n.milestone_description == o.milestone_description
        &&& n.required_votes_bps == o.required_votes_bps
    }

    /// Why `open_voting` fails, if it does.
    pub open spec fn open_error(&self, pool_id: u32, tranche_id: u32, voting_duration: u64) -> Option<VCVestingError> {
        let k = tranche_key(pool_id, tranche_id);
        if self.admin is None {
            Some(VCVestingError::NotInitialized)
        } else if voting_duration == 0 || voting_duration > MAX_VOTING_PERIOD {
            Some(VCVestingError::InvalidVotingPeriod)
        } else if !self.tranches@.contains_key(k) {
            Some(VCVestingError::TrancheNotFound)
        } else if self.tranches@[k].released {
            Some(VCVestingError::TrancheAlreadyReleased)
        } else {
            None
        }
    }

    /// The admin opens (or reopens) voting on an unreleased tranche for up
    /// to 30 days from `now`.
    pub fn open_voting(&mut self, now: u64, pool_id: u32, tranche_id: u32, voting_duration: u64) -> (r: Result<
        (),
        VCVestingError,
    >)
        requires
            old(self).wf(),
            now + MAX_VOTING_PERIOD <= u64::MAX,
        ensures
            final(self).wf(),
            match old(self).open_error(pool_id, tranche_id, voting_duration) {
                Some(e) => r == Err::<(), VCVestingError>(e) && *final(self) == *old(self),
                None => {
                    let k = tranche_key(pool_id, tranche_id);
                    let t = old(self).tranches@[k];
                    &&& r is Ok
                    &&& final(self).tranches@ == old(self).tranches@.insert(k, final(self).tranches@[k])
                    &&& Self::tranche_updated(
                        t,
                        final(self).tranches@[k],
                        t.released,
                        t.released_amount,
                        (now + voting_duration) as u64,
                        t.approve_votes,
                        t.reject_votes,
                    )
                    &&& *final(self) == (VCVestingContract { tranches: final(self).tranches, ..*old(self) })
                },
            },
    {
        if self.admin.is_none() {
            return Err(VCVestingError::NotInitialized);
        }
        if voting_duration == 0 || voting_duration > MAX_VOTING_PERIOD {
            return Err(VCVestingError::InvalidVotingPeriod);
        }
        let k = tranche_key_of(pool_id, tranche_id);
        let (released, released_amount, approve, reject) = match self.tranches.get(&k) {
            None => return Err(VCVestingError::TrancheNotFound),
            Some(t) => (t.released, t.released_amount, t.approve_votes, t.reject_votes),
        };
        if released {
            return Err(VCVestingError::TrancheAlreadyReleased);
        }
        self.update_tranche(k, released, released_amount, now + voting_duration, approve, reject);
        Ok(())
    }

    /// Why `vote` fails, if it does.
    pub open spec fn vote_error(&self, now: u64, pool_id: u32, tranche_id: u32, voter: Address) -> Option<
        VCVestingError,
    > {
        let tk = tranche_key(pool_id, tranche_id);
        if self.votes@.contains_key(vote_key(pool_id, tranche_id, voter)) {
            Some(VCVestingError::AlreadyVoted)
        } else if !self.investors@.contains_key(investor_key(pool_id, voter)) {
            Some(VCVestingError::InvestorNotFound)
        } else if !self.tranches@.contains_key(tk) {
            Some(VCVestingError::TrancheNotFound)
        } else if self.tranches@[tk].released {
            Some(VCVestingError::TrancheAlreadyReleased)
        } else if now > self.tranches@[tk].voting_end_time {
            Some(VCVestingError::VotingPeriodEnded)
        } else {
            None
        }
    }

    /// An investor votes once on a tranche during its voting window, with
    /// its allocation as weight.
    pub fn vote(&mut self, now: u64, pool_id: u32, tranche_id: u32, voter: Address, approve: bool) -> (r: Result<
        (),
        VCVestingError,
    >)
        requires
            old(self).wf(),
            old(self).vote_error(now, pool_id, tranche_id, voter) is None ==> {
                let t = old(self).tranches@[tranche_key(pool_id, tranche_id)];
                let w = old(self).investors@[investor_key(pool_id, voter)].allocation;
                approve ==> fits_i128(t.approve_votes + w)
            },
            old(self).vote_error(now, pool_id, tranche_id, voter) is None ==> {
                let t = old(self).tranches@[tranche_key(pool_id, tranche_id)];
                let w = old(self).investors@[investor_key(pool_id, voter)].allocation;
                !approve ==> fits_i128(t.reject_votes + w)
            },
        ensures
            final(self).wf(),
            match old(self).vote_error(now, pool_id, tranche_id, voter) {
                Some(e) => r == Err::<(), VCVestingError>(e) && *final(self) == *old(self),
                None => {
                    let k = tranche_key(pool_id, tranche_id);
                    let t = old(self).tranches@[k];
                    let w = old(self).investors@[investor_key(pool_id, voter)].allocation;
                    &&& r is Ok
                    &&& final(self).tranches@ == old(self).tranches@.insert(k, final(self).tranches@[k])
                    &&& Self::tranche_updated(
                        t,
                        final(self).tranches@[k],
                        t.released,
                        t.released_amount,
                        t.voting_end_time,
                        if approve {
                            (t.approve_votes + w) as i128
                        } else {
                            t.approve_votes
                        },
                        if approve {
                            t.reject_votes
                        } else {
                            (t.reject_votes + w) as i128
                        },
                    )
                    &&& final(self).votes@ == old(self).votes@.insert(
                        vote_key(pool_id, tranche_id, voter),
                        Vote { voter, pool_id, tranche_id, approve, weight: w, timestamp: now },
                    )
                    &&& *final(self) == (VCVestingContract {
                        tranches: final(self).tranches,
                        votes: final(self).votes,
                        ..*old(self)
                    })
                },
            },
    {
        let vk = vote_key_of(pool_id, tranche_id, voter);
        if self.votes.contains_key(&vk) {
            return Err(VCVestingError::AlreadyVoted);
        }
        let ik = investor_key_of(pool_id, voter);
        let w = match self.investors.get(&ik) {
            None => return Err(VCVestingError::InvestorNotFound),
            Some(i) => i.allocation,
        };
        let k = tranche_key_of(pool_id, tranche_id);
        let (released, released_amount, end, approve_votes, reject_votes) = match self.tranches.get(&k) {
            None => return Err(VCVestingError::TrancheNotFound),
            Some(t) => (t.released, t.released_amount, t.voting_end_time, t.approve_votes, t.reject_votes),
        };
        if released {
            return Err(VCVestingError::TrancheAlreadyReleased);
        }
        if now > end {
            return Err(VCVestingError::VotingPeriodEnded);
        }
        if approve {
            self.update_tranche(k, released, released_amount, end, approve_votes + w, reject_votes);
        } else {
            self.update_tranche(k, released, released_amount, end, approve_votes, reject_votes + w);
        }
        self.votes.insert(vk, Vote { voter, pool_id, tranche_id, approve, weight: w, timestamp: now });
        Ok(())
    }

    /// The approval share of a tranche in basis points of the pool's total
    /// allocation (truncated).
    pub open spec fn approval_bps(approve_votes: int, total: int) -> int {
        tdiv_signed(approve_votes * 10000, total)
    }

    /// Why `finalize_voting` fails, if it does.
    pub open spec fn finalize_error(&self, now: u64, pool_id: u32, tranche_id: u32) -> Option<VCVestingError> {
        let k = tranche_key(pool_id, tranche_id);
        if !self.tranches@.contains_key(k) {
            Some(VCVestingError::TrancheNotFound)
        } else {
            let t = self.tranches@[k];
            if t.released {
                Some(VCVestingError::TrancheAlreadyReleased)
            } else if now <= t.voting_end_time {
                Some(VCVestingError::VotingNotOpen)
            } else if self.spec_total(pool_id) == 0 {
                Some(VCVestingError::InsufficientVotes)
            } else if Self::approval_bps(t.approve_votes as int, self.spec_total(pool_id) as int)
                >= t.required_votes_bps {
                if self.token is None {
                    Some(VCVestingError::NotInitialized)
                } else if !self.pools@.contains_key(pool_id) {
                    Some(VCVestingError::PoolNotFound)
                } else {
                    None
                }
            } else {
                None
            }
        }
    }

    /// After its window closes, anyone finalizes a tranche's vote: it is
    /// approved when the approving allocation reaches the required share of
    /// the pool's total, and then released in full (the host pays the
    /// amount to the pool's admin).  Returns whether it was approved.
    pub fn finalize_voting(&mut self, now: u64, pool_id: u32, tranche_id: u32) -> (r: Result<bool, VCVestingError>)
        requires
            old(self).wf(),
            old(self).tranches@.contains_key(tranche_key(pool_id, tranche_id)) ==> fits_i128(
                old(self).tranches@[tranche_key(pool_id, tranche_id)].approve_votes * 10000,
            ) && !(old(self).tranches@[tranche_key(pool_id, tranche_id)].approve_votes * 10000 == i128::MIN && old(
                self,
            ).spec_total(pool_id) == -1),
        ensures
            final(self).wf(),
            match old(self).finalize_error(now, pool_id, tranche_id) {
                Some(e) => r == Err::<bool, VCVestingError>(e) && *final(self) == *old(self),
                None => {
                    let k = tranche_key(pool_id, tranche_id);
                    let t = old(self).tranches@[k];
                    let approved = Self::approval_bps(t.approve_votes as int, old(self).spec_total(pool_id) as int)
                        >= t.required_votes_bps;
                    &&& r == Ok::<bool, VCVestingError>(approved)
                    &&& !approved ==> *final(self) == *old(self)
                    &&& approved ==> {
                        &&& final(self).tranches@ == old(self).tranches@.insert(k, final(self).tranches@[k])
                        &&& Self::tranche_updated(
                            t,
                            final(self).tranches@[k],
                            true,
                            t.total_amount,
                            t.voting_end_time,
                            t.approve_votes,
                            t.reject_votes,
                        )
                        &&& *final(self) == (VCVestingContract { tranches: final(self).tranches, ..*old(self) })
                    }
                },
            },
    {
        let k = tranche_key_of(pool_id, tranche_id);
        let (released, total_amount, end, approve_votes, reject_votes, required) = match self.tranches.get(&k) {
            None => return Err(VCVestingError::TrancheNotFound),
            Some(t) => (
                t.released,
                t.total_amount,
                t.voting_end_time,
                t.approve_votes,
                t.reject_votes,
                t.required_votes_bps,
            ),
        };
        if released {
            return Err(VCVestingError::TrancheAlreadyReleased);
        }
        if now <= end {
            return Err(VCVestingError::VotingNotOpen);
        }
        let total = match self.total_allocations.get(&pool_id) {
            Some(t) => *t,
            None => 0,
        };
        if total == 0 {
            return Err(VCVestingError::InsufficientVotes);
        }
        let rate = div_trunc(approve_votes * 10000, total);
        let approved = rate >= required as i128;
        if approved {
            if self.token.is_none() {
                return Err(VCVestingError::NotInitialized);
            }
            if !self.pools.contains_key(&pool_id) {
                return Err(VCVestingError::PoolNotFound);
            }
            self.update_tranche(k, true, total_amount, end, approve_votes, reject_votes);
        }
        Ok(approved)
    }

    /// Why `claim_tokens` fails, if it does.
    pub open spec fn claim_error(&self, pool_id: u32, tranche_id: u32, investor: Address) -> Option<VCVestingError> {
        let k = tranche_key(pool_id, tranche_id);
        let ik = investor_key(pool_id, investor);
        if !self.tranches@.contains_key(k) {
            Some(VCVestingError::TrancheNotFound)
        } else if !self.tranches@[k].released {
            Some(VCVestingError::TrancheNotReleased)
        } else if !self.investors@.contains_key(ik) {
            Some(VCVestingError::InvestorNotFound)
        } else if !self.pools@.contains_key(pool_id) {
            Some(VCVestingError::PoolNotFound)
        } else if self.spec_total(pool_id) == 0 {
            Some(VCVestingError::InsufficientVotes)
        } else if tdiv_signed(
            self.tranches@[k].total_amount * self.investors@[ik].allocation,
            self.spec_total(pool_id) as int,
        ) <= 0 {
            Some(VCVestingError::InsufficientVotes)
        } else if self.token is None {
            Some(VCVestingError::NotInitialized)
        } else {
            None
        }
    }

    /// An investor's pro-rata share of a released tranche: the tranche
    /// amount times its allocation over the pool's total (truncated),
    /// which the host pays out.  Nothing records the claim.
    pub fn claim_tokens(&self, pool_id: u32, tranche_id: u32, investor: Address) -> (r: Result<i128, VCVestingError>)
        requires
            self.tranches@.contains_key(tranche_key(pool_id, tranche_id)) && self.investors@.contains_key(
                investor_key(pool_id, investor),
            ) ==> fits_i128(
                self.tranches@[tranche_key(pool_id, tranche_id)].total_amount * self.investors@[investor_key(
                    pool_id,
                    investor,
                )].allocation,
            ) && !(self.tranches@[tranche_key(pool_id, tranche_id)].total_amount * self.investors@[investor_key(
                pool_id,
                investor,
            )].allocation == i128::MIN && self.spec_total(pool_id) == -1),
        ensures
            match self.claim_error(pool_id, tranche_id, investor) {
                Some(e) => r == Err::<i128, VCVestingError>(e),
                None => r == Ok::<i128, VCVestingError>(
                    tdiv_signed(
                        self.tranches@[tranche_key(pool_id, tranche_id)].total_amount * self.investors@[investor_key(
                            pool_id,
                            investor,
                        )].allocation,
                        self.spec_total(pool_id) as int,
                    ) as i128,
                ),
            },
    {
        let k = tranche_key_of(pool_id, tranche_id);
        let (released, amount) = match self.tranches.get(&k) {
            None => return Err(VCVestingError::TrancheNotFound),
            Some(t) => (t.released, t.total_amount),
        };
        if !released {
            return Err(VCVestingError::TrancheNotReleased);
        }
        let ik = investor_key_of(pool_id, investor);
        let allocation = match self.investors.get(&ik) {
            None => return Err(VCVestingError::InvestorNotFound),
            Some(i) => i.allocation,
        };
        if !self.pools.contains_key(&pool_id) {
            return Err(VCVestingError::PoolNotFound);
        }
        let total = match self.total_allocations.get(&pool_id) {
            Some(t) => *t,
            None => 0,
        };
        if total == 0 {
            return Err(VCVestingError::InsufficientVotes);
        }
        let claim = div_trunc(amount * allocation, total);
        if claim <= 0 {
            return Err(VCVestingError::InsufficientVotes);
        }
        if self.token.is_none() {
            return Err(VCVestingError::NotInitialized);
        }
        Ok(claim)
    }

    pub fn get_pool(&self, pool_id: u32) -> (r: Result<&VCPool, VCVestingError>)
        ensures
            self.pools@.contains_key(pool_id) ==> r == Ok::<&VCPool, VCVestingError>(&self.pools@[pool_id]),
            !self.pools@.contains_key(pool_id) ==> r == Err::<&VCPool, VCVestingError>(VCVestingError::PoolNotFound),
    {
        match self.pools.get(&pool_id) {
            Some(p) => Ok(p),
            None => Err(VCVestingError::PoolNotFound),
        }
    }

    pub fn get_tranche(&self, pool_id: u32, tranche_id: u32) -> (r: Result<&Tranche, VCVestingError>)
        ensures
            self.tranches@.contains_key(tranche_key(pool_id, tranche_id)) ==> r == Ok::<&Tranche, VCVestingError>(
                &self.tranches@[tranche_key(pool_id, tranche_id)],
            ),
            !self.tranches@.contains_key(tranche_key(pool_id, tranche_id)) ==> r == Err::<&Tranche, VCVestingError>(
                VCVestingError::TrancheNotFound,
            ),
    {
        let k = tranche_key_of(pool_id, tranche_id);
        match self.tranches.get(&k) {
            Some(t) => Ok(t),
            None => Err(VCVestingError::TrancheNotFound),
        }
    }

    pub fn get_investor(&self, pool_id: u32, investor: Address) -> (r: Result<Investor, VCVestingError>)
        ensures
            self.investors@.contains_key(investor_key(pool_id, investor)) ==> r == Ok::<Investor, VCVestingError>(
                self.investors@[investor_key(pool_id, investor)],
            ),
            !self.investors@.contains_key(investor_key(pool_id, investor)) ==> r == Err::<Investor, VCVestingError>(
                VCVestingError::InvestorNotFound,
            ),
    {
        let k = investor_key_of(pool_id, investor);
        match self.investors.get(&k) {
            Some(i) => Ok(*i),
            None => Err(VCVestingError::InvestorNotFound),
        }
    }

    pub fn has_voted(&self, pool_id: u32, tranche_id: u32, voter: Address) -> (b: bool)
        ensures
            b == self.votes@.contains_key(vote_key(pool_id, tranche_id, voter)),
    {
        let k = vote_key_of(pool_id, tranche_id, voter);
        self.votes.contains_key(&k)
    }
}

/// An investor votes at most once per tranche: after a vote is recorded,
/// voting again is refused.
pub proof fn lemma_single_vote(c: VCVestingContract, now: u64, pool_id: u32, tranche_id: u32, voter: Address)
    requires
        c.votes@.contains_key(vote_key(pool_id, tranche_id, voter)),
    ensures
        c.vote_error(now, pool_id, tranche_id, voter) == Some(VCVestingError::AlreadyVoted),
{
}

/// A released tranche stays released: it can be neither voted on,
/// reopened nor finalized again.
pub proof fn lemma_release_is_final(c: VCVestingContract, now: u64, pool_id: u32, tranche_id: u32, voter: Address, d: u64)
    requires
        c.admin is Some,
        0 < d <= MAX_VOTING_PERIOD,
        c.tranches@.contains_key(tranche_key(pool_id, tranche_id)),
        c.tranches@[tranche_key(pool_id, tranche_id)].released,
    ensures
        c.finalize_error(now, pool_id, tranche_id) == Some(VCVestingError::TrancheAlreadyReleased),
        c.open_error(pool_id, tranche_id, d) == Some(VCVestingError::TrancheAlreadyReleased),
        c.vote_error(now, pool_id, tranche_id, voter) is Some,
{
}

} // verus!
