//! Token vesting: the admin escrows a beneficiary's allocation on a linear
//! schedule with a cliff; the beneficiary claims what has vested.  The
//! admin can also record and unlock milestones.
use vstd::prelude::*;
use std::collections::HashMap;
use crate::common::{Address, fits_i128, sat_i128, max_int};

verus! {

broadcast use vstd::std_specs::hash::group_hash_axioms;

#[derive(Clone, Copy, Debug, PartialEq, Eq, Structural)]
pub enum VestingError {
    NotInitialized,
    AlreadyInitialized,
    Unauthorized,
    InvalidSchedule,
    ScheduleExists,
    NoVestingSchedule,
    CliffNotReached,
    NoTokensToClaim,
    MilestoneAlreadyUnlocked,
    MilestoneNotFound,
}

#[derive(Clone, Copy, Debug, PartialEq, Eq, Structural)]
pub struct VestingSchedule {
    pub total_amount: i128,
    pub released_amount: i128,
    pub start_time: u64,
    pub cliff_time: u64,
    pub end_time: u64,
}

#[derive(Clone, Copy, Debug, PartialEq, Eq, Structural)]
pub struct Milestone {
    pub percent_bps: u32,
    pub unlocked: bool,
}

/// The vesting vault's storage.  Milestone `m` of a beneficiary is stored
/// under `milestone_key(beneficiary, m)`.
pub struct TokenVestingContract {
    pub admin: Option<Address>,
    pub token: Option<Address>,
    pub schedules: HashMap<Address, VestingSchedule>,
    pub milestones: HashMap<u128, Milestone>,
}

pub open spec fn milestone_key(beneficiary: Address, milestone_id: u32) -> u128 {
    (beneficiary as int * 0x1_0000_0000 + milestone_id as int) as u128
}

fn milestone_key_of(beneficiary: Address, milestone_id: u32) -> (k: u128)
    ensures
        k == milestone_key(beneficiary, milestone_id),
{
    beneficiary as u128 * 0x1_0000_0000 + milestone_id as u128
}

/// What has vested by `now`: nothing before the cliff, everything from the
/// end, in between the share of the total proportional to the time since
/// the start (truncated).
pub open spec fn vested(s: VestingSchedule, now: u64) -> int {
    if now < s.cliff_time {
        0
    } else if now >= s.end_time {
        s.total_amount as int
    } else {
        (s.total_amount * (now - s.start_time)) / ((s.end_time - s.start_time) as int)
    }
}

/// What can be claimed at `now`: the vested amount less what was released,
/// never negative.
pub open spec fn claimable(s: VestingSchedule, now: u64) -> int {
    if now < s.cliff_time {
        0
    } else {
        max_int(sat_i128(vested(s, now) - s.released_amount), 0)
    }
}

impl TokenVestingContract {
    /// The token is recorded with the admin; schedules exist only after
    /// initialization and have `start <= cliff <= end` and a positive
    /// total.
    pub open spec fn wf(&self) -> bool {
        &&& (self.admin is Some <==> self.token is Some)
        &&& self.admin is None ==> self.schedules@.dom().is_empty()
        &&& forall|b: Address| #[trigger] self.schedules@.contains_key(b) ==> {
            let s = self.schedules@[b];
            s.start_time <= s.cliff_time <= s.end_time && s.total_amount > 0
        }
    }

    /// The linear arithmetic of a claim stays in range.
    pub open spec fn claim_fits(&self, beneficiary: Address, now: u64) -> bool {
        let s = self.schedules@[beneficiary];
        self.schedules@.contains_key(beneficiary) && s.cliff_time <= now < s.end_time ==> fits_i128(
            s.total_amount * (now - s.start_time),
        )
    }

    pub fn new() -> (s: Self)
        ensures
            s.wf(),
            s.admin is None,
            s.schedules@ == Map::<Address, VestingSchedule>::empty(),
            s.milestones@ == Map::<u128, Milestone>::empty(),
    {
        TokenVestingContract { admin: None, token: None, schedules: HashMap::new(), milestones: HashMap::new() }
    }

    pub fn initialize(&mut self, admin: Address, token: Address) -> (r: Result<(), VestingError>)
        requires
            old(self).wf(),
        ensures
            final(self).wf(),
            old(self).admin is Some ==> r == Err::<(), VestingError>(VestingError::AlreadyInitialized) && *final(
                self) == *old(self),
            old(self).admin is None ==> r is Ok && *final(self) == (TokenVestingContract {
                admin: Some(admin),
                token: Some(token),
                ..*old(self)
            }),
    {
        if self.admin.is_some() {
            return Err(VestingError::AlreadyInitialized);
        }
        self.admin = Some(admin);
        self.token = Some(token);
        Ok(())
    }

    /// Why `create_schedule` fails, if it does.
    pub open spec fn create_error(&self, beneficiary: Address, total_amount: i128, start_time: u64, cliff_duration: u64, duration: u64) -> Option<
        VestingError,
    > {
        if self.admin is None {
            Some(VestingError::NotInitialized)
        } else if total_amount <= 0 || duration == 0 {
            Some(VestingError::InvalidSchedule)
        } else if self.schedules@.contains_key(beneficiary) {
            Some(VestingError::ScheduleExists)
        } else if cliff_duration > duration {
            Some(VestingError::InvalidSchedule)
        } else {
            None
        }
    }

    /// The admin escrows `total_amount` for a beneficiary, vesting linearly
    /// from `start_time` over `duration` seconds after a cliff of
    /// `cliff_duration`.  The host moves the total from the admin to the
    /// contract.
    pub fn create_schedule(
        &mut self,
        beneficiary: Address,
        total_amount: i128,
        start_time: u64,
        cliff_duration: u64,
        duration: u64,
    ) -> (r: Result<(), VestingError>)
        requires
            old(self).wf(),
            old(self).admin is Some && total_amount > 0 && duration > 0 && !old(self).schedules@.contains_key(
                beneficiary,
            ) ==> start_time + cliff_duration <= u64::MAX && start_time + duration <= u64::MAX,
        ensures
            final(self).wf(),
            match old(self).create_error(beneficiary, total_amount, start_time, cliff_duration, duration) {
                Some(e) => r == Err::<(), VestingError>(e) && *final(self) == *old(self),
                None => {
                    &&& r is Ok
                    &&& final(self).schedules@ == old(self).schedules@.insert(
                        beneficiary,
                        VestingSchedule {
                            total_amount,
                            released_amount: 0,
                            start_time,
                            cliff_time: (start_time + cliff_duration) as u64,
                            end_time: (start_time + duration) as u64,
                        },
                    )
                    &&& final(self).milestones@ == old(self).milestones@
                    &&& final(self).admin == old(self).admin
                    &&& final(self).token == old(self).token
                },
            },
    {
        if self.admin.is_none() {
            return Err(VestingError::NotInitialized);
        }
        if total_amount <= 0 || duration == 0 {
            return Err(VestingError::InvalidSchedule);
        }
        if self.schedules.contains_key(&beneficiary) {
            return Err(VestingError::ScheduleExists);
        }
        let cliff_time = start_time + cliff_duration;
        let end_time = start_time + duration;
        if cliff_time > end_time {
            return Err(VestingError::InvalidSchedule);
        }
        if self.token.is_none() {
            return Err(VestingError::NotInitialized);
        }
        self.schedules.insert(
            beneficiary,
            VestingSchedule { total_amount, released_amount: 0, start_time, cliff_time, end_time },
        );
        Ok(())
    }

    /// The admin records a milestone (replacing one with the same id) as
    /// locked.
    pub fn add_milestone(&mut self, beneficiary: Address, milestone_id: u32, percent_bps: u32) -> (r: Result<
        (),
        VestingError,
    >)
        requires
            old(self).wf(),
        ensures
            final(self).wf(),
            old(self).admin is None ==> r == Err::<(), VestingError>(VestingError::NotInitialized) && *final(self)
                == *old(self),
            old(self).admin is Some ==> r is Ok && final(self).milestones@ == old(self).milestones@.insert(
                milestone_key(beneficiary, milestone_id),
                Milestone { percent_bps, unlocked: false },
            ) && final(self).schedules@ == old(self).schedules@ && final(self).admin == old(self).admin && final(
                self).token == old(self).token,
    {
        if self.admin.is_none() {
            return Err(VestingError::NotInitialized);
        }
        let k = milestone_key_of(beneficiary, milestone_id);
        self.milestones.insert(k, Milestone { percent_bps, unlocked: false });
        Ok(())
    }

    /// The admin unlocks a recorded, still locked milestone.
    pub fn unlock_milestone(&mut self, beneficiary: Address, milestone_id: u32) -> (r: Result<(), VestingError>)
        requires
            old(self).wf(),
        ensures
            final(self).wf(),
            ({
                let k = milestone_key(beneficiary, milestone_id);
                &&& old(self).admin is None ==> r == Err::<(), VestingError>(VestingError::NotInitialized)
                    && *final(self) == *old(self)
                &&& old(self).admin is Some && !old(self).milestones@.contains_key(k) ==> r == Err::<
                    (),
                    VestingError,
                >(VestingError::MilestoneNotFound) && *final(self) == *old(self)
                &&& old(self).admin is Some && old(self).milestones@.contains_key(k) && old(
                    self).milestones@[k].unlocked ==> r == Err::<(), VestingError>(
                    VestingError::MilestoneAlreadyUnlocked,
                ) && *final(self) == *old(self)
                &&& old(self).admin is Some && old(self).milestones@.contains_key(k) && !old(
                    self).milestones@[k].unlocked ==> r is Ok && final(self).milestones@ == old(self).milestones@.insert(
                    k,
                    Milestone { unlocked: true, ..old(self).milestones@[k] },
                ) && final(self).schedules@ == old(self).schedules@ && final(self).admin == old(self).admin
                    && final(self).token == old(self).token
            }),
    {
        if self.admin.is_none() {
            return Err(VestingError::NotInitialized);
        }
        let k = milestone_key_of(beneficiary, milestone_id);
        let m = match self.milestones.get(&k) {
            None => return Err(VestingError::MilestoneNotFound),
            Some(m) => *m,
        };
        if m.unlocked {
            return Err(VestingError::MilestoneAlreadyUnlocked);
        }
        self.milestones.insert(k, Milestone { unlocked: true, ..m });
        Ok(())
    }

    /// What the beneficiary can claim at `now` (0 without a schedule).
    pub fn claimable_amount(&self, now: u64, beneficiary: Address) -> (a: i128)
        requires
            self.wf(),
            self.claim_fits(beneficiary, now),
        ensures
            self.schedules@.contains_key(beneficiary) ==> a == claimable(self.schedules@[beneficiary], now),
            !self.schedules@.contains_key(beneficiary) ==> a == 0,
    {
        let s = match self.schedules.get(&beneficiary) {
            None => return 0,
            Some(s) => *s,
        };
        if now < s.cliff_time {
            return 0;
        }
        let linear: i128 = if now >= s.end_time {
            s.total_amount
        } else {
            let elapsed = now - s.start_time;
            let duration = s.end_time - s.start_time;
            s.total_amount * (elapsed as i128) / (duration as i128)
        };
        let diff = crate::common::i128_saturating_sub(linear, s.released_amount);
        if diff < 0 {
            0
        } else {
            diff
        }
    }

    /// The beneficiary claims everything claimable at `now`; it is added to
    /// the released amount and returned (the host moves it to the
    /// beneficiary).
    pub fn claim(&mut self, now: u64, beneficiary: Address) -> (r: Result<i128, VestingError>)
        requires
            old(self).wf(),
            old(self).claim_fits(beneficiary, now),
            old(self).schedules@.contains_key(beneficiary) ==> fits_i128(
                old(self).schedules@[beneficiary].released_amount + claimable(old(self).schedules@[beneficiary], now),
            ),
        ensures
            final(self).wf(),
            !old(self).schedules@.contains_key(beneficiary) || claimable(old(self).schedules@[beneficiary], now) <= 0
                ==> r == Err::<i128, VestingError>(VestingError::NoTokensToClaim) && *final(self) == *old(self),
            old(self).schedules@.contains_key(beneficiary) && claimable(old(self).schedules@[beneficiary], now) > 0
                ==> {
                let s = old(self).schedules@[beneficiary];
                let c = claimable(s, now);
                &&& r == Ok::<i128, VestingError>(c as i128)
                &&& final(self).schedules@ == old(self).schedules@.insert(
                    beneficiary,
                    VestingSchedule { released_amount: (s.released_amount + c) as i128, ..s },
                )
                &&& final(self).milestones@ == old(self).milestones@
                &&& final(self).admin == old(self).admin
                &&& final(self).token == old(self).token
            },
    {
        let amount = self.claimable_amount(now, beneficiary);
        if amount <= 0 {
            return Err(VestingError::NoTokensToClaim);
        }
        let s = match self.schedules.get(&beneficiary) {
            None => return Err(VestingError::NoVestingSchedule),
            Some(s) => *s,
        };
        if self.token.is_none() {
            return Err(VestingError::NotInitialized);
        }
        self.schedules.insert(beneficiary, VestingSchedule { released_amount: s.released_amount + amount, ..s });
        Ok(amount)
    }
}

/// The vested amount never exceeds the total and only grows with time, so
/// claims never release more than the allocation.
pub proof fn lemma_vested_bounded_monotone(s: VestingSchedule, t1: u64, t2: u64)
    requires
        s.start_time <= s.cliff_time <= s.end_time,
        s.total_amount > 0,
        t1 <= t2,
    ensures
        0 <= vested(s, t1) <= vested(s, t2) <= s.total_amount,
{
    let d = (s.end_time - s.start_time) as int;
    if s.cliff_time <= t1 && t1 < s.end_time {
        let e1 = (t1 - s.start_time) as int;
        assert(0 <= s.total_amount * e1 <= s.total_amount * d) by (nonlinear_arith)
            requires
                s.total_amount > 0,
                0 <= e1 <= d,
        ;
        assert((s.total_amount * e1) / d <= s.total_amount) by (nonlinear_arith)
            requires
                0 <= s.total_amount * e1 <= s.total_amount * d,
                d > 0,
        ;
        if t2 < s.end_time {
            let e2 = (t2 - s.start_time) as int;
            assert(s.total_amount * e1 <= s.total_amount * e2) by (nonlinear_arith)
                requires
                    s.total_amount > 0,
                    e1 <= e2,
            ;
            vstd::arithmetic::div_mod::lemma_div_is_ordered(s.total_amount * e1, s.total_amount * e2, d);
            assert(s.total_amount * e2 <= s.total_amount * d) by (nonlinear_arith)
                requires
                    s.total_amount > 0,
                    e2 <= d,
            ;
            assert((s.total_amount * e2) / d <= s.total_amount) by (nonlinear_arith)
                requires
                    0 <= s.total_amount * e2 <= s.total_amount * d,
                    d > 0,
            ;
        }
    } else if s.cliff_time <= t2 && t2 < s.end_time {
        let e2 = (t2 - s.start_time) as int;
        assert(0 <= s.total_amount * e2 <= s.total_amount * d) by (nonlinear_arith)
            requires
                s.total_amount > 0,
                0 <= e2 <= d,
        ;
        assert(0 <= (s.total_amount * e2) / d <= s.total_amount) by (nonlinear_arith)
            requires
                0 <= s.total_amount * e2 <= s.total_amount * d,
                d > 0,
        ;
    }
}

} // verus!
