//! Milestone vesting: an issuer gives a beneficiary tranches that unlock
//! when the issuer marks their milestone reached.
use vstd::prelude::*;
use std::collections::HashMap;
use crate::common::Address;

verus! {

broadcast use vstd::std_specs::hash::group_hash_axioms;

#[derive(Clone, Copy, Debug, PartialEq, Eq, Structural)]
pub struct Tranche {
    pub amount: i128,
    pub milestone_id: u32,
    pub unlocked: bool,
}

#[derive(Clone, Debug)]
pub struct VestingSchedule {
    pub beneficiary: Address,
    pub issuer: Address,
    pub tranches: Vec<Tranche>,
}

/// The pool's storage: one schedule per beneficiary.
pub struct MilestoneVestingPoolContract {
    pub schedules: HashMap<Address, VestingSchedule>,
}

/// The tranches with every tranche of `milestone_id` unlocked.
pub open spec fn unlocked_tranches(ts: Seq<Tranche>, milestone_id: u32) -> Seq<Tranche> {
    ts.map_values(
        |t: Tranche|
            if t.milestone_id == milestone_id {
                Tranche { unlocked: true, ..t }
            } else {
                t
            },
    )
}

impl MilestoneVestingPoolContract {
    pub fn new() -> (s: Self)
        ensures
            s.schedules@ == Map::<Address, VestingSchedule>::empty(),
    {
        MilestoneVestingPoolContract { schedules: HashMap::new() }
    }

    /// The issuer sets up a beneficiary's tranches.  A second schedule for
    /// the same beneficiary panics, which `requires` leaves out.
    pub fn create_schedule(&mut self, issuer: Address, beneficiary: Address, tranches: Vec<Tranche>)
        requires
            !old(self).schedules@.contains_key(beneficiary),
        ensures
            final(self).schedules@ == old(self).schedules@.insert(
                beneficiary,
                VestingSchedule { beneficiary, issuer, tranches },
            ),
    {
        self.schedules.insert(beneficiary, VestingSchedule { beneficiary, issuer, tranches });
    }

    /// The issuer unlocks every tranche of a milestone in a beneficiary's
    /// schedule.  An unknown schedule, another caller, or a milestone with
    /// no tranche panic, which `requires` leaves out.
    pub fn unlock_milestone(&mut self, admin: Address, beneficiary: Address, milestone_id: u32)
        requires
            old(self).schedules@.contains_key(beneficiary),
            old(self).schedules@[beneficiary].issuer == admin,
            exists|i: int|
                0 <= i < old(self).schedules@[beneficiary].tranches@.len()
                    && (#[trigger] old(self).schedules@[beneficiary].tranches@[i]).milestone_id == milestone_id,
        ensures
            ({
                let o = old(self).schedules@[beneficiary];
                let n = final(self).schedules@[beneficiary];
                &&& final(self).schedules@ == old(self).schedules@.insert(beneficiary, n)
                &&& n.beneficiary == o.beneficiary
                &&& n.issuer == o.issuer
                &&& n.tranches@ == unlocked_tranches(o.tranches@, milestone_id)
            }),
    {
        let s = self.schedules.remove(&beneficiary).unwrap();
        let mut updated: Vec<Tranche> = Vec::new();
        let mut i: usize = 0;
        while i < s.tranches.len()
            invariant
                0 <= i <= s.tranches@.len(),
                updated@ == unlocked_tranches(s.tranches@.subrange(0, i as int), milestone_id),
            decreases s.tranches@.len() - i,
        {
            let t = s.tranches[i];
            let n = if t.milestone_id == milestone_id {
                Tranche { unlocked: true, ..t }
            } else {
                t
            };
            updated.push(n);
            proof {
                assert(s.tranches@.subrange(0, i + 1) =~= s.tranches@.subrange(0, i as int).push(t));
                assert(updated@ =~= unlocked_tranches(s.tranches@.subrange(0, i + 1), milestone_id));
            }
            i = i + 1;
        }
        proof {
            assert(s.tranches@.subrange(0, s.tranches@.len() as int) =~= s.tranches@);
        }
        self.schedules.insert(
            beneficiary,
            VestingSchedule { beneficiary: s.beneficiary, issuer: s.issuer, tranches: updated },
        );
        proof {
            assert(self.schedules@ =~= old(self).schedules@.insert(beneficiary, self.schedules@[beneficiary]));
        }
    }
}

} // verus!
