//! A token-weighted syndicate: members stake for voting power, create
//! proposals and vote on them until their deadline.
use vstd::prelude::*;
use std::collections::HashMap;
use crate::common::{Address, fits_i128};

verus! {

broadcast use vstd::std_specs::hash::group_hash_axioms;

#[derive(Clone, Copy, Debug, PartialEq, Eq, Structural)]
pub struct SyndicateMember {
    pub member: Address,
    pub voting_power: i128,
    pub staked_amount: i128,
}

#[derive(Clone, Copy, Debug)]
pub struct Proposal {
    pub id: u64,
    pub proposer: Address,
    pub target_contract: Address,
    pub calldata_hash: [u8; 32],
    pub yes_votes: i128,
    pub no_votes: i128,
    pub executed: bool,
    pub deadline: u64,
}

/// The syndicate's storage.
pub struct CartelSyndicateContract {
    pub members: HashMap<Address, SyndicateMember>,
    pub proposals: HashMap<u64, Proposal>,
    pub proposal_count: u64,
    pub total_staked: i128,
}

impl CartelSyndicateContract {
    /// A member's record; zero stake and power when it never joined.
    pub open spec fn spec_member(&self, a: Address) -> SyndicateMember {
        if self.members@.contains_key(a) {
            self.members@[a]
        } else {
            SyndicateMember { member: a, voting_power: 0, staked_amount: 0 }
        }
    }

    pub fn new() -> (s: Self)
        ensures
            s.members@ == Map::<Address, SyndicateMember>::empty(),
            s.proposals@ == Map::<u64, Proposal>::empty(),
            s.proposal_count == 0,
            s.total_staked == 0,
    {
        CartelSyndicateContract { members: HashMap::new(), proposals: HashMap::new(), proposal_count: 0, total_staked: 0 }
    }

    /// A member stakes a positive amount, gaining the same voting power
    /// (one vote per token).  A non-positive amount panics, which `requires`
    /// leaves out.
    pub fn join_syndicate(&mut self, member: Address, amount: i128)
        requires
            amount > 0,
            fits_i128(old(self).spec_member(member).staked_amount + amount),
            fits_i128(old(self).spec_member(member).voting_power + amount),
            fits_i128(old(self).total_staked + amount),
        ensures
            ({
                let m = old(self).spec_member(member);
                &&& final(self).members@ == old(self).members@.insert(
                    member,
                    SyndicateMember {
                        staked_amount: (m.staked_amount + amount) as i128,
                        voting_power: (m.voting_power + amount) as i128,
                        ..m
                    },
                )
                &&& final(self).total_staked == old(self).total_staked + amount
                &&& final(self).proposals@ == old(self).proposals@
                &&& final(self).proposal_count == old(self).proposal_count
            }),
    {
        let m = match self.members.get(&member) {
            Some(m) => *m,
            None => SyndicateMember { member, voting_power: 0, staked_amount: 0 },
        };
        self.total_staked = self.total_staked + amount;
        self.members.insert(
            member,
            SyndicateMember {
                staked_amount: m.staked_amount + amount,
                voting_power: m.voting_power + amount,
                ..m
            },
        );
    }

    /// A staked member proposes a call, open for votes for `duration`
    /// seconds.  Returns the proposal id.  A caller who is not a staked
    /// member panics, which `requires` leaves out.
    pub fn create_proposal(
        &mut self,
        now: u64,
        proposer: Address,
        target_contract: Address,
        calldata_hash: [u8; 32],
        duration: u64,
    ) -> (id: u64)
        requires
            old(self).members@.contains_key(proposer),
            old(self).members@[proposer].staked_amount > 0,
            old(self).proposal_count < u64::MAX,
            now + duration <= u64::MAX,
        ensures
            id == old(self).proposal_count + 1,
            final(self).proposal_count == id,
            final(self).proposals@ == old(self).proposals@.insert(
                id,
                Proposal {
                    id,
                    proposer,
                    target_contract,
                    calldata_hash,
                    yes_votes: 0,
                    no_votes: 0,
                    executed: false,
                    deadline: (now + duration) as u64,
                },
            ),
            final(self).members@ == old(self).members@,
            final(self).total_staked == old(self).total_staked,
    {
        let id = self.proposal_count + 1;
        self.proposal_count = id;
        self.proposals.insert(
            id,
            Proposal {
                id,
                proposer,
                target_contract,
                calldata_hash,
                yes_votes: 0,
                no_votes: 0,
                executed: false,
                deadline: now + duration,
            },
        );
        id
    }

    /// A member votes for or against an open proposal with all of its
    /// voting power.  A non-member, an unknown, expired or executed
    /// proposal panic, which `requires` leaves out.
    pub fn vote(&mut self, now: u64, voter: Address, proposal_id: u64, support: bool)
        requires
            old(self).members@.contains_key(voter),
            old(self).proposals@.contains_key(proposal_id),
            now <= old(self).proposals@[proposal_id].deadline,
            !old(self).proposals@[proposal_id].executed,
            support ==> fits_i128(old(self).proposals@[proposal_id].yes_votes + old(self).members@[voter].voting_power),
            !support ==> fits_i128(old(self).proposals@[proposal_id].no_votes + old(self).members@[voter].voting_power),
        ensures
            ({
                let p = old(self).proposals@[proposal_id];
                let w = old(self).members@[voter].voting_power;
                &&& support ==> final(self).proposals@ == old(self).proposals@.insert(
                    proposal_id,
                    Proposal { yes_votes: (p.yes_votes + w) as i128, ..p },
                )
                &&& !support ==> final(self).proposals@ == old(self).proposals@.insert(
                    proposal_id,
                    Proposal { no_votes: (p.no_votes + w) as i128, ..p },
                )
                &&& final(self).members@ == old(self).members@
                &&& final(self).proposal_count == old(self).proposal_count
                &&& final(self).total_staked == old(self).total_staked
            }),
    {
        let w = self.members.get(&voter).unwrap().voting_power;
        let p = *self.proposals.get(&proposal_id).unwrap();
        let n = if support {
            Proposal { yes_votes: p.yes_votes + w, ..p }
        } else {
            Proposal { no_votes: p.no_votes + w, ..p }
        };
        self.proposals.insert(proposal_id, n);
    }
}

} // verus!
