//! Bug-bounty disputes: whitehats commit to a vulnerability and reveal it
//! within a window; bonded arbitrators record rulings that become final
//! once the appeal period has passed.
use vstd::prelude::*;
use std::collections::HashMap;
use crate::common::{Address, Text};

verus! {

broadcast use vstd::std_specs::hash::group_hash_axioms;

/// One day to reveal a committed vulnerability.
pub const REVEAL_WINDOW: u64 = 86_400;
/// Three days to appeal a ruling.
pub const APPEAL_PERIOD: u64 = 259_200;

#[derive(Clone, Copy, Debug, PartialEq, Eq, Structural)]
pub enum RulingVerdict {
    PayWhitehat,
    ReturnToSponsor,
}

#[derive(Clone, Debug)]
pub struct Submission {
    pub bounty_id: u64,
    pub commit_hash: Text,
    pub whitehat: Address,
    pub reveal_deadline: u64,
    pub revealed: bool,
}

#[derive(Clone, Copy, Debug, PartialEq, Eq, Structural)]
pub enum DisputeError {
    AlreadyStaked,
    NotBonded,
    SubmissionNotFound,
    RevealWindowClosed,
    AlreadyRevealed,
    Unauthorized,
}

#[derive(Clone, Copy, Debug, PartialEq, Eq, Structural)]
pub struct Ruling {
    pub pay_whitehat: bool,
    pub appeal_until: u64,
}

/// The dispute contract's storage.
pub struct BountyDisputeContract {
    pub counter: u64,
    pub submissions: HashMap<u64, Submission>,
    pub bounty_subs: HashMap<u64, Vec<u64>>,
    pub bonds: HashMap<Address, i128>,
    pub rulings: HashMap<u64, Ruling>,
}

impl BountyDisputeContract {
    /// Empty storage.
    pub fn new() -> (s: Self)
        ensures
            s.counter == 0,
            s.submissions@ == Map::<u64, Submission>::empty(),
            s.bounty_subs@ == Map::<u64, Vec<u64>>::empty(),
            s.bonds@ == Map::<Address, i128>::empty(),
            s.rulings@ == Map::<u64, Ruling>::empty(),
    {
        BountyDisputeContract {
            counter: 0,
            submissions: HashMap::new(),
            bounty_subs: HashMap::new(),
            bonds: HashMap::new(),
            rulings: HashMap::new(),
        }
    }

    /// Submission ids recorded for a bounty (none for an unknown bounty).
    pub open spec fn spec_subs(&self, bounty_id: u64) -> Seq<u64> {
        if self.bounty_subs@.contains_key(bounty_id) {
            self.bounty_subs@[bounty_id]@
        } else {
            Seq::empty()
        }
    }

    /// A whitehat commits to a vulnerability report by its hash.  The
    /// submission gets the next id (the first is 1), which is appended to
    /// the bounty's list; it must be revealed within a day.
    pub fn submit_vulnerability(&mut self, now: u64, bounty_id: u64, commit_hash: Text, whitehat: Address) -> (r:
        Result<u64, DisputeError>)
        requires
            old(self).counter < u64::MAX,
            now + REVEAL_WINDOW <= u64::MAX,
        ensures
            r == Ok::<u64, DisputeError>((old(self).counter + 1) as u64),
            final(self).counter == old(self).counter + 1,
            final(self).submissions@ == old(self).submissions@.insert(
                (old(self).counter + 1) as u64,
                Submission {
                    bounty_id,
                    commit_hash,
                    whitehat,
                    reveal_deadline: (now + REVEAL_WINDOW) as u64,
                    revealed: false,
                },
            ),
            final(self).spec_subs(bounty_id) == old(self).spec_subs(bounty_id).push((old(self).counter + 1) as u64),
            forall|b: u64| b != bounty_id ==> #[trigger] final(self).spec_subs(b) == old(self).spec_subs(b),
            final(self).bonds@ == old(self).bonds@,
            final(self).rulings@ == old(self).rulings@,
    {
        let id = self.counter + 1;
        self.submissions.insert(
            id,
            Submission {
                bounty_id,
                commit_hash,
                whitehat,
                reveal_deadline: now + REVEAL_WINDOW,
                revealed: false,
            },
        );
        self.counter = id;
        let mut ids = match self.bounty_subs.remove(&bounty_id) {
            Some(v) => v,
            None => Vec::new(),
        };
        ids.push(id);
        self.bounty_subs.insert(bounty_id, ids);
        proof {
            assert forall|b: u64| b != bounty_id implies #[trigger] self.spec_subs(b) == old(self).spec_subs(b) by {
                assert(self.bounty_subs@.contains_key(b) == old(self).bounty_subs@.contains_key(b));
            }
        }
        Ok(id)
    }

    /// Why `reveal_vulnerability` fails, if it does.
    pub open spec fn reveal_error(&self, now: u64, submission_id: u64) -> Option<DisputeError> {
        if !self.submissions@.contains_key(submission_id) {
            Some(DisputeError::SubmissionNotFound)
        } else if self.submissions@[submission_id].revealed {
            Some(DisputeError::AlreadyRevealed)
        } else if now > self.submissions@[submission_id].reveal_deadline {
            Some(DisputeError::RevealWindowClosed)
        } else {
            None
        }
    }

    /// Reveal a committed submission before its deadline.  The caller signs;
    /// the secret itself is not stored.
    pub fn reveal_vulnerability(&mut self, now: u64, caller: Address, submission_id: u64, secret: Text) -> (r: Result<
        (),
        DisputeError,
    >)
        ensures
            match old(self).reveal_error(now, submission_id) {
                Some(e) => r == Err::<(), DisputeError>(e) && *final(self) == *old(self),
                None => {
                    let o = old(self).submissions@[submission_id];
                    let n = final(self).submissions@[submission_id];
                    &&& r is Ok
                    &&& final(self).submissions@ == old(self).submissions@.insert(submission_id, n)
                    &&& n.revealed
                    &&& n.bounty_id == o.bounty_id && n.commit_hash == o.commit_hash && n.whitehat == o.whitehat
                    &&& n.reveal_deadline == o.reveal_deadline
                    &&& final(self).counter == old(self).counter
                    &&& final(self).bounty_subs@ == old(self).bounty_subs@
                    &&& final(self).bonds@ == old(self).bonds@
                    &&& final(self).rulings@ == old(self).rulings@
                },
            },
    {
        match self.submissions.get(&submission_id) {
            None => return Err(DisputeError::SubmissionNotFound),
            Some(s) => {
                if s.revealed {
                    return Err(DisputeError::AlreadyRevealed);
                }
                if now > s.reveal_deadline {
                    return Err(DisputeError::RevealWindowClosed);
                }
            },
        }
        let s = match self.submissions.remove(&submission_id) {
            Some(s) => s,
            None => return Err(DisputeError::SubmissionNotFound),
        };
        self.submissions.insert(
            submission_id,
            Submission {
                bounty_id: s.bounty_id,
                commit_hash: s.commit_hash,
                whitehat: s.whitehat,
                reveal_deadline: s.reveal_deadline,
                revealed: true,
            },
        );
        proof {
            assert(self.submissions@ =~= old(self).submissions@.insert(submission_id, self.submissions@[submission_id]));
        }
        Ok(())
    }

    /// An arbitrator posts a positive bond, once.
    pub fn stake_arbitrator_bond(&mut self, arbitrator: Address, amount: i128) -> (r: Result<(), DisputeError>)
        ensures
            amount <= 0 ==> r == Err::<(), DisputeError>(DisputeError::NotBonded) && *final(self) == *old(self),
            amount > 0 && old(self).bonds@.contains_key(arbitrator) ==> r == Err::<(), DisputeError>(
                DisputeError::AlreadyStaked,
            ) && *final(self) == *old(self),
            amount > 0 && !old(self).bonds@.contains_key(arbitrator) ==> {
                &&& r is Ok
                &&& final(self).bonds@ == old(self).bonds@.insert(arbitrator, amount)
                &&& final(self).counter == old(self).counter
                &&& final(self).submissions@ == old(self).submissions@
                &&& final(self).bounty_subs@ == old(self).bounty_subs@
                &&& final(self).rulings@ == old(self).rulings@
            },
    {
        if amount <= 0 {
            return Err(DisputeError::NotBonded);
        }
        if self.bonds.contains_key(&arbitrator) {
            return Err(DisputeError::AlreadyStaked);
        }
        self.bonds.insert(arbitrator, amount);
        Ok(())
    }

    /// A bonded arbitrator records (or replaces) the ruling on a bounty;
    /// it can be appealed for three days.
    pub fn resolve_bounty_dispute(&mut self, now: u64, bounty_id: u64, ruling: RulingVerdict, arbitrator: Address) -> (r:
        Result<(), DisputeError>)
        requires
            old(self).bonds@.contains_key(arbitrator) ==> now + APPEAL_PERIOD <= u64::MAX,
        ensures
            !old(self).bonds@.contains_key(arbitrator) ==> r == Err::<(), DisputeError>(DisputeError::NotBonded)
                && *final(self) == *old(self),
            old(self).bonds@.contains_key(arbitrator) ==> {
                &&& r is Ok
                &&& final(self).rulings@ == old(self).rulings@.insert(
                    bounty_id,
                    Ruling {
                        pay_whitehat: ruling == RulingVerdict::PayWhitehat,
                        appeal_until: (now + APPEAL_PERIOD) as u64,
                    },
                )
                &&& final(self).counter == old(self).counter
                &&& final(self).submissions@ == old(self).submissions@
                &&& final(self).bounty_subs@ == old(self).bounty_subs@
                &&& final(self).bonds@ == old(self).bonds@
            },
    {
        if !self.bonds.contains_key(&arbitrator) {
            return Err(DisputeError::NotBonded);
        }
        let pay_whitehat = match ruling {
            RulingVerdict::PayWhitehat => true,
            RulingVerdict::ReturnToSponsor => false,
        };
        self.rulings.insert(bounty_id, Ruling { pay_whitehat, appeal_until: now + APPEAL_PERIOD });
        Ok(())
    }

    /// A ruling exists and its appeal window has closed.
    pub open spec fn ruling_final(&self, now: u64, bounty_id: u64) -> bool {
        self.rulings@.contains_key(bounty_id) && now > self.rulings@[bounty_id].appeal_until
    }

    pub fn is_final(&self, now: u64, bounty_id: u64) -> (b: bool)
        ensures
            b == self.ruling_final(now, bounty_id),
    {
        match self.rulings.get(&bounty_id) {
            Some(r) => now > r.appeal_until,
            None => false,
        }
    }

    pub fn get_ruling(&self, bounty_id: u64) -> (r: Option<Ruling>)
        ensures
            self.rulings@.contains_key(bounty_id) ==> r == Some(self.rulings@[bounty_id]),
            !self.rulings@.contains_key(bounty_id) ==> r is None,
    {
        match self.rulings.get(&bounty_id) {
            Some(r) => Some(*r),
            None => None,
        }
    }

    /// Ids of the submissions made to a bounty, in order.
    pub fn submissions_for_bounty(&self, bounty_id: u64) -> (v: Vec<u64>)
        ensures
            v@ == self.spec_subs(bounty_id),
    {
        match self.bounty_subs.get(&bounty_id) {
            Some(ids) => {
                let mut out: Vec<u64> = Vec::new();
                let mut i: usize = 0;
                while i < ids.len()
                    invariant
                        0 <= i <= ids@.len(),
                        out@ == ids@.subrange(0, i as int),
                    decreases ids@.len() - i,
                {
                    out.push(ids[i]);
                    i = i + 1;
                }
                proof {
                    assert(ids@.subrange(0, ids@.len() as int) =~= ids@);
                }
                out
            },
            None => Vec::new(),
        }
    }
}

/// A ruling just recorded at `now` is not final at `now`: it stays open to
/// appeal for the whole appeal period.
pub proof fn lemma_fresh_ruling_not_final(
    before: BountyDisputeContract,
    after: BountyDisputeContract,
    now: u64,
    bounty_id: u64,
    ruling: RulingVerdict,
)
    requires
        now + APPEAL_PERIOD <= u64::MAX,
        after.rulings@ == before.rulings@.insert(
            bounty_id,
            Ruling { pay_whitehat: ruling == RulingVerdict::PayWhitehat, appeal_until: (now + APPEAL_PERIOD) as u64 },
        ),
    ensures
        after.rulings@.contains_key(bounty_id),
        forall|t: u64| now <= t <= now + APPEAL_PERIOD ==> !#[trigger] after.ruling_final(t, bounty_id),
{
}

} // verus!
