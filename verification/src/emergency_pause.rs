//! Emergency pause: guardians sign pause or unpause proposals; once a
//! proposal has as many signatures as the threshold it can be executed,
//! and guarded actions are refused while the contract is paused.
use vstd::prelude::*;
use std::collections::HashMap;
use crate::common::{Address, Text, text_copy};

verus! {

broadcast use vstd::std_specs::hash::group_hash_axioms;

#[derive(Clone, Copy, Debug, PartialEq, Eq, Structural)]
pub enum Error {
    AlreadyInitialized,
    NotInitialized,
    Unauthorized,
    InvalidThreshold,
    GuardianAlreadyAdded,
    GuardianNotFound,
    ProposalNotFound,
    ProposalAlreadyExecuted,
    ProposalExpired,
    AlreadyExists,
    InsufficientSignatures,
    AlreadyInState,
    ContractPaused,
}

#[derive(Clone, Copy, Debug, PartialEq, Eq, Structural)]
pub enum PauseAction {
    Pause,
    Unpause,
}

#[derive(Clone, Debug)]
pub struct PauseProposal {
    pub id: u32,
    pub proposer: Address,
    pub action: PauseAction,
    pub reason: Text,
    pub created_at: u64,
    pub expires_at: u64,
    pub executed: bool,
    pub signers: Vec<Address>,
}

/// The pause contract's storage.
pub struct EmergencyPause {
    pub admin: Option<Address>,
    pub threshold: Option<u32>,
    pub paused: bool,
    pub pause_reason: Option<Text>,
    pub pause_timestamp: Option<u64>,
    pub guardians: HashMap<Address, bool>,
    pub guardian_count: u32,
    pub proposal_count: u32,
    pub proposals: HashMap<u32, PauseProposal>,
}

impl EmergencyPause {
    /// The threshold is recorded together with the admin.
    pub open spec fn wf(&self) -> bool {
        self.admin is Some ==> self.threshold is Some
    }

    pub open spec fn spec_guardian(&self, a: Address) -> bool {
        self.guardians@.contains_key(a) && self.guardians@[a]
    }

    /// Empty storage.
    pub fn new() -> (s: Self)
        ensures
            s.wf(),
            s.admin is None,
            !s.paused,
            s.guardian_count == 0,
            s.proposal_count == 0,
            s.guardians@ == Map::<Address, bool>::empty(),
            s.proposals@ == Map::<u32, PauseProposal>::empty(),
    {
        EmergencyPause {
            admin: None,
            threshold: None,
            paused: false,
            pause_reason: None,
            pause_timestamp: None,
            guardians: HashMap::new(),
            guardian_count: 0,
            proposal_count: 0,
            proposals: HashMap::new(),
        }
    }

    /// Record the admin and a positive signature threshold; not paused, no
    /// guardians.
    pub fn initialize(&mut self, admin: Address, threshold: u32) -> (r: Result<(), Error>)
        requires
            old(self).wf(),
        ensures
            final(self).wf(),
            old(self).admin is Some ==> r == Err::<(), Error>(Error::AlreadyInitialized) && *final(self) == *old(self),
            old(self).admin is None && threshold == 0 ==> r == Err::<(), Error>(Error::InvalidThreshold) && *final(self) == *old(self),
            old(self).admin is None && threshold > 0 ==> r is Ok && *final(self) == (EmergencyPause {
                admin: Some(admin),
                threshold: Some(threshold),
                paused: false,
                guardian_count: 0,
                ..*old(self)
            }),
    {
        if self.admin.is_some() {
            return Err(Error::AlreadyInitialized);
        }
        if threshold == 0 {
            return Err(Error::InvalidThreshold);
        }
        self.admin = Some(admin);
        self.threshold = Some(threshold);
        self.paused = false;
        self.guardian_count = 0;
        Ok(())
    }

    /// Why an admin-only call by `caller` fails, if it does.
    pub open spec fn admin_error(&self, caller: Address) -> Option<Error> {
        match self.admin {
            None => Some(Error::NotInitialized),
            Some(a) => if a != caller {
                Some(Error::Unauthorized)
            } else {
                None
            },
        }
    }

    fn check_admin(&self, caller: Address) -> (r: Result<(), Error>)
        ensures
            match self.admin_error(caller) {
                Some(e) => r == Err::<(), Error>(e),
                None => r is Ok,
            },
    {
        match self.admin {
            None => Err(Error::NotInitialized),
            Some(a) => if a != caller {
                Err(Error::Unauthorized)
            } else {
                Ok(())
            },
        }
    }

    /// The admin adds a guardian.
    pub fn add_guardian(&mut self, caller: Address, guardian: Address) -> (r: Result<(), Error>)
        requires
            old(self).wf(),
            old(self).admin_error(caller) is None && !old(self).spec_guardian(guardian) ==> old(self).guardian_count
                < u32::MAX,
        ensures
            final(self).wf(),
            old(self).admin_error(caller) is Some ==> r == Err::<(), Error>(old(self).admin_error(caller)->0)
                && *final(self) == *old(self),
            old(self).admin_error(caller) is None && old(self).spec_guardian(guardian) ==> r == Err::<(), Error>(
                Error::GuardianAlreadyAdded,
            ) && *final(self) == *old(self),
            old(self).admin_error(caller) is None && !old(self).spec_guardian(guardian) ==> {
                &&& r is Ok
                &&& final(self).guardians@ == old(self).guardians@.insert(guardian, true)
                &&& final(self).guardian_count == old(self).guardian_count + 1
                &&& final(self).proposals@ == old(self).proposals@
                &&& final(self).admin == old(self).admin
                &&& final(self).threshold == old(self).threshold
                &&& final(self).paused == old(self).paused
                &&& final(self).pause_reason == old(self).pause_reason
                &&& final(self).pause_timestamp == old(self).pause_timestamp
                &&& final(self).proposal_count == old(self).proposal_count
            },
    {
        self.check_admin(caller)?;
        if self.is_guardian(guardian) {
            return Err(Error::GuardianAlreadyAdded);
        }
        self.guardians.insert(guardian, true);
        self.guardian_count = self.guardian_count + 1;
        Ok(())
    }

    /// The admin removes a guardian.
    pub fn remove_guardian(&mut self, caller: Address, guardian: Address) -> (r: Result<(), Error>)
        requires
            old(self).wf(),
        ensures
            final(self).wf(),
            old(self).admin_error(caller) is Some ==> r == Err::<(), Error>(old(self).admin_error(caller)->0)
                && *final(self) == *old(self),
            old(self).admin_error(caller) is None && !old(self).spec_guardian(guardian) ==> r == Err::<(), Error>(
                Error::GuardianNotFound,
            ) && *final(self) == *old(self),
            old(self).admin_error(caller) is None && old(self).spec_guardian(guardian) ==> {
                &&& r is Ok
                &&& final(self).guardians@ == old(self).guardians@.insert(guardian, false)
                &&& final(self).guardian_count == (if old(self).guardian_count == 0 {
                    0
                } else {
                    old(self).guardian_count - 1
                })
                &&& final(self).proposals@ == old(self).proposals@
                &&& final(self).admin == old(self).admin
                &&& final(self).threshold == old(self).threshold
                &&& final(self).paused == old(self).paused
                &&& final(self).pause_reason == old(self).pause_reason
                &&& final(self).pause_timestamp == old(self).pause_timestamp
                &&& final(self).proposal_count == old(self).proposal_count
            },
    {
        self.check_admin(caller)?;
        if !self.is_guardian(guardian) {
            return Err(Error::GuardianNotFound);
        }
        self.guardians.insert(guardian, false);
        self.guardian_count = if self.guardian_count == 0 {
            0
        } else {
            self.guardian_count - 1
        };
        Ok(())
    }

    pub fn is_guardian(&self, addr: Address) -> (b: bool)
        ensures
            b == self.spec_guardian(addr),
    {
        match self.guardians.get(&addr) {
            Some(g) => *g,
            None => false,
        }
    }

    pub fn guardian_count(&self) -> (n: u32)
        ensures
            n == self.guardian_count,
    {
        self.guardian_count
    }

    /// The admin sets a threshold of at least one and at most the number of
    /// guardians plus one (the admin counts as a signer).
    pub fn set_threshold(&mut self, caller: Address, new_threshold: u32) -> (r: Result<(), Error>)
        requires
            old(self).wf(),
            old(self).admin_error(caller) is None && new_threshold > 0 ==> old(self).guardian_count < u32::MAX,
        ensures
            final(self).wf(),
            old(self).admin_error(caller) is Some ==> r == Err::<(), Error>(old(self).admin_error(caller)->0)
                && *final(self) == *old(self),
            old(self).admin_error(caller) is None && (new_threshold == 0 || new_threshold > old(self).guardian_count
                + 1) ==> r == Err::<(), Error>(Error::InvalidThreshold) && *final(self) == *old(self),
            old(self).admin_error(caller) is None && 0 < new_threshold <= old(self).guardian_count + 1 ==> r is Ok
                && *final(self) == (EmergencyPause { threshold: Some(new_threshold), ..*old(self) }),
    {
        self.check_admin(caller)?;
        if new_threshold == 0 {
            return Err(Error::InvalidThreshold);
        }
        if new_threshold > self.guardian_count + 1 {
            return Err(Error::InvalidThreshold);
        }
        self.threshold = Some(new_threshold);
        Ok(())
    }

    pub fn get_threshold(&self) -> (r: Result<u32, Error>)
        ensures
            match self.threshold {
                Some(t) => r == Ok::<u32, Error>(t),
                None => r == Err::<u32, Error>(Error::NotInitialized),
            },
    {
        match self.threshold {
            Some(t) => Ok(t),
            None => Err(Error::NotInitialized),
        }
    }

    /// Anyone proposes to pause or unpause; the proposal lives `ttl_seconds`
    /// and starts without signatures.  Returns its id.
    pub fn create_proposal(&mut self, now: u64, proposer: Address, action: PauseAction, reason: Text, ttl_seconds: u64) -> (r:
        Result<u32, Error>)
        requires
            old(self).wf(),
            old(self).admin is Some ==> old(self).proposal_count < u32::MAX && now + ttl_seconds <= u64::MAX,
        ensures
            final(self).wf(),
            old(self).admin is None ==> r == Err::<u32, Error>(Error::NotInitialized) && *final(self) == *old(self),
            old(self).admin is Some ==> {
                let id = (old(self).proposal_count + 1) as u32;
                let p = final(self).proposals@[id];
                &&& r == Ok::<u32, Error>(id)
                &&& final(self).proposal_count == id
                &&& final(self).proposals@ == old(self).proposals@.insert(id, p)
                &&& p.id == id && p.proposer == proposer && p.action == action && p.reason == reason
                &&& p.created_at == now && p.expires_at == now + ttl_seconds && !p.executed
                &&& p.signers@.len() == 0
                &&& final(self).guardians@ == old(self).guardians@
                &&& final(self).guardian_count == old(self).guardian_count
                &&& final(self).admin == old(self).admin
                &&& final(self).threshold == old(self).threshold
                &&& final(self).paused == old(self).paused
                &&& final(self).pause_reason == old(self).pause_reason
                &&& final(self).pause_timestamp == old(self).pause_timestamp
            },
    {
        if self.admin.is_none() {
            return Err(Error::NotInitialized);
        }
        let id = self.proposal_count + 1;
        self.proposal_count = id;
        self.proposals.insert(
            id,
            PauseProposal {
                id,
                proposer,
                action,
                reason,
                created_at: now,
                expires_at: now + ttl_seconds,
                executed: false,
                signers: Vec::new(),
            },
        );
        Ok(id)
    }

    /// Why `sign_proposal` fails, if it does.
    pub open spec fn sign_error(&self, now: u64, signer: Address, proposal_id: u32) -> Option<Error> {
        if self.admin is None {
            Some(Error::NotInitialized)
        } else if !self.spec_guardian(signer) {
            Some(Error::Unauthorized)
        } else if !self.proposals@.contains_key(proposal_id) {
            Some(Error::ProposalNotFound)
        } else if self.proposals@[proposal_id].executed {
            Some(Error::ProposalAlreadyExecuted)
        } else if now > self.proposals@[proposal_id].expires_at {
            Some(Error::ProposalExpired)
        } else if self.proposals@[proposal_id].signers@.contains(signer) {
            Some(Error::AlreadyExists)
        } else {
            None
        }
    }

    /// A guardian signs a live proposal once.
    pub fn sign_proposal(&mut self, now: u64, signer: Address, proposal_id: u32) -> (r: Result<(), Error>)
        requires
            old(self).wf(),
        ensures
            final(self).wf(),
            match old(self).sign_error(now, signer, proposal_id) {
                Some(e) => r == Err::<(), Error>(e) && *final(self) == *old(self),
                None => {
                    let o = old(self).proposals@[proposal_id];
                    let p = final(self).proposals@[proposal_id];
                    &&& r is Ok
                    &&& final(self).proposals@ == old(self).proposals@.insert(proposal_id, p)
                    &&& p.signers@ == o.signers@.push(signer)
                    &&& p.id == o.id && p.proposer == o.proposer && p.action == o.action && p.reason == o.reason
                    &&& p.created_at == o.created_at && p.expires_at == o.expires_at && p.executed == o.executed
                    &&& final(self).guardians@ == old(self).guardians@
                    &&& final(self).guardian_count == old(self).guardian_count
                    &&& final(self).proposal_count == old(self).proposal_count
                    &&& final(self).admin == old(self).admin
                    &&& final(self).threshold == old(self).threshold
                    &&& final(self).paused == old(self).paused
                    &&& final(self).pause_reason == old(self).pause_reason
                    &&& final(self).pause_timestamp == old(self).pause_timestamp
                },
            },
    {
        if self.admin.is_none() {
            return Err(Error::NotInitialized);
        }
        if !self.is_guardian(signer) {
            return Err(Error::Unauthorized);
        }
        match self.proposals.get(&proposal_id) {
            None => return Err(Error::ProposalNotFound),
            Some(p) => {
                if p.executed {
                    return Err(Error::ProposalAlreadyExecuted);
                }
                if now > p.expires_at {
                    return Err(Error::ProposalExpired);
                }
                let mut i: usize = 0;
                while i < p.signers.len()
                    invariant
                        0 <= i <= p.signers@.len(),
                        forall|k: int| 0 <= k < i ==> p.signers@[k] != signer,
                        *self == *old(self),
                        old(self).wf(),
                        old(self).admin is Some,
                        old(self).spec_guardian(signer),
                        old(self).proposals@.contains_key(proposal_id),
                        *p == old(self).proposals@[proposal_id],
                        !p.executed,
                        now <= p.expires_at,
                    decreases p.signers@.len() - i,
                {
                    if p.signers[i] == signer {
                        proof {
                            assert(p.signers@.contains(signer));
                        }
                        return Err(Error::AlreadyExists);
                    }
                    i = i + 1;
                }
            },
        }
        let p = self.proposals.remove(&proposal_id).unwrap();
        let mut signers = p.signers;
        signers.push(signer);
        self.proposals.insert(
            proposal_id,
            PauseProposal {
                id: p.id,
                proposer: p.proposer,
                action: p.action,
                reason: p.reason,
                created_at: p.created_at,
                expires_at: p.expires_at,
                executed: p.executed,
                signers,
            },
        );
        proof {
            assert(self.proposals@ =~= old(self).proposals@.insert(proposal_id, self.proposals@[proposal_id]));
        }
        Ok(())
    }

    /// Why `execute_proposal` fails, if it does.
    pub open spec fn execute_error(&self, now: u64, proposal_id: u32) -> Option<Error> {
        if self.admin is None {
            Some(Error::NotInitialized)
        } else if !self.proposals@.contains_key(proposal_id) {
            Some(Error::ProposalNotFound)
        } else {
            let p = self.proposals@[proposal_id];
            if p.executed {
                Some(Error::ProposalAlreadyExecuted)
            } else if now > p.expires_at {
                Some(Error::ProposalExpired)
            } else if self.threshold is None {
                Some(Error::NotInitialized)
            } else if p.signers@.len() < self.threshold->0 {
                Some(Error::InsufficientSignatures)
            } else if (p.action == PauseAction::Pause) == self.paused {
                Some(Error::AlreadyInState)
            } else {
                None
            }
        }
    }

    /// Execute a live proposal with at least `threshold` signatures.  A
    /// pause records the time and, if one was given, the reason; an unpause
    /// clears both.  The proposal is marked executed.
    pub fn execute_proposal(&mut self, now: u64, executor: Address, proposal_id: u32) -> (r: Result<(), Error>)
        requires
            old(self).wf(),
        ensures
            final(self).wf(),
            match old(self).execute_error(now, proposal_id) {
                Some(e) => r == Err::<(), Error>(e) && *final(self) == *old(self),
                None => {
                    let o = old(self).proposals@[proposal_id];
                    let p = final(self).proposals@[proposal_id];
                    &&& r is Ok
                    &&& final(self).proposals@ == old(self).proposals@.insert(proposal_id, p)
                    &&& p.executed
                    &&& p.id == o.id && p.proposer == o.proposer && p.action == o.action && p.reason == o.reason
                    &&& p.created_at == o.created_at && p.expires_at == o.expires_at && p.signers == o.signers
                    &&& o.action == PauseAction::Pause ==> {
                        &&& final(self).paused
                        &&& final(self).pause_timestamp == Some(now)
                        &&& o.reason@.len() > 0 ==> final(self).pause_reason is Some && final(self).pause_reason->0@ == o.reason@
                        &&& o.reason@.len() == 0 ==> final(self).pause_reason == old(self).pause_reason
                    }
                    &&& o.action == PauseAction::Unpause ==> {
                        &&& !final(self).paused
                        &&& final(self).pause_timestamp is None
                        &&& final(self).pause_reason is None
                    }
                    &&& final(self).guardians@ == old(self).guardians@
                    &&& final(self).guardian_count == old(self).guardian_count
                    &&& final(self).proposal_count == old(self).proposal_count
                    &&& final(self).admin == old(self).admin
                    &&& final(self).threshold == old(self).threshold
                },
            },
    {
        if self.admin.is_none() {
            return Err(Error::NotInitialized);
        }
        let (action, reason) = match self.proposals.get(&proposal_id) {
            None => return Err(Error::ProposalNotFound),
            Some(p) => {
                if p.executed {
                    return Err(Error::ProposalAlreadyExecuted);
                }
                if now > p.expires_at {
                    return Err(Error::ProposalExpired);
                }
                let threshold = match self.threshold {
                    Some(t) => t,
                    None => return Err(Error::NotInitialized),
                };
                if p.signers.len() < threshold as usize {
                    return Err(Error::InsufficientSignatures);
                }
                (p.action, text_copy(&p.reason))
            },
        };
        match action {
            PauseAction::Pause => {
                if self.paused {
                    return Err(Error::AlreadyInState);
                }
                self.paused = true;
                self.pause_timestamp = Some(now);
                if reason.len() > 0 {
                    self.pause_reason = Some(reason);
                }
            },
            PauseAction::Unpause => {
                if !self.paused {
                    return Err(Error::AlreadyInState);
                }
                self.paused = false;
                self.pause_reason = None;
                self.pause_timestamp = None;
            },
        }
        let p = self.proposals.remove(&proposal_id).unwrap();
        self.proposals.insert(
            proposal_id,
            PauseProposal {
                id: p.id,
                proposer: p.proposer,
                action: p.action,
                reason: p.reason,
                created_at: p.created_at,
                expires_at: p.expires_at,
                executed: true,
                signers: p.signers,
            },
        );
        proof {
            assert(self.proposals@ =~= old(self).proposals@.insert(proposal_id, self.proposals@[proposal_id]));
        }
        Ok(())
    }

    pub fn paused(&self) -> (b: bool)
        ensures
            b == self.paused,
    {
        self.paused
    }

    /// The recorded pause reason, if any.
    pub fn get_pause_reason(&self) -> (r: Option<Text>)
        ensures
            r is Some <==> self.pause_reason is Some,
            r is Some ==> r->0@ == self.pause_reason->0@,
    {
        match &self.pause_reason {
            Some(t) => Some(text_copy(t)),
            None => None,
        }
    }

    pub fn get_pause_timestamp(&self) -> (r: Option<u64>)
        ensures
            r == self.pause_timestamp,
    {
        self.pause_timestamp
    }

    pub fn get_admin(&self) -> (r: Result<Address, Error>)
        ensures
            match self.admin {
                Some(a) => r == Ok::<Address, Error>(a),
                None => r == Err::<Address, Error>(Error::NotInitialized),
            },
    {
        match self.admin {
            Some(a) => Ok(a),
            None => Err(Error::NotInitialized),
        }
    }

    pub fn get_proposal(&self, proposal_id: u32) -> (r: Result<&PauseProposal, Error>)
        ensures
            self.proposals@.contains_key(proposal_id) ==> r == Ok::<&PauseProposal, Error>(
                &self.proposals@[proposal_id],
            ),
            !self.proposals@.contains_key(proposal_id) ==> r == Err::<&PauseProposal, Error>(Error::ProposalNotFound),
    {
        match self.proposals.get(&proposal_id) {
            Some(p) => Ok(p),
            None => Err(Error::ProposalNotFound),
        }
    }

    pub fn proposal_count(&self) -> (n: u32)
        ensures
            n == self.proposal_count,
    {
        self.proposal_count
    }

    /// An action that is refused while the contract is paused.
    pub fn do_action(&self, caller: Address) -> (r: Result<(), Error>)
        ensures
            self.paused ==> r == Err::<(), Error>(Error::ContractPaused),
            !self.paused ==> r is Ok,
    {
        if self.paused {
            return Err(Error::ContractPaused);
        }
        Ok(())
    }
}

/// A proposal takes effect at most once: after it has been executed, any
/// further execution is refused.
pub proof fn lemma_executed_once(before: EmergencyPause, after: EmergencyPause, now: u64, later: u64, proposal_id: u32)
    requires
        before.execute_error(now, proposal_id) is None,
        after.admin == before.admin,
        after.proposals@.contains_key(proposal_id),
        after.proposals@[proposal_id].executed,
    ensures
        after.execute_error(later, proposal_id) == Some(Error::ProposalAlreadyExecuted),
{
}

/// Executing a pause proposal pauses the contract, and from then on guarded
/// actions are refused; an unpause proposal lifts that.
pub proof fn lemma_execute_sets_pause_state(before: EmergencyPause, now: u64, proposal_id: u32)
    requires
        before.execute_error(now, proposal_id) is None,
    ensures
        before.paused == (before.proposals@[proposal_id].action == PauseAction::Unpause),
{
}

} // verus!
