//! Patent registry: inventors file patents that the admin activates or
//! revokes, owners transfer them and grant licenses, anyone files disputes
//! that the admin resolves, and licensees pay through milestone escrows.
//! An admin-controlled pause stops every state-changing operation.
use vstd::prelude::*;
use std::collections::HashMap;
use crate::common::{Address, Text, fits_i128};

verus! {

broadcast use vstd::std_specs::hash::group_hash_axioms;

#[derive(Clone, Copy, Debug, PartialEq, Eq, Structural)]
pub enum Error {
    AlreadyInitialized,
    NotInitialized,
    Unauthorized,
    Paused,
    EmptyField,
    PatentNotFound,
    LicenseNotFound,
    DisputeNotFound,
    EscrowNotFound,
    MilestoneNotFound,
    InvalidStatus,
    NotOwner,
    InvalidFee,
    DisputeAlreadyResolved,
    AlreadyExists,
    InsufficientDeposit,
    InvalidMilestoneStatus,
    EscrowAlreadyReleased,
}

#[derive(Clone, Copy, Debug, PartialEq, Eq, Structural)]
pub enum PatentStatus {
    Pending,
    Active,
    Revoked,
    Expired,
}

#[derive(Clone, Copy, Debug, PartialEq, Eq, Structural)]
pub enum LicenseType {
    Exclusive,
    NonExclusive,
}

#[derive(Clone, Copy, Debug, PartialEq, Eq, Structural)]
pub enum DisputeStatus {
    Open,
    Resolved,
}

#[derive(Clone, Copy, Debug, PartialEq, Eq, Structural)]
pub enum EscrowStatus {
    Funded,
    PartiallyReleased,
    FullyReleased,
    Refunded,
}

#[derive(Clone, Copy, Debug, PartialEq, Eq, Structural)]
pub enum MilestoneStatus {
    Pending,
    Completed,
    Verified,
    Rejected,
}

#[derive(Clone, Debug)]
pub struct Patent {
    pub title: Text,
    pub description: Text,
    pub owner: Address,
    pub filing_date: u64,
    pub expiry_date: u64,
    pub status: PatentStatus,
    pub license_count: u32,
}

#[derive(Clone, Copy, Debug, PartialEq, Eq, Structural)]
pub struct License {
    pub patent_id: u32,
    pub licensee: Address,
    pub license_type: LicenseType,
    pub fee: i128,
    pub expiry_date: u64,
    pub granted_date: u64,
}

#[derive(Clone, Debug)]
pub struct Dispute {
    pub patent_id: u32,
    pub claimant: Address,
    pub reason: Text,
    pub filed_date: u64,
    pub status: DisputeStatus,
    pub resolution: Text,
}

#[derive(Clone, Copy, Debug, PartialEq, Eq, Structural)]
pub struct Escrow {
    pub id: u32,
    pub patent_id: u32,
    pub license_id: u32,
    pub payer: Address,
    pub payee: Address,
    pub total_amount: i128,
    pub deposited_amount: i128,
    pub released_amount: i128,
    pub status: EscrowStatus,
    pub created_at: u64,
    pub milestone_count: u32,
}

#[derive(Clone, Debug)]
pub struct Milestone {
    pub id: u32,
    pub escrow_id: u32,
    pub description: Text,
    pub amount: i128,
    pub status: MilestoneStatus,
    pub due_date: u64,
    pub completed_at: Option<u64>,
    pub verified_at: Option<u64>,
}

/// The registry's storage.  Each kind of record is numbered from 1 by its
/// own counter.
pub struct PatentRegistryContract {
    pub admin: Option<Address>,
    pub paused: bool,
    pub patent_count: u32,
    pub license_count: u32,
    pub dispute_count: u32,
    pub escrow_count: u32,
    pub milestone_count: u32,
    pub patents: HashMap<u32, Patent>,
    pub licenses: HashMap<u32, License>,
    pub disputes: HashMap<u32, Dispute>,
    pub escrows: HashMap<u32, Escrow>,
    pub milestones: HashMap<u32, Milestone>,
}

/// Money in an escrow is never negative, nothing is deposited beyond the
/// agreed total, and every milestone pays a positive amount.
pub open spec fn escrow_ok(e: Escrow) -> bool {
    &&& e.total_amount > 0
    &&& 0 <= e.deposited_amount <= e.total_amount
    &&& 0 <= e.released_amount
}

/// The sum that `add_milestone` compares with an escrow's total: the
/// amounts stored under milestone ids `escrow_id * 10000 + i` for
/// `i` in `1..=n`, where such a milestone exists.
pub open spec fn milestone_sum(ms: Map<u32, Milestone>, escrow_id: u32, n: nat) -> int
    decreases n,
{
    if n == 0 {
        0
    } else {
        let k = (escrow_id * 10000 + n) as u32;
        milestone_sum(ms, escrow_id, (n - 1) as nat) + if ms.contains_key(k) {
            ms[k].amount as int
        } else {
            0
        }
    }
}

impl PatentRegistryContract {
    pub open spec fn wf(&self) -> bool {
        &&& forall|k: u32| #[trigger] self.escrows@.contains_key(k) ==> escrow_ok(self.escrows@[k])
        &&& forall|k: u32| #[trigger] self.milestones@.contains_key(k) ==> self.milestones@[k].amount > 0
    }

    /// An empty, uninitialised registry.
    pub fn new() -> (s: Self)
        ensures
            s.wf(),
            s.admin is None,
            !s.paused,
            s.patent_count == 0 && s.license_count == 0 && s.dispute_count == 0,
            s.escrow_count == 0 && s.milestone_count == 0,
            s.patents@.is_empty() && s.licenses@.is_empty() && s.disputes@.is_empty(),
            s.escrows@.is_empty() && s.milestones@.is_empty(),
    {
        PatentRegistryContract {
            admin: None,
            paused: false,
            patent_count: 0,
            license_count: 0,
            dispute_count: 0,
            escrow_count: 0,
            milestone_count: 0,
            patents: HashMap::new(),
            licenses: HashMap::new(),
            disputes: HashMap::new(),
            escrows: HashMap::new(),
            milestones: HashMap::new(),
        }
    }

    /// Sets the admin once; a second call is refused.
    pub fn initialize(&mut self, admin: Address) -> (r: Result<(), Error>)
        ensures
            old(self).admin is Some ==> r == Err::<(), Error>(Error::AlreadyInitialized) && *final(self)
                == *old(self),
            old(self).admin is None ==> r is Ok && *final(self) == (PatentRegistryContract {
                admin: Some(admin),
                paused: false,
                ..*old(self)
            }),
    {
        if self.admin.is_some() {
            return Err(Error::AlreadyInitialized);
        }
        self.admin = Some(admin);
        self.paused = false;
        Ok(())
    }

    /// Why `caller` may not act as admin, if it may not.
    pub open spec fn admin_error(&self, caller: Address) -> Option<Error> {
        match self.admin {
            None => Some(Error::NotInitialized),
            Some(a) => if a != caller {
                Some(Error::Unauthorized)
            } else {
                None
            },
        }
    }

    fn check_admin(&self, caller: Address) -> (r: Result<(), Error>)
        ensures
            match self.admin_error(caller) {
                Some(e) => r == Err::<(), Error>(e),
                None => r is Ok,
            },
    {
        match self.admin {
            None => Err(Error::NotInitialized),
            Some(a) => if a != caller {
                Err(Error::Unauthorized)
            } else {
                Ok(())
            },
        }
    }

    /// Why a state-changing operation that the admin performs is refused,
    /// if it is: a paused registry refuses first.
    pub open spec fn guarded_admin_error(&self, caller: Address) -> Option<Error> {
        if self.paused {
            Some(Error::Paused)
        } else {
            self.admin_error(caller)
        }
    }

    /// The admin pauses (`paused` true) or resumes the registry.
    pub fn set_pause(&mut self, caller: Address, paused: bool) -> (r: Result<(), Error>)
        ensures
            match old(self).admin_error(caller) {
                Some(e) => r == Err::<(), Error>(e) && *final(self) == *old(self),
                None => r is Ok && *final(self) == (PatentRegistryContract { paused, ..*old(self) }),
            },
    {
        self.check_admin(caller)?;
        self.paused = paused;
        Ok(())
    }

    /// The admin pauses every state-changing operation.
    pub fn pause(&mut self, caller: Address) -> (r: Result<(), Error>)
        ensures
            match old(self).admin_error(caller) {
                Some(e) => r == Err::<(), Error>(e) && *final(self) == *old(self),
                None => r is Ok && *final(self) == (PatentRegistryContract { paused: true, ..*old(self) }),
            },
    {
        self.set_pause(caller, true)
    }

    /// The admin resumes operations.
    pub fn unpause(&mut self, caller: Address) -> (r: Result<(), Error>)
        ensures
            match old(self).admin_error(caller) {
                Some(e) => r == Err::<(), Error>(e) && *final(self) == *old(self),
                None => r is Ok && *final(self) == (PatentRegistryContract { paused: false, ..*old(self) }),
            },
    {
        self.set_pause(caller, false)
    }

    pub open spec fn file_patent_error(&self, title: Seq<u8>, description: Seq<u8>) -> Option<Error> {
        if self.paused {
            Some(Error::Paused)
        } else if title.len() == 0 || description.len() == 0 {
            Some(Error::EmptyField)
        } else {
            None
        }
    }

    /// An inventor files a patent, pending until the admin activates it;
    /// its id is the next patent number.
    pub fn file_patent(&mut self, now: u64, inventor: Address, title: Text, description: Text, expiry_date: u64) -> (r:
        Result<u32, Error>)
        requires
            old(self).file_patent_error(title@, description@) is None ==> old(self).patent_count < u32::MAX,
        ensures
            match old(self).file_patent_error(title@, description@) {
                Some(e) => r == Err::<u32, Error>(e) && *final(self) == *old(self),
                None => {
                    let id = (old(self).patent_count + 1) as u32;
                    &&& r == Ok::<u32, Error>(id)
                    &&& final(self).patents@ == old(self).patents@.insert(
                        id,
                        Patent {
                            title,
                            description,
                            owner: inventor,
                            filing_date: now,
                            expiry_date,
                            status: PatentStatus::Pending,
                            license_count: 0,
                        },
                    )
                    &&& *final(self) == (PatentRegistryContract {
                        patents: final(self).patents,
                        patent_count: id,
                        ..*old(self)
                    })
                },
            },
    {
        if self.paused {
            return Err(Error::Paused);
        }
        if title.len() == 0 {
            return Err(Error::EmptyField);
        }
        if description.len() == 0 {
            return Err(Error::EmptyField);
        }
        let id = self.patent_count + 1;
        self.patents.insert(
            id,
            Patent {
                title,
                description,
                owner: inventor,
                filing_date: now,
                expiry_date,
                status: PatentStatus::Pending,
                license_count: 0,
            },
        );
        self.patent_count = id;
        Ok(id)
    }

    /// Patent `id` changed in its status, owner and license count alone,
    /// to the values given.
    pub open spec fn patent_changed(
        before: &Self,
        after: &Self,
        id: u32,
        status: PatentStatus,
        owner: Address,
        license_count: u32,
    ) -> bool {
        let o = before.patents@[id];
        let n = after.patents@[id];
        &&& after.patents@ == before.patents@.insert(id, n)
        &&& n.status == status && n.owner == owner && n.license_count == license_count
        &&& n.title == o.title && n.description == o.description
        &&& n.filing_date == o.filing_date && n.expiry_date == o.expiry_date
    }

    fn update_patent(&mut self, id: u32, status: PatentStatus, owner: Address, license_count: u32)
        requires
            old(self).patents@.contains_key(id),
        ensures
            Self::patent_changed(old(self), final(self), id, status, owner, license_count),
            *final(self) == (PatentRegistryContract { patents: final(self).patents, ..*old(self) }),
    {
        let p = self.patents.remove(&id).unwrap();
        self.patents.insert(
            id,
            Patent {
                title: p.title,
                description: p.description,
                owner,
                filing_date: p.filing_date,
                expiry_date: p.expiry_date,
                status,
                license_count,
            },
        );
        proof {
            assert(self.patents@ == old(self).patents@.insert(id, self.patents@[id]));
        }
    }

    /// Why the admin may not move patent `id` out of status `from`, if it
    /// may not.
    pub open spec fn status_change_error(&self, caller: Address, id: u32, from: PatentStatus) -> Option<Error> {
        if self.guarded_admin_error(caller) is Some {
            self.guarded_admin_error(caller)
        } else if !self.patents@.contains_key(id) {
            Some(Error::PatentNotFound)
        } else if self.patents@[id].status != from {
            Some(Error::InvalidStatus)
        } else {
            None
        }
    }

    fn change_status(&mut self, caller: Address, id: u32, from: PatentStatus, to: PatentStatus) -> (r: Result<
        (),
        Error,
    >)
        ensures
            match old(self).status_change_error(caller, id, from) {
                Some(e) => r == Err::<(), Error>(e) && *final(self) == *old(self),
                None => {
                    &&& r is Ok
                    &&& Self::patent_changed(
                        old(self),
                        final(self),
                        id,
                        to,
                        old(self).patents@[id].owner,
                        old(self).patents@[id].license_count,
                    )
                    &&& *final(self) == (PatentRegistryContract { patents: final(self).patents, ..*old(self) })
                },
            },
    {
        if self.paused {
            return Err(Error::Paused);
        }
        self.check_admin(caller)?;
        let (owner, count) = match self.patents.get(&id) {
            None => {
                return Err(Error::PatentNotFound);
            },
            Some(p) => {
                if p.status != from {
                    return Err(Error::InvalidStatus);
                }
                (p.owner, p.license_count)
            },
        };
        self.update_patent(id, to, owner, count);
        Ok(())
    }

    /// The admin activates a pending patent.
    pub fn activate_patent(&mut self, caller: Address, patent_id: u32) -> (r: Result<(), Error>)
        ensures
            match old(self).status_change_error(caller, patent_id, PatentStatus::Pending) {
                Some(e) => r == Err::<(), Error>(e) && *final(self) == *old(self),
                None => {
                    &&& r is Ok
                    &&& Self::patent_changed(
                        old(self),
                        final(self),
                        patent_id,
                        PatentStatus::Active,
                        old(self).patents@[patent_id].owner,
                        old(self).patents@[patent_id].license_count,
                    )
                    &&& *final(self) == (PatentRegistryContract { patents: final(self).patents, ..*old(self) })
                },
            },
    {
        self.change_status(caller, patent_id, PatentStatus::Pending, PatentStatus::Active)
    }

    /// The admin revokes an active patent.
    pub fn revoke_patent(&mut self, caller: Address, patent_id: u32) -> (r: Result<(), Error>)
        ensures
            match old(self).status_change_error(caller, patent_id, PatentStatus::Active) {
                Some(e) => r == Err::<(), Error>(e) && *final(self) == *old(self),
                None => {
                    &&& r is Ok
                    &&& Self::patent_changed(
                        old(self),
                        final(self),
                        patent_id,
                        PatentStatus::Revoked,
                        old(self).patents@[patent_id].owner,
                        old(self).patents@[patent_id].license_count,
                    )
                    &&& *final(self) == (PatentRegistryContract { patents: final(self).patents, ..*old(self) })
                },
            },
    {
        self.change_status(caller, patent_id, PatentStatus::Active, PatentStatus::Revoked)
    }

    /// Why `owner` may not act on patent `id` as its owner, if it may not:
    /// the patent must exist, belong to `owner` and be active.
    pub open spec fn owner_action_error(&self, owner: Address, id: u32) -> Option<Error> {
        if !self.patents@.contains_key(id) {
            Some(Error::PatentNotFound)
        } else if self.patents@[id].owner != owner {
            Some(Error::NotOwner)
        } else if self.patents@[id].status != PatentStatus::Active {
            Some(Error::InvalidStatus)
        } else {
            None
        }
    }

    fn check_owner_action(&self, owner: Address, id: u32) -> (r: Result<u32, Error>)
        ensures
            match self.owner_action_error(owner, id) {
                Some(e) => r == Err::<u32, Error>(e),
                None => r == Ok::<u32, Error>(self.patents@[id].license_count),
            },
    {
        match self.patents.get(&id) {
            None => Err(Error::PatentNotFound),
            Some(p) => {
                if p.owner != owner {
                    Err(Error::NotOwner)
                } else if p.status != PatentStatus::Active {
                    Err(Error::InvalidStatus)
                } else {
                    Ok(p.license_count)
                }
            },
        }
    }

    pub open spec fn transfer_error(&self, owner: Address, id: u32) -> Option<Error> {
        if self.paused {
            Some(Error::Paused)
        } else {
            self.owner_action_error(owner, id)
        }
    }

    /// The owner of an active patent hands it to `new_owner`.
    pub fn transfer_patent(&mut self, owner: Address, patent_id: u32, new_owner: Address) -> (r: Result<(), Error>)
        ensures
            match old(self).transfer_error(owner, patent_id) {
                Some(e) => r == Err::<(), Error>(e) && *final(self) == *old(self),
                None => {
                    &&& r is Ok
                    &&& Self::patent_changed(
                        old(self),
                        final(self),
                        patent_id,
                        PatentStatus::Active,
                        new_owner,
                        old(self).patents@[patent_id].license_count,
                    )
                    &&& *final(self) == (PatentRegistryContract { patents: final(self).patents, ..*old(self) })
                },
            },
    {
        if self.paused {
            return Err(Error::Paused);
        }
        let count = self.check_owner_action(owner, patent_id)?;
        self.update_patent(patent_id, PatentStatus::Active, new_owner, count);
        Ok(())
    }

    pub open spec fn grant_license_error(&self, owner: Address, id: u32, fee: i128) -> Option<Error> {
        if self.paused {
            Some(Error::Paused)
        } else if fee < 0 {
            Some(Error::InvalidFee)
        } else {
            self.owner_action_error(owner, id)
        }
    }

    /// The owner of an active patent licenses it to `licensee` for `fee`;
    /// the license gets the next license number and the patent counts it.
    pub fn grant_license(
        &mut self,
        now: u64,
        owner: Address,
        patent_id: u32,
        licensee: Address,
        license_type: LicenseType,
        fee: i128,
        expiry_date: u64,
    ) -> (r: Result<u32, Error>)
        requires
            old(self).grant_license_error(owner, patent_id, fee) is None ==> {
                &&& old(self).license_count < u32::MAX
                &&& old(self).patents@[patent_id].license_count < u32::MAX
            },
        ensures
            match old(self).grant_license_error(owner, patent_id, fee) {
                Some(e) => r == Err::<u32, Error>(e) && *final(self) == *old(self),
                None => {
                    let lid = (old(self).license_count + 1) as u32;
                    &&& r == Ok::<u32, Error>(lid)
                    &&& final(self).licenses@ == old(self).licenses@.insert(
                        lid,
                        License { patent_id, licensee, license_type, fee, expiry_date, granted_date: now },
                    )
                    &&& Self::patent_changed(
                        old(self),
                        final(self),
                        patent_id,
                        PatentStatus::Active,
                        owner,
                        (old(self).patents@[patent_id].license_count + 1) as u32,
                    )
                    &&& *final(self) == (PatentRegistryContract {
                        patents: final(self).patents,
                        licenses: final(self).licenses,
                        license_count: lid,
                        ..*old(self)
                    })
                },
            },
    {
        if self.paused {
            return Err(Error::Paused);
        }
        if fee < 0 {
            return Err(Error::InvalidFee);
        }
        let count = self.check_owner_action(owner, patent_id)?;
        let lid = self.license_count + 1;
        self.licenses.insert(
            lid,
            License { patent_id, licensee, license_type, fee, expiry_date, granted_date: now },
        );
        self.license_count = lid;
        self.update_patent(patent_id, PatentStatus::Active, owner, count + 1);
        Ok(lid)
    }

    pub fn get_patent(&self, patent_id: u32) -> (r: Result<&Patent, Error>)
        ensures
            self.patents@.contains_key(patent_id) ==> r == Ok::<&Patent, Error>(&self.patents@[patent_id]),
            !self.patents@.contains_key(patent_id) ==> r == Err::<&Patent, Error>(Error::PatentNotFound),
    {
        match self.patents.get(&patent_id) {
            Some(p) => Ok(p),
            None => Err(Error::PatentNotFound),
        }
    }

    pub fn get_license(&self, license_id: u32) -> (r: Result<License, Error>)
        ensures
            self.licenses@.contains_key(license_id) ==> r == Ok::<License, Error>(self.licenses@[license_id]),
            !self.licenses@.contains_key(license_id) ==> r == Err::<License, Error>(Error::LicenseNotFound),
    {
        match self.licenses.get(&license_id) {
            Some(l) => Ok(*l),
            None => Err(Error::LicenseNotFound),
        }
    }

    pub fn get_admin(&self) -> (r: Result<Address, Error>)
        ensures
            match self.admin {
                Some(a) => r == Ok::<Address, Error>(a),
                None => r == Err::<Address, Error>(Error::NotInitialized),
            },
    {
        match self.admin {
            Some(a) => Ok(a),
            None => Err(Error::NotInitialized),
        }
    }

    pub fn is_paused(&self) -> (b: bool)
        ensures
            b == self.paused,
    {
        self.paused
    }

    pub fn get_patent_count(&self) -> (n: u32)
        ensures
            n == self.patent_count,
    {
        self.patent_count
    }

    pub fn get_license_count(&self) -> (n: u32)
        ensures
            n == self.license_count,
    {
        self.license_count
    }
}

impl PatentRegistryContract {
    pub open spec fn file_dispute_error(&self, patent_id: u32, reason: Seq<u8>) -> Option<Error> {
        if self.paused {
            Some(Error::Paused)
        } else if !self.patents@.contains_key(patent_id) {
            Some(Error::PatentNotFound)
        } else if reason.len() == 0 {
            Some(Error::EmptyField)
        } else {
            None
        }
    }

    /// Anyone files a dispute against an existing patent; it opens with an
    /// empty resolution under the next dispute number.
    pub fn file_dispute(&mut self, now: u64, claimant: Address, patent_id: u32, reason: Text) -> (r: Result<u32, Error>)
        requires
            old(self).file_dispute_error(patent_id, reason@) is None ==> old(self).dispute_count < u32::MAX,
        ensures
            match old(self).file_dispute_error(patent_id, reason@) {
                Some(e) => r == Err::<u32, Error>(e) && *final(self) == *old(self),
                None => {
                    let id = (old(self).dispute_count + 1) as u32;
                    let d = final(self).disputes@[id];
                    &&& r == Ok::<u32, Error>(id)
                    &&& final(self).disputes@ == old(self).disputes@.insert(id, d)
                    &&& d.patent_id == patent_id && d.claimant == claimant && d.reason == reason
                    &&& d.filed_date == now && d.status == DisputeStatus::Open && d.resolution@.len() == 0
                    &&& *final(self) == (PatentRegistryContract {
                        disputes: final(self).disputes,
                        dispute_count: id,
                        ..*old(self)
                    })
                },
            },
    {
        if self.paused {
            return Err(Error::Paused);
        }
        if !self.patents.contains_key(&patent_id) {
            return Err(Error::PatentNotFound);
        }
        if reason.len() == 0 {
            return Err(Error::EmptyField);
        }
        let id = self.dispute_count + 1;
        self.disputes.insert(
            id,
            Dispute {
                patent_id,
                claimant,
                reason,
                filed_date: now,
                status: DisputeStatus::Open,
                resolution: Vec::new(),
            },
        );
        self.dispute_count = id;
        Ok(id)
    }

    pub open spec fn resolve_dispute_error(&self, caller: Address, id: u32, resolution: Seq<u8>) -> Option<Error> {
        if self.guarded_admin_error(caller) is Some {
            self.guarded_admin_error(caller)
        } else if !self.disputes@.contains_key(id) {
            Some(Error::DisputeNotFound)
        } else if self.disputes@[id].status == DisputeStatus::Resolved {
            Some(Error::DisputeAlreadyResolved)
        } else if resolution.len() == 0 {
            Some(Error::EmptyField)
        } else {
            None
        }
    }

    /// The admin resolves an open dispute with a written resolution.
    pub fn resolve_dispute(&mut self, caller: Address, dispute_id: u32, resolution: Text) -> (r: Result<(), Error>)
        ensures
            match old(self).resolve_dispute_error(caller, dispute_id, resolution@) {
                Some(e) => r == Err::<(), Error>(e) && *final(self) == *old(self),
                None => {
                    let o = old(self).disputes@[dispute_id];
                    let d = final(self).disputes@[dispute_id];
                    &&& r is Ok
                    &&& final(self).disputes@ == old(self).disputes@.insert(dispute_id, d)
                    &&& d.patent_id == o.patent_id && d.claimant == o.claimant && d.reason == o.reason
                    &&& d.filed_date == o.filed_date && d.status == DisputeStatus::Resolved
                    &&& d.resolution == resolution
                    &&& *final(self) == (PatentRegistryContract { disputes: final(self).disputes, ..*old(self) })
                },
            },
    {
        if self.paused {
            return Err(Error::Paused);
        }
        self.check_admin(caller)?;
        match self.disputes.get(&dispute_id) {
            None => {
                return Err(Error::DisputeNotFound);
            },
            Some(d) => {
                if d.status == DisputeStatus::Resolved {
                    return Err(Error::DisputeAlreadyResolved);
                }
            },
        }
        if resolution.len() == 0 {
            return Err(Error::EmptyField);
        }
        let d = self.disputes.remove(&dispute_id).unwrap();
        self.disputes.insert(
            dispute_id,
            Dispute {
                patent_id: d.patent_id,
                claimant: d.claimant,
                reason: d.reason,
                filed_date: d.filed_date,
                status: DisputeStatus::Resolved,
                resolution,
            },
        );
        proof {
            assert(self.disputes@ == old(self).disputes@.insert(dispute_id, self.disputes@[dispute_id]));
        }
        Ok(())
    }

    pub fn get_dispute(&self, dispute_id: u32) -> (r: Result<&Dispute, Error>)
        ensures
            self.disputes@.contains_key(dispute_id) ==> r == Ok::<&Dispute, Error>(&self.disputes@[dispute_id]),
            !self.disputes@.contains_key(dispute_id) ==> r == Err::<&Dispute, Error>(Error::DisputeNotFound),
    {
        match self.disputes.get(&dispute_id) {
            Some(d) => Ok(d),
            None => Err(Error::DisputeNotFound),
        }
    }

    pub fn get_dispute_count(&self) -> (n: u32)
        ensures
            n == self.dispute_count,
    {
        self.dispute_count
    }
}

/// With only positive amounts stored, the sum over the first `a` ids is
/// non-negative and grows with the number of ids looked at.
pub proof fn lemma_milestone_sum_grows(ms: Map<u32, Milestone>, escrow_id: u32, a: nat, b: nat)
    requires
        a <= b,
        forall|k: u32| #[trigger] ms.contains_key(k) ==> ms[k].amount > 0,
    ensures
        0 <= milestone_sum(ms, escrow_id, a) <= milestone_sum(ms, escrow_id, b),
    decreases b,
{
    if b > a {
        lemma_milestone_sum_grows(ms, escrow_id, a, (b - 1) as nat);
    } else if a > 0 {
        lemma_milestone_sum_grows(ms, escrow_id, (a - 1) as nat, (a - 1) as nat);
    }
}

impl PatentRegistryContract {
    pub open spec fn create_escrow_error(&self, payer: Address, patent_id: u32, license_id: u32, total: i128) -> Option<
        Error,
    > {
        if self.paused {
            Some(Error::Paused)
        } else if total <= 0 {
            Some(Error::InvalidFee)
        } else if !self.patents@.contains_key(patent_id) {
            Some(Error::PatentNotFound)
        } else if !self.licenses@.contains_key(license_id) {
            Some(Error::LicenseNotFound)
        } else if self.licenses@[license_id].licensee != payer {
            Some(Error::Unauthorized)
        } else if self.patents@[patent_id].status != PatentStatus::Active {
            Some(Error::InvalidStatus)
        } else {
            None
        }
    }

    /// The licensee opens an escrow for `total_amount`, paid to the patent's
    /// owner; nothing is deposited or released yet.
    pub fn create_escrow(&mut self, now: u64, payer: Address, patent_id: u32, license_id: u32, total_amount: i128) -> (r:
        Result<u32, Error>)
        requires
            old(self).wf(),
            old(self).create_escrow_error(payer, patent_id, license_id, total_amount) is None ==> old(self).escrow_count
                < u32::MAX,
        ensures
            final(self).wf(),
            match old(self).create_escrow_error(payer, patent_id, license_id, total_amount) {
                Some(e) => r == Err::<u32, Error>(e) && *final(self) == *old(self),
                None => {
                    let id = (old(self).escrow_count + 1) as u32;
                    &&& r == Ok::<u32, Error>(id)
                    &&& final(self).escrows@ == old(self).escrows@.insert(
                        id,
                        Escrow {
                            id,
                            patent_id,
                            license_id,
                            payer,
                            payee: old(self).patents@[patent_id].owner,
                            total_amount,
                            deposited_amount: 0,
                            released_amount: 0,
                            status: EscrowStatus::Funded,
                            created_at: now,
                            milestone_count: 0,
                        },
                    )
                    &&& *final(self) == (PatentRegistryContract {
                        escrows: final(self).escrows,
                        escrow_count: id,
                        ..*old(self)
                    })
                },
            },
    {
        if self.paused {
            return Err(Error::Paused);
        }
        if total_amount <= 0 {
            return Err(Error::InvalidFee);
        }
        let (payee, active) = match self.patents.get(&patent_id) {
            None => {
                return Err(Error::PatentNotFound);
            },
            Some(p) => (p.owner, p.status == PatentStatus::Active),
        };
        match self.licenses.get(&license_id) {
            None => {
                return Err(Error::LicenseNotFound);
            },
            Some(l) => {
                if l.licensee != payer {
                    return Err(Error::Unauthorized);
                }
            },
        }
        if !active {
            return Err(Error::InvalidStatus);
        }
        let id = self.escrow_count + 1;
        self.escrows.insert(
            id,
            Escrow {
                id,
                patent_id,
                license_id,
                payer,
                payee,
                total_amount,
                deposited_amount: 0,
                released_amount: 0,
                status: EscrowStatus::Funded,
                created_at: now,
                milestone_count: 0,
            },
        );
        self.escrow_count = id;
        Ok(id)
    }

    pub open spec fn fund_escrow_error(&self, payer: Address, id: u32) -> Option<Error> {
        if self.paused {
            Some(Error::Paused)
        } else if !self.escrows@.contains_key(id) {
            Some(Error::EscrowNotFound)
        } else if self.escrows@[id].payer != payer {
            Some(Error::Unauthorized)
        } else if self.escrows@[id].total_amount - self.escrows@[id].deposited_amount <= 0 {
            Some(Error::AlreadyExists)
        } else {
            None
        }
    }

    /// The payer deposits whatever is still owed, bringing the deposit to
    /// the agreed total; a fully funded escrow is refused.
    pub fn fund_escrow(&mut self, payer: Address, escrow_id: u32) -> (r: Result<(), Error>)
        requires
            old(self).wf(),
        ensures
            final(self).wf(),
            match old(self).fund_escrow_error(payer, escrow_id) {
                Some(e) => r == Err::<(), Error>(e) && *final(self) == *old(self),
                None => {
                    let e = old(self).escrows@[escrow_id];
                    &&& r is Ok
                    &&& final(self).escrows@ == old(self).escrows@.insert(
                        escrow_id,
                        Escrow { deposited_amount: e.total_amount, ..e },
                    )
                    &&& *final(self) == (PatentRegistryContract { escrows: final(self).escrows, ..*old(self) })
                },
            },
    {
        if self.paused {
            return Err(Error::Paused);
        }
        let e = match self.escrows.get(&escrow_id) {
            None => {
                return Err(Error::EscrowNotFound);
            },
            Some(e) => *e,
        };
        if e.payer != payer {
            return Err(Error::Unauthorized);
        }
        assert(escrow_ok(e));
        let remaining = e.total_amount - e.deposited_amount;
        if remaining <= 0 {
            return Err(Error::AlreadyExists);
        }
        self.escrows.insert(escrow_id, Escrow { deposited_amount: e.total_amount, ..e });
        Ok(())
    }

    /// The checks of `add_milestone` that come before the escrow's
    /// milestones are summed.
    pub open spec fn add_milestone_precheck(&self, owner: Address, escrow_id: u32, description: Seq<u8>, amount: i128) -> Option<
        Error,
    > {
        if self.paused {
            Some(Error::Paused)
        } else if description.len() == 0 {
            Some(Error::EmptyField)
        } else if amount <= 0 {
            Some(Error::InvalidFee)
        } else if !self.escrows@.contains_key(escrow_id) {
            Some(Error::EscrowNotFound)
        } else if self.escrows@[escrow_id].payee != owner {
            Some(Error::Unauthorized)
        } else {
            None
        }
    }

    /// The amount `add_milestone` compares with the escrow's total.
    pub open spec fn committed(&self, escrow_id: u32) -> int {
        milestone_sum(self.milestones@, escrow_id, self.escrows@[escrow_id].milestone_count as nat)
    }

    pub open spec fn add_milestone_error(&self, owner: Address, escrow_id: u32, description: Seq<u8>, amount: i128) -> Option<
        Error,
    > {
        if self.add_milestone_precheck(owner, escrow_id, description, amount) is Some {
            self.add_milestone_precheck(owner, escrow_id, description, amount)
        } else if self.committed(escrow_id) + amount > self.escrows@[escrow_id].total_amount {
            Some(Error::InsufficientDeposit)
        } else {
            None
        }
    }

    fn sum_milestones(&self, escrow_id: u32) -> (total: i128)
        requires
            self.wf(),
            self.escrows@.contains_key(escrow_id),
            self.escrows@[escrow_id].milestone_count > 0 ==> escrow_id * 10000 + self.escrows@[escrow_id].milestone_count
                <= u32::MAX,
            self.committed(escrow_id) <= i128::MAX,
        ensures
            total == self.committed(escrow_id),
    {
        let count = self.escrows.get(&escrow_id).unwrap().milestone_count;
        let mut total: i128 = 0;
        let mut i: u64 = 1;
        while i <= count as u64
            invariant
                self.wf(),
                self.escrows@.contains_key(escrow_id),
                count == self.escrows@[escrow_id].milestone_count,
                count > 0 ==> escrow_id * 10000 + count <= u32::MAX,
                self.committed(escrow_id) <= i128::MAX,
                1 <= i <= count as u64 + 1,
                total == milestone_sum(self.milestones@, escrow_id, (i - 1) as nat),
            decreases count as u64 + 1 - i,
        {
            let k: u32 = escrow_id * 10000 + i as u32;
            proof {
                lemma_milestone_sum_grows(self.milestones@, escrow_id, i as nat, count as nat);
                assert(k == (escrow_id * 10000 + i as nat) as u32);
            }
            match self.milestones.get(&k) {
                Some(m) => {
                    total = total + m.amount;
                },
                None => {},
            }
            i = i + 1;
        }
        total
    }

    /// The patent's owner (the escrow's payee) adds a milestone paying
    /// `amount`, provided the committed amount stays within the total; the
    /// milestone gets the next milestone number.
    pub fn add_milestone(
        &mut self,
        owner: Address,
        escrow_id: u32,
        description: Text,
        amount: i128,
        due_date: u64,
    ) -> (r: Result<u32, Error>)
        requires
            old(self).wf(),
            old(self).add_milestone_precheck(owner, escrow_id, description@, amount) is None ==> {
                &&& old(self).escrows@[escrow_id].milestone_count > 0 ==> escrow_id * 10000
                    + old(self).escrows@[escrow_id].milestone_count <= u32::MAX
                &&& old(self).committed(escrow_id) + amount <= i128::MAX
            },
            old(self).add_milestone_error(owner, escrow_id, description@, amount) is None ==> {
                &&& old(self).milestone_count < u32::MAX
                &&& old(self).escrows@[escrow_id].milestone_count < u32::MAX
            },
        ensures
            final(self).wf(),
            match old(self).add_milestone_error(owner, escrow_id, description@, amount) {
                Some(e) => r == Err::<u32, Error>(e) && *final(self) == *old(self),
                None => {
                    let id = (old(self).milestone_count + 1) as u32;
                    let e = old(self).escrows@[escrow_id];
                    &&& r == Ok::<u32, Error>(id)
                    &&& final(self).milestones@ == old(self).milestones@.insert(
                        id,
                        Milestone {
                            id,
                            escrow_id,
                            description,
                            amount,
                            status: MilestoneStatus::Pending,
                            due_date,
                            completed_at: None,
                            verified_at: None,
                        },
                    )
                    &&& final(self).escrows@ == old(self).escrows@.insert(
                        escrow_id,
                        Escrow { milestone_count: (e.milestone_count + 1) as u32, ..e },
                    )
                    &&& *final(self) == (PatentRegistryContract {
                        milestones: final(self).milestones,
                        escrows: final(self).escrows,
                        milestone_count: id,
                        ..*old(self)
                    })
                },
            },
    {
        if self.paused {
            return Err(Error::Paused);
        }
        if description.len() == 0 {
            return Err(Error::EmptyField);
        }
        if amount <= 0 {
            return Err(Error::InvalidFee);
        }
        let e = match self.escrows.get(&escrow_id) {
            None => {
                return Err(Error::EscrowNotFound);
            },
            Some(e) => *e,
        };
        if e.payee != owner {
            return Err(Error::Unauthorized);
        }
        let committed = self.sum_milestones(escrow_id);
        if committed + amount > e.total_amount {
            return Err(Error::InsufficientDeposit);
        }
        let id = self.milestone_count + 1;
        self.milestones.insert(
            id,
            Milestone {
                id,
                escrow_id,
                description,
                amount,
                status: MilestoneStatus::Pending,
                due_date,
                completed_at: None,
                verified_at: None,
            },
        );
        self.milestone_count = id;
        self.escrows.insert(escrow_id, Escrow { milestone_count: e.milestone_count + 1, ..e });
        Ok(id)
    }

    /// Milestone `id` changed in its status and timestamps alone.
    pub open spec fn milestone_changed(
        before: &Self,
        after: &Self,
        id: u32,
        status: MilestoneStatus,
        completed_at: Option<u64>,
        verified_at: Option<u64>,
    ) -> bool {
        let o = before.milestones@[id];
        let n = after.milestones@[id];
        &&& after.milestones@ == before.milestones@.insert(id, n)
        &&& n.status == status && n.completed_at == completed_at && n.verified_at == verified_at
        &&& n.id == o.id && n.escrow_id == o.escrow_id && n.description == o.description
        &&& n.amount == o.amount && n.due_date == o.due_date
    }

    fn update_milestone(&mut self, id: u32, status: MilestoneStatus, completed_at: Option<u64>, verified_at: Option<u64>)
        requires
            old(self).wf(),
            old(self).milestones@.contains_key(id),
        ensures
            final(self).wf(),
            Self::milestone_changed(old(self), final(self), id, status, completed_at, verified_at),
            *final(self) == (PatentRegistryContract { milestones: final(self).milestones, ..*old(self) }),
    {
        let m = self.milestones.remove(&id).unwrap();
        self.milestones.insert(
            id,
            Milestone {
                id: m.id,
                escrow_id: m.escrow_id,
                description: m.description,
                amount: m.amount,
                status,
                due_date: m.due_date,
                completed_at,
                verified_at,
            },
        );
        proof {
            assert(self.milestones@ == old(self).milestones@.insert(id, self.milestones@[id]));
        }
    }

    /// Why a party of the milestone's escrow may not move milestone `id`
    /// out of status `from`, if it may not: `by_payer` names the payer as
    /// the party that acts, otherwise the payee.
    pub open spec fn milestone_step_error(&self, who: Address, id: u32, by_payer: bool, from: MilestoneStatus) -> Option<
        Error,
    > {
        if self.paused {
            Some(Error::Paused)
        } else if !self.milestones@.contains_key(id) {
            Some(Error::MilestoneNotFound)
        } else if !self.escrows@.contains_key(self.milestones@[id].escrow_id) {
            Some(Error::EscrowNotFound)
        } else if (if by_payer {
            self.escrows@[self.milestones@[id].escrow_id].payer
        } else {
            self.escrows@[self.milestones@[id].escrow_id].payee
        }) != who {
            Some(Error::Unauthorized)
        } else if self.milestones@[id].status != from {
            Some(Error::InvalidMilestoneStatus)
        } else {
            None
        }
    }

    fn check_milestone_step(&self, who: Address, id: u32, by_payer: bool, from: MilestoneStatus) -> (r: Result<
        (u32, i128),
        Error,
    >)
        ensures
            match self.milestone_step_error(who, id, by_payer, from) {
                Some(e) => r == Err::<(u32, i128), Error>(e),
                None => r == Ok::<(u32, i128), Error>(
                    (self.milestones@[id].escrow_id, self.milestones@[id].amount),
                ),
            },
    {
        if self.paused {
            return Err(Error::Paused);
        }
        let (escrow_id, amount, status) = match self.milestones.get(&id) {
            None => {
                return Err(Error::MilestoneNotFound);
            },
            Some(m) => (m.escrow_id, m.amount, m.status),
        };
        let party = match self.escrows.get(&escrow_id) {
            None => {
                return Err(Error::EscrowNotFound);
            },
            Some(e) => if by_payer {
                e.payer
            } else {
                e.payee
            },
        };
        if party != who {
            return Err(Error::Unauthorized);
        }
        if status != from {
            return Err(Error::InvalidMilestoneStatus);
        }
        Ok((escrow_id, amount))
    }

    /// The payer confirms delivery of a pending milestone.
    pub fn complete_milestone(&mut self, now: u64, payer: Address, milestone_id: u32) -> (r: Result<(), Error>)
        requires
            old(self).wf(),
        ensures
            final(self).wf(),
            match old(self).milestone_step_error(payer, milestone_id, true, MilestoneStatus::Pending) {
                Some(e) => r == Err::<(), Error>(e) && *final(self) == *old(self),
                None => {
                    &&& r is Ok
                    &&& Self::milestone_changed(
                        old(self),
                        final(self),
                        milestone_id,
                        MilestoneStatus::Completed,
                        Some(now),
                        old(self).milestones@[milestone_id].verified_at,
                    )
                    &&& *final(self) == (PatentRegistryContract { milestones: final(self).milestones, ..*old(self) })
                },
            },
    {
        self.check_milestone_step(payer, milestone_id, true, MilestoneStatus::Pending)?;
        let verified_at = self.milestones.get(&milestone_id).unwrap().verified_at;
        self.update_milestone(milestone_id, MilestoneStatus::Completed, Some(now), verified_at);
        Ok(())
    }

    /// The escrow after releasing `amount` more: fully released once the
    /// released amount reaches the total, partly released before.
    pub open spec fn released(e: Escrow, amount: i128) -> Escrow {
        let r = (e.released_amount + amount) as i128;
        Escrow {
            released_amount: r,
            status: if r >= e.total_amount {
                EscrowStatus::FullyReleased
            } else {
                EscrowStatus::PartiallyReleased
            },
            ..e
        }
    }

    /// The payee accepts a completed milestone, and its amount is released.
    pub fn verify_and_release(&mut self, now: u64, payee: Address, milestone_id: u32) -> (r: Result<(), Error>)
        requires
            old(self).wf(),
            old(self).milestone_step_error(payee, milestone_id, false, MilestoneStatus::Completed) is None
                ==> fits_i128(
                old(self).escrows@[old(self).milestones@[milestone_id].escrow_id].released_amount + old(
                    self,
                ).milestones@[milestone_id].amount,
            ),
        ensures
            final(self).wf(),
            match old(self).milestone_step_error(payee, milestone_id, false, MilestoneStatus::Completed) {
                Some(e) => r == Err::<(), Error>(e) && *final(self) == *old(self),
                None => {
                    let m = old(self).milestones@[milestone_id];
                    &&& r is Ok
                    &&& Self::milestone_changed(
                        old(self),
                        final(self),
                        milestone_id,
                        MilestoneStatus::Verified,
                        m.completed_at,
                        Some(now),
                    )
                    &&& final(self).escrows@ == old(self).escrows@.insert(
                        m.escrow_id,
                        Self::released(old(self).escrows@[m.escrow_id], m.amount),
                    )
                    &&& *final(self) == (PatentRegistryContract {
                        milestones: final(self).milestones,
                        escrows: final(self).escrows,
                        ..*old(self)
                    })
                },
            },
    {
        let (escrow_id, amount) = self.check_milestone_step(payee, milestone_id, false, MilestoneStatus::Completed)?;
        let completed_at = self.milestones.get(&milestone_id).unwrap().completed_at;
        self.update_milestone(milestone_id, MilestoneStatus::Verified, completed_at, Some(now));
        let e = *self.escrows.get(&escrow_id).unwrap();
        let released = e.released_amount + amount;
        let status = if released >= e.total_amount {
            EscrowStatus::FullyReleased
        } else {
            EscrowStatus::PartiallyReleased
        };
        self.escrows.insert(escrow_id, Escrow { released_amount: released, status, ..e });
        Ok(())
    }

    /// The payee rejects a completed milestone.
    pub fn reject_milestone(&mut self, payee: Address, milestone_id: u32) -> (r: Result<(), Error>)
        requires
            old(self).wf(),
        ensures
            final(self).wf(),
            match old(self).milestone_step_error(payee, milestone_id, false, MilestoneStatus::Completed) {
                Some(e) => r == Err::<(), Error>(e) && *final(self) == *old(self),
                None => {
                    let m = old(self).milestones@[milestone_id];
                    &&& r is Ok
                    &&& Self::milestone_changed(
                        old(self),
                        final(self),
                        milestone_id,
                        MilestoneStatus::Rejected,
                        m.completed_at,
                        m.verified_at,
                    )
                    &&& *final(self) == (PatentRegistryContract { milestones: final(self).milestones, ..*old(self) })
                },
            },
    {
        self.check_milestone_step(payee, milestone_id, false, MilestoneStatus::Completed)?;
        let m = self.milestones.get(&milestone_id).unwrap();
        let (completed_at, verified_at) = (m.completed_at, m.verified_at);
        self.update_milestone(milestone_id, MilestoneStatus::Rejected, completed_at, verified_at);
        Ok(())
    }

    pub open spec fn refund_error(&self, caller: Address, id: u32) -> Option<Error> {
        if self.guarded_admin_error(caller) is Some {
            self.guarded_admin_error(caller)
        } else if !self.escrows@.contains_key(id) {
            Some(Error::EscrowNotFound)
        } else if self.escrows@[id].status == EscrowStatus::FullyReleased || self.escrows@[id].status
            == EscrowStatus::Refunded {
            Some(Error::EscrowAlreadyReleased)
        } else {
            None
        }
    }

    /// The admin refunds what was deposited and not yet released, which
    /// brings the released amount to the deposit; the escrow is closed as
    /// refunded.  Returns the amount refunded.
    pub fn refund_escrow(&mut self, caller: Address, escrow_id: u32) -> (r: Result<i128, Error>)
        requires
            old(self).wf(),
        ensures
            final(self).wf(),
            match old(self).refund_error(caller, escrow_id) {
                Some(e) => r == Err::<i128, Error>(e) && *final(self) == *old(self),
                None => {
                    let e = old(self).escrows@[escrow_id];
                    &&& r == Ok::<i128, Error>((e.deposited_amount - e.released_amount) as i128)
                    &&& final(self).escrows@ == old(self).escrows@.insert(
                        escrow_id,
                        Escrow { released_amount: e.deposited_amount, status: EscrowStatus::Refunded, ..e },
                    )
                    &&& *final(self) == (PatentRegistryContract { escrows: final(self).escrows, ..*old(self) })
                },
            },
    {
        if self.paused {
            return Err(Error::Paused);
        }
        self.check_admin(caller)?;
        let e = match self.escrows.get(&escrow_id) {
            None => {
                return Err(Error::EscrowNotFound);
            },
            Some(e) => *e,
        };
        if e.status == EscrowStatus::FullyReleased || e.status == EscrowStatus::Refunded {
            return Err(Error::EscrowAlreadyReleased);
        }
        assert(escrow_ok(e));
        let refund = e.deposited_amount - e.released_amount;
        let released = e.released_amount + refund;
        self.escrows.insert(escrow_id, Escrow { released_amount: released, status: EscrowStatus::Refunded, ..e });
        Ok(refund)
    }

    pub fn get_escrow(&self, escrow_id: u32) -> (r: Result<Escrow, Error>)
        ensures
            self.escrows@.contains_key(escrow_id) ==> r == Ok::<Escrow, Error>(self.escrows@[escrow_id]),
            !self.escrows@.contains_key(escrow_id) ==> r == Err::<Escrow, Error>(Error::EscrowNotFound),
    {
        match self.escrows.get(&escrow_id) {
            Some(e) => Ok(*e),
            None => Err(Error::EscrowNotFound),
        }
    }

    pub fn get_milestone(&self, milestone_id: u32) -> (r: Result<&Milestone, Error>)
        ensures
            self.milestones@.contains_key(milestone_id) ==> r == Ok::<&Milestone, Error>(
                &self.milestones@[milestone_id],
            ),
            !self.milestones@.contains_key(milestone_id) ==> r == Err::<&Milestone, Error>(Error::MilestoneNotFound),
    {
        match self.milestones.get(&milestone_id) {
            Some(m) => Ok(m),
            None => Err(Error::MilestoneNotFound),
        }
    }

    pub fn get_escrow_count(&self) -> (n: u32)
        ensures
            n == self.escrow_count,
    {
        self.escrow_count
    }

    pub fn get_milestone_count(&self) -> (n: u32)
        ensures
            n == self.milestone_count,
    {
        self.milestone_count
    }
}

/// While the registry is paused, every operation that changes it other
/// than pausing and resuming is refused with `Paused`.
pub proof fn lemma_pause_stops_changes(
    s: PatentRegistryContract,
    who: Address,
    id: u32,
    other_id: u32,
    text: Seq<u8>,
    amount: i128,
    from: PatentStatus,
    step_from: MilestoneStatus,
    by_payer: bool,
)
    requires
        s.paused,
    ensures
        s.file_patent_error(text, text) == Some(Error::Paused),
        s.status_change_error(who, id, from) == Some(Error::Paused),
        s.transfer_error(who, id) == Some(Error::Paused),
        s.grant_license_error(who, id, amount) == Some(Error::Paused),
        s.file_dispute_error(id, text) == Some(Error::Paused),
        s.resolve_dispute_error(who, id, text) == Some(Error::Paused),
        s.create_escrow_error(who, id, other_id, amount) == Some(Error::Paused),
        s.fund_escrow_error(who, id) == Some(Error::Paused),
        s.add_milestone_error(who, id, text, amount) == Some(Error::Paused),
        s.milestone_step_error(who, id, by_payer, step_from) == Some(Error::Paused),
        s.refund_error(who, id) == Some(Error::Paused),
{
}

/// A resolved dispute cannot be resolved again.
pub proof fn lemma_dispute_resolved_once(s: PatentRegistryContract, caller: Address, id: u32, resolution: Seq<u8>)
    requires
        s.disputes@.contains_key(id),
        s.disputes@[id].status == DisputeStatus::Resolved,
    ensures
        s.resolve_dispute_error(caller, id, resolution) is Some,
{
}

/// A refunded or fully released escrow cannot be refunded (again).
pub proof fn lemma_refund_is_final(s: PatentRegistryContract, caller: Address, id: u32)
    requires
        s.escrows@.contains_key(id),
        s.escrows@[id].status == EscrowStatus::Refunded || s.escrows@[id].status == EscrowStatus::FullyReleased,
    ensures
        s.refund_error(caller, id) is Some,
{
}

/// A milestone's amount is released at most once: once verified, the
/// milestone can be neither verified nor rejected again.
pub proof fn lemma_milestone_released_once(s: PatentRegistryContract, payee: Address, id: u32)
    requires
        s.milestones@.contains_key(id),
        s.milestones@[id].status == MilestoneStatus::Verified,
    ensures
        s.milestone_step_error(payee, id, false, MilestoneStatus::Completed) is Some,
{
}

} // verus!
