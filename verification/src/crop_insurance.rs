//! Parametric crop insurance: farmers buy policies on a region's rainfall,
//! an oracle reports rainfall per region, and a policy pays out once when
//! the rainfall crosses its threshold (below it for drought cover, above
//! it for flood cover).
use vstd::prelude::*;
use std::collections::HashMap;
use crate::common::{Address, Text, text_eq, text_copy, first_match, is_first_match, lemma_first_match_is,
    lemma_first_match_none, written};

verus! {

broadcast use vstd::std_specs::hash::group_hash_axioms;

#[derive(Clone, Copy, Debug, PartialEq, Eq, Structural)]
pub enum PolicyStatus {
    Active,
    Claimed,
    Expired,
    Cancelled,
}

#[derive(Clone, Debug)]
pub struct CropPolicy {
    pub id: u64,
    pub farmer: Address,
    pub region_id: Text,
    pub rainfall_threshold_mm: u32,
    pub trigger_on_drought: bool,
    pub premium_amount: i128,
    pub payout_amount: i128,
    pub start_time: u64,
    pub end_time: u64,
    pub status: PolicyStatus,
}

#[derive(Clone, Copy, Debug, PartialEq, Eq, Structural)]
pub enum Error {
    AlreadyInitialized,
    NotInitialized,
    Unauthorized,
    Paused,
    InvalidSchedule,
    InvalidAmount,
    PolicyNotFound,
    PolicyNotActive,
    TriggerConditionNotMet,
    RainfallDataMissing,
    AlreadyClaimed,
    ArithmeticError,
}

/// The latest rainfall reported for a region.
#[derive(Clone, Debug)]
pub struct RegionRainfall {
    pub region_id: Text,
    pub rainfall_mm: u32,
}

/// The insurance contract's storage.  A region's rainfall is read at its
/// first entry.
pub struct CropInsurance {
    pub admin: Option<Address>,
    pub oracle: Option<Address>,
    pub token: Option<Address>,
    pub paused: bool,
    pub policy_count: u64,
    pub policies: HashMap<u64, CropPolicy>,
    pub rainfall: Vec<RegionRainfall>,
}

pub open spec fn region_key(region: Seq<u8>) -> spec_fn(RegionRainfall) -> bool {
    |r: RegionRainfall| r.region_id@ == region
}

/// The reading at the region's first entry, if any.
pub open spec fn rain_value(s: Seq<RegionRainfall>, region: Seq<u8>) -> Option<u32> {
    match first_match(s, region_key(region)) {
        Some(i) => Some(s[i].rainfall_mm),
        None => None,
    }
}

/// Whether a rainfall reading triggers a policy.
pub open spec fn triggers(trigger_on_drought: bool, threshold: u32, rainfall_mm: u32) -> bool {
    if trigger_on_drought {
        rainfall_mm < threshold
    } else {
        rainfall_mm > threshold
    }
}

impl CropInsurance {
    pub open spec fn initialized(&self) -> bool {
        self.admin is Some
    }

    /// Oracle and token are recorded together with the admin.
    pub open spec fn wf(&self) -> bool {
        self.admin is Some ==> self.oracle is Some && self.token is Some
    }

    pub open spec fn rain_at(&self, region: Seq<u8>) -> Option<int> {
        first_match(self.rainfall@, region_key(region))
    }

    /// The latest rainfall reported for a region, if any.
    pub open spec fn spec_rainfall(&self, region: Seq<u8>) -> Option<u32> {
        rain_value(self.rainfall@, region)
    }

    /// Empty storage.
    pub fn new() -> (s: Self)
        ensures
            s.wf(),
            !s.initialized(),
            s.policies@ == Map::<u64, CropPolicy>::empty(),
            s.rainfall@.len() == 0,
    {
        CropInsurance {
            admin: None,
            oracle: None,
            token: None,
            paused: false,
            policy_count: 0,
            policies: HashMap::new(),
            rainfall: Vec::new(),
        }
    }

    /// Record admin, rainfall oracle and payment token; not paused, no
    /// policies.
    pub fn initialize(&mut self, admin: Address, oracle: Address, token: Address) -> (r: Result<(), Error>)
        requires
            old(self).wf(),
        ensures
            final(self).wf(),
            old(self).initialized() ==> r == Err::<(), Error>(Error::AlreadyInitialized) && *final(self) == *old(self),
            !old(self).initialized() ==> r is Ok && *final(self) == (CropInsurance {
                admin: Some(admin),
                oracle: Some(oracle),
                token: Some(token),
                paused: false,
                policy_count: 0,
                ..*old(self)
            }),
    {
        if self.admin.is_some() {
            return Err(Error::AlreadyInitialized);
        }
        self.admin = Some(admin);
        self.oracle = Some(oracle);
        self.token = Some(token);
        self.paused = false;
        self.policy_count = 0;
        Ok(())
    }

    /// The admin pauses or resumes the contract.
    pub fn set_paused(&mut self, paused: bool) -> (r: Result<(), Error>)
        requires
            old(self).wf(),
        ensures
            final(self).wf(),
            !old(self).initialized() ==> r == Err::<(), Error>(Error::NotInitialized) && *final(self) == *old(self),
            old(self).initialized() ==> r is Ok && *final(self) == (CropInsurance { paused, ..*old(self) }),
    {
        if self.admin.is_none() {
            return Err(Error::NotInitialized);
        }
        self.paused = paused;
        Ok(())
    }

    /// The admin replaces the rainfall oracle.
    pub fn set_oracle(&mut self, new_oracle: Address) -> (r: Result<(), Error>)
        requires
            old(self).wf(),
        ensures
            final(self).wf(),
            !old(self).initialized() ==> r == Err::<(), Error>(Error::NotInitialized) && *final(self) == *old(self),
            old(self).initialized() ==> r is Ok && *final(self) == (CropInsurance {
                oracle: Some(new_oracle),
                ..*old(self)
            }),
    {
        if self.admin.is_none() {
            return Err(Error::NotInitialized);
        }
        self.oracle = Some(new_oracle);
        Ok(())
    }

    /// Why `create_policy` fails, if it does.
    pub open spec fn create_error(&self, now: u64, premium_amount: i128, payout_amount: i128, duration_seconds: u64) -> Option<
        Error,
    > {
        if !self.initialized() {
            Some(Error::NotInitialized)
        } else if self.paused {
            Some(Error::Paused)
        } else if premium_amount <= 0 || payout_amount <= premium_amount {
            Some(Error::InvalidAmount)
        } else if duration_seconds == 0 {
            Some(Error::InvalidSchedule)
        } else if now + duration_seconds > u64::MAX {
            Some(Error::ArithmeticError)
        } else {
            None
        }
    }

    /// A farmer buys a policy: a positive premium for a larger payout, over
    /// `duration_seconds` from `now`.  Returns the policy id (the policy
    /// count before it).  The host then moves the premium from the farmer
    /// to the contract.
    pub fn create_policy(
        &mut self,
        now: u64,
        farmer: Address,
        region_id: Text,
        rainfall_threshold_mm: u32,
        trigger_on_drought: bool,
        premium_amount: i128,
        payout_amount: i128,
        duration_seconds: u64,
    ) -> (r: Result<u64, Error>)
        requires
            old(self).wf(),
            old(self).create_error(now, premium_amount, payout_amount, duration_seconds) is None ==> old(
                self,
            ).policy_count < u64::MAX,
        ensures
            final(self).wf(),
            match old(self).create_error(now, premium_amount, payout_amount, duration_seconds) {
                Some(e) => r == Err::<u64, Error>(e) && *final(self) == *old(self),
                None => {
                    let id = old(self).policy_count;
                    &&& r == Ok::<u64, Error>(id)
                    &&& final(self).policy_count == id + 1
                    &&& final(self).policies@ == old(self).policies@.insert(
                        id,
                        CropPolicy {
                            id,
                            farmer,
                            region_id,
                            rainfall_threshold_mm,
                            trigger_on_drought,
                            premium_amount,
                            payout_amount,
                            start_time: now,
                            end_time: (now + duration_seconds) as u64,
                            status: PolicyStatus::Active,
                        },
                    )
                    &&& final(self).rainfall@ == old(self).rainfall@
                    &&& final(self).admin == old(self).admin
                    &&& final(self).oracle == old(self).oracle
                    &&& final(self).token == old(self).token
                    &&& final(self).paused == old(self).paused
                },
            },
    {
        if self.admin.is_none() {
            return Err(Error::NotInitialized);
        }
        if self.paused {
            return Err(Error::Paused);
        }
        if premium_amount <= 0 || payout_amount <= premium_amount {
            return Err(Error::InvalidAmount);
        }
        if duration_seconds == 0 {
            return Err(Error::InvalidSchedule);
        }
        let end_time = match now.checked_add(duration_seconds) {
            Some(t) => t,
            None => return Err(Error::ArithmeticError),
        };
        let id = self.policy_count;
        self.policies.insert(
            id,
            CropPolicy {
                id,
                farmer,
                region_id,
                rainfall_threshold_mm,
                trigger_on_drought,
                premium_amount,
                payout_amount,
                start_time: now,
                end_time,
                status: PolicyStatus::Active,
            },
        );
        self.policy_count = id + 1;
        Ok(id)
    }

    fn find_region(&self, region: &Text) -> (r: Option<usize>)
        ensures
            match r {
                Some(i) => self.rain_at(region@) == Some(i as int) && i < self.rainfall@.len(),
                None => self.rain_at(region@) is None,
            },
    {
        let mut i: usize = 0;
        while i < self.rainfall.len()
            invariant
                0 <= i <= self.rainfall@.len(),
                forall|k: int| 0 <= k < i ==> !region_key(region@)(self.rainfall@[k]),
            decreases self.rainfall@.len() - i,
        {
            if text_eq(&self.rainfall[i].region_id, region) {
                proof {
                    assert(is_first_match(self.rainfall@, region_key(region@), i as int));
                    lemma_first_match_is(self.rainfall@, region_key(region@), i as int);
                }
                return Some(i);
            }
            i = i + 1;
        }
        proof {
            lemma_first_match_none(self.rainfall@, region_key(region@));
        }
        None
    }

    /// Why `submit_rainfall_data` fails, if it does.
    pub open spec fn rainfall_error(&self, oracle: Address) -> Option<Error> {
        if !self.initialized() {
            Some(Error::NotInitialized)
        } else if self.paused {
            Some(Error::Paused)
        } else if self.oracle != Some(oracle) {
            Some(Error::Unauthorized)
        } else {
            None
        }
    }

    /// The oracle reports a region's rainfall, replacing the previous
    /// reading.
    pub fn submit_rainfall_data(&mut self, oracle: Address, region_id: Text, rainfall_mm: u32) -> (r: Result<(), Error>)
        requires
            old(self).wf(),
        ensures
            final(self).wf(),
            match old(self).rainfall_error(oracle) {
                Some(e) => r == Err::<(), Error>(e) && *final(self) == *old(self),
                None => {
                    &&& r is Ok
                    &&& final(self).rainfall@.len() == written(
                        old(self).rainfall@,
                        old(self).rain_at(region_id@),
                        RegionRainfall { region_id, rainfall_mm },
                    ).len()
                    &&& final(self).spec_rainfall(region_id@) == Some(rainfall_mm)
                    &&& forall|other: Seq<u8>| other != region_id@ ==> #[trigger] final(self).spec_rainfall(other)
                        == old(self).spec_rainfall(other)
                    &&& final(self).policies@ == old(self).policies@
                    &&& final(self).policy_count == old(self).policy_count
                    &&& final(self).admin == old(self).admin
                    &&& final(self).oracle == old(self).oracle
                    &&& final(self).token == old(self).token
                    &&& final(self).paused == old(self).paused
                },
            },
    {
        if self.admin.is_none() {
            return Err(Error::NotInitialized);
        }
        if self.paused {
            return Err(Error::Paused);
        }
        match self.oracle {
            Some(o) => {
                if o != oracle {
                    return Err(Error::Unauthorized);
                }
            },
            None => return Err(Error::Unauthorized),
        }
        let slot = self.find_region(&region_id);
        let ghost old_rain = self.rainfall@;
        match slot {
            Some(i) => {
                let o = self.rainfall.remove(i);
                self.rainfall.insert(i, RegionRainfall { region_id: o.region_id, rainfall_mm });
                proof {
                    crate::common::lemma_first_match_some(old_rain, region_key(region_id@));
                    assert(self.rainfall@ =~= old_rain.update(i as int, self.rainfall@[i as int]));
                    lemma_rain_update(old_rain, self.rainfall@, i as int, region_id@);
                }
            },
            None => {
                let stored = text_copy(&region_id);
                self.rainfall.push(RegionRainfall { region_id: stored, rainfall_mm });
                proof {
                    assert(self.rainfall@.drop_last() =~= old_rain);
                    lemma_rain_push(old_rain, self.rainfall@, region_id@);
                }
            },
        }
        Ok(())
    }

    /// Why `trigger_payout` fails, if it does.
    pub open spec fn payout_error(&self, policy_id: u64) -> Option<Error> {
        if !self.initialized() {
            Some(Error::NotInitialized)
        } else if self.paused {
            Some(Error::Paused)
        } else if !self.policies@.contains_key(policy_id) {
            Some(Error::PolicyNotFound)
        } else {
            let p = self.policies@[policy_id];
            if p.status != PolicyStatus::Active {
                Some(Error::PolicyNotActive)
            } else if self.spec_rainfall(p.region_id@) is None {
                Some(Error::RainfallDataMissing)
            } else if !triggers(p.trigger_on_drought, p.rainfall_threshold_mm, self.spec_rainfall(p.region_id@)->0) {
                Some(Error::TriggerConditionNotMet)
            } else {
                None
            }
        }
    }

    /// Pay an active policy whose region's reported rainfall meets its
    /// trigger: the policy is marked claimed and its payout returned (the
    /// host moves it from the contract to the farmer).  Anyone may call it.
    pub fn trigger_payout(&mut self, policy_id: u64) -> (r: Result<i128, Error>)
        requires
            old(self).wf(),
        ensures
            final(self).wf(),
            match old(self).payout_error(policy_id) {
                Some(e) => r == Err::<i128, Error>(e) && *final(self) == *old(self),
                None => {
                    let o = old(self).policies@[policy_id];
                    &&& r == Ok::<i128, Error>(o.payout_amount)
                    &&& Self::status_changed(old(self), final(self), policy_id, PolicyStatus::Claimed)
                },
            },
            r is Ok ==> {
                let p = old(self).policies@[policy_id];
                let rain = old(self).spec_rainfall(p.region_id@)->0;
                &&& p.trigger_on_drought ==> rain < p.rainfall_threshold_mm
                &&& !p.trigger_on_drought ==> rain > p.rainfall_threshold_mm
            },
    {
        if self.admin.is_none() {
            return Err(Error::NotInitialized);
        }
        if self.paused {
            return Err(Error::Paused);
        }
        let (payout, drought, threshold, slot) = match self.policies.get(&policy_id) {
            None => return Err(Error::PolicyNotFound),
            Some(p) => {
                if p.status != PolicyStatus::Active {
                    return Err(Error::PolicyNotActive);
                }
                (p.payout_amount, p.trigger_on_drought, p.rainfall_threshold_mm, self.find_region(&p.region_id))
            },
        };
        let rainfall_mm = match slot {
            Some(i) => self.rainfall[i].rainfall_mm,
            None => return Err(Error::RainfallDataMissing),
        };
        let condition_met = if drought {
            rainfall_mm < threshold
        } else {
            rainfall_mm > threshold
        };
        if !condition_met {
            return Err(Error::TriggerConditionNotMet);
        }
        self.set_status(policy_id, PolicyStatus::Claimed);
        Ok(payout)
    }

    /// Only the policy's status changed, to `status`.
    pub open spec fn status_changed(before: &Self, after: &Self, policy_id: u64, status: PolicyStatus) -> bool {
        let o = before.policies@[policy_id];
        let n = after.policies@[policy_id];
        &&& after.policies@ == before.policies@.insert(policy_id, n)
        &&& n.status == status
        &&& n.id == o.id && n.farmer == o.farmer && n.region_id == o.region_id
        &&& n.rainfall_threshold_mm == o.rainfall_threshold_mm && n.trigger_on_drought == o.trigger_on_drought
        &&& n.premium_amount == o.premium_amount && n.payout_amount == o.payout_amount
        &&& n.start_time == o.start_time && n.end_time == o.end_time
        &&& after.rainfall@ == before.rainfall@
        &&& after.policy_count == before.policy_count
        &&& after.admin == before.admin
        &&& after.oracle == before.oracle
        &&& after.token == before.token
        &&& after.paused == before.paused
    }

    fn set_status(&mut self, policy_id: u64, status: PolicyStatus)
        requires
            old(self).policies@.contains_key(policy_id),
        ensures
            Self::status_changed(old(self), final(self), policy_id, status),
    {
        let p = self.policies.remove(&policy_id).unwrap();
        self.policies.insert(
            policy_id,
            CropPolicy {
                id: p.id,
                farmer: p.farmer,
                region_id: p.region_id,
                rainfall_threshold_mm: p.rainfall_threshold_mm,
                trigger_on_drought: p.trigger_on_drought,
                premium_amount: p.premium_amount,
                payout_amount: p.payout_amount,
                start_time: p.start_time,
                end_time: p.end_time,
                status,
            },
        );
        proof {
            assert(self.policies@ =~= old(self).policies@.insert(policy_id, self.policies@[policy_id]));
        }
    }

    /// Why `expire_policy` fails, if it does.
    pub open spec fn expire_error(&self, now: u64, policy_id: u64) -> Option<Error> {
        if !self.initialized() {
            Some(Error::NotInitialized)
        } else if !self.policies@.contains_key(policy_id) {
            Some(Error::PolicyNotFound)
        } else if self.policies@[policy_id].status != PolicyStatus::Active {
            Some(Error::PolicyNotActive)
        } else if now < self.policies@[policy_id].end_time {
            Some(Error::InvalidSchedule)
        } else {
            None
        }
    }

    /// An active policy whose term has ended expires (allowed while
    /// paused).
    pub fn expire_policy(&mut self, now: u64, policy_id: u64) -> (r: Result<(), Error>)
        requires
            old(self).wf(),
        ensures
            final(self).wf(),
            match old(self).expire_error(now, policy_id) {
                Some(e) => r == Err::<(), Error>(e) && *final(self) == *old(self),
                None => r is Ok && Self::status_changed(old(self), final(self), policy_id, PolicyStatus::Expired),
            },
    {
        if self.admin.is_none() {
            return Err(Error::NotInitialized);
        }
        match self.policies.get(&policy_id) {
            None => return Err(Error::PolicyNotFound),
            Some(p) => {
                if p.status != PolicyStatus::Active {
                    return Err(Error::PolicyNotActive);
                }
                if now < p.end_time {
                    return Err(Error::InvalidSchedule);
                }
            },
        }
        self.set_status(policy_id, PolicyStatus::Expired);
        Ok(())
    }

    pub fn get_policy(&self, policy_id: u64) -> (r: Result<&CropPolicy, Error>)
        ensures
            !self.initialized() ==> r == Err::<&CropPolicy, Error>(Error::NotInitialized),
            self.initialized() && self.policies@.contains_key(policy_id) ==> r == Ok::<&CropPolicy, Error>(
                &self.policies@[policy_id],
            ),
            self.initialized() && !self.policies@.contains_key(policy_id) ==> r == Err::<&CropPolicy, Error>(
                Error::PolicyNotFound,
            ),
    {
        if self.admin.is_none() {
            return Err(Error::NotInitialized);
        }
        match self.policies.get(&policy_id) {
            Some(p) => Ok(p),
            None => Err(Error::PolicyNotFound),
        }
    }

    pub fn get_rainfall(&self, region_id: &Text) -> (r: Option<u32>)
        ensures
            r == self.spec_rainfall(region_id@),
    {
        match self.find_region(region_id) {
            Some(i) => Some(self.rainfall[i].rainfall_mm),
            None => None,
        }
    }
}

/// Overwriting the first entry of a region changes that region's reading
/// only.
proof fn lemma_rain_update(old_rain: Seq<RegionRainfall>, new_rain: Seq<RegionRainfall>, i: int, region: Seq<u8>)
    requires
        first_match(old_rain, region_key(region)) == Some(i),
        0 <= i < old_rain.len(),
        new_rain == old_rain.update(i, new_rain[i]),
        new_rain[i].region_id@ == region,
    ensures
        first_match(new_rain, region_key(region)) == Some(i),
        forall|other: Seq<u8>|
            other != region ==> #[trigger] first_match(new_rain, region_key(other)) == first_match(
                old_rain,
                region_key(other),
            ),
        forall|other: Seq<u8>| other != region ==> #[trigger] rain_value(new_rain, other) == rain_value(old_rain, other),
{
    crate::common::lemma_first_match_some(old_rain, region_key(region));
    assert(is_first_match(new_rain, region_key(region), i));
    lemma_first_match_is(new_rain, region_key(region), i);
    assert forall|other: Seq<u8>| other != region implies #[trigger] first_match(new_rain, region_key(other))
        == first_match(old_rain, region_key(other)) by {
        match first_match(old_rain, region_key(other)) {
            Some(j) => {
                crate::common::lemma_first_match_some(old_rain, region_key(other));
                assert(j != i);
                assert(is_first_match(new_rain, region_key(other), j));
                lemma_first_match_is(new_rain, region_key(other), j);
                assert(new_rain[j] == old_rain[j]);
            },
            None => {
                crate::common::lemma_first_match_none(old_rain, region_key(other));
                assert forall|k: int| 0 <= k < new_rain.len() implies !region_key(other)(new_rain[k]) by {
                    if k != i {
                        assert(new_rain[k] == old_rain[k]);
                    }
                }
                lemma_first_match_none(new_rain, region_key(other));
            },
        }
    }
    assert forall|other: Seq<u8>| other != region implies #[trigger] rain_value(new_rain, other) == rain_value(
        old_rain,
        other,
    ) by {
        assert(first_match(new_rain, region_key(other)) == first_match(old_rain, region_key(other)));
        if let Some(j) = first_match(old_rain, region_key(other)) {
            crate::common::lemma_first_match_some(old_rain, region_key(other));
            assert(new_rain[j] == old_rain[j]);
        }
    }
}

/// Appending a reading for a region without one gives it that reading
/// only.
proof fn lemma_rain_push(old_rain: Seq<RegionRainfall>, new_rain: Seq<RegionRainfall>, region: Seq<u8>)
    requires
        first_match(old_rain, region_key(region)) is None,
        new_rain.len() == old_rain.len() + 1,
        new_rain.drop_last() == old_rain,
        new_rain.last().region_id@ == region,
    ensures
        first_match(new_rain, region_key(region)) == Some(old_rain.len() as int),
        forall|other: Seq<u8>|
            other != region ==> #[trigger] first_match(new_rain, region_key(other)) == first_match(
                old_rain,
                region_key(other),
            ),
        forall|other: Seq<u8>| other != region ==> #[trigger] rain_value(new_rain, other) == rain_value(old_rain, other),
{
    crate::common::lemma_first_match_none(old_rain, region_key(region));
    let n = old_rain.len() as int;
    assert forall|k: int| 0 <= k < n implies new_rain[k] == old_rain[k] by {
        assert(new_rain.drop_last()[k] == new_rain[k]);
    }
    assert(is_first_match(new_rain, region_key(region), n));
    lemma_first_match_is(new_rain, region_key(region), n);
    assert forall|other: Seq<u8>| other != region implies #[trigger] first_match(new_rain, region_key(other))
        == first_match(old_rain, region_key(other)) by {
        match first_match(old_rain, region_key(other)) {
            Some(j) => {
                crate::common::lemma_first_match_some(old_rain, region_key(other));
                assert(is_first_match(new_rain, region_key(other), j));
                lemma_first_match_is(new_rain, region_key(other), j);
                assert(new_rain[j] == old_rain[j]);
            },
            None => {
                crate::common::lemma_first_match_none(old_rain, region_key(other));
                lemma_first_match_none(new_rain, region_key(other));
            },
        }
    }
    assert forall|other: Seq<u8>| other != region implies #[trigger] rain_value(new_rain, other) == rain_value(
        old_rain,
        other,
    ) by {
        assert(first_match(new_rain, region_key(other)) == first_match(old_rain, region_key(other)));
        if let Some(j) = first_match(old_rain, region_key(other)) {
            crate::common::lemma_first_match_some(old_rain, region_key(other));
            assert(new_rain[j] == old_rain[j]);
        }
    }
}

/// A policy pays out at most once: once claimed, a second payout is
/// refused.
pub proof fn lemma_single_payout(before: CropInsurance, after: CropInsurance, policy_id: u64)
    requires
        before.payout_error(policy_id) is None,
        CropInsurance::status_changed(&before, &after, policy_id, PolicyStatus::Claimed),
    ensures
        after.payout_error(policy_id) == Some(Error::PolicyNotActive),
{
}

/// Which way a policy pays: for an active policy of an unpaused contract
/// with a rainfall reading `r` for its region, `trigger_payout` pays
/// exactly when a drought policy sees `r` below its threshold, or a flood
/// policy sees `r` above it; a reading equal to the threshold pays neither.
pub proof fn lemma_payout_condition(c: CropInsurance, policy_id: u64)
    requires
        c.initialized(),
        !c.paused,
        c.policies@.contains_key(policy_id),
        c.policies@[policy_id].status == PolicyStatus::Active,
        c.spec_rainfall(c.policies@[policy_id].region_id@) is Some,
    ensures
        ({
            let p = c.policies@[policy_id];
            let r = c.spec_rainfall(p.region_id@)->0;
            &&& p.trigger_on_drought ==> (c.payout_error(policy_id) is None <==> r < p.rainfall_threshold_mm)
            &&& !p.trigger_on_drought ==> (c.payout_error(policy_id) is None <==> r > p.rainfall_threshold_mm)
            &&& r == p.rainfall_threshold_mm ==> c.payout_error(policy_id) == Some(Error::TriggerConditionNotMet)
            &&& c.payout_error(policy_id) is None || c.payout_error(policy_id) == Some(Error::TriggerConditionNotMet)
        }),
{
}

/// A drought policy and a flood policy with the same threshold are never
/// both triggered by one reading; exactly one is, unless the reading equals
/// the threshold.
pub proof fn lemma_drought_flood_exclusive(threshold: u32, rainfall_mm: u32)
    ensures
        !(triggers(true, threshold, rainfall_mm) && triggers(false, threshold, rainfall_mm)),
        rainfall_mm != threshold ==> (triggers(true, threshold, rainfall_mm) || triggers(false, threshold, rainfall_mm)),
        triggers(false, threshold, rainfall_mm) ==> rainfall_mm > threshold,
        triggers(true, threshold, rainfall_mm) ==> rainfall_mm < threshold,
{
}

} // verus!
