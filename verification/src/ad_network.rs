//! An advertising network: advertisers fund CPM campaigns, the admin
//! registers publishers, impressions are recorded once per user hash and
//! paid out to the publisher when the admin verifies them.
use vstd::prelude::*;
use std::collections::HashMap;
use crate::common::{Address, Text, text_eq, text_copy, fits_i128};

verus! {

broadcast use vstd::std_specs::hash::group_hash_axioms;

#[derive(Clone, Copy, Debug, PartialEq, Eq, Structural)]
pub enum AdNetworkError {
    NotInitialized,
    AlreadyInitialized,
    Unauthorized,
    InvalidParameters,
    CampaignNotFound,
    PublisherNotFound,
    ImpressionNotFound,
    AlreadyVerified,
    InsufficientBudget,
    InvalidImpression,
    DuplicateImpression,
    CampaignNotActive,
    PaymentFailed,
}

#[derive(Clone, Debug)]
pub struct Campaign {
    pub id: u32,
    pub advertiser: Address,
    pub name: Text,
    pub budget: i128,
    pub spent: i128,
    pub cpm_rate: i128,
    pub start_time: u64,
    pub end_time: u64,
    pub active: bool,
}

#[derive(Clone, Debug)]
pub struct Publisher {
    pub id: u32,
    pub address: Address,
    pub domain: Text,
    pub reputation_score: u32,
    pub total_earned: i128,
    pub impressions_served: u64,
}

#[derive(Clone, Debug)]
pub struct Impression {
    pub id: u32,
    pub campaign_id: u32,
    pub publisher_id: u32,
    pub user_hash: Text,
    pub timestamp: u64,
    pub verified: bool,
    pub paid: bool,
    pub amount: i128,
}

/// A user hash already seen, with the impression it was recorded for.
#[derive(Clone, Debug)]
pub struct SeenHash {
    pub user_hash: Text,
    pub impression_id: u32,
}

/// The ad network's storage.
pub struct AdNetworkContract {
    pub admin: Option<Address>,
    pub token: Option<Address>,
    pub campaign_count: u32,
    pub publisher_count: u32,
    pub impression_count: u32,
    pub campaigns: HashMap<u32, Campaign>,
    pub publishers: HashMap<u32, Publisher>,
    pub impressions: HashMap<u32, Impression>,
    pub seen_hashes: Vec<SeenHash>,
    pub publisher_by_address: HashMap<Address, u32>,
}

impl AdNetworkContract {
    /// The token is recorded together with the admin.
    pub open spec fn wf(&self) -> bool {
        self.admin is Some <==> self.token is Some
    }

    /// An impression was already recorded for this user hash.
    pub open spec fn hash_seen(&self, h: Seq<u8>) -> bool {
        exists|i: int| 0 <= i < self.seen_hashes@.len() && (#[trigger] self.seen_hashes@[i]).user_hash@ == h
    }

    /// Empty storage.
    pub fn new() -> (s: Self)
        ensures
            s.wf(),
            s.admin is None,
            s.campaign_count == 0,
            s.publisher_count == 0,
            s.impression_count == 0,
            s.campaigns@ == Map::<u32, Campaign>::empty(),
            s.publishers@ == Map::<u32, Publisher>::empty(),
            s.impressions@ == Map::<u32, Impression>::empty(),
            s.seen_hashes@.len() == 0,
    {
        AdNetworkContract {
            admin: None,
            token: None,
            campaign_count: 0,
            publisher_count: 0,
            impression_count: 0,
            campaigns: HashMap::new(),
            publishers: HashMap::new(),
            impressions: HashMap::new(),
            seen_hashes: Vec::new(),
            publisher_by_address: HashMap::new(),
        }
    }

    /// Record the admin and payment token and zero the counters.
    pub fn initialize(&mut self, admin: Address, token: Address) -> (r: Result<(), AdNetworkError>)
        requires
            old(self).wf(),
        ensures
            final(self).wf(),
            old(self).admin is Some ==> r == Err::<(), AdNetworkError>(AdNetworkError::AlreadyInitialized)
                && *final(self) == *old(self),
            old(self).admin is None ==> r is Ok && *final(self) == (AdNetworkContract {
                admin: Some(admin),
                token: Some(token),
                campaign_count: 0,
                publisher_count: 0,
                impression_count: 0,
                ..*old(self)
            }),
    {
        if self.admin.is_some() {
            return Err(AdNetworkError::AlreadyInitialized);
        }
        self.admin = Some(admin);
        self.token = Some(token);
        self.campaign_count = 0;
        self.publisher_count = 0;
        self.impression_count = 0;
        Ok(())
    }

    /// An advertiser opens a campaign with a positive budget and CPM rate
    /// over `[start_time, end_time]`.  Returns its id.
    pub fn create_campaign(
        &mut self,
        advertiser: Address,
        name: Text,
        budget: i128,
        cpm_rate: i128,
        start_time: u64,
        end_time: u64,
    ) -> (r: Result<u32, AdNetworkError>)
        requires
            budget > 0 && cpm_rate > 0 && start_time < end_time ==> old(self).campaign_count < u32::MAX,
        ensures
            budget <= 0 || cpm_rate <= 0 || start_time >= end_time ==> r == Err::<u32, AdNetworkError>(
                AdNetworkError::InvalidParameters,
            ) && *final(self) == *old(self),
            budget > 0 && cpm_rate > 0 && start_time < end_time ==> {
                let id = (old(self).campaign_count + 1) as u32;
                &&& r == Ok::<u32, AdNetworkError>(id)
                &&& final(self).campaign_count == id
                &&& final(self).campaigns@ == old(self).campaigns@.insert(
                    id,
                    Campaign {
                        id,
                        advertiser,
                        name,
                        budget,
                        spent: 0,
                        cpm_rate,
                        start_time,
                        end_time,
                        active: true,
                    },
                )
                &&& final(self).publishers@ == old(self).publishers@
                &&& final(self).impressions@ == old(self).impressions@
                &&& final(self).seen_hashes@ == old(self).seen_hashes@
                &&& final(self).publisher_by_address@ == old(self).publisher_by_address@
                &&& final(self).publisher_count == old(self).publisher_count
                &&& final(self).impression_count == old(self).impression_count
                &&& final(self).admin == old(self).admin
                &&& final(self).token == old(self).token
            },
    {
        if budget <= 0 || cpm_rate <= 0 || start_time >= end_time {
            return Err(AdNetworkError::InvalidParameters);
        }
        let id = self.campaign_count + 1;
        self.campaigns.insert(
            id,
            Campaign { id, advertiser, name, budget, spent: 0, cpm_rate, start_time, end_time, active: true },
        );
        self.campaign_count = id;
        Ok(id)
    }

    /// Why `register_publisher` fails, if it does.
    pub open spec fn admin_error(&self, admin: Address) -> Option<AdNetworkError> {
        match self.admin {
            None => Some(AdNetworkError::NotInitialized),
            Some(a) => if a != admin {
                Some(AdNetworkError::Unauthorized)
            } else {
                None
            },
        }
    }

    /// The admin registers a publisher with reputation 100.  Returns its id.
    pub fn register_publisher(&mut self, admin: Address, publisher_address: Address, domain: Text) -> (r: Result<
        u32,
        AdNetworkError,
    >)
        requires
            old(self).admin_error(admin) is None ==> old(self).publisher_count < u32::MAX,
        ensures
            match old(self).admin_error(admin) {
                Some(e) => r == Err::<u32, AdNetworkError>(e) && *final(self) == *old(self),
                None => {
                    let id = (old(self).publisher_count + 1) as u32;
                    &&& r == Ok::<u32, AdNetworkError>(id)
                    &&& final(self).publisher_count == id
                    &&& final(self).publishers@ == old(self).publishers@.insert(
                        id,
                        Publisher {
                            id,
                            address: publisher_address,
                            domain,
                            reputation_score: 100,
                            total_earned: 0,
                            impressions_served: 0,
                        },
                    )
                    &&& final(self).publisher_by_address@ == old(self).publisher_by_address@.insert(
                        publisher_address,
                        id,
                    )
                    &&& final(self).campaigns@ == old(self).campaigns@
                    &&& final(self).impressions@ == old(self).impressions@
                    &&& final(self).seen_hashes@ == old(self).seen_hashes@
                    &&& final(self).campaign_count == old(self).campaign_count
                    &&& final(self).impression_count == old(self).impression_count
                    &&& final(self).admin == old(self).admin
                    &&& final(self).token == old(self).token
                },
            },
    {
        match self.admin {
            None => return Err(AdNetworkError::NotInitialized),
            Some(a) => {
                if a != admin {
                    return Err(AdNetworkError::Unauthorized);
                }
            },
        }
        let id = self.publisher_count + 1;
        self.publishers.insert(
            id,
            Publisher {
                id,
                address: publisher_address,
                domain,
                reputation_score: 100,
                total_earned: 0,
                impressions_served: 0,
            },
        );
        self.publisher_count = id;
        self.publisher_by_address.insert(publisher_address, id);
        Ok(id)
    }

    fn find_hash(&self, h: &Text) -> (r: bool)
        ensures
            r == self.hash_seen(h@),
    {
        let mut i: usize = 0;
        while i < self.seen_hashes.len()
            invariant
                0 <= i <= self.seen_hashes@.len(),
                forall|k: int| 0 <= k < i ==> (#[trigger] self.seen_hashes@[k]).user_hash@ != h@,
            decreases self.seen_hashes@.len() - i,
        {
            if text_eq(&self.seen_hashes[i].user_hash, h) {
                return true;
            }
            i = i + 1;
        }
        false
    }

    /// Why `record_impression` fails, if it does.
    pub open spec fn impression_error(&self, now: u64, campaign_id: u32, publisher_id: u32, user_hash: Seq<u8>) -> Option<
        AdNetworkError,
    > {
        if !self.campaigns@.contains_key(campaign_id) {
            Some(AdNetworkError::CampaignNotFound)
        } else if !self.campaigns@[campaign_id].active {
            Some(AdNetworkError::CampaignNotActive)
        } else if now < self.campaigns@[campaign_id].start_time || now > self.campaigns@[campaign_id].end_time {
            Some(AdNetworkError::CampaignNotActive)
        } else if self.hash_seen(user_hash) {
            Some(AdNetworkError::DuplicateImpression)
        } else if !self.publishers@.contains_key(publisher_id) {
            Some(AdNetworkError::PublisherNotFound)
        } else {
            None
        }
    }

    /// An impression of an active campaign, within its time window, by a
    /// registered publisher, for a user hash never seen before.  Returns
    /// the impression id; it is unverified and unpaid.
    pub fn record_impression(&mut self, now: u64, campaign_id: u32, publisher_id: u32, user_hash: Text) -> (r: Result<
        u32,
        AdNetworkError,
    >)
        requires
            old(self).impression_error(now, campaign_id, publisher_id, user_hash@) is None ==> old(
                self,
            ).impression_count < u32::MAX,
        ensures
            match old(self).impression_error(now, campaign_id, publisher_id, user_hash@) {
                Some(e) => r == Err::<u32, AdNetworkError>(e) && *final(self) == *old(self),
                None => {
                    let id = (old(self).impression_count + 1) as u32;
                    let imp = final(self).impressions@[id];
                    &&& r == Ok::<u32, AdNetworkError>(id)
                    &&& final(self).impression_count == id
                    &&& final(self).impressions@ == old(self).impressions@.insert(id, imp)
                    &&& imp.id == id && imp.campaign_id == campaign_id && imp.publisher_id == publisher_id
                    &&& imp.user_hash@ == user_hash@ && imp.timestamp == now
                    &&& !imp.verified && !imp.paid && imp.amount == 0
                    &&& final(self).seen_hashes@.len() == old(self).seen_hashes@.len() + 1
                    &&& final(self).seen_hashes@.drop_last() == old(self).seen_hashes@
                    &&& final(self).seen_hashes@.last().user_hash@ == user_hash@
                    &&& final(self).seen_hashes@.last().impression_id == id
                    &&& final(self).campaigns@ == old(self).campaigns@
                    &&& final(self).publishers@ == old(self).publishers@
                    &&& final(self).publisher_by_address@ == old(self).publisher_by_address@
                    &&& final(self).campaign_count == old(self).campaign_count
                    &&& final(self).publisher_count == old(self).publisher_count
                    &&& final(self).admin == old(self).admin
                    &&& final(self).token == old(self).token
                },
            },
    {
        match self.campaigns.get(&campaign_id) {
            None => return Err(AdNetworkError::CampaignNotFound),
            Some(c) => {
                if !c.active {
                    return Err(AdNetworkError::CampaignNotActive);
                }
                if now < c.start_time || now > c.end_time {
                    return Err(AdNetworkError::CampaignNotActive);
                }
            },
        }
        if self.find_hash(&user_hash) {
            return Err(AdNetworkError::DuplicateImpression);
        }
        if !self.publishers.contains_key(&publisher_id) {
            return Err(AdNetworkError::PublisherNotFound);
        }
        let id = self.impression_count + 1;
        let stored_hash = text_copy(&user_hash);
        self.impressions.insert(
            id,
            Impression {
                id,
                campaign_id,
                publisher_id,
                user_hash: stored_hash,
                timestamp: now,
                verified: false,
                paid: false,
                amount: 0,
            },
        );
        self.impression_count = id;
        self.seen_hashes.push(SeenHash { user_hash, impression_id: id });
        proof {
            assert(self.seen_hashes@.drop_last() =~= old(self).seen_hashes@);
        }
        Ok(id)
    }

    /// Why `verify_impression` fails, if it does.
    pub open spec fn verify_error(&self, admin: Address, impression_id: u32) -> Option<AdNetworkError> {
        if self.admin_error(admin) is Some {
            self.admin_error(admin)
        } else if !self.impressions@.contains_key(impression_id) {
            Some(AdNetworkError::ImpressionNotFound)
        } else if self.impressions@[impression_id].verified {
            Some(AdNetworkError::AlreadyVerified)
        } else if !self.campaigns@.contains_key(self.impressions@[impression_id].campaign_id) {
            Some(AdNetworkError::CampaignNotFound)
        } else if !self.publishers@.contains_key(self.impressions@[impression_id].publisher_id) {
            Some(AdNetworkError::PublisherNotFound)
        } else {
            None
        }
    }

    /// The arithmetic of a verification stays in range.
    pub open spec fn verify_fits(&self, impression_id: u32) -> bool {
        let imp = self.impressions@[impression_id];
        let c = self.campaigns@[imp.campaign_id];
        let p = self.publishers@[imp.publisher_id];
        &&& fits_i128(c.spent + c.cpm_rate)
        &&& fits_i128(p.total_earned + c.cpm_rate)
        &&& p.impressions_served < u64::MAX
    }

    /// The admin verifies an impression: it is marked verified and priced at
    /// the campaign's CPM rate, which is added to the campaign's spend and
    /// to the publisher's earnings; the publisher's served count grows by
    /// one.
    pub fn verify_impression(&mut self, admin: Address, impression_id: u32) -> (r: Result<(), AdNetworkError>)
        requires
            old(self).wf(),
            old(self).verify_error(admin, impression_id) is None ==> old(self).verify_fits(impression_id),
        ensures
            final(self).wf(),
            match old(self).verify_error(admin, impression_id) {
                Some(e) => r == Err::<(), AdNetworkError>(e) && *final(self) == *old(self),
                None => {
                    let imp = old(self).impressions@[impression_id];
                    let c = old(self).campaigns@[imp.campaign_id];
                    let p = old(self).publishers@[imp.publisher_id];
                    let ni = final(self).impressions@[impression_id];
                    let nc = final(self).campaigns@[c.id];
                    let np = final(self).publishers@[p.id];
                    &&& r is Ok
                    &&& final(self).impressions@ == old(self).impressions@.insert(impression_id, ni)
                    &&& ni.verified && ni.amount == c.cpm_rate
                    &&& ni.id == imp.id && ni.campaign_id == imp.campaign_id && ni.publisher_id == imp.publisher_id
                    &&& ni.user_hash == imp.user_hash && ni.timestamp == imp.timestamp && ni.paid == imp.paid
                    &&& final(self).campaigns@ == old(self).campaigns@.insert(c.id, nc)
                    &&& nc.spent == c.spent + c.cpm_rate
                    &&& nc.id == c.id && nc.advertiser == c.advertiser && nc.name@ == c.name@ && nc.budget == c.budget
                    &&& nc.cpm_rate == c.cpm_rate && nc.start_time == c.start_time && nc.end_time == c.end_time
                    &&& nc.active == c.active
                    &&& final(self).publishers@ == old(self).publishers@.insert(p.id, np)
                    &&& np.total_earned == p.total_earned + c.cpm_rate
                    &&& np.impressions_served == p.impressions_served + 1
                    &&& np.id == p.id && np.address == p.address && np.domain@ == p.domain@
                    &&& np.reputation_score == p.reputation_score
                    &&& final(self).seen_hashes@ == old(self).seen_hashes@
                    &&& final(self).publisher_by_address@ == old(self).publisher_by_address@
                    &&& final(self).campaign_count == old(self).campaign_count
                    &&& final(self).publisher_count == old(self).publisher_count
                    &&& final(self).impression_count == old(self).impression_count
                    &&& final(self).admin == old(self).admin
                    &&& final(self).token == old(self).token
                },
            },
    {
        match self.admin {
            None => return Err(AdNetworkError::NotInitialized),
            Some(a) => {
                if a != admin {
                    return Err(AdNetworkError::Unauthorized);
                }
            },
        }
        let (campaign_id, publisher_id) = match self.impressions.get(&impression_id) {
            None => return Err(AdNetworkError::ImpressionNotFound),
            Some(imp) => {
                if imp.verified {
                    return Err(AdNetworkError::AlreadyVerified);
                }
                (imp.campaign_id, imp.publisher_id)
            },
        };
        let (cid, amount) = match self.campaigns.get(&campaign_id) {
            None => return Err(AdNetworkError::CampaignNotFound),
            Some(c) => (c.id, c.cpm_rate),
        };
        if !self.publishers.contains_key(&publisher_id) {
            return Err(AdNetworkError::PublisherNotFound);
        }
        let imp = self.impressions.remove(&impression_id).unwrap();
        self.impressions.insert(
            impression_id,
            Impression {
                id: imp.id,
                campaign_id: imp.campaign_id,
                publisher_id: imp.publisher_id,
                user_hash: imp.user_hash,
                timestamp: imp.timestamp,
                verified: true,
                paid: imp.paid,
                amount,
            },
        );
        let nc = match self.campaigns.get(&campaign_id) {
            None => return Err(AdNetworkError::CampaignNotFound),
            Some(c) => Campaign {
                id: c.id,
                advertiser: c.advertiser,
                name: text_copy(&c.name),
                budget: c.budget,
                spent: c.spent + amount,
                cpm_rate: c.cpm_rate,
                start_time: c.start_time,
                end_time: c.end_time,
                active: c.active,
            },
        };
        self.campaigns.insert(cid, nc);
        let np = match self.publishers.get(&publisher_id) {
            None => return Err(AdNetworkError::PublisherNotFound),
            Some(p) => Publisher {
                id: p.id,
                address: p.address,
                domain: text_copy(&p.domain),
                reputation_score: p.reputation_score,
                total_earned: p.total_earned + amount,
                impressions_served: p.impressions_served + 1,
            },
        };
        let pid = np.id;
        self.publishers.insert(pid, np);
        proof {
            assert(self.impressions@ =~= old(self).impressions@.insert(impression_id, self.impressions@[impression_id]));
        }
        Ok(())
    }

    pub fn get_campaign(&self, campaign_id: u32) -> (r: Result<&Campaign, AdNetworkError>)
        ensures
            self.campaigns@.contains_key(campaign_id) ==> r == Ok::<&Campaign, AdNetworkError>(
                &self.campaigns@[campaign_id],
            ),
            !self.campaigns@.contains_key(campaign_id) ==> r == Err::<&Campaign, AdNetworkError>(
                AdNetworkError::CampaignNotFound,
            ),
    {
        match self.campaigns.get(&campaign_id) {
            Some(c) => Ok(c),
            None => Err(AdNetworkError::CampaignNotFound),
        }
    }

    pub fn get_publisher(&self, publisher_id: u32) -> (r: Result<&Publisher, AdNetworkError>)
        ensures
            self.publishers@.contains_key(publisher_id) ==> r == Ok::<&Publisher, AdNetworkError>(
                &self.publishers@[publisher_id],
            ),
            !self.publishers@.contains_key(publisher_id) ==> r == Err::<&Publisher, AdNetworkError>(
                AdNetworkError::PublisherNotFound,
            ),
    {
        match self.publishers.get(&publisher_id) {
            Some(p) => Ok(p),
            None => Err(AdNetworkError::PublisherNotFound),
        }
    }

    pub fn get_impression(&self, impression_id: u32) -> (r: Result<&Impression, AdNetworkError>)
        ensures
            self.impressions@.contains_key(impression_id) ==> r == Ok::<&Impression, AdNetworkError>(
                &self.impressions@[impression_id],
            ),
            !self.impressions@.contains_key(impression_id) ==> r == Err::<&Impression, AdNetworkError>(
                AdNetworkError::ImpressionNotFound,
            ),
    {
        match self.impressions.get(&impression_id) {
            Some(i) => Ok(i),
            None => Err(AdNetworkError::ImpressionNotFound),
        }
    }
}

/// A user hash is counted once: after an impression is recorded for it, a
/// second one with the same hash is refused as a duplicate (when the
/// campaign still accepts impressions).
pub proof fn lemma_duplicate_hash_refused(
    before: AdNetworkContract,
    after: AdNetworkContract,
    user_hash: Seq<u8>,
    now: u64,
    campaign_id: u32,
    publisher_id: u32,
)
    requires
        after.seen_hashes@.len() == before.seen_hashes@.len() + 1,
        after.seen_hashes@.last().user_hash@ == user_hash,
        after.campaigns@.contains_key(campaign_id),
        after.campaigns@[campaign_id].active,
        after.campaigns@[campaign_id].start_time <= now <= after.campaigns@[campaign_id].end_time,
    ensures
        after.impression_error(now, campaign_id, publisher_id, user_hash) == Some(
            AdNetworkError::DuplicateImpression,
        ),
{
    let i = after.seen_hashes@.len() - 1;
    assert(after.seen_hashes@[i] == after.seen_hashes@.last());
}

} // verus!
