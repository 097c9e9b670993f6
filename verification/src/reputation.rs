//! Reputation scores: activity reported by weighted reporters (replay
//! protected and rate limited per epoch, decaying over time) combined with
//! expiring credentials from trusted issuers.
use vstd::prelude::*;
use std::collections::HashMap;
use crate::common::{Address, Text, first_match, is_first_match, lemma_first_match_is, lemma_first_match_none,
    written, min_int, clamp_int, sat_i64, tdiv_signed};

verus! {

broadcast use vstd::std_specs::hash::group_hash_axioms;

pub const BPS: i64 = 10_000;
pub const MAX_ACTIVITY_SCORE: i64 = 1_000_000;
pub const MAX_CREDENTIAL_SCORE: i64 = 500_000;
pub const MAX_CREDENTIALS: usize = 16;
pub const MAX_BATCH: usize = 20;
pub const MAX_DECAY_EPOCHS: u64 = 128;
/// Five years.
pub const MAX_CREDENTIAL_LIFETIME: u64 = 157_680_000;
/// Longest credential kind, in bytes.
pub const MAX_KIND_BYTES: usize = 64;

#[derive(Clone, Copy, Debug, PartialEq, Eq, Structural)]
pub enum Error {
    NotInitialized,
    AlreadyInitialized,
    Unauthorized,
    InvalidConfig,
    Paused,
    AlreadyRegistered,
    SubjectNotFound,
    ReporterNotFound,
    IssuerNotFound,
    InvalidPoints,
    EventAlreadyProcessed,
    RateLimitExceeded,
    CredentialAlreadyActive,
    CredentialNotFound,
    InvalidCredential,
    CredentialLimitExceeded,
    BatchLimitExceeded,
}

#[derive(Clone, Copy, Debug, PartialEq, Eq, Structural)]
pub struct ReporterConfig {
    pub active: bool,
    pub weight_bps: u32,
    pub max_points_per_event: i64,
    pub max_points_per_epoch: i64,
}

#[derive(Clone, Copy, Debug, PartialEq, Eq, Structural)]
pub struct IssuerConfig {
    pub active: bool,
    pub max_credential_weight: i64,
}

#[derive(Clone, Debug)]
pub struct Credential {
    pub issuer: Address,
    pub kind: Text,
    pub weight: i64,
    pub issued_at: u64,
    pub expires_at: u64,
    pub revoked: bool,
}

#[derive(Clone, Copy, Debug, PartialEq, Eq, Structural)]
pub struct ScoreMatrix {
    pub activity_score: i64,
    pub credential_score: i64,
    pub active_credentials: u32,
    pub confidence_bps: u32,
    pub final_score: i64,
}

/// A registered subject: its decaying activity score, event counts and the
/// issuers that ever credentialed it.
#[derive(Clone, Debug)]
pub struct SubjectRecord {
    pub activity_score: i64,
    pub last_decay_at: u64,
    pub registered_at: u64,
    pub positive_events: u64,
    pub negative_events: u64,
    pub issuers: Vec<Address>,
}

/// An activity report already counted.
#[derive(Clone, Copy, Debug)]
pub struct EventMark {
    pub reporter: Address,
    pub event_id: [u8; 32],
}

/// Points a reporter has spent on a subject within one epoch.
#[derive(Clone, Copy, Debug, PartialEq, Eq, Structural)]
pub struct RateBucket {
    pub reporter: Address,
    pub subject: Address,
    pub epoch: u64,
    pub used: i64,
}

/// The reputation contract's storage.  A credential is stored under
/// `credential_key(subject, issuer)`; a rate bucket is read at its first
/// match.
pub struct ReputationContract {
    pub admin: Option<Address>,
    pub paused: bool,
    pub epoch_seconds: u64,
    pub decay_bps: u32,
    pub subjects: HashMap<Address, SubjectRecord>,
    pub reporters: HashMap<Address, ReporterConfig>,
    pub issuers: HashMap<Address, IssuerConfig>,
    pub credentials: HashMap<u128, Credential>,
    pub events: Vec<EventMark>,
    pub buckets: Vec<RateBucket>,
}

pub open spec fn credential_key(subject: Address, issuer: Address) -> u128 {
    (subject as int * 0x1_0000_0000_0000_0000 + issuer as int) as u128
}

fn credential_key_of(subject: Address, issuer: Address) -> (k: u128)
    ensures
        k == credential_key(subject, issuer),
{
    subject as u128 * 0x1_0000_0000_0000_0000 + issuer as u128
}

pub open spec fn bucket_key(reporter: Address, subject: Address, epoch: u64) -> spec_fn(RateBucket) -> bool {
    |b: RateBucket| b.reporter == reporter && b.subject == subject && b.epoch == epoch
}

/// `|points|`, for `points` other than `i64::MIN`.
pub open spec fn magnitude(points: i64) -> int {
    if points < 0 {
        -points
    } else {
        points as int
    }
}

/// The activity score after `n` epochs of decay, each keeping
/// `retain / 10 000` of it (truncated).
pub open spec fn decay_steps(score: int, retain: int, n: nat) -> int
    decreases n,
{
    if n == 0 {
        score
    } else {
        decay_steps((score * retain) / 10_000, retain, (n - 1) as nat)
    }
}

/// Decay keeps a score within `[0, score]`.
pub proof fn lemma_decay_bounds(score: int, retain: int, n: nat)
    requires
        0 <= score,
        0 <= retain <= 10_000,
    ensures
        0 <= decay_steps(score, retain, n) <= score,
    decreases n,
{
    if n > 0 {
        let next = (score * retain) / 10_000;
        assert(0 <= score * retain <= score * 10_000) by (nonlinear_arith)
            requires
                0 <= score,
                0 <= retain <= 10_000,
        ;
        assert(0 <= next <= score) by (nonlinear_arith)
            requires
                next == (score * retain) / 10_000,
                0 <= score * retain <= score * 10_000,
        ;
        lemma_decay_bounds(next, retain, (n - 1) as nat);
    }
}

/// A score that reached zero stays zero.
pub proof fn lemma_decay_zero(retain: int, n: nat)
    ensures
        decay_steps(0, retain, n) == 0,
    decreases n,
{
    if n > 0 {
        lemma_decay_zero(retain, (n - 1) as nat);
    }
}

/// `(score, last_decay_at)` of a record brought forward to `now`.
pub open spec fn decayed(score: i64, last: u64, now: u64, epoch_seconds: u64, decay_bps: u32) -> (i64, u64) {
    let elapsed = if now >= last {
        now - last
    } else {
        0
    };
    let epochs = elapsed / (epoch_seconds as int);
    if epochs == 0 {
        (score, last)
    } else if epochs >= MAX_DECAY_EPOCHS {
        (0, now)
    } else {
        (
            decay_steps(score as int, 10_000 - decay_bps, epochs as nat) as i64,
            (last + epochs * epoch_seconds) as u64,
        )
    }
}

/// Confidence in a score by the number of live credentials.
pub open spec fn confidence(n: int) -> u32 {
    if n == 0 {
        2_500
    } else if n == 1 {
        6_000
    } else if n == 2 {
        8_000
    } else {
        10_000
    }
}

impl ReputationContract {
    pub open spec fn initialized(&self) -> bool {
        self.admin is Some
    }

    /// The decay policy is valid once set, scores stay in range, a subject
    /// holds at most 16 issuers and credentials have positive bounded
    /// weight.  Nothing is registered before initialization.
    pub open spec fn wf(&self) -> bool {
        &&& self.initialized() ==> self.epoch_seconds > 0 && 1 <= self.decay_bps <= 10_000
        &&& !self.initialized() ==> self.subjects@.dom().is_empty()
        &&& forall|a: Address| #[trigger] self.subjects@.contains_key(a) ==> {
            &&& 0 <= self.subjects@[a].activity_score <= MAX_ACTIVITY_SCORE
            &&& self.subjects@[a].issuers@.len() <= MAX_CREDENTIALS
        }
        &&& forall|k: u128| #[trigger] self.credentials@.contains_key(k) ==> 0 < self.credentials@[k].weight
            <= MAX_CREDENTIAL_SCORE
        &&& forall|a: Address| #[trigger] self.issuers@.contains_key(a) ==> 0 < self.issuers@[a].max_credential_weight
            <= MAX_CREDENTIAL_SCORE
    }

    /// The report of `reporter` with id `event_id` was already counted.
    pub open spec fn event_seen(&self, reporter: Address, event_id: Seq<u8>) -> bool {
        exists|i: int|
            0 <= i < self.events@.len() && (#[trigger] self.events@[i]).reporter == reporter
                && self.events@[i].event_id@ == event_id
    }

    pub open spec fn bucket_at(&self, reporter: Address, subject: Address, epoch: u64) -> Option<int> {
        first_match(self.buckets@, bucket_key(reporter, subject, epoch))
    }

    /// Points already spent in the bucket, 0 for a new one.
    pub open spec fn used_in(&self, reporter: Address, subject: Address, epoch: u64) -> i64 {
        match self.bucket_at(reporter, subject, epoch) {
            Some(i) => self.buckets@[i].used,
            None => 0,
        }
    }

    /// Storage before `initialize`.
    pub fn new() -> (s: Self)
        ensures
            s.wf(),
            !s.initialized(),
            s.subjects@ == Map::<Address, SubjectRecord>::empty(),
    {
        ReputationContract {
            admin: None,
            paused: false,
            epoch_seconds: 0,
            decay_bps: 0,
            subjects: HashMap::new(),
            reporters: HashMap::new(),
            issuers: HashMap::new(),
            credentials: HashMap::new(),
            events: Vec::new(),
            buckets: Vec::new(),
        }
    }

    /// Set the admin and the decay policy: every `epoch_seconds` an
    /// activity score loses `decay_bps` basis points (1 to 10 000).
    pub fn initialize(&mut self, admin: Address, epoch_seconds: u64, decay_bps: u32) -> (r: Result<(), Error>)
        requires
            old(self).wf(),
        ensures
            final(self).wf(),
            old(self).initialized() ==> r == Err::<(), Error>(Error::AlreadyInitialized) && *final(self) == *old(self),
            !old(self).initialized() && (epoch_seconds == 0 || decay_bps == 0 || decay_bps > 10_000) ==> r == Err::<
                (),
                Error,
            >(Error::InvalidConfig) && *final(self) == *old(self),
            !old(self).initialized() && epoch_seconds > 0 && 1 <= decay_bps <= 10_000 ==> {
                &&& r is Ok
                &&& final(self).admin == Some(admin)
                &&& final(self).epoch_seconds == epoch_seconds
                &&& final(self).decay_bps == decay_bps
                &&& !final(self).paused
                &&& final(self).subjects@ == old(self).subjects@
                &&& final(self).reporters@ == old(self).reporters@
                &&& final(self).issuers@ == old(self).issuers@
                &&& final(self).credentials@ == old(self).credentials@
                &&& final(self).events@ == old(self).events@
                &&& final(self).buckets@ == old(self).buckets@
            },
    {
        if self.admin.is_some() {
            return Err(Error::AlreadyInitialized);
        }
        if epoch_seconds == 0 || decay_bps == 0 || decay_bps > 10_000 {
            return Err(Error::InvalidConfig);
        }
        self.admin = Some(admin);
        self.epoch_seconds = epoch_seconds;
        self.decay_bps = decay_bps;
        self.paused = false;
        Ok(())
    }

    /// The admin pauses or resumes writes.
    pub fn set_paused(&mut self, paused: bool) -> (r: Result<(), Error>)
        requires
            old(self).wf(),
        ensures
            final(self).wf(),
            !old(self).initialized() ==> r == Err::<(), Error>(Error::NotInitialized) && *final(self) == *old(self),
            old(self).initialized() ==> r is Ok && *final(self) == (ReputationContract { paused, ..*old(self) }),
    {
        if self.admin.is_none() {
            return Err(Error::NotInitialized);
        }
        self.paused = paused;
        Ok(())
    }

    /// A reporter configuration is usable: a weight of 1 to 10 000 bps,
    /// a positive per-event cap and a per-epoch cap at least as large.
    pub open spec fn reporter_config_valid(c: ReporterConfig) -> bool {
        &&& 0 < c.weight_bps <= 10_000
        &&& c.max_points_per_event > 0
        &&& c.max_points_per_epoch >= c.max_points_per_event
    }

    /// The admin sets a reporter's configuration.
    pub fn set_reporter(&mut self, reporter: Address, config: ReporterConfig) -> (r: Result<(), Error>)
        requires
            old(self).wf(),
        ensures
            final(self).wf(),
            !old(self).initialized() ==> r == Err::<(), Error>(Error::NotInitialized) && *final(self) == *old(self),
            old(self).initialized() && !Self::reporter_config_valid(config) ==> r == Err::<(), Error>(
                Error::InvalidConfig,
            ) && *final(self) == *old(self),
            old(self).initialized() && Self::reporter_config_valid(config) ==> {
                &&& r is Ok
                &&& final(self).reporters@ == old(self).reporters@.insert(reporter, config)
                &&& final(self).subjects@ == old(self).subjects@
                &&& final(self).issuers@ == old(self).issuers@
                &&& final(self).credentials@ == old(self).credentials@
                &&& final(self).events@ == old(self).events@
                &&& final(self).buckets@ == old(self).buckets@
                &&& final(self).admin == old(self).admin
                &&& final(self).paused == old(self).paused
                &&& final(self).epoch_seconds == old(self).epoch_seconds
                &&& final(self).decay_bps == old(self).decay_bps
            },
    {
        if self.admin.is_none() {
            return Err(Error::NotInitialized);
        }
        if config.weight_bps == 0 || config.weight_bps > 10_000 || config.max_points_per_event <= 0
            || config.max_points_per_epoch < config.max_points_per_event {
            return Err(Error::InvalidConfig);
        }
        self.reporters.insert(reporter, config);
        Ok(())
    }

    /// The admin sets an issuer's configuration; its weight cap must lie in
    /// `1..=MAX_CREDENTIAL_SCORE`.
    pub fn set_issuer(&mut self, issuer: Address, config: IssuerConfig) -> (r: Result<(), Error>)
        requires
            old(self).wf(),
        ensures
            final(self).wf(),
            !old(self).initialized() ==> r == Err::<(), Error>(Error::NotInitialized) && *final(self) == *old(self),
            old(self).initialized() && !(0 < config.max_credential_weight <= MAX_CREDENTIAL_SCORE) ==> r == Err::<
                (),
                Error,
            >(Error::InvalidConfig) && *final(self) == *old(self),
            old(self).initialized() && 0 < config.max_credential_weight <= MAX_CREDENTIAL_SCORE ==> {
                &&& r is Ok
                &&& final(self).issuers@ == old(self).issuers@.insert(issuer, config)
                &&& final(self).subjects@ == old(self).subjects@
                &&& final(self).reporters@ == old(self).reporters@
                &&& final(self).credentials@ == old(self).credentials@
                &&& final(self).events@ == old(self).events@
                &&& final(self).buckets@ == old(self).buckets@
                &&& final(self).admin == old(self).admin
                &&& final(self).paused == old(self).paused
                &&& final(self).epoch_seconds == old(self).epoch_seconds
                &&& final(self).decay_bps == old(self).decay_bps
            },
    {
        if self.admin.is_none() {
            return Err(Error::NotInitialized);
        }
        if config.max_credential_weight <= 0 || config.max_credential_weight > MAX_CREDENTIAL_SCORE {
            return Err(Error::InvalidConfig);
        }
        self.issuers.insert(issuer, config);
        Ok(())
    }

    /// Why `register` fails, if it does.
    pub open spec fn register_error(&self, subject: Address) -> Option<Error> {
        if !self.initialized() {
            Some(Error::NotInitialized)
        } else if self.paused {
            Some(Error::Paused)
        } else if self.subjects@.contains_key(subject) {
            Some(Error::AlreadyRegistered)
        } else {
            None
        }
    }

    /// A subject registers itself with a zero score.
    pub fn register(&mut self, now: u64, subject: Address) -> (r: Result<(), Error>)
        requires
            old(self).wf(),
        ensures
            final(self).wf(),
            match old(self).register_error(subject) {
                Some(e) => r == Err::<(), Error>(e) && *final(self) == *old(self),
                None => {
                    let rec = final(self).subjects@[subject];
                    &&& r is Ok
                    &&& final(self).subjects@ == old(self).subjects@.insert(subject, rec)
                    &&& rec.activity_score == 0
                    &&& rec.last_decay_at == now
                    &&& rec.registered_at == now
                    &&& rec.positive_events == 0
                    &&& rec.negative_events == 0
                    &&& rec.issuers@.len() == 0
                    &&& final(self).reporters@ == old(self).reporters@
                    &&& final(self).issuers@ == old(self).issuers@
                    &&& final(self).credentials@ == old(self).credentials@
                    &&& final(self).events@ == old(self).events@
                    &&& final(self).buckets@ == old(self).buckets@
                    &&& final(self).admin == old(self).admin
                    &&& final(self).paused == old(self).paused
                    &&& final(self).epoch_seconds == old(self).epoch_seconds
                    &&& final(self).decay_bps == old(self).decay_bps
                },
            },
    {
        if self.admin.is_none() {
            return Err(Error::NotInitialized);
        }
        if self.paused {
            return Err(Error::Paused);
        }
        if self.subjects.contains_key(&subject) {
            return Err(Error::AlreadyRegistered);
        }
        self.subjects.insert(
            subject,
            SubjectRecord {
                activity_score: 0,
                last_decay_at: now,
                registered_at: now,
                positive_events: 0,
                negative_events: 0,
                issuers: Vec::new(),
            },
        );
        Ok(())
    }

    /// Bring a score forward to `now` under the contract's decay policy.
    fn apply_decay(&self, score: i64, last: u64, now: u64) -> (r: (i64, u64))
        requires
            self.wf(),
            self.initialized(),
            0 <= score <= MAX_ACTIVITY_SCORE,
        ensures
            r == decayed(score, last, now, self.epoch_seconds, self.decay_bps),
            0 <= r.0 <= score,
    {
        let elapsed = if now >= last {
            now - last
        } else {
            0
        };
        let epochs = elapsed / self.epoch_seconds;
        if epochs == 0 {
            return (score, last);
        }
        if epochs >= MAX_DECAY_EPOCHS {
            return (0, now);
        }
        let retain: i64 = 10_000 - self.decay_bps as i64;
        let ghost n = epochs as nat;
        let mut s = score;
        let mut k: u64 = 0;
        proof {
            lemma_decay_bounds(score as int, retain as int, n);
        }
        while k < epochs
            invariant_except_break
                0 <= k <= epochs,
            invariant
                0 <= retain <= 10_000,
                0 <= s <= score <= MAX_ACTIVITY_SCORE,
                decay_steps(s as int, retain as int, (n - k) as nat) == decay_steps(score as int, retain as int, n),
                n == epochs,
            ensures
                s == decay_steps(score as int, retain as int, n),
            decreases epochs - k,
        {
            assert(0 <= s * retain <= s * 10_000) by (nonlinear_arith)
                requires
                    0 <= s,
                    0 <= retain <= 10_000,
            ;
            let next = s * retain / 10_000;
            assert(0 <= next <= s) by (nonlinear_arith)
                requires
                    next == (s * retain) / 10_000,
                    0 <= s * retain <= s * 10_000,
            ;
            s = next;
            k = k + 1;
            if s == 0 {
                proof {
                    lemma_decay_zero(retain as int, (n - k) as nat);
                }
                break;
            }
        }
        proof {
            assert(epochs * self.epoch_seconds <= elapsed) by (nonlinear_arith)
                requires
                    epochs == elapsed / self.epoch_seconds,
                    self.epoch_seconds > 0,
            ;
        }
        (s, last + epochs * self.epoch_seconds)
    }

    fn find_event(&self, reporter: Address, event_id: &[u8; 32]) -> (r: bool)
        ensures
            r == self.event_seen(reporter, event_id@),
    {
        let mut i: usize = 0;
        while i < self.events.len()
            invariant
                0 <= i <= self.events@.len(),
                event_id@.len() == 32,
                forall|k: int|
                    0 <= k < i ==> !((#[trigger] self.events@[k]).reporter == reporter && self.events@[k].event_id@
                        == event_id@),
            decreases self.events@.len() - i,
        {
            let e = &self.events[i];
            if e.reporter == reporter {
                let mut j: usize = 0;
                let mut same = true;
                while j < 32
                    invariant
                        0 <= j <= 32,
                        e.event_id@.len() == 32,
                        event_id@.len() == 32,
                        same == (forall|t: int| 0 <= t < j ==> e.event_id@[t] == event_id@[t]),
                    decreases 32 - j,
                {
                    if e.event_id[j] != event_id[j] {
                        same = false;
                    }
                    j = j + 1;
                }
                if same {
                    proof {
                        assert(e.event_id@ =~= event_id@);
                    }
                    return true;
                }
            }
            i = i + 1;
        }
        false
    }

    fn find_bucket(&self, reporter: Address, subject: Address, epoch: u64) -> (r: Option<usize>)
        ensures
            match r {
                Some(i) => self.bucket_at(reporter, subject, epoch) == Some(i as int) && i < self.buckets@.len(),
                None => self.bucket_at(reporter, subject, epoch) is None,
            },
    {
        let mut i: usize = 0;
        while i < self.buckets.len()
            invariant
                0 <= i <= self.buckets@.len(),
                forall|k: int| 0 <= k < i ==> !bucket_key(reporter, subject, epoch)(self.buckets@[k]),
            decreases self.buckets@.len() - i,
        {
            let b = self.buckets[i];
            if b.reporter == reporter && b.subject == subject && b.epoch == epoch {
                proof {
                    assert(is_first_match(self.buckets@, bucket_key(reporter, subject, epoch), i as int));
                    lemma_first_match_is(self.buckets@, bucket_key(reporter, subject, epoch), i as int);
                }
                return Some(i);
            }
            i = i + 1;
        }
        proof {
            lemma_first_match_none(self.buckets@, bucket_key(reporter, subject, epoch));
        }
        None
    }

    /// Why `record_activity` fails, if it does.
    pub open spec fn activity_error(
        &self,
        now: u64,
        reporter: Address,
        subject: Address,
        event_id: Seq<u8>,
        points: i64,
    ) -> Option<Error> {
        if !self.initialized() {
            Some(Error::NotInitialized)
        } else if self.paused {
            Some(Error::Paused)
        } else if !self.reporters@.contains_key(reporter) || !self.reporters@[reporter].active {
            Some(Error::ReporterNotFound)
        } else {
            let c = self.reporters@[reporter];
            let epoch = (now / self.epoch_seconds) as u64;
            let used = self.used_in(reporter, subject, epoch);
            if points == i64::MIN || points == 0 || magnitude(points) > c.max_points_per_event {
                Some(Error::InvalidPoints)
            } else if self.event_seen(reporter, event_id) {
                Some(Error::EventAlreadyProcessed)
            } else if used + magnitude(points) > i64::MAX || used + magnitude(points) < i64::MIN {
                Some(Error::RateLimitExceeded)
            } else if used + magnitude(points) > c.max_points_per_epoch {
                Some(Error::RateLimitExceeded)
            } else if !self.subjects@.contains_key(subject) {
                Some(Error::SubjectNotFound)
            } else if points * c.weight_bps > i64::MAX || points * c.weight_bps < i64::MIN {
                Some(Error::InvalidPoints)
            } else if tdiv_signed(points * c.weight_bps, 10_000) == 0 {
                Some(Error::InvalidPoints)
            } else {
                None
            }
        }
    }

    /// The subject's activity score after a report of `points`: the
    /// decayed score plus the weighted points, saturated and clamped to
    /// `0..=MAX_ACTIVITY_SCORE`.
    pub open spec fn scored(&self, now: u64, reporter: Address, subject: Address, points: i64) -> i64 {
        let rec = self.subjects@[subject];
        let c = self.reporters@[reporter];
        let d = decayed(rec.activity_score, rec.last_decay_at, now, self.epoch_seconds, self.decay_bps);
        clamp_int(sat_i64(d.0 + tdiv_signed(points * c.weight_bps, 10_000)), 0, MAX_ACTIVITY_SCORE as int) as i64
    }

    /// Everything a successful `record_activity` changes.
    pub open spec fn activity_recorded(
        &self,
        final_state: &Self,
        now: u64,
        reporter: Address,
        subject: Address,
        event_id: [u8; 32],
        points: i64,
    ) -> bool {
        let rec = self.subjects@[subject];
        let d = decayed(rec.activity_score, rec.last_decay_at, now, self.epoch_seconds, self.decay_bps);
        let n = final_state.subjects@[subject];
        let epoch = (now / self.epoch_seconds) as u64;
        &&& final_state.subjects@ == self.subjects@.insert(subject, n)
        &&& n.activity_score == self.scored(now, reporter, subject, points)
        &&& n.last_decay_at == d.1
        &&& n.registered_at == rec.registered_at
        &&& n.issuers == rec.issuers
        &&& points > 0 ==> n.positive_events == (if rec.positive_events == u64::MAX {
            u64::MAX
        } else {
            (rec.positive_events + 1) as u64
        }) && n.negative_events == rec.negative_events
        &&& points < 0 ==> n.negative_events == (if rec.negative_events == u64::MAX {
            u64::MAX
        } else {
            (rec.negative_events + 1) as u64
        }) && n.positive_events == rec.positive_events
        &&& final_state.events@.len() == self.events@.len() + 1
        &&& final_state.events@.drop_last() == self.events@
        &&& final_state.events@.last().reporter == reporter
        &&& final_state.events@.last().event_id@ == event_id@
        &&& final_state.buckets@ == written(
            self.buckets@,
            self.bucket_at(reporter, subject, epoch),
            RateBucket {
                reporter,
                subject,
                epoch,
                used: (self.used_in(reporter, subject, epoch) + magnitude(points)) as i64,
            },
        )
        &&& final_state.reporters@ == self.reporters@
        &&& final_state.issuers@ == self.issuers@
        &&& final_state.credentials@ == self.credentials@
        &&& final_state.admin == self.admin
        &&& final_state.paused == self.paused
        &&& final_state.epoch_seconds == self.epoch_seconds
        &&& final_state.decay_bps == self.decay_bps
    }

    /// A reporter reports `points` (positive or negative) about a subject
    /// under a fresh `event_id`.  The magnitude counts against the
    /// reporter's per-epoch budget for that subject; the subject's score is
    /// decayed to `now`, then moved by the points weighted by the
    /// reporter's `weight_bps`.  Returns the new activity score.
    pub fn record_activity(
        &mut self,
        now: u64,
        reporter: Address,
        subject: Address,
        event_id: [u8; 32],
        points: i64,
    ) -> (r: Result<i64, Error>)
        requires
            old(self).wf(),
        ensures
            final(self).wf(),
            match old(self).activity_error(now, reporter, subject, event_id@, points) {
                Some(e) => r == Err::<i64, Error>(e) && *final(self) == *old(self),
                None => r == Ok::<i64, Error>(old(self).scored(now, reporter, subject, points))
                    && old(self).activity_recorded(&*final(self), now, reporter, subject, event_id, points),
            },
    {
        if self.admin.is_none() {
            return Err(Error::NotInitialized);
        }
        if self.paused {
            return Err(Error::Paused);
        }
        let config = match self.reporters.get(&reporter) {
            Some(c) => *c,
            None => return Err(Error::ReporterNotFound),
        };
        if !config.active {
            return Err(Error::ReporterNotFound);
        }
        if points == i64::MIN {
            return Err(Error::InvalidPoints);
        }
        let magnitude: i64 = if points < 0 {
            -points
        } else {
            points
        };
        if points == 0 || magnitude > config.max_points_per_event {
            return Err(Error::InvalidPoints);
        }
        if self.find_event(reporter, &event_id) {
            return Err(Error::EventAlreadyProcessed);
        }
        let epoch = now / self.epoch_seconds;
        let slot = self.find_bucket(reporter, subject, epoch);
        let used: i64 = match slot {
            Some(i) => self.buckets[i].used,
            None => 0,
        };
        let next_used = match used.checked_add(magnitude) {
            Some(v) => v,
            None => return Err(Error::RateLimitExceeded),
        };
        if next_used > config.max_points_per_epoch {
            return Err(Error::RateLimitExceeded);
        }
        if !self.subjects.contains_key(&subject) {
            return Err(Error::SubjectNotFound);
        }
        let product = match points.checked_mul(config.weight_bps as i64) {
            Some(p) => p,
            None => return Err(Error::InvalidPoints),
        };
        let weighted = product / BPS;
        if weighted == 0 {
            return Err(Error::InvalidPoints);
        }
        let rec = match self.subjects.remove(&subject) {
            Some(rec) => rec,
            None => return Err(Error::SubjectNotFound),
        };
        let (score, last) = self.apply_decay(rec.activity_score, rec.last_decay_at, now);
        let summed = match score.checked_add(weighted) {
            Some(v) => v,
            None => if weighted > 0 {
                i64::MAX
            } else {
                i64::MIN
            },
        };
        let clamped = if summed < 0 {
            0
        } else if summed > MAX_ACTIVITY_SCORE {
            MAX_ACTIVITY_SCORE
        } else {
            summed
        };
        let (positive, negative) = if points > 0 {
            (if rec.positive_events == u64::MAX {
                u64::MAX
            } else {
                rec.positive_events + 1
            }, rec.negative_events)
        } else {
            (rec.positive_events, if rec.negative_events == u64::MAX {
                u64::MAX
            } else {
                rec.negative_events + 1
            })
        };
        self.subjects.insert(
            subject,
            SubjectRecord {
                activity_score: clamped,
                last_decay_at: last,
                registered_at: rec.registered_at,
                positive_events: positive,
                negative_events: negative,
                issuers: rec.issuers,
            },
        );
        self.events.push(EventMark { reporter, event_id });
        let bucket = RateBucket { reporter, subject, epoch, used: next_used };
        match slot {
            Some(i) => self.buckets.set(i, bucket),
            None => self.buckets.push(bucket),
        }
        proof {
            assert(self.events@.drop_last() =~= old(self).events@);
            assert(self.subjects@ =~= old(self).subjects@.insert(subject, self.subjects@[subject]));
        }
        Ok(clamped)
    }

    /// Why `issue_credential` fails, if it does.
    pub open spec fn credential_error(
        &self,
        now: u64,
        issuer: Address,
        subject: Address,
        kind: Seq<u8>,
        weight: i64,
        expires_at: u64,
    ) -> Option<Error> {
        let k = credential_key(subject, issuer);
        if !self.initialized() {
            Some(Error::NotInitialized)
        } else if self.paused {
            Some(Error::Paused)
        } else if !self.issuers@.contains_key(issuer) || !self.issuers@[issuer].active {
            Some(Error::IssuerNotFound)
        } else if kind.len() == 0 || kind.len() > MAX_KIND_BYTES || weight <= 0
            || weight > self.issuers@[issuer].max_credential_weight || expires_at <= now || expires_at - now
            > MAX_CREDENTIAL_LIFETIME {
            Some(Error::InvalidCredential)
        } else if self.credentials@.contains_key(k) && !self.credentials@[k].revoked
            && self.credentials@[k].expires_at > now {
            Some(Error::CredentialAlreadyActive)
        } else if !self.subjects@.contains_key(subject) {
            Some(Error::SubjectNotFound)
        } else if !self.credentials@.contains_key(k) && self.subjects@[subject].issuers@.len() >= MAX_CREDENTIALS {
            Some(Error::CredentialLimitExceeded)
        } else {
            None
        }
    }

    /// An active issuer grants the subject one credential (one per issuer
    /// and subject; a revoked or expired one may be replaced).  A new
    /// issuer is added to the subject's issuer list.
    pub fn issue_credential(
        &mut self,
        now: u64,
        issuer: Address,
        subject: Address,
        kind: Text,
        weight: i64,
        expires_at: u64,
    ) -> (r: Result<(), Error>)
        requires
            old(self).wf(),
        ensures
            final(self).wf(),
            match old(self).credential_error(now, issuer, subject, kind@, weight, expires_at) {
                Some(e) => r == Err::<(), Error>(e) && *final(self) == *old(self),
                None => {
                    let k = credential_key(subject, issuer);
                    let rec = old(self).subjects@[subject];
                    let n = final(self).subjects@[subject];
                    &&& r is Ok
                    &&& final(self).credentials@ == old(self).credentials@.insert(
                        k,
                        Credential { issuer, kind, weight, issued_at: now, expires_at, revoked: false },
                    )
                    &&& old(self).credentials@.contains_key(k) ==> final(self).subjects@ == old(self).subjects@
                    &&& !old(self).credentials@.contains_key(k) ==> {
                        &&& final(self).subjects@ == old(self).subjects@.insert(subject, n)
                        &&& n.issuers@ == rec.issuers@.push(issuer)
                        &&& n.activity_score == rec.activity_score
                        &&& n.last_decay_at == rec.last_decay_at
                        &&& n.registered_at == rec.registered_at
                        &&& n.positive_events == rec.positive_events
                        &&& n.negative_events == rec.negative_events
                    }
                    &&& final(self).reporters@ == old(self).reporters@
                    &&& final(self).issuers@ == old(self).issuers@
                    &&& final(self).events@ == old(self).events@
                    &&& final(self).buckets@ == old(self).buckets@
                    &&& final(self).admin == old(self).admin
                    &&& final(self).paused == old(self).paused
                    &&& final(self).epoch_seconds == old(self).epoch_seconds
                    &&& final(self).decay_bps == old(self).decay_bps
                },
            },
    {
        if self.admin.is_none() {
            return Err(Error::NotInitialized);
        }
        if self.paused {
            return Err(Error::Paused);
        }
        let config = match self.issuers.get(&issuer) {
            Some(c) => *c,
            None => return Err(Error::IssuerNotFound),
        };
        if !config.active {
            return Err(Error::IssuerNotFound);
        }
        if kind.len() == 0 || kind.len() > MAX_KIND_BYTES || weight <= 0 || weight > config.max_credential_weight
            || expires_at <= now || expires_at - now > MAX_CREDENTIAL_LIFETIME {
            return Err(Error::InvalidCredential);
        }
        let k = credential_key_of(subject, issuer);
        let existing = match self.credentials.get(&k) {
            Some(c) => {
                if !c.revoked && c.expires_at > now {
                    return Err(Error::CredentialAlreadyActive);
                }
                true
            },
            None => false,
        };
        if !self.subjects.contains_key(&subject) {
            return Err(Error::SubjectNotFound);
        }
        if !existing {
            let rec = match self.subjects.get(&subject) {
                Some(rec) => rec,
                None => return Err(Error::SubjectNotFound),
            };
            if rec.issuers.len() >= MAX_CREDENTIALS {
                return Err(Error::CredentialLimitExceeded);
            }
            let rec = match self.subjects.remove(&subject) {
                Some(rec) => rec,
                None => return Err(Error::SubjectNotFound),
            };
            let mut issuers = rec.issuers;
            issuers.push(issuer);
            self.subjects.insert(
                subject,
                SubjectRecord {
                    activity_score: rec.activity_score,
                    last_decay_at: rec.last_decay_at,
                    registered_at: rec.registered_at,
                    positive_events: rec.positive_events,
                    negative_events: rec.negative_events,
                    issuers,
                },
            );
            proof {
                assert(self.subjects@ =~= old(self).subjects@.insert(subject, self.subjects@[subject]));
            }
        }
        self.credentials.insert(k, Credential { issuer, kind, weight, issued_at: now, expires_at, revoked: false });
        Ok(())
    }

    /// Why `revoke_credential` fails, if it does.
    pub open spec fn revoke_error(&self, issuer: Address, subject: Address) -> Option<Error> {
        let k = credential_key(subject, issuer);
        if !self.initialized() {
            Some(Error::NotInitialized)
        } else if !self.credentials@.contains_key(k) || self.credentials@[k].revoked {
            Some(Error::CredentialNotFound)
        } else {
            None
        }
    }

    /// The issuer revokes its live credential for the subject (allowed
    /// while paused).
    pub fn revoke_credential(&mut self, issuer: Address, subject: Address) -> (r: Result<(), Error>)
        requires
            old(self).wf(),
        ensures
            final(self).wf(),
            match old(self).revoke_error(issuer, subject) {
                Some(e) => r == Err::<(), Error>(e) && *final(self) == *old(self),
                None => {
                    let k = credential_key(subject, issuer);
                    let c = old(self).credentials@[k];
                    let n = final(self).credentials@[k];
                    &&& r is Ok
                    &&& final(self).credentials@ == old(self).credentials@.insert(k, n)
                    &&& n.revoked
                    &&& n.issuer == c.issuer && n.kind == c.kind && n.weight == c.weight
                    &&& n.issued_at == c.issued_at && n.expires_at == c.expires_at
                    &&& final(self).subjects@ == old(self).subjects@
                    &&& final(self).reporters@ == old(self).reporters@
                    &&& final(self).issuers@ == old(self).issuers@
                    &&& final(self).events@ == old(self).events@
                    &&& final(self).buckets@ == old(self).buckets@
                    &&& final(self).admin == old(self).admin
                    &&& final(self).paused == old(self).paused
                    &&& final(self).epoch_seconds == old(self).epoch_seconds
                    &&& final(self).decay_bps == old(self).decay_bps
                },
            },
    {
        if self.admin.is_none() {
            return Err(Error::NotInitialized);
        }
        let k = credential_key_of(subject, issuer);
        match self.credentials.get(&k) {
            Some(c) => {
                if c.revoked {
                    return Err(Error::CredentialNotFound);
                }
            },
            None => return Err(Error::CredentialNotFound),
        }
        let c = match self.credentials.remove(&k) {
            Some(c) => c,
            None => return Err(Error::CredentialNotFound),
        };
        self.credentials.insert(
            k,
            Credential {
                issuer: c.issuer,
                kind: c.kind,
                weight: c.weight,
                issued_at: c.issued_at,
                expires_at: c.expires_at,
                revoked: true,
            },
        );
        proof {
            assert(self.credentials@ =~= old(self).credentials@.insert(k, self.credentials@[k]));
        }
        Ok(())
    }

    /// The credential of `issuer` counts for `subject` at `now`: the issuer
    /// is still active and the credential neither revoked nor expired.
    pub open spec fn counts(&self, subject: Address, issuer: Address, now: u64) -> bool {
        let k = credential_key(subject, issuer);
        &&& self.issuers@.contains_key(issuer)
        &&& self.credentials@.contains_key(k)
        &&& self.issuers@[issuer].active
        &&& !self.credentials@[k].revoked
        &&& self.credentials@[k].expires_at > now
    }

    /// `(credential score, live credentials)` over a list of issuers: the
    /// weights of the live credentials, capped at `MAX_CREDENTIAL_SCORE`.
    pub open spec fn credential_totals(&self, subject: Address, issuers: Seq<Address>, now: u64) -> (int, int)
        decreases issuers.len(),
    {
        if issuers.len() == 0 {
            (0, 0)
        } else {
            let (cs, n) = self.credential_totals(subject, issuers.drop_last(), now);
            let i = issuers.last();
            if self.counts(subject, i, now) {
                (
                    min_int(cs + self.credentials@[credential_key(subject, i)].weight, MAX_CREDENTIAL_SCORE as int),
                    n + 1,
                )
            } else {
                (cs, n)
            }
        }
    }

    /// The score matrix of a registered subject at `now`.
    pub open spec fn matrix(&self, subject: Address, now: u64) -> ScoreMatrix {
        let rec = self.subjects@[subject];
        let d = decayed(rec.activity_score, rec.last_decay_at, now, self.epoch_seconds, self.decay_bps);
        let (cs, n) = self.credential_totals(subject, rec.issuers@, now);
        let conf = confidence(n);
        ScoreMatrix {
            activity_score: d.0,
            credential_score: cs as i64,
            active_credentials: n as u32,
            confidence_bps: conf,
            final_score: ((d.0 + cs) * conf / 10_000) as i64,
        }
    }

    fn compute_matrix(&self, subject: Address, now: u64) -> (m: ScoreMatrix)
        requires
            self.wf(),
            self.subjects@.contains_key(subject),
        ensures
            m == self.matrix(subject, now),
    {
        let rec = self.subjects.get(&subject).unwrap();
        let (score, _last) = self.apply_decay(rec.activity_score, rec.last_decay_at, now);
        let mut credential_score: i64 = 0;
        let mut active: u32 = 0;
        let mut i: usize = 0;
        while i < rec.issuers.len()
            invariant
                self.wf(),
                self.subjects@.contains_key(subject),
                *rec == self.subjects@[subject],
                0 <= i <= rec.issuers@.len() <= MAX_CREDENTIALS,
                (credential_score as int, active as int) == self.credential_totals(
                    subject,
                    rec.issuers@.take(i as int),
                    now,
                ),
                0 <= credential_score <= MAX_CREDENTIAL_SCORE,
                active <= i,
            decreases rec.issuers@.len() - i,
        {
            let issuer = rec.issuers[i];
            proof {
                assert(rec.issuers@.take(i + 1).drop_last() =~= rec.issuers@.take(i as int));
            }
            let k = credential_key_of(subject, issuer);
            let cfg = self.issuers.get(&issuer);
            let cred = self.credentials.get(&k);
            match (cfg, cred) {
                (Some(cfg), Some(cred)) => {
                    if cfg.active && !cred.revoked && cred.expires_at > now {
                        let sum = credential_score + cred.weight;
                        credential_score = if sum > MAX_CREDENTIAL_SCORE {
                            MAX_CREDENTIAL_SCORE
                        } else {
                            sum
                        };
                        active = active + 1;
                    }
                },
                _ => {},
            }
            i = i + 1;
        }
        proof {
            assert(rec.issuers@.take(rec.issuers@.len() as int) =~= rec.issuers@);
        }
        let confidence_bps: u32 = if active == 0 {
            2_500
        } else if active == 1 {
            6_000
        } else if active == 2 {
            8_000
        } else {
            10_000
        };
        let total = score + credential_score;
        assert(0 <= total * confidence_bps <= 1_500_000 * 10_000) by (nonlinear_arith)
            requires
                0 <= total <= 1_500_000,
                0 <= confidence_bps <= 10_000,
        ;
        let final_score = total * confidence_bps as i64 / BPS;
        ScoreMatrix {
            activity_score: score,
            credential_score,
            active_credentials: active,
            confidence_bps,
            final_score,
        }
    }

    /// The score matrix of a registered subject at `now`: decayed activity,
    /// capped credential score, live credential count, the confidence that
    /// count gives, and `(activity + credentials) * confidence / 10 000`.
    pub fn get_score(&self, now: u64, subject: Address) -> (r: Result<ScoreMatrix, Error>)
        requires
            self.wf(),
        ensures
            self.subjects@.contains_key(subject) ==> r == Ok::<ScoreMatrix, Error>(self.matrix(subject, now)),
            !self.subjects@.contains_key(subject) ==> r == Err::<ScoreMatrix, Error>(Error::SubjectNotFound),
    {
        if !self.subjects.contains_key(&subject) {
            return Err(Error::SubjectNotFound);
        }
        Ok(self.compute_matrix(subject, now))
    }

    /// Score matrices of up to 20 subjects, in order; fails if any is not
    /// registered.
    pub fn get_scores(&self, now: u64, subjects: &Vec<Address>) -> (r: Result<Vec<ScoreMatrix>, Error>)
        requires
            self.wf(),
        ensures
            subjects@.len() > MAX_BATCH ==> r == Err::<Vec<ScoreMatrix>, Error>(Error::BatchLimitExceeded),
            subjects@.len() <= MAX_BATCH && (exists|i: int|
                0 <= i < subjects@.len() && !self.subjects@.contains_key(#[trigger] subjects@[i])) ==> r == Err::<
                Vec<ScoreMatrix>,
                Error,
            >(Error::SubjectNotFound),
            subjects@.len() <= MAX_BATCH && (forall|i: int|
                0 <= i < subjects@.len() ==> self.subjects@.contains_key(#[trigger] subjects@[i])) ==> {
                &&& r is Ok
                &&& r->Ok_0@.len() == subjects@.len()
                &&& forall|i: int| 0 <= i < subjects@.len() ==> #[trigger] r->Ok_0@[i] == self.matrix(subjects@[i], now)
            },
    {
        if subjects.len() > MAX_BATCH {
            return Err(Error::BatchLimitExceeded);
        }
        let mut out: Vec<ScoreMatrix> = Vec::new();
        let mut i: usize = 0;
        while i < subjects.len()
            invariant
                self.wf(),
                subjects@.len() <= MAX_BATCH,
                0 <= i <= subjects@.len(),
                out@.len() == i,
                forall|j: int| 0 <= j < i ==> self.subjects@.contains_key(#[trigger] subjects@[j]),
                forall|j: int| 0 <= j < i ==> #[trigger] out@[j] == self.matrix(subjects@[j], now),
            decreases subjects@.len() - i,
        {
            let s = subjects[i];
            if !self.subjects.contains_key(&s) {
                return Err(Error::SubjectNotFound);
            }
            out.push(self.compute_matrix(s, now));
            i = i + 1;
        }
        Ok(out)
    }

    pub fn is_registered(&self, subject: Address) -> (b: bool)
        ensures
            b == self.subjects@.contains_key(subject),
    {
        self.subjects.contains_key(&subject)
    }
}

/// A report never moves a score out of `0..=MAX_ACTIVITY_SCORE`, and an
/// accepted report is remembered: the same reporter and event id are then
/// refused as already processed.
pub proof fn lemma_replayed_event_refused(c: ReputationContract, now: u64, reporter: Address, subject: Address, event_id: [u8; 32], points: i64, after: ReputationContract)
    requires
        c.wf(),
        c.activity_error(now, reporter, subject, event_id@, points) is None,
        c.activity_recorded(&after, now, reporter, subject, event_id, points),
    ensures
        0 <= c.scored(now, reporter, subject, points) <= MAX_ACTIVITY_SCORE,
        after.event_seen(reporter, event_id@),
        after.activity_error(now, reporter, subject, event_id@, points) == Some(Error::EventAlreadyProcessed),
{
    let i = after.events@.len() - 1;
    assert(after.events@[i] == after.events@.last());
    assert(after.event_seen(reporter, event_id@));
}

/// Replay protection per reporter and event id: after a report is counted,
/// the same reporter's event id is refused as already processed, whatever
/// the subject, the time and the points (within the reporter's per-event
/// limit), while the contract runs and the reporter stays active.
pub proof fn lemma_event_id_used_once(
    c: ReputationContract,
    now: u64,
    reporter: Address,
    subject: Address,
    event_id: [u8; 32],
    points: i64,
    after: ReputationContract,
    later: u64,
    other_subject: Address,
    other_points: i64,
)
    requires
        c.wf(),
        c.activity_error(now, reporter, subject, event_id@, points) is None,
        c.activity_recorded(&after, now, reporter, subject, event_id, points),
        other_points != i64::MIN,
        other_points != 0,
        magnitude(other_points) <= c.reporters@[reporter].max_points_per_event,
    ensures
        after.activity_error(later, reporter, other_subject, event_id@, other_points) == Some(
            Error::EventAlreadyProcessed,
        ),
{
    lemma_replayed_event_refused(c, now, reporter, subject, event_id, points, after);
}

} // verus!
