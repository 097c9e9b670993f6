//! Recurring subscription billing against a subscriber's pre-approved
//! token allowance.  Plans cannot change price; a subscription caps its
//! lifetime and its number of charges; a keeper pulls one due charge at a
//! time; only the subscriber or the merchant cancel, and nothing revives a
//! cancelled subscription.
//!
//! The token's allowance and balance are read from the token contract by
//! the host and handed in; the host performs the transfer of a charge.
use vstd::prelude::*;
use std::collections::HashMap;
use crate::common::{Address, Text, fits_i128};

verus! {

broadcast use vstd::std_specs::hash::group_hash_axioms;

pub const MAX_NAME_LEN: usize = 128;
/// Ten years.
pub const MAX_INTERVAL: u64 = 315_360_000;
pub const MAX_AUTH_WINDOW: u64 = 315_360_000;

#[derive(Clone, Copy, Debug, PartialEq, Eq, Structural)]
pub enum Error {
    AlreadyInitialized,
    NotInitialized,
    Unauthorized,
    Paused,
    InvalidConfig,
    PlanNotFound,
    PlanInactive,
    SubscriptionNotFound,
    AlreadySubscribed,
    SubscriptionCancelled,
    NotDue,
    AuthorizationNotStarted,
    AuthorizationExpired,
    CycleLimitReached,
    InsufficientAllowance,
    InsufficientBalance,
    Overflow,
}

#[derive(Clone, Debug)]
pub struct Plan {
    pub id: u64,
    pub merchant: Address,
    pub name: Text,
    pub token: Address,
    pub amount: i128,
    pub interval: u64,
    pub active: bool,
}

#[derive(Clone, Copy, Debug, PartialEq, Eq, Structural)]
pub enum SubscriptionStatus {
    Active,
    Cancelled,
}

/// The subscriber's consent: a window of time and a lifetime number of
/// charges.
#[derive(Clone, Copy, Debug, PartialEq, Eq, Structural)]
pub struct Authorization {
    pub starts_at: u64,
    pub ends_at: u64,
    pub max_cycles: u32,
}

#[derive(Clone, Copy, Debug, PartialEq, Eq, Structural)]
pub struct Subscription {
    pub id: u64,
    pub plan_id: u64,
    pub subscriber: Address,
    pub next_charge_at: u64,
    pub ends_at: u64,
    pub max_cycles: u32,
    pub cycles_charged: u32,
    pub total_charged: i128,
    pub status: SubscriptionStatus,
}

/// The billing contract's storage.  The live subscription of a subscriber
/// to a plan is indexed under `index_key(subscriber, plan_id)`; both id
/// counters hold the next id to hand out (1 at first).
pub struct SubscriptionBilling {
    pub admin: Option<Address>,
    pub paused: bool,
    pub plan_counter: u64,
    pub subscription_counter: u64,
    pub plans: HashMap<u64, Plan>,
    pub subscriptions: HashMap<u64, Subscription>,
    pub index: HashMap<u128, u64>,
}

pub open spec fn index_key(subscriber: Address, plan_id: u64) -> u128 {
    (subscriber as int * 0x1_0000_0000_0000_0000 + plan_id as int) as u128
}

fn index_key_of(subscriber: Address, plan_id: u64) -> (k: u128)
    ensures
        k == index_key(subscriber, plan_id),
{
    subscriber as u128 * 0x1_0000_0000_0000_0000 + plan_id as u128
}

/// A subscription that can no longer be charged.
pub open spec fn terminal(s: Subscription, now: u64) -> bool {
    s.status == SubscriptionStatus::Cancelled || now > s.ends_at || s.cycles_charged >= s.max_cycles
}

impl SubscriptionBilling {
    /// The subscription the index names for a subscriber and plan.
    pub open spec fn indexed(&self, subscriber: Address, plan_id: u64) -> Option<u64> {
        let k = index_key(subscriber, plan_id);
        if self.index@.contains_key(k) {
            Some(self.index@[k])
        } else {
            None
        }
    }

    /// Why writes are refused, if they are.
    pub open spec fn running_error(&self) -> Option<Error> {
        if self.admin is None {
            Some(Error::NotInitialized)
        } else if self.paused {
            Some(Error::Paused)
        } else {
            None
        }
    }

    pub fn new() -> (s: Self)
        ensures
            s.admin is None,
            !s.paused,
            s.plan_counter == 1,
            s.subscription_counter == 1,
            s.plans@ == Map::<u64, Plan>::empty(),
            s.subscriptions@ == Map::<u64, Subscription>::empty(),
            s.index@ == Map::<u128, u64>::empty(),
    {
        SubscriptionBilling {
            admin: None,
            paused: false,
            plan_counter: 1,
            subscription_counter: 1,
            plans: HashMap::new(),
            subscriptions: HashMap::new(),
            index: HashMap::new(),
        }
    }

    pub fn initialize(&mut self, admin: Address) -> (r: Result<(), Error>)
        ensures
            old(self).admin is Some ==> r == Err::<(), Error>(Error::AlreadyInitialized) && *final(self) == *old(self),
            old(self).admin is None ==> r is Ok && *final(self) == (SubscriptionBilling {
                admin: Some(admin),
                paused: false,
                ..*old(self)
            }),
    {
        if self.admin.is_some() {
            return Err(Error::AlreadyInitialized);
        }
        self.admin = Some(admin);
        self.paused = false;
        Ok(())
    }

    /// The admin pauses or resumes charging and sign-ups (cancellation and
    /// reads stay available).
    pub fn set_paused(&mut self, paused: bool) -> (r: Result<(), Error>)
        ensures
            old(self).admin is None ==> r == Err::<(), Error>(Error::NotInitialized) && *final(self) == *old(self),
            old(self).admin is Some ==> r is Ok && *final(self) == (SubscriptionBilling { paused, ..*old(self) }),
    {
        if self.admin.is_none() {
            return Err(Error::NotInitialized);
        }
        self.paused = paused;
        Ok(())
    }

    /// A plan configuration is valid: a name of 1 to 128 bytes, a positive
    /// amount and an interval of 1 second to ten years.
    pub open spec fn plan_valid(name: Seq<u8>, amount: i128, interval: u64) -> bool {
        0 < name.len() <= MAX_NAME_LEN && amount > 0 && 0 < interval <= MAX_INTERVAL
    }

    /// A merchant creates an active plan.  Returns its id.
    pub fn create_plan(&mut self, merchant: Address, name: Text, token: Address, amount: i128, interval: u64) -> (r:
        Result<u64, Error>)
        ensures
            old(self).running_error() is Some ==> r == Err::<u64, Error>(old(self).running_error()->0) && *final(self)
                == *old(self),
            old(self).running_error() is None && !Self::plan_valid(name@, amount, interval) ==> r == Err::<u64, Error>(
                Error::InvalidConfig,
            ) && *final(self) == *old(self),
            old(self).running_error() is None && Self::plan_valid(name@, amount, interval) && old(self).plan_counter
                == u64::MAX ==> r == Err::<u64, Error>(Error::Overflow) && *final(self) == *old(self),
            old(self).running_error() is None && Self::plan_valid(name@, amount, interval) && old(self).plan_counter
                < u64::MAX ==> {
                let id = old(self).plan_counter;
                &&& r == Ok::<u64, Error>(id)
                &&& final(self).plan_counter == id + 1
                &&& final(self).plans@ == old(self).plans@.insert(
                    id,
                    Plan { id, merchant, name, token, amount, interval, active: true },
                )
                &&& final(self).subscriptions@ == old(self).subscriptions@
                &&& final(self).index@ == old(self).index@
                &&& final(self).subscription_counter == old(self).subscription_counter
                &&& final(self).admin == old(self).admin
                &&& final(self).paused == old(self).paused
            },
    {
        if self.admin.is_none() {
            return Err(Error::NotInitialized);
        }
        if self.paused {
            return Err(Error::Paused);
        }
        if name.len() == 0 || name.len() > MAX_NAME_LEN || amount <= 0 || interval == 0 || interval > MAX_INTERVAL {
            return Err(Error::InvalidConfig);
        }
        let id = self.plan_counter;
        if id == u64::MAX {
            return Err(Error::Overflow);
        }
        self.plan_counter = id + 1;
        self.plans.insert(id, Plan { id, merchant, name, token, amount, interval, active: true });
        Ok(id)
    }

    /// The merchant switches a plan on or off (its price never changes).
    pub fn set_plan_active(&mut self, plan_id: u64, active: bool) -> (r: Result<(), Error>)
        ensures
            old(self).running_error() is Some ==> r == Err::<(), Error>(old(self).running_error()->0) && *final(self)
                == *old(self),
            old(self).running_error() is None && !old(self).plans@.contains_key(plan_id) ==> r == Err::<(), Error>(
                Error::PlanNotFound,
            ) && *final(self) == *old(self),
            old(self).running_error() is None && old(self).plans@.contains_key(plan_id) ==> {
                let o = old(self).plans@[plan_id];
                let n = final(self).plans@[plan_id];
                &&& r is Ok
                &&& final(self).plans@ == old(self).plans@.insert(plan_id, n)
                &&& n.active == active
                &&& n.id == o.id && n.merchant == o.merchant && n.name == o.name && n.token == o.token
                &&& n.amount == o.amount && n.interval == o.interval
                &&& final(self).subscriptions@ == old(self).subscriptions@
                &&& final(self).index@ == old(self).index@
                &&& final(self).plan_counter == old(self).plan_counter
                &&& final(self).subscription_counter == old(self).subscription_counter
                &&& final(self).admin == old(self).admin
                &&& final(self).paused == old(self).paused
            },
    {
        if self.admin.is_none() {
            return Err(Error::NotInitialized);
        }
        if self.paused {
            return Err(Error::Paused);
        }
        if !self.plans.contains_key(&plan_id) {
            return Err(Error::PlanNotFound);
        }
        let p = self.plans.remove(&plan_id).unwrap();
        self.plans.insert(
            plan_id,
            Plan {
                id: p.id,
                merchant: p.merchant,
                name: p.name,
                token: p.token,
                amount: p.amount,
                interval: p.interval,
                active,
            },
        );
        proof {
            assert(self.plans@ =~= old(self).plans@.insert(plan_id, self.plans@[plan_id]));
        }
        Ok(())
    }

    /// Why `subscribe` fails, if it does, given the allowance the
    /// subscriber granted the contract on the plan's token.
    pub open spec fn subscribe_error(&self, now: u64, subscriber: Address, plan_id: u64, a: Authorization, allowance: i128) -> Option<
        Error,
    > {
        if self.running_error() is Some {
            self.running_error()
        } else if !self.plans@.contains_key(plan_id) {
            Some(Error::PlanNotFound)
        } else {
            let p = self.plans@[plan_id];
            if !p.active {
                Some(Error::PlanInactive)
            } else if a.max_cycles == 0 || a.ends_at < a.starts_at || a.ends_at < now || a.ends_at - now
                > MAX_AUTH_WINDOW {
                Some(Error::InvalidConfig)
            } else if !fits_i128(p.amount * a.max_cycles) {
                Some(Error::Overflow)
            } else if self.indexed(subscriber, plan_id) is Some && !self.subscriptions@.contains_key(
                self.indexed(subscriber, plan_id)->0,
            ) {
                Some(Error::SubscriptionNotFound)
            } else if self.indexed(subscriber, plan_id) is Some && !terminal(
                self.subscriptions@[self.indexed(subscriber, plan_id)->0],
                now,
            ) {
                Some(Error::AlreadySubscribed)
            } else if allowance < p.amount {
                Some(Error::InsufficientAllowance)
            } else if self.subscription_counter == u64::MAX {
                Some(Error::Overflow)
            } else {
                None
            }
        }
    }

    /// A subscriber consents to a plan for a bounded window and number of
    /// charges; no payment is taken.  An earlier subscription to the same
    /// plan must be over.  Returns the new subscription's id; the first
    /// charge is due at the start of the window, or now if it has begun.
    pub fn subscribe(&mut self, now: u64, subscriber: Address, plan_id: u64, authorization: Authorization, allowance: i128) -> (r:
        Result<u64, Error>)
        ensures
            match old(self).subscribe_error(now, subscriber, plan_id, authorization, allowance) {
                Some(e) => r == Err::<u64, Error>(e) && *final(self) == *old(self),
                None => {
                    let id = old(self).subscription_counter;
                    &&& r == Ok::<u64, Error>(id)
                    &&& final(self).subscription_counter == id + 1
                    &&& final(self).subscriptions@ == old(self).subscriptions@.insert(
                        id,
                        Subscription {
                            id,
                            plan_id,
                            subscriber,
                            next_charge_at: if authorization.starts_at < now {
                                now
                            } else {
                                authorization.starts_at
                            },
                            ends_at: authorization.ends_at,
                            max_cycles: authorization.max_cycles,
                            cycles_charged: 0,
                            total_charged: 0,
                            status: SubscriptionStatus::Active,
                        },
                    )
                    &&& final(self).index@ == old(self).index@.insert(index_key(subscriber, plan_id), id)
                    &&& final(self).plans@ == old(self).plans@
                    &&& final(self).plan_counter == old(self).plan_counter
                    &&& final(self).admin == old(self).admin
                    &&& final(self).paused == old(self).paused
                },
            },
    {
        if self.admin.is_none() {
            return Err(Error::NotInitialized);
        }
        if self.paused {
            return Err(Error::Paused);
        }
        let (active, amount) = match self.plans.get(&plan_id) {
            None => return Err(Error::PlanNotFound),
            Some(p) => (p.active, p.amount),
        };
        if !active {
            return Err(Error::PlanInactive);
        }
        if authorization.max_cycles == 0 || authorization.ends_at < authorization.starts_at || authorization.ends_at
            < now || authorization.ends_at - now > MAX_AUTH_WINDOW {
            return Err(Error::InvalidConfig);
        }
        if amount.checked_mul(authorization.max_cycles as i128).is_none() {
            return Err(Error::Overflow);
        }
        let k = index_key_of(subscriber, plan_id);
        match self.index.get(&k) {
            Some(existing_id) => {
                match self.subscriptions.get(existing_id) {
                    None => return Err(Error::SubscriptionNotFound),
                    Some(existing) => {
                        let is_terminal = existing.status == SubscriptionStatus::Cancelled || now > existing.ends_at
                            || existing.cycles_charged >= existing.max_cycles;
                        if !is_terminal {
                            return Err(Error::AlreadySubscribed);
                        }
                    },
                }
            },
            None => {},
        }
        if allowance < amount {
            return Err(Error::InsufficientAllowance);
        }
        let id = self.subscription_counter;
        if id == u64::MAX {
            return Err(Error::Overflow);
        }
        self.subscription_counter = id + 1;
        let next_charge_at = if authorization.starts_at < now {
            now
        } else {
            authorization.starts_at
        };
        self.subscriptions.insert(
            id,
            Subscription {
                id,
                plan_id,
                subscriber,
                next_charge_at,
                ends_at: authorization.ends_at,
                max_cycles: authorization.max_cycles,
                cycles_charged: 0,
                total_charged: 0,
                status: SubscriptionStatus::Active,
            },
        );
        self.index.insert(k, id);
        Ok(id)
    }

    /// Why `charge` fails, if it does, given the subscriber's allowance to
    /// the contract and balance on the plan's token.
    pub open spec fn charge_error(&self, now: u64, id: u64, allowance: i128, balance: i128) -> Option<Error> {
        if self.running_error() is Some {
            self.running_error()
        } else if !self.subscriptions@.contains_key(id) {
            Some(Error::SubscriptionNotFound)
        } else {
            let s = self.subscriptions@[id];
            if s.status == SubscriptionStatus::Cancelled {
                Some(Error::SubscriptionCancelled)
            } else if self.indexed(s.subscriber, s.plan_id) != Some(id) {
                Some(Error::AlreadySubscribed)
            } else if now < s.next_charge_at {
                if s.cycles_charged == 0 {
                    Some(Error::AuthorizationNotStarted)
                } else {
                    Some(Error::NotDue)
                }
            } else if now > s.ends_at {
                Some(Error::AuthorizationExpired)
            } else if s.cycles_charged >= s.max_cycles {
                Some(Error::CycleLimitReached)
            } else if !self.plans@.contains_key(s.plan_id) {
                Some(Error::PlanNotFound)
            } else {
                let p = self.plans@[s.plan_id];
                if allowance < p.amount {
                    Some(Error::InsufficientAllowance)
                } else if balance < p.amount {
                    Some(Error::InsufficientBalance)
                } else if s.cycles_charged + 1 > u32::MAX || !fits_i128(s.total_charged + p.amount) || now
                    + p.interval > u64::MAX {
                    Some(Error::Overflow)
                } else {
                    None
                }
            }
        }
    }

    /// A keeper pulls one due charge: the plan's amount (returned; the host
    /// moves it from the subscriber to the merchant).  The next charge is
    /// due one interval from now, so missed periods cannot be drained in a
    /// burst.
    pub fn charge(&mut self, now: u64, subscription_id: u64, allowance: i128, balance: i128) -> (r: Result<i128, Error>)
        ensures
            match old(self).charge_error(now, subscription_id, allowance, balance) {
                Some(e) => r == Err::<i128, Error>(e) && *final(self) == *old(self),
                None => {
                    let s = old(self).subscriptions@[subscription_id];
                    let p = old(self).plans@[s.plan_id];
                    &&& r == Ok::<i128, Error>(p.amount)
                    &&& final(self).subscriptions@ == old(self).subscriptions@.insert(
                        subscription_id,
                        Subscription {
                            cycles_charged: (s.cycles_charged + 1) as u32,
                            total_charged: (s.total_charged + p.amount) as i128,
                            next_charge_at: (now + p.interval) as u64,
                            ..s
                        },
                    )
                    &&& final(self).plans@ == old(self).plans@
                    &&& final(self).index@ == old(self).index@
                    &&& final(self).plan_counter == old(self).plan_counter
                    &&& final(self).subscription_counter == old(self).subscription_counter
                    &&& final(self).admin == old(self).admin
                    &&& final(self).paused == old(self).paused
                },
            },
    {
        if self.admin.is_none() {
            return Err(Error::NotInitialized);
        }
        if self.paused {
            return Err(Error::Paused);
        }
        let s = match self.subscriptions.get(&subscription_id) {
            None => return Err(Error::SubscriptionNotFound),
            Some(s) => *s,
        };
        if s.status == SubscriptionStatus::Cancelled {
            return Err(Error::SubscriptionCancelled);
        }
        let k = index_key_of(s.subscriber, s.plan_id);
        match self.index.get(&k) {
            Some(i) => {
                if *i != subscription_id {
                    return Err(Error::AlreadySubscribed);
                }
            },
            None => return Err(Error::AlreadySubscribed),
        }
        if now < s.next_charge_at {
            return if s.cycles_charged == 0 {
                Err(Error::AuthorizationNotStarted)
            } else {
                Err(Error::NotDue)
            };
        }
        if now > s.ends_at {
            return Err(Error::AuthorizationExpired);
        }
        if s.cycles_charged >= s.max_cycles {
            return Err(Error::CycleLimitReached);
        }
        let (amount, interval) = match self.plans.get(&s.plan_id) {
            None => return Err(Error::PlanNotFound),
            Some(p) => (p.amount, p.interval),
        };
        if allowance < amount {
            return Err(Error::InsufficientAllowance);
        }
        if balance < amount {
            return Err(Error::InsufficientBalance);
        }
        let cycles = match s.cycles_charged.checked_add(1) {
            Some(v) => v,
            None => return Err(Error::Overflow),
        };
        let total = match s.total_charged.checked_add(amount) {
            Some(v) => v,
            None => return Err(Error::Overflow),
        };
        let next = match now.checked_add(interval) {
            Some(v) => v,
            None => return Err(Error::Overflow),
        };
        self.subscriptions.insert(
            subscription_id,
            Subscription { cycles_charged: cycles, total_charged: total, next_charge_at: next, ..s },
        );
        Ok(amount)
    }

    /// Why `update_authorization` fails, if it does.
    pub open spec fn update_error(&self, now: u64, id: u64, ends_at: u64, max_cycles: u32) -> Option<Error> {
        if self.running_error() is Some {
            self.running_error()
        } else if !self.subscriptions@.contains_key(id) {
            Some(Error::SubscriptionNotFound)
        } else {
            let s = self.subscriptions@[id];
            if s.status == SubscriptionStatus::Cancelled {
                Some(Error::SubscriptionCancelled)
            } else if self.indexed(s.subscriber, s.plan_id) != Some(id) {
                Some(Error::AlreadySubscribed)
            } else if ends_at < now || ends_at - now > MAX_AUTH_WINDOW || max_cycles < s.cycles_charged {
                Some(Error::InvalidConfig)
            } else if !self.plans@.contains_key(s.plan_id) {
                Some(Error::PlanNotFound)
            } else if !fits_i128(self.plans@[s.plan_id].amount * max_cycles) {
                Some(Error::Overflow)
            } else {
                None
            }
        }
    }

    /// The subscriber renews or narrows its consent (never below the
    /// charges already taken); a cancelled subscription stays cancelled.
    pub fn update_authorization(&mut self, now: u64, subscription_id: u64, ends_at: u64, max_cycles: u32) -> (r:
        Result<(), Error>)
        ensures
            match old(self).update_error(now, subscription_id, ends_at, max_cycles) {
                Some(e) => r == Err::<(), Error>(e) && *final(self) == *old(self),
                None => {
                    let s = old(self).subscriptions@[subscription_id];
                    &&& r is Ok
                    &&& final(self).subscriptions@ == old(self).subscriptions@.insert(
                        subscription_id,
                        Subscription { ends_at, max_cycles, ..s },
                    )
                    &&& final(self).plans@ == old(self).plans@
                    &&& final(self).index@ == old(self).index@
                    &&& final(self).plan_counter == old(self).plan_counter
                    &&& final(self).subscription_counter == old(self).subscription_counter
                    &&& final(self).admin == old(self).admin
                    &&& final(self).paused == old(self).paused
                },
            },
    {
        if self.admin.is_none() {
            return Err(Error::NotInitialized);
        }
        if self.paused {
            return Err(Error::Paused);
        }
        let s = match self.subscriptions.get(&subscription_id) {
            None => return Err(Error::SubscriptionNotFound),
            Some(s) => *s,
        };
        if s.status == SubscriptionStatus::Cancelled {
            return Err(Error::SubscriptionCancelled);
        }
        let k = index_key_of(s.subscriber, s.plan_id);
        match self.index.get(&k) {
            Some(i) => {
                if *i != subscription_id {
                    return Err(Error::AlreadySubscribed);
                }
            },
            None => return Err(Error::AlreadySubscribed),
        }
        if ends_at < now || ends_at - now > MAX_AUTH_WINDOW || max_cycles < s.cycles_charged {
            return Err(Error::InvalidConfig);
        }
        let amount = match self.plans.get(&s.plan_id) {
            None => return Err(Error::PlanNotFound),
            Some(p) => p.amount,
        };
        if amount.checked_mul(max_cycles as i128).is_none() {
            return Err(Error::Overflow);
        }
        self.subscriptions.insert(subscription_id, Subscription { ends_at, max_cycles, ..s });
        Ok(())
    }

    /// Why `cancel` fails, if it does.
    pub open spec fn cancel_error(&self, caller: Address, id: u64) -> Option<Error> {
        if self.admin is None {
            Some(Error::NotInitialized)
        } else if !self.subscriptions@.contains_key(id) {
            Some(Error::SubscriptionNotFound)
        } else {
            let s = self.subscriptions@[id];
            if !self.plans@.contains_key(s.plan_id) {
                Some(Error::PlanNotFound)
            } else if caller != s.subscriber && caller != self.plans@[s.plan_id].merchant {
                Some(Error::Unauthorized)
            } else if s.status == SubscriptionStatus::Cancelled {
                Some(Error::SubscriptionCancelled)
            } else {
                None
            }
        }
    }

    /// The subscriber or the merchant cancels (also while paused); the
    /// subscription leaves the index if it is the one indexed.
    pub fn cancel(&mut self, caller: Address, subscription_id: u64) -> (r: Result<(), Error>)
        ensures
            match old(self).cancel_error(caller, subscription_id) {
                Some(e) => r == Err::<(), Error>(e) && *final(self) == *old(self),
                None => {
                    let s = old(self).subscriptions@[subscription_id];
                    let k = index_key(s.subscriber, s.plan_id);
                    &&& r is Ok
                    &&& final(self).subscriptions@ == old(self).subscriptions@.insert(
                        subscription_id,
                        Subscription { status: SubscriptionStatus::Cancelled, ..s },
                    )
                    &&& old(self).indexed(s.subscriber, s.plan_id) == Some(subscription_id) ==> final(self).index@
                        == old(self).index@.remove(k)
                    &&& old(self).indexed(s.subscriber, s.plan_id) != Some(subscription_id) ==> final(self).index@
                        == old(self).index@
                    &&& final(self).plans@ == old(self).plans@
                    &&& final(self).plan_counter == old(self).plan_counter
                    &&& final(self).subscription_counter == old(self).subscription_counter
                    &&& final(self).admin == old(self).admin
                    &&& final(self).paused == old(self).paused
                },
            },
    {
        if self.admin.is_none() {
            return Err(Error::NotInitialized);
        }
        let s = match self.subscriptions.get(&subscription_id) {
            None => return Err(Error::SubscriptionNotFound),
            Some(s) => *s,
        };
        let merchant = match self.plans.get(&s.plan_id) {
            None => return Err(Error::PlanNotFound),
            Some(p) => p.merchant,
        };
        if caller != s.subscriber && caller != merchant {
            return Err(Error::Unauthorized);
        }
        if s.status == SubscriptionStatus::Cancelled {
            return Err(Error::SubscriptionCancelled);
        }
        self.subscriptions.insert(subscription_id, Subscription { status: SubscriptionStatus::Cancelled, ..s });
        let k = index_key_of(s.subscriber, s.plan_id);
        let indexed_here = match self.index.get(&k) {
            Some(i) => *i == subscription_id,
            None => false,
        };
        if indexed_here {
            self.index.remove(&k);
        }
        Ok(())
    }

    pub fn get_plan(&self, plan_id: u64) -> (r: Result<&Plan, Error>)
        ensures
            self.admin is None ==> r == Err::<&Plan, Error>(Error::NotInitialized),
            self.admin is Some && self.plans@.contains_key(plan_id) ==> r == Ok::<&Plan, Error>(&self.plans@[plan_id]),
            self.admin is Some && !self.plans@.contains_key(plan_id) ==> r == Err::<&Plan, Error>(Error::PlanNotFound),
    {
        if self.admin.is_none() {
            return Err(Error::NotInitialized);
        }
        match self.plans.get(&plan_id) {
            Some(p) => Ok(p),
            None => Err(Error::PlanNotFound),
        }
    }

    pub fn get_subscription(&self, subscription_id: u64) -> (r: Result<Subscription, Error>)
        ensures
            self.admin is None ==> r == Err::<Subscription, Error>(Error::NotInitialized),
            self.admin is Some && self.subscriptions@.contains_key(subscription_id) ==> r == Ok::<Subscription, Error>(
                self.subscriptions@[subscription_id],
            ),
            self.admin is Some && !self.subscriptions@.contains_key(subscription_id) ==> r == Err::<
                Subscription,
                Error,
            >(Error::SubscriptionNotFound),
    {
        if self.admin.is_none() {
            return Err(Error::NotInitialized);
        }
        match self.subscriptions.get(&subscription_id) {
            Some(s) => Ok(*s),
            None => Err(Error::SubscriptionNotFound),
        }
    }

    pub fn get_subscription_id(&self, subscriber: Address, plan_id: u64) -> (r: Option<u64>)
        ensures
            r == self.indexed(subscriber, plan_id),
    {
        let k = index_key_of(subscriber, plan_id);
        match self.index.get(&k) {
            Some(i) => Some(*i),
            None => None,
        }
    }

    /// Whether an active subscription can be charged at `now`.
    pub fn is_charge_due(&self, now: u64, subscription_id: u64) -> (r: Result<bool, Error>)
        ensures
            self.admin is None ==> r == Err::<bool, Error>(Error::NotInitialized),
            self.admin is Some && !self.subscriptions@.contains_key(subscription_id) ==> r == Err::<bool, Error>(
                Error::SubscriptionNotFound,
            ),
            self.admin is Some && self.subscriptions@.contains_key(subscription_id) ==> {
                let s = self.subscriptions@[subscription_id];
                r == Ok::<bool, Error>(
                    s.status == SubscriptionStatus::Active && now >= s.next_charge_at && now <= s.ends_at
                        && s.cycles_charged < s.max_cycles,
                )
            },
    {
        if self.admin.is_none() {
            return Err(Error::NotInitialized);
        }
        match self.subscriptions.get(&subscription_id) {
            None => Err(Error::SubscriptionNotFound),
            Some(s) => Ok(
                s.status == SubscriptionStatus::Active && now >= s.next_charge_at && now <= s.ends_at
                    && s.cycles_charged < s.max_cycles,
            ),
        }
    }

    pub fn is_paused(&self) -> (b: bool)
        ensures
            b == self.paused,
    {
        self.paused
    }
}

/// Nothing revives a cancelled subscription: charging it, changing its
/// authorization and cancelling it again are all refused.
pub proof fn lemma_cancelled_is_final(
    c: SubscriptionBilling,
    now: u64,
    id: u64,
    caller: Address,
    allowance: i128,
    balance: i128,
    ends_at: u64,
    max_cycles: u32,
)
    requires
        c.admin is Some,
        !c.paused,
        c.subscriptions@.contains_key(id),
        c.subscriptions@[id].status == SubscriptionStatus::Cancelled,
    ensures
        c.charge_error(now, id, allowance, balance) == Some(Error::SubscriptionCancelled),
        c.update_error(now, id, ends_at, max_cycles) == Some(Error::SubscriptionCancelled),
        c.cancel_error(caller, id) is Some,
{
}

/// One charge at a time: right after a charge at `now`, another charge at
/// the same moment is not due (plans have a positive interval).
pub proof fn lemma_one_charge_per_interval(
    before: SubscriptionBilling,
    after: SubscriptionBilling,
    now: u64,
    id: u64,
    allowance: i128,
    balance: i128,
)
    requires
        before.charge_error(now, id, allowance, balance) is None,
        before.plans@[before.subscriptions@[id].plan_id].interval > 0,
        after.admin == before.admin,
        after.paused == before.paused,
        after.index@ == before.index@,
        after.plans@ == before.plans@,
        after.subscriptions@ == before.subscriptions@.insert(
            id,
            Subscription {
                cycles_charged: (before.subscriptions@[id].cycles_charged + 1) as u32,
                total_charged: (before.subscriptions@[id].total_charged + before.plans@[before.subscriptions@[id].plan_id].amount) as i128,
                next_charge_at: (now + before.plans@[before.subscriptions@[id].plan_id].interval) as u64,
                ..before.subscriptions@[id]
            },
        ),
    ensures
        after.charge_error(now, id, allowance, balance) == Some(Error::NotDue),
{
}

} // verus!
