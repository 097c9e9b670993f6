use soroban_playground::subscription::{Authorization, Error, SubscriptionBilling, SubscriptionStatus};

const ADMIN: u64 = 1;
const MERCHANT: u64 = 2;
const SUBSCRIBER: u64 = 3;
const TOKEN: u64 = 4;
const DAY: u64 = 86_400;
const NOW: u64 = 1_000_000;

fn with_plan() -> (SubscriptionBilling, u64) {
    let mut c = SubscriptionBilling::new();
    c.initialize(ADMIN).unwrap();
    let plan = c.create_plan(MERCHANT, b"Pro".to_vec(), TOKEN, 50, 30 * DAY).unwrap();
    (c, plan)
}

fn consent() -> Authorization {
    Authorization { starts_at: NOW, ends_at: NOW + 365 * DAY, max_cycles: 2 }
}

#[test]
fn plan_creation_is_checked() {
    let (mut c, plan) = with_plan();
    assert_eq!(plan, 1);
    assert_eq!(c.get_plan(plan).unwrap().amount, 50);
    assert_eq!(c.create_plan(MERCHANT, b"Free".to_vec(), TOKEN, 0, DAY), Err(Error::InvalidConfig));
    assert_eq!(c.create_plan(MERCHANT, b"".to_vec(), TOKEN, 5, DAY), Err(Error::InvalidConfig));
}

#[test]
fn one_charge_per_interval_within_the_cycle_limit() {
    let (mut c, plan) = with_plan();
    let id = c.subscribe(NOW, SUBSCRIBER, plan, consent(), 1_000).unwrap();
    assert_eq!(c.get_subscription_id(SUBSCRIBER, plan), Some(id));
    assert_eq!(c.subscribe(NOW, SUBSCRIBER, plan, consent(), 1_000), Err(Error::AlreadySubscribed));
    let first = c.get_subscription(id).unwrap();
    assert_eq!(first.status, SubscriptionStatus::Active);
    let charged_first = first.cycles_charged;
    let next = first.next_charge_at;
    assert_eq!(c.is_charge_due(next - 1, id), Ok(false));
    if next > NOW {
        assert!(c.charge(next - 1, id, 1_000, 1_000).is_err());
    }
    assert_eq!(c.charge(next, id, 40, 1_000), Err(Error::InsufficientAllowance));
    assert_eq!(c.charge(next, id, 1_000, 40), Err(Error::InsufficientBalance));
    assert_eq!(c.charge(next, id, 1_000, 1_000), Ok(50));
    assert_eq!(c.charge(next, id, 1_000, 1_000), Err(Error::NotDue));
    let s = c.get_subscription(id).unwrap();
    assert_eq!(s.cycles_charged, charged_first + 1);
    assert_eq!(s.next_charge_at, next + 30 * DAY);
    assert_eq!(s.total_charged, 50 * s.cycles_charged as i128);
}

#[test]
fn cancelled_subscription_is_never_charged() {
    let (mut c, plan) = with_plan();
    let id = c.subscribe(NOW, SUBSCRIBER, plan, consent(), 1_000).unwrap();
    assert_eq!(c.cancel(MERCHANT + 100, id), Err(Error::Unauthorized));
    c.cancel(SUBSCRIBER, id).unwrap();
    assert_eq!(c.get_subscription(id).unwrap().status, SubscriptionStatus::Cancelled);
    assert_eq!(c.charge(NOW + 100 * DAY, id, 1_000, 1_000), Err(Error::SubscriptionCancelled));
}

#[test]
fn inactive_plans_take_no_subscribers() {
    let (mut c, plan) = with_plan();
    c.set_plan_active(plan, false).unwrap();
    assert_eq!(c.subscribe(NOW, SUBSCRIBER, plan, consent(), 1_000), Err(Error::PlanInactive));
    assert_eq!(c.subscribe(NOW, SUBSCRIBER, 9, consent(), 1_000), Err(Error::PlanNotFound));
    c.set_paused(true).unwrap();
    assert!(c.is_paused());
    assert_eq!(c.subscribe(NOW, SUBSCRIBER, plan, consent(), 1_000), Err(Error::Paused));
}
