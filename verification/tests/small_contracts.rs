use soroban_playground::carbon_credit_oracle::CarbonCreditOracle;
use soroban_playground::cartel::CartelSyndicateContract;
use soroban_playground::storage_demo::{DecoupledStorageContract, StorageError};
use soroban_playground::subscription_manager::SubscriptionManager;
use soroban_playground::vesting_pool::{MilestoneVestingPoolContract, Tranche};

#[test]
fn oracle_value_defaults_to_zero() {
    let mut o = CarbonCreditOracle::new();
    assert_eq!(o.get_value(), 0);
    o.set_value(42);
    assert_eq!(o.get_value(), 42);
}

#[test]
fn subscriber_count_round_trips() {
    let mut m = SubscriptionManager::new();
    assert_eq!(m.get_subscribers(), 0);
    m.set_subscribers(7);
    assert_eq!(m.get_subscribers(), 7);
}

#[test]
fn syndicate_votes_are_weighted_by_stake() {
    let mut c = CartelSyndicateContract::new();
    c.join_syndicate(1, 300);
    c.join_syndicate(2, 100);
    c.join_syndicate(1, 50);
    assert_eq!(c.total_staked, 450);
    let id = c.create_proposal(10, 1, 99, [7u8; 32], 100);
    c.vote(20, 1, id, true);
    c.vote(20, 2, id, false);
    let p = c.proposals.get(&id).unwrap();
    assert_eq!((p.yes_votes, p.no_votes, p.deadline, p.executed), (350, 100, 110, false));
}

#[test]
fn storage_demo_balances_and_nonces() {
    let mut c = DecoupledStorageContract::new();
    assert_eq!(c.set_balance(5, 10), Err(StorageError::NotInitialized));
    c.initialize(1, 30);
    c.set_balance(5, 10).unwrap();
    assert_eq!(c.get_balance(5), 10);
    assert_eq!(c.get_balance(6), 0);
    c.consume_nonce(5, 1).unwrap();
    assert_eq!(c.consume_nonce(5, 1), Err(StorageError::NonceExpiredOrInvalid));
    c.consume_nonce(6, 1).unwrap();
}

#[test]
fn vesting_pool_unlocks_every_tranche_of_a_milestone() {
    let mut p = MilestoneVestingPoolContract::new();
    let tranches = vec![
        Tranche { amount: 10, milestone_id: 1, unlocked: false },
        Tranche { amount: 20, milestone_id: 2, unlocked: false },
        Tranche { amount: 30, milestone_id: 1, unlocked: false },
    ];
    p.create_schedule(1, 5, tranches);
    p.unlock_milestone(1, 5, 1);
    let s = p.schedules.get(&5).unwrap();
    let unlocked: Vec<bool> = s.tranches.iter().map(|t| t.unlocked).collect();
    assert_eq!(unlocked, vec![true, false, true]);
}
