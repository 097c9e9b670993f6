use soroban_playground::vc_vesting::{VCVestingContract, VCVestingError};

const ADMIN: u64 = 1;
const TOKEN: u64 = 2;
const NOW: u64 = 10_000;

fn fund(name: &str) -> Vec<u8> {
    name.as_bytes().to_vec()
}

fn ready() -> VCVestingContract {
    let mut c = VCVestingContract::new();
    c.initialize(ADMIN, TOKEN).unwrap();
    c
}

#[test]
fn test_initialize() {
    let c = ready();
    assert_eq!(c.admin, Some(ADMIN));
}

#[test]
fn test_initialize_twice_fails() {
    let mut c = ready();
    assert_eq!(c.initialize(ADMIN, TOKEN), Err(VCVestingError::AlreadyInitialized));
}

#[test]
fn test_create_pool() {
    let mut c = VCVestingContract::new();
    c.initialize(ADMIN, 3).unwrap();
    let pool_id = c.create_pool(NOW, fund("VC Fund I"), 1_000_000, 3).unwrap();
    assert_eq!(pool_id, 1);
    let pool = c.get_pool(pool_id).unwrap();
    assert_eq!(pool.name, fund("VC Fund I"));
    assert_eq!(pool.tranche_count, 3);
}

#[test]
fn test_add_tranche() {
    let mut c = ready();
    let pool_id = c.create_pool(NOW, fund("Fund"), 1_000_000, 3).unwrap();
    c.add_tranche(pool_id, 1, 300_000, fund("MVP Launch"), 6000).unwrap();
    let t = c.get_tranche(pool_id, 1).unwrap();
    assert_eq!(t.total_amount, 300_000);
    assert_eq!(t.required_votes_bps, 6000);
}

#[test]
fn test_add_investor() {
    let mut c = ready();
    let pool_id = c.create_pool(NOW, fund("Fund"), 1_000_000, 2).unwrap();
    let inv = 50;
    c.add_investor(pool_id, inv, 500_000).unwrap();
    let stored = c.get_investor(pool_id, inv).unwrap();
    assert_eq!(stored.allocation, 500_000);
}

#[test]
fn test_open_voting() {
    let mut c = ready();
    let pool_id = c.create_pool(NOW, fund("Fund"), 1_000_000, 1).unwrap();
    c.add_tranche(pool_id, 1, 500_000, fund("Milestone"), 5100).unwrap();
    c.open_voting(NOW, pool_id, 1, 86400).unwrap();
    let t = c.get_tranche(pool_id, 1).unwrap();
    assert!(t.voting_end_time > 0);
}

#[test]
fn test_vote_and_finalize() {
    let mut c = ready();
    let pool_id = c.create_pool(NOW, fund("Fund"), 1_000_000, 1).unwrap();
    c.add_tranche(pool_id, 1, 500_000, fund("Milestone"), 5100).unwrap();
    let (inv1, inv2) = (51, 52);
    c.add_investor(pool_id, inv1, 400_000).unwrap();
    c.add_investor(pool_id, inv2, 600_000).unwrap();
    c.open_voting(NOW, pool_id, 1, 86400).unwrap();
    c.vote(NOW, pool_id, 1, inv1, true).unwrap();
    c.vote(NOW, pool_id, 1, inv2, true).unwrap();
    assert!(c.has_voted(pool_id, 1, inv1));
    let approved = c.finalize_voting(NOW + 86401, pool_id, 1).unwrap();
    assert!(approved);
    let claimable = c.claim_tokens(pool_id, 1, inv1).unwrap();
    assert!(claimable > 0);
}

#[test]
fn second_vote_by_the_same_investor_is_refused() {
    let mut c = ready();
    let pool_id = c.create_pool(NOW, fund("Fund"), 1_000_000, 1).unwrap();
    c.add_tranche(pool_id, 1, 500_000, fund("Milestone"), 5100).unwrap();
    c.add_investor(pool_id, 51, 400_000).unwrap();
    c.open_voting(NOW, pool_id, 1, 86400).unwrap();
    c.vote(NOW, pool_id, 1, 51, true).unwrap();
    assert!(c.vote(NOW, pool_id, 1, 51, false).is_err());
}

#[test]
fn tranche_without_enough_support_is_not_released() {
    let mut c = ready();
    let pool_id = c.create_pool(NOW, fund("Fund"), 1_000_000, 1).unwrap();
    c.add_tranche(pool_id, 1, 500_000, fund("Milestone"), 5100).unwrap();
    c.add_investor(pool_id, 51, 400_000).unwrap();
    c.add_investor(pool_id, 52, 600_000).unwrap();
    c.open_voting(NOW, pool_id, 1, 86400).unwrap();
    c.vote(NOW, pool_id, 1, 51, true).unwrap();
    c.vote(NOW, pool_id, 1, 52, false).unwrap();
    assert_eq!(c.finalize_voting(NOW + 86401, pool_id, 1), Ok(false));
    assert!(c.claim_tokens(pool_id, 1, 51).is_err());
}
