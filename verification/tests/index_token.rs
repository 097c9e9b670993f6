use soroban_playground::index_token::{IndexTokenContract, IndexTokenError};

const ADMIN: u64 = 1;
const NOW: u64 = 1_000;

fn s(x: &str) -> Vec<u8> {
    x.as_bytes().to_vec()
}

fn ready() -> IndexTokenContract {
    let mut c = IndexTokenContract::new();
    c.initialize(ADMIN).unwrap();
    c
}

#[test]
fn index_test_initialize() {
    let mut c = ready();
    assert_eq!(c.admin, Some(ADMIN));
    assert_eq!(c.initialize(ADMIN), Err(IndexTokenError::AlreadyInitialized));
}

#[test]
fn index_test_create_pool() {
    let mut c = ready();
    let id = c.create_pool(NOW, s("DeFi Index"), 500).unwrap();
    assert_eq!(id, 1);
    assert_eq!(c.get_pool(id).unwrap().name, s("DeFi Index"));
}

#[test]
fn test_add_asset() {
    let mut c = ready();
    let id = c.create_pool(NOW, s("Index"), 500).unwrap();
    let asset_id = c.add_asset(id, 77, s("XLM"), 5000).unwrap();
    assert_eq!(asset_id, 1);
}

#[test]
fn test_deposit_and_withdraw() {
    let mut c = ready();
    let id = c.create_pool(NOW, s("Index"), 500).unwrap();
    let inv = 9;
    let shares = c.deposit(id, inv, 1000).unwrap();
    assert_eq!(shares, 1000);
    let amount = c.withdraw(id, inv, 500).unwrap();
    assert_eq!(amount, 500);
    assert_eq!(c.get_shares(id, inv), 500);
    assert_eq!(c.get_tvl(id), 500);
}
