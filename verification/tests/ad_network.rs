use soroban_playground::ad_network::{AdNetworkContract, AdNetworkError};

const ADMIN: u64 = 1;
const TOKEN: u64 = 2;
const NOW: u64 = 100;

fn s(x: &str) -> Vec<u8> {
    x.as_bytes().to_vec()
}

fn ready() -> AdNetworkContract {
    let mut c = AdNetworkContract::new();
    c.initialize(ADMIN, TOKEN).unwrap();
    c
}

#[test]
fn ad_network_test_initialize() {
    let mut c = ready();
    assert_eq!(c.admin, Some(ADMIN));
    assert_eq!(c.initialize(ADMIN, TOKEN), Err(AdNetworkError::AlreadyInitialized));
}

#[test]
fn test_create_campaign() {
    let mut c = ready();
    let id = c.create_campaign(50, s("Test Ad"), 100_000, 10, 0, 86400).unwrap();
    assert_eq!(id, 1);
    assert_eq!(c.create_campaign(50, s("Bad"), 0, 10, 0, 86400), Err(AdNetworkError::InvalidParameters));
}

#[test]
fn test_register_publisher() {
    let mut c = ready();
    let id = c.register_publisher(ADMIN, 60, s("example.com")).unwrap();
    assert_eq!(id, 1);
    assert_eq!(c.register_publisher(60, 61, s("x.com")), Err(AdNetworkError::Unauthorized));
}

#[test]
fn test_record_and_verify_impression() {
    let mut c = ready();
    let campaign_id = c.create_campaign(50, s("Campaign"), 100_000, 10, 0, 86400).unwrap();
    let pub_id = c.register_publisher(ADMIN, 60, s("site.com")).unwrap();
    let imp_id = c.record_impression(NOW, campaign_id, pub_id, s("user123")).unwrap();
    c.verify_impression(ADMIN, imp_id).unwrap();
    let imp = c.get_impression(imp_id).unwrap();
    assert!(imp.verified);
    assert_eq!(c.verify_impression(ADMIN, imp_id), Err(AdNetworkError::AlreadyVerified));
}

#[test]
fn duplicate_impression_is_refused() {
    let mut c = ready();
    let campaign_id = c.create_campaign(50, s("Campaign"), 100_000, 10, 0, 86400).unwrap();
    let pub_id = c.register_publisher(ADMIN, 60, s("site.com")).unwrap();
    c.record_impression(NOW, campaign_id, pub_id, s("user123")).unwrap();
    assert_eq!(
        c.record_impression(NOW, campaign_id, pub_id, s("user123")),
        Err(AdNetworkError::DuplicateImpression)
    );
}
