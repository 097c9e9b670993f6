use soroban_playground::crop_insurance::{CropInsurance, PolicyStatus};

#[test]
fn test_parametric_crop_insurance_flow() {
    let (admin, oracle, farmer, token) = (1, 2, 3, 4);
    let now = 0;
    let mut c = CropInsurance::new();
    c.initialize(admin, oracle, token).unwrap();
    let region = b"REGION_AFRICA_01".to_vec();
    // Drought trigger below 50mm, premium 100, payout 500.
    let policy_id = c.create_policy(now, farmer, region.clone(), 50, true, 100, 500, 86400).unwrap();
    let policy = c.get_policy(policy_id).unwrap();
    assert_eq!(policy.id, policy_id);
    assert_eq!(policy.status, PolicyStatus::Active);
    c.submit_rainfall_data(oracle, region.clone(), 30).unwrap();
    assert_eq!(c.get_rainfall(&region), Some(30));
    let payout = c.trigger_payout(policy_id).unwrap();
    assert_eq!(payout, 500);
    assert_eq!(c.get_policy(policy_id).unwrap().status, PolicyStatus::Claimed);
    assert!(c.trigger_payout(policy_id).is_err());
}
