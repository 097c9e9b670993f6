use soroban_playground::reputation::{Error, IssuerConfig, ReporterConfig, ReputationContract};

const ADMIN: u64 = 1;
const REPORTER: u64 = 2;
const ISSUER: u64 = 3;
const SUBJECT: u64 = 4;

fn ready() -> ReputationContract {
    let mut c = ReputationContract::new();
    // epochs of 100 seconds, 10% decay per epoch
    c.initialize(ADMIN, 100, 1_000).unwrap();
    let cfg = ReporterConfig { active: true, weight_bps: 5_000, max_points_per_event: 100, max_points_per_epoch: 150 };
    c.set_reporter(REPORTER, cfg).unwrap();
    c.set_issuer(ISSUER, IssuerConfig { active: true, max_credential_weight: 1_000 }).unwrap();
    c.register(0, SUBJECT).unwrap();
    c
}

#[test]
fn weighted_points_raise_the_activity_score() {
    let mut c = ready();
    // 100 points at half weight
    assert_eq!(c.record_activity(0, REPORTER, SUBJECT, [1; 32], 100), Ok(50));
    let m = c.get_score(0, SUBJECT).unwrap();
    assert_eq!((m.activity_score, m.credential_score, m.active_credentials), (50, 0, 0));
    // no credential: 25% confidence
    assert_eq!((m.confidence_bps, m.final_score), (2_500, 12));
}

#[test]
fn replayed_event_is_refused() {
    let mut c = ready();
    c.record_activity(0, REPORTER, SUBJECT, [1; 32], 100).unwrap();
    assert_eq!(c.record_activity(0, REPORTER, SUBJECT, [1; 32], 10), Err(Error::EventAlreadyProcessed));
}

#[test]
fn reporters_are_rate_limited_per_epoch() {
    let mut c = ready();
    c.record_activity(0, REPORTER, SUBJECT, [1; 32], 100).unwrap();
    assert_eq!(c.record_activity(10, REPORTER, SUBJECT, [2; 32], 60), Err(Error::RateLimitExceeded));
    assert_eq!(c.record_activity(10, REPORTER, SUBJECT, [2; 32], 101), Err(Error::InvalidPoints));
    assert_eq!(c.record_activity(10, REPORTER, SUBJECT, [2; 32], 0), Err(Error::InvalidPoints));
    // a new epoch starts a new budget; the score decayed by 10% first
    assert_eq!(c.record_activity(100, REPORTER, SUBJECT, [2; 32], 60), Ok(75));
}

#[test]
fn scores_decay_each_epoch_and_never_go_negative() {
    let mut c = ready();
    c.record_activity(0, REPORTER, SUBJECT, [1; 32], 100).unwrap();
    assert_eq!(c.get_score(100, SUBJECT).unwrap().activity_score, 45);
    assert_eq!(c.get_score(250, SUBJECT).unwrap().activity_score, 40);
    // three epochs later 36 remain, and a -100 report at half weight floors it at 0
    assert_eq!(c.record_activity(300, REPORTER, SUBJECT, [3; 32], -100), Ok(0));
}

#[test]
fn credentials_add_weight_and_confidence() {
    let mut c = ready();
    c.record_activity(0, REPORTER, SUBJECT, [1; 32], 100).unwrap();
    c.issue_credential(0, ISSUER, SUBJECT, b"kyc".to_vec(), 300, 10_000).unwrap();
    assert_eq!(
        c.issue_credential(0, ISSUER, SUBJECT, b"kyc".to_vec(), 300, 10_000),
        Err(Error::CredentialAlreadyActive)
    );
    let m = c.get_score(0, SUBJECT).unwrap();
    assert_eq!((m.credential_score, m.active_credentials, m.confidence_bps), (300, 1, 6_000));
    assert_eq!(m.final_score, 210);
    // expired credentials no longer count
    assert_eq!(c.get_score(10_000, SUBJECT).unwrap().active_credentials, 0);
    c.revoke_credential(ISSUER, SUBJECT).unwrap();
    assert_eq!(c.get_score(0, SUBJECT).unwrap().credential_score, 0);
    assert_eq!(c.revoke_credential(ISSUER, SUBJECT), Err(Error::CredentialNotFound));
}

#[test]
fn registration_and_setup_checks() {
    let mut c = ready();
    assert_eq!(c.register(0, SUBJECT), Err(Error::AlreadyRegistered));
    assert!(c.is_registered(SUBJECT));
    assert_eq!(c.get_score(0, 99), Err(Error::SubjectNotFound));
    assert_eq!(c.record_activity(0, 77, SUBJECT, [9; 32], 10), Err(Error::ReporterNotFound));
    let bad = ReporterConfig { active: true, weight_bps: 0, max_points_per_event: 1, max_points_per_epoch: 1 };
    assert_eq!(c.set_reporter(REPORTER, bad), Err(Error::InvalidConfig));
    let scores = c.get_scores(0, &vec![SUBJECT, SUBJECT]).unwrap();
    assert_eq!(scores.len(), 2);
    assert_eq!(c.get_scores(0, &vec![SUBJECT; 21]), Err(Error::BatchLimitExceeded));
}
