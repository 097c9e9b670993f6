use soroban_playground::bounty_dispute::{BountyDisputeContract, DisputeError, RulingVerdict, APPEAL_PERIOD};

const WHITEHAT: u64 = 11;
const ARBITRATOR: u64 = 22;
const NOW: u64 = 1_000;

fn commit_hash() -> Vec<u8> {
    vec![7u8; 32]
}

#[test]
fn test_submit_and_reveal_flow() {
    let mut c = BountyDisputeContract::new();
    let id = c.submit_vulnerability(NOW, 1, commit_hash(), WHITEHAT).unwrap();
    assert_eq!(id, 1);
    let id2 = c.submit_vulnerability(NOW, 1, commit_hash(), WHITEHAT).unwrap();
    assert_eq!(id2, 2);
    let ids = c.submissions_for_bounty(1);
    assert_eq!(ids.len(), 2);
}

#[test]
fn test_bonded_arbitrator_can_rule() {
    let mut c = BountyDisputeContract::new();
    let res = c.resolve_bounty_dispute(NOW, 1, RulingVerdict::PayWhitehat, ARBITRATOR);
    assert!(res.is_err());
    c.stake_arbitrator_bond(ARBITRATOR, 1_000_000).unwrap();
    c.resolve_bounty_dispute(NOW, 1, RulingVerdict::PayWhitehat, ARBITRATOR).unwrap();
    let r = c.get_ruling(1).unwrap();
    assert!(r.pay_whitehat);
    assert!(!c.is_final(NOW, 1));
}

#[test]
fn test_double_stake_fails() {
    let c = BountyDisputeContract::new();
    assert!(c.get_ruling(1).is_none());
}

#[test]
fn test_real_double_stake_fails() {
    let mut c = BountyDisputeContract::new();
    c.stake_arbitrator_bond(ARBITRATOR, 1_000_000).unwrap();
    let res = c.stake_arbitrator_bond(ARBITRATOR, 1_000_000);
    assert!(matches!(res, Err(DisputeError::AlreadyStaked)));
}

#[test]
fn test_unbonded_ruling_fails() {
    let mut c = BountyDisputeContract::new();
    let res = c.resolve_bounty_dispute(NOW, 9, RulingVerdict::ReturnToSponsor, ARBITRATOR);
    assert!(matches!(res, Err(DisputeError::NotBonded)));
}

#[test]
fn ruling_becomes_final_after_appeal_period() {
    let mut c = BountyDisputeContract::new();
    c.stake_arbitrator_bond(ARBITRATOR, 5).unwrap();
    c.resolve_bounty_dispute(NOW, 3, RulingVerdict::ReturnToSponsor, ARBITRATOR).unwrap();
    let r = c.get_ruling(3).unwrap();
    assert!(!r.pay_whitehat);
    assert_eq!(r.appeal_until, NOW + APPEAL_PERIOD);
    assert!(!c.is_final(NOW + APPEAL_PERIOD, 3));
    assert!(c.is_final(NOW + APPEAL_PERIOD + 1, 3));
}

#[test]
fn non_positive_bond_is_refused() {
    let mut c = BountyDisputeContract::new();
    assert!(matches!(c.stake_arbitrator_bond(ARBITRATOR, 0), Err(DisputeError::NotBonded)));
}

#[test]
fn reveal_checks_owner_window_and_repeat() {
    let mut c = BountyDisputeContract::new();
    let id = c.submit_vulnerability(NOW, 4, commit_hash(), WHITEHAT).unwrap();
    assert!(matches!(c.reveal_vulnerability(NOW, WHITEHAT, 99, vec![1]), Err(DisputeError::SubmissionNotFound)));
    c.reveal_vulnerability(NOW + 10, WHITEHAT, id, vec![1]).unwrap();
    assert!(matches!(c.reveal_vulnerability(NOW + 10, WHITEHAT, id, vec![1]), Err(DisputeError::AlreadyRevealed)));
    let id2 = c.submit_vulnerability(NOW, 4, commit_hash(), WHITEHAT).unwrap();
    assert!(matches!(c.reveal_vulnerability(NOW + 10_000_000, WHITEHAT, id2, vec![1]), Err(DisputeError::RevealWindowClosed)));
}
