use soroban_playground::patent_registry::{
    DisputeStatus, Error, EscrowStatus, LicenseType, MilestoneStatus, PatentRegistryContract, PatentStatus,
};

const ADMIN: u64 = 1;
const INVENTOR: u64 = 2;
const LICENSEE: u64 = 3;
const STRANGER: u64 = 4;
const NOW: u64 = 5_000;

fn text(s: &str) -> Vec<u8> {
    s.as_bytes().to_vec()
}

fn ready() -> PatentRegistryContract {
    let mut c = PatentRegistryContract::new();
    c.initialize(ADMIN).unwrap();
    c
}

/// An active patent licensed to the licensee, and an escrow of 1000 on it.
fn with_escrow() -> (PatentRegistryContract, u32, u32, u32) {
    let mut c = ready();
    let p = c.file_patent(NOW, INVENTOR, text("Widget"), text("A better widget"), NOW + 1_000_000).unwrap();
    c.activate_patent(ADMIN, p).unwrap();
    let l = c.grant_license(NOW, INVENTOR, p, LICENSEE, LicenseType::NonExclusive, 50, NOW + 500_000).unwrap();
    let e = c.create_escrow(NOW, LICENSEE, p, l, 1_000).unwrap();
    (c, p, l, e)
}

#[test]
fn initialize_once() {
    let mut c = ready();
    assert_eq!(c.initialize(ADMIN), Err(Error::AlreadyInitialized));
    assert_eq!(c.get_admin(), Ok(ADMIN));
    assert_eq!(PatentRegistryContract::new().get_admin(), Err(Error::NotInitialized));
}

#[test]
fn filed_patent_is_pending_until_activated() {
    let mut c = ready();
    let id = c.file_patent(NOW, INVENTOR, text("Widget"), text("desc"), 99).unwrap();
    assert_eq!(id, 1);
    assert_eq!(c.get_patent_count(), 1);
    let p = c.get_patent(id).unwrap();
    assert_eq!(p.status, PatentStatus::Pending);
    assert_eq!((p.owner, p.filing_date, p.expiry_date, p.license_count), (INVENTOR, NOW, 99, 0));
    assert_eq!(c.activate_patent(STRANGER, id), Err(Error::Unauthorized));
    c.activate_patent(ADMIN, id).unwrap();
    assert_eq!(c.get_patent(id).unwrap().status, PatentStatus::Active);
    assert_eq!(c.activate_patent(ADMIN, id), Err(Error::InvalidStatus));
    c.revoke_patent(ADMIN, id).unwrap();
    assert_eq!(c.get_patent(id).unwrap().status, PatentStatus::Revoked);
    assert_eq!(c.revoke_patent(ADMIN, id), Err(Error::InvalidStatus));
    assert_eq!(c.activate_patent(ADMIN, 42), Err(Error::PatentNotFound));
}

#[test]
fn filing_needs_title_and_description() {
    let mut c = ready();
    assert_eq!(c.file_patent(NOW, INVENTOR, text(""), text("d"), 1), Err(Error::EmptyField));
    assert_eq!(c.file_patent(NOW, INVENTOR, text("t"), text(""), 1), Err(Error::EmptyField));
    assert_eq!(c.get_patent_count(), 0);
}

#[test]
fn transfer_and_license_need_the_owner_of_an_active_patent() {
    let mut c = ready();
    let id = c.file_patent(NOW, INVENTOR, text("Widget"), text("desc"), 99).unwrap();
    assert_eq!(c.transfer_patent(INVENTOR, id, STRANGER), Err(Error::InvalidStatus));
    c.activate_patent(ADMIN, id).unwrap();
    assert_eq!(c.transfer_patent(STRANGER, id, STRANGER), Err(Error::NotOwner));
    assert_eq!(
        c.grant_license(NOW, INVENTOR, id, LICENSEE, LicenseType::Exclusive, -1, 9),
        Err(Error::InvalidFee)
    );
    let l = c.grant_license(NOW, INVENTOR, id, LICENSEE, LicenseType::Exclusive, 10, 9).unwrap();
    assert_eq!(l, 1);
    let lic = c.get_license(l).unwrap();
    assert_eq!((lic.patent_id, lic.licensee, lic.fee, lic.granted_date), (id, LICENSEE, 10, NOW));
    assert_eq!(c.get_patent(id).unwrap().license_count, 1);
    c.transfer_patent(INVENTOR, id, STRANGER).unwrap();
    assert_eq!(c.get_patent(id).unwrap().owner, STRANGER);
    assert_eq!(c.get_patent(id).unwrap().license_count, 1);
    assert_eq!(c.get_license(9), Err(Error::LicenseNotFound));
}

#[test]
fn dispute_is_resolved_once() {
    let mut c = ready();
    let id = c.file_patent(NOW, INVENTOR, text("Widget"), text("desc"), 99).unwrap();
    assert_eq!(c.file_dispute(NOW, STRANGER, 77, text("prior art")), Err(Error::PatentNotFound));
    assert_eq!(c.file_dispute(NOW, STRANGER, id, text("")), Err(Error::EmptyField));
    let d = c.file_dispute(NOW, STRANGER, id, text("prior art")).unwrap();
    assert_eq!(c.get_dispute(d).unwrap().status, DisputeStatus::Open);
    assert!(c.get_dispute(d).unwrap().resolution.is_empty());
    assert_eq!(c.resolve_dispute(ADMIN, d, text("")), Err(Error::EmptyField));
    c.resolve_dispute(ADMIN, d, text("dismissed")).unwrap();
    let r = c.get_dispute(d).unwrap();
    assert_eq!(r.status, DisputeStatus::Resolved);
    assert_eq!(r.resolution, text("dismissed"));
    assert_eq!(c.resolve_dispute(ADMIN, d, text("again")), Err(Error::DisputeAlreadyResolved));
    assert_eq!(c.get_dispute_count(), 1);
}

#[test]
fn pause_stops_every_change_until_resumed() {
    let (mut c, p, l, e) = with_escrow();
    assert_eq!(c.pause(STRANGER), Err(Error::Unauthorized));
    c.pause(ADMIN).unwrap();
    assert!(c.is_paused());
    assert_eq!(c.file_patent(NOW, INVENTOR, text("t"), text("d"), 1), Err(Error::Paused));
    assert_eq!(c.transfer_patent(INVENTOR, p, STRANGER), Err(Error::Paused));
    assert_eq!(c.create_escrow(NOW, LICENSEE, p, l, 5), Err(Error::Paused));
    assert_eq!(c.fund_escrow(LICENSEE, e), Err(Error::Paused));
    assert_eq!(c.refund_escrow(ADMIN, e), Err(Error::Paused));
    c.unpause(ADMIN).unwrap();
    assert!(!c.is_paused());
    c.fund_escrow(LICENSEE, e).unwrap();
}

#[test]
fn escrow_needs_the_licensee_and_a_positive_total() {
    let (mut c, p, l, _) = with_escrow();
    assert_eq!(c.create_escrow(NOW, LICENSEE, p, l, 0), Err(Error::InvalidFee));
    assert_eq!(c.create_escrow(NOW, STRANGER, p, l, 10), Err(Error::Unauthorized));
    assert_eq!(c.create_escrow(NOW, LICENSEE, p, 99, 10), Err(Error::LicenseNotFound));
    let esc = c.get_escrow(1).unwrap();
    assert_eq!((esc.payer, esc.payee, esc.total_amount), (LICENSEE, INVENTOR, 1_000));
    assert_eq!((esc.deposited_amount, esc.released_amount, esc.status), (0, 0, EscrowStatus::Funded));
}

#[test]
fn funding_deposits_the_total_once() {
    let (mut c, _, _, e) = with_escrow();
    assert_eq!(c.fund_escrow(STRANGER, e), Err(Error::Unauthorized));
    c.fund_escrow(LICENSEE, e).unwrap();
    assert_eq!(c.get_escrow(e).unwrap().deposited_amount, 1_000);
    assert_eq!(c.fund_escrow(LICENSEE, e), Err(Error::AlreadyExists));
}

#[test]
fn milestones_release_payment_and_complete_the_escrow() {
    let (mut c, _, _, e) = with_escrow();
    c.fund_escrow(LICENSEE, e).unwrap();
    assert_eq!(c.add_milestone(STRANGER, e, text("m"), 10, 1), Err(Error::Unauthorized));
    assert_eq!(c.add_milestone(INVENTOR, e, text("m"), 0, 1), Err(Error::InvalidFee));
    assert_eq!(c.add_milestone(INVENTOR, e, text("m"), 1_001, 1), Err(Error::InsufficientDeposit));
    let m1 = c.add_milestone(INVENTOR, e, text("prototype"), 400, NOW + 10).unwrap();
    let m2 = c.add_milestone(INVENTOR, e, text("delivery"), 600, NOW + 20).unwrap();
    assert_eq!((m1, m2), (1, 2));
    assert_eq!(c.get_escrow(e).unwrap().milestone_count, 2);
    assert_eq!(c.verify_and_release(NOW, INVENTOR, m1), Err(Error::InvalidMilestoneStatus));
    c.complete_milestone(NOW + 1, LICENSEE, m1).unwrap();
    assert_eq!(c.get_milestone(m1).unwrap().completed_at, Some(NOW + 1));
    c.verify_and_release(NOW + 2, INVENTOR, m1).unwrap();
    let esc = c.get_escrow(e).unwrap();
    assert_eq!((esc.released_amount, esc.status), (400, EscrowStatus::PartiallyReleased));
    assert_eq!(c.verify_and_release(NOW + 3, INVENTOR, m1), Err(Error::InvalidMilestoneStatus));
    c.complete_milestone(NOW + 4, LICENSEE, m2).unwrap();
    c.verify_and_release(NOW + 5, INVENTOR, m2).unwrap();
    let esc = c.get_escrow(e).unwrap();
    assert_eq!((esc.released_amount, esc.status), (1_000, EscrowStatus::FullyReleased));
    assert_eq!(c.get_milestone(m2).unwrap().status, MilestoneStatus::Verified);
    assert_eq!(c.refund_escrow(ADMIN, e), Err(Error::EscrowAlreadyReleased));
}

#[test]
fn rejected_milestone_and_refund() {
    let (mut c, _, _, e) = with_escrow();
    c.fund_escrow(LICENSEE, e).unwrap();
    let m = c.add_milestone(INVENTOR, e, text("prototype"), 300, NOW + 10).unwrap();
    c.complete_milestone(NOW + 1, LICENSEE, m).unwrap();
    assert_eq!(c.reject_milestone(LICENSEE, m), Err(Error::Unauthorized));
    c.reject_milestone(INVENTOR, m).unwrap();
    assert_eq!(c.get_milestone(m).unwrap().status, MilestoneStatus::Rejected);
    assert_eq!(c.refund_escrow(STRANGER, e), Err(Error::Unauthorized));
    assert_eq!(c.refund_escrow(ADMIN, e), Ok(1_000));
    let esc = c.get_escrow(e).unwrap();
    assert_eq!((esc.released_amount, esc.status), (1_000, EscrowStatus::Refunded));
    assert_eq!(c.refund_escrow(ADMIN, e), Err(Error::EscrowAlreadyReleased));
    assert_eq!(c.refund_escrow(ADMIN, 9), Err(Error::EscrowNotFound));
}

#[test]
fn milestone_lookups_fail_for_unknown_ids() {
    let (mut c, _, _, _) = with_escrow();
    assert_eq!(c.complete_milestone(NOW, LICENSEE, 5), Err(Error::MilestoneNotFound));
    assert!(c.get_milestone(5).is_err());
    assert_eq!(c.get_milestone_count(), 0);
    assert_eq!(c.get_escrow_count(), 1);
}
