use soroban_playground::vesting::{TokenVestingContract, VestingError};

const ADMIN: u64 = 1;
const TOKEN: u64 = 2;
const ALICE: u64 = 3;

fn ready() -> TokenVestingContract {
    let mut c = TokenVestingContract::new();
    c.initialize(ADMIN, TOKEN).unwrap();
    // 1200 over 1200 seconds from t=1000, with a 100-second cliff
    c.create_schedule(ALICE, 1_200, 1_000, 100, 1_200).unwrap();
    c
}

#[test]
fn nothing_vests_before_the_cliff() {
    let mut c = ready();
    assert_eq!(c.claimable_amount(1_050, ALICE), 0);
    assert_eq!(c.claim(1_050, ALICE), Err(VestingError::NoTokensToClaim));
}

#[test]
fn linear_vesting_and_claims() {
    let mut c = ready();
    assert_eq!(c.claimable_amount(1_300, ALICE), 300);
    assert_eq!(c.claim(1_300, ALICE), Ok(300));
    assert_eq!(c.claimable_amount(1_300, ALICE), 0);
    assert_eq!(c.claim(1_300, ALICE), Err(VestingError::NoTokensToClaim));
    assert_eq!(c.claimable_amount(1_600, ALICE), 300);
    assert_eq!(c.claimable_amount(5_000, ALICE), 900);
    assert_eq!(c.claim(5_000, ALICE), Ok(900));
}

#[test]
fn schedules_are_checked() {
    let mut c = ready();
    assert_eq!(c.create_schedule(ALICE, 10, 0, 0, 10), Err(VestingError::ScheduleExists));
    assert_eq!(c.create_schedule(9, 0, 0, 0, 10), Err(VestingError::InvalidSchedule));
    assert_eq!(c.claim(1_300, 9), Err(VestingError::NoTokensToClaim));
    assert_eq!(c.initialize(ADMIN, TOKEN), Err(VestingError::AlreadyInitialized));
}

#[test]
fn milestones_unlock_once() {
    let mut c = ready();
    c.add_milestone(ALICE, 1, 2_500).unwrap();
    c.unlock_milestone(ALICE, 1).unwrap();
    assert_eq!(c.unlock_milestone(ALICE, 1), Err(VestingError::MilestoneAlreadyUnlocked));
    assert_eq!(c.unlock_milestone(ALICE, 2), Err(VestingError::MilestoneNotFound));
}
