use soroban_playground::loan_syndication::{
    gcd, mul_div_floor, parse_tranche, position_claim, total_due, tranche_due, validate_amount, validate_terms,
    Error, Loan, LoanStatus, LoanSyndication, Tranche, TranchePosition,
};

const ADMIN: u64 = 1;
const BORROWER: u64 = 2;
const ASSET: u64 = 3;
const SENIOR_LENDER: u64 = 4;
const JUNIOR_LENDER: u64 = 5;
const NOW: u64 = 1_000;

fn loan(repaid: i128, status: LoanStatus) -> Loan {
    Loan {
        id: 1,
        borrower: BORROWER,
        asset: ASSET,
        status,
        principal_target: 1_000,
        senior_target: 600,
        junior_target: 400,
        senior_funded: 600,
        junior_funded: 400,
        senior_yield_bps: 500,
        junior_yield_bps: 1_000,
        funding_deadline: NOW + 100,
        maturity: NOW + 1_000,
        grace_period: 0,
        repaid,
        total_claimed: 0,
        created_at: NOW,
    }
}

#[test]
fn gcd_of_small_numbers() {
    assert_eq!(gcd(12, 18), 6);
    assert_eq!(gcd(0, 7), 7);
    assert_eq!(gcd(7, 0), 7);
    assert_eq!(gcd(17, 5), 1);
}

#[test]
fn mul_div_floor_rounds_down_without_overflowing() {
    assert_eq!(mul_div_floor(7, 3, 2), Ok(10));
    assert_eq!(mul_div_floor(i128::MAX, 10, 20), Ok(i128::MAX / 2));
    assert_eq!(mul_div_floor(1, 1, 0), Err(Error::InvalidAmount));
    assert_eq!(mul_div_floor(-1, 1, 1), Err(Error::InvalidAmount));
    assert_eq!(mul_div_floor(i128::MAX, 3, 1), Err(Error::ArithmeticOverflow));
}

#[test]
fn amounts_and_tranches_are_validated() {
    assert_eq!(validate_amount(1), Ok(()));
    assert_eq!(validate_amount(0), Err(Error::InvalidAmount));
    assert_eq!(parse_tranche(0), Ok(Tranche::Senior));
    assert_eq!(parse_tranche(1), Ok(Tranche::Junior));
    assert_eq!(parse_tranche(2), Err(Error::InvalidTranche));
    assert_eq!(validate_terms(NOW, 1_000, 600, 500, 1_000, NOW + 100, NOW + 1_000, 0), Ok(()));
    // junior must earn at least the senior yield
    assert_eq!(validate_terms(NOW, 1_000, 600, 1_000, 500, NOW + 100, NOW + 1_000, 0), Err(Error::InvalidTerms));
    // the senior tranche must leave room for a junior one
    assert_eq!(validate_terms(NOW, 1_000, 1_000, 500, 500, NOW + 100, NOW + 1_000, 0), Err(Error::InvalidTerms));
}

#[test]
fn dues_include_simple_interest() {
    assert_eq!(tranche_due(600, 500), Ok(630));
    assert_eq!(tranche_due(400, 1_000), Ok(440));
    assert_eq!(total_due(&loan(0, LoanStatus::Active)), Ok(1_070));
}

#[test]
fn senior_is_paid_before_junior() {
    // 700 repaid: senior takes its 630, junior the remaining 70.
    let l = loan(700, LoanStatus::Defaulted);
    let senior = TranchePosition { loan_id: 1, lender: SENIOR_LENDER, tranche: Tranche::Senior, principal: 600, claimed: 0 };
    let junior = TranchePosition { loan_id: 1, lender: JUNIOR_LENDER, tranche: Tranche::Junior, principal: 400, claimed: 0 };
    assert_eq!(position_claim(&l, &senior), Ok(630));
    assert_eq!(position_claim(&l, &junior), Ok(70));
    let half = TranchePosition { principal: 200, claimed: 10, ..junior };
    // 70 * 200 / 400 = 35, less the 10 already claimed
    assert_eq!(position_claim(&l, &half), Ok(25));
}

#[test]
fn full_loan_lifecycle() {
    let mut c = LoanSyndication::new();
    c.initialize(ADMIN).unwrap();
    let id = c.create_loan(NOW, BORROWER, ASSET, 1_000, 600, 500, 1_000, NOW + 100, NOW + 1_000, 0).unwrap();
    assert_eq!(id, 1);
    assert_eq!(c.fund(NOW, SENIOR_LENDER, id, 0, 601), Err(Error::TrancheCapacityExceeded));
    c.fund(NOW, SENIOR_LENDER, id, 0, 600).unwrap();
    assert_eq!(c.drawdown(NOW + 1, id).err(), Some(Error::LoanNotFunded));
    c.fund(NOW, JUNIOR_LENDER, id, 1, 400).unwrap();
    let t = c.drawdown(NOW + 1, id).unwrap();
    assert_eq!((t.to, t.amount), (BORROWER, 1_000));
    assert_eq!(c.loan_total_due(id), Ok(1_070));
    assert_eq!(c.claim(SENIOR_LENDER, id, 0), Err(Error::InvalidLoanStatus));
    c.repay(BORROWER, id, 1_070).unwrap();
    assert_eq!(c.get_loan(id).unwrap().status, LoanStatus::Repaid);
    assert_eq!(c.calculate_claim(id, SENIOR_LENDER, 0), Ok(630));
    assert_eq!(c.claim(SENIOR_LENDER, id, 0), Ok(630));
    assert_eq!(c.claim(JUNIOR_LENDER, id, 1), Ok(440));
    assert_eq!(c.claim(JUNIOR_LENDER, id, 1), Err(Error::NothingToClaim));
    assert_eq!(c.get_position(id, SENIOR_LENDER, 0).unwrap().claimed, 630);
}

#[test]
fn paused_syndicate_refuses_funding() {
    let mut c = LoanSyndication::new();
    c.initialize(ADMIN).unwrap();
    let id = c.create_loan(NOW, BORROWER, ASSET, 1_000, 600, 500, 1_000, NOW + 100, NOW + 1_000, 0).unwrap();
    c.pause().unwrap();
    assert!(c.is_paused());
    assert_eq!(c.fund(NOW, SENIOR_LENDER, id, 0, 10), Err(Error::ContractPaused));
    c.unpause().unwrap();
    c.fund(NOW, SENIOR_LENDER, id, 0, 10).unwrap();
    assert_eq!(c.fund(NOW + 100, SENIOR_LENDER, id, 0, 10), Err(Error::FundingClosed));
}
