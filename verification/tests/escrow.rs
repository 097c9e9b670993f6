use sha2::{Digest, Sha256};
use soroban_sdk::Env;
use soroban_playground::escrow::{
    AtomicSwapStatus, Custody, Error, EscrowStatus, FreelancerEscrow, MilestoneStatus, SwapTransfer,
};

const ADMIN: u64 = 1;
const MAKER: u64 = 2;
const TAKER: u64 = 3;
const TOKEN_A: u64 = 10;
const TOKEN_B: u64 = 11;
const NOW: u64 = 1_000_000;

fn hashlock(preimage: &[u8]) -> [u8; 32] {
    let d = Sha256::digest(preimage);
    let mut h = [0u8; 32];
    h.copy_from_slice(&d);
    h
}

fn ready() -> FreelancerEscrow {
    let mut c = FreelancerEscrow::new();
    c.initialize(ADMIN, 250).unwrap();
    c
}

fn open_swap(c: &mut FreelancerEscrow) -> u64 {
    c.create_atomic_swap(NOW, MAKER, TAKER, TOKEN_A, 100, TOKEN_B, 200, hashlock(b"secret-preimage"), NOW + 3_600)
        .unwrap()
        .0
}

#[test]
fn initialize_twice_is_refused() {
    let mut c = ready();
    assert_eq!(c.initialize(ADMIN, 250), Err(Error::AlreadyInitialized));
    let mut d = FreelancerEscrow::new();
    assert_eq!(d.initialize(ADMIN, 10_001), Err(Error::InvalidFeeBps));
}

#[test]
fn swap_claim_with_matching_preimage() {
    let mut c = ready();
    let id = open_swap(&mut c);
    assert_eq!(id, 1);
    c.fund_atomic_swap(NOW + 1, id, TAKER).unwrap();
    c.claim_atomic_swap(&Env::default(), NOW + 2, id, b"secret-preimage".to_vec()).unwrap();
    let s = c.get_atomic_swap(id).unwrap();
    assert_eq!(s.status, AtomicSwapStatus::Claimed);
    assert_eq!(s.revealed_preimage, Some(b"secret-preimage".to_vec()));
    assert_eq!(s.settled_at, Some(NOW + 2));
    let stats = c.get_atomic_swap_stats().unwrap();
    assert_eq!((stats.total, stats.active, stats.claimed), (1, 0, 1));
}

#[test]
fn swap_claim_with_wrong_preimage_is_refused() {
    let mut c = ready();
    let id = open_swap(&mut c);
    c.fund_atomic_swap(NOW + 1, id, TAKER).unwrap();
    assert_eq!(c.claim_atomic_swap(&Env::default(), NOW + 2, id, b"guess".to_vec()), Err(Error::InvalidPreimage));
    let digest = hashlock(b"secret-preimage");
    assert_eq!(c.claim_atomic_swap(&Env::default(), NOW + 2, id, digest.to_vec()), Err(Error::InvalidPreimage));
    assert_eq!(c.get_atomic_swap(id).unwrap().status, AtomicSwapStatus::Funded);
}

#[test]
fn settled_swap_cannot_be_claimed_or_refunded_again() {
    let mut c = ready();
    let id = open_swap(&mut c);
    c.fund_atomic_swap(NOW + 1, id, TAKER).unwrap();
    c.claim_atomic_swap(&Env::default(), NOW + 2, id, b"secret-preimage".to_vec()).unwrap();
    assert_eq!(c.claim_atomic_swap(&Env::default(), NOW + 3, id, b"secret-preimage".to_vec()), Err(Error::InvalidState));
    assert_eq!(c.refund_atomic_swap(NOW + 10_000, id), Err(Error::InvalidState));
}

#[test]
fn swap_refund_only_after_expiry() {
    let mut c = ready();
    let id = open_swap(&mut c);
    assert_eq!(c.refund_atomic_swap(NOW + 10, id), Err(Error::SwapNotExpired));
    c.refund_atomic_swap(NOW + 3_600, id).unwrap();
    assert_eq!(c.get_atomic_swap(id).unwrap().status, AtomicSwapStatus::Refunded);
}

#[test]
fn swap_cancel_by_maker_before_funding() {
    let mut c = ready();
    let id = open_swap(&mut c);
    assert_eq!(c.cancel_atomic_swap(NOW + 1, id, TAKER), Err(Error::Unauthorized));
    c.cancel_atomic_swap(NOW + 1, id, MAKER).unwrap();
    assert_eq!(c.get_atomic_swap(id).unwrap().status, AtomicSwapStatus::Cancelled);
    assert_eq!(c.fund_atomic_swap(NOW + 2, id, TAKER), Err(Error::InvalidState));
}

#[test]
fn swap_creation_checks() {
    let mut c = ready();
    let h = hashlock(b"x");
    assert_eq!(c.create_atomic_swap(NOW, MAKER, MAKER, TOKEN_A, 1, TOKEN_B, 1, h, NOW + 60), Err(Error::InvalidSwap));
    assert_eq!(c.create_atomic_swap(NOW, MAKER, TAKER, TOKEN_A, 1, TOKEN_A, 1, h, NOW + 60), Err(Error::SameAsset));
    assert_eq!(c.create_atomic_swap(NOW, MAKER, TAKER, TOKEN_A, 0, TOKEN_B, 1, h, NOW + 60), Err(Error::InvalidAmount));
    assert_eq!(
        c.create_atomic_swap(NOW, MAKER, TAKER, TOKEN_A, 1, TOKEN_B, 1, h, NOW + 59),
        Err(Error::TimelockOutOfRange)
    );
    assert_eq!(
        c.create_atomic_swap(NOW, MAKER, TAKER, TOKEN_A, 1, TOKEN_B, 1, [0u8; 32], NOW + 60),
        Err(Error::InvalidHashlock)
    );
    let mut u = FreelancerEscrow::new();
    assert_eq!(u.create_atomic_swap(NOW, MAKER, TAKER, TOKEN_A, 1, TOKEN_B, 1, h, NOW + 60), Err(Error::NotInitialized));
}

#[test]
fn milestone_escrow_pays_out_and_completes() {
    let mut c = ready();
    let id = c.create_escrow(NOW, MAKER, TAKER, ADMIN, 1_000, &vec![400, 600]).unwrap();
    assert_eq!(id, 1);
    c.deposit(id, MAKER).unwrap();
    c.submit_milestone(id, TAKER, 1).unwrap();
    c.approve_milestone(id, MAKER, 1).unwrap();
    // 400 less a 2.5% arbiter fee
    assert_eq!(c.release_payment(id, MAKER, 1).unwrap(), 390);
    assert_eq!(c.get_milestone(id, 1).unwrap().status, MilestoneStatus::Paid);
    c.submit_milestone(id, TAKER, 2).unwrap();
    c.approve_milestone(id, MAKER, 2).unwrap();
    assert_eq!(c.release_payment(id, MAKER, 2).unwrap(), 585);
    let e = c.get_escrow(id).unwrap();
    assert_eq!(e.paid_amount, 1_000);
    assert_eq!(e.status, EscrowStatus::Completed);
}

#[test]
fn milestone_amounts_must_add_up() {
    let mut c = ready();
    assert_eq!(c.create_escrow(NOW, MAKER, TAKER, ADMIN, 1_000, &vec![400, 500]), Err(Error::InvalidAmount));
    assert_eq!(c.create_escrow(NOW, MAKER, TAKER, ADMIN, 1_000, &vec![]), Err(Error::NoMilestones));
    assert_eq!(c.create_escrow(NOW, MAKER, TAKER, ADMIN, 21, &vec![1; 21]), Err(Error::TooManyMilestones));
}

fn leg(direction: Custody, token: u64, account: u64, amount: i128) -> SwapTransfer {
    SwapTransfer { direction, token, account, amount }
}

#[test]
fn swap_calls_return_their_token_movements() {
    let mut c = ready();
    let opened =
        c.create_atomic_swap(NOW, MAKER, TAKER, TOKEN_A, 100, TOKEN_B, 200, hashlock(b"secret-preimage"), NOW + 3_600);
    assert_eq!(opened, Ok((1, leg(Custody::Lock, TOKEN_A, MAKER, 100))));
    assert_eq!(c.fund_atomic_swap(NOW + 1, 1, TAKER), Ok(leg(Custody::Lock, TOKEN_B, TAKER, 200)));
    assert_eq!(
        c.claim_atomic_swap(&Env::default(), NOW + 2, 1, b"secret-preimage".to_vec()),
        Ok((leg(Custody::Release, TOKEN_A, TAKER, 100), leg(Custody::Release, TOKEN_B, MAKER, 200)))
    );
}

#[test]
fn swap_refund_and_cancel_return_locked_legs() {
    let mut c = ready();
    let unfunded = open_swap(&mut c);
    let funded = open_swap(&mut c);
    let cancelled = open_swap(&mut c);
    c.fund_atomic_swap(NOW + 1, funded, TAKER).unwrap();
    assert_eq!(c.cancel_atomic_swap(NOW + 1, cancelled, MAKER), Ok(leg(Custody::Release, TOKEN_A, MAKER, 100)));
    assert_eq!(c.refund_atomic_swap(NOW + 3_600, unfunded), Ok(vec![leg(Custody::Release, TOKEN_A, MAKER, 100)]));
    assert_eq!(
        c.refund_atomic_swap(NOW + 3_600, funded),
        Ok(vec![leg(Custody::Release, TOKEN_A, MAKER, 100), leg(Custody::Release, TOKEN_B, TAKER, 200)])
    );
}
