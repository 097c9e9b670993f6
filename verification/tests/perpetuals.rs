//! The perpetuals scenarios, driven through a small client that plays the
//! host's part: it keeps the ledger clock and hands out fresh addresses.

use std::cell::{Cell, RefCell};
use std::rc::Rc;

use soroban_playground::common::Address;
use soroban_playground::perpetuals::{
    Error, FundingRate, FundingSettlement, Perpetuals, Position, FUNDING_PERIOD_SECS, MAX_FUNDING_RATE_BPS,
};

#[derive(Clone)]
struct TestEnv {
    time: Rc<Cell<u64>>,
    next_address: Rc<Cell<u64>>,
}

impl TestEnv {
    fn default() -> TestEnv {
        TestEnv { time: Rc::new(Cell::new(1_000)), next_address: Rc::new(Cell::new(100)) }
    }
    fn ledger(&self) -> &TestEnv {
        self
    }
    fn timestamp(&self) -> u64 {
        self.time.get()
    }
    fn with_mut(&self, f: impl FnOnce(&mut LedgerInfo)) {
        let mut l = LedgerInfo { timestamp: self.time.get() };
        f(&mut l);
        self.time.set(l.timestamp);
    }
}

struct LedgerInfo {
    timestamp: u64,
}

trait Generate {
    fn generate(env: &TestEnv) -> Self;
}

impl Generate for Address {
    fn generate(env: &TestEnv) -> Address {
        let a = env.next_address.get();
        env.next_address.set(a + 1);
        a
    }
}

trait FromText {
    fn from_str(env: &TestEnv, s: &str) -> Self;
}

impl FromText for Vec<u8> {
    fn from_str(_env: &TestEnv, s: &str) -> Vec<u8> {
        s.as_bytes().to_vec()
    }
}

type Res<T> = Result<T, Result<Error, ()>>;

impl TestEnv {
    fn set_timestamp(&self, t: u64) {
        self.time.set(t);
    }
}

struct PerpetualsClient {
    env: TestEnv,
    c: RefCell<Perpetuals>,
}

impl PerpetualsClient {
    fn new(env: &TestEnv) -> PerpetualsClient {
        PerpetualsClient { env: env.clone(), c: RefCell::new(Perpetuals::new()) }
    }
    fn now(&self) -> u64 {
        self.env.time.get()
    }
    fn try_initialize(&self, admin: &Address, rx: &i128, ry: &i128, idx: &i128) -> Res<()> {
        let now = self.now();
        self.c.borrow_mut().initialize(now, *admin, *rx, *ry, *idx).map_err(Ok)
    }
    fn initialize(&self, admin: &Address, rx: &i128, ry: &i128, idx: &i128) {
        self.try_initialize(admin, rx, ry, idx).unwrap()
    }
    fn set_paused(&self, admin: &Address, paused: &bool) {
        self.c.borrow_mut().set_paused(*admin, *paused).unwrap()
    }
    fn mark_price(&self) -> i128 {
        self.c.borrow().mark_price().unwrap()
    }
    fn update_index_price(&self, admin: &Address, price: &i128) {
        let now = self.now();
        self.c.borrow_mut().update_index_price(now, *admin, *price).unwrap()
    }
    fn try_update_funding_rate(&self) -> Res<i32> {
        let now = self.now();
        self.c.borrow_mut().update_funding_rate(now).map_err(Ok)
    }
    fn update_funding_rate(&self) -> i32 {
        self.try_update_funding_rate().unwrap()
    }
    fn try_settle_funding(&self) -> Res<FundingSettlement> {
        let now = self.now();
        self.c.borrow_mut().settle_funding(now).map_err(Ok)
    }
    fn settle_funding(&self) -> FundingSettlement {
        self.try_settle_funding().unwrap()
    }
    fn try_open_position(&self, trader: &Address, long: &bool, size: &i128, leverage: &u32, collateral: &i128) -> Res<u64> {
        self.c.borrow_mut().open_position(*trader, *long, *size, *leverage, *collateral).map_err(Ok)
    }
    fn open_position(&self, trader: &Address, long: &bool, size: &i128, leverage: &u32, collateral: &i128) -> u64 {
        self.try_open_position(trader, long, size, leverage, collateral).unwrap()
    }
    fn close_position(&self, trader: &Address, id: &u64) -> i128 {
        self.c.borrow_mut().close_position(*trader, *id).unwrap()
    }
    fn get_position(&self, id: &u64) -> Position {
        self.c.borrow().get_position(*id).unwrap()
    }
    fn get_funding_rate(&self) -> FundingRate {
        self.c.borrow().get_funding_rate().unwrap()
    }
    fn position_count(&self) -> u64 {
        self.c.borrow().position_count()
    }
    fn is_paused(&self) -> bool {
        self.c.borrow().is_paused()
    }
    fn get_admin(&self) -> Address {
        self.c.borrow().get_admin().unwrap()
    }
}

/// 1 billion virtual units of each reserve → seed mark price ≈ 1.0
const RX: i128 = 1_000_000_000;
const RY: i128 = 1_000_000_000;
/// Index price at 7 decimal places (1.00 USD → 10_000_000)
const IDX: i128 = 10_000_000;

fn setup() -> (TestEnv, Address, PerpetualsClient) {
    let env = TestEnv::default();
    env.set_timestamp(0);
    let client = PerpetualsClient::new(&env);
    let admin = Address::generate(&env);
    client.initialize(&admin, &RX, &RY, &IDX);
    (env, admin, client)
}

#[test]
fn lib_test_initialize() {
    let (env, admin, client) = setup();
    assert_eq!(client.get_admin(), admin);
    assert!(!client.is_paused());
    assert_eq!(client.position_count(), 0);

    let fr = client.get_funding_rate();
    assert_eq!(fr.index_price, IDX);
    assert_eq!(fr.rate_bps, 0);
}

#[test]
fn test_double_initialize_fails() {
    let (_env, admin, client) = setup();
    let err = client.try_initialize(&admin, &RX, &RY, &IDX);
    assert_eq!(err, Err(Ok(Error::AlreadyInitialized)));
}

#[test]
fn test_vamm_mark_price_seed() {
    let (_env, _admin, client) = setup();
    // With equal reserves, mark ≈ 10_000_000 (7dp)
    let mp = client.mark_price();
    assert_eq!(mp, 10_000_000);
}

#[test]
fn test_open_long_moves_mark_up() {
    let (_env, _admin, client) = setup();
    let mp_before = client.mark_price();

    let trader = Address::generate(&_env);
    client.open_position(&trader, &true, &1_000_000, &5, &500_000);

    let mp_after = client.mark_price();
    assert!(mp_after > mp_before, "mark should rise after long");
}

#[test]
fn test_open_short_moves_mark_down() {
    let (_env, _admin, client) = setup();
    let mp_before = client.mark_price();

    let trader = Address::generate(&_env);
    client.open_position(&trader, &false, &1_000_000, &5, &500_000);

    let mp_after = client.mark_price();
    assert!(mp_after < mp_before, "mark should fall after short");
}

#[test]
fn test_close_long_returns_collateral_plus_pnl() {
    let (_env, _admin, client) = setup();
    let trader = Address::generate(&_env);

    let id = client.open_position(&trader, &true, &100_000, &5, &200_000);
    let net = client.close_position(&trader, &id);

    // Net settlement can be positive or negative; just assert it ran
    assert!(net != 0 || net == 0); // always true — smoke test
}

#[test]
fn test_update_funding_rate_not_due() {
    let (_env, _admin, client) = setup();
    // Immediately after init, funding period hasn't elapsed
    let err = client.try_update_funding_rate();
    assert_eq!(err, Err(Ok(Error::FundingNotDue)));
}

#[test]
fn test_update_funding_rate_after_period() {
    let (env, _admin, client) = setup();
    // Advance ledger by 8 hours + 1 second
    env.ledger().set_timestamp(FUNDING_PERIOD_SECS + 1);
    let rate = client.update_funding_rate();
    // With equal mark and index, rate should be 0
    assert_eq!(rate, 0);
}

#[test]
fn test_funding_rate_clamped() {
    let (env, admin, client) = setup();
    // Push index price far below mark to produce large premium
    client.update_index_price(&admin, &100); // tiny index
    env.ledger().set_timestamp(FUNDING_PERIOD_SECS + 1);
    let rate = client.update_funding_rate();
    assert_eq!(rate, MAX_FUNDING_RATE_BPS as i32, "rate capped at +500 bps");
}

#[test]
fn test_settle_funding_not_due() {
    let (_env, _admin, client) = setup();
    let err = client.try_settle_funding();
    assert_eq!(err, Err(Ok(Error::FundingNotDue)));
}

#[test]
fn test_settle_funding_deducts_from_longs() {
    let (env, admin, client) = setup();

    let trader = Address::generate(&env);
    let pos_id = client.open_position(&trader, &true, &10_000_000, &5, &1_000_000);

    let pos_before = client.get_position(&pos_id);
    let col_before = pos_before.collateral;

    // Raise mark above index so longs pay
    client.update_index_price(&admin, &(IDX / 2)); // index drops → premium rises
    env.ledger().set_timestamp(FUNDING_PERIOD_SECS + 1);

    let result = client.settle_funding();
    assert!(result.longs_pay, "longs should pay when mark > index");
    assert!(result.total_payments > 0);

    let pos_after = client.get_position(&pos_id);
    assert!(
        pos_after.collateral < col_before,
        "long collateral should decrease after settlement"
    );
}

#[test]
fn test_pause_blocks_open_position() {
    let (_env, admin, client) = setup();
    client.set_paused(&admin, &true);

    let trader = Address::generate(&_env);
    let err = client.try_open_position(&trader, &true, &100_000, &5, &50_000);
    assert_eq!(err, Err(Ok(Error::ContractPaused)));
}

#[test]
fn test_invalid_leverage_rejected() {
    let (_env, _admin, client) = setup();
    let trader = Address::generate(&_env);

    // leverage = 0
    let e1 = client.try_open_position(&trader, &true, &100_000, &0, &50_000);
    assert_eq!(e1, Err(Ok(Error::InvalidLeverage)));

    // leverage > MAX (101)
    let e2 = client.try_open_position(&trader, &true, &100_000, &101, &50_000);
    assert_eq!(e2, Err(Ok(Error::InvalidLeverage)));
}
