//! The perpetual-futures scenarios, driven through a small client that
//! plays the host's part: it keeps the ledger clock and hands out fresh
//! addresses.

use std::cell::{Cell, RefCell};
use std::rc::Rc;

use soroban_playground::common::Address;
use soroban_playground::perpetual_futures::{Error, FundingRate, PerpetualFutures, Position, PositionStatus};

#[derive(Clone)]
struct TestEnv {
    time: Rc<Cell<u64>>,
    next_address: Rc<Cell<u64>>,
}

impl TestEnv {
    fn default() -> TestEnv {
        TestEnv { time: Rc::new(Cell::new(1_000)), next_address: Rc::new(Cell::new(100)) }
    }
    fn ledger(&self) -> &TestEnv {
        self
    }
    fn timestamp(&self) -> u64 {
        self.time.get()
    }
    fn with_mut(&self, f: impl FnOnce(&mut LedgerInfo)) {
        let mut l = LedgerInfo { timestamp: self.time.get() };
        f(&mut l);
        self.time.set(l.timestamp);
    }
}

struct LedgerInfo {
    timestamp: u64,
}

trait Generate {
    fn generate(env: &TestEnv) -> Self;
}

impl Generate for Address {
    fn generate(env: &TestEnv) -> Address {
        let a = env.next_address.get();
        env.next_address.set(a + 1);
        a
    }
}

trait FromText {
    fn from_str(env: &TestEnv, s: &str) -> Self;
}

impl FromText for Vec<u8> {
    fn from_str(_env: &TestEnv, s: &str) -> Vec<u8> {
        s.as_bytes().to_vec()
    }
}

type Res<T> = Result<T, Result<Error, ()>>;

struct PerpetualFuturesClient {
    env: TestEnv,
    c: RefCell<PerpetualFutures>,
}

impl PerpetualFuturesClient {
    fn new(env: &TestEnv) -> PerpetualFuturesClient {
        PerpetualFuturesClient { env: env.clone(), c: RefCell::new(PerpetualFutures::new()) }
    }
    fn now(&self) -> u64 {
        self.env.time.get()
    }
    fn try_initialize(&self, admin: &Address, price: &i128) -> Res<()> {
        let now = self.now();
        self.c.borrow_mut().initialize(now, *admin, *price).map_err(Ok)
    }
    fn initialize(&self, admin: &Address, price: &i128) {
        self.try_initialize(admin, price).unwrap()
    }
    fn set_paused(&self, admin: &Address, paused: &bool) {
        self.c.borrow_mut().set_paused(*admin, *paused).unwrap()
    }
    fn try_open_position(&self, trader: &Address, long: &bool, size: &i128, leverage: &u32, collateral: &i128) -> Res<u64> {
        self.c.borrow_mut().open_position(*trader, *long, *size, *leverage, *collateral).map_err(Ok)
    }
    fn open_position(&self, trader: &Address, long: &bool, size: &i128, leverage: &u32, collateral: &i128) -> u64 {
        self.try_open_position(trader, long, size, leverage, collateral).unwrap()
    }
    fn close_position(&self, trader: &Address, id: &u64, exit_price: &i128) -> i128 {
        self.c.borrow_mut().close_position(*trader, *id, *exit_price).unwrap()
    }
    fn update_funding_rate(&self, admin: &Address, mark: &i128, index: &i128) -> i64 {
        let now = self.now();
        self.c.borrow_mut().update_funding_rate(now, *admin, *mark, *index).unwrap() as i64
    }
    fn liquidate_position(&self, liquidator: &Address, id: &u64, price: &i128) {
        self.c.borrow_mut().liquidate_position(*liquidator, *id, *price).unwrap();
    }
    fn get_position(&self, id: &u64) -> Position {
        self.c.borrow().get_position(*id).unwrap()
    }
    fn get_funding_rate(&self) -> FundingRate {
        self.c.borrow().get_funding_rate().unwrap()
    }
    fn position_count(&self) -> u64 {
        self.c.borrow().position_count()
    }
    fn get_admin(&self) -> Address {
        self.c.borrow().get_admin().unwrap()
    }
}

const INITIAL_PRICE: i128 = 100_000_000;
const SIZE: i128 = 1_000_000;
const COLLATERAL: i128 = 200_000;

fn setup() -> (TestEnv, PerpetualFuturesClient, Address, Address, Address) {
    let env = TestEnv::default();
    let client = PerpetualFuturesClient::new(&env);
    let admin = Address::generate(&env);
    let trader = Address::generate(&env);
    let liquidator = Address::generate(&env);
    client.initialize(&admin, &INITIAL_PRICE);
    (env, client, admin, trader, liquidator)
}

#[test]
fn rejected_open_changes_nothing() {
    let (_env, client, _admin, trader, _) = setup();
    assert_eq!(
        client.try_open_position(&trader, &true, &SIZE, &0u32, &COLLATERAL),
        Err(Ok(Error::InvalidLeverage))
    );
    assert_eq!(client.position_count(), 0);
}

#[test]
fn futures_test_initialize_sets_admin() {
    let (_env, client, admin, ..) = setup();
    assert_eq!(client.get_admin(), admin);
}

#[test]
fn futures_test_initialize_twice_fails() {
    let (_env, client, admin, ..) = setup();
    assert!(client.try_initialize(&admin, &INITIAL_PRICE).is_err());
}

#[test]
fn test_open_long_position() {
    let (_env, client, _admin, trader, _) = setup();
    let id = client.open_position(&trader, &true, &SIZE, &10u32, &COLLATERAL);
    assert_eq!(id, 1);
    assert_eq!(client.position_count(), 1);

    let pos = client.get_position(&id);
    assert_eq!(pos.trader, trader);
    assert!(pos.is_long);
    assert_eq!(pos.size, SIZE);
    assert_eq!(pos.leverage, 10);
    assert_eq!(pos.status, PositionStatus::Active);
}

#[test]
fn test_open_short_position() {
    let (_env, client, _admin, trader, _) = setup();
    let id = client.open_position(&trader, &false, &SIZE, &5u32, &COLLATERAL);
    let pos = client.get_position(&id);
    assert!(!pos.is_long);
    assert_eq!(pos.leverage, 5);
}

#[test]
fn test_invalid_leverage_fails() {
    let (_env, client, _admin, trader, _) = setup();
    assert!(client
        .try_open_position(&trader, &true, &SIZE, &0u32, &COLLATERAL)
        .is_err());
    assert!(client
        .try_open_position(&trader, &true, &SIZE, &101u32, &COLLATERAL)
        .is_err());
}

#[test]
fn test_close_position_long() {
    let (_env, client, _admin, trader, _) = setup();
    let id = client.open_position(&trader, &true, &SIZE, &10u32, &COLLATERAL);

    let exit_price = INITIAL_PRICE + 10_000_000;
    let net = client.close_position(&trader, &id, &exit_price);
    assert!(net > COLLATERAL);

    let pos = client.get_position(&id);
    assert_eq!(pos.status, PositionStatus::Closed);
}

#[test]
fn test_close_position_short() {
    let (_env, client, _admin, trader, _) = setup();
    let id = client.open_position(&trader, &false, &SIZE, &10u32, &COLLATERAL);

    let exit_price = INITIAL_PRICE - 10_000_000;
    let net = client.close_position(&trader, &id, &exit_price);
    assert!(net > COLLATERAL);
}

#[test]
fn test_update_funding_rate() {
    let (_env, client, admin, ..) = setup();
    let mark = INITIAL_PRICE + 1_000_000;
    let index = INITIAL_PRICE;

    let bps = client.update_funding_rate(&admin, &mark, &index);
    assert_eq!(bps, 100);

    let funding = client.get_funding_rate();
    assert_eq!(funding.mark_price, mark);
    assert_eq!(funding.rate_bps, 100);
}

#[test]
fn test_liquidate_position() {
    let (_env, client, _admin, trader, liquidator) = setup();
    let id = client.open_position(&trader, &true, &SIZE, &50u32, &COLLATERAL);

    let crash_price = INITIAL_PRICE / 2;
    client.liquidate_position(&liquidator, &id, &crash_price);

    let pos = client.get_position(&id);
    assert_eq!(pos.status, PositionStatus::Liquidated);
}

#[test]
fn test_pause_blocks_operations() {
    let (_env, client, admin, trader, _) = setup();
    client.set_paused(&admin, &true);
    assert!(client
        .try_open_position(&trader, &true, &SIZE, &10u32, &COLLATERAL)
        .is_err());
}
