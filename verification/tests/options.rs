//! The options scenarios, driven through a small client that plays the
//! host's part: it keeps the ledger clock and hands out fresh addresses.

use std::cell::{Cell, RefCell};
use std::rc::Rc;

use soroban_playground::common::Address;
use soroban_playground::options::{
    Error, Greeks, MarginRequirement, OptionContract, OptionStatus, OptionType, OptionsContract,
};

#[derive(Clone)]
struct TestEnv {
    time: Rc<Cell<u64>>,
    next_address: Rc<Cell<u64>>,
}

impl TestEnv {
    fn default() -> TestEnv {
        TestEnv { time: Rc::new(Cell::new(1_000)), next_address: Rc::new(Cell::new(100)) }
    }
    fn ledger(&self) -> &TestEnv {
        self
    }
    fn timestamp(&self) -> u64 {
        self.time.get()
    }
    fn with_mut(&self, f: impl FnOnce(&mut LedgerInfo)) {
        let mut l = LedgerInfo { timestamp: self.time.get() };
        f(&mut l);
        self.time.set(l.timestamp);
    }
}

struct LedgerInfo {
    timestamp: u64,
}

trait Generate {
    fn generate(env: &TestEnv) -> Self;
}

impl Generate for Address {
    fn generate(env: &TestEnv) -> Address {
        let a = env.next_address.get();
        env.next_address.set(a + 1);
        a
    }
}

trait FromText {
    fn from_str(env: &TestEnv, s: &str) -> Self;
}

impl FromText for Vec<u8> {
    fn from_str(_env: &TestEnv, s: &str) -> Vec<u8> {
        s.as_bytes().to_vec()
    }
}

type Res<T> = Result<T, Result<Error, ()>>;

struct OptionsContractClient {
    env: TestEnv,
    c: RefCell<OptionsContract>,
}

impl OptionsContractClient {
    fn new(env: &TestEnv) -> OptionsContractClient {
        OptionsContractClient { env: env.clone(), c: RefCell::new(OptionsContract::new()) }
    }
    fn now(&self) -> u64 {
        self.env.time.get()
    }
    fn try_initialize(&self, admin: &Address) -> Res<()> {
        self.c.borrow_mut().initialize(*admin).map_err(Ok)
    }
    fn initialize(&self, admin: &Address) {
        self.try_initialize(admin).unwrap()
    }
    fn try_write_option(
        &self,
        writer: &Address,
        t: &OptionType,
        strike: &i128,
        spot: &i128,
        size: &i128,
        premium: &i128,
        expiry: &u64,
        margin: &i128,
    ) -> Res<u32> {
        let now = self.now();
        self.c
            .borrow_mut()
            .write_option(now, *writer, *t, *strike, *spot, *size, *premium, *expiry, *margin)
            .map_err(Ok)
    }
    fn write_option(
        &self,
        writer: &Address,
        t: &OptionType,
        strike: &i128,
        spot: &i128,
        size: &i128,
        premium: &i128,
        expiry: &u64,
        margin: &i128,
    ) -> u32 {
        self.try_write_option(writer, t, strike, spot, size, premium, expiry, margin).unwrap()
    }
    fn buy_option(&self, buyer: &Address, id: &u32) -> i128 {
        let now = self.now();
        self.c.borrow_mut().buy_option(now, *buyer, *id).unwrap()
    }
    fn try_exercise(&self, holder: &Address, id: &u32, price: &i128) -> Res<i128> {
        let now = self.now();
        self.c.borrow_mut().exercise(now, *holder, *id, *price).map_err(Ok)
    }
    fn exercise(&self, holder: &Address, id: &u32, price: &i128) -> i128 {
        self.try_exercise(holder, id, price).unwrap()
    }
    fn expire_option(&self, writer: &Address, id: &u32) {
        let now = self.now();
        self.c.borrow_mut().expire_option(now, *writer, *id).unwrap()
    }
    fn deposit_margin(&self, writer: &Address, amount: &i128) -> i128 {
        self.c.borrow_mut().deposit_margin(*writer, *amount).unwrap()
    }
    fn try_withdraw_margin(&self, writer: &Address, amount: &i128) -> Res<i128> {
        self.c.borrow_mut().withdraw_margin(*writer, *amount).map_err(Ok)
    }
    fn withdraw_margin(&self, writer: &Address, amount: &i128) -> i128 {
        self.try_withdraw_margin(writer, amount).unwrap()
    }
    fn compute_greeks(&self, id: &u32, spot: &i128, vol_bps: &i128) -> Greeks {
        let now = self.now();
        self.c.borrow().compute_greeks(now, *id, *spot, *vol_bps).unwrap()
    }
    fn check_margin(&self, id: &u32) -> MarginRequirement {
        self.c.borrow().check_margin(*id).unwrap()
    }
    fn get_option(&self, id: &u32) -> OptionContract {
        self.c.borrow().get_option(*id).unwrap()
    }
    fn get_margin_balance(&self, writer: &Address) -> i128 {
        self.c.borrow().get_margin_balance(*writer).unwrap()
    }
    fn get_option_count(&self) -> u32 {
        self.c.borrow().get_option_count().unwrap()
    }
}

/// PRICE_PRECISION = 1_000_000, so spot = 100_000_000 means $100.00
const SPOT: i128 = 100_000_000; // $100
const STRIKE: i128 = 100_000_000; // ATM $100
const SIZE: i128 = 1_000_000; // 1 unit
const PREMIUM: i128 = 5_000_000; // $5 premium
const MARGIN: i128 = 25_000_000; // $25 margin (25% of notional = $100)

fn setup() -> (TestEnv, Address, Address, OptionsContractClient) {
    let env = TestEnv::default();
    let client = OptionsContractClient::new(&env);
    let admin = Address::generate(&env);
    let writer = Address::generate(&env);
    client.initialize(&admin);
    env.ledger().with_mut(|l| l.timestamp = 1_000_000);
    (env, admin, writer, client)
}

fn write_call_option(env: &TestEnv, client: &OptionsContractClient, writer: &Address) -> u32 {
    let expiry = env.ledger().timestamp() + 86_400 * 30; // 30 days
    client.write_option(
        writer,
        &OptionType::Call,
        &STRIKE,
        &SPOT,
        &SIZE,
        &PREMIUM,
        &expiry,
        &MARGIN,
    )
}

#[test]
fn test_test_initialize() {
    let (_env, _admin, _writer, client) = setup();
    assert_eq!(client.get_option_count(), 0);
}

#[test]
fn test_double_init_fails() {
    let (_env, admin, _writer, client) = setup();
    let result = client.try_initialize(&admin);
    assert_eq!(result, Err(Ok(Error::AlreadyInitialized)));
}

#[test]
fn test_write_call_option() {
    let (env, _admin, writer, client) = setup();
    let id = write_call_option(&env, &client, &writer);
    assert_eq!(id, 0);
    assert_eq!(client.get_option_count(), 1);

    let opt = client.get_option(&0);
    assert_eq!(opt.strike_price, STRIKE);
    assert_eq!(opt.size, SIZE);
    assert!(matches!(opt.option_type, OptionType::Call));
    assert!(matches!(opt.status, OptionStatus::Active));
}

#[test]
fn test_write_option_insufficient_margin_fails() {
    let (env, _admin, writer, client) = setup();
    let expiry = env.ledger().timestamp() + 86_400 * 30;
    // MIN_MARGIN = 20% of notional = 20% of $100 = $20_000_000
    let low_margin = 1_000_000; // Only $1 — too low
    let result = client.try_write_option(
        &writer,
        &OptionType::Call,
        &STRIKE,
        &SPOT,
        &SIZE,
        &PREMIUM,
        &expiry,
        &low_margin,
    );
    assert_eq!(result, Err(Ok(Error::InsufficientMargin)));
}

#[test]
fn test_write_expired_option_fails() {
    let (env, _admin, writer, client) = setup();
    let past_expiry = env.ledger().timestamp() - 1;
    let result = client.try_write_option(
        &writer,
        &OptionType::Call,
        &STRIKE,
        &SPOT,
        &SIZE,
        &PREMIUM,
        &past_expiry,
        &MARGIN,
    );
    assert_eq!(result, Err(Ok(Error::InvalidExpiry)));
}

#[test]
fn test_buy_option() {
    let (env, _admin, writer, client) = setup();
    let id = write_call_option(&env, &client, &writer);
    let buyer = Address::generate(&env);
    let premium_paid = client.buy_option(&buyer, &id);
    assert_eq!(premium_paid, PREMIUM);

    let opt = client.get_option(&id);
    assert!(opt.holder.is_some());
}

#[test]
fn test_exercise_itm_call() {
    let (env, _admin, writer, client) = setup();
    let id = write_call_option(&env, &client, &writer);
    let buyer = Address::generate(&env);
    client.buy_option(&buyer, &id);

    let opt = client.get_option(&id);
    // Advance to expiry
    env.ledger().with_mut(|l| l.timestamp = opt.expiry);

    // Settlement price = $110 (10% above strike) → payout = $10 * 1 unit
    let settlement = 110_000_000_i128; // $110
    let payout = client.exercise(&buyer, &id, &settlement);

    // payout = (110_000_000 - 100_000_000) * 1_000_000 / 1_000_000 = 10_000_000
    assert_eq!(payout, 10_000_000);

    let opt = client.get_option(&id);
    assert!(matches!(opt.status, OptionStatus::Exercised));
}

#[test]
fn test_exercise_otm_call() {
    let (env, _admin, writer, client) = setup();
    let id = write_call_option(&env, &client, &writer);
    let buyer = Address::generate(&env);
    client.buy_option(&buyer, &id);

    let opt = client.get_option(&id);
    env.ledger().with_mut(|l| l.timestamp = opt.expiry);

    // Settlement at $90 (below strike) → payout = 0
    let payout = client.exercise(&buyer, &id, &90_000_000);
    assert_eq!(payout, 0);
}

#[test]
fn test_exercise_before_expiry_fails() {
    let (env, _admin, writer, client) = setup();
    let id = write_call_option(&env, &client, &writer);
    let buyer = Address::generate(&env);
    client.buy_option(&buyer, &id);

    let result = client.try_exercise(&buyer, &id, &110_000_000);
    assert_eq!(result, Err(Ok(Error::OptionNotExpired)));
}

#[test]
fn test_exercise_wrong_holder_fails() {
    let (env, _admin, writer, client) = setup();
    let id = write_call_option(&env, &client, &writer);
    let buyer = Address::generate(&env);
    client.buy_option(&buyer, &id);

    let opt = client.get_option(&id);
    env.ledger().with_mut(|l| l.timestamp = opt.expiry);

    let impostor = Address::generate(&env);
    let result = client.try_exercise(&impostor, &id, &110_000_000);
    assert_eq!(result, Err(Ok(Error::NotOptionHolder)));
}

#[test]
fn test_expire_option() {
    let (env, _admin, writer, client) = setup();
    let id = write_call_option(&env, &client, &writer);
    let opt = client.get_option(&id);
    env.ledger().with_mut(|l| l.timestamp = opt.expiry);

    // Writer expires unexercised option
    client.expire_option(&writer, &id);
    let opt = client.get_option(&id);
    assert!(matches!(opt.status, OptionStatus::Expired));
}

#[test]
fn test_margin_deposit_and_withdraw() {
    let (env, _admin, writer, client) = setup();
    client.deposit_margin(&writer, &50_000_000);
    let bal = client.get_margin_balance(&writer);
    assert_eq!(bal, 50_000_000);

    client.withdraw_margin(&writer, &20_000_000);
    let bal = client.get_margin_balance(&writer);
    assert_eq!(bal, 30_000_000);
}

#[test]
fn test_withdraw_more_than_balance_fails() {
    let (env, _admin, writer, client) = setup();
    client.deposit_margin(&writer, &10_000_000);
    let result = client.try_withdraw_margin(&writer, &50_000_000);
    assert_eq!(result, Err(Ok(Error::InsufficientMargin)));
}

#[test]
fn test_check_margin_call() {
    let (env, _admin, writer, client) = setup();
    let id = write_call_option(&env, &client, &writer);
    let req = client.check_margin(&id);
    // Just enough margin was deposited
    assert!(!req.margin_call);
    assert_eq!(req.deposited, MARGIN);
}

#[test]
fn test_compute_greeks_call() {
    let (env, _admin, writer, client) = setup();
    let id = write_call_option(&env, &client, &writer);
    // 20% implied volatility
    let greeks = client.compute_greeks(&id, &SPOT, &2000);
    // Delta for ATM call should be near 0.5 (500_000 in GREEK_PRECISION units)
    assert!(greeks.delta > 0);
    assert!(greeks.delta <= 1_000_000);
    // Gamma should be positive
    // Vega should be positive for long option
    // Time value should be positive (not yet expired)
}

#[test]
fn test_compute_greeks_put() {
    let (env, _admin, writer, client) = setup();
    let expiry = env.ledger().timestamp() + 86_400 * 30;
    let id = client.write_option(
        &writer,
        &OptionType::Put,
        &STRIKE,
        &SPOT,
        &SIZE,
        &PREMIUM,
        &expiry,
        &MARGIN,
    );
    let greeks = client.compute_greeks(&id, &SPOT, &2000);
    // Delta for ATM put should be near -0.5
    assert!(greeks.delta < 0 || greeks.delta == 0);
}

#[test]
fn test_itm_put_exercise() {
    let (env, _admin, writer, client) = setup();
    let expiry = env.ledger().timestamp() + 86_400 * 30;
    let id = client.write_option(
        &writer,
        &OptionType::Put,
        &STRIKE,
        &SPOT,
        &SIZE,
        &PREMIUM,
        &expiry,
        &MARGIN,
    );
    let buyer = Address::generate(&env);
    client.buy_option(&buyer, &id);
    env.ledger().with_mut(|l| l.timestamp = expiry);

    // Settlement at $85 → put ITM, payout = (100 - 85) * 1 = $15
    let payout = client.exercise(&buyer, &id, &85_000_000);
    assert_eq!(payout, 15_000_000);
}
