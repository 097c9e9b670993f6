//! The stablecoin scenarios, driven through a small client that plays the
//! host's part: it keeps the ledger clock and hands out fresh addresses.

use std::cell::{Cell, RefCell};
use std::rc::Rc;

use soroban_playground::common::Address;
use soroban_playground::stablecoin::{AlgorithmicStablecoin, Error, PsmConfig, PsmSwapResult, RebaseInfo};

#[derive(Clone)]
struct TestEnv {
    time: Rc<Cell<u64>>,
    next_address: Rc<Cell<u64>>,
}

impl TestEnv {
    fn default() -> TestEnv {
        TestEnv { time: Rc::new(Cell::new(1_000)), next_address: Rc::new(Cell::new(100)) }
    }
    fn ledger(&self) -> &TestEnv {
        self
    }
    fn timestamp(&self) -> u64 {
        self.time.get()
    }
    fn with_mut(&self, f: impl FnOnce(&mut LedgerInfo)) {
        let mut l = LedgerInfo { timestamp: self.time.get() };
        f(&mut l);
        self.time.set(l.timestamp);
    }
}

struct LedgerInfo {
    timestamp: u64,
}

trait Generate {
    fn generate(env: &TestEnv) -> Self;
}

impl Generate for Address {
    fn generate(env: &TestEnv) -> Address {
        let a = env.next_address.get();
        env.next_address.set(a + 1);
        a
    }
}

trait FromText {
    fn from_str(env: &TestEnv, s: &str) -> Self;
}

impl FromText for Vec<u8> {
    fn from_str(_env: &TestEnv, s: &str) -> Vec<u8> {
        s.as_bytes().to_vec()
    }
}

type Res<T> = Result<T, Result<Error, ()>>;

impl TestEnv {
    fn set_timestamp(&self, t: u64) {
        self.time.set(t);
    }
}

struct AlgorithmicStablecoinClient {
    env: TestEnv,
    c: RefCell<AlgorithmicStablecoin>,
}

impl AlgorithmicStablecoinClient {
    fn new(env: &TestEnv) -> AlgorithmicStablecoinClient {
        AlgorithmicStablecoinClient { env: env.clone(), c: RefCell::new(AlgorithmicStablecoin::new()) }
    }
    fn init(&self, admin: &Address, oracle: &Address) {
        self.c.borrow_mut().init(*admin, *oracle).unwrap()
    }
    fn try_psm_set_params(&self, admin: &Address, mint: &u32, redeem: &u32, ceiling: &i128) -> Res<()> {
        self.c.borrow_mut().psm_set_params(*admin, *mint, *redeem, *ceiling).map_err(Ok)
    }
    fn psm_set_params(&self, admin: &Address, mint: &u32, redeem: &u32, ceiling: &i128) {
        self.try_psm_set_params(admin, mint, redeem, ceiling).unwrap()
    }
    fn psm_set_paused(&self, admin: &Address, paused: &bool) {
        self.c.borrow_mut().psm_set_paused(*admin, *paused).unwrap()
    }
    fn try_psm_mint(&self, user: &Address, amount: &i128) -> Res<PsmSwapResult> {
        self.c.borrow_mut().psm_mint(*user, *amount).map_err(Ok)
    }
    fn psm_mint(&self, user: &Address, amount: &i128) -> PsmSwapResult {
        self.try_psm_mint(user, amount).unwrap()
    }
    fn try_psm_redeem(&self, user: &Address, amount: &i128) -> Res<PsmSwapResult> {
        self.c.borrow_mut().psm_redeem(*user, *amount).map_err(Ok)
    }
    fn psm_redeem(&self, user: &Address, amount: &i128) -> PsmSwapResult {
        self.try_psm_redeem(user, amount).unwrap()
    }
    fn psm_collect_fees(&self, admin: &Address) -> i128 {
        self.c.borrow_mut().psm_collect_fees(*admin).unwrap()
    }
    fn psm_config(&self) -> PsmConfig {
        self.c.borrow().psm_config()
    }
    fn try_mint(&self, admin: &Address, to: &Address, amount: &i128) -> Res<()> {
        self.c.borrow_mut().mint(*admin, *to, *amount).map_err(Ok)
    }
    fn mint(&self, admin: &Address, to: &Address, amount: &i128) {
        self.try_mint(admin, to, amount).unwrap()
    }
    fn burn(&self, from: &Address, amount: &i128) {
        self.c.borrow_mut().burn(*from, *amount).unwrap()
    }
    fn transfer(&self, from: &Address, to: &Address, amount: &i128) {
        self.c.borrow_mut().transfer(*from, *to, *amount).unwrap()
    }
    fn set_price(&self, oracle: &Address, price: &i128) {
        self.c.borrow_mut().set_price(*oracle, *price).unwrap()
    }
    fn rebase(&self, caller: &Address) -> RebaseInfo {
        let now = self.env.time.get();
        self.c.borrow_mut().rebase(now, *caller).unwrap()
    }
    fn pause(&self, admin: &Address) {
        self.c.borrow_mut().pause(*admin).unwrap()
    }
    fn unpause(&self, admin: &Address) {
        self.c.borrow_mut().unpause(*admin).unwrap()
    }
    fn add_reserve(&self, admin: &Address, amount: &i128) {
        self.c.borrow_mut().add_reserve(*admin, *amount).unwrap()
    }
    fn withdraw_reserve(&self, admin: &Address, amount: &i128) {
        self.c.borrow_mut().withdraw_reserve(*admin, *amount).unwrap()
    }
    fn balance(&self, user: &Address) -> i128 {
        self.c.borrow().balance(*user)
    }
    fn total_supply(&self) -> i128 {
        self.c.borrow().total_supply()
    }
    fn get_price(&self) -> i128 {
        self.c.borrow().get_price()
    }
    fn get_target_price(&self) -> i128 {
        self.c.borrow().get_target_price()
    }
    fn get_reserve(&self) -> i128 {
        self.c.borrow().get_reserve()
    }
    fn is_paused(&self) -> bool {
        self.c.borrow().is_paused()
    }
    fn get_admin(&self) -> Address {
        self.c.borrow().get_admin().unwrap()
    }
}

fn setup() -> (TestEnv, Address, Address, Address, AlgorithmicStablecoinClient) {
    let env = TestEnv::default();
    env.set_timestamp(0);
    let client = AlgorithmicStablecoinClient::new(&env);
    let admin = Address::generate(&env);
    let oracle = Address::generate(&env);
    let user = Address::generate(&env);
    client.init(&admin, &oracle);
    (env, admin, oracle, user, client)
}

// ── Existing tests ────────────────────────────────────────────────────────

#[test]
fn test_init() {
    let env = TestEnv::default();
    let client = AlgorithmicStablecoinClient::new(&env);
    let admin = Address::generate(&env);
    let oracle = Address::generate(&env);

    client.init(&admin, &oracle);

    assert_eq!(client.get_admin(), admin);
    assert_eq!(client.get_price(), 10_000_000);
    assert_eq!(client.get_target_price(), 10_000_000);
    assert!(!client.is_paused());
}

#[test]
fn test_mint() {
    let (env, admin, _oracle, user, client) = setup();
    client.mint(&admin, &user, &1000);
    assert_eq!(client.balance(&user), 1000);
    assert_eq!(client.total_supply(), 1000);
}

#[test]
fn test_burn() {
    let (env, admin, _oracle, user, client) = setup();
    client.mint(&admin, &user, &1000);
    client.burn(&user, &500);
    assert_eq!(client.balance(&user), 500);
    assert_eq!(client.total_supply(), 500);
}

#[test]
fn test_transfer() {
    let (env, admin, _oracle, user, client) = setup();
    let recipient = Address::generate(&env);
    client.mint(&admin, &user, &1000);
    client.transfer(&user, &recipient, &300);
    assert_eq!(client.balance(&user), 700);
    assert_eq!(client.balance(&recipient), 300);
}

#[test]
fn test_set_price() {
    let (_env, _admin, oracle, _user, client) = setup();
    client.set_price(&oracle, &12_000_000);
    assert_eq!(client.get_price(), 12_000_000);
}

#[test]
fn test_rebase_expansion() {
    let (env, admin, oracle, _user, client) = setup();
    client.mint(&admin, &admin, &1_000_000);
    client.set_price(&oracle, &11_000_000);
    env.ledger().set_timestamp(4000);
    let info = client.rebase(&admin);
    assert!(info.new_supply > info.old_supply);
}

#[test]
fn test_pause_and_unpause() {
    let (_env, admin, _oracle, user, client) = setup();
    client.pause(&admin);
    assert!(client.is_paused());

    let result = client.try_mint(&admin, &user, &100);
    assert_eq!(result, Err(Ok(Error::ContractPaused)));

    client.unpause(&admin);
    assert!(!client.is_paused());
    client.mint(&admin, &user, &100);
    assert_eq!(client.balance(&user), 100);
}

#[test]
fn test_reserve_operations() {
    let (_env, admin, _oracle, _user, client) = setup();
    client.add_reserve(&admin, &5000);
    assert_eq!(client.get_reserve(), 5000);
    client.withdraw_reserve(&admin, &2000);
    assert_eq!(client.get_reserve(), 3000);
}

// ── PSM tests ─────────────────────────────────────────────────────────────

#[test]
fn test_psm_defaults_after_init() {
    let (_env, _admin, _oracle, _user, client) = setup();
    let cfg = client.psm_config();
    assert!(!cfg.paused);
    assert_eq!(cfg.mint_fee_bps, 10);
    assert_eq!(cfg.redeem_fee_bps, 10);
    assert_eq!(cfg.minted_debt, 0);
    assert_eq!(cfg.vault_balance, 0);
    assert_eq!(cfg.fee_vault, 0);
}

#[test]
fn test_psm_mint_basic() {
    let (_env, _admin, _oracle, user, client) = setup();

    // Deposit 10_000 reserve units; expect fee = 10_000 * 10 / 10_000 = 10
    let result = client.psm_mint(&user, &10_000);

    assert_eq!(result.amount_in, 10_000);
    assert_eq!(result.fee_collected, 10); // 0.10 %
    assert_eq!(result.amount_out, 9_990);
    assert_eq!(result.vault_balance, 10_000);
    assert_eq!(result.minted_debt, 9_990);

    // User received 9_990 stablecoins
    assert_eq!(client.balance(&user), 9_990);
    assert_eq!(client.total_supply(), 9_990);
}

#[test]
fn test_psm_redeem_basic() {
    let (_env, _admin, _oracle, user, client) = setup();

    // First mint through PSM
    client.psm_mint(&user, &10_000);

    // Redeem all 9_990 stablecoins
    let result = client.psm_redeem(&user, &9_990);

    // fee = 9_990 * 10 / 10_000 = 9 (floor)
    assert_eq!(result.fee_collected, 9);
    assert_eq!(result.amount_out, 9_981); // 9_990 - 9
                                          // vault: was 10_000, released 9_981 → 19 remaining
    assert_eq!(result.vault_balance, 10_000 - 9_981);
    assert_eq!(client.balance(&user), 0);
}

#[test]
fn test_psm_fee_vault_accumulates() {
    let (_env, admin, _oracle, user, client) = setup();

    client.psm_mint(&user, &10_000); // fee = 10
    client.psm_redeem(&user, &9_990); // fee = 9

    let cfg = client.psm_config();
    assert_eq!(cfg.fee_vault, 10 + 9);

    // Admin collects fees
    let collected = client.psm_collect_fees(&admin);
    assert_eq!(collected, 19);
    let cfg2 = client.psm_config();
    assert_eq!(cfg2.fee_vault, 0);
}

#[test]
fn test_psm_debt_ceiling_enforced() {
    let (_env, admin, _oracle, user, client) = setup();

    // Set a tight ceiling of 1_000 tokens
    client.psm_set_params(&admin, &10, &10, &1_000);

    // First mint of 1_001 should fail (amount_out = 1_001 - 1 = 1_000 which still fits)
    let ok = client.try_psm_mint(&user, &1_001);
    // amount_out = 1_001 - (1_001*10/10_000) = 1_001 - 1 = 1_000 → exactly at ceiling → ok
    assert!(ok.is_ok());

    // Second mint of any amount should be rejected (debt == ceiling)
    let err = client.try_psm_mint(&user, &1);
    assert_eq!(err, Err(Ok(Error::PsmDebtCeilingExceeded)));
}

#[test]
fn test_psm_paused_prevents_swaps() {
    let (_env, admin, _oracle, user, client) = setup();

    client.psm_set_paused(&admin, &true);

    let mint_err = client.try_psm_mint(&user, &100);
    assert_eq!(mint_err, Err(Ok(Error::PsmPaused)));

    // Give user some tokens via admin mint, then try PSM redeem
    client.mint(&admin, &user, &100);
    let redeem_err = client.try_psm_redeem(&user, &100);
    assert_eq!(redeem_err, Err(Ok(Error::PsmPaused)));
}

#[test]
fn test_psm_insufficient_reserve_on_redeem() {
    let (_env, admin, _oracle, user, client) = setup();

    // Give user stablecoins via admin mint (no vault reserve)
    client.mint(&admin, &user, &500);

    // PSM vault is empty — redeem should fail
    let err = client.try_psm_redeem(&user, &500);
    assert_eq!(err, Err(Ok(Error::PsmInsufficientReserve)));
}

#[test]
fn test_psm_set_params_invalid_fee() {
    let (_env, admin, _oracle, _user, client) = setup();

    // Fee > 500 bps should be rejected
    let err = client.try_psm_set_params(&admin, &501, &10, &1_000_000);
    assert_eq!(err, Err(Ok(Error::InvalidFeeBps)));
}

#[test]
fn test_psm_set_params_invalid_ceiling() {
    let (_env, admin, _oracle, _user, client) = setup();

    let err = client.try_psm_set_params(&admin, &10, &10, &0);
    assert_eq!(err, Err(Ok(Error::InvalidDebtCeiling)));
}
