//! The supply-chain scenarios, driven through a small client that plays
//! the host's part: it keeps the ledger clock and hands out fresh
//! addresses.

use std::cell::{Cell, RefCell};
use std::rc::Rc;

use soroban_playground::common::Address;
use soroban_playground::supply_chain::{
    ColdChainSla, Error, PenaltyRecord, Product, ProductStatus, QualityReport, QualityResult, SupplyChain,
    TemperatureLog,
};

type String = Vec<u8>;

#[derive(Clone)]
struct TestEnv {
    time: Rc<Cell<u64>>,
    next_address: Rc<Cell<u64>>,
}

impl TestEnv {
    fn default() -> TestEnv {
        TestEnv { time: Rc::new(Cell::new(1_000)), next_address: Rc::new(Cell::new(100)) }
    }
    fn ledger(&self) -> &TestEnv {
        self
    }
    fn timestamp(&self) -> u64 {
        self.time.get()
    }
}

trait Generate {
    fn generate(env: &TestEnv) -> Self;
}

impl Generate for Address {
    fn generate(env: &TestEnv) -> Address {
        let a = env.next_address.get();
        env.next_address.set(a + 1);
        a
    }
}

trait FromText {
    fn from_str(env: &TestEnv, s: &str) -> Self;
}

impl FromText for Vec<u8> {
    fn from_str(_env: &TestEnv, s: &str) -> Vec<u8> {
        s.as_bytes().to_vec()
    }
}

type Res<T> = Result<T, Result<Error, ()>>;

struct SupplyChainClient {
    env: TestEnv,
    c: RefCell<SupplyChain>,
}

impl SupplyChainClient {
    fn new(env: &TestEnv) -> SupplyChainClient {
        SupplyChainClient { env: env.clone(), c: RefCell::new(SupplyChain::new()) }
    }
    fn now(&self) -> u64 {
        self.env.time.get()
    }
    fn try_initialize(&self, admin: &Address) -> Res<()> {
        self.c.borrow_mut().initialize(*admin).map_err(Ok)
    }
    fn initialize(&self, admin: &Address) {
        self.try_initialize(admin).unwrap()
    }
    fn add_inspector(&self, caller: &Address, who: &Address) {
        self.c.borrow_mut().add_inspector(*caller, *who).unwrap()
    }
    fn add_handler(&self, caller: &Address, who: &Address) {
        self.c.borrow_mut().add_handler(*caller, *who).unwrap()
    }
    fn try_register_product(&self, owner: &Address, name: &String, hash: &u64) -> Res<u32> {
        let now = self.now();
        self.c.borrow_mut().register_product(now, *owner, name.clone(), *hash).map_err(Ok)
    }
    fn register_product(&self, owner: &Address, name: &String, hash: &u64) -> u32 {
        self.try_register_product(owner, name, hash).unwrap()
    }
    fn try_add_checkpoint(&self, handler: &Address, product: &u32, location: &u64, notes: &u64) -> Res<u32> {
        let now = self.now();
        self.c.borrow_mut().add_checkpoint(now, *handler, *product, *location, *notes).map_err(Ok)
    }
    fn add_checkpoint(&self, handler: &Address, product: &u32, location: &u64, notes: &u64) -> u32 {
        self.try_add_checkpoint(handler, product, location, notes).unwrap()
    }
    fn try_update_status(&self, caller: &Address, product: &u32, status: &ProductStatus) -> Res<()> {
        let now = self.now();
        self.c.borrow_mut().update_status(now, *caller, *product, *status).map_err(Ok)
    }
    fn update_status(&self, caller: &Address, product: &u32, status: &ProductStatus) {
        self.try_update_status(caller, product, status).unwrap()
    }
    fn try_submit_quality_report(&self, inspector: &Address, product: &u32, result: &QualityResult, hash: &u64) -> Res<()> {
        let now = self.now();
        self.c.borrow_mut().submit_quality_report(now, *inspector, *product, *result, *hash).map_err(Ok)
    }
    fn submit_quality_report(&self, inspector: &Address, product: &u32, result: &QualityResult, hash: &u64) {
        self.try_submit_quality_report(inspector, product, result, hash).unwrap()
    }
    fn try_recall_product(&self, caller: &Address, product: &u32) -> Res<()> {
        let now = self.now();
        self.c.borrow_mut().recall_product(now, *caller, *product).map_err(Ok)
    }
    fn recall_product(&self, caller: &Address, product: &u32) {
        self.try_recall_product(caller, product).unwrap()
    }
    fn try_create_cold_chain_sla(
        &self,
        caller: &Address,
        product: &u32,
        min: &i32,
        max: &i32,
        minutes: &u32,
        penalty: &i128,
        deposit: &i128,
        duration: &u64,
    ) -> Res<u32> {
        let now = self.now();
        self.c
            .borrow_mut()
            .create_cold_chain_sla(now, *caller, *product, *min, *max, *minutes, *penalty, *deposit, *duration)
            .map_err(Ok)
    }
    fn create_cold_chain_sla(
        &self,
        caller: &Address,
        product: &u32,
        min: &i32,
        max: &i32,
        minutes: &u32,
        penalty: &i128,
        deposit: &i128,
        duration: &u64,
    ) -> u32 {
        self.try_create_cold_chain_sla(caller, product, min, max, minutes, penalty, deposit, duration).unwrap()
    }
    fn log_temperature(&self, recorder: &Address, product: &u32, t: &i32, humidity: &u32, proof: &u64) {
        let now = self.now();
        self.c.borrow_mut().log_temperature(now, *recorder, *product, *t, *humidity, *proof).unwrap()
    }
    fn get_temperature_log(&self, product: &u32, timestamp: &u64) -> Option<TemperatureLog> {
        self.c.borrow().get_temperature_log(*product, *timestamp)
    }
    fn get_cold_chain_sla(&self, id: &u32) -> ColdChainSla {
        self.c.borrow().get_cold_chain_sla(*id).unwrap()
    }
    fn get_penalty_record(&self, id: &u32) -> PenaltyRecord {
        self.c.borrow().get_penalty_record(*id).unwrap()
    }
    fn get_penalty_count(&self) -> u32 {
        self.c.borrow().get_penalty_count()
    }
    fn get_sla_count(&self) -> u32 {
        self.c.borrow().get_sla_count()
    }
    fn get_product(&self, id: &u32) -> Product {
        self.c.borrow().get_product(*id).unwrap().clone()
    }
    fn get_checkpoint_count(&self, id: &u32) -> u32 {
        self.c.borrow().get_checkpoint_count(*id)
    }
    fn get_quality_report(&self, id: &u32) -> QualityReport {
        self.c.borrow().get_quality_report(*id).unwrap()
    }
    fn product_count(&self) -> u32 {
        self.c.borrow().product_count()
    }
}

fn setup() -> (TestEnv, Address, SupplyChainClient) {
    let env = TestEnv::default();
    let client = SupplyChainClient::new(&env);
    let admin = Address::generate(&env);
    client.initialize(&admin);
    (env, admin, client)
}


#[test]
fn test_test_initialize_sets_admin() {
    let (_env, _admin, client) = setup();
    assert_eq!(client.product_count(), 0);
}

#[test]
fn test_test_initialize_twice_fails() {
    let (env, admin, client) = setup();
    let _ = env;
    let result = client.try_initialize(&admin);
    assert_eq!(result, Err(Ok(Error::AlreadyInitialized)));
}

#[test]
fn test_register_product_stores_data() {
    let (env, _admin, client) = setup();
    let owner = Address::generate(&env);
    let id = client.register_product(&owner, &String::from_str(&env, "Widget A"), &12345u64);
    assert_eq!(id, 1);
    let product = client.get_product(&id);
    assert_eq!(product.id, 1);
    assert_eq!(product.metadata_hash, 12345u64);
    assert_eq!(product.status, ProductStatus::Registered);
}

#[test]
fn test_register_product_sequential_ids() {
    let (env, _admin, client) = setup();
    let owner = Address::generate(&env);
    let id1 = client.register_product(&owner, &String::from_str(&env, "A"), &1u64);
    let id2 = client.register_product(&owner, &String::from_str(&env, "B"), &2u64);
    assert_eq!(id1, 1);
    assert_eq!(id2, 2);
    assert_eq!(client.product_count(), 2);
}

#[test]
fn test_register_product_empty_name_fails() {
    let (env, _admin, client) = setup();
    let owner = Address::generate(&env);
    let result = client.try_register_product(&owner, &String::from_str(&env, ""), &1u64);
    assert_eq!(result, Err(Ok(Error::EmptyName)));
}

#[test]
fn test_add_checkpoint_requires_handler() {
    let (env, _admin, client) = setup();
    let owner = Address::generate(&env);
    let id = client.register_product(&owner, &String::from_str(&env, "Widget"), &1u64);
    let non_handler = Address::generate(&env);
    let result = client.try_add_checkpoint(&non_handler, &id, &111u64, &222u64);
    assert_eq!(result, Err(Ok(Error::NotHandler)));
}

#[test]
fn test_add_checkpoint_updates_status() {
    let (env, admin, client) = setup();
    let handler = Address::generate(&env);
    client.add_handler(&admin, &handler);
    let owner = Address::generate(&env);
    let id = client.register_product(&owner, &String::from_str(&env, "Widget"), &1u64);
    let cp_index = client.add_checkpoint(&handler, &id, &111u64, &222u64);
    assert_eq!(cp_index, 1);
    let product = client.get_product(&id);
    assert_eq!(product.status, ProductStatus::InTransit);
    assert_eq!(client.get_checkpoint_count(&id), 1);
}

#[test]
fn test_multiple_checkpoints_accumulate() {
    let (env, admin, client) = setup();
    let handler = Address::generate(&env);
    client.add_handler(&admin, &handler);
    let owner = Address::generate(&env);
    let id = client.register_product(&owner, &String::from_str(&env, "Widget"), &1u64);
    client.add_checkpoint(&handler, &id, &1u64, &0u64);
    client.add_checkpoint(&handler, &id, &2u64, &0u64);
    client.add_checkpoint(&handler, &id, &3u64, &0u64);
    assert_eq!(client.get_checkpoint_count(&id), 3);
}

#[test]
fn test_quality_report_pass_sets_approved() {
    let (env, admin, client) = setup();
    let inspector = Address::generate(&env);
    client.add_inspector(&admin, &inspector);
    let owner = Address::generate(&env);
    let id = client.register_product(&owner, &String::from_str(&env, "Widget"), &1u64);
    client.submit_quality_report(&inspector, &id, &QualityResult::Pass, &999u64);
    let product = client.get_product(&id);
    assert_eq!(product.status, ProductStatus::Approved);
    let report = client.get_quality_report(&id);
    assert_eq!(report.result, QualityResult::Pass);
    assert_eq!(report.report_hash, 999u64);
}

#[test]
fn test_quality_report_fail_sets_rejected() {
    let (env, admin, client) = setup();
    let inspector = Address::generate(&env);
    client.add_inspector(&admin, &inspector);
    let owner = Address::generate(&env);
    let id = client.register_product(&owner, &String::from_str(&env, "Widget"), &1u64);
    client.submit_quality_report(&inspector, &id, &QualityResult::Fail, &0u64);
    assert_eq!(client.get_product(&id).status, ProductStatus::Rejected);
}

#[test]
fn test_quality_report_requires_inspector() {
    let (env, _admin, client) = setup();
    let non_inspector = Address::generate(&env);
    let owner = Address::generate(&env);
    let id = client.register_product(&owner, &String::from_str(&env, "Widget"), &1u64);
    let result = client.try_submit_quality_report(&non_inspector, &id, &QualityResult::Pass, &0u64);
    assert_eq!(result, Err(Ok(Error::NotInspector)));
}

#[test]
fn test_recall_product() {
    let (env, admin, client) = setup();
    let owner = Address::generate(&env);
    let id = client.register_product(&owner, &String::from_str(&env, "Widget"), &1u64);
    client.recall_product(&admin, &id);
    assert_eq!(client.get_product(&id).status, ProductStatus::Recalled);
}

#[test]
fn test_recall_twice_fails() {
    let (env, admin, client) = setup();
    let owner = Address::generate(&env);
    let id = client.register_product(&owner, &String::from_str(&env, "Widget"), &1u64);
    client.recall_product(&admin, &id);
    let result = client.try_recall_product(&admin, &id);
    assert_eq!(result, Err(Ok(Error::AlreadyRecalled)));
}

#[test]
fn test_checkpoint_on_recalled_product_fails() {
    let (env, admin, client) = setup();
    let handler = Address::generate(&env);
    client.add_handler(&admin, &handler);
    let owner = Address::generate(&env);
    let id = client.register_product(&owner, &String::from_str(&env, "Widget"), &1u64);
    client.recall_product(&admin, &id);
    let result = client.try_add_checkpoint(&handler, &id, &1u64, &0u64);
    assert_eq!(result, Err(Ok(Error::AlreadyRecalled)));
}

#[test]
fn test_update_status_by_admin() {
    let (env, admin, client) = setup();
    let owner = Address::generate(&env);
    let id = client.register_product(&owner, &String::from_str(&env, "Widget"), &1u64);
    client.update_status(&admin, &id, &ProductStatus::Delivered);
    assert_eq!(client.get_product(&id).status, ProductStatus::Delivered);
}

#[test]
fn test_update_status_unauthorized_fails() {
    let (env, _admin, client) = setup();
    let owner = Address::generate(&env);
    let id = client.register_product(&owner, &String::from_str(&env, "Widget"), &1u64);
    let rando = Address::generate(&env);
    let result = client.try_update_status(&rando, &id, &ProductStatus::Delivered);
    assert_eq!(result, Err(Ok(Error::Unauthorized)));
}

#[test]
fn test_recall_unauthorized_fails() {
    let (env, _admin, client) = setup();
    let owner = Address::generate(&env);
    let id = client.register_product(&owner, &String::from_str(&env, "Widget"), &1u64);
    let rando = Address::generate(&env);
    let result = client.try_recall_product(&rando, &id);
    assert_eq!(result, Err(Ok(Error::Unauthorized)));
}

// ── Cold Chain SLA ────────────────────────────────────────────────────────────

use soroban_playground::supply_chain::{SlaStatus, TemperatureLogStatus};

#[test]
fn test_create_cold_chain_sla() {
    let (env, admin, client) = setup();
    let owner = Address::generate(&env);
    let id = client.register_product(&owner, &String::from_str(&env, "Vaccine"), &1u64);

    let sla_id = client.create_cold_chain_sla(
        &admin, &id, &2,     // min temp
        &8,     // max temp
        &30,    // max violation minutes
        &1000,  // penalty per violation
        &50000, // deposit
        &86400, // duration (1 day)
    );

    assert_eq!(sla_id, 1);
    assert_eq!(client.get_sla_count(), 1);

    let sla = client.get_cold_chain_sla(&sla_id);
    assert_eq!(sla.product_id, id);
    assert_eq!(sla.min_temp_celsius, 2);
    assert_eq!(sla.max_temp_celsius, 8);
    assert_eq!(sla.status, SlaStatus::Active);
}

#[test]
fn test_create_cold_chain_sla_invalid_range() {
    let (env, admin, client) = setup();
    let owner = Address::generate(&env);
    let id = client.register_product(&owner, &String::from_str(&env, "Vaccine"), &1u64);

    assert_eq!(
        client.try_create_cold_chain_sla(
            &admin, &id, &10, // min > max
            &5,  // max
            &30, &1000, &50000, &86400,
        ),
        Err(Ok(Error::InvalidTemperatureRange))
    );
}

#[test]
fn test_log_temperature_normal() {
    let (env, admin, client) = setup();
    let owner = Address::generate(&env);
    let recorder = Address::generate(&env);
    let id = client.register_product(&owner, &String::from_str(&env, "Vaccine"), &1u64);

    client.create_cold_chain_sla(&admin, &id, &2, &8, &30, &1000, &50000, &86400);

    client.log_temperature(&recorder, &id, &5, &60, &12345);
    let log = client.get_temperature_log(&id, &env.ledger().timestamp());
    assert!(log.is_some());
    assert_eq!(log.unwrap().status, TemperatureLogStatus::Normal);
}

#[test]
fn test_log_temperature_violation() {
    let (env, admin, client) = setup();
    let owner = Address::generate(&env);
    let recorder = Address::generate(&env);
    let id = client.register_product(&owner, &String::from_str(&env, "Vaccine"), &1u64);

    client.create_cold_chain_sla(&admin, &id, &2, &8, &30, &1000, &50000, &86400);

    // Temperature below minimum
    client.log_temperature(&recorder, &id, &0, &60, &12345);

    let sla = client.get_cold_chain_sla(&1);
    assert_eq!(sla.violation_count, 1);
    assert_eq!(sla.total_penalties, 1000);

    let product = client.get_product(&id);
    assert_eq!(product.status, ProductStatus::TemperatureViolation);
}

#[test]
fn test_log_temperature_violation_above_max() {
    let (env, admin, client) = setup();
    let owner = Address::generate(&env);
    let recorder = Address::generate(&env);
    let id = client.register_product(&owner, &String::from_str(&env, "Vaccine"), &1u64);

    client.create_cold_chain_sla(&admin, &id, &2, &8, &30, &1000, &50000, &86400);

    // Temperature above maximum
    client.log_temperature(&recorder, &id, &15, &60, &12345);

    let sla = client.get_cold_chain_sla(&1);
    assert_eq!(sla.violation_count, 1);
}

#[test]
fn test_multiple_violations_accumulate() {
    let (env, admin, client) = setup();
    let owner = Address::generate(&env);
    let recorder = Address::generate(&env);
    let id = client.register_product(&owner, &String::from_str(&env, "Vaccine"), &1u64);

    client.create_cold_chain_sla(&admin, &id, &2, &8, &30, &1000, &50000, &86400);

    // Multiple violations
    client.log_temperature(&recorder, &id, &0, &60, &111);
    client.log_temperature(&recorder, &id, &15, &60, &222);

    let sla = client.get_cold_chain_sla(&1);
    assert_eq!(sla.violation_count, 2);
    assert_eq!(sla.total_penalties, 2000);
}

#[test]
fn test_penalty_count() {
    let (env, admin, client) = setup();
    let owner = Address::generate(&env);
    let recorder = Address::generate(&env);
    let id = client.register_product(&owner, &String::from_str(&env, "Vaccine"), &1u64);

    client.create_cold_chain_sla(&admin, &id, &2, &8, &30, &1000, &50000, &86400);

    client.log_temperature(&recorder, &id, &0, &60, &111);
    client.log_temperature(&recorder, &id, &15, &60, &222);

    assert_eq!(client.get_penalty_count(), 2);
}

#[test]
fn test_get_penalty_record() {
    let (env, admin, client) = setup();
    let owner = Address::generate(&env);
    let recorder = Address::generate(&env);
    let id = client.register_product(&owner, &String::from_str(&env, "Vaccine"), &1u64);

    client.create_cold_chain_sla(&admin, &id, &2, &8, &30, &1000, &50000, &86400);

    client.log_temperature(&recorder, &id, &0, &60, &111);
    let penalty = client.get_penalty_record(&1);
    assert_eq!(penalty.product_id, id);
    assert_eq!(penalty.penalty_amount, 1000);
}

#[test]
fn test_no_sla_means_normal_temperature() {
    let (env, _admin, client) = setup();
    let owner = Address::generate(&env);
    let recorder = Address::generate(&env);
    let id = client.register_product(&owner, &String::from_str(&env, "Vaccine"), &1u64);

    // No SLA created - should be normal
    client.log_temperature(&recorder, &id, &50, &60, &12345);
    let log = client.get_temperature_log(&id, &env.ledger().timestamp());
    assert!(log.is_some());
    assert_eq!(log.unwrap().status, TemperatureLogStatus::Normal);
}
