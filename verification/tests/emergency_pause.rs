//! The pause contract's scenarios, driven through a small client that
//! plays the host's part: it keeps the ledger clock and hands out fresh
//! addresses.

use std::cell::{Cell, RefCell};
use std::rc::Rc;

use soroban_playground::common::Address;
use soroban_playground::emergency_pause::{EmergencyPause, Error, PauseAction, PauseProposal};

type String = Vec<u8>;

#[derive(Clone)]
struct TestEnv {
    time: Rc<Cell<u64>>,
    next_address: Rc<Cell<u64>>,
}

impl TestEnv {
    fn default() -> TestEnv {
        TestEnv { time: Rc::new(Cell::new(1_000)), next_address: Rc::new(Cell::new(100)) }
    }
}

trait Generate {
    fn generate(env: &TestEnv) -> Self;
}

impl Generate for Address {
    fn generate(env: &TestEnv) -> Address {
        let a = env.next_address.get();
        env.next_address.set(a + 1);
        a
    }
}

struct EmergencyPauseClient {
    env: TestEnv,
    c: RefCell<EmergencyPause>,
}

impl EmergencyPauseClient {
    fn new(env: &TestEnv) -> EmergencyPauseClient {
        EmergencyPauseClient { env: env.clone(), c: RefCell::new(EmergencyPause::new()) }
    }
    fn now(&self) -> u64 {
        self.env.time.get()
    }
    fn try_initialize(&self, admin: &Address, threshold: &u32) -> Result<(), Result<Error, ()>> {
        self.c.borrow_mut().initialize(*admin, *threshold).map_err(Ok)
    }
    fn initialize(&self, admin: &Address, threshold: &u32) {
        self.try_initialize(admin, threshold).unwrap()
    }
    fn try_add_guardian(&self, caller: &Address, g: &Address) -> Result<(), Result<Error, ()>> {
        self.c.borrow_mut().add_guardian(*caller, *g).map_err(Ok)
    }
    fn add_guardian(&self, caller: &Address, g: &Address) {
        self.try_add_guardian(caller, g).unwrap()
    }
    fn try_remove_guardian(&self, caller: &Address, g: &Address) -> Result<(), Result<Error, ()>> {
        self.c.borrow_mut().remove_guardian(*caller, *g).map_err(Ok)
    }
    fn remove_guardian(&self, caller: &Address, g: &Address) {
        self.try_remove_guardian(caller, g).unwrap()
    }
    fn is_guardian(&self, a: &Address) -> bool {
        self.c.borrow().is_guardian(*a)
    }
    fn guardian_count(&self) -> u32 {
        self.c.borrow().guardian_count()
    }
    fn try_set_threshold(&self, caller: &Address, t: &u32) -> Result<(), Result<Error, ()>> {
        self.c.borrow_mut().set_threshold(*caller, *t).map_err(Ok)
    }
    fn set_threshold(&self, caller: &Address, t: &u32) {
        self.try_set_threshold(caller, t).unwrap()
    }
    fn get_threshold(&self) -> Result<u32, Error> {
        self.c.borrow().get_threshold()
    }
    fn try_create_proposal(
        &self,
        proposer: &Address,
        action: &PauseAction,
        reason: &String,
        ttl: &u64,
    ) -> Result<u32, Result<Error, ()>> {
        let now = self.now();
        self.c.borrow_mut().create_proposal(now, *proposer, *action, reason.clone(), *ttl).map_err(Ok)
    }
    fn create_proposal(&self, proposer: &Address, action: &PauseAction, reason: &String, ttl: &u64) -> u32 {
        self.try_create_proposal(proposer, action, reason, ttl).unwrap()
    }
    fn try_sign_proposal(&self, signer: &Address, id: &u32) -> Result<(), Result<Error, ()>> {
        let now = self.now();
        self.c.borrow_mut().sign_proposal(now, *signer, *id).map_err(Ok)
    }
    fn sign_proposal(&self, signer: &Address, id: &u32) {
        self.try_sign_proposal(signer, id).unwrap()
    }
    fn try_execute_proposal(&self, executor: &Address, id: &u32) -> Result<(), Result<Error, ()>> {
        let now = self.now();
        self.c.borrow_mut().execute_proposal(now, *executor, *id).map_err(Ok)
    }
    fn execute_proposal(&self, executor: &Address, id: &u32) {
        self.try_execute_proposal(executor, id).unwrap()
    }
    fn get_proposal(&self, id: &u32) -> PauseProposal {
        self.c.borrow().get_proposal(*id).unwrap().clone()
    }
    fn proposal_count(&self) -> u32 {
        self.c.borrow().proposal_count()
    }
    fn paused(&self) -> bool {
        self.c.borrow().paused()
    }
    fn get_pause_reason(&self) -> Option<String> {
        self.c.borrow().get_pause_reason()
    }
    fn get_pause_timestamp(&self) -> Option<u64> {
        self.c.borrow().get_pause_timestamp()
    }
    fn get_admin(&self) -> Address {
        self.c.borrow().get_admin().unwrap()
    }
    fn try_do_action(&self, caller: &Address) -> Result<(), Result<Error, ()>> {
        self.c.borrow().do_action(*caller).map_err(Ok)
    }
    fn do_action(&self, caller: &Address) {
        self.try_do_action(caller).unwrap()
    }
}

fn setup() -> (TestEnv, Address, EmergencyPauseClient) {
    setup_with_threshold(2)
}

fn setup_with_threshold(threshold: u32) -> (TestEnv, Address, EmergencyPauseClient) {
    let env = TestEnv::default();
    let client = EmergencyPauseClient::new(&env);
    let admin = Address::generate(&env);
    client.initialize(&admin, &threshold);
    (env, admin, client)
}

fn advance_time(env: &TestEnv, delta: u64) {
    env.time.set(env.time.get() + delta);
}

fn make_str(_env: &TestEnv, s: &str) -> String {
    s.as_bytes().to_vec()
}

// ── init ──────────────────────────────────────────────────────────────────────

#[test]
fn test_init_sets_admin() {
    let (_, admin, client) = setup();
    assert_eq!(client.get_admin(), admin);
}

#[test]
fn init_starts_unpaused() {
    let (_, _, client) = setup();
    assert!(!client.paused());
}

#[test]
fn init_sets_threshold() {
    let (_, _, client) = setup();
    assert_eq!(client.get_threshold(), Ok(2));
}

#[test]
fn init_with_threshold_1() {
    let (_, _, client) = setup_with_threshold(1);
    assert_eq!(client.get_threshold(), Ok(1));
}

#[test]
fn init_with_zero_threshold_fails() {
    let env = TestEnv::default();
    let client = EmergencyPauseClient::new(&env);
    let admin = Address::generate(&env);
    assert_eq!(
        client.try_initialize(&admin, &0),
        Err(Ok(Error::InvalidThreshold))
    );
}

// ── Guardian management ───────────────────────────────────────────────────────

#[test]
fn add_guardian_works() {
    let (env, admin, client) = setup();
    let guardian = Address::generate(&env);
    client.add_guardian(&admin, &guardian);
    assert!(client.is_guardian(&guardian));
    assert_eq!(client.guardian_count(), 1);
}

#[test]
fn add_guardian_duplicate_fails() {
    let (env, admin, client) = setup();
    let guardian = Address::generate(&env);
    client.add_guardian(&admin, &guardian);
    assert_eq!(
        client.try_add_guardian(&admin, &guardian),
        Err(Ok(Error::GuardianAlreadyAdded))
    );
}

#[test]
fn add_guardian_by_non_admin_fails() {
    let (env, _, client) = setup();
    let guardian = Address::generate(&env);
    let stranger = Address::generate(&env);
    assert_eq!(
        client.try_add_guardian(&stranger, &guardian),
        Err(Ok(Error::Unauthorized))
    );
}

#[test]
fn remove_guardian_works() {
    let (env, admin, client) = setup();
    let guardian = Address::generate(&env);
    client.add_guardian(&admin, &guardian);
    assert!(client.is_guardian(&guardian));
    client.remove_guardian(&admin, &guardian);
    assert!(!client.is_guardian(&guardian));
    assert_eq!(client.guardian_count(), 0);
}

#[test]
fn remove_guardian_not_found_fails() {
    let (env, admin, client) = setup();
    let guardian = Address::generate(&env);
    assert_eq!(
        client.try_remove_guardian(&admin, &guardian),
        Err(Ok(Error::GuardianNotFound))
    );
}

// ── Threshold ─────────────────────────────────────────────────────────────────

#[test]
fn set_threshold_zero_fails() {
    let (env, admin, client) = setup();
    assert_eq!(
        client.try_set_threshold(&admin, &0),
        Err(Ok(Error::InvalidThreshold))
    );
}

#[test]
fn set_threshold_too_high_fails() {
    let (env, admin, client) = setup();
    // Default threshold is 2, guardian count is 0
    // Max threshold = guardian_count + 1 = 1
    assert_eq!(
        client.try_set_threshold(&admin, &5),
        Err(Ok(Error::InvalidThreshold))
    );
}

#[test]
fn set_threshold_by_non_admin_fails() {
    let (env, _, client) = setup();
    let stranger = Address::generate(&env);
    assert_eq!(
        client.try_set_threshold(&stranger, &1),
        Err(Ok(Error::Unauthorized))
    );
}

// ── Proposal lifecycle ────────────────────────────────────────────────────────

#[test]
fn create_proposal_works() {
    let (env, admin, client) = setup();
    let id = client.create_proposal(
        &admin,
        &PauseAction::Pause,
        &make_str(&env, "security incident"),
        &3600,
    );
    assert_eq!(id, 1);
    assert_eq!(client.proposal_count(), 1);
    let proposal = client.get_proposal(&id);
    assert_eq!(proposal.proposer, admin);
    assert_eq!(proposal.action, PauseAction::Pause);
    assert!(!proposal.executed);
}

#[test]
fn create_proposal_by_non_guardian_works() {
    let (env, _, client) = setup();
    let rando = Address::generate(&env);
    let id = client.create_proposal(
        &rando,
        &PauseAction::Pause,
        &make_str(&env, "request"),
        &3600,
    );
    assert_eq!(id, 1);
}

#[test]
fn create_proposal_empty_reason_works() {
    let (env, admin, client) = setup();
    let id = client.create_proposal(&admin, &PauseAction::Pause, &make_str(&env, ""), &3600);
    assert_eq!(id, 1);
}

#[test]
fn create_proposal_on_uninitialized_fails() {
    let env = TestEnv::default();
    let client = EmergencyPauseClient::new(&env);
    let rando = Address::generate(&env);
    assert_eq!(
        client.try_create_proposal(
            &rando,
            &PauseAction::Pause,
            &make_str(&env, "reason"),
            &3600,
        ),
        Err(Ok(Error::NotInitialized))
    );
}

// ── Sign proposal ─────────────────────────────────────────────────────────────

#[test]
fn sign_proposal_works() {
    let (env, admin, client) = setup();
    let guardian = Address::generate(&env);
    client.add_guardian(&admin, &guardian);
    let id = client.create_proposal(
        &admin,
        &PauseAction::Pause,
        &make_str(&env, "reason"),
        &3600,
    );
    client.sign_proposal(&guardian, &id);
    let proposal = client.get_proposal(&id);
    assert_eq!(proposal.signers.len(), 1);
}

#[test]
fn sign_proposal_by_non_guardian_fails() {
    let (env, admin, client) = setup();
    let id = client.create_proposal(
        &admin,
        &PauseAction::Pause,
        &make_str(&env, "reason"),
        &3600,
    );
    let stranger = Address::generate(&env);
    assert_eq!(
        client.try_sign_proposal(&stranger, &id),
        Err(Ok(Error::Unauthorized))
    );
}

#[test]
fn sign_proposal_already_signed_fails() {
    let (env, admin, client) = setup();
    let guardian = Address::generate(&env);
    client.add_guardian(&admin, &guardian);
    let id = client.create_proposal(
        &admin,
        &PauseAction::Pause,
        &make_str(&env, "reason"),
        &3600,
    );
    client.sign_proposal(&guardian, &id);
    assert_eq!(
        client.try_sign_proposal(&guardian, &id),
        Err(Ok(Error::AlreadyExists))
    );
}

#[test]
fn sign_proposal_expired_fails() {
    let (env, admin, client) = setup();
    let guardian = Address::generate(&env);
    client.add_guardian(&admin, &guardian);
    let id = client.create_proposal(&admin, &PauseAction::Pause, &make_str(&env, "reason"), &100);
    advance_time(&env, 200);
    assert_eq!(
        client.try_sign_proposal(&guardian, &id),
        Err(Ok(Error::ProposalExpired))
    );
}

#[test]
fn sign_proposal_executed_fails() {
    let (env, admin, client) = setup();
    let guardian1 = Address::generate(&env);
    let guardian2 = Address::generate(&env);
    client.add_guardian(&admin, &guardian1);
    client.add_guardian(&admin, &guardian2);
    let id = client.create_proposal(
        &admin,
        &PauseAction::Pause,
        &make_str(&env, "reason"),
        &3600,
    );
    client.sign_proposal(&guardian1, &id);
    client.sign_proposal(&guardian2, &id);
    client.execute_proposal(&admin, &id);
    assert_eq!(
        client.try_sign_proposal(&guardian1, &id),
        Err(Ok(Error::ProposalAlreadyExecuted))
    );
}

// ── Execute proposal ──────────────────────────────────────────────────────────

#[test]
fn execute_proposal_pause_works() {
    let (env, admin, client) = setup();
    let guardian1 = Address::generate(&env);
    let guardian2 = Address::generate(&env);
    client.add_guardian(&admin, &guardian1);
    client.add_guardian(&admin, &guardian2);
    let id = client.create_proposal(
        &admin,
        &PauseAction::Pause,
        &make_str(&env, "emergency"),
        &3600,
    );
    client.sign_proposal(&guardian1, &id);
    client.sign_proposal(&guardian2, &id);
    client.execute_proposal(&admin, &id);
    assert!(client.paused());
    assert_eq!(client.get_pause_reason(), Some(make_str(&env, "emergency")));
    assert!(client.get_pause_timestamp().is_some());
}

#[test]
fn execute_proposal_unpause_works() {
    let (env, admin, client) = setup();
    let guardian1 = Address::generate(&env);
    let guardian2 = Address::generate(&env);
    client.add_guardian(&admin, &guardian1);
    client.add_guardian(&admin, &guardian2);

    // Pause first
    let id1 = client.create_proposal(&admin, &PauseAction::Pause, &make_str(&env, "pause"), &3600);
    client.sign_proposal(&guardian1, &id1);
    client.sign_proposal(&guardian2, &id1);
    client.execute_proposal(&admin, &id1);
    assert!(client.paused());

    // Unpause
    let id2 = client.create_proposal(
        &admin,
        &PauseAction::Unpause,
        &make_str(&env, "resume"),
        &3600,
    );
    client.sign_proposal(&guardian1, &id2);
    client.sign_proposal(&guardian2, &id2);
    client.execute_proposal(&admin, &id2);
    assert!(!client.paused());
}

#[test]
fn execute_proposal_insufficient_signatures_fails() {
    let (env, admin, client) = setup();
    let guardian = Address::generate(&env);
    client.add_guardian(&admin, &guardian);
    let id = client.create_proposal(
        &admin,
        &PauseAction::Pause,
        &make_str(&env, "reason"),
        &3600,
    );
    client.sign_proposal(&guardian, &id);
    assert_eq!(
        client.try_execute_proposal(&admin, &id),
        Err(Ok(Error::InsufficientSignatures))
    );
}

#[test]
fn execute_proposal_expired_fails() {
    let (env, admin, client) = setup();
    let guardian = Address::generate(&env);
    client.add_guardian(&admin, &guardian);
    let id = client.create_proposal(&admin, &PauseAction::Pause, &make_str(&env, "reason"), &100);
    advance_time(&env, 200);
    assert_eq!(
        client.try_execute_proposal(&admin, &id),
        Err(Ok(Error::ProposalExpired))
    );
}

#[test]
fn execute_proposal_not_found_fails() {
    let (env, admin, client) = setup();
    assert_eq!(
        client.try_execute_proposal(&admin, &999),
        Err(Ok(Error::ProposalNotFound))
    );
}

// ── Queries ───────────────────────────────────────────────────────────────────

#[test]
fn get_pause_reason_none_when_not_paused() {
    let (_, _, client) = setup();
    assert!(client.get_pause_reason().is_none());
}

#[test]
fn get_pause_timestamp_none_when_not_paused() {
    let (_, _, client) = setup();
    assert!(client.get_pause_timestamp().is_none());
}

// ── do_action ─────────────────────────────────────────────────────────────────

#[test]
fn do_action_succeeds_when_unpaused() {
    let (env, _, client) = setup();
    let user = Address::generate(&env);
    client.do_action(&user);
}

// ── Full lifecycle cycles ─────────────────────────────────────────────────────

#[test]
fn proposal_count_increments() {
    let (env, admin, client) = setup();
    assert_eq!(client.proposal_count(), 0);
    client.create_proposal(&admin, &PauseAction::Pause, &make_str(&env, "p1"), &3600);
    assert_eq!(client.proposal_count(), 1);
    client.create_proposal(&admin, &PauseAction::Pause, &make_str(&env, "p2"), &3600);
    assert_eq!(client.proposal_count(), 2);
}

// ── Property: only admin can change state ─────────────────────────────────────

#[test]
fn non_admin_cannot_add_guardian() {
    let (env, _, client) = setup();
    let stranger = Address::generate(&env);
    let guardian = Address::generate(&env);
    assert_eq!(
        client.try_add_guardian(&stranger, &guardian),
        Err(Ok(Error::Unauthorized))
    );
}

#[test]
fn non_admin_cannot_remove_guardian() {
    let (env, admin, client) = setup();
    let guardian = Address::generate(&env);
    client.add_guardian(&admin, &guardian);
    let stranger = Address::generate(&env);
    assert_eq!(
        client.try_remove_guardian(&stranger, &guardian),
        Err(Ok(Error::Unauthorized))
    );
}

#[test]
fn non_admin_cannot_set_threshold() {
    let (env, _, client) = setup();
    let stranger = Address::generate(&env);
    assert_eq!(
        client.try_set_threshold(&stranger, &1),
        Err(Ok(Error::Unauthorized))
    );
}

// ── Additional coverage ───────────────────────────────────────────────────────

#[test]
fn paused_query_is_false_initially() {
    let (_, _, client) = setup();
    assert_eq!(client.paused(), false);
}

#[test]
fn admin_can_be_guardian() {
    let (env, admin, client) = setup();
    client.add_guardian(&admin, &admin);
    assert!(client.is_guardian(&admin));
}

#[test]
fn guardian_can_sign_multiple_proposals() {
    let (env, admin, client) = setup();
    let guardian = Address::generate(&env);
    client.add_guardian(&admin, &guardian);

    let id1 = client.create_proposal(&admin, &PauseAction::Pause, &make_str(&env, "p1"), &3600);
    let id2 = client.create_proposal(&admin, &PauseAction::Pause, &make_str(&env, "p2"), &3600);

    client.sign_proposal(&guardian, &id1);
    client.sign_proposal(&guardian, &id2);

    assert_eq!(client.get_proposal(&id1).signers.len(), 1);
    assert_eq!(client.get_proposal(&id2).signers.len(), 1);
}

#[test]
fn multiple_guards_can_sign_same_proposal() {
    let (env, admin, client) = setup();
    let g1 = Address::generate(&env);
    let g2 = Address::generate(&env);
    let g3 = Address::generate(&env);
    client.add_guardian(&admin, &g1);
    client.add_guardian(&admin, &g2);
    client.add_guardian(&admin, &g3);

    let id = client.create_proposal(
        &admin,
        &PauseAction::Pause,
        &make_str(&env, "critical"),
        &3600,
    );

    client.sign_proposal(&g1, &id);
    client.sign_proposal(&g2, &id);
    client.sign_proposal(&g3, &id);

    assert_eq!(client.get_proposal(&id).signers.len(), 3);
}

#[test]
fn threshold_1_allows_single_guardian_execution() {
    let (env, admin, client) = setup_with_threshold(1);
    let guardian = Address::generate(&env);
    client.add_guardian(&admin, &guardian);

    let id = client.create_proposal(
        &admin,
        &PauseAction::Pause,
        &make_str(&env, "quick pause"),
        &3600,
    );
    client.sign_proposal(&guardian, &id);
    client.execute_proposal(&admin, &id);
    assert!(client.paused());
}


// ── Cycles with the threshold met ─────────────────────────────────────────────

fn two_guardians(env: &TestEnv, admin: &Address, client: &EmergencyPauseClient) -> (Address, Address) {
    let g1 = Address::generate(env);
    let g2 = Address::generate(env);
    client.add_guardian(admin, &g1);
    client.add_guardian(admin, &g2);
    (g1, g2)
}

fn pass(client: &EmergencyPauseClient, admin: &Address, g: (Address, Address), action: PauseAction, why: &str) -> u32 {
    let id = client.create_proposal(admin, &action, &why.as_bytes().to_vec(), &3600);
    client.sign_proposal(&g.0, &id);
    client.sign_proposal(&g.1, &id);
    id
}

#[test]
fn pause_and_resume_with_two_signatures() {
    let (env, admin, client) = setup();
    let g = two_guardians(&env, &admin, &client);
    let user = Address::generate(&env);
    client.do_action(&user);
    let id = pass(&client, &admin, g, PauseAction::Pause, "incident");
    client.execute_proposal(&admin, &id);
    assert!(client.paused());
    assert_eq!(client.get_pause_timestamp(), Some(1_000));
    assert_eq!(client.try_do_action(&user), Err(Ok(Error::ContractPaused)));
    assert_eq!(client.get_admin(), admin);
    let id2 = pass(&client, &admin, g, PauseAction::Unpause, "fixed");
    client.execute_proposal(&admin, &id2);
    assert!(!client.paused());
    assert!(client.get_pause_reason().is_none());
    assert!(client.get_pause_timestamp().is_none());
    client.do_action(&user);
}

#[test]
fn executed_proposal_cannot_run_again() {
    let (env, admin, client) = setup();
    let g = two_guardians(&env, &admin, &client);
    let id = pass(&client, &admin, g, PauseAction::Pause, "incident");
    client.execute_proposal(&admin, &id);
    assert!(client.get_proposal(&id).executed);
    assert_eq!(client.try_execute_proposal(&admin, &id), Err(Ok(Error::ProposalAlreadyExecuted)));
}

#[test]
fn pausing_twice_or_resuming_a_running_contract_is_refused() {
    let (env, admin, client) = setup();
    let g = two_guardians(&env, &admin, &client);
    let resume = pass(&client, &admin, g, PauseAction::Unpause, "noop");
    assert_eq!(client.try_execute_proposal(&admin, &resume), Err(Ok(Error::AlreadyInState)));
    let p1 = pass(&client, &admin, g, PauseAction::Pause, "first");
    client.execute_proposal(&admin, &p1);
    let p2 = pass(&client, &admin, g, PauseAction::Pause, "second");
    assert_eq!(client.try_execute_proposal(&admin, &p2), Err(Ok(Error::AlreadyInState)));
    assert_eq!(client.get_pause_reason(), Some(b"first".to_vec()));
}

#[test]
fn threshold_can_rise_to_guardian_count_plus_one() {
    let (env, admin, client) = setup();
    two_guardians(&env, &admin, &client);
    client.set_threshold(&admin, &3);
    assert_eq!(client.get_threshold(), Ok(3));
    assert_eq!(client.try_set_threshold(&admin, &4), Err(Ok(Error::InvalidThreshold)));
}
