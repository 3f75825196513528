//! Both ways to stop the escrow: the pause of the admin and the emergency freeze.

use milestone_escrow::events::{EmergencyPauseAdminOverrideEvent, Event};
use milestone_escrow::host::{Action, Host, Ledger};
use milestone_escrow::types::{Address, AddressKind, Error, Milestone};
use milestone_escrow::MilestoneEscrow;
use soroban_sdk::testutils::EnvTestConfig;
use soroban_sdk::Env;

/// Why a call came to nothing: the contract refused it, or the host did.
#[derive(Clone, Copy, Debug, PartialEq)]
enum Refusal {
    Contract(Error),
    Host,
}

fn refused<T>(error: Error) -> Result<T, Refusal> {
    Err(Refusal::Contract(error))
}

fn list(amounts: &[i128]) -> soroban_sdk::Vec<i128> {
    let env = Env::new_with_config(EnvTestConfig { capture_snapshot_at_drop: false });
    soroban_sdk::Vec::from_slice(&env, amounts)
}

/// A chain with one escrow contract and one token on it.
#[allow(dead_code)]
struct Chain {
    contract: Address,
    client: Address,
    freelancer: Address,
    arbiter: Address,
    admin: Address,
    token: Address,
    now: u64,
    ledger: Ledger,
    /// Who holds how much of the token.
    holdings: Vec<(Address, i128)>,
    /// Who signs every call; everybody, if this is `None`.
    signers: Option<Vec<Address>>,
    /// What the last call published.
    events: Vec<Event>,
    /// What all calls published.
    log: Vec<Event>,
    addresses: u128,
}

#[allow(dead_code)]
impl Chain {
    /// A chain whose contract has not been set up.
    fn bare() -> Chain {
        let contract = Address { kind: AddressKind::Contract, hi: 1, lo: 0 };
        let mut chain = Chain {
            contract,
            client: contract,
            freelancer: contract,
            arbiter: contract,
            admin: contract,
            token: Address { kind: AddressKind::Contract, hi: 2, lo: 0 },
            now: 0,
            ledger: Ledger::new(),
            holdings: Vec::new(),
            signers: None,
            events: Vec::new(),
            log: Vec::new(),
            addresses: 0,
        };
        chain.client = chain.generate();
        chain.freelancer = chain.generate();
        chain.arbiter = chain.generate();
        chain.admin = chain.generate();
        chain
    }

    /// A chain with a job that has not been funded.
    fn initialized(amounts: &[i128]) -> Chain {
        let mut chain = Chain::bare();
        let (admin, client, freelancer) = (chain.admin, chain.client, chain.freelancer);
        let (arbiter, token) = (chain.arbiter, chain.token);
        chain
            .call(|h| {
                MilestoneEscrow::initialize(
                    h,
                    admin,
                    client,
                    freelancer,
                    arbiter,
                    token,
                    604_800,
                    list(amounts),
                )
            })
            .unwrap();
        chain
    }

    /// A chain with a job into which its client has paid all they own.
    fn funded(amounts: &[i128]) -> Chain {
        let mut chain = Chain::initialized(amounts);
        let client = chain.client;
        chain.mint(client, amounts.iter().sum());
        chain.call(|h| MilestoneEscrow::fund(h, client)).unwrap();
        chain
    }

    /// An account that nobody has seen before.
    fn generate(&mut self) -> Address {
        self.addresses += 1;
        Address { kind: AddressKind::Account, hi: 7, lo: self.addresses }
    }

    fn balance(&self, who: Address) -> i128 {
        self.holdings.iter().filter(|h| h.0 == who).map(|h| h.1).sum()
    }

    fn mint(&mut self, who: Address, amount: i128) {
        self.holdings.push((who, amount));
    }

    /// Moves tokens, if there are enough.
    fn transfer(&mut self, from: Address, to: Address, amount: i128) -> bool {
        if amount < 0 || self.balance(from) < amount {
            return false;
        }
        self.holdings.push((from, -amount));
        self.holdings.push((to, amount));
        true
    }

    fn host(&self) -> Host {
        Host::new(self.contract, self.now, self.balance(self.contract), self.ledger.clone())
    }

    /// Calls the contract, and keeps what the call did only if it was accepted,
    /// everybody whose signature it asked for signed, and all transfers worked.
    fn call<T>(
        &mut self,
        endpoint: impl FnOnce(&mut Host) -> Result<T, Error>,
    ) -> Result<T, Refusal> {
        let mut host = self.host();
        let result = endpoint(&mut host);
        self.events = Vec::new();
        for address in &host.auths {
            if self.signers.as_ref().map_or(false, |s| !s.contains(address)) {
                return Err(Refusal::Host);
            }
        }
        let value = result.map_err(Refusal::Contract)?;
        let before = self.holdings.clone();
        for action in &host.actions {
            if let Action::Transfer { token, from, to, amount } = *action {
                assert_eq!(token, self.token);
                if !self.transfer(from, to, amount) {
                    self.holdings = before;
                    return Err(Refusal::Host);
                }
            }
        }
        self.ledger = host.ledger;
        self.log.extend(host.events.clone());
        self.events = host.events;
        Ok(value)
    }

    fn read<T>(&self, view: impl FnOnce(&Host) -> Result<T, Error>) -> Result<T, Refusal> {
        view(&self.host()).map_err(Refusal::Contract)
    }

    fn milestone(&self, index: usize) -> Milestone {
        self.read(MilestoneEscrow::get_job).unwrap().milestones[index]
    }

    /// How many events of a topic the last call published.
    fn published(&self, topic: &str) -> usize {
        self.events.iter().filter(|e| e.topic() == topic).count()
    }

    /// How many events of a topic all calls published.
    fn published_so_far(&self, topic: &str) -> usize {
        self.log.iter().filter(|e| e.topic() == topic).count()
    }

    fn last_event(&self) -> Event {
        self.events.last().cloned().unwrap()
    }
}

fn is_paused(escrow: &Chain) -> bool {
    escrow.ledger.instance.paused.unwrap_or(false)
}

fn is_lock_held(escrow: &Chain) -> bool {
    escrow.ledger.instance.emergency_pause_lock.unwrap_or(false)
}

fn last_override_event(escrow: &Chain) -> EmergencyPauseAdminOverrideEvent {
    assert_eq!(escrow.last_event().topic(), "emoverrid");
    match escrow.last_event() {
        Event::EmergencyPauseAdminOverride(event) => event,
        _ => panic!("another event"),
    }
}

fn assert_matches_stored(escrow: &Chain) {
    let stored = escrow.ledger.instance.emergency_paused;
    assert_eq!(
        escrow.read(MilestoneEscrow::is_emergency_paused),
        Ok(stored.expect("flag must exist once initialized"))
    );
}

#[test]
fn pause_rejects_uninitialised_contract() {
    let mut escrow = Chain::bare();
    let admin = escrow.generate();

    assert_eq!(
        escrow.call(|h| MilestoneEscrow::admin_pause_escrow(h, admin)),
        refused(Error::NotInitialized)
    );
    assert_eq!(escrow.published_so_far("pause"), 0);
}

#[test]
fn pause_rejects_non_admin_caller() {
    let mut escrow = Chain::initialized(&[1_000]);
    let attacker = escrow.generate();

    assert_eq!(
        escrow.call(|h| MilestoneEscrow::admin_pause_escrow(h, attacker)),
        refused(Error::Unauthorized)
    );
    assert_eq!(escrow.published_so_far("pause"), 0);
}

#[test]
fn pause_rejects_when_emergency_lock_held() {
    let mut escrow = Chain::initialized(&[1_000]);
    let admin = escrow.admin;
    escrow.ledger.instance.emergency_pause_lock = Some(true);

    assert_eq!(
        escrow.call(|h| MilestoneEscrow::admin_pause_escrow(h, admin)),
        refused(Error::EmergencyPauseInProgress)
    );
    assert!(!is_paused(&escrow));
    assert!(is_lock_held(&escrow));
    assert_eq!(escrow.published_so_far("pause"), 0);
}

#[test]
fn pause_is_idempotent_when_already_paused() {
    let mut escrow = Chain::initialized(&[1_000]);
    let admin = escrow.admin;
    assert_eq!(escrow.call(|h| MilestoneEscrow::admin_pause_escrow(h, admin)), Ok(()));
    assert!(is_paused(&escrow));
    assert!(!is_lock_held(&escrow));
    assert_eq!(escrow.published_so_far("pause"), 1);
    assert_eq!(escrow.call(|h| MilestoneEscrow::admin_pause_escrow(h, admin)), Ok(()));
    assert_eq!(escrow.published_so_far("pause"), 1);
    assert!(!is_lock_held(&escrow));
}

#[test]
fn pause_sets_flag_emits_event_and_clears_lock() {
    let mut escrow = Chain::initialized(&[1_000]);
    let admin = escrow.admin;
    let contract_id = escrow.contract;

    assert!(!is_paused(&escrow));
    assert_eq!(escrow.published_so_far("pause"), 0);

    assert_eq!(escrow.call(|h| MilestoneEscrow::admin_pause_escrow(h, admin)), Ok(()));
    assert!(is_paused(&escrow));
    assert!(!is_lock_held(&escrow));
    assert_eq!(escrow.published_so_far("pause"), 1);
    let Event::EscrowPaused(event) = escrow.last_event() else { panic!("another event") };
    assert_eq!(escrow.last_event().topic(), "pause");
    assert_eq!(event.admin, admin);
    assert_eq!(event.contract_id, contract_id);
}

#[test]
fn test_admin_resume_escrow_touched_entries_footprint() {
    let mut escrow = Chain::bare();
    let admin = escrow.admin;
    escrow.ledger.instance.admin = Some(admin);
    escrow.ledger.instance.paused = Some(true);
    escrow.ledger.persistent.admin = Some(admin);
    assert!(
        escrow.ledger.persistent.admin.is_some(),
        "precondition: persistent::Admin exists, as initialize writes it"
    );

    let before = escrow.ledger.clone();
    escrow.call(|h| MilestoneEscrow::admin_resume_escrow(h, admin)).unwrap();

    // Nothing but the instance entry is written, and the persistent copy of the
    // admin is not even read: without it the call does the same.
    assert_eq!(escrow.ledger.persistent, before.persistent);
    assert_eq!(escrow.ledger.temporary, before.temporary);
    let resumed = escrow.ledger.clone();
    escrow.ledger = before;
    escrow.ledger.persistent.admin = None;
    escrow.call(|h| MilestoneEscrow::admin_resume_escrow(h, admin)).unwrap();
    assert_eq!(escrow.ledger.instance, resumed.instance);

    // Pausing, by contrast, reads it.
    escrow.ledger.instance.paused = None;
    assert_eq!(
        escrow.call(|h| MilestoneEscrow::admin_pause_escrow(h, admin)),
        refused(Error::NotInitialized)
    );
}

#[test]
fn test_admin_resume_escrow_does_not_require_persistent_admin() {
    let mut escrow = Chain::bare();
    let admin = escrow.admin;
    escrow.ledger.instance.admin = Some(admin);
    escrow.ledger.instance.paused = Some(true);
    assert!(
        !escrow.ledger.persistent.admin.is_some(),
        "precondition: persistent::Admin must not exist"
    );

    assert_eq!(escrow.call(|h| MilestoneEscrow::admin_resume_escrow(h, admin)), Ok(()));
    assert_eq!(escrow.published("resume"), 1);
    assert!(!is_paused(&escrow), "pause flag must be cleared");
    assert!(!is_lock_held(&escrow), "EpLk must be released");
    assert!(
        !escrow.ledger.persistent.admin.is_some(),
        "admin_resume_escrow must not read or write persistent storage"
    );
}

#[test]
fn test_admin_resume_escrow_authorizes_against_instance_admin_copy() {
    let mut escrow = Chain::bare();
    let instance_admin = escrow.generate();
    let stale_persistent_admin = escrow.generate();

    escrow.ledger.instance.admin = Some(instance_admin);
    escrow.ledger.persistent.admin = Some(stale_persistent_admin);
    escrow.ledger.instance.paused = Some(true);
    assert_eq!(escrow.call(|h| MilestoneEscrow::admin_resume_escrow(h, instance_admin)), Ok(()));
    assert!(!is_paused(&escrow));
    let persistent_after = escrow.ledger.persistent.admin;
    assert_eq!(
        persistent_after,
        Some(stale_persistent_admin),
        "the persistent copy must not be rewritten by admin_resume_escrow"
    );
}

#[test]
fn test_admin_resume_escrow_uninitialized_still_rejected() {
    let mut escrow = Chain::bare();
    let admin = escrow.admin;

    assert_eq!(
        escrow.call(|h| MilestoneEscrow::admin_resume_escrow(h, admin)),
        refused(Error::NotInitialized)
    );
    assert!(!is_paused(&escrow));
    assert!(!is_lock_held(&escrow));
}

#[test]
fn test_admin_resume_escrow_clears_pause_and_resumes_normal_operation() {
    let mut escrow = Chain::initialized(&[1_000]);
    let admin = escrow.admin;
    let contract_id = escrow.contract;
    escrow.call(|h| MilestoneEscrow::admin_pause_escrow(h, admin)).unwrap();
    assert!(is_paused(&escrow));
    assert_eq!(escrow.published("resume"), 0);
    assert_eq!(
        escrow.call(|h| MilestoneEscrow::admin_set_yield_rate(h, admin, 500u32)),
        refused(Error::Paused)
    );
    assert_eq!(escrow.call(|h| MilestoneEscrow::admin_resume_escrow(h, admin)), Ok(()));
    assert_eq!(escrow.published("resume"), 1);
    assert_eq!(
        escrow.last_event().topic(),
        "resume",
        "the single event topic must be \"resume\""
    );
    let Event::EscrowResumed(payload) = escrow.last_event() else { panic!("another event") };
    assert_eq!(payload.admin, admin);
    assert_eq!(payload.contract_id, contract_id);
    assert!(!is_paused(&escrow), "pause flag must be cleared");
    assert!(!is_lock_held(&escrow), "EpLk must be released");
    let (_, _, paused) = escrow.read(MilestoneEscrow::get_yield_info).unwrap();
    assert!(!paused, "get_yield_info must report the escrow as running");
    let persistent_admin = escrow.ledger.persistent.admin;
    assert_eq!(
        persistent_admin,
        Some(admin),
        "persistent::Admin must be unchanged by the resume"
    );
    assert_eq!(escrow.call(|h| MilestoneEscrow::admin_set_yield_rate(h, admin, 500u32)), Ok(()));
    assert_eq!(
        escrow.call(|h| MilestoneEscrow::admin_resume_escrow(h, admin)),
        refused(Error::NotPaused)
    );
    let attacker = escrow.generate();
    assert_eq!(
        escrow.call(|h| MilestoneEscrow::admin_resume_escrow(h, attacker)),
        refused(Error::Unauthorized)
    );
}

#[test]
fn override_false_to_true_sets_paused_flag() {
    let mut escrow = Chain::funded(&[1_000_i128]);
    let admin_addr = escrow.admin;

    assert!(
        !escrow.read(MilestoneEscrow::is_emergency_paused).unwrap(),
        "contract must start unpaused"
    );

    escrow.call(|h| MilestoneEscrow::emergency_pause_admin_override(h, admin_addr, true)).unwrap();

    assert!(
        escrow.read(MilestoneEscrow::is_emergency_paused).unwrap(),
        "flag must be set after override"
    );
    assert!(
        !is_lock_held(&escrow),
        "EmergencyPauseLock must remain false — override must not touch it"
    );
}

#[test]
fn override_true_to_false_clears_paused_flag() {
    let mut escrow = Chain::funded(&[1_000_i128]);
    let admin_addr = escrow.admin;
    let (client_addr, freelancer_addr) = (escrow.client, escrow.freelancer);
    escrow.call(|h| MilestoneEscrow::emergency_pause(h, client_addr, freelancer_addr)).unwrap();

    assert!(
        escrow.read(MilestoneEscrow::is_emergency_paused).unwrap(),
        "contract must be paused before override"
    );

    escrow.call(|h| MilestoneEscrow::emergency_pause_admin_override(h, admin_addr, false)).unwrap();

    assert!(
        !escrow.read(MilestoneEscrow::is_emergency_paused).unwrap(),
        "flag must be cleared after override"
    );
    assert!(
        !is_lock_held(&escrow),
        "EmergencyPauseLock must remain false — override must not touch it"
    );
}

#[test]
fn override_round_trip_is_correct() {
    let mut escrow = Chain::funded(&[1_000_i128]);
    let admin_addr = escrow.admin;

    escrow.call(|h| MilestoneEscrow::emergency_pause_admin_override(h, admin_addr, true)).unwrap();
    assert!(escrow.read(MilestoneEscrow::is_emergency_paused).unwrap());
    assert!(!is_lock_held(&escrow));

    escrow.call(|h| MilestoneEscrow::emergency_pause_admin_override(h, admin_addr, false)).unwrap();
    assert!(!escrow.read(MilestoneEscrow::is_emergency_paused).unwrap());
    assert!(!is_lock_held(&escrow));
}

#[test]
fn unauthorized_caller_returns_unauthorized_and_no_state_change() {
    let mut escrow = Chain::funded(&[1_000_i128]);
    let client_addr = escrow.client;
    let admin_addr = escrow.admin;
    let client_addr = escrow.client;
    let attacker = escrow.generate();
    for caller in [client_addr, attacker] {
        let before = escrow.read(MilestoneEscrow::is_emergency_paused).unwrap();
        let result = escrow
            .call(|h| MilestoneEscrow::emergency_pause_admin_override(h, caller, true));
        assert_eq!(result, refused(Error::Unauthorized));
        assert_eq!(
            escrow.read(MilestoneEscrow::is_emergency_paused).unwrap(),
            before,
            "unauthorized call must not change pause state"
        );
        assert!(
            !is_lock_held(&escrow),
            "unauthorized call must not write EmergencyPauseLock"
        );
    }
    escrow.call(|h| MilestoneEscrow::emergency_pause_admin_override(h, admin_addr, true)).unwrap();
    assert!(escrow.read(MilestoneEscrow::is_emergency_paused).unwrap());
}

#[test]
fn no_op_unpaused_to_false_returns_invalid_status() {
    let mut escrow = Chain::funded(&[1_000_i128]);
    let admin_addr = escrow.admin;

    assert!(!escrow.read(MilestoneEscrow::is_emergency_paused).unwrap());
    let result = escrow
        .call(|h| MilestoneEscrow::emergency_pause_admin_override(h, admin_addr, false));
    assert_eq!(result, refused(Error::InvalidStatus));
    assert!(
        !escrow.read(MilestoneEscrow::is_emergency_paused).unwrap(),
        "state must not change on no-op rejection"
    );
    assert!(
        !is_lock_held(&escrow),
        "no-op rejection must not write EmergencyPauseLock"
    );
}

#[test]
fn no_op_paused_to_true_returns_invalid_status() {
    let mut escrow = Chain::funded(&[1_000_i128]);
    let admin_addr = escrow.admin;
    let (client_addr, freelancer_addr) = (escrow.client, escrow.freelancer);
    escrow.call(|h| MilestoneEscrow::emergency_pause(h, client_addr, freelancer_addr)).unwrap();

    assert!(escrow.read(MilestoneEscrow::is_emergency_paused).unwrap());
    let result = escrow
        .call(|h| MilestoneEscrow::emergency_pause_admin_override(h, admin_addr, true));
    assert_eq!(result, refused(Error::InvalidStatus));
    assert!(
        escrow.read(MilestoneEscrow::is_emergency_paused).unwrap(),
        "state must not change on no-op rejection"
    );
    assert!(
        !is_lock_held(&escrow),
        "no-op rejection must not write EmergencyPauseLock"
    );
}

#[test]
fn emergency_pause_lock_is_never_written_by_override() {
    let mut escrow = Chain::funded(&[1_000_i128]);
    let admin_addr = escrow.admin;
    for desired in [true, false, true, false] {
        escrow
            .call(|h| MilestoneEscrow::emergency_pause_admin_override(h, admin_addr, desired))
            .unwrap();
        assert!(
            !is_lock_held(&escrow),
            "EmergencyPauseLock must be false after override to {desired}"
        );
    }
}

#[test]
fn override_does_not_leave_lock_that_blocks_emergency_pause() {
    let mut escrow = Chain::funded(&[1_000_i128]);
    let admin_addr = escrow.admin;
    escrow.call(|h| MilestoneEscrow::emergency_pause_admin_override(h, admin_addr, true)).unwrap();
    escrow.call(|h| MilestoneEscrow::emergency_unpause(h, admin_addr)).unwrap();
    assert!(!escrow.read(MilestoneEscrow::is_emergency_paused).unwrap());
}

#[test]
fn emergency_pause_does_not_block_subsequent_override() {
    let mut escrow = Chain::funded(&[1_000_i128]);
    let admin_addr = escrow.admin;
    let (client_addr, freelancer_addr) = (escrow.client, escrow.freelancer);

    escrow.call(|h| MilestoneEscrow::emergency_pause(h, client_addr, freelancer_addr)).unwrap();
    assert!(escrow.read(MilestoneEscrow::is_emergency_paused).unwrap());
    escrow.call(|h| MilestoneEscrow::emergency_pause_admin_override(h, admin_addr, false)).unwrap();
    assert!(!escrow.read(MilestoneEscrow::is_emergency_paused).unwrap());
}

#[test]
fn override_works_after_admin_pause_escrow_cycle() {
    let mut escrow = Chain::funded(&[1_000_i128]);
    let admin_addr = escrow.admin;
    escrow.call(|h| MilestoneEscrow::admin_pause_escrow(h, admin_addr)).unwrap();
    escrow.call(|h| MilestoneEscrow::admin_resume_escrow(h, admin_addr)).unwrap();
    assert!(!is_lock_held(&escrow));
    escrow.call(|h| MilestoneEscrow::emergency_pause_admin_override(h, admin_addr, true)).unwrap();
    assert!(escrow.read(MilestoneEscrow::is_emergency_paused).unwrap());
    assert!(!is_lock_held(&escrow));
}

#[test]
fn interleaved_sequence_produces_correct_final_state() {
    let mut escrow = Chain::funded(&[1_000_i128]);
    let admin_addr = escrow.admin;
    let (client_addr, freelancer_addr) = (escrow.client, escrow.freelancer);

    escrow.call(|h| MilestoneEscrow::emergency_pause_admin_override(h, admin_addr, true)).unwrap();
    assert!(escrow.read(MilestoneEscrow::is_emergency_paused).unwrap());

    escrow.call(|h| MilestoneEscrow::emergency_unpause(h, admin_addr)).unwrap();
    assert!(!escrow.read(MilestoneEscrow::is_emergency_paused).unwrap());

    escrow.call(|h| MilestoneEscrow::emergency_pause(h, client_addr, freelancer_addr)).unwrap();
    assert!(escrow.read(MilestoneEscrow::is_emergency_paused).unwrap());

    escrow.call(|h| MilestoneEscrow::emergency_pause_admin_override(h, admin_addr, false)).unwrap();
    assert!(!escrow.read(MilestoneEscrow::is_emergency_paused).unwrap());
    assert!(!is_lock_held(&escrow));
}

#[test]
fn success_emits_exactly_one_emoverrid_event_with_correct_payload() {
    let mut escrow = Chain::funded(&[1_000_i128]);
    let admin_addr = escrow.admin;
    escrow
        .call(|h| MilestoneEscrow::emergency_pause_admin_override(h, admin_addr, true))
        .unwrap();
    assert_eq!(escrow.published_so_far("emoverrid"), 1);
    let ev = last_override_event(&escrow);
    assert_eq!(ev.admin, admin_addr);
    assert_eq!(ev.contract_id, escrow.contract);
    assert_eq!(ev.paused, true);
    escrow.call(|h| MilestoneEscrow::emergency_pause_admin_override(h, admin_addr, false)).unwrap();
    assert_eq!(escrow.published_so_far("emoverrid"), 2);
    let ev2 = last_override_event(&escrow);
    assert_eq!(ev2.admin, admin_addr);
    assert_eq!(ev2.paused, false);
}

#[test]
fn failed_calls_emit_no_emoverrid_event() {
    let mut escrow = Chain::funded(&[1_000_i128]);
    let admin_addr = escrow.admin;
    let (client_addr, freelancer_addr) = (escrow.client, escrow.freelancer);
    let attacker = escrow.generate();
    let _ = escrow.call(|h| MilestoneEscrow::emergency_pause_admin_override(h, attacker, true));
    let _ = escrow.call(|h| MilestoneEscrow::emergency_pause_admin_override(h, admin_addr, false));
    escrow.call(|h| MilestoneEscrow::emergency_pause(h, client_addr, freelancer_addr)).unwrap();
    let _ = escrow.call(|h| MilestoneEscrow::emergency_pause_admin_override(h, admin_addr, true));

    assert_eq!(
        escrow.published_so_far("emoverrid"),
        0,
        "no emoverrid event must be emitted by any failed call"
    );
}

#[test]
fn test_emergency_pause_happy_path_and_event() {
    let mut escrow = Chain::funded(&[1000_i128]);
    let (client_addr, freelancer_addr) = (escrow.client, escrow.freelancer);
    assert!(!escrow.read(MilestoneEscrow::is_emergency_paused).unwrap());
    escrow.call(|h| MilestoneEscrow::emergency_pause(h, client_addr, freelancer_addr)).unwrap();
    assert_eq!(escrow.last_event().topic(), "empause");
    let Event::EmergencyPaused(parsed_event) = escrow.last_event() else { panic!("another event") };
    assert_eq!(parsed_event.client, client_addr);
    assert_eq!(parsed_event.freelancer, freelancer_addr);
    assert_eq!(parsed_event.contract_id, escrow.contract);
    assert!(escrow.read(MilestoneEscrow::is_emergency_paused).unwrap());
}

#[test]
fn test_emergency_unpause_happy_path_and_event() {
    let mut escrow = Chain::funded(&[1000_i128]);
    let admin_addr = escrow.admin;
    let (client_addr, freelancer_addr) = (escrow.client, escrow.freelancer);
    escrow.call(|h| MilestoneEscrow::emergency_pause(h, client_addr, freelancer_addr)).unwrap();
    escrow.call(|h| MilestoneEscrow::emergency_unpause(h, admin_addr)).unwrap();
    assert_eq!(escrow.last_event().topic(), "emunpause");
    let Event::EmergencyUnpaused(parsed_event) = escrow.last_event() else {
        panic!("another event")
    };
    assert_eq!(parsed_event.admin, admin_addr);
    assert_eq!(parsed_event.contract_id, escrow.contract);
    assert!(!escrow.read(MilestoneEscrow::is_emergency_paused).unwrap());
}

#[test]
fn test_emergency_pause_admin_override_happy_path_and_event() {
    let mut escrow = Chain::funded(&[1000_i128]);
    let admin_addr = escrow.admin;
    escrow.call(|h| MilestoneEscrow::emergency_pause_admin_override(h, admin_addr, true)).unwrap();
    assert_eq!(escrow.last_event().topic(), "emoverrid");
    let Event::EmergencyPauseAdminOverride(parsed_event) = escrow.last_event() else {
        panic!("another event")
    };
    assert_eq!(parsed_event.admin, admin_addr);
    assert_eq!(parsed_event.contract_id, escrow.contract);
    assert_eq!(parsed_event.paused, true);
    assert!(escrow.read(MilestoneEscrow::is_emergency_paused).unwrap());
    escrow.call(|h| MilestoneEscrow::emergency_pause_admin_override(h, admin_addr, false)).unwrap();
    assert_eq!(escrow.last_event().topic(), "emoverrid");
    let Event::EmergencyPauseAdminOverride(parsed_event2) = escrow.last_event() else {
        panic!("another event")
    };
    assert_eq!(parsed_event2.admin, admin_addr);
    assert_eq!(parsed_event2.contract_id, escrow.contract);
    assert_eq!(parsed_event2.paused, false);
    assert!(!escrow.read(MilestoneEscrow::is_emergency_paused).unwrap());
}

#[test]
fn test_emergency_pause_unauthorized() {
    let mut escrow = Chain::funded(&[1000_i128]);
    let client_addr = escrow.client;
    let res = escrow.call(|h| MilestoneEscrow::emergency_pause(h, client_addr, client_addr));
    assert_eq!(res, refused(Error::Unauthorized));
}

#[test]
fn test_emergency_unpause_unauthorized() {
    let mut escrow = Chain::funded(&[1000_i128]);
    let client_addr = escrow.client;
    let res = escrow.call(|h| MilestoneEscrow::emergency_unpause(h, client_addr));
    assert_eq!(res, refused(Error::Unauthorized));
}

#[test]
fn test_emergency_pause_admin_override_unauthorized() {
    let mut escrow = Chain::funded(&[1000_i128]);
    let client_addr = escrow.client;
    let res = escrow
        .call(|h| MilestoneEscrow::emergency_pause_admin_override(h, client_addr, true));
    assert_eq!(res, refused(Error::Unauthorized));
}

#[test]
fn test_emergency_pause_admin_override_invalid_state() {
    let mut escrow = Chain::funded(&[1000_i128]);
    let admin_addr = escrow.admin;
    let (client_addr, freelancer_addr) = (escrow.client, escrow.freelancer);
    let res = escrow
        .call(|h| MilestoneEscrow::emergency_pause_admin_override(h, admin_addr, false));
    assert_eq!(res, refused(Error::InvalidStatus));
    escrow.call(|h| MilestoneEscrow::emergency_pause(h, client_addr, freelancer_addr)).unwrap();
    let res = escrow.call(|h| MilestoneEscrow::emergency_pause_admin_override(h, admin_addr, true));
    assert_eq!(res, refused(Error::InvalidStatus));
}

#[test]
fn test_is_emergency_paused_returns_not_initialized_on_freshly_registered_contract() {
    let escrow = Chain::bare();
    let before = escrow.ledger.clone();
    assert_eq!(before.instance.emergency_paused, None, "test setup: flag must start absent");

    let result = escrow.read(MilestoneEscrow::is_emergency_paused);
    let after = escrow.ledger.clone();

    assert_eq!(result, refused(Error::NotInitialized));
    assert_eq!(after, before, "a read must not change anything");
}

#[test]
fn test_is_emergency_paused_not_initialized_is_stable_across_repeated_calls() {
    let escrow = Chain::bare();

    for _ in 0..3 {
        let before = escrow.ledger.clone();
        let result = escrow.read(MilestoneEscrow::is_emergency_paused);
        let after = escrow.ledger.clone();

        assert_eq!(result, refused(Error::NotInitialized));
        assert_eq!(after, before, "a read must not change anything");
    }
}

#[test]
fn test_is_emergency_paused_still_not_initialized_after_rejected_initialize() {
    let mut escrow = Chain::bare();
    let (admin_addr, client_addr, freelancer_addr) = (escrow.admin, escrow.client, escrow.freelancer);
    let (arbiter_addr, token_contract_id) = (escrow.arbiter, escrow.token);
    let rejected = escrow
        .call(|h| {
            MilestoneEscrow::initialize(
                h,
                admin_addr,
                client_addr,
                freelancer_addr,
                arbiter_addr,
                token_contract_id,
                604800,
                list(&[]),
            )
        });
    assert_eq!(rejected, refused(Error::InvalidAmount));

    let before = escrow.ledger.clone();
    assert!(before.instance.job.is_none(), "sentinel write must be rolled back");

    let result = escrow.read(MilestoneEscrow::is_emergency_paused);
    let after = escrow.ledger.clone();

    assert_eq!(result, refused(Error::NotInitialized));
    assert_eq!(after, before, "a read must not change anything");
}

#[test]
fn test_is_emergency_paused_not_initialized_is_scoped_per_contract_instance() {
    let initialized = Chain::initialized(&[1_000]);
    assert_eq!(initialized.read(MilestoneEscrow::is_emergency_paused), Ok(false));

    let pristine = Chain::bare();

    assert_eq!(
        pristine.read(MilestoneEscrow::is_emergency_paused),
        refused(Error::NotInitialized)
    );
}

#[test]
fn test_is_emergency_paused_returns_false_after_initialize_only() {
    let escrow = Chain::initialized(&[1_000]);

    let before = escrow.ledger.clone();
    assert_eq!(before.instance.emergency_paused, Some(false), "initialize must seed the flag");

    let result = escrow.read(MilestoneEscrow::is_emergency_paused);
    let after = escrow.ledger.clone();

    assert_eq!(result, Ok(false));
    assert_eq!(after, before, "a read must not change anything");
}

#[test]
fn test_is_emergency_paused_returns_false_for_funded_escrow() {
    let escrow = Chain::funded(&[1_000_i128]);

    let before = escrow.ledger.clone();
    let result = escrow.read(MilestoneEscrow::is_emergency_paused);
    let after = escrow.ledger.clone();

    assert_eq!(result, Ok(false));
    assert_eq!(after, before, "a read must not change anything");
}

#[test]
fn test_is_emergency_paused_returns_true_after_emergency_pause() {
    let mut escrow = Chain::funded(&[1_000_i128]);
    let client_addr = escrow.client;
    let freelancer_addr = escrow.freelancer;

    escrow.call(|h| MilestoneEscrow::emergency_pause(h, client_addr, freelancer_addr)).unwrap();

    let before = escrow.ledger.clone();
    let result = escrow.read(MilestoneEscrow::is_emergency_paused);
    let after = escrow.ledger.clone();

    assert_eq!(result, Ok(true));
    assert_eq!(after, before, "a read must not change anything");
}

#[test]
fn test_is_emergency_paused_is_readable_while_paused() {
    let mut escrow = Chain::funded(&[1_000_i128]);
    let client_addr = escrow.client;
    let freelancer_addr = escrow.freelancer;
    escrow.call(|h| MilestoneEscrow::emergency_pause(h, client_addr, freelancer_addr)).unwrap();

    let before = escrow.ledger.clone();
    assert_eq!(before.instance.emergency_paused, Some(true), "contract must be paused");

    let result = escrow.read(MilestoneEscrow::is_emergency_paused);
    let after = escrow.ledger.clone();

    assert_eq!(result, Ok(true));
    assert_eq!(after, before, "a read must not change anything");
}

#[test]
fn test_is_emergency_paused_returns_false_after_emergency_unpause() {
    let mut escrow = Chain::funded(&[1_000_i128]);
    let client_addr = escrow.client;
    let freelancer_addr = escrow.freelancer;
    let admin_addr = escrow.admin;
    escrow.call(|h| MilestoneEscrow::emergency_pause(h, client_addr, freelancer_addr)).unwrap();
    escrow.call(|h| MilestoneEscrow::emergency_unpause(h, admin_addr)).unwrap();

    let before = escrow.ledger.clone();
    let result = escrow.read(MilestoneEscrow::is_emergency_paused);
    let after = escrow.ledger.clone();

    assert_eq!(result, Ok(false));
    assert_eq!(after, before, "a read must not change anything");
}

#[test]
fn test_is_emergency_paused_returns_true_after_admin_override_pause() {
    let mut escrow = Chain::funded(&[1_000_i128]);
    let admin_addr = escrow.admin;

    escrow.call(|h| MilestoneEscrow::emergency_pause_admin_override(h, admin_addr, true)).unwrap();

    let before = escrow.ledger.clone();
    let result = escrow.read(MilestoneEscrow::is_emergency_paused);
    let after = escrow.ledger.clone();

    assert_eq!(result, Ok(true));
    assert_eq!(after, before, "a read must not change anything");
}

#[test]
fn test_is_emergency_paused_returns_false_after_admin_override_unpause() {
    let mut escrow = Chain::funded(&[1_000_i128]);
    let client_addr = escrow.client;
    let freelancer_addr = escrow.freelancer;
    let admin_addr = escrow.admin;
    escrow.call(|h| MilestoneEscrow::emergency_pause(h, client_addr, freelancer_addr)).unwrap();
    escrow.call(|h| MilestoneEscrow::emergency_pause_admin_override(h, admin_addr, false)).unwrap();

    let before = escrow.ledger.clone();
    let result = escrow.read(MilestoneEscrow::is_emergency_paused);
    let after = escrow.ledger.clone();

    assert_eq!(result, Ok(false));
    assert_eq!(after, before, "a read must not change anything");
}

#[test]
fn test_is_emergency_paused_repeated_reads_are_idempotent_and_read_only() {
    let mut escrow = Chain::funded(&[1_000_i128]);
    let client_addr = escrow.client;
    let freelancer_addr = escrow.freelancer;
    escrow.call(|h| MilestoneEscrow::emergency_pause(h, client_addr, freelancer_addr)).unwrap();

    for _ in 0..3 {
        let before = escrow.ledger.clone();
        let result = escrow.read(MilestoneEscrow::is_emergency_paused);
        let after = escrow.ledger.clone();

        assert_eq!(result, Ok(true));
        assert_eq!(after, before, "a read must not change anything");
    }
}

#[test]
fn test_is_emergency_paused_always_matches_stored_flag() {
    let mut escrow = Chain::funded(&[1_000_i128]);
    let client_addr = escrow.client;
    let freelancer_addr = escrow.freelancer;
    let admin_addr = escrow.admin;

    
    assert_matches_stored(&escrow);
    escrow.call(|h| MilestoneEscrow::emergency_pause(h, client_addr, freelancer_addr)).unwrap();
    assert_matches_stored(&escrow);
    escrow.call(|h| MilestoneEscrow::emergency_pause_admin_override(h, admin_addr, false)).unwrap();
    assert_matches_stored(&escrow);
    escrow.call(|h| MilestoneEscrow::emergency_pause_admin_override(h, admin_addr, true)).unwrap();
    assert_matches_stored(&escrow);
    escrow.call(|h| MilestoneEscrow::emergency_unpause(h, admin_addr)).unwrap();
    assert_matches_stored(&escrow);
}

#[test]
fn test_pause_gated_endpoints_still_report_not_initialized() {
    let mut escrow = Chain::bare();
    let stranger = escrow.generate();

    assert_eq!(
        escrow.call(|h| MilestoneEscrow::emergency_pause(h, stranger, stranger)),
        refused(Error::NotInitialized)
    );
    assert_eq!(
        escrow.call(|h| MilestoneEscrow::emergency_unpause(h, stranger)),
        refused(Error::NotInitialized)
    );
    assert_eq!(
        escrow
            .call(|h| {
                MilestoneEscrow::emergency_pause_claim_refund(
                    h,
                    stranger,
                    1_000_i128,
                    5_000_u32,
                    5_000_u32,
                )
            }),
        refused(Error::NotInitialized)
    );
}
