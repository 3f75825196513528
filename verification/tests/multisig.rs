//! The multisig, and handing over to another admin.

use milestone_escrow::events::{AdminTransferExecutedEvent, Event, MultisigApprovalInitEvent};
use milestone_escrow::host::{Action, Host, Ledger};
use milestone_escrow::types::{Address, AddressKind, Error, Milestone, MilestoneStatus};
use milestone_escrow::MilestoneEscrow;
use soroban_sdk::testutils::EnvTestConfig;
use soroban_sdk::Env;

/// Why a call came to nothing: the contract refused it, or the host did.
#[derive(Clone, Copy, Debug, PartialEq)]
enum Refusal {
    Contract(Error),
    Host,
}

fn refused<T>(error: Error) -> Result<T, Refusal> {
    Err(Refusal::Contract(error))
}

fn list(amounts: &[i128]) -> soroban_sdk::Vec<i128> {
    let env = Env::new_with_config(EnvTestConfig { capture_snapshot_at_drop: false });
    soroban_sdk::Vec::from_slice(&env, amounts)
}

/// A chain with one escrow contract and one token on it.
#[allow(dead_code)]
struct Chain {
    contract: Address,
    client: Address,
    freelancer: Address,
    arbiter: Address,
    admin: Address,
    token: Address,
    now: u64,
    ledger: Ledger,
    /// Who holds how much of the token.
    holdings: Vec<(Address, i128)>,
    /// Who signs every call; everybody, if this is `None`.
    signers: Option<Vec<Address>>,
    /// What the last call published.
    events: Vec<Event>,
    /// What all calls published.
    log: Vec<Event>,
    addresses: u128,
}

#[allow(dead_code)]
impl Chain {
    /// A chain whose contract has not been set up.
    fn bare() -> Chain {
        let contract = Address { kind: AddressKind::Contract, hi: 1, lo: 0 };
        let mut chain = Chain {
            contract,
            client: contract,
            freelancer: contract,
            arbiter: contract,
            admin: contract,
            token: Address { kind: AddressKind::Contract, hi: 2, lo: 0 },
            now: 0,
            ledger: Ledger::new(),
            holdings: Vec::new(),
            signers: None,
            events: Vec::new(),
            log: Vec::new(),
            addresses: 0,
        };
        chain.client = chain.generate();
        chain.freelancer = chain.generate();
        chain.arbiter = chain.generate();
        chain.admin = chain.generate();
        chain
    }

    /// A chain with a job that has not been funded.
    fn initialized(amounts: &[i128]) -> Chain {
        let mut chain = Chain::bare();
        let (admin, client, freelancer) = (chain.admin, chain.client, chain.freelancer);
        let (arbiter, token) = (chain.arbiter, chain.token);
        chain
            .call(|h| {
                MilestoneEscrow::initialize(
                    h,
                    admin,
                    client,
                    freelancer,
                    arbiter,
                    token,
                    604_800,
                    list(amounts),
                )
            })
            .unwrap();
        chain
    }

    /// A chain with a job into which its client has paid all they own.
    fn funded(amounts: &[i128]) -> Chain {
        let mut chain = Chain::initialized(amounts);
        let client = chain.client;
        chain.mint(client, amounts.iter().sum());
        chain.call(|h| MilestoneEscrow::fund(h, client)).unwrap();
        chain
    }

    /// An account that nobody has seen before.
    fn generate(&mut self) -> Address {
        self.addresses += 1;
        Address { kind: AddressKind::Account, hi: 7, lo: self.addresses }
    }

    fn balance(&self, who: Address) -> i128 {
        self.holdings.iter().filter(|h| h.0 == who).map(|h| h.1).sum()
    }

    fn mint(&mut self, who: Address, amount: i128) {
        self.holdings.push((who, amount));
    }

    /// Moves tokens, if there are enough.
    fn transfer(&mut self, from: Address, to: Address, amount: i128) -> bool {
        if amount < 0 || self.balance(from) < amount {
            return false;
        }
        self.holdings.push((from, -amount));
        self.holdings.push((to, amount));
        true
    }

    fn host(&self) -> Host {
        Host::new(self.contract, self.now, self.balance(self.contract), self.ledger.clone())
    }

    /// Calls the contract, and keeps what the call did only if it was accepted,
    /// everybody whose signature it asked for signed, and all transfers worked.
    fn call<T>(
        &mut self,
        endpoint: impl FnOnce(&mut Host) -> Result<T, Error>,
    ) -> Result<T, Refusal> {
        let mut host = self.host();
        let result = endpoint(&mut host);
        self.events = Vec::new();
        for address in &host.auths {
            if self.signers.as_ref().map_or(false, |s| !s.contains(address)) {
                return Err(Refusal::Host);
            }
        }
        let value = result.map_err(Refusal::Contract)?;
        let before = self.holdings.clone();
        for action in &host.actions {
            if let Action::Transfer { token, from, to, amount } = *action {
                assert_eq!(token, self.token);
                if !self.transfer(from, to, amount) {
                    self.holdings = before;
                    return Err(Refusal::Host);
                }
            }
        }
        self.ledger = host.ledger;
        self.log.extend(host.events.clone());
        self.events = host.events;
        Ok(value)
    }

    fn read<T>(&self, view: impl FnOnce(&Host) -> Result<T, Error>) -> Result<T, Refusal> {
        view(&self.host()).map_err(Refusal::Contract)
    }

    fn milestone(&self, index: usize) -> Milestone {
        self.read(MilestoneEscrow::get_job).unwrap().milestones[index]
    }

    /// How many events of a topic the last call published.
    fn published(&self, topic: &str) -> usize {
        self.events.iter().filter(|e| e.topic() == topic).count()
    }

    /// How many events of a topic all calls published.
    fn published_so_far(&self, topic: &str) -> usize {
        self.log.iter().filter(|e| e.topic() == topic).count()
    }

    fn last_event(&self) -> Event {
        self.events.last().cloned().unwrap()
    }
}

#[derive(Clone, Copy, Debug, PartialEq)]
struct RefundLedgerSnapshot {
    locked: bool,
    status: MilestoneStatus,
    released_amount: i128,
    client_balance: i128,
    contract_balance: i128,
}

/// The lock, the first milestone, and what the client and the contract hold.
fn snapshot_refund_ledger(escrow: &Chain) -> RefundLedgerSnapshot {
    let milestone = escrow.milestone(0);
    RefundLedgerSnapshot {
        locked: MilestoneEscrow::is_multisig_locked(&escrow.host()),
        status: milestone.status,
        released_amount: milestone.released_amount,
        client_balance: escrow.balance(escrow.client),
        contract_balance: escrow.balance(escrow.contract),
    }
}

fn unlocked_milestone(amount: i128, released_amount: i128) -> Milestone {
    Milestone { amount, released_amount, status: MilestoneStatus::Pending, delivered_at: 0 }
}

fn last_msiginit_event(escrow: &Chain) -> MultisigApprovalInitEvent {
    assert_eq!(escrow.last_event().topic(), "msiginit");
    match escrow.last_event() {
        Event::MultisigApprovalInit(event) => event,
        _ => panic!("another event"),
    }
}

fn assert_event_reconciles(ev: &MultisigApprovalInitEvent, escrow: &Chain) {
    let stored = &escrow.ledger.instance;
    let signers = stored.multisig_signers.clone().expect("init persisted the signer set");
    let threshold = stored.multisig_threshold.expect("init persisted the threshold");
    assert_eq!(ev.signers, signers, "event must report the persisted signer set");
    assert_eq!(ev.threshold, threshold, "event must report the persisted threshold");
    let stored_admin = stored.admin.expect("initialize stored an admin");
    assert_eq!(ev.admin, stored_admin, "event must name the acting admin");
}

fn last_adminexc_event(escrow: &Chain) -> AdminTransferExecutedEvent {
    assert_eq!(escrow.last_event().topic(), "adminexc");
    match escrow.last_event() {
        Event::AdminTransferExecuted(event) => event,
        _ => panic!("another event"),
    }
}

/// A job whose admin proposed a successor that two signers have to approve.
fn with_proposed_transfer() -> (Chain, Address, Address, Address) {
    let mut escrow = Chain::funded(&[1_000]);
    let admin = escrow.admin;
    let (s1, s2, new_admin) = (escrow.generate(), escrow.generate(), escrow.generate());
    escrow
        .call(|h| MilestoneEscrow::multisig_approval_init(h, admin, vec![s1, s2], 2))
        .unwrap();
    escrow
        .call(|h| MilestoneEscrow::propose_admin_transfer(h, admin, new_admin, 1))
        .unwrap();
    (escrow, s1, s2, new_admin)
}

#[test]
fn multisig_admin_override_refund_tests_unauthorized_caller_returns_unauthorized_and_does_not_mutate_storage() {
    let mut escrow = Chain::funded(&[1_000_i128]);
    let admin_addr = escrow.admin;
    escrow.call(|h| MilestoneEscrow::multisig_lock(h, admin_addr)).unwrap();

    let before = snapshot_refund_ledger(&escrow);
    assert!(before.locked);
    assert_eq!(before.status, MilestoneStatus::Pending);
    assert_eq!(before.released_amount, 0);

    let attacker = escrow.generate();
    let result = escrow
        .call(|h| MilestoneEscrow::multisig_admin_override_refund(h, attacker, 0u32));
    assert_eq!(result, refused(Error::Unauthorized));

    let after = snapshot_refund_ledger(&escrow);
    assert_eq!(after, before);
    assert_eq!(escrow.published_so_far("msadmref"), 0);
}

#[test]
fn illegal_unlocked_source_state_returns_invalid_status_and_does_not_mutate_storage() {
    let mut escrow = Chain::funded(&[1_000_i128]);
    let admin_addr = escrow.admin;

    let before = snapshot_refund_ledger(&escrow);
    assert!(!before.locked);
    assert_eq!(before.status, MilestoneStatus::Pending);
    assert_eq!(before.released_amount, 0);

    let result = escrow
        .call(|h| MilestoneEscrow::multisig_admin_override_refund(h, admin_addr, 0u32));
    assert_eq!(result, refused(Error::InvalidStatus));

    let after = snapshot_refund_ledger(&escrow);
    assert_eq!(after, before);
    assert!(!after.locked);
    assert_eq!(escrow.published_so_far("msadmref"), 0);
}

#[test]
fn multisig_admin_override_refund_tests_client_freelancer_and_arbiter_are_unauthorized_without_storage_mutation() {
    let mut escrow = Chain::funded(&[1_000_i128]);
    let client_addr = escrow.client;
    let freelancer_addr = escrow.freelancer;
    let arbiter_addr = escrow.arbiter;
    let admin_addr = escrow.admin;
    escrow.call(|h| MilestoneEscrow::multisig_lock(h, admin_addr)).unwrap();

    let before = snapshot_refund_ledger(&escrow);
    for caller in [client_addr, freelancer_addr, arbiter_addr] {
        let result = escrow
            .call(|h| MilestoneEscrow::multisig_admin_override_refund(h, caller, 0u32));
        assert_eq!(result, refused(Error::Unauthorized));
        let after = snapshot_refund_ledger(&escrow);
        assert_eq!(after, before);
    }
    assert_eq!(escrow.published_so_far("msadmref"), 0);
}

#[test]
fn locked_admin_override_refunds_client_and_clears_lock() {
    let mut escrow = Chain::funded(&[1_000_i128]);
    let admin_addr = escrow.admin;
    escrow.call(|h| MilestoneEscrow::multisig_lock(h, admin_addr)).unwrap();

    let before = snapshot_refund_ledger(&escrow);
    escrow.call(|h| MilestoneEscrow::multisig_admin_override_refund(h, admin_addr, 0u32)).unwrap();

    let after = snapshot_refund_ledger(&escrow);
    assert!(!after.locked);
    assert_eq!(after.status, MilestoneStatus::Refunded);
    assert_eq!(after.released_amount, 1_000);
    assert_eq!(after.client_balance, before.client_balance + 1_000);
    assert_eq!(after.contract_balance, before.contract_balance - 1_000);

    let lock = escrow.ledger.instance.multisig_locked;
    assert_eq!(lock, None);
}

#[test]
fn refund_negative_amount_returns_invalid_amount_without_panic() {
    let mut escrow = Chain::funded(&[1_000_i128]);
    let admin_addr = escrow.admin;
    escrow.call(|h| MilestoneEscrow::multisig_lock(h, admin_addr)).unwrap();

    let milestone = unlocked_milestone(i128::MIN, 0);
    escrow.ledger.persistent.milestones.set(0, milestone);

    let result = escrow
        .call(|h| MilestoneEscrow::multisig_admin_override_refund(h, admin_addr, 0u32));
    assert_eq!(result, refused(Error::InvalidAmount));

    assert!(MilestoneEscrow::is_multisig_locked(&escrow.host()));
    assert_eq!(escrow.published_so_far("msadmref"), 0);
}

#[test]
fn refund_negative_released_amount_returns_invalid_amount_without_panic() {
    let mut escrow = Chain::funded(&[1_000_i128]);
    let admin_addr = escrow.admin;
    escrow.call(|h| MilestoneEscrow::multisig_lock(h, admin_addr)).unwrap();

    let milestone = unlocked_milestone(i128::MAX, i128::MIN);
    escrow.ledger.persistent.milestones.set(0, milestone);

    let result = escrow
        .call(|h| MilestoneEscrow::multisig_admin_override_refund(h, admin_addr, 0u32));
    assert_eq!(result, refused(Error::InvalidAmount));

    assert!(MilestoneEscrow::is_multisig_locked(&escrow.host()));
    assert_eq!(escrow.published_so_far("msadmref"), 0);
}

#[test]
fn refund_released_exceeds_amount_returns_invalid_amount_without_panic() {
    let mut escrow = Chain::funded(&[1_000_i128]);
    let admin_addr = escrow.admin;
    escrow.call(|h| MilestoneEscrow::multisig_lock(h, admin_addr)).unwrap();

    let milestone = unlocked_milestone(i128::MAX, i128::MAX);
    escrow.ledger.persistent.milestones.set(0, milestone);
    let result = escrow
        .call(|h| MilestoneEscrow::multisig_admin_override_refund(h, admin_addr, 0u32));
    assert_eq!(result, refused(Error::InvalidAmount));
    assert!(MilestoneEscrow::is_multisig_locked(&escrow.host()));
    let milestone2 = unlocked_milestone(100, 200);
    escrow.ledger.persistent.milestones.set(0, milestone2);
    let result = escrow
        .call(|h| MilestoneEscrow::multisig_admin_override_refund(h, admin_addr, 0u32));
    assert_eq!(result, refused(Error::InvalidAmount));
    assert!(MilestoneEscrow::is_multisig_locked(&escrow.host()));

    assert_eq!(escrow.published_so_far("msadmref"), 0);
}

#[test]
fn refund_valid_amount_equals_amount_minus_released_amount() {
    let mut escrow = Chain::funded(&[1_000_i128]);
    let client_addr = escrow.client;
    let admin_addr = escrow.admin;
    escrow.call(|h| MilestoneEscrow::multisig_lock(h, admin_addr)).unwrap();
    let milestone = unlocked_milestone(1_000, 400);
    escrow.ledger.persistent.milestones.set(0, milestone);

    let client_before = escrow.balance(client_addr);

    escrow.call(|h| MilestoneEscrow::multisig_admin_override_refund(h, admin_addr, 0u32)).unwrap();
    assert_eq!(escrow.published_so_far("msadmref"), 1);

    assert!(!MilestoneEscrow::is_multisig_locked(&escrow.host()));
    let ms = escrow.milestone(0);
    assert_eq!(ms.status, MilestoneStatus::Refunded);
    assert_eq!(ms.released_amount, 1_000);
    assert_eq!(escrow.balance(client_addr), client_before + 600);
}

#[test]
fn event_reconciles_with_persisted_multisig_setup() {
    let mut escrow = Chain::funded(&[1_000_i128]);
    let admin_addr = escrow.admin;
    assert_eq!(escrow.published("msiginit"), 0);
    assert_eq!(escrow.ledger.instance.multisig_signers, None);
    assert_eq!(escrow.ledger.instance.multisig_threshold, None);
    assert!(
        matches!(
            escrow.read(|h| MilestoneEscrow::is_multisig_approved(h, 0u32)),
            Err(Refusal::Contract(Error::NotInitialized))
        ),
        "the accessor must report the pre-registration state"
    );

    let signer_a = escrow.generate();
    let signer_b = escrow.generate();
    let signer_c = escrow.generate();
    let signers = vec![signer_a, signer_b, signer_c];
    let threshold = 2u32;

    escrow
        .call(|h| {
            MilestoneEscrow::multisig_approval_init(h, admin_addr, signers.clone(), threshold)
        })
        .unwrap();
    assert_eq!(escrow.published("msiginit"), 1);
    let ev = last_msiginit_event(&escrow);
    assert_eq!(ev.admin, admin_addr);
    assert_eq!(
        ev.signers, signers,
        "event must carry the registered signers"
    );
    assert_eq!(
        ev.threshold, threshold,
        "event must carry the registered threshold"
    );
    assert_event_reconciles(&ev, &escrow);
    let state = escrow.read(|h| MilestoneEscrow::is_multisig_approved(h, 0u32)).unwrap();
    assert_eq!(state.threshold, ev.threshold);
    assert_eq!(state.approvals, 0);
    assert!(!state.approved);
}

#[test]
fn event_carries_the_full_signer_set() {
    let mut escrow = Chain::funded(&[1_000_i128]);
    let admin_addr = escrow.admin;

    let signer_a = escrow.generate();
    let signer_b = escrow.generate();
    let signer_c = escrow.generate();
    let signer_d = escrow.generate();
    let signers = vec![signer_a, signer_b, signer_c, signer_d];

    escrow
        .call(|h| MilestoneEscrow::multisig_approval_init(h, admin_addr, signers.clone(), 3u32))
        .unwrap();

    assert_eq!(escrow.published("msiginit"), 1);
    let ev = last_msiginit_event(&escrow);

    assert_eq!(
        ev.signers.len(),
        4,
        "no signer may be dropped from the event"
    );
    assert_eq!(ev.signers[0], signer_a);
    assert_eq!(ev.signers[1], signer_b);
    assert_eq!(ev.signers[2], signer_c);
    assert_eq!(ev.signers[3], signer_d);

    assert_event_reconciles(&ev, &escrow);
}

#[test]
fn no_event_when_threshold_is_invalid() {
    let mut escrow = Chain::funded(&[1_000_i128]);
    let admin_addr = escrow.admin;

    let signer_a = escrow.generate();
    let signer_b = escrow.generate();
    let signers = vec![signer_a, signer_b];
    assert_eq!(
        escrow
            .call(|h| {
                MilestoneEscrow::multisig_approval_init(h, admin_addr, signers.clone(), 3u32)
            }),
        refused(Error::MultiSigInvalidThreshold)
    );
    assert_eq!(escrow.published("msiginit"), 0);
    assert_eq!(escrow.ledger.instance.multisig_signers, None);
    assert_eq!(escrow.ledger.instance.multisig_threshold, None);
    assert_eq!(
        escrow
            .call(|h| {
                MilestoneEscrow::multisig_approval_init(h, admin_addr, signers.clone(), 0u32)
            }),
        refused(Error::MultiSigInvalidThreshold)
    );
    assert_eq!(escrow.published("msiginit"), 0);
    assert_eq!(escrow.ledger.instance.multisig_signers, None);
    assert_eq!(escrow.ledger.instance.multisig_threshold, None);
}

#[test]
fn no_event_when_signer_set_is_malformed() {
    let mut escrow = Chain::funded(&[1_000_i128]);
    let admin_addr = escrow.admin;
    let empty: Vec<Address> = Vec::new();
    assert_eq!(
        escrow
            .call(|h| MilestoneEscrow::multisig_approval_init(h, admin_addr, empty.clone(), 1u32)),
        refused(Error::MultiSigNoSigners)
    );
    let duplicate = escrow.generate();
    let with_duplicate = vec![duplicate, duplicate];
    assert_eq!(
        escrow
            .call(|h| {
                MilestoneEscrow::multisig_approval_init(h, admin_addr, with_duplicate.clone(), 1u32)
            }),
        refused(Error::MultiSigDuplicateSigner)
    );
    let mut oversized = Vec::new();
    for _ in 0..33 {
        oversized.push(escrow.generate());
    }
    assert_eq!(
        escrow
            .call(|h| {
                MilestoneEscrow::multisig_approval_init(h, admin_addr, oversized.clone(), 1u32)
            }),
        refused(Error::MultiSigTooManySigners)
    );
    assert_eq!(escrow.published("msiginit"), 0);
    assert_eq!(escrow.ledger.instance.multisig_signers, None);
    assert_eq!(escrow.ledger.instance.multisig_threshold, None);
}

#[test]
fn multisig_approval_init_event_tests_no_event_when_caller_is_not_the_admin() {
    let mut escrow = Chain::funded(&[1_000_i128]);
    let client_addr = escrow.client;
    let freelancer_addr = escrow.freelancer;
    let arbiter_addr = escrow.arbiter;
    let admin_addr = escrow.admin;
    let stranger = escrow.generate();

    let signer = escrow.generate();
    let signers = vec![signer];

    for caller in [client_addr, freelancer_addr, arbiter_addr, stranger] {
        assert_eq!(
            escrow
                .call(|h| {
                    MilestoneEscrow::multisig_approval_init(h, caller, signers.clone(), 1u32)
                }),
            refused(Error::Unauthorized),
            "only the admin may register the multisig signer set"
        );
        assert_eq!(escrow.published("msiginit"), 0);
    }
    assert_eq!(escrow.ledger.instance.multisig_signers, None);
    assert_eq!(escrow.ledger.instance.multisig_threshold, None);
    escrow
        .call(|h| MilestoneEscrow::multisig_approval_init(h, admin_addr, signers.clone(), 1u32))
        .unwrap();
    assert_eq!(escrow.published("msiginit"), 1);
    let ev = last_msiginit_event(&escrow);
    assert_eq!(ev.admin, admin_addr);
    assert_event_reconciles(&ev, &escrow);
}

#[test]
fn no_event_when_the_admin_signature_is_missing() {
    let mut escrow = Chain::funded(&[1_000_i128]);
    let admin_addr = escrow.admin;
    escrow.signers = Some(Vec::new());

    let signer = escrow.generate();
    let signers = vec![signer];

    let result = escrow
        .call(|h| MilestoneEscrow::multisig_approval_init(h, admin_addr, signers.clone(), 1u32));
    assert!(
        matches!(result, Err(Refusal::Host)),
        "a call without the admin signature must fail at the host level"
    );

    assert_eq!(escrow.published("msiginit"), 0);
    assert_eq!(escrow.ledger.instance.multisig_signers, None);
    assert_eq!(escrow.ledger.instance.multisig_threshold, None);
}

#[test]
fn no_event_on_rejected_reinitialization() {
    let mut escrow = Chain::funded(&[1_000_i128]);
    let admin_addr = escrow.admin;

    let signer_a = escrow.generate();
    let signer_b = escrow.generate();
    let signers = vec![signer_a, signer_b];
    escrow
        .call(|h| MilestoneEscrow::multisig_approval_init(h, admin_addr, signers.clone(), 2u32))
        .unwrap();

    assert_eq!(escrow.published("msiginit"), 1);
    let ev = last_msiginit_event(&escrow);
    assert_event_reconciles(&ev, &escrow);
    let extra = escrow.generate();
    let new_signers = vec![extra];
    assert_eq!(
        escrow
            .call(|h| {
                MilestoneEscrow::multisig_approval_init(h, admin_addr, new_signers.clone(), 1u32)
            }),
        refused(Error::AlreadyInitialized)
    );
    assert_eq!(escrow.published("msiginit"), 0);
    assert_event_reconciles(&ev, &escrow);
    let stored = escrow.ledger.instance.multisig_signers.clone().unwrap();
    assert_eq!(
        stored.len(),
        2,
        "the rejected call must not overwrite the signer set"
    );
    assert_eq!(stored[0], signer_a);
    assert_eq!(stored[1], signer_b);
}

#[test]
fn test_cancel_admin_transfer_happy_path() {
    let mut escrow = Chain::funded(&[1_000_i128]);
    let admin_addr = escrow.admin;
    let new_admin = escrow.generate();

    escrow
        .call(|h| MilestoneEscrow::propose_admin_transfer(h, admin_addr, new_admin, 7u32))
        .unwrap();
    assert!(escrow.read(MilestoneEscrow::get_pending_admin_transfer).unwrap().is_some());

    escrow.call(|h| MilestoneEscrow::cancel_admin_transfer_proposal(h, admin_addr)).unwrap();
    assert_eq!(escrow.published("admincxl"), 1);
    let Event::AdminTransferCancelled(ev) = escrow.last_event() else { panic!("another event") };
    assert_eq!(ev.admin, admin_addr);
    assert_eq!(ev.proposal_id, 7);

    assert!(escrow.read(MilestoneEscrow::get_pending_admin_transfer).unwrap().is_none());
}

#[test]
fn test_cancel_admin_transfer_no_pending_fails() {
    let mut escrow = Chain::funded(&[1_000_i128]);
    let admin_addr = escrow.admin;

    assert_eq!(
        escrow.call(|h| MilestoneEscrow::cancel_admin_transfer_proposal(h, admin_addr)),
        refused(Error::NoPendingAdminTransfer)
    );
}

#[test]
fn test_cancel_admin_transfer_unauthorized_no_mutation() {
    let mut escrow = Chain::funded(&[1_000_i128]);
    let client_addr = escrow.client;
    let admin_addr = escrow.admin;
    let new_admin = escrow.generate();

    escrow
        .call(|h| MilestoneEscrow::propose_admin_transfer(h, admin_addr, new_admin, 3u32))
        .unwrap();
    assert_eq!(
        escrow.call(|h| MilestoneEscrow::cancel_admin_transfer_proposal(h, client_addr)),
        refused(Error::Unauthorized)
    );
    let pending = escrow.read(MilestoneEscrow::get_pending_admin_transfer).unwrap().unwrap();
    assert_eq!(pending.new_admin, new_admin);
    assert_eq!(pending.proposal_id, 3);
}

#[test]
fn test_cancel_admin_transfer_uninitialized_rejected() {
    let mut escrow = Chain::bare();
    let caller = escrow.generate();
    assert_eq!(
        escrow.call(|h| MilestoneEscrow::cancel_admin_transfer_proposal(h, caller)),
        refused(Error::NotInitialized)
    );
}

#[test]
fn test_cancel_admin_transfer_proposal_clears_lock_and_allows_new_proposal() {
    let mut escrow = Chain::funded(&[1_000_i128]);
    let admin_addr = escrow.admin;
    let first = escrow.generate();
    let second = escrow.generate();

    escrow.call(|h| MilestoneEscrow::propose_admin_transfer(h, admin_addr, first, 1u32)).unwrap();
    assert_eq!(
        escrow.call(|h| MilestoneEscrow::propose_admin_transfer(h, admin_addr, second, 2u32)),
        refused(Error::AdminTransferPending)
    );

    escrow.call(|h| MilestoneEscrow::cancel_admin_transfer_proposal(h, admin_addr)).unwrap();
    escrow.call(|h| MilestoneEscrow::propose_admin_transfer(h, admin_addr, second, 2u32)).unwrap();
    let pending = escrow.read(MilestoneEscrow::get_pending_admin_transfer).unwrap().unwrap();
    assert_eq!(pending.new_admin, second);
    assert_eq!(pending.proposal_id, 2);
}

#[test]
fn execute_transfer_rejects_uninitialised_contract() {
    let mut escrow = Chain::bare();

    assert_eq!(
        escrow.call(|h| MilestoneEscrow::execute_admin_transfer(h)),
        refused(Error::NotInitialized)
    );
    assert_eq!(escrow.published("adminexc"), 0);
}

#[test]
fn execute_transfer_rejects_when_no_pending_transfer() {
    let mut escrow = Chain::funded(&[1_000_i128]);
    let admin_addr = escrow.admin;

    let s1 = escrow.generate();
    let signers = vec![s1];
    escrow
        .call(|h| MilestoneEscrow::multisig_approval_init(h, admin_addr, signers.clone(), 1u32))
        .unwrap();
    assert_eq!(
        escrow.call(|h| MilestoneEscrow::execute_admin_transfer(h)),
        refused(Error::NoPendingAdminTransfer)
    );
    assert_eq!(escrow.published("adminexc"), 0);
}

#[test]
fn execute_transfer_rejects_when_threshold_not_met() {
    let (mut escrow, s1, s2, new_admin) = with_proposed_transfer();
    escrow.call(|h| MilestoneEscrow::multisig_approve(h, s1, 1u32)).unwrap();

    assert_eq!(
        escrow.call(|h| MilestoneEscrow::execute_admin_transfer(h)),
        refused(Error::MultiSigThresholdNotMet)
    );
    let old_admin = escrow.ledger.persistent.admin.unwrap();
    assert_ne!(old_admin, new_admin);

    let pending = escrow.read(MilestoneEscrow::get_pending_admin_transfer).unwrap();
    assert!(pending.is_some());
    assert_eq!(escrow.published("adminexc"), 0);
}

#[test]
fn execute_transfer_swaps_admin_and_emits_event() {
    let (mut escrow, s1, s2, new_admin) = with_proposed_transfer();
    let old_admin = escrow.admin;
    escrow.call(|h| MilestoneEscrow::multisig_approve(h, s1, 1u32)).unwrap();
    escrow.call(|h| MilestoneEscrow::multisig_approve(h, s2, 1u32)).unwrap();

    let result = escrow.call(|h| MilestoneEscrow::execute_admin_transfer(h));
    assert_eq!(result, Ok(()));
    assert_eq!(escrow.published("adminexc"), 1);
    let event = last_adminexc_event(&escrow);
    assert_eq!(event.old_admin, old_admin);
    assert_eq!(event.new_admin, new_admin);
    assert_eq!(event.proposal_id, 1);
    let pending = escrow.read(MilestoneEscrow::get_pending_admin_transfer).unwrap();
    assert!(pending.is_none());
    let current_admin = escrow.ledger.persistent.admin.unwrap();
    assert_eq!(current_admin, new_admin);
    assert_ne!(current_admin, old_admin);
}

#[test]
fn new_admin_can_propose_after_transfer_old_admin_cannot() {
    let (mut escrow, s1, s2, new_admin) = with_proposed_transfer();

    escrow.call(|h| MilestoneEscrow::multisig_approve(h, s1, 1u32)).unwrap();
    escrow.call(|h| MilestoneEscrow::multisig_approve(h, s2, 1u32)).unwrap();
    escrow.call(|h| MilestoneEscrow::execute_admin_transfer(h)).unwrap();
    let another = escrow.generate();
    let result = escrow
        .call(|h| MilestoneEscrow::propose_admin_transfer(h, new_admin, another, 2u32));
    assert!(result.is_ok());
    let pending = escrow.read(MilestoneEscrow::get_pending_admin_transfer).unwrap();
    assert!(pending.is_some());
}
