//! Cancelling a job, and what would be refunded.

use milestone_escrow::events::Event;
use milestone_escrow::host::{Action, Host, Ledger};
use milestone_escrow::types::{Address, AddressKind, Error, Milestone};
use milestone_escrow::MilestoneEscrow;
use soroban_sdk::address_payload::AddressPayload;
use soroban_sdk::testutils::EnvTestConfig;
use soroban_sdk::Env;

/// Why a call came to nothing: the contract refused it, or the host did.
#[derive(Clone, Copy, Debug, PartialEq)]
enum Refusal {
    Contract(Error),
    Host,
}

fn refused<T>(error: Error) -> Result<T, Refusal> {
    Err(Refusal::Contract(error))
}

fn list(amounts: &[i128]) -> soroban_sdk::Vec<i128> {
    let env = Env::new_with_config(EnvTestConfig { capture_snapshot_at_drop: false });
    soroban_sdk::Vec::from_slice(&env, amounts)
}

/// A chain with one escrow contract and one token on it.
#[allow(dead_code)]
struct Chain {
    contract: Address,
    client: Address,
    freelancer: Address,
    arbiter: Address,
    admin: Address,
    token: Address,
    now: u64,
    ledger: Ledger,
    /// Who holds how much of the token.
    holdings: Vec<(Address, i128)>,
    /// Who signs every call; everybody, if this is `None`.
    signers: Option<Vec<Address>>,
    /// What the last call published.
    events: Vec<Event>,
    /// What all calls published.
    log: Vec<Event>,
    addresses: u128,
}

#[allow(dead_code)]
impl Chain {
    /// A chain whose contract has not been set up.
    fn bare() -> Chain {
        let contract = Address { kind: AddressKind::Contract, hi: 1, lo: 0 };
        let mut chain = Chain {
            contract,
            client: contract,
            freelancer: contract,
            arbiter: contract,
            admin: contract,
            token: Address { kind: AddressKind::Contract, hi: 2, lo: 0 },
            now: 0,
            ledger: Ledger::new(),
            holdings: Vec::new(),
            signers: None,
            events: Vec::new(),
            log: Vec::new(),
            addresses: 0,
        };
        chain.client = chain.generate();
        chain.freelancer = chain.generate();
        chain.arbiter = chain.generate();
        chain.admin = chain.generate();
        chain
    }

    /// A chain with a job that has not been funded.
    fn initialized(amounts: &[i128]) -> Chain {
        let mut chain = Chain::bare();
        let (admin, client, freelancer) = (chain.admin, chain.client, chain.freelancer);
        let (arbiter, token) = (chain.arbiter, chain.token);
        chain
            .call(|h| {
                MilestoneEscrow::initialize(
                    h,
                    admin,
                    client,
                    freelancer,
                    arbiter,
                    token,
                    604_800,
                    list(amounts),
                )
            })
            .unwrap();
        chain
    }

    /// A chain with a job into which its client has paid all they own.
    fn funded(amounts: &[i128]) -> Chain {
        let mut chain = Chain::initialized(amounts);
        let client = chain.client;
        chain.mint(client, amounts.iter().sum());
        chain.call(|h| MilestoneEscrow::fund(h, client)).unwrap();
        chain
    }

    /// An account that nobody has seen before.
    fn generate(&mut self) -> Address {
        self.addresses += 1;
        Address { kind: AddressKind::Account, hi: 7, lo: self.addresses }
    }

    fn balance(&self, who: Address) -> i128 {
        self.holdings.iter().filter(|h| h.0 == who).map(|h| h.1).sum()
    }

    fn mint(&mut self, who: Address, amount: i128) {
        self.holdings.push((who, amount));
    }

    /// Moves tokens, if there are enough.
    fn transfer(&mut self, from: Address, to: Address, amount: i128) -> bool {
        if amount < 0 || self.balance(from) < amount {
            return false;
        }
        self.holdings.push((from, -amount));
        self.holdings.push((to, amount));
        true
    }

    fn host(&self) -> Host {
        Host::new(self.contract, self.now, self.balance(self.contract), self.ledger.clone())
    }

    /// Calls the contract, and keeps what the call did only if it was accepted,
    /// everybody whose signature it asked for signed, and all transfers worked.
    fn call<T>(
        &mut self,
        endpoint: impl FnOnce(&mut Host) -> Result<T, Error>,
    ) -> Result<T, Refusal> {
        let mut host = self.host();
        let result = endpoint(&mut host);
        self.events = Vec::new();
        for address in &host.auths {
            if self.signers.as_ref().map_or(false, |s| !s.contains(address)) {
                return Err(Refusal::Host);
            }
        }
        let value = result.map_err(Refusal::Contract)?;
        let before = self.holdings.clone();
        for action in &host.actions {
            if let Action::Transfer { token, from, to, amount } = *action {
                assert_eq!(token, self.token);
                if !self.transfer(from, to, amount) {
                    self.holdings = before;
                    return Err(Refusal::Host);
                }
            }
        }
        self.ledger = host.ledger;
        self.log.extend(host.events.clone());
        self.events = host.events;
        Ok(value)
    }

    fn read<T>(&self, view: impl FnOnce(&Host) -> Result<T, Error>) -> Result<T, Refusal> {
        view(&self.host()).map_err(Refusal::Contract)
    }

    fn milestone(&self, index: usize) -> Milestone {
        self.read(MilestoneEscrow::get_job).unwrap().milestones[index]
    }

    /// How many events of a topic the last call published.
    fn published(&self, topic: &str) -> usize {
        self.events.iter().filter(|e| e.topic() == topic).count()
    }

    /// How many events of a topic all calls published.
    fn published_so_far(&self, topic: &str) -> usize {
        self.log.iter().filter(|e| e.topic() == topic).count()
    }

    fn last_event(&self) -> Event {
        self.events.last().cloned().unwrap()
    }
}

/// The address that a strkey names.
fn address(strkey: &str) -> Address {
    let env = Env::new_with_config(EnvTestConfig { capture_snapshot_at_drop: false });
    let (kind, bytes) = match soroban_sdk::Address::from_str(&env, strkey).to_payload() {
        Some(AddressPayload::AccountIdPublicKeyEd25519(key)) => (AddressKind::Account, key),
        Some(AddressPayload::ContractIdHash(hash)) => (AddressKind::Contract, hash),
        None => panic!("neither an account nor a contract"),
    };
    let bytes = bytes.to_array();
    Address { kind, hi: half(&bytes[..16]), lo: half(&bytes[16..]) }
}

fn half(bytes: &[u8]) -> u128 {
    bytes.iter().fold(0, |n, b| n * 256 + *b as u128)
}

#[test]
fn test_cancel_escrow_split_refund_emergency_pause_rejected() {
    let mut escrow = Chain::initialized(&[1_000]);
    escrow.ledger.instance.emergency_paused = Some(true);

    assert_eq!(
        escrow
            .call(|h| {
                MilestoneEscrow::cancel_escrow_split_refund(h, 1_000_i128, 5_000u32, 5_000u32)
            }),
        refused(Error::Paused)
    );
}

#[test]
fn test_cancel_escrow_split_refund_admin_pause_rejected() {
    let mut escrow = Chain::initialized(&[1_000]);
    escrow.ledger.instance.paused = Some(true);

    assert_eq!(
        escrow
            .call(|h| {
                MilestoneEscrow::cancel_escrow_split_refund(h, 1_000_i128, 5_000u32, 5_000u32)
            }),
        refused(Error::Paused)
    );
}

#[test]
fn test_cancel_escrow_split_refund_cancel_in_flight_rejected() {
    let mut escrow = Chain::initialized(&[1_000]);
    escrow.ledger.instance.cancel_lock = Some(true);

    assert_eq!(
        escrow
            .call(|h| {
                MilestoneEscrow::cancel_escrow_split_refund(h, 1_000_i128, 5_000u32, 5_000u32)
            }),
        refused(Error::EscrowLocked)
    );
}

#[test]
fn test_cancel_escrow_split_refund_emergency_pause_takes_precedence_over_cancel_lock() {
    let mut escrow = Chain::initialized(&[1_000]);
    escrow.ledger.instance.emergency_paused = Some(true);
    escrow.ledger.instance.cancel_lock = Some(true);

    assert_eq!(
        escrow
            .call(|h| {
                MilestoneEscrow::cancel_escrow_split_refund(h, 1_000_i128, 5_000u32, 5_000u32)
            }),
        refused(Error::Paused)
    );
}

#[test]
fn test_cancel_escrow_split_refund_succeeds_once_every_flag_is_cleared() {
    let mut escrow = Chain::initialized(&[1_000]);
    escrow.ledger.instance.emergency_paused = Some(true);
    escrow.ledger.instance.cancel_lock = Some(true);
    escrow.ledger.instance.paused = Some(true);

    assert_eq!(
        escrow
            .call(|h| {
                MilestoneEscrow::cancel_escrow_split_refund(h, 1_000_i128, 5_000u32, 5_000u32)
            }),
        refused(Error::Paused)
    );

    escrow.ledger.instance.emergency_paused = Some(false);
    escrow.ledger.instance.cancel_lock = Some(false);
    escrow.ledger.instance.paused = Some(false);

    let allocation = escrow
        .call(|h| MilestoneEscrow::cancel_escrow_split_refund(h, 1_000_i128, 5_000u32, 5_000u32))
        .unwrap();
    assert_eq!(allocation.client_refund, 500);
    assert_eq!(allocation.freelancer_payout, 500);
}

#[test]
fn test_cancel_escrow_split_refund_pause_guard_precedes_amount_validation() {
    let mut escrow = Chain::initialized(&[1_000]);
    escrow.ledger.instance.emergency_paused = Some(true);

    for total in [0_i128, -1_i128, i128::MIN] {
        assert_eq!(
            escrow
                .call(|h| {
                    MilestoneEscrow::cancel_escrow_split_refund(h, total, 5_000u32, 5_000u32)
                }),
            refused(Error::Paused)
        );
    }
}

#[test]
fn test_cancel_escrow_split_refund_lock_guard_precedes_amount_validation() {
    let mut escrow = Chain::initialized(&[1_000]);
    escrow.ledger.instance.cancel_lock = Some(true);

    for total in [0_i128, -1_i128, i128::MIN] {
        assert_eq!(
            escrow
                .call(|h| {
                    MilestoneEscrow::cancel_escrow_split_refund(h, total, 5_000u32, 5_000u32)
                }),
            refused(Error::EscrowLocked)
        );
    }
}

#[test]
fn test_cancel_escrow_split_refund_pause_guard_precedes_ratio_validation() {
    let mut escrow = Chain::initialized(&[1_000]);
    escrow.ledger.instance.paused = Some(true);

    let bad_ratios = [
        (1_000_u32, 1_000_u32),
        (0_u32, 0_u32),
        (u32::MAX, u32::MAX),
        (0_u32, 10_000_u32),
        (10_000_u32, 0_u32),
    ];
    for (client_bps, freelancer_bps) in bad_ratios {
        assert_eq!(
            escrow
                .call(|h| {
                    MilestoneEscrow::cancel_escrow_split_refund(
                        h,
                        1_000_i128,
                        client_bps,
                        freelancer_bps,
                    )
                }),
            refused(Error::Paused)
        );
    }
}

#[test]
fn test_cancel_escrow_split_refund_argument_errors_survive_the_guards() {
    let mut escrow = Chain::initialized(&[1_000]);

    for total in [0_i128, -1_i128, i128::MIN] {
        assert_eq!(
            escrow
                .call(|h| {
                    MilestoneEscrow::cancel_escrow_split_refund(h, total, 5_000u32, 5_000u32)
                }),
            refused(Error::InvalidAmount)
        );
    }
    assert_eq!(
        escrow
            .call(|h| {
                MilestoneEscrow::cancel_escrow_split_refund(h, 1_000_i128, 1_000u32, 1_000u32)
            }),
        refused(Error::InvalidRatio)
    );
}

#[test]
fn test_cancel_escrow_split_refund_paused_call_publishes_no_event() {
    let mut escrow = Chain::initialized(&[1_000]);
    escrow.ledger.instance.emergency_paused = Some(true);

    assert_eq!(
        escrow
            .call(|h| {
                MilestoneEscrow::cancel_escrow_split_refund(h, 1_000_i128, 5_000u32, 5_000u32)
            }),
        refused(Error::Paused)
    );
    assert_eq!(
        escrow.published("cxlspref"),
        0,
        "no split event on a paused call"
    );
}

#[test]
fn test_cancel_escrow_split_refund_paused_call_mutates_no_storage() {
    let mut escrow = Chain::initialized(&[1_000]);
    escrow.ledger.instance.emergency_paused = Some(true);

    let before = escrow.ledger.clone();
    assert_eq!(
        escrow
            .call(|h| {
                MilestoneEscrow::cancel_escrow_split_refund(h, 1_000_i128, 5_000u32, 5_000u32)
            }),
        refused(Error::Paused)
    );
    let after = escrow.ledger.clone();

    assert_eq!(after.instance, before.instance, "instance storage must be untouched");
    assert_eq!(after.persistent, before.persistent, "persistent storage must be untouched");
    assert_eq!(after.temporary, before.temporary, "temporary storage must be untouched");
}

#[test]
fn test_cancel_escrow_split_refund_locked_call_mutates_no_storage() {
    let mut escrow = Chain::initialized(&[1_000]);
    escrow.ledger.instance.cancel_lock = Some(true);

    let before = escrow.ledger.clone();
    assert_eq!(
        escrow
            .call(|h| {
                MilestoneEscrow::cancel_escrow_split_refund(h, 1_000_i128, 5_000u32, 5_000u32)
            }),
        refused(Error::EscrowLocked)
    );
    let after = escrow.ledger.clone();

    assert_eq!(after.instance, before.instance, "instance storage must be untouched");
    assert_eq!(after.persistent, before.persistent, "persistent storage must be untouched");
    assert_eq!(after.temporary, before.temporary, "temporary storage must be untouched");
}

#[test]
fn test_cancel_escrow_split_refund_uninitialized_calculator_still_works() {
    let mut escrow = Chain::bare();

    assert!(matches!(
        escrow.read(MilestoneEscrow::get_job),
        Err(Refusal::Contract(Error::NotInitialized))
    ));

    let allocation = escrow
        .call(|h| MilestoneEscrow::cancel_escrow_split_refund(h, 1_000_i128, 7_000u32, 3_000u32))
        .unwrap();
    assert_eq!(allocation.client_refund, 700);
    assert_eq!(allocation.freelancer_payout, 300);
}

#[test]
fn test_cancel_escrow_split_refund_success_path_still_emits_one_event() {
    let mut escrow = Chain::initialized(&[1_000]);

    escrow
        .call(|h| MilestoneEscrow::cancel_escrow_split_refund(h, 1_000_i128, 7_000u32, 3_000u32))
        .unwrap();
    assert_eq!(
        escrow.published("cxlspref"),
        1,
        "expected exactly one cxlspref event"
    );

    assert_eq!(
        escrow.last_event().topic(),
        "cxlspref",
        "last event must be the split-refund calculation"
    );
    let Event::CancelSplitRefundCalculated(data) = escrow.last_event() else {
        panic!("another event")
    };
    assert_eq!(data.client_refund, 700);
    assert_eq!(data.freelancer_payout, 300);
    assert_eq!(data.client_refund_bps, 7_000);
    assert_eq!(data.freelancer_payout_bps, 3_000);
}

#[test]
fn test_cancel_escrow_sets_lock_and_emits_event() {
    let mut escrow = Chain::funded(&[1000_i128]);
    let client_addr = escrow.client;
    let freelancer_addr = escrow.freelancer;
    let is_locked_before = escrow.ledger.instance.cancel_lock.unwrap_or(false);
    assert!(!is_locked_before);
    escrow.call(|h| MilestoneEscrow::cancel_escrow(h, client_addr)).unwrap();
    let is_locked_mid = escrow.ledger.instance.cancel_lock.unwrap_or(false);
    assert!(!is_locked_mid, "lock must not fire on single signature");
    escrow.call(|h| MilestoneEscrow::cancel_escrow(h, freelancer_addr)).unwrap();
    assert_eq!(escrow.last_event().topic(), "cancel");
    let Event::CancelEscrowInitiated(parsed_event) = escrow.last_event() else {
        panic!("another event")
    };
    assert_eq!(parsed_event.caller, freelancer_addr);
    assert_eq!(parsed_event.contract_id, escrow.contract);
    let is_locked_after = escrow.ledger.instance.cancel_lock.unwrap_or(false);
    assert!(is_locked_after);
}

#[test]
fn test_cancel_escrow_by_freelancer_succeeds() {
    let mut escrow = Chain::funded(&[1000_i128]);
    let client_addr = escrow.client;
    let freelancer_addr = escrow.freelancer;
    escrow.call(|h| MilestoneEscrow::cancel_escrow(h, freelancer_addr)).unwrap();
    let is_locked_mid = escrow.ledger.instance.cancel_lock.unwrap_or(false);
    assert!(!is_locked_mid, "lock must not fire on single signature");
    escrow.call(|h| MilestoneEscrow::cancel_escrow(h, client_addr)).unwrap();
    let is_locked = escrow.ledger.instance.cancel_lock.unwrap_or(false);
    assert!(is_locked);
}

#[test]
fn test_cancel_escrow_invalid_address() {
    let mut escrow = Chain::funded(&[1000_i128]);

    let zero_account =
        address("GAAAAAAAAAAAAAAAAAAAAAAAAAAAAAAAAAAAAAAAAAAAAAAAAAAAAWHF");
    let zero_contract =
        address("CAAAAAAAAAAAAAAAAAAAAAAAAAAAAAAAAAAAAAAAAAAAAAAAAAAABSC4");
    let res = escrow.call(|h| MilestoneEscrow::cancel_escrow(h, zero_account));
    assert_eq!(res, refused(Error::InvalidAddress));
    let res2 = escrow.call(|h| MilestoneEscrow::cancel_escrow(h, zero_contract));
    assert_eq!(res2, refused(Error::InvalidAddress));
}

#[test]
fn test_cancel_escrow_unauthorized() {
    let mut escrow = Chain::funded(&[1000_i128]);
    let arbiter_addr = escrow.arbiter;
    let res = escrow.call(|h| MilestoneEscrow::cancel_escrow(h, arbiter_addr));
    assert_eq!(res, refused(Error::Unauthorized));
    let random_addr = escrow.generate();
    let res2 = escrow.call(|h| MilestoneEscrow::cancel_escrow(h, random_addr));
    assert_eq!(res2, refused(Error::Unauthorized));
}

#[test]
fn test_cancel_escrow_not_funded() {
    let mut escrow = Chain::initialized(&[1000_i128]);
    let client_addr = escrow.client;
    let res = escrow.call(|h| MilestoneEscrow::cancel_escrow(h, client_addr));
    assert_eq!(res, refused(Error::NotFunded));
}

#[test]
fn test_revoke_cancel_approval_emits_event() {
    let mut escrow = Chain::funded(&[1000_i128]);
    let client_addr = escrow.client;
    let contract_id = escrow.contract;

    escrow.call(|h| MilestoneEscrow::cancel_escrow(h, client_addr)).unwrap();
    assert_eq!(escrow.ledger.instance.cancel_approval, Some(1));

    escrow.call(|h| MilestoneEscrow::revoke_cancel_approval(h, client_addr)).unwrap();

    assert_eq!(escrow.last_event().topic(), "cancelrev");
    let Event::CancelApprovalRevoked(parsed) = escrow.last_event() else { panic!("another event") };
    assert_eq!(parsed.caller, client_addr);
    assert_eq!(parsed.contract_id, contract_id);
    assert_eq!(parsed.approval_mask, 0);
    assert_eq!(escrow.ledger.instance.cancel_approval, None);
}

#[test]
fn test_revoke_cancel_approval_client_before_second_sig() {
    let mut escrow = Chain::funded(&[1000_i128]);
    let client_addr = escrow.client;
    let freelancer_addr = escrow.freelancer;

    escrow.call(|h| MilestoneEscrow::cancel_escrow(h, client_addr)).unwrap();
    escrow.call(|h| MilestoneEscrow::revoke_cancel_approval(h, client_addr)).unwrap();
    escrow.call(|h| MilestoneEscrow::cancel_escrow(h, freelancer_addr)).unwrap();
    assert_eq!(escrow.ledger.instance.cancel_approval, Some(2));
    let is_locked = escrow.ledger.instance.cancel_lock.unwrap_or(false);
    assert!(
        !is_locked,
        "revoked approval must not count toward the lock"
    );
}

#[test]
fn test_revoke_then_reapprove_completes_cancel() {
    let mut escrow = Chain::funded(&[1000_i128]);
    let client_addr = escrow.client;
    let freelancer_addr = escrow.freelancer;

    escrow.call(|h| MilestoneEscrow::cancel_escrow(h, client_addr)).unwrap();
    escrow.call(|h| MilestoneEscrow::revoke_cancel_approval(h, client_addr)).unwrap();
    escrow.call(|h| MilestoneEscrow::cancel_escrow(h, freelancer_addr)).unwrap();
    escrow.call(|h| MilestoneEscrow::cancel_escrow(h, client_addr)).unwrap();

    let is_locked = escrow.ledger.instance.cancel_lock.unwrap_or(false);
    assert!(is_locked);
    assert_eq!(escrow.ledger.instance.cancel_approval, None);
}

#[test]
fn test_revoke_cancel_approval_after_lock_fails() {
    let mut escrow = Chain::funded(&[1000_i128]);
    let client_addr = escrow.client;
    let freelancer_addr = escrow.freelancer;

    escrow.call(|h| MilestoneEscrow::cancel_escrow(h, client_addr)).unwrap();
    escrow.call(|h| MilestoneEscrow::cancel_escrow(h, freelancer_addr)).unwrap();

    let res = escrow.call(|h| MilestoneEscrow::revoke_cancel_approval(h, client_addr));
    assert_eq!(res, refused(Error::EscrowLocked));
}

#[test]
fn test_revoke_cancel_approval_without_prior_approval_fails() {
    let mut escrow = Chain::funded(&[1000_i128]);
    let client_addr = escrow.client;

    let res = escrow.call(|h| MilestoneEscrow::revoke_cancel_approval(h, client_addr));
    assert_eq!(res, refused(Error::InvalidStatus));
}

#[test]
fn test_revoke_cancel_approval_non_party_unauthorized() {
    let mut escrow = Chain::funded(&[1000_i128]);
    let client_addr = escrow.client;

    escrow.call(|h| MilestoneEscrow::cancel_escrow(h, client_addr)).unwrap();

    let outsider = escrow.generate();
    let res = escrow.call(|h| MilestoneEscrow::revoke_cancel_approval(h, outsider));
    assert_eq!(res, refused(Error::Unauthorized));
    assert_eq!(escrow.ledger.instance.cancel_approval, Some(1));
}
