//! Disputes, and what the admin settles without the parties.

use milestone_escrow::events::{ArbitrationSplitAppliedEvent, Event};
use milestone_escrow::host::{Action, Host, Ledger};
use milestone_escrow::types::{Address, AddressKind, Error, Milestone, MilestoneStatus, RefundAllocation};
use milestone_escrow::MilestoneEscrow;
use soroban_sdk::testutils::EnvTestConfig;
use soroban_sdk::Env;

/// Why a call came to nothing: the contract refused it, or the host did.
#[derive(Clone, Copy, Debug, PartialEq)]
enum Refusal {
    Contract(Error),
    Host,
}

fn refused<T>(error: Error) -> Result<T, Refusal> {
    Err(Refusal::Contract(error))
}

fn list(amounts: &[i128]) -> soroban_sdk::Vec<i128> {
    let env = Env::new_with_config(EnvTestConfig { capture_snapshot_at_drop: false });
    soroban_sdk::Vec::from_slice(&env, amounts)
}

/// A chain with one escrow contract and one token on it.
#[allow(dead_code)]
struct Chain {
    contract: Address,
    client: Address,
    freelancer: Address,
    arbiter: Address,
    admin: Address,
    token: Address,
    now: u64,
    ledger: Ledger,
    /// Who holds how much of the token.
    holdings: Vec<(Address, i128)>,
    /// Who signs every call; everybody, if this is `None`.
    signers: Option<Vec<Address>>,
    /// What the last call published.
    events: Vec<Event>,
    /// What all calls published.
    log: Vec<Event>,
    addresses: u128,
}

#[allow(dead_code)]
impl Chain {
    /// A chain whose contract has not been set up.
    fn bare() -> Chain {
        let contract = Address { kind: AddressKind::Contract, hi: 1, lo: 0 };
        let mut chain = Chain {
            contract,
            client: contract,
            freelancer: contract,
            arbiter: contract,
            admin: contract,
            token: Address { kind: AddressKind::Contract, hi: 2, lo: 0 },
            now: 0,
            ledger: Ledger::new(),
            holdings: Vec::new(),
            signers: None,
            events: Vec::new(),
            log: Vec::new(),
            addresses: 0,
        };
        chain.client = chain.generate();
        chain.freelancer = chain.generate();
        chain.arbiter = chain.generate();
        chain.admin = chain.generate();
        chain
    }

    /// A chain with a job that has not been funded.
    fn initialized(amounts: &[i128]) -> Chain {
        let mut chain = Chain::bare();
        let (admin, client, freelancer) = (chain.admin, chain.client, chain.freelancer);
        let (arbiter, token) = (chain.arbiter, chain.token);
        chain
            .call(|h| {
                MilestoneEscrow::initialize(
                    h,
                    admin,
                    client,
                    freelancer,
                    arbiter,
                    token,
                    604_800,
                    list(amounts),
                )
            })
            .unwrap();
        chain
    }

    /// A chain with a job into which its client has paid all they own.
    fn funded(amounts: &[i128]) -> Chain {
        let mut chain = Chain::initialized(amounts);
        let client = chain.client;
        chain.mint(client, amounts.iter().sum());
        chain.call(|h| MilestoneEscrow::fund(h, client)).unwrap();
        chain
    }

    /// An account that nobody has seen before.
    fn generate(&mut self) -> Address {
        self.addresses += 1;
        Address { kind: AddressKind::Account, hi: 7, lo: self.addresses }
    }

    fn balance(&self, who: Address) -> i128 {
        self.holdings.iter().filter(|h| h.0 == who).map(|h| h.1).sum()
    }

    fn mint(&mut self, who: Address, amount: i128) {
        self.holdings.push((who, amount));
    }

    /// Moves tokens, if there are enough.
    fn transfer(&mut self, from: Address, to: Address, amount: i128) -> bool {
        if amount < 0 || self.balance(from) < amount {
            return false;
        }
        self.holdings.push((from, -amount));
        self.holdings.push((to, amount));
        true
    }

    fn host(&self) -> Host {
        Host::new(self.contract, self.now, self.balance(self.contract), self.ledger.clone())
    }

    /// Calls the contract, and keeps what the call did only if it was accepted,
    /// everybody whose signature it asked for signed, and all transfers worked.
    fn call<T>(
        &mut self,
        endpoint: impl FnOnce(&mut Host) -> Result<T, Error>,
    ) -> Result<T, Refusal> {
        let mut host = self.host();
        let result = endpoint(&mut host);
        self.events = Vec::new();
        for address in &host.auths {
            if self.signers.as_ref().map_or(false, |s| !s.contains(address)) {
                return Err(Refusal::Host);
            }
        }
        let value = result.map_err(Refusal::Contract)?;
        let before = self.holdings.clone();
        for action in &host.actions {
            if let Action::Transfer { token, from, to, amount } = *action {
                assert_eq!(token, self.token);
                if !self.transfer(from, to, amount) {
                    self.holdings = before;
                    return Err(Refusal::Host);
                }
            }
        }
        self.ledger = host.ledger;
        self.log.extend(host.events.clone());
        self.events = host.events;
        Ok(value)
    }

    fn read<T>(&self, view: impl FnOnce(&Host) -> Result<T, Error>) -> Result<T, Refusal> {
        view(&self.host()).map_err(Refusal::Contract)
    }

    fn milestone(&self, index: usize) -> Milestone {
        self.read(MilestoneEscrow::get_job).unwrap().milestones[index]
    }

    /// How many events of a topic the last call published.
    fn published(&self, topic: &str) -> usize {
        self.events.iter().filter(|e| e.topic() == topic).count()
    }

    /// How many events of a topic all calls published.
    fn published_so_far(&self, topic: &str) -> usize {
        self.log.iter().filter(|e| e.topic() == topic).count()
    }

    fn last_event(&self) -> Event {
        self.events.last().cloned().unwrap()
    }
}

/// The first milestone, and what the freelancer and the contract hold.
fn snapshot_release_ledger(escrow: &Chain) -> ReleaseLedgerSnapshot {
    let milestone = escrow.milestone(0);
    ReleaseLedgerSnapshot {
        status: milestone.status,
        released_amount: milestone.released_amount,
        freelancer_balance: escrow.balance(escrow.freelancer),
        contract_balance: escrow.balance(escrow.contract),
    }
}

#[derive(Clone, Copy, Debug, PartialEq)]
struct ReleaseLedgerSnapshot {
    status: MilestoneStatus,
    released_amount: i128,
    freelancer_balance: i128,
    contract_balance: i128,
}

/// A job whose only milestone its client disputes.
fn disputed_escrow(amount: i128) -> Chain {
    let mut escrow = Chain::funded(&[amount]);
    let client = escrow.client;
    escrow.call(|h| MilestoneEscrow::raise_dispute(h, client, 0)).unwrap();
    escrow
}

fn last_arbsplit_event(escrow: &Chain) -> ArbitrationSplitAppliedEvent {
    assert_eq!(escrow.last_event().topic(), "arbsplit");
    match escrow.last_event() {
        Event::ArbitrationSplitApplied(event) => event,
        _ => panic!("another event"),
    }
}

#[test]
fn admin_override_release_tests_unauthorized_caller_returns_unauthorized_and_does_not_mutate_storage() {
    let mut escrow = Chain::funded(&[1_000_i128]);

    let before = snapshot_release_ledger(&escrow);
    assert_eq!(before.status, MilestoneStatus::Pending);
    assert_eq!(before.released_amount, 0);

    let attacker = escrow.generate();
    let result = escrow.call(|h| MilestoneEscrow::admin_override_release(h, attacker, 0u32));
    assert_eq!(result, refused(Error::Unauthorized));

    let after = snapshot_release_ledger(&escrow);
    assert_eq!(after, before);
    assert_eq!(escrow.published_so_far("admovrls"), 0);
}

#[test]
fn illegal_terminal_source_state_returns_invalid_status_and_does_not_mutate_storage() {
    let mut escrow = Chain::funded(&[1_000_i128]);
    let client_addr = escrow.client;
    let freelancer_addr = escrow.freelancer;
    let admin_addr = escrow.admin;
    escrow.call(|h| MilestoneEscrow::mark_delivered(h, freelancer_addr, 0u32)).unwrap();
    escrow.call(|h| MilestoneEscrow::approve_milestone(h, client_addr, 0u32)).unwrap();

    let before = snapshot_release_ledger(&escrow);
    assert_eq!(before.status, MilestoneStatus::Released);
    assert_eq!(before.released_amount, 1_000);

    let result = escrow.call(|h| MilestoneEscrow::admin_override_release(h, admin_addr, 0u32));
    assert_eq!(result, refused(Error::InvalidStatus));

    let after = snapshot_release_ledger(&escrow);
    assert_eq!(after, before);
    assert_eq!(escrow.published_so_far("admovrls"), 0);
}

#[test]
fn admin_override_release_tests_client_freelancer_and_arbiter_are_unauthorized_without_storage_mutation() {
    let mut escrow = Chain::funded(&[1_000_i128]);
    let client_addr = escrow.client;
    let freelancer_addr = escrow.freelancer;
    let arbiter_addr = escrow.arbiter;

    let before = snapshot_release_ledger(&escrow);
    for caller in [client_addr, freelancer_addr, arbiter_addr] {
        let result = escrow.call(|h| MilestoneEscrow::admin_override_release(h, caller, 0u32));
        assert_eq!(result, refused(Error::Unauthorized));
        let after = snapshot_release_ledger(&escrow);
        assert_eq!(after, before);
    }
    assert_eq!(escrow.published_so_far("admovrls"), 0);
}

#[test]
fn admin_override_release_releases_funds_to_freelancer() {
    let mut escrow = Chain::funded(&[1_000_i128]);
    let admin_addr = escrow.admin;

    let before = snapshot_release_ledger(&escrow);
    escrow.call(|h| MilestoneEscrow::admin_override_release(h, admin_addr, 0u32)).unwrap();

    let after = snapshot_release_ledger(&escrow);
    assert_eq!(after.status, MilestoneStatus::Released);
    assert_eq!(after.released_amount, 1_000);
    assert_eq!(after.freelancer_balance, before.freelancer_balance + 1_000);
    assert_eq!(after.contract_balance, before.contract_balance - 1_000);
    assert_eq!(escrow.published_so_far("admovrls"), 1);
}

#[test]
fn test_admin_override_streaming_release_succeeds() {
    let mut escrow = disputed_escrow(1_000_i128);
    let (client_addr, freelancer_addr) = (escrow.client, escrow.freelancer);
    let admin_addr = escrow.admin;
    let split = escrow
        .call(|h| {
            MilestoneEscrow::admin_override_streaming_release(
                h,
                admin_addr,
                0u32,
                50_i128,
                100_i128,
            )
        })
        .unwrap();

    assert_eq!(escrow.published("admstrm"), 1);
    assert_eq!(split.first + split.second, 1_000);
    assert_eq!(split.first, 500, "freelancer payout");
    assert_eq!(split.second, 500, "client refund");

    assert_eq!(escrow.balance(freelancer_addr), 500);
    assert_eq!(escrow.balance(client_addr), 500);
}

#[test]
fn test_admin_override_streaming_release_emits_event() {
    let mut escrow = disputed_escrow(1_000_i128);
    let (client_addr, freelancer_addr) = (escrow.client, escrow.freelancer);
    let admin_addr = escrow.admin;
    let token_id = escrow.token;

    escrow
        .call(|h| {
            MilestoneEscrow::admin_override_streaming_release(
                h,
                admin_addr,
                0u32,
                25_i128,
                100_i128,
            )
        })
        .unwrap();

    let Event::AdminOverrideStreamingRelease(ev) = escrow.last_event() else {
        panic!("another event")
    };
    assert_eq!(ev.admin, admin_addr);
    assert_eq!(ev.milestone_index, 0);
    assert_eq!(ev.client, client_addr);
    assert_eq!(ev.freelancer, freelancer_addr);
    assert_eq!(ev.token, token_id);
    assert_eq!(ev.freelancer_payout, 250);
    assert_eq!(ev.client_refund, 750);
}

#[test]
fn test_admin_override_streaming_release_zero_elapsed_refunds_client() {
    let mut escrow = disputed_escrow(1_000_i128);
    let (client_addr, freelancer_addr) = (escrow.client, escrow.freelancer);
    let admin_addr = escrow.admin;

    let split = escrow
        .call(|h| {
            MilestoneEscrow::admin_override_streaming_release(h, admin_addr, 0u32, 0_i128, 100_i128)
        })
        .unwrap();

    assert_eq!(split.first, 0, "no time elapsed, no payout");
    assert_eq!(split.second, 1_000);

    assert_eq!(escrow.balance(client_addr), 1_000);
    assert_eq!(escrow.balance(freelancer_addr), 0);
    let milestone = escrow.milestone(0);
    assert_eq!(milestone.status, MilestoneStatus::Refunded);
}

#[test]
fn test_admin_override_streaming_release_full_elapsed_pays_freelancer() {
    let mut escrow = disputed_escrow(1_000_i128);
    let (client_addr, freelancer_addr) = (escrow.client, escrow.freelancer);
    let admin_addr = escrow.admin;

    let split = escrow
        .call(|h| {
            MilestoneEscrow::admin_override_streaming_release(
                h,
                admin_addr,
                0u32,
                100_i128,
                100_i128,
            )
        })
        .unwrap();

    assert_eq!(split.first, 1_000);
    assert_eq!(split.second, 0);

    assert_eq!(escrow.balance(freelancer_addr), 1_000);
    assert_eq!(escrow.balance(client_addr), 0);

    let milestone = escrow.milestone(0);
    assert_eq!(milestone.status, MilestoneStatus::Released);
}

#[test]
fn test_admin_override_streaming_release_requires_disputed_status() {
    let mut escrow = Chain::funded(&[1_000_i128]);
    let admin_addr = escrow.admin;

    assert_eq!(
        escrow
            .call(|h| {
                MilestoneEscrow::admin_override_streaming_release(
                    h,
                    admin_addr,
                    0u32,
                    50_i128,
                    100_i128,
                )
            }),
        refused(Error::InvalidStatus)
    );
}

#[test]
fn test_admin_override_streaming_release_unauthorized_fails() {
    let mut escrow = disputed_escrow(1_000_i128);
    let (client_addr, freelancer_addr) = (escrow.client, escrow.freelancer);
    let admin_addr = escrow.admin;

    for caller in [client_addr, freelancer_addr] {
        assert_eq!(
            escrow
                .call(|h| {
                    MilestoneEscrow::admin_override_streaming_release(
                        h,
                        caller,
                        0u32,
                        50_i128,
                        100_i128,
                    )
                }),
            refused(Error::Unauthorized),
        );
    }
    assert_eq!(escrow.balance(client_addr), 0);
    assert_eq!(escrow.balance(freelancer_addr), 0);
}

#[test]
fn test_admin_override_streaming_release_invalid_time_params_fails() {
    let mut escrow = disputed_escrow(1_000_i128);
    let admin_addr = escrow.admin;
    assert!(escrow
        .call(|h| {
            MilestoneEscrow::admin_override_streaming_release(h, admin_addr, 0u32, 10_i128, 0_i128)
        })
        .is_err());
    assert!(escrow
        .call(|h| {
            MilestoneEscrow::admin_override_streaming_release(h, admin_addr, 0u32, 200_i128, 100_i128)
        })
        .is_err());
    assert!(escrow
        .call(|h| {
            MilestoneEscrow::admin_override_streaming_release(h, admin_addr, 0u32, -1_i128, 100_i128)
        })
        .is_err());
}

#[test]
fn test_admin_override_streaming_release_invalid_milestone_fails() {
    let mut escrow = disputed_escrow(1_000_i128);
    let admin_addr = escrow.admin;

    assert_eq!(
        escrow
            .call(|h| {
                MilestoneEscrow::admin_override_streaming_release(
                    h,
                    admin_addr,
                    5u32,
                    50_i128,
                    100_i128,
                )
            }),
        refused(Error::InvalidMilestone)
    );
}

#[test]
fn admin_tax_rejects_caller_on_uninitialised_contract() {
    let mut escrow = Chain::bare();
    let stranger = escrow.generate();

    assert_eq!(
        escrow
            .call(|h| {
                MilestoneEscrow::admin_tax_withholding_deductions(h, stranger, 0u32, 1000u32)
            }),
        refused(Error::NotInitialized)
    );
    assert!(!escrow.ledger.instance.tax_withholding_execution_lock.is_some());
    assert_eq!(escrow.published("taxwh"), 0);
}

#[test]
fn admin_tax_rejects_non_admin_caller() {
    let mut escrow = Chain::funded(&[1_000_i128]);
    let client_addr = escrow.client;

    assert_eq!(
        escrow
            .call(|h| {
                MilestoneEscrow::admin_tax_withholding_deductions(h, client_addr, 0u32, 1000u32)
            }),
        refused(Error::Unauthorized)
    );
    assert!(!escrow.ledger.instance.tax_withholding_execution_lock.is_some());
    assert_eq!(escrow.milestone(0).status, MilestoneStatus::Pending);
    assert_eq!(escrow.published("taxwh"), 0);
}

#[test]
fn admin_tax_rejects_unfunded_contract() {
    let mut escrow = Chain::initialized(&[1_000]);
    let admin_addr = escrow.admin;

    assert_eq!(
        escrow
            .call(|h| {
                MilestoneEscrow::admin_tax_withholding_deductions(h, admin_addr, 0u32, 1000u32)
            }),
        refused(Error::NotFunded)
    );
    assert!(!escrow.ledger.instance.tax_withholding_execution_lock.is_some());
    assert_eq!(escrow.published("taxwh"), 0);
}

#[test]
fn admin_tax_rejects_out_of_range_milestone() {
    let mut escrow = Chain::funded(&[1_000_i128]);
    let admin_addr = escrow.admin;

    assert_eq!(
        escrow
            .call(|h| {
                MilestoneEscrow::admin_tax_withholding_deductions(h, admin_addr, 99u32, 1000u32)
            }),
        refused(Error::InvalidMilestone)
    );
    assert!(!escrow.ledger.instance.tax_withholding_execution_lock.is_some());
    assert_eq!(escrow.milestone(0).status, MilestoneStatus::Pending);
    assert_eq!(escrow.published("taxwh"), 0);
}

#[test]
fn admin_tax_rejects_rate_above_full_scale() {
    let mut escrow = Chain::funded(&[1_000_i128]);
    let admin_addr = escrow.admin;

    assert_eq!(
        escrow
            .call(|h| {
                MilestoneEscrow::admin_tax_withholding_deductions(h, admin_addr, 0u32, 10_001u32)
            }),
        refused(Error::InvalidRatio)
    );
    assert!(!escrow.ledger.instance.tax_withholding_execution_lock.is_some());
    assert_eq!(escrow.published("taxwh"), 0);
}

#[test]
fn admin_tax_rejects_empty_contract_balance() {
    let mut escrow = Chain::funded(&[1_000_i128]);
    let admin_addr = escrow.admin;
    let contract_id = escrow.contract;
    let elsewhere = escrow.generate();
    assert!(escrow.transfer(contract_id, elsewhere, 1_000_i128));

    assert_eq!(
        escrow
            .call(|h| {
                MilestoneEscrow::admin_tax_withholding_deductions(h, admin_addr, 0u32, 1000u32)
            }),
        refused(Error::InvalidAmount)
    );
    assert!(!escrow.ledger.instance.tax_withholding_execution_lock.is_some());
    assert_eq!(escrow.milestone(0).status, MilestoneStatus::Pending);
    assert_eq!(escrow.published("taxwh"), 0);
}

#[test]
fn admin_tax_success_computes_and_emits_exactly_one_event() {
    let mut escrow = Chain::funded(&[1_000_i128]);
    let admin_addr = escrow.admin;
    let contract_id = escrow.contract;

    let (gross_amount, tax_amount, net_amount) =
        escrow
            .call(|h| {
                MilestoneEscrow::admin_tax_withholding_deductions(h, admin_addr, 0u32, 2_500u32)
            })
            .unwrap();

    assert_eq!(gross_amount, 1_000);
    assert_eq!(tax_amount, 250);
    assert_eq!(net_amount, 750);
    assert_eq!(gross_amount, tax_amount + net_amount);

    assert_eq!(escrow.last_event().topic(), "taxwh");
    let Event::TaxWithholdingDeductions(event) = escrow.last_event() else {
        panic!("another event")
    };
    assert_eq!(escrow.published("taxwh"), 1);
    assert_eq!(event.admin, admin_addr);
    assert_eq!(event.contract_id, contract_id);
    assert_eq!(event.milestone_index, 0);
    assert_eq!(event.gross_amount, 1_000);
    assert_eq!(event.tax_amount, 250);
    assert_eq!(event.net_amount, 750);
    assert_eq!(event.tax_rate_bps, 2_500);
    assert!(!escrow.ledger.instance.tax_withholding_execution_lock.is_some());
}

#[test]
fn event_reconciles_with_persisted_state_on_partial_split() {
    let mut escrow = disputed_escrow(10_000_i128);
    let (client_addr, freelancer_addr) = (escrow.client, escrow.freelancer);
    let arbiter_addr = escrow.arbiter;
    let contract_id = escrow.contract;
    let alloc: RefundAllocation =
        escrow
            .call(|h| {
                MilestoneEscrow::apply_dispute_arbitration_split(h, arbiter_addr, 0u32, 4_000u32)
            })
            .unwrap();
    assert_eq!(escrow.published("arbsplit"), 1);
    let ev = last_arbsplit_event(&escrow);
    assert_eq!(ev.contract_id, contract_id);
    assert_eq!(ev.arbiter, arbiter_addr);
    assert_eq!(ev.milestone_index, 0u32);
    assert_eq!(ev.client, client_addr);
    assert_eq!(ev.freelancer, freelancer_addr);
    assert_eq!(ev.token, escrow.token);
    assert_eq!(ev.client_refund, alloc.client_refund);
    assert_eq!(ev.freelancer_payout, alloc.freelancer_payout);
    assert_eq!(ev.client_refund, 4_000);
    assert_eq!(ev.freelancer_payout, 6_000);
    assert_eq!(escrow.balance(client_addr), ev.client_refund);
    assert_eq!(escrow.balance(freelancer_addr), ev.freelancer_payout);
    assert_eq!(ev.client_refund_bps, 4_000);
    assert_eq!(ev.freelancer_payout_bps, 6_000);
    assert_eq!(
        escrow.ledger.temporary.arbitration_split_bps.get(0),
        Some(ev.client_refund_bps)
    );
    let ms = escrow.milestone(0);
    assert_eq!(ev.released_amount, ms.released_amount);
    assert_eq!(ev.released_amount, 6_000);
    assert_eq!(ev.status, ms.status);
    assert_eq!(ev.status, MilestoneStatus::Released);
}

#[test]
fn event_reports_refunded_status_on_full_client_refund() {
    let mut escrow = disputed_escrow(7_500_i128);
    let (client_addr, freelancer_addr) = (escrow.client, escrow.freelancer);
    let arbiter_addr = escrow.arbiter;
    
    escrow
        .call(|h| {
            MilestoneEscrow::apply_dispute_arbitration_split(h, arbiter_addr, 0u32, 10_000u32)
        })
        .unwrap();

    assert_eq!(escrow.published("arbsplit"), 1);
    let ev = last_arbsplit_event(&escrow);

    assert_eq!(ev.client_refund, 7_500);
    assert_eq!(ev.freelancer_payout, 0);
    assert_eq!(ev.client_refund_bps, 10_000);
    assert_eq!(ev.freelancer_payout_bps, 0);
    assert_eq!(ev.released_amount, 0);
    assert_eq!(ev.status, MilestoneStatus::Refunded);

    let ms = escrow.milestone(0);
    assert_eq!(ev.released_amount, ms.released_amount);
    assert_eq!(ev.status, ms.status);
    assert_eq!(escrow.balance(client_addr), 7_500);
    assert_eq!(escrow.balance(freelancer_addr), 0);
    assert_eq!(escrow.ledger.temporary.arbitration_split_bps.get(0), Some(10_000));
}

#[test]
fn event_reports_released_status_on_full_freelancer_award() {
    let mut escrow = disputed_escrow(9_000_i128);
    let freelancer_addr = escrow.freelancer;
    let arbiter_addr = escrow.arbiter;
    
    escrow
        .call(|h| MilestoneEscrow::apply_dispute_arbitration_split(h, arbiter_addr, 0u32, 0u32))
        .unwrap();

    assert_eq!(escrow.published("arbsplit"), 1);
    let ev = last_arbsplit_event(&escrow);

    assert_eq!(ev.client_refund, 0);
    assert_eq!(ev.freelancer_payout, 9_000);
    assert_eq!(ev.client_refund_bps, 0);
    assert_eq!(ev.freelancer_payout_bps, 10_000);
    assert_eq!(ev.released_amount, 9_000);
    assert_eq!(ev.status, MilestoneStatus::Released);

    let ms = escrow.milestone(0);
    assert_eq!(ev.released_amount, ms.released_amount);
    assert_eq!(ev.status, ms.status);
    assert_eq!(escrow.balance(freelancer_addr), 9_000);
    assert_eq!(escrow.ledger.temporary.arbitration_split_bps.get(0), Some(0));
}

#[test]
fn event_amounts_sum_to_disputed_balance_with_odd_rounding() {
    let mut escrow = disputed_escrow(101_i128);
    let (client_addr, freelancer_addr) = (escrow.client, escrow.freelancer);
    let arbiter_addr = escrow.arbiter;

    escrow
        .call(|h| {
            MilestoneEscrow::apply_dispute_arbitration_split(h, arbiter_addr, 0u32, 5_000u32)
        })
        .unwrap();

    let ev = last_arbsplit_event(&escrow);
    assert_eq!(escrow.published("arbsplit"), 1);
    assert_eq!(ev.client_refund + ev.freelancer_payout, 101);
    assert_eq!(escrow.balance(client_addr), ev.client_refund);
    assert_eq!(escrow.balance(freelancer_addr), ev.freelancer_payout);
    assert_eq!(ev.released_amount, ev.freelancer_payout);
    assert_eq!(escrow.ledger.temporary.arbitration_split_bps.get(0), Some(5_000));
}

#[test]
fn no_event_when_caller_is_not_the_arbiter() {
    let mut escrow = disputed_escrow(10_000_i128);

    let stranger = escrow.generate();
    let result = escrow
        .call(|h| MilestoneEscrow::apply_dispute_arbitration_split(h, stranger, 0u32, 5_000u32));

    assert!(result.is_err());
    assert_eq!(escrow.published("arbsplit"), 0);
}

#[test]
fn no_event_when_milestone_is_not_disputed() {
    let mut escrow = Chain::funded(&[10_000_i128]);
    let arbiter_addr = escrow.arbiter;

    let result = escrow
        .call(|h| {
            MilestoneEscrow::apply_dispute_arbitration_split(h, arbiter_addr, 0u32, 5_000u32)
        });

    assert_eq!(result, refused(Error::InvalidStatus));
    assert_eq!(escrow.published("arbsplit"), 0);
}

#[test]
fn no_event_when_bps_exceeds_scale() {
    let mut escrow = disputed_escrow(10_000_i128);
    let arbiter_addr = escrow.arbiter;

    let result = escrow
        .call(|h| {
            MilestoneEscrow::apply_dispute_arbitration_split(h, arbiter_addr, 0u32, 10_001u32)
        });

    assert_eq!(result, refused(Error::InvalidRatio));
    assert_eq!(escrow.published("arbsplit"), 0);
    assert_eq!(escrow.ledger.temporary.arbitration_split_bps.get(0), None);
}

#[test]
fn no_event_on_double_execution_failure() {
    let mut escrow = disputed_escrow(10_000_i128);
    let arbiter_addr = escrow.arbiter;
    escrow
        .call(|h| {
            MilestoneEscrow::apply_dispute_arbitration_split(h, arbiter_addr, 0u32, 3_000u32)
        })
        .unwrap();
    assert_eq!(escrow.published("arbsplit"), 1);
    let stored = escrow.ledger.temporary.arbitration_split_bps.get(0);
    assert_eq!(stored, Some(3_000));
    let result = escrow
        .call(|h| {
            MilestoneEscrow::apply_dispute_arbitration_split(h, arbiter_addr, 0u32, 3_000u32)
        });
    assert_eq!(result, refused(Error::InvalidStatus));
    assert_eq!(escrow.published("arbsplit"), 0);
    assert_eq!(escrow.ledger.temporary.arbitration_split_bps.get(0), stored);
}
