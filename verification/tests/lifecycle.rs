//! Every endpoint, from setting a job up to settling it.

use milestone_escrow::events::Event;
use milestone_escrow::host::{Action, Host, Ledger};
use milestone_escrow::shares::LargestRemainder;
use milestone_escrow::types::{
    Address, AddressKind, Error, Milestone, MilestoneStatus, PlatformFeeAllocation, TaxWithholdingRecord,
};
use milestone_escrow::MilestoneEscrow;
use soroban_sdk::testutils::EnvTestConfig;
use soroban_sdk::Env;

/// Why a call came to nothing: the contract refused it, or the host did.
#[derive(Clone, Copy, Debug, PartialEq)]
enum Refusal {
    Contract(Error),
    Host,
}

fn refused<T>(error: Error) -> Result<T, Refusal> {
    Err(Refusal::Contract(error))
}

fn list(amounts: &[i128]) -> soroban_sdk::Vec<i128> {
    let env = Env::new_with_config(EnvTestConfig { capture_snapshot_at_drop: false });
    soroban_sdk::Vec::from_slice(&env, amounts)
}

/// A chain with one escrow contract and one token on it.
#[allow(dead_code)]
struct Chain {
    contract: Address,
    client: Address,
    freelancer: Address,
    arbiter: Address,
    admin: Address,
    token: Address,
    now: u64,
    ledger: Ledger,
    /// Who holds how much of the token.
    holdings: Vec<(Address, i128)>,
    /// Who signs every call; everybody, if this is `None`.
    signers: Option<Vec<Address>>,
    /// What the last call published.
    events: Vec<Event>,
    /// What all calls published.
    log: Vec<Event>,
    addresses: u128,
}

#[allow(dead_code)]
impl Chain {
    /// A chain whose contract has not been set up.
    fn bare() -> Chain {
        let contract = Address { kind: AddressKind::Contract, hi: 1, lo: 0 };
        let mut chain = Chain {
            contract,
            client: contract,
            freelancer: contract,
            arbiter: contract,
            admin: contract,
            token: Address { kind: AddressKind::Contract, hi: 2, lo: 0 },
            now: 0,
            ledger: Ledger::new(),
            holdings: Vec::new(),
            signers: None,
            events: Vec::new(),
            log: Vec::new(),
            addresses: 0,
        };
        chain.client = chain.generate();
        chain.freelancer = chain.generate();
        chain.arbiter = chain.generate();
        chain.admin = chain.generate();
        chain
    }

    /// A chain with a job that has not been funded.
    fn initialized(amounts: &[i128]) -> Chain {
        let mut chain = Chain::bare();
        let (admin, client, freelancer) = (chain.admin, chain.client, chain.freelancer);
        let (arbiter, token) = (chain.arbiter, chain.token);
        chain
            .call(|h| {
                MilestoneEscrow::initialize(
                    h,
                    admin,
                    client,
                    freelancer,
                    arbiter,
                    token,
                    604_800,
                    list(amounts),
                )
            })
            .unwrap();
        chain
    }

    /// A chain with a job into which its client has paid all they own.
    fn funded(amounts: &[i128]) -> Chain {
        let mut chain = Chain::initialized(amounts);
        let client = chain.client;
        chain.mint(client, amounts.iter().sum());
        chain.call(|h| MilestoneEscrow::fund(h, client)).unwrap();
        chain
    }

    /// An account that nobody has seen before.
    fn generate(&mut self) -> Address {
        self.addresses += 1;
        Address { kind: AddressKind::Account, hi: 7, lo: self.addresses }
    }

    fn balance(&self, who: Address) -> i128 {
        self.holdings.iter().filter(|h| h.0 == who).map(|h| h.1).sum()
    }

    fn mint(&mut self, who: Address, amount: i128) {
        self.holdings.push((who, amount));
    }

    /// Moves tokens, if there are enough.
    fn transfer(&mut self, from: Address, to: Address, amount: i128) -> bool {
        if amount < 0 || self.balance(from) < amount {
            return false;
        }
        self.holdings.push((from, -amount));
        self.holdings.push((to, amount));
        true
    }

    fn host(&self) -> Host {
        Host::new(self.contract, self.now, self.balance(self.contract), self.ledger.clone())
    }

    /// Calls the contract, and keeps what the call did only if it was accepted,
    /// everybody whose signature it asked for signed, and all transfers worked.
    fn call<T>(
        &mut self,
        endpoint: impl FnOnce(&mut Host) -> Result<T, Error>,
    ) -> Result<T, Refusal> {
        let mut host = self.host();
        let result = endpoint(&mut host);
        self.events = Vec::new();
        for address in &host.auths {
            if self.signers.as_ref().map_or(false, |s| !s.contains(address)) {
                return Err(Refusal::Host);
            }
        }
        let value = result.map_err(Refusal::Contract)?;
        let before = self.holdings.clone();
        for action in &host.actions {
            if let Action::Transfer { token, from, to, amount } = *action {
                assert_eq!(token, self.token);
                if !self.transfer(from, to, amount) {
                    self.holdings = before;
                    return Err(Refusal::Host);
                }
            }
        }
        self.ledger = host.ledger;
        self.log.extend(host.events.clone());
        self.events = host.events;
        Ok(value)
    }

    fn read<T>(&self, view: impl FnOnce(&Host) -> Result<T, Error>) -> Result<T, Refusal> {
        view(&self.host()).map_err(Refusal::Contract)
    }

    fn milestone(&self, index: usize) -> Milestone {
        self.read(MilestoneEscrow::get_job).unwrap().milestones[index]
    }

    /// How many events of a topic the last call published.
    fn published(&self, topic: &str) -> usize {
        self.events.iter().filter(|e| e.topic() == topic).count()
    }

    /// How many events of a topic all calls published.
    fn published_so_far(&self, topic: &str) -> usize {
        self.log.iter().filter(|e| e.topic() == topic).count()
    }

    fn last_event(&self) -> Event {
        self.events.last().cloned().unwrap()
    }
}

fn amounts_of(list: &soroban_sdk::Vec<i128>) -> Vec<i128> {
    (0..list.len()).map(|i| list.get(i).unwrap()).collect()
}

fn reputation(escrow: &Chain, who: Address) -> u32 {
    escrow.read(|h| MilestoneEscrow::get_reputation(h, who)).unwrap()
}

const ZERO: Address = Address { kind: AddressKind::Account, hi: 0, lo: 0 };

fn initialize(
    escrow: &mut Chain,
    parties: [Address; 5],
    seconds: u64,
    amounts: &[i128],
) -> Result<(), Refusal> {
    let [admin, client, freelancer, arbiter, token] = parties;
    let amounts = list(amounts);
    escrow.call(|h| {
        MilestoneEscrow::initialize(
            h, admin, client, freelancer, arbiter, token, seconds, amounts,
        )
    })
}

#[test]
fn initialize_stores_the_job() {
    let escrow = Chain::initialized(&[100, 250]);
    let job = escrow.read(MilestoneEscrow::get_job).unwrap();
    assert_eq!(job.client, escrow.client);
    assert_eq!(job.freelancer, escrow.freelancer);
    assert_eq!(job.arbiter, escrow.arbiter);
    assert_eq!(job.token, escrow.token);
    assert!(!job.funded);
    assert_eq!(job.auto_release_seconds, 604_800);
    assert_eq!(job.milestones.len(), 2);
    assert_eq!(
        job.milestones[1],
        Milestone {
            amount: 250,
            released_amount: 0,
            status: MilestoneStatus::Pending,
            delivered_at: 0,
        }
    );
    assert_eq!(escrow.ledger.instance.job.unwrap().total_amount, 350);
    assert_eq!(MilestoneEscrow::version(&escrow.host()), 1);
    assert_eq!(
        escrow.read(MilestoneEscrow::get_whitelisted_tokens),
        Ok(vec![escrow.token])
    );
    assert_eq!(
        escrow.read(MilestoneEscrow::get_platform_fee_allocation),
        Ok(PlatformFeeAllocation {
            client_bps: 0,
            freelancer_bps: 10_000,
            treasury_bps: 0,
            locked: false,
        })
    );
    let Event::Initialized(event) = escrow.last_event() else { panic!("another event") };
    assert_eq!(escrow.last_event().topic(), "init");
    assert_eq!(amounts_of(&event.milestone_amounts), vec![100, 250]);
    assert_eq!(event.total_amount, 350);
    assert_eq!(event.milestone_count, 2);
}

#[test]
fn initialize_refuses_bad_jobs() {
    let mut escrow = Chain::bare();
    let good = [escrow.admin, escrow.client, escrow.freelancer, escrow.arbiter, escrow.token];
    for i in 0..5 {
        let mut parties = good;
        parties[i] = ZERO;
        assert_eq!(
            initialize(&mut escrow, parties, 1, &[1]),
            refused(Error::InvalidAddress)
        );
        parties[i] = escrow.contract;
        assert_eq!(
            initialize(&mut escrow, parties, 1, &[1]),
            refused(Error::InvalidAddress)
        );
    }
    for amounts in [&[][..], &[5, 0], &[5, -1], &[i128::MAX, 1]] {
        assert_eq!(
            initialize(&mut escrow, good, 1, amounts),
            refused(Error::InvalidAmount)
        );
    }
    assert_eq!(initialize(&mut escrow, good, 0, &[1]), refused(Error::InvalidAmount));
    assert_eq!(escrow.ledger, Ledger::new());
    assert_eq!(initialize(&mut escrow, good, 1, &[i128::MAX - 1, 1]), Ok(()));
    assert_eq!(
        initialize(&mut escrow, good, 1, &[1]),
        refused(Error::AlreadyInitialized)
    );
}

#[test]
fn fund_moves_the_total_once() {
    let mut escrow = Chain::initialized(&[100, 250]);
    let (client, freelancer, contract) = (escrow.client, escrow.freelancer, escrow.contract);
    escrow.mint(client, 349);
    assert_eq!(
        escrow.call(|h| MilestoneEscrow::fund(h, client)),
        Err(Refusal::Host)
    );
    assert!(!escrow.ledger.instance.job.unwrap().funded);
    escrow.mint(client, 11);
    for stranger in [ZERO, contract] {
        assert_eq!(
            escrow.call(|h| MilestoneEscrow::fund(h, stranger)),
            refused(Error::InvalidAddress)
        );
    }
    assert_eq!(
        escrow.call(|h| MilestoneEscrow::fund(h, freelancer)),
        refused(Error::Unauthorized)
    );
    assert_eq!(escrow.call(|h| MilestoneEscrow::fund(h, client)), Ok(()));
    assert_eq!(escrow.balance(client), 10);
    assert_eq!(escrow.balance(contract), 350);
    let Event::Funded(event) = escrow.last_event() else { panic!("another event") };
    assert_eq!(event.total_amount, 350);
    assert!(event.funded);
    assert_eq!(
        escrow.call(|h| MilestoneEscrow::fund(h, client)),
        refused(Error::AlreadyFunded)
    );
}

#[test]
fn fund_checks_the_stored_total_and_the_token() {
    let mut escrow = Chain::initialized(&[100, 250]);
    let (client, admin, token) = (escrow.client, escrow.admin, escrow.token);
    escrow.mint(client, 350);
    let stored = escrow.milestone(0);
    escrow.ledger.persistent.milestones.set(0, Milestone { amount: 99, ..stored });
    assert_eq!(
        escrow.call(|h| MilestoneEscrow::fund(h, client)),
        refused(Error::InvalidAmount)
    );
    escrow.ledger.persistent.milestones.set(0, stored);
    let other = escrow.generate();
    escrow.call(|h| MilestoneEscrow::add_whitelisted_token(h, admin, other)).unwrap();
    escrow.call(|h| MilestoneEscrow::remove_whitelisted_token(h, admin, token)).unwrap();
    assert_eq!(
        escrow.call(|h| MilestoneEscrow::fund(h, client)),
        refused(Error::TokenNotWhitelisted)
    );
    escrow.call(|h| MilestoneEscrow::add_whitelisted_token(h, admin, token)).unwrap();
    assert_eq!(escrow.call(|h| MilestoneEscrow::fund(h, client)), Ok(()));
}

#[test]
fn the_whitelist_has_a_limit_and_is_never_empty() {
    let mut escrow = Chain::initialized(&[100]);
    let (admin, token, contract) = (escrow.admin, escrow.token, escrow.contract);
    assert_eq!(
        escrow.call(|h| MilestoneEscrow::remove_whitelisted_token(h, admin, token)),
        refused(Error::InvalidAmount)
    );
    for bad in [ZERO, contract] {
        assert_eq!(
            escrow.call(|h| MilestoneEscrow::add_whitelisted_token(h, admin, bad)),
            refused(Error::InvalidAddress)
        );
    }
    let mut tokens = vec![token];
    while tokens.len() < 50 {
        let next = escrow.generate();
        escrow.call(|h| MilestoneEscrow::add_whitelisted_token(h, admin, next)).unwrap();
        tokens.push(next);
    }
    let next = escrow.generate();
    assert_eq!(
        escrow.call(|h| MilestoneEscrow::add_whitelisted_token(h, admin, next)),
        refused(Error::InvalidAmount)
    );
    assert_eq!(
        escrow.call(|h| MilestoneEscrow::add_whitelisted_token(h, admin, token)),
        refused(Error::TokenAlreadyWhitelisted)
    );
    assert_eq!(
        escrow.call(|h| MilestoneEscrow::remove_whitelisted_token(h, admin, next)),
        refused(Error::TokenNotWhitelisted)
    );
    let third = tokens[2];
    escrow.call(|h| MilestoneEscrow::remove_whitelisted_token(h, admin, third)).unwrap();
    assert_eq!(escrow.last_event().topic(), "wldel");
    tokens.swap_remove(2);
    assert_eq!(escrow.read(MilestoneEscrow::get_whitelisted_tokens), Ok(tokens));
    assert!(!MilestoneEscrow::is_token_whitelisted(&escrow.host(), third));
    assert!(MilestoneEscrow::is_token_whitelisted(&escrow.host(), token));
}

#[test]
fn a_token_that_is_not_listed_cannot_be_removed() {
    let mut escrow = Chain::initialized(&[1_000]);
    let (admin, token, other) = (escrow.admin, escrow.token, escrow.generate());
    assert_eq!(
        escrow.call(|h| MilestoneEscrow::remove_whitelisted_token(h, admin, other)),
        refused(Error::TokenNotWhitelisted)
    );
    assert_eq!(escrow.read(MilestoneEscrow::get_whitelisted_tokens), Ok(vec![token]));
    escrow.ledger.instance.whitelisted_tokens = Some(Vec::new());
    assert_eq!(
        escrow.call(|h| MilestoneEscrow::remove_whitelisted_token(h, admin, token)),
        refused(Error::TokenNotWhitelisted)
    );
}

#[test]
fn the_whitelist_is_fixed_once_the_job_is_funded() {
    let mut escrow = Chain::funded(&[100]);
    let (admin, token) = (escrow.admin, escrow.token);
    assert_eq!(
        escrow.call(|h| MilestoneEscrow::add_whitelisted_token(h, admin, token)),
        refused(Error::AlreadyFunded)
    );
    assert_eq!(
        escrow.call(|h| MilestoneEscrow::remove_whitelisted_token(h, admin, token)),
        refused(Error::AlreadyFunded)
    );
}

#[test]
fn an_approved_milestone_is_paid_and_credited() {
    let mut escrow = Chain::funded(&[100, 250]);
    let (client, freelancer) = (escrow.client, escrow.freelancer);
    escrow.now = 77;
    assert_eq!(
        escrow.call(|h| MilestoneEscrow::approve_milestone(h, client, 0)),
        refused(Error::InvalidStatus)
    );
    escrow.call(|h| MilestoneEscrow::mark_delivered(h, freelancer, 0)).unwrap();
    assert_eq!(escrow.milestone(0).status, MilestoneStatus::Delivered);
    assert_eq!(escrow.milestone(0).delivered_at, 77);
    assert_eq!(
        escrow.call(|h| MilestoneEscrow::approve_milestone(h, freelancer, 0)),
        refused(Error::Unauthorized)
    );
    assert_eq!(
        escrow.call(|h| MilestoneEscrow::approve_milestone(h, client, 2)),
        refused(Error::InvalidMilestone)
    );
    escrow.call(|h| MilestoneEscrow::approve_milestone(h, client, 0)).unwrap();
    assert_eq!(escrow.milestone(0).status, MilestoneStatus::Released);
    assert_eq!(escrow.milestone(0).released_amount, 100);
    assert_eq!(escrow.balance(freelancer), 100);
    assert_eq!(escrow.balance(escrow.contract), 250);
    assert_eq!(reputation(&escrow, client), 1);
    assert_eq!(reputation(&escrow, freelancer), 1);
    assert_eq!(escrow.ledger.temporary.milestone_released.get(0), Some(true));
    let Event::Approved(event) = escrow.last_event() else { panic!("another event") };
    assert_eq!((event.amount, event.released_amount, event.remaining), (100, 100, 0));
    assert_eq!(event.total_amount, 350);
}

#[test]
fn parts_of_a_milestone_add_up() {
    let mut escrow = Chain::funded(&[100]);
    let (client, freelancer) = (escrow.client, escrow.freelancer);
    escrow.call(|h| MilestoneEscrow::mark_delivered(h, freelancer, 0)).unwrap();
    for amount in [0, -1, 101] {
        assert_eq!(
            escrow.call(|h| MilestoneEscrow::approve_partial(h, client, 0, amount)),
            refused(Error::InvalidAmount)
        );
    }
    escrow.call(|h| MilestoneEscrow::approve_partial(h, client, 0, 30)).unwrap();
    assert_eq!(escrow.milestone(0).status, MilestoneStatus::PartiallyReleased);
    let Event::Approved(event) = escrow.last_event() else { panic!("another event") };
    assert_eq!((event.amount, event.released_amount, event.remaining), (100, 30, 70));
    assert_eq!(reputation(&escrow, client), 0);
    assert_eq!(
        escrow.call(|h| MilestoneEscrow::approve_partial(h, client, 0, 71)),
        refused(Error::InvalidAmount)
    );
    escrow.call(|h| MilestoneEscrow::approve_partial(h, client, 0, 70)).unwrap();
    assert_eq!(escrow.milestone(0).status, MilestoneStatus::Released);
    assert_eq!(escrow.balance(freelancer), 100);
    assert_eq!(reputation(&escrow, client), 1);
    assert_eq!(reputation(&escrow, freelancer), 1);
    assert_eq!(
        escrow.call(|h| MilestoneEscrow::approve_partial(h, client, 0, 1)),
        refused(Error::InvalidStatus)
    );
}

#[test]
fn a_claim_waits_for_the_deadline() {
    let mut escrow = Chain::funded(&[100]);
    let (client, freelancer) = (escrow.client, escrow.freelancer);
    escrow.now = 1_000;
    escrow.call(|h| MilestoneEscrow::mark_delivered(h, freelancer, 0)).unwrap();
    escrow.call(|h| MilestoneEscrow::extend_milestone_deadline(h, client, 0, 50)).unwrap();
    assert_eq!(
        escrow.call(|h| MilestoneEscrow::extend_milestone_deadline(h, client, 0, 0)),
        refused(Error::InvalidExtension)
    );
    escrow.now = 1_000 + 604_800 + 49;
    assert_eq!(
        escrow.read(|h| MilestoneEscrow::time_until_auto_release(h, 0)),
        Ok(1)
    );
    assert_eq!(
        escrow.call(|h| MilestoneEscrow::claim_auto_release(h, freelancer, 0)),
        refused(Error::DeadlineNotPassed)
    );
    escrow.now += 1;
    // The milestone still knows when it was delivered once the note expired.
    escrow.ledger.temporary.delivered_at.remove(0);
    assert_eq!(
        escrow.read(|h| MilestoneEscrow::time_until_auto_release(h, 0)),
        Ok(0)
    );
    assert_eq!(
        escrow.call(|h| MilestoneEscrow::claim_auto_release(h, client, 0)),
        refused(Error::Unauthorized)
    );
    escrow.call(|h| MilestoneEscrow::claim_auto_release(h, freelancer, 0)).unwrap();
    assert_eq!(escrow.balance(freelancer), 100);
    assert_eq!(escrow.milestone(0).status, MilestoneStatus::Released);
    assert_eq!(reputation(&escrow, freelancer), 1);
    assert_eq!(
        escrow.call(|h| MilestoneEscrow::claim_auto_release(h, freelancer, 0)),
        refused(Error::InvalidStatus)
    );
}

#[test]
fn an_extension_that_does_not_expire_counts_too() {
    let mut escrow = Chain::funded(&[100]);
    let freelancer = escrow.freelancer;
    escrow.call(|h| MilestoneEscrow::mark_delivered(h, freelancer, 0)).unwrap();
    escrow.ledger.persistent.time_ext.set(0, 5);
    assert_eq!(
        escrow.read(|h| MilestoneEscrow::time_until_auto_release(h, 0)),
        Ok(604_805)
    );
    escrow.ledger.temporary.time_ext.set(0, 7);
    assert_eq!(
        escrow.read(|h| MilestoneEscrow::time_until_auto_release(h, 0)),
        Ok(604_807)
    );
}

#[test]
fn a_dispute_is_resolved_either_way() {
    for release in [true, false] {
        let mut escrow = Chain::funded(&[100]);
        let (client, freelancer, arbiter) = (escrow.client, escrow.freelancer, escrow.arbiter);
        assert_eq!(
            escrow.call(|h| MilestoneEscrow::resolve_dispute(h, arbiter, 0, release)),
            refused(Error::InvalidStatus)
        );
        escrow.call(|h| MilestoneEscrow::raise_dispute(h, freelancer, 0)).unwrap();
        assert_eq!(escrow.milestone(0).status, MilestoneStatus::Disputed);
        assert_eq!(escrow.ledger.temporary.dispute_flag.get(0), Some(true));
        assert_eq!(
            escrow.call(|h| MilestoneEscrow::raise_dispute(h, client, 0)),
            refused(Error::InvalidStatus)
        );
        assert_eq!(
            escrow.call(|h| MilestoneEscrow::resolve_dispute(h, client, 0, release)),
            refused(Error::Unauthorized)
        );
        escrow.call(|h| MilestoneEscrow::resolve_dispute(h, arbiter, 0, release)).unwrap();
        let Event::DisputeResolved(event) = escrow.last_event() else { panic!("another event") };
        assert_eq!((event.amount, event.paid_amount), (100, 100));
        if release {
            assert_eq!(escrow.milestone(0).status, MilestoneStatus::Released);
            assert_eq!(escrow.balance(freelancer), 100);
            assert_eq!(reputation(&escrow, client), 1);
        } else {
            assert_eq!(escrow.milestone(0).status, MilestoneStatus::Refunded);
            assert_eq!(escrow.balance(client), 100);
            assert_eq!(reputation(&escrow, client), 0);
        }
    }
}

#[test]
fn a_dispute_pays_no_more_than_there_is() {
    let mut escrow = Chain::funded(&[100]);
    let (client, freelancer, arbiter) = (escrow.client, escrow.freelancer, escrow.arbiter);
    let contract = escrow.contract;
    escrow.call(|h| MilestoneEscrow::raise_dispute(h, client, 0)).unwrap();
    let elsewhere = escrow.generate();
    assert!(escrow.transfer(contract, elsewhere, 70));
    escrow.call(|h| MilestoneEscrow::resolve_dispute(h, arbiter, 0, true)).unwrap();
    let Event::DisputeResolved(event) = escrow.last_event() else { panic!("another event") };
    assert_eq!((event.amount, event.paid_amount), (100, 30));
    assert_eq!(escrow.balance(freelancer), 30);
    assert_eq!(escrow.milestone(0).released_amount, 30);

    let mut escrow = Chain::funded(&[100]);
    escrow.call(|h| MilestoneEscrow::raise_dispute(h, client, 0)).unwrap();
    let elsewhere = escrow.generate();
    assert!(escrow.transfer(contract, elsewhere, 70));
    let split = escrow
        .call(|h| MilestoneEscrow::apply_dispute_arbitration_split(h, arbiter, 0, 2_500))
        .unwrap();
    assert_eq!((split.client_refund, split.freelancer_payout), (25, 5));
    assert_eq!(escrow.balance(contract), 0);

    let mut escrow = Chain::funded(&[100]);
    escrow.call(|h| MilestoneEscrow::raise_dispute(h, client, 0)).unwrap();
    assert!(escrow.transfer(contract, elsewhere, 100));
    assert_eq!(
        escrow.call(|h| MilestoneEscrow::resolve_dispute(h, arbiter, 0, true)),
        refused(Error::InvalidAmount)
    );
}

#[test]
fn a_dispute_is_raised_one_at_a_time() {
    let mut escrow = Chain::funded(&[100]);
    let client = escrow.client;
    escrow.ledger.temporary.dispute_lock.set(0, true);
    assert_eq!(
        escrow.call(|h| MilestoneEscrow::raise_dispute(h, client, 0)),
        refused(Error::DisputeAlreadyRaised)
    );
}

#[test]
fn an_arbitration_split_rounds_to_the_nearest() {
    let split = MilestoneEscrow::dispute_arbitration_split(101, 5_000).unwrap();
    assert_eq!((split.freelancer_payout, split.client_refund), (51, 50));
    assert_eq!((split.freelancer_payout_bps, split.client_refund_bps), (5_000, 5_000));
    let split = MilestoneEscrow::dispute_arbitration_split(0, 10_000).unwrap();
    assert_eq!((split.freelancer_payout, split.client_refund), (0, 0));
    assert_eq!(
        MilestoneEscrow::dispute_arbitration_split(-1, 0),
        Err(Error::InvalidAmount)
    );
    assert_eq!(
        MilestoneEscrow::dispute_arbitration_split(1, 10_001),
        Err(Error::InvalidRatio)
    );
    assert_eq!(
        MilestoneEscrow::dispute_arbitration_split(i128::MAX, 2),
        Err(Error::InvalidAmount)
    );
}

#[test]
fn a_cancelled_job_is_settled_in_one_go() {
    for release in [true, false] {
        let mut escrow = Chain::funded(&[100, 250, 50]);
        let (client, freelancer, admin) = (escrow.client, escrow.freelancer, escrow.admin);
        escrow.call(|h| MilestoneEscrow::mark_delivered(h, freelancer, 0)).unwrap();
        escrow.call(|h| MilestoneEscrow::approve_milestone(h, client, 0)).unwrap();
        escrow.call(|h| MilestoneEscrow::mark_delivered(h, freelancer, 1)).unwrap();
        escrow.call(|h| MilestoneEscrow::approve_partial(h, client, 1, 20)).unwrap();
        escrow.call(|h| MilestoneEscrow::admin_accrue_yield(h, admin, 0, 9)).unwrap();
        assert_eq!(
            escrow.call(|h| MilestoneEscrow::admin_override_cancel_release(h, admin)),
            refused(Error::InvalidStatus)
        );
        escrow.call(|h| MilestoneEscrow::cancel_escrow(h, client)).unwrap();
        assert_eq!(
            escrow.call(|h| MilestoneEscrow::cancel_escrow(h, client)),
            refused(Error::InvalidStatus)
        );
        escrow.call(|h| MilestoneEscrow::cancel_escrow(h, freelancer)).unwrap();
        assert_eq!(
            escrow.call(|h| MilestoneEscrow::cancel_escrow(h, client)),
            refused(Error::EscrowLocked)
        );
        assert_eq!(
            escrow.call(|h| MilestoneEscrow::mark_delivered(h, freelancer, 2)),
            refused(Error::EscrowLocked)
        );
        if release {
            escrow
                .call(|h| MilestoneEscrow::admin_override_cancel_release(h, admin))
                .unwrap();
            assert_eq!(escrow.balance(freelancer), 400);
            assert_eq!(escrow.milestone(2).status, MilestoneStatus::Released);
            assert_eq!(escrow.ledger.instance.cancel_lock, Some(false));
            assert_eq!(escrow.ledger.persistent.yield_accrued, Some(0));
        } else {
            escrow
                .call(|h| MilestoneEscrow::admin_override_cancel_refund(h, admin))
                .unwrap();
            assert_eq!(escrow.balance(client), 280);
            assert_eq!(escrow.milestone(2).status, MilestoneStatus::Refunded);
            assert_eq!(escrow.ledger.instance.cancel_lock, None);
            assert_eq!(escrow.ledger.persistent.yield_accrued, None);
        }
        assert_eq!(escrow.balance(escrow.contract), 0);
        assert_eq!(escrow.milestone(0).status, MilestoneStatus::Released);
    }
}

#[test]
fn a_cancelled_job_needs_something_to_settle() {
    let mut escrow = Chain::initialized(&[100]);
    let (client, freelancer, admin) = (escrow.client, escrow.freelancer, escrow.admin);
    assert_eq!(
        escrow.call(|h| MilestoneEscrow::admin_override_cancel_refund(h, admin)),
        refused(Error::NotFunded)
    );
    escrow.mint(client, 100);
    escrow.call(|h| MilestoneEscrow::fund(h, client)).unwrap();
    escrow.call(|h| MilestoneEscrow::mark_delivered(h, freelancer, 0)).unwrap();
    escrow.call(|h| MilestoneEscrow::approve_milestone(h, client, 0)).unwrap();
    assert_eq!(
        escrow.call(|h| MilestoneEscrow::cancel_escrow(h, client)),
        refused(Error::InvalidAmount)
    );
    escrow.ledger.instance.cancel_lock = Some(true);
    assert_eq!(
        escrow.call(|h| MilestoneEscrow::admin_override_cancel_refund(h, admin)),
        refused(Error::InvalidAmount)
    );
    assert_eq!(
        escrow.call(|h| {
            MilestoneEscrow::cancel_escrow_claim_refund(h, admin, 1_000, 5_000, 5_000)
        }),
        refused(Error::EmptyBalance)
    );
}

#[test]
fn a_cancelled_job_is_claimed_as_previewed() {
    let mut escrow = Chain::funded(&[1_001]);
    let (client, freelancer, admin) = (escrow.client, escrow.freelancer, escrow.admin);
    let preview = escrow
        .call(|h| MilestoneEscrow::cancel_escrow_split_refund(h, 1_001, 5_000, 5_000))
        .unwrap();
    assert_eq!((preview.client_refund, preview.freelancer_payout), (501, 500));
    assert_eq!(
        escrow.call(|h| {
            MilestoneEscrow::cancel_escrow_claim_refund(h, admin, 1_001, 5_000, 5_000)
        }),
        refused(Error::InvalidStatus)
    );
    escrow.call(|h| MilestoneEscrow::cancel_escrow(h, client)).unwrap();
    escrow.call(|h| MilestoneEscrow::cancel_escrow(h, freelancer)).unwrap();
    assert_eq!(
        escrow.call(|h| {
            MilestoneEscrow::cancel_escrow_claim_refund(h, admin, 1_001, 5_000, 5_000)
        }),
        Ok(preview)
    );
    assert_eq!(escrow.last_event().topic(), "cxlspref");
}

#[test]
fn an_admin_hands_over() {
    let mut escrow = Chain::initialized(&[100]);
    let (admin, client) = (escrow.admin, escrow.client);
    let next = escrow.generate();
    assert_eq!(
        escrow.call(|h| MilestoneEscrow::transfer_admin(h, client, next)),
        refused(Error::Unauthorized)
    );
    assert_eq!(
        escrow.call(|h| MilestoneEscrow::transfer_admin(h, admin, ZERO)),
        refused(Error::InvalidAddress)
    );
    escrow.call(|h| MilestoneEscrow::propose_admin_transfer(h, admin, next, 1)).unwrap();
    assert_eq!(
        escrow.call(|h| MilestoneEscrow::transfer_admin(h, admin, next)),
        refused(Error::AdminTransferPending)
    );
    escrow.call(|h| MilestoneEscrow::cancel_admin_transfer_proposal(h, admin)).unwrap();
    escrow.call(|h| MilestoneEscrow::transfer_admin(h, admin, next)).unwrap();
    assert_eq!(escrow.last_event().topic(), "admin");
    assert_eq!(escrow.ledger.instance.admin, Some(next));
    assert_eq!(escrow.ledger.persistent.admin, Some(next));
}

#[test]
fn an_upgrade_raises_the_version_by_one() {
    let mut escrow = Chain::initialized(&[100]);
    let admin = escrow.admin;
    assert_eq!(MilestoneEscrow::version(&Chain::bare().host()), 1);
    escrow.call(|h| MilestoneEscrow::upgrade(h, admin, [7; 32])).unwrap();
    assert_eq!(MilestoneEscrow::version(&escrow.host()), 2);
    let Event::ContractUpgraded(event) = escrow.last_event() else { panic!("another event") };
    assert_eq!((event.version, event.new_wasm_hash), (2, [7; 32]));
    let mut host = escrow.host();
    MilestoneEscrow::upgrade(&mut host, admin, [8; 32]).unwrap();
    assert_eq!(host.actions, vec![Action::UpdateWasm { hash: [8; 32] }]);
    escrow.ledger.instance.version = Some(u32::MAX);
    assert_eq!(
        escrow.call(|h| MilestoneEscrow::upgrade(h, admin, [7; 32])),
        refused(Error::InvalidAmount)
    );
    escrow.ledger.instance.emergency_paused = Some(true);
    assert_eq!(
        escrow.call(|h| MilestoneEscrow::upgrade(h, admin, [7; 32])),
        refused(Error::Paused)
    );
}

#[test]
fn an_amount_is_allocated_to_the_last_unit() {
    let mut escrow = Chain::initialized(&[100]);
    let admin = escrow.admin;
    let env = Env::new_with_config(EnvTestConfig { capture_snapshot_at_drop: false });
    let shares = |escrow: &mut Chain, total: i128, weights: &[i128]| {
        let weights = soroban_sdk::Vec::from_slice(&env, weights);
        escrow
            .call(|h| MilestoneEscrow::emergency_pause_allocation(h, &env, total, weights))
            .map(|list| amounts_of(&list))
    };
    assert_eq!(shares(&mut escrow, 100, &[1, 1, 1]), Ok(vec![34, 33, 33]));
    assert_eq!(shares(&mut escrow, 101, &[1, 1, 1]), Ok(vec![34, 34, 33]));
    assert_eq!(shares(&mut escrow, 10, &[0, 2, 1]), Ok(vec![0, 7, 3]));
    assert_eq!(shares(&mut escrow, 11, &[1, 4, 2]), Ok(vec![2, 6, 3]));
    let Event::EmergencyPauseAllocation(event) = escrow.last_event() else {
        panic!("another event")
    };
    assert_eq!((event.total_amount, event.num_parties), (11, 3));
    assert_eq!(amounts_of(&event.allocations), vec![2, 6, 3]);
    let bad = refused(Error::InvalidAllocationWeights);
    assert_eq!(shares(&mut escrow, 0, &[1]), refused(Error::InvalidAmount));
    assert_eq!(shares(&mut escrow, 1, &[]), bad);
    assert_eq!(shares(&mut escrow, 1, &[1; 256]), bad);
    assert_eq!(shares(&mut escrow, 1, &[5, -1, 6]), bad);
    assert_eq!(shares(&mut escrow, 1, &[0, 0]), bad);
    assert_eq!(shares(&mut escrow, 1, &[i128::MAX, 1]), bad);
    assert_eq!(shares(&mut escrow, 2, &[i128::MAX]), refused(Error::InvalidAmount));
    assert_eq!(shares(&mut escrow, 1, &[i128::MAX]), Ok(vec![1]));

    let shares = |escrow: &mut Chain, total: i128, ratios: &[i128]| {
        let ratios = soroban_sdk::Vec::from_slice(&env, ratios);
        escrow
            .call(|h| MilestoneEscrow::multisig_transfer_admin(h, &env, admin, total, ratios))
            .map(|list| amounts_of(&list))
    };
    assert_eq!(shares(&mut escrow, 7, &[3, 3, 1]), Ok(vec![3, 3, 1]));
    assert_eq!(shares(&mut escrow, 8, &[3, 3, 1]), Ok(vec![4, 3, 1]));
    assert_eq!(shares(&mut escrow, 1, &[]), refused(Error::InvalidRatio));
    assert_eq!(shares(&mut escrow, 1, &[1; 256]), refused(Error::InvalidAmount));
    assert_eq!(shares(&mut escrow, 1, &[-1, 2]), refused(Error::InvalidRatio));
    assert_eq!(shares(&mut escrow, 1, &[0]), refused(Error::InvalidRatio));
}

#[test]
fn fees_are_shared_out_and_locked() {
    let mut escrow = Chain::initialized(&[100]);
    let admin = escrow.admin;
    let set = |escrow: &mut Chain, c: u32, f: u32, t: u32| {
        escrow.call(|h| MilestoneEscrow::set_platform_fee_allocation(h, admin, c, f, t))
    };
    assert_eq!(set(&mut escrow, 3_333, 4_667, 1_999), refused(Error::InvalidRatio));
    assert_eq!(set(&mut escrow, 5_001, 4_999, 0), refused(Error::FeeTooHigh));
    assert_eq!(set(&mut escrow, 0, 7_999, 2_001), refused(Error::FeeTooHigh));
    assert_eq!(set(&mut escrow, u32::MAX, 1, 10_000), refused(Error::InvalidRatio));
    assert_eq!(set(&mut escrow, 3_333, 4_667, 2_000), Ok(()));
    let split = escrow
        .call(|h| MilestoneEscrow::calculate_platform_fee_split(h, 101))
        .unwrap();
    assert_eq!(
        (split.client_amount, split.freelancer_amount, split.treasury_amount),
        (34, 47, 20)
    );
    let split = |escrow: &mut Chain, total: i128| {
        escrow
            .call(|h| MilestoneEscrow::calculate_platform_fee_split(h, total))
            .map(|d| d.client_amount)
    };
    assert_eq!(split(&mut escrow, 0), Ok(0));
    assert_eq!(split(&mut escrow, -1), refused(Error::InvalidAmount));
    assert_eq!(split(&mut escrow, i128::MIN), refused(Error::ArithmeticOverflow));
    assert_eq!(split(&mut escrow, i128::MAX), refused(Error::ArithmeticOverflow));

    assert_eq!(
        escrow.call(|h| MilestoneEscrow::pf_alloc_admin_override(h, admin, 0, 10_000, 0)),
        refused(Error::InvalidStatus)
    );
    escrow.call(|h| MilestoneEscrow::lock_platform_fee_allocation(h, admin)).unwrap();
    assert_eq!(set(&mut escrow, 0, 10_000, 0), refused(Error::InvalidStatus));
    escrow
        .call(|h| MilestoneEscrow::pf_alloc_admin_override(h, admin, 0, 9_000, 1_000))
        .unwrap();
    assert_eq!(
        escrow.read(MilestoneEscrow::get_platform_fee_allocation),
        Ok(PlatformFeeAllocation {
            client_bps: 0,
            freelancer_bps: 9_000,
            treasury_bps: 1_000,
            locked: false,
        })
    );
    escrow.ledger.instance.platform_fee_allocation_lock = Some(true);
    assert_eq!(
        set(&mut escrow, 0, 10_000, 0),
        refused(Error::PlatformFeeAllocationInProgress)
    );
    escrow.ledger.instance.platform_fee_allocation_lock = None;
    escrow.ledger.instance.emergency_pause_lock = Some(true);
    assert_eq!(
        set(&mut escrow, 0, 10_000, 0),
        refused(Error::EmergencyPauseInProgress)
    );
}

#[test]
fn a_net_distribution_takes_the_fees_from_the_freelancer() {
    let mut escrow = Chain::bare();
    let fees = PlatformFeeAllocation {
        client_bps: 1_000,
        freelancer_bps: 7_500,
        treasury_bps: 1_500,
        locked: false,
    };
    let net = escrow
        .call(|h| MilestoneEscrow::split_refund_net_distribution(h, 1_001, 4_000, 6_000, fees))
        .unwrap();
    assert_eq!(net.client_net_refund, 400);
    assert_eq!(net.client_fee_share, 60);
    assert_eq!(net.treasury_fee_share, 90);
    assert_eq!(net.freelancer_net_payout, 451);
    assert_eq!(escrow.last_event().topic(), "sprefnet");
    escrow.ledger.instance.paused = Some(true);
    assert_eq!(
        escrow.call(|h| {
            MilestoneEscrow::split_refund_net_distribution(h, 1_001, 4_000, 6_000, fees)
        }),
        refused(Error::Paused)
    );
}

#[test]
fn a_stream_is_split_with_or_without_consent() {
    let mut escrow = Chain::funded(&[1_000]);
    let (client, freelancer) = (escrow.client, escrow.freelancer);
    let computed = escrow
        .call(|h| MilestoneEscrow::payment_streaming_milestones(h, 1_000, 1, 3))
        .unwrap();
    assert_eq!((computed.first, computed.second), (333, 667));
    assert_eq!(escrow.last_event().topic(), "p_stream");
    let consent = |escrow: &mut Chain| {
        escrow.call(|h| MilestoneEscrow::payment_streaming_consent(h, 1_000, 1, 3))
    };
    assert_eq!(consent(&mut escrow), Ok(computed));
    escrow.signers = Some(vec![client]);
    assert_eq!(consent(&mut escrow), Err(Refusal::Host));
    escrow.signers = Some(vec![client, freelancer]);
    assert_eq!(consent(&mut escrow), Ok(computed));
    escrow.ledger.instance.payment_streaming_execution_lock = Some(true);
    assert_eq!(consent(&mut escrow), refused(Error::PaymentStreamingInProgress));
    assert_eq!(
        escrow.call(|h| MilestoneEscrow::mark_delivered(h, freelancer, 0)),
        refused(Error::PaymentStreamingInProgress)
    );
    escrow.ledger.instance.payment_streaming_execution_lock = None;
    let stream = |escrow: &mut Chain, total: i128, n: i128, d: i128| {
        escrow
            .call(|h| MilestoneEscrow::payment_streaming_consent(h, total, n, d))
            .map(|split| split.first)
    };
    assert_eq!(stream(&mut escrow, 0, 1, 2), refused(Error::InvalidAmount));
    assert_eq!(stream(&mut escrow, 1, 1, 0), refused(Error::InvalidRatio));
    assert_eq!(stream(&mut escrow, 1, 3, 2), refused(Error::InvalidRatio));
    assert_eq!(stream(&mut escrow, i128::MAX, 2, 2), refused(Error::InvalidAmount));
}

#[test]
fn an_emergency_refund_is_settled_while_frozen() {
    let mut escrow = Chain::funded(&[1_000]);
    let (client, freelancer, admin) = (escrow.client, escrow.freelancer, escrow.admin);
    let claim = |escrow: &mut Chain, total: i128, c: u32, f: u32| {
        escrow.call(|h| MilestoneEscrow::emergency_pause_claim_refund(h, admin, total, c, f))
    };
    assert_eq!(claim(&mut escrow, 333, 5_000, 5_000), refused(Error::NotPaused));
    escrow.call(|h| MilestoneEscrow::emergency_pause(h, client, freelancer)).unwrap();
    assert_eq!(
        escrow.call(|h| MilestoneEscrow::emergency_pause(h, client, freelancer)),
        refused(Error::AlreadyPaused)
    );
    escrow.now = 99;
    let preview = escrow
        .call(|h| MilestoneEscrow::emergency_pause_split_refund(h, 333, 5_000, 5_000))
        .unwrap();
    assert_eq!((preview.client_refund, preview.freelancer_payout), (167, 166));
    assert_eq!(claim(&mut escrow, 333, 5_000, 5_000), Ok(preview));
    let Event::EmergencyPauseClaimRefund(who, event) = escrow.last_event() else {
        panic!("another event")
    };
    assert_eq!(escrow.last_event().topic(), "emergency_pause_claim_refund");
    assert_eq!(who, admin);
    assert_eq!(event.claimant, client);
    assert_eq!((event.remaining_balance, event.timestamp), (667, 99));
    assert_eq!(claim(&mut escrow, 0, 5_000, 5_000), refused(Error::InvalidAmount));
    assert_eq!(claim(&mut escrow, 1, 5_000, 5_001), refused(Error::InvalidRatio));
    assert_eq!(
        claim(&mut escrow, i128::MAX, 5_000, 5_000),
        refused(Error::ArithmeticOverflow)
    );
    assert_eq!(
        claim(&mut escrow, 1_001, 5_000, 5_000),
        refused(Error::InsufficientBalance)
    );
    let (contract, elsewhere) = (escrow.contract, escrow.generate());
    assert!(escrow.transfer(contract, elsewhere, 1_000));
    assert_eq!(claim(&mut escrow, 1, 5_000, 5_000), refused(Error::EmptyBalance));
    escrow.call(|h| MilestoneEscrow::emergency_unpause(h, admin)).unwrap();
    assert_eq!(
        escrow.call(|h| MilestoneEscrow::emergency_unpause(h, admin)),
        refused(Error::NotPaused)
    );
}

#[test]
fn interest_is_simple_and_rounded_down() {
    let mut escrow = Chain::bare();
    let interest = |escrow: &mut Chain, p: i128, r: i128, t: i128| {
        escrow.call(|h| MilestoneEscrow::escrow_interest_yield(h, p, r, t))
    };
    assert_eq!(interest(&mut escrow, 1_000_000, 500, 31_536_000), Ok(50_000));
    assert_eq!(interest(&mut escrow, 1_000_000, 500, 86_400), Ok(136));
    assert_eq!(escrow.last_event().topic(), "intyield");
    assert_eq!(interest(&mut escrow, 0, 500, 1), refused(Error::InvalidAmount));
    assert_eq!(interest(&mut escrow, 1, 0, 1), refused(Error::InvalidAmount));
    assert_eq!(interest(&mut escrow, 1, 10_001, 1), refused(Error::InvalidRatio));
    assert_eq!(interest(&mut escrow, 1, 1, 0), refused(Error::InvalidAmount));
    assert_eq!(interest(&mut escrow, i128::MAX, 2, 1), refused(Error::InvalidAmount));
}

#[test]
fn frozen_yield_shares_stay() {
    let mut escrow = Chain::initialized(&[100]);
    let admin = escrow.admin;
    assert_eq!(
        escrow.call(|h| MilestoneEscrow::unlock_escrow_interest_yield(h, admin)),
        refused(Error::NotInitialized)
    );
    escrow
        .call(|h| MilestoneEscrow::set_escrow_interest_yield(h, admin, 2_500, 7_500))
        .unwrap();
    assert_eq!(
        escrow.call(|h| MilestoneEscrow::unlock_escrow_interest_yield(h, admin)),
        refused(Error::InvalidStatus)
    );
    let before = escrow.ledger.clone();
    escrow.call(|h| MilestoneEscrow::lock_escrow_interest_yield(h, admin)).unwrap();
    assert_eq!(
        escrow.call(|h| MilestoneEscrow::interest_yield_split_refund(h, 9, 2_500, 7_500)),
        refused(Error::EscrowLocked)
    );
    escrow.call(|h| MilestoneEscrow::unlock_escrow_interest_yield(h, admin)).unwrap();
    assert_eq!(escrow.ledger, before);
    let split = escrow
        .call(|h| MilestoneEscrow::interest_yield_split_refund(h, 9, 2_500, 7_500))
        .unwrap();
    assert_eq!((split.client_refund, split.freelancer_payout), (2, 7));
    assert_eq!(escrow.last_event().topic(), "iyspltref");
}

#[test]
fn approvals_are_counted_once() {
    let mut escrow = Chain::funded(&[100]);
    let admin = escrow.admin;
    let (s1, s2, stranger) = (escrow.generate(), escrow.generate(), escrow.generate());
    assert_eq!(
        escrow.call(|h| MilestoneEscrow::multisig_approve(h, s1, 4)),
        refused(Error::NotInitialized)
    );
    escrow
        .call(|h| MilestoneEscrow::multisig_approval_init(h, admin, vec![s1, s2], 2))
        .unwrap();
    assert_eq!(
        escrow.call(|h| MilestoneEscrow::multisig_approve(h, stranger, 4)),
        refused(Error::Unauthorized)
    );
    let first = escrow.call(|h| MilestoneEscrow::multisig_approve(h, s2, 4)).unwrap();
    assert_eq!((first.approved, first.approvals, first.bitmap), (false, 1, 2));
    assert_eq!(escrow.call(|h| MilestoneEscrow::multisig_approve(h, s2, 4)), Ok(first));
    let second = escrow.call(|h| MilestoneEscrow::multisig_approve(h, s1, 4)).unwrap();
    assert_eq!((second.approved, second.approvals, second.bitmap), (true, 2, 3));
    assert_eq!(
        escrow.read(|h| MilestoneEscrow::is_multisig_approved(h, 4)),
        Ok(second)
    );
    let other = escrow.read(|h| MilestoneEscrow::is_multisig_approved(h, 5)).unwrap();
    assert_eq!((other.approved, other.approvals), (false, 0));
    let (contract, elsewhere) = (escrow.contract, escrow.generate());
    assert!(escrow.transfer(contract, elsewhere, 100));
    assert_eq!(
        escrow.call(|h| MilestoneEscrow::multisig_approve(h, s1, 4)),
        refused(Error::MultiSigEmptyBalance)
    );
}

#[test]
fn a_locked_multisig_is_resolved_by_the_admin() {
    let mut escrow = Chain::funded(&[100]);
    let (admin, freelancer) = (escrow.admin, escrow.freelancer);
    assert_eq!(
        escrow.call(|h| MilestoneEscrow::multisig_split_refund(h, admin, 9, 5_000, 5_000)),
        refused(Error::InvalidStatus)
    );
    escrow.call(|h| MilestoneEscrow::multisig_lock(h, admin)).unwrap();
    assert_eq!(
        escrow.call(|h| MilestoneEscrow::multisig_lock(h, admin)),
        refused(Error::InvalidStatus)
    );
    let split = escrow
        .call(|h| MilestoneEscrow::multisig_split_refund(h, admin, 9, 5_000, 5_000))
        .unwrap();
    assert_eq!((split.client_refund, split.freelancer_payout), (5, 4));
    assert_eq!(
        escrow.call(|h| MilestoneEscrow::multisig_admin_override_release(h, admin, 1)),
        refused(Error::InvalidMilestone)
    );
    escrow
        .call(|h| MilestoneEscrow::multisig_admin_override_release(h, admin, 0))
        .unwrap();
    assert_eq!(escrow.balance(freelancer), 100);
    assert_eq!(escrow.milestone(0).status, MilestoneStatus::Released);
    assert!(!MilestoneEscrow::is_multisig_locked(&escrow.host()));
    assert_eq!(escrow.ledger.instance.multisig_locked, Some(false));
}

#[test]
fn the_admin_refunds_unless_paused() {
    let mut escrow = Chain::funded(&[100]);
    let (admin, client) = (escrow.admin, escrow.client);
    escrow.call(|h| MilestoneEscrow::admin_accrue_yield(h, admin, 0, 5)).unwrap();
    escrow.call(|h| MilestoneEscrow::admin_pause_escrow(h, admin)).unwrap();
    assert_eq!(
        escrow.call(|h| MilestoneEscrow::admin_override_refund(h, admin, 0)),
        refused(Error::Paused)
    );
    escrow.call(|h| MilestoneEscrow::admin_resume_escrow(h, admin)).unwrap();
    escrow.call(|h| MilestoneEscrow::admin_override_refund(h, admin, 0)).unwrap();
    assert_eq!(escrow.balance(client), 100);
    assert_eq!(escrow.milestone(0).status, MilestoneStatus::Refunded);
    assert_eq!(escrow.ledger.persistent.yield_accrued, Some(0));
    assert_eq!(
        escrow.call(|h| MilestoneEscrow::admin_override_refund(h, admin, 0)),
        refused(Error::InvalidStatus)
    );
}

#[test]
fn a_withholding_is_recorded_and_settled() {
    let withheld = || {
        let mut escrow = Chain::funded(&[1_001]);
        let record = escrow
            .call(|h| MilestoneEscrow::tax_withholding_deductions(h, 0, 1_500))
            .unwrap();
        assert_eq!(
            record,
            TaxWithholdingRecord {
                gross_amount: 1_001,
                tax_amount: 150,
                net_amount: 851,
                tax_rate_bps: 1_500,
            }
        );
        assert_eq!(escrow.ledger.persistent.tax_withholding.get(0), Some(record));
        escrow
    };
    let mut escrow = withheld();
    let (admin, client, freelancer) = (escrow.admin, escrow.client, escrow.freelancer);
    escrow.call(|h| MilestoneEscrow::admin_override_tax_release(h, admin, 0)).unwrap();
    assert_eq!(escrow.balance(freelancer), 851);
    assert_eq!(escrow.milestone(0).status, MilestoneStatus::Released);
    assert_eq!(escrow.ledger.persistent.tax_withholding.get(0), None);
    assert_eq!(
        escrow.call(|h| MilestoneEscrow::admin_override_tax_release(h, admin, 0)),
        refused(Error::InvalidStatus)
    );

    let mut escrow = withheld();
    escrow.call(|h| MilestoneEscrow::admin_override_tax_refund(h, admin, 0)).unwrap();
    assert_eq!(escrow.balance(client), 1_001);
    assert_eq!(escrow.milestone(0).status, MilestoneStatus::Refunded);

    let mut escrow = withheld();
    assert_eq!(
        escrow.call(|h| {
            MilestoneEscrow::admin_override_tax_split_refund(h, admin, 0, 2_500, 2_500)
        }),
        refused(Error::InvalidRatio)
    );
    escrow
        .call(|h| MilestoneEscrow::admin_override_tax_split_refund(h, admin, 0, 2_500, 7_500))
        .unwrap();
    // 250 of the gross amount and 38 of the tax are the client's.
    assert_eq!(escrow.balance(client), 212);
    assert_eq!(escrow.balance(freelancer), 639);
    assert_eq!(escrow.milestone(0).released_amount, 851);
}

#[test]
fn a_withholding_is_refused_where_it_cannot_be() {
    let mut escrow = Chain::funded(&[1_000]);
    let (client, freelancer) = (escrow.client, escrow.freelancer);
    let withhold = |escrow: &mut Chain, index: u32, bps: u32| {
        escrow
            .call(|h| MilestoneEscrow::tax_withholding_deductions(h, index, bps))
            .map(|record| record.tax_amount)
    };
    assert_eq!(withhold(&mut escrow, 1, 1), refused(Error::InvalidMilestone));
    assert_eq!(withhold(&mut escrow, 0, 10_001), refused(Error::InvalidRatio));
    assert_eq!(withhold(&mut escrow, 0, 0), Ok(0));
    escrow.signers = Some(vec![freelancer]);
    assert_eq!(withhold(&mut escrow, 0, 1), Err(Refusal::Host));
    escrow.signers = None;
    escrow.ledger.instance.tax_withholding_execution_lock = Some(true);
    assert_eq!(withhold(&mut escrow, 0, 1), refused(Error::TaxWithholdingInProgress));
    escrow.ledger.instance.tax_withholding_execution_lock = None;
    escrow.call(|h| MilestoneEscrow::raise_dispute(h, client, 0)).unwrap();
    assert_eq!(withhold(&mut escrow, 0, 1), refused(Error::InvalidStatus));
    let mut unfunded = Chain::initialized(&[1_000]);
    assert_eq!(withhold(&mut unfunded, 0, 1), refused(Error::NotFunded));
}

#[test]
fn a_withheld_amount_is_split_after_tax() {
    let mut escrow = Chain::bare();
    let split = |escrow: &mut Chain, gross: i128, tax: i128, c: u32, f: u32| {
        escrow
            .call(|h| MilestoneEscrow::tax_withholding_split_refund(h, gross, tax, c, f))
            .map(|a| (a.client_refund, a.freelancer_payout))
    };
    assert_eq!(split(&mut escrow, 1_001, 150, 2_500, 7_500), Ok((212, 639)));
    assert_eq!(escrow.last_event().topic(), "twspltref");
    assert_eq!(split(&mut escrow, 3, 3, 5_000, 5_000), Ok((0, 0)));
    assert_eq!(split(&mut escrow, 0, 0, 5_000, 5_000), refused(Error::InvalidAmount));
    assert_eq!(split(&mut escrow, 3, 4, 5_000, 5_000), refused(Error::InvalidAmount));
    assert_eq!(split(&mut escrow, 3, -1, 5_000, 5_000), refused(Error::InvalidAmount));
    assert_eq!(split(&mut escrow, 3, 1, 5_000, 4_000), refused(Error::InvalidRatio));
}

#[test]
fn cancelling_settles_a_milestone_that_holds_nothing() {
    for release in [true, false] {
        let mut escrow = Chain::funded(&[100, 50]);
        let admin = escrow.admin;
        let paid = Milestone { released_amount: 50, ..escrow.milestone(1) };
        escrow.ledger.persistent.milestones.set(1, paid);
        escrow.ledger.instance.cancel_lock = Some(true);
        let status = if release {
            escrow
                .call(|h| MilestoneEscrow::admin_override_cancel_release(h, admin))
                .unwrap();
            MilestoneStatus::Released
        } else {
            escrow
                .call(|h| MilestoneEscrow::admin_override_cancel_refund(h, admin))
                .unwrap();
            MilestoneStatus::Refunded
        };
        assert_eq!(escrow.milestone(0).status, status);
        assert_eq!(escrow.milestone(1), Milestone { status, ..paid });
        assert_eq!(escrow.balance(escrow.contract), 50);
    }
}

#[test]
fn adding_and_removing_a_token_restores_the_whitelist() {
    let mut escrow = Chain::initialized(&[100]);
    let (admin, other) = (escrow.admin, escrow.generate());
    let before = escrow.ledger.clone();
    escrow.call(|h| MilestoneEscrow::add_whitelisted_token(h, admin, other)).unwrap();
    assert_ne!(escrow.ledger, before);
    escrow.call(|h| MilestoneEscrow::remove_whitelisted_token(h, admin, other)).unwrap();
    assert_eq!(escrow.ledger, before);
}

#[test]
fn only_the_ratios_of_weights_matter() {
    let small = LargestRemainder::allocate(101, &vec![1, 4, 2], 7);
    assert_eq!(small, Some(vec![14, 58, 29]));
    assert_eq!(LargestRemainder::allocate(101, &vec![3, 12, 6], 21), small);
}

#[test]
fn a_larger_total_makes_no_part_smaller() {
    let parts = |total: i128| {
        let split = MilestoneEscrow::split_round_nearest(total, 1, 3).unwrap();
        (split.first, split.second)
    };
    assert_eq!([parts(4), parts(5), parts(6)], [(1, 3), (2, 3), (2, 4)]);
}
