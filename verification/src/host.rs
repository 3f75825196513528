//! What the contract sees of its host during one call: the stored entries it
//! reads and writes, and what it asks the host to do.

use vstd::prelude::*;

use crate::events::Event;
use crate::table::{Counters, Table};
use crate::types::{
    Address, EscrowInterestYieldState, JobMeta, Milestone, PendingAdminTransfer,
    PlatformFeeAllocation, TaxWithholdingRecord, YieldConfig,
};

verus! {

/// Entries that live as long as the contract and are loaded with it.
#[derive(Clone, Debug, PartialEq)]
pub struct InstanceStorage {
    pub job: Option<JobMeta>,
    pub admin: Option<Address>,
    pub version: Option<u32>,
    pub whitelisted_tokens: Option<Vec<Address>>,
    /// The emergency freeze.
    pub emergency_paused: Option<bool>,
    pub platform_fee_allocation: Option<PlatformFeeAllocation>,
    pub interest_yield_state: Option<EscrowInterestYieldState>,
    /// The pause that the admin sets and lifts alone.
    pub paused: Option<bool>,
    pub multisig_locked: Option<bool>,
    /// Set once both parties agreed to cancel.
    pub cancel_lock: Option<bool>,
    /// Who agreed to cancel so far: bit 0 the client, bit 1 the freelancer.
    pub cancel_approval: Option<u32>,
    pub multisig_signers: Option<Vec<Address>>,
    pub multisig_threshold: Option<u32>,
    pub tax_withholding_execution_lock: Option<bool>,
    pub platform_fee_allocation_lock: Option<bool>,
    pub emergency_pause_lock: Option<bool>,
    pub time_ext_execution_lock: Option<bool>,
    pub payment_streaming_execution_lock: Option<bool>,
}

/// Entries that are stored one by one and do not expire.
#[derive(Clone, Debug, PartialEq)]
pub struct PersistentStorage {
    /// A second copy of the admin.
    pub admin: Option<Address>,
    pub milestones: Table<Milestone>,
    pub reputation: Counters,
    pub yield_config: Option<YieldConfig>,
    pub yield_accrued: Option<i128>,
    pub time_ext: Table<u32>,
    pub tax_withholding: Table<TaxWithholdingRecord>,
    pub pending_admin_transfer: Option<PendingAdminTransfer>,
}

/// Entries that the host may drop once they expire.
#[derive(Clone, Debug, PartialEq)]
pub struct TemporaryStorage {
    pub delivered_at: Table<u64>,
    pub milestone_released: Table<bool>,
    pub dispute_lock: Table<bool>,
    pub dispute_flag: Table<bool>,
    pub time_ext: Table<u32>,
    pub arbitration_split_bps: Table<u32>,
    pub multisig_approval: Table<u32>,
}

/// All that is stored.
#[derive(Clone, Debug, PartialEq)]
pub struct Ledger {
    pub instance: InstanceStorage,
    pub persistent: PersistentStorage,
    pub temporary: TemporaryStorage,
}

/// What the host is asked to do.
#[derive(Clone, Copy, Debug, PartialEq, Eq)]
pub enum Action {
    /// Move tokens.
    Transfer { token: Address, from: Address, to: Address, amount: i128 },
    /// Replace the code of the contract.
    UpdateWasm { hash: [u8; 32] },
}

/// One call as the contract sees it.
///
/// The host checks a signature for every address in `auths`, and undoes the
/// whole call where one is missing. Then it does what is in `actions` and
/// publishes what is in `events`, in order.
#[derive(Clone, Debug, PartialEq)]
pub struct Host {
    /// The address of the contract itself.
    pub contract: Address,
    /// The time of the ledger, in seconds.
    pub timestamp: u64,
    /// What the contract holds of the settlement token.
    pub balance: i128,
    pub ledger: Ledger,
    pub auths: Vec<Address>,
    pub actions: Vec<Action>,
    pub events: Vec<Event>,
}

/// [`InstanceStorage`], with its lists as sequences.
#[verifier::ext_equal]
pub struct InstanceView {
    pub job: Option<JobMeta>,
    pub admin: Option<Address>,
    pub version: Option<u32>,
    pub whitelisted_tokens: Option<Seq<Address>>,
    pub emergency_paused: Option<bool>,
    pub platform_fee_allocation: Option<PlatformFeeAllocation>,
    pub interest_yield_state: Option<EscrowInterestYieldState>,
    pub paused: Option<bool>,
    pub multisig_locked: Option<bool>,
    pub cancel_lock: Option<bool>,
    pub cancel_approval: Option<u32>,
    pub multisig_signers: Option<Seq<Address>>,
    pub multisig_threshold: Option<u32>,
    pub tax_withholding_execution_lock: Option<bool>,
    pub platform_fee_allocation_lock: Option<bool>,
    pub emergency_pause_lock: Option<bool>,
    pub time_ext_execution_lock: Option<bool>,
    pub payment_streaming_execution_lock: Option<bool>,
}

/// [`PersistentStorage`], with its tables as maps.
#[verifier::ext_equal]
pub struct PersistentView {
    pub admin: Option<Address>,
    pub milestones: Map<u32, Milestone>,
    pub reputation: Map<Address, u32>,
    pub yield_config: Option<YieldConfig>,
    pub yield_accrued: Option<i128>,
    pub time_ext: Map<u32, u32>,
    pub tax_withholding: Map<u32, TaxWithholdingRecord>,
    pub pending_admin_transfer: Option<PendingAdminTransfer>,
}

/// [`TemporaryStorage`], with its tables as maps.
#[verifier::ext_equal]
pub struct TemporaryView {
    pub delivered_at: Map<u32, u64>,
    pub milestone_released: Map<u32, bool>,
    pub dispute_lock: Map<u32, bool>,
    pub dispute_flag: Map<u32, bool>,
    pub time_ext: Map<u32, u32>,
    pub arbitration_split_bps: Map<u32, u32>,
    pub multisig_approval: Map<u32, u32>,
}

/// All that is stored, as contracts speak of it.
#[verifier::ext_equal]
pub struct LedgerView {
    pub instance: InstanceView,
    pub persistent: PersistentView,
    pub temporary: TemporaryView,
}

/// What a call is given besides its arguments and the ledger.
pub struct Context {
    pub contract: Address,
    pub timestamp: u64,
    pub balance: i128,
}

/// One call, as contracts speak of it.
#[verifier::ext_equal]
pub struct HostView {
    pub context: Context,
    pub ledger: LedgerView,
    pub auths: Seq<Address>,
    pub actions: Seq<Action>,
    pub events: Seq<Event>,
}

pub open spec fn list_view(list: Option<Vec<Address>>) -> Option<Seq<Address>> {
    match list {
        Some(v) => Some(v@),
        None => None,
    }
}

impl View for InstanceStorage {
    type V = InstanceView;

    open spec fn view(&self) -> InstanceView {
        InstanceView {
            job: self.job,
            admin: self.admin,
            version: self.version,
            whitelisted_tokens: list_view(self.whitelisted_tokens),
            emergency_paused: self.emergency_paused,
            platform_fee_allocation: self.platform_fee_allocation,
            interest_yield_state: self.interest_yield_state,
            paused: self.paused,
            multisig_locked: self.multisig_locked,
            cancel_lock: self.cancel_lock,
            cancel_approval: self.cancel_approval,
            multisig_signers: list_view(self.multisig_signers),
            multisig_threshold: self.multisig_threshold,
            tax_withholding_execution_lock: self.tax_withholding_execution_lock,
            platform_fee_allocation_lock: self.platform_fee_allocation_lock,
            emergency_pause_lock: self.emergency_pause_lock,
            time_ext_execution_lock: self.time_ext_execution_lock,
            payment_streaming_execution_lock: self.payment_streaming_execution_lock,
        }
    }
}

impl View for PersistentStorage {
    type V = PersistentView;

    open spec fn view(&self) -> PersistentView {
        PersistentView {
            admin: self.admin,
            milestones: self.milestones@,
            reputation: self.reputation@,
            yield_config: self.yield_config,
            yield_accrued: self.yield_accrued,
            time_ext: self.time_ext@,
            tax_withholding: self.tax_withholding@,
            pending_admin_transfer: self.pending_admin_transfer,
        }
    }
}

impl View for TemporaryStorage {
    type V = TemporaryView;

    open spec fn view(&self) -> TemporaryView {
        TemporaryView {
            delivered_at: self.delivered_at@,
            milestone_released: self.milestone_released@,
            dispute_lock: self.dispute_lock@,
            dispute_flag: self.dispute_flag@,
            time_ext: self.time_ext@,
            arbitration_split_bps: self.arbitration_split_bps@,
            multisig_approval: self.multisig_approval@,
        }
    }
}

impl View for Ledger {
    type V = LedgerView;

    open spec fn view(&self) -> LedgerView {
        LedgerView {
            instance: self.instance@,
            persistent: self.persistent@,
            temporary: self.temporary@,
        }
    }
}

impl View for Host {
    type V = HostView;

    open spec fn view(&self) -> HostView {
        HostView {
            context: Context {
                contract: self.contract,
                timestamp: self.timestamp,
                balance: self.balance,
            },
            ledger: self.ledger@,
            auths: self.auths@,
            actions: self.actions@,
            events: self.events@,
        }
    }
}

/// A flag that counts as clear where it was never written.
pub open spec fn is_set(flag: Option<bool>) -> bool {
    flag == Some(true)
}

/// Whether a flag is set; one that was never written is clear.
pub fn flag_set(flag: Option<bool>) -> (r: bool)
    ensures
        r == is_set(flag),
{
    match flag {
        Some(b) => b,
        None => false,
    }
}

/// The ledger before anything is stored.
pub open spec fn empty_ledger() -> LedgerView {
    LedgerView {
        instance: InstanceView {
            job: None,
            admin: None,
            version: None,
            whitelisted_tokens: None,
            emergency_paused: None,
            platform_fee_allocation: None,
            interest_yield_state: None,
            paused: None,
            multisig_locked: None,
            cancel_lock: None,
            cancel_approval: None,
            multisig_signers: None,
            multisig_threshold: None,
            tax_withholding_execution_lock: None,
            platform_fee_allocation_lock: None,
            emergency_pause_lock: None,
            time_ext_execution_lock: None,
            payment_streaming_execution_lock: None,
        },
        persistent: PersistentView {
            admin: None,
            milestones: Map::empty(),
            reputation: Map::empty(),
            yield_config: None,
            yield_accrued: None,
            time_ext: Map::empty(),
            tax_withholding: Map::empty(),
            pending_admin_transfer: None,
        },
        temporary: TemporaryView {
            delivered_at: Map::empty(),
            milestone_released: Map::empty(),
            dispute_lock: Map::empty(),
            dispute_flag: Map::empty(),
            time_ext: Map::empty(),
            arbitration_split_bps: Map::empty(),
            multisig_approval: Map::empty(),
        },
    }
}

impl Ledger {
    /// The ledger before anything is stored.
    pub fn new() -> (l: Self)
        ensures
            l@ == empty_ledger(),
    {
        Ledger {
            instance: InstanceStorage {
                job: None,
                admin: None,
                version: None,
                whitelisted_tokens: None,
                emergency_paused: None,
                platform_fee_allocation: None,
                interest_yield_state: None,
                paused: None,
                multisig_locked: None,
                cancel_lock: None,
                cancel_approval: None,
                multisig_signers: None,
                multisig_threshold: None,
                tax_withholding_execution_lock: None,
                platform_fee_allocation_lock: None,
                emergency_pause_lock: None,
                time_ext_execution_lock: None,
                payment_streaming_execution_lock: None,
            },
            persistent: PersistentStorage {
                admin: None,
                milestones: Table::new(),
                reputation: Counters::new(),
                yield_config: None,
                yield_accrued: None,
                time_ext: Table::new(),
                tax_withholding: Table::new(),
                pending_admin_transfer: None,
            },
            temporary: TemporaryStorage {
                delivered_at: Table::new(),
                milestone_released: Table::new(),
                dispute_lock: Table::new(),
                dispute_flag: Table::new(),
                time_ext: Table::new(),
                arbitration_split_bps: Table::new(),
                multisig_approval: Table::new(),
            },
        }
    }
}

impl Host {
    /// A call on a ledger, of which nothing has run yet.
    pub fn new(contract: Address, timestamp: u64, balance: i128, ledger: Ledger) -> (h: Self)
        ensures
            h@ == (HostView {
                context: Context { contract, timestamp, balance },
                ledger: ledger@,
                auths: Seq::empty(),
                actions: Seq::empty(),
                events: Seq::empty(),
            }),
    {
        Host {
            contract,
            timestamp,
            balance,
            ledger,
            auths: Vec::new(),
            actions: Vec::new(),
            events: Vec::new(),
        }
    }

    /// Demands the signature of an address.
    pub fn require_auth(&mut self, address: Address)
        ensures
            final(self)@ == (HostView { auths: old(self)@.auths.push(address), ..old(self)@ }),
    {
        self.auths.push(address);
    }

    /// Asks for a transfer of tokens.
    pub fn transfer(&mut self, token: Address, from: Address, to: Address, amount: i128)
        ensures
            final(self)@ == (HostView {
                actions: old(self)@.actions.push(Action::Transfer { token, from, to, amount }),
                ..old(self)@
            }),
    {
        self.actions.push(Action::Transfer { token, from, to, amount });
    }

    /// Publishes an event.
    pub fn publish(&mut self, event: Event)
        ensures
            final(self)@ == (HostView { events: old(self)@.events.push(event), ..old(self)@ }),
    {
        self.events.push(event);
    }
}

} // verus!
