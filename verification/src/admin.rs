//! The admin, the token whitelist and the code of the contract.

use vstd::prelude::*;

use crate::arith::MilestoneEscrow;
use crate::events::{
    AdminTransferCancelledEvent, AdminTransferExecutedEvent, AdminTransferProposedEvent,
    ContractUpgradedEvent, Event, TokenRemovedEvent, TokenWhitelistedEvent, TransferAdminEvent,
};
use crate::host::{Action, Context, Host, InstanceView, LedgerView, PersistentView};
use crate::outcome::Outcome;
use crate::types::{Address, Error, PendingAdminTransfer, MAX_WHITELIST_SIZE};

verus! {

impl LedgerView {
    /// The ledger once both copies of the admin are replaced.
    pub open spec fn with_admin(self, admin: Address) -> LedgerView {
        LedgerView {
            instance: InstanceView { admin: Some(admin), ..self.instance },
            persistent: PersistentView { admin: Some(admin), ..self.persistent },
            ..self
        }
    }

    pub open spec fn with_pending(self, pending: Option<PendingAdminTransfer>) -> LedgerView {
        self.with_persistent(
            PersistentView { pending_admin_transfer: pending, ..self.persistent },
        )
    }

    pub open spec fn with_whitelist(self, tokens: Seq<Address>) -> LedgerView {
        self.with_instance(InstanceView { whitelisted_tokens: Some(tokens), ..self.instance })
    }
}

impl MilestoneEscrow {
    pub open spec fn transfer_admin_outcome(
        l: LedgerView,
        current_admin: Address,
        new_admin: Address,
    ) -> Outcome<()> {
        let signed = seq![current_admin];
        if let Some(error) = LedgerView::admin_error(l.persistent.admin, current_admin) {
            Outcome::refuse(signed, error)
        } else if new_admin.is_zero() {
            Outcome::refuse(signed, Error::InvalidAddress)
        } else if l.persistent.pending_admin_transfer is Some {
            Outcome::refuse(signed, Error::AdminTransferPending)
        } else {
            Outcome::accept(
                signed,
                (),
                l.with_admin(new_admin),
                Seq::empty(),
                seq![
                    Event::AdminTransferred(
                        TransferAdminEvent { old_admin: current_admin, new_admin },
                    ),
                ],
            )
        }
    }

    /// Hands the role of admin over.
    pub fn transfer_admin(host: &mut Host, current_admin: Address, new_admin: Address) -> (r: Result<
        (),
        Error,
    >)
        ensures
            old(host)@.comes_to(
                final(host)@,
                r,
                Self::transfer_admin_outcome(old(host)@.ledger, current_admin, new_admin),
            ),
    {
        Self::require_admin(host, current_admin)?;
        if new_admin.is_zero() {
            return Err(Error::InvalidAddress);
        }
        if host.ledger.persistent.pending_admin_transfer.is_some() {
            return Err(Error::AdminTransferPending);
        }
        host.ledger.persistent.admin = Some(new_admin);
        host.ledger.instance.admin = Some(new_admin);
        host.publish(
            Event::AdminTransferred(TransferAdminEvent { old_admin: current_admin, new_admin }),
        );
        Ok(())
    }

    pub open spec fn add_whitelisted_token_outcome(
        l: LedgerView,
        c: Context,
        admin: Address,
        token: Address,
    ) -> Outcome<()> {
        let signed = seq![admin];
        if let Some(error) = LedgerView::admin_error(l.persistent.admin, admin) {
            Outcome::refuse(signed, error)
        } else if c.unfit(token) {
            Outcome::refuse(signed, Error::InvalidAddress)
        } else {
            match (l.instance.job, l.instance.whitelisted_tokens) {
                (Some(meta), tokens) if meta.funded => Outcome::refuse(
                    signed,
                    Error::AlreadyFunded,
                ),
                (Some(meta), Some(tokens)) => if tokens.contains(token) {
                    Outcome::refuse(signed, Error::TokenAlreadyWhitelisted)
                } else if tokens.len() >= MAX_WHITELIST_SIZE {
                    Outcome::refuse(signed, Error::InvalidAmount)
                } else {
                    Outcome::accept(
                        signed,
                        (),
                        l.with_whitelist(tokens.push(token)),
                        Seq::empty(),
                        seq![Event::TokenWhitelisted(TokenWhitelistedEvent { admin, token })],
                    )
                },
                _ => Outcome::refuse(signed, Error::NotInitialized),
            }
        }
    }

    /// Puts a token on the whitelist, while the job is not funded.
    pub fn add_whitelisted_token(host: &mut Host, admin: Address, token: Address) -> (r: Result<
        (),
        Error,
    >)
        ensures
            old(host)@.comes_to(
                final(host)@,
                r,
                Self::add_whitelisted_token_outcome(
                    old(host)@.ledger,
                    old(host)@.context,
                    admin,
                    token,
                ),
            ),
    {
        Self::require_admin(host, admin)?;
        if Self::is_unfit(host, token) {
            return Err(Error::InvalidAddress);
        }
        let meta = Self::load_job_meta(host)?;
        if meta.funded {
            return Err(Error::AlreadyFunded);
        }
        let mut tokens = Self::get_whitelisted_tokens(host)?;
        if Self::contains_address(&tokens, token) {
            return Err(Error::TokenAlreadyWhitelisted);
        }
        if tokens.len() >= MAX_WHITELIST_SIZE as usize {
            return Err(Error::InvalidAmount);
        }
        tokens.push(token);
        host.ledger.instance.whitelisted_tokens = Some(tokens);
        host.publish(Event::TokenWhitelisted(TokenWhitelistedEvent { admin, token }));
        Ok(())
    }

    /// A list without its item at `i`, whose place the last item takes.
    pub open spec fn swap_removed(tokens: Seq<Address>, i: int) -> Seq<Address> {
        tokens.update(i, tokens.last()).drop_last()
    }

    /// Where an address stands first in a list.
    pub open spec fn first_index(list: Seq<Address>, address: Address) -> int {
        choose|i: int|
            0 <= i < list.len() && #[trigger] list[i] == address && forall|j: int|
                0 <= j < i ==> #[trigger] list[j] != address
    }

    /// Where an address stands first in a list, if it stands there at all.
    pub(crate) fn position(list: &Vec<Address>, address: Address) -> (r: Option<usize>)
        ensures
            r is Some <==> list@.contains(address),
            r matches Some(i) ==> i < list@.len() && i == Self::first_index(list@, address)
                && list@[i as int] == address,
    {
        let mut i: usize = 0;
        while i < list.len()
            invariant
                i <= list@.len(),
                forall|j: int| 0 <= j < i ==> (#[trigger] list@[j]) != address,
            decreases list@.len() - i,
        {
            if list[i] == address {
                proof {
                    let k = Self::first_index(list@, address);
                    assert(list@[i as int] == address);
                    assert(0 <= k < list@.len() && list@[k] == address);
                    if k < i {
                        assert(list@[k] != address);
                    }
                    if i < k {
                        assert(list@[i as int] != address);
                    }
                }
                return Some(i);
            }
            i += 1;
        }
        None
    }

    pub open spec fn remove_whitelisted_token_outcome(
        l: LedgerView,
        admin: Address,
        token: Address,
    ) -> Outcome<()> {
        let signed = seq![admin];
        if let Some(error) = LedgerView::admin_error(l.persistent.admin, admin) {
            Outcome::refuse(signed, error)
        } else {
            match l.instance.job {
                None => Outcome::refuse(signed, Error::NotInitialized),
                Some(meta) => if meta.funded {
                    Outcome::refuse(signed, Error::AlreadyFunded)
                } else if token.is_zero() {
                    Outcome::refuse(signed, Error::InvalidAddress)
                } else {
                    match l.instance.whitelisted_tokens {
                        None => Outcome::refuse(signed, Error::NotInitialized),
                        Some(tokens) => if !tokens.contains(token) {
                            Outcome::refuse(signed, Error::TokenNotWhitelisted)
                        } else if tokens.len() == 1 {
                            Outcome::refuse(signed, Error::InvalidAmount)
                        } else {
                            Outcome::accept(
                                signed,
                                (),
                                l.with_whitelist(
                                    Self::swap_removed(tokens, Self::first_index(tokens, token)),
                                ),
                                Seq::empty(),
                                seq![Event::TokenRemoved(TokenRemovedEvent { admin, token })],
                            )
                        },
                    }
                },
            }
        }
    }

    /// Takes a token off the whitelist, while the job is not funded. The last
    /// one stays.
    pub fn remove_whitelisted_token(host: &mut Host, admin: Address, token: Address) -> (r: Result<
        (),
        Error,
    >)
        ensures
            old(host)@.comes_to(
                final(host)@,
                r,
                Self::remove_whitelisted_token_outcome(old(host)@.ledger, admin, token),
            ),
    {
        Self::require_admin(host, admin)?;
        let meta = Self::load_job_meta(host)?;
        if meta.funded {
            return Err(Error::AlreadyFunded);
        }
        if token.is_zero() {
            return Err(Error::InvalidAddress);
        }
        let mut tokens = Self::get_whitelisted_tokens(host)?;
        let ghost before = tokens@;
        match Self::position(&tokens, token) {
            None => Err(Error::TokenNotWhitelisted),
            Some(index) => {
                if tokens.len() == 1 {
                    return Err(Error::InvalidAmount);
                }
                let last: usize = tokens.len() - 1;
                let last_token = tokens[last];
                tokens.set(index, last_token);
                tokens.pop();
                assert(tokens@ =~= Self::swap_removed(before, index as int));
                host.ledger.instance.whitelisted_tokens = Some(tokens);
                host.publish(Event::TokenRemoved(TokenRemovedEvent { admin, token }));
                Ok(())
            },
        }
    }

    /// The whitelist.
    pub fn get_whitelisted_tokens(host: &Host) -> (r: Result<Vec<Address>, Error>)
        ensures
            match host@.ledger.instance.whitelisted_tokens {
                None => r == Err::<Vec<Address>, Error>(Error::NotInitialized),
                Some(tokens) => r matches Ok(list) && list@ == tokens,
            },
    {
        match &host.ledger.instance.whitelisted_tokens {
            Some(tokens) => Ok(Self::copy_list(tokens)),
            None => Err(Error::NotInitialized),
        }
    }

    /// A copy of a list of addresses.
    pub(crate) fn copy_list(list: &Vec<Address>) -> (copy: Vec<Address>)
        ensures
            copy@ == list@,
    {
        let mut copy: Vec<Address> = Vec::new();
        let mut i: usize = 0;
        while i < list.len()
            invariant
                i <= list@.len(),
                copy@ == list@.take(i as int),
            decreases list@.len() - i,
        {
            copy.push(list[i]);
            assert(copy@ =~= list@.take(i as int + 1));
            i += 1;
        }
        assert(list@.take(i as int) =~= list@);
        copy
    }

    pub open spec fn propose_admin_transfer_outcome(
        l: LedgerView,
        admin: Address,
        new_admin: Address,
        proposal_id: u32,
    ) -> Outcome<()> {
        let signed = seq![admin];
        if l.persistent.admin is None {
            Outcome::refuse(Seq::empty(), Error::NotInitialized)
        } else if l.persistent.admin != Some(admin) {
            Outcome::refuse(signed, Error::Unauthorized)
        } else if new_admin.is_zero() {
            Outcome::refuse(signed, Error::InvalidAddress)
        } else if l.persistent.pending_admin_transfer is Some {
            Outcome::refuse(signed, Error::AdminTransferPending)
        } else {
            Outcome::accept(
                signed,
                (),
                l.with_pending(Some(PendingAdminTransfer { new_admin, proposal_id })),
                Seq::empty(),
                seq![
                    Event::AdminTransferProposed(
                        AdminTransferProposedEvent { admin, new_admin, proposal_id },
                    ),
                ],
            )
        }
    }

    /// Proposes a successor, whom the multisig has to approve.
    pub fn propose_admin_transfer(
        host: &mut Host,
        admin: Address,
        new_admin: Address,
        proposal_id: u32,
    ) -> (r: Result<(), Error>)
        ensures
            old(host)@.comes_to(
                final(host)@,
                r,
                Self::propose_admin_transfer_outcome(
                    old(host)@.ledger,
                    admin,
                    new_admin,
                    proposal_id,
                ),
            ),
    {
        if host.ledger.persistent.admin.is_none() {
            return Err(Error::NotInitialized);
        }
        Self::require_admin(host, admin)?;
        if new_admin.is_zero() {
            return Err(Error::InvalidAddress);
        }
        if host.ledger.persistent.pending_admin_transfer.is_some() {
            return Err(Error::AdminTransferPending);
        }
        host.ledger.persistent.pending_admin_transfer = Some(
            PendingAdminTransfer { new_admin, proposal_id },
        );
        host.publish(
            Event::AdminTransferProposed(
                AdminTransferProposedEvent { admin, new_admin, proposal_id },
            ),
        );
        Ok(())
    }

    pub open spec fn execute_admin_transfer_outcome(l: LedgerView) -> Outcome<()> {
        match (l.persistent.admin, l.persistent.pending_admin_transfer) {
            (None, _) => Outcome::refuse(Seq::empty(), Error::NotInitialized),
            (Some(_), None) => Outcome::refuse(Seq::empty(), Error::NoPendingAdminTransfer),
            (Some(old_admin), Some(pending)) => match l.instance.multisig_threshold {
                None => Outcome::refuse(Seq::empty(), Error::NotInitialized),
                Some(threshold) => if Self::approvals(l, pending.proposal_id) < threshold {
                    Outcome::refuse(Seq::empty(), Error::MultiSigThresholdNotMet)
                } else {
                    Outcome::accept(
                        Seq::empty(),
                        (),
                        if old_admin == pending.new_admin {
                            l.with_pending(None)
                        } else {
                            l.with_admin(pending.new_admin).with_pending(None)
                        },
                        Seq::empty(),
                        seq![
                            Event::AdminTransferExecuted(
                                AdminTransferExecutedEvent {
                                    old_admin,
                                    new_admin: pending.new_admin,
                                    proposal_id: pending.proposal_id,
                                },
                            ),
                        ],
                    )
                },
            },
        }
    }

    /// Hands the role of admin over to a successor whom the multisig has
    /// approved. Anyone may call this.
    pub fn execute_admin_transfer(host: &mut Host) -> (r: Result<(), Error>)
        ensures
            old(host)@.comes_to(
                final(host)@,
                r,
                Self::execute_admin_transfer_outcome(old(host)@.ledger),
            ),
    {
        let old_admin = match host.ledger.persistent.admin {
            Some(admin) => admin,
            None => {
                return Err(Error::NotInitialized);
            },
        };
        let pending = match host.ledger.persistent.pending_admin_transfer {
            Some(pending) => pending,
            None => {
                return Err(Error::NoPendingAdminTransfer);
            },
        };
        let state = Self::is_multisig_approved(host, pending.proposal_id)?;
        if !state.approved {
            return Err(Error::MultiSigThresholdNotMet);
        }
        if old_admin != pending.new_admin {
            host.ledger.persistent.admin = Some(pending.new_admin);
            host.ledger.instance.admin = Some(pending.new_admin);
        }
        host.ledger.persistent.pending_admin_transfer = None;
        host.publish(
            Event::AdminTransferExecuted(
                AdminTransferExecutedEvent {
                    old_admin,
                    new_admin: pending.new_admin,
                    proposal_id: pending.proposal_id,
                },
            ),
        );
        Ok(())
    }

    pub open spec fn cancel_admin_transfer_proposal_outcome(
        l: LedgerView,
        admin: Address,
    ) -> Outcome<()> {
        let signed = seq![admin];
        if let Some(error) = LedgerView::admin_error(l.persistent.admin, admin) {
            Outcome::refuse(signed, error)
        } else {
            match l.persistent.pending_admin_transfer {
                None => Outcome::refuse(signed, Error::NoPendingAdminTransfer),
                Some(pending) => Outcome::accept(
                    signed,
                    (),
                    l.with_pending(None),
                    Seq::empty(),
                    seq![
                        Event::AdminTransferCancelled(
                            AdminTransferCancelledEvent {
                                admin,
                                proposal_id: pending.proposal_id,
                            },
                        ),
                    ],
                ),
            }
        }
    }

    /// Withdraws a proposed successor.
    pub fn cancel_admin_transfer_proposal(host: &mut Host, admin: Address) -> (r: Result<
        (),
        Error,
    >)
        ensures
            old(host)@.comes_to(
                final(host)@,
                r,
                Self::cancel_admin_transfer_proposal_outcome(old(host)@.ledger, admin),
            ),
    {
        Self::require_admin(host, admin)?;
        let pending = match host.ledger.persistent.pending_admin_transfer {
            Some(pending) => pending,
            None => {
                return Err(Error::NoPendingAdminTransfer);
            },
        };
        host.ledger.persistent.pending_admin_transfer = None;
        host.publish(
            Event::AdminTransferCancelled(
                AdminTransferCancelledEvent { admin, proposal_id: pending.proposal_id },
            ),
        );
        Ok(())
    }

    /// The proposed successor, if any.
    pub fn get_pending_admin_transfer(host: &Host) -> (r: Result<
        Option<PendingAdminTransfer>,
        Error,
    >)
        ensures
            r == (if host@.ledger.persistent.admin is Some {
                Ok(host@.ledger.persistent.pending_admin_transfer)
            } else {
                Err(Error::NotInitialized)
            }),
    {
        if host.ledger.persistent.admin.is_none() {
            return Err(Error::NotInitialized);
        }
        Ok(host.ledger.persistent.pending_admin_transfer)
    }

    /// The version of the code; code that was never upgraded has version 1.
    pub open spec fn version_of(l: LedgerView) -> u32 {
        match l.instance.version {
            Some(version) => version,
            None => 1,
        }
    }

    /// The version of the code.
    pub fn version(host: &Host) -> (r: u32)
        ensures
            r == Self::version_of(host@.ledger),
            host@.ledger.instance.version is Some ==> r == host@.ledger.instance.version->0,
            host@.ledger.instance.version is None ==> r == 1,
    {
        match host.ledger.instance.version {
            Some(version) => version,
            None => 1,
        }
    }

    /// The reputation of an address.
    pub fn get_reputation(host: &Host, address: Address) -> (r: Result<u32, Error>)
        ensures
            r == (if host@.ledger.persistent.admin is Some {
                Ok(host@.ledger.reputation(address))
            } else {
                Err(Error::NotInitialized)
            }),
            r matches Ok(points) ==> points == crate::rules::number(
                host@.ledger.persistent.reputation,
                address,
            ),
    {
        if host.ledger.persistent.admin.is_none() {
            return Err(Error::NotInitialized);
        }
        match host.ledger.persistent.reputation.get(address) {
            Some(n) => Ok(n),
            None => Ok(0),
        }
    }

    pub open spec fn upgrade_outcome(
        l: LedgerView,
        admin: Address,
        new_wasm_hash: [u8; 32],
    ) -> Outcome<()> {
        let signed = seq![admin];
        let version = Self::version_of(l) + 1;
        if let Some(error) = LedgerView::admin_error(l.persistent.admin, admin) {
            Outcome::refuse(signed, error)
        } else if let Some(error) = l.frozen_error() {
            Outcome::refuse(signed, error)
        } else if version > u32::MAX {
            Outcome::refuse(signed, Error::InvalidAmount)
        } else {
            Outcome::accept(
                signed,
                (),
                l.with_instance(InstanceView { version: Some(version as u32), ..l.instance }),
                seq![Action::UpdateWasm { hash: new_wasm_hash }],
                seq![
                    Event::ContractUpgraded(
                        ContractUpgradedEvent { admin, new_wasm_hash, version: version as u32 },
                    ),
                ],
            )
        }
    }

    /// Replaces the code of the contract.
    pub fn upgrade(host: &mut Host, admin: Address, new_wasm_hash: [u8; 32]) -> (r: Result<
        (),
        Error,
    >)
        ensures
            old(host)@.comes_to(
                final(host)@,
                r,
                Self::upgrade_outcome(old(host)@.ledger, admin, new_wasm_hash),
            ),
    {
        Self::require_admin(host, admin)?;
        Self::ensure_not_paused(host)?;
        let version: u32 = match Self::version(host).checked_add(1) {
            Some(version) => version,
            None => {
                return Err(Error::InvalidAmount);
            },
        };
        host.ledger.instance.version = Some(version);
        host.actions.push(Action::UpdateWasm { hash: new_wasm_hash });
        host.publish(
            Event::ContractUpgraded(ContractUpgradedEvent { admin, new_wasm_hash, version }),
        );
        Ok(())
    }
}

} // verus!
