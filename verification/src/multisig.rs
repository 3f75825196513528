//! Approvals by several signers, and the lock that the admin sets for them.

use vstd::prelude::*;

use crate::arith::MilestoneEscrow;
use crate::events::{
    Event, MultiSigApprovedEvent, MultisigAdminOverrideRefundEvent,
    MultisigAdminOverrideReleaseEvent, MultisigApprovalInitEvent, MultisigLockedEvent,
};
use crate::host::{Context, Host, HostView, InstanceView, LedgerView, TemporaryView};
use crate::outcome::Outcome;
use crate::types::{
    Address, Error, JobMeta, Milestone, MilestoneStatus, MultiSigApprovalState, RefundAllocation,
    MAX_MULTISIG_SIGNERS,
};

verus! {

impl LedgerView {
    /// Which signers have approved a proposal.
    pub open spec fn approval_bitmap(self, proposal_id: u32) -> u32 {
        match crate::table::lookup(self.temporary.multisig_approval, proposal_id) {
            Some(bitmap) => bitmap,
            None => 0,
        }
    }

    /// Whether the admin has set the multisig lock.
    pub open spec fn multisig_locked(self) -> bool {
        crate::host::is_set(self.instance.multisig_locked)
    }
}

impl MilestoneEscrow {
    /// Whether bit `i` of a bitmap is set.
    pub open spec fn has_bit(bitmap: u32, i: u32) -> bool {
        (bitmap >> i) & 1 == 1
    }

    /// How many of the lowest `n` bits of a bitmap are set.
    pub open spec fn bits_set(bitmap: u32, n: nat) -> nat
        decreases n,
    {
        if n == 0 {
            0
        } else {
            Self::bits_set(bitmap, (n - 1) as nat) + (if Self::has_bit(bitmap, (n - 1) as u32) {
                1nat
            } else {
                0
            })
        }
    }

    /// How many signers have approved a proposal.
    pub open spec fn approvals(l: LedgerView, proposal_id: u32) -> nat {
        Self::bits_set(l.approval_bitmap(proposal_id), 32)
    }

    /// How many bits of a bitmap are set.
    pub(crate) fn count_bits(bitmap: u32) -> (n: u32)
        ensures
            n == Self::bits_set(bitmap, 32),
            n <= 32,
    {
        let mut n: u32 = 0;
        let mut i: u32 = 0;
        while i < 32
            invariant
                i <= 32,
                n <= i,
                n == Self::bits_set(bitmap, i as nat),
            decreases 32 - i,
        {
            if (bitmap >> i) & 1 == 1 {
                n += 1;
            }
            i += 1;
        }
        n
    }

    /// Whether no address is listed twice.
    pub open spec fn distinct(list: Seq<Address>) -> bool {
        forall|i: int, j: int|
            0 <= i < j < list.len() ==> #[trigger] list[i] != #[trigger] list[j]
    }

    /// What a set of signers is refused for, if anything.
    pub open spec fn multisig_setup_error(signers: Seq<Address>, threshold: u32) -> Option<Error> {
        if signers.len() == 0 {
            Some(Error::MultiSigNoSigners)
        } else if signers.len() > MAX_MULTISIG_SIGNERS {
            Some(Error::MultiSigTooManySigners)
        } else if threshold == 0 || threshold > signers.len() {
            Some(Error::MultiSigInvalidThreshold)
        } else if !Self::distinct(signers) {
            Some(Error::MultiSigDuplicateSigner)
        } else {
            None
        }
    }

    /// Requires one to 32 signers, none of them twice, and a threshold that
    /// they can reach.
    pub fn validate_multisig_setup(signers: &Vec<Address>, threshold: u32) -> (r: Result<
        (),
        Error,
    >)
        ensures
            r == Self::checked(Self::multisig_setup_error(signers@, threshold)),
    {
        let count: usize = signers.len();
        if count == 0 {
            return Err(Error::MultiSigNoSigners);
        }
        if count > MAX_MULTISIG_SIGNERS as usize {
            return Err(Error::MultiSigTooManySigners);
        }
        if threshold == 0 || threshold as usize > count {
            return Err(Error::MultiSigInvalidThreshold);
        }
        let mut i: usize = 0;
        while i < count
            invariant
                count == signers@.len(),
                i <= count,
                0 < count <= MAX_MULTISIG_SIGNERS,
                0 < threshold <= count,
                forall|a: int, b: int|
                    0 <= a < i && a < b < count ==> #[trigger] signers@[a] != #[trigger] signers@[b],
            decreases count - i,
        {
            let mut j: usize = i + 1;
            while j < count
                invariant
                    count == signers@.len(),
                    i < j <= count,
                    0 < count <= MAX_MULTISIG_SIGNERS,
                    0 < threshold <= count,
                    forall|b: int| i < b < j ==> signers@[i as int] != #[trigger] signers@[b],
                decreases count - j,
            {
                if signers[i] == signers[j] {
                    assert(!Self::distinct(signers@)) by {
                        assert(signers@[i as int] == signers@[j as int]);
                    }
                    return Err(Error::MultiSigDuplicateSigner);
                }
                j += 1;
            }
            i += 1;
        }
        Ok(())
    }

    /// The ledger once the signers are registered.
    pub open spec fn with_signers(
        l: LedgerView,
        signers: Seq<Address>,
        threshold: u32,
    ) -> LedgerView {
        l.with_instance(
            InstanceView {
                multisig_signers: Some(signers),
                multisig_threshold: Some(threshold),
                ..l.instance
            },
        )
    }

    /// What registering signers is refused for, if anything.
    pub open spec fn multisig_approval_init_error(
        l: LedgerView,
        admin: Address,
        signers: Seq<Address>,
        threshold: u32,
    ) -> Option<Error> {
        if let Some(error) = LedgerView::admin_error(l.persistent.admin, admin) {
            Some(error)
        } else if l.instance.multisig_signers is Some {
            Some(Error::AlreadyInitialized)
        } else {
            Self::multisig_setup_error(signers, threshold)
        }
    }

    /// Registers the signers of the multisig and how many of them have to
    /// approve. Only once.
    pub fn multisig_approval_init(
        host: &mut Host,
        admin: Address,
        signers: Vec<Address>,
        threshold: u32,
    ) -> (r: Result<(), Error>)
        ensures
            ({
                let before = old(host)@;
                let after = final(host)@;
                let auths = before.auths.push(admin);
                match Self::multisig_approval_init_error(
                    before.ledger,
                    admin,
                    signers@,
                    threshold,
                ) {
                    Some(error) => {
                        &&& r == Err::<(), Error>(error)
                        &&& after == (HostView { auths, ..before })
                    },
                    None => {
                        let event = after.events.last();
                        &&& r == Ok::<(), Error>(())
                        &&& after == (HostView {
                            auths,
                            ledger: Self::with_signers(before.ledger, signers@, threshold),
                            events: before.events.push(event),
                            ..before
                        })
                        &&& event matches Event::MultisigApprovalInit(e) && e.admin == admin
                            && e.signers@ == signers@ && e.threshold == threshold
                    },
                }
            }),
    {
        Self::require_admin(host, admin)?;
        if host.ledger.instance.multisig_signers.is_some() {
            return Err(Error::AlreadyInitialized);
        }
        Self::validate_multisig_setup(&signers, threshold)?;
        let published = Self::copy_list(&signers);
        host.ledger.instance.multisig_signers = Some(signers);
        host.ledger.instance.multisig_threshold = Some(threshold);
        host.publish(
            Event::MultisigApprovalInit(
                MultisigApprovalInitEvent { admin, signers: published, threshold },
            ),
        );
        Ok(())
    }

    /// How far a proposal has come.
    pub open spec fn approval_state(bitmap: u32, threshold: u32) -> MultiSigApprovalState {
        let approvals = Self::bits_set(bitmap, 32) as u32;
        MultiSigApprovalState { approved: approvals >= threshold, approvals, threshold, bitmap }
    }

    pub open spec fn multisig_approve_outcome(
        l: LedgerView,
        c: Context,
        signer: Address,
        proposal_id: u32,
    ) -> Outcome<MultiSigApprovalState> {
        let signed = seq![signer];
        match (l.instance.multisig_signers, l.instance.multisig_threshold) {
            (Some(signers), Some(threshold)) => {
                let index = Self::first_index(signers, signer);
                let bitmap = l.approval_bitmap(proposal_id) | (1u32 << (index as u32));
                let state = Self::approval_state(bitmap, threshold);
                if !signers.contains(signer) {
                    Outcome::refuse(signed, Error::Unauthorized)
                } else if l.instance.job is None {
                    Outcome::refuse(signed, Error::NotInitialized)
                } else if c.balance <= 0 {
                    Outcome::refuse(signed, Error::MultiSigEmptyBalance)
                } else if index >= 32 {
                    Outcome::refuse(signed, Error::InvalidAmount)
                } else {
                    Outcome::accept(
                        signed,
                        state,
                        l.with_temporary(
                            TemporaryView {
                                multisig_approval: l.temporary.multisig_approval.insert(
                                    proposal_id,
                                    bitmap,
                                ),
                                ..l.temporary
                            },
                        ),
                        Seq::empty(),
                        seq![
                            Event::MultiSigApproved(
                                MultiSigApprovedEvent {
                                    proposal_id,
                                    signer,
                                    approvals: state.approvals,
                                    threshold,
                                    approved: state.approved,
                                    bitmap,
                                },
                            ),
                        ],
                    )
                }
            },
            _ => Outcome::refuse(signed, Error::NotInitialized),
        }
    }

    /// Records that a signer approves a proposal. Approving twice changes
    /// nothing.
    pub fn multisig_approve(host: &mut Host, signer: Address, proposal_id: u32) -> (r: Result<
        MultiSigApprovalState,
        Error,
    >)
        ensures
            old(host)@.comes_to(
                final(host)@,
                r,
                Self::multisig_approve_outcome(
                    old(host)@.ledger,
                    old(host)@.context,
                    signer,
                    proposal_id,
                ),
            ),
    {
        host.require_auth(signer);
        let threshold: u32 = match host.ledger.instance.multisig_threshold {
            Some(threshold) => threshold,
            None => {
                return Err(Error::NotInitialized);
            },
        };
        let position = match &host.ledger.instance.multisig_signers {
            Some(signers) => Self::position(signers, signer),
            None => {
                return Err(Error::NotInitialized);
            },
        };
        let index: usize = match position {
            Some(index) => index,
            None => {
                return Err(Error::Unauthorized);
            },
        };
        let meta = Self::load_job_meta(host)?;
        if host.balance <= 0 {
            return Err(Error::MultiSigEmptyBalance);
        }
        if index >= 32 {
            return Err(Error::InvalidAmount);
        }
        let stored: u32 = match host.ledger.temporary.multisig_approval.get(proposal_id) {
            Some(bitmap) => bitmap,
            None => 0,
        };
        let bitmap: u32 = stored | (1u32 << (index as u32));
        let approvals: u32 = Self::count_bits(bitmap);
        let approved: bool = approvals >= threshold;
        host.ledger.temporary.multisig_approval.set(proposal_id, bitmap);
        host.publish(
            Event::MultiSigApproved(
                MultiSigApprovedEvent {
                    proposal_id,
                    signer,
                    approvals,
                    threshold,
                    approved,
                    bitmap,
                },
            ),
        );
        Ok(MultiSigApprovalState { approved, approvals, threshold, bitmap })
    }

    /// How far a proposal has come.
    pub fn is_multisig_approved(host: &Host, proposal_id: u32) -> (r: Result<
        MultiSigApprovalState,
        Error,
    >)
        ensures
            r == (match host@.ledger.instance.multisig_threshold {
                None => Err(Error::NotInitialized),
                Some(threshold) => Ok(
                    Self::approval_state(host@.ledger.approval_bitmap(proposal_id), threshold),
                ),
            }),
            r matches Ok(state) ==> state.approvals == Self::approvals(host@.ledger, proposal_id),
            r matches Ok(state) ==> {
                let record = crate::rules::approvals::record_of(host@.ledger, proposal_id);
                &&& state.bitmap == record
                &&& state.approvals == crate::rules::approvals::how_many(record, 32)
                &&& state.threshold == host@.ledger.instance.multisig_threshold->0
                &&& state.approved <==> state.approvals >= state.threshold
            },
    {
        let threshold: u32 = match host.ledger.instance.multisig_threshold {
            Some(threshold) => threshold,
            None => {
                return Err(Error::NotInitialized);
            },
        };
        let bitmap: u32 = match host.ledger.temporary.multisig_approval.get(proposal_id) {
            Some(bitmap) => bitmap,
            None => 0,
        };
        proof {
            crate::rules::approvals::approvals_are_counted(bitmap, 32);
        }
        let approvals: u32 = Self::count_bits(bitmap);
        Ok(MultiSigApprovalState { approved: approvals >= threshold, approvals, threshold, bitmap })
    }

    pub open spec fn multisig_lock_outcome(l: LedgerView, admin: Address) -> Outcome<()> {
        let signed = seq![admin];
        if let Some(error) = LedgerView::admin_error(l.instance.admin, admin) {
            Outcome::refuse(signed, error)
        } else if l.multisig_locked() {
            Outcome::refuse(signed, Error::InvalidStatus)
        } else if l.freezing() {
            Outcome::refuse(signed, Error::EmergencyPauseInProgress)
        } else {
            Outcome::accept(
                signed,
                (),
                l.with_instance(InstanceView { multisig_locked: Some(true), ..l.instance }),
                Seq::empty(),
                seq![Event::MultisigLocked(MultisigLockedEvent { admin, locked: true })],
            )
        }
    }

    /// Sets the multisig lock.
    pub fn multisig_lock(host: &mut Host, admin: Address) -> (r: Result<(), Error>)
        ensures
            old(host)@.comes_to(
                final(host)@,
                r,
                Self::multisig_lock_outcome(old(host)@.ledger, admin),
            ),
    {
        Self::require_admin_from_instance(host, admin)?;
        if crate::host::flag_set(host.ledger.instance.multisig_locked) {
            return Err(Error::InvalidStatus);
        }
        Self::assert_emergency_pause_not_locked(host)?;
        host.ledger.instance.multisig_locked = Some(true);
        host.publish(Event::MultisigLocked(MultisigLockedEvent { admin, locked: true }));
        Ok(())
    }

    /// Whether the multisig lock is set.
    pub fn is_multisig_locked(host: &Host) -> (r: bool)
        ensures
            r == host@.ledger.multisig_locked(),
            r <==> host@.ledger.instance.multisig_locked == Some(true),
    {
        crate::host::flag_set(host.ledger.instance.multisig_locked)
    }

    /// What settling a milestone of a multisig-locked escrow finds: the job and
    /// the milestone.
    pub open spec fn multisig_settlement(l: LedgerView, admin: Address, index: u32) -> Result<
        (JobMeta, Milestone),
        Error,
    > {
        if let Some(error) = LedgerView::admin_error(l.persistent.admin, admin) {
            Err(error)
        } else if !l.multisig_locked() {
            Err(Error::InvalidStatus)
        } else {
            match l.instance.job {
                None => Err(Error::NotInitialized),
                Some(meta) => if !meta.funded {
                    Err(Error::NotFunded)
                } else {
                    match l.job_milestone(meta, index) {
                        None => Err(Error::InvalidMilestone),
                        Some(m) => if m.status.is_terminal() {
                            Err(Error::InvalidStatus)
                        } else if !(0 <= m.released_amount < m.amount) {
                            Err(Error::InvalidAmount)
                        } else {
                            Ok((meta, m))
                        },
                    }
                },
            }
        }
    }

    /// The checks of both ways to settle a milestone of a multisig-locked
    /// escrow.
    fn check_multisig_settlement(host: &mut Host, admin: Address, index: u32) -> (r: Result<
        (JobMeta, Milestone),
        Error,
    >)
        ensures
            final(host)@ == (HostView { auths: old(host)@.auths.push(admin), ..old(host)@ }),
            r == Self::multisig_settlement(old(host)@.ledger, admin, index),
    {
        Self::require_admin(host, admin)?;
        if !crate::host::flag_set(host.ledger.instance.multisig_locked) {
            return Err(Error::InvalidStatus);
        }
        let meta = Self::load_job_meta(host)?;
        if !meta.funded {
            return Err(Error::NotFunded);
        }
        let milestone = Self::load_job_milestone(host, &meta, index)?;
        if milestone.status.is_terminal() {
            return Err(Error::InvalidStatus);
        }
        if milestone.amount < 0 || milestone.released_amount < 0 {
            return Err(Error::InvalidAmount);
        }
        if milestone.released_amount >= milestone.amount {
            return Err(Error::InvalidAmount);
        }
        Ok((meta, milestone))
    }

    pub open spec fn multisig_admin_override_release_outcome(
        l: LedgerView,
        c: Context,
        admin: Address,
        index: u32,
    ) -> Outcome<()> {
        let signed = seq![admin];
        match Self::multisig_settlement(l, admin, index) {
            Err(error) => Outcome::refuse(signed, error),
            Ok((meta, m)) => Outcome::accept(
                signed,
                (),
                l.with_milestone(index, m.settled(MilestoneStatus::Released)).with_instance(
                    InstanceView { multisig_locked: Some(false), ..l.instance },
                ),
                seq![c.pay(meta.token, meta.freelancer, m.unpaid())],
                seq![
                    Event::MultisigAdminOverrideRelease(
                        MultisigAdminOverrideReleaseEvent {
                            admin,
                            contract_id: c.contract,
                            milestone_index: index,
                            freelancer: meta.freelancer,
                            token: meta.token,
                            amount: m.unpaid() as i128,
                        },
                    ),
                ],
            ),
        }
    }

    /// Pays a milestone of a multisig-locked escrow out to the freelancer, and
    /// lifts the lock.
    pub fn multisig_admin_override_release(
        host: &mut Host,
        admin: Address,
        milestone_index: u32,
    ) -> (r: Result<(), Error>)
        ensures
            old(host)@.comes_to(
                final(host)@,
                r,
                Self::multisig_admin_override_release_outcome(
                    old(host)@.ledger,
                    old(host)@.context,
                    admin,
                    milestone_index,
                ),
            ),
    {
        let (meta, milestone) = Self::check_multisig_settlement(host, admin, milestone_index)?;
        let remaining: i128 = milestone.amount - milestone.released_amount;
        let contract = host.contract;
        host.ledger.persistent.milestones.set(
            milestone_index,
            Milestone {
                released_amount: milestone.amount,
                status: MilestoneStatus::Released,
                ..milestone
            },
        );
        host.ledger.instance.multisig_locked = Some(false);
        host.transfer(meta.token, contract, meta.freelancer, remaining);
        host.publish(
            Event::MultisigAdminOverrideRelease(
                MultisigAdminOverrideReleaseEvent {
                    admin,
                    contract_id: contract,
                    milestone_index,
                    freelancer: meta.freelancer,
                    token: meta.token,
                    amount: remaining,
                },
            ),
        );
        Ok(())
    }

    pub open spec fn multisig_admin_override_refund_outcome(
        l: LedgerView,
        c: Context,
        admin: Address,
        index: u32,
    ) -> Outcome<()> {
        let signed = seq![admin];
        match Self::multisig_settlement(l, admin, index) {
            Err(error) => Outcome::refuse(signed, error),
            Ok((meta, m)) => Outcome::accept(
                signed,
                (),
                l.with_milestone(index, m.settled(MilestoneStatus::Refunded)).with_instance(
                    InstanceView { multisig_locked: None, ..l.instance },
                ),
                seq![c.pay(meta.token, meta.client, m.unpaid())],
                seq![
                    Event::MultisigAdminOverrideRefund(
                        MultisigAdminOverrideRefundEvent {
                            admin,
                            contract_id: c.contract,
                            milestone_index: index,
                            client: meta.client,
                            token: meta.token,
                            amount: m.unpaid() as i128,
                        },
                    ),
                ],
            ),
        }
    }

    /// Returns a milestone of a multisig-locked escrow to the client, and lifts
    /// the lock.
    pub fn multisig_admin_override_refund(
        host: &mut Host,
        admin: Address,
        milestone_index: u32,
    ) -> (r: Result<(), Error>)
        ensures
            old(host)@.comes_to(
                final(host)@,
                r,
                Self::multisig_admin_override_refund_outcome(
                    old(host)@.ledger,
                    old(host)@.context,
                    admin,
                    milestone_index,
                ),
            ),
    {
        let (meta, milestone) = Self::check_multisig_settlement(host, admin, milestone_index)?;
        let remaining: i128 = milestone.amount - milestone.released_amount;
        let contract = host.contract;
        host.ledger.persistent.milestones.set(
            milestone_index,
            Milestone {
                released_amount: milestone.amount,
                status: MilestoneStatus::Refunded,
                ..milestone
            },
        );
        host.ledger.instance.multisig_locked = None;
        host.transfer(meta.token, contract, meta.client, remaining);
        host.publish(
            Event::MultisigAdminOverrideRefund(
                MultisigAdminOverrideRefundEvent {
                    admin,
                    contract_id: contract,
                    milestone_index,
                    client: meta.client,
                    token: meta.token,
                    amount: remaining,
                },
            ),
        );
        Ok(())
    }

    pub open spec fn multisig_split_refund_outcome(
        l: LedgerView,
        admin: Address,
        total_amount: i128,
        client_refund_bps: u32,
        freelancer_payout_bps: u32,
    ) -> Outcome<RefundAllocation> {
        let signed = seq![admin];
        if let Some(error) = LedgerView::admin_error(l.persistent.admin, admin) {
            Outcome::refuse(signed, error)
        } else if !l.multisig_locked() {
            Outcome::refuse(signed, Error::InvalidStatus)
        } else {
            Outcome::announce(
                signed,
                Self::split_refund_result(total_amount, client_refund_bps, freelancer_payout_bps),
                l,
                |a: RefundAllocation| Event::MultisigSplitRefund(Self::split_refund_payload(a)),
            )
        }
    }

    /// Computes how a multisig-locked escrow is split, for the admin.
    pub fn multisig_split_refund(
        host: &mut Host,
        admin: Address,
        total_amount: i128,
        client_refund_bps: u32,
        freelancer_payout_bps: u32,
    ) -> (r: Result<RefundAllocation, Error>)
        ensures
            old(host)@.comes_to(
                final(host)@,
                r,
                Self::multisig_split_refund_outcome(
                    old(host)@.ledger,
                    admin,
                    total_amount,
                    client_refund_bps,
                    freelancer_payout_bps,
                ),
            ),
            r matches Ok(a) ==> a.client_refund + a.freelancer_payout == total_amount,
    {
        Self::require_admin(host, admin)?;
        if !crate::host::flag_set(host.ledger.instance.multisig_locked) {
            return Err(Error::InvalidStatus);
        }
        let allocation = Self::split_refund_allocation(
            total_amount,
            client_refund_bps,
            freelancer_payout_bps,
        )?;
        host.publish(Event::MultisigSplitRefund(Self::split_refund_event(&allocation)));
        Ok(allocation)
    }
}

} // verus!
