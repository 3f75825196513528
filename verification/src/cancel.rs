//! Cancelling an escrow: both parties agree, then the admin settles.

use vstd::prelude::*;

use crate::arith::MilestoneEscrow;
use crate::events::{
    AdminCancelOverrideRefundEvent, AdminCancelOverrideReleaseEvent, CancelApprovalRecordedEvent,
    CancelApprovalRevokedEvent, CancelEscrowInitiatedEvent, CancelSplitRefundCalculatedEvent,
    Event,
};
use crate::host::{Context, Host, HostView, InstanceView, LedgerView, PersistentView};
use crate::outcome::Outcome;
use crate::types::{Address, Error, JobMeta, Milestone, MilestoneStatus, RefundAllocation};

verus! {

impl LedgerView {
    /// Who agreed to cancel so far.
    pub open spec fn cancel_mask(self) -> u32 {
        match self.instance.cancel_approval {
            Some(mask) => mask,
            None => 0,
        }
    }
}

impl MilestoneEscrow {
    /// The bit of a party in the record of who agreed to cancel.
    pub open spec fn party_bit(meta: JobMeta, caller: Address) -> u32 {
        if caller == meta.client {
            1
        } else {
            2
        }
    }

    pub open spec fn cancel_escrow_outcome(l: LedgerView, c: Context, caller: Address) -> Outcome<
        (),
    > {
        let signed = seq![caller];
        if caller.is_zero() {
            Outcome::refuse(Seq::empty(), Error::InvalidAddress)
        } else if let Some(error) = l.frozen_error() {
            Outcome::refuse(Seq::empty(), error)
        } else {
            match l.instance.job {
                None => Outcome::refuse(signed, Error::NotInitialized),
                Some(meta) => {
                    let bit = Self::party_bit(meta, caller);
                    let mask = l.cancel_mask() | bit;
                    if caller != meta.client && caller != meta.freelancer {
                        Outcome::refuse(signed, Error::Unauthorized)
                    } else if !meta.funded {
                        Outcome::refuse(signed, Error::NotFunded)
                    } else if c.balance <= 0 {
                        Outcome::refuse(signed, Error::InvalidAmount)
                    } else if l.cancel_mask() & bit != 0 {
                        Outcome::refuse(signed, Error::InvalidStatus)
                    } else if mask == 3 {
                        Outcome::accept(
                            signed,
                            (),
                            l.with_instance(
                                InstanceView {
                                    cancel_approval: None,
                                    cancel_lock: Some(true),
                                    ..l.instance
                                },
                            ),
                            Seq::empty(),
                            seq![
                                Event::CancelEscrowInitiated(
                                    CancelEscrowInitiatedEvent {
                                        contract_id: c.contract,
                                        caller,
                                        caller_is_client: caller == meta.client,
                                        client: meta.client,
                                        freelancer: meta.freelancer,
                                        token: meta.token,
                                        milestone_count: meta.milestone_count,
                                        total_amount: meta.total_amount,
                                    },
                                ),
                            ],
                        )
                    } else {
                        Outcome::accept(
                            signed,
                            (),
                            l.with_instance(
                                InstanceView { cancel_approval: Some(mask), ..l.instance },
                            ),
                            Seq::empty(),
                            seq![
                                Event::CancelApprovalRecorded(
                                    CancelApprovalRecordedEvent {
                                        contract_id: c.contract,
                                        caller,
                                        approval_mask: mask,
                                    },
                                ),
                            ],
                        )
                    }
                },
            }
        }
    }

    /// Records that a party wants to cancel. Once both do, the escrow is
    /// locked until the admin settles it.
    pub fn cancel_escrow(host: &mut Host, caller: Address) -> (r: Result<(), Error>)
        ensures
            old(host)@.comes_to(
                final(host)@,
                r,
                Self::cancel_escrow_outcome(old(host)@.ledger, old(host)@.context, caller),
            ),
    {
        if caller.is_zero() {
            return Err(Error::InvalidAddress);
        }
        Self::ensure_not_paused(host)?;
        host.require_auth(caller);
        let meta = Self::load_job_meta(host)?;
        if caller != meta.client && caller != meta.freelancer {
            return Err(Error::Unauthorized);
        }
        if !meta.funded {
            return Err(Error::NotFunded);
        }
        if host.balance <= 0 {
            return Err(Error::InvalidAmount);
        }
        let bit: u32 = if caller == meta.client {
            1
        } else {
            2
        };
        let current_mask: u32 = match host.ledger.instance.cancel_approval {
            Some(mask) => mask,
            None => 0,
        };
        if current_mask & bit != 0 {
            return Err(Error::InvalidStatus);
        }
        let new_mask: u32 = current_mask | bit;
        let contract = host.contract;
        if new_mask == 3 {
            host.ledger.instance.cancel_approval = None;
            host.ledger.instance.cancel_lock = Some(true);
            host.publish(
                Event::CancelEscrowInitiated(
                    CancelEscrowInitiatedEvent {
                        contract_id: contract,
                        caller,
                        caller_is_client: caller == meta.client,
                        client: meta.client,
                        freelancer: meta.freelancer,
                        token: meta.token,
                        milestone_count: meta.milestone_count,
                        total_amount: meta.total_amount,
                    },
                ),
            );
            return Ok(());
        }
        host.ledger.instance.cancel_approval = Some(new_mask);
        host.publish(
            Event::CancelApprovalRecorded(
                CancelApprovalRecordedEvent {
                    contract_id: contract,
                    caller,
                    approval_mask: new_mask,
                },
            ),
        );
        Ok(())
    }

    pub open spec fn revoke_cancel_approval_outcome(
        l: LedgerView,
        c: Context,
        caller: Address,
    ) -> Outcome<()> {
        let signed = seq![caller];
        if caller.is_zero() {
            Outcome::refuse(Seq::empty(), Error::InvalidAddress)
        } else {
            match l.instance.job {
                None => Outcome::refuse(Seq::empty(), Error::NotInitialized),
                Some(meta) => {
                    let bit = Self::party_bit(meta, caller);
                    let mask = l.cancel_mask() & !bit;
                    if caller != meta.client && caller != meta.freelancer {
                        Outcome::refuse(signed, Error::Unauthorized)
                    } else if l.cancelled() {
                        Outcome::refuse(signed, Error::EscrowLocked)
                    } else if l.cancel_mask() & bit == 0 {
                        Outcome::refuse(signed, Error::InvalidStatus)
                    } else {
                        Outcome::accept(
                            signed,
                            (),
                            l.with_instance(
                                InstanceView {
                                    cancel_approval: if mask == 0 {
                                        None
                                    } else {
                                        Some(mask)
                                    },
                                    ..l.instance
                                },
                            ),
                            Seq::empty(),
                            seq![
                                Event::CancelApprovalRevoked(
                                    CancelApprovalRevokedEvent {
                                        contract_id: c.contract,
                                        caller,
                                        approval_mask: mask,
                                    },
                                ),
                            ],
                        )
                    }
                },
            }
        }
    }

    /// Takes back that a party wants to cancel, while the other has not agreed.
    pub fn revoke_cancel_approval(host: &mut Host, caller: Address) -> (r: Result<(), Error>)
        ensures
            old(host)@.comes_to(
                final(host)@,
                r,
                Self::revoke_cancel_approval_outcome(
                    old(host)@.ledger,
                    old(host)@.context,
                    caller,
                ),
            ),
    {
        if caller.is_zero() {
            return Err(Error::InvalidAddress);
        }
        let meta = Self::load_job_meta(host)?;
        host.require_auth(caller);
        if caller != meta.client && caller != meta.freelancer {
            return Err(Error::Unauthorized);
        }
        if crate::host::flag_set(host.ledger.instance.cancel_lock) {
            return Err(Error::EscrowLocked);
        }
        let bit: u32 = if caller == meta.client {
            1
        } else {
            2
        };
        let current_mask: u32 = match host.ledger.instance.cancel_approval {
            Some(mask) => mask,
            None => 0,
        };
        if current_mask & bit == 0 {
            return Err(Error::InvalidStatus);
        }
        let new_mask: u32 = current_mask & !bit;
        let contract = host.contract;
        host.ledger.instance.cancel_approval = if new_mask == 0 {
            None
        } else {
            Some(new_mask)
        };
        host.publish(
            Event::CancelApprovalRevoked(
                CancelApprovalRevokedEvent {
                    contract_id: contract,
                    caller,
                    approval_mask: new_mask,
                },
            ),
        );
        Ok(())
    }

    /// Whether the numbers of a milestone are such that it cannot be settled.
    /// A refund does not tolerate negative ones either.
    pub open spec fn unsettleable(m: Milestone, status: MilestoneStatus) -> bool {
        ||| status is Refunded && (m.amount < 0 || m.released_amount < 0)
        ||| !(i128::MIN <= m.unpaid() <= i128::MAX)
    }

    /// The first `n` milestones once each that was not settled is, and the sum
    /// of what they held.
    pub open spec fn settle_all(
        milestones: Map<u32, Milestone>,
        n: nat,
        status: MilestoneStatus,
    ) -> Result<(i128, Map<u32, Milestone>), Error>
        decreases n,
    {
        if n == 0 {
            Ok((0, milestones))
        } else {
            let index = (n - 1) as u32;
            match Self::settle_all(milestones, (n - 1) as nat, status) {
                Err(error) => Err(error),
                Ok((total, settled)) => match crate::table::lookup(milestones, index) {
                    None => Err(Error::InvalidMilestone),
                    Some(m) => if m.status.is_terminal() {
                        Ok((total, settled))
                    } else if Self::unsettleable(m, status) {
                        Err(Error::InvalidAmount)
                    } else if m.unpaid() <= 0 {
                        Ok((total, settled.insert(index, Milestone { status, ..m })))
                    } else if total + m.unpaid() > i128::MAX {
                        Err(Error::InvalidAmount)
                    } else {
                        Ok(
                            (
                                (total + m.unpaid()) as i128,
                                settled.insert(index, m.settled(status)),
                            ),
                        )
                    },
                },
            }
        }
    }

    /// What settling a cancelled escrow finds: the job, the sum to pay and the
    /// milestones afterwards.
    pub open spec fn cancel_settlement(
        l: LedgerView,
        admin: Address,
        status: MilestoneStatus,
    ) -> Result<(JobMeta, i128, Map<u32, Milestone>), Error> {
        if let Some(error) = LedgerView::admin_error(l.persistent.admin, admin) {
            Err(error)
        } else {
            match l.instance.job {
                None => Err(Error::NotInitialized),
                Some(meta) => if !meta.funded {
                    Err(Error::NotFunded)
                } else if !l.cancelled() {
                    Err(Error::InvalidStatus)
                } else {
                    match Self::settle_all(
                        l.persistent.milestones,
                        meta.milestone_count as nat,
                        status,
                    ) {
                        Err(error) => Err(error),
                        Ok((total, settled)) => if total <= 0 {
                            Err(Error::InvalidAmount)
                        } else {
                            Ok((meta, total, settled))
                        },
                    }
                },
            }
        }
    }

    pub open spec fn admin_override_cancel_release_outcome(
        l: LedgerView,
        c: Context,
        admin: Address,
    ) -> Outcome<()> {
        let signed = seq![admin];
        match Self::cancel_settlement(l, admin, MilestoneStatus::Released) {
            Err(error) => Outcome::refuse(signed, error),
            Ok((meta, total, settled)) => Outcome::accept(
                signed,
                (),
                LedgerView {
                    instance: InstanceView { cancel_lock: Some(false), ..l.instance },
                    persistent: PersistentView {
                        milestones: settled,
                        yield_accrued: Some(0),
                        ..l.persistent
                    },
                    ..l
                },
                seq![c.pay(meta.token, meta.freelancer, total as int)],
                seq![
                    Event::AdminCancelOverrideRelease(
                        AdminCancelOverrideReleaseEvent {
                            admin,
                            contract_id: c.contract,
                            freelancer: meta.freelancer,
                            token: meta.token,
                            total_released: total,
                        },
                    ),
                ],
            ),
        }
    }

    pub open spec fn admin_override_cancel_refund_outcome(
        l: LedgerView,
        c: Context,
        admin: Address,
    ) -> Outcome<()> {
        let signed = seq![admin];
        match Self::cancel_settlement(l, admin, MilestoneStatus::Refunded) {
            Err(error) => Outcome::refuse(signed, error),
            Ok((meta, total, settled)) => Outcome::accept(
                signed,
                (),
                LedgerView {
                    instance: InstanceView { cancel_lock: None, ..l.instance },
                    persistent: PersistentView {
                        milestones: settled,
                        yield_accrued: None,
                        ..l.persistent
                    },
                    ..l
                },
                seq![c.pay(meta.token, meta.client, total as int)],
                seq![
                    Event::AdminCancelOverrideRefund(
                        AdminCancelOverrideRefundEvent {
                            admin,
                            contract_id: c.contract,
                            client: meta.client,
                            token: meta.token,
                            total_refunded: total,
                        },
                    ),
                ],
            ),
        }
    }

    proof fn lemma_settle_all_fails(
        milestones: Map<u32, Milestone>,
        i: nat,
        n: nat,
        status: MilestoneStatus,
    )
        requires
            i <= n,
            Self::settle_all(milestones, i, status) is Err,
        ensures
            Self::settle_all(milestones, n, status) == Self::settle_all(milestones, i, status),
        decreases n - i,
    {
        if i < n {
            Self::lemma_settle_all_fails(milestones, i, (n - 1) as nat, status);
        }
    }

    proof fn lemma_settle_all_holds(
        milestones: Map<u32, Milestone>,
        i: nat,
        n: nat,
        status: MilestoneStatus,
    )
        requires
            i <= n,
            Self::settle_all(milestones, n, status) is Ok,
        ensures
            Self::settle_all(milestones, i, status) is Ok,
    {
        if Self::settle_all(milestones, i, status) is Err {
            Self::lemma_settle_all_fails(milestones, i, n, status);
        }
    }

    proof fn lemma_settle_all_untouched(
        milestones: Map<u32, Milestone>,
        n: nat,
        status: MilestoneStatus,
        index: u32,
    )
        requires
            n <= index,
            Self::settle_all(milestones, n, status) is Ok,
        ensures
            crate::table::lookup((Self::settle_all(milestones, n, status)->Ok_0).1, index)
                == crate::table::lookup(milestones, index),
        decreases n,
    {
        if n > 0 {
            Self::lemma_settle_all_untouched(milestones, (n - 1) as nat, status, index);
        }
    }

    /// What all milestones together still hold, if they can be settled.
    fn sum_unsettled(host: &Host, count: u32, status: MilestoneStatus) -> (r: Result<i128, Error>)
        ensures
            r == (match Self::settle_all(
                host@.ledger.persistent.milestones,
                count as nat,
                status,
            ) {
                Ok((total, _)) => Ok::<i128, Error>(total),
                Err(error) => Err(error),
            }),
            r matches Ok(total) ==> total >= 0,
    {
        let ghost milestones = host@.ledger.persistent.milestones;
        let mut total: i128 = 0;
        let mut index: u32 = 0;
        while index < count
            invariant
                milestones == host@.ledger.persistent.milestones,
                index <= count,
                total >= 0,
                Self::settle_all(milestones, index as nat, status) matches Ok((t, _)) && t == total,
            decreases count - index,
        {
            proof {
                if Self::settle_all(milestones, index as nat + 1, status) is Err {
                    Self::lemma_settle_all_fails(
                        milestones,
                        index as nat + 1,
                        count as nat,
                        status,
                    );
                }
            }
            let milestone = Self::load_milestone(host, index)?;
            if !milestone.status.is_terminal() {
                if status == MilestoneStatus::Refunded && (milestone.amount < 0
                    || milestone.released_amount < 0) {
                    return Err(Error::InvalidAmount);
                }
                let remaining: i128 = match milestone.amount.checked_sub(
                    milestone.released_amount,
                ) {
                    Some(remaining) => remaining,
                    None => {
                        return Err(Error::InvalidAmount);
                    },
                };
                if remaining > 0 {
                    total = match total.checked_add(remaining) {
                        Some(sum) => sum,
                        None => {
                            return Err(Error::InvalidAmount);
                        },
                    };
                }
            }
            index += 1;
        }
        Ok(total)
    }

    /// Settles all milestones that are not settled yet.
    fn settle_milestones(host: &mut Host, count: u32, status: MilestoneStatus)
        requires
            Self::settle_all(
                old(host)@.ledger.persistent.milestones,
                count as nat,
                status,
            ) is Ok,
        ensures
            final(host)@ == (HostView {
                ledger: old(host)@.ledger.with_persistent(
                    PersistentView {
                        milestones: (Self::settle_all(
                            old(host)@.ledger.persistent.milestones,
                            count as nat,
                            status,
                        )->Ok_0).1,
                        ..old(host)@.ledger.persistent
                    },
                ),
                ..old(host)@
            }),
    {
        let ghost before = host@;
        let ghost milestones = host@.ledger.persistent.milestones;
        let mut index: u32 = 0;
        while index < count
            invariant
                index <= count,
                Self::settle_all(milestones, count as nat, status) is Ok,
                Self::settle_all(milestones, index as nat, status) is Ok,
                host@ == (HostView {
                    ledger: before.ledger.with_persistent(
                        PersistentView {
                            milestones: (Self::settle_all(
                                milestones,
                                index as nat,
                                status,
                            )->Ok_0).1,
                            ..before.ledger.persistent
                        },
                    ),
                    ..before
                }),
            decreases count - index,
        {
            proof {
                Self::lemma_settle_all_holds(milestones, index as nat + 1, count as nat, status);
                Self::lemma_settle_all_untouched(milestones, index as nat, status, index);
            }
            if let Some(milestone) = host.ledger.persistent.milestones.get(index) {
                if !milestone.status.is_terminal() {
                    let released_amount: i128 = if milestone.released_amount < milestone.amount {
                        milestone.amount
                    } else {
                        milestone.released_amount
                    };
                    host.ledger.persistent.milestones.set(
                        index,
                        Milestone { released_amount, status, ..milestone },
                    );
                }
            }
            index += 1;
        }
    }

    /// The checks of both ways to settle a cancelled escrow.
    fn check_cancel_settlement(host: &mut Host, admin: Address, status: MilestoneStatus) -> (r:
        Result<(JobMeta, i128), Error>)
        ensures
            final(host)@ == (HostView { auths: old(host)@.auths.push(admin), ..old(host)@ }),
            r == (match Self::cancel_settlement(old(host)@.ledger, admin, status) {
                Ok((meta, total, _)) => Ok::<(JobMeta, i128), Error>((meta, total)),
                Err(error) => Err(error),
            }),
    {
        Self::require_admin(host, admin)?;
        let meta = Self::load_job_meta(host)?;
        if !meta.funded {
            return Err(Error::NotFunded);
        }
        if !crate::host::flag_set(host.ledger.instance.cancel_lock) {
            return Err(Error::InvalidStatus);
        }
        let total: i128 = Self::sum_unsettled(host, meta.milestone_count, status)?;
        if total <= 0 {
            return Err(Error::InvalidAmount);
        }
        Ok((meta, total))
    }

    /// Settles a cancelled escrow by paying the freelancer all that is held.
    pub fn admin_override_cancel_release(host: &mut Host, admin: Address) -> (r: Result<(), Error>)
        ensures
            old(host)@.comes_to(
                final(host)@,
                r,
                Self::admin_override_cancel_release_outcome(
                    old(host)@.ledger,
                    old(host)@.context,
                    admin,
                ),
            ),
    {
        let (meta, total_released) = Self::check_cancel_settlement(
            host,
            admin,
            MilestoneStatus::Released,
        )?;
        Self::settle_milestones(host, meta.milestone_count, MilestoneStatus::Released);
        host.ledger.instance.cancel_lock = Some(false);
        host.ledger.persistent.yield_accrued = Some(0);
        let contract = host.contract;
        host.transfer(meta.token, contract, meta.freelancer, total_released);
        host.publish(
            Event::AdminCancelOverrideRelease(
                AdminCancelOverrideReleaseEvent {
                    admin,
                    contract_id: contract,
                    freelancer: meta.freelancer,
                    token: meta.token,
                    total_released,
                },
            ),
        );
        Ok(())
    }

    /// Settles a cancelled escrow by returning to the client all that is held.
    pub fn admin_override_cancel_refund(host: &mut Host, admin: Address) -> (r: Result<(), Error>)
        ensures
            old(host)@.comes_to(
                final(host)@,
                r,
                Self::admin_override_cancel_refund_outcome(
                    old(host)@.ledger,
                    old(host)@.context,
                    admin,
                ),
            ),
    {
        let (meta, total_refunded) = Self::check_cancel_settlement(
            host,
            admin,
            MilestoneStatus::Refunded,
        )?;
        Self::settle_milestones(host, meta.milestone_count, MilestoneStatus::Refunded);
        host.ledger.instance.cancel_lock = None;
        host.ledger.persistent.yield_accrued = None;
        let contract = host.contract;
        host.transfer(meta.token, contract, meta.client, total_refunded);
        host.publish(
            Event::AdminCancelOverrideRefund(
                AdminCancelOverrideRefundEvent {
                    admin,
                    contract_id: contract,
                    client: meta.client,
                    token: meta.token,
                    total_refunded,
                },
            ),
        );
        Ok(())
    }

    /// What is published when a split of a cancelled escrow is computed.
    pub open spec fn cancel_split_event(a: RefundAllocation) -> Event {
        Event::CancelSplitRefundCalculated(
            CancelSplitRefundCalculatedEvent {
                client_refund: a.client_refund,
                freelancer_payout: a.freelancer_payout,
                client_refund_bps: a.client_refund_bps,
                freelancer_payout_bps: a.freelancer_payout_bps,
            },
        )
    }

    pub open spec fn cancel_escrow_split_refund_outcome(
        l: LedgerView,
        total_amount: i128,
        client_refund_bps: u32,
        freelancer_payout_bps: u32,
    ) -> Outcome<RefundAllocation> {
        if let Some(error) = l.frozen_error() {
            Outcome::refuse(Seq::empty(), error)
        } else if l.admin_paused() {
            Outcome::refuse(Seq::empty(), Error::Paused)
        } else {
            Outcome::announce(
                Seq::empty(),
                Self::split_refund_result(total_amount, client_refund_bps, freelancer_payout_bps),
                l,
                |a: RefundAllocation| Self::cancel_split_event(a),
            )
        }
    }

    /// Publishes a split of a cancelled escrow.
    fn publish_cancel_split(host: &mut Host, allocation: &RefundAllocation)
        ensures
            final(host)@ == (HostView {
                events: old(host)@.events.push(Self::cancel_split_event(*allocation)),
                ..old(host)@
            }),
    {
        host.publish(
            Event::CancelSplitRefundCalculated(
                CancelSplitRefundCalculatedEvent {
                    client_refund: allocation.client_refund,
                    freelancer_payout: allocation.freelancer_payout,
                    client_refund_bps: allocation.client_refund_bps,
                    freelancer_payout_bps: allocation.freelancer_payout_bps,
                },
            ),
        );
    }

    /// Computes how an escrow would be split if it were cancelled.
    pub fn cancel_escrow_split_refund(
        host: &mut Host,
        total_amount: i128,
        client_refund_bps: u32,
        freelancer_payout_bps: u32,
    ) -> (r: Result<RefundAllocation, Error>)
        ensures
            old(host)@.comes_to(
                final(host)@,
                r,
                Self::cancel_escrow_split_refund_outcome(
                    old(host)@.ledger,
                    total_amount,
                    client_refund_bps,
                    freelancer_payout_bps,
                ),
            ),
            r matches Ok(a) ==> a.client_refund + a.freelancer_payout == total_amount,
    {
        Self::ensure_not_paused(host)?;
        Self::assert_not_paused(host)?;
        let allocation = Self::split_refund_allocation(
            total_amount,
            client_refund_bps,
            freelancer_payout_bps,
        )?;
        Self::publish_cancel_split(host, &allocation);
        Ok(allocation)
    }

    pub open spec fn cancel_escrow_claim_refund_outcome(
        l: LedgerView,
        c: Context,
        admin: Address,
        total_amount: i128,
        client_refund_bps: u32,
        freelancer_payout_bps: u32,
    ) -> Outcome<RefundAllocation> {
        let signed = seq![admin];
        if let Some(error) = LedgerView::admin_error(l.persistent.admin, admin) {
            Outcome::refuse(signed, error)
        } else if !l.cancelled() {
            Outcome::refuse(signed, Error::InvalidStatus)
        } else {
            match l.instance.job {
                None => Outcome::refuse(signed, Error::NotInitialized),
                Some(meta) => if !meta.funded {
                    Outcome::refuse(signed, Error::NotFunded)
                } else if c.balance <= 0 {
                    Outcome::refuse(signed, Error::EmptyBalance)
                } else {
                    Outcome::announce(
                        signed,
                        Self::split_refund_result(
                            total_amount,
                            client_refund_bps,
                            freelancer_payout_bps,
                        ),
                        l,
                        |a: RefundAllocation| Self::cancel_split_event(a),
                    )
                },
            }
        }
    }

    /// Computes how a cancelled escrow is split, for the admin.
    pub fn cancel_escrow_claim_refund(
        host: &mut Host,
        admin: Address,
        total_amount: i128,
        client_refund_bps: u32,
        freelancer_payout_bps: u32,
    ) -> (r: Result<RefundAllocation, Error>)
        ensures
            old(host)@.comes_to(
                final(host)@,
                r,
                Self::cancel_escrow_claim_refund_outcome(
                    old(host)@.ledger,
                    old(host)@.context,
                    admin,
                    total_amount,
                    client_refund_bps,
                    freelancer_payout_bps,
                ),
            ),
            r matches Ok(a) ==> a.client_refund + a.freelancer_payout == total_amount,
    {
        Self::require_admin(host, admin)?;
        if !crate::host::flag_set(host.ledger.instance.cancel_lock) {
            return Err(Error::InvalidStatus);
        }
        let meta = Self::load_job_meta(host)?;
        if !meta.funded {
            return Err(Error::NotFunded);
        }
        if host.balance <= 0 {
            return Err(Error::EmptyBalance);
        }
        let allocation = Self::split_refund_allocation(
            total_amount,
            client_refund_bps,
            freelancer_payout_bps,
        )?;
        Self::publish_cancel_split(host, &allocation);
        Ok(allocation)
    }
}

} // verus!
