//! The emergency freeze, and the pause that the admin sets alone.

use vstd::prelude::*;

use crate::arith::MilestoneEscrow;
use crate::events::{
    EmergencyPauseAdminOverrideEvent, EmergencyPauseClaimRefundEvent, EmergencyPausedEvent,
    EmergencyUnpausedEvent, EscrowPausedEvent, EscrowResumedEvent, Event,
    SplitRefundCalculatedEvent,
};
use crate::host::{Context, Host, InstanceView, LedgerView};
use crate::outcome::Outcome;
use crate::types::{Address, Error, RefundAllocation, BPS_DENOMINATOR, BPS_SCALE};

verus! {

impl LedgerView {
    /// Whether the freeze is being set or lifted.
    pub open spec fn freezing(self) -> bool {
        crate::host::is_set(self.instance.emergency_pause_lock)
    }
}

impl MilestoneEscrow {
    /// Refuses while the freeze is being set or lifted.
    pub(crate) fn assert_emergency_pause_not_locked(host: &Host) -> (r: Result<(), Error>)
        ensures
            r == (if host@.ledger.freezing() {
                Err(Error::EmergencyPauseInProgress)
            } else {
                Ok(())
            }),
    {
        if crate::host::flag_set(host.ledger.instance.emergency_pause_lock) {
            return Err(Error::EmergencyPauseInProgress);
        }
        Ok(())
    }

    pub open spec fn emergency_pause_outcome(
        l: LedgerView,
        c: Context,
        client: Address,
        freelancer: Address,
    ) -> Outcome<()> {
        let signed = seq![client, freelancer];
        match l.instance.job {
            None => Outcome::refuse(Seq::empty(), Error::NotInitialized),
            Some(meta) => if client != meta.client || freelancer != meta.freelancer {
                Outcome::refuse(Seq::empty(), Error::Unauthorized)
            } else if l.freezing() {
                Outcome::refuse(signed, Error::EmergencyPauseInProgress)
            } else {
                match l.instance.emergency_paused {
                    None => Outcome::refuse(signed, Error::NotInitialized),
                    Some(true) => Outcome::refuse(signed, Error::AlreadyPaused),
                    Some(false) => Outcome::accept(
                        signed,
                        (),
                        l.with_instance(
                            InstanceView {
                                emergency_paused: Some(true),
                                emergency_pause_lock: Some(false),
                                ..l.instance
                            },
                        ),
                        Seq::empty(),
                        seq![
                            Event::EmergencyPaused(
                                EmergencyPausedEvent {
                                    client,
                                    freelancer,
                                    contract_id: c.contract,
                                },
                            ),
                        ],
                    ),
                }
            },
        }
    }

    /// Freezes the escrow, at the wish of both parties.
    pub fn emergency_pause(host: &mut Host, client: Address, freelancer: Address) -> (r: Result<
        (),
        Error,
    >)
        ensures
            old(host)@.comes_to(
                final(host)@,
                r,
                Self::emergency_pause_outcome(
                    old(host)@.ledger,
                    old(host)@.context,
                    client,
                    freelancer,
                ),
            ),
    {
        let meta = Self::load_job_meta(host)?;
        if client != meta.client || freelancer != meta.freelancer {
            return Err(Error::Unauthorized);
        }
        host.require_auth(client);
        host.require_auth(freelancer);
        Self::assert_emergency_pause_not_locked(host)?;
        if Self::is_emergency_paused(host)? {
            return Err(Error::AlreadyPaused);
        }
        let contract = host.contract;
        host.ledger.instance.emergency_paused = Some(true);
        host.ledger.instance.emergency_pause_lock = Some(false);
        host.publish(
            Event::EmergencyPaused(
                EmergencyPausedEvent { client, freelancer, contract_id: contract },
            ),
        );
        Ok(())
    }

    pub open spec fn emergency_unpause_outcome(
        l: LedgerView,
        c: Context,
        admin: Address,
    ) -> Outcome<()> {
        let signed = seq![admin];
        if let Some(error) = LedgerView::admin_error(l.persistent.admin, admin) {
            Outcome::refuse(signed, error)
        } else {
            match l.instance.emergency_paused {
                None => Outcome::refuse(signed, Error::NotInitialized),
                Some(false) => Outcome::refuse(signed, Error::NotPaused),
                Some(true) => if l.freezing() {
                    Outcome::refuse(signed, Error::EmergencyPauseInProgress)
                } else {
                    Outcome::accept(
                        signed,
                        (),
                        l.with_instance(
                            InstanceView { emergency_paused: Some(false), ..l.instance },
                        ),
                        Seq::empty(),
                        seq![
                            Event::EmergencyUnpaused(
                                EmergencyUnpausedEvent { admin, contract_id: c.contract },
                            ),
                        ],
                    )
                },
            }
        }
    }

    /// Lifts the freeze.
    pub fn emergency_unpause(host: &mut Host, admin: Address) -> (r: Result<(), Error>)
        ensures
            old(host)@.comes_to(
                final(host)@,
                r,
                Self::emergency_unpause_outcome(old(host)@.ledger, old(host)@.context, admin),
            ),
    {
        Self::require_admin(host, admin)?;
        if !Self::is_emergency_paused(host)? {
            return Err(Error::NotPaused);
        }
        Self::assert_emergency_pause_not_locked(host)?;
        let contract = host.contract;
        host.ledger.instance.emergency_paused = Some(false);
        host.publish(
            Event::EmergencyUnpaused(EmergencyUnpausedEvent { admin, contract_id: contract }),
        );
        Ok(())
    }

    pub open spec fn emergency_pause_admin_override_outcome(
        l: LedgerView,
        c: Context,
        admin: Address,
        paused: bool,
    ) -> Outcome<()> {
        let signed = seq![admin];
        if let Some(error) = LedgerView::admin_error(l.persistent.admin, admin) {
            Outcome::refuse(signed, error)
        } else if l.frozen() == paused {
            Outcome::refuse(signed, Error::InvalidStatus)
        } else {
            Outcome::accept(
                signed,
                (),
                l.with_instance(InstanceView { emergency_paused: Some(paused), ..l.instance }),
                Seq::empty(),
                seq![
                    Event::EmergencyPauseAdminOverride(
                        EmergencyPauseAdminOverrideEvent {
                            admin,
                            contract_id: c.contract,
                            paused,
                            previous: l.frozen(),
                        },
                    ),
                ],
            )
        }
    }

    /// Sets or lifts the freeze by hand.
    pub fn emergency_pause_admin_override(host: &mut Host, admin: Address, paused: bool) -> (r:
        Result<(), Error>)
        ensures
            old(host)@.comes_to(
                final(host)@,
                r,
                Self::emergency_pause_admin_override_outcome(
                    old(host)@.ledger,
                    old(host)@.context,
                    admin,
                    paused,
                ),
            ),
    {
        Self::require_admin(host, admin)?;
        let current: bool = crate::host::flag_set(host.ledger.instance.emergency_paused);
        if current == paused {
            return Err(Error::InvalidStatus);
        }
        let contract = host.contract;
        host.ledger.instance.emergency_paused = Some(paused);
        host.publish(
            Event::EmergencyPauseAdminOverride(
                EmergencyPauseAdminOverrideEvent {
                    admin,
                    contract_id: contract,
                    paused,
                    previous: current,
                },
            ),
        );
        Ok(())
    }

    /// Whether the escrow is frozen.
    pub fn is_emergency_paused(host: &Host) -> (r: Result<bool, Error>)
        ensures
            r == Self::found(host@.ledger.instance.emergency_paused, Error::NotInitialized),
            r is Ok <==> host@.ledger.instance.emergency_paused is Some,
            r matches Ok(paused) ==> host@.ledger.instance.emergency_paused == Some(paused),
    {
        match host.ledger.instance.emergency_paused {
            Some(paused) => Ok(paused),
            None => Err(Error::NotInitialized),
        }
    }

    pub open spec fn admin_pause_escrow_outcome(
        l: LedgerView,
        c: Context,
        admin: Address,
    ) -> Outcome<()> {
        let signed = seq![admin];
        if let Some(error) = LedgerView::admin_error(l.persistent.admin, admin) {
            Outcome::refuse(signed, error)
        } else if l.freezing() {
            Outcome::refuse(signed, Error::EmergencyPauseInProgress)
        } else if l.admin_paused() {
            Outcome::accept(signed, (), l, Seq::empty(), Seq::empty())
        } else {
            Outcome::accept(
                signed,
                (),
                l.with_instance(InstanceView { paused: Some(true), ..l.instance }),
                Seq::empty(),
                seq![
                    Event::EscrowPaused(EscrowPausedEvent { admin, contract_id: c.contract }),
                ],
            )
        }
    }

    /// Pauses the endpoints for the parties of the job. Pausing twice changes
    /// nothing.
    pub fn admin_pause_escrow(host: &mut Host, admin: Address) -> (r: Result<(), Error>)
        ensures
            old(host)@.comes_to(
                final(host)@,
                r,
                Self::admin_pause_escrow_outcome(old(host)@.ledger, old(host)@.context, admin),
            ),
    {
        Self::require_admin(host, admin)?;
        Self::assert_emergency_pause_not_locked(host)?;
        if crate::host::flag_set(host.ledger.instance.paused) {
            return Ok(());
        }
        let contract = host.contract;
        host.ledger.instance.paused = Some(true);
        host.publish(Event::EscrowPaused(EscrowPausedEvent { admin, contract_id: contract }));
        Ok(())
    }

    pub open spec fn admin_resume_escrow_outcome(
        l: LedgerView,
        c: Context,
        admin: Address,
    ) -> Outcome<()> {
        let signed = seq![admin];
        if let Some(error) = LedgerView::admin_error(l.instance.admin, admin) {
            Outcome::refuse(signed, error)
        } else if !l.admin_paused() {
            Outcome::refuse(signed, Error::NotPaused)
        } else if l.freezing() {
            Outcome::refuse(signed, Error::EmergencyPauseInProgress)
        } else {
            Outcome::accept(
                signed,
                (),
                l.with_instance(
                    InstanceView {
                        paused: Some(false),
                        emergency_pause_lock: Some(false),
                        ..l.instance
                    },
                ),
                Seq::empty(),
                seq![
                    Event::EscrowResumed(EscrowResumedEvent { admin, contract_id: c.contract }),
                ],
            )
        }
    }

    /// Resumes the endpoints for the parties of the job.
    pub fn admin_resume_escrow(host: &mut Host, admin: Address) -> (r: Result<(), Error>)
        ensures
            old(host)@.comes_to(
                final(host)@,
                r,
                Self::admin_resume_escrow_outcome(old(host)@.ledger, old(host)@.context, admin),
            ),
    {
        Self::require_admin_from_instance(host, admin)?;
        if !crate::host::flag_set(host.ledger.instance.paused) {
            return Err(Error::NotPaused);
        }
        Self::assert_emergency_pause_not_locked(host)?;
        let contract = host.contract;
        host.ledger.instance.paused = Some(false);
        host.ledger.instance.emergency_pause_lock = Some(false);
        host.publish(Event::EscrowResumed(EscrowResumedEvent { admin, contract_id: contract }));
        Ok(())
    }

    /// What is published of a computed split.
    pub open spec fn split_refund_payload(a: RefundAllocation) -> SplitRefundCalculatedEvent {
        SplitRefundCalculatedEvent {
            client_refund: a.client_refund,
            freelancer_payout: a.freelancer_payout,
            client_refund_bps: a.client_refund_bps,
            freelancer_payout_bps: a.freelancer_payout_bps,
        }
    }

    pub(crate) fn split_refund_event(a: &RefundAllocation) -> (r: SplitRefundCalculatedEvent)
        ensures
            r == Self::split_refund_payload(*a),
    {
        SplitRefundCalculatedEvent {
            client_refund: a.client_refund,
            freelancer_payout: a.freelancer_payout,
            client_refund_bps: a.client_refund_bps,
            freelancer_payout_bps: a.freelancer_payout_bps,
        }
    }

    pub open spec fn emergency_pause_split_refund_outcome(
        l: LedgerView,
        total_amount: i128,
        client_refund_bps: u32,
        freelancer_payout_bps: u32,
    ) -> Outcome<RefundAllocation> {
        Outcome::announce(
            Seq::empty(),
            Self::split_refund_result(total_amount, client_refund_bps, freelancer_payout_bps),
            l,
            |a: RefundAllocation| Event::EmergencyPauseSplitRefund(Self::split_refund_payload(a)),
        )
    }

    /// Computes how an escrow would be split if it were frozen.
    pub fn emergency_pause_split_refund(
        host: &mut Host,
        total_amount: i128,
        client_refund_bps: u32,
        freelancer_payout_bps: u32,
    ) -> (r: Result<RefundAllocation, Error>)
        ensures
            old(host)@.comes_to(
                final(host)@,
                r,
                Self::emergency_pause_split_refund_outcome(
                    old(host)@.ledger,
                    total_amount,
                    client_refund_bps,
                    freelancer_payout_bps,
                ),
            ),
            r matches Ok(a) ==> a.client_refund + a.freelancer_payout == total_amount,
    {
        let allocation = Self::split_refund_allocation(
            total_amount,
            client_refund_bps,
            freelancer_payout_bps,
        )?;
        host.publish(Event::EmergencyPauseSplitRefund(Self::split_refund_event(&allocation)));
        Ok(allocation)
    }

    pub open spec fn emergency_pause_claim_refund_outcome(
        l: LedgerView,
        c: Context,
        admin: Address,
        total_amount: i128,
        client_refund_bps: u32,
        freelancer_payout_bps: u32,
    ) -> Outcome<RefundAllocation> {
        let signed = seq![admin];
        let client_refund = Self::rounded(
            total_amount as int,
            client_refund_bps as int,
            BPS_SCALE as int,
        );
        if let Some(error) = LedgerView::admin_error(l.instance.admin, admin) {
            Outcome::refuse(signed, error)
        } else if l.freezing() {
            Outcome::refuse(signed, Error::EmergencyPauseInProgress)
        } else if l.instance.emergency_paused is None {
            Outcome::refuse(signed, Error::NotInitialized)
        } else if !l.frozen() {
            Outcome::refuse(signed, Error::NotPaused)
        } else if total_amount <= 0 {
            Outcome::refuse(signed, Error::InvalidAmount)
        } else if client_refund_bps + freelancer_payout_bps != BPS_SCALE {
            Outcome::refuse(signed, Error::InvalidRatio)
        } else if total_amount * client_refund_bps + BPS_SCALE / 2 > i128::MAX {
            Outcome::refuse(signed, Error::ArithmeticOverflow)
        } else {
            match l.instance.job {
                None => Outcome::refuse(signed, Error::NotInitialized),
                Some(meta) => if c.balance <= 0 {
                    Outcome::refuse(signed, Error::EmptyBalance)
                } else if c.balance < total_amount {
                    Outcome::refuse(signed, Error::InsufficientBalance)
                } else {
                    Outcome::announce(
                        signed,
                        Ok(
                            RefundAllocation {
                                client_refund: client_refund as i128,
                                freelancer_payout: (total_amount - client_refund) as i128,
                                client_refund_bps,
                                freelancer_payout_bps,
                            },
                        ),
                        l,
                        |a: RefundAllocation|
                            Event::EmergencyPauseClaimRefund(
                                admin,
                                EmergencyPauseClaimRefundEvent {
                                    claimant: meta.client,
                                    refund_amount: a.client_refund,
                                    freelancer_payout: a.freelancer_payout,
                                    remaining_balance: (c.balance - total_amount) as i128,
                                    timestamp: c.timestamp,
                                },
                            ),
                    )
                },
            }
        }
    }

    /// Computes how a frozen escrow is split, for the admin, and checks that
    /// the contract holds as much.
    pub fn emergency_pause_claim_refund(
        host: &mut Host,
        admin: Address,
        total_amount: i128,
        client_refund_bps: u32,
        freelancer_payout_bps: u32,
    ) -> (r: Result<RefundAllocation, Error>)
        ensures
            old(host)@.comes_to(
                final(host)@,
                r,
                Self::emergency_pause_claim_refund_outcome(
                    old(host)@.ledger,
                    old(host)@.context,
                    admin,
                    total_amount,
                    client_refund_bps,
                    freelancer_payout_bps,
                ),
            ),
            r matches Ok(a) ==> a.client_refund + a.freelancer_payout == total_amount && 0
                <= a.client_refund <= total_amount,
    {
        Self::require_admin_from_instance(host, admin)?;
        Self::assert_emergency_pause_not_locked(host)?;
        if !Self::is_emergency_paused(host)? {
            return Err(Error::NotPaused);
        }
        if total_amount <= 0 {
            return Err(Error::InvalidAmount);
        }
        Self::validate_interest_yield_share_config(client_refund_bps, freelancer_payout_bps)?;
        proof {
            Self::rounded_share_is_a_part(
                total_amount as int,
                client_refund_bps as int,
                BPS_SCALE as int,
            );
        }
        let scaled: i128 = match total_amount.checked_mul(client_refund_bps as i128) {
            Some(scaled) => scaled,
            None => {
                return Err(Error::ArithmeticOverflow);
            },
        };
        let biased: i128 = match scaled.checked_add(BPS_DENOMINATOR / 2) {
            Some(biased) => biased,
            None => {
                return Err(Error::ArithmeticOverflow);
            },
        };
        let client_refund: i128 = biased / BPS_DENOMINATOR;
        let freelancer_payout: i128 = total_amount - client_refund;
        let meta = Self::load_job_meta(host)?;
        if host.balance <= 0 {
            return Err(Error::EmptyBalance);
        }
        let remaining_balance: i128 = host.balance - total_amount;
        if remaining_balance < 0 {
            return Err(Error::InsufficientBalance);
        }
        let timestamp: u64 = host.timestamp;
        host.publish(
            Event::EmergencyPauseClaimRefund(
                admin,
                EmergencyPauseClaimRefundEvent {
                    claimant: meta.client,
                    refund_amount: client_refund,
                    freelancer_payout,
                    remaining_balance,
                    timestamp,
                },
            ),
        );
        Ok(
            RefundAllocation {
                client_refund,
                freelancer_payout,
                client_refund_bps,
                freelancer_payout_bps,
            },
        )
    }
}

} // verus!
