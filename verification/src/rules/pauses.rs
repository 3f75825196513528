//! Freezing and pausing a job, and lifting that again.

use vstd::prelude::*;

use crate::arith::MilestoneEscrow;
use crate::events::{
    EmergencyPauseAdminOverrideEvent, EmergencyPauseClaimRefundEvent, EmergencyPausedEvent,
    EmergencyUnpausedEvent, EscrowPausedEvent, EscrowResumedEvent, Event,
    SplitRefundCalculatedEvent,
};
use crate::host::{Action, Context, InstanceView, LedgerView};
use crate::types::{Address, Error};

verus! {

/// Both parties together can freeze a job that is not frozen; the step is no
/// longer under way then.
pub proof fn both_parties_freeze(
    l: LedgerView,
    c: Context,
    client: Address,
    freelancer: Address,
)
    ensures
        ({
            let outcome = MilestoneEscrow::emergency_pause_outcome(l, c, client, freelancer);
            let meta = l.instance.job->0;
            &&& super::heard(
                outcome,
                if l.instance.job is None {
                    Some(Error::NotInitialized)
                } else if client != meta.client || freelancer != meta.freelancer {
                    Some(Error::Unauthorized)
                } else {
                    None
                },
                seq![client, freelancer],
                if l.instance.emergency_pause_lock == Some(true) {
                    Some(Error::EmergencyPauseInProgress)
                } else if l.instance.emergency_paused is None {
                    Some(Error::NotInitialized)
                } else if l.instance.emergency_paused == Some(true) {
                    Some(Error::AlreadyPaused)
                } else {
                    None
                },
            )
            &&& outcome.result matches Ok(step) ==> {
                &&& step.ledger =~= LedgerView {
                    instance: InstanceView {
                        emergency_paused: Some(true),
                        emergency_pause_lock: Some(false),
                        ..l.instance
                    },
                    ..l
                }
                &&& step.actions =~= Seq::<Action>::empty()
                &&& step.events =~= seq![
                    Event::EmergencyPaused(
                        EmergencyPausedEvent { client, freelancer, contract_id: c.contract },
                    ),
                ]
            }
        }),
{
}

/// The admin can lift a freeze.
pub proof fn the_admin_lifts_a_freeze(l: LedgerView, c: Context, admin: Address)
    ensures
        ({
            let outcome = MilestoneEscrow::emergency_unpause_outcome(l, c, admin);
            &&& super::heard(
                outcome,
                None,
                seq![admin],
                if super::not_admin(l.persistent.admin, admin) is Some {
                    super::not_admin(l.persistent.admin, admin)
                } else if l.instance.emergency_paused is None {
                    Some(Error::NotInitialized)
                } else if l.instance.emergency_paused == Some(false) {
                    Some(Error::NotPaused)
                } else if l.instance.emergency_pause_lock == Some(true) {
                    Some(Error::EmergencyPauseInProgress)
                } else {
                    None
                },
            )
            &&& outcome.result matches Ok(step) ==> {
                &&& step.ledger =~= LedgerView {
                    instance: InstanceView { emergency_paused: Some(false), ..l.instance },
                    ..l
                }
                &&& step.actions =~= Seq::<Action>::empty()
                &&& step.events =~= seq![
                    Event::EmergencyUnpaused(
                        EmergencyUnpausedEvent { admin, contract_id: c.contract },
                    ),
                ]
            }
        }),
{
}

/// A freeze and its lifting leave a job as it was, but that no freeze is under
/// way.
pub proof fn lifting_undoes_freezing(
    l: LedgerView,
    c: Context,
    later: Context,
    client: Address,
    freelancer: Address,
    admin: Address,
)
    requires
        MilestoneEscrow::emergency_pause_outcome(l, c, client, freelancer).result is Ok,
        l.persistent.admin == Some(admin),
    ensures
        ({
            let frozen = MilestoneEscrow::emergency_pause_outcome(
                l,
                c,
                client,
                freelancer,
            ).result->Ok_0.ledger;
            let lifted = MilestoneEscrow::emergency_unpause_outcome(frozen, later, admin);
            &&& lifted.result is Ok
            &&& lifted.result->Ok_0.ledger =~= LedgerView {
                instance: InstanceView { emergency_pause_lock: Some(false), ..l.instance },
                ..l
            }
        }),
{
    let frozen = MilestoneEscrow::emergency_pause_outcome(
        l,
        c,
        client,
        freelancer,
    ).result->Ok_0.ledger;
    both_parties_freeze(l, c, client, freelancer);
    the_admin_lifts_a_freeze(frozen, later, admin);
}

/// The admin can freeze or unfreeze a job alone, where that makes a difference.
pub proof fn the_admin_freezes_or_unfreezes(
    l: LedgerView,
    c: Context,
    admin: Address,
    paused: bool,
)
    ensures
        ({
            let outcome = MilestoneEscrow::emergency_pause_admin_override_outcome(
                l,
                c,
                admin,
                paused,
            );
            let was = l.instance.emergency_paused == Some(true);
            &&& super::heard(
                outcome,
                None,
                seq![admin],
                if super::not_admin(l.persistent.admin, admin) is Some {
                    super::not_admin(l.persistent.admin, admin)
                } else if was && paused || !was && !paused {
                    Some(Error::InvalidStatus)
                } else {
                    None
                },
            )
            &&& outcome.result matches Ok(step) ==> {
                &&& step.ledger =~= LedgerView {
                    instance: InstanceView { emergency_paused: Some(paused), ..l.instance },
                    ..l
                }
                &&& step.actions =~= Seq::<Action>::empty()
                &&& step.events =~= seq![
                    Event::EmergencyPauseAdminOverride(
                        EmergencyPauseAdminOverrideEvent {
                            admin,
                            contract_id: c.contract,
                            paused,
                            previous: was,
                        },
                    ),
                ]
            }
        }),
{
}

/// The admin can pause a job; pausing a paused one changes nothing.
pub proof fn the_admin_pauses(l: LedgerView, c: Context, admin: Address)
    ensures
        ({
            let outcome = MilestoneEscrow::admin_pause_escrow_outcome(l, c, admin);
            &&& super::heard(
                outcome,
                None,
                seq![admin],
                if super::not_admin(l.persistent.admin, admin) is Some {
                    super::not_admin(l.persistent.admin, admin)
                } else if l.instance.emergency_pause_lock == Some(true) {
                    Some(Error::EmergencyPauseInProgress)
                } else {
                    None
                },
            )
            &&& outcome.result matches Ok(step) ==> {
                &&& step.ledger =~= LedgerView {
                    instance: InstanceView { paused: Some(true), ..l.instance },
                    ..l
                }
                &&& step.actions =~= Seq::<Action>::empty()
                &&& step.events =~= (if l.instance.paused == Some(true) {
                    Seq::empty()
                } else {
                    seq![
                        Event::EscrowPaused(EscrowPausedEvent { admin, contract_id: c.contract }),
                    ]
                })
            }
        }),
{
}

/// The admin, as they are stored with the contract, can resume a paused job.
pub proof fn the_admin_resumes(l: LedgerView, c: Context, admin: Address)
    ensures
        ({
            let outcome = MilestoneEscrow::admin_resume_escrow_outcome(l, c, admin);
            &&& super::heard(
                outcome,
                None,
                seq![admin],
                if super::not_admin(l.instance.admin, admin) is Some {
                    super::not_admin(l.instance.admin, admin)
                } else if l.instance.paused != Some(true) {
                    Some(Error::NotPaused)
                } else if l.instance.emergency_pause_lock == Some(true) {
                    Some(Error::EmergencyPauseInProgress)
                } else {
                    None
                },
            )
            &&& outcome.result matches Ok(step) ==> {
                &&& step.ledger =~= LedgerView {
                    instance: InstanceView {
                        paused: Some(false),
                        emergency_pause_lock: Some(false),
                        ..l.instance
                    },
                    ..l
                }
                &&& step.actions =~= Seq::<Action>::empty()
                &&& step.events =~= seq![
                    Event::EscrowResumed(EscrowResumedEvent { admin, contract_id: c.contract }),
                ]
            }
        }),
{
}

/// How an amount would be split in an emergency is computed and announced at any
/// time.
pub proof fn an_emergency_split_is_announced(
    l: LedgerView,
    total_amount: i128,
    client_bps: u32,
    freelancer_bps: u32,
)
    ensures
        ({
            let outcome = MilestoneEscrow::emergency_pause_split_refund_outcome(
                l,
                total_amount,
                client_bps,
                freelancer_bps,
            );
            let total = total_amount as int;
            &&& super::heard(
                outcome,
                super::no_split(total, client_bps as int, freelancer_bps as int),
                Seq::empty(),
                None,
            )
            &&& outcome.result matches Ok(step) ==> {
                &&& super::is_split(step.value, total, client_bps, freelancer_bps)
                &&& step.ledger =~= l
                &&& step.actions =~= Seq::<Action>::empty()
                &&& step.events =~= seq![
                    Event::EmergencyPauseSplitRefund(
                        SplitRefundCalculatedEvent {
                            client_refund: step.value.client_refund,
                            freelancer_payout: step.value.freelancer_payout,
                            client_refund_bps: client_bps,
                            freelancer_payout_bps: freelancer_bps,
                        },
                    ),
                ]
            }
        }),
{
    super::an_amount_is_split_to_the_nearest(total_amount, client_bps, freelancer_bps);
}

/// While a job is frozen the admin can have a split of an amount announced that
/// the contract holds, and what would remain.
pub proof fn an_emergency_claim_is_announced(
    l: LedgerView,
    c: Context,
    admin: Address,
    total_amount: i128,
    client_bps: u32,
    freelancer_bps: u32,
)
    ensures
        ({
            let outcome = MilestoneEscrow::emergency_pause_claim_refund_outcome(
                l,
                c,
                admin,
                total_amount,
                client_bps,
                freelancer_bps,
            );
            let total = total_amount as int;
            &&& super::heard(
                outcome,
                None,
                seq![admin],
                if super::not_admin(l.instance.admin, admin) is Some {
                    super::not_admin(l.instance.admin, admin)
                } else if l.instance.emergency_pause_lock == Some(true) {
                    Some(Error::EmergencyPauseInProgress)
                } else if l.instance.emergency_paused is None {
                    Some(Error::NotInitialized)
                } else if l.instance.emergency_paused != Some(true) {
                    Some(Error::NotPaused)
                } else if total <= 0 {
                    Some(Error::InvalidAmount)
                } else if client_bps + freelancer_bps != 10_000 {
                    Some(Error::InvalidRatio)
                } else if total * client_bps + 5_000 > i128::MAX {
                    Some(Error::ArithmeticOverflow)
                } else if l.instance.job is None {
                    Some(Error::NotInitialized)
                } else if c.balance <= 0 {
                    Some(Error::EmptyBalance)
                } else if c.balance < total {
                    Some(Error::InsufficientBalance)
                } else {
                    None
                },
            )
            &&& outcome.result matches Ok(step) ==> {
                &&& super::is_split(step.value, total, client_bps, freelancer_bps)
                &&& step.ledger =~= l
                &&& step.actions =~= Seq::<Action>::empty()
                &&& step.events =~= seq![
                    Event::EmergencyPauseClaimRefund(
                        admin,
                        EmergencyPauseClaimRefundEvent {
                            claimant: l.instance.job->0.client,
                            refund_amount: step.value.client_refund,
                            freelancer_payout: step.value.freelancer_payout,
                            remaining_balance: (c.balance - total) as i128,
                            timestamp: c.timestamp,
                        },
                    ),
                ]
            }
        }),
{
    if total_amount > 0 && client_bps <= 10_000 {
        super::lemma_rounded_is_nearest(total_amount as int, client_bps as int, 10_000);
        MilestoneEscrow::rounded_share_is_a_part(total_amount as int, client_bps as int, 10_000);
    }
}

} // verus!
