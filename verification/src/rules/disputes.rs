//! Raising a dispute, and deciding it.

use vstd::prelude::*;

use crate::arith::MilestoneEscrow;
use crate::events::{
    ArbitrationSplitAppliedEvent, DisputeRaisedEvent, DisputeResolvedEvent, Event,
};
use crate::host::{Action, Context, LedgerView, PersistentView, TemporaryView};
use crate::types::{Address, Error, MilestoneStatus};

verus! {

/// Either party of a funded job can dispute a milestone that is pending,
/// delivered or partially released, and no other. It is then disputed, which is
/// noted; nothing is paid and nothing else changes.
pub proof fn either_party_can_dispute_what_is_open(
    l: LedgerView,
    c: Context,
    caller: Address,
    index: u32,
)
    ensures
        ({
            let outcome = MilestoneEscrow::raise_dispute_outcome(l, c, caller, index);
            let meta = l.instance.job->0;
            let m = l.persistent.milestones[index];
            &&& super::heard(
                outcome,
                if super::shut(l) is Some {
                    super::shut(l)
                } else if super::nobody(caller) {
                    Some(Error::InvalidAddress)
                } else {
                    None
                },
                seq![caller],
                if l.instance.job is None {
                    Some(Error::NotInitialized)
                } else if caller != meta.client && caller != meta.freelancer {
                    Some(Error::Unauthorized)
                } else if l.temporary.dispute_lock.contains_key(index) {
                    Some(Error::DisputeAlreadyRaised)
                } else if !meta.funded {
                    Some(Error::NotFunded)
                } else if index >= meta.milestone_count
                    || !l.persistent.milestones.contains_key(index) {
                    Some(Error::InvalidMilestone)
                } else if m.amount <= 0 {
                    Some(Error::InvalidAmount)
                } else if m.status == MilestoneStatus::Pending || m.status
                    == MilestoneStatus::Delivered || m.status
                    == MilestoneStatus::PartiallyReleased {
                    None
                } else {
                    Some(Error::InvalidStatus)
                },
            )
            &&& outcome.result matches Ok(step) ==> {
                &&& super::moved(
                    l.persistent.milestones,
                    step.ledger.persistent.milestones,
                    index,
                    MilestoneStatus::Disputed,
                    m.released_amount as int,
                )
                &&& step.ledger =~= LedgerView {
                    persistent: PersistentView {
                        milestones: step.ledger.persistent.milestones,
                        ..l.persistent
                    },
                    temporary: TemporaryView {
                        dispute_flag: l.temporary.dispute_flag.insert(index, true),
                        ..l.temporary
                    },
                    ..l
                }
                &&& step.actions =~= Seq::<Action>::empty()
                &&& step.events =~= seq![
                    Event::DisputeRaised(
                        DisputeRaisedEvent {
                            milestone_index: index,
                            caller,
                            milestone_amount: m.amount,
                            new_status: MilestoneStatus::Disputed,
                        },
                    ),
                ]
            }
        }),
{
}

/// The arbiter decides a disputed milestone for one party, who gets all that was
/// not paid of it yet, or all that the contract has. Where the freelancer wins,
/// that counts as paid and both parties earn a point.
pub proof fn the_winner_gets_what_is_left(
    l: LedgerView,
    c: Context,
    arbiter: Address,
    index: u32,
    release_to_freelancer: bool,
)
    ensures
        ({
            let outcome = MilestoneEscrow::resolve_dispute_outcome(
                l,
                c,
                arbiter,
                index,
                release_to_freelancer,
            );
            let meta = l.instance.job->0;
            let m = l.persistent.milestones[index];
            let unpaid = m.amount - m.released_amount;
            let paid = if unpaid <= c.balance {
                unpaid
            } else {
                c.balance as int
            };
            &&& super::heard(
                outcome,
                if super::shut(l) is Some {
                    super::shut(l)
                } else if super::nobody(arbiter) || arbiter == c.contract {
                    Some(Error::InvalidAddress)
                } else {
                    None
                },
                seq![arbiter],
                if l.instance.job is None {
                    Some(Error::NotInitialized)
                } else if meta.arbiter != arbiter {
                    Some(Error::Unauthorized)
                } else if !meta.funded {
                    Some(Error::NotFunded)
                } else if !l.persistent.milestones.contains_key(index) {
                    Some(Error::InvalidMilestone)
                } else if m.status != MilestoneStatus::Disputed {
                    Some(Error::InvalidStatus)
                } else if unpaid <= 0 || unpaid > i128::MAX || c.balance <= 0 {
                    Some(Error::InvalidAmount)
                } else {
                    None
                },
            )
            &&& outcome.result matches Ok(step) ==> {
                let after = step.ledger.persistent;
                let status = if release_to_freelancer {
                    MilestoneStatus::Released
                } else {
                    MilestoneStatus::Refunded
                };
                &&& super::moved(
                    l.persistent.milestones,
                    after.milestones,
                    index,
                    status,
                    if release_to_freelancer {
                        m.released_amount + paid
                    } else {
                        m.released_amount as int
                    },
                )
                &&& !release_to_freelancer ==> after.reputation == l.persistent.reputation
                &&& release_to_freelancer && super::room_for(
                    l.persistent.reputation,
                    meta.client,
                    meta.freelancer,
                ) ==> super::each_earned(
                    l.persistent.reputation,
                    after.reputation,
                    meta.client,
                    meta.freelancer,
                )
                &&& step.ledger =~= LedgerView {
                    persistent: PersistentView {
                        milestones: after.milestones,
                        reputation: after.reputation,
                        ..l.persistent
                    },
                    ..l
                }
                &&& step.actions =~= seq![
                    Action::Transfer {
                        token: meta.token,
                        from: c.contract,
                        to: if release_to_freelancer {
                            meta.freelancer
                        } else {
                            meta.client
                        },
                        amount: paid as i128,
                    },
                ]
                &&& step.events =~= seq![
                    Event::DisputeResolved(
                        DisputeResolvedEvent {
                            contract_id: c.contract,
                            milestone_index: index,
                            arbiter,
                            client: meta.client,
                            freelancer: meta.freelancer,
                            token: meta.token,
                            amount: unpaid as i128,
                            paid_amount: paid as i128,
                            released_to_freelancer: release_to_freelancer,
                            status,
                        },
                    ),
                ]
            }
        }),
{
}

/// Whether a list of actions pays the client one sum and then the freelancer
/// another, each only where it is something.
pub open spec fn pays_both(
    actions: Seq<Action>,
    contract: Address,
    token: Address,
    client: Address,
    to_client: int,
    freelancer: Address,
    to_freelancer: int,
) -> bool {
    let first = Action::Transfer {
        token,
        from: contract,
        to: client,
        amount: to_client as i128,
    };
    let second = Action::Transfer {
        token,
        from: contract,
        to: freelancer,
        amount: to_freelancer as i128,
    };
    if to_client > 0 && to_freelancer > 0 {
        actions =~= seq![first, second]
    } else if to_client > 0 {
        actions =~= seq![first]
    } else if to_freelancer > 0 {
        actions =~= seq![second]
    } else {
        actions =~= Seq::<Action>::empty()
    }
}

/// The arbiter splits what was not paid yet of a disputed milestone. The client
/// gets the given share of that, rounded down, and the freelancer the rest of
/// it; where the contract has too little, the client is served first. What the
/// freelancer gets counts as paid.
pub proof fn a_split_shares_out_what_is_left(
    l: LedgerView,
    c: Context,
    arbiter: Address,
    index: u32,
    client_refund_bps: u32,
)
    ensures
        ({
            let outcome = MilestoneEscrow::apply_dispute_arbitration_split_outcome(
                l,
                c,
                arbiter,
                index,
                client_refund_bps,
            );
            let meta = l.instance.job->0;
            let m = l.persistent.milestones[index];
            let unpaid = m.amount - m.released_amount;
            let client_share = unpaid * client_refund_bps / 10_000;
            &&& super::heard(
                outcome,
                if l.instance.emergency_paused == Some(true) {
                    Some(Error::Paused)
                } else if l.instance.cancel_lock == Some(true) {
                    Some(Error::EscrowLocked)
                } else if super::nobody(arbiter) || arbiter == c.contract {
                    Some(Error::InvalidAddress)
                } else {
                    None
                },
                seq![arbiter],
                if l.instance.job is None {
                    Some(Error::NotInitialized)
                } else if meta.arbiter != arbiter {
                    Some(Error::Unauthorized)
                } else if !meta.funded {
                    Some(Error::NotFunded)
                } else if !l.persistent.milestones.contains_key(index) {
                    Some(Error::InvalidMilestone)
                } else if m.status != MilestoneStatus::Disputed {
                    Some(Error::InvalidStatus)
                } else if unpaid <= 0 || unpaid > i128::MAX {
                    Some(Error::InvalidAmount)
                } else if client_refund_bps > 10_000 {
                    Some(Error::InvalidRatio)
                } else if unpaid * client_refund_bps > i128::MAX || c.balance <= 0 {
                    Some(Error::InvalidAmount)
                } else {
                    None
                },
            )
            &&& outcome.result matches Ok(step) ==> {
                let after = step.ledger.persistent;
                let refund = step.value.client_refund as int;
                let payout = step.value.freelancer_payout as int;
                let status = if payout == 0 {
                    MilestoneStatus::Refunded
                } else {
                    MilestoneStatus::Released
                };
                // Enough is there: each gets the whole of its share.
                &&& c.balance >= unpaid ==> refund == client_share && payout == unpaid
                    - client_share
                // Too little is there: all of it goes out, to the client first.
                &&& c.balance < unpaid ==> refund + payout == c.balance && refund == (if client_share
                    <= c.balance {
                    client_share
                } else {
                    c.balance as int
                })
                &&& step.value.client_refund_bps == client_refund_bps
                &&& step.value.freelancer_payout_bps == 10_000 - client_refund_bps
                &&& super::moved(
                    l.persistent.milestones,
                    after.milestones,
                    index,
                    status,
                    m.released_amount + payout,
                )
                &&& payout == 0 ==> after.reputation == l.persistent.reputation
                &&& payout != 0 && super::room_for(
                    l.persistent.reputation,
                    meta.client,
                    meta.freelancer,
                ) ==> super::each_earned(
                    l.persistent.reputation,
                    after.reputation,
                    meta.client,
                    meta.freelancer,
                )
                &&& step.ledger =~= LedgerView {
                    persistent: PersistentView {
                        milestones: after.milestones,
                        reputation: after.reputation,
                        ..l.persistent
                    },
                    temporary: TemporaryView {
                        arbitration_split_bps: l.temporary.arbitration_split_bps.insert(
                            index,
                            client_refund_bps,
                        ),
                        milestone_released: if payout == 0 {
                            l.temporary.milestone_released
                        } else {
                            l.temporary.milestone_released.insert(index, true)
                        },
                        ..l.temporary
                    },
                    ..l
                }
                &&& pays_both(
                    step.actions,
                    c.contract,
                    meta.token,
                    meta.client,
                    refund,
                    meta.freelancer,
                    payout,
                )
                &&& step.events =~= seq![
                    Event::DisputeResolved(
                        DisputeResolvedEvent {
                            contract_id: c.contract,
                            milestone_index: index,
                            arbiter,
                            client: meta.client,
                            freelancer: meta.freelancer,
                            token: meta.token,
                            amount: unpaid as i128,
                            paid_amount: (refund + payout) as i128,
                            released_to_freelancer: payout > 0,
                            status,
                        },
                    ),
                    Event::ArbitrationSplitApplied(
                        ArbitrationSplitAppliedEvent {
                            contract_id: c.contract,
                            arbiter,
                            milestone_index: index,
                            client: meta.client,
                            freelancer: meta.freelancer,
                            token: meta.token,
                            client_refund: refund as i128,
                            freelancer_payout: payout as i128,
                            client_refund_bps,
                            freelancer_payout_bps: (10_000 - client_refund_bps) as u32,
                            released_amount: (m.released_amount + payout) as i128,
                            status,
                        },
                    ),
                ]
            }
        }),
{
    let m = l.persistent.milestones[index];
    let unpaid = m.amount - m.released_amount;
    if unpaid > 0 && client_refund_bps <= 10_000 {
        crate::laws::lemma_floor_is_a_part(unpaid, client_refund_bps as int);
    }
}

/// A split that awards all to one party comes to what deciding for that party
/// pays, while the contract has enough.
pub proof fn a_split_of_all_pays_like_a_decision(
    l: LedgerView,
    c: Context,
    arbiter: Address,
    index: u32,
)
    requires
        c.balance >= l.persistent.milestones[index].amount
            - l.persistent.milestones[index].released_amount,
    ensures
        ({
            let refunded = MilestoneEscrow::apply_dispute_arbitration_split_outcome(
                l,
                c,
                arbiter,
                index,
                10_000,
            );
            let refund = MilestoneEscrow::resolve_dispute_outcome(l, c, arbiter, index, false);
            let released = MilestoneEscrow::apply_dispute_arbitration_split_outcome(
                l,
                c,
                arbiter,
                index,
                0,
            );
            let release = MilestoneEscrow::resolve_dispute_outcome(l, c, arbiter, index, true);
            &&& refunded.result is Ok && refund.result is Ok ==> refunded.result->Ok_0.actions
                =~= refund.result->Ok_0.actions
                && refunded.result->Ok_0.ledger.persistent.milestones
                == refund.result->Ok_0.ledger.persistent.milestones
            &&& released.result is Ok && release.result is Ok ==> released.result->Ok_0.actions
                =~= release.result->Ok_0.actions && released.result->Ok_0.ledger.persistent
                == release.result->Ok_0.ledger.persistent
        }),
{
    let refunded = MilestoneEscrow::apply_dispute_arbitration_split_outcome(
        l,
        c,
        arbiter,
        index,
        10_000,
    );
    let released = MilestoneEscrow::apply_dispute_arbitration_split_outcome(
        l,
        c,
        arbiter,
        index,
        0,
    );
    a_split_shares_out_what_is_left(l, c, arbiter, index, 10_000);
    a_split_shares_out_what_is_left(l, c, arbiter, index, 0);
    the_winner_gets_what_is_left(l, c, arbiter, index, true);
    the_winner_gets_what_is_left(l, c, arbiter, index, false);
    let refund = MilestoneEscrow::resolve_dispute_outcome(l, c, arbiter, index, false);
    let release = MilestoneEscrow::resolve_dispute_outcome(l, c, arbiter, index, true);
    if refunded.result is Ok && refund.result is Ok {
        assert(refunded.result->Ok_0.ledger.persistent.milestones
            =~= refund.result->Ok_0.ledger.persistent.milestones);
    }
    if released.result is Ok && release.result is Ok {
        assert(released.result->Ok_0.ledger.persistent.milestones
            =~= release.result->Ok_0.ledger.persistent.milestones);
        assert(released.result->Ok_0.ledger.persistent
            =~= release.result->Ok_0.ledger.persistent);
    }
}

} // verus!
