//! What the admin settles over the heads of the parties.

use vstd::prelude::*;

use crate::arith::MilestoneEscrow;
use crate::events::{
    AdminOverrideRefundEvent, AdminOverrideReleaseEvent, AdminOverrideStreamingReleaseEvent, Event,
    MilestoneTimeExtensionEvent, MultisigAdminOverrideRefundEvent,
    MultisigAdminOverrideReleaseEvent,
};
use crate::host::{Action, Context, InstanceView, LedgerView, PersistentView, TemporaryView};
use crate::types::{Address, Error, MilestoneStatus};

verus! {

/// Why the admin cannot settle a milestone, if they cannot: nothing is held for
/// the job, there is no such milestone, it is settled, or nothing is left of it.
pub open spec fn not_settled(l: LedgerView, index: u32) -> Option<Error> {
    let meta = l.instance.job->0;
    let m = l.persistent.milestones[index];
    if l.instance.job is None {
        Some(Error::NotInitialized)
    } else if !meta.funded {
        Some(Error::NotFunded)
    } else if index >= meta.milestone_count || !l.persistent.milestones.contains_key(index) {
        Some(Error::InvalidMilestone)
    } else if m.status == MilestoneStatus::Released || m.status == MilestoneStatus::Refunded {
        Some(Error::InvalidStatus)
    } else if m.amount <= m.released_amount || m.amount - m.released_amount > i128::MAX {
        Some(Error::InvalidAmount)
    } else {
        None
    }
}

/// The yield on record once it is reset, where there is any.
pub open spec fn reset(accrued: Option<i128>) -> Option<i128> {
    if accrued is None {
        None
    } else {
        Some(0)
    }
}

/// The admin can release any open milestone: the freelancer is paid just what is
/// left of it.
pub proof fn the_admin_releases_what_is_left(
    l: LedgerView,
    c: Context,
    admin: Address,
    index: u32,
)
    ensures
        ({
            let outcome = MilestoneEscrow::admin_override_release_outcome(l, c, admin, index);
            let meta = l.instance.job->0;
            let m = l.persistent.milestones[index];
            let unpaid = (m.amount - m.released_amount) as i128;
            &&& super::heard(
                outcome,
                None,
                seq![admin],
                if super::not_admin(l.persistent.admin, admin) is Some {
                    super::not_admin(l.persistent.admin, admin)
                } else {
                    not_settled(l, index)
                },
            )
            &&& outcome.result matches Ok(step) ==> {
                let after = step.ledger.persistent;
                &&& super::moved(
                    l.persistent.milestones,
                    after.milestones,
                    index,
                    MilestoneStatus::Released,
                    m.amount as int,
                )
                &&& step.ledger =~= LedgerView {
                    persistent: PersistentView {
                        milestones: after.milestones,
                        yield_accrued: reset(l.persistent.yield_accrued),
                        ..l.persistent
                    },
                    temporary: TemporaryView {
                        milestone_released: l.temporary.milestone_released.insert(index, true),
                        ..l.temporary
                    },
                    ..l
                }
                &&& step.actions =~= seq![
                    Action::Transfer {
                        token: meta.token,
                        from: c.contract,
                        to: meta.freelancer,
                        amount: unpaid,
                    },
                ]
                &&& step.events =~= seq![
                    Event::AdminOverrideRelease(
                        AdminOverrideReleaseEvent {
                            admin,
                            contract_id: c.contract,
                            milestone_index: index,
                            freelancer: meta.freelancer,
                            token: meta.token,
                            amount: unpaid,
                        },
                    ),
                ]
            }
        }),
{
}

/// While the escrow is not paused the admin can refund any open milestone: the
/// client gets back just what is left of it.
pub proof fn the_admin_refunds_what_is_left(
    l: LedgerView,
    c: Context,
    admin: Address,
    index: u32,
)
    ensures
        ({
            let outcome = MilestoneEscrow::admin_override_refund_outcome(l, c, admin, index);
            let meta = l.instance.job->0;
            let m = l.persistent.milestones[index];
            let unpaid = (m.amount - m.released_amount) as i128;
            &&& super::heard(
                outcome,
                None,
                seq![admin],
                if super::not_admin(l.persistent.admin, admin) is Some {
                    super::not_admin(l.persistent.admin, admin)
                } else if l.instance.paused == Some(true) {
                    Some(Error::Paused)
                } else {
                    not_settled(l, index)
                },
            )
            &&& outcome.result matches Ok(step) ==> {
                let after = step.ledger.persistent;
                &&& super::moved(
                    l.persistent.milestones,
                    after.milestones,
                    index,
                    MilestoneStatus::Refunded,
                    m.amount as int,
                )
                &&& step.ledger =~= LedgerView {
                    persistent: PersistentView {
                        milestones: after.milestones,
                        yield_accrued: reset(l.persistent.yield_accrued),
                        ..l.persistent
                    },
                    ..l
                }
                &&& step.actions =~= seq![
                    Action::Transfer {
                        token: meta.token,
                        from: c.contract,
                        to: meta.client,
                        amount: unpaid,
                    },
                ]
                &&& step.events =~= seq![
                    Event::AdminOverrideRefund(
                        AdminOverrideRefundEvent {
                            admin,
                            contract_id: c.contract,
                            milestone_index: index,
                            client: meta.client,
                            token: meta.token,
                            amount: unpaid,
                        },
                    ),
                ]
            }
        }),
{
}

/// The admin can settle a disputed milestone by the time that has passed: of what
/// is left the freelancer earns that share, rounded to the nearest, and the
/// client the rest. Where the contract holds enough, each is paid just that.
pub proof fn a_dispute_is_settled_by_the_time_that_passed(
    l: LedgerView,
    c: Context,
    admin: Address,
    index: u32,
    elapsed_seconds: i128,
    total_seconds: i128,
)
    ensures
        ({
            let outcome = MilestoneEscrow::admin_override_streaming_release_outcome(
                l,
                c,
                admin,
                index,
                elapsed_seconds,
                total_seconds,
            );
            let meta = l.instance.job->0;
            let m = l.persistent.milestones[index];
            let unpaid = m.amount - m.released_amount;
            let early = if super::not_admin(l.persistent.admin, admin) is Some {
                super::not_admin(l.persistent.admin, admin)
            } else if l.instance.job is None {
                Some(Error::NotInitialized)
            } else if !meta.funded {
                Some(Error::NotFunded)
            } else if index >= meta.milestone_count
                || !l.persistent.milestones.contains_key(index) {
                Some(Error::InvalidMilestone)
            } else if m.status != MilestoneStatus::Disputed {
                Some(Error::InvalidStatus)
            } else if unpaid <= 0 || unpaid > i128::MAX {
                Some(Error::InvalidAmount)
            } else {
                None
            };
            &&& super::heard(
                outcome,
                None,
                if early is Some {
                    seq![admin]
                } else {
                    seq![admin, c.contract, meta.client, meta.freelancer]
                },
                if early is Some {
                    early
                } else if total_seconds <= 0 || elapsed_seconds < 0 || elapsed_seconds
                    > total_seconds {
                    Some(Error::InvalidRatio)
                } else if unpaid * elapsed_seconds + total_seconds as int / 2 > i128::MAX
                    || c.balance <= 0 {
                    Some(Error::InvalidAmount)
                } else {
                    None
                },
            )
            &&& outcome.result matches Ok(step) ==> step.events.len() == 2 && (
            step.events[0] matches Event::MilestoneTimeExtension(e) && {
                let after = step.ledger.persistent;
                let earned = e.freelancer_share as int;
                let payout = step.value.first as int;
                let refund = step.value.second as int;
                &&& super::nearest(earned, unpaid, elapsed_seconds as int, total_seconds as int)
                &&& 0 <= earned <= unpaid
                &&& e == (MilestoneTimeExtensionEvent {
                    amount: unpaid as i128,
                    elapsed_seconds,
                    total_seconds,
                    freelancer_share: earned as i128,
                    client_refund: (unpaid - earned) as i128,
                })
                // Enough is there: each gets the whole of its share.
                &&& c.balance >= unpaid ==> payout == earned && refund == unpaid - earned
                // Too little is there: all of it goes out, to the client first.
                &&& c.balance < unpaid ==> refund + payout == c.balance && refund == (if unpaid
                    - earned <= c.balance {
                    unpaid - earned
                } else {
                    c.balance as int
                })
                &&& super::moved(
                    l.persistent.milestones,
                    after.milestones,
                    index,
                    if payout == 0 {
                        MilestoneStatus::Refunded
                    } else {
                        MilestoneStatus::Released
                    },
                    m.released_amount + payout,
                )
                &&& payout == 0 ==> after.reputation == l.persistent.reputation
                &&& payout != 0 && super::room_for(
                    l.persistent.reputation,
                    meta.client,
                    meta.freelancer,
                ) ==> super::each_earned(
                    l.persistent.reputation,
                    after.reputation,
                    meta.client,
                    meta.freelancer,
                )
                &&& step.ledger =~= LedgerView {
                    instance: InstanceView { time_ext_execution_lock: None, ..l.instance },
                    persistent: PersistentView {
                        milestones: after.milestones,
                        reputation: after.reputation,
                        ..l.persistent
                    },
                    temporary: TemporaryView {
                        milestone_released: if payout == 0 {
                            l.temporary.milestone_released
                        } else {
                            l.temporary.milestone_released.insert(index, true)
                        },
                        ..l.temporary
                    },
                }
                &&& super::disputes::pays_both(
                    step.actions,
                    c.contract,
                    meta.token,
                    meta.client,
                    refund,
                    meta.freelancer,
                    payout,
                )
                &&& step.events[1] == Event::AdminOverrideStreamingRelease(
                    AdminOverrideStreamingReleaseEvent {
                        admin,
                        contract_id: c.contract,
                        milestone_index: index,
                        client: meta.client,
                        freelancer: meta.freelancer,
                        token: meta.token,
                        client_refund: refund as i128,
                        freelancer_payout: payout as i128,
                    },
                )
            })
        }),
{
    let m = l.persistent.milestones[index];
    let unpaid = m.amount - m.released_amount;
    if unpaid > 0 && total_seconds > 0 && 0 <= elapsed_seconds <= total_seconds {
        super::lemma_rounded_is_nearest(unpaid, elapsed_seconds as int, total_seconds as int);
        MilestoneEscrow::rounded_share_is_a_part(
            unpaid,
            elapsed_seconds as int,
            total_seconds as int,
        );
    }
}

/// Why the admin cannot settle a milestone out of the lock of the signers, if
/// they cannot.
pub open spec fn not_unlocked(l: LedgerView, admin: Address, index: u32) -> Option<Error> {
    let meta = l.instance.job->0;
    let m = l.persistent.milestones[index];
    if super::not_admin(l.persistent.admin, admin) is Some {
        super::not_admin(l.persistent.admin, admin)
    } else if l.instance.multisig_locked != Some(true) {
        Some(Error::InvalidStatus)
    } else if l.instance.job is None {
        Some(Error::NotInitialized)
    } else if !meta.funded {
        Some(Error::NotFunded)
    } else if index >= meta.milestone_count || !l.persistent.milestones.contains_key(index) {
        Some(Error::InvalidMilestone)
    } else if m.status == MilestoneStatus::Released || m.status == MilestoneStatus::Refunded {
        Some(Error::InvalidStatus)
    } else if m.released_amount < 0 || m.amount <= m.released_amount {
        Some(Error::InvalidAmount)
    } else {
        None
    }
}

/// Out of the lock of the signers the admin can release an open milestone: the
/// freelancer is paid just what is left of it, and the lock is lifted.
pub proof fn a_locked_milestone_is_released(
    l: LedgerView,
    c: Context,
    admin: Address,
    index: u32,
)
    ensures
        ({
            let outcome = MilestoneEscrow::multisig_admin_override_release_outcome(
                l,
                c,
                admin,
                index,
            );
            let meta = l.instance.job->0;
            let m = l.persistent.milestones[index];
            let unpaid = (m.amount - m.released_amount) as i128;
            &&& super::heard(outcome, None, seq![admin], not_unlocked(l, admin, index))
            &&& outcome.result matches Ok(step) ==> {
                let after = step.ledger.persistent;
                &&& super::moved(
                    l.persistent.milestones,
                    after.milestones,
                    index,
                    MilestoneStatus::Released,
                    m.amount as int,
                )
                &&& step.ledger =~= LedgerView {
                    instance: InstanceView { multisig_locked: Some(false), ..l.instance },
                    persistent: PersistentView { milestones: after.milestones, ..l.persistent },
                    ..l
                }
                &&& step.actions =~= seq![
                    Action::Transfer {
                        token: meta.token,
                        from: c.contract,
                        to: meta.freelancer,
                        amount: unpaid,
                    },
                ]
                &&& step.events =~= seq![
                    Event::MultisigAdminOverrideRelease(
                        MultisigAdminOverrideReleaseEvent {
                            admin,
                            contract_id: c.contract,
                            milestone_index: index,
                            freelancer: meta.freelancer,
                            token: meta.token,
                            amount: unpaid,
                        },
                    ),
                ]
            }
        }),
{
}

/// Out of the lock of the signers the admin can refund an open milestone: the
/// client gets back just what is left of it, and the lock is gone.
pub proof fn a_locked_milestone_is_refunded(
    l: LedgerView,
    c: Context,
    admin: Address,
    index: u32,
)
    ensures
        ({
            let outcome = MilestoneEscrow::multisig_admin_override_refund_outcome(
                l,
                c,
                admin,
                index,
            );
            let meta = l.instance.job->0;
            let m = l.persistent.milestones[index];
            let unpaid = (m.amount - m.released_amount) as i128;
            &&& super::heard(outcome, None, seq![admin], not_unlocked(l, admin, index))
            &&& outcome.result matches Ok(step) ==> {
                let after = step.ledger.persistent;
                &&& super::moved(
                    l.persistent.milestones,
                    after.milestones,
                    index,
                    MilestoneStatus::Refunded,
                    m.amount as int,
                )
                &&& step.ledger =~= LedgerView {
                    instance: InstanceView { multisig_locked: None, ..l.instance },
                    persistent: PersistentView { milestones: after.milestones, ..l.persistent },
                    ..l
                }
                &&& step.actions =~= seq![
                    Action::Transfer {
                        token: meta.token,
                        from: c.contract,
                        to: meta.client,
                        amount: unpaid,
                    },
                ]
                &&& step.events =~= seq![
                    Event::MultisigAdminOverrideRefund(
                        MultisigAdminOverrideRefundEvent {
                            admin,
                            contract_id: c.contract,
                            milestone_index: index,
                            client: meta.client,
                            token: meta.token,
                            amount: unpaid,
                        },
                    ),
                ]
            }
        }),
{
}

} // verus!
