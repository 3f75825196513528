//! Withholding tax from a milestone, and settling what was withheld.

use vstd::prelude::*;

use crate::arith::MilestoneEscrow;
use crate::events::{
    AdminOverrideTaxRefundEvent, AdminOverrideTaxReleaseEvent, AdminOverrideTaxSplitRefundEvent,
    Event, TaxWithholdingAppliedEvent, TaxWithholdingDeductionsEvent,
    TaxWithholdingSplitRefundEvent,
};
use crate::host::{Action, Context, LedgerView, PersistentView};
use crate::types::{Address, Error, MilestoneStatus, RefundAllocation};

verus! {

/// With the signatures of both parties, tax is withheld from what was not paid
/// yet of an open milestone: the tax is the given share of just that, rounded to
/// the nearest, and the net amount the rest. It is recorded, and nothing else
/// changes.
pub proof fn tax_is_withheld_from_what_is_left(
    l: LedgerView,
    c: Context,
    index: u32,
    tax_rate_bps: u32,
)
    ensures
        ({
            let outcome = MilestoneEscrow::tax_withholding_deductions_outcome(
                l,
                c,
                index,
                tax_rate_bps,
            );
            let meta = l.instance.job->0;
            let m = l.persistent.milestones[index];
            let unpaid = m.amount - m.released_amount;
            &&& super::heard(
                outcome,
                if l.instance.tax_withholding_execution_lock == Some(true) {
                    Some(Error::TaxWithholdingInProgress)
                } else if l.instance.job is None {
                    Some(Error::NotInitialized)
                } else {
                    None
                },
                seq![meta.client, meta.freelancer],
                if !meta.funded {
                    Some(Error::NotFunded)
                } else if index >= meta.milestone_count {
                    Some(Error::InvalidMilestone)
                } else if tax_rate_bps > 10_000 {
                    Some(Error::InvalidRatio)
                } else if !l.persistent.milestones.contains_key(index) {
                    Some(Error::InvalidMilestone)
                } else if m.status == MilestoneStatus::Disputed || m.status
                    == MilestoneStatus::Released || m.status == MilestoneStatus::Refunded {
                    Some(Error::InvalidStatus)
                } else if c.balance <= 0 || unpaid <= 0 || unpaid > i128::MAX || unpaid
                    * tax_rate_bps + 5_000 > i128::MAX {
                    Some(Error::InvalidAmount)
                } else {
                    None
                },
            )
            &&& outcome.result matches Ok(step) ==> {
                let record = step.value;
                &&& record.gross_amount == unpaid
                &&& super::nearest(
                    record.tax_amount as int,
                    unpaid,
                    tax_rate_bps as int,
                    10_000,
                )
                &&& 0 <= record.tax_amount <= unpaid
                &&& record.net_amount == unpaid - record.tax_amount
                &&& record.tax_rate_bps == tax_rate_bps
                &&& step.ledger.persistent.tax_withholding[index] == record
                &&& record.gross_amount == super::holdings::left(
                    step.ledger.persistent.milestones[index],
                )
                &&& step.ledger =~= LedgerView {
                    persistent: PersistentView {
                        tax_withholding: l.persistent.tax_withholding.insert(index, record),
                        ..l.persistent
                    },
                    ..l
                }
                &&& step.actions =~= Seq::<Action>::empty()
                &&& step.events =~= seq![
                    Event::TaxWithholdingApplied(
                        TaxWithholdingAppliedEvent {
                            contract_id: c.contract,
                            milestone_index: index,
                            gross_amount: record.gross_amount,
                            tax_amount: record.tax_amount,
                            net_amount: record.net_amount,
                            tax_rate_bps,
                        },
                    ),
                ]
            }
        }),
{
    let m = l.persistent.milestones[index];
    let unpaid = m.amount - m.released_amount;
    super::lemma_rounded_is_nearest(unpaid, tax_rate_bps as int, 10_000);
    if unpaid > 0 && tax_rate_bps <= 10_000 {
        MilestoneEscrow::rounded_share_is_a_part(unpaid, tax_rate_bps as int, 10_000);
    }
}

/// For the admin the tax on the whole of a milestone is computed, rounded down,
/// and announced; nothing is recorded.
pub proof fn the_admin_is_told_the_tax(
    l: LedgerView,
    c: Context,
    admin: Address,
    index: u32,
    tax_rate_bps: u32,
)
    ensures
        ({
            let outcome = MilestoneEscrow::admin_tax_withholding_deductions_outcome(
                l,
                c,
                admin,
                index,
                tax_rate_bps,
            );
            let meta = l.instance.job->0;
            let m = l.persistent.milestones[index];
            &&& super::heard(
                outcome,
                None,
                seq![admin],
                if super::not_admin(l.persistent.admin, admin) is Some {
                    super::not_admin(l.persistent.admin, admin)
                } else if l.instance.job is None {
                    Some(Error::NotInitialized)
                } else if !meta.funded {
                    Some(Error::NotFunded)
                } else if index >= meta.milestone_count
                    || !l.persistent.milestones.contains_key(index) {
                    Some(Error::InvalidMilestone)
                } else if m.amount <= 0 {
                    Some(Error::InvalidAmount)
                } else if tax_rate_bps > 10_000 {
                    Some(Error::InvalidRatio)
                } else if c.balance <= 0 || m.amount * tax_rate_bps > i128::MAX {
                    Some(Error::InvalidAmount)
                } else {
                    None
                },
            )
            &&& outcome.result matches Ok(step) ==> {
                let (gross, tax, net) = step.value;
                &&& gross == m.amount
                &&& tax * 10_000 <= m.amount * tax_rate_bps < tax * 10_000 + 10_000
                &&& tax + net == gross
                &&& step.ledger =~= l
                &&& step.actions =~= Seq::<Action>::empty()
                &&& step.events =~= seq![
                    Event::TaxWithholdingDeductions(
                        TaxWithholdingDeductionsEvent {
                            admin,
                            contract_id: c.contract,
                            milestone_index: index,
                            gross_amount: gross,
                            tax_amount: tax,
                            net_amount: net,
                            tax_rate_bps,
                        },
                    ),
                ]
            }
        }),
{
    let m = l.persistent.milestones[index];
    if m.amount > 0 && tax_rate_bps <= 10_000 {
        crate::laws::lemma_floor_is_a_part(m.amount as int, tax_rate_bps as int);
    }
}

/// Settling a withholding for the freelancer pays the recorded net amount; the
/// milestone is released and the record gone.
pub proof fn a_release_pays_the_recorded_net(
    l: LedgerView,
    c: Context,
    admin: Address,
    index: u32,
)
    ensures
        ({
            let outcome = MilestoneEscrow::admin_override_tax_release_outcome(l, c, admin, index);
            let meta = l.instance.job->0;
            let m = l.persistent.milestones[index];
            let record = l.persistent.tax_withholding[index];
            &&& super::heard(
                outcome,
                if l.persistent.admin is None {
                    Some(Error::NotInitialized)
                } else {
                    None
                },
                seq![admin],
                if l.persistent.admin->0 != admin {
                    Some(Error::Unauthorized)
                } else if l.instance.job is None {
                    Some(Error::NotInitialized)
                } else if !meta.funded {
                    Some(Error::NotFunded)
                } else if index >= meta.milestone_count {
                    Some(Error::InvalidMilestone)
                } else if !l.persistent.tax_withholding.contains_key(index) {
                    Some(Error::InvalidStatus)
                } else if !l.persistent.milestones.contains_key(index) {
                    Some(Error::InvalidMilestone)
                } else if m.status == MilestoneStatus::Released || m.status
                    == MilestoneStatus::Refunded {
                    Some(Error::InvalidStatus)
                } else if record.net_amount <= 0 {
                    Some(Error::InvalidAmount)
                } else {
                    None
                },
            )
            &&& outcome.result matches Ok(step) ==> {
                let after = step.ledger.persistent;
                &&& super::moved(
                    l.persistent.milestones,
                    after.milestones,
                    index,
                    MilestoneStatus::Released,
                    m.amount as int,
                )
                &&& step.ledger =~= LedgerView {
                    persistent: PersistentView {
                        milestones: after.milestones,
                        tax_withholding: l.persistent.tax_withholding.remove(index),
                        ..l.persistent
                    },
                    ..l
                }
                &&& step.actions =~= seq![
                    Action::Transfer {
                        token: meta.token,
                        from: c.contract,
                        to: meta.freelancer,
                        amount: record.net_amount,
                    },
                ]
                &&& step.events =~= seq![
                    Event::AdminOverrideTaxRelease(
                        AdminOverrideTaxReleaseEvent {
                            admin,
                            contract_id: c.contract,
                            milestone_index: index,
                            freelancer: meta.freelancer,
                            token: meta.token,
                            net_amount: record.net_amount,
                            tax_amount: record.tax_amount,
                        },
                    ),
                ]
            }
        }),
{
}

/// Why a withholding is not undone, if it is not.
pub open spec fn not_undone(l: LedgerView, admin: Address, index: u32) -> Option<Error> {
    let meta = l.instance.job->0;
    let m = l.persistent.milestones[index];
    if super::not_admin(l.persistent.admin, admin) is Some {
        super::not_admin(l.persistent.admin, admin)
    } else if !l.persistent.tax_withholding.contains_key(index) {
        Some(Error::InvalidStatus)
    } else if l.instance.job is None {
        Some(Error::NotInitialized)
    } else if !meta.funded {
        Some(Error::NotFunded)
    } else if index >= meta.milestone_count || !l.persistent.milestones.contains_key(index) {
        Some(Error::InvalidMilestone)
    } else if m.status == MilestoneStatus::Released || m.status == MilestoneStatus::Refunded {
        Some(Error::InvalidStatus)
    } else if l.persistent.tax_withholding[index].gross_amount <= 0 {
        Some(Error::InvalidAmount)
    } else {
        None
    }
}

/// Settling a withholding for the client returns the recorded gross amount; the
/// milestone is refunded and the record gone.
pub proof fn a_refund_returns_the_recorded_gross(
    l: LedgerView,
    c: Context,
    admin: Address,
    index: u32,
)
    ensures
        ({
            let outcome = MilestoneEscrow::admin_override_tax_refund_outcome(l, c, admin, index);
            let meta = l.instance.job->0;
            let m = l.persistent.milestones[index];
            let record = l.persistent.tax_withholding[index];
            &&& super::heard(outcome, None, seq![admin], not_undone(l, admin, index))
            &&& outcome.result matches Ok(step) ==> {
                let after = step.ledger.persistent;
                &&& super::moved(
                    l.persistent.milestones,
                    after.milestones,
                    index,
                    MilestoneStatus::Refunded,
                    m.amount as int,
                )
                &&& step.ledger =~= LedgerView {
                    persistent: PersistentView {
                        milestones: after.milestones,
                        tax_withholding: l.persistent.tax_withholding.remove(index),
                        ..l.persistent
                    },
                    ..l
                }
                &&& step.actions =~= seq![
                    Action::Transfer {
                        token: meta.token,
                        from: c.contract,
                        to: meta.client,
                        amount: record.gross_amount,
                    },
                ]
                &&& step.events =~= seq![
                    Event::AdminOverrideTaxRefund(
                        AdminOverrideTaxRefundEvent {
                            admin,
                            contract_id: c.contract,
                            milestone_index: index,
                            client: meta.client,
                            token: meta.token,
                            gross_amount: record.gross_amount,
                        },
                    ),
                ]
            }
        }),
{
}

/// Why a taxed amount is not split, if it is not.
pub open spec fn no_taxed_split(
    gross: int,
    tax: int,
    client_bps: int,
    freelancer_bps: int,
) -> Option<Error> {
    if gross <= 0 || tax < 0 || tax > gross {
        Some(Error::InvalidAmount)
    } else if client_bps + freelancer_bps != 10_000 {
        Some(Error::InvalidRatio)
    } else if gross * client_bps + 5_000 > i128::MAX {
        Some(Error::InvalidAmount)
    } else {
        None
    }
}

/// Whether a taxed amount is split: of the amount and of the tax the client gets
/// and bears its share, each rounded to the nearest, and the freelancer the
/// rest; nobody gets less than nothing.
pub open spec fn is_taxed_split(
    split: RefundAllocation,
    gross: int,
    tax: int,
    client_bps: u32,
    freelancer_bps: u32,
) -> bool {
    &&& exists|of_gross: int, of_tax: int|
        {
            &&& #[trigger] super::nearest(of_gross, gross, client_bps as int, 10_000)
            &&& #[trigger] super::nearest(of_tax, tax, client_bps as int, 10_000)
            &&& split.client_refund == of_gross - of_tax
        }
    &&& split.client_refund + split.freelancer_payout == gross - tax
    &&& split.client_refund >= 0
    &&& split.freelancer_payout >= 0
    &&& split.client_refund_bps == client_bps
    &&& split.freelancer_payout_bps == freelancer_bps
}

proof fn lemma_taxed_split(gross: i128, tax: i128, client_bps: u32, freelancer_bps: u32)
    ensures
        ({
            let result = MilestoneEscrow::withholding_refund_result(
                gross,
                tax,
                client_bps,
                freelancer_bps,
            );
            match no_taxed_split(
                gross as int,
                tax as int,
                client_bps as int,
                freelancer_bps as int,
            ) {
                Some(error) => result is Err && result->Err_0 == error,
                None => result is Ok && is_taxed_split(
                    result->Ok_0,
                    gross as int,
                    tax as int,
                    client_bps,
                    freelancer_bps,
                ),
            }
        }),
{
    let b = client_bps as int;
    super::lemma_rounded_is_nearest(gross as int, b, 10_000);
    super::lemma_rounded_is_nearest(tax as int, b, 10_000);
    if gross > 0 && 0 <= tax <= gross && client_bps <= 10_000 {
        MilestoneEscrow::rounded_share_is_a_part(gross as int, b, 10_000);
        MilestoneEscrow::rounded_share_is_a_part(tax as int, b, 10_000);
        MilestoneEscrow::lemma_tax_within_share(gross as int, tax as int, b);
        assert(tax * b <= gross * b) by (nonlinear_arith)
            requires
                0 <= tax <= gross,
                0 <= b,
        ;
    }
}

/// How a taxed amount would be split is computed and announced; nothing changes.
pub proof fn a_taxed_amount_is_split(
    l: LedgerView,
    gross: i128,
    tax: i128,
    client_bps: u32,
    freelancer_bps: u32,
)
    ensures
        ({
            let outcome = MilestoneEscrow::tax_withholding_split_refund_outcome(
                l,
                gross,
                tax,
                client_bps,
                freelancer_bps,
            );
            &&& super::heard(
                outcome,
                no_taxed_split(gross as int, tax as int, client_bps as int, freelancer_bps as int),
                Seq::empty(),
                None,
            )
            &&& outcome.result matches Ok(step) ==> {
                &&& is_taxed_split(step.value, gross as int, tax as int, client_bps, freelancer_bps)
                &&& step.ledger =~= l
                &&& step.actions =~= Seq::<Action>::empty()
                &&& step.events =~= seq![
                    Event::TaxWithholdingSplitRefund(
                        TaxWithholdingSplitRefundEvent {
                            gross_amount: gross,
                            tax_amount: tax,
                            net_amount: (gross - tax) as i128,
                            client_refund: step.value.client_refund,
                            freelancer_payout: step.value.freelancer_payout,
                            client_refund_bps: client_bps,
                            freelancer_payout_bps: freelancer_bps,
                        },
                    ),
                ]
            }
        }),
{
    lemma_taxed_split(gross, tax, client_bps, freelancer_bps);
}

/// Settling a withholding for both parties splits the recorded amounts, pays
/// each what is something, counts both as paid, and drops the record.
pub proof fn a_withholding_is_settled_by_a_split(
    l: LedgerView,
    c: Context,
    admin: Address,
    index: u32,
    client_bps: u32,
    freelancer_bps: u32,
)
    ensures
        ({
            let outcome = MilestoneEscrow::admin_override_tax_split_refund_outcome(
                l,
                c,
                admin,
                index,
                client_bps,
                freelancer_bps,
            );
            let meta = l.instance.job->0;
            let m = l.persistent.milestones[index];
            let record = l.persistent.tax_withholding[index];
            let gross = record.gross_amount as int;
            let tax = record.tax_amount as int;
            let no_split = no_taxed_split(gross, tax, client_bps as int, freelancer_bps as int);
            &&& super::heard(
                outcome,
                None,
                seq![admin],
                if not_undone(l, admin, index) is Some {
                    not_undone(l, admin, index)
                } else if no_split is Some {
                    no_split
                } else if m.released_amount + gross - tax > i128::MAX {
                    Some(Error::InvalidAmount)
                } else {
                    None
                },
            )
            &&& outcome.result matches Ok(step) ==> step.events.len() == 1 && (
            step.events[0] matches Event::AdminOverrideTaxSplitRefund(e) && {
                let after = step.ledger.persistent;
                let split = RefundAllocation {
                    client_refund: e.client_refund,
                    freelancer_payout: e.freelancer_payout,
                    client_refund_bps: e.client_refund_bps,
                    freelancer_payout_bps: e.freelancer_payout_bps,
                };
                &&& is_taxed_split(split, gross, tax, client_bps, freelancer_bps)
                &&& e == (AdminOverrideTaxSplitRefundEvent {
                    admin,
                    contract_id: c.contract,
                    milestone_index: index,
                    client: meta.client,
                    freelancer: meta.freelancer,
                    token: meta.token,
                    gross_amount: record.gross_amount,
                    tax_amount: record.tax_amount,
                    ..e
                })
                &&& super::moved(
                    l.persistent.milestones,
                    after.milestones,
                    index,
                    if split.freelancer_payout == 0 {
                        MilestoneStatus::Refunded
                    } else {
                        MilestoneStatus::Released
                    },
                    m.released_amount + gross - tax,
                )
                &&& step.ledger =~= LedgerView {
                    persistent: PersistentView {
                        milestones: after.milestones,
                        tax_withholding: l.persistent.tax_withholding.remove(index),
                        ..l.persistent
                    },
                    ..l
                }
                &&& super::disputes::pays_both(
                    step.actions,
                    c.contract,
                    meta.token,
                    meta.client,
                    split.client_refund as int,
                    meta.freelancer,
                    split.freelancer_payout as int,
                )
            })
        }),
{
    let record = l.persistent.tax_withholding[index];
    lemma_taxed_split(record.gross_amount, record.tax_amount, client_bps, freelancer_bps);
}

} // verus!
