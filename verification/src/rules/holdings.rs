//! What is left of a job, and what a payment takes from it.

use vstd::prelude::*;

use crate::arith::MilestoneEscrow;
use crate::host::{Action, Context, LedgerView};
use crate::types::{Address, Milestone, MilestoneStatus};

verus! {

/// What is left of a milestone: what was not paid of it while it is open, and
/// nothing once it is settled.
pub open spec fn left(m: Milestone) -> int {
    if m.status == MilestoneStatus::Released || m.status == MilestoneStatus::Refunded || m.amount
        <= m.released_amount {
        0
    } else {
        m.amount - m.released_amount
    }
}

/// What is left of the first `n` milestones, all together.
pub open spec fn left_of(milestones: Map<u32, Milestone>, n: nat) -> int
    decreases n,
{
    if n == 0 {
        0
    } else {
        left_of(milestones, (n - 1) as nat) + left(milestones[(n - 1) as u32])
    }
}

/// Whether a call that leads from one ledger to another makes one payment, and
/// just that much less is left of the job.
pub open spec fn takes_what_it_pays(
    before: LedgerView,
    after: LedgerView,
    actions: Seq<Action>,
) -> bool {
    let n = before.instance.job->0.milestone_count as nat;
    &&& actions.len() == 1
    &&& actions[0] matches Action::Transfer { amount, .. } && {
        &&& amount > 0
        &&& left_of(after.persistent.milestones, n) == left_of(before.persistent.milestones, n)
            - amount
    }
}

proof fn lemma_left_moves(milestones: Map<u32, Milestone>, index: u32, m: Milestone, n: nat)
    requires
        n <= u32::MAX,
    ensures
        left_of(milestones.insert(index, m), n) == left_of(milestones, n) + (if index < n {
            left(m) - left(milestones[index])
        } else {
            0
        }),
    decreases n,
{
    if n > 0 {
        lemma_left_moves(milestones, index, m, (n - 1) as nat);
    }
}

proof fn lemma_moved(before: LedgerView, after: LedgerView, index: u32)
    requires
        after.persistent.milestones =~= before.persistent.milestones.insert(
            index,
            after.persistent.milestones[index],
        ),
        before.instance.job is Some,
        index < before.instance.job->0.milestone_count,
    ensures
        ({
            let n = before.instance.job->0.milestone_count as nat;
            left_of(after.persistent.milestones, n) == left_of(before.persistent.milestones, n)
                + left(after.persistent.milestones[index]) - left(
                before.persistent.milestones[index],
            )
        }),
{
    lemma_left_moves(
        before.persistent.milestones,
        index,
        after.persistent.milestones[index],
        before.instance.job->0.milestone_count as nat,
    );
}

/// An instalment takes just what it pays from what is left of the job.
pub proof fn an_instalment_takes_what_it_pays(
    l: LedgerView,
    c: Context,
    client: Address,
    index: u32,
    amount: i128,
)
    requires
        MilestoneEscrow::approve_partial_outcome(l, c, client, index, amount).result is Ok,
    ensures
        ({
            let step = MilestoneEscrow::approve_partial_outcome(
                l,
                c,
                client,
                index,
                amount,
            ).result->Ok_0;
            takes_what_it_pays(l, step.ledger, step.actions)
        }),
{
    let step = MilestoneEscrow::approve_partial_outcome(l, c, client, index, amount).result->Ok_0;
    super::job::instalments_are_paid_until_nothing_is_left(l, c, client, index, amount);
    lemma_moved(l, step.ledger, index);
}

/// Approving a milestone takes just what it pays from what is left of the job.
pub proof fn an_approval_takes_what_it_pays(
    l: LedgerView,
    c: Context,
    client: Address,
    index: u32,
)
    requires
        MilestoneEscrow::approve_milestone_outcome(l, c, client, index).result is Ok,
    ensures
        ({
            let step = MilestoneEscrow::approve_milestone_outcome(l, c, client, index).result->Ok_0;
            takes_what_it_pays(l, step.ledger, step.actions)
        }),
{
    let step = MilestoneEscrow::approve_milestone_outcome(l, c, client, index).result->Ok_0;
    super::job::approving_pays_what_is_left(l, c, client, index);
    lemma_moved(l, step.ledger, index);
}

/// Claiming a milestone takes just what it pays from what is left of the job.
pub proof fn a_claim_takes_what_it_pays(
    l: LedgerView,
    c: Context,
    freelancer: Address,
    index: u32,
)
    requires
        MilestoneEscrow::claim_auto_release_outcome(l, c, freelancer, index).result is Ok,
    ensures
        ({
            let step = MilestoneEscrow::claim_auto_release_outcome(
                l,
                c,
                freelancer,
                index,
            ).result->Ok_0;
            takes_what_it_pays(l, step.ledger, step.actions)
        }),
{
    let step = MilestoneEscrow::claim_auto_release_outcome(l, c, freelancer, index).result->Ok_0;
    super::job::claims_wait_for_the_agreed_time(l, c, freelancer, index);
    lemma_moved(l, step.ledger, index);
}

/// Deciding a dispute takes just what it pays from what is left of the job,
/// where the contract holds enough.
pub proof fn a_decision_takes_what_it_pays(
    l: LedgerView,
    c: Context,
    arbiter: Address,
    index: u32,
    release_to_freelancer: bool,
)
    requires
        MilestoneEscrow::resolve_dispute_outcome(
            l,
            c,
            arbiter,
            index,
            release_to_freelancer,
        ).result is Ok,
        index < l.instance.job->0.milestone_count,
        c.balance >= left(l.persistent.milestones[index]),
    ensures
        ({
            let step = MilestoneEscrow::resolve_dispute_outcome(
                l,
                c,
                arbiter,
                index,
                release_to_freelancer,
            ).result->Ok_0;
            takes_what_it_pays(l, step.ledger, step.actions)
        }),
{
    let step = MilestoneEscrow::resolve_dispute_outcome(
        l,
        c,
        arbiter,
        index,
        release_to_freelancer,
    ).result->Ok_0;
    super::disputes::the_winner_gets_what_is_left(l, c, arbiter, index, release_to_freelancer);
    lemma_moved(l, step.ledger, index);
}

/// What the admin releases or refunds, with or without the lock of the signers,
/// takes just what it pays from what is left of the job.
pub proof fn an_override_takes_what_it_pays(l: LedgerView, c: Context, admin: Address, index: u32)
    ensures
        MilestoneEscrow::admin_override_release_outcome(l, c, admin, index).result matches Ok(step)
            ==> takes_what_it_pays(l, step.ledger, step.actions),
        MilestoneEscrow::admin_override_refund_outcome(l, c, admin, index).result matches Ok(step)
            ==> takes_what_it_pays(l, step.ledger, step.actions),
        MilestoneEscrow::multisig_admin_override_release_outcome(
            l,
            c,
            admin,
            index,
        ).result matches Ok(step) ==> takes_what_it_pays(l, step.ledger, step.actions),
        MilestoneEscrow::multisig_admin_override_refund_outcome(
            l,
            c,
            admin,
            index,
        ).result matches Ok(step) ==> takes_what_it_pays(l, step.ledger, step.actions),
{
    super::overrides::the_admin_releases_what_is_left(l, c, admin, index);
    super::overrides::the_admin_refunds_what_is_left(l, c, admin, index);
    super::overrides::a_locked_milestone_is_released(l, c, admin, index);
    super::overrides::a_locked_milestone_is_refunded(l, c, admin, index);
    if let Ok(step) = MilestoneEscrow::admin_override_release_outcome(l, c, admin, index).result {
        lemma_moved(l, step.ledger, index);
    }
    if let Ok(step) = MilestoneEscrow::admin_override_refund_outcome(l, c, admin, index).result {
        lemma_moved(l, step.ledger, index);
    }
    if let Ok(step) = MilestoneEscrow::multisig_admin_override_release_outcome(
        l,
        c,
        admin,
        index,
    ).result {
        lemma_moved(l, step.ledger, index);
    }
    if let Ok(step) = MilestoneEscrow::multisig_admin_override_refund_outcome(
        l,
        c,
        admin,
        index,
    ).result {
        lemma_moved(l, step.ledger, index);
    }
}

/// A split by the arbiter takes from what is left of the job just what it pays
/// the two parties, where the contract holds enough.
pub proof fn a_split_takes_what_it_pays(
    l: LedgerView,
    c: Context,
    arbiter: Address,
    index: u32,
    client_refund_bps: u32,
)
    requires
        MilestoneEscrow::apply_dispute_arbitration_split_outcome(
            l,
            c,
            arbiter,
            index,
            client_refund_bps,
        ).result is Ok,
        index < l.instance.job->0.milestone_count,
        c.balance >= left(l.persistent.milestones[index]),
    ensures
        ({
            let step = MilestoneEscrow::apply_dispute_arbitration_split_outcome(
                l,
                c,
                arbiter,
                index,
                client_refund_bps,
            ).result->Ok_0;
            let n = l.instance.job->0.milestone_count as nat;
            left_of(step.ledger.persistent.milestones, n) == left_of(l.persistent.milestones, n)
                - step.value.client_refund - step.value.freelancer_payout
        }),
{
    let step = MilestoneEscrow::apply_dispute_arbitration_split_outcome(
        l,
        c,
        arbiter,
        index,
        client_refund_bps,
    ).result->Ok_0;
    super::disputes::a_split_shares_out_what_is_left(l, c, arbiter, index, client_refund_bps);
    lemma_moved(l, step.ledger, index);
}

} // verus!
