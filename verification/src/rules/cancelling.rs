//! Agreeing to cancel a job, and settling a cancelled one.

use vstd::prelude::*;

use crate::arith::MilestoneEscrow;
use crate::events::{
    AdminCancelOverrideRefundEvent, AdminCancelOverrideReleaseEvent, CancelApprovalRecordedEvent,
    CancelApprovalRevokedEvent, CancelEscrowInitiatedEvent, CancelSplitRefundCalculatedEvent,
    Event,
};
use crate::host::{Action, Context, InstanceView, LedgerView, PersistentView};
use crate::types::{Address, Error, Milestone, MilestoneStatus, RefundAllocation};

verus! {

/// Whether the client agreed to cancel, by the number on record.
pub open spec fn client_agreed(record: Option<u32>) -> bool {
    record is Some && record->0 % 2 == 1
}

/// Whether the freelancer agreed to cancel, by the number on record.
pub open spec fn freelancer_agreed(record: Option<u32>) -> bool {
    record is Some && (record->0 / 2) % 2 == 1
}

proof fn lemma_two_bits(mask: u32)
    ensures
        mask & 1 != 0 <==> mask % 2 == 1,
        mask & 2 != 0 <==> (mask / 2) % 2 == 1,
        mask % 2 != 1 ==> mask | 1 == mask + 1,
        (mask / 2) % 2 != 1 ==> mask | 2 == mask + 2,
        mask % 2 == 1 ==> mask & !1 == mask - 1,
        (mask / 2) % 2 == 1 ==> mask & !2 == mask - 2,
{
    assert((mask & 1 != 0 <==> mask % 2 == 1) && (mask & 2 != 0 <==> (mask / 2) % 2 == 1) && (mask
        % 2 != 1 ==> mask | 1 == mask + 1) && ((mask / 2) % 2 != 1 ==> mask | 2 == mask + 2) && (
    mask % 2 == 1 ==> mask & !1 == mask - 1) && ((mask / 2) % 2 == 1 ==> mask & !2 == mask - 2))
        by (bit_vector);
}

/// Either party can agree once to cancel a funded job. The first to agree is put
/// on record; with the second the record goes and the job is cancelled.
pub proof fn a_job_is_cancelled_by_both(l: LedgerView, c: Context, caller: Address)
    ensures
        ({
            let outcome = MilestoneEscrow::cancel_escrow_outcome(l, c, caller);
            let meta = l.instance.job->0;
            let record = l.instance.cancel_approval;
            let noted = if record is Some {
                record->0 as int
            } else {
                0
            };
            let is_client = caller == meta.client;
            &&& super::heard(
                outcome,
                if super::nobody(caller) {
                    Some(Error::InvalidAddress)
                } else if l.instance.emergency_paused == Some(true) {
                    Some(Error::Paused)
                } else if l.instance.cancel_lock == Some(true) {
                    Some(Error::EscrowLocked)
                } else {
                    None
                },
                seq![caller],
                if l.instance.job is None {
                    Some(Error::NotInitialized)
                } else if caller != meta.client && caller != meta.freelancer {
                    Some(Error::Unauthorized)
                } else if !meta.funded {
                    Some(Error::NotFunded)
                } else if c.balance <= 0 {
                    Some(Error::InvalidAmount)
                } else if is_client && client_agreed(record) || !is_client && freelancer_agreed(
                    record,
                ) {
                    Some(Error::InvalidStatus)
                } else {
                    None
                },
            )
            &&& outcome.result matches Ok(step) ==> {
                let now = noted + (if is_client {
                    1int
                } else {
                    2
                });
                &&& step.actions =~= Seq::<Action>::empty()
                &&& if now == 3 {
                    &&& step.ledger =~= LedgerView {
                        instance: InstanceView {
                            cancel_approval: None,
                            cancel_lock: Some(true),
                            ..l.instance
                        },
                        ..l
                    }
                    &&& step.events =~= seq![
                        Event::CancelEscrowInitiated(
                            CancelEscrowInitiatedEvent {
                                contract_id: c.contract,
                                caller,
                                caller_is_client: is_client,
                                client: meta.client,
                                freelancer: meta.freelancer,
                                token: meta.token,
                                milestone_count: meta.milestone_count,
                                total_amount: meta.total_amount,
                            },
                        ),
                    ]
                } else {
                    &&& step.ledger =~= LedgerView {
                        instance: InstanceView { cancel_approval: Some(now as u32), ..l.instance },
                        ..l
                    }
                    &&& step.events =~= seq![
                        Event::CancelApprovalRecorded(
                            CancelApprovalRecordedEvent {
                                contract_id: c.contract,
                                caller,
                                approval_mask: now as u32,
                            },
                        ),
                    ]
                }
            }
        }),
{
    lemma_two_bits(
        match l.instance.cancel_approval {
            Some(mask) => mask,
            None => 0,
        },
    );
}

/// From no record at all, either party agreeing leaves the job open, and the
/// other one agreeing next cancels it.
pub proof fn two_agreements_cancel(
    l: LedgerView,
    c: Context,
    later: Context,
    first: Address,
    second: Address,
)
    requires
        l.instance.cancel_approval is None,
        l.instance.job is Some,
        l.instance.job->0.client != l.instance.job->0.freelancer,
        first != second,
        MilestoneEscrow::cancel_escrow_outcome(l, c, first).result is Ok,
        second == l.instance.job->0.client || second == l.instance.job->0.freelancer,
        !super::nobody(second),
        later.balance > 0,
    ensures
        ({
            let once = MilestoneEscrow::cancel_escrow_outcome(l, c, first).result->Ok_0.ledger;
            let twice = MilestoneEscrow::cancel_escrow_outcome(once, later, second);
            &&& once.instance.cancel_lock != Some(true)
            &&& MilestoneEscrow::cancel_escrow_outcome(once, later, first).result is Err
            &&& twice.result is Ok
            &&& twice.result->Ok_0.ledger.instance.cancel_lock == Some(true)
        }),
{
    let once = MilestoneEscrow::cancel_escrow_outcome(l, c, first).result->Ok_0.ledger;
    a_job_is_cancelled_by_both(l, c, first);
    a_job_is_cancelled_by_both(once, later, first);
    a_job_is_cancelled_by_both(once, later, second);
}

/// Who agreed to cancel can take that back while the job is not cancelled; the
/// other's agreement stays.
pub proof fn an_agreement_is_taken_back(l: LedgerView, c: Context, caller: Address)
    ensures
        ({
            let outcome = MilestoneEscrow::revoke_cancel_approval_outcome(l, c, caller);
            let meta = l.instance.job->0;
            let record = l.instance.cancel_approval;
            let is_client = caller == meta.client;
            &&& super::heard(
                outcome,
                if super::nobody(caller) {
                    Some(Error::InvalidAddress)
                } else if l.instance.job is None {
                    Some(Error::NotInitialized)
                } else {
                    None
                },
                seq![caller],
                if caller != meta.client && caller != meta.freelancer {
                    Some(Error::Unauthorized)
                } else if l.instance.cancel_lock == Some(true) {
                    Some(Error::EscrowLocked)
                } else if is_client && !client_agreed(record) || !is_client && !freelancer_agreed(
                    record,
                ) {
                    Some(Error::InvalidStatus)
                } else {
                    None
                },
            )
            &&& outcome.result matches Ok(step) ==> {
                let now = record->0 - (if is_client {
                    1int
                } else {
                    2
                });
                &&& step.ledger =~= LedgerView {
                    instance: InstanceView {
                        cancel_approval: if now == 0 {
                            None
                        } else {
                            Some(now as u32)
                        },
                        ..l.instance
                    },
                    ..l
                }
                &&& step.actions =~= Seq::<Action>::empty()
                &&& step.events =~= seq![
                    Event::CancelApprovalRevoked(
                        CancelApprovalRevokedEvent {
                            contract_id: c.contract,
                            caller,
                            approval_mask: now as u32,
                        },
                    ),
                ]
            }
        }),
{
    lemma_two_bits(
        match l.instance.cancel_approval {
            Some(mask) => mask,
            None => 0,
        },
    );
}

/// Taking an agreement back leaves things as they were before it was given.
pub proof fn taking_back_undoes_agreeing(
    l: LedgerView,
    c: Context,
    later: Context,
    caller: Address,
)
    requires
        l.instance.cancel_approval != Some(0u32),
        MilestoneEscrow::cancel_escrow_outcome(l, c, caller).result is Ok,
        MilestoneEscrow::cancel_escrow_outcome(
            l,
            c,
            caller,
        ).result->Ok_0.ledger.instance.cancel_lock != Some(true),
    ensures
        ({
            let given = MilestoneEscrow::cancel_escrow_outcome(l, c, caller).result->Ok_0.ledger;
            let taken = MilestoneEscrow::revoke_cancel_approval_outcome(given, later, caller);
            taken.result is Ok && taken.result->Ok_0.ledger =~= l
        }),
{
    let given = MilestoneEscrow::cancel_escrow_outcome(l, c, caller).result->Ok_0.ledger;
    a_job_is_cancelled_by_both(l, c, caller);
    an_agreement_is_taken_back(given, later, caller);
}

/// What the first milestone, of the first `n`, that cannot be settled is refused
/// with.
pub open spec fn stuck(milestones: Map<u32, Milestone>, n: nat, refunding: bool) -> Option<Error>
    decreases n,
{
    if n == 0 {
        None
    } else {
        let index = (n - 1) as u32;
        let m = milestones[index];
        let earlier = stuck(milestones, (n - 1) as nat, refunding);
        if earlier is Some {
            earlier
        } else if !milestones.contains_key(index) {
            Some(Error::InvalidMilestone)
        } else if m.status == MilestoneStatus::Released || m.status == MilestoneStatus::Refunded {
            None
        } else if refunding && (m.amount < 0 || m.released_amount < 0) {
            Some(Error::InvalidAmount)
        } else if m.amount - m.released_amount < i128::MIN || m.amount - m.released_amount
            > i128::MAX {
            Some(Error::InvalidAmount)
        } else if super::holdings::left_of(milestones, n) > i128::MAX {
            Some(Error::InvalidAmount)
        } else {
            None
        }
    }
}

/// Whether the first `n` milestones, and no others, are settled: each that was
/// open has the given status, and all of it counts as paid.
pub open spec fn all_settled(
    before: Map<u32, Milestone>,
    after: Map<u32, Milestone>,
    n: nat,
    status: MilestoneStatus,
) -> bool {
    &&& after.dom() =~= before.dom()
    &&& forall|i: u32|
        #![trigger after[i]]
        {
            let m = before[i];
            if i >= n || m.status == MilestoneStatus::Released || m.status
                == MilestoneStatus::Refunded {
                before.contains_key(i) ==> after[i] == m
            } else {
                after[i] == Milestone {
                    status,
                    released_amount: if m.released_amount < m.amount {
                        m.amount
                    } else {
                        m.released_amount
                    },
                    ..m
                }
            }
        }
}

proof fn lemma_all_settled(milestones: Map<u32, Milestone>, n: nat, status: MilestoneStatus)
    requires
        n <= u32::MAX,
    ensures
        ({
            let result = MilestoneEscrow::settle_all(milestones, n, status);
            match stuck(milestones, n, status == MilestoneStatus::Refunded) {
                Some(error) => result is Err && result->Err_0 == error,
                None => {
                    &&& result is Ok
                    &&& result->Ok_0.0 == super::holdings::left_of(milestones, n)
                    &&& all_settled(milestones, result->Ok_0.1, n, status)
                    &&& forall|i: u32| i < n ==> #[trigger] milestones.contains_key(i)
                },
            }
        }),
        super::holdings::left_of(milestones, n) >= 0,
    decreases n,
{
    if n > 0 {
        let k = (n - 1) as nat;
        lemma_all_settled(milestones, k, status);
        let index = (n - 1) as u32;
        let m = milestones[index];
        if stuck(milestones, n, status == MilestoneStatus::Refunded) is None {
            let was = MilestoneEscrow::settle_all(milestones, k, status)->Ok_0.1;
            let now = MilestoneEscrow::settle_all(milestones, n, status)->Ok_0.1;
            assert forall|i: u32|
                #![trigger now[i]]
                {
                    let m = milestones[i];
                    if i >= n || m.status == MilestoneStatus::Released || m.status
                        == MilestoneStatus::Refunded {
                        milestones.contains_key(i) ==> now[i] == m
                    } else {
                        now[i] == Milestone {
                            status,
                            released_amount: if m.released_amount < m.amount {
                                m.amount
                            } else {
                                m.released_amount
                            },
                            ..m
                        }
                    }
                } by {
                assert(i != index ==> now[i] == was[i]);
            }
            assert(was[index] == m);
        }
    }
}

/// Why a cancelled job is not settled, if it is not.
pub open spec fn not_closed(l: LedgerView, admin: Address, refunding: bool) -> Option<Error> {
    let meta = l.instance.job->0;
    if super::not_admin(l.persistent.admin, admin) is Some {
        super::not_admin(l.persistent.admin, admin)
    } else if l.instance.job is None {
        Some(Error::NotInitialized)
    } else if !meta.funded {
        Some(Error::NotFunded)
    } else if l.instance.cancel_lock != Some(true) {
        Some(Error::InvalidStatus)
    } else if stuck(l.persistent.milestones, meta.milestone_count as nat, refunding) is Some {
        stuck(l.persistent.milestones, meta.milestone_count as nat, refunding)
    } else if super::holdings::left_of(l.persistent.milestones, meta.milestone_count as nat) <= 0 {
        Some(Error::InvalidAmount)
    } else {
        None
    }
}

/// The admin can release a cancelled job: every open milestone is settled, the
/// freelancer is paid all that was left of them, and the lock is lifted.
pub proof fn a_cancelled_job_is_released(l: LedgerView, c: Context, admin: Address)
    ensures
        ({
            let outcome = MilestoneEscrow::admin_override_cancel_release_outcome(l, c, admin);
            let meta = l.instance.job->0;
            let n = meta.milestone_count as nat;
            let total = super::holdings::left_of(l.persistent.milestones, n) as i128;
            &&& super::heard(outcome, None, seq![admin], not_closed(l, admin, false))
            &&& outcome.result matches Ok(step) ==> {
                let after = step.ledger.persistent.milestones;
                &&& all_settled(l.persistent.milestones, after, n, MilestoneStatus::Released)
                &&& step.ledger =~= LedgerView {
                    instance: InstanceView { cancel_lock: Some(false), ..l.instance },
                    persistent: PersistentView {
                        milestones: after,
                        yield_accrued: Some(0),
                        ..l.persistent
                    },
                    ..l
                }
                &&& step.actions =~= seq![
                    Action::Transfer {
                        token: meta.token,
                        from: c.contract,
                        to: meta.freelancer,
                        amount: total,
                    },
                ]
                &&& step.events =~= seq![
                    Event::AdminCancelOverrideRelease(
                        AdminCancelOverrideReleaseEvent {
                            admin,
                            contract_id: c.contract,
                            freelancer: meta.freelancer,
                            token: meta.token,
                            total_released: total,
                        },
                    ),
                ]
            }
        }),
{
    lemma_all_settled(
        l.persistent.milestones,
        l.instance.job->0.milestone_count as nat,
        MilestoneStatus::Released,
    );
}

/// The admin can refund a cancelled job: every open milestone is settled, the
/// client gets back all that was left of them, and the lock is gone.
pub proof fn a_cancelled_job_is_refunded(l: LedgerView, c: Context, admin: Address)
    ensures
        ({
            let outcome = MilestoneEscrow::admin_override_cancel_refund_outcome(l, c, admin);
            let meta = l.instance.job->0;
            let n = meta.milestone_count as nat;
            let total = super::holdings::left_of(l.persistent.milestones, n) as i128;
            &&& super::heard(outcome, None, seq![admin], not_closed(l, admin, true))
            &&& outcome.result matches Ok(step) ==> {
                let after = step.ledger.persistent.milestones;
                &&& all_settled(l.persistent.milestones, after, n, MilestoneStatus::Refunded)
                &&& step.ledger =~= LedgerView {
                    instance: InstanceView { cancel_lock: None, ..l.instance },
                    persistent: PersistentView {
                        milestones: after,
                        yield_accrued: None,
                        ..l.persistent
                    },
                    ..l
                }
                &&& step.actions =~= seq![
                    Action::Transfer {
                        token: meta.token,
                        from: c.contract,
                        to: meta.client,
                        amount: total,
                    },
                ]
                &&& step.events =~= seq![
                    Event::AdminCancelOverrideRefund(
                        AdminCancelOverrideRefundEvent {
                            admin,
                            contract_id: c.contract,
                            client: meta.client,
                            token: meta.token,
                            total_refunded: total,
                        },
                    ),
                ]
            }
        }),
{
    lemma_all_settled(
        l.persistent.milestones,
        l.instance.job->0.milestone_count as nat,
        MilestoneStatus::Refunded,
    );
}

/// Whether how an amount is split was just announced.
pub open spec fn split_announced(
    step: crate::outcome::Step<RefundAllocation>,
    l: LedgerView,
    total: int,
    client_bps: u32,
    freelancer_bps: u32,
) -> bool {
    &&& super::is_split(step.value, total, client_bps, freelancer_bps)
    &&& step.ledger =~= l
    &&& step.actions =~= Seq::<Action>::empty()
    &&& step.events =~= seq![
        Event::CancelSplitRefundCalculated(
            CancelSplitRefundCalculatedEvent {
                client_refund: step.value.client_refund,
                freelancer_payout: step.value.freelancer_payout,
                client_refund_bps: client_bps,
                freelancer_payout_bps: freelancer_bps,
            },
        ),
    ]
}

/// How an amount would be split on cancelling is computed and announced while
/// the job is neither frozen, cancelled nor paused.
pub proof fn a_cancellation_split_is_announced(
    l: LedgerView,
    total_amount: i128,
    client_bps: u32,
    freelancer_bps: u32,
)
    ensures
        ({
            let outcome = MilestoneEscrow::cancel_escrow_split_refund_outcome(
                l,
                total_amount,
                client_bps,
                freelancer_bps,
            );
            let total = total_amount as int;
            &&& super::heard(
                outcome,
                if l.instance.emergency_paused == Some(true) {
                    Some(Error::Paused)
                } else if l.instance.cancel_lock == Some(true) {
                    Some(Error::EscrowLocked)
                } else if l.instance.paused == Some(true) {
                    Some(Error::Paused)
                } else {
                    super::no_split(total, client_bps as int, freelancer_bps as int)
                },
                Seq::empty(),
                None,
            )
            &&& outcome.result matches Ok(step) ==> split_announced(
                step,
                l,
                total,
                client_bps,
                freelancer_bps,
            )
        }),
{
    super::an_amount_is_split_to_the_nearest(total_amount, client_bps, freelancer_bps);
}

/// Once a funded job is cancelled the admin can have a split of its amount
/// computed and announced.
pub proof fn a_cancellation_claim_is_announced(
    l: LedgerView,
    c: Context,
    admin: Address,
    total_amount: i128,
    client_bps: u32,
    freelancer_bps: u32,
)
    ensures
        ({
            let outcome = MilestoneEscrow::cancel_escrow_claim_refund_outcome(
                l,
                c,
                admin,
                total_amount,
                client_bps,
                freelancer_bps,
            );
            let total = total_amount as int;
            &&& super::heard(
                outcome,
                None,
                seq![admin],
                if super::not_admin(l.persistent.admin, admin) is Some {
                    super::not_admin(l.persistent.admin, admin)
                } else if l.instance.cancel_lock != Some(true) {
                    Some(Error::InvalidStatus)
                } else if l.instance.job is None {
                    Some(Error::NotInitialized)
                } else if !l.instance.job->0.funded {
                    Some(Error::NotFunded)
                } else if c.balance <= 0 {
                    Some(Error::EmptyBalance)
                } else {
                    super::no_split(total, client_bps as int, freelancer_bps as int)
                },
            )
            &&& outcome.result matches Ok(step) ==> split_announced(
                step,
                l,
                total,
                client_bps,
                freelancer_bps,
            )
        }),
{
    super::an_amount_is_split_to_the_nearest(total_amount, client_bps, freelancer_bps);
}

} // verus!
