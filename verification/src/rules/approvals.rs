//! The signers of a contract, and what they approve.

use vstd::prelude::*;

use crate::arith::MilestoneEscrow;
use crate::events::{
    Event, MultiSigApprovedEvent, MultisigLockedEvent, SplitRefundCalculatedEvent,
};
use crate::host::{Action, Context, InstanceView, LedgerView, TemporaryView};
use crate::types::{Address, Error};

verus! {

/// Whether the signer at a place approved, by the number on record.
pub open spec fn approved_by(record: u32, place: u32) -> bool {
    (record >> place) & 1 == 1
}

/// How many of the first `n` signers approved, by the number on record.
pub open spec fn how_many(record: u32, n: nat) -> int
    decreases n,
{
    if n == 0 {
        0
    } else {
        how_many(record, (n - 1) as nat) + (if approved_by(record, (n - 1) as u32) {
            1int
        } else {
            0
        })
    }
}

/// Whether an address stands first at a place of a list.
pub open spec fn stands_first(list: Seq<Address>, address: Address, place: int) -> bool {
    &&& 0 <= place < list.len()
    &&& list[place] == address
    &&& forall|i: int| 0 <= i < place ==> #[trigger] list[i] != address
}

/// The number on record for a proposal; none counts as zero.
pub open spec fn record_of(l: LedgerView, proposal_id: u32) -> u32 {
    if l.temporary.multisig_approval.contains_key(proposal_id) {
        l.temporary.multisig_approval[proposal_id]
    } else {
        0
    }
}

proof fn lemma_approval_is_noted(record: u32, place: u32)
    requires
        place < 32,
    ensures
        forall|i: u32|
            i < 32 ==> (#[trigger] approved_by(record | (1u32 << place), i) <==> approved_by(
                record,
                i,
            ) || i == place),
{
    assert forall|i: u32| i < 32 implies (#[trigger] approved_by(record | (1u32 << place), i)
        <==> approved_by(record, i) || i == place) by {
        assert(((record | (1u32 << place)) >> i) & 1 == 1 <==> (record >> i) & 1 == 1 || i == place)
            by (bit_vector)
            requires
                place < 32,
                i < 32,
        ;
    }
}

/// Approvals are counted one by one.
pub proof fn approvals_are_counted(record: u32, n: nat)
    ensures
        MilestoneEscrow::bits_set(record, n) == how_many(record, n),
        0 <= how_many(record, n) <= n,
    decreases n,
{
    if n > 0 {
        approvals_are_counted(record, (n - 1) as nat);
    }
}

pub(crate) proof fn lemma_stands_first(list: Seq<Address>, address: Address, place: int)
    requires
        list.contains(address),
        stands_first(list, address, place),
    ensures
        place == MilestoneEscrow::first_index(list, address),
{
    let k = MilestoneEscrow::first_index(list, address);
    crate::promises::lemma_first_index(list, address);
    assert(list[k] == address);
    assert(list[place] == address);
}

/// A registered signer can approve a proposal about a job: their approval, and no
/// other, is noted, and all that are noted are counted.
pub proof fn a_signer_approves(
    l: LedgerView,
    c: Context,
    signer: Address,
    proposal_id: u32,
    place: int,
)
    requires
        l.instance.multisig_signers is Some && l.instance.multisig_signers->0.contains(signer)
            ==> stands_first(l.instance.multisig_signers->0, signer, place),
    ensures
        ({
            let outcome = MilestoneEscrow::multisig_approve_outcome(l, c, signer, proposal_id);
            let signers = l.instance.multisig_signers->0;
            let threshold = l.instance.multisig_threshold->0;
            let before = record_of(l, proposal_id);
            &&& super::heard(
                outcome,
                None,
                seq![signer],
                if l.instance.multisig_threshold is None || l.instance.multisig_signers is None {
                    Some(Error::NotInitialized)
                } else if !signers.contains(signer) {
                    Some(Error::Unauthorized)
                } else if l.instance.job is None {
                    Some(Error::NotInitialized)
                } else if c.balance <= 0 {
                    Some(Error::MultiSigEmptyBalance)
                } else if place >= 32 {
                    Some(Error::InvalidAmount)
                } else {
                    None
                },
            )
            &&& outcome.result matches Ok(step) ==> {
                let state = step.value;
                &&& forall|i: u32|
                    i < 32 ==> (#[trigger] approved_by(state.bitmap, i) <==> approved_by(before, i)
                        || i == place)
                &&& state.approvals == how_many(state.bitmap, 32)
                &&& state.threshold == threshold
                &&& state.approved <==> state.approvals >= threshold
                &&& step.ledger =~= LedgerView {
                    temporary: TemporaryView {
                        multisig_approval: l.temporary.multisig_approval.insert(
                            proposal_id,
                            state.bitmap,
                        ),
                        ..l.temporary
                    },
                    ..l
                }
                &&& step.actions =~= Seq::<Action>::empty()
                &&& step.events =~= seq![
                    Event::MultiSigApproved(
                        MultiSigApprovedEvent {
                            proposal_id,
                            signer,
                            approvals: state.approvals,
                            threshold,
                            approved: state.approved,
                            bitmap: state.bitmap,
                        },
                    ),
                ]
            }
        }),
{
    if l.instance.multisig_signers is Some && l.instance.multisig_signers->0.contains(signer) {
        lemma_stands_first(l.instance.multisig_signers->0, signer, place);
        if place < 32 {
            let before = record_of(l, proposal_id);
            lemma_approval_is_noted(before, place as u32);
            approvals_are_counted(before | (1u32 << (place as u32)), 32);
        }
    }
}

/// How far a proposal has come is what was noted for it, counted.
pub proof fn a_state_counts_what_is_noted(l: LedgerView, proposal_id: u32, threshold: u32)
    ensures
        ({
            let record = record_of(l, proposal_id);
            let state = MilestoneEscrow::approval_state(l.approval_bitmap(proposal_id), threshold);
            &&& state.bitmap == record
            &&& state.approvals == how_many(record, 32)
            &&& state.threshold == threshold
            &&& state.approved <==> state.approvals >= threshold
        }),
{
    approvals_are_counted(record_of(l, proposal_id), 32);
}

/// Why signers are not registered, if they are not: there is none, there are too
/// many, too few or too many of them would have to approve, or one stands twice.
pub proof fn signers_are_some_distinct_addresses(signers: Seq<Address>, threshold: u32)
    ensures
        ({
            let error = MilestoneEscrow::multisig_setup_error(signers, threshold);
            let twice = exists|i: int, j: int|
                0 <= i < j < signers.len() && #[trigger] signers[i] == #[trigger] signers[j];
            if signers.len() == 0 {
                error == Some(Error::MultiSigNoSigners)
            } else if signers.len() > 32 {
                error == Some(Error::MultiSigTooManySigners)
            } else if threshold < 1 || threshold > signers.len() {
                error == Some(Error::MultiSigInvalidThreshold)
            } else if twice {
                error == Some(Error::MultiSigDuplicateSigner)
            } else {
                error is None
            }
        }),
{
}

/// Only the admin registers signers, and only where none are. All that changes is
/// that just those are stored, with how many of them have to approve.
pub proof fn signers_are_registered_once(
    l: LedgerView,
    admin: Address,
    signers: Seq<Address>,
    threshold: u32,
)
    ensures
        ({
            let error = MilestoneEscrow::multisig_approval_init_error(
                l,
                admin,
                signers,
                threshold,
            );
            if super::not_admin(l.persistent.admin, admin) is Some {
                error == super::not_admin(l.persistent.admin, admin)
            } else if l.instance.multisig_signers is Some {
                error == Some(Error::AlreadyInitialized)
            } else {
                error == MilestoneEscrow::multisig_setup_error(signers, threshold)
            }
        }),
        MilestoneEscrow::with_signers(l, signers, threshold) =~= (LedgerView {
            instance: InstanceView {
                multisig_signers: Some(signers),
                multisig_threshold: Some(threshold),
                ..l.instance
            },
            ..l
        }),
{
}

/// The admin, as they are stored with the contract, can set the lock of the
/// signers where it is not set.
pub proof fn the_admin_locks_for_the_signers(l: LedgerView, admin: Address)
    ensures
        ({
            let outcome = MilestoneEscrow::multisig_lock_outcome(l, admin);
            &&& super::heard(
                outcome,
                None,
                seq![admin],
                if super::not_admin(l.instance.admin, admin) is Some {
                    super::not_admin(l.instance.admin, admin)
                } else if l.instance.multisig_locked == Some(true) {
                    Some(Error::InvalidStatus)
                } else if l.instance.emergency_pause_lock == Some(true) {
                    Some(Error::EmergencyPauseInProgress)
                } else {
                    None
                },
            )
            &&& outcome.result matches Ok(step) ==> {
                &&& step.ledger =~= LedgerView {
                    instance: InstanceView { multisig_locked: Some(true), ..l.instance },
                    ..l
                }
                &&& step.actions =~= Seq::<Action>::empty()
                &&& step.events =~= seq![
                    Event::MultisigLocked(MultisigLockedEvent { admin, locked: true }),
                ]
            }
        }),
{
}

/// While the lock of the signers is set the admin can have a split computed and
/// announced.
pub proof fn a_locked_split_is_announced(
    l: LedgerView,
    admin: Address,
    total_amount: i128,
    client_bps: u32,
    freelancer_bps: u32,
)
    ensures
        ({
            let outcome = MilestoneEscrow::multisig_split_refund_outcome(
                l,
                admin,
                total_amount,
                client_bps,
                freelancer_bps,
            );
            let total = total_amount as int;
            &&& super::heard(
                outcome,
                None,
                seq![admin],
                if super::not_admin(l.persistent.admin, admin) is Some {
                    super::not_admin(l.persistent.admin, admin)
                } else if l.instance.multisig_locked != Some(true) {
                    Some(Error::InvalidStatus)
                } else {
                    super::no_split(total, client_bps as int, freelancer_bps as int)
                },
            )
            &&& outcome.result matches Ok(step) ==> {
                &&& super::is_split(step.value, total, client_bps, freelancer_bps)
                &&& step.ledger =~= l
                &&& step.actions =~= Seq::<Action>::empty()
                &&& step.events =~= seq![
                    Event::MultisigSplitRefund(
                        SplitRefundCalculatedEvent {
                            client_refund: step.value.client_refund,
                            freelancer_payout: step.value.freelancer_payout,
                            client_refund_bps: client_bps,
                            freelancer_payout_bps: freelancer_bps,
                        },
                    ),
                ]
            }
        }),
{
    super::an_amount_is_split_to_the_nearest(total_amount, client_bps, freelancer_bps);
}

} // verus!
