//! Who governs a contract, and how what it says is read.

use vstd::prelude::*;

use crate::arith::MilestoneEscrow;
use crate::events::{
    AdminTransferCancelledEvent, AdminTransferExecutedEvent, AdminTransferProposedEvent,
    ContractUpgradedEvent, Event, TokenRemovedEvent, TokenWhitelistedEvent, TransferAdminEvent,
};
use crate::host::{Action, Context, InstanceView, LedgerView, PersistentView};
use crate::types::{Address, Error, PendingAdminTransfer};

verus! {

/// The admin can hand over at once while no successor is proposed; both copies
/// of the admin change.
pub proof fn the_admin_hands_over(l: LedgerView, current_admin: Address, new_admin: Address)
    ensures
        ({
            let outcome = MilestoneEscrow::transfer_admin_outcome(l, current_admin, new_admin);
            &&& super::heard(
                outcome,
                None,
                seq![current_admin],
                if super::not_admin(l.persistent.admin, current_admin) is Some {
                    super::not_admin(l.persistent.admin, current_admin)
                } else if super::nobody(new_admin) {
                    Some(Error::InvalidAddress)
                } else if l.persistent.pending_admin_transfer is Some {
                    Some(Error::AdminTransferPending)
                } else {
                    None
                },
            )
            &&& outcome.result matches Ok(step) ==> {
                &&& step.ledger =~= LedgerView {
                    instance: InstanceView { admin: Some(new_admin), ..l.instance },
                    persistent: PersistentView { admin: Some(new_admin), ..l.persistent },
                    ..l
                }
                &&& step.actions =~= Seq::<Action>::empty()
                &&& step.events =~= seq![
                    Event::AdminTransferred(
                        TransferAdminEvent { old_admin: current_admin, new_admin },
                    ),
                ]
            }
        }),
{
}

/// The admin can propose a successor where none is proposed; that alone is
/// stored.
pub proof fn a_successor_is_proposed(
    l: LedgerView,
    admin: Address,
    new_admin: Address,
    proposal_id: u32,
)
    ensures
        ({
            let outcome = MilestoneEscrow::propose_admin_transfer_outcome(
                l,
                admin,
                new_admin,
                proposal_id,
            );
            &&& super::heard(
                outcome,
                if l.persistent.admin is None {
                    Some(Error::NotInitialized)
                } else {
                    None
                },
                seq![admin],
                if l.persistent.admin->0 != admin {
                    Some(Error::Unauthorized)
                } else if super::nobody(new_admin) {
                    Some(Error::InvalidAddress)
                } else if l.persistent.pending_admin_transfer is Some {
                    Some(Error::AdminTransferPending)
                } else {
                    None
                },
            )
            &&& outcome.result matches Ok(step) ==> {
                &&& step.ledger =~= LedgerView {
                    persistent: PersistentView {
                        pending_admin_transfer: Some(
                            PendingAdminTransfer { new_admin, proposal_id },
                        ),
                        ..l.persistent
                    },
                    ..l
                }
                &&& step.actions =~= Seq::<Action>::empty()
                &&& step.events =~= seq![
                    Event::AdminTransferProposed(
                        AdminTransferProposedEvent { admin, new_admin, proposal_id },
                    ),
                ]
            }
        }),
{
}

/// Once enough signers approved the proposal, anyone can have the proposed
/// successor take over; nothing is proposed then.
pub proof fn a_successor_takes_over_once_approved(l: LedgerView)
    ensures
        ({
            let outcome = MilestoneEscrow::execute_admin_transfer_outcome(l);
            let pending = l.persistent.pending_admin_transfer->0;
            let approvals = super::approvals::how_many(
                super::approvals::record_of(l, pending.proposal_id),
                32,
            );
            &&& super::heard(
                outcome,
                if l.persistent.admin is None {
                    Some(Error::NotInitialized)
                } else if l.persistent.pending_admin_transfer is None {
                    Some(Error::NoPendingAdminTransfer)
                } else if l.instance.multisig_threshold is None {
                    Some(Error::NotInitialized)
                } else if approvals < l.instance.multisig_threshold->0 {
                    Some(Error::MultiSigThresholdNotMet)
                } else {
                    None
                },
                Seq::empty(),
                None,
            )
            &&& outcome.result matches Ok(step) ==> {
                &&& step.ledger =~= LedgerView {
                    instance: InstanceView {
                        admin: if l.persistent.admin->0 == pending.new_admin {
                            l.instance.admin
                        } else {
                            Some(pending.new_admin)
                        },
                        ..l.instance
                    },
                    persistent: PersistentView {
                        admin: Some(pending.new_admin),
                        pending_admin_transfer: None,
                        ..l.persistent
                    },
                    ..l
                }
                &&& step.actions =~= Seq::<Action>::empty()
                &&& step.events =~= seq![
                    Event::AdminTransferExecuted(
                        AdminTransferExecutedEvent {
                            old_admin: l.persistent.admin->0,
                            new_admin: pending.new_admin,
                            proposal_id: pending.proposal_id,
                        },
                    ),
                ]
            }
        }),
{
    let pending = l.persistent.pending_admin_transfer->0;
    super::approvals::approvals_are_counted(
        super::approvals::record_of(l, pending.proposal_id),
        32,
    );
}

/// The admin can take a proposal back; nothing is proposed then.
pub proof fn a_proposal_is_taken_back(l: LedgerView, admin: Address)
    ensures
        ({
            let outcome = MilestoneEscrow::cancel_admin_transfer_proposal_outcome(l, admin);
            &&& super::heard(
                outcome,
                None,
                seq![admin],
                if super::not_admin(l.persistent.admin, admin) is Some {
                    super::not_admin(l.persistent.admin, admin)
                } else if l.persistent.pending_admin_transfer is None {
                    Some(Error::NoPendingAdminTransfer)
                } else {
                    None
                },
            )
            &&& outcome.result matches Ok(step) ==> {
                &&& step.ledger =~= LedgerView {
                    persistent: PersistentView { pending_admin_transfer: None, ..l.persistent },
                    ..l
                }
                &&& step.actions =~= Seq::<Action>::empty()
                &&& step.events =~= seq![
                    Event::AdminTransferCancelled(
                        AdminTransferCancelledEvent {
                            admin,
                            proposal_id: l.persistent.pending_admin_transfer->0.proposal_id,
                        },
                    ),
                ]
            }
        }),
{
}

/// Taking a proposal back leaves things as they were before it was made.
pub proof fn taking_back_undoes_proposing(
    l: LedgerView,
    admin: Address,
    new_admin: Address,
    proposal_id: u32,
)
    requires
        MilestoneEscrow::propose_admin_transfer_outcome(
            l,
            admin,
            new_admin,
            proposal_id,
        ).result is Ok,
    ensures
        ({
            let proposed = MilestoneEscrow::propose_admin_transfer_outcome(
                l,
                admin,
                new_admin,
                proposal_id,
            ).result->Ok_0.ledger;
            let taken = MilestoneEscrow::cancel_admin_transfer_proposal_outcome(proposed, admin);
            taken.result is Ok && taken.result->Ok_0.ledger =~= l
        }),
{
}

/// Until a job is funded the admin can put a token at the end of the list that
/// jobs are paid in, once, while the list is not full.
pub proof fn a_token_is_listed(l: LedgerView, c: Context, admin: Address, token: Address)
    ensures
        ({
            let outcome = MilestoneEscrow::add_whitelisted_token_outcome(l, c, admin, token);
            let tokens = l.instance.whitelisted_tokens->0;
            &&& super::heard(
                outcome,
                None,
                seq![admin],
                if super::not_admin(l.persistent.admin, admin) is Some {
                    super::not_admin(l.persistent.admin, admin)
                } else if super::nobody(token) || token == c.contract {
                    Some(Error::InvalidAddress)
                } else if l.instance.job is None {
                    Some(Error::NotInitialized)
                } else if l.instance.job->0.funded {
                    Some(Error::AlreadyFunded)
                } else if l.instance.whitelisted_tokens is None {
                    Some(Error::NotInitialized)
                } else if tokens.contains(token) {
                    Some(Error::TokenAlreadyWhitelisted)
                } else if tokens.len() >= 50 {
                    Some(Error::InvalidAmount)
                } else {
                    None
                },
            )
            &&& outcome.result matches Ok(step) ==> {
                &&& step.ledger =~= LedgerView {
                    instance: InstanceView {
                        whitelisted_tokens: Some(tokens.push(token)),
                        ..l.instance
                    },
                    ..l
                }
                &&& step.actions =~= Seq::<Action>::empty()
                &&& step.events =~= seq![
                    Event::TokenWhitelisted(TokenWhitelistedEvent { admin, token }),
                ]
            }
        }),
{
}

/// Until a job is funded the admin can strike a token off the list, but not the
/// last one: where the token first stood, the last of the list now stands.
pub proof fn a_token_is_struck_off(
    l: LedgerView,
    admin: Address,
    token: Address,
    place: int,
)
    requires
        l.instance.whitelisted_tokens is Some && l.instance.whitelisted_tokens->0.contains(token)
            ==> super::approvals::stands_first(l.instance.whitelisted_tokens->0, token, place),
    ensures
        ({
            let outcome = MilestoneEscrow::remove_whitelisted_token_outcome(l, admin, token);
            let tokens = l.instance.whitelisted_tokens->0;
            &&& super::heard(
                outcome,
                None,
                seq![admin],
                if super::not_admin(l.persistent.admin, admin) is Some {
                    super::not_admin(l.persistent.admin, admin)
                } else if l.instance.job is None {
                    Some(Error::NotInitialized)
                } else if l.instance.job->0.funded {
                    Some(Error::AlreadyFunded)
                } else if super::nobody(token) {
                    Some(Error::InvalidAddress)
                } else if l.instance.whitelisted_tokens is None {
                    Some(Error::NotInitialized)
                } else if !tokens.contains(token) {
                    Some(Error::TokenNotWhitelisted)
                } else if tokens.len() == 1 {
                    Some(Error::InvalidAmount)
                } else {
                    None
                },
            )
            &&& outcome.result matches Ok(step) ==> {
                let now = step.ledger.instance.whitelisted_tokens->0;
                &&& now.len() == tokens.len() - 1
                &&& forall|i: int|
                    0 <= i < now.len() ==> #[trigger] now[i] == (if i == place {
                        tokens[tokens.len() - 1]
                    } else {
                        tokens[i]
                    })
                &&& step.ledger =~= LedgerView {
                    instance: InstanceView { whitelisted_tokens: Some(now), ..l.instance },
                    ..l
                }
                &&& step.actions =~= Seq::<Action>::empty()
                &&& step.events =~= seq![
                    Event::TokenRemoved(TokenRemovedEvent { admin, token }),
                ]
            }
        }),
{
    if l.instance.whitelisted_tokens is Some && l.instance.whitelisted_tokens->0.contains(token) {
        super::approvals::lemma_stands_first(l.instance.whitelisted_tokens->0, token, place);
    }
}

/// The admin can replace the code of a contract that is neither frozen nor
/// cancelled; the version goes up by one.
pub proof fn an_upgrade_counts_up(l: LedgerView, admin: Address, new_wasm_hash: [u8; 32])
    ensures
        ({
            let outcome = MilestoneEscrow::upgrade_outcome(l, admin, new_wasm_hash);
            let next = 1 + (if l.instance.version is Some {
                l.instance.version->0 as int
            } else {
                1
            });
            &&& super::heard(
                outcome,
                None,
                seq![admin],
                if super::not_admin(l.persistent.admin, admin) is Some {
                    super::not_admin(l.persistent.admin, admin)
                } else if l.instance.emergency_paused == Some(true) {
                    Some(Error::Paused)
                } else if l.instance.cancel_lock == Some(true) {
                    Some(Error::EscrowLocked)
                } else if next > u32::MAX {
                    Some(Error::InvalidAmount)
                } else {
                    None
                },
            )
            &&& outcome.result matches Ok(step) ==> {
                &&& step.ledger =~= LedgerView {
                    instance: InstanceView { version: Some(next as u32), ..l.instance },
                    ..l
                }
                &&& step.actions =~= seq![Action::UpdateWasm { hash: new_wasm_hash }]
                &&& step.events =~= seq![
                    Event::ContractUpgraded(
                        ContractUpgradedEvent { admin, new_wasm_hash, version: next as u32 },
                    ),
                ]
            }
        }),
{
}

/// The errors, in the order of their numbers.
pub open spec fn numbered() -> Seq<Error> {
    seq![
        Error::AlreadyInitialized,
        Error::NotInitialized,
        Error::AlreadyFunded,
        Error::NotFunded,
        Error::Unauthorized,
        Error::InvalidMilestone,
        Error::InvalidStatus,
        Error::TokenNotWhitelisted,
        Error::TokenAlreadyWhitelisted,
        Error::InvalidAmount,
        Error::DeadlineNotPassed,
        Error::InvalidAddress,
        Error::Paused,
        Error::InvalidRatio,
        Error::InvalidExtension,
        Error::EscrowLocked,
        Error::MultiSigNoSigners,
        Error::MultiSigTooManySigners,
        Error::MultiSigInvalidThreshold,
        Error::MultiSigDuplicateSigner,
        Error::AdminTransferPending,
        Error::NoPendingAdminTransfer,
        Error::MultiSigThresholdNotMet,
        Error::DisputeAlreadyRaised,
        Error::MultiSigEmptyBalance,
        Error::TaxWithholdingInProgress,
        Error::PlatformFeeAllocationInProgress,
        Error::EmergencyPauseInProgress,
        Error::AlreadyPaused,
        Error::NotPaused,
        Error::InvalidAllocationWeights,
        Error::EmptyBalance,
        Error::TimeExtInProgress,
        Error::PaymentStreamingInProgress,
        Error::FeeTooHigh,
        Error::ArithmeticOverflow,
        Error::InsufficientBalance,
    ]
}

/// The numbers of the errors count up from one.
pub proof fn errors_are_numbered(i: int)
    requires
        0 <= i < numbered().len(),
    ensures
        numbered().len() == 37,
        numbered()[i].spec_code() == i + 1,
{
}

/// What an event is published under tells what happened.
pub proof fn events_have_their_topics(event: Event)
    ensures
        event is Initialized ==> event.spec_topic() == "init"@,
        event is AdminTransferred ==> event.spec_topic() == "admin"@,
        event is TokenWhitelisted ==> event.spec_topic() == "wtok"@,
        event is TokenRemoved ==> event.spec_topic() == "wldel"@,
        event is Funded ==> event.spec_topic() == "fund"@,
        event is Delivered ==> event.spec_topic() == "deliver"@,
        event is DeadlineExtended ==> event.spec_topic() == "extend"@,
        event is Claimed ==> event.spec_topic() == "claim"@,
        event is Approved ==> event.spec_topic() == "approve"@,
        event is DisputeRaised ==> event.spec_topic() == "dispute"@,
        event is DisputeResolved ==> event.spec_topic() == "resolve"@,
        event is ArbitrationSplitApplied ==> event.spec_topic() == "arbsplit"@,
        event is CancelEscrowInitiated ==> event.spec_topic() == "cancel"@,
        event is CancelApprovalRecorded ==> event.spec_topic() == "cxlappr"@,
        event is CancelApprovalRevoked ==> event.spec_topic() == "cancelrev"@,
        event is AdminCancelOverrideRelease ==> event.spec_topic() == "adcovls"@,
        event is AdminCancelOverrideRefund ==> event.spec_topic() == "adcovrf"@,
        event is ContractUpgraded ==> event.spec_topic() == "upgrade"@,
        event is EmergencyPaused ==> event.spec_topic() == "empause"@,
        event is EmergencyUnpaused ==> event.spec_topic() == "emunpause"@,
        event is EmergencyPauseAdminOverride ==> event.spec_topic() == "emoverrid"@,
        event is EmergencyPauseClaimRefund ==> event.spec_topic() == "emergency_pause_claim_refund"@,
        event is EmergencyPauseAllocation ==> event.spec_topic() == "epalloc"@,
        event is EmergencyPauseSplitRefund ==> event.spec_topic() == "epspltref"@,
        event is EscrowPaused ==> event.spec_topic() == "pause"@,
        event is EscrowResumed ==> event.spec_topic() == "resume"@,
        event is PlatformFeeAllocationSet ==> event.spec_topic() == "pf_set"@,
        event is PlatformFeeAllocationLocked ==> event.spec_topic() == "pf_lock"@,
        event is PlatformFeeAllocationOverride ==> event.spec_topic() == "pf_ovr"@,
        event is PlatformFeeSplitCalculated ==> event.spec_topic() == "pf_split"@,
        event is PaymentStreaming ==> event.spec_topic() == "p_stream"@,
        event is PaymentStreamingConsent ==> event.spec_topic() == "p_strcns"@,
        event is MilestoneTimeExtension ==> event.spec_topic() == "m_ext"@,
        event is TimeExtConsent ==> event.spec_topic() == "m_extcns"@,
        event is MultiSigTransferAdmin ==> event.spec_topic() == "msigtrx"@,
        event is MultisigApprovalInit ==> event.spec_topic() == "msiginit"@,
        event is MultiSigApproved ==> event.spec_topic() == "msigappr"@,
        event is MultisigLocked ==> event.spec_topic() == "mslock"@,
        event is MultisigSplitRefund ==> event.spec_topic() == "splitref"@,
        event is MultisigAdminOverrideRelease ==> event.spec_topic() == "msadmrel"@,
        event is MultisigAdminOverrideRefund ==> event.spec_topic() == "msadmref"@,
        event is AdminTransferProposed ==> event.spec_topic() == "adminprp"@,
        event is AdminTransferExecuted ==> event.spec_topic() == "adminexc"@,
        event is AdminTransferCancelled ==> event.spec_topic() == "admincxl"@,
        event is EscrowInterestYield ==> event.spec_topic() == "intyield"@,
        event is EscrowInterestYieldSet ==> event.spec_topic() == "yldset"@,
        event is EscrowInterestYieldConsentSet ==> event.spec_topic() == "yldcons"@,
        event is EscrowInterestYieldLocked ==> event.spec_topic() == "yldlock"@,
        event is EscrowInterestYieldUnlocked ==> event.spec_topic() == "yldunlock"@,
        event is InterestYieldSplitRefund ==> event.spec_topic() == "iyspltref"@,
        event is SplitRefundNetDistribution ==> event.spec_topic() == "sprefnet"@,
        event is CancelSplitRefundCalculated ==> event.spec_topic() == "cxlspref"@,
        event is YieldRateSet ==> event.spec_topic() == "yldrate"@,
        event is YieldAccrued ==> event.spec_topic() == "yldacc"@,
        event is AdminOverrideRelease ==> event.spec_topic() == "admovrls"@,
        event is AdminOverrideRefund ==> event.spec_topic() == "admovrf"@,
        event is AdminOverrideStreamingRelease ==> event.spec_topic() == "admstrm"@,
        event is TaxWithholdingApplied ==> event.spec_topic() == "taxwith"@,
        event is TaxWithholdingSplitRefund ==> event.spec_topic() == "twspltref"@,
        event is TaxWithholdingDeductions ==> event.spec_topic() == "taxwh"@,
        event is AdminOverrideTaxRelease ==> event.spec_topic() == "adtxrls"@,
        event is AdminOverrideTaxRefund ==> event.spec_topic() == "adtxrfd"@,
        event is AdminOverrideTaxSplitRefund ==> event.spec_topic() == "adtwsplt"@,
{
}

} // verus!
