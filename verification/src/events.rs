//! What the contract publishes.

use vstd::prelude::*;

use crate::types::{Address, MilestoneStatus};

verus! {

/// The job was set up.
#[derive(Clone, Debug, PartialEq)]
pub struct InitializedEvent {
    pub client: Address,
    pub freelancer: Address,
    pub arbiter: Address,
    pub token: Address,
    pub auto_release_seconds: u64,
    pub milestone_amounts: soroban_sdk::Vec<i128>,
    pub total_amount: i128,
    pub milestone_count: u32,
}

/// The client deposited the whole job total.
#[derive(Clone, Copy, Debug, PartialEq, Eq, Structural)]
pub struct FundedEvent {
    pub contract_id: Address,
    pub client: Address,
    pub freelancer: Address,
    pub arbiter: Address,
    pub token: Address,
    pub total_amount: i128,
    pub milestone_count: u32,
    pub auto_release_seconds: u64,
    pub funded: bool,
}

/// The freelancer delivered a milestone.
#[derive(Clone, Copy, Debug, PartialEq, Eq, Structural)]
pub struct DeliveredEvent {
    pub contract_id: Address,
    pub milestone_index: u32,
    pub freelancer: Address,
    pub client: Address,
    pub delivered_at: u64,
    pub status: MilestoneStatus,
    pub amount: i128,
}

/// The client granted a milestone more time.
#[derive(Clone, Copy, Debug, PartialEq, Eq, Structural)]
pub struct DeadlineExtendedEvent {
    pub contract_id: Address,
    pub milestone_index: u32,
    pub client: Address,
    pub extra_seconds: u32,
    pub new_extension: u32,
}

/// The client released all or part of a milestone. `amount` is the gross amount of the milestone.
#[derive(Clone, Copy, Debug, PartialEq, Eq, Structural)]
pub struct ApprovedEvent {
    pub contract_id: Address,
    pub milestone_index: u32,
    pub client: Address,
    pub freelancer: Address,
    pub arbiter: Address,
    pub token: Address,
    pub amount: i128,
    pub released_amount: i128,
    pub remaining: i128,
    pub status: MilestoneStatus,
    pub milestone_count: u32,
    pub total_amount: i128,
    pub auto_release_seconds: u64,
}

/// A party disputed a milestone.
#[derive(Clone, Copy, Debug, PartialEq, Eq, Structural)]
pub struct DisputeRaisedEvent {
    pub milestone_index: u32,
    pub caller: Address,
    pub milestone_amount: i128,
    pub new_status: MilestoneStatus,
}

/// A dispute was settled; `amount` was at stake and `paid_amount` moved.
#[derive(Clone, Copy, Debug, PartialEq, Eq, Structural)]
pub struct DisputeResolvedEvent {
    pub contract_id: Address,
    pub milestone_index: u32,
    pub arbiter: Address,
    pub client: Address,
    pub freelancer: Address,
    pub token: Address,
    pub amount: i128,
    pub paid_amount: i128,
    pub released_to_freelancer: bool,
    pub status: MilestoneStatus,
}

/// An arbiter split a disputed milestone.
#[derive(Clone, Copy, Debug, PartialEq, Eq, Structural)]
pub struct ArbitrationSplitAppliedEvent {
    pub contract_id: Address,
    pub arbiter: Address,
    pub milestone_index: u32,
    pub client: Address,
    pub freelancer: Address,
    pub token: Address,
    pub client_refund: i128,
    pub freelancer_payout: i128,
    pub client_refund_bps: u32,
    pub freelancer_payout_bps: u32,
    pub released_amount: i128,
    pub status: MilestoneStatus,
}

/// The admin computed what a milestone would be taxed.
#[derive(Clone, Copy, Debug, PartialEq, Eq, Structural)]
pub struct TaxWithholdingDeductionsEvent {
    pub admin: Address,
    pub contract_id: Address,
    pub milestone_index: u32,
    pub gross_amount: i128,
    pub tax_amount: i128,
    pub net_amount: i128,
    pub tax_rate_bps: u32,
}

/// The admin replaced a locked fee allocation.
#[derive(Clone, Copy, Debug, PartialEq, Eq, Structural)]
pub struct PlatformFeeAllocationOverrideEvent {
    pub admin: Address,
    pub contract_id: Address,
    pub client_bps: u32,
    pub freelancer_bps: u32,
    pub treasury_bps: u32,
    pub locked: bool,
}

/// The admin set the fee allocation.
#[derive(Clone, Copy, Debug, PartialEq, Eq, Structural)]
pub struct PlatformFeeAllocationSetEvent {
    pub admin: Address,
    pub client_bps: u32,
    pub freelancer_bps: u32,
    pub treasury_bps: u32,
}

/// The admin locked the fee allocation.
#[derive(Clone, Copy, Debug, PartialEq, Eq, Structural)]
pub struct PlatformFeeAllocationLockedEvent {
    pub admin: Address,
    pub client_bps: u32,
    pub freelancer_bps: u32,
    pub treasury_bps: u32,
}

/// A fee split was computed.
#[derive(Clone, Copy, Debug, PartialEq, Eq, Structural)]
pub struct PlatformFeeSplitCalculatedEvent {
    pub total_amount: i128,
    pub client_amount: i128,
    pub freelancer_amount: i128,
    pub treasury_amount: i128,
}

/// A milestone was released by the passing of time, with its times.
#[derive(Clone, Copy, Debug, PartialEq, Eq, Structural)]
pub struct AutoReleasedEvent {
    pub contract_id: Address,
    pub milestone_index: u32,
    pub freelancer: Address,
    pub client: Address,
    pub token: Address,
    pub amount: i128,
    pub delivered_at: u64,
    pub released_at: u64,
    pub auto_release_seconds: u64,
}

/// The admin handed over.
#[derive(Clone, Copy, Debug, PartialEq, Eq, Structural)]
pub struct TransferAdminEvent {
    pub old_admin: Address,
    pub new_admin: Address,
}

/// A token joined the whitelist.
#[derive(Clone, Copy, Debug, PartialEq, Eq, Structural)]
pub struct TokenWhitelistedEvent {
    pub admin: Address,
    pub token: Address,
}

/// A token left the whitelist.
#[derive(Clone, Copy, Debug, PartialEq, Eq, Structural)]
pub struct TokenRemovedEvent {
    pub admin: Address,
    pub token: Address,
}

/// The freelancer claimed a milestone after its deadline.
#[derive(Clone, Copy, Debug, PartialEq, Eq, Structural)]
pub struct ClaimedEvent {
    pub contract_id: Address,
    pub milestone_index: u32,
    pub freelancer: Address,
    pub token: Address,
    pub amount: i128,
}

/// Both parties agreed to cancel; the escrow is locked.
#[derive(Clone, Copy, Debug, PartialEq, Eq, Structural)]
pub struct CancelEscrowInitiatedEvent {
    pub contract_id: Address,
    pub caller: Address,
    pub caller_is_client: bool,
    pub client: Address,
    pub freelancer: Address,
    pub token: Address,
    pub milestone_count: u32,
    pub total_amount: i128,
}

/// One party asked to cancel.
#[derive(Clone, Copy, Debug, PartialEq, Eq, Structural)]
pub struct CancelApprovalRecordedEvent {
    pub contract_id: Address,
    pub caller: Address,
    pub approval_mask: u32,
}

/// A party took its cancel approval back.
#[derive(Clone, Copy, Debug, PartialEq, Eq, Structural)]
pub struct CancelApprovalRevokedEvent {
    pub contract_id: Address,
    pub caller: Address,
    pub approval_mask: u32,
}

/// The admin settled a cancelled escrow for the freelancer.
#[derive(Clone, Copy, Debug, PartialEq, Eq, Structural)]
pub struct AdminCancelOverrideReleaseEvent {
    pub admin: Address,
    pub contract_id: Address,
    pub freelancer: Address,
    pub token: Address,
    pub total_released: i128,
}

/// The admin settled a cancelled escrow for the client.
#[derive(Clone, Copy, Debug, PartialEq, Eq, Structural)]
pub struct AdminCancelOverrideRefundEvent {
    pub admin: Address,
    pub contract_id: Address,
    pub client: Address,
    pub token: Address,
    pub total_refunded: i128,
}

/// Both parties froze the escrow.
#[derive(Clone, Copy, Debug, PartialEq, Eq, Structural)]
pub struct EmergencyPausedEvent {
    pub client: Address,
    pub freelancer: Address,
    pub contract_id: Address,
}

/// The admin lifted the freeze.
#[derive(Clone, Copy, Debug, PartialEq, Eq, Structural)]
pub struct EmergencyUnpausedEvent {
    pub admin: Address,
    pub contract_id: Address,
}

/// A split of a frozen escrow was computed for its client.
#[derive(Clone, Copy, Debug, PartialEq, Eq, Structural)]
pub struct EmergencyPauseClaimRefundEvent {
    pub claimant: Address,
    pub refund_amount: i128,
    pub freelancer_payout: i128,
    pub remaining_balance: i128,
    pub timestamp: u64,
}

/// The admin set the freeze by hand.
#[derive(Clone, Copy, Debug, PartialEq, Eq, Structural)]
pub struct EmergencyPauseAdminOverrideEvent {
    pub admin: Address,
    pub contract_id: Address,
    pub paused: bool,
    pub previous: bool,
}

/// Both parties had a withholding recorded.
#[derive(Clone, Copy, Debug, PartialEq, Eq, Structural)]
pub struct TaxWithholdingAppliedEvent {
    pub contract_id: Address,
    pub milestone_index: u32,
    pub gross_amount: i128,
    pub tax_amount: i128,
    pub net_amount: i128,
    pub tax_rate_bps: u32,
}

/// A split of a taxed amount was computed.
#[derive(Clone, Copy, Debug, PartialEq, Eq, Structural)]
pub struct TaxWithholdingSplitRefundEvent {
    pub gross_amount: i128,
    pub tax_amount: i128,
    pub net_amount: i128,
    pub client_refund: i128,
    pub freelancer_payout: i128,
    pub client_refund_bps: u32,
    pub freelancer_payout_bps: u32,
}

/// The admin paid the freelancer net of tax.
#[derive(Clone, Copy, Debug, PartialEq, Eq, Structural)]
pub struct AdminOverrideTaxReleaseEvent {
    pub admin: Address,
    pub contract_id: Address,
    pub milestone_index: u32,
    pub freelancer: Address,
    pub token: Address,
    pub net_amount: i128,
    pub tax_amount: i128,
}

/// The admin returned the gross amount to the client.
#[derive(Clone, Copy, Debug, PartialEq, Eq, Structural)]
pub struct AdminOverrideTaxRefundEvent {
    pub admin: Address,
    pub contract_id: Address,
    pub milestone_index: u32,
    pub client: Address,
    pub token: Address,
    pub gross_amount: i128,
}

/// The admin split the net amount between the parties.
#[derive(Clone, Copy, Debug, PartialEq, Eq, Structural)]
pub struct AdminOverrideTaxSplitRefundEvent {
    pub admin: Address,
    pub contract_id: Address,
    pub milestone_index: u32,
    pub client: Address,
    pub freelancer: Address,
    pub token: Address,
    pub gross_amount: i128,
    pub tax_amount: i128,
    pub client_refund: i128,
    pub freelancer_payout: i128,
    pub client_refund_bps: u32,
    pub freelancer_payout_bps: u32,
}

/// The admin changed the yield rate.
#[derive(Clone, Copy, Debug, PartialEq, Eq, Structural)]
pub struct YieldRateSetEvent {
    pub admin: Address,
    pub old_rate_bps: u32,
    pub new_rate_bps: u32,
}

/// The admin credited yield.
#[derive(Clone, Copy, Debug, PartialEq, Eq, Structural)]
pub struct YieldAccruedEvent {
    pub admin: Address,
    pub milestone_index: u32,
    pub accrued_amount: i128,
    pub total_accrued: i128,
}

/// The admin released a milestone.
#[derive(Clone, Copy, Debug, PartialEq, Eq, Structural)]
pub struct AdminOverrideReleaseEvent {
    pub admin: Address,
    pub contract_id: Address,
    pub milestone_index: u32,
    pub freelancer: Address,
    pub token: Address,
    pub amount: i128,
}

/// The admin refunded a milestone.
#[derive(Clone, Copy, Debug, PartialEq, Eq, Structural)]
pub struct AdminOverrideRefundEvent {
    pub admin: Address,
    pub contract_id: Address,
    pub milestone_index: u32,
    pub client: Address,
    pub token: Address,
    pub amount: i128,
}

/// Admin and both parties set the yield shares.
#[derive(Clone, Copy, Debug, PartialEq, Eq, Structural)]
pub struct EscrowInterestYieldConsentSetEvent {
    pub admin: Address,
    pub client: Address,
    pub freelancer: Address,
    pub client_share_bps: u32,
    pub freelancer_share_bps: u32,
}

/// A yield was estimated.
#[derive(Clone, Copy, Debug, PartialEq, Eq, Structural)]
pub struct EscrowInterestYieldEvent {
    pub principal: i128,
    pub annual_rate_bps: i128,
    pub duration_seconds: i128,
    pub yield_amount: i128,
}

/// The admin set the yield shares.
#[derive(Clone, Copy, Debug, PartialEq, Eq, Structural)]
pub struct EscrowInterestYieldSetEvent {
    pub admin: Address,
    pub client_share_bps: u32,
    pub freelancer_share_bps: u32,
    pub locked: bool,
}

/// The admin thawed the yield shares.
#[derive(Clone, Copy, Debug, PartialEq, Eq, Structural)]
pub struct EscrowInterestYieldUnlockedEvent {
    pub admin: Address,
    pub client_share_bps: u32,
    pub freelancer_share_bps: u32,
    pub locked: bool,
}

/// The admin froze the yield shares.
#[derive(Clone, Copy, Debug, PartialEq, Eq, Structural)]
pub struct EscrowInterestYieldLockedEvent {
    pub admin: Address,
    pub client_share_bps: u32,
    pub freelancer_share_bps: u32,
    pub locked: bool,
}

/// The admin settled a dispute by elapsed time.
#[derive(Clone, Copy, Debug, PartialEq, Eq, Structural)]
pub struct AdminOverrideStreamingReleaseEvent {
    pub admin: Address,
    pub contract_id: Address,
    pub milestone_index: u32,
    pub client: Address,
    pub freelancer: Address,
    pub token: Address,
    pub client_refund: i128,
    pub freelancer_payout: i128,
}

/// A signer approved a proposal.
#[derive(Clone, Copy, Debug, PartialEq, Eq, Structural)]
pub struct MultiSigApprovedEvent {
    pub proposal_id: u32,
    pub signer: Address,
    pub approvals: u32,
    pub threshold: u32,
    pub approved: bool,
    pub bitmap: u32,
}

/// The admin proposed a successor.
#[derive(Clone, Copy, Debug, PartialEq, Eq, Structural)]
pub struct AdminTransferProposedEvent {
    pub admin: Address,
    pub new_admin: Address,
    pub proposal_id: u32,
}

/// An approved successor took over.
#[derive(Clone, Copy, Debug, PartialEq, Eq, Structural)]
pub struct AdminTransferExecutedEvent {
    pub old_admin: Address,
    pub new_admin: Address,
    pub proposal_id: u32,
}

/// The admin withdrew a proposal.
#[derive(Clone, Copy, Debug, PartialEq, Eq, Structural)]
pub struct AdminTransferCancelledEvent {
    pub admin: Address,
    pub proposal_id: u32,
}

/// The admin paused the escrow.
#[derive(Clone, Copy, Debug, PartialEq, Eq, Structural)]
pub struct EscrowPausedEvent {
    pub admin: Address,
    pub contract_id: Address,
}

/// The admin resumed the escrow.
#[derive(Clone, Copy, Debug, PartialEq, Eq, Structural)]
pub struct EscrowResumedEvent {
    pub admin: Address,
    pub contract_id: Address,
}

/// Compact form of a whitelist addition.
#[derive(Clone, Copy, Debug, PartialEq, Eq, Structural)]
pub struct WhitelistedTokenAddedEvent {
    pub token: Address,
}

/// Compact form of a whitelist removal.
#[derive(Clone, Copy, Debug, PartialEq, Eq, Structural)]
pub struct WhitelistedTokenRemovedEvent {
    pub token: Address,
}

/// Compact form of a partial release.
#[derive(Clone, Copy, Debug, PartialEq, Eq, Structural)]
pub struct PartialReleaseApprovedEvent {
    pub milestone_index: u32,
    pub amount: i128,
}

/// Compact form of a claim.
#[derive(Clone, Copy, Debug, PartialEq, Eq, Structural)]
pub struct AutoReleaseClaimedEvent {
    pub milestone_index: u32,
    pub amount: i128,
}

/// A split by elapsed time was computed.
#[derive(Clone, Copy, Debug, PartialEq, Eq, Structural)]
pub struct MilestoneTimeExtensionEvent {
    pub amount: i128,
    pub elapsed_seconds: i128,
    pub total_seconds: i128,
    pub freelancer_share: i128,
    pub client_refund: i128,
}

/// A streaming split was computed.
#[derive(Clone, Copy, Debug, PartialEq, Eq, Structural)]
pub struct PaymentStreamingEvent {
    pub total_amount: i128,
    pub numerator: i128,
    pub denominator: i128,
    pub streamed_payout: i128,
    pub client_refund: i128,
}

/// A streaming split was computed with the consent of both parties.
#[derive(Clone, Copy, Debug, PartialEq, Eq, Structural)]
pub struct PaymentStreamingConsentEvent {
    pub client: Address,
    pub freelancer: Address,
    pub total_amount: i128,
    pub numerator: i128,
    pub denominator: i128,
    pub streamed_payout: i128,
    pub client_refund: i128,
}

/// A split by elapsed time was computed with the consent of both parties.
#[derive(Clone, Copy, Debug, PartialEq, Eq, Structural)]
pub struct TimeExtConsentEvent {
    pub client: Address,
    pub freelancer: Address,
    pub amount: i128,
    pub elapsed_seconds: i128,
    pub total_seconds: i128,
    pub freelancer_share: i128,
    pub client_refund: i128,
}

/// An amount was shared out by weights.
#[derive(Clone, Debug, PartialEq)]
pub struct EmergencyPauseAllocationEvent {
    pub total_amount: i128,
    pub num_parties: u32,
    pub allocations: soroban_sdk::Vec<i128>,
}

/// The admin released a milestone of a multisig-locked escrow.
#[derive(Clone, Copy, Debug, PartialEq, Eq, Structural)]
pub struct MultisigAdminOverrideReleaseEvent {
    pub admin: Address,
    pub contract_id: Address,
    pub milestone_index: u32,
    pub freelancer: Address,
    pub token: Address,
    pub amount: i128,
}

/// The admin refunded a milestone of a multisig-locked escrow.
#[derive(Clone, Copy, Debug, PartialEq, Eq, Structural)]
pub struct MultisigAdminOverrideRefundEvent {
    pub admin: Address,
    pub contract_id: Address,
    pub milestone_index: u32,
    pub client: Address,
    pub token: Address,
    pub amount: i128,
}

/// The admin set the multisig lock.
#[derive(Clone, Copy, Debug, PartialEq, Eq, Structural)]
pub struct MultisigLockedEvent {
    pub admin: Address,
    pub locked: bool,
}

/// A split refund was computed.
#[derive(Clone, Copy, Debug, PartialEq, Eq, Structural)]
pub struct SplitRefundCalculatedEvent {
    pub client_refund: i128,
    pub freelancer_payout: i128,
    pub client_refund_bps: u32,
    pub freelancer_payout_bps: u32,
}

/// A split refund of a cancelled escrow was computed.
#[derive(Clone, Copy, Debug, PartialEq, Eq, Structural)]
pub struct CancelSplitRefundCalculatedEvent {
    pub client_refund: i128,
    pub freelancer_payout: i128,
    pub client_refund_bps: u32,
    pub freelancer_payout_bps: u32,
}

/// A split refund net of fees was computed.
#[derive(Clone, Copy, Debug, PartialEq, Eq, Structural)]
pub struct SplitRefundNetDistributionEvent {
    pub total_amount: i128,
    pub client_refund_bps: u32,
    pub freelancer_payout_bps: u32,
    pub client_net_refund: i128,
    pub client_fee_share: i128,
    pub freelancer_net_payout: i128,
    pub treasury_fee_share: i128,
}

/// An amount was shared out by ratios.
#[derive(Clone, Debug, PartialEq)]
pub struct MultiSigTransferAdminEvent {
    pub total_amount: i128,
    pub num_parties: u32,
    pub allocations: soroban_sdk::Vec<i128>,
}

/// The contract code was replaced.
#[derive(Clone, Copy, Debug, PartialEq, Eq)]
pub struct ContractUpgradedEvent {
    pub admin: Address,
    pub new_wasm_hash: [u8; 32],
    pub version: u32,
}

/// The admin registered the signers of the multisig.
#[derive(Clone, Debug, PartialEq)]
pub struct MultisigApprovalInitEvent {
    pub admin: Address,
    pub signers: Vec<Address>,
    pub threshold: u32,
}

/// Another name for [`ContractUpgradedEvent`].
pub type UpgradeEvent = ContractUpgradedEvent;

/// What the contract publishes, by topic.
#[derive(Clone, Debug, PartialEq)]
pub enum Event {
    Initialized(InitializedEvent),
    AdminTransferred(TransferAdminEvent),
    TokenWhitelisted(TokenWhitelistedEvent),
    TokenRemoved(TokenRemovedEvent),
    Funded(FundedEvent),
    Delivered(DeliveredEvent),
    DeadlineExtended(DeadlineExtendedEvent),
    Claimed(ClaimedEvent),
    Approved(ApprovedEvent),
    DisputeRaised(DisputeRaisedEvent),
    DisputeResolved(DisputeResolvedEvent),
    ArbitrationSplitApplied(ArbitrationSplitAppliedEvent),
    CancelEscrowInitiated(CancelEscrowInitiatedEvent),
    CancelApprovalRecorded(CancelApprovalRecordedEvent),
    CancelApprovalRevoked(CancelApprovalRevokedEvent),
    AdminCancelOverrideRelease(AdminCancelOverrideReleaseEvent),
    AdminCancelOverrideRefund(AdminCancelOverrideRefundEvent),
    ContractUpgraded(ContractUpgradedEvent),
    EmergencyPaused(EmergencyPausedEvent),
    EmergencyUnpaused(EmergencyUnpausedEvent),
    EmergencyPauseAdminOverride(EmergencyPauseAdminOverrideEvent),
    /// Published under the topic and the address of the admin who asked.
    EmergencyPauseClaimRefund(Address, EmergencyPauseClaimRefundEvent),
    EmergencyPauseAllocation(EmergencyPauseAllocationEvent),
    EmergencyPauseSplitRefund(SplitRefundCalculatedEvent),
    EscrowPaused(EscrowPausedEvent),
    EscrowResumed(EscrowResumedEvent),
    PlatformFeeAllocationSet(PlatformFeeAllocationSetEvent),
    PlatformFeeAllocationLocked(PlatformFeeAllocationLockedEvent),
    PlatformFeeAllocationOverride(PlatformFeeAllocationOverrideEvent),
    PlatformFeeSplitCalculated(PlatformFeeSplitCalculatedEvent),
    PaymentStreaming(PaymentStreamingEvent),
    PaymentStreamingConsent(PaymentStreamingConsentEvent),
    MilestoneTimeExtension(MilestoneTimeExtensionEvent),
    TimeExtConsent(TimeExtConsentEvent),
    MultiSigTransferAdmin(MultiSigTransferAdminEvent),
    MultisigApprovalInit(MultisigApprovalInitEvent),
    MultiSigApproved(MultiSigApprovedEvent),
    MultisigLocked(MultisigLockedEvent),
    MultisigSplitRefund(SplitRefundCalculatedEvent),
    MultisigAdminOverrideRelease(MultisigAdminOverrideReleaseEvent),
    MultisigAdminOverrideRefund(MultisigAdminOverrideRefundEvent),
    AdminTransferProposed(AdminTransferProposedEvent),
    AdminTransferExecuted(AdminTransferExecutedEvent),
    AdminTransferCancelled(AdminTransferCancelledEvent),
    EscrowInterestYield(EscrowInterestYieldEvent),
    EscrowInterestYieldSet(EscrowInterestYieldSetEvent),
    EscrowInterestYieldConsentSet(EscrowInterestYieldConsentSetEvent),
    EscrowInterestYieldLocked(EscrowInterestYieldLockedEvent),
    EscrowInterestYieldUnlocked(EscrowInterestYieldUnlockedEvent),
    InterestYieldSplitRefund(SplitRefundCalculatedEvent),
    SplitRefundNetDistribution(SplitRefundNetDistributionEvent),
    CancelSplitRefundCalculated(CancelSplitRefundCalculatedEvent),
    YieldRateSet(YieldRateSetEvent),
    YieldAccrued(YieldAccruedEvent),
    AdminOverrideRelease(AdminOverrideReleaseEvent),
    AdminOverrideRefund(AdminOverrideRefundEvent),
    AdminOverrideStreamingRelease(AdminOverrideStreamingReleaseEvent),
    TaxWithholdingApplied(TaxWithholdingAppliedEvent),
    TaxWithholdingSplitRefund(TaxWithholdingSplitRefundEvent),
    TaxWithholdingDeductions(TaxWithholdingDeductionsEvent),
    AdminOverrideTaxRelease(AdminOverrideTaxReleaseEvent),
    AdminOverrideTaxRefund(AdminOverrideTaxRefundEvent),
    AdminOverrideTaxSplitRefund(AdminOverrideTaxSplitRefundEvent),
}

impl Event {
    /// The topic that an event is published under.
    pub open spec fn spec_topic(self) -> Seq<char> {
        match self {
            Event::Initialized(_) => "init"@,
            Event::AdminTransferred(_) => "admin"@,
            Event::TokenWhitelisted(_) => "wtok"@,
            Event::TokenRemoved(_) => "wldel"@,
            Event::Funded(_) => "fund"@,
            Event::Delivered(_) => "deliver"@,
            Event::DeadlineExtended(_) => "extend"@,
            Event::Claimed(_) => "claim"@,
            Event::Approved(_) => "approve"@,
            Event::DisputeRaised(_) => "dispute"@,
            Event::DisputeResolved(_) => "resolve"@,
            Event::ArbitrationSplitApplied(_) => "arbsplit"@,
            Event::CancelEscrowInitiated(_) => "cancel"@,
            Event::CancelApprovalRecorded(_) => "cxlappr"@,
            Event::CancelApprovalRevoked(_) => "cancelrev"@,
            Event::AdminCancelOverrideRelease(_) => "adcovls"@,
            Event::AdminCancelOverrideRefund(_) => "adcovrf"@,
            Event::ContractUpgraded(_) => "upgrade"@,
            Event::EmergencyPaused(_) => "empause"@,
            Event::EmergencyUnpaused(_) => "emunpause"@,
            Event::EmergencyPauseAdminOverride(_) => "emoverrid"@,
            Event::EmergencyPauseClaimRefund(..) => "emergency_pause_claim_refund"@,
            Event::EmergencyPauseAllocation(_) => "epalloc"@,
            Event::EmergencyPauseSplitRefund(_) => "epspltref"@,
            Event::EscrowPaused(_) => "pause"@,
            Event::EscrowResumed(_) => "resume"@,
            Event::PlatformFeeAllocationSet(_) => "pf_set"@,
            Event::PlatformFeeAllocationLocked(_) => "pf_lock"@,
            Event::PlatformFeeAllocationOverride(_) => "pf_ovr"@,
            Event::PlatformFeeSplitCalculated(_) => "pf_split"@,
            Event::PaymentStreaming(_) => "p_stream"@,
            Event::PaymentStreamingConsent(_) => "p_strcns"@,
            Event::MilestoneTimeExtension(_) => "m_ext"@,
            Event::TimeExtConsent(_) => "m_extcns"@,
            Event::MultiSigTransferAdmin(_) => "msigtrx"@,
            Event::MultisigApprovalInit(_) => "msiginit"@,
            Event::MultiSigApproved(_) => "msigappr"@,
            Event::MultisigLocked(_) => "mslock"@,
            Event::MultisigSplitRefund(_) => "splitref"@,
            Event::MultisigAdminOverrideRelease(_) => "msadmrel"@,
            Event::MultisigAdminOverrideRefund(_) => "msadmref"@,
            Event::AdminTransferProposed(_) => "adminprp"@,
            Event::AdminTransferExecuted(_) => "adminexc"@,
            Event::AdminTransferCancelled(_) => "admincxl"@,
            Event::EscrowInterestYield(_) => "intyield"@,
            Event::EscrowInterestYieldSet(_) => "yldset"@,
            Event::EscrowInterestYieldConsentSet(_) => "yldcons"@,
            Event::EscrowInterestYieldLocked(_) => "yldlock"@,
            Event::EscrowInterestYieldUnlocked(_) => "yldunlock"@,
            Event::InterestYieldSplitRefund(_) => "iyspltref"@,
            Event::SplitRefundNetDistribution(_) => "sprefnet"@,
            Event::CancelSplitRefundCalculated(_) => "cxlspref"@,
            Event::YieldRateSet(_) => "yldrate"@,
            Event::YieldAccrued(_) => "yldacc"@,
            Event::AdminOverrideRelease(_) => "admovrls"@,
            Event::AdminOverrideRefund(_) => "admovrf"@,
            Event::AdminOverrideStreamingRelease(_) => "admstrm"@,
            Event::TaxWithholdingApplied(_) => "taxwith"@,
            Event::TaxWithholdingSplitRefund(_) => "twspltref"@,
            Event::TaxWithholdingDeductions(_) => "taxwh"@,
            Event::AdminOverrideTaxRelease(_) => "adtxrls"@,
            Event::AdminOverrideTaxRefund(_) => "adtxrfd"@,
            Event::AdminOverrideTaxSplitRefund(_) => "adtwsplt"@,
        }
    }

    pub fn topic(&self) -> (r: &'static str)
        ensures
            r@ == self.spec_topic(),
    {
        match self {
            Event::Initialized(_) => "init",
            Event::AdminTransferred(_) => "admin",
            Event::TokenWhitelisted(_) => "wtok",
            Event::TokenRemoved(_) => "wldel",
            Event::Funded(_) => "fund",
            Event::Delivered(_) => "deliver",
            Event::DeadlineExtended(_) => "extend",
            Event::Claimed(_) => "claim",
            Event::Approved(_) => "approve",
            Event::DisputeRaised(_) => "dispute",
            Event::DisputeResolved(_) => "resolve",
            Event::ArbitrationSplitApplied(_) => "arbsplit",
            Event::CancelEscrowInitiated(_) => "cancel",
            Event::CancelApprovalRecorded(_) => "cxlappr",
            Event::CancelApprovalRevoked(_) => "cancelrev",
            Event::AdminCancelOverrideRelease(_) => "adcovls",
            Event::AdminCancelOverrideRefund(_) => "adcovrf",
            Event::ContractUpgraded(_) => "upgrade",
            Event::EmergencyPaused(_) => "empause",
            Event::EmergencyUnpaused(_) => "emunpause",
            Event::EmergencyPauseAdminOverride(_) => "emoverrid",
            Event::EmergencyPauseClaimRefund(..) => "emergency_pause_claim_refund",
            Event::EmergencyPauseAllocation(_) => "epalloc",
            Event::EmergencyPauseSplitRefund(_) => "epspltref",
            Event::EscrowPaused(_) => "pause",
            Event::EscrowResumed(_) => "resume",
            Event::PlatformFeeAllocationSet(_) => "pf_set",
            Event::PlatformFeeAllocationLocked(_) => "pf_lock",
            Event::PlatformFeeAllocationOverride(_) => "pf_ovr",
            Event::PlatformFeeSplitCalculated(_) => "pf_split",
            Event::PaymentStreaming(_) => "p_stream",
            Event::PaymentStreamingConsent(_) => "p_strcns",
            Event::MilestoneTimeExtension(_) => "m_ext",
            Event::TimeExtConsent(_) => "m_extcns",
            Event::MultiSigTransferAdmin(_) => "msigtrx",
            Event::MultisigApprovalInit(_) => "msiginit",
            Event::MultiSigApproved(_) => "msigappr",
            Event::MultisigLocked(_) => "mslock",
            Event::MultisigSplitRefund(_) => "splitref",
            Event::MultisigAdminOverrideRelease(_) => "msadmrel",
            Event::MultisigAdminOverrideRefund(_) => "msadmref",
            Event::AdminTransferProposed(_) => "adminprp",
            Event::AdminTransferExecuted(_) => "adminexc",
            Event::AdminTransferCancelled(_) => "admincxl",
            Event::EscrowInterestYield(_) => "intyield",
            Event::EscrowInterestYieldSet(_) => "yldset",
            Event::EscrowInterestYieldConsentSet(_) => "yldcons",
            Event::EscrowInterestYieldLocked(_) => "yldlock",
            Event::EscrowInterestYieldUnlocked(_) => "yldunlock",
            Event::InterestYieldSplitRefund(_) => "iyspltref",
            Event::SplitRefundNetDistribution(_) => "sprefnet",
            Event::CancelSplitRefundCalculated(_) => "cxlspref",
            Event::YieldRateSet(_) => "yldrate",
            Event::YieldAccrued(_) => "yldacc",
            Event::AdminOverrideRelease(_) => "admovrls",
            Event::AdminOverrideRefund(_) => "admovrf",
            Event::AdminOverrideStreamingRelease(_) => "admstrm",
            Event::TaxWithholdingApplied(_) => "taxwith",
            Event::TaxWithholdingSplitRefund(_) => "twspltref",
            Event::TaxWithholdingDeductions(_) => "taxwh",
            Event::AdminOverrideTaxRelease(_) => "adtxrls",
            Event::AdminOverrideTaxRefund(_) => "adtxrfd",
            Event::AdminOverrideTaxSplitRefund(_) => "adtwsplt",
        }
    }
}

} // verus!
