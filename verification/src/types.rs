//! Addresses, errors, and the records that the escrow keeps.

use vstd::prelude::*;

verus! {

/// The most ratios that `multisig_transfer_admin` shares an amount out by.
pub const MAX_MULTISIG_RATIO_COUNT: u32 = 255;

/// The most tokens that the whitelist holds.
pub const MAX_WHITELIST_SIZE: u32 = 50;

/// The most weights that `emergency_pause_allocation` shares an amount out by.
pub const MAX_EMERGENCY_ALLOCATION_PARTIES: u32 = 255;

/// The most signers of a multisig; each has a bit of a `u32`.
pub const MAX_MULTISIG_SIGNERS: u32 = 32;

/// The largest share of a fee that the treasury may get, in basis points.
pub const MAX_TREASURY_FEE_BPS: u32 = 2000;

/// The largest share of a fee that the client may get, in basis points.
pub const MAX_CLIENT_FEE_BPS: u32 = 5000;

/// A whole, in basis points.
pub const BPS_SCALE: u32 = 10_000;

/// A whole, in basis points, where amounts are computed.
pub const BPS_DENOMINATOR: i128 = 10_000;

/// A year of 365 days.
pub const SECONDS_PER_YEAR: i128 = 31_536_000;

/// What an address names.
#[derive(Clone, Copy, Debug, PartialEq, Eq, Hash, Structural)]
pub enum AddressKind {
    Account,
    Contract,
}

/// An account or a contract, by its 32 byte identifier (big endian, in two
/// halves): the public key of an account, the hash of a contract.
#[derive(Clone, Copy, Debug, PartialEq, Eq, Hash, Structural)]
pub struct Address {
    pub kind: AddressKind,
    pub hi: u128,
    pub lo: u128,
}

impl Address {
    /// The account and the contract whose identifier is all zero. As strkeys
    /// they are `GAAA...AWHF` and `CAAA...BSC4`; nobody can sign for either.
    pub open spec fn spec_is_zero(self) -> bool {
        self.hi == 0 && self.lo == 0
    }

    #[verifier::when_used_as_spec(spec_is_zero)]
    pub fn is_zero(self) -> (r: bool)
        ensures
            r == self.spec_is_zero(),
    {
        self.hi == 0 && self.lo == 0
    }
}

/// Why a call is refused.
#[derive(Clone, Copy, Debug, PartialEq, Eq, PartialOrd, Ord, Structural)]
pub enum Error {
    AlreadyInitialized,
    NotInitialized,
    AlreadyFunded,
    NotFunded,
    Unauthorized,
    InvalidMilestone,
    InvalidStatus,
    TokenNotWhitelisted,
    TokenAlreadyWhitelisted,
    InvalidAmount,
    DeadlineNotPassed,
    InvalidAddress,
    Paused,
    InvalidRatio,
    InvalidExtension,
    EscrowLocked,
    MultiSigNoSigners,
    MultiSigTooManySigners,
    MultiSigInvalidThreshold,
    MultiSigDuplicateSigner,
    /// A successor is already proposed.
    AdminTransferPending,
    NoPendingAdminTransfer,
    MultiSigThresholdNotMet,
    DisputeAlreadyRaised,
    MultiSigEmptyBalance,
    TaxWithholdingInProgress,
    PlatformFeeAllocationInProgress,
    EmergencyPauseInProgress,
    AlreadyPaused,
    NotPaused,
    InvalidAllocationWeights,
    EmptyBalance,
    TimeExtInProgress,
    PaymentStreamingInProgress,
    FeeTooHigh,
    ArithmeticOverflow,
    InsufficientBalance,
}

impl Error {
    /// The number under which callers of the contract see the error.
    pub open spec fn spec_code(self) -> u32 {
        match self {
            Error::AlreadyInitialized => 1,
            Error::NotInitialized => 2,
            Error::AlreadyFunded => 3,
            Error::NotFunded => 4,
            Error::Unauthorized => 5,
            Error::InvalidMilestone => 6,
            Error::InvalidStatus => 7,
            Error::TokenNotWhitelisted => 8,
            Error::TokenAlreadyWhitelisted => 9,
            Error::InvalidAmount => 10,
            Error::DeadlineNotPassed => 11,
            Error::InvalidAddress => 12,
            Error::Paused => 13,
            Error::InvalidRatio => 14,
            Error::InvalidExtension => 15,
            Error::EscrowLocked => 16,
            Error::MultiSigNoSigners => 17,
            Error::MultiSigTooManySigners => 18,
            Error::MultiSigInvalidThreshold => 19,
            Error::MultiSigDuplicateSigner => 20,
            Error::AdminTransferPending => 21,
            Error::NoPendingAdminTransfer => 22,
            Error::MultiSigThresholdNotMet => 23,
            Error::DisputeAlreadyRaised => 24,
            Error::MultiSigEmptyBalance => 25,
            Error::TaxWithholdingInProgress => 26,
            Error::PlatformFeeAllocationInProgress => 27,
            Error::EmergencyPauseInProgress => 28,
            Error::AlreadyPaused => 29,
            Error::NotPaused => 30,
            Error::InvalidAllocationWeights => 31,
            Error::EmptyBalance => 32,
            Error::TimeExtInProgress => 33,
            Error::PaymentStreamingInProgress => 34,
            Error::FeeTooHigh => 35,
            Error::ArithmeticOverflow => 36,
            Error::InsufficientBalance => 37,
        }
    }

    #[verifier::when_used_as_spec(spec_code)]
    pub fn code(self) -> (r: u32)
        ensures
            r == self.spec_code(),
    {
        match self {
            Error::AlreadyInitialized => 1,
            Error::NotInitialized => 2,
            Error::AlreadyFunded => 3,
            Error::NotFunded => 4,
            Error::Unauthorized => 5,
            Error::InvalidMilestone => 6,
            Error::InvalidStatus => 7,
            Error::TokenNotWhitelisted => 8,
            Error::TokenAlreadyWhitelisted => 9,
            Error::InvalidAmount => 10,
            Error::DeadlineNotPassed => 11,
            Error::InvalidAddress => 12,
            Error::Paused => 13,
            Error::InvalidRatio => 14,
            Error::InvalidExtension => 15,
            Error::EscrowLocked => 16,
            Error::MultiSigNoSigners => 17,
            Error::MultiSigTooManySigners => 18,
            Error::MultiSigInvalidThreshold => 19,
            Error::MultiSigDuplicateSigner => 20,
            Error::AdminTransferPending => 21,
            Error::NoPendingAdminTransfer => 22,
            Error::MultiSigThresholdNotMet => 23,
            Error::DisputeAlreadyRaised => 24,
            Error::MultiSigEmptyBalance => 25,
            Error::TaxWithholdingInProgress => 26,
            Error::PlatformFeeAllocationInProgress => 27,
            Error::EmergencyPauseInProgress => 28,
            Error::AlreadyPaused => 29,
            Error::NotPaused => 30,
            Error::InvalidAllocationWeights => 31,
            Error::EmptyBalance => 32,
            Error::TimeExtInProgress => 33,
            Error::PaymentStreamingInProgress => 34,
            Error::FeeTooHigh => 35,
            Error::ArithmeticOverflow => 36,
            Error::InsufficientBalance => 37,
        }
    }
}

/// Every error has a number of its own, from one up without a gap.
pub proof fn error_codes_are_distinct(a: Error, b: Error)
    ensures
        a.spec_code() == b.spec_code() ==> a == b,
        1 <= a.spec_code() <= 37,
{
}

/// Where a milestone stands.
#[derive(Clone, Copy, Debug, PartialEq, Eq, Structural)]
pub enum MilestoneStatus {
    Pending,
    Delivered,
    PartiallyReleased,
    Released,
    Disputed,
    Refunded,
}

impl MilestoneStatus {
    /// Whether the milestone is settled for good.
    pub open spec fn spec_is_terminal(self) -> bool {
        self is Released || self is Refunded
    }

    #[verifier::when_used_as_spec(spec_is_terminal)]
    pub fn is_terminal(self) -> (r: bool)
        ensures
            r == self.spec_is_terminal(),
    {
        match self {
            MilestoneStatus::Released | MilestoneStatus::Refunded => true,
            _ => false,
        }
    }

    /// Whether work on the milestone is still going on undisputed.
    pub open spec fn spec_is_open(self) -> bool {
        self is Pending || self is Delivered || self is PartiallyReleased
    }

    #[verifier::when_used_as_spec(spec_is_open)]
    pub fn is_open(self) -> (r: bool)
        ensures
            r == self.spec_is_open(),
    {
        match self {
            MilestoneStatus::Pending
            | MilestoneStatus::Delivered
            | MilestoneStatus::PartiallyReleased => true,
            _ => false,
        }
    }
}

/// One unit of work: what it pays, what has been paid, and where it stands.
#[derive(Clone, Copy, Debug, PartialEq, Eq, Structural)]
pub struct Milestone {
    pub amount: i128,
    pub released_amount: i128,
    pub status: MilestoneStatus,
    pub delivered_at: u64,
}

/// A snapshot of the whole job, every milestone included.
#[derive(Clone, Debug, PartialEq)]
pub struct Job {
    pub client: Address,
    pub freelancer: Address,
    pub arbiter: Address,
    pub token: Address,
    pub milestones: Vec<Milestone>,
    pub funded: bool,
    pub auto_release_seconds: u64,
}

/// What is stored of the job besides its milestones.
#[derive(Clone, Copy, Debug, PartialEq, Eq, Structural)]
pub struct JobMeta {
    pub client: Address,
    pub freelancer: Address,
    pub arbiter: Address,
    pub token: Address,
    pub funded: bool,
    pub auto_release_seconds: u64,
    pub milestone_count: u32,
    pub total_amount: i128,
}

/// A two-way split between client and freelancer, with the shares it was made by.
#[derive(Clone, Copy, Debug, PartialEq, Eq, Structural)]
pub struct RefundAllocation {
    pub client_refund: i128,
    pub freelancer_payout: i128,
    pub client_refund_bps: u32,
    pub freelancer_payout_bps: u32,
}

/// A split refund whose freelancer leg has paid the platform fees.
#[derive(Clone, Copy, Debug, PartialEq, Eq, Structural)]
pub struct SplitRefundFeeDistribution {
    pub client_net_refund: i128,
    pub client_fee_share: i128,
    pub freelancer_net_payout: i128,
    pub treasury_fee_share: i128,
}

/// How a platform fee is shared out, in basis points.
#[derive(Clone, Copy, Debug, PartialEq, Eq, Structural)]
pub struct PlatformFeeAllocation {
    pub client_bps: u32,
    pub freelancer_bps: u32,
    pub treasury_bps: u32,
    pub locked: bool,
}

/// An amount shared out by a [`PlatformFeeAllocation`].
#[derive(Clone, Copy, Debug, PartialEq, Eq, Structural)]
pub struct PlatformFeeDistribution {
    pub client_amount: i128,
    pub freelancer_amount: i128,
    pub treasury_amount: i128,
}

/// An amount split in two: the part named by the ratio, and the rest.
#[derive(Clone, Copy, Debug, PartialEq, Eq, Structural)]
pub struct RatioSplit {
    pub first: i128,
    pub second: i128,
}

/// How yield is shared between the parties, and whether that is frozen.
#[derive(Clone, Copy, Debug, PartialEq, Eq, Structural)]
pub struct EscrowInterestYieldState {
    pub client_share_bps: u32,
    pub freelancer_share_bps: u32,
    pub locked: bool,
}

/// What is withheld from a milestone, recorded until an override settles it.
#[derive(Clone, Copy, Debug, PartialEq, Eq, Structural)]
pub struct TaxWithholdingRecord {
    pub gross_amount: i128,
    pub tax_amount: i128,
    pub net_amount: i128,
    pub tax_rate_bps: u32,
}

/// The configured annual yield rate.
#[derive(Clone, Copy, Debug, PartialEq, Eq, Structural)]
pub struct YieldConfig {
    pub yield_rate: u32,
}

/// How far a proposal has come: bit `i` of `bitmap` is the approval of signer `i`.
#[derive(Clone, Copy, Debug, PartialEq, Eq, Structural)]
pub struct MultiSigApprovalState {
    pub approved: bool,
    pub approvals: u32,
    pub threshold: u32,
    pub bitmap: u32,
}

/// A proposed admin, waiting for the approvals of `proposal_id`.
#[derive(Clone, Copy, Debug, PartialEq, Eq, Structural)]
pub struct PendingAdminTransfer {
    pub new_admin: Address,
    pub proposal_id: u32,
}

} // verus!
