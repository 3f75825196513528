//! The shares of fees and yield that a contract keeps, and who sets them.

use vstd::prelude::*;

use crate::arith::MilestoneEscrow;
use crate::events::{
    EscrowInterestYieldConsentSetEvent, EscrowInterestYieldLockedEvent,
    EscrowInterestYieldSetEvent, EscrowInterestYieldUnlockedEvent, Event,
    PlatformFeeAllocationLockedEvent, PlatformFeeAllocationOverrideEvent,
    PlatformFeeAllocationSetEvent, YieldAccruedEvent, YieldRateSetEvent,
};
use crate::host::{Action, Context, InstanceView, LedgerView, PersistentView};
use crate::types::{
    Address, Error, EscrowInterestYieldState, PlatformFeeAllocation, YieldConfig,
};

verus! {

/// What keeps the shares of the fee from being touched, as an error.
pub open spec fn fees_busy(l: LedgerView) -> Option<Error> {
    if l.instance.platform_fee_allocation_lock == Some(true) {
        Some(Error::PlatformFeeAllocationInProgress)
    } else if l.instance.emergency_pause_lock == Some(true) {
        Some(Error::EmergencyPauseInProgress)
    } else {
        None
    }
}

/// What bad shares of a fee are refused with: they do not make up the whole, or
/// the treasury would get more than a fifth or the client more than half.
pub open spec fn bad_fees(client_bps: u32, freelancer_bps: u32, treasury_bps: u32) -> Option<
    Error,
> {
    if client_bps + freelancer_bps + treasury_bps != 10_000 {
        Some(Error::InvalidRatio)
    } else if treasury_bps > 2_000 || client_bps > 5_000 {
        Some(Error::FeeTooHigh)
    } else {
        None
    }
}

/// The admin, as they are stored with the contract, can set the shares of the fee
/// while those are not locked.
pub proof fn fees_are_set_while_unlocked(
    l: LedgerView,
    admin: Address,
    client_bps: u32,
    freelancer_bps: u32,
    treasury_bps: u32,
)
    ensures
        ({
            let outcome = MilestoneEscrow::set_platform_fee_allocation_outcome(
                l,
                admin,
                client_bps,
                freelancer_bps,
                treasury_bps,
            );
            let current = l.instance.platform_fee_allocation;
            &&& super::heard(
                outcome,
                None,
                seq![admin],
                if super::not_admin(l.instance.admin, admin) is Some {
                    super::not_admin(l.instance.admin, admin)
                } else if fees_busy(l) is Some {
                    fees_busy(l)
                } else if current is Some && current->0.locked {
                    Some(Error::InvalidStatus)
                } else if bad_fees(client_bps, freelancer_bps, treasury_bps) is Some {
                    bad_fees(client_bps, freelancer_bps, treasury_bps)
                } else if current is None {
                    Some(Error::NotInitialized)
                } else {
                    None
                },
            )
            &&& outcome.result matches Ok(step) ==> {
                &&& step.ledger =~= LedgerView {
                    instance: InstanceView {
                        platform_fee_allocation: Some(
                            PlatformFeeAllocation {
                                client_bps,
                                freelancer_bps,
                                treasury_bps,
                                locked: false,
                            },
                        ),
                        platform_fee_allocation_lock: Some(false),
                        ..l.instance
                    },
                    ..l
                }
                &&& step.actions =~= Seq::<Action>::empty()
                &&& step.events =~= seq![
                    Event::PlatformFeeAllocationSet(
                        PlatformFeeAllocationSetEvent {
                            admin,
                            client_bps,
                            freelancer_bps,
                            treasury_bps,
                        },
                    ),
                ]
            }
        }),
{
}

/// The admin can lock the shares of the fee; they stay what they are.
pub proof fn fees_are_locked(l: LedgerView, admin: Address)
    ensures
        ({
            let outcome = MilestoneEscrow::lock_platform_fee_allocation_outcome(l, admin);
            let current = l.instance.platform_fee_allocation->0;
            &&& super::heard(
                outcome,
                None,
                seq![admin],
                if super::not_admin(l.persistent.admin, admin) is Some {
                    super::not_admin(l.persistent.admin, admin)
                } else if fees_busy(l) is Some {
                    fees_busy(l)
                } else if l.instance.platform_fee_allocation is None {
                    Some(Error::NotInitialized)
                } else {
                    None
                },
            )
            &&& outcome.result matches Ok(step) ==> {
                &&& step.ledger =~= LedgerView {
                    instance: InstanceView {
                        platform_fee_allocation: Some(
                            PlatformFeeAllocation {
                                client_bps: current.client_bps,
                                freelancer_bps: current.freelancer_bps,
                                treasury_bps: current.treasury_bps,
                                locked: true,
                            },
                        ),
                        platform_fee_allocation_lock: Some(false),
                        ..l.instance
                    },
                    ..l
                }
                &&& step.actions =~= Seq::<Action>::empty()
                &&& step.events =~= seq![
                    Event::PlatformFeeAllocationLocked(
                        PlatformFeeAllocationLockedEvent {
                            admin,
                            client_bps: current.client_bps,
                            freelancer_bps: current.freelancer_bps,
                            treasury_bps: current.treasury_bps,
                        },
                    ),
                ]
            }
        }),
{
}

/// The admin can replace the shares of the fee where those are locked; they are
/// not locked then.
pub proof fn locked_fees_are_replaced(
    l: LedgerView,
    c: Context,
    admin: Address,
    client_bps: u32,
    freelancer_bps: u32,
    treasury_bps: u32,
)
    ensures
        ({
            let outcome = MilestoneEscrow::pf_alloc_admin_override_outcome(
                l,
                c,
                admin,
                client_bps,
                freelancer_bps,
                treasury_bps,
            );
            let current = l.instance.platform_fee_allocation;
            &&& super::heard(
                outcome,
                None,
                seq![admin],
                if super::not_admin(l.persistent.admin, admin) is Some {
                    super::not_admin(l.persistent.admin, admin)
                } else if current is None {
                    Some(Error::NotInitialized)
                } else if !current->0.locked {
                    Some(Error::InvalidStatus)
                } else if fees_busy(l) is Some {
                    fees_busy(l)
                } else {
                    bad_fees(client_bps, freelancer_bps, treasury_bps)
                },
            )
            &&& outcome.result matches Ok(step) ==> {
                &&& step.ledger =~= LedgerView {
                    instance: InstanceView {
                        platform_fee_allocation: Some(
                            PlatformFeeAllocation {
                                client_bps,
                                freelancer_bps,
                                treasury_bps,
                                locked: false,
                            },
                        ),
                        ..l.instance
                    },
                    ..l
                }
                &&& step.actions =~= Seq::<Action>::empty()
                &&& step.events =~= seq![
                    Event::PlatformFeeAllocationOverride(
                        PlatformFeeAllocationOverrideEvent {
                            admin,
                            contract_id: c.contract,
                            client_bps,
                            freelancer_bps,
                            treasury_bps,
                            locked: false,
                        },
                    ),
                ]
            }
        }),
{
}

/// Locked shares of the fee cannot be set, only replaced; once replaced, they can
/// be set again.
pub proof fn a_lock_on_fees_holds_until_replaced(
    l: LedgerView,
    c: Context,
    admin: Address,
    client_bps: u32,
    freelancer_bps: u32,
    treasury_bps: u32,
)
    requires
        l.persistent.admin == Some(admin),
        l.instance.admin == Some(admin),
        bad_fees(client_bps, freelancer_bps, treasury_bps) is None,
        MilestoneEscrow::lock_platform_fee_allocation_outcome(l, admin).result is Ok,
    ensures
        ({
            let locked = MilestoneEscrow::lock_platform_fee_allocation_outcome(
                l,
                admin,
            ).result->Ok_0.ledger;
            let set = MilestoneEscrow::set_platform_fee_allocation_outcome(
                locked,
                admin,
                client_bps,
                freelancer_bps,
                treasury_bps,
            );
            let replaced = MilestoneEscrow::pf_alloc_admin_override_outcome(
                locked,
                c,
                admin,
                client_bps,
                freelancer_bps,
                treasury_bps,
            );
            &&& set.result is Err && set.result->Err_0 == Error::InvalidStatus
            &&& replaced.result is Ok
            &&& MilestoneEscrow::set_platform_fee_allocation_outcome(
                replaced.result->Ok_0.ledger,
                admin,
                client_bps,
                freelancer_bps,
                treasury_bps,
            ).result is Ok
        }),
{
}

/// Whether the shares of the yield are locked.
pub open spec fn yield_is_locked(l: LedgerView) -> bool {
    l.instance.interest_yield_state is Some && l.instance.interest_yield_state->0.locked
}

/// The ledger with other shares of the yield.
pub open spec fn with_yield_shares(
    l: LedgerView,
    client_share_bps: u32,
    freelancer_share_bps: u32,
    locked: bool,
) -> LedgerView {
    LedgerView {
        instance: InstanceView {
            interest_yield_state: Some(
                EscrowInterestYieldState { client_share_bps, freelancer_share_bps, locked },
            ),
            ..l.instance
        },
        ..l
    }
}

/// The admin, as they are stored with the contract, can set the shares of the
/// yield while those are not locked; they make up the whole.
pub proof fn yield_shares_are_set_while_unlocked(
    l: LedgerView,
    admin: Address,
    client_share_bps: u32,
    freelancer_share_bps: u32,
)
    ensures
        ({
            let outcome = MilestoneEscrow::set_escrow_interest_yield_outcome(
                l,
                admin,
                client_share_bps,
                freelancer_share_bps,
            );
            &&& super::heard(
                outcome,
                None,
                seq![admin],
                if super::not_admin(l.instance.admin, admin) is Some {
                    super::not_admin(l.instance.admin, admin)
                } else if yield_is_locked(l) {
                    Some(Error::EscrowLocked)
                } else if client_share_bps + freelancer_share_bps != 10_000 {
                    Some(Error::InvalidRatio)
                } else {
                    None
                },
            )
            &&& outcome.result matches Ok(step) ==> {
                &&& step.ledger =~= with_yield_shares(
                    l,
                    client_share_bps,
                    freelancer_share_bps,
                    false,
                )
                &&& step.actions =~= Seq::<Action>::empty()
                &&& step.events =~= seq![
                    Event::EscrowInterestYieldSet(
                        EscrowInterestYieldSetEvent {
                            admin,
                            client_share_bps,
                            freelancer_share_bps,
                            locked: false,
                        },
                    ),
                ]
            }
        }),
{
}

/// The admin and both parties together can set the shares of the yield while
/// those are not locked; they make up the whole.
pub proof fn yield_shares_are_agreed(
    l: LedgerView,
    admin: Address,
    client_share_bps: u32,
    freelancer_share_bps: u32,
)
    ensures
        ({
            let outcome = MilestoneEscrow::set_interest_yield_consent_outcome(
                l,
                admin,
                client_share_bps,
                freelancer_share_bps,
            );
            let meta = l.instance.job->0;
            let early = if super::not_admin(l.persistent.admin, admin) is Some {
                super::not_admin(l.persistent.admin, admin)
            } else if l.instance.job is None {
                Some(Error::NotInitialized)
            } else {
                None
            };
            &&& super::heard(
                outcome,
                None,
                if early is Some {
                    seq![admin]
                } else {
                    seq![admin, meta.client, meta.freelancer]
                },
                if early is Some {
                    early
                } else if client_share_bps + freelancer_share_bps != 10_000 {
                    Some(Error::InvalidRatio)
                } else if yield_is_locked(l) {
                    Some(Error::EscrowLocked)
                } else {
                    None
                },
            )
            &&& outcome.result matches Ok(step) ==> {
                &&& step.ledger =~= with_yield_shares(
                    l,
                    client_share_bps,
                    freelancer_share_bps,
                    false,
                )
                &&& step.actions =~= Seq::<Action>::empty()
                &&& step.events =~= seq![
                    Event::EscrowInterestYieldConsentSet(
                        EscrowInterestYieldConsentSetEvent {
                            admin,
                            client: meta.client,
                            freelancer: meta.freelancer,
                            client_share_bps,
                            freelancer_share_bps,
                        },
                    ),
                ]
            }
        }),
{
}

/// The admin can lock the shares of the yield; they stay what they are.
pub proof fn yield_shares_are_locked(l: LedgerView, admin: Address)
    ensures
        ({
            let outcome = MilestoneEscrow::lock_escrow_interest_yield_outcome(l, admin);
            let state = l.instance.interest_yield_state->0;
            &&& super::heard(
                outcome,
                None,
                seq![admin],
                if super::not_admin(l.persistent.admin, admin) is Some {
                    super::not_admin(l.persistent.admin, admin)
                } else if l.instance.interest_yield_state is None {
                    Some(Error::NotInitialized)
                } else {
                    None
                },
            )
            &&& outcome.result matches Ok(step) ==> {
                &&& step.ledger =~= with_yield_shares(
                    l,
                    state.client_share_bps,
                    state.freelancer_share_bps,
                    true,
                )
                &&& step.actions =~= Seq::<Action>::empty()
                &&& step.events =~= seq![
                    Event::EscrowInterestYieldLocked(
                        EscrowInterestYieldLockedEvent {
                            admin,
                            client_share_bps: state.client_share_bps,
                            freelancer_share_bps: state.freelancer_share_bps,
                            locked: true,
                        },
                    ),
                ]
            }
        }),
{
}

/// The admin can unlock locked shares of the yield; they stay what they are.
pub proof fn yield_shares_are_unlocked(l: LedgerView, admin: Address)
    ensures
        ({
            let outcome = MilestoneEscrow::unlock_escrow_interest_yield_outcome(l, admin);
            let state = l.instance.interest_yield_state->0;
            &&& super::heard(
                outcome,
                None,
                seq![admin],
                if super::not_admin(l.persistent.admin, admin) is Some {
                    super::not_admin(l.persistent.admin, admin)
                } else if l.instance.interest_yield_state is None {
                    Some(Error::NotInitialized)
                } else if !state.locked {
                    Some(Error::InvalidStatus)
                } else {
                    None
                },
            )
            &&& outcome.result matches Ok(step) ==> {
                &&& step.ledger =~= with_yield_shares(
                    l,
                    state.client_share_bps,
                    state.freelancer_share_bps,
                    false,
                )
                &&& step.actions =~= Seq::<Action>::empty()
                &&& step.events =~= seq![
                    Event::EscrowInterestYieldUnlocked(
                        EscrowInterestYieldUnlockedEvent {
                            admin,
                            client_share_bps: state.client_share_bps,
                            freelancer_share_bps: state.freelancer_share_bps,
                            locked: false,
                        },
                    ),
                ]
            }
        }),
{
}

/// Unlocking what was just locked leaves unlocked shares of the yield as they
/// were; while they are locked, they cannot be set.
pub proof fn unlocking_undoes_locking(l: LedgerView, admin: Address)
    requires
        MilestoneEscrow::lock_escrow_interest_yield_outcome(l, admin).result is Ok,
        !yield_is_locked(l),
    ensures
        ({
            let locked = MilestoneEscrow::lock_escrow_interest_yield_outcome(
                l,
                admin,
            ).result->Ok_0.ledger;
            let unlocked = MilestoneEscrow::unlock_escrow_interest_yield_outcome(locked, admin);
            &&& unlocked.result is Ok && unlocked.result->Ok_0.ledger =~= l
            &&& forall|who: Address, a: u32, b: u32|
                #[trigger] MilestoneEscrow::set_escrow_interest_yield_outcome(
                    locked,
                    who,
                    a,
                    b,
                ).result is Err
        }),
{
}

/// While a job is neither paused nor frozen the admin can set the rate of its
/// yield, at most the whole.
pub proof fn the_yield_rate_is_set(l: LedgerView, admin: Address, rate_bps: u32)
    ensures
        ({
            let outcome = MilestoneEscrow::admin_set_yield_rate_outcome(l, admin, rate_bps);
            &&& super::heard(
                outcome,
                if l.instance.job is None {
                    Some(Error::NotInitialized)
                } else if l.instance.paused == Some(true) || l.instance.emergency_paused == Some(
                    true,
                ) {
                    Some(Error::Paused)
                } else {
                    None
                },
                seq![admin],
                if super::not_admin(l.persistent.admin, admin) is Some {
                    super::not_admin(l.persistent.admin, admin)
                } else if rate_bps > 10_000 {
                    Some(Error::InvalidRatio)
                } else {
                    None
                },
            )
            &&& outcome.result matches Ok(step) ==> {
                &&& step.ledger =~= LedgerView {
                    persistent: PersistentView {
                        yield_config: Some(YieldConfig { yield_rate: rate_bps }),
                        ..l.persistent
                    },
                    ..l
                }
                &&& step.actions =~= Seq::<Action>::empty()
                &&& step.events =~= seq![
                    Event::YieldRateSet(
                        YieldRateSetEvent {
                            admin,
                            old_rate_bps: if l.persistent.yield_config is Some {
                                l.persistent.yield_config->0.yield_rate
                            } else {
                                0
                            },
                            new_rate_bps: rate_bps,
                        },
                    ),
                ]
            }
        }),
{
}

/// The admin, as they are stored with the contract, can credit yield to a
/// milestone of a job: the yield on record grows by just that.
pub proof fn credited_yield_adds_up(
    l: LedgerView,
    admin: Address,
    index: u32,
    accrued_amount: i128,
)
    ensures
        ({
            let outcome = MilestoneEscrow::admin_accrue_yield_outcome(
                l,
                admin,
                index,
                accrued_amount,
            );
            let total = accrued_amount + (if l.persistent.yield_accrued is Some {
                l.persistent.yield_accrued->0 as int
            } else {
                0
            });
            &&& super::heard(
                outcome,
                None,
                seq![admin],
                if super::not_admin(l.instance.admin, admin) is Some {
                    super::not_admin(l.instance.admin, admin)
                } else if l.instance.job is None {
                    Some(Error::NotInitialized)
                } else if index >= l.instance.job->0.milestone_count {
                    Some(Error::InvalidMilestone)
                } else if accrued_amount <= 0 || total > i128::MAX {
                    Some(Error::InvalidAmount)
                } else {
                    None
                },
            )
            &&& outcome.result matches Ok(step) ==> {
                &&& step.ledger =~= LedgerView {
                    persistent: PersistentView {
                        yield_accrued: Some(total as i128),
                        ..l.persistent
                    },
                    ..l
                }
                &&& step.actions =~= Seq::<Action>::empty()
                &&& step.events =~= seq![
                    Event::YieldAccrued(
                        YieldAccruedEvent {
                            admin,
                            milestone_index: index,
                            accrued_amount,
                            total_accrued: total as i128,
                        },
                    ),
                ]
            }
        }),
{
}

} // verus!
