//! How platform fees are shared out.

use vstd::prelude::*;

use crate::arith::MilestoneEscrow;
use crate::events::{
    Event, PlatformFeeAllocationLockedEvent, PlatformFeeAllocationOverrideEvent,
    PlatformFeeAllocationSetEvent, PlatformFeeSplitCalculatedEvent,
    SplitRefundNetDistributionEvent,
};
use crate::host::{Context, Host, InstanceView, LedgerView};
use crate::outcome::Outcome;
use crate::types::{
    Address, Error, PlatformFeeAllocation, PlatformFeeDistribution, SplitRefundFeeDistribution,
    BPS_DENOMINATOR,
};

verus! {

impl LedgerView {
    /// What an escrow whose fees or freeze are being changed answers.
    pub open spec fn fee_busy_error(self) -> Option<Error> {
        if crate::host::is_set(self.instance.platform_fee_allocation_lock) {
            Some(Error::PlatformFeeAllocationInProgress)
        } else if self.freezing() {
            Some(Error::EmergencyPauseInProgress)
        } else {
            None
        }
    }
}

impl MilestoneEscrow {
    /// Refuses while fees or the freeze are being changed.
    fn assert_fees_idle(host: &Host) -> (r: Result<(), Error>)
        ensures
            r == Self::checked(host@.ledger.fee_busy_error()),
    {
        if crate::host::flag_set(host.ledger.instance.platform_fee_allocation_lock) {
            return Err(Error::PlatformFeeAllocationInProgress);
        }
        Self::assert_emergency_pause_not_locked(host)
    }

    pub open spec fn set_platform_fee_allocation_outcome(
        l: LedgerView,
        admin: Address,
        client_bps: u32,
        freelancer_bps: u32,
        treasury_bps: u32,
    ) -> Outcome<()> {
        let signed = seq![admin];
        if let Some(error) = LedgerView::admin_error(l.instance.admin, admin) {
            Outcome::refuse(signed, error)
        } else if let Some(error) = l.fee_busy_error() {
            Outcome::refuse(signed, error)
        } else if l.instance.platform_fee_allocation matches Some(current) && current.locked {
            Outcome::refuse(signed, Error::InvalidStatus)
        } else if let Some(error) = Self::fee_allocation_error(
            client_bps,
            freelancer_bps,
            treasury_bps,
        ) {
            Outcome::refuse(signed, error)
        } else if l.instance.platform_fee_allocation is None {
            Outcome::refuse(signed, Error::NotInitialized)
        } else {
            Outcome::accept(
                signed,
                (),
                l.with_instance(
                    InstanceView {
                        platform_fee_allocation: Some(
                            PlatformFeeAllocation {
                                client_bps,
                                freelancer_bps,
                                treasury_bps,
                                locked: false,
                            },
                        ),
                        platform_fee_allocation_lock: Some(false),
                        ..l.instance
                    },
                ),
                Seq::empty(),
                seq![
                    Event::PlatformFeeAllocationSet(
                        PlatformFeeAllocationSetEvent {
                            admin,
                            client_bps,
                            freelancer_bps,
                            treasury_bps,
                        },
                    ),
                ],
            )
        }
    }

    /// Sets how fees are shared out, while that is not locked.
    pub fn set_platform_fee_allocation(
        host: &mut Host,
        admin: Address,
        client_bps: u32,
        freelancer_bps: u32,
        treasury_bps: u32,
    ) -> (r: Result<(), Error>)
        ensures
            old(host)@.comes_to(
                final(host)@,
                r,
                Self::set_platform_fee_allocation_outcome(
                    old(host)@.ledger,
                    admin,
                    client_bps,
                    freelancer_bps,
                    treasury_bps,
                ),
            ),
    {
        Self::require_admin_from_instance(host, admin)?;
        Self::assert_fees_idle(host)?;
        if let Some(current) = host.ledger.instance.platform_fee_allocation {
            if current.locked {
                return Err(Error::InvalidStatus);
            }
        }
        Self::validate_fee_allocation(client_bps, freelancer_bps, treasury_bps)?;
        if host.ledger.instance.platform_fee_allocation.is_none() {
            return Err(Error::NotInitialized);
        }
        host.ledger.instance.platform_fee_allocation = Some(
            PlatformFeeAllocation { client_bps, freelancer_bps, treasury_bps, locked: false },
        );
        host.ledger.instance.platform_fee_allocation_lock = Some(false);
        host.publish(
            Event::PlatformFeeAllocationSet(
                PlatformFeeAllocationSetEvent { admin, client_bps, freelancer_bps, treasury_bps },
            ),
        );
        Ok(())
    }

    pub open spec fn lock_platform_fee_allocation_outcome(l: LedgerView, admin: Address) -> Outcome<
        (),
    > {
        let signed = seq![admin];
        if let Some(error) = LedgerView::admin_error(l.persistent.admin, admin) {
            Outcome::refuse(signed, error)
        } else if let Some(error) = l.fee_busy_error() {
            Outcome::refuse(signed, error)
        } else {
            match l.instance.platform_fee_allocation {
                None => Outcome::refuse(signed, Error::NotInitialized),
                Some(current) => Outcome::accept(
                    signed,
                    (),
                    l.with_instance(
                        InstanceView {
                            platform_fee_allocation: Some(
                                PlatformFeeAllocation { locked: true, ..current },
                            ),
                            platform_fee_allocation_lock: Some(false),
                            ..l.instance
                        },
                    ),
                    Seq::empty(),
                    seq![
                        Event::PlatformFeeAllocationLocked(
                            PlatformFeeAllocationLockedEvent {
                                admin,
                                client_bps: current.client_bps,
                                freelancer_bps: current.freelancer_bps,
                                treasury_bps: current.treasury_bps,
                            },
                        ),
                    ],
                ),
            }
        }
    }

    /// Locks how fees are shared out.
    pub fn lock_platform_fee_allocation(host: &mut Host, admin: Address) -> (r: Result<(), Error>)
        ensures
            old(host)@.comes_to(
                final(host)@,
                r,
                Self::lock_platform_fee_allocation_outcome(old(host)@.ledger, admin),
            ),
    {
        Self::require_admin(host, admin)?;
        Self::assert_fees_idle(host)?;
        let current = Self::get_platform_fee_allocation(host)?;
        host.ledger.instance.platform_fee_allocation = Some(
            PlatformFeeAllocation { locked: true, ..current },
        );
        host.ledger.instance.platform_fee_allocation_lock = Some(false);
        host.publish(
            Event::PlatformFeeAllocationLocked(
                PlatformFeeAllocationLockedEvent {
                    admin,
                    client_bps: current.client_bps,
                    freelancer_bps: current.freelancer_bps,
                    treasury_bps: current.treasury_bps,
                },
            ),
        );
        Ok(())
    }

    pub open spec fn pf_alloc_admin_override_outcome(
        l: LedgerView,
        c: Context,
        admin: Address,
        client_bps: u32,
        freelancer_bps: u32,
        treasury_bps: u32,
    ) -> Outcome<()> {
        let signed = seq![admin];
        if let Some(error) = LedgerView::admin_error(l.persistent.admin, admin) {
            Outcome::refuse(signed, error)
        } else {
            match l.instance.platform_fee_allocation {
                None => Outcome::refuse(signed, Error::NotInitialized),
                Some(current) => if !current.locked {
                    Outcome::refuse(signed, Error::InvalidStatus)
                } else if let Some(error) = l.fee_busy_error() {
                    Outcome::refuse(signed, error)
                } else if let Some(error) = Self::fee_allocation_error(
                    client_bps,
                    freelancer_bps,
                    treasury_bps,
                ) {
                    Outcome::refuse(signed, error)
                } else {
                    Outcome::accept(
                        signed,
                        (),
                        l.with_instance(
                            InstanceView {
                                platform_fee_allocation: Some(
                                    PlatformFeeAllocation {
                                        client_bps,
                                        freelancer_bps,
                                        treasury_bps,
                                        locked: false,
                                    },
                                ),
                                ..l.instance
                            },
                        ),
                        Seq::empty(),
                        seq![
                            Event::PlatformFeeAllocationOverride(
                                PlatformFeeAllocationOverrideEvent {
                                    admin,
                                    contract_id: c.contract,
                                    client_bps,
                                    freelancer_bps,
                                    treasury_bps,
                                    locked: false,
                                },
                            ),
                        ],
                    )
                },
            }
        }
    }

    /// Replaces how fees are shared out while that is locked, and unlocks it.
    pub fn pf_alloc_admin_override(
        host: &mut Host,
        admin: Address,
        client_bps: u32,
        freelancer_bps: u32,
        treasury_bps: u32,
    ) -> (r: Result<(), Error>)
        ensures
            old(host)@.comes_to(
                final(host)@,
                r,
                Self::pf_alloc_admin_override_outcome(
                    old(host)@.ledger,
                    old(host)@.context,
                    admin,
                    client_bps,
                    freelancer_bps,
                    treasury_bps,
                ),
            ),
    {
        Self::require_admin(host, admin)?;
        let current = Self::get_platform_fee_allocation(host)?;
        if !current.locked {
            return Err(Error::InvalidStatus);
        }
        Self::assert_fees_idle(host)?;
        Self::validate_fee_allocation(client_bps, freelancer_bps, treasury_bps)?;
        let contract = host.contract;
        host.ledger.instance.platform_fee_allocation = Some(
            PlatformFeeAllocation { client_bps, freelancer_bps, treasury_bps, locked: false },
        );
        host.publish(
            Event::PlatformFeeAllocationOverride(
                PlatformFeeAllocationOverrideEvent {
                    admin,
                    contract_id: contract,
                    client_bps,
                    freelancer_bps,
                    treasury_bps,
                    locked: false,
                },
            ),
        );
        Ok(())
    }

    /// How fees are shared out.
    pub fn get_platform_fee_allocation(host: &Host) -> (r: Result<PlatformFeeAllocation, Error>)
        ensures
            r == Self::found(host@.ledger.instance.platform_fee_allocation, Error::NotInitialized),
            r is Ok <==> host@.ledger.instance.platform_fee_allocation is Some,
            r matches Ok(fees) ==> host@.ledger.instance.platform_fee_allocation == Some(fees),
    {
        match host.ledger.instance.platform_fee_allocation {
            Some(allocation) => Ok(allocation),
            None => Err(Error::NotInitialized),
        }
    }

    pub open spec fn calculate_platform_fee_split_outcome(
        l: LedgerView,
        total_amount: i128,
    ) -> Outcome<PlatformFeeDistribution> {
        match l.instance.platform_fee_allocation {
            None => Outcome::refuse(Seq::empty(), Error::NotInitialized),
            Some(allocation) => Outcome::announce(
                Seq::empty(),
                Self::platform_fee_result(total_amount, allocation),
                l,
                |d: PlatformFeeDistribution|
                    Event::PlatformFeeSplitCalculated(
                        PlatformFeeSplitCalculatedEvent {
                            total_amount,
                            client_amount: d.client_amount,
                            freelancer_amount: d.freelancer_amount,
                            treasury_amount: d.treasury_amount,
                        },
                    ),
            ),
        }
    }

    /// Shares a fee out as configured.
    pub fn calculate_platform_fee_split(host: &mut Host, total_amount: i128) -> (r: Result<
        PlatformFeeDistribution,
        Error,
    >)
        ensures
            old(host)@.comes_to(
                final(host)@,
                r,
                Self::calculate_platform_fee_split_outcome(old(host)@.ledger, total_amount),
            ),
            r matches Ok(d) ==> d.client_amount + d.freelancer_amount + d.treasury_amount
                == total_amount,
    {
        let allocation = Self::get_platform_fee_allocation(host)?;
        let distribution = Self::allocate_platform_fee(total_amount, &allocation)?;
        host.publish(
            Event::PlatformFeeSplitCalculated(
                PlatformFeeSplitCalculatedEvent {
                    total_amount,
                    client_amount: distribution.client_amount,
                    freelancer_amount: distribution.freelancer_amount,
                    treasury_amount: distribution.treasury_amount,
                },
            ),
        );
        Ok(distribution)
    }

    /// What [`MilestoneEscrow::split_refund_net_distribution`] returns where
    /// the escrow is not paused: the amount is split, and the fees are taken
    /// out of the freelancer's part, each rounded to the nearest unit.
    pub open spec fn net_distribution_result(
        total_amount: i128,
        client_refund_bps: u32,
        freelancer_payout_bps: u32,
        fees: PlatformFeeAllocation,
    ) -> Result<SplitRefundFeeDistribution, Error> {
        match Self::split_refund_result(total_amount, client_refund_bps, freelancer_payout_bps) {
            Err(error) => Err(error),
            Ok(a) => match Self::split_result(
                a.freelancer_payout,
                fees.client_bps as i128,
                BPS_DENOMINATOR,
            ) {
                Err(error) => Err(error),
                Ok(client_fee) => match Self::split_result(
                    a.freelancer_payout,
                    fees.treasury_bps as i128,
                    BPS_DENOMINATOR,
                ) {
                    Err(error) => Err(error),
                    Ok(treasury_fee) => Ok(
                        SplitRefundFeeDistribution {
                            client_net_refund: a.client_refund,
                            client_fee_share: client_fee.first,
                            freelancer_net_payout: (a.freelancer_payout - client_fee.first
                                - treasury_fee.first) as i128,
                            treasury_fee_share: treasury_fee.first,
                        },
                    ),
                },
            },
        }
    }

    pub open spec fn split_refund_net_distribution_outcome(
        l: LedgerView,
        total_amount: i128,
        client_refund_bps: u32,
        freelancer_payout_bps: u32,
        fees: PlatformFeeAllocation,
    ) -> Outcome<SplitRefundFeeDistribution> {
        if l.admin_paused() || l.frozen() {
            Outcome::refuse(Seq::empty(), Error::Paused)
        } else {
            Outcome::announce(
                Seq::empty(),
                Self::net_distribution_result(
                    total_amount,
                    client_refund_bps,
                    freelancer_payout_bps,
                    fees,
                ),
                l,
                |d: SplitRefundFeeDistribution|
                    Event::SplitRefundNetDistribution(
                        SplitRefundNetDistributionEvent {
                            total_amount,
                            client_refund_bps,
                            freelancer_payout_bps,
                            client_net_refund: d.client_net_refund,
                            client_fee_share: d.client_fee_share,
                            freelancer_net_payout: d.freelancer_net_payout,
                            treasury_fee_share: d.treasury_fee_share,
                        },
                    ),
            )
        }
    }

    /// Refuses while the escrow is paused or frozen.
    pub(crate) fn assert_running(host: &Host) -> (r: Result<(), Error>)
        ensures
            r == (if host@.ledger.admin_paused() || host@.ledger.frozen() {
                Err(Error::Paused)
            } else {
                Ok(())
            }),
    {
        if crate::host::flag_set(host.ledger.instance.paused) || crate::host::flag_set(
            host.ledger.instance.emergency_paused,
        ) {
            return Err(Error::Paused);
        }
        Ok(())
    }

    /// Computes a split refund whose freelancer leg pays the platform fees.
    pub fn split_refund_net_distribution(
        host: &mut Host,
        total_amount: i128,
        client_refund_bps: u32,
        freelancer_payout_bps: u32,
        fee_allocation: PlatformFeeAllocation,
    ) -> (r: Result<SplitRefundFeeDistribution, Error>)
        ensures
            old(host)@.comes_to(
                final(host)@,
                r,
                Self::split_refund_net_distribution_outcome(
                    old(host)@.ledger,
                    total_amount,
                    client_refund_bps,
                    freelancer_payout_bps,
                    fee_allocation,
                ),
            ),
            r matches Ok(d) ==> d.client_net_refund + d.client_fee_share + d.freelancer_net_payout
                + d.treasury_fee_share == total_amount,
    {
        Self::assert_running(host)?;
        let split = Self::split_refund_allocation(
            total_amount,
            client_refund_bps,
            freelancer_payout_bps,
        )?;
        let gross_payout: i128 = split.freelancer_payout;
        let client_fee = Self::split_round_nearest(
            gross_payout,
            fee_allocation.client_bps as i128,
            BPS_DENOMINATOR,
        )?;
        let treasury_fee = Self::split_round_nearest(
            gross_payout,
            fee_allocation.treasury_bps as i128,
            BPS_DENOMINATOR,
        )?;
        let distribution = SplitRefundFeeDistribution {
            client_net_refund: split.client_refund,
            client_fee_share: client_fee.first,
            freelancer_net_payout: gross_payout - client_fee.first - treasury_fee.first,
            treasury_fee_share: treasury_fee.first,
        };
        host.publish(
            Event::SplitRefundNetDistribution(
                SplitRefundNetDistributionEvent {
                    total_amount,
                    client_refund_bps,
                    freelancer_payout_bps,
                    client_net_refund: distribution.client_net_refund,
                    client_fee_share: distribution.client_fee_share,
                    freelancer_net_payout: distribution.freelancer_net_payout,
                    treasury_fee_share: distribution.treasury_fee_share,
                },
            ),
        );
        Ok(distribution)
    }
}

} // verus!
