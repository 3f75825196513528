//! Yield on what is held: estimates, rates, accruals and shares.

use vstd::prelude::*;

use crate::arith::MilestoneEscrow;
use crate::events::{
    EscrowInterestYieldConsentSetEvent, EscrowInterestYieldEvent, EscrowInterestYieldLockedEvent,
    EscrowInterestYieldSetEvent, EscrowInterestYieldUnlockedEvent, Event, YieldAccruedEvent,
    YieldRateSetEvent,
};
use crate::host::{Host, InstanceView, LedgerView, PersistentView};
use crate::outcome::Outcome;
use crate::types::{
    Address, Error, EscrowInterestYieldState, RefundAllocation, YieldConfig, BPS_DENOMINATOR,
    BPS_SCALE, SECONDS_PER_YEAR,
};

verus! {

impl LedgerView {
    /// The configured annual yield rate; none is configured at first.
    pub open spec fn yield_rate(self) -> u32 {
        match self.persistent.yield_config {
            Some(config) => config.yield_rate,
            None => 0,
        }
    }

    /// The yield credited so far.
    pub open spec fn yield_total(self) -> i128 {
        match self.persistent.yield_accrued {
            Some(total) => total,
            None => 0,
        }
    }

    /// Whether the yield shares are frozen.
    pub open spec fn yield_locked(self) -> bool {
        self.instance.interest_yield_state matches Some(state) && state.locked
    }

    pub open spec fn with_yield_state(self, state: EscrowInterestYieldState) -> LedgerView {
        self.with_instance(
            InstanceView { interest_yield_state: Some(state), ..self.instance },
        )
    }
}

impl MilestoneEscrow {
    /// The simple interest on a principal, rounded down.
    pub open spec fn simple_interest(
        principal: int,
        annual_rate_bps: int,
        duration_seconds: int,
    ) -> int {
        principal * annual_rate_bps * duration_seconds / (BPS_DENOMINATOR * SECONDS_PER_YEAR)
    }

    /// What [`MilestoneEscrow::escrow_interest_yield`] returns.
    pub open spec fn interest_yield_result(
        principal: i128,
        annual_rate_bps: i128,
        duration_seconds: i128,
    ) -> Result<i128, Error> {
        if let Some(error) = Self::interest_yield_error(
            principal,
            annual_rate_bps,
            duration_seconds,
        ) {
            Err(error)
        } else if principal * annual_rate_bps * duration_seconds > i128::MAX {
            Err(Error::InvalidAmount)
        } else {
            Ok(
                Self::simple_interest(
                    principal as int,
                    annual_rate_bps as int,
                    duration_seconds as int,
                ) as i128,
            )
        }
    }

    pub open spec fn escrow_interest_yield_outcome(
        l: LedgerView,
        principal: i128,
        annual_rate_bps: i128,
        duration_seconds: i128,
    ) -> Outcome<i128> {
        Outcome::announce(
            Seq::empty(),
            Self::interest_yield_result(principal, annual_rate_bps, duration_seconds),
            l,
            |yield_amount: i128|
                Event::EscrowInterestYield(
                    EscrowInterestYieldEvent {
                        principal,
                        annual_rate_bps,
                        duration_seconds,
                        yield_amount,
                    },
                ),
        )
    }

    /// Estimates the yield on a principal, by simple interest.
    pub fn escrow_interest_yield(
        host: &mut Host,
        principal: i128,
        annual_rate_bps: i128,
        duration_seconds: i128,
    ) -> (r: Result<i128, Error>)
        ensures
            old(host)@.comes_to(
                final(host)@,
                r,
                Self::escrow_interest_yield_outcome(
                    old(host)@.ledger,
                    principal,
                    annual_rate_bps,
                    duration_seconds,
                ),
            ),
            r matches Ok(y) ==> y == Self::simple_interest(
                principal as int,
                annual_rate_bps as int,
                duration_seconds as int,
            ) && y >= 0,
    {
        Self::validate_interest_yield_params(principal, annual_rate_bps, duration_seconds)?;
        proof {
            assert(principal * annual_rate_bps > 0) by (nonlinear_arith)
                requires
                    principal > 0,
                    annual_rate_bps > 0,
            ;
            let p = principal * annual_rate_bps;
            assert(p * duration_seconds >= p) by (nonlinear_arith)
                requires
                    p > 0,
                    duration_seconds > 0,
            ;
        }
        let rated: i128 = match principal.checked_mul(annual_rate_bps) {
            Some(rated) => rated,
            None => {
                return Err(Error::InvalidAmount);
            },
        };
        let numerator: i128 = match rated.checked_mul(duration_seconds) {
            Some(numerator) => numerator,
            None => {
                return Err(Error::InvalidAmount);
            },
        };
        assert(BPS_DENOMINATOR * SECONDS_PER_YEAR == 315_360_000_000) by (nonlinear_arith)
            requires
                BPS_DENOMINATOR == 10_000,
                SECONDS_PER_YEAR == 31_536_000,
        ;
        let denominator: i128 = BPS_DENOMINATOR * SECONDS_PER_YEAR;
        let yield_amount: i128 = numerator / denominator;
        host.publish(
            Event::EscrowInterestYield(
                EscrowInterestYieldEvent {
                    principal,
                    annual_rate_bps,
                    duration_seconds,
                    yield_amount,
                },
            ),
        );
        Ok(yield_amount)
    }

    pub open spec fn set_escrow_interest_yield_outcome(
        l: LedgerView,
        admin: Address,
        client_share_bps: u32,
        freelancer_share_bps: u32,
    ) -> Outcome<()> {
        let signed = seq![admin];
        if let Some(error) = LedgerView::admin_error(l.instance.admin, admin) {
            Outcome::refuse(signed, error)
        } else if l.yield_locked() {
            Outcome::refuse(signed, Error::EscrowLocked)
        } else if client_share_bps + freelancer_share_bps != BPS_SCALE {
            Outcome::refuse(signed, Error::InvalidRatio)
        } else {
            Outcome::accept(
                signed,
                (),
                l.with_yield_state(
                    EscrowInterestYieldState {
                        client_share_bps,
                        freelancer_share_bps,
                        locked: false,
                    },
                ),
                Seq::empty(),
                seq![
                    Event::EscrowInterestYieldSet(
                        EscrowInterestYieldSetEvent {
                            admin,
                            client_share_bps,
                            freelancer_share_bps,
                            locked: false,
                        },
                    ),
                ],
            )
        }
    }

    /// Sets how yield is shared, while that is not frozen.
    pub fn set_escrow_interest_yield(
        host: &mut Host,
        admin: Address,
        client_share_bps: u32,
        freelancer_share_bps: u32,
    ) -> (r: Result<(), Error>)
        ensures
            old(host)@.comes_to(
                final(host)@,
                r,
                Self::set_escrow_interest_yield_outcome(
                    old(host)@.ledger,
                    admin,
                    client_share_bps,
                    freelancer_share_bps,
                ),
            ),
    {
        Self::require_admin_from_instance(host, admin)?;
        Self::ensure_interest_yield_writable(host)?;
        Self::validate_interest_yield_share_config(client_share_bps, freelancer_share_bps)?;
        host.ledger.instance.interest_yield_state = Some(
            EscrowInterestYieldState { client_share_bps, freelancer_share_bps, locked: false },
        );
        host.publish(
            Event::EscrowInterestYieldSet(
                EscrowInterestYieldSetEvent {
                    admin,
                    client_share_bps,
                    freelancer_share_bps,
                    locked: false,
                },
            ),
        );
        Ok(())
    }

    /// Refuses while the yield shares are frozen.
    fn ensure_interest_yield_writable(host: &Host) -> (r: Result<(), Error>)
        ensures
            r == (if host@.ledger.yield_locked() {
                Err(Error::EscrowLocked)
            } else {
                Ok(())
            }),
    {
        if let Some(state) = host.ledger.instance.interest_yield_state {
            if state.locked {
                return Err(Error::EscrowLocked);
            }
        }
        Ok(())
    }

    pub open spec fn set_interest_yield_consent_outcome(
        l: LedgerView,
        admin: Address,
        client_share_bps: u32,
        freelancer_share_bps: u32,
    ) -> Outcome<()> {
        if let Some(error) = LedgerView::admin_error(l.persistent.admin, admin) {
            Outcome::refuse(seq![admin], error)
        } else {
            match l.instance.job {
                None => Outcome::refuse(seq![admin], Error::NotInitialized),
                Some(meta) => {
                    let signed = seq![admin, meta.client, meta.freelancer];
                    if client_share_bps + freelancer_share_bps != BPS_SCALE {
                        Outcome::refuse(signed, Error::InvalidRatio)
                    } else if l.yield_locked() {
                        Outcome::refuse(signed, Error::EscrowLocked)
                    } else {
                        Outcome::accept(
                            signed,
                            (),
                            l.with_yield_state(
                                EscrowInterestYieldState {
                                    client_share_bps,
                                    freelancer_share_bps,
                                    locked: false,
                                },
                            ),
                            Seq::empty(),
                            seq![
                                Event::EscrowInterestYieldConsentSet(
                                    EscrowInterestYieldConsentSetEvent {
                                        admin,
                                        client: meta.client,
                                        freelancer: meta.freelancer,
                                        client_share_bps,
                                        freelancer_share_bps,
                                    },
                                ),
                            ],
                        )
                    }
                },
            }
        }
    }

    /// Sets how yield is shared, with the consent of both parties.
    pub fn set_interest_yield_consent(
        host: &mut Host,
        admin: Address,
        client_share_bps: u32,
        freelancer_share_bps: u32,
    ) -> (r: Result<(), Error>)
        ensures
            old(host)@.comes_to(
                final(host)@,
                r,
                Self::set_interest_yield_consent_outcome(
                    old(host)@.ledger,
                    admin,
                    client_share_bps,
                    freelancer_share_bps,
                ),
            ),
    {
        Self::require_admin(host, admin)?;
        let meta = Self::load_job_meta(host)?;
        host.require_auth(meta.client);
        host.require_auth(meta.freelancer);
        Self::validate_interest_yield_share_config(client_share_bps, freelancer_share_bps)?;
        Self::ensure_interest_yield_writable(host)?;
        host.ledger.instance.interest_yield_state = Some(
            EscrowInterestYieldState { client_share_bps, freelancer_share_bps, locked: false },
        );
        host.publish(
            Event::EscrowInterestYieldConsentSet(
                EscrowInterestYieldConsentSetEvent {
                    admin,
                    client: meta.client,
                    freelancer: meta.freelancer,
                    client_share_bps,
                    freelancer_share_bps,
                },
            ),
        );
        Ok(())
    }

    pub open spec fn lock_escrow_interest_yield_outcome(l: LedgerView, admin: Address) -> Outcome<
        (),
    > {
        let signed = seq![admin];
        if let Some(error) = LedgerView::admin_error(l.persistent.admin, admin) {
            Outcome::refuse(signed, error)
        } else {
            match l.instance.interest_yield_state {
                None => Outcome::refuse(signed, Error::NotInitialized),
                Some(state) => Outcome::accept(
                    signed,
                    (),
                    l.with_yield_state(EscrowInterestYieldState { locked: true, ..state }),
                    Seq::empty(),
                    seq![
                        Event::EscrowInterestYieldLocked(
                            EscrowInterestYieldLockedEvent {
                                admin,
                                client_share_bps: state.client_share_bps,
                                freelancer_share_bps: state.freelancer_share_bps,
                                locked: true,
                            },
                        ),
                    ],
                ),
            }
        }
    }

    /// Freezes how yield is shared.
    pub fn lock_escrow_interest_yield(host: &mut Host, admin: Address) -> (r: Result<(), Error>)
        ensures
            old(host)@.comes_to(
                final(host)@,
                r,
                Self::lock_escrow_interest_yield_outcome(old(host)@.ledger, admin),
            ),
    {
        Self::require_admin(host, admin)?;
        let state = Self::get_escrow_interest_yield(host)?;
        host.ledger.instance.interest_yield_state = Some(
            EscrowInterestYieldState { locked: true, ..state },
        );
        host.publish(
            Event::EscrowInterestYieldLocked(
                EscrowInterestYieldLockedEvent {
                    admin,
                    client_share_bps: state.client_share_bps,
                    freelancer_share_bps: state.freelancer_share_bps,
                    locked: true,
                },
            ),
        );
        Ok(())
    }

    pub open spec fn unlock_escrow_interest_yield_outcome(l: LedgerView, admin: Address) -> Outcome<
        (),
    > {
        let signed = seq![admin];
        if let Some(error) = LedgerView::admin_error(l.persistent.admin, admin) {
            Outcome::refuse(signed, error)
        } else {
            match l.instance.interest_yield_state {
                None => Outcome::refuse(signed, Error::NotInitialized),
                Some(state) => if !state.locked {
                    Outcome::refuse(signed, Error::InvalidStatus)
                } else {
                    Outcome::accept(
                        signed,
                        (),
                        l.with_yield_state(EscrowInterestYieldState { locked: false, ..state }),
                        Seq::empty(),
                        seq![
                            Event::EscrowInterestYieldUnlocked(
                                EscrowInterestYieldUnlockedEvent {
                                    admin,
                                    client_share_bps: state.client_share_bps,
                                    freelancer_share_bps: state.freelancer_share_bps,
                                    locked: false,
                                },
                            ),
                        ],
                    )
                },
            }
        }
    }

    /// Thaws how yield is shared.
    pub fn unlock_escrow_interest_yield(host: &mut Host, admin: Address) -> (r: Result<(), Error>)
        ensures
            old(host)@.comes_to(
                final(host)@,
                r,
                Self::unlock_escrow_interest_yield_outcome(old(host)@.ledger, admin),
            ),
    {
        Self::require_admin(host, admin)?;
        let state = Self::get_escrow_interest_yield(host)?;
        if !state.locked {
            return Err(Error::InvalidStatus);
        }
        host.ledger.instance.interest_yield_state = Some(
            EscrowInterestYieldState { locked: false, ..state },
        );
        host.publish(
            Event::EscrowInterestYieldUnlocked(
                EscrowInterestYieldUnlockedEvent {
                    admin,
                    client_share_bps: state.client_share_bps,
                    freelancer_share_bps: state.freelancer_share_bps,
                    locked: false,
                },
            ),
        );
        Ok(())
    }

    /// Whether the yield shares are frozen.
    pub fn is_escrow_interest_yield_locked(host: &Host) -> (r: Result<bool, Error>)
        ensures
            r == (match host@.ledger.instance.interest_yield_state {
                Some(state) => Ok(state.locked),
                None => Err(Error::NotInitialized),
            }),
    {
        let state = Self::get_escrow_interest_yield(host)?;
        Ok(state.locked)
    }

    /// How yield is shared.
    pub fn get_escrow_interest_yield(host: &Host) -> (r: Result<EscrowInterestYieldState, Error>)
        ensures
            r == Self::found(host@.ledger.instance.interest_yield_state, Error::NotInitialized),
            r is Ok <==> host@.ledger.instance.interest_yield_state is Some,
            r matches Ok(state) ==> host@.ledger.instance.interest_yield_state == Some(state),
    {
        match host.ledger.instance.interest_yield_state {
            Some(state) => Ok(state),
            None => Err(Error::NotInitialized),
        }
    }

    pub open spec fn interest_yield_split_refund_outcome(
        l: LedgerView,
        total_amount: i128,
        client_refund_bps: u32,
        freelancer_payout_bps: u32,
    ) -> Outcome<RefundAllocation> {
        if l.admin_paused() || l.frozen() {
            Outcome::refuse(Seq::empty(), Error::Paused)
        } else if l.yield_locked() {
            Outcome::refuse(Seq::empty(), Error::EscrowLocked)
        } else {
            Outcome::announce(
                Seq::empty(),
                Self::split_refund_result(total_amount, client_refund_bps, freelancer_payout_bps),
                l,
                |a: RefundAllocation| Event::InterestYieldSplitRefund(Self::split_refund_payload(a)),
            )
        }
    }

    /// Computes how a yield is split.
    pub fn interest_yield_split_refund(
        host: &mut Host,
        total_amount: i128,
        client_refund_bps: u32,
        freelancer_payout_bps: u32,
    ) -> (r: Result<RefundAllocation, Error>)
        ensures
            old(host)@.comes_to(
                final(host)@,
                r,
                Self::interest_yield_split_refund_outcome(
                    old(host)@.ledger,
                    total_amount,
                    client_refund_bps,
                    freelancer_payout_bps,
                ),
            ),
            r matches Ok(a) ==> a.client_refund + a.freelancer_payout == total_amount,
    {
        Self::assert_running(host)?;
        Self::ensure_interest_yield_writable(host)?;
        let allocation = Self::split_refund_allocation(
            total_amount,
            client_refund_bps,
            freelancer_payout_bps,
        )?;
        host.publish(Event::InterestYieldSplitRefund(Self::split_refund_event(&allocation)));
        Ok(allocation)
    }

    pub open spec fn admin_set_yield_rate_outcome(
        l: LedgerView,
        admin: Address,
        rate_bps: u32,
    ) -> Outcome<()> {
        let signed = seq![admin];
        if l.instance.job is None {
            Outcome::refuse(Seq::empty(), Error::NotInitialized)
        } else if l.admin_paused() || l.frozen() {
            Outcome::refuse(Seq::empty(), Error::Paused)
        } else if let Some(error) = LedgerView::admin_error(l.persistent.admin, admin) {
            Outcome::refuse(signed, error)
        } else if rate_bps > BPS_SCALE {
            Outcome::refuse(signed, Error::InvalidRatio)
        } else {
            Outcome::accept(
                signed,
                (),
                l.with_persistent(
                    PersistentView {
                        yield_config: Some(YieldConfig { yield_rate: rate_bps }),
                        ..l.persistent
                    },
                ),
                Seq::empty(),
                seq![
                    Event::YieldRateSet(
                        YieldRateSetEvent {
                            admin,
                            old_rate_bps: l.yield_rate(),
                            new_rate_bps: rate_bps,
                        },
                    ),
                ],
            )
        }
    }

    /// The configured annual yield rate.
    fn load_yield_rate(host: &Host) -> (r: u32)
        ensures
            r == host@.ledger.yield_rate(),
    {
        match host.ledger.persistent.yield_config {
            Some(config) => config.yield_rate,
            None => 0,
        }
    }

    /// The yield credited so far.
    fn load_yield_total(host: &Host) -> (r: i128)
        ensures
            r == host@.ledger.yield_total(),
    {
        match host.ledger.persistent.yield_accrued {
            Some(total) => total,
            None => 0,
        }
    }

    /// Sets the annual yield rate.
    pub fn admin_set_yield_rate(host: &mut Host, admin: Address, rate_bps: u32) -> (r: Result<
        (),
        Error,
    >)
        ensures
            old(host)@.comes_to(
                final(host)@,
                r,
                Self::admin_set_yield_rate_outcome(old(host)@.ledger, admin, rate_bps),
            ),
    {
        Self::load_job_meta(host)?;
        Self::assert_running(host)?;
        Self::require_admin(host, admin)?;
        Self::validate_yield_rate_bps(rate_bps)?;
        let old_rate_bps: u32 = Self::load_yield_rate(host);
        host.ledger.persistent.yield_config = Some(YieldConfig { yield_rate: rate_bps });
        host.publish(
            Event::YieldRateSet(YieldRateSetEvent { admin, old_rate_bps, new_rate_bps: rate_bps }),
        );
        Ok(())
    }

    pub open spec fn admin_accrue_yield_outcome(
        l: LedgerView,
        admin: Address,
        index: u32,
        accrued_amount: i128,
    ) -> Outcome<()> {
        let signed = seq![admin];
        let total = l.yield_total() + accrued_amount;
        if let Some(error) = LedgerView::admin_error(l.instance.admin, admin) {
            Outcome::refuse(signed, error)
        } else {
            match l.instance.job {
                None => Outcome::refuse(signed, Error::NotInitialized),
                Some(meta) => if index >= meta.milestone_count {
                    Outcome::refuse(signed, Error::InvalidMilestone)
                } else if accrued_amount <= 0 || total > i128::MAX {
                    Outcome::refuse(signed, Error::InvalidAmount)
                } else {
                    Outcome::accept(
                        signed,
                        (),
                        l.with_persistent(
                            PersistentView { yield_accrued: Some(total as i128), ..l.persistent },
                        ),
                        Seq::empty(),
                        seq![
                            Event::YieldAccrued(
                                YieldAccruedEvent {
                                    admin,
                                    milestone_index: index,
                                    accrued_amount,
                                    total_accrued: total as i128,
                                },
                            ),
                        ],
                    )
                },
            }
        }
    }

    /// Credits yield.
    pub fn admin_accrue_yield(
        host: &mut Host,
        admin: Address,
        milestone_index: u32,
        accrued_amount: i128,
    ) -> (r: Result<(), Error>)
        ensures
            old(host)@.comes_to(
                final(host)@,
                r,
                Self::admin_accrue_yield_outcome(
                    old(host)@.ledger,
                    admin,
                    milestone_index,
                    accrued_amount,
                ),
            ),
    {
        Self::require_admin_from_instance(host, admin)?;
        let meta = Self::load_job_meta(host)?;
        if milestone_index >= meta.milestone_count {
            return Err(Error::InvalidMilestone);
        }
        if accrued_amount <= 0 {
            return Err(Error::InvalidAmount);
        }
        let current_total: i128 = Self::load_yield_total(host);
        let total_accrued: i128 = match current_total.checked_add(accrued_amount) {
            Some(total) => total,
            None => {
                return Err(Error::InvalidAmount);
            },
        };
        host.ledger.persistent.yield_accrued = Some(total_accrued);
        host.publish(
            Event::YieldAccrued(
                YieldAccruedEvent { admin, milestone_index, accrued_amount, total_accrued },
            ),
        );
        Ok(())
    }

    /// The yield rate, the yield credited so far, and whether the escrow is
    /// paused.
    pub fn get_yield_info(host: &Host) -> (r: Result<(u32, i128, bool), Error>)
        ensures
            r == (if host@.ledger.instance.job is Some {
                Ok(
                    (
                        host@.ledger.yield_rate(),
                        host@.ledger.yield_total(),
                        host@.ledger.admin_paused(),
                    ),
                )
            } else {
                Err(Error::NotInitialized)
            }),
            r matches Ok((rate, total, paused)) ==> {
                let kept = host@.ledger.persistent;
                &&& rate == (if kept.yield_config is Some {
                    kept.yield_config->0.yield_rate
                } else {
                    0
                })
                &&& total == (if kept.yield_accrued is Some {
                    kept.yield_accrued->0
                } else {
                    0
                })
                &&& paused <==> host@.ledger.instance.paused == Some(true)
            },
    {
        Self::load_job_meta(host)?;
        Ok(
            (
                Self::load_yield_rate(host),
                Self::load_yield_total(host),
                crate::host::flag_set(host.ledger.instance.paused),
            ),
        )
    }
}

} // verus!
