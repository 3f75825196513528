//! Dividing amounts between two parties, and what they earn over time.

use vstd::prelude::*;

use crate::arith::MilestoneEscrow;
use crate::events::{
    EscrowInterestYieldEvent, Event, MilestoneTimeExtensionEvent, PaymentStreamingConsentEvent,
    PaymentStreamingEvent, SplitRefundCalculatedEvent, SplitRefundNetDistributionEvent,
    TimeExtConsentEvent,
};
use crate::host::{Action, Context, InstanceView, LedgerView};
use crate::types::{Address, Error, PlatformFeeAllocation, RatioSplit};

verus! {

/// Why a fraction of an amount is not taken, if it is not.
pub open spec fn no_fraction(total: int, numerator: int, denominator: int) -> Option<Error> {
    if total <= 0 {
        Some(Error::InvalidAmount)
    } else if denominator <= 0 || numerator < 0 || numerator > denominator {
        Some(Error::InvalidRatio)
    } else if total * numerator + denominator / 2 > i128::MAX {
        Some(Error::InvalidAmount)
    } else {
        None
    }
}

/// Whether an amount is divided in two: the first part is the given fraction of
/// it, rounded to the nearest, and the second the rest.
pub open spec fn is_fraction(
    split: RatioSplit,
    total: int,
    numerator: int,
    denominator: int,
) -> bool {
    &&& super::nearest(split.first as int, total, numerator, denominator)
    &&& split.first + split.second == total
    &&& 0 <= split.first <= total
}

/// An amount that is not negative is divided by a fraction that is no more than
/// the whole, rounded to the nearest; nothing is lost.
pub proof fn a_fraction_is_taken_to_the_nearest(total: i128, numerator: i128, denominator: i128)
    ensures
        ({
            let result = MilestoneEscrow::split_result(total, numerator, denominator);
            if total < 0 || denominator <= 0 || numerator < 0 || numerator > denominator {
                result is Err && result->Err_0 == Error::InvalidRatio
            } else if total * numerator + denominator as int / 2 > i128::MAX {
                result is Err && result->Err_0 == Error::InvalidAmount
            } else {
                result is Ok && is_fraction(
                    result->Ok_0,
                    total as int,
                    numerator as int,
                    denominator as int,
                )
            }
        }),
{
    if total >= 0 && denominator > 0 && 0 <= numerator <= denominator {
        super::lemma_rounded_is_nearest(total as int, numerator as int, denominator as int);
        MilestoneEscrow::rounded_share_is_a_part(
            total as int,
            numerator as int,
            denominator as int,
        );
    }
}

/// The client's share by basis points is rounded down, and the freelancer gets
/// the rest.
pub proof fn a_refund_by_points_is_rounded_down(total_amount: i128, client_bps: u32)
    ensures
        ({
            let result = MilestoneEscrow::refund_by_bps_result(total_amount, client_bps);
            if total_amount < 0 {
                result is Err && result->Err_0 == Error::InvalidAmount
            } else if client_bps > 10_000 {
                result is Err && result->Err_0 == Error::InvalidRatio
            } else if total_amount * client_bps > i128::MAX {
                result is Err && result->Err_0 == Error::InvalidAmount
            } else {
                &&& result is Ok
                &&& result->Ok_0.client_refund * 10_000 <= total_amount * client_bps
                    < result->Ok_0.client_refund * 10_000 + 10_000
                &&& result->Ok_0.client_refund + result->Ok_0.freelancer_payout == total_amount
                &&& 0 <= result->Ok_0.client_refund <= total_amount
                &&& result->Ok_0.client_refund_bps == client_bps
                &&& result->Ok_0.freelancer_payout_bps == 10_000 - client_bps
            }
        }),
{
    if total_amount >= 0 && client_bps <= 10_000 {
        crate::laws::lemma_floor_is_a_part(total_amount as int, client_bps as int);
    }
}

/// An arbiter's split gives the freelancer their share, rounded to the nearest,
/// and the client the rest.
pub proof fn an_arbitration_is_split_to_the_nearest(total_amount: i128, freelancer_bps: u32)
    ensures
        ({
            let result = MilestoneEscrow::arbitration_split_result(total_amount, freelancer_bps);
            if total_amount < 0 {
                result is Err && result->Err_0 == Error::InvalidAmount
            } else if freelancer_bps > 10_000 {
                result is Err && result->Err_0 == Error::InvalidRatio
            } else if total_amount * freelancer_bps + 5_000 > i128::MAX {
                result is Err && result->Err_0 == Error::InvalidAmount
            } else {
                &&& result is Ok
                &&& super::nearest(
                    result->Ok_0.freelancer_payout as int,
                    total_amount as int,
                    freelancer_bps as int,
                    10_000,
                )
                &&& result->Ok_0.client_refund + result->Ok_0.freelancer_payout == total_amount
                &&& 0 <= result->Ok_0.client_refund <= total_amount
                &&& result->Ok_0.client_refund_bps == 10_000 - freelancer_bps
                &&& result->Ok_0.freelancer_payout_bps == freelancer_bps
            }
        }),
{
    a_fraction_is_taken_to_the_nearest(total_amount, freelancer_bps as i128, 10_000);
}

/// The shares of a fee make up the whole, the treasury gets at most a fifth, and
/// the client at most half.
pub proof fn fee_shares_are_bounded(client_bps: u32, freelancer_bps: u32, treasury_bps: u32)
    ensures
        ({
            let error = MilestoneEscrow::fee_allocation_error(
                client_bps,
                freelancer_bps,
                treasury_bps,
            );
            if client_bps + freelancer_bps + treasury_bps != 10_000 {
                error == Some(Error::InvalidRatio)
            } else if 5 * treasury_bps > 10_000 || 2 * client_bps > 10_000 {
                error == Some(Error::FeeTooHigh)
            } else {
                error is None
            }
        }),
{
}

/// Which amounts can be streamed.
pub proof fn a_stream_is_of_a_fraction(total_amount: i128, numerator: i128, denominator: i128)
    ensures
        ({
            let error = MilestoneEscrow::streaming_ratio_error(
                total_amount,
                numerator,
                denominator,
            );
            if total_amount <= 0 {
                error == Some(Error::InvalidAmount)
            } else if denominator <= 0 || numerator < 0 || numerator > denominator {
                error == Some(Error::InvalidRatio)
            } else if total_amount * numerator > i128::MAX {
                error == Some(Error::InvalidAmount)
            } else {
                error is None
            }
        }),
{
}

/// What was earned of a stream by now is computed and announced; no stream is
/// under way then.
pub proof fn a_stream_pays_the_fraction(
    l: LedgerView,
    total_amount: i128,
    numerator: i128,
    denominator: i128,
)
    ensures
        ({
            let outcome = MilestoneEscrow::payment_streaming_milestones_outcome(
                l,
                total_amount,
                numerator,
                denominator,
            );
            let (t, n, d) = (total_amount as int, numerator as int, denominator as int);
            &&& super::heard(outcome, no_fraction(t, n, d), Seq::empty(), None)
            &&& outcome.result matches Ok(step) ==> {
                &&& is_fraction(step.value, t, n, d)
                &&& step.ledger =~= LedgerView {
                    instance: InstanceView {
                        payment_streaming_execution_lock: None,
                        ..l.instance
                    },
                    ..l
                }
                &&& step.actions =~= Seq::<Action>::empty()
                &&& step.events =~= seq![
                    Event::PaymentStreaming(
                        PaymentStreamingEvent {
                            total_amount,
                            numerator,
                            denominator,
                            streamed_payout: step.value.first,
                            client_refund: step.value.second,
                        },
                    ),
                ]
            }
        }),
{
    a_fraction_is_taken_to_the_nearest(total_amount, numerator, denominator);
}

/// With the signatures of both parties the same is announced as agreed, unless a
/// stream is under way or the job is paused or frozen.
pub proof fn a_stream_is_agreed(
    l: LedgerView,
    total_amount: i128,
    numerator: i128,
    denominator: i128,
)
    ensures
        ({
            let outcome = MilestoneEscrow::payment_streaming_consent_outcome(
                l,
                total_amount,
                numerator,
                denominator,
            );
            let meta = l.instance.job->0;
            let (t, n, d) = (total_amount as int, numerator as int, denominator as int);
            &&& super::heard(
                outcome,
                if l.instance.payment_streaming_execution_lock == Some(true) {
                    Some(Error::PaymentStreamingInProgress)
                } else if l.instance.paused == Some(true) || l.instance.emergency_paused == Some(
                    true,
                ) {
                    Some(Error::Paused)
                } else if l.instance.job is None {
                    Some(Error::NotInitialized)
                } else {
                    None
                },
                seq![meta.client, meta.freelancer],
                no_fraction(t, n, d),
            )
            &&& outcome.result matches Ok(step) ==> {
                &&& is_fraction(step.value, t, n, d)
                &&& step.ledger =~= LedgerView {
                    instance: InstanceView {
                        payment_streaming_execution_lock: None,
                        ..l.instance
                    },
                    ..l
                }
                &&& step.actions =~= Seq::<Action>::empty()
                &&& step.events =~= seq![
                    Event::PaymentStreamingConsent(
                        PaymentStreamingConsentEvent {
                            client: meta.client,
                            freelancer: meta.freelancer,
                            total_amount,
                            numerator,
                            denominator,
                            streamed_payout: step.value.first,
                            client_refund: step.value.second,
                        },
                    ),
                ]
            }
        }),
{
    a_fraction_is_taken_to_the_nearest(total_amount, numerator, denominator);
}

/// What was earned of a milestone by the time that passed is computed and
/// announced, signed by the contract and, where there is a job, by both parties.
pub proof fn elapsed_time_earns_its_fraction(
    l: LedgerView,
    c: Context,
    amount: i128,
    elapsed_seconds: i128,
    total_seconds: i128,
)
    ensures
        ({
            let outcome = MilestoneEscrow::milestone_time_extensions_outcome(
                l,
                c,
                amount,
                elapsed_seconds,
                total_seconds,
            );
            let meta = l.instance.job->0;
            let (t, n, d) = (amount as int, elapsed_seconds as int, total_seconds as int);
            &&& super::heard(
                outcome,
                None,
                if l.instance.job is None {
                    seq![c.contract]
                } else {
                    seq![c.contract, meta.client, meta.freelancer]
                },
                no_fraction(t, n, d),
            )
            &&& outcome.result matches Ok(step) ==> {
                &&& is_fraction(step.value, t, n, d)
                &&& step.ledger =~= LedgerView {
                    instance: InstanceView { time_ext_execution_lock: None, ..l.instance },
                    ..l
                }
                &&& step.actions =~= Seq::<Action>::empty()
                &&& step.events =~= seq![
                    Event::MilestoneTimeExtension(
                        MilestoneTimeExtensionEvent {
                            amount,
                            elapsed_seconds,
                            total_seconds,
                            freelancer_share: step.value.first,
                            client_refund: step.value.second,
                        },
                    ),
                ]
            }
        }),
{
    a_fraction_is_taken_to_the_nearest(amount, elapsed_seconds, total_seconds);
}

/// With the signatures of both parties the same is announced as agreed, unless an
/// extension is under way or the job is paused or frozen. What cannot be computed
/// is refused before anyone signs, unless the amount is too large.
pub proof fn elapsed_time_is_agreed(
    l: LedgerView,
    amount: i128,
    elapsed_seconds: i128,
    total_seconds: i128,
)
    ensures
        ({
            let outcome = MilestoneEscrow::time_extensions_consent_outcome(
                l,
                amount,
                elapsed_seconds,
                total_seconds,
            );
            let meta = l.instance.job->0;
            let (t, n, d) = (amount as int, elapsed_seconds as int, total_seconds as int);
            &&& super::heard(
                outcome,
                if t <= 0 {
                    Some(Error::InvalidAmount)
                } else if d <= 0 || n < 0 || n > d {
                    Some(Error::InvalidRatio)
                } else if l.instance.time_ext_execution_lock == Some(true) {
                    Some(Error::TimeExtInProgress)
                } else if l.instance.paused == Some(true) || l.instance.emergency_paused == Some(
                    true,
                ) {
                    Some(Error::Paused)
                } else if l.instance.job is None {
                    Some(Error::NotInitialized)
                } else {
                    None
                },
                seq![meta.client, meta.freelancer],
                if t * n + d / 2 > i128::MAX {
                    Some(Error::InvalidAmount)
                } else {
                    None
                },
            )
            &&& outcome.result matches Ok(step) ==> {
                &&& is_fraction(step.value, t, n, d)
                &&& step.ledger =~= LedgerView {
                    instance: InstanceView { time_ext_execution_lock: None, ..l.instance },
                    ..l
                }
                &&& step.actions =~= Seq::<Action>::empty()
                &&& step.events =~= seq![
                    Event::TimeExtConsent(
                        TimeExtConsentEvent {
                            client: meta.client,
                            freelancer: meta.freelancer,
                            amount,
                            elapsed_seconds,
                            total_seconds,
                            freelancer_share: step.value.first,
                            client_refund: step.value.second,
                        },
                    ),
                ]
            }
        }),
{
    a_fraction_is_taken_to_the_nearest(amount, elapsed_seconds, total_seconds);
}

/// Why interest is not computed, if it is not.
pub open spec fn no_interest(principal: int, rate_bps: int, seconds: int) -> Option<Error> {
    if principal <= 0 || rate_bps <= 0 {
        Some(Error::InvalidAmount)
    } else if rate_bps > 10_000 {
        Some(Error::InvalidRatio)
    } else if seconds <= 0 || principal * rate_bps * seconds > i128::MAX {
        Some(Error::InvalidAmount)
    } else {
        None
    }
}

/// Which interest can be computed at all.
pub proof fn interest_is_on_something(principal: i128, rate_bps: i128, seconds: i128)
    ensures
        ({
            let error = MilestoneEscrow::interest_yield_error(principal, rate_bps, seconds);
            if principal <= 0 || rate_bps <= 0 {
                error == Some(Error::InvalidAmount)
            } else if rate_bps > 10_000 {
                error == Some(Error::InvalidRatio)
            } else if seconds <= 0 {
                error == Some(Error::InvalidAmount)
            } else {
                error is None
            }
        }),
{
}

/// Simple interest on a principal, at a yearly rate, for a time: rounded down, a
/// year having 365 days. It is announced, and nothing else happens.
pub proof fn interest_grows_with_time(
    l: LedgerView,
    principal: i128,
    annual_rate_bps: i128,
    duration_seconds: i128,
)
    ensures
        ({
            let outcome = MilestoneEscrow::escrow_interest_yield_outcome(
                l,
                principal,
                annual_rate_bps,
                duration_seconds,
            );
            let earned = principal * annual_rate_bps * duration_seconds;
            &&& super::heard(
                outcome,
                no_interest(principal as int, annual_rate_bps as int, duration_seconds as int),
                Seq::empty(),
                None,
            )
            &&& outcome.result matches Ok(step) ==> {
                &&& step.value * (10_000 * 31_536_000) <= earned < (step.value + 1) * (10_000
                    * 31_536_000)
                &&& step.ledger =~= l
                &&& step.actions =~= Seq::<Action>::empty()
                &&& step.events =~= seq![
                    Event::EscrowInterestYield(
                        EscrowInterestYieldEvent {
                            principal,
                            annual_rate_bps,
                            duration_seconds,
                            yield_amount: step.value,
                        },
                    ),
                ]
            }
        }),
{
    if principal > 0 && annual_rate_bps > 0 && duration_seconds > 0 {
        let earned = principal * annual_rate_bps * duration_seconds;
        assert(earned >= 0) by (nonlinear_arith)
            requires
                principal > 0,
                annual_rate_bps > 0,
                duration_seconds > 0,
                earned == principal * annual_rate_bps * duration_seconds,
        ;
        let whole = earned / 315_360_000_000;
        assert(whole * 315_360_000_000 <= earned < whole * 315_360_000_000 + 315_360_000_000);
        assert(MilestoneEscrow::simple_interest(
            principal as int,
            annual_rate_bps as int,
            duration_seconds as int,
        ) == whole);
    }
}

/// While a job is neither paused nor frozen and the shares of the yield are not
/// locked, a split of it is computed and announced.
pub proof fn a_yield_split_is_announced(
    l: LedgerView,
    total_amount: i128,
    client_bps: u32,
    freelancer_bps: u32,
)
    ensures
        ({
            let outcome = MilestoneEscrow::interest_yield_split_refund_outcome(
                l,
                total_amount,
                client_bps,
                freelancer_bps,
            );
            let total = total_amount as int;
            &&& super::heard(
                outcome,
                if l.instance.paused == Some(true) || l.instance.emergency_paused == Some(true) {
                    Some(Error::Paused)
                } else if l.instance.interest_yield_state is Some
                    && l.instance.interest_yield_state->0.locked {
                    Some(Error::EscrowLocked)
                } else {
                    super::no_split(total, client_bps as int, freelancer_bps as int)
                },
                Seq::empty(),
                None,
            )
            &&& outcome.result matches Ok(step) ==> {
                &&& super::is_split(step.value, total, client_bps, freelancer_bps)
                &&& step.ledger =~= l
                &&& step.actions =~= Seq::<Action>::empty()
                &&& step.events =~= seq![
                    Event::InterestYieldSplitRefund(
                        SplitRefundCalculatedEvent {
                            client_refund: step.value.client_refund,
                            freelancer_payout: step.value.freelancer_payout,
                            client_refund_bps: client_bps,
                            freelancer_payout_bps: freelancer_bps,
                        },
                    ),
                ]
            }
        }),
{
    super::an_amount_is_split_to_the_nearest(total_amount, client_bps, freelancer_bps);
}

/// Why no fee is taken from an amount, if none is.
pub open spec fn no_fee(amount: int, fee_bps: int) -> Option<Error> {
    if fee_bps > 10_000 {
        Some(Error::InvalidRatio)
    } else if amount * fee_bps + 5_000 > i128::MAX {
        Some(Error::InvalidAmount)
    } else {
        None
    }
}

/// An amount is split between the parties, and of the freelancer's part the
/// client and the treasury get their shares of the fee, each rounded to the
/// nearest; the freelancer keeps the rest. It is announced, unless the job is
/// paused or frozen.
pub proof fn fees_come_out_of_the_payout(
    l: LedgerView,
    total_amount: i128,
    client_bps: u32,
    freelancer_bps: u32,
    fees: PlatformFeeAllocation,
)
    ensures
        ({
            let outcome = MilestoneEscrow::split_refund_net_distribution_outcome(
                l,
                total_amount,
                client_bps,
                freelancer_bps,
                fees,
            );
            let total = total_amount as int;
            let early = if l.instance.paused == Some(true) || l.instance.emergency_paused == Some(
                true,
            ) {
                Some(Error::Paused)
            } else {
                super::no_split(total, client_bps as int, freelancer_bps as int)
            };
            &&& outcome.auths =~= Seq::<Address>::empty()
            &&& early is Some ==> outcome.result is Err && outcome.result->Err_0 == early->0
            &&& early is None ==> exists|refund: int|
                {
                    let payout = total - refund;
                    let error = if no_fee(payout, fees.client_bps as int) is Some {
                        no_fee(payout, fees.client_bps as int)
                    } else {
                        no_fee(payout, fees.treasury_bps as int)
                    };
                    &&& #[trigger] super::nearest(refund, total, client_bps as int, 10_000)
                    &&& 0 <= refund <= total
                    &&& error is Some ==> outcome.result is Err && outcome.result->Err_0
                        == error->0
                    &&& error is None ==> outcome.result is Ok
                    &&& outcome.result matches Ok(step) ==> {
                        let d = step.value;
                        &&& d.client_net_refund == refund
                        &&& super::nearest(
                            d.client_fee_share as int,
                            payout,
                            fees.client_bps as int,
                            10_000,
                        )
                        &&& super::nearest(
                            d.treasury_fee_share as int,
                            payout,
                            fees.treasury_bps as int,
                            10_000,
                        )
                        &&& d.freelancer_net_payout == payout - d.client_fee_share
                            - d.treasury_fee_share
                        &&& step.ledger =~= l
                        &&& step.actions =~= Seq::<Action>::empty()
                        &&& step.events =~= seq![
                            Event::SplitRefundNetDistribution(
                                SplitRefundNetDistributionEvent {
                                    total_amount,
                                    client_refund_bps: client_bps,
                                    freelancer_payout_bps: freelancer_bps,
                                    client_net_refund: d.client_net_refund,
                                    client_fee_share: d.client_fee_share,
                                    freelancer_net_payout: d.freelancer_net_payout,
                                    treasury_fee_share: d.treasury_fee_share,
                                },
                            ),
                        ]
                    }
                }
        }),
{
    super::an_amount_is_split_to_the_nearest(total_amount, client_bps, freelancer_bps);
    let split = MilestoneEscrow::split_refund_result(total_amount, client_bps, freelancer_bps);
    if super::no_split(total_amount as int, client_bps as int, freelancer_bps as int) is None {
        let refund = split->Ok_0.client_refund as int;
        let payout = split->Ok_0.freelancer_payout;
        a_fraction_is_taken_to_the_nearest(payout, fees.client_bps as i128, 10_000);
        a_fraction_is_taken_to_the_nearest(payout, fees.treasury_bps as i128, 10_000);
        assert(super::nearest(refund, total_amount as int, client_bps as int, 10_000));
    }
}

} // verus!
