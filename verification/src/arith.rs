//! The arithmetic of the escrow: ratios, splits and shares.

use vstd::prelude::*;

use crate::shares::LargestRemainder;
use crate::types::{
    Error, PlatformFeeAllocation, PlatformFeeDistribution, RatioSplit, RefundAllocation,
    BPS_DENOMINATOR, BPS_SCALE, MAX_CLIENT_FEE_BPS, MAX_TREASURY_FEE_BPS,
};

verus! {

/// The escrow contract.
pub struct MilestoneEscrow;

impl MilestoneEscrow {
    /// `total * numerator / denominator`, rounded to the nearest unit; a half
    /// is rounded up.
    pub open spec fn rounded(total: int, numerator: int, denominator: int) -> int {
        (total * numerator + denominator / 2) / denominator
    }

    /// What [`MilestoneEscrow::split_round_nearest`] returns.
    pub open spec fn split_result(total: i128, numerator: i128, denominator: i128) -> Result<
        RatioSplit,
        Error,
    > {
        let first = Self::rounded(total as int, numerator as int, denominator as int);
        if total < 0 || denominator <= 0 || !(0 <= numerator <= denominator) {
            Err(Error::InvalidRatio)
        } else if total * numerator + denominator as int / 2 > i128::MAX {
            Err(Error::InvalidAmount)
        } else {
            Ok(RatioSplit { first: first as i128, second: (total - first) as i128 })
        }
    }

    /// What a fee allocation is refused for, if anything.
    pub open spec fn fee_allocation_error(
        client_bps: u32,
        freelancer_bps: u32,
        treasury_bps: u32,
    ) -> Option<Error> {
        if client_bps + freelancer_bps + treasury_bps != BPS_SCALE {
            Some(Error::InvalidRatio)
        } else if treasury_bps > MAX_TREASURY_FEE_BPS || client_bps > MAX_CLIENT_FEE_BPS {
            Some(Error::FeeTooHigh)
        } else {
            None
        }
    }

    /// What a yield estimate is refused for, before anything is computed.
    pub open spec fn interest_yield_error(
        principal: i128,
        annual_rate_bps: i128,
        duration_seconds: i128,
    ) -> Option<Error> {
        if principal <= 0 || annual_rate_bps <= 0 {
            Some(Error::InvalidAmount)
        } else if annual_rate_bps > BPS_DENOMINATOR {
            Some(Error::InvalidRatio)
        } else if duration_seconds <= 0 {
            Some(Error::InvalidAmount)
        } else {
            None
        }
    }

    /// What a streaming ratio is refused for, if anything.
    pub open spec fn streaming_ratio_error(
        total_amount: i128,
        numerator: i128,
        denominator: i128,
    ) -> Option<Error> {
        if total_amount <= 0 {
            Some(Error::InvalidAmount)
        } else if denominator <= 0 || !(0 <= numerator <= denominator) {
            Some(Error::InvalidRatio)
        } else if total_amount * numerator > i128::MAX {
            Some(Error::InvalidAmount)
        } else {
            None
        }
    }

    /// The shares of a fee allocation, as weights in parts of [`BPS_SCALE`]:
    /// client, freelancer, treasury.
    pub open spec fn fee_weights(allocation: PlatformFeeAllocation) -> Seq<i128> {
        seq![
            allocation.client_bps as i128,
            allocation.freelancer_bps as i128,
            allocation.treasury_bps as i128,
        ]
    }

    /// What [`MilestoneEscrow::allocate_platform_fee`] returns.
    pub open spec fn platform_fee_result(
        total_amount: i128,
        allocation: PlatformFeeAllocation,
    ) -> Result<PlatformFeeDistribution, Error> {
        let weights = Self::fee_weights(allocation);
        let total = total_amount as int;
        let scale = BPS_SCALE as int;
        if total_amount == i128::MIN {
            Err(Error::ArithmeticOverflow)
        } else if total_amount < 0 {
            Err(Error::InvalidAmount)
        } else if !LargestRemainder::representable(total, weights) || LargestRemainder::residue(
            total,
            weights,
            scale,
        ) < 0 {
            Err(Error::ArithmeticOverflow)
        } else {
            let shares = LargestRemainder::shares(total, weights, scale);
            Ok(
                PlatformFeeDistribution {
                    client_amount: shares[0],
                    freelancer_amount: shares[1],
                    treasury_amount: shares[2],
                },
            )
        }
    }

    /// What [`MilestoneEscrow::allocate_refund_by_bps`] returns.
    pub open spec fn refund_by_bps_result(total_amount: i128, client_refund_bps: u32) -> Result<
        RefundAllocation,
        Error,
    > {
        let client_refund = total_amount * client_refund_bps / BPS_SCALE as int;
        if total_amount < 0 {
            Err(Error::InvalidAmount)
        } else if client_refund_bps > BPS_SCALE {
            Err(Error::InvalidRatio)
        } else if total_amount * client_refund_bps > i128::MAX {
            Err(Error::InvalidAmount)
        } else {
            Ok(
                RefundAllocation {
                    client_refund: client_refund as i128,
                    freelancer_payout: (total_amount - client_refund) as i128,
                    client_refund_bps,
                    freelancer_payout_bps: (BPS_SCALE - client_refund_bps) as u32,
                },
            )
        }
    }

    /// What [`MilestoneEscrow::split_refund_allocation`] returns.
    pub open spec fn split_refund_result(
        total_amount: i128,
        client_refund_bps: u32,
        freelancer_payout_bps: u32,
    ) -> Result<RefundAllocation, Error> {
        if total_amount <= 0 {
            Err(Error::InvalidAmount)
        } else if client_refund_bps + freelancer_payout_bps != BPS_SCALE {
            Err(Error::InvalidRatio)
        } else {
            match Self::split_result(total_amount, client_refund_bps as i128, BPS_DENOMINATOR) {
                Ok(split) => Ok(
                    RefundAllocation {
                        client_refund: split.first,
                        freelancer_payout: split.second,
                        client_refund_bps,
                        freelancer_payout_bps,
                    },
                ),
                Err(error) => Err(error),
            }
        }
    }

    /// What [`MilestoneEscrow::allocate_withholding_refund`] returns: the gross
    /// amount and the tax are split alike, and each party pays its own part of
    /// the tax.
    pub open spec fn withholding_refund_result(
        gross_amount: i128,
        tax_amount: i128,
        client_refund_bps: u32,
        freelancer_payout_bps: u32,
    ) -> Result<RefundAllocation, Error> {
        let bps = client_refund_bps as i128;
        if gross_amount <= 0 || !(0 <= tax_amount <= gross_amount) {
            Err(Error::InvalidAmount)
        } else if client_refund_bps + freelancer_payout_bps != BPS_SCALE {
            Err(Error::InvalidRatio)
        } else {
            match (
                Self::split_result(gross_amount, bps, BPS_DENOMINATOR),
                Self::split_result(tax_amount, bps, BPS_DENOMINATOR),
            ) {
                (Ok(gross), Ok(tax)) => Ok(
                    RefundAllocation {
                        client_refund: (gross.first - tax.first) as i128,
                        freelancer_payout: (gross.second - tax.second) as i128,
                        client_refund_bps,
                        freelancer_payout_bps,
                    },
                ),
                _ => Err(Error::InvalidAmount),
            }
        }
    }

    /// What [`MilestoneEscrow::dispute_arbitration_split`] returns.
    pub open spec fn arbitration_split_result(total_amount: i128, freelancer_bps: u32) -> Result<
        RefundAllocation,
        Error,
    > {
        if total_amount < 0 {
            Err(Error::InvalidAmount)
        } else if freelancer_bps > BPS_SCALE {
            Err(Error::InvalidRatio)
        } else {
            match Self::split_result(total_amount, freelancer_bps as i128, BPS_DENOMINATOR) {
                Ok(split) => Ok(
                    RefundAllocation {
                        client_refund: split.second,
                        freelancer_payout: split.first,
                        client_refund_bps: (BPS_SCALE - freelancer_bps) as u32,
                        freelancer_payout_bps: freelancer_bps,
                    },
                ),
                Err(error) => Err(error),
            }
        }
    }

    /// A rounded share is a part of the whole.
    pub proof fn rounded_share_is_a_part(total: int, numerator: int, denominator: int)
        requires
            total >= 0,
            denominator > 0,
            0 <= numerator <= denominator,
        ensures
            0 <= Self::rounded(total, numerator, denominator) <= total,
            0 <= total * numerator,
    {
        let p = total * numerator;
        assert(0 <= p <= total * denominator) by (nonlinear_arith)
            requires
                total >= 0,
                0 <= numerator <= denominator,
                p == total * numerator,
        ;
        let h = denominator / 2;
        let q = (p + h) / denominator;
        assert(0 <= q <= total) by (nonlinear_arith)
            requires
                denominator > 0,
                0 <= p <= total * denominator,
                h == denominator / 2,
                q == (p + h) / denominator,
        ;
    }

    /// A rounded share is within half a unit of the exact one.
    pub proof fn rounded_share_is_nearest(total: int, numerator: int, denominator: int)
        requires
            denominator > 0,
        ensures
            2 * (total * numerator - Self::rounded(total, numerator, denominator) * denominator)
                <= denominator,
            2 * (Self::rounded(total, numerator, denominator) * denominator - total * numerator)
                <= denominator,
    {
        let p = total * numerator;
        let h = denominator / 2;
        let q = (p + h) / denominator;
        assert(2 * (p - q * denominator) <= denominator && 2 * (q * denominator - p)
            <= denominator) by (nonlinear_arith)
            requires
                denominator > 0,
                h == denominator / 2,
                q == (p + h) / denominator,
        ;
    }

    /// A larger total makes neither part of a split smaller.
    pub proof fn parts_grow_with_the_total(a: int, b: int, numerator: int, denominator: int)
        requires
            a <= b,
            0 <= numerator <= denominator,
            denominator > 0,
        ensures
            Self::rounded(a, numerator, denominator) <= Self::rounded(b, numerator, denominator),
            a - Self::rounded(a, numerator, denominator) <= b - Self::rounded(
                b,
                numerator,
                denominator,
            ),
    {
        let h = denominator / 2;
        let x = a * numerator + h;
        let y = b * numerator + h;
        assert(x <= y <= x + (b - a) * denominator) by (nonlinear_arith)
            requires
                a <= b,
                0 <= numerator <= denominator,
                x == a * numerator + h,
                y == b * numerator + h,
        ;
        let p = x / denominator;
        let q = y / denominator;
        assert(p <= q <= p + (b - a)) by (nonlinear_arith)
            requires
                denominator > 0,
                a <= b,
                x <= y <= x + (b - a) * denominator,
                p == x / denominator,
                q == y / denominator,
        ;
    }

    /// Requires that three shares make up the whole, and that those of client
    /// and treasury are within their limits.
    pub fn validate_fee_allocation(
        client_bps: u32,
        freelancer_bps: u32,
        treasury_bps: u32,
    ) -> (r: Result<(), Error>)
        ensures
            r == (match Self::fee_allocation_error(client_bps, freelancer_bps, treasury_bps) {
                Some(error) => Err(error),
                None => Ok(()),
            }),
    {
        let total: u32 = match client_bps.checked_add(freelancer_bps) {
            Some(sum) => match sum.checked_add(treasury_bps) {
                Some(total) => total,
                None => {
                    return Err(Error::InvalidRatio);
                },
            },
            None => {
                return Err(Error::InvalidRatio);
            },
        };
        if total != BPS_SCALE {
            return Err(Error::InvalidRatio);
        }
        if treasury_bps > MAX_TREASURY_FEE_BPS || client_bps > MAX_CLIENT_FEE_BPS {
            return Err(Error::FeeTooHigh);
        }
        Ok(())
    }

    /// Requires that principal, rate and duration are positive, and that the
    /// rate is at most the whole.
    pub fn validate_interest_yield_params(
        principal: i128,
        annual_rate_bps: i128,
        duration_seconds: i128,
    ) -> (r: Result<(), Error>)
        ensures
            r == (match Self::interest_yield_error(principal, annual_rate_bps, duration_seconds) {
                Some(error) => Err(error),
                None => Ok(()),
            }),
    {
        if principal <= 0 {
            return Err(Error::InvalidAmount);
        }
        if annual_rate_bps <= 0 {
            return Err(Error::InvalidAmount);
        }
        if annual_rate_bps > BPS_DENOMINATOR {
            return Err(Error::InvalidRatio);
        }
        if duration_seconds <= 0 {
            return Err(Error::InvalidAmount);
        }
        Ok(())
    }

    /// Requires that two shares make up the whole.
    pub fn validate_interest_yield_share_config(
        client_share_bps: u32,
        freelancer_share_bps: u32,
    ) -> (r: Result<(), Error>)
        ensures
            r == (if client_share_bps + freelancer_share_bps == BPS_SCALE {
                Ok(())
            } else {
                Err(Error::InvalidRatio)
            }),
    {
        let total: u32 = match client_share_bps.checked_add(freelancer_share_bps) {
            Some(total) => total,
            None => {
                return Err(Error::InvalidRatio);
            },
        };
        if total != BPS_SCALE {
            return Err(Error::InvalidRatio);
        }
        Ok(())
    }

    /// Requires that a rate is at most the whole.
    pub fn validate_yield_rate_bps(rate_bps: u32) -> (r: Result<(), Error>)
        ensures
            r == (if rate_bps <= BPS_SCALE {
                Ok(())
            } else {
                Err(Error::InvalidRatio)
            }),
    {
        if rate_bps > BPS_SCALE {
            return Err(Error::InvalidRatio);
        }
        Ok(())
    }

    /// Requires a positive amount, a ratio between nothing and the whole, and
    /// a product of the two that is representable.
    pub fn validate_streaming_ratio(
        total_amount: i128,
        numerator: i128,
        denominator: i128,
    ) -> (r: Result<(), Error>)
        ensures
            r == (match Self::streaming_ratio_error(total_amount, numerator, denominator) {
                Some(error) => Err(error),
                None => Ok(()),
            }),
    {
        if total_amount <= 0 {
            return Err(Error::InvalidAmount);
        }
        if denominator <= 0 {
            return Err(Error::InvalidRatio);
        }
        if numerator < 0 || numerator > denominator {
            return Err(Error::InvalidRatio);
        }
        proof {
            Self::rounded_share_is_a_part(
                total_amount as int,
                numerator as int,
                denominator as int,
            );
        }
        if total_amount.checked_mul(numerator).is_none() {
            return Err(Error::InvalidAmount);
        }
        Ok(())
    }

    /// Splits an amount in two by a ratio. The first part is rounded to the
    /// nearest unit, and the second is what is left of the amount.
    pub fn split_round_nearest(total: i128, numerator: i128, denominator: i128) -> (r: Result<
        RatioSplit,
        Error,
    >)
        ensures
            r == Self::split_result(total, numerator, denominator),
            r matches Ok(split) ==> {
                &&& split.first + split.second == total
                &&& 0 <= split.first <= total
                &&& split.first == Self::rounded(
                    total as int,
                    numerator as int,
                    denominator as int,
                )
            },
    {
        if total < 0 || numerator < 0 || denominator <= 0 || numerator > denominator {
            return Err(Error::InvalidRatio);
        }
        proof {
            Self::rounded_share_is_a_part(total as int, numerator as int, denominator as int);
        }
        let scaled: i128 = match total.checked_mul(numerator) {
            Some(scaled) => scaled,
            None => {
                return Err(Error::InvalidAmount);
            },
        };
        let half: i128 = denominator / 2;
        let biased: i128 = match scaled.checked_add(half) {
            Some(biased) => biased,
            None => {
                return Err(Error::InvalidAmount);
            },
        };
        let rounded: i128 = biased / denominator;
        Ok(RatioSplit { first: rounded, second: total - rounded })
    }

    /// Shares a fee out by an allocation, by largest remainders.
    pub fn allocate_platform_fee(total_amount: i128, allocation: &PlatformFeeAllocation) -> (r:
        Result<PlatformFeeDistribution, Error>)
        ensures
            r == Self::platform_fee_result(total_amount, *allocation),
            r matches Ok(d) ==> d.client_amount + d.freelancer_amount + d.treasury_amount
                == total_amount,
    {
        if total_amount == i128::MIN {
            return Err(Error::ArithmeticOverflow);
        }
        if total_amount < 0 {
            return Err(Error::InvalidAmount);
        }
        let mut weights: Vec<i128> = Vec::new();
        weights.push(allocation.client_bps as i128);
        weights.push(allocation.freelancer_bps as i128);
        weights.push(allocation.treasury_bps as i128);
        proof {
            assert(weights@ =~= Self::fee_weights(*allocation));
            if LargestRemainder::representable(total_amount as int, weights@) {
                Self::lemma_fee_floors(total_amount as int, weights@);
            }
        }
        match LargestRemainder::allocate(total_amount, &weights, BPS_DENOMINATOR) {
            Some(shares) => {
                proof {
                    Self::lemma_sum_of_three(shares@);
                }
                Ok(
                    PlatformFeeDistribution {
                        client_amount: shares[0],
                        freelancer_amount: shares[1],
                        treasury_amount: shares[2],
                    },
                )
            },
            None => Err(Error::ArithmeticOverflow),
        }
    }

    pub proof fn lemma_sum_of_three(s: Seq<i128>)
        requires
            s.len() == 3,
        ensures
            LargestRemainder::sum(s) == s[0] + s[1] + s[2],
    {
        reveal_with_fuel(LargestRemainder::sum, 4);
        assert(s.drop_last().drop_last().drop_last().len() == 0);
    }

    proof fn lemma_fee_floors(total: int, weights: Seq<i128>)
        requires
            total >= 0,
            weights.len() == 3,
            forall|i: int| 0 <= i < 3 ==> 0 <= #[trigger] weights[i],
            LargestRemainder::representable(total, weights),
        ensures
            LargestRemainder::sum(LargestRemainder::floors(total, weights, BPS_SCALE as int))
                <= i128::MAX,
    {
        let floors = LargestRemainder::floors(total, weights, BPS_SCALE as int);
        assert forall|i: int| 0 <= i < 3 implies 0 <= #[trigger] floors[i] <= i128::MAX / 3 by {
            let w = weights[i] as int;
            assert(total * w >= 0) by (nonlinear_arith)
                requires
                    total >= 0,
                    w >= 0,
            ;
            assert(total * weights[i] <= i128::MAX);
        }
        Self::lemma_sum_of_three(floors);
        assert(floors[0] <= i128::MAX / 3);
        assert(floors[1] <= i128::MAX / 3);
        assert(floors[2] <= i128::MAX / 3);
    }

    /// Adds a positive amount to a total.
    pub fn checked_add_amount(total: i128, amount: i128) -> (r: Result<i128, Error>)
        ensures
            r == (if amount <= 0 || total + amount > i128::MAX {
                Err(Error::InvalidAmount)
            } else {
                Ok((total + amount) as i128)
            }),
    {
        if amount <= 0 {
            return Err(Error::InvalidAmount);
        }
        match total.checked_add(amount) {
            Some(sum) => Ok(sum),
            None => Err(Error::InvalidAmount),
        }
    }

    /// Splits an amount by the share of the client, which is rounded down; the
    /// freelancer gets what is left.
    pub fn allocate_refund_by_bps(total_amount: i128, client_refund_bps: u32) -> (r: Result<
        RefundAllocation,
        Error,
    >)
        ensures
            r == Self::refund_by_bps_result(total_amount, client_refund_bps),
            r matches Ok(a) ==> {
                &&& a.client_refund + a.freelancer_payout == total_amount
                &&& a.client_refund_bps + a.freelancer_payout_bps == BPS_SCALE
                &&& 0 <= a.client_refund <= total_amount
            },
    {
        if total_amount < 0 {
            return Err(Error::InvalidAmount);
        }
        if client_refund_bps > BPS_SCALE {
            return Err(Error::InvalidRatio);
        }
        proof {
            Self::rounded_share_is_a_part(
                total_amount as int,
                client_refund_bps as int,
                BPS_SCALE as int,
            );
        }
        let scaled: i128 = match total_amount.checked_mul(client_refund_bps as i128) {
            Some(scaled) => scaled,
            None => {
                return Err(Error::InvalidAmount);
            },
        };
        let client_refund: i128 = scaled / BPS_DENOMINATOR;
        assert(scaled <= total_amount * 10_000) by (nonlinear_arith)
            requires
                scaled == total_amount * client_refund_bps,
                total_amount >= 0,
                client_refund_bps <= 10_000,
        ;
        Ok(
            RefundAllocation {
                client_refund,
                freelancer_payout: total_amount - client_refund,
                client_refund_bps,
                freelancer_payout_bps: BPS_SCALE - client_refund_bps,
            },
        )
    }

    /// Splits an amount by the shares of client and freelancer. The share of
    /// the client is rounded to the nearest unit.
    pub fn split_refund_allocation(
        total_amount: i128,
        client_refund_bps: u32,
        freelancer_payout_bps: u32,
    ) -> (r: Result<RefundAllocation, Error>)
        ensures
            r == Self::split_refund_result(total_amount, client_refund_bps, freelancer_payout_bps),
            r matches Ok(a) ==> {
                &&& a.client_refund + a.freelancer_payout == total_amount
                &&& 0 <= a.client_refund <= total_amount
            },
    {
        if total_amount <= 0 {
            return Err(Error::InvalidAmount);
        }
        Self::validate_interest_yield_share_config(client_refund_bps, freelancer_payout_bps)?;
        let split = Self::split_round_nearest(
            total_amount,
            client_refund_bps as i128,
            BPS_DENOMINATOR,
        )?;
        Ok(
            RefundAllocation {
                client_refund: split.first,
                freelancer_payout: split.second,
                client_refund_bps,
                freelancer_payout_bps,
            },
        )
    }

    /// Neither party is left with less than nothing where a gross amount and a
    /// tax on it are split alike.
    pub proof fn lemma_tax_within_share(gross: int, tax: int, bps: int)
        requires
            0 <= tax <= gross,
            0 <= bps <= BPS_SCALE,
        ensures
            0 <= Self::rounded(gross, bps, BPS_SCALE as int) - Self::rounded(
                tax,
                bps,
                BPS_SCALE as int,
            ) <= gross - tax,
    {
        let a = gross * bps;
        let b = tax * bps;
        assert(0 <= a - b <= (gross - tax) * 10_000) by (nonlinear_arith)
            requires
                a == gross * bps,
                b == tax * bps,
                0 <= tax <= gross,
                0 <= bps <= 10_000,
        ;
    }

    /// Splits a gross amount and the tax on it by the same shares, and gives
    /// each party its part of the one less its part of the other.
    pub fn allocate_withholding_refund(
        gross_amount: i128,
        tax_amount: i128,
        client_refund_bps: u32,
        freelancer_payout_bps: u32,
    ) -> (r: Result<RefundAllocation, Error>)
        ensures
            r == Self::withholding_refund_result(
                gross_amount,
                tax_amount,
                client_refund_bps,
                freelancer_payout_bps,
            ),
            r matches Ok(a) ==> {
                &&& a.client_refund + a.freelancer_payout == gross_amount - tax_amount
                &&& a.client_refund >= 0
                &&& a.freelancer_payout >= 0
            },
    {
        if gross_amount <= 0 {
            return Err(Error::InvalidAmount);
        }
        if tax_amount < 0 || tax_amount > gross_amount {
            return Err(Error::InvalidAmount);
        }
        Self::validate_interest_yield_share_config(client_refund_bps, freelancer_payout_bps)?;
        let gross = Self::split_round_nearest(
            gross_amount,
            client_refund_bps as i128,
            BPS_DENOMINATOR,
        )?;
        let tax = Self::split_round_nearest(tax_amount, client_refund_bps as i128, BPS_DENOMINATOR)?;
        proof {
            Self::lemma_tax_within_share(
                gross_amount as int,
                tax_amount as int,
                client_refund_bps as int,
            );
        }
        Ok(
            RefundAllocation {
                client_refund: gross.first - tax.first,
                freelancer_payout: gross.second - tax.second,
                client_refund_bps,
                freelancer_payout_bps,
            },
        )
    }

    /// Splits a disputed amount by the share that the arbiter awards to the
    /// freelancer, which is rounded to the nearest unit.
    pub fn dispute_arbitration_split(total_amount: i128, freelancer_bps: u32) -> (r: Result<
        RefundAllocation,
        Error,
    >)
        ensures
            r == Self::arbitration_split_result(total_amount, freelancer_bps),
            r matches Ok(a) ==> {
                &&& a.client_refund + a.freelancer_payout == total_amount
                &&& a.client_refund_bps + a.freelancer_payout_bps == BPS_SCALE
                &&& 0 <= a.client_refund <= total_amount
            },
    {
        if total_amount < 0 {
            return Err(Error::InvalidAmount);
        }
        if freelancer_bps > BPS_SCALE {
            return Err(Error::InvalidRatio);
        }
        let split = Self::split_round_nearest(
            total_amount,
            freelancer_bps as i128,
            BPS_DENOMINATOR,
        )?;
        Ok(
            RefundAllocation {
                client_refund: split.second,
                freelancer_payout: split.first,
                client_refund_bps: BPS_SCALE - freelancer_bps,
                freelancer_payout_bps: freelancer_bps,
            },
        )
    }
}

} // verus!
