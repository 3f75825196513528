//! What each endpoint is for, said of the stored fields themselves.
//!
//! A rule speaks of a call's arguments, of the fields that are stored before and
//! after it, and of what it returns, asks for and publishes. It uses none of the
//! definitions that the endpoints are described by, so that it holds them to
//! account.

pub mod approvals;
pub mod cancelling;
pub mod disputes;
pub mod governance;
pub mod holdings;
pub mod job;
pub mod money;
pub mod overrides;
pub mod pauses;
pub mod readings;
pub mod sharing;
pub mod terms;
pub mod withholding;

use vstd::prelude::*;

use crate::arith::MilestoneEscrow;
use crate::host::LedgerView;
use crate::outcome::Outcome;
use crate::types::{Address, Error, Milestone, MilestoneStatus, RefundAllocation};

verus! {

/// Whether a call is refused at once with an error, or else takes some
/// signatures and is then refused with an error, or else is accepted.
pub open spec fn heard<T>(
    outcome: Outcome<T>,
    at_once: Option<Error>,
    signers: Seq<Address>,
    then: Option<Error>,
) -> bool {
    match at_once {
        Some(error) => outcome.auths =~= Seq::<Address>::empty() && outcome.result is Err
            && outcome.result->Err_0 == error,
        None => outcome.auths =~= signers && match then {
            Some(error) => outcome.result is Err && outcome.result->Err_0 == error,
            None => outcome.result is Ok,
        },
    }
}

/// Whether an address is one that nobody can sign for.
pub open spec fn nobody(address: Address) -> bool {
    address.hi == 0 && address.lo == 0
}

/// The number that is stored under a key; none counts as zero.
pub open spec fn number<K>(m: Map<K, u32>, k: K) -> int {
    if m.contains_key(k) {
        m[k] as int
    } else {
        0
    }
}

/// The operation that a ledger is amid, as an error.
pub open spec fn amid(l: LedgerView) -> Option<Error> {
    if l.instance.tax_withholding_execution_lock == Some(true) {
        Some(Error::TaxWithholdingInProgress)
    } else if l.instance.platform_fee_allocation_lock == Some(true) {
        Some(Error::PlatformFeeAllocationInProgress)
    } else if l.instance.emergency_pause_lock == Some(true) {
        Some(Error::EmergencyPauseInProgress)
    } else if l.instance.time_ext_execution_lock == Some(true) {
        Some(Error::TimeExtInProgress)
    } else if l.instance.payment_streaming_execution_lock == Some(true) {
        Some(Error::PaymentStreamingInProgress)
    } else {
        None
    }
}

/// What keeps the parties of a job out, as an error: a pause, a freeze, a
/// cancellation, or an operation that the ledger is amid.
pub open spec fn shut(l: LedgerView) -> Option<Error> {
    if l.instance.paused == Some(true) || l.instance.emergency_paused == Some(true) {
        Some(Error::Paused)
    } else if l.instance.cancel_lock == Some(true) {
        Some(Error::EscrowLocked)
    } else {
        amid(l)
    }
}

/// What an address that is not the stored admin is told.
pub open spec fn not_admin(stored: Option<Address>, admin: Address) -> Option<Error> {
    if stored is None {
        Some(Error::NotInitialized)
    } else if stored->0 != admin {
        Some(Error::Unauthorized)
    } else {
        None
    }
}

/// Whether the counters of two addresses have room for a point each.
pub open spec fn room_for(points: Map<Address, u32>, a: Address, b: Address) -> bool {
    &&& number(points, a) + (if a == b { 2int } else { 1 }) <= u32::MAX
    &&& number(points, b) + 1 <= u32::MAX
}

/// Whether two addresses, and no others, have earned a point each.
pub open spec fn each_earned(
    before: Map<Address, u32>,
    after: Map<Address, u32>,
    a: Address,
    b: Address,
) -> bool {
    forall|x: Address| #[trigger]
        number(after, x) == number(before, x) + (if x == a {
            1int
        } else {
            0
        }) + (if x == b {
            1int
        } else {
            0
        })
}

/// Whether all that changed of the milestones is the status of one and what was
/// paid of it.
pub open spec fn moved(
    before: Map<u32, Milestone>,
    after: Map<u32, Milestone>,
    index: u32,
    status: MilestoneStatus,
    released_amount: int,
) -> bool {
    &&& before.contains_key(index)
    &&& after =~= before.insert(index, after[index])
    &&& after[index].amount == before[index].amount
    &&& after[index].delivered_at == before[index].delivered_at
    &&& after[index].status == status
    &&& after[index].released_amount == released_amount
}

/// Whether a whole number is a fraction of a total rounded to the nearest, and
/// up where two are equally near.
pub open spec fn nearest(part: int, total: int, numerator: int, denominator: int) -> bool {
    2 * (part * denominator) <= 2 * (total * numerator) + denominator < 2 * (part * denominator)
        + 2 * denominator
}

/// Why an amount is not split between two parties by shares, if it is not: it is
/// not positive, the shares do not make up the whole, or it is too large.
pub open spec fn no_split(total: int, client_bps: int, freelancer_bps: int) -> Option<Error> {
    if total <= 0 {
        Some(Error::InvalidAmount)
    } else if client_bps + freelancer_bps != 10_000 {
        Some(Error::InvalidRatio)
    } else if total * client_bps + 5_000 > i128::MAX {
        Some(Error::InvalidAmount)
    } else {
        None
    }
}

/// Whether an amount is split between two parties: the client gets its share,
/// rounded to the nearest, and the freelancer all the rest.
pub open spec fn is_split(
    split: RefundAllocation,
    total: int,
    client_bps: u32,
    freelancer_bps: u32,
) -> bool {
    &&& nearest(split.client_refund as int, total, client_bps as int, 10_000)
    &&& split.client_refund + split.freelancer_payout == total
    &&& 0 <= split.client_refund <= total
    &&& split.client_refund_bps == client_bps
    &&& split.freelancer_payout_bps == freelancer_bps
}

/// An amount is split as [`is_split`] says, or not for the reason that
/// [`no_split`] gives.
pub proof fn an_amount_is_split_to_the_nearest(
    total: i128,
    client_bps: u32,
    freelancer_bps: u32,
)
    ensures
        ({
            let result = MilestoneEscrow::split_refund_result(total, client_bps, freelancer_bps);
            match no_split(total as int, client_bps as int, freelancer_bps as int) {
                Some(error) => result is Err && result->Err_0 == error,
                None => result is Ok && is_split(
                    result->Ok_0,
                    total as int,
                    client_bps,
                    freelancer_bps,
                ),
            }
        }),
{
    lemma_rounded_is_nearest(total as int, client_bps as int, 10_000);
    if total > 0 && client_bps <= 10_000 {
        MilestoneEscrow::rounded_share_is_a_part(total as int, client_bps as int, 10_000);
    }
}

/// What is rounded is the nearest.
pub proof fn lemma_rounded_is_nearest(total: int, numerator: int, denominator: int)
    requires
        denominator > 0,
    ensures
        nearest(
            MilestoneEscrow::rounded(total, numerator, denominator),
            total,
            numerator,
            denominator,
        ),
{
    let x = total * numerator;
    let h = denominator / 2;
    let q = (x + h) / denominator;
    assert(2 * (q * denominator) <= 2 * x + denominator < 2 * (q * denominator) + 2 * denominator)
        by (nonlinear_arith)
        requires
            denominator > 0,
            h == denominator / 2,
            q == (x + h) / denominator,
    ;
}

/// A sum of amounts is what adding them one by one gives.
pub proof fn sums_add_up(s: Seq<i128>, x: i128)
    ensures
        crate::shares::LargestRemainder::sum(Seq::<i128>::empty()) == 0,
        crate::shares::LargestRemainder::sum(s.push(x)) == crate::shares::LargestRemainder::sum(s)
            + x,
{
    assert(s.push(x).drop_last() =~= s);
}

} // verus!
