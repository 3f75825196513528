//! Sharing an amount out among many.

use vstd::prelude::*;

use crate::arith::MilestoneEscrow;
use crate::events::{
    EmergencyPauseAllocationEvent, Event, MultiSigTransferAdminEvent,
    PlatformFeeSplitCalculatedEvent,
};
use crate::host::{Action, LedgerView};
use crate::shares::LargestRemainder;
use crate::types::{Address, Error, PlatformFeeAllocation};

verus! {

/// By how much a share exceeds the exact one rounded down.
pub open spec fn extra(total: int, weight: int, divisor: int, share: int) -> int {
    share - total * weight / divisor
}

/// What rounding the exact share down cuts off, in parts of the divisor.
pub open spec fn cut_off(total: int, weight: int, divisor: int) -> int {
    total * weight % divisor
}

/// Whether an amount is shared out by weights. All of it is, and everyone gets
/// the exact share rounded down or one more. One more goes to those from whom
/// rounding cut off the most, and to the earlier of two from whom it cut off
/// alike. Only where everyone gets one more does the first get all that is left.
pub open spec fn shared_out(
    total: int,
    weights: Seq<i128>,
    divisor: int,
    shares: Seq<i128>,
) -> bool {
    &&& shares.len() == weights.len()
    &&& LargestRemainder::sum(shares) == total
    &&& forall|i: int|
        #![trigger shares[i]]
        0 <= i < shares.len() ==> {
            let more = extra(total, weights[i] as int, divisor, shares[i] as int);
            &&& 0 <= more
            &&& more <= 1 || i == 0
        }
    &&& extra(total, weights[0] as int, divisor, shares[0] as int) > 1 ==> forall|i: int|
        #![trigger shares[i]]
        0 <= i < shares.len() ==> extra(total, weights[i] as int, divisor, shares[i] as int) >= 1
    &&& forall|j: int, i: int|
        #![trigger shares[j], shares[i]]
        0 <= j < shares.len() && 0 <= i < shares.len() && extra(
            total,
            weights[j] as int,
            divisor,
            shares[j] as int,
        ) >= 1 && extra(total, weights[i] as int, divisor, shares[i] as int) == 0 ==> {
            let a = cut_off(total, weights[j] as int, divisor);
            let b = cut_off(total, weights[i] as int, divisor);
            a > b || a == b && j < i
        }
}

/// The exact shares, each rounded down.
pub open spec fn rounded_down(total: int, weights: Seq<i128>, divisor: int) -> Seq<i128> {
    Seq::new(weights.len(), |i: int| (total * weights[i] / divisor) as i128)
}

/// An amount is shared out as [`shared_out`] says wherever it can be.
pub proof fn an_amount_is_shared_out(total: int, weights: Seq<i128>, divisor: int)
    requires
        0 <= total <= i128::MAX,
        weights.len() > 0,
        divisor > 0,
        forall|i: int| 0 <= i < weights.len() ==> #[trigger] weights[i] >= 0,
        forall|i: int| 0 <= i < weights.len() ==> total * (#[trigger] weights[i]) <= i128::MAX,
        LargestRemainder::sum(rounded_down(total, weights, divisor)) <= total,
    ensures
        shared_out(
            total,
            weights,
            divisor,
            LargestRemainder::shares(total, weights, divisor),
        ),
{
    let n = weights.len();
    let shares = LargestRemainder::shares(total, weights, divisor);
    let residue = LargestRemainder::residue(total, weights, divisor);
    assert(rounded_down(total, weights, divisor) =~= LargestRemainder::floors(
        total,
        weights,
        divisor,
    ));
    LargestRemainder::shares_make_up_the_total(total, weights, divisor);
    assert forall|i: int| 0 <= i < n implies (#[trigger] shares[i]) == LargestRemainder::share(
        total,
        weights,
        divisor,
        i,
    ) by {}
    assert forall|i: int| 0 <= i < n implies #[trigger] LargestRemainder::rank(
        total,
        weights,
        divisor,
        i,
    ) < n by {
        LargestRemainder::everyone_has_a_place(total, weights, divisor, i);
    }
    assert forall|j: int, i: int|
        #![trigger shares[j], shares[i]]
        0 <= j < n && 0 <= i < n && extra(total, weights[j] as int, divisor, shares[j] as int) >= 1
            && extra(total, weights[i] as int, divisor, shares[i] as int) == 0 implies {
        let a = cut_off(total, weights[j] as int, divisor);
        let b = cut_off(total, weights[i] as int, divisor);
        a > b || a == b && j < i
    } by {
        if j != i && !LargestRemainder::ahead(total, weights, divisor, j, i) {
            LargestRemainder::ahead_is_served_first(total, weights, divisor, i, j);
        }
    }
    assert forall|i: int|
        #![trigger shares[i]]
        0 <= i < n && extra(total, weights[0] as int, divisor, shares[0] as int)
            > 1 implies extra(total, weights[i] as int, divisor, shares[i] as int) >= 1 by {
        assert(residue > n);
        assert(LargestRemainder::rank(total, weights, divisor, i) < n);
    }
}

/// There is just one way to share an amount out: two lists that [`shared_out`]
/// admits are the same.
pub proof fn there_is_one_way_to_share_out(
    total: int,
    weights: Seq<i128>,
    divisor: int,
    a: Seq<i128>,
    b: Seq<i128>,
)
    requires
        divisor > 0,
        weights.len() > 0,
        shared_out(total, weights, divisor, a),
        shared_out(total, weights, divisor, b),
    ensures
        a =~= b,
{
    if !(a =~= b) {
        lemma_differ(a, b);
        let (x, y) = choose|x: int, y: int|
            0 <= x < a.len() && 0 <= y < a.len() && #[trigger] a[x] < b[x] && b[y] < #[trigger] a[y];
        assert(a[x] < b[x] && b[y] < a[y]);
    }
}

proof fn lemma_no_more(a: Seq<i128>, b: Seq<i128>)
    requires
        a.len() == b.len(),
        forall|i: int| 0 <= i < a.len() ==> #[trigger] a[i] <= b[i],
    ensures
        LargestRemainder::sum(a) <= LargestRemainder::sum(b),
        LargestRemainder::sum(a) == LargestRemainder::sum(b) ==> a =~= b,
    decreases a.len(),
{
    if a.len() > 0 {
        let n = a.len() - 1;
        assert(a[n] <= b[n]);
        assert forall|i: int| 0 <= i < n implies #[trigger] a.drop_last()[i] <= b.drop_last()[i] by {
            assert(a[i] <= b[i]);
        }
        lemma_no_more(a.drop_last(), b.drop_last());
        if LargestRemainder::sum(a) == LargestRemainder::sum(b) {
            assert forall|i: int| 0 <= i < a.len() implies a[i] == b[i] by {
                if i < n {
                    assert(a.drop_last()[i] == b.drop_last()[i]);
                }
            }
        }
    }
}

proof fn lemma_differ(a: Seq<i128>, b: Seq<i128>)
    requires
        a.len() == b.len(),
        LargestRemainder::sum(a) == LargestRemainder::sum(b),
        !(a =~= b),
    ensures
        exists|x: int, y: int|
            0 <= x < a.len() && 0 <= y < a.len() && #[trigger] a[x] < b[x] && b[y] < #[trigger] a[y],
{
    if forall|i: int| 0 <= i < a.len() ==> #[trigger] a[i] <= b[i] {
        lemma_no_more(a, b);
    } else if forall|i: int| 0 <= i < a.len() ==> #[trigger] b[i] <= a[i] {
        lemma_no_more(b, a);
    } else {
        let y = choose|i: int| 0 <= i < a.len() && !(#[trigger] a[i] <= b[i]);
        let x = choose|i: int| 0 <= i < a.len() && !(#[trigger] b[i] <= a[i]);
        assert(a[x] < b[x] && b[y] < a[y]);
    }
}

/// Why an amount is not shared out by weights, if it is not: it is not positive,
/// there is no weight, there are too many, one is negative, they do not make up a
/// positive amount that can be stored, or a weighted amount cannot be.
pub open spec fn not_shared(
    total: int,
    weights: Seq<i128>,
    none: Error,
    too_many: Error,
    bad: Error,
) -> Option<Error> {
    if total <= 0 {
        Some(Error::InvalidAmount)
    } else if weights.len() == 0 {
        Some(none)
    } else if weights.len() > 255 {
        Some(too_many)
    } else if exists|i: int| 0 <= i < weights.len() && #[trigger] weights[i] < 0 {
        Some(bad)
    } else if LargestRemainder::sum(weights) <= 0 || LargestRemainder::sum(weights) > i128::MAX {
        Some(bad)
    } else if exists|i: int|
        0 <= i < weights.len() && total * (#[trigger] weights[i]) > i128::MAX {
        Some(Error::InvalidAmount)
    } else {
        None
    }
}

/// Wherever an amount is shared out by weights it is as [`shared_out`] says, in
/// parts of all weights together.
pub proof fn weights_share_an_amount_out(
    total: i128,
    weights: Seq<i128>,
    none: Error,
    too_many: Error,
    bad: Error,
)
    ensures
        MilestoneEscrow::allocation_error(total, weights, none, too_many, bad) == not_shared(
            total as int,
            weights,
            none,
            too_many,
            bad,
        ),
        not_shared(total as int, weights, none, too_many, bad) is None ==> shared_out(
            total as int,
            weights,
            LargestRemainder::sum(weights),
            MilestoneEscrow::shares_by_weight(total, weights),
        ),
{
    let t = total as int;
    if total > 0 && 0 < weights.len() <= 255 {
        let all = forall|i: int| 0 <= i < weights.len() ==> (#[trigger] weights[i]) >= 0;
        let fits = forall|i: int|
            0 <= i < weights.len() ==> t * (#[trigger] weights[i]) <= i128::MAX;
        assert(all == !(exists|i: int| 0 <= i < weights.len() && #[trigger] weights[i] < 0));
        assert(fits == !(exists|i: int|
            0 <= i < weights.len() && t * (#[trigger] weights[i]) > i128::MAX));
        let d = LargestRemainder::sum(weights);
        if all && 0 < d <= i128::MAX && fits {
            LargestRemainder::residue_is_small(t, weights, d);
            assert(rounded_down(t, weights, d) =~= LargestRemainder::floors(t, weights, d));
            an_amount_is_shared_out(t, weights, d);
        }
    }
}

/// In an emergency an amount is shared out and that announced; nothing else
/// happens.
pub proof fn an_emergency_allocation_is_announced(
    l: LedgerView,
    total_amount: i128,
    weights: Seq<i128>,
    list: soroban_sdk::Vec<i128>,
)
    ensures
        ({
            let outcome = MilestoneEscrow::emergency_pause_allocation_outcome(
                l,
                total_amount,
                weights,
                list,
            );
            &&& super::heard(
                outcome,
                not_shared(
                    total_amount as int,
                    weights,
                    Error::InvalidAllocationWeights,
                    Error::InvalidAllocationWeights,
                    Error::InvalidAllocationWeights,
                ),
                Seq::empty(),
                None,
            )
            &&& outcome.result matches Ok(step) ==> {
                &&& step.value == list
                &&& step.ledger =~= l
                &&& step.actions =~= Seq::<Action>::empty()
                &&& step.events =~= seq![
                    Event::EmergencyPauseAllocation(
                        EmergencyPauseAllocationEvent {
                            total_amount,
                            num_parties: weights.len() as u32,
                            allocations: list,
                        },
                    ),
                ]
            }
        }),
{
    weights_share_an_amount_out(
        total_amount,
        weights,
        Error::InvalidAllocationWeights,
        Error::InvalidAllocationWeights,
        Error::InvalidAllocationWeights,
    );
}

/// For the admin an amount is shared out by ratios and that announced; nothing
/// else happens.
pub proof fn an_allocation_by_ratios_is_announced(
    l: LedgerView,
    admin: Address,
    total_amount: i128,
    ratios: Seq<i128>,
    list: soroban_sdk::Vec<i128>,
)
    ensures
        ({
            let outcome = MilestoneEscrow::multisig_transfer_admin_outcome(
                l,
                admin,
                total_amount,
                ratios,
                list,
            );
            &&& super::heard(
                outcome,
                None,
                seq![admin],
                if super::not_admin(l.persistent.admin, admin) is Some {
                    super::not_admin(l.persistent.admin, admin)
                } else {
                    not_shared(
                        total_amount as int,
                        ratios,
                        Error::InvalidRatio,
                        Error::InvalidAmount,
                        Error::InvalidRatio,
                    )
                },
            )
            &&& outcome.result matches Ok(step) ==> {
                &&& step.value == list
                &&& step.ledger =~= l
                &&& step.actions =~= Seq::<Action>::empty()
                &&& step.events =~= seq![
                    Event::MultiSigTransferAdmin(
                        MultiSigTransferAdminEvent {
                            total_amount,
                            num_parties: ratios.len() as u32,
                            allocations: list,
                        },
                    ),
                ]
            }
        }),
{
    weights_share_an_amount_out(
        total_amount,
        ratios,
        Error::InvalidRatio,
        Error::InvalidAmount,
        Error::InvalidRatio,
    );
}

/// Why a fee is not shared out, if it is not.
pub open spec fn no_fee_split(total: int, fees: PlatformFeeAllocation) -> Option<Error> {
    if total == i128::MIN {
        Some(Error::ArithmeticOverflow)
    } else if total < 0 {
        Some(Error::InvalidAmount)
    } else if total * fees.client_bps > i128::MAX || total * fees.freelancer_bps > i128::MAX
        || total * fees.treasury_bps > i128::MAX {
        Some(Error::ArithmeticOverflow)
    } else if total * fees.client_bps / 10_000 + total * fees.freelancer_bps / 10_000 + total
        * fees.treasury_bps / 10_000 > total {
        Some(Error::ArithmeticOverflow)
    } else {
        None
    }
}

proof fn lemma_sum_of_three(a: i128, b: i128, c: i128)
    ensures
        LargestRemainder::sum(seq![a, b, c]) == a + b + c,
{
    super::sums_add_up(Seq::empty(), a);
    super::sums_add_up(seq![a], b);
    super::sums_add_up(seq![a, b], c);
    assert(Seq::<i128>::empty().push(a) =~= seq![a]);
    assert(seq![a].push(b) =~= seq![a, b]);
    assert(seq![a, b].push(c) =~= seq![a, b, c]);
}

/// A fee is shared out among the client, the freelancer and the treasury by the
/// stored shares, as [`shared_out`] says, and that announced.
pub proof fn a_fee_is_shared_out(l: LedgerView, total_amount: i128)
    ensures
        ({
            let outcome = MilestoneEscrow::calculate_platform_fee_split_outcome(l, total_amount);
            let fees = l.instance.platform_fee_allocation->0;
            let total = total_amount as int;
            &&& super::heard(
                outcome,
                if l.instance.platform_fee_allocation is None {
                    Some(Error::NotInitialized)
                } else {
                    no_fee_split(total, fees)
                },
                Seq::empty(),
                None,
            )
            &&& outcome.result matches Ok(step) ==> {
                let d = step.value;
                &&& shared_out(
                    total,
                    seq![
                        fees.client_bps as i128,
                        fees.freelancer_bps as i128,
                        fees.treasury_bps as i128,
                    ],
                    10_000,
                    seq![d.client_amount, d.freelancer_amount, d.treasury_amount],
                )
                &&& d.client_amount + d.freelancer_amount + d.treasury_amount == total
                &&& step.ledger =~= l
                &&& step.actions =~= Seq::<Action>::empty()
                &&& step.events =~= seq![
                    Event::PlatformFeeSplitCalculated(
                        PlatformFeeSplitCalculatedEvent {
                            total_amount,
                            client_amount: d.client_amount,
                            freelancer_amount: d.freelancer_amount,
                            treasury_amount: d.treasury_amount,
                        },
                    ),
                ]
            }
        }),
{
    let fees = l.instance.platform_fee_allocation->0;
    let t = total_amount as int;
    let w = seq![
        fees.client_bps as i128,
        fees.freelancer_bps as i128,
        fees.treasury_bps as i128,
    ];
    assert(w =~= MilestoneEscrow::fee_weights(fees));
    assert(w[0] == fees.client_bps && w[1] == fees.freelancer_bps && w[2] == fees.treasury_bps);
    if t >= 0 {
        let floors = rounded_down(t, w, 10_000);
        if LargestRemainder::representable(t, w) {
            assert(t * w[0] <= i128::MAX && t * w[1] <= i128::MAX && t * w[2] <= i128::MAX);
            assert(0 <= t * w[0] && 0 <= t * w[1] && 0 <= t * w[2]) by (nonlinear_arith)
                requires
                    t >= 0,
                    w[0] >= 0,
                    w[1] >= 0,
                    w[2] >= 0,
            ;
            assert(floors =~= seq![floors[0], floors[1], floors[2]]);
            lemma_sum_of_three(floors[0], floors[1], floors[2]);
            assert(floors =~= LargestRemainder::floors(t, w, 10_000));
            if LargestRemainder::residue(t, w, 10_000) >= 0 {
                an_amount_is_shared_out(t, w, 10_000);
                let shares = LargestRemainder::shares(t, w, 10_000);
                assert(shares =~= seq![shares[0], shares[1], shares[2]]);
                lemma_sum_of_three(shares[0], shares[1], shares[2]);
            }
        } else {
            let i = choose|i: int| 0 <= i < w.len() && t * (#[trigger] w[i]) > i128::MAX;
            assert(i == 0 || i == 1 || i == 2);
        }
    }
}

} // verus!
