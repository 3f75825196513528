//! Sharing an amount out among many parties.

use vstd::prelude::*;

use crate::amounts::Reading;
use crate::arith::MilestoneEscrow;
use crate::events::{EmergencyPauseAllocationEvent, Event, MultiSigTransferAdminEvent};
use crate::host::{Host, LedgerView};
use crate::outcome::Outcome;
use crate::shares::LargestRemainder;
use crate::types::{Address, Error, MAX_EMERGENCY_ALLOCATION_PARTIES, MAX_MULTISIG_RATIO_COUNT};

verus! {

impl MilestoneEscrow {
    /// Whether an amount can be shared out by these weights: none is negative,
    /// and their sum is positive and representable.
    pub open spec fn valid_weights(weights: Seq<i128>) -> bool {
        &&& forall|i: int| 0 <= i < weights.len() ==> (#[trigger] weights[i]) >= 0
        &&& 0 < LargestRemainder::sum(weights) <= i128::MAX
    }

    /// What each party gets of an amount that is shared out by weights.
    pub open spec fn shares_by_weight(total: i128, weights: Seq<i128>) -> Seq<i128> {
        LargestRemainder::shares(total as int, weights, LargestRemainder::sum(weights))
    }

    /// The weights of a list and their sum, where an amount can be shared out
    /// by them.
    fn read_weights(list: &soroban_sdk::Vec<i128>) -> (r: Option<(Vec<i128>, i128)>)
        requires
            crate::amounts::legible(*list, 0),
        ensures
            r is Some <==> Self::valid_weights(crate::amounts::amounts(*list)),
            r matches Some((weights, sum)) ==> weights@ == crate::amounts::amounts(*list) && sum
                == LargestRemainder::sum(weights@),
    {
        match crate::amounts::read(list, 0) {
            Reading::Amounts(weights, sum) => if sum > 0 {
                Some((weights, sum))
            } else {
                None
            },
            _ => None,
        }
    }

    /// A list of amounts in the memory of the host.
    fn write_amounts(env: &soroban_sdk::Env, shares: &Vec<i128>) -> (list: soroban_sdk::Vec<i128>)
        requires
            shares@.len() <= 255,
        ensures
            crate::amounts::readable(list),
            crate::amounts::amounts(list) == shares@,
    {
        let mut list = crate::amounts::list_new(env);
        let mut i: usize = 0;
        while i < shares.len()
            invariant
                i <= shares@.len() <= 255,
                crate::amounts::readable(list),
                crate::amounts::amounts(list) == shares@.take(i as int),
            decreases shares@.len() - i,
        {
            assert(crate::amounts::items(list).len() == crate::amounts::amounts(list).len());
            let ghost before = crate::amounts::items(list);
            let ghost taken = crate::amounts::amounts(list);
            crate::amounts::list_push_back(&mut list, shares[i]);
            proof {
                let after = crate::amounts::items(list);
                assert forall|j: int| 0 <= j < after.len() implies (#[trigger] after[j]) is Some by {
                    if j < i {
                        assert(before[j] is Some);
                    }
                }
                assert forall|j: int| 0 <= j < after.len() implies crate::amounts::amounts(list)[j]
                    == shares@.take(i as int + 1)[j] by {
                    if j < i {
                        assert(taken[j] == before[j]->0);
                    }
                }
                assert(crate::amounts::amounts(list) =~= shares@.take(i as int + 1));
            }
            i += 1;
        }
        assert(shares@.take(shares@.len() as int) =~= shares@);
        list
    }

    /// Shares an amount out by weights. Gives `None` where a weighted amount is
    /// not representable.
    fn share_out(
        env: &soroban_sdk::Env,
        total: i128,
        weights: &Vec<i128>,
        sum: i128,
    ) -> (r: Option<soroban_sdk::Vec<i128>>)
        requires
            total > 0,
            0 < weights@.len() <= 255,
            Self::valid_weights(weights@),
            sum == LargestRemainder::sum(weights@),
        ensures
            r is Some <==> LargestRemainder::representable(total as int, weights@),
            r matches Some(list) ==> {
                &&& crate::amounts::readable(list)
                &&& crate::amounts::amounts(list) == Self::shares_by_weight(total, weights@)
                &&& LargestRemainder::sum(crate::amounts::amounts(list)) == total
            },
    {
        proof {
            if LargestRemainder::representable(total as int, weights@) {
                LargestRemainder::residue_is_small(total as int, weights@, sum as int);
            }
        }
        match LargestRemainder::allocate(total, weights, sum) {
            Some(shares) => Some(Self::write_amounts(env, &shares)),
            None => None,
        }
    }

    /// What sharing an amount out by weights is refused for, if anything. The
    /// errors tell a bad number of weights, bad weights and an amount that
    /// cannot be weighted apart.
    pub open spec fn allocation_error(
        total_amount: i128,
        weights: Seq<i128>,
        none: Error,
        too_many: Error,
        bad: Error,
    ) -> Option<Error> {
        if total_amount <= 0 {
            Some(Error::InvalidAmount)
        } else if weights.len() == 0 {
            Some(none)
        } else if weights.len() > 255 {
            Some(too_many)
        } else if !Self::valid_weights(weights) {
            Some(bad)
        } else if !LargestRemainder::representable(total_amount as int, weights) {
            Some(Error::InvalidAmount)
        } else {
            None
        }
    }

    /// Whether sharing an amount out needs no weight that cannot be read: what
    /// it is refused for is known before, or by the weights that can be.
    pub open spec fn weights_suffice(total_amount: i128, weights: soroban_sdk::Vec<i128>) -> bool {
        total_amount > 0 && 0 < crate::amounts::amounts(weights).len() <= 255
            ==> crate::amounts::legible(weights, 0)
    }

    /// Whether sharing an amount out needs no weight that cannot be read.
    fn do_weights_suffice(total_amount: i128, weights: &soroban_sdk::Vec<i128>) -> (r: bool)
        ensures
            r == Self::weights_suffice(total_amount, *weights),
    {
        let count: u32 = crate::amounts::list_len(weights);
        if total_amount <= 0 || count == 0 || count > 255 {
            return true;
        }
        !matches!(crate::amounts::read(weights, 0), Reading::Illegible)
    }

    /// What [`MilestoneEscrow::emergency_pause_allocation`] comes to, where
    /// `list` is the list that it makes.
    pub open spec fn emergency_pause_allocation_outcome(
        l: LedgerView,
        total_amount: i128,
        weights: Seq<i128>,
        list: soroban_sdk::Vec<i128>,
    ) -> Outcome<soroban_sdk::Vec<i128>> {
        match Self::allocation_error(
            total_amount,
            weights,
            Error::InvalidAllocationWeights,
            Error::InvalidAllocationWeights,
            Error::InvalidAllocationWeights,
        ) {
            Some(error) => Outcome::refuse(Seq::empty(), error),
            None => Outcome::announce(
                Seq::empty(),
                Ok(list),
                l,
                |list: soroban_sdk::Vec<i128>|
                    Event::EmergencyPauseAllocation(
                        EmergencyPauseAllocationEvent {
                            total_amount,
                            num_parties: weights.len() as u32,
                            allocations: list,
                        },
                    ),
            ),
        }
    }

    /// Whether [`MilestoneEscrow::emergency_pause_allocation`] meets no weight
    /// that cannot be read.
    pub fn emergency_pause_allocation_can_run(
        total_amount: i128,
        weights: &soroban_sdk::Vec<i128>,
    ) -> (r: bool)
        ensures
            r == Self::weights_suffice(total_amount, *weights),
    {
        Self::do_weights_suffice(total_amount, weights)
    }

    /// Shares an amount out by weights, by largest remainders.
    ///
    /// It must not meet a weight that cannot be read, as
    /// [`MilestoneEscrow::emergency_pause_allocation_can_run`] says.
    pub fn emergency_pause_allocation(
        host: &mut Host,
        env: &soroban_sdk::Env,
        total_amount: i128,
        weights: soroban_sdk::Vec<i128>,
    ) -> (r: Result<soroban_sdk::Vec<i128>, Error>)
        requires
            Self::weights_suffice(total_amount, weights),
        ensures
            old(host)@.comes_to(
                final(host)@,
                r,
                Self::emergency_pause_allocation_outcome(
                    old(host)@.ledger,
                    total_amount,
                    crate::amounts::amounts(weights),
                    r->Ok_0,
                ),
            ),
            r matches Ok(list) ==> {
                &&& crate::amounts::readable(list)
                &&& crate::amounts::amounts(list) == Self::shares_by_weight(
                    total_amount,
                    crate::amounts::amounts(weights),
                )
                &&& LargestRemainder::sum(crate::amounts::amounts(list)) == total_amount
            },
    {
        if total_amount <= 0 {
            return Err(Error::InvalidAmount);
        }
        let num_parties: u32 = crate::amounts::list_len(&weights);
        if num_parties == 0 || num_parties > MAX_EMERGENCY_ALLOCATION_PARTIES {
            return Err(Error::InvalidAllocationWeights);
        }
        let (read, sum) = match Self::read_weights(&weights) {
            Some(read) => read,
            None => {
                return Err(Error::InvalidAllocationWeights);
            },
        };
        let allocations = match Self::share_out(env, total_amount, &read, sum) {
            Some(list) => list,
            None => {
                return Err(Error::InvalidAmount);
            },
        };
        host.publish(
            Event::EmergencyPauseAllocation(
                EmergencyPauseAllocationEvent {
                    total_amount,
                    num_parties,
                    allocations: allocations.clone(),
                },
            ),
        );
        Ok(allocations)
    }

    /// What [`MilestoneEscrow::multisig_transfer_admin`] comes to, where `list`
    /// is the list that it makes.
    pub open spec fn multisig_transfer_admin_outcome(
        l: LedgerView,
        admin: Address,
        total_amount: i128,
        ratios: Seq<i128>,
        list: soroban_sdk::Vec<i128>,
    ) -> Outcome<soroban_sdk::Vec<i128>> {
        let signed = seq![admin];
        if let Some(error) = LedgerView::admin_error(l.persistent.admin, admin) {
            Outcome::refuse(signed, error)
        } else if let Some(error) = Self::allocation_error(
            total_amount,
            ratios,
            Error::InvalidRatio,
            Error::InvalidAmount,
            Error::InvalidRatio,
        ) {
            Outcome::refuse(signed, error)
        } else {
            Outcome::announce(
                signed,
                Ok(list),
                l,
                |list: soroban_sdk::Vec<i128>|
                    Event::MultiSigTransferAdmin(
                        MultiSigTransferAdminEvent {
                            total_amount,
                            num_parties: ratios.len() as u32,
                            allocations: list,
                        },
                    ),
            )
        }
    }

    /// Whether [`MilestoneEscrow::multisig_transfer_admin`] meets no ratio that
    /// cannot be read.
    pub fn multisig_transfer_admin_can_run(
        host: &Host,
        admin: Address,
        total_amount: i128,
        ratios: &soroban_sdk::Vec<i128>,
    ) -> (r: bool)
        ensures
            r == (LedgerView::admin_error(host@.ledger.persistent.admin, admin) is None
                ==> Self::weights_suffice(total_amount, *ratios)),
    {
        match host.ledger.persistent.admin {
            Some(stored) => stored != admin || Self::do_weights_suffice(total_amount, ratios),
            None => true,
        }
    }

    /// Shares an amount out by ratios for the admin, by largest remainders.
    ///
    /// It must not meet a ratio that cannot be read, as
    /// [`MilestoneEscrow::multisig_transfer_admin_can_run`] says.
    pub fn multisig_transfer_admin(
        host: &mut Host,
        env: &soroban_sdk::Env,
        admin: Address,
        total_amount: i128,
        ratios: soroban_sdk::Vec<i128>,
    ) -> (r: Result<soroban_sdk::Vec<i128>, Error>)
        requires
            LedgerView::admin_error(old(host)@.ledger.persistent.admin, admin) is None
                ==> Self::weights_suffice(total_amount, ratios),
        ensures
            old(host)@.comes_to(
                final(host)@,
                r,
                Self::multisig_transfer_admin_outcome(
                    old(host)@.ledger,
                    admin,
                    total_amount,
                    crate::amounts::amounts(ratios),
                    r->Ok_0,
                ),
            ),
            r matches Ok(list) ==> {
                &&& crate::amounts::readable(list)
                &&& crate::amounts::amounts(list) == Self::shares_by_weight(
                    total_amount,
                    crate::amounts::amounts(ratios),
                )
                &&& LargestRemainder::sum(crate::amounts::amounts(list)) == total_amount
            },
    {
        Self::require_admin(host, admin)?;
        if total_amount <= 0 {
            return Err(Error::InvalidAmount);
        }
        let num_parties: u32 = crate::amounts::list_len(&ratios);
        if num_parties == 0 {
            return Err(Error::InvalidRatio);
        }
        if num_parties > MAX_MULTISIG_RATIO_COUNT {
            return Err(Error::InvalidAmount);
        }
        let (read, sum) = match Self::read_weights(&ratios) {
            Some(read) => read,
            None => {
                return Err(Error::InvalidRatio);
            },
        };
        let allocations = match Self::share_out(env, total_amount, &read, sum) {
            Some(list) => list,
            None => {
                return Err(Error::InvalidAmount);
            },
        };
        host.publish(
            Event::MultiSigTransferAdmin(
                MultiSigTransferAdminEvent {
                    total_amount,
                    num_parties,
                    allocations: allocations.clone(),
                },
            ),
        );
        Ok(allocations)
    }
}

} // verus!
