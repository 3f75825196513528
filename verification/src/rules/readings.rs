//! What is read off a ledger.

use vstd::prelude::*;

use crate::amounts;
use crate::arith::MilestoneEscrow;
use crate::host::{Context, HostView, LedgerView};
use crate::outcome::Outcome;
use crate::shares::LargestRemainder;
use crate::types::{Address, Error, JobMeta, Milestone, MilestoneStatus};

verus! {

/// A milestone may be claimed once the agreed time, and all that it was put off
/// by, have passed since it was delivered: in full, however much that is.
pub proof fn a_deadline_is_the_sum_of_its_parts(
    l: LedgerView,
    meta: JobMeta,
    index: u32,
    m: Milestone,
)
    ensures
        ({
            let since = if l.temporary.delivered_at.contains_key(index) {
                l.temporary.delivered_at[index]
            } else {
                m.delivered_at
            };
            let put_off = if l.temporary.time_ext.contains_key(index) {
                l.temporary.time_ext[index]
            } else if l.persistent.time_ext.contains_key(index) {
                l.persistent.time_ext[index]
            } else {
                0
            };
            l.deadline(meta, index, m) == since + meta.auto_release_seconds + put_off
        }),
{
}

/// A stored milestone is found under its number.
pub proof fn a_milestone_is_found(l: LedgerView, index: u32)
    ensures
        l.milestone(index) is Some <==> l.persistent.milestones.contains_key(index),
        l.milestone(index) is Some ==> l.milestone(index)->0 == l.persistent.milestones[index],
{
}

/// The reputation of an address is its points; one that has none counts as zero.
pub proof fn a_reputation_is_points(l: LedgerView, address: Address)
    ensures
        l.reputation(address) == super::number(l.persistent.reputation, address),
{
}

/// Both parties can get a point just where their counters have room for it.
pub proof fn points_need_room(l: LedgerView, meta: JobMeta)
    ensures
        l.credits_fit(meta) <==> super::room_for(
            l.persistent.reputation,
            meta.client,
            meta.freelancer,
        ),
{
}

/// The version is the stored one, and one where none is stored.
pub proof fn a_version_starts_at_one(l: LedgerView)
    ensures
        l.instance.version is Some ==> MilestoneEscrow::version_of(l) == l.instance.version->0,
        l.instance.version is None ==> MilestoneEscrow::version_of(l) == 1,
{
}

/// The rate and the total of the yield are the stored ones, and zero where none
/// is stored.
pub proof fn yield_starts_at_zero(l: LedgerView)
    ensures
        l.persistent.yield_config is Some ==> l.yield_rate()
            == l.persistent.yield_config->0.yield_rate,
        l.persistent.yield_config is None ==> l.yield_rate() == 0,
        l.persistent.yield_accrued is Some ==> l.yield_total() == l.persistent.yield_accrued->0,
        l.persistent.yield_accrued is None ==> l.yield_total() == 0,
{
}

/// A flag is set only where it was stored as set.
pub proof fn flags_start_clear(l: LedgerView)
    ensures
        l.admin_paused() <==> l.instance.paused == Some(true),
        l.frozen() <==> l.instance.emergency_paused == Some(true),
        l.cancelled() <==> l.instance.cancel_lock == Some(true),
        l.multisig_locked() <==> l.instance.multisig_locked == Some(true),
        l.freezing() <==> l.instance.emergency_pause_lock == Some(true),
        l.yield_locked() <==> l.instance.interest_yield_state is Some
            && l.instance.interest_yield_state->0.locked,
{
}

/// A token can be used just where it is on the list.
pub proof fn listed_tokens_can_be_used(l: LedgerView, token: Address)
    ensures
        MilestoneEscrow::whitelisted(l, token) <==> l.instance.whitelisted_tokens is Some
            && exists|i: int|
            0 <= i < l.instance.whitelisted_tokens->0.len()
                && #[trigger] l.instance.whitelisted_tokens->0[i] == token,
{
}

/// What is stored is found, and what is not stored is refused.
pub proof fn stored_things_are_found<T>(entry: Option<T>, error: Error)
    ensures
        entry is Some ==> MilestoneEscrow::found(entry, error) is Ok && MilestoneEscrow::found(
            entry,
            error,
        )->Ok_0 == entry->0,
        entry is None ==> MilestoneEscrow::found(entry, error) is Err && MilestoneEscrow::found(
            entry,
            error,
        )->Err_0 == error,
{
}

/// A milestone is pending, delivered or partly paid while it is open, and
/// released or refunded once it is settled; a disputed one is neither.
pub proof fn a_milestone_is_open_disputed_or_settled(status: MilestoneStatus)
    ensures
        status.spec_is_open() <==> status == MilestoneStatus::Pending || status
            == MilestoneStatus::Delivered || status == MilestoneStatus::PartiallyReleased,
        status.spec_is_terminal() <==> status == MilestoneStatus::Released || status
            == MilestoneStatus::Refunded,
        !status.spec_is_open() && !status.spec_is_terminal() <==> status
            == MilestoneStatus::Disputed,
{
}

/// What is not paid of a milestone is owed where it is something that can be
/// stored.
pub proof fn what_is_not_paid_is_owed(m: Milestone)
    ensures
        m.unpaid() == m.amount - m.released_amount,
        m.owes() <==> m.released_amount < m.amount && m.amount - m.released_amount <= i128::MAX,
{
}

/// Nobody can sign for an address that is all zero.
pub proof fn nobody_is_zero(address: Address)
    ensures
        address.spec_is_zero() <==> super::nobody(address),
{
}

/// Before anything is stored nothing is.
pub proof fn an_empty_ledger_holds_nothing()
    ensures
        ({
            let l = crate::host::empty_ledger();
            &&& l.instance.job is None && l.instance.admin is None && l.instance.version is None
            &&& l.instance.whitelisted_tokens is None && l.instance.emergency_paused is None
            &&& l.instance.platform_fee_allocation is None
            &&& l.instance.interest_yield_state is None && l.instance.paused is None
            &&& l.instance.multisig_locked is None && l.instance.cancel_lock is None
            &&& l.instance.cancel_approval is None && l.instance.multisig_signers is None
            &&& l.instance.multisig_threshold is None
            &&& l.persistent.admin is None && l.persistent.yield_config is None
            &&& l.persistent.yield_accrued is None && l.persistent.pending_admin_transfer is None
            &&& super::amid(l) is None && super::shut(l) is None
            &&& forall|i: u32|
                {
                    &&& !#[trigger] l.persistent.milestones.contains_key(i)
                    &&& !l.persistent.time_ext.contains_key(i)
                    &&& !l.persistent.tax_withholding.contains_key(i)
                    &&& !l.temporary.delivered_at.contains_key(i)
                    &&& !l.temporary.milestone_released.contains_key(i)
                    &&& !l.temporary.dispute_lock.contains_key(i)
                    &&& !l.temporary.dispute_flag.contains_key(i)
                    &&& !l.temporary.time_ext.contains_key(i)
                    &&& !l.temporary.arbitration_split_bps.contains_key(i)
                    &&& !l.temporary.multisig_approval.contains_key(i)
                }
            &&& forall|a: Address| !#[trigger] l.persistent.reputation.contains_key(a)
        }),
{
}

/// The amounts of a list are its items, in order.
pub proof fn amounts_are_the_items_in_order(v: soroban_sdk::Vec<i128>, i: int)
    requires
        0 <= i < amounts::items(v).len(),
        amounts::items(v)[i] is Some,
    ensures
        amounts::amounts(v).len() == amounts::items(v).len(),
        Some(amounts::amounts(v)[i]) == amounts::items(v)[i],
{
}

/// Whether reading a list gets stuck at an item: it is no amount, and all amounts
/// before it are at least so much and can be added.
pub open spec fn gets_stuck(v: soroban_sdk::Vec<i128>, least: int, i: int) -> bool {
    &&& 0 <= i < amounts::items(v).len()
    &&& amounts::items(v)[i] is None
    &&& forall|j: int|
        0 <= j < i ==> (#[trigger] amounts::items(v)[j]) is Some && amounts::items(v)[j]->0 >= least
    &&& LargestRemainder::sum(amounts::amounts(v).take(i)) <= i128::MAX
}

proof fn lemma_first_gap(v: soroban_sdk::Vec<i128>, n: int) -> (k: int)
    requires
        0 <= n <= amounts::items(v).len(),
        !amounts::readable_to(v, n),
    ensures
        0 <= k < n,
        amounts::items(v)[k] is None,
        amounts::readable_to(v, k),
    decreases n,
{
    if n > 0 && amounts::readable_to(v, n - 1) {
        n - 1
    } else {
        lemma_first_gap(v, n - 1)
    }
}

/// A list is legible just where reading it does not get stuck.
pub proof fn a_list_is_legible_unless_reading_gets_stuck(v: soroban_sdk::Vec<i128>, least: int)
    requires
        least >= 0,
    ensures
        amounts::legible(v, least) <==> !(exists|i: int| #[trigger] gets_stuck(v, least, i)),
        amounts::readable(v) <==> forall|i: int|
            0 <= i < amounts::items(v).len() ==> (#[trigger] amounts::items(v)[i]) is Some,
{
    let s = amounts::amounts(v);
    let n = amounts::items(v).len() as int;
    if amounts::legible(v, least) {
        let m = choose|m: int|
            {
                &&& 0 <= m <= n
                &&& #[trigger] amounts::readable_to(v, m)
                &&& m == n || !amounts::fit(s.take(m), least)
            };
        assert forall|i: int| !(#[trigger] gets_stuck(v, least, i)) by {
            if gets_stuck(v, least, i) {
                assert(m <= i) by {
                    if i < m {
                        assert(amounts::items(v)[i] is Some);
                    }
                }
                let read = s.take(i);
                assert forall|j: int| 0 <= j < read.len() implies (#[trigger] read[j]) >= least by {
                    assert(amounts::items(v)[j]->0 >= least);
                }
                assert(amounts::fit(read, least));
                assert(read.take(m) =~= s.take(m));
                amounts::lemma_unfit_from_the_start(read, m, least);
            }
        }
    } else {
        assert(!amounts::readable_to(v, n));
        let k = lemma_first_gap(v, n);
        let read = s.take(k);
        assert(amounts::fit(read, least));
        assert forall|j: int| 0 <= j < k implies (#[trigger] amounts::items(v)[j]) is Some
            && amounts::items(v)[j]->0 >= least by {
            assert(read[j] >= least);
        }
        assert(gets_stuck(v, least, k));
    }
}

/// Sharing an amount out reads the weights only where there is something to
/// share and a number of weights that is allowed; then they have to be legible.
pub proof fn weights_are_read_where_needed(total_amount: i128, v: soroban_sdk::Vec<i128>)
    ensures
        MilestoneEscrow::weights_suffice(total_amount, v) <==> total_amount <= 0
            || amounts::items(v).len() == 0 || amounts::items(v).len() > 255 || amounts::legible(
            v,
            0,
        ),
{
}

/// A job can be set up where there is none, for addresses that someone else than
/// the contract can sign for.
pub proof fn a_job_is_for_fit_addresses(
    l: LedgerView,
    c: Context,
    admin: Address,
    client: Address,
    freelancer: Address,
    arbiter: Address,
    token: Address,
)
    ensures
        MilestoneEscrow::open_to(l, c, admin, client, freelancer, arbiter, token) <==> {
            &&& l.instance.job is None
            &&& forall|a: Address|
                seq![admin, client, freelancer, arbiter, token].contains(a)
                    ==> !#[trigger] super::nobody(a) && a != c.contract
        },
{
    let all = seq![admin, client, freelancer, arbiter, token];
    assert(all[0] == admin && all[1] == client && all[2] == freelancer && all[3] == arbiter
        && all[4] == token);
    assert(all.contains(admin) && all.contains(client) && all.contains(freelancer)
        && all.contains(arbiter) && all.contains(token));
    assert(super::nobody(admin) == admin.spec_is_zero());
    assert(super::nobody(client) == client.spec_is_zero());
    assert(super::nobody(freelancer) == freelancer.spec_is_zero());
    assert(super::nobody(arbiter) == arbiter.spec_is_zero());
    assert(super::nobody(token) == token.spec_is_zero());
}

/// A refused call returns the error and leaves everything as it was, but for the
/// signatures that it asked for.
pub proof fn a_refused_call_changes_nothing<T>(
    before: HostView,
    after: HostView,
    result: Result<T, Error>,
    outcome: Outcome<T>,
)
    requires
        before.comes_to(after, result, outcome),
        outcome.result is Err,
    ensures
        result is Err && result->Err_0 == outcome.result->Err_0,
        after.ledger == before.ledger,
        after.actions == before.actions,
        after.events == before.events,
        after.auths == before.auths + outcome.auths,
        after.context == before.context,
{
}

/// An accepted call returns its value, stores what it stores, and adds what it
/// asks for and publishes to what was there.
pub proof fn an_accepted_call_does_what_it_says<T>(
    before: HostView,
    after: HostView,
    result: Result<T, Error>,
    outcome: Outcome<T>,
)
    requires
        before.comes_to(after, result, outcome),
        outcome.result is Ok,
    ensures
        result is Ok && result->Ok_0 == outcome.result->Ok_0.value,
        after.ledger == outcome.result->Ok_0.ledger,
        after.actions == before.actions + outcome.result->Ok_0.actions,
        after.events == before.events + outcome.result->Ok_0.events,
        after.auths == before.auths + outcome.auths,
        after.context == before.context,
{
}

} // verus!
