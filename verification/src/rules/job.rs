//! Setting a job up, funding it, delivering and paying its milestones.

use vstd::prelude::*;

use crate::arith::MilestoneEscrow;
use crate::events::{
    ApprovedEvent, ClaimedEvent, DeadlineExtendedEvent, DeliveredEvent, Event, FundedEvent,
    InitializedEvent,
};
use crate::host::{Action, Context, InstanceView, LedgerView, PersistentView, TemporaryView};
use crate::types::{Address, Error, JobMeta, Milestone, MilestoneStatus, PlatformFeeAllocation};

verus! {

/// A job is set up once, for five fit addresses, of at least one milestone, all
/// of positive amounts that can be added, with time for the client to object.
/// It stores the terms and a fresh milestone for each amount, makes the token
/// the whitelist, gives all fees to the freelancer, and moves nothing.
pub proof fn initialize_sets_a_job_up(
    l: LedgerView,
    c: Context,
    admin: Address,
    meta: JobMeta,
    list: soroban_sdk::Vec<i128>,
    sum: int,
)
    requires
        sum == crate::shares::LargestRemainder::sum(crate::amounts::amounts(list)),
    ensures
        ({
            let amounts = crate::amounts::amounts(list);
            let outcome = MilestoneEscrow::initialize_outcome(l, c, admin, meta, list);
            let unfit = |a: Address| super::nobody(a) || a == c.contract;
            &&& super::heard(
                outcome,
                None,
                seq![admin],
                if l.instance.job is Some {
                    Some(Error::AlreadyInitialized)
                } else if unfit(admin) || unfit(meta.client) || unfit(meta.freelancer) || unfit(
                    meta.arbiter,
                ) || unfit(meta.token) {
                    Some(Error::InvalidAddress)
                } else if amounts.len() == 0 || sum > i128::MAX || meta.auto_release_seconds == 0
                    || exists|i: int| 0 <= i < amounts.len() && #[trigger] amounts[i] <= 0 {
                    Some(Error::InvalidAmount)
                } else {
                    None
                },
            )
            &&& outcome.result matches Ok(step) ==> {
                let stored = step.ledger.persistent.milestones;
                &&& forall|i: u32|
                    i < amounts.len() ==> (#[trigger] stored[i]) == (Milestone {
                        amount: amounts[i as int],
                        released_amount: 0,
                        status: MilestoneStatus::Pending,
                        delivered_at: 0,
                    })
                &&& forall|i: u32| #[trigger]
                    stored.contains_key(i) <==> i < amounts.len()
                        || l.persistent.milestones.contains_key(i)
                &&& forall|i: u32|
                    i >= amounts.len() && l.persistent.milestones.contains_key(i)
                        ==> #[trigger] stored[i] == l.persistent.milestones[i]
                &&& step.ledger =~= LedgerView {
                    instance: InstanceView {
                        job: Some(meta),
                        admin: Some(admin),
                        version: Some(1),
                        whitelisted_tokens: step.ledger.instance.whitelisted_tokens,
                        emergency_paused: Some(false),
                        platform_fee_allocation: Some(
                            PlatformFeeAllocation {
                                client_bps: 0,
                                freelancer_bps: 10_000,
                                treasury_bps: 0,
                                locked: false,
                            },
                        ),
                        ..l.instance
                    },
                    persistent: PersistentView {
                        admin: Some(admin),
                        milestones: stored,
                        ..l.persistent
                    },
                    ..l
                }
                &&& step.ledger.instance.whitelisted_tokens is Some
                &&& step.ledger.instance.whitelisted_tokens->0 =~= seq![meta.token]
                &&& step.actions =~= Seq::<Action>::empty()
                &&& step.events =~= seq![
                    Event::Initialized(
                        InitializedEvent {
                            client: meta.client,
                            freelancer: meta.freelancer,
                            arbiter: meta.arbiter,
                            token: meta.token,
                            auto_release_seconds: meta.auto_release_seconds,
                            milestone_amounts: list,
                            total_amount: meta.total_amount,
                            milestone_count: meta.milestone_count,
                        },
                    ),
                ]
            }
        }),
{
    let amounts = crate::amounts::amounts(list);
    if !MilestoneEscrow::valid_amounts(amounts) && amounts.len() > 0 && sum <= i128::MAX {
        let i = choose|i: int| 0 <= i < amounts.len() && !(#[trigger] amounts[i] > 0);
        assert(amounts[i] <= 0);
    }
}

/// What the first `n` milestones are worth together.
pub open spec fn worth(milestones: Map<u32, Milestone>, n: nat) -> int
    decreases n,
{
    if n == 0 {
        0
    } else {
        worth(milestones, (n - 1) as nat) + milestones[(n - 1) as u32].amount
    }
}

/// Whether the first `n` milestones are stored, with positive amounts.
pub open spec fn priced(milestones: Map<u32, Milestone>, n: nat) -> bool {
    forall|i: u32|
        i < n ==> milestones.contains_key(i) && (#[trigger] milestones[i]).amount > 0
}

proof fn lemma_worth(milestones: Map<u32, Milestone>, n: nat)
    requires
        n <= u32::MAX,
    ensures
        priced(milestones, n) ==> worth(milestones, n) >= 0,
        MilestoneEscrow::running_total(milestones, n) is Ok <==> priced(milestones, n) && worth(
            milestones,
            n,
        ) <= i128::MAX,
        MilestoneEscrow::running_total(milestones, n) is Ok
            ==> MilestoneEscrow::running_total(milestones, n)->Ok_0 == worth(milestones, n),
    decreases n,
{
    if n > 0 {
        lemma_worth(milestones, (n - 1) as nat);
        let i = (n - 1) as u32;
        let m = (n - 1) as nat;
        if priced(milestones, n) {
            assert(milestones[i].amount > 0);
            assert forall|j: u32| j < m implies milestones.contains_key(j)
                && (#[trigger] milestones[j]).amount > 0 by {}
            assert(priced(milestones, m));
        }
        if priced(milestones, m) && milestones.contains_key(i) && milestones[i].amount > 0 {
            assert forall|j: u32| j < n implies milestones.contains_key(j)
                && (#[trigger] milestones[j]).amount > 0 by {
                assert(j < m || j == i);
            }
            assert(priced(milestones, n));
        }
    }
}

/// Funding takes the client, a token on the whitelist, and milestones that are
/// all stored and make up the recorded total. It moves that total from the
/// client to the contract, and changes nothing but that the job is funded.
pub proof fn fund_deposits_the_total_once(l: LedgerView, c: Context, client: Address)
    ensures
        ({
            let outcome = MilestoneEscrow::fund_outcome(l, c, client);
            let meta = l.instance.job->0;
            let n = meta.milestone_count as nat;
            let ms = l.persistent.milestones;
            let whole = priced(ms, n) && worth(ms, n) == meta.total_amount && meta.total_amount > 0;
            &&& super::heard(
                outcome,
                if super::shut(l) is Some {
                    super::shut(l)
                } else if super::nobody(client) || client == c.contract {
                    Some(Error::InvalidAddress)
                } else {
                    None
                },
                seq![client],
                if l.instance.job is None {
                    Some(Error::NotInitialized)
                } else if meta.funded {
                    Some(Error::AlreadyFunded)
                } else if meta.client != client {
                    Some(Error::Unauthorized)
                } else if l.instance.whitelisted_tokens is None
                    || !l.instance.whitelisted_tokens->0.contains(meta.token) {
                    Some(Error::TokenNotWhitelisted)
                } else if whole {
                    None
                } else if forall|i: u32| i < n ==> #[trigger] ms.contains_key(i) {
                    Some(Error::InvalidAmount)
                } else {
                    // The first milestone that is missing or unfit decides.
                    Some(outcome.result->Err_0)
                },
            )
            &&& outcome.result matches Ok(step) ==> {
                &&& step.ledger =~= LedgerView {
                    instance: InstanceView {
                        job: Some(JobMeta { funded: true, ..meta }),
                        ..l.instance
                    },
                    ..l
                }
                &&& step.actions =~= seq![
                    Action::Transfer {
                        token: meta.token,
                        from: client,
                        to: c.contract,
                        amount: meta.total_amount,
                    },
                ]
                &&& step.events =~= seq![
                    Event::Funded(
                        FundedEvent {
                            contract_id: c.contract,
                            client,
                            freelancer: meta.freelancer,
                            arbiter: meta.arbiter,
                            token: meta.token,
                            total_amount: meta.total_amount,
                            milestone_count: meta.milestone_count,
                            auto_release_seconds: meta.auto_release_seconds,
                            funded: true,
                        },
                    ),
                ]
            }
        }),
{
    if l.instance.job is Some {
        let n = (l.instance.job->0).milestone_count as nat;
        lemma_worth(l.persistent.milestones, n);
        if forall|i: u32| i < n ==> #[trigger] l.persistent.milestones.contains_key(i) {
            lemma_fails_by_amount(l.persistent.milestones, n);
        }
    }
}

proof fn lemma_fails_by_amount(milestones: Map<u32, Milestone>, n: nat)
    requires
        n <= u32::MAX,
        forall|i: u32| i < n ==> #[trigger] milestones.contains_key(i),
    ensures
        MilestoneEscrow::running_total(milestones, n) is Err
            ==> MilestoneEscrow::running_total(milestones, n)->Err_0 == Error::InvalidAmount,
    decreases n,
{
    if n > 0 {
        lemma_fails_by_amount(milestones, (n - 1) as nat);
        assert(milestones.contains_key((n - 1) as u32));
    }
}

/// The freelancer of a funded job delivers a pending milestone; that the time
/// is noted twice, and the status, are all that changes.
pub proof fn deliveries_are_timed(l: LedgerView, c: Context, freelancer: Address, index: u32)
    ensures
        ({
            let outcome = MilestoneEscrow::mark_delivered_outcome(l, c, freelancer, index);
            let meta = l.instance.job->0;
            let m = l.persistent.milestones[index];
            &&& super::heard(
                outcome,
                if super::shut(l) is Some {
                    super::shut(l)
                } else if super::nobody(freelancer) {
                    Some(Error::InvalidAddress)
                } else {
                    None
                },
                seq![freelancer],
                if l.instance.job is None {
                    Some(Error::NotInitialized)
                } else if meta.freelancer != freelancer {
                    Some(Error::Unauthorized)
                } else if !meta.funded {
                    Some(Error::NotFunded)
                } else if index >= meta.milestone_count
                    || !l.persistent.milestones.contains_key(index) {
                    Some(Error::InvalidMilestone)
                } else if m.amount <= 0 {
                    Some(Error::InvalidAmount)
                } else if m.status != MilestoneStatus::Pending {
                    Some(Error::InvalidStatus)
                } else {
                    None
                },
            )
            &&& outcome.result matches Ok(step) ==> {
                &&& step.ledger =~= LedgerView {
                    persistent: PersistentView {
                        milestones: l.persistent.milestones.insert(
                            index,
                            Milestone {
                                amount: m.amount,
                                released_amount: m.released_amount,
                                status: MilestoneStatus::Delivered,
                                delivered_at: c.timestamp,
                            },
                        ),
                        ..l.persistent
                    },
                    temporary: TemporaryView {
                        delivered_at: l.temporary.delivered_at.insert(index, c.timestamp),
                        ..l.temporary
                    },
                    ..l
                }
                &&& step.actions =~= Seq::<Action>::empty()
                &&& step.events =~= seq![
                    Event::Delivered(
                        DeliveredEvent {
                            contract_id: c.contract,
                            milestone_index: index,
                            freelancer,
                            client: meta.client,
                            delivered_at: c.timestamp,
                            status: MilestoneStatus::Delivered,
                            amount: m.amount,
                        },
                    ),
                ]
            }
        }),
{
}

/// By how many seconds a milestone was put off, by what is stored of it: a note
/// that may expire counts before one that does not.
pub open spec fn put_off(l: LedgerView, index: u32) -> int {
    if l.temporary.time_ext.contains_key(index) {
        l.temporary.time_ext[index] as int
    } else {
        super::number(l.persistent.time_ext, index)
    }
}

/// When a milestone was delivered, by what is stored of it.
pub open spec fn delivered(l: LedgerView, index: u32) -> int {
    if l.temporary.delivered_at.contains_key(index) {
        l.temporary.delivered_at[index] as int
    } else {
        l.persistent.milestones[index].delivered_at as int
    }
}

/// The client puts a delivered milestone off by some seconds, which add to those
/// before; nothing else changes.
pub proof fn extensions_add_up(
    l: LedgerView,
    c: Context,
    client: Address,
    index: u32,
    extra_seconds: u32,
)
    ensures
        ({
            let outcome = MilestoneEscrow::extend_milestone_deadline_outcome(
                l,
                c,
                client,
                index,
                extra_seconds,
            );
            let meta = l.instance.job->0;
            let m = l.persistent.milestones[index];
            &&& super::heard(
                outcome,
                if l.instance.paused == Some(true) {
                    Some(Error::Paused)
                } else {
                    super::amid(l)
                },
                seq![client],
                if l.instance.job is None {
                    Some(Error::NotInitialized)
                } else if meta.client != client {
                    Some(Error::Unauthorized)
                } else if index >= meta.milestone_count
                    || !l.persistent.milestones.contains_key(index) {
                    Some(Error::InvalidMilestone)
                } else if m.status != MilestoneStatus::Delivered && m.status
                    != MilestoneStatus::PartiallyReleased {
                    Some(Error::InvalidStatus)
                } else if extra_seconds == 0 || put_off(l, index) + extra_seconds > u32::MAX {
                    Some(Error::InvalidExtension)
                } else {
                    None
                },
            )
            &&& outcome.result matches Ok(step) ==> {
                &&& put_off(step.ledger, index) == put_off(l, index) + extra_seconds
                &&& step.ledger =~= LedgerView {
                    temporary: TemporaryView {
                        time_ext: l.temporary.time_ext.insert(
                            index,
                            step.ledger.temporary.time_ext[index],
                        ),
                        ..l.temporary
                    },
                    ..l
                }
                &&& step.actions =~= Seq::<Action>::empty()
                &&& step.events =~= seq![
                    Event::DeadlineExtended(
                        DeadlineExtendedEvent {
                            contract_id: c.contract,
                            milestone_index: index,
                            client,
                            extra_seconds,
                            new_extension: step.ledger.temporary.time_ext[index],
                        },
                    ),
                ]
            }
        }),
{
}

/// The freelancer claims a delivered milestone once the agreed time since its
/// delivery has passed, and all the time it was put off by. What was not paid of
/// it yet is paid, and both parties earn a point.
pub proof fn claims_wait_for_the_agreed_time(
    l: LedgerView,
    c: Context,
    freelancer: Address,
    index: u32,
)
    ensures
        ({
            let outcome = MilestoneEscrow::claim_auto_release_outcome(l, c, freelancer, index);
            let meta = l.instance.job->0;
            let m = l.persistent.milestones[index];
            let opens = delivered(l, index) + meta.auto_release_seconds + put_off(l, index);
            let unpaid = m.amount - m.released_amount;
            &&& super::heard(
                outcome,
                if super::shut(l) is Some {
                    super::shut(l)
                } else if super::nobody(freelancer) {
                    Some(Error::InvalidAddress)
                } else {
                    None
                },
                seq![freelancer],
                if l.instance.job is None {
                    Some(Error::NotInitialized)
                } else if meta.freelancer != freelancer {
                    Some(Error::Unauthorized)
                } else if index >= meta.milestone_count
                    || !l.persistent.milestones.contains_key(index) {
                    Some(Error::InvalidMilestone)
                } else if m.status != MilestoneStatus::Delivered {
                    Some(Error::InvalidStatus)
                } else if meta.auto_release_seconds == 0 || opens > u64::MAX {
                    Some(Error::InvalidAmount)
                } else if c.timestamp < opens {
                    Some(Error::DeadlineNotPassed)
                } else if unpaid <= 0 || unpaid > i128::MAX {
                    Some(Error::InvalidAmount)
                } else {
                    None
                },
            )
            &&& outcome.result matches Ok(step) ==> {
                let after = step.ledger.persistent;
                &&& super::moved(
                    l.persistent.milestones,
                    after.milestones,
                    index,
                    MilestoneStatus::Released,
                    m.amount as int,
                )
                &&& super::room_for(l.persistent.reputation, meta.client, meta.freelancer)
                    ==> super::each_earned(
                    l.persistent.reputation,
                    after.reputation,
                    meta.client,
                    meta.freelancer,
                )
                &&& step.ledger =~= LedgerView {
                    persistent: PersistentView {
                        milestones: after.milestones,
                        reputation: after.reputation,
                        ..l.persistent
                    },
                    ..l
                }
                &&& step.actions =~= seq![
                    Action::Transfer {
                        token: meta.token,
                        from: c.contract,
                        to: freelancer,
                        amount: unpaid as i128,
                    },
                ]
                &&& step.events =~= seq![
                    Event::Claimed(
                        ClaimedEvent {
                            contract_id: c.contract,
                            milestone_index: index,
                            freelancer,
                            token: meta.token,
                            amount: unpaid as i128,
                        },
                    ),
                ]
            }
        }),
{
}

/// Putting a milestone off by some seconds makes the first time at which it can
/// be claimed later by exactly as many: what could be claimed at a time can then
/// be claimed that many seconds after it, and at no time before what was too
/// early that many seconds before.
pub proof fn an_extension_delays_the_claim_by_as_much(
    l: LedgerView,
    c: Context,
    now: u64,
    client: Address,
    freelancer: Address,
    index: u32,
    extra_seconds: u32,
)
    requires
        MilestoneEscrow::extend_milestone_deadline_outcome(
            l,
            c,
            client,
            index,
            extra_seconds,
        ).result is Ok,
        now + extra_seconds <= u64::MAX,
        delivered(l, index) + (l.instance.job->0).auto_release_seconds + put_off(l, index)
            + extra_seconds <= u64::MAX,
    ensures
        ({
            let then = MilestoneEscrow::extend_milestone_deadline_outcome(
                l,
                c,
                client,
                index,
                extra_seconds,
            ).result->Ok_0.ledger;
            let before = MilestoneEscrow::claim_auto_release_outcome(
                l,
                Context { timestamp: now, ..c },
                freelancer,
                index,
            );
            let after = MilestoneEscrow::claim_auto_release_outcome(
                then,
                Context { timestamp: (now + extra_seconds) as u64, ..c },
                freelancer,
                index,
            );
            &&& before.result is Ok <==> after.result is Ok
            &&& before.result is Err ==> after.result is Err && after.result->Err_0
                == before.result->Err_0
        }),
{
}

/// The ledger once a milestone was put off again and again, if every time was
/// accepted.
pub open spec fn put_off_by_all(
    l: LedgerView,
    c: Context,
    client: Address,
    index: u32,
    seconds: Seq<u32>,
) -> Option<LedgerView>
    decreases seconds.len(),
{
    if seconds.len() == 0 {
        Some(l)
    } else {
        match put_off_by_all(l, c, client, index, seconds.drop_last()) {
            None => None,
            Some(before) => match MilestoneEscrow::extend_milestone_deadline_outcome(
                before,
                c,
                client,
                index,
                seconds.last(),
            ).result {
                Ok(step) => Some(step.ledger),
                Err(_) => None,
            },
        }
    }
}

pub open spec fn total_seconds(seconds: Seq<u32>) -> int
    decreases seconds.len(),
{
    if seconds.len() == 0 {
        0
    } else {
        total_seconds(seconds.drop_last()) + seconds.last()
    }
}

proof fn lemma_put_off_by_all(
    l: LedgerView,
    c: Context,
    client: Address,
    index: u32,
    seconds: Seq<u32>,
)
    requires
        put_off_by_all(l, c, client, index, seconds) is Some,
    ensures
        ({
            let after = put_off_by_all(l, c, client, index, seconds)->0;
            &&& put_off(after, index) == put_off(l, index) + total_seconds(seconds)
            &&& after.instance == l.instance
            &&& after.persistent == l.persistent
            &&& after.temporary.delivered_at == l.temporary.delivered_at
        }),
    decreases seconds.len(),
{
    if seconds.len() > 0 {
        lemma_put_off_by_all(l, c, client, index, seconds.drop_last());
        extensions_add_up(
            put_off_by_all(l, c, client, index, seconds.drop_last())->0,
            c,
            client,
            index,
            seconds.last(),
        );
    }
}

/// A milestone that was delivered at a time and put off any number of times
/// since cannot be claimed before the agreed time and all the extensions have
/// passed since that time; and the freelancer who claims too early is told so.
pub proof fn a_claim_waits_for_all_extensions(
    l: LedgerView,
    c: Context,
    now: u64,
    client: Address,
    freelancer: Address,
    index: u32,
    seconds: Seq<u32>,
)
    requires
        put_off(l, index) == 0,
        MilestoneEscrow::mark_delivered_outcome(l, c, freelancer, index).result is Ok,
        put_off_by_all(
            MilestoneEscrow::mark_delivered_outcome(l, c, freelancer, index).result->Ok_0.ledger,
            c,
            client,
            index,
            seconds,
        ) is Some,
        (l.instance.job->0).auto_release_seconds > 0,
        c.timestamp + (l.instance.job->0).auto_release_seconds + total_seconds(seconds)
            <= u64::MAX,
    ensures
        ({
            let delivered = MilestoneEscrow::mark_delivered_outcome(
                l,
                c,
                freelancer,
                index,
            ).result->Ok_0.ledger;
            let then = put_off_by_all(delivered, c, client, index, seconds)->0;
            let claim = MilestoneEscrow::claim_auto_release_outcome(
                then,
                Context { timestamp: now, ..c },
                freelancer,
                index,
            );
            let opens = c.timestamp + (l.instance.job->0).auto_release_seconds + total_seconds(
                seconds,
            );
            &&& now < opens ==> claim.result is Err && claim.result->Err_0
                == Error::DeadlineNotPassed
            &&& now >= opens && 0 < l.persistent.milestones[index].amount
                - l.persistent.milestones[index].released_amount <= i128::MAX ==> claim.result is Ok
        }),
{
    let delivered = MilestoneEscrow::mark_delivered_outcome(l, c, freelancer, index).result->Ok_0;
    deliveries_are_timed(l, c, freelancer, index);
    assert(put_off(delivered.ledger, index) == 0);
    lemma_put_off_by_all(delivered.ledger, c, client, index, seconds);
    let then = put_off_by_all(delivered.ledger, c, client, index, seconds)->0;
    claims_wait_for_the_agreed_time(then, Context { timestamp: now, ..c }, freelancer, index);
}

/// The client pays a part of a delivered milestone, no more than is left of it.
/// Exactly that part is paid. The milestone is released once all of it is paid,
/// for which both parties earn a point, and partially released until then.
pub proof fn instalments_are_paid_until_nothing_is_left(
    l: LedgerView,
    c: Context,
    client: Address,
    index: u32,
    amount: i128,
)
    ensures
        ({
            let outcome = MilestoneEscrow::approve_partial_outcome(l, c, client, index, amount);
            let meta = l.instance.job->0;
            let m = l.persistent.milestones[index];
            let unpaid = m.amount - m.released_amount;
            &&& super::heard(
                outcome,
                if super::shut(l) is Some {
                    super::shut(l)
                } else if super::nobody(client) || client == c.contract {
                    Some(Error::InvalidAddress)
                } else {
                    None
                },
                seq![client],
                if l.instance.job is None {
                    Some(Error::NotInitialized)
                } else if meta.client != client {
                    Some(Error::Unauthorized)
                } else if !meta.funded {
                    Some(Error::NotFunded)
                } else if index >= meta.milestone_count
                    || !l.persistent.milestones.contains_key(index) {
                    Some(Error::InvalidMilestone)
                } else if m.status != MilestoneStatus::Delivered && m.status
                    != MilestoneStatus::PartiallyReleased {
                    Some(Error::InvalidStatus)
                } else if amount <= 0 || amount > unpaid || unpaid > i128::MAX {
                    Some(Error::InvalidAmount)
                } else {
                    None
                },
            )
            &&& outcome.result matches Ok(step) ==> {
                let after = step.ledger.persistent;
                let whole = m.released_amount + amount == m.amount;
                let now = after.milestones[index];
                &&& super::moved(
                    l.persistent.milestones,
                    after.milestones,
                    index,
                    if whole {
                        MilestoneStatus::Released
                    } else {
                        MilestoneStatus::PartiallyReleased
                    },
                    m.released_amount + amount,
                )
                &&& now.status is Released <==> now.released_amount == now.amount
                &&& !whole ==> after.reputation == l.persistent.reputation
                &&& whole && super::room_for(
                    l.persistent.reputation,
                    meta.client,
                    meta.freelancer,
                ) ==> super::each_earned(
                    l.persistent.reputation,
                    after.reputation,
                    meta.client,
                    meta.freelancer,
                )
                &&& step.ledger =~= LedgerView {
                    persistent: PersistentView {
                        milestones: after.milestones,
                        reputation: after.reputation,
                        ..l.persistent
                    },
                    temporary: if whole {
                        TemporaryView {
                            milestone_released: l.temporary.milestone_released.insert(index, true),
                            ..l.temporary
                        }
                    } else {
                        l.temporary
                    },
                    ..l
                }
                &&& step.actions =~= seq![
                    Action::Transfer {
                        token: meta.token,
                        from: c.contract,
                        to: meta.freelancer,
                        amount,
                    },
                ]
                &&& step.events =~= seq![
                    Event::Approved(
                        ApprovedEvent {
                            contract_id: c.contract,
                            milestone_index: index,
                            client,
                            freelancer: meta.freelancer,
                            arbiter: meta.arbiter,
                            token: meta.token,
                            amount: m.amount,
                            released_amount: now.released_amount,
                            remaining: (unpaid - amount) as i128,
                            status: now.status,
                            milestone_count: meta.milestone_count,
                            total_amount: meta.total_amount,
                            auto_release_seconds: meta.auto_release_seconds,
                        },
                    ),
                ]
            }
        }),
{
}

/// Paying two parts of a milestone one after the other comes to paying both at
/// once.
pub proof fn two_instalments_make_one(
    l: LedgerView,
    c: Context,
    client: Address,
    index: u32,
    a: i128,
    b: i128,
)
    requires
        a > 0,
        b > 0,
        a + b <= i128::MAX,
        MilestoneEscrow::approve_partial_outcome(
            l,
            c,
            client,
            index,
            (a + b) as i128,
        ).result is Ok,
        (l.persistent.milestones[index]).released_amount >= 0,
    ensures
        ({
            let at_once = MilestoneEscrow::approve_partial_outcome(
                l,
                c,
                client,
                index,
                (a + b) as i128,
            ).result->Ok_0;
            let first = MilestoneEscrow::approve_partial_outcome(l, c, client, index, a);
            let second = MilestoneEscrow::approve_partial_outcome(
                first.result->Ok_0.ledger,
                c,
                client,
                index,
                b,
            );
            &&& first.result is Ok
            &&& second.result is Ok
            &&& second.result->Ok_0.ledger == at_once.ledger
        }),
{
    let first = MilestoneEscrow::approve_partial_outcome(l, c, client, index, a).result->Ok_0;
    let second = MilestoneEscrow::approve_partial_outcome(
        first.ledger,
        c,
        client,
        index,
        b,
    ).result->Ok_0;
    let at_once = MilestoneEscrow::approve_partial_outcome(
        l,
        c,
        client,
        index,
        (a + b) as i128,
    ).result->Ok_0;
    assert(second.ledger.persistent.milestones =~= at_once.ledger.persistent.milestones);
    assert(second.ledger =~= at_once.ledger);
}

/// The client approves a delivered milestone: all that was not paid of it yet is
/// paid, it is released, and both parties earn a point.
pub proof fn approving_pays_what_is_left(l: LedgerView, c: Context, client: Address, index: u32)
    ensures
        ({
            let outcome = MilestoneEscrow::approve_milestone_outcome(l, c, client, index);
            let meta = l.instance.job->0;
            let m = l.persistent.milestones[index];
            let unpaid = m.amount - m.released_amount;
            &&& super::heard(
                outcome,
                if super::shut(l) is Some {
                    super::shut(l)
                } else if super::nobody(client) {
                    Some(Error::InvalidAddress)
                } else {
                    None
                },
                seq![client],
                if l.instance.job is None {
                    Some(Error::NotInitialized)
                } else if meta.client != client {
                    Some(Error::Unauthorized)
                } else if !meta.funded {
                    Some(Error::NotFunded)
                } else if index >= meta.milestone_count
                    || !l.persistent.milestones.contains_key(index) {
                    Some(Error::InvalidMilestone)
                } else if m.status != MilestoneStatus::Delivered {
                    Some(Error::InvalidStatus)
                } else if unpaid <= 0 || unpaid > i128::MAX {
                    Some(Error::InvalidAmount)
                } else {
                    None
                },
            )
            &&& outcome.result matches Ok(step) ==> {
                let after = step.ledger.persistent;
                &&& super::moved(
                    l.persistent.milestones,
                    after.milestones,
                    index,
                    MilestoneStatus::Released,
                    m.amount as int,
                )
                &&& super::room_for(l.persistent.reputation, meta.client, meta.freelancer)
                    ==> super::each_earned(
                    l.persistent.reputation,
                    after.reputation,
                    meta.client,
                    meta.freelancer,
                )
                &&& step.ledger =~= LedgerView {
                    persistent: PersistentView {
                        milestones: after.milestones,
                        reputation: after.reputation,
                        ..l.persistent
                    },
                    temporary: TemporaryView {
                        milestone_released: l.temporary.milestone_released.insert(index, true),
                        ..l.temporary
                    },
                    ..l
                }
                &&& step.actions =~= seq![
                    Action::Transfer {
                        token: meta.token,
                        from: c.contract,
                        to: meta.freelancer,
                        amount: unpaid as i128,
                    },
                ]
                &&& step.events =~= seq![
                    Event::Approved(
                        ApprovedEvent {
                            contract_id: c.contract,
                            milestone_index: index,
                            client,
                            freelancer: meta.freelancer,
                            arbiter: meta.arbiter,
                            token: meta.token,
                            amount: m.amount,
                            released_amount: m.amount,
                            remaining: 0,
                            status: MilestoneStatus::Released,
                            milestone_count: meta.milestone_count,
                            total_amount: meta.total_amount,
                            auto_release_seconds: meta.auto_release_seconds,
                        },
                    ),
                ]
            }
        }),
{
}

} // verus!
