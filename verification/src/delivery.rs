//! Delivering milestones and paying for them.

use vstd::prelude::*;

use crate::arith::MilestoneEscrow;
use crate::events::{
    ApprovedEvent, ClaimedEvent, DeadlineExtendedEvent, DeliveredEvent, Event,
};
use crate::host::{Context, Host, LedgerView, TemporaryView};
use crate::outcome::Outcome;
use crate::types::{Address, Error, Job, JobMeta, Milestone, MilestoneStatus};

verus! {

impl MilestoneEscrow {
    pub open spec fn mark_delivered_outcome(
        l: LedgerView,
        c: Context,
        freelancer: Address,
        index: u32,
    ) -> Outcome<()> {
        let signed = seq![freelancer];
        if let Some(error) = l.closed_error() {
            Outcome::refuse(Seq::empty(), error)
        } else if freelancer.is_zero() {
            Outcome::refuse(Seq::empty(), Error::InvalidAddress)
        } else {
            match l.instance.job {
                None => Outcome::refuse(signed, Error::NotInitialized),
                Some(meta) => if meta.freelancer != freelancer {
                    Outcome::refuse(signed, Error::Unauthorized)
                } else if !meta.funded {
                    Outcome::refuse(signed, Error::NotFunded)
                } else {
                    match l.job_milestone(meta, index) {
                        None => Outcome::refuse(signed, Error::InvalidMilestone),
                        Some(m) => if m.amount <= 0 {
                            Outcome::refuse(signed, Error::InvalidAmount)
                        } else if m.status != MilestoneStatus::Pending {
                            Outcome::refuse(signed, Error::InvalidStatus)
                        } else {
                            Outcome::accept(
                                signed,
                                (),
                                l.with_milestone(
                                    index,
                                    Milestone {
                                        status: MilestoneStatus::Delivered,
                                        delivered_at: c.timestamp,
                                        ..m
                                    },
                                ).with_temporary(
                                    TemporaryView {
                                        delivered_at: l.temporary.delivered_at.insert(
                                            index,
                                            c.timestamp,
                                        ),
                                        ..l.temporary
                                    },
                                ),
                                Seq::empty(),
                                seq![
                                    Event::Delivered(
                                        DeliveredEvent {
                                            contract_id: c.contract,
                                            milestone_index: index,
                                            freelancer,
                                            client: meta.client,
                                            delivered_at: c.timestamp,
                                            status: MilestoneStatus::Delivered,
                                            amount: m.amount,
                                        },
                                    ),
                                ],
                            )
                        },
                    }
                },
            }
        }
    }

    /// Marks a milestone as delivered, which starts the clock of its
    /// automatic release.
    pub fn mark_delivered(host: &mut Host, freelancer: Address, milestone_index: u32) -> (r: Result<
        (),
        Error,
    >)
        ensures
            old(host)@.comes_to(
                final(host)@,
                r,
                Self::mark_delivered_outcome(
                    old(host)@.ledger,
                    old(host)@.context,
                    freelancer,
                    milestone_index,
                ),
            ),
    {
        Self::ensure_open(host)?;
        if freelancer.is_zero() {
            return Err(Error::InvalidAddress);
        }
        host.require_auth(freelancer);
        let meta = Self::load_job_meta(host)?;
        if meta.freelancer != freelancer {
            return Err(Error::Unauthorized);
        }
        if !meta.funded {
            return Err(Error::NotFunded);
        }
        let milestone = Self::load_job_milestone(host, &meta, milestone_index)?;
        if milestone.amount <= 0 {
            return Err(Error::InvalidAmount);
        }
        if milestone.status != MilestoneStatus::Pending {
            return Err(Error::InvalidStatus);
        }
        let delivered_at: u64 = host.timestamp;
        let contract = host.contract;
        host.ledger.persistent.milestones.set(
            milestone_index,
            Milestone { status: MilestoneStatus::Delivered, delivered_at, ..milestone },
        );
        host.ledger.temporary.delivered_at.set(milestone_index, delivered_at);
        host.publish(
            Event::Delivered(
                DeliveredEvent {
                    contract_id: contract,
                    milestone_index,
                    freelancer,
                    client: meta.client,
                    delivered_at,
                    status: MilestoneStatus::Delivered,
                    amount: milestone.amount,
                },
            ),
        );
        Ok(())
    }

    pub open spec fn extend_milestone_deadline_outcome(
        l: LedgerView,
        c: Context,
        client: Address,
        index: u32,
        extra_seconds: u32,
    ) -> Outcome<()> {
        let signed = seq![client];
        let new_extension = l.time_extension(index) + extra_seconds;
        if l.admin_paused() {
            Outcome::refuse(Seq::empty(), Error::Paused)
        } else if let Some(error) = l.busy_error() {
            Outcome::refuse(Seq::empty(), error)
        } else {
            match l.instance.job {
                None => Outcome::refuse(signed, Error::NotInitialized),
                Some(meta) => if meta.client != client {
                    Outcome::refuse(signed, Error::Unauthorized)
                } else {
                    match l.job_milestone(meta, index) {
                        None => Outcome::refuse(signed, Error::InvalidMilestone),
                        Some(m) => if !(m.status is Delivered || m.status is PartiallyReleased) {
                            Outcome::refuse(signed, Error::InvalidStatus)
                        } else if extra_seconds == 0 || new_extension > u32::MAX {
                            Outcome::refuse(signed, Error::InvalidExtension)
                        } else {
                            Outcome::accept(
                                signed,
                                (),
                                l.with_temporary(
                                    TemporaryView {
                                        time_ext: l.temporary.time_ext.insert(
                                            index,
                                            new_extension as u32,
                                        ),
                                        ..l.temporary
                                    },
                                ),
                                Seq::empty(),
                                seq![
                                    Event::DeadlineExtended(
                                        DeadlineExtendedEvent {
                                            contract_id: c.contract,
                                            milestone_index: index,
                                            client,
                                            extra_seconds,
                                            new_extension: new_extension as u32,
                                        },
                                    ),
                                ],
                            )
                        },
                    }
                },
            }
        }
    }

    /// Puts off the automatic release of a delivered milestone.
    pub fn extend_milestone_deadline(
        host: &mut Host,
        client: Address,
        milestone_index: u32,
        extra_seconds: u32,
    ) -> (r: Result<(), Error>)
        ensures
            old(host)@.comes_to(
                final(host)@,
                r,
                Self::extend_milestone_deadline_outcome(
                    old(host)@.ledger,
                    old(host)@.context,
                    client,
                    milestone_index,
                    extra_seconds,
                ),
            ),
    {
        Self::assert_not_paused(host)?;
        Self::assert_idle(host)?;
        host.require_auth(client);
        let meta = Self::load_job_meta(host)?;
        if meta.client != client {
            return Err(Error::Unauthorized);
        }
        let milestone = Self::load_job_milestone(host, &meta, milestone_index)?;
        if milestone.status != MilestoneStatus::Delivered && milestone.status
            != MilestoneStatus::PartiallyReleased {
            return Err(Error::InvalidStatus);
        }
        if extra_seconds == 0 {
            return Err(Error::InvalidExtension);
        }
        let current_extension: u32 = Self::load_time_extension(host, milestone_index);
        let new_extension: u32 = match current_extension.checked_add(extra_seconds) {
            Some(sum) => sum,
            None => {
                return Err(Error::InvalidExtension);
            },
        };
        let contract = host.contract;
        host.ledger.temporary.time_ext.set(milestone_index, new_extension);
        host.publish(
            Event::DeadlineExtended(
                DeadlineExtendedEvent {
                    contract_id: contract,
                    milestone_index,
                    client,
                    extra_seconds,
                    new_extension,
                },
            ),
        );
        Ok(())
    }

    pub open spec fn claim_auto_release_outcome(
        l: LedgerView,
        c: Context,
        freelancer: Address,
        index: u32,
    ) -> Outcome<()> {
        let signed = seq![freelancer];
        if let Some(error) = l.closed_error() {
            Outcome::refuse(Seq::empty(), error)
        } else if freelancer.is_zero() {
            Outcome::refuse(Seq::empty(), Error::InvalidAddress)
        } else {
            match l.instance.job {
                None => Outcome::refuse(signed, Error::NotInitialized),
                Some(meta) => if meta.freelancer != freelancer {
                    Outcome::refuse(signed, Error::Unauthorized)
                } else {
                    match l.job_milestone(meta, index) {
                        None => Outcome::refuse(signed, Error::InvalidMilestone),
                        Some(m) => if m.status != MilestoneStatus::Delivered {
                            Outcome::refuse(signed, Error::InvalidStatus)
                        } else if meta.auto_release_seconds == 0 || l.deadline(meta, index, m)
                            > u64::MAX {
                            Outcome::refuse(signed, Error::InvalidAmount)
                        } else if c.timestamp < l.deadline(meta, index, m) {
                            Outcome::refuse(signed, Error::DeadlineNotPassed)
                        } else if !m.owes() {
                            Outcome::refuse(signed, Error::InvalidAmount)
                        } else {
                            Outcome::accept(
                                signed,
                                (),
                                l.with_milestone(
                                    index,
                                    m.settled(MilestoneStatus::Released),
                                ).with_credits(meta),
                                seq![c.pay(meta.token, freelancer, m.unpaid())],
                                seq![
                                    Event::Claimed(
                                        ClaimedEvent {
                                            contract_id: c.contract,
                                            milestone_index: index,
                                            freelancer,
                                            token: meta.token,
                                            amount: m.unpaid() as i128,
                                        },
                                    ),
                                ],
                            )
                        },
                    }
                },
            }
        }
    }

    /// Pays a delivered milestone out to the freelancer once its deadline has
    /// passed.
    ///
    /// The parties' counters have to have room, as
    /// [`MilestoneEscrow::has_room_for_credits`] says.
    pub fn claim_auto_release(host: &mut Host, freelancer: Address, milestone_index: u32) -> (r:
        Result<(), Error>)
        requires
            Self::claim_auto_release_outcome(
                old(host)@.ledger,
                old(host)@.context,
                freelancer,
                milestone_index,
            ).result is Ok ==> old(host)@.ledger.credits_fit(old(host)@.ledger.instance.job->0),
        ensures
            old(host)@.comes_to(
                final(host)@,
                r,
                Self::claim_auto_release_outcome(
                    old(host)@.ledger,
                    old(host)@.context,
                    freelancer,
                    milestone_index,
                ),
            ),
    {
        Self::ensure_open(host)?;
        if freelancer.is_zero() {
            return Err(Error::InvalidAddress);
        }
        host.require_auth(freelancer);
        let meta = Self::load_job_meta(host)?;
        if meta.freelancer != freelancer {
            return Err(Error::Unauthorized);
        }
        let milestone = Self::load_job_milestone(host, &meta, milestone_index)?;
        if milestone.status != MilestoneStatus::Delivered {
            return Err(Error::InvalidStatus);
        }
        if meta.auto_release_seconds == 0 {
            return Err(Error::InvalidAmount);
        }
        let deadline: u64 = Self::claim_deadline(host, &meta, milestone_index, &milestone)?;
        if host.timestamp < deadline {
            return Err(Error::DeadlineNotPassed);
        }
        let remaining: i128 = milestone.remaining()?;
        let contract = host.contract;
        host.ledger.persistent.milestones.set(
            milestone_index,
            Milestone {
                released_amount: milestone.amount,
                status: MilestoneStatus::Released,
                ..milestone
            },
        );
        Self::credit_parties(host, &meta);
        host.transfer(meta.token, contract, meta.freelancer, remaining);
        host.publish(
            Event::Claimed(
                ClaimedEvent {
                    contract_id: contract,
                    milestone_index,
                    freelancer: meta.freelancer,
                    token: meta.token,
                    amount: remaining,
                },
            ),
        );
        Ok(())
    }

    /// The seconds until a milestone may be claimed; negative once it may.
    pub fn time_until_auto_release(host: &Host, milestone_index: u32) -> (r: Result<i64, Error>)
        requires
            host@.ledger.instance.job is Some,
            host@.ledger.milestone(milestone_index) is Some,
        ensures
            ({
                let l = host@.ledger;
                let deadline = l.deadline(
                    l.instance.job->0,
                    milestone_index,
                    l.milestone(milestone_index)->0,
                );
                let now = host@.context.timestamp;
                r == (if deadline <= i64::MAX && now <= i64::MAX {
                    Ok((deadline - now) as i64)
                } else {
                    Err(Error::InvalidAmount)
                })
            }),
            // The moment that it gives is that of delivery, the agreed time and
            // all that the milestone was put off by, added up.
            ({
                let l = host@.ledger;
                let opens = crate::rules::job::delivered(l, milestone_index)
                    + l.instance.job->0.auto_release_seconds + crate::rules::job::put_off(
                    l,
                    milestone_index,
                );
                let now = host@.context.timestamp;
                &&& r is Ok <==> opens <= i64::MAX && now <= i64::MAX
                &&& r matches Ok(seconds) ==> now + seconds == opens
            }),
    {
        let meta = Self::load_job_meta(host)?;
        let milestone = Self::load_milestone(host, milestone_index)?;
        let deadline: u64 = Self::claim_deadline(host, &meta, milestone_index, &milestone)?;
        let current: u64 = host.timestamp;
        if deadline > i64::MAX as u64 || current > i64::MAX as u64 {
            return Err(Error::InvalidAmount);
        }
        Ok(deadline as i64 - current as i64)
    }

    /// A milestone once another part of it is paid.
    pub open spec fn paid_down(m: Milestone, amount: i128) -> Milestone {
        Milestone {
            released_amount: (m.released_amount + amount) as i128,
            status: if m.released_amount + amount == m.amount {
                MilestoneStatus::Released
            } else {
                MilestoneStatus::PartiallyReleased
            },
            ..m
        }
    }

    /// What is published when the client pays for a milestone.
    pub open spec fn approved(c: Context, meta: JobMeta, index: u32, m: Milestone) -> Event {
        Event::Approved(
            ApprovedEvent {
                contract_id: c.contract,
                milestone_index: index,
                client: meta.client,
                freelancer: meta.freelancer,
                arbiter: meta.arbiter,
                token: meta.token,
                amount: m.amount,
                released_amount: m.released_amount,
                remaining: m.unpaid() as i128,
                status: m.status,
                milestone_count: meta.milestone_count,
                total_amount: meta.total_amount,
                auto_release_seconds: meta.auto_release_seconds,
            },
        )
    }

    pub open spec fn approve_partial_outcome(
        l: LedgerView,
        c: Context,
        client: Address,
        index: u32,
        amount: i128,
    ) -> Outcome<()> {
        let signed = seq![client];
        if let Some(error) = l.closed_error() {
            Outcome::refuse(Seq::empty(), error)
        } else if c.unfit(client) {
            Outcome::refuse(Seq::empty(), Error::InvalidAddress)
        } else {
            match l.instance.job {
                None => Outcome::refuse(signed, Error::NotInitialized),
                Some(meta) => if meta.client != client {
                    Outcome::refuse(signed, Error::Unauthorized)
                } else if !meta.funded {
                    Outcome::refuse(signed, Error::NotFunded)
                } else {
                    match l.job_milestone(meta, index) {
                        None => Outcome::refuse(signed, Error::InvalidMilestone),
                        Some(m) => if !(m.status is Delivered || m.status is PartiallyReleased) {
                            Outcome::refuse(signed, Error::InvalidStatus)
                        } else if !(0 < amount <= m.unpaid() <= i128::MAX) {
                            Outcome::refuse(signed, Error::InvalidAmount)
                        } else {
                            let paid = Self::paid_down(m, amount);
                            Outcome::accept(
                                signed,
                                (),
                                if paid.status is Released {
                                    l.with_released_note(index).with_credits(meta).with_milestone(
                                        index,
                                        paid,
                                    )
                                } else {
                                    l.with_milestone(index, paid)
                                },
                                seq![c.pay(meta.token, meta.freelancer, amount as int)],
                                seq![Self::approved(c, meta, index, paid)],
                            )
                        },
                    }
                },
            }
        }
    }

    /// Whether a partial payment would complete a milestone.
    pub open spec fn completes(l: LedgerView, index: u32, amount: i128) -> bool {
        l.milestone(index) matches Some(m) && m.released_amount + amount == m.amount
    }

    /// Pays a part of a delivered milestone to the freelancer.
    ///
    /// Where the part completes the milestone, the parties' counters have to
    /// have room, as [`MilestoneEscrow::has_room_for_credits`] says.
    pub fn approve_partial(
        host: &mut Host,
        client: Address,
        milestone_index: u32,
        amount: i128,
    ) -> (r: Result<(), Error>)
        requires
            Self::approve_partial_outcome(
                old(host)@.ledger,
                old(host)@.context,
                client,
                milestone_index,
                amount,
            ).result is Ok && Self::completes(old(host)@.ledger, milestone_index, amount)
                ==> old(host)@.ledger.credits_fit(old(host)@.ledger.instance.job->0),
        ensures
            old(host)@.comes_to(
                final(host)@,
                r,
                Self::approve_partial_outcome(
                    old(host)@.ledger,
                    old(host)@.context,
                    client,
                    milestone_index,
                    amount,
                ),
            ),
    {
        Self::ensure_open(host)?;
        if Self::is_unfit(host, client) {
            return Err(Error::InvalidAddress);
        }
        host.require_auth(client);
        let meta = Self::load_job_meta(host)?;
        if meta.client != client {
            return Err(Error::Unauthorized);
        }
        if !meta.funded {
            return Err(Error::NotFunded);
        }
        let milestone = Self::load_job_milestone(host, &meta, milestone_index)?;
        if milestone.status != MilestoneStatus::Delivered && milestone.status
            != MilestoneStatus::PartiallyReleased {
            return Err(Error::InvalidStatus);
        }
        if amount <= 0 {
            return Err(Error::InvalidAmount);
        }
        let remaining: i128 = milestone.remaining()?;
        if amount > remaining {
            return Err(Error::InvalidAmount);
        }
        let released_amount: i128 = milestone.released_amount + amount;
        let status = if released_amount == milestone.amount {
            MilestoneStatus::Released
        } else {
            MilestoneStatus::PartiallyReleased
        };
        let contract = host.contract;
        host.transfer(meta.token, contract, meta.freelancer, amount);
        if released_amount == milestone.amount {
            host.ledger.temporary.milestone_released.set(milestone_index, true);
            Self::credit_parties(host, &meta);
        }
        host.ledger.persistent.milestones.set(
            milestone_index,
            Milestone { released_amount, status, ..milestone },
        );
        host.publish(
            Event::Approved(
                ApprovedEvent {
                    contract_id: contract,
                    milestone_index,
                    client: meta.client,
                    freelancer: meta.freelancer,
                    arbiter: meta.arbiter,
                    token: meta.token,
                    amount: milestone.amount,
                    released_amount,
                    remaining: remaining - amount,
                    status,
                    milestone_count: meta.milestone_count,
                    total_amount: meta.total_amount,
                    auto_release_seconds: meta.auto_release_seconds,
                },
            ),
        );
        Ok(())
    }

    pub open spec fn approve_milestone_outcome(
        l: LedgerView,
        c: Context,
        client: Address,
        index: u32,
    ) -> Outcome<()> {
        let signed = seq![client];
        if let Some(error) = l.closed_error() {
            Outcome::refuse(Seq::empty(), error)
        } else if client.is_zero() {
            Outcome::refuse(Seq::empty(), Error::InvalidAddress)
        } else {
            match l.instance.job {
                None => Outcome::refuse(signed, Error::NotInitialized),
                Some(meta) => if meta.client != client {
                    Outcome::refuse(signed, Error::Unauthorized)
                } else if !meta.funded {
                    Outcome::refuse(signed, Error::NotFunded)
                } else {
                    match l.job_milestone(meta, index) {
                        None => Outcome::refuse(signed, Error::InvalidMilestone),
                        Some(m) => if m.status != MilestoneStatus::Delivered {
                            Outcome::refuse(signed, Error::InvalidStatus)
                        } else if !m.owes() {
                            Outcome::refuse(signed, Error::InvalidAmount)
                        } else {
                            let paid = m.settled(MilestoneStatus::Released);
                            Outcome::accept(
                                signed,
                                (),
                                l.with_milestone(index, paid).with_credits(
                                    meta,
                                ).with_released_note(index),
                                seq![c.pay(meta.token, meta.freelancer, m.unpaid())],
                                seq![Self::approved(c, meta, index, paid)],
                            )
                        },
                    }
                },
            }
        }
    }

    /// Pays all that is left of a delivered milestone to the freelancer.
    ///
    /// The parties' counters have to have room, as
    /// [`MilestoneEscrow::has_room_for_credits`] says.
    pub fn approve_milestone(host: &mut Host, client: Address, milestone_index: u32) -> (r: Result<
        (),
        Error,
    >)
        requires
            Self::approve_milestone_outcome(
                old(host)@.ledger,
                old(host)@.context,
                client,
                milestone_index,
            ).result is Ok ==> old(host)@.ledger.credits_fit(old(host)@.ledger.instance.job->0),
        ensures
            old(host)@.comes_to(
                final(host)@,
                r,
                Self::approve_milestone_outcome(
                    old(host)@.ledger,
                    old(host)@.context,
                    client,
                    milestone_index,
                ),
            ),
    {
        Self::ensure_open(host)?;
        if client.is_zero() {
            return Err(Error::InvalidAddress);
        }
        host.require_auth(client);
        let meta = Self::load_job_meta(host)?;
        if meta.client != client {
            return Err(Error::Unauthorized);
        }
        if !meta.funded {
            return Err(Error::NotFunded);
        }
        let milestone = Self::load_job_milestone(host, &meta, milestone_index)?;
        if milestone.status != MilestoneStatus::Delivered {
            return Err(Error::InvalidStatus);
        }
        let remaining: i128 = milestone.remaining()?;
        let contract = host.contract;
        host.transfer(meta.token, contract, meta.freelancer, remaining);
        host.ledger.persistent.milestones.set(
            milestone_index,
            Milestone {
                released_amount: milestone.amount,
                status: MilestoneStatus::Released,
                ..milestone
            },
        );
        Self::credit_parties(host, &meta);
        host.ledger.temporary.milestone_released.set(milestone_index, true);
        host.publish(
            Event::Approved(
                ApprovedEvent {
                    contract_id: contract,
                    milestone_index,
                    client: meta.client,
                    freelancer: meta.freelancer,
                    arbiter: meta.arbiter,
                    token: meta.token,
                    amount: milestone.amount,
                    released_amount: milestone.amount,
                    remaining: 0,
                    status: MilestoneStatus::Released,
                    milestone_count: meta.milestone_count,
                    total_amount: meta.total_amount,
                    auto_release_seconds: meta.auto_release_seconds,
                },
            ),
        );
        Ok(())
    }

    /// Whether the first `n` milestones are all stored.
    pub open spec fn all_stored(l: LedgerView, n: nat) -> bool {
        forall|i: u32| i < n ==> (#[trigger] l.milestone(i)) is Some
    }

    /// All that is stored of the job.
    pub fn get_job(host: &Host) -> (r: Result<Job, Error>)
        ensures
            match host@.ledger.instance.job {
                None => r == Err::<Job, Error>(Error::NotInitialized),
                Some(meta) => if Self::all_stored(host@.ledger, meta.milestone_count as nat) {
                    r matches Ok(job) && {
                        &&& job.client == meta.client
                        &&& job.freelancer == meta.freelancer
                        &&& job.arbiter == meta.arbiter
                        &&& job.token == meta.token
                        &&& job.funded == meta.funded
                        &&& job.auto_release_seconds == meta.auto_release_seconds
                        &&& job.milestones@ == Seq::new(
                            meta.milestone_count as nat,
                            |i: int| host@.ledger.milestone(i as u32)->0,
                        )
                    }
                } else {
                    r == Err::<Job, Error>(Error::InvalidMilestone)
                },
            },
            r matches Ok(job) ==> {
                let count = host@.ledger.instance.job->0.milestone_count;
                &&& job.milestones@.len() == count
                &&& forall|i: u32|
                    i < count ==> #[trigger] host@.ledger.persistent.milestones.contains_key(i)
                &&& forall|i: int|
                    0 <= i < count ==> #[trigger] job.milestones@[i]
                        == host@.ledger.persistent.milestones[i as u32]
            },
    {
        let meta = Self::load_job_meta(host)?;
        let mut milestones: Vec<Milestone> = Vec::new();
        let mut index: u32 = 0;
        while index < meta.milestone_count
            invariant
                host@.ledger.instance.job == Some(meta),
                index <= meta.milestone_count,
                milestones@ == Seq::new(
                    index as nat,
                    |i: int| host@.ledger.milestone(i as u32)->0,
                ),
                Self::all_stored(host@.ledger, index as nat),
            decreases meta.milestone_count - index,
        {
            let milestone = match Self::load_milestone(host, index) {
                Ok(milestone) => milestone,
                Err(error) => {
                    assert(host@.ledger.milestone(index) is None);
                    return Err(error);
                },
            };
            milestones.push(milestone);
            index += 1;
        }
        assert forall|i: u32|
            i < meta.milestone_count implies #[trigger] host@.ledger.persistent.milestones.contains_key(
            i,
        ) by {
            assert(host@.ledger.milestone(i) is Some);
        }
        assert forall|i: int| 0 <= i < meta.milestone_count implies #[trigger] milestones@[i]
            == host@.ledger.persistent.milestones[i as u32] by {
            assert(host@.ledger.milestone(i as u32) is Some);
        }
        Ok(
            Job {
                client: meta.client,
                freelancer: meta.freelancer,
                arbiter: meta.arbiter,
                token: meta.token,
                milestones,
                funded: meta.funded,
                auto_release_seconds: meta.auto_release_seconds,
            },
        )
    }
}

} // verus!
