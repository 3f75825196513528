//! Disputes over milestones, and how an arbiter settles them.

use vstd::prelude::*;

use crate::arith::MilestoneEscrow;
use crate::events::{
    ArbitrationSplitAppliedEvent, DisputeRaisedEvent, DisputeResolvedEvent, Event,
};
use crate::host::{Context, Host, HostView, LedgerView, TemporaryView};
use crate::outcome::Outcome;
use crate::types::{Address, Error, JobMeta, Milestone, MilestoneStatus, RefundAllocation};

verus! {

impl MilestoneEscrow {
    pub open spec fn raise_dispute_outcome(
        l: LedgerView,
        c: Context,
        caller: Address,
        index: u32,
    ) -> Outcome<()> {
        let signed = seq![caller];
        if let Some(error) = l.closed_error() {
            Outcome::refuse(Seq::empty(), error)
        } else if caller.is_zero() {
            Outcome::refuse(Seq::empty(), Error::InvalidAddress)
        } else {
            match l.instance.job {
                None => Outcome::refuse(signed, Error::NotInitialized),
                Some(meta) => if meta.client != caller && meta.freelancer != caller {
                    Outcome::refuse(signed, Error::Unauthorized)
                } else if l.temporary.dispute_lock.contains_key(index) {
                    Outcome::refuse(signed, Error::DisputeAlreadyRaised)
                } else if !meta.funded {
                    Outcome::refuse(signed, Error::NotFunded)
                } else {
                    match l.job_milestone(meta, index) {
                        None => Outcome::refuse(signed, Error::InvalidMilestone),
                        Some(m) => if m.amount <= 0 {
                            Outcome::refuse(signed, Error::InvalidAmount)
                        } else if !m.status.is_open() {
                            Outcome::refuse(signed, Error::InvalidStatus)
                        } else {
                            Outcome::accept(
                                signed,
                                (),
                                l.with_milestone(
                                    index,
                                    Milestone { status: MilestoneStatus::Disputed, ..m },
                                ).with_temporary(
                                    TemporaryView {
                                        dispute_flag: l.temporary.dispute_flag.insert(index, true),
                                        ..l.temporary
                                    },
                                ),
                                Seq::empty(),
                                seq![
                                    Event::DisputeRaised(
                                        DisputeRaisedEvent {
                                            milestone_index: index,
                                            caller,
                                            milestone_amount: m.amount,
                                            new_status: MilestoneStatus::Disputed,
                                        },
                                    ),
                                ],
                            )
                        },
                    }
                },
            }
        }
    }

    /// Disputes a milestone, which from then on only an arbiter or the admin
    /// can settle.
    pub fn raise_dispute(host: &mut Host, caller: Address, milestone_index: u32) -> (r: Result<
        (),
        Error,
    >)
        ensures
            old(host)@.comes_to(
                final(host)@,
                r,
                Self::raise_dispute_outcome(
                    old(host)@.ledger,
                    old(host)@.context,
                    caller,
                    milestone_index,
                ),
            ),
    {
        Self::ensure_open(host)?;
        if caller.is_zero() {
            return Err(Error::InvalidAddress);
        }
        host.require_auth(caller);
        let meta = Self::load_job_meta(host)?;
        if meta.client != caller && meta.freelancer != caller {
            return Err(Error::Unauthorized);
        }
        if host.ledger.temporary.dispute_lock.has(milestone_index) {
            return Err(Error::DisputeAlreadyRaised);
        }
        if !meta.funded {
            return Err(Error::NotFunded);
        }
        let milestone = Self::load_job_milestone(host, &meta, milestone_index)?;
        if milestone.amount <= 0 {
            return Err(Error::InvalidAmount);
        }
        if !milestone.status.is_open() {
            return Err(Error::InvalidStatus);
        }
        host.ledger.persistent.milestones.set(
            milestone_index,
            Milestone { status: MilestoneStatus::Disputed, ..milestone },
        );
        host.ledger.temporary.dispute_flag.set(milestone_index, true);
        host.publish(
            Event::DisputeRaised(
                DisputeRaisedEvent {
                    milestone_index,
                    caller,
                    milestone_amount: milestone.amount,
                    new_status: MilestoneStatus::Disputed,
                },
            ),
        );
        Ok(())
    }

    pub open spec fn resolve_dispute_outcome(
        l: LedgerView,
        c: Context,
        arbiter: Address,
        index: u32,
        release_to_freelancer: bool,
    ) -> Outcome<()> {
        let signed = seq![arbiter];
        if let Some(error) = l.closed_error() {
            Outcome::refuse(Seq::empty(), error)
        } else if c.unfit(arbiter) {
            Outcome::refuse(Seq::empty(), Error::InvalidAddress)
        } else {
            match l.instance.job {
                None => Outcome::refuse(signed, Error::NotInitialized),
                Some(meta) => if meta.arbiter != arbiter {
                    Outcome::refuse(signed, Error::Unauthorized)
                } else if !meta.funded {
                    Outcome::refuse(signed, Error::NotFunded)
                } else {
                    match l.milestone(index) {
                        None => Outcome::refuse(signed, Error::InvalidMilestone),
                        Some(m) => if m.status != MilestoneStatus::Disputed {
                            Outcome::refuse(signed, Error::InvalidStatus)
                        } else if !m.owes() || c.balance <= 0 {
                            Outcome::refuse(signed, Error::InvalidAmount)
                        } else {
                            let payout = c.capped(m.unpaid());
                            let status = if release_to_freelancer {
                                MilestoneStatus::Released
                            } else {
                                MilestoneStatus::Refunded
                            };
                            Outcome::accept(
                                signed,
                                (),
                                if release_to_freelancer {
                                    l.with_milestone(
                                        index,
                                        Milestone {
                                            released_amount: (m.released_amount + payout) as i128,
                                            status,
                                            ..m
                                        },
                                    ).with_credits(meta)
                                } else {
                                    l.with_milestone(index, Milestone { status, ..m })
                                },
                                seq![
                                    c.pay(
                                        meta.token,
                                        if release_to_freelancer {
                                            meta.freelancer
                                        } else {
                                            meta.client
                                        },
                                        payout,
                                    ),
                                ],
                                seq![
                                    Event::DisputeResolved(
                                        DisputeResolvedEvent {
                                            contract_id: c.contract,
                                            milestone_index: index,
                                            arbiter,
                                            client: meta.client,
                                            freelancer: meta.freelancer,
                                            token: meta.token,
                                            amount: m.unpaid() as i128,
                                            paid_amount: payout as i128,
                                            released_to_freelancer: release_to_freelancer,
                                            status,
                                        },
                                    ),
                                ],
                            )
                        },
                    }
                },
            }
        }
    }

    /// Settles a disputed milestone in favour of one party. Where the contract
    /// holds too little, it pays what it holds.
    ///
    /// Where the freelancer wins, the parties' counters have to have room, as
    /// [`MilestoneEscrow::has_room_for_credits`] says.
    pub fn resolve_dispute(
        host: &mut Host,
        arbiter: Address,
        milestone_index: u32,
        release_to_freelancer: bool,
    ) -> (r: Result<(), Error>)
        requires
            Self::resolve_dispute_outcome(
                old(host)@.ledger,
                old(host)@.context,
                arbiter,
                milestone_index,
                release_to_freelancer,
            ).result is Ok && release_to_freelancer ==> old(host)@.ledger.credits_fit(
                old(host)@.ledger.instance.job->0,
            ),
        ensures
            old(host)@.comes_to(
                final(host)@,
                r,
                Self::resolve_dispute_outcome(
                    old(host)@.ledger,
                    old(host)@.context,
                    arbiter,
                    milestone_index,
                    release_to_freelancer,
                ),
            ),
    {
        Self::ensure_open(host)?;
        if Self::is_unfit(host, arbiter) {
            return Err(Error::InvalidAddress);
        }
        host.require_auth(arbiter);
        let meta = Self::load_job_meta(host)?;
        if meta.arbiter != arbiter {
            return Err(Error::Unauthorized);
        }
        if !meta.funded {
            return Err(Error::NotFunded);
        }
        let milestone = Self::load_milestone(host, milestone_index)?;
        if milestone.status != MilestoneStatus::Disputed {
            return Err(Error::InvalidStatus);
        }
        let remaining: i128 = milestone.remaining()?;
        if host.balance <= 0 {
            return Err(Error::InvalidAmount);
        }
        let payout: i128 = Self::capped(host, remaining);
        let contract = host.contract;
        let status = if release_to_freelancer {
            MilestoneStatus::Released
        } else {
            MilestoneStatus::Refunded
        };
        if release_to_freelancer {
            host.ledger.persistent.milestones.set(
                milestone_index,
                Milestone {
                    released_amount: milestone.released_amount + payout,
                    status,
                    ..milestone
                },
            );
            host.transfer(meta.token, contract, meta.freelancer, payout);
            Self::credit_parties(host, &meta);
        } else {
            host.ledger.persistent.milestones.set(milestone_index, Milestone { status, ..milestone });
            host.transfer(meta.token, contract, meta.client, payout);
        }
        host.publish(
            Event::DisputeResolved(
                DisputeResolvedEvent {
                    contract_id: contract,
                    milestone_index,
                    arbiter: meta.arbiter,
                    client: meta.client,
                    freelancer: meta.freelancer,
                    token: meta.token,
                    amount: remaining,
                    paid_amount: payout,
                    released_to_freelancer: release_to_freelancer,
                    status,
                },
            ),
        );
        Ok(())
    }

    /// What each party is paid of a split, where the client is paid first and
    /// neither more than the contract holds.
    pub open spec fn payable(c: Context, client_refund: int, freelancer_payout: int) -> (int, int) {
        let to_client = c.capped(client_refund);
        let left = c.balance - to_client;
        (
            to_client,
            if freelancer_payout <= left {
                freelancer_payout
            } else {
                left
            },
        )
    }

    /// The ledger once a milestone is settled by a split of which the
    /// freelancer is paid `payout`.
    pub open spec fn split_settled(
        l: LedgerView,
        meta: JobMeta,
        index: u32,
        m: Milestone,
        payout: int,
    ) -> LedgerView {
        let paid = Milestone {
            released_amount: (m.released_amount + payout) as i128,
            status: Self::split_status(payout),
            ..m
        };
        if payout == 0 {
            l.with_milestone(index, paid)
        } else {
            l.with_released_note(index).with_credits(meta).with_milestone(index, paid)
        }
    }

    /// Where a split leaves a milestone.
    pub open spec fn split_status(payout: int) -> MilestoneStatus {
        if payout == 0 {
            MilestoneStatus::Refunded
        } else {
            MilestoneStatus::Released
        }
    }

    pub open spec fn apply_dispute_arbitration_split_outcome(
        l: LedgerView,
        c: Context,
        arbiter: Address,
        index: u32,
        client_refund_bps: u32,
    ) -> Outcome<RefundAllocation> {
        let signed = seq![arbiter];
        if let Some(error) = l.frozen_error() {
            Outcome::refuse(Seq::empty(), error)
        } else if c.unfit(arbiter) {
            Outcome::refuse(Seq::empty(), Error::InvalidAddress)
        } else {
            match l.instance.job {
                None => Outcome::refuse(signed, Error::NotInitialized),
                Some(meta) => if meta.arbiter != arbiter {
                    Outcome::refuse(signed, Error::Unauthorized)
                } else if !meta.funded {
                    Outcome::refuse(signed, Error::NotFunded)
                } else {
                    match l.milestone(index) {
                        None => Outcome::refuse(signed, Error::InvalidMilestone),
                        Some(m) => if m.status != MilestoneStatus::Disputed {
                            Outcome::refuse(signed, Error::InvalidStatus)
                        } else if !m.owes() {
                            Outcome::refuse(signed, Error::InvalidAmount)
                        } else {
                            match Self::refund_by_bps_result(m.unpaid() as i128, client_refund_bps) {
                                Err(error) => Outcome::refuse(signed, error),
                                Ok(allocation) => if c.balance <= 0 {
                                    Outcome::refuse(signed, Error::InvalidAmount)
                                } else {
                                    Self::arbitration_split_settled(
                                        l,
                                        c,
                                        meta,
                                        index,
                                        m,
                                        allocation,
                                    )
                                },
                            }
                        },
                    }
                },
            }
        }
    }

    /// What a split by the arbiter comes to once nothing stands against it.
    pub open spec fn arbitration_split_settled(
        l: LedgerView,
        c: Context,
        meta: JobMeta,
        index: u32,
        m: Milestone,
        allocation: RefundAllocation,
    ) -> Outcome<RefundAllocation> {
        let (refund, payout) = Self::payable(
            c,
            allocation.client_refund as int,
            allocation.freelancer_payout as int,
        );
        let settled = Self::split_settled(l, meta, index, m, payout);
        Outcome::accept(
            seq![meta.arbiter],
            RefundAllocation {
                client_refund: refund as i128,
                freelancer_payout: payout as i128,
                ..allocation
            },
            settled.with_temporary(
                TemporaryView {
                    arbitration_split_bps: settled.temporary.arbitration_split_bps.insert(
                        index,
                        allocation.client_refund_bps,
                    ),
                    ..settled.temporary
                },
            ),
            c.pay_if_any(meta.token, meta.client, refund) + c.pay_if_any(
                meta.token,
                meta.freelancer,
                payout,
            ),
            seq![
                Event::DisputeResolved(
                    DisputeResolvedEvent {
                        contract_id: c.contract,
                        milestone_index: index,
                        arbiter: meta.arbiter,
                        client: meta.client,
                        freelancer: meta.freelancer,
                        token: meta.token,
                        amount: m.unpaid() as i128,
                        paid_amount: (refund + payout) as i128,
                        released_to_freelancer: payout > 0,
                        status: Self::split_status(payout),
                    },
                ),
                Event::ArbitrationSplitApplied(
                    ArbitrationSplitAppliedEvent {
                        contract_id: c.contract,
                        arbiter: meta.arbiter,
                        milestone_index: index,
                        client: meta.client,
                        freelancer: meta.freelancer,
                        token: meta.token,
                        client_refund: refund as i128,
                        freelancer_payout: payout as i128,
                        client_refund_bps: allocation.client_refund_bps,
                        freelancer_payout_bps: allocation.freelancer_payout_bps,
                        released_amount: (m.released_amount + payout) as i128,
                        status: Self::split_status(payout),
                    },
                ),
            ],
        )
    }

    /// Settles a disputed milestone by a split, and notes the share of the
    /// client. Where the contract holds too little, the client is paid first.
    ///
    /// The parties' counters have to have room, as
    /// [`MilestoneEscrow::has_room_for_credits`] says, unless the freelancer
    /// gets nothing.
    pub fn apply_dispute_arbitration_split(
        host: &mut Host,
        arbiter: Address,
        milestone_index: u32,
        client_refund_bps: u32,
    ) -> (r: Result<RefundAllocation, Error>)
        requires
            Self::apply_dispute_arbitration_split_outcome(
                old(host)@.ledger,
                old(host)@.context,
                arbiter,
                milestone_index,
                client_refund_bps,
            ).result matches Ok(step) && step.value.freelancer_payout != 0
                ==> old(host)@.ledger.credits_fit(old(host)@.ledger.instance.job->0),
        ensures
            old(host)@.comes_to(
                final(host)@,
                r,
                Self::apply_dispute_arbitration_split_outcome(
                    old(host)@.ledger,
                    old(host)@.context,
                    arbiter,
                    milestone_index,
                    client_refund_bps,
                ),
            ),
    {
        Self::ensure_not_paused(host)?;
        if Self::is_unfit(host, arbiter) {
            return Err(Error::InvalidAddress);
        }
        host.require_auth(arbiter);
        let meta = Self::load_job_meta(host)?;
        if meta.arbiter != arbiter {
            return Err(Error::Unauthorized);
        }
        if !meta.funded {
            return Err(Error::NotFunded);
        }
        let milestone = Self::load_milestone(host, milestone_index)?;
        if milestone.status != MilestoneStatus::Disputed {
            return Err(Error::InvalidStatus);
        }
        let remaining: i128 = milestone.remaining()?;
        let allocation = Self::allocate_refund_by_bps(remaining, client_refund_bps)?;
        if host.balance <= 0 {
            return Err(Error::InvalidAmount);
        }
        let contract = host.contract;
        let client_refund: i128 = Self::capped(host, allocation.client_refund);
        let freelancer_cap: i128 = host.balance - client_refund;
        let freelancer_payout: i128 = if allocation.freelancer_payout <= freelancer_cap {
            allocation.freelancer_payout
        } else {
            freelancer_cap
        };
        Self::pay_split(host, &meta, client_refund, freelancer_payout);
        let settled = Self::settle_split(
            host,
            &meta,
            milestone_index,
            &milestone,
            freelancer_payout,
        );
        host.ledger.temporary.arbitration_split_bps.set(milestone_index, client_refund_bps);
        host.publish(
            Event::DisputeResolved(
                DisputeResolvedEvent {
                    contract_id: contract,
                    milestone_index,
                    arbiter: meta.arbiter,
                    client: meta.client,
                    freelancer: meta.freelancer,
                    token: meta.token,
                    amount: remaining,
                    paid_amount: client_refund + freelancer_payout,
                    released_to_freelancer: freelancer_payout > 0,
                    status: settled.status,
                },
            ),
        );
        host.publish(
            Event::ArbitrationSplitApplied(
                ArbitrationSplitAppliedEvent {
                    contract_id: contract,
                    arbiter: meta.arbiter,
                    milestone_index,
                    client: meta.client,
                    freelancer: meta.freelancer,
                    token: meta.token,
                    client_refund,
                    freelancer_payout,
                    client_refund_bps,
                    freelancer_payout_bps: allocation.freelancer_payout_bps,
                    released_amount: settled.released_amount,
                    status: settled.status,
                },
            ),
        );
        Ok(
            RefundAllocation {
                client_refund,
                freelancer_payout,
                client_refund_bps: allocation.client_refund_bps,
                freelancer_payout_bps: allocation.freelancer_payout_bps,
            },
        )
    }

    /// Pays both legs of a split, as far as there is anything to pay.
    pub(crate) fn pay_split(
        host: &mut Host,
        meta: &JobMeta,
        client_refund: i128,
        freelancer_payout: i128,
    )
        ensures
            final(host)@ == (HostView {
                actions: old(host)@.actions + (old(host)@.context.pay_if_any(
                    meta.token,
                    meta.client,
                    client_refund as int,
                ) + old(host)@.context.pay_if_any(
                    meta.token,
                    meta.freelancer,
                    freelancer_payout as int,
                )),
                ..old(host)@
            }),
    {
        let contract = host.contract;
        if client_refund > 0 {
            host.transfer(meta.token, contract, meta.client, client_refund);
        }
        if freelancer_payout > 0 {
            host.transfer(meta.token, contract, meta.freelancer, freelancer_payout);
        }
        proof {
            assert(host@.actions =~= old(host)@.actions + (old(host)@.context.pay_if_any(
                meta.token,
                meta.client,
                client_refund as int,
            ) + old(host)@.context.pay_if_any(
                meta.token,
                meta.freelancer,
                freelancer_payout as int,
            )));
        }
    }

    /// Stores a milestone as settled by a split of which the freelancer is
    /// paid `payout`.
    pub(crate) fn settle_split(
        host: &mut Host,
        meta: &JobMeta,
        index: u32,
        milestone: &Milestone,
        payout: i128,
    ) -> (settled: Milestone)
        requires
            0 <= payout,
            milestone.released_amount + payout <= i128::MAX,
            payout != 0 ==> old(host)@.ledger.credits_fit(*meta),
        ensures
            final(host)@ == (HostView {
                ledger: Self::split_settled(
                    old(host)@.ledger,
                    *meta,
                    index,
                    *milestone,
                    payout as int,
                ),
                ..old(host)@
            }),
            settled.released_amount == milestone.released_amount + payout,
            settled.status == Self::split_status(payout as int),
    {
        let settled = Milestone {
            released_amount: milestone.released_amount + payout,
            status: if payout == 0 {
                MilestoneStatus::Refunded
            } else {
                MilestoneStatus::Released
            },
            ..*milestone
        };
        if payout != 0 {
            host.ledger.temporary.milestone_released.set(index, true);
            Self::credit_parties(host, meta);
        }
        host.ledger.persistent.milestones.set(index, settled);
        settled
    }
}

} // verus!
