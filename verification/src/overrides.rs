//! How the admin settles milestones one by one.

use vstd::prelude::*;

use crate::arith::MilestoneEscrow;
use crate::events::{
    AdminOverrideRefundEvent, AdminOverrideReleaseEvent, AdminOverrideStreamingReleaseEvent, Event,
};
use crate::host::{Context, Host, HostView, LedgerView, PersistentView};
use crate::outcome::Outcome;
use crate::types::{Address, Error, JobMeta, Milestone, MilestoneStatus, RatioSplit};

verus! {

impl LedgerView {
    /// The ledger once the credited yield is reset. Where none was credited,
    /// nothing is written.
    pub open spec fn with_yield_reset(self) -> LedgerView {
        if self.yield_total() != 0 {
            self.with_persistent(PersistentView { yield_accrued: Some(0), ..self.persistent })
        } else {
            self
        }
    }
}

impl MilestoneEscrow {
    /// What settling a milestone of a funded job finds: the job and a milestone
    /// that is not settled and still holds something.
    pub open spec fn override_target(l: LedgerView, index: u32) -> Result<
        (JobMeta, Milestone),
        Error,
    > {
        match l.instance.job {
            None => Err(Error::NotInitialized),
            Some(meta) => if !meta.funded {
                Err(Error::NotFunded)
            } else {
                match l.job_milestone(meta, index) {
                    None => Err(Error::InvalidMilestone),
                    Some(m) => if m.status.is_terminal() {
                        Err(Error::InvalidStatus)
                    } else if !m.owes() {
                        Err(Error::InvalidAmount)
                    } else {
                        Ok((meta, m))
                    },
                }
            },
        }
    }

    /// Finds the milestone that an override settles.
    fn find_override_target(host: &Host, index: u32) -> (r: Result<(JobMeta, Milestone), Error>)
        ensures
            r == Self::override_target(host@.ledger, index),
    {
        let meta = Self::load_job_meta(host)?;
        if !meta.funded {
            return Err(Error::NotFunded);
        }
        let milestone = Self::load_job_milestone(host, &meta, index)?;
        if milestone.status.is_terminal() {
            return Err(Error::InvalidStatus);
        }
        milestone.remaining()?;
        Ok((meta, milestone))
    }

    /// Resets the credited yield, if there is any.
    fn reset_yield(host: &mut Host)
        ensures
            final(host)@ == (HostView {
                ledger: old(host)@.ledger.with_yield_reset(),
                ..old(host)@
            }),
    {
        if let Some(total) = host.ledger.persistent.yield_accrued {
            if total != 0 {
                host.ledger.persistent.yield_accrued = Some(0);
            }
        }
    }

    pub open spec fn admin_override_release_outcome(
        l: LedgerView,
        c: Context,
        admin: Address,
        index: u32,
    ) -> Outcome<()> {
        let signed = seq![admin];
        if let Some(error) = LedgerView::admin_error(l.persistent.admin, admin) {
            Outcome::refuse(signed, error)
        } else {
            match Self::override_target(l, index) {
                Err(error) => Outcome::refuse(signed, error),
                Ok((meta, m)) => Outcome::accept(
                    signed,
                    (),
                    l.with_milestone(
                        index,
                        m.settled(MilestoneStatus::Released),
                    ).with_released_note(index).with_yield_reset(),
                    seq![c.pay(meta.token, meta.freelancer, m.unpaid())],
                    seq![
                        Event::AdminOverrideRelease(
                            AdminOverrideReleaseEvent {
                                admin,
                                contract_id: c.contract,
                                milestone_index: index,
                                freelancer: meta.freelancer,
                                token: meta.token,
                                amount: m.unpaid() as i128,
                            },
                        ),
                    ],
                ),
            }
        }
    }

    /// Pays a milestone out to the freelancer, whatever its parties say.
    pub fn admin_override_release(host: &mut Host, admin: Address, milestone_index: u32) -> (r:
        Result<(), Error>)
        ensures
            old(host)@.comes_to(
                final(host)@,
                r,
                Self::admin_override_release_outcome(
                    old(host)@.ledger,
                    old(host)@.context,
                    admin,
                    milestone_index,
                ),
            ),
    {
        Self::require_admin(host, admin)?;
        let (meta, milestone) = Self::find_override_target(host, milestone_index)?;
        let remaining: i128 = milestone.amount - milestone.released_amount;
        let contract = host.contract;
        host.ledger.persistent.milestones.set(
            milestone_index,
            Milestone {
                released_amount: milestone.amount,
                status: MilestoneStatus::Released,
                ..milestone
            },
        );
        host.ledger.temporary.milestone_released.set(milestone_index, true);
        Self::reset_yield(host);
        host.transfer(meta.token, contract, meta.freelancer, remaining);
        host.publish(
            Event::AdminOverrideRelease(
                AdminOverrideReleaseEvent {
                    admin,
                    contract_id: contract,
                    milestone_index,
                    freelancer: meta.freelancer,
                    token: meta.token,
                    amount: remaining,
                },
            ),
        );
        Ok(())
    }

    pub open spec fn admin_override_refund_outcome(
        l: LedgerView,
        c: Context,
        admin: Address,
        index: u32,
    ) -> Outcome<()> {
        let signed = seq![admin];
        if let Some(error) = LedgerView::admin_error(l.persistent.admin, admin) {
            Outcome::refuse(signed, error)
        } else if l.admin_paused() {
            Outcome::refuse(signed, Error::Paused)
        } else {
            match Self::override_target(l, index) {
                Err(error) => Outcome::refuse(signed, error),
                Ok((meta, m)) => Outcome::accept(
                    signed,
                    (),
                    l.with_milestone(
                        index,
                        m.settled(MilestoneStatus::Refunded),
                    ).with_yield_reset(),
                    seq![c.pay(meta.token, meta.client, m.unpaid())],
                    seq![
                        Event::AdminOverrideRefund(
                            AdminOverrideRefundEvent {
                                admin,
                                contract_id: c.contract,
                                milestone_index: index,
                                client: meta.client,
                                token: meta.token,
                                amount: m.unpaid() as i128,
                            },
                        ),
                    ],
                ),
            }
        }
    }

    /// Returns a milestone to the client, whatever its parties say.
    pub fn admin_override_refund(host: &mut Host, admin: Address, milestone_index: u32) -> (r: Result<
        (),
        Error,
    >)
        ensures
            old(host)@.comes_to(
                final(host)@,
                r,
                Self::admin_override_refund_outcome(
                    old(host)@.ledger,
                    old(host)@.context,
                    admin,
                    milestone_index,
                ),
            ),
    {
        Self::require_admin(host, admin)?;
        Self::assert_not_paused(host)?;
        let (meta, milestone) = Self::find_override_target(host, milestone_index)?;
        let remaining: i128 = milestone.amount - milestone.released_amount;
        let contract = host.contract;
        host.ledger.persistent.milestones.set(
            milestone_index,
            Milestone {
                released_amount: milestone.amount,
                status: MilestoneStatus::Refunded,
                ..milestone
            },
        );
        Self::reset_yield(host);
        host.transfer(meta.token, contract, meta.client, remaining);
        host.publish(
            Event::AdminOverrideRefund(
                AdminOverrideRefundEvent {
                    admin,
                    contract_id: contract,
                    milestone_index,
                    client: meta.client,
                    token: meta.token,
                    amount: remaining,
                },
            ),
        );
        Ok(())
    }

    pub open spec fn admin_override_streaming_release_outcome(
        l: LedgerView,
        c: Context,
        admin: Address,
        index: u32,
        elapsed_seconds: i128,
        total_seconds: i128,
    ) -> Outcome<RatioSplit> {
        let signed = seq![admin];
        if let Some(error) = LedgerView::admin_error(l.persistent.admin, admin) {
            Outcome::refuse(signed, error)
        } else {
            match l.instance.job {
                None => Outcome::refuse(signed, Error::NotInitialized),
                Some(meta) => if !meta.funded {
                    Outcome::refuse(signed, Error::NotFunded)
                } else {
                    match l.job_milestone(meta, index) {
                        None => Outcome::refuse(signed, Error::InvalidMilestone),
                        Some(m) => if m.status != MilestoneStatus::Disputed {
                            Outcome::refuse(signed, Error::InvalidStatus)
                        } else if !m.owes() {
                            Outcome::refuse(signed, Error::InvalidAmount)
                        } else {
                            Self::streaming_release_settled(
                                l,
                                c,
                                admin,
                                meta,
                                index,
                                m,
                                elapsed_seconds,
                                total_seconds,
                            )
                        },
                    }
                },
            }
        }
    }

    /// What settling a disputed milestone by elapsed time comes to.
    pub open spec fn streaming_release_settled(
        l: LedgerView,
        c: Context,
        admin: Address,
        meta: JobMeta,
        index: u32,
        m: Milestone,
        elapsed_seconds: i128,
        total_seconds: i128,
    ) -> Outcome<RatioSplit> {
        let signed = seq![admin] + Self::time_extension_signers(l, c);
        let unpaid = m.unpaid() as i128;
        match Self::stream_result(unpaid, elapsed_seconds, total_seconds) {
            Err(error) => Outcome::refuse(signed, error),
            Ok(split) => if c.balance <= 0 {
                Outcome::refuse(signed, Error::InvalidAmount)
            } else {
                let (refund, payout) = Self::payable(c, split.second as int, split.first as int);
                Outcome::accept(
                    signed,
                    RatioSplit { first: payout as i128, second: refund as i128 },
                    Self::split_settled(l.without_time_ext_lock(), meta, index, m, payout),
                    c.pay_if_any(meta.token, meta.client, refund) + c.pay_if_any(
                        meta.token,
                        meta.freelancer,
                        payout,
                    ),
                    seq![
                        Self::time_extension_event(unpaid, elapsed_seconds, total_seconds, split),
                        Event::AdminOverrideStreamingRelease(
                            AdminOverrideStreamingReleaseEvent {
                                admin,
                                contract_id: c.contract,
                                milestone_index: index,
                                client: meta.client,
                                freelancer: meta.freelancer,
                                token: meta.token,
                                client_refund: refund as i128,
                                freelancer_payout: payout as i128,
                            },
                        ),
                    ],
                )
            },
        }
    }

    /// Settles a disputed milestone by how much of a deadline has been used.
    /// Where the contract holds too little, the client is paid first.
    ///
    /// The parties' counters have to have room, as
    /// [`MilestoneEscrow::has_room_for_credits`] says, unless the freelancer
    /// gets nothing.
    pub fn admin_override_streaming_release(
        host: &mut Host,
        admin: Address,
        milestone_index: u32,
        elapsed_seconds: i128,
        total_seconds: i128,
    ) -> (r: Result<RatioSplit, Error>)
        requires
            Self::admin_override_streaming_release_outcome(
                old(host)@.ledger,
                old(host)@.context,
                admin,
                milestone_index,
                elapsed_seconds,
                total_seconds,
            ).result matches Ok(step) && step.value.first != 0 ==> old(host)@.ledger.credits_fit(
                old(host)@.ledger.instance.job->0,
            ),
        ensures
            old(host)@.comes_to(
                final(host)@,
                r,
                Self::admin_override_streaming_release_outcome(
                    old(host)@.ledger,
                    old(host)@.context,
                    admin,
                    milestone_index,
                    elapsed_seconds,
                    total_seconds,
                ),
            ),
    {
        Self::require_admin(host, admin)?;
        let meta = Self::load_job_meta(host)?;
        if !meta.funded {
            return Err(Error::NotFunded);
        }
        let milestone = Self::load_job_milestone(host, &meta, milestone_index)?;
        if milestone.status != MilestoneStatus::Disputed {
            return Err(Error::InvalidStatus);
        }
        let remaining: i128 = milestone.remaining()?;
        Self::require_time_extension_signers(host);
        let split = Self::stream_split(remaining, elapsed_seconds, total_seconds)?;
        if host.balance <= 0 {
            return Err(Error::InvalidAmount);
        }
        Self::record_time_extension(host, remaining, elapsed_seconds, total_seconds, &split);
        let contract = host.contract;
        let client_refund: i128 = Self::capped(host, split.second);
        let freelancer_cap: i128 = host.balance - client_refund;
        let freelancer_payout: i128 = if split.first <= freelancer_cap {
            split.first
        } else {
            freelancer_cap
        };
        Self::pay_split(host, &meta, client_refund, freelancer_payout);
        Self::settle_split(host, &meta, milestone_index, &milestone, freelancer_payout);
        host.publish(
            Event::AdminOverrideStreamingRelease(
                AdminOverrideStreamingReleaseEvent {
                    admin,
                    contract_id: contract,
                    milestone_index,
                    client: meta.client,
                    freelancer: meta.freelancer,
                    token: meta.token,
                    client_refund,
                    freelancer_payout,
                },
            ),
        );
        Ok(RatioSplit { first: freelancer_payout, second: client_refund })
    }
}

} // verus!
