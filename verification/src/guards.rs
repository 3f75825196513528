//! Reading the ledger, and the checks that endpoints begin with.

use vstd::prelude::*;

use crate::arith::MilestoneEscrow;
use crate::host::{
    Action, Context, Host, HostView, InstanceView, LedgerView, PersistentView, TemporaryView,
};
use crate::types::{Address, Error, JobMeta, Milestone};

verus! {

impl Milestone {
    /// What is still held for the milestone.
    pub open spec fn unpaid(self) -> int {
        self.amount - self.released_amount
    }

    /// Whether something is still held, and it is representable.
    pub open spec fn owes(self) -> bool {
        0 < self.unpaid() <= i128::MAX
    }

    /// What is still held for the milestone. Refused where that is nothing, or
    /// not representable.
    pub fn remaining(&self) -> (r: Result<i128, Error>)
        ensures
            r == (if self.owes() {
                Ok(self.unpaid() as i128)
            } else {
                Err(Error::InvalidAmount)
            }),
            r is Ok <==> self.released_amount < self.amount && self.amount - self.released_amount
                <= i128::MAX,
            r matches Ok(left) ==> self.released_amount + left == self.amount,
    {
        match self.amount.checked_sub(self.released_amount) {
            Some(remaining) => if remaining > 0 {
                Ok(remaining)
            } else {
                Err(Error::InvalidAmount)
            },
            None => Err(Error::InvalidAmount),
        }
    }
}

impl Context {
    /// Whether an address cannot take part in a job: it is a zero address, or
    /// the contract itself.
    pub open spec fn unfit(self, address: Address) -> bool {
        address.spec_is_zero() || address == self.contract
    }

    /// A payment out of the escrow.
    pub open spec fn pay(self, token: Address, to: Address, amount: int) -> Action {
        Action::Transfer { token, from: self.contract, to, amount: amount as i128 }
    }

    /// A payment out of the escrow, if there is anything to pay.
    pub open spec fn pay_if_any(self, token: Address, to: Address, amount: int) -> Seq<Action> {
        if amount > 0 {
            seq![self.pay(token, to, amount)]
        } else {
            Seq::empty()
        }
    }

    /// As much of a sum as the contract can pay.
    pub open spec fn capped(self, amount: int) -> int {
        if amount <= self.balance {
            amount
        } else {
            self.balance as int
        }
    }
}

impl LedgerView {
    pub open spec fn milestone(self, index: u32) -> Option<Milestone> {
        crate::table::lookup(self.persistent.milestones, index)
    }

    /// The milestone of a number that is in range.
    pub open spec fn job_milestone(self, meta: JobMeta, index: u32) -> Option<Milestone> {
        if index < meta.milestone_count {
            self.milestone(index)
        } else {
            None
        }
    }

    /// The reputation of an address; one that was never credited has none.
    pub open spec fn reputation(self, address: Address) -> u32 {
        match crate::table::lookup(self.persistent.reputation, address) {
            Some(n) => n,
            None => 0,
        }
    }

    /// By how much the deadline of a milestone was put off. A value that has
    /// not expired counts before one that does not expire.
    pub open spec fn time_extension(self, index: u32) -> u32 {
        match crate::table::lookup(self.temporary.time_ext, index) {
            Some(n) => n,
            None => match crate::table::lookup(self.persistent.time_ext, index) {
                Some(n) => n,
                None => 0,
            },
        }
    }

    /// When a milestone was delivered. Where the note of it has expired, the
    /// milestone itself says.
    pub open spec fn delivered_at(self, index: u32, milestone: Milestone) -> u64 {
        match crate::table::lookup(self.temporary.delivered_at, index) {
            Some(time) => time,
            None => milestone.delivered_at,
        }
    }

    /// When the freelancer may claim a milestone.
    pub open spec fn deadline(self, meta: JobMeta, index: u32, milestone: Milestone) -> int {
        self.delivered_at(index, milestone) + meta.auto_release_seconds + self.time_extension(index)
    }

    pub open spec fn with_instance(self, instance: InstanceView) -> LedgerView {
        LedgerView { instance, ..self }
    }

    pub open spec fn with_persistent(self, persistent: PersistentView) -> LedgerView {
        LedgerView { persistent, ..self }
    }

    pub open spec fn with_temporary(self, temporary: TemporaryView) -> LedgerView {
        LedgerView { temporary, ..self }
    }

    pub open spec fn with_milestone(self, index: u32, milestone: Milestone) -> LedgerView {
        self.with_persistent(
            PersistentView {
                milestones: self.persistent.milestones.insert(index, milestone),
                ..self.persistent
            },
        )
    }

    /// The ledger once a milestone is noted as paid in full.
    pub open spec fn with_released_note(self, index: u32) -> LedgerView {
        self.with_temporary(
            TemporaryView {
                milestone_released: self.temporary.milestone_released.insert(index, true),
                ..self.temporary
            },
        )
    }

    /// The ledger once an address has gained a point of reputation.
    pub open spec fn with_credit(self, address: Address) -> LedgerView {
        self.with_persistent(
            PersistentView {
                reputation: self.persistent.reputation.insert(
                    address,
                    (self.reputation(address) + 1) as u32,
                ),
                ..self.persistent
            },
        )
    }

    /// The ledger once both parties have gained a point of reputation.
    pub open spec fn with_credits(self, meta: JobMeta) -> LedgerView {
        self.with_credit(meta.client).with_credit(meta.freelancer)
    }

    /// Whether the counters of both parties have room for another point.
    pub open spec fn credits_fit(self, meta: JobMeta) -> bool {
        &&& self.reputation(meta.client) < u32::MAX
        &&& self.with_credit(meta.client).reputation(meta.freelancer) < u32::MAX
    }

    /// Whether the emergency freeze is on.
    pub open spec fn frozen(self) -> bool {
        crate::host::is_set(self.instance.emergency_paused)
    }

    /// Whether the admin has paused the escrow.
    pub open spec fn admin_paused(self) -> bool {
        crate::host::is_set(self.instance.paused)
    }

    /// Whether both parties have agreed to cancel.
    pub open spec fn cancelled(self) -> bool {
        crate::host::is_set(self.instance.cancel_lock)
    }

    /// What an escrow that is frozen or cancelled answers.
    pub open spec fn frozen_error(self) -> Option<Error> {
        if self.frozen() {
            Some(Error::Paused)
        } else if self.cancelled() {
            Some(Error::EscrowLocked)
        } else {
            None
        }
    }

    /// What an escrow that is amid some other operation answers.
    pub open spec fn busy_error(self) -> Option<Error> {
        if crate::host::is_set(self.instance.tax_withholding_execution_lock) {
            Some(Error::TaxWithholdingInProgress)
        } else if crate::host::is_set(self.instance.platform_fee_allocation_lock) {
            Some(Error::PlatformFeeAllocationInProgress)
        } else if crate::host::is_set(self.instance.emergency_pause_lock) {
            Some(Error::EmergencyPauseInProgress)
        } else if crate::host::is_set(self.instance.time_ext_execution_lock) {
            Some(Error::TimeExtInProgress)
        } else if crate::host::is_set(self.instance.payment_streaming_execution_lock) {
            Some(Error::PaymentStreamingInProgress)
        } else {
            None
        }
    }

    /// What the endpoints for the parties of a job answer while the escrow is
    /// paused, frozen, cancelled or busy.
    pub open spec fn closed_error(self) -> Option<Error> {
        if self.admin_paused() {
            Some(Error::Paused)
        } else {
            match self.frozen_error() {
                Some(error) => Some(error),
                None => self.busy_error(),
            }
        }
    }

    /// What an address that claims to be the admin is answered, by one copy
    /// of the stored admin.
    pub open spec fn admin_error(stored: Option<Address>, admin: Address) -> Option<Error> {
        match stored {
            None => Some(Error::NotInitialized),
            Some(stored) => if stored == admin {
                None
            } else {
                Some(Error::Unauthorized)
            },
        }
    }
}

impl MilestoneEscrow {
    /// The error of a check, as a result.
    pub open spec fn checked(error: Option<Error>) -> Result<(), Error> {
        match error {
            Some(error) => Err(error),
            None => Ok(()),
        }
    }

    /// What a missing entry is answered.
    pub open spec fn found<T>(entry: Option<T>, error: Error) -> Result<T, Error> {
        match entry {
            Some(entry) => Ok(entry),
            None => Err(error),
        }
    }

    pub(crate) fn require_admin(host: &mut Host, admin: Address) -> (r: Result<(), Error>)
        ensures
            final(host)@ == (HostView { auths: old(host)@.auths.push(admin), ..old(host)@ }),
            r == Self::checked(
                LedgerView::admin_error(old(host)@.ledger.persistent.admin, admin),
            ),
    {
        host.require_auth(admin);
        match host.ledger.persistent.admin {
            None => Err(Error::NotInitialized),
            Some(stored) => if stored == admin {
                Ok(())
            } else {
                Err(Error::Unauthorized)
            },
        }
    }

    pub(crate) fn require_admin_from_instance(host: &mut Host, admin: Address) -> (r: Result<
        (),
        Error,
    >)
        ensures
            final(host)@ == (HostView { auths: old(host)@.auths.push(admin), ..old(host)@ }),
            r == Self::checked(LedgerView::admin_error(old(host)@.ledger.instance.admin, admin)),
    {
        host.require_auth(admin);
        match host.ledger.instance.admin {
            None => Err(Error::NotInitialized),
            Some(stored) => if stored == admin {
                Ok(())
            } else {
                Err(Error::Unauthorized)
            },
        }
    }

    pub(crate) fn load_job_meta(host: &Host) -> (r: Result<JobMeta, Error>)
        ensures
            r == Self::found(host@.ledger.instance.job, Error::NotInitialized),
    {
        match host.ledger.instance.job {
            Some(meta) => Ok(meta),
            None => Err(Error::NotInitialized),
        }
    }

    pub(crate) fn load_milestone(host: &Host, index: u32) -> (r: Result<Milestone, Error>)
        ensures
            r == Self::found(host@.ledger.milestone(index), Error::InvalidMilestone),
    {
        match host.ledger.persistent.milestones.get(index) {
            Some(milestone) => Ok(milestone),
            None => Err(Error::InvalidMilestone),
        }
    }

    /// The milestone of a number that has to be in range.
    pub(crate) fn load_job_milestone(host: &Host, meta: &JobMeta, index: u32) -> (r: Result<
        Milestone,
        Error,
    >)
        ensures
            r == Self::found(
                host@.ledger.job_milestone(*meta, index),
                Error::InvalidMilestone,
            ),
    {
        if index >= meta.milestone_count {
            return Err(Error::InvalidMilestone);
        }
        Self::load_milestone(host, index)
    }

    pub(crate) fn load_time_extension(host: &Host, index: u32) -> (r: u32)
        ensures
            r == host@.ledger.time_extension(index),
    {
        match host.ledger.temporary.time_ext.get(index) {
            Some(extension) => extension,
            None => match host.ledger.persistent.time_ext.get(index) {
                Some(extension) => extension,
                None => 0,
            },
        }
    }

    /// When the freelancer may claim a milestone, if that is representable.
    pub(crate) fn claim_deadline(
        host: &Host,
        meta: &JobMeta,
        index: u32,
        milestone: &Milestone,
    ) -> (r: Result<u64, Error>)
        ensures
            ({
                let deadline = host@.ledger.deadline(*meta, index, *milestone);
                r == (if deadline <= u64::MAX {
                    Ok(deadline as u64)
                } else {
                    Err(Error::InvalidAmount)
                })
            }),
    {
        let delivered_at: u64 = match host.ledger.temporary.delivered_at.get(index) {
            Some(time) => time,
            None => milestone.delivered_at,
        };
        let extension: u32 = Self::load_time_extension(host, index);
        match delivered_at.checked_add(meta.auto_release_seconds) {
            Some(deadline) => match deadline.checked_add(extension as u64) {
                Some(deadline) => Ok(deadline),
                None => Err(Error::InvalidAmount),
            },
            None => Err(Error::InvalidAmount),
        }
    }

    /// Refuses while the escrow is frozen or cancelled.
    pub(crate) fn ensure_not_paused(host: &Host) -> (r: Result<(), Error>)
        ensures
            r == Self::checked(host@.ledger.frozen_error()),
    {
        if crate::host::flag_set(host.ledger.instance.emergency_paused) {
            return Err(Error::Paused);
        }
        if crate::host::flag_set(host.ledger.instance.cancel_lock) {
            return Err(Error::EscrowLocked);
        }
        Ok(())
    }

    /// Refuses while the admin has paused the escrow.
    pub(crate) fn assert_not_paused(host: &Host) -> (r: Result<(), Error>)
        ensures
            r == (if host@.ledger.admin_paused() {
                Err(Error::Paused)
            } else {
                Ok(())
            }),
    {
        if crate::host::flag_set(host.ledger.instance.paused) {
            return Err(Error::Paused);
        }
        Ok(())
    }

    /// Refuses while some other operation is under way.
    pub(crate) fn assert_idle(host: &Host) -> (r: Result<(), Error>)
        ensures
            r == Self::checked(host@.ledger.busy_error()),
    {
        let instance = &host.ledger.instance;
        if crate::host::flag_set(instance.tax_withholding_execution_lock) {
            return Err(Error::TaxWithholdingInProgress);
        }
        if crate::host::flag_set(instance.platform_fee_allocation_lock) {
            return Err(Error::PlatformFeeAllocationInProgress);
        }
        if crate::host::flag_set(instance.emergency_pause_lock) {
            return Err(Error::EmergencyPauseInProgress);
        }
        if crate::host::flag_set(instance.time_ext_execution_lock) {
            return Err(Error::TimeExtInProgress);
        }
        if crate::host::flag_set(instance.payment_streaming_execution_lock) {
            return Err(Error::PaymentStreamingInProgress);
        }
        Ok(())
    }

    /// Refuses while the escrow is paused, frozen, cancelled or busy.
    pub(crate) fn ensure_open(host: &Host) -> (r: Result<(), Error>)
        ensures
            r == Self::checked(host@.ledger.closed_error()),
    {
        Self::assert_not_paused(host)?;
        Self::ensure_not_paused(host)?;
        Self::assert_idle(host)
    }

    /// Gives an address a point of reputation.
    pub(crate) fn increment_reputation(host: &mut Host, address: Address)
        requires
            old(host)@.ledger.reputation(address) < u32::MAX,
        ensures
            final(host)@ == (HostView {
                ledger: old(host)@.ledger.with_credit(address),
                ..old(host)@
            }),
    {
        let current: u32 = match host.ledger.persistent.reputation.get(address) {
            Some(n) => n,
            None => 0,
        };
        host.ledger.persistent.reputation.set(address, current + 1);
    }

    /// Gives both parties a point of reputation.
    pub(crate) fn credit_parties(host: &mut Host, meta: &JobMeta)
        requires
            old(host)@.ledger.credits_fit(*meta),
        ensures
            final(host)@ == (HostView {
                ledger: old(host)@.ledger.with_credits(*meta),
                ..old(host)@
            }),
    {
        Self::increment_reputation(host, meta.client);
        Self::increment_reputation(host, meta.freelancer);
    }

    /// Whether the counters of both parties of the job have room for another
    /// point; so too where there is no job.
    pub fn has_room_for_credits(host: &Host) -> (r: bool)
        ensures
            r == (host@.ledger.instance.job matches Some(meta) ==> host@.ledger.credits_fit(meta)),
            r <==> host@.ledger.instance.job is None || crate::rules::room_for(
                host@.ledger.persistent.reputation,
                host@.ledger.instance.job->0.client,
                host@.ledger.instance.job->0.freelancer,
            ),
    {
        match host.ledger.instance.job {
            None => true,
            Some(meta) => {
                let client: u32 = match host.ledger.persistent.reputation.get(meta.client) {
                    Some(n) => n,
                    None => 0,
                };
                let freelancer: u32 = match host.ledger.persistent.reputation.get(
                    meta.freelancer,
                ) {
                    Some(n) => n,
                    None => 0,
                };
                if client == u32::MAX {
                    false
                } else if meta.client == meta.freelancer {
                    client + 1 < u32::MAX
                } else {
                    freelancer < u32::MAX
                }
            },
        }
    }

    /// Whether an address cannot take part in a job.
    pub(crate) fn is_unfit(host: &Host, address: Address) -> (r: bool)
        ensures
            r == host@.context.unfit(address),
    {
        address.is_zero() || address == host.contract
    }

    /// As much of a sum as the contract can pay.
    pub(crate) fn capped(host: &Host, amount: i128) -> (r: i128)
        ensures
            r == host@.context.capped(amount as int),
    {
        if amount <= host.balance {
            amount
        } else {
            host.balance
        }
    }
}

} // verus!
