//! Taxes that are withheld from milestones.

use vstd::prelude::*;

use crate::arith::MilestoneEscrow;
use crate::events::{
    AdminOverrideTaxRefundEvent, AdminOverrideTaxReleaseEvent, AdminOverrideTaxSplitRefundEvent,
    Event, TaxWithholdingAppliedEvent, TaxWithholdingDeductionsEvent,
    TaxWithholdingSplitRefundEvent,
};
use crate::host::{Context, Host, HostView, LedgerView, PersistentView};
use crate::outcome::Outcome;
use crate::types::{
    Address, Error, JobMeta, Milestone, MilestoneStatus, RatioSplit, RefundAllocation,
    TaxWithholdingRecord, BPS_DENOMINATOR, BPS_SCALE,
};

verus! {

impl LedgerView {
    /// What is recorded as withheld from a milestone.
    pub open spec fn withholding(self, index: u32) -> Option<TaxWithholdingRecord> {
        crate::table::lookup(self.persistent.tax_withholding, index)
    }

    /// The ledger once a withholding is settled.
    pub open spec fn without_withholding(self, index: u32) -> LedgerView {
        self.with_persistent(
            PersistentView {
                tax_withholding: self.persistent.tax_withholding.remove(index),
                ..self.persistent
            },
        )
    }
}

impl MilestoneEscrow {
    /// What is withheld of an amount that was split by a tax rate.
    pub open spec fn tax_record(gross_amount: i128, tax_rate_bps: u32, split: RatioSplit) -> TaxWithholdingRecord {
        TaxWithholdingRecord {
            gross_amount,
            tax_amount: split.first,
            net_amount: split.second,
            tax_rate_bps,
        }
    }

    pub open spec fn tax_withholding_deductions_outcome(
        l: LedgerView,
        c: Context,
        index: u32,
        tax_rate_bps: u32,
    ) -> Outcome<TaxWithholdingRecord> {
        if crate::host::is_set(l.instance.tax_withholding_execution_lock) {
            Outcome::refuse(Seq::empty(), Error::TaxWithholdingInProgress)
        } else {
            match l.instance.job {
                None => Outcome::refuse(Seq::empty(), Error::NotInitialized),
                Some(meta) => {
                    let signed = seq![meta.client, meta.freelancer];
                    if !meta.funded {
                        Outcome::refuse(signed, Error::NotFunded)
                    } else if index >= meta.milestone_count {
                        Outcome::refuse(signed, Error::InvalidMilestone)
                    } else if tax_rate_bps > BPS_SCALE {
                        Outcome::refuse(signed, Error::InvalidRatio)
                    } else {
                        match l.milestone(index) {
                            None => Outcome::refuse(signed, Error::InvalidMilestone),
                            Some(m) => if !m.status.is_open() {
                                Outcome::refuse(signed, Error::InvalidStatus)
                            } else if c.balance <= 0 || !m.owes() {
                                Outcome::refuse(signed, Error::InvalidAmount)
                            } else {
                                let gross_amount = m.unpaid() as i128;
                                match Self::split_result(
                                    gross_amount,
                                    tax_rate_bps as i128,
                                    BPS_DENOMINATOR,
                                ) {
                                    Err(error) => Outcome::refuse(signed, error),
                                    Ok(split) => {
                                        let record = Self::tax_record(
                                            gross_amount,
                                            tax_rate_bps,
                                            split,
                                        );
                                        Outcome::accept(
                                            signed,
                                            record,
                                            l.with_persistent(
                                                PersistentView {
                                                    tax_withholding:
                                                        l.persistent.tax_withholding.insert(
                                                        index,
                                                        record,
                                                    ),
                                                    ..l.persistent
                                                },
                                            ),
                                            Seq::empty(),
                                            seq![
                                                Event::TaxWithholdingApplied(
                                                    TaxWithholdingAppliedEvent {
                                                        contract_id: c.contract,
                                                        milestone_index: index,
                                                        gross_amount,
                                                        tax_amount: record.tax_amount,
                                                        net_amount: record.net_amount,
                                                        tax_rate_bps,
                                                    },
                                                ),
                                            ],
                                        )
                                    },
                                }
                            },
                        }
                    }
                },
            }
        }
    }

    /// Records what is withheld from a milestone, with the consent of both
    /// parties. The tax is rounded to the nearest unit.
    pub fn tax_withholding_deductions(host: &mut Host, milestone_index: u32, tax_rate_bps: u32) -> (r:
        Result<TaxWithholdingRecord, Error>)
        ensures
            old(host)@.comes_to(
                final(host)@,
                r,
                Self::tax_withholding_deductions_outcome(
                    old(host)@.ledger,
                    old(host)@.context,
                    milestone_index,
                    tax_rate_bps,
                ),
            ),
            r matches Ok(record) ==> record.tax_amount + record.net_amount == record.gross_amount
                && 0 <= record.tax_amount <= record.gross_amount,
    {
        if crate::host::flag_set(host.ledger.instance.tax_withholding_execution_lock) {
            return Err(Error::TaxWithholdingInProgress);
        }
        let meta = Self::load_job_meta(host)?;
        host.require_auth(meta.client);
        host.require_auth(meta.freelancer);
        if !meta.funded {
            return Err(Error::NotFunded);
        }
        if milestone_index >= meta.milestone_count {
            return Err(Error::InvalidMilestone);
        }
        if tax_rate_bps > BPS_SCALE {
            return Err(Error::InvalidRatio);
        }
        let milestone = Self::load_milestone(host, milestone_index)?;
        if !milestone.status.is_open() {
            return Err(Error::InvalidStatus);
        }
        if host.balance <= 0 {
            return Err(Error::InvalidAmount);
        }
        let gross_amount: i128 = milestone.remaining()?;
        let split = Self::split_round_nearest(gross_amount, tax_rate_bps as i128, BPS_DENOMINATOR)?;
        let record = TaxWithholdingRecord {
            gross_amount,
            tax_amount: split.first,
            net_amount: split.second,
            tax_rate_bps,
        };
        let contract = host.contract;
        host.ledger.persistent.tax_withholding.set(milestone_index, record);
        host.publish(
            Event::TaxWithholdingApplied(
                TaxWithholdingAppliedEvent {
                    contract_id: contract,
                    milestone_index,
                    gross_amount,
                    tax_amount: record.tax_amount,
                    net_amount: record.net_amount,
                    tax_rate_bps,
                },
            ),
        );
        Ok(record)
    }

    pub open spec fn tax_withholding_split_refund_outcome(
        l: LedgerView,
        gross_amount: i128,
        tax_amount: i128,
        client_refund_bps: u32,
        freelancer_payout_bps: u32,
    ) -> Outcome<RefundAllocation> {
        Outcome::announce(
            Seq::empty(),
            Self::withholding_refund_result(
                gross_amount,
                tax_amount,
                client_refund_bps,
                freelancer_payout_bps,
            ),
            l,
            |a: RefundAllocation|
                Event::TaxWithholdingSplitRefund(
                    TaxWithholdingSplitRefundEvent {
                        gross_amount,
                        tax_amount,
                        net_amount: (gross_amount - tax_amount) as i128,
                        client_refund: a.client_refund,
                        freelancer_payout: a.freelancer_payout,
                        client_refund_bps: a.client_refund_bps,
                        freelancer_payout_bps: a.freelancer_payout_bps,
                    },
                ),
        )
    }

    /// Computes how a taxed amount is split.
    pub fn tax_withholding_split_refund(
        host: &mut Host,
        gross_amount: i128,
        tax_amount: i128,
        client_refund_bps: u32,
        freelancer_payout_bps: u32,
    ) -> (r: Result<RefundAllocation, Error>)
        ensures
            old(host)@.comes_to(
                final(host)@,
                r,
                Self::tax_withholding_split_refund_outcome(
                    old(host)@.ledger,
                    gross_amount,
                    tax_amount,
                    client_refund_bps,
                    freelancer_payout_bps,
                ),
            ),
            r matches Ok(a) ==> a.client_refund + a.freelancer_payout == gross_amount - tax_amount,
    {
        let allocation = Self::allocate_withholding_refund(
            gross_amount,
            tax_amount,
            client_refund_bps,
            freelancer_payout_bps,
        )?;
        host.publish(
            Event::TaxWithholdingSplitRefund(
                TaxWithholdingSplitRefundEvent {
                    gross_amount,
                    tax_amount,
                    net_amount: gross_amount - tax_amount,
                    client_refund: allocation.client_refund,
                    freelancer_payout: allocation.freelancer_payout,
                    client_refund_bps: allocation.client_refund_bps,
                    freelancer_payout_bps: allocation.freelancer_payout_bps,
                },
            ),
        );
        Ok(allocation)
    }

    /// The milestone of a funded job that is not settled yet.
    pub open spec fn unsettled(l: LedgerView, meta: JobMeta, index: u32) -> Result<Milestone, Error> {
        match l.job_milestone(meta, index) {
            None => Err(Error::InvalidMilestone),
            Some(m) => if m.status.is_terminal() {
                Err(Error::InvalidStatus)
            } else {
                Ok(m)
            },
        }
    }

    pub open spec fn admin_override_tax_release_outcome(
        l: LedgerView,
        c: Context,
        admin: Address,
        index: u32,
    ) -> Outcome<()> {
        let signed = seq![admin];
        if l.persistent.admin is None {
            Outcome::refuse(Seq::empty(), Error::NotInitialized)
        } else if l.persistent.admin != Some(admin) {
            Outcome::refuse(signed, Error::Unauthorized)
        } else {
            match l.instance.job {
                None => Outcome::refuse(signed, Error::NotInitialized),
                Some(meta) => if !meta.funded {
                    Outcome::refuse(signed, Error::NotFunded)
                } else if index >= meta.milestone_count {
                    Outcome::refuse(signed, Error::InvalidMilestone)
                } else {
                    match (l.withholding(index), Self::unsettled(l, meta, index)) {
                        (None, _) => Outcome::refuse(signed, Error::InvalidStatus),
                        (_, Err(error)) => Outcome::refuse(signed, error),
                        (Some(record), Ok(m)) => if record.net_amount <= 0 {
                            Outcome::refuse(signed, Error::InvalidAmount)
                        } else {
                            Outcome::accept(
                                signed,
                                (),
                                l.with_milestone(
                                    index,
                                    m.settled(MilestoneStatus::Released),
                                ).without_withholding(index),
                                seq![
                                    c.pay(meta.token, meta.freelancer, record.net_amount as int),
                                ],
                                seq![
                                    Event::AdminOverrideTaxRelease(
                                        AdminOverrideTaxReleaseEvent {
                                            admin,
                                            contract_id: c.contract,
                                            milestone_index: index,
                                            freelancer: meta.freelancer,
                                            token: meta.token,
                                            net_amount: record.net_amount,
                                            tax_amount: record.tax_amount,
                                        },
                                    ),
                                ],
                            )
                        },
                    }
                },
            }
        }
    }

    /// Finds the milestone that an override settles, whatever it still holds.
    fn load_unsettled(host: &Host, meta: &JobMeta, index: u32) -> (r: Result<Milestone, Error>)
        ensures
            r == Self::unsettled(host@.ledger, *meta, index),
    {
        let milestone = Self::load_job_milestone(host, meta, index)?;
        if milestone.status.is_terminal() {
            return Err(Error::InvalidStatus);
        }
        Ok(milestone)
    }

    /// Pays the freelancer what was recorded as the net amount of a milestone.
    pub fn admin_override_tax_release(host: &mut Host, admin: Address, milestone_index: u32) -> (r:
        Result<(), Error>)
        ensures
            old(host)@.comes_to(
                final(host)@,
                r,
                Self::admin_override_tax_release_outcome(
                    old(host)@.ledger,
                    old(host)@.context,
                    admin,
                    milestone_index,
                ),
            ),
    {
        if host.ledger.persistent.admin.is_none() {
            return Err(Error::NotInitialized);
        }
        Self::require_admin(host, admin)?;
        let meta = Self::load_job_meta(host)?;
        if !meta.funded {
            return Err(Error::NotFunded);
        }
        if milestone_index >= meta.milestone_count {
            return Err(Error::InvalidMilestone);
        }
        let record = match host.ledger.persistent.tax_withholding.get(milestone_index) {
            Some(record) => record,
            None => {
                return Err(Error::InvalidStatus);
            },
        };
        let milestone = Self::load_unsettled(host, &meta, milestone_index)?;
        if record.net_amount <= 0 {
            return Err(Error::InvalidAmount);
        }
        let contract = host.contract;
        host.ledger.persistent.milestones.set(
            milestone_index,
            Milestone {
                released_amount: milestone.amount,
                status: MilestoneStatus::Released,
                ..milestone
            },
        );
        host.ledger.persistent.tax_withholding.remove(milestone_index);
        host.transfer(meta.token, contract, meta.freelancer, record.net_amount);
        host.publish(
            Event::AdminOverrideTaxRelease(
                AdminOverrideTaxReleaseEvent {
                    admin,
                    contract_id: contract,
                    milestone_index,
                    freelancer: meta.freelancer,
                    token: meta.token,
                    net_amount: record.net_amount,
                    tax_amount: record.tax_amount,
                },
            ),
        );
        Ok(())
    }

    /// What undoing a withholding finds: what was recorded, the job and the
    /// milestone.
    pub open spec fn withholding_settlement(l: LedgerView, admin: Address, index: u32) -> Result<
        (TaxWithholdingRecord, JobMeta, Milestone),
        Error,
    > {
        if let Some(error) = LedgerView::admin_error(l.persistent.admin, admin) {
            Err(error)
        } else {
            match (l.withholding(index), l.instance.job) {
                (None, _) => Err(Error::InvalidStatus),
                (_, None) => Err(Error::NotInitialized),
                (Some(record), Some(meta)) => if !meta.funded {
                    Err(Error::NotFunded)
                } else {
                    match Self::unsettled(l, meta, index) {
                        Err(error) => Err(error),
                        Ok(m) => if record.gross_amount <= 0 {
                            Err(Error::InvalidAmount)
                        } else {
                            Ok((record, meta, m))
                        },
                    }
                },
            }
        }
    }

    /// The checks of both ways to undo a withholding.
    fn check_withholding_settlement(host: &mut Host, admin: Address, index: u32) -> (r: Result<
        (TaxWithholdingRecord, JobMeta, Milestone),
        Error,
    >)
        ensures
            final(host)@ == (HostView { auths: old(host)@.auths.push(admin), ..old(host)@ }),
            r == Self::withholding_settlement(old(host)@.ledger, admin, index),
    {
        Self::require_admin(host, admin)?;
        let record = match host.ledger.persistent.tax_withholding.get(index) {
            Some(record) => record,
            None => {
                return Err(Error::InvalidStatus);
            },
        };
        let meta = Self::load_job_meta(host)?;
        if !meta.funded {
            return Err(Error::NotFunded);
        }
        let milestone = Self::load_unsettled(host, &meta, index)?;
        if record.gross_amount <= 0 {
            return Err(Error::InvalidAmount);
        }
        Ok((record, meta, milestone))
    }

    pub open spec fn admin_override_tax_refund_outcome(
        l: LedgerView,
        c: Context,
        admin: Address,
        index: u32,
    ) -> Outcome<()> {
        let signed = seq![admin];
        match Self::withholding_settlement(l, admin, index) {
            Err(error) => Outcome::refuse(signed, error),
            Ok((record, meta, m)) => Outcome::accept(
                signed,
                (),
                l.with_milestone(
                    index,
                    m.settled(MilestoneStatus::Refunded),
                ).without_withholding(index),
                seq![c.pay(meta.token, meta.client, record.gross_amount as int)],
                seq![
                    Event::AdminOverrideTaxRefund(
                        AdminOverrideTaxRefundEvent {
                            admin,
                            contract_id: c.contract,
                            milestone_index: index,
                            client: meta.client,
                            token: meta.token,
                            gross_amount: record.gross_amount,
                        },
                    ),
                ],
            ),
        }
    }

    /// Returns to the client what was recorded as the gross amount of a
    /// milestone.
    pub fn admin_override_tax_refund(host: &mut Host, admin: Address, milestone_index: u32) -> (r:
        Result<(), Error>)
        ensures
            old(host)@.comes_to(
                final(host)@,
                r,
                Self::admin_override_tax_refund_outcome(
                    old(host)@.ledger,
                    old(host)@.context,
                    admin,
                    milestone_index,
                ),
            ),
    {
        let (record, meta, milestone) = Self::check_withholding_settlement(
            host,
            admin,
            milestone_index,
        )?;
        let contract = host.contract;
        host.ledger.persistent.milestones.set(
            milestone_index,
            Milestone {
                released_amount: milestone.amount,
                status: MilestoneStatus::Refunded,
                ..milestone
            },
        );
        host.ledger.persistent.tax_withholding.remove(milestone_index);
        host.transfer(meta.token, contract, meta.client, record.gross_amount);
        host.publish(
            Event::AdminOverrideTaxRefund(
                AdminOverrideTaxRefundEvent {
                    admin,
                    contract_id: contract,
                    milestone_index,
                    client: meta.client,
                    token: meta.token,
                    gross_amount: record.gross_amount,
                },
            ),
        );
        Ok(())
    }

    pub open spec fn admin_override_tax_split_refund_outcome(
        l: LedgerView,
        c: Context,
        admin: Address,
        index: u32,
        client_refund_bps: u32,
        freelancer_payout_bps: u32,
    ) -> Outcome<()> {
        let signed = seq![admin];
        match Self::withholding_settlement(l, admin, index) {
            Err(error) => Outcome::refuse(signed, error),
            Ok((record, meta, m)) => match Self::withholding_refund_result(
                record.gross_amount,
                record.tax_amount,
                client_refund_bps,
                freelancer_payout_bps,
            ) {
                Err(error) => Outcome::refuse(signed, error),
                Ok(a) => {
                    let released = m.released_amount + a.client_refund + a.freelancer_payout;
                    if released > i128::MAX {
                        Outcome::refuse(signed, Error::InvalidAmount)
                    } else {
                        Outcome::accept(
                            signed,
                            (),
                            l.with_milestone(
                                index,
                                Milestone {
                                    released_amount: released as i128,
                                    status: Self::split_status(a.freelancer_payout as int),
                                    ..m
                                },
                            ).without_withholding(index),
                            c.pay_if_any(meta.token, meta.client, a.client_refund as int)
                                + c.pay_if_any(
                                meta.token,
                                meta.freelancer,
                                a.freelancer_payout as int,
                            ),
                            seq![
                                Event::AdminOverrideTaxSplitRefund(
                                    AdminOverrideTaxSplitRefundEvent {
                                        admin,
                                        contract_id: c.contract,
                                        milestone_index: index,
                                        client: meta.client,
                                        freelancer: meta.freelancer,
                                        token: meta.token,
                                        gross_amount: record.gross_amount,
                                        tax_amount: record.tax_amount,
                                        client_refund: a.client_refund,
                                        freelancer_payout: a.freelancer_payout,
                                        client_refund_bps: a.client_refund_bps,
                                        freelancer_payout_bps: a.freelancer_payout_bps,
                                    },
                                ),
                            ],
                        )
                    }
                },
            },
        }
    }

    /// Splits what was recorded as the net amount of a milestone between the
    /// parties.
    pub fn admin_override_tax_split_refund(
        host: &mut Host,
        admin: Address,
        milestone_index: u32,
        client_refund_bps: u32,
        freelancer_payout_bps: u32,
    ) -> (r: Result<(), Error>)
        ensures
            old(host)@.comes_to(
                final(host)@,
                r,
                Self::admin_override_tax_split_refund_outcome(
                    old(host)@.ledger,
                    old(host)@.context,
                    admin,
                    milestone_index,
                    client_refund_bps,
                    freelancer_payout_bps,
                ),
            ),
    {
        let (record, meta, milestone) = Self::check_withholding_settlement(
            host,
            admin,
            milestone_index,
        )?;
        let allocation = Self::allocate_withholding_refund(
            record.gross_amount,
            record.tax_amount,
            client_refund_bps,
            freelancer_payout_bps,
        )?;
        let released_amount: i128 = match milestone.released_amount.checked_add(
            allocation.client_refund,
        ) {
            Some(sum) => match sum.checked_add(allocation.freelancer_payout) {
                Some(released_amount) => released_amount,
                None => {
                    return Err(Error::InvalidAmount);
                },
            },
            None => {
                return Err(Error::InvalidAmount);
            },
        };
        let status = if allocation.freelancer_payout == 0 {
            MilestoneStatus::Refunded
        } else {
            MilestoneStatus::Released
        };
        let contract = host.contract;
        host.ledger.persistent.milestones.set(
            milestone_index,
            Milestone { released_amount, status, ..milestone },
        );
        host.ledger.persistent.tax_withholding.remove(milestone_index);
        Self::pay_split(host, &meta, allocation.client_refund, allocation.freelancer_payout);
        host.publish(
            Event::AdminOverrideTaxSplitRefund(
                AdminOverrideTaxSplitRefundEvent {
                    admin,
                    contract_id: contract,
                    milestone_index,
                    client: meta.client,
                    freelancer: meta.freelancer,
                    token: meta.token,
                    gross_amount: record.gross_amount,
                    tax_amount: record.tax_amount,
                    client_refund: allocation.client_refund,
                    freelancer_payout: allocation.freelancer_payout,
                    client_refund_bps: allocation.client_refund_bps,
                    freelancer_payout_bps: allocation.freelancer_payout_bps,
                },
            ),
        );
        Ok(())
    }

    /// The tax on an amount, rounded down.
    pub open spec fn tax_on(gross: int, tax_rate_bps: u32) -> int {
        gross * tax_rate_bps / (BPS_SCALE as int)
    }

    pub open spec fn admin_tax_withholding_deductions_outcome(
        l: LedgerView,
        c: Context,
        admin: Address,
        index: u32,
        tax_rate_bps: u32,
    ) -> Outcome<(i128, i128, i128)> {
        let signed = seq![admin];
        if let Some(error) = LedgerView::admin_error(l.persistent.admin, admin) {
            Outcome::refuse(signed, error)
        } else {
            match l.instance.job {
                None => Outcome::refuse(signed, Error::NotInitialized),
                Some(meta) => if !meta.funded {
                    Outcome::refuse(signed, Error::NotFunded)
                } else {
                    match l.job_milestone(meta, index) {
                        None => Outcome::refuse(signed, Error::InvalidMilestone),
                        Some(m) => if m.amount <= 0 {
                            Outcome::refuse(signed, Error::InvalidAmount)
                        } else if tax_rate_bps > BPS_SCALE {
                            Outcome::refuse(signed, Error::InvalidRatio)
                        } else if c.balance <= 0 || m.amount * tax_rate_bps > i128::MAX {
                            Outcome::refuse(signed, Error::InvalidAmount)
                        } else {
                            let tax = Self::tax_on(m.amount as int, tax_rate_bps);
                            Outcome::announce(
                                signed,
                                Ok((m.amount, tax as i128, (m.amount - tax) as i128)),
                                l,
                                |amounts: (i128, i128, i128)|
                                    Event::TaxWithholdingDeductions(
                                        TaxWithholdingDeductionsEvent {
                                            admin,
                                            contract_id: c.contract,
                                            milestone_index: index,
                                            gross_amount: amounts.0,
                                            tax_amount: amounts.1,
                                            net_amount: amounts.2,
                                            tax_rate_bps,
                                        },
                                    ),
                            )
                        },
                    }
                },
            }
        }
    }

    /// Computes what a milestone would be taxed, for the admin: its gross
    /// amount, the tax rounded down, and the net amount.
    pub fn admin_tax_withholding_deductions(
        host: &mut Host,
        admin: Address,
        milestone_index: u32,
        tax_rate_bps: u32,
    ) -> (r: Result<(i128, i128, i128), Error>)
        ensures
            old(host)@.comes_to(
                final(host)@,
                r,
                Self::admin_tax_withholding_deductions_outcome(
                    old(host)@.ledger,
                    old(host)@.context,
                    admin,
                    milestone_index,
                    tax_rate_bps,
                ),
            ),
            r matches Ok((gross, tax, net)) ==> tax + net == gross && 0 <= tax <= gross,
    {
        Self::require_admin(host, admin)?;
        let meta = Self::load_job_meta(host)?;
        if !meta.funded {
            return Err(Error::NotFunded);
        }
        let milestone = Self::load_job_milestone(host, &meta, milestone_index)?;
        if milestone.amount <= 0 {
            return Err(Error::InvalidAmount);
        }
        if tax_rate_bps > BPS_SCALE {
            return Err(Error::InvalidRatio);
        }
        if host.balance <= 0 {
            return Err(Error::InvalidAmount);
        }
        let gross_amount: i128 = milestone.amount;
        let scaled: i128 = match gross_amount.checked_mul(tax_rate_bps as i128) {
            Some(scaled) => scaled,
            None => {
                return Err(Error::InvalidAmount);
            },
        };
        let tax_amount: i128 = scaled / BPS_DENOMINATOR;
        assert(scaled <= gross_amount * 10_000) by (nonlinear_arith)
            requires
                scaled == gross_amount * tax_rate_bps,
                gross_amount >= 0,
                tax_rate_bps <= 10_000,
        ;
        let net_amount: i128 = gross_amount - tax_amount;
        let contract = host.contract;
        host.publish(
            Event::TaxWithholdingDeductions(
                TaxWithholdingDeductionsEvent {
                    admin,
                    contract_id: contract,
                    milestone_index,
                    gross_amount,
                    tax_amount,
                    net_amount,
                    tax_rate_bps,
                },
            ),
        );
        Ok((gross_amount, tax_amount, net_amount))
    }
}

} // verus!
