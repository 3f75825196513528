//! Splits by how much of a payment has been streamed, or of a deadline used.

use vstd::prelude::*;

use crate::arith::MilestoneEscrow;
use crate::events::{
    Event, MilestoneTimeExtensionEvent, PaymentStreamingConsentEvent, PaymentStreamingEvent,
    TimeExtConsentEvent,
};
use crate::host::{Context, Host, HostView, InstanceView, LedgerView};
use crate::outcome::Outcome;
use crate::types::{Address, Error, RatioSplit};

verus! {

impl LedgerView {
    /// The ledger once no streaming split is under way.
    pub open spec fn without_streaming_lock(self) -> LedgerView {
        self.with_instance(
            InstanceView { payment_streaming_execution_lock: None, ..self.instance },
        )
    }

    /// The ledger once no split by time is under way.
    pub open spec fn without_time_ext_lock(self) -> LedgerView {
        self.with_instance(InstanceView { time_ext_execution_lock: None, ..self.instance })
    }
}

impl MilestoneEscrow {
    /// How a positive amount is split by a ratio.
    pub open spec fn stream_result(total_amount: i128, numerator: i128, denominator: i128) -> Result<
        RatioSplit,
        Error,
    > {
        if total_amount <= 0 {
            Err(Error::InvalidAmount)
        } else {
            Self::split_result(total_amount, numerator, denominator)
        }
    }

    /// Splits a positive amount by a ratio.
    pub(crate) fn stream_split(total_amount: i128, numerator: i128, denominator: i128) -> (r: Result<
        RatioSplit,
        Error,
    >)
        ensures
            r == Self::stream_result(total_amount, numerator, denominator),
            r matches Ok(split) ==> split.first + split.second == total_amount && 0 <= split.first
                <= total_amount,
    {
        if total_amount <= 0 {
            return Err(Error::InvalidAmount);
        }
        Self::split_round_nearest(total_amount, numerator, denominator)
    }

    pub open spec fn payment_streaming_milestones_outcome(
        l: LedgerView,
        total_amount: i128,
        numerator: i128,
        denominator: i128,
    ) -> Outcome<RatioSplit> {
        Outcome::announce(
            Seq::empty(),
            Self::stream_result(total_amount, numerator, denominator),
            l.without_streaming_lock(),
            |split: RatioSplit|
                Event::PaymentStreaming(
                    PaymentStreamingEvent {
                        total_amount,
                        numerator,
                        denominator,
                        streamed_payout: split.first,
                        client_refund: split.second,
                    },
                ),
        )
    }

    /// Computes how much of an amount has been streamed. Anyone may ask.
    pub fn payment_streaming_milestones(
        host: &mut Host,
        total_amount: i128,
        numerator: i128,
        denominator: i128,
    ) -> (r: Result<RatioSplit, Error>)
        ensures
            old(host)@.comes_to(
                final(host)@,
                r,
                Self::payment_streaming_milestones_outcome(
                    old(host)@.ledger,
                    total_amount,
                    numerator,
                    denominator,
                ),
            ),
            r matches Ok(split) ==> split.first + split.second == total_amount,
    {
        let split = Self::stream_split(total_amount, numerator, denominator)?;
        host.ledger.instance.payment_streaming_execution_lock = None;
        host.publish(
            Event::PaymentStreaming(
                PaymentStreamingEvent {
                    total_amount,
                    numerator,
                    denominator,
                    streamed_payout: split.first,
                    client_refund: split.second,
                },
            ),
        );
        Ok(split)
    }

    pub open spec fn payment_streaming_consent_outcome(
        l: LedgerView,
        total_amount: i128,
        numerator: i128,
        denominator: i128,
    ) -> Outcome<RatioSplit> {
        if crate::host::is_set(l.instance.payment_streaming_execution_lock) {
            Outcome::refuse(Seq::empty(), Error::PaymentStreamingInProgress)
        } else if l.admin_paused() || l.frozen() {
            Outcome::refuse(Seq::empty(), Error::Paused)
        } else {
            match l.instance.job {
                None => Outcome::refuse(Seq::empty(), Error::NotInitialized),
                Some(meta) => Outcome::announce(
                    seq![meta.client, meta.freelancer],
                    Self::stream_result(total_amount, numerator, denominator),
                    l.without_streaming_lock(),
                    |split: RatioSplit|
                        Event::PaymentStreamingConsent(
                            PaymentStreamingConsentEvent {
                                client: meta.client,
                                freelancer: meta.freelancer,
                                total_amount,
                                numerator,
                                denominator,
                                streamed_payout: split.first,
                                client_refund: split.second,
                            },
                        ),
                ),
            }
        }
    }

    /// Computes how much of an amount has been streamed, with the consent of
    /// both parties. Nothing is said of the ratio before both have signed.
    pub fn payment_streaming_consent(
        host: &mut Host,
        total_amount: i128,
        numerator: i128,
        denominator: i128,
    ) -> (r: Result<RatioSplit, Error>)
        ensures
            old(host)@.comes_to(
                final(host)@,
                r,
                Self::payment_streaming_consent_outcome(
                    old(host)@.ledger,
                    total_amount,
                    numerator,
                    denominator,
                ),
            ),
            r matches Ok(split) ==> split.first + split.second == total_amount,
    {
        if crate::host::flag_set(host.ledger.instance.payment_streaming_execution_lock) {
            return Err(Error::PaymentStreamingInProgress);
        }
        Self::assert_running(host)?;
        let meta = Self::load_job_meta(host)?;
        host.require_auth(meta.client);
        host.require_auth(meta.freelancer);
        Self::validate_streaming_ratio(total_amount, numerator, denominator)?;
        let split = Self::stream_split(total_amount, numerator, denominator)?;
        host.ledger.instance.payment_streaming_execution_lock = None;
        host.publish(
            Event::PaymentStreamingConsent(
                PaymentStreamingConsentEvent {
                    client: meta.client,
                    freelancer: meta.freelancer,
                    total_amount,
                    numerator,
                    denominator,
                    streamed_payout: split.first,
                    client_refund: split.second,
                },
            ),
        );
        Ok(split)
    }

    /// Who signs for a split by time: the contract, and the parties of the job
    /// if there is one.
    pub open spec fn time_extension_signers(l: LedgerView, c: Context) -> Seq<Address> {
        match l.instance.job {
            None => seq![c.contract],
            Some(meta) => seq![c.contract, meta.client, meta.freelancer],
        }
    }

    /// What is published of a split by time.
    pub open spec fn time_extension_event(
        amount: i128,
        elapsed_seconds: i128,
        total_seconds: i128,
        split: RatioSplit,
    ) -> Event {
        Event::MilestoneTimeExtension(
            MilestoneTimeExtensionEvent {
                amount,
                elapsed_seconds,
                total_seconds,
                freelancer_share: split.first,
                client_refund: split.second,
            },
        )
    }

    pub open spec fn milestone_time_extensions_outcome(
        l: LedgerView,
        c: Context,
        amount: i128,
        elapsed_seconds: i128,
        total_seconds: i128,
    ) -> Outcome<RatioSplit> {
        Outcome::announce(
            Self::time_extension_signers(l, c),
            Self::stream_result(amount, elapsed_seconds, total_seconds),
            l.without_time_ext_lock(),
            |split: RatioSplit|
                Self::time_extension_event(amount, elapsed_seconds, total_seconds, split),
        )
    }

    /// Demands the signatures for a split by time.
    pub(crate) fn require_time_extension_signers(host: &mut Host)
        ensures
            final(host)@ == (HostView {
                auths: old(host)@.auths + Self::time_extension_signers(
                    old(host)@.ledger,
                    old(host)@.context,
                ),
                ..old(host)@
            }),
    {
        let contract = host.contract;
        host.require_auth(contract);
        if let Some(meta) = host.ledger.instance.job {
            host.require_auth(meta.client);
            host.require_auth(meta.freelancer);
        }
        assert(host@.auths =~= old(host)@.auths + Self::time_extension_signers(
            old(host)@.ledger,
            old(host)@.context,
        ));
    }

    /// Publishes a split by time, and leaves no split by time under way.
    pub(crate) fn record_time_extension(
        host: &mut Host,
        amount: i128,
        elapsed_seconds: i128,
        total_seconds: i128,
        split: &RatioSplit,
    )
        ensures
            final(host)@ == (HostView {
                ledger: old(host)@.ledger.without_time_ext_lock(),
                events: old(host)@.events.push(
                    Self::time_extension_event(amount, elapsed_seconds, total_seconds, *split),
                ),
                ..old(host)@
            }),
    {
        host.ledger.instance.time_ext_execution_lock = None;
        host.publish(
            Event::MilestoneTimeExtension(
                MilestoneTimeExtensionEvent {
                    amount,
                    elapsed_seconds,
                    total_seconds,
                    freelancer_share: split.first,
                    client_refund: split.second,
                },
            ),
        );
    }

    /// Splits an amount by how much of an extended deadline has been used.
    pub fn milestone_time_extensions(
        host: &mut Host,
        amount: i128,
        elapsed_seconds: i128,
        total_seconds: i128,
    ) -> (r: Result<RatioSplit, Error>)
        ensures
            old(host)@.comes_to(
                final(host)@,
                r,
                Self::milestone_time_extensions_outcome(
                    old(host)@.ledger,
                    old(host)@.context,
                    amount,
                    elapsed_seconds,
                    total_seconds,
                ),
            ),
            r matches Ok(split) ==> split.first + split.second == amount,
    {
        Self::require_time_extension_signers(host);
        let split = Self::stream_split(amount, elapsed_seconds, total_seconds)?;
        Self::record_time_extension(host, amount, elapsed_seconds, total_seconds, &split);
        Ok(split)
    }

    pub open spec fn time_extensions_consent_outcome(
        l: LedgerView,
        amount: i128,
        elapsed_seconds: i128,
        total_seconds: i128,
    ) -> Outcome<RatioSplit> {
        if amount <= 0 {
            Outcome::refuse(Seq::empty(), Error::InvalidAmount)
        } else if total_seconds <= 0 || !(0 <= elapsed_seconds <= total_seconds) {
            Outcome::refuse(Seq::empty(), Error::InvalidRatio)
        } else if crate::host::is_set(l.instance.time_ext_execution_lock) {
            Outcome::refuse(Seq::empty(), Error::TimeExtInProgress)
        } else if l.admin_paused() || l.frozen() {
            Outcome::refuse(Seq::empty(), Error::Paused)
        } else {
            match l.instance.job {
                None => Outcome::refuse(Seq::empty(), Error::NotInitialized),
                Some(meta) => Outcome::announce(
                    seq![meta.client, meta.freelancer],
                    Self::split_result(amount, elapsed_seconds, total_seconds),
                    l.without_time_ext_lock(),
                    |split: RatioSplit|
                        Event::TimeExtConsent(
                            TimeExtConsentEvent {
                                client: meta.client,
                                freelancer: meta.freelancer,
                                amount,
                                elapsed_seconds,
                                total_seconds,
                                freelancer_share: split.first,
                                client_refund: split.second,
                            },
                        ),
                ),
            }
        }
    }

    /// Splits an amount by how much of an extended deadline has been used, with
    /// the consent of both parties.
    pub fn time_extensions_consent(
        host: &mut Host,
        amount: i128,
        elapsed_seconds: i128,
        total_seconds: i128,
    ) -> (r: Result<RatioSplit, Error>)
        ensures
            old(host)@.comes_to(
                final(host)@,
                r,
                Self::time_extensions_consent_outcome(
                    old(host)@.ledger,
                    amount,
                    elapsed_seconds,
                    total_seconds,
                ),
            ),
            r matches Ok(split) ==> split.first + split.second == amount,
    {
        if amount <= 0 {
            return Err(Error::InvalidAmount);
        }
        if total_seconds <= 0 {
            return Err(Error::InvalidRatio);
        }
        if elapsed_seconds < 0 || elapsed_seconds > total_seconds {
            return Err(Error::InvalidRatio);
        }
        if crate::host::flag_set(host.ledger.instance.time_ext_execution_lock) {
            return Err(Error::TimeExtInProgress);
        }
        Self::assert_running(host)?;
        let meta = Self::load_job_meta(host)?;
        host.require_auth(meta.client);
        host.require_auth(meta.freelancer);
        let split = Self::split_round_nearest(amount, elapsed_seconds, total_seconds)?;
        host.ledger.instance.time_ext_execution_lock = None;
        host.publish(
            Event::TimeExtConsent(
                TimeExtConsentEvent {
                    client: meta.client,
                    freelancer: meta.freelancer,
                    amount,
                    elapsed_seconds,
                    total_seconds,
                    freelancer_share: split.first,
                    client_refund: split.second,
                },
            ),
        );
        Ok(split)
    }
}

} // verus!
