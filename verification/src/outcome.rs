//! What a call comes to.

use vstd::prelude::*;

use crate::events::Event;
use crate::host::{Action, HostView, LedgerView};
use crate::types::{Address, Error};

verus! {

/// What an accepted call does.
#[verifier::ext_equal]
pub struct Step<T> {
    /// What it returns.
    pub value: T,
    /// What is stored afterwards.
    pub ledger: LedgerView,
    /// What the host is asked to do.
    pub actions: Seq<Action>,
    /// What is published.
    pub events: Seq<Event>,
}

/// What a call comes to: who has to have signed it, and whether it is accepted.
#[verifier::ext_equal]
pub struct Outcome<T> {
    pub auths: Seq<Address>,
    pub result: Result<Step<T>, Error>,
}

impl<T> Outcome<T> {
    /// A call that is refused once the given addresses have signed.
    pub open spec fn refuse(auths: Seq<Address>, error: Error) -> Outcome<T> {
        Outcome { auths, result: Err(error) }
    }

    /// A call that is accepted once the given addresses have signed.
    pub open spec fn accept(
        auths: Seq<Address>,
        value: T,
        ledger: LedgerView,
        actions: Seq<Action>,
        events: Seq<Event>,
    ) -> Outcome<T> {
        Outcome { auths, result: Ok(Step { value, ledger, actions, events }) }
    }

    /// A calculation: its result is announced, or it is refused, and nothing
    /// is asked of the host.
    pub open spec fn announce(
        auths: Seq<Address>,
        result: Result<T, Error>,
        ledger: LedgerView,
        event: spec_fn(T) -> Event,
    ) -> Outcome<T> {
        match result {
            Ok(value) => Outcome::accept(auths, value, ledger, Seq::empty(), seq![event(value)]),
            Err(error) => Outcome::refuse(auths, error),
        }
    }

    /// Whether the call is refused with an error.
    pub open spec fn refused_with(self, error: Error) -> bool {
        self.result matches Err(given) && given == error
    }

    /// Whether the call is refused as two others are, if those are refused
    /// alike.
    pub open spec fn unmoved_by(self, a: Outcome<T>, b: Outcome<T>) -> bool {
        a.result is Err && a.result == b.result && a.auths == b.auths ==> self.result == a.result
            && self.auths == a.auths
    }

    /// Whether the call is accepted only from someone in a role, who has signed
    /// it first of all.
    pub open spec fn reserved_for(self, role: Option<Address>, who: Address) -> bool {
        self.result is Ok ==> role == Some(who) && self.auths.len() > 0 && self.auths[0] == who
    }
}

impl HostView {
    /// Whether a call that began here, ended at `after` and returned `result`
    /// came to `outcome`.
    ///
    /// A refused call leaves what is stored as it was, and neither asks for
    /// anything nor publishes anything.
    pub open spec fn comes_to<T>(
        self,
        after: HostView,
        result: Result<T, Error>,
        outcome: Outcome<T>,
    ) -> bool {
        &&& after.context == self.context
        &&& after.auths =~= self.auths + outcome.auths
        &&& match outcome.result {
            Ok(step) => {
                &&& result == Ok::<T, Error>(step.value)
                &&& after.ledger =~= step.ledger
                &&& after.actions =~= self.actions + step.actions
                &&& after.events =~= self.events + step.events
            },
            Err(error) => {
                &&& result == Err::<T, Error>(error)
                &&& after.ledger =~= self.ledger
                &&& after.actions =~= self.actions
                &&& after.events =~= self.events
            },
        }
    }
}

} // verus!
