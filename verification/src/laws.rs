//! What holds of every ledger that calls make out of an empty one, and of every
//! call.
//!
//! Every call is orderly: it keeps the ledger sound. And every call pays out no
//! more than was held, with one exception: settling a withholding pays by what
//! is on record, and that may be more than is held where parts of the milestone
//! were paid since.

use vstd::prelude::*;

use crate::arith::MilestoneEscrow;
use crate::host::{Action, Context, LedgerView};
use crate::outcome::Outcome;
use crate::shares::LargestRemainder;
use crate::types::{
    Address, JobMeta, Milestone, MilestoneStatus, TaxWithholdingRecord, BPS_SCALE,
    MAX_WHITELIST_SIZE,
};

verus! {

impl MilestoneStatus {
    /// Where a milestone may go from where it stands.
    pub open spec fn leads_to(self, next: MilestoneStatus) -> bool {
        match self {
            MilestoneStatus::Pending => !(next is PartiallyReleased),
            MilestoneStatus::Delivered => !(next is Pending),
            MilestoneStatus::PartiallyReleased => !(next is Pending || next is Delivered),
            MilestoneStatus::Disputed => next is Disputed || next.is_terminal(),
            MilestoneStatus::Released | MilestoneStatus::Refunded => next == self,
        }
    }
}

impl Milestone {
    /// What is held for the milestone: nothing, once it is settled.
    pub open spec fn held(self) -> int {
        if self.status.is_terminal() {
            0
        } else {
            self.unpaid()
        }
    }

    /// What every stored milestone satisfies: while it is not settled, less was
    /// paid than it is worth.
    ///
    /// Of a settled milestone more may have been paid: settling a withholding
    /// pays by what is on record.
    pub open spec fn sound(self) -> bool {
        &&& self.amount > 0
        &&& 0 <= self.released_amount
        &&& !self.status.is_terminal() ==> self.released_amount < self.amount
    }

    /// What a call may make of a milestone: its amount stays, nothing that was
    /// paid is taken back, and once it is settled it stays as it is.
    pub open spec fn may_become(self, next: Milestone) -> bool {
        &&& next.amount == self.amount
        &&& next.released_amount >= self.released_amount
        &&& self.status.leads_to(next.status)
        &&& self.status.is_terminal() ==> next == self
    }
}

impl TaxWithholdingRecord {
    /// What every recorded withholding satisfies.
    pub open spec fn sound(self) -> bool {
        &&& 0 <= self.tax_amount <= self.gross_amount
        &&& 0 < self.gross_amount
        &&& self.net_amount == self.gross_amount - self.tax_amount
    }
}

impl JobMeta {
    /// What every stored job satisfies.
    pub open spec fn sound(self) -> bool {
        &&& !self.client.is_zero()
        &&& !self.freelancer.is_zero()
        &&& !self.arbiter.is_zero()
        &&& !self.token.is_zero()
        &&& self.auto_release_seconds > 0
        &&& self.milestone_count > 0
    }

    /// What a call may make of a job: its terms stay, and once it is funded it
    /// stays so.
    pub open spec fn may_become(self, next: JobMeta) -> bool {
        next == self || next == (JobMeta { funded: true, ..self })
    }
}

impl LedgerView {
    /// What is held for the first `n` milestones together.
    pub open spec fn held_for(milestones: Map<u32, Milestone>, n: nat) -> int
        decreases n,
    {
        if n == 0 {
            0
        } else {
            Self::held_for(milestones, (n - 1) as nat) + (match crate::table::lookup(
                milestones,
                (n - 1) as u32,
            ) {
                Some(m) => m.held(),
                None => 0,
            })
        }
    }

    /// What is held for the milestones of the job together.
    pub open spec fn held(self) -> int {
        match self.instance.job {
            Some(meta) => Self::held_for(
                self.persistent.milestones,
                meta.milestone_count as nat,
            ),
            None => 0,
        }
    }

    /// What holds of the stored settings.
    pub open spec fn settings_sound(self) -> bool {
        // Both copies of the admin agree.
        &&& self.instance.admin == self.persistent.admin
        // What `initialize` stores is stored together.
        &&& self.instance.job is Some <==> self.instance.admin is Some
        &&& self.instance.job is Some <==> self.instance.version is Some
        &&& self.instance.job is Some <==> self.instance.emergency_paused is Some
        &&& self.instance.job is Some <==> self.instance.platform_fee_allocation is Some
        &&& self.instance.job is Some <==> self.instance.whitelisted_tokens is Some
        // Nobody who takes part is a zero address.
        &&& self.instance.admin matches Some(admin) ==> !admin.is_zero()
        &&& self.persistent.pending_admin_transfer matches Some(p) ==> !p.new_admin.is_zero()
        // Fees and yield are shared out whole.
        &&& self.instance.platform_fee_allocation matches Some(fees)
            ==> MilestoneEscrow::fee_allocation_error(
            fees.client_bps,
            fees.freelancer_bps,
            fees.treasury_bps,
        ) is None
        &&& self.instance.interest_yield_state matches Some(state) ==> state.client_share_bps
            + state.freelancer_share_bps == BPS_SCALE
        &&& self.yield_rate() <= BPS_SCALE
        // The whitelist is never empty, and lists nothing twice.
        &&& self.instance.whitelisted_tokens matches Some(tokens) ==> 0 < tokens.len()
            <= MAX_WHITELIST_SIZE && MilestoneEscrow::distinct(tokens)
        // The signers of the multisig can reach their threshold.
        &&& self.instance.multisig_signers is Some <==> self.instance.multisig_threshold is Some
        &&& self.instance.multisig_signers matches Some(signers)
            ==> MilestoneEscrow::multisig_setup_error(
            signers,
            self.instance.multisig_threshold->0,
        ) is None
        // One party at most waits for the other to agree to cancel.
        &&& self.instance.cancel_approval matches Some(mask) ==> mask == 1 || mask == 2
    }

    /// What holds of the stored job and its milestones.
    pub open spec fn work_sound(self) -> bool {
        &&& match self.instance.job {
            None => {
                &&& self.persistent.milestones == Map::<u32, Milestone>::empty()
                &&& self.persistent.tax_withholding == Map::<u32, TaxWithholdingRecord>::empty()
            },
            Some(meta) => {
                &&& meta.sound()
                // The milestones of the job are stored, and no others.
                &&& forall|i: u32| #[trigger]
                    self.persistent.milestones.contains_key(i) <==> i < meta.milestone_count
                // They make up the total.
                &&& MilestoneEscrow::running_total(
                    self.persistent.milestones,
                    meta.milestone_count as nat,
                ) == Ok::<i128, crate::types::Error>(meta.total_amount)
                // Nothing happens to them before the job is funded.
                &&& !meta.funded ==> forall|i: u32| #[trigger]
                    self.persistent.milestones.contains_key(i)
                        ==> self.persistent.milestones[i] == Milestone::fresh(
                        self.persistent.milestones[i].amount,
                    )
            },
        }
        &&& forall|i: u32| #[trigger]
            self.persistent.milestones.contains_key(i) ==> self.persistent.milestones[i].sound()
        // What is withheld is withheld of a milestone, and no more than it is
        // worth.
        &&& forall|i: u32| #[trigger]
            self.persistent.tax_withholding.contains_key(i) ==> {
                &&& self.persistent.tax_withholding[i].sound()
                &&& self.persistent.milestones.contains_key(i)
                &&& self.persistent.tax_withholding[i].gross_amount
                    <= self.persistent.milestones[i].amount
            }
    }

    /// What holds of every ledger that calls have made out of an empty one.
    pub open spec fn sound(self) -> bool {
        self.settings_sound() && self.work_sound()
    }

    /// Whether an address takes part in the job, or is the admin.
    pub open spec fn takes_part(self, address: Address) -> bool {
        ||| self.persistent.admin == Some(address)
        ||| self.instance.job matches Some(meta) && (address == meta.client || address
            == meta.freelancer || address == meta.arbiter)
    }

    /// Whether the withholding on record of a milestone, if any, is of no more
    /// than the milestone still holds.
    ///
    /// A withholding stays on record while parts of its milestone are paid, and
    /// settling it then pays by what is on record.
    pub open spec fn withholding_up_to_date(self, index: u32) -> bool {
        self.withholding(index) matches Some(record) ==> (self.milestone(index) matches Some(m)
            ==> record.gross_amount <= m.unpaid())
    }

    /// What a call may make of this ledger.
    pub open spec fn may_become(self, next: LedgerView) -> bool {
        &&& next.sound()
        // The terms of the job stay.
        &&& self.instance.job matches Some(meta) ==> next.instance.job is Some && meta.may_become(
            next.instance.job->0,
        )
        // Its milestones only move on.
        &&& forall|i: u32| #[trigger]
            self.persistent.milestones.contains_key(i) ==> next.persistent.milestones.contains_key(
                i,
            ) && self.persistent.milestones[i].may_become(next.persistent.milestones[i])
        // Nobody loses reputation.
        &&& (self.instance.job matches Some(meta) ==> self.credits_fit(meta)) ==> forall|a: Address|
            #[trigger] next.reputation(a) >= self.reputation(a)
        // The version only goes up, one by one.
        &&& self.instance.version is Some ==> next.instance.version is Some && (
        MilestoneEscrow::version_of(next) == MilestoneEscrow::version_of(self)
            || MilestoneEscrow::version_of(next) == MilestoneEscrow::version_of(self) + 1)
    }
}

impl Context {
    /// What the contract pays out by some actions.
    pub open spec fn paid_out(self, actions: Seq<Action>) -> int
        decreases actions.len(),
    {
        if actions.len() == 0 {
            0
        } else {
            self.paid_out(actions.drop_last()) + (match actions.last() {
                Action::Transfer { from, amount, .. } => if from == self.contract {
                    amount as int
                } else {
                    0
                },
                Action::UpdateWasm { .. } => 0,
            })
        }
    }

    /// Whether an action moves a positive amount of the settlement token
    /// between the contract and a party of the job, or no tokens at all.
    pub open spec fn proper(self, meta: JobMeta, action: Action) -> bool {
        match action {
            Action::Transfer { token, from, to, amount } => {
                &&& token == meta.token
                &&& amount > 0
                &&& {
                    ||| from == self.contract && (to == meta.client || to == meta.freelancer)
                    ||| from == meta.client && to == self.contract
                }
            },
            Action::UpdateWasm { .. } => true,
        }
    }
}

impl<T> Outcome<T> {
    /// What holds of every call on a sound ledger.
    ///
    /// It leaves a sound ledger, on which everything has only moved on, and for
    /// which no more is held. It moves nothing but the settlement token, and
    /// only to and from parties of the job. And if it asks the host for
    /// anything, someone who takes part has signed it.
    pub open spec fn orderly(self, l: LedgerView, c: Context) -> bool {
        self.result matches Ok(step) ==> {
            &&& l.may_become(step.ledger)
            &&& step.ledger.held() <= l.held()
            &&& forall|i: int|
                0 <= i < step.actions.len() ==> l.instance.job is Some && c.proper(
                    l.instance.job->0,
                    #[trigger] step.actions[i],
                )
            &&& step.actions.len() > 0 ==> self.auths.len() > 0 && l.takes_part(self.auths[0])
        }
    }

    /// What holds of every call on a sound ledger, but for those that settle a
    /// withholding which is not up to date: it is orderly, and what it pays out
    /// was held for milestones before and is not held any more.
    pub open spec fn lawful(self, l: LedgerView, c: Context) -> bool {
        &&& self.orderly(l, c)
        &&& self.result matches Ok(step) ==> c.paid_out(step.actions) + step.ledger.held()
            <= l.held()
    }
}

/// A ledger on which nothing is stored is sound.
pub proof fn empty_ledger_is_sound()
    ensures
        crate::host::empty_ledger().sound(),
{
}

/// What a sound ledger holds is something, and with one milestone replaced by
/// what may become of it the total of all stays.
proof fn lemma_replaced(ms: Map<u32, Milestone>, n: nat, i: u32, m: Milestone)
    requires
        ms.contains_key(i),
        n <= u32::MAX,
        m.amount == ms[i].amount,
    ensures
        LedgerView::held_for(ms.insert(i, m), n) == LedgerView::held_for(ms, n) + (if i < n {
            m.held() - ms[i].held()
        } else {
            0
        }),
        MilestoneEscrow::running_total(ms.insert(i, m), n) == MilestoneEscrow::running_total(ms, n),
    decreases n,
{
    if n > 0 {
        lemma_replaced(ms, (n - 1) as nat, i, m);
    }
}

proof fn lemma_no_payment(c: Context)
    ensures
        c.paid_out(Seq::empty()) == 0,
{
}

pub proof fn lemma_one_payment(c: Context, action: Action)
    ensures
        c.paid_out(seq![action]) == (match action {
            Action::Transfer { from, amount, .. } => if from == c.contract {
                amount as int
            } else {
                0
            },
            Action::UpdateWasm { .. } => 0,
        }),
{
    assert(seq![action].drop_last() =~= Seq::<Action>::empty());
    assert(c.paid_out(Seq::empty()) == 0);
}

pub proof fn lemma_two_payments(c: Context, token: Address, a: Address, x: int, b: Address, y: int)
    requires
        0 <= x <= i128::MAX,
        0 <= y <= i128::MAX,
    ensures
        c.paid_out(c.pay_if_any(token, a, x) + c.pay_if_any(token, b, y)) == x + y,
{
    let p = c.pay_if_any(token, a, x);
    let q = c.pay_if_any(token, b, y);
    lemma_no_payment(c);
    lemma_one_payment(c, c.pay(token, a, x));
    if y > 0 {
        assert((p + q).drop_last() =~= p);
        assert((p + q).last() == c.pay(token, b, y));
    } else {
        assert(p + q =~= p);
    }
}

pub proof fn lemma_cancel_masks()
    ensures
        0u32 | 1 == 1,
        0u32 | 2 == 2,
        1u32 | 2 == 3,
        2u32 | 1 == 3,
        1u32 & 1 == 1,
        2u32 & 2 == 2,
        1u32 & !1u32 == 0,
        2u32 & !2u32 == 0,
        1u32 & 2 == 0,
        2u32 & 1 == 0,
        0u32 & 1 == 0,
        0u32 & 2 == 0,
{
    assert(0u32 | 1 == 1) by (bit_vector);
    assert(0u32 | 2 == 2) by (bit_vector);
    assert(1u32 | 2 == 3) by (bit_vector);
    assert(2u32 | 1 == 3) by (bit_vector);
    assert(1u32 & 1 == 1) by (bit_vector);
    assert(2u32 & 2 == 2) by (bit_vector);
    assert(1u32 & !1u32 == 0) by (bit_vector);
    assert(2u32 & !2u32 == 0) by (bit_vector);
    assert(1u32 & 2 == 0) by (bit_vector);
    assert(2u32 & 1 == 0) by (bit_vector);
    assert(0u32 & 1 == 0) by (bit_vector);
    assert(0u32 & 2 == 0) by (bit_vector);
}

/// [`MilestoneEscrow::fund`] is lawful, as [`Outcome::lawful`] says.
pub proof fn fund_is_lawful(l: LedgerView, c: Context, client: Address)
    requires
        l.sound(),
    ensures
        MilestoneEscrow::fund_outcome(l, c, client).lawful(l, c),
{
    let outcome = MilestoneEscrow::fund_outcome(l, c, client);
    if let Ok(step) = outcome.result {
        lemma_one_payment(c, step.actions[0]);
    }
}

/// [`MilestoneEscrow::mark_delivered`] is lawful, as [`Outcome::lawful`] says.
pub proof fn mark_delivered_is_lawful(l: LedgerView, c: Context, freelancer: Address, index: u32)
    requires
        l.sound(),
    ensures
        MilestoneEscrow::mark_delivered_outcome(l, c, freelancer, index).lawful(l, c),
{
    let outcome = MilestoneEscrow::mark_delivered_outcome(l, c, freelancer, index);
    if let Ok(step) = outcome.result {
        let meta = l.instance.job->0;
        let next = step.ledger.persistent.milestones[index];
        lemma_replaced(l.persistent.milestones, meta.milestone_count as nat, index, next);
        lemma_no_payment(c);
        if step.actions.len() > 0 {
            lemma_one_payment(c, step.actions[0]);
            assert(step.actions =~= seq![step.actions[0]]);
        }
    }
}

/// [`MilestoneEscrow::extend_milestone_deadline`] is lawful, as [`Outcome::lawful`] says.
pub proof fn extend_milestone_deadline_is_lawful(
    l: LedgerView,
    c: Context,
    client: Address,
    index: u32,
    extra_seconds: u32,
)
    requires
        l.sound(),
    ensures
        MilestoneEscrow::extend_milestone_deadline_outcome(
            l,
            c,
            client,
            index,
            extra_seconds,
        ).lawful(l, c),
{
    lemma_no_payment(c);
}

/// [`MilestoneEscrow::claim_auto_release`] is lawful, as [`Outcome::lawful`] says.
pub proof fn claim_auto_release_is_lawful(
    l: LedgerView,
    c: Context,
    freelancer: Address,
    index: u32,
)
    requires
        l.sound(),
    ensures
        MilestoneEscrow::claim_auto_release_outcome(l, c, freelancer, index).lawful(l, c),
{
    let outcome = MilestoneEscrow::claim_auto_release_outcome(l, c, freelancer, index);
    if let Ok(step) = outcome.result {
        let meta = l.instance.job->0;
        let next = step.ledger.persistent.milestones[index];
        lemma_replaced(l.persistent.milestones, meta.milestone_count as nat, index, next);
        lemma_no_payment(c);
        if step.actions.len() > 0 {
            lemma_one_payment(c, step.actions[0]);
            assert(step.actions =~= seq![step.actions[0]]);
        }
    }
}

/// [`MilestoneEscrow::approve_partial`] is lawful, as [`Outcome::lawful`] says.
pub proof fn approve_partial_is_lawful(
    l: LedgerView,
    c: Context,
    client: Address,
    index: u32,
    amount: i128,
)
    requires
        l.sound(),
    ensures
        MilestoneEscrow::approve_partial_outcome(l, c, client, index, amount).lawful(l, c),
{
    let outcome = MilestoneEscrow::approve_partial_outcome(l, c, client, index, amount);
    if let Ok(step) = outcome.result {
        let meta = l.instance.job->0;
        let next = step.ledger.persistent.milestones[index];
        lemma_replaced(l.persistent.milestones, meta.milestone_count as nat, index, next);
        lemma_no_payment(c);
        if step.actions.len() > 0 {
            lemma_one_payment(c, step.actions[0]);
            assert(step.actions =~= seq![step.actions[0]]);
        }
    }
}

/// [`MilestoneEscrow::approve_milestone`] is lawful, as [`Outcome::lawful`] says.
pub proof fn approve_milestone_is_lawful(l: LedgerView, c: Context, client: Address, index: u32)
    requires
        l.sound(),
    ensures
        MilestoneEscrow::approve_milestone_outcome(l, c, client, index).lawful(l, c),
{
    let outcome = MilestoneEscrow::approve_milestone_outcome(l, c, client, index);
    if let Ok(step) = outcome.result {
        let meta = l.instance.job->0;
        let next = step.ledger.persistent.milestones[index];
        lemma_replaced(l.persistent.milestones, meta.milestone_count as nat, index, next);
        lemma_no_payment(c);
        if step.actions.len() > 0 {
            lemma_one_payment(c, step.actions[0]);
            assert(step.actions =~= seq![step.actions[0]]);
        }
    }
}

/// [`MilestoneEscrow::raise_dispute`] is lawful, as [`Outcome::lawful`] says.
pub proof fn raise_dispute_is_lawful(l: LedgerView, c: Context, caller: Address, index: u32)
    requires
        l.sound(),
    ensures
        MilestoneEscrow::raise_dispute_outcome(l, c, caller, index).lawful(l, c),
{
    let outcome = MilestoneEscrow::raise_dispute_outcome(l, c, caller, index);
    if let Ok(step) = outcome.result {
        let meta = l.instance.job->0;
        let next = step.ledger.persistent.milestones[index];
        lemma_replaced(l.persistent.milestones, meta.milestone_count as nat, index, next);
        lemma_no_payment(c);
        if step.actions.len() > 0 {
            lemma_one_payment(c, step.actions[0]);
            assert(step.actions =~= seq![step.actions[0]]);
        }
    }
}

/// [`MilestoneEscrow::resolve_dispute`] is lawful, as [`Outcome::lawful`] says.
pub proof fn resolve_dispute_is_lawful(
    l: LedgerView,
    c: Context,
    arbiter: Address,
    index: u32,
    release_to_freelancer: bool,
)
    requires
        l.sound(),
    ensures
        MilestoneEscrow::resolve_dispute_outcome(
            l,
            c,
            arbiter,
            index,
            release_to_freelancer,
        ).lawful(l, c),
{
    let outcome = MilestoneEscrow::resolve_dispute_outcome(
        l,
        c,
        arbiter,
        index,
        release_to_freelancer,
    );
    if let Ok(step) = outcome.result {
        let meta = l.instance.job->0;
        let next = step.ledger.persistent.milestones[index];
        lemma_replaced(l.persistent.milestones, meta.milestone_count as nat, index, next);
        lemma_no_payment(c);
        if step.actions.len() > 0 {
            lemma_one_payment(c, step.actions[0]);
            assert(step.actions =~= seq![step.actions[0]]);
        }
    }
}

/// [`MilestoneEscrow::cancel_escrow`] is lawful, as [`Outcome::lawful`] says.
pub proof fn cancel_escrow_is_lawful(l: LedgerView, c: Context, caller: Address)
    requires
        l.sound(),
    ensures
        MilestoneEscrow::cancel_escrow_outcome(l, c, caller).lawful(l, c),
{
    lemma_cancel_masks();
    lemma_no_payment(c);
}

/// [`MilestoneEscrow::revoke_cancel_approval`] is lawful, as [`Outcome::lawful`] says.
pub proof fn revoke_cancel_approval_is_lawful(l: LedgerView, c: Context, caller: Address)
    requires
        l.sound(),
    ensures
        MilestoneEscrow::revoke_cancel_approval_outcome(l, c, caller).lawful(l, c),
{
    lemma_cancel_masks();
    lemma_no_payment(c);
}

/// [`MilestoneEscrow::admin_override_release`] is lawful, as [`Outcome::lawful`] says.
pub proof fn admin_override_release_is_lawful(l: LedgerView, c: Context, admin: Address, index: u32)
    requires
        l.sound(),
    ensures
        MilestoneEscrow::admin_override_release_outcome(l, c, admin, index).lawful(l, c),
{
    let outcome = MilestoneEscrow::admin_override_release_outcome(l, c, admin, index);
    if let Ok(step) = outcome.result {
        let meta = l.instance.job->0;
        let next = step.ledger.persistent.milestones[index];
        lemma_replaced(l.persistent.milestones, meta.milestone_count as nat, index, next);
        lemma_no_payment(c);
        if step.actions.len() > 0 {
            lemma_one_payment(c, step.actions[0]);
            assert(step.actions =~= seq![step.actions[0]]);
        }
    }
}

/// [`MilestoneEscrow::admin_override_refund`] is lawful, as [`Outcome::lawful`] says.
pub proof fn admin_override_refund_is_lawful(l: LedgerView, c: Context, admin: Address, index: u32)
    requires
        l.sound(),
    ensures
        MilestoneEscrow::admin_override_refund_outcome(l, c, admin, index).lawful(l, c),
{
    let outcome = MilestoneEscrow::admin_override_refund_outcome(l, c, admin, index);
    if let Ok(step) = outcome.result {
        let meta = l.instance.job->0;
        let next = step.ledger.persistent.milestones[index];
        lemma_replaced(l.persistent.milestones, meta.milestone_count as nat, index, next);
        lemma_no_payment(c);
        if step.actions.len() > 0 {
            lemma_one_payment(c, step.actions[0]);
            assert(step.actions =~= seq![step.actions[0]]);
        }
    }
}

/// [`MilestoneEscrow::multisig_admin_override_release`] is lawful, as [`Outcome::lawful`] says.
pub proof fn multisig_admin_override_release_is_lawful(
    l: LedgerView,
    c: Context,
    admin: Address,
    index: u32,
)
    requires
        l.sound(),
    ensures
        MilestoneEscrow::multisig_admin_override_release_outcome(l, c, admin, index).lawful(l, c),
{
    let outcome = MilestoneEscrow::multisig_admin_override_release_outcome(l, c, admin, index);
    if let Ok(step) = outcome.result {
        let meta = l.instance.job->0;
        let next = step.ledger.persistent.milestones[index];
        lemma_replaced(l.persistent.milestones, meta.milestone_count as nat, index, next);
        lemma_no_payment(c);
        if step.actions.len() > 0 {
            lemma_one_payment(c, step.actions[0]);
            assert(step.actions =~= seq![step.actions[0]]);
        }
    }
}

/// [`MilestoneEscrow::multisig_admin_override_refund`] is lawful, as [`Outcome::lawful`] says.
pub proof fn multisig_admin_override_refund_is_lawful(
    l: LedgerView,
    c: Context,
    admin: Address,
    index: u32,
)
    requires
        l.sound(),
    ensures
        MilestoneEscrow::multisig_admin_override_refund_outcome(l, c, admin, index).lawful(l, c),
{
    let outcome = MilestoneEscrow::multisig_admin_override_refund_outcome(l, c, admin, index);
    if let Ok(step) = outcome.result {
        let meta = l.instance.job->0;
        let next = step.ledger.persistent.milestones[index];
        lemma_replaced(l.persistent.milestones, meta.milestone_count as nat, index, next);
        lemma_no_payment(c);
        if step.actions.len() > 0 {
            lemma_one_payment(c, step.actions[0]);
            assert(step.actions =~= seq![step.actions[0]]);
        }
    }
}

/// [`MilestoneEscrow::transfer_admin`] is lawful, as [`Outcome::lawful`] says.
pub proof fn transfer_admin_is_lawful(
    l: LedgerView,
    c: Context,
    current_admin: Address,
    new_admin: Address,
)
    requires
        l.sound(),
    ensures
        MilestoneEscrow::transfer_admin_outcome(l, current_admin, new_admin).lawful(l, c),
{
    lemma_no_payment(c);
}

/// [`MilestoneEscrow::propose_admin_transfer`] is lawful, as [`Outcome::lawful`] says.
pub proof fn propose_admin_transfer_is_lawful(
    l: LedgerView,
    c: Context,
    admin: Address,
    new_admin: Address,
    proposal_id: u32,
)
    requires
        l.sound(),
    ensures
        MilestoneEscrow::propose_admin_transfer_outcome(
            l,
            admin,
            new_admin,
            proposal_id,
        ).lawful(l, c),
{
    lemma_no_payment(c);
}

/// [`MilestoneEscrow::execute_admin_transfer`] is lawful, as [`Outcome::lawful`] says.
pub proof fn execute_admin_transfer_is_lawful(l: LedgerView, c: Context)
    requires
        l.sound(),
    ensures
        MilestoneEscrow::execute_admin_transfer_outcome(l).lawful(l, c),
{
    lemma_no_payment(c);
}

/// [`MilestoneEscrow::cancel_admin_transfer_proposal`] is lawful, as [`Outcome::lawful`] says.
pub proof fn cancel_admin_transfer_proposal_is_lawful(l: LedgerView, c: Context, admin: Address)
    requires
        l.sound(),
    ensures
        MilestoneEscrow::cancel_admin_transfer_proposal_outcome(l, admin).lawful(l, c),
{
    lemma_no_payment(c);
}

/// [`MilestoneEscrow::add_whitelisted_token`] is lawful, as [`Outcome::lawful`] says.
pub proof fn add_whitelisted_token_is_lawful(
    l: LedgerView,
    c: Context,
    admin: Address,
    token: Address,
)
    requires
        l.sound(),
    ensures
        MilestoneEscrow::add_whitelisted_token_outcome(l, c, admin, token).lawful(l, c),
{
    lemma_no_payment(c);
}

/// [`MilestoneEscrow::upgrade`] is lawful, as [`Outcome::lawful`] says.
pub proof fn upgrade_is_lawful(l: LedgerView, c: Context, admin: Address, new_wasm_hash: [u8; 32])
    requires
        l.sound(),
    ensures
        MilestoneEscrow::upgrade_outcome(l, admin, new_wasm_hash).lawful(l, c),
{
    let outcome = MilestoneEscrow::upgrade_outcome(l, admin, new_wasm_hash);
    if let Ok(step) = outcome.result {
        lemma_one_payment(c, step.actions[0]);
    }
}

/// [`MilestoneEscrow::emergency_pause`] is lawful, as [`Outcome::lawful`] says.
pub proof fn emergency_pause_is_lawful(
    l: LedgerView,
    c: Context,
    client: Address,
    freelancer: Address,
)
    requires
        l.sound(),
    ensures
        MilestoneEscrow::emergency_pause_outcome(l, c, client, freelancer).lawful(l, c),
{
    lemma_no_payment(c);
}

/// [`MilestoneEscrow::emergency_unpause`] is lawful, as [`Outcome::lawful`] says.
pub proof fn emergency_unpause_is_lawful(l: LedgerView, c: Context, admin: Address)
    requires
        l.sound(),
    ensures
        MilestoneEscrow::emergency_unpause_outcome(l, c, admin).lawful(l, c),
{
    lemma_no_payment(c);
}

/// [`MilestoneEscrow::emergency_pause_admin_override`] is lawful, as [`Outcome::lawful`] says.
pub proof fn emergency_pause_admin_override_is_lawful(
    l: LedgerView,
    c: Context,
    admin: Address,
    paused: bool,
)
    requires
        l.sound(),
    ensures
        MilestoneEscrow::emergency_pause_admin_override_outcome(l, c, admin, paused).lawful(l, c),
{
    lemma_no_payment(c);
}

/// [`MilestoneEscrow::admin_pause_escrow`] is lawful, as [`Outcome::lawful`] says.
pub proof fn admin_pause_escrow_is_lawful(l: LedgerView, c: Context, admin: Address)
    requires
        l.sound(),
    ensures
        MilestoneEscrow::admin_pause_escrow_outcome(l, c, admin).lawful(l, c),
{
    lemma_no_payment(c);
}

/// [`MilestoneEscrow::admin_resume_escrow`] is lawful, as [`Outcome::lawful`] says.
pub proof fn admin_resume_escrow_is_lawful(l: LedgerView, c: Context, admin: Address)
    requires
        l.sound(),
    ensures
        MilestoneEscrow::admin_resume_escrow_outcome(l, c, admin).lawful(l, c),
{
    lemma_no_payment(c);
}

/// [`MilestoneEscrow::set_platform_fee_allocation`] is lawful, as [`Outcome::lawful`] says.
pub proof fn set_platform_fee_allocation_is_lawful(
    l: LedgerView,
    c: Context,
    admin: Address,
    client_bps: u32,
    freelancer_bps: u32,
    treasury_bps: u32,
)
    requires
        l.sound(),
    ensures
        MilestoneEscrow::set_platform_fee_allocation_outcome(
            l,
            admin,
            client_bps,
            freelancer_bps,
            treasury_bps,
        ).lawful(l, c),
{
    lemma_no_payment(c);
}

/// [`MilestoneEscrow::lock_platform_fee_allocation`] is lawful, as [`Outcome::lawful`] says.
pub proof fn lock_platform_fee_allocation_is_lawful(l: LedgerView, c: Context, admin: Address)
    requires
        l.sound(),
    ensures
        MilestoneEscrow::lock_platform_fee_allocation_outcome(l, admin).lawful(l, c),
{
    lemma_no_payment(c);
}

/// [`MilestoneEscrow::pf_alloc_admin_override`] is lawful, as [`Outcome::lawful`] says.
pub proof fn pf_alloc_admin_override_is_lawful(
    l: LedgerView,
    c: Context,
    admin: Address,
    client_bps: u32,
    freelancer_bps: u32,
    treasury_bps: u32,
)
    requires
        l.sound(),
    ensures
        MilestoneEscrow::pf_alloc_admin_override_outcome(
            l,
            c,
            admin,
            client_bps,
            freelancer_bps,
            treasury_bps,
        ).lawful(l, c),
{
    lemma_no_payment(c);
}

/// [`MilestoneEscrow::payment_streaming_milestones`] is lawful, as [`Outcome::lawful`] says.
pub proof fn payment_streaming_milestones_is_lawful(
    l: LedgerView,
    c: Context,
    total_amount: i128,
    numerator: i128,
    denominator: i128,
)
    requires
        l.sound(),
    ensures
        MilestoneEscrow::payment_streaming_milestones_outcome(
            l,
            total_amount,
            numerator,
            denominator,
        ).lawful(l, c),
{
    lemma_no_payment(c);
}

/// [`MilestoneEscrow::payment_streaming_consent`] is lawful, as [`Outcome::lawful`] says.
pub proof fn payment_streaming_consent_is_lawful(
    l: LedgerView,
    c: Context,
    total_amount: i128,
    numerator: i128,
    denominator: i128,
)
    requires
        l.sound(),
    ensures
        MilestoneEscrow::payment_streaming_consent_outcome(
            l,
            total_amount,
            numerator,
            denominator,
        ).lawful(l, c),
{
    lemma_no_payment(c);
}

/// [`MilestoneEscrow::milestone_time_extensions`] is lawful, as [`Outcome::lawful`] says.
pub proof fn milestone_time_extensions_is_lawful(
    l: LedgerView,
    c: Context,
    amount: i128,
    elapsed_seconds: i128,
    total_seconds: i128,
)
    requires
        l.sound(),
    ensures
        MilestoneEscrow::milestone_time_extensions_outcome(
            l,
            c,
            amount,
            elapsed_seconds,
            total_seconds,
        ).lawful(l, c),
{
    lemma_no_payment(c);
}

/// [`MilestoneEscrow::time_extensions_consent`] is lawful, as [`Outcome::lawful`] says.
pub proof fn time_extensions_consent_is_lawful(
    l: LedgerView,
    c: Context,
    amount: i128,
    elapsed_seconds: i128,
    total_seconds: i128,
)
    requires
        l.sound(),
    ensures
        MilestoneEscrow::time_extensions_consent_outcome(
            l,
            amount,
            elapsed_seconds,
            total_seconds,
        ).lawful(l, c),
{
    lemma_no_payment(c);
}

/// [`MilestoneEscrow::set_escrow_interest_yield`] is lawful, as [`Outcome::lawful`] says.
pub proof fn set_escrow_interest_yield_is_lawful(
    l: LedgerView,
    c: Context,
    admin: Address,
    client_share_bps: u32,
    freelancer_share_bps: u32,
)
    requires
        l.sound(),
    ensures
        MilestoneEscrow::set_escrow_interest_yield_outcome(
            l,
            admin,
            client_share_bps,
            freelancer_share_bps,
        ).lawful(l, c),
{
    lemma_no_payment(c);
}

/// [`MilestoneEscrow::set_interest_yield_consent`] is lawful, as [`Outcome::lawful`] says.
pub proof fn set_interest_yield_consent_is_lawful(
    l: LedgerView,
    c: Context,
    admin: Address,
    client_share_bps: u32,
    freelancer_share_bps: u32,
)
    requires
        l.sound(),
    ensures
        MilestoneEscrow::set_interest_yield_consent_outcome(
            l,
            admin,
            client_share_bps,
            freelancer_share_bps,
        ).lawful(l, c),
{
    lemma_no_payment(c);
}

/// [`MilestoneEscrow::lock_escrow_interest_yield`] is lawful, as [`Outcome::lawful`] says.
pub proof fn lock_escrow_interest_yield_is_lawful(l: LedgerView, c: Context, admin: Address)
    requires
        l.sound(),
    ensures
        MilestoneEscrow::lock_escrow_interest_yield_outcome(l, admin).lawful(l, c),
{
    lemma_no_payment(c);
}

/// [`MilestoneEscrow::unlock_escrow_interest_yield`] is lawful, as [`Outcome::lawful`] says.
pub proof fn unlock_escrow_interest_yield_is_lawful(l: LedgerView, c: Context, admin: Address)
    requires
        l.sound(),
    ensures
        MilestoneEscrow::unlock_escrow_interest_yield_outcome(l, admin).lawful(l, c),
{
    lemma_no_payment(c);
}

/// [`MilestoneEscrow::admin_set_yield_rate`] is lawful, as [`Outcome::lawful`] says.
pub proof fn admin_set_yield_rate_is_lawful(
    l: LedgerView,
    c: Context,
    admin: Address,
    rate_bps: u32,
)
    requires
        l.sound(),
    ensures
        MilestoneEscrow::admin_set_yield_rate_outcome(l, admin, rate_bps).lawful(l, c),
{
    lemma_no_payment(c);
}

/// [`MilestoneEscrow::admin_accrue_yield`] is lawful, as [`Outcome::lawful`] says.
pub proof fn admin_accrue_yield_is_lawful(
    l: LedgerView,
    c: Context,
    admin: Address,
    index: u32,
    accrued_amount: i128,
)
    requires
        l.sound(),
    ensures
        MilestoneEscrow::admin_accrue_yield_outcome(l, admin, index, accrued_amount).lawful(l, c),
{
    lemma_no_payment(c);
}

/// [`MilestoneEscrow::multisig_approve`] is lawful, as [`Outcome::lawful`] says.
pub proof fn multisig_approve_is_lawful(
    l: LedgerView,
    c: Context,
    signer: Address,
    proposal_id: u32,
)
    requires
        l.sound(),
    ensures
        MilestoneEscrow::multisig_approve_outcome(l, c, signer, proposal_id).lawful(l, c),
{
    lemma_no_payment(c);
}

/// [`MilestoneEscrow::multisig_lock`] is lawful, as [`Outcome::lawful`] says.
pub proof fn multisig_lock_is_lawful(l: LedgerView, c: Context, admin: Address)
    requires
        l.sound(),
    ensures
        MilestoneEscrow::multisig_lock_outcome(l, admin).lawful(l, c),
{
    lemma_no_payment(c);
}

/// A share that is rounded down is a part of the whole.
pub proof fn lemma_floor_is_a_part(total: int, bps: int)
    requires
        total >= 0,
        0 <= bps <= BPS_SCALE,
    ensures
        0 <= total * bps / (BPS_SCALE as int) <= total,
{
    let p = total * bps;
    assert(0 <= p <= total * 10_000) by (nonlinear_arith)
        requires
            total >= 0,
            0 <= bps <= 10_000,
            p == total * bps,
    ;
}

/// [`MilestoneEscrow::tax_withholding_deductions`] is lawful, as [`Outcome::lawful`] says.
pub proof fn tax_withholding_deductions_is_lawful(
    l: LedgerView,
    c: Context,
    index: u32,
    tax_rate_bps: u32,
)
    requires
        l.sound(),
    ensures
        MilestoneEscrow::tax_withholding_deductions_outcome(l, c, index, tax_rate_bps).lawful(l, c),
{
    lemma_no_payment(c);
    let outcome = MilestoneEscrow::tax_withholding_deductions_outcome(l, c, index, tax_rate_bps);
    if let Ok(step) = outcome.result {
        let m = l.milestone(index)->0;
        MilestoneEscrow::rounded_share_is_a_part(
            m.unpaid(),
            tax_rate_bps as int,
            BPS_SCALE as int,
        );
    }
}

/// What a split settlement makes of a milestone that is in dispute, and what it
/// pays.
proof fn lemma_split_settled(
    l: LedgerView,
    c: Context,
    index: u32,
    refund: int,
    payout: int,
)
    requires
        l.sound(),
        (l.instance.job->0).funded,
        l.milestone(index) is Some,
        !l.milestone(index)->0.status.is_terminal(),
        0 <= refund,
        0 <= payout,
        refund + payout <= l.milestone(index)->0.unpaid(),
    ensures
        ({
            let meta = l.instance.job->0;
            let m = l.milestone(index)->0;
            let next = MilestoneEscrow::split_settled(l, meta, index, m, payout);
            let actions = c.pay_if_any(meta.token, meta.client, refund) + c.pay_if_any(
                meta.token,
                meta.freelancer,
                payout,
            );
            &&& l.may_become(next)
            &&& c.paid_out(actions) + next.held() <= l.held()
            &&& next.held() <= l.held()
            &&& forall|i: int|
                0 <= i < actions.len() ==> c.proper(meta, #[trigger] actions[i])
        }),
{
    let meta = l.instance.job->0;
    let m = l.milestone(index)->0;
    let next = MilestoneEscrow::split_settled(l, meta, index, m, payout);
    lemma_replaced(
        l.persistent.milestones,
        meta.milestone_count as nat,
        index,
        next.persistent.milestones[index],
    );
    lemma_two_payments(c, meta.token, meta.client, refund, meta.freelancer, payout);
}

/// [`MilestoneEscrow::apply_dispute_arbitration_split`] is lawful, as [`Outcome::lawful`] says.
pub proof fn apply_dispute_arbitration_split_is_lawful(
    l: LedgerView,
    c: Context,
    arbiter: Address,
    index: u32,
    client_refund_bps: u32,
)
    requires
        l.sound(),
    ensures
        MilestoneEscrow::apply_dispute_arbitration_split_outcome(
            l,
            c,
            arbiter,
            index,
            client_refund_bps,
        ).lawful(l, c),
{
    let outcome = MilestoneEscrow::apply_dispute_arbitration_split_outcome(
        l,
        c,
        arbiter,
        index,
        client_refund_bps,
    );
    if let Ok(step) = outcome.result {
        let m = l.milestone(index)->0;
        lemma_floor_is_a_part(m.unpaid(), client_refund_bps as int);
        let refund = step.value.client_refund as int;
        let payout = step.value.freelancer_payout as int;
        lemma_split_settled(l, c, index, refund, payout);
        let settled = MilestoneEscrow::split_settled(l, l.instance.job->0, index, m, payout);
        assert(settled.sound());
        assert(step.ledger.persistent == settled.persistent);
        assert(step.ledger.instance == settled.instance);
        assert(step.ledger.sound());
        assert forall|a: Address| #[trigger]
            step.ledger.reputation(a) >= l.reputation(a) || !l.credits_fit(l.instance.job->0) by {
            assert(step.ledger.reputation(a) == settled.reputation(a));
        }
    }
}

/// [`MilestoneEscrow::admin_override_streaming_release`] is lawful, as [`Outcome::lawful`] says.
pub proof fn admin_override_streaming_release_is_lawful(
    l: LedgerView,
    c: Context,
    admin: Address,
    index: u32,
    elapsed_seconds: i128,
    total_seconds: i128,
)
    requires
        l.sound(),
    ensures
        MilestoneEscrow::admin_override_streaming_release_outcome(
            l,
            c,
            admin,
            index,
            elapsed_seconds,
            total_seconds,
        ).lawful(l, c),
{
    let outcome = MilestoneEscrow::admin_override_streaming_release_outcome(
        l,
        c,
        admin,
        index,
        elapsed_seconds,
        total_seconds,
    );
    if let Ok(step) = outcome.result {
        let m = l.milestone(index)->0;
        MilestoneEscrow::rounded_share_is_a_part(
            m.unpaid(),
            elapsed_seconds as int,
            total_seconds as int,
        );
        let unlocked = l.without_time_ext_lock();
        assert(unlocked.sound());
        let payout = step.value.first as int;
        let refund = step.value.second as int;
        lemma_split_settled(unlocked, c, index, refund, payout);
        assert(unlocked.held() == l.held());
        assert(step.ledger == MilestoneEscrow::split_settled(
            unlocked,
            l.instance.job->0,
            index,
            m,
            payout,
        ));
        assert forall|a: Address| #[trigger]
            step.ledger.reputation(a) >= l.reputation(a) || !l.credits_fit(l.instance.job->0) by {
            assert(unlocked.reputation(a) == l.reputation(a));
            assert(unlocked.with_credit((l.instance.job->0).client).reputation(
                (l.instance.job->0).freelancer,
            ) == l.with_credit((l.instance.job->0).client).reputation(
                (l.instance.job->0).freelancer,
            ));
        }
    }
}

/// The total of a job depends only on which milestones are stored and on their
/// amounts.
proof fn lemma_same_total(a: Map<u32, Milestone>, b: Map<u32, Milestone>, n: nat)
    requires
        forall|i: u32| #[trigger] a.contains_key(i) <==> b.contains_key(i),
        forall|i: u32| #[trigger] a.contains_key(i) ==> a[i].amount == b[i].amount,
    ensures
        MilestoneEscrow::running_total(a, n) == MilestoneEscrow::running_total(b, n),
    decreases n,
{
    if n > 0 {
        lemma_same_total(a, b, (n - 1) as nat);
        let i = (n - 1) as u32;
        assert(a.contains_key(i) <==> b.contains_key(i));
    }
}

/// Settled milestones hold nothing.
proof fn lemma_nothing_held(ms: Map<u32, Milestone>, n: nat)
    requires
        n <= u32::MAX,
        forall|i: u32| #[trigger] ms.contains_key(i) && i < n ==> ms[i].status.is_terminal(),
    ensures
        LedgerView::held_for(ms, n) == 0,
    decreases n,
{
    if n > 0 {
        lemma_nothing_held(ms, (n - 1) as nat);
        let i = (n - 1) as u32;
        assert(ms.contains_key(i) ==> ms[i].status.is_terminal());
    }
}

/// Settling all milestones takes what was held for them.
proof fn lemma_all_settled(ms: Map<u32, Milestone>, n: nat, status: MilestoneStatus)
    requires
        n <= u32::MAX,
        status.is_terminal(),
        forall|i: u32| #[trigger] ms.contains_key(i) ==> ms[i].sound(),
        MilestoneEscrow::settle_all(ms, n, status) is Ok,
    ensures
        ({
            let (total, settled) = MilestoneEscrow::settle_all(ms, n, status)->Ok_0;
            &&& total == LedgerView::held_for(ms, n)
            &&& forall|i: u32| #[trigger] settled.contains_key(i) <==> ms.contains_key(i)
            &&& forall|i: u32| #[trigger]
                settled.contains_key(i) ==> {
                    &&& settled[i].sound()
                    &&& ms[i].may_become(settled[i])
                    &&& i < n ==> settled[i].status.is_terminal()
                    &&& i >= n ==> settled[i] == ms[i]
                }
        }),
    decreases n,
{
    if n > 0 {
        lemma_all_settled(ms, (n - 1) as nat, status);
        let i = (n - 1) as u32;
        assert(ms.contains_key(i));
    }
}

/// What settling a cancelled escrow makes of the ledger.
proof fn lemma_cancel_settled(l: LedgerView, c: Context, admin: Address, status: MilestoneStatus)
    requires
        l.sound(),
        status.is_terminal(),
        MilestoneEscrow::cancel_settlement(l, admin, status) is Ok,
    ensures
        ({
            let (meta, total, settled) = MilestoneEscrow::cancel_settlement(
                l,
                admin,
                status,
            )->Ok_0;
            let n = meta.milestone_count as nat;
            &&& l.instance.job == Some(meta)
            &&& total == l.held()
            &&& LedgerView::held_for(settled, n) == 0
            &&& MilestoneEscrow::running_total(settled, n) == MilestoneEscrow::running_total(
                l.persistent.milestones,
                n,
            )
            &&& forall|i: u32| #[trigger]
                settled.contains_key(i) <==> l.persistent.milestones.contains_key(i)
            &&& forall|i: u32| #[trigger]
                settled.contains_key(i) ==> settled[i].sound()
                    && l.persistent.milestones[i].may_become(settled[i])
        }),
{
    let (meta, total, settled) = MilestoneEscrow::cancel_settlement(l, admin, status)->Ok_0;
    let n = meta.milestone_count as nat;
    let ms = l.persistent.milestones;
    lemma_all_settled(ms, n, status);
    assert forall|i: u32| #[trigger] ms.contains_key(i) implies ms[i].amount
        == settled[i].amount by {
        assert(settled.contains_key(i));
    }
    assert forall|i: u32| #[trigger] ms.contains_key(i) <==> settled.contains_key(i) by {
        assert(settled.contains_key(i) <==> ms.contains_key(i));
    }
    lemma_same_total(ms, settled, n);
    lemma_nothing_held(settled, n);
}

/// [`MilestoneEscrow::admin_override_cancel_release`] is lawful, as [`Outcome::lawful`] says.
pub proof fn admin_override_cancel_release_is_lawful(l: LedgerView, c: Context, admin: Address)
    requires
        l.sound(),
    ensures
        MilestoneEscrow::admin_override_cancel_release_outcome(l, c, admin).lawful(l, c),
{
    if let Ok(step) = MilestoneEscrow::admin_override_cancel_release_outcome(l, c, admin).result {
        lemma_cancel_settled(l, c, admin, MilestoneStatus::Released);
        lemma_one_payment(c, step.actions[0]);
        assert forall|i: u32| #[trigger] l.persistent.milestones.contains_key(i) implies {
            &&& step.ledger.persistent.milestones.contains_key(i)
            &&& l.persistent.milestones[i].may_become(step.ledger.persistent.milestones[i])
        } by {
            assert(step.ledger.persistent.milestones.contains_key(i));
        }
    }
}

/// [`MilestoneEscrow::admin_override_cancel_refund`] is lawful, as [`Outcome::lawful`] says.
pub proof fn admin_override_cancel_refund_is_lawful(l: LedgerView, c: Context, admin: Address)
    requires
        l.sound(),
    ensures
        MilestoneEscrow::admin_override_cancel_refund_outcome(l, c, admin).lawful(l, c),
{
    if let Ok(step) = MilestoneEscrow::admin_override_cancel_refund_outcome(l, c, admin).result {
        lemma_cancel_settled(l, c, admin, MilestoneStatus::Refunded);
        lemma_one_payment(c, step.actions[0]);
        assert forall|i: u32| #[trigger] l.persistent.milestones.contains_key(i) implies {
            &&& step.ledger.persistent.milestones.contains_key(i)
            &&& l.persistent.milestones[i].may_become(step.ledger.persistent.milestones[i])
        } by {
            assert(step.ledger.persistent.milestones.contains_key(i));
        }
    }
}

/// Settling a cancelled escrow pays out all that is held, and leaves nothing
/// held.
pub proof fn cancelling_empties_the_escrow(l: LedgerView, c: Context, admin: Address)
    requires
        l.sound(),
    ensures
        MilestoneEscrow::admin_override_cancel_release_outcome(l, c, admin).result matches Ok(step)
            ==> step.ledger.held() == 0 && c.paid_out(step.actions) == l.held(),
        MilestoneEscrow::admin_override_cancel_refund_outcome(l, c, admin).result matches Ok(step)
            ==> step.ledger.held() == 0 && c.paid_out(step.actions) == l.held(),
{
    if let Ok(step) = MilestoneEscrow::admin_override_cancel_release_outcome(l, c, admin).result {
        lemma_cancel_settled(l, c, admin, MilestoneStatus::Released);
        lemma_one_payment(c, step.actions[0]);
    }
    if let Ok(step) = MilestoneEscrow::admin_override_cancel_refund_outcome(l, c, admin).result {
        lemma_cancel_settled(l, c, admin, MilestoneStatus::Refunded);
        lemma_one_payment(c, step.actions[0]);
    }
}

/// [`MilestoneEscrow::admin_override_tax_release`] is orderly, as [`Outcome::orderly`]
/// says, and pays no more than the milestone is worth. Where the withholding on
/// record is up to date it is lawful, as [`Outcome::lawful`] says.
pub proof fn admin_override_tax_release_is_orderly(
    l: LedgerView,
    c: Context,
    admin: Address,
    index: u32,
)
    requires
        l.sound(),
    ensures
        ({
            let outcome = MilestoneEscrow::admin_override_tax_release_outcome(l, c, admin, index);
            &&& outcome.orderly(l, c)
            &&& outcome.result matches Ok(step) ==> c.paid_out(step.actions) <= l.milestone(
                index,
            )->0.amount
            &&& l.withholding_up_to_date(index) ==> outcome.lawful(l, c)
        }),
{
    let outcome = MilestoneEscrow::admin_override_tax_release_outcome(l, c, admin, index);
    if let Ok(step) = outcome.result {
        let meta = l.instance.job->0;
        let next = step.ledger.persistent.milestones[index];
        assert(l.persistent.tax_withholding.contains_key(index));
        lemma_replaced(l.persistent.milestones, meta.milestone_count as nat, index, next);
        lemma_one_payment(c, step.actions[0]);
    }
}

/// [`MilestoneEscrow::admin_override_tax_refund`] is orderly, as [`Outcome::orderly`]
/// says, and pays no more than the milestone is worth. Where the withholding on
/// record is up to date it is lawful, as [`Outcome::lawful`] says.
pub proof fn admin_override_tax_refund_is_orderly(
    l: LedgerView,
    c: Context,
    admin: Address,
    index: u32,
)
    requires
        l.sound(),
    ensures
        ({
            let outcome = MilestoneEscrow::admin_override_tax_refund_outcome(l, c, admin, index);
            &&& outcome.orderly(l, c)
            &&& outcome.result matches Ok(step) ==> c.paid_out(step.actions) <= l.milestone(
                index,
            )->0.amount
            &&& l.withholding_up_to_date(index) ==> outcome.lawful(l, c)
        }),
{
    let outcome = MilestoneEscrow::admin_override_tax_refund_outcome(l, c, admin, index);
    if let Ok(step) = outcome.result {
        let meta = l.instance.job->0;
        let next = step.ledger.persistent.milestones[index];
        lemma_replaced(l.persistent.milestones, meta.milestone_count as nat, index, next);
        lemma_one_payment(c, step.actions[0]);
    }
}

/// [`MilestoneEscrow::admin_override_tax_split_refund`] is orderly, as [`Outcome::orderly`]
/// says, and pays no more than the milestone is worth. Where the withholding on
/// record is up to date it is lawful, as [`Outcome::lawful`] says.
pub proof fn admin_override_tax_split_refund_is_orderly(
    l: LedgerView,
    c: Context,
    admin: Address,
    index: u32,
    client_refund_bps: u32,
    freelancer_payout_bps: u32,
)
    requires
        l.sound(),
    ensures
        ({
            let outcome = MilestoneEscrow::admin_override_tax_split_refund_outcome(
                l,
                c,
                admin,
                index,
                client_refund_bps,
                freelancer_payout_bps,
            );
            &&& outcome.orderly(l, c)
            &&& outcome.result matches Ok(step) ==> c.paid_out(step.actions) <= l.milestone(
                index,
            )->0.amount
            &&& l.withholding_up_to_date(index) ==> outcome.lawful(l, c)
        }),
{
    let outcome = MilestoneEscrow::admin_override_tax_split_refund_outcome(
        l,
        c,
        admin,
        index,
        client_refund_bps,
        freelancer_payout_bps,
    );
    if let Ok(step) = outcome.result {
        let meta = l.instance.job->0;
        let m = l.milestone(index)->0;
        let record = l.withholding(index)->0;
        assert(l.persistent.tax_withholding.contains_key(index));
        let gross = record.gross_amount as int;
        let tax = record.tax_amount as int;
        let bps = client_refund_bps as int;
        MilestoneEscrow::rounded_share_is_a_part(gross, bps, BPS_SCALE as int);
        MilestoneEscrow::rounded_share_is_a_part(tax, bps, BPS_SCALE as int);
        MilestoneEscrow::lemma_tax_within_share(gross, tax, bps);
        let a = MilestoneEscrow::withholding_refund_result(
            record.gross_amount,
            record.tax_amount,
            client_refund_bps,
            freelancer_payout_bps,
        )->Ok_0;
        let next = step.ledger.persistent.milestones[index];
        lemma_replaced(l.persistent.milestones, meta.milestone_count as nat, index, next);
        lemma_two_payments(
            c,
            meta.token,
            meta.client,
            a.client_refund as int,
            meta.freelancer,
            a.freelancer_payout as int,
        );
    }
}

/// [`MilestoneEscrow::remove_whitelisted_token`] is lawful, as [`Outcome::lawful`] says.
pub proof fn remove_whitelisted_token_is_lawful(
    l: LedgerView,
    c: Context,
    admin: Address,
    token: Address,
)
    requires
        l.sound(),
    ensures
        MilestoneEscrow::remove_whitelisted_token_outcome(l, admin, token).lawful(l, c),
{
    lemma_no_payment(c);
    if let Ok(step) = MilestoneEscrow::remove_whitelisted_token_outcome(l, admin, token).result {
        let tokens = l.instance.whitelisted_tokens->0;
        token_leaves_the_whitelist(tokens, token);
    }
}

/// Taking a token off a whitelist that lists nothing twice leaves one without
/// it, with the same other tokens, that lists nothing twice either.
pub proof fn token_leaves_the_whitelist(tokens: Seq<Address>, token: Address)
    requires
        tokens.contains(token),
        MilestoneEscrow::distinct(tokens),
    ensures
        ({
            let left = MilestoneEscrow::swap_removed(
                tokens,
                MilestoneEscrow::first_index(tokens, token),
            );
            &&& left.len() == tokens.len() - 1
            &&& MilestoneEscrow::distinct(left)
            &&& forall|t: Address| #[trigger] left.contains(t) <==> t != token && tokens.contains(t)
        }),
{
    let k = MilestoneEscrow::first_index(tokens, token);
    let i = choose|i: int| 0 <= i < tokens.len() && tokens[i] == token;
    assert forall|j: int| 0 <= j < i implies #[trigger] tokens[j] != token by {}
    assert(0 <= i < tokens.len() && tokens[i] == token);
    assert(0 <= k < tokens.len() && tokens[k] == token);
    let left = MilestoneEscrow::swap_removed(tokens, k);
    let last = tokens.len() - 1;
    assert forall|a: int, b: int| 0 <= a < b < left.len() implies #[trigger] left[a]
        != #[trigger] left[b] by {
        let x = if a == k {
            last
        } else {
            a
        };
        let y = if b == k {
            last
        } else {
            b
        };
        assert(left[a] == tokens[x] && left[b] == tokens[y]);
    }
    assert forall|t: Address| #[trigger] left.contains(t) <==> t != token && tokens.contains(t) by {
        if left.contains(t) {
            let a = choose|a: int| 0 <= a < left.len() && left[a] == t;
            let x = if a == k {
                last
            } else {
                a
            };
            assert(tokens[x] == t);
        }
        if t != token && tokens.contains(t) {
            let x = choose|x: int| 0 <= x < tokens.len() && tokens[x] == t;
            if x == last {
                assert(left[k] == t);
            } else {
                assert(left[x] == t);
            }
        }
    }
}

/// Registering signers leaves a sound ledger, on which nothing else has
/// changed.
pub proof fn multisig_approval_init_is_lawful(
    l: LedgerView,
    c: Context,
    admin: Address,
    signers: Seq<Address>,
    threshold: u32,
)
    requires
        l.sound(),
    ensures
        MilestoneEscrow::multisig_approval_init_error(l, admin, signers, threshold) is None ==> {
            let next = MilestoneEscrow::with_signers(l, signers, threshold);
            &&& l.may_become(next)
            &&& next.held() == l.held()
        },
{
}

/// The milestones of a new job make up its total, and all of it is held.
proof fn lemma_new_milestones(old: Map<u32, Milestone>, amounts: Seq<i128>, n: nat)
    requires
        n <= amounts.len() <= u32::MAX,
        MilestoneEscrow::valid_amounts(amounts),
    ensures
        MilestoneEscrow::running_total(MilestoneEscrow::new_milestones(old, amounts), n) == Ok::<
            i128,
            crate::types::Error,
        >(LargestRemainder::sum(amounts.take(n as int)) as i128),
        LedgerView::held_for(MilestoneEscrow::new_milestones(old, amounts), n)
            == LargestRemainder::sum(amounts.take(n as int)),
        0 <= LargestRemainder::sum(amounts.take(n as int)) <= i128::MAX,
    decreases n,
{
    LargestRemainder::lemma_sum_prefix(amounts, n as int);
    if n > 0 {
        lemma_new_milestones(old, amounts, (n - 1) as nat);
        assert(amounts.take(n as int).drop_last() =~= amounts.take(n - 1));
        assert(amounts[n - 1] > 0);
    }
}

/// Setting up a job makes a sound ledger, on which the whole job total is held,
/// and asks the host for nothing.
pub proof fn initialize_makes_a_sound_ledger(
    l: LedgerView,
    c: Context,
    admin: Address,
    meta: JobMeta,
    list: soroban_sdk::Vec<i128>,
)
    requires
        l.sound(),
        !meta.funded,
        crate::amounts::amounts(list).len() <= u32::MAX,
        meta.milestone_count == crate::amounts::amounts(list).len(),
        MilestoneEscrow::valid_amounts(crate::amounts::amounts(list)) ==> meta.total_amount
            == LargestRemainder::sum(crate::amounts::amounts(list)),
    ensures
        MilestoneEscrow::initialize_outcome(l, c, admin, meta, list).result matches Ok(step) ==> {
            &&& step.ledger.sound()
            &&& step.ledger.held() == meta.total_amount
            &&& step.actions.len() == 0
        },
{
    if let Ok(step) = MilestoneEscrow::initialize_outcome(l, c, admin, meta, list).result {
        let amounts = crate::amounts::amounts(list);
        lemma_new_milestones(l.persistent.milestones, amounts, amounts.len());
        assert(amounts.take(amounts.len() as int) =~= amounts);
        let ms = step.ledger.persistent.milestones;
        assert forall|i: u32| #[trigger] ms.contains_key(i) <==> i < meta.milestone_count by {}
        assert forall|i: u32| #[trigger] ms.contains_key(i) implies ms[i].sound() && ms[i]
            == Milestone::fresh(ms[i].amount) by {
            assert(amounts[i as int] > 0);
        }
    }
}

/// What is held for milestones that nothing has happened to is their total.
proof fn lemma_fresh_held(ms: Map<u32, Milestone>, n: nat)
    requires
        n <= u32::MAX,
        MilestoneEscrow::running_total(ms, n) is Ok,
        forall|i: u32| #[trigger] ms.contains_key(i) ==> ms[i] == Milestone::fresh(ms[i].amount),
    ensures
        LedgerView::held_for(ms, n) == MilestoneEscrow::running_total(ms, n)->Ok_0,
    decreases n,
{
    if n > 0 {
        lemma_fresh_held(ms, (n - 1) as nat);
        assert(ms.contains_key((n - 1) as u32));
    }
}

/// Funding a job deposits exactly what is held for its milestones.
pub proof fn funding_deposits_what_is_held(l: LedgerView, c: Context, client: Address)
    requires
        l.sound(),
    ensures
        MilestoneEscrow::fund_outcome(l, c, client).result matches Ok(step) ==> {
            let meta = l.instance.job->0;
            &&& step.actions == seq![
                Action::Transfer {
                    token: meta.token,
                    from: meta.client,
                    to: c.contract,
                    amount: meta.total_amount,
                },
            ]
            &&& l.held() == meta.total_amount
            &&& step.ledger.held() == meta.total_amount
        },
{
    if let Ok(step) = MilestoneEscrow::fund_outcome(l, c, client).result {
        let meta = l.instance.job->0;
        lemma_fresh_held(l.persistent.milestones, meta.milestone_count as nat);
    }
}

/// A sound ledger holds no less than nothing for a job, and no more than its
/// total.
pub proof fn held_is_within_the_total(l: LedgerView)
    requires
        l.sound(),
    ensures
        0 <= l.held(),
        l.instance.job matches Some(meta) ==> l.held() <= meta.total_amount,
{
    if let Some(meta) = l.instance.job {
        lemma_held_within_total(l.persistent.milestones, meta.milestone_count as nat);
    }
}

proof fn lemma_held_within_total(ms: Map<u32, Milestone>, n: nat)
    requires
        n <= u32::MAX,
        MilestoneEscrow::running_total(ms, n) is Ok,
        forall|i: u32| #[trigger] ms.contains_key(i) ==> ms[i].sound(),
    ensures
        0 <= LedgerView::held_for(ms, n) <= MilestoneEscrow::running_total(ms, n)->Ok_0,
    decreases n,
{
    if n > 0 {
        lemma_held_within_total(ms, (n - 1) as nat);
        assert(ms.contains_key((n - 1) as u32));
    }
}

} // verus!
