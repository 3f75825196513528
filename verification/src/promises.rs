//! What several calls promise together.

use vstd::prelude::*;

use crate::arith::MilestoneEscrow;
use crate::host::{Context, LedgerView, TemporaryView};
use crate::shares::LargestRemainder;
use crate::types::{
    Address, Error, MilestoneStatus, PlatformFeeAllocation, BPS_SCALE,
};

verus! {

/// While the escrow is paused, frozen, cancelled or busy, the endpoints for the
/// parties of the job are refused with the one error that says so, and nobody
/// has to sign for that.
pub proof fn a_closed_escrow_refuses_the_parties(
    l: LedgerView,
    c: Context,
    who: Address,
    index: u32,
    amount: i128,
    flag: bool,
)
    requires
        l.closed_error() is Some,
    ensures
        ({
            let error = l.closed_error()->0;
            let fund = MilestoneEscrow::fund_outcome(l, c, who);
            let deliver = MilestoneEscrow::mark_delivered_outcome(l, c, who, index);
            let claim = MilestoneEscrow::claim_auto_release_outcome(l, c, who, index);
            let partial = MilestoneEscrow::approve_partial_outcome(l, c, who, index, amount);
            let approve = MilestoneEscrow::approve_milestone_outcome(l, c, who, index);
            let dispute = MilestoneEscrow::raise_dispute_outcome(l, c, who, index);
            let resolve = MilestoneEscrow::resolve_dispute_outcome(l, c, who, index, flag);
            &&& fund.refused_with(error) && fund.auths.len() == 0
            &&& deliver.refused_with(error) && deliver.auths.len() == 0
            &&& claim.refused_with(error) && claim.auths.len() == 0
            &&& partial.refused_with(error) && partial.auths.len() == 0
            &&& approve.refused_with(error) && approve.auths.len() == 0
            &&& dispute.refused_with(error) && dispute.auths.len() == 0
            &&& resolve.refused_with(error) && resolve.auths.len() == 0
        }),
        l.admin_paused() || l.frozen() ==> l.closed_error() == Some(Error::Paused),
        l.cancelled() && !l.admin_paused() && !l.frozen() ==> l.closed_error() == Some(
            Error::EscrowLocked,
        ),
{
}

/// Each party acts in its own role: the client deposits, approves and extends,
/// the freelancer delivers and claims, either of them disputes and cancels, and
/// the arbiter decides; and each signs for it.
pub proof fn each_party_acts_in_its_role(
    l: LedgerView,
    c: Context,
    who: Address,
    index: u32,
    amount: i128,
    bps: u32,
    flag: bool,
)
    ensures
        ({
            let client = match l.instance.job {
                Some(meta) => Some(meta.client),
                None => None,
            };
            let freelancer = match l.instance.job {
                Some(meta) => Some(meta.freelancer),
                None => None,
            };
            let arbiter = match l.instance.job {
                Some(meta) => Some(meta.arbiter),
                None => None,
            };
            let party = if who == client->0 {
                client
            } else {
                freelancer
            };
            &&& MilestoneEscrow::fund_outcome(l, c, who).reserved_for(client, who)
            &&& MilestoneEscrow::approve_partial_outcome(l, c, who, index, amount).reserved_for(
                client,
                who,
            )
            &&& MilestoneEscrow::approve_milestone_outcome(l, c, who, index).reserved_for(
                client,
                who,
            )
            &&& MilestoneEscrow::extend_milestone_deadline_outcome(
                l,
                c,
                who,
                index,
                bps,
            ).reserved_for(client, who)
            &&& MilestoneEscrow::mark_delivered_outcome(l, c, who, index).reserved_for(
                freelancer,
                who,
            )
            &&& MilestoneEscrow::claim_auto_release_outcome(l, c, who, index).reserved_for(
                freelancer,
                who,
            )
            &&& MilestoneEscrow::raise_dispute_outcome(l, c, who, index).reserved_for(party, who)
            &&& MilestoneEscrow::cancel_escrow_outcome(l, c, who).reserved_for(party, who)
            &&& MilestoneEscrow::revoke_cancel_approval_outcome(l, c, who).reserved_for(party, who)
            &&& MilestoneEscrow::resolve_dispute_outcome(l, c, who, index, flag).reserved_for(
                arbiter,
                who,
            )
            &&& MilestoneEscrow::apply_dispute_arbitration_split_outcome(
                l,
                c,
                who,
                index,
                bps,
            ).reserved_for(arbiter, who)
        }),
{
}

/// What the admin decides, only the admin decides, and signs for.
#[verifier::rlimit(40)]
pub proof fn only_the_admin_administers(
    l: LedgerView,
    c: Context,
    who: Address,
    other: Address,
    index: u32,
    amount: i128,
    seconds: i128,
    a: u32,
    b: u32,
    flag: bool,
    hash: [u8; 32],
)
    requires
        l.sound(),
    ensures
        ({
            let admin = l.persistent.admin;
            &&& MilestoneEscrow::transfer_admin_outcome(l, who, other).reserved_for(admin, who)
            &&& MilestoneEscrow::propose_admin_transfer_outcome(l, who, other, index).reserved_for(
                admin,
                who,
            )
            &&& MilestoneEscrow::cancel_admin_transfer_proposal_outcome(l, who).reserved_for(
                admin,
                who,
            )
            &&& MilestoneEscrow::add_whitelisted_token_outcome(l, c, who, other).reserved_for(
                admin,
                who,
            )
            &&& MilestoneEscrow::remove_whitelisted_token_outcome(l, who, other).reserved_for(
                admin,
                who,
            )
            &&& MilestoneEscrow::upgrade_outcome(l, who, hash).reserved_for(admin, who)
            &&& MilestoneEscrow::admin_override_cancel_release_outcome(l, c, who).reserved_for(
                admin,
                who,
            )
            &&& MilestoneEscrow::admin_override_cancel_refund_outcome(l, c, who).reserved_for(
                admin,
                who,
            )
            &&& MilestoneEscrow::cancel_escrow_claim_refund_outcome(
                l,
                c,
                who,
                amount,
                a,
                b,
            ).reserved_for(admin, who)
            &&& MilestoneEscrow::emergency_pause_claim_refund_outcome(
                l,
                c,
                who,
                amount,
                a,
                b,
            ).reserved_for(admin, who)
            &&& MilestoneEscrow::emergency_unpause_outcome(l, c, who).reserved_for(admin, who)
            &&& MilestoneEscrow::emergency_pause_admin_override_outcome(
                l,
                c,
                who,
                flag,
            ).reserved_for(admin, who)
            &&& MilestoneEscrow::admin_pause_escrow_outcome(l, c, who).reserved_for(admin, who)
            &&& MilestoneEscrow::admin_resume_escrow_outcome(l, c, who).reserved_for(admin, who)
            &&& MilestoneEscrow::set_platform_fee_allocation_outcome(
                l,
                who,
                a,
                b,
                index,
            ).reserved_for(admin, who)
            &&& MilestoneEscrow::lock_platform_fee_allocation_outcome(l, who).reserved_for(
                admin,
                who,
            )
            &&& MilestoneEscrow::pf_alloc_admin_override_outcome(
                l,
                c,
                who,
                a,
                b,
                index,
            ).reserved_for(admin, who)
            &&& MilestoneEscrow::multisig_lock_outcome(l, who).reserved_for(admin, who)
            &&& MilestoneEscrow::multisig_admin_override_release_outcome(
                l,
                c,
                who,
                index,
            ).reserved_for(admin, who)
            &&& MilestoneEscrow::multisig_admin_override_refund_outcome(
                l,
                c,
                who,
                index,
            ).reserved_for(admin, who)
            &&& MilestoneEscrow::multisig_split_refund_outcome(
                l,
                who,
                amount,
                a,
                b,
            ).reserved_for(admin, who)
            &&& MilestoneEscrow::admin_override_release_outcome(l, c, who, index).reserved_for(
                admin,
                who,
            )
            &&& MilestoneEscrow::admin_override_refund_outcome(l, c, who, index).reserved_for(
                admin,
                who,
            )
            &&& MilestoneEscrow::admin_override_streaming_release_outcome(
                l,
                c,
                who,
                index,
                amount,
                seconds,
            ).reserved_for(admin, who)
            &&& MilestoneEscrow::admin_override_tax_release_outcome(l, c, who, index).reserved_for(
                admin,
                who,
            )
            &&& MilestoneEscrow::admin_override_tax_refund_outcome(l, c, who, index).reserved_for(
                admin,
                who,
            )
            &&& MilestoneEscrow::admin_override_tax_split_refund_outcome(
                l,
                c,
                who,
                index,
                a,
                b,
            ).reserved_for(admin, who)
            &&& MilestoneEscrow::admin_tax_withholding_deductions_outcome(
                l,
                c,
                who,
                index,
                a,
            ).reserved_for(admin, who)
            &&& MilestoneEscrow::set_escrow_interest_yield_outcome(l, who, a, b).reserved_for(
                admin,
                who,
            )
            &&& MilestoneEscrow::set_interest_yield_consent_outcome(l, who, a, b).reserved_for(
                admin,
                who,
            )
            &&& MilestoneEscrow::lock_escrow_interest_yield_outcome(l, who).reserved_for(
                admin,
                who,
            )
            &&& MilestoneEscrow::unlock_escrow_interest_yield_outcome(l, who).reserved_for(
                admin,
                who,
            )
            &&& MilestoneEscrow::admin_set_yield_rate_outcome(l, who, a).reserved_for(admin, who)
            &&& MilestoneEscrow::admin_accrue_yield_outcome(l, who, index, amount).reserved_for(
                admin,
                who,
            )
        }),
{
}

/// Before a job is set up, the endpoints that change a job or its settings are
/// refused as not initialized.
pub proof fn nothing_works_before_initialize(
    c: Context,
    who: Address,
    other: Address,
    index: u32,
    amount: i128,
    bps: u32,
    flag: bool,
    hash: [u8; 32],
)
    requires
        !c.unfit(who),
    ensures
        ({
            let l = crate::host::empty_ledger();
            let e = Error::NotInitialized;
            &&& MilestoneEscrow::fund_outcome(l, c, who).refused_with(e)
            &&& MilestoneEscrow::mark_delivered_outcome(l, c, who, index).refused_with(e)
            &&& MilestoneEscrow::extend_milestone_deadline_outcome(l, c, who, index, bps).refused_with(e)
            &&& MilestoneEscrow::claim_auto_release_outcome(l, c, who, index).refused_with(e)
            &&& MilestoneEscrow::approve_partial_outcome(l, c, who, index, amount).refused_with(e)
            &&& MilestoneEscrow::approve_milestone_outcome(l, c, who, index).refused_with(e)
            &&& MilestoneEscrow::raise_dispute_outcome(l, c, who, index).refused_with(e)
            &&& MilestoneEscrow::resolve_dispute_outcome(l, c, who, index, flag).refused_with(e)
            &&& MilestoneEscrow::apply_dispute_arbitration_split_outcome(
                l,
                c,
                who,
                index,
                bps,
            ).refused_with(e)
            &&& MilestoneEscrow::cancel_escrow_outcome(l, c, who).refused_with(e)
            &&& MilestoneEscrow::revoke_cancel_approval_outcome(l, c, who).refused_with(e)
            &&& MilestoneEscrow::admin_override_cancel_release_outcome(l, c, who).refused_with(e)
            &&& MilestoneEscrow::admin_override_cancel_refund_outcome(l, c, who).refused_with(e)
            &&& MilestoneEscrow::admin_override_release_outcome(l, c, who, index).refused_with(e)
            &&& MilestoneEscrow::admin_override_refund_outcome(l, c, who, index).refused_with(e)
            &&& MilestoneEscrow::admin_override_streaming_release_outcome(
                l,
                c,
                who,
                index,
                amount,
                amount,
            ).refused_with(e)
            &&& MilestoneEscrow::multisig_admin_override_release_outcome(l, c, who, index).refused_with(e)
            &&& MilestoneEscrow::multisig_admin_override_refund_outcome(l, c, who, index).refused_with(e)
            &&& MilestoneEscrow::tax_withholding_deductions_outcome(l, c, index, bps).refused_with(e)
            &&& MilestoneEscrow::admin_override_tax_release_outcome(l, c, who, index).refused_with(e)
            &&& MilestoneEscrow::admin_override_tax_refund_outcome(l, c, who, index).refused_with(e)
            &&& MilestoneEscrow::admin_override_tax_split_refund_outcome(
                l,
                c,
                who,
                index,
                bps,
                bps,
            ).refused_with(e)
            &&& MilestoneEscrow::transfer_admin_outcome(l, who, other).refused_with(e)
            &&& MilestoneEscrow::propose_admin_transfer_outcome(l, who, other, index).refused_with(e)
            &&& MilestoneEscrow::execute_admin_transfer_outcome(l).refused_with(e)
            &&& MilestoneEscrow::cancel_admin_transfer_proposal_outcome(l, who).refused_with(e)
            &&& MilestoneEscrow::add_whitelisted_token_outcome(l, c, who, other).refused_with(e)
            &&& MilestoneEscrow::remove_whitelisted_token_outcome(l, who, other).refused_with(e)
            &&& MilestoneEscrow::emergency_pause_outcome(l, c, who, other).refused_with(e)
            &&& MilestoneEscrow::emergency_unpause_outcome(l, c, who).refused_with(e)
            &&& MilestoneEscrow::emergency_pause_admin_override_outcome(l, c, who, flag).refused_with(e)
            &&& MilestoneEscrow::admin_pause_escrow_outcome(l, c, who).refused_with(e)
            &&& MilestoneEscrow::admin_resume_escrow_outcome(l, c, who).refused_with(e)
            &&& MilestoneEscrow::set_platform_fee_allocation_outcome(l, who, bps, bps, bps).refused_with(e)
            &&& MilestoneEscrow::lock_platform_fee_allocation_outcome(l, who).refused_with(e)
            &&& MilestoneEscrow::pf_alloc_admin_override_outcome(l, c, who, bps, bps, bps).refused_with(e)
            &&& MilestoneEscrow::set_escrow_interest_yield_outcome(l, who, bps, bps).refused_with(e)
            &&& MilestoneEscrow::set_interest_yield_consent_outcome(l, who, bps, bps).refused_with(e)
            &&& MilestoneEscrow::lock_escrow_interest_yield_outcome(l, who).refused_with(e)
            &&& MilestoneEscrow::unlock_escrow_interest_yield_outcome(l, who).refused_with(e)
            &&& MilestoneEscrow::admin_set_yield_rate_outcome(l, who, bps).refused_with(e)
            &&& MilestoneEscrow::admin_accrue_yield_outcome(l, who, index, amount).refused_with(e)
            &&& MilestoneEscrow::multisig_approve_outcome(l, c, who, index).refused_with(e)
            &&& MilestoneEscrow::multisig_lock_outcome(l, who).refused_with(e)
            &&& MilestoneEscrow::upgrade_outcome(l, who, hash).refused_with(e)
        }),
{
}

/// A job is set up once: while one is stored, setting up another is refused.
pub proof fn initialize_works_once(
    l: LedgerView,
    c: Context,
    admin: Address,
    meta: crate::types::JobMeta,
    list: soroban_sdk::Vec<i128>,
)
    ensures
        l.instance.job is Some ==> MilestoneEscrow::initialize_outcome(
            l,
            c,
            admin,
            meta,
            list,
        ).refused_with(Error::AlreadyInitialized),
        MilestoneEscrow::initialize_outcome(l, c, admin, meta, list).result matches Ok(step)
            ==> step.ledger.instance.job is Some,
{
}

/// One party alone cannot lock the escrow; it takes the other as well.
pub proof fn cancelling_takes_both_parties(l: LedgerView, c: Context, first: Address, second: Address)
    requires
        l.sound(),
        l.instance.cancel_approval is None,
        MilestoneEscrow::cancel_escrow_outcome(l, c, first).result is Ok,
    ensures
        ({
            let waiting = (MilestoneEscrow::cancel_escrow_outcome(l, c, first).result->Ok_0).ledger;
            let again = MilestoneEscrow::cancel_escrow_outcome(waiting, c, first);
            let other = MilestoneEscrow::cancel_escrow_outcome(waiting, c, second);
            let meta = l.instance.job->0;
            &&& !waiting.cancelled()
            &&& again.refused_with(Error::InvalidStatus)
            &&& other.result matches Ok(step) ==> step.ledger.cancelled()
            &&& meta.client != meta.freelancer && second != first && (second == meta.client
                || second == meta.freelancer) ==> other.result is Ok
        }),
{
    crate::laws::lemma_cancel_masks();
}

/// A party that takes its wish to cancel back leaves the ledger as it was.
pub proof fn revoking_undoes_the_approval(l: LedgerView, c: Context, caller: Address)
    requires
        l.instance.cancel_approval is None,
        MilestoneEscrow::cancel_escrow_outcome(l, c, caller).result is Ok,
    ensures
        ({
            let waiting = (MilestoneEscrow::cancel_escrow_outcome(
                l,
                c,
                caller,
            ).result->Ok_0).ledger;
            let revoked = MilestoneEscrow::revoke_cancel_approval_outcome(waiting, c, caller);
            revoked.result matches Ok(step) && step.ledger == l
        }),
{
    crate::laws::lemma_cancel_masks();
}

/// What is computed for a cancelled or frozen escrow is what was computed as a
/// preview of it.
pub proof fn claims_match_their_previews(
    l: LedgerView,
    k: LedgerView,
    c: Context,
    admin: Address,
    total_amount: i128,
    client_bps: u32,
    freelancer_bps: u32,
)
    ensures
        MilestoneEscrow::cancel_escrow_claim_refund_outcome(
            l,
            c,
            admin,
            total_amount,
            client_bps,
            freelancer_bps,
        ).result matches Ok(claim) ==> (MilestoneEscrow::cancel_escrow_split_refund_outcome(
            k,
            total_amount,
            client_bps,
            freelancer_bps,
        ).result matches Ok(preview) ==> claim.value == preview.value),
        MilestoneEscrow::emergency_pause_claim_refund_outcome(
            l,
            c,
            admin,
            total_amount,
            client_bps,
            freelancer_bps,
        ).result matches Ok(claim) ==> (MilestoneEscrow::emergency_pause_split_refund_outcome(
            k,
            total_amount,
            client_bps,
            freelancer_bps,
        ).result matches Ok(preview) && claim.value == preview.value),
{
}

/// A split that both parties consent to is the one that anyone can compute.
pub proof fn consent_changes_no_split(
    l: LedgerView,
    k: LedgerView,
    c: Context,
    total: i128,
    numerator: i128,
    denominator: i128,
)
    ensures
        MilestoneEscrow::payment_streaming_consent_outcome(
            l,
            total,
            numerator,
            denominator,
        ).result matches Ok(agreed) ==> (MilestoneEscrow::payment_streaming_milestones_outcome(
            k,
            total,
            numerator,
            denominator,
        ).result matches Ok(computed) && agreed.value == computed.value),
        MilestoneEscrow::time_extensions_consent_outcome(
            l,
            total,
            numerator,
            denominator,
        ).result matches Ok(agreed) ==> (MilestoneEscrow::milestone_time_extensions_outcome(
            k,
            c,
            total,
            numerator,
            denominator,
        ).result matches Ok(computed) && agreed.value == computed.value),
{
}

/// Calculations store nothing and ask for nothing; they only announce their
/// result.
pub proof fn calculations_store_nothing(
    l: LedgerView,
    c: Context,
    admin: Address,
    total: i128,
    part: i128,
    seconds: i128,
    index: u32,
    client_bps: u32,
    freelancer_bps: u32,
    fees: PlatformFeeAllocation,
)
    ensures
        MilestoneEscrow::calculate_platform_fee_split_outcome(l, total).result matches Ok(step)
            ==> step.ledger == l && step.actions.len() == 0 && step.events.len() == 1,
        MilestoneEscrow::split_refund_net_distribution_outcome(
            l,
            total,
            client_bps,
            freelancer_bps,
            fees,
        ).result matches Ok(step) ==> step.ledger == l && step.actions.len() == 0
            && step.events.len() == 1,
        MilestoneEscrow::cancel_escrow_split_refund_outcome(
            l,
            total,
            client_bps,
            freelancer_bps,
        ).result matches Ok(step) ==> step.ledger == l && step.actions.len() == 0
            && step.events.len() == 1,
        MilestoneEscrow::cancel_escrow_claim_refund_outcome(
            l,
            c,
            admin,
            total,
            client_bps,
            freelancer_bps,
        ).result matches Ok(step) ==> step.ledger == l && step.actions.len() == 0
            && step.events.len() == 1,
        MilestoneEscrow::emergency_pause_split_refund_outcome(
            l,
            total,
            client_bps,
            freelancer_bps,
        ).result matches Ok(step) ==> step.ledger == l && step.actions.len() == 0
            && step.events.len() == 1,
        MilestoneEscrow::emergency_pause_claim_refund_outcome(
            l,
            c,
            admin,
            total,
            client_bps,
            freelancer_bps,
        ).result matches Ok(step) ==> step.ledger == l && step.actions.len() == 0
            && step.events.len() == 1,
        MilestoneEscrow::multisig_split_refund_outcome(
            l,
            admin,
            total,
            client_bps,
            freelancer_bps,
        ).result matches Ok(step) ==> step.ledger == l && step.actions.len() == 0
            && step.events.len() == 1,
        MilestoneEscrow::interest_yield_split_refund_outcome(
            l,
            total,
            client_bps,
            freelancer_bps,
        ).result matches Ok(step) ==> step.ledger == l && step.actions.len() == 0
            && step.events.len() == 1,
        MilestoneEscrow::tax_withholding_split_refund_outcome(
            l,
            total,
            part,
            client_bps,
            freelancer_bps,
        ).result matches Ok(step) ==> step.ledger == l && step.actions.len() == 0
            && step.events.len() == 1,
        MilestoneEscrow::escrow_interest_yield_outcome(l, total, part, seconds).result matches Ok(
            step,
        ) ==> step.ledger == l && step.actions.len() == 0 && step.events.len() == 1,
        MilestoneEscrow::admin_tax_withholding_deductions_outcome(
            l,
            c,
            admin,
            index,
            client_bps,
        ).result matches Ok(step) ==> step.ledger == l && step.actions.len() == 0
            && step.events.len() == 1,
{
}

/// Pausing twice is pausing once, and says so once; and an escrow that was
/// paused and resumed runs.
pub proof fn pausing_can_be_repeated_and_undone(l: LedgerView, c: Context, admin: Address)
    requires
        l.instance.admin == l.persistent.admin,
        MilestoneEscrow::admin_pause_escrow_outcome(l, c, admin).result is Ok,
    ensures
        ({
            let paused = (MilestoneEscrow::admin_pause_escrow_outcome(
                l,
                c,
                admin,
            ).result->Ok_0).ledger;
            let again = MilestoneEscrow::admin_pause_escrow_outcome(paused, c, admin);
            let resumed = MilestoneEscrow::admin_resume_escrow_outcome(paused, c, admin);
            &&& paused.admin_paused()
            &&& again.result matches Ok(step) && step.ledger == paused && step.events.len() == 0
            &&& resumed.result matches Ok(step) && !step.ledger.admin_paused()
        }),
{
}

/// An escrow that its parties froze is frozen until the admin lifts that.
pub proof fn freezing_can_be_undone(
    l: LedgerView,
    c: Context,
    client: Address,
    freelancer: Address,
    admin: Address,
)
    requires
        l.persistent.admin == Some(admin),
        MilestoneEscrow::emergency_pause_outcome(l, c, client, freelancer).result is Ok,
    ensures
        ({
            let frozen = (MilestoneEscrow::emergency_pause_outcome(
                l,
                c,
                client,
                freelancer,
            ).result->Ok_0).ledger;
            let again = MilestoneEscrow::emergency_pause_outcome(frozen, c, client, freelancer);
            let lifted = MilestoneEscrow::emergency_unpause_outcome(frozen, c, admin);
            &&& frozen.frozen()
            &&& again.refused_with(Error::AlreadyPaused)
            &&& lifted.result matches Ok(step) && !step.ledger.frozen()
        }),
{
}

/// Frozen yield shares can neither be set nor split by, and thawing them
/// restores what was.
pub proof fn locked_yield_shares_stay(
    l: LedgerView,
    admin: Address,
    a: u32,
    b: u32,
    total: i128,
)
    requires
        l.instance.admin == l.persistent.admin,
        l.instance.job is Some,
        !l.yield_locked(),
        !l.admin_paused() && !l.frozen(),
        a + b == BPS_SCALE,
        MilestoneEscrow::lock_escrow_interest_yield_outcome(l, admin).result is Ok,
    ensures
        ({
            let locked = (MilestoneEscrow::lock_escrow_interest_yield_outcome(
                l,
                admin,
            ).result->Ok_0).ledger;
            let thawed = MilestoneEscrow::unlock_escrow_interest_yield_outcome(locked, admin);
            let e = Error::EscrowLocked;
            &&& MilestoneEscrow::set_escrow_interest_yield_outcome(locked, admin, a, b).refused_with(e)
            &&& MilestoneEscrow::set_interest_yield_consent_outcome(locked, admin, a, b).refused_with(e)
            &&& MilestoneEscrow::interest_yield_split_refund_outcome(locked, total, a, b).refused_with(e)
            &&& thawed.result matches Ok(step) && step.ledger == l
        }),
{
}

/// A locked fee allocation cannot be set, but the admin can override it, which
/// unlocks it.
pub proof fn a_locked_fee_allocation_takes_an_override(
    l: LedgerView,
    c: Context,
    admin: Address,
    client_bps: u32,
    freelancer_bps: u32,
    treasury_bps: u32,
)
    requires
        l.instance.admin == l.persistent.admin,
        MilestoneEscrow::lock_platform_fee_allocation_outcome(l, admin).result is Ok,
        MilestoneEscrow::fee_allocation_error(client_bps, freelancer_bps, treasury_bps) is None,
    ensures
        ({
            let locked = (MilestoneEscrow::lock_platform_fee_allocation_outcome(
                l,
                admin,
            ).result->Ok_0).ledger;
            let set = MilestoneEscrow::set_platform_fee_allocation_outcome(
                locked,
                admin,
                client_bps,
                freelancer_bps,
                treasury_bps,
            );
            let overridden = MilestoneEscrow::pf_alloc_admin_override_outcome(
                locked,
                c,
                admin,
                client_bps,
                freelancer_bps,
                treasury_bps,
            );
            &&& set.refused_with(Error::InvalidStatus)
            &&& overridden.result matches Ok(step) && step.ledger.instance.platform_fee_allocation
                == Some(
                PlatformFeeAllocation { client_bps, freelancer_bps, treasury_bps, locked: false },
            )
        }),
{
}

/// While a successor is proposed, the admin can neither hand over nor propose
/// another; withdrawing the proposal restores what was.
pub proof fn a_proposal_blocks_other_transfers(
    l: LedgerView,
    admin: Address,
    new_admin: Address,
    proposal_id: u32,
    other: Address,
    other_id: u32,
)
    requires
        MilestoneEscrow::propose_admin_transfer_outcome(
            l,
            admin,
            new_admin,
            proposal_id,
        ).result is Ok,
        !other.is_zero(),
    ensures
        ({
            let pending = (MilestoneEscrow::propose_admin_transfer_outcome(
                l,
                admin,
                new_admin,
                proposal_id,
            ).result->Ok_0).ledger;
            let withdrawn = MilestoneEscrow::cancel_admin_transfer_proposal_outcome(pending, admin);
            let e = Error::AdminTransferPending;
            &&& MilestoneEscrow::propose_admin_transfer_outcome(
                pending,
                admin,
                other,
                other_id,
            ).refused_with(e)
            &&& MilestoneEscrow::transfer_admin_outcome(pending, admin, other).refused_with(e)
            &&& withdrawn.result matches Ok(step) && step.ledger == l
        }),
{
}

proof fn lemma_bits_of_or(bitmap: u32, k: u32, i: u32)
    requires
        k < 32,
        i < 32,
    ensures
        MilestoneEscrow::has_bit(bitmap | (1u32 << k), i) == (i == k || MilestoneEscrow::has_bit(
            bitmap,
            i,
        )),
{
    assert(((bitmap | (1u32 << k)) >> i) & 1 == 1 <==> (i == k || (bitmap >> i) & 1 == 1))
        by (bit_vector)
        requires
            k < 32,
            i < 32,
    ;
}

proof fn lemma_one_more_bit(bitmap: u32, k: u32, n: nat)
    requires
        k < 32,
        n <= 32,
    ensures
        MilestoneEscrow::bits_set(bitmap | (1u32 << k), n) == MilestoneEscrow::bits_set(bitmap, n)
            + (if k < n && !MilestoneEscrow::has_bit(bitmap, k) {
            1nat
        } else {
            0
        }),
    decreases n,
{
    if n > 0 {
        lemma_one_more_bit(bitmap, k, (n - 1) as nat);
        lemma_bits_of_or(bitmap, k, (n - 1) as u32);
    }
}

/// An approval counts once: it adds one to the approvals of a signer who had
/// not approved yet, and approving again changes nothing.
pub proof fn an_approval_counts_once(l: LedgerView, c: Context, signer: Address, proposal_id: u32)
    requires
        MilestoneEscrow::multisig_approve_outcome(l, c, signer, proposal_id).result is Ok,
    ensures
        ({
            let first = MilestoneEscrow::multisig_approve_outcome(
                l,
                c,
                signer,
                proposal_id,
            ).result->Ok_0;
            let again = MilestoneEscrow::multisig_approve_outcome(
                first.ledger,
                c,
                signer,
                proposal_id,
            );
            let index = MilestoneEscrow::first_index(
                l.instance.multisig_signers->0,
                signer,
            ) as u32;
            &&& MilestoneEscrow::approvals(first.ledger, proposal_id) == MilestoneEscrow::approvals(
                l,
                proposal_id,
            ) + (if MilestoneEscrow::has_bit(l.approval_bitmap(proposal_id), index) {
                0nat
            } else {
                1
            })
            &&& again.result matches Ok(second) && second.ledger == first.ledger && second.value
                == first.value
        }),
{
    let signers = l.instance.multisig_signers->0;
    let k = MilestoneEscrow::first_index(signers, signer);
    lemma_first_index(signers, signer);
    let index = k as u32;
    let bitmap = l.approval_bitmap(proposal_id);
    lemma_one_more_bit(bitmap, index, 32);
    assert((bitmap | (1u32 << index)) | (1u32 << index) == bitmap | (1u32 << index))
        by (bit_vector);
    let first = MilestoneEscrow::multisig_approve_outcome(l, c, signer, proposal_id).result->Ok_0;
    assert(first.ledger.approval_bitmap(proposal_id) == bitmap | (1u32 << index));
    let again = MilestoneEscrow::multisig_approve_outcome(first.ledger, c, signer, proposal_id);
    assert(again.result is Ok);
    assert((again.result->Ok_0).ledger =~= first.ledger) by {
        assert((again.result->Ok_0).ledger.temporary.multisig_approval
            =~= first.ledger.temporary.multisig_approval);
    }
}

/// An address that is in a list has a first place in it.
pub(crate) proof fn lemma_first_index(list: Seq<Address>, address: Address)
    requires
        list.contains(address),
    ensures
        0 <= MilestoneEscrow::first_index(list, address) < list.len(),
        list[MilestoneEscrow::first_index(list, address)] == address,
        forall|j: int|
            0 <= j < MilestoneEscrow::first_index(list, address) ==> #[trigger] list[j] != address,
{
    let i = choose|i: int| 0 <= i < list.len() && list[i] == address;
    lemma_some_first(list, address, i);
}

proof fn lemma_some_first(list: Seq<Address>, address: Address, i: int)
    requires
        0 <= i < list.len(),
        list[i] == address,
    ensures
        exists|k: int|
            0 <= k < list.len() && #[trigger] list[k] == address && forall|j: int|
                0 <= j < k ==> #[trigger] list[j] != address,
    decreases i,
{
    if exists|j: int| 0 <= j < i && #[trigger] list[j] == address {
        let j = choose|j: int| 0 <= j < i && #[trigger] list[j] == address;
        lemma_some_first(list, address, j);
    } else {
        assert(list[i] == address);
    }
}

/// A successor takes over only once as many signers as the threshold says have
/// approved; then both copies of the admin are replaced.
pub proof fn a_transfer_takes_the_threshold(l: LedgerView)
    requires
        l.sound(),
    ensures
        MilestoneEscrow::execute_admin_transfer_outcome(l).result matches Ok(step) ==> {
            let pending = l.persistent.pending_admin_transfer->0;
            &&& MilestoneEscrow::approvals(l, pending.proposal_id) >= (
            l.instance.multisig_threshold->0)
            &&& step.ledger.persistent.admin == Some(pending.new_admin)
            &&& step.ledger.instance.admin == Some(pending.new_admin)
            &&& step.ledger.persistent.pending_admin_transfer is None
        },
{
}

/// A milestone can be claimed no sooner than the time that is left says, and
/// from then on the clock is no reason to refuse.
pub proof fn a_claim_opens_when_the_time_is_up(
    l: LedgerView,
    c: Context,
    freelancer: Address,
    index: u32,
)
    requires
        l.instance.job is Some,
        l.milestone(index) is Some,
    ensures
        ({
            let time_left = l.deadline(l.instance.job->0, index, l.milestone(index)->0)
                - c.timestamp;
            let claim = MilestoneEscrow::claim_auto_release_outcome(l, c, freelancer, index);
            &&& claim.result is Ok ==> time_left <= 0
            &&& time_left <= 0 ==> !claim.refused_with(Error::DeadlineNotPassed)
        }),
{
}

/// When a milestone was delivered is known even after the note of it expired.
pub proof fn delivery_time_survives_expiry(
    l: LedgerView,
    c: Context,
    freelancer: Address,
    index: u32,
    left: Map<u32, u64>,
)
    requires
        MilestoneEscrow::mark_delivered_outcome(l, c, freelancer, index).result is Ok,
        !left.contains_key(index),
    ensures
        ({
            let noted = (MilestoneEscrow::mark_delivered_outcome(
                l,
                c,
                freelancer,
                index,
            ).result->Ok_0).ledger;
            let expired = noted.with_temporary(
                TemporaryView { delivered_at: left, ..noted.temporary },
            );
            let m = noted.milestone(index)->0;
            &&& m.status == MilestoneStatus::Delivered
            &&& noted.delivered_at(index, m) == c.timestamp
            &&& expired.delivered_at(index, m) == c.timestamp
        }),
{
}

/// Settling a dispute never asks for more than the contract holds.
pub proof fn disputes_are_settled_within_the_balance(
    l: LedgerView,
    c: Context,
    who: Address,
    index: u32,
    flag: bool,
    client_refund_bps: u32,
    elapsed_seconds: i128,
    total_seconds: i128,
)
    requires
        l.sound(),
    ensures
        MilestoneEscrow::resolve_dispute_outcome(l, c, who, index, flag).result matches Ok(step)
            ==> c.paid_out(step.actions) <= c.balance,
        MilestoneEscrow::apply_dispute_arbitration_split_outcome(
            l,
            c,
            who,
            index,
            client_refund_bps,
        ).result matches Ok(step) ==> c.paid_out(step.actions) <= c.balance,
        MilestoneEscrow::admin_override_streaming_release_outcome(
            l,
            c,
            who,
            index,
            elapsed_seconds,
            total_seconds,
        ).result matches Ok(step) ==> c.paid_out(step.actions) <= c.balance,
{
    let meta = l.instance.job->0;
    let resolved = MilestoneEscrow::resolve_dispute_outcome(l, c, who, index, flag);
    if let Ok(step) = resolved.result {
        crate::laws::lemma_one_payment(c, step.actions[0]);
    }
    let split = MilestoneEscrow::apply_dispute_arbitration_split_outcome(
        l,
        c,
        who,
        index,
        client_refund_bps,
    );
    if let Ok(step) = split.result {
        let m = l.milestone(index)->0;
        crate::laws::lemma_floor_is_a_part(m.unpaid(), client_refund_bps as int);
        crate::laws::lemma_two_payments(
            c,
            meta.token,
            meta.client,
            step.value.client_refund as int,
            meta.freelancer,
            step.value.freelancer_payout as int,
        );
    }
    let streamed = MilestoneEscrow::admin_override_streaming_release_outcome(
        l,
        c,
        who,
        index,
        elapsed_seconds,
        total_seconds,
    );
    if let Ok(step) = streamed.result {
        let m = l.milestone(index)->0;
        MilestoneEscrow::rounded_share_is_a_part(
            m.unpaid(),
            elapsed_seconds as int,
            total_seconds as int,
        );
        crate::laws::lemma_two_payments(
            c,
            meta.token,
            meta.client,
            step.value.second as int,
            meta.freelancer,
            step.value.first as int,
        );
    }
}

/// A call that is refused alike with nothing held and with the most that can be
/// held is refused like that whatever is held.
pub proof fn a_refusal_between_extremes_is_certain(
    l: LedgerView,
    c: Context,
    who: Address,
    index: u32,
    amount: i128,
    seconds: i128,
    a: u32,
    b: u32,
    flag: bool,
)
    ensures
        ({
            let poor = Context { balance: 0, ..c };
            let rich = Context { balance: i128::MAX, ..c };
            let cancelling = |h: Context| MilestoneEscrow::cancel_escrow_outcome(l, h, who);
            let cancel_claim = |h: Context|
                MilestoneEscrow::cancel_escrow_claim_refund_outcome(l, h, who, amount, a, b);
            let resolving = |h: Context|
                MilestoneEscrow::resolve_dispute_outcome(l, h, who, index, flag);
            let splitting = |h: Context|
                MilestoneEscrow::apply_dispute_arbitration_split_outcome(l, h, who, index, a);
            let approving = |h: Context|
                MilestoneEscrow::multisig_approve_outcome(l, h, who, index);
            let streaming = |h: Context|
                MilestoneEscrow::admin_override_streaming_release_outcome(
                    l,
                    h,
                    who,
                    index,
                    amount,
                    seconds,
                );
            let freeze_claim = |h: Context|
                MilestoneEscrow::emergency_pause_claim_refund_outcome(l, h, who, amount, a, b);
            let withholding = |h: Context|
                MilestoneEscrow::tax_withholding_deductions_outcome(l, h, index, a);
            let taxing = |h: Context|
                MilestoneEscrow::admin_tax_withholding_deductions_outcome(l, h, who, index, a);
            &&& cancelling(c).unmoved_by(cancelling(poor), cancelling(rich))
            &&& cancel_claim(c).unmoved_by(cancel_claim(poor), cancel_claim(rich))
            &&& resolving(c).unmoved_by(resolving(poor), resolving(rich))
            &&& splitting(c).unmoved_by(splitting(poor), splitting(rich))
            &&& approving(c).unmoved_by(approving(poor), approving(rich))
            &&& streaming(c).unmoved_by(streaming(poor), streaming(rich))
            &&& freeze_claim(c).unmoved_by(freeze_claim(poor), freeze_claim(rich))
            &&& withholding(c).unmoved_by(withholding(poor), withholding(rich))
            &&& taxing(c).unmoved_by(taxing(poor), taxing(rich))
        }),
{
}

/// Taking the token that was just put on the whitelist off again leaves the
/// ledger as it was.
pub proof fn removing_a_new_token_restores_the_whitelist(
    l: LedgerView,
    c: Context,
    admin: Address,
    token: Address,
)
    requires
        l.sound(),
    ensures
        MilestoneEscrow::add_whitelisted_token_outcome(l, c, admin, token).result matches Ok(
            added,
        ) ==> MilestoneEscrow::remove_whitelisted_token_outcome(
            added.ledger,
            admin,
            token,
        ).result matches Ok(removed) && removed.ledger == l,
{
    if let Ok(added) = MilestoneEscrow::add_whitelisted_token_outcome(l, c, admin, token).result {
        let before = l.instance.whitelisted_tokens->0;
        let tokens = before.push(token);
        let last = before.len() as int;
        assert(tokens[last] == token);
        assert(tokens.contains(token));
        assert forall|j: int| 0 <= j < last implies #[trigger] tokens[j] != token by {
            assert(before[j] == tokens[j]);
        }
        let i = MilestoneEscrow::first_index(tokens, token);
        assert(0 <= i < tokens.len() && tokens[i] == token);
        assert(MilestoneEscrow::swap_removed(tokens, i) =~= before);
    }
}

/// An amount that is shared out by weights is shared out fairly: each party
/// gets its exact share rounded down or up, and one without weight nothing.
pub proof fn allocations_are_fair(total: i128, weights: Seq<i128>, i: int)
    requires
        total >= 0,
        0 <= i < weights.len(),
        MilestoneEscrow::valid_weights(weights),
        LargestRemainder::representable(total as int, weights),
    ensures
        ({
            let exact = total * weights[i] / LargestRemainder::sum(weights);
            let share = LargestRemainder::share(
                total as int,
                weights,
                LargestRemainder::sum(weights),
                i,
            );
            &&& exact <= share <= exact + 1
            &&& weights[i] == 0 ==> share == 0
        }),
{
    LargestRemainder::share_is_fair(total as int, weights, LargestRemainder::sum(weights), i);
}

/// Fees are shared out fairly by any allocation that makes up the whole.
pub proof fn fee_shares_are_fair(total_amount: i128, fees: PlatformFeeAllocation)
    requires
        fees.client_bps + fees.freelancer_bps + fees.treasury_bps == BPS_SCALE,
    ensures
        MilestoneEscrow::platform_fee_result(total_amount, fees) matches Ok(d) ==> {
            let scale = BPS_SCALE as int;
            &&& total_amount * fees.client_bps / scale <= d.client_amount <= total_amount
                * fees.client_bps / scale + 1
            &&& total_amount * fees.freelancer_bps / scale <= d.freelancer_amount <= total_amount
                * fees.freelancer_bps / scale + 1
            &&& total_amount * fees.treasury_bps / scale <= d.treasury_amount <= total_amount
                * fees.treasury_bps / scale + 1
        },
        total_amount >= 0 && total_amount * BPS_SCALE <= i128::MAX
            ==> MilestoneEscrow::platform_fee_result(total_amount, fees) is Ok,
{
    let weights = MilestoneEscrow::fee_weights(fees);
    let total = total_amount as int;
    let scale = BPS_SCALE as int;
    MilestoneEscrow::lemma_sum_of_three(weights);
    if total_amount >= 0 {
        if total_amount * BPS_SCALE <= i128::MAX {
            assert forall|i: int| 0 <= i < weights.len() implies total * (#[trigger] weights[i])
                <= i128::MAX by {
                let w = weights[i] as int;
                assert(0 <= w <= 10_000);
                assert(total * w <= total * 10_000) by (nonlinear_arith)
                    requires
                        total >= 0,
                        0 <= w <= 10_000,
                ;
            }
            LargestRemainder::residue_is_small(total, weights, scale);
        }
        if LargestRemainder::representable(total, weights) {
            LargestRemainder::residue_is_small(total, weights, scale);
            LargestRemainder::share_is_fair(total, weights, scale, 0);
            LargestRemainder::share_is_fair(total, weights, scale, 1);
            LargestRemainder::share_is_fair(total, weights, scale, 2);
            assert(total * weights[0] <= i128::MAX);
            assert(total * weights[1] <= i128::MAX);
            assert(total * weights[2] <= i128::MAX);
            MilestoneEscrow::rounded_share_is_a_part(total, weights[0] as int, scale);
            MilestoneEscrow::rounded_share_is_a_part(total, weights[1] as int, scale);
            MilestoneEscrow::rounded_share_is_a_part(total, weights[2] as int, scale);
        }
    }
}

} // verus!
