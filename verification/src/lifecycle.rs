//! Setting a job up and funding it.

use vstd::prelude::*;

use crate::amounts::Reading;
use crate::arith::MilestoneEscrow;
use crate::events::{Event, FundedEvent, InitializedEvent};
use crate::host::{Action, Context, Host, HostView, InstanceView, LedgerView, PersistentView};
use crate::outcome::Outcome;
use crate::shares::LargestRemainder;
use crate::types::{
    Address, Error, JobMeta, Milestone, MilestoneStatus, PlatformFeeAllocation, BPS_SCALE,
};

verus! {

impl Milestone {
    /// A milestone that nothing has happened to.
    pub open spec fn fresh(amount: i128) -> Milestone {
        Milestone {
            amount,
            released_amount: 0,
            status: MilestoneStatus::Pending,
            delivered_at: 0,
        }
    }

    /// A milestone that is settled in full.
    pub open spec fn settled(self, status: MilestoneStatus) -> Milestone {
        Milestone { released_amount: self.amount, status, ..self }
    }
}

impl MilestoneEscrow {
    /// Whether a job can be made of these amounts: there is at least one, each
    /// is positive, and their sum is representable.
    pub open spec fn valid_amounts(amounts: Seq<i128>) -> bool {
        &&& amounts.len() > 0
        &&& forall|i: int| 0 <= i < amounts.len() ==> (#[trigger] amounts[i]) > 0
        &&& LargestRemainder::sum(amounts) <= i128::MAX
    }

    /// The milestones once those of a new job are stored.
    pub open spec fn new_milestones(old: Map<u32, Milestone>, amounts: Seq<i128>) -> Map<
        u32,
        Milestone,
    > {
        Map::new(
            |i: u32| i < amounts.len() || old.contains_key(i),
            |i: u32|
                if i < amounts.len() {
                    Milestone::fresh(amounts[i as int])
                } else {
                    old[i]
                },
        )
    }

    pub open spec fn initialize_outcome(
        l: LedgerView,
        c: Context,
        admin: Address,
        meta: JobMeta,
        list: soroban_sdk::Vec<i128>,
    ) -> Outcome<()> {
        let signed = seq![admin];
        let amounts = crate::amounts::amounts(list);
        if l.instance.job is Some {
            Outcome::refuse(signed, Error::AlreadyInitialized)
        } else if c.unfit(admin) || c.unfit(meta.client) || c.unfit(meta.freelancer) || c.unfit(
            meta.arbiter,
        ) || c.unfit(meta.token) {
            Outcome::refuse(signed, Error::InvalidAddress)
        } else if !Self::valid_amounts(amounts) || meta.auto_release_seconds == 0 {
            Outcome::refuse(signed, Error::InvalidAmount)
        } else {
            Outcome::accept(
                signed,
                (),
                LedgerView {
                    instance: InstanceView {
                        job: Some(meta),
                        admin: Some(admin),
                        version: Some(1),
                        whitelisted_tokens: Some(seq![meta.token]),
                        emergency_paused: Some(false),
                        platform_fee_allocation: Some(
                            PlatformFeeAllocation {
                                client_bps: 0,
                                freelancer_bps: BPS_SCALE,
                                treasury_bps: 0,
                                locked: false,
                            },
                        ),
                        ..l.instance
                    },
                    persistent: PersistentView {
                        admin: Some(admin),
                        milestones: Self::new_milestones(l.persistent.milestones, amounts),
                        ..l.persistent
                    },
                    ..l
                },
                Seq::empty(),
                seq![
                    Event::Initialized(
                        InitializedEvent {
                            client: meta.client,
                            freelancer: meta.freelancer,
                            arbiter: meta.arbiter,
                            token: meta.token,
                            auto_release_seconds: meta.auto_release_seconds,
                            milestone_amounts: list,
                            total_amount: meta.total_amount,
                            milestone_count: meta.milestone_count,
                        },
                    ),
                ],
            )
        }
    }

    /// The sum of the amounts of a list that a job can be made of.
    pub(crate) fn checked_initialize_total(list: &soroban_sdk::Vec<i128>) -> (r: Result<
        i128,
        Error,
    >)
        requires
            crate::amounts::legible(*list, 1),
        ensures
            r == (if Self::valid_amounts(crate::amounts::amounts(*list)) {
                Ok(LargestRemainder::sum(crate::amounts::amounts(*list)) as i128)
            } else {
                Err(Error::InvalidAmount)
            }),
            r is Ok ==> crate::amounts::readable(*list),
    {
        match crate::amounts::read(list, 1) {
            Reading::Amounts(amounts, sum) => if amounts.len() > 0 {
                Ok(sum)
            } else {
                Err(Error::InvalidAmount)
            },
            _ => Err(Error::InvalidAmount),
        }
    }

    /// Whether a job can be set up as far as its parties go: there is none yet,
    /// and every address is fit for one.
    pub open spec fn open_to(
        l: LedgerView,
        c: Context,
        admin: Address,
        client: Address,
        freelancer: Address,
        arbiter: Address,
        token: Address,
    ) -> bool {
        &&& l.instance.job is None
        &&& !c.unfit(admin) && !c.unfit(client) && !c.unfit(freelancer) && !c.unfit(arbiter)
        &&& !c.unfit(token)
    }

    /// Whether [`MilestoneEscrow::initialize`] meets no amount that cannot be
    /// read: what it is refused for is known before, or by the amounts that can
    /// be.
    pub fn initialize_can_run(
        host: &Host,
        admin: Address,
        client: Address,
        freelancer: Address,
        arbiter: Address,
        token: Address,
        milestone_amounts: &soroban_sdk::Vec<i128>,
    ) -> (r: bool)
        ensures
            r == (Self::open_to(
                host@.ledger,
                host@.context,
                admin,
                client,
                freelancer,
                arbiter,
                token,
            ) ==> crate::amounts::legible(*milestone_amounts, 1)),
    {
        if host.ledger.instance.job.is_some() || Self::is_unfit(host, admin) || Self::is_unfit(
            host,
            client,
        ) || Self::is_unfit(host, freelancer) || Self::is_unfit(host, arbiter) || Self::is_unfit(
            host,
            token,
        ) {
            return true;
        }
        !matches!(crate::amounts::read(milestone_amounts, 1), Reading::Illegible)
    }

    /// Sets up a job: its parties, its settlement token and its milestones.
    ///
    /// It must not meet an amount that cannot be read, as
    /// [`MilestoneEscrow::initialize_can_run`] says.
    pub fn initialize(
        host: &mut Host,
        admin: Address,
        client: Address,
        freelancer: Address,
        arbiter: Address,
        token: Address,
        auto_release_seconds: u64,
        milestone_amounts: soroban_sdk::Vec<i128>,
    ) -> (r: Result<(), Error>)
        requires
            Self::open_to(
                old(host)@.ledger,
                old(host)@.context,
                admin,
                client,
                freelancer,
                arbiter,
                token,
            ) ==> crate::amounts::legible(milestone_amounts, 1),
        ensures
            ({
                let amounts = crate::amounts::amounts(milestone_amounts);
                let meta = JobMeta {
                    client,
                    freelancer,
                    arbiter,
                    token,
                    funded: false,
                    auto_release_seconds,
                    milestone_count: amounts.len() as u32,
                    total_amount: LargestRemainder::sum(amounts) as i128,
                };
                old(host)@.comes_to(
                    final(host)@,
                    r,
                    Self::initialize_outcome(
                        old(host)@.ledger,
                        old(host)@.context,
                        admin,
                        meta,
                        milestone_amounts,
                    ),
                )
            }),
            r is Ok ==> final(host)@.ledger.instance.job->0.milestone_count
                == crate::amounts::amounts(milestone_amounts).len()
                && final(host)@.ledger.instance.job->0.total_amount == LargestRemainder::sum(
                crate::amounts::amounts(milestone_amounts),
            ),
    {
        let ghost amounts = crate::amounts::amounts(milestone_amounts);
        host.require_auth(admin);
        if host.ledger.instance.job.is_some() {
            return Err(Error::AlreadyInitialized);
        }
        if Self::is_unfit(host, admin) || Self::is_unfit(host, client) || Self::is_unfit(
            host,
            freelancer,
        ) || Self::is_unfit(host, arbiter) || Self::is_unfit(host, token) {
            return Err(Error::InvalidAddress);
        }
        let milestone_count: u32 = crate::amounts::list_len(&milestone_amounts);
        let total_amount: i128 = Self::checked_initialize_total(&milestone_amounts)?;
        if auto_release_seconds == 0 {
            return Err(Error::InvalidAmount);
        }
        let ghost before = host@;
        let ghost stored = host@.ledger.persistent.milestones;
        proof {
            LargestRemainder::lemma_sum_prefix(amounts, 0);
            assert(Self::new_milestones(stored, amounts.take(0)) =~= stored);
        }
        let mut index: u32 = 0;
        while index < milestone_count
            invariant
                crate::amounts::readable(milestone_amounts),
                amounts == crate::amounts::amounts(milestone_amounts),
                milestone_count == amounts.len(),
                index <= milestone_count,
                host@ == (HostView {
                    ledger: before.ledger.with_persistent(
                        PersistentView {
                            milestones: Self::new_milestones(stored, amounts.take(index as int)),
                            ..before.ledger.persistent
                        },
                    ),
                    ..before
                }),
            decreases milestone_count - index,
        {
            let amount: i128 = match crate::amounts::list_get(&milestone_amounts, index) {
                Some(amount) => amount,
                None => 0,
            };
            let milestone = Milestone {
                amount,
                released_amount: 0,
                status: MilestoneStatus::Pending,
                delivered_at: 0,
            };
            host.ledger.persistent.milestones.set(index, milestone);
            proof {
                assert(amounts[index as int] == amount);
                assert(Self::new_milestones(stored, amounts.take(index as int)).insert(
                    index,
                    milestone,
                ) =~= Self::new_milestones(stored, amounts.take(index as int + 1)));
            }
            index += 1;
        }
        assert(amounts.take(milestone_count as int) =~= amounts);
        let mut whitelist: Vec<Address> = Vec::new();
        whitelist.push(token);
        host.ledger.instance.job = Some(
            JobMeta {
                client,
                freelancer,
                arbiter,
                token,
                funded: false,
                auto_release_seconds,
                milestone_count,
                total_amount,
            },
        );
        host.ledger.instance.admin = Some(admin);
        host.ledger.persistent.admin = Some(admin);
        host.ledger.instance.version = Some(1);
        host.ledger.instance.whitelisted_tokens = Some(whitelist);
        host.ledger.instance.emergency_paused = Some(false);
        host.ledger.instance.platform_fee_allocation = Some(
            PlatformFeeAllocation {
                client_bps: 0,
                freelancer_bps: BPS_SCALE,
                treasury_bps: 0,
                locked: false,
            },
        );
        host.publish(
            Event::Initialized(
                InitializedEvent {
                    client,
                    freelancer,
                    arbiter,
                    token,
                    auto_release_seconds,
                    milestone_amounts,
                    total_amount,
                    milestone_count,
                },
            ),
        );
        assert(whitelist@ =~= seq![token]);
        Ok(())
    }

    /// The sum of the first `n` milestones, or what is wrong with the first
    /// that is missing, not positive or too large to add.
    pub open spec fn running_total(milestones: Map<u32, Milestone>, n: nat) -> Result<i128, Error>
        decreases n,
    {
        if n == 0 {
            Ok(0)
        } else {
            match Self::running_total(milestones, (n - 1) as nat) {
                Err(error) => Err(error),
                Ok(total) => match crate::table::lookup(milestones, (n - 1) as u32) {
                    None => Err(Error::InvalidMilestone),
                    Some(m) => if m.amount <= 0 || total + m.amount > i128::MAX {
                        Err(Error::InvalidAmount)
                    } else {
                        Ok((total + m.amount) as i128)
                    },
                },
            }
        }
    }

    /// What has to be deposited: the sum of all milestones, which has to be
    /// positive and the recorded total.
    pub open spec fn job_total(l: LedgerView, meta: JobMeta) -> Result<i128, Error> {
        match Self::running_total(l.persistent.milestones, meta.milestone_count as nat) {
            Err(error) => Err(error),
            Ok(total) => if total != meta.total_amount || total <= 0 {
                Err(Error::InvalidAmount)
            } else {
                Ok(total)
            },
        }
    }

    pub open spec fn whitelisted(l: LedgerView, token: Address) -> bool {
        l.instance.whitelisted_tokens matches Some(tokens) && tokens.contains(token)
    }

    pub open spec fn fund_outcome(l: LedgerView, c: Context, client: Address) -> Outcome<()> {
        let signed = seq![client];
        if let Some(error) = l.closed_error() {
            Outcome::refuse(Seq::empty(), error)
        } else if c.unfit(client) {
            Outcome::refuse(Seq::empty(), Error::InvalidAddress)
        } else {
            match l.instance.job {
                None => Outcome::refuse(signed, Error::NotInitialized),
                Some(meta) => if meta.funded {
                    Outcome::refuse(signed, Error::AlreadyFunded)
                } else if meta.client != client {
                    Outcome::refuse(signed, Error::Unauthorized)
                } else if !Self::whitelisted(l, meta.token) {
                    Outcome::refuse(signed, Error::TokenNotWhitelisted)
                } else {
                    match Self::job_total(l, meta) {
                        Err(error) => Outcome::refuse(signed, error),
                        Ok(total_amount) => Outcome::accept(
                            signed,
                            (),
                            l.with_instance(
                                InstanceView {
                                    job: Some(JobMeta { funded: true, ..meta }),
                                    ..l.instance
                                },
                            ),
                            seq![
                                Action::Transfer {
                                    token: meta.token,
                                    from: client,
                                    to: c.contract,
                                    amount: total_amount,
                                },
                            ],
                            seq![
                                Event::Funded(
                                    FundedEvent {
                                        contract_id: c.contract,
                                        client,
                                        freelancer: meta.freelancer,
                                        arbiter: meta.arbiter,
                                        token: meta.token,
                                        total_amount,
                                        milestone_count: meta.milestone_count,
                                        auto_release_seconds: meta.auto_release_seconds,
                                        funded: true,
                                    },
                                ),
                            ],
                        ),
                    }
                },
            }
        }
    }

    /// What has to be deposited for a job.
    pub(crate) fn checked_job_total(host: &Host, meta: &JobMeta) -> (r: Result<i128, Error>)
        ensures
            r == Self::job_total(host@.ledger, *meta),
    {
        let ghost milestones = host@.ledger.persistent.milestones;
        let mut total: i128 = 0;
        let mut index: u32 = 0;
        while index < meta.milestone_count
            invariant
                milestones == host@.ledger.persistent.milestones,
                index <= meta.milestone_count,
                total >= 0,
                Self::running_total(milestones, index as nat) == Ok::<i128, Error>(total),
            decreases meta.milestone_count - index,
        {
            let milestone = match Self::load_milestone(host, index) {
                Ok(milestone) => milestone,
                Err(error) => {
                    proof {
                        Self::lemma_running_total_fails(
                            milestones,
                            index as nat + 1,
                            meta.milestone_count as nat,
                        );
                    }
                    return Err(error);
                },
            };
            total = match Self::checked_add_amount(total, milestone.amount) {
                Ok(total) => total,
                Err(error) => {
                    proof {
                        Self::lemma_running_total_fails(
                            milestones,
                            index as nat + 1,
                            meta.milestone_count as nat,
                        );
                    }
                    return Err(error);
                },
            };
            index += 1;
        }
        if total != meta.total_amount || total <= 0 {
            return Err(Error::InvalidAmount);
        }
        Ok(total)
    }

    proof fn lemma_running_total_fails(milestones: Map<u32, Milestone>, i: nat, n: nat)
        requires
            i <= n,
            Self::running_total(milestones, i) is Err,
        ensures
            Self::running_total(milestones, n) == Self::running_total(milestones, i),
        decreases n - i,
    {
        if i < n {
            Self::lemma_running_total_fails(milestones, i, (n - 1) as nat);
        }
    }

    /// Whether a list of addresses holds an address.
    pub(crate) fn contains_address(list: &Vec<Address>, address: Address) -> (r: bool)
        ensures
            r == list@.contains(address),
    {
        let mut i: usize = 0;
        while i < list.len()
            invariant
                i <= list@.len(),
                forall|j: int| 0 <= j < i ==> (#[trigger] list@[j]) != address,
            decreases list@.len() - i,
        {
            if list[i] == address {
                assert(list@[i as int] == address);
                return true;
            }
            i += 1;
        }
        false
    }

    /// Whether a token is on the whitelist.
    pub fn is_token_whitelisted(host: &Host, token: Address) -> (r: bool)
        ensures
            r == Self::whitelisted(host@.ledger, token),
            r <==> host@.ledger.instance.whitelisted_tokens is Some
                && host@.ledger.instance.whitelisted_tokens->0.contains(token),
    {
        match &host.ledger.instance.whitelisted_tokens {
            Some(tokens) => Self::contains_address(tokens, token),
            None => false,
        }
    }

    /// Deposits the whole job total.
    pub fn fund(host: &mut Host, client: Address) -> (r: Result<(), Error>)
        ensures
            old(host)@.comes_to(
                final(host)@,
                r,
                Self::fund_outcome(old(host)@.ledger, old(host)@.context, client),
            ),
    {
        Self::ensure_open(host)?;
        if Self::is_unfit(host, client) {
            return Err(Error::InvalidAddress);
        }
        host.require_auth(client);
        let meta = Self::load_job_meta(host)?;
        if meta.funded {
            return Err(Error::AlreadyFunded);
        }
        if meta.client != client {
            return Err(Error::Unauthorized);
        }
        if !Self::is_token_whitelisted(host, meta.token) {
            return Err(Error::TokenNotWhitelisted);
        }
        let total_amount: i128 = Self::checked_job_total(host, &meta)?;
        host.ledger.instance.job = Some(JobMeta { funded: true, ..meta });
        let contract = host.contract;
        host.transfer(meta.token, client, contract, total_amount);
        host.publish(
            Event::Funded(
                FundedEvent {
                    contract_id: contract,
                    client,
                    freelancer: meta.freelancer,
                    arbiter: meta.arbiter,
                    token: meta.token,
                    total_amount,
                    milestone_count: meta.milestone_count,
                    auto_release_seconds: meta.auto_release_seconds,
                    funded: true,
                },
            ),
        );
        Ok(())
    }
}

} // verus!
