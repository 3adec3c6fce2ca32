//! The abstract state of the escrow contract and what each of its entry points
//! does to it.
use vstd::prelude::*;
use crate::escrow_types::{
    CancellationRebateInfo, DiscountTier, Error, EscrowEventView, JobStatus, JobStatusCounts, JobView, MilestoneView,
    SLAConfig,
    SLAStatus,
};
use crate::fees::{bps_share, saturating_fee, tier_discount, PLATFORM_FEE_BPS};

verus! {

/// Ledgers after a job's creation during which it can be cancelled with a rebate.
pub const CANCELLATION_GRACE_PERIOD: u64 = 100;

/// The largest description payload accepted until the administrator sets another.
pub const MAX_DESC_PAYLOAD: u32 = 8192;

/// Everything the escrow contract keeps in storage.
pub struct EscrowView {
    pub admin: Option<Seq<char>>,
    pub native_token: Option<Seq<char>>,
    pub job_count: u64,
    pub completed_jobs_count: u64,
    pub desc_payload_max: u32,
    pub fees: i128,
    pub allowed_tokens: Seq<Seq<char>>,
    pub whitelist_mode: bool,
    pub whitelisted: Map<Seq<char>, bool>,
    pub blacklisted: Map<Seq<char>, bool>,
    pub trusted_forwarders: Map<Seq<char>, bool>,
    pub jobs: Map<u64, JobView>,
    pub milestone_counts: Map<u64, u32>,
    pub milestones: Map<(u64, u32), MilestoneView>,
    pub sla_configs: Map<u64, SLAConfig>,
    pub sla_accepted_at: Map<u64, u64>,
    pub sla_penalty_applied: Map<u64, bool>,
    pub freelancer_jobs: Map<Seq<char>, Seq<u64>>,
    pub client_jobs: Map<Seq<char>, Seq<u64>>,
    pub discount_tiers: Seq<DiscountTier>,
    pub user_completed_jobs: Map<Seq<char>, u32>,
}

/// The list stored for `a`, or the empty list.
pub open spec fn list_of(m: Map<Seq<char>, Seq<u64>>, a: Seq<char>) -> Seq<u64> {
    if m.contains_key(a) {
        m[a]
    } else {
        Seq::empty()
    }
}

impl EscrowView {
    /// Whether `a` passes the whitelist: always while whitelist mode is off.
    pub open spec fn whitelisted_addr(self, a: Seq<char>) -> bool {
        !self.whitelist_mode || self.whitelisted.contains_key(a)
    }

    /// Whether `a` is blacklisted.
    pub open spec fn blacklisted_addr(self, a: Seq<char>) -> bool {
        self.blacklisted.contains_key(a)
    }

    /// Why `a` may not act as a client or freelancer, if it may not.
    pub open spec fn access_error(self, a: Seq<char>) -> Option<Error> {
        if self.blacklisted_addr(a) {
            Some(Error::Blacklisted)
        } else if !self.whitelisted_addr(a) {
            Some(Error::NotWhitelisted)
        } else {
            None
        }
    }

    /// The administrator, or why there is none.
    pub open spec fn admin_result(self) -> Result<Seq<char>, Error> {
        match self.admin {
            Some(a) => Ok(a),
            None => Err(Error::NotInitialized),
        }
    }

    /// The number of jobs `user` has completed as a freelancer.
    pub open spec fn completed_by(self, user: Seq<char>) -> u32 {
        if self.user_completed_jobs.contains_key(user) {
            self.user_completed_jobs[user]
        } else {
            0
        }
    }

    /// Whether the SLA penalty has been applied to job `id`.
    pub open spec fn penalty_applied(self, id: u64) -> bool {
        self.sla_penalty_applied.contains_key(id) && self.sla_penalty_applied[id]
    }

    /// The ledger at which job `id` was accepted under an SLA, or 0.
    pub open spec fn accepted_at(self, id: u64) -> u64 {
        if self.sla_accepted_at.contains_key(id) {
            self.sla_accepted_at[id]
        } else {
            0
        }
    }

    /// The state with `job` stored under `id`.
    pub open spec fn with_job(self, id: u64, job: JobView) -> EscrowView {
        EscrowView { jobs: self.jobs.insert(id, job), ..self }
    }

    /// The state with `job` stored under `id` and its status set to `status`.
    pub open spec fn with_status(self, id: u64, status: JobStatus) -> EscrowView {
        self.with_job(id, JobView { status, ..self.jobs[id] })
    }
}

} // verus!

verus! {

/// `i` is the first position of `t` in `s`.
pub open spec fn first_occurrence(s: Seq<Seq<char>>, t: Seq<char>, i: int) -> bool {
    &&& 0 <= i < s.len()
    &&& s[i] == t
    &&& forall|j: int| 0 <= j < i ==> s[j] != t
}

/// The allow-list with `t` appended, unless it holds `t` already.
pub open spec fn token_added(s: Seq<Seq<char>>, t: Seq<char>) -> Seq<Seq<char>> {
    if s.contains(t) {
        s
    } else {
        s.push(t)
    }
}

/// The allow-list without its first `t`, the order of the rest kept.
pub open spec fn token_removed(s: Seq<Seq<char>>, t: Seq<char>) -> Seq<Seq<char>> {
    if s.contains(t) {
        s.remove(choose|i: int| first_occurrence(s, t, i))
    } else {
        s
    }
}

/// Whether `t` may be used: every token while the allow-list is empty.
pub open spec fn token_allowed(s: Seq<Seq<char>>, t: Seq<char>) -> bool {
    s.len() == 0 || s.contains(t)
}

/// No token occurs twice in the allow-list.
pub open spec fn no_duplicates(s: Seq<Seq<char>>) -> bool {
    forall|i: int, j: int| 0 <= i < j < s.len() ==> s[i] != s[j]
}

} // verus!

verus! {

/// A job as posted: open, unassigned, created at ledger `now`.
pub open spec fn open_job(
    client: Seq<char>,
    amount: i128,
    description_hash: Seq<u8>,
    now: u32,
    deadline: u64,
    token: Seq<char>,
    title: Seq<u8>,
    category: Seq<char>,
) -> JobView {
    JobView {
        client,
        freelancer: None,
        amount,
        description_hash,
        status: JobStatus::Open,
        created_at: now as u64,
        deadline,
        token,
        revision_count: 0,
        submitted_at: 0,
        title,
        category,
    }
}

/// The description hash of a job created from milestones: 32 zero bytes.
pub open spec fn zero_hash() -> Seq<u8> {
    Seq::new(32, |i: int| 0u8)
}

impl EscrowView {
    /// Why `post_job` refuses, if it does: the checks in the order the contract makes them.
    pub open spec fn post_job_error(
        self,
        client: Seq<char>,
        amount: i128,
        description_payload_len: u32,
        deadline: u64,
        now: u32,
    ) -> Option<Error> {
        if self.access_error(client) is Some {
            self.access_error(client)
        } else if amount <= 0 {
            Some(Error::InvalidAmount)
        } else if description_payload_len > self.desc_payload_max {
            Some(Error::PayloadTooLarge)
        } else if deadline <= now {
            Some(Error::DeadlineTooSoon)
        } else if self.job_count == u64::MAX {
            Some(Error::ArithmeticOverflow)
        } else {
            None
        }
    }

    /// The state with `job` stored under the next job id, which is counted and
    /// appended to its client's jobs.
    pub open spec fn with_posted_job(self, job: JobView) -> EscrowView {
        let id = (self.job_count + 1) as u64;
        EscrowView {
            job_count: id,
            jobs: self.jobs.insert(id, job),
            client_jobs: self.client_jobs.insert(job.client, list_of(self.client_jobs, job.client).push(id)),
            ..self
        }
    }

    /// The state with the milestones `ms` stored under job `id`, over what was stored there.
    pub open spec fn with_milestones(self, id: u64, ms: Seq<MilestoneView>) -> EscrowView {
        EscrowView {
            milestone_counts: self.milestone_counts.insert(id, ms.len() as u32),
            milestones: self.milestones.union_prefer_right(
                Map::new(|k: (u64, u32)| k.0 == id && k.1 < ms.len(), |k: (u64, u32)| ms[k.1 as int]),
            ),
            ..self
        }
    }
}

/// The sum of the milestones' amounts, or the error met adding them up in order:
/// `InvalidAmount` at an amount that is not positive, `ArithmeticOverflow` where the sum
/// leaves the range of `i128`.
pub open spec fn milestones_total(ms: Seq<MilestoneView>) -> Result<i128, Error>
    decreases ms.len(),
{
    if ms.len() == 0 {
        Ok(0)
    } else {
        match milestones_total(ms.drop_last()) {
            Err(e) => Err(e),
            Ok(t) => if ms.last().amount <= 0 {
                Err(Error::InvalidAmount)
            } else if t + ms.last().amount > i128::MAX {
                Err(Error::ArithmeticOverflow)
            } else {
                Ok((t + ms.last().amount) as i128)
            },
        }
    }
}

impl EscrowView {
    /// The total `client` would lock for a job paid in the milestones `ms`, or why
    /// the checks made before the client's balance is read refuse it: the client's
    /// access, then the milestones' amounts and their sum.
    pub open spec fn milestone_total_checked(self, client: Seq<char>, ms: Seq<MilestoneView>) -> Result<
        i128,
        Error,
    > {
        if self.access_error(client) is Some {
            Err(self.access_error(client).unwrap())
        } else {
            match milestones_total(ms) {
                Err(e) => Err(e),
                Ok(total) => if total <= 0 {
                    Err(Error::InvalidAmount)
                } else {
                    Ok(total)
                },
            }
        }
    }

    /// Why `create_job_with_milestones` refuses, if it does.
    pub open spec fn milestone_job_error(
        self,
        client: Seq<char>,
        ms: Seq<MilestoneView>,
        client_balance: i128,
    ) -> Option<Error> {
        if self.access_error(client) is Some {
            self.access_error(client)
        } else {
            match milestones_total(ms) {
                Err(e) => Some(e),
                Ok(total) => if total <= 0 {
                    Some(Error::InvalidAmount)
                } else if client_balance < total {
                    Some(Error::InsufficientBalance)
                } else if self.job_count == u64::MAX {
                    Some(Error::ArithmeticOverflow)
                } else {
                    None
                },
            }
        }
    }
}

} // verus!

verus! {

/// Whether the job's freelancer is `a`.
pub open spec fn assigned_to(job: JobView, a: Seq<char>) -> bool {
    job.freelancer == Some(a)
}

impl EscrowView {
    /// Why `accept_job` refuses, if it does.
    pub open spec fn accept_job_error(self, freelancer: Seq<char>, id: u64) -> Option<Error> {
        if self.access_error(freelancer) is Some {
            self.access_error(freelancer)
        } else if !self.jobs.contains_key(id) {
            Some(Error::JobNotFound)
        } else if self.jobs[id].status != JobStatus::Open {
            Some(Error::JobNotOpen)
        } else if self.jobs[id].freelancer is Some {
            Some(Error::AlreadyAccepted)
        } else {
            None
        }
    }

    /// The state after `freelancer` accepts job `id` at ledger `now`.
    pub open spec fn accepted(self, freelancer: Seq<char>, id: u64, now: u32) -> EscrowView {
        let s = self.with_job(
            id,
            JobView { freelancer: Some(freelancer), status: JobStatus::InProgress, ..self.jobs[id] },
        );
        EscrowView {
            sla_accepted_at: if self.sla_configs.contains_key(id) {
                self.sla_accepted_at.insert(id, now as u64)
            } else {
                self.sla_accepted_at
            },
            freelancer_jobs: self.freelancer_jobs.insert(
                freelancer,
                list_of(self.freelancer_jobs, freelancer).push(id),
            ),
            ..s
        }
    }

    /// The ledger by which job `id`, under an SLA, must be delivered.
    pub open spec fn delivery_due(self, id: u64) -> int {
        self.accepted_at(id) + self.sla_configs[id].delivery_time_ledgers
    }

    /// Why `submit_work` refuses, if it does.
    pub open spec fn submit_work_error(self, freelancer: Seq<char>, id: u64) -> Option<Error> {
        if self.access_error(freelancer) is Some {
            self.access_error(freelancer)
        } else if !self.jobs.contains_key(id) {
            Some(Error::JobNotFound)
        } else if self.jobs[id].status != JobStatus::InProgress {
            Some(Error::JobNotInProgress)
        } else if !assigned_to(self.jobs[id], freelancer) {
            Some(Error::NotAuthorized)
        } else if self.sla_configs.contains_key(id) && self.delivery_due(id) > u64::MAX {
            Some(Error::ArithmeticOverflow)
        } else {
            None
        }
    }

    /// Whether work on job `id` submitted at ledger `now` breaches its SLA.
    pub open spec fn breaches_sla(self, id: u64, now: u32) -> bool {
        self.sla_configs.contains_key(id) && now > self.delivery_due(id)
    }

    /// The state after the freelancer submits work on job `id` at ledger `now`.
    pub open spec fn submitted(self, id: u64, now: u32) -> EscrowView {
        let s = self.with_job(
            id,
            JobView { status: JobStatus::SubmittedForReview, submitted_at: now as u64, ..self.jobs[id] },
        );
        EscrowView {
            sla_penalty_applied: if self.breaches_sla(id, now) {
                self.sla_penalty_applied.insert(id, true)
            } else {
                self.sla_penalty_applied
            },
            ..s
        }
    }

    /// Why a client's cancellation of job `id` refuses, if it does.
    pub open spec fn cancel_job_error(self, client: Seq<char>, id: u64) -> Option<Error> {
        if self.access_error(client) is Some {
            self.access_error(client)
        } else {
            self.cancel_checks(client, id)
        }
    }

    /// The checks on the job that any cancellation of open job `id` for `client` makes.
    pub open spec fn cancel_checks(self, client: Seq<char>, id: u64) -> Option<Error> {
        if !self.jobs.contains_key(id) {
            Some(Error::JobNotFound)
        } else if self.jobs[id].client != client {
            Some(Error::NotAuthorized)
        } else if self.jobs[id].status != JobStatus::Open {
            Some(Error::JobNotOpen)
        } else {
            None
        }
    }

    /// Why the freelancer's cancellation of job `id` refuses, if it does.
    pub open spec fn freelancer_cancel_error(self, freelancer: Seq<char>, id: u64) -> Option<Error> {
        if self.access_error(freelancer) is Some {
            self.access_error(freelancer)
        } else if !self.jobs.contains_key(id) {
            Some(Error::JobNotFound)
        } else if !assigned_to(self.jobs[id], freelancer) {
            Some(Error::NotAuthorized)
        } else if self.jobs[id].status != JobStatus::InProgress {
            Some(Error::JobNotInProgress)
        } else {
            None
        }
    }

    /// Why a relayed cancellation refuses, if it does: the access of the
    /// forwarder, the caller, then its trust, then the checks on the job.
    pub open spec fn relay_cancel_error(self, forwarder: Seq<char>, client: Seq<char>, id: u64) -> Option<Error> {
        if self.access_error(forwarder) is Some {
            self.access_error(forwarder)
        } else if !self.trusted_forwarders.contains_key(forwarder) {
            Some(Error::NotTrustedForwarder)
        } else {
            self.cancel_checks(client, id)
        }
    }

    /// Whether `caller` is the client or the freelancer of job `id`.
    pub open spec fn is_party(self, caller: Seq<char>, id: u64) -> bool {
        self.jobs[id].client == caller || assigned_to(self.jobs[id], caller)
    }

    /// Why `enforce_deadline` refuses, if it does.
    pub open spec fn enforce_deadline_error(self, caller: Seq<char>, id: u64, now: u32) -> Option<Error> {
        if self.access_error(caller) is Some {
            self.access_error(caller)
        } else if !self.jobs.contains_key(id) {
            Some(Error::JobNotFound)
        } else if !self.is_party(caller, id) {
            Some(Error::NotAuthorized)
        } else if self.jobs[id].status != JobStatus::Open && self.jobs[id].status
            != JobStatus::InProgress {
            Some(Error::JobNotActive)
        } else if now <= self.jobs[id].deadline {
            Some(Error::DeadlineNotPassed)
        } else {
            None
        }
    }

    /// Why `raise_dispute` refuses, if it does.
    pub open spec fn raise_dispute_error(self, caller: Seq<char>, id: u64) -> Option<Error> {
        if self.access_error(caller) is Some {
            self.access_error(caller)
        } else if !self.jobs.contains_key(id) {
            Some(Error::JobNotFound)
        } else if !self.is_party(caller, id) {
            Some(Error::NotAuthorized)
        } else if self.jobs[id].status != JobStatus::InProgress && self.jobs[id].status
            != JobStatus::SubmittedForReview {
            Some(Error::JobNotActive)
        } else if !share_fits(self.jobs[id].amount, PLATFORM_FEE_BPS as int) || !fits_i128(
            self.fees + bps_share(self.jobs[id].amount as int, PLATFORM_FEE_BPS as int),
        ) {
            Some(Error::ArithmeticOverflow)
        } else {
            None
        }
    }

    /// The state after job `id` goes into dispute: its status is `Disputed` and
    /// the dispute fee, paid in by the party raising it, is collected.
    pub open spec fn disputed(self, id: u64) -> EscrowView {
        EscrowView {
            fees: (self.fees + self.dispute_fee(id)) as i128,
            ..self.with_status(id, JobStatus::Disputed)
        }
    }
}

} // verus!

verus! {

/// Once adding up a prefix of the milestones fails, adding up any longer prefix fails alike.
pub proof fn lemma_total_error_persists(ms: Seq<MilestoneView>, k: int)
    requires
        0 <= k <= ms.len(),
        milestones_total(ms.take(k)) is Err,
    ensures
        milestones_total(ms) == milestones_total(ms.take(k)),
    decreases ms.len() - k,
{
    if k < ms.len() {
        assert(ms.take(k + 1).drop_last() =~= ms.take(k));
        lemma_total_error_persists(ms, k + 1);
    } else {
        assert(ms.take(k) =~= ms);
    }
}

} // verus!

verus! {

/// Whether `amount * bps` fits in an `i128`.
pub open spec fn share_fits(amount: i128, bps: int) -> bool {
    i128::MIN <= amount * bps <= i128::MAX
}

/// Whether `x` fits in an `i128`.
pub open spec fn fits_i128(x: int) -> bool {
    i128::MIN <= x <= i128::MAX
}

/// A release of funds: the platform fee kept, the SLA penalty withheld and the payout.
pub struct Settlement {
    pub fee: i128,
    pub penalty: i128,
    pub payout: i128,
}

impl EscrowView {
    /// The fee, in basis points, charged on work that `user` delivers: the
    /// platform fee less the discount of the user's tier, never below zero.
    pub open spec fn effective_fee_bps(self, user: Seq<char>) -> u32 {
        saturating_fee(
            PLATFORM_FEE_BPS as u32,
            tier_discount(self.discount_tiers, self.completed_by(user)),
        )
    }

    /// The SLA penalty rate, in basis points, that applies to job `id`, if any does.
    pub open spec fn penalty_bps(self, id: u64) -> Option<u64> {
        if self.penalty_applied(id) && self.sla_configs.contains_key(id) {
            Some(self.sla_configs[id].penalty_bps)
        } else {
            None
        }
    }

    /// How approving job `id`, delivered by `freelancer`, divides its amount;
    /// `None` where the arithmetic leaves the range of `i128`.
    pub open spec fn approval_settlement(self, id: u64, freelancer: Seq<char>) -> Option<Settlement> {
        let amount = self.jobs[id].amount;
        let fee_bps = self.effective_fee_bps(freelancer);
        if !share_fits(amount, fee_bps as int) {
            None
        } else if self.penalty_bps(id) matches Some(p) && !share_fits(amount, p as int) {
            None
        } else {
            let fee = bps_share(amount as int, fee_bps as int);
            let penalty = match self.penalty_bps(id) {
                Some(p) => bps_share(amount as int, p as int),
                None => 0,
            };
            if !fits_i128(fee + penalty) || !fits_i128(amount - (fee + penalty)) {
                None
            } else {
                Some(
                    Settlement {
                        fee: fee as i128,
                        penalty: penalty as i128,
                        payout: (amount - (fee + penalty)) as i128,
                    },
                )
            }
        }
    }

    /// Why `approve_work` refuses, if it does.
    pub open spec fn approve_work_error(self, client: Seq<char>, id: u64) -> Option<Error> {
        if self.access_error(client) is Some {
            self.access_error(client)
        } else if !self.jobs.contains_key(id) {
            Some(Error::JobNotFound)
        } else if self.jobs[id].client != client {
            Some(Error::NotAuthorized)
        } else if self.jobs[id].status != JobStatus::SubmittedForReview {
            Some(Error::JobNotSubmitted)
        } else if self.jobs[id].freelancer is None {
            Some(Error::FreelancerMissing)
        } else {
            let f = self.jobs[id].freelancer.unwrap();
            match self.approval_settlement(id, f) {
                None => Some(Error::ArithmeticOverflow),
                Some(st) => if !fits_i128(self.fees + st.fee) || self.completed_jobs_count
                    == u64::MAX || self.completed_by(f) == u32::MAX {
                    Some(Error::ArithmeticOverflow)
                } else {
                    None
                },
            }
        }
    }

    /// The state after job `id` is approved and settled as `st`.
    pub open spec fn approved(self, id: u64, st: Settlement) -> EscrowView {
        let f = self.jobs[id].freelancer.unwrap();
        let s = self.with_status(id, JobStatus::Completed);
        EscrowView {
            fees: (self.fees + st.fee) as i128,
            completed_jobs_count: (self.completed_jobs_count + 1) as u64,
            user_completed_jobs: self.user_completed_jobs.insert(f, (self.completed_by(f) + 1) as u32),
            ..s
        }
    }

    /// Why `resolve_dispute` refuses, if it does.
    pub open spec fn resolve_dispute_error(self, id: u64) -> Option<Error> {
        if self.admin is None {
            Some(Error::NotInitialized)
        } else if !self.jobs.contains_key(id) {
            Some(Error::JobNotFound)
        } else if self.jobs[id].status != JobStatus::Disputed {
            Some(Error::JobNotDisputed)
        } else if !share_fits(self.jobs[id].amount, PLATFORM_FEE_BPS as int) || !fits_i128(
            self.fees + bps_share(self.jobs[id].amount as int, PLATFORM_FEE_BPS as int),
        ) {
            Some(Error::ArithmeticOverflow)
        } else {
            None
        }
    }

    /// The event announcing that the dispute over job `id` went to `winner`:
    /// the whole share, 10 000 basis points, to whichever party the winner is.
    pub open spec fn resolution_event(self, id: u64, winner: Seq<char>) -> EscrowEventView {
        let job = self.jobs[id];
        EscrowEventView::DisputeResolved {
            job_id: id,
            client: job.client,
            freelancer: job.freelancer,
            amount: job.amount,
            client_bps: if job.client == winner {
                10_000
            } else {
                0
            },
            freelancer_bps: if job.freelancer == Some(winner) {
                10_000
            } else {
                0
            },
        }
    }

    /// The fee on job `id` at the platform rate, 2.5% of its amount: paid in by
    /// the party raising a dispute, and kept back from the winner's payout when
    /// the dispute is resolved.
    pub open spec fn dispute_fee(self, id: u64) -> i128 {
        bps_share(self.jobs[id].amount as int, PLATFORM_FEE_BPS as int) as i128
    }

    /// Why `get_cancellation_rebate_info` refuses, if it does.
    pub open spec fn rebate_info_error(self, id: u64) -> Option<Error> {
        if !self.jobs.contains_key(id) {
            Some(Error::JobNotFound)
        } else if self.jobs[id].created_at + CANCELLATION_GRACE_PERIOD > u64::MAX {
            Some(Error::ArithmeticOverflow)
        } else {
            None
        }
    }

    /// The rebate information of job `id` at ledger `now`.
    pub open spec fn rebate_info(self, id: u64, now: u32) -> CancellationRebateInfo {
        let grace = (self.jobs[id].created_at + CANCELLATION_GRACE_PERIOD) as u64;
        CancellationRebateInfo {
            grace_deadline: grace,
            is_eligible: now <= grace && self.jobs[id].status == JobStatus::Open,
        }
    }

    /// Why `approve_milestone` refuses, if it does.
    pub open spec fn approve_milestone_error(self, client: Seq<char>, id: u64, mid: u32) -> Option<Error> {
        if self.access_error(client) is Some {
            self.access_error(client)
        } else if !self.jobs.contains_key(id) {
            Some(Error::JobNotFound)
        } else if self.jobs[id].client != client {
            Some(Error::NotAuthorized)
        } else if self.jobs[id].status != JobStatus::InProgress && self.jobs[id].status
            != JobStatus::SubmittedForReview {
            Some(Error::JobNotActive)
        } else if !self.milestones.contains_key((id, mid)) {
            Some(Error::MilestoneNotFound)
        } else if self.milestones[(id, mid)].is_released {
            Some(Error::MilestoneAlreadyReleased)
        } else if !share_fits(self.milestones[(id, mid)].amount, PLATFORM_FEE_BPS as int)
            || !fits_i128(
            self.fees + bps_share(self.milestones[(id, mid)].amount as int, PLATFORM_FEE_BPS as int),
        ) {
            Some(Error::ArithmeticOverflow)
        } else {
            None
        }
    }

    /// The platform fee kept from milestone `mid` of job `id`.
    pub open spec fn milestone_fee(self, id: u64, mid: u32) -> i128 {
        bps_share(self.milestones[(id, mid)].amount as int, PLATFORM_FEE_BPS as int) as i128
    }

    /// The state after milestone `mid` of job `id` is released.
    pub open spec fn milestone_released(self, id: u64, mid: u32) -> EscrowView {
        EscrowView {
            milestones: self.milestones.insert(
                (id, mid),
                MilestoneView { is_released: true, ..self.milestones[(id, mid)] },
            ),
            fees: (self.fees + self.milestone_fee(id, mid)) as i128,
            ..self
        }
    }

    /// The milestones listed for job `id`, or `MilestoneNotFound` where one of them is missing.
    pub open spec fn milestone_list(self, id: u64) -> Result<Seq<MilestoneView>, Error> {
        let n: u32 = if self.milestone_counts.contains_key(id) {
            self.milestone_counts[id]
        } else {
            0
        };
        if forall|i: u32| i < n ==> #[trigger] self.milestones.contains_key((id, i)) {
            Ok(Seq::new(n as nat, |i: int| self.milestones[(id, i as u32)]))
        } else {
            Err(Error::MilestoneNotFound)
        }
    }

    /// The service-level status of job `id` at ledger `now`, or `ArithmeticOverflow`
    /// where the delivery deadline leaves the range of `u64`.
    pub open spec fn sla_status(self, id: u64, now: u32) -> Result<SLAStatus, Error> {
        let has = self.sla_configs.contains_key(id);
        let cfg = if has {
            self.sla_configs[id]
        } else {
            SLAConfig {
                response_time_ledgers: 0,
                delivery_time_ledgers: 0,
                penalty_bps: 0,
                auto_escalate: false,
            }
        };
        let accepted = self.accepted_at(id);
        let checked = accepted > 0 && cfg.delivery_time_ledgers > 0;
        if checked && accepted + cfg.delivery_time_ledgers > u64::MAX {
            Err(Error::ArithmeticOverflow)
        } else {
            Ok(
                SLAStatus {
                    has_config: has,
                    response_time_ledgers: cfg.response_time_ledgers,
                    delivery_time_ledgers: cfg.delivery_time_ledgers,
                    penalty_bps: cfg.penalty_bps,
                    auto_escalate: cfg.auto_escalate,
                    accepted_at: accepted,
                    breached: checked && now > accepted + cfg.delivery_time_ledgers,
                    penalty_applied: self.penalty_applied(id),
                },
            )
        }
    }
}

/// The jobs stored under ids 1 to `n`, in order of id, skipping missing ids.
pub open spec fn present_jobs(jobs: Map<u64, JobView>, n: nat) -> Seq<JobView>
    decreases n,
{
    if n == 0 {
        Seq::empty()
    } else {
        present_jobs(jobs, (n - 1) as nat) + if jobs.contains_key(n as u64) {
            seq![jobs[n as u64]]
        } else {
            Seq::empty()
        }
    }
}

/// The jobs stored under ids 1 to `n` whose status is `status`, in order of id.
pub open spec fn jobs_with_status(jobs: Map<u64, JobView>, n: nat, status: JobStatus) -> Seq<JobView>
    decreases n,
{
    if n == 0 {
        Seq::empty()
    } else {
        jobs_with_status(jobs, (n - 1) as nat, status) + if jobs.contains_key(n as u64)
            && jobs[n as u64].status == status {
            seq![jobs[n as u64]]
        } else {
            Seq::empty()
        }
    }
}

/// How many of the jobs stored under ids 1 to `n` have status `status`.
pub open spec fn status_count(jobs: Map<u64, JobView>, n: nat, status: JobStatus) -> nat {
    jobs_with_status(jobs, n, status).len()
}

/// How many jobs are stored under ids 1 to `n`.
pub open spec fn present_count(jobs: Map<u64, JobView>, n: nat) -> nat {
    present_jobs(jobs, n).len()
}

} // verus!

verus! {

/// Every stored job among ids 1 to `n` has exactly one status, so the
/// per-status counts add up to the number of stored jobs, which is at most `n`.
pub proof fn lemma_counts_partition(jobs: Map<u64, JobView>, n: nat)
    ensures
        status_count(jobs, n, JobStatus::Open) + status_count(jobs, n, JobStatus::InProgress)
            + status_count(jobs, n, JobStatus::SubmittedForReview) + status_count(
            jobs,
            n,
            JobStatus::Completed,
        ) + status_count(jobs, n, JobStatus::Cancelled) + status_count(jobs, n, JobStatus::Disputed)
            == present_count(jobs, n),
        present_count(jobs, n) <= n,
    decreases n,
{
    if n > 0 {
        lemma_counts_partition(jobs, (n - 1) as nat);
    }
}

/// The per-status counts of the jobs stored under ids 1 to `n`.
pub open spec fn status_counts(jobs: Map<u64, JobView>, n: nat) -> JobStatusCounts {
    JobStatusCounts {
        open: status_count(jobs, n, JobStatus::Open) as u64,
        in_progress: status_count(jobs, n, JobStatus::InProgress) as u64,
        submitted_for_review: status_count(jobs, n, JobStatus::SubmittedForReview) as u64,
        completed: status_count(jobs, n, JobStatus::Completed) as u64,
        cancelled: status_count(jobs, n, JobStatus::Cancelled) as u64,
        disputed: status_count(jobs, n, JobStatus::Disputed) as u64,
        total: present_count(jobs, n) as u64,
    }
}

} // verus!
