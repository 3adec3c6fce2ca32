//! Properties of the escrow contract that span its entry points: what every
//! operation keeps, how jobs move through their lifecycle, and how money is divided.
use vstd::prelude::*;
use crate::escrow::{empty_escrow, initialized};
use crate::escrow_spec::{
    list_of, jobs_with_status, present_jobs, status_counts, milestones_total, no_duplicates, open_job, present_count, status_count, token_added,
    token_allowed, token_removed, first_occurrence, zero_hash, lemma_counts_partition, EscrowView,
    fits_i128, CANCELLATION_GRACE_PERIOD,
};
use crate::escrow_types::{DiscountTier, Error, JobStatus, JobStatusCounts, JobView, MilestoneView, SLAConfig};
use crate::fees::{bps_share, tier_discount, PLATFORM_FEE_BPS};

verus! {

/// A job is consistent when its amount is positive, an open job has no
/// freelancer, and a job in progress or submitted has one.
pub open spec fn job_consistent(j: JobView) -> bool {
    &&& j.amount > 0
    &&& j.status == JobStatus::Open ==> j.freelancer is None
    &&& (j.status == JobStatus::InProgress || j.status == JobStatus::SubmittedForReview)
        ==> j.freelancer is Some
}

impl EscrowView {
    /// Nothing is stored for a job id that has not been handed out: every job,
    /// milestone, milestone count, SLA configuration, SLA acceptance and penalty
    /// mark belongs to an id from 1 to the job count.
    pub open spec fn ids_handed_out(self) -> bool {
        &&& forall|id: u64| #[trigger] self.jobs.contains_key(id) ==> 0 < id <= self.job_count
        &&& forall|k: (u64, u32)| #[trigger] self.milestones.contains_key(k) ==> 0 < k.0 <= self.job_count
        &&& forall|id: u64| #[trigger] self.milestone_counts.contains_key(id) ==> 0 < id <= self.job_count
        &&& forall|id: u64| #[trigger] self.sla_configs.contains_key(id) ==> 0 < id <= self.job_count
        &&& forall|id: u64| #[trigger] self.sla_accepted_at.contains_key(id) ==> 0 < id <= self.job_count
        &&& forall|id: u64| #[trigger] self.sla_penalty_applied.contains_key(id) ==> 0 < id <= self.job_count
    }

    /// Every stored job is consistent, every stored milestone has a positive amount,
    /// no token is listed twice in the allow-list, the collected fees are not
    /// negative, and nothing is stored under an id not yet handed out.
    pub open spec fn consistent(self) -> bool {
        &&& self.ids_handed_out()
        &&& forall|id: u64| #[trigger] self.jobs.contains_key(id) ==> job_consistent(self.jobs[id])
        &&& forall|k: (u64, u32)| #[trigger] self.milestones.contains_key(k) ==> self.milestones[k].amount > 0
        &&& no_duplicates(self.allowed_tokens)
        &&& self.fees >= 0
    }
}

/// The moves of the job lifecycle: open to in progress or cancelled; in progress
/// to submitted, cancelled or disputed; submitted to completed or disputed;
/// disputed to completed. Staying put is always allowed.
pub open spec fn status_step(a: JobStatus, b: JobStatus) -> bool {
    a == b || match (a, b) {
        (JobStatus::Open, JobStatus::InProgress) => true,
        (JobStatus::Open, JobStatus::Cancelled) => true,
        (JobStatus::InProgress, JobStatus::SubmittedForReview) => true,
        (JobStatus::InProgress, JobStatus::Cancelled) => true,
        (JobStatus::InProgress, JobStatus::Disputed) => true,
        (JobStatus::SubmittedForReview, JobStatus::Completed) => true,
        (JobStatus::SubmittedForReview, JobStatus::Disputed) => true,
        (JobStatus::Disputed, JobStatus::Completed) => true,
        _ => false,
    }
}

/// From `s` to `t` every stored job stays stored and moves along the lifecycle,
/// and every released milestone stays released; the id the next job will take
/// is the one exception, as a new job is written over whatever it held.
pub open spec fn follows_lifecycle(s: EscrowView, t: EscrowView) -> bool {
    &&& forall|id: u64|
        #[trigger] s.jobs.contains_key(id) && id != s.job_count + 1 ==> t.jobs.contains_key(id)
            && status_step(s.jobs[id].status, t.jobs[id].status)
    &&& forall|k: (u64, u32)|
        #[trigger] s.milestones.contains_key(k) && s.milestones[k].is_released && k.0
            != s.job_count + 1 ==> t.milestones.contains_key(k) && t.milestones[k].is_released
}

/// An entry point of the escrow contract that changes its storage, with its arguments.
pub enum EscrowOp {
    Initialize { admin: Seq<char>, native_token: Seq<char> },
    SetDescPayloadMax { max: u32 },
    SetWhitelistMode { enabled: bool },
    AddToWhitelist { addr: Seq<char> },
    RemoveFromWhitelist { addr: Seq<char> },
    AddToBlacklist { addr: Seq<char> },
    RemoveFromBlacklist { addr: Seq<char> },
    SetTrustedForwarder { forwarder: Seq<char> },
    SetDiscountTiers { tiers: Seq<DiscountTier> },
    AddAllowedToken { token: Seq<char> },
    RemoveAllowedToken { token: Seq<char> },
    WithdrawFees { amount: i128 },
    PostJob {
        client: Seq<char>,
        amount: i128,
        desc_hash: Seq<u8>,
        payload_len: u32,
        deadline: u64,
        token: Seq<char>,
        title: Seq<u8>,
        category: Seq<char>,
        sla: Option<SLAConfig>,
        now: u32,
    },
    CreateJobWithMilestones {
        client: Seq<char>,
        milestones: Seq<MilestoneView>,
        deadline: u64,
        token: Seq<char>,
        title: Seq<u8>,
        category: Seq<char>,
        client_balance: i128,
        now: u32,
    },
    AcceptJob { freelancer: Seq<char>, id: u64, now: u32 },
    SubmitWork { freelancer: Seq<char>, id: u64, now: u32 },
    ApproveWork { client: Seq<char>, id: u64 },
    CancelJob { client: Seq<char>, id: u64 },
    FreelancerCancelJob { freelancer: Seq<char>, id: u64 },
    RelayCancelJob { forwarder: Seq<char>, client: Seq<char>, id: u64 },
    EnforceDeadline { caller: Seq<char>, id: u64, now: u32 },
    RaiseDispute { caller: Seq<char>, id: u64 },
    ResolveDispute { id: u64 },
    ApproveMilestone { client: Seq<char>, id: u64, milestone_id: u32 },
}

/// The storage after `op` on `s`, as the entry point's contract states it; `None`
/// where the entry point refuses.
pub open spec fn escrow_step(s: EscrowView, op: EscrowOp) -> Option<EscrowView> {
    match op {
        EscrowOp::Initialize { admin, native_token } => if s.admin is None {
            Some(initialized(s, admin, native_token))
        } else {
            None
        },
        EscrowOp::SetDescPayloadMax { max } => if s.admin is Some {
            Some(EscrowView { desc_payload_max: max, ..s })
        } else {
            None
        },
        EscrowOp::SetWhitelistMode { enabled } => if s.admin is Some {
            Some(EscrowView { whitelist_mode: enabled, ..s })
        } else {
            None
        },
        EscrowOp::AddToWhitelist { addr } => if s.admin is Some && !s.whitelisted.contains_key(
            addr,
        ) {
            Some(EscrowView { whitelisted: s.whitelisted.insert(addr, true), ..s })
        } else {
            None
        },
        EscrowOp::RemoveFromWhitelist { addr } => if s.admin is Some {
            Some(EscrowView { whitelisted: s.whitelisted.remove(addr), ..s })
        } else {
            None
        },
        EscrowOp::AddToBlacklist { addr } => if s.admin is Some && !s.blacklisted.contains_key(
            addr,
        ) {
            Some(EscrowView { blacklisted: s.blacklisted.insert(addr, true), ..s })
        } else {
            None
        },
        EscrowOp::RemoveFromBlacklist { addr } => if s.admin is Some {
            Some(EscrowView { blacklisted: s.blacklisted.remove(addr), ..s })
        } else {
            None
        },
        EscrowOp::SetTrustedForwarder { forwarder } => if s.admin is Some {
            Some(EscrowView { trusted_forwarders: s.trusted_forwarders.insert(forwarder, true), ..s })
        } else {
            None
        },
        EscrowOp::SetDiscountTiers { tiers } => if s.admin is Some {
            Some(EscrowView { discount_tiers: tiers, ..s })
        } else {
            None
        },
        EscrowOp::AddAllowedToken { token } => if s.admin is Some {
            Some(EscrowView { allowed_tokens: token_added(s.allowed_tokens, token), ..s })
        } else {
            None
        },
        EscrowOp::RemoveAllowedToken { token } => if s.admin is Some {
            Some(EscrowView { allowed_tokens: token_removed(s.allowed_tokens, token), ..s })
        } else {
            None
        },
        EscrowOp::WithdrawFees { amount } => if s.admin is Some && amount <= s.fees && fits_i128(
            s.fees - amount,
        ) {
            Some(EscrowView { fees: (s.fees - amount) as i128, ..s })
        } else {
            None
        },
        EscrowOp::PostJob {
            client,
            amount,
            desc_hash,
            payload_len,
            deadline,
            token,
            title,
            category,
            sla,
            now,
        } => if s.post_job_error(client, amount, payload_len, deadline, now) is None {
            let t = s.with_posted_job(
                open_job(client, amount, desc_hash, now, deadline, token, title, category),
            );
            match sla {
                None => Some(t),
                Some(cfg) => Some(
                    EscrowView {
                        sla_configs: s.sla_configs.insert((s.job_count + 1) as u64, cfg),
                        ..t
                    },
                ),
            }
        } else {
            None
        },
        EscrowOp::CreateJobWithMilestones {
            client,
            milestones,
            deadline,
            token,
            title,
            category,
            client_balance,
            now,
        } => if s.milestone_job_error(client, milestones, client_balance) is None {
            match milestones_total(milestones) {
                Ok(total) => Some(
                    s.with_milestones((s.job_count + 1) as u64, milestones).with_posted_job(
                        open_job(client, total, zero_hash(), now, deadline, token, title, category),
                    ),
                ),
                Err(_) => None,
            }
        } else {
            None
        },
        EscrowOp::AcceptJob { freelancer, id, now } => if s.accept_job_error(freelancer, id)
            is None {
            Some(s.accepted(freelancer, id, now))
        } else {
            None
        },
        EscrowOp::SubmitWork { freelancer, id, now } => if s.submit_work_error(freelancer, id)
            is None {
            Some(s.submitted(id, now))
        } else {
            None
        },
        EscrowOp::ApproveWork { client, id } => if s.approve_work_error(client, id) is None {
            match s.approval_settlement(id, s.jobs[id].freelancer.unwrap()) {
                Some(st) => Some(s.approved(id, st)),
                None => None,
            }
        } else {
            None
        },
        EscrowOp::CancelJob { client, id } => if s.cancel_job_error(client, id) is None {
            Some(s.with_status(id, JobStatus::Cancelled))
        } else {
            None
        },
        EscrowOp::FreelancerCancelJob { freelancer, id } => if s.freelancer_cancel_error(
            freelancer,
            id,
        ) is None {
            Some(s.with_status(id, JobStatus::Cancelled))
        } else {
            None
        },
        EscrowOp::RelayCancelJob { forwarder, client, id } => if s.relay_cancel_error(
            forwarder,
            client,
            id,
        ) is None {
            Some(s.with_status(id, JobStatus::Cancelled))
        } else {
            None
        },
        EscrowOp::EnforceDeadline { caller, id, now } => if s.enforce_deadline_error(
            caller,
            id,
            now,
        ) is None {
            Some(s.with_status(id, JobStatus::Cancelled))
        } else {
            None
        },
        EscrowOp::RaiseDispute { caller, id } => if s.raise_dispute_error(caller, id) is None {
            Some(s.disputed(id))
        } else {
            None
        },
        EscrowOp::ResolveDispute { id } => if s.resolve_dispute_error(id) is None {
            Some(
                EscrowView {
                    fees: (s.fees + s.dispute_fee(id)) as i128,
                    ..s.with_status(id, JobStatus::Completed)
                },
            )
        } else {
            None
        },
        EscrowOp::ApproveMilestone { client, id, milestone_id } => if s.approve_milestone_error(
            client,
            id,
            milestone_id,
        ) is None {
            Some(s.milestone_released(id, milestone_id))
        } else {
            None
        },
    }
}

/// A milestone total is positive unless the list is empty.
proof fn lemma_milestones_total_nonneg(ms: Seq<MilestoneView>)
    ensures
        milestones_total(ms) matches Ok(t) ==> t >= 0 && (ms.len() > 0 ==> t > 0),
    decreases ms.len(),
{
    if ms.len() > 0 {
        lemma_milestones_total_nonneg(ms.drop_last());
    }
}

/// Where the milestones add up, each of their amounts is positive.
proof fn lemma_milestones_total_positive_amounts(ms: Seq<MilestoneView>)
    requires
        milestones_total(ms) is Ok,
    ensures
        forall|i: int| 0 <= i < ms.len() ==> #[trigger] ms[i].amount > 0,
    decreases ms.len(),
{
    if ms.len() > 0 {
        lemma_milestones_total_positive_amounts(ms.drop_last());
        assert forall|i: int| 0 <= i < ms.len() implies #[trigger] ms[i].amount > 0 by {
            if i < ms.len() - 1 {
                assert(ms.drop_last()[i] == ms[i]);
            }
        }
    }
}

/// A share of a positive amount at a non-negative rate lies between 0 and the
/// amount times the rate over 10 000.
pub proof fn lemma_share_bounds(amount: i128, bps: int)
    requires
        amount > 0,
        bps >= 0,
    ensures
        0 <= bps_share(amount as int, bps) <= amount * bps / 10_000,
{
    assert(amount * bps >= 0) by (nonlinear_arith)
        requires
            amount > 0,
            bps >= 0,
    ;
}

/// Adding a token that is not listed, or removing one, keeps the allow-list free of duplicates.
proof fn lemma_token_list_no_duplicates(s: Seq<Seq<char>>, t: Seq<char>)
    requires
        no_duplicates(s),
    ensures
        no_duplicates(token_added(s, t)),
        no_duplicates(token_removed(s, t)),
{
    if !s.contains(t) {
        let p = s.push(t);
        assert forall|i: int, j: int| 0 <= i < j < p.len() implies p[i] != p[j] by {
            if j == s.len() {
                assert(s[i] == p[i]);
            }
        }
    } else {
        let k = choose|k: int| 0 <= k < s.len() && s[k] == t;
        assert(first_occurrence(s, t, k));
        let c = choose|i: int| first_occurrence(s, t, i);
        assert(first_occurrence(s, t, c));
        let r = s.remove(c);
        assert forall|i: int, j: int| 0 <= i < j < r.len() implies r[i] != r[j] by {
            let i2 = if i < c { i } else { i + 1 };
            let j2 = if j < c { j } else { j + 1 };
            assert(r[i] == s[i2]);
            assert(r[j] == s[j2]);
        }
    }
}

/// Every operation that succeeds keeps what is stored within the ids handed out,
/// initialization where no job was posted before it.
proof fn lemma_step_keeps_ids_handed_out(s: EscrowView, op: EscrowOp)
    requires
        s.ids_handed_out(),
        escrow_step(s, op) is Some,
        op is Initialize ==> s.job_count == 0,
    ensures
        escrow_step(s, op).unwrap().ids_handed_out(),
{
    let t = escrow_step(s, op).unwrap();
    match op {
        EscrowOp::CreateJobWithMilestones { milestones, .. } => {
            assert forall|k: (u64, u32)| #[trigger] t.milestones.contains_key(k) implies 0 < k.0
                <= t.job_count by {
                if !(k.0 == s.job_count + 1 && k.1 < milestones.len()) {
                    assert(s.milestones.contains_key(k));
                }
            }
        },
        _ => {},
    }
}

/// Every operation that succeeds on a consistent storage leaves it consistent.
/// Initialization restarts the job count, so it keeps the storage consistent
/// only where no job was posted before it.
pub proof fn escrow_step_keeps_consistency(s: EscrowView, op: EscrowOp)
    requires
        s.consistent(),
        escrow_step(s, op) is Some,
        op is Initialize ==> s.job_count == 0,
    ensures
        escrow_step(s, op).unwrap().consistent(),
{
    let t = escrow_step(s, op).unwrap();
    lemma_step_keeps_ids_handed_out(s, op);
    match op {
        EscrowOp::AddAllowedToken { token } => {
            lemma_token_list_no_duplicates(s.allowed_tokens, token);
            assert(t.fees == s.fees);
        },
        EscrowOp::RemoveAllowedToken { token } => {
            lemma_token_list_no_duplicates(s.allowed_tokens, token);
            assert(t.fees == s.fees);
        },
        EscrowOp::Initialize { .. } => {
            assert(no_duplicates(t.allowed_tokens));
        },
        EscrowOp::CreateJobWithMilestones { milestones, .. } => {
            lemma_milestones_total_nonneg(milestones);
            lemma_milestones_total_positive_amounts(milestones);
            assert forall|k: (u64, u32)| #[trigger] t.milestones.contains_key(k) implies t.milestones[k].amount > 0 by {
                if k.0 == s.job_count + 1 && k.1 < milestones.len() {
                    assert(t.milestones[k] == milestones[k.1 as int]);
                } else {
                    assert(s.milestones.contains_key(k));
                }
            }
            assert forall|id: u64| #[trigger] t.jobs.contains_key(id) implies job_consistent(
                t.jobs[id],
            ) by {
                if id != s.job_count + 1 {
                    assert(s.jobs.contains_key(id));
                }
            }
        },
        EscrowOp::PostJob { .. } => {
            assert forall|id: u64| #[trigger] t.jobs.contains_key(id) implies job_consistent(
                t.jobs[id],
            ) by {
                if id != s.job_count + 1 {
                    assert(s.jobs.contains_key(id));
                }
            }
        },
        EscrowOp::ApproveWork { id, .. } => {
            let f = s.jobs[id].freelancer.unwrap();
            let st = s.approval_settlement(id, f).unwrap();
            lemma_share_bounds(s.jobs[id].amount, s.effective_fee_bps(f) as int);
            assert(st.fee >= 0);
            assert(t.fees >= 0);
            assert forall|id2: u64| #[trigger] t.jobs.contains_key(id2) implies job_consistent(
                t.jobs[id2],
            ) by {
                assert(s.jobs.contains_key(id2));
            }
        },
        EscrowOp::RaiseDispute { id, .. } | EscrowOp::ResolveDispute { id } => {
            lemma_share_bounds(s.jobs[id].amount, PLATFORM_FEE_BPS as int);
            assert(t.fees >= 0);
            assert forall|id2: u64| #[trigger] t.jobs.contains_key(id2) implies job_consistent(
                t.jobs[id2],
            ) by {
                assert(s.jobs.contains_key(id2));
            }
        },
        EscrowOp::ApproveMilestone { id, milestone_id, .. } => {
            lemma_share_bounds(s.milestones[(id, milestone_id)].amount, PLATFORM_FEE_BPS as int);
            assert(t.fees >= 0);
            assert forall|id2: u64| #[trigger] t.jobs.contains_key(id2) implies job_consistent(
                t.jobs[id2],
            ) by {
                assert(s.jobs.contains_key(id2));
            }
            assert forall|k: (u64, u32)| #[trigger] t.milestones.contains_key(k) implies t.milestones[k].amount > 0 by {
                assert(s.milestones.contains_key(k));
            }
        },
        _ => {
            assert forall|id: u64| #[trigger] t.jobs.contains_key(id) implies job_consistent(
                t.jobs[id],
            ) by {
                assert(s.jobs.contains_key(id));
            }
        },
    }
}

/// Every operation that succeeds moves jobs only along the lifecycle and never
/// takes back the release of a milestone.
pub proof fn escrow_step_follows_lifecycle(s: EscrowView, op: EscrowOp)
    requires
        escrow_step(s, op) is Some,
    ensures
        follows_lifecycle(s, escrow_step(s, op).unwrap()),
{
    let t = escrow_step(s, op).unwrap();
    match op {
        EscrowOp::PostJob { .. } => {
            lemma_new_job_lifecycle(s, t);
        },
        EscrowOp::CreateJobWithMilestones { .. } => {
            lemma_new_job_lifecycle(s, t);
        },
        EscrowOp::AcceptJob { id, .. } => {
            lemma_one_job_lifecycle(s, t, id);
        },
        EscrowOp::SubmitWork { id, .. } => {
            lemma_one_job_lifecycle(s, t, id);
        },
        EscrowOp::ApproveWork { id, .. } => {
            lemma_one_job_lifecycle(s, t, id);
        },
        EscrowOp::CancelJob { id, .. } => {
            lemma_one_job_lifecycle(s, t, id);
        },
        EscrowOp::FreelancerCancelJob { id, .. } => {
            lemma_one_job_lifecycle(s, t, id);
        },
        EscrowOp::RelayCancelJob { id, .. } => {
            lemma_one_job_lifecycle(s, t, id);
        },
        EscrowOp::EnforceDeadline { id, .. } => {
            lemma_one_job_lifecycle(s, t, id);
        },
        EscrowOp::RaiseDispute { id, .. } => {
            lemma_one_job_lifecycle(s, t, id);
        },
        EscrowOp::ResolveDispute { id } => {
            lemma_one_job_lifecycle(s, t, id);
        },
        EscrowOp::ApproveMilestone { id, milestone_id, .. } => {
            assert(t.jobs == s.jobs);
            assert forall|k: (u64, u32)|
                #[trigger] s.milestones.contains_key(k) && s.milestones[k].is_released && k.0
                    != s.job_count + 1 implies t.milestones.contains_key(k)
                && t.milestones[k].is_released by {
                if k != (id, milestone_id) {
                    assert(t.milestones[k] == s.milestones[k]);
                }
            }
        },
        _ => {
            assert(t.jobs == s.jobs);
            assert(t.milestones == s.milestones);
        },
    }
}

/// A job operation that changes job `id` along the lifecycle, and nothing else among
/// the jobs and milestones, follows the lifecycle.
proof fn lemma_one_job_lifecycle(s: EscrowView, t: EscrowView, id: u64)
    requires
        s.jobs.contains_key(id),
        t.jobs == s.jobs.insert(id, t.jobs[id]),
        status_step(s.jobs[id].status, t.jobs[id].status),
        t.milestones == s.milestones,
    ensures
        follows_lifecycle(s, t),
{
}

/// Posting a job writes only the next id, among the jobs and milestones.
proof fn lemma_new_job_lifecycle(s: EscrowView, t: EscrowView)
    requires
        t.jobs == s.jobs.insert((s.job_count + 1) as u64, t.jobs[(s.job_count + 1) as u64]),
        forall|k: (u64, u32)|
            #[trigger] s.milestones.contains_key(k) && k.0 != s.job_count + 1
                ==> t.milestones.contains_key(k) && t.milestones[k] == s.milestones[k],
        s.job_count < u64::MAX,
    ensures
        follows_lifecycle(s, t),
{
}

/// A completed or cancelled job is settled for good: no operation changes its
/// status. Outside consistent storage, the id the next job takes is left out, as
/// a new job is written over whatever it held.
pub proof fn settled_jobs_stay_settled(s: EscrowView, op: EscrowOp, id: u64)
    requires
        escrow_step(s, op) is Some,
        s.jobs.contains_key(id),
        s.consistent() || id != s.job_count + 1,
        s.jobs[id].status == JobStatus::Completed || s.jobs[id].status == JobStatus::Cancelled,
    ensures
        escrow_step(s, op).unwrap().jobs.contains_key(id),
        escrow_step(s, op).unwrap().jobs[id].status == s.jobs[id].status,
{
    escrow_step_follows_lifecycle(s, op);
}

/// The storage of a contract that nothing has been written to is consistent.
pub proof fn empty_escrow_is_consistent()
    ensures
        empty_escrow().consistent(),
{
    assert(no_duplicates(empty_escrow().allowed_tokens));
}

/// On consistent storage every operation that succeeds keeps every stored job
/// stored and moves it only along the lifecycle, and keeps every released
/// milestone released, with no exception.
pub proof fn consistent_steps_follow_lifecycle(s: EscrowView, op: EscrowOp)
    requires
        s.consistent(),
        escrow_step(s, op) is Some,
    ensures
        ({
            let t = escrow_step(s, op).unwrap();
            &&& forall|id: u64| #[trigger] s.jobs.contains_key(id) ==> t.jobs.contains_key(id)
                && status_step(s.jobs[id].status, t.jobs[id].status)
            &&& forall|k: (u64, u32)| #[trigger] s.milestones.contains_key(k) && s.milestones[k].is_released
                ==> t.milestones.contains_key(k) && t.milestones[k].is_released
        }),
{
    escrow_step_follows_lifecycle(s, op);
}

/// A job posted with a service-level agreement is refused exactly where the same
/// job posted without one is; otherwise it is stored the same way under the same
/// id, and on consistent storage its SLA status starts fresh: the configuration
/// given, not yet accepted, not breached and with no penalty applied.
pub proof fn posted_sla_job_starts_fresh(
    s: EscrowView,
    client: Seq<char>,
    amount: i128,
    desc_hash: Seq<u8>,
    payload_len: u32,
    deadline: u64,
    token: Seq<char>,
    title: Seq<u8>,
    category: Seq<char>,
    cfg: SLAConfig,
    now: u32,
    later: u32,
)
    requires
        s.consistent(),
    ensures
        ({
            let with = escrow_step(
                s,
                EscrowOp::PostJob {
                    client,
                    amount,
                    desc_hash,
                    payload_len,
                    deadline,
                    token,
                    title,
                    category,
                    sla: Some(cfg),
                    now,
                },
            );
            let without = escrow_step(
                s,
                EscrowOp::PostJob {
                    client,
                    amount,
                    desc_hash,
                    payload_len,
                    deadline,
                    token,
                    title,
                    category,
                    sla: None,
                    now,
                },
            );
            let id = (s.job_count + 1) as u64;
            &&& with is Some <==> without is Some
            &&& with matches Some(t) ==> {
                &&& t.jobs == without.unwrap().jobs
                &&& t.job_count == without.unwrap().job_count
                &&& t.sla_status(id, later) == Ok::<crate::escrow_types::SLAStatus, Error>(
                    crate::escrow_types::SLAStatus {
                        has_config: true,
                        response_time_ledgers: cfg.response_time_ledgers,
                        delivery_time_ledgers: cfg.delivery_time_ledgers,
                        penalty_bps: cfg.penalty_bps,
                        auto_escalate: cfg.auto_escalate,
                        accepted_at: 0,
                        breached: false,
                        penalty_applied: false,
                    },
                )
            }
        }),
{
    if s.job_count < u64::MAX {
        let id = (s.job_count + 1) as u64;
        assert(!s.sla_accepted_at.contains_key(id));
        assert(!s.sla_penalty_applied.contains_key(id));
    }
}

} // verus!

verus! {

/// Approving work divides the job's amount exactly: the fee kept, the penalty
/// withheld and the freelancer's payout add up to it.
pub proof fn approval_divides_amount(s: EscrowView, id: u64, freelancer: Seq<char>)
    requires
        s.approval_settlement(id, freelancer) is Some,
    ensures
        ({
            let st = s.approval_settlement(id, freelancer).unwrap();
            st.fee + st.penalty + st.payout == s.jobs[id].amount
        }),
{
}

/// On a positive amount the platform fee kept on approval is not negative and
/// at most 2.5% of the amount.
pub proof fn approval_fee_bounded(s: EscrowView, id: u64, freelancer: Seq<char>)
    requires
        s.approval_settlement(id, freelancer) is Some,
        s.jobs[id].amount > 0,
    ensures
        0 <= s.approval_settlement(id, freelancer).unwrap().fee <= s.jobs[id].amount * 250 / 10_000,
{
    let amount = s.jobs[id].amount;
    let bps = s.effective_fee_bps(freelancer);
    effective_fee_never_exceeds_platform_fee(s, freelancer);
    lemma_share_bounds(amount, bps as int);
    assert(amount * bps <= amount * 250) by (nonlinear_arith)
        requires
            amount > 0,
            bps <= 250,
    ;
    assert(amount * bps / 10_000 <= amount * 250 / 10_000) by (nonlinear_arith)
        requires
            amount * bps <= amount * 250,
    ;
}

/// The fee charged on a freelancer's work never exceeds the platform fee: discounts only lower it.
pub proof fn effective_fee_never_exceeds_platform_fee(s: EscrowView, user: Seq<char>)
    ensures
        s.effective_fee_bps(user) <= PLATFORM_FEE_BPS,
{
}

/// Without a matching discount tier the full platform fee is charged.
pub proof fn no_tier_full_fee(s: EscrowView, user: Seq<char>)
    requires
        tier_discount(s.discount_tiers, s.completed_by(user)) == 0,
    ensures
        s.effective_fee_bps(user) == PLATFORM_FEE_BPS,
{
}

/// In a consistent storage, submitted work always has a freelancer to pay.
pub proof fn submitted_work_has_freelancer(s: EscrowView, client: Seq<char>, id: u64)
    requires
        s.consistent(),
        s.jobs.contains_key(id),
        s.jobs[id].status == JobStatus::SubmittedForReview,
    ensures
        s.approve_work_error(client, id) != Some(Error::FreelancerMissing),
{
    assert(job_consistent(s.jobs[id]));
}

/// Adding a token twice is adding it once, and an added token is allowed.
pub proof fn adding_token_is_idempotent(s: Seq<Seq<char>>, t: Seq<char>)
    ensures
        token_added(token_added(s, t), t) == token_added(s, t),
        token_allowed(token_added(s, t), t),
{
    if !s.contains(t) {
        assert(s.push(t)[s.len() as int] == t);
    }
}

/// Removing a token just added restores the allow-list as it was.
pub proof fn removing_added_token_restores(s: Seq<Seq<char>>, t: Seq<char>)
    requires
        !s.contains(t),
    ensures
        token_removed(token_added(s, t), t) == s,
{
    let p = s.push(t);
    assert(p[s.len() as int] == t);
    let c = choose|i: int| first_occurrence(p, t, i);
    assert(first_occurrence(p, t, s.len() as int)) by {
        assert forall|j: int| 0 <= j < s.len() implies p[j] != t by {
            assert(p[j] == s[j]);
        }
    }
    assert(first_occurrence(p, t, c));
    if c < s.len() {
        assert(p[c] == s[c]);
    }
    assert(p.remove(s.len() as int) =~= s);
}

/// A token removed from a list without duplicates is no longer listed.
pub proof fn removed_token_is_gone(s: Seq<Seq<char>>, t: Seq<char>)
    requires
        no_duplicates(s),
    ensures
        !token_removed(s, t).contains(t),
{
    if s.contains(t) {
        let k = choose|k: int| 0 <= k < s.len() && s[k] == t;
        assert(first_occurrence(s, t, k));
        let c = choose|i: int| first_occurrence(s, t, i);
        assert(first_occurrence(s, t, c));
        let r = s.remove(c);
        if r.contains(t) {
            let j = choose|j: int| 0 <= j < r.len() && r[j] == t;
            let j2 = if j < c { j } else { j + 1 };
            assert(r[j] == s[j2]);
        }
    }
}

/// A blacklisted address is refused, as `Blacklisted`, on every call it makes as
/// a client, freelancer, party or forwarder, whatever the whitelist says: posting
/// jobs, with or without milestones, accepting, submitting, approving work or a
/// milestone, cancelling, relaying a cancellation as forwarder, enforcing a
/// deadline and raising a dispute.
pub proof fn blacklisted_cannot_act(
    s: EscrowView,
    a: Seq<char>,
    other: Seq<char>,
    amount: i128,
    payload_len: u32,
    deadline: u64,
    now: u32,
    id: u64,
    mid: u32,
    ms: Seq<MilestoneView>,
    client_balance: i128,
)
    requires
        s.blacklisted.contains_key(a),
    ensures
        s.access_error(a) == Some(Error::Blacklisted),
        s.post_job_error(a, amount, payload_len, deadline, now) == Some(Error::Blacklisted),
        s.milestone_job_error(a, ms, client_balance) == Some(Error::Blacklisted),
        s.accept_job_error(a, id) == Some(Error::Blacklisted),
        s.submit_work_error(a, id) == Some(Error::Blacklisted),
        s.approve_work_error(a, id) == Some(Error::Blacklisted),
        s.approve_milestone_error(a, id, mid) == Some(Error::Blacklisted),
        s.cancel_job_error(a, id) == Some(Error::Blacklisted),
        s.freelancer_cancel_error(a, id) == Some(Error::Blacklisted),
        s.relay_cancel_error(a, other, id) == Some(Error::Blacklisted),
        s.enforce_deadline_error(a, id, now) == Some(Error::Blacklisted),
        s.raise_dispute_error(a, id) == Some(Error::Blacklisted),
{
}

/// Blacklisting takes effect at once and is undone by removal: once the
/// administrator adds `a`, `a` is blacklisted and a second addition is refused;
/// once the administrator removes `a`, `a` is no longer blacklisted.
pub proof fn blacklist_read_after_write(s: EscrowView, a: Seq<char>)
    ensures
        escrow_step(s, EscrowOp::AddToBlacklist { addr: a }) matches Some(t) ==> {
            &&& !s.blacklisted_addr(a)
            &&& t.blacklisted_addr(a)
            &&& t.access_error(a) == Some(Error::Blacklisted)
            &&& escrow_step(t, EscrowOp::AddToBlacklist { addr: a }) is None
            &&& escrow_step(t, EscrowOp::RemoveFromBlacklist { addr: a }) matches Some(u)
                && !u.blacklisted_addr(a) && u.blacklisted == s.blacklisted
        },
        s.admin is Some && !s.blacklisted_addr(a) ==> escrow_step(
            s,
            EscrowOp::AddToBlacklist { addr: a },
        ) is Some,
        escrow_step(s, EscrowOp::RemoveFromBlacklist { addr: a }) matches Some(t)
            ==> !t.blacklisted_addr(a),
{
    if let Some(t) = escrow_step(s, EscrowOp::AddToBlacklist { addr: a }) {
        let u = escrow_step(t, EscrowOp::RemoveFromBlacklist { addr: a }).unwrap();
        assert(u.blacklisted =~= s.blacklisted);
    }
}

/// While whitelist mode is on, an address passes exactly when it has been
/// added to the whitelist and not removed since.
pub proof fn whitelist_read_after_write(s: EscrowView, addr: Seq<char>)
    ensures
        escrow_step(s, EscrowOp::AddToWhitelist { addr }) matches Some(t) ==> t.whitelisted_addr(
            addr,
        ),
        escrow_step(s, EscrowOp::RemoveFromWhitelist { addr }) matches Some(t) ==> (
        t.whitelisted_addr(addr) <==> !s.whitelist_mode),
        escrow_step(s, EscrowOp::SetWhitelistMode { enabled: false }) matches Some(t)
            ==> t.whitelisted_addr(addr),
{
}

/// A posted job is stored under the next id, counted, and listed for its client.
pub proof fn posted_job_is_stored(
    s: EscrowView,
    client: Seq<char>,
    amount: i128,
    desc_hash: Seq<u8>,
    payload_len: u32,
    deadline: u64,
    token: Seq<char>,
    title: Seq<u8>,
    category: Seq<char>,
    now: u32,
)
    requires
        s.post_job_error(client, amount, payload_len, deadline, now) is None,
    ensures
        ({
            let id = (s.job_count + 1) as u64;
            let t = escrow_step(
                s,
                EscrowOp::PostJob {
                    client,
                    amount,
                    desc_hash,
                    payload_len,
                    deadline,
                    token,
                    title,
                    category,
                    sla: None,
                    now,
                },
            ).unwrap();
            &&& t.job_count == id
            &&& t.jobs.contains_key(id)
            &&& t.jobs[id] == open_job(client, amount, desc_hash, now, deadline, token, title, category)
            &&& crate::escrow_spec::list_of(t.client_jobs, client) == crate::escrow_spec::list_of(
                s.client_jobs,
                client,
            ).push(id)
        }),
{
}

/// The per-status counts add up to the number of counted jobs, which is at most the job count.
pub proof fn status_counts_add_up(jobs: Map<u64, JobView>, n: nat)
    ensures
        status_count(jobs, n, JobStatus::Open) + status_count(jobs, n, JobStatus::InProgress)
            + status_count(jobs, n, JobStatus::SubmittedForReview) + status_count(
            jobs,
            n,
            JobStatus::Completed,
        ) + status_count(jobs, n, JobStatus::Cancelled) + status_count(jobs, n, JobStatus::Disputed)
            == present_count(jobs, n),
        present_count(jobs, n) <= n,
{
    lemma_counts_partition(jobs, n);
}

/// When every id from 1 to `n` holds a job, all `n` of them are counted.
pub proof fn counts_cover_every_stored_job(jobs: Map<u64, JobView>, n: nat)
    requires
        n <= u64::MAX,
        forall|i: nat| 1 <= i <= n ==> #[trigger] jobs.contains_key(i as u64),
    ensures
        present_count(jobs, n) == n,
    decreases n,
{
    if n > 0 {
        counts_cover_every_stored_job(jobs, (n - 1) as nat);
        assert(jobs.contains_key(n as u64));
    }
}

/// The count that `counts` reports for status `st`.
pub open spec fn reported_count(counts: JobStatusCounts, st: JobStatus) -> u64 {
    match st {
        JobStatus::Open => counts.open,
        JobStatus::InProgress => counts.in_progress,
        JobStatus::SubmittedForReview => counts.submitted_for_review,
        JobStatus::Completed => counts.completed,
        JobStatus::Cancelled => counts.cancelled,
        JobStatus::Disputed => counts.disputed,
    }
}

/// Writing a job under an id above `m` leaves what ids 1 to `m` hold as it was.
proof fn lemma_write_beyond(jobs: Map<u64, JobView>, m: nat, id: u64, j: JobView, st: JobStatus)
    requires
        m < id,
    ensures
        jobs_with_status(jobs.insert(id, j), m, st) == jobs_with_status(jobs, m, st),
        present_jobs(jobs.insert(id, j), m) == present_jobs(jobs, m),
    decreases m,
{
    if m > 0 {
        lemma_write_beyond(jobs, (m - 1) as nat, id, j, st);
        assert((m as u64) as int == m);
    }
}

/// Replacing the job stored under `id`, among ids 1 to `n`, moves it from the
/// count of its old status to the count of its new one and changes no other count.
proof fn lemma_status_change(jobs: Map<u64, JobView>, n: nat, id: u64, j: JobView, st: JobStatus)
    requires
        jobs.contains_key(id),
        1 <= id <= n,
        n <= u64::MAX,
    ensures
        status_count(jobs.insert(id, j), n, st) + (if jobs[id].status == st { 1int } else { 0int })
            == status_count(jobs, n, st) + (if j.status == st { 1int } else { 0int }),
        present_count(jobs.insert(id, j), n) == present_count(jobs, n),
    decreases n,
{
    assert((n as u64) as int == n);
    if n == id {
        lemma_write_beyond(jobs, (n - 1) as nat, id, j, st);
    } else {
        lemma_status_change(jobs, (n - 1) as nat, id, j, st);
    }
}

/// Each count reported by the status counts is the number of jobs stored
/// under ids 1 to `n` in that very status, and the total is the number of
/// jobs stored there.
pub proof fn status_counts_count_each_status(jobs: Map<u64, JobView>, n: nat, st: JobStatus)
    requires
        n <= u64::MAX,
    ensures
        reported_count(status_counts(jobs, n), st) == jobs_with_status(jobs, n, st).len(),
        forall|j: JobView| #[trigger] jobs_with_status(jobs, n, st).contains(j) ==> j.status == st,
        status_counts(jobs, n).total == present_count(jobs, n),
    decreases n,
{
    lemma_counts_partition(jobs, n);
    if n > 0 {
        status_counts_count_each_status(jobs, (n - 1) as nat, st);
        let p = jobs_with_status(jobs, (n - 1) as nat, st);
        assert forall|j: JobView| #[trigger] jobs_with_status(jobs, n, st).contains(j) implies j.status == st by {
            let q = jobs_with_status(jobs, n, st);
            let i = choose|i: int| 0 <= i < q.len() && q[i] == j;
            if i < p.len() {
                assert(q[i] == p[i]);
                assert(p.contains(j));
            }
        }
    }
}

/// Replacing one stored job by `j` moves one count from the old job's status
/// to the status of `j`: the old status reports one job fewer, the new one one
/// more, every other status and the total as before.
pub proof fn status_change_moves_one_count(
    jobs: Map<u64, JobView>,
    n: nat,
    id: u64,
    j: JobView,
    st: JobStatus,
)
    requires
        jobs.contains_key(id),
        1 <= id <= n,
        n <= u64::MAX,
    ensures
        ({
            let before = status_counts(jobs, n);
            let after = status_counts(jobs.insert(id, j), n);
            &&& reported_count(after, st) + (if jobs[id].status == st { 1int } else { 0int })
                == reported_count(before, st) + (if j.status == st { 1int } else { 0int })
            &&& after.total == before.total
        }),
{
    lemma_status_change(jobs, n, id, j, st);
    status_counts_count_each_status(jobs, n, st);
    status_counts_count_each_status(jobs.insert(id, j), n, st);
}

/// On consistent storage, submitting work moves its job from the count of jobs
/// in progress to the count of jobs submitted for review; the other counts and
/// the total stay as they were.
pub proof fn submission_moves_job_to_review_count(
    s: EscrowView,
    freelancer: Seq<char>,
    id: u64,
    now: u32,
)
    requires
        s.consistent(),
        escrow_step(s, EscrowOp::SubmitWork { freelancer, id, now }) is Some,
    ensures
        ({
            let t = escrow_step(s, EscrowOp::SubmitWork { freelancer, id, now }).unwrap();
            let before = status_counts(s.jobs, s.job_count as nat);
            let after = status_counts(t.jobs, t.job_count as nat);
            &&& after.submitted_for_review == before.submitted_for_review + 1
            &&& after.in_progress + 1 == before.in_progress
            &&& after.open == before.open
            &&& after.completed == before.completed
            &&& after.cancelled == before.cancelled
            &&& after.disputed == before.disputed
            &&& after.total == before.total
        }),
{
    let t = escrow_step(s, EscrowOp::SubmitWork { freelancer, id, now }).unwrap();
    let n = s.job_count as nat;
    let j = t.jobs[id];
    assert(t.jobs == s.jobs.insert(id, j));
    assert(j.status == JobStatus::SubmittedForReview);
    status_change_moves_one_count(s.jobs, n, id, j, JobStatus::SubmittedForReview);
    status_change_moves_one_count(s.jobs, n, id, j, JobStatus::InProgress);
    status_change_moves_one_count(s.jobs, n, id, j, JobStatus::Open);
    status_change_moves_one_count(s.jobs, n, id, j, JobStatus::Completed);
    status_change_moves_one_count(s.jobs, n, id, j, JobStatus::Cancelled);
    status_change_moves_one_count(s.jobs, n, id, j, JobStatus::Disputed);
}

/// A rebate is offered only on an open job, within the grace period after its creation.
pub proof fn rebate_only_within_grace(s: EscrowView, id: u64, now: u32)
    requires
        s.rebate_info_error(id) is None,
        s.rebate_info(id, now).is_eligible,
    ensures
        s.jobs[id].status == JobStatus::Open,
        now <= s.jobs[id].created_at + CANCELLATION_GRACE_PERIOD,
{
}

/// A milestone is paid out at most once: once released, releasing it again is refused.
pub proof fn milestone_released_only_once(s: EscrowView, client: Seq<char>, id: u64, mid: u32)
    requires
        s.approve_milestone_error(client, id, mid) is None,
    ensures
        s.milestone_released(id, mid).approve_milestone_error(client, id, mid) == Some(
            Error::MilestoneAlreadyReleased,
        ),
{
}

/// The sum of the milestones' amounts.
pub open spec fn amount_sum(ms: Seq<MilestoneView>) -> int
    decreases ms.len(),
{
    if ms.len() == 0 {
        0
    } else {
        amount_sum(ms.drop_last()) + ms.last().amount
    }
}

/// A job created from milestones is worth exactly their sum, and each milestone is worth something.
pub proof fn milestone_job_amount_is_sum(ms: Seq<MilestoneView>)
    requires
        milestones_total(ms) is Ok,
    ensures
        milestones_total(ms) == Ok::<i128, crate::escrow_types::Error>(amount_sum(ms) as i128),
        0 <= amount_sum(ms) <= i128::MAX,
        forall|i: int| 0 <= i < ms.len() ==> #[trigger] ms[i].amount > 0,
    decreases ms.len(),
{
    lemma_milestones_total_positive_amounts(ms);
    if ms.len() > 0 {
        let p = ms.drop_last();
        assert(milestones_total(p) is Ok);
        milestone_job_amount_is_sum(p);
        let t = milestones_total(p).unwrap();
        assert(t == amount_sum(p));
        assert(ms.last().amount > 0);
        assert(milestones_total(ms) == Ok::<i128, crate::escrow_types::Error>((t + ms.last().amount) as i128));
    }
}

/// The milestones of a job created from a list read back as that list: the job
/// counts as many milestones as were given, the one at each position is the one
/// given there (by position, whatever its own id), and listing them gives the
/// list back. Lists longer than `u32::MAX`, which no host vector holds, are left out.
pub proof fn milestones_read_back(
    s: EscrowView,
    client: Seq<char>,
    ms: Seq<MilestoneView>,
    deadline: u64,
    token: Seq<char>,
    title: Seq<u8>,
    category: Seq<char>,
    client_balance: i128,
    now: u32,
)
    requires
        ms.len() <= u32::MAX,
        escrow_step(
            s,
            EscrowOp::CreateJobWithMilestones {
                client,
                milestones: ms,
                deadline,
                token,
                title,
                category,
                client_balance,
                now,
            },
        ) is Some,
    ensures
        ({
            let id = (s.job_count + 1) as u64;
            let t = escrow_step(
                s,
                EscrowOp::CreateJobWithMilestones {
                    client,
                    milestones: ms,
                    deadline,
                    token,
                    title,
                    category,
                    client_balance,
                    now,
                },
            ).unwrap();
            &&& t.milestone_counts[id] == ms.len()
            &&& forall|i: int| 0 <= i < ms.len() ==> #[trigger] t.milestones[(id, i as u32)] == ms[i]
            &&& t.milestone_list(id) == Ok::<Seq<MilestoneView>, Error>(ms)
        }),
{
    let id = (s.job_count + 1) as u64;
    let t = escrow_step(
        s,
        EscrowOp::CreateJobWithMilestones {
            client,
            milestones: ms,
            deadline,
            token,
            title,
            category,
            client_balance,
            now,
        },
    ).unwrap();
    let n = ms.len() as u32;
    assert(t.milestone_counts[id] == n);
    assert forall|i: u32| i < n implies #[trigger] t.milestones.contains_key((id, i)) && t.milestones[(id, i)] == ms[i as int] by {}
    assert forall|i: int| 0 <= i < ms.len() implies #[trigger] t.milestones[(id, i as u32)] == ms[i] by {
        assert(((i as u32) as int) == i);
    }
    let listed = Seq::new(n as nat, |i: int| t.milestones[(id, i as u32)]);
    assert(listed =~= ms);
}

/// A dispute is paid for twice at the platform rate: raising it collects the
/// dispute fee, 2.5% of the job's amount, paid in by the party raising it, and
/// resolving it collects the platform fee, the same 2.5%, kept back from the
/// winner's payout. On an amount of at least 40 that fee is positive.
pub proof fn dispute_fees_collected(s: EscrowView, caller: Seq<char>, id: u64)
    requires
        escrow_step(s, EscrowOp::RaiseDispute { caller, id }) is Some,
    ensures
        ({
            let t = escrow_step(s, EscrowOp::RaiseDispute { caller, id }).unwrap();
            &&& t.fees == s.fees + s.dispute_fee(id)
            &&& t.dispute_fee(id) == s.dispute_fee(id)
            &&& s.jobs[id].amount >= 40 ==> t.fees > s.fees
            &&& escrow_step(t, EscrowOp::ResolveDispute { id }) matches Some(u) ==> u.fees == t.fees
                + t.dispute_fee(id) && u.fees == s.fees + 2 * s.dispute_fee(id)
                && u.jobs[id].status == JobStatus::Completed
        }),
{
    let amount = s.jobs[id].amount;
    if amount >= 40 {
        assert(amount * 250 >= 10_000) by (nonlinear_arith)
            requires
                amount >= 40,
        ;
        assert((amount * 250) / 10_000 >= 1) by (nonlinear_arith)
            requires
                amount * 250 >= 10_000,
        ;
    }
}

/// Once its deadline has passed, a job that is still open or in progress is
/// cancelled when its client, or its assigned freelancer, enforces the
/// deadline, provided that caller passes the access lists: the job becomes
/// cancelled and nothing else about it or any other job changes. A job that is
/// neither open nor in progress, or whose deadline has not passed, is never
/// cancelled this way.
pub proof fn passed_deadline_cancels_active_job(s: EscrowView, caller: Seq<char>, id: u64, now: u32)
    ensures
        s.jobs.contains_key(id) && s.access_error(caller) is None && (s.jobs[id].client == caller
            || s.jobs[id].freelancer == Some(caller)) && (s.jobs[id].status == JobStatus::Open
            || s.jobs[id].status == JobStatus::InProgress) && now > s.jobs[id].deadline
            ==> s.enforce_deadline_error(caller, id, now) is None && (escrow_step(
            s,
            EscrowOp::EnforceDeadline { caller, id, now },
        ) matches Some(t) && t.jobs == s.jobs.insert(
            id,
            JobView { status: JobStatus::Cancelled, ..s.jobs[id] },
        )),
        escrow_step(s, EscrowOp::EnforceDeadline { caller, id, now }) is Some ==> {
            &&& s.jobs.contains_key(id)
            &&& s.jobs[id].status == JobStatus::Open || s.jobs[id].status == JobStatus::InProgress
            &&& now > s.jobs[id].deadline
            &&& s.jobs[id].client == caller || s.jobs[id].freelancer == Some(caller)
        },
{
}

/// Cancellations succeed where their callers are entitled to them: a client
/// passing the access lists cancels its own open job; the assigned freelancer
/// passing them gives up a job in progress; a trusted forwarder passing them
/// cancels an open job for its client. Each marks the job cancelled and leaves
/// every other job as it was.
pub proof fn entitled_cancellations_succeed(s: EscrowView, caller: Seq<char>, client: Seq<char>, id: u64)
    ensures
        s.jobs.contains_key(id) && s.jobs[id].client == caller && s.access_error(caller) is None
            && s.jobs[id].status == JobStatus::Open ==> (escrow_step(
            s,
            EscrowOp::CancelJob { client: caller, id },
        ) matches Some(t) && t.jobs == s.jobs.insert(
            id,
            JobView { status: JobStatus::Cancelled, ..s.jobs[id] },
        )),
        s.jobs.contains_key(id) && s.jobs[id].freelancer == Some(caller) && s.access_error(caller)
            is None && s.jobs[id].status == JobStatus::InProgress ==> (escrow_step(
            s,
            EscrowOp::FreelancerCancelJob { freelancer: caller, id },
        ) matches Some(t) && t.jobs == s.jobs.insert(
            id,
            JobView { status: JobStatus::Cancelled, ..s.jobs[id] },
        )),
        s.jobs.contains_key(id) && s.jobs[id].client == client && s.trusted_forwarders.contains_key(
            caller,
        ) && s.access_error(caller) is None && s.jobs[id].status == JobStatus::Open ==> (escrow_step(
            s,
            EscrowOp::RelayCancelJob { forwarder: caller, client, id },
        ) matches Some(t) && t.jobs == s.jobs.insert(
            id,
            JobView { status: JobStatus::Cancelled, ..s.jobs[id] },
        )),
{
}

/// The forward moves of a job succeed where their callers are entitled to
/// them: any address passing the access lists accepts an open job that has no
/// freelancer, becoming its freelancer and starting it; the assigned freelancer
/// passing them submits work on a job in progress (without an SLA), which goes
/// to review; either party passing them puts a job in progress or under review
/// into dispute, where the fee fits.
pub proof fn entitled_job_moves_succeed(s: EscrowView, caller: Seq<char>, id: u64, now: u32)
    ensures
        s.jobs.contains_key(id) && s.access_error(caller) is None && s.jobs[id].status
            == JobStatus::Open && s.jobs[id].freelancer is None ==> (escrow_step(
            s,
            EscrowOp::AcceptJob { freelancer: caller, id, now },
        ) matches Some(t) && t.jobs[id].status == JobStatus::InProgress && t.jobs[id].freelancer
            == Some(caller)),
        s.jobs.contains_key(id) && s.access_error(caller) is None && s.jobs[id].status
            == JobStatus::InProgress && s.jobs[id].freelancer == Some(caller)
            && !s.sla_configs.contains_key(id) ==> (escrow_step(
            s,
            EscrowOp::SubmitWork { freelancer: caller, id, now },
        ) matches Some(t) && t.jobs[id].status == JobStatus::SubmittedForReview
            && t.jobs[id].submitted_at == now),
        s.jobs.contains_key(id) && s.access_error(caller) is None && (s.jobs[id].client == caller
            || s.jobs[id].freelancer == Some(caller)) && (s.jobs[id].status == JobStatus::InProgress
            || s.jobs[id].status == JobStatus::SubmittedForReview) && 0 < s.jobs[id].amount
            && s.jobs[id].amount * 250 <= i128::MAX && 0 <= s.fees && s.fees + bps_share(
            s.jobs[id].amount as int,
            250,
        ) <= i128::MAX ==> (escrow_step(s, EscrowOp::RaiseDispute { caller, id }) matches Some(t)
            && t.jobs[id].status == JobStatus::Disputed),
{
    if s.jobs.contains_key(id) && 0 < s.jobs[id].amount {
        let a = s.jobs[id].amount;
        lemma_share_bounds(a, 250);
        assert(a * 250 >= i128::MIN) by (nonlinear_arith)
            requires
                0 < a,
        ;
    }
}

/// A client releases a milestone of a job that is in progress or submitted
/// for review alike: where the client passes the access lists, the milestone
/// exists and is not yet released, and the fee on it fits, the release is
/// accepted, marks the milestone released and collects 2.5% of its amount;
/// every other milestone stays as it was.
pub proof fn milestone_released_while_active(
    s: EscrowView,
    client: Seq<char>,
    id: u64,
    mid: u32,
)
    requires
        s.jobs.contains_key(id),
        s.jobs[id].client == client,
        s.access_error(client) is None,
        s.jobs[id].status == JobStatus::InProgress || s.jobs[id].status
            == JobStatus::SubmittedForReview,
        s.milestones.contains_key((id, mid)),
        !s.milestones[(id, mid)].is_released,
        0 < s.milestones[(id, mid)].amount,
        s.milestones[(id, mid)].amount * 250 <= i128::MAX,
        s.fees + bps_share(s.milestones[(id, mid)].amount as int, 250) <= i128::MAX,
        s.fees >= 0,
    ensures
        s.approve_milestone_error(client, id, mid) is None,
        escrow_step(s, EscrowOp::ApproveMilestone { client, id, milestone_id: mid }) matches Some(t)
            && t.milestones[(id, mid)].is_released && t.milestones[(id, mid)].amount
            == s.milestones[(id, mid)].amount && t.fees == s.fees + bps_share(
            s.milestones[(id, mid)].amount as int,
            250,
        ) && t.jobs == s.jobs && (forall|k: (u64, u32)|
            k != (id, mid) && #[trigger] s.milestones.contains_key(k) ==> t.milestones.contains_key(k)
                && t.milestones[k] == s.milestones[k]),
{
    let a = s.milestones[(id, mid)].amount;
    lemma_share_bounds(a, 250);
    assert(a * 250 >= i128::MIN) by (nonlinear_arith)
        requires
            0 < a,
    ;
}

/// Accepting a job lists it among the freelancer's jobs after the ones listed
/// before, and leaves every other address's list of jobs as it was.
pub proof fn accepted_job_is_appended_to_freelancer_jobs(
    s: EscrowView,
    freelancer: Seq<char>,
    id: u64,
    now: u32,
    other: Seq<char>,
)
    requires
        escrow_step(s, EscrowOp::AcceptJob { freelancer, id, now }) is Some,
    ensures
        ({
            let t = escrow_step(s, EscrowOp::AcceptJob { freelancer, id, now }).unwrap();
            &&& list_of(t.freelancer_jobs, freelancer) == list_of(s.freelancer_jobs, freelancer).push(id)
            &&& list_of(t.freelancer_jobs, freelancer).len() == list_of(s.freelancer_jobs, freelancer).len() + 1
            &&& forall|i: int| 0 <= i < list_of(s.freelancer_jobs, freelancer).len() ==> #[trigger] list_of(
                t.freelancer_jobs,
                freelancer,
            )[i] == list_of(s.freelancer_jobs, freelancer)[i]
            &&& other != freelancer ==> list_of(t.freelancer_jobs, other) == list_of(s.freelancer_jobs, other)
            &&& t.client_jobs == s.client_jobs
            &&& t.jobs[id].freelancer == Some(freelancer)
            &&& t.jobs[id].status == JobStatus::InProgress
        }),
{
}

/// Work delivered after the SLA's delivery time carries the SLA penalty into the approval.
pub proof fn late_delivery_is_penalized(s: EscrowView, id: u64, now: u32)
    requires
        s.breaches_sla(id, now),
    ensures
        s.submitted(id, now).penalty_bps(id) == Some(s.sla_configs[id].penalty_bps),
{
}

} // verus!
