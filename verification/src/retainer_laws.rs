//! Properties of the retainer contract that span its entry points.
use vstd::prelude::*;
use crate::retainer::{CrossChainJobView, RetainerState, RetainerStatus, RetainerView};

verus! {

/// An entry point of the retainer contract that changes its storage, with its arguments.
pub enum RetainerOp {
    Initialize { admin: Seq<char>, native_token: Seq<char> },
    CreateRetainer {
        client: Seq<char>,
        freelancer: Seq<char>,
        amount: i128,
        interval_ledgers: u64,
        max_renewals: u32,
        token: Seq<char>,
        now: u64,
    },
    RenewRetainer { id: u64, now: u64 },
    CancelRetainer { client: Seq<char>, id: u64 },
    ExportJob {
        admin: Seq<char>,
        source_job_id: u64,
        freelancer: Seq<char>,
        amount: i128,
        token: Seq<char>,
        target_contract: Seq<char>,
    },
    ImportJob { admin: Seq<char>, id: u64 },
}

/// The storage after `op` on `s`, as the entry point's contract states it; `None`
/// where the entry point refuses.
pub open spec fn retainer_step(s: RetainerState, op: RetainerOp) -> Option<RetainerState> {
    match op {
        RetainerOp::Initialize { admin, native_token } => if s.admin is None {
            Some(
                RetainerState {
                    admin: Some(admin),
                    native_token: Some(native_token),
                    retainer_count: 0,
                    cross_chain_job_count: 0,
                    ..s
                },
            )
        } else {
            None
        },
        RetainerOp::CreateRetainer {
            client,
            freelancer,
            amount,
            interval_ledgers,
            max_renewals,
            token,
            now,
        } => if s.retainer_count < u64::MAX {
            let id = (s.retainer_count + 1) as u64;
            Some(
                RetainerState {
                    retainer_count: id,
                    retainers: s.retainers.insert(
                        id,
                        RetainerView {
                            client,
                            freelancer,
                            amount,
                            interval_ledgers,
                            max_renewals,
                            current_renewal: 0,
                            status: RetainerStatus::Active,
                            created_at: now,
                            token,
                            last_renewed_at: now,
                        },
                    ),
                    ..s
                },
            )
        } else {
            None
        },
        RetainerOp::RenewRetainer { id, now } => if s.renew_error(id, now) is None {
            Some(RetainerState { retainers: s.retainers.insert(id, s.renewed(id, now)), ..s })
        } else {
            None
        },
        RetainerOp::CancelRetainer { client, id } => if s.cancel_error(client, id) is None {
            Some(
                RetainerState {
                    retainers: s.retainers.insert(
                        id,
                        RetainerView { status: RetainerStatus::Cancelled, ..s.retainers[id] },
                    ),
                    ..s
                },
            )
        } else {
            None
        },
        RetainerOp::ExportJob { admin, source_job_id, freelancer, amount, token, target_contract } =>
            if s.admin_error(admin) is None && s.cross_chain_job_count < u64::MAX {
            let id = (s.cross_chain_job_count + 1) as u64;
            Some(
                RetainerState {
                    cross_chain_job_count: id,
                    cross_chain_jobs: s.cross_chain_jobs.insert(
                        id,
                        CrossChainJobView {
                            source_chain: "stellar"@,
                            source_job_id,
                            origin_contract: target_contract,
                            freelancer,
                            amount,
                            token,
                            exported: true,
                            imported: false,
                        },
                    ),
                    ..s
                },
            )
        } else {
            None
        },
        RetainerOp::ImportJob { admin, id } => if s.admin_error(admin) is None
            && s.cross_chain_jobs.contains_key(id) {
            Some(
                RetainerState {
                    cross_chain_jobs: s.cross_chain_jobs.insert(
                        id,
                        CrossChainJobView { imported: true, ..s.cross_chain_jobs[id] },
                    ),
                    ..s
                },
            )
        } else {
            None
        },
    }
}

impl RetainerState {
    /// No retainer has been renewed more often than it allows.
    pub open spec fn consistent(self) -> bool {
        forall|id: u64| #[trigger] self.retainers.contains_key(id) ==> self.retainers[id].current_renewal
            <= self.retainers[id].max_renewals
    }
}

/// Every operation that succeeds on a consistent storage leaves it consistent:
/// a retainer is never renewed beyond its maximum.
pub proof fn retainer_step_keeps_consistency(s: RetainerState, op: RetainerOp)
    requires
        s.consistent(),
        retainer_step(s, op) is Some,
    ensures
        retainer_step(s, op).unwrap().consistent(),
{
    let t = retainer_step(s, op).unwrap();
    assert forall|id: u64| #[trigger] t.retainers.contains_key(id) implies t.retainers[id].current_renewal
        <= t.retainers[id].max_renewals by {
        if s.retainers.contains_key(id) {
            assert(s.retainers[id].current_renewal <= s.retainers[id].max_renewals);
        }
    }
}

/// A completed or cancelled retainer is settled for good: no operation changes it,
/// save a new retainer written under the id the next one takes.
pub proof fn settled_retainers_stay_settled(s: RetainerState, op: RetainerOp, id: u64)
    requires
        retainer_step(s, op) is Some,
        s.retainers.contains_key(id),
        s.retainers[id].status != RetainerStatus::Active,
        id != s.retainer_count + 1,
    ensures
        retainer_step(s, op).unwrap().retainers.contains_key(id),
        retainer_step(s, op).unwrap().retainers[id] == s.retainers[id],
{
}

/// A renewal happens only once the interval since the last one has passed, and
/// the retainer is completed exactly when its renewals are all used up.
pub proof fn renewal_respects_interval_and_limit(s: RetainerState, id: u64, now: u64)
    requires
        s.consistent(),
        retainer_step(s, RetainerOp::RenewRetainer { id, now }) is Some,
    ensures
        now >= s.retainers[id].last_renewed_at + s.retainers[id].interval_ledgers,
        s.renewed(id, now).status == RetainerStatus::Completed <==> s.renewed(id, now).current_renewal
            == s.retainers[id].max_renewals,
        s.renewed(id, now).current_renewal <= s.retainers[id].current_renewal + 1,
{
    assert(s.retainers[id].current_renewal <= s.retainers[id].max_renewals);
}

/// A renewal that uses up one of the retainer's renewals restarts its interval
/// at the time of the renewal: it counts one more renewal, records `now` as the
/// last renewal, and a further renewal is refused with `IntervalNotPassed` at
/// any time before `now` plus the interval, while the retainer stays active.
/// Once its renewals are all used, a renewal completes it without changing them.
pub proof fn renewal_restarts_interval(s: RetainerState, id: u64, now: u64, later: u64)
    requires
        retainer_step(s, RetainerOp::RenewRetainer { id, now }) is Some,
    ensures
        ({
            let r = s.retainers[id];
            let t = retainer_step(s, RetainerOp::RenewRetainer { id, now }).unwrap();
            let r2 = t.retainers[id];
            &&& r.status == RetainerStatus::Active
            &&& now >= r.last_renewed_at + r.interval_ledgers
            &&& r.current_renewal < r.max_renewals ==> {
                &&& r2.last_renewed_at == now
                &&& r2.current_renewal == r.current_renewal + 1
                &&& (r2.status == RetainerStatus::Active <==> r.current_renewal + 1 < r.max_renewals)
                &&& r2.status == RetainerStatus::Active && later < now + r.interval_ledgers ==> retainer_step(
                    t,
                    RetainerOp::RenewRetainer { id, now: later },
                ) is None && (now + r.interval_ledgers <= u64::MAX ==> t.renew_error(id, later) == Some(
                    crate::retainer::Error::IntervalNotPassed,
                ))
                &&& r2.status == RetainerStatus::Active && later >= now + r.interval_ledgers
                    ==> retainer_step(t, RetainerOp::RenewRetainer { id, now: later }) is Some
            }
            &&& r.current_renewal >= r.max_renewals ==> {
                &&& r2.status == RetainerStatus::Completed
                &&& r2.current_renewal == r.current_renewal
                &&& r2.last_renewed_at == r.last_renewed_at
            }
            &&& r2.client == r.client && r2.freelancer == r.freelancer && r2.amount == r.amount
            &&& r2.interval_ledgers == r.interval_ledgers && r2.max_renewals == r.max_renewals
        }),
{
}

/// A created retainer is stored under the next id, active, with no renewal
/// yet and its interval counted from its creation; its client can then cancel
/// it, which nobody else can.
pub proof fn created_retainer_reads_back(
    s: RetainerState,
    client: Seq<char>,
    freelancer: Seq<char>,
    amount: i128,
    interval_ledgers: u64,
    max_renewals: u32,
    token: Seq<char>,
    now: u64,
    other: Seq<char>,
)
    requires
        s.retainer_count < u64::MAX,
    ensures
        ({
            let op = RetainerOp::CreateRetainer {
                client,
                freelancer,
                amount,
                interval_ledgers,
                max_renewals,
                token,
                now,
            };
            let id = (s.retainer_count + 1) as u64;
            &&& retainer_step(s, op) matches Some(t) && {
                let r = t.retainers[id];
                &&& t.retainer_count == id
                &&& r.client == client && r.freelancer == freelancer && r.amount == amount
                &&& r.interval_ledgers == interval_ledgers && r.max_renewals == max_renewals
                &&& r.token == token && r.created_at == now && r.last_renewed_at == now
                &&& r.current_renewal == 0 && r.status == RetainerStatus::Active
                &&& (retainer_step(t, RetainerOp::CancelRetainer { client, id }) matches Some(u)
                    && u.retainers[id].status == RetainerStatus::Cancelled)
                &&& other != client ==> retainer_step(t, RetainerOp::CancelRetainer { client: other, id })
                    is None
            }
        }),
{
}

/// A job exported and then imported is recorded as both.
pub proof fn export_then_import(
    s: RetainerState,
    admin: Seq<char>,
    source_job_id: u64,
    freelancer: Seq<char>,
    amount: i128,
    token: Seq<char>,
    target_contract: Seq<char>,
)
    requires
        retainer_step(
            s,
            RetainerOp::ExportJob { admin, source_job_id, freelancer, amount, token, target_contract },
        ) is Some,
    ensures
        ({
            let t = retainer_step(
                s,
                RetainerOp::ExportJob {
                    admin,
                    source_job_id,
                    freelancer,
                    amount,
                    token,
                    target_contract,
                },
            ).unwrap();
            let id = t.cross_chain_job_count;
            &&& t.cross_chain_jobs[id].exported && !t.cross_chain_jobs[id].imported
            &&& retainer_step(t, RetainerOp::ImportJob { admin, id }) matches Some(u)
                && u.cross_chain_jobs[id].exported && u.cross_chain_jobs[id].imported
        }),
{
}

} // verus!
