use escrow::address::{Address, Party, Transfer};
use escrow::escrow::EscrowContract;
use escrow::escrow_types::{
    CancellationRebateInfo, DiscountTier, EscrowEvent, Error, JobStatus, Milestone, SLAConfig,
};

fn addr(s: &str) -> Address {
    Address::new(s.to_string())
}

fn setup() -> (EscrowContract, Address) {
    let mut c = EscrowContract::new();
    let admin = addr("GADMIN");
    c.initialize(admin.clone(), addr("CNATIVE")).unwrap();
    (c, admin)
}

fn post(c: &mut EscrowContract, client: &Address, amount: i128, deadline: u64, now: u32) -> u64 {
    c.post_job(
        client.clone(),
        amount,
        vec![1u8; 32],
        10,
        deadline,
        addr("CTOKEN"),
        vec![2u8; 64],
        "design".to_string(),
        now,
    )
    .unwrap()
    .0
}

fn payout(to: &Address, amount: i128) -> Transfer {
    Transfer { token: addr("CTOKEN"), from: Party::Contract, to: Party::Account(to.clone()), amount }
}

fn sla(delivery: u64, penalty_bps: u64) -> SLAConfig {
    SLAConfig { response_time_ledgers: 5, delivery_time_ledgers: delivery, penalty_bps, auto_escalate: false }
}

#[test]
fn post_job_stores_an_open_job_and_locks_the_amount() {
    let (mut c, _) = setup();
    let client = addr("GCLIENT");
    let (id, eff) = c
        .post_job(client.clone(), 1_000, vec![9u8; 32], 100, 500, addr("CTOKEN"), vec![7u8; 64], "web".to_string(), 20)
        .unwrap();
    assert_eq!(id, 1);
    assert_eq!(eff.auths, vec![client.clone()]);
    assert_eq!(
        eff.transfers,
        vec![Transfer { token: addr("CTOKEN"), from: Party::Account(client.clone()), to: Party::Contract, amount: 1_000 }]
    );
    assert_eq!(
        eff.events,
        vec![EscrowEvent::JobPosted { job_id: 1, client: client.clone(), description_hash: vec![9u8; 32], amount: 1_000 }]
    );
    let job = c.get_job(id).unwrap();
    assert_eq!(job.client, client);
    assert_eq!(job.freelancer, None);
    assert_eq!(job.amount, 1_000);
    assert_eq!(job.status, JobStatus::Open);
    assert_eq!(job.created_at, 20);
    assert_eq!(job.deadline, 500);
    assert_eq!(job.description_hash, vec![9u8; 32]);
    assert_eq!(job.title, vec![7u8; 64]);
    assert_eq!(job.category, "web");
    assert_eq!(job.revision_count, 0);
    assert_eq!(job.submitted_at, 0);
    assert_eq!(c.get_job_count(), 1);
    assert_eq!(c.get_client_jobs(&client), vec![1]);
    let second = post(&mut c, &client, 5, 500, 20);
    assert_eq!(second, 2);
    assert_eq!(c.get_client_jobs(&client), vec![1, 2]);
}

#[test]
fn post_job_refusals() {
    let (mut c, admin) = setup();
    let client = addr("GCLIENT");
    let attempt = |c: &mut EscrowContract, amount: i128, len: u32, deadline: u64| {
        c.post_job(client.clone(), amount, vec![], len, deadline, addr("CTOKEN"), vec![], "x".to_string(), 50)
            .unwrap_err()
    };
    assert_eq!(attempt(&mut c, 0, 1, 100), Error::InvalidAmount);
    assert_eq!(attempt(&mut c, -5, 1, 100), Error::InvalidAmount);
    assert_eq!(attempt(&mut c, 5, 8193, 100), Error::PayloadTooLarge);
    assert_eq!(attempt(&mut c, 5, 8192, 50), Error::DeadlineTooSoon);
    c.set_desc_payload_max(16).unwrap();
    assert_eq!(c.get_desc_payload_max(), 16);
    assert_eq!(attempt(&mut c, 5, 17, 100), Error::PayloadTooLarge);
    c.set_whitelist_mode(&admin, true).unwrap();
    assert_eq!(attempt(&mut c, 5, 1, 100), Error::NotWhitelisted);
    c.add_to_whitelist(&admin, client.clone()).unwrap();
    c.add_to_blacklist(&admin, client.clone()).unwrap();
    assert_eq!(attempt(&mut c, 5, 1, 100), Error::Blacklisted);
    assert_eq!(c.get_job_count(), 0);
}

#[test]
fn full_lifecycle_pays_freelancer_less_platform_fee() {
    let (mut c, _) = setup();
    let client = addr("GCLIENT");
    let freelancer = addr("GFREE");
    let id = post(&mut c, &client, 10_000, 1_000, 10);
    let eff = c.accept_job(&freelancer, id, 11).unwrap();
    assert_eq!(eff.auths, vec![freelancer.clone()]);
    assert_eq!(
        eff.events,
        vec![EscrowEvent::JobAccepted { job_id: id, client: client.clone(), freelancer: freelancer.clone(), amount: 10_000 }]
    );
    let job = c.get_job(id).unwrap();
    assert_eq!(job.status, JobStatus::InProgress);
    assert_eq!(job.freelancer, Some(freelancer.clone()));
    assert_eq!(c.get_freelancer_jobs(&freelancer), vec![id]);
    let eff = c.submit_work(&freelancer, id, 30).unwrap();
    assert_eq!(
        eff.events,
        vec![EscrowEvent::WorkSubmitted { job_id: id, client: client.clone(), freelancer: freelancer.clone(), amount: 10_000 }]
    );
    let job = c.get_job(id).unwrap();
    assert_eq!(job.status, JobStatus::SubmittedForReview);
    assert_eq!(job.submitted_at, 30);
    let eff = c.approve_work(&client, id).unwrap();
    assert_eq!(eff.auths, vec![client.clone()]);
    assert_eq!(eff.transfers, vec![payout(&freelancer, 9_750)]);
    assert_eq!(
        eff.events,
        vec![EscrowEvent::WorkApproved { job_id: id, client: client.clone(), freelancer: freelancer.clone(), amount: 10_000 }]
    );
    assert_eq!(c.get_fees(), 250);
    assert_eq!(c.get_job(id).unwrap().status, JobStatus::Completed);
    assert_eq!(c.get_completed_jobs_count(), 1);
    assert_eq!(c.get_user_completed_jobs(&freelancer), 1);
}

#[test]
fn accept_and_submit_refusals() {
    let (mut c, admin) = setup();
    let client = addr("GCLIENT");
    let freelancer = addr("GFREE");
    assert_eq!(c.accept_job(&freelancer, 7, 1).unwrap_err(), Error::JobNotFound);
    let id = post(&mut c, &client, 100, 1_000, 1);
    assert_eq!(c.submit_work(&freelancer, id, 2).unwrap_err(), Error::JobNotInProgress);
    c.accept_job(&freelancer, id, 2).unwrap();
    assert_eq!(c.accept_job(&addr("GOTHER"), id, 3).unwrap_err(), Error::JobNotOpen);
    assert_eq!(c.submit_work(&addr("GOTHER"), id, 3).unwrap_err(), Error::NotAuthorized);
    assert_eq!(c.submit_work(&freelancer, 99, 3).unwrap_err(), Error::JobNotFound);
    c.add_to_blacklist(&admin, addr("GBAD")).unwrap();
    let id2 = post(&mut c, &client, 100, 1_000, 1);
    assert_eq!(c.accept_job(&addr("GBAD"), id2, 3).unwrap_err(), Error::Blacklisted);
}

#[test]
fn accepting_an_open_job_that_names_a_freelancer_is_refused() {
    let (mut c, _) = setup();
    let client = addr("GCLIENT");
    let id = post(&mut c, &client, 100, 1_000, 1);
    let mut job = c.get_job(id).unwrap();
    job.freelancer = Some(addr("GSOMEONE"));
    c.jobs.set(id, job);
    assert_eq!(c.accept_job(&addr("GFREE"), id, 2).unwrap_err(), Error::AlreadyAccepted);
}

#[test]
fn approve_work_refusals() {
    let (mut c, _) = setup();
    let client = addr("GCLIENT");
    let freelancer = addr("GFREE");
    assert_eq!(c.approve_work(&client, 3).unwrap_err(), Error::JobNotFound);
    let id = post(&mut c, &client, 100, 1_000, 1);
    assert_eq!(c.approve_work(&client, id).unwrap_err(), Error::JobNotSubmitted);
    c.accept_job(&freelancer, id, 2).unwrap();
    c.submit_work(&freelancer, id, 3).unwrap();
    assert_eq!(c.approve_work(&freelancer, id).unwrap_err(), Error::NotAuthorized);
    let mut job = c.get_job(id).unwrap();
    job.freelancer = None;
    c.jobs.set(id, job);
    assert_eq!(c.approve_work(&client, id).unwrap_err(), Error::FreelancerMissing);
}

#[test]
fn approve_work_overflow_is_refused() {
    let (mut c, _) = setup();
    let client = addr("GCLIENT");
    let freelancer = addr("GFREE");
    let id = post(&mut c, &client, i128::MAX, 1_000, 1);
    c.accept_job(&freelancer, id, 2).unwrap();
    c.submit_work(&freelancer, id, 3).unwrap();
    assert_eq!(c.approve_work(&client, id).unwrap_err(), Error::ArithmeticOverflow);
    assert_eq!(c.get_job(id).unwrap().status, JobStatus::SubmittedForReview);
    assert_eq!(c.get_fees(), 0);
}

#[test]
fn discount_tiers_lower_the_fee() {
    let (mut c, admin) = setup();
    let freelancer = addr("GFREE");
    assert_eq!(c.calculate_effective_fee_bps(&freelancer), 250);
    c.set_discount_tiers(
        &admin,
        vec![
            DiscountTier { min_completed_jobs: 1, discount_bps: 50 },
            DiscountTier { min_completed_jobs: 3, discount_bps: 100 },
            DiscountTier { min_completed_jobs: 2, discount_bps: 300 },
        ],
    )
    .unwrap();
    assert_eq!(c.get_discount_tiers().len(), 3);
    assert_eq!(c.calculate_effective_fee_bps(&freelancer), 250);
    c.user_completed_jobs.set(freelancer.clone(), 1);
    assert_eq!(c.calculate_effective_fee_bps(&freelancer), 200);
    c.user_completed_jobs.set(freelancer.clone(), 2);
    assert_eq!(c.calculate_effective_fee_bps(&freelancer), 0);
    c.user_completed_jobs.set(freelancer.clone(), 3);
    assert_eq!(c.calculate_effective_fee_bps(&freelancer), 0);
    c.set_discount_tiers(&admin, vec![DiscountTier { min_completed_jobs: 0, discount_bps: 100 }]).unwrap();
    assert_eq!(c.calculate_effective_fee_bps(&freelancer), 150);

    let client = addr("GCLIENT");
    let id = post(&mut c, &client, 10_000, 1_000, 1);
    c.accept_job(&freelancer, id, 2).unwrap();
    c.submit_work(&freelancer, id, 3).unwrap();
    let eff = c.approve_work(&client, id).unwrap();
    assert_eq!(eff.transfers, vec![payout(&freelancer, 9_850)]);
    assert_eq!(c.get_fees(), 150);
    assert_eq!(c.get_user_completed_jobs(&freelancer), 4);
}

#[test]
fn late_delivery_under_sla_is_penalized() {
    let (mut c, _) = setup();
    let client = addr("GCLIENT");
    let freelancer = addr("GFREE");
    let (id, _) = c
        .post_job_with_sla(client.clone(), 10_000, vec![], 1, 1_000, addr("CTOKEN"), vec![], "x".to_string(), sla(20, 500), 5)
        .unwrap();
    c.accept_job(&freelancer, id, 10).unwrap();
    assert!(!c.get_sla_status(id, 30).unwrap().breached);
    let before = c.get_sla_status(id, 31).unwrap();
    assert!(before.has_config);
    assert_eq!(before.accepted_at, 10);
    assert!(before.breached);
    assert!(!before.penalty_applied);
    let eff = c.submit_work(&freelancer, id, 31).unwrap();
    assert_eq!(
        eff.events,
        vec![
            EscrowEvent::WorkSubmitted { job_id: id, client: client.clone(), freelancer: freelancer.clone(), amount: 10_000 },
            EscrowEvent::SlaBreached { job_id: id, freelancer: freelancer.clone() },
        ]
    );
    assert!(c.get_sla_status(id, 31).unwrap().penalty_applied);
    let eff = c.approve_work(&client, id).unwrap();
    assert_eq!(eff.transfers, vec![payout(&freelancer, 9_250)]);
    assert_eq!(c.get_fees(), 250);
}

#[test]
fn delivery_on_time_under_sla_is_not_penalized() {
    let (mut c, _) = setup();
    let client = addr("GCLIENT");
    let freelancer = addr("GFREE");
    let (id, _) = c
        .post_job_with_sla(client.clone(), 10_000, vec![], 1, 1_000, addr("CTOKEN"), vec![], "x".to_string(), sla(20, 500), 5)
        .unwrap();
    c.accept_job(&freelancer, id, 10).unwrap();
    let eff = c.submit_work(&freelancer, id, 30).unwrap();
    assert_eq!(eff.events.len(), 1);
    let status = c.get_sla_status(id, 30).unwrap();
    assert!(!status.breached);
    assert!(!status.penalty_applied);
    assert_eq!(c.approve_work(&client, id).unwrap().transfers, vec![payout(&freelancer, 9_750)]);
}

#[test]
fn sla_status_without_config() {
    let (c, _) = setup();
    let s = c.get_sla_status(42, 1_000).unwrap();
    assert!(!s.has_config);
    assert_eq!(s.delivery_time_ledgers, 0);
    assert_eq!(s.accepted_at, 0);
    assert!(!s.breached);
    assert!(!s.penalty_applied);
}

#[test]
fn client_cancel_refunds() {
    let (mut c, _) = setup();
    let client = addr("GCLIENT");
    let id = post(&mut c, &client, 700, 1_000, 1);
    assert_eq!(c.cancel_job(&addr("GOTHER"), id).unwrap_err(), Error::NotAuthorized);
    let eff = c.cancel_job(&client, id).unwrap();
    assert_eq!(eff.transfers, vec![payout(&client, 700)]);
    assert_eq!(
        eff.events,
        vec![EscrowEvent::JobCancelled { job_id: id, client: client.clone(), freelancer: None, amount: 700 }]
    );
    assert_eq!(c.get_job(id).unwrap().status, JobStatus::Cancelled);
    assert_eq!(c.cancel_job(&client, id).unwrap_err(), Error::JobNotOpen);
    assert_eq!(c.cancel_with_rebate(&client, id).unwrap_err(), Error::JobNotOpen);
    let id2 = post(&mut c, &client, 300, 1_000, 1);
    assert_eq!(c.cancel_with_rebate(&client, id2).unwrap().transfers, vec![payout(&client, 300)]);
}

#[test]
fn freelancer_cancel_refunds_client() {
    let (mut c, _) = setup();
    let client = addr("GCLIENT");
    let freelancer = addr("GFREE");
    let id = post(&mut c, &client, 700, 1_000, 1);
    assert_eq!(c.freelancer_cancel_job(&freelancer, id).unwrap_err(), Error::NotAuthorized);
    c.accept_job(&freelancer, id, 2).unwrap();
    let eff = c.freelancer_cancel_job(&freelancer, id).unwrap();
    assert_eq!(eff.auths, vec![freelancer.clone()]);
    assert_eq!(
        eff.events,
        vec![EscrowEvent::JobCancelled { job_id: id, client: client.clone(), freelancer: Some(freelancer.clone()), amount: 700 }]
    );
    assert_eq!(eff.transfers, vec![payout(&client, 700)]);
    assert_eq!(c.freelancer_cancel_job(&freelancer, id).unwrap_err(), Error::JobNotInProgress);
}

#[test]
fn relayed_cancel_needs_trusted_forwarder() {
    let (mut c, admin) = setup();
    let client = addr("GCLIENT");
    let fwd = addr("GFWD");
    let id = post(&mut c, &client, 700, 1_000, 1);
    assert!(!c.is_trusted_forwarder(&fwd));
    assert_eq!(c.relay_cancel_job(&fwd, &client, id).unwrap_err(), Error::NotTrustedForwarder);
    c.set_trusted_forwarder(&admin, fwd.clone()).unwrap();
    assert!(c.is_trusted_forwarder(&fwd));
    assert_eq!(c.relay_cancel_job(&fwd, &addr("GOTHER"), id).unwrap_err(), Error::NotAuthorized);
    let eff = c.relay_cancel_job(&fwd, &client, id).unwrap();
    assert_eq!(eff.auths, vec![fwd.clone()]);
    assert_eq!(eff.transfers, vec![payout(&client, 700)]);
}

#[test]
fn deadline_enforcement() {
    let (mut c, _) = setup();
    let client = addr("GCLIENT");
    let freelancer = addr("GFREE");
    let id = post(&mut c, &client, 400, 100, 1);
    c.accept_job(&freelancer, id, 2).unwrap();
    assert_eq!(c.enforce_deadline(&addr("GOTHER"), id, 200).unwrap_err(), Error::NotAuthorized);
    assert_eq!(c.enforce_deadline(&freelancer, id, 100).unwrap_err(), Error::DeadlineNotPassed);
    let eff = c.enforce_deadline(&freelancer, id, 101).unwrap();
    assert_eq!(eff.transfers, vec![payout(&client, 400)]);
    assert_eq!(c.get_job(id).unwrap().status, JobStatus::Cancelled);
    assert_eq!(c.enforce_deadline(&client, id, 300).unwrap_err(), Error::JobNotActive);
}

#[test]
fn disputes() {
    let (mut c, admin) = setup();
    let client = addr("GCLIENT");
    let freelancer = addr("GFREE");
    let id = post(&mut c, &client, 10_000, 1_000, 1);
    assert_eq!(c.raise_dispute(&client, id).unwrap_err(), Error::JobNotActive);
    assert_eq!(c.resolve_dispute(&admin, id, &client).unwrap_err(), Error::JobNotDisputed);
    c.accept_job(&freelancer, id, 2).unwrap();
    assert_eq!(c.raise_dispute(&addr("GOTHER"), id).unwrap_err(), Error::NotAuthorized);
    let eff = c.raise_dispute(&freelancer, id).unwrap();
    assert_eq!(eff.auths, vec![freelancer.clone()]);
    assert_eq!(
        eff.transfers,
        vec![Transfer { token: addr("CTOKEN"), from: Party::Account(freelancer.clone()), to: Party::Contract, amount: 250 }]
    );
    assert_eq!(
        eff.events,
        vec![EscrowEvent::DisputeRaised { job_id: id, client: client.clone(), freelancer: Some(freelancer.clone()), amount: 10_000 }]
    );
    assert_eq!(c.get_job(id).unwrap().status, JobStatus::Disputed);
    assert_eq!(c.get_fees(), 250);
    let eff = c.resolve_dispute(&admin, id, &client).unwrap();
    assert_eq!(eff.auths, vec![admin.clone(), admin.clone()]);
    assert_eq!(eff.transfers, vec![payout(&client, 9_750)]);
    assert_eq!(
        eff.events,
        vec![EscrowEvent::DisputeResolved {
            job_id: id,
            client: client.clone(),
            freelancer: Some(freelancer.clone()),
            amount: 10_000,
            client_bps: 10_000,
            freelancer_bps: 0,
        }]
    );
    assert_eq!(c.get_fees(), 500);
    assert_eq!(c.get_job(id).unwrap().status, JobStatus::Completed);
    assert_eq!(c.get_completed_jobs_count(), 0);
    let mut fresh = EscrowContract::new();
    assert_eq!(fresh.resolve_dispute(&admin, 1, &client).unwrap_err(), Error::NotInitialized);
}

#[test]
fn cancellation_rebate_window() {
    let (mut c, _) = setup();
    let client = addr("GCLIENT");
    let id = post(&mut c, &client, 400, 1_000, 50);
    assert_eq!(
        c.get_cancellation_rebate_info(id, 150).unwrap(),
        CancellationRebateInfo { grace_deadline: 150, is_eligible: true }
    );
    assert_eq!(
        c.get_cancellation_rebate_info(id, 151).unwrap(),
        CancellationRebateInfo { grace_deadline: 150, is_eligible: false }
    );
    c.cancel_job(&client, id).unwrap();
    assert!(!c.get_cancellation_rebate_info(id, 60).unwrap().is_eligible);
    assert_eq!(c.get_cancellation_rebate_info(9, 60).unwrap_err(), Error::JobNotFound);
}

#[test]
fn allowed_tokens() {
    let (mut c, admin) = setup();
    let a = addr("CA");
    let b = addr("CB");
    let d = addr("CD");
    assert!(c.is_token_allowed(&a));
    c.add_allowed_token(&admin, a.clone()).unwrap();
    c.add_allowed_token(&admin, b.clone()).unwrap();
    c.add_allowed_token(&admin, a.clone()).unwrap();
    c.add_allowed_token(&admin, d.clone()).unwrap();
    assert_eq!(c.allowed_tokens, vec![a.clone(), b.clone(), d.clone()]);
    assert!(c.is_token_allowed(&b));
    assert!(!c.is_token_allowed(&addr("CZ")));
    c.remove_allowed_token(&admin, &b).unwrap();
    assert_eq!(c.allowed_tokens, vec![a.clone(), d.clone()]);
    assert!(!c.is_token_allowed(&b));
    c.remove_allowed_token(&admin, &addr("CZ")).unwrap();
    assert_eq!(c.allowed_tokens, vec![a.clone(), d.clone()]);
    c.remove_allowed_token(&admin, &a).unwrap();
    c.remove_allowed_token(&admin, &d).unwrap();
    assert!(c.is_token_allowed(&addr("CZ")));
    let mut fresh = EscrowContract::new();
    assert_eq!(fresh.add_allowed_token(&admin, a).unwrap_err(), Error::NotInitialized);
}

#[test]
fn access_lists() {
    let (mut c, admin) = setup();
    let u = addr("GUSER");
    assert!(!c.is_whitelist_mode_enabled());
    assert!(c.is_whitelisted(&u));
    c.set_whitelist_mode(&admin, true).unwrap();
    assert!(c.is_whitelist_mode_enabled());
    assert!(!c.is_whitelisted_public(&u));
    assert_eq!(c.check_access(&u).unwrap_err(), Error::NotWhitelisted);
    let eff = c.add_to_whitelist(&admin, u.clone()).unwrap();
    assert_eq!(eff.auths, vec![admin.clone(), admin.clone()]);
    assert!(c.is_whitelisted(&u));
    assert_eq!(c.add_to_whitelist(&admin, u.clone()).unwrap_err(), Error::AlreadyWhitelisted);
    c.remove_from_whitelist(&admin, &u).unwrap();
    assert!(!c.is_whitelisted(&u));
    c.add_to_blacklist(&admin, u.clone()).unwrap();
    assert!(c.is_blacklisted(&u));
    assert!(c.is_blacklisted_public(&u));
    assert_eq!(c.add_to_blacklist(&admin, u.clone()).unwrap_err(), Error::AlreadyBlacklisted);
    assert_eq!(c.check_access(&u).unwrap_err(), Error::Blacklisted);
    c.remove_from_blacklist(&admin, &u).unwrap();
    assert!(!c.is_blacklisted(&u));
    c.set_whitelist_mode(&admin, false).unwrap();
    assert!(c.check_access(&u).is_ok());
}

#[test]
fn administration_needs_initialization() {
    let mut c = EscrowContract::new();
    let a = addr("GADMIN");
    assert_eq!(c.set_desc_payload_max(5).unwrap_err(), Error::NotInitialized);
    assert_eq!(c.set_whitelist_mode(&a, true).unwrap_err(), Error::NotInitialized);
    assert_eq!(c.add_to_whitelist(&a, a.clone()).unwrap_err(), Error::NotInitialized);
    assert_eq!(c.set_discount_tiers(&a, vec![]).unwrap_err(), Error::NotInitialized);
    assert_eq!(c.withdraw_fees(&a, 1, &addr("CTOKEN")).unwrap_err(), Error::NotInitialized);
    assert_eq!(c.admin_get_job_count(&a).unwrap_err(), Error::NotInitialized);
    assert_eq!(c.get_native_token().unwrap_err(), Error::NotInitialized);
    assert_eq!(c.require_admin().unwrap_err(), Error::NotInitialized);
    assert_eq!(c.get_desc_payload_max(), 8192);
    c.initialize(a.clone(), addr("CNATIVE")).unwrap();
    assert_eq!(c.get_native_token().unwrap(), addr("CNATIVE"));
    assert_eq!(c.require_admin().unwrap(), a);
    assert_eq!(c.initialize(a.clone(), addr("CNATIVE")).unwrap_err(), Error::AlreadyInitialized);
}

#[test]
fn milestones_lock_their_total_and_pay_out_separately() {
    let (mut c, _) = setup();
    let client = addr("GCLIENT");
    let freelancer = addr("GFREE");
    let ms = vec![
        Milestone { id: 10, description_hash: vec![1], amount: 4_000, is_released: false },
        Milestone { id: 11, description_hash: vec![2], amount: 6_000, is_released: false },
    ];
    assert_eq!(
        c.create_job_with_milestones(client.clone(), ms.clone(), 900, addr("CTOKEN"), vec![], "m".to_string(), 9_999, 1)
            .unwrap_err(),
        Error::InsufficientBalance
    );
    let (id, eff) = c
        .create_job_with_milestones(client.clone(), ms.clone(), 900, addr("CTOKEN"), vec![], "m".to_string(), 10_000, 1)
        .unwrap();
    assert_eq!(
        eff.transfers,
        vec![Transfer { token: addr("CTOKEN"), from: Party::Account(client.clone()), to: Party::Contract, amount: 10_000 }]
    );
    let job = c.get_job(id).unwrap();
    assert_eq!(job.amount, 10_000);
    assert_eq!(job.description_hash, vec![0u8; 32]);
    assert_eq!(c.get_milestones(id).unwrap(), ms);
    assert_eq!(c.get_client_jobs(&client), vec![id]);
    assert_eq!(c.approve_milestone(&client, id, 0).unwrap_err(), Error::JobNotActive);
    c.accept_job(&freelancer, id, 2).unwrap();
    assert_eq!(c.approve_milestone(&freelancer, id, 0).unwrap_err(), Error::NotAuthorized);
    assert_eq!(c.approve_milestone(&client, id, 2).unwrap_err(), Error::MilestoneNotFound);
    let eff = c.approve_milestone(&client, id, 0).unwrap();
    assert_eq!(eff.transfers, vec![payout(&freelancer, 3_900)]);
    assert_eq!(eff.events, vec![EscrowEvent::MilestoneApproved { job_id: id, milestone_id: 0, client: client.clone() }]);
    assert_eq!(c.get_fees(), 100);
    assert!(c.get_milestones(id).unwrap()[0].is_released);
    assert_eq!(c.approve_milestone(&client, id, 0).unwrap_err(), Error::MilestoneAlreadyReleased);
    let eff = c.complete_milestone(&client, id, 1).unwrap();
    assert_eq!(eff.transfers, vec![payout(&freelancer, 5_850)]);
    assert_eq!(c.get_fees(), 250);
}

#[test]
fn milestone_refusals() {
    let (mut c, _) = setup();
    let client = addr("GCLIENT");
    let bad = vec![
        Milestone { id: 0, description_hash: vec![], amount: 5, is_released: false },
        Milestone { id: 1, description_hash: vec![], amount: 0, is_released: false },
    ];
    assert_eq!(
        c.create_job_with_milestones(client.clone(), bad, 9, addr("CTOKEN"), vec![], "m".to_string(), 100, 1)
            .unwrap_err(),
        Error::InvalidAmount
    );
    assert_eq!(
        c.create_job_with_milestones(client.clone(), vec![], 9, addr("CTOKEN"), vec![], "m".to_string(), 100, 1)
            .unwrap_err(),
        Error::InvalidAmount
    );
    let huge = vec![
        Milestone { id: 0, description_hash: vec![], amount: i128::MAX, is_released: false },
        Milestone { id: 1, description_hash: vec![], amount: 1, is_released: false },
    ];
    assert_eq!(
        c.create_job_with_milestones(client.clone(), huge, 9, addr("CTOKEN"), vec![], "m".to_string(), 100, 1)
            .unwrap_err(),
        Error::ArithmeticOverflow
    );
    assert_eq!(c.get_job_count(), 0);
    assert!(c.get_milestones(1).unwrap().is_empty());
}

#[test]
fn status_counts_and_admin_listings() {
    let (mut c, admin) = setup();
    let client = addr("GCLIENT");
    let freelancer = addr("GFREE");
    let a = post(&mut c, &client, 10, 1_000, 1);
    let b = post(&mut c, &client, 20, 1_000, 1);
    let d = post(&mut c, &client, 30, 1_000, 1);
    c.accept_job(&freelancer, b, 2).unwrap();
    c.cancel_job(&client, d).unwrap();
    let counts = c.get_job_status_counts();
    assert_eq!(counts.open, 1);
    assert_eq!(counts.in_progress, 1);
    assert_eq!(counts.cancelled, 1);
    assert_eq!(counts.completed, 0);
    assert_eq!(counts.total, 3);
    let (all, eff) = c.admin_get_all_jobs(&admin).unwrap();
    assert_eq!(eff.auths, vec![admin.clone(), admin.clone()]);
    assert_eq!(all.iter().map(|j| j.amount).collect::<Vec<_>>(), vec![10, 20, 30]);
    let (open, _) = c.admin_get_jobs_by_status(&admin, JobStatus::Open).unwrap();
    assert_eq!(open.len(), 1);
    assert_eq!(open[0], c.get_job(a).unwrap());
    assert_eq!(c.admin_get_job_count(&admin).unwrap().0, 3);
}

#[test]
fn fee_withdrawal() {
    let (mut c, admin) = setup();
    let client = addr("GCLIENT");
    let freelancer = addr("GFREE");
    let id = post(&mut c, &client, 10_000, 1_000, 1);
    c.accept_job(&freelancer, id, 2).unwrap();
    c.submit_work(&freelancer, id, 3).unwrap();
    c.approve_work(&client, id).unwrap();
    assert_eq!(c.withdraw_fees(&admin, 251, &addr("CTOKEN")).unwrap_err(), Error::InsufficientFees);
    let eff = c.withdraw_fees(&admin, 200, &addr("CTOKEN")).unwrap();
    assert_eq!(eff.transfers, vec![payout(&admin, 200)]);
    assert_eq!(eff.events, vec![EscrowEvent::FeesWithdrawn { admin: admin.clone(), token: addr("CTOKEN"), amount: 200 }]);
    assert_eq!(c.get_fees(), 50);
}

#[test]
fn jobs_posted_before_initialization_are_overwritten_after_it() {
    let mut c = EscrowContract::new();
    let client = addr("GCLIENT");
    let first = post(&mut c, &client, 11, 1_000, 1);
    assert_eq!(first, 1);
    c.initialize(addr("GADMIN"), addr("CNATIVE")).unwrap();
    assert_eq!(c.get_job_count(), 0);
    assert_eq!(c.get_job(1).unwrap().amount, 11);
    let again = post(&mut c, &client, 22, 1_000, 1);
    assert_eq!(again, 1);
    assert_eq!(c.get_job(1).unwrap().amount, 22);
    assert_eq!(c.get_client_jobs(&client), vec![1, 1]);
}

#[test]
fn store_replaces_and_removes() {
    let mut s: escrow::store::Store<u64, u32> = escrow::store::Store::new();
    s.set(3, 30);
    s.set(4, 40);
    s.set(3, 31);
    assert_eq!(s.get(&3), Some(&31));
    assert_eq!(s.entries().len(), 2);
    s.remove(&3);
    assert!(!s.contains(&3));
    assert!(s.contains(&4));
    let dup = escrow::store::Store::from_entries(vec![(5u64, 1u32), (6, 7), (5, 2)]);
    assert_eq!(dup.get(&5), Some(&1));
    assert_eq!(dup.entries().len(), 2);
    assert!(dup.entries().contains(&(5, 1)));
    assert!(dup.entries().contains(&(6, 7)));
    let mut dup = dup;
    dup.remove(&5);
    assert_eq!(dup.get(&5), None);
}

#[test]
fn administrative_changes_are_announced() {
    let mut c = EscrowContract::new();
    let admin = addr("GADMIN");
    let eff = c.initialize(admin.clone(), addr("CNATIVE")).unwrap();
    assert!(eff.auths.is_empty());
    assert_eq!(eff.events, vec![EscrowEvent::Initialized { admin: admin.clone(), native_token: addr("CNATIVE") }]);
    let u = addr("GUSER");
    assert_eq!(c.set_whitelist_mode(&admin, true).unwrap().events, vec![EscrowEvent::WhitelistModeSet { enabled: true }]);
    assert_eq!(c.add_to_whitelist(&admin, u.clone()).unwrap().events, vec![EscrowEvent::WhitelistAdded { address: u.clone() }]);
    assert_eq!(c.remove_from_whitelist(&admin, &u).unwrap().events, vec![EscrowEvent::WhitelistRemoved { address: u.clone() }]);
    assert_eq!(c.add_to_blacklist(&admin, u.clone()).unwrap().events, vec![EscrowEvent::BlacklistAdded { address: u.clone() }]);
    assert_eq!(c.remove_from_blacklist(&admin, &u).unwrap().events, vec![EscrowEvent::BlacklistRemoved { address: u.clone() }]);
    assert_eq!(
        c.set_trusted_forwarder(&admin, u.clone()).unwrap().events,
        vec![EscrowEvent::ForwarderSet { forwarder: u.clone(), is_trusted: true }]
    );
    let t = addr("CTOK");
    assert_eq!(c.add_allowed_token(&admin, t.clone()).unwrap().events, vec![EscrowEvent::TokenAdded { token: t.clone() }]);
    assert!(c.add_allowed_token(&admin, t.clone()).unwrap().events.is_empty());
    assert_eq!(c.remove_allowed_token(&admin, &t).unwrap().events, vec![EscrowEvent::TokenRemoved { token: t.clone() }]);
    assert!(c.remove_allowed_token(&admin, &t).unwrap().events.is_empty());
    assert!(c.set_discount_tiers(&admin, vec![]).unwrap().events.is_empty());
    let eff = c.set_desc_payload_max(10).unwrap();
    assert_eq!(eff.auths, vec![admin.clone()]);
}

#[test]
fn dispute_won_by_freelancer_is_announced_as_such() {
    let (mut c, admin) = setup();
    let client = addr("GCLIENT");
    let freelancer = addr("GFREE");
    let id = post(&mut c, &client, 400, 1_000, 1);
    c.accept_job(&freelancer, id, 2).unwrap();
    c.submit_work(&freelancer, id, 3).unwrap();
    c.raise_dispute(&client, id).unwrap();
    let eff = c.resolve_dispute(&admin, id, &freelancer).unwrap();
    assert_eq!(eff.transfers, vec![payout(&freelancer, 390)]);
    assert!(matches!(eff.events[0], EscrowEvent::DisputeResolved { client_bps: 0, freelancer_bps: 10_000, .. }));
}

#[test]
fn blacklisted_parties_are_refused_on_every_job_call() {
    let (mut c, admin) = setup();
    let client = addr("GCLIENT");
    let freelancer = addr("GFREE");
    let id = post(&mut c, &client, 1_000, 1_000, 1);
    c.accept_job(&freelancer, id, 2).unwrap();
    c.add_to_blacklist(&admin, freelancer.clone()).unwrap();
    assert_eq!(c.submit_work(&freelancer, id, 3).unwrap_err(), Error::Blacklisted);
    assert_eq!(c.freelancer_cancel_job(&freelancer, id).unwrap_err(), Error::Blacklisted);
    assert_eq!(c.raise_dispute(&freelancer, id).unwrap_err(), Error::Blacklisted);
    assert_eq!(c.enforce_deadline(&freelancer, id, 2_000).unwrap_err(), Error::Blacklisted);
    assert_eq!(c.get_job(id).unwrap().status, JobStatus::InProgress);
    c.remove_from_blacklist(&admin, &freelancer).unwrap();
    c.submit_work(&freelancer, id, 3).unwrap();
    c.add_to_blacklist(&admin, client.clone()).unwrap();
    assert_eq!(c.approve_work(&client, id).unwrap_err(), Error::Blacklisted);
    assert_eq!(c.approve_milestone(&client, id, 0).unwrap_err(), Error::Blacklisted);
    assert_eq!(c.complete_milestone(&client, id, 0).unwrap_err(), Error::Blacklisted);
    assert_eq!(c.raise_dispute(&client, id).unwrap_err(), Error::Blacklisted);
    let open = post(&mut c, &addr("GOTHERCLIENT"), 10, 1_000, 1);
    assert_eq!(c.cancel_job(&client, open).unwrap_err(), Error::Blacklisted);
    assert_eq!(c.cancel_with_rebate(&client, open).unwrap_err(), Error::Blacklisted);
    let fwd = addr("GFWD");
    c.set_trusted_forwarder(&admin, fwd.clone()).unwrap();
    c.add_to_blacklist(&admin, fwd.clone()).unwrap();
    assert_eq!(c.relay_cancel_job(&fwd, &addr("GOTHERCLIENT"), open).unwrap_err(), Error::Blacklisted);
    c.remove_from_blacklist(&admin, &fwd).unwrap();
    let own = post(&mut c, &addr("GTHIRD"), 10, 1_000, 1);
    c.add_to_blacklist(&admin, addr("GTHIRD")).unwrap();
    let eff = c.relay_cancel_job(&fwd, &addr("GTHIRD"), own).unwrap();
    assert_eq!(eff.transfers, vec![payout(&addr("GTHIRD"), 10)]);
    assert_eq!(c.get_job(own).unwrap().status, JobStatus::Cancelled);
    c.remove_from_blacklist(&admin, &client).unwrap();
    c.approve_work(&client, id).unwrap();
    assert_eq!(c.get_job(id).unwrap().status, JobStatus::Completed);
}

#[test]
fn whitelist_mode_guards_every_job_call() {
    let (mut c, admin) = setup();
    let client = addr("GCLIENT");
    let freelancer = addr("GFREE");
    let id = post(&mut c, &client, 1_000, 1_000, 1);
    c.accept_job(&freelancer, id, 2).unwrap();
    c.set_whitelist_mode(&admin, true).unwrap();
    assert_eq!(c.submit_work(&freelancer, id, 3).unwrap_err(), Error::NotWhitelisted);
    c.add_to_whitelist(&admin, freelancer.clone()).unwrap();
    c.submit_work(&freelancer, id, 3).unwrap();
    assert_eq!(c.approve_work(&client, id).unwrap_err(), Error::NotWhitelisted);
    c.add_to_whitelist(&admin, client.clone()).unwrap();
    c.approve_work(&client, id).unwrap();
}

#[test]
fn disputes_collect_a_fee_when_raised_and_when_resolved() {
    let (mut c, admin) = setup();
    let client = addr("GCLIENT");
    let freelancer = addr("GFREE");
    let id = post(&mut c, &client, 4_000, 1_000, 1);
    c.accept_job(&freelancer, id, 2).unwrap();
    assert_eq!(c.get_fees(), 0);
    let eff = c.raise_dispute(&client, id).unwrap();
    assert_eq!(
        eff.transfers,
        vec![Transfer { token: addr("CTOKEN"), from: Party::Account(client.clone()), to: Party::Contract, amount: 100 }]
    );
    assert_eq!(c.get_fees(), 100);
    let eff = c.resolve_dispute(&admin, id, &freelancer).unwrap();
    assert_eq!(eff.transfers, vec![payout(&freelancer, 3_900)]);
    assert_eq!(c.get_fees(), 200);
}
