use escrow::address::Address;
use escrow::retainer::{Error, RetainerContract, RetainerEvent, RetainerStatus};

fn addr(s: &str) -> Address {
    Address::new(s.to_string())
}

fn setup() -> (RetainerContract, Address, Address, Address) {
    let mut contract = RetainerContract::new();
    let admin = addr("GADMIN");
    let native_token = addr("CNATIVE");
    contract.initialize(admin.clone(), native_token).unwrap();
    (contract, admin, addr("GUSER"), addr("GFREELANCER"))
}

#[test]
fn test_create_retainer() {
    let (mut client, _, user, freelancer) = setup();
    let token = addr("CTOKEN");
    let (rid, _) = client
        .create_retainer(user.clone(), freelancer.clone(), 1_000_000i128, 1000u64, 12u32, token, 0)
        .unwrap();
    let retainer = client.get_retainer(rid).unwrap();
    assert_eq!(retainer.client, user);
    assert_eq!(retainer.freelancer, freelancer);
    assert_eq!(retainer.amount, 1_000_000);
    assert_eq!(retainer.current_renewal, 0);
    assert_eq!(retainer.status, RetainerStatus::Active);
}

#[test]
fn test_retainer_renew_lifecycle() {
    let (mut client, _, user, freelancer) = setup();
    let token = addr("CTOKEN");
    let (rid, _) = client
        .create_retainer(user.clone(), freelancer, 500_000i128, 10u64, 3u32, token, 0)
        .unwrap();

    client.renew_retainer(&user, rid, 100).unwrap();
    let retainer = client.get_retainer(rid).unwrap();
    assert_eq!(retainer.current_renewal, 1);

    client.renew_retainer(&user, rid, 200).unwrap();
    let retainer = client.get_retainer(rid).unwrap();
    assert_eq!(retainer.current_renewal, 2);
}

#[test]
fn test_retainer_completes_at_max_renewals() {
    let (mut client, _, user, freelancer) = setup();
    let token = addr("CTOKEN");
    let (rid, _) = client
        .create_retainer(user.clone(), freelancer, 500_000i128, 10u64, 2u32, token, 0)
        .unwrap();

    client.renew_retainer(&user, rid, 100).unwrap();
    client.renew_retainer(&user, rid, 200).unwrap();

    let retainer = client.get_retainer(rid).unwrap();
    assert_eq!(retainer.status, RetainerStatus::Completed);
}

#[test]
fn test_cancel_retainer() {
    let (mut client, _, user, freelancer) = setup();
    let token = addr("CTOKEN");
    let (rid, _) = client
        .create_retainer(user.clone(), freelancer, 500_000i128, 10u64, 12u32, token, 0)
        .unwrap();
    client.cancel_retainer(&user, rid).unwrap();
    let retainer = client.get_retainer(rid).unwrap();
    assert_eq!(retainer.status, RetainerStatus::Cancelled);
}

#[test]
fn test_cancel_completed_retainer_fails() {
    let (mut client, _, user, freelancer) = setup();
    let token = addr("CTOKEN");
    let (rid, _) = client
        .create_retainer(user.clone(), freelancer, 500_000i128, 10u64, 1u32, token, 0)
        .unwrap();
    client.renew_retainer(&user, rid, 100).unwrap();
    let result = client.cancel_retainer(&user, rid);
    assert_eq!(result.unwrap_err(), Error::InvalidStatus);
}

#[test]
fn test_export_and_import_job() {
    let (mut client, admin, _, freelancer) = setup();
    let token = addr("CTOKEN");
    let target = addr("CTARGET");
    let (cc_id, _) = client
        .export_job(&admin, 1u64, freelancer.clone(), 1_000_000i128, token.clone(), "futurenet".to_string(), target)
        .unwrap();
    let cross = client.get_cross_chain_job(cc_id).unwrap();
    assert!(cross.exported);
    assert!(!cross.imported);

    client
        .import_job(&admin, cc_id, "futurenet".to_string(), 1u64, freelancer, 1_000_000i128, token)
        .unwrap();
    let cross = client.get_cross_chain_job(cc_id).unwrap();
    assert!(cross.imported);
}

#[test]
fn test_renew_fails_before_interval() {
    let (mut client, _, user, freelancer) = setup();
    let token = addr("CTOKEN");
    let (rid, _) = client
        .create_retainer(user.clone(), freelancer, 500_000i128, 100u64, 12u32, token, 0)
        .unwrap();
    let result = client.renew_retainer(&user, rid, 10);
    assert!(result.is_err());
}

#[test]
fn retainer_initialize_twice_is_refused() {
    let (mut client, admin, _, _) = setup();
    let again = client.initialize(admin, addr("CNATIVE"));
    assert_eq!(again.unwrap_err(), Error::AlreadyInitialized);
}

#[test]
fn retainer_initialize_announces_itself() {
    let mut contract = RetainerContract::new();
    let out = contract.initialize(addr("GADMIN"), addr("CNATIVE")).unwrap();
    assert_eq!(out.auth, addr("GADMIN"));
    assert_eq!(
        out.events,
        vec![RetainerEvent::Initialized { admin: addr("GADMIN"), native_token: addr("CNATIVE") }]
    );
}

#[test]
fn retainer_ids_are_sequential() {
    let (mut client, _, user, freelancer) = setup();
    let token = addr("CTOKEN");
    let (a, _) = client.create_retainer(user.clone(), freelancer.clone(), 1, 1, 1, token.clone(), 5).unwrap();
    let (b, out) = client.create_retainer(user.clone(), freelancer.clone(), 2, 1, 1, token, 5).unwrap();
    assert_eq!(a, 1);
    assert_eq!(b, 2);
    assert_eq!(
        out.events,
        vec![RetainerEvent::Created { retainer_id: 2, client: user, freelancer, amount: 2, max_renewals: 1 }]
    );
    let r = client.get_retainer(2).unwrap();
    assert_eq!(r.created_at, 5);
    assert_eq!(r.last_renewed_at, 5);
}

#[test]
fn retainer_renewal_interval_boundary() {
    let (mut client, _, user, freelancer) = setup();
    let (rid, _) = client.create_retainer(user.clone(), freelancer, 7, 100, 5, addr("CTOKEN"), 50).unwrap();
    assert_eq!(client.renew_retainer(&user, rid, 149).unwrap_err(), Error::IntervalNotPassed);
    let (id, out) = client.renew_retainer(&user, rid, 150).unwrap();
    assert_eq!(id, rid);
    assert_eq!(out.events.len(), 1);
    assert!(matches!(out.events[0], RetainerEvent::Renewed { retainer_id: 1, amount: 7, .. }));
    let r = client.get_retainer(rid).unwrap();
    assert_eq!(r.last_renewed_at, 150);
    assert_eq!(client.renew_retainer(&user, rid, 249).unwrap_err(), Error::IntervalNotPassed);
}

#[test]
fn retainer_with_no_renewals_completes_on_first_renewal() {
    let (mut client, _, user, freelancer) = setup();
    let (rid, _) = client.create_retainer(user.clone(), freelancer, 7, 0, 0, addr("CTOKEN"), 0).unwrap();
    let (_, out) = client.renew_retainer(&user, rid, 0).unwrap();
    assert_eq!(out.events.len(), 1);
    assert!(matches!(out.events[0], RetainerEvent::Completed { retainer_id: 1, .. }));
    let r = client.get_retainer(rid).unwrap();
    assert_eq!(r.status, RetainerStatus::Completed);
    assert_eq!(r.current_renewal, 0);
    assert_eq!(client.renew_retainer(&user, rid, 10).unwrap_err(), Error::InvalidStatus);
}

#[test]
fn retainer_errors() {
    let (mut client, admin, user, freelancer) = setup();
    assert_eq!(client.get_retainer(9).unwrap_err(), Error::NotFound);
    assert_eq!(client.renew_retainer(&user, 9, 0).unwrap_err(), Error::NotFound);
    assert_eq!(client.cancel_retainer(&user, 9).unwrap_err(), Error::NotFound);
    let (rid, _) = client.create_retainer(user.clone(), freelancer.clone(), 7, 10, 5, addr("CTOKEN"), 0).unwrap();
    assert_eq!(client.cancel_retainer(&freelancer, rid).unwrap_err(), Error::Unauthorized);
    let (rid2, _) = client.create_retainer(user.clone(), freelancer.clone(), 7, u64::MAX, 5, addr("CTOKEN"), 1).unwrap();
    assert_eq!(client.renew_retainer(&user, rid2, 5).unwrap_err(), Error::ArithmeticOverflow);
    assert_eq!(
        client.export_job(&user, 1, freelancer.clone(), 5, addr("CTOKEN"), "x".to_string(), addr("CT")).unwrap_err(),
        Error::Unauthorized
    );
    assert_eq!(
        client.import_job(&admin, 4, "x".to_string(), 1, freelancer.clone(), 5, addr("CTOKEN")).unwrap_err(),
        Error::NotFound
    );
    let mut fresh = RetainerContract::new();
    assert_eq!(
        fresh.export_job(&admin, 1, freelancer, 5, addr("CTOKEN"), "x".to_string(), addr("CT")).unwrap_err(),
        Error::NotInitialized
    );
    assert_eq!(fresh.get_cross_chain_job(1).unwrap_err(), Error::NotFound);
}

#[test]
fn exported_job_records_origin() {
    let (mut client, admin, _, freelancer) = setup();
    let (cc, out) = client
        .export_job(&admin, 42, freelancer.clone(), 9, addr("CTOKEN"), "futurenet".to_string(), addr("CTARGET"))
        .unwrap();
    let c = client.get_cross_chain_job(cc).unwrap();
    assert_eq!(c.source_chain, "stellar");
    assert_eq!(c.source_job_id, 42);
    assert_eq!(c.origin_contract, addr("CTARGET"));
    assert_eq!(out.auth, admin);
    assert_eq!(
        out.events,
        vec![RetainerEvent::Exported {
            cross_chain_id: cc,
            source_job_id: 42,
            freelancer,
            amount: 9,
            target_chain: "futurenet".to_string()
        }]
    );
}

#[test]
fn last_renewal_completes_and_announces_both() {
    let (mut client, _, user, freelancer) = setup();
    let (rid, _) = client.create_retainer(user.clone(), freelancer.clone(), 3, 10, 1, addr("CTOKEN"), 0).unwrap();
    let (_, out) = client.renew_retainer(&user, rid, 10).unwrap();
    assert_eq!(
        out.events,
        vec![
            RetainerEvent::Renewed { retainer_id: rid, client: user.clone(), freelancer: freelancer.clone(), amount: 3 },
            RetainerEvent::Completed { retainer_id: rid, client: user.clone(), freelancer },
        ]
    );
    let r = client.get_retainer(rid).unwrap();
    assert_eq!(r.current_renewal, 1);
    assert_eq!(r.status, RetainerStatus::Completed);
}
