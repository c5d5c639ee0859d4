use hangar_dashboard::access::{access_for, Access, User};
use hangar_dashboard::database::{
    database_card, linkage, offered_ops, CreateLink, CreateLinkStep, DatabaseCall, DatabaseCard,
    DatabaseOp, Linkage,
};
use hangar_dashboard::api_error::ApiError;
use hangar_dashboard::model::DatabaseDetails;

fn user(login: &str, is_admin: bool) -> User {
    User { login: login.to_string(), is_admin }
}

fn db(id: i32, project_id: Option<i32>) -> DatabaseDetails {
    DatabaseDetails {
        id,
        host: "db.local".to_string(),
        port: 3306,
        database_name: "d".to_string(),
        username: "u".to_string(),
        password: "SECRET-REDACTED".to_string(),
        project_id,
    }
}

#[test]
fn owner_participant_and_stranger() {
    let owner = "alice".to_string();
    let participants = vec!["bob".to_string()];
    assert_eq!(
        access_for(Some(&user("alice", false)), &owner, &participants),
        Access { strong: true, weak: true }
    );
    assert_eq!(
        access_for(Some(&user("bob", false)), &owner, &participants),
        Access { strong: false, weak: true }
    );
    assert_eq!(
        access_for(Some(&user("carol", false)), &owner, &participants),
        Access { strong: false, weak: false }
    );
    assert_eq!(
        access_for(Some(&user("carol", true)), &owner, &participants),
        Access { strong: true, weak: true }
    );
    assert_eq!(access_for(None, &owner, &participants), Access { strong: false, weak: false });
}

#[test]
fn no_database_offers_create_and_link() {
    assert_eq!(linkage(&None, &None), Linkage::NoDatabase);
    let card = database_card(&None, &None, true);
    assert_eq!(card, DatabaseCard::CreateAndLink);
    assert_eq!(offered_ops(card), vec![DatabaseOp::CreateAndLink]);
}

#[test]
fn personal_database_offers_link_existing() {
    let personal = Some(db(7, None));
    assert_eq!(linkage(&None, &personal), Linkage::PersonalUnlinked);
    let card = database_card(&None, &personal, true);
    assert_eq!(card, DatabaseCard::LinkExisting { database_id: 7 });
    assert_eq!(offered_ops(card), vec![DatabaseOp::LinkExisting]);
}

#[test]
fn database_linked_elsewhere_is_not_offered() {
    let personal = Some(db(7, Some(99)));
    assert_eq!(linkage(&None, &personal), Linkage::NoDatabase);
    assert_eq!(database_card(&None, &personal, true), DatabaseCard::CreateAndLink);
}

#[test]
fn linked_database_controls_follow_strong_access() {
    let linked = Some(db(3, Some(42)));
    assert_eq!(linkage(&linked, &None), Linkage::Linked);
    let card = database_card(&linked, &None, true);
    assert_eq!(card, DatabaseCard::Managed);
    assert_eq!(offered_ops(card), vec![DatabaseOp::Unlink, DatabaseOp::Delete]);
    let card = database_card(&linked, &None, false);
    assert_eq!(card, DatabaseCard::ReadOnly);
    assert!(offered_ops(card).is_empty());
    assert_eq!(database_card(&None, &None, false), DatabaseCard::NoneLinked);
}

#[test]
fn create_then_link_succeeds() {
    let mut flow = CreateLink::new(42);
    assert_eq!(flow.start(), Some(DatabaseCall::Create));
    assert!(flow.is_loading());
    assert_eq!(flow.start(), None);
    assert_eq!(flow.created(Ok(9)), Some(DatabaseCall::Link { project_id: 42, database_id: 9 }));
    assert!(flow.linked(true));
    assert!(!flow.is_loading());
}

#[test]
fn link_failure_after_create_is_reported() {
    let mut flow = CreateLink::new(42);
    flow.start();
    flow.created(Ok(9));
    assert!(!flow.linked(false));
    match &flow.step {
        CreateLinkStep::Failed { error } => {
            assert_eq!(error.error_code, "LINK_FAILED");
            assert!(error.details.is_none());
        }
        _ => panic!("expected a failure"),
    }
}

#[test]
fn create_failure_keeps_api_error() {
    let mut flow = CreateLink::new(1);
    flow.start();
    let err = ApiError { error_code: "DATABASE_ALREADY_EXISTS".to_string(), details: None };
    assert_eq!(flow.created(Err(err)), None);
    match &flow.step {
        CreateLinkStep::Failed { error } => assert_eq!(error.error_code, "DATABASE_ALREADY_EXISTS"),
        _ => panic!("expected a failure"),
    }
    assert_eq!(flow.start(), Some(DatabaseCall::Create));
}

use hangar_dashboard::access::{route_gate, Gate};
use hangar_dashboard::database::call_for;

#[test]
fn guarded_pages() {
    let admin = user("root", true);
    let plain = user("bob", false);
    assert_eq!(route_gate(true, None, false), Gate::Wait);
    assert_eq!(route_gate(true, Some(&admin), true), Gate::Wait);
    assert_eq!(route_gate(false, None, false), Gate::Redirect);
    assert_eq!(route_gate(false, None, true), Gate::Redirect);
    assert_eq!(route_gate(false, Some(&plain), false), Gate::Show);
    assert_eq!(route_gate(false, Some(&plain), true), Gate::Denied);
    assert_eq!(route_gate(false, Some(&admin), true), Gate::Show);
}

#[test]
fn database_operations_act_on_the_workload() {
    assert_eq!(
        call_for(DatabaseOp::Unlink, DatabaseCard::Managed, 42),
        Some(DatabaseCall::Unlink { project_id: 42 })
    );
    assert_eq!(
        call_for(DatabaseOp::Delete, DatabaseCard::Managed, 42),
        Some(DatabaseCall::DeleteLinked { project_id: 42 })
    );
    assert_eq!(
        call_for(DatabaseOp::LinkExisting, DatabaseCard::LinkExisting { database_id: 7 }, 42),
        Some(DatabaseCall::Link { project_id: 42, database_id: 7 })
    );
    assert_eq!(call_for(DatabaseOp::CreateAndLink, DatabaseCard::CreateAndLink, 42), Some(DatabaseCall::Create));
    assert_eq!(call_for(DatabaseOp::Delete, DatabaseCard::ReadOnly, 42), None);
    assert_eq!(call_for(DatabaseOp::Unlink, DatabaseCard::CreateAndLink, 42), None);
}
