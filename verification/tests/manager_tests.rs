use missioncontrol_store::{
    connection_url, Database, InitAction, InitEvent, InitPhase, StoreError,
};

#[test]
fn connection_url_has_read_write_create_mode() {
    assert_eq!(
        connection_url("/tmp/missioncontrol/todos.db"),
        "sqlite:/tmp/missioncontrol/todos.db?mode=rwc".to_string()
    );
}

#[test]
fn first_request_resolves_then_connects_then_provisions_once() {
    let mut db: Database<u32> = Database::new();
    let a = db.on_event(InitEvent::HandleRequested);
    assert!(matches!(a, InitAction::ResolvePath));
    let a = db.on_event(InitEvent::PathOutcome(Ok("/data/todos.db".to_string())));
    match a {
        InitAction::Connect { url, attempt } => {
            assert_eq!(url, "sqlite:/data/todos.db?mode=rwc".to_string());
            assert_eq!(attempt, 1);
        }
        _ => panic!("expected a connection attempt"),
    }
    let a = db.on_event(InitEvent::ConnectOutcome(Ok(7u32)));
    assert!(matches!(a, InitAction::Provision));
    let a = db.on_event(InitEvent::ProvisionOutcome(Ok(())));
    assert!(matches!(a, InitAction::Complete));
    assert!(db.initialized);
    assert_eq!(db.get_pool(), Some(&7u32));
}

#[test]
fn later_requests_are_served_from_the_cache() {
    let mut db: Database<u32> = Database::new();
    db.on_event(InitEvent::HandleRequested);
    db.on_event(InitEvent::PathOutcome(Ok("/d/todos.db".to_string())));
    db.on_event(InitEvent::ConnectOutcome(Ok(1u32)));
    db.on_event(InitEvent::ProvisionOutcome(Ok(())));
    // however many callers ask again, no work is requested and nothing moves
    for _ in 0..5 {
        let a = db.on_event(InitEvent::HandleRequested);
        assert!(matches!(a, InitAction::Complete));
        assert!(matches!(db.phase, InitPhase::Ready));
        assert_eq!(db.get_pool(), Some(&1u32));
    }
}

#[test]
fn two_failures_then_success_backs_off_twice_and_provisions_once() {
    let mut db: Database<u32> = Database::new();
    let mut backoffs = 0;
    let mut provisions = 0;
    let mut actions: Vec<InitAction> = Vec::new();
    actions.push(db.on_event(InitEvent::HandleRequested));
    actions.push(db.on_event(InitEvent::PathOutcome(Ok("/d/todos.db".to_string()))));
    actions.push(db.on_event(InitEvent::ConnectOutcome(Err("locked".to_string()))));
    actions.push(db.on_event(InitEvent::BackoffDone));
    actions.push(db.on_event(InitEvent::ConnectOutcome(Err("locked".to_string()))));
    actions.push(db.on_event(InitEvent::BackoffDone));
    actions.push(db.on_event(InitEvent::ConnectOutcome(Ok(9u32))));
    actions.push(db.on_event(InitEvent::ProvisionOutcome(Ok(()))));
    let mut seconds = 0u64;
    for a in &actions {
        match a {
            InitAction::Backoff { seconds: s } => {
                backoffs += 1;
                seconds += *s;
            }
            InitAction::Provision => provisions += 1,
            _ => {}
        }
    }
    assert_eq!(backoffs, 2);
    assert_eq!(seconds, 2);
    assert_eq!(provisions, 1);
    assert!(matches!(actions[actions.len() - 1], InitAction::Complete));
    assert_eq!(db.get_pool(), Some(&9u32));
}

#[test]
fn third_failure_surfaces_connection_failed_and_resets() {
    let mut db: Database<u32> = Database::new();
    db.on_event(InitEvent::HandleRequested);
    db.on_event(InitEvent::PathOutcome(Ok("/d/todos.db".to_string())));
    db.on_event(InitEvent::ConnectOutcome(Err("one".to_string())));
    db.on_event(InitEvent::BackoffDone);
    db.on_event(InitEvent::ConnectOutcome(Err("two".to_string())));
    db.on_event(InitEvent::BackoffDone);
    let a = db.on_event(InitEvent::ConnectOutcome(Err("three".to_string())));
    match a {
        InitAction::Fail(StoreError::ConnectionFailed { attempts, last_error }) => {
            assert_eq!(attempts, 3);
            assert_eq!(last_error, "three".to_string());
        }
        _ => panic!("expected the connection failure"),
    }
    assert!(matches!(db.phase, InitPhase::Start));
    assert!(!db.initialized);
    assert_eq!(db.get_pool(), None);
}

#[test]
fn path_failure_is_fatal_without_retry() {
    let mut db: Database<u32> = Database::new();
    db.on_event(InitEvent::HandleRequested);
    let a = db.on_event(InitEvent::PathOutcome(Err(StoreError::NoWritableLocation {
        attempted: vec!["/x".to_string()],
        causes: vec!["denied".to_string()],
    })));
    match a {
        InitAction::Fail(StoreError::NoWritableLocation { attempted, .. }) => {
            assert_eq!(attempted, vec!["/x".to_string()]);
        }
        _ => panic!("expected the resolution failure"),
    }
    assert!(matches!(db.phase, InitPhase::Start));
}

#[test]
fn provisioning_failure_leaves_the_flag_unset_and_caches_nothing() {
    let mut db: Database<u32> = Database::new();
    db.on_event(InitEvent::HandleRequested);
    db.on_event(InitEvent::PathOutcome(Ok("/d/todos.db".to_string())));
    db.on_event(InitEvent::ConnectOutcome(Ok(4u32)));
    let a = db.on_event(InitEvent::ProvisionOutcome(Err("corrupt".to_string())));
    match a {
        InitAction::Fail(StoreError::SchemaError { message }) => {
            assert_eq!(message, "corrupt".to_string());
        }
        _ => panic!("expected the schema failure"),
    }
    assert!(!db.initialized);
    assert_eq!(db.get_pool(), None);
    // a later request retries the full sequence from path resolution
    let a = db.on_event(InitEvent::HandleRequested);
    assert!(matches!(a, InitAction::ResolvePath));
}
