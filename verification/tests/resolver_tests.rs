use missioncontrol_store::{candidate_dirs, resolve, Environment, ProbeOutcome, StoreError};

fn full_env() -> Environment {
    Environment {
        xdg_data_home: Some(String::from("/data")),
        home: Some(String::from("/home/u")),
        appdata: Some(String::from("/appdata")),
        temp_dir: String::from("/tmp"),
    }
}

#[test]
fn candidates_follow_priority_order() {
    let dirs = candidate_dirs(&full_env());
    assert_eq!(
        dirs,
        vec![
            "/data/missioncontrol".to_string(),
            "/home/u/.local/share/missioncontrol".to_string(),
            "/home/u/.missioncontrol".to_string(),
            "/appdata/missioncontrol".to_string(),
            "/tmp/missioncontrol".to_string(),
        ]
    );
}

#[test]
fn unset_variables_are_skipped() {
    let env = Environment {
        xdg_data_home: None,
        home: None,
        appdata: None,
        temp_dir: String::from("/tmp"),
    };
    let dirs = candidate_dirs(&env);
    assert_eq!(dirs, vec!["/tmp/missioncontrol".to_string()]);
}

#[test]
fn first_writable_candidate_wins() {
    let env = full_env();
    let outcomes = vec![
        ProbeOutcome::CreateDirFailed(String::from("read-only")),
        ProbeOutcome::Writable,
        ProbeOutcome::Writable,
        ProbeOutcome::WriteProbeFailed(String::from("quota")),
        ProbeOutcome::Writable,
    ];
    let r = resolve(&env, &outcomes);
    assert_eq!(
        r.unwrap(),
        "/home/u/.local/share/missioncontrol/todos.db".to_string()
    );
}

#[test]
fn later_success_is_ignored_once_one_candidate_wins() {
    let env = full_env();
    let outcomes = vec![
        ProbeOutcome::Writable,
        ProbeOutcome::Writable,
        ProbeOutcome::Writable,
        ProbeOutcome::Writable,
        ProbeOutcome::Writable,
    ];
    let r = resolve(&env, &outcomes);
    assert_eq!(r.unwrap(), "/data/missioncontrol/todos.db".to_string());
}

#[test]
fn no_writable_candidate_reports_every_attempt() {
    let env = full_env();
    let outcomes = vec![
        ProbeOutcome::CreateDirFailed(String::from("a")),
        ProbeOutcome::WriteProbeFailed(String::from("b")),
        ProbeOutcome::CreateDirFailed(String::from("c")),
        ProbeOutcome::CreateDirFailed(String::from("d")),
        ProbeOutcome::WriteProbeFailed(String::from("e")),
    ];
    match resolve(&env, &outcomes) {
        Err(StoreError::NoWritableLocation { attempted, causes }) => {
            assert_eq!(attempted, candidate_dirs(&env));
            assert_eq!(
                causes,
                vec![
                    "a".to_string(),
                    "b".to_string(),
                    "c".to_string(),
                    "d".to_string(),
                    "e".to_string(),
                ]
            );
        }
        other => panic!("expected NoWritableLocation, got {:?}", other.is_ok()),
    }
}
