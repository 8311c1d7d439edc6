use missioncontrol_store::StoreError;

#[test]
fn every_failure_describes_itself() {
    let errors = vec![
        StoreError::NoWritableLocation { attempted: vec![], causes: vec![] },
        StoreError::ConnectionFailed { attempts: 3, last_error: "io".to_string() },
        StoreError::SchemaError { message: "bad".to_string() },
        StoreError::NoFieldsToUpdate,
        StoreError::NotFound,
        StoreError::LastProject,
        StoreError::ConstraintViolation { message: "dup".to_string() },
    ];
    for e in &errors {
        assert!(!e.message().is_empty());
    }
}

#[test]
fn the_last_project_failure_names_the_rule() {
    assert_eq!(
        StoreError::LastProject.message(),
        "cannot delete the last project".to_string()
    );
}
