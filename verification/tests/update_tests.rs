use missioncontrol_store::{
    apply_update, build_partial_update, completed_from_int, completed_to_int, SqlValue,
    StoreError, Todo, UpdateTodo,
};

const RETURNING: &str =
    " WHERE id = ? RETURNING id, text, completed, time, created_at, project_id";

#[test]
fn empty_change_set_yields_no_statement() {
    let r = build_partial_update(
        5,
        &UpdateTodo { text: None, completed: None, time: None },
    );
    assert!(matches!(r, Err(StoreError::NoFieldsToUpdate)));
}

#[test]
fn single_field_statement_touches_only_that_field() {
    let s = build_partial_update(
        7,
        &UpdateTodo { text: None, completed: Some(true), time: None },
    )
    .unwrap();
    assert_eq!(s.sql, format!("UPDATE todos SET completed = ?{}", RETURNING));
    assert_eq!(s.params.len(), 2);
    assert!(matches!(s.params[0], SqlValue::Int(1)));
    assert!(matches!(s.params[1], SqlValue::Int(7)));
}

#[test]
fn full_change_set_lists_fields_in_fixed_order() {
    let s = build_partial_update(
        3,
        &UpdateTodo {
            text: Some("new text".to_string()),
            completed: Some(false),
            time: Some(45),
        },
    )
    .unwrap();
    assert_eq!(
        s.sql,
        format!("UPDATE todos SET text = ?, completed = ?, time = ?{}", RETURNING)
    );
    assert_eq!(s.params.len(), 4);
    assert!(matches!(s.params[0], SqlValue::Text(ref t) if t == "new text"));
    assert!(matches!(s.params[1], SqlValue::Int(0)));
    assert!(matches!(s.params[2], SqlValue::Int(45)));
    assert!(matches!(s.params[3], SqlValue::Int(3)));
}

#[test]
fn text_and_time_without_completion_keeps_the_comma_between_them() {
    let s = build_partial_update(
        1,
        &UpdateTodo { text: Some("t".to_string()), completed: None, time: Some(5) },
    )
    .unwrap();
    assert_eq!(s.sql, format!("UPDATE todos SET text = ?, time = ?{}", RETURNING));
    assert_eq!(s.params.len(), 3);
}

#[test]
fn applying_a_change_set_only_touches_present_fields() {
    let before = Todo {
        id: 9,
        text: "old".to_string(),
        completed: false,
        time: 25,
        created_at: "t0".to_string(),
        project_id: 2,
    };
    let after = apply_update(
        &before,
        &UpdateTodo { text: Some("new".to_string()), completed: None, time: None },
    );
    assert_eq!(after.id, 9);
    assert_eq!(after.text, "new".to_string());
    assert!(!after.completed);
    assert_eq!(after.time, 25);
    assert_eq!(after.created_at, "t0".to_string());
    assert_eq!(after.project_id, 2);
}

#[test]
fn completion_flag_crosses_the_storage_boundary_as_zero_or_one() {
    assert_eq!(completed_to_int(true), 1);
    assert_eq!(completed_to_int(false), 0);
    assert!(completed_from_int(1));
    assert!(completed_from_int(-3));
    assert!(!completed_from_int(0));
}
