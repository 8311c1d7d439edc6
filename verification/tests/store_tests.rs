use missioncontrol_store::{
    create_default_project, create_new_project, create_new_todo, delete_project_by_id,
    delete_todo_by_id, get_all_projects, get_excalidraw_data, get_todos_by_project,
    save_excalidraw_data, update_todo_by_id, CreateProject, DbModel, StoreError, UpdateTodo,
};

fn t(s: &str) -> String {
    s.to_string()
}

#[test]
fn fresh_database_is_seeded_with_exactly_one_default_project() {
    let mut db = DbModel::new();
    let seeded = create_default_project(&mut db, t("2024-01-01 00:00:00"));
    assert!(seeded);
    let projects = get_all_projects(&db);
    assert_eq!(projects.len(), 1);
    assert_eq!(projects[0].name, t("Default Project"));
    assert_eq!(projects[0].description, Some(t("Your first project")));
    assert_eq!(projects[0].id, 1);
}

#[test]
fn seeding_an_already_provisioned_database_changes_nothing() {
    let mut db = DbModel::new();
    create_default_project(&mut db, t("t1"));
    let seeded_again = create_default_project(&mut db, t("t2"));
    assert!(!seeded_again);
    assert_eq!(get_all_projects(&db).len(), 1);
    assert_eq!(get_all_projects(&db)[0].created_at, t("t1"));
}

#[test]
fn created_projects_are_listed_in_creation_order() {
    let mut db = DbModel::new();
    create_default_project(&mut db, t("t0"));
    let a = create_new_project(
        &mut db,
        CreateProject { name: t("alpha"), description: None },
        t("t1"),
    )
    .unwrap();
    let b = create_new_project(
        &mut db,
        CreateProject { name: t("beta"), description: Some(t("second")) },
        t("t2"),
    )
    .unwrap();
    assert_eq!(a.id, 2);
    assert_eq!(b.id, 3);
    let names: Vec<String> = get_all_projects(&db).into_iter().map(|p| p.name).collect();
    assert_eq!(names, vec![t("Default Project"), t("alpha"), t("beta")]);
}

#[test]
fn duplicate_or_empty_project_names_are_refused() {
    let mut db = DbModel::new();
    create_default_project(&mut db, t("t0"));
    let dup = create_new_project(
        &mut db,
        CreateProject { name: t("Default Project"), description: None },
        t("t1"),
    );
    assert!(matches!(dup, Err(StoreError::ConstraintViolation { .. })));
    let empty = create_new_project(
        &mut db,
        CreateProject { name: t(""), description: None },
        t("t1"),
    );
    assert!(matches!(empty, Err(StoreError::ConstraintViolation { .. })));
    assert_eq!(get_all_projects(&db).len(), 1);
}

#[test]
fn deleting_the_last_project_is_refused() {
    let mut db = DbModel::new();
    create_default_project(&mut db, t("t0"));
    let r = delete_project_by_id(&mut db, 1);
    assert!(matches!(r, Err(StoreError::LastProject)));
    assert_eq!(get_all_projects(&db).len(), 1);
}

#[test]
fn deleting_a_project_cascades_to_its_tasks_and_drawings() {
    let mut db = DbModel::new();
    create_default_project(&mut db, t("t0"));
    let p = create_new_project(
        &mut db,
        CreateProject { name: t("side"), description: None },
        t("t1"),
    )
    .unwrap();
    create_new_todo(&mut db, t("keep"), 25, 1, t("t2"));
    create_new_todo(&mut db, t("drop a"), 25, p.id, t("t3"));
    create_new_todo(&mut db, t("drop b"), 10, p.id, t("t4"));
    save_excalidraw_data(&mut db, t("[]"), t("{}"), p.id, t("t5"));
    save_excalidraw_data(&mut db, t("[1]"), t("{}"), 1, t("t6"));
    let r = delete_project_by_id(&mut db, p.id);
    assert!(r.is_ok());
    assert_eq!(get_all_projects(&db).len(), 1);
    assert_eq!(get_todos_by_project(&db, p.id).len(), 0);
    assert!(get_excalidraw_data(&db, p.id).is_none());
    // the other project's rows survive
    assert_eq!(get_todos_by_project(&db, 1).len(), 1);
    assert!(get_excalidraw_data(&db, 1).is_some());
}

#[test]
fn deleting_a_missing_project_id_succeeds_and_changes_nothing() {
    let mut db = DbModel::new();
    create_default_project(&mut db, t("t0"));
    create_new_project(
        &mut db,
        CreateProject { name: t("other"), description: None },
        t("t1"),
    )
    .unwrap();
    let r = delete_project_by_id(&mut db, 99);
    assert!(r.is_ok());
    assert_eq!(get_all_projects(&db).len(), 2);
}

#[test]
fn new_tasks_start_uncompleted_and_list_in_creation_order() {
    let mut db = DbModel::new();
    create_default_project(&mut db, t("t0"));
    let a = create_new_todo(&mut db, t("first"), 25, 1, t("t1"));
    let b = create_new_todo(&mut db, t("second"), 50, 1, t("t2"));
    assert!(!a.completed);
    assert!(!b.completed);
    assert_eq!(a.id, 1);
    assert_eq!(b.id, 2);
    let listed = get_todos_by_project(&db, 1);
    assert_eq!(listed.len(), 2);
    assert_eq!(listed[0].text, t("first"));
    assert_eq!(listed[1].text, t("second"));
}

#[test]
fn tasks_are_scoped_by_project() {
    let mut db = DbModel::new();
    create_default_project(&mut db, t("t0"));
    let p = create_new_project(
        &mut db,
        CreateProject { name: t("side"), description: None },
        t("t1"),
    )
    .unwrap();
    create_new_todo(&mut db, t("mine"), 25, 1, t("t2"));
    create_new_todo(&mut db, t("theirs"), 25, p.id, t("t3"));
    let listed = get_todos_by_project(&db, p.id);
    assert_eq!(listed.len(), 1);
    assert_eq!(listed[0].text, t("theirs"));
}

#[test]
fn updating_only_the_completion_flag_leaves_every_other_field_alone() {
    let mut db = DbModel::new();
    create_default_project(&mut db, t("t0"));
    let created = create_new_todo(&mut db, t("task"), 40, 1, t("t1"));
    let updated = update_todo_by_id(
        &mut db,
        created.id,
        UpdateTodo { text: None, completed: Some(true), time: None },
    )
    .unwrap();
    assert_eq!(updated.id, created.id);
    assert_eq!(updated.text, t("task"));
    assert!(updated.completed);
    assert_eq!(updated.time, 40);
    assert_eq!(updated.created_at, t("t1"));
    assert_eq!(updated.project_id, 1);
    let stored = get_todos_by_project(&db, 1);
    assert_eq!(stored.len(), 1);
    assert!(stored[0].completed);
    assert_eq!(stored[0].text, t("task"));
    assert_eq!(stored[0].time, 40);
}

#[test]
fn updating_with_no_fields_is_an_error_and_a_no_op() {
    let mut db = DbModel::new();
    create_default_project(&mut db, t("t0"));
    let created = create_new_todo(&mut db, t("task"), 25, 1, t("t1"));
    let r = update_todo_by_id(
        &mut db,
        created.id,
        UpdateTodo { text: None, completed: None, time: None },
    );
    assert!(matches!(r, Err(StoreError::NoFieldsToUpdate)));
    let stored = get_todos_by_project(&db, 1);
    assert_eq!(stored.len(), 1);
    assert!(!stored[0].completed);
}

#[test]
fn updating_a_missing_task_is_not_found() {
    let mut db = DbModel::new();
    create_default_project(&mut db, t("t0"));
    let r = update_todo_by_id(
        &mut db,
        42,
        UpdateTodo { text: Some(t("x")), completed: None, time: None },
    );
    assert!(matches!(r, Err(StoreError::NotFound)));
}

#[test]
fn deleting_a_task_removes_exactly_that_task() {
    let mut db = DbModel::new();
    create_default_project(&mut db, t("t0"));
    let a = create_new_todo(&mut db, t("a"), 25, 1, t("t1"));
    let b = create_new_todo(&mut db, t("b"), 25, 1, t("t2"));
    delete_todo_by_id(&mut db, a.id);
    let listed = get_todos_by_project(&db, 1);
    assert_eq!(listed.len(), 1);
    assert_eq!(listed[0].id, b.id);
}

#[test]
fn saving_a_drawing_twice_keeps_only_the_second_content() {
    let mut db = DbModel::new();
    create_default_project(&mut db, t("t0"));
    save_excalidraw_data(&mut db, t("[\"first\"]"), t("{\"z\":1}"), 1, t("t1"));
    save_excalidraw_data(&mut db, t("[\"second\"]"), t("{\"z\":2}"), 1, t("t2"));
    let current = get_excalidraw_data(&db, 1).unwrap();
    assert_eq!(current.elements, t("[\"second\"]"));
    assert_eq!(current.app_state, t("{\"z\":2}"));
    assert_eq!(current.updated_at, t("t2"));
    assert_eq!(current.project_id, 1);
}

#[test]
fn drawings_are_isolated_per_project() {
    let mut db = DbModel::new();
    create_default_project(&mut db, t("t0"));
    let p = create_new_project(
        &mut db,
        CreateProject { name: t("side"), description: None },
        t("t1"),
    )
    .unwrap();
    save_excalidraw_data(&mut db, t("[1]"), t("{}"), 1, t("t2"));
    save_excalidraw_data(&mut db, t("[2]"), t("{}"), p.id, t("t3"));
    assert_eq!(get_excalidraw_data(&db, 1).unwrap().elements, t("[1]"));
    assert_eq!(get_excalidraw_data(&db, p.id).unwrap().elements, t("[2]"));
}

#[test]
fn a_project_without_a_drawing_has_no_current_snapshot() {
    let mut db = DbModel::new();
    create_default_project(&mut db, t("t0"));
    assert!(get_excalidraw_data(&db, 1).is_none());
}
