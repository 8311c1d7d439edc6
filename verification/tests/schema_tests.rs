use missioncontrol_store::{
    count_projects_sql, default_project_description, default_project_name,
    needs_default_project, schema_statements, seed_project_sql,
};

#[test]
fn tables_are_created_in_dependency_order() {
    let stmts = schema_statements();
    assert_eq!(stmts.len(), 3);
    assert!(stmts[0].starts_with("CREATE TABLE IF NOT EXISTS projects"));
    assert!(stmts[1].starts_with("CREATE TABLE IF NOT EXISTS todos"));
    assert!(stmts[2].starts_with("CREATE TABLE IF NOT EXISTS excalidraw_data"));
    // the referencing tables name the referenced one
    assert!(stmts[1].contains("REFERENCES projects(id)"));
    assert!(stmts[2].contains("REFERENCES projects(id)"));
}

#[test]
fn every_statement_is_guarded_for_idempotence() {
    for stmt in schema_statements() {
        assert!(stmt.contains("IF NOT EXISTS"));
    }
}

#[test]
fn seeding_happens_exactly_when_no_project_exists() {
    assert!(needs_default_project(0));
    assert!(!needs_default_project(1));
    assert!(!needs_default_project(42));
}

#[test]
fn seed_texts_are_fixed() {
    assert_eq!(count_projects_sql(), "SELECT COUNT(*) FROM projects");
    assert_eq!(
        seed_project_sql(),
        "INSERT INTO projects (name, description) VALUES (?, ?)"
    );
    assert_eq!(default_project_name(), "Default Project");
    assert_eq!(default_project_description(), "Your first project");
}
