//! The schema statements and the seeding rule.
//!
//! Provisioning applies the table definitions in dependency order —
//! projects first, since tasks and drawings reference it — and each
//! statement is safe against both a fresh and an already-provisioned
//! database. After table creation the existing projects are counted and,
//! if there are none, exactly one default project is inserted, so that
//! tasks and drawings always have a valid owner.

use vstd::prelude::*;

verus! {

/// The table definition for projects.
pub open spec fn spec_projects_table_sql() -> Seq<char> {
    "CREATE TABLE IF NOT EXISTS projects (id INTEGER PRIMARY KEY AUTOINCREMENT, name TEXT NOT NULL UNIQUE, description TEXT, created_at TEXT NOT NULL DEFAULT CURRENT_TIMESTAMP)"@
}

/// The table definition for tasks.
pub open spec fn spec_todos_table_sql() -> Seq<char> {
    "CREATE TABLE IF NOT EXISTS todos (id INTEGER PRIMARY KEY AUTOINCREMENT, text TEXT NOT NULL, completed INTEGER NOT NULL DEFAULT 0, time INTEGER NOT NULL DEFAULT 25, created_at TEXT NOT NULL DEFAULT CURRENT_TIMESTAMP, project_id INTEGER REFERENCES projects(id) DEFAULT 1)"@
}

/// The table definition for drawing snapshots.
pub open spec fn spec_drawings_table_sql() -> Seq<char> {
    "CREATE TABLE IF NOT EXISTS excalidraw_data (id INTEGER PRIMARY KEY AUTOINCREMENT, elements TEXT NOT NULL, app_state TEXT NOT NULL, updated_at TEXT NOT NULL DEFAULT CURRENT_TIMESTAMP, project_id INTEGER REFERENCES projects(id) DEFAULT 1)"@
}

/// The idempotent table-creation statements, in dependency order: the
/// projects table first, then the two tables that reference it.
pub fn schema_statements() -> (r: Vec<&'static str>)
    ensures
        r@.len() == 3,
        r@[0]@ == spec_projects_table_sql(),
        r@[1]@ == spec_todos_table_sql(),
        r@[2]@ == spec_drawings_table_sql(),
{
    let mut stmts: Vec<&'static str> = Vec::new();
    stmts.push(
        "CREATE TABLE IF NOT EXISTS projects (id INTEGER PRIMARY KEY AUTOINCREMENT, name TEXT NOT NULL UNIQUE, description TEXT, created_at TEXT NOT NULL DEFAULT CURRENT_TIMESTAMP)",
    );
    stmts.push(
        "CREATE TABLE IF NOT EXISTS todos (id INTEGER PRIMARY KEY AUTOINCREMENT, text TEXT NOT NULL, completed INTEGER NOT NULL DEFAULT 0, time INTEGER NOT NULL DEFAULT 25, created_at TEXT NOT NULL DEFAULT CURRENT_TIMESTAMP, project_id INTEGER REFERENCES projects(id) DEFAULT 1)",
    );
    stmts.push(
        "CREATE TABLE IF NOT EXISTS excalidraw_data (id INTEGER PRIMARY KEY AUTOINCREMENT, elements TEXT NOT NULL, app_state TEXT NOT NULL, updated_at TEXT NOT NULL DEFAULT CURRENT_TIMESTAMP, project_id INTEGER REFERENCES projects(id) DEFAULT 1)",
    );
    stmts
}

/// The statement that counts existing projects.
pub fn count_projects_sql() -> (r: &'static str)
    ensures
        r@ == "SELECT COUNT(*) FROM projects"@,
{
    "SELECT COUNT(*) FROM projects"
}

/// The statement that inserts the default project; binds name, description.
pub fn seed_project_sql() -> (r: &'static str)
    ensures
        r@ == "INSERT INTO projects (name, description) VALUES (?, ?)"@,
{
    "INSERT INTO projects (name, description) VALUES (?, ?)"
}

/// The fixed name of the default project.
pub fn default_project_name() -> (r: &'static str)
    ensures
        r@ == "Default Project"@,
{
    "Default Project"
}

/// The fixed description of the default project.
pub fn default_project_description() -> (r: &'static str)
    ensures
        r@ == "Your first project"@,
{
    "Your first project"
}

/// The seeding rule: the default project is inserted exactly when the
/// count of existing projects is zero.
pub fn needs_default_project(project_count: i64) -> (r: bool)
    ensures
        r == (project_count == 0),
{
    project_count == 0
}

} // verus!
