//! Persistence core for a project/task/drawing desktop application.
//!
//! The library holds the decision logic of the storage layer: choosing a
//! writable location for the database file, the retry state machine that
//! opens the connection and provisions the schema exactly once, the
//! schema statements and seeding rule, the partial-update statement
//! builder, and a verified model of each store operation's effect on the
//! database contents. All file, environment and database I/O is performed
//! by the surrounding application, which feeds plain values in and carries
//! the produced statements and actions out.

mod errors;
mod manager;
mod resolver;
mod schema;
mod store;
mod types;
mod update;

pub use errors::StoreError;
pub use manager::{
    action_kind, connection_url, event_kind, fail_count, lemma_provision_at_most_once,
    lemma_provision_bounded, lemma_ready_is_stable, lemma_reaching_ready_provisions,
    lemma_success_provisions_exactly_once, provision_count, provision_credit, run_phases,
    spec_connection_url, spec_step, ActionKind, Database, EventKind, InitAction, InitEvent,
    InitPhase, LifecyclePhase, BACKOFF_SECONDS, MAX_CONNECT_ATTEMPTS,
};
pub use resolver::{
    candidate_dirs, cause_of, resolve, resolution_ok, resolved_at, spec_candidates, spec_db_path,
    Environment, ProbeOutcome,
};
pub use schema::{
    count_projects_sql, default_project_description, default_project_name, needs_default_project,
    schema_statements, seed_project_sql, spec_drawings_table_sql, spec_projects_table_sql,
    spec_todos_table_sql,
};
pub use store::{
    create_default_project, create_new_project, create_new_todo, delete_project_by_id,
    delete_todo_by_id, drawings_for, drawings_without_project, get_all_projects,
    get_excalidraw_data, get_todos_by_project, has_drawing_for, has_todo, project_name_taken,
    projects_without, same_state, save_excalidraw_data, todo_updated, todos_for, todos_without,
    todos_without_project, update_todo_by_id, DbModel,
};
pub use update::{
    apply_update, build_partial_update, comma_joined, completed_as_int, completed_from_int,
    completed_to_int, present_pieces, spec_applied, spec_update_params, spec_update_sql,
    PreparedStatement, SqlValue,
};
pub use types::{
    CreateProject, CreateTodo, ExcalidrawData, Project, SaveExcalidrawData, Todo, UpdateTodo,
};
