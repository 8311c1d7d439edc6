//! The entities persisted by the store, and the request shapes used to
//! create and mutate them.
//!
//! Timestamps are server-assigned at the storage boundary; here they are
//! carried as opaque strings supplied by the caller at insertion time.

use vstd::prelude::*;

verus! {

/// A task row. `completed` is stored as a 0/1 integer at the storage
/// boundary and translated to a boolean at this boundary.
#[derive(Debug)]
pub struct Todo {
    pub id: i64,
    pub text: String,
    pub completed: bool,
    /// Estimated duration in minutes.
    pub time: i32,
    pub created_at: String,
    pub project_id: i64,
}

/// A request to insert a new task into a project.
#[derive(Debug)]
pub struct CreateTodo {
    pub text: String,
    pub time: i32,
    pub project_id: i64,
}

/// A sparse set of task field changes: an absent field means
/// "leave unchanged", not "set to a default".
#[derive(Debug)]
pub struct UpdateTodo {
    pub text: Option<String>,
    pub completed: Option<bool>,
    pub time: Option<i32>,
}

/// A drawing snapshot row: two opaque serialized blobs owned by a project.
/// At most one snapshot is retained per project.
#[derive(Debug)]
pub struct ExcalidrawData {
    pub id: i64,
    pub elements: String,
    pub app_state: String,
    pub updated_at: String,
    pub project_id: i64,
}

/// A request to replace the drawing snapshot of a project.
#[derive(Debug)]
pub struct SaveExcalidrawData {
    pub elements: String,
    pub app_state: String,
    pub project_id: i64,
}

/// A project row: the owner of tasks and drawing snapshots.
#[derive(Debug)]
pub struct Project {
    pub id: i64,
    pub name: String,
    pub description: Option<String>,
    pub created_at: String,
}

/// A request to insert a new project.
#[derive(Debug)]
pub struct CreateProject {
    pub name: String,
    pub description: Option<String>,
}

impl UpdateTodo {
    /// True when no field is present, so that there is nothing to update.
    pub open spec fn is_empty(self) -> bool {
        self.text is None && self.completed is None && self.time is None
    }
}

impl Clone for Todo {
    fn clone(&self) -> (res: Self)
        ensures
            res == *self,
    {
        Todo {
            id: self.id,
            text: self.text.clone(),
            completed: self.completed,
            time: self.time,
            created_at: self.created_at.clone(),
            project_id: self.project_id,
        }
    }
}

impl Clone for Project {
    fn clone(&self) -> (res: Self)
        ensures
            res == *self,
    {
        Project {
            id: self.id,
            name: self.name.clone(),
            description: clone_opt_string(&self.description),
            created_at: self.created_at.clone(),
        }
    }
}

impl Clone for ExcalidrawData {
    fn clone(&self) -> (res: Self)
        ensures
            res == *self,
    {
        ExcalidrawData {
            id: self.id,
            elements: self.elements.clone(),
            app_state: self.app_state.clone(),
            updated_at: self.updated_at.clone(),
            project_id: self.project_id,
        }
    }
}

/// An exact copy of an optional string.
pub fn clone_opt_string(s: &Option<String>) -> (res: Option<String>)
    ensures
        res == *s,
{
    match s {
        Some(v) => Some(v.clone()),
        None => None,
    }
}

} // verus!
