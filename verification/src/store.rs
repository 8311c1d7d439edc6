//! A verified model of the store: what each entity operation does to the
//! database contents.
//!
//! `DbModel` is the abstract state of the three tables. Rows are kept in
//! insertion order, which is the order the listing queries return (their
//! creation timestamps are assigned at insertion and never change).
//! Identities model the autoincrement columns: each table's next identity
//! is strictly above every identity already in it. The model carries the
//! data-model invariants: identities are unique per table, project names
//! are unique and non-empty, and at most one drawing snapshot is retained
//! per project.

use vstd::prelude::*;
use vstd::pervasive::VecAdditionalExecFns;

use crate::errors::StoreError;
use crate::schema::{default_project_description, default_project_name};
use crate::types::{ExcalidrawData, Project, Todo, UpdateTodo};
use crate::update::{apply_update, spec_applied};

verus! {

broadcast use vstd::seq_lib::group_filter_ensures;

/// The tasks of one project, in stored order.
pub open spec fn todos_for(todos: Seq<Todo>, project_id: i64) -> Seq<Todo> {
    todos.filter(|t: Todo| t.project_id == project_id)
}

/// The tasks that do not belong to one project, in stored order.
pub open spec fn todos_without_project(todos: Seq<Todo>, project_id: i64) -> Seq<Todo> {
    todos.filter(|t: Todo| t.project_id != project_id)
}

/// The tasks other than the one with the given identity, in stored order.
pub open spec fn todos_without(todos: Seq<Todo>, id: i64) -> Seq<Todo> {
    todos.filter(|t: Todo| t.id != id)
}

/// The drawing snapshots of one project, in stored order.
pub open spec fn drawings_for(drawings: Seq<ExcalidrawData>, project_id: i64) -> Seq<
    ExcalidrawData,
> {
    drawings.filter(|d: ExcalidrawData| d.project_id == project_id)
}

/// The drawing snapshots that do not belong to one project, in stored order.
pub open spec fn drawings_without_project(drawings: Seq<ExcalidrawData>, project_id: i64) -> Seq<
    ExcalidrawData,
> {
    drawings.filter(|d: ExcalidrawData| d.project_id != project_id)
}

/// The projects other than the one with the given identity, in stored order.
pub open spec fn projects_without(projects: Seq<Project>, id: i64) -> Seq<Project> {
    projects.filter(|p: Project| p.id != id)
}

/// Whether some task has the given identity.
pub open spec fn has_todo(todos: Seq<Todo>, id: i64) -> bool {
    exists|i: int| 0 <= i < todos.len() && todos[i].id == id
}

/// Whether some project already carries the given name.
pub open spec fn project_name_taken(projects: Seq<Project>, name: Seq<char>) -> bool {
    exists|i: int| 0 <= i < projects.len() && projects[i].name@ == name
}

/// Whether some drawing snapshot belongs to the given project.
pub open spec fn has_drawing_for(drawings: Seq<ExcalidrawData>, project_id: i64) -> bool {
    exists|i: int| 0 <= i < drawings.len() && drawings[i].project_id == project_id
}

/// Filtering commutes with appending one element.
proof fn lemma_filter_push<A>(s: Seq<A>, pred: spec_fn(A) -> bool, x: A)
    ensures
        s.push(x).filter(pred) == if pred(x) {
            s.filter(pred).push(x)
        } else {
            s.filter(pred)
        },
{
    reveal(Seq::filter);
    assert(s.push(x).drop_last() =~= s);
    assert(s.push(x).last() == x);
}

/// A sequence none of whose elements satisfies the predicate filters to
/// the empty sequence.
proof fn lemma_filter_none<A>(s: Seq<A>, pred: spec_fn(A) -> bool)
    requires
        forall|i: int| 0 <= i < s.len() ==> !pred(s[i]),
    ensures
        s.filter(pred) == Seq::<A>::empty(),
    decreases s.len(),
{
    reveal(Seq::filter);
    if s.len() == 0 {
        assert(s =~= Seq::<A>::empty());
    } else {
        lemma_filter_none(s.drop_last(), pred);
        assert(!pred(s.last()));
    }
}

/// Every element of a filtered sequence stands somewhere in the original.
proof fn lemma_filter_index<A>(s: Seq<A>, pred: spec_fn(A) -> bool, i: int)
    requires
        0 <= i < s.filter(pred).len(),
    ensures
        exists|a: int| 0 <= a < s.len() && s[a] == s.filter(pred)[i],
    decreases s.len(),
{
    reveal(Seq::filter);
    let sub = s.drop_last();
    if i < sub.filter(pred).len() {
        lemma_filter_index(sub, pred, i);
        let a = choose|a: int| 0 <= a < sub.len() && sub[a] == sub.filter(pred)[i];
        assert(s[a] == s.filter(pred)[i]);
    } else {
        assert(s[s.len() - 1] == s.filter(pred)[i]);
    }
}

/// Filtering keeps the relative order: two positions of the filtered
/// sequence come from two positions of the original in the same order.
proof fn lemma_filter_ordered_pair<A>(s: Seq<A>, pred: spec_fn(A) -> bool, i: int, j: int)
    requires
        0 <= i < j < s.filter(pred).len(),
    ensures
        exists|a: int, b: int|
            0 <= a < b < s.len() && s[a] == s.filter(pred)[i] && s[b] == s.filter(pred)[j],
    decreases s.len(),
{
    reveal(Seq::filter);
    let sub = s.drop_last();
    if j < sub.filter(pred).len() {
        lemma_filter_ordered_pair(sub, pred, i, j);
        let (a, b) = choose|a: int, b: int|
            0 <= a < b < sub.len() && sub[a] == sub.filter(pred)[i] && sub[b] == sub.filter(
                pred,
            )[j];
        assert(s[a] == s.filter(pred)[i] && s[b] == s.filter(pred)[j]);
    } else {
        assert(pred(s.last()));
        assert(s.filter(pred)[j] == s[s.len() - 1]);
        lemma_filter_index(sub, pred, i);
        let a = choose|a: int| 0 <= a < sub.len() && sub[a] == sub.filter(pred)[i];
        assert(s[a] == s.filter(pred)[i] && s[s.len() - 1] == s.filter(pred)[j]);
    }
}

/// The abstract state of the database: the rows of the three tables in
/// insertion order, and each table's next autoincrement identity.
pub struct DbModel {
    pub projects: Vec<Project>,
    pub todos: Vec<Todo>,
    pub drawings: Vec<ExcalidrawData>,
    pub next_project_id: i64,
    pub next_todo_id: i64,
    pub next_drawing_id: i64,
}

/// Both states hold the same rows and the same next identities.
pub open spec fn same_state(pre: DbModel, post: DbModel) -> bool {
    &&& post.projects@ == pre.projects@
    &&& post.todos@ == pre.todos@
    &&& post.drawings@ == pre.drawings@
    &&& post.next_project_id == pre.next_project_id
    &&& post.next_todo_id == pre.next_todo_id
    &&& post.next_drawing_id == pre.next_drawing_id
}

impl DbModel {
    /// The data-model invariants: every identity is positive, below its
    /// table's next identity and unique in its table; project names are
    /// unique and non-empty; at most one drawing snapshot per project.
    pub open spec fn inv(self) -> bool {
        &&& 0 < self.next_project_id
        &&& 0 < self.next_todo_id
        &&& 0 < self.next_drawing_id
        &&& forall|i: int|
            0 <= i < self.projects@.len() ==> 0 < (#[trigger] self.projects@[i]).id
                < self.next_project_id
        &&& forall|i: int, j: int|
            0 <= i < j < self.projects@.len() ==> self.projects@[i].id != self.projects@[j].id
        &&& forall|i: int, j: int|
            0 <= i < j < self.projects@.len() ==> self.projects@[i].name@
                != self.projects@[j].name@
        &&& forall|i: int|
            0 <= i < self.projects@.len() ==> (#[trigger] self.projects@[i]).name@.len() > 0
        &&& forall|i: int|
            0 <= i < self.todos@.len() ==> 0 < (#[trigger] self.todos@[i]).id < self.next_todo_id
        &&& forall|i: int, j: int|
            0 <= i < j < self.todos@.len() ==> self.todos@[i].id != self.todos@[j].id
        &&& forall|i: int|
            0 <= i < self.drawings@.len() ==> 0 < (#[trigger] self.drawings@[i]).id
                < self.next_drawing_id
        &&& forall|i: int, j: int|
            0 <= i < j < self.drawings@.len() ==> self.drawings@[i].id != self.drawings@[j].id
        &&& forall|i: int, j: int|
            0 <= i < j < self.drawings@.len() ==> self.drawings@[i].project_id
                != self.drawings@[j].project_id
    }

    /// The state of a fresh, unprovisioned database: no rows, identities
    /// starting at one.
    pub fn new() -> (r: Self)
        ensures
            r.inv(),
            r.projects@.len() == 0,
            r.todos@.len() == 0,
            r.drawings@.len() == 0,
            r.next_project_id == 1,
            r.next_todo_id == 1,
            r.next_drawing_id == 1,
    {
        DbModel {
            projects: Vec::new(),
            todos: Vec::new(),
            drawings: Vec::new(),
            next_project_id: 1,
            next_todo_id: 1,
            next_drawing_id: 1,
        }
    }
}

/// Seeds the default project when the projects table is empty, and does
/// nothing otherwise; either way at least one project exists afterwards.
/// Returns whether the default project was inserted.
pub fn create_default_project(db: &mut DbModel, now: String) -> (r: bool)
    requires
        old(db).inv(),
        old(db).next_project_id < i64::MAX,
    ensures
        final(db).inv(),
        r == (old(db).projects@.len() == 0),
        final(db).projects@.len() >= 1,
        old(db).projects@.len() > 0 ==> same_state(*old(db), *final(db)),
        old(db).projects@.len() == 0 ==> {
            &&& final(db).projects@.len() == 1
            &&& final(db).projects@[0].id == old(db).next_project_id
            &&& final(db).projects@[0].name@ == "Default Project"@
            &&& final(db).projects@[0].description is Some
            &&& final(db).projects@[0].description.unwrap()@ == "Your first project"@
            &&& final(db).projects@[0].created_at == now
            &&& final(db).next_project_id == old(db).next_project_id + 1
            &&& final(db).todos@ == old(db).todos@
            &&& final(db).drawings@ == old(db).drawings@
            &&& final(db).next_todo_id == old(db).next_todo_id
            &&& final(db).next_drawing_id == old(db).next_drawing_id
        },
{
    if db.projects.len() > 0 {
        return false;
    }
    let seeded = Project {
        id: db.next_project_id,
        name: default_project_name().to_owned(),
        description: Some(default_project_description().to_owned()),
        created_at: now,
    };
    proof {
        reveal_strlit("Default Project");
    }
    db.projects.push(seeded);
    db.next_project_id = db.next_project_id + 1;
    true
}

/// Every project, in stored (creation) order.
pub fn get_all_projects(db: &DbModel) -> (r: Vec<Project>)
    ensures
        r@ == db.projects@,
{
    let mut out: Vec<Project> = Vec::new();
    let mut i: usize = 0;
    while i < db.projects.len()
        invariant
            i <= db.projects@.len(),
            out@ == db.projects@.take(i as int),
        decreases db.projects@.len() - i,
    {
        out.push(db.projects[i].clone());
        proof {
            assert(db.projects@.take(i as int + 1) =~= db.projects@.take(i as int).push(
                db.projects@[i as int],
            ));
        }
        i = i + 1;
    }
    proof {
        assert(db.projects@.take(db.projects@.len() as int) =~= db.projects@);
    }
    out
}

/// Inserts a new project with the next identity and the given creation
/// time. Fails, changing nothing, exactly when the requested name is empty
/// or already carried by an existing project.
pub fn create_new_project(db: &mut DbModel, project: crate::types::CreateProject, now: String) -> (r:
    Result<Project, StoreError>)
    requires
        old(db).inv(),
        old(db).next_project_id < i64::MAX,
    ensures
        final(db).inv(),
        (project.name@.len() == 0 || project_name_taken(old(db).projects@, project.name@)) <==> (r
            is Err),
        r is Err ==> (r matches Err(StoreError::ConstraintViolation { .. }) && same_state(
            *old(db),
            *final(db),
        )),
        r matches Ok(p) ==> {
            &&& p == (Project {
                id: old(db).next_project_id,
                name: project.name,
                description: project.description,
                created_at: now,
            })
            &&& final(db).projects@ == old(db).projects@.push(p)
            &&& final(db).next_project_id == old(db).next_project_id + 1
            &&& final(db).todos@ == old(db).todos@
            &&& final(db).drawings@ == old(db).drawings@
            &&& final(db).next_todo_id == old(db).next_todo_id
            &&& final(db).next_drawing_id == old(db).next_drawing_id
        },
{
    if project.name.as_str().is_empty() {
        return Err(
            StoreError::ConstraintViolation {
                message: "project name must not be empty".to_owned(),
            },
        );
    }
    let mut i: usize = 0;
    while i < db.projects.len()
        invariant
            *db == *old(db),
            db.inv(),
            i <= db.projects@.len(),
            forall|j: int| 0 <= j < i ==> db.projects@[j].name@ != project.name@,
        decreases db.projects@.len() - i,
    {
        if db.projects[i].name == project.name {
            proof {
                assert(project_name_taken(db.projects@, project.name@));
            }
            return Err(
                StoreError::ConstraintViolation {
                    message: "a project with this name already exists".to_owned(),
                },
            );
        }
        i = i + 1;
    }
    let created = Project {
        id: db.next_project_id,
        name: project.name,
        description: project.description,
        created_at: now,
    };
    let returned = created.clone();
    db.projects.push(created);
    db.next_project_id = db.next_project_id + 1;
    Ok(returned)
}

/// Deletes a project and everything it owns. Fails, changing nothing, when
/// at most one project remains; otherwise removes the project with the
/// given identity (a no-op when none carries it) together with its tasks
/// and drawing snapshots, and at least one project survives.
pub fn delete_project_by_id(db: &mut DbModel, id: i64) -> (r: Result<(), StoreError>)
    requires
        old(db).inv(),
    ensures
        final(db).inv(),
        (old(db).projects@.len() <= 1) <==> (r is Err),
        r is Err ==> (r matches Err(StoreError::LastProject) && same_state(*old(db), *final(db))),
        r is Ok ==> {
            &&& final(db).projects@ == projects_without(old(db).projects@, id)
            &&& final(db).todos@ == todos_without_project(old(db).todos@, id)
            &&& final(db).drawings@ == drawings_without_project(old(db).drawings@, id)
            &&& final(db).projects@.len() >= 1
            &&& final(db).next_project_id == old(db).next_project_id
            &&& final(db).next_todo_id == old(db).next_todo_id
            &&& final(db).next_drawing_id == old(db).next_drawing_id
        },
{
    if db.projects.len() <= 1 {
        return Err(StoreError::LastProject);
    }
    let ghost pre = *db;
    let mut kept_projects: Vec<Project> = Vec::new();
    let mut i: usize = 0;
    while i < db.projects.len()
        invariant
            i <= db.projects@.len(),
            kept_projects@ == projects_without(db.projects@.take(i as int), id),
        decreases db.projects@.len() - i,
    {
        let p = &db.projects[i];
        if p.id != id {
            kept_projects.push(p.clone());
        }
        proof {
            assert(db.projects@.take(i as int + 1) =~= db.projects@.take(i as int).push(
                db.projects@[i as int],
            ));
            lemma_filter_push(
                db.projects@.take(i as int),
                |p: Project| p.id != id,
                db.projects@[i as int],
            );
        }
        i = i + 1;
    }
    proof {
        assert(db.projects@.take(db.projects@.len() as int) =~= db.projects@);
    }
    let mut kept_todos: Vec<Todo> = Vec::new();
    let mut k: usize = 0;
    while k < db.todos.len()
        invariant
            k <= db.todos@.len(),
            kept_todos@ == todos_without_project(db.todos@.take(k as int), id),
        decreases db.todos@.len() - k,
    {
        let t = &db.todos[k];
        if t.project_id != id {
            kept_todos.push(t.clone());
        }
        proof {
            assert(db.todos@.take(k as int + 1) =~= db.todos@.take(k as int).push(
                db.todos@[k as int],
            ));
            lemma_filter_push(
                db.todos@.take(k as int),
                |t: Todo| t.project_id != id,
                db.todos@[k as int],
            );
        }
        k = k + 1;
    }
    proof {
        assert(db.todos@.take(db.todos@.len() as int) =~= db.todos@);
    }
    let mut kept_drawings: Vec<ExcalidrawData> = Vec::new();
    let mut m: usize = 0;
    while m < db.drawings.len()
        invariant
            m <= db.drawings@.len(),
            kept_drawings@ == drawings_without_project(db.drawings@.take(m as int), id),
        decreases db.drawings@.len() - m,
    {
        let d = &db.drawings[m];
        if d.project_id != id {
            kept_drawings.push(d.clone());
        }
        proof {
            assert(db.drawings@.take(m as int + 1) =~= db.drawings@.take(m as int).push(
                db.drawings@[m as int],
            ));
            lemma_filter_push(
                db.drawings@.take(m as int),
                |d: ExcalidrawData| d.project_id != id,
                db.drawings@[m as int],
            );
        }
        m = m + 1;
    }
    proof {
        assert(db.drawings@.take(db.drawings@.len() as int) =~= db.drawings@);
    }
    db.projects = kept_projects;
    db.todos = kept_todos;
    db.drawings = kept_drawings;
    proof {
        lemma_delete_preserves_inv(pre, *db, id);
        if pre.projects@[0].id != id {
            assert(projects_without(pre.projects@, id).contains(pre.projects@[0]));
        } else {
            assert(pre.projects@[1].id != id);
            assert(projects_without(pre.projects@, id).contains(pre.projects@[1]));
        }
    }
    Ok(())
}

/// Removing one project and its dependents keeps every data-model
/// invariant.
proof fn lemma_delete_preserves_inv(pre: DbModel, post: DbModel, id: i64)
    requires
        pre.inv(),
        post.projects@ == projects_without(pre.projects@, id),
        post.todos@ == todos_without_project(pre.todos@, id),
        post.drawings@ == drawings_without_project(pre.drawings@, id),
        post.next_project_id == pre.next_project_id,
        post.next_todo_id == pre.next_todo_id,
        post.next_drawing_id == pre.next_drawing_id,
    ensures
        post.inv(),
{
    assert forall|i: int| 0 <= i < post.projects@.len() implies 0 < (
    #[trigger] post.projects@[i]).id < post.next_project_id && post.projects@[i].name@.len()
        > 0 by {
        lemma_filter_index(pre.projects@, |p: Project| p.id != id, i);
        let a = choose|a: int| 0 <= a < pre.projects@.len() && pre.projects@[a]
            == post.projects@[i];
    }
    assert forall|i: int, j: int| 0 <= i < j < post.projects@.len() implies post.projects@[i].id
        != post.projects@[j].id && post.projects@[i].name@ != post.projects@[j].name@ by {
        lemma_filter_ordered_pair(pre.projects@, |p: Project| p.id != id, i, j);
        let (a, b) = choose|a: int, b: int|
            0 <= a < b < pre.projects@.len() && pre.projects@[a] == post.projects@[i]
                && pre.projects@[b] == post.projects@[j];
    }
    assert forall|i: int| 0 <= i < post.todos@.len() implies 0 < (#[trigger] post.todos@[i]).id
        < post.next_todo_id by {
        lemma_filter_index(pre.todos@, |t: Todo| t.project_id != id, i);
        let a = choose|a: int| 0 <= a < pre.todos@.len() && pre.todos@[a] == post.todos@[i];
    }
    assert forall|i: int, j: int| 0 <= i < j < post.todos@.len() implies post.todos@[i].id
        != post.todos@[j].id by {
        lemma_filter_ordered_pair(pre.todos@, |t: Todo| t.project_id != id, i, j);
        let (a, b) = choose|a: int, b: int|
            0 <= a < b < pre.todos@.len() && pre.todos@[a] == post.todos@[i] && pre.todos@[b]
                == post.todos@[j];
    }
    assert forall|i: int| 0 <= i < post.drawings@.len() implies 0 < (
    #[trigger] post.drawings@[i]).id < post.next_drawing_id by {
        lemma_filter_index(pre.drawings@, |d: ExcalidrawData| d.project_id != id, i);
        let a = choose|a: int| 0 <= a < pre.drawings@.len() && pre.drawings@[a]
            == post.drawings@[i];
    }
    assert forall|i: int, j: int| 0 <= i < j < post.drawings@.len() implies post.drawings@[i].id
        != post.drawings@[j].id && post.drawings@[i].project_id
        != post.drawings@[j].project_id by {
        lemma_filter_ordered_pair(pre.drawings@, |d: ExcalidrawData| d.project_id != id, i, j);
        let (a, b) = choose|a: int, b: int|
            0 <= a < b < pre.drawings@.len() && pre.drawings@[a] == post.drawings@[i]
                && pre.drawings@[b] == post.drawings@[j];
    }
}

/// Holds when the task carrying `id` was found at some position, the change
/// set was applied to it in place, and `ret` is the updated row.
pub open spec fn todo_updated(
    pre: Seq<Todo>,
    post: Seq<Todo>,
    id: i64,
    u: UpdateTodo,
    ret: Todo,
) -> bool {
    exists|i: int|
        0 <= i < pre.len() && pre[i].id == id && ret == spec_applied(pre[i], u) && post
            == pre.update(i, ret)
}

/// The tasks of one project, in stored (creation) order.
pub fn get_todos_by_project(db: &DbModel, project_id: i64) -> (r: Vec<Todo>)
    ensures
        r@ == todos_for(db.todos@, project_id),
{
    let mut out: Vec<Todo> = Vec::new();
    let mut i: usize = 0;
    while i < db.todos.len()
        invariant
            i <= db.todos@.len(),
            out@ == todos_for(db.todos@.take(i as int), project_id),
        decreases db.todos@.len() - i,
    {
        let t = &db.todos[i];
        if t.project_id == project_id {
            out.push(t.clone());
        }
        proof {
            assert(db.todos@.take(i as int + 1) =~= db.todos@.take(i as int).push(
                db.todos@[i as int],
            ));
            lemma_filter_push(
                db.todos@.take(i as int),
                |t: Todo| t.project_id == project_id,
                db.todos@[i as int],
            );
        }
        i = i + 1;
    }
    proof {
        assert(db.todos@.take(db.todos@.len() as int) =~= db.todos@);
    }
    out
}

/// Inserts a new task with the next identity, not yet completed, owned by
/// the given project, with the given creation time.
pub fn create_new_todo(
    db: &mut DbModel,
    text: String,
    time: i32,
    project_id: i64,
    now: String,
) -> (r: Todo)
    requires
        old(db).inv(),
        old(db).next_todo_id < i64::MAX,
    ensures
        final(db).inv(),
        r == (Todo {
            id: old(db).next_todo_id,
            text,
            completed: false,
            time,
            created_at: now,
            project_id,
        }),
        final(db).todos@ == old(db).todos@.push(r),
        final(db).next_todo_id == old(db).next_todo_id + 1,
        final(db).projects@ == old(db).projects@,
        final(db).drawings@ == old(db).drawings@,
        final(db).next_project_id == old(db).next_project_id,
        final(db).next_drawing_id == old(db).next_drawing_id,
{
    let created = Todo {
        id: db.next_todo_id,
        text,
        completed: false,
        time,
        created_at: now,
        project_id,
    };
    let returned = created.clone();
    db.todos.push(created);
    db.next_todo_id = db.next_todo_id + 1;
    returned
}

/// Applies a partial update to the task carrying the given identity and
/// returns the full updated row. An empty change set is refused before
/// anything is looked at; an identity matching no task is a distinct
/// not-found failure; either failure leaves the state untouched.
pub fn update_todo_by_id(db: &mut DbModel, id: i64, update: UpdateTodo) -> (r: Result<
    Todo,
    StoreError,
>)
    requires
        old(db).inv(),
    ensures
        final(db).inv(),
        update.is_empty() ==> (r matches Err(StoreError::NoFieldsToUpdate) && same_state(
            *old(db),
            *final(db),
        )),
        !update.is_empty() ==> ((r is Ok) <==> has_todo(old(db).todos@, id)),
        !update.is_empty() && r is Err ==> (r matches Err(StoreError::NotFound) && same_state(
            *old(db),
            *final(db),
        )),
        r matches Ok(t) ==> {
            &&& todo_updated(old(db).todos@, final(db).todos@, id, update, t)
            &&& final(db).projects@ == old(db).projects@
            &&& final(db).drawings@ == old(db).drawings@
            &&& final(db).next_project_id == old(db).next_project_id
            &&& final(db).next_todo_id == old(db).next_todo_id
            &&& final(db).next_drawing_id == old(db).next_drawing_id
        },
{
    if update.text.is_none() && update.completed.is_none() && update.time.is_none() {
        return Err(StoreError::NoFieldsToUpdate);
    }
    let mut i: usize = 0;
    while i < db.todos.len()
        invariant
            *db == *old(db),
            db.inv(),
            !update.is_empty(),
            i <= db.todos@.len(),
            forall|j: int| 0 <= j < i ==> db.todos@[j].id != id,
        decreases db.todos@.len() - i,
    {
        if db.todos[i].id == id {
            let ghost pre_todos = db.todos@;
            let updated = apply_update(&db.todos[i], &update);
            let returned = updated.clone();
            db.todos.set(i, updated);
            proof {
                assert(has_todo(pre_todos, id));
                assert(db.todos@ == pre_todos.update(i as int, returned));
                assert(todo_updated(pre_todos, db.todos@, id, update, returned));
                assert forall|a: int|
                    0 <= a < db.todos@.len() implies 0 < (#[trigger] db.todos@[a]).id
                    < db.next_todo_id by {
                    assert(db.todos@[a] == pre_todos.update(i as int, returned)[a]);
                }
                assert forall|a: int, b: int|
                    0 <= a < b < db.todos@.len() implies db.todos@[a].id != db.todos@[b].id by {
                    assert(db.todos@[a] == pre_todos.update(i as int, returned)[a]);
                    assert(db.todos@[b] == pre_todos.update(i as int, returned)[b]);
                }
            }
            return Ok(returned);
        }
        i = i + 1;
    }
    proof {
        assert(!has_todo(db.todos@, id));
    }
    Err(StoreError::NotFound)
}

/// Removes the task carrying the given identity; removing an identity that
/// matches no task changes nothing.
pub fn delete_todo_by_id(db: &mut DbModel, id: i64)
    requires
        old(db).inv(),
    ensures
        final(db).inv(),
        final(db).todos@ == todos_without(old(db).todos@, id),
        final(db).projects@ == old(db).projects@,
        final(db).drawings@ == old(db).drawings@,
        final(db).next_project_id == old(db).next_project_id,
        final(db).next_todo_id == old(db).next_todo_id,
        final(db).next_drawing_id == old(db).next_drawing_id,
{
    let ghost pre = *db;
    let mut kept: Vec<Todo> = Vec::new();
    let mut i: usize = 0;
    while i < db.todos.len()
        invariant
            i <= db.todos@.len(),
            kept@ == todos_without(db.todos@.take(i as int), id),
        decreases db.todos@.len() - i,
    {
        let t = &db.todos[i];
        if t.id != id {
            kept.push(t.clone());
        }
        proof {
            assert(db.todos@.take(i as int + 1) =~= db.todos@.take(i as int).push(
                db.todos@[i as int],
            ));
            lemma_filter_push(db.todos@.take(i as int), |t: Todo| t.id != id, db.todos@[i as int]);
        }
        i = i + 1;
    }
    proof {
        assert(db.todos@.take(db.todos@.len() as int) =~= db.todos@);
    }
    db.todos = kept;
    proof {
        assert forall|a: int| 0 <= a < db.todos@.len() implies 0 < (#[trigger] db.todos@[a]).id
            < db.next_todo_id by {
            lemma_filter_index(pre.todos@, |t: Todo| t.id != id, a);
            let w = choose|w: int| 0 <= w < pre.todos@.len() && pre.todos@[w] == db.todos@[a];
        }
        assert forall|a: int, b: int| 0 <= a < b < db.todos@.len() implies db.todos@[a].id
            != db.todos@[b].id by {
            lemma_filter_ordered_pair(pre.todos@, |t: Todo| t.id != id, a, b);
            let (w, v) = choose|w: int, v: int|
                0 <= w < v < pre.todos@.len() && pre.todos@[w] == db.todos@[a] && pre.todos@[v]
                    == db.todos@[b];
        }
    }
}

/// Replaces the drawing snapshot of a project: whatever snapshot the
/// project held is removed and the new content is inserted, so that exactly
/// one snapshot remains for it — the one just saved.
pub fn save_excalidraw_data(
    db: &mut DbModel,
    elements: String,
    app_state: String,
    project_id: i64,
    now: String,
)
    requires
        old(db).inv(),
        old(db).next_drawing_id < i64::MAX,
    ensures
        final(db).inv(),
        final(db).drawings@ == drawings_without_project(old(db).drawings@, project_id).push(
            (ExcalidrawData {
                id: old(db).next_drawing_id,
                elements,
                app_state,
                updated_at: now,
                project_id,
            }),
        ),
        drawings_for(final(db).drawings@, project_id) == seq![
            (ExcalidrawData {
                id: old(db).next_drawing_id,
                elements,
                app_state,
                updated_at: now,
                project_id,
            }),
        ],
        final(db).next_drawing_id == old(db).next_drawing_id + 1,
        final(db).projects@ == old(db).projects@,
        final(db).todos@ == old(db).todos@,
        final(db).next_project_id == old(db).next_project_id,
        final(db).next_todo_id == old(db).next_todo_id,
{
    let ghost pre = *db;
    let row = ExcalidrawData {
        id: db.next_drawing_id,
        elements,
        app_state,
        updated_at: now,
        project_id,
    };
    let mut kept: Vec<ExcalidrawData> = Vec::new();
    let mut i: usize = 0;
    while i < db.drawings.len()
        invariant
            i <= db.drawings@.len(),
            kept@ == drawings_without_project(db.drawings@.take(i as int), project_id),
        decreases db.drawings@.len() - i,
    {
        let d = &db.drawings[i];
        if d.project_id != project_id {
            kept.push(d.clone());
        }
        proof {
            assert(db.drawings@.take(i as int + 1) =~= db.drawings@.take(i as int).push(
                db.drawings@[i as int],
            ));
            lemma_filter_push(
                db.drawings@.take(i as int),
                |d: ExcalidrawData| d.project_id != project_id,
                db.drawings@[i as int],
            );
        }
        i = i + 1;
    }
    proof {
        assert(db.drawings@.take(db.drawings@.len() as int) =~= db.drawings@);
    }
    kept.push(row);
    db.drawings = kept;
    db.next_drawing_id = db.next_drawing_id + 1;
    proof {
        let ghost w = drawings_without_project(pre.drawings@, project_id);
        let ghost saved = db.drawings@[db.drawings@.len() - 1];
        lemma_filter_push(w, |d: ExcalidrawData| d.project_id == project_id, saved);
        lemma_filter_none(w, |d: ExcalidrawData| d.project_id == project_id);
        assert(drawings_for(db.drawings@, project_id) =~= seq![saved]);
        assert forall|a: int| 0 <= a < w.len() implies 0 < (#[trigger] w[a]).id
            < pre.next_drawing_id by {
            lemma_filter_index(pre.drawings@, |d: ExcalidrawData| d.project_id != project_id, a);
            let v = choose|v: int| 0 <= v < pre.drawings@.len() && pre.drawings@[v] == w[a];
        }
        assert forall|a: int, b: int| 0 <= a < b < w.len() implies w[a].id != w[b].id
            && w[a].project_id != w[b].project_id by {
            lemma_filter_ordered_pair(
                pre.drawings@,
                |d: ExcalidrawData| d.project_id != project_id,
                a,
                b,
            );
            let (v, u) = choose|v: int, u: int|
                0 <= v < u < pre.drawings@.len() && pre.drawings@[v] == w[a] && pre.drawings@[u]
                    == w[b];
        }
    }
}

/// A sequence whose matches for the predicate all stand at one index
/// filters to exactly that element.
proof fn lemma_filter_single<A>(s: Seq<A>, pred: spec_fn(A) -> bool, i: int)
    requires
        0 <= i < s.len(),
        pred(s[i]),
        forall|j: int| 0 <= j < s.len() && j != i ==> !pred(s[j]),
    ensures
        s.filter(pred) == seq![s[i]],
{
    assert(s.filter(pred).contains(s[i]));
    assert(s.filter(pred).len() >= 1);
    if s.filter(pred).len() >= 2 {
        lemma_filter_ordered_pair(s, pred, 0, 1);
        let (a, b) = choose|a: int, b: int|
            0 <= a < b < s.len() && s[a] == s.filter(pred)[0] && s[b] == s.filter(pred)[1];
        assert(pred(s[a]) && pred(s[b]));
        assert(false);
    }
    lemma_filter_index(s, pred, 0);
    let a = choose|a: int| 0 <= a < s.len() && s[a] == s.filter(pred)[0];
    assert(s.filter(pred) =~= seq![s[i]]);
}

/// The current drawing snapshot of a project, if the project holds one:
/// under the at-most-one-snapshot invariant it is the project's only row.
pub fn get_excalidraw_data(db: &DbModel, project_id: i64) -> (r: Option<ExcalidrawData>)
    ensures
        (r is Some) <==> has_drawing_for(db.drawings@, project_id),
        r matches Some(d) ==> d.project_id == project_id && db.drawings@.contains(d),
        db.inv() ==> (match r {
            Some(d) => drawings_for(db.drawings@, project_id) == seq![d],
            None => drawings_for(db.drawings@, project_id) == Seq::<ExcalidrawData>::empty(),
        }),
{
    let mut i: usize = 0;
    while i < db.drawings.len()
        invariant
            i <= db.drawings@.len(),
            forall|j: int| 0 <= j < i ==> db.drawings@[j].project_id != project_id,
        decreases db.drawings@.len() - i,
    {
        if db.drawings[i].project_id == project_id {
            let found = db.drawings[i].clone();
            proof {
                assert(db.drawings@.contains(found));
                assert(has_drawing_for(db.drawings@, project_id));
                if db.inv() {
                    assert forall|j: int|
                        0 <= j < db.drawings@.len() && j != i implies !(db.drawings@[j].project_id
                        == project_id) by {
                        assert(db.drawings@[j].project_id != db.drawings@[i as int].project_id);
                    }
                    lemma_filter_single(
                        db.drawings@,
                        |d: ExcalidrawData| d.project_id == project_id,
                        i as int,
                    );
                }
            }
            return Some(found);
        }
        i = i + 1;
    }
    proof {
        assert(!has_drawing_for(db.drawings@, project_id));
        lemma_filter_none(db.drawings@, |d: ExcalidrawData| d.project_id == project_id);
    }
    None
}

} // verus!
