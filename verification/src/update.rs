//! Construction of the partial-update statement for tasks.
//!
//! A partial update names only the fields to change. The builder is a pure
//! function from the sparse change set to the statement text and its ordered
//! parameter list; the caller binds the parameters and executes the text.
//! Field order in the statement is fixed (text, then completed, then time)
//! for determinism. The statement targets exactly one row by identity and
//! returns the full updated row, so the caller can reconstruct the entity
//! without a second read.

use vstd::prelude::*;
use vstd::string::StringExecFns;

use crate::errors::StoreError;
use crate::types::{Todo, UpdateTodo};

verus! {

/// A value bound to one placeholder of a statement.
#[derive(Debug)]
pub enum SqlValue {
    Text(String),
    Int(i64),
}

/// A statement ready for execution: its text, with one `?` placeholder per
/// entry of `params`, bound in order.
#[derive(Debug)]
pub struct PreparedStatement {
    pub sql: String,
    pub params: Vec<SqlValue>,
}

/// How a completion flag is stored: as the integer 1 or 0.
pub open spec fn completed_as_int(completed: bool) -> i64 {
    if completed {
        1
    } else {
        0
    }
}

/// The storage-boundary encoding of the completion flag.
pub fn completed_to_int(completed: bool) -> (r: i64)
    ensures
        r == completed_as_int(completed),
{
    if completed {
        1
    } else {
        0
    }
}

/// The storage-boundary decoding of the completion flag: any non-zero
/// stored value reads back as completed.
pub fn completed_from_int(v: i64) -> (r: bool)
    ensures
        r == (v != 0),
{
    v != 0
}

/// The assignment pieces present in a change set, in the fixed field order.
pub open spec fn present_pieces(u: UpdateTodo) -> Seq<Seq<char>> {
    (if u.text is Some {
        seq!["text = ?"@]
    } else {
        Seq::empty()
    }) + (if u.completed is Some {
        seq!["completed = ?"@]
    } else {
        Seq::empty()
    }) + (if u.time is Some {
        seq!["time = ?"@]
    } else {
        Seq::empty()
    })
}

/// The given pieces joined with a comma separator.
pub open spec fn comma_joined(pieces: Seq<Seq<char>>) -> Seq<char>
    decreases pieces.len(),
{
    if pieces.len() == 0 {
        Seq::empty()
    } else if pieces.len() == 1 {
        pieces[0]
    } else {
        pieces[0] + ", "@ + comma_joined(pieces.drop_first())
    }
}

/// The full text of the partial-update statement for a change set.
pub open spec fn spec_update_sql(u: UpdateTodo) -> Seq<char> {
    "UPDATE todos SET "@ + comma_joined(present_pieces(u))
        + " WHERE id = ? RETURNING id, text, completed, time, created_at, project_id"@
}

/// The ordered parameter list of the partial-update statement: one value per
/// present field, in the fixed field order, then the targeted identity.
pub open spec fn spec_update_params(id: i64, u: UpdateTodo) -> Seq<SqlValue> {
    (match u.text {
        Some(t) => seq![SqlValue::Text(t)],
        None => Seq::empty(),
    }) + (match u.completed {
        Some(c) => seq![SqlValue::Int(completed_as_int(c))],
        None => Seq::empty(),
    }) + (match u.time {
        Some(m) => seq![SqlValue::Int(m as i64)],
        None => Seq::empty(),
    }) + seq![SqlValue::Int(id)]
}

/// Builds the update statement touching only the fields present in
/// `changes`. At least one field must be present: an empty change set is a
/// caller error, not a no-op, and produces no statement at all.
pub fn build_partial_update(id: i64, changes: &UpdateTodo) -> (r: Result<
    PreparedStatement,
    StoreError,
>)
    ensures
        changes.is_empty() <==> r is Err,
        r is Err ==> r matches Err(StoreError::NoFieldsToUpdate),
        r matches Ok(s) ==> s.sql@ == spec_update_sql(*changes) && s.params@ == spec_update_params(
            id,
            *changes,
        ),
{
    if changes.text.is_none() && changes.completed.is_none() && changes.time.is_none() {
        return Err(StoreError::NoFieldsToUpdate);
    }
    let mut sql = String::new();
    sql.append("UPDATE todos SET ");
    let mut params: Vec<SqlValue> = Vec::new();
    let mut first: bool = true;
    if let Some(t) = &changes.text {
        sql.append("text = ?");
        params.push(SqlValue::Text(t.clone()));
        first = false;
    }
    if let Some(c) = changes.completed {
        if !first {
            sql.append(", ");
        }
        sql.append("completed = ?");
        params.push(SqlValue::Int(completed_to_int(c)));
        first = false;
    }
    if let Some(m) = changes.time {
        if !first {
            sql.append(", ");
        }
        sql.append("time = ?");
        params.push(SqlValue::Int(m as i64));
        first = false;
    }
    sql.append(" WHERE id = ? RETURNING id, text, completed, time, created_at, project_id");
    params.push(SqlValue::Int(id));
    proof {
        reveal_with_fuel(comma_joined, 4);
        assert(sql@ == spec_update_sql(*changes)) by {
            lemma_comma_joined_cases(*changes);
        }
        assert(params@ =~= spec_update_params(id, *changes));
    }
    Ok(PreparedStatement { sql, params })
}

/// Spells out the comma-joined set clause for every non-empty combination
/// of present fields.
proof fn lemma_comma_joined_cases(u: UpdateTodo)
    requires
        !u.is_empty(),
    ensures
        comma_joined(present_pieces(u)) == (if u.text is Some {
            "text = ?"@
        } else {
            Seq::<char>::empty()
        }) + (if u.text is Some && u.completed is Some {
            ", "@
        } else {
            Seq::<char>::empty()
        }) + (if u.completed is Some {
            "completed = ?"@
        } else {
            Seq::<char>::empty()
        }) + (if (u.text is Some || u.completed is Some) && u.time is Some {
            ", "@
        } else {
            Seq::<char>::empty()
        }) + (if u.time is Some {
            "time = ?"@
        } else {
            Seq::<char>::empty()
        }),
{
    reveal_with_fuel(comma_joined, 4);
    let pieces = present_pieces(u);
    if u.text is Some && u.completed is Some && u.time is Some {
        assert(pieces =~= seq!["text = ?"@, "completed = ?"@, "time = ?"@]);
        assert(pieces.drop_first() =~= seq!["completed = ?"@, "time = ?"@]);
        assert(pieces.drop_first().drop_first() =~= seq!["time = ?"@]);
        assert(comma_joined(pieces) =~= "text = ?"@ + ", "@ + ("completed = ?"@ + ", "@
            + "time = ?"@));
    } else if u.text is Some && u.completed is Some {
        assert(pieces =~= seq!["text = ?"@, "completed = ?"@]);
        assert(pieces.drop_first() =~= seq!["completed = ?"@]);
    } else if u.text is Some && u.time is Some {
        assert(pieces =~= seq!["text = ?"@, "time = ?"@]);
        assert(pieces.drop_first() =~= seq!["time = ?"@]);
    } else if u.completed is Some && u.time is Some {
        assert(pieces =~= seq!["completed = ?"@, "time = ?"@]);
        assert(pieces.drop_first() =~= seq!["time = ?"@]);
    } else if u.text is Some {
        assert(pieces =~= seq!["text = ?"@]);
    } else if u.completed is Some {
        assert(pieces =~= seq!["completed = ?"@]);
    } else {
        assert(pieces =~= seq!["time = ?"@]);
    }
    assert(comma_joined(pieces) =~= (if u.text is Some {
        "text = ?"@
    } else {
        Seq::<char>::empty()
    }) + (if u.text is Some && u.completed is Some {
        ", "@
    } else {
        Seq::<char>::empty()
    }) + (if u.completed is Some {
        "completed = ?"@
    } else {
        Seq::<char>::empty()
    }) + (if (u.text is Some || u.completed is Some) && u.time is Some {
        ", "@
    } else {
        Seq::<char>::empty()
    }) + (if u.time is Some {
        "time = ?"@
    } else {
        Seq::<char>::empty()
    }));
}

/// The row produced by applying a change set to a task: each present field
/// takes its new value, every other field is untouched.
pub open spec fn spec_applied(t: Todo, u: UpdateTodo) -> Todo {
    Todo {
        id: t.id,
        text: match u.text {
            Some(s) => s,
            None => t.text,
        },
        completed: match u.completed {
            Some(c) => c,
            None => t.completed,
        },
        time: match u.time {
            Some(m) => m,
            None => t.time,
        },
        created_at: t.created_at,
        project_id: t.project_id,
    }
}

/// Applies a change set to a task row, leaving absent fields untouched.
pub fn apply_update(todo: &Todo, changes: &UpdateTodo) -> (r: Todo)
    ensures
        r == spec_applied(*todo, *changes),
{
    Todo {
        id: todo.id,
        text: match &changes.text {
            Some(s) => s.clone(),
            None => todo.text.clone(),
        },
        completed: match changes.completed {
            Some(c) => c,
            None => todo.completed,
        },
        time: match changes.time {
            Some(m) => m,
            None => todo.time,
        },
        created_at: todo.created_at.clone(),
        project_id: todo.project_id,
    }
}

} // verus!
