//! The failure taxonomy of the storage core.

use vstd::prelude::*;

verus! {

/// Everything that can go wrong in the storage core.
///
/// Initialization failures (`NoWritableLocation`, `ConnectionFailed`,
/// `SchemaError`) are surfaced by the connection lifecycle; the remaining
/// variants are produced by the store operations themselves. None of these
/// conditions aborts the process: every failure is returned to the caller.
#[derive(Debug)]
pub enum StoreError {
    /// No candidate directory could be created and write-probed.
    /// Carries every attempted directory and the cause of each failure.
    NoWritableLocation { attempted: Vec<String>, causes: Vec<String> },
    /// Opening the connection failed on every attempt of the retry budget.
    ConnectionFailed { attempts: u8, last_error: String },
    /// Applying the schema statements or seeding the default row failed.
    SchemaError { message: String },
    /// A partial update was requested with no field present.
    NoFieldsToUpdate,
    /// An identity-targeted operation matched no row.
    NotFound,
    /// Deleting the only remaining project was requested.
    LastProject,
    /// An insert would violate a row constraint (empty or duplicate name).
    ConstraintViolation { message: String },
}

impl StoreError {
    /// The description of each variant of the failure taxonomy.
    pub open spec fn spec_message(self) -> Seq<char> {
        match self {
            StoreError::NoWritableLocation { .. } => "could not find a writable directory for the database"@,
            StoreError::ConnectionFailed { .. } => "all connection attempts failed"@,
            StoreError::SchemaError { .. } => "failed to provision the database schema"@,
            StoreError::NoFieldsToUpdate => "no fields to update"@,
            StoreError::NotFound => "no row matches the given id"@,
            StoreError::LastProject => "cannot delete the last project"@,
            StoreError::ConstraintViolation { .. } => "the row violates a constraint"@,
        }
    }

    /// A short description of the failure, for display by the caller.
    pub fn message(&self) -> (r: String)
        ensures
            r@ == self.spec_message(),
            r@.len() > 0,
    {
        let m = match self {
            StoreError::NoWritableLocation { .. } => "could not find a writable directory for the database",
            StoreError::ConnectionFailed { .. } => "all connection attempts failed",
            StoreError::SchemaError { .. } => "failed to provision the database schema",
            StoreError::NoFieldsToUpdate => "no fields to update",
            StoreError::NotFound => "no row matches the given id",
            StoreError::LastProject => "cannot delete the last project",
            StoreError::ConstraintViolation { .. } => "the row violates a constraint",
        };
        proof {
            reveal_strlit("could not find a writable directory for the database");
            reveal_strlit("all connection attempts failed");
            reveal_strlit("failed to provision the database schema");
            reveal_strlit("no fields to update");
            reveal_strlit("no row matches the given id");
            reveal_strlit("cannot delete the last project");
            reveal_strlit("the row violates a constraint");
        }
        m.to_owned()
    }
}

} // verus!
