//! The ways in which an operation on the todo list fails.

use vstd::prelude::*;

verus! {

/// The step during which the storage failed.
#[derive(Debug, Clone, Copy, PartialEq, Eq, Structural)]
pub enum StorageOp {
    /// Opening the file and making sure that the table exists.
    Open,
    /// Reading the table.
    Query,
    /// Checking the rows that were read.
    Load,
    /// Writing a new row.
    Insert,
    /// Setting the flag of a row.
    MarkDone,
    /// Resetting the flag of a row.
    MarkNotDone,
    /// Deleting one row.
    Remove,
    /// Deleting every row.
    Clear,
}

/// Why an operation did not go through.
#[derive(Debug, PartialEq, Eq)]
pub enum TodoError {
    /// The text of a new entry was empty or white space only.
    Validation,
    /// No entry has this identifier.
    NotFound { id: i32 },
    /// The storage failed during `op`; `detail` says how.
    Storage { op: StorageOp, detail: String },
}

/// What a [`TodoError`] holds, as mathematical values.
pub enum ErrorView {
    Validation,
    NotFound { id: int },
    Storage { op: StorageOp, detail: Seq<char> },
}

impl View for TodoError {
    type V = ErrorView;

    open spec fn view(&self) -> ErrorView {
        match *self {
            TodoError::Validation => ErrorView::Validation,
            TodoError::NotFound { id } => ErrorView::NotFound { id: id as int },
            TodoError::Storage { op, detail } => ErrorView::Storage { op, detail: detail@ },
        }
    }
}

} // verus!
