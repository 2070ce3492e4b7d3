//! The six commands, and what a command that went through has done.

use crate::error::{ErrorView, TodoError};
use crate::item::{item_views, ItemView, TodoItem};
use vstd::prelude::*;

verus! {

/// One of the six operations of the todo list.
#[derive(Debug, PartialEq, Eq)]
pub enum Command {
    /// Add an entry with this text.
    Add { item: String },
    /// List every entry.
    List,
    /// Mark the entry as done.
    Done { id: i32 },
    /// Mark the entry as not done.
    Undone { id: i32 },
    /// Remove the entry.
    Remove { id: i32 },
    /// Remove every entry, after a confirmation.
    Clear,
}

/// What a command that went through has done.
#[derive(Debug, PartialEq, Eq)]
pub enum Outcome {
    /// A pending entry with this text was added under this identifier.
    Added { id: i32, text: String },
    /// These are the entries, in the order of their identifiers.
    Listed { items: Vec<TodoItem> },
    /// The entry is now done.
    MarkedDone { id: i32 },
    /// The entry is now pending.
    MarkedNotDone { id: i32 },
    /// The entry is gone.
    Removed { id: i32 },
    /// Every entry is gone.
    Cleared,
    /// The answer to the confirmation was not a yes; nothing was removed.
    Cancelled,
    /// The answer to the confirmation could not be read; nothing was removed.
    InputFailed,
}

/// What an [`Outcome`] holds, as mathematical values.
pub enum OutcomeView {
    Added { id: int, text: Seq<char> },
    Listed { items: Seq<ItemView> },
    MarkedDone { id: int },
    MarkedNotDone { id: int },
    Removed { id: int },
    Cleared,
    Cancelled,
    InputFailed,
}

impl View for Outcome {
    type V = OutcomeView;

    open spec fn view(&self) -> OutcomeView {
        match *self {
            Outcome::Added { id, text } => OutcomeView::Added { id: id as int, text: text@ },
            Outcome::Listed { items } => OutcomeView::Listed { items: item_views(items@) },
            Outcome::MarkedDone { id } => OutcomeView::MarkedDone { id: id as int },
            Outcome::MarkedNotDone { id } => OutcomeView::MarkedNotDone { id: id as int },
            Outcome::Removed { id } => OutcomeView::Removed { id: id as int },
            Outcome::Cleared => OutcomeView::Cleared,
            Outcome::Cancelled => OutcomeView::Cancelled,
            Outcome::InputFailed => OutcomeView::InputFailed,
        }
    }
}

/// The view of what an operation returned.
pub open spec fn result_view(result: Result<Outcome, TodoError>) -> Result<OutcomeView, ErrorView> {
    match result {
        Ok(outcome) => Ok(outcome@),
        Err(error) => Err(error@),
    }
}

} // verus!
