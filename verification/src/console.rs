//! The lines that the todo list shows to its user.

use crate::command::{result_view, Outcome, OutcomeView};
use crate::error::{ErrorView, StorageOp, TodoError};
use crate::item::{item_views, ItemView, TodoItem};
use crate::text::{decimal, decimal_string};
use vstd::prelude::*;
use vstd::string::*;

verus! {

/// The views of a sequence of lines, in order.
pub open spec fn line_views(lines: Seq<String>) -> Seq<Seq<char>> {
    lines.map_values(|line: String| line@)
}

/// The line for one entry of a listing: `<id>: <text> [Done]` or
/// `<id>: <text> [Pending]`.
pub open spec fn item_line(item: ItemView) -> Seq<char> {
    decimal(item.id) + ": "@ + item.text + " ["@ + (if item.done {
        "Done"@
    } else {
        "Pending"@
    }) + "]"@
}

/// The lines of a listing: a notice where there is no entry, else a heading
/// and one line per entry.
pub open spec fn listing_lines(items: Seq<ItemView>) -> Seq<Seq<char>> {
    if items.len() == 0 {
        seq!["No todo items found."@]
    } else {
        seq!["Todo List:"@] + items.map_values(|item: ItemView| item_line(item))
    }
}

/// The lines that report a command that went through.
pub open spec fn outcome_lines(outcome: OutcomeView) -> Seq<Seq<char>> {
    match outcome {
        OutcomeView::Added { id, text } => seq!["Added todo item: "@ + text],
        OutcomeView::Listed { items } => listing_lines(items),
        OutcomeView::MarkedDone { id } => seq![
            "Marked todo item with ID: "@ + decimal(id) + " as done."@,
        ],
        OutcomeView::MarkedNotDone { id } => seq![
            "Marked todo item with ID: "@ + decimal(id) + " as not done."@,
        ],
        OutcomeView::Removed { id } => seq!["Removed todo item with ID: "@ + decimal(id)],
        OutcomeView::Cleared => seq!["All todo items have been cleared from the database."@],
        OutcomeView::Cancelled => seq!["Clear operation cancelled."@],
        OutcomeView::InputFailed => seq!["Failed to read input. Clear operation cancelled."@],
    }
}

/// How the line for a storage failure begins.
pub open spec fn storage_prefix(op: StorageOp) -> Seq<char> {
    match op {
        StorageOp::Open => "Failed to open database: "@,
        StorageOp::Query => "Failed to query todos: "@,
        StorageOp::Load => "Error loading todo: "@,
        StorageOp::Insert => "Failed to insert todo: "@,
        StorageOp::MarkDone => "Failed to mark todo as done: "@,
        StorageOp::MarkNotDone => "Failed to mark todo as not done: "@,
        StorageOp::Remove => "Failed to remove todo from database: "@,
        StorageOp::Clear => "Failed to clear todos from database: "@,
    }
}

/// The line that reports a failure.
pub open spec fn error_line(error: ErrorView) -> Seq<char> {
    match error {
        ErrorView::Validation => "Error: Todo item cannot be empty."@,
        ErrorView::NotFound { id } => "Todo item with ID: "@ + decimal(id)
            + " not found in database."@,
        ErrorView::Storage { op, detail } => storage_prefix(op) + detail,
    }
}

/// The lines that report what an operation returned.
pub open spec fn report_lines(result: Result<OutcomeView, ErrorView>) -> Seq<Seq<char>> {
    match result {
        Ok(outcome) => outcome_lines(outcome),
        Err(error) => seq![error_line(error)],
    }
}

/// The question that is asked before every entry is removed.
pub open spec fn prompt_line() -> Seq<char> {
    "Are you sure you want to clear all todo items? (y/n): "@
}

/// Writes what happened as lines of text. It prints nothing itself: the
/// caller shows the lines.
#[derive(Debug, Clone, Copy, PartialEq, Eq, Structural)]
pub struct Console;

impl Console {
    /// The question to ask before every entry is removed.
    pub fn prompt(&self) -> (line: String)
        ensures
            line@ == prompt_line(),
    {
        String::from_str("Are you sure you want to clear all todo items? (y/n): ")
    }

    /// The line for one entry of a listing.
    pub fn item_line(&self, item: &TodoItem) -> (line: String)
        ensures
            line@ == item_line(item@),
    {
        let mut line = decimal_string(item.id);
        line.append(": ");
        line.append(item.text.as_str());
        line.append(" [");
        if item.done {
            line.append("Done");
        } else {
            line.append("Pending");
        }
        line.append("]");
        line
    }

    /// The lines of a listing.
    pub fn listing(&self, items: &Vec<TodoItem>) -> (lines: Vec<String>)
        ensures
            line_views(lines@) == listing_lines(item_views(items@)),
    {
        let mut lines: Vec<String> = Vec::new();
        if items.len() == 0 {
            lines.push(String::from_str("No todo items found."));
            return lines;
        }
        lines.push(String::from_str("Todo List:"));
        let mut k: usize = 0;
        while k < items.len()
            invariant
                k <= items.len(),
                lines.len() == k + 1,
                lines[0]@ == "Todo List:"@,
                forall|j: int| 0 <= j < k ==> (#[trigger] lines[j + 1])@ == item_line(items[j]@),
            decreases items.len() - k,
        {
            let line = self.item_line(&items[k]);
            lines.push(line);
            k = k + 1;
        }
        proof {
            let entries = item_views(items@).map_values(|item: ItemView| item_line(item));
            let target = seq!["Todo List:"@] + entries;
            assert forall|j: int| 0 <= j < target.len() implies line_views(lines@)[j]
                == target[j] by {
                if j > 0 {
                    assert(lines[(j - 1) + 1]@ == item_line(items[j - 1]@));
                }
            }
        }
        lines
    }

    /// How the line for a storage failure begins.
    fn storage_prefix(&self, op: StorageOp) -> (prefix: &'static str)
        ensures
            prefix@ == storage_prefix(op),
    {
        match op {
            StorageOp::Open => "Failed to open database: ",
            StorageOp::Query => "Failed to query todos: ",
            StorageOp::Load => "Error loading todo: ",
            StorageOp::Insert => "Failed to insert todo: ",
            StorageOp::MarkDone => "Failed to mark todo as done: ",
            StorageOp::MarkNotDone => "Failed to mark todo as not done: ",
            StorageOp::Remove => "Failed to remove todo from database: ",
            StorageOp::Clear => "Failed to clear todos from database: ",
        }
    }

    /// The line that reports a failure.
    pub fn error_line(&self, error: &TodoError) -> (line: String)
        ensures
            line@ == error_line(error@),
    {
        match error {
            TodoError::Validation => String::from_str("Error: Todo item cannot be empty."),
            TodoError::NotFound { id } => {
                let mut line = String::from_str("Todo item with ID: ");
                line.append(decimal_string(*id).as_str());
                line.append(" not found in database.");
                line
            },
            TodoError::Storage { op, detail } => {
                let mut line = String::from_str(self.storage_prefix(*op));
                line.append(detail.as_str());
                line
            },
        }
    }

    /// The lines that report a command that went through.
    pub fn outcome_lines(&self, outcome: &Outcome) -> (lines: Vec<String>)
        ensures
            line_views(lines@) == outcome_lines(outcome@),
    {
        let line = match outcome {
            Outcome::Added { id, text } => {
                let mut line = String::from_str("Added todo item: ");
                line.append(text.as_str());
                line
            },
            Outcome::Listed { items } => {
                return self.listing(items);
            },
            Outcome::MarkedDone { id } => {
                let mut line = String::from_str("Marked todo item with ID: ");
                line.append(decimal_string(*id).as_str());
                line.append(" as done.");
                line
            },
            Outcome::MarkedNotDone { id } => {
                let mut line = String::from_str("Marked todo item with ID: ");
                line.append(decimal_string(*id).as_str());
                line.append(" as not done.");
                line
            },
            Outcome::Removed { id } => {
                let mut line = String::from_str("Removed todo item with ID: ");
                line.append(decimal_string(*id).as_str());
                line
            },
            Outcome::Cleared => String::from_str(
                "All todo items have been cleared from the database.",
            ),
            Outcome::Cancelled => String::from_str("Clear operation cancelled."),
            Outcome::InputFailed => String::from_str(
                "Failed to read input. Clear operation cancelled.",
            ),
        };
        let mut lines: Vec<String> = Vec::new();
        lines.push(line);
        lines
    }

    /// The lines that report what an operation returned.
    pub fn report(&self, result: &Result<Outcome, TodoError>) -> (lines: Vec<String>)
        ensures
            line_views(lines@) == report_lines(result_view(*result)),
    {
        match result {
            Ok(outcome) => self.outcome_lines(outcome),
            Err(error) => {
                let mut lines: Vec<String> = Vec::new();
                lines.push(self.error_line(error));
                lines
            },
        }
    }
}

} // verus!
