//! The todo entry, and the row it is stored as.

use vstd::prelude::*;

verus! {

/// One todo entry: its identifier, its text and whether it is done.
#[derive(Debug, PartialEq, Eq)]
pub struct TodoItem {
    pub id: i32,
    pub text: String,
    pub done: bool,
}

/// What a [`TodoItem`] holds, as mathematical values.
pub struct ItemView {
    pub id: int,
    pub text: Seq<char>,
    pub done: bool,
}

impl View for TodoItem {
    type V = ItemView;

    open spec fn view(&self) -> ItemView {
        ItemView { id: self.id as int, text: self.text@, done: self.done }
    }
}

impl Clone for TodoItem {
    fn clone(&self) -> (copy: Self)
        ensures
            copy@ == self@,
    {
        TodoItem { id: self.id, text: self.text.clone(), done: self.done }
    }
}

/// The views of a sequence of items, in order.
pub open spec fn item_views(items: Seq<TodoItem>) -> Seq<ItemView> {
    items.map_values(|item: TodoItem| item@)
}

/// One row of the table as it is stored: the columns `id`, `item` and `done`.
#[derive(Debug, PartialEq, Eq)]
pub struct StoredRow {
    pub id: i32,
    pub item: String,
    pub done: i32,
}

/// What a [`StoredRow`] holds, as mathematical values.
pub struct RowView {
    pub id: int,
    pub item: Seq<char>,
    pub done: int,
}

impl View for StoredRow {
    type V = RowView;

    open spec fn view(&self) -> RowView {
        RowView { id: self.id as int, item: self.item@, done: self.done as int }
    }
}

/// The views of a sequence of rows, in order.
pub open spec fn row_views(rows: Seq<StoredRow>) -> Seq<RowView> {
    rows.map_values(|row: StoredRow| row@)
}

impl RowView {
    /// The entry that a stored row stands for: it is done when the column
    /// `done` holds 1.
    pub open spec fn item(self) -> ItemView {
        ItemView { id: self.id, text: self.item, done: self.done == 1 }
    }
}

} // verus!
