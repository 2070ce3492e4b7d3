//! The todo list as its user drives it: each operation opens the database
//! file, reads the table into the store, applies the change there and writes
//! it back.

use crate::command::{result_view, Command, Outcome, OutcomeView};
use crate::console::Console;
use crate::database::Database;
use crate::error::{ErrorView, StorageOp, TodoError};
use crate::item::ItemView;
use crate::store::{ascending, Store, StoreView};
use crate::text::{affirmative, is_affirmative, is_blank, trim, trimmed};
use vstd::prelude::*;
use vstd::string::*;

verus! {

/// The path of the database file where none is given.
pub open spec fn default_path() -> Seq<char> {
    "./.todo_list.db"@
}

/// Whether `error` is a storage failure during the step `at`.
pub open spec fn failed_at(error: ErrorView, at: StorageOp) -> bool {
    error matches ErrorView::Storage { op, .. } && op == at
}

/// Whether `error` is a failure to open the file or to read the table.
pub open spec fn failed_to_load(error: ErrorView) -> bool {
    ||| failed_at(error, StorageOp::Open)
    ||| failed_at(error, StorageOp::Query)
    ||| failed_at(error, StorageOp::Load)
}

/// The view of the answer to a confirmation.
pub open spec fn answer_view(answer: Option<&str>) -> Option<Seq<char>> {
    match answer {
        Some(line) => Some(line@),
        None => None,
    }
}

/// The todo list: the path of its database file, and the records as the last
/// operation that went through left them.
pub struct TodoApp {
    store: Store,
    file_path_to_db: String,
    console: Console,
}

impl TodoApp {
    /// The name of the application.
    pub const APP_NAME: &'static str = "Todo CLI App";

    /// The version of the application.
    pub const APP_VERSION: &'static str = "1.0.0";

    /// The records that the app holds.
    pub closed spec fn records(&self) -> StoreView {
        self.store@
    }

    /// The path of the database file.
    pub closed spec fn path(&self) -> Seq<char> {
        self.file_path_to_db@
    }

    /// The invariant of the app: that of its records.
    pub open spec fn wf(&self) -> bool {
        self.records().wf()
    }

    /// What every operation keeps: the invariant and the path, and the
    /// records too where the operation fails.
    pub open spec fn follows(&self, before: &TodoApp, result: Result<Outcome, TodoError>) -> bool {
        &&& self.wf()
        &&& self.path() == before.path()
        &&& result is Err ==> self.records() == before.records()
    }

    /// What holds of `self`, the app after `add_todo` was called on `before`
    /// with `item` and returned `result`.
    pub open spec fn added(
        &self,
        before: &TodoApp,
        item: Seq<char>,
        result: Result<Outcome, TodoError>,
    ) -> bool {
        &&& self.follows(before, result)
        &&& is_blank(item) ==> result_view(result) == Err::<OutcomeView, ErrorView>(
            ErrorView::Validation,
        )
        &&& !is_blank(item) ==> match result {
            Ok(outcome) => {
                let records = self.records();
                &&& outcome@ == (OutcomeView::Added { id: records.last_id, text: trimmed(item) })
                &&& records.items.len() > 0
                &&& records.items.last() == (ItemView {
                    id: records.last_id,
                    text: trimmed(item),
                    done: false,
                })
            },
            Err(error) => failed_to_load(error@) || failed_at(error@, StorageOp::Insert),
        }
    }

    /// What holds of `self`, the app after `list_todos` was called on
    /// `before` and returned `result`.
    pub open spec fn listed(&self, before: &TodoApp, result: Result<Outcome, TodoError>) -> bool {
        &&& self.follows(before, result)
        &&& match result {
            Ok(outcome) => {
                &&& outcome@ == (OutcomeView::Listed { items: self.records().items })
                &&& ascending(self.records().items)
            },
            Err(error) => failed_to_load(error@),
        }
    }

    /// The step that fails when the flag cannot be written.
    pub open spec fn marking(value: bool) -> StorageOp {
        if value {
            StorageOp::MarkDone
        } else {
            StorageOp::MarkNotDone
        }
    }

    /// What holds of `self`, the app after `mark_as_done` (`value` is true)
    /// or `mark_as_not_done` (`value` is false) was called on `before` with
    /// `id` and returned `result`.
    pub open spec fn flagged(
        &self,
        before: &TodoApp,
        id: int,
        value: bool,
        result: Result<Outcome, TodoError>,
    ) -> bool {
        &&& self.follows(before, result)
        &&& match result {
            Ok(outcome) => {
                &&& outcome@ == if value {
                    OutcomeView::MarkedDone { id }
                } else {
                    OutcomeView::MarkedNotDone { id }
                }
                &&& self.records().has_flag(id, value)
            },
            Err(error) => {
                ||| error@ == (ErrorView::NotFound { id })
                ||| failed_to_load(error@)
                ||| failed_at(error@, Self::marking(value))
            },
        }
    }

    /// What holds of `self`, the app after `remove_todo` was called on
    /// `before` with `id` and returned `result`.
    pub open spec fn removed(
        &self,
        before: &TodoApp,
        id: int,
        result: Result<Outcome, TodoError>,
    ) -> bool {
        &&& self.follows(before, result)
        &&& match result {
            Ok(outcome) => outcome@ == (OutcomeView::Removed { id }) && !self.records().has_id(id),
            Err(error) => {
                ||| error@ == (ErrorView::NotFound { id })
                ||| failed_to_load(error@)
                ||| failed_at(error@, StorageOp::Remove)
            },
        }
    }

    /// What holds of `self`, the app after `clear_all` was called on `before`
    /// with `answer` and returned `result`.
    pub open spec fn cleared(
        &self,
        before: &TodoApp,
        answer: Option<Seq<char>>,
        result: Result<Outcome, TodoError>,
    ) -> bool {
        &&& self.follows(before, result)
        &&& match answer {
            None => {
                &&& result_view(result) == Ok::<OutcomeView, ErrorView>(OutcomeView::InputFailed)
                &&& self.records() == before.records()
            },
            Some(line) => if is_affirmative(line) {
                match result {
                    Ok(outcome) => {
                        &&& outcome@ == OutcomeView::Cleared
                        &&& self.records() == before.records().cleared()
                    },
                    Err(error) => {
                        ||| failed_at(error@, StorageOp::Open)
                        ||| failed_at(error@, StorageOp::Clear)
                    },
                }
            } else {
                &&& result_view(result) == Ok::<OutcomeView, ErrorView>(OutcomeView::Cancelled)
                &&& self.records() == before.records()
            },
        }
    }

    /// An app for the database file at `path`, with no records read yet.
    pub fn new(path: String) -> (app: TodoApp)
        ensures
            app.path() == path@,
            app.records() == StoreView::fresh(),
            app.wf(),
    {
        TodoApp { store: Store::new(), file_path_to_db: path, console: Console }
    }

    /// The path of the database file.
    pub fn file_path(&self) -> (path: &str)
        ensures
            path@ == self.path(),
    {
        self.file_path_to_db.as_str()
    }

    /// The records that the app holds.
    pub fn store(&self) -> (store: &Store)
        ensures
            store@ == self.records(),
    {
        &self.store
    }

    /// The console that words what the operations return.
    pub fn console(&self) -> (console: &Console)
        ensures
            *console == Console,
    {
        &self.console
    }

    /// Opens the database file of the app.
    fn connect_to_db(&self) -> (result: Result<Database, TodoError>)
        ensures
            result matches Err(error) ==> failed_at(error@, StorageOp::Open),
    {
        Database::open(self.file_path_to_db.as_str())
    }

    /// Opens the database file and reads the table into a store.
    fn check_and_load_todos(&self) -> (result: Result<(Database, Store), TodoError>)
        ensures
            match result {
                Ok((_, store)) => store.wf(),
                Err(error) => failed_to_load(error@),
            },
    {
        let database = match self.connect_to_db() {
            Ok(database) => database,
            Err(error) => {
                return Err(error);
            },
        };
        match database.load() {
            Ok(store) => Ok((database, store)),
            Err(error) => Err(error),
        }
    }

    /// Adds a pending entry for the trimmed `item`. Blank text is rejected
    /// before the file is opened.
    pub fn add_todo(&mut self, item: &str) -> (result: Result<Outcome, TodoError>)
        requires
            old(self).wf(),
        ensures
            final(self).added(old(self), item@, result),
    {
        let kept = trim(item);
        if kept.is_empty() {
            return Err(TodoError::Validation);
        }
        let (database, mut store) = match self.check_and_load_todos() {
            Ok(loaded) => loaded,
            Err(error) => {
                return Err(error);
            },
        };
        let id = match store.insert(item) {
            Ok(id) => id,
            Err(error) => {
                return Err(error);
            },
        };
        match database.insert(id, kept) {
            Ok(()) => {
                self.store = store;
                Ok(Outcome::Added { id, text: String::from_str(kept) })
            },
            Err(error) => Err(error),
        }
    }

    /// Reads the table and lists every entry in the order of the
    /// identifiers.
    pub fn list_todos(&mut self) -> (result: Result<Outcome, TodoError>)
        requires
            old(self).wf(),
        ensures
            final(self).listed(old(self), result),
    {
        match self.check_and_load_todos() {
            Ok((_, store)) => {
                self.store = store;
                Ok(Outcome::Listed { items: self.store.list_all() })
            },
            Err(error) => Err(error),
        }
    }

    /// Sets the flag of entry `id` to `value`.
    fn mark(&mut self, id: i32, value: bool) -> (result: Result<(), TodoError>)
        requires
            old(self).wf(),
        ensures
            final(self).wf(),
            final(self).path() == old(self).path(),
            match result {
                Ok(()) => final(self).records().has_flag(id as int, value),
                Err(error) => {
                    &&& final(self).records() == old(self).records()
                    &&& {
                        ||| error@ == (ErrorView::NotFound { id: id as int })
                        ||| failed_to_load(error@)
                        ||| failed_at(error@, Self::marking(value))
                    }
                },
            },
    {
        let (database, mut store) = match self.check_and_load_todos() {
            Ok(loaded) => loaded,
            Err(error) => {
                return Err(error);
            },
        };
        let ghost loaded = store@;
        match store.set_done(id, value) {
            Ok(()) => {},
            Err(error) => {
                return Err(error);
            },
        }
        proof {
            loaded.lemma_marked_has_flag(id as int, value);
        }
        match database.set_done(id, value) {
            Ok(()) => {
                self.store = store;
                Ok(())
            },
            Err(error) => Err(error),
        }
    }

    /// Marks entry `id` as done.
    pub fn mark_as_done(&mut self, id: i32) -> (result: Result<Outcome, TodoError>)
        requires
            old(self).wf(),
        ensures
            final(self).flagged(old(self), id as int, true, result),
    {
        match self.mark(id, true) {
            Ok(()) => Ok(Outcome::MarkedDone { id }),
            Err(error) => Err(error),
        }
    }

    /// Marks entry `id` as not done.
    pub fn mark_as_not_done(&mut self, id: i32) -> (result: Result<Outcome, TodoError>)
        requires
            old(self).wf(),
        ensures
            final(self).flagged(old(self), id as int, false, result),
    {
        match self.mark(id, false) {
            Ok(()) => Ok(Outcome::MarkedNotDone { id }),
            Err(error) => Err(error),
        }
    }

    /// Removes entry `id`.
    pub fn remove_todo(&mut self, id: i32) -> (result: Result<Outcome, TodoError>)
        requires
            old(self).wf(),
        ensures
            final(self).removed(old(self), id as int, result),
    {
        let (database, mut store) = match self.check_and_load_todos() {
            Ok(loaded) => loaded,
            Err(error) => {
                return Err(error);
            },
        };
        let ghost loaded = store@;
        match store.delete(id) {
            Ok(()) => {},
            Err(error) => {
                return Err(error);
            },
        }
        proof {
            loaded.lemma_removed_lacks_id(id as int);
        }
        match database.delete(id) {
            Ok(()) => {
                self.store = store;
                Ok(Outcome::Removed { id })
            },
            Err(error) => Err(error),
        }
    }

    /// Removes every entry, in the file and in the records of the app.
    fn drop_all_from_db(&mut self) -> (result: Result<Outcome, TodoError>)
        requires
            old(self).wf(),
        ensures
            final(self).follows(old(self), result),
            match result {
                Ok(outcome) => {
                    &&& outcome@ == OutcomeView::Cleared
                    &&& final(self).records() == old(self).records().cleared()
                },
                Err(error) => {
                    ||| failed_at(error@, StorageOp::Open)
                    ||| failed_at(error@, StorageOp::Clear)
                },
            },
    {
        let database = match self.connect_to_db() {
            Ok(database) => database,
            Err(error) => {
                return Err(error);
            },
        };
        match database.delete_all() {
            Ok(()) => {
                self.store.delete_all();
                Ok(Outcome::Cleared)
            },
            Err(error) => Err(error),
        }
    }

    /// Removes every entry if `answer` is a yes. `answer` is the line that
    /// the user gave to the confirmation, or `None` where it could not be
    /// read. Without a yes the file is not opened.
    pub fn clear_all(&mut self, answer: Option<&str>) -> (result: Result<Outcome, TodoError>)
        requires
            old(self).wf(),
        ensures
            final(self).cleared(old(self), answer_view(answer), result),
    {
        match answer {
            None => Ok(Outcome::InputFailed),
            Some(line) => {
                if affirmative(line) {
                    self.drop_all_from_db()
                } else {
                    Ok(Outcome::Cancelled)
                }
            },
        }
    }

    /// Carries out `command`. `answer` is looked at for `Command::Clear`
    /// only: it is the line that the user gave to the confirmation, or `None`
    /// where it could not be read.
    pub fn execute(&mut self, command: &Command, answer: Option<&str>) -> (result: Result<
        Outcome,
        TodoError,
    >)
        requires
            old(self).wf(),
        ensures
            match *command {
                Command::Add { item } => final(self).added(old(self), item@, result),
                Command::List => final(self).listed(old(self), result),
                Command::Done { id } => final(self).flagged(old(self), id as int, true, result),
                Command::Undone { id } => final(self).flagged(old(self), id as int, false, result),
                Command::Remove { id } => final(self).removed(old(self), id as int, result),
                Command::Clear => final(self).cleared(old(self), answer_view(answer), result),
            },
    {
        match command {
            Command::Add { item } => self.add_todo(item.as_str()),
            Command::List => self.list_todos(),
            Command::Done { id } => self.mark_as_done(*id),
            Command::Undone { id } => self.mark_as_not_done(*id),
            Command::Remove { id } => self.remove_todo(*id),
            Command::Clear => self.clear_all(answer),
        }
    }
}

impl Default for TodoApp {
    /// An app for the database file `./.todo_list.db`.
    fn default() -> (app: TodoApp)
        ensures
            app.path() == default_path(),
            app.records() == StoreView::fresh(),
            app.wf(),
    {
        TodoApp::new(String::from_str("./.todo_list.db"))
    }
}

} // verus!
