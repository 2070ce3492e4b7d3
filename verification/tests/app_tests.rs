use todo_cli::command::{Command, Outcome};
use todo_cli::error::{StorageOp, TodoError};
use todo_cli::item::TodoItem;
use todo_cli::todo_app::TodoApp;

/// A database that lives in memory under `name`, for as long as the returned
/// connection is open.
fn memory_database(name: &str) -> (String, rusqlite::Connection) {
    let path = format!("file:{}?mode=memory&cache=shared", name);
    let keeper = rusqlite::Connection::open(&path).unwrap();
    (path, keeper)
}

fn lines_of(app: &TodoApp, result: &Result<Outcome, TodoError>) -> Vec<String> {
    app.console().report(result)
}

fn listed(path: &str) -> Vec<TodoItem> {
    let mut app = TodoApp::new(path.to_string());
    match app.list_todos() {
        Ok(Outcome::Listed { items }) => items,
        other => panic!("listing failed: {:?}", other),
    }
}

#[test]
fn default_app_uses_the_hidden_file_in_the_working_directory() {
    let app = TodoApp::default();
    assert_eq!(app.file_path(), "./.todo_list.db");
    assert_eq!(app.store().len(), 0);
    assert_eq!(app.store().last_id(), 0);
}

#[test]
fn list_on_a_fresh_database_reports_that_nothing_was_found() {
    let (path, _keeper) = memory_database("fresh_list");
    let mut app = TodoApp::new(path);
    let result = app.list_todos();
    assert_eq!(result, Ok(Outcome::Listed { items: vec![] }));
    assert_eq!(lines_of(&app, &result), vec!["No todo items found.".to_string()]);
}

#[test]
fn added_item_is_listed_as_pending_under_a_new_id() {
    let (path, _keeper) = memory_database("add_then_list");
    let mut app = TodoApp::new(path.clone());
    let added = app.add_todo("  Buy groceries \n");
    assert_eq!(added, Ok(Outcome::Added { id: 1, text: "Buy groceries".to_string() }));
    assert_eq!(lines_of(&app, &added), vec!["Added todo item: Buy groceries".to_string()]);

    let mut later = TodoApp::new(path);
    let result = later.list_todos();
    assert_eq!(
        result,
        Ok(Outcome::Listed {
            items: vec![TodoItem { id: 1, text: "Buy groceries".to_string(), done: false }],
        })
    );
    assert_eq!(
        lines_of(&later, &result),
        vec!["Todo List:".to_string(), "1: Buy groceries [Pending]".to_string()]
    );
}

#[test]
fn ids_grow_and_are_not_reused_after_a_removal() {
    let (path, _keeper) = memory_database("no_reuse");
    assert_eq!(
        TodoApp::new(path.clone()).add_todo("A"),
        Ok(Outcome::Added { id: 1, text: "A".to_string() })
    );
    assert_eq!(
        TodoApp::new(path.clone()).add_todo("B"),
        Ok(Outcome::Added { id: 2, text: "B".to_string() })
    );
    assert_eq!(TodoApp::new(path.clone()).remove_todo(1), Ok(Outcome::Removed { id: 1 }));
    assert_eq!(
        TodoApp::new(path.clone()).add_todo("C"),
        Ok(Outcome::Added { id: 3, text: "C".to_string() })
    );
    let ids: Vec<i32> = listed(&path).iter().map(|item| item.id).collect();
    assert_eq!(ids, vec![2, 3]);
}

#[test]
fn id_of_the_last_entry_is_not_reused_after_its_removal() {
    let (path, _keeper) = memory_database("no_reuse_of_last");
    let mut app = TodoApp::new(path.clone());
    assert!(app.add_todo("A").is_ok());
    assert!(app.add_todo("B").is_ok());
    assert_eq!(app.remove_todo(2), Ok(Outcome::Removed { id: 2 }));
    assert_eq!(
        TodoApp::new(path).add_todo("C"),
        Ok(Outcome::Added { id: 3, text: "C".to_string() })
    );
}

#[test]
fn ids_go_on_after_everything_was_cleared() {
    let (path, _keeper) = memory_database("no_reuse_after_clear");
    let mut app = TodoApp::new(path.clone());
    assert!(app.add_todo("A").is_ok());
    assert!(app.add_todo("B").is_ok());
    assert_eq!(app.clear_all(Some("y")), Ok(Outcome::Cleared));
    assert_eq!(
        TodoApp::new(path).add_todo("C"),
        Ok(Outcome::Added { id: 3, text: "C".to_string() })
    );
}

#[test]
fn done_and_undone_set_the_flag() {
    let (path, _keeper) = memory_database("flags");
    let mut app = TodoApp::new(path.clone());
    assert!(app.add_todo("A").is_ok());
    assert!(app.add_todo("B").is_ok());

    let done = app.mark_as_done(2);
    assert_eq!(done, Ok(Outcome::MarkedDone { id: 2 }));
    assert_eq!(lines_of(&app, &done), vec!["Marked todo item with ID: 2 as done.".to_string()]);
    assert_eq!(
        listed(&path),
        vec![
            TodoItem { id: 1, text: "A".to_string(), done: false },
            TodoItem { id: 2, text: "B".to_string(), done: true },
        ]
    );
    let mut shown = TodoApp::new(path.clone());
    let listing = shown.list_todos();
    assert_eq!(
        lines_of(&shown, &listing),
        vec!["Todo List:".to_string(), "1: A [Pending]".to_string(), "2: B [Done]".to_string()]
    );

    let undone = app.mark_as_not_done(2);
    assert_eq!(undone, Ok(Outcome::MarkedNotDone { id: 2 }));
    assert_eq!(
        lines_of(&app, &undone),
        vec!["Marked todo item with ID: 2 as not done.".to_string()]
    );
    assert_eq!(
        listed(&path),
        vec![
            TodoItem { id: 1, text: "A".to_string(), done: false },
            TodoItem { id: 2, text: "B".to_string(), done: false },
        ]
    );
}

#[test]
fn done_and_undone_on_a_missing_id_report_not_found_and_change_nothing() {
    let (path, _keeper) = memory_database("missing_id");
    let mut app = TodoApp::new(path.clone());
    assert!(app.add_todo("A").is_ok());
    assert!(app.mark_as_done(1).is_ok());
    let before = listed(&path);

    let done = app.mark_as_done(7);
    assert_eq!(done, Err(TodoError::NotFound { id: 7 }));
    assert_eq!(
        lines_of(&app, &done),
        vec!["Todo item with ID: 7 not found in database.".to_string()]
    );
    let undone = app.mark_as_not_done(-3);
    assert_eq!(undone, Err(TodoError::NotFound { id: -3 }));
    assert_eq!(
        lines_of(&app, &undone),
        vec!["Todo item with ID: -3 not found in database.".to_string()]
    );
    assert_eq!(listed(&path), before);
    assert_eq!(app.store().list_all(), before);
}

#[test]
fn remove_deletes_the_entry_and_reports_a_missing_one() {
    let (path, _keeper) = memory_database("remove");
    let mut app = TodoApp::new(path.clone());
    assert!(app.add_todo("A").is_ok());
    assert!(app.add_todo("B").is_ok());
    let removed = app.remove_todo(1);
    assert_eq!(removed, Ok(Outcome::Removed { id: 1 }));
    assert_eq!(lines_of(&app, &removed), vec!["Removed todo item with ID: 1".to_string()]);
    assert_eq!(listed(&path), vec![TodoItem { id: 2, text: "B".to_string(), done: false }]);
    assert_eq!(app.remove_todo(1), Err(TodoError::NotFound { id: 1 }));
    assert_eq!(listed(&path), vec![TodoItem { id: 2, text: "B".to_string(), done: false }]);
}

#[test]
fn clear_with_n_keeps_every_record() {
    let (path, _keeper) = memory_database("clear_n");
    let mut app = TodoApp::new(path.clone());
    assert!(app.add_todo("A").is_ok());
    assert!(app.add_todo("B").is_ok());
    let before = listed(&path);
    let result = app.clear_all(Some("n\n"));
    assert_eq!(result, Ok(Outcome::Cancelled));
    assert_eq!(lines_of(&app, &result), vec!["Clear operation cancelled.".to_string()]);
    assert_eq!(listed(&path), before);
    assert_eq!(before.len(), 2);
}

#[test]
fn clear_with_y_removes_every_record_and_the_list_is_empty_afterwards() {
    let (path, _keeper) = memory_database("clear_y");
    let mut app = TodoApp::new(path.clone());
    assert!(app.add_todo("A").is_ok());
    assert!(app.add_todo("B").is_ok());
    let result = app.clear_all(Some("y\n"));
    assert_eq!(result, Ok(Outcome::Cleared));
    assert_eq!(
        lines_of(&app, &result),
        vec!["All todo items have been cleared from the database.".to_string()]
    );
    assert_eq!(app.store().len(), 0);
    let mut later = TodoApp::new(path);
    let listing = later.list_todos();
    assert_eq!(lines_of(&later, &listing), vec!["No todo items found.".to_string()]);
}

#[test]
fn clear_accepts_yes_in_any_case_and_nothing_else() {
    let (path, _keeper) = memory_database("clear_answers");
    let mut app = TodoApp::new(path.clone());
    for answer in ["", "no", "yes!", "yy", "ye", "oui", " y e s "] {
        assert!(app.add_todo("A").is_ok());
        assert_eq!(app.clear_all(Some(answer)), Ok(Outcome::Cancelled));
        assert!(!listed(&path).is_empty());
    }
    for answer in ["y", "Y", "yes", "YES", "  yEs\r\n"] {
        assert!(app.add_todo("A").is_ok());
        assert_eq!(app.clear_all(Some(answer)), Ok(Outcome::Cleared));
        assert!(listed(&path).is_empty());
    }
}

#[test]
fn clear_without_an_answer_is_cancelled() {
    let (path, _keeper) = memory_database("clear_unread");
    let mut app = TodoApp::new(path.clone());
    assert!(app.add_todo("A").is_ok());
    let result = app.clear_all(None);
    assert_eq!(result, Ok(Outcome::InputFailed));
    assert_eq!(
        lines_of(&app, &result),
        vec!["Failed to read input. Clear operation cancelled.".to_string()]
    );
    assert_eq!(listed(&path).len(), 1);
}

#[test]
fn blank_text_is_rejected_and_changes_nothing() {
    let (path, _keeper) = memory_database("blank");
    let mut app = TodoApp::new(path.clone());
    assert!(app.add_todo("A").is_ok());
    let before = listed(&path);
    for text in ["", " ", "\t\n", " \u{a0}\u{3000} "] {
        let result = app.add_todo(text);
        assert_eq!(result, Err(TodoError::Validation));
        assert_eq!(
            lines_of(&app, &result),
            vec!["Error: Todo item cannot be empty.".to_string()]
        );
    }
    assert_eq!(listed(&path), before);
    assert_eq!(app.store().list_all(), before);
    assert_eq!(
        TodoApp::new(path).add_todo("B"),
        Ok(Outcome::Added { id: 2, text: "B".to_string() })
    );
}

#[test]
fn blank_text_is_rejected_before_the_file_is_opened() {
    let mut app = TodoApp::new("/no/such/directory/todo.db".to_string());
    assert_eq!(app.add_todo("   "), Err(TodoError::Validation));
    assert_eq!(app.clear_all(Some("n")), Ok(Outcome::Cancelled));
    assert_eq!(app.clear_all(None), Ok(Outcome::InputFailed));
}

#[test]
fn a_file_that_cannot_be_opened_is_a_storage_error() {
    let mut app = TodoApp::new("/no/such/directory/todo.db".to_string());
    let commands = [
        Command::Add { item: "A".to_string() },
        Command::List,
        Command::Done { id: 1 },
        Command::Undone { id: 1 },
        Command::Remove { id: 1 },
        Command::Clear,
    ];
    for command in commands.iter() {
        let result = app.execute(command, Some("yes"));
        match &result {
            Err(TodoError::Storage { op, .. }) => assert_eq!(*op, StorageOp::Open),
            other => panic!("expected a storage error, got {:?}", other),
        }
        let lines = lines_of(&app, &result);
        assert_eq!(lines.len(), 1);
        assert!(lines[0].starts_with("Failed to open database: "));
        assert!(lines[0].len() > "Failed to open database: ".len());
    }
    assert_eq!(app.store().len(), 0);
}

#[test]
fn execute_carries_out_each_command() {
    let (path, _keeper) = memory_database("execute");
    let mut app = TodoApp::new(path.clone());
    assert_eq!(
        app.execute(&Command::Add { item: " first ".to_string() }, None),
        Ok(Outcome::Added { id: 1, text: "first".to_string() })
    );
    assert_eq!(
        app.execute(&Command::Add { item: "second".to_string() }, None),
        Ok(Outcome::Added { id: 2, text: "second".to_string() })
    );
    assert_eq!(app.execute(&Command::Done { id: 1 }, None), Ok(Outcome::MarkedDone { id: 1 }));
    assert_eq!(app.execute(&Command::Done { id: 2 }, None), Ok(Outcome::MarkedDone { id: 2 }));
    assert_eq!(
        app.execute(&Command::Undone { id: 2 }, None),
        Ok(Outcome::MarkedNotDone { id: 2 })
    );
    assert_eq!(
        app.execute(&Command::List, None),
        Ok(Outcome::Listed {
            items: vec![
                TodoItem { id: 1, text: "first".to_string(), done: true },
                TodoItem { id: 2, text: "second".to_string(), done: false },
            ],
        })
    );
    assert_eq!(app.execute(&Command::Remove { id: 1 }, None), Ok(Outcome::Removed { id: 1 }));
    assert_eq!(app.execute(&Command::Clear, Some("no")), Ok(Outcome::Cancelled));
    assert_eq!(app.execute(&Command::Clear, None), Ok(Outcome::InputFailed));
    assert_eq!(listed(&path).len(), 1);
    assert_eq!(app.execute(&Command::Clear, Some("yes")), Ok(Outcome::Cleared));
    assert_eq!(app.execute(&Command::List, None), Ok(Outcome::Listed { items: vec![] }));
}

#[test]
fn records_of_the_app_follow_the_operations_that_went_through() {
    let (path, _keeper) = memory_database("records");
    let mut app = TodoApp::new(path.clone());
    assert!(app.add_todo("A").is_ok());
    assert!(app.add_todo("B").is_ok());
    assert!(app.mark_as_done(1).is_ok());
    assert_eq!(app.store().last_id(), 2);
    assert_eq!(app.store().list_all(), listed(&path));
    assert!(app.remove_todo(1).is_ok());
    assert_eq!(app.store().list_all(), listed(&path));
    assert_eq!(app.store().last_id(), 2);
}

#[test]
fn a_row_with_empty_text_is_reported_as_invalid() {
    let (path, keeper) = memory_database("corrupt_text");
    let mut app = TodoApp::new(path.clone());
    assert!(app.add_todo("A").is_ok());
    keeper.execute("INSERT INTO todos (id, item, done) VALUES (5, '', 0)", ()).unwrap();
    let result = app.list_todos();
    assert_eq!(
        result,
        Err(TodoError::Storage { op: StorageOp::Load, detail: "invalid record 5".to_string() })
    );
    assert_eq!(
        lines_of(&app, &result),
        vec!["Error loading todo: invalid record 5".to_string()]
    );
    assert_eq!(app.add_todo("B"), result);
}

#[test]
fn a_table_of_another_shape_is_a_storage_error() {
    let (path, keeper) = memory_database("other_shape");
    keeper.execute("CREATE TABLE todos (name TEXT)", ()).unwrap();
    let mut app = TodoApp::new(path);
    let result = app.list_todos();
    match &result {
        Err(TodoError::Storage { op, .. }) => assert_eq!(*op, StorageOp::Query),
        other => panic!("expected a storage error, got {:?}", other),
    }
    assert!(lines_of(&app, &result)[0].starts_with("Failed to query todos: "));
}

#[test]
fn stored_flag_other_than_one_counts_as_pending() {
    let (path, keeper) = memory_database("flag_values");
    assert_eq!(listed(&path), vec![]);
    keeper.execute("INSERT INTO todos (id, item, done) VALUES (1, 'A', 1)", ()).unwrap();
    keeper.execute("INSERT INTO todos (id, item, done) VALUES (2, 'B', 0)", ()).unwrap();
    keeper.execute("INSERT INTO todos (id, item, done) VALUES (3, 'C', 2)", ()).unwrap();
    assert_eq!(
        listed(&path),
        vec![
            TodoItem { id: 1, text: "A".to_string(), done: true },
            TodoItem { id: 2, text: "B".to_string(), done: false },
            TodoItem { id: 3, text: "C".to_string(), done: false },
        ]
    );
}

#[test]
fn table_holds_what_the_operations_wrote() {
    let (path, keeper) = memory_database("table");
    let mut app = TodoApp::new(path);
    assert!(app.add_todo(" four ").is_ok());
    assert!(app.add_todo("nine").is_ok());
    assert!(app.mark_as_done(2).is_ok());
    assert!(app.remove_todo(1).is_ok());
    let rows: Vec<(i32, String, i32)> = keeper
        .prepare("SELECT id, item, done FROM todos ORDER BY id")
        .unwrap()
        .query_map((), |row| Ok((row.get(0)?, row.get(1)?, row.get(2)?)))
        .unwrap()
        .map(|row| row.unwrap())
        .collect();
    assert_eq!(rows, vec![(2, "nine".to_string(), 1)]);
    let sequence: i32 = keeper
        .query_row("SELECT seq FROM sqlite_sequence WHERE name = 'todos'", (), |row| row.get(0))
        .unwrap();
    assert_eq!(sequence, 2);
    assert!(app.mark_as_not_done(2).is_ok());
    let done: i32 =
        keeper.query_row("SELECT done FROM todos WHERE id = 2", (), |row| row.get(0)).unwrap();
    assert_eq!(done, 0);
    assert!(app.clear_all(Some("y")).is_ok());
    let count: i32 = keeper.query_row("SELECT COUNT(*) FROM todos", (), |row| row.get(0)).unwrap();
    assert_eq!(count, 0);
}

#[test]
fn a_sequence_ahead_of_the_rows_is_respected() {
    let (path, keeper) = memory_database("sequence_ahead");
    assert_eq!(listed(&path), vec![]);
    keeper.execute("INSERT INTO todos (id, item, done) VALUES (40, 'old', 0)", ()).unwrap();
    keeper.execute("DELETE FROM todos WHERE id = 40", ()).unwrap();
    assert_eq!(
        TodoApp::new(path).add_todo("new"),
        Ok(Outcome::Added { id: 41, text: "new".to_string() })
    );
}

/// Makes every statement of `kind` on the table fail with `message`.
fn refuse(keeper: &rusqlite::Connection, kind: &str, message: &str) {
    let sql = format!(
        "CREATE TRIGGER refuse_{} BEFORE {} ON todos BEGIN SELECT RAISE(ABORT, '{}'); END",
        kind.to_lowercase(),
        kind,
        message
    );
    keeper.execute(&sql, ()).unwrap();
}

#[test]
fn a_failed_insert_is_reported_and_leaves_the_records() {
    let (path, keeper) = memory_database("failed_insert");
    let mut app = TodoApp::new(path.clone());
    assert!(app.add_todo("A").is_ok());
    refuse(&keeper, "INSERT", "inserts are off");
    let result = app.add_todo("B");
    assert_eq!(
        result,
        Err(TodoError::Storage { op: StorageOp::Insert, detail: "inserts are off".to_string() })
    );
    assert_eq!(lines_of(&app, &result), vec!["Failed to insert todo: inserts are off".to_string()]);
    assert_eq!(app.store().list_all(), vec![TodoItem { id: 1, text: "A".to_string(), done: false }]);
    assert_eq!(app.store().last_id(), 1);
    assert_eq!(listed(&path).len(), 1);
}

#[test]
fn a_failed_update_is_reported_and_leaves_the_records() {
    let (path, keeper) = memory_database("failed_update");
    let mut app = TodoApp::new(path.clone());
    assert!(app.add_todo("A").is_ok());
    assert!(app.add_todo("B").is_ok());
    assert!(app.mark_as_done(2).is_ok());
    refuse(&keeper, "UPDATE", "updates are off");
    let before = listed(&path);

    let done = app.mark_as_done(1);
    assert_eq!(
        done,
        Err(TodoError::Storage { op: StorageOp::MarkDone, detail: "updates are off".to_string() })
    );
    assert_eq!(
        lines_of(&app, &done),
        vec!["Failed to mark todo as done: updates are off".to_string()]
    );
    let undone = app.mark_as_not_done(2);
    assert_eq!(
        undone,
        Err(TodoError::Storage {
            op: StorageOp::MarkNotDone,
            detail: "updates are off".to_string(),
        })
    );
    assert_eq!(
        lines_of(&app, &undone),
        vec!["Failed to mark todo as not done: updates are off".to_string()]
    );
    assert_eq!(app.mark_as_done(9), Err(TodoError::NotFound { id: 9 }));
    assert_eq!(app.store().list_all(), before);
    assert_eq!(listed(&path), before);
}

#[test]
fn a_failed_delete_is_reported_and_leaves_the_records() {
    let (path, keeper) = memory_database("failed_delete");
    let mut app = TodoApp::new(path.clone());
    assert!(app.add_todo("A").is_ok());
    assert!(app.add_todo("B").is_ok());
    refuse(&keeper, "DELETE", "deletes are off");
    let before = listed(&path);

    let removed = app.remove_todo(1);
    assert_eq!(
        removed,
        Err(TodoError::Storage { op: StorageOp::Remove, detail: "deletes are off".to_string() })
    );
    assert_eq!(
        lines_of(&app, &removed),
        vec!["Failed to remove todo from database: deletes are off".to_string()]
    );
    let cleared = app.clear_all(Some("yes"));
    assert_eq!(
        cleared,
        Err(TodoError::Storage { op: StorageOp::Clear, detail: "deletes are off".to_string() })
    );
    assert_eq!(
        lines_of(&app, &cleared),
        vec!["Failed to clear todos from database: deletes are off".to_string()]
    );
    assert_eq!(app.store().list_all(), before);
    assert_eq!(listed(&path), before);
}
