//! A todo list kept in a SQLite file: the record store, the six commands that
//! act on it, and the lines they report.

pub mod command;
pub mod console;
mod database;
pub mod error;
pub mod item;
pub mod laws;
pub mod store;
pub mod text;
pub mod todo_app;
