//! The persistence layer of a note-taking application for one user on one
//! machine: workspaces with their settings and tabs, themes, projects with
//! their notes, notes with their tasks and tags, and a log of backups, kept in
//! one SQLite database.
//!
//! [`db::DbState`] is the storage engine. Each of its operations builds one
//! statement ([`statement`]), hands it to SQLite ([`sqlite`]) and reads the
//! answer back into records ([`codec`], [`entity`]). Failures come back by
//! kind ([`error`]).
//!
//! What is proved: the statement that each operation hands over; how records
//! become rows and rows records; what the engine hands back for everything
//! that the database may answer, including that a read for one owner hands
//! back records of that owner only, and tabs by ascending position; and, in
//! [`laws`], what follows for callers from the meaning of the statements as
//! [`model`] states it, for every history of the engine in which the database
//! does what the statements mean. What is taken on trust is in [`sqlite`] and
//! [`clock`]: nothing there says what SQLite does with a statement.

pub mod clock;
pub mod codec;
pub mod db;
pub mod entity;
pub mod error;
pub mod laws;
pub mod model;
pub mod schema;
pub mod sqlite;
pub mod statement;
pub mod value;
