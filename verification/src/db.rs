//! The storage engine: one connection to one database, and one method for
//! each operation of the store.
//!
//! Every method hands the database one statement and reads what comes back.
//! The engine keeps, for the proofs only, the history of these exchanges; each
//! method says which statement it has added to it and how its result follows
//! from what the database made of that statement. What the database does with
//! a statement is not proved here: the module `model` says what each statement
//! means, and `laws` what follows for a history in which the database does so.

use vstd::prelude::*;
use vstd::string::StringExecFns;
use crate::clock::{fresh_identifier, timestamp};
use crate::codec::{
    ascending, read_all, read_as, read_owned, read_owned_as, read_tabs, read_tabs_as, rows_of,
    Record,
};
use crate::entity::{
    CustomTheme, Note, NoteTagView, NoteView, Project, ProjectView, Tab, Tag, TagView, Task,
    TaskView, Workspace, WorkspaceSettings,
};
use crate::error::{classify, statement_failure, DbError, FailureKind, Stage};
use crate::model::{layout, opened, Exchange, Outcome};
use crate::schema::{Operation, DATABASE_FILE};
use crate::sqlite::{
    code_of, connect, connect_in_memory, execute, fetch, file_within, run_batch, text_of,
};
use crate::statement::{
    note_changes, project_changes, stated, task_changes, Statement, StatementView,
};
use crate::value::{flag_value, text_in, Datum, SqlValue};

verus! {

/// The storage engine. It owns the one connection to the database, and every
/// operation takes the engine for itself while it runs: a caller that shares
/// the engine among threads guards it with a lock of its own.
pub struct DbState {
    /// The connection that every operation goes through. What is sent through
    /// it by other means is not in the engine's history.
    pub connection: rusqlite::Connection,
    history: Ghost<Seq<Exchange>>,
}

/// The text that goes with a statement that holds a value no statement can
/// bind.
pub const UNBINDABLE: &'static str = "a statement holds a value that cannot be bound";

/// The text that goes with a statement that reads where one that writes is
/// asked for, or the other way round.
pub const MISUSED: &'static str = "a statement that reads was run as one that writes, or the reverse";

/// True where `later` is `earlier` and then one exchange on the statement.
pub open spec fn exchanged(
    earlier: Seq<Exchange>,
    later: Seq<Exchange>,
    statement: StatementView,
) -> bool {
    later.len() == earlier.len() + 1 && later.drop_last() == earlier && later.last().statement
        == statement
}

/// True where the result of an operation that writes is what the outcome of
/// its statement asks for: success where the statement ran, whatever the
/// number of rows it changed, and the database's failure where it failed. A
/// statement that found no row to change or remove has run: that is a success
/// like any other.
pub open spec fn settled<T>(outcome: Outcome, r: Result<T, DbError>) -> bool {
    match r {
        Ok(_) => outcome is Changed,
        Err(e) => outcome == Outcome::Failed(e.kind, e.message@) && statement_failure(e.kind),
    }
}

/// True where the result of an operation that reads is a failure that the
/// database reported.
pub open spec fn failed<T>(outcome: Outcome, r: Result<T, DbError>) -> bool {
    r matches Err(e) && outcome == Outcome::Failed(e.kind, e.message@) && statement_failure(
        e.kind,
    )
}

/// The failure of the store that stands for what SQLite reported at the given
/// stage, with SQLite's own description.
fn failure(stage: Stage, cause: &rusqlite::Error) -> (e: DbError)
    ensures
        stage == Stage::Opening ==> e.kind == FailureKind::Io,
        stage == Stage::LayingOut ==> e.kind == FailureKind::Schema,
        stage == Stage::Running ==> statement_failure(e.kind),
{
    DbError::new(classify(stage, code_of(cause)), text_of(cause))
}

/// Whether every value can be bound to a statement.
fn all_bindable(values: &Vec<SqlValue>) -> (r: bool)
    ensures
        r == forall|i: int| 0 <= i < values@.len() ==> (#[trigger] values@[i]).bindable(),
{
    let mut k: usize = 0;
    while k < values.len()
        invariant
            k <= values@.len(),
            forall|i: int| 0 <= i < k ==> (#[trigger] values@[i]).bindable(),
        decreases values@.len() - k,
    {
        match values[k] {
            SqlValue::Other => {
                return false;
            },
            _ => {},
        }
        k = k + 1;
    }
    true
}

/// What an operation that writes hands back, given what the database said of
/// its statement: `value` whenever the statement ran, whatever the number of
/// rows it changed, and the failure otherwise.
pub fn answer_with<T>(outcome: Result<usize, DbError>, value: T) -> (r: Result<T, DbError>)
    ensures
        match outcome {
            Ok(_) => r == Ok::<T, DbError>(value),
            Err(e) => r == Err::<T, DbError>(e),
        },
{
    match outcome {
        Ok(_) => Ok(value),
        Err(e) => Err(e),
    }
}

impl DbState {
    /// The exchanges with the database so far, oldest first: one for each
    /// statement that an operation of the engine has handed over.
    pub closed spec fn history(&self) -> Seq<Exchange> {
        self.history@
    }

    /// Opens the database file `app.db` within the directory `app_dir`,
    /// creating the file where it is missing, and lays out the tables. The
    /// directory itself has to exist.
    ///
    /// Fails with `Io` where the file cannot be created or opened, and with
    /// `Schema` where laying out the tables fails.
    pub fn new(app_dir: std::path::PathBuf) -> (r: Result<DbState, DbError>)
        ensures
            match r {
                Ok(engine) => engine.history() == opened(),
                Err(e) => e.kind == FailureKind::Io || e.kind == FailureKind::Schema,
            },
    {
        let path = file_within(&app_dir, DATABASE_FILE);
        match connect(&path) {
            Ok(connection) => DbState::over(connection),
            Err(cause) => Err(failure(Stage::Opening, &cause)),
        }
    }

    /// Opens a fresh database that lives in memory and is gone with the
    /// engine, and lays out the tables.
    pub fn in_memory() -> (r: Result<DbState, DbError>)
        ensures
            match r {
                Ok(engine) => engine.history() == opened(),
                Err(e) => e.kind == FailureKind::Io || e.kind == FailureKind::Schema,
            },
    {
        match connect_in_memory() {
            Ok(connection) => DbState::over(connection),
            Err(cause) => Err(failure(Stage::Opening, &cause)),
        }
    }

    /// The engine over an open connection, once the tables are laid out.
    fn over(connection: rusqlite::Connection) -> (r: Result<DbState, DbError>)
        ensures
            match r {
                Ok(engine) => engine.history() == opened(),
                Err(e) => e.kind == FailureKind::Schema,
            },
    {
        let mut engine = DbState { connection, history: Ghost(Seq::empty()) };
        match engine.initialize() {
            Ok(()) => Ok(engine),
            Err(e) => Err(e),
        }
    }

    /// Lays out the tables that are missing. Tables that exist stay as they
    /// are, with their rows, so the call can be repeated.
    pub fn initialize(&mut self) -> (r: Result<(), DbError>)
        ensures
            exchanged(old(self).history(), final(self).history(), layout()),
            match r {
                Ok(()) => final(self).history().last().outcome == Outcome::Changed(0),
                Err(e) => final(self).history().last().outcome == Outcome::Failed(
                    e.kind,
                    e.message@,
                ) && e.kind == FailureKind::Schema,
            },
    {
        match run_batch(&self.connection, Operation::LayOut.sql()) {
            Ok(()) => {
                proof {
                    self.history@ = self.history@.push(
                        Exchange { statement: layout(), outcome: Outcome::Changed(0) },
                    );
                    assert(self.history@.drop_last() =~= old(self).history@);
                }
                Ok(())
            },
            Err(cause) => {
                let e = failure(Stage::LayingOut, &cause);
                proof {
                    self.history@ = self.history@.push(
                        Exchange {
                            statement: layout(),
                            outcome: Outcome::Failed(e.kind, e.message@),
                        },
                    );
                    assert(self.history@.drop_last() =~= old(self).history@);
                }
                Err(e)
            },
        }
    }

    /// Runs a statement that writes, and hands back the number of rows that
    /// it changed, inserted or removed.
    ///
    /// A statement that holds a value that cannot be bound, or that reads, is
    /// not handed to the database: it fails with `Query`. Any other failure
    /// is the database's.
    pub fn execute(&mut self, statement: &Statement) -> (r: Result<usize, DbError>)
        ensures
            r matches Err(e) ==> statement_failure(e.kind),
            if statement.well_formed() && statement.operation.columns() == 0 {
                exchanged(old(self).history(), final(self).history(), statement@) && match r {
                    Ok(n) => final(self).history().last().outcome == Outcome::Changed(n as nat),
                    Err(e) => final(self).history().last().outcome == Outcome::Failed(
                        e.kind,
                        e.message@,
                    ),
                }
            } else {
                final(self).history() == old(self).history() && (r matches Err(e) && e.kind
                    == FailureKind::Query && e.message@ == if statement.well_formed() {
                    MISUSED@
                } else {
                    UNBINDABLE@
                })
            },
    {
        if !all_bindable(&statement.parameters) {
            proof {
                if statement.well_formed() {
                    assert forall|i: int| 0 <= i < statement.parameters@.len() implies (
                    #[trigger] statement.parameters@[i]).bindable() by {
                        assert(!(statement@.parameters[i] is Other));
                    }
                }
            }
            return Err(DbError::new(FailureKind::Query, String::from_str(UNBINDABLE)));
        }
        if statement.operation.width() != 0 {
            return Err(DbError::new(FailureKind::Query, String::from_str(MISUSED)));
        }
        match execute(&self.connection, statement.operation.sql(), &statement.parameters) {
            Ok(changed) => {
                proof {
                    self.history@ = self.history@.push(
                        Exchange { statement: statement@, outcome: Outcome::Changed(changed as nat) },
                    );
                    assert(self.history@.drop_last() =~= old(self).history@);
                }
                Ok(changed)
            },
            Err(cause) => {
                let e = failure(Stage::Running, &cause);
                proof {
                    self.history@ = self.history@.push(
                        Exchange {
                            statement: statement@,
                            outcome: Outcome::Failed(e.kind, e.message@),
                        },
                    );
                    assert(self.history@.drop_last() =~= old(self).history@);
                }
                Err(e)
            },
        }
    }

    /// Runs a statement that reads, and hands back its rows, each with as
    /// many values as the statement has columns.
    ///
    /// A statement that holds a value that cannot be bound, or that writes, is
    /// not handed to the database: it fails with `Query`. Any other failure
    /// is the database's.
    pub fn query(&mut self, statement: &Statement) -> (r: Result<Vec<Vec<SqlValue>>, DbError>)
        ensures
            match r {
                Ok(rows) => forall|i: int|
                    0 <= i < rows@.len() ==> (#[trigger] rows@[i])@.len()
                        == statement.operation.columns(),
                Err(e) => statement_failure(e.kind),
            },
            if statement.well_formed() && statement.operation.columns() > 0 {
                exchanged(old(self).history(), final(self).history(), statement@) && match r {
                    Ok(rows) => final(self).history().last().outcome == Outcome::Rows(
                        rows_of(rows@),
                    ),
                    Err(e) => final(self).history().last().outcome == Outcome::Failed(
                        e.kind,
                        e.message@,
                    ),
                }
            } else {
                final(self).history() == old(self).history() && (r matches Err(e) && e.kind
                    == FailureKind::Query && e.message@ == if statement.well_formed() {
                    MISUSED@
                } else {
                    UNBINDABLE@
                })
            },
    {
        if !all_bindable(&statement.parameters) {
            proof {
                if statement.well_formed() {
                    assert forall|i: int| 0 <= i < statement.parameters@.len() implies (
                    #[trigger] statement.parameters@[i]).bindable() by {
                        assert(!(statement@.parameters[i] is Other));
                    }
                }
            }
            return Err(DbError::new(FailureKind::Query, String::from_str(UNBINDABLE)));
        }
        let operation = statement.operation;
        if operation.width() == 0 {
            return Err(DbError::new(FailureKind::Query, String::from_str(MISUSED)));
        }
        match fetch(&self.connection, operation.sql(), &statement.parameters, operation.width()) {
            Ok(rows) => {
                proof {
                    self.history@ = self.history@.push(
                        Exchange { statement: statement@, outcome: Outcome::Rows(rows_of(rows@)) },
                    );
                    assert(self.history@.drop_last() =~= old(self).history@);
                }
                Ok(rows)
            },
            Err(cause) => {
                let e = failure(Stage::Running, &cause);
                proof {
                    self.history@ = self.history@.push(
                        Exchange {
                            statement: statement@,
                            outcome: Outcome::Failed(e.kind, e.message@),
                        },
                    );
                    assert(self.history@.drop_last() =~= old(self).history@);
                }
                Err(e)
            },
        }
    }

    /// Stores a new workspace. Fails with `Conflict` where a workspace with its
    /// identifier is stored already.
    pub fn create_workspace(&mut self, workspace: &Workspace) -> (r: Result<(), DbError>)
        ensures
            exchanged(
                old(self).history(),
                final(self).history(),
                stated(Operation::InsertWorkspace, Workspace::row(workspace@)),
            ),
            settled(final(self).history().last().outcome, r),
    {
        let statement = Statement::insert_workspace(workspace);
        answer_with(self.execute(&statement), ())
    }

    /// Reads every workspace. Fails with `Query` where a row that came back
    /// does not fit a workspace.
    pub fn get_workspaces(&mut self) -> (r: Result<Vec<Workspace>, DbError>)
        ensures
            exchanged(
                old(self).history(),
                final(self).history(),
                stated(Operation::SelectWorkspaces, Seq::<Datum>::empty()),
            ),
            match final(self).history().last().outcome {
                Outcome::Rows(rows) => read_as::<Workspace>(rows, r),
                outcome => failed(outcome, r),
            },
    {
        let statement = Statement::select_workspaces();
        match self.query(&statement) {
            Ok(rows) => read_all(&rows),
            Err(e) => Err(e),
        }
    }

    /// Stores the settings of a workspace in place of any that it had: the
    /// whole record is replaced, nothing is merged.
    pub fn save_workspace_settings(&mut self, settings: &WorkspaceSettings) -> (r: Result<
        (),
        DbError,
    >)
        ensures
            exchanged(
                old(self).history(),
                final(self).history(),
                stated(Operation::ReplaceWorkspaceSettings, settings@.row()),
            ),
            settled(final(self).history().last().outcome, r),
    {
        let statement = Statement::replace_workspace_settings(settings);
        answer_with(self.execute(&statement), ())
    }

    /// Stores a new theme. Fails with `Conflict` where a theme with its
    /// identifier is stored already.
    pub fn create_custom_theme(&mut self, theme: &CustomTheme) -> (r: Result<(), DbError>)
        ensures
            exchanged(
                old(self).history(),
                final(self).history(),
                stated(Operation::InsertCustomTheme, theme@.row()),
            ),
            settled(final(self).history().last().outcome, r),
    {
        let statement = Statement::insert_custom_theme(theme);
        answer_with(self.execute(&statement), ())
    }

    /// Stores a new tab. Fails with `Conflict` where a tab with its identifier
    /// is stored already.
    pub fn create_tab(&mut self, tab: &Tab) -> (r: Result<(), DbError>)
        ensures
            exchanged(
                old(self).history(),
                final(self).history(),
                stated(Operation::InsertTab, Tab::row(tab@)),
            ),
            settled(final(self).history().last().outcome, r),
    {
        let statement = Statement::insert_tab(tab);
        answer_with(self.execute(&statement), ())
    }

    /// Reads the tabs of one workspace, by ascending position; none is no
    /// failure. What the database sends is held to that: every tab handed back
    /// belongs to the workspace, and they come by ascending position. Fails
    /// with `Query` where a row that came back does not fit a tab, belongs to
    /// another workspace or is out of order.
    pub fn get_workspace_tabs(&mut self, workspace_id: &str) -> (r: Result<Vec<Tab>, DbError>)
        ensures
            exchanged(
                old(self).history(),
                final(self).history(),
                stated(Operation::SelectWorkspaceTabs, seq![Datum::Text(workspace_id@)]),
            ),
            match final(self).history().last().outcome {
                Outcome::Rows(rows) => read_tabs_as(rows, workspace_id@, r),
                outcome => failed(outcome, r),
            },
            r matches Ok(read) ==> ascending(read@) && forall|i: int|
                0 <= i < read@.len() ==> (#[trigger] read@[i]@).workspace_id == workspace_id@,
    {
        let statement = Statement::select_workspace_tabs(workspace_id);
        match self.query(&statement) {
            Ok(rows) => read_tabs(&rows, workspace_id),
            Err(e) => Err(e),
        }
    }

    /// Sets whether a tab is in front. An identifier that finds no row is no
    /// failure: the call succeeds and nothing changes.
    pub fn update_tab_active_state(&mut self, tab_id: &str, is_active: bool) -> (r: Result<
        (),
        DbError,
    >)
        ensures
            exchanged(
                old(self).history(),
                final(self).history(),
                stated(Operation::UpdateTabActive, seq![flag_value(is_active), Datum::Text(tab_id@)]),
            ),
            settled(final(self).history().last().outcome, r),
    {
        let statement = Statement::update_tab_active(tab_id, is_active);
        answer_with(self.execute(&statement), ())
    }

    /// Removes a tab. An identifier that finds no row is no failure: the call
    /// succeeds and nothing changes.
    pub fn delete_tab(&mut self, tab_id: &str) -> (r: Result<(), DbError>)
        ensures
            exchanged(
                old(self).history(),
                final(self).history(),
                stated(Operation::DeleteTab, seq![Datum::Text(tab_id@)]),
            ),
            settled(final(self).history().last().outcome, r),
    {
        let statement = Statement::delete_tab(tab_id);
        answer_with(self.execute(&statement), ())
    }

    /// Appends a backup of a workspace under a fresh identifier of the engine's
    /// own making, 36 characters long. The database adds the time. Backups are
    /// never read back or removed here.
    pub fn create_backup(&mut self, workspace_id: &str, data: &str) -> (r: Result<(), DbError>)
        ensures
            ({
                let sent = final(self).history().last().statement.parameters;
                let id = text_in(sent[0])->0;
                &&& id.len() == 36
                &&& exchanged(
                    old(self).history(),
                    final(self).history(),
                    stated(
                        Operation::InsertBackup,
                        seq![Datum::Text(id), Datum::Text(workspace_id@), Datum::Text(data@)],
                    ),
                )
                &&& settled(final(self).history().last().outcome, r)
            }),
    {
        let id = fresh_identifier();
        let statement = Statement::insert_backup(id.as_str(), workspace_id, data);
        answer_with(self.execute(&statement), ())
    }

    /// Stores a new note and hands it back as stored: both times are the
    /// clock's reading, whatever the caller gave. Fails with `Conflict` where a
    /// note with its identifier is stored already.
    pub fn create_note(&mut self, note: &Note) -> (r: Result<Note, DbError>)
        ensures
            ({
                let sent = final(self).history().last().statement.parameters;
                let now = text_in(sent[4])->0;
                let stored = NoteView { created_at: now, updated_at: now, ..note@ };
                &&& now.len() > 0
                &&& exchanged(
                    old(self).history(),
                    final(self).history(),
                    stated(Operation::InsertNote, Note::row(stored)),
                )
                &&& settled(final(self).history().last().outcome, r)
                &&& (r matches Ok(record) ==> record@ == stored)
            }),
    {
        let now = timestamp();
        let stored = note.created(now.as_str());
        let statement = Statement::insert_note(&stored);
        let outcome = self.execute(&statement);
        answer_with(outcome, stored)
    }

    /// Reads the notes of one project; none is no failure. A note stays
    /// readable after its project is removed. Every note handed back belongs to
    /// the project: a row that came back for another fails the call with
    /// `Query`, as does one that does not fit a note.
    pub fn get_notes(&mut self, project_id: &str) -> (r: Result<Vec<Note>, DbError>)
        ensures
            exchanged(
                old(self).history(),
                final(self).history(),
                stated(Operation::SelectNotes, seq![Datum::Text(project_id@)]),
            ),
            match final(self).history().last().outcome {
                Outcome::Rows(rows) => read_owned_as::<Note>(rows, project_id@, r),
                outcome => failed(outcome, r),
            },
            r matches Ok(read) ==> forall|i: int|
                0 <= i < read@.len() ==> (#[trigger] read@[i]@).project_id == project_id@,
    {
        let statement = Statement::select_notes(project_id);
        match self.query(&statement) {
            Ok(rows) => read_owned(&rows, project_id),
            Err(e) => Err(e),
        }
    }

    /// Rewrites the title, content and pin of the note with this identifier and
    /// sets its time of last change to the clock's reading. Hands back the note
    /// as given, with that time. An identifier that finds no row is no failure:
    /// the call succeeds and nothing changes.
    pub fn update_note(&mut self, note: &Note) -> (r: Result<Note, DbError>)
        ensures
            ({
                let sent = final(self).history().last().statement.parameters;
                let now = text_in(sent[3])->0;
                let stored = NoteView { updated_at: now, ..note@ };
                &&& now.len() > 0
                &&& exchanged(
                    old(self).history(),
                    final(self).history(),
                    stated(Operation::UpdateNote, note_changes(stored)),
                )
                &&& settled(final(self).history().last().outcome, r)
                &&& (r matches Ok(record) ==> record@ == stored)
            }),
    {
        let now = timestamp();
        let stored = note.updated(now.as_str());
        let statement = Statement::update_note(&stored);
        let outcome = self.execute(&statement);
        answer_with(outcome, stored)
    }

    /// Removes a note. Its tasks and attachments stay. An identifier that finds
    /// no row is no failure: the call succeeds and nothing changes.
    pub fn delete_note(&mut self, id: &str) -> (r: Result<(), DbError>)
        ensures
            exchanged(
                old(self).history(),
                final(self).history(),
                stated(Operation::DeleteNote, seq![Datum::Text(id@)]),
            ),
            settled(final(self).history().last().outcome, r),
    {
        let statement = Statement::delete_note(id);
        answer_with(self.execute(&statement), ())
    }

    /// Stores a new project and hands it back as stored: both times are the
    /// clock's reading, whatever the caller gave. Fails with `Conflict` where a
    /// project with its identifier is stored already.
    pub fn create_project(&mut self, project: &Project) -> (r: Result<Project, DbError>)
        ensures
            ({
                let sent = final(self).history().last().statement.parameters;
                let now = text_in(sent[2])->0;
                let stored = ProjectView { created_at: now, updated_at: now, ..project@ };
                &&& now.len() > 0
                &&& exchanged(
                    old(self).history(),
                    final(self).history(),
                    stated(Operation::InsertProject, Project::row(stored)),
                )
                &&& settled(final(self).history().last().outcome, r)
                &&& (r matches Ok(record) ==> record@ == stored)
            }),
    {
        let now = timestamp();
        let stored = project.created(now.as_str());
        let statement = Statement::insert_project(&stored);
        let outcome = self.execute(&statement);
        answer_with(outcome, stored)
    }

    /// Reads every project.
    pub fn get_projects(&mut self) -> (r: Result<Vec<Project>, DbError>)
        ensures
            exchanged(
                old(self).history(),
                final(self).history(),
                stated(Operation::SelectProjects, Seq::<Datum>::empty()),
            ),
            match final(self).history().last().outcome {
                Outcome::Rows(rows) => read_as::<Project>(rows, r),
                outcome => failed(outcome, r),
            },
    {
        let statement = Statement::select_projects();
        match self.query(&statement) {
            Ok(rows) => read_all(&rows),
            Err(e) => Err(e),
        }
    }

    /// Rewrites the name of the project with this identifier and sets its time
    /// of last change to the clock's reading. Hands back the project as given,
    /// with that time. An identifier that finds no row is no failure: the call
    /// succeeds and nothing changes.
    pub fn update_project(&mut self, project: &Project) -> (r: Result<Project, DbError>)
        ensures
            ({
                let sent = final(self).history().last().statement.parameters;
                let now = text_in(sent[1])->0;
                let stored = ProjectView { updated_at: now, ..project@ };
                &&& now.len() > 0
                &&& exchanged(
                    old(self).history(),
                    final(self).history(),
                    stated(Operation::UpdateProject, project_changes(stored)),
                )
                &&& settled(final(self).history().last().outcome, r)
                &&& (r matches Ok(record) ==> record@ == stored)
            }),
    {
        let now = timestamp();
        let stored = project.updated(now.as_str());
        let statement = Statement::update_project(&stored);
        let outcome = self.execute(&statement);
        answer_with(outcome, stored)
    }

    /// Removes a project. Its notes stay. An identifier that finds no row is no
    /// failure: the call succeeds and nothing changes.
    pub fn delete_project(&mut self, id: &str) -> (r: Result<(), DbError>)
        ensures
            exchanged(
                old(self).history(),
                final(self).history(),
                stated(Operation::DeleteProject, seq![Datum::Text(id@)]),
            ),
            settled(final(self).history().last().outcome, r),
    {
        let statement = Statement::delete_project(id);
        answer_with(self.execute(&statement), ())
    }

    /// Stores a new tag and hands it back as stored: its time of creation is
    /// the clock's reading, whatever the caller gave. Fails with `Conflict`
    /// where a tag with its identifier is stored already.
    pub fn create_tag(&mut self, tag: &Tag) -> (r: Result<Tag, DbError>)
        ensures
            ({
                let sent = final(self).history().last().statement.parameters;
                let now = text_in(sent[2])->0;
                let stored = TagView { created_at: now, ..tag@ };
                &&& now.len() > 0
                &&& exchanged(
                    old(self).history(),
                    final(self).history(),
                    stated(Operation::InsertTag, Tag::row(stored)),
                )
                &&& settled(final(self).history().last().outcome, r)
                &&& (r matches Ok(record) ==> record@ == stored)
            }),
    {
        let now = timestamp();
        let stored = tag.created(now.as_str());
        let statement = Statement::insert_tag(&stored);
        let outcome = self.execute(&statement);
        answer_with(outcome, stored)
    }

    /// Reads every tag.
    pub fn get_tags(&mut self) -> (r: Result<Vec<Tag>, DbError>)
        ensures
            exchanged(
                old(self).history(),
                final(self).history(),
                stated(Operation::SelectTags, Seq::<Datum>::empty()),
            ),
            match final(self).history().last().outcome {
                Outcome::Rows(rows) => read_as::<Tag>(rows, r),
                outcome => failed(outcome, r),
            },
    {
        let statement = Statement::select_tags();
        match self.query(&statement) {
            Ok(rows) => read_all(&rows),
            Err(e) => Err(e),
        }
    }

    /// Removes a tag. Its attachments stay. An identifier that finds no row is
    /// no failure: the call succeeds and nothing changes.
    pub fn delete_tag(&mut self, id: &str) -> (r: Result<(), DbError>)
        ensures
            exchanged(
                old(self).history(),
                final(self).history(),
                stated(Operation::DeleteTag, seq![Datum::Text(id@)]),
            ),
            settled(final(self).history().last().outcome, r),
    {
        let statement = Statement::delete_tag(id);
        answer_with(self.execute(&statement), ())
    }

    /// Stores a new task and hands it back as stored: both times are the
    /// clock's reading, whatever the caller gave. Fails with `Conflict` where a
    /// task with its identifier is stored already.
    pub fn create_task(&mut self, task: &Task) -> (r: Result<Task, DbError>)
        ensures
            ({
                let sent = final(self).history().last().statement.parameters;
                let now = text_in(sent[4])->0;
                let stored = TaskView { created_at: now, updated_at: now, ..task@ };
                &&& now.len() > 0
                &&& exchanged(
                    old(self).history(),
                    final(self).history(),
                    stated(Operation::InsertTask, Task::row(stored)),
                )
                &&& settled(final(self).history().last().outcome, r)
                &&& (r matches Ok(record) ==> record@ == stored)
            }),
    {
        let now = timestamp();
        let stored = task.created(now.as_str());
        let statement = Statement::insert_task(&stored);
        let outcome = self.execute(&statement);
        answer_with(outcome, stored)
    }

    /// Reads the tasks of one note; none is no failure. Every task handed back
    /// belongs to the note: a row that came back for another fails the call
    /// with `Query`, as does one that does not fit a task.
    pub fn get_tasks(&mut self, note_id: &str) -> (r: Result<Vec<Task>, DbError>)
        ensures
            exchanged(
                old(self).history(),
                final(self).history(),
                stated(Operation::SelectTasks, seq![Datum::Text(note_id@)]),
            ),
            match final(self).history().last().outcome {
                Outcome::Rows(rows) => read_owned_as::<Task>(rows, note_id@, r),
                outcome => failed(outcome, r),
            },
            r matches Ok(read) ==> forall|i: int|
                0 <= i < read@.len() ==> (#[trigger] read@[i]@).note_id == note_id@,
    {
        let statement = Statement::select_tasks(note_id);
        match self.query(&statement) {
            Ok(rows) => read_owned(&rows, note_id),
            Err(e) => Err(e),
        }
    }

    /// Rewrites the text and completion of the task with this identifier and
    /// sets its time of last change to the clock's reading. Hands back the task
    /// as given, with that time. An identifier that finds no row is no failure:
    /// the call succeeds and nothing changes.
    pub fn update_task(&mut self, task: &Task) -> (r: Result<Task, DbError>)
        ensures
            ({
                let sent = final(self).history().last().statement.parameters;
                let now = text_in(sent[2])->0;
                let stored = TaskView { updated_at: now, ..task@ };
                &&& now.len() > 0
                &&& exchanged(
                    old(self).history(),
                    final(self).history(),
                    stated(Operation::UpdateTask, task_changes(stored)),
                )
                &&& settled(final(self).history().last().outcome, r)
                &&& (r matches Ok(record) ==> record@ == stored)
            }),
    {
        let now = timestamp();
        let stored = task.updated(now.as_str());
        let statement = Statement::update_task(&stored);
        let outcome = self.execute(&statement);
        answer_with(outcome, stored)
    }

    /// Removes a task. An identifier that finds no row is no failure: the call
    /// succeeds and nothing changes.
    pub fn delete_task(&mut self, id: &str) -> (r: Result<(), DbError>)
        ensures
            exchanged(
                old(self).history(),
                final(self).history(),
                stated(Operation::DeleteTask, seq![Datum::Text(id@)]),
            ),
            settled(final(self).history().last().outcome, r),
    {
        let statement = Statement::delete_task(id);
        answer_with(self.execute(&statement), ())
    }

    /// Attaches a tag to a note. Nothing checks that either exists or that the
    /// tag is not attached already: a second attachment is a second row.
    pub fn add_tag_to_note(&mut self, note_id: &str, tag_id: &str) -> (r: Result<(), DbError>)
        ensures
            exchanged(
                old(self).history(),
                final(self).history(),
                stated(Operation::InsertNoteTag, (NoteTagView { note_id: note_id@, tag_id: tag_id@ }).row()),
            ),
            settled(final(self).history().last().outcome, r),
    {
        let statement = Statement::insert_note_tag(note_id, tag_id);
        answer_with(self.execute(&statement), ())
    }

    /// Removes every attachment of the tag to the note; none is no failure.
    pub fn remove_tag_from_note(&mut self, note_id: &str, tag_id: &str) -> (r: Result<(), DbError>)
        ensures
            exchanged(
                old(self).history(),
                final(self).history(),
                stated(Operation::DeleteNoteTag, (NoteTagView { note_id: note_id@, tag_id: tag_id@ }).row()),
            ),
            settled(final(self).history().last().outcome, r),
    {
        let statement = Statement::delete_note_tag(note_id, tag_id);
        answer_with(self.execute(&statement), ())
    }

    /// Reads the tags attached to a note: each stored tag once for each of its
    /// attachments to the note.
    pub fn get_note_tags(&mut self, note_id: &str) -> (r: Result<Vec<Tag>, DbError>)
        ensures
            exchanged(
                old(self).history(),
                final(self).history(),
                stated(Operation::SelectNoteTags, seq![Datum::Text(note_id@)]),
            ),
            match final(self).history().last().outcome {
                Outcome::Rows(rows) => read_as::<Tag>(rows, r),
                outcome => failed(outcome, r),
            },
    {
        let statement = Statement::select_note_tags(note_id);
        match self.query(&statement) {
            Ok(rows) => read_all(&rows),
            Err(e) => Err(e),
        }
    }
}

} // verus!
