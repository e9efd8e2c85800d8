//! The tables of the store and the statements that the engine runs on them.

use vstd::prelude::*;
use crate::value::Datum;

verus! {

/// A table of the store.
#[derive(Clone, Copy, Debug, PartialEq, Eq, Structural)]
pub enum Table {
    /// `workspaces`: id, name, type, theme_id.
    Workspaces,
    /// `workspace_settings`: workspace_id, dark_mode, split_view,
    /// privacy_level, auto_save.
    WorkspaceSettings,
    /// `custom_themes`: id, name, type and six colours.
    CustomThemes,
    /// `tabs`: id, workspace_id, title, content, type, position, is_active.
    Tabs,
    /// `backups`: id, workspace_id, data; the database adds the time.
    Backups,
    /// `projects`: id, name, created_at, updated_at.
    Projects,
    /// `notes`: id, title, content, project_id, created_at, updated_at,
    /// is_pinned.
    Notes,
    /// `tags`: id, name, created_at.
    Tags,
    /// `tasks`: id, content, completed, note_id, created_at, updated_at.
    Tasks,
    /// `note_tags`: note_id, tag_id.
    NoteTags,
}

/// What a column holds in every row.
pub enum Kind {
    /// A text.
    Text,
    /// A text or nothing.
    OptionalText,
    /// A truth value, stored as the integer 1 or 0.
    Flag,
    /// A whole number of 32 bits.
    Number,
}

impl Kind {
    /// True where a column of this kind can hold the value.
    pub open spec fn admits(self, value: Datum) -> bool {
        match self {
            Kind::Text => value is Text,
            Kind::OptionalText => value is Text || value is Null,
            Kind::Flag => value == Datum::Integer(0) || value == Datum::Integer(1),
            Kind::Number => value matches Datum::Integer(n) && i32::MIN <= n <= i32::MAX,
        }
    }
}

impl Table {
    /// True of the tables whose first column is a primary key: all but
    /// `note_tags`, which may hold the same pair twice.
    pub open spec fn keyed(self) -> bool {
        self != Table::NoteTags
    }

    /// The kinds of the columns that the engine writes, in their order. The
    /// first column of a keyed table is its key.
    pub open spec fn layout(self) -> Seq<Kind> {
        match self {
            Table::Workspaces => seq![Kind::Text, Kind::Text, Kind::Text, Kind::Text],
            Table::WorkspaceSettings => seq![
                Kind::Text,
                Kind::Flag,
                Kind::Flag,
                Kind::Text,
                Kind::Flag,
            ],
            Table::CustomThemes => seq![
                Kind::Text,
                Kind::Text,
                Kind::Text,
                Kind::Text,
                Kind::Text,
                Kind::Text,
                Kind::Text,
                Kind::Text,
                Kind::Text,
            ],
            Table::Tabs => seq![
                Kind::Text,
                Kind::Text,
                Kind::Text,
                Kind::OptionalText,
                Kind::Text,
                Kind::Number,
                Kind::Flag,
            ],
            Table::Backups => seq![Kind::Text, Kind::Text, Kind::Text],
            Table::Projects => seq![Kind::Text, Kind::Text, Kind::Text, Kind::Text],
            Table::Notes => seq![
                Kind::Text,
                Kind::Text,
                Kind::Text,
                Kind::Text,
                Kind::Text,
                Kind::Text,
                Kind::Flag,
            ],
            Table::Tags => seq![Kind::Text, Kind::Text, Kind::Text],
            Table::Tasks => seq![
                Kind::Text,
                Kind::Text,
                Kind::Flag,
                Kind::Text,
                Kind::Text,
                Kind::Text,
            ],
            Table::NoteTags => seq![Kind::Text, Kind::Text],
        }
    }

    /// True of the rows that the table can hold: one value of the right kind
    /// for each column.
    pub open spec fn holds(self, row: Seq<Datum>) -> bool {
        row.len() == self.layout().len() && forall|c: int|
            0 <= c < row.len() ==> (#[trigger] self.layout()[c]).admits(row[c])
    }
}

/// What a statement does, apart from the values bound to it.
pub enum Shape {
    /// Adds the row made of the parameters. A keyed table refuses a row whose
    /// key it already holds.
    Insert { table: Table },
    /// Adds the row made of the parameters in place of any row with its key.
    Replace { table: Table },
    /// In every row whose key is the parameter numbered `key`, gives each
    /// column that `assignments` names the parameter whose number it names.
    /// The other columns stay.
    Update { table: Table, assignments: Map<int, int>, key: int },
    /// Removes every row whose key is the one parameter.
    Delete { table: Table },
    /// Removes every attachment of the tag (second parameter) to the note
    /// (first parameter).
    Detach,
    /// Reads every row of a table.
    All { table: Table },
    /// Reads the rows whose given column equals the one parameter; where
    /// `ordered`, by ascending position.
    Owned { table: Table, column: int, ordered: bool },
    /// Reads the tag rows attached to the note that is the one parameter.
    TagsOf,
    /// Lays out every table that is missing. A table that is there stays as
    /// it is, with its rows. Nothing is bound.
    LayOut,
}

/// The text of the batch that lays out the store. Each statement creates its
/// table only where the database has none of that name, so the batch can run
/// again on a database that it has laid out before.
pub const SCHEMA: &'static str = "\
    CREATE TABLE IF NOT EXISTS workspaces (id TEXT PRIMARY KEY, name TEXT NOT NULL, type TEXT NOT NULL, theme_id TEXT NOT NULL); \
    CREATE TABLE IF NOT EXISTS workspace_settings (workspace_id TEXT PRIMARY KEY, dark_mode INTEGER NOT NULL, split_view INTEGER NOT NULL, privacy_level TEXT NOT NULL, auto_save INTEGER NOT NULL); \
    CREATE TABLE IF NOT EXISTS custom_themes (id TEXT PRIMARY KEY, name TEXT NOT NULL, type TEXT NOT NULL, primary_color TEXT NOT NULL, secondary_color TEXT NOT NULL, background_color TEXT NOT NULL, surface_color TEXT NOT NULL, text_color TEXT NOT NULL, accent_color TEXT NOT NULL); \
    CREATE TABLE IF NOT EXISTS tabs (id TEXT PRIMARY KEY, workspace_id TEXT NOT NULL, title TEXT NOT NULL, content TEXT, type TEXT NOT NULL, position INTEGER NOT NULL, is_active INTEGER NOT NULL); \
    CREATE TABLE IF NOT EXISTS backups (id TEXT PRIMARY KEY, workspace_id TEXT NOT NULL, data TEXT NOT NULL, created_at TEXT NOT NULL DEFAULT CURRENT_TIMESTAMP); \
    CREATE TABLE IF NOT EXISTS projects (id TEXT PRIMARY KEY, name TEXT NOT NULL, created_at TEXT NOT NULL, updated_at TEXT NOT NULL); \
    CREATE TABLE IF NOT EXISTS notes (id TEXT PRIMARY KEY, title TEXT NOT NULL, content TEXT NOT NULL, project_id TEXT NOT NULL, created_at TEXT NOT NULL, updated_at TEXT NOT NULL, is_pinned INTEGER NOT NULL); \
    CREATE TABLE IF NOT EXISTS tags (id TEXT PRIMARY KEY, name TEXT NOT NULL, created_at TEXT NOT NULL); \
    CREATE TABLE IF NOT EXISTS tasks (id TEXT PRIMARY KEY, content TEXT NOT NULL, completed INTEGER NOT NULL, note_id TEXT NOT NULL, created_at TEXT NOT NULL, updated_at TEXT NOT NULL); \
    CREATE TABLE IF NOT EXISTS note_tags (note_id TEXT NOT NULL, tag_id TEXT NOT NULL);";

/// The name of the database file within the directory that the engine is given.
pub const DATABASE_FILE: &'static str = "app.db";

/// Stores one workspace.
pub const INSERT_WORKSPACE: &'static str = "\
    INSERT INTO workspaces (id, name, type, theme_id) VALUES (?1, ?2, ?3, ?4)";

/// Reads every workspace.
pub const SELECT_WORKSPACES: &'static str = "SELECT id, name, type, theme_id FROM workspaces";

/// Stores the settings of one workspace in place of any it had.
pub const REPLACE_WORKSPACE_SETTINGS: &'static str = "\
    INSERT OR REPLACE INTO workspace_settings (workspace_id, dark_mode, split_view, \
    privacy_level, auto_save) VALUES (?1, ?2, ?3, ?4, ?5)";

/// Stores one theme.
pub const INSERT_CUSTOM_THEME: &'static str = "\
    INSERT INTO custom_themes (id, name, type, primary_color, secondary_color, \
    background_color, surface_color, text_color, accent_color) VALUES (?1, ?2, ?3, ?4, ?5, ?6, \
    ?7, ?8, ?9)";

/// Stores one tab.
pub const INSERT_TAB: &'static str = "\
    INSERT INTO tabs (id, workspace_id, title, content, type, position, is_active) VALUES (?1, \
    ?2, ?3, ?4, ?5, ?6, ?7)";

/// Reads the tabs of one workspace, by ascending position.
pub const SELECT_WORKSPACE_TABS: &'static str = "\
    SELECT id, workspace_id, title, content, type, position, is_active FROM tabs WHERE \
    workspace_id = ?1 ORDER BY position";

/// Sets whether one tab is in front.
pub const UPDATE_TAB_ACTIVE: &'static str = "UPDATE tabs SET is_active = ?1 WHERE id = ?2";

/// Removes one tab.
pub const DELETE_TAB: &'static str = "DELETE FROM tabs WHERE id = ?1";

/// Appends one backup.
pub const INSERT_BACKUP: &'static str = "\
    INSERT INTO backups (id, workspace_id, data) VALUES (?1, ?2, ?3)";

/// Stores one note.
pub const INSERT_NOTE: &'static str = "\
    INSERT INTO notes (id, title, content, project_id, created_at, updated_at, is_pinned) \
    VALUES (?1, ?2, ?3, ?4, ?5, ?6, ?7)";

/// Reads the notes of one project.
pub const SELECT_NOTES: &'static str = "\
    SELECT id, title, content, project_id, created_at, updated_at, is_pinned FROM notes WHERE \
    project_id = ?1";

/// Rewrites the title, the content, the pin and the time of last change of one
/// note.
pub const UPDATE_NOTE: &'static str = "\
    UPDATE notes SET title = ?1, content = ?2, is_pinned = ?3, updated_at = ?4 WHERE id = ?5";

/// Removes one note.
pub const DELETE_NOTE: &'static str = "DELETE FROM notes WHERE id = ?1";

/// Stores one project.
pub const INSERT_PROJECT: &'static str = "\
    INSERT INTO projects (id, name, created_at, updated_at) VALUES (?1, ?2, ?3, ?4)";

/// Reads every project.
pub const SELECT_PROJECTS: &'static str = "SELECT id, name, created_at, updated_at FROM projects";

/// Rewrites the name and the time of last change of one project.
pub const UPDATE_PROJECT: &'static str = "\
    UPDATE projects SET name = ?1, updated_at = ?2 WHERE id = ?3";

/// Removes one project.
pub const DELETE_PROJECT: &'static str = "DELETE FROM projects WHERE id = ?1";

/// Stores one tag.
pub const INSERT_TAG: &'static str = "INSERT INTO tags (id, name, created_at) VALUES (?1, ?2, ?3)";

/// Reads every tag.
pub const SELECT_TAGS: &'static str = "SELECT id, name, created_at FROM tags";

/// Removes one tag.
pub const DELETE_TAG: &'static str = "DELETE FROM tags WHERE id = ?1";

/// Stores one task.
pub const INSERT_TASK: &'static str = "\
    INSERT INTO tasks (id, content, completed, note_id, created_at, updated_at) VALUES (?1, \
    ?2, ?3, ?4, ?5, ?6)";

/// Reads the tasks of one note.
pub const SELECT_TASKS: &'static str = "\
    SELECT id, content, completed, note_id, created_at, updated_at FROM tasks WHERE note_id = \
    ?1";

/// Rewrites the text, the completion and the time of last change of one task.
pub const UPDATE_TASK: &'static str = "\
    UPDATE tasks SET content = ?1, completed = ?2, updated_at = ?3 WHERE id = ?4";

/// Removes one task.
pub const DELETE_TASK: &'static str = "DELETE FROM tasks WHERE id = ?1";

/// Attaches a tag to a note once more.
pub const INSERT_NOTE_TAG: &'static str = "INSERT INTO note_tags (note_id, tag_id) VALUES (?1, ?2)";

/// Removes every attachment of one tag to one note.
pub const DELETE_NOTE_TAG: &'static str = "\
    DELETE FROM note_tags WHERE note_id = ?1 AND tag_id = ?2";

/// Reads the tags attached to one note, once for each attachment.
pub const SELECT_NOTE_TAGS: &'static str = "\
    SELECT t.id, t.name, t.created_at FROM tags t INNER JOIN note_tags nt ON t.id = nt.tag_id \
    WHERE nt.note_id = ?1";

/// A statement of the engine, apart from the values bound to it, or the batch
/// that lays out the tables.
#[derive(Clone, Copy, Debug, PartialEq, Eq, Structural)]
pub enum Operation {
    /// Stores one workspace.
    InsertWorkspace,
    /// Reads every workspace.
    SelectWorkspaces,
    /// Stores the settings of one workspace in place of any it had.
    ReplaceWorkspaceSettings,
    /// Stores one theme.
    InsertCustomTheme,
    /// Stores one tab.
    InsertTab,
    /// Reads the tabs of one workspace, by ascending position.
    SelectWorkspaceTabs,
    /// Sets whether one tab is in front.
    UpdateTabActive,
    /// Removes one tab.
    DeleteTab,
    /// Appends one backup.
    InsertBackup,
    /// Stores one note.
    InsertNote,
    /// Reads the notes of one project.
    SelectNotes,
    /// Rewrites the title, the content, the pin and the time of last change of
    /// one note.
    UpdateNote,
    /// Removes one note.
    DeleteNote,
    /// Stores one project.
    InsertProject,
    /// Reads every project.
    SelectProjects,
    /// Rewrites the name and the time of last change of one project.
    UpdateProject,
    /// Removes one project.
    DeleteProject,
    /// Stores one tag.
    InsertTag,
    /// Reads every tag.
    SelectTags,
    /// Removes one tag.
    DeleteTag,
    /// Stores one task.
    InsertTask,
    /// Reads the tasks of one note.
    SelectTasks,
    /// Rewrites the text, the completion and the time of last change of one task.
    UpdateTask,
    /// Removes one task.
    DeleteTask,
    /// Attaches a tag to a note once more.
    InsertNoteTag,
    /// Removes every attachment of one tag to one note.
    DeleteNoteTag,
    /// Reads the tags attached to one note, once for each attachment.
    SelectNoteTags,
    /// Lays out the tables that are missing: the batch [`SCHEMA`].
    LayOut,
}

impl Operation {
    /// The text of the statement, as the database is given it.
    pub open spec fn sql_text(self) -> Seq<char> {
        match self {
            Operation::InsertWorkspace => INSERT_WORKSPACE@,
            Operation::SelectWorkspaces => SELECT_WORKSPACES@,
            Operation::ReplaceWorkspaceSettings => REPLACE_WORKSPACE_SETTINGS@,
            Operation::InsertCustomTheme => INSERT_CUSTOM_THEME@,
            Operation::InsertTab => INSERT_TAB@,
            Operation::SelectWorkspaceTabs => SELECT_WORKSPACE_TABS@,
            Operation::UpdateTabActive => UPDATE_TAB_ACTIVE@,
            Operation::DeleteTab => DELETE_TAB@,
            Operation::InsertBackup => INSERT_BACKUP@,
            Operation::InsertNote => INSERT_NOTE@,
            Operation::SelectNotes => SELECT_NOTES@,
            Operation::UpdateNote => UPDATE_NOTE@,
            Operation::DeleteNote => DELETE_NOTE@,
            Operation::InsertProject => INSERT_PROJECT@,
            Operation::SelectProjects => SELECT_PROJECTS@,
            Operation::UpdateProject => UPDATE_PROJECT@,
            Operation::DeleteProject => DELETE_PROJECT@,
            Operation::InsertTag => INSERT_TAG@,
            Operation::SelectTags => SELECT_TAGS@,
            Operation::DeleteTag => DELETE_TAG@,
            Operation::InsertTask => INSERT_TASK@,
            Operation::SelectTasks => SELECT_TASKS@,
            Operation::UpdateTask => UPDATE_TASK@,
            Operation::DeleteTask => DELETE_TASK@,
            Operation::InsertNoteTag => INSERT_NOTE_TAG@,
            Operation::DeleteNoteTag => DELETE_NOTE_TAG@,
            Operation::SelectNoteTags => SELECT_NOTE_TAGS@,
            Operation::LayOut => SCHEMA@,
        }
    }

    /// The number of columns in each row that the statement hands back: 0 for
    /// a statement that only writes.
    pub open spec fn columns(self) -> nat {
        match self {
            Operation::SelectWorkspaces => 4,
            Operation::SelectWorkspaceTabs => 7,
            Operation::SelectNotes => 7,
            Operation::SelectProjects => 4,
            Operation::SelectTags => 3,
            Operation::SelectTasks => 6,
            Operation::SelectNoteTags => 3,
            _ => 0,
        }
    }

    /// What the statement does to the store, or reads from it.
    pub open spec fn shape(self) -> Shape {
        match self {
            Operation::InsertWorkspace => Shape::Insert { table: Table::Workspaces },
            Operation::SelectWorkspaces => Shape::All { table: Table::Workspaces },
            Operation::ReplaceWorkspaceSettings => Shape::Replace { table: Table::WorkspaceSettings },
            Operation::InsertCustomTheme => Shape::Insert { table: Table::CustomThemes },
            Operation::InsertTab => Shape::Insert { table: Table::Tabs },
            Operation::SelectWorkspaceTabs => Shape::Owned { table: Table::Tabs, column: 1, ordered: true },
            Operation::UpdateTabActive => Shape::Update { table: Table::Tabs, assignments: map![6int => 0int], key: 1 },
            Operation::DeleteTab => Shape::Delete { table: Table::Tabs },
            Operation::InsertBackup => Shape::Insert { table: Table::Backups },
            Operation::InsertNote => Shape::Insert { table: Table::Notes },
            Operation::SelectNotes => Shape::Owned { table: Table::Notes, column: 3, ordered: false },
            Operation::UpdateNote => Shape::Update {
                table: Table::Notes,
                assignments: map![1int => 0int, 2int => 1int, 6int => 2int, 5int => 3int],
                key: 4,
            },
            Operation::DeleteNote => Shape::Delete { table: Table::Notes },
            Operation::InsertProject => Shape::Insert { table: Table::Projects },
            Operation::SelectProjects => Shape::All { table: Table::Projects },
            Operation::UpdateProject => Shape::Update {
                table: Table::Projects,
                assignments: map![1int => 0int, 3int => 1int],
                key: 2,
            },
            Operation::DeleteProject => Shape::Delete { table: Table::Projects },
            Operation::InsertTag => Shape::Insert { table: Table::Tags },
            Operation::SelectTags => Shape::All { table: Table::Tags },
            Operation::DeleteTag => Shape::Delete { table: Table::Tags },
            Operation::InsertTask => Shape::Insert { table: Table::Tasks },
            Operation::SelectTasks => Shape::Owned { table: Table::Tasks, column: 3, ordered: false },
            Operation::UpdateTask => Shape::Update {
                table: Table::Tasks,
                assignments: map![1int => 0int, 2int => 1int, 5int => 2int],
                key: 3,
            },
            Operation::DeleteTask => Shape::Delete { table: Table::Tasks },
            Operation::InsertNoteTag => Shape::Insert { table: Table::NoteTags },
            Operation::DeleteNoteTag => Shape::Detach,
            Operation::SelectNoteTags => Shape::TagsOf,
            Operation::LayOut => Shape::LayOut,
        }
    }

    /// The text of the statement.
    pub fn sql(self) -> (text: &'static str)
        ensures
            text@ == self.sql_text(),
    {
        match self {
            Operation::InsertWorkspace => INSERT_WORKSPACE,
            Operation::SelectWorkspaces => SELECT_WORKSPACES,
            Operation::ReplaceWorkspaceSettings => REPLACE_WORKSPACE_SETTINGS,
            Operation::InsertCustomTheme => INSERT_CUSTOM_THEME,
            Operation::InsertTab => INSERT_TAB,
            Operation::SelectWorkspaceTabs => SELECT_WORKSPACE_TABS,
            Operation::UpdateTabActive => UPDATE_TAB_ACTIVE,
            Operation::DeleteTab => DELETE_TAB,
            Operation::InsertBackup => INSERT_BACKUP,
            Operation::InsertNote => INSERT_NOTE,
            Operation::SelectNotes => SELECT_NOTES,
            Operation::UpdateNote => UPDATE_NOTE,
            Operation::DeleteNote => DELETE_NOTE,
            Operation::InsertProject => INSERT_PROJECT,
            Operation::SelectProjects => SELECT_PROJECTS,
            Operation::UpdateProject => UPDATE_PROJECT,
            Operation::DeleteProject => DELETE_PROJECT,
            Operation::InsertTag => INSERT_TAG,
            Operation::SelectTags => SELECT_TAGS,
            Operation::DeleteTag => DELETE_TAG,
            Operation::InsertTask => INSERT_TASK,
            Operation::SelectTasks => SELECT_TASKS,
            Operation::UpdateTask => UPDATE_TASK,
            Operation::DeleteTask => DELETE_TASK,
            Operation::InsertNoteTag => INSERT_NOTE_TAG,
            Operation::DeleteNoteTag => DELETE_NOTE_TAG,
            Operation::SelectNoteTags => SELECT_NOTE_TAGS,
            Operation::LayOut => SCHEMA,
        }
    }

    /// The number of columns in each row that the statement hands back.
    pub fn width(self) -> (n: usize)
        ensures
            n == self.columns(),
    {
        match self {
            Operation::SelectWorkspaces => 4,
            Operation::SelectWorkspaceTabs => 7,
            Operation::SelectNotes => 7,
            Operation::SelectProjects => 4,
            Operation::SelectTags => 3,
            Operation::SelectTasks => 6,
            Operation::SelectNoteTags => 3,
            _ => 0,
        }
    }
}

} // verus!
