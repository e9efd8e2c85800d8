//! The statements that the engine hands to the database: for each operation
//! of the store, the statement's kind and the values bound to it.

use vstd::prelude::*;
use crate::codec::{bindable, Record, Row};
use crate::entity::{
    CustomTheme, Note, NoteTagView, NoteView, Project, ProjectView, Tab, Tag, Task, TaskView,
    Workspace, WorkspaceSettings,
};
use crate::model::fits;
use crate::schema::Operation;
use crate::value::{flag_value, Datum, SqlValue};

verus! {

/// A statement ready to run: what it does and the values bound to its
/// placeholders, in order. Each statement that the functions below build is
/// one that `model` gives a meaning to.
#[derive(Clone, Debug, PartialEq, Eq)]
pub struct Statement {
    /// The kind of statement, which fixes its text.
    pub operation: Operation,
    /// The values bound to `?1`, `?2` and so on.
    pub parameters: Vec<SqlValue>,
}

/// A [`Statement`] as mathematics.
pub struct StatementView {
    pub operation: Operation,
    pub parameters: Row,
}

impl View for Statement {
    type V = StatementView;

    open spec fn view(&self) -> StatementView {
        StatementView { operation: self.operation, parameters: self.parameters.deep_view() }
    }
}

/// The statement of the given kind with the given values.
pub open spec fn stated(operation: Operation, parameters: Row) -> StatementView {
    StatementView { operation, parameters }
}

/// The statement with one text bound to it.
pub open spec fn about(operation: Operation, key: Seq<char>) -> StatementView {
    StatementView { operation, parameters: seq![Datum::Text(key)] }
}

/// The values that rewrite a note: its title, content, pin and time of last
/// change, then the identifier that finds it.
pub open spec fn note_changes(v: NoteView) -> Row {
    seq![
        Datum::Text(v.title),
        Datum::Text(v.content),
        flag_value(v.is_pinned),
        Datum::Text(v.updated_at),
        Datum::Text(v.id),
    ]
}

/// The values that rewrite a project: its name and time of last change, then
/// the identifier that finds it.
pub open spec fn project_changes(v: ProjectView) -> Row {
    seq![Datum::Text(v.name), Datum::Text(v.updated_at), Datum::Text(v.id)]
}

/// The values that rewrite a task: its text, completion and time of last
/// change, then the identifier that finds it.
pub open spec fn task_changes(v: TaskView) -> Row {
    seq![
        Datum::Text(v.content),
        flag_value(v.completed),
        Datum::Text(v.updated_at),
        Datum::Text(v.id),
    ]
}

impl Statement {
    /// True of a statement that the database can be given: none of its values
    /// is `Other`.
    pub open spec fn well_formed(&self) -> bool {
        bindable(self@.parameters)
    }

    /// The statement of the given kind that binds one text.
    fn about(operation: Operation, key: &str) -> (s: Statement)
        ensures
            s@ == stated(operation, seq![Datum::Text(key@)]),
            s.well_formed(),
    {
        let parameters = vec![SqlValue::text(key)];
        assert(parameters.deep_view() =~= seq![Datum::Text(key@)]);
        Statement { operation, parameters }
    }

    /// The statement of the given kind that binds nothing.
    fn bare(operation: Operation) -> (s: Statement)
        ensures
            s@ == stated(operation, Seq::<Datum>::empty()),
            s.well_formed(),
    {
        let parameters: Vec<SqlValue> = Vec::new();
        assert(parameters.deep_view() =~= Seq::<Datum>::empty());
        Statement { operation, parameters }
    }

    /// Stores the workspace as a new row.
    pub fn insert_workspace(workspace: &Workspace) -> (s: Statement)
        ensures
            s@ == stated(Operation::InsertWorkspace, Workspace::row(workspace@)),
            s.well_formed(),
            fits(s@),
    {
        Statement { operation: Operation::InsertWorkspace, parameters: workspace.to_row() }
    }

    /// Reads every workspace.
    pub fn select_workspaces() -> (s: Statement)
        ensures
            s@ == stated(Operation::SelectWorkspaces, Seq::<Datum>::empty()),
            s.well_formed(),
            fits(s@),
    {
        Statement::bare(Operation::SelectWorkspaces)
    }

    /// Stores the settings in place of any that their workspace had.
    pub fn replace_workspace_settings(settings: &WorkspaceSettings) -> (s: Statement)
        ensures
            s@ == stated(Operation::ReplaceWorkspaceSettings, settings@.row()),
            s.well_formed(),
            fits(s@),
    {
        Statement { operation: Operation::ReplaceWorkspaceSettings, parameters: settings.to_row() }
    }

    /// Stores the theme as a new row.
    pub fn insert_custom_theme(theme: &CustomTheme) -> (s: Statement)
        ensures
            s@ == stated(Operation::InsertCustomTheme, theme@.row()),
            s.well_formed(),
            fits(s@),
    {
        Statement { operation: Operation::InsertCustomTheme, parameters: theme.to_row() }
    }

    /// Stores the tab as a new row.
    pub fn insert_tab(tab: &Tab) -> (s: Statement)
        ensures
            s@ == stated(Operation::InsertTab, Tab::row(tab@)),
            s.well_formed(),
            fits(s@),
    {
        Statement { operation: Operation::InsertTab, parameters: tab.to_row() }
    }

    /// Reads the tabs of the workspace, by ascending position.
    pub fn select_workspace_tabs(workspace_id: &str) -> (s: Statement)
        ensures
            s@ == stated(Operation::SelectWorkspaceTabs, seq![Datum::Text(workspace_id@)]),
            s.well_formed(),
            fits(s@),
    {
        Statement::about(Operation::SelectWorkspaceTabs, workspace_id)
    }

    /// Sets whether the tab is in front.
    pub fn update_tab_active(tab_id: &str, is_active: bool) -> (s: Statement)
        ensures
            s@ == stated(
                Operation::UpdateTabActive,
                seq![flag_value(is_active), Datum::Text(tab_id@)],
            ),
            s.well_formed(),
            fits(s@),
    {
        let parameters = vec![SqlValue::flag(is_active), SqlValue::text(tab_id)];
        assert(parameters.deep_view() =~= seq![flag_value(is_active), Datum::Text(tab_id@)]);
        Statement { operation: Operation::UpdateTabActive, parameters }
    }

    /// Removes the tab.
    pub fn delete_tab(tab_id: &str) -> (s: Statement)
        ensures
            s@ == stated(Operation::DeleteTab, seq![Datum::Text(tab_id@)]),
            s.well_formed(),
            fits(s@),
    {
        Statement::about(Operation::DeleteTab, tab_id)
    }

    /// Appends a backup of the workspace under the given identifier.
    pub fn insert_backup(id: &str, workspace_id: &str, data: &str) -> (s: Statement)
        ensures
            s@ == stated(
                Operation::InsertBackup,
                seq![Datum::Text(id@), Datum::Text(workspace_id@), Datum::Text(data@)],
            ),
            s.well_formed(),
            fits(s@),
    {
        let parameters = vec![
            SqlValue::text(id),
            SqlValue::text(workspace_id),
            SqlValue::text(data),
        ];
        assert(parameters.deep_view() =~= seq![
            Datum::Text(id@),
            Datum::Text(workspace_id@),
            Datum::Text(data@),
        ]);
        Statement { operation: Operation::InsertBackup, parameters }
    }

    /// Stores the note as a new row.
    pub fn insert_note(note: &Note) -> (s: Statement)
        ensures
            s@ == stated(Operation::InsertNote, Note::row(note@)),
            s.well_formed(),
            fits(s@),
    {
        Statement { operation: Operation::InsertNote, parameters: note.to_row() }
    }

    /// Reads the notes of the project.
    pub fn select_notes(project_id: &str) -> (s: Statement)
        ensures
            s@ == stated(Operation::SelectNotes, seq![Datum::Text(project_id@)]),
            s.well_formed(),
            fits(s@),
    {
        Statement::about(Operation::SelectNotes, project_id)
    }

    /// Rewrites the title, content, pin and time of last change of the note
    /// that has the given note's identifier. Its project and its time of
    /// creation are not bound, so they stay as stored.
    pub fn update_note(note: &Note) -> (s: Statement)
        ensures
            s@ == stated(Operation::UpdateNote, note_changes(note@)),
            s.well_formed(),
            fits(s@),
    {
        let parameters = vec![
            SqlValue::text(note.title.as_str()),
            SqlValue::text(note.content.as_str()),
            SqlValue::flag(note.is_pinned),
            SqlValue::text(note.updated_at.as_str()),
            SqlValue::text(note.id.as_str()),
        ];
        assert(parameters.deep_view() =~= note_changes(note@));
        Statement { operation: Operation::UpdateNote, parameters }
    }

    /// Removes the note.
    pub fn delete_note(id: &str) -> (s: Statement)
        ensures
            s@ == stated(Operation::DeleteNote, seq![Datum::Text(id@)]),
            s.well_formed(),
            fits(s@),
    {
        Statement::about(Operation::DeleteNote, id)
    }

    /// Stores the project as a new row.
    pub fn insert_project(project: &Project) -> (s: Statement)
        ensures
            s@ == stated(Operation::InsertProject, Project::row(project@)),
            s.well_formed(),
            fits(s@),
    {
        Statement { operation: Operation::InsertProject, parameters: project.to_row() }
    }

    /// Reads every project.
    pub fn select_projects() -> (s: Statement)
        ensures
            s@ == stated(Operation::SelectProjects, Seq::<Datum>::empty()),
            s.well_formed(),
            fits(s@),
    {
        Statement::bare(Operation::SelectProjects)
    }

    /// Rewrites the name and time of last change of the project that has the
    /// given project's identifier.
    pub fn update_project(project: &Project) -> (s: Statement)
        ensures
            s@ == stated(Operation::UpdateProject, project_changes(project@)),
            s.well_formed(),
            fits(s@),
    {
        let parameters = vec![
            SqlValue::text(project.name.as_str()),
            SqlValue::text(project.updated_at.as_str()),
            SqlValue::text(project.id.as_str()),
        ];
        assert(parameters.deep_view() =~= project_changes(project@));
        Statement { operation: Operation::UpdateProject, parameters }
    }

    /// Removes the project.
    pub fn delete_project(id: &str) -> (s: Statement)
        ensures
            s@ == stated(Operation::DeleteProject, seq![Datum::Text(id@)]),
            s.well_formed(),
            fits(s@),
    {
        Statement::about(Operation::DeleteProject, id)
    }

    /// Stores the tag as a new row.
    pub fn insert_tag(tag: &Tag) -> (s: Statement)
        ensures
            s@ == stated(Operation::InsertTag, Tag::row(tag@)),
            s.well_formed(),
            fits(s@),
    {
        Statement { operation: Operation::InsertTag, parameters: tag.to_row() }
    }

    /// Reads every tag.
    pub fn select_tags() -> (s: Statement)
        ensures
            s@ == stated(Operation::SelectTags, Seq::<Datum>::empty()),
            s.well_formed(),
            fits(s@),
    {
        Statement::bare(Operation::SelectTags)
    }

    /// Removes the tag.
    pub fn delete_tag(id: &str) -> (s: Statement)
        ensures
            s@ == stated(Operation::DeleteTag, seq![Datum::Text(id@)]),
            s.well_formed(),
            fits(s@),
    {
        Statement::about(Operation::DeleteTag, id)
    }

    /// Stores the task as a new row.
    pub fn insert_task(task: &Task) -> (s: Statement)
        ensures
            s@ == stated(Operation::InsertTask, Task::row(task@)),
            s.well_formed(),
            fits(s@),
    {
        Statement { operation: Operation::InsertTask, parameters: task.to_row() }
    }

    /// Reads the tasks of the note.
    pub fn select_tasks(note_id: &str) -> (s: Statement)
        ensures
            s@ == stated(Operation::SelectTasks, seq![Datum::Text(note_id@)]),
            s.well_formed(),
            fits(s@),
    {
        Statement::about(Operation::SelectTasks, note_id)
    }

    /// Rewrites the text, completion and time of last change of the task that
    /// has the given task's identifier. Its note and its time of creation are
    /// not bound, so they stay as stored.
    pub fn update_task(task: &Task) -> (s: Statement)
        ensures
            s@ == stated(Operation::UpdateTask, task_changes(task@)),
            s.well_formed(),
            fits(s@),
    {
        let parameters = vec![
            SqlValue::text(task.content.as_str()),
            SqlValue::flag(task.completed),
            SqlValue::text(task.updated_at.as_str()),
            SqlValue::text(task.id.as_str()),
        ];
        assert(parameters.deep_view() =~= task_changes(task@));
        Statement { operation: Operation::UpdateTask, parameters }
    }

    /// Removes the task.
    pub fn delete_task(id: &str) -> (s: Statement)
        ensures
            s@ == stated(Operation::DeleteTask, seq![Datum::Text(id@)]),
            s.well_formed(),
            fits(s@),
    {
        Statement::about(Operation::DeleteTask, id)
    }

    /// Attaches the tag to the note, whether or not it is attached already.
    pub fn insert_note_tag(note_id: &str, tag_id: &str) -> (s: Statement)
        ensures
            s@ == stated(
                Operation::InsertNoteTag,
                (NoteTagView { note_id: note_id@, tag_id: tag_id@ }).row(),
            ),
            s.well_formed(),
            fits(s@),
    {
        let parameters = vec![SqlValue::text(note_id), SqlValue::text(tag_id)];
        assert(parameters.deep_view() =~= (NoteTagView {
            note_id: note_id@,
            tag_id: tag_id@,
        }).row());
        Statement { operation: Operation::InsertNoteTag, parameters }
    }

    /// Removes every attachment of the tag to the note.
    pub fn delete_note_tag(note_id: &str, tag_id: &str) -> (s: Statement)
        ensures
            s@ == stated(
                Operation::DeleteNoteTag,
                (NoteTagView { note_id: note_id@, tag_id: tag_id@ }).row(),
            ),
            s.well_formed(),
            fits(s@),
    {
        let parameters = vec![SqlValue::text(note_id), SqlValue::text(tag_id)];
        assert(parameters.deep_view() =~= (NoteTagView {
            note_id: note_id@,
            tag_id: tag_id@,
        }).row());
        Statement { operation: Operation::DeleteNoteTag, parameters }
    }

    /// Reads the tags attached to the note.
    pub fn select_note_tags(note_id: &str) -> (s: Statement)
        ensures
            s@ == stated(Operation::SelectNoteTags, seq![Datum::Text(note_id@)]),
            s.well_formed(),
            fits(s@),
    {
        Statement::about(Operation::SelectNoteTags, note_id)
    }

}

} // verus!
