//! The records that the store keeps, and what each is as mathematics.

use vstd::prelude::*;
use vstd::string::StringExecFns;

verus! {

/// A top-level environment that groups tabs and names a theme.
#[derive(Clone, Debug, PartialEq, Eq)]
pub struct Workspace {
    /// The caller's identifier, unique among workspaces.
    pub id: String,
    /// The name shown for the workspace.
    pub name: String,
    /// The kind of workspace.
    pub type_: String,
    /// The theme in use. Nothing checks that such a theme exists.
    pub theme_id: String,
}

/// A [`Workspace`] as mathematics: each text as its sequence of characters.
pub struct WorkspaceView {
    pub id: Seq<char>,
    pub name: Seq<char>,
    pub type_: Seq<char>,
    pub theme_id: Seq<char>,
}

impl View for Workspace {
    type V = WorkspaceView;

    open spec fn view(&self) -> WorkspaceView {
        WorkspaceView {
            id: self.id@,
            name: self.name@,
            type_: self.type_@,
            theme_id: self.theme_id@,
        }
    }
}

/// The settings of one workspace: at most one record per workspace.
#[derive(Clone, Debug, PartialEq, Eq)]
pub struct WorkspaceSettings {
    /// The workspace that the settings belong to.
    pub workspace_id: String,
    /// Whether the dark palette is on.
    pub dark_mode: bool,
    /// Whether the split view is on.
    pub split_view: bool,
    /// The privacy level chosen.
    pub privacy_level: String,
    /// Whether changes are saved without asking.
    pub auto_save: bool,
}

/// A [`WorkspaceSettings`] as mathematics: each text as its sequence of
/// characters.
pub struct WorkspaceSettingsView {
    pub workspace_id: Seq<char>,
    pub dark_mode: bool,
    pub split_view: bool,
    pub privacy_level: Seq<char>,
    pub auto_save: bool,
}

impl View for WorkspaceSettings {
    type V = WorkspaceSettingsView;

    open spec fn view(&self) -> WorkspaceSettingsView {
        WorkspaceSettingsView {
            workspace_id: self.workspace_id@,
            dark_mode: self.dark_mode,
            split_view: self.split_view,
            privacy_level: self.privacy_level@,
            auto_save: self.auto_save,
        }
    }
}

/// A theme of the user's own, with its six colours.
#[derive(Clone, Debug, PartialEq, Eq)]
pub struct CustomTheme {
    /// The caller's identifier, unique among themes.
    pub id: String,
    /// The name shown for the theme.
    pub name: String,
    /// The kind of theme.
    pub type_: String,
    /// The primary colour.
    pub primary_color: String,
    /// The secondary colour.
    pub secondary_color: String,
    /// The colour of the background.
    pub background_color: String,
    /// The colour of surfaces.
    pub surface_color: String,
    /// The colour of text.
    pub text_color: String,
    /// The colour of accents.
    pub accent_color: String,
}

/// A [`CustomTheme`] as mathematics: each text as its sequence of characters.
pub struct CustomThemeView {
    pub id: Seq<char>,
    pub name: Seq<char>,
    pub type_: Seq<char>,
    pub primary_color: Seq<char>,
    pub secondary_color: Seq<char>,
    pub background_color: Seq<char>,
    pub surface_color: Seq<char>,
    pub text_color: Seq<char>,
    pub accent_color: Seq<char>,
}

impl View for CustomTheme {
    type V = CustomThemeView;

    open spec fn view(&self) -> CustomThemeView {
        CustomThemeView {
            id: self.id@,
            name: self.name@,
            type_: self.type_@,
            primary_color: self.primary_color@,
            secondary_color: self.secondary_color@,
            background_color: self.background_color@,
            surface_color: self.surface_color@,
            text_color: self.text_color@,
            accent_color: self.accent_color@,
        }
    }
}

/// A titled pane of content at a position within a workspace.
#[derive(Clone, Debug, PartialEq, Eq)]
pub struct Tab {
    /// The caller's identifier, unique among tabs.
    pub id: String,
    /// The workspace that holds the tab.
    pub workspace_id: String,
    /// The title shown on the tab.
    pub title: String,
    /// What the tab holds, if anything.
    pub content: Option<String>,
    /// The kind of tab.
    pub type_: String,
    /// The ordering key: tabs are listed by ascending position.
    pub position: i32,
    /// Whether the tab is the one in front.
    pub is_active: bool,
}

/// A [`Tab`] as mathematics: each text as its sequence of characters.
pub struct TabView {
    pub id: Seq<char>,
    pub workspace_id: Seq<char>,
    pub title: Seq<char>,
    pub content: Option<Seq<char>>,
    pub type_: Seq<char>,
    pub position: int,
    pub is_active: bool,
}

impl View for Tab {
    type V = TabView;

    open spec fn view(&self) -> TabView {
        TabView {
            id: self.id@,
            workspace_id: self.workspace_id@,
            title: self.title@,
            content: match self.content {
                Some(s) => Some(s@),
                None => None,
            },
            type_: self.type_@,
            position: self.position as int,
            is_active: self.is_active,
        }
    }
}

/// A titled text that belongs to one project.
#[derive(Clone, Debug, PartialEq, Eq)]
pub struct Note {
    /// The caller's identifier, unique among notes.
    pub id: String,
    /// The title of the note.
    pub title: String,
    /// The text of the note.
    pub content: String,
    /// The project that holds the note.
    pub project_id: String,
    /// When the note was stored first. Set by the store.
    pub created_at: String,
    /// When the note was stored last. Set by the store.
    pub updated_at: String,
    /// Whether the note is pinned.
    pub is_pinned: bool,
}

/// A [`Note`] as mathematics: each text as its sequence of characters.
pub struct NoteView {
    pub id: Seq<char>,
    pub title: Seq<char>,
    pub content: Seq<char>,
    pub project_id: Seq<char>,
    pub created_at: Seq<char>,
    pub updated_at: Seq<char>,
    pub is_pinned: bool,
}

impl View for Note {
    type V = NoteView;

    open spec fn view(&self) -> NoteView {
        NoteView {
            id: self.id@,
            title: self.title@,
            content: self.content@,
            project_id: self.project_id@,
            created_at: self.created_at@,
            updated_at: self.updated_at@,
            is_pinned: self.is_pinned,
        }
    }
}

/// A named container of notes.
#[derive(Clone, Debug, PartialEq, Eq)]
pub struct Project {
    /// The caller's identifier, unique among projects.
    pub id: String,
    /// The name of the project.
    pub name: String,
    /// When the project was stored first. Set by the store.
    pub created_at: String,
    /// When the project was stored last. Set by the store.
    pub updated_at: String,
}

/// A [`Project`] as mathematics: each text as its sequence of characters.
pub struct ProjectView {
    pub id: Seq<char>,
    pub name: Seq<char>,
    pub created_at: Seq<char>,
    pub updated_at: Seq<char>,
}

impl View for Project {
    type V = ProjectView;

    open spec fn view(&self) -> ProjectView {
        ProjectView {
            id: self.id@,
            name: self.name@,
            created_at: self.created_at@,
            updated_at: self.updated_at@,
        }
    }
}

/// A named label that any number of notes can carry.
#[derive(Clone, Debug, PartialEq, Eq)]
pub struct Tag {
    /// The caller's identifier, unique among tags.
    pub id: String,
    /// The name of the tag.
    pub name: String,
    /// When the tag was stored. Set by the store.
    pub created_at: String,
}

/// A [`Tag`] as mathematics: each text as its sequence of characters.
pub struct TagView {
    pub id: Seq<char>,
    pub name: Seq<char>,
    pub created_at: Seq<char>,
}

impl View for Tag {
    type V = TagView;

    open spec fn view(&self) -> TagView {
        TagView {
            id: self.id@,
            name: self.name@,
            created_at: self.created_at@,
        }
    }
}

/// A checklist item that belongs to one note.
#[derive(Clone, Debug, PartialEq, Eq)]
pub struct Task {
    /// The caller's identifier, unique among tasks.
    pub id: String,
    /// The text of the task.
    pub content: String,
    /// Whether the task is done.
    pub completed: bool,
    /// The note that holds the task.
    pub note_id: String,
    /// When the task was stored first. Set by the store.
    pub created_at: String,
    /// When the task was stored last. Set by the store.
    pub updated_at: String,
}

/// A [`Task`] as mathematics: each text as its sequence of characters.
pub struct TaskView {
    pub id: Seq<char>,
    pub content: Seq<char>,
    pub completed: bool,
    pub note_id: Seq<char>,
    pub created_at: Seq<char>,
    pub updated_at: Seq<char>,
}

impl View for Task {
    type V = TaskView;

    open spec fn view(&self) -> TaskView {
        TaskView {
            id: self.id@,
            content: self.content@,
            completed: self.completed,
            note_id: self.note_id@,
            created_at: self.created_at@,
            updated_at: self.updated_at@,
        }
    }
}

/// One attachment of a tag to a note. The pair is all there is to it.
#[derive(Clone, Debug, PartialEq, Eq)]
pub struct NoteTag {
    /// The note.
    pub note_id: String,
    /// The tag.
    pub tag_id: String,
}

/// A [`NoteTag`] as mathematics: each text as its sequence of characters.
pub struct NoteTagView {
    pub note_id: Seq<char>,
    pub tag_id: Seq<char>,
}

impl View for NoteTag {
    type V = NoteTagView;

    open spec fn view(&self) -> NoteTagView {
        NoteTagView {
            note_id: self.note_id@,
            tag_id: self.tag_id@,
        }
    }
}

impl Note {
    /// The note as it is stored first at the time `now`: whatever times the
    /// caller gave are replaced, and both are `now`.
    pub fn created(&self, now: &str) -> (r: Note)
        ensures
            r@ == (NoteView { created_at: now@, updated_at: now@, ..self@ }),
    {
        Note {
            id: self.id.clone(),
            title: self.title.clone(),
            content: self.content.clone(),
            project_id: self.project_id.clone(),
            created_at: String::from_str(now),
            updated_at: String::from_str(now),
            is_pinned: self.is_pinned,
        }
    }

    /// The note as it is stored again at the time `now`: the time of last
    /// change is `now`, and nothing else changes.
    pub fn updated(&self, now: &str) -> (r: Note)
        ensures
            r@ == (NoteView { updated_at: now@, ..self@ }),
    {
        Note {
            id: self.id.clone(),
            title: self.title.clone(),
            content: self.content.clone(),
            project_id: self.project_id.clone(),
            created_at: self.created_at.clone(),
            updated_at: String::from_str(now),
            is_pinned: self.is_pinned,
        }
    }
}

impl Project {
    /// The project as it is stored first at the time `now`: whatever times the
    /// caller gave are replaced, and both are `now`.
    pub fn created(&self, now: &str) -> (r: Project)
        ensures
            r@ == (ProjectView { created_at: now@, updated_at: now@, ..self@ }),
    {
        Project {
            id: self.id.clone(),
            name: self.name.clone(),
            created_at: String::from_str(now),
            updated_at: String::from_str(now),
        }
    }

    /// The project as it is stored again at the time `now`: the time of last
    /// change is `now`, and nothing else changes.
    pub fn updated(&self, now: &str) -> (r: Project)
        ensures
            r@ == (ProjectView { updated_at: now@, ..self@ }),
    {
        Project {
            id: self.id.clone(),
            name: self.name.clone(),
            created_at: self.created_at.clone(),
            updated_at: String::from_str(now),
        }
    }
}

impl Tag {
    /// The tag as it is stored at the time `now`: whatever time of creation the
    /// caller gave is replaced.
    pub fn created(&self, now: &str) -> (r: Tag)
        ensures
            r@ == (TagView { created_at: now@, ..self@ }),
    {
        Tag {
            id: self.id.clone(),
            name: self.name.clone(),
            created_at: String::from_str(now),
        }
    }
}

impl Task {
    /// The task as it is stored first at the time `now`: whatever times the
    /// caller gave are replaced, and both are `now`.
    pub fn created(&self, now: &str) -> (r: Task)
        ensures
            r@ == (TaskView { created_at: now@, updated_at: now@, ..self@ }),
    {
        Task {
            id: self.id.clone(),
            content: self.content.clone(),
            completed: self.completed,
            note_id: self.note_id.clone(),
            created_at: String::from_str(now),
            updated_at: String::from_str(now),
        }
    }

    /// The task as it is stored again at the time `now`: the time of last
    /// change is `now`, and nothing else changes.
    pub fn updated(&self, now: &str) -> (r: Task)
        ensures
            r@ == (TaskView { updated_at: now@, ..self@ }),
    {
        Task {
            id: self.id.clone(),
            content: self.content.clone(),
            completed: self.completed,
            note_id: self.note_id.clone(),
            created_at: self.created_at.clone(),
            updated_at: String::from_str(now),
        }
    }
}

} // verus!
