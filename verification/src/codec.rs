//! Records as rows: how each record is laid out in its table, and how a row
//! read back becomes a record again.

use vstd::prelude::*;
use vstd::string::StringExecFns;
use crate::entity::{
    CustomTheme, CustomThemeView, Note, NoteTag, NoteTagView, NoteView, Project, ProjectView, Tab,
    TabView, Tag, TagView, Task, TaskView, Workspace, WorkspaceSettings, WorkspaceSettingsView,
    WorkspaceView,
};
use crate::error::{DbError, FailureKind};
use crate::model::{by_position, position};
use crate::schema::Table;
use crate::value::{
    flag_in, flag_value, number_in, optional_text_in, optional_text_value, text_in, Datum,
    SqlValue,
};

verus! {

/// A row of a table as mathematics: the values of its columns, in the order
/// of the table's layout.
pub type Row = Seq<Datum>;

/// True of the rows that a statement can bind: none of their values is
/// `Other`.
pub open spec fn bindable(row: Row) -> bool {
    forall|i: int| 0 <= i < row.len() ==> !(#[trigger] row[i] is Other)
}

/// A record that the store hands back: it has a row for each of its values,
/// and a row read from its table gives the record back.
pub trait Record: Sized + View {
    /// The table that holds the records.
    spec fn table() -> Table;

    /// The row that stores the record.
    spec fn row(v: Self::V) -> Row;

    /// The record that a row gives, where each column holds a value that the
    /// field it belongs to can take; none otherwise.
    spec fn read(row: Row) -> Option<Self::V>;

    /// The row that stores this record: it fits the record's table.
    fn to_row(&self) -> (row: Vec<SqlValue>)
        ensures
            row.deep_view() == Self::row(self@),
            Self::table().holds(row.deep_view()),
            bindable(row.deep_view()),
    ;

    /// The record that a row gives, if it gives one.
    fn from_row(row: &Vec<SqlValue>) -> (r: Option<Self>)
        ensures
            match r {
                Some(record) => Self::read(row.deep_view()) == Some(record@),
                None => Self::read(row.deep_view()) is None,
            },
    ;

    /// The row of a record fits the record's table, and read back it is the
    /// record again.
    proof fn read_what_was_stored(self)
        ensures
            Self::table().holds(Self::row(self@)),
            Self::read(Self::row(self@)) == Some(self@),
    ;

    /// Every row that fits the table gives a record.
    proof fn read_what_is_held(row: Row)
        requires
            Self::table().holds(row),
        ensures
            Self::read(row) is Some,
    ;
}

impl Record for Workspace {
    open spec fn table() -> Table {
        Table::Workspaces
    }

    open spec fn row(v: WorkspaceView) -> Row {
        seq![
            Datum::Text(v.id),
            Datum::Text(v.name),
            Datum::Text(v.type_),
            Datum::Text(v.theme_id),
        ]
    }

    open spec fn read(row: Row) -> Option<WorkspaceView> {
        if row.len() == 4
            && text_in(row[0]) is Some
            && text_in(row[1]) is Some
            && text_in(row[2]) is Some
            && text_in(row[3]) is Some {
            Some(
                WorkspaceView {
                    id: text_in(row[0])->0,
                    name: text_in(row[1])->0,
                    type_: text_in(row[2])->0,
                    theme_id: text_in(row[3])->0,
                },
            )
        } else {
            None
        }
    }

    fn to_row(&self) -> (row: Vec<SqlValue>) {
        let row = vec![
            SqlValue::text(self.id.as_str()),
            SqlValue::text(self.name.as_str()),
            SqlValue::text(self.type_.as_str()),
            SqlValue::text(self.theme_id.as_str()),
        ];
        assert(row.deep_view() =~= Self::row(self@));
        row
    }

    fn from_row(row: &Vec<SqlValue>) -> (r: Option<Self>) {
        if row.len() != 4 {
            return None;
        }
        let id = match row[0].as_text() {
            Some(value) => value,
            None => return None,
        };
        let name = match row[1].as_text() {
            Some(value) => value,
            None => return None,
        };
        let type_ = match row[2].as_text() {
            Some(value) => value,
            None => return None,
        };
        let theme_id = match row[3].as_text() {
            Some(value) => value,
            None => return None,
        };
        Some(Workspace { id, name, type_, theme_id })
    }

    proof fn read_what_was_stored(self) {
    }

    proof fn read_what_is_held(row: Row) {
        assert(forall|c: int|
            0 <= c < Self::table().layout().len() ==> (#[trigger] Self::table().layout()[c]).admits(
                row[c],
            ));
    }
}

impl WorkspaceSettingsView {
    /// The row that stores the record.
    pub open spec fn row(self) -> Row {
        seq![
            Datum::Text(self.workspace_id),
            flag_value(self.dark_mode),
            flag_value(self.split_view),
            Datum::Text(self.privacy_level),
            flag_value(self.auto_save),
        ]
    }
}

impl WorkspaceSettings {
    /// The row that stores this record: it fits the record's table.
    pub fn to_row(&self) -> (row: Vec<SqlValue>)
        ensures
            row.deep_view() == self@.row(),
            Table::WorkspaceSettings.holds(row.deep_view()),
            bindable(row.deep_view()),
    {
        let row = vec![
            SqlValue::text(self.workspace_id.as_str()),
            SqlValue::flag(self.dark_mode),
            SqlValue::flag(self.split_view),
            SqlValue::text(self.privacy_level.as_str()),
            SqlValue::flag(self.auto_save),
        ];
        assert(row.deep_view() =~= self@.row());
        row
    }
}

impl CustomThemeView {
    /// The row that stores the record.
    pub open spec fn row(self) -> Row {
        seq![
            Datum::Text(self.id),
            Datum::Text(self.name),
            Datum::Text(self.type_),
            Datum::Text(self.primary_color),
            Datum::Text(self.secondary_color),
            Datum::Text(self.background_color),
            Datum::Text(self.surface_color),
            Datum::Text(self.text_color),
            Datum::Text(self.accent_color),
        ]
    }
}

impl CustomTheme {
    /// The row that stores this record: it fits the record's table.
    pub fn to_row(&self) -> (row: Vec<SqlValue>)
        ensures
            row.deep_view() == self@.row(),
            Table::CustomThemes.holds(row.deep_view()),
            bindable(row.deep_view()),
    {
        let row = vec![
            SqlValue::text(self.id.as_str()),
            SqlValue::text(self.name.as_str()),
            SqlValue::text(self.type_.as_str()),
            SqlValue::text(self.primary_color.as_str()),
            SqlValue::text(self.secondary_color.as_str()),
            SqlValue::text(self.background_color.as_str()),
            SqlValue::text(self.surface_color.as_str()),
            SqlValue::text(self.text_color.as_str()),
            SqlValue::text(self.accent_color.as_str()),
        ];
        assert(row.deep_view() =~= self@.row());
        row
    }
}

impl Record for Tab {
    open spec fn table() -> Table {
        Table::Tabs
    }

    open spec fn row(v: TabView) -> Row {
        seq![
            Datum::Text(v.id),
            Datum::Text(v.workspace_id),
            Datum::Text(v.title),
            optional_text_value(v.content),
            Datum::Text(v.type_),
            Datum::Integer(v.position),
            flag_value(v.is_active),
        ]
    }

    open spec fn read(row: Row) -> Option<TabView> {
        if row.len() == 7
            && text_in(row[0]) is Some
            && text_in(row[1]) is Some
            && text_in(row[2]) is Some
            && optional_text_in(row[3]) is Some
            && text_in(row[4]) is Some
            && number_in(row[5]) is Some
            && flag_in(row[6]) is Some {
            Some(
                TabView {
                    id: text_in(row[0])->0,
                    workspace_id: text_in(row[1])->0,
                    title: text_in(row[2])->0,
                    content: optional_text_in(row[3])->0,
                    type_: text_in(row[4])->0,
                    position: number_in(row[5])->0,
                    is_active: flag_in(row[6])->0,
                },
            )
        } else {
            None
        }
    }

    fn to_row(&self) -> (row: Vec<SqlValue>) {
        let row = vec![
            SqlValue::text(self.id.as_str()),
            SqlValue::text(self.workspace_id.as_str()),
            SqlValue::text(self.title.as_str()),
            SqlValue::optional_text(&self.content),
            SqlValue::text(self.type_.as_str()),
            SqlValue::number(self.position),
            SqlValue::flag(self.is_active),
        ];
        assert(row.deep_view() =~= Self::row(self@));
        row
    }

    fn from_row(row: &Vec<SqlValue>) -> (r: Option<Self>) {
        if row.len() != 7 {
            return None;
        }
        let id = match row[0].as_text() {
            Some(value) => value,
            None => return None,
        };
        let workspace_id = match row[1].as_text() {
            Some(value) => value,
            None => return None,
        };
        let title = match row[2].as_text() {
            Some(value) => value,
            None => return None,
        };
        let content = match row[3].as_optional_text() {
            Some(value) => value,
            None => return None,
        };
        let type_ = match row[4].as_text() {
            Some(value) => value,
            None => return None,
        };
        let position = match row[5].as_number() {
            Some(value) => value,
            None => return None,
        };
        let is_active = match row[6].as_flag() {
            Some(value) => value,
            None => return None,
        };
        Some(Tab { id, workspace_id, title, content, type_, position, is_active })
    }

    proof fn read_what_was_stored(self) {
    }

    proof fn read_what_is_held(row: Row) {
        assert(forall|c: int|
            0 <= c < Self::table().layout().len() ==> (#[trigger] Self::table().layout()[c]).admits(
                row[c],
            ));
    }
}

impl Record for Note {
    open spec fn table() -> Table {
        Table::Notes
    }

    open spec fn row(v: NoteView) -> Row {
        seq![
            Datum::Text(v.id),
            Datum::Text(v.title),
            Datum::Text(v.content),
            Datum::Text(v.project_id),
            Datum::Text(v.created_at),
            Datum::Text(v.updated_at),
            flag_value(v.is_pinned),
        ]
    }

    open spec fn read(row: Row) -> Option<NoteView> {
        if row.len() == 7
            && text_in(row[0]) is Some
            && text_in(row[1]) is Some
            && text_in(row[2]) is Some
            && text_in(row[3]) is Some
            && text_in(row[4]) is Some
            && text_in(row[5]) is Some
            && flag_in(row[6]) is Some {
            Some(
                NoteView {
                    id: text_in(row[0])->0,
                    title: text_in(row[1])->0,
                    content: text_in(row[2])->0,
                    project_id: text_in(row[3])->0,
                    created_at: text_in(row[4])->0,
                    updated_at: text_in(row[5])->0,
                    is_pinned: flag_in(row[6])->0,
                },
            )
        } else {
            None
        }
    }

    fn to_row(&self) -> (row: Vec<SqlValue>) {
        let row = vec![
            SqlValue::text(self.id.as_str()),
            SqlValue::text(self.title.as_str()),
            SqlValue::text(self.content.as_str()),
            SqlValue::text(self.project_id.as_str()),
            SqlValue::text(self.created_at.as_str()),
            SqlValue::text(self.updated_at.as_str()),
            SqlValue::flag(self.is_pinned),
        ];
        assert(row.deep_view() =~= Self::row(self@));
        row
    }

    fn from_row(row: &Vec<SqlValue>) -> (r: Option<Self>) {
        if row.len() != 7 {
            return None;
        }
        let id = match row[0].as_text() {
            Some(value) => value,
            None => return None,
        };
        let title = match row[1].as_text() {
            Some(value) => value,
            None => return None,
        };
        let content = match row[2].as_text() {
            Some(value) => value,
            None => return None,
        };
        let project_id = match row[3].as_text() {
            Some(value) => value,
            None => return None,
        };
        let created_at = match row[4].as_text() {
            Some(value) => value,
            None => return None,
        };
        let updated_at = match row[5].as_text() {
            Some(value) => value,
            None => return None,
        };
        let is_pinned = match row[6].as_flag() {
            Some(value) => value,
            None => return None,
        };
        Some(Note { id, title, content, project_id, created_at, updated_at, is_pinned })
    }

    proof fn read_what_was_stored(self) {
    }

    proof fn read_what_is_held(row: Row) {
        assert(forall|c: int|
            0 <= c < Self::table().layout().len() ==> (#[trigger] Self::table().layout()[c]).admits(
                row[c],
            ));
    }
}

impl Record for Project {
    open spec fn table() -> Table {
        Table::Projects
    }

    open spec fn row(v: ProjectView) -> Row {
        seq![
            Datum::Text(v.id),
            Datum::Text(v.name),
            Datum::Text(v.created_at),
            Datum::Text(v.updated_at),
        ]
    }

    open spec fn read(row: Row) -> Option<ProjectView> {
        if row.len() == 4
            && text_in(row[0]) is Some
            && text_in(row[1]) is Some
            && text_in(row[2]) is Some
            && text_in(row[3]) is Some {
            Some(
                ProjectView {
                    id: text_in(row[0])->0,
                    name: text_in(row[1])->0,
                    created_at: text_in(row[2])->0,
                    updated_at: text_in(row[3])->0,
                },
            )
        } else {
            None
        }
    }

    fn to_row(&self) -> (row: Vec<SqlValue>) {
        let row = vec![
            SqlValue::text(self.id.as_str()),
            SqlValue::text(self.name.as_str()),
            SqlValue::text(self.created_at.as_str()),
            SqlValue::text(self.updated_at.as_str()),
        ];
        assert(row.deep_view() =~= Self::row(self@));
        row
    }

    fn from_row(row: &Vec<SqlValue>) -> (r: Option<Self>) {
        if row.len() != 4 {
            return None;
        }
        let id = match row[0].as_text() {
            Some(value) => value,
            None => return None,
        };
        let name = match row[1].as_text() {
            Some(value) => value,
            None => return None,
        };
        let created_at = match row[2].as_text() {
            Some(value) => value,
            None => return None,
        };
        let updated_at = match row[3].as_text() {
            Some(value) => value,
            None => return None,
        };
        Some(Project { id, name, created_at, updated_at })
    }

    proof fn read_what_was_stored(self) {
    }

    proof fn read_what_is_held(row: Row) {
        assert(forall|c: int|
            0 <= c < Self::table().layout().len() ==> (#[trigger] Self::table().layout()[c]).admits(
                row[c],
            ));
    }
}

impl Record for Tag {
    open spec fn table() -> Table {
        Table::Tags
    }

    open spec fn row(v: TagView) -> Row {
        seq![
            Datum::Text(v.id),
            Datum::Text(v.name),
            Datum::Text(v.created_at),
        ]
    }

    open spec fn read(row: Row) -> Option<TagView> {
        if row.len() == 3
            && text_in(row[0]) is Some
            && text_in(row[1]) is Some
            && text_in(row[2]) is Some {
            Some(
                TagView {
                    id: text_in(row[0])->0,
                    name: text_in(row[1])->0,
                    created_at: text_in(row[2])->0,
                },
            )
        } else {
            None
        }
    }

    fn to_row(&self) -> (row: Vec<SqlValue>) {
        let row = vec![
            SqlValue::text(self.id.as_str()),
            SqlValue::text(self.name.as_str()),
            SqlValue::text(self.created_at.as_str()),
        ];
        assert(row.deep_view() =~= Self::row(self@));
        row
    }

    fn from_row(row: &Vec<SqlValue>) -> (r: Option<Self>) {
        if row.len() != 3 {
            return None;
        }
        let id = match row[0].as_text() {
            Some(value) => value,
            None => return None,
        };
        let name = match row[1].as_text() {
            Some(value) => value,
            None => return None,
        };
        let created_at = match row[2].as_text() {
            Some(value) => value,
            None => return None,
        };
        Some(Tag { id, name, created_at })
    }

    proof fn read_what_was_stored(self) {
    }

    proof fn read_what_is_held(row: Row) {
        assert(forall|c: int|
            0 <= c < Self::table().layout().len() ==> (#[trigger] Self::table().layout()[c]).admits(
                row[c],
            ));
    }
}

impl Record for Task {
    open spec fn table() -> Table {
        Table::Tasks
    }

    open spec fn row(v: TaskView) -> Row {
        seq![
            Datum::Text(v.id),
            Datum::Text(v.content),
            flag_value(v.completed),
            Datum::Text(v.note_id),
            Datum::Text(v.created_at),
            Datum::Text(v.updated_at),
        ]
    }

    open spec fn read(row: Row) -> Option<TaskView> {
        if row.len() == 6
            && text_in(row[0]) is Some
            && text_in(row[1]) is Some
            && flag_in(row[2]) is Some
            && text_in(row[3]) is Some
            && text_in(row[4]) is Some
            && text_in(row[5]) is Some {
            Some(
                TaskView {
                    id: text_in(row[0])->0,
                    content: text_in(row[1])->0,
                    completed: flag_in(row[2])->0,
                    note_id: text_in(row[3])->0,
                    created_at: text_in(row[4])->0,
                    updated_at: text_in(row[5])->0,
                },
            )
        } else {
            None
        }
    }

    fn to_row(&self) -> (row: Vec<SqlValue>) {
        let row = vec![
            SqlValue::text(self.id.as_str()),
            SqlValue::text(self.content.as_str()),
            SqlValue::flag(self.completed),
            SqlValue::text(self.note_id.as_str()),
            SqlValue::text(self.created_at.as_str()),
            SqlValue::text(self.updated_at.as_str()),
        ];
        assert(row.deep_view() =~= Self::row(self@));
        row
    }

    fn from_row(row: &Vec<SqlValue>) -> (r: Option<Self>) {
        if row.len() != 6 {
            return None;
        }
        let id = match row[0].as_text() {
            Some(value) => value,
            None => return None,
        };
        let content = match row[1].as_text() {
            Some(value) => value,
            None => return None,
        };
        let completed = match row[2].as_flag() {
            Some(value) => value,
            None => return None,
        };
        let note_id = match row[3].as_text() {
            Some(value) => value,
            None => return None,
        };
        let created_at = match row[4].as_text() {
            Some(value) => value,
            None => return None,
        };
        let updated_at = match row[5].as_text() {
            Some(value) => value,
            None => return None,
        };
        Some(Task { id, content, completed, note_id, created_at, updated_at })
    }

    proof fn read_what_was_stored(self) {
    }

    proof fn read_what_is_held(row: Row) {
        assert(forall|c: int|
            0 <= c < Self::table().layout().len() ==> (#[trigger] Self::table().layout()[c]).admits(
                row[c],
            ));
    }
}

impl NoteTagView {
    /// The row that stores the record.
    pub open spec fn row(self) -> Row {
        seq![
            Datum::Text(self.note_id),
            Datum::Text(self.tag_id),
        ]
    }
}

impl NoteTag {
    /// The row that stores this record: it fits the record's table.
    pub fn to_row(&self) -> (row: Vec<SqlValue>)
        ensures
            row.deep_view() == self@.row(),
            Table::NoteTags.holds(row.deep_view()),
            bindable(row.deep_view()),
    {
        let row = vec![
            SqlValue::text(self.note_id.as_str()),
            SqlValue::text(self.tag_id.as_str()),
        ];
        assert(row.deep_view() =~= self@.row());
        row
    }
}

/// A record that belongs to another: a tab to its workspace, a note to its
/// project, a task to its note.
pub trait Owned: Record {
    /// The identifier of the owner.
    spec fn owner(v: Self::V) -> Seq<char>;

    /// The column that stores the owner's identifier.
    spec fn column() -> int;

    /// Whether the record belongs to the owner with the given identifier.
    fn belongs_to(&self, owner: &String) -> (r: bool)
        ensures
            r == (Self::owner(self@) == owner@),
    ;

    /// The owner of a record read from a row is the text in the owner's
    /// column.
    proof fn owner_is_read(row: Row)
        requires
            Self::read(row) is Some,
        ensures
            0 <= Self::column() < row.len(),
            row[Self::column()] == Datum::Text(Self::owner(Self::read(row)->0)),
    ;
}

impl Owned for Tab {
    open spec fn owner(v: TabView) -> Seq<char> {
        v.workspace_id
    }

    open spec fn column() -> int {
        1
    }

    fn belongs_to(&self, owner: &String) -> (r: bool) {
        self.workspace_id == *owner
    }

    proof fn owner_is_read(row: Row) {
    }
}

impl Owned for Note {
    open spec fn owner(v: NoteView) -> Seq<char> {
        v.project_id
    }

    open spec fn column() -> int {
        3
    }

    fn belongs_to(&self, owner: &String) -> (r: bool) {
        self.project_id == *owner
    }

    proof fn owner_is_read(row: Row) {
    }
}

impl Owned for Task {
    open spec fn owner(v: TaskView) -> Seq<char> {
        v.note_id
    }

    open spec fn column() -> int {
        3
    }

    fn belongs_to(&self, owner: &String) -> (r: bool) {
        self.note_id == *owner
    }

    proof fn owner_is_read(row: Row) {
    }
}

/// The text that goes with a row that does not fit the record it is read as.
pub const MISFIT: &'static str = "a stored row does not fit the record that reads it";

/// True where `r` is the reading of the rows as records: the records that the
/// rows give, in the rows' order, where each row gives one; a `Query` failure
/// where one gives none.
pub open spec fn read_as<R: Record>(rows: Seq<Row>, r: Result<Vec<R>, DbError>) -> bool {
    match r {
        Ok(records) => records@.len() == rows.len() && forall|i: int|
            0 <= i < rows.len() ==> R::read(#[trigger] rows[i]) == Some(records@[i]@),
        Err(e) => e.kind == FailureKind::Query && e.message@ == MISFIT@ && exists|i: int|
            0 <= i < rows.len() && R::read(#[trigger] rows[i]) is None,
    }
}

/// The records that the rows of a query give, in the rows' order. One row that
/// gives no record fails the whole reading, as a `Query` failure.
pub fn read_all<R: Record>(rows: &Vec<Vec<SqlValue>>) -> (r: Result<Vec<R>, DbError>)
    ensures
        read_as::<R>(rows_of(rows@), r),
{
    let mut records: Vec<R> = Vec::new();
    let mut k: usize = 0;
    while k < rows.len()
        invariant
            k <= rows@.len(),
            records@.len() == k,
            forall|i: int|
                0 <= i < k ==> R::read(#[trigger] rows_of(rows@)[i]) == Some(records@[i]@),
        decreases rows@.len() - k,
    {
        assert(rows_of(rows@)[k as int] == rows@[k as int].deep_view());
        match R::from_row(&rows[k]) {
            Some(record) => {
                records.push(record);
            },
            None => {
                return Err(DbError::new(FailureKind::Query, String::from_str(MISFIT)));
            },
        }
        k = k + 1;
    }
    Ok(records)
}

/// The text that goes with a row that belongs to another owner than the one
/// asked for.
pub const STRAY: &'static str = "a stored row came back for an owner that it does not belong to";

/// The text that goes with rows that do not come in the order asked for.
pub const DISORDER: &'static str = "stored rows came back out of order";

/// True where every row gives a record of the given owner.
pub open spec fn all_owned<R: Owned>(rows: Seq<Row>, owner: Seq<char>) -> bool {
    forall|i: int|
        0 <= i < rows.len() ==> (R::read(#[trigger] rows[i]) matches Some(v) && R::owner(v)
            == owner)
}

/// The rows of a query, each as mathematics.
pub open spec fn rows_of(rows: Seq<Vec<SqlValue>>) -> Seq<Row> {
    Seq::new(rows.len(), |i: int| rows[i].deep_view())
}

/// True where `r` is the reading of the rows as records of one owner: the
/// records that the rows give, in the rows' order, where each row gives a
/// record of that owner; a `Query` failure otherwise.
pub open spec fn read_owned_as<R: Owned>(
    rows: Seq<Row>,
    owner: Seq<char>,
    r: Result<Vec<R>, DbError>,
) -> bool {
    match r {
        Ok(records) => all_owned::<R>(rows, owner) && records@.len() == rows.len() && forall|
            i: int,
        |
            0 <= i < rows.len() ==> R::read(#[trigger] rows[i]) == Some(records@[i]@),
        Err(e) => !all_owned::<R>(rows, owner) && e.kind == FailureKind::Query,
    }
}

/// The records that the rows of a query for one owner give, in the rows'
/// order. One row that gives no record, or a record of another owner, fails
/// the whole reading, as a `Query` failure: what is handed on belongs to the
/// owner asked for, whatever the database sent.
pub fn read_owned<R: Owned>(rows: &Vec<Vec<SqlValue>>, owner: &str) -> (r: Result<
    Vec<R>,
    DbError,
>)
    ensures
        read_owned_as::<R>(rows_of(rows@), owner@, r),
        r matches Ok(records) ==> forall|i: int|
            0 <= i < records@.len() ==> R::owner(#[trigger] records@[i]@) == owner@,
{
    let records: Vec<R> = match read_all(rows) {
        Ok(records) => records,
        Err(e) => {
            return Err(e);
        },
    };
    let asked = String::from_str(owner);
    let mut k: usize = 0;
    while k < records.len()
        invariant
            k <= records@.len(),
            records@.len() == rows@.len(),
            asked@ == owner@,
            forall|i: int|
                0 <= i < rows@.len() ==> R::read(#[trigger] rows_of(rows@)[i]) == Some(
                    records@[i]@,
                ),
            forall|i: int| 0 <= i < k ==> R::owner(#[trigger] records@[i]@) == owner@,
        decreases records@.len() - k,
    {
        if !records[k].belongs_to(&asked) {
            proof {
                assert(R::read(rows_of(rows@)[k as int]) == Some(records@[k as int]@));
            }
            return Err(DbError::new(FailureKind::Query, String::from_str(STRAY)));
        }
        k = k + 1;
    }
    proof {
        assert forall|i: int| 0 <= i < rows_of(rows@).len() implies (R::read(
            #[trigger] rows_of(rows@)[i],
        ) matches Some(v) && R::owner(v) == owner@) by {
            assert(R::owner(records@[i]@) == owner@);
        }
    }
    Ok(records)
}

/// True where the tabs come by ascending position.
pub open spec fn ascending(tabs: Seq<Tab>) -> bool {
    forall|i: int, j: int|
        0 <= i <= j < tabs.len() ==> (#[trigger] tabs[i]).position <= (#[trigger] tabs[j]).position
}

/// Whether the tabs come by ascending position.
pub fn in_order(tabs: &Vec<Tab>) -> (r: bool)
    ensures
        r == ascending(tabs@),
{
    if tabs.len() < 2 {
        return true;
    }
    let mut k: usize = 1;
    while k < tabs.len()
        invariant
            1 <= k <= tabs@.len(),
            forall|i: int, j: int|
                0 <= i <= j < k ==> (#[trigger] tabs@[i]).position <= (#[trigger] tabs@[j]).position,
        decreases tabs@.len() - k,
    {
        if tabs[k - 1].position > tabs[k].position {
            return false;
        }
        k = k + 1;
    }
    true
}

/// True where `r` is the reading of the rows as the tabs of one workspace,
/// which come by ascending position: the tabs that the rows give, in the rows'
/// order, where each row gives a tab of that workspace and the rows are in
/// order; a `Query` failure otherwise.
pub open spec fn read_tabs_as(
    rows: Seq<Row>,
    workspace_id: Seq<char>,
    r: Result<Vec<Tab>, DbError>,
) -> bool {
    match r {
        Ok(tabs) => all_owned::<Tab>(rows, workspace_id) && by_position(rows) && tabs@.len()
            == rows.len() && forall|i: int|
            0 <= i < rows.len() ==> Tab::read(#[trigger] rows[i]) == Some(tabs@[i]@),
        Err(e) => !(all_owned::<Tab>(rows, workspace_id) && by_position(rows)) && e.kind
            == FailureKind::Query,
    }
}

/// The tabs that the rows of a query for one workspace give, in the rows'
/// order. Besides what [`read_owned`] asks, the tabs have to come by
/// ascending position: rows out of order fail the reading, as a `Query`
/// failure.
pub fn read_tabs(rows: &Vec<Vec<SqlValue>>, workspace_id: &str) -> (r: Result<Vec<Tab>, DbError>)
    ensures
        read_tabs_as(rows_of(rows@), workspace_id@, r),
        r matches Ok(tabs) ==> ascending(tabs@) && forall|i: int|
            0 <= i < tabs@.len() ==> (#[trigger] tabs@[i]@).workspace_id == workspace_id@,
{
    let tabs: Vec<Tab> = match read_owned(rows, workspace_id) {
        Ok(tabs) => tabs,
        Err(e) => {
            return Err(e);
        },
    };
    proof {
        assert forall|i: int| 0 <= i < rows@.len() implies position(#[trigger] rows_of(rows@)[i])
            == tabs@[i].position by {
            assert(Tab::read(rows_of(rows@)[i]) == Some(tabs@[i]@));
        }
    }
    let ordered = in_order(&tabs);
    proof {
        let read = rows_of(rows@);
        if ordered {
            assert forall|i: int, j: int| 0 <= i <= j < read.len() implies position(
                #[trigger] read[i],
            ) <= position(#[trigger] read[j]) by {
                assert(tabs@[i].position <= tabs@[j].position);
            }
        }
        if by_position(read) {
            assert forall|i: int, j: int| 0 <= i <= j < tabs@.len() implies (
            #[trigger] tabs@[i]).position <= (#[trigger] tabs@[j]).position by {
                assert(position(read[i]) <= position(read[j]));
            }
        }
    }
    if ordered {
        Ok(tabs)
    } else {
        Err(DbError::new(FailureKind::Query, String::from_str(DISORDER)))
    }
}

} // verus!
