use note_store::codec::{read_all, Record, MISFIT};
use note_store::db::answer_with;
use note_store::entity::{
    CustomTheme, Note, NoteTag, Project, Tab, Tag, Task, Workspace, WorkspaceSettings,
};
use note_store::error::{classify, DbError, FailureKind, Stage};
use note_store::schema::{Operation, DATABASE_FILE, SCHEMA};
use note_store::statement::Statement;
use note_store::value::SqlValue;

fn text(s: &str) -> SqlValue {
    SqlValue::Text(s.to_string())
}

fn sample_note() -> Note {
    Note {
        id: "n1".to_string(),
        title: "Groceries".to_string(),
        content: "milk".to_string(),
        project_id: "inbox".to_string(),
        created_at: "2024-01-01T00:00:00+00:00".to_string(),
        updated_at: "2024-01-02T00:00:00+00:00".to_string(),
        is_pinned: true,
    }
}

fn sample_tab() -> Tab {
    Tab {
        id: "t1".to_string(),
        workspace_id: "w1".to_string(),
        title: "Home".to_string(),
        content: None,
        type_: "editor".to_string(),
        position: -3,
        is_active: false,
    }
}

#[test]
fn values_of_fields() {
    assert_eq!(SqlValue::text("abc"), text("abc"));
    assert_eq!(SqlValue::text(""), text(""));
    assert_eq!(SqlValue::flag(true), SqlValue::Integer(1));
    assert_eq!(SqlValue::flag(false), SqlValue::Integer(0));
    assert_eq!(SqlValue::number(-7), SqlValue::Integer(-7));
    assert_eq!(SqlValue::number(i32::MAX), SqlValue::Integer(2147483647));
    assert_eq!(SqlValue::optional_text(&None), SqlValue::Null);
    assert_eq!(SqlValue::optional_text(&Some("x".to_string())), text("x"));
}

#[test]
fn text_fields_take_texts_only() {
    assert_eq!(text("abc").as_text(), Some("abc".to_string()));
    assert_eq!(SqlValue::Integer(1).as_text(), None);
    assert_eq!(SqlValue::Null.as_text(), None);
    assert_eq!(SqlValue::Other.as_text(), None);
}

#[test]
fn flags_take_any_integer() {
    assert_eq!(SqlValue::Integer(0).as_flag(), Some(false));
    assert_eq!(SqlValue::Integer(1).as_flag(), Some(true));
    assert_eq!(SqlValue::Integer(-5).as_flag(), Some(true));
    assert_eq!(text("1").as_flag(), None);
    assert_eq!(SqlValue::Null.as_flag(), None);
    assert_eq!(SqlValue::Other.as_flag(), None);
}

#[test]
fn numbers_stay_within_32_bits() {
    assert_eq!(SqlValue::Integer(2147483647).as_number(), Some(i32::MAX));
    assert_eq!(SqlValue::Integer(-2147483648).as_number(), Some(i32::MIN));
    assert_eq!(SqlValue::Integer(2147483648).as_number(), None);
    assert_eq!(SqlValue::Integer(-2147483649).as_number(), None);
    assert_eq!(text("7").as_number(), None);
    assert_eq!(SqlValue::Null.as_number(), None);
}

#[test]
fn optional_texts_take_null() {
    assert_eq!(SqlValue::Null.as_optional_text(), Some(None));
    assert_eq!(text("x").as_optional_text(), Some(Some("x".to_string())));
    assert_eq!(SqlValue::Integer(1).as_optional_text(), None);
    assert_eq!(SqlValue::Other.as_optional_text(), None);
}

#[test]
fn kinds_of_failure() {
    assert_eq!(classify(Stage::Opening, Some(14)), FailureKind::Io);
    assert_eq!(classify(Stage::Opening, None), FailureKind::Io);
    assert_eq!(classify(Stage::Opening, Some(1555)), FailureKind::Io);
    assert_eq!(classify(Stage::LayingOut, Some(1)), FailureKind::Schema);
    assert_eq!(classify(Stage::LayingOut, None), FailureKind::Schema);
    assert_eq!(classify(Stage::Running, Some(1555)), FailureKind::Conflict);
    assert_eq!(classify(Stage::Running, Some(2067)), FailureKind::Conflict);
    assert_eq!(classify(Stage::Running, Some(19)), FailureKind::ConstraintViolation);
    assert_eq!(classify(Stage::Running, Some(275)), FailureKind::ConstraintViolation);
    assert_eq!(classify(Stage::Running, Some(787)), FailureKind::ConstraintViolation);
    assert_eq!(classify(Stage::Running, Some(1299)), FailureKind::ConstraintViolation);
    assert_eq!(classify(Stage::Running, Some(1)), FailureKind::Query);
    assert_eq!(classify(Stage::Running, Some(0)), FailureKind::Query);
    assert_eq!(classify(Stage::Running, Some(20)), FailureKind::Query);
    assert_eq!(classify(Stage::Running, Some(-237)), FailureKind::Query);
    assert_eq!(classify(Stage::Running, Some(i32::MIN)), FailureKind::Query);
    assert_eq!(classify(Stage::Running, None), FailureKind::Query);
}

#[test]
fn failure_describes_itself() {
    let e = DbError::new(FailureKind::Conflict, "taken".to_string());
    assert_eq!(e.kind, FailureKind::Conflict);
    assert_eq!(e.describe(), "taken");
}

#[test]
fn rows_of_records() {
    let w = Workspace {
        id: "w1".to_string(),
        name: "Main".to_string(),
        type_: "personal".to_string(),
        theme_id: "th1".to_string(),
    };
    assert_eq!(w.to_row(), vec![text("w1"), text("Main"), text("personal"), text("th1")]);

    let s = WorkspaceSettings {
        workspace_id: "w1".to_string(),
        dark_mode: true,
        split_view: false,
        privacy_level: "high".to_string(),
        auto_save: true,
    };
    assert_eq!(
        s.to_row(),
        vec![
            text("w1"),
            SqlValue::Integer(1),
            SqlValue::Integer(0),
            text("high"),
            SqlValue::Integer(1)
        ]
    );

    let th = CustomTheme {
        id: "th1".to_string(),
        name: "Dusk".to_string(),
        type_: "dark".to_string(),
        primary_color: "#1".to_string(),
        secondary_color: "#2".to_string(),
        background_color: "#3".to_string(),
        surface_color: "#4".to_string(),
        text_color: "#5".to_string(),
        accent_color: "#6".to_string(),
    };
    assert_eq!(
        th.to_row(),
        vec![
            text("th1"),
            text("Dusk"),
            text("dark"),
            text("#1"),
            text("#2"),
            text("#3"),
            text("#4"),
            text("#5"),
            text("#6")
        ]
    );

    assert_eq!(
        sample_tab().to_row(),
        vec![
            text("t1"),
            text("w1"),
            text("Home"),
            SqlValue::Null,
            text("editor"),
            SqlValue::Integer(-3),
            SqlValue::Integer(0)
        ]
    );
    assert_eq!(
        sample_note().to_row(),
        vec![
            text("n1"),
            text("Groceries"),
            text("milk"),
            text("inbox"),
            text("2024-01-01T00:00:00+00:00"),
            text("2024-01-02T00:00:00+00:00"),
            SqlValue::Integer(1)
        ]
    );
    let link = NoteTag { note_id: "n1".to_string(), tag_id: "t1".to_string() };
    assert_eq!(link.to_row(), vec![text("n1"), text("t1")]);
}

#[test]
fn record_read_from_its_row() {
    let n = sample_note();
    assert_eq!(Note::from_row(&n.to_row()), Some(n));
    let t = sample_tab();
    assert_eq!(Tab::from_row(&t.to_row()), Some(t));
    let mut with_content = sample_tab();
    with_content.content = Some("body".to_string());
    assert_eq!(Tab::from_row(&with_content.to_row()), Some(with_content));
    let p = Project {
        id: "p".to_string(),
        name: "Inbox".to_string(),
        created_at: "a".to_string(),
        updated_at: "b".to_string(),
    };
    assert_eq!(Project::from_row(&p.to_row()), Some(p));
    let g = Tag { id: "g".to_string(), name: "errand".to_string(), created_at: "a".to_string() };
    assert_eq!(Tag::from_row(&g.to_row()), Some(g));
    let k = Task {
        id: "k".to_string(),
        content: "buy".to_string(),
        completed: true,
        note_id: "n1".to_string(),
        created_at: "a".to_string(),
        updated_at: "b".to_string(),
    };
    assert_eq!(Task::from_row(&k.to_row()), Some(k));
}

#[test]
fn row_that_fits_no_record() {
    let good = sample_note().to_row();
    let mut short = good.clone();
    short.pop();
    assert_eq!(Note::from_row(&short), None);
    let mut long = good.clone();
    long.push(SqlValue::Null);
    assert_eq!(Note::from_row(&long), None);
    let mut null_title = good.clone();
    null_title[1] = SqlValue::Null;
    assert_eq!(Note::from_row(&null_title), None);
    let mut text_flag = good.clone();
    text_flag[6] = text("yes");
    assert_eq!(Note::from_row(&text_flag), None);
    let mut any_flag = good.clone();
    any_flag[6] = SqlValue::Integer(42);
    assert_eq!(Note::from_row(&any_flag), Some(sample_note()));

    let mut far = sample_tab().to_row();
    far[5] = SqlValue::Integer(1 << 40);
    assert_eq!(Tab::from_row(&far), None);
    let mut blob = sample_tab().to_row();
    blob[3] = SqlValue::Other;
    assert_eq!(Tab::from_row(&blob), None);
}

#[test]
fn rows_read_in_their_order() {
    let mut a = sample_note();
    a.id = "a".to_string();
    let mut b = sample_note();
    b.id = "b".to_string();
    let rows = vec![b.to_row(), a.to_row()];
    assert_eq!(read_all::<Note>(&rows), Ok(vec![b.clone(), a.clone()]));
    assert_eq!(read_all::<Note>(&Vec::new()), Ok(Vec::new()));

    let bad = vec![a.to_row(), vec![SqlValue::Null], b.to_row()];
    let e = read_all::<Note>(&bad).unwrap_err();
    assert_eq!(e.kind, FailureKind::Query);
    assert_eq!(e.message, MISFIT);
}

#[test]
fn answer_of_a_write() {
    assert_eq!(answer_with(Ok(1), "x"), Ok("x"));
    assert_eq!(answer_with(Ok(0), ()), Ok(()));
    assert_eq!(answer_with(Ok(7), 3), Ok(3));
    let e = DbError::new(FailureKind::Conflict, "taken".to_string());
    assert_eq!(answer_with(Err(e.clone()), ()), Err(e));
}

#[test]
fn stamps_on_records() {
    let n = sample_note();
    let c = n.created("NOW");
    assert_eq!(c.created_at, "NOW");
    assert_eq!(c.updated_at, "NOW");
    assert_eq!((c.id, c.title, c.content, c.project_id, c.is_pinned), (n.id.clone(), n.title.clone(), n.content.clone(), n.project_id.clone(), true));
    let u = n.updated("LATER");
    assert_eq!(u.updated_at, "LATER");
    assert_eq!(u.created_at, n.created_at);
    assert_eq!(Note { updated_at: n.updated_at.clone(), ..u }, n);

    let g = Tag { id: "g".to_string(), name: "errand".to_string(), created_at: "old".to_string() };
    assert_eq!(
        g.created("NOW"),
        Tag { id: "g".to_string(), name: "errand".to_string(), created_at: "NOW".to_string() }
    );
    let p = Project {
        id: "p".to_string(),
        name: "Inbox".to_string(),
        created_at: "a".to_string(),
        updated_at: "b".to_string(),
    };
    assert_eq!(p.created("N"), Project { created_at: "N".to_string(), updated_at: "N".to_string(), ..p.clone() });
    assert_eq!(p.updated("N"), Project { updated_at: "N".to_string(), ..p.clone() });
    let k = Task {
        id: "k".to_string(),
        content: "buy".to_string(),
        completed: false,
        note_id: "n1".to_string(),
        created_at: "a".to_string(),
        updated_at: "b".to_string(),
    };
    assert_eq!(k.created("N"), Task { created_at: "N".to_string(), updated_at: "N".to_string(), ..k.clone() });
    assert_eq!(k.updated("N"), Task { updated_at: "N".to_string(), ..k.clone() });
}

#[test]
fn statements_and_their_values() {
    let n = sample_note();
    let s = Statement::insert_note(&n);
    assert_eq!(s.operation, Operation::InsertNote);
    assert_eq!(s.parameters, n.to_row());
    assert_eq!(
        s.operation.sql(),
        "INSERT INTO notes (id, title, content, project_id, created_at, updated_at, is_pinned) VALUES (?1, ?2, ?3, ?4, ?5, ?6, ?7)"
    );

    let s = Statement::update_note(&n);
    assert_eq!(s.operation, Operation::UpdateNote);
    assert_eq!(
        s.parameters,
        vec![
            text("Groceries"),
            text("milk"),
            SqlValue::Integer(1),
            text("2024-01-02T00:00:00+00:00"),
            text("n1")
        ]
    );
    assert_eq!(
        s.operation.sql(),
        "UPDATE notes SET title = ?1, content = ?2, is_pinned = ?3, updated_at = ?4 WHERE id = ?5"
    );

    let s = Statement::select_workspace_tabs("w9");
    assert_eq!(s.operation, Operation::SelectWorkspaceTabs);
    assert_eq!(s.parameters, vec![text("w9")]);
    assert_eq!(s.operation.width(), 7);
    assert_eq!(
        s.operation.sql(),
        "SELECT id, workspace_id, title, content, type, position, is_active FROM tabs WHERE workspace_id = ?1 ORDER BY position"
    );

    let s = Statement::select_projects();
    assert_eq!(s.operation, Operation::SelectProjects);
    assert_eq!(s.parameters, Vec::new());
    assert_eq!(s.operation.width(), 4);

    let s = Statement::insert_backup("b1", "w1", "{}");
    assert_eq!(s.operation, Operation::InsertBackup);
    assert_eq!(s.parameters, vec![text("b1"), text("w1"), text("{}")]);
    assert_eq!(s.operation.width(), 0);

    let s = Statement::update_tab_active("t1", true);
    assert_eq!(s.operation, Operation::UpdateTabActive);
    assert_eq!(s.parameters, vec![SqlValue::Integer(1), text("t1")]);

    let s = Statement::insert_note_tag("n1", "g1");
    assert_eq!(s.operation, Operation::InsertNoteTag);
    assert_eq!(s.parameters, vec![text("n1"), text("g1")]);
    let s = Statement::delete_note_tag("n1", "g1");
    assert_eq!(s.operation, Operation::DeleteNoteTag);
    assert_eq!(s.parameters, vec![text("n1"), text("g1")]);
    assert_eq!(
        s.operation.sql(),
        "DELETE FROM note_tags WHERE note_id = ?1 AND tag_id = ?2"
    );

    let p = Project {
        id: "p".to_string(),
        name: "Inbox".to_string(),
        created_at: "a".to_string(),
        updated_at: "b".to_string(),
    };
    assert_eq!(Statement::update_project(&p).parameters, vec![text("Inbox"), text("b"), text("p")]);
    let k = Task {
        id: "k".to_string(),
        content: "buy".to_string(),
        completed: false,
        note_id: "n1".to_string(),
        created_at: "a".to_string(),
        updated_at: "b".to_string(),
    };
    assert_eq!(
        Statement::update_task(&k).parameters,
        vec![text("buy"), SqlValue::Integer(0), text("b"), text("k")]
    );
    assert_eq!(Statement::delete_tag("g").parameters, vec![text("g")]);
    assert_eq!(Statement::delete_tag("g").operation, Operation::DeleteTag);
}

#[test]
fn widths_of_reads() {
    assert_eq!(Operation::SelectWorkspaces.width(), 4);
    assert_eq!(Operation::SelectNotes.width(), 7);
    assert_eq!(Operation::SelectTags.width(), 3);
    assert_eq!(Operation::SelectTasks.width(), 6);
    assert_eq!(Operation::SelectNoteTags.width(), 3);
    assert_eq!(Operation::DeleteNote.width(), 0);
    assert_eq!(Operation::InsertTab.width(), 0);
}

#[test]
fn layout_names() {
    assert_eq!(DATABASE_FILE, "app.db");
    assert_eq!(SCHEMA.matches("CREATE TABLE IF NOT EXISTS ").count(), 10);
    assert_eq!(SCHEMA.matches("CREATE ").count(), 10);
    assert_eq!(Operation::LayOut.sql(), SCHEMA);
    assert_eq!(Operation::LayOut.width(), 0);
}
