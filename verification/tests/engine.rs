use note_store::codec::{in_order, read_owned, read_tabs, Owned, DISORDER, STRAY};
use note_store::db::{DbState, MISUSED, UNBINDABLE};
use note_store::entity::{
    CustomTheme, Note, Project, Tab, Tag, Task, Workspace, WorkspaceSettings,
};
use note_store::error::FailureKind;
use note_store::schema::Operation;
use note_store::statement::Statement;
use note_store::value::SqlValue;
use std::path::PathBuf;

fn open() -> DbState {
    DbState::in_memory().unwrap()
}

fn workspace(id: &str) -> Workspace {
    Workspace {
        id: id.to_string(),
        name: format!("name of {id}"),
        type_: "personal".to_string(),
        theme_id: "th1".to_string(),
    }
}

fn tab(id: &str, workspace_id: &str, position: i32) -> Tab {
    Tab {
        id: id.to_string(),
        workspace_id: workspace_id.to_string(),
        title: format!("title of {id}"),
        content: if position % 2 == 0 { Some(format!("content of {id}")) } else { None },
        type_: "editor".to_string(),
        position,
        is_active: position == 1,
    }
}

fn project(id: &str, name: &str) -> Project {
    Project {
        id: id.to_string(),
        name: name.to_string(),
        created_at: "given".to_string(),
        updated_at: "given too".to_string(),
    }
}

fn note(id: &str, project_id: &str) -> Note {
    Note {
        id: id.to_string(),
        title: format!("title of {id}"),
        content: format!("content of {id}"),
        project_id: project_id.to_string(),
        created_at: String::new(),
        updated_at: String::new(),
        is_pinned: false,
    }
}

fn tag(id: &str, name: &str) -> Tag {
    Tag { id: id.to_string(), name: name.to_string(), created_at: String::new() }
}

fn task(id: &str, note_id: &str) -> Task {
    Task {
        id: id.to_string(),
        content: format!("content of {id}"),
        completed: false,
        note_id: note_id.to_string(),
        created_at: String::new(),
        updated_at: String::new(),
    }
}

fn count(db: &DbState, table: &str) -> i64 {
    db.connection
        .query_row(&format!("SELECT COUNT(*) FROM {table}"), [], |row| row.get(0))
        .unwrap()
}

#[test]
fn workspace_is_read_back() {
    let mut db = open();
    assert_eq!(db.get_workspaces().unwrap(), Vec::new());
    db.create_workspace(&workspace("w1")).unwrap();
    db.create_workspace(&workspace("w2")).unwrap();
    let read = db.get_workspaces().unwrap();
    assert_eq!(read.len(), 2);
    assert!(read.contains(&workspace("w1")));
    assert!(read.contains(&workspace("w2")));
}

#[test]
fn tabs_come_by_position_and_workspace() {
    let mut db = open();
    db.create_tab(&tab("a", "w1", 3)).unwrap();
    db.create_tab(&tab("b", "w1", 1)).unwrap();
    db.create_tab(&tab("c", "w2", 0)).unwrap();
    db.create_tab(&tab("d", "w1", 2)).unwrap();
    db.create_tab(&tab("e", "w1", -4)).unwrap();
    assert_eq!(
        db.get_workspace_tabs("w1").unwrap(),
        vec![tab("e", "w1", -4), tab("b", "w1", 1), tab("d", "w1", 2), tab("a", "w1", 3)]
    );
    assert_eq!(db.get_workspace_tabs("w2").unwrap(), vec![tab("c", "w2", 0)]);
    assert_eq!(db.get_workspace_tabs("w3").unwrap(), Vec::new());
}

#[test]
fn tab_state_and_removal() {
    let mut db = open();
    db.create_tab(&tab("a", "w1", 2)).unwrap();
    db.create_tab(&tab("b", "w1", 3)).unwrap();
    db.update_tab_active_state("a", true).unwrap();
    let mut active = tab("a", "w1", 2);
    active.is_active = true;
    assert_eq!(db.get_workspace_tabs("w1").unwrap(), vec![active.clone(), tab("b", "w1", 3)]);
    db.update_tab_active_state("missing", true).unwrap();
    db.delete_tab("missing").unwrap();
    assert_eq!(db.get_workspace_tabs("w1").unwrap(), vec![active.clone(), tab("b", "w1", 3)]);
    db.delete_tab("b").unwrap();
    assert_eq!(db.get_workspace_tabs("w1").unwrap(), vec![active]);
}

#[test]
fn settings_replace_what_was_there() {
    let mut db = open();
    let first = WorkspaceSettings {
        workspace_id: "w1".to_string(),
        dark_mode: true,
        split_view: true,
        privacy_level: "high".to_string(),
        auto_save: false,
    };
    let second = WorkspaceSettings {
        workspace_id: "w1".to_string(),
        dark_mode: false,
        split_view: true,
        privacy_level: "low".to_string(),
        auto_save: true,
    };
    db.save_workspace_settings(&first).unwrap();
    db.save_workspace_settings(&second).unwrap();
    assert_eq!(count(&db, "workspace_settings"), 1);
    let stored: (String, bool, bool, String, bool) = db
        .connection
        .query_row(
            "SELECT workspace_id, dark_mode, split_view, privacy_level, auto_save FROM workspace_settings",
            [],
            |row| Ok((row.get(0)?, row.get(1)?, row.get(2)?, row.get(3)?, row.get(4)?)),
        )
        .unwrap();
    assert_eq!(stored, ("w1".to_string(), false, true, "low".to_string(), true));
    let other = WorkspaceSettings { workspace_id: "w2".to_string(), ..first };
    db.save_workspace_settings(&other).unwrap();
    assert_eq!(count(&db, "workspace_settings"), 2);
}

#[test]
fn theme_is_stored() {
    let mut db = open();
    let theme = CustomTheme {
        id: "th1".to_string(),
        name: "Dusk".to_string(),
        type_: "dark".to_string(),
        primary_color: "#1".to_string(),
        secondary_color: "#2".to_string(),
        background_color: "#3".to_string(),
        surface_color: "#4".to_string(),
        text_color: "#5".to_string(),
        accent_color: "#6".to_string(),
    };
    db.create_custom_theme(&theme).unwrap();
    let stored: (String, String, String, String) = db
        .connection
        .query_row(
            "SELECT id, type, background_color, accent_color FROM custom_themes",
            [],
            |row| Ok((row.get(0)?, row.get(1)?, row.get(2)?, row.get(3)?)),
        )
        .unwrap();
    assert_eq!(
        stored,
        ("th1".to_string(), "dark".to_string(), "#3".to_string(), "#6".to_string())
    );
    assert_eq!(db.create_custom_theme(&theme).unwrap_err().kind, FailureKind::Conflict);
}

#[test]
fn backup_gets_an_identifier_of_its_own() {
    let mut db = open();
    db.create_backup("w1", "{\"tabs\":[]}").unwrap();
    db.create_backup("w1", "{\"tabs\":[]}").unwrap();
    assert_eq!(count(&db, "backups"), 2);
    let mut statement = db
        .connection
        .prepare("SELECT id, workspace_id, data, created_at FROM backups")
        .unwrap();
    let rows: Vec<(String, String, String, String)> = statement
        .query_map([], |row| Ok((row.get(0)?, row.get(1)?, row.get(2)?, row.get(3)?)))
        .unwrap()
        .map(|row| row.unwrap())
        .collect();
    assert_eq!(rows[0].0.len(), 36);
    assert_eq!(rows[1].0.len(), 36);
    assert_ne!(rows[0].0, rows[1].0);
    for row in &rows {
        assert_eq!(row.1, "w1");
        assert_eq!(row.2, "{\"tabs\":[]}");
        assert!(!row.3.is_empty());
    }
}

#[test]
fn created_records_carry_the_clock() {
    let mut db = open();
    let p = db.create_project(&project("inbox", "Inbox")).unwrap();
    assert!(!p.created_at.is_empty());
    assert_ne!(p.created_at, "given");
    assert_eq!(p.created_at, p.updated_at);
    assert_eq!((p.id.as_str(), p.name.as_str()), ("inbox", "Inbox"));
    assert!(p.created_at.len() >= 25);
    assert!(p.created_at.ends_with("+00:00"));
    assert_eq!(&p.created_at[10..11], "T");

    let n = db.create_note(&note("n1", "inbox")).unwrap();
    assert!(!n.created_at.is_empty());
    assert_eq!(n.created_at, n.updated_at);
    assert_eq!(Note { created_at: String::new(), updated_at: String::new(), ..n.clone() }, note("n1", "inbox"));

    let g = db.create_tag(&tag("g1", "errand")).unwrap();
    assert!(!g.created_at.is_empty());
    assert_eq!(Tag { created_at: String::new(), ..g.clone() }, tag("g1", "errand"));

    let k = db.create_task(&task("k1", "n1")).unwrap();
    assert!(!k.created_at.is_empty());
    assert_eq!(k.created_at, k.updated_at);
    assert_eq!(Task { created_at: String::new(), updated_at: String::new(), ..k.clone() }, task("k1", "n1"));

    assert_eq!(db.get_projects().unwrap(), vec![p]);
    assert_eq!(db.get_notes("inbox").unwrap(), vec![n]);
    assert_eq!(db.get_tags().unwrap(), vec![g]);
    assert_eq!(db.get_tasks("n1").unwrap(), vec![k]);
}

#[test]
fn update_moves_the_time_of_change_only() {
    let mut db = open();
    let created = db.create_note(&note("n1", "inbox")).unwrap();
    let mut change = created.clone();
    change.title = "new title".to_string();
    change.content = "new content".to_string();
    change.is_pinned = true;
    change.project_id = "elsewhere".to_string();
    change.created_at = "forged".to_string();
    let mut updated = db.update_note(&change).unwrap();
    let mut rounds = 0;
    while updated.updated_at == created.updated_at && rounds < 100000 {
        updated = db.update_note(&change).unwrap();
        rounds += 1;
    }
    assert!(updated.updated_at > created.updated_at);
    assert_eq!(Note { updated_at: change.updated_at.clone(), ..updated.clone() }, change);

    let stored = db.get_notes("inbox").unwrap();
    assert_eq!(stored.len(), 1);
    assert_eq!(stored[0].created_at, created.created_at);
    assert_eq!(stored[0].project_id, "inbox");
    assert_eq!(stored[0].updated_at, updated.updated_at);
    assert_eq!(stored[0].title, "new title");
    assert_eq!(stored[0].content, "new content");
    assert!(stored[0].is_pinned);
    assert_eq!(db.get_notes("elsewhere").unwrap(), Vec::new());
}

#[test]
fn project_and_task_updates() {
    let mut db = open();
    let p = db.create_project(&project("inbox", "Inbox")).unwrap();
    let mut renamed = p.clone();
    renamed.name = "Archive".to_string();
    let updated = db.update_project(&renamed).unwrap();
    assert_eq!(updated.name, "Archive");
    assert_eq!(updated.created_at, p.created_at);
    assert!(updated.updated_at >= p.updated_at);
    assert_eq!(db.get_projects().unwrap(), vec![updated]);

    let k = db.create_task(&task("k1", "n1")).unwrap();
    let mut done = k.clone();
    done.completed = true;
    done.content = "done".to_string();
    done.note_id = "elsewhere".to_string();
    let updated = db.update_task(&done).unwrap();
    assert!(updated.completed);
    let stored = db.get_tasks("n1").unwrap();
    assert_eq!(stored.len(), 1);
    assert!(stored[0].completed);
    assert_eq!(stored[0].content, "done");
    assert_eq!(stored[0].note_id, "n1");
    assert_eq!(stored[0].created_at, k.created_at);
    assert_eq!(stored[0].updated_at, updated.updated_at);
}

#[test]
fn reads_keep_to_their_owner() {
    let mut db = open();
    db.create_note(&note("n1", "pa")).unwrap();
    db.create_note(&note("n2", "pb")).unwrap();
    db.create_note(&note("n3", "pa")).unwrap();
    let of_a: Vec<String> = db.get_notes("pa").unwrap().into_iter().map(|n| n.id).collect();
    let of_b: Vec<String> = db.get_notes("pb").unwrap().into_iter().map(|n| n.id).collect();
    assert_eq!(of_a.len(), 2);
    assert!(of_a.contains(&"n1".to_string()) && of_a.contains(&"n3".to_string()));
    assert_eq!(of_b, vec!["n2".to_string()]);

    db.create_task(&task("k1", "n1")).unwrap();
    db.create_task(&task("k2", "n2")).unwrap();
    let of_n1: Vec<String> = db.get_tasks("n1").unwrap().into_iter().map(|k| k.id).collect();
    let of_n2: Vec<String> = db.get_tasks("n2").unwrap().into_iter().map(|k| k.id).collect();
    assert_eq!(of_n1, vec!["k1".to_string()]);
    assert_eq!(of_n2, vec!["k2".to_string()]);
    assert_eq!(db.get_tasks("n3").unwrap(), Vec::new());
}

#[test]
fn tags_attach_and_detach() {
    let mut db = open();
    let errand = db.create_tag(&tag("g1", "errand")).unwrap();
    let home = db.create_tag(&tag("g2", "home")).unwrap();
    db.add_tag_to_note("n1", "g1").unwrap();
    assert_eq!(db.get_note_tags("n1").unwrap(), vec![errand.clone()]);
    assert_eq!(db.get_note_tags("n2").unwrap(), Vec::new());
    db.add_tag_to_note("n1", "g2").unwrap();
    db.add_tag_to_note("n2", "g1").unwrap();
    let of_n1 = db.get_note_tags("n1").unwrap();
    assert_eq!(of_n1.len(), 2);
    assert!(of_n1.contains(&errand) && of_n1.contains(&home));
    db.remove_tag_from_note("n1", "g1").unwrap();
    assert_eq!(db.get_note_tags("n1").unwrap(), vec![home]);
    assert_eq!(db.get_note_tags("n2").unwrap(), vec![errand]);
}

#[test]
fn tag_attached_twice_shows_twice() {
    let mut db = open();
    let errand = db.create_tag(&tag("g1", "errand")).unwrap();
    db.add_tag_to_note("n1", "g1").unwrap();
    db.add_tag_to_note("n1", "g1").unwrap();
    assert_eq!(count(&db, "note_tags"), 2);
    assert_eq!(db.get_note_tags("n1").unwrap(), vec![errand.clone(), errand]);
    db.remove_tag_from_note("n1", "g1").unwrap();
    assert_eq!(count(&db, "note_tags"), 0);
    assert_eq!(db.get_note_tags("n1").unwrap(), Vec::new());
}

#[test]
fn tag_that_is_not_stored_is_not_listed() {
    let mut db = open();
    db.add_tag_to_note("n1", "ghost").unwrap();
    assert_eq!(count(&db, "note_tags"), 1);
    assert_eq!(db.get_note_tags("n1").unwrap(), Vec::new());
    let ghost = db.create_tag(&tag("ghost", "late")).unwrap();
    assert_eq!(db.get_note_tags("n1").unwrap(), vec![ghost]);
}

#[test]
fn removal_does_not_reach_further() {
    let mut db = open();
    db.create_project(&project("inbox", "Inbox")).unwrap();
    let n = db.create_note(&note("n1", "inbox")).unwrap();
    let k = db.create_task(&task("k1", "n1")).unwrap();
    db.create_tag(&tag("g1", "errand")).unwrap();
    db.add_tag_to_note("n1", "g1").unwrap();

    db.delete_project("inbox").unwrap();
    assert_eq!(db.get_projects().unwrap(), Vec::new());
    assert_eq!(db.get_notes("inbox").unwrap(), vec![n]);

    db.delete_note("n1").unwrap();
    assert_eq!(db.get_notes("inbox").unwrap(), Vec::new());
    assert_eq!(db.get_tasks("n1").unwrap(), vec![k]);
    assert_eq!(db.get_note_tags("n1").unwrap().len(), 1);

    db.delete_tag("g1").unwrap();
    assert_eq!(db.get_tags().unwrap(), Vec::new());
    assert_eq!(count(&db, "note_tags"), 1);
    assert_eq!(db.get_note_tags("n1").unwrap(), Vec::new());

    db.delete_task("k1").unwrap();
    assert_eq!(db.get_tasks("n1").unwrap(), Vec::new());
}

#[test]
fn missing_identifier_is_no_failure() {
    let mut db = open();
    let p = db.create_project(&project("inbox", "Inbox")).unwrap();
    let n = db.create_note(&note("n1", "inbox")).unwrap();
    let k = db.create_task(&task("k1", "n1")).unwrap();
    let g = db.create_tag(&tag("g1", "errand")).unwrap();
    db.add_tag_to_note("n1", "g1").unwrap();

    assert_eq!(db.delete_project("nobody"), Ok(()));
    assert_eq!(db.delete_note("nobody"), Ok(()));
    assert_eq!(db.delete_task("nobody"), Ok(()));
    assert_eq!(db.delete_tag("nobody"), Ok(()));
    assert_eq!(db.remove_tag_from_note("n1", "nobody"), Ok(()));
    assert_eq!(db.remove_tag_from_note("nobody", "g1"), Ok(()));
    assert!(db.update_note(&note("nobody", "inbox")).is_ok());
    assert!(db.update_project(&project("nobody", "x")).is_ok());
    assert!(db.update_task(&task("nobody", "n1")).is_ok());

    assert_eq!(db.get_projects().unwrap(), vec![p]);
    assert_eq!(db.get_notes("inbox").unwrap(), vec![n]);
    assert_eq!(db.get_tasks("n1").unwrap(), vec![k]);
    assert_eq!(db.get_tags().unwrap(), vec![g.clone()]);
    assert_eq!(db.get_note_tags("n1").unwrap(), vec![g]);
    assert_eq!(db.execute(&Statement::delete_note("nobody")), Ok(0));
    assert_eq!(db.execute(&Statement::delete_note("n1")), Ok(1));
}

#[test]
fn identifier_stored_twice_is_a_conflict() {
    let mut db = open();
    db.create_workspace(&workspace("w1")).unwrap();
    assert_eq!(db.create_workspace(&workspace("w1")).unwrap_err().kind, FailureKind::Conflict);
    db.create_tab(&tab("a", "w1", 1)).unwrap();
    assert_eq!(db.create_tab(&tab("a", "w2", 5)).unwrap_err().kind, FailureKind::Conflict);
    db.create_project(&project("inbox", "Inbox")).unwrap();
    assert_eq!(db.create_project(&project("inbox", "x")).unwrap_err().kind, FailureKind::Conflict);
    db.create_note(&note("n1", "inbox")).unwrap();
    let e = db.create_note(&note("n1", "archive")).unwrap_err();
    assert_eq!(e.kind, FailureKind::Conflict);
    assert!(!e.describe().is_empty());
    db.create_tag(&tag("g1", "errand")).unwrap();
    assert_eq!(db.create_tag(&tag("g1", "x")).unwrap_err().kind, FailureKind::Conflict);
    db.create_task(&task("k1", "n1")).unwrap();
    assert_eq!(db.create_task(&task("k1", "n1")).unwrap_err().kind, FailureKind::Conflict);
    assert_eq!(db.get_workspaces().unwrap(), vec![workspace("w1")]);
    assert_eq!(db.get_workspace_tabs("w1").unwrap(), vec![tab("a", "w1", 1)]);
    assert_eq!(db.get_notes("archive").unwrap(), Vec::new());
}

#[test]
fn missing_value_violates_a_constraint() {
    let mut db = open();
    let mut row = note("n1", "inbox").to_row_for_test();
    row[1] = SqlValue::Null;
    let statement = Statement { operation: Operation::InsertNote, parameters: row };
    assert_eq!(db.execute(&statement).unwrap_err().kind, FailureKind::ConstraintViolation);
    assert_eq!(db.get_notes("inbox").unwrap(), Vec::new());
}

trait RowForTest {
    fn to_row_for_test(&self) -> Vec<SqlValue>;
}

impl RowForTest for Note {
    fn to_row_for_test(&self) -> Vec<SqlValue> {
        Statement::insert_note(self).parameters
    }
}

#[test]
fn statement_that_cannot_run_is_a_query_failure() {
    let mut db = open();
    let unbindable = Statement {
        operation: Operation::DeleteNote,
        parameters: vec![SqlValue::Other],
    };
    let e = db.execute(&unbindable).unwrap_err();
    assert_eq!(e.kind, FailureKind::Query);
    assert_eq!(e.message, UNBINDABLE);
    let e = db
        .query(&Statement { operation: Operation::SelectNotes, parameters: vec![SqlValue::Other] })
        .unwrap_err();
    assert_eq!(e.kind, FailureKind::Query);
    assert_eq!(e.message, UNBINDABLE);

    let too_many = Statement {
        operation: Operation::DeleteNote,
        parameters: vec![SqlValue::Integer(1), SqlValue::Integer(2)],
    };
    assert_eq!(db.execute(&too_many).unwrap_err().kind, FailureKind::Query);
    db.create_tag(&tag("g1", "errand")).unwrap();
    let e = db.execute(&Statement::select_tags()).unwrap_err();
    assert_eq!((e.kind, e.message.as_str()), (FailureKind::Query, MISUSED));
    let e = db.query(&Statement::delete_tag("g1")).unwrap_err();
    assert_eq!((e.kind, e.message.as_str()), (FailureKind::Query, MISUSED));
    assert_eq!(db.get_tags().unwrap().len(), 1);
    db.connection.execute_batch("DROP TABLE tags").unwrap();
    assert_eq!(db.get_tags().unwrap_err().kind, FailureKind::Query);
    assert_eq!(db.delete_tag("g1").unwrap_err().kind, FailureKind::Query);
}

#[test]
fn stored_value_that_fits_no_field_is_a_query_failure() {
    let mut db = open();
    db.create_tab(&tab("a", "w1", 1)).unwrap();
    db.connection
        .execute("INSERT INTO tabs VALUES ('b', 'w1', 't', NULL, 'k', 99999999999, 1)", [])
        .unwrap();
    assert_eq!(db.get_workspace_tabs("w1").unwrap_err().kind, FailureKind::Query);
    db.connection.execute("UPDATE tabs SET position = 2.5 WHERE id = 'b'", []).unwrap();
    assert_eq!(db.get_workspace_tabs("w1").unwrap_err().kind, FailureKind::Query);
    db.connection.execute("UPDATE tabs SET position = 2, title = x'00ff' WHERE id = 'b'", []).unwrap();
    assert_eq!(db.get_workspace_tabs("w1").unwrap_err().kind, FailureKind::Query);
    db.connection.execute("UPDATE tabs SET title = 't', is_active = 7 WHERE id = 'b'", []).unwrap();
    let tabs = db.get_workspace_tabs("w1").unwrap();
    assert_eq!(tabs.len(), 2);
    assert_eq!(tabs[1].id, "b");
    assert!(tabs[1].is_active);
}

#[test]
fn query_hands_back_rows_of_the_statements_width() {
    let mut db = open();
    let n = db.create_note(&note("n1", "inbox")).unwrap();
    let rows = db.query(&Statement::select_notes("inbox")).unwrap();
    assert_eq!(rows, vec![Statement::insert_note(&n).parameters]);
    assert_eq!(rows[0].len(), 7);
    assert_eq!(rows[0][6], SqlValue::Integer(0));
    assert_eq!(db.query(&Statement::select_notes("archive")).unwrap(), Vec::<Vec<SqlValue>>::new());
}

#[test]
fn laying_out_twice_keeps_the_rows() {
    let mut db = open();
    let p = db.create_project(&project("inbox", "Inbox")).unwrap();
    db.create_workspace(&workspace("w1")).unwrap();
    assert_eq!(db.initialize(), Ok(()));
    assert_eq!(db.initialize(), Ok(()));
    assert_eq!(db.get_projects().unwrap(), vec![p]);
    assert_eq!(db.get_workspaces().unwrap(), vec![workspace("w1")]);
}

#[test]
fn layout_that_cannot_be_made_is_a_schema_failure() {
    let mut db = open();
    db.connection
        .execute_batch("DROP TABLE tags; CREATE TABLE other (x); CREATE INDEX tags ON other (x);")
        .unwrap();
    let e = db.initialize().unwrap_err();
    assert_eq!(e.kind, FailureKind::Schema);
    assert!(!e.describe().is_empty());
}

#[test]
fn directory_that_is_missing_is_an_io_failure() {
    let e = match DbState::new(PathBuf::from("/nowhere/at/all/for/notes")) {
        Ok(_) => panic!("opened a database in a directory that does not exist"),
        Err(e) => e,
    };
    assert_eq!(e.kind, FailureKind::Io);
    assert!(!e.describe().is_empty());
}

#[test]
fn file_is_opened_again_with_its_rows() {
    let id = uuid::Uuid::new_v4().to_string();
    let mut first = DbState::new(PathBuf::from("/tmp")).unwrap();
    let mut w = workspace("w");
    w.id = id.clone();
    first.create_workspace(&w).unwrap();
    drop(first);
    let mut second = DbState::new(PathBuf::from("/tmp")).unwrap();
    assert!(second.get_workspaces().unwrap().contains(&w));
    assert_eq!(second.create_workspace(&w).unwrap_err().kind, FailureKind::Conflict);
    let path: Option<String> = second.connection.path().map(|p| p.to_string());
    assert_eq!(path, Some("/tmp/app.db".to_string()));
    second.connection.execute("DELETE FROM workspaces WHERE id = ?1", [&id]).unwrap();
}

#[test]
fn stray_rows_are_refused() {
    let a = tab("a", "w1", 1);
    let b = tab("b", "w1", 1);
    let c = tab("c", "w1", 4);
    let rows = vec![
        Statement::insert_tab(&a).parameters,
        Statement::insert_tab(&b).parameters,
        Statement::insert_tab(&c).parameters,
    ];
    assert_eq!(read_tabs(&rows, "w1"), Ok(vec![a.clone(), b.clone(), c.clone()]));
    assert_eq!(read_owned::<Tab>(&rows, "w1"), Ok(vec![a.clone(), b.clone(), c.clone()]));
    assert_eq!(read_tabs(&Vec::new(), "w1"), Ok(Vec::new()));

    let e = read_tabs(&rows, "w2").unwrap_err();
    assert_eq!((e.kind, e.message.as_str()), (FailureKind::Query, STRAY));
    let e = read_owned::<Tab>(&rows, "W1").unwrap_err();
    assert_eq!((e.kind, e.message.as_str()), (FailureKind::Query, STRAY));

    let backwards = vec![
        Statement::insert_tab(&c).parameters,
        Statement::insert_tab(&a).parameters,
    ];
    let e = read_tabs(&backwards, "w1").unwrap_err();
    assert_eq!((e.kind, e.message.as_str()), (FailureKind::Query, DISORDER));
    assert_eq!(read_owned::<Tab>(&backwards, "w1"), Ok(vec![c.clone(), a.clone()]));

    assert!(in_order(&vec![a.clone(), b.clone(), c.clone()]));
    assert!(in_order(&vec![b.clone()]));
    assert!(in_order(&Vec::new()));
    assert!(!in_order(&vec![a.clone(), c.clone(), b.clone()]));

    let mixed = vec![
        Statement::insert_note(&note("n1", "inbox")).parameters,
        Statement::insert_note(&note("n2", "archive")).parameters,
    ];
    assert_eq!(read_owned::<Note>(&mixed, "inbox").unwrap_err().message, STRAY);
    assert_eq!(read_owned::<Note>(&mixed[..1].to_vec(), "inbox"), Ok(vec![note("n1", "inbox")]));
    let misfit = vec![vec![SqlValue::Null]];
    assert_eq!(read_owned::<Task>(&misfit, "n1").unwrap_err().kind, FailureKind::Query);
}

#[test]
fn every_statement_is_one_that_sqlite_takes() {
    let db = open();
    let all = [
        (Operation::InsertWorkspace, 4, 0),
        (Operation::SelectWorkspaces, 0, 4),
        (Operation::ReplaceWorkspaceSettings, 5, 0),
        (Operation::InsertCustomTheme, 9, 0),
        (Operation::InsertTab, 7, 0),
        (Operation::SelectWorkspaceTabs, 1, 7),
        (Operation::UpdateTabActive, 2, 0),
        (Operation::DeleteTab, 1, 0),
        (Operation::InsertBackup, 3, 0),
        (Operation::InsertNote, 7, 0),
        (Operation::SelectNotes, 1, 7),
        (Operation::UpdateNote, 5, 0),
        (Operation::DeleteNote, 1, 0),
        (Operation::InsertProject, 4, 0),
        (Operation::SelectProjects, 0, 4),
        (Operation::UpdateProject, 3, 0),
        (Operation::DeleteProject, 1, 0),
        (Operation::InsertTag, 3, 0),
        (Operation::SelectTags, 0, 3),
        (Operation::DeleteTag, 1, 0),
        (Operation::InsertTask, 6, 0),
        (Operation::SelectTasks, 1, 6),
        (Operation::UpdateTask, 4, 0),
        (Operation::DeleteTask, 1, 0),
        (Operation::InsertNoteTag, 2, 0),
        (Operation::DeleteNoteTag, 2, 0),
        (Operation::SelectNoteTags, 1, 3),
    ];
    for (operation, parameters, columns) in all {
        let statement = db.connection.prepare(operation.sql()).unwrap();
        assert_eq!(statement.parameter_count(), parameters, "{:?}", operation);
        assert_eq!(statement.column_count(), columns, "{:?}", operation);
        assert_eq!(operation.width(), columns, "{:?}", operation);
    }
}

#[test]
fn tables_have_the_columns_of_their_records() {
    let db = open();
    let tables = [
        ("workspaces", 4),
        ("workspace_settings", 5),
        ("custom_themes", 9),
        ("tabs", 7),
        ("backups", 4),
        ("projects", 4),
        ("notes", 7),
        ("tags", 3),
        ("tasks", 6),
        ("note_tags", 2),
    ];
    for (table, columns) in tables {
        let n: i64 = db
            .connection
            .query_row(&format!("SELECT COUNT(*) FROM pragma_table_info('{table}')"), [], |row| {
                row.get(0)
            })
            .unwrap();
        assert_eq!(n, columns, "{table}");
    }
    let n: i64 = db
        .connection
        .query_row("SELECT COUNT(*) FROM sqlite_master WHERE type = 'table'", [], |row| row.get(0))
        .unwrap();
    assert_eq!(n, 10);
}

#[test]
fn record_knows_its_owner() {
    assert!(tab("a", "w1", 1).belongs_to(&"w1".to_string()));
    assert!(!tab("a", "w1", 1).belongs_to(&"w".to_string()));
    assert!(!tab("a", "w1", 1).belongs_to(&"a".to_string()));
    assert!(note("n", "inbox").belongs_to(&"inbox".to_string()));
    assert!(!note("n", "inbox").belongs_to(&"n".to_string()));
    assert!(task("k", "n1").belongs_to(&"n1".to_string()));
    assert!(!task("k", "n1").belongs_to(&String::new()));
}

#[test]
fn layout_is_a_batch_and_no_single_statement() {
    let mut db = open();
    db.create_workspace(&workspace("w1")).unwrap();
    let layout = Statement { operation: Operation::LayOut, parameters: Vec::new() };
    assert_eq!(db.execute(&layout).unwrap_err().kind, FailureKind::Query);
    assert_eq!(db.initialize(), Ok(()));
    assert_eq!(db.get_workspaces().unwrap(), vec![workspace("w1")]);
    db.connection.execute_batch("DROP TABLE tags").unwrap();
    assert_eq!(db.get_tags().unwrap_err().kind, FailureKind::Query);
    assert_eq!(db.initialize(), Ok(()));
    assert_eq!(db.get_tags().unwrap(), Vec::new());
    assert_eq!(db.get_workspaces().unwrap(), vec![workspace("w1")]);
}
