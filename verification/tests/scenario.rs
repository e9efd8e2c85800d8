use note_store::db::DbState;
use note_store::entity::{Note, Project, Tag};

fn titled(id: &str, title: &str, project_id: &str) -> Note {
    Note {
        id: id.to_string(),
        title: title.to_string(),
        content: String::new(),
        project_id: project_id.to_string(),
        created_at: String::new(),
        updated_at: String::new(),
        is_pinned: false,
    }
}

#[test]
fn inbox_groceries_errand() {
    let mut db = DbState::in_memory().unwrap();
    let p1 = Project {
        id: "p1".to_string(),
        name: "Inbox".to_string(),
        created_at: String::new(),
        updated_at: String::new(),
    };
    db.create_project(&p1).unwrap();

    let n1 = db.create_note(&titled("n1", "Groceries", "p1")).unwrap();
    assert!(!n1.created_at.is_empty());
    assert_eq!(n1.created_at, n1.updated_at);

    let t1 = Tag { id: "t1".to_string(), name: "errand".to_string(), created_at: String::new() };
    let t1 = db.create_tag(&t1).unwrap();
    db.add_tag_to_note("n1", "t1").unwrap();
    assert_eq!(db.get_note_tags("n1").unwrap(), vec![t1]);

    let mut pinned = n1.clone();
    pinned.is_pinned = true;
    let updated = db.update_note(&pinned).unwrap();
    assert!(updated.is_pinned);
    assert!(updated.updated_at > n1.created_at);
    assert_eq!(updated.created_at, n1.created_at);

    db.delete_project("p1").unwrap();
    let notes = db.get_notes("p1").unwrap();
    assert_eq!(notes.len(), 1);
    assert_eq!(notes[0].id, "n1");
    assert!(notes[0].is_pinned);
    assert_eq!(notes[0].created_at, n1.created_at);
    assert_eq!(notes[0].updated_at, updated.updated_at);
}
