//! What follows from the meaning of the statements: the laws that a caller of
//! the engine can rely on, as far as the database does what `model` says.

use vstd::prelude::*;
use crate::codec::{all_owned, Owned, Record, Row};
use crate::db::settled;
use crate::entity::{Note, Project, Tab, Tag, Task, Workspace};
use crate::error::DbError;
use crate::model::{
    accepts, after, all_held, answers, attached, by_position, earlier, faithful, fits, found,
    holds_key, keys_differ, layout, opened, rewritten, store_at, table_of, Exchange, Store,
};
use crate::schema::{Operation, Shape, Table};
use crate::statement::{
    about, note_changes, project_changes, stated, task_changes, StatementView,
};
use crate::value::{flag_value, text_in, Datum};

verus! {

/// A filtered sequence holds exactly the members that pass.
proof fn lemma_filter_member(rows: Seq<Row>, pass: spec_fn(Row) -> bool, row: Row)
    ensures
        rows.filter(pass).contains(row) <==> rows.contains(row) && pass(row),
{
    broadcast use vstd::seq_lib::group_filter_ensures;

    if rows.filter(pass).contains(row) {
        rows.lemma_filter_contains_rev(pass, row);
        let i = choose|i: int| 0 <= i < rows.filter(pass).len() && rows.filter(pass)[i] == row;
        rows.lemma_filter_pred(pass, i);
    }
    if rows.contains(row) && pass(row) {
        let i = choose|i: int| 0 <= i < rows.len() && rows[i] == row;
        rows.lemma_filter_contains(pass, i);
    }
}

/// A filter that every member passes changes nothing.
proof fn lemma_filter_all(rows: Seq<Row>, pass: spec_fn(Row) -> bool)
    requires
        forall|i: int| 0 <= i < rows.len() ==> pass(#[trigger] rows[i]),
    ensures
        rows.filter(pass) == rows,
    decreases rows.len(),
{
    reveal(Seq::filter);
    if rows.len() > 0 {
        lemma_filter_all(rows.drop_last(), pass);
        assert(rows.drop_last().push(rows.last()) =~= rows);
    }
}

/// An answer holds exactly the rows that the statement finds.
proof fn lemma_answer_member(store: Store, statement: StatementView, rows: Seq<Row>, row: Row)
    requires
        answers(store, statement, rows),
    ensures
        rows.contains(row) <==> found(store, statement).contains(row),
{
    let read = found(store, statement);
    rows.to_multiset_ensures();
    read.to_multiset_ensures();
    assert(rows.contains(row) <==> rows.to_multiset().count(row) > 0);
    assert(read.contains(row) <==> read.to_multiset().count(row) > 0);
}

/// Every row of a table is in every answer to a statement that reads the
/// whole table, or the rows of the owner that the row names.
proof fn lemma_held_row_is_read(store: Store, query: StatementView, rows: Seq<Row>, row: Row)
    requires
        answers(store, query, rows),
        match query.operation.shape() {
            Shape::All { table } => store.rows(table).contains(row),
            Shape::Owned { table, column, ordered } => store.rows(table).contains(row)
                && query.parameters[0] == row[column],
            _ => false,
        },
    ensures
        rows.contains(row),
{
    match query.operation.shape() {
        Shape::Owned { table, column, ordered } => {
            lemma_filter_member(
                store.rows(table),
                |other: Row| other[column] == query.parameters[0],
                row,
            );
        },
        _ => {},
    }
    lemma_answer_member(store, query, rows, row);
}

/// A row that is stored is read back: after an insertion that the store
/// runs, every answer to a statement that reads the whole table, or the rows
/// of the owner that the new row names, holds the new row.
pub proof fn stored_row_is_read(
    store: Store,
    insert: StatementView,
    query: StatementView,
    rows: Seq<Row>,
)
    requires
        accepts(store, insert),
        insert.operation.shape() matches Shape::Insert { table } && match query.operation.shape() {
            Shape::All { table: read } => read == table,
            Shape::Owned { table: read, column, ordered } => read == table && 0 <= column
                < insert.parameters.len() && query.parameters[0] == insert.parameters[column],
            _ => false,
        },
        answers(after(store, insert), query, rows),
    ensures
        rows.contains(insert.parameters),
{
    let stored = store.rows(table_of(insert)).push(insert.parameters);
    assert(stored[stored.len() - 1] == insert.parameters);
    lemma_held_row_is_read(after(store, insert), query, rows, insert.parameters);
}

/// A read that is scoped to an owner hands back rows of that owner only: a
/// row stored under another owner is in no answer.
pub proof fn scoped_rows_are_the_owners(store: Store, query: StatementView, rows: Seq<Row>, i: int)
    requires
        answers(store, query, rows),
        query.operation.shape() is Owned,
        0 <= i < rows.len(),
    ensures
        query.operation.shape() matches Shape::Owned { table, column, ordered } && rows[i][column]
            == query.parameters[0],
{
    match query.operation.shape() {
        Shape::Owned { table, column, ordered } => {
            assert(rows.contains(rows[i]));
            lemma_answer_member(store, query, rows, rows[i]);
            lemma_filter_member(
                store.rows(table),
                |row: Row| row[column] == query.parameters[0],
                rows[i],
            );
        },
        _ => {},
    }
}

/// A statement that removes or rewrites by a key that no row has runs and
/// changes nothing; so does the removal of an attachment that is not there.
pub proof fn missing_key_changes_nothing(store: Store, statement: StatementView)
    requires
        fits(statement),
        store.has(table_of(statement)),
        match statement.operation.shape() {
            Shape::Delete { table } => !holds_key(store.rows(table), statement.parameters[0]),
            Shape::Update { table, assignments, key } => !holds_key(
                store.rows(table),
                statement.parameters[key],
            ),
            Shape::Detach => forall|i: int|
                0 <= i < store.rows(Table::NoteTags).len() ==> !((#[trigger] store.rows(
                    Table::NoteTags,
                )[i])[0] == statement.parameters[0] && store.rows(Table::NoteTags)[i][1]
                    == statement.parameters[1]),
            _ => false,
        },
    ensures
        accepts(store, statement),
        after(store, statement) == store,
{
    let p = statement.parameters;
    let table = table_of(statement);
    let rows = store.rows(table);
    match statement.operation.shape() {
        Shape::Delete { table } => {
            lemma_filter_all(rows, |row: Row| row[0] != p[0]);
        },
        Shape::Update { table, assignments, key } => {
            let rewrite = |row: Row|
                if row[0] == p[key] {
                    rewritten(row, assignments, p)
                } else {
                    row
                };
            assert(rows.map_values(rewrite) =~= rows);
        },
        Shape::Detach => {
            lemma_filter_all(rows, |row: Row| !(row[0] == p[0] && row[1] == p[1]));
        },
        _ => {},
    }
    assert(after(store, statement).tables =~= store.tables);
}

/// An update leaves the table with as many rows as it had, in the same
/// places, and with every column that it does not assign as it was: the key,
/// the owner and the time of creation of a record outlast every update.
pub proof fn update_spares_the_rest(store: Store, update: StatementView, i: int, c: int)
    requires
        accepts(store, update),
        update.operation.shape() matches Shape::Update { table, assignments, key } && 0 <= i
            < store.rows(table).len() && 0 <= c < store.rows(table)[i].len()
            && !assignments.contains_key(c),
    ensures
        after(store, update).rows(table_of(update)).len() == store.rows(table_of(update)).len(),
        after(store, update).rows(table_of(update))[i][c] == store.rows(table_of(update))[i][c],
{
}

/// An update gives each column that it assigns the value bound for it, in
/// every row that has the key, and leaves every other row as it was.
pub proof fn update_rewrites_the_keyed(store: Store, update: StatementView, i: int, c: int)
    requires
        accepts(store, update),
        update.operation.shape() matches Shape::Update { table, assignments, key } && 0 <= i
            < store.rows(table).len() && 0 <= c < store.rows(table)[i].len(),
    ensures
        update.operation.shape() matches Shape::Update { table, assignments, key } && after(
            store,
            update,
        ).rows(table)[i][c] == if store.rows(table)[i][0] == update.parameters[key]
            && assignments.contains_key(c) {
            update.parameters[assignments[c]]
        } else {
            store.rows(table)[i][c]
        },
{
}

/// Laying out the tables a second time changes nothing, and laying them out
/// at all loses no row: every table is there afterwards, a table that was
/// there keeps its rows, and a sound store stays sound.
pub proof fn laying_out_again(store: Store)
    ensures
        store.laid_out().laid_out() == store.laid_out(),
        forall|table: Table| #[trigger] store.laid_out().has(table),
        forall|table: Table| #[trigger] store.laid_out().rows(table) == store.rows(table),
        store.sound() ==> store.laid_out().sound(),
{
    assert(store.laid_out().laid_out().tables =~= store.laid_out().tables);
    if store.sound() {
        assert forall|table: Table| #[trigger] store.laid_out().has(table) implies all_held(
            table,
            store.laid_out().rows(table),
        ) && (table.keyed() ==> keys_differ(store.laid_out().rows(table))) by {
            assert(store.has(table) || store.rows(table).len() == 0);
        }
    }
}

/// A statement changes its own table at most: the rows of every other table
/// stay, whatever they refer to. Removing a project leaves its notes, and
/// removing a note or a tag leaves the tasks and the attachments. The layout
/// changes the rows of no table at all; no statement but the layout lays a
/// table out, and none does away with one.
pub proof fn other_tables_stay(store: Store, statement: StatementView, table: Table)
    requires
        statement.operation.shape() is LayOut || table != table_of(statement),
    ensures
        after(store, statement).rows(table) == store.rows(table),
        store.has(table) ==> after(store, statement).has(table),
        after(store, statement).has(table) ==> store.has(table)
            || statement.operation.shape() is LayOut,
{
}

/// The tag rows attached to a note are the stored tags whose identifier some
/// attachment of the note names.
proof fn lemma_attached_member(links: Seq<Row>, tags: Seq<Row>, note: Datum, tag: Row)
    ensures
        attached(links, tags, note).contains(tag) <==> tags.contains(tag) && exists|i: int|
            0 <= i < links.len() && (#[trigger] links[i])[0] == note && links[i][1] == tag[0],
    decreases links.len(),
{
    if links.len() > 0 {
        let link = links.last();
        let earlier = links.drop_last();
        let named = tags.filter(|row: Row| row[0] == link[1]);
        lemma_attached_member(earlier, tags, note, tag);
        lemma_filter_member(tags, |row: Row| row[0] == link[1], tag);
        let before = attached(earlier, tags, note);
        if link[0] == note {
            assert(attached(links, tags, note) == before + named);
            assert((before + named).contains(tag) <==> before.contains(tag) || named.contains(tag))
                by {
                if before.contains(tag) {
                    let k = choose|k: int| 0 <= k < before.len() && before[k] == tag;
                    assert((before + named)[k] == tag);
                }
                if named.contains(tag) {
                    let k = choose|k: int| 0 <= k < named.len() && named[k] == tag;
                    assert((before + named)[before.len() + k] == tag);
                }
                if (before + named).contains(tag) {
                    let k = choose|k: int| 0 <= k < (before + named).len() && (before + named)[k]
                        == tag;
                    if k < before.len() {
                        assert(before[k] == tag);
                    } else {
                        assert(named[k - before.len()] == tag);
                    }
                }
            }
        }
        if exists|i: int|
            0 <= i < links.len() && (#[trigger] links[i])[0] == note && links[i][1] == tag[0] {
            let i = choose|i: int|
                0 <= i < links.len() && (#[trigger] links[i])[0] == note && links[i][1] == tag[0];
            if i < links.len() - 1 {
                assert(earlier[i] == links[i]);
            }
        }
        if exists|i: int|
            0 <= i < earlier.len() && (#[trigger] earlier[i])[0] == note && earlier[i][1] == tag[0] {
            let i = choose|i: int|
                0 <= i < earlier.len() && (#[trigger] earlier[i])[0] == note && earlier[i][1]
                    == tag[0];
            assert(links[i] == earlier[i]);
        }
        if link[0] == note && link[1] == tag[0] {
            assert(links[links.len() - 1] == link);
        }
    }
}

/// Once a tag is attached to a note, every answer to the list of the note's
/// tags holds the tag, provided that the tag is stored.
pub proof fn attached_tag_is_listed(
    store: Store,
    note_id: Seq<char>,
    tag_id: Seq<char>,
    tag: Row,
    rows: Seq<Row>,
)
    requires
        store.rows(Table::Tags).contains(tag),
        tag[0] == Datum::Text(tag_id),
        accepts(
            store,
            stated(Operation::InsertNoteTag, seq![Datum::Text(note_id), Datum::Text(tag_id)]),
        ),
        answers(
            after(
                store,
                stated(Operation::InsertNoteTag, seq![Datum::Text(note_id), Datum::Text(tag_id)]),
            ),
            about(Operation::SelectNoteTags, note_id),
            rows,
        ),
    ensures
        rows.contains(tag),
{
    let attach = stated(Operation::InsertNoteTag, seq![Datum::Text(note_id), Datum::Text(tag_id)]);
    let later = after(store, attach);
    let links = later.rows(Table::NoteTags);
    assert(links == store.rows(Table::NoteTags).push(attach.parameters));
    assert(links[links.len() - 1] == attach.parameters);
    assert(later.rows(Table::Tags) == store.rows(Table::Tags));
    lemma_attached_member(links, later.rows(Table::Tags), Datum::Text(note_id), tag);
    lemma_answer_member(later, about(Operation::SelectNoteTags, note_id), rows, tag);
}

/// Once a tag is detached from a note, no answer to the list of the note's
/// tags holds a tag with that identifier, however often it was attached.
pub proof fn detached_tag_is_not_listed(
    store: Store,
    note_id: Seq<char>,
    tag_id: Seq<char>,
    rows: Seq<Row>,
    i: int,
)
    requires
        accepts(
            store,
            stated(Operation::DeleteNoteTag, seq![Datum::Text(note_id), Datum::Text(tag_id)]),
        ),
        answers(
            after(
                store,
                stated(Operation::DeleteNoteTag, seq![Datum::Text(note_id), Datum::Text(tag_id)]),
            ),
            about(Operation::SelectNoteTags, note_id),
            rows,
        ),
        0 <= i < rows.len(),
    ensures
        rows[i][0] != Datum::Text(tag_id),
{
    let detach = stated(Operation::DeleteNoteTag, seq![Datum::Text(note_id), Datum::Text(tag_id)]);
    let p = detach.parameters;
    let later = after(store, detach);
    let links = later.rows(Table::NoteTags);
    let stays = |row: Row| !(row[0] == p[0] && row[1] == p[1]);
    assert(links == store.rows(Table::NoteTags).filter(stays));
    assert(rows.contains(rows[i]));
    lemma_answer_member(later, about(Operation::SelectNoteTags, note_id), rows, rows[i]);
    lemma_attached_member(links, later.rows(Table::Tags), Datum::Text(note_id), rows[i]);
    let k = choose|k: int|
        0 <= k < links.len() && (#[trigger] links[k])[0] == Datum::Text(note_id) && links[k][1]
            == rows[i][0];
    assert(links.contains(links[k]));
    lemma_filter_member(store.rows(Table::NoteTags), stays, links[k]);
}

/// A record that is stored is read back as itself: after an insertion of its
/// row that the store runs, every answer to a statement that reads its table,
/// or the rows of the owner that it names, holds a row that gives the record.
pub proof fn stored_record_is_read<R: Record>(
    store: Store,
    record: R,
    insert: Operation,
    query: StatementView,
    rows: Seq<Row>,
)
    requires
        accepts(store, stated(insert, R::row(record@))),
        insert.shape() matches Shape::Insert { table } && match query.operation.shape() {
            Shape::All { table: read } => read == table,
            Shape::Owned { table: read, column, ordered } => read == table && 0 <= column
                < R::row(record@).len() && query.parameters[0] == R::row(record@)[column],
            _ => false,
        },
        answers(after(store, stated(insert, R::row(record@))), query, rows),
    ensures
        exists|i: int|
            0 <= i < rows.len() && R::read(#[trigger] rows[i]) == Some(record@),
{
    stored_row_is_read(store, stated(insert, R::row(record@)), query, rows);
    record.read_what_was_stored();
    let i = choose|i: int| 0 <= i < rows.len() && rows[i] == R::row(record@);
    assert(R::read(rows[i]) == Some(record@));
}

/// A workspace that is created is among the workspaces read afterwards.
pub proof fn created_workspace_is_read(store: Store, workspace: Workspace, rows: Seq<Row>)
    requires
        accepts(store, stated(Operation::InsertWorkspace, Workspace::row(workspace@))),
        answers(
            after(store, stated(Operation::InsertWorkspace, Workspace::row(workspace@))),
            stated(Operation::SelectWorkspaces, Seq::empty()),
            rows,
        ),
    ensures
        exists|i: int|
            0 <= i < rows.len() && Workspace::read(#[trigger] rows[i]) == Some(workspace@),
{
    stored_record_is_read(
        store,
        workspace,
        Operation::InsertWorkspace,
        stated(Operation::SelectWorkspaces, Seq::empty()),
        rows,
    );
}

/// A tab that is created is among the tabs of its workspace read afterwards.
pub proof fn created_tab_is_read(store: Store, tab: Tab, rows: Seq<Row>)
    requires
        accepts(store, stated(Operation::InsertTab, Tab::row(tab@))),
        answers(
            after(store, stated(Operation::InsertTab, Tab::row(tab@))),
            about(Operation::SelectWorkspaceTabs, tab@.workspace_id),
            rows,
        ),
    ensures
        exists|i: int|
            0 <= i < rows.len() && Tab::read(#[trigger] rows[i]) == Some(tab@),
{
    stored_record_is_read(
        store,
        tab,
        Operation::InsertTab,
        about(Operation::SelectWorkspaceTabs, tab@.workspace_id),
        rows,
    );
}

/// A note that is created is among the notes of its project read afterwards,
/// with the times that it was stored with.
pub proof fn created_note_is_read(store: Store, note: Note, rows: Seq<Row>)
    requires
        accepts(store, stated(Operation::InsertNote, Note::row(note@))),
        answers(
            after(store, stated(Operation::InsertNote, Note::row(note@))),
            about(Operation::SelectNotes, note@.project_id),
            rows,
        ),
    ensures
        exists|i: int|
            0 <= i < rows.len() && Note::read(#[trigger] rows[i]) == Some(note@),
{
    stored_record_is_read(
        store,
        note,
        Operation::InsertNote,
        about(Operation::SelectNotes, note@.project_id),
        rows,
    );
}

/// A project that is created is among the projects read afterwards.
pub proof fn created_project_is_read(store: Store, project: Project, rows: Seq<Row>)
    requires
        accepts(store, stated(Operation::InsertProject, Project::row(project@))),
        answers(
            after(store, stated(Operation::InsertProject, Project::row(project@))),
            stated(Operation::SelectProjects, Seq::empty()),
            rows,
        ),
    ensures
        exists|i: int|
            0 <= i < rows.len() && Project::read(#[trigger] rows[i]) == Some(project@),
{
    stored_record_is_read(
        store,
        project,
        Operation::InsertProject,
        stated(Operation::SelectProjects, Seq::empty()),
        rows,
    );
}

/// A tag that is created is among the tags read afterwards.
pub proof fn created_tag_is_read(store: Store, tag: Tag, rows: Seq<Row>)
    requires
        accepts(store, stated(Operation::InsertTag, Tag::row(tag@))),
        answers(
            after(store, stated(Operation::InsertTag, Tag::row(tag@))),
            stated(Operation::SelectTags, Seq::empty()),
            rows,
        ),
    ensures
        exists|i: int|
            0 <= i < rows.len() && Tag::read(#[trigger] rows[i]) == Some(tag@),
{
    stored_record_is_read(
        store,
        tag,
        Operation::InsertTag,
        stated(Operation::SelectTags, Seq::empty()),
        rows,
    );
}

/// A task that is created is among the tasks of its note read afterwards.
pub proof fn created_task_is_read(store: Store, task: Task, rows: Seq<Row>)
    requires
        accepts(store, stated(Operation::InsertTask, Task::row(task@))),
        answers(
            after(store, stated(Operation::InsertTask, Task::row(task@))),
            about(Operation::SelectTasks, task@.note_id),
            rows,
        ),
    ensures
        exists|i: int|
            0 <= i < rows.len() && Task::read(#[trigger] rows[i]) == Some(task@),
{
    stored_record_is_read(
        store,
        task,
        Operation::InsertTask,
        about(Operation::SelectTasks, task@.note_id),
        rows,
    );
}

/// Every tab read for a workspace is a tab of that workspace: a tab created
/// under another workspace is not among them.
pub proof fn tabs_read_are_the_workspaces(
    store: Store,
    workspace_id: Seq<char>,
    rows: Seq<Row>,
    i: int,
)
    requires
        answers(store, about(Operation::SelectWorkspaceTabs, workspace_id), rows),
        0 <= i < rows.len(),
    ensures
        Tab::read(rows[i]) matches Some(read) ==> read.workspace_id == workspace_id,
{
    scoped_rows_are_the_owners(store, about(Operation::SelectWorkspaceTabs, workspace_id), rows, i);
}

/// Every note read for a project is a note of that project: a note created
/// under another project is not among them.
pub proof fn notes_read_are_the_projects(
    store: Store,
    project_id: Seq<char>,
    rows: Seq<Row>,
    i: int,
)
    requires
        answers(store, about(Operation::SelectNotes, project_id), rows),
        0 <= i < rows.len(),
    ensures
        Note::read(rows[i]) matches Some(read) ==> read.project_id == project_id,
{
    scoped_rows_are_the_owners(store, about(Operation::SelectNotes, project_id), rows, i);
}

/// Every task read for a note is a task of that note: a task created under
/// another note is not among them.
pub proof fn tasks_read_are_the_notes(
    store: Store,
    note_id: Seq<char>,
    rows: Seq<Row>,
    i: int,
)
    requires
        answers(store, about(Operation::SelectTasks, note_id), rows),
        0 <= i < rows.len(),
    ensures
        Task::read(rows[i]) matches Some(read) ==> read.note_id == note_id,
{
    scoped_rows_are_the_owners(store, about(Operation::SelectTasks, note_id), rows, i);
}

/// The tabs read for a workspace come by ascending position.
pub proof fn tabs_read_are_in_order(
    store: Store,
    workspace_id: Seq<char>,
    rows: Seq<Row>,
    i: int,
    j: int,
)
    requires
        answers(store, about(Operation::SelectWorkspaceTabs, workspace_id), rows),
        0 <= i <= j < rows.len(),
    ensures
        Tab::read(rows[i]) matches Some(first) ==> (Tab::read(rows[j]) matches Some(second)
            ==> first.position <= second.position),
{
}

/// Filtering keeps rows that fit their table fitting, and keys that differ
/// differing.
proof fn lemma_filter_keeps(table: Table, rows: Seq<Row>, pass: spec_fn(Row) -> bool)
    ensures
        all_held(table, rows) ==> all_held(table, rows.filter(pass)),
        keys_differ(rows) ==> keys_differ(rows.filter(pass)),
    decreases rows.len(),
{
    reveal(Seq::filter);
    if rows.len() > 0 {
        let earlier = rows.drop_last();
        lemma_filter_keeps(table, earlier, pass);
        if all_held(table, rows) {
            assert forall|i: int| 0 <= i < earlier.len() implies table.holds(
                #[trigger] earlier[i],
            ) by {
                assert(earlier[i] == rows[i]);
            }
        }
        if keys_differ(rows) {
            assert forall|i: int, j: int| 0 <= i < j < earlier.len() implies (
            #[trigger] earlier[i])[0] != (#[trigger] earlier[j])[0] by {
                assert(earlier[i] == rows[i] && earlier[j] == rows[j]);
            }
            let kept = earlier.filter(pass);
            assert forall|i: int| 0 <= i < kept.len() implies (#[trigger] kept[i])[0]
                != rows.last()[0] by {
                assert(kept.contains(kept[i]));
                lemma_filter_member(earlier, pass, kept[i]);
                let k = choose|k: int| 0 <= k < earlier.len() && earlier[k] == kept[i];
                assert(rows[k] == kept[i]);
                assert(rows[rows.len() - 1] == rows.last());
            }
        }
    }
}

/// Every statement leaves a sound store sound: each row still fits its
/// table, and no keyed table holds a key twice. So no two workspaces,
/// themes, tabs, backups, projects, notes, tags or tasks ever share an
/// identifier, and no workspace has settings twice.
pub proof fn sound_stays_sound(store: Store, statement: StatementView)
    requires
        store.sound(),
    ensures
        after(store, statement).sound(),
{
    let later = after(store, statement);
    let p = statement.parameters;
    if statement.operation.shape() is LayOut {
        laying_out_again(store);
    } else if accepts(store, statement) {
        let own = table_of(statement);
        let rows = store.rows(own);
        assert(all_held(own, rows) && (own.keyed() ==> keys_differ(rows)));
        match statement.operation.shape() {
            Shape::Insert { table } => {
                let stored = rows.push(p);
                assert(later.rows(own) == stored);
                assert(all_held(own, stored));
                if own.keyed() {
                    assert forall|i: int, j: int| 0 <= i < j < stored.len() implies (
                    #[trigger] stored[i])[0] != (#[trigger] stored[j])[0] by {
                        assert(stored[i] == rows[i]);
                    }
                }
            },
            Shape::Replace { table } => {
                let others = rows.filter(|row: Row| row[0] != p[0]);
                let stored = others.push(p);
                lemma_filter_keeps(own, rows, |row: Row| row[0] != p[0]);
                assert(later.rows(own) == stored);
                assert(all_held(own, stored));
                if own.keyed() {
                    assert forall|i: int, j: int| 0 <= i < j < stored.len() implies (
                    #[trigger] stored[i])[0] != (#[trigger] stored[j])[0] by {
                        assert(stored[i] == others[i]);
                        rows.lemma_filter_pred(|row: Row| row[0] != p[0], i);
                    }
                }
            },
            Shape::Update { table, assignments, key } => {
                let stored = later.rows(own);
                assert forall|i: int| 0 <= i < stored.len() implies own.holds(
                    #[trigger] stored[i],
                ) by {
                    assert(own.holds(rows[i]));
                }
                assert forall|i: int, j: int| 0 <= i < j < stored.len() implies (
                #[trigger] stored[i])[0] != (#[trigger] stored[j])[0] by {
                    assert(own.holds(rows[i]) && own.holds(rows[j]));
                    assert(stored[i][0] == rows[i][0] && stored[j][0] == rows[j][0]);
                }
            },
            Shape::Delete { table } => {
                lemma_filter_keeps(own, rows, |row: Row| row[0] != p[0]);
            },
            Shape::Detach => {
                lemma_filter_keeps(own, rows, |row: Row| !(row[0] == p[0] && row[1] == p[1]));
            },
            _ => {},
        }
        assert forall|table: Table| #[trigger] later.has(table) implies all_held(
            table,
            later.rows(table),
        ) && (table.keyed() ==> keys_differ(later.rows(table))) by {
            if table != own {
                assert(store.has(table));
            }
        }
    }
}

/// Writing a record in place of another leaves exactly one row with its key,
/// the one written, and every row with another key as it was: the whole
/// record is replaced, nothing of the old one is kept.
pub proof fn replaced_row_stands_alone(store: Store, replace: StatementView, i: int)
    requires
        accepts(store, replace),
        replace.operation.shape() is Replace,
        0 <= i < after(store, replace).rows(table_of(replace)).len(),
    ensures
        after(store, replace).rows(table_of(replace)).last() == replace.parameters,
        after(store, replace).rows(table_of(replace))[i][0] == replace.parameters[0] <==> i
            == after(store, replace).rows(table_of(replace)).len() - 1,
        i < after(store, replace).rows(table_of(replace)).len() - 1 ==> store.rows(
            table_of(replace),
        ).contains(after(store, replace).rows(table_of(replace))[i]),
{
    let p = replace.parameters;
    let rows = store.rows(table_of(replace));
    let others = rows.filter(|row: Row| row[0] != p[0]);
    let stored = others.push(p);
    assert(after(store, replace).rows(table_of(replace)) == stored);
    if i < others.len() {
        assert(stored[i] == others[i]);
        rows.lemma_filter_pred(|row: Row| row[0] != p[0], i);
        assert(others.contains(others[i]));
        lemma_filter_member(rows, |row: Row| row[0] != p[0], others[i]);
    }
}

/// An update of a note leaves the identifier, the project and the time of
/// creation of every stored note as they were, and gives the note with the
/// updated note's identifier its title, content, pin and time of last change.
pub proof fn updated_note_keeps_its_origin(store: Store, note: Note, i: int)
    requires
        store.sound(),
        accepts(store, stated(Operation::UpdateNote, note_changes(note@))),
        0 <= i < store.rows(Table::Notes).len(),
    ensures
        after(store, stated(Operation::UpdateNote, note_changes(note@))).rows(
            Table::Notes,
        )[i][0] == store.rows(Table::Notes)[i][0],
        after(store, stated(Operation::UpdateNote, note_changes(note@))).rows(
            Table::Notes,
        )[i][3] == store.rows(Table::Notes)[i][3],
        after(store, stated(Operation::UpdateNote, note_changes(note@))).rows(
            Table::Notes,
        )[i][4] == store.rows(Table::Notes)[i][4],
        store.rows(Table::Notes)[i][0] == Datum::Text(note@.id) ==> after(
            store,
            stated(Operation::UpdateNote, note_changes(note@)),
        ).rows(Table::Notes)[i][1] == Datum::Text(note@.title),
        store.rows(Table::Notes)[i][0] == Datum::Text(note@.id) ==> after(
            store,
            stated(Operation::UpdateNote, note_changes(note@)),
        ).rows(Table::Notes)[i][2] == Datum::Text(note@.content),
        store.rows(Table::Notes)[i][0] == Datum::Text(note@.id) ==> after(
            store,
            stated(Operation::UpdateNote, note_changes(note@)),
        ).rows(Table::Notes)[i][5] == Datum::Text(note@.updated_at),
        store.rows(Table::Notes)[i][0] == Datum::Text(note@.id) ==> after(
            store,
            stated(Operation::UpdateNote, note_changes(note@)),
        ).rows(Table::Notes)[i][6] == flag_value(note@.is_pinned),
{
    assert(Table::Notes.holds(store.rows(Table::Notes)[i]));
}

/// An update of a project leaves the identifier and the time of creation of
/// every stored project as they were, and gives the project with the updated
/// project's identifier its name and time of last change.
pub proof fn updated_project_keeps_its_origin(store: Store, project: Project, i: int)
    requires
        store.sound(),
        accepts(store, stated(Operation::UpdateProject, project_changes(project@))),
        0 <= i < store.rows(Table::Projects).len(),
    ensures
        after(store, stated(Operation::UpdateProject, project_changes(project@))).rows(
            Table::Projects,
        )[i][0] == store.rows(Table::Projects)[i][0],
        after(store, stated(Operation::UpdateProject, project_changes(project@))).rows(
            Table::Projects,
        )[i][2] == store.rows(Table::Projects)[i][2],
        store.rows(Table::Projects)[i][0] == Datum::Text(project@.id) ==> after(
            store,
            stated(Operation::UpdateProject, project_changes(project@)),
        ).rows(Table::Projects)[i][1] == Datum::Text(project@.name),
        store.rows(Table::Projects)[i][0] == Datum::Text(project@.id) ==> after(
            store,
            stated(Operation::UpdateProject, project_changes(project@)),
        ).rows(Table::Projects)[i][3] == Datum::Text(project@.updated_at),
{
    assert(Table::Projects.holds(store.rows(Table::Projects)[i]));
}

/// An update of a task leaves the identifier, the note and the time of creation
/// of every stored task as they were, and gives the task with the updated
/// task's identifier its text, completion and time of last change.
pub proof fn updated_task_keeps_its_origin(store: Store, task: Task, i: int)
    requires
        store.sound(),
        accepts(store, stated(Operation::UpdateTask, task_changes(task@))),
        0 <= i < store.rows(Table::Tasks).len(),
    ensures
        after(store, stated(Operation::UpdateTask, task_changes(task@))).rows(
            Table::Tasks,
        )[i][0] == store.rows(Table::Tasks)[i][0],
        after(store, stated(Operation::UpdateTask, task_changes(task@))).rows(
            Table::Tasks,
        )[i][3] == store.rows(Table::Tasks)[i][3],
        after(store, stated(Operation::UpdateTask, task_changes(task@))).rows(
            Table::Tasks,
        )[i][4] == store.rows(Table::Tasks)[i][4],
        store.rows(Table::Tasks)[i][0] == Datum::Text(task@.id) ==> after(
            store,
            stated(Operation::UpdateTask, task_changes(task@)),
        ).rows(Table::Tasks)[i][1] == Datum::Text(task@.content),
        store.rows(Table::Tasks)[i][0] == Datum::Text(task@.id) ==> after(
            store,
            stated(Operation::UpdateTask, task_changes(task@)),
        ).rows(Table::Tasks)[i][2] == flag_value(task@.completed),
        store.rows(Table::Tasks)[i][0] == Datum::Text(task@.id) ==> after(
            store,
            stated(Operation::UpdateTask, task_changes(task@)),
        ).rows(Table::Tasks)[i][5] == Datum::Text(task@.updated_at),
{
    assert(Table::Tasks.holds(store.rows(Table::Tasks)[i]));
}

/// What a sound store answers, the engine can read: every row of an answer
/// to a statement that reads the table of a record gives such a record.
pub proof fn sound_answer_is_read<R: Record>(
    store: Store,
    query: StatementView,
    rows: Seq<Row>,
    i: int,
)
    requires
        store.sound(),
        answers(store, query, rows),
        match query.operation.shape() {
            Shape::All { table } => table == R::table(),
            Shape::Owned { table, column, ordered } => table == R::table(),
            Shape::TagsOf => R::table() == Table::Tags,
            _ => false,
        },
        0 <= i < rows.len(),
    ensures
        R::read(rows[i]) is Some,
        store.rows(R::table()).contains(rows[i]),
{
    let table = R::table();
    let stored = store.rows(table);
    assert(rows.contains(rows[i]));
    lemma_answer_member(store, query, rows, rows[i]);
    match query.operation.shape() {
        Shape::Owned { table: read, column, ordered } => {
            lemma_filter_member(stored, |row: Row| row[column] == query.parameters[0], rows[i]);
        },
        Shape::TagsOf => {
            lemma_attached_member(
                store.rows(Table::NoteTags),
                stored,
                query.parameters[0],
                rows[i],
            );
        },
        _ => {},
    }
    let k = choose|k: int| 0 <= k < stored.len() && stored[k] == rows[i];
    assert(table.holds(stored[k]));
    R::read_what_is_held(rows[i]);
}

/// What a sound store answers to a read for one owner passes the engine's
/// reading: every row gives a record of that owner, and where the statement
/// orders the rows, they come by ascending position.
pub proof fn sound_answer_is_owned<R: Owned>(
    store: Store,
    query: StatementView,
    owner: Seq<char>,
    rows: Seq<Row>,
)
    requires
        store.sound(),
        answers(store, query, rows),
        query.parameters == seq![Datum::Text(owner)],
        query.operation.shape() matches Shape::Owned { table, column, ordered } && table
            == R::table() && column == R::column(),
    ensures
        all_owned::<R>(rows, owner),
        query.operation.shape() matches Shape::Owned { table, column, ordered } && (ordered
            ==> by_position(rows)),
{
    assert forall|i: int| 0 <= i < rows.len() implies (R::read(#[trigger] rows[i]) matches Some(v)
        && R::owner(v) == owner) by {
        sound_answer_is_read::<R>(store, query, rows, i);
        scoped_rows_are_the_owners(store, query, rows, i);
        R::owner_is_read(rows[i]);
    }
}

/// No time is earlier than itself.
pub proof fn no_time_is_earlier_than_itself(a: Seq<char>)
    ensures
        !earlier(a, a),
    decreases a.len(),
{
    if a.len() > 0 {
        no_time_is_earlier_than_itself(a.drop_first());
    }
}

/// An update at a later time moves the time of last change forward: where
/// the time bound to the update of a note is later than the time of last
/// change that the note is stored with, the stored time is later after the
/// update than before. The clock alone decides whether it is: one that is set
/// back between two calls gives an update a time that is not later.
pub proof fn later_update_is_later(store: Store, note: Note, i: int)
    requires
        store.sound(),
        accepts(store, stated(Operation::UpdateNote, note_changes(note@))),
        0 <= i < store.rows(Table::Notes).len(),
        store.rows(Table::Notes)[i][0] == Datum::Text(note@.id),
        earlier(text_in(store.rows(Table::Notes)[i][5])->0, note@.updated_at),
    ensures
        earlier(
            text_in(store.rows(Table::Notes)[i][5])->0,
            text_in(
                after(store, stated(Operation::UpdateNote, note_changes(note@))).rows(
                    Table::Notes,
                )[i][5],
            )->0,
        ),
        after(store, stated(Operation::UpdateNote, note_changes(note@))).rows(Table::Notes)[i][4]
            == store.rows(Table::Notes)[i][4],
{
    updated_note_keeps_its_origin(store, note, i);
}

/// True of a statement that neither removes nor rewrites the row with the
/// given key in the given table: one that reads, one that inserts, one on
/// another table, and one that names another key.
pub open spec fn spares(statement: StatementView, table: Table, key: Datum) -> bool {
    match statement.operation.shape() {
        Shape::Replace { table: own } => own != table || statement.parameters[0] != key,
        Shape::Update { table: own, assignments, key: at } => own != table
            || statement.parameters[at] != key,
        Shape::Delete { table: own } => own != table || statement.parameters[0] != key,
        Shape::Detach => table != Table::NoteTags,
        _ => true,
    }
}

/// A statement that spares a row leaves it in its table.
pub proof fn spared_row_stays(store: Store, statement: StatementView, table: Table, row: Row)
    requires
        store.rows(table).contains(row),
        spares(statement, table, row[0]),
    ensures
        after(store, statement).rows(table).contains(row),
{
    let p = statement.parameters;
    let rows = store.rows(table);
    let k = choose|k: int| 0 <= k < rows.len() && rows[k] == row;
    if accepts(store, statement) && table_of(statement) == table {
        match statement.operation.shape() {
            Shape::Insert { table: own } => {
                assert(rows.push(p)[k] == row);
            },
            Shape::Replace { table: own } => {
                let others = rows.filter(|other: Row| other[0] != p[0]);
                lemma_filter_member(rows, |other: Row| other[0] != p[0], row);
                let j = choose|j: int| 0 <= j < others.len() && others[j] == row;
                assert(others.push(p)[j] == row);
            },
            Shape::Update { table: own, assignments, key } => {
                assert(after(store, statement).rows(table)[k] == row);
            },
            Shape::Delete { table: own } => {
                lemma_filter_member(rows, |other: Row| other[0] != p[0], row);
            },
            _ => {},
        }
    }
}

/// Every store on the way of a history that began on a sound store is sound.
pub proof fn history_stays_sound(start: Store, history: Seq<Exchange>, k: int)
    requires
        start.sound(),
    ensures
        store_at(start, history, k).sound(),
    decreases k,
{
    if 0 < k <= history.len() {
        history_stays_sound(start, history, k - 1);
        sound_stays_sound(store_at(start, history, k - 1), history[k - 1].statement);
    }
}

/// In a faithful history, a row that a statement inserted is still in its
/// table after any number of further statements that spare it.
proof fn lemma_inserted_row_stays(
    start: Store,
    history: Seq<Exchange>,
    k: int,
    m: int,
    table: Table,
)
    requires
        faithful(start, history),
        0 <= k < m <= history.len(),
        history[k].outcome is Changed,
        history[k].statement.operation.shape() == (Shape::Insert { table }),
        forall|j: int|
            k < j < m ==> spares(
                (#[trigger] history[j]).statement,
                table,
                history[k].statement.parameters[0],
            ),
    ensures
        store_at(start, history, m).rows(table).contains(history[k].statement.parameters),
    decreases m - k,
{
    let row = history[k].statement.parameters;
    if m == k + 1 {
        let before = store_at(start, history, k);
        let stored = before.rows(table).push(row);
        assert(store_at(start, history, m).rows(table) == stored);
        assert(stored[stored.len() - 1] == row);
    } else {
        lemma_inserted_row_stays(start, history, k, m - 1, table);
        let before = store_at(start, history, m - 1);
        assert(spares(history[m - 1].statement, table, row[0]));
        spared_row_stays(before, history[m - 1].statement, table, row);
    }
}

/// A record that was created is read back as itself, as long as the history
/// is faithful: where a statement that inserted the record's row ran, and a
/// later statement read the record's table, or the rows of the owner that the
/// record names, and every statement in between spared the record, the rows
/// that came back hold one that gives the record. Removing what the record
/// belongs to spares it: a note outlasts its project.
pub proof fn created_record_is_read_later<R: Record>(
    start: Store,
    history: Seq<Exchange>,
    k: int,
    m: int,
    record: R,
)
    requires
        faithful(start, history),
        0 <= k < m < history.len(),
        history[k].outcome is Changed,
        history[k].statement.operation.shape() == (Shape::Insert { table: R::table() }),
        history[k].statement.parameters == R::row(record@),
        forall|j: int|
            k < j < m ==> spares((#[trigger] history[j]).statement, R::table(), R::row(record@)[0]),
        history[m].outcome is Rows,
        match history[m].statement.operation.shape() {
            Shape::All { table } => table == R::table(),
            Shape::Owned { table, column, ordered } => table == R::table() && 0 <= column
                < R::row(record@).len() && history[m].statement.parameters[0] == R::row(
                record@,
            )[column],
            _ => false,
        },
    ensures
        exists|i: int|
            0 <= i < history[m].outcome->Rows_0.len() && R::read(
                #[trigger] history[m].outcome->Rows_0[i],
            ) == Some(record@),
{
    let rows = history[m].outcome->Rows_0;
    let row = R::row(record@);
    lemma_inserted_row_stays(start, history, k, m, R::table());
    lemma_held_row_is_read(store_at(start, history, m), history[m].statement, rows, row);
    record.read_what_was_stored();
    let i = choose|i: int| 0 <= i < rows.len() && rows[i] == row;
    assert(R::read(rows[i]) == Some(record@));
}

/// What is read in a faithful history that began on a sound store passes the
/// engine's reading: the rows that came back for a read of one owner give
/// records of that owner, in the order asked for.
pub proof fn faithful_rows_are_owned<R: Owned>(
    start: Store,
    history: Seq<Exchange>,
    k: int,
    owner: Seq<char>,
)
    requires
        start.sound(),
        faithful(start, history),
        0 <= k < history.len(),
        history[k].outcome is Rows,
        history[k].statement.parameters == seq![Datum::Text(owner)],
        history[k].statement.operation.shape() matches Shape::Owned { table, column, ordered }
            && table == R::table() && column == R::column(),
    ensures
        all_owned::<R>(history[k].outcome->Rows_0, owner),
        history[k].statement.operation.shape() matches Shape::Owned { table, column, ordered }
            && (ordered ==> by_position(history[k].outcome->Rows_0)),
{
    history_stays_sound(start, history, k);
    sound_answer_is_owned::<R>(
        store_at(start, history, k),
        history[k].statement,
        owner,
        history[k].outcome->Rows_0,
    );
}

/// What is read in a faithful history that began on a sound store gives
/// records: no row that came back for a read of a record's table fails to fit.
pub proof fn faithful_rows_are_read<R: Record>(
    start: Store,
    history: Seq<Exchange>,
    k: int,
    i: int,
)
    requires
        start.sound(),
        faithful(start, history),
        0 <= k < history.len(),
        history[k].outcome is Rows,
        match history[k].statement.operation.shape() {
            Shape::All { table } => table == R::table(),
            Shape::Owned { table, column, ordered } => table == R::table(),
            Shape::TagsOf => R::table() == Table::Tags,
            _ => false,
        },
        0 <= i < history[k].outcome->Rows_0.len(),
    ensures
        R::read(history[k].outcome->Rows_0[i]) is Some,
{
    history_stays_sound(start, history, k);
    sound_answer_is_read::<R>(
        store_at(start, history, k),
        history[k].statement,
        history[k].outcome->Rows_0,
        i,
    );
}

/// In a faithful history, the list of a note's tags that follows the
/// attachment of a tag holds the tag, provided that the tag is stored.
pub proof fn attached_tag_is_listed_next(
    start: Store,
    history: Seq<Exchange>,
    k: int,
    note_id: Seq<char>,
    tag_id: Seq<char>,
    tag: Row,
)
    requires
        faithful(start, history),
        0 <= k,
        k + 1 < history.len(),
        history[k].statement == stated(
            Operation::InsertNoteTag,
            seq![Datum::Text(note_id), Datum::Text(tag_id)],
        ),
        history[k].outcome is Changed,
        history[k + 1].statement == about(Operation::SelectNoteTags, note_id),
        history[k + 1].outcome is Rows,
        store_at(start, history, k).rows(Table::Tags).contains(tag),
        tag[0] == Datum::Text(tag_id),
    ensures
        history[k + 1].outcome->Rows_0.contains(tag),
{
    assert(store_at(start, history, k + 1) == after(
        store_at(start, history, k),
        history[k].statement,
    ));
    attached_tag_is_listed(
        store_at(start, history, k),
        note_id,
        tag_id,
        tag,
        history[k + 1].outcome->Rows_0,
    );
}

/// In a faithful history, the list of a note's tags that follows the
/// detachment of a tag holds no tag with that identifier.
pub proof fn detached_tag_is_not_listed_next(
    start: Store,
    history: Seq<Exchange>,
    k: int,
    note_id: Seq<char>,
    tag_id: Seq<char>,
    i: int,
)
    requires
        faithful(start, history),
        0 <= k,
        k + 1 < history.len(),
        history[k].statement == stated(
            Operation::DeleteNoteTag,
            seq![Datum::Text(note_id), Datum::Text(tag_id)],
        ),
        history[k].outcome is Changed,
        history[k + 1].statement == about(Operation::SelectNoteTags, note_id),
        history[k + 1].outcome is Rows,
        0 <= i < history[k + 1].outcome->Rows_0.len(),
    ensures
        history[k + 1].outcome->Rows_0[i][0] != Datum::Text(tag_id),
{
    assert(store_at(start, history, k + 1) == after(
        store_at(start, history, k),
        history[k].statement,
    ));
    detached_tag_is_not_listed(
        store_at(start, history, k),
        note_id,
        tag_id,
        history[k + 1].outcome->Rows_0,
        i,
    );
}

/// A statement that removes or rewrites by a key that no row has leaves the
/// store as it was, whatever the database made of it; and where it ran, the
/// operation that sent it has succeeded.
pub proof fn missing_key_leaves_the_store(start: Store, history: Seq<Exchange>, k: int)
    requires
        0 <= k < history.len(),
        match history[k].statement.operation.shape() {
            Shape::Delete { table } => !holds_key(
                store_at(start, history, k).rows(table),
                history[k].statement.parameters[0],
            ),
            Shape::Update { table, assignments, key } => !holds_key(
                store_at(start, history, k).rows(table),
                history[k].statement.parameters[key],
            ),
            _ => false,
        },
    ensures
        store_at(start, history, k + 1) == store_at(start, history, k),
        forall|r: Result<(), DbError>|
            history[k].outcome is Changed && #[trigger] settled(history[k].outcome, r) ==> r is Ok,
{
    let before = store_at(start, history, k);
    if accepts(before, history[k].statement) {
        missing_key_changes_nothing(before, history[k].statement);
    }
}

/// In a faithful history, an insertion under an identifier that is stored
/// already fails, so the operation that sent it hands back a failure: no
/// second record takes the place or the name of the first.
pub proof fn stored_key_is_refused(start: Store, history: Seq<Exchange>, k: int)
    requires
        faithful(start, history),
        0 <= k < history.len(),
        history[k].statement.operation.shape() matches Shape::Insert { table } && table.keyed()
            && holds_key(
            store_at(start, history, k).rows(table),
            history[k].statement.parameters[0],
        ),
    ensures
        history[k].outcome is Failed,
        store_at(start, history, k + 1) == store_at(start, history, k),
        forall|r: Result<(), DbError>| #[trigger] settled(history[k].outcome, r) ==> r is Err,
{
}

/// Among rows whose keys differ, at most one has a given key: leaving out the
/// rows with that key leaves out one row where a row has it, and none where
/// none has.
proof fn lemma_one_row_per_key(rows: Seq<Row>, key: Datum, others: spec_fn(Row) -> bool)
    requires
        keys_differ(rows),
        forall|row: Row| #[trigger] others(row) == (row[0] != key),
    ensures
        rows.filter(others).len() == if holds_key(rows, key) {
            rows.len() - 1
        } else {
            rows.len() as int
        },
    decreases rows.len(),
{
    reveal(Seq::filter);
    if rows.len() > 0 {
        let earlier = rows.drop_last();
        assert forall|i: int, j: int| 0 <= i < j < earlier.len() implies (#[trigger] earlier[i])[0]
            != (#[trigger] earlier[j])[0] by {
            assert(earlier[i] == rows[i] && earlier[j] == rows[j]);
        }
        lemma_one_row_per_key(earlier, key, others);
        if rows.last()[0] == key {
            assert(rows[rows.len() - 1] == rows.last());
            assert forall|i: int| 0 <= i < earlier.len() implies others(#[trigger] earlier[i]) by {
                assert(earlier[i] == rows[i]);
            }
            lemma_filter_all(earlier, others);
        } else {
            if holds_key(rows, key) {
                let i = choose|i: int| 0 <= i < rows.len() && (#[trigger] rows[i])[0] == key;
                assert(earlier[i] == rows[i]);
            }
            if holds_key(earlier, key) {
                let i = choose|i: int| 0 <= i < earlier.len() && (#[trigger] earlier[i])[0] == key;
                assert(rows[i] == earlier[i]);
            }
        }
    }
}

/// A removal by identifier takes one row at most out of a sound store: the
/// one with the identifier, where there is one.
pub proof fn removal_takes_one_row_at_most(store: Store, removal: StatementView)
    requires
        store.sound(),
        accepts(store, removal),
        removal.operation.shape() is Delete,
    ensures
        after(store, removal).rows(table_of(removal)).len() == if holds_key(
            store.rows(table_of(removal)),
            removal.parameters[0],
        ) {
            store.rows(table_of(removal)).len() - 1
        } else {
            store.rows(table_of(removal)).len() as int
        },
        !holds_key(after(store, removal).rows(table_of(removal)), removal.parameters[0]),
{
    let table = table_of(removal);
    let rows = store.rows(table);
    let p = removal.parameters;
    let others = |row: Row| row[0] != p[0];
    assert(table.keyed());
    assert(after(store, removal).rows(table) == rows.filter(others));
    lemma_one_row_per_key(rows, removal.parameters[0], others);
    if holds_key(rows.filter(others), removal.parameters[0]) {
        let i = choose|i: int|
            0 <= i < rows.filter(others).len() && (#[trigger] rows.filter(others)[i])[0]
                == removal.parameters[0];
        rows.lemma_filter_pred(others, i);
    }
}

/// The layout loses nothing, and a second one changes nothing: whatever the
/// database made of it, the rows of every table are afterwards as they were;
/// where it ran, every table is laid out; and where two ran one after the
/// other, the second left the store as the first had left it. The history of
/// an engine that has just been opened is one layout that ran.
pub proof fn layout_keeps_every_row(start: Store, history: Seq<Exchange>, k: int, table: Table)
    requires
        0 <= k < history.len(),
        history[k].statement == layout(),
    ensures
        store_at(start, history, k + 1).rows(table) == store_at(start, history, k).rows(table),
        history[k].outcome is Changed ==> store_at(start, history, k + 1).has(table),
        history[k].outcome is Changed && k + 1 < history.len() && history[k + 1].statement
            == layout() ==> store_at(start, history, k + 2) == store_at(start, history, k + 1),
        store_at(start, opened(), 1) == start.laid_out(),
{
    let before = store_at(start, history, k);
    laying_out_again(before);
    assert(accepts(before, layout()));
    if history[k].outcome is Changed && k + 1 < history.len() && history[k + 1].statement
        == layout() {
        assert(store_at(start, history, k + 1) == before.laid_out());
        assert(accepts(before.laid_out(), layout()));
    }
    assert(accepts(start, layout()));
    assert(store_at(start, opened(), 0) == start);
}

} // verus!
