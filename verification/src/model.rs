//! What the statements mean. The store is taken as mathematics: for each
//! table the sequence of its rows, oldest first. A statement of the engine
//! either runs on a store, and then leaves a store behind and, where it
//! reads, has answers, or is refused and changes nothing.
//!
//! The engine itself is not proved against this module: the database stands
//! between them. This module says what the engine expects of the database,
//! and `laws` what follows for the engine's callers if the database does so.
//! The link is the history of exchanges that the engine keeps: each operation
//! says which statement it has handed over and what came back, and
//! [`faithful`] says of a history that the database did as expected.

use vstd::prelude::*;
use crate::codec::Row;
use crate::error::FailureKind;
use crate::schema::{Operation, Shape, Table};
use crate::statement::StatementView;
use crate::value::Datum;

verus! {

/// The store as mathematics: the rows of each table that has been laid out,
/// in the order in which they were stored.
pub struct Store {
    pub tables: Map<Table, Seq<Row>>,
}

impl Store {
    /// True where the table has been laid out.
    pub open spec fn has(self, table: Table) -> bool {
        self.tables.contains_key(table)
    }

    /// The rows of a table: none where it has not been laid out.
    pub open spec fn rows(self, table: Table) -> Seq<Row> {
        if self.has(table) {
            self.tables[table]
        } else {
            Seq::empty()
        }
    }

    /// The store with the rows of one table replaced.
    pub open spec fn with(self, table: Table, rows: Seq<Row>) -> Store {
        Store { tables: self.tables.insert(table, rows) }
    }

    /// The store after the batch that lays out the tables: every table is
    /// there, and a table that was there before has the rows it had.
    pub open spec fn laid_out(self) -> Store {
        Store { tables: Map::new(|table: Table| true, |table: Table| self.rows(table)) }
    }

    /// True of a store in which every row fits its table and no keyed table
    /// holds a key twice.
    pub open spec fn sound(self) -> bool {
        forall|table: Table| #[trigger]
            self.has(table) ==> all_held(table, self.rows(table)) && (table.keyed()
                ==> keys_differ(self.rows(table)))
    }
}

/// True where each of the rows fits the table.
pub open spec fn all_held(table: Table, rows: Seq<Row>) -> bool {
    forall|i: int| 0 <= i < rows.len() ==> table.holds(#[trigger] rows[i])
}

/// True where no two of the rows have the same key.
pub open spec fn keys_differ(rows: Seq<Row>) -> bool {
    forall|i: int, j: int|
        0 <= i < j < rows.len() ==> (#[trigger] rows[i])[0] != (#[trigger] rows[j])[0]
}

/// True where one of the rows has the key.
pub open spec fn holds_key(rows: Seq<Row>, key: Datum) -> bool {
    exists|i: int| 0 <= i < rows.len() && (#[trigger] rows[i])[0] == key
}

/// The row after an update: each assigned column has the parameter that the
/// assignment names, each other column what it had.
pub open spec fn rewritten(row: Row, assignments: Map<int, int>, parameters: Row) -> Row {
    Seq::new(
        row.len(),
        |c: int|
            if assignments.contains_key(c) {
                parameters[assignments[c]]
            } else {
                row[c]
            },
    )
}

/// The position of a tab row: the number in its sixth column.
pub open spec fn position(row: Row) -> int {
    match row[5] {
        Datum::Integer(p) => p,
        _ => 0,
    }
}

/// True where the rows come by ascending position.
pub open spec fn by_position(rows: Seq<Row>) -> bool {
    forall|i: int, j: int|
        0 <= i <= j < rows.len() ==> position(#[trigger] rows[i]) <= position(#[trigger] rows[j])
}

/// The tag rows attached to a note: for each attachment of the note, oldest
/// first, the tags that have the attached identifier.
pub open spec fn attached(links: Seq<Row>, tags: Seq<Row>, note: Datum) -> Seq<Row>
    decreases links.len(),
{
    if links.len() == 0 {
        Seq::empty()
    } else {
        let link = links.last();
        let earlier = attached(links.drop_last(), tags, note);
        if link[0] == note {
            earlier + tags.filter(|tag: Row| tag[0] == link[1])
        } else {
            earlier
        }
    }
}

/// True of the statements that the engine builds: the values are as many as
/// the statement binds, and each is of the kind of the column that it is
/// stored in or compared with. The model speaks of these statements only.
pub open spec fn fits(statement: StatementView) -> bool {
    let p = statement.parameters;
    match statement.operation.shape() {
        Shape::Insert { table } => table.holds(p),
        Shape::Replace { table } => table.holds(p),
        Shape::Update { table, assignments, key } => p.len() == key + 1 && p[key] is Text
            && forall|c: int| #[trigger]
                assignments.contains_key(c) ==> 1 <= c < table.layout().len() && 0
                    <= assignments[c] < key && table.layout()[c].admits(p[assignments[c]]),
        Shape::Delete { table } => p.len() == 1 && p[0] is Text,
        Shape::Detach => p.len() == 2 && p[0] is Text && p[1] is Text,
        Shape::All { table } => p.len() == 0,
        Shape::Owned { table, column, ordered } => p.len() == 1 && p[0] is Text,
        Shape::TagsOf => p.len() == 1 && p[0] is Text,
        Shape::LayOut => p.len() == 0,
    }
}

/// The table that a statement writes to or reads from; for the tags of a
/// note, the table of tags. The layout is of every table: the first of them
/// stands for it here, and nothing is made of that.
pub open spec fn table_of(statement: StatementView) -> Table {
    match statement.operation.shape() {
        Shape::Insert { table } => table,
        Shape::Replace { table } => table,
        Shape::Update { table, assignments, key } => table,
        Shape::Delete { table } => table,
        Shape::Detach => Table::NoteTags,
        Shape::All { table } => table,
        Shape::Owned { table, column, ordered } => table,
        Shape::TagsOf => Table::Tags,
        Shape::LayOut => Table::Workspaces,
    }
}

/// True where the store runs the statement: the statement is one that the
/// engine builds, its tables have been laid out, and, where it inserts into a
/// keyed table, the key is not stored yet. The layout runs on every store.
pub open spec fn accepts(store: Store, statement: StatementView) -> bool {
    &&& fits(statement)
    &&& (statement.operation.shape() is LayOut || store.has(table_of(statement)))
    &&& match statement.operation.shape() {
        Shape::Insert { table } => table.keyed() ==> !holds_key(
            store.rows(table),
            statement.parameters[0],
        ),
        Shape::TagsOf => store.has(Table::NoteTags),
        _ => true,
    }
}

/// The store that a statement leaves behind. A statement that is refused, and
/// one that reads, leave the store as it was.
pub open spec fn after(store: Store, statement: StatementView) -> Store {
    let p = statement.parameters;
    if !accepts(store, statement) {
        store
    } else {
        match statement.operation.shape() {
            Shape::Insert { table } => store.with(table, store.rows(table).push(p)),
            Shape::Replace { table } => store.with(
                table,
                store.rows(table).filter(|row: Row| row[0] != p[0]).push(p),
            ),
            Shape::Update { table, assignments, key } => store.with(
                table,
                store.rows(table).map_values(
                    |row: Row|
                        if row[0] == p[key] {
                            rewritten(row, assignments, p)
                        } else {
                            row
                        },
                ),
            ),
            Shape::Delete { table } => store.with(
                table,
                store.rows(table).filter(|row: Row| row[0] != p[0]),
            ),
            Shape::Detach => store.with(
                Table::NoteTags,
                store.rows(Table::NoteTags).filter(|row: Row| !(row[0] == p[0] && row[1] == p[1])),
            ),
            Shape::LayOut => store.laid_out(),
            _ => store,
        }
    }
}

/// The rows that a statement reads, in the order in which the store holds
/// them. A statement that writes reads none.
pub open spec fn found(store: Store, statement: StatementView) -> Seq<Row> {
    let p = statement.parameters;
    match statement.operation.shape() {
        Shape::All { table } => store.rows(table),
        Shape::Owned { table, column, ordered } => store.rows(table).filter(
            |row: Row| row[column] == p[0],
        ),
        Shape::TagsOf => attached(store.rows(Table::NoteTags), store.rows(Table::Tags), p[0]),
        _ => Seq::empty(),
    }
}

/// True where `rows` is an answer of the store to a statement that reads: the
/// store runs the statement, `rows` holds what the statement finds, each row
/// as often as it is found, and, where the statement orders them, they come by
/// ascending position. Nothing else is said of the order: two answers to one
/// statement may differ in it.
pub open spec fn answers(store: Store, statement: StatementView, rows: Seq<Row>) -> bool {
    &&& accepts(store, statement)
    &&& rows.to_multiset() == found(store, statement).to_multiset()
    &&& (statement.operation.shape() matches Shape::Owned { table, column, ordered } ==> ordered
        ==> by_position(rows))
}

/// The order of times as the store keeps them: the order of their texts,
/// character by character, a text before each that it begins. The clock
/// writes every time in one layout, in which an earlier time comes first as
/// long as the year has four digits.
pub open spec fn earlier(a: Seq<char>, b: Seq<char>) -> bool
    decreases a.len(),
{
    if b.len() == 0 {
        false
    } else if a.len() == 0 {
        true
    } else if a[0] != b[0] {
        (a[0] as int) < (b[0] as int)
    } else {
        earlier(a.drop_first(), b.drop_first())
    }
}

/// What the database made of one statement.
pub enum Outcome {
    /// The statement ran and changed, inserted or removed this many rows.
    Changed(nat),
    /// The statement ran and these rows came back.
    Rows(Seq<Row>),
    /// The statement failed, with this kind of failure and this description.
    /// A statement that fails changes nothing.
    Failed(FailureKind, Seq<char>),
}

/// One exchange with the database: the statement that the engine handed over
/// and what the database made of it.
pub struct Exchange {
    pub statement: StatementView,
    pub outcome: Outcome,
}

/// The store after the first `k` exchanges of a history that began on the
/// store `start`: each statement that ran has left its store behind, each
/// that failed has changed nothing.
pub open spec fn store_at(start: Store, history: Seq<Exchange>, k: int) -> Store
    decreases k,
{
    if k <= 0 || k > history.len() {
        start
    } else {
        let before = store_at(start, history, k - 1);
        match history[k - 1].outcome {
            Outcome::Changed(_) => after(before, history[k - 1].statement),
            _ => before,
        }
    }
}

/// True of a history in which the database did what this module says, from
/// the store `start` on: a statement ran only where the store runs it, and
/// rows came back only as an answer of the store. The database may fail any
/// statement, for reasons of its own; it fails every statement that the store
/// refuses.
///
/// Nothing proves that a history is faithful: that is what the engine's
/// callers take from SQLite on trust. The laws say what they get for it.
pub open spec fn faithful(start: Store, history: Seq<Exchange>) -> bool {
    forall|k: int|
        0 <= k < history.len() ==> match (#[trigger] history[k]).outcome {
            Outcome::Changed(_) => accepts(store_at(start, history, k), history[k].statement),
            Outcome::Rows(rows) => answers(store_at(start, history, k), history[k].statement, rows),
            Outcome::Failed(_, _) => true,
        }
}

/// The layout: the batch that lays out the tables, with nothing bound.
pub open spec fn layout() -> StatementView {
    StatementView { operation: Operation::LayOut, parameters: Seq::empty() }
}

/// The history of an engine that has just been opened: the layout has run,
/// and nothing else.
pub open spec fn opened() -> Seq<Exchange> {
    seq![Exchange { statement: layout(), outcome: Outcome::Changed(0) }]
}

} // verus!
