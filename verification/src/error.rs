//! The failures that the store reports, by kind.

use vstd::prelude::*;

verus! {

/// The kinds of failure. A caller can branch on the kind; the text that goes
/// with it is for people.
#[derive(Clone, Copy, Debug, PartialEq, Eq, Structural)]
pub enum FailureKind {
    /// The database file could not be created or opened.
    Io,
    /// The batch that lays out the tables failed.
    Schema,
    /// A record with this identifier is stored already.
    Conflict,
    /// The database refused the values under another of its constraints.
    ConstraintViolation,
    /// Any other failure of a statement, and a stored value that does not fit
    /// the field that reads it.
    Query,
}

/// What the engine was doing when the database reported a failure.
#[derive(Clone, Copy, Debug, PartialEq, Eq, Structural)]
pub enum Stage {
    /// Opening the database file.
    Opening,
    /// Laying out the tables.
    LayingOut,
    /// Running a statement.
    Running,
}

/// A failure of the store: its kind and a description for people.
#[derive(Clone, Debug, PartialEq, Eq)]
pub struct DbError {
    /// The kind of failure.
    pub kind: FailureKind,
    /// The description.
    pub message: String,
}

/// SQLite's primary result code for a violated constraint.
pub const CONSTRAINT: i32 = 19;

/// SQLite's extended result code for a primary key that is stored already.
pub const CONSTRAINT_PRIMARY_KEY: i32 = 1555;

/// SQLite's extended result code for a unique column whose value is stored
/// already.
pub const CONSTRAINT_UNIQUE: i32 = 2067;

/// The primary result code within an extended one: its lowest eight bits.
pub open spec fn primary_code(code: int) -> int {
    code % 256
}

/// The kind of a failure, from the stage at which it came and the extended
/// result code that SQLite gave, if it gave one.
///
/// A failure while opening is `Io`, one while laying out the tables is
/// `Schema`. A statement that fails on a primary key or a unique column is a
/// `Conflict`, on any other constraint a `ConstraintViolation`, and anything
/// else is a `Query` failure.
pub open spec fn kind_of(stage: Stage, code: Option<int>) -> FailureKind {
    match stage {
        Stage::Opening => FailureKind::Io,
        Stage::LayingOut => FailureKind::Schema,
        Stage::Running => match code {
            Some(c) => if c == CONSTRAINT_PRIMARY_KEY || c == CONSTRAINT_UNIQUE {
                FailureKind::Conflict
            } else if c >= 0 && primary_code(c) == CONSTRAINT {
                FailureKind::ConstraintViolation
            } else {
                FailureKind::Query
            },
            None => FailureKind::Query,
        },
    }
}

/// True of the kinds that a failed statement can have.
pub open spec fn statement_failure(kind: FailureKind) -> bool {
    kind == FailureKind::Conflict || kind == FailureKind::ConstraintViolation || kind
        == FailureKind::Query
}

/// The kind of a failure: see [`kind_of`].
pub fn classify(stage: Stage, code: Option<i32>) -> (kind: FailureKind)
    ensures
        kind == kind_of(
            stage,
            match code {
                Some(c) => Some(c as int),
                None => None,
            },
        ),
        stage == Stage::Running ==> statement_failure(kind),
{
    match stage {
        Stage::Opening => FailureKind::Io,
        Stage::LayingOut => FailureKind::Schema,
        Stage::Running => match code {
            Some(c) => if c == CONSTRAINT_PRIMARY_KEY || c == CONSTRAINT_UNIQUE {
                FailureKind::Conflict
            } else if c >= 0 && c % 256 == CONSTRAINT {
                FailureKind::ConstraintViolation
            } else {
                FailureKind::Query
            },
            None => FailureKind::Query,
        },
    }
}

impl DbError {
    /// The failure of the given kind with the given description.
    pub fn new(kind: FailureKind, message: String) -> (e: DbError)
        ensures
            e.kind == kind,
            e.message@ == message@,
    {
        DbError { kind, message }
    }

    /// The description of the failure, for the boundary that only takes text.
    pub fn describe(&self) -> (text: String)
        ensures
            text@ == self.message@,
    {
        self.message.clone()
    }
}

} // verus!
