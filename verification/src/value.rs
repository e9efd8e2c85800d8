//! The values that a column of the store can hold.

use vstd::prelude::*;
use vstd::string::StringExecFns;

verus! {

/// What one column of one row holds, as mathematics.
pub enum Datum {
    /// No value.
    Null,
    /// A whole number.
    Integer(int),
    /// A piece of text.
    Text(Seq<char>),
    /// A real number or a blob: a kind of value that no column of this store
    /// is ever given. What it holds is not kept.
    Other,
}

/// What one column of one row holds: a parameter bound to a statement, or a
/// cell read back from a query.
#[derive(Clone, Debug, PartialEq, Eq)]
pub enum SqlValue {
    /// No value.
    Null,
    /// A whole number.
    Integer(i64),
    /// A piece of text.
    Text(String),
    /// A real number or a blob read back from the database. No statement of
    /// this library binds one.
    Other,
}

impl View for SqlValue {
    type V = Datum;

    open spec fn view(&self) -> Datum {
        match self {
            SqlValue::Null => Datum::Null,
            SqlValue::Integer(i) => Datum::Integer(*i as int),
            SqlValue::Text(s) => Datum::Text(s@),
            SqlValue::Other => Datum::Other,
        }
    }
}

impl DeepView for SqlValue {
    type V = Datum;

    open spec fn deep_view(&self) -> Datum {
        self@
    }
}

/// The column value that stands for a truth value: 1 for true, 0 for false.
pub open spec fn flag_value(b: bool) -> Datum {
    Datum::Integer(if b { 1 } else { 0 })
}

/// The column value that stands for an optional text: NULL where there is none.
pub open spec fn optional_text_value(t: Option<Seq<char>>) -> Datum {
    match t {
        Some(s) => Datum::Text(s),
        None => Datum::Null,
    }
}

/// The text that a column value gives to a text field: only a text does.
pub open spec fn text_in(v: Datum) -> Option<Seq<char>> {
    match v {
        Datum::Text(s) => Some(s),
        _ => None,
    }
}

/// The truth value that a column value gives to a boolean field: any integer
/// does, and every integer but 0 means true.
pub open spec fn flag_in(v: Datum) -> Option<bool> {
    match v {
        Datum::Integer(i) => Some(i != 0),
        _ => None,
    }
}

/// The number that a column value gives to a 32-bit field: an integer within
/// the field's range does.
pub open spec fn number_in(v: Datum) -> Option<int> {
    match v {
        Datum::Integer(i) => if i32::MIN <= i <= i32::MAX {
            Some(i)
        } else {
            None
        },
        _ => None,
    }
}

/// The optional text that a column value gives: NULL gives none, a text gives
/// itself, anything else is refused.
pub open spec fn optional_text_in(v: Datum) -> Option<Option<Seq<char>>> {
    match v {
        Datum::Null => Some(None),
        Datum::Text(s) => Some(Some(s)),
        _ => None,
    }
}

impl SqlValue {
    /// True of the values that a statement can bind: all but `Other`.
    pub open spec fn bindable(&self) -> bool {
        !(self is Other)
    }

    /// The value of a text field.
    pub fn text(s: &str) -> (v: SqlValue)
        ensures
            v@ == Datum::Text(s@),
    {
        SqlValue::Text(String::from_str(s))
    }

    /// The value of a boolean field.
    pub fn flag(b: bool) -> (v: SqlValue)
        ensures
            v@ == flag_value(b),
    {
        if b {
            SqlValue::Integer(1)
        } else {
            SqlValue::Integer(0)
        }
    }

    /// The value of a 32-bit integer field.
    pub fn number(n: i32) -> (v: SqlValue)
        ensures
            v@ == Datum::Integer(n as int),
    {
        SqlValue::Integer(n as i64)
    }

    /// The value of an optional text field.
    pub fn optional_text(t: &Option<String>) -> (v: SqlValue)
        ensures
            v@ == optional_text_value(
                match t {
                    Some(s) => Some(s@),
                    None => None,
                },
            ),
    {
        match t {
            Some(s) => SqlValue::Text(s.clone()),
            None => SqlValue::Null,
        }
    }

    /// Reads a text field.
    pub fn as_text(&self) -> (r: Option<String>)
        ensures
            match r {
                Some(s) => text_in(self@) == Some(s@),
                None => text_in(self@) is None,
            },
    {
        match self {
            SqlValue::Text(s) => Some(s.clone()),
            _ => None,
        }
    }

    /// Reads a boolean field.
    pub fn as_flag(&self) -> (r: Option<bool>)
        ensures
            r == flag_in(self@),
    {
        match self {
            SqlValue::Integer(i) => Some(*i != 0),
            _ => None,
        }
    }

    /// Reads a 32-bit integer field.
    pub fn as_number(&self) -> (r: Option<i32>)
        ensures
            match r {
                Some(n) => number_in(self@) == Some(n as int),
                None => number_in(self@) is None,
            },
    {
        match self {
            SqlValue::Integer(i) => if -2147483648 <= *i && *i <= 2147483647 {
                Some(*i as i32)
            } else {
                None
            },
            _ => None,
        }
    }

    /// Reads an optional text field.
    pub fn as_optional_text(&self) -> (r: Option<Option<String>>)
        ensures
            match r {
                Some(Some(s)) => optional_text_in(self@) == Some(Some(s@)),
                Some(None) => optional_text_in(self@) == Some(None::<Seq<char>>),
                None => optional_text_in(self@) is None,
            },
    {
        match self {
            SqlValue::Null => Some(None),
            SqlValue::Text(s) => Some(Some(s.clone())),
            _ => None,
        }
    }
}

} // verus!
