//! The clock and the source of fresh identifiers. Nothing in this file is
//! proved: each function says what the library takes on trust.

use vstd::prelude::*;

verus! {

/// `chrono::Utc::now` and `chrono::DateTime::to_rfc3339`: the time of the
/// system clock in UTC, written as a date, `T`, a time of day and the offset
/// `+00:00`. All that is claimed is that the text is not empty; two readings
/// need not differ, nor does a later one have to be greater. The call panics
/// where the system clock stands before 1970.
#[verifier::external_body]
pub(crate) fn timestamp() -> (now: String)
    ensures
        now@.len() > 0,
{
    chrono::Utc::now().to_rfc3339()
}

/// `uuid::Uuid::new_v4` and its `Display`: a random identifier in the
/// hyphenated form, which is 36 characters long.
#[verifier::external_body]
pub(crate) fn fresh_identifier() -> (id: String)
    ensures
        id@.len() == 36,
{
    uuid::Uuid::new_v4().to_string()
}

} // verus!
