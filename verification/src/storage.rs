//! Failures reported by the database layer, as plain values.

use vstd::prelude::*;
use crate::text::{contains_text, text_contains};

verus! {

/// A failed repository call: the error's display text and, when the
/// database itself refused the statement, the database's own message.
#[derive(Debug, Clone, PartialEq, Eq)]
pub struct RepoError {
    pub message: String,
    pub database_message: Option<String>,
}

/// The database refused the statement with a message containing `marker`.
pub open spec fn refused_with(e: RepoError, marker: Seq<char>) -> bool {
    e.database_message matches Some(m) && contains_text(m@, marker)
}

/// Whether the database refused the statement with a message containing
/// `marker`.
pub fn is_refused_with(e: &RepoError, marker: &str) -> (b: bool)
    ensures
        b == refused_with(*e, marker@),
{
    match &e.database_message {
        Some(m) => text_contains(m.as_str(), marker),
        None => false,
    }
}

} // verus!
