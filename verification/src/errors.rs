//! Error taxonomy shared by the storage model and the business logic.

use vstd::prelude::*;

verus! {

/// Classifies a failure reported by the storage model or by a business rule.
#[derive(Clone, Copy, Debug, PartialEq, Eq, Structural)]
pub enum ErrorCode {
    InsertError,
    UpdateError,
    DeleteError,
    QueryError,
    NoResults,
    MultipleResultsWhenOneExpected,
    ValidationError,
    BusinessProcessError,
}

/// An error carried back to the caller: a code plus an optional
/// human-readable message.
#[derive(Clone, Debug)]
pub struct DatabaseError {
    pub code: ErrorCode,
    pub message: Option<String>,
}

impl DatabaseError {
    pub fn new(code: ErrorCode, message: Option<String>) -> (r: DatabaseError)
        ensures
            r.code == code,
            r.message == message,
    {
        DatabaseError { code, message }
    }

    /// True when the error carries the given code and exactly the given text.
    pub open spec fn is_text(self, code: ErrorCode, text: Seq<char>) -> bool {
        &&& self.code == code
        &&& self.message is Some
        &&& self.message->0@ == text
    }

    /// Builds an error whose message is the given text.
    pub fn with_text(code: ErrorCode, text: &str) -> (r: DatabaseError)
        ensures
            r.is_text(code, text@),
    {
        DatabaseError { code, message: Some(text.to_owned()) }
    }
}

impl PartialEq for DatabaseError {
    fn eq(&self, other: &DatabaseError) -> (r: bool) {
        let codes_match = self.code == other.code;
        let messages_match = match (&self.message, &other.message) {
            (Some(a), Some(b)) => *a == *b,
            (None, None) => true,
            _ => false,
        };
        codes_match && messages_match
    }
}

impl vstd::std_specs::cmp::PartialEqSpecImpl for DatabaseError {
    open spec fn obeys_eq_spec() -> bool {
        true
    }

    open spec fn eq_spec(&self, other: &DatabaseError) -> bool {
        &&& self.code == other.code
        &&& match (self.message, other.message) {
            (Some(a), Some(b)) => a@ == b@,
            (None, None) => true,
            _ => false,
        }
    }
}

} // verus!
