//! Why a report is rejected.

use vstd::prelude::*;

verus! {

/// The two ways in which a report can be rejected.
#[derive(Debug)]
pub enum Error {
    /// A required part is missing; the text names it.
    Missing(String),
    /// The session identifier is no decimal 64-bit integer.
    ParseIntError(std::num::ParseIntError),
}

impl Error {
    /// Whether this error says that the part called `what` is missing.
    pub open spec fn is_missing(&self, what: Seq<char>) -> bool {
        match self {
            Error::Missing(name) => name@ == what,
            Error::ParseIntError(_) => false,
        }
    }

    /// Whether this error says that the session identifier is malformed.
    pub open spec fn is_malformed_session(&self) -> bool {
        self is ParseIntError
    }
}

} // verus!
