//! The ways in which an invocation ends without a response.

use vstd::prelude::*;

verus! {

/// Why an invocation was given up. The platform reports such an invocation as
/// failed; no response is shaped for it.
#[derive(Clone, Copy, Debug, PartialEq, Eq, Structural)]
pub enum Fatal {
    /// The `rowid` parameter is not the text of a 64-bit integer.
    InvalidRowId,
    /// The request has no body, or its body is not a quote.
    MalformedBody,
    /// The table could not be reached, rejected the statement, or answered
    /// with something the statement cannot give.
    Storage,
}

/// Where the cause of a failure lies.
#[derive(Clone, Copy, Debug, PartialEq, Eq, Structural)]
pub enum ErrorClass {
    /// The caller sent something that cannot be served.
    ClientInput,
    /// The table failed.
    Storage,
}

impl Fatal {
    /// Where the cause of the failure lies.
    pub open spec fn spec_class(self) -> ErrorClass {
        match self {
            Fatal::InvalidRowId => ErrorClass::ClientInput,
            Fatal::MalformedBody => ErrorClass::ClientInput,
            Fatal::Storage => ErrorClass::Storage,
        }
    }

    /// Where the cause of the failure lies: with the caller for an
    /// identifier or a body that cannot be read, with the table otherwise.
    pub fn class(self) -> (class: ErrorClass)
        ensures
            class == self.spec_class(),
    {
        match self {
            Fatal::InvalidRowId => ErrorClass::ClientInput,
            Fatal::MalformedBody => ErrorClass::ClientInput,
            Fatal::Storage => ErrorClass::Storage,
        }
    }
}

} // verus!
