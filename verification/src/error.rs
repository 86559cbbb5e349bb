use vstd::prelude::*;

verus! {

/// Why a ledger operation was refused.
#[derive(Clone, Copy, Debug, PartialEq, Eq, Structural)]
pub enum Error {
    /// A referenced account, category, payee, transaction or allocation is absent.
    NotFound,
    /// The store refused the change: a uniqueness or reference constraint
    /// would be broken, or a stored number would leave its range.
    StoreError,
    /// A command carried a field that cannot be read.
    ValidationError,
}

impl Error {
    /// The name of the error kind.
    pub fn message(&self) -> (text: &'static str)
        ensures
            text@ == match *self {
                Error::NotFound => "not found"@,
                Error::StoreError => "store error"@,
                Error::ValidationError => "validation error"@,
            },
    {
        match self {
            Error::NotFound => "not found",
            Error::StoreError => "store error",
            Error::ValidationError => "validation error",
        }
    }
}

} // verus!
