use vstd::prelude::*;

verus! {

/// The ways a migration run can fail. Every failure is terminal: nothing is
/// retried, and the error is surfaced to the caller.
#[derive(Clone, Copy, Debug, PartialEq, Eq, Structural)]
pub enum MigrateError {
    /// An input file (the example or the source to migrate) was missing or
    /// unreadable.
    FileReadError,
    /// The request to the completion endpoint could not be completed.
    NetworkError,
    /// The endpoint's reply was not a valid response envelope, or the
    /// required `migrated_code` member was absent.
    ParseError,
    /// The destination file or its parent directories could not be written.
    FileWriteError,
}

impl MigrateError {
    /// The description of this failure, as a sequence of characters.
    pub open spec fn spec_message(self) -> Seq<char> {
        match self {
            MigrateError::FileReadError => "could not read an input file"@,
            MigrateError::NetworkError => "the request could not be completed"@,
            MigrateError::ParseError => "the reply was not a valid migration response"@,
            MigrateError::FileWriteError => "could not write the migrated code"@,
        }
    }

    /// A short human-readable description of the failure.
    pub fn message(&self) -> (r: String)
        ensures
            r@ == self.spec_message(),
    {
        match self {
            MigrateError::FileReadError => String::from_str("could not read an input file"),
            MigrateError::NetworkError => String::from_str("the request could not be completed"),
            MigrateError::ParseError => String::from_str("the reply was not a valid migration response"),
            MigrateError::FileWriteError => String::from_str("could not write the migrated code"),
        }
    }
}

} // verus!
