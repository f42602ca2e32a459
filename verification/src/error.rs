//! What a tray operation can fail with.

use vstd::prelude::*;
use vstd::string::StringExecFns;

verus! {

/// The ways in which a tray operation fails.
#[derive(Clone, Debug)]
pub enum SystrayError {
    /// A call into the platform failed; the text is the platform's own diagnostic.
    OsError(String),
    /// The platform has no such capability; retrying cannot help.
    NotImplementedError,
    /// A failure that fits neither of the other kinds.
    UnknownError,
}

impl SystrayError {
    /// The text shown for this error.
    pub open spec fn message(self) -> Seq<char> {
        match self {
            SystrayError::OsError(detail) => "OsError: "@ + detail@,
            SystrayError::NotImplementedError => "Functionality is not implemented yet"@,
            SystrayError::UnknownError => "Unknown error occurrred"@,
        }
    }

    /// Renders the error as text: the platform's diagnostic behind a fixed
    /// prefix, or a fixed sentence for the two kinds that carry no detail.
    pub fn describe(&self) -> (text: String)
        ensures
            text@ == self.message(),
    {
        match self {
            SystrayError::OsError(detail) => String::from_str("OsError: ").concat(detail.as_str()),
            SystrayError::NotImplementedError => String::from_str(
                "Functionality is not implemented yet",
            ),
            SystrayError::UnknownError => String::from_str("Unknown error occurrred"),
        }
    }
}

} // verus!
