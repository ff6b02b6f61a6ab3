//! Why a format could not be built.

use vstd::prelude::*;
use vstd::string::*;

verus! {

/// The two ways in which choosing a format can fail. Neither carries a
/// position or a reason: a template is either well formed or it is not.
#[derive(Clone, Copy, Debug, PartialEq, Eq, Structural)]
pub enum FormatError {
    /// The template does not follow the grammar.
    InvalidFormatString,
    /// The name is not that of a built-in format.
    InvalidFormat,
}

impl FormatError {
    pub open spec fn text(self) -> Seq<char> {
        match self {
            FormatError::InvalidFormatString => "Invalid format string"@,
            FormatError::InvalidFormat => "Invalid format"@,
        }
    }

    /// The message to show to the user.
    pub fn message(&self) -> (message: String)
        ensures
            message@ == self.text(),
    {
        match self {
            FormatError::InvalidFormatString => "Invalid format string".to_owned(),
            FormatError::InvalidFormat => "Invalid format".to_owned(),
        }
    }
}

} // verus!
