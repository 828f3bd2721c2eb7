//! The ways in which a conversion can fail.

use vstd::prelude::*;

verus! {

/// Why a conversion was refused.
///
/// Ill-formed input text has no variant of its own: every operation takes
/// `&str`, which is well-formed by construction.
#[derive(Clone, Copy, PartialEq, Eq, Debug, Structural)]
pub enum IdnaError {
    /// A configuration token is not in the vocabulary of its setting.
    InvalidConfiguration,
    /// The input breaks the deny list, the hyphen rule or the length limits
    /// that were in force while converting to ASCII.
    ConstraintViolation,
    /// The input holds invalid Punycode or disallowed characters, found
    /// while converting to Unicode.
    ConversionError,
}

impl IdnaError {
    /// The text that `message` returns for each failure.
    pub open spec fn message_spec(self) -> Seq<char> {
        match self {
            IdnaError::InvalidConfiguration => "invalid argument"@,
            IdnaError::ConstraintViolation => "ToAscii conversion failed"@,
            IdnaError::ConversionError => "ToUnicode conversion failed"@,
        }
    }

    /// A human-readable description of the failure.
    pub fn message(&self) -> (text: &'static str)
        ensures
            text@ == self.message_spec(),
    {
        match self {
            IdnaError::InvalidConfiguration => "invalid argument",
            IdnaError::ConstraintViolation => "ToAscii conversion failed",
            IdnaError::ConversionError => "ToUnicode conversion failed",
        }
    }
}

} // verus!
