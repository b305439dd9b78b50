use vstd::prelude::*;
use vstd::string::StringExecFns;

verus! {

/// Failure to obtain or to make sense of firmware data.
#[derive(Debug)]
pub enum DMIParserError {
    /// The entry point has an unknown signature, a wrong header length
    /// or an unsupported revision.
    HeaderDataError,
    /// The byte source could not supply the bytes asked for.  The text
    /// says what went wrong.
    IOError(String),
}

/// Reason why the rendering of a structure stopped early.
#[derive(Debug, Clone, Copy, PartialEq, Eq, Structural)]
pub enum DecodeError {
    /// The declared length is below the minimum of the structure type.
    InvalidLength,
    /// The firmware states that it does not support BIOS characteristics.
    CharacteristicsUnsupported,
}

impl DMIParserError {
    /// The message of this error as a sequence of characters.
    pub open spec fn spec_message(&self) -> Seq<char> {
        match self {
            DMIParserError::HeaderDataError => "Header error"@,
            DMIParserError::IOError(e) => "IOError: "@ + e@,
        }
    }

    /// Renders the error as a human-readable message.
    pub fn message(&self) -> (r: String)
        ensures
            r@ == self.spec_message(),
    {
        match self {
            DMIParserError::HeaderDataError => String::from_str("Header error"),
            DMIParserError::IOError(e) => {
                let mut r: String = String::from_str("IOError: ");
                r.append(e.as_str());
                r
            },
        }
    }
}

} // verus!
