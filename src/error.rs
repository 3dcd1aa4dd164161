//! The error that encoding reports.
use vstd::prelude::*;

verus! {

/// Why a swap could not be encoded.
#[derive(Debug)]
pub enum EncodingError {
    /// The swap cannot be encoded at all; the text says why.
    FatalError(String),
}

impl EncodingError {
    /// The text that the error carries.
    pub open spec fn message(self) -> Seq<char> {
        match self {
            EncodingError::FatalError(m) => m@,
        }
    }

    /// A fatal error with the text `m`.
    pub fn fatal(m: &str) -> (r: EncodingError)
        ensures
            r.message() == m@,
    {
        EncodingError::FatalError(m.to_string())
    }

    /// The text that the error carries.
    pub fn message_text(&self) -> (r: String)
        ensures
            r@ == self.message(),
    {
        match self {
            EncodingError::FatalError(m) => m.clone(),
        }
    }
}

} // verus!
