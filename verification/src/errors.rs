//! The error taxonomy of identifier parsing.

use vstd::prelude::*;

verus! {

/// Why a piece of text was rejected as a Spotify identifier or URI.
///
/// All four variants are pure validation failures: they report malformed
/// caller input and are never transient or retryable.
#[derive(Debug, Clone, Copy, PartialEq, Eq, Hash, Structural)]
pub enum IdError {
    /// The URI does not start with `spotify:` or `spotify/`.
    InvalidPrefix,
    /// The URI cannot be split into a kind part and an id part
    /// (for example, it mixes the `:` and `/` separators).
    InvalidFormat,
    /// The URI names an unrecognized kind, or a kind other than the one the
    /// caller asked for (for example, an album URI parsed as a track).
    InvalidType,
    /// The id is empty or contains a character that is not ASCII alphanumeric.
    InvalidId,
}

/// The canonical description of an error, as a character sequence.
pub open spec fn error_message(e: IdError) -> Seq<char> {
    match e {
        IdError::InvalidPrefix => "invalid prefix"@,
        IdError::InvalidFormat => "invalid format"@,
        IdError::InvalidType => "invalid type"@,
        IdError::InvalidId => "invalid id"@,
    }
}

impl IdError {
    /// A short human-readable description of the error.
    pub fn message(&self) -> (r: &'static str)
        ensures
            r@ == error_message(*self),
    {
        match self {
            IdError::InvalidPrefix => "invalid prefix",
            IdError::InvalidFormat => "invalid format",
            IdError::InvalidType => "invalid type",
            IdError::InvalidId => "invalid id",
        }
    }
}

} // verus!
