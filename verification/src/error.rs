//! What can go wrong between the track's metadata and the status line.

use vstd::prelude::*;

verus! {

/// A failure of the text pipeline. None of them is papered over with a
/// placeholder text.
#[derive(Debug, Clone, Copy, PartialEq, Eq, Structural)]
pub enum StatusError {
    /// The configured pattern of a "featuring" annotation does not compile.
    InvalidPattern,
    /// The track came without an artist.
    NoArtist,
}

impl StatusError {
    /// A message for the user.
    pub fn message(&self) -> (m: &'static str)
        ensures
            *self is InvalidPattern ==> m@ == "Error; the configured feat_regex is not a valid pattern"@,
            *self is NoArtist ==> m@ == "Error; the track has no artist"@,
    {
        match self {
            StatusError::InvalidPattern => "Error; the configured feat_regex is not a valid pattern",
            StatusError::NoArtist => "Error; the track has no artist",
        }
    }
}

/// A result of the pipeline with its text taken as a sequence of characters.
pub open spec fn text_of(r: Result<String, StatusError>) -> Result<Seq<char>, StatusError> {
    match r {
        Ok(s) => Ok(s@),
        Err(e) => Err(e),
    }
}

} // verus!
