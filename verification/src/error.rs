//! The ways in which a request to the cache can fail.

use vstd::prelude::*;

verus! {

/// Why a request failed. Every failure is handed to the caller; the cache
/// retries nothing.
#[derive(Clone, Copy, Debug, PartialEq, Eq, Structural)]
pub enum CacheError {
    /// The cache folder could not be determined or created.
    DirectoryResolution,
    /// The fetch source is not a valid remote location.
    InvalidSource,
    /// The network failed, the request timed out, or the response was not a success.
    Transport,
    /// A local file could not be created, written, read or deleted.
    Io,
    /// The path of the slot has no representation as text.
    PathEncoding,
    /// The key to invalidate has no cached file.
    NotFound,
}

impl CacheError {
    /// What went wrong, in a sentence.
    pub open spec fn message_text(self) -> Seq<char> {
        match self {
            CacheError::DirectoryResolution => "Unable to determine or create the cache folder"@,
            CacheError::InvalidSource => "The fetch source is not a valid URL"@,
            CacheError::Transport => "The resource could not be fetched"@,
            CacheError::Io => "File error"@,
            CacheError::PathEncoding =>
                "Unable to retrieve cached file path. Invalid Unicode Path"@,
            CacheError::NotFound => "File not found"@,
        }
    }

    /// What went wrong, in a sentence.
    pub fn message(&self) -> (text: String)
        ensures
            text@ == self.message_text(),
    {
        match self {
            CacheError::DirectoryResolution => "Unable to determine or create the cache folder"
                .to_owned(),
            CacheError::InvalidSource => "The fetch source is not a valid URL".to_owned(),
            CacheError::Transport => "The resource could not be fetched".to_owned(),
            CacheError::Io => "File error".to_owned(),
            CacheError::PathEncoding =>
                "Unable to retrieve cached file path. Invalid Unicode Path".to_owned(),
            CacheError::NotFound => "File not found".to_owned(),
        }
    }
}

} // verus!
