//! How a run against the catalog can fail.

use vstd::prelude::*;

verus! {

/// The ways a run against the catalog can fail.
#[derive(Debug, Clone, Copy, PartialEq, Eq, Structural)]
pub enum CoreError {
    /// The session handshake did not yield both a session identifier and a
    /// form token.
    GetToken,
    /// The search request failed at the transport layer.
    GetChallengeList,
    /// An artifact could not be fetched or written.
    DownloadFailure,
}

impl CoreError {
    /// A short human-readable description of the failure.
    pub fn to_string(&self) -> (text: String)
        ensures
            text@ == self.message(),
    {
        match self {
            CoreError::GetToken => "session token unavailable".to_owned(),
            CoreError::GetChallengeList => "challenge list request failed".to_owned(),
            CoreError::DownloadFailure => "download failed".to_owned(),
        }
    }

    /// The text that `to_string` renders.
    pub open spec fn message(&self) -> Seq<char> {
        match self {
            CoreError::GetToken => "session token unavailable"@,
            CoreError::GetChallengeList => "challenge list request failed"@,
            CoreError::DownloadFailure => "download failed"@,
        }
    }
}

} // verus!
