//! The two exchanges with the catalog, seen from after the transport: what
//! an answer, or the lack of one, means for the run.

use crate::errors::CoreError;
use crate::listing::{challenges_of_rows, parse_challenge_list, rows_of_document, Listing};
use crate::session::{
    credentials_of, extract_credentials, token_value_of, SessionCredentials,
    SessionCredentialsView,
};
use vstd::prelude::*;

verus! {

/// What came of a request, as the transport reports it.
#[derive(Debug, Clone, PartialEq, Eq)]
pub enum Answer {
    /// The request failed before a whole answer was had.
    Failed,
    /// An answer was had: its session-cookie header, where it has one, and
    /// its body.
    Received { set_cookie: Option<String>, body: String },
}

impl Answer {
    /// The session-cookie header of the answer, where it was had and has
    /// one.
    pub open spec fn cookie(&self) -> Option<Seq<char>> {
        match self {
            Answer::Failed => None,
            Answer::Received { set_cookie, .. } => set_cookie.deep_view(),
        }
    }

    /// The body of the answer, where it was had.
    pub open spec fn page(&self) -> Option<Seq<char>> {
        match self {
            Answer::Failed => None,
            Answer::Received { body, .. } => Some(body@),
        }
    }
}

/// The credentials that the answer to the handshake gives, or `None` where
/// no answer was had or the answer lacks either secret.
pub open spec fn negotiated(answer: Answer) -> Option<SessionCredentialsView> {
    match answer.page() {
        Some(body) => credentials_of(answer.cookie(), token_value_of(body)),
        None => None,
    }
}

/// Reads the credentials of a session out of what came of the handshake.
///
/// Whatever goes wrong, a failed request, a missing or malformed cookie,
/// a missing token, is `CoreError::GetToken`: the run cannot go on.
pub fn negotiate(answer: &Answer) -> (outcome: Result<SessionCredentials, CoreError>)
    ensures
        match outcome {
            Ok(credentials) => negotiated(*answer) == Some(credentials@) && credentials.wf(),
            Err(e) => e == CoreError::GetToken && negotiated(*answer) is None,
        },
{
    match answer {
        Answer::Failed => Err(CoreError::GetToken),
        Answer::Received { set_cookie, body } => {
            let header = match set_cookie {
                Some(header) => Some(header.as_str()),
                None => None,
            };
            extract_credentials(header, body.as_str())
        },
    }
}

/// Reads the entries out of what came of a search.
///
/// Only a failed request is an error, `CoreError::GetChallengeList`. An
/// answer that was had always gives a listing, be it an empty one.
pub fn retrieve(answer: &Answer) -> (outcome: Result<Listing, CoreError>)
    ensures
        match outcome {
            Ok(listing) => {
                &&& answer.page() matches Some(body)
                &&& listing.challenges.deep_view() == challenges_of_rows(rows_of_document(body))
                &&& listing.challenges.len() + listing.skipped == rows_of_document(body).len()
            },
            Err(e) => e == CoreError::GetChallengeList && *answer == Answer::Failed,
        },
{
    match answer {
        Answer::Failed => Err(CoreError::GetChallengeList),
        Answer::Received { body, .. } => Ok(parse_challenge_list(body.as_str())),
    }
}

} // verus!
