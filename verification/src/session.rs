//! The handshake that opens a session: reading the session identifier and
//! the form token out of its answer.

use crate::errors::CoreError;
use crate::markup::{
    document_matches, document_of, element_attr, element_attr_of, parse_document, parse_selector,
    select_in_document, selector_of,
};
use crate::text::{chars_of, position_of};
use vstd::prelude::*;
use vstd::string::StrSliceExecFns;

verus! {

/// What a pair of session secrets holds, as mathematical values.
pub struct SessionCredentialsView {
    pub session_id: Seq<char>,
    pub form_token: Seq<char>,
}

/// The two secrets that the catalog issues for a session: the identifier
/// that travels in the cookie header, and the token that travels in the
/// body of every search.
#[derive(Debug, Clone, PartialEq, Eq)]
pub struct SessionCredentials {
    pub session_id: String,
    pub form_token: String,
}

impl View for SessionCredentials {
    type V = SessionCredentialsView;

    open spec fn view(&self) -> SessionCredentialsView {
        SessionCredentialsView { session_id: self.session_id@, form_token: self.form_token@ }
    }
}

impl SessionCredentials {
    /// Neither secret is empty.
    pub open spec fn wf(&self) -> bool {
        self.session_id@.len() > 0 && self.form_token@.len() > 0
    }
}

/// The session identifier that a session-cookie header carries.
///
/// The header is a list of attributes with `;` between them. The
/// identifier is what follows the first `=` of the first attribute. A
/// header whose first attribute has no `=`, or nothing behind it, carries
/// none.
pub open spec fn session_id_of(header: Seq<char>) -> Option<Seq<char>> {
    let end = position_of(header, ';', 0, header.len() as int);
    let eq = position_of(header, '=', 0, end);
    if eq + 1 < end {
        Some(header.subrange(eq + 1, end))
    } else {
        None
    }
}

/// The selector of the element that carries the form token.
pub open spec fn token_selector() -> Seq<char> {
    "[id=\"token\"]"@
}

/// The `value` attribute of the first element of a document whose `id`
/// attribute is `token`, or `None` where there is no such element or it has
/// no such attribute.
pub open spec fn token_value_of(body: Seq<char>) -> Option<Seq<char>> {
    match selector_of(token_selector()) {
        Some(sel) => {
            let found = document_matches(document_of(body), sel);
            if found.len() > 0 {
                element_attr_of(found[0], "value"@)
            } else {
                None
            }
        },
        None => None,
    }
}

/// The credentials that a session-cookie header and the value of the token
/// element give, or `None` where either is absent or gives an empty secret.
pub open spec fn credentials_of(
    set_cookie: Option<Seq<char>>,
    token_value: Option<Seq<char>>,
) -> Option<SessionCredentialsView> {
    if set_cookie is Some && token_value is Some && session_id_of(set_cookie->0) is Some
        && token_value->0.len() > 0 {
        Some(
            SessionCredentialsView {
                session_id: session_id_of(set_cookie->0)->0,
                form_token: token_value->0,
            },
        )
    } else {
        None
    }
}

fn find(s: &Vec<char>, c: char, from: usize, to: usize) -> (at: usize)
    requires
        from <= to <= s.len(),
    ensures
        at == position_of(s@, c, from as int, to as int),
        from <= at <= to,
{
    let mut at = from;
    while at < to && s[at] != c
        invariant
            from <= at <= to <= s.len(),
            position_of(s@, c, from as int, to as int) == position_of(s@, c, at as int, to as int),
        decreases to - at,
    {
        at += 1;
    }
    at
}

/// Reads the session identifier out of a session-cookie header.
pub fn session_id_from_cookie(header: &str) -> (id: Option<String>)
    ensures
        id.deep_view() == session_id_of(header@),
        id matches Some(text) ==> text@.len() > 0,
{
    let chars = chars_of(header);
    let end = find(&chars, ';', 0, chars.len());
    let eq = find(&chars, '=', 0, end);
    if end - eq > 1 {
        Some(header.substring_char(eq + 1, end).to_owned())
    } else {
        None
    }
}

/// Reads the value of the token element out of the search page.
pub fn read_token_value(body: &str) -> (value: Option<String>)
    ensures
        value.deep_view() == token_value_of(body@),
{
    match parse_selector("[id=\"token\"]") {
        Some(sel) => {
            let doc = parse_document(body);
            let found = select_in_document(&doc, &sel);
            if found.len() > 0 {
                element_attr(&found[0], "value")
            } else {
                None
            }
        },
        None => None,
    }
}

/// Decides what a handshake has yielded, from the session-cookie header of
/// the answer, where it had one, and the value of the token element of its
/// body, where it had one.
///
/// The handshake has succeeded exactly where both are present and give a
/// secret that is not empty. Every other outcome is `CoreError::GetToken`.
pub fn credentials_from(set_cookie: Option<&str>, token_value: Option<&str>) -> (outcome: Result<
    SessionCredentials,
    CoreError,
>)
    ensures
        match outcome {
            Ok(credentials) => credentials_of(set_cookie.deep_view(), token_value.deep_view())
                == Some(credentials@) && credentials.wf(),
            Err(e) => e == CoreError::GetToken && credentials_of(
                set_cookie.deep_view(),
                token_value.deep_view(),
            ) is None,
        },
{
    let header = match set_cookie {
        Some(header) => header,
        None => {
            return Err(CoreError::GetToken);
        },
    };
    let token = match token_value {
        Some(token) => token,
        None => {
            return Err(CoreError::GetToken);
        },
    };
    let session_id = match session_id_from_cookie(header) {
        Some(id) => id,
        None => {
            return Err(CoreError::GetToken);
        },
    };
    if token.is_empty() {
        return Err(CoreError::GetToken);
    }
    Ok(SessionCredentials { session_id, form_token: token.to_owned() })
}

/// Reads the credentials of a session out of the answer to the handshake:
/// its session-cookie header, where it had one, and its body.
pub fn extract_credentials(set_cookie: Option<&str>, body: &str) -> (outcome: Result<
    SessionCredentials,
    CoreError,
>)
    ensures
        match outcome {
            Ok(credentials) => credentials_of(set_cookie.deep_view(), token_value_of(body@))
                == Some(credentials@) && credentials.wf(),
            Err(e) => e == CoreError::GetToken && credentials_of(
                set_cookie.deep_view(),
                token_value_of(body@),
            ) is None,
        },
{
    let value = read_token_value(body);
    match &value {
        Some(token) => credentials_from(set_cookie, Some(token.as_str())),
        None => credentials_from(set_cookie, None),
    }
}

} // verus!
