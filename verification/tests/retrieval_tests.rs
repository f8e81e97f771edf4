use cracked::errors::CoreError;
use cracked::retrieval::{negotiate, retrieve, Answer};
use cracked::session::SessionCredentials;

fn received(set_cookie: Option<&str>, body: &str) -> Answer {
    Answer::Received { set_cookie: set_cookie.map(|s| s.to_string()), body: body.to_string() }
}

#[test]
fn failed_handshake_is_a_token_error() {
    assert_eq!(negotiate(&Answer::Failed), Err(CoreError::GetToken));
}

#[test]
fn answered_handshake_gives_the_credentials() {
    let answer = received(Some("gosess=abc123; Path=/"), "<input id=\"token\" value=\"tok-xyz\">");
    assert_eq!(
        negotiate(&answer),
        Ok(SessionCredentials {
            session_id: "abc123".to_string(),
            form_token: "tok-xyz".to_string(),
        })
    );
}

#[test]
fn answer_that_lacks_a_secret_is_a_token_error() {
    let page = "<input id=\"token\" value=\"tok-xyz\">";
    assert_eq!(negotiate(&received(None, page)), Err(CoreError::GetToken));
    assert_eq!(negotiate(&received(Some("gosess"), page)), Err(CoreError::GetToken));
    assert_eq!(negotiate(&received(Some("gosess=abc123"), "")), Err(CoreError::GetToken));
}

#[test]
fn failed_search_is_a_list_error() {
    assert_eq!(retrieve(&Answer::Failed), Err(CoreError::GetChallengeList));
}

#[test]
fn answered_search_without_entries_is_no_error() {
    let listing = retrieve(&received(None, "")).unwrap();
    assert_eq!(listing.challenges, Vec::new());
    assert_eq!(listing.skipped, 0);
    let listing = retrieve(&received(None, "<html></html>")).unwrap();
    assert_eq!(listing.challenges, Vec::new());
    let listing = retrieve(&received(None, "service unavailable")).unwrap();
    assert_eq!(listing.challenges, Vec::new());
}

#[test]
fn answered_search_gives_the_entries() {
    let page = "<table><tbody id=\"content-list\"><tr><td><a href=\"/foo123\">Foo</a></td><td><a href=\"/user/bar\">Bar</a></td><td>C/C++</td><td>x86-64</td><td>3.5</td><td>4.0</td><td>Windows</td><td>2020-01-01</td><td>2</td></tr><tr><td>broken</td></tr></tbody></table>";
    let listing = retrieve(&received(Some("gosess=abc"), page)).unwrap();
    assert_eq!(listing.challenges.len(), 1);
    assert_eq!(listing.challenges[0].name, "Foo");
    assert_eq!(listing.challenges[0].url, "/foo123");
    assert_eq!(listing.skipped, 1);
}
