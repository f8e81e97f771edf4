use cracked::errors::CoreError;
use cracked::search::cookie_header;
use cracked::session::{
    credentials_from, extract_credentials, read_token_value, session_id_from_cookie,
    SessionCredentials,
};

#[test]
fn handshake_yields_both_secrets() {
    let outcome = extract_credentials(
        Some("gosess=abc123; Path=/"),
        "<input id=\"token\" value=\"tok-xyz\">",
    );
    assert_eq!(
        outcome,
        Ok(SessionCredentials {
            session_id: "abc123".to_string(),
            form_token: "tok-xyz".to_string(),
        })
    );
}

#[test]
fn handshake_reads_the_token_out_of_a_whole_page() {
    let page = "<!DOCTYPE html>\n<html><head><title>Search</title></head>\n<body>\n<form method=\"post\">\n  <input type=\"text\" name=\"name\" value=\"not this\">\n  <input type=\"hidden\" name=\"token\" id=\"token\"\n         value=\"a1b2c3\"/>\n</form>\n</body></html>";
    let outcome = extract_credentials(Some("gosess=s3ss; HttpOnly; Path=/"), page);
    assert_eq!(
        outcome,
        Ok(SessionCredentials {
            session_id: "s3ss".to_string(),
            form_token: "a1b2c3".to_string(),
        })
    );
}

#[test]
fn handshake_without_cookie_fails() {
    let outcome = extract_credentials(None, "<input id=\"token\" value=\"tok-xyz\">");
    assert_eq!(outcome, Err(CoreError::GetToken));
}

#[test]
fn handshake_with_malformed_cookie_fails() {
    let body = "<input id=\"token\" value=\"tok-xyz\">";
    assert_eq!(extract_credentials(Some("gosess"), body), Err(CoreError::GetToken));
    assert_eq!(extract_credentials(Some(""), body), Err(CoreError::GetToken));
    assert_eq!(extract_credentials(Some("; gosess=abc"), body), Err(CoreError::GetToken));
    assert_eq!(extract_credentials(Some("gosess; id=abc"), body), Err(CoreError::GetToken));
}

#[test]
fn handshake_with_empty_session_id_fails() {
    let body = "<input id=\"token\" value=\"tok-xyz\">";
    assert_eq!(extract_credentials(Some("gosess=; Path=/"), body), Err(CoreError::GetToken));
    assert_eq!(extract_credentials(Some("gosess="), body), Err(CoreError::GetToken));
}

#[test]
fn handshake_without_token_element_fails() {
    let cookie = Some("gosess=abc123; Path=/");
    assert_eq!(extract_credentials(cookie, ""), Err(CoreError::GetToken));
    assert_eq!(extract_credentials(cookie, "<html></html>"), Err(CoreError::GetToken));
    assert_eq!(
        extract_credentials(cookie, "<input id=\"other\" value=\"tok-xyz\">"),
        Err(CoreError::GetToken)
    );
    assert_eq!(
        extract_credentials(cookie, "<!-- <input id=\"token\" value=\"tok-xyz\"> -->"),
        Err(CoreError::GetToken)
    );
}

#[test]
fn handshake_with_token_element_without_value_fails() {
    let cookie = Some("gosess=abc123; Path=/");
    assert_eq!(extract_credentials(cookie, "<input id=\"token\">"), Err(CoreError::GetToken));
    assert_eq!(
        extract_credentials(cookie, "<input id=\"token\" value=\"\">"),
        Err(CoreError::GetToken)
    );
}

#[test]
fn session_id_is_what_follows_the_first_equals_sign() {
    assert_eq!(session_id_from_cookie("gosess=abc123; Path=/"), Some("abc123".to_string()));
    assert_eq!(session_id_from_cookie("gosess=abc123"), Some("abc123".to_string()));
    assert_eq!(session_id_from_cookie("k=v;"), Some("v".to_string()));
    assert_eq!(session_id_from_cookie("=v"), Some("v".to_string()));
    assert_eq!(session_id_from_cookie("gosess=YWJj==; Path=/"), Some("YWJj==".to_string()));
    assert_eq!(session_id_from_cookie("a=b=c; d=e"), Some("b=c".to_string()));
    assert_eq!(session_id_from_cookie("gosess=caf\u{e9}; x=y"), Some("caf\u{e9}".to_string()));
}

#[test]
fn session_id_is_absent_from_a_malformed_header() {
    assert_eq!(session_id_from_cookie(""), None);
    assert_eq!(session_id_from_cookie(";"), None);
    assert_eq!(session_id_from_cookie("gosess"), None);
    assert_eq!(session_id_from_cookie("gosess="), None);
    assert_eq!(session_id_from_cookie("gosess=;x=y"), None);
    assert_eq!(session_id_from_cookie("gosess;x=y"), None);
}

#[test]
fn token_value_is_read_from_the_first_token_element() {
    assert_eq!(
        read_token_value("<input id=\"token\" value=\"tok-xyz\">"),
        Some("tok-xyz".to_string())
    );
    assert_eq!(
        read_token_value("<p id=\"token\" value=\"one\"></p><input id=\"token\" value=\"two\">"),
        Some("one".to_string())
    );
    assert_eq!(
        read_token_value("<input id=\"token\" value=\"a&amp;b\">"),
        Some("a&b".to_string())
    );
    assert_eq!(read_token_value("<input id=\"token\" value=\"\">"), Some("".to_string()));
    assert_eq!(read_token_value("<input id=\"token\">"), None);
    assert_eq!(read_token_value("<input id=\"Token\" value=\"x\">"), None);
    assert_eq!(read_token_value("id=\"token\" value=\"x\""), None);
}

#[test]
fn credentials_need_both_secrets() {
    assert_eq!(
        credentials_from(Some("gosess=abc; Path=/"), Some("tok")),
        Ok(SessionCredentials { session_id: "abc".to_string(), form_token: "tok".to_string() })
    );
    assert_eq!(credentials_from(None, Some("tok")), Err(CoreError::GetToken));
    assert_eq!(credentials_from(Some("gosess=abc"), None), Err(CoreError::GetToken));
    assert_eq!(credentials_from(Some("gosess=abc"), Some("")), Err(CoreError::GetToken));
    assert_eq!(credentials_from(Some("gosess"), Some("tok")), Err(CoreError::GetToken));
    assert_eq!(credentials_from(None, None), Err(CoreError::GetToken));
}

#[test]
fn cookie_header_names_the_session_cookie() {
    assert_eq!(cookie_header("abc123"), "gosess=abc123");
    assert_eq!(cookie_header(""), "gosess=");
}

#[test]
fn errors_describe_themselves() {
    assert_eq!(CoreError::GetToken.to_string(), "session token unavailable");
    assert_eq!(CoreError::GetChallengeList.to_string(), "challenge list request failed");
    assert_eq!(CoreError::DownloadFailure.to_string(), "download failed");
}

#[test]
fn test_get_search_token_returns_something() {
    let page = "<html><body><form action=\"/search\" method=\"post\">\n<input type=\"hidden\" id=\"token\" name=\"token\" value=\"XzOPrZqkf2\">\n</form></body></html>";
    let result = extract_credentials(Some("gosess=MTcxNjIzOTAyMnxEdi1CQkFF; Path=/; HttpOnly"), page);
    assert!(result.is_ok(), "Expected Ok result, got error");

    let credentials = result.unwrap();
    assert!(!credentials.session_id.is_empty(), "Expected non-empty cookie token");
    assert!(!credentials.form_token.is_empty(), "Expected non-empty HTML token");
}
