use bitlink_client::credentials::{
    from_file, from_variable, resolve_token, ApiToken, TokenFile, TOKEN_FILE, TOKEN_VARIABLE,
};
use bitlink_client::error::ErrorKind;

#[test]
fn the_variable_is_preferred_to_the_file() {
    let token = resolve_token(
        Some("from-variable".to_string()),
        TokenFile::Contents("from-file".to_string()),
    )
    .unwrap();
    assert_eq!(token.as_str(), "from-variable");
}

#[test]
fn the_variable_is_enough_without_a_file() {
    let token = resolve_token(
        Some("from-variable".to_string()),
        TokenFile::Unopened("No such file or directory (os error 2)".to_string()),
    )
    .unwrap();
    assert_eq!(token.as_str(), "from-variable");
}

#[test]
fn the_file_is_read_where_the_variable_is_not_set() {
    let token = resolve_token(None, TokenFile::Contents("from-file\n".to_string())).unwrap();
    assert_eq!(token.as_str(), "from-file");
}

#[test]
fn the_credential_is_trimmed() {
    let token = resolve_token(Some("  padded\t".to_string()), TokenFile::Contents(String::new()))
        .unwrap();
    assert_eq!(token.as_str(), "padded");
    assert_eq!(ApiToken::new("\n abc \r\n").as_str(), "abc");
}

#[test]
fn an_empty_variable_gives_an_empty_credential() {
    let token = resolve_token(Some(String::new()), TokenFile::Contents("from-file".to_string()))
        .unwrap();
    assert_eq!(token.as_str(), "");
}

#[test]
fn without_either_source_resolution_fails() {
    let reason = "No such file or directory (os error 2)";
    let first = resolve_token(None, TokenFile::Unopened(reason.to_string()));
    let second = resolve_token(None, TokenFile::Unopened(reason.to_string()));
    let first = first.err().unwrap();
    assert_eq!(first.kind, ErrorKind::Credential);
    assert_eq!(first.status, None);
    assert_eq!(first.message, reason);
    assert_eq!(Some(first), second.err());
}

#[test]
fn an_unreadable_file_fails_with_the_cause() {
    let e = resolve_token(
        None,
        TokenFile::Unread("stream did not contain valid UTF-8".to_string()),
    )
    .err()
    .unwrap();
    assert_eq!(e.kind, ErrorKind::Credential);
    assert_eq!(
        e.message,
        "Failed to get API file token.\n\nCaused by:\n    stream did not contain valid UTF-8"
    );
}

#[test]
fn the_two_steps_agree_with_the_resolution() {
    assert!(from_variable(None).is_none());
    assert_eq!(from_variable(Some(" v ".to_string())).unwrap().as_str(), "v");
    assert_eq!(from_file(TokenFile::Contents(" f ".to_string())).ok().unwrap().as_str(), "f");
    assert!(from_file(TokenFile::Unopened("gone".to_string())).is_err());
}

#[test]
fn the_sources_have_fixed_names() {
    assert!(!TOKEN_VARIABLE.is_empty());
    assert!(!TOKEN_FILE.is_empty());
}
