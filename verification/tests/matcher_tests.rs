use ftpc::commands::{pass_base_command, port_base_command, user_base_command};
use ftpc::matcher::{contains_substring, validate, validate_greeting, FtpError};

#[test]
fn contains_finds_code_anywhere() {
    assert!(contains_substring("220 Service ready", "220"));
    assert!(contains_substring("blah 226 done", "226"));
    assert!(!contains_substring("500 oops", "226"));
    assert!(contains_substring("abc", ""));
    assert!(!contains_substring("ab", "abc"));
}

#[test]
fn contains_empty_text() {
    assert!(contains_substring("", ""));
    assert!(!contains_substring("", "220"));
}

#[test]
fn validate_succeeds_iff_a_code_occurs() {
    let base = user_base_command();
    assert!(validate("230 Logged in", &base.codes).is_ok());
    assert!(validate("530 Not logged in", &base.codes).is_err());
}

#[test]
fn port_acknowledgement_is_accepted() {
    let base = port_base_command();
    assert!(validate("200 PORT ok", &base.codes).is_ok());
}

#[test]
fn validate_error_carries_full_response() {
    let base = port_base_command();
    let err = validate("502 Command not implemented", &base.codes).unwrap_err();
    match err {
        FtpError::Protocol(text) => assert_eq!(text, "502 Command not implemented"),
        _ => panic!("expected a protocol error"),
    }
}

#[test]
fn greeting_with_220_accepted() {
    assert!(validate_greeting("220 Ready").is_ok());
}

#[test]
fn greeting_without_220_rejected_before_any_command() {
    let err = validate_greeting("421 Service not available").unwrap_err();
    match err {
        FtpError::Connection(text) => assert_eq!(text, "421 Service not available"),
        _ => panic!("expected a connection error"),
    }
}

#[test]
fn user_then_pass_scenario() {
    let user = user_base_command();
    assert!(validate("331 need pw", &user.codes).is_ok());
    let pass = pass_base_command();
    assert!(validate("230 logged in", &pass.codes).is_ok());
}

#[test]
fn sentinel_slots_never_match() {
    // "000" fills CWD's unused slots; a failed reply whose text merely
    // contains "000" must not count as success
    let cwd = ftpc::commands::cwd_base_command();
    assert!(validate("550 file1000 missing", &cwd.codes).is_err());
    assert!(!ftpc::matcher::matches("000", &cwd.codes));
    // the genuine code still matches
    assert!(validate("250 okay", &cwd.codes).is_ok());
}

#[test]
fn matches_is_permissive_substring_containment() {
    let base = user_base_command();
    // the code may occur anywhere in the response text
    assert!(ftpc::matcher::matches("file230.txt exists", &base.codes));
    assert!(!ftpc::matcher::matches("nothing relevant here", &base.codes));
}

#[test]
fn error_messages_expose_carried_text() {
    assert_eq!(FtpError::Io(String::from("broken pipe")).message(), "broken pipe");
    assert_eq!(FtpError::Decode(String::from("bad bytes")).message(), "bad bytes");
    assert_eq!(FtpError::Task(String::from("join failed")).message(), "join failed");
}
