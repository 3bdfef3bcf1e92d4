use hyperfine_core::prepare::{prepare, CommandError};

#[test]
fn prepare_is_deterministic() {
    let first = prepare("echo hello world", "", "-c").unwrap().unwrap();
    let second = prepare("echo hello world", "", "-c").unwrap().unwrap();
    assert_eq!(first.executable, second.executable);
    assert_eq!(first.arguments, second.arguments);
}

#[test]
fn prepare_empty_command_is_no_command() {
    assert!(prepare("", "", "-c").unwrap().is_none());
}

#[test]
fn prepare_whitespace_command_is_no_command() {
    assert!(prepare("   \t ", "", "-c").unwrap().is_none());
}

#[test]
fn prepare_splits_plain_command() {
    let pc = prepare("echo hello", "", "-c").unwrap().unwrap();
    assert_eq!(pc.executable, "echo");
    assert_eq!(pc.arguments, vec!["hello".to_string()]);
}

#[test]
fn prepare_honors_quoting_and_escapes() {
    let pc = prepare("echo 'a b' \"c d\" e\\ f", "", "-c").unwrap().unwrap();
    assert_eq!(pc.executable, "echo");
    assert_eq!(
        pc.arguments,
        vec!["a b".to_string(), "c d".to_string(), "e f".to_string()]
    );
}

#[test]
fn prepare_with_explicit_shell_passes_command_through() {
    let pc = prepare("echo hello", "/bin/bash", "-c").unwrap().unwrap();
    assert_eq!(pc.executable, "/bin/bash");
    assert_eq!(
        pc.arguments,
        vec!["-c".to_string(), "echo hello".to_string()]
    );
}

#[test]
fn prepare_with_explicit_shell_ignores_unbalanced_quotes() {
    let pc = prepare("echo 'unterminated", "/bin/bash", "-c").unwrap().unwrap();
    assert_eq!(pc.executable, "/bin/bash");
    assert_eq!(
        pc.arguments,
        vec!["-c".to_string(), "echo 'unterminated".to_string()]
    );
}

#[test]
fn prepare_unterminated_quote_is_parse_error() {
    let err = prepare("echo 'unterminated", "", "-c").unwrap_err();
    assert_eq!(
        err,
        CommandError::Parse {
            command: "echo 'unterminated".to_string()
        }
    );
}

#[test]
fn prepare_unterminated_double_quote_is_parse_error() {
    let err = prepare("echo \"unterminated", "", "-c").unwrap_err();
    assert!(matches!(err, CommandError::Parse { .. }));
}
