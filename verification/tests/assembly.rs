use dmexec::command::{assemble_command, has_nul_token};

#[test]
fn assemble_plain_keeps_tokens() {
    let cmd = vec!["ls".to_string(), "-l".to_string(), "/tmp".to_string()];
    let out = assemble_command(&cmd, false);
    assert_eq!(out, cmd);
}

#[test]
fn assemble_plain_empty() {
    let cmd: Vec<String> = vec![];
    let out = assemble_command(&cmd, false);
    assert!(out.is_empty());
}

#[test]
fn assemble_shell_three_elements() {
    let cmd = vec!["echo".to_string(), "hi".to_string(), "there".to_string()];
    let out = assemble_command(&cmd, true);
    assert_eq!(out.len(), 3);
    assert_eq!(out[0], "sh");
    assert_eq!(out[1], "-c");
    assert_eq!(out[2], "echo hi there");
}

#[test]
fn assemble_shell_single_token() {
    let cmd = vec!["true".to_string()];
    let out = assemble_command(&cmd, true);
    assert_eq!(out, vec!["sh".to_string(), "-c".to_string(), "true".to_string()]);
}

#[test]
fn assemble_shell_empty_join() {
    let cmd: Vec<String> = vec![];
    let out = assemble_command(&cmd, true);
    assert_eq!(out, vec!["sh".to_string(), "-c".to_string(), String::new()]);
}

#[test]
fn assemble_shell_does_not_quote() {
    let cmd = vec!["echo".to_string(), "a b".to_string()];
    let out = assemble_command(&cmd, true);
    assert_eq!(out[2], "echo a b");
}

#[test]
fn nul_token_is_detected() {
    let cmd = vec!["echo".to_string(), "bad\0arg".to_string()];
    assert!(has_nul_token(&cmd));
}

#[test]
fn clean_tokens_have_no_nul() {
    let cmd = vec!["echo".to_string(), "fine".to_string()];
    assert!(!has_nul_token(&cmd));
}
