//! The command-line surface: parsing, the usage text, and exit codes.

use keyhelper::cli::{exit_code, parse_command, usage_lines, Command, RunOutcome};

fn args(parts: &[&str]) -> Vec<String> {
    parts.iter().map(|s| s.to_string()).collect()
}

#[test]
fn listen_argument_asks_for_listening() {
    assert!(matches!(parse_command(&args(&["helper", "listen"])), Command::Listen));
    // Extra arguments after `listen` change nothing.
    assert!(matches!(parse_command(&args(&["helper", "listen", "more"])), Command::Listen));
}

#[test]
fn write_with_text_asks_for_injection_of_that_text() {
    match parse_command(&args(&["helper", "write", "hello"])) {
        Command::Write { text } => assert_eq!(text, "hello"),
        _ => panic!("expected a write command"),
    }
}

#[test]
fn everything_else_asks_for_the_usage_text() {
    assert!(matches!(parse_command(&args(&["helper"])), Command::ShowUsage));
    assert!(matches!(parse_command(&args(&["helper", "bogus"])), Command::ShowUsage));
    // `write` without a text is a usage error.
    assert!(matches!(parse_command(&args(&["helper", "write"])), Command::ShowUsage));
    let empty: Vec<String> = Vec::new();
    assert!(matches!(parse_command(&empty), Command::ShowUsage));
}

#[test]
fn usage_names_both_commands() {
    let lines = usage_lines("helper");
    assert_eq!(lines.len(), 4);
    assert_eq!(lines[0], "Usage: helper [listen|write <text>]");
    let all = lines.join("\n");
    assert!(all.contains("listen"));
    assert!(all.contains("write <text>"));
}

#[test]
fn exit_codes_follow_the_outcome() {
    assert_eq!(exit_code(RunOutcome::WriteSucceeded), 0);
    assert_eq!(exit_code(RunOutcome::WriteFailed), 101);
    assert_eq!(exit_code(RunOutcome::ListenFailed), 1);
    assert_eq!(exit_code(RunOutcome::UsageShown), 1);
}
