use wmcore::SpawnError;
use wmcore::complete_spawn;
use wmcore::parse_command;
use wmcore::split_command_line;

#[test]
fn empty_command_line_is_rejected() {
    assert!(matches!(parse_command(""), Err(SpawnError::EmptyCommand)));
}

#[test]
fn blank_command_line_is_rejected() {
    assert!(matches!(parse_command("   "), Err(SpawnError::EmptyCommand)));
    assert!(matches!(parse_command(" \t\r\n "), Err(SpawnError::EmptyCommand)));
}

#[test]
fn single_token_becomes_the_program() {
    let cmd = parse_command("true").unwrap();
    assert_eq!(cmd.program, "true");
    assert!(cmd.args.is_empty());
}

#[test]
fn later_tokens_become_the_arguments() {
    let cmd = parse_command("echo hello world").unwrap();
    assert_eq!(cmd.program, "echo");
    assert_eq!(cmd.args, vec![String::from("hello"), String::from("world")]);
}

#[test]
fn any_ascii_whitespace_separates_tokens() {
    let cmd = parse_command(" a\t\tb \n c\r").unwrap();
    assert_eq!(cmd.program, "a");
    assert_eq!(cmd.args, vec![String::from("b"), String::from("c")]);
}

#[test]
fn tokens_keep_non_ascii_characters() {
    let cmd = parse_command("xdg-open f\u{fc}r").unwrap();
    assert_eq!(cmd.program, "xdg-open");
    assert_eq!(cmd.args, vec![String::from("f\u{fc}r")]);
}

#[test]
fn splitting_alone_yields_all_tokens() {
    assert!(split_command_line("").is_empty());
    assert_eq!(split_command_line(" x "), vec![String::from("x")]);
    assert_eq!(
        split_command_line("one two  three"),
        vec![String::from("one"), String::from("two"), String::from("three")]
    );
}

#[test]
fn successful_launch_reports_success_without_waiting() {
    // A launcher that only reports that the process now exists: success
    // comes back untouched, nothing observes the child further.
    let launched: Result<(), String> = Ok(());
    assert!(complete_spawn(launched).is_ok());
}

#[test]
fn failed_launch_surfaces_the_os_message() {
    let launched: Result<(), String> = Err(String::from("No such file or directory"));
    match complete_spawn(launched) {
        Err(SpawnError::Spawn(msg)) => {
            assert_eq!(msg, "No such file or directory");
        }
        other => panic!("expected a spawn error, got {:?}", other),
    }
}
