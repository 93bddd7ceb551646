//! Tests of the command protocol parser.

use light_signal::commands::AspectCommand;
use light_signal::commands::get_next_command;

fn expect_command(line: &[u8]) -> AspectCommand {
    match get_next_command(line) {
        Ok(command) => command,
        Err(_) => panic!("expected a command for {:?}", line),
    }
}

fn expect_ignored(line: &[u8]) {
    match get_next_command(line) {
        Err(e) => assert!(e.0.is_none(), "expected no response for {:?}", line),
        Ok(_) => panic!("expected the line {:?} to be ignored", line),
    }
}

fn expect_report(line: &[u8]) -> Vec<u8> {
    match get_next_command(line) {
        Err(e) => e.0.expect("expected a report line"),
        Ok(_) => panic!("expected a report for {:?}", line),
    }
}

#[test]
fn parses_each_code() {
    assert_eq!(expect_command(b"F:0"), AspectCommand::Zero);
    assert_eq!(expect_command(b"F:1"), AspectCommand::One);
    assert_eq!(expect_command(b"F:2"), AspectCommand::Two);
    assert_eq!(expect_command(b"F:A"), AspectCommand::Deactivated);
    assert_eq!(expect_command(b"F:D"), AspectCommand::Dark);
}

#[test]
fn parses_with_terminator_and_whitespace() {
    assert_eq!(expect_command(b"F:1\n"), AspectCommand::One);
    assert_eq!(expect_command(b"  F:2  \r\n"), AspectCommand::Two);
    assert_eq!(expect_command(b"\tF:A\t\n"), AspectCommand::Deactivated);
}

#[test]
fn ignores_foreign_identifier() {
    expect_ignored(b"G:1\n");
    expect_ignored(b"FF:1\n");
    expect_ignored(b"f:1\n");
    expect_ignored(b"G:total nonsense # with comment\n");
    expect_ignored(b":1\n");
}

#[test]
fn ignores_empty_and_comment_only_lines() {
    expect_ignored(b"");
    expect_ignored(b"\n");
    expect_ignored(b"   \r\n");
    expect_ignored(b"# just a comment\n");
    expect_ignored(b"   # spaced comment\n");
}

#[test]
fn excludes_comment_from_parsing() {
    assert_eq!(expect_command(b"F:2 # slow down\n"), AspectCommand::Two);
    assert_eq!(expect_command(b"F:1#no space\n"), AspectCommand::One);
    // A comment can hide the rest of the command section.
    expect_ignored(b"#F:1\n");
}

#[test]
fn third_section_is_ignored() {
    assert_eq!(expect_command(b"F:1:extra\n"), AspectCommand::One);
}

#[test]
fn missing_command_reports_code_zero() {
    let report = expect_report(b"F\n");
    assert_eq!(report, b"F:E:0#Missing command in \"F\"\n".to_vec());
}

#[test]
fn empty_command_section_reports_code_zero() {
    let report = expect_report(b"F:\n");
    assert!(report.starts_with(b"F:E:0#"));
    assert!(report.ends_with(b"\n"));
}

#[test]
fn unknown_command_reports_code_zero() {
    let report = expect_report(b"F:9\n");
    assert_eq!(report, b"F:E:0#Unknown command \"9\"\n".to_vec());
}

#[test]
fn unknown_multibyte_command_is_quoted() {
    let report = expect_report(b"F:halt\n");
    assert_eq!(report, b"F:E:0#Unknown command \"halt\"\n".to_vec());
}
