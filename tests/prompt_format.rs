use shit::prompt::{format_prompt, parse_command_context, CommandContext};

#[test]
fn prompt_quotes_each_error_line() {
    let ctx = CommandContext {
        command: "git psuh".to_string(),
        exit_code: 1,
        stderr: "git: 'psuh' is not a git command\nSee 'git --help'.".to_string(),
    };
    assert_eq!(
        format_prompt(&ctx),
        "$ git psuh\n> git: 'psuh' is not a git command\n> See 'git --help'.\nOP:"
    );
}

#[test]
fn prompt_without_error_output() {
    let ctx = CommandContext { command: "sl".to_string(), exit_code: 127, stderr: String::new() };
    assert_eq!(format_prompt(&ctx), "$ sl\nOP:");
}

#[test]
fn prompt_drops_final_newline_and_carriage_returns() {
    let ctx = CommandContext { command: "x".to_string(), exit_code: 1, stderr: "a\r\nb\n".to_string() };
    assert_eq!(format_prompt(&ctx), "$ x\n> a\n> b\nOP:");
}

#[test]
fn context_record_is_parsed() {
    let ctx = parse_command_context("git psuh\n1\nline one\nline two\n");
    assert_eq!(ctx.command, "git psuh");
    assert_eq!(ctx.exit_code, 1);
    assert_eq!(ctx.stderr, "line one\nline two");
}

#[test]
fn context_record_with_bad_or_missing_code() {
    let ctx = parse_command_context("ls\nabc");
    assert_eq!(ctx.exit_code, 1);
    assert_eq!(ctx.stderr, "");
    let ctx = parse_command_context("ls");
    assert_eq!(ctx.command, "ls");
    assert_eq!(ctx.exit_code, 1);
    let ctx = parse_command_context("");
    assert_eq!(ctx.command, "");
    let ctx = parse_command_context("false\n-2\n");
    assert_eq!(ctx.exit_code, -2);
    let ctx = parse_command_context("x\n127\n\nafter blank");
    assert_eq!(ctx.exit_code, 127);
    assert_eq!(ctx.stderr, "\nafter blank");
}
