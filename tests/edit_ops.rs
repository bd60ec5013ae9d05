use shit::edit::{apply, apply_op, command_of, infer_from_op, parse_op, EditOp};

#[test]
fn test_replace_op() {
    assert_eq!(
        apply_op("git psuh origin main", "REPLACE psuh push"),
        Some("git push origin main".to_string())
    );
}

#[test]
fn test_replace_missing_word() {
    assert_eq!(apply_op("git push", "REPLACE psuh push"), None);
}

#[test]
fn test_flag_op() {
    assert_eq!(
        apply_op("rm myfile", "FLAG -f"),
        Some("rm -f myfile".to_string())
    );
}

#[test]
fn test_flag_op_no_args() {
    assert_eq!(apply_op("ls", "FLAG -la"), Some("ls -la".to_string()));
}

#[test]
fn test_prepend_op() {
    assert_eq!(
        apply_op("apt install foo", "PREPEND sudo"),
        Some("sudo apt install foo".to_string())
    );
}

#[test]
fn test_full_op() {
    assert_eq!(apply_op("sl", "FULL ls"), Some("ls".to_string()));
}

#[test]
fn test_none_op() {
    assert_eq!(apply_op("git push", "NONE"), None);
}

#[test]
fn test_unknown_op() {
    assert_eq!(apply_op("git push", "UNKNOWN something"), None);
}

#[test]
fn replace_only_first_occurrence() {
    assert_eq!(apply_op("ab ab ab", "REPLACE ab cd"), Some("cd ab ab".to_string()));
}

#[test]
fn replace_new_text_keeps_its_spaces() {
    assert_eq!(
        apply_op("gti status", "REPLACE gti git -C ."),
        Some("git -C . status".to_string())
    );
}

#[test]
fn replace_without_replacement_is_no_fix() {
    assert_eq!(apply_op("git psuh", "REPLACE psuh"), None);
}

#[test]
fn full_keeps_the_whole_rest() {
    assert_eq!(apply_op("x", "FULL git push origin main"), Some("git push origin main".to_string()));
}

#[test]
fn full_alone_gives_empty_command() {
    assert_eq!(apply_op("x", "FULL"), Some(String::new()));
}

#[test]
fn flag_takes_only_first_argument() {
    assert_eq!(apply_op("ls dir", "FLAG -l extra"), Some("ls -l dir".to_string()));
}

#[test]
fn empty_operation_is_no_fix() {
    assert_eq!(apply_op("ls", ""), None);
}

#[test]
fn keyword_is_case_sensitive() {
    assert_eq!(apply_op("ls", "flag -l"), None);
}

#[test]
fn parse_op_fields() {
    match parse_op("REPLACE a b c") {
        EditOp::Replace { old, new } => {
            assert_eq!(old, "a");
            assert_eq!(new, "b c");
        }
        _ => panic!("expected a replacement"),
    }
    assert!(matches!(parse_op("NONE"), EditOp::NoFix));
    match parse_op("PREPEND sudo -E") {
        EditOp::Prepend { token } => assert_eq!(token, "sudo"),
        _ => panic!("expected a prefix"),
    }
}

#[test]
fn apply_parsed_operation() {
    let op = EditOp::Flag { flag: "-r".to_string() };
    assert_eq!(apply("cp a b", &op), Some("cp -r a b".to_string()));
    assert_eq!(apply("cp", &EditOp::NoFix), None);
}

#[test]
fn command_of_finds_first_dollar_line() {
    let prompt = "> noise\n$ git psuh\n> git: 'psuh' is not a git command\nOP:";
    assert_eq!(command_of(prompt), "git psuh");
    assert_eq!(command_of("no command here"), "");
    assert_eq!(command_of("$ ls -la\r\nOP:"), "ls -la");
}

#[test]
fn infer_from_op_applies_to_recorded_command() {
    let prompt = "$ git psuh origin main\n> error\nOP:";
    assert_eq!(
        infer_from_op(prompt, "  REPLACE psuh push\n"),
        vec!["git push origin main".to_string()]
    );
    assert_eq!(infer_from_op(prompt, " NONE "), Vec::<String>::new());
    assert_eq!(infer_from_op(prompt, ""), Vec::<String>::new());
    assert_eq!(infer_from_op(prompt, "FULL git push"), vec!["git push".to_string()]);
    assert_eq!(infer_from_op(prompt, "REPLACE xyz abc"), Vec::<String>::new());
}

#[test]
fn infer_from_op_without_command_line() {
    assert_eq!(infer_from_op("OP:", "PREPEND sudo"), vec!["sudo ".to_string()]);
}
