use shit::config::{correction_step, pick_index, Config, Correction};
use shit::shell::{get_init_script, Shell};

#[test]
fn auto_execute_sources() {
    let c = Config::empty();
    assert!(!c.auto_execute_with(false));
    assert!(c.auto_execute_with(true));
    let c = Config { auto_execute: Some(true) };
    assert!(c.auto_execute_with(false));
    let c = Config { auto_execute: Some(false) };
    assert!(!c.auto_execute_with(false));
}

#[test]
fn correction_steps() {
    assert!(correction_step(0, false, true) == Correction::NoFix);
    assert!(correction_step(1, true, true) == Correction::ShowOnly);
    assert!(correction_step(1, false, false) == Correction::ConfirmThenRun);
    assert!(correction_step(1, false, true) == Correction::Run(0));
    assert!(correction_step(3, false, true) == Correction::Run(0));
    assert!(correction_step(3, false, false) == Correction::AskChoice);
}

#[test]
fn picked_index() {
    assert_eq!(pick_index("2\n", 3), 1);
    assert_eq!(pick_index("", 3), 0);
    assert_eq!(pick_index("0", 3), 0);
    assert_eq!(pick_index("9", 3), 2);
    assert_eq!(pick_index("99999999999999999999999", 3), 0);
}

#[test]
fn shells() {
    assert!(get_init_script("bash") == Ok(Shell::Bash));
    assert!(get_init_script("pwsh") == Ok(Shell::PowerShell));
    assert!(get_init_script("powershell") == Ok(Shell::PowerShell));
    assert!(get_init_script("fish") == Ok(Shell::Fish));
    assert!(get_init_script("tcsh") == Ok(Shell::Tcsh));
    assert!(get_init_script("zsh") == Ok(Shell::Zsh));
    assert!(get_init_script("cmd") == Err("cmd".to_string()));
}
