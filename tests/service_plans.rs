use shit::service::{
    detect_service_manager, install, is_installed, logs, restart, service_dir, service_text, start,
    stop, uninstall, ServiceError, ServiceManager, ServiceStep,
};

fn run_of(s: &ServiceStep) -> (String, Vec<String>, Option<String>) {
    match s {
        ServiceStep::Run { program, args, failure } => (program.clone(), args.clone(), failure.clone()),
        _ => panic!("expected a command"),
    }
}

#[test]
fn detection() {
    assert!(detect_service_manager(true, true) == Ok(ServiceManager::Launchd));
    assert!(detect_service_manager(false, true) == Ok(ServiceManager::Systemd));
    assert!(detect_service_manager(false, false) == Err(ServiceError::Unsupported));
}

#[test]
fn service_files() {
    assert_eq!(is_installed(&ServiceManager::Systemd, "/home/u"), "/home/u/.config/systemd/user/shitd.service");
    assert_eq!(is_installed(&ServiceManager::Launchd, "/Users/u"), "/Users/u/Library/LaunchAgents/dev.ava.shitd.plist");
    assert_eq!(service_dir(&ServiceManager::Systemd, "/home/u"), "/home/u/.config/systemd/user");
}

#[test]
fn systemd_install() {
    let plan = install(&ServiceManager::Systemd, "/h", "/usr/bin/shit");
    assert_eq!(plan.len(), 3);
    match &plan[0] {
        ServiceStep::WriteFile { path, contents } => {
            assert_eq!(path, "/h/.config/systemd/user/shitd.service");
            assert!(contents.contains("ExecStart=/usr/bin/shit daemon run\n"));
            assert!(contents.starts_with("[Unit]\n"));
        }
        _ => panic!("write first"),
    }
    assert_eq!(
        run_of(&plan[2]),
        ("systemctl".to_string(), vec!["--user".to_string(), "enable".to_string(), "shitd".to_string()], Some("systemctl enable shitd failed".to_string()))
    );
}

#[test]
fn launchd_plist_names_binary() {
    let t = service_text(&ServiceManager::Launchd, "/bin/shit");
    assert!(t.contains("<string>/bin/shit</string>"));
    assert!(t.contains("<string>dev.ava.shitd</string>"));
}

#[test]
fn start_stop_restart() {
    assert_eq!(run_of(&start(&ServiceManager::Systemd, "/h")[0]).1, vec!["--user", "start", "shitd"]);
    assert_eq!(run_of(&stop(&ServiceManager::Launchd, "/h")[0]).1, vec!["unload", "/h/Library/LaunchAgents/dev.ava.shitd.plist"]);
    let r = restart(&ServiceManager::Launchd, "/h");
    assert_eq!(r.len(), 2);
    assert_eq!(run_of(&r[0]).2, None);
    assert_eq!(run_of(&r[1]).1[0], "load");
    assert_eq!(uninstall(&ServiceManager::Systemd, "/h").len(), 3);
}

#[test]
fn log_commands() {
    let l = run_of(&logs(&ServiceManager::Systemd, true)[0]);
    assert_eq!(l.0, "journalctl");
    assert_eq!(l.1.last().unwrap(), "-f");
    let l = run_of(&logs(&ServiceManager::Launchd, false)[0]);
    assert_eq!(l.1[0], "show");
    assert_eq!(l.2, Some("log show failed".to_string()));
}
