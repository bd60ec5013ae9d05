//! Installing and driving the daemon as a user service, under systemd or
//! launchd. Each operation is a plan of steps; running the processes and
//! touching the files is left to the caller.

use vstd::prelude::*;
use vstd::string::*;
use crate::cache::{join, join_spec};
use crate::text::views;

verus! {

/// The service managers supported.
#[derive(PartialEq, Eq, Structural)]
pub enum ServiceManager {
    Systemd,
    Launchd,
}

/// Why the daemon cannot be managed as a service here.
#[derive(PartialEq, Eq, Structural)]
pub enum ServiceError {
    /// Neither systemd nor launchd was found.
    Unsupported,
}

/// The service manager: launchd on macOS, else systemd where it runs.
pub fn detect_service_manager(is_macos: bool, systemd_running: bool) -> (r: Result<
    ServiceManager,
    ServiceError,
>)
    ensures
        r == (if is_macos {
            Ok(ServiceManager::Launchd)
        } else if systemd_running {
            Ok(ServiceManager::Systemd)
        } else {
            Err(ServiceError::Unsupported)
        }),
{
    if is_macos {
        Ok(ServiceManager::Launchd)
    } else if systemd_running {
        Ok(ServiceManager::Systemd)
    } else {
        Err(ServiceError::Unsupported)
    }
}

/// One step of a service operation.
pub enum ServiceStep {
    /// Write `contents` to `path`.
    WriteFile { path: String, contents: String },
    /// Delete `path` if it exists.
    RemoveFile { path: String },
    /// Run `program` with `args`; on failure stop with `failure`, or go on
    /// when there is none.
    Run { program: String, args: Vec<String>, failure: Option<String> },
}

/// `s` runs `program` with `args`, failing with `failure`.
pub open spec fn runs(
    s: ServiceStep,
    program: Seq<char>,
    args: Seq<Seq<char>>,
    failure: Option<Seq<char>>,
) -> bool {
    match s {
        ServiceStep::Run { program: p, args: a, failure: f } => p@ == program && views(a@) == args
            && match f {
            Some(m) => failure == Some(m@),
            None => failure is None,
        },
        _ => false,
    }
}

/// `s` writes `contents` to `path`.
pub open spec fn writes(s: ServiceStep, path: Seq<char>, contents: Seq<char>) -> bool {
    match s {
        ServiceStep::WriteFile { path: p, contents: c } => p@ == path && c@ == contents,
        _ => false,
    }
}

/// `s` deletes `path`.
pub open spec fn removes(s: ServiceStep, path: Seq<char>) -> bool {
    match s {
        ServiceStep::RemoveFile { path: p } => p@ == path,
        _ => false,
    }
}

/// The service's file under the home directory.
pub open spec fn service_file_spec(m: ServiceManager, home: Seq<char>) -> Seq<char> {
    match m {
        ServiceManager::Systemd => join_spec(
            join_spec(home, ".config/systemd/user"@),
            "shitd.service"@,
        ),
        ServiceManager::Launchd => join_spec(
            join_spec(home, "Library/LaunchAgents"@),
            "dev.ava.shitd.plist"@,
        ),
    }
}

/// The directory that holds the service's file (the caller creates it).
pub open spec fn service_dir_spec(m: ServiceManager, home: Seq<char>) -> Seq<char> {
    match m {
        ServiceManager::Systemd => join_spec(home, ".config/systemd/user"@),
        ServiceManager::Launchd => join_spec(home, "Library/LaunchAgents"@),
    }
}

/// The directory that holds the service's file.
pub fn service_dir(m: &ServiceManager, home: &str) -> (r: String)
    ensures
        r@ == service_dir_spec(*m, home@),
{
    match m {
        ServiceManager::Systemd => join(home, ".config/systemd/user"),
        ServiceManager::Launchd => join(home, "Library/LaunchAgents"),
    }
}

/// The file whose presence tells that the service is installed.
pub fn is_installed(m: &ServiceManager, home: &str) -> (r: String)
    ensures
        r@ == service_file_spec(*m, home@),
{
    let dir = service_dir(m, home);
    match m {
        ServiceManager::Systemd => join(dir.as_str(), "shitd.service"),
        ServiceManager::Launchd => join(dir.as_str(), "dev.ava.shitd.plist"),
    }
}

pub open spec fn unit_head() -> Seq<char> {
    "[Unit]\nDescription=shit daemon — keeps model in memory for fast inference\n\n[Service]\nExecStart="@
}

pub open spec fn unit_tail() -> Seq<char> {
    " daemon run\nRestart=on-failure\n\n[Install]\nWantedBy=default.target\n"@
}

pub open spec fn plist_head() -> Seq<char> {
    "<?xml version=\"1.0\" encoding=\"UTF-8\"?>\n<!DOCTYPE plist PUBLIC \"-//Apple//DTD PLIST 1.0//EN\" \"http://www.apple.com/DTDs/PropertyList-1.0.dtd\">\n<plist version=\"1.0\">\n<dict>\n    <key>Label</key>\n    <string>dev.ava.shitd</string>\n    <key>ProgramArguments</key>\n    <array>\n        <string>"@
}

pub open spec fn plist_tail() -> Seq<char> {
    "</string>\n        <string>daemon</string>\n        <string>run</string>\n    </array>\n    <key>RunAtLoad</key>\n    <true/>\n    <key>KeepAlive</key>\n    <true/>\n</dict>\n</plist>\n"@
}

/// The service definition that runs `binary daemon run`.
pub open spec fn service_text_spec(m: ServiceManager, binary: Seq<char>) -> Seq<char> {
    match m {
        ServiceManager::Systemd => unit_head() + binary + unit_tail(),
        ServiceManager::Launchd => plist_head() + binary + plist_tail(),
    }
}

/// The service definition for the program at `binary`.
pub fn service_text(m: &ServiceManager, binary: &str) -> (r: String)
    ensures
        r@ == service_text_spec(*m, binary@),
{
    let mut r = String::new();
    match m {
        ServiceManager::Systemd => {
            r.append(
                "[Unit]\nDescription=shit daemon — keeps model in memory for fast inference\n\n[Service]\nExecStart=",
            );
            r.append(binary);
            r.append(" daemon run\nRestart=on-failure\n\n[Install]\nWantedBy=default.target\n");
        },
        ServiceManager::Launchd => {
            r.append(
                "<?xml version=\"1.0\" encoding=\"UTF-8\"?>\n<!DOCTYPE plist PUBLIC \"-//Apple//DTD PLIST 1.0//EN\" \"http://www.apple.com/DTDs/PropertyList-1.0.dtd\">\n<plist version=\"1.0\">\n<dict>\n    <key>Label</key>\n    <string>dev.ava.shitd</string>\n    <key>ProgramArguments</key>\n    <array>\n        <string>",
            );
            r.append(binary);
            r.append(
                "</string>\n        <string>daemon</string>\n        <string>run</string>\n    </array>\n    <key>RunAtLoad</key>\n    <true/>\n    <key>KeepAlive</key>\n    <true/>\n</dict>\n</plist>\n",
            );
        },
    }
    r
}

fn s(t: &str) -> (r: String)
    ensures
        r@ == t@,
{
    String::from_str(t)
}

/// A step that runs `program` with `args`.
fn run(program: &str, args: Vec<String>, failure: Option<&str>) -> (r: ServiceStep)
    ensures
        runs(
            r,
            program@,
            views(args@),
            match failure {
                Some(f) => Some(f@),
                None => None,
            },
        ),
{
    ServiceStep::Run {
        program: s(program),
        args,
        failure: match failure {
            Some(f) => Some(s(f)),
            None => None,
        },
    }
}

/// `systemctl --user <verb> [shitd]`.
fn systemctl(verb: &str, unit: bool, failure: Option<&str>) -> (r: ServiceStep)
    ensures
        runs(
            r,
            "systemctl"@,
            if unit {
                seq!["--user"@, verb@, "shitd"@]
            } else {
                seq!["--user"@, verb@]
            },
            match failure {
                Some(f) => Some(f@),
                None => None,
            },
        ),
{
    let mut args = vec![s("--user"), s(verb)];
    if unit {
        args.push(s("shitd"));
    }
    assert(views(args@) =~= if unit {
        seq!["--user"@, verb@, "shitd"@]
    } else {
        seq!["--user"@, verb@]
    });
    run("systemctl", args, failure)
}

/// `launchctl <verb> <file>`.
fn launchctl(verb: &str, file: &str, failure: &str) -> (r: ServiceStep)
    ensures
        runs(r, "launchctl"@, seq![verb@, file@], Some(failure@)),
{
    let args = vec![s(verb), s(file)];
    assert(views(args@) =~= seq![verb@, file@]);
    run("launchctl", args, Some(failure))
}

/// Installs the service for the program at `binary`: writes its definition
/// and, under systemd, reloads and enables it.
pub fn install(m: &ServiceManager, home: &str, binary: &str) -> (r: Vec<ServiceStep>)
    ensures
        r@.len() >= 1,
        writes(r@[0], service_file_spec(*m, home@), service_text_spec(*m, binary@)),
        *m == ServiceManager::Systemd ==> r@.len() == 3 && runs(
            r@[1],
            "systemctl"@,
            seq!["--user"@, "daemon-reload"@],
            Some("systemctl daemon-reload failed"@),
        ) && runs(
            r@[2],
            "systemctl"@,
            seq!["--user"@, "enable"@, "shitd"@],
            Some("systemctl enable shitd failed"@),
        ),
        *m == ServiceManager::Launchd ==> r@.len() == 1,
{
    let path = is_installed(m, home);
    let mut r = vec![ServiceStep::WriteFile { path, contents: service_text(m, binary) }];
    if *m == ServiceManager::Systemd {
        r.push(systemctl("daemon-reload", false, Some("systemctl daemon-reload failed")));
        r.push(systemctl("enable", true, Some("systemctl enable shitd failed")));
    }
    r
}

/// Removes the service: under systemd it is disabled first and the manager
/// reloaded after, both whatever their outcome.
pub fn uninstall(m: &ServiceManager, home: &str) -> (r: Vec<ServiceStep>)
    ensures
        *m == ServiceManager::Systemd ==> r@.len() == 3 && runs(
            r@[0],
            "systemctl"@,
            seq!["--user"@, "disable"@, "shitd"@],
            None,
        ) && removes(r@[1], service_file_spec(*m, home@)) && runs(
            r@[2],
            "systemctl"@,
            seq!["--user"@, "daemon-reload"@],
            None,
        ),
        *m == ServiceManager::Launchd ==> r@.len() == 1 && removes(
            r@[0],
            service_file_spec(*m, home@),
        ),
{
    let path = is_installed(m, home);
    match m {
        ServiceManager::Systemd => vec![
            systemctl("disable", true, None),
            ServiceStep::RemoveFile { path },
            systemctl("daemon-reload", false, None),
        ],
        ServiceManager::Launchd => vec![ServiceStep::RemoveFile { path }],
    }
}

/// Starts the service.
pub fn start(m: &ServiceManager, home: &str) -> (r: Vec<ServiceStep>)
    ensures
        r@.len() == 1,
        *m == ServiceManager::Systemd ==> runs(
            r@[0],
            "systemctl"@,
            seq!["--user"@, "start"@, "shitd"@],
            Some("systemctl start shitd failed"@),
        ),
        *m == ServiceManager::Launchd ==> runs(
            r@[0],
            "launchctl"@,
            seq!["load"@, service_file_spec(*m, home@)],
            Some("launchctl load failed"@),
        ),
{
    match m {
        ServiceManager::Systemd => vec![systemctl("start", true, Some("systemctl start shitd failed"))],
        ServiceManager::Launchd => {
            let path = is_installed(m, home);
            vec![launchctl("load", path.as_str(), "launchctl load failed")]
        },
    }
}

/// Stops the service.
pub fn stop(m: &ServiceManager, home: &str) -> (r: Vec<ServiceStep>)
    ensures
        r@.len() == 1,
        *m == ServiceManager::Systemd ==> runs(
            r@[0],
            "systemctl"@,
            seq!["--user"@, "stop"@, "shitd"@],
            Some("systemctl stop shitd failed"@),
        ),
        *m == ServiceManager::Launchd ==> runs(
            r@[0],
            "launchctl"@,
            seq!["unload"@, service_file_spec(*m, home@)],
            Some("launchctl unload failed"@),
        ),
{
    match m {
        ServiceManager::Systemd => vec![systemctl("stop", true, Some("systemctl stop shitd failed"))],
        ServiceManager::Launchd => {
            let path = is_installed(m, home);
            vec![launchctl("unload", path.as_str(), "launchctl unload failed")]
        },
    }
}

/// Restarts the service; under launchd, by unloading (whatever comes of it)
/// and loading again.
pub fn restart(m: &ServiceManager, home: &str) -> (r: Vec<ServiceStep>)
    ensures
        *m == ServiceManager::Systemd ==> r@.len() == 1 && runs(
            r@[0],
            "systemctl"@,
            seq!["--user"@, "restart"@, "shitd"@],
            Some("systemctl restart shitd failed"@),
        ),
        *m == ServiceManager::Launchd ==> r@.len() == 2 && runs(
            r@[0],
            "launchctl"@,
            seq!["unload"@, service_file_spec(*m, home@)],
            None,
        ) && runs(
            r@[1],
            "launchctl"@,
            seq!["load"@, service_file_spec(*m, home@)],
            Some("launchctl load failed"@),
        ),
{
    match m {
        ServiceManager::Systemd => vec![
            systemctl("restart", true, Some("systemctl restart shitd failed")),
        ],
        ServiceManager::Launchd => {
            let path = is_installed(m, home);
            let args = vec![s("unload"), s(path.as_str())];
            assert(views(args@) =~= seq!["unload"@, path@]);
            vec![run("launchctl", args, None), launchctl("load", path.as_str(), "launchctl load failed")]
        },
    }
}

/// Shows the daemon's log, following it when `follow` holds.
pub fn logs(m: &ServiceManager, follow: bool) -> (r: Vec<ServiceStep>)
    ensures
        r@.len() == 1,
        *m == ServiceManager::Systemd ==> runs(
            r@[0],
            "journalctl"@,
            if follow {
                seq!["--user"@, "-u"@, "shitd"@, "-n"@, "50"@, "--no-pager"@, "-f"@]
            } else {
                seq!["--user"@, "-u"@, "shitd"@, "-n"@, "50"@, "--no-pager"@]
            },
            Some("journalctl failed"@),
        ),
        *m == ServiceManager::Launchd && follow ==> runs(
            r@[0],
            "log"@,
            seq!["stream"@, "--predicate"@, "process == \"shit\""@, "--style"@, "compact"@],
            Some("log stream failed"@),
        ),
        *m == ServiceManager::Launchd && !follow ==> runs(
            r@[0],
            "log"@,
            seq![
                "show"@,
                "--predicate"@,
                "process == \"shit\""@,
                "--style"@,
                "compact"@,
                "--last"@,
                "5m"@,
            ],
            Some("log show failed"@),
        ),
{
    match m {
        ServiceManager::Systemd => {
            let mut args = vec![s("--user"), s("-u"), s("shitd"), s("-n"), s("50"), s("--no-pager")];
            if follow {
                args.push(s("-f"));
            }
            assert(views(args@) =~= if follow {
                seq!["--user"@, "-u"@, "shitd"@, "-n"@, "50"@, "--no-pager"@, "-f"@]
            } else {
                seq!["--user"@, "-u"@, "shitd"@, "-n"@, "50"@, "--no-pager"@]
            });
            vec![run("journalctl", args, Some("journalctl failed"))]
        },
        ServiceManager::Launchd => if follow {
            let args = vec![
                s("stream"),
                s("--predicate"),
                s("process == \"shit\""),
                s("--style"),
                s("compact"),
            ];
            assert(views(args@) =~= seq![
                "stream"@,
                "--predicate"@,
                "process == \"shit\""@,
                "--style"@,
                "compact"@,
            ]);
            vec![run("log", args, Some("log stream failed"))]
        } else {
            let args = vec![
                s("show"),
                s("--predicate"),
                s("process == \"shit\""),
                s("--style"),
                s("compact"),
                s("--last"),
                s("5m"),
            ];
            assert(views(args@) =~= seq![
                "show"@,
                "--predicate"@,
                "process == \"shit\""@,
                "--style"@,
                "compact"@,
                "--last"@,
                "5m"@,
            ]);
            vec![run("log", args, Some("log show failed"))]
        },
    }
}

} // verus!
