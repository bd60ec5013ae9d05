use shit::daemon::{read_port_record, PortRecord};
use shit::dispatch::{infer, DaemonReply, InferStep};
use shit::edit::infer_from_op;

/// The whole client with a stub daemon and a stub local run.
fn client(record: Option<&str>, daemon: Option<Vec<String>>, prompt: &str, op: &str) -> Vec<String> {
    let rec = read_port_record(record);
    let mut step = infer(&rec, None);
    loop {
        match step {
            InferStep::AskDaemon(_) => {
                let reply = match &daemon {
                    Some(f) => DaemonReply::Fixes(f.clone()),
                    None => DaemonReply::Failed,
                };
                step = infer(&rec, Some(reply));
            }
            InferStep::RunLocally => return infer_from_op(prompt, op),
            InferStep::Done(f) => return f,
        }
    }
}

#[test]
fn no_record_behaves_like_no_daemon() {
    let prompt = "$ git psuh\nOP:";
    let local = infer_from_op(prompt, "REPLACE psuh push");
    assert_eq!(client(None, Some(vec!["other".to_string()]), prompt, "REPLACE psuh push"), local);
    assert_eq!(local, vec!["git push".to_string()]);
}

#[test]
fn daemon_answer_is_used() {
    assert_eq!(
        client(Some("4000"), Some(vec!["fix".to_string()]), "$ a\nOP:", "NONE"),
        vec!["fix".to_string()]
    );
}

#[test]
fn failing_daemon_falls_back() {
    assert_eq!(
        client(Some("4000"), None, "$ sl\nOP:", "FULL ls"),
        vec!["ls".to_string()]
    );
    assert_eq!(client(Some("junk"), Some(vec!["x".to_string()]), "$ sl\nOP:", "FULL ls"), vec!["ls".to_string()]);
}

#[test]
fn first_step_asks_daemon_only_with_port() {
    assert!(matches!(infer(&PortRecord::Port(9), None), InferStep::AskDaemon(9)));
    assert!(matches!(infer(&PortRecord::Absent, None), InferStep::RunLocally));
}
